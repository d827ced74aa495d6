//! The latest-value frame cell behind a panel's offscreen surface.
//!
//! Captures of the render target complete asynchronously; whenever one
//! completes, its image is committed here. Readers only ever see the most
//! recently committed frame and never wait: a reader that finds no frame
//! (or, in the threaded wrapper around this cell, finds the writer busy)
//! reuses its previous data rather than treating the miss as an error.

use vstd::prelude::*;
use crate::gray::GrayImage;

verus! {

/// Holds the most recently completed capture of one panel, if any.
pub struct FrameSlot {
    frame: Option<GrayImage>,
}

impl FrameSlot {
    /// The stored frame, if a capture has ever completed.
    pub closed spec fn spec_frame(self) -> Option<GrayImage> {
        self.frame
    }

    /// Any stored frame is a well-formed image.
    pub open spec fn wf(self) -> bool {
        match self.spec_frame() {
            Some(img) => img.wf(),
            None => true,
        }
    }

    /// An empty slot: no capture has completed yet.
    pub fn new() -> (s: FrameSlot)
        ensures
            s.wf(),
            s.spec_frame() is None,
    {
        FrameSlot { frame: None }
    }

    /// Called when an asynchronous capture completes: the new frame
    /// replaces whatever was stored before.
    pub fn commit(&mut self, img: GrayImage)
        requires
            img.wf(),
        ensures
            final(self).wf(),
            final(self).spec_frame() == Some(img),
    {
        self.frame = Some(img);
    }

    /// Non-blocking read of the latest completed frame. The result is a
    /// pure function of the slot's state, so reading twice with no commit
    /// in between returns the same image both times, bit for bit; `None`
    /// means no capture has ever completed and the caller reuses its
    /// previous data.
    pub fn try_read(&self) -> (r: &Option<GrayImage>)
        ensures
            *r == self.spec_frame(),
    {
        &self.frame
    }
}

} // verus!
