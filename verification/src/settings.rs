//! Shared configuration types and the installation's fixed tuning constants.

use vstd::prelude::*;

verus! {

/// Orientation of a panel's native pixel grid relative to its render surface.
/// A frame is rotated by this amount before it is serialized for the wire.
#[derive(Clone, Copy, PartialEq, Eq, Structural, Debug)]
pub enum Rotation {
    Rotate0,
    Rotate90,
    Rotate180,
    Rotate270,
}

/// Orientation of a camera feeding gaze targets.
#[derive(Clone, Copy, PartialEq, Eq, Structural, Debug)]
pub enum Orientation {
    Portrait,
    Landscape,
}

/// Static configuration of one camera.
#[derive(Clone, Copy, Debug)]
pub struct WebcamSettings {
    pub index: usize,
    pub camera_width: u32,
    pub camera_height: u32,
    pub orientation: Orientation,
}

/// Serial device the shared panel bus hangs off.
pub const PORT_NAME: &'static str = "/dev/ttyACM0";

/// Baud rate of the shared serial link.
pub const BAUD_RATE: u32 = 115200;

/// Panels render internally at `native resolution * UPSCALE` so that the
/// downsample to the native grid produces smooth gradients.
pub const UPSCALE: u32 = 3;

/// Milliseconds the eyelid takes to close.
pub const BLINK_MS_TO_CLOSE: u64 = 100;

/// Milliseconds the eyelid stays closed.
pub const BLINK_MS_STAY_CLOSED: u64 = 200;

/// Milliseconds the eyelid takes to reopen.
pub const BLINK_MS_TO_OPEN: u64 = 200;

/// Mean milliseconds between spontaneous blinks, independent of frame rate.
pub const BLINK_MEAN_INTERVAL_MS: u64 = 1667;

/// Gaze damping gain, as the fraction GAZE_GAIN_NUM / GAZE_GAIN_DEN.
pub const GAZE_GAIN_NUM: i64 = 1;

/// Denominator of the gaze damping gain.
pub const GAZE_GAIN_DEN: i64 = 10;

/// Largest magnitude a virtual-canvas coordinate may take.
pub const COORD_LIMIT: i64 = 1_000_000;

} // verus!
