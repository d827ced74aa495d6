//! Core pipeline of a multi-panel LED-matrix eye installation.
//!
//! Each panel shows an animated eye: a damped gaze smoother moves the pupil,
//! a timed state machine drives the eyelids, the rendered frame is read back
//! from an offscreen surface, downsampled to the panel's native grid, and
//! serialized into a framed serpentine byte protocol shared by all panels on
//! one serial link.

pub mod settings;
pub mod gray;
pub mod encode;
pub mod session;
pub mod blink;
pub mod gaze;
pub mod slot;
pub mod resample;
pub mod panel;
pub mod connection;
pub mod timer;
