//! Calibration tool for a tri-color LED: a software-multiplexed brightness
//! driver and an input controller (one knob, two buttons) that share the
//! channel levels and the frame rate.
use vstd::prelude::*;

pub mod knob;
pub mod rgb;
pub mod shared;
pub mod ui;

verus! {

/// Number of brightness levels of each channel; a level lies in `0..LEVELS`.
pub const LEVELS: u32 = 16;

/// Frame rate in Hz at startup, and the fallback when the shared value is busy.
pub const DEFAULT_FRAME_RATE: u64 = 100;

} // verus!
