//! The state that the brightness driver and the input controller share.
use vstd::prelude::*;

use embassy_sync::blocking_mutex::raw::NoopRawMutex;
use embassy_sync::mutex::Mutex;

use crate::{DEFAULT_FRAME_RATE, LEVELS};

verus! {

/// Channel levels and frame rate, each behind its own lock.
///
/// Both tasks run on one executor, so a no-op raw mutex suffices. Verus sees
/// nothing inside: the levels are locked by the driver once per frame and
/// written by the controller, both through `lock().await`.
#[verifier::external_body]
pub struct SharedState {
    pub levels: Mutex<NoopRawMutex, [u32; 3]>,
    pub frame_rate: Mutex<NoopRawMutex, u64>,
}

/// The channel levels that the levels lock of `s` held when it was made.
pub uninterp spec fn initial_levels(s: SharedState) -> Seq<u32>;

/// The frame rate that the frame-rate lock of `s` held when it was made.
pub uninterp spec fn initial_frame_rate(s: SharedState) -> u64;

impl SharedState {
    /// Relies on embassy_sync's `Mutex::new`, twice: each lock starts
    /// unlocked and holds the value given.
    #[verifier::external_body]
    fn with_values(levels: [u32; 3], frame_rate: u64) -> (r: SharedState)
        ensures
            initial_levels(r) == levels@,
            initial_frame_rate(r) == frame_rate,
    {
        SharedState { levels: Mutex::new(levels), frame_rate: Mutex::new(frame_rate) }
    }

    /// The state at startup: every channel at full brightness, the default
    /// frame rate.
    pub fn new() -> (r: SharedState)
        ensures
            initial_levels(r) == seq![(LEVELS - 1) as u32, (LEVELS - 1) as u32, (LEVELS - 1) as u32],
            initial_frame_rate(r) == DEFAULT_FRAME_RATE,
    {
        let levels: [u32; 3] = [LEVELS - 1, LEVELS - 1, LEVELS - 1];
        let r = SharedState::with_values(levels, DEFAULT_FRAME_RATE);
        proof {
            assert(levels@ =~= seq![(LEVELS - 1) as u32, (LEVELS - 1) as u32, (LEVELS - 1) as u32]);
        }
        r
    }

    /// Relies on embassy_sync's `Mutex::try_lock`: `None` while the lock is held
    /// elsewhere; otherwise the stored value, and the guard is dropped at once.
    #[verifier::external_body]
    fn try_frame_rate(&self) -> (r: Option<u64>) {
        self.frame_rate.try_lock().ok().map(|g| *g)
    }
}

/// The frame rate that a non-blocking read yields: the value read, or the
/// default when the lock was busy.
pub open spec fn frame_rate_or_default_spec(reading: Option<u64>) -> u64 {
    match reading {
        Some(v) => v,
        None => DEFAULT_FRAME_RATE,
    }
}

/// Resolves a non-blocking read of the frame rate.
pub fn frame_rate_or_default(reading: Option<u64>) -> (r: u64)
    ensures
        r == frame_rate_or_default_spec(reading),
{
    match reading {
        Some(v) => v,
        None => DEFAULT_FRAME_RATE,
    }
}

/// Reads the frame rate without waiting: the stored value if the lock is
/// free right now, the default otherwise.
pub fn get_frame_rate(shared: &SharedState) -> (r: u64) {
    let reading = shared.try_frame_rate();
    frame_rate_or_default(reading)
}

} // verus!
