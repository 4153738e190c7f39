//! The desktop platform bridge: the clock the GUI measures frames against.
use vstd::prelude::*;
use std::time::Instant;

verus! {

#[verifier::external_type_specification]
#[verifier::external_body]
pub struct ExInstant(Instant);

/// The current instant, by `std::time::Instant::now`. It depends on the
/// clock, so nothing is stated of it.
#[verifier::external_body]
fn now() -> Instant {
    Instant::now()
}

/// The desktop bridge: when it started, and when the last frame began.
pub struct NativeBridge {
    pub start_time: Instant,
    pub last_frame_time: Instant,
}

impl NativeBridge {
    /// A bridge started now, with its first frame beginning at the start.
    pub fn new() -> (res: Self)
        ensures
            res.start_time == res.last_frame_time,
    {
        let now = now();
        NativeBridge { start_time: now, last_frame_time: now }
    }
}

} // verus!
