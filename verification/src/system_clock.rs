use std::time::Instant;

use vstd::prelude::*;

use crate::ports::Clock;

verus! {

/// Calls `std::time::Instant::now`. Nothing is claimed of the instant.
#[verifier::external_body]
fn instant_now() -> Instant {
    Instant::now()
}

/// The real adapter for the engine's [`Clock`] port: the system's
/// monotonic clock.
pub struct SystemClock;

impl Clock for SystemClock {
    fn now(&self) -> Instant {
        instant_now()
    }
}

} // verus!
