//! Ports: what the engine needs from the outside world but does not
//! implement itself.

use std::time::Instant;

use vstd::prelude::*;

verus! {

/// A source of the current instant. The engine never reads the system
/// clock directly; it asks a `Clock`, so that a test can hand in a clock
/// it controls.
pub trait Clock: Send + Sync {
    fn now(&self) -> Instant;
}

} // verus!
