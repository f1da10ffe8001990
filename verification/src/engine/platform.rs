//! The platform layer: the clock that the engine started on.

use vstd::prelude::*;
use std::time::{Duration, Instant};

verus! {

#[verifier::external_type_specification]
#[verifier::external_body]
pub struct ExInstant(Instant);

/// `Instant::now`: the reading of the monotonic clock at the call. Nothing
/// is claimed of it.
#[verifier::external_body]
fn clock_now() -> (now: Instant) {
    Instant::now()
}

/// `Instant::elapsed`: the time that has passed since `start`. Nothing is
/// claimed of it.
#[verifier::external_body]
fn clock_elapsed(start: &Instant) -> (elapsed: Duration) {
    start.elapsed()
}

#[derive(Debug)]
pub struct PlatformLayer {
    boot_timestamp: Instant,
}

impl PlatformLayer {
    /// The instant at which the layer was made.
    pub closed spec fn booted_at(&self) -> Instant {
        self.boot_timestamp
    }

    /// A layer that starts counting now.
    pub fn new() -> (layer: PlatformLayer) {
        PlatformLayer { boot_timestamp: clock_now() }
    }

    /// Handles pending platform events. There are none to handle yet, and
    /// the layer does not change.
    pub fn pump_events(&mut self)
        ensures
            final(self).booted_at() == old(self).booted_at(),
    {
    }

    /// The time that has passed since the layer was made.
    pub fn uptime(&self) -> (elapsed: Duration) {
        clock_elapsed(&self.boot_timestamp)
    }
}

impl Default for PlatformLayer {
    fn default() -> (layer: PlatformLayer) {
        PlatformLayer::new()
    }
}

} // verus!
