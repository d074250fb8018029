//! When a device's event bus may be dropped from the registry.
//!
//! Buses are created on a device's first request and would otherwise live
//! for as long as the process. A bus is evicted once nobody can observe or
//! feed it any more and it has not been handed out for a while; a device
//! that comes back later simply gets a fresh bus, which loses nothing since
//! buses never replay history.

use vstd::prelude::*;

verus! {

/// A snapshot of one device's bus, taken when idle buses are swept.
#[derive(Clone, Copy, Debug, PartialEq, Eq, Structural)]
pub struct BusActivity {
    /// Viewers subscribed to the bus.
    pub subscribers: usize,
    /// Handles that can publish on the bus, the registry's own included.
    pub publishers: usize,
    /// When the bus was last handed out, in seconds.
    pub last_used: u64,
}

/// A bus is idle when no viewer listens, nothing but the registry can
/// publish on it, and it was last handed out at least `idle_limit` seconds
/// before `now`.
pub open spec fn is_idle(b: BusActivity, now: u64, idle_limit: u64) -> bool {
    &&& b.subscribers == 0
    &&& b.publishers <= 1
    &&& b.last_used as int + idle_limit as int <= now as int
}

/// Whether the sweep drops this bus: exactly when it is idle. A bus with a
/// viewer or with a running invocation is never dropped, so no device ends
/// up with publishers and subscribers on two different buses.
pub fn should_evict(b: &BusActivity, now: u64, idle_limit: u64) -> (r: bool)
    ensures
        r == is_idle(*b, now, idle_limit),
        r ==> b.subscribers == 0 && b.publishers <= 1,
{
    b.subscribers == 0 && b.publishers <= 1 && b.last_used <= now && now - b.last_used >= idle_limit
}

} // verus!
