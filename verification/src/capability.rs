//! The trust gate: an explicit capability that is the sole path to turning a
//! host-supplied reading into a timestamp.
//!
//! In this execution model, "what time is it" is the only operation that
//! crosses the trust boundary into host-controlled data; every other
//! operation manipulates values the caller already possesses.  Each `now` and
//! `elapsed` accessor takes a reference to this capability, so the
//! trust-boundary crossing is visible at every call site, and code that never
//! constructs the capability provably never consumes host time.

use vstd::prelude::*;

verus! {

/// Capability to consume time readings supplied by the untrusted host.
///
/// Carries no state; constructing it is an explicit, auditable decision.
pub struct UntrustedTimeAccess {
    _sealed: (),
}

impl UntrustedTimeAccess {
    /// Explicitly grants access to host-supplied time readings.
    pub fn grant() -> (c: UntrustedTimeAccess) {
        UntrustedTimeAccess { _sealed: () }
    }
}

} // verus!
