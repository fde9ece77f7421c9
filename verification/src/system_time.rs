//! The wall clock: an opaque timestamp anchored to the fixed epoch
//! 1970-01-01 00:00:00 UTC.
//!
//! Distinct from the monotonic clock, this measurement is **not** monotonic:
//! the host may adjust its clock backwards, so a later measurement may
//! compare as earlier.  Differencing is therefore fallible and returns a
//! typed error carrying the overshoot magnitude.

use crate::capability::UntrustedTimeAccess;
use crate::duration::Duration;
use crate::reading::RawReading;
use vstd::pervasive::unreached;
use vstd::prelude::*;

verus! {

/// A measurement of the host's wall clock, relative to the epoch.
#[derive(Copy, Clone, Debug, Hash, PartialEq, Eq, Structural, PartialOrd, Ord)]
pub struct SystemTime {
    /// The raw reading this timestamp wraps, unmodified.
    pub reading: RawReading,
}

/// The error returned by a failed wall-clock differencing: the
/// expected-earlier time was actually later, by the carried magnitude.
#[derive(Copy, Clone, Debug, Hash, PartialEq, Eq, Structural)]
pub struct SystemTimeError {
    /// How far forward the expected-earlier time actually was.
    pub amount: Duration,
}

impl View for SystemTime {
    type V = int;

    /// The timestamp as the total nanosecond count of its reading; zero at
    /// the epoch, negative before it.
    open spec fn view(&self) -> int {
        self.reading@
    }
}

impl SystemTime {
    /// The wrapped reading is well formed.
    pub open spec fn wf(self) -> bool {
        self.reading.wf()
    }

    /// The timestamp advanced by a duration, when representable.
    pub open spec fn spec_checked_add(self, d: Duration) -> Option<SystemTime> {
        match self.reading.spec_checked_add_duration(d) {
            Some(r) => Some(SystemTime { reading: r }),
            None => None,
        }
    }

    /// The timestamp moved back by a duration, when representable.
    pub open spec fn spec_checked_sub(self, d: Duration) -> Option<SystemTime> {
        match self.reading.spec_checked_sub_duration(d) {
            Some(r) => Some(SystemTime { reading: r }),
            None => None,
        }
    }

    /// The anchor in time from which all wall-clock timestamps are measured:
    /// 1970-01-01 00:00:00 UTC, the zero offset of the underlying reading.
    /// Always available, never gated.
    pub fn unix_epoch() -> (r: SystemTime)
        ensures
            r.wf(),
            r@ == 0,
    {
        SystemTime { reading: RawReading::zero() }
    }

    /// The wall-clock time corresponding to "now": the raw host reading,
    /// with no correction applied.
    ///
    /// Gated by the trust capability.  By design this value may be earlier
    /// than a previously returned value if the host clock was adjusted
    /// backwards.
    pub fn now(access: &UntrustedTimeAccess, raw: RawReading) -> (r: SystemTime)
        requires
            raw.wf(),
        ensures
            r.wf(),
            r.reading == raw,
    {
        SystemTime { reading: raw }
    }

    /// The amount of time elapsed from `earlier` to `self`, or, when the
    /// host clock drifted and `earlier` is actually the later timestamp, an
    /// error carrying the magnitude by which `earlier` exceeds `self`.
    ///
    /// This is the sole recoverable-error path in the library.
    pub fn duration_since(&self, earlier: SystemTime) -> (r: Result<Duration, SystemTimeError>)
        requires
            self.wf(),
            earlier.wf(),
        ensures
            r is Ok <==> earlier@ <= self@,
            r is Ok ==> r->Ok_0.wf() && r->Ok_0@ == self@ - earlier@,
            r is Err ==> r->Err_0.amount.wf() && r->Err_0.amount@ == earlier@ - self@,
    {
        match self.reading.sub_wall_time(&earlier.reading) {
            Ok(d) => Ok(d),
            Err(amount) => Err(SystemTimeError { amount }),
        }
    }

    /// The difference between a fresh host reading and this timestamp.
    ///
    /// Gated by the trust capability.  Fails, carrying the overshoot
    /// magnitude, when `self` is ahead of the host-reported current time.
    pub fn elapsed(
        &self,
        access: &UntrustedTimeAccess,
        raw: RawReading,
    ) -> (r: Result<Duration, SystemTimeError>)
        requires
            self.wf(),
            raw.wf(),
        ensures
            r is Ok <==> self@ <= raw@,
            r is Ok ==> r->Ok_0.wf() && r->Ok_0@ == raw@ - self@,
            r is Err ==> r->Err_0.amount.wf() && r->Err_0.amount@ == self@ - raw@,
    {
        let now = SystemTime::now(access, raw);
        now.duration_since(*self)
    }

    /// The timestamp `self + duration`, or `None` when it would exceed the
    /// representable range of the underlying reading.
    pub fn checked_add(&self, duration: Duration) -> (r: Option<SystemTime>)
        requires
            self.wf(),
            duration.wf(),
        ensures
            r == self.spec_checked_add(duration),
            r is Some <==> self@ + duration@ <= RawReading::max_norm(),
            r is Some ==> r->0.wf() && r->0@ == self@ + duration@,
    {
        match self.reading.checked_add_duration(&duration) {
            Some(reading) => Some(SystemTime { reading }),
            None => None,
        }
    }

    /// The timestamp `self - duration`, or `None` when it would fall below
    /// the representable range of the underlying reading.
    pub fn checked_sub(&self, duration: Duration) -> (r: Option<SystemTime>)
        requires
            self.wf(),
            duration.wf(),
        ensures
            r == self.spec_checked_sub(duration),
            r is Some <==> self@ - duration@ >= RawReading::min_norm(),
            r is Some ==> r->0.wf() && r->0@ == self@ - duration@,
    {
        match self.reading.checked_sub_duration(&duration) {
            Some(reading) => Some(SystemTime { reading }),
            None => None,
        }
    }

    /// The fatal-on-misuse advance: the caller must know the sum is
    /// representable.  Equivalent to unwrapping [`SystemTime::checked_add`].
    pub fn add_duration(&self, duration: Duration) -> (r: SystemTime)
        requires
            self.wf(),
            duration.wf(),
            self@ + duration@ <= RawReading::max_norm(),
        ensures
            r.wf(),
            r@ == self@ + duration@,
            Some(r) == self.spec_checked_add(duration),
    {
        match self.checked_add(duration) {
            Some(r) => r,
            None => unreached(),
        }
    }

    /// The fatal-on-misuse move back: the caller must know the result is
    /// representable.  Equivalent to unwrapping [`SystemTime::checked_sub`].
    pub fn sub_duration(&self, duration: Duration) -> (r: SystemTime)
        requires
            self.wf(),
            duration.wf(),
            self@ - duration@ >= RawReading::min_norm(),
        ensures
            r.wf(),
            r@ == self@ - duration@,
            Some(r) == self.spec_checked_sub(duration),
    {
        match self.checked_sub(duration) {
            Some(r) => r,
            None => unreached(),
        }
    }

    /// The reading decomposed into whole seconds and nanoseconds, for
    /// interoperation and debugging.
    pub fn get_tup(&self) -> (r: (i64, i64))
        ensures
            r.0 == self.reading.sec,
            r.1 == self.reading.nsec as i64,
    {
        self.reading.decompose()
    }

    /// Total order on wall-clock timestamps: `self` is at or before `other`
    /// exactly when `other.duration_since(*self)` succeeds.
    pub fn le(&self, other: &SystemTime) -> (r: bool)
        requires
            self.wf(),
            other.wf(),
        ensures
            r <==> self@ <= other@,
    {
        self.reading.le(&other.reading)
    }
}

impl SystemTimeError {
    /// The positive magnitude by which the expected-earlier time was
    /// actually later.
    pub fn duration(&self) -> (d: Duration)
        ensures
            d == self.amount,
    {
        self.amount
    }

    /// A short description of the failure, for callers that report it.
    pub fn description(&self) -> (s: &'static str)
        ensures
            s@ == "other time was not earlier than self"@,
    {
        "other time was not earlier than self"
    }
}

} // verus!
