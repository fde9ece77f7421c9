//! The monotonic clock: an opaque, comparable timestamp whose differences
//! never go backwards, built on a host reading run through the
//! monotonicity guard.

use crate::capability::UntrustedTimeAccess;
use crate::duration::{lemma_from_norm, lemma_norm_injective, Duration};
use crate::guard::MonotonicityGuard;
use crate::reading::{lemma_reading_from_norm, lemma_reading_norm_inverse, RawReading};
use vstd::pervasive::unreached;
use vstd::prelude::*;

verus! {

/// A measurement of the monotonic clock, opaque and useful only with
/// [`Duration`].
///
/// An `Instant` obtained from [`Instant::now`] is never less than any
/// instant the same guard handed out before; the only derived values are
/// durations between two instants.
#[derive(Copy, Clone, Debug, Hash, PartialEq, Eq, Structural, PartialOrd, Ord)]
pub struct Instant {
    /// The corrected reading this instant wraps.
    pub reading: RawReading,
}

impl View for Instant {
    type V = int;

    /// The instant as the total nanosecond count of its reading.
    open spec fn view(&self) -> int {
        self.reading@
    }
}

impl Instant {
    /// The wrapped reading is well formed.
    pub open spec fn wf(self) -> bool {
        self.reading.wf()
    }

    /// The duration from `earlier` up to `self`, when `earlier` is not the
    /// later instant.
    pub open spec fn spec_checked_duration_since(self, earlier: Instant) -> Option<Duration> {
        self.reading.spec_checked_sub_reading(earlier.reading)
    }

    /// The duration from `earlier` up to `self`, or zero when `earlier` is
    /// the later instant.
    pub open spec fn spec_saturating_duration_since(self, earlier: Instant) -> Duration {
        match self.spec_checked_duration_since(earlier) {
            Some(d) => d,
            None => Duration { secs: 0, nanos: 0 },
        }
    }

    /// The instant advanced by a duration, when representable.
    pub open spec fn spec_checked_add(self, d: Duration) -> Option<Instant> {
        match self.reading.spec_checked_add_duration(d) {
            Some(r) => Some(Instant { reading: r }),
            None => None,
        }
    }

    /// The instant moved back by a duration, when representable.
    pub open spec fn spec_checked_sub(self, d: Duration) -> Option<Instant> {
        match self.reading.spec_checked_sub_duration(d) {
            Some(r) => Some(Instant { reading: r }),
            None => None,
        }
    }

    /// An instant corresponding to "now", from a fresh host reading run
    /// through the monotonicity guard.
    ///
    /// Gated by the trust capability.  On a platform whose raw clock is
    /// known-monotonic the raw reading is returned directly; otherwise the
    /// correction protocol runs: the result is the maximum of the guard's
    /// watermark and the raw reading, and the watermark is raised to it.
    /// The caller must hold the process-wide guard exclusively for the call.
    pub fn now(
        access: &UntrustedTimeAccess,
        guard: &mut MonotonicityGuard,
        raw: RawReading,
    ) -> (r: Instant)
        requires
            raw.wf(),
            old(guard).wf(),
        ensures
            final(guard).wf(),
            r.wf(),
            r.reading == old(guard).spec_corrected(raw),
            *final(guard) == old(guard).spec_after(raw),
            r@ >= raw@,
            !old(guard).platform_monotonic ==> r@ >= old(guard).watermark@,
    {
        if guard.platform_monotonic {
            Instant { reading: raw }
        } else {
            Instant { reading: guard.observe(raw) }
        }
    }

    /// An instant from a raw host reading with no correction applied.
    ///
    /// Gated by the trust capability.  This is the documented fail-open path
    /// of the correction protocol: when the watermark's lock is unavailable,
    /// availability is preferred over the monotonicity guarantee and the raw
    /// reading is used unmodified.  It is also the fast path on a platform
    /// whose raw clock is known-monotonic.
    pub fn now_unguarded(access: &UntrustedTimeAccess, raw: RawReading) -> (r: Instant)
        requires
            raw.wf(),
        ensures
            r.wf(),
            r.reading == raw,
    {
        Instant { reading: raw }
    }

    /// The amount of time elapsed from `earlier` to `self`.
    ///
    /// Calling this with an `earlier` that is ordered after `self` is a
    /// contract breach; the checked and saturating variants exist precisely
    /// so callers can avoid this path.
    pub fn duration_since(&self, earlier: Instant) -> (d: Duration)
        requires
            self.wf(),
            earlier.wf(),
            earlier@ <= self@,
        ensures
            d.wf(),
            d@ == self@ - earlier@,
            Some(d) == self.spec_checked_duration_since(earlier),
    {
        match self.checked_duration_since(earlier) {
            Some(d) => d,
            None => unreached(),
        }
    }

    /// The amount of time elapsed from `earlier` to `self`, or `None` if
    /// `earlier` is the later instant.
    pub fn checked_duration_since(&self, earlier: Instant) -> (r: Option<Duration>)
        requires
            self.wf(),
            earlier.wf(),
        ensures
            r == self.spec_checked_duration_since(earlier),
            r is Some <==> earlier@ <= self@,
            r is Some ==> r->0.wf() && r->0@ == self@ - earlier@,
    {
        self.reading.checked_sub_reading(&earlier.reading)
    }

    /// The amount of time elapsed from `earlier` to `self`, or the zero
    /// duration if `earlier` is the later instant.
    pub fn saturating_duration_since(&self, earlier: Instant) -> (d: Duration)
        requires
            self.wf(),
            earlier.wf(),
        ensures
            d == self.spec_saturating_duration_since(earlier),
            d.wf(),
            d@ == if earlier@ <= self@ { self@ - earlier@ } else { 0 },
    {
        match self.checked_duration_since(earlier) {
            Some(d) => d,
            None => Duration::zero(),
        }
    }

    /// The amount of time elapsed since this instant was created, measured
    /// against a fresh host reading run through the guard.
    ///
    /// Gated by the trust capability.  The caller must know that the
    /// corrected "now" is not before `self`; with readings obtained through
    /// one process-wide guard the monotonicity guarantee provides this.
    pub fn elapsed(
        &self,
        access: &UntrustedTimeAccess,
        guard: &mut MonotonicityGuard,
        raw: RawReading,
    ) -> (d: Duration)
        requires
            self.wf(),
            raw.wf(),
            old(guard).wf(),
            old(guard).spec_corrected(raw)@ >= self@,
        ensures
            final(guard).wf(),
            *final(guard) == old(guard).spec_after(raw),
            d.wf(),
            d@ == old(guard).spec_corrected(raw)@ - self@,
    {
        let now = Instant::now(access, guard, raw);
        now.duration_since(*self)
    }

    /// The instant `self + duration`, or `None` when it would exceed the
    /// representable range of the underlying reading.
    pub fn checked_add(&self, duration: Duration) -> (r: Option<Instant>)
        requires
            self.wf(),
            duration.wf(),
        ensures
            r == self.spec_checked_add(duration),
            r is Some <==> self@ + duration@ <= RawReading::max_norm(),
            r is Some ==> r->0.wf() && r->0@ == self@ + duration@,
    {
        match self.reading.checked_add_duration(&duration) {
            Some(reading) => Some(Instant { reading }),
            None => None,
        }
    }

    /// The instant `self - duration`, or `None` when it would fall below the
    /// representable range of the underlying reading.
    pub fn checked_sub(&self, duration: Duration) -> (r: Option<Instant>)
        requires
            self.wf(),
            duration.wf(),
        ensures
            r == self.spec_checked_sub(duration),
            r is Some <==> self@ - duration@ >= RawReading::min_norm(),
            r is Some ==> r->0.wf() && r->0@ == self@ - duration@,
    {
        match self.reading.checked_sub_duration(&duration) {
            Some(reading) => Some(Instant { reading }),
            None => None,
        }
    }

    /// The fatal-on-misuse advance: the caller must know the sum is
    /// representable.  Equivalent to unwrapping [`Instant::checked_add`].
    pub fn add_duration(&self, duration: Duration) -> (r: Instant)
        requires
            self.wf(),
            duration.wf(),
            self@ + duration@ <= RawReading::max_norm(),
        ensures
            r.wf(),
            r@ == self@ + duration@,
            Some(r) == self.spec_checked_add(duration),
    {
        match self.checked_add(duration) {
            Some(r) => r,
            None => unreached(),
        }
    }

    /// The fatal-on-misuse move back: the caller must know the result is
    /// representable.  Equivalent to unwrapping [`Instant::checked_sub`].
    pub fn sub_duration(&self, duration: Duration) -> (r: Instant)
        requires
            self.wf(),
            duration.wf(),
            self@ - duration@ >= RawReading::min_norm(),
        ensures
            r.wf(),
            r@ == self@ - duration@,
            Some(r) == self.spec_checked_sub(duration),
    {
        match self.checked_sub(duration) {
            Some(r) => r,
            None => unreached(),
        }
    }

    /// The reading decomposed into whole seconds and nanoseconds, for
    /// interoperation and debugging.
    pub fn get_tup(&self) -> (r: (i64, i64))
        ensures
            r.0 == self.reading.sec,
            r.1 == self.reading.nsec as i64,
    {
        self.reading.decompose()
    }

    /// Total order on instants, consistent with subtraction: `self` is at or
    /// before `other` exactly when `other.duration_since(*self)` is defined.
    pub fn le(&self, other: &Instant) -> (r: bool)
        requires
            self.wf(),
            other.wf(),
        ensures
            r <==> self@ <= other@,
            r <==> other.spec_checked_duration_since(*self) is Some,
    {
        self.reading.le(&other.reading)
    }
}

/// For all instants `a <= b`, the difference of `b` since `a` is defined and
/// is the unique duration `d` with `a + d == b`.
pub proof fn lemma_duration_since_defined_and_unique(a: Instant, b: Instant)
    requires
        a.wf(),
        b.wf(),
        a@ <= b@,
    ensures
        b.spec_checked_duration_since(a) is Some,
        ({
            let d = b.spec_checked_duration_since(a)->0;
            &&& d.wf()
            &&& a.spec_checked_add(d) == Some(b)
            &&& forall|d2: Duration|
                d2.wf() && a.spec_checked_add(d2) == Some(b) ==> d2 == d
        }),
{
    let d = Duration::spec_from_norm(b@ - a@);
    lemma_from_norm(b@ - a@);
    lemma_reading_from_norm(a@ + d@);
    lemma_reading_norm_inverse(b.reading);
    assert(a.spec_checked_add(d) == Some(b));
    assert forall|d2: Duration|
        d2.wf() && a.spec_checked_add(d2) == Some(b) implies d2 == d by {
        lemma_reading_from_norm(a@ + d2@);
        lemma_norm_injective(d2, d);
    }
}

/// For all instants `b < a` (that is, `a` is the later instant), asking how
/// much time elapsed from `a` up to `b` is an ordering violation: the
/// checked difference of `b` since `a` is absent, the saturating difference
/// is the zero duration, and the fatal variant's precondition excludes the
/// call.
pub proof fn lemma_ordering_violation(a: Instant, b: Instant)
    requires
        a.wf(),
        b.wf(),
        a@ > b@,
    ensures
        b.spec_checked_duration_since(a) is None,
        b.spec_saturating_duration_since(a)@ == 0,
{
}

/// Round trip: whenever `t + d` is representable, moving the sum back by `d`
/// restores exactly `t`.
pub proof fn lemma_add_sub_round_trip(t: Instant, d: Duration)
    requires
        t.wf(),
        d.wf(),
        t.spec_checked_add(d) is Some,
    ensures
        t.spec_checked_add(d)->0.spec_checked_sub(d) == Some(t),
{
    lemma_reading_from_norm(t@ + d@);
    lemma_reading_norm_inverse(t.reading);
}

} // verus!
