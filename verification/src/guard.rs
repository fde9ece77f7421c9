//! Process-wide corrective state that repairs non-monotonic raw readings.
//!
//! Host and hardware clocks have been observed to occasionally report a
//! reading earlier than a previous reading.  The guard keeps a watermark —
//! the latest reading ever observed — and hands out the maximum of the
//! watermark and each fresh reading, so the process's view of elapsed
//! monotonic time never decreases.
//!
//! The guard itself is a plain value: the caller is responsible for sharing
//! one guard process-wide behind a mutual-exclusion primitive.  When that
//! lock is unavailable the documented policy is to fail open — use the raw
//! reading unguarded rather than block or fail (see
//! [`crate::instant::Instant::now_unguarded`]).

use crate::reading::RawReading;
use vstd::prelude::*;

verus! {

/// The monotonicity watermark together with the platform capability probe.
///
/// `platform_monotonic` records whether the host platform's raw monotonic
/// readings are independently known to never go backwards; when it is set
/// the correction protocol is skipped entirely.
pub struct MonotonicityGuard {
    /// The latest reading ever observed through this guard.
    pub watermark: RawReading,
    /// Whether the platform's raw clock is known-monotonic, making
    /// correction unnecessary.
    pub platform_monotonic: bool,
}

impl MonotonicityGuard {
    /// The watermark is a well-formed reading.
    pub open spec fn wf(self) -> bool {
        self.watermark.wf()
    }

    /// The reading the correction protocol hands out for a fresh raw
    /// reading: the raw reading itself on a known-monotonic platform,
    /// otherwise the maximum of the watermark and the raw reading.
    pub open spec fn spec_corrected(self, raw: RawReading) -> RawReading {
        if self.platform_monotonic {
            raw
        } else if self.watermark@ >= raw@ {
            self.watermark
        } else {
            raw
        }
    }

    /// The guard state after the correction protocol has run on a fresh raw
    /// reading: untouched on a known-monotonic platform, otherwise the
    /// watermark is raised to the corrected reading.
    pub open spec fn spec_after(self, raw: RawReading) -> MonotonicityGuard {
        if self.platform_monotonic {
            self
        } else {
            MonotonicityGuard { watermark: self.spec_corrected(raw), ..self }
        }
    }

    /// A fresh guard: the watermark starts at the sentinel zero reading.
    pub fn new(platform_monotonic: bool) -> (g: MonotonicityGuard)
        ensures
            g.wf(),
            g.watermark@ == 0,
            g.platform_monotonic == platform_monotonic,
    {
        MonotonicityGuard { watermark: RawReading::zero(), platform_monotonic }
    }

    /// The sequence of corrected readings the protocol hands out when the
    /// raw readings in `raws` are observed in order, with every lock
    /// acquisition succeeding.
    pub open spec fn spec_outputs(self, raws: Seq<RawReading>) -> Seq<RawReading>
        decreases raws.len(),
    {
        if raws.len() == 0 {
            Seq::empty()
        } else {
            seq![self.spec_corrected(raws[0])] + self.spec_after(raws[0]).spec_outputs(
                raws.skip(1),
            )
        }
    }

    /// The critical section of the correction protocol: returns the maximum
    /// of the watermark and the fresh raw reading and raises the watermark
    /// to it.  The watermark never decreases.
    pub fn observe(&mut self, raw: RawReading) -> (r: RawReading)
        requires
            old(self).wf(),
            raw.wf(),
            !old(self).platform_monotonic,
        ensures
            final(self).wf(),
            r.wf(),
            r == old(self).spec_corrected(raw),
            *final(self) == old(self).spec_after(raw),
            final(self).watermark == r,
            r@ >= old(self).watermark@,
            r@ >= raw@,
    {
        let w = self.watermark;
        let keep = w.sec > raw.sec || (w.sec == raw.sec && w.nsec >= raw.nsec);
        let corrected = if keep { w } else { raw };
        self.watermark = corrected;
        corrected
    }
}

/// Every corrected reading the protocol hands out is at least the watermark
/// the guard started with.
proof fn lemma_outputs_bounded_below(g: MonotonicityGuard, raws: Seq<RawReading>)
    requires
        !g.platform_monotonic,
    ensures
        g.spec_outputs(raws).len() == raws.len(),
        forall|i: int|
            0 <= i < raws.len() ==> #[trigger] g.spec_outputs(raws)[i]@ >= g.watermark@,
    decreases raws.len(),
{
    if raws.len() > 0 {
        let g2 = g.spec_after(raws[0]);
        lemma_outputs_bounded_below(g2, raws.skip(1));
        assert forall|i: int|
            0 <= i < raws.len() implies #[trigger] g.spec_outputs(raws)[i]@ >= g.watermark@ by {
            if i > 0 {
                assert(g.spec_outputs(raws)[i] == g2.spec_outputs(raws.skip(1))[i - 1]);
            }
        }
    }
}

/// Monotonic correction: whatever backward jumps the raw readings make, the
/// sequence of corrected readings the protocol hands out — each lock
/// acquisition succeeding — never decreases.
pub proof fn lemma_outputs_non_decreasing(g: MonotonicityGuard, raws: Seq<RawReading>)
    requires
        !g.platform_monotonic,
    ensures
        g.spec_outputs(raws).len() == raws.len(),
        forall|i: int, j: int|
            0 <= i <= j < raws.len() ==> #[trigger] g.spec_outputs(raws)[i]@ <= #[trigger] g.spec_outputs(raws)[j]@,
    decreases raws.len(),
{
    if raws.len() > 0 {
        let g2 = g.spec_after(raws[0]);
        lemma_outputs_non_decreasing(g2, raws.skip(1));
        lemma_outputs_bounded_below(g2, raws.skip(1));
        assert forall|i: int, j: int|
            0 <= i <= j < raws.len() implies #[trigger] g.spec_outputs(raws)[i]@
                <= #[trigger] g.spec_outputs(raws)[j]@ by {
            if i > 0 {
                assert(g.spec_outputs(raws)[i] == g2.spec_outputs(raws.skip(1))[i - 1]);
            }
            if j > 0 {
                assert(g.spec_outputs(raws)[j] == g2.spec_outputs(raws.skip(1))[j - 1]);
            }
        }
    }
}

} // verus!
