//! The raw clock reading supplied by the untrusted host: a signed count of
//! whole seconds plus a sub-second fraction in nanoseconds.
//!
//! Both clocks wrap one reading each; all arithmetic on readings is defined
//! here, over the reading's view (its total count of nanoseconds).

use crate::duration::{lemma_norm_inverse, Duration, NANOS_PER_SEC};
use vstd::arithmetic::div_mod::{
    lemma_div_is_ordered, lemma_fundamental_div_mod, lemma_fundamental_div_mod_converse,
    lemma_mod_bound,
};
use vstd::pervasive::unreached;
use vstd::prelude::*;

verus! {

/// One raw reading of a host clock.
///
/// A value is well formed ([`RawReading::wf`]) when its fractional part is a
/// proper fraction of a second.  Its mathematical meaning is the total count
/// of nanoseconds from the clock's zero point, given by the view; wall-clock
/// readings before the epoch make it negative.
#[derive(Copy, Clone, Debug, Hash, PartialEq, Eq, Structural, PartialOrd, Ord)]
pub struct RawReading {
    /// Whole seconds of the reading.
    pub sec: i64,
    /// Sub-second fraction, in nanoseconds.
    pub nsec: u32,
}

impl View for RawReading {
    type V = int;

    /// The reading as a total count of nanoseconds.
    open spec fn view(&self) -> int {
        self.sec as int * NANOS_PER_SEC as int + self.nsec as int
    }
}

impl RawReading {
    /// The fractional part never reaches a whole second.
    pub open spec fn wf(self) -> bool {
        self.nsec < NANOS_PER_SEC
    }

    /// The smallest total-nanosecond count a well-formed reading can hold.
    pub open spec fn min_norm() -> int {
        i64::MIN as int * NANOS_PER_SEC as int
    }

    /// The largest total-nanosecond count a well-formed reading can hold.
    pub open spec fn max_norm() -> int {
        i64::MAX as int * NANOS_PER_SEC as int + (NANOS_PER_SEC - 1) as int
    }

    /// The well-formed reading whose view is `n` (meaningful for
    /// `RawReading::min_norm() <= n <= RawReading::max_norm()`).
    pub open spec fn spec_from_norm(n: int) -> RawReading {
        RawReading {
            sec: (n / NANOS_PER_SEC as int) as i64,
            nsec: (n % NANOS_PER_SEC as int) as u32,
        }
    }

    /// The reading advanced by a magnitude, when the result is representable.
    pub open spec fn spec_checked_add_duration(self, d: Duration) -> Option<RawReading> {
        if self@ + d@ <= RawReading::max_norm() {
            Some(RawReading::spec_from_norm(self@ + d@))
        } else {
            None
        }
    }

    /// The reading moved back by a magnitude, when the result is
    /// representable.
    pub open spec fn spec_checked_sub_duration(self, d: Duration) -> Option<RawReading> {
        if self@ - d@ >= RawReading::min_norm() {
            Some(RawReading::spec_from_norm(self@ - d@))
        } else {
            None
        }
    }

    /// The magnitude from `earlier` up to `self`, when `earlier` is not the
    /// later reading.
    pub open spec fn spec_checked_sub_reading(self, earlier: RawReading) -> Option<Duration> {
        if self@ >= earlier@ {
            Some(Duration::spec_from_norm(self@ - earlier@))
        } else {
            None
        }
    }

    /// Builds a reading from whole seconds and a proper sub-second fraction.
    pub fn new(sec: i64, nsec: u32) -> (r: RawReading)
        requires
            nsec < NANOS_PER_SEC,
        ensures
            r.wf(),
            r.sec == sec,
            r.nsec == nsec,
            r@ == sec as int * NANOS_PER_SEC as int + nsec as int,
    {
        RawReading { sec, nsec }
    }

    /// The sentinel zero reading.
    pub fn zero() -> (r: RawReading)
        ensures
            r.wf(),
            r@ == 0,
    {
        RawReading { sec: 0, nsec: 0 }
    }

    /// Total order on readings, by their total nanosecond count.
    pub fn le(&self, other: &RawReading) -> (r: bool)
        requires
            self.wf(),
            other.wf(),
        ensures
            r <==> self@ <= other@,
    {
        self.sec < other.sec || (self.sec == other.sec && self.nsec <= other.nsec)
    }

    /// The reading decomposed into whole seconds and nanoseconds, for
    /// interoperation and debugging.
    pub fn decompose(&self) -> (r: (i64, i64))
        ensures
            r.0 == self.sec,
            r.1 == self.nsec as i64,
    {
        (self.sec, self.nsec as i64)
    }

    /// Checked advance by a magnitude: `None` exactly when the result would
    /// exceed the representable range.
    pub fn checked_add_duration(&self, d: &Duration) -> (r: Option<RawReading>)
        requires
            self.wf(),
            d.wf(),
        ensures
            r == self.spec_checked_add_duration(*d),
            r is Some <==> self@ + d@ <= RawReading::max_norm(),
            r is Some ==> r->0.wf() && r->0@ == self@ + d@,
    {
        let mut nsec = self.nsec + d.nanos;
        let mut carry: u64 = 0;
        if nsec >= NANOS_PER_SEC {
            nsec = nsec - NANOS_PER_SEC;
            carry = 1;
        }
        let total: i128 = self.sec as i128 + d.secs as i128 + carry as i128;
        if total > i64::MAX as i128 {
            None
        } else {
            let r = RawReading { sec: total as i64, nsec };
            proof {
                lemma_reading_norm_inverse(r);
            }
            Some(r)
        }
    }

    /// Checked move back by a magnitude: `None` exactly when the result
    /// would fall below the representable range.
    pub fn checked_sub_duration(&self, d: &Duration) -> (r: Option<RawReading>)
        requires
            self.wf(),
            d.wf(),
        ensures
            r == self.spec_checked_sub_duration(*d),
            r is Some <==> self@ - d@ >= RawReading::min_norm(),
            r is Some ==> r->0.wf() && r->0@ == self@ - d@,
    {
        let mut borrow: u64 = 0;
        let nsec: u32 = if self.nsec >= d.nanos {
            self.nsec - d.nanos
        } else {
            borrow = 1;
            NANOS_PER_SEC - (d.nanos - self.nsec)
        };
        let total: i128 = self.sec as i128 - d.secs as i128 - borrow as i128;
        if total < i64::MIN as i128 {
            None
        } else {
            let r = RawReading { sec: total as i64, nsec };
            proof {
                lemma_reading_norm_inverse(r);
            }
            Some(r)
        }
    }

    /// The magnitude between two readings of the monotonic clock: `None`
    /// exactly when `earlier` is the later reading.
    pub fn checked_sub_reading(&self, earlier: &RawReading) -> (r: Option<Duration>)
        requires
            self.wf(),
            earlier.wf(),
        ensures
            r == self.spec_checked_sub_reading(*earlier),
            r is Some <==> self@ >= earlier@,
            r is Some ==> r->0.wf() && r->0@ == self@ - earlier@,
    {
        let lt = self.sec < earlier.sec || (self.sec == earlier.sec && self.nsec < earlier.nsec);
        if lt {
            None
        } else {
            let mut secs: i128 = self.sec as i128 - earlier.sec as i128;
            let nanos: u32 = if self.nsec >= earlier.nsec {
                self.nsec - earlier.nsec
            } else {
                secs = secs - 1;
                NANOS_PER_SEC - (earlier.nsec - self.nsec)
            };
            let r = Duration { secs: secs as u64, nanos };
            proof {
                lemma_norm_inverse(r);
            }
            Some(r)
        }
    }

    /// The fallible wall-clock difference: the magnitude from `earlier` up
    /// to `self` when `earlier` is not the later reading, otherwise the
    /// magnitude by which `earlier` overshoots `self`.
    pub fn sub_wall_time(&self, earlier: &RawReading) -> (r: Result<Duration, Duration>)
        requires
            self.wf(),
            earlier.wf(),
        ensures
            r is Ok <==> self@ >= earlier@,
            r is Ok ==> r->Ok_0.wf() && r->Ok_0@ == self@ - earlier@,
            r is Err ==> r->Err_0.wf() && r->Err_0@ == earlier@ - self@,
    {
        match self.checked_sub_reading(earlier) {
            Some(d) => Ok(d),
            None => {
                match earlier.checked_sub_reading(self) {
                    Some(e) => Err(e),
                    None => unreached(),
                }
            },
        }
    }
}

/// For any total-nanosecond count in range, `spec_from_norm` yields a
/// well-formed reading whose view is that count.
pub proof fn lemma_reading_from_norm(n: int)
    requires
        RawReading::min_norm() <= n <= RawReading::max_norm(),
    ensures
        RawReading::spec_from_norm(n).wf(),
        RawReading::spec_from_norm(n)@ == n,
{
    let d = NANOS_PER_SEC as int;
    lemma_fundamental_div_mod(n, d);
    lemma_mod_bound(n, d);
    lemma_div_is_ordered(RawReading::min_norm(), n, d);
    lemma_div_is_ordered(n, RawReading::max_norm(), d);
    lemma_fundamental_div_mod_converse(RawReading::min_norm(), d, i64::MIN as int, 0);
    lemma_fundamental_div_mod_converse(RawReading::max_norm(), d, i64::MAX as int, d - 1);
}

/// A well-formed reading is determined by its view: `spec_from_norm` inverts
/// the view.
pub proof fn lemma_reading_norm_inverse(a: RawReading)
    requires
        a.wf(),
    ensures
        RawReading::spec_from_norm(a@) == a,
{
    lemma_fundamental_div_mod_converse(
        a@,
        NANOS_PER_SEC as int,
        a.sec as int,
        a.nsec as int,
    );
}

} // verus!
