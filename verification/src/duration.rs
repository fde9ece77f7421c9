//! The fixed-point magnitude of elapsed time: whole seconds plus a
//! sub-second fraction expressed in nanoseconds.

use vstd::arithmetic::div_mod::{
    lemma_div_is_ordered, lemma_div_pos_is_pos, lemma_fundamental_div_mod,
    lemma_fundamental_div_mod_converse, lemma_mod_bound,
};
use vstd::prelude::*;

verus! {

/// Number of nanoseconds in one second.
pub const NANOS_PER_SEC: u32 = 1_000_000_000;

/// An immutable magnitude of elapsed time.
///
/// A value is well formed ([`Duration::wf`]) when its fractional part is a
/// proper fraction of a second, i.e. `nanos < NANOS_PER_SEC`.  Its
/// mathematical meaning is the total count of nanoseconds, given by the view.
#[derive(Copy, Clone, Debug, Hash, PartialEq, Eq, Structural, PartialOrd, Ord)]
pub struct Duration {
    /// Whole seconds of the magnitude.
    pub secs: u64,
    /// Sub-second fraction, in nanoseconds.
    pub nanos: u32,
}

impl View for Duration {
    type V = int;

    /// The magnitude as a total count of nanoseconds.
    open spec fn view(&self) -> int {
        self.secs as int * NANOS_PER_SEC as int + self.nanos as int
    }
}

impl Duration {
    /// The fractional part never reaches a whole second.
    pub open spec fn wf(self) -> bool {
        self.nanos < NANOS_PER_SEC
    }

    /// The largest total-nanosecond count a well-formed `Duration` can hold.
    pub open spec fn max_norm() -> int {
        u64::MAX as int * NANOS_PER_SEC as int + (NANOS_PER_SEC - 1) as int
    }

    /// The well-formed `Duration` whose view is `n` (meaningful for
    /// `0 <= n <= Duration::max_norm()`).
    pub open spec fn spec_from_norm(n: int) -> Duration {
        Duration {
            secs: (n / NANOS_PER_SEC as int) as u64,
            nanos: (n % NANOS_PER_SEC as int) as u32,
        }
    }

    /// The sum of two magnitudes, when it is representable.
    pub open spec fn spec_checked_add(self, other: Duration) -> Option<Duration> {
        if self@ + other@ <= Duration::max_norm() {
            Some(Duration::spec_from_norm(self@ + other@))
        } else {
            None
        }
    }

    /// The difference of two magnitudes, when it is non-negative.
    pub open spec fn spec_checked_sub(self, other: Duration) -> Option<Duration> {
        if self@ - other@ >= 0 {
            Some(Duration::spec_from_norm(self@ - other@))
        } else {
            None
        }
    }

    /// Builds a magnitude from whole seconds and a proper sub-second
    /// fraction.
    pub fn new(secs: u64, nanos: u32) -> (r: Duration)
        requires
            nanos < NANOS_PER_SEC,
        ensures
            r.wf(),
            r@ == secs as int * NANOS_PER_SEC as int + nanos as int,
            r.secs == secs,
            r.nanos == nanos,
    {
        Duration { secs, nanos }
    }

    /// The zero magnitude.
    pub fn zero() -> (r: Duration)
        ensures
            r.wf(),
            r@ == 0,
    {
        Duration { secs: 0, nanos: 0 }
    }

    /// A magnitude of `secs` whole seconds.
    pub fn from_secs(secs: u64) -> (r: Duration)
        ensures
            r.wf(),
            r@ == secs as int * NANOS_PER_SEC as int,
    {
        Duration { secs, nanos: 0 }
    }

    /// The whole-second part of the magnitude.
    pub fn as_secs(&self) -> (r: u64)
        requires
            self.wf(),
        ensures
            r as int == self@ / NANOS_PER_SEC as int,
    {
        proof {
            lemma_fundamental_div_mod_converse(
                self@,
                NANOS_PER_SEC as int,
                self.secs as int,
                self.nanos as int,
            );
        }
        self.secs
    }

    /// The sub-second part of the magnitude, in nanoseconds.
    pub fn subsec_nanos(&self) -> (r: u32)
        requires
            self.wf(),
        ensures
            r as int == self@ % NANOS_PER_SEC as int,
    {
        proof {
            lemma_fundamental_div_mod_converse(
                self@,
                NANOS_PER_SEC as int,
                self.secs as int,
                self.nanos as int,
            );
        }
        self.nanos
    }

    /// Checked addition: `None` exactly when the sum does not fit.
    pub fn checked_add(&self, other: &Duration) -> (r: Option<Duration>)
        requires
            self.wf(),
            other.wf(),
        ensures
            r == self.spec_checked_add(*other),
            r is Some <==> self@ + other@ <= Duration::max_norm(),
            r is Some ==> r->0.wf() && r->0@ == self@ + other@,
    {
        let mut nanos = self.nanos + other.nanos;
        let mut carry: u64 = 0;
        if nanos >= NANOS_PER_SEC {
            nanos = nanos - NANOS_PER_SEC;
            carry = 1;
        }
        let total: u128 = self.secs as u128 + other.secs as u128 + carry as u128;
        if total > u64::MAX as u128 {
            None
        } else {
            let r = Duration { secs: total as u64, nanos };
            proof {
                lemma_norm_inverse(r);
            }
            Some(r)
        }
    }

    /// Checked subtraction: `None` exactly when `other` is the larger
    /// magnitude.
    pub fn checked_sub(&self, other: &Duration) -> (r: Option<Duration>)
        requires
            self.wf(),
            other.wf(),
        ensures
            r == self.spec_checked_sub(*other),
            r is Some <==> self@ >= other@,
            r is Some ==> r->0.wf() && r->0@ == self@ - other@,
    {
        let lt = self.secs < other.secs || (self.secs == other.secs && self.nanos < other.nanos);
        if lt {
            None
        } else {
            let mut secs = self.secs - other.secs;
            let nanos: u32 = if self.nanos >= other.nanos {
                self.nanos - other.nanos
            } else {
                secs = secs - 1;
                NANOS_PER_SEC - (other.nanos - self.nanos)
            };
            let r = Duration { secs, nanos };
            proof {
                lemma_norm_inverse(r);
            }
            Some(r)
        }
    }
}

/// For any total-nanosecond count in range, `spec_from_norm` yields a
/// well-formed `Duration` whose view is that count.
pub proof fn lemma_from_norm(n: int)
    requires
        0 <= n <= Duration::max_norm(),
    ensures
        Duration::spec_from_norm(n).wf(),
        Duration::spec_from_norm(n)@ == n,
{
    let d = NANOS_PER_SEC as int;
    lemma_fundamental_div_mod(n, d);
    lemma_mod_bound(n, d);
    lemma_div_pos_is_pos(n, d);
    lemma_div_is_ordered(n, Duration::max_norm(), d);
    lemma_fundamental_div_mod_converse(Duration::max_norm(), d, u64::MAX as int, d - 1);
}

/// A well-formed `Duration` is determined by its view: `spec_from_norm`
/// inverts the view.
pub proof fn lemma_norm_inverse(a: Duration)
    requires
        a.wf(),
    ensures
        Duration::spec_from_norm(a@) == a,
{
    lemma_fundamental_div_mod_converse(
        a@,
        NANOS_PER_SEC as int,
        a.secs as int,
        a.nanos as int,
    );
}

/// Two well-formed `Duration`s with the same view are the same value.
pub proof fn lemma_norm_injective(a: Duration, b: Duration)
    requires
        a.wf(),
        b.wf(),
        a@ == b@,
    ensures
        a == b,
{
    lemma_norm_inverse(a);
    lemma_norm_inverse(b);
}

} // verus!
