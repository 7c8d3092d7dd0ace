//! Acceptance tallies: how many applications there were and how many of
//! them ended in admission, with the rate that follows from the two.

use vstd::prelude::*;

verus! {

/// A pair of counts, as numbers: the mathematical value of a [`Tally`].
pub struct Counts {
    /// How many of the applications ended in admission.
    pub accepted: nat,
    /// How many applications there were.
    pub total: nat,
}

/// The number of hundredths of a percent in the whole.
pub const FULL_RATE: u32 = 10000;

/// The acceptance rate of `counts` in hundredths of a percent, rounded to
/// the nearest hundredth with halves rounded up. There is no rate where
/// there are no applications.
pub open spec fn rate_of(counts: Counts) -> Option<nat> {
    if counts.total == 0 {
        None
    } else {
        Some(((2 * FULL_RATE * counts.accepted + counts.total) / (2 * counts.total) as int) as nat)
    }
}

/// A count of applications and of the admissions among them. The
/// admissions never exceed the applications.
#[derive(Debug, Clone, Copy, PartialEq, Eq)]
pub struct Tally {
    accepted: u64,
    total: u64,
}

impl View for Tally {
    type V = Counts;

    closed spec fn view(&self) -> Counts {
        Counts { accepted: self.accepted as nat, total: self.total as nat }
    }
}

impl Tally {
    #[verifier::type_invariant]
    spec fn consistent(self) -> bool {
        self.accepted <= self.total
    }

    /// A tally of `total` applications of which `accepted` ended in
    /// admission; none where that would be more admissions than
    /// applications.
    pub fn new(accepted: u64, total: u64) -> (tally: Option<Tally>)
        ensures
            accepted <= total ==> tally is Some && tally->0@ == (Counts {
                accepted: accepted as nat,
                total: total as nat,
            }),
            accepted > total ==> tally is None,
    {
        if accepted <= total {
            Some(Tally { accepted, total })
        } else {
            None
        }
    }

    /// A tally of `total` applications of which `accepted` ended in
    /// admission.
    pub(crate) fn of(accepted: u64, total: u64) -> (tally: Tally)
        requires
            accepted <= total,
        ensures
            tally@ == (Counts { accepted: accepted as nat, total: total as nat }),
    {
        Tally { accepted, total }
    }

    /// How many of the applications ended in admission.
    pub fn accepted(&self) -> (n: u64)
        ensures
            n == self@.accepted,
            n <= self@.total,
    {
        proof {
            use_type_invariant(self);
        }
        self.accepted
    }

    /// How many applications there were.
    pub fn total(&self) -> (n: u64)
        ensures
            n == self@.total,
            self@.accepted <= n,
    {
        proof {
            use_type_invariant(self);
        }
        self.total
    }

    /// The acceptance rate in hundredths of a percent, rounded to the
    /// nearest hundredth; none where there are no applications.
    pub fn rate(&self) -> (rate: Option<u32>)
        ensures
            rate is Some <==> self@.total > 0,
            rate is Some ==> rate_of(self@) == Some(rate->0 as nat),
            rate is None ==> rate_of(self@) is None,
            rate is Some ==> rate->0 <= FULL_RATE,
    {
        proof {
            use_type_invariant(self);
        }
        if self.total == 0 {
            None
        } else {
            let accepted: u128 = self.accepted as u128;
            let total: u128 = self.total as u128;
            let numerator: u128 = 20000 * accepted + total;
            let denominator: u128 = 2 * total;
            let quotient: u128 = numerator / denominator;
            proof {
                lemma_rate_bound(self@);
            }
            Some(quotient as u32)
        }
    }
}

/// A rate never exceeds the whole when the admissions do not exceed the
/// applications, and it reaches the whole only when every application was
/// admitted.
pub proof fn lemma_rate_bound(counts: Counts)
    requires
        counts.accepted <= counts.total,
        counts.total > 0,
    ensures
        rate_of(counts) is Some,
        rate_of(counts)->0 <= FULL_RATE,
        counts.accepted == counts.total ==> rate_of(counts)->0 == FULL_RATE,
        counts.accepted == 0 ==> rate_of(counts)->0 == 0,
{
    let a = counts.accepted as int;
    let t = counts.total as int;
    let n = 20000 * a + t;
    let d = 2 * t;
    assert(n / d <= 10000) by (nonlinear_arith)
        requires
            n <= 10000 * d + t,
            t < d,
            d > 0,
            t >= 0,
    ;
    assert(n / d >= 0) by (nonlinear_arith)
        requires
            n >= 0,
            d > 0,
    ;
    if a == t {
        assert(n / d == 10000) by (nonlinear_arith)
            requires
                n == 10000 * d + t,
                0 <= t < d,
        ;
    }
    if a == 0 {
        assert(n / d == 0) by (nonlinear_arith)
            requires
                n == t,
                0 <= t < d,
        ;
    }
}

} // verus!
