//! Approval thresholds as exact fractions.
//!
//! A threshold is kept as a numerator and a denominator, and the question
//! "has this share of the group approved?" is answered by cross-multiplying,
//! so no rounding ever enters a release decision.

use vstd::prelude::*;

verus! {

/// A fraction `numerator / denominator`, used as a release threshold.
///
/// Any pair of numbers can be held; only fractions in `(0, 1]` are accepted
/// as the threshold of an escrow record (see [`Ratio::in_range`]).
#[derive(Clone, Copy, Debug, PartialEq, Eq, Structural)]
pub struct Ratio {
    pub numerator: u64,
    pub denominator: u64,
}

impl Ratio {
    /// The fraction lies in the half-open interval `(0, 1]`.
    ///
    /// A zero denominator is never in range.
    pub open spec fn in_range(self) -> bool {
        0 < self.numerator <= self.denominator
    }

    /// `approved` out of `total` is a share of at least this fraction:
    /// `approved / total >= numerator / denominator`, cross-multiplied.
    pub open spec fn reached_by(self, approved: nat, total: nat) -> bool {
        approved * self.denominator >= self.numerator * total
    }

    /// Builds the fraction `numerator / denominator` as given, without reducing it.
    pub fn new(numerator: u64, denominator: u64) -> (r: Ratio)
        ensures
            r == (Ratio { numerator, denominator }),
    {
        Ratio { numerator, denominator }
    }

    /// Tells whether the fraction lies in `(0, 1]`.
    pub fn is_in_range(&self) -> (b: bool)
        ensures
            b == self.in_range(),
    {
        0 < self.numerator && self.numerator <= self.denominator
    }

    /// Tells whether `approved` out of `total` reaches this fraction.
    ///
    /// Both products are formed in 128 bits, where they cannot overflow.
    pub fn is_reached_by(&self, approved: usize, total: usize) -> (b: bool)
        ensures
            b == self.reached_by(approved as nat, total as nat),
    {
        let lhs: u128 = wide_product(approved as u64, self.denominator);
        let rhs: u128 = wide_product(self.numerator, total as u64);
        lhs >= rhs
    }
}

/// The product of two 64-bit numbers, exact in 128 bits.
fn wide_product(a: u64, b: u64) -> (p: u128)
    ensures
        p == a * b,
{
    assert(a * b <= 0xFFFF_FFFF_FFFF_FFFF * 0xFFFF_FFFF_FFFF_FFFF) by (nonlinear_arith)
        requires
            a <= 0xFFFF_FFFF_FFFF_FFFF,
            b <= 0xFFFF_FFFF_FFFF_FFFF,
    ;
    (a as u128) * (b as u128)
}

/// No threshold in `(0, 1]` is reached while nobody of a non-empty group
/// has approved.
pub proof fn lemma_nothing_approved_never_reaches(r: Ratio, total: nat)
    requires
        r.in_range(),
        total > 0,
    ensures
        !r.reached_by(0, total),
{
    assert(r.numerator * total > 0) by (nonlinear_arith)
        requires
            r.numerator > 0,
            total > 0,
    ;
}

/// Every threshold in `(0, 1]` is reached once the whole group has approved.
pub proof fn lemma_everyone_approved_reaches(r: Ratio, total: nat)
    requires
        r.in_range(),
    ensures
        r.reached_by(total, total),
{
    assert(total * r.denominator >= r.numerator * total) by (nonlinear_arith)
        requires
            r.numerator <= r.denominator,
    ;
}

} // verus!
