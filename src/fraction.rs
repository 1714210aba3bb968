use vstd::prelude::*;

verus! {

/// The product of two `u64` values fits in a `u128`.
pub proof fn lemma_product_fits(a: u64, b: u64)
    ensures
        (a as int) * (b as int) <= u128::MAX,
{
    assert((a as int) * (b as int) <= (u64::MAX as int) * (u64::MAX as int)) by (nonlinear_arith);
}

/// An exact non-negative ratio `num / den`.
#[derive(Clone, Copy, Debug, PartialEq, Eq, Structural)]
pub struct Fraction {
    pub num: u64,
    pub den: u64,
}

impl Fraction {
    /// A fraction is meaningful when its denominator is positive.
    pub open spec fn wf(self) -> bool {
        self.den > 0
    }

    /// `self < other` as rational numbers (both well formed).
    pub open spec fn spec_lt(self, other: Fraction) -> bool {
        self.num * other.den < other.num * self.den
    }

    /// Builds `num / den`.
    pub fn new(num: u64, den: u64) -> (r: Fraction)
        requires
            den > 0,
        ensures
            r.num == num,
            r.den == den,
            r.wf(),
    {
        Fraction { num, den }
    }

    /// `count / total`, or `0 / 1` when `total` is zero.
    pub fn ratio_or_zero(count: u64, total: u64) -> (r: Fraction)
        ensures
            r.wf(),
            total > 0 ==> r.num == count && r.den == total,
            total == 0 ==> r.num == 0 && r.den == 1,
    {
        if total > 0 {
            Fraction { num: count, den: total }
        } else {
            Fraction { num: 0, den: 1 }
        }
    }

    /// Whether `self` is strictly less than `other` as rational numbers.
    pub fn lt(&self, other: &Fraction) -> (r: bool)
        ensures
            r == self.spec_lt(*other),
    {
        proof {
            lemma_product_fits(self.num, other.den);
            lemma_product_fits(other.num, self.den);
        }
        (self.num as u128) * (other.den as u128) < (other.num as u128) * (self.den as u128)
    }
}

} // verus!
