//! Comparing the quotient of two numbers with a constant, as binary32
//! arithmetic decides it, without forming the quotient.
//!
//! Binary32 division rounds the exact quotient to the nearest representable
//! value, a tie going to the neighbour with the even significand. So the
//! rounded quotient is less than a constant `c` exactly when the exact
//! quotient lies below the midpoint between `c` and the representable value
//! just under it, the midpoint itself counting as below when that lower
//! neighbour is the even one. [`Bound`] is that midpoint; that it decides as
//! said is proved in `rounding`.

use vstd::prelude::*;
use vstd::arithmetic::power2::*;
use vstd::arithmetic::mul::*;
use crate::number::Number;
use crate::number::power_of_two;

verus! {

/// The positive rational `numerator / 2^log2_denominator`, and whether a
/// quotient equal to it counts as below it.
#[derive(Clone, Copy, Debug, PartialEq, Eq, Structural)]
pub struct Bound {
    pub numerator: u32,
    pub log2_denominator: u32,
    pub inclusive: bool,
}

impl Number {
    /// A positive normal number under 4 whose lower neighbour has the same
    /// exponent: the constants a quotient can be compared with.
    pub open spec fn interior(self) -> bool {
        &&& !self.negative()
        &&& 1 <= self.exponent_field() <= 128
        &&& self.fraction() != 0
    }

    /// The midpoint between an interior number and its lower neighbour.
    pub open spec fn lower_midpoint(self) -> Bound {
        Bound {
            numerator: (2 * self.significand() - 1) as u32,
            log2_denominator: (150 - self.shift()) as u32,
            inclusive: self.significand() % 2 == 1,
        }
    }

    /// Whether the exact quotient of the magnitudes of `self` and `divisor`
    /// lies below `bound`. Both are finite and `divisor` is not zero.
    pub open spec fn magnitude_ratio_below(self, divisor: Number, bound: Bound) -> bool {
        let left = self.significand() * pow2(self.shift() + bound.log2_denominator as nat);
        let right = (bound.numerator as nat * divisor.significand()) * pow2(divisor.shift());
        if bound.inclusive {
            left <= right
        } else {
            left < right
        }
    }

    /// Whether `self / divisor < c` holds in binary32 arithmetic, for an
    /// interior `c`.
    ///
    /// A NaN operand, `0 / 0` and `inf / inf` give a NaN, which is less than
    /// nothing. Otherwise the quotient has the sign that the operands' signs
    /// give it: a negative one, zero included, is less than `c`; a positive
    /// infinity is not; a positive finite one is decided by the midpoint under
    /// `c`.
    pub open spec fn quotient_less_than(self, divisor: Number, c: Number) -> bool {
        if self.nan() || divisor.nan() {
            false
        } else if self.infinite() {
            !divisor.infinite() && self.negative() != divisor.negative()
        } else if divisor.infinite() {
            true
        } else if divisor.zero() {
            !self.zero() && self.negative() != divisor.negative()
        } else if self.zero() || self.negative() != divisor.negative() {
            true
        } else {
            self.magnitude_ratio_below(divisor, c.lower_midpoint())
        }
    }

    /// The midpoint between this number and its lower neighbour.
    pub(crate) fn midpoint_below(&self) -> (bound: Bound)
        requires
            self.interior(),
        ensures
            bound == self.lower_midpoint(),
            0 < bound.numerator < 0x200_0000,
            bound.log2_denominator <= 150,
    {
        let (m, t) = self.parts();
        Bound { numerator: 2 * m - 1, log2_denominator: 150 - t, inclusive: m % 2 == 1 }
    }

    /// Decides `magnitude_ratio_below` with integers of fixed width: both
    /// sides are divided by the smaller of their two powers of two, and a
    /// remaining power of `2^64` or more settles the matter by itself.
    pub(crate) fn magnitude_ratio_is_below(&self, divisor: &Number, bound: Bound) -> (r: bool)
        requires
            self.finite(),
            divisor.finite(),
            !divisor.zero(),
            0 < bound.numerator < 0x200_0000,
            bound.log2_denominator <= 150,
        ensures
            r == self.magnitude_ratio_below(*divisor, bound),
    {
        let (mp, tp) = self.parts();
        let (ms, ts) = divisor.parts();
        let up: u32 = tp + bound.log2_denominator;
        let left: u128 = mp as u128;
        assert(0 < bound.numerator * ms < 0x200_0000 * 0x100_0000) by (nonlinear_arith)
            requires
                0 < bound.numerator < 0x200_0000,
                0 < ms < 0x100_0000,
        ;
        let right: u128 = bound.numerator as u128 * ms as u128;
        if up >= ts {
            let d: u32 = up - ts;
            proof {
                lemma_common_power(left as int, right as int, d as nat, ts as nat);
            }
            if mp == 0 {
                proof {
                    lemma_mul_basics(pow2(d as nat) as int);
                }
                true
            } else if d >= 64 {
                proof {
                    lemma_large_power_dominates(left as int, right as int, d as nat);
                }
                false
            } else {
                let scale: u128 = power_of_two(d);
                assert(left * scale <= 0x100_0000 * 0x1_0000_0000_0000_0000) by (nonlinear_arith)
                    requires
                        left < 0x100_0000,
                        scale <= 0x1_0000_0000_0000_0000,
                ;
                let scaled: u128 = left * scale;
                if bound.inclusive {
                    scaled <= right
                } else {
                    scaled < right
                }
            }
        } else {
            let d: u32 = ts - up;
            proof {
                lemma_common_power(right as int, left as int, d as nat, up as nat);
            }
            if d >= 64 {
                proof {
                    lemma_large_power_dominates(right as int, left as int, d as nat);
                }
                true
            } else {
                let scale: u128 = power_of_two(d);
                assert(right * scale <= 0x2_0000_0000_0000 * 0x1_0000_0000_0000_0000)
                    by (nonlinear_arith)
                    requires
                        right <= 0x2_0000_0000_0000,
                        scale <= 0x1_0000_0000_0000_0000,
                ;
                let scaled: u128 = right * scale;
                if bound.inclusive {
                    left <= scaled
                } else {
                    left < scaled
                }
            }
        }
    }

    /// Whether `self / divisor < c` in binary32 arithmetic.
    pub(crate) fn quotient_is_less_than(&self, divisor: &Number, c: &Number) -> (r: bool)
        requires
            c.interior(),
        ensures
            r == self.quotient_less_than(*divisor, *c),
    {
        if self.is_nan() || divisor.is_nan() {
            false
        } else if self.is_infinite() {
            !divisor.is_infinite() && self.is_sign_negative() != divisor.is_sign_negative()
        } else if divisor.is_infinite() {
            true
        } else if divisor.is_zero() {
            !self.is_zero() && self.is_sign_negative() != divisor.is_sign_negative()
        } else if self.is_zero() || self.is_sign_negative() != divisor.is_sign_negative() {
            true
        } else {
            self.magnitude_ratio_is_below(divisor, c.midpoint_below())
        }
    }
}

/// With `x * 2^(d + t)` on one side and `y * 2^t` on the other, the common
/// factor `2^t` can be left out of a comparison.
proof fn lemma_common_power(x: int, y: int, d: nat, t: nat)
    ensures
        x * pow2(d + t) < y * pow2(t) <==> x * pow2(d) < y,
        x * pow2(d + t) <= y * pow2(t) <==> x * pow2(d) <= y,
        y * pow2(t) < x * pow2(d + t) <==> y < x * pow2(d),
        y * pow2(t) <= x * pow2(d + t) <==> y <= x * pow2(d),
{
    lemma_pow2_adds(d, t);
    lemma_pow2_pos(t);
    let c = pow2(t) as int;
    let z = x * pow2(d);
    assert(x * pow2(d + t) == z * c) by {
        lemma_mul_is_associative(x, pow2(d) as int, c);
    }
    assert((z * c < y * c <==> z < y) && (z * c <= y * c <==> z <= y)) by (nonlinear_arith)
        requires
            c > 0,
    ;
}

/// A positive integer times `2^64` or more exceeds anything under `2^64`.
proof fn lemma_large_power_dominates(x: int, y: int, d: nat)
    requires
        x >= 1,
        d >= 64,
        y < 0x1_0000_0000_0000_0000,
    ensures
        y < x * pow2(d),
{
    lemma2_to64();
    if d > 64 {
        lemma_pow2_strictly_increases(64, d);
    }
    assert(x * pow2(d) >= pow2(d)) by (nonlinear_arith)
        requires
            x >= 1,
            pow2(d) >= 0,
    ;
}

} // verus!
