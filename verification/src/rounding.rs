//! Why the midpoint under a constant decides whether a rounded quotient is
//! less than the constant.
//!
//! Division in binary32 arithmetic gives the finite number nearest to the
//! exact quotient, of two equally near the one with the even significand,
//! and infinity where the quotient lies beyond the largest finite number by
//! half a step or more. Stated here for positive operands; signs, zeros,
//! infinities and NaNs follow rules of their own.

use vstd::prelude::*;
use vstd::arithmetic::power2::*;
use crate::number::Number;

verus! {

/// How far the value of `x` lies from the exact quotient of the magnitudes
/// of `p` and `s`, in units of `2^-149` divided by the magnitude of `s`.
pub open spec fn distance(p: Number, s: Number, x: Number) -> int {
    let d = p.magnitude() * pow2(149) - x.magnitude() * s.magnitude();
    if d < 0 {
        -d
    } else {
        d
    }
}

/// The exact quotient of the magnitudes of `p` and `s` is too large for a
/// finite result: it is at least `(2^25 - 1) * 2^103`.
pub open spec fn overflows(p: Number, s: Number) -> bool {
    p.magnitude() >= 0x1ff_ffff * pow2(103) * s.magnitude()
}

/// `r` is the quotient of the magnitudes of `p` and `s` as binary32 division
/// rounds it.
pub open spec fn divides_to(p: Number, s: Number, r: Number) -> bool {
    if overflows(p, s) {
        r.infinite() && !r.negative()
    } else {
        &&& r.finite()
        &&& !r.negative()
        &&& forall|x: Number|
            x.finite() ==> distance(p, s, r) <= #[trigger] distance(p, s, x)
        &&& forall|x: Number|
            x.finite() && x.magnitude() != r.magnitude() && #[trigger] distance(p, s, x)
                == distance(p, s, r) ==> r.significand() % 2 == 0
    }
}

/// `r`, a non-negative number that is not a NaN, is less than the finite
/// non-negative `c`.
pub open spec fn less_than(r: Number, c: Number) -> bool {
    r.finite() && r.magnitude() < c.magnitude()
}

/// The number just under an interior one has the next smaller significand
/// and the same shift.
proof fn lemma_lower_neighbour(c: Number) -> (lower: Number)
    requires
        c.interior(),
    ensures
        lower.bits == c.bits - 1,
        lower.finite(),
        lower.exponent_field() >= 1,
        lower.significand() == c.significand() - 1,
        lower.shift() == c.shift(),
        lower.magnitude() == (c.significand() - 1) * pow2(c.shift()),
{
    Number { bits: (c.bits - 1) as u32 }
}

/// No finite number lies between an interior one and its lower neighbour.
proof fn lemma_nothing_between(x: Number, c: Number)
    requires
        x.finite(),
        c.interior(),
        x.magnitude() < c.magnitude(),
    ensures
        x.magnitude() <= (c.significand() - 1) * pow2(c.shift()),
{
    let m = x.significand() as int;
    let u = x.shift();
    let big = c.significand() as int;
    let t = c.shift();
    lemma_pow2_pos(u);
    lemma_pow2_pos(t);
    lemma2_to64();
    if u >= t {
        let d = (u - t) as nat;
        lemma_pow2_adds(d, t);
        let whole = m * pow2(d);
        assert(whole * pow2(t) < big * pow2(t)) by (nonlinear_arith)
            requires
                m * pow2(u) < big * pow2(t),
                pow2(u) == pow2(d) * pow2(t),
                whole == m * pow2(d),
        ;
        assert(whole < big) by (nonlinear_arith)
            requires
                whole * pow2(t) < big * pow2(t),
                pow2(t) > 0,
        ;
        assert(m * pow2(u) <= (big - 1) * pow2(t)) by (nonlinear_arith)
            requires
                whole <= big - 1,
                pow2(t) > 0,
                pow2(u) == pow2(d) * pow2(t),
                whole == m * pow2(d),
        ;
    } else {
        let d = (t - u) as nat;
        lemma_pow2_adds(d, u);
        lemma_pow2_unfold(d);
        lemma_pow2_pos((d - 1) as nat);
        assert(m * pow2(u) <= (big - 1) * pow2(t)) by (nonlinear_arith)
            requires
                m < 0x100_0000,
                big - 1 >= 0x80_0000,
                pow2(t) == pow2(d) * pow2(u),
                pow2(d) >= 2,
                pow2(u) > 0,
        ;
    }
}

/// A magnitude has one significand: a finite number with the magnitude of
/// a normal one has its significand.
proof fn lemma_one_significand(x: Number, y: Number)
    requires
        x.finite(),
        y.finite(),
        y.exponent_field() >= 1,
        x.magnitude() == y.magnitude(),
    ensures
        x.significand() == y.significand(),
{
    let m = x.significand() as int;
    let u = x.shift();
    let big = y.significand() as int;
    let t = y.shift();
    lemma_pow2_pos(u);
    lemma_pow2_pos(t);
    if u == t {
        assert(m == big) by (nonlinear_arith)
            requires
                m * pow2(u) == big * pow2(u),
                pow2(u) > 0,
        ;
    } else if u > t {
        let d = (u - t) as nat;
        lemma_pow2_adds(d, t);
        lemma_pow2_unfold(d);
        lemma_pow2_pos((d - 1) as nat);
        assert(false) by (nonlinear_arith)
            requires
                m * pow2(u) == big * pow2(t),
                pow2(u) == pow2(d) * pow2(t),
                pow2(d) >= 2,
                pow2(t) > 0,
                m >= 0x80_0000,
                big < 0x100_0000,
        ;
    } else {
        let d = (t - u) as nat;
        lemma_pow2_adds(d, u);
        lemma_pow2_unfold(d);
        lemma_pow2_pos((d - 1) as nat);
        assert(false) by (nonlinear_arith)
            requires
                m * pow2(u) == big * pow2(t),
                pow2(t) == pow2(d) * pow2(u),
                pow2(d) >= 2,
                pow2(u) > 0,
                big >= 0x80_0000,
                m < 0x100_0000,
        ;
    }
}

/// The midpoint under an interior `c`, written with magnitudes: twice the
/// exact quotient against the sum of `c` and its lower neighbour.
proof fn lemma_midpoint_in_magnitudes(p: Number, s: Number, c: Number)
    requires
        p.finite(),
        s.finite(),
        c.interior(),
    ensures
        ({
            let twice = 2 * (p.magnitude() * pow2(149));
            let sum = (c.magnitude() + (c.significand() - 1) * pow2(c.shift())) * s.magnitude();
            p.magnitude_ratio_below(s, c.lower_midpoint()) <==> if c.significand() % 2 == 1 {
                twice <= sum
            } else {
                twice < sum
            }
        }),
{
    let a = p.significand() as int;
    let x = p.shift();
    let b = s.significand() as int;
    let y = s.shift();
    let big = c.significand() as int;
    let t = c.shift();
    let k = (150 - t) as nat;
    let bound = c.lower_midpoint();
    assert(bound.numerator == 2 * big - 1);
    assert(bound.log2_denominator as nat == k);
    lemma_pow2_pos(t);
    lemma_pow2_adds(x, k);
    lemma_pow2_adds(k, t);
    lemma_pow2_adds(149, 1);
    lemma2_to64();
    let left = a * pow2(x + k);
    let right = ((2 * big - 1) * b) * pow2(y);
    let e = pow2(t) as int;
    assert(left * e == 2 * ((a * pow2(x)) * pow2(149))) by (nonlinear_arith)
        requires
            left == a * pow2(x + k),
            pow2(x + k) == pow2(x) * pow2(k),
            pow2(k) * e == pow2(150),
            pow2(150) == pow2(149) * 2,
    ;
    assert(right * e == (big * e + (big - 1) * e) * (b * pow2(y))) by (nonlinear_arith)
        requires
            right == ((2 * big - 1) * b) * pow2(y),
    ;
    assert((left < right <==> left * e < right * e) && (left <= right <==> left * e <= right
        * e)) by (nonlinear_arith)
        requires
            e > 0,
    ;
}

/// The rounded quotient of two positive finite numbers is less than an
/// interior constant exactly when the exact quotient lies below the midpoint
/// under the constant.
pub proof fn lemma_rounded_quotient_less_than(p: Number, s: Number, c: Number, r: Number)
    requires
        p.finite(),
        s.finite(),
        !p.zero(),
        !s.zero(),
        c.interior(),
        divides_to(p, s, r),
    ensures
        less_than(r, c) <==> p.magnitude_ratio_below(s, c.lower_midpoint()),
{
    let big = c.significand() as int;
    let t = c.shift();
    let top = c.magnitude() as int;
    let under = (big - 1) * pow2(t);
    let size = s.magnitude() as int;
    let target = p.magnitude() * pow2(149);
    lemma_pow2_pos(t);
    lemma_pow2_pos(s.shift());
    lemma_pow2_pos(p.shift());
    lemma_pow2_pos(149);
    lemma_midpoint_in_magnitudes(p, s, c);
    assert(size > 0) by (nonlinear_arith)
        requires
            size == s.significand() * pow2(s.shift()),
            s.significand() > 0,
            pow2(s.shift()) > 0,
    ;
    assert(top == under + pow2(t)) by (nonlinear_arith)
        requires
            top == big * pow2(t),
            under == (big - 1) * pow2(t),
    ;
    if overflows(p, s) {
        lemma_overflow_is_above(p, s, c);
    } else {
        let lower = lemma_lower_neighbour(c);
        let found = r.magnitude() as int;
        assert(distance(p, s, r) <= distance(p, s, lower));
        assert(distance(p, s, r) <= distance(p, s, c));
        let at_found = found * size;
        let at_top = top * size;
        let at_under = under * size;
        assert(lower.magnitude() * s.magnitude() == at_under);
        assert(distance(p, s, r) == if target < at_found {
            at_found - target
        } else {
            target - at_found
        });
        assert(distance(p, s, c) == if target < at_top {
            at_top - target
        } else {
            target - at_top
        });
        assert(distance(p, s, lower) == if target < at_under {
            at_under - target
        } else {
            target - at_under
        });
        assert(c.lower_midpoint().inclusive == (big % 2 == 1));
        assert((top + under) * size == at_top + at_under) by (nonlinear_arith)
            requires
                at_top == top * size,
                at_under == under * size,
        ;
        assert(at_under < at_top) by (nonlinear_arith)
            requires
                at_top == top * size,
                at_under == under * size,
                under < top,
                size > 0,
        ;
        if found < top {
            lemma_nothing_between(r, c);
            assert(at_found <= at_under) by (nonlinear_arith)
                requires
                    at_found == found * size,
                    at_under == under * size,
                    found <= under,
                    size > 0,
            ;
            if at_found == at_under && 2 * target == at_top + at_under {
                // A tie between the two neighbours, given to the lower one.
                assert(found == under) by (nonlinear_arith)
                    requires
                        found * size == under * size,
                        size > 0,
                ;
                assert(distance(p, s, c) == distance(p, s, r));
                lemma_one_significand(r, lower);
            }
        } else {
            assert(at_top <= at_found) by (nonlinear_arith)
                requires
                    at_found == found * size,
                    at_top == top * size,
                    top <= found,
                    size > 0,
            ;
            if at_found == at_top && 2 * target == at_top + at_under {
                // A tie between the two neighbours, given to the higher one.
                assert(found == top) by (nonlinear_arith)
                    requires
                        found * size == top * size,
                        size > 0,
                ;
                assert(distance(p, s, lower) == distance(p, s, r));
                lemma_one_significand(r, c);
            }
        }
    }
}

/// A quotient too large for a finite result lies above every midpoint
/// under an interior constant.
proof fn lemma_overflow_is_above(p: Number, s: Number, c: Number)
    requires
        p.finite(),
        s.finite(),
        !s.zero(),
        c.interior(),
        overflows(p, s),
    ensures
        !p.magnitude_ratio_below(s, c.lower_midpoint()),
{
    let big = c.significand() as int;
    let t = c.shift();
    let size = s.magnitude() as int;
    let whole = p.magnitude() as int;
    lemma_midpoint_in_magnitudes(p, s, c);
    lemma_pow2_pos(t);
    lemma_pow2_pos(s.shift());
    lemma_pow2_pos(103);
    lemma_pow2_pos(149);
    lemma2_to64();
    if t < 149 {
        lemma_pow2_strictly_increases(t, 149);
    }
    assert(size >= 0) by (nonlinear_arith)
        requires
            size == s.significand() * pow2(s.shift()),
            pow2(s.shift()) > 0,
            s.significand() >= 0,
    ;
    let sum = (c.magnitude() + (big - 1) * pow2(t)) * size;
    assert(sum < 2 * (whole * pow2(149)) || size == 0) by (nonlinear_arith)
        requires
            sum == (big * pow2(t) + (big - 1) * pow2(t)) * size,
            whole >= 0x1ff_ffff * pow2(103) * size,
            big < 0x100_0000,
            0 < pow2(t) <= pow2(149),
            pow2(103) >= 1,
            size >= 0,
    ;
    assert(size > 0) by (nonlinear_arith)
        requires
            size == s.significand() * pow2(s.shift()),
            s.significand() > 0,
            pow2(s.shift()) > 0,
    ;
}

/// For two finite numbers of one sign, neither of them zero, `p / s < c`
/// as the library decides it is what binary32 division and comparison give.
pub proof fn lemma_quotient_less_than_is_rounded(p: Number, s: Number, c: Number, r: Number)
    requires
        p.finite(),
        s.finite(),
        !p.zero(),
        !s.zero(),
        p.negative() == s.negative(),
        c.interior(),
        divides_to(p, s, r),
    ensures
        p.quotient_less_than(s, c) <==> less_than(r, c),
{
    lemma_rounded_quotient_less_than(p, s, c, r);
}

} // verus!
