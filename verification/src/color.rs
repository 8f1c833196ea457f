//! The colour policy: a progress ratio selects one of three bands.

use vstd::prelude::*;
use vstd::arithmetic::power2::*;
use crate::number::Number;
use crate::quotient::Bound;

verus! {

/// Bit pattern of the binary32 constant `0.3`: ratios below it are low.
pub const LOW_THRESHOLD: u32 = 0x3e99_999a;

/// Bit pattern of the binary32 constant `0.7`: ratios from it on are high.
pub const HIGH_THRESHOLD: u32 = 0x3f33_3333;

/// Colour of the low band, a red.
pub const LOW_COLOR: &'static str = "#d9534f";

/// Colour of the middle band, an amber.
pub const MID_COLOR: &'static str = "#f0ad4e";

/// Colour of the high band, a green.
pub const HIGH_COLOR: &'static str = "#5cb85c";

#[derive(Clone, Copy, Debug, PartialEq, Eq, Structural)]
pub enum Band {
    Low,
    Mid,
    High,
}

/// The band of `progress / scale`: low below `0.3`, middle from `0.3` to
/// below `0.7`, high otherwise. A ratio that is not a number is below
/// nothing, so it is high.
pub open spec fn band_of(progress: Number, scale: Number) -> Band {
    if progress.quotient_less_than(scale, Number { bits: LOW_THRESHOLD }) {
        Band::Low
    } else if progress.quotient_less_than(scale, Number { bits: HIGH_THRESHOLD }) {
        Band::Mid
    } else {
        Band::High
    }
}

pub open spec fn band_color(band: Band) -> Seq<char> {
    match band {
        Band::Low => LOW_COLOR@,
        Band::Mid => MID_COLOR@,
        Band::High => HIGH_COLOR@,
    }
}

impl Band {
    pub fn of(progress: Number, scale: Number) -> (band: Band)
        ensures
            band == band_of(progress, scale),
    {
        let low = Number::from_bits(LOW_THRESHOLD);
        let high = Number::from_bits(HIGH_THRESHOLD);
        if progress.quotient_is_less_than(&scale, &low) {
            Band::Low
        } else if progress.quotient_is_less_than(&scale, &high) {
            Band::Mid
        } else {
            Band::High
        }
    }

    pub fn color(&self) -> (color: &'static str)
        ensures
            color@ == band_color(*self),
    {
        match self {
            Band::Low => LOW_COLOR,
            Band::Mid => MID_COLOR,
            Band::High => HIGH_COLOR,
        }
    }
}

/// The colour for `progress` measured against `scale`.
pub fn get_progress_color(progress: Number, scale: Number) -> (color: &'static str)
    ensures
        color@ == band_color(band_of(progress, scale)),
{
    Band::of(progress, scale).color()
}

/// The exact quotient is under seven tenths, and so close to it that
/// division rounds it up to the constant `0.7`.
pub open spec fn rounds_up_to_high(progress: Number, scale: Number) -> bool {
    &&& 10 * progress.scaled() < 7 * scale.scaled()
    &&& 23488101 * scale.scaled() < progress.scaled() * pow2(25)
}

/// The bands in exact arithmetic, for a finite progress and a positive
/// finite scale: low is a quotient under `20132659 / 2^26`, high is one
/// over `23488101 / 2^25`, the midpoints under the constants `0.3` and `0.7`.
pub proof fn lemma_bands_of_exact_quotients(progress: Number, scale: Number)
    requires
        progress.finite(),
        scale.finite(),
        scale.scaled() > 0,
    ensures
        band_of(progress, scale) == Band::Low <==> progress.scaled() * pow2(26) < 20132659
            * scale.scaled(),
        band_of(progress, scale) == Band::High <==> 23488101 * scale.scaled() < progress.scaled()
            * pow2(25),
{
    let low = Number { bits: LOW_THRESHOLD };
    let high = Number { bits: HIGH_THRESHOLD };
    assert(low.lower_midpoint() == Bound {
        numerator: 20132659,
        log2_denominator: 26,
        inclusive: false,
    });
    assert(high.lower_midpoint() == Bound {
        numerator: 23488101,
        log2_denominator: 25,
        inclusive: true,
    });
    lemma_quotient_below_midpoint(progress, scale, low);
    lemma_quotient_below_midpoint(progress, scale, high);
    lemma2_to64();
    let p = progress.scaled();
    let s = scale.scaled();
    if p * pow2(26) < 20132659 * s {
        // Under the lower midpoint is under the higher one.
        assert(p * pow2(25) <= 23488101 * s) by (nonlinear_arith)
            requires
                p * pow2(26) < 20132659 * s,
                pow2(26) == 2 * pow2(25),
                s > 0,
        ;
    }
}

/// For a finite progress and a positive finite scale, a ratio under three
/// tenths is low, one from three tenths to under seven tenths is in the
/// middle, and one of seven tenths or more is high; the ratios taken exactly,
/// so that a ratio of just three tenths is in the middle and one of just
/// seven tenths is high. Left out are the ratios just under seven tenths that
/// division rounds up to `0.7`: they are high.
pub proof fn lemma_threshold_law(progress: Number, scale: Number)
    requires
        progress.finite(),
        scale.finite(),
        scale.scaled() > 0,
        !rounds_up_to_high(progress, scale),
    ensures
        10 * progress.scaled() < 3 * scale.scaled() ==> band_of(progress, scale) == Band::Low,
        3 * scale.scaled() <= 10 * progress.scaled() < 7 * scale.scaled() ==> band_of(
            progress,
            scale,
        ) == Band::Mid,
        7 * scale.scaled() <= 10 * progress.scaled() ==> band_of(progress, scale) == Band::High,
{
    lemma_bands_of_exact_quotients(progress, scale);
    lemma_no_quotient_rounds_up_to_low(progress, scale);
    lemma2_to64();
    let p = progress.scaled();
    let s = scale.scaled();
    if 3 * s <= 10 * p {
        assert(20132659 * s <= p * pow2(26)) by (nonlinear_arith)
            requires
                3 * s <= 10 * p,
                pow2(26) == 0x400_0000,
                s > 0,
        ;
    }
    if 7 * s <= 10 * p {
        assert(23488101 * s < p * pow2(25)) by (nonlinear_arith)
            requires
                7 * s <= 10 * p,
                pow2(25) == 0x200_0000,
                s > 0,
        ;
    }
}

/// Where an operand is infinite and the scale is positive, the band is
/// that of the infinite ratio, or of a ratio that has vanished: a positive
/// infinite progress is high and a negative one low on a finite scale, and a
/// finite progress is low on an infinite scale.
pub proof fn lemma_bands_of_infinite_operands(progress: Number, scale: Number)
    requires
        !progress.nan(),
        !scale.nan(),
        !scale.negative(),
        !scale.zero(),
        progress.infinite() || scale.infinite(),
    ensures
        progress.infinite() && scale.finite() && !progress.negative() ==> band_of(progress, scale)
            == Band::High,
        progress.infinite() && scale.finite() && progress.negative() ==> band_of(progress, scale)
            == Band::Low,
        progress.finite() ==> band_of(progress, scale) == Band::Low,
        progress.infinite() && scale.infinite() ==> band_of(progress, scale) == Band::High,
{
}

/// The ratios that division rounds up to `0.7` are high.
pub proof fn lemma_rounded_up_is_high(progress: Number, scale: Number)
    requires
        progress.finite(),
        scale.finite(),
        scale.scaled() > 0,
        rounds_up_to_high(progress, scale),
    ensures
        band_of(progress, scale) == Band::High,
{
    lemma_bands_of_exact_quotients(progress, scale);
}

/// No quotient of two numbers lies under three tenths and on or over the
/// midpoint under the constant `0.3`: division rounds none up to `0.3`.
pub proof fn lemma_no_quotient_rounds_up_to_low(progress: Number, scale: Number)
    requires
        progress.finite(),
        scale.finite(),
        scale.scaled() > 0,
    ensures
        10 * progress.scaled() < 3 * scale.scaled() ==> progress.scaled() * pow2(26) < 20132659
            * scale.scaled(),
{
    let a = progress.significand() as int;
    let b = scale.significand() as int;
    let x = progress.shift();
    let y = scale.shift();
    lemma_pow2_pos(x);
    lemma_pow2_pos(y);
    lemma2_to64();
    assert(!scale.negative() && b > 0) by (nonlinear_arith)
        requires
            scale.scaled() > 0,
            scale.scaled() == scale.signed_significand() * pow2(y),
            pow2(y) > 0,
            scale.signed_significand() == b || (scale.negative() && scale.signed_significand()
                == -b),
            b >= 0,
    ;
    if progress.negative() || a == 0 {
        assert(progress.scaled() * pow2(26) <= 0 < 20132659 * scale.scaled()) by (nonlinear_arith)
            requires
                progress.scaled() == progress.signed_significand() * pow2(x),
                progress.signed_significand() <= 0,
                pow2(x) > 0,
                pow2(26) > 0,
                scale.scaled() > 0,
        ;
    } else if 10 * progress.scaled() < 3 * scale.scaled() {
        if x >= y {
            let d = (x - y) as nat;
            let whole = a * pow2(d);
            lemma_pow2_adds(d, y);
            lemma_pow2_pos(d);
            assert(progress.scaled() == whole * pow2(y)) by (nonlinear_arith)
                requires
                    progress.scaled() == a * pow2(x),
                    pow2(x) == pow2(d) * pow2(y),
                    whole == a * pow2(d),
            ;
            assert(10 * whole < 3 * b) by (nonlinear_arith)
                requires
                    10 * (whole * pow2(y)) < 3 * (b * pow2(y)),
                    pow2(y) > 0,
            ;
            assert(whole * 0x400_0000 < 20132659 * b);
            assert((whole * pow2(y)) * pow2(26) < 20132659 * (b * pow2(y))) by (nonlinear_arith)
                requires
                    whole * 0x400_0000 < 20132659 * b,
                    pow2(26) == 0x400_0000,
                    pow2(y) > 0,
            ;
        } else {
            let d = (y - x) as nat;
            let half = b * pow2((d - 1) as nat);
            let whole = 2 * half;
            lemma_pow2_adds(d, x);
            lemma_pow2_unfold(d);
            lemma_pow2_pos((d - 1) as nat);
            assert(scale.scaled() == whole * pow2(x)) by (nonlinear_arith)
                requires
                    scale.scaled() == b * pow2(y),
                    pow2(y) == pow2(d) * pow2(x),
                    pow2(d) == 2 * pow2((d - 1) as nat),
                    whole == 2 * (b * pow2((d - 1) as nat)),
            ;
            assert(10 * a < 3 * whole) by (nonlinear_arith)
                requires
                    10 * (a * pow2(x)) < 3 * (whole * pow2(x)),
                    pow2(x) > 0,
            ;
            assert(a * 0x400_0000 < 20132659 * whole);
            assert((a * pow2(x)) * pow2(26) < 20132659 * (whole * pow2(x))) by (nonlinear_arith)
                requires
                    a * 0x400_0000 < 20132659 * whole,
                    pow2(26) == 0x400_0000,
                    pow2(x) > 0,
            ;
        }
    }
}

/// For a finite progress and a positive finite scale, the quotient is
/// less than an interior constant exactly when it lies, taken exactly, below
/// the midpoint under the constant.
proof fn lemma_quotient_below_midpoint(progress: Number, scale: Number, c: Number)
    requires
        progress.finite(),
        scale.finite(),
        scale.scaled() > 0,
        c.interior(),
    ensures
        ({
            let bound = c.lower_midpoint();
            let left = progress.scaled() * pow2(bound.log2_denominator as nat);
            let right = bound.numerator * scale.scaled();
            progress.quotient_less_than(scale, c) <==> if bound.inclusive {
                left <= right
            } else {
                left < right
            }
        }),
{
    let bound = c.lower_midpoint();
    let k = bound.log2_denominator as nat;
    let n = bound.numerator as int;
    let a = progress.significand() as int;
    let b = scale.significand() as int;
    let x = progress.shift();
    let y = scale.shift();
    lemma_pow2_pos(x);
    lemma_pow2_pos(y);
    lemma_pow2_pos(k);
    lemma_pow2_adds(x, k);
    assert(n > 0);
    assert(!scale.negative() && b > 0) by (nonlinear_arith)
        requires
            scale.scaled() > 0,
            scale.scaled() == scale.signed_significand() * pow2(y),
            pow2(y) > 0,
            scale.signed_significand() == b || (scale.negative() && scale.signed_significand()
                == -b),
            b >= 0,
    ;
    assert(n * scale.scaled() > 0) by (nonlinear_arith)
        requires
            n > 0,
            scale.scaled() > 0,
    ;
    if progress.negative() || a == 0 {
        assert(progress.scaled() * pow2(k) <= 0) by (nonlinear_arith)
            requires
                progress.scaled() == progress.signed_significand() * pow2(x),
                progress.signed_significand() <= 0,
                pow2(x) > 0,
                pow2(k) > 0,
        ;
    } else {
        assert(a * pow2(x + k) == progress.scaled() * pow2(k)) by (nonlinear_arith)
            requires
                progress.scaled() == a * pow2(x),
                pow2(x + k) == pow2(x) * pow2(k),
        ;
        assert((n * b) * pow2(y) == n * scale.scaled()) by (nonlinear_arith)
            requires
                scale.scaled() == b * pow2(y),
        ;
    }
}

} // verus!
