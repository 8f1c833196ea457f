//! Numbers as the service receives them: IEEE 754 binary32 values, held by
//! their bit patterns and read with integer arithmetic only.
//!
//! A finite number with significand `m` and shift `t` has the magnitude
//! `m * 2^(t - 149)`; the sign is kept apart.

use vstd::prelude::*;
use vstd::arithmetic::power2::*;

verus! {

/// An IEEE 754 binary32 number, identified by its bit pattern.
///
/// `==` compares bit patterns: two NaNs with equal bits are equal, and
/// `0.0` differs from `-0.0`.
#[derive(Clone, Copy, Debug, PartialEq, Eq, Structural)]
pub struct Number {
    pub bits: u32,
}

impl Number {
    /// The sign bit is set.
    pub open spec fn negative(self) -> bool {
        self.bits >= 0x8000_0000
    }

    /// The eight exponent bits.
    pub open spec fn exponent_field(self) -> nat {
        ((self.bits / 0x80_0000) % 0x100) as nat
    }

    /// The twenty-three fraction bits.
    pub open spec fn fraction(self) -> nat {
        (self.bits % 0x80_0000) as nat
    }

    /// Not a number.
    pub open spec fn nan(self) -> bool {
        self.exponent_field() == 255 && self.fraction() != 0
    }

    /// Positive or negative infinity.
    pub open spec fn infinite(self) -> bool {
        self.exponent_field() == 255 && self.fraction() == 0
    }

    /// Neither infinite nor NaN.
    pub open spec fn finite(self) -> bool {
        self.exponent_field() < 255
    }

    /// The integer significand of a finite number: the fraction bits, with
    /// the implicit leading bit unless the number is subnormal or zero.
    pub open spec fn significand(self) -> nat {
        if self.exponent_field() == 0 {
            self.fraction()
        } else {
            0x80_0000 + self.fraction()
        }
    }

    /// The power of two that scales the significand of a finite number,
    /// counted from `2^-149`.
    pub open spec fn shift(self) -> nat {
        if self.exponent_field() == 0 {
            0
        } else {
            (self.exponent_field() - 1) as nat
        }
    }

    /// Positive or negative zero.
    pub open spec fn zero(self) -> bool {
        self.finite() && self.significand() == 0
    }

    /// The significand with the number's sign.
    pub open spec fn signed_significand(self) -> int {
        if self.negative() {
            -(self.significand() as int)
        } else {
            self.significand() as int
        }
    }

    /// The magnitude of a finite number, in units of `2^-149`.
    pub open spec fn magnitude(self) -> nat {
        self.significand() * pow2(self.shift())
    }

    /// The value of a finite number, in units of `2^-149`.
    pub open spec fn scaled(self) -> int {
        self.signed_significand() * pow2(self.shift())
    }

    /// The magnitude of a finite number, rounded toward zero to an integer.
    pub open spec fn whole_magnitude(self) -> nat {
        if self.shift() >= 149 {
            self.significand() * pow2((self.shift() - 149) as nat)
        } else {
            self.significand() / pow2((149 - self.shift()) as nat)
        }
    }

    /// The number truncated toward zero and held to the range of `i32`;
    /// zero for a NaN.
    pub open spec fn truncated(self) -> int {
        if self.nan() {
            0
        } else if self.infinite() || self.whole_magnitude() > 0x7fff_ffff {
            if self.negative() {
                -0x8000_0000
            } else {
                0x7fff_ffff
            }
        } else if self.negative() {
            -(self.whole_magnitude() as int)
        } else {
            self.whole_magnitude() as int
        }
    }

    pub fn from_bits(bits: u32) -> (n: Number)
        ensures
            n.bits == bits,
    {
        Number { bits }
    }

    pub fn to_bits(&self) -> (bits: u32)
        ensures
            bits == self.bits,
    {
        self.bits
    }

    pub fn is_sign_negative(&self) -> (r: bool)
        ensures
            r == self.negative(),
    {
        self.bits >= 0x8000_0000
    }

    pub fn is_nan(&self) -> (r: bool)
        ensures
            r == self.nan(),
    {
        self.exponent_bits() == 255 && self.fraction_bits() != 0
    }

    pub fn is_infinite(&self) -> (r: bool)
        ensures
            r == self.infinite(),
    {
        self.exponent_bits() == 255 && self.fraction_bits() == 0
    }

    pub fn is_finite(&self) -> (r: bool)
        ensures
            r == self.finite(),
    {
        self.exponent_bits() < 255
    }

    pub fn is_zero(&self) -> (r: bool)
        ensures
            r == self.zero(),
    {
        self.exponent_bits() == 0 && self.fraction_bits() == 0
    }

    fn exponent_bits(&self) -> (e: u32)
        ensures
            e == self.exponent_field(),
            e < 0x100,
    {
        (self.bits / 0x80_0000) % 0x100
    }

    fn fraction_bits(&self) -> (f: u32)
        ensures
            f == self.fraction(),
            f < 0x80_0000,
    {
        self.bits % 0x80_0000
    }

    /// Significand and shift of a finite number.
    pub(crate) fn parts(&self) -> (r: (u32, u32))
        requires
            self.finite(),
        ensures
            r.0 == self.significand(),
            r.1 == self.shift(),
            r.0 < 0x100_0000,
            r.1 <= 253,
            r.1 > 0 ==> r.0 >= 0x80_0000,
    {
        let e = self.exponent_bits();
        let f = self.fraction_bits();
        if e == 0 {
            (f, 0)
        } else {
            (0x80_0000 + f, e - 1)
        }
    }

    /// What `as i32` gives for this number: truncation toward zero, the
    /// nearest bound of `i32` where the value lies outside, zero for a NaN.
    pub fn truncate(&self) -> (r: i32)
        ensures
            r == self.truncated(),
    {
        if self.is_nan() {
            return 0;
        }
        let negative = self.is_sign_negative();
        if self.is_infinite() {
            return if negative { i32::MIN } else { i32::MAX };
        }
        let (m, t) = self.parts();
        proof {
            lemma2_to64();
        }
        if t >= 149 {
            let up: u32 = t - 149;
            if up >= 8 {
                proof {
                    lemma_shifted_significand_is_large(m as nat, up as nat);
                }
                return if negative { i32::MIN } else { i32::MAX };
            }
            let scale: u128 = power_of_two(up);
            proof {
                if up < 7 {
                    lemma_pow2_strictly_increases(up as nat, 7);
                }
            }
            assert(m * scale <= 0x100_0000 * 0x80) by (nonlinear_arith)
                requires
                    m < 0x100_0000,
                    scale <= 0x80,
            ;
            let whole: u128 = m as u128 * scale;
            assert(whole == self.whole_magnitude());
            if whole > 0x7fff_ffff {
                if negative { i32::MIN } else { i32::MAX }
            } else if negative {
                -(whole as i32)
            } else {
                whole as i32
            }
        } else {
            let down: u32 = 149 - t;
            if down >= 24 {
                proof {
                    if down > 24 {
                        lemma_pow2_strictly_increases(24, down as nat);
                    }
                    vstd::arithmetic::div_mod::lemma_basic_div(m as int, pow2(down as nat) as int);
                }
                return 0;
            }
            let scale: u128 = power_of_two(down);
            let whole: u128 = m as u128 / scale;
            assert(whole == self.whole_magnitude());
            if negative {
                -(whole as i32)
            } else {
                whole as i32
            }
        }
    }
}

/// `2^e` for an exponent of at most 64.
pub(crate) fn power_of_two(e: u32) -> (r: u128)
    requires
        e <= 64,
    ensures
        r == pow2(e as nat),
        1 <= r <= 0x1_0000_0000_0000_0000,
{
    let mut r: u128 = 1;
    let mut i: u32 = 0;
    proof {
        lemma2_to64();
    }
    while i < e
        invariant
            i <= e <= 64,
            r == pow2(i as nat),
            1 <= r <= 0x1_0000_0000_0000_0000,
            pow2(64) == 0x1_0000_0000_0000_0000,
        decreases e - i,
    {
        proof {
            lemma_pow2_unfold((i + 1) as nat);
            if i + 1 < 64 {
                lemma_pow2_strictly_increases((i + 1) as nat, 64);
            }
        }
        r = r * 2;
        i = i + 1;
    }
    r
}

/// A normal significand shifted up by at least eight places leaves `i32`.
proof fn lemma_shifted_significand_is_large(m: nat, up: nat)
    requires
        m >= 0x80_0000,
        up >= 8,
    ensures
        m * pow2(up) > 0x7fff_ffff,
{
    lemma2_to64();
    if up > 8 {
        lemma_pow2_strictly_increases(8, up);
    }
    assert(m * pow2(up) >= 0x80_0000 * 0x100) by (nonlinear_arith)
        requires
            m >= 0x80_0000,
            pow2(up) >= 0x100,
    ;
}

} // verus!
