//! Volume levels.
//!
//! A level is carried as the bit pattern of an IEEE-754 single-precision
//! number, so that whatever the platform or a caller hands over passes through
//! the library without loss. Its numeric meaning is given by [`Level::scaled`],
//! an integer count of units of 2^-149, the spacing of the smallest
//! single-precision numbers.
use vstd::arithmetic::power2::{lemma2_to64, lemma_pow2_adds, lemma_pow2_pos, lemma_pow2_strictly_increases, pow2};
use vstd::prelude::*;

verus! {

/// Two to the number of fraction bits of a pattern.
pub const FRACTION_RADIX: u32 = 0x80_0000;

/// Two to the number of exponent bits of a pattern.
pub const EXPONENT_RADIX: u32 = 0x100;

/// The lowest pattern with the sign bit set.
pub const SIGN_BIT: u32 = 0x8000_0000;

/// The exponent field of the patterns in `[1, 2)`.
pub const EXPONENT_BIAS: u32 = 127;

/// The exponent field that marks infinities and NaNs.
pub const EXPONENT_SPECIAL: u32 = 255;

/// The pattern of `0.0`.
pub const ZERO_BITS: u32 = 0;

/// The pattern of `0.5`.
pub const HALF_BITS: u32 = 0x3F00_0000;

/// The pattern of `1.0`.
pub const ONE_BITS: u32 = 0x3F80_0000;

/// A volume level: the bit pattern of a single-precision number. Two levels
/// are equal where their patterns are.
#[derive(Clone, Copy, Debug, PartialEq, Eq, Structural)]
pub struct Level {
    pub bits: u32,
}

impl Level {
    /// The exponent field, `0 ..= 255`.
    pub open spec fn exponent(self) -> int {
        (self.bits as int / FRACTION_RADIX as int) % (EXPONENT_RADIX as int)
    }

    /// The fraction field, `0 .. 2^23`.
    pub open spec fn fraction(self) -> int {
        self.bits as int % (FRACTION_RADIX as int)
    }

    /// Whether the sign bit is set.
    pub open spec fn is_negative(self) -> bool {
        self.bits >= SIGN_BIT
    }

    /// Whether the pattern is a NaN: it then stands for no number.
    pub open spec fn is_nan(self) -> bool {
        self.exponent() == EXPONENT_SPECIAL && self.fraction() != 0
    }

    /// The absolute value in units of 2^-149. An infinity counts as
    /// 2^277, which lies above every finite magnitude.
    pub open spec fn magnitude(self) -> nat {
        if self.exponent() == 0 {
            self.fraction() as nat
        } else {
            ((FRACTION_RADIX + self.fraction()) * pow2((self.exponent() - 1) as nat)) as nat
        }
    }

    /// The value in units of 2^-149.
    pub open spec fn scaled(self) -> int {
        if self.is_negative() {
            -(self.magnitude() as int)
        } else {
            self.magnitude() as int
        }
    }

    /// The value `1.0` in units of 2^-149.
    pub open spec fn unit() -> nat {
        pow2(149)
    }

    /// The level `0.0`.
    pub open spec fn zero() -> Level {
        Level { bits: ZERO_BITS }
    }

    /// The level `1.0`.
    pub open spec fn one() -> Level {
        Level { bits: ONE_BITS }
    }

    /// The level `0.5`, reported when there is no session to ask.
    pub open spec fn fallback() -> Level {
        Level { bits: HALF_BITS }
    }

    /// Whether the level is a number within `[0, 1]`.
    pub open spec fn in_range(self) -> bool {
        !self.is_nan() && 0 <= self.scaled() <= Self::unit()
    }

    /// The level brought into `[0, 1]`: a number below zero becomes `0.0`,
    /// a number above one becomes `1.0`, and every other pattern, a NaN
    /// included, stays as it is.
    pub open spec fn clamped(self) -> Level {
        if self.is_nan() {
            self
        } else if self.scaled() < 0 {
            Self::zero()
        } else if self.scaled() > Self::unit() {
            Self::one()
        } else {
            self
        }
    }

    /// The level with the given bit pattern.
    pub fn from_bits(bits: u32) -> (level: Level)
        ensures
            level.bits == bits,
    {
        Level { bits }
    }

    /// The bit pattern of the level.
    pub fn to_bits(self) -> (bits: u32)
        ensures
            bits == self.bits,
    {
        self.bits
    }

    /// The level reported when there is no session to ask: `0.5`.
    pub fn default_level() -> (level: Level)
        ensures
            level == Self::fallback(),
    {
        Level { bits: HALF_BITS }
    }

    /// Brings the level into `[0, 1]`.
    pub fn clamp(self) -> (level: Level)
        ensures
            level == self.clamped(),
    {
        let fraction: u32 = self.bits % FRACTION_RADIX;
        let exponent: u32 = (self.bits / FRACTION_RADIX) % EXPONENT_RADIX;
        proof {
            lemma_magnitude_against_unit(self);
        }
        if exponent == EXPONENT_SPECIAL && fraction != 0 {
            self
        } else if self.bits >= SIGN_BIT {
            if exponent == 0 && fraction == 0 {
                self
            } else {
                Level { bits: ZERO_BITS }
            }
        } else if exponent > EXPONENT_BIAS || (exponent == EXPONENT_BIAS && fraction != 0) {
            Level { bits: ONE_BITS }
        } else {
            self
        }
    }
}

/// Where a magnitude lies relative to `1.0`, read off the two fields: the
/// exponent decides, and at the exponent of `1.0` the fraction does.
pub proof fn lemma_magnitude_against_unit(level: Level)
    ensures
        0 <= level.exponent() <= 255,
        0 <= level.fraction() < FRACTION_RADIX,
        level.magnitude() == 0 <==> level.exponent() == 0 && level.fraction() == 0,
        level.exponent() < EXPONENT_BIAS ==> level.magnitude() < Level::unit(),
        level.exponent() == EXPONENT_BIAS ==> level.magnitude() >= Level::unit(),
        level.exponent() == EXPONENT_BIAS ==> (level.magnitude() == Level::unit() <==> level.fraction()
            == 0),
        level.exponent() > EXPONENT_BIAS ==> level.magnitude() > Level::unit(),
{
    let e = level.exponent();
    let m = level.fraction();
    lemma2_to64();
    lemma_pow2_adds(23, 126);
    if e >= 1 {
        let p = pow2((e - 1) as nat);
        lemma_pow2_pos((e - 1) as nat);
        lemma_pow2_adds(23, (e - 1) as nat);
        lemma_pow2_adds(24, (e - 1) as nat);
        assert((FRACTION_RADIX + m) * p >= FRACTION_RADIX * p) by (nonlinear_arith)
            requires
                m >= 0,
                p > 0,
        ;
        assert((FRACTION_RADIX + m) * p < 2 * FRACTION_RADIX * p) by (nonlinear_arith)
            requires
                m < FRACTION_RADIX,
                p > 0,
        ;
        assert(m > 0 ==> (FRACTION_RADIX + m) * p > FRACTION_RADIX * p) by (nonlinear_arith)
            requires
                p > 0,
        ;
        if e < EXPONENT_BIAS {
            if e + 23 < 149 {
                lemma_pow2_strictly_increases((e + 23) as nat, 149);
            }
        } else if e > EXPONENT_BIAS {
            if e + 22 > 150 {
                lemma_pow2_strictly_increases(150, (e + 22) as nat);
            }
            lemma_pow2_strictly_increases(149, 150);
        }
    } else {
        lemma_pow2_strictly_increases(23, 149);
    }
}

/// Clamping yields a number within `[0, 1]`, or the NaN it was given.
pub proof fn lemma_clamped_in_range(level: Level)
    ensures
        level.is_nan() ==> level.clamped() == level,
        !level.is_nan() ==> level.clamped().in_range(),
{
    lemma_magnitude_against_unit(level);
    lemma_magnitude_against_unit(Level::zero());
    lemma_magnitude_against_unit(Level::one());
}

/// A level within `[0, 1]` is left as it is.
pub proof fn lemma_clamp_keeps_range(level: Level)
    ensures
        level.in_range() ==> level.clamped() == level,
{
}

/// Clamping a second time changes nothing.
pub proof fn lemma_clamp_idempotent(level: Level)
    ensures
        level.clamped().clamped() == level.clamped(),
{
    lemma_clamped_in_range(level);
}

/// The level reported for want of a session is one half, and the bounds of
/// the range are zero and one.
pub proof fn lemma_named_levels()
    ensures
        Level::zero().in_range() && Level::zero().scaled() == 0,
        Level::one().in_range() && Level::one().scaled() == Level::unit(),
        Level::fallback().in_range() && 2 * Level::fallback().scaled() == Level::unit(),
{
    lemma_magnitude_against_unit(Level::zero());
    lemma_magnitude_against_unit(Level::one());
    lemma_magnitude_against_unit(Level::fallback());
    lemma2_to64();
    lemma_pow2_adds(23, 126);
    lemma_pow2_adds(23, 125);
    lemma_pow2_adds(1, 125);
    let h = pow2(125);
    assert(FRACTION_RADIX * (2 * h) == 2 * (FRACTION_RADIX * h)) by (nonlinear_arith);
}

} // verus!
