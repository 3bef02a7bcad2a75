//! Speeds and positions: binary64 numbers, held as their bit patterns.
use vstd::prelude::*;
use vstd::arithmetic::power2::pow2;
use vstd::arithmetic::power2::lemma_pow2_pos;
use vstd::arithmetic::power2::lemma_pow2_adds;
use vstd::arithmetic::power2::lemma_pow2_strictly_increases;
use vstd::arithmetic::power2::lemma2_to64;
use vstd::arithmetic::power2::lemma2_to64_rest;
use vstd::arithmetic::div_mod::lemma_div_by_multiple;
use vstd::arithmetic::div_mod::lemma_div_denominator;
use vstd::arithmetic::div_mod::lemma_div_is_ordered;
use vstd::bits::lemma_u64_shr_is_div;

verus! {

/// Bit patterns from here on carry a minus sign.
pub const SIGN_BIT: u64 = 0x8000_0000_0000_0000;

/// The weight of the lowest exponent bit in a bit pattern.
pub const EXPONENT_UNIT: u64 = 0x0010_0000_0000_0000;

/// The bit pattern of plus infinity; larger patterns below `SIGN_BIT` are not numbers.
pub const INFINITY_BITS: u64 = 0x7FF0_0000_0000_0000;

/// The bit pattern of one.
pub const ONE_BITS: u64 = 0x3FF0_0000_0000_0000;

/// The exponent field of one.
pub const ONE_EXPONENT: u64 = 1023;

/// The magnitude of a bit pattern without its sign, as a multiple of the smallest positive
/// number, 2^-1074. Infinity counts as the power of two that comes after the largest finite
/// number, so that magnitudes order as the numbers do.
pub open spec fn magnitude(pattern: int) -> int {
    let exponent = pattern / (EXPONENT_UNIT as int);
    let fraction = pattern % (EXPONENT_UNIT as int);
    if exponent == 0 {
        fraction
    } else {
        (fraction + EXPONENT_UNIT) * pow2((exponent - 1) as nat)
    }
}

/// The number one as a multiple of 2^-1074.
pub open spec fn scaled_one() -> int {
    pow2(1074) as int
}

/// A magnitude is never below zero, and only the pattern zero has the magnitude zero.
proof fn lemma_magnitude_not_negative(pattern: int)
    requires
        0 <= pattern,
    ensures
        0 <= magnitude(pattern),
        magnitude(pattern) == 0 <==> pattern == 0,
{
    let exponent = pattern / (EXPONENT_UNIT as int);
    let fraction = pattern % (EXPONENT_UNIT as int);
    if exponent != 0 {
        lemma_pow2_pos((exponent - 1) as nat);
        assert((fraction + EXPONENT_UNIT) * pow2((exponent - 1) as nat) > 0) by (nonlinear_arith)
            requires
                fraction + EXPONENT_UNIT > 0,
                pow2((exponent - 1) as nat) > 0,
        ;
    }
}

/// The pattern `ONE_BITS` stands for the number one.
pub proof fn lemma_one()
    ensures
        magnitude(ONE_BITS as int) == scaled_one(),
{
    lemma2_to64_rest();
    lemma_pow2_adds(52, 1022);
}

/// Larger patterns stand for larger magnitudes.
pub proof fn lemma_magnitude_increases(low: int, high: int)
    requires
        0 <= low < high,
    ensures
        magnitude(low) < magnitude(high),
{
    let unit = EXPONENT_UNIT as int;
    let (e1, f1) = (low / unit, low % unit);
    let (e2, f2) = (high / unit, high % unit);
    lemma2_to64_rest();
    if e1 == e2 {
        if e1 > 0 {
            let p = pow2((e1 - 1) as nat) as int;
            lemma_pow2_pos((e1 - 1) as nat);
            assert((f1 + unit) * p < (f2 + unit) * p) by (nonlinear_arith)
                requires
                    f1 < f2,
                    p > 0,
            ;
        }
    } else {
        let p2 = pow2((e2 - 1) as nat) as int;
        lemma_pow2_pos((e2 - 1) as nat);
        assert(unit * p2 <= (f2 + unit) * p2) by (nonlinear_arith)
            requires
                f2 >= 0,
                p2 > 0,
        ;
        if e1 == 0 {
            assert(unit <= unit * p2) by (nonlinear_arith)
                requires
                    unit >= 0,
                    p2 >= 1,
            ;
        } else {
            let p1 = pow2((e1 - 1) as nat) as int;
            lemma_pow2_pos((e1 - 1) as nat);
            lemma_pow2_adds(1, (e1 - 1) as nat);
            lemma2_to64();
            if e1 < e2 - 1 {
                lemma_pow2_strictly_increases(e1 as nat, (e2 - 1) as nat);
            }
            assert(2 * p1 <= p2);
            assert((f1 + unit) * p1 < unit * p2) by (nonlinear_arith)
                requires
                    f1 < unit,
                    unit > 0,
                    p1 > 0,
                    2 * p1 <= p2,
            ;
        }
    }
}

/// The whole part of a number from one to 2^53, read off its significand.
proof fn lemma_whole_part(pattern: int)
    requires
        ONE_EXPONENT <= pattern / (EXPONENT_UNIT as int) <= ONE_EXPONENT + 52,
    ensures
        magnitude(pattern) / scaled_one() == (pattern % (EXPONENT_UNIT as int) + EXPONENT_UNIT) / (
        pow2((ONE_EXPONENT + 52 - pattern / (EXPONENT_UNIT as int)) as nat) as int),
{
    let exponent = pattern / (EXPONENT_UNIT as int);
    let significand = pattern % (EXPONENT_UNIT as int) + EXPONENT_UNIT;
    let low = pow2((exponent - 1) as nat) as int;
    let high = pow2((ONE_EXPONENT + 52 - exponent) as nat) as int;
    lemma_pow2_pos((exponent - 1) as nat);
    lemma_pow2_pos((ONE_EXPONENT + 52 - exponent) as nat);
    lemma_pow2_adds((exponent - 1) as nat, (ONE_EXPONENT + 52 - exponent) as nat);
    lemma_div_denominator(significand * low, low, high);
    lemma_div_by_multiple(significand, low);
}

/// A number from 2^k on has a whole part of at least 2^k.
proof fn lemma_whole_at_least(pattern: int, k: nat)
    requires
        ONE_EXPONENT + k <= pattern / (EXPONENT_UNIT as int),
    ensures
        magnitude(pattern) / scaled_one() >= pow2(k),
{
    let exponent = pattern / (EXPONENT_UNIT as int);
    let significand = pattern % (EXPONENT_UNIT as int) + EXPONENT_UNIT;
    let p = pow2((exponent - 1) as nat) as int;
    lemma2_to64_rest();
    lemma_pow2_pos((exponent - 1) as nat);
    lemma_pow2_pos(1074);
    lemma_pow2_adds(52, (exponent - 1) as nat);
    assert(significand * p >= EXPONENT_UNIT * p) by (nonlinear_arith)
        requires
            significand >= EXPONENT_UNIT,
            p > 0,
    ;
    lemma_pow2_adds(k, 1074);
    if k + 1074 < exponent + 51 {
        lemma_pow2_strictly_increases(k + 1074, (exponent + 51) as nat);
    }
    assert(magnitude(pattern) >= pow2(k) * scaled_one());
    lemma_div_is_ordered(pow2(k) * scaled_one(), magnitude(pattern), scaled_one());
    lemma_div_by_multiple(pow2(k) as int, scaled_one());
}

/// A speed or a position: a binary64 number, given by its bit pattern.
#[derive(Clone, Copy, Debug, PartialEq, Eq, Structural)]
pub struct Level {
    pub bits: u64,
}

impl Level {
    /// Whether the sign is minus.
    pub open spec fn negative(self) -> bool {
        self.bits >= SIGN_BIT
    }

    /// The bit pattern without the sign.
    pub open spec fn unsigned_pattern(self) -> int {
        if self.negative() {
            self.bits - SIGN_BIT
        } else {
            self.bits as int
        }
    }

    /// Whether this is not a number: the exponent field is full and the fraction is not zero.
    pub open spec fn is_nan(self) -> bool {
        self.unsigned_pattern() / (EXPONENT_UNIT as int) == 0x7FF
            && self.unsigned_pattern() % (EXPONENT_UNIT as int) != 0
    }

    /// The number, as a multiple of 2^-1074. Without meaning where `is_nan`.
    pub open spec fn scaled(self) -> int {
        if self.negative() {
            -magnitude(self.unsigned_pattern())
        } else {
            magnitude(self.unsigned_pattern())
        }
    }

    /// The smaller of the number and one; one, where this is not a number.
    pub open spec fn capped(self) -> Level {
        if self.is_nan() || self.scaled() > scaled_one() {
            Level { bits: ONE_BITS }
        } else {
            self
        }
    }

    /// The number without its fractional part, brought into the range from 0 to `last`;
    /// `last`, where this is not a number.
    pub open spec fn whole_within(self, last: int) -> int {
        if self.is_nan() {
            last
        } else if self.scaled() <= 0 {
            0
        } else if self.scaled() / scaled_one() < last {
            self.scaled() / scaled_one()
        } else {
            last
        }
    }

    /// The level zero.
    pub fn zero() -> (level: Level)
        ensures
            level == (Level { bits: 0 }),
            !level.is_nan(),
            level.scaled() == 0,
    {
        Level { bits: 0 }
    }

    /// The smaller of this level and one. A level that is not a number becomes one.
    pub fn at_most_one(self) -> (level: Level)
        ensures
            level == self.capped(),
    {
        proof {
            lemma_one();
            if self.unsigned_pattern() > ONE_BITS {
                lemma_magnitude_increases(ONE_BITS as int, self.unsigned_pattern());
            } else if self.unsigned_pattern() < ONE_BITS {
                lemma_magnitude_increases(self.unsigned_pattern(), ONE_BITS as int);
            }
            lemma_magnitude_not_negative(self.unsigned_pattern());
            lemma_pow2_pos(1074);
        }
        if self.bits < SIGN_BIT {
            if self.bits > ONE_BITS {
                Level { bits: ONE_BITS }
            } else {
                self
            }
        } else if self.bits - SIGN_BIT > INFINITY_BITS {
            Level { bits: ONE_BITS }
        } else {
            self
        }
    }

    /// The smaller of this level and `last`, as an integer: the fractional part is dropped,
    /// and what lies below zero becomes zero. A level that is not a number becomes `last`.
    pub fn index_up_to(self, last: u32) -> (index: u32)
        ensures
            index == self.whole_within(last as int),
            index <= last,
    {
        proof {
            lemma_magnitude_not_negative(self.unsigned_pattern());
        }
        if self.bits >= SIGN_BIT {
            return if self.bits - SIGN_BIT > INFINITY_BITS { last } else { 0 };
        }
        if self.bits > INFINITY_BITS {
            return last;
        }
        let exponent: u64 = self.bits / EXPONENT_UNIT;
        let significand: u64 = self.bits % EXPONENT_UNIT + EXPONENT_UNIT;
        if exponent < ONE_EXPONENT {
            proof {
                lemma_one();
                lemma_magnitude_increases(self.bits as int, ONE_BITS as int);
                assert(self.scaled() / scaled_one() == 0) by (nonlinear_arith)
                    requires
                        0 <= self.scaled() < scaled_one(),
                ;
            }
            0
        } else if exponent >= ONE_EXPONENT + 32 {
            proof {
                lemma_whole_at_least(self.bits as int, 32);
                lemma2_to64();
            }
            last
        } else {
            let shift: u64 = 52 + ONE_EXPONENT - exponent;
            proof {
                lemma_whole_part(self.bits as int);
                lemma_u64_shr_is_div(significand, shift);
            }
            let whole: u64 = significand >> shift;
            if whole < last as u64 {
                whole as u32
            } else {
                last
            }
        }
    }
}

} // verus!
