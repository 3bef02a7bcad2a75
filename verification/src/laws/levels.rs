//! What levels are, and what capping and truncation make of them.
use vstd::prelude::*;
use crate::level::{Level, EXPONENT_UNIT, INFINITY_BITS, ONE_BITS, SIGN_BIT};

verus! {

/// The pattern zero stands for zero.
pub proof fn law_zero_pattern()
    ensures
        crate::level::magnitude(0) == 0,
        (Level { bits: 0 }).scaled() == 0,
        !(Level { bits: 0 }).is_nan(),
{
}

/// From one pattern to the next the magnitude grows by one unit in the last place: by 2^-1074
/// below the second exponent, and by twice as much with each exponent from there on.
pub proof fn law_patterns_are_evenly_spaced(pattern: int)
    requires
        0 <= pattern,
    ensures
        crate::level::magnitude(pattern + 1) - crate::level::magnitude(pattern) == (if pattern
            < EXPONENT_UNIT {
            1
        } else {
            vstd::arithmetic::power2::pow2((pattern / (EXPONENT_UNIT as int) - 1) as nat) as int
        }),
{
    let unit = EXPONENT_UNIT as int;
    let (e, f) = (pattern / unit, pattern % unit);
    vstd::arithmetic::power2::lemma2_to64();
    if f + 1 < unit {
        assert((pattern + 1) / unit == e && (pattern + 1) % unit == f + 1);
        if e > 0 {
            let p = vstd::arithmetic::power2::pow2((e - 1) as nat) as int;
            assert((f + 1 + unit) * p - (f + unit) * p == p) by (nonlinear_arith);
        }
    } else {
        assert((pattern + 1) / unit == e + 1 && (pattern + 1) % unit == 0);
        if e == 0 {
            assert(vstd::arithmetic::power2::pow2(0) == 1);
        } else {
            let p = vstd::arithmetic::power2::pow2((e - 1) as nat) as int;
            vstd::arithmetic::power2::lemma_pow2_adds(1, (e - 1) as nat);
            assert(unit * (2 * p) - (f + unit) * p == p) by (nonlinear_arith)
                requires
                    f + 1 == unit,
            ;
        }
    }
}

/// A level is not a number just where its pattern lies beyond infinity, whatever its sign.
pub proof fn law_numbers_end_at_infinity(level: Level)
    ensures
        level.is_nan() <==> (INFINITY_BITS < level.bits < SIGN_BIT || level.bits > SIGN_BIT
            + INFINITY_BITS),
{
}

/// The sign bit turns a number into its opposite.
pub proof fn law_sign_bit_negates(plus: Level, minus: Level)
    requires
        plus.bits < SIGN_BIT,
        minus.bits == plus.bits + SIGN_BIT,
    ensures
        minus.scaled() == -plus.scaled(),
        minus.is_nan() == plus.is_nan(),
{
}

/// The capped level is the smaller of a level and one: it is one of the two, above neither, and
/// one where the level is not a number.
pub proof fn law_capped_is_the_smaller(level: Level)
    ensures
        level.is_nan() ==> level.capped().bits == ONE_BITS,
        !level.is_nan() ==> {
            &&& level.capped().scaled() <= level.scaled()
            &&& level.capped().scaled() <= crate::level::scaled_one()
            &&& level.capped() == level || (level.capped().bits == ONE_BITS && level.scaled()
                > crate::level::scaled_one())
        },
{
    crate::level::lemma_one();
}

/// The index that a level stands for is the largest whole number that is neither above the level
/// nor above the last index; it is zero below zero, and the last index where the level is not a
/// number.
pub proof fn law_index_is_the_largest_that_fits(level: Level, last: int)
    requires
        0 <= last,
    ensures
        0 <= level.whole_within(last) <= last,
        level.is_nan() ==> level.whole_within(last) == last,
        !level.is_nan() && level.scaled() <= 0 ==> level.whole_within(last) == 0,
        !level.is_nan() && level.scaled() > 0 ==> {
            &&& level.whole_within(last) * crate::level::scaled_one() <= level.scaled()
            &&& level.whole_within(last) < last ==> level.scaled() < (level.whole_within(last) + 1)
                * crate::level::scaled_one()
        },
{
    vstd::arithmetic::power2::lemma_pow2_pos(1074);
    if !level.is_nan() && level.scaled() > 0 {
        let (x, one) = (level.scaled(), crate::level::scaled_one());
        let k = level.whole_within(last);
        vstd::arithmetic::div_mod::lemma_fundamental_div_mod(x, one);
        vstd::arithmetic::div_mod::lemma_mod_bound(x, one);
        vstd::arithmetic::div_mod::lemma_div_pos_is_pos(x, one);
        let q = x / one;
        assert(q * one <= x < (q + 1) * one) by (nonlinear_arith)
            requires
                x == one * q + x % one,
                0 <= x % one < one,
        ;
        assert(k * one <= q * one) by (nonlinear_arith)
            requires
                k <= q,
                one > 0,
        ;
    }
}

} // verus!
