//! Similarity scores as fixed-point numbers.
//!
//! A score is a `u32` in millionths: `SCORE_ONE` stands for a perfect match.
//! The similarity search reports single-precision numbers; they enter the
//! crate as their IEEE 754 bit patterns and are read here, rounded to the
//! nearest millionth.

use vstd::arithmetic::power2::{
    lemma2_to64, lemma2_to64_rest, lemma_pow2_pos, lemma_pow2_strictly_increases,
    lemma_pow2_unfold, pow2,
};
use vstd::prelude::*;

verus! {

/// The score of a perfect match.
pub const SCORE_ONE: u32 = 1_000_000;

/// The bit pattern of the single-precision number one.
pub const FLOAT_ONE_BITS: u32 = 0x3F80_0000;

/// The least bit pattern with the sign bit set.
pub const FLOAT_SIGN_BIT: u32 = 0x8000_0000;

/// The exponent field of a single-precision bit pattern.
pub open spec fn float_exponent(bits: u32) -> int {
    (bits as int / 0x80_0000) % 0x100
}

/// The integer significand of a single-precision bit pattern: the fraction
/// field, with the implicit leading bit for a normal number.
pub open spec fn float_significand(bits: u32) -> int {
    if float_exponent(bits) == 0 {
        bits as int % 0x80_0000
    } else {
        0x80_0000 + bits as int % 0x80_0000
    }
}

/// The number of binary places of a single-precision bit pattern: a finite
/// pattern without sign stands for `float_significand / 2^float_places`.
pub open spec fn float_places(bits: u32) -> int {
    if float_exponent(bits) == 0 {
        149
    } else {
        150 - float_exponent(bits)
    }
}

/// The score that a single-precision bit pattern stands for: its value in
/// millionths, rounded to the nearest (a half goes up), and held to the
/// range from zero to one. A pattern with the sign bit gives zero; one, any
/// greater number and every pattern that is not a number give `SCORE_ONE`.
pub open spec fn score_of_bits(bits: u32) -> u32 {
    if bits >= FLOAT_SIGN_BIT {
        0
    } else if bits >= FLOAT_ONE_BITS {
        SCORE_ONE
    } else {
        let places = float_places(bits);
        ((float_significand(bits) * 1_000_000 + pow2((places - 1) as nat)) / (pow2(
            places as nat,
        ) as int)) as u32
    }
}

/// Below one, the significand is less than two to the number of places, and
/// there are at least 24 places.
pub proof fn lemma_float_below_one(bits: u32)
    requires
        bits < FLOAT_ONE_BITS,
    ensures
        0 <= float_exponent(bits) <= 126,
        float_exponent(bits) == bits as int / 0x80_0000,
        24 <= float_places(bits) <= 149,
        0 <= float_significand(bits) < 0x100_0000,
        float_significand(bits) < pow2(float_places(bits) as nat),
{
    lemma2_to64();
    if float_places(bits) > 24 {
        lemma_pow2_strictly_increases(24, float_places(bits) as nat);
    }
}

/// A score read from a bit pattern is at most `SCORE_ONE`.
pub proof fn lemma_score_of_bits_bound(bits: u32)
    ensures
        score_of_bits(bits) <= SCORE_ONE,
        FLOAT_SIGN_BIT > bits >= FLOAT_ONE_BITS ==> score_of_bits(bits) == SCORE_ONE,
{
    if bits < FLOAT_ONE_BITS {
        lemma_float_below_one(bits);
        let places = float_places(bits);
        let unit = pow2(places as nat) as int;
        let half = pow2((places - 1) as nat) as int;
        let sum = float_significand(bits) * 1_000_000 + half;
        lemma_pow2_unfold(places as nat);
        lemma_pow2_pos((places - 1) as nat);
        assert(unit == 2 * half);
        assert(sum < unit * 1_000_001) by (nonlinear_arith)
            requires
                sum == float_significand(bits) * 1_000_000 + half,
                0 <= float_significand(bits) < unit,
                unit == 2 * half,
                half > 0,
        ;
        assert(0 <= sum / unit <= 1_000_000) by (nonlinear_arith)
            requires
                0 <= sum < unit * 1_000_001,
                unit > 0,
        ;
    }
}

/// Reads a score from the bit pattern of a single-precision number.
pub fn score_from_bits(bits: u32) -> (score: u32)
    ensures
        score == score_of_bits(bits),
        score <= SCORE_ONE,
{
    proof {
        lemma_score_of_bits_bound(bits);
    }
    if bits >= FLOAT_SIGN_BIT {
        return 0;
    }
    if bits >= FLOAT_ONE_BITS {
        return SCORE_ONE;
    }
    proof {
        lemma_float_below_one(bits);
    }
    let exponent: u32 = bits / 0x80_0000;
    let fraction: u32 = bits % 0x80_0000;
    let significand: u64 = if exponent == 0 {
        fraction as u64
    } else {
        0x80_0000u64 + fraction as u64
    };
    let places: u32 = if exponent == 0 {
        149
    } else {
        150 - exponent
    };
    let scaled: u64 = significand * 1_000_000;
    if places >= 46 {
        proof {
            let unit = pow2(places as nat) as int;
            let half = pow2((places - 1) as nat) as int;
            lemma2_to64_rest();
            lemma_pow2_unfold(places as nat);
            if places > 46 {
                lemma_pow2_strictly_increases(45, (places - 1) as nat);
            }
            assert(scaled < 0x2000_0000_0000);
            assert((scaled + half) / unit == 0) by (nonlinear_arith)
                requires
                    0 <= scaled < half,
                    unit == 2 * half,
            ;
        }
        return 0;
    }
    proof {
        lemma2_to64();
        lemma2_to64_rest();
        vstd::bits::lemma_u64_shl_is_mul(1, places as u64);
        vstd::bits::lemma_u64_shl_is_mul(1, (places - 1) as u64);
        if places < 45 {
            lemma_pow2_strictly_increases(places as nat, 45);
        }
        lemma_pow2_strictly_increases((places - 1) as nat, places as nat);
    }
    let unit: u64 = 1u64 << places;
    let half: u64 = 1u64 << (places - 1);
    ((scaled + half) / unit) as u32
}

} // verus!
