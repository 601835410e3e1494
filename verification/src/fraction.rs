//! Binary64 numbers by their bit patterns.
//!
//! A sample fraction is held as the 64 bits of an IEEE 754 binary64
//! number: one sign bit, eleven exponent bits, fifty-two fraction bits.
//! Whether the number lies in `[0, 1]` is decided on the bits alone, with
//! one comparison for the numbers without a sign and one for -0.0. This
//! module states what the bits denote and proves that the two comparisons
//! decide the right thing.

use vstd::arithmetic::power2::{lemma2_to64, lemma2_to64_rest, lemma_pow2_strictly_increases, pow2};
use vstd::prelude::*;

verus! {

/// The bit pattern of the number 1.0.
pub const ONE_BITS: u64 = 0x3FF0_0000_0000_0000;

/// The bit pattern of the number -0.0.
pub const NEGATIVE_ZERO_BITS: u64 = 0x8000_0000_0000_0000;

/// Two to the power 52, the weight of the lowest exponent bit.
pub const FRACTION_RANGE: u64 = 0x10_0000_0000_0000;

/// Whether the sign bit is set.
pub open spec fn sign_of(bits: u64) -> bool {
    bits >= 0x8000_0000_0000_0000
}

/// The exponent field, from 0 to 2047.
pub open spec fn exponent_of(bits: u64) -> nat {
    ((bits / FRACTION_RANGE) % 0x800) as nat
}

/// The fraction field, below two to the power 52.
pub open spec fn fraction_of(bits: u64) -> nat {
    (bits % FRACTION_RANGE) as nat
}

/// Whether the pattern denotes a number, finite and not a NaN.
pub open spec fn is_number(bits: u64) -> bool {
    exponent_of(bits) != 2047
}

/// The significand of a number: the fraction field, with the implicit
/// leading bit before it unless the exponent field is zero.
pub open spec fn significand(bits: u64) -> nat {
    if exponent_of(bits) == 0 {
        fraction_of(bits)
    } else {
        FRACTION_RANGE as nat + fraction_of(bits)
    }
}

/// The magnitude of a number is its significand divided by two to this
/// power (multiplied, where the power is negative).
pub open spec fn shift(bits: u64) -> int {
    if exponent_of(bits) == 0 {
        1074
    } else {
        1075 - exponent_of(bits)
    }
}

/// Whether the magnitude of a number is at most 1: the significand is
/// divided, and by no less than itself.
pub open spec fn magnitude_at_most_one(bits: u64) -> bool {
    shift(bits) >= 0 && significand(bits) <= pow2(shift(bits) as nat)
}

/// Whether a pattern denotes a number `x` with `0 <= x <= 1`: a number of
/// magnitude at most 1 that is zero or has no sign.
pub open spec fn denotes_unit_fraction(bits: u64) -> bool {
    is_number(bits) && magnitude_at_most_one(bits) && (significand(bits) == 0 || !sign_of(bits))
}

/// Whether a pattern is at most that of 1.0, or is that of -0.0.
pub open spec fn is_unit_fraction(bits: u64) -> bool {
    bits <= ONE_BITS || bits == NEGATIVE_ZERO_BITS
}

/// The two comparisons of [`is_unit_fraction`] hold exactly of the
/// patterns that denote a number in `[0, 1]`.
pub proof fn lemma_unit_fraction(bits: u64)
    ensures
        is_unit_fraction(bits) <==> denotes_unit_fraction(bits),
{
    lemma2_to64();
    lemma2_to64_rest();
    let e = exponent_of(bits);
    let m = fraction_of(bits);
    let s: int = if sign_of(bits) {
        1
    } else {
        0
    };
    assert(pow2(52) == FRACTION_RANGE);
    assert(pow2(53) == 2 * FRACTION_RANGE);
    assert(pow2(51) * 2 == FRACTION_RANGE);
    assert(bits == s * 0x8000_0000_0000_0000 + e * FRACTION_RANGE + m && e < 2048 && m
        < FRACTION_RANGE) by {
        let q = bits / FRACTION_RANGE;
        assert(bits == q * FRACTION_RANGE + m);
        assert(q < 4096);
        assert(q == (q / 0x800) * 0x800 + e);
        assert(q / 0x800 == s);
    }
    if e == 0 {
        assert(pow2(52) < pow2(1074)) by {
            lemma_pow2_strictly_increases(52, 1074);
        }
    } else if e <= 1022 {
        let k = (1075 - e) as nat;
        assert(pow2(53) <= pow2(k)) by {
            if k > 53 {
                lemma_pow2_strictly_increases(53, k);
            }
        }
    } else if e == 1023 {
    } else if e <= 1075 {
        let k = (1075 - e) as nat;
        assert(pow2(k) <= pow2(51)) by {
            if k < 51 {
                lemma_pow2_strictly_increases(k, 51);
            }
        }
    }
    if e >= 1 && e <= 1022 && s == 0 {
        assert(e * FRACTION_RANGE + m < (e + 1) * FRACTION_RANGE);
        assert((e + 1) * FRACTION_RANGE <= 1023 * FRACTION_RANGE);
    }
    if e >= 1024 {
        assert(e * FRACTION_RANGE >= 1024 * FRACTION_RANGE);
    }
}

/// Tests [`is_unit_fraction`], and so whether the number denoted lies in
/// `[0, 1]`.
pub fn unit_fraction(bits: u64) -> (r: bool)
    ensures
        r == is_unit_fraction(bits),
        r == denotes_unit_fraction(bits),
{
    proof {
        lemma_unit_fraction(bits);
    }
    bits <= ONE_BITS || bits == NEGATIVE_ZERO_BITS
}

} // verus!
