use vstd::arithmetic::power2::{
    lemma2_to64, lemma2_to64_rest, lemma_pow2_adds, lemma_pow2_pos, lemma_pow2_strictly_increases,
    pow2,
};
use vstd::prelude::*;

verus! {

/// The bits of one half as a binary64 number: sign 0, exponent 1022, fraction 0.
pub const HALF_BITS: u64 = 0x3fe0_0000_0000_0000;

/// The bits of positive infinity as a binary64 number: sign 0, exponent 2047, fraction 0.
pub const INFINITY_BITS: u64 = 0x7ff0_0000_0000_0000;

/// Whether the sign bit of a binary64 number is set.
pub open spec fn spec_negative(bits: u64) -> bool {
    bits >> 63 == 1
}

/// The biased exponent of a binary64 number, `0..=2047`.
pub open spec fn spec_exponent(bits: u64) -> u64 {
    (bits >> 52) & 0x7ff
}

/// The fraction field of a binary64 number, below 2^52.
pub open spec fn spec_fraction(bits: u64) -> u64 {
    bits & 0x000f_ffff_ffff_ffff
}

/// Whether the bits are those of a NaN: all exponent bits set, fraction not zero.
pub open spec fn spec_is_nan(bits: u64) -> bool {
    spec_exponent(bits) == 2047 && spec_fraction(bits) != 0
}

/// Whether the binary64 number with these bits is greater than one half.
///
/// No negative number and no NaN is. A number that is neither is
/// `(1 + fraction / 2^52) * 2^(exponent - 1023)` where the exponent is at
/// least 1, which passes one half from exponent 1023 on, and at exponent 1022
/// where the fraction is not zero; with exponent 0 it is below `2^-1022`.
/// Positive infinity is greater than every number.
pub open spec fn spec_exceeds_half(bits: u64) -> bool {
    &&& !spec_negative(bits)
    &&& !spec_is_nan(bits)
    &&& (spec_exponent(bits) > 1022 || (spec_exponent(bits) == 1022 && spec_fraction(bits) != 0))
}

/// Whether a draw, given by the bits of a binary64 number, turns a cell on:
/// it does where the number is greater than one half.
pub fn exceeds_half(bits: u64) -> (on: bool)
    ensures
        on == spec_exceeds_half(bits),
{
    assert((HALF_BITS < bits && bits <= INFINITY_BITS) == (!(bits >> 63 == 1) && !(((bits >> 52)
        & 0x7ff) == 2047 && (bits & 0x000f_ffff_ffff_ffff) != 0) && (((bits >> 52) & 0x7ff) > 1022
        || (((bits >> 52) & 0x7ff) == 1022 && (bits & 0x000f_ffff_ffff_ffff) != 0)))) by (bit_vector)
        requires
            HALF_BITS == 0x3fe0_0000_0000_0000u64,
            INFINITY_BITS == 0x7ff0_0000_0000_0000u64,
    ;
    HALF_BITS < bits && bits <= INFINITY_BITS
}

/// Whether the bits are those of a number: neither a NaN nor an infinity.
pub open spec fn spec_is_finite(bits: u64) -> bool {
    spec_exponent(bits) != 2047
}

/// The significand of a finite binary64 number, in units of `2^-52`: the
/// fraction field, with the leading one unless the exponent is zero.
pub open spec fn spec_significand(bits: u64) -> nat {
    if spec_exponent(bits) == 0 {
        spec_fraction(bits) as nat
    } else {
        (0x10_0000_0000_0000 + spec_fraction(bits)) as nat
    }
}

/// The power of two, less 1075, by which the significand of a finite binary64
/// number is scaled: the exponent, read as one where it is zero.
pub open spec fn spec_scale(bits: u64) -> nat {
    if spec_exponent(bits) == 0 {
        1
    } else {
        spec_exponent(bits) as nat
    }
}

/// The finite binary64 number with these bits:
/// `(-1)^sign * significand * 2^scale / 2^1075`.
pub open spec fn spec_value(bits: u64) -> real
    recommends
        spec_is_finite(bits),
{
    let magnitude = (spec_significand(bits) * pow2(spec_scale(bits))) as real / (pow2(1075) as real);
    if spec_negative(bits) {
        0real - magnitude
    } else {
        magnitude
    }
}

/// For a finite number not below zero, twice its significand at its scale
/// passes `2^1075` exactly where the exponent and fraction fields say that it
/// is greater than one half.
proof fn lemma_half_in_units(bits: u64)
    requires
        spec_is_finite(bits),
        !spec_negative(bits),
    ensures
        spec_exceeds_half(bits) <==> 2 * (spec_significand(bits) * pow2(spec_scale(bits))) > pow2(
            1075,
        ),
{
    let e = spec_exponent(bits);
    let f = spec_fraction(bits);
    let m = spec_significand(bits);
    let k = spec_scale(bits);
    assert(e <= 2047 && f < 0x10_0000_0000_0000) by (bit_vector)
        requires
            e == (bits >> 52) & 0x7ff,
            f == bits & 0x000f_ffff_ffff_ffff,
    ;
    lemma2_to64();
    lemma2_to64_rest();
    lemma_pow2_pos(k);
    lemma_pow2_pos(1021);
    lemma_pow2_pos(1022);
    lemma_pow2_adds(1, 1074);
    lemma_pow2_adds(52, 1022);
    lemma_pow2_adds(53, 1021);
    assert(pow2(1) == 2);
    assert(pow2(52) == 0x10_0000_0000_0000);
    assert(pow2(53) == 0x20_0000_0000_0000);
    let half = pow2(1074);
    assert(pow2(1075) == 2 * half);
    if k < 1022 {
        if k < 1021 {
            lemma_pow2_strictly_increases(k, 1021);
        }
        assert(m * pow2(k) < half) by (nonlinear_arith)
            requires
                0 <= m < pow2(53),
                0 < pow2(k) <= pow2(1021),
                half == pow2(53) * pow2(1021),
        ;
    } else if k == 1022 {
        assert((m * pow2(1022) > half) <==> f != 0) by (nonlinear_arith)
            requires
                half == pow2(52) * pow2(1022),
                m == pow2(52) + f,
                f >= 0,
                pow2(1022) > 0,
        ;
    } else {
        if k > 1023 {
            lemma_pow2_strictly_increases(1023, k);
        }
        lemma_pow2_strictly_increases(1022, 1023);
        assert(m * pow2(k) > half) by (nonlinear_arith)
            requires
                m >= pow2(52),
                pow2(k) >= pow2(1023),
                pow2(1023) > pow2(1022),
                half == pow2(52) * pow2(1022),
                pow2(52) > 0,
                pow2(1022) > 0,
        ;
    }
}

/// A finite draw turns a cell on exactly where the number that its bits stand
/// for is greater than one half.
pub proof fn law_exceeds_half_of_value(bits: u64)
    requires
        spec_is_finite(bits),
    ensures
        spec_exceeds_half(bits) <==> spec_value(bits) > 1real / 2real,
{
    let units = spec_significand(bits) * pow2(spec_scale(bits));
    let whole = pow2(1075);
    lemma_pow2_pos(1075);
    let ur = units as real;
    let wr = whole as real;
    if spec_negative(bits) {
        assert(0real - ur / wr <= 0real) by (nonlinear_arith)
            requires
                ur >= 0real,
                wr > 0real,
        ;
    } else {
        lemma_half_in_units(bits);
        assert((2 * units > whole) <==> (ur / wr > 1real / 2real)) by (nonlinear_arith)
            requires
                ur == units as real,
                wr == whole as real,
                wr > 0real,
        ;
    }
}

/// Positive infinity turns a cell on; negative infinity and every NaN leave it off.
pub proof fn law_exceeds_half_not_finite(bits: u64)
    requires
        !spec_is_finite(bits),
    ensures
        spec_exceeds_half(bits) <==> bits == INFINITY_BITS,
{
    assert((((bits >> 52) & 0x7ff) == 2047) ==> ((!(bits >> 63 == 1) && (bits
        & 0x000f_ffff_ffff_ffff) == 0) <==> bits == 0x7ff0_0000_0000_0000u64)) by (bit_vector);
}

} // verus!
