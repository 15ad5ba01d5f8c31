//! Lossless widening of single-precision bit patterns to double precision.
//!
//! Every single-precision value is exactly representable in double
//! precision, so the conversion is a pure re-encoding of the bit pattern:
//! no rounding, no black-box arithmetic. In particular it can never turn a
//! non-NaN pattern into a NaN pattern, which is what lets a strict
//! [`crate::NotNan`] value widen without re-validation.

use vstd::prelude::*;

verus! {

use crate::bits32;
use crate::bits64;
use vstd::arithmetic::power2::lemma2_to64;
use vstd::arithmetic::power2::lemma_pow2_adds;
use vstd::arithmetic::power2::lemma_pow2_pos;
use vstd::arithmetic::power2::lemma_pow2_strictly_increases;
use vstd::arithmetic::power2::pow2;

/// The magnitude bits of the double-precision encoding of a single-precision
/// subnormal value.
///
/// A subnormal fraction `f` stands for the value `f * 2^-149`, which is a
/// *normal* double-precision value. Doubling the fraction while lowering
/// the exponent by one step leaves the encoded value unchanged; once the
/// leading bit of the fraction has reached the top fraction position
/// (`f >= 2^22`), the double-precision exponent field is `896 = 874 + 22`
/// and the bits below the leading bit fill the fraction field from the top.
pub open spec fn spec_widen_mag_subnormal(f: u32) -> int
    recommends
        0 < f < 0x0080_0000,
    decreases 0x0080_0000 - f,
{
    if f >= 0x0040_0000 {
        896 * 0x0010_0000_0000_0000 + (f - 0x0040_0000) * 0x4000_0000
    } else if f == 0 {
        0
    } else {
        spec_widen_mag_subnormal((2 * f) as u32) - 0x0010_0000_0000_0000
    }
}

/// The double-precision bit pattern that encodes the same value as a given
/// single-precision bit pattern.
///
/// The sign bit is carried over. An all-ones exponent (infinity or NaN)
/// stays all ones, with the fraction moved to the top of the wider fraction
/// field. A normal value keeps its fraction bits and has its exponent
/// re-biased from 127 to 1023 (an offset of 896). A subnormal value is
/// normalized into an ordinary double-precision value.
pub open spec fn spec_widen(b: u32) -> u64 {
    let sign: u64 = if bits32::spec_is_sign_negative(b) {
        bits64::SIGN_MASK
    } else {
        0
    };
    let e: u32 = (b >> 23) & 0xff;
    let f: u32 = b & bits32::FRAC_MASK;
    if e == 0xff {
        sign | bits64::EXP_MASK | ((f as u64) << 29)
    } else if e == 0 {
        if f == 0 {
            sign
        } else {
            (sign + spec_widen_mag_subnormal(f)) as u64
        }
    } else {
        sign | (((e + 896) as u64) << 52) | ((f as u64) << 29)
    }
}

/// The widened magnitude of a subnormal fraction carries an exponent field
/// between 874 and 896, so it stays well below the all-ones exponent. The
/// parameter `j` is a lower bound on the position of the fraction's leading
/// bit.
proof fn lemma_widen_mag_subnormal_bounds(f: u32, j: nat)
    requires
        pow2(j) <= f < 0x0080_0000,
    ensures
        (874 + j) * 0x0010_0000_0000_0000 <= spec_widen_mag_subnormal(f) < 897
            * 0x0010_0000_0000_0000,
    decreases 0x0080_0000 - f,
{
    lemma2_to64();
    if f >= 0x0040_0000 {
        if j >= 23 {
            if j > 23 {
                lemma_pow2_strictly_increases(23, j);
            }
            assert(false);
        }
    } else {
        lemma_pow2_pos(j);
        lemma_pow2_adds(j, 1);
        lemma_widen_mag_subnormal_bounds((2 * f) as u32, j + 1);
    }
}

/// Lowering the exponent field of a normal magnitude by one halves its
/// encoded value, as long as the field stays at least one.
proof fn lemma_mag_value_halves(m: u64)
    requires
        0x0020_0000_0000_0000 <= m < 0x8000_0000_0000_0000,
    ensures
        2 * bits64::spec_mag_value((m - 0x0010_0000_0000_0000) as u64) == bits64::spec_mag_value(
            m,
        ),
{
    let c = 0x0010_0000_0000_0000int;
    let e = m as int / c;
    let f = m as int % c;
    vstd::arithmetic::div_mod::lemma_fundamental_div_mod(m as int, c);
    vstd::arithmetic::div_mod::lemma_mod_bound(m as int, c);
    assert(e >= 2) by (nonlinear_arith)
        requires
            m as int == c * e + f,
            0 <= f < c,
            m as int >= 2 * c,
            c >= 1,
    ;
    let m2 = (m - 0x0010_0000_0000_0000) as u64;
    vstd::arithmetic::div_mod::lemma_fundamental_div_mod_converse(m2 as int, c, e - 1, f);
    lemma_pow2_adds((e - 2) as nat, 1);
    lemma2_to64();
    assert((c + f) * pow2((e - 1) as nat) == 2 * ((c + f) * pow2((e - 2) as nat)))
        by (nonlinear_arith)
        requires
            pow2((e - 1) as nat) == pow2((e - 2) as nat) * pow2(1),
            pow2(1) == 2,
    ;
}

/// The double-precision magnitude produced for a subnormal fraction
/// encodes exactly the fraction's value: `f` in units of `2^-149` is
/// `f * 2^925` in units of `2^-1074`.
proof fn lemma_widen_mag_subnormal_value(f: u32)
    requires
        0 < f < 0x0080_0000,
    ensures
        bits64::spec_mag_value(spec_widen_mag_subnormal(f) as u64) == f * pow2(925),
    decreases 0x0080_0000 - f,
{
    lemma2_to64();
    lemma_widen_mag_subnormal_bounds(f, 0);
    if f >= 0x0040_0000 {
        let d = (f - 0x0040_0000) as int;
        let m = spec_widen_mag_subnormal(f);
        vstd::arithmetic::div_mod::lemma_fundamental_div_mod_converse(
            m,
            0x0010_0000_0000_0000int,
            896,
            d * 0x4000_0000,
        );
        lemma_pow2_adds(30, 895);
        assert((0x0010_0000_0000_0000 + d * 0x4000_0000) * pow2(895) == ((0x0040_0000 + d)
            * pow2(925))) by (nonlinear_arith)
            requires
                pow2(925) == pow2(30) * pow2(895),
                pow2(30) == 0x4000_0000,
        ;
    } else {
        lemma_widen_mag_subnormal_bounds((2 * f) as u32, 0);
        lemma_widen_mag_subnormal_value((2 * f) as u32);
        lemma_mag_value_halves(spec_widen_mag_subnormal((2 * f) as u32) as u64);
        assert(2 * ((f as int) * pow2(925)) == (2 * f) * pow2(925)) by (nonlinear_arith);
    }
}

/// Widening preserves the encoded numeric value exactly: the scaled value
/// of the double-precision result is the scaled value of the
/// single-precision input times `2^925`, which is the change of scale from
/// units of `2^-149` to units of `2^-1074`. Widening a finite value also
/// stays finite.
pub proof fn lemma_widen_preserves_value(b: u32)
    requires
        bits32::spec_is_finite(b),
    ensures
        bits64::spec_is_finite(spec_widen(b)),
        bits64::spec_scaled_value(spec_widen(b)) == bits32::spec_scaled_value(b) * pow2(925),
{
    let sign: u64 = if bits32::spec_is_sign_negative(b) {
        bits64::SIGN_MASK
    } else {
        0
    };
    let e: u32 = (b >> 23) & 0xff;
    let f: u32 = b & bits32::FRAC_MASK;
    let fr: u64 = f as u64;
    lemma2_to64();
    assert(((b >> 23) & 0xff == 0xff) == (b & 0x7f80_0000u32 == 0x7f80_0000u32) && b
        & 0x007f_ffffu32 <= 0x007f_ffffu32 && (b >> 23) & 0xff <= 0xff && b & 0x7fff_ffffu32
        == ((b >> 23) & 0xff) * 0x0080_0000 + (b & 0x007f_ffffu32)) by (bit_vector);
    let mag32 = bits32::spec_magnitude(b);
    vstd::arithmetic::div_mod::lemma_fundamental_div_mod_converse(
        mag32 as int,
        0x0080_0000int,
        e as int,
        f as int,
    );
    let v32 = bits32::spec_mag_value(mag32);
    assert((-v32) * pow2(925) == -(v32 * pow2(925))) by (nonlinear_arith);
    if e == 0 {
        if f == 0 {
            assert((sign == 0 || sign == 0x8000_0000_0000_0000u64) ==> (sign
                & 0x7fff_ffff_ffff_ffffu64 == 0 && sign & 0x7ff0_0000_0000_0000u64
                != 0x7ff0_0000_0000_0000u64)) by (bit_vector);
            vstd::arithmetic::div_mod::lemma_fundamental_div_mod_converse(
                0,
                0x0010_0000_0000_0000int,
                0,
                0,
            );
            vstd::arithmetic::div_mod::lemma_fundamental_div_mod_converse(0, 0x0080_0000int, 0, 0);
            assert(0 * pow2(925) == 0) by (nonlinear_arith);
        } else {
            lemma_widen_mag_subnormal_bounds(f, 0);
            lemma_widen_mag_subnormal_value(f);
            let mm: u64 = spec_widen_mag_subnormal(f) as u64;
            assert((sign == 0 || sign == 0x8000_0000_0000_0000u64) && mm
                < 0x3810_0000_0000_0000u64 ==> (((sign + mm) as u64) & 0x7fff_ffff_ffff_ffffu64
                == mm && ((sign + mm) as u64) & 0x8000_0000_0000_0000u64 == sign && ((sign
                + mm) as u64) & 0x7ff0_0000_0000_0000u64 != 0x7ff0_0000_0000_0000u64))
                by (bit_vector);
            vstd::arithmetic::div_mod::lemma_fundamental_div_mod_converse(
                f as int,
                0x0080_0000int,
                0,
                f as int,
            );
        }
    } else {
        let ee: u64 = e as u64;
        assert((sign == 0 || sign == 0x8000_0000_0000_0000u64) && 1 <= ee <= 254 && fr
            <= 0x007f_ffffu64 ==> ((sign | (((ee + 896) as u64) << 52) | (fr << 29))
            & 0x7fff_ffff_ffff_ffffu64 == (ee + 896) * 0x0010_0000_0000_0000 + fr * 0x2000_0000
            && (sign | (((ee + 896) as u64) << 52) | (fr << 29)) & 0x8000_0000_0000_0000u64
            == sign && (sign | (((ee + 896) as u64) << 52) | (fr << 29))
            & 0x7ff0_0000_0000_0000u64 != 0x7ff0_0000_0000_0000u64)) by (bit_vector);
        assert(((e + 896) as u64) == ((ee + 896) as u64));
        let mag64 = bits64::spec_magnitude(spec_widen(b));
        vstd::arithmetic::div_mod::lemma_fundamental_div_mod_converse(
            mag64 as int,
            0x0010_0000_0000_0000int,
            ee as int + 896,
            fr as int * 0x2000_0000,
        );
        lemma_pow2_adds((ee - 1) as nat, 896);
        lemma_pow2_adds(29, 896);
        assert((0x0010_0000_0000_0000 + fr * 0x2000_0000) * pow2((ee + 895) as nat) == ((
        0x0080_0000 + fr) * pow2((ee - 1) as nat)) * pow2(925)) by (nonlinear_arith)
            requires
                0 <= fr,
                pow2((ee + 895) as nat) == pow2((ee - 1) as nat) * pow2(896),
                pow2(925) == pow2(29) * pow2(896),
                pow2(29) == 0x2000_0000,
        ;
    }
}

/// Widening never turns a non-NaN pattern into a NaN pattern: infinities
/// stay infinities and every finite value stays finite.
pub proof fn lemma_widen_not_nan(b: u32)
    requires
        !bits32::spec_is_nan(b),
    ensures
        !bits64::spec_is_nan(spec_widen(b)),
{
    let sign: u64 = if bits32::spec_is_sign_negative(b) {
        bits64::SIGN_MASK
    } else {
        0
    };
    let e: u32 = (b >> 23) & 0xff;
    let f: u32 = b & bits32::FRAC_MASK;
    let fr: u64 = f as u64;
    assert(((b >> 23) & 0xff == 0xff) == (b & 0x7f80_0000u32 == 0x7f80_0000u32) && b
        & 0x007f_ffffu32 <= 0x007f_ffffu32) by (bit_vector);
    if e == 0xff {
        // with an all-ones exponent, "not NaN" means the fraction is zero,
        // so the result is an infinity
        assert((sign == 0 || sign == 0x8000_0000_0000_0000u64) && fr == 0
            ==> !bits64::spec_is_nan(sign | 0x7ff0_0000_0000_0000u64 | (fr << 29)))
            by (bit_vector);
    } else if e == 0 {
        if f == 0 {
            assert((sign == 0 || sign == 0x8000_0000_0000_0000u64) ==> !bits64::spec_is_nan(sign))
                by (bit_vector);
        } else {
            lemma2_to64();
            lemma_widen_mag_subnormal_bounds(f, 0);
            let m: u64 = spec_widen_mag_subnormal(f) as u64;
            assert((sign == 0 || sign == 0x8000_0000_0000_0000u64) && m
                < 0x3810_0000_0000_0000u64 ==> !bits64::spec_is_nan((sign + m) as u64))
                by (bit_vector);
        }
    } else {
        let ee: u64 = e as u64;
        assert((b >> 23) & 0xff <= 0xff) by (bit_vector);
        assert(1 <= ee <= 254 && (sign == 0 || sign == 0x8000_0000_0000_0000u64) && fr
            <= 0x007f_ffffu64 ==> !bits64::spec_is_nan(
            sign | (((ee + 896) as u64) << 52) | (fr << 29),
        )) by (bit_vector);
        assert(((e + 896) as u64) == ((ee + 896) as u64));
    }
}

/// Re-encode a single-precision bit pattern as the double-precision bit
/// pattern of the same value.
pub fn widen(b: u32) -> (r: u64)
    ensures
        r == spec_widen(b),
{
    proof {
        assert((b & 0x8000_0000u32 != 0) == (b & 0x8000_0000u32 == 0x8000_0000u32) && b
            & 0x007f_ffffu32 <= 0x007f_ffffu32 && (b >> 23) & 0xff <= 0xff) by (bit_vector);
    }
    let sign: u64 = if b & bits32::SIGN_MASK != 0 {
        bits64::SIGN_MASK
    } else {
        0
    };
    let e: u32 = (b >> 23) & 0xff;
    let f: u32 = b & bits32::FRAC_MASK;
    if e == 0xff {
        sign | bits64::EXP_MASK | ((f as u64) << 29)
    } else if e == 0 {
        if f == 0 {
            sign
        } else {
            let mut m: u32 = f;
            let mut exp: u64 = 896;
            proof {
                lemma2_to64();
            }
            while m < 0x0040_0000
                invariant
                    0 < m < 0x0080_0000,
                    874 <= exp <= 896,
                    pow2((896 - exp) as nat) <= m,
                    spec_widen_mag_subnormal(f) + (896 - exp) * 0x0010_0000_0000_0000
                        == spec_widen_mag_subnormal(m),
                    0 < f < 0x0080_0000,
                decreases exp,
            {
                proof {
                    lemma2_to64();
                    if 896 - exp >= 22 {
                        if 896 - exp > 22 {
                            lemma_pow2_strictly_increases(22, (896 - exp) as nat);
                        }
                        assert(false);
                    }
                    lemma_pow2_adds((896 - exp) as nat, 1);
                    assert(spec_widen_mag_subnormal(m) == spec_widen_mag_subnormal((2 * m) as u32)
                        - 0x0010_0000_0000_0000);
                }
                m = m * 2;
                exp = exp - 1;
            }
            let d: u64 = (m - 0x0040_0000) as u64;
            proof {
                assert(spec_widen_mag_subnormal(m) == 896 * 0x0010_0000_0000_0000 + (m
                    - 0x0040_0000) * 0x4000_0000);
                assert((sign == 0 || sign == 0x8000_0000_0000_0000u64) && 874 <= exp <= 896 && d
                    < 0x0040_0000u64 ==> (sign | (exp << 52) | (d << 30)) == ((sign + (exp
                    * 0x0010_0000_0000_0000 + d * 0x4000_0000)) as u64)) by (bit_vector);
            }
            sign | (exp << 52) | (d << 30)
        }
    } else {
        let ee: u64 = (e as u64) + 896;
        sign | (ee << 52) | ((f as u64) << 29)
    }
}

} // verus!
