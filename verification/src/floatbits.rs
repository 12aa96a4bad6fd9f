//! Floating-point values at the conversion boundary.
//!
//! The verified core carries floats only as IEEE 754 bit patterns. The one
//! conversion whose result is genuinely floating-point — rescaling a decimal
//! mantissa to a double — is performed by an outside crate behind a trusted
//! wrapper, its result named by an uninterpreted function of the inputs
//! alone. The half-precision widening and the truncating float-to-integer
//! cast are exact integer arithmetic on the bit patterns and are implemented
//! and verified here.

use vstd::prelude::*;

verus! {

/// The IEEE 754 binary64 bit pattern of `mantissa / 10^scale`, rounded as
/// the decimal library rounds it. A pure function of the two arguments;
/// for large scales the library rounds through `powi`, whose precision the
/// standard library documents as platform-dependent, so the named value is
/// fixed per build. No proof here fixes it to a concrete bit pattern.
pub uninterp spec fn f64_bits_of_decimal(mantissa: i128, scale: u32) -> u64;

/// Largest mantissa magnitude the decimal library can represent: 2^96 - 1.
pub const MAX_DECIMAL_MANTISSA: i128 = 0xFFFFFFFF_FFFFFFFF_FFFFFFFF;

/// Largest scale the decimal library accepts.
pub const MAX_DECIMAL_SCALE: u32 = 28;

/// Relies on rust_decimal: `Decimal::from_i128_with_scale` builds the exact
/// decimal `mantissa / 10^scale` (it panics outside the 96-bit mantissa range
/// or above scale 28, both excluded here), and `ToPrimitive::to_f64` converts
/// any decimal to a double, depending on nothing but the decimal's value.
#[verifier::external_body]
pub(crate) fn decimal_to_f64_bits(mantissa: i128, scale: u32) -> (r: u64)
    requires
        -MAX_DECIMAL_MANTISSA <= mantissa <= MAX_DECIMAL_MANTISSA,
        scale <= MAX_DECIMAL_SCALE,
    ensures
        r == f64_bits_of_decimal(mantissa, scale),
{
    let d = rust_decimal::Decimal::from_i128_with_scale(mantissa, scale);
    rust_decimal::prelude::ToPrimitive::to_f64(&d).unwrap().to_bits()
}

/// The number of binary digits of `x`: zero for zero, and the position of
/// the highest set bit plus one otherwise.
pub open spec fn bit_length(x: nat) -> nat
    decreases x,
{
    if x == 0 {
        0
    } else {
        1 + bit_length(x / 2)
    }
}

/// The binary32 bit pattern that widens the binary16 bit pattern `i`: the
/// exponent is re-biased from 15 to 127, the mantissa gains 13 low zero
/// bits, subnormal halves are normalized, infinities stay infinities, and a
/// not-a-number keeps its payload with the quiet bit set. The widening is
/// exact: every binary16 value is representable in binary32.
pub open spec fn f16_widen_spec(i: u16) -> u32 {
    if i & 0x7FFF == 0 {
        // Signed zero.
        (i as u32) << 16
    } else {
        let sign = ((i & 0x8000) as u32) << 16;
        let exp16 = ((i & 0x7C00) as u32) >> 10;
        let man = (i & 0x03FF) as u32;
        if exp16 == 0x1F {
            if man == 0 {
                sign | 0x7F800000
            } else {
                sign | 0x7FC00000 | (man << 13)
            }
        } else if exp16 == 0 {
            // Subnormal: normalize by shifting the mantissa up until its
            // leading bit reaches the implicit-one position.
            let e = (10 - bit_length(man as nat)) as u32;
            (sign | (((112 - e) as u32) << 23)) | ((man << ((14 + e) as u32)) & 0x7FFFFF)
        } else {
            sign | (((exp16 + 112) as u32) << 23) | (man << 13)
        }
    }
}

/// Widens a half-precision bit pattern to the single-precision bit pattern
/// of the same value.
pub fn f16_widen_to_f32_bits(i: u16) -> (r: u32)
    ensures
        r == f16_widen_spec(i),
{
    if i & 0x7FFF == 0 {
        return (i as u32) << 16u32;
    }
    let sign: u32 = ((i & 0x8000) as u32) << 16u32;
    let exp16: u32 = ((i & 0x7C00) as u32) >> 10u32;
    let man: u32 = (i & 0x03FF) as u32;
    if exp16 == 0x1F {
        if man == 0 {
            sign | 0x7F800000
        } else {
            sign | 0x7FC00000 | (man << 13u32)
        }
    } else if exp16 == 0 {
        proof {
            assert((i & 0x03FF) > 0 || (i & 0x8000) > 0 || (i & 0x7C00) > 0) by (bit_vector)
                requires
                    i & 0x7FFF != 0,
            ;
            assert((i & 0x7C00) == 0 ==> ((i & 0x7C00) as u32) >> 10u32 == 0) by (bit_vector);
            assert((i & 0x03FF) < 0x400) by (bit_vector);
            assert(exp16 == 0 ==> (i & 0x7C00) == 0) by (bit_vector)
                requires
                    exp16 == ((i & 0x7C00) as u32) >> 10u32,
            ;
        }
        // Here the half is subnormal and non-zero, so 1 <= man < 2^10.
        proof {
            lemma_bit_length_monotonic(man as nat, 0x3FF);
            reveal_with_fuel(bit_length, 12);
            assert(bit_length(0x3FF) == 10);
        }
        let mut x: u32 = man;
        let mut len: u32 = 0;
        while x != 0
            invariant
                len + bit_length(x as nat) == bit_length(man as nat),
                bit_length(man as nat) <= 10,
                x <= man,
            decreases x,
        {
            proof {
                assert(bit_length(x as nat) == 1 + bit_length((x / 2) as nat));
            }
            x = x / 2;
            len = len + 1;
        }
        proof {
            assert(len == bit_length(man as nat));
            assert(man >= 1 ==> bit_length(man as nat) >= 1);
            lemma_bit_length_monotonic(man as nat, 0x3FF);
            reveal_with_fuel(bit_length, 12);
            assert(bit_length(0x3FF) == 10);
        }
        let e: u32 = 10 - len;
        (sign | ((112 - e) << 23u32)) | ((man << (14 + e)) & 0x7FFFFF)
    } else {
        proof {
            assert(((i & 0x7C00) as u32) >> 10u32 <= 0x1F) by (bit_vector);
            assert((i & 0x03FF) < 0x400) by (bit_vector);
        }
        sign | ((exp16 + 112) << 23u32) | (man << 13u32)
    }
}

/// Bit length never decreases when the argument grows.
proof fn lemma_bit_length_monotonic(x: nat, y: nat)
    requires
        x <= y,
    ensures
        bit_length(x) <= bit_length(y),
    decreases y,
{
    if x > 0 {
        lemma_bit_length_monotonic(x / 2, y / 2);
    }
}

/// What the saturating, truncating float-to-integer cast of a binary64 value
/// yields, computed on the bit pattern: not-a-number casts to zero, values
/// below `i32::MIN` or above `i32::MAX` saturate, and every other value is
/// truncated toward zero.
pub open spec fn f64_bits_to_i32_spec(b: u64) -> i32 {
    let sign = b >> 63;
    let exp = (b >> 52) & 0x7FF;
    let frac = b & 0xFFFFFFFFFFFFF;
    if exp == 0x7FF {
        // Infinities saturate; any non-zero fraction is not-a-number.
        if frac != 0 {
            0
        } else if sign == 1 {
            i32::MIN
        } else {
            i32::MAX
        }
    } else if exp < 1023 {
        // Magnitude below one truncates to zero.
        0
    } else if exp >= 1054 {
        // Magnitude at least 2^31.
        if sign == 1 {
            i32::MIN
        } else {
            i32::MAX
        }
    } else {
        // The value is (2^52 + frac) * 2^(exp - 1075), so shifting the
        // mantissa right by (1075 - exp) bits truncates it toward zero.
        let mag = ((1u64 << 52) | frac) >> ((1075 - exp) as u64);
        if sign == 1 {
            (0 - mag as int) as i32
        } else {
            mag as i32
        }
    }
}

/// The saturating, truncating cast of a binary64 bit pattern to a 32-bit
/// integer, as the hardware cast performs it.
pub fn f64_bits_to_i32(b: u64) -> (r: i32)
    ensures
        r == f64_bits_to_i32_spec(b),
{
    let sign: u64 = b >> 63u64;
    let exp: u64 = (b >> 52u64) & 0x7FF;
    let frac: u64 = b & 0xFFFFFFFFFFFFF;
    if exp == 0x7FF {
        if frac != 0 {
            0
        } else if sign == 1 {
            i32::MIN
        } else {
            i32::MAX
        }
    } else if exp < 1023 {
        0
    } else if exp >= 1054 {
        if sign == 1 {
            i32::MIN
        } else {
            i32::MAX
        }
    } else {
        let shift: u64 = 1075 - exp;
        let mantissa: u64 = (1u64 << 52u64) | frac;
        let mag64: u64 = mantissa >> shift;
        proof {
            assert(frac < 0x10000000000000u64) by (bit_vector)
                requires
                    frac == b & 0xFFFFFFFFFFFFFu64,
            ;
            assert(mag64 < 0x80000000u64) by (bit_vector)
                requires
                    frac < 0x10000000000000u64,
                    mantissa == (1u64 << 52u64) | frac,
                    22 <= shift <= 52,
                    mag64 == mantissa >> shift,
            ;
        }
        let mag: i32 = mag64 as i32;
        if sign == 1 {
            0i32 - mag
        } else {
            mag
        }
    }
}

} // verus!
