//! Conversion of 32-bit floating-point samples, taken by their bit pattern.
//!
//! A float sample is scaled by the largest canonical magnitude, 32767, and
//! cut off toward zero. The scaling is a single-precision multiplication, so
//! the product is first rounded to 24 significant bits, ties to even; the
//! result saturates at the ends of the canonical range, and a sample that is
//! not a number gives silence. Everything here works on the bit pattern of
//! the sample, with integers only.

use vstd::arithmetic::div_mod::{
    lemma_basic_div,
    lemma_div_is_ordered,
    lemma_div_is_ordered_by_denominator,
    lemma_div_multiples_vanish_quotient,
    lemma_fundamental_div_mod,
};
use vstd::arithmetic::power2::{
    lemma2_to64,
    lemma2_to64_rest,
    lemma_pow2_adds,
    lemma_pow2_pos,
    lemma_pow2_strictly_increases,
    lemma_pow2_unfold,
    pow2,
};
use vstd::bits::lemma_u64_shr_is_div;
use vstd::prelude::*;

verus! {

/// The factor by which a float sample is scaled.
pub const FULL_SCALE: u64 = 32767;

/// The bit pattern of the float sample 1.0.
pub const ONE_BITS: u32 = 0x3f80_0000;

/// The sign bit of a pattern.
pub open spec fn is_negative(bits: u32) -> bool {
    bits >= 0x8000_0000
}

/// The eight exponent bits of a pattern.
pub open spec fn biased_exponent(bits: u32) -> nat {
    ((bits / 0x80_0000) % 0x100) as nat
}

/// The 23 fraction bits of a pattern.
pub open spec fn fraction(bits: u32) -> nat {
    (bits % 0x80_0000) as nat
}

/// Whether a pattern is not a number.
pub open spec fn is_nan(bits: u32) -> bool {
    biased_exponent(bits) == 255 && fraction(bits) != 0
}

/// The significand of a pattern as an integer: the magnitude of the sample is
/// `significand * 2^scale`. An infinity is read like the number its pattern
/// would stand for with one more exponent, which is far out of range too.
pub open spec fn significand(bits: u32) -> nat {
    if biased_exponent(bits) == 0 {
        fraction(bits)
    } else {
        0x80_0000 + fraction(bits)
    }
}

/// The power of two by which the significand is scaled.
pub open spec fn scale(bits: u32) -> int {
    if biased_exponent(bits) == 0 {
        -149
    } else {
        biased_exponent(bits) - 150
    }
}

/// The number of bits that `n` has beyond 24.
pub open spec fn excess_bits(n: nat) -> nat
    decreases n,
{
    if n < 0x100_0000 {
        0
    } else {
        1 + excess_bits(n / 2)
    }
}

/// `n` rounded to the nearest multiple of `unit`, a tie going to the even
/// multiple.
pub open spec fn round_half_even(n: nat, unit: nat) -> nat {
    let quotient = n / unit;
    let remainder = n % unit;
    if 2 * remainder > unit || (2 * remainder == unit && quotient % 2 == 1) {
        (quotient + 1) * unit
    } else {
        quotient * unit
    }
}

/// `n` rounded to 24 significant bits, ties to even.
pub open spec fn round_to_24_bits(n: nat) -> nat {
    round_half_even(n, pow2(excess_bits(n)))
}

/// The whole part of `n * 2^scale`.
pub open spec fn scaled_floor(n: nat, scale: int) -> nat {
    if scale >= 0 {
        n * pow2(scale as nat)
    } else {
        n / pow2((-scale) as nat)
    }
}

/// The whole part of the magnitude of the scaled sample: the significand
/// times 32767, rounded to 24 significant bits, times `2^scale`, cut off.
/// Where the product is too small for single precision to hold 24 bits of
/// it, it is far below one and its whole part is zero however it is rounded.
pub open spec fn scaled_magnitude(bits: u32) -> nat {
    scaled_floor(round_to_24_bits(significand(bits) * 32767), scale(bits))
}

/// The canonical sample for a float sample with the given bit pattern.
pub open spec fn spec_pcm_from_f32_bits(bits: u32) -> int {
    if is_nan(bits) {
        0
    } else if is_negative(bits) {
        if scaled_magnitude(bits) >= 32768 {
            -32768
        } else {
            -(scaled_magnitude(bits) as int)
        }
    } else {
        if scaled_magnitude(bits) >= 32767 {
            32767
        } else {
            scaled_magnitude(bits) as int
        }
    }
}

/// A number between `2^(23+d)` and `2^(24+d)` has `d` bits beyond 24.
proof fn lemma_excess_bits(n: nat, d: nat)
    requires
        pow2(23 + d) <= n < pow2(24 + d),
    ensures
        excess_bits(n) == d,
    decreases d,
{
    lemma2_to64();
    if d == 0 {
    } else {
        lemma_pow2_unfold(23 + d);
        lemma_pow2_unfold(24 + d);
        if d > 1 {
            lemma_pow2_strictly_increases(24, 23 + d);
        }
        lemma_excess_bits(n / 2, (d - 1) as nat);
    }
}

/// A number below `2^(24+d)` has at most `d` bits beyond 24.
proof fn lemma_excess_bits_at_most(n: nat, d: nat)
    requires
        n < pow2(24 + d),
    ensures
        excess_bits(n) <= d,
    decreases d,
{
    lemma2_to64();
    if n < 0x100_0000 {
    } else {
        if d == 0 {
        } else {
            lemma_pow2_unfold(24 + d);
            lemma_excess_bits_at_most(n / 2, (d - 1) as nat);
        }
    }
}

/// Rounding to a multiple of `unit` moves a number by less than `unit`, and
/// not below a multiple of `unit` that it has reached.
proof fn lemma_round_half_even_bounds(n: nat, unit: nat, floor: nat)
    requires
        unit > 0,
        floor * unit <= n,
    ensures
        floor * unit <= round_half_even(n, unit) <= n + unit,
        round_half_even(n, unit) == (n / unit) * unit || round_half_even(n, unit) == (n / unit
            + 1) * unit,
{
    let quotient = n / unit;
    lemma_fundamental_div_mod(n as int, unit as int);
    assert(n == unit * quotient + n % unit);
    assert(unit * quotient == quotient * unit) by (nonlinear_arith);
    assert((quotient + 1) * unit == quotient * unit + unit) by (nonlinear_arith);
    assert(floor <= quotient) by (nonlinear_arith)
        requires
            floor * unit <= n,
            n < (quotient + 1) * unit,
            unit > 0,
    ;
    assert(floor * unit <= quotient * unit) by (nonlinear_arith)
        requires
            floor <= quotient,
    ;
}

/// The product of a full 24-bit significand and 32767 has 14 or 15 bits
/// beyond 24.
proof fn lemma_product_excess(product: nat)
    requires
        0x80_0000 * 32767 <= product < 0x100_0000 * 32767,
    ensures
        excess_bits(product) == (if product < 0x40_0000_0000 {
            14nat
        } else {
            15nat
        }),
        pow2(14) == 0x4000,
        pow2(15) == 0x8000,
{
    lemma2_to64();
    lemma2_to64_rest();
    if product < 0x40_0000_0000 {
        lemma_excess_bits(product, 14);
    } else {
        lemma_excess_bits(product, 15);
    }
}

/// A sample below `2^-15` in magnitude scales to less than one.
proof fn lemma_small_sample(bits: u32)
    requires
        biased_exponent(bits) <= 111,
    ensures
        scaled_magnitude(bits) == 0,
{
    lemma2_to64();
    lemma2_to64_rest();
    let product = significand(bits) * 32767;
    let excess = excess_bits(product);
    let unit = pow2(excess);
    lemma_excess_bits_at_most(product, 15);
    if excess < 15 {
        lemma_pow2_strictly_increases(excess, 15);
    }
    lemma_pow2_pos(excess);
    lemma_round_half_even_bounds(product, unit, 0);
    let rounded = round_to_24_bits(product);
    assert(rounded < 0x80_0000_0000);
    let down = (-scale(bits)) as nat;
    if down > 39 {
        lemma_pow2_strictly_increases(39, down);
    }
    lemma_basic_div(rounded as int, pow2(down) as int);
}

/// A sample of magnitude two or more, an infinity among them, scales to
/// 32768 or more.
proof fn lemma_large_sample(bits: u32)
    requires
        biased_exponent(bits) >= 128,
    ensures
        scaled_magnitude(bits) >= 32768,
{
    lemma2_to64();
    lemma2_to64_rest();
    let product = significand(bits) * 32767;
    lemma_product_excess(product);
    let unit = pow2(excess_bits(product));
    let rounded = round_to_24_bits(product);
    if product < 0x40_0000_0000 {
        lemma_round_half_even_bounds(product, unit, 0x80_0000);
    } else {
        lemma_round_half_even_bounds(product, unit, 0x40_0000);
    }
    assert(rounded >= 0x20_0000_0000);
    if scale(bits) >= 0 {
        let up = pow2(scale(bits) as nat);
        lemma_pow2_pos(scale(bits) as nat);
        assert(rounded * up >= rounded) by (nonlinear_arith)
            requires
                up >= 1,
        ;
    } else {
        let down = (-scale(bits)) as nat;
        if down < 22 {
            lemma_pow2_strictly_increases(down, 22);
        }
        lemma_pow2_pos(down);
        lemma_div_is_ordered_by_denominator(rounded as int, pow2(down) as int, 0x40_0000);
        lemma_div_is_ordered(0x20_0000_0000, rounded as int, 0x40_0000);
    }
}

/// For a sample between `2^-15` and two in magnitude, the scaled magnitude is
/// the rounded quotient of the product, shifted down by what is left of the
/// scale.
proof fn lemma_middle_sample(bits: u32, rounded: nat, shift: nat)
    requires
        112 <= biased_exponent(bits) <= 127,
        rounded * pow2(excess_bits(significand(bits) * 32767)) == round_to_24_bits(
            significand(bits) * 32767,
        ),
        shift + excess_bits(significand(bits) * 32767) + biased_exponent(bits) == 150,
    ensures
        scaled_magnitude(bits) == rounded / pow2(shift),
{
    let product = significand(bits) * 32767;
    let excess = excess_bits(product);
    lemma_product_excess(product);
    lemma_pow2_adds(excess, shift);
    lemma_pow2_pos(excess);
    lemma_pow2_pos(shift);
    lemma_div_multiples_vanish_quotient(pow2(excess) as int, rounded as int, pow2(shift) as int);
    assert(rounded * pow2(excess) == pow2(excess) * rounded) by (nonlinear_arith);
}

/// Both float zeros convert to zero.
pub proof fn lemma_silent_float()
    ensures
        spec_pcm_from_f32_bits(0) == 0,
        spec_pcm_from_f32_bits(0x8000_0000) == 0,
{
    lemma_small_sample(0);
    lemma_small_sample(0x8000_0000);
}

/// The float samples 1.0 and -1.0 convert to 32767 and -32767.
pub proof fn lemma_full_scale_float()
    ensures
        spec_pcm_from_f32_bits(ONE_BITS) == 32767,
        spec_pcm_from_f32_bits(0xbf80_0000) == -32767,
{
    lemma2_to64();
    let product: nat = 0x80_0000 * 32767;
    lemma_product_excess(product);
    assert(biased_exponent(ONE_BITS) == 127 && fraction(ONE_BITS) == 0);
    assert(biased_exponent(0xbf80_0000) == 127 && fraction(0xbf80_0000) == 0);
    assert(product / 0x4000 == 0xff_fe00 && product % 0x4000 == 0);
    assert(round_to_24_bits(product) == 0xff_fe00 * 0x4000);
    assert(0xff_fe00nat / 0x200 == 32767);
    lemma_middle_sample(ONE_BITS, 0xff_fe00, 9);
    lemma_middle_sample(0xbf80_0000, 0xff_fe00, 9);
}

/// The canonical sample for a float sample, given by its bit pattern (what
/// `f32::to_bits` returns): the sample times 32767 as single precision
/// computes it, cut off toward zero. A sample beyond full scale is held to
/// the nearer end of the canonical range, not wrapped around; a sample that
/// is not a number gives zero.
pub fn pcm_from_f32_bits(bits: u32) -> (pcm: i16)
    ensures
        pcm == spec_pcm_from_f32_bits(bits),
{
    let negative = bits >= 0x8000_0000;
    let exponent: u32 = (bits / 0x80_0000) % 0x100;
    let fraction: u32 = bits % 0x80_0000;
    if exponent == 255 && fraction != 0 {
        return 0;
    }
    if exponent < 112 {
        proof {
            lemma_small_sample(bits);
        }
        return 0;
    }
    if exponent > 127 {
        proof {
            lemma_large_sample(bits);
        }
        return if negative {
            i16::MIN
        } else {
            i16::MAX
        };
    }
    let product: u64 = (0x80_0000 + fraction as u64) * FULL_SCALE;
    let excess: u64 = if product < 0x40_0000_0000 {
        14
    } else {
        15
    };
    let unit: u64 = if product < 0x40_0000_0000 {
        0x4000
    } else {
        0x8000
    };
    let quotient: u64 = product / unit;
    let remainder: u64 = product % unit;
    let rounded: u64 = if 2 * remainder > unit || (2 * remainder == unit && quotient % 2 == 1) {
        quotient + 1
    } else {
        quotient
    };
    let shift: u64 = 150 - exponent as u64 - excess;
    let magnitude: u64 = rounded >> shift;
    proof {
        lemma_product_excess(product as nat);
        lemma_middle_sample(bits, rounded as nat, shift as nat);
        lemma_u64_shr_is_div(rounded, shift);
        lemma2_to64();
        lemma_pow2_strictly_increases(0, shift as nat);
        lemma_div_is_ordered_by_denominator(rounded as int, 1, pow2(shift as nat) as int);
    }
    if negative {
        if magnitude >= 32768 {
            i16::MIN
        } else {
            -(magnitude as i16)
        }
    } else {
        if magnitude >= 32767 {
            i16::MAX
        } else {
            magnitude as i16
        }
    }
}

} // verus!
