//! Samples of the simulator as whole numbers.
//!
//! The simulator hands out its values as binary floating-point numbers of
//! 32 bits. This module reads such a number from its bit pattern and turns
//! it into the whole number that the bridge works with.

use vstd::prelude::*;
use vstd::arithmetic::power2::{
    lemma2_to64, lemma_pow2_pos, lemma_pow2_strictly_increases, lemma_pow2_unfold, pow2,
};
use crate::field::SemanticField;

verus! {

/// The exponent field of a bit pattern.
pub open spec fn exponent_of(bits: u32) -> nat {
    ((bits / 0x80_0000) % 256) as nat
}

/// The fraction field of a bit pattern.
pub open spec fn fraction_of(bits: u32) -> nat {
    (bits % 0x80_0000) as nat
}

/// Whether the sign bit is set.
pub open spec fn is_negative(bits: u32) -> bool {
    bits >= 0x8000_0000
}

/// Whether the bit pattern is no number at all.
pub open spec fn is_nan(bits: u32) -> bool {
    exponent_of(bits) == 255 && fraction_of(bits) != 0
}

/// Whether the bit pattern stands for infinity.
pub open spec fn is_infinite(bits: u32) -> bool {
    exponent_of(bits) == 255 && fraction_of(bits) == 0
}

/// The significand of a finite number: its magnitude is the significand
/// times two to the power of its scale.
pub open spec fn significand_of(bits: u32) -> nat {
    if exponent_of(bits) == 0 {
        fraction_of(bits)
    } else {
        0x80_0000 + fraction_of(bits)
    }
}

/// The scale of a finite number.
pub open spec fn scale_of(bits: u32) -> int {
    if exponent_of(bits) == 0 {
        -149
    } else {
        exponent_of(bits) - 150
    }
}

/// The whole part of `sig` times two to the power of `scale`.
pub open spec fn whole_part(sig: nat, scale: int) -> nat {
    if scale >= 0 {
        sig * pow2(scale as nat)
    } else {
        sig / pow2((-scale) as nat)
    }
}

/// The whole number nearest to `sig` times two to the power of `scale`;
/// where two are equally near, the larger one.
pub open spec fn nearest_whole(sig: nat, scale: int) -> nat {
    if scale >= 0 {
        sig * pow2(scale as nat)
    } else {
        (2 * sig + pow2((-scale) as nat)) / (2 * pow2((-scale) as nat))
    }
}

/// `value`, but no more than `max`.
pub open spec fn capped(value: nat, max: nat) -> nat {
    if value > max {
        max
    } else {
        value
    }
}

/// How many of the lowest bits of a product are given up so that 24 bits
/// are left, the width of a significand.
pub open spec fn excess_bits(product: nat) -> nat {
    if product < 0x100_0000 {
        0
    } else if product < 0x200_0000 {
        1
    } else if product < 0x400_0000 {
        2
    } else if product < 0x800_0000 {
        3
    } else if product < 0x1000_0000 {
        4
    } else if product < 0x2000_0000 {
        5
    } else if product < 0x4000_0000 {
        6
    } else {
        7
    }
}

/// `value` without its lowest `drop` bits, rounded to the nearest; where
/// two are equally near, to the even one.
pub open spec fn nearest_even(value: nat, drop: nat) -> nat {
    let unit = pow2(drop);
    let quotient = value / unit;
    let rest = value % unit;
    if 2 * rest > unit || (2 * rest == unit && quotient % 2 == 1) {
        quotient + 1
    } else {
        quotient
    }
}

/// The significand of a hundred times a finite number, as the product is
/// stored in 32 bits.
pub open spec fn percent_significand(bits: u32) -> nat {
    let product = significand_of(bits) * 100;
    nearest_even(product, excess_bits(product))
}

/// The scale of a hundred times a finite number.
pub open spec fn percent_scale(bits: u32) -> int {
    scale_of(bits) + excess_bits(significand_of(bits) * 100)
}

/// The magnitude of a sample, rounded to the nearest whole number, halves
/// away from zero. What is no number gives 0; what is too large gives the
/// largest number.
pub open spec fn rounded_magnitude_of(bits: u32) -> u32 {
    if is_nan(bits) {
        0
    } else if is_infinite(bits) {
        u32::MAX
    } else {
        capped(nearest_whole(significand_of(bits), scale_of(bits)), u32::MAX as nat) as u32
    }
}

/// A hundred times the magnitude of a sample, rounded to the nearest whole
/// number.
pub open spec fn rounded_percent_of(bits: u32) -> u32 {
    if is_nan(bits) {
        0
    } else if is_infinite(bits) {
        u32::MAX
    } else {
        capped(nearest_whole(percent_significand(bits), percent_scale(bits)), u32::MAX as nat) as u32
    }
}

/// The whole part of a hundred times a sample; 0 for a sample below zero.
pub open spec fn truncated_percent_of(bits: u32) -> u32 {
    if is_nan(bits) || is_negative(bits) {
        0
    } else if is_infinite(bits) {
        u32::MAX
    } else {
        capped(whole_part(percent_significand(bits), percent_scale(bits)), u32::MAX as nat) as u32
    }
}

/// The whole part of a sample as a byte; 0 for a sample below zero, 255
/// for one that is too large.
pub open spec fn truncated_byte_of(bits: u32) -> u8 {
    if is_nan(bits) || is_negative(bits) {
        0
    } else if is_infinite(bits) {
        255
    } else {
        capped(whole_part(significand_of(bits), scale_of(bits)), 255) as u8
    }
}

fn power_of_two(k: u32) -> (power: u64)
    requires
        k < 64,
    ensures
        power == pow2(k as nat),
        power >= 1,
{
    let mut power: u64 = 1;
    let mut i: u32 = 0;
    proof {
        lemma2_to64();
    }
    while i < k
        invariant
            i <= k < 64,
            power == pow2(i as nat),
            power >= 1,
        decreases k - i,
    {
        proof {
            lemma_pow2_unfold((i + 1) as nat);
            lemma_pow2_strictly_increases((i + 1) as nat, 64);
            lemma2_to64();
            lemma2_to64_rest_64();
        }
        power = power * 2;
        i += 1;
    }
    power
}

proof fn lemma2_to64_rest_64()
    ensures
        pow2(64) == 0x1_0000_0000_0000_0000,
{
    vstd::arithmetic::power2::lemma2_to64_rest();
}

/// The whole number that `sig` times two to the power of `scale` gives,
/// rounded or cut off, and no more than `max`.
fn whole(sig: u64, scale: i32, round: bool, max: u32) -> (number: u32)
    requires
        sig < 0x1_0000_0000,
        -200 <= scale <= 200,
    ensures
        number == capped(
            if round {
                nearest_whole(sig as nat, scale as int)
            } else {
                whole_part(sig as nat, scale as int)
            },
            max as nat,
        ),
{
    if sig == 0 {
        proof {
            let p = pow2((-scale) as nat) as int;
            if scale < 0 {
                lemma_pow2_pos((-scale) as nat);
                assert((0 + p) / (2 * p) == 0) by (nonlinear_arith)
                    requires
                        p > 0,
                ;
                assert(0int / p == 0) by (nonlinear_arith)
                    requires
                        p > 0,
                ;
            } else {
            }
        }
        return 0;
    }
    if scale >= 0 {
        if scale >= 32 {
            proof {
                lemma2_to64();
                if scale > 32 {
                    lemma_pow2_strictly_increases(32, scale as nat);
                }
                let p = pow2(scale as nat) as int;
                assert(sig * p >= 0x1_0000_0000) by (nonlinear_arith)
                    requires
                        sig >= 1,
                        p >= 0x1_0000_0000,
                ;
            }
            return max;
        }
        let p: u64 = power_of_two(scale as u32);
        proof {
            lemma2_to64();
            if scale < 31 {
                lemma_pow2_strictly_increases(scale as nat, 31);
            }
            assert(sig * p < 0x8000_0000_0000_0000) by (nonlinear_arith)
                requires
                    sig < 0x1_0000_0000,
                    p <= 0x8000_0000,
            ;
        }
        let v: u64 = sig * p;
        if v > max as u64 {
            max
        } else {
            v as u32
        }
    } else {
        let k: u32 = (-scale) as u32;
        if k > 33 {
            proof {
                lemma2_to64();
                lemma2_to64_rest_34();
                if k > 34 {
                    lemma_pow2_strictly_increases(34, k as nat);
                }
                let p = pow2(k as nat) as int;
                assert((2 * sig + p) / (2 * p) == 0) by (nonlinear_arith)
                    requires
                        0 <= 2 * sig < p,
                ;
                assert(sig as int / p == 0) by (nonlinear_arith)
                    requires
                        0 <= sig < p,
                ;
            }
            return 0;
        }
        let p: u64 = power_of_two(k);
        proof {
            lemma2_to64_rest_34();
            if k < 33 {
                lemma_pow2_strictly_increases(k as nat, 33);
            }
        }
        let v: u64 = if round {
            (2 * sig + p) / (2 * p)
        } else {
            sig / p
        };
        if v > max as u64 {
            max
        } else {
            v as u32
        }
    }
}

proof fn lemma2_to64_rest_34()
    ensures
        pow2(33) == 0x2_0000_0000,
        pow2(34) == 0x4_0000_0000,
{
    vstd::arithmetic::power2::lemma2_to64_rest();
}

/// The fields of a bit pattern: exponent and fraction.
fn fields(bits: u32) -> (parts: (u32, u32))
    ensures
        parts.0 == exponent_of(bits),
        parts.1 == fraction_of(bits),
        parts.0 < 256,
        parts.1 < 0x80_0000,
{
    ((bits / 0x80_0000) % 256, bits % 0x80_0000)
}

/// Significand and scale of a finite number.
fn finite_parts(exponent: u32, fraction: u32) -> (parts: (u64, i32))
    requires
        exponent < 255,
        fraction < 0x80_0000,
    ensures
        parts.0 == (if exponent == 0 {
            fraction as int
        } else {
            0x80_0000 + fraction
        }),
        parts.1 == (if exponent == 0 {
            -149
        } else {
            exponent - 150
        }),
        parts.0 < 0x100_0000,
{
    if exponent == 0 {
        (fraction as u64, -149)
    } else {
        (0x80_0000 + fraction as u64, exponent as i32 - 150)
    }
}

/// Significand and scale of a hundred times a finite number.
fn percent_parts(sig: u64, scale: i32) -> (parts: (u64, i32))
    requires
        sig < 0x100_0000,
        -149 <= scale <= 104,
    ensures
        parts.0 == nearest_even((sig * 100) as nat, excess_bits((sig * 100) as nat)),
        parts.1 == scale + excess_bits((sig * 100) as nat),
        parts.0 <= 0x100_0000,
{
    let product: u64 = sig * 100;
    let drop: u32 = if product < 0x100_0000 {
        0
    } else if product < 0x200_0000 {
        1
    } else if product < 0x400_0000 {
        2
    } else if product < 0x800_0000 {
        3
    } else if product < 0x1000_0000 {
        4
    } else if product < 0x2000_0000 {
        5
    } else if product < 0x4000_0000 {
        6
    } else {
        7
    };
    let unit: u64 = power_of_two(drop);
    proof {
        lemma2_to64();
    }
    let quotient: u64 = product / unit;
    let rest: u64 = product % unit;
    let rounded: u64 = if 2 * rest > unit || (2 * rest == unit && quotient % 2 == 1) {
        quotient + 1
    } else {
        quotient
    };
    assert(quotient < 0x100_0000) by (nonlinear_arith)
        requires
            quotient == product / unit,
            unit > 0,
            product < 0x100_0000 * unit,
    ;
    (rounded, scale + drop as i32)
}

/// The magnitude of a sample, given as the bit pattern of a floating-point
/// number of 32 bits, rounded to the nearest whole number.
pub fn rounded_magnitude(bits: u32) -> (number: u32)
    ensures
        number == rounded_magnitude_of(bits),
{
    let (exponent, fraction) = fields(bits);
    if exponent == 255 {
        return if fraction == 0 {
            u32::MAX
        } else {
            0
        };
    }
    let (sig, scale) = finite_parts(exponent, fraction);
    whole(sig, scale, true, u32::MAX)
}

/// A hundred times the magnitude of a sample, rounded to the nearest whole
/// number.
pub fn rounded_percent(bits: u32) -> (number: u32)
    ensures
        number == rounded_percent_of(bits),
{
    let (exponent, fraction) = fields(bits);
    if exponent == 255 {
        return if fraction == 0 {
            u32::MAX
        } else {
            0
        };
    }
    let (sig, scale) = finite_parts(exponent, fraction);
    let (psig, pscale) = percent_parts(sig, scale);
    whole(psig, pscale, true, u32::MAX)
}

/// The whole part of a hundred times a sample.
pub fn truncated_percent(bits: u32) -> (number: u32)
    ensures
        number == truncated_percent_of(bits),
{
    let (exponent, fraction) = fields(bits);
    if bits >= 0x8000_0000 || (exponent == 255 && fraction != 0) {
        return 0;
    }
    if exponent == 255 {
        return u32::MAX;
    }
    let (sig, scale) = finite_parts(exponent, fraction);
    let (psig, pscale) = percent_parts(sig, scale);
    whole(psig, pscale, false, u32::MAX)
}

/// The whole part of a sample as a byte.
pub fn truncated_byte(bits: u32) -> (number: u8)
    ensures
        number == truncated_byte_of(bits),
{
    let (exponent, fraction) = fields(bits);
    if bits >= 0x8000_0000 || (exponent == 255 && fraction != 0) {
        return 0;
    }
    if exponent == 255 {
        return 255;
    }
    let (sig, scale) = finite_parts(exponent, fraction);
    whole(sig, scale, false, 255) as u8
}

/// What goes into the cell of a signal for a sample: the fuel level in
/// percent, every other signal as its rounded magnitude.
pub open spec fn cell_value_of(field: SemanticField, bits: u32) -> u32 {
    if field == SemanticField::Fuel {
        rounded_percent_of(bits)
    } else {
        rounded_magnitude_of(bits)
    }
}

/// What goes into the cell of a signal for a sample.
pub fn cell_value(field: SemanticField, bits: u32) -> (value: u32)
    ensures
        value == cell_value_of(field, bits),
{
    match field {
        SemanticField::Fuel => rounded_percent(bits),
        _ => rounded_magnitude(bits),
    }
}

} // verus!
