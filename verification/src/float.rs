//! Single-precision numbers by their bit patterns.
//!
//! Values that go to the driver unchanged travel as the 32 bits of their IEEE
//! 754 representation. What has to be decided about them is decided on those
//! bits, with integer arithmetic.

use vstd::arithmetic::power2;
use vstd::bits;
use vstd::prelude::*;

verus! {

/// The sign bit.
pub open spec fn sign_bit(bits: u32) -> bool {
    bits >= 0x8000_0000
}

/// The bits without the sign.
pub open spec fn magnitude_bits(bits: u32) -> u32 {
    (if sign_bit(bits) {
        bits - 0x8000_0000
    } else {
        bits as int
    }) as u32
}

/// The biased exponent.
pub open spec fn exponent_bits(bits: u32) -> int {
    magnitude_bits(bits) as int / 0x80_0000
}

/// The fraction.
pub open spec fn fraction_bits(bits: u32) -> int {
    magnitude_bits(bits) as int % 0x80_0000
}

/// Whether the number is zero, of either sign.
pub open spec fn spec_is_zero(bits: u32) -> bool {
    magnitude_bits(bits) == 0
}

/// Whether the pattern stands for a number: neither an infinity nor a NaN.
pub open spec fn spec_is_finite(bits: u32) -> bool {
    exponent_bits(bits) < 255
}

/// Whether the number is below zero. A NaN is not, and neither is minus zero.
pub open spec fn spec_is_negative(bits: u32) -> bool {
    sign_bit(bits) && 0 < magnitude_bits(bits) <= 0x7f80_0000
}

/// The whole part of a number that is finite and not negative, cut off at the
/// largest `u32`.
pub open spec fn spec_to_u32(bits: u32) -> u32 {
    let exponent = exponent_bits(bits) - 127;
    let significand = fraction_bits(bits) + 0x80_0000;
    if exponent < 0 {
        0
    } else if exponent >= 32 {
        u32::MAX
    } else if exponent <= 23 {
        (significand / power2::pow2((23 - exponent) as nat) as int) as u32
    } else {
        (significand * power2::pow2((exponent - 23) as nat)) as u32
    }
}

fn magnitude(bits: u32) -> (result: u32)
    ensures
        result == magnitude_bits(bits),
        result < 0x8000_0000,
{
    if bits >= 0x8000_0000 {
        bits - 0x8000_0000
    } else {
        bits
    }
}

pub fn is_zero(bits: u32) -> (result: bool)
    ensures
        result == spec_is_zero(bits),
{
    magnitude(bits) == 0
}

pub fn is_finite(bits: u32) -> (result: bool)
    ensures
        result == spec_is_finite(bits),
{
    magnitude(bits) / 0x80_0000 < 255
}

pub fn is_negative(bits: u32) -> (result: bool)
    ensures
        result == spec_is_negative(bits),
{
    let rest: u32 = magnitude(bits);
    bits >= 0x8000_0000 && 0 < rest && rest <= 0x7f80_0000
}

/// The whole part of a number.
pub fn to_u32(bits: u32) -> (result: u32)
    requires
        spec_is_finite(bits),
        !spec_is_negative(bits),
    ensures
        result == spec_to_u32(bits),
{
    let rest: u32 = magnitude(bits);
    let exponent: u32 = rest / 0x80_0000;
    let significand: u32 = rest % 0x80_0000 + 0x80_0000;
    if exponent < 127 {
        0
    } else if exponent >= 159 {
        u32::MAX
    } else if exponent <= 150 {
        let shift: u32 = 150 - exponent;
        proof {
            bits::lemma_u32_shr_is_div(significand, shift);
        }
        significand >> shift
    } else {
        let shift: u32 = exponent - 150;
        let wide: u64 = significand as u64;
        proof {
            power2::lemma2_to64();
            if shift < 8 {
                power2::lemma_pow2_strictly_increases(shift as nat, 8);
            }
            assert(significand * power2::pow2(shift as nat) < 0x1_0000_0000) by (nonlinear_arith)
                requires
                    significand < 0x100_0000,
                    power2::pow2(shift as nat) <= 256,
            ;
            bits::lemma_u64_shl_is_mul(wide, shift as u64);
        }
        let moved: u64 = wide << (shift as u64);
        moved as u32
    }
}

/// The exponent of the highest power of two that is not above the number.
pub open spec fn floor_log2(value: int) -> int
    decreases value,
{
    if value <= 1 {
        0
    } else {
        floor_log2(value / 2) + 1
    }
}

/// The pattern of a whole number from one to 65535.
pub open spec fn whole_number_bits(value: u16) -> u32 {
    let exponent = floor_log2(value as int);
    ((127 + exponent) * 0x80_0000 + (value - power2::pow2(exponent as nat)) * power2::pow2(
        (23 - exponent) as nat,
    )) as u32
}

proof fn lemma_floor_log2(value: int)
    requires
        1 <= value,
    ensures
        0 <= floor_log2(value),
        power2::pow2(floor_log2(value) as nat) <= value < 2 * power2::pow2(floor_log2(value) as nat),
    decreases value,
{
    power2::lemma2_to64();
    if value > 1 {
        lemma_floor_log2(value / 2);
        power2::lemma_pow2_unfold(floor_log2(value) as nat);
    }
}

proof fn lemma_floor_log2_is(value: int, exponent: int)
    requires
        1 <= value,
        0 <= exponent,
        power2::pow2(exponent as nat) <= value < 2 * power2::pow2(exponent as nat),
    ensures
        floor_log2(value) == exponent,
{
    lemma_floor_log2(value);
    let found = floor_log2(value);
    power2::lemma_pow2_unfold((found + 1) as nat);
    power2::lemma_pow2_unfold((exponent + 1) as nat);
    if found < exponent {
        if found + 1 < exponent {
            power2::lemma_pow2_strictly_increases((found + 1) as nat, exponent as nat);
        }
    }
    if exponent < found {
        if exponent + 1 < found {
            power2::lemma_pow2_strictly_increases((exponent + 1) as nat, found as nat);
        }
    }
}

/// The pattern of a whole number.
pub fn from_u16(value: u16) -> (result: u32)
    requires
        value >= 1,
    ensures
        result == whole_number_bits(value),
{
    let mut exponent: u32 = 0;
    let mut power: u32 = 1;
    proof {
        power2::lemma2_to64();
    }
    while power <= value as u32 / 2
        invariant
            1 <= value,
            exponent <= 15,
            power == power2::pow2(exponent as nat),
            power <= value,
        decreases value as u32 - power,
    {
        proof {
            power2::lemma_pow2_unfold((exponent + 1) as nat);
            power2::lemma2_to64();
            if exponent >= 15 {
                assert(power == 32768);
            }
        }
        power = power * 2;
        exponent += 1;
    }
    proof {
        lemma_floor_log2_is(value as int, exponent as int);
        power2::lemma2_to64();
        if exponent > 15 {
            power2::lemma_pow2_strictly_increases(15, exponent as nat);
        }
    }
    // The two factors together make two to the 23.
    let mut rest: u64 = (value as u32 - power) as u64;
    let mut left: u32 = 23 - exponent;
    let ghost whole = rest as int;
    let ghost times = left as nat;
    proof {
        assert(whole * power2::pow2(times) < 0x80_0000) by {
            power2::lemma_pow2_adds(exponent as nat, times);
            assert(whole < power2::pow2(exponent as nat));
            assert(whole * power2::pow2(times) < power2::pow2(exponent as nat) * power2::pow2(times)) by (nonlinear_arith)
                requires
                    whole < power2::pow2(exponent as nat),
                    power2::pow2(times) > 0,
            ;
            assert(power2::pow2(23) == 0x80_0000);
        }
    }
    while left > 0
        invariant
            rest * power2::pow2(left as nat) == whole * power2::pow2(times),
            whole * power2::pow2(times) < 0x80_0000,
            whole >= 0,
        decreases left,
    {
        proof {
            power2::lemma_pow2_unfold(left as nat);
            power2::lemma_pow2_pos((left - 1) as nat);
            assert(rest * power2::pow2(left as nat) == (rest * 2) * power2::pow2((left - 1) as nat))
                by (nonlinear_arith)
                requires
                    power2::pow2(left as nat) == 2 * power2::pow2((left - 1) as nat),
            ;
            assert(rest * 2 <= (rest * 2) * power2::pow2((left - 1) as nat)) by (nonlinear_arith)
                requires
                    power2::pow2((left - 1) as nat) >= 1,
                    rest >= 0,
            ;
        }
        rest = rest * 2;
        left = left - 1;
    }
    proof {
        power2::lemma2_to64();
        assert(rest * power2::pow2(left as nat) == rest) by (nonlinear_arith)
            requires
                power2::pow2(left as nat) == 1,
        ;
    }
    (127 + exponent) * 0x80_0000 + rest as u32
}

/// A whole number that was written as a pattern is read back as the same number.
pub proof fn whole_numbers_are_read_back(value: u16)
    requires
        value >= 1,
    ensures
        spec_to_u32(whole_number_bits(value)) == value,
        spec_is_finite(whole_number_bits(value)),
        !spec_is_negative(whole_number_bits(value)),
        !spec_is_zero(whole_number_bits(value)),
{
    let exponent = floor_log2(value as int);
    lemma_floor_log2(value as int);
    power2::lemma2_to64();
    if exponent > 15 {
        if exponent > 16 {
            power2::lemma_pow2_strictly_increases(16, exponent as nat);
        }
        assert(false);
    }
    let high = power2::pow2(exponent as nat) as int;
    let low = power2::pow2((23 - exponent) as nat) as int;
    power2::lemma_pow2_adds(exponent as nat, (23 - exponent) as nat);
    assert(power2::pow2(23) == 0x80_0000);
    assert(high * low == 0x80_0000);
    power2::lemma_pow2_pos((23 - exponent) as nat);
    let rest = (value - high) * low;
    assert(0 <= rest < 0x80_0000 && rest + 0x80_0000 == value * low) by (nonlinear_arith)
        requires
            high * low == 0x80_0000,
            low > 0,
            high <= value < 2 * high,
            rest == (value - high) * low,
    ;
    let bits = whole_number_bits(value);
    assert(bits == (127 + exponent) * 0x80_0000 + rest);
    assert(bits as int / 0x80_0000 == 127 + exponent);
    assert(bits as int % 0x80_0000 == rest);
    assert((value * low) / low == value) by (nonlinear_arith)
        requires
            low > 0,
    ;
}

} // verus!
