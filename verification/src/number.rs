//! Single-precision numbers as bit patterns, and the two things the library
//! computes from them: a channel of a color from a number between zero and
//! one, and the blend of two channels.
//!
//! A bit pattern holds a sign, eight bits of exponent and twenty-three bits
//! of fraction. A pattern whose exponent is neither 0 nor 255 stands for
//! `(2^23 + fraction) * 2^(exponent - 150)`, one whose exponent is 0 for
//! `fraction * 2^-149`.

use vstd::arithmetic::power2::{lemma_pow2_pos, lemma_pow2_strictly_increases, lemma_pow2_unfold, pow2};
use vstd::prelude::*;

verus! {

/// The bit pattern of the number one.
pub const ONE: u32 = 0x3F80_0000;

/// Whether the sign bit is set.
pub open spec fn is_negative(bits: u32) -> bool {
    bits >= 0x8000_0000
}

/// The exponent field.
pub open spec fn exponent_of(bits: u32) -> int {
    (bits as int / 0x80_0000) % 0x100
}

/// The fraction field.
pub open spec fn fraction_of(bits: u32) -> int {
    bits as int % 0x80_0000
}

/// Whether the pattern stands for no number.
pub open spec fn is_nan(bits: u32) -> bool {
    exponent_of(bits) == 255 && fraction_of(bits) != 0
}

/// The numerator of the number that a pattern below one stands for.
pub open spec fn mantissa_of(bits: u32) -> int {
    if exponent_of(bits) == 0 {
        fraction_of(bits)
    } else {
        fraction_of(bits) + 0x80_0000
    }
}

/// The power of two that divides the numerator of a pattern below one.
pub open spec fn shift_of(bits: u32) -> nat {
    if exponent_of(bits) == 0 {
        149
    } else {
        (150 - exponent_of(bits)) as nat
    }
}

/// The channel that a number stands for: the whole part of 255 times the
/// number, kept between 0 and 255. What is no number gives 0.
pub open spec fn channel_of(bits: u32) -> int {
    if is_nan(bits) || is_negative(bits) {
        0
    } else if exponent_of(bits) >= 127 {
        255
    } else {
        (255 * mantissa_of(bits)) / (pow2(shift_of(bits)) as int)
    }
}

/// The power of two with the exponent `shift`.
fn power_of_two(shift: u32) -> (power: u64)
    requires
        shift <= 32,
    ensures
        power == pow2(shift as nat),
        1 <= power <= 0x1_0000_0000,
{
    let mut power: u64 = 1;
    let mut i: u32 = 0;
    proof {
        vstd::arithmetic::power2::lemma2_to64();
    }
    while i < shift
        invariant
            i <= shift <= 32,
            power == pow2(i as nat),
            1 <= power <= pow2(32),
            pow2(32) == 0x1_0000_0000,
        decreases shift - i,
    {
        proof {
            lemma_pow2_unfold((i + 1) as nat);
            if i + 1 < 32 {
                lemma_pow2_strictly_increases((i + 1) as nat, 32);
            }
        }
        power = power * 2;
        i += 1;
    }
    power
}

/// The channel that a number stands for, from its bit pattern.
pub fn unit_to_byte(bits: u32) -> (channel: u8)
    ensures
        channel == channel_of(bits),
{
    let exponent: u32 = (bits / 0x80_0000) % 0x100;
    let fraction: u32 = bits % 0x80_0000;
    if (exponent == 255 && fraction != 0) || bits >= 0x8000_0000 {
        return 0;
    }
    if exponent >= 127 {
        return 255;
    }
    let mantissa: u64 = if exponent == 0 {
        fraction as u64
    } else {
        fraction as u64 + 0x80_0000
    };
    let shift: u32 = if exponent == 0 {
        149
    } else {
        150 - exponent
    };
    let scaled: u64 = 255 * mantissa;
    if shift > 32 {
        proof {
            vstd::arithmetic::power2::lemma2_to64();
            lemma_pow2_strictly_increases(32, shift as nat);
            let power = pow2(shift as nat) as int;
            assert(scaled < power);
            assert(scaled as int / power == 0) by (nonlinear_arith)
                requires
                    0 <= scaled < power,
            ;
        }
        return 0;
    }
    let power = power_of_two(shift);
    let channel = scaled / power;
    proof {
        lemma_pow2_pos(24);
        vstd::arithmetic::power2::lemma2_to64();
        if shift > 24 {
            lemma_pow2_strictly_increases(24, shift as nat);
        }
        assert(pow2(24) == 0x100_0000);
        assert(scaled < 255 * 0x100_0000);
        assert(power >= 0x100_0000);
        assert(scaled as int / power as int <= 255) by (nonlinear_arith)
            requires
                0 <= scaled < 255 * 0x100_0000,
                power >= 0x100_0000,
        ;
    }
    channel as u8
}

} // verus!

verus! {

/// A share between nothing and all: `numerator` parts of `2^shift`.
#[derive(Debug, Clone, Copy, PartialEq, Eq)]
pub struct Share {
    pub numerator: u32,
    pub shift: u32,
}

/// The share that a number stands for, kept between zero and one. The share
/// is exact: no rounding takes place. What is no number gives no share at
/// all.
pub open spec fn share_of(bits: u32) -> Share {
    if is_nan(bits) || is_negative(bits) || mantissa_of(bits) == 0 {
        Share { numerator: 0, shift: 0 }
    } else if exponent_of(bits) >= 127 {
        Share { numerator: 1, shift: 0 }
    } else {
        Share { numerator: mantissa_of(bits) as u32, shift: shift_of(bits) as u32 }
    }
}

/// The number of parts that make the whole of a share.
pub open spec fn whole_of(share: Share) -> int {
    pow2(share.shift as nat) as int
}

/// Twice the exact blend of two channels, in parts of the whole: the first
/// channel for the share that is left, the second for the share.
pub open spec fn doubled_blend(x: u8, y: u8, share: Share) -> int {
    2 * (x * (whole_of(share) - share.numerator) + y * share.numerator)
}

/// The blend of two channels: the whole number nearest to
/// `x * (1 - share) + y * share`, the lower one where two are as near.
pub open spec fn blended(x: u8, y: u8, share: Share) -> int {
    (doubled_blend(x, y, share) + whole_of(share) - 1) / (2 * whole_of(share))
}

/// The share of a number lies between nothing and all, and is a share of
/// fewer than `2^24` parts wherever it is neither.
pub proof fn lemma_share_bounds(bits: u32)
    ensures
        share_of(bits).numerator <= whole_of(share_of(bits)),
        share_of(bits).numerator < 0x100_0000,
        share_of(bits).shift == 0 || 24 <= share_of(bits).shift <= 149,
{
    vstd::arithmetic::power2::lemma2_to64();
    let share = share_of(bits);
    if share.shift != 0 {
        assert(fraction_of(bits) < 0x80_0000);
        assert(0 <= exponent_of(bits) < 127);
        if share.shift > 24 {
            lemma_pow2_strictly_increases(24, share.shift as nat);
        }
    }
}

/// No share of the second channel leaves the first.
pub proof fn lemma_blend_with_nothing(x: u8, y: u8)
    ensures
        blended(x, y, Share { numerator: 0, shift: 0 }) == x,
{
    vstd::arithmetic::power2::lemma2_to64();
    let share = Share { numerator: 0, shift: 0 };
    assert(whole_of(share) == 1);
    assert(doubled_blend(x, y, share) == 2 * x) by (nonlinear_arith)
        requires
            doubled_blend(x, y, share) == 2 * (x * (1 - 0) + y * 0),
    ;
    lemma_nearest_is_blend(x, y, share, x as int);
}

/// The whole share of the second channel gives the second.
pub proof fn lemma_blend_with_all(x: u8, y: u8)
    ensures
        blended(x, y, Share { numerator: 1, shift: 0 }) == y,
{
    vstd::arithmetic::power2::lemma2_to64();
    let share = Share { numerator: 1, shift: 0 };
    assert(whole_of(share) == 1);
    assert(doubled_blend(x, y, share) == 2 * y) by (nonlinear_arith)
        requires
            doubled_blend(x, y, share) == 2 * (x * (1 - 1) + y * 1),
    ;
    lemma_nearest_is_blend(x, y, share, y as int);
}

/// The blend is a channel, and no whole number is nearer to the exact blend:
/// it lies no more than a half above it and less than a half below.
pub proof fn lemma_blend_is_nearest(x: u8, y: u8, share: Share)
    requires
        share.numerator <= whole_of(share),
    ensures
        0 <= blended(x, y, share) <= 255,
        2 * whole_of(share) * blended(x, y, share) - whole_of(share) < doubled_blend(x, y, share),
        doubled_blend(x, y, share) <= 2 * whole_of(share) * blended(x, y, share) + whole_of(
            share,
        ),
{
    let unit = whole_of(share);
    let n = share.numerator as int;
    let twice = doubled_blend(x, y, share);
    lemma_pow2_pos(share.shift as nat);
    assert(0 <= twice <= 510 * unit) by (nonlinear_arith)
        requires
            twice == 2 * (x * (unit - n) + y * n),
            0 <= n <= unit,
            0 <= x <= 255,
            0 <= y <= 255,
    ;
    let c = (twice + unit - 1) / (2 * unit);
    assert(0 <= c <= 255 && 2 * unit * c <= twice + unit - 1 < 2 * unit * c + 2 * unit)
        by (nonlinear_arith)
        requires
            c == (twice + unit - 1) / (2 * unit),
            unit >= 1,
            0 <= twice <= 510 * unit,
    ;
}

/// The blend is the one whole number that is nearest in this sense.
pub proof fn lemma_nearest_is_blend(x: u8, y: u8, share: Share, c: int)
    requires
        2 * whole_of(share) * c - whole_of(share) < doubled_blend(x, y, share),
        doubled_blend(x, y, share) <= 2 * whole_of(share) * c + whole_of(share),
    ensures
        blended(x, y, share) == c,
{
    let unit = whole_of(share);
    let twice = doubled_blend(x, y, share);
    lemma_pow2_pos(share.shift as nat);
    assert((twice + unit - 1) / (2 * unit) == c) by (nonlinear_arith)
        requires
            unit >= 1,
            2 * unit * c - unit < twice,
            twice <= 2 * unit * c + unit,
    ;
}

/// The share that a number stands for, from its bit pattern.
pub fn share(bits: u32) -> (share: Share)
    ensures
        share == share_of(bits),
{
    let exponent: u32 = (bits / 0x80_0000) % 0x100;
    let fraction: u32 = bits % 0x80_0000;
    if (exponent == 255 && fraction != 0) || bits >= 0x8000_0000 || (exponent == 0 && fraction
        == 0) {
        return Share { numerator: 0, shift: 0 };
    }
    if exponent >= 127 {
        return Share { numerator: 1, shift: 0 };
    }
    if exponent == 0 {
        Share { numerator: fraction, shift: 149 }
    } else {
        Share { numerator: fraction + 0x80_0000, shift: 150 - exponent }
    }
}

/// The blend of two channels by the share that a number stands for.
pub fn blend(x: u8, y: u8, bits: u32) -> (channel: u8)
    ensures
        channel == blended(x, y, share_of(bits)),
{
    let part = share(bits);
    proof {
        lemma_share_bounds(bits);
        lemma_pow2_pos(part.shift as nat);
        vstd::arithmetic::power2::lemma2_to64();
    }
    if part.shift > 32 {
        proof {
            let unit = whole_of(part);
            let n = part.numerator as int;
            vstd::arithmetic::power2::lemma2_to64_rest();
            if part.shift > 33 {
                lemma_pow2_strictly_increases(33, part.shift as nat);
            }
            assert(unit >= 0x2_0000_0000);
            let drift = (y - x) * n;
            assert(-255 * 0x100_0000 <= drift <= 255 * 0x100_0000) by (nonlinear_arith)
                requires
                    drift == (y - x) * n,
                    0 <= n < 0x100_0000,
                    0 <= x <= 255,
                    0 <= y <= 255,
            ;
            assert(doubled_blend(x, y, part) == 2 * unit * x + 2 * drift) by (nonlinear_arith)
                requires
                    doubled_blend(x, y, part) == 2 * (x * (unit - n) + y * n),
                    drift == (y - x) * n,
            ;
            lemma_nearest_is_blend(x, y, part, x as int);
        }
        return x;
    }
    let unit: u64 = power_of_two(part.shift);
    let n: u64 = part.numerator as u64;
    assert(n <= unit);
    assert(x as u64 * (unit - n) <= 255 * 0x1_0000_0000) by (nonlinear_arith)
        requires
            0 <= x <= 255,
            0 <= n <= unit <= 0x1_0000_0000,
    ;
    assert(y as u64 * n <= 255 * 0x1_0000_0000) by (nonlinear_arith)
        requires
            0 <= y <= 255,
            0 <= n <= 0x1_0000_0000,
    ;
    let twice: u64 = 2 * (x as u64 * (unit - n) + y as u64 * n);
    let channel: u64 = (twice + unit - 1) / (2 * unit);
    proof {
        lemma_blend_is_nearest(x, y, part);
    }
    channel as u8
}

} // verus!
