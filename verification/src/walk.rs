use vstd::prelude::*;

use crate::rate::{Rate, RATE_DENOM};
use crate::rng::{rng_range_i64, rng_range_u64};
use vstd::arithmetic::div_mod::{lemma_div_is_ordered, lemma_div_multiples_vanish, lemma_div_pos_is_pos};
use vstd::arithmetic::mul::{lemma_mul_inequality, lemma_mul_nonnegative};

verus! {

/// `v` clamped into `[lo, hi]`.
pub open spec fn clamp_int(v: int, lo: int, hi: int) -> int {
    if v < lo {
        lo
    } else if v > hi {
        hi
    } else {
        v
    }
}

/// Width of the sampling window: the span scaled by the rate, rounded down.
pub open spec fn walk_width(span: int, num: int) -> int {
    span * num / (RATE_DENOM as int)
}

/// Floor half of the window, placed below the current value.
pub open spec fn walk_half_low(width: int) -> int {
    width / 2
}

/// Ceiling half of the window, placed above the current value,
/// so that the two halves sum exactly to the width.
pub open spec fn walk_half_high(width: int) -> int {
    width / 2 + width % 2
}

/// Lower end of the sampling window around the clamped current value.
pub open spec fn walk_lo(value: int, min: int, max: int, width: int) -> int {
    let v: int = clamp_int(value, min, max);
    if v - min <= walk_half_low(width) {
        min
    } else if max - v <= walk_half_high(width) {
        max - width
    } else {
        v - walk_half_low(width)
    }
}

/// Upper end of the sampling window around the clamped current value.
pub open spec fn walk_hi(value: int, min: int, max: int, width: int) -> int {
    let v: int = clamp_int(value, min, max);
    if v - min <= walk_half_low(width) {
        min + width
    } else if max - v <= walk_half_high(width) {
        max
    } else {
        v + walk_half_high(width)
    }
}

/// The scaled window width never exceeds the span and is never negative.
pub(crate) proof fn lemma_walk_width_bounds(span: int, num: int)
    requires
        0 <= span,
        0 <= num <= RATE_DENOM,
    ensures
        0 <= walk_width(span, num) <= span,
        num == 0 ==> walk_width(span, num) == 0,
{
    let den: int = RATE_DENOM as int;
    lemma_mul_nonnegative(span, num);
    lemma_div_pos_is_pos(span * num, den);
    lemma_mul_inequality(num, den, span);
    assert(span * num <= den * span) by {
        assert(num * span <= den * span);
    }
    lemma_div_is_ordered(span * num, den * span, den);
    lemma_div_multiples_vanish(span, den);
}

/// The window lies inside `[min, max]`, contains the clamped value's
/// neighbourhood, and collapses onto the clamped value when the width is zero.
proof fn lemma_walk_window_in_bounds(value: int, min: int, max: int, width: int)
    requires
        min <= max,
        0 <= width <= max - min,
    ensures
        min <= walk_lo(value, min, max, width),
        walk_lo(value, min, max, width) <= walk_hi(value, min, max, width),
        walk_hi(value, min, max, width) <= max,
        width == 0 ==> walk_lo(value, min, max, width) == clamp_int(value, min, max)
            && walk_hi(value, min, max, width) == clamp_int(value, min, max),
{
}

/// Draws a replacement for `value` from a window of width
/// `walk_width(max - min, rate.num)` centred on the clamped current value and
/// intersected with `[min, max]`.
pub fn uniform_walk_i64(value: i64, min: i64, max: i64, rate: Rate, rng: &mut rand::rngs::StdRng) -> (r: i64)
    requires
        min <= max,
        rate.wf(),
    ensures
        min <= r <= max,
        walk_lo(value as int, min as int, max as int, walk_width(max - min, rate.num as int)) <= r,
        r <= walk_hi(value as int, min as int, max as int, walk_width(max - min, rate.num as int)),
        rate.is_zero() ==> r == clamp_int(value as int, min as int, max as int),
{
    let ghost span: int = max - min;
    let ghost gwidth: int = walk_width(span, rate.num as int);
    let span_u: u128 = (max as i128 - min as i128) as u128;
    proof {
        lemma_walk_width_bounds(span, rate.num as int);
        assert((span_u as int) * (rate.num as int) <= (0xffff_ffff_ffff_ffffu64 as int) * (
        RATE_DENOM as int)) by (nonlinear_arith)
            requires
                span_u <= 0xffff_ffff_ffff_ffffu64 as u128,
                rate.num <= RATE_DENOM,
        ;
    }
    let width: u64 = ((span_u * (rate.num as u128)) / (RATE_DENOM as u128)) as u64;
    proof {
        assert(width == gwidth);
        lemma_walk_window_in_bounds(value as int, min as int, max as int, gwidth);
    }
    let half_low: u64 = width / 2;
    let half_high: u64 = width / 2 + width % 2;

    let v: i64 = if value < min {
        min
    } else if value > max {
        max
    } else {
        value
    };

    let lo: i64;
    let hi: i64;
    if (v as i128 - min as i128) <= half_low as i128 {
        lo = min;
        hi = (min as i128 + width as i128) as i64;
    } else if (max as i128 - v as i128) <= half_high as i128 {
        lo = (max as i128 - width as i128) as i64;
        hi = max;
    } else {
        lo = (v as i128 - half_low as i128) as i64;
        hi = (v as i128 + half_high as i128) as i64;
    }
    rng_range_i64(rng, lo, hi)
}

/// Unsigned counterpart of `uniform_walk_i64`, with the same window rules.
pub fn uniform_walk_u64(value: u64, min: u64, max: u64, rate: Rate, rng: &mut rand::rngs::StdRng) -> (r: u64)
    requires
        min <= max,
        rate.wf(),
    ensures
        min <= r <= max,
        walk_lo(value as int, min as int, max as int, walk_width(max - min, rate.num as int)) <= r,
        r <= walk_hi(value as int, min as int, max as int, walk_width(max - min, rate.num as int)),
        rate.is_zero() ==> r == clamp_int(value as int, min as int, max as int),
{
    let ghost span: int = max - min;
    let ghost gwidth: int = walk_width(span, rate.num as int);
    let span_u: u128 = (max - min) as u128;
    proof {
        lemma_walk_width_bounds(span, rate.num as int);
        assert((span_u as int) * (rate.num as int) <= (0xffff_ffff_ffff_ffffu64 as int) * (
        RATE_DENOM as int)) by (nonlinear_arith)
            requires
                span_u <= 0xffff_ffff_ffff_ffffu64 as u128,
                rate.num <= RATE_DENOM,
        ;
    }
    let width: u64 = ((span_u * (rate.num as u128)) / (RATE_DENOM as u128)) as u64;
    proof {
        assert(width == gwidth);
        lemma_walk_window_in_bounds(value as int, min as int, max as int, gwidth);
    }
    let half_low: u64 = width / 2;
    let half_high: u64 = width / 2 + width % 2;

    let v: u64 = if value < min {
        min
    } else if value > max {
        max
    } else {
        value
    };

    let lo: u64;
    let hi: u64;
    if v - min <= half_low {
        lo = min;
        hi = ((min as u128 + width as u128) as u64);
    } else if max - v <= half_high {
        lo = max - width;
        hi = max;
    } else {
        lo = v - half_low;
        hi = ((v as u128 + half_high as u128) as u64);
    }
    rng_range_u64(rng, lo, hi)
}

} // verus!
