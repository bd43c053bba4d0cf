//! Time stamps and the pace of the stream.

use vstd::prelude::*;

use crate::binary64::{nearest_even, power_of_two, quotient, Binary64};

verus! {

/// Nanoseconds in a second.
pub const NANOS_PER_SEC: u64 = 1_000_000_000;

/// The time stamp for a number of milliseconds.
pub open spec fn stamp(elapsed_ms: nat) -> nat {
    elapsed_ms % 0x1_0000_0000
}

/// Milliseconds since the clock was started, as Wayland time stamps carry them:
/// 32 bits, wrapping around after some 49 days.
pub fn monotonic_ms(elapsed_ms: u128) -> (ms: u32)
    ensures
        ms == stamp(elapsed_ms as nat),
{
    let ms: u32 = elapsed_ms as u32;
    assert(ms == elapsed_ms % 0x1_0000_0000u128) by (bit_vector)
        requires
            ms == elapsed_ms as u32,
    ;
    ms
}

/// The refresh rate that paces the stream: zero counts as one.
pub open spec fn effective_rate(refresh_rate: u32) -> nat {
    if refresh_rate == 0 { 1 } else { refresh_rate as nat }
}

/// Nanoseconds between two frames: one second over the rate, in double
/// precision, rounded to the nearest nanosecond, a tie going to the even one.
pub open spec fn interval_nanos(refresh_rate: u32) -> nat {
    let rate = effective_rate(refresh_rate);
    crate::binary64::round_half_even(
        crate::binary64::mantissa_of(1, rate) * (NANOS_PER_SEC as nat),
        crate::binary64::pow2(crate::binary64::shift_of(1, rate)),
    )
}

/// The time between two frames at a refresh rate, in nanoseconds.
pub fn frame_interval(refresh_rate: u32) -> (nanos: u64)
    ensures
        nanos == interval_nanos(refresh_rate),
{
    let rate: u32 = if refresh_rate == 0 { 1 } else { refresh_rate };
    let period: Binary64 = quotient(1, rate);
    let unit: u128 = power_of_two(period.shift);
    proof {
        law_interval_is_nearest(refresh_rate);
        let n = interval_nanos(refresh_rate) as int;
        assert(n <= 0x1_0000_0000) by (nonlinear_arith)
            requires
                2 * (n * rate - 1_000_000_000) <= rate,
                rate >= 1,
        ;
        crate::binary64::lemma_pow2_84();
        vstd::arithmetic::power2::lemma_pow2_pos(period.shift as nat);
        if period.shift < 84 {
            vstd::arithmetic::power2::lemma_pow2_strictly_increases(period.shift as nat, 84);
        }
    }
    nearest_even((period.mantissa as u128) * (NANOS_PER_SEC as u128), unit) as u64
}

/// The interval is a nearest whole number of nanoseconds to one second over the
/// rate: frames drift by no more than half a nanosecond each.
pub proof fn law_interval_is_nearest(refresh_rate: u32)
    ensures
        2 * (interval_nanos(refresh_rate) * effective_rate(refresh_rate) - NANOS_PER_SEC) <= effective_rate(
            refresh_rate,
        ),
        2 * (NANOS_PER_SEC - interval_nanos(refresh_rate) * effective_rate(refresh_rate)) <= effective_rate(
            refresh_rate,
        ),
{
    let rate = effective_rate(refresh_rate) as int;
    crate::binary64::lemma_nearest_error(1, rate as nat);
    let m = crate::binary64::mantissa_of(1, rate as nat) as int;
    let u = crate::binary64::pow2(crate::binary64::shift_of(1, rate as nat)) as int;
    let g = NANOS_PER_SEC as int;
    let n = interval_nanos(refresh_rate) as int;
    assert(1 * u == u);
    crate::binary64::lemma_round_half_even_error((m * g) as nat, u as nat);
    let x = n * rate - g;
    // Both roundings over the common denominator `2 * u`.
    assert(2 * (u * (n * rate)) <= 2 * ((m * g) * rate) + u * rate && 2 * ((m * g) * rate) <= 2 * (u * (n * rate))
        + u * rate) by (nonlinear_arith)
        requires
            2 * (n * u) <= 2 * (m * g) + u,
            2 * (m * g) <= 2 * (n * u) + u,
            rate >= 1,
    ;
    assert((m * g) * rate == g * (m * rate)) by (nonlinear_arith);
    assert(u * x == u * (n * rate) - u * g) by (nonlinear_arith)
        requires
            x == n * rate - g,
    ;
    assert(u * g == g * u) by (nonlinear_arith);
    assert(u * (2 * x) == 2 * (u * x)) by (nonlinear_arith);
    assert(u * (-2 * x) == -2 * (u * x)) by (nonlinear_arith);
    assert(g * rate < u);
    lemma_cancel(u, 2 * x, rate, g * rate);
    lemma_cancel(u, -2 * x, rate, g * rate);
}

/// A bound on multiples of `u` that is loose by less than `u` is exact.
proof fn lemma_cancel(u: int, a: int, b: int, slack: int)
    requires
        u > 0,
        u * a <= u * b + slack,
        slack < u,
    ensures
        a <= b,
{
    if a >= b + 1 {
        assert(u * a >= u * b + u) by (nonlinear_arith)
            requires
                u > 0,
                a >= b + 1,
        ;
    }
}

/// The interval is one second over the refresh rate, to the nearest nanosecond: a
/// second of frames is off by no more than half a nanosecond per frame. A rate of
/// zero counts as one.
pub proof fn law_a_second_of_frames(refresh_rate: u32)
    ensures
        ({
            let rate = if refresh_rate == 0 { 1 } else { refresh_rate as int };
            -rate <= 2 * (interval_nanos(refresh_rate) * rate - 1_000_000_000) <= rate
        }),
{
    law_interval_is_nearest(refresh_rate);
}

/// Time stamps count on from each other, starting over at zero after `2^32`.
pub proof fn law_time_stamps_count_on(elapsed_ms: nat)
    ensures
        stamp(0) == 0,
        stamp(elapsed_ms) < 0x1_0000_0000,
        stamp(elapsed_ms + 1) == stamp(elapsed_ms) + 1 || (stamp(elapsed_ms) == 0xffff_ffff && stamp(elapsed_ms + 1)
            == 0),
        elapsed_ms < 0x1_0000_0000 ==> stamp(elapsed_ms) == elapsed_ms,
{
}

} // verus!
