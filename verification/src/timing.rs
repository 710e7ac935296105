//! Timing parameters of the PSRAM chip select, derived from the system clock.

use vstd::prelude::*;
use vstd::arithmetic::div_mod::lemma_div_is_ordered_by_denominator;

verus! {

/// Highest interface frequency that the PSRAM supports, in Hz.
pub const MAX_PSRAM_HZ: u32 = 133_000_000;

/// Interface frequency above which the response needs one more cycle of
/// receive delay, and a divisor of 1 cannot be used.
pub const FAST_SAMPLE_HZ: u32 = 100_000_000;

/// Femtoseconds in one second.
pub const FS_PER_SECOND: u64 = 1_000_000_000_000_000;

/// Longest chip-select assertion, 8 microseconds, in femtoseconds and divided
/// by the 64 system clock cycles that the register counts in.
pub const SELECT_WINDOW_FS: u64 = 125_000_000;

/// Shortest chip deselect, 18 nanoseconds, in femtoseconds.
pub const DESELECT_FS: u64 = 18_000_000;

/// The four values of the chip-select timing register that depend on the
/// system clock, before they are cut to the width of their register fields.
#[derive(Clone, Copy, PartialEq, Eq, Structural, Debug)]
pub struct TimingParams {
    /// System clock cycles per interface clock cycle.
    pub clkdiv: u32,
    /// Receive sample delay.
    pub rxdelay: u32,
    /// Longest chip-select assertion, in units of 64 system clock cycles.
    pub max_select: u8,
    /// Shortest chip deselect, in system clock cycles.
    pub min_deselect: u32,
}

/// `a / b`, rounded up.
pub open spec fn ceil_div(a: int, b: int) -> int {
    (a + b - 1) / b
}

/// Clock divisor: the least one that keeps the interface at or below
/// `MAX_PSRAM_HZ`, but never 1 above `FAST_SAMPLE_HZ`.
pub open spec fn divisor_of(clock_hz: int) -> int {
    let d = ceil_div(clock_hz, MAX_PSRAM_HZ as int);
    if d == 1 && clock_hz > FAST_SAMPLE_HZ {
        2
    } else {
        d
    }
}

/// Receive delay: the divisor, and one more where the divided clock is above
/// `FAST_SAMPLE_HZ`.
pub open spec fn rx_delay_of(clock_hz: int) -> int {
    let d = divisor_of(clock_hz);
    if clock_hz / d > FAST_SAMPLE_HZ {
        d + 1
    } else {
        d
    }
}

/// Period of the system clock in femtoseconds, rounded down.
pub open spec fn period_fs(clock_hz: int) -> int {
    FS_PER_SECOND as int / clock_hz
}

/// Units of 64 clock cycles that fit in the longest chip-select assertion.
pub open spec fn select_units(clock_hz: int) -> int {
    SELECT_WINDOW_FS as int / period_fs(clock_hz)
}

/// `select_units`, cut to eight bits.
pub open spec fn max_select_of(clock_hz: int) -> int {
    select_units(clock_hz) % 256
}

/// Clock cycles that cover the shortest deselect.
pub open spec fn deselect_span(clock_hz: int) -> int {
    ceil_div(DESELECT_FS as int, period_fs(clock_hz))
}

/// Clock cycles of deselect to program: `deselect_span` less the cycles that
/// the divisor already adds.
pub open spec fn min_deselect_of(clock_hz: int) -> int {
    deselect_span(clock_hz) - (divisor_of(clock_hz) + 1) / 2
}

/// The timing parameters that belong to one clock frequency.
pub open spec fn timing_of(clock_hz: u32) -> TimingParams {
    TimingParams {
        clkdiv: divisor_of(clock_hz as int) as u32,
        rxdelay: rx_delay_of(clock_hz as int) as u32,
        max_select: max_select_of(clock_hz as int) as u8,
        min_deselect: min_deselect_of(clock_hz as int) as u32,
    }
}

/// The divisor is at least 1 and at most 33, and it is 1 only at or below
/// `FAST_SAMPLE_HZ`.
pub proof fn lemma_divisor_bounds(clock_hz: u32)
    requires
        clock_hz > 0,
    ensures
        1 <= divisor_of(clock_hz as int) <= 33,
        divisor_of(clock_hz as int) == 1 ==> clock_hz <= FAST_SAMPLE_HZ,
        divisor_of(clock_hz as int) * MAX_PSRAM_HZ >= clock_hz,
{
}

/// The receive delay is the divisor or one more, and it is one more exactly
/// where the divided clock is above `FAST_SAMPLE_HZ`.
pub proof fn lemma_rx_delay_bounds(clock_hz: u32)
    requires
        clock_hz > 0,
    ensures
        rx_delay_of(clock_hz as int) >= divisor_of(clock_hz as int),
        rx_delay_of(clock_hz as int) <= divisor_of(clock_hz as int) + 1,
        rx_delay_of(clock_hz as int) == divisor_of(clock_hz as int) + 1 <==> clock_hz as int
            / divisor_of(clock_hz as int) > FAST_SAMPLE_HZ,
{
}

/// The clock period is between 232830 fs and one second.
pub proof fn lemma_period_bounds(clock_hz: u32)
    requires
        clock_hz > 0,
    ensures
        232_830 <= period_fs(clock_hz as int) <= FS_PER_SECOND,
{
    let c = clock_hz as int;
    lemma_div_is_ordered_by_denominator(FS_PER_SECOND as int, c, 0xffff_ffff);
    lemma_div_is_ordered_by_denominator(FS_PER_SECOND as int, 1, c);
}

/// The deselect span covers the cycles that the divisor takes off it, so
/// `min_deselect_of` is never negative; and it stays below 80.
pub proof fn lemma_min_deselect_bounds(clock_hz: u32)
    requires
        clock_hz > 0,
    ensures
        0 <= min_deselect_of(clock_hz as int) < 80,
{
    let c = clock_hz as int;
    let p = period_fs(c);
    let k = deselect_span(c);
    let d = divisor_of(c);
    let m = (d + 1) / 2;
    lemma_period_bounds(clock_hz);
    lemma_divisor_bounds(clock_hz);
    // k covers the deselect time: k * p >= DESELECT_FS, and k is small.
    assert(k * p >= 18_000_000 && k >= 1 && k < 80) by (nonlinear_arith)
        requires
            k == (18_000_000 + p - 1) / p,
            232_830 <= p,
    ;
    // The period is no longer than a second over the clock.
    assert(p * c <= 1_000_000_000_000_000) by (nonlinear_arith)
        requires
            p == 1_000_000_000_000_000int / c,
            c > 0,
    ;
    if m > k {
        // Then d >= 2k + 1 >= 3, so d is the rounded-up quotient and
        // the clock is above (d - 1) * MAX_PSRAM_HZ >= 2k * MAX_PSRAM_HZ.
        assert(d >= 2 * k + 1);
        assert(c > (d - 1) * 133_000_000);
        assert(c > 266_000_000 * k);
        assert(false) by (nonlinear_arith)
            requires
                c > 266_000_000 * k,
                k * p >= 18_000_000,
                p * c <= 1_000_000_000_000_000,
                k >= 1,
                p >= 1,
        ;
    }
}

/// Derives the four timing parameters from the system clock frequency.
pub fn derive_timing(clock_hz: u32) -> (t: TimingParams)
    requires
        clock_hz > 0,
    ensures
        t == timing_of(clock_hz),
        t.clkdiv == divisor_of(clock_hz as int),
        t.rxdelay == rx_delay_of(clock_hz as int),
        t.max_select == max_select_of(clock_hz as int),
        t.min_deselect == min_deselect_of(clock_hz as int),
        t.clkdiv >= 1,
        t.clkdiv == 1 ==> clock_hz <= FAST_SAMPLE_HZ,
        t.rxdelay >= t.clkdiv,
        t.rxdelay == t.clkdiv + 1 <==> clock_hz as int / t.clkdiv as int > FAST_SAMPLE_HZ,
{
    proof {
        lemma_divisor_bounds(clock_hz);
        lemma_rx_delay_bounds(clock_hz);
        lemma_period_bounds(clock_hz);
        lemma_min_deselect_bounds(clock_hz);
    }
    let clock: u64 = clock_hz as u64;
    let mut divisor: u64 = (clock + (MAX_PSRAM_HZ as u64) - 1) / (MAX_PSRAM_HZ as u64);
    if divisor == 1 && clock_hz > FAST_SAMPLE_HZ {
        divisor = 2;
    }
    let mut rxdelay: u64 = divisor;
    if clock / divisor > FAST_SAMPLE_HZ as u64 {
        rxdelay = rxdelay + 1;
    }
    let period: u64 = FS_PER_SECOND / clock;
    let max_select: u8 = ((SELECT_WINDOW_FS / period) % 256) as u8;
    let span: u64 = (DESELECT_FS + (period - 1)) / period;
    let min_deselect: u64 = span - (divisor + 1) / 2;
    TimingParams {
        clkdiv: divisor as u32,
        rxdelay: rxdelay as u32,
        max_select,
        min_deselect: min_deselect as u32,
    }
}

/// Monotonicity of division in the divisor, for a rounded-up quotient.
proof fn lemma_ceil_div_ordered(a: int, small: int, large: int)
    requires
        a >= 1,
        1 <= small <= large,
    ensures
        ceil_div(a, large) <= ceil_div(a, small),
{
    lemma_div_is_ordered_by_denominator(a - 1, small, large);
    assert((a - 1 + small) / small == (a - 1) / small + 1) by (nonlinear_arith)
        requires
            small >= 1,
    ;
    assert((a - 1 + large) / large == (a - 1) / large + 1) by (nonlinear_arith)
        requires
            large >= 1,
    ;
}

/// A faster clock has a period that is no longer, and so no fewer units fit
/// in the select window and no fewer cycles cover the deselect time. With
/// one divisor for both clocks the same holds of the deselect count that is
/// programmed: seen over the clock period, both counts never grow as the
/// period grows.
pub proof fn lemma_windows_follow_period(slow_hz: u32, fast_hz: u32)
    requires
        0 < slow_hz <= fast_hz,
        divisor_of(slow_hz as int) == divisor_of(fast_hz as int),
    ensures
        period_fs(fast_hz as int) <= period_fs(slow_hz as int),
        select_units(slow_hz as int) <= select_units(fast_hz as int),
        min_deselect_of(slow_hz as int) <= min_deselect_of(fast_hz as int),
        select_units(fast_hz as int) < 256 ==> max_select_of(slow_hz as int) <= max_select_of(
            fast_hz as int,
        ),
{
    let ps = period_fs(slow_hz as int);
    let pf = period_fs(fast_hz as int);
    lemma_period_bounds(slow_hz);
    lemma_period_bounds(fast_hz);
    lemma_div_is_ordered_by_denominator(FS_PER_SECOND as int, slow_hz as int, fast_hz as int);
    lemma_div_is_ordered_by_denominator(SELECT_WINDOW_FS as int, pf, ps);
    lemma_ceil_div_ordered(DESELECT_FS as int, pf, ps);
    assert(select_units(slow_hz as int) >= 0) by (nonlinear_arith)
        requires
            select_units(slow_hz as int) == 125_000_000int / ps,
            ps >= 1,
    ;
}

} // verus!
