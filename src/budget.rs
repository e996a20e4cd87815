use vstd::prelude::*;

verus! {

/// The spacing between frames, in nanoseconds, for a rate given in frames per second.
pub open spec fn period_of(target_rate: nat) -> nat
    recommends
        target_rate > 0,
{
    (1_000_000nat / target_rate) * 1000
}

/// `a - b`, or zero where `b` is the larger.
pub open spec fn sat_sub(a: int, b: int) -> nat {
    if a > b {
        (a - b) as nat
    } else {
        0
    }
}

/// Nanoseconds between frames at `target_rate` frames per second; the division
/// is made on whole microseconds and truncates.
pub fn target_period(target_rate: u64) -> (r: u64)
    requires
        target_rate > 0,
    ensures
        r == period_of(target_rate as nat),
        r <= 1_000_000_000,
{
    let micros: u64 = 1_000_000u64 / target_rate;
    assert(micros <= 1_000_000) by (nonlinear_arith)
        requires
            micros == 1_000_000u64 / target_rate,
            target_rate > 0,
    ;
    micros * 1000
}

/// How long the exact limiter must sleep so that a full period separates two
/// of its completions, when `elapsed` has passed since the last one. A frame
/// that already overran asks for nothing.
pub fn sleep_needed(target_period: u64, elapsed: u64) -> (r: u64)
    ensures
        r == sat_sub(target_period as int, elapsed as int),
        r <= target_period,
{
    target_period.saturating_sub(elapsed)
}

/// The render work within a frame window of `raw_frametime`: the window less
/// the time that the exact limiter slept in it, and never below zero.
pub fn actual_render_time(raw_frametime: u64, last_exact_sleep: u64) -> (r: u64)
    ensures
        r == sat_sub(raw_frametime as int, last_exact_sleep as int),
        last_exact_sleep >= raw_frametime ==> r == 0,
{
    raw_frametime.saturating_sub(last_exact_sleep)
}

/// The sleep that leaves just enough of the period for the next frame, taken
/// to cost `render_time` plus `safety_margin`; zero where that does not fit.
pub fn estimated_sleep(target_period: u64, render_time: u64, safety_margin: u64) -> (r: u64)
    ensures
        r == sat_sub(target_period as int, render_time + safety_margin),
        r <= target_period,
{
    let cost: u64 = render_time.saturating_add(safety_margin);
    target_period.saturating_sub(cost)
}

} // verus!
