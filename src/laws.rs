use vstd::prelude::*;
use crate::budget::sat_sub;
use crate::state::PacingModel;

verus! {

/// Rate ceiling. With sleeping enabled, a clock that does not run back, and a
/// sleep that lasts at least what was asked, an exact limiter is done a full
/// period or more after the one before it. Where the frame did not overrun,
/// the spacing is the period plus exactly what the sleep overshot.
pub proof fn lemma_rate_ceiling(s: PacingModel, now: nat, done: nat)
    requires
        s.target_rate > 0,
        s.enabled,
        now >= s.exact_checkpoint,
        done >= now + s.exact_request(now),
    ensures
        s.after_exact(now, done).exact_checkpoint >= s.exact_checkpoint + s.period(),
        now <= s.exact_checkpoint + s.period() ==> s.after_exact(now, done).exact_checkpoint
            - s.exact_checkpoint == s.period() + (done - (now + s.exact_request(now))),
{
}

/// No debt. A frame that overran is asked for no sleep, and the next frame's
/// request is judged from that frame's completion alone: it depends neither on
/// the overrun nor on anything before it.
pub proof fn lemma_no_debt(s: PacingModel, now: nat, done: nat, next: nat)
    requires
        s.target_rate > 0,
        now > s.exact_checkpoint + s.period(),
    ensures
        s.exact_request(now) == 0,
        s.after_exact(now, done).exact_request(next) == (if s.enabled {
            sat_sub(s.period() as int, sat_sub(next as int, done as int) as int)
        } else {
            0
        }),
        s.after_exact(now, done).exact_request(next) <= s.period(),
{
}

/// Disabled stages never sleep, stay disabled, and still move their
/// checkpoints to the instant they were done.
pub proof fn lemma_disabled_is_inert(
    s: PacingModel,
    start: nat,
    done: nat,
    render_end: nat,
    frame_done: nat,
)
    requires
        !s.enabled,
    ensures
        s.exact_request(start) == 0,
        s.forward_request(render_end) == 0,
        s.after_exact(start, done).exact_checkpoint == done,
        !s.after_exact(start, done).enabled,
        s.after_forward(frame_done).frame_checkpoint == frame_done,
        !s.after_forward(frame_done).enabled,
{
}

/// Where the recorded exact-limiter sleep is longer than the whole window
/// (a clock anomaly), the measured render work is zero, and the estimate is the
/// period less the margin alone.
pub proof fn lemma_saturating_render_time(s: PacingModel, render_end: nat)
    requires
        s.last_exact_sleep >= render_end - s.frame_checkpoint,
    ensures
        s.render_time(render_end) == 0,
        s.forward_estimate(render_end) == sat_sub(s.period() as int, s.safety_margin as int),
{
}

} // verus!
