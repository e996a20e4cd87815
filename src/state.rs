use vstd::prelude::*;
use crate::budget::{
    period_of, sat_sub, target_period, sleep_needed, actual_render_time, estimated_sleep,
};

verus! {

/// Frames per second when the caller names no rate.
pub const DEFAULT_TARGET_RATE: u64 = 60;

/// Pad added to the estimated render cost when the caller names none: half a millisecond.
pub const DEFAULT_SAFETY_MARGIN: u64 = 500_000;

/// What a pacing state holds, as plain numbers: instants and durations in nanoseconds.
pub ghost struct PacingModel {
    pub enabled: bool,
    pub target_rate: nat,
    pub safety_margin: nat,
    pub exact_checkpoint: nat,
    pub frame_checkpoint: nat,
    pub last_exact_sleep: nat,
}

impl PacingModel {
    /// The frame budget.
    pub open spec fn period(self) -> nat {
        period_of(self.target_rate)
    }

    /// What the exact limiter sleeps when it starts at `now`.
    pub open spec fn exact_request(self, now: nat) -> nat {
        if self.enabled {
            sat_sub(self.period() as int, sat_sub(now as int, self.exact_checkpoint as int) as int)
        } else {
            0
        }
    }

    /// The render work measured by the forward estimator when it starts at
    /// `render_end`: its window less the exact limiter's sleep.
    pub open spec fn render_time(self, render_end: nat) -> nat {
        sat_sub(
            sat_sub(render_end as int, self.frame_checkpoint as int) as int,
            self.last_exact_sleep as int,
        )
    }

    /// The pre-sleep that the forward estimator predicts at `render_end`.
    pub open spec fn forward_estimate(self, render_end: nat) -> nat {
        sat_sub(self.period() as int, (self.render_time(render_end) + self.safety_margin) as int)
    }

    /// What the forward estimator sleeps when it starts at `render_end`.
    pub open spec fn forward_request(self, render_end: nat) -> nat {
        if self.enabled {
            self.forward_estimate(render_end)
        } else {
            0
        }
    }

    /// The state after an exact limiter that started at `start` and was done at `end`.
    pub open spec fn after_exact(self, start: nat, end: nat) -> PacingModel {
        PacingModel { exact_checkpoint: end, last_exact_sleep: sat_sub(end as int, start as int), ..self }
    }

    /// The state after a forward estimator that was done at `end`.
    pub open spec fn after_forward(self, end: nat) -> PacingModel {
        PacingModel { frame_checkpoint: end, ..self }
    }
}

/// The one configuration error: a rate of zero frames per second has no period.
#[derive(Debug, Clone, Copy, PartialEq, Eq, Structural)]
pub enum ConfigError {
    ZeroTargetRate,
}

/// The timing state shared by the two pacing stages of a render loop.
#[derive(Debug, Clone, Copy)]
pub struct PacingState {
    enabled: bool,
    target_rate: u64,
    safety_margin: u64,
    exact_checkpoint: u64,
    frame_checkpoint: u64,
    last_exact_sleep: u64,
}

impl View for PacingState {
    type V = PacingModel;

    closed spec fn view(&self) -> PacingModel {
        PacingModel {
            enabled: self.enabled,
            target_rate: self.target_rate as nat,
            safety_margin: self.safety_margin as nat,
            exact_checkpoint: self.exact_checkpoint as nat,
            frame_checkpoint: self.frame_checkpoint as nat,
            last_exact_sleep: self.last_exact_sleep as nat,
        }
    }
}

impl PacingState {
    #[verifier::type_invariant]
    spec fn rate_is_positive(&self) -> bool {
        self.target_rate > 0
    }

    /// A state whose two checkpoints stand at `now`, with nothing slept yet.
    /// A rate of zero is refused.
    pub fn new(target_rate: u64, safety_margin: u64, enabled: bool, now: u64) -> (r: Result<
        PacingState,
        ConfigError,
    >)
        ensures
            r is Err <==> target_rate == 0,
            r matches Err(e) ==> e == ConfigError::ZeroTargetRate,
            r matches Ok(s) ==> s@ == (PacingModel {
                enabled,
                target_rate: target_rate as nat,
                safety_margin: safety_margin as nat,
                exact_checkpoint: now as nat,
                frame_checkpoint: now as nat,
                last_exact_sleep: 0,
            }),
    {
        if target_rate == 0 {
            return Err(ConfigError::ZeroTargetRate);
        }
        Ok(PacingState {
            enabled,
            target_rate,
            safety_margin,
            exact_checkpoint: now,
            frame_checkpoint: now,
            last_exact_sleep: 0,
        })
    }

    /// An enabled state at sixty frames per second with a half-millisecond margin.
    pub fn with_defaults(now: u64) -> (r: PacingState)
        ensures
            r@ == (PacingModel {
                enabled: true,
                target_rate: DEFAULT_TARGET_RATE as nat,
                safety_margin: DEFAULT_SAFETY_MARGIN as nat,
                exact_checkpoint: now as nat,
                frame_checkpoint: now as nat,
                last_exact_sleep: 0,
            }),
    {
        PacingState {
            enabled: true,
            target_rate: DEFAULT_TARGET_RATE,
            safety_margin: DEFAULT_SAFETY_MARGIN,
            exact_checkpoint: now,
            frame_checkpoint: now,
            last_exact_sleep: 0,
        }
    }

    /// Whether the stages sleep.
    pub fn enabled(&self) -> (r: bool)
        ensures
            r == self@.enabled,
    {
        self.enabled
    }

    /// Frames per second aimed at; never zero.
    pub fn target_rate(&self) -> (r: u64)
        ensures
            r == self@.target_rate,
            r > 0,
    {
        proof {
            use_type_invariant(self);
        }
        self.target_rate
    }

    /// The pad added to the estimated render cost, in nanoseconds.
    pub fn safety_margin(&self) -> (r: u64)
        ensures
            r == self@.safety_margin,
    {
        self.safety_margin
    }

    /// When the exact limiter was last done.
    pub fn exact_checkpoint(&self) -> (r: u64)
        ensures
            r == self@.exact_checkpoint,
    {
        self.exact_checkpoint
    }

    /// When the forward estimator was last done.
    pub fn frame_checkpoint(&self) -> (r: u64)
        ensures
            r == self@.frame_checkpoint,
    {
        self.frame_checkpoint
    }

    /// How long the last exact limiter slept, as the clock measured it.
    pub fn last_exact_sleep(&self) -> (r: u64)
        ensures
            r == self@.last_exact_sleep,
    {
        self.last_exact_sleep
    }

    /// The frame budget in nanoseconds.
    pub fn target_period(&self) -> (r: u64)
        ensures
            r == self@.period(),
            self@.target_rate > 0,
    {
        proof {
            use_type_invariant(self);
        }
        target_period(self.target_rate)
    }

    /// Turns sleeping on or off; the checkpoints go on advancing either way.
    pub fn set_enabled(&mut self, enabled: bool)
        ensures
            final(self)@ == (PacingModel { enabled, ..old(self)@ }),
    {
        proof {
            use_type_invariant(&*self);
        }
        self.enabled = enabled;
    }

    /// The first half of the exact limiter, at `now`: how long to sleep so
    /// that a full period separates this completion from the last one. Zero
    /// when disabled or when the frame already overran.
    pub fn exact_limiter_sleep(&self, now: u64) -> (r: u64)
        ensures
            r == self@.exact_request(now as nat),
            r <= self@.period(),
            !self@.enabled ==> r == 0,
    {
        if !self.enabled {
            return 0;
        }
        let period = self.target_period();
        let elapsed = now.saturating_sub(self.exact_checkpoint);
        sleep_needed(period, elapsed)
    }

    /// The second half of the exact limiter: it started at `start` and, its
    /// sleep over, was done at `now`. The checkpoint moves to `now`, and the
    /// time between the two is kept as the sleep that the forward estimator
    /// takes out of its window.
    pub fn finish_exact_limiter(&mut self, start: u64, now: u64)
        ensures
            final(self)@ == old(self)@.after_exact(start as nat, now as nat),
    {
        proof {
            use_type_invariant(&*self);
        }
        self.exact_checkpoint = now;
        self.last_exact_sleep = now.saturating_sub(start);
    }

    /// The pre-sleep that the forward estimator predicts at `render_end`,
    /// whether or not sleeping is enabled: the period less the last frame's
    /// render work and the margin, or zero where they fill it.
    pub fn forward_estimate(&self, render_end: u64) -> (r: u64)
        ensures
            r == self@.forward_estimate(render_end as nat),
            r <= self@.period(),
    {
        let period = self.target_period();
        let raw_frametime = render_end.saturating_sub(self.frame_checkpoint);
        let render_time = actual_render_time(raw_frametime, self.last_exact_sleep);
        estimated_sleep(period, render_time, self.safety_margin)
    }

    /// The first half of the forward estimator, at `render_end`: how long to
    /// sleep before the next frame's work begins. Zero when disabled.
    pub fn forward_estimator_sleep(&self, render_end: u64) -> (r: u64)
        ensures
            r == self@.forward_request(render_end as nat),
            r <= self@.period(),
            !self@.enabled ==> r == 0,
    {
        if !self.enabled {
            return 0;
        }
        self.forward_estimate(render_end)
    }

    /// The second half of the forward estimator: the next window starts at `now`.
    pub fn finish_forward_estimator(&mut self, now: u64)
        ensures
            final(self)@ == old(self)@.after_forward(now as nat),
    {
        proof {
            use_type_invariant(&*self);
        }
        self.frame_checkpoint = now;
    }
}

} // verus!
