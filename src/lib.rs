//! Frame pacing for a render loop: an exact limiter that enforces a minimum
//! spacing between frames, and a forward estimator that sleeps ahead of the
//! next frame by the headroom that the last frame's render cost leaves.
//!
//! Instants are nanoseconds since an origin that the caller chooses; durations
//! are nanoseconds. Reading the clock and sleeping are left to the caller: each
//! stage is split into a step that says how long to sleep and a step that
//! records what the clock read afterwards.
mod budget;
mod state;
mod laws;

pub use budget::{
    period_of, sat_sub, target_period, sleep_needed, actual_render_time, estimated_sleep,
};
pub use state::{PacingModel, PacingState, ConfigError, DEFAULT_TARGET_RATE, DEFAULT_SAFETY_MARGIN};
pub use laws::{
    lemma_rate_ceiling, lemma_no_debt, lemma_disabled_is_inert, lemma_saturating_render_time,
};

