//! Jittered exponential backoff delays, in nanoseconds, for retry loops.
//!
//! A [`Backoff`] hands out the next delay to wait before retrying a failing
//! operation. The first delay is the configured initial one; every later delay
//! is drawn uniformly from a range whose ceiling grows by a multiplier over the
//! previous delay, never zero, and clamped to a maximum. Nothing here sleeps.
//! Multipliers are fixed-point numbers in millionths: `MULTIPLIER_ONE` is 1.0.

mod backoff;
mod builder;
mod jitter;
mod laws;

pub use backoff::{
    advanced_by, count_after, next_ceiling, or_default, Backoff, BackoffState,
    DEFAULT_INITIAL_NS, DEFAULT_MAX_NS, DEFAULT_MULTIPLIER, SEED_LAST_NS,
};
pub use builder::{BackoffBuilder, BackoffSettings};
pub use jitter::{ceiling_of, clamp_draw, clamped_of, jitter_ceiling, MULTIPLIER_ONE};
pub use laws::{
    lemma_defaults_settle, lemma_first_delay_of_default, lemma_iterations_count_steps,
    lemma_second_step_grows_from_seed, lemma_unit_multiplier_bounded,
};
