//! Assembly of a generator's settings.

use vstd::prelude::*;

use crate::backoff::{Backoff, BackoffState, SEED_LAST_NS};

verus! {

/// The settings that a builder has gathered; zero means "not set".
pub struct BackoffSettings {
    pub initial_ns: u64,
    pub max_ns: u64,
    pub multiplier: u64,
}

/// Builds an instance of `Backoff`, every setting left unset by default.
pub struct BackoffBuilder {
    initial_ns: u64,
    max_ns: u64,
    multiplier: u64,
}

impl View for BackoffBuilder {
    type V = BackoffSettings;

    closed spec fn view(&self) -> BackoffSettings {
        BackoffSettings {
            initial_ns: self.initial_ns,
            max_ns: self.max_ns,
            multiplier: self.multiplier,
        }
    }
}

impl Default for BackoffBuilder {
    fn default() -> (r: BackoffBuilder)
        ensures
            r@ == (BackoffSettings { initial_ns: 0, max_ns: 0, multiplier: 0 }),
    {
        BackoffBuilder::new()
    }
}

impl BackoffBuilder {
    /// Creates a new `BackoffBuilder` with no setting set.
    pub fn new() -> (r: BackoffBuilder)
        ensures
            r@ == (BackoffSettings { initial_ns: 0, max_ns: 0, multiplier: 0 }),
    {
        BackoffBuilder { initial_ns: 0, max_ns: 0, multiplier: 0 }
    }

    /// Sets the initial backoff time in nanoseconds.
    pub fn initial_ns(self, ns: u64) -> (r: BackoffBuilder)
        ensures
            r@ == (BackoffSettings { initial_ns: ns, ..self@ }),
    {
        BackoffBuilder { initial_ns: ns, ..self }
    }

    /// Sets the maximum backoff time in nanoseconds.
    pub fn max_ns(self, ns: u64) -> (r: BackoffBuilder)
        ensures
            r@ == (BackoffSettings { max_ns: ns, ..self@ }),
    {
        BackoffBuilder { max_ns: ns, ..self }
    }

    /// Sets the multiplier for the next backoff iteration, in millionths
    /// (`MULTIPLIER_ONE` is a factor of 1.0).
    pub fn multiplier(self, v: u64) -> (r: BackoffBuilder)
        ensures
            r@ == (BackoffSettings { multiplier: v, ..self@ }),
    {
        BackoffBuilder { multiplier: v, ..self }
    }

    /// Builds the final `Backoff`: the settings as gathered, a previous delay
    /// of one second whatever the initial delay, and no step taken.
    pub fn build(self) -> (r: Backoff)
        ensures
            r@ == (BackoffState {
                initial_ns: self@.initial_ns,
                max_ns: self@.max_ns,
                multiplier: self@.multiplier,
                last: SEED_LAST_NS,
                iterations: 0,
            }),
    {
        Backoff::seeded(self.initial_ns, self.max_ns, self.multiplier)
    }
}

impl Backoff {
    /// Allows for discovery of the builder.
    pub fn builder() -> (r: BackoffBuilder)
        ensures
            r@ == (BackoffSettings { initial_ns: 0, max_ns: 0, multiplier: 0 }),
    {
        BackoffBuilder::new()
    }
}

} // verus!
