//! The delay generator and the model of one step of it.

use vstd::prelude::*;

use crate::jitter::{ceiling_of, clamp_draw, clamped_of, jitter_ceiling, random_at_most};

verus! {

/// Delay of the first step when no initial delay is set: one second.
pub const DEFAULT_INITIAL_NS: u64 = 1_000_000_000;

/// Upper bound of every jittered delay when no maximum is set: thirty seconds.
pub const DEFAULT_MAX_NS: u64 = 30_000_000_000;

/// Growth factor when no multiplier is set: 2.0 in fixed point.
pub const DEFAULT_MULTIPLIER: u64 = 2_000_000;

/// What a new generator holds as its previous delay, whatever its initial
/// delay: one second.
pub const SEED_LAST_NS: u64 = 1_000_000_000;

/// A setting where zero means "not set": the default stands in for it.
pub open spec fn or_default(value: u64, default: u64) -> u64 {
    if value == 0 {
        default
    } else {
        value
    }
}

/// The call counter after one more call; it stops at `u64::MAX`.
pub open spec fn count_after(count: u64) -> u64 {
    if count < u64::MAX {
        (count + 1) as u64
    } else {
        count
    }
}

/// The model of a generator: its three settings as stored (zero meaning "not
/// set" until the first step resolves them), the previous delay, and the
/// number of delays asked for.
pub struct BackoffState {
    pub initial_ns: u64,
    pub max_ns: u64,
    pub multiplier: u64,
    pub last: u64,
    pub iterations: u64,
}

/// Provides jittered backoff values (nanoseconds) for operations that sleep
/// between retries.
pub struct Backoff {
    /// The delay of the first step, in ns; zero stands for one second.
    pub initial_ns: u64,
    /// The largest jittered delay, in ns; zero stands for thirty seconds.
    pub max_ns: u64,
    /// The growth factor in millionths (see `MULTIPLIER_ONE`); zero stands
    /// for 2.0.
    pub multiplier: u64,
    last: u64,
    iter: u64,
}

impl View for Backoff {
    type V = BackoffState;

    closed spec fn view(&self) -> BackoffState {
        BackoffState {
            initial_ns: self.initial_ns,
            max_ns: self.max_ns,
            multiplier: self.multiplier,
            last: self.last,
            iterations: self.iter,
        }
    }
}

/// One step of the generator, from `pre` to `post`, returning `r`, where a
/// jittered step uses the drawn value `draw`: the settings are resolved, the
/// counter moves on, and the first step returns the initial delay while every
/// later one returns the draw moved off zero and clamped to the maximum.
pub open spec fn advanced_by(pre: BackoffState, post: BackoffState, draw: u64, r: u64) -> bool {
    &&& post.initial_ns == or_default(pre.initial_ns, DEFAULT_INITIAL_NS)
    &&& post.max_ns == or_default(pre.max_ns, DEFAULT_MAX_NS)
    &&& post.multiplier == or_default(pre.multiplier, DEFAULT_MULTIPLIER)
    &&& post.iterations == count_after(pre.iterations)
    &&& if pre.iterations == 0 {
        r == post.initial_ns && post.last == pre.last
    } else {
        r == clamped_of(post.max_ns, draw) && post.last == r
    }
}

/// The largest value that the next jittered step of `s` may draw: the
/// previous delay times the resolved multiplier.
pub open spec fn next_ceiling(s: BackoffState) -> u64 {
    ceiling_of(s.last, or_default(s.multiplier, DEFAULT_MULTIPLIER))
}

impl Backoff {
    /// A generator that has not been asked for a delay yet, whose previous
    /// delay is one second whatever its initial delay.
    pub(crate) fn seeded(initial_ns: u64, max_ns: u64, multiplier: u64) -> (r: Backoff)
        ensures
            r@ == (BackoffState {
                initial_ns,
                max_ns,
                multiplier,
                last: SEED_LAST_NS,
                iterations: 0,
            }),
    {
        Backoff { initial_ns, max_ns, multiplier, last: SEED_LAST_NS, iter: 0 }
    }

    /// The largest value that the next jittered step may draw.
    pub fn next_ceiling(&self) -> (r: u64)
        ensures
            r == next_ceiling(self@),
    {
        let multiplier = if self.multiplier == 0 {
            DEFAULT_MULTIPLIER
        } else {
            self.multiplier
        };
        jitter_ceiling(self.last, multiplier)
    }

    /// Returns the next delay in ns, using `draw` as the uniformly drawn value
    /// of a jittered step; `draw` is meant to lie in `0..=self.next_ceiling()`
    /// and is not used by the first step.
    pub fn pause_with(&mut self, draw: u64) -> (r: u64)
        ensures
            advanced_by(old(self)@, final(self)@, draw, r),
    {
        if self.iter < u64::MAX {
            self.iter = self.iter + 1;
        }
        if self.initial_ns == 0 {
            self.initial_ns = DEFAULT_INITIAL_NS;
        }
        if self.max_ns == 0 {
            self.max_ns = DEFAULT_MAX_NS;
        }
        if self.multiplier == 0 {
            self.multiplier = DEFAULT_MULTIPLIER;
        }
        if self.iter == 1 {
            return self.initial_ns;
        }
        self.last = clamp_draw(self.max_ns, draw);
        self.last
    }

    /// Returns the next nanosecond duration that the caller should use to
    /// back off. The first delay is the initial one, unclamped; every later
    /// one is drawn uniformly from `1..=next_ceiling + 1` and clamped to the
    /// maximum.
    pub fn pause(&mut self) -> (r: u64)
        ensures
            exists|draw: u64|
                draw <= next_ceiling(old(self)@) && #[trigger] advanced_by(
                    old(self)@,
                    final(self)@,
                    draw,
                    r,
                ),
            old(self)@.iterations == 0 ==> r == final(self)@.initial_ns,
            old(self)@.iterations != 0 ==> 1 <= r <= final(self)@.max_ns && r as int
                <= next_ceiling(old(self)@) as int + 1,
            old(self)@.iterations != 0 || final(self)@.initial_ns <= final(self)@.max_ns ==> r
                <= final(self)@.max_ns,
    {
        let draw = if self.iter == 0 {
            0
        } else {
            random_at_most(self.next_ceiling())
        };
        self.pause_with(draw)
    }
}

} // verus!
