//! Properties of the generator that span several steps or a whole
//! configuration, proved over the step relation that `Backoff::pause` and
//! `Backoff::pause_with` guarantee.

use vstd::prelude::*;

use crate::backoff::{
    advanced_by, next_ceiling, or_default, BackoffState, DEFAULT_INITIAL_NS,
    DEFAULT_MAX_NS, DEFAULT_MULTIPLIER, SEED_LAST_NS,
};
use crate::jitter::{ceiling_of, MULTIPLIER_ONE};

verus! {

/// A generator with no initial delay set that has taken no step returns one
/// second from its first step.
pub proof fn lemma_first_delay_of_default(pre: BackoffState, post: BackoffState, draw: u64, r: u64)
    requires
        pre.iterations == 0,
        pre.initial_ns == 0,
        advanced_by(pre, post, draw, r),
    ensures
        r == DEFAULT_INITIAL_NS,
{
}

/// Resolving the settings is idempotent: over two steps, the second finds the
/// settings that the first resolved and keeps them, and unset ones take their
/// defaults.
pub proof fn lemma_defaults_settle(
    s0: BackoffState,
    s1: BackoffState,
    s2: BackoffState,
    d1: u64,
    d2: u64,
    r1: u64,
    r2: u64,
)
    requires
        advanced_by(s0, s1, d1, r1),
        advanced_by(s1, s2, d2, r2),
    ensures
        s2.initial_ns == s1.initial_ns,
        s2.max_ns == s1.max_ns,
        s2.multiplier == s1.multiplier,
        s0.initial_ns == 0 ==> s1.initial_ns == DEFAULT_INITIAL_NS,
        s0.max_ns == 0 ==> s1.max_ns == DEFAULT_MAX_NS,
        s0.multiplier == 0 ==> s1.multiplier == DEFAULT_MULTIPLIER,
{
}

proof fn count_at(states: Seq<BackoffState>, draws: Seq<u64>, results: Seq<u64>, k: int)
    requires
        states.len() == draws.len() + 1,
        results.len() == draws.len(),
        draws.len() <= u64::MAX,
        states[0].iterations == 0,
        forall|i: int|
            0 <= i < draws.len() ==> #[trigger] advanced_by(
                states[i],
                states[i + 1],
                draws[i],
                results[i],
            ),
        0 <= k <= draws.len(),
    ensures
        states[k].iterations == k,
    decreases k,
{
    if k > 0 {
        let j = k - 1;
        count_at(states, draws, results, j);
        assert(advanced_by(states[j], states[j + 1], draws[j], results[j]));
    }
}

/// The call counter counts the steps: along a run of steps from a generator
/// that has taken none, the state after `n` steps has counted `n`.
pub proof fn lemma_iterations_count_steps(
    states: Seq<BackoffState>,
    draws: Seq<u64>,
    results: Seq<u64>,
)
    requires
        states.len() == draws.len() + 1,
        results.len() == draws.len(),
        draws.len() <= u64::MAX,
        states[0].iterations == 0,
        forall|i: int|
            0 <= i < draws.len() ==> #[trigger] advanced_by(
                states[i],
                states[i + 1],
                draws[i],
                results[i],
            ),
    ensures
        forall|k: int| 0 <= k < states.len() ==> #[trigger] states[k].iterations == k,
{
    assert forall|k: int| 0 <= k < states.len() implies #[trigger] states[k].iterations == k by {
        count_at(states, draws, results, k);
    }
}

/// With a multiplier of exactly 1.0, a jittered step never outgrows the
/// previous delay by more than one: it returns a value in `1..=last + 1`.
pub proof fn lemma_unit_multiplier_bounded(
    pre: BackoffState,
    post: BackoffState,
    draw: u64,
    r: u64,
)
    requires
        pre.multiplier == MULTIPLIER_ONE,
        pre.iterations != 0,
        draw <= next_ceiling(pre),
        advanced_by(pre, post, draw, r),
    ensures
        1 <= r,
        r as int <= pre.last as int + 1,
{
    assert(next_ceiling(pre) == pre.last) by {
        assert((pre.last as int * MULTIPLIER_ONE as int) / (MULTIPLIER_ONE as int) == pre.last as int)
            by (nonlinear_arith);
    }
}

/// A generator's first step leaves the seeded previous delay in place, so the
/// second step draws from a range grown from one second, whatever the initial
/// delay.
pub proof fn lemma_second_step_grows_from_seed(
    pre: BackoffState,
    post: BackoffState,
    draw: u64,
    r: u64,
)
    requires
        pre.iterations == 0,
        pre.last == SEED_LAST_NS,
        advanced_by(pre, post, draw, r),
    ensures
        post.iterations == 1,
        post.last == SEED_LAST_NS,
        next_ceiling(post) == ceiling_of(SEED_LAST_NS, or_default(pre.multiplier, DEFAULT_MULTIPLIER)),
{
}

} // verus!
