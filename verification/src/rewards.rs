//! The block reward schedule: a deflationary halving model.
//!
//! The reward starts at fifty GENX and halves every fixed interval of
//! blocks; after sixty-four halvings it is zero for good. Interval and
//! initial reward are named constants of the schedule.

use vstd::prelude::*;

verus! {

/// The reward of the first blocks: fifty GENX with 8 decimal places.
pub const INITIAL_REWARD: u64 = 50 * 100_000_000;

/// The number of blocks between reward halvings.
pub const HALVING_INTERVAL: u64 = 210_000;

/// The number of halvings after which the reward is zero.
pub const MAX_HALVINGS: u64 = 64;

/// The reward a height dictates: the initial reward halved once per
/// completed interval, zero from the sixty-fourth halving on.
pub open spec fn spec_block_reward(height: u64) -> u64 {
    if height / HALVING_INTERVAL >= MAX_HALVINGS {
        0
    } else {
        INITIAL_REWARD >> (height / HALVING_INTERVAL)
    }
}

/// Calculates the block reward for a given height.
pub fn block_reward(height: u64) -> (r: u64)
    ensures
        r == spec_block_reward(height),
{
    let halvings = height / HALVING_INTERVAL;
    if halvings >= MAX_HALVINGS {
        return 0;
    }
    INITIAL_REWARD >> halvings
}

/// Reward exhaustion: from the sixty-fourth halving interval on, the
/// reward is zero.
pub proof fn lemma_reward_exhausted(height: u64)
    requires
        height >= MAX_HALVINGS * HALVING_INTERVAL,
    ensures
        spec_block_reward(height) == 0,
{
    assert(height / HALVING_INTERVAL >= MAX_HALVINGS) by (nonlinear_arith)
        requires
            height >= MAX_HALVINGS * HALVING_INTERVAL,
    ;
}

} // verus!
