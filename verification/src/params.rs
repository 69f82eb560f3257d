//! Consensus parameters, immutable after construction.
//!
//! The finality quorum is a vote count: a checkpoint is finalized once at
//! least `finality_quorum` distinct validators have voted for it. The
//! slashing rate is an integer percentage of the stake.

use vstd::prelude::*;

verus! {

/// Consensus parameters for the PoS mechanism.
#[derive(Clone, Copy)]
pub struct ConsensusParams {
    /// Minimum stake required to become a validator.
    pub min_stake: u64,
    /// Block time target in seconds.
    pub block_time: u64,
    /// Number of validators in the active set.
    pub validator_set_size: usize,
    /// Number of blocks before a checkpoint.
    pub checkpoint_interval: u64,
    /// Number of distinct validator votes required to finalize a
    /// checkpoint.
    pub finality_quorum: u64,
    /// Percentage of a validator's stake removed when it is slashed.
    pub slashing_percent: u64,
}

impl ConsensusParams {
    /// Usable parameters: checkpoints recur (a zero interval would make
    /// no height a checkpoint), and the slashing rate is a percentage.
    pub open spec fn wf(&self) -> bool {
        &&& self.checkpoint_interval > 0
        &&& self.slashing_percent <= 100
    }
}

impl Default for ConsensusParams {
    /// The default parameters: a 1000-GENX minimum stake (with 8 decimal
    /// places), five-second blocks, twenty-one validators, checkpoints
    /// every hundred blocks, a two-vote quorum, and ten percent slashing.
    fn default() -> (r: Self)
        ensures
            r.min_stake == 1000u64 * 100_000_000,
            r.block_time == 5,
            r.validator_set_size == 21,
            r.checkpoint_interval == 100,
            r.finality_quorum == 2,
            r.slashing_percent == 10,
            r.wf(),
    {
        ConsensusParams {
            min_stake: 1000 * 100_000_000,
            block_time: 5,
            validator_set_size: 21,
            checkpoint_interval: 100,
            finality_quorum: 2,
            slashing_percent: 10,
        }
    }
}

} // verus!
