//! The proof-of-stake mechanism: epoch bookkeeping, validator
//! performance metrics, and leader selection over an explicit active set.
//!
//! Epoch timing is held in explicit fields and every time-dependent
//! operation takes the current time as an argument, so independent
//! instances never interfere.

use vstd::prelude::*;
use crate::params::ConsensusParams;
use crate::validator::{Validator, compute_active_set, spec_active_set};
use crate::election::{select_by_stake, spec_elect, total_stake};
use crate::errors::ConsensusError;
use crate::kv::{KvStore, lemma_kv_find_exists};
use crate::clock::current_timestamp;
use crate::rewards::{block_reward, spec_block_reward};
use crate::strutil::str_eq;

verus! {

/// Metrics tracking validator performance.
#[derive(Clone, Copy, Debug)]
pub struct ValidatorMetrics {
    /// Number of blocks produced in the current epoch.
    pub blocks_produced: u64,
    /// Number of blocks missed in the current epoch.
    pub blocks_missed: u64,
    /// Share of produced blocks among production chances, in percent.
    pub uptime: u64,
    /// Last seen timestamp.
    pub last_seen: u64,
}

/// The number of block slots in one epoch.
pub const BLOCKS_PER_EPOCH: u64 = 100;

/// Manages the Proof of Stake consensus mechanism.
pub struct PoSConsensus {
    /// Consensus parameters.
    params: ConsensusParams,
    /// Active validators in the current epoch.
    active_validators: Vec<Validator>,
    /// Validator performance metrics.
    validator_metrics: KvStore<ValidatorMetrics>,
    /// Current epoch number.
    current_epoch: u64,
    /// Epoch start time, in seconds since the Unix epoch.
    epoch_start: u64,
}

impl PoSConsensus {
    /// The configured parameters.
    pub closed spec fn spec_params(&self) -> ConsensusParams {
        self.params
    }

    /// The cached active validator set.
    pub closed spec fn spec_active_validators(&self) -> Seq<Validator> {
        self.active_validators@
    }

    /// The metrics map, by validator address.
    pub closed spec fn spec_metrics(&self) -> Map<Seq<char>, ValidatorMetrics> {
        self.validator_metrics@
    }

    /// The current epoch number.
    pub closed spec fn spec_current_epoch(&self) -> u64 {
        self.current_epoch
    }

    /// The epoch start time.
    pub closed spec fn spec_epoch_start(&self) -> u64 {
        self.epoch_start
    }

    /// The metrics store holds pairwise-distinct keys.
    pub closed spec fn wf(&self) -> bool {
        self.validator_metrics.wf()
    }

    /// Creates a new PoS consensus instance at epoch zero, with the epoch
    /// clock started at the current time.
    pub fn new(params: ConsensusParams) -> (r: Self)
        ensures
            r.wf(),
            r.spec_params() == params,
            r.spec_active_validators() == Seq::<Validator>::empty(),
            r.spec_metrics() =~= Map::<Seq<char>, ValidatorMetrics>::empty(),
            r.spec_current_epoch() == 0,
    {
        PoSConsensus {
            params,
            active_validators: Vec::new(),
            validator_metrics: KvStore::new(),
            current_epoch: 0,
            epoch_start: current_timestamp(),
        }
    }

    /// Updates the active validator set based on stake and opens metrics
    /// for validators not tracked yet; metrics already present are kept.
    pub fn update_validator_set(&mut self, validators: Vec<Validator>)
        requires
            old(self).wf(),
        ensures
            final(self).wf(),
            final(self).spec_params() == old(self).spec_params(),
            final(self).spec_current_epoch() == old(self).spec_current_epoch(),
            final(self).spec_epoch_start() == old(self).spec_epoch_start(),
            final(self).spec_active_validators() == spec_active_set(
                validators@,
                old(self).spec_params().min_stake,
                old(self).spec_params().validator_set_size as int,
            ),
            forall|k: Seq<char>| #![trigger old(self).spec_metrics().dom().contains(k)]
                old(self).spec_metrics().dom().contains(k) ==> final(self).spec_metrics().dom().contains(k) && final(self).spec_metrics()[k] == old(self).spec_metrics()[k],
            forall|k: Seq<char>| #![trigger final(self).spec_metrics().dom().contains(k)]
                final(self).spec_metrics().dom().contains(k) && !old(self).spec_metrics().dom().contains(k) ==> {
                    let m = final(self).spec_metrics()[k];
                    m.blocks_produced == 0 && m.blocks_missed == 0 && m.uptime == 100
                },
    {
        self.active_validators = compute_active_set(
            &validators,
            self.params.min_stake,
            self.params.validator_set_size,
        );
        let n = self.active_validators.len();
        let now = current_timestamp();
        let ghost active_after = self.active_validators;
        for i in 0..n
            invariant
                n == self.active_validators@.len(),
                self.validator_metrics.wf(),
                self.params == old(self).spec_params(),
                self.current_epoch == old(self).spec_current_epoch(),
                self.epoch_start == old(self).spec_epoch_start(),
                self.active_validators == active_after,
                forall|k: Seq<char>| #![trigger old(self).spec_metrics().dom().contains(k)]
                    old(self).spec_metrics().dom().contains(k)
                        ==> self.validator_metrics@.dom().contains(k) && self.validator_metrics@[k]
                        == old(self).spec_metrics()[k],
                forall|k: Seq<char>| #![trigger self.validator_metrics@.dom().contains(k)]
                    self.validator_metrics@.dom().contains(k) && !old(self).spec_metrics().dom().contains(k) ==> {
                        let m = self.validator_metrics@[k];
                        m.blocks_produced == 0 && m.blocks_missed == 0 && m.uptime == 100
                    },
        {
            let address = self.active_validators[i].address.clone();
            if !self.validator_metrics.contains(address.as_str()) {
                let ghost mm = self.validator_metrics@;
                self.validator_metrics.set(
                    address.as_str(),
                    ValidatorMetrics {
                        blocks_produced: 0,
                        blocks_missed: 0,
                        uptime: 100,
                        last_seen: now,
                    },
                );
                proof {
                    assert forall|k: Seq<char>|
                        old(self).spec_metrics().dom().contains(k) implies (
                    self.validator_metrics@.dom().contains(k) && self.validator_metrics@[k] == old(
                        self,
                    ).spec_metrics()[k]) by {
                        assert(mm.dom().contains(k));
                        assert(k != address@);
                    }
                }
            }
        }
    }

    /// Selects the validator to produce the block at the given height.
    /// The seed of the draw is derived from the height, so the selection
    /// is deterministic. It fails exactly when the active set is empty.
    pub fn select_validator(&self, block_height: u64) -> (r: Result<Validator, ConsensusError>)
        requires
            total_stake(self.spec_active_validators()) <= u64::MAX,
            self.spec_active_validators().len() > 0 ==> total_stake(self.spec_active_validators())
                > 0,
        ensures
            r is Ok <==> self.spec_active_validators().len() > 0,
            r is Ok ==> r->Ok_0 == spec_elect(block_height, self.spec_active_validators()),
            r is Ok ==> exists|i: int|
                0 <= i < self.spec_active_validators().len() && (
                #[trigger] self.spec_active_validators()[i]) == r->Ok_0,
            r is Err ==> r matches Err(ConsensusError::ValidatorError(_)),
    {
        select_by_stake(&self.active_validators, block_height)
    }

    /// Records that a validator produced a block: its production count
    /// rises (capped at the machine word), it is marked seen, and its
    /// last produced height is updated in the active set.
    pub fn record_block_production(&mut self, validator_address: &str, block_height: u64)
        requires
            old(self).wf(),
        ensures
            final(self).wf(),
            final(self).spec_params() == old(self).spec_params(),
            final(self).spec_current_epoch() == old(self).spec_current_epoch(),
            final(self).spec_epoch_start() == old(self).spec_epoch_start(),
            old(self).spec_metrics().dom().contains(validator_address@) ==> {
                let m0 = old(self).spec_metrics()[validator_address@];
                let m1 = final(self).spec_metrics()[validator_address@];
                &&& final(self).spec_metrics() == old(self).spec_metrics().insert(
                    validator_address@,
                    m1,
                )
                &&& m1.blocks_produced == if m0.blocks_produced < u64::MAX {
                    m0.blocks_produced + 1
                } else {
                    m0.blocks_produced as int
                }
                &&& m1.blocks_missed == m0.blocks_missed
                &&& m1.uptime == m0.uptime
            },
            !old(self).spec_metrics().dom().contains(validator_address@) ==> final(self).spec_metrics() == old(self).spec_metrics(),
            forall|i: int|
                0 <= i < old(self).spec_active_validators().len() ==> {
                    let v0 = old(self).spec_active_validators()[i];
                    let v1 = #[trigger] final(self).spec_active_validators()[i];
                    if v0.address@ == validator_address@ {
                        v1 == Validator { last_block_produced: block_height, ..v0 }
                    } else {
                        v1 == v0
                    }
                },
            final(self).spec_active_validators().len() == old(self).spec_active_validators().len(),
    {
        let now = current_timestamp();
        let found = match self.validator_metrics.get(validator_address) {
            Some(m) => Some(*m),
            None => None,
        };
        match found {
            Some(m) => {
                let produced = if m.blocks_produced < u64::MAX {
                    m.blocks_produced + 1
                } else {
                    m.blocks_produced
                };
                self.validator_metrics.set(
                    validator_address,
                    ValidatorMetrics { blocks_produced: produced, last_seen: now, ..m },
                );
            },
            None => {},
        }
        let ghost metrics_after = self.validator_metrics@;
        let ghost metrics_store_after = self.validator_metrics;
        let n = self.active_validators.len();
        for i in 0..n
            invariant
                n == self.active_validators@.len(),
                n == old(self).spec_active_validators().len(),
                self.validator_metrics == metrics_store_after,
                forall|j: int|
                    0 <= j < i ==> {
                        let v0 = old(self).spec_active_validators()[j];
                        let v1 = #[trigger] self.active_validators@[j];
                        if v0.address@ == validator_address@ {
                            v1 == Validator { last_block_produced: block_height, ..v0 }
                        } else {
                            v1 == v0
                        }
                    },
                forall|j: int|
                    i <= j < n ==> #[trigger] self.active_validators@[j] == old(self).spec_active_validators()[j],
                self.params == old(self).spec_params(),
                self.current_epoch == old(self).spec_current_epoch(),
                self.epoch_start == old(self).spec_epoch_start(),
        {
            if str_eq(self.active_validators[i].address.as_str(), validator_address) {
                let ghost prev = self.active_validators@;
                let mut v = self.active_validators.remove(i);
                v.record_block_production(block_height);
                self.active_validators.insert(i, v);
                proof {
                    assert(self.active_validators@ =~= prev.update(
                        i as int,
                        Validator { last_block_produced: block_height, ..prev[i as int] },
                    ));
                }
            }
        }
    }

    /// Records that a validator missed a block: its missed count rises
    /// (capped at the machine word) and its uptime is recomputed as the
    /// produced share of all its chances, in percent.
    pub fn record_missed_block(&mut self, validator_address: &str)
        requires
            old(self).wf(),
        ensures
            final(self).wf(),
            final(self).spec_params() == old(self).spec_params(),
            final(self).spec_current_epoch() == old(self).spec_current_epoch(),
            final(self).spec_epoch_start() == old(self).spec_epoch_start(),
            final(self).spec_active_validators() == old(self).spec_active_validators(),
            old(self).spec_metrics().dom().contains(validator_address@) ==> {
                let m0 = old(self).spec_metrics()[validator_address@];
                let m1 = final(self).spec_metrics()[validator_address@];
                &&& final(self).spec_metrics() == old(self).spec_metrics().insert(
                    validator_address@,
                    m1,
                )
                &&& m1.blocks_missed == if m0.blocks_missed < u64::MAX {
                    m0.blocks_missed + 1
                } else {
                    m0.blocks_missed as int
                }
                &&& m1.blocks_produced == m0.blocks_produced
                &&& m1.last_seen == m0.last_seen
                &&& (m0.blocks_produced + m1.blocks_missed > 0 ==> m1.uptime
                    == m0.blocks_produced * 100 / (m0.blocks_produced + m1.blocks_missed))
            },
            !old(self).spec_metrics().dom().contains(validator_address@) ==> *final(self) == *old(self),
    {
        let found = match self.validator_metrics.get(validator_address) {
            Some(m) => Some(*m),
            None => None,
        };
        match found {
            Some(m) => {
                let missed = if m.blocks_missed < u64::MAX {
                    m.blocks_missed + 1
                } else {
                    m.blocks_missed
                };
                proof {
                    assert(m.blocks_produced as u128 * 100 <= u64::MAX as u128 * 100)
                        by (nonlinear_arith)
                        requires
                            m.blocks_produced <= u64::MAX,
                    ;
                    if m.blocks_produced + missed > 0 {
                        assert(m.blocks_produced as u128 * 100 / (m.blocks_produced as u128
                            + missed as u128) <= 100) by (nonlinear_arith)
                            requires
                                missed > 0 || m.blocks_produced > 0,
                        ;
                    }
                }
                let total = m.blocks_produced as u128 + missed as u128;
                let uptime = if total > 0 {
                    (m.blocks_produced as u128 * 100 / total) as u64
                } else {
                    m.uptime
                };
                self.validator_metrics.set(
                    validator_address,
                    ValidatorMetrics { blocks_missed: missed, uptime, ..m },
                );
            },
            None => {},
        }
    }

    /// Calculates the block reward for a given height under the halving
    /// schedule.
    pub fn calculate_block_reward(&self, height: u64) -> (r: u64)
        ensures
            r == spec_block_reward(height),
    {
        block_reward(height)
    }

    /// Checks if an epoch's worth of block time has passed: if so, the
    /// epoch number advances, the epoch clock restarts at `now`, and the
    /// per-epoch production counters restart at zero with uptime and
    /// last-seen kept.
    pub fn check_epoch_transition(&mut self, now: u64) -> (r: bool)
        requires
            old(self).wf(),
            old(self).spec_current_epoch() < u64::MAX,
        ensures
            final(self).wf(),
            final(self).spec_params() == old(self).spec_params(),
            final(self).spec_active_validators() == old(self).spec_active_validators(),
            r == (now >= old(self).spec_epoch_start() && now - old(self).spec_epoch_start()
                >= old(self).spec_params().block_time * BLOCKS_PER_EPOCH),
            r ==> {
                &&& final(self).spec_current_epoch() == old(self).spec_current_epoch() + 1
                &&& final(self).spec_epoch_start() == now
                &&& final(self).spec_metrics().dom() =~= old(self).spec_metrics().dom()
                &&& forall|k: Seq<char>|
                    old(self).spec_metrics().dom().contains(k) ==> {
                        let m0 = old(self).spec_metrics()[k];
                        let m1 = #[trigger] final(self).spec_metrics()[k];
                        m1.blocks_produced == 0 && m1.blocks_missed == 0 && m1.uptime == m0.uptime
                            && m1.last_seen == m0.last_seen
                    }
            },
            !r ==> *final(self) == *old(self),
    {
        let elapsed_enough = now >= self.epoch_start && (now - self.epoch_start) as u128
            >= self.params.block_time as u128 * 100;
        proof {
            assert(BLOCKS_PER_EPOCH == 100);
        }
        if !elapsed_enough {
            return false;
        }
        self.current_epoch = self.current_epoch + 1;
        self.epoch_start = now;
        let entries = self.validator_metrics.entries();
        let n = entries.len();
        let mut reset: KvStore<ValidatorMetrics> = KvStore::new();
        let ghost old_entries = entries@;
        let ghost old_map = self.validator_metrics@;
        for i in 0..n
            invariant
                n == old_entries.len(),
                self.validator_metrics@ == old_map,
                self.validator_metrics.entries_seq() == old_entries,
                self.validator_metrics.wf(),
                reset.wf(),
                forall|k: Seq<char>|
                    reset@.dom().contains(k) <==> (exists|j: int|
                        0 <= j < i && (#[trigger] old_entries[j]).0@ == k),
                forall|j: int|
                    0 <= j < i ==> reset@.dom().contains((#[trigger] old_entries[j]).0@),
                forall|j: int|
                    0 <= j < i ==> {
                        let m1 = reset@[(#[trigger] old_entries[j]).0@];
                        m1.blocks_produced == 0 && m1.blocks_missed == 0 && m1.uptime
                            == old_map[old_entries[j].0@].uptime && m1.last_seen == old_map[
                        old_entries[j].0@].last_seen
                    },
        {
            let entries = self.validator_metrics.entries();
            let m = entries[i].1;
            proof {
                crate::kv::lemma_kv_find_first_match(old_entries, old_entries[i as int].0@, i as int);
            }
            reset.set(
                entries[i].0.as_str(),
                ValidatorMetrics {
                    blocks_produced: 0,
                    blocks_missed: 0,
                    uptime: m.uptime,
                    last_seen: m.last_seen,
                },
            );
        }
        self.validator_metrics = reset;
        proof {
            assert forall|k: Seq<char>| old_map.dom().contains(k) implies final(self).spec_metrics().dom().contains(k) by {
                lemma_kv_find_exists(old_entries, k);
            }
            assert forall|k: Seq<char>| final(self).spec_metrics().dom().contains(k) implies
                old_map.dom().contains(k) by {
                lemma_kv_find_exists(old_entries, k);
            }
            assert forall|k: Seq<char>| old_map.dom().contains(k) implies {
                let m0 = old_map[k];
                let m1 = final(self).spec_metrics()[k];
                m1.blocks_produced == 0 && m1.blocks_missed == 0 && m1.uptime == m0.uptime
                    && m1.last_seen == m0.last_seen
            } by {
                lemma_kv_find_exists(old_entries, k);
                let j = choose|j: int| 0 <= j < old_entries.len() && (#[trigger] old_entries[j]).0@
                    == k;
            }
        }
        true
    }

    /// Gets validator performance metrics as a list of entries with
    /// pairwise-distinct addresses.
    pub fn get_validator_metrics(&self) -> (r: &Vec<(String, ValidatorMetrics)>)
        requires
            self.wf(),
        ensures
            crate::kv::keys_unique(r@),
            crate::kv::kv_map(r@) == self.spec_metrics(),
    {
        self.validator_metrics.entries()
    }

    /// Gets the current epoch number.
    pub fn get_current_epoch(&self) -> (r: u64)
        ensures
            r == self.spec_current_epoch(),
    {
        self.current_epoch
    }
}

} // verus!
