//! The consensus engine: block production over a chain and a mempool.
//!
//! Production is time-gated by an explicit timer field, re-derives the
//! active set from the chain's stakes on every attempt, elects the leader
//! for the next height, mints the coinbase reward for the elected leader
//! and drains pending transactions in submission order, up to a fixed
//! limit. The produced block is returned, never attached: attachment and
//! all consistency checks happen only through the chain's `add_block`.

use vstd::prelude::*;
use vstd::math::min;
use crate::params::ConsensusParams;
use crate::validator::{Validator, compute_active_set, spec_active_set};
use crate::election::{select_by_stake, spec_elect, total_stake, lemma_total_stake_bound};
use crate::errors::ConsensusError;
use crate::chain::Blockchain;
use crate::block::{Block, spec_merkle_root};
use crate::transaction::Transaction;
use crate::rewards::{block_reward, spec_block_reward};

verus! {

/// The most transactions drained from the mempool into one block, the
/// coinbase not counted.
pub const MAX_BLOCK_TRANSACTIONS: usize = 1000;

/// The validators a stake-entry list describes, with no production
/// history.
pub open spec fn validators_of_entries(s: Seq<(String, u64)>) -> Seq<Validator> {
    Seq::new(
        s.len(),
        |i: int| Validator { address: s[i].0, stake: s[i].1, last_block_produced: 0 },
    )
}

/// The active set a chain's ledger dictates under the given parameters.
pub open spec fn spec_chain_active_set(chain: Blockchain, params: ConsensusParams) -> Seq<
    Validator,
> {
    spec_active_set(
        validators_of_entries(chain.spec_stake_entries()),
        params.min_stake,
        params.validator_set_size as int,
    )
}

/// Decides whether the chain's current active set meets the machine
/// bounds block production assumes: the total stake fits one machine
/// word, and a nonempty active set carries some stake. Callers outside
/// the proofs use it to test the production preconditions.
pub fn active_set_within_bounds(chain: &Blockchain, params: &ConsensusParams) -> (r: bool)
    requires
        chain.wf(),
    ensures
        r == ({
            let active = spec_chain_active_set(*chain, *params);
            &&& total_stake(active) <= u64::MAX
            &&& (active.len() > 0 ==> total_stake(active) > 0)
        }),
{
    let state = chain.get_state();
    let entries = state.get_validators();
    let n = entries.len();
    let mut candidates: Vec<Validator> = Vec::new();
    for i in 0..n
        invariant
            n == entries@.len(),
            entries@ == chain.spec_stake_entries(),
            candidates@ =~= validators_of_entries(entries@).take(i as int),
    {
        let address = entries[i].0.clone();
        candidates.push(Validator { address, stake: entries[i].1, last_block_produced: 0 });
        proof {
            assert(candidates@ =~= validators_of_entries(entries@).take(i + 1));
        }
    }
    proof {
        assert(validators_of_entries(entries@).take(n as int) =~= validators_of_entries(entries@));
    }
    let active = compute_active_set(&candidates, params.min_stake, params.validator_set_size);
    let m = active.len();
    let mut total: u128 = 0;
    proof {
        assert(active@.take(0) =~= Seq::<Validator>::empty());
    }
    for i in 0..m
        invariant
            m == active@.len(),
            active@ == spec_chain_active_set(*chain, *params),
            total == total_stake(active@.take(i as int)),
        decreases m - i,
    {
        proof {
            assert(active@.take(i + 1).drop_last() =~= active@.take(i as int));
            assert(active@.take(i + 1).last() == active@[i as int]);
            lemma_total_stake_bound(active@.take(i + 1));
            assert((i + 1) * (u64::MAX as int) < u128::MAX) by (nonlinear_arith)
                requires
                    0 <= i + 1 <= 0x1_0000_0000_0000_0000,
            ;
        }
        total = total + active[i].stake as u128;
    }
    proof {
        assert(active@.take(m as int) =~= active@);
    }
    total <= u64::MAX as u128 && (m == 0 || total > 0)
}

/// Manages the consensus process for the blockchain.
pub struct ConsensusEngine {
    /// Consensus parameters.
    params: ConsensusParams,
    /// Current active validators.
    active_validators: Vec<Validator>,
    /// Pending transactions (mempool), in submission order.
    pending_transactions: Vec<Transaction>,
    /// Last block production time, in seconds since the Unix epoch.
    last_block_time: u64,
}

impl ConsensusEngine {
    /// The configured parameters.
    pub closed spec fn spec_params(&self) -> ConsensusParams {
        self.params
    }

    /// The cached active validator set.
    pub closed spec fn spec_active_validators(&self) -> Seq<Validator> {
        self.active_validators@
    }

    /// The pending transactions, in submission order.
    pub closed spec fn spec_pending(&self) -> Seq<Transaction> {
        self.pending_transactions@
    }

    /// The time of the last production attempt that fired.
    pub closed spec fn spec_last_block_time(&self) -> u64 {
        self.last_block_time
    }

    /// Creates a new consensus engine with the given parameters, an empty
    /// mempool and a timer at zero.
    pub fn new(params: ConsensusParams) -> (r: Self)
        ensures
            r.spec_params() == params,
            r.spec_active_validators() == Seq::<Validator>::empty(),
            r.spec_pending() == Seq::<Transaction>::empty(),
            r.spec_last_block_time() == 0,
    {
        ConsensusEngine {
            params,
            active_validators: Vec::new(),
            pending_transactions: Vec::new(),
            last_block_time: 0,
        }
    }

    /// Initializes the consensus engine: derives the active set from the
    /// chain and starts the production timer at `now`.
    pub fn initialize(&mut self, chain: &Blockchain, now: u64) -> (r: Result<(), ConsensusError>)
        requires
            chain.wf(),
        ensures
            r is Ok,
            final(self).spec_params() == old(self).spec_params(),
            final(self).spec_pending() == old(self).spec_pending(),
            final(self).spec_active_validators() == spec_chain_active_set(
                *chain,
                old(self).spec_params(),
            ),
            final(self).spec_last_block_time() == now,
    {
        match self.update_validator_set(chain) {
            Ok(()) => {},
            Err(e) => { return Err(e) },
        }
        self.last_block_time = now;
        Ok(())
    }

    /// Re-derives the active validator set from the chain's current
    /// stakes. It never fails.
    pub fn update_validator_set(&mut self, chain: &Blockchain) -> (r: Result<(), ConsensusError>)
        requires
            chain.wf(),
        ensures
            r is Ok,
            final(self).spec_params() == old(self).spec_params(),
            final(self).spec_pending() == old(self).spec_pending(),
            final(self).spec_last_block_time() == old(self).spec_last_block_time(),
            final(self).spec_active_validators() == spec_chain_active_set(
                *chain,
                old(self).spec_params(),
            ),
    {
        let state = chain.get_state();
        let entries = state.get_validators();
        let n = entries.len();
        let mut candidates: Vec<Validator> = Vec::new();
        for i in 0..n
            invariant
                n == entries@.len(),
                entries@ == chain.spec_stake_entries(),
                candidates@ =~= validators_of_entries(entries@).take(i as int),
        {
            let address = entries[i].0.clone();
            candidates.push(Validator { address, stake: entries[i].1, last_block_produced: 0 });
            proof {
                assert(candidates@ =~= validators_of_entries(entries@).take(i + 1));
            }
        }
        proof {
            assert(validators_of_entries(entries@).take(n as int) =~= validators_of_entries(
                entries@,
            ));
        }
        self.active_validators = compute_active_set(
            &candidates,
            self.params.min_stake,
            self.params.validator_set_size,
        );
        Ok(())
    }

    /// Selects the validator that will produce the next block (at the
    /// height one past the chain's tip), from the cached active set.
    pub fn select_next_validator(&self, chain: &Blockchain) -> (r: Result<
        Validator,
        ConsensusError,
    >)
        requires
            chain.wf(),
            chain.spec_latest_height() < u64::MAX,
            total_stake(self.spec_active_validators()) <= u64::MAX,
            self.spec_active_validators().len() > 0 ==> total_stake(self.spec_active_validators())
                > 0,
        ensures
            r is Ok <==> self.spec_active_validators().len() > 0,
            r is Ok ==> r->Ok_0 == spec_elect(
                (chain.spec_latest_height() + 1) as u64,
                self.spec_active_validators(),
            ),
            r is Ok ==> exists|i: int|
                0 <= i < self.spec_active_validators().len() && (
                #[trigger] self.spec_active_validators()[i]) == r->Ok_0,
            r is Err ==> r matches Err(ConsensusError::ValidatorError(_)),
    {
        let height = chain.get_latest_height();
        select_by_stake(&self.active_validators, height + 1)
    }

    /// Adds a transaction to the pending pool.
    pub fn add_transaction(&mut self, transaction: Transaction)
        ensures
            final(self).spec_params() == old(self).spec_params(),
            final(self).spec_active_validators() == old(self).spec_active_validators(),
            final(self).spec_last_block_time() == old(self).spec_last_block_time(),
            final(self).spec_pending() == old(self).spec_pending().push(transaction),
    {
        self.pending_transactions.push(transaction);
    }

    /// Produces a new block if at least `block_time` seconds have passed
    /// since the last production. On trigger it re-derives the active
    /// set, elects the leader for the next height, mints the coinbase and
    /// drains up to [`MAX_BLOCK_TRANSACTIONS`] pending transactions in
    /// submission order; drained transactions leave the pool whether or
    /// not the block is later accepted, and are not re-enqueued.
    #[verifier::rlimit(100)]
    pub fn try_produce_block(&mut self, chain: &Blockchain, now: u64) -> (r: Result<
        Option<Block>,
        ConsensusError,
    >)
        requires
            chain.wf(),
            chain.spec_latest_height() < u64::MAX,
            total_stake(spec_chain_active_set(*chain, old(self).spec_params())) <= u64::MAX,
            spec_chain_active_set(*chain, old(self).spec_params()).len() > 0 ==> total_stake(
                spec_chain_active_set(*chain, old(self).spec_params()),
            ) > 0,
        ensures
            final(self).spec_params() == old(self).spec_params(),
            (now < old(self).spec_last_block_time() + old(self).spec_params().block_time) ==> (r
                matches Ok(None) && *final(self) == *old(self)),
            (now >= old(self).spec_last_block_time() + old(self).spec_params().block_time) ==> {
                let active = spec_chain_active_set(*chain, old(self).spec_params());
                let kept = min(
                    MAX_BLOCK_TRANSACTIONS as int,
                    old(self).spec_pending().len() as int,
                );
                &&& final(self).spec_active_validators() == active
                &&& (r is Err <==> active.len() == 0)
                &&& r is Err ==> (r matches Err(ConsensusError::ValidatorError(_))
                    && final(self).spec_pending() == old(self).spec_pending()
                    && final(self).spec_last_block_time() == old(self).spec_last_block_time())
                &&& r is Ok ==> (r matches Ok(Some(b)) && {
                    let leader = spec_elect((chain.spec_latest_height() + 1) as u64, active);
                    &&& b.header.height == chain.spec_latest_height() + 1
                    &&& b.header.prev_hash@ == chain.spec_latest_hash()
                    &&& b.header.validator == leader.address
                    &&& b.header.merkle_root@ == spec_merkle_root(b.transactions@)
                    &&& b.transactions@.len() == 1 + kept
                    &&& crate::transaction::spec_is_coinbase(b.transactions@[0])
                    &&& b.transactions@[0].recipient == leader.address
                    &&& b.transactions@[0].amount == spec_block_reward(
                        chain.spec_latest_height(),
                    )
                    &&& (forall|i: int|
                        1 <= i < b.transactions@.len() ==> #[trigger] b.transactions@[i]
                            == old(self).spec_pending()[i - 1])
                    &&& final(self).spec_pending() == old(self).spec_pending().skip(kept)
                    &&& final(self).spec_last_block_time() == now
                })
            },
    {
        if now < self.last_block_time || now - self.last_block_time < self.params.block_time {
            return Ok(None);
        }
        match self.update_validator_set(chain) {
            Ok(()) => {},
            Err(e) => { return Err(e) },
        }
        let validator = match select_by_stake(
            &self.active_validators,
            chain.get_latest_height() + 1,
        ) {
            Ok(v) => v,
            Err(e) => { return Err(e) },
        };
        let latest_block = match chain.get_latest_block() {
            Some(b) => b,
            None => {
                return Err(
                    ConsensusError::ValidatorError(String::from_str("No blocks in the chain")),
                );
            },
        };
        let height = chain.get_latest_height();
        let prev_hash = match latest_block.hash() {
            Ok(h) => h,
            Err(e) => { return Err(ConsensusError::BlockchainError(e)) },
        };
        let reward = block_reward(height);
        let coinbase = match Transaction::new_coinbase(validator.address.clone(), reward) {
            Ok(t) => t,
            Err(e) => { return Err(ConsensusError::BlockchainError(e)) },
        };
        let mut block_transactions: Vec<Transaction> = Vec::new();
        block_transactions.push(coinbase);
        let kept = if self.pending_transactions.len() < MAX_BLOCK_TRANSACTIONS {
            self.pending_transactions.len()
        } else {
            MAX_BLOCK_TRANSACTIONS
        };
        let remaining = self.pending_transactions.split_off(kept);
        block_transactions.append(&mut self.pending_transactions);
        self.pending_transactions = remaining;
        let new_block = match Block::new(
            height + 1,
            prev_hash,
            block_transactions,
            validator.address,
        ) {
            Ok(b) => b,
            Err(e) => { return Err(ConsensusError::BlockchainError(e)) },
        };
        self.last_block_time = now;
        Ok(Some(new_block))
    }
}

} // verus!
