//! The ledger state: balances, stakes, contract storage and supply.
//!
//! Transaction application is specified as a function on an abstract
//! state model and implemented atomically: a failing transaction or
//! block leaves the state exactly as it was. A credit that would push a
//! balance or the total supply past the 64-bit range is rejected, keeping
//! every balance representable.

use vstd::prelude::*;
use crate::kv::KvStore;
use crate::kv::{keys_unique, kv_map};
use crate::errors::BlockchainError;
use crate::transaction::{Transaction, spec_is_coinbase};
use crate::block::Block;
use crate::strutil::str_eq;
use vstd::string::StringExecFns;

verus! {

/// The abstract value of a ledger state.
#[verifier::ext_equal]
pub struct StateModel {
    /// Account balances; addresses absent from the domain hold zero.
    pub balances: Map<Seq<char>, u64>,
    /// Validator stakes; addresses absent from the domain hold zero.
    pub stakes: Map<Seq<char>, u64>,
    /// Smart-contract storage per contract address.
    pub contracts: Map<Seq<char>, Seq<u8>>,
    /// Total supply of GENX tokens in circulation.
    pub total_supply: u64,
}

/// The balance an account map assigns: the bound value, or zero.
pub open spec fn bal_of(m: Map<Seq<char>, u64>, k: Seq<char>) -> u64 {
    if m.dom().contains(k) {
        m[k]
    } else {
        0
    }
}

/// The state after one transaction, or `None` if it cannot apply: an
/// ordinary transaction whose sender cannot cover amount plus fee, or
/// any credit that would leave the 64-bit range.
pub open spec fn spec_apply_tx(m: StateModel, tx: Transaction) -> Option<StateModel> {
    if spec_is_coinbase(tx) {
        let rb = bal_of(m.balances, tx.recipient@);
        if rb + tx.amount <= u64::MAX && m.total_supply + tx.amount <= u64::MAX {
            Some(
                StateModel {
                    balances: m.balances.insert(tx.recipient@, (rb + tx.amount) as u64),
                    total_supply: (m.total_supply + tx.amount) as u64,
                    ..m
                },
            )
        } else {
            None
        }
    } else {
        let sb = bal_of(m.balances, tx.sender@);
        if sb >= tx.amount + tx.fee {
            let debited = m.balances.insert(tx.sender@, (sb - tx.amount - tx.fee) as u64);
            let rb = bal_of(debited, tx.recipient@);
            if rb + tx.amount <= u64::MAX {
                let credited = debited.insert(tx.recipient@, (rb + tx.amount) as u64);
                let contracts = match tx.data {
                    Some(d) => if d@.len() > 0 {
                        m.contracts.insert(tx.recipient@, d@)
                    } else {
                        m.contracts
                    },
                    None => m.contracts,
                };
                Some(StateModel { balances: credited, contracts, ..m })
            } else {
                None
            }
        } else {
            None
        }
    }
}

/// The state after a sequence of transactions applied in order, or
/// `None` if any of them cannot apply.
pub open spec fn spec_apply_txs(m: StateModel, txs: Seq<Transaction>) -> Option<StateModel>
    decreases txs.len(),
{
    if txs.len() == 0 {
        Some(m)
    } else {
        match spec_apply_txs(m, txs.drop_last()) {
            Some(m2) => spec_apply_tx(m2, txs.last()),
            None => None,
        }
    }
}

/// The empty ledger model.
pub open spec fn empty_state_model() -> StateModel {
    StateModel {
        balances: Map::empty(),
        stakes: Map::empty(),
        contracts: Map::empty(),
        total_supply: 0,
    }
}

/// Represents the current state of the blockchain.
pub struct State {
    /// Account balances (address -> balance).
    balances: KvStore<u64>,
    /// Validator stakes (validator address -> staked amount).
    validator_stakes: KvStore<u64>,
    /// Smart contract state (contract address -> state).
    contract_states: KvStore<Vec<u8>>,
    /// Total supply of GENX tokens in circulation.
    total_supply: u64,
}

impl View for State {
    type V = StateModel;

    closed spec fn view(&self) -> StateModel {
        StateModel {
            balances: self.balances@,
            stakes: self.validator_stakes@,
            contracts: self.contract_states.bytes_view(),
            total_supply: self.total_supply,
        }
    }
}

impl State {
    /// The internal stores hold pairwise-distinct keys.
    pub closed spec fn wf(&self) -> bool {
        &&& self.balances.wf()
        &&& self.validator_stakes.wf()
        &&& self.contract_states.wf()
    }

    /// Creates a new empty state.
    pub fn new() -> (r: Self)
        ensures
            r.wf(),
            r@ == empty_state_model(),
    {
        let r = State {
            balances: KvStore::new(),
            validator_stakes: KvStore::new(),
            contract_states: KvStore::new(),
            total_supply: 0,
        };
        proof {
            assert(r@.contracts =~= Map::<Seq<char>, Seq<u8>>::empty());
            assert(r@ =~= empty_state_model());
        }
        r
    }

    /// Gets the balance of an account; absent accounts hold zero.
    pub fn get_balance(&self, address: &str) -> (r: u64)
        ensures
            r == bal_of(self@.balances, address@),
    {
        match self.balances.get(address) {
            Some(v) => *v,
            None => 0,
        }
    }

    /// Gets the total supply of GENX tokens.
    pub fn get_total_supply(&self) -> (r: u64)
        ensures
            r == self@.total_supply,
    {
        self.total_supply
    }

    /// Gets the stake of a validator; absent validators hold zero.
    pub fn get_validator_stake(&self, validator: &str) -> (r: u64)
        ensures
            r == bal_of(self@.stakes, validator@),
    {
        match self.validator_stakes.get(validator) {
            Some(v) => *v,
            None => 0,
        }
    }

    /// The stake entries as stored, in insertion order.
    pub closed spec fn spec_stake_entries(&self) -> Seq<(String, u64)> {
        self.validator_stakes.entries_seq()
    }

    /// Gets all validators and their stakes, as a list of entries with
    /// pairwise-distinct addresses describing the stake map.
    pub fn get_validators(&self) -> (r: &Vec<(String, u64)>)
        requires
            self.wf(),
        ensures
            r@ == self.spec_stake_entries(),
            keys_unique(r@),
            kv_map(r@) == self@.stakes,
    {
        self.validator_stakes.entries()
    }

    /// Adds or updates a validator's stake.
    pub fn update_validator_stake(&mut self, validator: String, stake: u64)
        requires
            old(self).wf(),
        ensures
            final(self).wf(),
            final(self)@ == (StateModel {
                stakes: old(self)@.stakes.insert(validator@, stake),
                ..old(self)@
            }),
    {
        self.validator_stakes.set(validator.as_str(), stake);
        proof {
            assert(final(self)@ =~= (StateModel {
                stakes: old(self)@.stakes.insert(validator@, stake),
                ..old(self)@
            }));
        }
    }

    /// Builds an independent copy of this state.
    pub fn snapshot(&self) -> (r: Self)
        requires
            self.wf(),
        ensures
            r.wf(),
            r@ == self@,
    {
        let r = State {
            balances: self.balances.duplicate(),
            validator_stakes: self.validator_stakes.duplicate(),
            contract_states: self.contract_states.duplicate(),
            total_supply: self.total_supply,
        };
        proof {
            assert(r@ =~= self@);
        }
        r
    }

    /// Applies a transaction to the state. Either the whole transaction
    /// applies, or the state is left unchanged.
    pub fn apply_transaction(&mut self, tx: &Transaction) -> (r: Result<(), BlockchainError>)
        requires
            old(self).wf(),
        ensures
            final(self).wf(),
            match spec_apply_tx(old(self)@, *tx) {
                Some(m) => r is Ok && final(self)@ == m,
                None => {
                    &&& r matches Err(BlockchainError::InvalidTransaction(_))
                    &&& *final(self) == *old(self)
                },
            },
    {
        if tx.is_coinbase() {
            let rb = self.get_balance(tx.recipient.as_str());
            if tx.amount > u64::MAX - rb || tx.amount > u64::MAX - self.total_supply {
                return Err(
                    BlockchainError::InvalidTransaction(
                        String::from_str("Credit exceeds representable balance"),
                    ),
                );
            }
            self.balances.set(tx.recipient.as_str(), rb + tx.amount);
            self.total_supply = self.total_supply + tx.amount;
            proof {
                assert(final(self)@ =~= spec_apply_tx(old(self)@, *tx)->Some_0);
            }
            return Ok(());
        }
        let sb = self.get_balance(tx.sender.as_str());
        if tx.fee > u64::MAX - tx.amount || sb < tx.amount + tx.fee {
            return Err(
                BlockchainError::InvalidTransaction(String::from_str("Insufficient balance")),
            );
        }
        let new_sender = sb - tx.amount - tx.fee;
        let rb = if str_eq(tx.sender.as_str(), tx.recipient.as_str()) {
            new_sender
        } else {
            self.get_balance(tx.recipient.as_str())
        };
        if tx.amount > u64::MAX - rb {
            return Err(
                BlockchainError::InvalidTransaction(
                    String::from_str("Credit exceeds representable balance"),
                ),
            );
        }
        self.balances.set(tx.sender.as_str(), new_sender);
        self.balances.set(tx.recipient.as_str(), rb + tx.amount);
        match &tx.data {
            Some(d) => {
                if d.len() > 0 {
                    let copy = vstd::slice::slice_to_vec(d.as_slice());
                    self.contract_states.set(tx.recipient.as_str(), copy);
                }
            },
            None => {},
        }
        proof {
            assert(final(self)@.balances =~= spec_apply_tx(old(self)@, *tx)->Some_0.balances);
            assert(final(self)@.contracts =~= spec_apply_tx(old(self)@, *tx)->Some_0.contracts);
            assert(final(self)@ =~= spec_apply_tx(old(self)@, *tx)->Some_0);
        }
        Ok(())
    }

    /// Applies a block to the state: every transaction in order, or no
    /// change at all.
    pub fn apply_block(&mut self, block: &Block) -> (r: Result<(), BlockchainError>)
        requires
            old(self).wf(),
        ensures
            final(self).wf(),
            match spec_apply_txs(old(self)@, block.transactions@) {
                Some(m) => r is Ok && final(self)@ == m,
                None => {
                    &&& r matches Err(BlockchainError::InvalidTransaction(_))
                    &&& *final(self) == *old(self)
                },
            },
    {
        let ghost m0 = self@;
        let mut scratch = self.snapshot();
        let n = block.transactions.len();
        for i in 0..n
            invariant
                n == block.transactions@.len(),
                scratch.wf(),
                spec_apply_txs(m0, block.transactions@.take(i as int)) == Some(scratch@),
                *self == *old(self),
                self.wf(),
                m0 == self@,
        {
            let ghost pre = scratch@;
            match scratch.apply_transaction(&block.transactions[i]) {
                Ok(()) => {
                    proof {
                        assert(block.transactions@.take(i + 1).drop_last() =~= block.transactions@
                            .take(i as int));
                        assert(block.transactions@.take(i + 1).last() == block.transactions@[
                        i as int]);
                    }
                },
                Err(e) => {
                    proof {
                        lemma_apply_txs_extend_fail(m0, block.transactions@, i as int);
                    }
                    return Err(e);
                },
            }
        }
        proof {
            assert(block.transactions@.take(n as int) =~= block.transactions@);
        }
        *self = scratch;
        Ok(())
    }
}

/// Two state models agreeing on everything but the stakes.
pub open spec fn models_agree_but_stakes(m1: StateModel, m2: StateModel) -> bool {
    &&& m1.balances == m2.balances
    &&& m1.contracts == m2.contracts
    &&& m1.total_supply == m2.total_supply
}

/// Transaction application never reads or writes the stakes: on two
/// states agreeing on everything else it behaves identically, carrying
/// each state's own stakes through.
pub proof fn lemma_apply_tx_stakes(m1: StateModel, m2: StateModel, tx: Transaction)
    requires
        models_agree_but_stakes(m1, m2),
    ensures
        spec_apply_tx(m1, tx) is Some <==> spec_apply_tx(m2, tx) is Some,
        spec_apply_tx(m1, tx) is Some ==> models_agree_but_stakes(
            spec_apply_tx(m1, tx)->Some_0,
            spec_apply_tx(m2, tx)->Some_0,
        ) && spec_apply_tx(m1, tx)->Some_0.stakes == m1.stakes && spec_apply_tx(
            m2,
            tx,
        )->Some_0.stakes == m2.stakes,
{
}

/// Sequence application never reads or writes the stakes either.
pub proof fn lemma_apply_txs_stakes(m1: StateModel, m2: StateModel, txs: Seq<Transaction>)
    requires
        models_agree_but_stakes(m1, m2),
    ensures
        spec_apply_txs(m1, txs) is Some <==> spec_apply_txs(m2, txs) is Some,
        spec_apply_txs(m1, txs) is Some ==> models_agree_but_stakes(
            spec_apply_txs(m1, txs)->Some_0,
            spec_apply_txs(m2, txs)->Some_0,
        ) && spec_apply_txs(m1, txs)->Some_0.stakes == m1.stakes && spec_apply_txs(
            m2,
            txs,
        )->Some_0.stakes == m2.stakes,
    decreases txs.len(),
{
    if txs.len() > 0 {
        lemma_apply_txs_stakes(m1, m2, txs.drop_last());
        if spec_apply_txs(m1, txs.drop_last()) is Some {
            lemma_apply_tx_stakes(
                spec_apply_txs(m1, txs.drop_last())->Some_0,
                spec_apply_txs(m2, txs.drop_last())->Some_0,
                txs.last(),
            );
        }
    }
}

/// If a prefix applies but the next transaction does not, the whole
/// sequence does not apply.
proof fn lemma_apply_txs_extend_fail(m: StateModel, txs: Seq<Transaction>, i: int)
    requires
        0 <= i < txs.len(),
        spec_apply_txs(m, txs.take(i)) is Some,
        spec_apply_tx(spec_apply_txs(m, txs.take(i))->Some_0, txs[i]) is None,
    ensures
        spec_apply_txs(m, txs) is None,
    decreases txs.len() - i,
{
    if i == txs.len() - 1 {
        assert(txs.take(txs.len() as int) =~= txs);
        assert(txs.drop_last() =~= txs.take(i));
    } else {
        assert(spec_apply_txs(m, txs.take(i + 1)) is None) by {
            assert(txs.take(i + 1).drop_last() =~= txs.take(i));
            assert(txs.take(i + 1).last() == txs[i]);
        }
        lemma_apply_txs_prefix_none(m, txs, i + 1);
    }
}

/// If a prefix of a sequence fails to apply, the whole sequence fails.
proof fn lemma_apply_txs_prefix_none(m: StateModel, txs: Seq<Transaction>, i: int)
    requires
        0 <= i <= txs.len(),
        spec_apply_txs(m, txs.take(i)) is None,
    ensures
        spec_apply_txs(m, txs) is None,
    decreases txs.len() - i,
{
    if i < txs.len() {
        assert(spec_apply_txs(m, txs.take(i + 1)) is None) by {
            assert(txs.take(i + 1).drop_last() =~= txs.take(i));
        }
        lemma_apply_txs_prefix_none(m, txs, i + 1);
    } else {
        assert(txs.take(i) =~= txs);
    }
}

} // verus!
