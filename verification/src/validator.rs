//! Validator registry: registration, staking, slashing and the derived
//! active set.
//!
//! The active set is a pure projection of the registry: validators with
//! sufficient stake, ordered by descending stake with ties broken by
//! address bytes for determinism, truncated to the configured size. It is
//! recomputed on demand and never cached.

use vstd::prelude::*;
use vstd::utf8::encode_utf8;
use vstd::math::min;
use crate::errors::BlockchainError;
use crate::strutil::{lex_lt, bytes_lt, str_eq};
use vstd::string::StringExecFns;

verus! {

/// Represents a validator in the blockchain network.
pub struct Validator {
    /// Validator's address (public key).
    pub address: String,
    /// Amount of GENX tokens staked by this validator.
    pub stake: u64,
    /// Height of the last block produced by this validator.
    pub last_block_produced: u64,
}

/// Validator status in the network.
#[derive(Clone, Debug, PartialEq)]
pub enum ValidatorStatus {
    /// Validator is active and can produce blocks.
    Active,
    /// Validator is inactive (not enough stake or not selected).
    Inactive,
    /// Validator has been slashed for malicious behavior.
    Slashed,
    /// Validator is jailed temporarily.
    Jailed,
}

/// The canonical order of the active set: higher stake first, ties
/// broken by the lexicographic order of the address bytes.
pub open spec fn val_lt(a: Validator, b: Validator) -> bool {
    ||| a.stake > b.stake
    ||| (a.stake == b.stake && lex_lt(encode_utf8(a.address@), encode_utf8(b.address@)))
}

/// The index of the first validator with the given address, if any.
pub open spec fn find_validator(s: Seq<Validator>, addr: Seq<char>) -> Option<int> {
    if exists|i: int| 0 <= i < s.len() && (#[trigger] s[i]).address@ == addr {
        Some(choose|i: int| 0 <= i < s.len() && (#[trigger] s[i]).address@ == addr)
    } else {
        None
    }
}

/// No two validators share an address.
pub open spec fn validators_unique(s: Seq<Validator>) -> bool {
    forall|i: int, j: int|
        0 <= i < j < s.len() ==> (#[trigger] s[i]).address@ != (#[trigger] s[j]).address@
}

impl Validator {
    /// Creates a new validator with the given address and stake.
    pub fn new(address: String, stake: u64) -> (r: Self)
        ensures
            r.address == address,
            r.stake == stake,
            r.last_block_produced == 0,
    {
        Validator { address, stake, last_block_produced: 0 }
    }

    /// Updates the validator's stake.
    pub fn update_stake(&mut self, new_stake: u64)
        ensures
            final(self).address == old(self).address,
            final(self).stake == new_stake,
            final(self).last_block_produced == old(self).last_block_produced,
    {
        self.stake = new_stake;
    }

    /// Records that this validator produced a block at the given height.
    pub fn record_block_production(&mut self, height: u64)
        ensures
            final(self).address == old(self).address,
            final(self).stake == old(self).stake,
            final(self).last_block_produced == height,
    {
        self.last_block_produced = height;
    }

    /// Builds an independent copy of this validator.
    pub fn duplicate(&self) -> (r: Self)
        ensures
            r == *self,
    {
        Validator {
            address: self.address.clone(),
            stake: self.stake,
            last_block_produced: self.last_block_produced,
        }
    }

    /// Decides the canonical active-set order against another validator.
    pub fn comes_before(&self, other: &Validator) -> (r: bool)
        ensures
            r == val_lt(*self, *other),
    {
        if self.stake != other.stake {
            self.stake > other.stake
        } else {
            bytes_lt(self.address.as_str().as_bytes(), other.address.as_str().as_bytes())
        }
    }
}

/// Inserting a validator into a sorted sequence at the first position
/// whose element it precedes.
pub open spec fn spec_insert_sorted(x: Validator, s: Seq<Validator>) -> Seq<Validator>
    decreases s.len(),
{
    if s.len() == 0 {
        seq![x]
    } else if val_lt(x, s.first()) {
        seq![x] + s
    } else {
        seq![s.first()] + spec_insert_sorted(x, s.drop_first())
    }
}

/// Insertion sort of a validator sequence under the canonical order.
pub open spec fn spec_sort_validators(s: Seq<Validator>) -> Seq<Validator>
    decreases s.len(),
{
    if s.len() == 0 {
        Seq::empty()
    } else {
        spec_insert_sorted(s.last(), spec_sort_validators(s.drop_last()))
    }
}

/// The derived active set: qualifying validators in canonical order,
/// truncated to `max` entries.
pub open spec fn spec_active_set(s: Seq<Validator>, min_stake: u64, max: int) -> Seq<Validator> {
    let eligible = spec_sort_validators(s).filter(|v: Validator| v.stake >= min_stake);
    eligible.take(min(max, eligible.len() as int))
}

/// Inserting at the first index whose element the new one precedes
/// realizes the sorted insertion.
proof fn lemma_insert_sorted_at(x: Validator, s: Seq<Validator>, j: int)
    requires
        0 <= j <= s.len(),
        forall|k: int| 0 <= k < j ==> !val_lt(x, #[trigger] s[k]),
        j < s.len() ==> val_lt(x, s[j]),
    ensures
        spec_insert_sorted(x, s) == s.insert(j, x),
    decreases s.len(),
{
    if s.len() == 0 {
        assert(spec_insert_sorted(x, s) =~= s.insert(0, x));
    } else if j == 0 {
        assert(spec_insert_sorted(x, s) =~= s.insert(0, x));
    } else {
        lemma_insert_sorted_at(x, s.drop_first(), j - 1);
        assert(spec_insert_sorted(x, s) =~= s.insert(j, x)) by {
            assert(spec_insert_sorted(x, s) == seq![s.first()] + spec_insert_sorted(
                x,
                s.drop_first(),
            ));
            assert(seq![s.first()] + s.drop_first().insert(j - 1, x) =~= s.insert(j, x));
        }
    }
}

/// Inserts a validator into a vector sorted by the canonical order,
/// keeping it sorted.
fn insert_sorted(out: &mut Vec<Validator>, x: Validator)
    ensures
        final(out)@ == spec_insert_sorted(x, old(out)@),
{
    let n = out.len();
    let mut j: usize = 0;
    while j < n && !x.comes_before(&out[j])
        invariant
            n == out@.len(),
            j <= n,
            *out == *old(out),
            forall|k: int| 0 <= k < j ==> !val_lt(x, #[trigger] out@[k]),
        decreases n - j,
    {
        j = j + 1;
    }
    out.insert(j, x);
    proof {
        lemma_insert_sorted_at(x, old(out)@, j as int);
    }
}

/// Manages the set of validators in the network.
pub struct ValidatorManager {
    /// All registered validators.
    validators: Vec<Validator>,
    /// Minimum stake required to become a validator.
    min_stake: u64,
    /// Maximum number of active validators.
    max_validators: usize,
}

impl ValidatorManager {
    /// The registered validators, in registration order.
    pub closed spec fn spec_validators(&self) -> Seq<Validator> {
        self.validators@
    }

    /// The configured minimum stake.
    pub closed spec fn spec_min_stake(&self) -> u64 {
        self.min_stake
    }

    /// The configured active-set size limit.
    pub closed spec fn spec_max_validators(&self) -> usize {
        self.max_validators
    }

    /// Registered addresses are pairwise distinct.
    pub open spec fn wf(&self) -> bool {
        validators_unique(self.spec_validators())
    }

    /// Creates a new validator manager with the given parameters.
    pub fn new(min_stake: u64, max_validators: usize) -> (r: Self)
        ensures
            r.wf(),
            r.spec_validators() == Seq::<Validator>::empty(),
            r.spec_min_stake() == min_stake,
            r.spec_max_validators() == max_validators,
    {
        ValidatorManager { validators: Vec::new(), min_stake, max_validators }
    }

    /// The index of the first registered validator with this address.
    fn find_index(&self, address: &str) -> (r: Option<usize>)
        ensures
            match r {
                Some(i) => {
                    &&& i < self.spec_validators().len()
                    &&& self.spec_validators()[i as int].address@ == address@
                    &&& forall|j: int|
                        0 <= j < i ==> (#[trigger] self.spec_validators()[j]).address@ != address@
                },
                None => forall|j: int|
                    0 <= j < self.spec_validators().len() ==> (#[trigger] self.spec_validators()[
                    j]).address@ != address@,
            },
            r is Some <==> find_validator(self.spec_validators(), address@) is Some,
    {
        let n = self.validators.len();
        for i in 0..n
            invariant
                n == self.validators@.len(),
                forall|j: int| 0 <= j < i ==> (#[trigger] self.validators@[j]).address@ != address@,
        {
            if str_eq(self.validators[i].address.as_str(), address) {
                return Some(i);
            }
        }
        None
    }

    /// Registers a new validator. It fails if the address is already
    /// registered or the stake is below the minimum.
    pub fn register_validator(&mut self, address: String, stake: u64) -> (r: Result<
        (),
        BlockchainError,
    >)
        requires
            old(self).wf(),
        ensures
            final(self).wf(),
            final(self).spec_min_stake() == old(self).spec_min_stake(),
            final(self).spec_max_validators() == old(self).spec_max_validators(),
            r is Ok <==> (find_validator(old(self).spec_validators(), address@) is None && stake
                >= old(self).spec_min_stake()),
            r is Ok ==> final(self).spec_validators() == old(self).spec_validators().push(
                Validator { address, stake, last_block_produced: 0 },
            ),
            r is Err ==> *final(self) == *old(self) && (r matches Err(
                BlockchainError::StateError(_),
            )),
    {
        match self.find_index(address.as_str()) {
            Some(_) => {
                return Err(
                    BlockchainError::StateError(String::from_str("Validator already registered")),
                );
            },
            None => {},
        }
        if stake < self.min_stake {
            return Err(BlockchainError::StateError(String::from_str("Insufficient stake")));
        }
        let validator = Validator::new(address, stake);
        self.validators.push(validator);
        Ok(())
    }

    /// Updates a registered validator's stake. It fails if the address
    /// is not registered.
    pub fn update_validator_stake(&mut self, address: &str, new_stake: u64) -> (r: Result<
        (),
        BlockchainError,
    >)
        requires
            old(self).wf(),
        ensures
            final(self).wf(),
            final(self).spec_min_stake() == old(self).spec_min_stake(),
            final(self).spec_max_validators() == old(self).spec_max_validators(),
            r is Ok <==> find_validator(old(self).spec_validators(), address@) is Some,
            r is Ok ==> (exists|i: int|
                {
                    &&& 0 <= i < old(self).spec_validators().len()
                    &&& old(self).spec_validators()[i].address@ == address@
                    &&& final(self).spec_validators() == old(self).spec_validators().update(
                        i,
                        Validator { stake: new_stake, ..old(self).spec_validators()[i] },
                    )
                }),
            r is Err ==> *final(self) == *old(self) && (r matches Err(
                BlockchainError::StateError(_),
            )),
    {
        let i = match self.find_index(address) {
            Some(i) => i,
            None => {
                return Err(BlockchainError::StateError(String::from_str("Validator not found")));
            },
        };
        let mut v = self.validators.remove(i);
        v.update_stake(new_stake);
        self.validators.insert(i, v);
        proof {
            assert(final(self).spec_validators() =~= old(self).spec_validators().update(
                i as int,
                Validator { stake: new_stake, ..old(self).spec_validators()[i as int] },
            ));
        }
        Ok(())
    }

    /// Gets the active validator set: validators with stake at least the
    /// minimum, by descending stake with address ties fixed, truncated to
    /// the configured size.
    pub fn get_active_validators(&self) -> (r: Vec<Validator>)
        ensures
            r@ == spec_active_set(
                self.spec_validators(),
                self.spec_min_stake(),
                self.spec_max_validators() as int,
            ),
    {
        compute_active_set(&self.validators, self.min_stake, self.max_validators)
    }
}

/// Computes the active set of a validator list: qualifying validators in
/// canonical order, truncated to `max_validators` entries.
pub fn compute_active_set(validators: &Vec<Validator>, min_stake: u64, max_validators: usize) -> (r:
    Vec<Validator>)
    ensures
        r@ == spec_active_set(validators@, min_stake, max_validators as int),
{
    {
        let n = validators.len();
        let mut sorted: Vec<Validator> = Vec::new();
        for i in 0..n
            invariant
                n == validators@.len(),
                sorted@ == spec_sort_validators(validators@.take(i as int)),
        {
            insert_sorted(&mut sorted, validators[i].duplicate());
            proof {
                assert(validators@.take(i + 1).drop_last() =~= validators@.take(i as int));
                assert(validators@.take(i + 1).last() == validators@[i as int]);
            }
        }
        proof {
            assert(validators@.take(n as int) =~= validators@);
        }
        let ghost pred = |v: Validator| v.stake >= min_stake;
        let ghost eligible = sorted@.filter(pred);
        let mut out: Vec<Validator> = Vec::new();
        let m = sorted.len();
        proof {
            reveal(Seq::filter);
            assert(sorted@.take(0).filter(pred) =~= Seq::<Validator>::empty());
        }
        for i in 0..m
            invariant
                m == sorted@.len(),
                out@ == {
                    let f = sorted@.take(i as int).filter(pred);
                    f.take(min(max_validators as int, f.len() as int))
                },
                sorted@.take(i as int).filter(pred).len() >= out@.len(),
                pred == (|v: Validator| v.stake >= min_stake),
        {
            let ghost f0 = sorted@.take(i as int).filter(pred);
            proof {
                reveal(Seq::filter);
                assert(sorted@.take(i + 1).drop_last() =~= sorted@.take(i as int));
                assert(sorted@.take(i + 1).last() == sorted@[i as int]);
            }
            if out.len() < max_validators && sorted[i].stake >= min_stake {
                proof {
                    sorted@.take(i as int).lemma_filter_len(pred);
                    assert(out@.len() == f0.len());
                }
                out.push(sorted[i].duplicate());
                proof {
                    let f1 = sorted@.take(i + 1).filter(pred);
                    assert(f1 == f0.push(sorted@[i as int]));
                    assert(out@ =~= f1.take(min(max_validators as int, f1.len() as int)));
                }
            } else {
                proof {
                    let f1 = sorted@.take(i + 1).filter(pred);
                    if sorted@[i as int].stake >= min_stake {
                        assert(f1 == f0.push(sorted@[i as int]));
                        assert(out@.len() == max_validators);
                        assert(out@ =~= f1.take(min(max_validators as int, f1.len() as int)));
                    } else {
                        assert(f1 == f0);
                    }
                }
            }
        }
        proof {
            assert(sorted@.take(m as int) =~= sorted@);
        }
        out
    }
}

impl ValidatorManager {
    /// Slashes a validator by an integer percentage of its stake (at most
    /// one hundred), returning the amount removed. It fails if the
    /// address is not registered.
    pub fn slash_validator(&mut self, address: &str, slash_percent: u64) -> (r: Result<
        u64,
        BlockchainError,
    >)
        requires
            old(self).wf(),
            slash_percent <= 100,
        ensures
            final(self).wf(),
            final(self).spec_min_stake() == old(self).spec_min_stake(),
            final(self).spec_max_validators() == old(self).spec_max_validators(),
            r is Ok <==> find_validator(old(self).spec_validators(), address@) is Some,
            r is Ok ==> (exists|i: int|
                {
                    &&& 0 <= i < old(self).spec_validators().len()
                    &&& old(self).spec_validators()[i].address@ == address@
                    &&& r->Ok_0 == old(self).spec_validators()[i].stake * slash_percent / 100
                    &&& final(self).spec_validators() == old(self).spec_validators().update(
                        i,
                        Validator {
                            stake: (old(self).spec_validators()[i].stake - r->Ok_0) as u64,
                            ..old(self).spec_validators()[i]
                        },
                    )
                }),
            r is Err ==> *final(self) == *old(self) && (r matches Err(
                BlockchainError::StateError(_),
            )),
    {
        let i = match self.find_index(address) {
            Some(i) => i,
            None => {
                return Err(BlockchainError::StateError(String::from_str("Validator not found")));
            },
        };
        let mut v = self.validators.remove(i);
        let stake = v.stake;
        proof {
            assert(stake * slash_percent <= stake * 100 && stake * slash_percent / 100 <= stake)
                by (nonlinear_arith)
                requires
                    slash_percent <= 100,
            ;
        }
        let slash_amount = (stake as u128 * slash_percent as u128 / 100) as u64;
        v.stake = stake - slash_amount;
        self.validators.insert(i, v);
        proof {
            assert(final(self).spec_validators() =~= old(self).spec_validators().update(
                i as int,
                Validator {
                    stake: (old(self).spec_validators()[i as int].stake - slash_amount) as u64,
                    ..old(self).spec_validators()[i as int]
                },
            ));
        }
        Ok(slash_amount)
    }

    /// Removes a validator from the set. It fails if the address is not
    /// registered.
    pub fn remove_validator(&mut self, address: &str) -> (r: Result<(), BlockchainError>)
        requires
            old(self).wf(),
        ensures
            final(self).wf(),
            final(self).spec_min_stake() == old(self).spec_min_stake(),
            final(self).spec_max_validators() == old(self).spec_max_validators(),
            r is Ok <==> find_validator(old(self).spec_validators(), address@) is Some,
            r is Ok ==> (exists|i: int|
                {
                    &&& 0 <= i < old(self).spec_validators().len()
                    &&& old(self).spec_validators()[i].address@ == address@
                    &&& final(self).spec_validators() == old(self).spec_validators().remove(i)
                }),
            r is Err ==> *final(self) == *old(self) && (r matches Err(
                BlockchainError::StateError(_),
            )),
    {
        let i = match self.find_index(address) {
            Some(i) => i,
            None => {
                return Err(BlockchainError::StateError(String::from_str("Validator not found")));
            },
        };
        self.validators.remove(i);
        Ok(())
    }
}

} // verus!
