//! Checkpoint finality: vote collection, quorum and irreversibility.
//!
//! Heights that are multiples of the checkpoint interval can collect
//! validator votes. The first vote binds the checkpoint to a block hash;
//! a later vote for a different hash at the same height is an
//! equivocation error, never silently accepted. A checkpoint finalizes
//! once the configured number of distinct voters is reached; finality is
//! monotone and prefix-closed: every height up to the highest finalized
//! checkpoint counts as finalized.

use vstd::prelude::*;
use crate::params::ConsensusParams;
use crate::errors::BlockchainError;
use crate::block::{Block, spec_block_hash};
use crate::validator::Validator;
use crate::hashing::bytes_eq;
use crate::strutil::str_eq;
use vstd::string::StringExecFns;

verus! {

/// Represents a checkpoint in the blockchain.
pub struct Checkpoint {
    /// Height of the checkpoint block.
    pub height: u64,
    /// Hash of the checkpoint block.
    pub block_hash: crate::hashing::Hash,
    /// Validators who have voted for this checkpoint, each at most once.
    pub votes: Vec<String>,
    /// Whether this checkpoint is finalized.
    pub finalized: bool,
}

/// Whether a voter list names an address.
pub open spec fn votes_contain(votes: Seq<String>, addr: Seq<char>) -> bool {
    exists|i: int| 0 <= i < votes.len() && (#[trigger] votes[i])@ == addr
}

/// No voter appears twice.
pub open spec fn votes_unique(votes: Seq<String>) -> bool {
    forall|i: int, j: int|
        0 <= i < j < votes.len() ==> (#[trigger] votes[i])@ != (#[trigger] votes[j])@
}

/// The index of the first checkpoint at the given height, if any.
pub open spec fn find_checkpoint(s: Seq<Checkpoint>, height: u64) -> Option<int> {
    if exists|i: int| 0 <= i < s.len() && (#[trigger] s[i]).height == height {
        Some(choose|i: int| 0 <= i < s.len() && (#[trigger] s[i]).height == height)
    } else {
        None
    }
}

/// No two checkpoints share a height.
pub open spec fn checkpoints_unique(s: Seq<Checkpoint>) -> bool {
    forall|i: int, j: int|
        0 <= i < j < s.len() ==> (#[trigger] s[i]).height != (#[trigger] s[j]).height
}

/// Manages the finality of blocks in the blockchain.
pub struct FinalityManager {
    /// Consensus parameters.
    params: ConsensusParams,
    /// Checkpoints, at most one per height.
    checkpoints: Vec<Checkpoint>,
    /// The latest finalized checkpoint height.
    latest_finalized_height: u64,
}

impl FinalityManager {
    /// The configured parameters.
    pub closed spec fn spec_params(&self) -> ConsensusParams {
        self.params
    }

    /// The checkpoints, in creation order.
    pub closed spec fn spec_checkpoints(&self) -> Seq<Checkpoint> {
        self.checkpoints@
    }

    /// The latest finalized checkpoint height.
    pub closed spec fn spec_latest_finalized(&self) -> u64 {
        self.latest_finalized_height
    }

    /// Whether a height counts as finalized: finality is prefix-closed,
    /// so every height up to the latest finalized checkpoint does.
    pub open spec fn spec_is_finalized(&self, height: u64) -> bool {
        height <= self.spec_latest_finalized()
    }

    /// The manager's invariant: usable parameters, at most one checkpoint
    /// per height, aligned heights, distinct voters, and no finalized
    /// checkpoint above the recorded latest finalized height.
    pub open spec fn wf(&self) -> bool {
        &&& self.spec_params().wf()
        &&& checkpoints_unique(self.spec_checkpoints())
        &&& forall|i: int|
            0 <= i < self.spec_checkpoints().len() ==> votes_unique(
                (#[trigger] self.spec_checkpoints()[i]).votes@,
            )
        &&& forall|i: int|
            0 <= i < self.spec_checkpoints().len() ==> (#[trigger] self.spec_checkpoints()[
            i]).height % self.spec_params().checkpoint_interval == 0
        &&& forall|i: int|
            0 <= i < self.spec_checkpoints().len() && (#[trigger] self.spec_checkpoints()[
            i]).finalized ==> self.spec_checkpoints()[i].height <= self.spec_latest_finalized()
    }

    /// Creates a new finality manager with the given parameters.
    pub fn new(params: ConsensusParams) -> (r: Self)
        requires
            params.wf(),
        ensures
            r.wf(),
            r.spec_params() == params,
            r.spec_checkpoints() == Seq::<Checkpoint>::empty(),
            r.spec_latest_finalized() == 0,
    {
        FinalityManager { params, checkpoints: Vec::new(), latest_finalized_height: 0 }
    }

    /// The index of the first checkpoint at this height, if any.
    fn find_index(&self, height: u64) -> (r: Option<usize>)
        ensures
            match r {
                Some(i) => {
                    &&& i < self.spec_checkpoints().len()
                    &&& self.spec_checkpoints()[i as int].height == height
                    &&& forall|j: int|
                        0 <= j < i ==> (#[trigger] self.spec_checkpoints()[j]).height != height
                },
                None => forall|j: int|
                    0 <= j < self.spec_checkpoints().len() ==> (#[trigger] self.spec_checkpoints()[
                    j]).height != height,
            },
            r is Some <==> find_checkpoint(self.spec_checkpoints(), height) is Some,
    {
        let n = self.checkpoints.len();
        for i in 0..n
            invariant
                n == self.checkpoints@.len(),
                forall|j: int| 0 <= j < i ==> (#[trigger] self.checkpoints@[j]).height != height,
        {
            if self.checkpoints[i].height == height {
                return Some(i);
            }
        }
        None
    }

    /// Initializes the finality manager with the genesis block: a
    /// checkpoint at height zero, carried by a synthetic unanimous vote
    /// and finalized unconditionally.
    pub fn initialize_with_genesis(&mut self, genesis_block: &Block) -> (r: Result<
        (),
        BlockchainError,
    >)
        requires
            old(self).wf(),
        ensures
            final(self).wf(),
            r is Ok,
            final(self).spec_params() == old(self).spec_params(),
            final(self).spec_latest_finalized() == old(self).spec_latest_finalized(),
            find_checkpoint(final(self).spec_checkpoints(), 0) matches Some(i) && {
                let c = final(self).spec_checkpoints()[i];
                &&& c.block_hash@ == spec_block_hash(genesis_block.header)
                &&& c.votes@.len() == 1
                &&& c.votes@[0]@ == "Genesis"@
                &&& c.finalized
            },
            forall|h: u64| old(self).spec_is_finalized(h) ==> final(self).spec_is_finalized(h),
    {
        let genesis_hash = match genesis_block.hash() {
            Ok(h) => h,
            Err(e) => { return Err(e) },
        };
        let mut votes: Vec<String> = Vec::new();
        votes.push(String::from_str("Genesis"));
        let checkpoint = Checkpoint { height: 0, block_hash: genesis_hash, votes, finalized: true };
        match self.find_index(0) {
            Some(i) => {
                self.checkpoints.remove(i);
                self.checkpoints.insert(i, checkpoint);
                proof {
                    lemma_find_checkpoint_at(final(self).spec_checkpoints(), 0, i as int);
                }
            },
            None => {
                let ghost n0 = self.checkpoints@.len();
                self.checkpoints.push(checkpoint);
                proof {
                    lemma_find_checkpoint_at(final(self).spec_checkpoints(), 0, n0 as int);
                }
            },
        }
        Ok(())
    }

    /// Adds a vote for a checkpoint from a validator and finalizes the
    /// checkpoint once the quorum is reached. A height off the checkpoint
    /// cadence is rejected; a vote for a different hash than the one the
    /// checkpoint is bound to is an equivocation error, and the bound
    /// hash remains. A rejected vote leaves the manager unchanged.
    #[verifier::rlimit(60)]
    pub fn add_checkpoint_vote(
        &mut self,
        height: u64,
        block_hash: crate::hashing::Hash,
        validator: &Validator,
    ) -> (r: Result<bool, BlockchainError>)
        requires
            old(self).wf(),
        ensures
            final(self).wf(),
            final(self).spec_params() == old(self).spec_params(),
            final(self).spec_latest_finalized() >= old(self).spec_latest_finalized(),
            forall|h: u64| old(self).spec_is_finalized(h) ==> final(self).spec_is_finalized(h),
            height % old(self).spec_params().checkpoint_interval != 0 ==> (r matches Err(
                BlockchainError::StateError(_),
            ) && *final(self) == *old(self)),
            (height % old(self).spec_params().checkpoint_interval == 0 && (find_checkpoint(
                old(self).spec_checkpoints(),
                height,
            ) matches Some(i) && old(self).spec_checkpoints()[i].block_hash@ != block_hash@)) ==> (
            r matches Err(BlockchainError::StateError(_)) && *final(self) == *old(self)),
            (height % old(self).spec_params().checkpoint_interval == 0 && match find_checkpoint(
                old(self).spec_checkpoints(),
                height,
            ) {
                Some(i) => old(self).spec_checkpoints()[i].block_hash@ == block_hash@,
                None => true,
            }) ==> (r is Ok && {
                let cps0 = old(self).spec_checkpoints();
                let cps1 = final(self).spec_checkpoints();
                match find_checkpoint(cps0, height) {
                    None => {
                        &&& cps1.len() == cps0.len() + 1
                        &&& (forall|j: int| 0 <= j < cps0.len() ==> cps1[j] == cps0[j])
                        &&& cps1.last().height == height
                        &&& cps1.last().block_hash@ == block_hash@
                        &&& cps1.last().votes@.len() == 1
                        &&& cps1.last().votes@[0] == validator.address
                        &&& cps1.last().finalized == (1 >= old(
                            self,
                        ).spec_params().finality_quorum)
                        &&& r->Ok_0 == cps1.last().finalized
                    },
                    Some(i) => {
                        &&& cps1.len() == cps0.len()
                        &&& (forall|j: int| 0 <= j < cps0.len() && j != i ==> cps1[j] == cps0[j])
                        &&& cps1[i].height == height
                        &&& cps1[i].block_hash@ == cps0[i].block_hash@
                        &&& cps1[i].votes@ == if votes_contain(
                            cps0[i].votes@,
                            validator.address@,
                        ) {
                            cps0[i].votes@
                        } else {
                            cps0[i].votes@.push(validator.address)
                        }
                        &&& cps1[i].finalized == (cps0[i].finalized || cps1[i].votes@.len()
                            >= old(self).spec_params().finality_quorum)
                        &&& r->Ok_0 == cps1[i].finalized
                    },
                }
            }),
    {
        if height % self.params.checkpoint_interval != 0 {
            return Err(BlockchainError::StateError(String::from_str("Invalid checkpoint height")));
        }
        let i: usize = match self.find_index(height) {
            Some(i) => {
                if !bytes_eq(
                    self.checkpoints[i].block_hash.as_slice(),
                    block_hash.as_slice(),
                ) {
                    return Err(
                        BlockchainError::StateError(String::from_str("Checkpoint hash mismatch")),
                    );
                }
                i
            },
            None => {
                let checkpoint = Checkpoint {
                    height,
                    block_hash,
                    votes: Vec::new(),
                    finalized: false,
                };
                let n = self.checkpoints.len();
                self.checkpoints.push(checkpoint);
                n
            },
        };
        proof {
            lemma_find_checkpoint_at(self.spec_checkpoints(), height, i as int);
        }
        let mut cp = self.checkpoints.remove(i);
        let already = votes_contain_exec(&cp.votes, validator.address.as_str());
        if !already {
            cp.votes.push(validator.address.clone());
        }
        let vote_count = cp.votes.len();
        let was_finalized = cp.finalized;
        let newly_finalized = was_finalized || vote_count as u64 >= self.params.finality_quorum;
        cp.finalized = newly_finalized;
        let cp_height = cp.height;
        self.checkpoints.insert(i, cp);
        if newly_finalized && cp_height > self.latest_finalized_height {
            self.latest_finalized_height = cp_height;
        }
        proof {
            let cps0 = old(self).spec_checkpoints();
            let cps1 = final(self).spec_checkpoints();
            if find_checkpoint(cps0, height) is None {
                assert(forall|j: int| 0 <= j < cps0.len() ==> cps1[j] == cps0[j]);
                assert(cps1.last().height == height);
            }
            assert(checkpoints_unique(cps1));
        }
        Ok(newly_finalized)
    }

    /// Gets the latest finalized checkpoint height.
    pub fn get_latest_finalized_height(&self) -> (r: u64)
        ensures
            r == self.spec_latest_finalized(),
    {
        self.latest_finalized_height
    }

    /// Checks if a block at the given height is finalized: every height
    /// up to the latest finalized checkpoint is.
    pub fn is_finalized(&self, height: u64) -> (r: bool)
        ensures
            r == self.spec_is_finalized(height),
    {
        height <= self.latest_finalized_height
    }

    /// Gets all checkpoints, in creation order, at most one per height.
    pub fn get_checkpoints(&self) -> (r: &Vec<Checkpoint>)
        ensures
            r@ == self.spec_checkpoints(),
    {
        &self.checkpoints
    }

    /// Creates a new unfinalized checkpoint at the given height, bound to
    /// the given hash, with no votes yet. A height off the cadence or
    /// already holding a checkpoint is rejected without change.
    pub fn create_checkpoint(&mut self, height: u64, block_hash: crate::hashing::Hash) -> (r:
        Result<(), BlockchainError>)
        requires
            old(self).wf(),
        ensures
            final(self).wf(),
            final(self).spec_params() == old(self).spec_params(),
            final(self).spec_latest_finalized() == old(self).spec_latest_finalized(),
            r is Ok <==> (height % old(self).spec_params().checkpoint_interval == 0
                && find_checkpoint(old(self).spec_checkpoints(), height) is None),
            r is Ok ==> {
                &&& final(self).spec_checkpoints().len() == old(self).spec_checkpoints().len() + 1
                &&& (forall|j: int|
                    0 <= j < old(self).spec_checkpoints().len() ==> final(self).spec_checkpoints()[
                    j] == old(self).spec_checkpoints()[j])
                &&& final(self).spec_checkpoints().last().height == height
                &&& final(self).spec_checkpoints().last().block_hash@ == block_hash@
                &&& final(self).spec_checkpoints().last().votes@ == Seq::<String>::empty()
                &&& !final(self).spec_checkpoints().last().finalized
            },
            r is Err ==> (r matches Err(BlockchainError::StateError(_)) && *final(self) == *old(
                self,
            )),
    {
        if height % self.params.checkpoint_interval != 0 {
            return Err(BlockchainError::StateError(String::from_str("Invalid checkpoint height")));
        }
        match self.find_index(height) {
            Some(_) => {
                return Err(
                    BlockchainError::StateError(
                        String::from_str("Checkpoint already exists at this height"),
                    ),
                );
            },
            None => {},
        }
        let checkpoint = Checkpoint { height, block_hash, votes: Vec::new(), finalized: false };
        self.checkpoints.push(checkpoint);
        Ok(())
    }
}

/// Finality monotonicity: once a height is finalized it remains
/// finalized after any further operation, since every operation only
/// raises the latest finalized height.
pub proof fn lemma_finality_monotone(before: FinalityManager, after: FinalityManager, height: u64)
    requires
        before.spec_is_finalized(height),
        after.spec_latest_finalized() >= before.spec_latest_finalized(),
    ensures
        after.spec_is_finalized(height),
{
}

/// When exactly one checkpoint carries a height, the find function names
/// its index.
proof fn lemma_find_checkpoint_at(s: Seq<Checkpoint>, height: u64, i: int)
    requires
        0 <= i < s.len(),
        s[i].height == height,
        forall|j: int| 0 <= j < s.len() && j != i ==> (#[trigger] s[j]).height != height,
    ensures
        find_checkpoint(s, height) == Some(i),
{
    assert(exists|k: int| 0 <= k < s.len() && (#[trigger] s[k]).height == height);
    let k = choose|k: int| 0 <= k < s.len() && (#[trigger] s[k]).height == height;
    assert(k == i);
}

/// Whether the voter list names the address.
fn votes_contain_exec(votes: &Vec<String>, addr: &str) -> (r: bool)
    ensures
        r == votes_contain(votes@, addr@),
{
    let n = votes.len();
    for i in 0..n
        invariant
            n == votes@.len(),
            forall|j: int| 0 <= j < i ==> (#[trigger] votes@[j])@ != addr@,
    {
        if str_eq(votes[i].as_str(), addr) {
            return true;
        }
    }
    false
}

} // verus!
