//! The blockchain: a height-indexed block sequence over a ledger state.
//!
//! `add_block` is the single mutation path: it enforces structural
//! validity, the continuity rules (height exactly one past the tip,
//! previous hash equal to the tip's hash), and atomic application — a
//! rejected block leaves chain and ledger exactly as they were.

use vstd::prelude::*;
use crate::errors::BlockchainError;
use crate::block::{Block, block_structurally_valid, spec_block_hash};
use crate::state::{State, StateModel, empty_state_model, spec_apply_txs, bal_of,
    models_agree_but_stakes, lemma_apply_txs_stakes};
use crate::transaction::Transaction;
use crate::hashing::bytes_eq;
use vstd::string::StringExecFns;

verus! {

/// Every block after the first names the hash of its predecessor.
pub open spec fn blocks_continuity(blocks: Seq<Block>) -> bool {
    forall|i: int|
        1 <= i < blocks.len() ==> (#[trigger] blocks[i]).header.prev_hash@ == spec_block_hash(
            blocks[i - 1].header,
        )
}

/// Block heights equal their positions.
pub open spec fn blocks_heights(blocks: Seq<Block>) -> bool {
    forall|i: int| 0 <= i < blocks.len() ==> (#[trigger] blocks[i]).header.height == i
}

/// Every block is structurally valid.
pub open spec fn blocks_valid(blocks: Seq<Block>) -> bool {
    forall|i: int| 0 <= i < blocks.len() ==> block_structurally_valid(#[trigger] blocks[i])
}

/// The ledger state after applying a block sequence in order to `m`, or
/// `None` if any transaction cannot apply.
pub open spec fn spec_apply_blocks(m: StateModel, blocks: Seq<Block>) -> Option<StateModel>
    decreases blocks.len(),
{
    if blocks.len() == 0 {
        Some(m)
    } else {
        match spec_apply_blocks(m, blocks.drop_last()) {
            Some(m2) => spec_apply_txs(m2, blocks.last().transactions@),
            None => None,
        }
    }
}

/// The ledger state a block sequence dictates, replayed from genesis.
pub open spec fn spec_chain_state(blocks: Seq<Block>) -> Option<StateModel> {
    spec_apply_blocks(empty_state_model(), blocks)
}

/// Represents the blockchain and its current state.
pub struct Blockchain {
    /// All blocks in the chain, indexed by height.
    blocks: Vec<Block>,
    /// The current state of the blockchain (account balances, etc.).
    state: State,
    /// The hash of the latest block in the chain.
    latest_hash: crate::hashing::Hash,
    /// The height of the latest block in the chain.
    latest_height: u64,
}

impl Blockchain {
    /// The block sequence, indexed by height.
    pub closed spec fn spec_blocks(&self) -> Seq<Block> {
        self.blocks@
    }

    /// The abstract ledger state.
    pub closed spec fn spec_state(&self) -> StateModel {
        self.state@
    }

    /// The cached hash of the tip block.
    pub closed spec fn spec_latest_hash(&self) -> Seq<u8> {
        self.latest_hash@
    }

    /// The cached height of the tip block.
    pub closed spec fn spec_latest_height(&self) -> u64 {
        self.latest_height
    }

    /// The ledger's internal stores are well formed.
    pub closed spec fn state_wf(&self) -> bool {
        self.state.wf()
    }

    /// The ledger's stake entries, in insertion order.
    pub open spec fn spec_stake_entries(&self) -> Seq<(String, u64)> {
        self.spec_state_ref().spec_stake_entries()
    }

    /// The ledger state value, for spec access to its stored form.
    pub closed spec fn spec_state_ref(&self) -> State {
        self.state
    }

    /// The chain invariant: contiguous heights from zero, valid blocks,
    /// continuous hashes, a cached tip pointer that matches the last
    /// block, and a ledger equal to the replay of every block.
    pub open spec fn wf(&self) -> bool {
        &&& self.state_wf()
        &&& self.spec_blocks().len() == self.spec_latest_height() + 1
        &&& blocks_heights(self.spec_blocks())
        &&& blocks_valid(self.spec_blocks())
        &&& blocks_continuity(self.spec_blocks())
        &&& spec_chain_state(self.spec_blocks()) is Some
        &&& models_agree_but_stakes(
            spec_chain_state(self.spec_blocks())->Some_0,
            self.spec_state(),
        )
        &&& self.spec_latest_hash() == spec_block_hash(self.spec_blocks().last().header)
    }

    /// Whether a block may extend this chain: structurally valid, at the
    /// next height, naming the tip's hash, and applicable to the ledger.
    pub open spec fn spec_can_add(&self, block: Block) -> bool {
        &&& block_structurally_valid(block)
        &&& block.header.height == self.spec_latest_height() + 1
        &&& block.header.prev_hash@ == self.spec_latest_hash()
        &&& spec_apply_txs(self.spec_state(), block.transactions@) is Some
    }

    /// Creates a new blockchain from a genesis block at height zero. The
    /// genesis block must be structurally valid and its transactions must
    /// apply to the empty ledger.
    #[verifier::rlimit(100)]
    pub fn new(genesis_block: Block) -> (r: Result<Blockchain, BlockchainError>)
        ensures
            r is Ok <==> (block_structurally_valid(genesis_block) && genesis_block.header.height
                == 0 && spec_apply_txs(empty_state_model(), genesis_block.transactions@) is Some),
            r is Ok ==> {
                &&& r->Ok_0.wf()
                &&& r->Ok_0.spec_blocks() == seq![genesis_block]
                &&& r->Ok_0.spec_latest_height() == 0
                &&& r->Ok_0.spec_latest_hash() == spec_block_hash(genesis_block.header)
                &&& Some(r->Ok_0.spec_state()) == spec_apply_txs(
                    empty_state_model(),
                    genesis_block.transactions@,
                )
            },
    {
        match genesis_block.validate() {
            Ok(()) => {},
            Err(e) => { return Err(e) },
        }
        if genesis_block.header.height != 0 {
            return Err(
                BlockchainError::InvalidBlock(String::from_str("Genesis block must have height 0")),
            );
        }
        let genesis_hash = match genesis_block.hash() {
            Ok(h) => h,
            Err(e) => { return Err(e) },
        };
        let mut state = State::new();
        match state.apply_block(&genesis_block) {
            Ok(()) => {},
            Err(e) => { return Err(e) },
        }
        let ghost g = genesis_block;
        let ghost m1 = state@;
        let mut blocks: Vec<Block> = Vec::new();
        blocks.push(genesis_block);
        let chain = Blockchain { blocks, state, latest_hash: genesis_hash, latest_height: 0 };
        proof {
            let gb = chain.spec_blocks();
            assert(gb =~= seq![g]);
            assert(gb.drop_last() =~= Seq::<Block>::empty());
            assert(spec_apply_blocks(empty_state_model(), gb.drop_last()) == Some(
                empty_state_model(),
            ));
            assert(gb.last() == g);
            assert(spec_apply_blocks(empty_state_model(), gb) == spec_apply_txs(
                empty_state_model(),
                g.transactions@,
            ));
            assert(spec_apply_txs(empty_state_model(), g.transactions@) == Some(m1));
        }
        Ok(chain)
    }

    /// Adds a new block to the chain: structural validation, continuity
    /// validation, then atomic application. A rejected block leaves the
    /// chain and the ledger unchanged.
    #[verifier::rlimit(100)]
    pub fn add_block(&mut self, block: Block) -> (r: Result<(), BlockchainError>)
        requires
            old(self).wf(),
        ensures
            final(self).wf(),
            r is Ok <==> old(self).spec_can_add(block),
            r is Ok ==> {
                &&& final(self).spec_blocks() == old(self).spec_blocks().push(block)
                &&& final(self).spec_latest_height() == block.header.height
                &&& final(self).spec_latest_hash() == spec_block_hash(block.header)
                &&& Some(final(self).spec_state()) == spec_apply_txs(
                    old(self).spec_state(),
                    block.transactions@,
                )
            },
            r is Err ==> *final(self) == *old(self),
            block_structurally_valid(block) && !(block.header.height == old(
                self,
            ).spec_latest_height() + 1 && block.header.prev_hash@ == old(self).spec_latest_hash())
                ==> (r matches Err(BlockchainError::InvalidBlock(_))),
            block_structurally_valid(block) && block.header.height == old(
                self,
            ).spec_latest_height() + 1 && block.header.prev_hash@ == old(self).spec_latest_hash()
                && spec_apply_txs(old(self).spec_state(), block.transactions@) is None ==> (r
                matches Err(BlockchainError::InvalidTransaction(_))),
    {
        let n = self.blocks.len();
        proof {
            assert(self.latest_height < u64::MAX);
        }
        match block.validate() {
            Ok(()) => {},
            Err(e) => { return Err(e) },
        }
        if block.header.height != self.latest_height + 1 {
            return Err(BlockchainError::InvalidBlock(String::from_str("Invalid block height")));
        }
        if !bytes_eq(block.header.prev_hash.as_slice(), self.latest_hash.as_slice()) {
            return Err(
                BlockchainError::InvalidBlock(
                    String::from_str("Block's previous hash doesn't match the latest hash"),
                ),
            );
        }
        match self.state.apply_block(&block) {
            Ok(()) => {},
            Err(e) => { return Err(e) },
        }
        let block_hash = match block.hash() {
            Ok(h) => h,
            Err(e) => { return Err(e) },
        };
        let block_height = block.header.height;
        self.blocks.push(block);
        self.latest_hash = block_hash;
        self.latest_height = block_height;
        proof {
            assert(final(self).spec_blocks().drop_last() =~= old(self).spec_blocks());
            assert(blocks_heights(final(self).spec_blocks()));
            assert(blocks_valid(final(self).spec_blocks()));
            assert(blocks_continuity(final(self).spec_blocks()));
            let replay_old = spec_chain_state(old(self).spec_blocks())->Some_0;
            lemma_apply_txs_stakes(
                replay_old,
                old(self).spec_state(),
                final(self).spec_blocks().last().transactions@,
            );
        }
        Ok(())
    }

    /// Adds or updates a validator's stake in the ledger. Stakes are
    /// kept beside the replicated balances and move only through this
    /// path, never through transactions.
    pub fn update_validator_stake(&mut self, validator: String, stake: u64)
        requires
            old(self).wf(),
        ensures
            final(self).wf(),
            final(self).spec_blocks() == old(self).spec_blocks(),
            final(self).spec_latest_hash() == old(self).spec_latest_hash(),
            final(self).spec_latest_height() == old(self).spec_latest_height(),
            final(self).spec_state() == (StateModel {
                stakes: old(self).spec_state().stakes.insert(validator@, stake),
                ..old(self).spec_state()
            }),
    {
        let ghost v = validator@;
        self.state.update_validator_stake(validator, stake);
    }

    /// Gets a block by its height.
    #[verifier::rlimit(100)]
    pub fn get_block_by_height(&self, height: u64) -> (r: Option<&Block>)
        requires
            self.wf(),
        ensures
            height <= self.spec_latest_height() ==> (r matches Some(b) && *b == self.spec_blocks()[
                height as int]),
            height > self.spec_latest_height() ==> r is None,
    {
        let n = self.blocks.len();
        if height <= self.latest_height {
            proof {
                assert(height < n);
            }
            Some(&self.blocks[height as usize])
        } else {
            None
        }
    }

    /// Gets the latest block in the chain.
    pub fn get_latest_block(&self) -> (r: Option<&Block>)
        requires
            self.wf(),
        ensures
            r matches Some(b) && *b == self.spec_blocks().last(),
    {
        Some(&self.blocks[self.blocks.len() - 1])
    }

    /// Gets the current height of the chain's tip.
    pub fn get_latest_height(&self) -> (r: u64)
        ensures
            r == self.spec_latest_height(),
    {
        self.latest_height
    }

    /// Borrows the current ledger state of the blockchain.
    pub fn get_state(&self) -> (r: &State)
        requires
            self.wf(),
        ensures
            r@ == self.spec_state(),
            *r == self.spec_state_ref(),
            r.wf(),
    {
        &self.state
    }

    /// Gets the balance of an account. It never fails.
    pub fn get_balance(&self, address: &str) -> (r: Result<u64, BlockchainError>)
        ensures
            r is Ok,
            r->Ok_0 == bal_of(self.spec_state().balances, address@),
    {
        Ok(self.state.get_balance(address))
    }

    /// Validates the entire blockchain by replaying every block from
    /// height zero against a fresh ledger: it succeeds exactly when every
    /// block is structurally valid and the whole replay applies, and on a
    /// well-formed chain the replayed state reproduces the current ledger
    /// (stakes aside, which move outside of blocks).
    pub fn validate_chain(&self) -> (r: Result<(), BlockchainError>)
        ensures
            r is Ok <==> (blocks_valid(self.spec_blocks()) && spec_chain_state(self.spec_blocks())
                is Some),
            r is Err ==> (r matches Err(BlockchainError::InvalidBlock(_)) || r matches Err(
                BlockchainError::InvalidTransaction(_),
            )),
            (r is Ok && self.wf()) ==> models_agree_but_stakes(
                spec_chain_state(self.spec_blocks())->Some_0,
                self.spec_state(),
            ),
    {
        let mut state = State::new();
        let n = self.blocks.len();
        proof {
            assert(self.spec_blocks().take(0) =~= Seq::<Block>::empty());
        }
        for height in 0..n
            invariant
                n == self.spec_blocks().len(),
                state.wf(),
                forall|j: int|
                    0 <= j < height ==> block_structurally_valid(#[trigger] self.spec_blocks()[j]),
                spec_apply_blocks(empty_state_model(), self.spec_blocks().take(height as int))
                    == Some(state@),
        {
            let block = &self.blocks[height];
            match block.validate() {
                Ok(()) => {},
                Err(e) => {
                    proof {
                        assert(!block_structurally_valid(self.spec_blocks()[height as int]));
                        assert(!blocks_valid(self.spec_blocks()));
                    }
                    return Err(e);
                },
            }
            proof {
                assert(self.spec_blocks().take(height + 1).drop_last() =~= self.spec_blocks().take(
                    height as int,
                ));
                assert(self.spec_blocks().take(height + 1).last() == self.spec_blocks()[
                height as int]);
            }
            match state.apply_block(block) {
                Ok(()) => {},
                Err(e) => {
                    proof {
                        assert(spec_apply_blocks(
                            empty_state_model(),
                            self.spec_blocks().take(height + 1),
                        ) is None);
                        lemma_apply_blocks_prefix_none(
                            empty_state_model(),
                            self.spec_blocks(),
                            height + 1,
                        );
                    }
                    return Err(e);
                },
            }
        }
        proof {
            assert(self.spec_blocks().take(n as int) =~= self.spec_blocks());
        }
        Ok(())
    }

    /// Creates a transaction after checking that the sender can cover
    /// amount plus fee out of the current ledger.
    pub fn create_transaction(
        &self,
        sender: String,
        recipient: String,
        amount: u64,
        fee: u64,
        data: Option<Vec<u8>>,
    ) -> (r: Result<Transaction, BlockchainError>)
        ensures
            r is Ok <==> bal_of(self.spec_state().balances, sender@) >= amount + fee,
            r is Ok ==> {
                &&& r->Ok_0.sender == sender
                &&& r->Ok_0.recipient == recipient
                &&& r->Ok_0.amount == amount
                &&& r->Ok_0.fee == fee
                &&& r->Ok_0.data == data
                &&& r->Ok_0.signature is None
                &&& r->Ok_0.id@ == crate::transaction::tx_id(r->Ok_0)
            },
            r is Err ==> r matches Err(BlockchainError::InvalidTransaction(_)),
    {
        let sender_balance = self.state.get_balance(sender.as_str());
        if fee > u64::MAX - amount || sender_balance < amount + fee {
            return Err(
                BlockchainError::InvalidTransaction(String::from_str("Insufficient balance")),
            );
        }
        Transaction::new(sender, recipient, amount, fee, data)
    }
}

/// The amount a transaction mints: its amount if it is a coinbase,
/// nothing otherwise.
pub open spec fn coinbase_amount(tx: Transaction) -> int {
    if crate::transaction::spec_is_coinbase(tx) {
        tx.amount as int
    } else {
        0
    }
}

/// The total amount minted by a transaction sequence.
pub open spec fn sum_coinbase_txs(txs: Seq<Transaction>) -> int
    decreases txs.len(),
{
    if txs.len() == 0 {
        0
    } else {
        sum_coinbase_txs(txs.drop_last()) + coinbase_amount(txs.last())
    }
}

/// The total amount minted by a block sequence.
pub open spec fn sum_coinbase_blocks(blocks: Seq<Block>) -> int
    decreases blocks.len(),
{
    if blocks.len() == 0 {
        0
    } else {
        sum_coinbase_blocks(blocks.drop_last()) + sum_coinbase_txs(blocks.last().transactions@)
    }
}

/// Applying a transaction sequence raises the total supply by exactly
/// the coinbase amounts it carries: ordinary transactions create nothing.
pub proof fn lemma_supply_txs(m: StateModel, txs: Seq<Transaction>)
    requires
        spec_apply_txs(m, txs) is Some,
    ensures
        spec_apply_txs(m, txs)->Some_0.total_supply == m.total_supply + sum_coinbase_txs(txs),
    decreases txs.len(),
{
    if txs.len() > 0 {
        lemma_supply_txs(m, txs.drop_last());
    }
}

/// Supply conservation: on a chain replayed from genesis, the total
/// supply equals the sum of all coinbase amounts in its blocks; there is
/// no other source of balance creation.
pub proof fn lemma_supply_conservation(blocks: Seq<Block>)
    requires
        spec_chain_state(blocks) is Some,
    ensures
        spec_chain_state(blocks)->Some_0.total_supply == sum_coinbase_blocks(blocks),
    decreases blocks.len(),
{
    if blocks.len() > 0 {
        lemma_supply_conservation(blocks.drop_last());
        lemma_supply_txs(
            spec_chain_state(blocks.drop_last())->Some_0,
            blocks.last().transactions@,
        );
    }
}

/// If the replay of a prefix fails, the replay of the whole sequence
/// fails as well.
proof fn lemma_apply_blocks_prefix_none(m: StateModel, blocks: Seq<Block>, i: int)
    requires
        0 <= i <= blocks.len(),
        spec_apply_blocks(m, blocks.take(i)) is None,
    ensures
        spec_apply_blocks(m, blocks) is None,
    decreases blocks.len() - i,
{
    if i < blocks.len() {
        assert(blocks.take(i + 1).drop_last() =~= blocks.take(i));
        lemma_apply_blocks_prefix_none(m, blocks, i + 1);
    } else {
        assert(blocks.take(i) =~= blocks);
    }
}

} // verus!
