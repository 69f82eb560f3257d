//! Blocks: headers, merkle roots and structural validation.
//!
//! A block's merkle root is the digest of the canonical encoding of its
//! transaction sequence (order-sensitive), or all zero bytes for an empty
//! block. A block's hash is the digest of its encoded header.

use vstd::prelude::*;
use crate::hashing::{sha256, sha256_of, bytes_eq, HASH_LEN};
use crate::codec::{u32_le, u64_le, enc_bytes, enc_str, enc_opt_bytes, push_u32_le, push_u64_le,
    push_bytes, push_str, push_opt_bytes};
use crate::errors::BlockchainError;
use crate::transaction::{Transaction, tx_preimage, tx_valid, data_view};
use crate::clock::current_timestamp;
use vstd::string::StringExecFns;

verus! {

/// The all-zero digest used as the previous hash of the genesis block and
/// as the merkle root of an empty block.
pub open spec fn zero_hash() -> Seq<u8> {
    Seq::new(HASH_LEN as nat, |i: int| 0u8)
}

/// Block header containing metadata about the block.
pub struct BlockHeader {
    /// Version of the block structure.
    pub version: u32,
    /// Height/index of the block in the chain.
    pub height: u64,
    /// Timestamp when the block was created (seconds since Unix epoch).
    pub timestamp: u64,
    /// Hash of the previous block in the chain.
    pub prev_hash: crate::hashing::Hash,
    /// Merkle root of all transactions in the block.
    pub merkle_root: crate::hashing::Hash,
    /// Validator who created this block (in PoS).
    pub validator: String,
    /// Validator's signature of the block.
    pub signature: Option<Vec<u8>>,
}

/// Represents a block in the blockchain.
pub struct Block {
    /// Block header containing metadata.
    pub header: BlockHeader,
    /// Transactions included in this block.
    pub transactions: Vec<Transaction>,
}

/// The full canonical encoding of one transaction, id and signature
/// included, as it enters the merkle computation.
#[verifier::opaque]
pub open spec fn tx_full_encoding(tx: Transaction) -> Seq<u8> {
    enc_bytes(tx.id@) + tx_preimage(tx) + enc_opt_bytes(data_view(tx.signature))
}

/// The concatenated encodings of a transaction sequence.
#[verifier::opaque]
pub open spec fn txs_encoding(txs: Seq<Transaction>) -> Seq<u8>
    decreases txs.len(),
{
    if txs.len() == 0 {
        Seq::empty()
    } else {
        txs_encoding(txs.drop_last()) + tx_full_encoding(txs.last())
    }
}

/// The merkle root a transaction sequence dictates.
pub open spec fn spec_merkle_root(txs: Seq<Transaction>) -> Seq<u8> {
    if txs.len() == 0 {
        zero_hash()
    } else {
        sha256_of(txs_encoding(txs))
    }
}

/// The canonical byte encoding of a header, over every field.
#[verifier::opaque]
pub open spec fn header_preimage(h: BlockHeader) -> Seq<u8> {
    u32_le(h.version) + u64_le(h.height) + u64_le(h.timestamp) + enc_bytes(h.prev_hash@)
        + enc_bytes(h.merkle_root@) + enc_str(h.validator@) + enc_opt_bytes(data_view(h.signature))
}

/// The hash a header's contents dictate.
pub open spec fn spec_block_hash(h: BlockHeader) -> Seq<u8> {
    sha256_of(header_preimage(h))
}

/// A structurally valid block: the declared merkle root matches the
/// transactions and every transaction is valid.
pub open spec fn block_structurally_valid(b: Block) -> bool {
    &&& b.header.merkle_root@ == spec_merkle_root(b.transactions@)
    &&& forall|i: int| 0 <= i < b.transactions@.len() ==> tx_valid(#[trigger] b.transactions@[i])
}

/// Builds a hash holding only zero bytes.
pub fn make_zero_hash() -> (r: crate::hashing::Hash)
    ensures
        r@ == zero_hash(),
{
    let mut out: Vec<u8> = Vec::new();
    for i in 0..HASH_LEN
        invariant
            out@.len() == i,
            forall|j: int| 0 <= j < i ==> out@[j] == 0u8,
    {
        out.push(0u8);
    }
    proof {
        assert(out@ =~= zero_hash());
    }
    out
}

/// The canonical encoding of a transaction sequence.
pub fn encode_transactions(txs: &Vec<Transaction>) -> (r: Vec<u8>)
    ensures
        r@ == txs_encoding(txs@),
{
    proof {
        reveal(txs_encoding);
    }
    let mut out: Vec<u8> = Vec::new();
    let n = txs.len();
    for i in 0..n
        invariant
            n == txs@.len(),
            out@ == txs_encoding(txs@.take(i as int)),
    {
        proof {
            reveal(txs_encoding);
            reveal(tx_full_encoding);
        }
        let tx = &txs[i];
        push_bytes(&mut out, tx.id.as_slice());
        let preimage = tx.encode_for_id();
        let mut k: usize = 0;
        let m = preimage.len();
        while k < m
            invariant
                m == preimage@.len(),
                k <= m,
                out@ == txs_encoding(txs@.take(i as int)) + enc_bytes(txs@[i as int].id@)
                    + preimage@.take(k as int),
                preimage@ == tx_preimage(txs@[i as int]),
            decreases m - k,
        {
            out.push(preimage[k]);
            proof {
                assert(preimage@.take(k + 1) =~= preimage@.take(k as int).push(
                    preimage@[k as int],
                ));
            }
            k = k + 1;
        }
        proof {
            assert(preimage@.take(m as int) =~= preimage@);
        }
        push_opt_bytes(&mut out, &tx.signature);
        proof {
            assert(txs@.take(i + 1).drop_last() =~= txs@.take(i as int));
            assert(txs@.take(i + 1).last() == txs@[i as int]);
            assert(out@ =~= txs_encoding(txs@.take(i + 1)));
        }
    }
    proof {
        assert(txs@.take(n as int) =~= txs@);
    }
    out
}

/// Validates every transaction of a block body in order, stopping at the
/// first invalid one.
fn validate_transactions(txs: &Vec<Transaction>) -> (r: Result<(), BlockchainError>)
    ensures
        r is Ok <==> (forall|i: int| 0 <= i < txs@.len() ==> tx_valid(#[trigger] txs@[i])),
        r is Err ==> r matches Err(BlockchainError::InvalidTransaction(_)),
{
    let n = txs.len();
    for i in 0..n
        invariant
            n == txs@.len(),
            forall|j: int| 0 <= j < i ==> tx_valid(#[trigger] txs@[j]),
    {
        match txs[i].validate() {
            Ok(()) => {},
            Err(e) => { return Err(e) },
        }
    }
    Ok(())
}

impl Block {
    /// Calculates the merkle root of the transactions. It never fails.
    pub fn calculate_merkle_root(transactions: &Vec<Transaction>) -> (r: Result<
        crate::hashing::Hash,
        BlockchainError,
    >)
        ensures
            r is Ok,
            r->Ok_0@ == spec_merkle_root(transactions@),
    {
        if transactions.len() == 0 {
            return Ok(make_zero_hash());
        }
        let encoded = encode_transactions(transactions);
        Ok(sha256(encoded.as_slice()))
    }

    /// Creates a block at the given height and previous hash, carrying
    /// the given timestamp, with its merkle root computed from the
    /// transactions.
    pub fn new_at(
        timestamp: u64,
        height: u64,
        prev_hash: crate::hashing::Hash,
        transactions: Vec<Transaction>,
        validator: String,
    ) -> (r: Result<Block, BlockchainError>)
        ensures
            r is Ok,
            r->Ok_0.header.version == 1,
            r->Ok_0.header.height == height,
            r->Ok_0.header.timestamp == timestamp,
            r->Ok_0.header.prev_hash == prev_hash,
            r->Ok_0.header.merkle_root@ == spec_merkle_root(transactions@),
            r->Ok_0.header.validator == validator,
            r->Ok_0.header.signature is None,
            r->Ok_0.transactions == transactions,
    {
        let merkle_root = match Self::calculate_merkle_root(&transactions) {
            Ok(m) => m,
            Err(e) => { return Err(e) },
        };
        let header = BlockHeader {
            version: 1,
            height,
            timestamp,
            prev_hash,
            merkle_root,
            validator,
            signature: None,
        };
        Ok(Block { header, transactions })
    }

    /// Creates a new block timestamped with the current time.
    pub fn new(
        height: u64,
        prev_hash: crate::hashing::Hash,
        transactions: Vec<Transaction>,
        validator: String,
    ) -> (r: Result<Block, BlockchainError>)
        ensures
            r is Ok,
            r->Ok_0.header.version == 1,
            r->Ok_0.header.height == height,
            r->Ok_0.header.prev_hash == prev_hash,
            r->Ok_0.header.merkle_root@ == spec_merkle_root(transactions@),
            r->Ok_0.header.validator == validator,
            r->Ok_0.header.signature is None,
            r->Ok_0.transactions == transactions,
    {
        let timestamp = current_timestamp();
        Self::new_at(timestamp, height, prev_hash, transactions, validator)
    }

    /// Creates the genesis block at height zero with an all-zero previous
    /// hash and the initial GENX distribution.
    pub fn genesis(initial_distribution: Vec<Transaction>) -> (r: Result<Block, BlockchainError>)
        ensures
            r is Ok,
            r->Ok_0.header.height == 0,
            r->Ok_0.header.prev_hash@ == zero_hash(),
            r->Ok_0.header.merkle_root@ == spec_merkle_root(initial_distribution@),
            r->Ok_0.header.validator@ == "Genesis"@,
            r->Ok_0.transactions == initial_distribution,
    {
        let empty_hash = make_zero_hash();
        Self::new(0, empty_hash, initial_distribution, String::from_str("Genesis"))
    }

    /// Calculates the hash of this block's header. It never fails.
    pub fn hash(&self) -> (r: Result<crate::hashing::Hash, BlockchainError>)
        ensures
            r is Ok,
            r->Ok_0@ == spec_block_hash(self.header),
            r->Ok_0@.len() == HASH_LEN,
    {
        proof {
            reveal(header_preimage);
        }
        let mut out: Vec<u8> = Vec::new();
        push_u32_le(&mut out, self.header.version);
        push_u64_le(&mut out, self.header.height);
        push_u64_le(&mut out, self.header.timestamp);
        push_bytes(&mut out, self.header.prev_hash.as_slice());
        push_bytes(&mut out, self.header.merkle_root.as_slice());
        push_str(&mut out, self.header.validator.as_str());
        push_opt_bytes(&mut out, &self.header.signature);
        Ok(sha256(out.as_slice()))
    }

    /// Validates the block: the declared merkle root must match the
    /// transactions, and every transaction must be valid.
    #[verifier::rlimit(50)]
    pub fn validate(&self) -> (r: Result<(), BlockchainError>)
        ensures
            r is Ok <==> block_structurally_valid(*self),
            r is Err && self.header.merkle_root@ != spec_merkle_root(self.transactions@)
                ==> r matches Err(BlockchainError::InvalidBlock(_)),
            r is Err && self.header.merkle_root@ == spec_merkle_root(self.transactions@)
                ==> r matches Err(BlockchainError::InvalidTransaction(_)),
    {
        let calculated_root = match Self::calculate_merkle_root(&self.transactions) {
            Ok(m) => m,
            Err(e) => { return Err(e) },
        };
        if !bytes_eq(calculated_root.as_slice(), self.header.merkle_root.as_slice()) {
            return Err(BlockchainError::InvalidBlock(String::from_str("Invalid merkle root")));
        }
        validate_transactions(&self.transactions)
    }
}

} // verus!
