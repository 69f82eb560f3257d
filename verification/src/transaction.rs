//! Transactions: creation, identification and validation.
//!
//! A transaction's id is the SHA-256 digest of its canonical encoding
//! with the id zeroed and the signature excluded. A sender equal to the
//! reserved `COINBASE` identity marks a minting transaction that creates
//! new supply.

use vstd::prelude::*;
use crate::hashing::{sha256, sha256_of, bytes_eq, HASH_LEN};
use crate::codec::{u64_le, enc_str, enc_opt_bytes, push_u64_le, push_str, push_opt_bytes};
use crate::errors::BlockchainError;
use crate::strutil::str_eq;
use crate::clock::current_timestamp;
use vstd::string::StringExecFns;

verus! {

/// The reserved sender identity of minting transactions.
pub open spec fn coinbase_sender() -> Seq<char> {
    "COINBASE"@
}

/// Represents a transaction in the blockchain.
pub struct Transaction {
    /// Unique transaction ID (hash).
    pub id: crate::hashing::Hash,
    /// Timestamp when the transaction was created.
    pub timestamp: u64,
    /// Sender's address (public key).
    pub sender: String,
    /// Recipient's address (public key).
    pub recipient: String,
    /// Amount of GENX tokens to transfer.
    pub amount: u64,
    /// Transaction fee in GENX.
    pub fee: u64,
    /// Optional data payload (for smart contracts).
    pub data: Option<Vec<u8>>,
    /// Sender's signature of the transaction.
    pub signature: Option<Vec<u8>>,
}

/// Different types of transactions in the system.
#[derive(Clone, Debug)]
pub enum TransactionType {
    /// Regular transfer of GENX tokens.
    Transfer,
    /// Smart contract deployment.
    ContractDeploy,
    /// Smart contract function call.
    ContractCall,
    /// Validator staking transaction.
    Stake,
    /// Validator unstaking transaction.
    Unstake,
}

/// The data payload as a byte sequence, if present.
pub open spec fn data_view(d: Option<Vec<u8>>) -> Option<Seq<u8>> {
    match d {
        Some(b) => Some(b@),
        None => None,
    }
}

/// The canonical byte encoding a transaction's id is computed over: every
/// field except the id itself and the signature.
#[verifier::opaque]
pub open spec fn tx_preimage(tx: Transaction) -> Seq<u8> {
    u64_le(tx.timestamp) + enc_str(tx.sender@) + enc_str(tx.recipient@) + u64_le(tx.amount)
        + u64_le(tx.fee) + enc_opt_bytes(data_view(tx.data))
}

/// The id a transaction's contents dictate.
pub open spec fn tx_id(tx: Transaction) -> Seq<u8> {
    sha256_of(tx_preimage(tx))
}

/// Whether the transaction mints new supply.
pub open spec fn spec_is_coinbase(tx: Transaction) -> bool {
    tx.sender@ == coinbase_sender()
}

/// A valid transaction: a positive amount unless it is a coinbase, and a
/// stored id that matches its contents.
pub open spec fn tx_valid(tx: Transaction) -> bool {
    &&& spec_is_coinbase(tx) || tx.amount > 0
    &&& tx.id@ == tx_id(tx)
}

impl Transaction {
    /// Whether this transaction mints new supply.
    pub fn is_coinbase(&self) -> (r: bool)
        ensures
            r == spec_is_coinbase(*self),
    {
        str_eq(self.sender.as_str(), "COINBASE")
    }

    /// The canonical encoding of this transaction for hashing.
    pub fn encode_for_id(&self) -> (r: Vec<u8>)
        ensures
            r@ == tx_preimage(*self),
    {
        proof {
            reveal(tx_preimage);
        }
        let mut out: Vec<u8> = Vec::new();
        push_u64_le(&mut out, self.timestamp);
        push_str(&mut out, self.sender.as_str());
        push_str(&mut out, self.recipient.as_str());
        push_u64_le(&mut out, self.amount);
        push_u64_le(&mut out, self.fee);
        push_opt_bytes(&mut out, &self.data);
        out
    }

    /// Calculates the hash of this transaction (excluding the id and the
    /// signature). It never fails.
    pub fn calculate_hash(&self) -> (r: Result<crate::hashing::Hash, BlockchainError>)
        ensures
            r is Ok,
            r->Ok_0@ == tx_id(*self),
            r->Ok_0@.len() == HASH_LEN,
    {
        let preimage = self.encode_for_id();
        Ok(sha256(preimage.as_slice()))
    }

    /// Creates a transaction carrying the given timestamp, with its id
    /// computed from its contents and no signature.
    pub fn new_at(
        timestamp: u64,
        sender: String,
        recipient: String,
        amount: u64,
        fee: u64,
        data: Option<Vec<u8>>,
    ) -> (r: Result<Transaction, BlockchainError>)
        ensures
            r is Ok,
            r->Ok_0.timestamp == timestamp,
            r->Ok_0.sender == sender,
            r->Ok_0.recipient == recipient,
            r->Ok_0.amount == amount,
            r->Ok_0.fee == fee,
            r->Ok_0.data == data,
            r->Ok_0.signature is None,
            r->Ok_0.id@ == tx_id(r->Ok_0),
    {
        proof {
            reveal(tx_preimage);
        }
        let mut tx = Transaction {
            id: Vec::new(),
            timestamp,
            sender,
            recipient,
            amount,
            fee,
            data,
            signature: None,
        };
        let preimage = tx.encode_for_id();
        tx.id = sha256(preimage.as_slice());
        Ok(tx)
    }

    /// Creates a new transaction timestamped with the current time.
    pub fn new(
        sender: String,
        recipient: String,
        amount: u64,
        fee: u64,
        data: Option<Vec<u8>>,
    ) -> (r: Result<Transaction, BlockchainError>)
        ensures
            r is Ok,
            r->Ok_0.sender == sender,
            r->Ok_0.recipient == recipient,
            r->Ok_0.amount == amount,
            r->Ok_0.fee == fee,
            r->Ok_0.data == data,
            r->Ok_0.signature is None,
            r->Ok_0.id@ == tx_id(r->Ok_0),
    {
        let timestamp = current_timestamp();
        Self::new_at(timestamp, sender, recipient, amount, fee, data)
    }

    /// Creates a coinbase transaction for block rewards: sent by the
    /// reserved identity, with no fee.
    pub fn new_coinbase(recipient: String, reward: u64) -> (r: Result<Transaction, BlockchainError>)
        ensures
            r is Ok,
            spec_is_coinbase(r->Ok_0),
            r->Ok_0.recipient == recipient,
            r->Ok_0.amount == reward,
            r->Ok_0.fee == 0,
            r->Ok_0.data is None,
            r->Ok_0.signature is None,
            r->Ok_0.id@ == tx_id(r->Ok_0),
    {
        Self::new(String::from_str("COINBASE"), recipient, reward, 0, None)
    }

    /// Builds an independent copy of this transaction: every field agrees,
    /// with the byte payloads compared by content, so validity carries
    /// over.
    pub fn duplicate(&self) -> (r: Transaction)
        ensures
            r.id@ == self.id@,
            r.timestamp == self.timestamp,
            r.sender == self.sender,
            r.recipient == self.recipient,
            r.amount == self.amount,
            r.fee == self.fee,
            data_view(r.data) == data_view(self.data),
            data_view(r.signature) == data_view(self.signature),
            tx_preimage(r) == tx_preimage(*self),
            tx_valid(r) == tx_valid(*self),
    {
        let r = Transaction {
            id: vstd::slice::slice_to_vec(self.id.as_slice()),
            timestamp: self.timestamp,
            sender: self.sender.clone(),
            recipient: self.recipient.clone(),
            amount: self.amount,
            fee: self.fee,
            data: match &self.data {
                Some(d) => Some(vstd::slice::slice_to_vec(d.as_slice())),
                None => None,
            },
            signature: match &self.signature {
                Some(sig) => Some(vstd::slice::slice_to_vec(sig.as_slice())),
                None => None,
            },
        };
        proof {
            reveal(tx_preimage);
            assert(tx_preimage(r) == tx_preimage(*self));
        }
        r
    }

    /// Attaches a placeholder signature. Cryptographic signing is the
    /// wallet's task; the core only carries the bytes.
    pub fn sign(&mut self, private_key: &[u8]) -> (r: Result<(), BlockchainError>)
        ensures
            r is Ok,
            final(self).signature matches Some(s) && s@ == seq![1u8, 2u8, 3u8, 4u8],
            final(self).id == old(self).id,
            final(self).timestamp == old(self).timestamp,
            final(self).sender == old(self).sender,
            final(self).recipient == old(self).recipient,
            final(self).amount == old(self).amount,
            final(self).fee == old(self).fee,
            final(self).data == old(self).data,
    {
        let sig: Vec<u8> = vec![1u8, 2u8, 3u8, 4u8];
        proof {
            assert(sig@ =~= seq![1u8, 2u8, 3u8, 4u8]);
        }
        self.signature = Some(sig);
        Ok(())
    }

    /// Validates the transaction: the amount must be positive unless it
    /// is a coinbase, and the stored id must match the contents.
    pub fn validate(&self) -> (r: Result<(), BlockchainError>)
        ensures
            r is Ok <==> tx_valid(*self),
            r is Err ==> r matches Err(BlockchainError::InvalidTransaction(_)),
    {
        if self.amount == 0 && !self.is_coinbase() {
            return Err(
                BlockchainError::InvalidTransaction(
                    String::from_str("Transaction amount must be positive"),
                ),
            );
        }
        let calculated = self.encode_for_id();
        let calculated_id = sha256(calculated.as_slice());
        if !bytes_eq(calculated_id.as_slice(), self.id.as_slice()) {
            return Err(
                BlockchainError::InvalidTransaction(String::from_str("Invalid transaction ID")),
            );
        }
        Ok(())
    }
}

} // verus!
