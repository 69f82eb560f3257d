//! Error types for the blockchain core and the components built on it.
//!
//! Every fallible operation returns one of these enums; no error channel
//! discards information. Each variant carries a human-readable message.

use vstd::prelude::*;

verus! {

/// Errors raised by the core blockchain types (blocks, transactions,
/// chain and ledger state).
#[derive(Debug)]
pub enum BlockchainError {
    /// A block failed structural or continuity validation.
    InvalidBlock(String),
    /// A transaction failed validation or could not be applied.
    InvalidTransaction(String),
    /// The chain or ledger state is inconsistent with the request.
    StateError(String),
    /// A value could not be encoded or decoded.
    SerializationError(String),
    /// An input/output failure reported by a caller outside the core.
    IoError(String),
}

/// Errors raised by the consensus engine and its helpers.
#[derive(Debug)]
pub enum ConsensusError {
    /// A blockchain-core error surfaced through a consensus operation.
    BlockchainError(BlockchainError),
    /// A validator-related operation failed.
    ValidatorError(String),
    /// A consensus operation timed out.
    Timeout(String),
    /// A stake was below the required minimum.
    InsufficientStake(String),
}

/// Errors raised by the smart-contract engine.
#[derive(Debug)]
pub enum ContractError {
    /// Contract source code could not be compiled.
    CompilationError(String),
    /// Contract execution failed.
    ExecutionError(String),
    /// Gas accounting failed.
    GasError(String),
    /// The engine's contract state is inconsistent with the request.
    StateError(String),
    /// A blockchain-core error surfaced through a contract operation.
    BlockchainError(BlockchainError),
}

/// Errors raised by wallet operations.
#[derive(Debug)]
pub enum WalletError {
    /// An input/output failure reported by a caller outside the core.
    IoError(String),
    /// A wallet value could not be encoded or decoded.
    SerializationError(String),
    /// A key could not be derived, parsed, encrypted or decrypted.
    KeyError(String),
    /// An account was missing, duplicated, or the wallet was locked.
    AccountError(String),
    /// A blockchain-core error surfaced through a wallet operation.
    BlockchainError(BlockchainError),
}

/// Errors raised by the networking layer around the core.
#[derive(Debug)]
pub enum NetworkError {
    /// An input/output failure.
    IoError(String),
    /// A message could not be encoded or decoded.
    SerializationError(String),
    /// A connection could not be established or maintained.
    ConnectionError(String),
    /// A peer misbehaved or could not be found.
    PeerError(String),
    /// A message was malformed or unexpected.
    MessageError(String),
}

} // verus!
