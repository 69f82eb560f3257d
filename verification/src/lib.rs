//! A proof-of-stake consensus core for the GENX blockchain.
//!
//! The crate covers the replicated ledger (accounts, stakes, contract
//! storage), the height-indexed chain with its atomic block application,
//! the validator registry with stake-weighted deterministic leader
//! election, block production with a halving reward schedule, and
//! checkpoint finality with quorum voting and equivocation detection.
//! Wallet account management and a gas-metered contract engine sit on
//! top of the same ledger types.

pub mod errors;
pub mod hashing;
pub mod strutil;
pub mod kv;
pub mod codec;
pub mod clock;
pub mod transaction;
pub mod block;
pub mod state;
pub mod chain;
pub mod genesis;
pub mod validator;
pub mod election;
pub mod params;
pub mod rewards;
pub mod engine;
pub mod pos;
pub mod finality;
pub mod contracts;
pub mod solidity;
pub mod evm;
pub mod wallet;
pub mod wallet_api;
pub mod network;
pub mod node;
