//! Genesis configuration: the initial GENX distribution.
//!
//! The genesis block mints fixed fractions of the maximum supply to the
//! validator-rewards pool, the development fund and the ecosystem-growth
//! reserve.

use vstd::prelude::*;
use crate::errors::BlockchainError;
use crate::transaction::Transaction;
use crate::block::{Block, block_structurally_valid};
use crate::chain::Blockchain;
use crate::state::{empty_state_model, spec_apply_txs};
use vstd::string::StringExecFns;

verus! {

/// Maximum supply of GENX tokens (21 million, with 8 decimal places).
pub const MAX_SUPPLY: u64 = 21_000_000 * 100_000_000;

/// Share of the maximum supply minted at genesis for validator rewards,
/// in percent.
pub const VALIDATOR_REWARDS_PERCENT: u64 = 20;

/// Share of the maximum supply minted at genesis for the development
/// fund, in percent.
pub const DEVELOPMENT_FUND_PERCENT: u64 = 10;

/// Share of the maximum supply minted at genesis for ecosystem growth,
/// in percent.
pub const ECOSYSTEM_GROWTH_PERCENT: u64 = 10;

/// The genesis allocation: the three coinbase amounts, in order.
pub open spec fn genesis_amounts() -> Seq<u64> {
    seq![
        (MAX_SUPPLY * VALIDATOR_REWARDS_PERCENT / 100) as u64,
        (MAX_SUPPLY * DEVELOPMENT_FUND_PERCENT / 100) as u64,
        (MAX_SUPPLY * ECOSYSTEM_GROWTH_PERCENT / 100) as u64,
    ]
}

/// The genesis recipients, in order.
pub open spec fn genesis_recipients() -> Seq<Seq<char>> {
    seq!["GENX_VALIDATOR_REWARDS_POOL"@, "GENX_DEVELOPMENT_FUND"@, "GENX_ECOSYSTEM_GROWTH"@]
}

/// Creates the genesis block with the initial GENX distribution: one
/// coinbase per allocation, at height zero.
pub fn create_genesis_block() -> (r: Result<Block, BlockchainError>)
    ensures
        r is Ok,
        block_structurally_valid(r->Ok_0),
        r->Ok_0.header.height == 0,
        r->Ok_0.header.prev_hash@ == crate::block::zero_hash(),
        r->Ok_0.header.validator@ == "Genesis"@,
        r->Ok_0.transactions@.len() == 3,
        forall|i: int|
            0 <= i < 3 ==> crate::transaction::spec_is_coinbase(
                #[trigger] r->Ok_0.transactions@[i],
            ) && r->Ok_0.transactions@[i].amount == genesis_amounts()[i]
                && r->Ok_0.transactions@[i].recipient@ == genesis_recipients()[i],
{
    let validator_rewards = MAX_SUPPLY / 100 * VALIDATOR_REWARDS_PERCENT;
    let development_fund = MAX_SUPPLY / 100 * DEVELOPMENT_FUND_PERCENT;
    let ecosystem_growth = MAX_SUPPLY / 100 * ECOSYSTEM_GROWTH_PERCENT;
    proof {
        assert(validator_rewards == genesis_amounts()[0]);
        assert(development_fund == genesis_amounts()[1]);
        assert(ecosystem_growth == genesis_amounts()[2]);
    }
    let mut transactions: Vec<Transaction> = Vec::new();
    let t0 = match Transaction::new_coinbase(
        String::from_str("GENX_VALIDATOR_REWARDS_POOL"),
        validator_rewards,
    ) {
        Ok(t) => t,
        Err(e) => { return Err(e) },
    };
    transactions.push(t0);
    let t1 = match Transaction::new_coinbase(
        String::from_str("GENX_DEVELOPMENT_FUND"),
        development_fund,
    ) {
        Ok(t) => t,
        Err(e) => { return Err(e) },
    };
    transactions.push(t1);
    let t2 = match Transaction::new_coinbase(
        String::from_str("GENX_ECOSYSTEM_GROWTH"),
        ecosystem_growth,
    ) {
        Ok(t) => t,
        Err(e) => { return Err(e) },
    };
    transactions.push(t2);
    Block::genesis(transactions)
}

/// Initializes a blockchain from the genesis block.
pub fn initialize_blockchain() -> (r: Result<Blockchain, BlockchainError>)
    ensures
        r is Ok,
        r->Ok_0.wf(),
        r->Ok_0.spec_latest_height() == 0,
        r->Ok_0.spec_state().total_supply == MAX_SUPPLY * (VALIDATOR_REWARDS_PERCENT
            + DEVELOPMENT_FUND_PERCENT + ECOSYSTEM_GROWTH_PERCENT) / 100,
        crate::state::bal_of(r->Ok_0.spec_state().balances, "GENX_VALIDATOR_REWARDS_POOL"@)
            == genesis_amounts()[0],
        crate::state::bal_of(r->Ok_0.spec_state().balances, "GENX_DEVELOPMENT_FUND"@)
            == genesis_amounts()[1],
        crate::state::bal_of(r->Ok_0.spec_state().balances, "GENX_ECOSYSTEM_GROWTH"@)
            == genesis_amounts()[2],
{
    let genesis_block = match create_genesis_block() {
        Ok(b) => b,
        Err(e) => { return Err(e) },
    };
    proof {
        let txs = genesis_block.transactions@;
        lemma_genesis_applies(txs);
    }
    Blockchain::new(genesis_block)
}

/// The three genesis coinbases apply to the empty ledger, mint the
/// configured fractions of the maximum supply, and credit each pool its
/// own allocation.
proof fn lemma_genesis_applies(txs: Seq<Transaction>)
    requires
        txs.len() == 3,
        forall|i: int|
            0 <= i < 3 ==> crate::transaction::spec_is_coinbase(#[trigger] txs[i]) && txs[i].amount
                == genesis_amounts()[i] && txs[i].recipient@ == genesis_recipients()[i],
    ensures
        spec_apply_txs(empty_state_model(), txs) is Some,
        spec_apply_txs(empty_state_model(), txs)->Some_0.total_supply == MAX_SUPPLY
            * (VALIDATOR_REWARDS_PERCENT + DEVELOPMENT_FUND_PERCENT + ECOSYSTEM_GROWTH_PERCENT)
            / 100,
        crate::state::bal_of(
            spec_apply_txs(empty_state_model(), txs)->Some_0.balances,
            "GENX_VALIDATOR_REWARDS_POOL"@,
        ) == genesis_amounts()[0],
        crate::state::bal_of(
            spec_apply_txs(empty_state_model(), txs)->Some_0.balances,
            "GENX_DEVELOPMENT_FUND"@,
        ) == genesis_amounts()[1],
        crate::state::bal_of(
            spec_apply_txs(empty_state_model(), txs)->Some_0.balances,
            "GENX_ECOSYSTEM_GROWTH"@,
        ) == genesis_amounts()[2],
{
    lemma_genesis_recipients_distinct();
    let m0 = empty_state_model();
    let a0 = genesis_amounts()[0];
    let a1 = genesis_amounts()[1];
    let a2 = genesis_amounts()[2];
    assert(a0 == 420_000_000_000_000);
    assert(a1 == 210_000_000_000_000);
    assert(a2 == 210_000_000_000_000);
    let p1 = txs.drop_last().drop_last();
    let p2 = txs.drop_last();
    assert(p1.drop_last() =~= Seq::<Transaction>::empty());
    assert(p1.last() == txs[0]);
    assert(p2.drop_last() =~= p1);
    assert(p2.last() == txs[1]);
    assert(txs.last() == txs[2]);
    assert(spec_apply_txs(m0, p1.drop_last()) == Some(m0));
    assert(crate::state::spec_apply_tx(m0, txs[0]) is Some);
    let m1 = crate::state::spec_apply_tx(m0, txs[0])->Some_0;
    assert(spec_apply_txs(m0, p1) == Some(m1));
    assert(m1.total_supply == a0);
    assert(crate::state::spec_apply_tx(m1, txs[1]) is Some);
    let m2 = crate::state::spec_apply_tx(m1, txs[1])->Some_0;
    assert(spec_apply_txs(m0, p2) == Some(m2));
    assert(m2.total_supply == a0 + a1);
    assert(crate::state::spec_apply_tx(m2, txs[2]) is Some);
    let m3 = crate::state::spec_apply_tx(m2, txs[2])->Some_0;
    assert(spec_apply_txs(m0, txs) == Some(m3));
    assert(m3.total_supply == a0 + a1 + a2);
    let r0 = genesis_recipients()[0];
    let r1 = genesis_recipients()[1];
    let r2 = genesis_recipients()[2];
    assert(m1.balances == m0.balances.insert(r0, a0));
    assert(m2.balances == m1.balances.insert(r1, a1));
    assert(m3.balances == m2.balances.insert(r2, a2));
}

/// The three genesis pool addresses are pairwise distinct.
proof fn lemma_genesis_recipients_distinct()
    ensures
        genesis_recipients()[0] != genesis_recipients()[1],
        genesis_recipients()[0] != genesis_recipients()[2],
        genesis_recipients()[1] != genesis_recipients()[2],
{
    reveal_strlit("GENX_VALIDATOR_REWARDS_POOL");
    reveal_strlit("GENX_DEVELOPMENT_FUND");
    reveal_strlit("GENX_ECOSYSTEM_GROWTH");
    assert("GENX_VALIDATOR_REWARDS_POOL"@.len() != "GENX_DEVELOPMENT_FUND"@.len());
    assert("GENX_VALIDATOR_REWARDS_POOL"@.len() != "GENX_ECOSYSTEM_GROWTH"@.len());
    assert("GENX_DEVELOPMENT_FUND"@[5] != "GENX_ECOSYSTEM_GROWTH"@[5]);
}

/// Gets the maximum supply of GENX tokens.
pub fn get_max_supply() -> (r: u64)
    ensures
        r == MAX_SUPPLY,
{
    MAX_SUPPLY
}

/// Gets the current circulating supply of GENX tokens.
pub fn get_circulating_supply(blockchain: &Blockchain) -> (r: Result<u64, BlockchainError>)
    requires
        blockchain.wf(),
    ensures
        r is Ok,
        r->Ok_0 == blockchain.spec_state().total_supply,
{
    let state = blockchain.get_state();
    Ok(state.get_total_supply())
}

} // verus!
