use genx_chain::chain::Blockchain;
use genx_chain::engine::{active_set_within_bounds, ConsensusEngine};
use genx_chain::errors::ConsensusError;
use genx_chain::genesis::{initialize_blockchain, get_circulating_supply};
use genx_chain::params::ConsensusParams;
use genx_chain::rewards::{block_reward, HALVING_INTERVAL, INITIAL_REWARD};
use genx_chain::transaction::Transaction;

fn staked_chain() -> Blockchain {
    let mut chain = initialize_blockchain().unwrap();
    let params = ConsensusParams::default();
    chain.update_validator_stake("val1".to_string(), params.min_stake);
    chain
}

#[test]
fn reward_halving_schedule() {
    // With a halving interval of 210000 and an initial reward of
    // 5,000,000,000 integer units: full at height 0, half at the first
    // interval, zero after 64 halvings.
    assert_eq!(HALVING_INTERVAL, 210_000);
    assert_eq!(INITIAL_REWARD, 5_000_000_000);
    assert_eq!(block_reward(0), 5_000_000_000);
    assert_eq!(block_reward(209_999), 5_000_000_000);
    assert_eq!(block_reward(210_000), 2_500_000_000);
    assert_eq!(block_reward(420_000), 1_250_000_000);
    assert_eq!(block_reward(64 * 210_000), 0);
    assert_eq!(block_reward(u64::MAX), 0);
}

#[test]
fn active_set_bounds_guard() {
    let params = ConsensusParams::default();
    let empty_chain = initialize_blockchain().unwrap();
    assert!(active_set_within_bounds(&empty_chain, &params));
    let staked = staked_chain();
    assert!(active_set_within_bounds(&staked, &params));
    // Two validators whose stakes together overflow the machine word.
    let mut overflowing = initialize_blockchain().unwrap();
    overflowing.update_validator_stake("whale_one".to_string(), u64::MAX);
    overflowing.update_validator_stake("whale_two".to_string(), u64::MAX);
    assert!(!active_set_within_bounds(&overflowing, &params));
}

#[test]
fn production_is_a_no_op_before_the_block_time() {
    let chain = staked_chain();
    let mut engine = ConsensusEngine::new(ConsensusParams::default());
    engine.initialize(&chain, 100).unwrap();
    let r = engine.try_produce_block(&chain, 104).unwrap();
    assert!(r.is_none());
}

#[test]
fn production_builds_the_next_block() {
    let mut chain = staked_chain();
    let mut engine = ConsensusEngine::new(ConsensusParams::default());
    engine.initialize(&chain, 0).unwrap();
    let block = engine.try_produce_block(&chain, 5).unwrap().unwrap();
    assert_eq!(block.header.height, 1);
    assert_eq!(block.header.validator, "val1");
    assert_eq!(block.header.prev_hash, chain.get_latest_block().unwrap().hash().unwrap());
    assert_eq!(block.transactions.len(), 1);
    assert_eq!(block.transactions[0].sender, "COINBASE");
    assert_eq!(block.transactions[0].recipient, "val1");
    assert_eq!(block.transactions[0].amount, block_reward(0));

    let supply_before = get_circulating_supply(&chain).unwrap();
    assert!(chain.add_block(block).is_ok());
    assert_eq!(chain.get_latest_height(), 1);
    assert_eq!(
        get_circulating_supply(&chain).unwrap(),
        supply_before + block_reward(0)
    );
}

#[test]
fn production_without_validators_fails_fast() {
    let chain = initialize_blockchain().unwrap();
    let mut engine = ConsensusEngine::new(ConsensusParams::default());
    engine.initialize(&chain, 0).unwrap();
    let r = engine.try_produce_block(&chain, 10);
    assert!(matches!(r, Err(ConsensusError::ValidatorError(_))));
}

#[test]
fn select_next_validator_is_deterministic() {
    let chain = staked_chain();
    let mut engine = ConsensusEngine::new(ConsensusParams::default());
    engine.initialize(&chain, 0).unwrap();
    let a = engine.select_next_validator(&chain).unwrap();
    let b = engine.select_next_validator(&chain).unwrap();
    assert_eq!(a.address, b.address);
    assert_eq!(a.address, "val1");
}

#[test]
fn pending_transactions_drain_in_order() {
    let mut chain = staked_chain();
    let mut engine = ConsensusEngine::new(ConsensusParams::default());
    engine.initialize(&chain, 0).unwrap();

    // First block funds the validator so later transfers can clear.
    let b1 = engine.try_produce_block(&chain, 5).unwrap().unwrap();
    chain.add_block(b1).unwrap();

    let t1 = Transaction::new("val1".to_string(), "bob".to_string(), 10, 0, None).unwrap();
    let t2 = Transaction::new("val1".to_string(), "carol".to_string(), 20, 0, None).unwrap();
    let id1 = t1.id.clone();
    let id2 = t2.id.clone();
    engine.add_transaction(t1);
    engine.add_transaction(t2);

    let b2 = engine.try_produce_block(&chain, 10).unwrap().unwrap();
    assert_eq!(b2.header.height, 2);
    assert_eq!(b2.transactions.len(), 3);
    assert_eq!(b2.transactions[1].id, id1);
    assert_eq!(b2.transactions[2].id, id2);
    chain.add_block(b2).unwrap();
    assert_eq!(chain.get_balance("bob").unwrap(), 10);
    assert_eq!(chain.get_balance("carol").unwrap(), 20);

    // The pool was drained: the next block holds only its coinbase.
    let b3 = engine.try_produce_block(&chain, 15).unwrap().unwrap();
    assert_eq!(b3.transactions.len(), 1);
}

#[test]
fn race_between_producers_is_caught_by_continuity() {
    // Two engines over one chain both produce a block at the same
    // height; after the first lands, the second is rejected by the
    // continuity check, a retryable failure.
    let mut chain = staked_chain();
    let mut engine_a = ConsensusEngine::new(ConsensusParams::default());
    let mut engine_b = ConsensusEngine::new(ConsensusParams::default());
    engine_a.initialize(&chain, 0).unwrap();
    engine_b.initialize(&chain, 0).unwrap();
    let block_a = engine_a.try_produce_block(&chain, 5).unwrap().unwrap();
    let block_b = engine_b.try_produce_block(&chain, 6).unwrap().unwrap();
    assert!(chain.add_block(block_a).is_ok());
    assert!(chain.add_block(block_b).is_err());
    assert_eq!(chain.get_latest_height(), 1);
}
