use genx_chain::block::Block;
use genx_chain::chain::Blockchain;
use genx_chain::errors::BlockchainError;
use genx_chain::genesis::{create_genesis_block, initialize_blockchain, get_max_supply,
    get_circulating_supply};
use genx_chain::transaction::Transaction;

fn fresh_chain() -> Blockchain {
    initialize_blockchain().unwrap()
}

fn coinbase(recipient: &str, amount: u64) -> Transaction {
    Transaction::new_coinbase(recipient.to_string(), amount).unwrap()
}

fn latest_hash(chain: &Blockchain) -> Vec<u8> {
    chain.get_latest_block().unwrap().hash().unwrap()
}

#[test]
fn genesis_block_is_valid_and_at_height_zero() {
    let genesis = create_genesis_block().unwrap();
    assert_eq!(genesis.header.height, 0);
    assert_eq!(genesis.transactions.len(), 3);
    assert!(genesis.validate().is_ok());
    assert_eq!(genesis.header.prev_hash, vec![0u8; 32]);
}

#[test]
fn initial_supply_is_forty_percent_of_max() {
    let chain = fresh_chain();
    assert_eq!(get_max_supply(), 2_100_000_000_000_000);
    let supply = get_circulating_supply(&chain).unwrap();
    assert_eq!(supply, 840_000_000_000_000);
}

#[test]
fn genesis_allocations_are_credited() {
    let chain = fresh_chain();
    assert_eq!(
        chain.get_balance("GENX_VALIDATOR_REWARDS_POOL").unwrap(),
        420_000_000_000_000
    );
    assert_eq!(chain.get_balance("GENX_DEVELOPMENT_FUND").unwrap(), 210_000_000_000_000);
    assert_eq!(chain.get_balance("GENX_ECOSYSTEM_GROWTH").unwrap(), 210_000_000_000_000);
    assert_eq!(chain.get_balance("nobody").unwrap(), 0);
}

#[test]
fn example_scenario_second_block_at_same_height_fails() {
    // Genesis at height 0; produce block 1 referencing the genesis hash;
    // adding succeeds. A second, different block at height 1 referencing
    // the same previous hash fails on continuity: the tip is already 1.
    let mut chain = fresh_chain();
    let prev = latest_hash(&chain);
    let block1 = Block::new(1, prev.clone(), vec![coinbase("alice", 50)], "v1".to_string())
        .unwrap();
    assert!(chain.add_block(block1).is_ok());
    assert_eq!(chain.get_latest_height(), 1);

    let block1b = Block::new(1, prev, vec![coinbase("bob", 60)], "v2".to_string()).unwrap();
    let err = chain.add_block(block1b);
    assert!(matches!(err, Err(BlockchainError::InvalidBlock(_))));
    assert_eq!(chain.get_latest_height(), 1);
}

#[test]
fn continuity_wrong_height_is_rejected() {
    let mut chain = fresh_chain();
    let prev = latest_hash(&chain);
    let block = Block::new(5, prev, vec![coinbase("alice", 50)], "v1".to_string()).unwrap();
    assert!(matches!(chain.add_block(block), Err(BlockchainError::InvalidBlock(_))));
    assert_eq!(chain.get_latest_height(), 0);
}

#[test]
fn continuity_wrong_prev_hash_is_rejected() {
    let mut chain = fresh_chain();
    let block = Block::new(1, vec![7u8; 32], vec![coinbase("alice", 50)], "v1".to_string())
        .unwrap();
    assert!(matches!(chain.add_block(block), Err(BlockchainError::InvalidBlock(_))));
    assert_eq!(chain.get_latest_height(), 0);
}

#[test]
fn tampered_merkle_root_is_rejected() {
    let mut chain = fresh_chain();
    let prev = latest_hash(&chain);
    let mut block = Block::new(1, prev, vec![coinbase("alice", 50)], "v1".to_string()).unwrap();
    block.header.merkle_root = vec![9u8; 32];
    assert!(matches!(chain.add_block(block), Err(BlockchainError::InvalidBlock(_))));
}

#[test]
fn atomicity_failed_block_leaves_balances_untouched() {
    // Fund alice with 1000, then try a block whose second transaction
    // overdraws her. The whole block is rejected and every balance and
    // the supply stay byte-identical.
    let mut chain = fresh_chain();
    let prev = latest_hash(&chain);
    let fund = Block::new(1, prev, vec![coinbase("alice", 1000)], "v1".to_string()).unwrap();
    chain.add_block(fund).unwrap();

    let alice_before = chain.get_balance("alice").unwrap();
    let bob_before = chain.get_balance("bob").unwrap();
    let supply_before = get_circulating_supply(&chain).unwrap();
    assert_eq!(alice_before, 1000);

    let prev = latest_hash(&chain);
    let pay_ok = Transaction::new("alice".to_string(), "bob".to_string(), 300, 0, None).unwrap();
    let overdraw = Transaction::new("alice".to_string(), "bob".to_string(), 5000, 0, None)
        .unwrap();
    let block = Block::new(2, prev, vec![pay_ok, overdraw], "v1".to_string()).unwrap();
    let r = chain.add_block(block);
    assert!(matches!(r, Err(BlockchainError::InvalidTransaction(_))));

    assert_eq!(chain.get_balance("alice").unwrap(), alice_before);
    assert_eq!(chain.get_balance("bob").unwrap(), bob_before);
    assert_eq!(get_circulating_supply(&chain).unwrap(), supply_before);
    assert_eq!(chain.get_latest_height(), 1);
}

#[test]
fn supply_conservation_over_blocks() {
    // Supply only grows by coinbase amounts; transfers and fees create
    // nothing.
    let mut chain = fresh_chain();
    let genesis_supply = get_circulating_supply(&chain).unwrap();

    let prev = latest_hash(&chain);
    let b1 = Block::new(1, prev, vec![coinbase("alice", 700)], "v1".to_string()).unwrap();
    chain.add_block(b1).unwrap();
    assert_eq!(get_circulating_supply(&chain).unwrap(), genesis_supply + 700);

    let prev = latest_hash(&chain);
    let pay = Transaction::new("alice".to_string(), "bob".to_string(), 200, 50, None).unwrap();
    let b2 = Block::new(2, prev, vec![coinbase("v1", 300), pay], "v1".to_string()).unwrap();
    chain.add_block(b2).unwrap();
    assert_eq!(get_circulating_supply(&chain).unwrap(), genesis_supply + 700 + 300);
    // The fee is burned: alice paid 250, bob received 200.
    assert_eq!(chain.get_balance("alice").unwrap(), 700 - 250);
    assert_eq!(chain.get_balance("bob").unwrap(), 200);
}

#[test]
fn validate_chain_replays_successfully() {
    let mut chain = fresh_chain();
    let prev = latest_hash(&chain);
    let b1 = Block::new(1, prev, vec![coinbase("alice", 10)], "v1".to_string()).unwrap();
    chain.add_block(b1).unwrap();
    assert!(chain.validate_chain().is_ok());
}

#[test]
fn get_block_by_height_returns_stored_blocks() {
    let mut chain = fresh_chain();
    let prev = latest_hash(&chain);
    let b1 = Block::new(1, prev, vec![coinbase("alice", 10)], "v7".to_string()).unwrap();
    chain.add_block(b1).unwrap();
    assert_eq!(chain.get_block_by_height(0).unwrap().header.height, 0);
    assert_eq!(chain.get_block_by_height(1).unwrap().header.validator, "v7");
    assert!(chain.get_block_by_height(2).is_none());
}

#[test]
fn create_transaction_checks_balance() {
    let mut chain = fresh_chain();
    let prev = latest_hash(&chain);
    let b1 = Block::new(1, prev, vec![coinbase("alice", 100)], "v1".to_string()).unwrap();
    chain.add_block(b1).unwrap();

    let ok = chain.create_transaction("alice".to_string(), "bob".to_string(), 60, 40, None);
    assert!(ok.is_ok());
    let too_much = chain.create_transaction("alice".to_string(), "bob".to_string(), 60, 41, None);
    assert!(matches!(too_much, Err(BlockchainError::InvalidTransaction(_))));
}

#[test]
fn stake_updates_do_not_touch_balances() {
    let mut chain = fresh_chain();
    let supply = get_circulating_supply(&chain).unwrap();
    chain.update_validator_stake("val1".to_string(), 5_000);
    assert_eq!(chain.get_state().get_validator_stake("val1"), 5_000);
    assert_eq!(chain.get_balance("val1").unwrap(), 0);
    assert_eq!(get_circulating_supply(&chain).unwrap(), supply);
    assert!(chain.validate_chain().is_ok());
}
