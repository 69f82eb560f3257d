use genx_chain::errors::BlockchainError;
use genx_chain::validator::{Validator, ValidatorManager, ValidatorStatus};

#[test]
fn register_and_duplicate() {
    let mut manager = ValidatorManager::new(150, 4);
    assert!(manager.register_validator("alice".to_string(), 300).is_ok());
    let dup = manager.register_validator("alice".to_string(), 500);
    assert!(matches!(dup, Err(BlockchainError::StateError(_))));
}

#[test]
fn register_insufficient_stake() {
    let mut manager = ValidatorManager::new(150, 4);
    let r = manager.register_validator("poor".to_string(), 149);
    assert!(matches!(r, Err(BlockchainError::StateError(_))));
    assert!(manager.register_validator("rich".to_string(), 150).is_ok());
}

#[test]
fn update_stake() {
    let mut manager = ValidatorManager::new(100, 4);
    manager.register_validator("alice".to_string(), 300).unwrap();
    assert!(manager.update_validator_stake("alice", 700).is_ok());
    let active = manager.get_active_validators();
    assert_eq!(active[0].stake, 700);
    let missing = manager.update_validator_stake("bob", 700);
    assert!(matches!(missing, Err(BlockchainError::StateError(_))));
}

#[test]
fn active_set_is_sorted_filtered_and_truncated() {
    let mut manager = ValidatorManager::new(150, 2);
    manager.register_validator("a".to_string(), 300).unwrap();
    manager.register_validator("b".to_string(), 600).unwrap();
    manager.register_validator("c".to_string(), 200).unwrap();
    manager.register_validator("d".to_string(), 150).unwrap();
    let active = manager.get_active_validators();
    assert_eq!(active.len(), 2);
    assert_eq!(active[0].address, "b");
    assert_eq!(active[0].stake, 600);
    assert_eq!(active[1].address, "a");
}

#[test]
fn active_set_breaks_stake_ties_by_address() {
    let mut manager = ValidatorManager::new(0, 5);
    manager.register_validator("carol".to_string(), 100).unwrap();
    manager.register_validator("alice".to_string(), 100).unwrap();
    manager.register_validator("bob".to_string(), 100).unwrap();
    let active = manager.get_active_validators();
    assert_eq!(active.len(), 3);
    assert_eq!(active[0].address, "alice");
    assert_eq!(active[1].address, "bob");
    assert_eq!(active[2].address, "carol");
}

#[test]
fn slash_removes_a_percentage() {
    let mut manager = ValidatorManager::new(100, 4);
    manager.register_validator("alice".to_string(), 1000).unwrap();
    let removed = manager.slash_validator("alice", 10).unwrap();
    assert_eq!(removed, 100);
    let active = manager.get_active_validators();
    assert_eq!(active[0].stake, 900);
    let missing = manager.slash_validator("bob", 10);
    assert!(matches!(missing, Err(BlockchainError::StateError(_))));
}

#[test]
fn slash_everything_reaches_zero() {
    let mut manager = ValidatorManager::new(0, 4);
    manager.register_validator("alice".to_string(), 77).unwrap();
    let removed = manager.slash_validator("alice", 100).unwrap();
    assert_eq!(removed, 77);
    let active = manager.get_active_validators();
    assert_eq!(active[0].stake, 0);
}

#[test]
fn remove_validator() {
    let mut manager = ValidatorManager::new(100, 4);
    manager.register_validator("alice".to_string(), 1000).unwrap();
    assert!(manager.remove_validator("alice").is_ok());
    assert!(manager.get_active_validators().is_empty());
    assert!(matches!(manager.remove_validator("alice"), Err(BlockchainError::StateError(_))));
}

#[test]
fn validator_bookkeeping() {
    let mut v = Validator::new("alice".to_string(), 10);
    assert_eq!(v.last_block_produced, 0);
    v.update_stake(20);
    v.record_block_production(9);
    assert_eq!(v.stake, 20);
    assert_eq!(v.last_block_produced, 9);
    assert_eq!(ValidatorStatus::Active, ValidatorStatus::Active);
    assert_ne!(ValidatorStatus::Active, ValidatorStatus::Jailed);
}
