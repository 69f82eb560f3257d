use genx_chain::errors::BlockchainError;
use genx_chain::finality::FinalityManager;
use genx_chain::genesis::create_genesis_block;
use genx_chain::params::ConsensusParams;
use genx_chain::validator::Validator;

fn manager() -> FinalityManager {
    // Default parameters: checkpoint interval 100, quorum of two votes.
    FinalityManager::new(ConsensusParams::default())
}

#[test]
fn misaligned_height_is_rejected() {
    let mut fm = manager();
    let v = Validator::new("v1".to_string(), 10);
    let r = fm.add_checkpoint_vote(55, vec![1u8; 32], &v);
    assert!(matches!(r, Err(BlockchainError::StateError(_))));
}

#[test]
fn first_vote_creates_a_pending_checkpoint() {
    let mut fm = manager();
    let v = Validator::new("v1".to_string(), 10);
    let finalized = fm.add_checkpoint_vote(100, vec![1u8; 32], &v).unwrap();
    assert!(!finalized);
    assert!(!fm.is_finalized(100));
    let cps = fm.get_checkpoints();
    assert_eq!(cps.len(), 1);
    assert_eq!(cps[0].height, 100);
    assert_eq!(cps[0].votes.len(), 1);
    assert!(!cps[0].finalized);
}

#[test]
fn equivocation_is_rejected_and_hash_remains() {
    // Voting for height 100 with hash A then hash B must yield a
    // conflict error on the second vote; the checkpoint stays bound to A.
    let mut fm = manager();
    let hash_a = vec![0xaau8; 32];
    let hash_b = vec![0xbbu8; 32];
    let v1 = Validator::new("v1".to_string(), 10);
    let v2 = Validator::new("v2".to_string(), 10);
    fm.add_checkpoint_vote(100, hash_a.clone(), &v1).unwrap();
    let r = fm.add_checkpoint_vote(100, hash_b, &v2);
    assert!(matches!(r, Err(BlockchainError::StateError(_))));
    let cps = fm.get_checkpoints();
    assert_eq!(cps[0].block_hash, hash_a);
    assert_eq!(cps[0].votes.len(), 1);
}

#[test]
fn quorum_finalizes_and_prefix_is_closed() {
    let mut fm = manager();
    let hash = vec![1u8; 32];
    let v1 = Validator::new("v1".to_string(), 10);
    let v2 = Validator::new("v2".to_string(), 10);
    assert!(!fm.add_checkpoint_vote(100, hash.clone(), &v1).unwrap());
    assert!(fm.add_checkpoint_vote(100, hash, &v2).unwrap());
    assert_eq!(fm.get_latest_finalized_height(), 100);
    assert!(fm.is_finalized(100));
    assert!(fm.is_finalized(37));
    assert!(!fm.is_finalized(101));
}

#[test]
fn duplicate_votes_do_not_count_twice() {
    let mut fm = manager();
    let hash = vec![1u8; 32];
    let v1 = Validator::new("v1".to_string(), 10);
    assert!(!fm.add_checkpoint_vote(100, hash.clone(), &v1).unwrap());
    assert!(!fm.add_checkpoint_vote(100, hash.clone(), &v1).unwrap());
    assert_eq!(fm.get_checkpoints()[0].votes.len(), 1);
    assert!(!fm.is_finalized(100));
}

#[test]
fn finality_is_monotone_under_further_votes() {
    // Once a height is finalized it stays finalized after any further
    // votes, at the same or other heights.
    let mut fm = manager();
    let hash = vec![1u8; 32];
    let v1 = Validator::new("v1".to_string(), 10);
    let v2 = Validator::new("v2".to_string(), 10);
    let v3 = Validator::new("v3".to_string(), 10);
    fm.add_checkpoint_vote(100, hash.clone(), &v1).unwrap();
    fm.add_checkpoint_vote(100, hash.clone(), &v2).unwrap();
    assert!(fm.is_finalized(100));

    fm.add_checkpoint_vote(100, hash.clone(), &v3).unwrap();
    assert!(fm.is_finalized(100));
    fm.add_checkpoint_vote(200, vec![2u8; 32], &v1).unwrap();
    assert!(fm.is_finalized(100));
    fm.add_checkpoint_vote(200, vec![2u8; 32], &v2).unwrap();
    assert!(fm.is_finalized(200));
    assert!(fm.is_finalized(100));
    assert_eq!(fm.get_latest_finalized_height(), 200);
}

#[test]
fn genesis_initialization_finalizes_height_zero() {
    let mut fm = manager();
    let genesis = create_genesis_block().unwrap();
    fm.initialize_with_genesis(&genesis).unwrap();
    assert!(fm.is_finalized(0));
    assert_eq!(fm.get_latest_finalized_height(), 0);
    let cps = fm.get_checkpoints();
    assert_eq!(cps.len(), 1);
    assert!(cps[0].finalized);
    assert_eq!(cps[0].votes, vec!["Genesis".to_string()]);
    assert_eq!(cps[0].block_hash, genesis.hash().unwrap());
}

#[test]
fn create_checkpoint_rules() {
    let mut fm = manager();
    assert!(fm.create_checkpoint(200, vec![2u8; 32]).is_ok());
    assert!(matches!(
        fm.create_checkpoint(201, vec![2u8; 32]),
        Err(BlockchainError::StateError(_))
    ));
    assert!(matches!(
        fm.create_checkpoint(200, vec![3u8; 32]),
        Err(BlockchainError::StateError(_))
    ));
    let cps = fm.get_checkpoints();
    assert_eq!(cps.len(), 1);
    assert!(!cps[0].finalized);
    assert!(cps[0].votes.is_empty());
}
