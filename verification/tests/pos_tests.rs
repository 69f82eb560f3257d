use genx_chain::params::ConsensusParams;
use genx_chain::pos::PoSConsensus;
use genx_chain::validator::Validator;

fn small_stake_params() -> ConsensusParams {
    ConsensusParams {
        min_stake: 100,
        block_time: 5,
        validator_set_size: 3,
        checkpoint_interval: 100,
        finality_quorum: 2,
        slashing_percent: 10,
    }
}

fn three_validators() -> Vec<Validator> {
    vec![
        Validator::new("val_a".to_string(), 100),
        Validator::new("val_b".to_string(), 300),
        Validator::new("val_c".to_string(), 600),
    ]
}

#[test]
fn update_validator_set_filters_and_sorts() {
    let mut pos = PoSConsensus::new(small_stake_params());
    let mut validators = three_validators();
    validators.push(Validator::new("dust".to_string(), 99));
    pos.update_validator_set(validators);
    let winner = pos.select_validator(1).unwrap();
    assert!(winner.address.starts_with("val_"));
}

#[test]
fn selection_is_deterministic_per_height() {
    let mut pos = PoSConsensus::new(small_stake_params());
    pos.update_validator_set(three_validators());
    for height in [0u64, 3, 99, 1_000_000] {
        let a = pos.select_validator(height).unwrap();
        let b = pos.select_validator(height).unwrap();
        assert_eq!(a.address, b.address);
    }
}

#[test]
fn metrics_track_production_and_misses() {
    let mut pos = PoSConsensus::new(small_stake_params());
    pos.update_validator_set(three_validators());
    pos.record_block_production("val_a", 7);
    pos.record_block_production("val_a", 8);
    pos.record_missed_block("val_a");
    pos.record_missed_block("val_a");

    let metrics = pos.get_validator_metrics();
    let (_, m) = metrics.iter().find(|(a, _)| a == "val_a").unwrap();
    assert_eq!(m.blocks_produced, 2);
    assert_eq!(m.blocks_missed, 2);
    assert_eq!(m.uptime, 50);
}

#[test]
fn missed_block_for_unknown_validator_is_ignored() {
    let mut pos = PoSConsensus::new(small_stake_params());
    pos.update_validator_set(three_validators());
    pos.record_missed_block("stranger");
    let metrics = pos.get_validator_metrics();
    assert!(metrics.iter().find(|(a, _)| a == "stranger").is_none());
}

#[test]
fn epoch_transition_resets_production_counters() {
    let mut pos = PoSConsensus::new(small_stake_params());
    pos.update_validator_set(three_validators());
    pos.record_block_production("val_b", 1);
    pos.record_missed_block("val_b");
    assert_eq!(pos.get_current_epoch(), 0);

    // Far enough in the future that an epoch's worth of block time has
    // certainly passed.
    assert!(pos.check_epoch_transition(u64::MAX));
    assert_eq!(pos.get_current_epoch(), 1);
    let metrics = pos.get_validator_metrics();
    let (_, m) = metrics.iter().find(|(a, _)| a == "val_b").unwrap();
    assert_eq!(m.blocks_produced, 0);
    assert_eq!(m.blocks_missed, 0);
    assert_eq!(m.uptime, 50);
}

#[test]
fn reward_schedule_is_shared() {
    let pos = PoSConsensus::new(small_stake_params());
    assert_eq!(pos.calculate_block_reward(0), 5_000_000_000);
    assert_eq!(pos.calculate_block_reward(210_000), 2_500_000_000);
}
