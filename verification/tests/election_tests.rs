use genx_chain::election::select_by_stake;
use genx_chain::errors::ConsensusError;
use genx_chain::validator::Validator;

fn set_100_300_600() -> Vec<Validator> {
    vec![
        Validator::new("val_a".to_string(), 100),
        Validator::new("val_b".to_string(), 300),
        Validator::new("val_c".to_string(), 600),
    ]
}

#[test]
fn election_is_deterministic() {
    // For all heights and active-set snapshots, electing twice returns
    // the same validator.
    let set = set_100_300_600();
    for height in [0u64, 1, 42, 210_000, u64::MAX] {
        let first = select_by_stake(&set, height).unwrap();
        let second = select_by_stake(&set, height).unwrap();
        assert_eq!(first.address, second.address);
    }
}

#[test]
fn election_on_empty_set_fails() {
    let set: Vec<Validator> = vec![];
    let r = select_by_stake(&set, 7);
    assert!(matches!(r, Err(ConsensusError::ValidatorError(_))));
}

#[test]
fn single_validator_always_wins() {
    let set = vec![Validator::new("only".to_string(), 17)];
    for height in 0..50u64 {
        assert_eq!(select_by_stake(&set, height).unwrap().address, "only");
    }
}

#[test]
fn weighted_fairness_over_many_elections() {
    // With stakes [100, 300, 600] out of 1000, selection frequencies
    // converge to 10%, 30% and 60% over a large sample.
    let set = set_100_300_600();
    let samples = 3000u64;
    let mut count_a = 0u64;
    let mut count_b = 0u64;
    let mut count_c = 0u64;
    for height in 0..samples {
        let winner = select_by_stake(&set, height).unwrap();
        match winner.address.as_str() {
            "val_a" => count_a += 1,
            "val_b" => count_b += 1,
            "val_c" => count_c += 1,
            other => panic!("unexpected winner {}", other),
        }
    }
    assert_eq!(count_a + count_b + count_c, samples);
    // Expected 300 / 900 / 1800; allow a wide statistical margin.
    assert!(count_a >= 150 && count_a <= 450, "val_a won {} times", count_a);
    assert!(count_b >= 600 && count_b <= 1200, "val_b won {} times", count_b);
    assert!(count_c >= 1400 && count_c <= 2200, "val_c won {} times", count_c);
}

#[test]
fn full_stake_dominance() {
    // A validator holding all the stake always wins, wherever it stands.
    let set = vec![
        Validator::new("zero_1".to_string(), 0),
        Validator::new("whale".to_string(), 1_000_000),
        Validator::new("zero_2".to_string(), 0),
    ];
    for height in 0..20u64 {
        assert_eq!(select_by_stake(&set, height).unwrap().address, "whale");
    }
}
