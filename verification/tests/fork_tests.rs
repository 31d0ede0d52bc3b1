use executionbackup::fork::{fork_name_at_epoch, timestamp_to_version, ForkConfig, ForkName};

#[test]
fn mainnet_preset_epochs() {
    let cfg = ForkConfig::mainnet();
    assert_eq!(cfg.shanghai_fork_epoch, Some(194048));
    assert_eq!(cfg.cancun_fork_epoch, Some(269568));
}

#[test]
fn holesky_preset_epochs() {
    let cfg = ForkConfig::holesky();
    assert_eq!(cfg.shanghai_fork_epoch, Some(256));
    assert_eq!(cfg.cancun_fork_epoch, Some(29696));
}

#[test]
fn fork_at_epoch_boundaries() {
    let cfg = ForkConfig::mainnet();
    assert_eq!(fork_name_at_epoch(0, &cfg), ForkName::Merge);
    assert_eq!(fork_name_at_epoch(194047, &cfg), ForkName::Merge);
    assert_eq!(fork_name_at_epoch(194048, &cfg), ForkName::Shanghai);
    assert_eq!(fork_name_at_epoch(269567, &cfg), ForkName::Shanghai);
    assert_eq!(fork_name_at_epoch(269568, &cfg), ForkName::Cancun);
    assert_eq!(fork_name_at_epoch(u64::MAX, &cfg), ForkName::Cancun);
}

#[test]
fn fork_without_schedule_is_merge() {
    let cfg = ForkConfig { shanghai_fork_epoch: None, cancun_fork_epoch: None };
    assert_eq!(fork_name_at_epoch(u64::MAX, &cfg), ForkName::Merge);
}

#[test]
fn timestamp_before_genesis_is_rejected() {
    let cfg = ForkConfig::mainnet();
    assert_eq!(timestamp_to_version(&0, &cfg), None);
    assert_eq!(timestamp_to_version(&1606823999, &cfg), None);
}

#[test]
fn timestamp_at_genesis_is_merge() {
    let cfg = ForkConfig::mainnet();
    assert_eq!(timestamp_to_version(&1606824000, &cfg), Some(ForkName::Merge));
}

#[test]
fn timestamp_fork_boundaries_mainnet() {
    let cfg = ForkConfig::mainnet();
    // Shanghai epoch 194048 starts at slot 6209536, i.e. 1606824000 + 6209536 * 12.
    let shanghai_start = 1606824000 + 194048 * 32 * 12;
    assert_eq!(timestamp_to_version(&(shanghai_start - 1), &cfg), Some(ForkName::Merge));
    assert_eq!(timestamp_to_version(&shanghai_start, &cfg), Some(ForkName::Shanghai));
    let cancun_start = 1606824000 + 269568 * 32 * 12;
    assert_eq!(timestamp_to_version(&(cancun_start - 1), &cfg), Some(ForkName::Shanghai));
    assert_eq!(timestamp_to_version(&cancun_start, &cfg), Some(ForkName::Cancun));
}

#[test]
fn fork_selection_is_monotone_on_samples() {
    let cfg = ForkConfig::holesky();
    let rank = |f: ForkName| match f {
        ForkName::Merge => 0,
        ForkName::Shanghai => 1,
        ForkName::Cancun => 2,
    };
    let samples = [
        1606824000u64,
        1606824012,
        1606824000 + 256 * 32 * 12,
        1606824000 + 29696 * 32 * 12,
        1606824000 + 30000 * 32 * 12,
    ];
    for w in samples.windows(2) {
        let f1 = timestamp_to_version(&w[0], &cfg).unwrap();
        let f2 = timestamp_to_version(&w[1], &cfg).unwrap();
        assert!(rank(f1) <= rank(f2));
    }
}
