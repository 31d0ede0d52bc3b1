//! Fork selection: maps an execution-payload timestamp to the protocol fork
//! (Merge / Shanghai / Cancun) that governs its encoding.

use vstd::arithmetic::div_mod::lemma_div_is_ordered;
use vstd::prelude::*;

verus! {

/// Seconds since the Unix epoch at beacon-chain genesis.
pub const GENESIS_TIME: u64 = 1606824000;

/// Seconds per beacon-chain slot.
pub const SECONDS_PER_SLOT: u64 = 12;

/// Slots per beacon-chain epoch.
pub const SLOTS_PER_EPOCH: u64 = 32;

/// Protocol fork variants, from oldest to newest.
#[derive(Clone, Copy, Debug, PartialEq, Eq, Structural)]
pub enum ForkName {
    Merge,
    Shanghai,
    Cancun,
}

impl ForkName {
    /// Position of the fork in history: later forks have a larger rank.
    pub open spec fn rank(self) -> int {
        match self {
            ForkName::Merge => 0,
            ForkName::Shanghai => 1,
            ForkName::Cancun => 2,
        }
    }
}

/// Epochs at which the named forks activate; `None` means the fork is not
/// scheduled.
#[derive(Clone, Copy, Debug)]
pub struct ForkConfig {
    pub shanghai_fork_epoch: Option<u64>,
    pub cancun_fork_epoch: Option<u64>,
}

/// The fork that is active at `epoch` under `cfg`: the newest fork whose
/// configured activation epoch is not later than `epoch`.
pub open spec fn spec_fork_name_at_epoch(epoch: u64, cfg: ForkConfig) -> ForkName {
    if cfg.cancun_fork_epoch matches Some(ce) && epoch >= ce {
        ForkName::Cancun
    } else if cfg.shanghai_fork_epoch matches Some(se) && epoch >= se {
        ForkName::Shanghai
    } else {
        ForkName::Merge
    }
}

/// The beacon epoch a timestamp falls in, or `None` for timestamps before
/// genesis.
pub open spec fn spec_epoch_of_timestamp(timestamp: u64) -> Option<u64> {
    if timestamp < GENESIS_TIME {
        None
    } else {
        Some((((timestamp - GENESIS_TIME) as u64 / SECONDS_PER_SLOT) / SLOTS_PER_EPOCH) as u64)
    }
}

/// The fork governing a payload with the given timestamp, or `None` for
/// timestamps before genesis.
pub open spec fn spec_timestamp_to_version(timestamp: u64, cfg: ForkConfig) -> Option<ForkName> {
    match spec_epoch_of_timestamp(timestamp) {
        Some(epoch) => Some(spec_fork_name_at_epoch(epoch, cfg)),
        None => None,
    }
}

impl ForkConfig {
    /// The mainnet fork schedule.
    pub fn mainnet() -> (cfg: ForkConfig)
        ensures
            cfg.shanghai_fork_epoch == Some(194048u64),
            cfg.cancun_fork_epoch == Some(269568u64),
    {
        ForkConfig { shanghai_fork_epoch: Some(194048), cancun_fork_epoch: Some(269568) }
    }

    /// The Holesky testnet fork schedule.
    pub fn holesky() -> (cfg: ForkConfig)
        ensures
            cfg.shanghai_fork_epoch == Some(256u64),
            cfg.cancun_fork_epoch == Some(29696u64),
    {
        ForkConfig { shanghai_fork_epoch: Some(256), cancun_fork_epoch: Some(29696) }
    }
}

/// Returns the newest fork whose configured epoch is at or before `epoch`.
pub fn fork_name_at_epoch(epoch: u64, fork_config: &ForkConfig) -> (fork: ForkName)
    ensures
        fork == spec_fork_name_at_epoch(epoch, *fork_config),
{
    if let Some(fork_epoch) = fork_config.cancun_fork_epoch {
        if epoch >= fork_epoch {
            return ForkName::Cancun;
        }
    }
    if let Some(fork_epoch) = fork_config.shanghai_fork_epoch {
        if epoch >= fork_epoch {
            return ForkName::Shanghai;
        }
    }
    ForkName::Merge
}

/// Converts a payload timestamp to the fork that governs it; timestamps
/// before beacon genesis are rejected.
pub fn timestamp_to_version(timestamp: &u64, fork_config: &ForkConfig) -> (fork: Option<ForkName>)
    ensures
        fork == spec_timestamp_to_version(*timestamp, *fork_config),
{
    if *timestamp < GENESIS_TIME {
        return None;
    }
    let slot = (*timestamp - GENESIS_TIME) / SECONDS_PER_SLOT;
    let epoch = slot / SLOTS_PER_EPOCH;
    Some(fork_name_at_epoch(epoch, fork_config))
}

/// The fork at a later epoch is never an earlier fork than the fork at an
/// earlier epoch.
pub proof fn lemma_fork_at_epoch_monotone(e1: u64, e2: u64, cfg: ForkConfig)
    requires
        e1 <= e2,
    ensures
        spec_fork_name_at_epoch(e1, cfg).rank() <= spec_fork_name_at_epoch(e2, cfg).rank(),
{
}

/// The fork selector is monotone in the timestamp: whenever `t1 <= t2` and
/// `t1` maps to a fork, `t2` maps to a fork at least as new.
pub proof fn lemma_fork_selector_monotone(t1: u64, t2: u64, cfg: ForkConfig)
    requires
        t1 <= t2,
        spec_timestamp_to_version(t1, cfg) is Some,
    ensures
        spec_timestamp_to_version(t2, cfg) is Some,
        spec_timestamp_to_version(t1, cfg).unwrap().rank()
            <= spec_timestamp_to_version(t2, cfg).unwrap().rank(),
{
    let d1 = (t1 - GENESIS_TIME) as int;
    let d2 = (t2 - GENESIS_TIME) as int;
    lemma_div_is_ordered(d1, d2, SECONDS_PER_SLOT as int);
    lemma_div_is_ordered(d1 / (SECONDS_PER_SLOT as int), d2 / (SECONDS_PER_SLOT as int),
        SLOTS_PER_EPOCH as int);
    let e1 = spec_epoch_of_timestamp(t1).unwrap();
    let e2 = spec_epoch_of_timestamp(t2).unwrap();
    lemma_fork_at_epoch_monotone(e1, e2, cfg);
}

} // verus!
