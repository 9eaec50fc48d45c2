//! The records of the ledger. Each is a plain value; none stores its own
//! address, which is derived from its namespace and identifying material.

use vstd::prelude::*;
use crate::address::Address;

verus! {

/// The largest value a percentage field may hold.
pub const MAX_PERCENT: u8 = 100;

/// The registry's record of one user: consumed read-only by the reward
/// engine, which reads the weekly score.
#[derive(Clone, Debug, PartialEq, Eq)]
pub struct FplUser {
    pub authority: Address,
    pub fpl_id: String,
    pub team_data: Vec<u8>,
    pub weekly_score: u32,
    pub total_score: u32,
    pub last_updated: i64,
    pub bump: u8,
}

/// The global configuration: a singleton owned by its admin.
#[derive(Clone, Debug, PartialEq, Eq)]
pub struct FplGlobalState {
    pub admin: Address,
    pub current_gameweek: u8,
    pub season_start: i64,
    pub season_end: i64,
    pub api_url: String,
    pub bump: u8,
}

/// The reward pool: what was funded in total and what was paid out of it.
#[derive(Clone, Copy, Debug, PartialEq, Eq)]
pub struct RewardPool {
    pub total_rewards: u64,
    pub distributed_rewards: u64,
    pub admin: Address,
    pub bump: u8,
}

impl RewardPool {
    /// A pool never has paid out more than was funded.
    pub open spec fn well_formed(self) -> bool {
        self.distributed_rewards <= self.total_rewards
    }

    /// What the pool can still pay.
    pub open spec fn available(self) -> int {
        self.total_rewards - self.distributed_rewards
    }
}

/// The reward rules: yearly base yield in percent, the weight of the weekly
/// score, and the least number of seconds between two claims on a stake.
#[derive(Clone, Copy, Debug, PartialEq, Eq)]
pub struct RewardConfig {
    pub admin: Address,
    pub base_apy: u8,
    pub score_multiplier: u8,
    pub distribution_frequency: u64,
    pub bump: u8,
}

impl RewardConfig {
    /// The base yield is a percentage.
    pub open spec fn well_formed(self) -> bool {
        self.base_apy <= MAX_PERCENT
    }
}

/// One stake of one owner. It is opened active, and closing it is final.
#[derive(Clone, Copy, Debug, PartialEq, Eq)]
pub struct Stake {
    pub owner: Address,
    pub amount: u64,
    pub start_time: i64,
    pub lock_period: u64,
    pub fpl_user: Address,
    pub is_active: bool,
    pub last_claim_time: i64,
    pub bump: u8,
}

/// The staking rules: bounds on a stake's amount, the fee in percent for
/// withdrawing before the lock period is over, and the lock periods on offer.
#[derive(Clone, Debug, PartialEq, Eq)]
pub struct StakeConfig {
    pub admin: Address,
    pub min_stake_amount: u64,
    pub max_stake_amount: u64,
    pub early_withdrawal_fee: u8,
    pub lock_options: Vec<u64>,
    pub bump: u8,
}

impl StakeConfig {
    /// The early-withdrawal fee is a percentage.
    pub open spec fn well_formed(self) -> bool {
        self.early_withdrawal_fee <= MAX_PERCENT
    }

    /// Whether `amount` lies within the bounds.
    pub open spec fn admits_amount(self, amount: u64) -> bool {
        self.min_stake_amount <= amount <= self.max_stake_amount
    }

    /// Whether `lock_period` is one of the lock periods on offer.
    pub open spec fn admits_lock(self, lock_period: u64) -> bool {
        self.lock_options@.contains(lock_period)
    }
}

/// How many stakes an owner has opened; the next stake takes this number as
/// its sequence number. It only ever grows.
#[derive(Clone, Copy, Debug, PartialEq, Eq)]
pub struct StakeCount {
    pub count: u64,
}

/// The treasury: the fees collected over its lifetime, and the percentages
/// of the protocol fee and of the reserve.
#[derive(Clone, Copy, Debug, PartialEq, Eq)]
pub struct Treasury {
    pub admin: Address,
    pub total_fees: u64,
    pub protocol_fee: u8,
    pub reserve_percentage: u8,
    pub bump: u8,
}

impl Treasury {
    /// Both fields in percent are percentages.
    pub open spec fn well_formed(self) -> bool {
        self.protocol_fee <= MAX_PERCENT && self.reserve_percentage <= MAX_PERCENT
    }
}

} // verus!
