//! The rejections an operation can answer with.

use vstd::prelude::*;

verus! {

/// Why an operation was refused. A refused operation changes no record and
/// requests no movement of funds.
#[derive(Clone, Copy, Debug, PartialEq, Eq, Structural)]
pub enum ErrorCode {
    InvalidFplId,
    InvalidStakeAmount,
    InvalidLockPeriod,
    UnauthorizedAccess,
    StakeNotActive,
    InsufficientFunds,
    NoRewardsAvailable,
    InvalidWithdrawalAmount,
    TooEarlyToClaim,
    InvalidRewardParameter,
    InvalidTreasuryParameter,
    InvalidDepositAmount,
    ExceedsWithdrawalLimit,
}

/// Why an operation that reads the runtime's clock gave no result: it was
/// refused, or the runtime gave no time.
#[derive(Clone, Copy, Debug, PartialEq, Eq, Structural)]
pub enum Failure {
    Rejected(ErrorCode),
    ClockUnavailable,
}

impl ErrorCode {
    /// The text shown to a caller for each rejection.
    pub open spec fn text(self) -> Seq<char> {
        match self {
            ErrorCode::InvalidFplId => "Invalid FPL ID"@,
            ErrorCode::InvalidStakeAmount => "Invalid stake amount"@,
            ErrorCode::InvalidLockPeriod => "Invalid lock period"@,
            ErrorCode::UnauthorizedAccess => "Unauthorized access"@,
            ErrorCode::StakeNotActive => "Stake not active"@,
            ErrorCode::InsufficientFunds => "Insufficient funds"@,
            ErrorCode::NoRewardsAvailable => "No rewards available"@,
            ErrorCode::InvalidWithdrawalAmount => "Invalid withdrawal amount"@,
            ErrorCode::TooEarlyToClaim => "Too early to claim rewards"@,
            ErrorCode::InvalidRewardParameter => "Invalid reward parameter"@,
            ErrorCode::InvalidTreasuryParameter => "Invalid treasury parameter"@,
            ErrorCode::InvalidDepositAmount => "Invalid deposit amount"@,
            ErrorCode::ExceedsWithdrawalLimit => "Exceeds withdrawal limit"@,
        }
    }

    /// The message of this rejection.
    pub fn message(&self) -> (r: &'static str)
        ensures
            r@ == self.text(),
    {
        match self {
            ErrorCode::InvalidFplId => "Invalid FPL ID",
            ErrorCode::InvalidStakeAmount => "Invalid stake amount",
            ErrorCode::InvalidLockPeriod => "Invalid lock period",
            ErrorCode::UnauthorizedAccess => "Unauthorized access",
            ErrorCode::StakeNotActive => "Stake not active",
            ErrorCode::InsufficientFunds => "Insufficient funds",
            ErrorCode::NoRewardsAvailable => "No rewards available",
            ErrorCode::InvalidWithdrawalAmount => "Invalid withdrawal amount",
            ErrorCode::TooEarlyToClaim => "Too early to claim rewards",
            ErrorCode::InvalidRewardParameter => "Invalid reward parameter",
            ErrorCode::InvalidTreasuryParameter => "Invalid treasury parameter",
            ErrorCode::InvalidDepositAmount => "Invalid deposit amount",
            ErrorCode::ExceedsWithdrawalLimit => "Exceeds withdrawal limit",
        }
    }
}

} // verus!
