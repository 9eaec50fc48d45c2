use solscore::errors::ErrorCode;

#[test]
fn every_rejection_has_its_message() {
    assert_eq!(ErrorCode::InvalidFplId.message(), "Invalid FPL ID");
    assert_eq!(ErrorCode::InvalidStakeAmount.message(), "Invalid stake amount");
    assert_eq!(ErrorCode::InvalidLockPeriod.message(), "Invalid lock period");
    assert_eq!(ErrorCode::UnauthorizedAccess.message(), "Unauthorized access");
    assert_eq!(ErrorCode::StakeNotActive.message(), "Stake not active");
    assert_eq!(ErrorCode::InsufficientFunds.message(), "Insufficient funds");
    assert_eq!(ErrorCode::NoRewardsAvailable.message(), "No rewards available");
    assert_eq!(ErrorCode::InvalidWithdrawalAmount.message(), "Invalid withdrawal amount");
    assert_eq!(ErrorCode::TooEarlyToClaim.message(), "Too early to claim rewards");
    assert_eq!(ErrorCode::InvalidRewardParameter.message(), "Invalid reward parameter");
    assert_eq!(ErrorCode::InvalidTreasuryParameter.message(), "Invalid treasury parameter");
    assert_eq!(ErrorCode::InvalidDepositAmount.message(), "Invalid deposit amount");
    assert_eq!(ErrorCode::ExceedsWithdrawalLimit.message(), "Exceeds withdrawal limit");
}
