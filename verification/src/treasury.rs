//! The treasury ledger: fees are deposited into the treasury vault, the admin
//! withdraws what the reserve leaves free, and may change the percentages.

use vstd::prelude::*;
use crate::address::Address;
use crate::address::Derived;
use crate::address::Namespace;
use crate::errors::ErrorCode;
use crate::state::Treasury;
use crate::state::MAX_PERCENT;
use crate::transfer::Authority;
use crate::transfer::Transfer;

verus! {

/// The percentages asked for.
#[derive(Clone, Copy, Debug, PartialEq, Eq)]
pub struct TreasuryParams {
    pub protocol_fee: u8,
    pub reserve_percentage: u8,
}

/// What creating the treasury works on: the caller, the record that becomes
/// the treasury, and the bump of its address.
#[derive(Clone, Copy, Debug, PartialEq, Eq)]
pub struct InitializeTreasury {
    pub admin: Address,
    pub treasury: Treasury,
    pub bump: u8,
}

/// Creates the treasury, owned by the caller, with no fees collected. A
/// protocol fee or a reserve above 100 percent is refused with
/// `InvalidTreasuryParameter`, and nothing changes.
pub fn initialize_treasury(
    ctx: &mut InitializeTreasury,
    params: TreasuryParams,
) -> (r: Result<(), ErrorCode>)
    ensures
        r is Err <==> params.protocol_fee > MAX_PERCENT || params.reserve_percentage
            > MAX_PERCENT,
        match r {
            Ok(_) => *final(ctx) == (InitializeTreasury {
                treasury: Treasury {
                    admin: old(ctx).admin,
                    total_fees: 0,
                    protocol_fee: params.protocol_fee,
                    reserve_percentage: params.reserve_percentage,
                    bump: old(ctx).bump,
                },
                ..*old(ctx)
            }) && final(ctx).treasury.well_formed(),
            Err(e) => e == ErrorCode::InvalidTreasuryParameter && *final(ctx) == *old(ctx),
        },
{
    if params.protocol_fee > MAX_PERCENT || params.reserve_percentage > MAX_PERCENT {
        return Err(ErrorCode::InvalidTreasuryParameter);
    }
    ctx.treasury.admin = ctx.admin;
    ctx.treasury.total_fees = 0;
    ctx.treasury.protocol_fee = params.protocol_fee;
    ctx.treasury.reserve_percentage = params.reserve_percentage;
    ctx.treasury.bump = ctx.bump;
    Ok(())
}

/// What a deposit works on: the caller, the treasury, and the address of
/// the treasury vault.
#[derive(Clone, Copy, Debug, PartialEq, Eq)]
pub struct DepositToTreasury {
    pub depositor: Address,
    pub treasury: Treasury,
    pub treasury_vault: Address,
}

/// Deposits `amount` into the treasury; any caller may. A deposit of nothing
/// is refused with `InvalidDepositAmount`, and nothing changes. Otherwise the
/// treasury's count of fees grows by `amount`, and the result is the payment
/// of `amount` from the caller to the treasury vault.
pub fn deposit_to_treasury(
    ctx: &mut DepositToTreasury,
    amount: u64,
) -> (r: Result<Transfer, ErrorCode>)
    requires
        old(ctx).treasury.total_fees + amount <= u64::MAX,
    ensures
        r is Err <==> amount == 0,
        match r {
            Ok(t) => {
                &&& *final(ctx) == (DepositToTreasury {
                    treasury: Treasury {
                        total_fees: (old(ctx).treasury.total_fees + amount) as u64,
                        ..old(ctx).treasury
                    },
                    ..*old(ctx)
                })
                &&& t == (Transfer {
                    from: old(ctx).depositor,
                    to: old(ctx).treasury_vault,
                    amount,
                    authority: Authority::Sender,
                })
            },
            Err(e) => e == ErrorCode::InvalidDepositAmount && *final(ctx) == *old(ctx),
        },
{
    if amount == 0 {
        return Err(ErrorCode::InvalidDepositAmount);
    }
    ctx.treasury.total_fees = ctx.treasury.total_fees + amount;
    Ok(
        Transfer {
            from: ctx.depositor,
            to: ctx.treasury_vault,
            amount,
            authority: Authority::Sender,
        },
    )
}

/// What a withdrawal works on: the caller, the treasury, the treasury vault
/// with its bump and its current balance, and the recipient.
#[derive(Clone, Copy, Debug, PartialEq, Eq)]
pub struct WithdrawTreasury {
    pub admin: Address,
    pub treasury: Treasury,
    pub treasury_vault: Derived,
    pub vault_balance: u64,
    pub recipient: Address,
}

/// The part of a vault's balance that the reserve holds back:
/// `reserve_percentage` hundredths of it, rounded down.
pub open spec fn reserved(vault_balance: u64, reserve_percentage: u8) -> int {
    (vault_balance * reserve_percentage) / 100
}

/// The most that can be withdrawn from a vault: its balance less the
/// reserved part, and nothing where the reserve is the whole balance or more.
pub open spec fn spec_max_withdrawable(vault_balance: u64, reserve_percentage: u8) -> int {
    if reserved(vault_balance, reserve_percentage) <= vault_balance {
        vault_balance - reserved(vault_balance, reserve_percentage)
    } else {
        0
    }
}

/// Computes the most that can be withdrawn from a vault.
pub fn max_withdrawable(vault_balance: u64, reserve_percentage: u8) -> (r: u64)
    ensures
        r == spec_max_withdrawable(vault_balance, reserve_percentage),
        reserve_percentage <= MAX_PERCENT ==> r == vault_balance - reserved(
            vault_balance,
            reserve_percentage,
        ),
{
    assert(vault_balance * reserve_percentage <= 0xffff_ffff_ffff_ffff * 255) by (nonlinear_arith)
        requires
            vault_balance <= 0xffff_ffff_ffff_ffff,
            reserve_percentage <= 255,
    ;
    assert(reserve_percentage <= 100 ==> vault_balance * reserve_percentage <= vault_balance
        * 100) by (nonlinear_arith);
    let held: u128 = (vault_balance as u128 * reserve_percentage as u128) / 100;
    if held <= vault_balance as u128 {
        vault_balance - held as u64
    } else {
        0
    }
}

/// Why a withdrawal is refused, if it is: the caller is not the treasury's
/// admin, or the amount is more than can be withdrawn.
pub open spec fn withdraw_rejection(ctx: WithdrawTreasury, amount: u64) -> Option<ErrorCode> {
    if ctx.treasury.admin != ctx.admin {
        Some(ErrorCode::UnauthorizedAccess)
    } else if amount > spec_max_withdrawable(ctx.vault_balance, ctx.treasury.reserve_percentage) {
        Some(ErrorCode::ExceedsWithdrawalLimit)
    } else {
        None
    }
}

/// Withdraws `amount` from the treasury vault to the recipient.
///
/// The call is refused where the caller is not the treasury's admin
/// (`UnauthorizedAccess`), or else where `amount` is more than the vault's
/// balance less its reserved part (`ExceedsWithdrawalLimit`). Otherwise the
/// result is the payment of `amount` from the treasury vault to the
/// recipient, signed by the vault. No record changes either way: the
/// treasury's count of fees is a lifetime count, which a withdrawal does not
/// lower.
pub fn withdraw_treasury(ctx: &WithdrawTreasury, amount: u64) -> (r: Result<Transfer, ErrorCode>)
    ensures
        match r {
            Ok(t) => {
                &&& withdraw_rejection(*ctx, amount) is None
                &&& t == (Transfer {
                    from: ctx.treasury_vault.address,
                    to: ctx.recipient,
                    amount,
                    authority: Authority::Vault {
                        namespace: Namespace::TreasuryVault,
                        bump: ctx.treasury_vault.bump,
                    },
                })
            },
            Err(e) => withdraw_rejection(*ctx, amount) == Some(e),
        },
        r is Ok && ctx.treasury.well_formed() ==> ctx.vault_balance - amount >= reserved(
            ctx.vault_balance,
            ctx.treasury.reserve_percentage,
        ),
{
    if ctx.treasury.admin != ctx.admin {
        return Err(ErrorCode::UnauthorizedAccess);
    }
    if amount > max_withdrawable(ctx.vault_balance, ctx.treasury.reserve_percentage) {
        return Err(ErrorCode::ExceedsWithdrawalLimit);
    }
    Ok(
        Transfer {
            from: ctx.treasury_vault.address,
            to: ctx.recipient,
            amount,
            authority: Authority::Vault {
                namespace: Namespace::TreasuryVault,
                bump: ctx.treasury_vault.bump,
            },
        },
    )
}

/// What a change of the percentages works on: the caller and the treasury.
#[derive(Clone, Copy, Debug, PartialEq, Eq)]
pub struct UpdateTreasuryConfig {
    pub admin: Address,
    pub treasury: Treasury,
}

/// Whether a percentage asked for, if one is, is at most 100.
pub open spec fn is_percentage(value: Option<u8>) -> bool {
    match value {
        Some(v) => v <= MAX_PERCENT,
        None => true,
    }
}

/// The percentage after a change: the one asked for, or the old one where
/// none is asked for.
pub open spec fn updated(current: u8, value: Option<u8>) -> u8 {
    match value {
        Some(v) => v,
        None => current,
    }
}

/// Why a change of the percentages is refused, if it is: the caller is not
/// the treasury's admin, or a percentage asked for is above 100.
pub open spec fn update_rejection(
    ctx: UpdateTreasuryConfig,
    new_protocol_fee: Option<u8>,
    new_reserve_percentage: Option<u8>,
) -> Option<ErrorCode> {
    if ctx.treasury.admin != ctx.admin {
        Some(ErrorCode::UnauthorizedAccess)
    } else if !is_percentage(new_protocol_fee) || !is_percentage(new_reserve_percentage) {
        Some(ErrorCode::InvalidTreasuryParameter)
    } else {
        None
    }
}

/// Changes the treasury's protocol fee, its reserve percentage, both or
/// neither.
///
/// The call is refused, and nothing changes, where the caller is not the
/// treasury's admin (`UnauthorizedAccess`), or else where a percentage asked
/// for is above 100 (`InvalidTreasuryParameter`). Otherwise each percentage
/// asked for replaces the old one, and each one not asked for stays.
pub fn update_treasury_config(
    ctx: &mut UpdateTreasuryConfig,
    new_protocol_fee: Option<u8>,
    new_reserve_percentage: Option<u8>,
) -> (r: Result<(), ErrorCode>)
    ensures
        match r {
            Ok(_) => {
                &&& update_rejection(*old(ctx), new_protocol_fee, new_reserve_percentage) is None
                &&& *final(ctx) == (UpdateTreasuryConfig {
                    treasury: Treasury {
                        protocol_fee: updated(old(ctx).treasury.protocol_fee, new_protocol_fee),
                        reserve_percentage: updated(
                            old(ctx).treasury.reserve_percentage,
                            new_reserve_percentage,
                        ),
                        ..old(ctx).treasury
                    },
                    ..*old(ctx)
                })
            },
            Err(e) => {
                &&& update_rejection(*old(ctx), new_protocol_fee, new_reserve_percentage)
                    == Some(e)
                &&& *final(ctx) == *old(ctx)
            },
        },
        old(ctx).treasury.well_formed() ==> final(ctx).treasury.well_formed(),
{
    if ctx.treasury.admin != ctx.admin {
        return Err(ErrorCode::UnauthorizedAccess);
    }
    if let Some(fee) = new_protocol_fee {
        if fee > MAX_PERCENT {
            return Err(ErrorCode::InvalidTreasuryParameter);
        }
    }
    if let Some(reserve) = new_reserve_percentage {
        if reserve > MAX_PERCENT {
            return Err(ErrorCode::InvalidTreasuryParameter);
        }
    }
    if let Some(fee) = new_protocol_fee {
        ctx.treasury.protocol_fee = fee;
    }
    if let Some(reserve) = new_reserve_percentage {
        ctx.treasury.reserve_percentage = reserve;
    }
    Ok(())
}

} // verus!
