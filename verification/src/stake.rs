//! The life of a stake: it is opened active with funds moved into the stake
//! vault, and closed once, with the funds moved back less the fee for leaving
//! before the lock period is over.

use vstd::prelude::*;
use crate::address::Address;
use crate::address::Derived;
use crate::address::Namespace;
use crate::address::derive_address;
use crate::address::program_address;
use crate::address::seeds;
use crate::clock::current_time;
use crate::errors::ErrorCode;
use crate::errors::Failure;
use crate::state::Stake;
use crate::state::StakeConfig;
use crate::state::StakeCount;
use crate::state::Treasury;
use crate::state::MAX_PERCENT;
use crate::transfer::Authority;
use crate::transfer::Transfer;

verus! {

/// The staking rules asked for.
#[derive(Clone, Debug, PartialEq, Eq)]
pub struct StakeConfigParams {
    pub min_stake_amount: u64,
    pub max_stake_amount: u64,
    pub early_withdrawal_fee: u8,
    pub lock_options: Vec<u64>,
}

/// What creating the staking rules works on: the caller, the record that
/// becomes the rules, and the bump of its address.
#[derive(Clone, Debug, PartialEq, Eq)]
pub struct InitializeStakeConfig {
    pub admin: Address,
    pub stake_config: StakeConfig,
    pub bump: u8,
}

/// Creates the staking rules as asked for, owned by the caller.
pub fn initialize_stake_config(
    ctx: &mut InitializeStakeConfig,
    params: StakeConfigParams,
) -> (r: Result<(), ErrorCode>)
    requires
        params.early_withdrawal_fee <= MAX_PERCENT,
    ensures
        r is Ok,
        *final(ctx) == (InitializeStakeConfig {
            stake_config: StakeConfig {
                admin: old(ctx).admin,
                min_stake_amount: params.min_stake_amount,
                max_stake_amount: params.max_stake_amount,
                early_withdrawal_fee: params.early_withdrawal_fee,
                lock_options: params.lock_options,
                bump: old(ctx).bump,
            },
            ..*old(ctx)
        }),
        final(ctx).stake_config.well_formed(),
{
    ctx.stake_config.admin = ctx.admin;
    ctx.stake_config.min_stake_amount = params.min_stake_amount;
    ctx.stake_config.max_stake_amount = params.max_stake_amount;
    ctx.stake_config.early_withdrawal_fee = params.early_withdrawal_fee;
    ctx.stake_config.lock_options = params.lock_options;
    ctx.stake_config.bump = ctx.bump;
    Ok(())
}

/// What opening a stake works on: the caller, the address of the caller's
/// registry record, the record that becomes the stake and the bump of its
/// address, the staking rules, the address of the stake vault, and the
/// caller's count of stakes.
#[derive(Clone, Debug, PartialEq, Eq)]
pub struct CreateStake {
    pub user: Address,
    pub fpl_user: Address,
    pub stake: Stake,
    pub stake_bump: u8,
    pub stake_config: StakeConfig,
    pub stake_vault: Address,
    pub stake_count: StakeCount,
}

/// Whether `lock_period` is among `options`.
fn offers_lock(options: &Vec<u64>, lock_period: u64) -> (r: bool)
    ensures
        r == options@.contains(lock_period),
{
    let mut i: usize = 0;
    while i < options.len()
        invariant
            i <= options.len(),
            forall|j: int| 0 <= j < i ==> options@[j] != lock_period,
        decreases options.len() - i,
    {
        if options[i] == lock_period {
            return true;
        }
        i += 1;
    }
    false
}

/// Why opening a stake is refused, if it is: the amount is out of bounds,
/// or the lock period is not on offer.
pub open spec fn create_rejection(
    ctx: CreateStake,
    amount: u64,
    lock_period: u64,
) -> Option<ErrorCode> {
    if !ctx.stake_config.admits_amount(amount) {
        Some(ErrorCode::InvalidStakeAmount)
    } else if !ctx.stake_config.admits_lock(lock_period) {
        Some(ErrorCode::InvalidLockPeriod)
    } else {
        None
    }
}

/// The records after a stake was opened: the stake is active, owned by the
/// caller, started and last claimed at `now`; the caller's count of stakes
/// has grown by one.
pub open spec fn create_applied(
    ctx: CreateStake,
    amount: u64,
    lock_period: u64,
    now: i64,
) -> CreateStake {
    CreateStake {
        stake: Stake {
            owner: ctx.user,
            amount,
            start_time: now,
            lock_period,
            fpl_user: ctx.fpl_user,
            is_active: true,
            last_claim_time: now,
            bump: ctx.stake_bump,
        },
        stake_count: StakeCount { count: (ctx.stake_count.count + 1) as u64 },
        ..ctx
    }
}

/// Computes why opening a stake is refused, if it is.
fn refuse_create(ctx: &CreateStake, amount: u64, lock_period: u64) -> (r: Option<ErrorCode>)
    ensures
        r == create_rejection(*ctx, amount, lock_period),
{
    if amount < ctx.stake_config.min_stake_amount || amount > ctx.stake_config.max_stake_amount {
        Some(ErrorCode::InvalidStakeAmount)
    } else if !offers_lock(&ctx.stake_config.lock_options, lock_period) {
        Some(ErrorCode::InvalidLockPeriod)
    } else {
        None
    }
}

/// The payment that opening a stake asks for: `amount`, from the caller to
/// the stake vault.
pub open spec fn create_transfer(ctx: CreateStake, amount: u64) -> Transfer {
    Transfer { from: ctx.user, to: ctx.stake_vault, amount, authority: Authority::Sender }
}

/// Opens a stake that is not refused.
fn apply_create(ctx: &mut CreateStake, amount: u64, lock_period: u64, now: i64) -> (t: Transfer)
    requires
        old(ctx).stake_count.count < u64::MAX,
    ensures
        *final(ctx) == create_applied(*old(ctx), amount, lock_period, now),
        t == create_transfer(*old(ctx), amount),
{
    ctx.stake.owner = ctx.user;
    ctx.stake.amount = amount;
    ctx.stake.start_time = now;
    ctx.stake.lock_period = lock_period;
    ctx.stake.fpl_user = ctx.fpl_user;
    ctx.stake.is_active = true;
    ctx.stake.last_claim_time = now;
    ctx.stake.bump = ctx.stake_bump;
    ctx.stake_count.count = ctx.stake_count.count + 1;
    Transfer { from: ctx.user, to: ctx.stake_vault, amount, authority: Authority::Sender }
}

/// Opens a stake of `amount` for `lock_period` seconds at `now`.
///
/// The call is refused, and nothing changes, where the amount is below the
/// least or above the greatest amount of the staking rules
/// (`InvalidStakeAmount`), or else where the lock period is not on offer
/// (`InvalidLockPeriod`). On every other input the stake is opened: the
/// caller's count of stakes grows by exactly one, and the result is the
/// payment of `amount` from the caller to the stake vault.
pub fn create_stake_at(
    ctx: &mut CreateStake,
    amount: u64,
    lock_period: u64,
    now: i64,
) -> (r: Result<Transfer, ErrorCode>)
    requires
        old(ctx).stake_count.count < u64::MAX,
    ensures
        r is Ok <==> old(ctx).stake_config.admits_amount(amount) && old(
            ctx,
        ).stake_config.admits_lock(lock_period),
        match r {
            Ok(t) => {
                &&& *final(ctx) == create_applied(*old(ctx), amount, lock_period, now)
                &&& final(ctx).stake_count.count == old(ctx).stake_count.count + 1
                &&& t == create_transfer(*old(ctx), amount)
            },
            Err(e) => {
                &&& create_rejection(*old(ctx), amount, lock_period) == Some(e)
                &&& *final(ctx) == *old(ctx)
            },
        },
{
    match refuse_create(ctx, amount, lock_period) {
        Some(e) => Err(e),
        None => Ok(apply_create(ctx, amount, lock_period, now)),
    }
}

/// Opens a stake of `amount` for `lock_period` seconds at the runtime's
/// time.
///
/// The call is refused on the inputs on which `create_stake_at` refuses it,
/// with the same rejection. On every other input the stake is opened as
/// `create_stake_at` opens it at the time the runtime's clock gave, which the
/// stake records as its start; where the runtime gives no time, the call
/// fails with `ClockUnavailable`. Nothing changes unless the stake is opened.
pub fn create_stake(
    ctx: &mut CreateStake,
    amount: u64,
    lock_period: u64,
) -> (r: Result<Transfer, Failure>)
    requires
        old(ctx).stake_count.count < u64::MAX,
    ensures
        r is Err ==> *final(ctx) == *old(ctx),
        match create_rejection(*old(ctx), amount, lock_period) {
            Some(e) => r == Err::<Transfer, Failure>(Failure::Rejected(e)),
            None => match r {
                Ok(t) => {
                    &&& *final(ctx) == create_applied(
                        *old(ctx),
                        amount,
                        lock_period,
                        final(ctx).stake.start_time,
                    )
                    &&& final(ctx).stake_count.count == old(ctx).stake_count.count + 1
                    &&& t == create_transfer(*old(ctx), amount)
                },
                Err(f) => f == Failure::ClockUnavailable,
            },
        },
{
    if let Some(e) = refuse_create(ctx, amount, lock_period) {
        return Err(Failure::Rejected(e));
    }
    match current_time() {
        Ok(now) => Ok(apply_create(ctx, amount, lock_period, now)),
        Err(f) => Err(f),
    }
}

/// A stake that was opened at a derived address: the address, and the
/// payment that opening it asks for.
#[derive(Clone, Copy, Debug, PartialEq, Eq)]
pub struct Opened {
    pub address: Address,
    pub transfer: Transfer,
}

/// The seeds of the stake that a caller opens next: the stake namespace, the
/// caller, and the caller's count of stakes as the sequence number.
pub open spec fn next_stake_seeds(ctx: CreateStake) -> Seq<Seq<u8>> {
    seeds(Namespace::Stake, Some(ctx.user), Some(ctx.stake_count.count))
}

/// Opens a stake at the address derived for the caller's next stake under
/// `program_id`: the caller's count of stakes is the sequence number.
///
/// The result is `None`, and nothing changes, where no address can be
/// derived. Otherwise the stake's bump is the derived one, and the stake is
/// opened or refused as `create_stake_at` says; an opened stake comes with
/// its address.
pub fn open_stake_at(
    program_id: &Address,
    ctx: &mut CreateStake,
    amount: u64,
    lock_period: u64,
    now: i64,
) -> (r: Option<Result<Opened, ErrorCode>>)
    requires
        old(ctx).stake_count.count < u64::MAX,
    ensures
        r is None <==> program_address(next_stake_seeds(*old(ctx)), program_id@) is None,
        match r {
            None => *final(ctx) == *old(ctx),
            Some(Err(e)) => {
                &&& create_rejection(*old(ctx), amount, lock_period) == Some(e)
                &&& *final(ctx) == *old(ctx)
            },
            Some(Ok(opened)) => {
                &&& create_rejection(*old(ctx), amount, lock_period) is None
                &&& program_address(next_stake_seeds(*old(ctx)), program_id@) == Some(
                    (opened.address@, final(ctx).stake_bump),
                )
                &&& *final(ctx) == create_applied(
                    CreateStake { stake_bump: final(ctx).stake_bump, ..*old(ctx) },
                    amount,
                    lock_period,
                    now,
                )
                &&& opened.transfer == create_transfer(*old(ctx), amount)
            },
        },
{
    let found = derive_address(
        program_id,
        Namespace::Stake,
        Some(ctx.user),
        Some(ctx.stake_count.count),
    );
    match found {
        None => None,
        Some(derived) => {
            let given: u8 = ctx.stake_bump;
            ctx.stake_bump = derived.bump;
            match create_stake_at(ctx, amount, lock_period, now) {
                Ok(transfer) => Some(Ok(Opened { address: derived.address, transfer })),
                Err(e) => {
                    ctx.stake_bump = given;
                    Some(Err(e))
                },
            }
        },
    }
}

/// What closing a stake works on: the caller, the stake, the staking rules,
/// the stake vault with its bump, and the treasury.
#[derive(Clone, Debug, PartialEq, Eq)]
pub struct Unstake {
    pub user: Address,
    pub stake: Stake,
    pub stake_config: StakeConfig,
    pub stake_vault: Derived,
    pub treasury: Treasury,
}

/// The fee for withdrawing `amount` early: `fee_percent` hundredths of it,
/// rounded down.
pub open spec fn spec_early_withdrawal_fee(amount: u64, fee_percent: u8) -> int {
    (amount * fee_percent) / 100
}

/// Computes the fee for withdrawing `amount` early.
pub fn early_withdrawal_fee(amount: u64, fee_percent: u8) -> (r: u64)
    requires
        fee_percent <= MAX_PERCENT,
    ensures
        r == spec_early_withdrawal_fee(amount, fee_percent),
        r <= amount,
{
    assert(amount * fee_percent <= amount * 100) by (nonlinear_arith)
        requires
            fee_percent <= 100,
    ;
    let product: u128 = amount as u128 * fee_percent as u128;
    (product / 100) as u64
}

/// Whether a stake is closed early at `now`: before its lock period has
/// passed since it was opened.
pub open spec fn is_early(stake: Stake, now: i64) -> bool {
    now - stake.start_time < stake.lock_period
}

/// What closing a stake at `now` costs: the early-withdrawal fee where it is
/// closed early, nothing otherwise.
pub open spec fn unstake_penalty(ctx: Unstake, now: i64) -> int {
    if is_early(ctx.stake, now) {
        spec_early_withdrawal_fee(ctx.stake.amount, ctx.stake_config.early_withdrawal_fee)
    } else {
        0
    }
}

/// Computes what closing a stake at `now` costs.
pub fn closing_penalty(ctx: &Unstake, now: i64) -> (r: u64)
    requires
        ctx.stake_config.well_formed(),
    ensures
        r == unstake_penalty(*ctx, now),
        r <= ctx.stake.amount,
{
    let held: i128 = now as i128 - ctx.stake.start_time as i128;
    if held < ctx.stake.lock_period as i128 {
        early_withdrawal_fee(ctx.stake.amount, ctx.stake_config.early_withdrawal_fee)
    } else {
        0
    }
}

/// Why closing a stake is refused, if it is: the caller does not own it, or
/// it is closed already.
pub open spec fn unstake_rejection(ctx: Unstake) -> Option<ErrorCode> {
    if ctx.stake.owner != ctx.user {
        Some(ErrorCode::UnauthorizedAccess)
    } else if !ctx.stake.is_active {
        Some(ErrorCode::StakeNotActive)
    } else {
        None
    }
}

/// The records after a stake was closed at `now`: the stake is closed, and
/// the treasury counts the penalty among its fees.
pub open spec fn unstake_applied(ctx: Unstake, now: i64) -> Unstake {
    Unstake {
        stake: Stake { is_active: false, ..ctx.stake },
        treasury: Treasury {
            total_fees: (ctx.treasury.total_fees + unstake_penalty(ctx, now)) as u64,
            ..ctx.treasury
        },
        ..ctx
    }
}

/// The payment that closing a stake at `now` asks for: the staked amount
/// less the penalty, from the stake vault to the caller, signed by the vault.
pub open spec fn unstake_transfer(ctx: Unstake, now: i64) -> Transfer {
    Transfer {
        from: ctx.stake_vault.address,
        to: ctx.user,
        amount: (ctx.stake.amount - unstake_penalty(ctx, now)) as u64,
        authority: Authority::Vault {
            namespace: Namespace::StakeVault,
            bump: ctx.stake_vault.bump,
        },
    }
}

/// Computes why closing a stake is refused, if it is.
fn refuse_unstake(ctx: &Unstake) -> (r: Option<ErrorCode>)
    ensures
        r == unstake_rejection(*ctx),
{
    if ctx.stake.owner != ctx.user {
        Some(ErrorCode::UnauthorizedAccess)
    } else if !ctx.stake.is_active {
        Some(ErrorCode::StakeNotActive)
    } else {
        None
    }
}

/// Closes a stake that is not refused.
fn apply_unstake(ctx: &mut Unstake, now: i64) -> (t: Transfer)
    requires
        old(ctx).stake_config.well_formed(),
        old(ctx).treasury.total_fees + unstake_penalty(*old(ctx), now) <= u64::MAX,
    ensures
        *final(ctx) == unstake_applied(*old(ctx), now),
        t == unstake_transfer(*old(ctx), now),
        t.amount == old(ctx).stake.amount - unstake_penalty(*old(ctx), now),
{
    let penalty: u64 = closing_penalty(ctx, now);
    let amount: u64 = ctx.stake.amount - penalty;
    ctx.treasury.total_fees = ctx.treasury.total_fees + penalty;
    ctx.stake.is_active = false;
    Transfer {
        from: ctx.stake_vault.address,
        to: ctx.user,
        amount,
        authority: Authority::Vault {
            namespace: Namespace::StakeVault,
            bump: ctx.stake_vault.bump,
        },
    }
}

/// Closes a stake at `now`.
///
/// The call is refused, and nothing changes, where the caller does not own
/// the stake (`UnauthorizedAccess`), or else where the stake is closed
/// already (`StakeNotActive`). Otherwise the stake is closed for good. Where
/// less than the lock period has passed since the stake was opened, the
/// early-withdrawal fee is kept back and added to the treasury's count of
/// fees; it stays in the stake vault. The result is the payment of the rest
/// from the stake vault to the caller.
pub fn unstake_at(ctx: &mut Unstake, now: i64) -> (r: Result<Transfer, ErrorCode>)
    requires
        old(ctx).stake_config.well_formed(),
        old(ctx).treasury.total_fees + unstake_penalty(*old(ctx), now) <= u64::MAX,
    ensures
        match r {
            Ok(t) => {
                &&& unstake_rejection(*old(ctx)) is None
                &&& *final(ctx) == unstake_applied(*old(ctx), now)
                &&& t == unstake_transfer(*old(ctx), now)
                &&& is_early(old(ctx).stake, now) ==> t.amount == old(ctx).stake.amount
                    - spec_early_withdrawal_fee(
                    old(ctx).stake.amount,
                    old(ctx).stake_config.early_withdrawal_fee,
                )
                &&& !is_early(old(ctx).stake, now) ==> t.amount == old(ctx).stake.amount
            },
            Err(e) => {
                &&& unstake_rejection(*old(ctx)) == Some(e)
                &&& *final(ctx) == *old(ctx)
            },
        },
{
    match refuse_unstake(ctx) {
        Some(e) => Err(e),
        None => Ok(apply_unstake(ctx, now)),
    }
}

/// Closes a stake at the runtime's time.
///
/// The call is refused on the inputs on which `unstake_at` refuses it, with
/// the same rejection. On every other input the stake is closed as
/// `unstake_at` closes it at the time the runtime's clock gave; where the
/// runtime gives no time, the call fails with `ClockUnavailable`. Nothing
/// changes unless the stake is closed.
pub fn unstake(ctx: &mut Unstake) -> (r: Result<Transfer, Failure>)
    requires
        old(ctx).stake_config.well_formed(),
        old(ctx).treasury.total_fees + spec_early_withdrawal_fee(
            old(ctx).stake.amount,
            old(ctx).stake_config.early_withdrawal_fee,
        ) <= u64::MAX,
    ensures
        r is Err ==> *final(ctx) == *old(ctx),
        match unstake_rejection(*old(ctx)) {
            Some(e) => r == Err::<Transfer, Failure>(Failure::Rejected(e)),
            None => match r {
                Ok(t) => exists|now: i64|
                    {
                        &&& *final(ctx) == #[trigger] unstake_applied(*old(ctx), now)
                        &&& t == unstake_transfer(*old(ctx), now)
                    },
                Err(f) => f == Failure::ClockUnavailable,
            },
        },
{
    if let Some(e) = refuse_unstake(ctx) {
        return Err(Failure::Rejected(e));
    }
    match current_time() {
        Ok(now) => Ok(apply_unstake(ctx, now)),
        Err(f) => Err(f),
    }
}

/// Closing a stake is final: once a stake was closed, closing it again is
/// refused with `StakeNotActive` at any time, and so asks for no second
/// payment.
pub proof fn lemma_unstake_once(ctx: Unstake, now: i64)
    requires
        unstake_rejection(ctx) is None,
    ensures
        unstake_rejection(unstake_applied(ctx, now)) == Some(ErrorCode::StakeNotActive),
{
}

} // verus!
