//! The reward engine: weighting a stake's base reward by the owner's weekly
//! score, paying it out of the pool while the pool can pay, and funding the
//! pool.

use vstd::prelude::*;
use crate::address::Address;
use crate::address::Derived;
use crate::address::Namespace;
use crate::clock::current_time;
use crate::errors::ErrorCode;
use crate::errors::Failure;
use crate::state::FplUser;
use crate::state::RewardConfig;
use crate::state::RewardPool;
use crate::state::Stake;
use crate::state::MAX_PERCENT;
use crate::transfer::Authority;
use crate::transfer::Transfer;

verus! {

/// The number of seconds in the year over which the base yield compounds.
pub const SECONDS_IN_YEAR: u64 = 31_536_000;

/// What a claim works on: the caller, the stake claimed on, the caller's
/// registry record, the reward rules, the pool, and the vault that pays.
#[derive(Clone, Debug, PartialEq, Eq)]
pub struct ClaimRewards {
    pub user: Address,
    pub stake: Stake,
    pub fpl_user: FplUser,
    pub reward_config: RewardConfig,
    pub reward_pool: RewardPool,
    pub reward_vault: Derived,
}

/// The weight of a weekly score in percentage points: 100, and one
/// hundredth of the score times the multiplier, rounded down. It has no
/// upper bound but that of its inputs.
pub open spec fn spec_performance_factor(weekly_score: u32, score_multiplier: u8) -> int {
    100 + (weekly_score * score_multiplier) / 100
}

/// Computes the weight of a weekly score.
pub fn performance_factor(weekly_score: u32, score_multiplier: u8) -> (r: u64)
    ensures
        r == spec_performance_factor(weekly_score, score_multiplier),
        100 <= r <= 10_952_166_702,
{
    let score: u64 = weekly_score as u64;
    let multiplier: u64 = score_multiplier as u64;
    assert(score * multiplier <= 4_294_967_295 * 255) by (nonlinear_arith)
        requires
            score <= 4_294_967_295,
            multiplier <= 255,
    ;
    100 + (score * multiplier) / 100
}

/// A base reward weighted by the score: the base reward times the
/// performance factor, divided by 100 and rounded down.
pub open spec fn spec_weighted_reward(
    base_reward: u64,
    weekly_score: u32,
    score_multiplier: u8,
) -> int {
    (base_reward * spec_performance_factor(weekly_score, score_multiplier)) / 100
}

/// Computes a base reward weighted by the score.
pub fn weighted_reward(base_reward: u64, weekly_score: u32, score_multiplier: u8) -> (r: u128)
    ensures
        r == spec_weighted_reward(base_reward, weekly_score, score_multiplier),
        r >= base_reward,
{
    let factor: u128 = performance_factor(weekly_score, score_multiplier) as u128;
    let base: u128 = base_reward as u128;
    assert(base * factor <= 0xffff_ffff_ffff_ffff * 10_952_166_702) by (nonlinear_arith)
        requires
            base <= 0xffff_ffff_ffff_ffff,
            factor <= 10_952_166_702,
    ;
    assert(base * factor >= base * 100) by (nonlinear_arith)
        requires
            factor >= 100,
    ;
    (base * factor) / 100
}

/// The seconds that have passed since the last claim on a stake.
pub open spec fn since_last_claim(stake: Stake, now: i64) -> int {
    now - stake.last_claim_time
}

/// Why a claim is refused whatever the time, if it is: the caller does not
/// own the stake, or the stake is closed.
pub open spec fn claim_standing(ctx: ClaimRewards) -> Option<ErrorCode> {
    if ctx.stake.owner != ctx.user {
        Some(ErrorCode::UnauthorizedAccess)
    } else if !ctx.stake.is_active {
        Some(ErrorCode::StakeNotActive)
    } else {
        None
    }
}

/// Why a claim is not due at `now`, if it is not: it is refused whatever
/// the time, or less than the distribution frequency has passed since the
/// last claim.
pub open spec fn claim_gate(ctx: ClaimRewards, now: i64) -> Option<ErrorCode> {
    if claim_standing(ctx) is Some {
        claim_standing(ctx)
    } else if since_last_claim(ctx.stake, now) < ctx.reward_config.distribution_frequency {
        Some(ErrorCode::TooEarlyToClaim)
    } else {
        None
    }
}

/// The reward that a claim pays for a given base reward.
pub open spec fn claim_reward(ctx: ClaimRewards, base_reward: u64) -> int {
    spec_weighted_reward(base_reward, ctx.fpl_user.weekly_score, ctx.reward_config.score_multiplier)
}

/// Why a claim is refused, if it is: the claim is not due, or the pool
/// cannot pay the reward.
pub open spec fn claim_rejection(
    ctx: ClaimRewards,
    now: i64,
    base_reward: u64,
) -> Option<ErrorCode> {
    if claim_gate(ctx, now) is Some {
        claim_gate(ctx, now)
    } else if claim_reward(ctx, base_reward) > ctx.reward_pool.available() {
        Some(ErrorCode::NoRewardsAvailable)
    } else {
        None
    }
}

/// The records after an accepted claim: the pool has paid the reward, and
/// the stake's last claim is now.
pub open spec fn claim_applied(ctx: ClaimRewards, now: i64, base_reward: u64) -> ClaimRewards {
    ClaimRewards {
        stake: Stake { last_claim_time: now, ..ctx.stake },
        reward_pool: RewardPool {
            distributed_rewards: (ctx.reward_pool.distributed_rewards + claim_reward(
                ctx,
                base_reward,
            )) as u64,
            ..ctx.reward_pool
        },
        ..ctx
    }
}

/// The payment of an accepted claim: the reward, from the reward vault to
/// the caller, signed by the vault.
pub open spec fn claim_transfer(ctx: ClaimRewards, base_reward: u64) -> Transfer {
    Transfer {
        from: ctx.reward_vault.address,
        to: ctx.user,
        amount: claim_reward(ctx, base_reward) as u64,
        authority: Authority::Vault {
            namespace: Namespace::RewardVault,
            bump: ctx.reward_vault.bump,
        },
    }
}

/// Computes why a claim is refused whatever the time, if it is.
fn refuse_claim(ctx: &ClaimRewards) -> (r: Option<ErrorCode>)
    ensures
        r == claim_standing(*ctx),
{
    if ctx.stake.owner != ctx.user {
        Some(ErrorCode::UnauthorizedAccess)
    } else if !ctx.stake.is_active {
        Some(ErrorCode::StakeNotActive)
    } else {
        None
    }
}

/// Computes the seconds since the last claim, where at least the
/// distribution frequency has passed.
fn elapsed_at(ctx: &ClaimRewards, now: i64) -> (r: Option<u64>)
    ensures
        match r {
            Some(elapsed) => {
                &&& since_last_claim(ctx.stake, now) >= ctx.reward_config.distribution_frequency
                &&& elapsed == since_last_claim(ctx.stake, now)
            },
            None => since_last_claim(ctx.stake, now) < ctx.reward_config.distribution_frequency,
        },
{
    let elapsed: i128 = now as i128 - ctx.stake.last_claim_time as i128;
    if elapsed < ctx.reward_config.distribution_frequency as i128 {
        None
    } else {
        Some(elapsed as u64)
    }
}

/// Tells whether a claim is due at `now`, and over how many seconds the
/// base reward of the stake is then to be computed: those since the last
/// claim.
pub fn claim_period_at(ctx: &ClaimRewards, now: i64) -> (r: Result<u64, ErrorCode>)
    ensures
        match r {
            Ok(elapsed) => claim_gate(*ctx, now) is None && elapsed == since_last_claim(
                ctx.stake,
                now,
            ),
            Err(e) => claim_gate(*ctx, now) == Some(e),
        },
{
    if let Some(e) = refuse_claim(ctx) {
        return Err(e);
    }
    match elapsed_at(ctx, now) {
        Some(elapsed) => Ok(elapsed),
        None => Err(ErrorCode::TooEarlyToClaim),
    }
}

/// A time at which a claim is due, and the seconds since the last claim.
#[derive(Clone, Copy, Debug, PartialEq, Eq)]
pub struct ClaimPeriod {
    pub now: i64,
    pub elapsed: u64,
}

/// Tells whether a claim is due at the runtime's time, and gives that time
/// with the seconds since the last claim.
///
/// A claim that is refused whatever the time is refused so. Otherwise the
/// outcome is that of `claim_period_at` at the time the runtime's clock
/// gave; where the runtime gives no time, the call fails with
/// `ClockUnavailable`.
pub fn claim_period(ctx: &ClaimRewards) -> (r: Result<ClaimPeriod, Failure>)
    ensures
        match claim_standing(*ctx) {
            Some(e) => r == Err::<ClaimPeriod, Failure>(Failure::Rejected(e)),
            None => match r {
                Ok(period) => {
                    &&& claim_gate(*ctx, period.now) is None
                    &&& period.elapsed == since_last_claim(ctx.stake, period.now)
                },
                Err(Failure::Rejected(e)) => exists|now: i64| #[trigger]
                    claim_gate(*ctx, now) == Some(e),
                Err(Failure::ClockUnavailable) => true,
            },
        },
{
    if let Some(e) = refuse_claim(ctx) {
        return Err(Failure::Rejected(e));
    }
    match current_time() {
        Ok(now) => match elapsed_at(ctx, now) {
            Some(elapsed) => Ok(ClaimPeriod { now, elapsed }),
            None => {
                assert(claim_gate(*ctx, now) == Some(ErrorCode::TooEarlyToClaim));
                Err(Failure::Rejected(ErrorCode::TooEarlyToClaim))
            },
        },
        Err(f) => Err(f),
    }
}

/// Claims the reward of a stake at `now`, where `base_reward` is the
/// stake's compounded base yield over the seconds since its last claim: the
/// staked amount times what one plus the yearly base yield, raised to the
/// elapsed fraction of a year, exceeds one, rounded down. That power is
/// fractional and is the caller's to compute; `claim_period` gives the time
/// and the seconds.
///
/// The claim is refused, and nothing changes, where the caller does not own
/// the stake, the stake is closed, the claim comes too early, or the pool
/// cannot pay; these are tested in this order. Otherwise the pool records
/// the reward as distributed, the stake records `now` as its last claim, and
/// the result is the payment of the reward from the reward vault to the
/// caller.
pub fn claim_rewards(
    ctx: &mut ClaimRewards,
    now: i64,
    base_reward: u64,
) -> (r: Result<Transfer, ErrorCode>)
    ensures
        match r {
            Ok(t) => {
                &&& claim_rejection(*old(ctx), now, base_reward) is None
                &&& *final(ctx) == claim_applied(*old(ctx), now, base_reward)
                &&& t == claim_transfer(*old(ctx), base_reward)
            },
            Err(e) => {
                &&& claim_rejection(*old(ctx), now, base_reward) == Some(e)
                &&& *final(ctx) == *old(ctx)
            },
        },
        final(ctx).reward_pool.distributed_rewards >= old(ctx).reward_pool.distributed_rewards,
        old(ctx).reward_pool.well_formed() ==> final(ctx).reward_pool.well_formed(),
{
    if let Err(e) = claim_period_at(ctx, now) {
        return Err(e);
    }
    let reward: u128 = weighted_reward(
        base_reward,
        ctx.fpl_user.weekly_score,
        ctx.reward_config.score_multiplier,
    );
    let pool = ctx.reward_pool;
    if pool.distributed_rewards > pool.total_rewards || reward > (pool.total_rewards
        - pool.distributed_rewards) as u128 {
        return Err(ErrorCode::NoRewardsAvailable);
    }
    let amount: u64 = reward as u64;
    ctx.reward_pool.distributed_rewards = pool.distributed_rewards + amount;
    ctx.stake.last_claim_time = now;
    Ok(
        Transfer {
            from: ctx.reward_vault.address,
            to: ctx.user,
            amount,
            authority: Authority::Vault {
                namespace: Namespace::RewardVault,
                bump: ctx.reward_vault.bump,
            },
        },
    )
}

/// What funding the pool works on: the caller, the pool, and the address
/// of the vault that holds the pool's funds.
#[derive(Clone, Copy, Debug, PartialEq, Eq)]
pub struct DistributeRewards {
    pub admin: Address,
    pub reward_pool: RewardPool,
    pub reward_vault: Address,
}

/// The records after the pool was funded with `amount`: the pool's total
/// has grown by it.
pub open spec fn funding_applied(ctx: DistributeRewards, amount: u64) -> DistributeRewards {
    DistributeRewards {
        reward_pool: RewardPool {
            total_rewards: (ctx.reward_pool.total_rewards + amount) as u64,
            ..ctx.reward_pool
        },
        ..ctx
    }
}

/// The payment that funding the pool asks for: `amount`, from the admin to
/// the reward vault.
pub open spec fn funding_transfer(ctx: DistributeRewards, amount: u64) -> Transfer {
    Transfer { from: ctx.admin, to: ctx.reward_vault, amount, authority: Authority::Sender }
}

/// Funds the pool with `amount`. Only the pool's admin may: for any other
/// caller the call is refused with `UnauthorizedAccess` and nothing changes.
/// Otherwise the pool's total grows by `amount`, and the result is the
/// payment of `amount` from the admin to the reward vault.
pub fn distribute_rewards(
    ctx: &mut DistributeRewards,
    amount: u64,
) -> (r: Result<Transfer, ErrorCode>)
    requires
        old(ctx).reward_pool.total_rewards + amount <= u64::MAX,
    ensures
        r is Err <==> old(ctx).reward_pool.admin != old(ctx).admin,
        match r {
            Ok(t) => {
                &&& *final(ctx) == funding_applied(*old(ctx), amount)
                &&& t == funding_transfer(*old(ctx), amount)
            },
            Err(e) => e == ErrorCode::UnauthorizedAccess && *final(ctx) == *old(ctx),
        },
        old(ctx).reward_pool.well_formed() ==> final(ctx).reward_pool.well_formed(),
{
    if ctx.reward_pool.admin != ctx.admin {
        return Err(ErrorCode::UnauthorizedAccess);
    }
    ctx.reward_pool.total_rewards = ctx.reward_pool.total_rewards + amount;
    Ok(Transfer { from: ctx.admin, to: ctx.reward_vault, amount, authority: Authority::Sender })
}

/// What creating the pool works on: the caller, the reward rules, the
/// record that becomes the pool, and the bump of the pool's address.
#[derive(Clone, Copy, Debug, PartialEq, Eq)]
pub struct InitializeRewardPool {
    pub admin: Address,
    pub reward_config: RewardConfig,
    pub reward_pool: RewardPool,
    pub bump: u8,
}

/// Creates the pool, empty and owned by the caller. Only the admin of the
/// reward rules may: for any other caller the call is refused with
/// `UnauthorizedAccess` and nothing changes.
pub fn initialize_reward_pool(ctx: &mut InitializeRewardPool) -> (r: Result<(), ErrorCode>)
    ensures
        r is Err <==> old(ctx).reward_config.admin != old(ctx).admin,
        match r {
            Ok(_) => *final(ctx) == (InitializeRewardPool {
                reward_pool: RewardPool {
                    total_rewards: 0,
                    distributed_rewards: 0,
                    admin: old(ctx).admin,
                    bump: old(ctx).bump,
                },
                ..*old(ctx)
            }) && final(ctx).reward_pool.well_formed(),
            Err(e) => e == ErrorCode::UnauthorizedAccess && *final(ctx) == *old(ctx),
        },
{
    if ctx.reward_config.admin != ctx.admin {
        return Err(ErrorCode::UnauthorizedAccess);
    }
    ctx.reward_pool.total_rewards = 0;
    ctx.reward_pool.distributed_rewards = 0;
    ctx.reward_pool.admin = ctx.admin;
    ctx.reward_pool.bump = ctx.bump;
    Ok(())
}

/// The reward rules asked for.
#[derive(Clone, Copy, Debug, PartialEq, Eq)]
pub struct RewardConfigParams {
    pub base_apy: u8,
    pub score_multiplier: u8,
    pub distribution_frequency: u64,
}

/// What creating the reward rules works on: the caller, the record that
/// becomes the rules, and the bump of its address.
#[derive(Clone, Copy, Debug, PartialEq, Eq)]
pub struct InitializeRewardConfig {
    pub admin: Address,
    pub reward_config: RewardConfig,
    pub bump: u8,
}

/// Creates the reward rules, owned by the caller. A base yield above 100
/// percent is refused with `InvalidRewardParameter`, and nothing changes.
pub fn initialize_reward_config(
    ctx: &mut InitializeRewardConfig,
    params: RewardConfigParams,
) -> (r: Result<(), ErrorCode>)
    ensures
        r is Err <==> params.base_apy > MAX_PERCENT,
        match r {
            Ok(_) => *final(ctx) == (InitializeRewardConfig {
                reward_config: RewardConfig {
                    admin: old(ctx).admin,
                    base_apy: params.base_apy,
                    score_multiplier: params.score_multiplier,
                    distribution_frequency: params.distribution_frequency,
                    bump: old(ctx).bump,
                },
                ..*old(ctx)
            }) && final(ctx).reward_config.well_formed(),
            Err(e) => e == ErrorCode::InvalidRewardParameter && *final(ctx) == *old(ctx),
        },
{
    if params.base_apy > MAX_PERCENT {
        return Err(ErrorCode::InvalidRewardParameter);
    }
    ctx.reward_config.admin = ctx.admin;
    ctx.reward_config.base_apy = params.base_apy;
    ctx.reward_config.score_multiplier = params.score_multiplier;
    ctx.reward_config.distribution_frequency = params.distribution_frequency;
    ctx.reward_config.bump = ctx.bump;
    Ok(())
}

/// A claim that follows an accepted claim on the same stake by less than the
/// distribution frequency is refused as too early, whatever its base reward,
/// and so leaves the pool as the first claim left it.
pub proof fn lemma_second_claim_too_early(
    ctx: ClaimRewards,
    now: i64,
    base_reward: u64,
    later: i64,
    later_base_reward: u64,
)
    requires
        claim_rejection(ctx, now, base_reward) is None,
        later - now < ctx.reward_config.distribution_frequency,
    ensures
        claim_rejection(claim_applied(ctx, now, base_reward), later, later_base_reward) == Some(
            ErrorCode::TooEarlyToClaim,
        ),
        pool_after_claim(
            claim_applied(ctx, now, base_reward).reward_pool,
            ClaimRequest {
                ctx: claim_applied(ctx, now, base_reward),
                now: later,
                base_reward: later_base_reward,
            },
        ) == claim_applied(ctx, now, base_reward).reward_pool,
{
}

/// A closed stake earns nothing: every claim on it is refused, at any time
/// and for any base reward.
pub proof fn lemma_closed_stake_earns_nothing(ctx: ClaimRewards, now: i64, base_reward: u64)
    requires
        !ctx.stake.is_active,
    ensures
        claim_rejection(ctx, now, base_reward) is Some,
        claim_rejection(ctx, now, base_reward) != Some(ErrorCode::TooEarlyToClaim),
        claim_rejection(ctx, now, base_reward) != Some(ErrorCode::NoRewardsAvailable),
{
}

/// One claim against a pool: the records it comes with, the time, and the
/// base reward. The pool among the records is left aside: the claim is made
/// against the pool as the claims before it left it.
pub struct ClaimRequest {
    pub ctx: ClaimRewards,
    pub now: i64,
    pub base_reward: u64,
}

/// The pool after one claim against it: as the claim leaves it where the
/// claim is accepted, unchanged where it is refused.
pub open spec fn pool_after_claim(pool: RewardPool, claim: ClaimRequest) -> RewardPool {
    let ctx = ClaimRewards { reward_pool: pool, ..claim.ctx };
    if claim_rejection(ctx, claim.now, claim.base_reward) is None {
        claim_applied(ctx, claim.now, claim.base_reward).reward_pool
    } else {
        pool
    }
}

/// The pool after a sequence of claims against it, made one after the other.
pub open spec fn pool_after_claims(pool: RewardPool, claims: Seq<ClaimRequest>) -> RewardPool
    decreases claims.len(),
{
    if claims.len() == 0 {
        pool
    } else {
        pool_after_claim(pool_after_claims(pool, claims.drop_last()), claims.last())
    }
}

/// Over any sequence of claims, accepted or refused, what the pool has
/// distributed never shrinks and never exceeds what the pool was funded
/// with, which the claims leave as it was.
pub proof fn lemma_distributed_monotonic(pool: RewardPool, claims: Seq<ClaimRequest>)
    requires
        pool.well_formed(),
    ensures
        pool_after_claims(pool, claims).well_formed(),
        pool_after_claims(pool, claims).distributed_rewards >= pool.distributed_rewards,
        pool_after_claims(pool, claims).total_rewards == pool.total_rewards,
        forall|k: int|
            0 <= k <= claims.len() ==> pool_after_claims(
                pool,
                #[trigger] claims.take(k),
            ).distributed_rewards <= pool_after_claims(pool, claims).distributed_rewards,
    decreases claims.len(),
{
    if claims.len() > 0 {
        let before = claims.drop_last();
        lemma_distributed_monotonic(pool, before);
        assert forall|k: int| 0 <= k <= claims.len() implies pool_after_claims(
            pool,
            #[trigger] claims.take(k),
        ).distributed_rewards <= pool_after_claims(pool, claims).distributed_rewards by {
            if k == claims.len() {
                assert(claims.take(k) =~= claims);
            } else {
                assert(claims.take(k) =~= before.take(k));
            }
        }
    } else {
        assert forall|k: int| 0 <= k <= claims.len() implies pool_after_claims(
            pool,
            #[trigger] claims.take(k),
        ).distributed_rewards <= pool_after_claims(pool, claims).distributed_rewards by {
            assert(claims.take(k) =~= claims);
        }
    }
}

/// Funding keeps the reward vault in step with the pool: what the vault
/// holds beyond what the pool can still pay is the same before and after,
/// where the admin does not pay from the vault itself.
pub proof fn lemma_funding_keeps_vault_in_step(ctx: DistributeRewards, amount: u64, balance: int)
    requires
        ctx.reward_pool.total_rewards + amount <= u64::MAX,
        ctx.admin != ctx.reward_vault,
    ensures
        funding_transfer(ctx, amount).balance_after(ctx.reward_vault, balance) - funding_applied(
            ctx,
            amount,
        ).reward_pool.available() == balance - ctx.reward_pool.available(),
{
}

/// An accepted claim keeps the reward vault in step with the pool: what the
/// vault holds beyond what the pool can still pay is the same before and
/// after, where the vault does not claim for itself. So a vault that covers
/// what the pool can pay goes on covering it.
pub proof fn lemma_claim_keeps_vault_in_step(
    ctx: ClaimRewards,
    now: i64,
    base_reward: u64,
    balance: int,
)
    requires
        claim_rejection(ctx, now, base_reward) is None,
        ctx.reward_pool.well_formed(),
        ctx.user != ctx.reward_vault.address,
    ensures
        claim_transfer(ctx, base_reward).balance_after(ctx.reward_vault.address, balance)
            - claim_applied(ctx, now, base_reward).reward_pool.available() == balance
            - ctx.reward_pool.available(),
        balance >= ctx.reward_pool.available() ==> claim_transfer(ctx, base_reward).balance_after(
            ctx.reward_vault.address,
            balance,
        ) >= 0,
{
}

} // verus!
