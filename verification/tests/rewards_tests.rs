use solscore::address::Address;
use solscore::address::Derived;
use solscore::address::Namespace;
use solscore::errors::ErrorCode;
use solscore::errors::Failure;
use solscore::rewards::claim_period;
use solscore::rewards::claim_period_at;
use solscore::rewards::claim_rewards;
use solscore::rewards::distribute_rewards;
use solscore::rewards::initialize_reward_config;
use solscore::rewards::initialize_reward_pool;
use solscore::rewards::performance_factor;
use solscore::rewards::weighted_reward;
use solscore::rewards::ClaimRewards;
use solscore::rewards::DistributeRewards;
use solscore::rewards::InitializeRewardConfig;
use solscore::rewards::InitializeRewardPool;
use solscore::rewards::RewardConfigParams;
use solscore::rewards::SECONDS_IN_YEAR;
use solscore::state::FplUser;
use solscore::state::RewardConfig;
use solscore::state::RewardPool;
use solscore::state::Stake;
use solscore::transfer::Authority;
use solscore::transfer::Transfer;

const HOUR: u64 = 3_600;

fn party(byte: u8) -> Address {
    Address::new([byte; 32])
}

fn compounded(principal: u64, elapsed: u64, apy: u8) -> u64 {
    let rate = apy as f64 / 100.0;
    let years = elapsed as f64 / SECONDS_IN_YEAR as f64;
    (principal as f64 * ((1.0 + rate).powf(years) - 1.0)) as u64
}

fn reward_rules() -> RewardConfig {
    RewardConfig {
        admin: party(1),
        base_apy: 10,
        score_multiplier: 20,
        distribution_frequency: HOUR,
        bump: 247,
    }
}

fn pool(total: u64, distributed: u64) -> RewardPool {
    RewardPool { total_rewards: total, distributed_rewards: distributed, admin: party(1), bump: 246 }
}

fn claim(weekly_score: u32, total: u64, distributed: u64) -> ClaimRewards {
    ClaimRewards {
        user: party(2),
        stake: Stake {
            owner: party(2),
            amount: 1_000_000,
            start_time: 0,
            lock_period: 7 * 24 * HOUR,
            fpl_user: party(3),
            is_active: true,
            last_claim_time: 0,
            bump: 254,
        },
        fpl_user: FplUser {
            authority: party(2),
            fpl_id: String::from("1234567"),
            team_data: Vec::new(),
            weekly_score,
            total_score: 900,
            last_updated: 0,
            bump: 249,
        },
        reward_config: reward_rules(),
        reward_pool: pool(total, distributed),
        reward_vault: Derived { address: party(5), bump: 245 },
    }
}

#[test]
fn reward_rules_are_created_as_asked() {
    let blank = RewardConfig {
        admin: party(0),
        base_apy: 0,
        score_multiplier: 0,
        distribution_frequency: 0,
        bump: 0,
    };
    let mut ctx = InitializeRewardConfig { admin: party(1), reward_config: blank, bump: 247 };
    let params =
        RewardConfigParams { base_apy: 10, score_multiplier: 20, distribution_frequency: HOUR };
    assert_eq!(initialize_reward_config(&mut ctx, params), Ok(()));
    assert_eq!(ctx.reward_config, reward_rules());
}

#[test]
fn base_yield_of_100_percent_is_accepted() {
    let mut ctx =
        InitializeRewardConfig { admin: party(1), reward_config: reward_rules(), bump: 247 };
    let params =
        RewardConfigParams { base_apy: 100, score_multiplier: 255, distribution_frequency: 0 };
    assert_eq!(initialize_reward_config(&mut ctx, params), Ok(()));
    assert_eq!(ctx.reward_config.base_apy, 100);
}

#[test]
fn base_yield_above_100_percent_is_refused() {
    let mut ctx =
        InitializeRewardConfig { admin: party(1), reward_config: reward_rules(), bump: 200 };
    let params =
        RewardConfigParams { base_apy: 101, score_multiplier: 1, distribution_frequency: 1 };
    assert_eq!(initialize_reward_config(&mut ctx, params), Err(ErrorCode::InvalidRewardParameter));
    assert_eq!(ctx.reward_config, reward_rules());
}

#[test]
fn pool_is_created_empty_for_the_admin() {
    let mut ctx = InitializeRewardPool {
        admin: party(1),
        reward_config: reward_rules(),
        reward_pool: RewardPool {
            total_rewards: 7,
            distributed_rewards: 9,
            admin: party(0),
            bump: 0,
        },
        bump: 246,
    };
    assert_eq!(initialize_reward_pool(&mut ctx), Ok(()));
    assert_eq!(ctx.reward_pool, pool(0, 0));
}

#[test]
fn pool_is_not_created_for_a_stranger() {
    let before = InitializeRewardPool {
        admin: party(9),
        reward_config: reward_rules(),
        reward_pool: pool(7, 3),
        bump: 246,
    };
    let mut ctx = before;
    assert_eq!(initialize_reward_pool(&mut ctx), Err(ErrorCode::UnauthorizedAccess));
    assert_eq!(ctx, before);
}

#[test]
fn funding_grows_the_total_and_pays_the_vault() {
    let mut ctx =
        DistributeRewards { admin: party(1), reward_pool: pool(1_000, 400), reward_vault: party(5) };
    let result = distribute_rewards(&mut ctx, 250);
    assert_eq!(
        result,
        Ok(Transfer { from: party(1), to: party(5), amount: 250, authority: Authority::Sender })
    );
    assert_eq!(ctx.reward_pool, pool(1_250, 400));
}

#[test]
fn funding_by_a_stranger_is_refused() {
    let mut ctx =
        DistributeRewards { admin: party(9), reward_pool: pool(1_000, 400), reward_vault: party(5) };
    assert_eq!(distribute_rewards(&mut ctx, 250), Err(ErrorCode::UnauthorizedAccess));
    assert_eq!(ctx.reward_pool, pool(1_000, 400));
}

#[test]
fn performance_factor_adds_a_hundredth_of_score_times_multiplier() {
    assert_eq!(performance_factor(50, 20), 110);
    assert_eq!(performance_factor(0, 20), 100);
    assert_eq!(performance_factor(50, 0), 100);
    assert_eq!(performance_factor(4, 20), 100);
    assert_eq!(performance_factor(5, 20), 101);
    assert_eq!(performance_factor(99, 1), 100);
    assert_eq!(performance_factor(u32::MAX, 255), 100 + 10_952_166_602);
}

#[test]
fn weighted_reward_is_rounded_down() {
    assert_eq!(weighted_reward(100_000, 50, 20), 110_000);
    assert_eq!(weighted_reward(9, 50, 20), 9);
    assert_eq!(weighted_reward(10, 50, 20), 11);
    assert_eq!(weighted_reward(0, 50, 20), 0);
    assert_eq!(
        weighted_reward(u64::MAX, u32::MAX, 255),
        u64::MAX as u128 * 10_952_166_702u128 / 100
    );
}

#[test]
fn one_year_at_ten_percent_with_score_fifty() {
    let base = compounded(1_000_000, 31_536_000, 10);
    assert_eq!(base, 100_000);
    assert_eq!(performance_factor(50, 20), 110);
    assert_eq!(weighted_reward(base, 50, 20), 110_000);

    let mut ctx = claim(50, 500_000, 0);
    let now = 31_536_000;
    let elapsed = claim_period_at(&ctx, now).unwrap();
    assert_eq!(elapsed, 31_536_000);
    let base = compounded(ctx.stake.amount, elapsed, ctx.reward_config.base_apy);
    let result = claim_rewards(&mut ctx, now, base);
    assert_eq!(
        result,
        Ok(Transfer {
            from: party(5),
            to: party(2),
            amount: 110_000,
            authority: Authority::Vault { namespace: Namespace::RewardVault, bump: 245 },
        })
    );
    assert_eq!(ctx.reward_pool, pool(500_000, 110_000));
    assert_eq!(ctx.stake.last_claim_time, now);
}

#[test]
fn claim_period_is_the_time_since_the_last_claim() {
    let mut ctx = claim(50, 500_000, 0);
    ctx.stake.last_claim_time = 1_000;
    assert_eq!(claim_period_at(&ctx, 1_000 + HOUR as i64), Ok(HOUR));
    assert_eq!(claim_period_at(&ctx, 1_000 + HOUR as i64 - 1), Err(ErrorCode::TooEarlyToClaim));
    assert_eq!(claim_period_at(&ctx, 999), Err(ErrorCode::TooEarlyToClaim));
    ctx.stake.last_claim_time = i64::MIN;
    assert_eq!(claim_period_at(&ctx, i64::MAX), Ok(u64::MAX));
}

#[test]
fn second_claim_within_the_frequency_is_refused() {
    let mut ctx = claim(50, 500_000, 0);
    let first = 10 * HOUR as i64;
    assert!(claim_rewards(&mut ctx, first, 1_000).is_ok());
    let after_first = ctx.clone();
    assert_eq!(ctx.reward_pool.distributed_rewards, 1_100);
    for later in [first, first + 1, first + HOUR as i64 - 1, first - 5] {
        assert_eq!(claim_rewards(&mut ctx, later, 1_000), Err(ErrorCode::TooEarlyToClaim));
        assert_eq!(ctx, after_first);
    }
    assert!(claim_rewards(&mut ctx, first + HOUR as i64, 1_000).is_ok());
    assert_eq!(ctx.reward_pool.distributed_rewards, 2_200);
}

#[test]
fn claim_beyond_the_pool_is_refused() {
    let mut ctx = claim(50, 500_000, 390_001);
    let before = ctx.clone();
    assert_eq!(claim_rewards(&mut ctx, 10 * HOUR as i64, 100_000), Err(ErrorCode::NoRewardsAvailable));
    assert_eq!(ctx, before);
    let mut ctx = claim(50, 500_000, 390_000);
    assert_eq!(claim_rewards(&mut ctx, 10 * HOUR as i64, 100_000).unwrap().amount, 110_000);
    assert_eq!(ctx.reward_pool, pool(500_000, 500_000));
}

#[test]
fn a_huge_score_cannot_overdraw_the_pool() {
    let mut ctx = claim(u32::MAX, u64::MAX, 0);
    ctx.reward_config.score_multiplier = 255;
    let before = ctx.clone();
    assert_eq!(claim_rewards(&mut ctx, 10 * HOUR as i64, u64::MAX), Err(ErrorCode::NoRewardsAvailable));
    assert_eq!(ctx, before);
}

#[test]
fn claim_by_a_stranger_is_refused() {
    let mut ctx = claim(50, 500_000, 0);
    ctx.user = party(9);
    let before = ctx.clone();
    assert_eq!(claim_rewards(&mut ctx, 10 * HOUR as i64, 1_000), Err(ErrorCode::UnauthorizedAccess));
    assert_eq!(ctx, before);
    assert_eq!(claim_period_at(&ctx, 10 * HOUR as i64), Err(ErrorCode::UnauthorizedAccess));
}

#[test]
fn claim_on_a_closed_stake_is_refused() {
    let mut ctx = claim(50, 500_000, 0);
    ctx.stake.is_active = false;
    let before = ctx.clone();
    assert_eq!(claim_rewards(&mut ctx, 10 * HOUR as i64, 1_000), Err(ErrorCode::StakeNotActive));
    assert_eq!(ctx, before);
}

#[test]
fn claim_refusals_come_in_order() {
    let mut ctx = claim(50, 0, 0);
    ctx.stake.is_active = false;
    ctx.user = party(9);
    assert_eq!(claim_rewards(&mut ctx, 0, 1_000), Err(ErrorCode::UnauthorizedAccess));
    ctx.user = party(2);
    assert_eq!(claim_rewards(&mut ctx, 0, 1_000), Err(ErrorCode::StakeNotActive));
    ctx.stake.is_active = true;
    assert_eq!(claim_rewards(&mut ctx, 0, 1_000), Err(ErrorCode::TooEarlyToClaim));
    assert_eq!(claim_rewards(&mut ctx, HOUR as i64, 1_000), Err(ErrorCode::NoRewardsAvailable));
    assert_eq!(claim_rewards(&mut ctx, HOUR as i64, 0).unwrap().amount, 0);
}

#[test]
fn distributed_never_shrinks_nor_exceeds_the_total() {
    let mut ctx = claim(50, 5_000, 0);
    let mut last = 0;
    let mut now: i64 = 0;
    for step in 0..200u64 {
        now += (step % 3) as i64 * 1_800;
        let base = (step * 37) % 900;
        let before = ctx.reward_pool;
        match claim_rewards(&mut ctx, now, base) {
            Ok(t) => assert_eq!(ctx.reward_pool.distributed_rewards, before.distributed_rewards + t.amount),
            Err(_) => assert_eq!(ctx.reward_pool, before),
        }
        assert!(ctx.reward_pool.distributed_rewards >= last);
        assert!(ctx.reward_pool.distributed_rewards <= ctx.reward_pool.total_rewards);
        assert_eq!(ctx.reward_pool.total_rewards, 5_000);
        last = ctx.reward_pool.distributed_rewards;
    }
    assert!(last > 0);
}

#[test]
fn an_overdrawn_pool_pays_nothing() {
    let mut ctx = claim(50, 100, 200);
    let before = ctx.clone();
    assert_eq!(claim_rewards(&mut ctx, HOUR as i64, 0), Err(ErrorCode::NoRewardsAvailable));
    assert_eq!(ctx, before);
}

#[test]
fn reward_vault_covers_what_the_pool_can_pay() {
    let vault = party(5);
    let mut balance: u64 = 0;
    let mut funding =
        DistributeRewards { admin: party(1), reward_pool: pool(0, 0), reward_vault: vault };
    let paid_in = distribute_rewards(&mut funding, 3_000).unwrap();
    assert_eq!(paid_in.to, vault);
    balance += paid_in.amount;
    let mut ctx = claim(50, 0, 0);
    ctx.reward_pool = funding.reward_pool;
    let mut now: i64 = 0;
    for step in 0..40u64 {
        now += HOUR as i64;
        if step % 10 == 5 {
            funding.reward_pool = ctx.reward_pool;
            balance += distribute_rewards(&mut funding, 500).unwrap().amount;
            ctx.reward_pool = funding.reward_pool;
        }
        if let Ok(paid_out) = claim_rewards(&mut ctx, now, 100 + step) {
            assert_eq!(paid_out.from, vault);
            assert!(paid_out.amount <= balance);
            balance -= paid_out.amount;
        }
        let owed = ctx.reward_pool.total_rewards - ctx.reward_pool.distributed_rewards;
        assert_eq!(balance, owed);
    }
    assert_eq!(ctx.reward_pool.total_rewards, 5_000);
}

#[test]
fn claim_period_at_the_runtime_time_needs_a_clock() {
    let ctx = claim(50, 500_000, 0);
    assert_eq!(claim_period(&ctx), Err(Failure::ClockUnavailable));
}

#[test]
fn claim_period_at_the_runtime_time_is_refused_before_the_clock_is_read() {
    let mut ctx = claim(50, 500_000, 0);
    ctx.user = party(9);
    assert_eq!(claim_period(&ctx), Err(Failure::Rejected(ErrorCode::UnauthorizedAccess)));
    ctx.user = party(2);
    ctx.stake.is_active = false;
    assert_eq!(claim_period(&ctx), Err(Failure::Rejected(ErrorCode::StakeNotActive)));
}
