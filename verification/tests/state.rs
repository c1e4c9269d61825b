use cbmm::address::Address;
use cbmm::errors::CbmmError;
use cbmm::helpers::rate_limit::{BurnRateConfig, BurnRateLimiter, RateLimitResult};
use cbmm::state::{
    BurnResult, BurnRole, BurnTier, CbmmPool, PlatformConfig, SwapResult, UserBurnAllowance,
    VirtualTokenAccount, DEFAULT_BASE_MINT_DECIMALS, DEFAULT_BASE_MINT_RESERVE,
};

const CREATED_AT: i64 = 1761177600;
const DAY: i64 = 86400;

fn key(b: u8) -> Address {
    Address::new_from_array([b; 32])
}

fn check_should_reset(created_at: i64, last_burn_timestamp: i64, now: i64, should_reset: bool) {
    let mut user_burn_allowance =
        UserBurnAllowance::new(0, Address::zero(), Address::zero(), Address::zero(), 0, 0, created_at);
    user_burn_allowance.last_burn_timestamp = last_burn_timestamp;
    assert_eq!(user_burn_allowance.should_reset(now), should_reset);
}

#[test]
fn should_reset_on_creation() {
    check_should_reset(CREATED_AT, 0, CREATED_AT, true);
}

#[test]
fn should_reset_on_creation_and_immediately_after_creation() {
    check_should_reset(CREATED_AT, CREATED_AT, CREATED_AT + 1, false);
}

#[test]
fn should_reset_at_immediately_after_creation() {
    check_should_reset(CREATED_AT, 0, CREATED_AT + 1, true);
}

#[test]
fn should_reset_today() {
    check_should_reset(CREATED_AT, CREATED_AT + DAY - 2, CREATED_AT + DAY - 1, false);
}

#[test]
fn should_reset_yesterday() {
    check_should_reset(CREATED_AT, CREATED_AT + DAY - 1, CREATED_AT + DAY, true);
}

#[test]
fn should_reset_bound() {
    check_should_reset(CREATED_AT, CREATED_AT + DAY, CREATED_AT + DAY + 1, false);
}

#[test]
fn should_reset_after_20_days() {
    check_should_reset(CREATED_AT, CREATED_AT + DAY, CREATED_AT + 20 * DAY - 1, true);
}

#[test]
fn should_reset_follows_the_creation_time_of_day() {
    // Created at 10:00 of a day: the burn day runs from 10:00 to 10:00.
    let created_at = CREATED_AT + 36_000;
    check_should_reset(created_at, created_at + DAY - 1, created_at + DAY - 1 + 1, true);
    check_should_reset(created_at, created_at + 1, CREATED_AT + DAY + 35_999, false);
}

#[test]
fn pop_counts_burns_of_the_day() {
    let mut allowance =
        UserBurnAllowance::new(1, key(1), key(2), key(3), 0, 0, CREATED_AT);
    assert_eq!(allowance.pop_at(CREATED_AT + 10), 1);
    assert_eq!(allowance.pop_at(CREATED_AT + 20), 2);
    assert_eq!(allowance.last_burn_timestamp, CREATED_AT + 20);
    // Next burn day: the count restarts.
    assert_eq!(allowance.pop_at(CREATED_AT + DAY), 1);
    assert_eq!(allowance.burns_today, 1);
}

#[test]
fn pop_without_a_clock_is_refused() {
    let mut allowance =
        UserBurnAllowance::new(1, key(1), key(2), key(3), 0, 0, CREATED_AT);
    let before = allowance;
    assert_eq!(allowance.pop(), Err(CbmmError::SysvarUnavailable));
    assert_eq!(allowance.burns_today, before.burns_today);
    assert_eq!(allowance.last_burn_timestamp, before.last_burn_timestamp);
}

#[test]
fn new_allowance_is_unused() {
    let allowance = UserBurnAllowance::new(7, key(1), key(2), key(3), 4, 99, CREATED_AT);
    assert_eq!(allowance.bump, 7);
    assert_eq!(allowance.user, key(1));
    assert_eq!(allowance.platform_config, key(2));
    assert_eq!(allowance.payer, key(3));
    assert_eq!(allowance.burn_tier_index, 4);
    assert_eq!(allowance.burn_tier_update_timestamp, 99);
    assert_eq!(allowance.burns_today, 0);
    assert_eq!(allowance.last_burn_timestamp, 0);
    assert_eq!(allowance.created_at, CREATED_AT);
}

#[test]
fn allowance_is_closable_when_unused_stale_or_replaced() {
    let mut allowance = UserBurnAllowance::new(0, key(1), key(2), key(3), 0, 100, CREATED_AT);
    assert!(allowance.is_closable(100, CREATED_AT));
    allowance.burns_today = 1;
    allowance.last_burn_timestamp = CREATED_AT;
    assert!(!allowance.is_closable(100, CREATED_AT + DAY - 1));
    assert!(allowance.is_closable(100, CREATED_AT + DAY));
    assert!(allowance.is_closable(101, CREATED_AT + 1));
}

fn tiers() -> Vec<BurnTier> {
    vec![
        BurnTier { burn_bp_x100: 1_000, role: BurnRole::Anyone, max_daily_burns: 5 },
        BurnTier { burn_bp_x100: 20_000, role: BurnRole::PoolOwner, max_daily_burns: 5 },
    ]
}

#[test]
fn validate_accepts_a_sound_platform() {
    assert_eq!(
        PlatformConfig::validate_fees_and_burn_config(200, 600, 200, &tiers(), 90_000, 50),
        Ok(())
    );
}

#[test]
fn validate_refuses_fee_rates() {
    // Total above 20%.
    assert_eq!(
        PlatformConfig::validate_fees_and_burn_config(1_000, 600, 500, &tiers(), 90_000, 50),
        Err(CbmmError::InvalidFeeBasisPoints)
    );
    // Top-up below 1%.
    assert_eq!(
        PlatformConfig::validate_fees_and_burn_config(200, 99, 200, &tiers(), 40_000, 20),
        Err(CbmmError::InvalidFeeBasisPoints)
    );
    // Platform fee above 10%.
    assert_eq!(
        PlatformConfig::validate_fees_and_burn_config(0, 100, 1_001, &tiers(), 90_000, 50),
        Err(CbmmError::InvalidFeeBasisPoints)
    );
    // The sum overflows.
    assert_eq!(
        PlatformConfig::validate_fees_and_burn_config(u16::MAX, 100, 0, &tiers(), 90_000, 50),
        Err(CbmmError::MathOverflow)
    );
}

#[test]
fn validate_refuses_burn_tiers_and_rates() {
    // An open tier above 10 bp.
    let open = vec![BurnTier { burn_bp_x100: 1_001, role: BurnRole::Anyone, max_daily_burns: 1 }];
    assert_eq!(
        PlatformConfig::validate_fees_and_burn_config(200, 600, 200, &open, 90_000, 50),
        Err(CbmmError::InvalidBurnTiers)
    );
    // An owner tier above three quarters of the fees (75_000).
    let owner = vec![BurnTier { burn_bp_x100: 75_001, role: BurnRole::PoolOwner, max_daily_burns: 1 }];
    assert_eq!(
        PlatformConfig::validate_fees_and_burn_config(200, 600, 200, &owner, 90_000, 50),
        Err(CbmmError::InvalidBurnTiers)
    );
    // A burn limit at the total fee rate.
    assert_eq!(
        PlatformConfig::validate_fees_and_burn_config(200, 600, 200, &tiers(), 100_000, 50),
        Err(CbmmError::InvalidBurnTiers)
    );
    // Decay faster than the limit over the window (90_000 / 900 = 100).
    assert_eq!(
        PlatformConfig::validate_fees_and_burn_config(200, 600, 200, &tiers(), 90_000, 101),
        Err(CbmmError::InvalidBurnRate)
    );
    // Decay slower than a hundredth of that.
    assert_eq!(
        PlatformConfig::validate_fees_and_burn_config(200, 600, 200, &tiers(), 90_000, 0),
        Err(CbmmError::InvalidBurnRate)
    );
}

#[test]
fn platform_config_at_a_time() {
    let config = PlatformConfig::try_new_at(
        3, key(1), key(2), key(3), tiers(), 200, 600, 200, 90_000, 10, 50, 1234,
    )
    .unwrap();
    assert_eq!(config.bump, 3);
    assert_eq!(config.admin, key(1));
    assert_eq!(config.creator, key(2));
    assert_eq!(config.quote_mint, key(3));
    assert!(config.burn_authority.is_none());
    assert_eq!(config.burn_tiers_updated_at, 1234);
    assert_eq!(config.burn_tiers.len(), 2);
    assert_eq!(config.burn_rate_config, BurnRateConfig::new(90_000, 10, 50));
    let six = vec![tiers()[0]; 6];
    assert_eq!(
        PlatformConfig::try_new_at(3, key(1), key(2), key(3), six, 200, 600, 200, 90_000, 10, 50, 0)
            .unwrap_err(),
        CbmmError::InvalidBurnTiers
    );
}

#[test]
fn platform_config_needs_the_clock() {
    let r = PlatformConfig::try_new(3, key(1), key(2), key(3), tiers(), 200, 600, 200, 90_000, 10, 50);
    assert_eq!(r.unwrap_err(), CbmmError::SysvarUnavailable);
    // The checks come before the clock.
    let r = PlatformConfig::try_new(3, key(1), key(2), key(3), tiers(), 200, 99, 200, 90_000, 10, 50);
    assert_eq!(r.unwrap_err(), CbmmError::InvalidFeeBasisPoints);
}

#[test]
fn burn_authority_must_sign_when_configured() {
    let mut config = PlatformConfig::try_new_at(
        0, key(1), key(1), key(3), tiers(), 200, 600, 200, 90_000, 10, 50, 0,
    )
    .unwrap();
    assert_eq!(config.check_burn_authority(None), Ok(()));
    assert_eq!(config.check_burn_authority(Some(key(9))), Ok(()));
    config.burn_authority = Some(key(9));
    assert_eq!(config.check_burn_authority(Some(key(9))), Ok(()));
    assert_eq!(config.check_burn_authority(Some(key(8))), Err(CbmmError::InvalidBurnAuthority));
    assert_eq!(config.check_burn_authority(None), Err(CbmmError::InvalidBurnAuthority));
}

fn new_pool() -> CbmmPool {
    CbmmPool::try_new_at(1, key(1), 0, key(2), key(3), 1_000_000, 200, 600, 200, 500).unwrap()
}

#[test]
fn new_pool_starts_at_its_virtual_reserve() {
    let pool = new_pool();
    assert_eq!(pool.quote_reserve, 0);
    assert_eq!(pool.quote_virtual_reserve, 1_000_000);
    assert_eq!(pool.quote_optimal_virtual_reserve, 1_000_000);
    assert_eq!(pool.quote_starting_virtual_reserve, 1_000_000);
    assert_eq!(pool.base_reserve, DEFAULT_BASE_MINT_RESERVE);
    assert_eq!(pool.base_total_supply, DEFAULT_BASE_MINT_RESERVE);
    assert_eq!(pool.base_starting_total_supply, DEFAULT_BASE_MINT_RESERVE);
    assert_eq!(pool.base_mint_decimals, DEFAULT_BASE_MINT_DECIMALS);
    // Initial stress is three quarters of the total fee rate.
    assert_eq!(pool.burn_limiter, BurnRateLimiter::new(500, 75_000));
}

#[test]
fn new_pool_refuses_bad_settings() {
    assert_eq!(
        CbmmPool::try_new_at(1, key(1), 0, key(2), key(3), 0, 200, 600, 200, 0).unwrap_err(),
        CbmmError::InvalidVirtualReserve
    );
    assert_eq!(
        CbmmPool::try_new_at(1, key(1), 0, key(2), key(3), 10, 200, 0, 200, 0).unwrap_err(),
        CbmmError::InvalidBuybackFeeBasisPoints
    );
    assert_eq!(
        CbmmPool::try_new(1, key(1), 0, key(2), key(3), 10, 200, 600, 200).unwrap_err(),
        CbmmError::SysvarUnavailable
    );
}

#[test]
fn collect_fees_moves_fees_to_the_balances() {
    let mut pool = new_pool();
    assert_eq!(pool.collect_fees(5_000), Ok(4_500));
    assert_eq!(pool.creator_fees_balance, 100);
    assert_eq!(pool.buyback_fees_balance, 300);
    assert_eq!(pool.platform_fees_balance, 100);
    let before = pool;
    pool.creator_fee_bp = 10_001;
    assert_eq!(pool.collect_fees(5_000), Err(CbmmError::InvalidFeeBasisPoints));
    assert_eq!(pool.creator_fees_balance, before.creator_fees_balance);
}

#[test]
fn swaps_move_along_the_curve() {
    let mut pool = new_pool();
    pool.base_reserve = 2_000_000;
    pool.base_total_supply = 2_000_000;
    assert_eq!(
        pool.quote_to_base(4_500),
        Ok(SwapResult { quote_amount: 4_500, base_amount: 8_959 })
    );
    assert_eq!(pool.quote_reserve, 4_500);
    assert_eq!(pool.base_reserve, 2_000_000 - 8_959);
    // Selling back what was bought returns no more than was paid.
    let back = pool.base_to_quote(8_959).unwrap();
    assert!(back.quote_amount <= 4_500);
    assert_eq!(back.quote_amount, 4_499);
    assert_eq!(pool.base_reserve, 2_000_000);
    assert_eq!(pool.quote_reserve, 1);
}

#[test]
fn sell_beyond_the_real_reserve_underflows() {
    let mut pool = new_pool();
    let before = pool;
    // 10^12 base tokens are worth about 999 quote tokens, and the real reserve is empty.
    assert_eq!(pool.base_to_quote(1_000_000_000_000), Err(CbmmError::Underflow));
    assert_eq!(pool.quote_reserve, before.quote_reserve);
    assert_eq!(pool.base_reserve, before.base_reserve);
}

#[test]
fn topup_pays_from_buyback_fees() {
    let mut pool = new_pool();
    pool.base_reserve = 500;
    pool.base_total_supply = 1_000;
    pool.base_starting_total_supply = 1_000;
    pool.quote_starting_virtual_reserve = 2_000;
    pool.quote_virtual_reserve = 2_000;
    pool.quote_reserve = 1_000;
    pool.buyback_fees_balance = 300;
    // Optimal virtual 2_000, optimal real 2_000: 1_000 needed, 300 available.
    assert_eq!(pool.topup(), Ok(300));
    assert_eq!(pool.buyback_fees_balance, 0);
    assert_eq!(pool.quote_reserve, 1_300);
    // Partial top-up: virtual reserve is A * B / (S - B).
    assert_eq!(pool.quote_virtual_reserve, 1_300);

    pool.buyback_fees_balance = 5_000;
    assert_eq!(pool.topup(), Ok(700));
    assert_eq!(pool.buyback_fees_balance, 4_300);
    assert_eq!(pool.quote_reserve, 2_000);
    assert_eq!(pool.quote_virtual_reserve, 2_000);
    assert_eq!(pool.topup(), Ok(0));
}

#[test]
fn topup_above_the_optimal_reserve_fails() {
    let mut pool = new_pool();
    pool.base_reserve = 500;
    pool.base_total_supply = 1_000;
    pool.base_starting_total_supply = 1_000;
    pool.quote_starting_virtual_reserve = 2_000;
    pool.quote_reserve = 2_001;
    assert_eq!(pool.topup(), Err(CbmmError::MathOverflow));
}

#[test]
fn burn_at_shrinks_reserve_supply_and_virtual_reserve() {
    let mut pool = new_pool();
    pool.base_reserve = 1_000_000;
    pool.base_total_supply = 2_000_000;
    pool.quote_virtual_reserve = 500_000;
    pool.burn_limiter = BurnRateLimiter::new(0, 75_000);
    let config = BurnRateConfig::new(90_000, 10, 50);
    let result = pool.burn_at(&config, 20_000, 1_000_000).unwrap();
    assert_eq!(
        result,
        BurnResult { rate_limit_result: RateLimitResult::ExecuteFull(20_000), burn_amount: 20_000 }
    );
    assert_eq!(pool.base_reserve, 980_000);
    assert_eq!(pool.base_total_supply, 1_980_000);
    assert_eq!(pool.quote_virtual_reserve, 490_000);
    // 490_000 * 1_980_000 / 2_000_000
    assert_eq!(pool.quote_optimal_virtual_reserve, 485_100);
}

#[test]
fn burn_without_a_clock_leaves_the_pool() {
    let mut pool = new_pool();
    let before = pool;
    let config = BurnRateConfig::new(90_000, 10, 50);
    assert_eq!(pool.burn(&config, 1_000), Err(CbmmError::SysvarUnavailable));
    assert_eq!(pool.base_reserve, before.base_reserve);
    assert_eq!(pool.burn_limiter, before.burn_limiter);
}

#[test]
fn virtual_account_add_and_sub() {
    let mut vta = VirtualTokenAccount::try_new(4, key(1), key(2));
    assert_eq!(vta.balance, 0);
    assert_eq!(vta.bump, 4);
    assert_eq!(vta.pool, key(1));
    assert_eq!(vta.owner, key(2));
    assert_eq!(vta.add(100), Ok(()));
    assert_eq!(vta.sub(40), Ok(()));
    assert_eq!(vta.balance, 60);
    assert_eq!(vta.sub(61), Err(CbmmError::InsufficientVirtualTokenBalance));
    assert_eq!(vta.balance, 60);
    assert_eq!(vta.add(u64::MAX), Err(CbmmError::MathOverflow));
    assert_eq!(vta.balance, 60);
}

#[test]
fn addresses_compare_byte_for_byte() {
    assert!(key(1).same_as(&key(1)));
    assert!(!key(1).same_as(&key(2)));
    let mut bytes = [0u8; 32];
    bytes[31] = 1;
    assert!(!Address::new_from_array(bytes).same_as(&Address::zero()));
    assert_eq!(Address::zero(), Address::new_from_array([0u8; 32]));
}
