use cbmm::address::Address;
use cbmm::errors::CbmmError;
use cbmm::helpers::rate_limit::{BurnRateConfig, BurnRateLimiter};
use cbmm::instructions::burn_virtual_token::{burn_virtual_token, burn_virtual_token_is_defined};
use cbmm::instructions::buy_virtual_token::{buy_is_defined, buy_virtual_token, BuyVirtualTokenArgs};
use cbmm::instructions::claim_platform_fees::claim_platform_fees;
use cbmm::instructions::close_user_burn_allowance::close_user_burn_allowance;
use cbmm::instructions::close_virtual_token_account::close_virtual_token_account;
use cbmm::instructions::create_pool::{create_pool, CreatePoolArgs};
use cbmm::instructions::initialize_platform_config::{
    initialize_platform_config, InitializePlatformConfigArgs,
};
use cbmm::instructions::initialize_user_burn_allowance::{
    initialize_user_burn_allowance, InitializeUserBurnAllowanceArgs,
};
use cbmm::instructions::sell_virtual_token::{sell_is_defined, sell_virtual_token, SellVirtualTokenArgs};
use cbmm::instructions::update_platform_config::{
    update_platform_config, UpdatePlatformConfigArgs,
};
use cbmm::state::{
    BurnRole, BurnTier, CbmmPool, PlatformConfig, UserBurnAllowance, VirtualTokenAccount,
};

fn key(b: u8) -> Address {
    Address::new_from_array([b; 32])
}

const PAYER: u8 = 1;
const USER: u8 = 2;
const PLATFORM: u8 = 3;
const MINT: u8 = 4;
const POOL: u8 = 5;
const AUTHORITY: u8 = 6;

/// A platform whose open tier burns `user_burn_bp_x100` and whose pool-owner tier burns
/// `creator_burn_bp_x100`, with the given fee rates.
fn platform_config(
    daily_burn_allowance: u16,
    creator_daily_burn_allowance: u16,
    user_burn_bp_x100: u32,
    creator_burn_bp_x100: u32,
    creator_fee_bp: u16,
    buyback_fee_bp: u16,
    platform_fee_bp: u16,
    burn_authority: Option<Address>,
) -> PlatformConfig {
    PlatformConfig {
        bump: 255,
        admin: key(PAYER),
        creator: key(PAYER),
        quote_mint: key(MINT),
        burn_authority,
        pool_creator_fee_bp: creator_fee_bp,
        pool_topup_fee_bp: buyback_fee_bp,
        platform_fee_bp,
        burn_rate_config: BurnRateConfig::new(90_000, 10, 50),
        burn_tiers_updated_at: 0,
        burn_tiers: vec![
            BurnTier {
                burn_bp_x100: user_burn_bp_x100,
                role: BurnRole::Anyone,
                max_daily_burns: daily_burn_allowance,
            },
            BurnTier {
                burn_bp_x100: creator_burn_bp_x100,
                role: BurnRole::PoolOwner,
                max_daily_burns: creator_daily_burn_allowance,
            },
        ],
    }
}

/// A pool of `PAYER` whose limiter started at time 0.
fn pool(
    quote_reserve: u64,
    quote_virtual_reserve: u64,
    base_reserve: u64,
    base_total_supply: u64,
    creator_fee_bp: u16,
    buyback_fee_bp: u16,
    platform_fee_bp: u16,
    creator_fees_balance: u64,
    buyback_fees_balance: u64,
) -> CbmmPool {
    let total_fees_bp_x100 = (creator_fee_bp + buyback_fee_bp + platform_fee_bp) as u64 * 100;
    CbmmPool {
        bump: 254,
        creator: key(PAYER),
        pool_index: 0,
        platform_config: key(PLATFORM),
        quote_mint: key(MINT),
        quote_reserve,
        quote_virtual_reserve,
        base_mint_decimals: 6,
        base_reserve,
        base_total_supply,
        creator_fees_balance,
        buyback_fees_balance,
        creator_fee_bp,
        buyback_fee_bp,
        platform_fee_bp,
        burn_limiter: BurnRateLimiter::new(0, total_fees_bp_x100 * 3 / 4),
        quote_optimal_virtual_reserve: quote_virtual_reserve,
        quote_starting_virtual_reserve: quote_virtual_reserve,
        base_starting_total_supply: base_reserve,
        platform_fees_balance: 0,
    }
}

fn burn_setup(burn_authority: Option<Address>) -> (CbmmPool, PlatformConfig) {
    let config = platform_config(5, 5, 1_000, 20_000, 200, 600, 200, burn_authority);
    let pool = pool(0, 500_000, 1_000_000, 1_000_000, 200, 600, 200, 0, 0);
    (pool, config)
}

/// An allowance of `user` as a stored account holds it.
fn allowance_mock(
    user: Address,
    payer: Address,
    burns_today: u16,
    last_burn_timestamp: i64,
    is_pool_owner: bool,
    created_at: i64,
) -> UserBurnAllowance {
    UserBurnAllowance {
        bump: 253,
        user,
        platform_config: key(PLATFORM),
        payer,
        burns_today,
        last_burn_timestamp,
        created_at,
        burn_tier_index: if is_pool_owner { 1 } else { 0 },
        burn_tier_update_timestamp: 0,
    }
}

fn open_allowance(
    config: &PlatformConfig,
    owner: Address,
    is_pool_owner: bool,
    now: i64,
) -> Result<UserBurnAllowance, CbmmError> {
    let pool_creator = if is_pool_owner { Some(key(PAYER)) } else { None };
    initialize_user_burn_allowance(
        config,
        key(PLATFORM),
        owner,
        owner,
        pool_creator,
        InitializeUserBurnAllowanceArgs { burn_tier_index: if is_pool_owner { 1 } else { 0 } },
        252,
        now,
    )
}

#[test]
fn test_burn_virtual_token_as_pool_owner() {
    let (mut pool, config) = burn_setup(None);
    let mut owner_burn_allowance = open_allowance(&config, key(PAYER), true, 0).unwrap();
    // Can initialize also user burn allowance for other pools
    let user_burn_allowance = open_allowance(&config, key(PAYER), false, 0);
    assert!(user_burn_allowance.is_ok());

    // Burn at a certain timestamp
    let burn_result = burn_virtual_token(
        &mut pool,
        &mut owner_burn_allowance,
        &config,
        key(PAYER),
        None,
        key(POOL),
        1682899200,
    );
    if let Err(ref e) = burn_result {
        println!("Burn error: {:?}", e);
    }
    assert!(burn_result.is_ok());

    // Check that the reserves are updated correctly
    assert_eq!(pool.base_reserve, 980000);
    assert_eq!(owner_burn_allowance.burns_today, 1);
    assert_eq!(owner_burn_allowance.last_burn_timestamp, 1682899200);

    // User burn allowance not affected by creator burn
    assert_eq!(user_burn_allowance.unwrap().burns_today, 0);

    // 2 percent of virtual reserve is burned and required as topup
    assert_eq!(pool.quote_virtual_reserve, 490000);
}

#[test]
fn test_burn_virtual_token_as_user() {
    let (mut pool, config) = burn_setup(None);
    let mut user_burn_allowance = open_allowance(&config, key(USER), false, 1682899200).unwrap();

    let burn_result = burn_virtual_token(
        &mut pool,
        &mut user_burn_allowance,
        &config,
        key(USER),
        None,
        key(POOL),
        1682899200,
    );
    assert!(burn_result.is_ok());

    assert_eq!(pool.base_reserve, 999000);
    assert_eq!(user_burn_allowance.burns_today, 1);
    assert_eq!(user_burn_allowance.last_burn_timestamp, 1682899200);

    // 1 percent of virtual reserve is burned and required as topup
    assert_eq!(pool.quote_virtual_reserve, 499500);
}

#[test]
fn test_burn_virtual_token_twice() {
    let (mut pool, config) = burn_setup(None);
    // Set up user burn allowance with 1 burn already recorded (1 hour ago)
    let one_hour_ago = 1682899200 - 3600;
    let mut user_burn_allowance =
        allowance_mock(key(USER), key(USER), 1, one_hour_ago, false, one_hour_ago);

    let burn_result = burn_virtual_token(
        &mut pool,
        &mut user_burn_allowance,
        &config,
        key(USER),
        None,
        key(POOL),
        1682899200,
    );
    assert!(burn_result.is_ok());

    assert_eq!(pool.base_reserve, 999000);
    // Check that user burn allowance shows 2 burns for today
    assert_eq!(user_burn_allowance.burns_today, 2);
    assert_eq!(user_burn_allowance.last_burn_timestamp, 1682899200);
}

#[test]
fn test_burn_virtual_token_after_reset() {
    let (mut pool, config) = burn_setup(None);
    let one_hour_ago = 1682899200;
    let mut user_burn_allowance =
        allowance_mock(key(USER), key(USER), 1, one_hour_ago, false, one_hour_ago);

    // Burn at 10:00:01 AM
    let burn_result = burn_virtual_token(
        &mut pool,
        &mut user_burn_allowance,
        &config,
        key(USER),
        None,
        key(POOL),
        1682935201,
    );
    burn_result.unwrap();

    assert_eq!(pool.base_reserve, 999000);
    assert_eq!(user_burn_allowance.burns_today, 2);
    assert_eq!(user_burn_allowance.last_burn_timestamp, 1682935201);
}

#[test]
fn test_burn_virtual_token_past_limit_no_reset() {
    let (mut pool, config) = burn_setup(None);
    // Set up user burn allowance with 5 burns already recorded (1 hour ago)
    let one_hour_ago = 1682899200 - 3600;
    let mut user_burn_allowance =
        allowance_mock(key(USER), key(USER), 5, one_hour_ago, false, one_hour_ago);

    let burn_result = burn_virtual_token(
        &mut pool,
        &mut user_burn_allowance,
        &config,
        key(USER),
        None,
        key(POOL),
        1682899200,
    );
    assert!(burn_result.is_err());
    assert_eq!(burn_result.unwrap_err(), CbmmError::BurnLimitReached);
}

#[test]
fn test_burn_virtual_token_past_limit_after_reset() {
    let (mut pool, config) = burn_setup(None);
    let one_hour_ago = 1682899200 - 3600;
    let two_days_ago = 1682899200 - 3600 * 24 * 2;
    let mut user_burn_allowance =
        allowance_mock(key(USER), key(USER), 5, one_hour_ago, false, two_days_ago);

    // Burn at 10:00:01 AM, should succeed because we've passed the reset time
    let burn_result = burn_virtual_token(
        &mut pool,
        &mut user_burn_allowance,
        &config,
        key(USER),
        None,
        key(POOL),
        1682935201,
    );
    burn_result.unwrap();

    assert_eq!(pool.base_reserve, 999000);
    // Check that user burn allowance was reset
    assert_eq!(user_burn_allowance.burns_today, 1);
    assert_eq!(user_burn_allowance.last_burn_timestamp, 1682935201);
}

#[test]
fn test_burn_virtual_token_with_burn_authority_succeeds() {
    let (mut pool, config) = burn_setup(Some(key(AUTHORITY)));
    let mut user_burn_allowance = open_allowance(&config, key(USER), false, 1682899200).unwrap();

    // Burn must succeed when burn authority is provided
    let burn_result = burn_virtual_token(
        &mut pool,
        &mut user_burn_allowance,
        &config,
        key(USER),
        Some(key(AUTHORITY)),
        key(POOL),
        1682899200,
    );
    assert!(burn_result.is_ok());
}

#[test]
fn test_burn_virtual_token_missing_burn_authority_fails() {
    let (mut pool, config) = burn_setup(Some(key(AUTHORITY)));
    let mut user_burn_allowance = open_allowance(&config, key(USER), false, 1682899200).unwrap();

    // Burn without passing burn authority should fail
    let burn_result = burn_virtual_token(
        &mut pool,
        &mut user_burn_allowance,
        &config,
        key(USER),
        None,
        key(POOL),
        1682899200,
    );
    assert!(burn_result.is_err());
    assert_eq!(burn_result.unwrap_err(), CbmmError::InvalidBurnAuthority);
}

#[test]
fn burn_at_owner_tier_by_another_signer_fails() {
    let (mut pool, config) = burn_setup(None);
    let mut allowance = allowance_mock(key(USER), key(USER), 0, 0, true, 0);
    let before = pool;
    let burn_result = burn_virtual_token(
        &mut pool,
        &mut allowance,
        &config,
        key(USER),
        None,
        key(POOL),
        1682899200,
    );
    assert_eq!(burn_result.unwrap_err(), CbmmError::InvalidPoolCreator);
    assert_eq!(pool.base_reserve, before.base_reserve);
}

#[test]
fn burn_at_a_missing_tier_fails() {
    let (mut pool, config) = burn_setup(None);
    let mut allowance = allowance_mock(key(USER), key(USER), 0, 0, false, 0);
    allowance.burn_tier_index = 2;
    let burn_result = burn_virtual_token(
        &mut pool,
        &mut allowance,
        &config,
        key(USER),
        None,
        key(POOL),
        1682899200,
    );
    assert_eq!(burn_result.unwrap_err(), CbmmError::InvalidBurnTierIndex);
}

#[test]
fn burn_reports_the_pool_after_the_burn() {
    let (mut pool, config) = burn_setup(None);
    let mut allowance = allowance_mock(key(USER), key(USER), 0, 0, false, 0);
    let event = burn_virtual_token(
        &mut pool,
        &mut allowance,
        &config,
        key(USER),
        None,
        key(POOL),
        1682899200,
    )
    .unwrap();
    assert_eq!(event.burn_amount, 1_000);
    assert_eq!(event.topup_accrued, 0);
    assert_eq!(event.new_b_reserve, 999_000);
    assert_eq!(event.new_a_reserve, 0);
    assert_eq!(event.new_virtual_reserve, 499_500);
    assert_eq!(event.new_buyback_fees_balance, 0);
    assert_eq!(event.burner, key(USER));
    assert_eq!(event.pool, key(POOL));
}

fn buy_setup() -> CbmmPool {
    pool(0, 1_000_000, 2_000_000, 2_000_000, 200, 600, 200, 0, 0)
}

#[test]
fn test_buy_virtual_token_success() {
    let mut pool = buy_setup();
    let quote_amount = 5000;
    let quote_virtual_reserve = 1_000_000;
    let base_reserve = 2_000_000;

    // Fees: creator=2%, buyback=6%, platform=2%, total=10%
    let creator_fees = 100; // 2% of 5000
    let buyback_fees = 300; // 6% of 5000
    let platform_fees = 100; // 2% of 5000
    let total_fees = creator_fees + buyback_fees + platform_fees; // 500
    let quote_amount_after_fees = quote_amount - total_fees; // 5000 - 500 = 4500

    let calculated_base_amount_min = 8959;
    let mut virtual_token_account = VirtualTokenAccount::try_new(251, key(POOL), key(PAYER));

    let result_buy = buy_virtual_token(
        &mut pool,
        &mut virtual_token_account,
        BuyVirtualTokenArgs { quote_amount, base_amount_min: calculated_base_amount_min },
        key(PAYER),
        key(POOL),
    );
    assert!(&result_buy.is_ok());

    assert_eq!(
        pool.quote_reserve, quote_amount_after_fees,
        "quote_reserve is not correct"
    );
    assert_eq!(
        pool.base_reserve,
        base_reserve - calculated_base_amount_min,
        "base_reserve is not correct"
    );
    assert_eq!(
        pool.quote_virtual_reserve, quote_virtual_reserve,
        "quote_virtual_reserve is not correct"
    );
    assert_eq!(
        pool.buyback_fees_balance, buyback_fees,
        "buyback_fees_balance is not correct"
    );
    assert_eq!(
        pool.creator_fees_balance, creator_fees,
        "creator_fees_balance is not correct"
    );
}

#[test]
fn test_buy_virtual_token_slippage_exceeded() {
    let mut pool = buy_setup();
    let quote_amount = 5000;
    let calculated_base_amount_min = 9157;
    let mut virtual_token_account = VirtualTokenAccount::try_new(251, key(POOL), key(PAYER));

    let result_buy_min_too_high = buy_virtual_token(
        &mut pool,
        &mut virtual_token_account,
        BuyVirtualTokenArgs {
            quote_amount,
            base_amount_min: calculated_base_amount_min + 1, // Set minimum too high
        },
        key(PAYER),
        key(POOL),
    );
    assert!(result_buy_min_too_high.is_err());
    assert_eq!(result_buy_min_too_high.unwrap_err(), CbmmError::SlippageExceeded);
}

#[test]
fn buy_reports_what_was_swapped() {
    let mut pool = buy_setup();
    let mut vta = VirtualTokenAccount::try_new(251, key(POOL), key(PAYER));
    let event = buy_virtual_token(
        &mut pool,
        &mut vta,
        BuyVirtualTokenArgs { quote_amount: 5000, base_amount_min: 0 },
        key(PAYER),
        key(POOL),
    )
    .unwrap();
    assert_eq!(event.quote_input, 5000);
    assert_eq!(event.base_output, 8959);
    assert_eq!(event.fees, 500);
    assert_eq!(event.topup_paid, 0);
    assert_eq!(event.new_base_reserve, 2_000_000 - 8959);
    assert_eq!(event.new_quote_reserve, 4500);
    assert_eq!(vta.balance, 8959);
    assert_eq!(pool.platform_fees_balance, 100);
}

#[test]
fn buy_of_dust_is_too_small() {
    // 100 tokens pay 10 in fees; 90 buy 1_000 * 90 / 1_000_090 = 0 base tokens.
    let mut pool = pool(0, 1_000_000, 1_000, 1_000, 200, 600, 200, 0, 0);
    let mut vta = VirtualTokenAccount::try_new(251, key(POOL), key(PAYER));
    let r = buy_virtual_token(
        &mut pool,
        &mut vta,
        BuyVirtualTokenArgs { quote_amount: 100, base_amount_min: 0 },
        key(PAYER),
        key(POOL),
    );
    assert_eq!(r.unwrap_err(), CbmmError::AmountTooSmall);
    // 4 tokens pay 3 in fees; 1 buys 2_000_000 / 1_000_001 = 1 base token.
    let mut pool = buy_setup();
    let r = buy_virtual_token(
        &mut pool,
        &mut vta,
        BuyVirtualTokenArgs { quote_amount: 4, base_amount_min: 0 },
        key(PAYER),
        key(POOL),
    );
    assert_eq!(r.unwrap().base_output, 1);
}

fn sell_setup() -> CbmmPool {
    // Pre-fund buyback fees for topup test
    pool(2000, 2000, 500, 1000, 200, 600, 200, 0, 150)
}

#[test]
fn test_sell_virtual_token_success() {
    let mut pool = sell_setup();
    let base_amount = 1000; // User has
    let base_sell_amount = 500;
    let base_total_supply = 1000;

    let mut virtual_token_account = VirtualTokenAccount::try_new(251, key(POOL), key(PAYER));
    virtual_token_account.balance = base_amount;

    let result_sell = sell_virtual_token(
        &mut pool,
        &mut virtual_token_account,
        SellVirtualTokenArgs { base_amount: base_sell_amount, min_quote_amount: 0 },
        key(PAYER),
        key(POOL),
    );
    result_sell.unwrap();

    // Base reserve increased by sell amount
    assert_eq!(pool.base_reserve, base_total_supply);

    // Fees
    assert!(pool.creator_fees_balance > 0);
    assert!(pool.buyback_fees_balance > 0); // from new fees
    assert!(pool.platform_fees_balance > 0);

    // Check virtual balance updated
    assert_eq!(virtual_token_account.balance, base_amount - base_sell_amount);
}

#[test]
fn test_sell_virtual_token_insufficient_balance() {
    let mut pool = sell_setup();
    let base_amount = 1000;

    let mut virtual_token_account_insufficient =
        VirtualTokenAccount::try_new(251, key(POOL), key(USER));
    virtual_token_account_insufficient.balance = base_amount - 1; // Insufficient balance

    let result_sell_insufficient = sell_virtual_token(
        &mut pool,
        &mut virtual_token_account_insufficient,
        SellVirtualTokenArgs { base_amount, min_quote_amount: 0 },
        key(USER),
        key(POOL),
    );
    assert!(result_sell_insufficient.is_err());
    assert_eq!(
        result_sell_insufficient.unwrap_err(),
        CbmmError::InsufficientVirtualTokenBalance
    );
}

#[test]
fn test_sell_virtual_token_slippage_exceeded() {
    let mut pool = sell_setup();
    let base_amount = 1000;
    let base_sell_amount = 500;

    let mut virtual_token_account = VirtualTokenAccount::try_new(251, key(POOL), key(PAYER));
    virtual_token_account.balance = base_amount;

    // Try with impossibly high min_quote_amount
    let result_sell_slippage = sell_virtual_token(
        &mut pool,
        &mut virtual_token_account,
        SellVirtualTokenArgs { base_amount: base_sell_amount, min_quote_amount: 100_000 },
        key(PAYER),
        key(POOL),
    );
    assert!(result_sell_slippage.is_err());
    assert_eq!(result_sell_slippage.unwrap_err(), CbmmError::SlippageExceeded);
    assert_eq!(virtual_token_account.balance, base_amount);
}

#[test]
fn sell_reports_what_was_paid() {
    let mut pool = sell_setup();
    let mut vta = VirtualTokenAccount::try_new(251, key(POOL), key(PAYER));
    vta.balance = 1000;
    let event = sell_virtual_token(
        &mut pool,
        &mut vta,
        SellVirtualTokenArgs { base_amount: 500, min_quote_amount: 0 },
        key(PAYER),
        key(POOL),
    )
    .unwrap();
    // Gross 500 * 4_000 / 1_000 = 2_000; fees 40 + 120 + 40.
    assert_eq!(event.base_input, 500);
    assert_eq!(event.quote_output, 1_800);
    assert_eq!(event.fees, 200);
    assert_eq!(event.topup_paid, 0);
    assert_eq!(event.new_base_reserve, 1000);
    assert_eq!(event.new_quote_reserve, 0);
    assert_eq!(pool.creator_fees_balance, 40);
    assert_eq!(pool.buyback_fees_balance, 270);
    assert_eq!(pool.platform_fees_balance, 40);
}

fn claim_setup() -> (CbmmPool, PlatformConfig) {
    let config = platform_config(5, 5, 2, 1, 200, 600, 200, None);
    let mut pool = pool(0, 1_000_000, 2_000_000, 2_000_000, 200, 600, 200, 0, 0);
    pool.creator = key(USER);
    // Manually inject platform fees into pool state
    pool.platform_fees_balance = 500;
    (pool, config)
}

#[test]
fn test_claim_platform_fees() {
    let (mut pool, config) = claim_setup();
    let result = claim_platform_fees(&mut pool, &config, key(PAYER));
    if let Err(ref e) = result {
        println!("claim_platform_fees error: {:?}", e);
    }
    assert!(result.is_ok());
    // Check that platform fees_balance was subtracted from pool
    assert_eq!(pool.platform_fees_balance, 0);
    // The admin receives the claimed amount
    assert_eq!(result.unwrap(), 500);
}

#[test]
fn test_claim_platform_fees_wrong_authority() {
    let (mut pool, config) = claim_setup();
    let other_user = key(9);
    let result = claim_platform_fees(&mut pool, &config, other_user);
    assert!(result.is_err());
    assert_eq!(result.unwrap_err(), CbmmError::InvalidPlatformAdmin);
    assert_eq!(pool.platform_fees_balance, 500);
}

#[test]
fn claim_of_an_empty_balance_pays_nothing() {
    let (mut pool, config) = claim_setup();
    pool.platform_fees_balance = 0;
    assert_eq!(claim_platform_fees(&mut pool, &config, key(PAYER)), Ok(0));
}

fn sound_tiers() -> Vec<BurnTier> {
    vec![
        BurnTier { burn_bp_x100: 1_000, role: BurnRole::Anyone, max_daily_burns: 5 },
        BurnTier { burn_bp_x100: 20_000, role: BurnRole::PoolOwner, max_daily_burns: 5 },
        BurnTier { burn_bp_x100: 30_000, role: BurnRole::SpecificPubkey(key(AUTHORITY)), max_daily_burns: 1 },
    ]
}

#[test]
fn initialize_platform_config_makes_the_creator_admin() {
    let args = InitializePlatformConfigArgs {
        creator_fee_bp: 200,
        topup_fee_bp: 600,
        platform_fee_bp: 200,
        burn_limit_bp_x100: 90_000,
        burn_min_burn_bp_x100: 10,
        burn_decay_rate_per_sec_bp_x100: 50,
        burn_tiers: sound_tiers(),
    };
    let config = initialize_platform_config(9, key(PAYER), key(MINT), args, 77).unwrap();
    assert_eq!(config.admin, key(PAYER));
    assert_eq!(config.creator, key(PAYER));
    assert_eq!(config.bump, 9);
    assert_eq!(config.burn_tiers_updated_at, 77);
    assert_eq!(config.pool_topup_fee_bp, 600);
    assert_eq!(config.burn_tiers.len(), 3);

    let bad = InitializePlatformConfigArgs {
        creator_fee_bp: 200,
        topup_fee_bp: 600,
        platform_fee_bp: 200,
        burn_limit_bp_x100: 90_000,
        burn_min_burn_bp_x100: 10,
        burn_decay_rate_per_sec_bp_x100: 500,
        burn_tiers: sound_tiers(),
    };
    assert_eq!(
        initialize_platform_config(9, key(PAYER), key(MINT), bad, 77).unwrap_err(),
        CbmmError::InvalidBurnRate
    );
}

#[test]
fn initialize_user_burn_allowance_checks_the_role() {
    let mut config = platform_config(5, 5, 1_000, 20_000, 200, 600, 200, None);
    config.burn_tiers = sound_tiers();
    config.burn_tiers_updated_at = 12;
    let args = |i: u8| InitializeUserBurnAllowanceArgs { burn_tier_index: i };
    let a = initialize_user_burn_allowance(&config, key(PLATFORM), key(USER), key(PAYER), None, args(0), 1, 100)
        .unwrap();
    assert_eq!(a.user, key(USER));
    assert_eq!(a.payer, key(PAYER));
    assert_eq!(a.created_at, 100);
    assert_eq!(a.burn_tier_update_timestamp, 12);
    assert_eq!(a.burns_today, 0);
    assert_eq!(
        initialize_user_burn_allowance(&config, key(PLATFORM), key(USER), key(PAYER), None, args(1), 1, 100)
            .unwrap_err(),
        CbmmError::PoolCreatorBurnTierRequiresPool
    );
    assert_eq!(
        initialize_user_burn_allowance(&config, key(PLATFORM), key(USER), key(PAYER), Some(key(PAYER)), args(1), 1, 100)
            .unwrap_err(),
        CbmmError::KeysMismatch
    );
    assert!(initialize_user_burn_allowance(&config, key(PLATFORM), key(PAYER), key(PAYER), Some(key(PAYER)), args(1), 1, 100)
        .is_ok());
    assert_eq!(
        initialize_user_burn_allowance(&config, key(PLATFORM), key(USER), key(PAYER), None, args(2), 1, 100)
            .unwrap_err(),
        CbmmError::KeysMismatch
    );
    assert!(initialize_user_burn_allowance(&config, key(PLATFORM), key(AUTHORITY), key(PAYER), None, args(2), 1, 100)
        .is_ok());
    assert_eq!(
        initialize_user_burn_allowance(&config, key(PLATFORM), key(USER), key(PAYER), None, args(3), 1, 100)
            .unwrap_err(),
        CbmmError::InvalidBurnTierIndex
    );
}

#[test]
fn create_pool_takes_the_platform_rates() {
    let config = platform_config(5, 5, 1_000, 20_000, 300, 500, 100, None);
    let pool = create_pool(
        7,
        key(USER),
        key(PLATFORM),
        &config,
        key(MINT),
        CreatePoolArgs { quote_virtual_reserve: 10_000_000 },
        1_000,
    )
    .unwrap();
    assert_eq!(pool.creator, key(USER));
    assert_eq!(pool.platform_config, key(PLATFORM));
    assert_eq!(pool.creator_fee_bp, 300);
    assert_eq!(pool.buyback_fee_bp, 500);
    assert_eq!(pool.platform_fee_bp, 100);
    assert_eq!(pool.quote_virtual_reserve, 10_000_000);
    assert_eq!(pool.burn_limiter, BurnRateLimiter::new(1_000, 67_500));
    assert_eq!(
        create_pool(7, key(USER), key(PLATFORM), &config, key(MINT), CreatePoolArgs { quote_virtual_reserve: 0 }, 0)
            .unwrap_err(),
        CbmmError::InvalidVirtualReserve
    );
}

#[test]
fn update_platform_config_by_the_admin() {
    let mut config = platform_config(5, 5, 1_000, 20_000, 200, 600, 200, None);
    let no_change = || UpdatePlatformConfigArgs {
        pool_creator_fee_bp: None,
        pool_topup_fee_bp: None,
        platform_fee_bp: None,
        burn_authority: None,
        burn_limit_bp_x100: None,
        burn_min_bp_x100: None,
        burn_decay_rate_per_sec_bp_x100: None,
        burn_tiers: None,
    };
    // Only the admin may update.
    let mut args = no_change();
    args.platform_fee_bp = Some(100);
    assert_eq!(
        update_platform_config(&mut config, key(USER), args, 10_000),
        Err(CbmmError::InvalidPlatformAdmin)
    );
    assert_eq!(config.platform_fee_bp, 200);

    let mut args = no_change();
    args.platform_fee_bp = Some(150);
    args.burn_authority = Some(Some(key(AUTHORITY)));
    args.burn_decay_rate_per_sec_bp_x100 = Some(60);
    assert_eq!(update_platform_config(&mut config, key(PAYER), args, 10_000), Ok(()));
    assert_eq!(config.platform_fee_bp, 150);
    assert_eq!(config.burn_authority, Some(key(AUTHORITY)));
    assert_eq!(config.burn_rate_config, BurnRateConfig::new(90_000, 10, 60));
    assert_eq!(config.burn_tiers_updated_at, 0);

    // New tiers take effect now, and not again within the hour.
    let mut args = no_change();
    args.burn_tiers = Some(sound_tiers());
    assert_eq!(update_platform_config(&mut config, key(PAYER), args, 10_000), Ok(()));
    assert_eq!(config.burn_tiers_updated_at, 10_000);
    assert_eq!(config.burn_tiers.len(), 3);
    let mut args = no_change();
    args.burn_tiers = Some(sound_tiers());
    assert_eq!(
        update_platform_config(&mut config, key(PAYER), args, 13_600),
        Err(CbmmError::BurnTiersUpdatedTooRecently)
    );

    // An update that breaks the fee rules is refused.
    let mut args = no_change();
    args.pool_topup_fee_bp = Some(50);
    assert_eq!(
        update_platform_config(&mut config, key(PAYER), args, 20_000),
        Err(CbmmError::InvalidFeeBasisPoints)
    );
}

#[test]
fn close_user_burn_allowance_rules() {
    let mut allowance = allowance_mock(key(USER), key(PAYER), 0, 0, false, 0);
    assert_eq!(close_user_burn_allowance(&allowance, key(PAYER), 5), Ok(()));
    assert_eq!(
        close_user_burn_allowance(&allowance, key(USER), 5),
        Err(CbmmError::InvalidBurnAccountPayer)
    );
    allowance.burns_today = 2;
    allowance.last_burn_timestamp = 1_000;
    assert_eq!(
        close_user_burn_allowance(&allowance, key(PAYER), 1_000 + 86_399),
        Err(CbmmError::CannotCloseActiveBurnAllowance)
    );
    assert_eq!(close_user_burn_allowance(&allowance, key(PAYER), 1_000 + 86_400), Ok(()));
}

#[test]
fn close_virtual_token_account_rules() {
    let mut vta = VirtualTokenAccount::try_new(1, key(POOL), key(USER));
    assert_eq!(close_virtual_token_account(&vta, key(USER)), Ok(()));
    assert_eq!(close_virtual_token_account(&vta, key(PAYER)), Err(CbmmError::InvalidOwner));
    vta.balance = 1;
    assert_eq!(close_virtual_token_account(&vta, key(USER)), Err(CbmmError::NonzeroBalance));
}

#[test]
fn failed_instructions_leave_the_accounts_unchanged() {
    // Buy below the minimum.
    let mut pool = buy_setup();
    let before = pool;
    let mut vta = VirtualTokenAccount::try_new(251, key(POOL), key(PAYER));
    let r = buy_virtual_token(
        &mut pool,
        &mut vta,
        BuyVirtualTokenArgs { quote_amount: 5000, base_amount_min: 9158 },
        key(PAYER),
        key(POOL),
    );
    assert_eq!(r.unwrap_err(), CbmmError::SlippageExceeded);
    assert_eq!(vta.balance, 0);
    assert_eq!(pool.base_reserve, before.base_reserve);
    assert_eq!(pool.quote_reserve, before.quote_reserve);
    assert_eq!(pool.buyback_fees_balance, before.buyback_fees_balance);

    // Sell below the minimum.
    let mut pool = sell_setup();
    let before = pool;
    let mut vta = VirtualTokenAccount::try_new(251, key(POOL), key(PAYER));
    vta.balance = 1000;
    let r = sell_virtual_token(
        &mut pool,
        &mut vta,
        SellVirtualTokenArgs { base_amount: 500, min_quote_amount: 100_000 },
        key(PAYER),
        key(POOL),
    );
    assert_eq!(r.unwrap_err(), CbmmError::SlippageExceeded);
    assert_eq!(pool.base_reserve, before.base_reserve);
    assert_eq!(pool.quote_reserve, before.quote_reserve);
    assert_eq!(pool.buyback_fees_balance, before.buyback_fees_balance);
    assert_eq!(pool.creator_fees_balance, before.creator_fees_balance);

    // Burn past the daily limit.
    let (mut pool, config) = burn_setup(None);
    let one_hour_ago = 1682899200 - 3600;
    let mut allowance = allowance_mock(key(USER), key(USER), 5, one_hour_ago, false, one_hour_ago);
    let r = burn_virtual_token(&mut pool, &mut allowance, &config, key(USER), None, key(POOL), 1682899200);
    assert_eq!(r.unwrap_err(), CbmmError::BurnLimitReached);
    assert_eq!(allowance.burns_today, 5);
    assert_eq!(allowance.last_burn_timestamp, one_hour_ago);

    // An update that breaks the fee rules.
    let mut config = platform_config(5, 5, 1_000, 20_000, 200, 600, 200, None);
    let args = UpdatePlatformConfigArgs {
        pool_creator_fee_bp: Some(300),
        pool_topup_fee_bp: Some(50),
        platform_fee_bp: None,
        burn_authority: Some(Some(key(AUTHORITY))),
        burn_limit_bp_x100: None,
        burn_min_bp_x100: None,
        burn_decay_rate_per_sec_bp_x100: None,
        burn_tiers: None,
    };
    assert_eq!(
        update_platform_config(&mut config, key(PAYER), args, 20_000),
        Err(CbmmError::InvalidFeeBasisPoints)
    );
    assert_eq!(config.pool_creator_fee_bp, 200);
    assert_eq!(config.pool_topup_fee_bp, 600);
    assert!(config.burn_authority.is_none());
}

#[test]
fn instructions_tell_when_their_arithmetic_is_defined() {
    let pool = buy_setup();
    assert!(buy_is_defined(&pool, &BuyVirtualTokenArgs { quote_amount: 5000, base_amount_min: 0 }));
    // One token pays three tokens of fees.
    assert!(!buy_is_defined(&pool, &BuyVirtualTokenArgs { quote_amount: 1, base_amount_min: 0 }));
    // A zero platform rate is divided by in the fee check.
    let mut zero_rate = pool;
    zero_rate.platform_fee_bp = 0;
    assert!(!buy_is_defined(&zero_rate, &BuyVirtualTokenArgs { quote_amount: 5000, base_amount_min: 0 }));

    let pool = sell_setup();
    let mut vta = VirtualTokenAccount::try_new(251, key(POOL), key(PAYER));
    vta.balance = 1000;
    assert!(sell_is_defined(&pool, &vta, &SellVirtualTokenArgs { base_amount: 500, min_quote_amount: 0 }));
    let mut empty = pool;
    empty.base_reserve = 0;
    assert!(!sell_is_defined(&empty, &vta, &SellVirtualTokenArgs { base_amount: 0, min_quote_amount: 0 }));

    let (pool, config) = burn_setup(None);
    let allowance = allowance_mock(key(USER), key(USER), 0, 0, false, 0);
    assert!(burn_virtual_token_is_defined(&pool, &allowance, &config, key(USER), None, 1682899200));
    let mut drained = pool;
    drained.base_reserve = 0;
    assert!(!burn_virtual_token_is_defined(&drained, &allowance, &config, key(USER), None, 1682899200));
    let mut full = allowance;
    full.burns_today = u16::MAX;
    full.last_burn_timestamp = 1682899200;
    assert!(!burn_virtual_token_is_defined(&pool, &full, &config, key(USER), None, 1682899200));
}
