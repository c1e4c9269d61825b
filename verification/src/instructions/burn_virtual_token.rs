use crate::address::Address;
use crate::errors::CbmmError;
use crate::state::{BurnRole, BurnTier, CbmmPool, PlatformConfig, UserBurnAllowance};
use vstd::prelude::*;

verus! {

/// What a burn reports.
#[derive(Debug, Clone, Copy)]
pub struct BurnEvent {
    pub burn_amount: u64,
    pub topup_accrued: u64,
    pub new_b_reserve: u64,
    pub new_a_reserve: u64,
    pub new_virtual_reserve: u64,
    pub new_buyback_fees_balance: u64,
    pub burner: Address,
    pub pool: Address,
}

/// The tier a burn request uses, after the checks that precede the burn: the tier
/// exists, the configured burn authority signed, a pool-owner tier is used by the pool's
/// creator, and the daily count `daily_index` is within the tier's limit.
pub open spec fn spec_burn_tier_check(
    pool: CbmmPool,
    burn_tier_index: u8,
    platform_config: PlatformConfig,
    signer: Address,
    burn_authority: Option<Address>,
    daily_index: u16,
) -> Result<BurnTier, CbmmError> {
    if !((platform_config.burn_tiers@.len() as u8) > burn_tier_index) {
        Err(CbmmError::InvalidBurnTierIndex)
    } else {
        let tier = platform_config.burn_tiers@[burn_tier_index as int];
        if !platform_config.burn_authority_accepts(burn_authority) {
            Err(CbmmError::InvalidBurnAuthority)
        } else if tier.role is PoolOwner && pool.creator != signer {
            Err(CbmmError::InvalidPoolCreator)
        } else if tier.max_daily_burns < daily_index {
            Err(CbmmError::BurnLimitReached)
        } else {
            Ok(tier)
        }
    }
}

/// A burn at `now` neither overflows the daily count, the limiter's scaling, nor divides
/// by zero in the burn or the top-up.
pub open spec fn burn_virtual_token_defined(
    pool: CbmmPool,
    allowance: UserBurnAllowance,
    platform_config: PlatformConfig,
    signer: Address,
    burn_authority: Option<Address>,
    now: i64,
) -> bool {
    &&& allowance.pop_defined(now)
    &&& match spec_burn_tier_check(
        pool,
        allowance.burn_tier_index,
        platform_config,
        signer,
        burn_authority,
        allowance.spec_pop(now).burns_today,
    ) {
        Ok(tier) => {
            &&& platform_config.burn_rate_config.scalable()
            &&& pool.burn_defined(platform_config.burn_rate_config, tier.burn_bp_x100, now)
            &&& match pool.spec_burn(platform_config.burn_rate_config, tier.burn_bp_x100, now) {
                (burned, Ok(_)) => burned.topup_defined(),
                _ => true,
            }
        },
        Err(_) => true,
    }
}

/// Whether a burn at `now` stays clear of the arithmetic that cannot be carried out: an
/// overflowing daily count, limits that cannot be scaled, or a division by zero or a burn
/// beyond the supply in the burn or the top-up.
pub fn burn_virtual_token_is_defined(
    pool: &CbmmPool,
    allowance: &UserBurnAllowance,
    platform_config: &PlatformConfig,
    signer: Address,
    burn_authority: Option<Address>,
    now: i64,
) -> (b: bool)
    ensures
        b == burn_virtual_token_defined(
            *pool,
            *allowance,
            *platform_config,
            signer,
            burn_authority,
            now,
        ),
{
    if !allowance.pop_is_defined(now) {
        return false;
    }
    let mut popped = *allowance;
    let daily_index = popped.pop_at(now);
    let tier = match check_burn_tier(
        pool,
        allowance.burn_tier_index,
        platform_config,
        signer,
        burn_authority,
        daily_index,
    ) {
        Ok(tier) => tier,
        Err(_) => return true,
    };
    let config = &platform_config.burn_rate_config;
    if !config.is_scalable() {
        return false;
    }
    if !pool.burn_is_defined(config, tier.burn_bp_x100, now) {
        return false;
    }
    let mut burned = *pool;
    match burned.burn_at(config, tier.burn_bp_x100, now) {
        Ok(_) => burned.topup_is_defined(),
        Err(_) => true,
    }
}

/// The pool, the burner's allowance and the outcome of a burn at `now`: the allowance
/// records the burn, the tier checks run, the pool burns what its rate limiter allows of
/// the tier's share, and the pool is topped up. A failed burn leaves the pool and the
/// allowance as they were.
pub open spec fn spec_burn_virtual_token(
    pool: CbmmPool,
    allowance: UserBurnAllowance,
    platform_config: PlatformConfig,
    signer: Address,
    burn_authority: Option<Address>,
    pool_key: Address,
    now: i64,
) -> (CbmmPool, UserBurnAllowance, Result<BurnEvent, CbmmError>) {
    let popped = allowance.spec_pop(now);
    match spec_burn_tier_check(
        pool,
        allowance.burn_tier_index,
        platform_config,
        signer,
        burn_authority,
        popped.burns_today,
    ) {
        Err(e) => (pool, allowance, Err(e)),
        Ok(tier) => {
            let (burned, burn_result) = pool.spec_burn(
                platform_config.burn_rate_config,
                tier.burn_bp_x100,
                now,
            );
            match burn_result {
                Err(e) => (pool, allowance, Err(e)),
                Ok(burn_result) => {
                    let (topped, topup_accrued) = burned.spec_topup();
                    match topup_accrued {
                        Err(e) => (pool, allowance, Err(e)),
                        Ok(topup_accrued) => (
                            topped,
                            popped,
                            Ok(
                                BurnEvent {
                                    burn_amount: burn_result.burn_amount,
                                    topup_accrued,
                                    new_b_reserve: topped.base_reserve,
                                    new_a_reserve: topped.quote_reserve,
                                    new_virtual_reserve: topped.quote_virtual_reserve,
                                    new_buyback_fees_balance: topped.buyback_fees_balance,
                                    burner: signer,
                                    pool: pool_key,
                                },
                            ),
                        ),
                    }
                },
            }
        },
    }
}

/// Burns at the tier of `user_burn_allowance` at time `now`, on behalf of `signer`, with
/// the optional signature of the burn authority.
pub fn burn_virtual_token(
    pool: &mut CbmmPool,
    user_burn_allowance: &mut UserBurnAllowance,
    platform_config: &PlatformConfig,
    signer: Address,
    burn_authority: Option<Address>,
    pool_key: Address,
    now: i64,
) -> (r: Result<BurnEvent, CbmmError>)
    requires
        burn_virtual_token_defined(
            *old(pool),
            *old(user_burn_allowance),
            *platform_config,
            signer,
            burn_authority,
            now,
        ),
    ensures
        (*final(pool), *final(user_burn_allowance), r) == spec_burn_virtual_token(
            *old(pool),
            *old(user_burn_allowance),
            *platform_config,
            signer,
            burn_authority,
            pool_key,
            now,
        ),
{
    // The burn works on copies, which replace the accounts only when it succeeds.
    let mut p = *pool;
    let mut allowance = *user_burn_allowance;
    let user_daily_burn_index = allowance.pop_at(now);
    let burn_tier = match check_burn_tier(
        &p,
        allowance.burn_tier_index,
        platform_config,
        signer,
        burn_authority,
        user_daily_burn_index,
    ) {
        Ok(tier) => tier,
        Err(e) => return Err(e),
    };
    let requested_amount = burn_tier.burn_bp_x100;

    let config = &platform_config.burn_rate_config;
    let burn_result = match p.burn_at(config, requested_amount, now) {
        Ok(v) => v,
        Err(e) => return Err(e),
    };
    let topup_accrued = match p.topup() {
        Ok(v) => v,
        Err(e) => return Err(e),
    };
    *pool = p;
    *user_burn_allowance = allowance;

    Ok(
        BurnEvent {
            burn_amount: burn_result.burn_amount,
            topup_accrued: topup_accrued,
            new_b_reserve: pool.base_reserve,
            new_a_reserve: pool.quote_reserve,
            new_virtual_reserve: pool.quote_virtual_reserve,
            new_buyback_fees_balance: pool.buyback_fees_balance,
            burner: signer,
            pool: pool_key,
        },
    )
}

/// The checks that precede a burn: the tier exists, the configured burn authority signed,
/// a pool-owner tier is used by the pool's creator, and the daily count `daily_index` is
/// within the tier's limit. Returns the tier.
pub fn check_burn_tier(
    pool: &CbmmPool,
    burn_tier_index: u8,
    platform_config: &PlatformConfig,
    signer: Address,
    burn_authority: Option<Address>,
    daily_index: u16,
) -> (r: Result<BurnTier, CbmmError>)
    ensures
        r == spec_burn_tier_check(
            *pool,
            burn_tier_index,
            *platform_config,
            signer,
            burn_authority,
            daily_index,
        ),
{
    let tiers_len = platform_config.burn_tiers.len();
    let tiers_len_u8 = tiers_len as u8;
    proof {
        assert(tiers_len_u8 as usize <= tiers_len) by (bit_vector)
            requires
                tiers_len_u8 == tiers_len as u8,
        ;
    }
    if !(tiers_len_u8 > burn_tier_index) {
        return Err(CbmmError::InvalidBurnTierIndex);
    }
    let burn_tier = platform_config.burn_tiers[burn_tier_index as usize];

    // If a global burn authority is configured, require it to sign every burn.
    match platform_config.check_burn_authority(burn_authority) {
        Ok(()) => {},
        Err(e) => return Err(e),
    }

    if let BurnRole::PoolOwner = burn_tier.role {
        if !pool.creator.same_as(&signer) {
            return Err(CbmmError::InvalidPoolCreator);
        }
    }
    if !(burn_tier.max_daily_burns >= daily_index) {
        return Err(CbmmError::BurnLimitReached);
    }
    Ok(burn_tier)
}

} // verus!
