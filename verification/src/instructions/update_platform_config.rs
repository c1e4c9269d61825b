use crate::address::Address;
use crate::errors::CbmmError;
use crate::helpers::rate_limit::BurnRateConfig;
use crate::state::{
    spec_validate_fees_and_burn_config, BurnTier, PlatformConfig, MAX_BURN_TIERS,
};
use crate::std_ints::clamp_i64;
use vstd::prelude::*;

verus! {

/// Burn tiers may be replaced once an hour.
pub const BURN_TIERS_UPDATE_COOLDOWN_SECONDS: i64 = 3600;

/// The settings to change; `None` keeps the current one.
#[derive(Debug, Clone)]
pub struct UpdatePlatformConfigArgs {
    pub pool_creator_fee_bp: Option<u16>,
    pub pool_topup_fee_bp: Option<u16>,
    pub platform_fee_bp: Option<u16>,
    pub burn_authority: Option<Option<Address>>,
    pub burn_limit_bp_x100: Option<u64>,
    pub burn_min_bp_x100: Option<u64>,
    pub burn_decay_rate_per_sec_bp_x100: Option<u64>,
    pub burn_tiers: Option<Vec<BurnTier>>,
}

pub open spec fn or_current<T>(update: Option<T>, current: T) -> T {
    match update {
        Some(v) => v,
        None => current,
    }
}

/// The configuration with every given setting replaced; new burn tiers take effect at
/// `now`.
pub open spec fn spec_updated_config(
    config: PlatformConfig,
    args: UpdatePlatformConfigArgs,
    now: i64,
) -> PlatformConfig {
    PlatformConfig {
        pool_creator_fee_bp: or_current(args.pool_creator_fee_bp, config.pool_creator_fee_bp),
        pool_topup_fee_bp: or_current(args.pool_topup_fee_bp, config.pool_topup_fee_bp),
        platform_fee_bp: or_current(args.platform_fee_bp, config.platform_fee_bp),
        burn_authority: or_current(args.burn_authority, config.burn_authority),
        burn_tiers: or_current(args.burn_tiers, config.burn_tiers),
        burn_tiers_updated_at: if args.burn_tiers is Some {
            now
        } else {
            config.burn_tiers_updated_at
        },
        burn_rate_config: BurnRateConfig {
            limit_bp_x100: or_current(args.burn_limit_bp_x100, config.burn_rate_config.limit_bp_x100),
            min_burn_bp_x100: or_current(
                args.burn_min_bp_x100,
                config.burn_rate_config.min_burn_bp_x100,
            ),
            decay_rate_per_sec_bp_x100: or_current(
                args.burn_decay_rate_per_sec_bp_x100,
                config.burn_rate_config.decay_rate_per_sec_bp_x100,
            ),
        },
        ..config
    }
}

/// The configuration after an update at `now`, and whether it is accepted: new burn tiers must
/// come more than an hour after the last ones, and the updated configuration must pass
/// the fee and burn checks and have at most five tiers. A refused update leaves the
/// configuration as it was.
pub open spec fn spec_update_platform_config(
    config: PlatformConfig,
    args: UpdatePlatformConfigArgs,
    now: i64,
) -> (PlatformConfig, Result<(), CbmmError>) {
    if args.burn_tiers is Some && !(clamp_i64(now - BURN_TIERS_UPDATE_COOLDOWN_SECONDS)
        > config.burn_tiers_updated_at) {
        (config, Err(CbmmError::BurnTiersUpdatedTooRecently))
    } else {
        let updated = spec_updated_config(config, args, now);
        match spec_validate_fees_and_burn_config(
            updated.pool_creator_fee_bp,
            updated.pool_topup_fee_bp,
            updated.platform_fee_bp,
            updated.burn_tiers@,
            updated.burn_rate_config.limit_bp_x100,
            updated.burn_rate_config.decay_rate_per_sec_bp_x100,
        ) {
            Err(e) => (config, Err(e)),
            Ok(_) => if updated.burn_tiers@.len() > MAX_BURN_TIERS {
                (config, Err(CbmmError::InvalidBurnTiers))
            } else {
                (updated, Ok(()))
            },
        }
    }
}

/// Changes the settings of a platform at `now`, on behalf of `admin`, who must be the
/// platform's admin.
pub fn update_platform_config(
    platform_config: &mut PlatformConfig,
    admin: Address,
    args: UpdatePlatformConfigArgs,
    now: i64,
) -> (r: Result<(), CbmmError>)
    ensures
        admin != old(platform_config).admin ==> r == Err::<(), CbmmError>(
            CbmmError::InvalidPlatformAdmin,
        ) && *final(platform_config) == *old(platform_config),
        admin == old(platform_config).admin ==> (*final(platform_config), r)
            == spec_update_platform_config(*old(platform_config), args, now),
{
    if !platform_config.admin.same_as(&admin) {
        return Err(CbmmError::InvalidPlatformAdmin);
    }
    // Check if burn_tiers are being updated, and if so, verify they weren't updated in the last hour

    if args.burn_tiers.is_some() {
        let one_hour_ago = now.saturating_sub(BURN_TIERS_UPDATE_COOLDOWN_SECONDS);
        if !(one_hour_ago > platform_config.burn_tiers_updated_at) {
            return Err(CbmmError::BurnTiersUpdatedTooRecently);
        }
    }
    // The updated settings are checked before any of them is stored.
    let pool_creator_fee_bp = match args.pool_creator_fee_bp {
        Some(v) => v,
        None => platform_config.pool_creator_fee_bp,
    };
    let pool_topup_fee_bp = match args.pool_topup_fee_bp {
        Some(v) => v,
        None => platform_config.pool_topup_fee_bp,
    };
    let platform_fee_bp = match args.platform_fee_bp {
        Some(v) => v,
        None => platform_config.platform_fee_bp,
    };
    let burn_limit_bp_x100 = match args.burn_limit_bp_x100 {
        Some(v) => v,
        None => platform_config.burn_rate_config.limit_bp_x100,
    };
    let burn_min_bp_x100 = match args.burn_min_bp_x100 {
        Some(v) => v,
        None => platform_config.burn_rate_config.min_burn_bp_x100,
    };
    let burn_decay_rate_per_sec_bp_x100 = match args.burn_decay_rate_per_sec_bp_x100 {
        Some(v) => v,
        None => platform_config.burn_rate_config.decay_rate_per_sec_bp_x100,
    };
    {
        let burn_tiers: &[BurnTier] = match &args.burn_tiers {
            Some(tiers) => tiers.as_slice(),
            None => platform_config.burn_tiers.as_slice(),
        };
        // Validate the entire config
        match PlatformConfig::validate_fees_and_burn_config(
            pool_creator_fee_bp,
            pool_topup_fee_bp,
            platform_fee_bp,
            burn_tiers,
            burn_limit_bp_x100,
            burn_decay_rate_per_sec_bp_x100,
        ) {
            Ok(()) => {},
            Err(e) => return Err(e),
        }
        // Validate burn_tiers length
        if !(burn_tiers.len() <= MAX_BURN_TIERS) {
            return Err(CbmmError::InvalidBurnTiers);
        }
    }
    platform_config.pool_creator_fee_bp = pool_creator_fee_bp;
    platform_config.pool_topup_fee_bp = pool_topup_fee_bp;
    platform_config.platform_fee_bp = platform_fee_bp;
    if let Some(burn_authority) = args.burn_authority {
        platform_config.burn_authority = burn_authority;
    }
    if let Some(burn_tiers) = args.burn_tiers {
        platform_config.burn_tiers = burn_tiers;
        platform_config.burn_tiers_updated_at = now;
    }
    platform_config.burn_rate_config = BurnRateConfig::new(
        burn_limit_bp_x100,
        burn_min_bp_x100,
        burn_decay_rate_per_sec_bp_x100,
    );
    Ok(())
}

} // verus!
