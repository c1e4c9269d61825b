use crate::address::Address;
use crate::errors::CbmmError;
use crate::state::{spec_platform_config, spec_platform_config_check, BurnTier, PlatformConfig};
use vstd::prelude::*;

verus! {

#[derive(Debug, Clone)]
pub struct InitializePlatformConfigArgs {
    pub creator_fee_bp: u16,
    pub topup_fee_bp: u16,
    pub platform_fee_bp: u16,
    pub burn_limit_bp_x100: u64,
    pub burn_min_burn_bp_x100: u64,
    pub burn_decay_rate_per_sec_bp_x100: u64,
    pub burn_tiers: Vec<BurnTier>,
}

/// The platform configuration that `creator` opens at `now`; the creator is also its
/// admin.
pub fn initialize_platform_config(
    bump: u8,
    creator: Address,
    quote_mint: Address,
    args: InitializePlatformConfigArgs,
    now: i64,
) -> (r: Result<PlatformConfig, CbmmError>)
    ensures
        match spec_platform_config_check(
            args.burn_tiers@,
            args.creator_fee_bp,
            args.topup_fee_bp,
            args.platform_fee_bp,
            args.burn_limit_bp_x100,
            args.burn_decay_rate_per_sec_bp_x100,
        ) {
            Err(e) => r == Err::<PlatformConfig, CbmmError>(e),
            Ok(_) => r == Ok::<PlatformConfig, CbmmError>(
                spec_platform_config(
                    bump,
                    creator,
                    creator,
                    quote_mint,
                    args.burn_tiers,
                    args.creator_fee_bp,
                    args.topup_fee_bp,
                    args.platform_fee_bp,
                    args.burn_limit_bp_x100,
                    args.burn_min_burn_bp_x100,
                    args.burn_decay_rate_per_sec_bp_x100,
                    now,
                ),
            ),
        },
{
    PlatformConfig::try_new_at(
        bump,
        creator,
        creator,
        quote_mint,
        args.burn_tiers,
        args.creator_fee_bp,
        args.topup_fee_bp,
        args.platform_fee_bp,
        args.burn_limit_bp_x100,
        args.burn_min_burn_bp_x100,
        args.burn_decay_rate_per_sec_bp_x100,
        now,
    )
}

} // verus!
