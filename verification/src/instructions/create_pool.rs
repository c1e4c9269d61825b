use crate::address::Address;
use crate::errors::CbmmError;
use crate::state::{
    fee_rates_fit, spec_new_pool, spec_new_pool_check, CbmmPool, PlatformConfig,
    CBMM_POOL_INDEX_SEED,
};
use vstd::prelude::*;

verus! {

#[derive(Debug, Clone, Copy)]
pub struct CreatePoolArgs {
    /// quote_virtual_reserve is the virtual reserve of the A mint including decimals
    pub quote_virtual_reserve: u64,
}

/// A new pool of `payer` on a platform, at `now`: the pool takes the platform's creator,
/// top-up and platform fee rates as its creator, buyback and platform fee rates.
pub fn create_pool(
    bump: u8,
    payer: Address,
    platform_config_key: Address,
    platform_config: &PlatformConfig,
    quote_mint: Address,
    args: CreatePoolArgs,
    now: i64,
) -> (r: Result<CbmmPool, CbmmError>)
    requires
        spec_new_pool_check(args.quote_virtual_reserve, platform_config.pool_topup_fee_bp) is Ok
            ==> fee_rates_fit(
            platform_config.pool_creator_fee_bp,
            platform_config.pool_topup_fee_bp,
            platform_config.platform_fee_bp,
        ),
    ensures
        match spec_new_pool_check(args.quote_virtual_reserve, platform_config.pool_topup_fee_bp) {
            Err(e) => r == Err::<CbmmPool, CbmmError>(e),
            Ok(_) => r == Ok::<CbmmPool, CbmmError>(
                spec_new_pool(
                    bump,
                    payer,
                    CBMM_POOL_INDEX_SEED,
                    platform_config_key,
                    quote_mint,
                    args.quote_virtual_reserve,
                    platform_config.pool_creator_fee_bp,
                    platform_config.pool_topup_fee_bp,
                    platform_config.platform_fee_bp,
                    now,
                ),
            ),
        },
{
    CbmmPool::try_new_at(
        bump,
        payer,
        CBMM_POOL_INDEX_SEED,
        platform_config_key,
        quote_mint,
        args.quote_virtual_reserve,
        platform_config.pool_creator_fee_bp,
        platform_config.pool_topup_fee_bp,
        platform_config.platform_fee_bp,
        now,
    )
}

} // verus!
