use crate::address::Address;
use crate::errors::CbmmError;
use crate::state::{BurnRole, PlatformConfig, UserBurnAllowance};
use vstd::prelude::*;

verus! {

#[derive(Debug, Clone, Copy)]
pub struct InitializeUserBurnAllowanceArgs {
    pub burn_tier_index: u8,
}

/// Who may hold an allowance at a tier: anyone, the creator of the given pool, or the
/// whitelisted key.
pub open spec fn spec_burn_role_check(
    role: BurnRole,
    owner: Address,
    pool_creator: Option<Address>,
) -> Result<(), CbmmError> {
    match role {
        BurnRole::PoolOwner => match pool_creator {
            None => Err(CbmmError::PoolCreatorBurnTierRequiresPool),
            Some(creator) => if creator == owner {
                Ok(())
            } else {
                Err(CbmmError::KeysMismatch)
            },
        },
        BurnRole::SpecificPubkey(key) => if key == owner {
            Ok(())
        } else {
            Err(CbmmError::KeysMismatch)
        },
        BurnRole::Anyone => Ok(()),
    }
}

/// Opens, at `now`, the burn allowance of `owner` at tier `args.burn_tier_index` of a
/// platform. `pool_creator` is the creator of the pool given with the request, if any;
/// a pool-owner tier needs it.
pub fn initialize_user_burn_allowance(
    platform_config: &PlatformConfig,
    platform_config_key: Address,
    owner: Address,
    payer: Address,
    pool_creator: Option<Address>,
    args: InitializeUserBurnAllowanceArgs,
    bump: u8,
    now: i64,
) -> (r: Result<UserBurnAllowance, CbmmError>)
    ensures
        !((platform_config.burn_tiers@.len() as u8) > args.burn_tier_index) ==> r == Err::<
            UserBurnAllowance,
            CbmmError,
        >(CbmmError::InvalidBurnTierIndex),
        (platform_config.burn_tiers@.len() as u8) > args.burn_tier_index ==> match spec_burn_role_check(
            platform_config.burn_tiers@[args.burn_tier_index as int].role,
            owner,
            pool_creator,
        ) {
            Err(e) => r == Err::<UserBurnAllowance, CbmmError>(e),
            Ok(_) => r == Ok::<UserBurnAllowance, CbmmError>(
                UserBurnAllowance {
                    bump,
                    user: owner,
                    platform_config: platform_config_key,
                    payer,
                    burns_today: 0,
                    last_burn_timestamp: 0,
                    created_at: now,
                    burn_tier_index: args.burn_tier_index,
                    burn_tier_update_timestamp: platform_config.burn_tiers_updated_at,
                },
            ),
        },
{
    let tiers_len = platform_config.burn_tiers.len();
    let tiers_len_u8 = tiers_len as u8;
    proof {
        assert(tiers_len_u8 as usize <= tiers_len) by (bit_vector)
            requires
                tiers_len_u8 == tiers_len as u8,
        ;
    }
    if !(tiers_len_u8 > args.burn_tier_index) {
        return Err(CbmmError::InvalidBurnTierIndex);
    }
    let burn_tier = &platform_config.burn_tiers[args.burn_tier_index as usize];
    match &burn_tier.role {
        BurnRole::PoolOwner => {
            match &pool_creator {
                None => return Err(CbmmError::PoolCreatorBurnTierRequiresPool),
                Some(creator) => {
                    if !creator.same_as(&owner) {
                        return Err(CbmmError::KeysMismatch);
                    }
                },
            }
        },
        BurnRole::SpecificPubkey(pubkey) => {
            if !pubkey.same_as(&owner) {
                return Err(CbmmError::KeysMismatch);
            }
        },
        BurnRole::Anyone => {},
    }
    Ok(
        UserBurnAllowance::new(
            bump,
            owner,
            platform_config_key,
            payer,
            args.burn_tier_index,
            platform_config.burn_tiers_updated_at,
            now,
        ),
    )
}

} // verus!
