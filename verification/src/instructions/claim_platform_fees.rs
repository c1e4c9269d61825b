use crate::address::Address;
use crate::errors::CbmmError;
use crate::state::{CbmmPool, PlatformConfig};
use vstd::prelude::*;

verus! {

/// Hands the pool's platform fees to the platform's admin: the balance is emptied and the
/// amount returned is what the caller moves from the pool to the admin (nothing when the
/// balance is already empty). Only the platform's admin may claim.
pub fn claim_platform_fees(pool: &mut CbmmPool, platform_config: &PlatformConfig, admin: Address) -> (r:
    Result<u64, CbmmError>)
    ensures
        admin != platform_config.admin ==> r == Err::<u64, CbmmError>(
            CbmmError::InvalidPlatformAdmin,
        ) && *final(pool) == *old(pool),
        admin == platform_config.admin ==> r == Ok::<u64, CbmmError>(old(pool).platform_fees_balance)
            && *final(pool) == (CbmmPool { platform_fees_balance: 0, ..*old(pool) }),
{
    if !admin.same_as(&platform_config.admin) {
        return Err(CbmmError::InvalidPlatformAdmin);
    }
    let amount = pool.platform_fees_balance;
    if amount == 0 {
        return Ok(0);  // No-op
    }
    pool.platform_fees_balance = 0;
    Ok(amount)
}

} // verus!
