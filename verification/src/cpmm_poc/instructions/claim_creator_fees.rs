use crate::address::Address;
use crate::cpmm_poc::errors::BcpmmError;
use crate::cpmm_poc::state::BcpmmPool;
use vstd::prelude::*;

verus! {

#[derive(Debug, Clone, Copy)]
pub struct ClaimCreatorFeesArgs {
    pub amount: u64,
}

/// Pays `args.amount` of the creator fees out to the pool's creator: the caller moves the
/// returned amount from the pool to `owner` when this succeeds.
pub fn claim_creator_fees(pool: &mut BcpmmPool, owner: Address, args: ClaimCreatorFeesArgs) -> (r:
    Result<u64, BcpmmError>)
    ensures
        owner != old(pool).creator ==> r == Err::<u64, BcpmmError>(BcpmmError::InvalidPoolOwner),
        owner == old(pool).creator && args.amount > old(pool).creator_fees_balance ==> r == Err::<
            u64,
            BcpmmError,
        >(BcpmmError::InsufficientVirtualTokenBalance),
        owner == old(pool).creator && args.amount <= old(pool).creator_fees_balance && args.amount
            == 0 ==> r == Err::<u64, BcpmmError>(BcpmmError::AmountTooSmall),
        r is Err ==> *final(pool) == *old(pool),
        r is Ok <==> (owner == old(pool).creator && 0 < args.amount <= old(
            pool,
        ).creator_fees_balance),
        r is Ok ==> r == Ok::<u64, BcpmmError>(args.amount) && *final(pool) == (BcpmmPool {
            creator_fees_balance: (old(pool).creator_fees_balance - args.amount) as u64,
            ..*old(pool)
        }),
{
    if !owner.same_as(&pool.creator) {
        return Err(BcpmmError::InvalidPoolOwner);
    }
    if !(args.amount <= pool.creator_fees_balance) {
        return Err(BcpmmError::InsufficientVirtualTokenBalance);
    }
    if !(args.amount > 0) {
        return Err(BcpmmError::AmountTooSmall);
    }
    // Subtract the claimed amount and transfer to owner

    pool.creator_fees_balance = pool.creator_fees_balance - args.amount;
    Ok(args.amount)
}

} // verus!
