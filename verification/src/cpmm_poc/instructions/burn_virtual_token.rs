use crate::address::Address;
use crate::cpmm_poc::errors::BcpmmError;
use crate::cpmm_poc::helpers::calculate_new_virtual_reserve;
use crate::cpmm_poc::state::{
    burn_reset_defined, is_after_burn_reset_with_time, todays_reset_ts, BcpmmPool, CentralState,
    UserBurnAllowance,
};
use crate::helpers::math::{calculate_burn_amount, spec_burn_amount, spec_virtual_reserve_after_burn};
use vstd::prelude::*;

verus! {

/// The burn day has been reset since `last_burn_timestamp`: it is past today's reset time
/// and the last burn was before it.
pub open spec fn spec_is_reset(last_burn_timestamp: i64, central_state: CentralState, now: i64) -> bool {
    let reset_ts = todays_reset_ts(now as int, central_state.burn_reset_time_of_day_seconds as int);
    now >= reset_ts && !(last_burn_timestamp >= reset_ts)
}

/// The share burned, in basis points times 100, and the daily limit of the role.
pub open spec fn spec_burn_role(central_state: CentralState, pool_owner: bool) -> (u32, u16) {
    if pool_owner {
        (central_state.creator_burn_bp_x100, central_state.creator_daily_burn_allowance)
    } else {
        (central_state.user_burn_bp_x100, central_state.daily_burn_allowance)
    }
}

/// The pool after burning `bp_x100` parts per million of its B reserve: the virtual
/// reserve shrinks in proportion and the reduction is owed as a top-up.
pub open spec fn spec_apply_burn(pool: BcpmmPool, bp_x100: u32) -> BcpmmPool {
    let burn_amount = spec_burn_amount(bp_x100 as int, pool.b_reserve as int);
    let new_virtual_reserve = spec_virtual_reserve_after_burn(
        pool.a_virtual_reserve as int,
        pool.b_reserve as int,
        burn_amount,
    );
    BcpmmPool {
        a_remaining_topup: (pool.a_remaining_topup + (pool.a_virtual_reserve
            - new_virtual_reserve)) as u64,
        a_virtual_reserve: new_virtual_reserve as u64,
        b_reserve: (pool.b_reserve - burn_amount) as u64,
        ..pool
    }
}

/// A burn at `now` neither divides by zero nor overflows.
pub open spec fn burn_defined(
    pool: BcpmmPool,
    allowance: UserBurnAllowance,
    central_state: CentralState,
    signer: Address,
    pool_owner: bool,
    now: i64,
) -> bool {
    pool_owner == (pool.creator == signer) ==> {
        let (burn_bp_x100, max_daily_burns) = spec_burn_role(central_state, pool_owner);
        let user_reset = spec_is_reset(allowance.last_burn_timestamp, central_state, now);
        let pool_reset = spec_is_reset(pool.last_burn_timestamp, central_state, now);
        let burn_amount = spec_burn_amount(burn_bp_x100 as int, pool.b_reserve as int);
        &&& burn_reset_defined(now, central_state.burn_reset_time_of_day_seconds)
        &&& (user_reset || allowance.burns_today < max_daily_burns) ==> {
            &&& (user_reset || allowance.burns_today < u16::MAX)
            &&& (pool_reset || pool.burns_today < u16::MAX)
            &&& pool.b_reserve > 0
            &&& burn_amount <= pool.b_reserve
            &&& pool.a_remaining_topup + (pool.a_virtual_reserve - spec_virtual_reserve_after_burn(
                pool.a_virtual_reserve as int,
                pool.b_reserve as int,
                burn_amount,
            )) <= u64::MAX
        }
    }
}

/// The pool, the burner's allowance and the outcome of a burn at `now`: the burner must
/// be the pool's creator exactly when burning as pool owner; the daily counts of the
/// allowance and of the pool restart after the daily reset time; the allowance must have
/// burns left today; then the role's share of the B reserve is burned.
pub open spec fn spec_burn(
    pool: BcpmmPool,
    allowance: UserBurnAllowance,
    central_state: CentralState,
    signer: Address,
    pool_owner: bool,
    now: i64,
) -> (BcpmmPool, UserBurnAllowance, Result<(), BcpmmError>) {
    if pool_owner != (pool.creator == signer) {
        (pool, allowance, Err(BcpmmError::InvalidPoolOwner))
    } else {
        let (burn_bp_x100, max_daily_burns) = spec_burn_role(central_state, pool_owner);
        let user_reset = spec_is_reset(allowance.last_burn_timestamp, central_state, now);
        if !user_reset && allowance.burns_today >= max_daily_burns {
            (pool, allowance, Err(BcpmmError::InsufficientBurnAllowance))
        } else {
            let counted = UserBurnAllowance {
                burns_today: (if user_reset {
                    1
                } else {
                    allowance.burns_today + 1
                }) as u16,
                last_burn_timestamp: now,
                ..allowance
            };
            let pool_reset = spec_is_reset(pool.last_burn_timestamp, central_state, now);
            let pool_counted = BcpmmPool {
                burns_today: (if pool_reset {
                    1
                } else {
                    pool.burns_today + 1
                }) as u16,
                last_burn_timestamp: now,
                ..pool
            };
            (spec_apply_burn(pool_counted, burn_bp_x100), counted, Ok(()))
        }
    }
}

/// Burns, at `now`, the share of the pool that `central_state` grants to the signer's
/// role: the pool owner's share when `pool_owner`, a user's share otherwise.
pub fn burn_virtual_token(
    pool: &mut BcpmmPool,
    user_burn_allowance: &mut UserBurnAllowance,
    central_state: &CentralState,
    signer: Address,
    pool_owner: bool,
    now: i64,
) -> (r: Result<(), BcpmmError>)
    requires
        burn_defined(*old(pool), *old(user_burn_allowance), *central_state, signer, pool_owner, now),
    ensures
        (*final(pool), *final(user_burn_allowance), r) == spec_burn(
            *old(pool),
            *old(user_burn_allowance),
            *central_state,
            signer,
            pool_owner,
            now,
        ),
{
    // If burning as a pool owner, the signer must be the pool creator.
    // We are also checking if the creator is trying to burn as a user of their own pool.
    if !(pool_owner == pool.creator.same_as(&signer)) {
        return Err(BcpmmError::InvalidPoolOwner);
    }
    let burn_bp_x100 = if pool_owner {
        central_state.creator_burn_bp_x100
    } else {
        central_state.user_burn_bp_x100
    };
    let max_daily_burns = if pool_owner {
        central_state.creator_daily_burn_allowance
    } else {
        central_state.daily_burn_allowance
    };
    let reset_time = central_state.burn_reset_time_of_day_seconds;

    // Check if we should reset the daily burn count
    // We reset it if we have passed the burn reset window and previous burn was before the reset
    if is_after_burn_reset_with_time(now, now, reset_time) && !is_after_burn_reset_with_time(
        user_burn_allowance.last_burn_timestamp,
        now,
        reset_time,
    ) {
        user_burn_allowance.burns_today = 0;
        // If not resetting, check we have enough burn allowance.
    } else if user_burn_allowance.burns_today >= max_daily_burns {
        return Err(BcpmmError::InsufficientBurnAllowance);
    }
    user_burn_allowance.burns_today = user_burn_allowance.burns_today + 1;
    user_burn_allowance.last_burn_timestamp = now;

    // Check if we should reset the pool's daily burn count
    if is_after_burn_reset_with_time(now, now, reset_time) && !is_after_burn_reset_with_time(
        pool.last_burn_timestamp,
        now,
        reset_time,
    ) {
        pool.burns_today = 1;
        // Not resetting so just increment the burn count for today.
    } else {
        pool.burns_today = pool.burns_today + 1;
    }
    pool.last_burn_timestamp = now;

    let burn_amount = calculate_burn_amount(burn_bp_x100 as u64, pool.b_reserve);
    let new_virtual_reserve = calculate_new_virtual_reserve(
        pool.a_virtual_reserve,
        pool.b_reserve,
        burn_amount,
    );

    // Update the pool state
    pool.a_remaining_topup = pool.a_remaining_topup + (pool.a_virtual_reserve
        - new_virtual_reserve);
    pool.a_virtual_reserve = new_virtual_reserve;
    pool.b_reserve = pool.b_reserve - burn_amount;
    Ok(())
}

} // verus!
