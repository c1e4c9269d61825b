use crate::address::Address;
use crate::cpmm_poc::errors::BcpmmError;
use crate::cpmm_poc::instructions::burn_virtual_token::spec_is_reset;
use crate::cpmm_poc::state::{
    burn_reset_defined, is_after_burn_reset_with_time, CentralState, UserBurnAllowance,
};
use vstd::prelude::*;

verus! {

#[derive(Debug, Clone, Copy)]
pub struct CloseUserBurnAllowanceArgs {
    pub pool_owner: bool,
}

/// Decides whether a burn allowance may be closed at `now`, its rent going back to
/// `burn_allowance_open_payer`: the payer must be the one recorded in the allowance, and
/// the allowance must be inactive, that is past today's reset time with its last burn
/// before it.
pub fn close_user_burn_allowance(
    user_burn_allowance: &UserBurnAllowance,
    burn_allowance_open_payer: Address,
    central_state: &CentralState,
    now: i64,
) -> (r: Result<(), BcpmmError>)
    requires
        burn_reset_defined(now, central_state.burn_reset_time_of_day_seconds),
    ensures
        burn_allowance_open_payer != user_burn_allowance.payer ==> r == Err::<(), BcpmmError>(
            BcpmmError::InvalidBurnAccountPayer,
        ),
        burn_allowance_open_payer == user_burn_allowance.payer ==> (r is Ok <==> spec_is_reset(
            user_burn_allowance.last_burn_timestamp,
            *central_state,
            now,
        )),
        r is Err ==> r == Err::<(), BcpmmError>(BcpmmError::InvalidBurnAccountPayer) || r == Err::<
            (),
            BcpmmError,
        >(BcpmmError::CannotCloseActiveBurnAllowance),
{
    if !burn_allowance_open_payer.same_as(&user_burn_allowance.payer) {
        return Err(BcpmmError::InvalidBurnAccountPayer);
    }
    // Only allow closing if the burn allowance is inactive: past the reset window and previous burn was before the reset.

    let reset_time = central_state.burn_reset_time_of_day_seconds;
    if !(is_after_burn_reset_with_time(now, now, reset_time) && !is_after_burn_reset_with_time(
        user_burn_allowance.last_burn_timestamp,
        now,
        reset_time,
    )) {
        return Err(BcpmmError::CannotCloseActiveBurnAllowance);
    }
    Ok(())
}

} // verus!
