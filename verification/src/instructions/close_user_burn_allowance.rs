use crate::address::Address;
use crate::errors::CbmmError;
use crate::state::{UserBurnAllowance, RESET_INTERVAL_SECONDS};
use vstd::prelude::*;

verus! {

/// Decides whether a burn allowance may be closed at `now`, its rent going back to
/// `burn_allowance_open_payer`: the payer must be the one recorded in the allowance, and
/// the allowance must be unused today or its last burn a full day old.
pub fn close_user_burn_allowance(
    user_burn_allowance: &UserBurnAllowance,
    burn_allowance_open_payer: Address,
    now: i64,
) -> (r: Result<(), CbmmError>)
    requires
        i64::MIN <= now - user_burn_allowance.last_burn_timestamp <= i64::MAX,
    ensures
        burn_allowance_open_payer != user_burn_allowance.payer ==> r == Err::<(), CbmmError>(
            CbmmError::InvalidBurnAccountPayer,
        ),
        burn_allowance_open_payer == user_burn_allowance.payer ==> (r is Ok <==> (
        user_burn_allowance.burns_today == 0 || now - user_burn_allowance.last_burn_timestamp
            >= RESET_INTERVAL_SECONDS)),
        r is Err ==> r == Err::<(), CbmmError>(CbmmError::InvalidBurnAccountPayer) || r == Err::<
            (),
            CbmmError,
        >(CbmmError::CannotCloseActiveBurnAllowance),
{
    if !burn_allowance_open_payer.same_as(&user_burn_allowance.payer) {
        return Err(CbmmError::InvalidBurnAccountPayer);
    }
    let time_since_last_burn = now - user_burn_allowance.last_burn_timestamp;
    if !(user_burn_allowance.burns_today == 0 || time_since_last_burn >= RESET_INTERVAL_SECONDS) {
        return Err(CbmmError::CannotCloseActiveBurnAllowance);
    }
    Ok(())
}

} // verus!
