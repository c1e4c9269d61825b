use crate::address::Address;
use crate::cpmm_poc::errors::BcpmmError;
use crate::cpmm_poc::state::VirtualTokenAccount;
use vstd::prelude::*;

verus! {

/// Decides whether `owner` may close a virtual token account: it must be the account's
/// owner, and the account must be empty.
pub fn close_virtual_token_account(virtual_token_account: &VirtualTokenAccount, owner: Address) -> (r:
    Result<(), BcpmmError>)
    ensures
        owner != virtual_token_account.owner ==> r == Err::<(), BcpmmError>(BcpmmError::InvalidOwner),
        owner == virtual_token_account.owner && virtual_token_account.balance != 0 ==> r == Err::<
            (),
            BcpmmError,
        >(BcpmmError::NonzeroBalance),
        owner == virtual_token_account.owner && virtual_token_account.balance == 0 ==> r is Ok,
{
    if !virtual_token_account.owner.same_as(&owner) {
        return Err(BcpmmError::InvalidOwner);
    }
    if !(virtual_token_account.balance == 0) {
        return Err(BcpmmError::NonzeroBalance);
    }
    Ok(())
}

} // verus!
