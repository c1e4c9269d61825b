use crate::address::Address;
use crate::cpmm_poc::errors::BcpmmError;
use crate::cpmm_poc::state::{BcpmmPool, CentralState};
use vstd::prelude::*;

verus! {

#[derive(Debug, Clone, Copy)]
pub struct CreatePoolArgs {
    /// a_virtual_reserve is the virtual reserve of the A mint including decimals
    pub a_virtual_reserve: u64,
    /// creator_fee_basis_points is the fee basis points for the creator.
    pub creator_fee_basis_points: u16,
    /// buyback_fee_basis_points is the fee basis points for the buyback.
    pub buyback_fee_basis_points: u16,
}

/// A new pool of `payer`, whose virtual B takes the next index of the central state.
pub fn create_pool(
    central_state: &mut CentralState,
    bump: u8,
    payer: Address,
    a_mint: Address,
    args: CreatePoolArgs,
) -> (r: Result<BcpmmPool, BcpmmError>)
    requires
        args.a_virtual_reserve > 0 && args.buyback_fee_basis_points > 0 ==> old(
            central_state,
        ).b_mint_index < u64::MAX,
    ensures
        args.a_virtual_reserve == 0 ==> r == Err::<BcpmmPool, BcpmmError>(
            BcpmmError::InvalidVirtualReserve,
        ),
        args.a_virtual_reserve > 0 && args.buyback_fee_basis_points == 0 ==> r == Err::<
            BcpmmPool,
            BcpmmError,
        >(BcpmmError::InvalidBuybackFeeBasisPoints),
        r is Err ==> *final(central_state) == *old(central_state),
        r matches Ok(pool) ==> {
            &&& args.a_virtual_reserve > 0 && args.buyback_fee_basis_points > 0
            &&& pool.bump == bump && pool.creator == payer && pool.a_mint == a_mint
            &&& pool.a_virtual_reserve == args.a_virtual_reserve
            &&& pool.b_mint_index == old(central_state).b_mint_index
            &&& pool.creator_fee_basis_points == args.creator_fee_basis_points
            &&& pool.buyback_fee_basis_points == args.buyback_fee_basis_points
            &&& pool.a_reserve == 0 && pool.a_remaining_topup == 0
            &&& pool.b_reserve == crate::cpmm_poc::state::DEFAULT_B_MINT_RESERVE
            &&& pool.b_mint_decimals == crate::cpmm_poc::state::DEFAULT_B_MINT_DECIMALS
            &&& pool.creator_fees_balance == 0 && pool.buyback_fees_balance == 0
            &&& pool.burns_today == 0 && pool.last_burn_timestamp == 0
            &&& *final(central_state) == (CentralState {
                b_mint_index: (old(central_state).b_mint_index + 1) as u64,
                ..*old(central_state)
            })
        },
        args.a_virtual_reserve > 0 && args.buyback_fee_basis_points > 0 ==> r is Ok,
{
    let pool = match BcpmmPool::try_new(
        bump,
        payer,
        a_mint,
        args.a_virtual_reserve,
        central_state.b_mint_index,
        args.creator_fee_basis_points,
        args.buyback_fee_basis_points,
    ) {
        Ok(pool) => pool,
        Err(e) => return Err(e),
    };
    central_state.b_mint_index = central_state.b_mint_index + 1;
    Ok(pool)
}

} // verus!
