use crate::cpmm_poc::errors::BcpmmError;
use crate::cpmm_poc::helpers::{
    calculate_buy_output_amount, calculate_fees, calculate_fees_divides_by_zero,
    spec_calculate_fees,
};
use crate::cpmm_poc::state::{
    route_buyback_defined, route_buyback_fees, spec_route_buyback, BcpmmPool, VirtualTokenAccount,
};
use crate::helpers::math::spec_buy_output_amount;
use vstd::prelude::*;

verus! {

#[derive(Debug, Clone, Copy)]
pub struct BuyVirtualTokenArgs {
    /// a_amount is the amount of Mint A to swap for Mint B. Includes decimals.
    pub a_amount: u64,
    /// The minimum amount of Mint B to receive. If below this, the transaction will fail.
    pub b_amount_min: u64,
}

/// The pool with the amount after fees added to the A reserve, the bought B taken from
/// the B reserve and the creator fee credited.
pub open spec fn spec_buy_pool_before_routing(
    pool: BcpmmPool,
    swap_amount: int,
    output_amount: int,
    creator_fees_amount: int,
) -> BcpmmPool {
    BcpmmPool {
        a_reserve: (pool.a_reserve + swap_amount) as u64,
        b_reserve: (pool.b_reserve - output_amount) as u64,
        creator_fees_balance: (pool.creator_fees_balance + creator_fees_amount) as u64,
        ..pool
    }
}

/// A buy neither divides by zero nor overflows.
pub open spec fn buy_defined(pool: BcpmmPool, vta: VirtualTokenAccount, args: BuyVirtualTokenArgs) -> bool {
    &&& !calculate_fees_divides_by_zero(
        args.a_amount,
        pool.creator_fee_basis_points,
        pool.buyback_fee_basis_points,
    )
    &&& match spec_calculate_fees(
        args.a_amount,
        pool.creator_fee_basis_points,
        pool.buyback_fee_basis_points,
    ) {
        Ok(fees) => {
            let swap_amount = args.a_amount - fees.creator_fees_amount - fees.buyback_fees_amount;
            let output_amount = spec_buy_output_amount(
                swap_amount,
                pool.a_reserve as int,
                pool.b_reserve as int,
                pool.a_virtual_reserve as int,
            );
            &&& swap_amount >= 0
            &&& pool.a_reserve + pool.a_virtual_reserve + swap_amount > 0
            &&& (output_amount > 0 && output_amount >= args.b_amount_min) ==> {
                &&& vta.balance + output_amount <= u64::MAX
                &&& vta.fees_paid + fees.creator_fees_amount + fees.buyback_fees_amount <= u64::MAX
                &&& pool.a_reserve + swap_amount <= u64::MAX
                &&& pool.creator_fees_balance + fees.creator_fees_amount <= u64::MAX
                &&& route_buyback_defined(
                    spec_buy_pool_before_routing(
                        pool,
                        swap_amount,
                        output_amount,
                        fees.creator_fees_amount as int,
                    ),
                    fees.buyback_fees_amount,
                )
            }
        },
        Err(_) => true,
    }
}

/// The pool, the buyer's account and the outcome of a buy of `args.a_amount`: the fees
/// are taken, the rest buys B along the curve, the account receives it and records the
/// fees, and the buyback fee is routed.
pub open spec fn spec_buy(pool: BcpmmPool, vta: VirtualTokenAccount, args: BuyVirtualTokenArgs) -> (
    BcpmmPool,
    VirtualTokenAccount,
    Result<(), BcpmmError>,
) {
    match spec_calculate_fees(
        args.a_amount,
        pool.creator_fee_basis_points,
        pool.buyback_fee_basis_points,
    ) {
        Err(e) => (pool, vta, Err(e)),
        Ok(fees) => {
            let swap_amount = args.a_amount - fees.creator_fees_amount - fees.buyback_fees_amount;
            let output_amount = spec_buy_output_amount(
                swap_amount,
                pool.a_reserve as int,
                pool.b_reserve as int,
                pool.a_virtual_reserve as int,
            );
            if output_amount == 0 {
                (pool, vta, Err(BcpmmError::AmountTooSmall))
            } else if output_amount < args.b_amount_min {
                (pool, vta, Err(BcpmmError::SlippageExceeded))
            } else {
                (
                    spec_route_buyback(
                        spec_buy_pool_before_routing(
                            pool,
                            swap_amount,
                            output_amount,
                            fees.creator_fees_amount as int,
                        ),
                        fees.buyback_fees_amount,
                    ),
                    VirtualTokenAccount {
                        balance: (vta.balance + output_amount) as u64,
                        fees_paid: (vta.fees_paid + fees.creator_fees_amount
                            + fees.buyback_fees_amount) as u64,
                        ..vta
                    },
                    Ok(()),
                )
            }
        },
    }
}

/// Buys B for `args.a_amount` of A. The caller moves the whole amount of A from the
/// buyer to the pool when this succeeds.
pub fn buy_virtual_token(
    pool: &mut BcpmmPool,
    virtual_token_account: &mut VirtualTokenAccount,
    args: BuyVirtualTokenArgs,
) -> (r: Result<(), BcpmmError>)
    requires
        buy_defined(*old(pool), *old(virtual_token_account), args),
    ensures
        (*final(pool), *final(virtual_token_account), r) == spec_buy(
            *old(pool),
            *old(virtual_token_account),
            args,
        ),
{
    let fees = match calculate_fees(
        args.a_amount,
        pool.creator_fee_basis_points,
        pool.buyback_fee_basis_points,
    ) {
        Ok(fees) => fees,
        Err(e) => return Err(e),
    };

    let swap_amount = args.a_amount - fees.creator_fees_amount - fees.buyback_fees_amount;

    let output_amount = calculate_buy_output_amount(
        swap_amount,
        pool.a_reserve,
        pool.b_reserve,
        pool.a_virtual_reserve,
    );

    if output_amount == 0 {
        return Err(BcpmmError::AmountTooSmall);
    }
    if output_amount < args.b_amount_min {
        return Err(BcpmmError::SlippageExceeded);
    }
    virtual_token_account.balance = virtual_token_account.balance + output_amount;
    virtual_token_account.fees_paid = virtual_token_account.fees_paid + (fees.creator_fees_amount
        + fees.buyback_fees_amount);
    pool.a_reserve = pool.a_reserve + swap_amount;
    pool.b_reserve = pool.b_reserve - output_amount;
    pool.creator_fees_balance = pool.creator_fees_balance + fees.creator_fees_amount;
    route_buyback_fees(pool, fees.buyback_fees_amount);
    Ok(())
}

} // verus!
