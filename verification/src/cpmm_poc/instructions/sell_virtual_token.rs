use crate::cpmm_poc::errors::BcpmmError;
use crate::cpmm_poc::helpers::{
    calculate_fees, calculate_fees_divides_by_zero, calculate_sell_output_amount,
    spec_calculate_fees,
};
use crate::cpmm_poc::state::{
    route_buyback_defined, route_buyback_fees, spec_route_buyback, BcpmmPool, VirtualTokenAccount,
};
use crate::helpers::math::spec_sell_output_amount;
use vstd::prelude::*;

verus! {

#[derive(Debug, Clone, Copy)]
pub struct SellVirtualTokenArgs {
    pub b_amount: u64,
}

/// The A paid for a sell of `b_amount`, truncated to 64 bits as the computation does.
pub open spec fn sell_output(pool: BcpmmPool, b_amount: u64) -> u64 {
    spec_sell_output_amount(
        b_amount as int,
        pool.b_reserve as int,
        pool.a_reserve as int,
        pool.a_virtual_reserve as int,
    ) as u64
}

/// The pool after the swap of a sell: A paid out of the A reserve, B back into the B
/// reserve.
pub open spec fn spec_sell_swapped(pool: BcpmmPool, b_amount: u64) -> BcpmmPool {
    BcpmmPool {
        a_reserve: (pool.a_reserve - sell_output(pool, b_amount)) as u64,
        b_reserve: (pool.b_reserve + b_amount) as u64,
        ..pool
    }
}

/// A sell neither divides by zero nor overflows.
pub open spec fn sell_defined(pool: BcpmmPool, vta: VirtualTokenAccount, args: SellVirtualTokenArgs) -> bool {
    vta.balance >= args.b_amount ==> {
        let output_amount = sell_output(pool, args.b_amount);
        &&& pool.b_reserve + args.b_amount > 0
        &&& args.b_amount * (pool.a_reserve + pool.a_virtual_reserve) <= u128::MAX
        &&& pool.a_reserve >= output_amount ==> {
            &&& pool.b_reserve + args.b_amount <= u64::MAX
            &&& !calculate_fees_divides_by_zero(
                output_amount,
                pool.creator_fee_basis_points,
                pool.buyback_fee_basis_points,
            )
            &&& match spec_calculate_fees(
                output_amount,
                pool.creator_fee_basis_points,
                pool.buyback_fee_basis_points,
            ) {
                Ok(fees) => {
                    let swapped = spec_sell_swapped(pool, args.b_amount);
                    &&& vta.fees_paid + fees.creator_fees_amount + fees.buyback_fees_amount
                        <= u64::MAX
                    &&& pool.creator_fees_balance + fees.creator_fees_amount <= u64::MAX
                    &&& route_buyback_defined(
                        BcpmmPool {
                            creator_fees_balance: (swapped.creator_fees_balance
                                + fees.creator_fees_amount) as u64,
                            ..swapped
                        },
                        fees.buyback_fees_amount,
                    )
                    &&& fees.creator_fees_amount + fees.buyback_fees_amount <= output_amount
                },
                Err(_) => true,
            }
        }
    }
}

/// The pool, the seller's account and the outcome of a sell of `args.b_amount`: B goes
/// back to the pool for A along the curve, the fees on the A paid are credited to the
/// creator, routed as buyback and recorded in the account, and the seller receives the
/// rest, which is the result. A failed sell leaves the pool and the account as they were.
pub open spec fn spec_sell(pool: BcpmmPool, vta: VirtualTokenAccount, args: SellVirtualTokenArgs) -> (
    BcpmmPool,
    VirtualTokenAccount,
    Result<u64, BcpmmError>,
) {
    if vta.balance < args.b_amount {
        (pool, vta, Err(BcpmmError::InsufficientVirtualTokenBalance))
    } else {
        let output_amount = sell_output(pool, args.b_amount);
        if pool.a_reserve < output_amount {
            (pool, vta, Err(BcpmmError::InvalidNumericConversion))
        } else {
            let swapped = spec_sell_swapped(pool, args.b_amount);
            let debited = VirtualTokenAccount {
                balance: (vta.balance - args.b_amount) as u64,
                ..vta
            };
            match spec_calculate_fees(
                output_amount,
                pool.creator_fee_basis_points,
                pool.buyback_fee_basis_points,
            ) {
                Err(e) => (pool, vta, Err(e)),
                Ok(fees) => (
                    spec_route_buyback(
                        BcpmmPool {
                            creator_fees_balance: (swapped.creator_fees_balance
                                + fees.creator_fees_amount) as u64,
                            ..swapped
                        },
                        fees.buyback_fees_amount,
                    ),
                    VirtualTokenAccount {
                        fees_paid: (debited.fees_paid + fees.creator_fees_amount
                            + fees.buyback_fees_amount) as u64,
                        ..debited
                    },
                    Ok(
                        (output_amount - fees.creator_fees_amount
                            - fees.buyback_fees_amount) as u64,
                    ),
                ),
            }
        }
    }
}

/// Sells `args.b_amount` of B. The caller moves the returned amount of A from the pool to
/// the seller when this succeeds.
pub fn sell_virtual_token(
    pool: &mut BcpmmPool,
    virtual_token_account: &mut VirtualTokenAccount,
    args: SellVirtualTokenArgs,
) -> (r: Result<u64, BcpmmError>)
    requires
        sell_defined(*old(pool), *old(virtual_token_account), args),
    ensures
        (*final(pool), *final(virtual_token_account), r) == spec_sell(
            *old(pool),
            *old(virtual_token_account),
            args,
        ),
{
    if !(virtual_token_account.balance >= args.b_amount) {
        return Err(BcpmmError::InsufficientVirtualTokenBalance);
    }
    let output_amount = calculate_sell_output_amount(
        args.b_amount,
        pool.b_reserve,
        pool.a_reserve,
        pool.a_virtual_reserve,
    );

    // prevent underflow on a_reserve
    if !(pool.a_reserve >= output_amount) {
        return Err(BcpmmError::InvalidNumericConversion);
    }
    // The fees are computed before anything is moved, so that a refused sell changes nothing.
    let fees = match calculate_fees(
        output_amount,
        pool.creator_fee_basis_points,
        pool.buyback_fee_basis_points,
    ) {
        Ok(fees) => fees,
        Err(e) => return Err(e),
    };
    virtual_token_account.balance = virtual_token_account.balance - args.b_amount;
    pool.a_reserve = pool.a_reserve - output_amount;
    pool.b_reserve = pool.b_reserve + args.b_amount;
    virtual_token_account.fees_paid = virtual_token_account.fees_paid + (fees.creator_fees_amount
        + fees.buyback_fees_amount);
    pool.creator_fees_balance = pool.creator_fees_balance + fees.creator_fees_amount;
    route_buyback_fees(pool, fees.buyback_fees_amount);

    let output_amount_less_fees = output_amount - fees.creator_fees_amount
        - fees.buyback_fees_amount;
    Ok(output_amount_less_fees)
}

} // verus!
