use crate::address::Address;
use crate::errors::CbmmError;
use crate::state::{CbmmPool, VirtualTokenAccount};
use vstd::prelude::*;

verus! {

/// What a buy reports.
#[derive(Debug, Clone, Copy)]
pub struct BuyEvent {
    pub quote_input: u64,
    pub base_output: u64,
    pub fees: u64,
    pub topup_paid: u64,
    pub new_base_reserve: u64,
    pub new_quote_reserve: u64,
    pub buyer: Address,
    pub pool: Address,
}

#[derive(Debug, Clone, Copy)]
pub struct BuyVirtualTokenArgs {
    /// quote_amount is the amount of Mint A to swap for Mint B. Includes decimals.
    pub quote_amount: u64,
    /// The minimum amount of Mint B to receive. If below this, the transaction will fail.
    pub base_amount_min: u64,
}

/// A buy neither panics on the fee computation nor divides by zero.
pub open spec fn buy_defined(pool: CbmmPool, args: BuyVirtualTokenArgs) -> bool {
    &&& !pool.collect_fees_panics(args.quote_amount)
    &&& match pool.spec_collect_fees(args.quote_amount) {
        (collected, Ok(amount_after_fees)) => {
            &&& collected.topup_defined()
            &&& match collected.spec_topup() {
                (topped, Ok(_)) => topped.quote_reserve + topped.quote_virtual_reserve
                    + amount_after_fees > 0,
                _ => true,
            }
        },
        _ => true,
    }
}

/// Whether a buy stays clear of the arithmetic that cannot be carried out: a zero rate in
/// the fee check, an overflowing balance, fees above the amount, or a division by zero in
/// the top-up or on the curve.
pub fn buy_is_defined(pool: &CbmmPool, args: &BuyVirtualTokenArgs) -> (b: bool)
    ensures
        b == buy_defined(*pool, *args),
{
    if !pool.collect_fees_is_defined(args.quote_amount) {
        return false;
    }
    let mut collected = *pool;
    let amount_after_fees = match collected.collect_fees(args.quote_amount) {
        Ok(v) => v,
        Err(_) => return true,
    };
    if !collected.topup_is_defined() {
        return false;
    }
    let mut topped = collected;
    match topped.topup() {
        Ok(_) => {},
        Err(_) => return true,
    }
    topped.quote_reserve as u128 + topped.quote_virtual_reserve as u128 + amount_after_fees as u128
        > 0
}

/// The pool, the buyer's virtual account and the outcome of a buy: the fees are taken
/// first, then the pool is topped up, then the rest of the quote amount buys base
/// tokens, which the buyer's account receives. A buy of nothing, or of less than the
/// buyer's minimum, fails. A failed buy leaves the pool and the account as they were.
pub open spec fn spec_buy(
    pool: CbmmPool,
    vta: VirtualTokenAccount,
    args: BuyVirtualTokenArgs,
    buyer: Address,
    pool_key: Address,
) -> (CbmmPool, VirtualTokenAccount, Result<BuyEvent, CbmmError>) {
    let (collected, amount_after_fees) = pool.spec_collect_fees(args.quote_amount);
    match amount_after_fees {
        Err(e) => (pool, vta, Err(e)),
        Ok(amount_after_fees) => {
            let (topped, topup_amount) = collected.spec_topup();
            match topup_amount {
                Err(e) => (pool, vta, Err(e)),
                Ok(topup_amount) => {
                    let (swapped, exchange) = topped.spec_quote_to_base(amount_after_fees);
                    match exchange {
                        Err(e) => (pool, vta, Err(e)),
                        Ok(exchange) => {
                            let output_amount = exchange.base_amount;
                            if vta.balance + output_amount > u64::MAX {
                                (pool, vta, Err(CbmmError::MathOverflow))
                            } else {
                                let credited = VirtualTokenAccount {
                                    balance: (vta.balance + output_amount) as u64,
                                    ..vta
                                };
                                if output_amount == 0 {
                                    (pool, vta, Err(CbmmError::AmountTooSmall))
                                } else if output_amount < args.base_amount_min {
                                    (pool, vta, Err(CbmmError::SlippageExceeded))
                                } else {
                                    (
                                        swapped,
                                        credited,
                                        Ok(
                                            BuyEvent {
                                                quote_input: args.quote_amount,
                                                base_output: output_amount,
                                                fees: (args.quote_amount
                                                    - exchange.quote_amount) as u64,
                                                topup_paid: topup_amount,
                                                new_base_reserve: swapped.base_reserve,
                                                new_quote_reserve: swapped.quote_reserve,
                                                buyer,
                                                pool: pool_key,
                                            },
                                        ),
                                    )
                                }
                            }
                        },
                    }
                },
            }
        },
    }
}

/// Buys virtual tokens for `args.quote_amount` of the quote token. The caller moves the
/// whole quote amount from the buyer to the pool when this succeeds.
pub fn buy_virtual_token(
    pool: &mut CbmmPool,
    virtual_token_account: &mut VirtualTokenAccount,
    args: BuyVirtualTokenArgs,
    buyer: Address,
    pool_key: Address,
) -> (r: Result<BuyEvent, CbmmError>)
    requires
        buy_defined(*old(pool), args),
    ensures
        (*final(pool), *final(virtual_token_account), r) == spec_buy(
            *old(pool),
            *old(virtual_token_account),
            args,
            buyer,
            pool_key,
        ),
{
    // The buy works on copies, which replace the accounts only when it succeeds.
    let mut p = *pool;
    let mut account = *virtual_token_account;
    // Topup before trade for more impact on price curve
    let amount_after_fees = match p.collect_fees(args.quote_amount) {
        Ok(v) => v,
        Err(e) => return Err(e),
    };
    let topup_amount = match p.topup() {
        Ok(v) => v,
        Err(e) => return Err(e),
    };
    let exchange_rate = match p.quote_to_base(amount_after_fees) {
        Ok(v) => v,
        Err(e) => return Err(e),
    };
    let output_amount = exchange_rate.base_amount;
    match account.add(output_amount) {
        Ok(()) => {},
        Err(e) => return Err(e),
    }
    if !(output_amount > 0) {
        return Err(CbmmError::AmountTooSmall);
    }
    if !(output_amount >= args.base_amount_min) {
        return Err(CbmmError::SlippageExceeded);
    }
    *pool = p;
    *virtual_token_account = account;
    Ok(
        BuyEvent {
            quote_input: args.quote_amount,
            base_output: output_amount,
            fees: args.quote_amount - exchange_rate.quote_amount,
            topup_paid: topup_amount,
            new_base_reserve: pool.base_reserve,
            new_quote_reserve: pool.quote_reserve,
            buyer,
            pool: pool_key,
        },
    )
}

} // verus!
