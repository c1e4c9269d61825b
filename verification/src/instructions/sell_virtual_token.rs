use crate::address::Address;
use crate::errors::CbmmError;
use crate::state::{CbmmPool, VirtualTokenAccount};
use vstd::prelude::*;

verus! {

/// What a sell reports.
#[derive(Debug, Clone, Copy)]
pub struct SellEvent {
    pub base_input: u64,
    pub quote_output: u64,
    pub fees: u64,
    pub topup_paid: u64,
    pub new_base_reserve: u64,
    pub new_quote_reserve: u64,
    pub seller: Address,
    pub pool: Address,
}

#[derive(Debug, Clone, Copy)]
pub struct SellVirtualTokenArgs {
    pub base_amount: u64,
    pub min_quote_amount: u64,
}

/// A sell neither divides by zero, overflows 128 bits, nor panics on the fees.
pub open spec fn sell_defined(pool: CbmmPool, vta: VirtualTokenAccount, args: SellVirtualTokenArgs) -> bool {
    vta.balance >= args.base_amount ==> {
        &&& pool.base_to_quote_defined(args.base_amount)
        &&& match pool.spec_base_to_quote(args.base_amount) {
            (swapped, Ok(swap)) => {
                &&& !swapped.collect_fees_panics(swap.quote_amount)
                &&& match swapped.spec_collect_fees(swap.quote_amount) {
                    (collected, Ok(net_output)) => (net_output > 0 && net_output
                        >= args.min_quote_amount) ==> collected.topup_defined(),
                    _ => true,
                }
            },
            _ => true,
        }
    }
}

/// Whether a sell stays clear of the arithmetic that cannot be carried out: a division by
/// zero or 128-bit overflow on the curve, a zero rate in the fee check, an overflowing
/// balance, fees above the output, or a division by zero in the top-up.
pub fn sell_is_defined(pool: &CbmmPool, vta: &VirtualTokenAccount, args: &SellVirtualTokenArgs) -> (b:
    bool)
    ensures
        b == sell_defined(*pool, *vta, *args),
{
    if vta.balance < args.base_amount {
        return true;
    }
    if !pool.base_to_quote_is_defined(args.base_amount) {
        return false;
    }
    let mut swapped = *pool;
    let swap = match swapped.base_to_quote(args.base_amount) {
        Ok(v) => v,
        Err(_) => return true,
    };
    if !swapped.collect_fees_is_defined(swap.quote_amount) {
        return false;
    }
    let mut collected = swapped;
    let net_output = match collected.collect_fees(swap.quote_amount) {
        Ok(v) => v,
        Err(_) => return true,
    };
    if net_output > 0 && net_output >= args.min_quote_amount {
        collected.topup_is_defined()
    } else {
        true
    }
}

/// The pool, the seller's virtual account and the outcome of a sell: the base amount
/// is swapped along the curve, the fees are taken from the quote output, the pool is
/// topped up and the seller's account pays the base amount. A sell beyond the balance,
/// of a net output of nothing, or below the seller's minimum, fails. A failed sell
/// leaves the pool and the account as they were.
pub open spec fn spec_sell(
    pool: CbmmPool,
    vta: VirtualTokenAccount,
    args: SellVirtualTokenArgs,
    seller: Address,
    pool_key: Address,
) -> (CbmmPool, VirtualTokenAccount, Result<SellEvent, CbmmError>) {
    if vta.balance < args.base_amount {
        (pool, vta, Err(CbmmError::InsufficientVirtualTokenBalance))
    } else {
        let (swapped, swap) = pool.spec_base_to_quote(args.base_amount);
        match swap {
            Err(e) => (pool, vta, Err(e)),
            Ok(swap) => {
                let gross_output = swap.quote_amount;
                let (collected, net_output) = swapped.spec_collect_fees(gross_output);
                match net_output {
                    Err(e) => (pool, vta, Err(e)),
                    Ok(net_output) => {
                        if net_output == 0 {
                            (pool, vta, Err(CbmmError::AmountTooSmall))
                        } else if net_output < args.min_quote_amount {
                            (pool, vta, Err(CbmmError::SlippageExceeded))
                        } else {
                            let (topped, topup_amount) = collected.spec_topup();
                            match topup_amount {
                                Err(e) => (pool, vta, Err(e)),
                                Ok(topup_amount) => {
                                    let debited = VirtualTokenAccount {
                                        balance: (vta.balance - args.base_amount) as u64,
                                        ..vta
                                    };
                                    (
                                        topped,
                                        debited,
                                        Ok(
                                            SellEvent {
                                                base_input: args.base_amount,
                                                quote_output: net_output,
                                                fees: (gross_output - net_output) as u64,
                                                topup_paid: topup_amount,
                                                new_base_reserve: topped.base_reserve,
                                                new_quote_reserve: topped.quote_reserve,
                                                seller,
                                                pool: pool_key,
                                            },
                                        ),
                                    )
                                },
                            }
                        }
                    },
                }
            },
        }
    }
}

/// Sells `args.base_amount` virtual tokens. The caller moves the event's `quote_output`
/// from the pool to the seller when this succeeds.
pub fn sell_virtual_token(
    pool: &mut CbmmPool,
    virtual_token_account: &mut VirtualTokenAccount,
    args: SellVirtualTokenArgs,
    seller: Address,
    pool_key: Address,
) -> (r: Result<SellEvent, CbmmError>)
    requires
        sell_defined(*old(pool), *old(virtual_token_account), args),
    ensures
        (*final(pool), *final(virtual_token_account), r) == spec_sell(
            *old(pool),
            *old(virtual_token_account),
            args,
            seller,
            pool_key,
        ),
{
    // The sell works on copies, which replace the accounts only when it succeeds.
    let mut p = *pool;
    let mut account = *virtual_token_account;
    if !(account.balance >= args.base_amount) {
        return Err(CbmmError::InsufficientVirtualTokenBalance);
    }
    // Calculate swap

    let swap_result = match p.base_to_quote(args.base_amount) {
        Ok(v) => v,
        Err(e) => return Err(e),
    };
    let gross_output = swap_result.quote_amount;

    // Calculate fees on output
    let net_output = match p.collect_fees(gross_output) {
        Ok(v) => v,
        Err(e) => return Err(e),
    };
    if !(net_output > 0) {
        return Err(CbmmError::AmountTooSmall);
    }
    if !(net_output >= args.min_quote_amount) {
        return Err(CbmmError::SlippageExceeded);
    }
    let fees = gross_output - net_output;
    let topup_amount = match p.topup() {
        Ok(v) => v,
        Err(e) => return Err(e),
    };

    // Update user virtual balance
    match account.sub(args.base_amount) {
        Ok(()) => {},
        Err(e) => return Err(e),
    }
    *pool = p;
    *virtual_token_account = account;
    Ok(
        SellEvent {
            base_input: args.base_amount,
            quote_output: net_output,
            fees,
            topup_paid: topup_amount,
            new_base_reserve: pool.base_reserve,
            new_quote_reserve: pool.quote_reserve,
            seller,
            pool: pool_key,
        },
    )
}

} // verus!
