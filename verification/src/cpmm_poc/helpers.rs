use crate::cpmm_poc::errors::BcpmmError;
use crate::helpers::math::{
    fee_amount, lemma_fee_amount_bounds, lemma_scaled_down_le, spec_buy_output_amount,
    spec_sell_output_amount, spec_virtual_reserve_after_burn,
};
use vstd::prelude::*;

verus! {

/// The fees taken from one trade, each denominated in the real token A.
#[derive(Debug, Clone, Copy, PartialEq, Eq, Structural)]
pub struct Fees {
    pub creator_fees_amount: u64,
    pub buyback_fees_amount: u64,
}

/// The inputs on which the overflow check of `calculate_fees` divides by a zero rate:
/// it checks the creator rate, then the buyback rate, and stops at the first that fails.
pub open spec fn calculate_fees_divides_by_zero(a_amount: u64, creator_bp: u16, buyback_bp: u16) -> bool {
    &&& creator_bp <= 10000
    &&& buyback_bp <= 10000
    &&& (creator_bp == 0 || (u64::MAX / (creator_bp as u64) >= a_amount && buyback_bp == 0))
}

pub open spec fn spec_calculate_fees(a_amount: u64, creator_bp: u16, buyback_bp: u16) -> Result<
    Fees,
    BcpmmError,
> {
    if creator_bp > 10000 || buyback_bp > 10000 {
        Err(BcpmmError::InvalidFeeBasisPoints)
    } else if u64::MAX / (creator_bp as u64) < a_amount || u64::MAX / (buyback_bp as u64)
        < a_amount {
        Err(BcpmmError::AmountTooBig)
    } else {
        Ok(
            Fees {
                creator_fees_amount: fee_amount(a_amount as int, creator_bp as int) as u64,
                buyback_fees_amount: fee_amount(a_amount as int, buyback_bp as int) as u64,
            },
        )
    }
}

/// Splits a trade amount into creator and buyback fees, each rounded up.
pub fn calculate_fees(a_amount: u64, creator_fee_basis_points: u16, buyback_fee_basis_points: u16) -> (r:
    Result<Fees, BcpmmError>)
    requires
        !calculate_fees_divides_by_zero(
            a_amount,
            creator_fee_basis_points,
            buyback_fee_basis_points,
        ),
    ensures
        r == spec_calculate_fees(a_amount, creator_fee_basis_points, buyback_fee_basis_points),
        r matches Ok(fees) ==> fees.creator_fees_amount <= a_amount && fees.buyback_fees_amount
            <= a_amount,
{
    if creator_fee_basis_points > 10000 || buyback_fee_basis_points > 10000 {
        return Err(BcpmmError::InvalidFeeBasisPoints);
    }
    if u64::MAX / (creator_fee_basis_points as u64) < a_amount || u64::MAX / (
    buyback_fee_basis_points as u64) < a_amount {
        return Err(BcpmmError::AmountTooBig);
    }
    proof {
        lemma_fee_amount_bounds(a_amount as int, creator_fee_basis_points as int);
        lemma_fee_amount_bounds(a_amount as int, buyback_fee_basis_points as int);
        assert(a_amount as u128 * creator_fee_basis_points as u128 <= 0xffff_ffff_ffff_ffff_u128
            * 10000) by (nonlinear_arith)
            requires
                creator_fee_basis_points <= 10000,
        ;
        assert(a_amount as u128 * buyback_fee_basis_points as u128 <= 0xffff_ffff_ffff_ffff_u128
            * 10000) by (nonlinear_arith)
            requires
                buyback_fee_basis_points <= 10000,
        ;
    }
    // Use ceiling division for fees to avoid rounding down: ceil(x / d) = (x + d - 1) / d
    let creator_fees_amount = ((a_amount as u128 * creator_fee_basis_points as u128 + 9999)
        / 10000) as u64;
    let buyback_fees_amount = ((a_amount as u128 * buyback_fee_basis_points as u128 + 9999)
        / 10000) as u64;
    Ok(Fees { creator_fees_amount, buyback_fees_amount })
}

/// Calculates the amount of Mint B received when spending Mint A.
pub fn calculate_buy_output_amount(
    a_amount: u64,
    a_reserve: u64,
    b_reserve: u64,
    a_virtual_reserve: u64,
) -> (r: u64)
    requires
        a_reserve + a_virtual_reserve + a_amount > 0,
    ensures
        r == spec_buy_output_amount(
            a_amount as int,
            a_reserve as int,
            b_reserve as int,
            a_virtual_reserve as int,
        ),
        r <= b_reserve,
{
    proof {
        lemma_scaled_down_le(
            b_reserve as int,
            a_amount as int,
            (a_reserve + a_virtual_reserve + a_amount) as int,
        );
        assert(b_reserve as u128 * a_amount as u128 <= 0xffff_ffff_ffff_ffff_u128
            * 0xffff_ffff_ffff_ffff_u128) by (nonlinear_arith);
    }
    let numerator = b_reserve as u128 * a_amount as u128;
    let denominator = a_reserve as u128 + a_virtual_reserve as u128 + a_amount as u128;
    (numerator / denominator) as u64
}

/// Calculates the amount of Mint A received when selling Mint B. The quotient is
/// truncated to 64 bits, as the cast in the computation does.
pub fn calculate_sell_output_amount(
    b_amount: u64,
    b_reserve: u64,
    a_reserve: u64,
    a_virtual_reserve: u64,
) -> (r: u64)
    requires
        b_reserve + b_amount > 0,
        b_amount * (a_reserve + a_virtual_reserve) <= u128::MAX,
    ensures
        r == spec_sell_output_amount(
            b_amount as int,
            b_reserve as int,
            a_reserve as int,
            a_virtual_reserve as int,
        ) as u64,
{
    let numerator = b_amount as u128 * (a_reserve as u128 + a_virtual_reserve as u128);
    let denominator = b_reserve as u128 + b_amount as u128;
    (numerator / denominator) as u64
}

/// `bp` basis points of the B reserve, rounded down and truncated to 64 bits.
pub open spec fn spec_burn_amount_bp(b_amount_basis_points: int, b_reserve: int) -> int {
    b_reserve * b_amount_basis_points / 10000
}

pub fn calculate_burn_amount(b_amount_basis_points: u16, b_reserve: u64) -> (r: u64)
    ensures
        r == spec_burn_amount_bp(b_amount_basis_points as int, b_reserve as int) as u64,
        b_amount_basis_points <= 10000 ==> r == spec_burn_amount_bp(
            b_amount_basis_points as int,
            b_reserve as int,
        ) && r <= b_reserve,
{
    proof {
        assert(b_reserve as u128 * b_amount_basis_points as u128 <= 0xffff_ffff_ffff_ffff_u128
            * 0xffff_u128) by (nonlinear_arith)
            requires
                b_amount_basis_points <= 0xffff,
        ;
        if b_amount_basis_points <= 10000 {
            lemma_scaled_down_le(b_reserve as int, b_amount_basis_points as int, 10000);
        }
    }
    (b_reserve as u128 * b_amount_basis_points as u128 / 10000 as u128) as u64
}

/// The virtual reserve scaled by the share of the B reserve that survives a burn,
/// rounded down.
pub fn calculate_new_virtual_reserve(a_virtual_reserve: u64, b_reserve: u64, b_burn_amount: u64) -> (r:
    u64)
    requires
        b_burn_amount <= b_reserve,
        b_reserve > 0,
    ensures
        r == spec_virtual_reserve_after_burn(
            a_virtual_reserve as int,
            b_reserve as int,
            b_burn_amount as int,
        ),
        r <= a_virtual_reserve,
{
    proof {
        lemma_scaled_down_le(
            a_virtual_reserve as int,
            (b_reserve - b_burn_amount) as int,
            b_reserve as int,
        );
        assert(a_virtual_reserve as u128 * (b_reserve as u128 - b_burn_amount as u128)
            <= 0xffff_ffff_ffff_ffff_u128 * 0xffff_ffff_ffff_ffff_u128) by (nonlinear_arith)
            requires
                b_reserve as u128 - b_burn_amount as u128 <= 0xffff_ffff_ffff_ffff_u128,
        ;
    }
    (a_virtual_reserve as u128 * (b_reserve as u128 - b_burn_amount as u128) / b_reserve as u128)
        as u64
}

} // verus!
