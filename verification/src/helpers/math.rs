use crate::errors::CbmmError;
use vstd::arithmetic::div_mod::*;
use vstd::arithmetic::mul::*;
use vstd::prelude::*;

verus! {

/// 100% expressed in basis points times 10 000.
pub const X10K_100_PERCENT_BP: u64 = 100_000_000;

/// 100% expressed in basis points times 100.
pub const X100_100_PERCENT_BP: u64 = 1_000_000;

/// Factor between the x10k and the x100 basis point scales.
pub const SCALING_FACTOR: u64 = X10K_100_PERCENT_BP / X100_100_PERCENT_BP;

/// The fees taken from one trade, each denominated in the quote mint.
#[derive(Debug, Clone, Copy)]
pub struct Fees {
    pub creator_fees_amount: u64,
    pub buyback_fees_amount: u64,
    pub platform_fees_amount: u64,
}

impl Fees {
    /// Sum of the three fees, as a mathematical integer.
    pub open spec fn total(self) -> int {
        self.creator_fees_amount + self.buyback_fees_amount + self.platform_fees_amount
    }

    pub fn total_fees_amount(&self) -> (r: u64)
        requires
            self.total() <= u64::MAX,
        ensures
            r == self.total(),
    {
        self.creator_fees_amount + self.buyback_fees_amount + self.platform_fees_amount
    }
}

/// A fee of `bp` basis points of `amount`, rounded up.
pub open spec fn fee_amount(amount: int, bp: int) -> int {
    (amount * bp + 9999) / 10000
}

/// Some fee rate is above 100%.
pub open spec fn fee_bp_invalid(creator_bp: u16, buyback_bp: u16, platform_bp: u16) -> bool {
    platform_bp > 10000 || creator_bp > 10000 || buyback_bp > 10000
}

/// Some rate times the amount does not fit in a `u64`.
pub open spec fn fee_amount_too_big(
    quote_amount: u64,
    creator_bp: u16,
    buyback_bp: u16,
    platform_bp: u16,
) -> bool {
    ||| u64::MAX / (platform_bp as u64) < quote_amount
    ||| u64::MAX / (creator_bp as u64) < quote_amount
    ||| u64::MAX / (buyback_bp as u64) < quote_amount
}

/// The inputs on which the overflow check of `calculate_fees` divides by a zero rate:
/// the checks run platform, creator, buyback, and stop at the first that fails.
pub open spec fn calculate_fees_divides_by_zero(
    quote_amount: u64,
    creator_bp: u16,
    buyback_bp: u16,
    platform_bp: u16,
) -> bool {
    &&& !fee_bp_invalid(creator_bp, buyback_bp, platform_bp)
    &&& (platform_bp == 0 || (u64::MAX / (platform_bp as u64) >= quote_amount && (creator_bp == 0
        || (u64::MAX / (creator_bp as u64) >= quote_amount && buyback_bp == 0))))
}

pub open spec fn spec_calculate_fees(
    quote_amount: u64,
    creator_bp: u16,
    buyback_bp: u16,
    platform_bp: u16,
) -> Result<Fees, CbmmError> {
    if fee_bp_invalid(creator_bp, buyback_bp, platform_bp) {
        Err(CbmmError::InvalidFeeBasisPoints)
    } else if fee_amount_too_big(quote_amount, creator_bp, buyback_bp, platform_bp) {
        Err(CbmmError::AmountTooBig)
    } else {
        Ok(
            Fees {
                creator_fees_amount: fee_amount(quote_amount as int, creator_bp as int) as u64,
                buyback_fees_amount: fee_amount(quote_amount as int, buyback_bp as int) as u64,
                platform_fees_amount: fee_amount(quote_amount as int, platform_bp as int) as u64,
            },
        )
    }
}

/// A fee of at most 100% is at most the amount, and at least the exact share.
pub proof fn lemma_fee_amount_bounds(amount: int, bp: int)
    requires
        0 <= amount,
        0 <= bp <= 10000,
    ensures
        fee_amount(amount, bp) <= amount,
        fee_amount(amount, bp) * 10000 >= amount * bp,
        0 <= fee_amount(amount, bp),
{
    assert(0 <= amount * bp <= amount * 10000) by (nonlinear_arith)
        requires
            0 <= bp <= 10000,
            0 <= amount,
    ;
    lemma_div_is_ordered(amount * bp + 9999, amount * 10000 + 9999, 10000);
    lemma_fundamental_div_mod(amount * bp + 9999, 10000);
    lemma_mod_bound(amount * bp + 9999, 10000);
    assert((amount * 10000 + 9999) / 10000 == amount) by {
        lemma_div_multiples_vanish_fancy(amount, 9999, 10000);
    }
    lemma_div_pos_is_pos(amount * bp + 9999, 10000);
}

/// Whether `calculate_fees` can run on these inputs: its overflow check does not reach a
/// zero rate.
pub fn calculate_fees_is_defined(
    quote_amount: u64,
    creator_fee_basis_points: u16,
    buyback_fee_basis_points: u16,
    platform_fee_basis_points: u16,
) -> (b: bool)
    ensures
        b == !calculate_fees_divides_by_zero(
            quote_amount,
            creator_fee_basis_points,
            buyback_fee_basis_points,
            platform_fee_basis_points,
        ),
{
    if platform_fee_basis_points > 10000 || creator_fee_basis_points > 10000
        || buyback_fee_basis_points > 10000 {
        return true;
    }
    if platform_fee_basis_points == 0 {
        return false;
    }
    if u64::MAX / (platform_fee_basis_points as u64) < quote_amount {
        return true;
    }
    if creator_fee_basis_points == 0 {
        return false;
    }
    if u64::MAX / (creator_fee_basis_points as u64) < quote_amount {
        return true;
    }
    buyback_fee_basis_points != 0
}

/// Splits a trade amount into creator, buyback and platform fees, each rounded up.
pub fn calculate_fees(
    quote_amount: u64,
    creator_fee_basis_points: u16,
    buyback_fee_basis_points: u16,
    platform_fee_basis_points: u16,
) -> (r: Result<Fees, CbmmError>)
    requires
        !calculate_fees_divides_by_zero(
            quote_amount,
            creator_fee_basis_points,
            buyback_fee_basis_points,
            platform_fee_basis_points,
        ),
    ensures
        r == spec_calculate_fees(
            quote_amount,
            creator_fee_basis_points,
            buyback_fee_basis_points,
            platform_fee_basis_points,
        ),
        r matches Ok(fees) ==> {
            &&& fees.creator_fees_amount <= quote_amount
            &&& fees.buyback_fees_amount <= quote_amount
            &&& fees.platform_fees_amount <= quote_amount
        },
{
    if platform_fee_basis_points > 10000 || creator_fee_basis_points > 10000
        || buyback_fee_basis_points > 10000 {
        return Err(CbmmError::InvalidFeeBasisPoints);
    }
    if u64::MAX / (platform_fee_basis_points as u64) < quote_amount || u64::MAX / (
    creator_fee_basis_points as u64) < quote_amount || u64::MAX / (buyback_fee_basis_points as u64)
        < quote_amount {
        return Err(CbmmError::AmountTooBig);
    }
    proof {
        lemma_fee_amount_bounds(quote_amount as int, creator_fee_basis_points as int);
        lemma_fee_amount_bounds(quote_amount as int, buyback_fee_basis_points as int);
        lemma_fee_amount_bounds(quote_amount as int, platform_fee_basis_points as int);
        assert(quote_amount as u128 * creator_fee_basis_points as u128 <= 0xffff_ffff_ffff_ffff_u128
            * 10000) by (nonlinear_arith)
            requires
                creator_fee_basis_points <= 10000,
        ;
        assert(quote_amount as u128 * buyback_fee_basis_points as u128 <= 0xffff_ffff_ffff_ffff_u128
            * 10000) by (nonlinear_arith)
            requires
                buyback_fee_basis_points <= 10000,
        ;
        assert(quote_amount as u128 * platform_fee_basis_points as u128 <= 0xffff_ffff_ffff_ffff_u128
            * 10000) by (nonlinear_arith)
            requires
                platform_fee_basis_points <= 10000,
        ;
    }
    // Ceiling division, so that a fee is never rounded down.
    let creator_fees_amount = ((quote_amount as u128 * creator_fee_basis_points as u128 + 9999)
        / 10000) as u64;
    let buyback_fees_amount = ((quote_amount as u128 * buyback_fee_basis_points as u128 + 9999)
        / 10000) as u64;
    let platform_fees_amount = ((quote_amount as u128 * platform_fee_basis_points as u128 + 9999)
        / 10000) as u64;
    Ok(Fees { creator_fees_amount, buyback_fees_amount, platform_fees_amount })
}

/// Base tokens bought with `quote_amount`: `B * q / (A + V + q)`, rounded down.
pub open spec fn spec_buy_output_amount(
    quote_amount: int,
    quote_reserve: int,
    base_reserve: int,
    quote_virtual_reserve: int,
) -> int {
    (base_reserve * quote_amount) / (quote_reserve + quote_virtual_reserve + quote_amount)
}

/// Quote tokens received for `base_amount`: `b * (A + V) / (B + b)`, rounded down.
pub open spec fn spec_sell_output_amount(
    base_amount: int,
    base_reserve: int,
    quote_reserve: int,
    quote_virtual_reserve: int,
) -> int {
    (base_amount * (quote_reserve + quote_virtual_reserve)) / (base_reserve + base_amount)
}

/// `x * n / d <= x` when `0 <= n <= d`.
pub proof fn lemma_scaled_down_le(x: int, n: int, d: int)
    requires
        0 <= x,
        0 <= n <= d,
        d > 0,
    ensures
        x * n / d <= x,
        0 <= x * n / d,
{
    lemma_mul_inequality(n, d, x);
    lemma_mul_is_commutative(n, x);
    lemma_mul_is_commutative(d, x);
    lemma_mul_nonnegative(x, n);
    lemma_div_is_ordered(x * n, x * d, d);
    lemma_div_by_multiple(x, d);
    lemma_div_pos_is_pos(x * n, d);
}

/// Calculates the amount of the base token received when spending the quote token.
pub fn calculate_buy_output_amount(
    quote_amount: u64,
    quote_reserve: u64,
    base_reserve: u64,
    quote_virtual_reserve: u64,
) -> (r: u64)
    requires
        quote_reserve + quote_virtual_reserve + quote_amount > 0,
    ensures
        r == spec_buy_output_amount(
            quote_amount as int,
            quote_reserve as int,
            base_reserve as int,
            quote_virtual_reserve as int,
        ),
        r <= base_reserve,
{
    proof {
        lemma_scaled_down_le(base_reserve as int, quote_amount as int, (quote_reserve + quote_virtual_reserve + quote_amount) as int);
        assert(base_reserve as u128 * quote_amount as u128 <= 0xffff_ffff_ffff_ffff_u128
            * 0xffff_ffff_ffff_ffff_u128) by (nonlinear_arith);
    }
    let numerator = base_reserve as u128 * quote_amount as u128;
    let denominator = quote_reserve as u128 + quote_virtual_reserve as u128 + quote_amount as u128;
    (numerator / denominator) as u64
}

/// Calculates the amount of the quote token received when selling the base token.
/// The quotient is truncated to 64 bits, as the cast in the computation does.
pub fn calculate_sell_output_amount(
    base_amount: u64,
    base_reserve: u64,
    quote_reserve: u64,
    quote_virtual_reserve: u64,
) -> (r: u64)
    requires
        base_reserve + base_amount > 0,
        base_amount * (quote_reserve + quote_virtual_reserve) <= u128::MAX,
    ensures
        r == spec_sell_output_amount(
            base_amount as int,
            base_reserve as int,
            quote_reserve as int,
            quote_virtual_reserve as int,
        ) as u64,
        spec_sell_output_amount(
            base_amount as int,
            base_reserve as int,
            quote_reserve as int,
            quote_virtual_reserve as int,
        ) <= u64::MAX ==> r == spec_sell_output_amount(
            base_amount as int,
            base_reserve as int,
            quote_reserve as int,
            quote_virtual_reserve as int,
        ),
{
    let numerator = base_amount as u128 * (quote_reserve as u128 + quote_virtual_reserve as u128);
    let denominator = base_reserve as u128 + base_amount as u128;
    (numerator / denominator) as u64
}

/// `bp_x100` parts per million of the base reserve, rounded down and truncated to 64 bits.
pub open spec fn spec_burn_amount(base_amount_bp_x100: int, base_reserve: int) -> int {
    base_reserve * base_amount_bp_x100 / (X100_100_PERCENT_BP as int)
}

pub fn calculate_burn_amount(base_amount_bp_x100: u64, base_reserve: u64) -> (r: u64)
    ensures
        r == spec_burn_amount(base_amount_bp_x100 as int, base_reserve as int) as u64,
        base_amount_bp_x100 <= X100_100_PERCENT_BP ==> r == spec_burn_amount(
            base_amount_bp_x100 as int,
            base_reserve as int,
        ) && r <= base_reserve,
{
    proof {
        assert(base_reserve as u128 * base_amount_bp_x100 as u128 <= 0xffff_ffff_ffff_ffff_u128
            * 0xffff_ffff_ffff_ffff_u128) by (nonlinear_arith);
        if base_amount_bp_x100 <= X100_100_PERCENT_BP {
            lemma_scaled_down_le(base_reserve as int, base_amount_bp_x100 as int, X100_100_PERCENT_BP as int);
        }
    }
    (base_reserve as u128 * base_amount_bp_x100 as u128 / X100_100_PERCENT_BP as u128) as u64
}

/// The virtual reserve scaled by the share of the base reserve that survives a burn:
/// `V * (B - y) / B`, rounded down so that the pool stays solvent.
pub open spec fn spec_virtual_reserve_after_burn(
    quote_virtual_reserve: int,
    base_reserve: int,
    base_burn_amount: int,
) -> int {
    quote_virtual_reserve * (base_reserve - base_burn_amount) / base_reserve
}

pub fn calculate_new_virtual_reserve_after_burn(
    quote_virtual_reserve: u64,
    base_reserve: u64,
    base_burn_amount: u64,
) -> (r: u64)
    requires
        base_burn_amount <= base_reserve,
        base_reserve > 0,
    ensures
        r == spec_virtual_reserve_after_burn(
            quote_virtual_reserve as int,
            base_reserve as int,
            base_burn_amount as int,
        ),
        r <= quote_virtual_reserve,
{
    proof {
        lemma_scaled_down_le(quote_virtual_reserve as int, (base_reserve - base_burn_amount) as int, base_reserve as int);
        assert(quote_virtual_reserve as u128 * (base_reserve as u128 - base_burn_amount as u128)
            <= 0xffff_ffff_ffff_ffff_u128 * 0xffff_ffff_ffff_ffff_u128) by (nonlinear_arith)
            requires
                base_reserve as u128 - base_burn_amount as u128 <= 0xffff_ffff_ffff_ffff_u128,
        ;
    }
    // Rounding down to be sure that we stay solvent
    (quote_virtual_reserve as u128 * (base_reserve as u128 - base_burn_amount as u128)
        / base_reserve as u128) as u64
}

/// `ceil(V0 * S / S0)`: the starting virtual reserve scaled by the share of the starting
/// supply that is left.
pub open spec fn spec_optimal_virtual_quote_reserve(
    quote_starting_virtual_reserve: int,
    base_starting_total_supply: int,
    base_total_supply: int,
) -> int {
    (quote_starting_virtual_reserve * base_total_supply + base_starting_total_supply - 1)
        / base_starting_total_supply
}

/// The result is truncated to 64 bits, as the cast in the computation does.
pub fn calculate_optimal_virtual_quote_reserve(
    quote_starting_virtual_reserve: u64,
    base_starting_total_supply: u64,
    base_total_supply: u64,
) -> (r: u64)
    requires
        base_starting_total_supply > 0,
    ensures
        r == spec_optimal_virtual_quote_reserve(
            quote_starting_virtual_reserve as int,
            base_starting_total_supply as int,
            base_total_supply as int,
        ) as u64,
{
    proof {
        assert(quote_starting_virtual_reserve as u128 * base_total_supply as u128
            <= 0xffff_ffff_ffff_ffff_u128 * 0xffff_ffff_ffff_ffff_u128) by (nonlinear_arith);
    }
    let numerator = quote_starting_virtual_reserve as u128 * base_total_supply as u128;
    let denominator = base_starting_total_supply as u128;
    // Rounding up to be sure that we stay solvent
    ((numerator + denominator - 1) / denominator) as u64
}

/// `ceil(V * (S - B) / B)`: the real quote reserve at which the worst-case exit price is
/// the price set by the virtual reserve `V`.
pub open spec fn spec_optimal_real_quote_reserve(
    base_total_supply: int,
    quote_optimal_virtual_reserve: int,
    base_reserve: int,
) -> int {
    (quote_optimal_virtual_reserve * (base_total_supply - base_reserve) + base_reserve - 1)
        / base_reserve
}

/// The result is truncated to 64 bits, as the cast in the computation does.
pub fn calculate_optimal_real_quote_reserve(
    base_total_supply: u64,
    quote_optimal_virtual_reserve: u64,
    base_reserve: u64,
) -> (r: u64)
    requires
        base_reserve <= base_total_supply,
        base_reserve > 0,
    ensures
        r == spec_optimal_real_quote_reserve(
            base_total_supply as int,
            quote_optimal_virtual_reserve as int,
            base_reserve as int,
        ) as u64,
{
    proof {
        assert(quote_optimal_virtual_reserve as u128 * (base_total_supply as u128
            - base_reserve as u128) <= 0xffff_ffff_ffff_ffff_u128 * 0xffff_ffff_ffff_ffff_u128)
            by (nonlinear_arith)
            requires
                base_total_supply as u128 - base_reserve as u128 <= 0xffff_ffff_ffff_ffff_u128,
        ;
    }
    let numerator = quote_optimal_virtual_reserve as u128 * (base_total_supply as u128
        - base_reserve as u128);
    let denominator = base_reserve as u128;
    // Rounding up to be sure that the worst-case exit price is always at least the starting price
    ((numerator + denominator - 1) / denominator) as u64
}

/// `A * B / (S - B)`: the virtual reserve that a partial top-up of the real reserve `A`
/// supports.
pub open spec fn spec_virtual_reserve_after_topup(
    quote_real_reserve: int,
    base_reserve: int,
    base_total_supply: int,
) -> int {
    quote_real_reserve * base_reserve / (base_total_supply - base_reserve)
}

/// The result is truncated to 64 bits, as the cast in the computation does.
pub fn calculate_new_virtual_reserve_after_topup(
    quote_real_reserve: u64,
    base_reserve: u64,
    base_total_supply: u64,
) -> (r: u64)
    requires
        base_reserve < base_total_supply,
    ensures
        r == spec_virtual_reserve_after_topup(
            quote_real_reserve as int,
            base_reserve as int,
            base_total_supply as int,
        ) as u64,
{
    proof {
        assert(quote_real_reserve as u128 * base_reserve as u128 <= 0xffff_ffff_ffff_ffff_u128
            * 0xffff_ffff_ffff_ffff_u128) by (nonlinear_arith);
    }
    (quote_real_reserve as u128 * (base_reserve as u128) / (base_total_supply - base_reserve) as u128)
        as u64
}

} // verus!
