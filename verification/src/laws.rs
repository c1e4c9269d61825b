use crate::helpers::math::{
    lemma_scaled_down_le, spec_buy_output_amount, spec_optimal_real_quote_reserve,
    spec_optimal_virtual_quote_reserve, spec_sell_output_amount, X10K_100_PERCENT_BP,
};
use crate::helpers::math::{lemma_fee_amount_bounds, spec_burn_amount, X100_100_PERCENT_BP};
use crate::helpers::rate_limit::{
    decayed_stress, lemma_compound_add_bounds, lemma_compound_remove_bounds,
    lemma_rate_limit_burn_bound, spec_compound_add, spec_rate_limit, BurnRateConfig,
    BurnRateLimiter, RateLimitResult,
};
use crate::instructions::buy_virtual_token::{buy_defined, spec_buy, BuyVirtualTokenArgs};
use crate::instructions::sell_virtual_token::{sell_defined, spec_sell, SellVirtualTokenArgs};
use crate::address::Address;
use crate::instructions::burn_virtual_token::{
    burn_virtual_token_defined, spec_burn_tier_check, spec_burn_virtual_token, BurnEvent,
};
use crate::state::{BurnRole, PlatformConfig, MAX_BURN_TIERS};
use crate::errors::CbmmError;
use crate::cpmm_poc::instructions::burn_virtual_token::{
    burn_defined as cpmm_burn_defined, spec_burn as cpmm_spec_burn,
};
use crate::cpmm_poc::instructions::buy_virtual_token::{
    buy_defined as cpmm_buy_defined, spec_buy as cpmm_spec_buy,
    BuyVirtualTokenArgs as CpmmBuyArgs,
};
use crate::cpmm_poc::state::{
    BcpmmPool, CentralState, UserBurnAllowance as CpmmBurnAllowance,
    VirtualTokenAccount as CpmmVirtualTokenAccount,
};
use crate::state::{
    safe_max_burn_bp_x100, spec_validate_fees_and_burn_config, tier_within_limits, BurnTier,
    burn_day, CbmmPool, UserBurnAllowance, VirtualTokenAccount,
};
use crate::std_ints::{clamp_i64, trunc_div};
use vstd::arithmetic::div_mod::{lemma_div_is_ordered, lemma_fundamental_div_mod, lemma_div_pos_is_pos};
use vstd::arithmetic::mul::lemma_mul_is_commutative;
use vstd::prelude::*;

verus! {

/// `floor(x / d) * d <= x` for a positive divisor.
proof fn lemma_floor_times_divisor(x: int, d: int)
    requires
        d > 0,
    ensures
        (x / d) * d <= x,
{
    lemma_fundamental_div_mod(x, d);
    lemma_mul_is_commutative(d, x / d);
}

/// A truncation to 64 bits of a nonnegative integer is at most that integer.
proof fn lemma_truncation_le(x: int)
    requires
        x >= 0,
    ensures
        (x as u64) <= x,
{
}

/// A buy never lowers the constant product `(A + V) * B` of the curve: the base amount
/// paid out is rounded down.
pub proof fn law_buy_keeps_curve_product(pool: CbmmPool, quote_amount: u64)
    requires
        pool.quote_reserve + pool.quote_virtual_reserve + quote_amount > 0,
        pool.spec_quote_to_base(quote_amount).1 is Ok,
    ensures
        ({
            let after = pool.spec_quote_to_base(quote_amount).0;
            (after.quote_reserve + after.quote_virtual_reserve) * after.base_reserve >= (
            pool.quote_reserve + pool.quote_virtual_reserve) * pool.base_reserve
        }),
{
    let a = pool.quote_reserve as int;
    let v = pool.quote_virtual_reserve as int;
    let b = pool.base_reserve as int;
    let q = quote_amount as int;
    let d = a + v + q;
    let out = spec_buy_output_amount(q, a, b, v);
    lemma_floor_times_divisor(b * q, d);
    lemma_scaled_down_le(b, q, d);
    let after = pool.spec_quote_to_base(quote_amount).0;
    assert(after.base_reserve == b - out);
    assert(after.quote_reserve == a + q);
    assert((a + q + v) * (b - out) >= (a + v) * b) by (nonlinear_arith)
        requires
            out * d <= b * q,
            d == a + v + q,
    ;
}

/// A sell never lowers the constant product `(A + V) * B` of the curve: the quote amount
/// paid out is rounded down.
pub proof fn law_sell_keeps_curve_product(pool: CbmmPool, base_amount: u64)
    requires
        pool.base_to_quote_defined(base_amount),
        pool.spec_base_to_quote(base_amount).1 is Ok,
    ensures
        ({
            let after = pool.spec_base_to_quote(base_amount).0;
            (after.quote_reserve + after.quote_virtual_reserve) * after.base_reserve >= (
            pool.quote_reserve + pool.quote_virtual_reserve) * pool.base_reserve
        }),
{
    let a = pool.quote_reserve as int;
    let v = pool.quote_virtual_reserve as int;
    let b = pool.base_reserve as int;
    let s = base_amount as int;
    let full = spec_sell_output_amount(s, b, a, v);
    lemma_div_pos_is_pos(s * (a + v), b + s);
    lemma_floor_times_divisor(s * (a + v), b + s);
    lemma_truncation_le(full);
    let out = (full as u64) as int;
    assert(out * (b + s) <= full * (b + s)) by (nonlinear_arith)
        requires
            out <= full,
            b + s > 0,
    ;
    assert(out * (b + s) <= s * (a + v));
    let after = pool.spec_base_to_quote(base_amount).0;
    assert(after.quote_reserve == a - out);
    assert(after.base_reserve == b + s);
    assert((a - out + v) * (b + s) >= (a + v) * b) by (nonlinear_arith)
        requires
            out * (b + s) <= s * (a + v),
            s >= 0,
            a + v >= 0,
    ;
}

/// A buy raises the price `(A + V) / B` of the base token and a sell lowers it.
pub proof fn law_trades_move_price(pool: CbmmPool, quote_amount: u64, base_amount: u64)
    requires
        pool.quote_reserve + pool.quote_virtual_reserve + quote_amount > 0,
        pool.base_to_quote_defined(base_amount),
    ensures
        pool.spec_quote_to_base(quote_amount).1 is Ok ==> ({
            let after = pool.spec_quote_to_base(quote_amount).0;
            (after.quote_reserve + after.quote_virtual_reserve) * pool.base_reserve >= (
            pool.quote_reserve + pool.quote_virtual_reserve) * after.base_reserve
        }),
        pool.spec_base_to_quote(base_amount).1 is Ok ==> ({
            let after = pool.spec_base_to_quote(base_amount).0;
            (after.quote_reserve + after.quote_virtual_reserve) * pool.base_reserve <= (
            pool.quote_reserve + pool.quote_virtual_reserve) * after.base_reserve
        }),
{
    let a = pool.quote_reserve as int;
    let v = pool.quote_virtual_reserve as int;
    let b = pool.base_reserve as int;
    if pool.spec_quote_to_base(quote_amount).1 is Ok {
        let after = pool.spec_quote_to_base(quote_amount).0;
        let q = quote_amount as int;
        let out = spec_buy_output_amount(q, a, b, v);
        lemma_scaled_down_le(b, q, a + v + q);
        assert(after.base_reserve == b - out);
        assert(after.quote_reserve == a + q);
        assert((a + q + v) * b >= (a + v) * (b - out)) by (nonlinear_arith)
            requires
                q >= 0,
                out >= 0,
                a + v >= 0,
                b >= 0,
        ;
    }
    if pool.spec_base_to_quote(base_amount).1 is Ok {
        let after = pool.spec_base_to_quote(base_amount).0;
        let s = base_amount as int;
        let out = (spec_sell_output_amount(s, b, a, v) as u64) as int;
        assert((a - out + v) * b <= (a + v) * (b + s)) by (nonlinear_arith)
            requires
                s >= 0,
                out >= 0,
                a + v >= 0,
                b >= 0,
        ;
    }
}

/// Buying and at once selling back all that was bought never returns more quote tokens
/// than were spent, fees aside: the curve cannot be drained by round trips.
pub proof fn law_round_trip_no_profit(pool: CbmmPool, quote_amount: u64)
    requires
        pool.quote_reserve + pool.quote_virtual_reserve + quote_amount > 0,
        pool.spec_quote_to_base(quote_amount).1 is Ok,
        pool.spec_quote_to_base(quote_amount).0.base_to_quote_defined(
            pool.spec_quote_to_base(quote_amount).1->Ok_0.base_amount,
        ),
    ensures
        ({
            let (bought, swap) = pool.spec_quote_to_base(quote_amount);
            bought.spec_base_to_quote(swap->Ok_0.base_amount).1 matches Ok(back) ==> back.quote_amount
                <= quote_amount
        }),
{
    let a = pool.quote_reserve as int;
    let v = pool.quote_virtual_reserve as int;
    let b = pool.base_reserve as int;
    let q = quote_amount as int;
    let d = a + v + q;
    let out = spec_buy_output_amount(q, a, b, v);
    lemma_floor_times_divisor(b * q, d);
    lemma_div_pos_is_pos(b * q, d);
    lemma_scaled_down_le(b, q, d);
    let (bought, swap) = pool.spec_quote_to_base(quote_amount);
    assert(bought.base_reserve + out == b);
    assert(bought.quote_reserve + bought.quote_virtual_reserve == d);
    if bought.spec_base_to_quote(swap->Ok_0.base_amount).1 is Ok {
        let full = spec_sell_output_amount(out, b - out, a + q, v);
        assert(out * (a + q + v) == out * d);
        assert(full == (out * d) / b);
        assert(out * d <= q * b) by (nonlinear_arith)
            requires
                out * d <= b * q,
        ;
        lemma_div_is_ordered(out * d, q * b, b);
        vstd::arithmetic::div_mod::lemma_div_by_multiple(q, b);
        lemma_div_pos_is_pos(out * d, b);
        lemma_truncation_le(full);
    }
}

/// The quote tokens the pool accounts for: its real reserve and its three fee balances.
pub open spec fn tracked_quote(pool: CbmmPool) -> int {
    pool.quote_reserve + pool.creator_fees_balance + pool.buyback_fees_balance
        + pool.platform_fees_balance
}

/// Taking fees neither creates nor loses quote tokens: the amount left for the trade and
/// the three fees add up to the amount, and each fee is rounded up, never below its
/// exact share.
pub proof fn law_collect_fees_conserves_amount(pool: CbmmPool, quote_amount: u64)
    requires
        !pool.collect_fees_panics(quote_amount),
    ensures
        ({
            let (after, rest) = pool.spec_collect_fees(quote_amount);
            match rest {
                Ok(rest) => {
                    &&& rest + (after.creator_fees_balance - pool.creator_fees_balance) + (
                    after.buyback_fees_balance - pool.buyback_fees_balance) + (
                    after.platform_fees_balance - pool.platform_fees_balance) == quote_amount
                    &&& (after.creator_fees_balance - pool.creator_fees_balance) * 10000
                        >= quote_amount * pool.creator_fee_bp
                    &&& (after.buyback_fees_balance - pool.buyback_fees_balance) * 10000
                        >= quote_amount * pool.buyback_fee_bp
                    &&& (after.platform_fees_balance - pool.platform_fees_balance) * 10000
                        >= quote_amount * pool.platform_fee_bp
                    &&& tracked_quote(after) + rest == tracked_quote(pool) + quote_amount
                },
                Err(_) => after == pool,
            }
        }),
{
    if pool.spec_collect_fees(quote_amount).1 is Ok {
        lemma_fee_amount_bounds(quote_amount as int, pool.creator_fee_bp as int);
        lemma_fee_amount_bounds(quote_amount as int, pool.buyback_fee_bp as int);
        lemma_fee_amount_bounds(quote_amount as int, pool.platform_fee_bp as int);
    }
}

/// A top-up only moves buyback fees into the real reserve: it pays no more than the
/// buyback balance holds, the sum of the two is unchanged, and nothing else but the
/// virtual reserve moves.
pub proof fn law_topup_moves_buyback_into_reserve(pool: CbmmPool)
    requires
        pool.topup_defined(),
    ensures
        ({
            let (after, paid) = pool.spec_topup();
            match paid {
                Ok(paid) => {
                    &&& paid <= pool.buyback_fees_balance
                    &&& after.quote_reserve == pool.quote_reserve + paid
                    &&& after.buyback_fees_balance == pool.buyback_fees_balance - paid
                    &&& tracked_quote(after) == tracked_quote(pool)
                    &&& after.base_reserve == pool.base_reserve
                    &&& after.base_total_supply == pool.base_total_supply
                },
                Err(_) => after == pool,
            }
        }),
{
}

/// The real reserve a top-up aims for: the one at which selling back every base token held
/// outside the pool would end at the starting price, scaled to the current supply.
pub open spec fn topup_target(pool: CbmmPool) -> int {
    let optimal_virtual = spec_optimal_virtual_quote_reserve(
        pool.quote_starting_virtual_reserve as int,
        pool.base_starting_total_supply as int,
        pool.base_total_supply as int,
    ) as u64;
    spec_optimal_real_quote_reserve(
        pool.base_total_supply as int,
        optimal_virtual as int,
        pool.base_reserve as int,
    )
}

/// `ceil(n / d) * d >= n` for a positive divisor, with the ceiling written as
/// `(n + d - 1) / d`.
proof fn lemma_ceil_times_divisor(n: int, d: int)
    requires
        n >= 0,
        d > 0,
    ensures
        ((n + d - 1) / d) * d >= n,
{
    lemma_fundamental_div_mod(n + d - 1, d);
    lemma_mul_is_commutative(d, (n + d - 1) / d);
}

/// A top-up that is needed leaves the pool solvent: selling at once every base token held
/// outside the pool pays out no more than the real reserve after the top-up, whether the
/// buyback fees covered the whole top-up or the virtual reserve was lowered to what they
/// could back.
pub proof fn law_topup_keeps_pool_solvent(pool: CbmmPool)
    requires
        pool.topup_defined(),
        topup_target(pool) <= u64::MAX,
    ensures
        ({
            let (after, paid) = pool.spec_topup();
            topup_target(pool) > pool.quote_reserve ==> {
                &&& paid is Ok
                &&& spec_sell_output_amount(
                    pool.base_total_supply - pool.base_reserve,
                    after.base_reserve as int,
                    after.quote_reserve as int,
                    after.quote_virtual_reserve as int,
                ) <= after.quote_reserve
            }
        }),
{
    let (after, paid) = pool.spec_topup();
    if topup_target(pool) > pool.quote_reserve {
        let b = pool.base_reserve as int;
        let total = pool.base_total_supply as int;
        let s = total - b;
        let a2 = after.quote_reserve as int;
        let v2 = after.quote_virtual_reserve as int;
        let optimal_virtual = spec_optimal_virtual_quote_reserve(
            pool.quote_starting_virtual_reserve as int,
            pool.base_starting_total_supply as int,
            pool.base_total_supply as int,
        ) as u64;
        assert(optimal_virtual as int * s >= 0) by (nonlinear_arith)
            requires
                s >= 0,
        ;
        if s == 0 {
            assert(optimal_virtual as int * s == 0) by (nonlinear_arith)
                requires
                    s == 0,
            ;
            vstd::arithmetic::div_mod::lemma_basic_div(b - 1, b);
            assert(false);
        }
        // The virtual reserve after the top-up is backed by the real reserve over the
        // outstanding supply: v2 * s <= a2 * b.
        let needed = topup_target(pool) - pool.quote_reserve;
        if needed <= pool.buyback_fees_balance {
            lemma_ceil_times_divisor(optimal_virtual as int * s, b);
            assert(v2 == optimal_virtual);
            assert(a2 == topup_target(pool));
            assert(v2 * s <= a2 * b) by (nonlinear_arith)
                requires
                    v2 == optimal_virtual as int,
                    a2 * b >= optimal_virtual as int * s,
            ;
        } else {
            let y = a2 * b / s;
            lemma_floor_times_divisor(a2 * b, s);
            lemma_mul_is_commutative(y, s);
            assert(a2 * b >= 0) by (nonlinear_arith)
                requires
                    a2 >= 0,
                    b >= 0,
            ;
            lemma_div_pos_is_pos(a2 * b, s);
            lemma_truncation_le(y);
            assert(v2 * s <= a2 * b) by (nonlinear_arith)
                requires
                    0 <= v2 <= y,
                    y * s <= a2 * b,
                    s > 0,
            ;
        }
        // Hence s * (a2 + v2) <= a2 * (b + s), and the floor of the payout is at most a2.
        assert(s * (a2 + v2) <= a2 * total) by (nonlinear_arith)
            requires
                v2 * s <= a2 * b,
                total == b + s,
        ;
        lemma_div_is_ordered(s * (a2 + v2), a2 * total, total);
        vstd::arithmetic::div_mod::lemma_div_by_multiple(a2, total);
    }
}

/// A burn takes base tokens out of the pool's reserve only: the supply held outside the
/// pool is unchanged, the real quote reserve is untouched, and the virtual reserve
/// shrinks at least in proportion to the base reserve (rounded down, so that the pool
/// stays solvent).
pub proof fn law_burn_spares_holders(
    pool: CbmmPool,
    config: BurnRateConfig,
    requested_bp_x100: u32,
    now: i64,
)
    requires
        config.scalable(),
        pool.burn_defined(config, requested_bp_x100, now),
    ensures
        ({
            let (after, result) = pool.spec_burn(config, requested_bp_x100, now);
            result matches Ok(burned) ==> {
                &&& after.base_total_supply - after.base_reserve == pool.base_total_supply
                    - pool.base_reserve
                &&& after.base_reserve == pool.base_reserve - burned.burn_amount
                &&& after.quote_reserve == pool.quote_reserve
                &&& tracked_quote(after) == tracked_quote(pool)
                &&& after.quote_virtual_reserve * pool.base_reserve <= pool.quote_virtual_reserve
                    * after.base_reserve
            }
        }),
{
    lemma_rate_limit_burn_bound(pool.burn_limiter, requested_bp_x100, config, now);
    let (after, result) = pool.spec_burn(config, requested_bp_x100, now);
    if result is Ok {
        let bp = match spec_rate_limit(pool.burn_limiter, requested_bp_x100, config, now).1 {
            Ok(RateLimitResult::ExecuteFull(bp)) => bp,
            Ok(RateLimitResult::ExecutePartial(bp)) => bp,
            _ => 0,
        };
        let b = pool.base_reserve as int;
        let v = pool.quote_virtual_reserve as int;
        let y = spec_burn_amount(bp as int, b);
        if bp > 0 || spec_rate_limit(pool.burn_limiter, requested_bp_x100, config, now).1 matches Ok(
            RateLimitResult::ExecuteFull(_),
        ) || spec_rate_limit(pool.burn_limiter, requested_bp_x100, config, now).1 matches Ok(
            RateLimitResult::ExecutePartial(_),
        ) {
            lemma_scaled_down_le(b, bp as int, X100_100_PERCENT_BP as int);
            lemma_scaled_down_le(v, b - y, b);
            lemma_floor_times_divisor(v * (b - y), b);
            lemma_div_pos_is_pos(v * (b - y), b);
            assert(v * (b - y) / b * b <= v * (b - y));
        }
    }
}

/// A burn cannot make the pool insolvent: when selling every base token held outside the
/// pool could not take more than the real reserve before the burn (`V * (T - B) <= A * B`),
/// it cannot after the burn either.
pub proof fn law_burn_keeps_pool_solvent(
    pool: CbmmPool,
    config: BurnRateConfig,
    requested_bp_x100: u32,
    now: i64,
)
    requires
        config.scalable(),
        pool.burn_defined(config, requested_bp_x100, now),
        pool.base_reserve <= pool.base_total_supply,
        pool.quote_virtual_reserve * (pool.base_total_supply - pool.base_reserve)
            <= pool.quote_reserve * pool.base_reserve,
    ensures
        ({
            let (after, result) = pool.spec_burn(config, requested_bp_x100, now);
            result is Ok ==> after.quote_virtual_reserve * (after.base_total_supply
                - after.base_reserve) <= after.quote_reserve * after.base_reserve
        }),
{
    lemma_rate_limit_burn_bound(pool.burn_limiter, requested_bp_x100, config, now);
    let bp: u64 = match spec_rate_limit(pool.burn_limiter, requested_bp_x100, config, now).1 {
        Ok(RateLimitResult::ExecuteFull(bp)) => bp,
        Ok(RateLimitResult::ExecutePartial(bp)) => bp,
        _ => 0,
    };
    let executed = match spec_rate_limit(pool.burn_limiter, requested_bp_x100, config, now).1 {
        Ok(RateLimitResult::ExecuteFull(_)) => true,
        Ok(RateLimitResult::ExecutePartial(_)) => true,
        _ => false,
    };
    if executed {
        let a = pool.quote_reserve as int;
        let b = pool.base_reserve as int;
        let v = pool.quote_virtual_reserve as int;
        let s = pool.base_total_supply - pool.base_reserve;
        let y = spec_burn_amount(bp as int, b);
        lemma_scaled_down_le(b, bp as int, X100_100_PERCENT_BP as int);
        lemma_scaled_down_le(v, b - y, b);
        let f = v * (b - y) / b;
        lemma_floor_times_divisor(v * (b - y), b);
        assert(f * s <= a * (b - y)) by (nonlinear_arith)
            requires
                f * b <= v * (b - y),
                v * s <= a * b,
                b > 0,
                s >= 0,
                0 <= y <= b,
                f >= 0,
        ;
    }
}

/// The base tokens a buy pays out never decrease with the quote amount paid in or with
/// the base reserve, and never increase with the real or the virtual quote reserve.
pub proof fn law_buy_output_monotone(
    quote_amount: int,
    quote_reserve: int,
    base_reserve: int,
    quote_virtual_reserve: int,
    more: int,
)
    requires
        quote_amount >= 0,
        quote_reserve >= 0,
        base_reserve >= 0,
        quote_virtual_reserve >= 0,
        more >= 0,
        quote_reserve + quote_virtual_reserve + quote_amount > 0,
    ensures
        spec_buy_output_amount(quote_amount, quote_reserve, base_reserve, quote_virtual_reserve)
            <= spec_buy_output_amount(
            quote_amount + more,
            quote_reserve,
            base_reserve,
            quote_virtual_reserve,
        ),
        spec_buy_output_amount(quote_amount, quote_reserve, base_reserve, quote_virtual_reserve)
            <= spec_buy_output_amount(
            quote_amount,
            quote_reserve,
            base_reserve + more,
            quote_virtual_reserve,
        ),
        spec_buy_output_amount(quote_amount, quote_reserve + more, base_reserve, quote_virtual_reserve)
            <= spec_buy_output_amount(
            quote_amount,
            quote_reserve,
            base_reserve,
            quote_virtual_reserve,
        ),
        spec_buy_output_amount(quote_amount, quote_reserve, base_reserve, quote_virtual_reserve + more)
            <= spec_buy_output_amount(
            quote_amount,
            quote_reserve,
            base_reserve,
            quote_virtual_reserve,
        ),
{
    let q = quote_amount;
    let b = base_reserve;
    let r = quote_reserve + quote_virtual_reserve;
    // More paid in: b * q / (r + q) <= b * (q + m) / (r + q + m).
    assert(b * q * (r + q + more) <= b * (q + more) * (r + q)) by (nonlinear_arith)
        requires
            b >= 0,
            q >= 0,
            r >= 0,
            more >= 0,
    ;
    lemma_floor_ratio_le(b * q, r + q, b * (q + more), r + q + more);
    // A larger base reserve: the same denominator.
    assert(b * q <= (b + more) * q) by (nonlinear_arith)
        requires
            q >= 0,
            more >= 0,
    ;
    lemma_div_is_ordered(b * q, (b + more) * q, r + q);
    // Larger quote reserves: a larger denominator.
    assert(b * q >= 0) by (nonlinear_arith)
        requires
            b >= 0,
            q >= 0,
    ;
    vstd::arithmetic::div_mod::lemma_div_is_ordered_by_denominator(b * q, r + q, r + q + more);
}

/// `floor(x1 / d1) <= floor(x2 / d2)` when `x1 / d1 <= x2 / d2`, for nonnegative numerators
/// and positive denominators.
proof fn lemma_floor_ratio_le(x1: int, d1: int, x2: int, d2: int)
    requires
        x1 >= 0,
        x2 >= 0,
        d1 > 0,
        d2 > 0,
        x1 * d2 <= x2 * d1,
    ensures
        x1 / d1 <= x2 / d2,
{
    let f = x1 / d1;
    lemma_floor_times_divisor(x1, d1);
    lemma_div_pos_is_pos(x1, d1);
    assert(f * d2 <= x2) by (nonlinear_arith)
        requires
            f * d1 <= x1,
            x1 * d2 <= x2 * d1,
            d1 > 0,
            d2 > 0,
            f >= 0,
    ;
    lemma_div_is_ordered(f * d2, x2, d2);
    vstd::arithmetic::div_mod::lemma_div_by_multiple(f, d2);
}

/// Executing a burn never adds more stress than the room left under the soft limit:
/// after an executed burn the stress is at most the soft limit, or the decayed stress
/// when that was already above it. A queued request adds no stress, and a full execution
/// empties the queue.
pub proof fn law_rate_limit_within_soft_limit(
    pre: BurnRateLimiter,
    new_burn_bp_x100: u32,
    config: BurnRateConfig,
    now: i64,
)
    requires
        config.scalable(),
    ensures
        ({
            let (post, result) = spec_rate_limit(pre, new_burn_bp_x100, config, now);
            let stress = decayed_stress(pre, config, now);
            let soft_limit = config.limit_bp_x100 * 100;
            match result {
                Ok(RateLimitResult::ExecuteFull(bp)) => {
                    &&& post.accumulated_stress_bp_x10k <= (if stress <= soft_limit {
                        soft_limit
                    } else {
                        stress
                    })
                    &&& bp * 100 <= post.accumulated_stress_bp_x10k - stress
                    &&& post.pending_queue_shares_bp_x10k == 0
                    &&& post.last_update_ts == now
                },
                Ok(RateLimitResult::ExecutePartial(bp)) => {
                    &&& post.accumulated_stress_bp_x10k <= (if stress <= soft_limit {
                        soft_limit
                    } else {
                        stress
                    })
                    &&& bp * 100 <= post.accumulated_stress_bp_x10k - stress
                    &&& post.pending_queue_shares_bp_x10k <= X10K_100_PERCENT_BP
                    &&& post.last_update_ts == now
                },
                Ok(RateLimitResult::Queued) => {
                    &&& post.accumulated_stress_bp_x10k == stress
                    &&& post.last_update_ts == now
                },
                Err(_) => true,
            }
        }),
{
    let p = X10K_100_PERCENT_BP as int;
    if pre.pending_queue_shares_bp_x10k <= p && new_burn_bp_x100 * 100 <= p {
        let pending = spec_compound_add(
            pre.pending_queue_shares_bp_x10k as int,
            new_burn_bp_x100 * 100,
        );
        lemma_compound_add_bounds(pre.pending_queue_shares_bp_x10k as int, new_burn_bp_x100 * 100);
        let stress = decayed_stress(pre, config, now);
        let soft_limit = config.limit_bp_x100 * 100;
        let available = if soft_limit >= stress {
            soft_limit - stress
        } else {
            0
        };
        let potential = if pending <= available {
            pending
        } else {
            available
        };
        if potential < p && potential >= 0 {
            lemma_compound_remove_bounds(pending, potential);
        }
        lemma_floor_times_divisor(potential, 100);
    }
}

/// A buy moves tokens without creating or losing any: the base tokens leaving the
/// reserve are the ones the buyer's account receives, at least one and at least the
/// buyer's minimum, and the quote tokens the pool accounts for grow by exactly the amount
/// the buyer pays in.
pub proof fn law_buy_conserves_tokens(
    pool: CbmmPool,
    vta: VirtualTokenAccount,
    args: BuyVirtualTokenArgs,
    buyer: Address,
    pool_key: Address,
)
    requires
        buy_defined(pool, args),
    ensures
        ({
            let (after, account, result) = spec_buy(pool, vta, args, buyer, pool_key);
            result matches Ok(event) ==> {
                &&& after.base_reserve + account.balance == pool.base_reserve + vta.balance
                &&& account.balance == vta.balance + event.base_output
                &&& after.base_reserve == pool.base_reserve - event.base_output
                &&& event.base_output >= 1
                &&& event.base_output >= args.base_amount_min
                &&& tracked_quote(after) == tracked_quote(pool) + args.quote_amount
                &&& after.base_total_supply == pool.base_total_supply
            }
        }),
{
    law_collect_fees_conserves_amount(pool, args.quote_amount);
    let (collected, rest) = pool.spec_collect_fees(args.quote_amount);
    if rest is Ok {
        law_topup_moves_buyback_into_reserve(collected);
        let (topped, paid) = collected.spec_topup();
        if paid is Ok {
            let q = rest->Ok_0;
            lemma_scaled_down_le(
                topped.base_reserve as int,
                q as int,
                topped.quote_reserve + topped.quote_virtual_reserve + q,
            );
        }
    }
}

/// A sell moves tokens without creating or losing any: the base tokens the seller's
/// account gives up return to the reserve, and the quote tokens the pool accounts for
/// shrink by exactly the amount paid out to the seller, at least one and at least the
/// seller's minimum.
pub proof fn law_sell_conserves_tokens(
    pool: CbmmPool,
    vta: VirtualTokenAccount,
    args: SellVirtualTokenArgs,
    seller: Address,
    pool_key: Address,
)
    requires
        sell_defined(pool, vta, args),
    ensures
        ({
            let (after, account, result) = spec_sell(pool, vta, args, seller, pool_key);
            result matches Ok(event) ==> {
                &&& after.base_reserve + account.balance == pool.base_reserve + vta.balance
                &&& account.balance == vta.balance - args.base_amount
                &&& after.base_reserve == pool.base_reserve + args.base_amount
                &&& event.quote_output >= 1
                &&& event.quote_output >= args.min_quote_amount
                &&& tracked_quote(after) + event.quote_output == tracked_quote(pool)
                &&& after.base_total_supply == pool.base_total_supply
            }
        }),
{
    if vta.balance >= args.base_amount {
        let (swapped, swap) = pool.spec_base_to_quote(args.base_amount);
        if swap is Ok {
            law_collect_fees_conserves_amount(swapped, swap->Ok_0.quote_amount);
            let (collected, net) = swapped.spec_collect_fees(swap->Ok_0.quote_amount);
            if net is Ok && net->Ok_0 > 0 && net->Ok_0 >= args.min_quote_amount {
                law_topup_moves_buyback_into_reserve(collected);
            }
        }
    }
}

/// Rust's truncating division by a positive divisor is monotone.
proof fn lemma_trunc_div_monotone(x: int, y: int, d: int)
    requires
        x <= y,
        d > 0,
    ensures
        trunc_div(x, d) <= trunc_div(y, d),
{
    if x >= 0 {
        lemma_div_is_ordered(x, y, d);
    } else if y < 0 {
        lemma_div_is_ordered(-y, -x, d);
    } else {
        lemma_div_pos_is_pos(-x, d);
        lemma_div_pos_is_pos(y, d);
    }
}

/// The daily burn count only restarts at a later time than the last burn: burn days
/// never go backwards.
pub proof fn law_burn_day_restarts_only_forward(allowance: UserBurnAllowance, now: i64)
    ensures
        allowance.spec_should_reset(now) ==> now > allowance.last_burn_timestamp,
        now >= allowance.last_burn_timestamp ==> burn_day(
            allowance.last_burn_timestamp as int,
            allowance.created_at as int,
        ) <= burn_day(now as int, allowance.created_at as int),
{
    let offset = crate::std_ints::trunc_rem(allowance.created_at as int, 86400);
    if now <= allowance.last_burn_timestamp {
        lemma_trunc_div_monotone(
            clamp_i64(now - offset),
            clamp_i64(allowance.last_burn_timestamp - offset),
            86400,
        );
    }
    if now >= allowance.last_burn_timestamp {
        lemma_trunc_div_monotone(
            clamp_i64(allowance.last_burn_timestamp - offset),
            clamp_i64(now - offset),
            86400,
        );
    }
}

/// Adding base tokens to a virtual account and taking the same amount out again gives
/// back the account as it was.
pub proof fn law_virtual_account_add_then_sub(vta: VirtualTokenAccount, base_amount: u64)
    requires
        vta.balance + base_amount <= u64::MAX,
    ensures
        ({
            let added = VirtualTokenAccount { balance: (vta.balance + base_amount) as u64, ..vta };
            let removed = VirtualTokenAccount {
                balance: (added.balance - base_amount) as u64,
                ..added
            };
            removed == vta
        }),
{
}

/// An accepted platform keeps burns below what the fees pay for: the burn rate limit is
/// below the total fee rate, every tier restricted to the pool owner or a whitelisted key
/// burns at most three quarters of the total fee rate and every open tier at most 10 bp,
/// and stress decays over at least the burn window.
pub proof fn law_accepted_config_burns_below_fees(
    pool_creator_fee_bp: u16,
    pool_topup_fee_bp: u16,
    platform_fee_bp: u16,
    burn_tiers: Seq<BurnTier>,
    burn_limit_bp_x100: u64,
    burn_decay_rate_per_sec_bp_x100: u64,
)
    requires
        spec_validate_fees_and_burn_config(
            pool_creator_fee_bp,
            pool_topup_fee_bp,
            platform_fee_bp,
            burn_tiers,
            burn_limit_bp_x100,
            burn_decay_rate_per_sec_bp_x100,
        ) is Ok,
    ensures
        ({
            let total_fees = pool_creator_fee_bp + pool_topup_fee_bp + platform_fee_bp;
            &&& total_fees <= 2000
            &&& pool_topup_fee_bp >= 100
            &&& burn_limit_bp_x100 < total_fees * 100
            &&& burn_decay_rate_per_sec_bp_x100 * 900 <= burn_limit_bp_x100
            &&& forall|i: int|
                0 <= i < burn_tiers.len() ==> tier_within_limits(
                    #[trigger] burn_tiers[i],
                    safe_max_burn_bp_x100(total_fees),
                )
        }),
{
    let max_decay = (burn_limit_bp_x100 as int) / 900;
    lemma_floor_times_divisor(burn_limit_bp_x100 as int, 900);
    assert(burn_decay_rate_per_sec_bp_x100 * 900 <= max_decay * 900) by (nonlinear_arith)
        requires
            burn_decay_rate_per_sec_bp_x100 <= max_decay,
    ;
}

/// In a `BcpmmPool`, a burn turns the reduction of the virtual reserve into a top-up
/// owed to the pool: virtual reserve plus outstanding top-up is unchanged, and the real
/// reserve is untouched.
pub proof fn law_bcpmm_burn_owes_virtual_reduction(
    pool: BcpmmPool,
    allowance: CpmmBurnAllowance,
    central_state: CentralState,
    signer: Address,
    pool_owner: bool,
    now: i64,
)
    requires
        cpmm_burn_defined(pool, allowance, central_state, signer, pool_owner, now),
    ensures
        ({
            let (after, _, result) = cpmm_spec_burn(
                pool,
                allowance,
                central_state,
                signer,
                pool_owner,
                now,
            );
            result is Ok ==> {
                &&& after.a_virtual_reserve + after.a_remaining_topup == pool.a_virtual_reserve
                    + pool.a_remaining_topup
                &&& after.a_reserve == pool.a_reserve
                &&& after.a_virtual_reserve <= pool.a_virtual_reserve
                &&& after.b_reserve <= pool.b_reserve
            }
        }),
{
    if pool_owner == (pool.creator == signer) {
        let bp = if pool_owner {
            central_state.creator_burn_bp_x100
        } else {
            central_state.user_burn_bp_x100
        };
        let b = pool.b_reserve as int;
        let y = spec_burn_amount(bp as int, b);
        if b > 0 && 0 <= y <= b {
            lemma_scaled_down_le(pool.a_virtual_reserve as int, b - y, b);
        }
        lemma_div_pos_is_pos(b * bp, X100_100_PERCENT_BP as int);
    }
}

/// In a `BcpmmPool`, a buy hands the buyer exactly the base tokens that leave the
/// reserve.
pub proof fn law_bcpmm_buy_conserves_base(
    pool: BcpmmPool,
    vta: CpmmVirtualTokenAccount,
    args: CpmmBuyArgs,
)
    requires
        cpmm_buy_defined(pool, vta, args),
    ensures
        ({
            let (after, account, result) = cpmm_spec_buy(pool, vta, args);
            result is Ok ==> after.b_reserve + account.balance == pool.b_reserve + vta.balance
        }),
{
    let (after, account, result) = cpmm_spec_buy(pool, vta, args);
    if result is Ok {
        let fees = crate::cpmm_poc::helpers::spec_calculate_fees(
            args.a_amount,
            pool.creator_fee_basis_points,
            pool.buyback_fee_basis_points,
        )->Ok_0;
        let swap = args.a_amount - fees.creator_fees_amount - fees.buyback_fees_amount;
        lemma_scaled_down_le(
            pool.b_reserve as int,
            swap,
            pool.a_reserve + pool.a_virtual_reserve + swap,
        );
    }
}

/// A successful burn tops the pool up from its buyback fees: the real reserve grows and
/// the buyback balance shrinks by the reported top-up, and afterwards the real reserve
/// has reached the top-up target of the burned pool unless the buyback balance is spent,
/// without going past the target when something was paid. The event reports the pool as
/// it is left, and the base tokens burned are those that left the reserve.
pub proof fn law_burn_tops_up_the_pool(
    pool: CbmmPool,
    allowance: UserBurnAllowance,
    platform_config: PlatformConfig,
    signer: Address,
    burn_authority: Option<Address>,
    pool_key: Address,
    now: i64,
)
    requires
        burn_virtual_token_defined(pool, allowance, platform_config, signer, burn_authority, now),
    ensures
        ({
            let (after, _, result) = spec_burn_virtual_token(
                pool,
                allowance,
                platform_config,
                signer,
                burn_authority,
                pool_key,
                now,
            );
            result matches Ok(event) ==> {
                &&& event.new_a_reserve == after.quote_reserve
                &&& event.new_b_reserve == after.base_reserve
                &&& event.new_virtual_reserve == after.quote_virtual_reserve
                &&& event.new_buyback_fees_balance == after.buyback_fees_balance
                &&& event.burner == signer
                &&& event.pool == pool_key
                &&& event.burn_amount == pool.base_reserve - after.base_reserve
                &&& after.quote_reserve == pool.quote_reserve + event.topup_accrued
                &&& after.buyback_fees_balance == pool.buyback_fees_balance - event.topup_accrued
                &&& topup_target(after) <= u64::MAX ==> (after.buyback_fees_balance == 0
                    || after.quote_reserve >= topup_target(after))
                &&& topup_target(after) <= u64::MAX && event.topup_accrued > 0
                    ==> after.quote_reserve <= topup_target(after)
            }
        }),
{
    let (after, _, result) = spec_burn_virtual_token(
        pool,
        allowance,
        platform_config,
        signer,
        burn_authority,
        pool_key,
        now,
    );
    if result is Ok {
        let popped = allowance.spec_pop(now);
        let tier = spec_burn_tier_check(
            pool,
            allowance.burn_tier_index,
            platform_config,
            signer,
            burn_authority,
            popped.burns_today,
        )->Ok_0;
        lemma_rate_limit_burn_bound(
            pool.burn_limiter,
            tier.burn_bp_x100,
            platform_config.burn_rate_config,
            now,
        );
        let b = pool.base_reserve as int;
        let bp: u64 = match spec_rate_limit(
            pool.burn_limiter,
            tier.burn_bp_x100,
            platform_config.burn_rate_config,
            now,
        ).1 {
            Ok(RateLimitResult::ExecuteFull(bp)) => bp,
            Ok(RateLimitResult::ExecutePartial(bp)) => bp,
            _ => 0,
        };
        lemma_scaled_down_le(b, bp as int, X100_100_PERCENT_BP as int);
        lemma_div_pos_is_pos(b * bp, X100_100_PERCENT_BP as int);
    }
}

/// A tier allows as many burns a day as its daily maximum: once the tier, the burn
/// authority and the pool owner are accepted, the burn of the day numbered `n` (the first
/// after a reset, the next one otherwise) passes the daily check when `n` is at most the
/// tier's maximum, and is refused with `BurnLimitReached`, changing nothing, when it is
/// above.
pub proof fn law_daily_burn_limit(
    pool: CbmmPool,
    allowance: UserBurnAllowance,
    platform_config: PlatformConfig,
    signer: Address,
    burn_authority: Option<Address>,
    pool_key: Address,
    now: i64,
)
    requires
        allowance.pop_defined(now),
        allowance.burn_tier_index < platform_config.burn_tiers@.len(),
        platform_config.burn_tiers@.len() <= MAX_BURN_TIERS,
        platform_config.burn_authority_accepts(burn_authority),
        platform_config.burn_tiers@[allowance.burn_tier_index as int].role is PoolOwner
            ==> pool.creator == signer,
    ensures
        ({
            let tier = platform_config.burn_tiers@[allowance.burn_tier_index as int];
            let n = if allowance.spec_should_reset(now) {
                1
            } else {
                allowance.burns_today + 1
            };
            let (after, allowance_after, result) = spec_burn_virtual_token(
                pool,
                allowance,
                platform_config,
                signer,
                burn_authority,
                pool_key,
                now,
            );
            &&& n <= tier.max_daily_burns ==> result != Err::<BurnEvent, CbmmError>(
                CbmmError::BurnLimitReached,
            )
            &&& n > tier.max_daily_burns ==> {
                &&& result == Err::<BurnEvent, CbmmError>(CbmmError::BurnLimitReached)
                &&& after == pool
                &&& allowance_after == allowance
            }
        }),
{
    let popped = allowance.spec_pop(now);
    assert(popped.burns_today == (if allowance.spec_should_reset(now) {
        1
    } else {
        allowance.burns_today + 1
    }));
    assert((platform_config.burn_tiers@.len() as u8) == platform_config.burn_tiers@.len());
}

/// An accepted platform may set any decay rate within the burn window's range: when the
/// fee rates and the tiers are within their limits and the burn limit is below the total
/// fee rate, a decay rate `d` is accepted exactly when
/// `(limit / 900) / 100 <= d <= limit / 900`, and refused with `InvalidBurnRate` otherwise.
pub proof fn law_decay_rate_range(
    pool_creator_fee_bp: u16,
    pool_topup_fee_bp: u16,
    platform_fee_bp: u16,
    burn_tiers: Seq<BurnTier>,
    burn_limit_bp_x100: u64,
    burn_decay_rate_per_sec_bp_x100: u64,
)
    requires
        pool_creator_fee_bp + pool_topup_fee_bp + platform_fee_bp <= 2000,
        pool_topup_fee_bp >= 100,
        platform_fee_bp <= 1000,
        forall|i: int|
            0 <= i < burn_tiers.len() ==> match #[trigger] burn_tiers[i].role {
                BurnRole::Anyone => burn_tiers[i].burn_bp_x100 <= 1000,
                _ => burn_tiers[i].burn_bp_x100 * 4 <= (pool_creator_fee_bp + pool_topup_fee_bp
                    + platform_fee_bp) * 300,
            },
        burn_limit_bp_x100 < (pool_creator_fee_bp + pool_topup_fee_bp + platform_fee_bp) * 100,
    ensures
        ({
            let d = burn_decay_rate_per_sec_bp_x100 as int;
            let upper = burn_limit_bp_x100 as int / 900;
            let lower = upper / 100;
            let r = spec_validate_fees_and_burn_config(
                pool_creator_fee_bp,
                pool_topup_fee_bp,
                platform_fee_bp,
                burn_tiers,
                burn_limit_bp_x100,
                burn_decay_rate_per_sec_bp_x100,
            );
            &&& lower <= d <= upper ==> r is Ok
            &&& !(lower <= d <= upper) ==> r == Err::<(), CbmmError>(CbmmError::InvalidBurnRate)
        }),
{
    let total = pool_creator_fee_bp + pool_topup_fee_bp + platform_fee_bp;
    assert forall|i: int| 0 <= i < burn_tiers.len() implies tier_within_limits(
        #[trigger] burn_tiers[i],
        safe_max_burn_bp_x100(total),
    ) by {
        match burn_tiers[i].role {
            BurnRole::Anyone => {},
            _ => {
                let x = burn_tiers[i].burn_bp_x100 as int;
                assert(x <= (total * 100 * 3) / 4) by {
                    assert(x * 4 <= total * 300);
                    lemma_div_is_ordered(x * 4, total * 100 * 3, 4);
                    vstd::arithmetic::div_mod::lemma_div_by_multiple(x, 4);
                }
            },
        }
    }
}

/// A burn is refused, changing nothing, when its tier does not exist, when a configured
/// burn authority did not sign, or when a pool-owner tier is used by anyone but the
/// pool's creator; these checks come before the daily limit.
pub proof fn law_burn_refusals(
    pool: CbmmPool,
    allowance: UserBurnAllowance,
    platform_config: PlatformConfig,
    signer: Address,
    burn_authority: Option<Address>,
    pool_key: Address,
    now: i64,
)
    requires
        allowance.pop_defined(now),
        platform_config.burn_tiers@.len() <= MAX_BURN_TIERS,
    ensures
        ({
            let (after, allowance_after, result) = spec_burn_virtual_token(
                pool,
                allowance,
                platform_config,
                signer,
                burn_authority,
                pool_key,
                now,
            );
            let tiers = platform_config.burn_tiers@;
            &&& allowance.burn_tier_index >= tiers.len() ==> result == Err::<BurnEvent, CbmmError>(
                CbmmError::InvalidBurnTierIndex,
            )
            &&& allowance.burn_tier_index < tiers.len() && platform_config.burn_authority is Some
                && burn_authority != platform_config.burn_authority ==> result == Err::<
                BurnEvent,
                CbmmError,
            >(CbmmError::InvalidBurnAuthority)
            &&& allowance.burn_tier_index < tiers.len()
                && platform_config.burn_authority_accepts(burn_authority)
                && tiers[allowance.burn_tier_index as int].role is PoolOwner && pool.creator
                != signer ==> result == Err::<BurnEvent, CbmmError>(CbmmError::InvalidPoolCreator)
            &&& result is Err ==> after == pool && allowance_after == allowance
        }),
{
    assert((platform_config.burn_tiers@.len() as u8) == platform_config.burn_tiers@.len());
}

} // verus!
