use crate::errors::CbmmError;
use crate::helpers::math::{SCALING_FACTOR, X100_100_PERCENT_BP, X10K_100_PERCENT_BP};
use crate::std_ints::{clamp_i64, i64_bits_as_u64, min_int, sat_mul, sat_sub};
use vstd::arithmetic::div_mod::*;
use vstd::arithmetic::mul::*;
use vstd::prelude::*;

verus! {

/// State of the burn rate limiter of a pool.
#[derive(Debug, Clone, Copy, PartialEq, Eq, Structural)]
pub struct BurnRateLimiter {
    /// Executed burns ("heat") that decay over time.
    pub accumulated_stress_bp_x10k: u64,
    /// Pending burns in the queue; does not decay.
    pub pending_queue_shares_bp_x10k: u64,
    pub last_update_ts: i64,
}

/// Outcome of a request to burn.
#[derive(Debug, Clone, Copy, PartialEq, Eq, Structural)]
pub enum RateLimitResult {
    /// Queue was empty/flushed fully. Burn this amount.
    ExecuteFull(u64),
    /// Queue was large; only part of it was executed.
    ExecutePartial(u64),
    /// Nothing executed (system hot or burn too small).
    Queued,
}

/// Limits of the burn rate limiter, in basis points times 100.
#[derive(Debug, Clone, Copy, PartialEq, Eq, Structural)]
pub struct BurnRateConfig {
    pub limit_bp_x100: u64,
    pub min_burn_bp_x100: u64,
    pub decay_rate_per_sec_bp_x100: u64,
}

impl BurnRateConfig {
    pub fn new(limit_bp_x100: u64, min_burn_bp_x100: u64, decay_rate_per_sec_bp_x100: u64) -> (r:
        Self)
        ensures
            r.limit_bp_x100 == limit_bp_x100,
            r.min_burn_bp_x100 == min_burn_bp_x100,
            r.decay_rate_per_sec_bp_x100 == decay_rate_per_sec_bp_x100,
    {
        Self { limit_bp_x100, min_burn_bp_x100, decay_rate_per_sec_bp_x100 }
    }

    /// Scaling the three limits to the x10k scale does not overflow.
    pub open spec fn scalable(self) -> bool {
        &&& self.limit_bp_x100 * 100 <= u64::MAX
        &&& self.min_burn_bp_x100 * 100 <= u64::MAX
        &&& self.decay_rate_per_sec_bp_x100 * 100 <= u64::MAX
    }

    /// Whether the three limits can be scaled to the x10k scale.
    pub fn is_scalable(&self) -> (b: bool)
        ensures
            b == self.scalable(),
    {
        self.limit_bp_x100.checked_mul(100).is_some() && self.min_burn_bp_x100.checked_mul(
            100,
        ).is_some() && self.decay_rate_per_sec_bp_x100.checked_mul(100).is_some()
    }
}

/// Geometric add: `1 - (1 - a) * (1 - b)` on the x10k scale, where the kept part is
/// rounded up so that the result is rounded down.
pub open spec fn spec_compound_add(current_x10k: int, new_x10k: int) -> int {
    let p = X10K_100_PERCENT_BP as int;
    p - ((p - current_x10k) * (p - new_x10k) + p - 1) / p
}

/// Geometric remove: `(total - part) / (1 - part)` on the x10k scale, rounded down.
pub open spec fn spec_compound_remove(total_x10k: int, part_x10k: int) -> int {
    let p = X10K_100_PERCENT_BP as int;
    (total_x10k - part_x10k) * p / (p - part_x10k)
}

/// The limiter after the linear decay of its stress up to `now`.
pub open spec fn decayed_stress(pre: BurnRateLimiter, config: BurnRateConfig, now: i64) -> int {
    let time_delta = i64_bits_as_u64(clamp_i64(now - pre.last_update_ts));
    let decay_amount = sat_mul(time_delta, config.decay_rate_per_sec_bp_x100 * 100);
    sat_sub(pre.accumulated_stress_bp_x10k as int, decay_amount)
}

/// The state of the limiter and the result of a request to burn `new_burn_bp_x100` at
/// time `now`. The request always joins the queue; then as much of the queue as the
/// space under the soft limit allows is executed, unless that is below the minimum burn.
pub open spec fn spec_rate_limit(
    pre: BurnRateLimiter,
    new_burn_bp_x100: u32,
    config: BurnRateConfig,
    now: i64,
) -> (BurnRateLimiter, Result<RateLimitResult, CbmmError>) {
    let p = X10K_100_PERCENT_BP as int;
    let new_burn_x10k = new_burn_bp_x100 * 100;
    let soft_limit_x10k = config.limit_bp_x100 * 100;
    let min_burn_x10k = config.min_burn_bp_x100 * 100;
    let stress = decayed_stress(pre, config, now);
    if pre.pending_queue_shares_bp_x10k > p || new_burn_x10k > p {
        (
            BurnRateLimiter { accumulated_stress_bp_x10k: stress as u64, ..pre },
            Err(CbmmError::MathOverflow),
        )
    } else {
        let pending = spec_compound_add(pre.pending_queue_shares_bp_x10k as int, new_burn_x10k);
        let queued = BurnRateLimiter {
            accumulated_stress_bp_x10k: stress as u64,
            pending_queue_shares_bp_x10k: pending as u64,
            last_update_ts: now,
        };
        let available = sat_sub(soft_limit_x10k, stress);
        let potential = min_int(pending, available);
        if available < min_burn_x10k || potential < min_burn_x10k {
            (queued, Ok(RateLimitResult::Queued))
        } else if potential == p {
            (
                BurnRateLimiter { accumulated_stress_bp_x10k: (stress + potential) as u64, ..queued },
                Err(CbmmError::MathOverflow),
            )
        } else {
            let remaining = spec_compound_remove(pending, potential);
            let burn_output_x100 = (potential / 100) as u64;
            (
                BurnRateLimiter {
                    accumulated_stress_bp_x10k: (stress + potential) as u64,
                    pending_queue_shares_bp_x10k: remaining as u64,
                    last_update_ts: now,
                },
                Ok(
                    if remaining == 0 {
                        RateLimitResult::ExecuteFull(burn_output_x100)
                    } else {
                        RateLimitResult::ExecutePartial(burn_output_x100)
                    },
                ),
            )
        }
    }
}

/// Bounds of the geometric add on the x10k scale.
pub proof fn lemma_compound_add_bounds(c: int, n: int)
    requires
        0 <= c <= X10K_100_PERCENT_BP,
        0 <= n <= X10K_100_PERCENT_BP,
    ensures
        c <= spec_compound_add(c, n) <= X10K_100_PERCENT_BP,
        n <= spec_compound_add(c, n),
{
    let p = X10K_100_PERCENT_BP as int;
    let kc = p - c;
    let kn = p - n;
    assert(0 <= kc * kn <= kc * p) by (nonlinear_arith)
        requires
            0 <= kc,
            0 <= kn <= p,
    ;
    assert(0 <= kc * kn <= p * kn) by (nonlinear_arith)
        requires
            0 <= kc <= p,
            0 <= kn,
    ;
    lemma_div_pos_is_pos(kc * kn + p - 1, p);
    lemma_div_is_ordered(kc * kn + p - 1, kc * p + p - 1, p);
    lemma_div_is_ordered(kc * kn + p - 1, p * kn + p - 1, p);
    lemma_div_multiples_vanish_fancy(kc, p - 1, p);
    lemma_mul_is_commutative(kc, p);
    lemma_div_multiples_vanish_fancy(kn, p - 1, p);
}

/// When the part removed is at most the total and the total at most 100%, the
/// geometric remove stays between 0 and the total.
pub proof fn lemma_compound_remove_bounds(t: int, q: int)
    requires
        0 <= q <= t <= X10K_100_PERCENT_BP,
        q < X10K_100_PERCENT_BP,
    ensures
        0 <= spec_compound_remove(t, q) <= X10K_100_PERCENT_BP,
        spec_compound_remove(t, q) <= t,
{
    let p = X10K_100_PERCENT_BP as int;
    assert(0 <= (t - q) * p <= (p - q) * p) by (nonlinear_arith)
        requires
            0 <= q <= t <= p,
    ;
    lemma_div_pos_is_pos((t - q) * p, p - q);
    lemma_div_is_ordered((t - q) * p, (p - q) * p, p - q);
    lemma_div_by_multiple(p, p - q);
    lemma_mul_is_commutative(p - q, p);
    // (t - q) * p / (p - q) <= t  <=>  (t - q) * p < (t + 1) * (p - q)
    assert((t - q) * p <= t * (p - q)) by (nonlinear_arith)
        requires
            0 <= q <= t <= p,
    ;
    lemma_div_is_ordered((t - q) * p, t * (p - q), p - q);
    lemma_div_by_multiple(t, p - q);
}

/// The share that an executed burn takes is at most 100%.
pub proof fn lemma_rate_limit_burn_bound(
    pre: BurnRateLimiter,
    new_burn_bp_x100: u32,
    config: BurnRateConfig,
    now: i64,
)
    ensures
        match spec_rate_limit(pre, new_burn_bp_x100, config, now).1 {
            Ok(RateLimitResult::ExecuteFull(bp)) => bp <= X100_100_PERCENT_BP,
            Ok(RateLimitResult::ExecutePartial(bp)) => bp <= X100_100_PERCENT_BP,
            _ => true,
        },
{
    let p = X10K_100_PERCENT_BP as int;
    if pre.pending_queue_shares_bp_x10k <= p && new_burn_bp_x100 * 100 <= p {
        lemma_compound_add_bounds(
            pre.pending_queue_shares_bp_x10k as int,
            new_burn_bp_x100 * 100,
        );
    }
}

impl BurnRateLimiter {
    /// A limiter last updated at `now`, with an empty queue and the given stress.
    pub fn new(now: i64, accumulated_stress_bp_x10k: u64) -> (r: Self)
        ensures
            r.accumulated_stress_bp_x10k == accumulated_stress_bp_x10k,
            r.pending_queue_shares_bp_x10k == 0,
            r.last_update_ts == now,
    {
        Self { accumulated_stress_bp_x10k, pending_queue_shares_bp_x10k: 0, last_update_ts: now }
    }

    /// Geometric add: result = 1 - (1 - a) * (1 - b), in x10k basis points.
    /// Used for combining queue or stress in a share-based way.
    fn compound_add(current_x10k: u64, new_x10k: u64) -> (r: Result<u64, CbmmError>)
        ensures
            r is Err <==> (current_x10k > X10K_100_PERCENT_BP || new_x10k > X10K_100_PERCENT_BP),
            r matches Err(e) ==> e == CbmmError::MathOverflow,
            r matches Ok(v) ==> v == spec_compound_add(current_x10k as int, new_x10k as int),
            r matches Ok(v) ==> current_x10k <= v <= X10K_100_PERCENT_BP && new_x10k <= v,
    {
        let p = X10K_100_PERCENT_BP;

        let keep_cur = match p.checked_sub(current_x10k) {
            Some(v) => v,
            None => return Err(CbmmError::MathOverflow),
        };
        let keep_new = match p.checked_sub(new_x10k) {
            Some(v) => v,
            None => return Err(CbmmError::MathOverflow),
        };
        proof {
            lemma_compound_add_bounds(current_x10k as int, new_x10k as int);
            assert(keep_cur as u128 * keep_new as u128 <= 100_000_000u128 * 100_000_000u128)
                by (nonlinear_arith)
                requires
                    keep_cur <= 100_000_000,
                    keep_new <= 100_000_000,
            ;
        }
        let numerator = match (keep_cur as u128).checked_mul(keep_new as u128) {
            Some(v) => v,
            None => return Err(CbmmError::MathOverflow),
        };

        // Round up the "kept" part; the final result is p - keep_combined and needs to be rounded down.
        let with_round = match numerator.checked_add((p - 1) as u128) {
            Some(v) => v,
            None => return Err(CbmmError::MathOverflow),
        };
        let keep_combined = match with_round.checked_div(p as u128) {
            Some(v) => v,
            None => return Err(CbmmError::MathOverflow),
        };

        Ok(p.saturating_sub(keep_combined as u64))
    }

    /// Geometric remove: result = (total - part) / (1 - part), in x10k basis points.
    /// Used to compute the remaining queue after peeling off a burn.
    /// The quotient is truncated to 64 bits, as the cast in the computation does.
    fn compound_remove(total_x10k: u64, part_to_remove_x10k: u64) -> (r: Result<u64, CbmmError>)
        ensures
            r is Err <==> (part_to_remove_x10k > total_x10k || part_to_remove_x10k
                >= X10K_100_PERCENT_BP),
            r matches Err(e) ==> e == CbmmError::MathOverflow,
            r matches Ok(v) ==> v == spec_compound_remove(
                total_x10k as int,
                part_to_remove_x10k as int,
            ) as u64,
    {
        if part_to_remove_x10k > total_x10k {
            return Err(CbmmError::MathOverflow);
        }
        let num = match total_x10k.checked_sub(part_to_remove_x10k) {
            Some(v) => v,
            None => return Err(CbmmError::MathOverflow),
        };
        proof {
            assert(num as u128 * 100_000_000u128 <= 0xffff_ffff_ffff_ffffu128 * 100_000_000u128)
                by (nonlinear_arith);
        }
        let scaled_num = match (num as u128).checked_mul(X10K_100_PERCENT_BP as u128) {
            Some(v) => v,
            None => return Err(CbmmError::MathOverflow),
        };
        let denom = match X10K_100_PERCENT_BP.checked_sub(part_to_remove_x10k) {
            Some(v) => v,
            None => return Err(CbmmError::MathOverflow),
        };
        // Integer division floor is acceptable: worst case we burn slightly less than requested.
        let result = match scaled_num.checked_div(denom as u128) {
            Some(v) => v,
            None => return Err(CbmmError::MathOverflow),
        };
        Ok(result as u64)
    }

    /// Enqueues a burn request of `new_burn_bp_x100` at time `now` and decides how much of
    /// the queue may be burned now.
    pub fn calculate_required_bp_x100(
        &mut self,
        new_burn_bp_x100: u32,  // user input
        config: &BurnRateConfig,
        now: i64,
    ) -> (r: Result<RateLimitResult, CbmmError>)
        requires
            config.scalable(),
        ensures
            (*final(self), r) == spec_rate_limit(*old(self), new_burn_bp_x100, *config, now),
    {
        let ghost pre = *self;
        // Upscale inputs to x10k basis points.
        let new_burn_x10k = (new_burn_bp_x100 as u64) * SCALING_FACTOR;
        let soft_limit_x10k = config.limit_bp_x100 * SCALING_FACTOR;
        let min_burn_x10k = config.min_burn_bp_x100 * SCALING_FACTOR;
        let decay_rate_x10k = config.decay_rate_per_sec_bp_x100 * SCALING_FACTOR;

        // Decay accumulated stress linearly over time.
        let elapsed = now.saturating_sub(self.last_update_ts);
        let time_delta: u64 = if elapsed >= 0 {
            elapsed as u64
        } else {
            (elapsed as i128 + 0x1_0000_0000_0000_0000i128) as u64
        };
        let decay_amount = time_delta.saturating_mul(decay_rate_x10k);
        self.accumulated_stress_bp_x10k = self.accumulated_stress_bp_x10k.saturating_sub(
            decay_amount,
        );
        assert(self.accumulated_stress_bp_x10k == decayed_stress(pre, *config, now));

        // Always enqueue the new request.
        self.pending_queue_shares_bp_x10k = match Self::compound_add(
            self.pending_queue_shares_bp_x10k,
            new_burn_x10k,
        ) {
            Ok(v) => v,
            Err(e) => return Err(e),
        };
        self.last_update_ts = now;

        // Remaining linear capacity under the soft limit.
        let available_space_x10k = soft_limit_x10k.saturating_sub(self.accumulated_stress_bp_x10k);
        if available_space_x10k < min_burn_x10k {
            return Ok(RateLimitResult::Queued);
        }
        // Burn the smaller of total queued shares vs remaining capacity.

        let potential_burn_x10k = self.pending_queue_shares_bp_x10k.min(available_space_x10k);
        if potential_burn_x10k < min_burn_x10k {
            return Ok(RateLimitResult::Queued);
        }
        // Add to stress (linear).

        self.accumulated_stress_bp_x10k = match self.accumulated_stress_bp_x10k.checked_add(
            potential_burn_x10k,
        ) {
            Some(v) => v,
            None => return Err(CbmmError::MathOverflow),
        };

        // Remove from queue (geometric).
        proof {
            if potential_burn_x10k < X10K_100_PERCENT_BP {
                lemma_compound_remove_bounds(
                    self.pending_queue_shares_bp_x10k as int,
                    potential_burn_x10k as int,
                );
            }
        }
        self.pending_queue_shares_bp_x10k = match Self::compound_remove(
            self.pending_queue_shares_bp_x10k,
            potential_burn_x10k,
        ) {
            Ok(v) => v,
            Err(e) => return Err(e),
        };

        // Downscale back to x100 basis points (floor: may burn slightly less than allowed).
        let burn_output_x100 = potential_burn_x10k / SCALING_FACTOR;

        if self.pending_queue_shares_bp_x10k == 0 {
            Ok(RateLimitResult::ExecuteFull(burn_output_x100))
        } else {
            Ok(RateLimitResult::ExecutePartial(burn_output_x100))
        }
    }
}

} // verus!
