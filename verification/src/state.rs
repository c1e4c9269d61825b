use crate::address::Address;
use crate::clock::clock_unix_timestamp;
use crate::errors::CbmmError;
use crate::std_ints::{clamp_i64, trunc_div, trunc_rem};
use crate::helpers::math::{
    calculate_burn_amount, calculate_buy_output_amount, calculate_fees,
    calculate_fees_divides_by_zero, calculate_fees_is_defined, calculate_new_virtual_reserve_after_burn,
    calculate_new_virtual_reserve_after_topup, calculate_optimal_real_quote_reserve,
    calculate_optimal_virtual_quote_reserve, calculate_sell_output_amount, spec_buy_output_amount,
    spec_burn_amount, spec_calculate_fees, spec_optimal_real_quote_reserve,
    spec_optimal_virtual_quote_reserve, spec_sell_output_amount, spec_virtual_reserve_after_burn,
    spec_virtual_reserve_after_topup, X100_100_PERCENT_BP,
};
use crate::helpers::rate_limit::{
    lemma_rate_limit_burn_bound, spec_rate_limit, BurnRateConfig, BurnRateLimiter,
    RateLimitResult,
};
use vstd::prelude::*;

verus! {

pub const CBMM_POOL_INDEX_SEED: u32 = 0;  // this is introduced for extensibility - if we ever need more that one pool per creator, we can use this to differentiate them

pub const DEFAULT_BASE_MINT_DECIMALS: u8 = 6;

/// One billion tokens with the default six decimals.
pub const DEFAULT_BASE_MINT_RESERVE: u64 = 1_000_000_000_000_000;

pub const MIN_VIRTUAL_RESERVE: u64 = 1_000_000;

/// Who may burn at a burn tier.
#[derive(Debug, Clone, Copy)]
pub enum BurnRole {
    /// Permissionless - anyone can burn at this tier
    Anyone,
    /// Only the pool owner (creator) can burn at this tier
    PoolOwner,
    /// Only a specific whitelisted pubkey can burn
    SpecificPubkey(Address),
}

#[derive(Debug, Clone, Copy)]
pub struct BurnTier {
    /// Burn percentage in basis points * 100
    pub burn_bp_x100: u32,
    /// Who can use this tier
    pub role: BurnRole,
    /// Max burns per day (0 = unlimited)
    pub max_daily_burns: u16,
}

#[derive(Debug, Clone)]
pub struct PlatformConfig {
    pub bump: u8,
    pub admin: Address,
    pub creator: Address,
    pub quote_mint: Address,
    /// When set, every burn must be signed by this key.
    pub burn_authority: Option<Address>,
    pub pool_creator_fee_bp: u16,
    pub pool_topup_fee_bp: u16,
    pub platform_fee_bp: u16,
    pub burn_rate_config: BurnRateConfig,
    /// used as a seed for the burn allowance accounts - update makes all old allowances invalid
    pub burn_tiers_updated_at: i64,
    pub burn_tiers: Vec<BurnTier>,
}

/// Maximum total fees allowed (20%)
pub const MAX_TOTAL_FEES_BP: u16 = 2_000;

/// Minimum topup fee required (1%)
pub const MIN_TOPUP_FEE_BP: u16 = 100;

/// Maximum platform fee allowed (10%)
pub const MAX_PLATFORM_FEE_BP: u16 = 1_000;

/// Time window for reaching theoretical burn limit (15 minutes in seconds)
pub const BURN_LIMIT_TIME_WINDOW_SECONDS: i64 = 900;

/// 10 bp (1000 bp_x100) hard limit for unrestricted role
pub const MAX_DAILY_BURN_BP_X100_ANYONE: u64 = 1_000;

/// Maximum number of burn tiers of a platform.
pub const MAX_BURN_TIERS: usize = 5;

/// A tier burns no more than its role may: 10 bp for anyone, three quarters of the
/// total fees for the pool owner or a whitelisted key.
pub open spec fn tier_within_limits(tier: BurnTier, safe_max_bp_x100: int) -> bool {
    match tier.role {
        BurnRole::Anyone => tier.burn_bp_x100 <= MAX_DAILY_BURN_BP_X100_ANYONE,
        _ => tier.burn_bp_x100 <= safe_max_bp_x100,
    }
}

/// Three quarters of the total fees, in basis points times 100.
pub open spec fn safe_max_burn_bp_x100(total_fees_bp: int) -> int {
    (total_fees_bp * 100 * 3) / 4
}

/// Whether a platform's fees and burn settings are accepted.
pub open spec fn spec_validate_fees_and_burn_config(
    pool_creator_fee_bp: u16,
    pool_topup_fee_bp: u16,
    platform_fee_bp: u16,
    burn_tiers: Seq<BurnTier>,
    burn_limit_bp_x100: u64,
    burn_decay_rate_per_sec_bp_x100: u64,
) -> Result<(), CbmmError> {
    let total_fees = pool_creator_fee_bp + pool_topup_fee_bp + platform_fee_bp;
    let max_decay = (burn_limit_bp_x100 as int) / (BURN_LIMIT_TIME_WINDOW_SECONDS as int);
    if total_fees > u16::MAX {
        Err(CbmmError::MathOverflow)
    } else if total_fees > MAX_TOTAL_FEES_BP || pool_topup_fee_bp < MIN_TOPUP_FEE_BP
        || platform_fee_bp > MAX_PLATFORM_FEE_BP {
        Err(CbmmError::InvalidFeeBasisPoints)
    } else if exists|i: int|
        0 <= i < burn_tiers.len() && !tier_within_limits(
            #[trigger] burn_tiers[i],
            safe_max_burn_bp_x100(total_fees),
        ) {
        Err(CbmmError::InvalidBurnTiers)
    } else if burn_limit_bp_x100 >= total_fees * 100 {
        Err(CbmmError::InvalidBurnTiers)
    } else if burn_decay_rate_per_sec_bp_x100 < max_decay / 100 || burn_decay_rate_per_sec_bp_x100
        > max_decay {
        Err(CbmmError::InvalidBurnRate)
    } else {
        Ok(())
    }
}

impl PlatformConfig {
    /// Checks the fee rates, the burn tiers and the burn rate settings of a platform.
    pub fn validate_fees_and_burn_config(
        pool_creator_fee_bp: u16,
        pool_topup_fee_bp: u16,
        platform_fee_bp: u16,
        burn_tiers: &[BurnTier],
        burn_limit_bp_x100: u64,
        burn_decay_rate_per_sec_bp_x100: u64,
    ) -> (r: Result<(), CbmmError>)
        ensures
            r == spec_validate_fees_and_burn_config(
                pool_creator_fee_bp,
                pool_topup_fee_bp,
                platform_fee_bp,
                burn_tiers@,
                burn_limit_bp_x100,
                burn_decay_rate_per_sec_bp_x100,
            ),
    {
        // 1. Validate fee constraints
        let total_fees = match pool_creator_fee_bp.checked_add(pool_topup_fee_bp) {
            Some(sum) => match sum.checked_add(platform_fee_bp) {
                Some(total) => total,
                None => return Err(CbmmError::MathOverflow),
            },
            None => return Err(CbmmError::MathOverflow),
        };
        if !(total_fees <= MAX_TOTAL_FEES_BP) {
            return Err(CbmmError::InvalidFeeBasisPoints);
        }
        if !(pool_topup_fee_bp >= MIN_TOPUP_FEE_BP) {
            return Err(CbmmError::InvalidFeeBasisPoints);
        }
        if !(platform_fee_bp <= MAX_PLATFORM_FEE_BP) {
            return Err(CbmmError::InvalidFeeBasisPoints);
        }

        // 2. Validate burn tiers
        let total_fees_bp_x100 = (total_fees as u64) * 100;

        // Safe max is set to 3/4 of total fees percentage
        let safe_max_bp_x100 = (total_fees_bp_x100 * 3) / 4;

        let mut i: usize = 0;
        while i < burn_tiers.len()
            invariant
                0 <= i <= burn_tiers@.len(),
                total_fees as int == pool_creator_fee_bp + pool_topup_fee_bp + platform_fee_bp,
                total_fees <= MAX_TOTAL_FEES_BP,
                pool_topup_fee_bp >= MIN_TOPUP_FEE_BP,
                platform_fee_bp <= MAX_PLATFORM_FEE_BP,
                total_fees_bp_x100 == total_fees * 100,
                safe_max_bp_x100 == safe_max_burn_bp_x100(total_fees as int),
                forall|j: int|
                    0 <= j < i ==> tier_within_limits(
                        #[trigger] burn_tiers@[j],
                        safe_max_burn_bp_x100(total_fees as int),
                    ),
            decreases burn_tiers@.len() - i,
        {
            let tier = &burn_tiers[i];
            match &tier.role {
                BurnRole::Anyone => {
                    if !(tier.burn_bp_x100 as u64 <= MAX_DAILY_BURN_BP_X100_ANYONE) {
                        assert(!tier_within_limits(
                            burn_tiers@[i as int],
                            safe_max_burn_bp_x100(total_fees as int),
                        ));
                        return Err(CbmmError::InvalidBurnTiers);
                    }
                },
                BurnRole::PoolOwner | BurnRole::SpecificPubkey(_) => {
                    if !(tier.burn_bp_x100 as u64 <= safe_max_bp_x100) {
                        assert(!tier_within_limits(
                            burn_tiers@[i as int],
                            safe_max_burn_bp_x100(total_fees as int),
                        ));
                        return Err(CbmmError::InvalidBurnTiers);
                    }
                },
            }
            i = i + 1;
        }

        // 3. Validate burn rate config
        if !(burn_limit_bp_x100 < total_fees_bp_x100) {
            return Err(CbmmError::InvalidBurnTiers);
        }
        // Decay should throttle to at least 15 minute full recovery

        let max_decay = burn_limit_bp_x100 / 900;

        // Require at least some decay rate (Allow 99% tolerance downward (slower decay is safer)
        let min_decay = max_decay / 100;

        if !(burn_decay_rate_per_sec_bp_x100 >= min_decay) {
            return Err(CbmmError::InvalidBurnRate);
        }
        if !(max_decay >= burn_decay_rate_per_sec_bp_x100) {
            return Err(CbmmError::InvalidBurnRate);
        }
        Ok(())
    }
}

/// The platform configuration that `try_new` builds once every check has passed.
pub open spec fn spec_platform_config(
    bump: u8,
    admin: Address,
    creator: Address,
    quote_mint: Address,
    burn_tiers: Vec<BurnTier>,
    pool_creator_fee_bp: u16,
    pool_topup_fee_bp: u16,
    platform_fee_bp: u16,
    burn_limit_bp_x100: u64,
    burn_min_bp_x100: u64,
    burn_decay_rate_per_sec_bp_x100: u64,
    now: i64,
) -> PlatformConfig {
    PlatformConfig {
        bump,
        admin,
        creator,
        quote_mint,
        burn_authority: None,
        pool_creator_fee_bp,
        pool_topup_fee_bp,
        platform_fee_bp,
        burn_rate_config: BurnRateConfig {
            limit_bp_x100: burn_limit_bp_x100,
            min_burn_bp_x100: burn_min_bp_x100,
            decay_rate_per_sec_bp_x100: burn_decay_rate_per_sec_bp_x100,
        },
        burn_tiers_updated_at: now,
        burn_tiers,
    }
}

/// The checks of a new platform configuration: at most five tiers, then the fee and
/// burn settings.
pub open spec fn spec_platform_config_check(
    burn_tiers: Seq<BurnTier>,
    pool_creator_fee_bp: u16,
    pool_topup_fee_bp: u16,
    platform_fee_bp: u16,
    burn_limit_bp_x100: u64,
    burn_decay_rate_per_sec_bp_x100: u64,
) -> Result<(), CbmmError> {
    if burn_tiers.len() > MAX_BURN_TIERS {
        Err(CbmmError::InvalidBurnTiers)
    } else {
        spec_validate_fees_and_burn_config(
            pool_creator_fee_bp,
            pool_topup_fee_bp,
            platform_fee_bp,
            burn_tiers,
            burn_limit_bp_x100,
            burn_decay_rate_per_sec_bp_x100,
        )
    }
}

impl PlatformConfig {
    fn assemble(
        bump: u8,
        admin: Address,
        creator: Address,
        quote_mint: Address,
        burn_tiers: Vec<BurnTier>,
        pool_creator_fee_bp: u16,
        pool_topup_fee_bp: u16,
        platform_fee_bp: u16,
        burn_limit_bp_x100: u64,
        burn_min_bp_x100: u64,
        burn_decay_rate_per_sec_bp_x100: u64,
        now: i64,
    ) -> (r: Self)
        ensures
            r == spec_platform_config(
                bump,
                admin,
                creator,
                quote_mint,
                burn_tiers,
                pool_creator_fee_bp,
                pool_topup_fee_bp,
                platform_fee_bp,
                burn_limit_bp_x100,
                burn_min_bp_x100,
                burn_decay_rate_per_sec_bp_x100,
                now,
            ),
    {
        let burn_config = BurnRateConfig::new(
            burn_limit_bp_x100,
            burn_min_bp_x100,
            burn_decay_rate_per_sec_bp_x100,
        );
        Self {
            bump,
            admin,
            creator,
            quote_mint,
            burn_authority: None,
            burn_tiers,
            burn_tiers_updated_at: now,
            burn_rate_config: burn_config,
            pool_creator_fee_bp,
            pool_topup_fee_bp,
            platform_fee_bp,
        }
    }

    fn check_new(
        burn_tiers: &Vec<BurnTier>,
        pool_creator_fee_bp: u16,
        pool_topup_fee_bp: u16,
        platform_fee_bp: u16,
        burn_limit_bp_x100: u64,
        burn_decay_rate_per_sec_bp_x100: u64,
    ) -> (r: Result<(), CbmmError>)
        ensures
            r == spec_platform_config_check(
                burn_tiers@,
                pool_creator_fee_bp,
                pool_topup_fee_bp,
                platform_fee_bp,
                burn_limit_bp_x100,
                burn_decay_rate_per_sec_bp_x100,
            ),
    {
        if !(burn_tiers.len() <= MAX_BURN_TIERS) {
            return Err(CbmmError::InvalidBurnTiers);
        }
        Self::validate_fees_and_burn_config(
            pool_creator_fee_bp,
            pool_topup_fee_bp,
            platform_fee_bp,
            burn_tiers.as_slice(),
            burn_limit_bp_x100,
            burn_decay_rate_per_sec_bp_x100,
        )
    }

    /// Builds a platform configuration whose burn tiers take effect at `now`, after
    /// checking its tiers, fees and burn settings.
    pub fn try_new_at(
        bump: u8,
        admin: Address,
        creator: Address,
        quote_mint: Address,
        burn_tiers: Vec<BurnTier>,
        pool_creator_fee_bp: u16,
        pool_topup_fee_bp: u16,
        platform_fee_bp: u16,
        burn_limit_bp_x100: u64,
        burn_min_bp_x100: u64,
        burn_decay_rate_per_sec_bp_x100: u64,
        now: i64,
    ) -> (r: Result<Self, CbmmError>)
        ensures
            match spec_platform_config_check(
                burn_tiers@,
                pool_creator_fee_bp,
                pool_topup_fee_bp,
                platform_fee_bp,
                burn_limit_bp_x100,
                burn_decay_rate_per_sec_bp_x100,
            ) {
                Err(e) => r == Err::<Self, CbmmError>(e),
                Ok(_) => r == Ok::<Self, CbmmError>(
                    spec_platform_config(
                        bump,
                        admin,
                        creator,
                        quote_mint,
                        burn_tiers,
                        pool_creator_fee_bp,
                        pool_topup_fee_bp,
                        platform_fee_bp,
                        burn_limit_bp_x100,
                        burn_min_bp_x100,
                        burn_decay_rate_per_sec_bp_x100,
                        now,
                    ),
                ),
            },
    {
        match Self::check_new(
            &burn_tiers,
            pool_creator_fee_bp,
            pool_topup_fee_bp,
            platform_fee_bp,
            burn_limit_bp_x100,
            burn_decay_rate_per_sec_bp_x100,
        ) {
            Ok(()) => {},
            Err(e) => return Err(e),
        }
        Ok(
            Self::assemble(
                bump,
                admin,
                creator,
                quote_mint,
                burn_tiers,
                pool_creator_fee_bp,
                pool_topup_fee_bp,
                platform_fee_bp,
                burn_limit_bp_x100,
                burn_min_bp_x100,
                burn_decay_rate_per_sec_bp_x100,
                now,
            ),
        )
    }

    /// `try_new_at` at the time the runtime's clock reports. The checks come first; when
    /// they pass and the clock cannot be read, the result is `SysvarUnavailable`.
    pub fn try_new(
        bump: u8,
        admin: Address,
        creator: Address,
        quote_mint: Address,
        burn_tiers: Vec<BurnTier>,
        pool_creator_fee_bp: u16,
        pool_topup_fee_bp: u16,
        platform_fee_bp: u16,
        burn_limit_bp_x100: u64,
        burn_min_bp_x100: u64,
        burn_decay_rate_per_sec_bp_x100: u64,
    ) -> (r: Result<Self, CbmmError>)
        ensures
            match spec_platform_config_check(
                burn_tiers@,
                pool_creator_fee_bp,
                pool_topup_fee_bp,
                platform_fee_bp,
                burn_limit_bp_x100,
                burn_decay_rate_per_sec_bp_x100,
            ) {
                Err(e) => r == Err::<Self, CbmmError>(e),
                Ok(_) => r == Err::<Self, CbmmError>(CbmmError::SysvarUnavailable) || exists|now: i64|
                    r == Ok::<Self, CbmmError>(
                        #[trigger] spec_platform_config(
                            bump,
                            admin,
                            creator,
                            quote_mint,
                            burn_tiers,
                            pool_creator_fee_bp,
                            pool_topup_fee_bp,
                            platform_fee_bp,
                            burn_limit_bp_x100,
                            burn_min_bp_x100,
                            burn_decay_rate_per_sec_bp_x100,
                            now,
                        ),
                    ),
            },
    {
        match Self::check_new(
            &burn_tiers,
            pool_creator_fee_bp,
            pool_topup_fee_bp,
            platform_fee_bp,
            burn_limit_bp_x100,
            burn_decay_rate_per_sec_bp_x100,
        ) {
            Ok(()) => {},
            Err(e) => return Err(e),
        }
        let now = match clock_unix_timestamp() {
            Ok(now) => now,
            Err(_) => return Err(CbmmError::SysvarUnavailable),
        };
        Ok(
            Self::assemble(
                bump,
                admin,
                creator,
                quote_mint,
                burn_tiers,
                pool_creator_fee_bp,
                pool_topup_fee_bp,
                platform_fee_bp,
                burn_limit_bp_x100,
                burn_min_bp_x100,
                burn_decay_rate_per_sec_bp_x100,
                now,
            ),
        )
    }

    /// A configured burn authority must have signed; without one, any signer passes.
    pub open spec fn burn_authority_accepts(self, signer: Option<Address>) -> bool {
        match self.burn_authority {
            None => true,
            Some(authority) => signer == Some(authority),
        }
    }

    /// If a global burn authority is configured, requires it to have signed.
    pub fn check_burn_authority(&self, signer: Option<Address>) -> (r: Result<(), CbmmError>)
        ensures
            r is Ok <==> self.burn_authority_accepts(signer),
            r is Err ==> r == Err::<(), CbmmError>(CbmmError::InvalidBurnAuthority),
    {
        match &self.burn_authority {
            None => Ok(()),
            Some(authority) => match &signer {
                Some(key) => {
                    if key.same_as(authority) {
                        Ok(())
                    } else {
                        Err(CbmmError::InvalidBurnAuthority)
                    }
                },
                None => Err(CbmmError::InvalidBurnAuthority),
            },
        }
    }
}

// A is the real SPL token
// B is the virtual token
#[derive(Debug, Clone, Copy)]
pub struct CbmmPool {
    /// Bump seed
    pub bump: u8,
    /// Pool creator address
    pub creator: Address,
    /// Pool index per creator
    pub pool_index: u32,
    /// Platform config used by this pool
    pub platform_config: Address,
    /// A mint address
    pub quote_mint: Address,
    /// A reserve including decimals
    pub quote_reserve: u64,
    /// A virtual reserve including decimals
    pub quote_virtual_reserve: u64,
    /// A optimal virtual reserve that keeps the worst-case exit price at the starting value
    pub quote_optimal_virtual_reserve: u64,
    /// A starting virtual reserve that is used to calculate the optimal virtual reserve
    pub quote_starting_virtual_reserve: u64,
    /// B mint decimals
    pub base_mint_decimals: u8,
    /// B reserve including decimals
    pub base_reserve: u64,
    /// B starting total supply including decimals
    pub base_starting_total_supply: u64,
    /// B total supply including decimals
    pub base_total_supply: u64,
    /// Creator fees balance denominated in Mint A including decimals
    pub creator_fees_balance: u64,
    /// Total buyback fees accumulated in Mint A including decimals
    pub buyback_fees_balance: u64,
    /// Total platform fees accumulated in Mint A including decimals
    pub platform_fees_balance: u64,
    /// Creator fee basis points
    pub creator_fee_bp: u16,
    /// Buyback fee basis points
    pub buyback_fee_bp: u16,
    /// Platform fee basis points
    pub platform_fee_bp: u16,
    /// Burn rate limiter
    pub burn_limiter: BurnRateLimiter,
}

#[derive(Debug, Clone, Copy, PartialEq, Eq, Structural)]
pub struct BurnResult {
    pub rate_limit_result: RateLimitResult,
    pub burn_amount: u64,
}

#[derive(Debug, Clone, Copy, PartialEq, Eq, Structural)]
pub struct SwapResult {
    pub quote_amount: u64,
    pub base_amount: u64,
}

/// The stress a new pool starts with: three quarters of its total fee rate, so that the
/// pool is not exploitable right after creation.
pub open spec fn initial_stress(creator_fee_bp: u16, buyback_fee_bp: u16, platform_fee_bp: u16) -> int {
    (creator_fee_bp + buyback_fee_bp + platform_fee_bp) * 100 * 3 / 4
}

/// A new pool: no real quote reserve, the whole default base supply in reserve, and the
/// given virtual reserve as its starting, current and optimal virtual reserve.
pub open spec fn spec_new_pool(
    bump: u8,
    creator: Address,
    pool_index: u32,
    platform_config: Address,
    quote_mint: Address,
    quote_virtual_reserve: u64,
    creator_fee_bp: u16,
    buyback_fee_bp: u16,
    platform_fee_bp: u16,
    now: i64,
) -> CbmmPool {
    CbmmPool {
        bump,
        creator,
        pool_index,
        platform_config,
        quote_mint,
        quote_reserve: 0,
        quote_virtual_reserve,
        quote_optimal_virtual_reserve: quote_virtual_reserve,
        quote_starting_virtual_reserve: quote_virtual_reserve,
        base_mint_decimals: DEFAULT_BASE_MINT_DECIMALS,
        base_reserve: DEFAULT_BASE_MINT_RESERVE,
        base_starting_total_supply: DEFAULT_BASE_MINT_RESERVE,
        base_total_supply: DEFAULT_BASE_MINT_RESERVE,
        creator_fees_balance: 0,
        buyback_fees_balance: 0,
        platform_fees_balance: 0,
        creator_fee_bp,
        buyback_fee_bp,
        platform_fee_bp,
        burn_limiter: BurnRateLimiter {
            accumulated_stress_bp_x10k: initial_stress(
                creator_fee_bp,
                buyback_fee_bp,
                platform_fee_bp,
            ) as u64,
            pending_queue_shares_bp_x10k: 0,
            last_update_ts: now,
        },
    }
}

/// The checks of a new pool.
pub open spec fn spec_new_pool_check(quote_virtual_reserve: u64, buyback_fee_bp: u16) -> Result<
    (),
    CbmmError,
> {
    if quote_virtual_reserve == 0 {
        Err(CbmmError::InvalidVirtualReserve)
    } else if buyback_fee_bp == 0 {
        Err(CbmmError::InvalidBuybackFeeBasisPoints)
    } else {
        Ok(())
    }
}

/// The three fee rates of a pool sum within `u16`.
pub open spec fn fee_rates_fit(creator_fee_bp: u16, buyback_fee_bp: u16, platform_fee_bp: u16) -> bool {
    creator_fee_bp + buyback_fee_bp + platform_fee_bp <= u16::MAX
}

impl CbmmPool {
    fn assemble(
        bump: u8,
        creator: Address,
        pool_index: u32,
        platform_config: Address,
        quote_mint: Address,
        quote_virtual_reserve: u64,
        creator_fee_bp: u16,
        buyback_fee_bp: u16,
        platform_fee_bp: u16,
        now: i64,
    ) -> (r: Self)
        requires
            fee_rates_fit(creator_fee_bp, buyback_fee_bp, platform_fee_bp),
        ensures
            r == spec_new_pool(
                bump,
                creator,
                pool_index,
                platform_config,
                quote_mint,
                quote_virtual_reserve,
                creator_fee_bp,
                buyback_fee_bp,
                platform_fee_bp,
                now,
            ),
    {
        // Initial stress is 3/4 of total fees - to ensure the pool is not exploitable after creation
        let total_fees_bp_x100 = (creator_fee_bp + buyback_fee_bp + platform_fee_bp) as u64 * 100;
        let initial_stress_bp_x10k = total_fees_bp_x100 * 3 / 4;
        let burn_limiter = BurnRateLimiter::new(now, initial_stress_bp_x10k);
        Self {
            bump,
            creator,
            pool_index,
            platform_config,
            quote_mint,
            quote_reserve: 0,
            quote_virtual_reserve,
            quote_optimal_virtual_reserve: quote_virtual_reserve,
            quote_starting_virtual_reserve: quote_virtual_reserve,
            base_mint_decimals: DEFAULT_BASE_MINT_DECIMALS,
            base_reserve: DEFAULT_BASE_MINT_RESERVE,
            base_starting_total_supply: DEFAULT_BASE_MINT_RESERVE,
            base_total_supply: DEFAULT_BASE_MINT_RESERVE,
            creator_fees_balance: 0,
            buyback_fees_balance: 0,
            platform_fees_balance: 0,
            creator_fee_bp,
            buyback_fee_bp,
            platform_fee_bp,
            burn_limiter,
        }
    }

    /// A new pool whose burn limiter starts at `now`.
    pub fn try_new_at(
        bump: u8,
        creator: Address,
        pool_index: u32,
        platform_config: Address,
        quote_mint: Address,
        quote_virtual_reserve: u64,
        creator_fee_bp: u16,
        buyback_fee_bp: u16,
        platform_fee_bp: u16,
        now: i64,
    ) -> (r: Result<Self, CbmmError>)
        requires
            spec_new_pool_check(quote_virtual_reserve, buyback_fee_bp) is Ok ==> fee_rates_fit(
                creator_fee_bp,
                buyback_fee_bp,
                platform_fee_bp,
            ),
        ensures
            match spec_new_pool_check(quote_virtual_reserve, buyback_fee_bp) {
                Err(e) => r == Err::<Self, CbmmError>(e),
                Ok(_) => r == Ok::<Self, CbmmError>(
                    spec_new_pool(
                        bump,
                        creator,
                        pool_index,
                        platform_config,
                        quote_mint,
                        quote_virtual_reserve,
                        creator_fee_bp,
                        buyback_fee_bp,
                        platform_fee_bp,
                        now,
                    ),
                ),
            },
    {
        if !(quote_virtual_reserve > 0) {
            return Err(CbmmError::InvalidVirtualReserve);
        }
        if !(buyback_fee_bp > 0) {
            return Err(CbmmError::InvalidBuybackFeeBasisPoints);
        }
        Ok(
            Self::assemble(
                bump,
                creator,
                pool_index,
                platform_config,
                quote_mint,
                quote_virtual_reserve,
                creator_fee_bp,
                buyback_fee_bp,
                platform_fee_bp,
                now,
            ),
        )
    }

    /// `try_new_at` at the time the runtime's clock reports. The checks come first; when
    /// they pass and the clock cannot be read, the result is `SysvarUnavailable`.
    pub fn try_new(
        bump: u8,
        creator: Address,
        pool_index: u32,
        platform_config: Address,
        quote_mint: Address,
        quote_virtual_reserve: u64,
        creator_fee_bp: u16,
        buyback_fee_bp: u16,
        platform_fee_bp: u16,
    ) -> (r: Result<Self, CbmmError>)
        requires
            spec_new_pool_check(quote_virtual_reserve, buyback_fee_bp) is Ok ==> fee_rates_fit(
                creator_fee_bp,
                buyback_fee_bp,
                platform_fee_bp,
            ),
        ensures
            match spec_new_pool_check(quote_virtual_reserve, buyback_fee_bp) {
                Err(e) => r == Err::<Self, CbmmError>(e),
                Ok(_) => r == Err::<Self, CbmmError>(CbmmError::SysvarUnavailable) || exists|now: i64|
                    r == Ok::<Self, CbmmError>(
                        #[trigger] spec_new_pool(
                            bump,
                            creator,
                            pool_index,
                            platform_config,
                            quote_mint,
                            quote_virtual_reserve,
                            creator_fee_bp,
                            buyback_fee_bp,
                            platform_fee_bp,
                            now,
                        ),
                    ),
            },
    {
        if !(quote_virtual_reserve > 0) {
            return Err(CbmmError::InvalidVirtualReserve);
        }
        if !(buyback_fee_bp > 0) {
            return Err(CbmmError::InvalidBuybackFeeBasisPoints);
        }
        let now = match clock_unix_timestamp() {
            Ok(now) => now,
            Err(_) => return Err(CbmmError::SysvarUnavailable),
        };
        Ok(
            Self::assemble(
                bump,
                creator,
                pool_index,
                platform_config,
                quote_mint,
                quote_virtual_reserve,
                creator_fee_bp,
                buyback_fee_bp,
                platform_fee_bp,
                now,
            ),
        )
    }

    /// The fee computation of this pool divides by zero, or one of the balances or the
    /// total fee overflows, or the fees exceed the amount.
    pub open spec fn collect_fees_panics(self, quote_amount: u64) -> bool {
        ||| calculate_fees_divides_by_zero(
            quote_amount,
            self.creator_fee_bp,
            self.buyback_fee_bp,
            self.platform_fee_bp,
        )
        ||| match spec_calculate_fees(
            quote_amount,
            self.creator_fee_bp,
            self.buyback_fee_bp,
            self.platform_fee_bp,
        ) {
            Ok(fees) => {
                ||| self.creator_fees_balance + fees.creator_fees_amount > u64::MAX
                ||| self.buyback_fees_balance + fees.buyback_fees_amount > u64::MAX
                ||| self.platform_fees_balance + fees.platform_fees_amount > u64::MAX
                ||| fees.total() > quote_amount
            },
            Err(_) => false,
        }
    }

    /// Whether taking the fees of a trade of `quote_amount` stays clear of a zero rate in
    /// the fee check, of an overflowing balance and of fees above the amount.
    pub fn collect_fees_is_defined(&self, quote_amount: u64) -> (b: bool)
        ensures
            b == !self.collect_fees_panics(quote_amount),
    {
        if !calculate_fees_is_defined(
            quote_amount,
            self.creator_fee_bp,
            self.buyback_fee_bp,
            self.platform_fee_bp,
        ) {
            return false;
        }
        match calculate_fees(
            quote_amount,
            self.creator_fee_bp,
            self.buyback_fee_bp,
            self.platform_fee_bp,
        ) {
            Err(_) => true,
            Ok(fees) => {
                self.creator_fees_balance.checked_add(fees.creator_fees_amount).is_some()
                    && self.buyback_fees_balance.checked_add(fees.buyback_fees_amount).is_some()
                    && self.platform_fees_balance.checked_add(fees.platform_fees_amount).is_some()
                    && fees.creator_fees_amount as u128 + fees.buyback_fees_amount as u128
                    + fees.platform_fees_amount as u128 <= quote_amount as u128
            },
        }
    }

    /// The pool after taking the fees of a trade of `quote_amount`, and the amount left
    /// for the trade.
    pub open spec fn spec_collect_fees(self, quote_amount: u64) -> (CbmmPool, Result<u64, CbmmError>) {
        match spec_calculate_fees(
            quote_amount,
            self.creator_fee_bp,
            self.buyback_fee_bp,
            self.platform_fee_bp,
        ) {
            Err(e) => (self, Err(e)),
            Ok(fees) => (
                CbmmPool {
                    creator_fees_balance: (self.creator_fees_balance
                        + fees.creator_fees_amount) as u64,
                    buyback_fees_balance: (self.buyback_fees_balance
                        + fees.buyback_fees_amount) as u64,
                    platform_fees_balance: (self.platform_fees_balance
                        + fees.platform_fees_amount) as u64,
                    ..self
                },
                Ok((quote_amount - fees.total()) as u64),
            ),
        }
    }

    /// Takes the creator, buyback and platform fees of a trade of `quote_amount` into the
    /// pool's fee balances, and returns what is left for the trade.
    pub fn collect_fees(&mut self, quote_amount: u64) -> (r: Result<u64, CbmmError>)
        requires
            !old(self).collect_fees_panics(quote_amount),
        ensures
            (*final(self), r) == old(self).spec_collect_fees(quote_amount),
    {
        let fees = match calculate_fees(
            quote_amount,
            self.creator_fee_bp,
            self.buyback_fee_bp,
            self.platform_fee_bp,
        ) {
            Ok(fees) => fees,
            Err(e) => return Err(e),
        };
        self.creator_fees_balance = self.creator_fees_balance + fees.creator_fees_amount;
        self.buyback_fees_balance = self.buyback_fees_balance + fees.buyback_fees_amount;
        self.platform_fees_balance = self.platform_fees_balance + fees.platform_fees_amount;
        Ok(quote_amount - fees.total_fees_amount())
    }

    /// The pool after a buy of `quote_amount`, and the amounts swapped.
    pub open spec fn spec_quote_to_base(self, quote_amount: u64) -> (CbmmPool, Result<
        SwapResult,
        CbmmError,
    >) {
        let base_amount = spec_buy_output_amount(
            quote_amount as int,
            self.quote_reserve as int,
            self.base_reserve as int,
            self.quote_virtual_reserve as int,
        );
        let taken = CbmmPool { base_reserve: (self.base_reserve - base_amount) as u64, ..self };
        if self.quote_reserve + quote_amount > u64::MAX {
            (taken, Err(CbmmError::MathOverflow))
        } else {
            (
                CbmmPool { quote_reserve: (self.quote_reserve + quote_amount) as u64, ..taken },
                Ok(SwapResult { quote_amount, base_amount: base_amount as u64 }),
            )
        }
    }

    /// Swaps `quote_amount` of the real token for the virtual token along the curve.
    pub fn quote_to_base(&mut self, quote_amount: u64) -> (r: Result<SwapResult, CbmmError>)
        requires
            old(self).quote_reserve + old(self).quote_virtual_reserve + quote_amount > 0,
        ensures
            (*final(self), r) == old(self).spec_quote_to_base(quote_amount),
    {
        let base_amount = self.calculate_base_output_amount(quote_amount);
        self.base_reserve = match self.base_reserve.checked_sub(base_amount) {
            Some(v) => v,
            None => return Err(CbmmError::Underflow),
        };
        self.quote_reserve = match self.quote_reserve.checked_add(quote_amount) {
            Some(v) => v,
            None => return Err(CbmmError::MathOverflow),
        };
        Ok(SwapResult { quote_amount, base_amount })
    }

    /// The pool after a sell of `base_amount`, and the amounts swapped.
    pub open spec fn spec_base_to_quote(self, base_amount: u64) -> (CbmmPool, Result<
        SwapResult,
        CbmmError,
    >) {
        let quote_amount = spec_sell_output_amount(
            base_amount as int,
            self.base_reserve as int,
            self.quote_reserve as int,
            self.quote_virtual_reserve as int,
        ) as u64;
        if quote_amount > self.quote_reserve {
            (self, Err(CbmmError::Underflow))
        } else {
            let paid = CbmmPool { quote_reserve: (self.quote_reserve - quote_amount) as u64, ..self };
            if self.base_reserve + base_amount > u64::MAX {
                (paid, Err(CbmmError::MathOverflow))
            } else {
                (
                    CbmmPool { base_reserve: (self.base_reserve + base_amount) as u64, ..paid },
                    Ok(SwapResult { quote_amount, base_amount }),
                )
            }
        }
    }

    /// The sell of `base_amount` neither divides by zero nor overflows 128 bits.
    pub open spec fn base_to_quote_defined(self, base_amount: u64) -> bool {
        &&& self.base_reserve + base_amount > 0
        &&& base_amount * (self.quote_reserve + self.quote_virtual_reserve) <= u128::MAX
    }

    /// Whether a sell of `base_amount` stays clear of a division by zero and of 128-bit
    /// overflow.
    pub fn base_to_quote_is_defined(&self, base_amount: u64) -> (b: bool)
        ensures
            b == self.base_to_quote_defined(base_amount),
    {
        (self.base_reserve as u128 + base_amount as u128) > 0 && (base_amount as u128).checked_mul(
            self.quote_reserve as u128 + self.quote_virtual_reserve as u128,
        ).is_some()
    }

    /// Swaps `base_amount` of the virtual token for the real token along the curve.
    pub fn base_to_quote(&mut self, base_amount: u64) -> (r: Result<SwapResult, CbmmError>)
        requires
            old(self).base_to_quote_defined(base_amount),
        ensures
            (*final(self), r) == old(self).spec_base_to_quote(base_amount),
    {
        let quote_amount = self.calculate_quote_output_amount(base_amount);
        self.quote_reserve = match self.quote_reserve.checked_sub(quote_amount) {
            Some(v) => v,
            None => return Err(CbmmError::Underflow),
        };
        self.base_reserve = match self.base_reserve.checked_add(base_amount) {
            Some(v) => v,
            None => return Err(CbmmError::MathOverflow),
        };
        Ok(SwapResult { quote_amount, base_amount })
    }

    fn calculate_quote_output_amount(&self, base_amount: u64) -> (r: u64)
        requires
            self.base_to_quote_defined(base_amount),
        ensures
            r == spec_sell_output_amount(
                base_amount as int,
                self.base_reserve as int,
                self.quote_reserve as int,
                self.quote_virtual_reserve as int,
            ) as u64,
    {
        calculate_sell_output_amount(
            base_amount,
            self.base_reserve,
            self.quote_reserve,
            self.quote_virtual_reserve,
        )
    }

    fn calculate_base_output_amount(&self, quote_amount: u64) -> (r: u64)
        requires
            self.quote_reserve + self.quote_virtual_reserve + quote_amount > 0,
        ensures
            r == spec_buy_output_amount(
                quote_amount as int,
                self.quote_reserve as int,
                self.base_reserve as int,
                self.quote_virtual_reserve as int,
            ),
            r <= self.base_reserve,
    {
        calculate_buy_output_amount(
            quote_amount,
            self.quote_reserve,
            self.base_reserve,
            self.quote_virtual_reserve,
        )
    }

    /// The pool after applying an executed burn of `bp_x100` parts per million of the base
    /// reserve: both reserves and the supply shrink by the burned amount, the virtual
    /// reserve shrinks in proportion to the base reserve, and the optimal virtual reserve
    /// is the new virtual reserve scaled in proportion to the supply.
    pub open spec fn spec_apply_burn(self, bp_x100: u64) -> CbmmPool {
        let burn_amount = spec_burn_amount(bp_x100 as int, self.base_reserve as int);
        let quote_virtual_reserve = spec_virtual_reserve_after_burn(
            self.quote_virtual_reserve as int,
            self.base_reserve as int,
            burn_amount,
        );
        CbmmPool {
            quote_virtual_reserve: quote_virtual_reserve as u64,
            quote_optimal_virtual_reserve: spec_virtual_reserve_after_burn(
                quote_virtual_reserve,
                self.base_total_supply as int,
                burn_amount,
            ) as u64,
            base_reserve: (self.base_reserve - burn_amount) as u64,
            base_total_supply: (self.base_total_supply - burn_amount) as u64,
            ..self
        }
    }

    /// The pool after a burn request at `now`, and what was burned.
    pub open spec fn spec_burn(self, config: BurnRateConfig, requested_bp_x100: u32, now: i64) -> (
        CbmmPool,
        Result<BurnResult, CbmmError>,
    ) {
        let (limiter, allowed) = spec_rate_limit(self.burn_limiter, requested_bp_x100, config, now);
        let limited = CbmmPool { burn_limiter: limiter, ..self };
        match allowed {
            Err(e) => (limited, Err(e)),
            Ok(RateLimitResult::Queued) => (
                limited,
                Ok(BurnResult { rate_limit_result: RateLimitResult::Queued, burn_amount: 0 }),
            ),
            Ok(RateLimitResult::ExecuteFull(bp)) => (
                limited.spec_apply_burn(bp),
                Ok(
                    BurnResult {
                        rate_limit_result: RateLimitResult::ExecuteFull(bp),
                        burn_amount: spec_burn_amount(bp as int, self.base_reserve as int) as u64,
                    },
                ),
            ),
            Ok(RateLimitResult::ExecutePartial(bp)) => (
                limited.spec_apply_burn(bp),
                Ok(
                    BurnResult {
                        rate_limit_result: RateLimitResult::ExecutePartial(bp),
                        burn_amount: spec_burn_amount(bp as int, self.base_reserve as int) as u64,
                    },
                ),
            ),
        }
    }

    /// A burn executed at `now` finds a nonzero base reserve and a supply that covers the
    /// burned amount.
    pub open spec fn burn_defined(self, config: BurnRateConfig, requested_bp_x100: u32, now: i64) -> bool {
        match spec_rate_limit(self.burn_limiter, requested_bp_x100, config, now).1 {
            Ok(RateLimitResult::ExecuteFull(bp)) => self.executed_burn_defined(bp),
            Ok(RateLimitResult::ExecutePartial(bp)) => self.executed_burn_defined(bp),
            _ => true,
        }
    }

    pub open spec fn executed_burn_defined(self, bp_x100: u64) -> bool {
        &&& self.base_reserve > 0
        &&& self.base_total_supply > 0
        &&& spec_burn_amount(bp_x100 as int, self.base_reserve as int) <= self.base_total_supply
    }

    /// Whether a burn request at `now` stays clear of a division by zero and of a burn
    /// beyond the supply.
    pub fn burn_is_defined(&self, config: &BurnRateConfig, requested_bp_x100: u32, now: i64) -> (b:
        bool)
        requires
            config.scalable(),
        ensures
            b == self.burn_defined(*config, requested_bp_x100, now),
    {
        proof {
            lemma_rate_limit_burn_bound(self.burn_limiter, requested_bp_x100, *config, now);
        }
        let mut limiter = self.burn_limiter;
        let bp_x100 = match limiter.calculate_required_bp_x100(requested_bp_x100, config, now) {
            Ok(RateLimitResult::ExecuteFull(bp)) => bp,
            Ok(RateLimitResult::ExecutePartial(bp)) => bp,
            _ => return true,
        };
        self.base_reserve > 0 && self.base_total_supply > 0 && calculate_burn_amount(
            bp_x100,
            self.base_reserve,
        ) <= self.base_total_supply
    }

    fn apply_burn(&mut self, bp_x100: u64) -> (burn_amount: u64)
        requires
            bp_x100 <= X100_100_PERCENT_BP,
            old(self).executed_burn_defined(bp_x100),
        ensures
            *final(self) == old(self).spec_apply_burn(bp_x100),
            burn_amount == spec_burn_amount(bp_x100 as int, old(self).base_reserve as int),
    {
        let burn_amount = calculate_burn_amount(bp_x100, self.base_reserve);

        self.quote_virtual_reserve = calculate_new_virtual_reserve_after_burn(
            self.quote_virtual_reserve,
            self.base_reserve,
            burn_amount,
        );
        self.quote_optimal_virtual_reserve = calculate_new_virtual_reserve_after_burn(
            self.quote_virtual_reserve,
            self.base_total_supply,
            burn_amount,
        );
        self.base_reserve = self.base_reserve - burn_amount;
        self.base_total_supply = self.base_total_supply - burn_amount;
        burn_amount
    }

    /// Requests a burn of `requested_bp_x100` at `now`, and burns what the rate limiter
    /// allows.
    pub fn burn_at(&mut self, config: &BurnRateConfig, requested_bp_x100: u32, now: i64) -> (r:
        Result<BurnResult, CbmmError>)
        requires
            config.scalable(),
            old(self).burn_defined(*config, requested_bp_x100, now),
        ensures
            (*final(self), r) == old(self).spec_burn(*config, requested_bp_x100, now),
    {
        proof {
            lemma_rate_limit_burn_bound(self.burn_limiter, requested_bp_x100, *config, now);
        }
        let allowed_burn = match self.burn_limiter.calculate_required_bp_x100(
            requested_bp_x100,
            config,
            now,
        ) {
            Ok(allowed) => allowed,
            Err(e) => return Err(e),
        };

        let allowed_burn_bp_x100;
        match allowed_burn {
            RateLimitResult::ExecuteFull(bp_x100) => allowed_burn_bp_x100 = bp_x100,
            RateLimitResult::ExecutePartial(bp_x100) => allowed_burn_bp_x100 = bp_x100,
            RateLimitResult::Queued => {
                return Ok(BurnResult { rate_limit_result: RateLimitResult::Queued, burn_amount: 0 });
            },
        }

        let burn_amount = self.apply_burn(allowed_burn_bp_x100);
        Ok(BurnResult { rate_limit_result: allowed_burn, burn_amount })
    }

    /// `burn_at` at the time the runtime's clock reports. When the clock cannot be read
    /// the pool is unchanged and the result is `SysvarUnavailable`; when the burn at the
    /// clock's time would divide by a zero reserve or burn beyond the supply, the pool is
    /// unchanged and the result is `MathOverflow`.
    pub fn burn(&mut self, config: &BurnRateConfig, requested_bp_x100: u32) -> (r: Result<
        BurnResult,
        CbmmError,
    >)
        requires
            config.scalable(),
        ensures
            (r == Err::<BurnResult, CbmmError>(CbmmError::SysvarUnavailable) && *final(self)
                == *old(self)) || (r == Err::<BurnResult, CbmmError>(CbmmError::MathOverflow)
                && *final(self) == *old(self) && exists|now: i64|
                !#[trigger] old(self).burn_defined(*config, requested_bp_x100, now))
                || exists|now: i64|
                #[trigger] old(self).burn_defined(*config, requested_bp_x100, now) && (
                *final(self),
                r,
            ) == old(self).spec_burn(*config, requested_bp_x100, now),
    {
        let now = match clock_unix_timestamp() {
            Ok(now) => now,
            Err(_) => return Err(CbmmError::SysvarUnavailable),
        };
        if !self.burn_is_defined(config, requested_bp_x100, now) {
            return Err(CbmmError::MathOverflow);
        }
        self.burn_at(config, requested_bp_x100, now)
    }

    /// The quote reserve that would back the current supply at the starting price, and
    /// the virtual reserve that goes with it; `topup` needs both to be computable.
    pub open spec fn topup_defined(self) -> bool {
        &&& self.base_starting_total_supply > 0
        &&& 0 < self.base_reserve <= self.base_total_supply
    }

    /// The pool after moving buyback fees into the real reserve, towards the reserve at
    /// which the worst-case exit price is the starting price, and the amount moved.
    pub open spec fn spec_topup(self) -> (CbmmPool, Result<u64, CbmmError>) {
        let optimal_virtual = spec_optimal_virtual_quote_reserve(
            self.quote_starting_virtual_reserve as int,
            self.base_starting_total_supply as int,
            self.base_total_supply as int,
        ) as u64;
        let optimal_real = spec_optimal_real_quote_reserve(
            self.base_total_supply as int,
            optimal_virtual as int,
            self.base_reserve as int,
        ) as u64;
        if optimal_real < self.quote_reserve {
            (self, Err(CbmmError::MathOverflow))
        } else if optimal_real == self.quote_reserve {
            (self, Ok(0))
        } else {
            let needed = optimal_real - self.quote_reserve;
            let paid = if needed <= self.buyback_fees_balance {
                needed
            } else {
                self.buyback_fees_balance as int
            };
            let quote_reserve = self.quote_reserve + paid;
            (
                CbmmPool {
                    buyback_fees_balance: (self.buyback_fees_balance - paid) as u64,
                    quote_reserve: quote_reserve as u64,
                    quote_virtual_reserve: if paid < needed {
                        spec_virtual_reserve_after_topup(
                            quote_reserve,
                            self.base_reserve as int,
                            self.base_total_supply as int,
                        ) as u64
                    } else {
                        optimal_virtual
                    },
                    ..self
                },
                Ok(paid as u64),
            )
        }
    }

    /// Whether a top-up stays clear of a division by zero.
    pub fn topup_is_defined(&self) -> (b: bool)
        ensures
            b == self.topup_defined(),
    {
        self.base_starting_total_supply > 0 && 0 < self.base_reserve && self.base_reserve
            <= self.base_total_supply
    }

    /// Tops up the real reserve from the buyback fees.
    pub fn topup(&mut self) -> (r: Result<u64, CbmmError>)
        requires
            old(self).topup_defined(),
        ensures
            (*final(self), r) == old(self).spec_topup(),
    {
        let quote_optimal_virtual_reserve = calculate_optimal_virtual_quote_reserve(
            self.quote_starting_virtual_reserve,
            self.base_starting_total_supply,
            self.base_total_supply,
        );

        let quote_optimal_real_reserve = calculate_optimal_real_quote_reserve(
            self.base_total_supply,
            quote_optimal_virtual_reserve,
            self.base_reserve,
        );

        proof {
            if self.base_reserve == self.base_total_supply {
                vstd::arithmetic::div_mod::lemma_basic_div(
                    self.base_reserve - 1,
                    self.base_reserve as int,
                );
                vstd::arithmetic::mul::lemma_mul_basics(quote_optimal_virtual_reserve as int);
                assert(quote_optimal_virtual_reserve as int * (self.base_total_supply
                    - self.base_reserve) == 0);
                assert(spec_optimal_real_quote_reserve(
                    self.base_total_supply as int,
                    quote_optimal_virtual_reserve as int,
                    self.base_reserve as int,
                ) == 0);
                assert(quote_optimal_real_reserve == 0);
            }
        }
        let needed_topup_amount = match quote_optimal_real_reserve.checked_sub(self.quote_reserve) {
            Some(v) => v,
            None => return Err(CbmmError::MathOverflow),
        };
        if needed_topup_amount == 0 {
            return Ok(0);
        }
        let real_topup_amount = needed_topup_amount.min(self.buyback_fees_balance);
        self.buyback_fees_balance = self.buyback_fees_balance - real_topup_amount;
        self.quote_reserve = self.quote_reserve + real_topup_amount;
        self.quote_virtual_reserve = if real_topup_amount < needed_topup_amount {
            calculate_new_virtual_reserve_after_topup(
                self.quote_reserve,
                self.base_reserve,
                self.base_total_supply,
            )
        } else {
            quote_optimal_virtual_reserve
        };
        Ok(real_topup_amount)
    }
}

#[derive(Debug, Clone, Copy)]
pub struct VirtualTokenAccount {
    /// Bump seed
    pub bump: u8,
    /// Pool address
    pub pool: Address,
    /// Owner address
    pub owner: Address,
    /// Balance of Mint B including decimals
    pub balance: u64,
}

impl VirtualTokenAccount {
    pub fn try_new(bump: u8, pool: Address, owner: Address) -> (r: Self)
        ensures
            r.bump == bump,
            r.pool == pool,
            r.owner == owner,
            r.balance == 0,
    {
        Self { bump, pool, owner, balance: 0 }
    }

    /// Takes `base_amount` out of the balance.
    pub fn sub(&mut self, base_amount: u64) -> (r: Result<(), CbmmError>)
        ensures
            r is Ok <==> base_amount <= old(self).balance,
            r is Err ==> r == Err::<(), CbmmError>(CbmmError::InsufficientVirtualTokenBalance)
                && *final(self) == *old(self),
            r is Ok ==> *final(self) == (VirtualTokenAccount {
                balance: (old(self).balance - base_amount) as u64,
                ..*old(self)
            }),
    {
        self.balance = match self.balance.checked_sub(base_amount) {
            Some(v) => v,
            None => return Err(CbmmError::InsufficientVirtualTokenBalance),
        };
        Ok(())
    }

    /// Adds `base_amount` to the balance.
    pub fn add(&mut self, base_amount: u64) -> (r: Result<(), CbmmError>)
        ensures
            r is Ok <==> old(self).balance + base_amount <= u64::MAX,
            r is Err ==> r == Err::<(), CbmmError>(CbmmError::MathOverflow) && *final(self)
                == *old(self),
            r is Ok ==> *final(self) == (VirtualTokenAccount {
                balance: (old(self).balance + base_amount) as u64,
                ..*old(self)
            }),
    {
        self.balance = match self.balance.checked_add(base_amount) {
            Some(v) => v,
            None => return Err(CbmmError::MathOverflow),
        };
        Ok(())
    }
}

/// Length of a burn day.
pub const RESET_INTERVAL_SECONDS: i64 = 86400;

#[derive(Debug, Clone, Copy)]
pub struct UserBurnAllowance {
    pub bump: u8,
    // seeds
    pub user: Address,
    pub burn_tier_index: u8,
    pub burn_tier_update_timestamp: i64,
    pub platform_config: Address,
    /// Wallet that receives funds when this account is closed
    pub payer: Address,
    pub burns_today: u16,
    pub last_burn_timestamp: i64,
    pub created_at: i64,
}

/// The burn day of `ts`, where days start at the time of day at which the allowance was
/// created.
pub open spec fn burn_day(ts: int, created_at: int) -> int {
    let reset_offset = trunc_rem(created_at, RESET_INTERVAL_SECONDS as int);
    trunc_div(clamp_i64(ts - reset_offset), RESET_INTERVAL_SECONDS as int)
}

impl UserBurnAllowance {
    pub fn new(
        bump: u8,
        user: Address,
        platform_config: Address,
        payer: Address,
        burn_tier_index: u8,
        burn_tier_update_timestamp: i64,
        now: i64,
    ) -> (r: Self)
        ensures
            r == (UserBurnAllowance {
                bump,
                user,
                platform_config,
                payer,
                burns_today: 0,
                last_burn_timestamp: 0,
                created_at: now,
                burn_tier_index,
                burn_tier_update_timestamp,
            }),
    {
        Self {
            bump,
            user,
            platform_config,
            payer,
            burns_today: 0,
            last_burn_timestamp: 0,
            created_at: now,
            burn_tier_index,
            burn_tier_update_timestamp,
        }
    }

    /// The last burn happened on an earlier burn day than `now`.
    pub open spec fn spec_should_reset(self, now: i64) -> bool {
        burn_day(self.last_burn_timestamp as int, self.created_at as int) < burn_day(
            now as int,
            self.created_at as int,
        )
    }

    /// The allowance after recording a burn at `now`.
    pub open spec fn spec_pop(self, now: i64) -> UserBurnAllowance {
        UserBurnAllowance {
            burns_today: (if self.spec_should_reset(now) {
                1
            } else {
                self.burns_today + 1
            }) as u16,
            last_burn_timestamp: now,
            ..self
        }
    }

    /// Recording a burn at `now` does not overflow the daily count.
    pub open spec fn pop_defined(self, now: i64) -> bool {
        self.spec_should_reset(now) || self.burns_today < u16::MAX
    }

    /// Records a burn at `now` and returns the number of burns of the current day,
    /// this one included.
    pub fn pop_at(&mut self, now: i64) -> (r: u16)
        requires
            old(self).pop_defined(now),
        ensures
            *final(self) == old(self).spec_pop(now),
            r == final(self).burns_today,
    {
        if self.should_reset(now) {
            self.burns_today = 0;
        }
        self.burns_today = self.burns_today + 1;
        self.last_burn_timestamp = now;
        self.burns_today
    }

    /// Whether recording a burn at `now` keeps the daily count within `u16`.
    pub fn pop_is_defined(&self, now: i64) -> (b: bool)
        ensures
            b == self.pop_defined(now),
    {
        self.should_reset(now) || self.burns_today < u16::MAX
    }

    /// `pop_at` at the time the runtime's clock reports. When the clock cannot be read
    /// the allowance is unchanged and the result is `SysvarUnavailable`; when the count of
    /// the day would pass `u16::MAX` at the clock's time, the allowance is unchanged and
    /// the result is `MathOverflow`.
    pub fn pop(&mut self) -> (r: Result<u16, CbmmError>)
        ensures
            (r == Err::<u16, CbmmError>(CbmmError::SysvarUnavailable) && *final(self) == *old(self))
                || (r == Err::<u16, CbmmError>(CbmmError::MathOverflow) && *final(self)
                == *old(self) && exists|now: i64| !#[trigger] old(self).pop_defined(now))
                || exists|now: i64|
                #[trigger] old(self).pop_defined(now) && *final(self) == old(self).spec_pop(now)
                    && r == Ok::<u16, CbmmError>(final(self).burns_today),
    {
        let now = match clock_unix_timestamp() {
            Ok(now) => now,
            Err(_) => return Err(CbmmError::SysvarUnavailable),
        };
        if !self.pop_is_defined(now) {
            return Err(CbmmError::MathOverflow);
        }
        Ok(self.pop_at(now))
    }

    /// Computing whether the allowance is closable does not overflow.
    pub open spec fn is_closable_defined(self, platform_burn_tiers_updated_at: i64, now: i64) -> bool {
        self.burns_today == 0 || platform_burn_tiers_updated_at > self.burn_tier_update_timestamp
            || i64::MIN <= now - self.last_burn_timestamp <= i64::MAX
    }

    /// The allowance is unused today, belongs to replaced burn tiers, or its last burn is
    /// a full day old.
    pub fn is_closable(&self, platform_burn_tiers_updated_at: i64, now: i64) -> (r: bool)
        requires
            self.is_closable_defined(platform_burn_tiers_updated_at, now),
        ensures
            r == (self.burns_today == 0 || platform_burn_tiers_updated_at
                > self.burn_tier_update_timestamp || now - self.last_burn_timestamp
                >= RESET_INTERVAL_SECONDS),
    {
        self.burns_today == 0 || platform_burn_tiers_updated_at > self.burn_tier_update_timestamp
            || now - self.last_burn_timestamp >= RESET_INTERVAL_SECONDS
    }

    pub fn should_reset(&self, now: i64) -> (r: bool)
        ensures
            r == self.spec_should_reset(now),
    {
        let reset_offset = self.created_at % RESET_INTERVAL_SECONDS;
        let day_last = (self.last_burn_timestamp.saturating_sub(reset_offset))
            / RESET_INTERVAL_SECONDS;
        let day_now = (now.saturating_sub(reset_offset)) / RESET_INTERVAL_SECONDS;
        day_last < day_now
    }
}

} // verus!
