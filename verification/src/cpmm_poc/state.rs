use crate::address::Address;
use crate::clock::clock_unix_timestamp;
use crate::cpmm_poc::errors::BcpmmError;
use crate::cpmm_poc::helpers::{
    calculate_fees, calculate_fees_divides_by_zero, calculate_sell_output_amount,
    spec_calculate_fees, Fees,
};
use crate::helpers::math::spec_sell_output_amount;
use vstd::prelude::*;

verus! {

pub const DEFAULT_B_MINT_DECIMALS: u8 = 6;

/// One billion tokens with the default six decimals.
pub const DEFAULT_B_MINT_RESERVE: u64 = 1_000_000_000_000_000;

/// Length of a day.
pub const SECONDS_PER_DAY: i64 = 86400;

#[derive(Debug, Clone, Copy)]
pub struct CentralState {
    pub bump: u8,
    pub admin: Address,
    pub b_mint_index: u64,
    pub daily_burn_allowance: u16,
    pub creator_daily_burn_allowance: u16,
    pub user_burn_bp_x100: u32,
    pub creator_burn_bp_x100: u32,
    /// Seconds from midnight
    pub burn_reset_time_of_day_seconds: u32,
}

/// Today's reset timestamp: the last UTC midnight at or before `current_time`, plus the
/// reset time of day.
pub open spec fn todays_reset_ts(current_time: int, reset_time_of_day_seconds: int) -> int {
    current_time - current_time % (SECONDS_PER_DAY as int) + reset_time_of_day_seconds
}

/// Computing today's reset timestamp at `current_time` does not overflow.
pub open spec fn burn_reset_defined(current_time: i64, reset_time_of_day_seconds: u32) -> bool {
    &&& current_time - (current_time as int) % (SECONDS_PER_DAY as int) >= i64::MIN
    &&& todays_reset_ts(current_time as int, reset_time_of_day_seconds as int) <= i64::MAX
}

/// Check if given time is after today's burn reset timestamp (for testing with mock time).
pub fn is_after_burn_reset_with_time(
    time_to_check: i64,
    current_time: i64,
    reset_time_of_day_seconds: u32,
) -> (r: bool)
    requires
        burn_reset_defined(current_time, reset_time_of_day_seconds),
    ensures
        r == (time_to_check >= todays_reset_ts(
            current_time as int,
            reset_time_of_day_seconds as int,
        )),
{
    let todays_midnight = current_time - current_time.rem_euclid(SECONDS_PER_DAY);
    let todays_reset_ts = todays_midnight + reset_time_of_day_seconds as i64;
    time_to_check >= todays_reset_ts
}

impl CentralState {
    pub fn new(
        bump: u8,
        admin: Address,
        daily_burn_allowance: u16,
        creator_daily_burn_allowance: u16,
        user_burn_bp_x100: u32,
        creator_burn_bp_x100: u32,
        burn_reset_time_of_day_seconds: u32,
    ) -> (r: Self)
        ensures
            r.bump == bump,
            r.admin == admin,
            r.b_mint_index == 0,
            r.daily_burn_allowance == daily_burn_allowance,
            r.creator_daily_burn_allowance == creator_daily_burn_allowance,
            r.user_burn_bp_x100 == user_burn_bp_x100,
            r.creator_burn_bp_x100 == creator_burn_bp_x100,
            r.burn_reset_time_of_day_seconds == burn_reset_time_of_day_seconds,
    {
        Self {
            bump,
            admin,
            b_mint_index: 0,
            daily_burn_allowance,
            creator_daily_burn_allowance,
            user_burn_bp_x100,
            creator_burn_bp_x100,
            burn_reset_time_of_day_seconds,
        }
    }

    /// Check if given time is after today's burn reset timestamp, today being the day
    /// of the runtime's clock. When the clock cannot be read the result is
    /// `SysvarUnavailable`; when today's reset time at the clock's time does not fit in
    /// an `i64`, `TimestampOutOfRange`.
    pub fn is_after_burn_reset(&self, time_to_check: i64) -> (r: Result<bool, BcpmmError>)
        ensures
            r is Err ==> r == Err::<bool, BcpmmError>(BcpmmError::SysvarUnavailable) || (r
                == Err::<bool, BcpmmError>(BcpmmError::TimestampOutOfRange) && exists|now: i64|
                !#[trigger] burn_reset_defined(now, self.burn_reset_time_of_day_seconds)),
            r matches Ok(after) ==> exists|now: i64|
                #[trigger] burn_reset_defined(now, self.burn_reset_time_of_day_seconds) && after
                    == (time_to_check >= todays_reset_ts(
                    now as int,
                    self.burn_reset_time_of_day_seconds as int,
                )),
    {
        let now = match clock_unix_timestamp() {
            Ok(now) => now,
            Err(_) => return Err(BcpmmError::SysvarUnavailable),
        };
        if !burn_reset_computable(now, self.burn_reset_time_of_day_seconds) {
            return Err(BcpmmError::TimestampOutOfRange);
        }
        Ok(is_after_burn_reset_with_time(time_to_check, now, self.burn_reset_time_of_day_seconds))
    }
}

/// Whether today's reset time at `current_time` fits in an `i64`.
fn burn_reset_computable(current_time: i64, reset_time_of_day_seconds: u32) -> (b: bool)
    ensures
        b == burn_reset_defined(current_time, reset_time_of_day_seconds),
{
    let rem = current_time.rem_euclid(SECONDS_PER_DAY);
    match current_time.checked_sub(rem) {
        None => false,
        Some(midnight) => midnight.checked_add(reset_time_of_day_seconds as i64).is_some(),
    }
}

// A is the real SPL token
// B is the virtual token
#[derive(Debug, Clone, Copy)]
pub struct BcpmmPool {
    /// Bump seed
    pub bump: u8,
    /// Pool creator address
    pub creator: Address,
    /// A mint address
    pub a_mint: Address,
    /// A reserve including decimals
    pub a_reserve: u64,
    /// A virtual reserve including decimals
    pub a_virtual_reserve: u64,
    /// A remaining topup to compensate for the virtual reserve reduction happening on burn
    pub a_remaining_topup: u64,
    /// B mint is virtual and denoted by index
    pub b_mint_index: u64,
    /// B mint decimals
    pub b_mint_decimals: u8,
    /// B reserve including decimals
    pub b_reserve: u64,
    /// Creator fees balance denominated in Mint A including decimals
    pub creator_fees_balance: u64,
    /// Buyback fees balance denominated in Mint A including decimals
    pub buyback_fees_balance: u64,
    /// Creator fee basis points
    pub creator_fee_basis_points: u16,
    /// Buyback fee basis points
    pub buyback_fee_basis_points: u16,
    /// Burn allowance for the pool
    pub burns_today: u16,
    pub last_burn_timestamp: i64,
}

/// The pool after routing buyback fees: while a top-up is outstanding they go, up to the
/// outstanding amount, into the real reserve; otherwise into the buyback balance.
pub open spec fn spec_route_buyback(pool: BcpmmPool, buyback_fees_amount: u64) -> BcpmmPool {
    if pool.a_remaining_topup > 0 {
        let real_topup_amount = if pool.a_remaining_topup > buyback_fees_amount {
            buyback_fees_amount
        } else {
            pool.a_remaining_topup
        };
        BcpmmPool {
            a_remaining_topup: (pool.a_remaining_topup - real_topup_amount) as u64,
            a_reserve: (pool.a_reserve + real_topup_amount) as u64,
            ..pool
        }
    } else {
        BcpmmPool {
            buyback_fees_balance: (pool.buyback_fees_balance + buyback_fees_amount) as u64,
            ..pool
        }
    }
}

/// Routing buyback fees does not overflow the reserve or the buyback balance.
pub open spec fn route_buyback_defined(pool: BcpmmPool, buyback_fees_amount: u64) -> bool {
    if pool.a_remaining_topup > 0 {
        let real_topup_amount = if pool.a_remaining_topup > buyback_fees_amount {
            buyback_fees_amount
        } else {
            pool.a_remaining_topup
        };
        pool.a_reserve + real_topup_amount <= u64::MAX
    } else {
        pool.buyback_fees_balance + buyback_fees_amount <= u64::MAX
    }
}

/// Routes buyback fees into the outstanding top-up first, the buyback balance otherwise.
pub fn route_buyback_fees(pool: &mut BcpmmPool, buyback_fees_amount: u64)
    requires
        route_buyback_defined(*old(pool), buyback_fees_amount),
    ensures
        *final(pool) == spec_route_buyback(*old(pool), buyback_fees_amount),
{
    if pool.a_remaining_topup > 0 {
        let remaining_topup_amount = pool.a_remaining_topup;
        let real_topup_amount = if remaining_topup_amount > buyback_fees_amount {
            buyback_fees_amount
        } else {
            remaining_topup_amount
        };
        pool.a_remaining_topup = pool.a_remaining_topup - real_topup_amount;
        pool.a_reserve = pool.a_reserve + real_topup_amount;
    } else {
        pool.buyback_fees_balance = pool.buyback_fees_balance + buyback_fees_amount;
    }
}

impl BcpmmPool {
    /// A new pool with the default B supply in reserve and the given virtual reserve.
    pub fn try_new(
        bump: u8,
        creator: Address,
        a_mint: Address,
        a_virtual_reserve: u64,
        b_mint_index: u64,
        creator_fee_basis_points: u16,
        buyback_fee_basis_points: u16,
    ) -> (r: Result<Self, BcpmmError>)
        ensures
            a_virtual_reserve == 0 ==> r == Err::<Self, BcpmmError>(
                BcpmmError::InvalidVirtualReserve,
            ),
            a_virtual_reserve > 0 && buyback_fee_basis_points == 0 ==> r == Err::<Self, BcpmmError>(
                BcpmmError::InvalidBuybackFeeBasisPoints,
            ),
            a_virtual_reserve > 0 && buyback_fee_basis_points > 0 ==> r == Ok::<Self, BcpmmError>(
                BcpmmPool {
                    bump,
                    creator,
                    a_mint,
                    a_reserve: 0,
                    a_virtual_reserve,
                    a_remaining_topup: 0,
                    b_mint_index,
                    b_mint_decimals: DEFAULT_B_MINT_DECIMALS,
                    b_reserve: DEFAULT_B_MINT_RESERVE,
                    creator_fees_balance: 0,
                    buyback_fees_balance: 0,
                    creator_fee_basis_points,
                    buyback_fee_basis_points,
                    burns_today: 0,
                    last_burn_timestamp: 0,
                },
            ),
    {
        if !(a_virtual_reserve > 0) {
            return Err(BcpmmError::InvalidVirtualReserve);
        }
        if !(buyback_fee_basis_points > 0) {
            return Err(BcpmmError::InvalidBuybackFeeBasisPoints);
        }
        Ok(
            Self {
                bump,
                creator,
                a_mint,
                a_reserve: 0,
                a_virtual_reserve,
                a_remaining_topup: 0,
                b_mint_index,
                b_mint_decimals: DEFAULT_B_MINT_DECIMALS,
                b_reserve: DEFAULT_B_MINT_RESERVE,
                creator_fees_balance: 0,
                buyback_fees_balance: 0,
                creator_fee_basis_points,
                buyback_fee_basis_points,
                burns_today: 0,
                last_burn_timestamp: 0,
            },
        )
    }

    /// The fees of a trade of `a_amount` at this pool's rates.
    pub fn calculate_fees(&self, a_amount: u64) -> (r: Result<Fees, BcpmmError>)
        requires
            !calculate_fees_divides_by_zero(
                a_amount,
                self.creator_fee_basis_points,
                self.buyback_fee_basis_points,
            ),
        ensures
            r == spec_calculate_fees(
                a_amount,
                self.creator_fee_basis_points,
                self.buyback_fee_basis_points,
            ),
    {
        calculate_fees(a_amount, self.creator_fee_basis_points, self.buyback_fee_basis_points)
    }

    /// The A paid for `b_amount` at this pool's reserves.
    pub fn calculate_sell_output_amount(&self, b_amount: u64) -> (r: u64)
        requires
            self.b_reserve + b_amount > 0,
            b_amount * (self.a_reserve + self.a_virtual_reserve) <= u128::MAX,
        ensures
            r == spec_sell_output_amount(
                b_amount as int,
                self.b_reserve as int,
                self.a_reserve as int,
                self.a_virtual_reserve as int,
            ) as u64,
    {
        calculate_sell_output_amount(b_amount, self.b_reserve, self.a_reserve, self.a_virtual_reserve)
    }

    /// Settles a sell of `b_amount` that pays `output_amount` of A: the reserves move,
    /// the creator fee is credited and the buyback fee routed.
    pub fn add(
        &mut self,
        output_amount: u64,
        b_amount: u64,
        creator_fees_amount: u64,
        buyback_fees_amount: u64,
    )
        requires
            output_amount <= old(self).a_reserve,
            old(self).b_reserve + b_amount <= u64::MAX,
            old(self).creator_fees_balance + creator_fees_amount <= u64::MAX,
            route_buyback_defined(
                BcpmmPool {
                    a_reserve: (old(self).a_reserve - output_amount) as u64,
                    ..*old(self)
                },
                buyback_fees_amount,
            ),
        ensures
            *final(self) == spec_route_buyback(
                BcpmmPool {
                    a_reserve: (old(self).a_reserve - output_amount) as u64,
                    b_reserve: (old(self).b_reserve + b_amount) as u64,
                    creator_fees_balance: (old(self).creator_fees_balance
                        + creator_fees_amount) as u64,
                    ..*old(self)
                },
                buyback_fees_amount,
            ),
    {
        self.a_reserve = self.a_reserve - output_amount;
        self.b_reserve = self.b_reserve + b_amount;
        self.creator_fees_balance = self.creator_fees_balance + creator_fees_amount;
        route_buyback_fees(self, buyback_fees_amount);
    }
}

#[derive(Debug, Clone, Copy)]
pub struct VirtualTokenAccount {
    /// Bump seed
    pub bump: u8,
    /// Pool address
    pub pool: Address,
    /// Owner address
    pub owner: Address,
    /// Balance of Mint B including decimals
    pub balance: u64,
    /// All fees paid when buying and selling tokens to this account. Denominated in Mint A including decimals
    pub fees_paid: u64,
}

impl VirtualTokenAccount {
    pub fn try_new(bump: u8, pool: Address, owner: Address) -> (r: Self)
        ensures
            r.bump == bump,
            r.pool == pool,
            r.owner == owner,
            r.balance == 0,
            r.fees_paid == 0,
    {
        Self { bump, pool, owner, balance: 0, fees_paid: 0 }
    }

    /// Takes `b_amount` out of the balance and records the fees paid.
    pub fn sub(&mut self, b_amount: u64, creator_fees_amount: u64, buyback_fees_amount: u64) -> (r:
        Result<(), BcpmmError>)
        requires
            b_amount <= old(self).balance ==> old(self).fees_paid + creator_fees_amount
                + buyback_fees_amount <= u64::MAX,
        ensures
            r is Ok <==> b_amount <= old(self).balance,
            r is Err ==> r == Err::<(), BcpmmError>(BcpmmError::InsufficientVirtualTokenBalance)
                && *final(self) == *old(self),
            r is Ok ==> *final(self) == (VirtualTokenAccount {
                balance: (old(self).balance - b_amount) as u64,
                fees_paid: (old(self).fees_paid + creator_fees_amount + buyback_fees_amount) as u64,
                ..*old(self)
            }),
    {
        if !(self.balance >= b_amount) {
            return Err(BcpmmError::InsufficientVirtualTokenBalance);
        }
        self.balance = self.balance - b_amount;
        self.fees_paid = self.fees_paid + (creator_fees_amount + buyback_fees_amount);
        Ok(())
    }
}

#[derive(Debug, Clone, Copy)]
pub struct UserBurnAllowance {
    pub bump: u8,
    pub user: Address,
    /// Wallet that receives funds when this account is closed
    pub payer: Address,
    pub burns_today: u16,
    pub last_burn_timestamp: i64,
}

impl UserBurnAllowance {
    pub fn new(bump: u8, user: Address, payer: Address) -> (r: Self)
        ensures
            r.bump == bump,
            r.user == user,
            r.payer == payer,
            r.burns_today == 0,
            r.last_burn_timestamp == 0,
    {
        Self { bump, user, payer, burns_today: 0, last_burn_timestamp: 0 }
    }
}

} // verus!
