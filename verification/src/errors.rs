use vstd::prelude::*;

verus! {

/// Errors of the constant burn market maker.
#[derive(Debug, Clone, Copy, PartialEq, Eq, Structural)]
pub enum CbmmError {
    InsufficientVirtualTokenBalance,
    AmountTooSmall,
    InvalidOwner,
    NonzeroBalance,
    InvalidFeeBasisPoints,
    AmountTooBig,
    SlippageExceeded,
    InsufficientBurnAllowance,
    CannotCloseActiveBurnAllowance,
    InvalidBurnAccountPayer,
    InvalidVirtualReserve,
    InvalidBuybackFeeBasisPoints,
    Underflow,
    InvalidPoolOwner,
    InvalidMint,
    InvalidPlatformAdmin,
    InvalidBurnTiers,
    MathOverflow,
    InvalidBurnTierIndex,
    PoolCreatorBurnTierRequiresPool,
    InvalidPoolCreator,
    InvalidPlatformConfig,
    BurnLimitReached,
    InvalidBurnTiersLength,
    InvalidBurnRate,
    /// Burn tiers may be replaced at most once an hour.
    BurnTiersUpdatedTooRecently,
    /// A burn authority is configured and the burn was not signed by it.
    InvalidBurnAuthority,
    /// Two account keys that must be equal differ.
    KeysMismatch,
    /// The runtime clock could not be read.
    SysvarUnavailable,
}

} // verus!
