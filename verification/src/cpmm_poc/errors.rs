use vstd::prelude::*;

verus! {

/// Errors of the constant product market maker with a central state.
#[derive(Debug, Clone, Copy, PartialEq, Eq, Structural)]
pub enum BcpmmError {
    InsufficientVirtualTokenBalance,
    AmountTooSmall,
    InvalidOwner,
    NonzeroBalance,
    InvalidFeeBasisPoints,
    AmountTooBig,
    SlippageExceeded,
    InsufficientBurnAllowance,
    CannotCloseActiveBurnAllowance,
    InvalidBurnAccountPayer,
    InvalidVirtualReserve,
    InvalidBuybackFeeBasisPoints,
    Underflow,
    InvalidPoolOwner,
    InvalidAdmin,
    InvalidMint,
    /// A sell would pay out more than the real reserve.
    InvalidNumericConversion,
    /// The runtime clock could not be read.
    SysvarUnavailable,
    /// The clock's time is so close to an end of the `i64` range that today's reset time
    /// does not fit in it.
    TimestampOutOfRange,
}

} // verus!
