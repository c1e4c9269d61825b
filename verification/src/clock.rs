use anchor_lang::prelude::{Clock, ProgramError, SolanaSysvar};
use vstd::prelude::*;

verus! {

/// The runtime's program error, as the sysvar access hands it back.
#[verifier::external_type_specification]
#[verifier::external_body]
pub struct ExProgramError(ProgramError);

/// Reads the cluster clock with `Clock::get` (the `Sysvar` trait of solana-sysvar, which
/// anchor-lang re-exports) and hands back its `unix_timestamp`, or the runtime's error.
/// Nothing is promised of the timestamp: it is whatever time the runtime reports.
#[verifier::external_body]
pub(crate) fn clock_unix_timestamp() -> (r: Result<i64, ProgramError>) {
    match Clock::get() {
        Ok(clock) => Ok(clock.unix_timestamp),
        Err(e) => Err(e),
    }
}

} // verus!
