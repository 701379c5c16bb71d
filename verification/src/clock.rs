use anchor_lang::prelude::{Clock, ProgramError, SolanaSysvar};
use vstd::prelude::*;

verus! {

/// `solana_program_error::ProgramError`, the error that reading a sysvar
/// reports. It is carried through to the caller unread.
#[verifier::external_type_specification]
#[verifier::external_body]
pub struct ExProgramError(ProgramError);

/// Calls `Clock::get` and hands out the `unix_timestamp` of the clock it
/// returned, or its error. The result is the runtime's current time, so
/// nothing is claimed of it.
#[verifier::external_body]
pub(crate) fn unix_timestamp() -> (now: Result<i64, ProgramError>) {
    match Clock::get() {
        Ok(clock) => Ok(clock.unix_timestamp),
        Err(err) => Err(err),
    }
}

} // verus!
