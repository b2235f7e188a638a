//! The host's clock.

use anchor_lang::prelude::{Clock, ProgramError};
use anchor_lang::solana_program::sysvar::Sysvar;
use vstd::prelude::*;

verus! {

/// `anchor_lang::prelude::ProgramError`, the error with which the host answers a
/// request that it cannot serve. It is only carried from the clock to its caller.
#[verifier::external_type_specification]
#[verifier::external_body]
pub struct ExProgramError(ProgramError);

/// Reads the network time through `Clock::get` (the `get` of
/// `solana_program::sysvar::Sysvar`) and hands out its `unix_timestamp`, or the
/// error that the host gave instead. Nothing is claimed of the answer: it is
/// whatever the host says at the moment of the call.
#[verifier::external_body]
pub(crate) fn unix_timestamp() -> (now: Result<i64, ProgramError>) {
    match Clock::get() {
        Ok(clock) => Ok(clock.unix_timestamp),
        Err(error) => Err(error),
    }
}

} // verus!
