//! The wall clock of the runtime that hosts the marketplace.

use anchor_lang::prelude::Clock;
use anchor_lang::prelude::ProgramError;
use anchor_lang::prelude::SolanaSysvar;
use vstd::prelude::*;

verus! {

/// The runtime's error type, carried through unread.
#[verifier::external_type_specification]
#[verifier::external_body]
pub struct ExProgramError(ProgramError);

/// Reads the clock with `Clock::get` and hands out its `unix_timestamp`.
///
/// Nothing is claimed of the outcome: the runtime may refuse the read, and the
/// time it reports is whatever the current slot carries.
#[verifier::external_body]
pub(crate) fn unix_timestamp() -> (reading: Result<i64, ProgramError>) {
    Clock::get().map(|clock| clock.unix_timestamp)
}

} // verus!
