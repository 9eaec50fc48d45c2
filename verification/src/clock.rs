//! The time, as the runtime tells it. The operations that stamp a record
//! or judge a period read it here; each has a twin that takes the time as an
//! argument and says exactly what happens at that time.

use vstd::prelude::*;
use crate::errors::Failure;

verus! {

/// `ProgramError` of `anchor_lang`: the error with which the runtime refuses
/// to tell the time. It is carried from the call to where it is mapped, and
/// nothing is known of what it holds.
#[verifier::external_type_specification]
#[verifier::external_body]
pub struct ExProgramError(anchor_lang::prelude::ProgramError);

/// Calls `Clock::get` of `anchor_lang` and hands on the Unix timestamp of the
/// clock it gives, or its error. The time is the runtime's to tell: the
/// contract claims nothing of it.
#[verifier::external_body]
fn unix_timestamp() -> (r: Result<i64, anchor_lang::prelude::ProgramError>) {
    match <anchor_lang::prelude::Clock as anchor_lang::prelude::SolanaSysvar>::get() {
        Ok(clock) => Ok(clock.unix_timestamp),
        Err(e) => Err(e),
    }
}

/// Reads the runtime's clock: the Unix timestamp in seconds, or
/// `ClockUnavailable` where the runtime gives none.
pub(crate) fn current_time() -> (r: Result<i64, Failure>)
    ensures
        r is Err ==> r == Err::<i64, Failure>(Failure::ClockUnavailable),
{
    match unix_timestamp() {
        Ok(now) => Ok(now),
        Err(_) => Err(Failure::ClockUnavailable),
    }
}

} // verus!
