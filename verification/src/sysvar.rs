//! The host's clock.

use vstd::prelude::*;
use crate::errors::ErrorCode;

verus! {

#[verifier::external_type_specification]
#[verifier::external_body]
pub struct ExProgramError(anchor_lang::prelude::ProgramError);

/// Calls `Clock::get` of `anchor_lang` and picks the clock's `unix_timestamp`.
///
/// Nothing is claimed of the outcome: the host decides whether a clock can be
/// read and what it shows.
#[verifier::external_body]
pub(crate) fn clock_unix_timestamp() -> (now: Result<i64, anchor_lang::prelude::ProgramError>) {
    <anchor_lang::prelude::Clock as anchor_lang::prelude::SolanaSysvar>::get().map(
        |clock| clock.unix_timestamp,
    )
}

/// What a reading of the clock gives to the library: the time in seconds,
/// or `ClockUnavailable` whatever the host's reason.
pub open spec fn spec_timestamp(reading: Result<i64, anchor_lang::prelude::ProgramError>) -> Result<i64, ErrorCode> {
    match reading {
        Ok(now) => Ok(now),
        Err(_) => Err(ErrorCode::ClockUnavailable),
    }
}

/// Turns a reading of the clock into the library's own terms.
pub fn timestamp_of(reading: Result<i64, anchor_lang::prelude::ProgramError>) -> (now: Result<i64, ErrorCode>)
    ensures
        now == spec_timestamp(reading),
{
    match reading {
        Ok(now) => Ok(now),
        Err(_) => Err(ErrorCode::ClockUnavailable),
    }
}

/// Reads the host's clock: the time in seconds, or `ClockUnavailable`.
pub fn unix_timestamp() -> (now: Result<i64, ErrorCode>)
    ensures
        now is Err ==> now == Err::<i64, ErrorCode>(ErrorCode::ClockUnavailable),
{
    timestamp_of(clock_unix_timestamp())
}

} // verus!
