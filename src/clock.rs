use vstd::prelude::*;

verus! {

#[verifier::external_type_specification]
#[verifier::external_body]
pub struct ExProgramError(anchor_lang::prelude::ProgramError);

/// Relies on anchor_lang's `Clock::get` (the runtime's clock sysvar) for the
/// current Unix time in seconds. It fails where the runtime offers no clock.
/// Nothing is promised of the value read.
#[verifier::external_body]
pub(crate) fn unix_timestamp() -> (r: Result<i64, anchor_lang::prelude::ProgramError>) {
    <anchor_lang::prelude::Clock as anchor_lang::prelude::SolanaSysvar>::get().map(
        |clock| clock.unix_timestamp,
    )
}

/// Reads the clock, `None` where it cannot be read.
pub(crate) fn read_clock() -> (r: Option<i64>) {
    match unix_timestamp() {
        Ok(t) => Some(t),
        Err(_) => None,
    }
}

} // verus!
