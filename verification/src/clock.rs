use solana_program::clock::Clock;
use solana_program::program_error::ProgramError;
use solana_program::sysvar::Sysvar;
use vstd::prelude::*;

verus! {

/// `solana_program`'s `ProgramError`, carried through as an opaque value.
#[verifier::external_type_specification]
#[verifier::external_body]
pub struct ExProgramError(ProgramError);

/// Reads the runtime's clock through `solana_program`'s `Clock::get()` and
/// hands back its `epoch` field, or the runtime's error when the clock cannot
/// be had. Nothing is claimed of the value: it is whatever the runtime says.
#[verifier::external_body]
pub(crate) fn read_clock_epoch() -> (r: Result<u64, ProgramError>) {
    Clock::get().map(|clock| clock.epoch)
}

/// The current epoch, or `None` where the runtime supplies no clock. The
/// reading is the runtime's: nothing is known of it beforehand.
pub fn current_epoch() -> (r: Option<u64>) {
    match read_clock_epoch() {
        Ok(epoch) => Some(epoch),
        Err(_) => None,
    }
}

} // verus!
