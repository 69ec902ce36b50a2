use vstd::prelude::*;

verus! {

/// Every way an operation of this library can fail.
#[derive(Clone, Copy, Debug, PartialEq, Eq, Structural)]
pub enum FeeError {
    /// Fewer accounts were supplied than the operation reads.
    NotEnoughAccountKeys,
    /// The account in the mint position does not hold a mint record.
    InvalidAccountData,
    /// The mint is already in use and can no longer receive a fee configuration.
    AlreadyInUse,
    /// The mint already carries a fee configuration.
    ExtensionAlreadyInitialized,
    /// The mint carries no fee configuration.
    ExtensionNotFound,
    /// The requested rate is above `MAX_FEE_BASIS_POINTS`.
    FeeExceedsMaximum,
    /// The fee configuration has no authority: the schedule is frozen.
    NoAuthorityExists,
    /// The presented authority is not the configured one.
    OwnerMismatch,
    /// The presented authority did not sign.
    MissingRequiredSignature,
    /// A holder account belongs to another mint.
    MintMismatch,
    /// A holder account is unreadable, foreign-owned or has no fee record.
    InvalidState,
    /// The mint's aggregate withheld amount would exceed `u64::MAX`.
    Overflow,
    /// The operation is declared but has no defined behaviour.
    NotImplemented,
    /// The instruction was addressed to another program.
    IncorrectProgramId,
    /// The runtime did not supply the clock.
    ClockUnavailable,
}

} // verus!
