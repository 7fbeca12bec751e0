use vstd::prelude::*;

verus! {

/// Why an operation was refused. A refused operation changes nothing.
#[derive(Clone, Copy, Debug, PartialEq, Eq, Structural)]
pub enum EscrowError {
    /// A required signer did not sign, or the signer is not entitled to act.
    Unauthorized,
    /// A price outside the accepted range, or not the listed one.
    InvalidParameter,
    /// The record is already in use at listing, or already settled.
    StateConflict,
    /// An account supplied by the caller is not the one this program
    /// stored or derived.
    AccountMismatch,
    /// A fee computation left the range of its integers.
    Arithmetic,
    /// No program-derived address exists for the seeds.
    NoProgramAddress,
}

} // verus!
