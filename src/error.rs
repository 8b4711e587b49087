use vstd::prelude::*;

verus! {

/// Every way in which a request to the escrow program can fail.
///
/// The first five are the program's own; the others mirror the host's
/// generic account errors.
#[derive(Clone, Copy, Debug, PartialEq, Eq, Structural)]
pub enum EscrowError {
    /// The tag byte of a request is missing or unknown.
    InvalidInstruction,
    /// The payload of a request is too short.
    InvalidInstructionData,
    /// The record account does not hold enough lamports to be exempt from rent.
    NotRentExempt,
    /// The deposit account does not hold the amount the taker expected.
    ExpectedAmountMismatch,
    /// Crediting the maker's lamports would overflow.
    AmountOverflow,
    /// An account that must sign the request did not.
    MissingRequiredSignature,
    /// An account is not owned by, or is not, the token program.
    IncorrectProgramId,
    /// The record account already holds a live trade.
    AccountAlreadyInitialized,
    /// An account's data has not been initialized.
    UninitializedAccount,
    /// An account's data is malformed or does not match the record.
    InvalidAccountData,
    /// Fewer accounts were supplied than the operation needs.
    NotEnoughAccountKeys,
    /// The rent sysvar could not be read.
    InvalidArgument,
    /// No derived authority address exists for the program.
    InvalidSeeds,
}

} // verus!
