use vstd::prelude::*;

verus! {

/// Failures reported by the echo program.
#[derive(Debug, Clone, Copy, PartialEq, Eq, Structural)]
pub enum EchoError {
    /// The instruction bytes do not describe a known instruction, or its
    /// arguments do not fit the accounts it names.
    InvalidInstructionData,
    /// A presented account is not the one its derivation demands.
    InvalidAccountData,
    /// No bump value turns the seeds into a valid program address.
    InvalidSeeds,
    /// An account is too small to hold the buffer header.
    AccountDataTooSmall,
    /// Fewer accounts were supplied than the instruction requires.
    NotEnoughAccountKeys,
    /// The instruction exists but has no behaviour yet.
    NotImplemented,
    /// The account to create exists already.
    AccountAlreadyExists,
    /// The payer cannot fund the account to create.
    InsufficientFunds,
    /// Any other failure of the runtime, carried by its numeric code.
    Runtime(u64),
}

} // verus!
