use vstd::prelude::*;

verus! {

/// Why a transition was rejected. Every failure leaves the account as it was.
#[derive(Debug, Clone, Copy, PartialEq, Eq, Structural)]
pub enum CounterError {
    /// The account's buffer is not exactly one encoded state long.
    InvalidAccountData,
    /// The instruction payload is empty or its opcode is unknown.
    InvalidInstructionData,
    /// The target account is not owned by the executing program.
    IncorrectProgramId,
    /// `Initialize` on an account that is already initialized.
    AccountAlreadyInitialized,
    /// `Decrement` on a count of zero.
    InvalidArgument,
    /// `Increment` on a count at the largest `u32`.
    ArithmeticOverflow,
    /// The request names no target account.
    NotEnoughAccountKeys,
}

} // verus!
