//! The typed failures of the program.

use vstd::prelude::*;

verus! {

/// Why an operation was refused. Every failure is terminal for the operation
/// that raised it: nothing is written and nothing is transferred.
#[derive(Debug, Clone, Copy, PartialEq, Eq, Structural)]
pub enum LendingError {
    /// The instruction bytes do not encode an operation.
    InvalidInstructionData,
    /// Fewer accounts were supplied than the operation reads.
    NotEnoughAccountKeys,
    /// The user who must authorize the operation did not sign it.
    AuthenticationError,
    /// A supplied account is not the one derived for its role.
    AddressMismatch,
    /// A checked operation would overflow, underflow or divide by zero.
    ArithmeticError,
    /// The requested amount exceeds what the position allows.
    LimitExceeded,
    /// A required record is missing, malformed or already initialized.
    StateError,
    /// A parameter lies outside the range the data model admits.
    InvalidArgument,
    /// The token program account is not the token program.
    IncorrectProgramId,
    /// The operation needs the current time and no clock was available.
    ClockUnavailable,
}

} // verus!
