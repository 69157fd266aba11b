//! The program's entry point.

use crate::address::Address;
use crate::effect::{outcome_view, Account, Effect};
use crate::error::LendingError;
use crate::processor::Processor;
use vstd::prelude::*;

verus! {

/// Answers one call of the program: the operation that `instruction_data`
/// encodes is carried out on `accounts`, and its effects or its error are
/// handed back to the platform.
pub fn process_instruction(
    program_id: &Address,
    accounts: &[Account],
    instruction_data: &[u8],
    clock: Option<i64>,
) -> (outcome: Result<Vec<Effect>, LendingError>)
    ensures
        outcome_view(outcome) == Processor::process_outcome(
            *program_id,
            accounts@,
            instruction_data@,
            clock,
        ),
{
    Processor::process(program_id, accounts, instruction_data, clock)
}

} // verus!
