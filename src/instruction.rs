use vstd::prelude::*;

use crate::error::CounterError;

verus! {

/// The transition that an instruction requests.
#[derive(Debug, Clone, Copy, PartialEq, Eq, Structural)]
pub enum CounterInstruction {
    /// Start the counter at zero.
    Initialize,
    /// Add one to the count.
    Increment,
    /// Take one from the count.
    Decrement,
}

/// The instruction that a payload selects by its first byte, if any.
pub open spec fn instruction_spec(data: Seq<u8>) -> Option<CounterInstruction> {
    if data.len() == 0 {
        None
    } else if data[0] == 0 {
        Some(CounterInstruction::Initialize)
    } else if data[0] == 1 {
        Some(CounterInstruction::Increment)
    } else if data[0] == 2 {
        Some(CounterInstruction::Decrement)
    } else {
        None
    }
}

/// Reads the opcode at the start of a payload; bytes after it are ignored.
/// An empty payload or an unknown opcode is `InvalidInstructionData`.
pub fn unpack_instruction_data(instruction_data: &[u8]) -> (r: Result<CounterInstruction, CounterError>)
    ensures
        match instruction_spec(instruction_data@) {
            Some(i) => r == Ok::<CounterInstruction, CounterError>(i),
            None => r == Err::<CounterInstruction, CounterError>(CounterError::InvalidInstructionData),
        },
{
    if instruction_data.len() == 0 {
        return Err(CounterError::InvalidInstructionData);
    }
    match instruction_data[0] {
        0 => Ok(CounterInstruction::Initialize),
        1 => Ok(CounterInstruction::Increment),
        2 => Ok(CounterInstruction::Decrement),
        _ => Err(CounterError::InvalidInstructionData),
    }
}

} // verus!
