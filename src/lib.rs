//! A ledger-resident counter: the fixed-width codec of its persisted state,
//! the decoding of instruction opcodes, and the processor that applies one
//! transition to the target account.

pub mod account;
pub mod error;
pub mod instruction;
pub mod processor;
pub mod state;

pub use account::{Account, Pubkey};
pub use error::CounterError;
pub use instruction::{unpack_instruction_data, CounterInstruction};
pub use processor::{
    process_decrement, process_increment, process_initialize, process_instruction,
};
pub use state::{Counter, COUNTER_LEN};
