use vstd::prelude::*;

use crate::account::{same_key, Account, Pubkey};
use crate::error::CounterError;
use crate::instruction::{instruction_spec, unpack_instruction_data, CounterInstruction};
use crate::state::{decode_spec, encode_spec, Counter};

verus! {

/// The state that a transition leads to from `c`, or why it is refused.
pub open spec fn transition(ins: CounterInstruction, c: Counter) -> Result<Counter, CounterError> {
    match ins {
        CounterInstruction::Initialize => if c.is_initialized {
            Err(CounterError::AccountAlreadyInitialized)
        } else {
            Ok(Counter { is_initialized: true, count: 0 })
        },
        CounterInstruction::Increment => if c.count == u32::MAX {
            Err(CounterError::ArithmeticOverflow)
        } else {
            Ok(Counter { is_initialized: c.is_initialized, count: (c.count + 1) as u32 })
        },
        CounterInstruction::Decrement => if c.count == 0 {
            Err(CounterError::InvalidArgument)
        } else {
            Ok(Counter { is_initialized: c.is_initialized, count: (c.count - 1) as u32 })
        },
    }
}

/// The state held by the target account, the first of `accounts`, or why it
/// cannot be read: an empty list is `NotEnoughAccountKeys`, an owner other than
/// `program_id` is `IncorrectProgramId` whatever the data, and then the data
/// must decode.
pub open spec fn load_spec(program_id: Pubkey, accounts: Seq<Account>) -> Result<Counter, CounterError> {
    if accounts.len() == 0 {
        Err(CounterError::NotEnoughAccountKeys)
    } else if accounts[0].owner.bytes@ != program_id.bytes@ {
        Err(CounterError::IncorrectProgramId)
    } else {
        match decode_spec(accounts[0].data@) {
            None => Err(CounterError::InvalidAccountData),
            Some(c) => Ok(c),
        }
    }
}

/// The bytes that a transition leaves in the target account, or why it is
/// refused.
pub open spec fn run_spec(program_id: Pubkey, accounts: Seq<Account>, ins: CounterInstruction) -> Result<
    Seq<u8>,
    CounterError,
> {
    match load_spec(program_id, accounts) {
        Err(e) => Err(e),
        Ok(c) => match transition(ins, c) {
            Ok(n) => Ok(encode_spec(n)),
            Err(e) => Err(e),
        },
    }
}

/// What a whole instruction does: the payload is decoded before any account
/// is looked at.
pub open spec fn process_spec(program_id: Pubkey, accounts: Seq<Account>, data: Seq<u8>) -> Result<
    Seq<u8>,
    CounterError,
> {
    match instruction_spec(data) {
        None => Err(CounterError::InvalidInstructionData),
        Some(ins) => run_spec(program_id, accounts, ins),
    }
}

/// On success the target's data is replaced by `new_data` and nothing else
/// changes; on failure nothing changes at all.
pub open spec fn accounts_after(
    old_accounts: Seq<Account>,
    new_accounts: Seq<Account>,
    outcome: Result<Seq<u8>, CounterError>,
) -> bool {
    match outcome {
        Ok(new_data) => {
            &&& new_accounts.len() == old_accounts.len()
            &&& new_accounts[0].owner == old_accounts[0].owner
            &&& new_accounts[0].data@ == new_data
            &&& forall|i: int| 1 <= i < old_accounts.len() ==> new_accounts[i] == old_accounts[i]
        },
        Err(_) => new_accounts == old_accounts,
    }
}

/// The result that a transition's outcome gives its caller.
pub open spec fn result_of(outcome: Result<Seq<u8>, CounterError>) -> Result<(), CounterError> {
    match outcome {
        Ok(_) => Ok(()),
        Err(e) => Err(e),
    }
}

/// Reads the state of the target account after checking its owner.
fn load_counter(program_id: &Pubkey, accounts: &Vec<Account>) -> (r: Result<Counter, CounterError>)
    ensures
        r == load_spec(*program_id, accounts@),
{
    if accounts.len() == 0 {
        return Err(CounterError::NotEnoughAccountKeys);
    }
    if !same_key(&accounts[0].owner, program_id) {
        return Err(CounterError::IncorrectProgramId);
    }
    Counter::unpack_from_slice(accounts[0].data.as_slice())
}

/// Replaces the target account's data with the encoding of `c`.
fn store_counter(c: Counter, accounts: &mut Vec<Account>)
    requires
        old(accounts)@.len() > 0,
        decode_spec(old(accounts)@[0].data@) is Some,
    ensures
        accounts_after(old(accounts)@, final(accounts)@, Ok(encode_spec(c))),
{
    let target = &mut accounts[0];
    c.pack_into_slice(target.data.as_mut_slice());
}

/// Starts the target account's counter at zero; an account that is already
/// initialized is refused.
pub fn process_initialize(program_id: &Pubkey, accounts: &mut Vec<Account>) -> (r: Result<(), CounterError>)
    ensures
        r == result_of(run_spec(*program_id, old(accounts)@, CounterInstruction::Initialize)),
        accounts_after(
            old(accounts)@,
            final(accounts)@,
            run_spec(*program_id, old(accounts)@, CounterInstruction::Initialize),
        ),
{
    let mut counter_info = match load_counter(program_id, accounts) {
        Ok(c) => c,
        Err(e) => return Err(e),
    };
    if counter_info.is_initialized {
        return Err(CounterError::AccountAlreadyInitialized);
    }
    counter_info.is_initialized = true;
    counter_info.count = 0;
    store_counter(counter_info, accounts);
    Ok(())
}

/// Adds one to the target account's count; the largest `u32` is refused
/// with `ArithmeticOverflow`.
pub fn process_increment(program_id: &Pubkey, accounts: &mut Vec<Account>) -> (r: Result<(), CounterError>)
    ensures
        r == result_of(run_spec(*program_id, old(accounts)@, CounterInstruction::Increment)),
        accounts_after(
            old(accounts)@,
            final(accounts)@,
            run_spec(*program_id, old(accounts)@, CounterInstruction::Increment),
        ),
{
    let mut counter_info = match load_counter(program_id, accounts) {
        Ok(c) => c,
        Err(e) => return Err(e),
    };
    counter_info.count = match counter_info.count.checked_add(1) {
        Some(n) => n,
        None => return Err(CounterError::ArithmeticOverflow),
    };
    store_counter(counter_info, accounts);
    Ok(())
}

/// Takes one from the target account's count; a count of zero is refused
/// with `InvalidArgument`.
pub fn process_decrement(program_id: &Pubkey, accounts: &mut Vec<Account>) -> (r: Result<(), CounterError>)
    ensures
        r == result_of(run_spec(*program_id, old(accounts)@, CounterInstruction::Decrement)),
        accounts_after(
            old(accounts)@,
            final(accounts)@,
            run_spec(*program_id, old(accounts)@, CounterInstruction::Decrement),
        ),
{
    let mut counter_info = match load_counter(program_id, accounts) {
        Ok(c) => c,
        Err(e) => return Err(e),
    };
    if counter_info.count == 0 {
        return Err(CounterError::InvalidArgument);
    }
    counter_info.count = match counter_info.count.checked_sub(1) {
        Some(n) => n,
        None => return Err(CounterError::ArithmeticOverflow),
    };
    store_counter(counter_info, accounts);
    Ok(())
}

/// Decodes the instruction payload and applies the transition it selects to
/// the target account, the first of `accounts`.
pub fn process_instruction(
    program_id: &Pubkey,
    accounts: &mut Vec<Account>,
    instruction_data: &[u8],
) -> (r: Result<(), CounterError>)
    ensures
        r == result_of(process_spec(*program_id, old(accounts)@, instruction_data@)),
        accounts_after(
            old(accounts)@,
            final(accounts)@,
            process_spec(*program_id, old(accounts)@, instruction_data@),
        ),
{
    let instruction = match unpack_instruction_data(instruction_data) {
        Ok(i) => i,
        Err(e) => return Err(e),
    };
    match instruction {
        CounterInstruction::Initialize => process_initialize(program_id, accounts),
        CounterInstruction::Increment => process_increment(program_id, accounts),
        CounterInstruction::Decrement => process_decrement(program_id, accounts),
    }
}

/// `Initialize` on an account that already holds an initialized state, with
/// any count, fails with `AccountAlreadyInitialized` and leaves every account
/// as it was.
pub proof fn lemma_initialize_refuses_initialized(
    program_id: Pubkey,
    accounts: Seq<Account>,
    instruction_data: Seq<u8>,
    c: Counter,
)
    requires
        accounts.len() > 0,
        accounts[0].owner.bytes@ == program_id.bytes@,
        decode_spec(accounts[0].data@) == Some(c),
        c.is_initialized,
        instruction_spec(instruction_data) == Some(CounterInstruction::Initialize),
    ensures
        process_spec(program_id, accounts, instruction_data) == Err::<Seq<u8>, CounterError>(
            CounterError::AccountAlreadyInitialized,
        ),
        forall|after: Seq<Account>|
            accounts_after(accounts, after, process_spec(program_id, accounts, instruction_data))
                <==> after == accounts,
{
}

/// An empty payload, or one whose opcode is 3 or more, fails with
/// `InvalidInstructionData` and leaves every account as it was.
pub proof fn lemma_unknown_opcode_refused(program_id: Pubkey, accounts: Seq<Account>, instruction_data: Seq<u8>)
    requires
        instruction_data.len() == 0 || instruction_data[0] >= 3,
    ensures
        process_spec(program_id, accounts, instruction_data) == Err::<Seq<u8>, CounterError>(
            CounterError::InvalidInstructionData,
        ),
        forall|after: Seq<Account>|
            accounts_after(accounts, after, process_spec(program_id, accounts, instruction_data))
                <==> after == accounts,
{
}

/// Every transition on an account that another program owns fails with
/// `IncorrectProgramId`, whatever its data holds, and leaves every account
/// as it was.
pub proof fn lemma_foreign_owner_refused(program_id: Pubkey, accounts: Seq<Account>, instruction_data: Seq<u8>)
    requires
        accounts.len() > 0,
        accounts[0].owner.bytes@ != program_id.bytes@,
        instruction_spec(instruction_data) is Some,
    ensures
        process_spec(program_id, accounts, instruction_data) == Err::<Seq<u8>, CounterError>(
            CounterError::IncorrectProgramId,
        ),
        forall|after: Seq<Account>|
            accounts_after(accounts, after, process_spec(program_id, accounts, instruction_data))
                <==> after == accounts,
{
}

} // verus!
