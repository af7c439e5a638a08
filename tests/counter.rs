use rust_solana::{
    process_decrement, process_increment, process_initialize, process_instruction,
    unpack_instruction_data, Account, Counter, CounterError, CounterInstruction, Pubkey,
    COUNTER_LEN,
};

fn program() -> Pubkey {
    Pubkey { bytes: [7u8; 32] }
}

fn account_with(data: Vec<u8>) -> Vec<Account> {
    vec![Account { owner: program(), data }]
}

fn encoded(is_initialized: bool, count: u32) -> Vec<u8> {
    let mut buf = vec![0u8; COUNTER_LEN];
    Counter { is_initialized, count }.pack_into_slice(&mut buf);
    buf
}

fn state_of(accounts: &[Account]) -> Counter {
    Counter::unpack_from_slice(&accounts[0].data).unwrap()
}

#[test]
fn round_trip_holds_on_sample_states() {
    for &(flag, count) in &[(false, 0u32), (true, 0), (true, 1), (false, 255), (true, 256), (true, 0x1234_5678), (true, u32::MAX)] {
        let c = Counter { is_initialized: flag, count };
        assert_eq!(Counter::unpack_from_slice(&encoded(flag, count)), Ok(c));
    }
}

#[test]
fn encoding_is_flag_then_little_endian_count() {
    assert_eq!(encoded(true, 0x1234_5678), vec![1, 0x78, 0x56, 0x34, 0x12]);
    assert_eq!(encoded(false, 0), vec![0, 0, 0, 0, 0]);
    assert_eq!(encoded(true, u32::MAX), vec![1, 255, 255, 255, 255]);
}

#[test]
fn decode_reads_nonzero_flag_as_initialized() {
    let c = Counter::unpack_from_slice(&[9, 1, 1, 0, 0]).unwrap();
    assert!(c.is_initialized());
    assert_eq!(c.count, 257);
}

#[test]
fn decode_of_zeroed_buffer_is_uninitialized() {
    let c = Counter::unpack_from_slice(&[0, 0, 0, 0, 0]).unwrap();
    assert_eq!(c, Counter { is_initialized: false, count: 0 });
}

#[test]
fn decode_rejects_wrong_lengths() {
    for len in [0usize, 1, 4, 6, 10] {
        let buf = vec![0u8; len];
        assert_eq!(Counter::unpack_from_slice(&buf), Err(CounterError::InvalidAccountData));
    }
}

#[test]
fn opcodes_decode_to_instructions() {
    assert_eq!(unpack_instruction_data(&[0]), Ok(CounterInstruction::Initialize));
    assert_eq!(unpack_instruction_data(&[1]), Ok(CounterInstruction::Increment));
    assert_eq!(unpack_instruction_data(&[2, 99]), Ok(CounterInstruction::Decrement));
    assert_eq!(unpack_instruction_data(&[]), Err(CounterError::InvalidInstructionData));
    assert_eq!(unpack_instruction_data(&[3]), Err(CounterError::InvalidInstructionData));
    assert_eq!(unpack_instruction_data(&[255]), Err(CounterError::InvalidInstructionData));
}

#[test]
fn initialize_on_zeroed_buffer() {
    let mut accounts = account_with(vec![0; 5]);
    assert_eq!(process_instruction(&program(), &mut accounts, &[0]), Ok(()));
    assert_eq!(accounts[0].data, vec![1, 0, 0, 0, 0]);
    assert_eq!(state_of(&accounts), Counter { is_initialized: true, count: 0 });
}

#[test]
fn initialize_refuses_initialized_account() {
    for n in [0u32, 1, 42, u32::MAX] {
        let mut accounts = account_with(encoded(true, n));
        let before = accounts[0].data.clone();
        assert_eq!(process_initialize(&program(), &mut accounts), Err(CounterError::AccountAlreadyInitialized));
        assert_eq!(accounts[0].data, before);
    }
}

#[test]
fn initialize_refuses_wrong_length_buffer() {
    let mut accounts = account_with(vec![0; 8]);
    assert_eq!(process_instruction(&program(), &mut accounts, &[0]), Err(CounterError::InvalidAccountData));
    assert_eq!(accounts[0].data, vec![0; 8]);
}

#[test]
fn increment_from_five() {
    let mut accounts = account_with(encoded(true, 5));
    assert_eq!(process_increment(&program(), &mut accounts), Ok(()));
    assert_eq!(state_of(&accounts), Counter { is_initialized: true, count: 6 });
}

#[test]
fn increment_a_thousand_times() {
    let mut accounts = account_with(encoded(true, 0));
    for _ in 0..1000 {
        assert_eq!(process_instruction(&program(), &mut accounts, &[1]), Ok(()));
    }
    assert_eq!(state_of(&accounts), Counter { is_initialized: true, count: 1000 });
}

#[test]
fn increment_at_max_overflows() {
    let mut accounts = account_with(encoded(true, u32::MAX));
    assert_eq!(process_instruction(&program(), &mut accounts, &[1]), Err(CounterError::ArithmeticOverflow));
    assert_eq!(accounts[0].data, vec![1, 255, 255, 255, 255]);
}

#[test]
fn increment_accepts_uninitialized_state() {
    let mut accounts = account_with(vec![0, 3, 0, 0, 0]);
    assert_eq!(process_instruction(&program(), &mut accounts, &[1]), Ok(()));
    assert_eq!(accounts[0].data, vec![0, 4, 0, 0, 0]);
}

#[test]
fn decrement_at_zero_is_refused() {
    let mut accounts = account_with(encoded(true, 0));
    assert_eq!(process_decrement(&program(), &mut accounts), Err(CounterError::InvalidArgument));
    assert_eq!(accounts[0].data, vec![1, 0, 0, 0, 0]);
}

#[test]
fn decrement_from_three() {
    let mut accounts = account_with(encoded(true, 3));
    assert_eq!(process_instruction(&program(), &mut accounts, &[2]), Ok(()));
    assert_eq!(state_of(&accounts), Counter { is_initialized: true, count: 2 });
}

#[test]
fn decrement_crosses_a_byte_boundary() {
    let mut accounts = account_with(encoded(true, 256));
    assert_eq!(process_instruction(&program(), &mut accounts, &[2]), Ok(()));
    assert_eq!(accounts[0].data, vec![1, 255, 0, 0, 0]);
}

#[test]
fn unknown_opcode_or_empty_payload_is_refused() {
    for payload in [vec![], vec![3u8], vec![4u8, 0], vec![200u8]] {
        let mut accounts = account_with(encoded(true, 9));
        assert_eq!(process_instruction(&program(), &mut accounts, &payload), Err(CounterError::InvalidInstructionData));
        assert_eq!(accounts[0].data, encoded(true, 9));
    }
}

#[test]
fn foreign_owner_is_refused_before_decoding() {
    for payload in [[0u8], [1u8], [2u8]] {
        // the data would not even decode: ownership is checked first
        let mut accounts = vec![Account { owner: Pubkey { bytes: [8u8; 32] }, data: vec![1, 2, 3] }];
        assert_eq!(process_instruction(&program(), &mut accounts, &payload), Err(CounterError::IncorrectProgramId));
        assert_eq!(accounts[0].data, vec![1, 2, 3]);
    }
    let mut last_byte = [7u8; 32];
    last_byte[31] = 0;
    let mut accounts = vec![Account { owner: Pubkey { bytes: last_byte }, data: encoded(true, 1) }];
    assert_eq!(process_instruction(&program(), &mut accounts, &[1]), Err(CounterError::IncorrectProgramId));
    assert_eq!(accounts[0].data, encoded(true, 1));
}

#[test]
fn missing_target_account_is_refused() {
    let mut accounts: Vec<Account> = Vec::new();
    assert_eq!(process_instruction(&program(), &mut accounts, &[0]), Err(CounterError::NotEnoughAccountKeys));
    assert_eq!(process_instruction(&program(), &mut accounts, &[7]), Err(CounterError::InvalidInstructionData));
}

#[test]
fn only_the_first_account_changes() {
    let mut accounts = account_with(vec![0; 5]);
    accounts.push(Account { owner: program(), data: vec![0; 5] });
    assert_eq!(process_instruction(&program(), &mut accounts, &[0]), Ok(()));
    assert_eq!(accounts[0].data, vec![1, 0, 0, 0, 0]);
    assert_eq!(accounts[1].data, vec![0; 5]);
}

#[test]
fn initialize_increment_increment_decrement() {
    let mut accounts = account_with(vec![0; 5]);
    for opcode in [0u8, 1, 1, 2] {
        assert_eq!(process_instruction(&program(), &mut accounts, &[opcode]), Ok(()));
    }
    assert_eq!(state_of(&accounts), Counter { is_initialized: true, count: 1 });
}

#[test]
fn default_state_encodes_as_zeroes() {
    let c = Counter::default();
    assert_eq!(c, Counter { is_initialized: false, count: 0 });
    assert!(!c.is_initialized());
    assert_eq!(encoded(c.is_initialized, c.count), vec![0, 0, 0, 0, 0]);
}
