use counter_program::processor::{
    get_or_init_counter, process_instruction, Account, CounterError, Identity,
};

fn identity(byte: u8) -> Identity {
    Identity { bytes: vec![byte; 32] }
}

fn one_account(owner_byte: u8, data: Vec<u8>) -> Vec<Account> {
    vec![Account { owner: identity(owner_byte), data }]
}

#[test]
fn missing_account_is_rejected() {
    let pid = identity(7);
    let mut accounts: Vec<Account> = Vec::new();
    let r = process_instruction(&pid, &mut accounts, &[1]);
    assert_eq!(r, Err(CounterError::MissingAccount));
}

#[test]
fn increment_writes_one_to_fresh_buffer() {
    let pid = identity(7);
    let mut accounts = one_account(7, vec![0, 0, 0, 0]);
    let r = process_instruction(&pid, &mut accounts, &[1]);
    assert_eq!(r, Ok(()));
    assert_eq!(accounts[0].data, vec![1, 0, 0, 0]);
}

#[test]
fn stored_bytes_match_borsh_encoding() {
    let pid = identity(7);
    let mut accounts = one_account(7, vec![0, 0, 0, 0]);
    process_instruction(&pid, &mut accounts, &[1]).unwrap();
    assert_eq!(accounts[0].data, borsh::to_vec(&1u32).unwrap());
}

#[test]
fn decrement_lowers_stored_count() {
    let pid = identity(3);
    let mut accounts = one_account(3, vec![5, 0, 0, 0]);
    let r = process_instruction(&pid, &mut accounts, &[2]);
    assert_eq!(r, Ok(()));
    assert_eq!(accounts[0].data, vec![4, 0, 0, 0]);
}

#[test]
fn decrement_floors_at_zero_via_instruction() {
    let pid = identity(3);
    let mut accounts = one_account(3, vec![0, 0, 0, 0]);
    let r = process_instruction(&pid, &mut accounts, &[2]);
    assert_eq!(r, Ok(()));
    assert_eq!(accounts[0].data, vec![0, 0, 0, 0]);
}

#[test]
fn increment_wraps_at_max_via_instruction() {
    let pid = identity(3);
    let mut accounts = one_account(3, vec![255, 255, 255, 255]);
    let r = process_instruction(&pid, &mut accounts, &[1]);
    assert_eq!(r, Ok(()));
    assert_eq!(accounts[0].data, vec![0, 0, 0, 0]);
}

#[test]
fn view_reads_stored_count_without_writing() {
    let pid = identity(9);
    let mut accounts = one_account(9, vec![5, 1, 0, 0]);
    let r = process_instruction(&pid, &mut accounts, &[3]);
    assert_eq!(r, Ok(()));
    assert_eq!(accounts[0].data, vec![5, 1, 0, 0]);
    let c = get_or_init_counter(&accounts[0]).unwrap();
    assert_eq!(c.count, 256 + 5);
}

#[test]
fn repeated_views_report_the_same_value() {
    let pid = identity(9);
    let mut accounts = one_account(9, vec![42, 0, 0, 0]);
    let mut seen = Vec::new();
    for _ in 0..4 {
        let r = process_instruction(&pid, &mut accounts, &[3]);
        assert_eq!(r, Ok(()));
        assert_eq!(accounts[0].data, vec![42, 0, 0, 0]);
        seen.push(get_or_init_counter(&accounts[0]).unwrap().count);
    }
    assert_eq!(seen, vec![42, 42, 42, 42]);
}

#[test]
fn monotonic_round_trip_via_instructions() {
    let pid = identity(1);
    let mut accounts = one_account(1, vec![5, 0, 0, 0]);
    for _ in 0..3 {
        process_instruction(&pid, &mut accounts, &[1]).unwrap();
    }
    assert_eq!(accounts[0].data, vec![8, 0, 0, 0]);
    for _ in 0..3 {
        process_instruction(&pid, &mut accounts, &[2]).unwrap();
    }
    assert_eq!(accounts[0].data, vec![5, 0, 0, 0]);
}

#[test]
fn undecodable_buffer_defaults_to_zero() {
    let pid = identity(4);
    // Five garbage bytes: long enough, but not a valid four-byte encoding.
    let mut accounts = one_account(4, vec![9, 9, 9, 9, 9]);
    let c = get_or_init_counter(&accounts[0]).unwrap();
    assert_eq!(c.count, 0);
    let r = process_instruction(&pid, &mut accounts, &[3]);
    assert_eq!(r, Ok(()));
    assert_eq!(accounts[0].data, vec![9, 9, 9, 9, 9]);
}

#[test]
fn increment_on_long_buffer_touches_only_leading_bytes() {
    let pid = identity(4);
    let mut accounts = one_account(4, vec![9, 9, 9, 9, 9]);
    let r = process_instruction(&pid, &mut accounts, &[1]);
    assert_eq!(r, Ok(()));
    // The undecodable buffer reads as zero; one is written back in front.
    assert_eq!(accounts[0].data, vec![1, 0, 0, 0, 9]);
}

#[test]
fn wrong_owner_is_rejected_for_every_opcode() {
    let pid = identity(7);
    for op in [1u8, 2, 3] {
        let mut accounts = one_account(8, vec![5, 0, 0, 0]);
        let r = process_instruction(&pid, &mut accounts, &[op]);
        assert_eq!(r, Err(CounterError::IncorrectOwner));
        assert_eq!(accounts[0].data, vec![5, 0, 0, 0]);
    }
}

#[test]
fn short_buffer_is_rejected_for_every_opcode() {
    let pid = identity(7);
    for op in [1u8, 2, 3] {
        let mut accounts = one_account(7, vec![5, 0, 0]);
        let r = process_instruction(&pid, &mut accounts, &[op]);
        assert_eq!(r, Err(CounterError::AccountTooSmall));
        assert_eq!(accounts[0].data, vec![5, 0, 0]);
    }
}

#[test]
fn unknown_opcodes_and_empty_instruction_are_rejected() {
    let pid = identity(7);
    for instr in [vec![], vec![0u8], vec![4u8], vec![9u8], vec![255u8]] {
        let mut accounts = one_account(7, vec![5, 0, 0, 0]);
        let r = process_instruction(&pid, &mut accounts, &instr);
        assert_eq!(r, Err(CounterError::InvalidInstruction));
        assert_eq!(accounts[0].data, vec![5, 0, 0, 0]);
    }
}

#[test]
fn later_accounts_are_never_touched() {
    let pid = identity(7);
    let mut accounts = vec![
        Account { owner: identity(7), data: vec![0, 0, 0, 0] },
        Account { owner: identity(8), data: vec![9, 9, 9, 9] },
    ];
    let r = process_instruction(&pid, &mut accounts, &[1]);
    assert_eq!(r, Ok(()));
    assert_eq!(accounts[0].data, vec![1, 0, 0, 0]);
    assert_eq!(accounts[1].data, vec![9, 9, 9, 9]);
    assert_eq!(accounts[1].owner.bytes, vec![8; 32]);
}

#[test]
fn example_scenario_full_run() {
    let pid = identity(7);
    let mut accounts = one_account(7, vec![0, 0, 0, 0]);

    let r = process_instruction(&pid, &mut accounts, &[1]);
    assert_eq!(r, Ok(()));
    assert_eq!(accounts[0].data, vec![1, 0, 0, 0]);

    let r = process_instruction(&pid, &mut accounts, &[2]);
    assert_eq!(r, Ok(()));
    assert_eq!(accounts[0].data, vec![0, 0, 0, 0]);

    let r = process_instruction(&pid, &mut accounts, &[2]);
    assert_eq!(r, Ok(()));
    assert_eq!(accounts[0].data, vec![0, 0, 0, 0]);

    let r = process_instruction(&pid, &mut accounts, &[3]);
    assert_eq!(r, Ok(()));
    assert_eq!(get_or_init_counter(&accounts[0]).unwrap().count, 0);
    assert_eq!(accounts[0].data, vec![0, 0, 0, 0]);

    let r = process_instruction(&pid, &mut accounts, &[9]);
    assert_eq!(r, Err(CounterError::InvalidInstruction));
    assert_eq!(accounts[0].data, vec![0, 0, 0, 0]);
}

#[test]
fn get_or_init_reads_borsh_encoded_count() {
    let account = Account { owner: identity(1), data: borsh::to_vec(&77u32).unwrap() };
    let c = get_or_init_counter(&account).unwrap();
    assert_eq!(c.count, 77);
}

#[test]
fn identities_compare_by_bytes() {
    assert!(identity(5) == identity(5));
    assert!(identity(5) != identity(6));
    let short = Identity { bytes: vec![5; 4] };
    assert!(identity(5) != short);
}
