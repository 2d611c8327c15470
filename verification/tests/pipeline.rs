//! The dispatch pipeline on concrete requests: initialization, authorized and
//! unauthorized mutation, and the aborts that leave storage untouched.

use syndica_test::account::AccountHandle;
use syndica_test::account::bind_role;
use syndica_test::errors::ProgramError;
use syndica_test::identity::Identity;
use syndica_test::instructions::change_state::{ChangeState, ChangeStateArgs};
use syndica_test::instructions::instantiate::{Instantiate, InstantiateArgs};
use syndica_test::instructions::{encode_instruction, SyndicaTestInstruction};
use syndica_test::processor::process_instruction;
use syndica_test::state::ProgramState;

fn identity(byte: u8) -> Identity {
    Identity { bytes: vec![byte; 32] }
}

fn program_id() -> Identity {
    identity(0xF0)
}

fn state_unit() -> AccountHandle {
    AccountHandle {
        key: identity(0x0D),
        is_signer: false,
        data: vec![0u8; 68],
    }
}

fn signer_unit(key: Identity, signed: bool) -> AccountHandle {
    AccountHandle {
        key,
        is_signer: signed,
        data: Vec::new(),
    }
}

fn instantiate_payload(user1: u8, user2: u8) -> Vec<u8> {
    encode_instruction(&SyndicaTestInstruction::Instantiate(InstantiateArgs {
        user1: identity(user1),
        user2: identity(user2),
    }))
}

fn change_state_payload(state: u32) -> Vec<u8> {
    encode_instruction(&SyndicaTestInstruction::ChangeState(ChangeStateArgs { state }))
}

fn record_of(accounts: &Vec<AccountHandle>) -> ProgramState {
    ProgramState::from_bytes(&accounts[0].data).unwrap()
}

#[test]
fn instantiate_writes_fresh_record() {
    let mut accounts = vec![state_unit()];
    let r = process_instruction(&program_id(), &mut accounts, &instantiate_payload(0xA1, 0xB2));
    assert_eq!(r, Ok(()));
    let record = record_of(&accounts);
    assert_eq!(record.state, 0);
    assert_eq!(record.user1.bytes, vec![0xA1; 32]);
    assert_eq!(record.user2.bytes, vec![0xB2; 32]);
}

#[test]
fn instantiate_overwrites_prior_content() {
    let mut accounts = vec![AccountHandle {
        key: identity(0x0D),
        is_signer: false,
        data: vec![0xFFu8; 68],
    }];
    let r = process_instruction(&program_id(), &mut accounts, &instantiate_payload(3, 4));
    assert_eq!(r, Ok(()));
    let record = record_of(&accounts);
    assert_eq!(record.state, 0);
    assert_eq!(record.user1.bytes, vec![3; 32]);
}

#[test]
fn instantiate_needs_one_account() {
    let mut accounts: Vec<AccountHandle> = Vec::new();
    let r = process_instruction(&program_id(), &mut accounts, &instantiate_payload(1, 2));
    assert_eq!(r, Err(ProgramError::MissingAccount));
}

#[test]
fn instantiate_rejects_wrong_size_unit() {
    let mut accounts = vec![AccountHandle {
        key: identity(0x0D),
        is_signer: false,
        data: vec![0u8; 10],
    }];
    let r = process_instruction(&program_id(), &mut accounts, &instantiate_payload(1, 2));
    assert_eq!(r, Err(ProgramError::SerializationFailure));
    assert_eq!(accounts[0].data, vec![0u8; 10]);
}

#[test]
fn change_state_by_user1() {
    let mut accounts = vec![state_unit(), signer_unit(identity(0xA1), true)];
    process_instruction(&program_id(), &mut accounts, &instantiate_payload(0xA1, 0xB2)).unwrap();
    let r = process_instruction(&program_id(), &mut accounts, &change_state_payload(5));
    assert_eq!(r, Ok(()));
    let record = record_of(&accounts);
    assert_eq!(record.state, 5);
    assert_eq!(record.user1.bytes, vec![0xA1; 32]);
    assert_eq!(record.user2.bytes, vec![0xB2; 32]);
}

#[test]
fn change_state_by_user2() {
    let mut accounts = vec![state_unit(), signer_unit(identity(0xB2), true)];
    process_instruction(&program_id(), &mut accounts, &instantiate_payload(0xA1, 0xB2)).unwrap();
    let r = process_instruction(&program_id(), &mut accounts, &change_state_payload(7));
    assert_eq!(r, Ok(()));
    assert_eq!(record_of(&accounts).state, 7);
}

#[test]
fn change_state_rejects_unknown_identity() {
    let mut accounts = vec![state_unit(), signer_unit(identity(0xCC), true)];
    process_instruction(&program_id(), &mut accounts, &instantiate_payload(0xA1, 0xB2)).unwrap();
    let before = accounts[0].data.clone();
    let r = process_instruction(&program_id(), &mut accounts, &change_state_payload(9));
    assert_eq!(r, Err(ProgramError::Unauthorized));
    assert_eq!(accounts[0].data, before);
}

#[test]
fn change_state_rejects_missing_signature() {
    let mut accounts = vec![state_unit(), signer_unit(identity(0xA1), false)];
    process_instruction(&program_id(), &mut accounts, &instantiate_payload(0xA1, 0xB2)).unwrap();
    accounts[1].is_signer = false;
    let before = accounts[0].data.clone();
    let r = process_instruction(&program_id(), &mut accounts, &change_state_payload(9));
    assert_eq!(r, Err(ProgramError::Unauthorized));
    assert_eq!(accounts[0].data, before);
}

#[test]
fn change_state_needs_two_accounts() {
    let mut accounts = vec![state_unit()];
    process_instruction(&program_id(), &mut accounts, &instantiate_payload(1, 2)).unwrap();
    let r = process_instruction(&program_id(), &mut accounts, &change_state_payload(9));
    assert_eq!(r, Err(ProgramError::MissingAccount));
}

#[test]
fn change_state_rejects_undecodable_record() {
    let mut accounts = vec![
        AccountHandle {
            key: identity(0x0D),
            is_signer: false,
            data: vec![0u8; 3],
        },
        signer_unit(identity(0xA1), true),
    ];
    let r = process_instruction(&program_id(), &mut accounts, &change_state_payload(9));
    assert_eq!(r, Err(ProgramError::SerializationFailure));
    assert_eq!(accounts[0].data, vec![0u8; 3]);
}

#[test]
fn malformed_payload_leaves_accounts_unchanged() {
    let mut accounts = vec![state_unit(), signer_unit(identity(0xA1), true)];
    let before = accounts[0].data.clone();
    let r = process_instruction(&program_id(), &mut accounts, &vec![9u8, 9, 9]);
    assert_eq!(r, Err(ProgramError::MalformedInstruction));
    assert_eq!(accounts[0].data, before);
}

#[test]
fn full_scenario() {
    let a = 0xA1u8;
    let b = 0xB2u8;
    let c = 0xC3u8;
    let mut accounts = vec![state_unit(), signer_unit(identity(a), true)];

    process_instruction(&program_id(), &mut accounts, &instantiate_payload(a, b)).unwrap();
    let record = record_of(&accounts);
    assert_eq!(record.state, 0);
    assert_eq!(record.user1.bytes, vec![a; 32]);
    assert_eq!(record.user2.bytes, vec![b; 32]);

    process_instruction(&program_id(), &mut accounts, &change_state_payload(5)).unwrap();
    assert_eq!(record_of(&accounts).state, 5);

    accounts[1] = signer_unit(identity(b), true);
    process_instruction(&program_id(), &mut accounts, &change_state_payload(2)).unwrap();
    assert_eq!(record_of(&accounts).state, 2);

    accounts[1] = signer_unit(identity(c), true);
    let r = process_instruction(&program_id(), &mut accounts, &change_state_payload(9));
    assert_eq!(r, Err(ProgramError::Unauthorized));
    let record = record_of(&accounts);
    assert_eq!(record.state, 2);
    assert_eq!(record.user1.bytes, vec![a; 32]);
    assert_eq!(record.user2.bytes, vec![b; 32]);
}

#[test]
fn validation_is_a_pure_check() {
    let mut accounts = vec![state_unit(), signer_unit(identity(0xA1), true)];
    process_instruction(&program_id(), &mut accounts, &instantiate_payload(0xA1, 0xB2)).unwrap();
    let handler = ChangeState::new(program_id(), &accounts, ChangeStateArgs { state: 3 }).unwrap();
    assert_eq!(handler.validate_instruction(&accounts), Ok(()));
    assert_eq!(record_of(&accounts).state, 0);

    accounts[1] = signer_unit(identity(0xCC), true);
    let handler = ChangeState::new(program_id(), &accounts, ChangeStateArgs { state: 3 }).unwrap();
    assert_eq!(
        handler.validate_instruction(&accounts),
        Err(ProgramError::Unauthorized)
    );
    assert_eq!(record_of(&accounts).state, 0);
}

#[test]
fn instantiate_validation_accepts_any_caller() {
    let accounts = vec![state_unit()];
    let handler = Instantiate::new(
        program_id(),
        &accounts,
        InstantiateArgs {
            user1: identity(1),
            user2: identity(2),
        },
    )
    .unwrap();
    assert_eq!(handler.validate_instruction(), Ok(()));
}

#[test]
fn binder_checks_arity_only() {
    let accounts = vec![state_unit()];
    assert_eq!(bind_role(&accounts, 0), Ok(0));
    assert_eq!(bind_role(&accounts, 1), Err(ProgramError::MissingAccount));
}
