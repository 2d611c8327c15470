//! The dispatcher: one entry point that decodes a request payload, binds the
//! supplied storage-unit handles to the matching operation handler, and runs
//! `validate` then `execute`, aborting on the first failure.

use vstd::prelude::*;

use crate::account::{accounts_view, AccountHandle, AccountModel};
use crate::errors::ProgramError;
use crate::identity::{Identity, IDENTITY_LEN};
use crate::instructions::change_state::{
    change_state_execute_model, change_state_validate_model, ChangeState,
};
use crate::instructions::instantiate::{instantiate_execute_model, Instantiate};
use crate::instructions::{
    decode_instruction, instruction_from_bytes, instruction_to_bytes, lemma_instruction_round_trip,
    InstructionModel, SyndicaTestInstruction,
};
use crate::state::{lemma_state_round_trip, state_from_bytes, state_to_bytes, StateModel, RECORD_LEN};

verus! {

/// Everything one invocation leaves behind: the typed result and the storage
/// units as they stand afterwards.  A failure leaves them exactly as they
/// were.
#[verifier::ext_equal]
pub struct ProcessOutcome {
    pub result: Result<(), ProgramError>,
    pub accounts: Seq<AccountModel>,
}

/// The whole pipeline as one mathematical step: decode the payload, check the
/// role arity, validate, execute.  Every verified part of the dispatcher and
/// of the handlers agrees with this function.
pub open spec fn process_model(accounts: Seq<AccountModel>, payload: Seq<u8>) -> ProcessOutcome {
    match instruction_from_bytes(payload) {
        Err(e) => ProcessOutcome { result: Err(e), accounts },
        Ok(InstructionModel::Instantiate { user1, user2 }) => {
            if accounts.len() < 1 {
                ProcessOutcome { result: Err(ProgramError::MissingAccount), accounts }
            } else {
                match instantiate_execute_model(accounts[0], user1, user2) {
                    Ok(updated) => ProcessOutcome {
                        result: Ok(()),
                        accounts: accounts.update(0, updated),
                    },
                    Err(e) => ProcessOutcome { result: Err(e), accounts },
                }
            }
        },
        Ok(InstructionModel::ChangeState { state }) => {
            if accounts.len() < 2 {
                ProcessOutcome { result: Err(ProgramError::MissingAccount), accounts }
            } else {
                match change_state_validate_model(accounts[0], accounts[1]) {
                    Err(e) => ProcessOutcome { result: Err(e), accounts },
                    Ok(_) => match change_state_execute_model(accounts[0], state) {
                        Ok(updated) => ProcessOutcome {
                            result: Ok(()),
                            accounts: accounts.update(0, updated),
                        },
                        Err(e) => ProcessOutcome { result: Err(e), accounts },
                    },
                }
            }
        },
    }
}

/// The single entry point: processes one request payload against the ordered
/// storage-unit handles, committing the mutation in full or leaving every
/// handle untouched.
pub fn process_instruction(
    program_id: &Identity,
    accounts: &mut Vec<AccountHandle>,
    payload: &Vec<u8>,
) -> (r: Result<(), ProgramError>)
    ensures
        ({
            let outcome = process_model(accounts_view(old(accounts)@), payload@);
            r == outcome.result && accounts_view(final(accounts)@) == outcome.accounts
        }),
{
    let instruction_type = match decode_instruction(payload) {
        Ok(instruction) => instruction,
        Err(e) => {
            return Err(e);
        },
    };
    match instruction_type {
        SyndicaTestInstruction::Instantiate(args) => {
            let handler = match Instantiate::new(program_id.clone(), accounts, args) {
                Ok(handler) => handler,
                Err(e) => {
                    return Err(e);
                },
            };
            match handler.validate_instruction() {
                Ok(_) => {},
                Err(e) => {
                    return Err(e);
                },
            }
            handler.execute_instruction(accounts)
        },
        SyndicaTestInstruction::ChangeState(args) => {
            let handler = match ChangeState::new(program_id.clone(), accounts, args) {
                Ok(handler) => handler,
                Err(e) => {
                    return Err(e);
                },
            };
            match handler.validate_instruction(accounts) {
                Ok(_) => {},
                Err(e) => {
                    return Err(e);
                },
            }
            handler.execute_instruction(accounts)
        },
    }
}

/// For every valid identity pair, `Instantiate` produces a persisted record
/// with counter zero and the given identities — regardless of caller identity
/// or signature — and touches no other handle.
pub proof fn lemma_instantiate_initializes(
    accounts: Seq<AccountModel>,
    user1: Seq<u8>,
    user2: Seq<u8>,
)
    requires
        accounts.len() >= 1,
        accounts[0].data.len() == RECORD_LEN,
        user1.len() == IDENTITY_LEN,
        user2.len() == IDENTITY_LEN,
    ensures
        ({
            let outcome = process_model(
                accounts,
                instruction_to_bytes(InstructionModel::Instantiate { user1, user2 }),
            );
            &&& outcome.result == Ok::<(), ProgramError>(())
            &&& state_from_bytes(outcome.accounts[0].data) == Ok::<StateModel, ProgramError>(
                StateModel { state: 0, user1, user2 },
            )
            &&& outcome.accounts[0].key == accounts[0].key
            &&& outcome.accounts[0].is_signer == accounts[0].is_signer
            &&& forall|i: int| 1 <= i < accounts.len() ==> outcome.accounts[i] == accounts[i]
        }),
{
    lemma_instruction_round_trip(InstructionModel::Instantiate { user1, user2 });
    lemma_state_round_trip(StateModel { state: 0, user1, user2 });
}

/// For every counter value, a record whose first party is the signer accepts
/// `ChangeState` and afterwards holds the requested counter and the same two
/// parties.
pub proof fn lemma_change_state_by_user1(
    accounts: Seq<AccountModel>,
    user1: Seq<u8>,
    user2: Seq<u8>,
    prior: u32,
    requested: u32,
)
    requires
        accounts.len() >= 2,
        user1.len() == IDENTITY_LEN,
        user2.len() == IDENTITY_LEN,
        accounts[0].data == state_to_bytes(StateModel { state: prior, user1, user2 }),
        accounts[1].is_signer,
        accounts[1].key == user1,
    ensures
        ({
            let outcome = process_model(
                accounts,
                instruction_to_bytes(InstructionModel::ChangeState { state: requested }),
            );
            &&& outcome.result == Ok::<(), ProgramError>(())
            &&& state_from_bytes(outcome.accounts[0].data) == Ok::<StateModel, ProgramError>(
                StateModel { state: requested, user1, user2 },
            )
            &&& outcome.accounts[0].key == accounts[0].key
            &&& outcome.accounts[0].is_signer == accounts[0].is_signer
            &&& forall|i: int| 1 <= i < accounts.len() ==> outcome.accounts[i] == accounts[i]
        }),
{
    lemma_instruction_round_trip(InstructionModel::ChangeState { state: requested });
    lemma_state_round_trip(StateModel { state: prior, user1, user2 });
    lemma_state_round_trip(StateModel { state: requested, user1, user2 });
}

/// The same holds when the signer is the record's second party.
pub proof fn lemma_change_state_by_user2(
    accounts: Seq<AccountModel>,
    user1: Seq<u8>,
    user2: Seq<u8>,
    prior: u32,
    requested: u32,
)
    requires
        accounts.len() >= 2,
        user1.len() == IDENTITY_LEN,
        user2.len() == IDENTITY_LEN,
        accounts[0].data == state_to_bytes(StateModel { state: prior, user1, user2 }),
        accounts[1].is_signer,
        accounts[1].key == user2,
    ensures
        ({
            let outcome = process_model(
                accounts,
                instruction_to_bytes(InstructionModel::ChangeState { state: requested }),
            );
            &&& outcome.result == Ok::<(), ProgramError>(())
            &&& state_from_bytes(outcome.accounts[0].data) == Ok::<StateModel, ProgramError>(
                StateModel { state: requested, user1, user2 },
            )
            &&& outcome.accounts[0].key == accounts[0].key
            &&& outcome.accounts[0].is_signer == accounts[0].is_signer
            &&& forall|i: int| 1 <= i < accounts.len() ==> outcome.accounts[i] == accounts[i]
        }),
{
    lemma_instruction_round_trip(InstructionModel::ChangeState { state: requested });
    lemma_state_round_trip(StateModel { state: prior, user1, user2 });
    lemma_state_round_trip(StateModel { state: requested, user1, user2 });
}

/// A signer whose identity is neither recorded party is rejected with
/// `Unauthorized`, and every storage unit — the persisted record included —
/// is byte-for-byte unchanged.
pub proof fn lemma_change_state_unauthorized_identity(
    accounts: Seq<AccountModel>,
    user1: Seq<u8>,
    user2: Seq<u8>,
    intruder: Seq<u8>,
    prior: u32,
    requested: u32,
)
    requires
        accounts.len() >= 2,
        user1.len() == IDENTITY_LEN,
        user2.len() == IDENTITY_LEN,
        accounts[0].data == state_to_bytes(StateModel { state: prior, user1, user2 }),
        accounts[1].is_signer,
        accounts[1].key == intruder,
        intruder != user1,
        intruder != user2,
    ensures
        ({
            let outcome = process_model(
                accounts,
                instruction_to_bytes(InstructionModel::ChangeState { state: requested }),
            );
            outcome.result == Err::<(), ProgramError>(ProgramError::Unauthorized)
                && outcome.accounts == accounts
        }),
{
    lemma_instruction_round_trip(InstructionModel::ChangeState { state: requested });
    lemma_state_round_trip(StateModel { state: prior, user1, user2 });
}

/// A request whose signer handle carries no authenticated-signature flag is
/// rejected with `Unauthorized` regardless of identity, with no mutation —
/// whatever the state record holds.
pub proof fn lemma_change_state_unsigned(accounts: Seq<AccountModel>, requested: u32)
    requires
        accounts.len() >= 2,
        !accounts[1].is_signer,
    ensures
        ({
            let outcome = process_model(
                accounts,
                instruction_to_bytes(InstructionModel::ChangeState { state: requested }),
            );
            outcome.result == Err::<(), ProgramError>(ProgramError::Unauthorized)
                && outcome.accounts == accounts
        }),
{
    lemma_instruction_round_trip(InstructionModel::ChangeState { state: requested });
}

} // verus!
