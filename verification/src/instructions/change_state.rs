//! The `ChangeState` handler: overwrites the record's counter, for an
//! authorized signer only.

use vstd::pervasive::VecAdditionalExecFns;
use vstd::prelude::*;

use crate::account::{accounts_view, bind_role, AccountHandle, AccountModel};
use crate::errors::ProgramError;
use crate::identity::Identity;
use crate::instructions::Instruction;
use crate::state::{state_from_bytes, state_to_bytes, ProgramState, StateModel};

verus! {

/// The decoded arguments of a `ChangeState` request: the new counter value.
/// Any `u32` is accepted; no range restriction applies.
#[derive(Clone, Copy, Debug, PartialEq, Eq, Structural)]
pub struct ChangeStateArgs {
    pub state: u32,
}

/// A `ChangeState` operation bound to its storage-unit handles.  The handle
/// list supplies two roles: position 0 is the state record, position 1 the
/// signer.
#[derive(Debug)]
pub struct ChangeState {
    pub program_id: Identity,
    pub state_record: usize,
    pub signer: usize,
    pub args: ChangeStateArgs,
}

/// What validating `ChangeState` decides, in order: the signer handle must
/// carry the host's authenticated-signature flag, the current record must
/// decode, and the signer's identity must equal one of the record's two
/// parties; otherwise `Unauthorized` (or the decode failure).
pub open spec fn change_state_validate_model(record: AccountModel, signer: AccountModel) -> Result<
    (),
    ProgramError,
> {
    if !signer.is_signer {
        Err(ProgramError::Unauthorized)
    } else {
        match state_from_bytes(record.data) {
            Err(e) => Err(e),
            Ok(rec) => if signer.key == rec.user1 || signer.key == rec.user2 {
                Ok(())
            } else {
                Err(ProgramError::Unauthorized)
            },
        }
    }
}

/// What executing `ChangeState` does to the state-record storage unit: the
/// current record is re-decoded, only its counter is overwritten with the
/// requested value, and the full record is re-encoded in place; the two
/// identities are carried through unchanged.
pub open spec fn change_state_execute_model(record: AccountModel, new_state: u32) -> Result<
    AccountModel,
    ProgramError,
> {
    match state_from_bytes(record.data) {
        Err(e) => Err(e),
        Ok(rec) => Ok(
            AccountModel {
                key: record.key,
                is_signer: record.is_signer,
                data: state_to_bytes(
                    StateModel { state: new_state, user1: rec.user1, user2: rec.user2 },
                ),
            },
        ),
    }
}

impl ChangeState {
    /// Binds the supplied handles positionally to the roles this operation
    /// requires; fails with `MissingAccount` if too few are supplied.
    pub fn new(program_id: Identity, accounts: &Vec<AccountHandle>, args: ChangeStateArgs) -> (r:
        Result<ChangeState, ProgramError>)
        ensures
            accounts@.len() >= 2 ==> (r matches Ok(handler) && handler.program_id == program_id
                && handler.state_record == 0 && handler.signer == 1 && handler.args == args),
            accounts@.len() < 2 ==> r == Err::<ChangeState, ProgramError>(
                ProgramError::MissingAccount,
            ),
    {
        let state_record = match bind_role(accounts, 0) {
            Ok(position) => position,
            Err(e) => {
                return Err(e);
            },
        };
        let signer = match bind_role(accounts, 1) {
            Ok(position) => position,
            Err(e) => {
                return Err(e);
            },
        };
        Ok(ChangeState { program_id, state_record, signer, args })
    }

    /// Runs the two ordered authorization checks against the bound handles,
    /// decoding the current record but never mutating it.
    pub fn validate_instruction(&self, accounts: &Vec<AccountHandle>) -> (r: Result<
        (),
        ProgramError,
    >)
        requires
            self.state_record < accounts@.len(),
            self.signer < accounts@.len(),
        ensures
            r == change_state_validate_model(
                accounts@[self.state_record as int]@,
                accounts@[self.signer as int]@,
            ),
    {
        if !accounts[self.signer].is_signer {
            return Err(ProgramError::Unauthorized);
        }
        let record = match ProgramState::from_bytes(&accounts[self.state_record].data) {
            Ok(rec) => rec,
            Err(e) => {
                return Err(e);
            },
        };
        let signer_key = &accounts[self.signer].key;
        if signer_key.equals(&record.user1) || signer_key.equals(&record.user2) {
            Ok(())
        } else {
            Err(ProgramError::Unauthorized)
        }
    }

    /// Re-decodes the bound state record, overwrites only its counter, and
    /// re-encodes it in place, leaving every other handle untouched; on
    /// failure nothing is mutated.
    pub fn execute_instruction(&self, accounts: &mut Vec<AccountHandle>) -> (r: Result<
        (),
        ProgramError,
    >)
        requires
            self.state_record < old(accounts)@.len(),
        ensures
            ({
                let pre = accounts_view(old(accounts)@);
                let post = accounts_view(final(accounts)@);
                match change_state_execute_model(pre[self.state_record as int], self.args.state) {
                    Ok(updated) => r == Ok::<(), ProgramError>(()) && post == pre.update(
                        self.state_record as int,
                        updated,
                    ),
                    Err(e) => r == Err::<(), ProgramError>(e) && post == pre,
                }
            }),
    {
        let position = self.state_record;
        let mut record = match ProgramState::from_bytes(&accounts[position].data) {
            Ok(rec) => rec,
            Err(e) => {
                proof {
                    assert(accounts_view(accounts@) =~= accounts_view(old(accounts)@));
                }
                return Err(e);
            },
        };
        record.state = self.args.state;
        let encoded = record.to_bytes();
        let replacement = AccountHandle {
            key: accounts[position].key.clone(),
            is_signer: accounts[position].is_signer,
            data: encoded,
        };
        accounts.set(position, replacement);
        proof {
            let pre = accounts_view(old(accounts)@);
            let updated = change_state_execute_model(pre[position as int], self.args.state)->Ok_0;
            assert(accounts_view(accounts@) =~= pre.update(position as int, updated));
        }
        Ok(())
    }
}

impl Instruction for ChangeState {
    open spec fn ready(&self, accounts: &Vec<AccountHandle>) -> bool {
        self.state_record < accounts@.len() && self.signer < accounts@.len()
    }

    open spec fn validate_model(&self, accounts: Seq<AccountModel>) -> Result<(), ProgramError> {
        change_state_validate_model(
            accounts[self.state_record as int],
            accounts[self.signer as int],
        )
    }

    open spec fn execute_model(&self, accounts: Seq<AccountModel>) -> (
        Result<(), ProgramError>,
        Seq<AccountModel>,
    ) {
        match change_state_execute_model(accounts[self.state_record as int], self.args.state) {
            Ok(updated) => (Ok(()), accounts.update(self.state_record as int, updated)),
            Err(e) => (Err(e), accounts),
        }
    }

    fn validate(&self, accounts: &Vec<AccountHandle>) -> (r: Result<(), ProgramError>) {
        self.validate_instruction(accounts)
    }

    fn execute(&mut self, accounts: &mut Vec<AccountHandle>) -> (r: Result<(), ProgramError>) {
        self.execute_instruction(accounts)
    }
}

} // verus!
