//! The `Instantiate` handler: writes a fresh record into the state-record
//! storage unit.

use vstd::pervasive::VecAdditionalExecFns;
use vstd::prelude::*;

use crate::account::{accounts_view, bind_role, AccountHandle, AccountModel};
use crate::errors::ProgramError;
use crate::identity::Identity;
use crate::instructions::Instruction;
use crate::state::{state_to_bytes, ProgramState, StateModel, RECORD_LEN};

verus! {

/// The decoded arguments of an `Instantiate` request: the two identities the
/// fresh record will authorize.
#[derive(Debug)]
pub struct InstantiateArgs {
    pub user1: Identity,
    pub user2: Identity,
}

impl InstantiateArgs {
    /// Both identities are well formed.
    pub open spec fn wf(&self) -> bool {
        self.user1.wf() && self.user2.wf()
    }
}

/// An `Instantiate` operation bound to its storage-unit handles.  The handle
/// list supplies one role: position 0 is the state record.
#[derive(Debug)]
pub struct Instantiate {
    pub program_id: Identity,
    pub state_record: usize,
    pub args: InstantiateArgs,
}

/// What executing `Instantiate` does to the state-record storage unit: a full
/// overwrite with a fresh record — counter zero, the two identities taken
/// verbatim from the arguments — with no read of prior content.  A unit whose
/// length is not exactly `RECORD_LEN` fails with `SerializationFailure`.
pub open spec fn instantiate_execute_model(
    record: AccountModel,
    user1: Seq<u8>,
    user2: Seq<u8>,
) -> Result<AccountModel, ProgramError> {
    if record.data.len() == RECORD_LEN {
        Ok(
            AccountModel {
                key: record.key,
                is_signer: record.is_signer,
                data: state_to_bytes(StateModel { state: 0, user1, user2 }),
            },
        )
    } else {
        Err(ProgramError::SerializationFailure)
    }
}

impl Instantiate {
    /// The decoded arguments are well formed.
    pub open spec fn wf(&self) -> bool {
        self.args.wf()
    }

    /// Binds the supplied handles positionally to the roles this operation
    /// requires; fails with `MissingAccount` if too few are supplied.
    pub fn new(program_id: Identity, accounts: &Vec<AccountHandle>, args: InstantiateArgs) -> (r:
        Result<Instantiate, ProgramError>)
        ensures
            accounts@.len() >= 1 ==> (r matches Ok(handler) && handler.program_id == program_id
                && handler.state_record == 0 && handler.args == args),
            accounts@.len() < 1 ==> r == Err::<Instantiate, ProgramError>(
                ProgramError::MissingAccount,
            ),
    {
        let state_record = match bind_role(accounts, 0) {
            Ok(position) => position,
            Err(e) => {
                return Err(e);
            },
        };
        Ok(Instantiate { program_id, state_record, args })
    }

    /// Performs no authorization check: any caller may initialize an
    /// uninitialized state record, so whoever first writes a freshly
    /// allocated, correctly sized storage unit determines its two parties.
    pub fn validate_instruction(&self) -> (r: Result<(), ProgramError>)
        ensures
            r == Ok::<(), ProgramError>(()),
    {
        Ok(())
    }

    /// Overwrites the bound state record with a fresh record, leaving every
    /// other handle untouched; on failure nothing is mutated.
    pub fn execute_instruction(&self, accounts: &mut Vec<AccountHandle>) -> (r: Result<
        (),
        ProgramError,
    >)
        requires
            self.state_record < old(accounts)@.len(),
        ensures
            ({
                let pre = accounts_view(old(accounts)@);
                let post = accounts_view(final(accounts)@);
                match instantiate_execute_model(
                    pre[self.state_record as int],
                    self.args.user1@,
                    self.args.user2@,
                ) {
                    Ok(updated) => r == Ok::<(), ProgramError>(()) && post == pre.update(
                        self.state_record as int,
                        updated,
                    ),
                    Err(e) => r == Err::<(), ProgramError>(e) && post == pre,
                }
            }),
    {
        let position = self.state_record;
        if accounts[position].data.len() != RECORD_LEN {
            proof {
                assert(accounts_view(accounts@) =~= accounts_view(old(accounts)@));
            }
            return Err(ProgramError::SerializationFailure);
        }
        let record = ProgramState {
            state: 0,
            user1: self.args.user1.clone(),
            user2: self.args.user2.clone(),
        };
        let encoded = record.to_bytes();
        let replacement = AccountHandle {
            key: accounts[position].key.clone(),
            is_signer: accounts[position].is_signer,
            data: encoded,
        };
        accounts.set(position, replacement);
        proof {
            let pre = accounts_view(old(accounts)@);
            let updated = instantiate_execute_model(
                pre[position as int],
                self.args.user1@,
                self.args.user2@,
            )->Ok_0;
            assert(accounts_view(accounts@) =~= pre.update(position as int, updated));
        }
        Ok(())
    }
}

impl Instruction for Instantiate {
    open spec fn ready(&self, accounts: &Vec<AccountHandle>) -> bool {
        self.state_record < accounts@.len() && self.wf()
    }

    open spec fn validate_model(&self, accounts: Seq<AccountModel>) -> Result<(), ProgramError> {
        Ok(())
    }

    open spec fn execute_model(&self, accounts: Seq<AccountModel>) -> (
        Result<(), ProgramError>,
        Seq<AccountModel>,
    ) {
        match instantiate_execute_model(
            accounts[self.state_record as int],
            self.args.user1@,
            self.args.user2@,
        ) {
            Ok(updated) => (Ok(()), accounts.update(self.state_record as int, updated)),
            Err(e) => (Err(e), accounts),
        }
    }

    fn validate(&self, accounts: &Vec<AccountHandle>) -> (r: Result<(), ProgramError>) {
        self.validate_instruction()
    }

    fn execute(&mut self, accounts: &mut Vec<AccountHandle>) -> (r: Result<(), ProgramError>) {
        self.execute_instruction(accounts)
    }
}

} // verus!
