//! Storage-unit handles: the host-supplied view of one account.

use vstd::prelude::*;

use crate::errors::ProgramError;
use crate::identity::Identity;

verus! {

/// The mathematical content of a storage-unit handle.
#[verifier::ext_equal]
pub struct AccountModel {
    /// The identity that addresses the storage unit.
    pub key: Seq<u8>,
    /// The host-verified fact that this handle's private credential
    /// authorized the current request.
    pub is_signer: bool,
    /// The storage unit's data region.
    pub data: Seq<u8>,
}

/// A host-managed, fixed-length, owner-tagged byte buffer, together with the
/// facts the host attaches to it for the current request.
#[derive(Debug)]
pub struct AccountHandle {
    pub key: Identity,
    pub is_signer: bool,
    pub data: Vec<u8>,
}

impl View for AccountHandle {
    type V = AccountModel;

    open spec fn view(&self) -> AccountModel {
        AccountModel { key: self.key@, is_signer: self.is_signer, data: self.data@ }
    }
}

/// The models of an ordered list of handles.
pub open spec fn accounts_view(accounts: Seq<AccountHandle>) -> Seq<AccountModel> {
    accounts.map_values(|a: AccountHandle| a@)
}

/// Binds one positional role: the handle at `position` fills the role, and
/// too short a handle list fails with `MissingAccount`.  No validation beyond
/// arity happens here; role-specific checks belong to each handler.
pub fn bind_role(accounts: &Vec<AccountHandle>, position: usize) -> (r: Result<
    usize,
    ProgramError,
>)
    ensures
        position < accounts@.len() ==> r == Ok::<usize, ProgramError>(position),
        position >= accounts@.len() ==> r == Err::<usize, ProgramError>(
            ProgramError::MissingAccount,
        ),
{
    if position < accounts.len() {
        Ok(position)
    } else {
        Err(ProgramError::MissingAccount)
    }
}

} // verus!
