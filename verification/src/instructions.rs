//! Request payloads: the instruction codec and the operation handlers.
//!
//! A request payload is discriminant-tagged and fixed-layout: the leading tag
//! byte selects the variant, the remaining bytes are the variant's fields
//! (little-endian integers, raw identity bytes), with no trailing-byte
//! tolerance.

use vstd::bytes::{
    lemma_auto_spec_u32_to_from_le_bytes, spec_u32_from_le_bytes, spec_u32_to_le_bytes,
    u32_from_le_bytes, u32_to_le_bytes,
};
use vstd::prelude::*;

use crate::account::{accounts_view, AccountHandle, AccountModel};
use crate::codec::{append_bytes, copy_range};
use crate::errors::ProgramError;
use crate::identity::{Identity, IDENTITY_LEN};
use crate::instructions::change_state::ChangeStateArgs;
use crate::instructions::instantiate::InstantiateArgs;

pub mod change_state;
pub mod instantiate;

verus! {

/// The tag byte that selects the `Instantiate` variant.
pub const INSTANTIATE_TAG: u8 = 0;

/// The tag byte that selects the `ChangeState` variant.
pub const CHANGE_STATE_TAG: u8 = 1;

/// The byte length of an encoded `Instantiate` payload: the tag byte and the
/// two identities.
pub const INSTANTIATE_PAYLOAD_LEN: usize = 65;

/// The byte length of an encoded `ChangeState` payload: the tag byte and the
/// little-endian counter.
pub const CHANGE_STATE_PAYLOAD_LEN: usize = 5;

/// The two-phase interface every operation handler exposes: role-specific
/// checks first, then the mutation, each independently callable.
pub trait Instruction {
    /// The handler's bound roles lie within the supplied handle list and its
    /// decoded arguments are well formed.
    spec fn ready(&self, accounts: &Vec<AccountHandle>) -> bool;

    /// What this handler's validation decides about the supplied handles.
    spec fn validate_model(&self, accounts: Seq<AccountModel>) -> Result<(), ProgramError>;

    /// What this handler's execution leaves behind: the typed result and the
    /// handles as they stand afterwards.
    spec fn execute_model(&self, accounts: Seq<AccountModel>) -> (
        Result<(), ProgramError>,
        Seq<AccountModel>,
    );

    /// Checks authorization and structural preconditions; takes the handles
    /// immutably, so a failed validation is a pure no-op.
    fn validate(&self, accounts: &Vec<AccountHandle>) -> (r: Result<(), ProgramError>)
        requires
            self.ready(accounts),
        ensures
            r == self.validate_model(accounts_view(accounts@)),
    ;

    /// Performs the state mutation.
    fn execute(&mut self, accounts: &mut Vec<AccountHandle>) -> (r: Result<(), ProgramError>)
        requires
            old(self).ready(old(accounts)),
        ensures
            ({
                let step = old(self).execute_model(accounts_view(old(accounts)@));
                r == step.0 && accounts_view(final(accounts)@) == step.1
            }),
    ;
}

/// The mathematical content of a decoded instruction.
#[verifier::ext_equal]
pub enum InstructionModel {
    Instantiate { user1: Seq<u8>, user2: Seq<u8> },
    ChangeState { state: u32 },
}

impl InstructionModel {
    /// Identity arguments hold exactly `IDENTITY_LEN` bytes.
    pub open spec fn wf(&self) -> bool {
        match *self {
            InstructionModel::Instantiate { user1, user2 } => user1.len() == IDENTITY_LEN
                && user2.len() == IDENTITY_LEN,
            InstructionModel::ChangeState { .. } => true,
        }
    }
}

/// A decoded request: exactly one of the two operation kinds, with its
/// argument struct.
#[derive(Debug)]
pub enum SyndicaTestInstruction {
    Instantiate(InstantiateArgs),
    ChangeState(ChangeStateArgs),
}

impl View for SyndicaTestInstruction {
    type V = InstructionModel;

    open spec fn view(&self) -> InstructionModel {
        match *self {
            SyndicaTestInstruction::Instantiate(args) => InstructionModel::Instantiate {
                user1: args.user1@,
                user2: args.user2@,
            },
            SyndicaTestInstruction::ChangeState(args) => InstructionModel::ChangeState {
                state: args.state,
            },
        }
    }
}

impl SyndicaTestInstruction {
    /// The argument struct is well formed.
    pub open spec fn wf(&self) -> bool {
        self@.wf()
    }
}

/// The byte sequence that encodes an instruction: the variant's tag byte,
/// then its fields in their fixed layout.
pub open spec fn instruction_to_bytes(m: InstructionModel) -> Seq<u8> {
    match m {
        InstructionModel::Instantiate { user1, user2 } => seq![INSTANTIATE_TAG] + user1 + user2,
        InstructionModel::ChangeState { state } => seq![CHANGE_STATE_TAG] + spec_u32_to_le_bytes(
            state,
        ),
    }
}

/// The instruction encoded in a request payload, or `MalformedInstruction`
/// when the discriminant is unrecognized or the remaining bytes do not match
/// the variant's field layout exactly.
pub open spec fn instruction_from_bytes(s: Seq<u8>) -> Result<InstructionModel, ProgramError> {
    if s.len() == 0 {
        Err(ProgramError::MalformedInstruction)
    } else if s[0] == INSTANTIATE_TAG {
        if s.len() == INSTANTIATE_PAYLOAD_LEN {
            Ok(
                InstructionModel::Instantiate {
                    user1: s.subrange(1, 1 + IDENTITY_LEN as int),
                    user2: s.subrange(1 + IDENTITY_LEN as int, INSTANTIATE_PAYLOAD_LEN as int),
                },
            )
        } else {
            Err(ProgramError::MalformedInstruction)
        }
    } else if s[0] == CHANGE_STATE_TAG {
        if s.len() == CHANGE_STATE_PAYLOAD_LEN {
            Ok(
                InstructionModel::ChangeState {
                    state: spec_u32_from_le_bytes(s.subrange(1, CHANGE_STATE_PAYLOAD_LEN as int)),
                },
            )
        } else {
            Err(ProgramError::MalformedInstruction)
        }
    } else {
        Err(ProgramError::MalformedInstruction)
    }
}

/// Decoding is a left inverse of encoding: every constructible instruction is
/// reproduced exactly from its own encoding.
pub proof fn lemma_instruction_round_trip(m: InstructionModel)
    requires
        m.wf(),
    ensures
        instruction_from_bytes(instruction_to_bytes(m)) == Ok::<InstructionModel, ProgramError>(m),
{
    let s = instruction_to_bytes(m);
    match m {
        InstructionModel::Instantiate { user1, user2 } => {
            assert(s.subrange(1, 1 + IDENTITY_LEN as int) =~= user1);
            assert(s.subrange(1 + IDENTITY_LEN as int, INSTANTIATE_PAYLOAD_LEN as int) =~= user2);
            assert(instruction_from_bytes(s)->Ok_0 =~= m);
        },
        InstructionModel::ChangeState { state } => {
            lemma_auto_spec_u32_to_from_le_bytes();
            assert(s.subrange(1, CHANGE_STATE_PAYLOAD_LEN as int) =~= spec_u32_to_le_bytes(state));
            assert(instruction_from_bytes(s)->Ok_0 =~= m);
        },
    }
}

/// A payload whose leading byte is no known tag — or that is empty — decodes
/// to `MalformedInstruction`.
pub proof fn lemma_unrecognized_discriminant(s: Seq<u8>)
    requires
        s.len() == 0 || (s[0] != INSTANTIATE_TAG && s[0] != CHANGE_STATE_TAG),
    ensures
        instruction_from_bytes(s) == Err::<InstructionModel, ProgramError>(
            ProgramError::MalformedInstruction,
        ),
{
}

/// Encodes an instruction into its wire layout.
pub fn encode_instruction(instruction: &SyndicaTestInstruction) -> (r: Vec<u8>)
    ensures
        r@ == instruction_to_bytes(instruction@),
{
    match instruction {
        SyndicaTestInstruction::Instantiate(args) => {
            let mut out: Vec<u8> = Vec::new();
            out.push(INSTANTIATE_TAG);
            append_bytes(&mut out, &args.user1.bytes);
            append_bytes(&mut out, &args.user2.bytes);
            proof {
                assert(out@ =~= instruction_to_bytes(instruction@));
            }
            out
        },
        SyndicaTestInstruction::ChangeState(args) => {
            let mut out: Vec<u8> = Vec::new();
            out.push(CHANGE_STATE_TAG);
            let mut counter = u32_to_le_bytes(args.state);
            out.append(&mut counter);
            proof {
                assert(out@ =~= instruction_to_bytes(instruction@));
            }
            out
        },
    }
}

/// Decodes a request payload into a typed instruction; fails with
/// `MalformedInstruction` exactly when no instruction is encoded in it.
pub fn decode_instruction(bytes: &Vec<u8>) -> (r: Result<SyndicaTestInstruction, ProgramError>)
    ensures
        r matches Ok(instruction) ==> instruction.wf() && instruction_from_bytes(bytes@) == Ok::<
            InstructionModel,
            ProgramError,
        >(instruction@),
        r matches Err(e) ==> instruction_from_bytes(bytes@) == Err::<
            InstructionModel,
            ProgramError,
        >(e),
{
    if bytes.len() == 0 {
        return Err(ProgramError::MalformedInstruction);
    }
    let tag = bytes[0];
    if tag == INSTANTIATE_TAG {
        if bytes.len() != INSTANTIATE_PAYLOAD_LEN {
            return Err(ProgramError::MalformedInstruction);
        }
        let user1 = Identity { bytes: copy_range(bytes, 1, 1 + IDENTITY_LEN) };
        let user2 = Identity { bytes: copy_range(bytes, 1 + IDENTITY_LEN, INSTANTIATE_PAYLOAD_LEN) };
        let instruction = SyndicaTestInstruction::Instantiate(InstantiateArgs { user1, user2 });
        proof {
            assert(instruction_from_bytes(bytes@)->Ok_0 =~= instruction@);
        }
        Ok(instruction)
    } else if tag == CHANGE_STATE_TAG {
        if bytes.len() != CHANGE_STATE_PAYLOAD_LEN {
            return Err(ProgramError::MalformedInstruction);
        }
        let counter_bytes = vstd::slice::slice_subrange(
            bytes.as_slice(),
            1,
            CHANGE_STATE_PAYLOAD_LEN,
        );
        let state = u32_from_le_bytes(counter_bytes);
        let instruction = SyndicaTestInstruction::ChangeState(ChangeStateArgs { state });
        proof {
            assert(instruction_from_bytes(bytes@)->Ok_0 =~= instruction@);
        }
        Ok(instruction)
    } else {
        Err(ProgramError::MalformedInstruction)
    }
}

} // verus!
