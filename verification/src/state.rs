//! The persisted record and its fixed-layout binary codec.
//!
//! A storage unit holds exactly one record: a `u32` counter followed by the
//! two authorized-party identities, `4 + 32 + 32 = 68` bytes, little-endian
//! integers, raw identity bytes, no versioning tag.

use vstd::bytes::{
    lemma_auto_spec_u32_to_from_le_bytes, spec_u32_from_le_bytes, spec_u32_to_le_bytes,
    u32_from_le_bytes, u32_to_le_bytes,
};
use vstd::prelude::*;

use crate::codec::{append_bytes, copy_range};
use crate::errors::ProgramError;
use crate::identity::{Identity, IDENTITY_LEN};

verus! {

/// The exact byte length of an encoded persisted record.
pub const RECORD_LEN: usize = 68;

/// The mathematical content of a persisted record.
#[verifier::ext_equal]
pub struct StateModel {
    pub state: u32,
    pub user1: Seq<u8>,
    pub user2: Seq<u8>,
}

impl StateModel {
    /// Both identities hold exactly `IDENTITY_LEN` bytes.
    pub open spec fn wf(&self) -> bool {
        self.user1.len() == IDENTITY_LEN && self.user2.len() == IDENTITY_LEN
    }
}

/// The byte sequence that encodes a record: the counter in little-endian
/// order, then the two identities verbatim.
pub open spec fn state_to_bytes(m: StateModel) -> Seq<u8> {
    spec_u32_to_le_bytes(m.state) + m.user1 + m.user2
}

/// The record encoded in a storage unit's bytes, or `SerializationFailure`
/// when the unit's length is not exactly `RECORD_LEN`.
pub open spec fn state_from_bytes(s: Seq<u8>) -> Result<StateModel, ProgramError> {
    if s.len() == RECORD_LEN {
        Ok(
            StateModel {
                state: spec_u32_from_le_bytes(s.subrange(0, 4)),
                user1: s.subrange(4, 36),
                user2: s.subrange(36, 68),
            },
        )
    } else {
        Err(ProgramError::SerializationFailure)
    }
}

/// Decoding is a left inverse of encoding: every well-formed record is
/// reproduced exactly from its own encoding.
pub proof fn lemma_state_round_trip(m: StateModel)
    requires
        m.wf(),
    ensures
        state_from_bytes(state_to_bytes(m)) == Ok::<StateModel, ProgramError>(m),
{
    lemma_auto_spec_u32_to_from_le_bytes();
    let s = state_to_bytes(m);
    assert(s.subrange(0, 4) =~= spec_u32_to_le_bytes(m.state));
    assert(s.subrange(4, 36) =~= m.user1);
    assert(s.subrange(36, 68) =~= m.user2);
    assert(state_from_bytes(s)->Ok_0 =~= m);
}

/// The persisted record: one mutable counter and the two party identities
/// set at creation time.
#[derive(Debug)]
pub struct ProgramState {
    pub state: u32,
    pub user1: Identity,
    pub user2: Identity,
}

impl View for ProgramState {
    type V = StateModel;

    open spec fn view(&self) -> StateModel {
        StateModel { state: self.state, user1: self.user1@, user2: self.user2@ }
    }
}

impl ProgramState {
    /// Both identity fields are well formed.
    pub open spec fn wf(&self) -> bool {
        self@.wf()
    }

    /// The number of bytes a storage unit must provide to hold a record,
    /// measured on an actual encoding.
    pub fn space() -> (r: Result<u64, ProgramError>)
        ensures
            r == Ok::<u64, ProgramError>(RECORD_LEN as u64),
    {
        let probe = ProgramState {
            state: u32::MAX,
            user1: Identity { bytes: vec![0u8; IDENTITY_LEN] },
            user2: Identity { bytes: vec![0u8; IDENTITY_LEN] },
        };
        proof {
            lemma_auto_spec_u32_to_from_le_bytes();
        }
        let encoded = probe.to_bytes();
        Ok(encoded.len() as u64)
    }

    /// Encodes the record into its fixed 68-byte layout.
    pub fn to_bytes(&self) -> (r: Vec<u8>)
        ensures
            r@ == state_to_bytes(self@),
    {
        let mut out = u32_to_le_bytes(self.state);
        append_bytes(&mut out, &self.user1.bytes);
        append_bytes(&mut out, &self.user2.bytes);
        out
    }

    /// Decodes a record from a storage unit's bytes; fails with
    /// `SerializationFailure` when the length is not exactly `RECORD_LEN`.
    pub fn from_bytes(bytes: &Vec<u8>) -> (r: Result<ProgramState, ProgramError>)
        ensures
            match r {
                Ok(rec) => rec.wf() && state_from_bytes(bytes@) == Ok::<StateModel, ProgramError>(
                    rec@,
                ),
                Err(e) => state_from_bytes(bytes@) == Err::<StateModel, ProgramError>(e),
            },
    {
        if bytes.len() != RECORD_LEN {
            return Err(ProgramError::SerializationFailure);
        }
        let counter_bytes = vstd::slice::slice_subrange(bytes.as_slice(), 0, 4);
        let state = u32_from_le_bytes(counter_bytes);
        let user1 = Identity { bytes: copy_range(bytes, 4, 36) };
        let user2 = Identity { bytes: copy_range(bytes, 36, 68) };
        let rec = ProgramState { state, user1, user2 };
        proof {
            assert(state_from_bytes(bytes@)->Ok_0 =~= rec@);
        }
        Ok(rec)
    }
}

} // verus!
