//! Party identities: fixed-size public key values.

use vstd::prelude::*;

use crate::codec::append_bytes;

verus! {

/// The byte length of every identity value.
pub const IDENTITY_LEN: usize = 32;

/// A fixed-size (32-byte) public identity value, verifiable by the host
/// against a signature supplied with a request.
#[derive(Debug)]
pub struct Identity {
    pub bytes: Vec<u8>,
}

impl View for Identity {
    type V = Seq<u8>;

    open spec fn view(&self) -> Seq<u8> {
        self.bytes@
    }
}

impl Identity {
    /// An identity is well formed when it holds exactly `IDENTITY_LEN` bytes.
    pub open spec fn wf(&self) -> bool {
        self@.len() == IDENTITY_LEN
    }

    /// Byte-for-byte comparison of two identities.
    pub fn equals(&self, other: &Identity) -> (r: bool)
        ensures
            r <==> self@ == other@,
    {
        if self.bytes.len() != other.bytes.len() {
            return false;
        }
        let n = self.bytes.len();
        let mut i: usize = 0;
        while i < n
            invariant
                i <= n,
                n == self@.len(),
                n == other@.len(),
                forall|j: int| 0 <= j < i ==> self@[j] == other@[j],
            decreases n - i,
        {
            if self.bytes[i] != other.bytes[i] {
                return false;
            }
            i = i + 1;
        }
        proof {
            assert(self@ =~= other@);
        }
        true
    }
}

impl Clone for Identity {
    /// A clone holds the same bytes as the original.
    fn clone(&self) -> (r: Identity)
        ensures
            r@ == self@,
    {
        let mut bytes: Vec<u8> = Vec::new();
        append_bytes(&mut bytes, &self.bytes);
        proof {
            assert(bytes@ =~= self.bytes@);
        }
        Identity { bytes }
    }
}

} // verus!
