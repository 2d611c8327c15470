//! The failure taxonomy of the instruction-processing pipeline.

use vstd::prelude::*;

verus! {

/// Every way an invocation can abort.  A failure carries no partial effect:
/// the storage units are left exactly as they were.
#[derive(Clone, Copy, Debug, PartialEq, Eq, Structural)]
pub enum ProgramError {
    /// The request payload has an unrecognized discriminant or its remaining
    /// bytes do not match the expected field layout exactly.
    MalformedInstruction,
    /// Fewer storage-unit handles were supplied than the instruction's role
    /// count requires.
    MissingAccount,
    /// The signer handle does not carry an authenticated-signature flag, or
    /// the authenticated identity is neither of the record's two parties.
    Unauthorized,
    /// The persisted record could not be decoded from or encoded into the
    /// storage unit, e.g. because the unit has the wrong byte length.
    SerializationFailure,
}

} // verus!
