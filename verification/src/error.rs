use vstd::prelude::*;
use crate::record::OwnerId;

verus! {

/// The typed failures of the library.
///
/// Ownership: `AccountNotInitialized`, `AccountOwnedByWrongProgram` (which
/// carries the conflicting identities). Codec: `AccountDidNotDeserialize`,
/// `AccountDidNotSerialize` (malformed bytes, unrepresentable values, or a
/// serialization that overruns the record's capacity). Integrity:
/// `CompressedStateInvalidVersion`, `CompressedStateDidNotDeserialize`,
/// `CompressedStateMismatch`.
#[derive(Clone, Copy, Debug, PartialEq, Eq, Structural)]
pub enum ErrorCode {
    AccountNotInitialized,
    AccountOwnedByWrongProgram { actual: OwnerId, expected: OwnerId },
    AccountDidNotDeserialize,
    AccountDidNotSerialize,
    CompressedStateInvalidVersion,
    CompressedStateDidNotDeserialize,
    CompressedStateMismatch,
}

} // verus!
