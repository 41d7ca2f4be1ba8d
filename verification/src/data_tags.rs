//! The type-tag registry: one stable integer per registered variant, all
//! allocated from a single base offset.  A tag, once assigned, is never
//! reused for a different variant; new variants only ever append — that is
//! the forward-compatibility contract of the wire format.

use vstd::prelude::*;

verus! {

/// Base offset of the data-variant tags.
pub const MAIDSAFE_DATA_TAG: u64 = crate::MAIDSAFE_TAG + 100;

/// Tag of a raw content block.
pub const IMMUTABLE_DATA_TAG: u64 = MAIDSAFE_DATA_TAG + 1;

/// Tag of a content block's backup copy.
pub const IMMUTABLE_DATA_BACKUP_TAG: u64 = MAIDSAFE_DATA_TAG + 2;

/// Tag of a content block's sacrificial copy.
pub const IMMUTABLE_DATA_SACRIFICIAL_TAG: u64 = MAIDSAFE_DATA_TAG + 3;

/// Tag of a structured, mutable record.
pub const STRUCTURED_DATA_TAG: u64 = MAIDSAFE_DATA_TAG + 4;

/// Tag of the revocation key for a public communication identity.
pub const AN_MPID_TAG: u64 = MAIDSAFE_DATA_TAG + 5;

/// Tag of the revocation key for a storage identity.
pub const AN_MAID_TAG: u64 = MAIDSAFE_DATA_TAG + 6;

/// Tag of a storage identity's key pairs.
pub const MAID_TAG: u64 = MAIDSAFE_DATA_TAG + 7;

/// Tag of a communication identity's key pairs.
pub const MPID_TAG: u64 = MAIDSAFE_DATA_TAG + 8;

/// Tag of a storage identity's public, self-certifying record.
pub const PUBLIC_MAID_TAG: u64 = MAIDSAFE_DATA_TAG + 9;

/// Tag of a communication identity's public, self-certifying record.
pub const PUBLIC_MPID_TAG: u64 = MAIDSAFE_DATA_TAG + 10;

/// The set of tags the decoder knows; anything else comes back as an
/// explicit unknown value, never as an error.
pub open spec fn spec_registered_tags() -> Set<u64> {
    set![
        IMMUTABLE_DATA_TAG,
        IMMUTABLE_DATA_BACKUP_TAG,
        IMMUTABLE_DATA_SACRIFICIAL_TAG,
        STRUCTURED_DATA_TAG,
        AN_MPID_TAG,
        AN_MAID_TAG,
        MAID_TAG,
        MPID_TAG,
        PUBLIC_MAID_TAG,
        PUBLIC_MPID_TAG,
    ]
}

} // verus!
