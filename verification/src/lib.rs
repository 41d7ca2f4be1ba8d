//! Wire-level data types for a content-addressed overlay network: 64-byte
//! identifiers with an XOR-distance ordering, a registry of stable numeric
//! type tags, a self-describing tagged binary encoding with a dispatching
//! decoder, and fixed-size buffer conversions with signature handling.

use vstd::prelude::*;

pub mod codec;
pub mod crypto;
pub mod data_tags;
pub mod helper;
pub mod id_type;
pub mod immutable_data;
pub mod name_type;
pub mod parser;
pub mod public_id_type;
pub mod revocation_id_type;
pub mod safecoin;
pub mod structured_data;

pub use id_type::IdType;
pub use immutable_data::ImmutableData;
pub use revocation_id_type::RevocationIdType;
pub use immutable_data::ImmutableDataBackup;
pub use immutable_data::ImmutableDataSacrificial;
pub use codec::DecodeError;
pub use name_type::NameType;
pub use parser::Parser;
pub use public_id_type::PublicIdType;
pub use structured_data::StructuredData;

verus! {

/// Base offset from which every tag in the registry is allocated.
pub const MAIDSAFE_TAG: u64 = 5483_000;

/// Gives a data type its registered wire tag.
pub trait TypeTag {
    /// The registered tag, for specifications.
    spec fn spec_type_tag(&self) -> u64;

    /// Returns the registered tag.
    fn type_tag(&self) -> (r: u64)
        ensures
            r == self.spec_type_tag(),
    ;
}

/// The three tags an identity family carries: one for its revocation key,
/// one for its key pairs, one for its public record.
pub trait IdTypeTags {
    /// The revocation-key tag, for specifications.
    spec fn spec_revocation_id_type_tag() -> u64;

    /// The key-pair tag, for specifications.
    spec fn spec_id_type_tag() -> u64;

    /// The public-record tag, for specifications.
    spec fn spec_public_id_type_tag() -> u64;

    /// Returns the tag of the family's revocation key type.
    fn revocation_id_type_tag() -> (r: u64)
        ensures
            r == Self::spec_revocation_id_type_tag(),
    ;

    /// Returns the tag of the family's key-pair type.
    fn id_type_tag() -> (r: u64)
        ensures
            r == Self::spec_id_type_tag(),
    ;

    /// Returns the tag of the family's public-record type.
    fn public_id_type_tag() -> (r: u64)
        ensures
            r == Self::spec_public_id_type_tag(),
    ;
}

/// Tags of the storage-identity family.
pub struct MaidTypeTags;

/// Tags of the communication-identity family.
pub struct MpidTypeTags;

impl IdTypeTags for MaidTypeTags {
    open spec fn spec_revocation_id_type_tag() -> u64 {
        data_tags::AN_MAID_TAG
    }

    open spec fn spec_id_type_tag() -> u64 {
        data_tags::MAID_TAG
    }

    open spec fn spec_public_id_type_tag() -> u64 {
        data_tags::PUBLIC_MAID_TAG
    }

    fn revocation_id_type_tag() -> u64 {
        data_tags::AN_MAID_TAG
    }

    fn id_type_tag() -> u64 {
        data_tags::MAID_TAG
    }

    fn public_id_type_tag() -> u64 {
        data_tags::PUBLIC_MAID_TAG
    }
}

impl IdTypeTags for MpidTypeTags {
    open spec fn spec_revocation_id_type_tag() -> u64 {
        data_tags::AN_MPID_TAG
    }

    open spec fn spec_id_type_tag() -> u64 {
        data_tags::MPID_TAG
    }

    open spec fn spec_public_id_type_tag() -> u64 {
        data_tags::PUBLIC_MPID_TAG
    }

    fn revocation_id_type_tag() -> u64 {
        data_tags::AN_MPID_TAG
    }

    fn id_type_tag() -> u64 {
        data_tags::MPID_TAG
    }

    fn public_id_type_tag() -> u64 {
        data_tags::PUBLIC_MPID_TAG
    }
}

/// Produces a random instance of a type; used by callers and tests to
/// exercise the codec on fresh values.
pub trait Random: Sized {
    /// Generates a random instance.
    fn generate_random() -> Self;
}

/// Errors of the cryptographic collaborator surfaced to callers.
#[derive(Debug)]
pub enum CryptoError {
    /// The primitive failed without saying more.
    Unknown,
}

} // verus!
