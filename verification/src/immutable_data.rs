//! Content-addressed data blocks: the primary block and its backup and
//! sacrificial copies.  All three carry the same payload; they differ in
//! their registry tag and in how their identifier is derived (one, two or
//! three rounds of the digest).

use vstd::prelude::*;
use vstd::bytes::spec_u64_to_le_bytes;
use vstd::bytes::u64_to_le_bytes;
use crate::TypeTag;
use crate::codec::append_field;
use crate::codec::spec_field;
use crate::crypto::digest_of;
use crate::crypto::sha512_digest;
use crate::data_tags::IMMUTABLE_DATA_BACKUP_TAG;
use crate::data_tags::IMMUTABLE_DATA_SACRIFICIAL_TAG;
use crate::data_tags::IMMUTABLE_DATA_TAG;
use crate::helper::slice_equal;
use crate::name_type::NameType;

verus! {

/// Tag carrier for `ImmutableData`.
#[derive(Clone, Debug)]
pub struct ImmutableDataTypeTag;

/// Tag carrier for `ImmutableDataBackup`.
#[derive(Clone, Debug)]
pub struct ImmutableDataBackupTypeTag;

/// Tag carrier for `ImmutableDataSacrificial`.
#[derive(Clone, Debug)]
pub struct ImmutableDataSacrificialTypeTag;

impl TypeTag for ImmutableDataTypeTag {
    open spec fn spec_type_tag(&self) -> u64 {
        IMMUTABLE_DATA_TAG
    }

    fn type_tag(&self) -> u64 {
        IMMUTABLE_DATA_TAG
    }
}

impl TypeTag for ImmutableDataBackupTypeTag {
    open spec fn spec_type_tag(&self) -> u64 {
        IMMUTABLE_DATA_BACKUP_TAG
    }

    fn type_tag(&self) -> u64 {
        IMMUTABLE_DATA_BACKUP_TAG
    }
}

impl TypeTag for ImmutableDataSacrificialTypeTag {
    open spec fn spec_type_tag(&self) -> u64 {
        IMMUTABLE_DATA_SACRIFICIAL_TAG
    }

    fn type_tag(&self) -> u64 {
        IMMUTABLE_DATA_SACRIFICIAL_TAG
    }
}

/// The wire form of a content block under the given tag: the tag in eight
/// little-endian bytes, then the payload as one length-prefixed field.
pub open spec fn spec_encode_tagged_value(tag: u64, value: Seq<u8>) -> Seq<u8> {
    spec_u64_to_le_bytes(tag) + spec_field(value)
}

/// A raw content block, addressed by the digest of its payload.
#[derive(Clone, Debug)]
pub struct ImmutableData {
    type_tag: ImmutableDataTypeTag,
    value: Vec<u8>,
}

impl View for ImmutableData {
    type V = Seq<u8>;

    closed spec fn view(&self) -> Seq<u8> {
        self.value@
    }
}

impl ImmutableData {
    /// Wraps a payload as a content block.
    pub fn new(value: Vec<u8>) -> (r: ImmutableData)
        ensures
            r@ == value@,
    {
        ImmutableData { type_tag: ImmutableDataTypeTag, value }
    }

    /// Returns the payload.
    pub fn value(&self) -> (r: &Vec<u8>)
        ensures
            r@ == self@,
    {
        &self.value
    }

    /// The block's identifier: the digest of its payload.
    pub fn name(&self) -> (r: NameType)
        ensures
            r@ == digest_of(self@),
    {
        NameType(sha512_digest(self.value.as_slice()))
    }

    /// The block's registered tag.
    pub fn type_tag(&self) -> (r: u64)
        ensures
            r == IMMUTABLE_DATA_TAG,
    {
        IMMUTABLE_DATA_TAG
    }

    /// Encodes the block for the wire: its tag, then its payload.
    pub fn serialised_contents(&self) -> (r: Vec<u8>)
        ensures
            r@ == spec_encode_tagged_value(IMMUTABLE_DATA_TAG, self@),
    {
        let mut out = u64_to_le_bytes(IMMUTABLE_DATA_TAG);
        append_field(&mut out, self.value.as_slice());
        out
    }
}

impl PartialEq for ImmutableData {
    fn eq(&self, other: &ImmutableData) -> (r: bool) {
        let r = slice_equal(self.value.as_slice(), other.value.as_slice());
        proof {
            if r {
                assert(self@ =~= other@);
            }
        }
        r
    }
}

impl vstd::std_specs::cmp::PartialEqSpecImpl for ImmutableData {
    open spec fn obeys_eq_spec() -> bool {
        true
    }

    open spec fn eq_spec(&self, other: &ImmutableData) -> bool {
        self@ == other@
    }
}

impl crate::Random for ImmutableData {
    /// A content block with 64 random payload bytes.
    fn generate_random() -> ImmutableData {
        ImmutableData::new(crate::crypto::random_bytes(64))
    }
}

/// The backup copy of a content block, addressed by the double digest of its
/// payload.
#[derive(Clone, Debug)]
pub struct ImmutableDataBackup {
    type_tag: ImmutableDataBackupTypeTag,
    value: Vec<u8>,
}

impl View for ImmutableDataBackup {
    type V = Seq<u8>;

    closed spec fn view(&self) -> Seq<u8> {
        self.value@
    }
}

impl ImmutableDataBackup {
    /// Makes the backup copy of a content block.
    pub fn new(immutable_data: ImmutableData) -> (r: ImmutableDataBackup)
        ensures
            r@ == immutable_data@,
    {
        ImmutableDataBackup { type_tag: ImmutableDataBackupTypeTag, value: immutable_data.value }
    }

    /// Returns the payload.
    pub fn value(&self) -> (r: &Vec<u8>)
        ensures
            r@ == self@,
    {
        &self.value
    }

    /// The copy's identifier: the digest applied twice to its payload.
    pub fn name(&self) -> (r: NameType)
        ensures
            r@ == digest_of(digest_of(self@)),
    {
        let first = sha512_digest(self.value.as_slice());
        NameType(sha512_digest(first.as_slice()))
    }

    /// The copy's registered tag.
    pub fn type_tag(&self) -> (r: u64)
        ensures
            r == IMMUTABLE_DATA_BACKUP_TAG,
    {
        IMMUTABLE_DATA_BACKUP_TAG
    }

    /// Encodes the copy for the wire: its tag, then its payload.
    pub fn serialised_contents(&self) -> (r: Vec<u8>)
        ensures
            r@ == spec_encode_tagged_value(IMMUTABLE_DATA_BACKUP_TAG, self@),
    {
        let mut out = u64_to_le_bytes(IMMUTABLE_DATA_BACKUP_TAG);
        append_field(&mut out, self.value.as_slice());
        out
    }
}

impl PartialEq for ImmutableDataBackup {
    fn eq(&self, other: &ImmutableDataBackup) -> (r: bool) {
        let r = slice_equal(self.value.as_slice(), other.value.as_slice());
        proof {
            if r {
                assert(self@ =~= other@);
            }
        }
        r
    }
}

impl vstd::std_specs::cmp::PartialEqSpecImpl for ImmutableDataBackup {
    open spec fn obeys_eq_spec() -> bool {
        true
    }

    open spec fn eq_spec(&self, other: &ImmutableDataBackup) -> bool {
        self@ == other@
    }
}

/// The sacrificial copy of a content block, addressed by the triple digest
/// of its payload.
#[derive(Clone, Debug)]
pub struct ImmutableDataSacrificial {
    type_tag: ImmutableDataSacrificialTypeTag,
    value: Vec<u8>,
}

impl View for ImmutableDataSacrificial {
    type V = Seq<u8>;

    closed spec fn view(&self) -> Seq<u8> {
        self.value@
    }
}

impl ImmutableDataSacrificial {
    /// Makes the sacrificial copy of a content block.
    pub fn new(immutable_data: ImmutableData) -> (r: ImmutableDataSacrificial)
        ensures
            r@ == immutable_data@,
    {
        ImmutableDataSacrificial {
            type_tag: ImmutableDataSacrificialTypeTag,
            value: immutable_data.value,
        }
    }

    /// Returns the payload.
    pub fn value(&self) -> (r: &Vec<u8>)
        ensures
            r@ == self@,
    {
        &self.value
    }

    /// The copy's identifier: the digest applied three times to its payload.
    pub fn name(&self) -> (r: NameType)
        ensures
            r@ == digest_of(digest_of(digest_of(self@))),
    {
        let first = sha512_digest(self.value.as_slice());
        let second = sha512_digest(first.as_slice());
        NameType(sha512_digest(second.as_slice()))
    }

    /// The copy's registered tag.
    pub fn type_tag(&self) -> (r: u64)
        ensures
            r == IMMUTABLE_DATA_SACRIFICIAL_TAG,
    {
        IMMUTABLE_DATA_SACRIFICIAL_TAG
    }

    /// Encodes the copy for the wire: its tag, then its payload.
    pub fn serialised_contents(&self) -> (r: Vec<u8>)
        ensures
            r@ == spec_encode_tagged_value(IMMUTABLE_DATA_SACRIFICIAL_TAG, self@),
    {
        let mut out = u64_to_le_bytes(IMMUTABLE_DATA_SACRIFICIAL_TAG);
        append_field(&mut out, self.value.as_slice());
        out
    }
}

impl PartialEq for ImmutableDataSacrificial {
    fn eq(&self, other: &ImmutableDataSacrificial) -> (r: bool) {
        let r = slice_equal(self.value.as_slice(), other.value.as_slice());
        proof {
            if r {
                assert(self@ =~= other@);
            }
        }
        r
    }
}

impl vstd::std_specs::cmp::PartialEqSpecImpl for ImmutableDataSacrificial {
    open spec fn obeys_eq_spec() -> bool {
        true
    }

    open spec fn eq_spec(&self, other: &ImmutableDataSacrificial) -> bool {
        self@ == other@
    }
}

} // verus!
