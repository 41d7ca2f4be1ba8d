//! The revocation key of an identity family: a signing pair together with
//! the family's three registered tags.  On the wire the tags travel as
//! decimal text fields, the legacy wire form this protocol keeps for compatibility.

use vstd::prelude::*;
use vstd::bytes::spec_u64_to_le_bytes;
use vstd::bytes::u64_to_le_bytes;
use crate::IdTypeTags;
use crate::codec::append_field;
use crate::codec::spec_field;
use crate::codec::spec_u64_to_ascii;
use crate::codec::u64_to_ascii;
use crate::crypto::SignPublicKey;
use crate::crypto::SignSecretKey;
use crate::crypto::attach;
use crate::crypto::gen_sign_keypair;
use crate::crypto::keypair_matches;
use crate::crypto::sig_of;
use crate::crypto::sign_detached;
use crate::helper::slice_equal;

verus! {

/// The mathematical model of a revocation key.
pub struct RevocationIdTypeV {
    /// The family's tags: revocation key, key pairs, public record.
    pub type_tags: (u64, u64, u64),
    /// The public signing key.
    pub public_key: Seq<u8>,
    /// The secret signing key.
    pub secret_key: Seq<u8>,
}

/// A revocation key: the root signing pair of an identity family.
#[derive(Clone, Copy, Debug)]
pub struct RevocationIdType {
    type_tags: (u64, u64, u64),
    public_key: SignPublicKey,
    secret_key: SignSecretKey,
}

impl View for RevocationIdType {
    type V = RevocationIdTypeV;

    closed spec fn view(&self) -> RevocationIdTypeV {
        RevocationIdTypeV {
            type_tags: self.type_tags,
            public_key: self.public_key@,
            secret_key: self.secret_key@,
        }
    }
}

/// Well-formedness of the model: both keys have their primitive's length.
pub open spec fn spec_revocation_wf(v: RevocationIdTypeV) -> bool {
    &&& v.public_key.len() == crate::crypto::SIGN_PUBLIC_KEY_LEN
    &&& v.secret_key.len() == crate::crypto::SIGN_SECRET_KEY_LEN
}

/// The wire form of a revocation key: the revocation tag, then the three
/// family tags as decimal text fields, then the two keys.
pub open spec fn spec_encode_revocation(v: RevocationIdTypeV) -> Seq<u8> {
    spec_u64_to_le_bytes(v.type_tags.0) + spec_field(spec_u64_to_ascii(v.type_tags.0))
        + spec_field(spec_u64_to_ascii(v.type_tags.1)) + spec_field(spec_u64_to_ascii(v.type_tags.2))
        + spec_field(v.public_key) + spec_field(v.secret_key)
}

impl RevocationIdType {
    /// Assembles a revocation key from already-validated parts.
    pub(crate) fn from_parts(
        type_tags: (u64, u64, u64),
        public_key: SignPublicKey,
        secret_key: SignSecretKey,
    ) -> (r: RevocationIdType)
        ensures
            r@.type_tags == type_tags,
            r@.public_key == public_key@,
            r@.secret_key == secret_key@,
    {
        RevocationIdType { type_tags, public_key, secret_key }
    }

    /// Creates a revocation key for the family `TypeTags` with a fresh
    /// signing pair.
    pub fn new<TypeTags: IdTypeTags>() -> (r: RevocationIdType)
        ensures
            r@.type_tags == (
                TypeTags::spec_revocation_id_type_tag(),
                TypeTags::spec_id_type_tag(),
                TypeTags::spec_public_id_type_tag(),
            ),
            keypair_matches(r@.public_key, r@.secret_key),
    {
        let (public_key, secret_key) = gen_sign_keypair();
        RevocationIdType {
            type_tags: (
                TypeTags::revocation_id_type_tag(),
                TypeTags::id_type_tag(),
                TypeTags::public_id_type_tag(),
            ),
            public_key,
            secret_key,
        }
    }

    /// Returns the family's tags.
    pub fn type_tags(&self) -> (r: &(u64, u64, u64))
        ensures
            *r == self@.type_tags,
    {
        &self.type_tags
    }

    /// Returns the secret signing key.
    pub fn secret_key(&self) -> (r: &SignSecretKey)
        ensures
            r@ == self@.secret_key,
    {
        &self.secret_key
    }

    /// Returns the public signing key.
    pub fn public_key(&self) -> (r: &SignPublicKey)
        ensures
            r@ == self@.public_key,
    {
        &self.public_key
    }

    /// Signs `data` with the secret key: the detached signature, then the
    /// data itself.
    pub fn sign(&self, data: &[u8]) -> (r: Vec<u8>)
        ensures
            r@ == sig_of(data@, self@.secret_key) + data@,
            sig_of(data@, self@.secret_key).len() == crate::crypto::SIGNATURE_LEN,
    {
        let sig = sign_detached(data, &self.secret_key);
        attach(&sig, data)
    }

    /// Encodes the revocation key for the wire: the revocation tag, the
    /// three family tags as decimal text, and the two keys.
    pub fn serialised_contents(&self) -> (r: Vec<u8>)
        ensures
            r@ == spec_encode_revocation(self@),
    {
        let mut out = u64_to_le_bytes(self.type_tags.0);
        let t0 = u64_to_ascii(self.type_tags.0);
        let t1 = u64_to_ascii(self.type_tags.1);
        let t2 = u64_to_ascii(self.type_tags.2);
        append_field(&mut out, t0.as_slice());
        append_field(&mut out, t1.as_slice());
        append_field(&mut out, t2.as_slice());
        append_field(&mut out, self.public_key.0.as_slice());
        append_field(&mut out, self.secret_key.0.as_slice());
        out
    }
}

impl crate::Random for RevocationIdType {
    /// A fresh revocation key for the storage-identity family.
    fn generate_random() -> RevocationIdType {
        RevocationIdType::new::<crate::MaidTypeTags>()
    }
}

impl PartialEq for RevocationIdType {
    fn eq(&self, other: &RevocationIdType) -> (r: bool) {
        // The secret key is mathematically bound to the public key, so the
        // tags and the public key decide equality.
        let tags_equal = self.type_tags.0 == other.type_tags.0 && self.type_tags.1
            == other.type_tags.1 && self.type_tags.2 == other.type_tags.2;
        let r = tags_equal && slice_equal(self.public_key.0.as_slice(), other.public_key.0.as_slice());
        proof {
            if r {
                assert(self@.public_key =~= other@.public_key);
            }
        }
        r
    }
}

impl vstd::std_specs::cmp::PartialEqSpecImpl for RevocationIdType {
    open spec fn obeys_eq_spec() -> bool {
        true
    }

    open spec fn eq_spec(&self, other: &RevocationIdType) -> bool {
        self@.type_tags == other@.type_tags && self@.public_key == other@.public_key
    }
}

} // verus!
