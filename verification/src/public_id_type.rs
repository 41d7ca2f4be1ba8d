//! The public, self-certifying record of an identity: its public keys, the
//! family's revocation public key, and a signature that the revocation key
//! makes over those very keys.  A decoder can check the record against
//! nothing but itself.

use vstd::prelude::*;
use vstd::bytes::spec_u64_to_le_bytes;
use vstd::bytes::u64_to_le_bytes;
use crate::codec::append_bytes;
use crate::codec::append_field;
use crate::codec::from_fixed;
use crate::codec::spec_field;
use crate::codec::spec_u64_to_ascii;
use crate::codec::u64_to_ascii;
use crate::crypto::BoxPublicKey;
use crate::crypto::SIGNATURE_LEN;
use crate::crypto::Signature;
use crate::crypto::SignPublicKey;
use crate::crypto::detach;
use crate::crypto::sig_of;
use crate::helper::slice_equal;
use crate::id_type::IdType;
use crate::revocation_id_type::RevocationIdType;

verus! {

/// The mathematical model of a public identity record.
pub struct PublicIdTypeV {
    /// The family's public-record tag.
    pub type_tag: u64,
    /// The identity's public signing and encryption keys.
    pub public_keys: (Seq<u8>, Seq<u8>),
    /// The family's revocation public key.
    pub revocation_public_key: Seq<u8>,
    /// The revocation key's signature over the record's own keys and tag.
    pub signature: Seq<u8>,
}

/// The bytes a public record's self-signature attests to: the two public
/// keys, the revocation public key, and the record's tag in decimal text.
pub open spec fn spec_signed_payload(
    pub_sign: Seq<u8>,
    pub_box: Seq<u8>,
    revocation: Seq<u8>,
    tag: u64,
) -> Seq<u8> {
    pub_sign + pub_box + revocation + spec_u64_to_ascii(tag)
}

/// Well-formedness of the model: every key and the signature have their
/// primitive's length.
pub open spec fn spec_public_id_wf(v: PublicIdTypeV) -> bool {
    &&& v.public_keys.0.len() == crate::crypto::SIGN_PUBLIC_KEY_LEN
    &&& v.public_keys.1.len() == crate::crypto::BOX_PUBLIC_KEY_LEN
    &&& v.revocation_public_key.len() == crate::crypto::SIGN_PUBLIC_KEY_LEN
    &&& v.signature.len() == crate::crypto::SIGNATURE_LEN
}

/// The wire form of a public record: the public-record tag, then the tag in
/// decimal text, the two public keys, the revocation public key and the
/// self-signature, each as a length-prefixed field.
pub open spec fn spec_encode_public_id(v: PublicIdTypeV) -> Seq<u8> {
    spec_u64_to_le_bytes(v.type_tag) + spec_field(spec_u64_to_ascii(v.type_tag)) + spec_field(
        v.public_keys.0,
    ) + spec_field(v.public_keys.1) + spec_field(v.revocation_public_key) + spec_field(v.signature)
}

/// A public identity record whose embedded signature attests to its own
/// embedded keys.
#[derive(Clone, Copy, Debug)]
pub struct PublicIdType {
    type_tag: u64,
    public_keys: (SignPublicKey, BoxPublicKey),
    revocation_public_key: SignPublicKey,
    signature: Signature,
}

impl View for PublicIdType {
    type V = PublicIdTypeV;

    closed spec fn view(&self) -> PublicIdTypeV {
        PublicIdTypeV {
            type_tag: self.type_tag,
            public_keys: (self.public_keys.0@, self.public_keys.1@),
            revocation_public_key: self.revocation_public_key@,
            signature: self.signature@,
        }
    }
}

impl PublicIdType {
    /// Assembles a public record from already-validated parts.
    pub(crate) fn from_parts(
        type_tag: u64,
        public_keys: (SignPublicKey, BoxPublicKey),
        revocation_public_key: SignPublicKey,
        signature: Signature,
    ) -> (r: PublicIdType)
        ensures
            r@.type_tag == type_tag,
            r@.public_keys == (public_keys.0@, public_keys.1@),
            r@.revocation_public_key == revocation_public_key@,
            r@.signature == signature@,
    {
        PublicIdType { type_tag, public_keys, revocation_public_key, signature }
    }

    /// Assembles the public record of `id_type` in two phases: the unsigned
    /// core is laid out as the signature's payload, the revocation key signs
    /// it, and the detached signature is embedded in the final record.
    pub fn new(id_type: &IdType, revocation_id: &RevocationIdType) -> (r: PublicIdType)
        ensures
            r@.type_tag == revocation_id@.type_tags.2,
            r@.public_keys == id_type@.public_keys,
            r@.revocation_public_key == revocation_id@.public_key,
            r@.signature == sig_of(
                spec_signed_payload(
                    id_type@.public_keys.0,
                    id_type@.public_keys.1,
                    revocation_id@.public_key,
                    revocation_id@.type_tags.2,
                ),
                revocation_id@.secret_key,
            ),
    {
        let type_tag = revocation_id.type_tags().2;
        let public_keys = *id_type.public_keys();
        let revocation_public_key = *revocation_id.public_key();
        let mut combined = from_fixed(&public_keys.0.0);
        append_bytes(&mut combined, public_keys.1.0.as_slice());
        append_bytes(&mut combined, revocation_public_key.0.as_slice());
        let tag_text = u64_to_ascii(type_tag);
        append_bytes(&mut combined, tag_text.as_slice());
        let signed = revocation_id.sign(combined.as_slice());
        let signature = match detach(signed.as_slice()) {
            Ok(sig) => sig,
            Err(_) => {
                proof {
                    assert(signed@.len() >= SIGNATURE_LEN);
                }
                // A signed blob always starts with a full signature.
                Signature([0u8; 64])
            },
        };
        proof {
            assert(signed@.subrange(0, SIGNATURE_LEN as int) =~= sig_of(
                combined@,
                revocation_id@.secret_key,
            ));
        }
        PublicIdType { type_tag, public_keys, revocation_public_key, signature }
    }

    /// Returns the identity's public keys.
    pub fn public_keys(&self) -> (r: &(SignPublicKey, BoxPublicKey))
        ensures
            r.0@ == self@.public_keys.0,
            r.1@ == self@.public_keys.1,
    {
        &self.public_keys
    }

    /// Returns the family's revocation public key.
    pub fn revocation_public_key(&self) -> (r: &SignPublicKey)
        ensures
            r@ == self@.revocation_public_key,
    {
        &self.revocation_public_key
    }

    /// Returns the record's self-signature.
    pub fn signature(&self) -> (r: &Signature)
        ensures
            r@ == self@.signature,
    {
        &self.signature
    }

    /// The record's registered tag.
    pub fn type_tag(&self) -> (r: u64)
        ensures
            r == self@.type_tag,
    {
        self.type_tag
    }

    /// Encodes the record for the wire: its tag, then the tag in decimal
    /// text, the keys and the self-signature, each as a length-prefixed
    /// field.
    pub fn serialised_contents(&self) -> (r: Vec<u8>)
        ensures
            r@ == spec_encode_public_id(self@),
    {
        let mut out = u64_to_le_bytes(self.type_tag);
        let tag_text = u64_to_ascii(self.type_tag);
        append_field(&mut out, tag_text.as_slice());
        append_field(&mut out, self.public_keys.0.0.as_slice());
        append_field(&mut out, self.public_keys.1.0.as_slice());
        append_field(&mut out, self.revocation_public_key.0.as_slice());
        append_field(&mut out, self.signature.0.as_slice());
        out
    }
}

impl crate::Random for PublicIdType {
    /// The public record of a fresh storage identity.
    fn generate_random() -> PublicIdType {
        let revocation_id = RevocationIdType::new::<crate::MaidTypeTags>();
        let id_type = IdType::new(&revocation_id);
        PublicIdType::new(&id_type, &revocation_id)
    }
}

impl PartialEq for PublicIdType {
    fn eq(&self, other: &PublicIdType) -> (r: bool) {
        let r = self.type_tag == other.type_tag && slice_equal(
            self.public_keys.0.0.as_slice(),
            other.public_keys.0.0.as_slice(),
        ) && slice_equal(self.public_keys.1.0.as_slice(), other.public_keys.1.0.as_slice())
            && slice_equal(
            self.revocation_public_key.0.as_slice(),
            other.revocation_public_key.0.as_slice(),
        ) && slice_equal(self.signature.0.as_slice(), other.signature.0.as_slice());
        proof {
            if r {
                assert(self@.public_keys.0 =~= other@.public_keys.0);
                assert(self@.public_keys.1 =~= other@.public_keys.1);
                assert(self@.revocation_public_key =~= other@.revocation_public_key);
                assert(self@.signature =~= other@.signature);
            }
        }
        r
    }
}

impl vstd::std_specs::cmp::PartialEqSpecImpl for PublicIdType {
    open spec fn obeys_eq_spec() -> bool {
        true
    }

    open spec fn eq_spec(&self, other: &PublicIdType) -> bool {
        self@.type_tag == other@.type_tag && self@.public_keys == other@.public_keys
            && self@.revocation_public_key == other@.revocation_public_key && self@.signature
            == other@.signature
    }
}

} // verus!
