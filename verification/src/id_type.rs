//! The key pairs of an identity: a signing pair and an encryption pair,
//! tagged with the family's key-pair tag.

use vstd::prelude::*;
use vstd::bytes::spec_u64_to_le_bytes;
use vstd::bytes::u64_to_le_bytes;
use crate::CryptoError;
use crate::codec::append_field;
use crate::codec::spec_field;
use crate::crypto::BoxNonce;
use crate::crypto::BoxPublicKey;
use crate::crypto::BoxSecretKey;
use crate::crypto::SignPublicKey;
use crate::crypto::SignSecretKey;
use crate::crypto::attach;
use crate::crypto::box_open;
use crate::crypto::box_seal;
use crate::crypto::gen_box_keypair;
use crate::crypto::gen_box_nonce;
use crate::crypto::gen_sign_keypair;
use crate::crypto::keypair_matches;
use crate::crypto::sig_of;
use crate::crypto::sign_detached;
use crate::helper::slice_equal;
use crate::revocation_id_type::RevocationIdType;

verus! {

/// The mathematical model of an identity's key pairs.
pub struct IdTypeV {
    /// The family's key-pair tag.
    pub type_tag: u64,
    /// The public signing and encryption keys.
    pub public_keys: (Seq<u8>, Seq<u8>),
    /// The secret signing and encryption keys.
    pub secret_keys: (Seq<u8>, Seq<u8>),
}

/// An identity's key pairs: one for signing, one for encryption.
#[derive(Clone, Copy, Debug)]
pub struct IdType {
    type_tag: u64,
    public_keys: (SignPublicKey, BoxPublicKey),
    secret_keys: (SignSecretKey, BoxSecretKey),
}

impl View for IdType {
    type V = IdTypeV;

    closed spec fn view(&self) -> IdTypeV {
        IdTypeV {
            type_tag: self.type_tag,
            public_keys: (self.public_keys.0@, self.public_keys.1@),
            secret_keys: (self.secret_keys.0@, self.secret_keys.1@),
        }
    }
}

/// Well-formedness of the model: every key has its primitive's length.
pub open spec fn spec_id_type_wf(v: IdTypeV) -> bool {
    &&& v.public_keys.0.len() == crate::crypto::SIGN_PUBLIC_KEY_LEN
    &&& v.public_keys.1.len() == crate::crypto::BOX_PUBLIC_KEY_LEN
    &&& v.secret_keys.0.len() == crate::crypto::SIGN_SECRET_KEY_LEN
    &&& v.secret_keys.1.len() == crate::crypto::BOX_SECRET_KEY_LEN
}

/// The wire form of an identity's key pairs: the key-pair tag, then the two
/// public keys and the two secret keys, each as a length-prefixed field.
pub open spec fn spec_encode_id_type(v: IdTypeV) -> Seq<u8> {
    spec_u64_to_le_bytes(v.type_tag) + spec_field(v.public_keys.0) + spec_field(v.public_keys.1)
        + spec_field(v.secret_keys.0) + spec_field(v.secret_keys.1)
}

impl IdType {
    /// Assembles key pairs from already-validated parts.
    pub(crate) fn from_parts(
        type_tag: u64,
        public_keys: (SignPublicKey, BoxPublicKey),
        secret_keys: (SignSecretKey, BoxSecretKey),
    ) -> (r: IdType)
        ensures
            r@.type_tag == type_tag,
            r@.public_keys == (public_keys.0@, public_keys.1@),
            r@.secret_keys == (secret_keys.0@, secret_keys.1@),
    {
        IdType { type_tag, public_keys, secret_keys }
    }

    /// Creates fresh key pairs under the given revocation key's family,
    /// tagged with that family's key-pair tag.
    pub fn new(revocation_id: &RevocationIdType) -> (r: IdType)
        ensures
            r@.type_tag == revocation_id@.type_tags.1,
            keypair_matches(r@.public_keys.0, r@.secret_keys.0),
    {
        let (box_pk, box_sk) = gen_box_keypair();
        let (sign_pk, sign_sk) = gen_sign_keypair();
        IdType {
            type_tag: revocation_id.type_tags().1,
            public_keys: (sign_pk, box_pk),
            secret_keys: (sign_sk, box_sk),
        }
    }

    /// Returns the public keys.
    pub fn public_keys(&self) -> (r: &(SignPublicKey, BoxPublicKey))
        ensures
            r.0@ == self@.public_keys.0,
            r.1@ == self@.public_keys.1,
    {
        &self.public_keys
    }

    /// Signs `data` with the secret signing key: the detached signature,
    /// then the data itself.
    pub fn sign(&self, data: &[u8]) -> (r: Vec<u8>)
        ensures
            r@ == sig_of(data@, self@.secret_keys.0) + data@,
            sig_of(data@, self@.secret_keys.0).len() == crate::crypto::SIGNATURE_LEN,
    {
        let sig = sign_detached(data, &self.secret_keys.0);
        attach(&sig, data)
    }

    /// Encrypts and authenticates `data` for the holder of `to` under a
    /// fresh nonce, returning the ciphertext and that nonce.
    pub fn seal(&self, data: &[u8], to: &BoxPublicKey) -> (Vec<u8>, BoxNonce) {
        let nonce = gen_box_nonce();
        let sealed = box_seal(data, &nonce, to, &self.secret_keys.1);
        (sealed, nonce)
    }

    /// Verifies and decrypts a ciphertext sealed by the holder of `from`;
    /// fails when the ciphertext does not authenticate.
    pub fn open(&self, data: &[u8], nonce: &BoxNonce, from: &BoxPublicKey) -> Result<
        Vec<u8>,
        CryptoError,
    > {
        match box_open(data, nonce, from, &self.secret_keys.1) {
            Some(plain) => Ok(plain),
            None => Err(CryptoError::Unknown),
        }
    }

    /// Encodes the key pairs for the wire: the key-pair tag, then the four
    /// keys, each as a length-prefixed field.
    pub fn serialised_contents(&self) -> (r: Vec<u8>)
        ensures
            r@ == spec_encode_id_type(self@),
    {
        let mut out = u64_to_le_bytes(self.type_tag);
        append_field(&mut out, self.public_keys.0.0.as_slice());
        append_field(&mut out, self.public_keys.1.0.as_slice());
        append_field(&mut out, self.secret_keys.0.0.as_slice());
        append_field(&mut out, self.secret_keys.1.0.as_slice());
        out
    }
}

impl crate::Random for IdType {
    /// Fresh key pairs under a fresh storage-family revocation key.
    fn generate_random() -> IdType {
        IdType::new(&RevocationIdType::new::<crate::MaidTypeTags>())
    }
}

impl PartialEq for IdType {
    fn eq(&self, other: &IdType) -> (r: bool) {
        // The secret keys are mathematically bound to the public keys, so
        // the tag and the public keys decide equality.
        let r = self.type_tag == other.type_tag && slice_equal(
            self.public_keys.0.0.as_slice(),
            other.public_keys.0.0.as_slice(),
        ) && slice_equal(self.public_keys.1.0.as_slice(), other.public_keys.1.0.as_slice());
        proof {
            if r {
                assert(self@.public_keys.0 =~= other@.public_keys.0);
                assert(self@.public_keys.1 =~= other@.public_keys.1);
            }
        }
        r
    }
}

impl vstd::std_specs::cmp::PartialEqSpecImpl for IdType {
    open spec fn obeys_eq_spec() -> bool {
        true
    }

    open spec fn eq_spec(&self, other: &IdType) -> bool {
        self@.type_tag == other@.type_tag && self@.public_keys == other@.public_keys
    }
}

} // verus!
