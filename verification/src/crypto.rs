//! Key material, signatures, and the boundary to the cryptographic
//! collaborator.  The hashing and signing primitives themselves are opaque
//! external services with fixed, well-known output lengths; what they return
//! is named by uninterpreted spec functions, and everything the library
//! builds on top of them — attaching, detaching and checking self-signatures
//! — is verified against those names.

use vstd::prelude::*;
use vstd::slice::slice_subrange;
use crate::codec::SizeError;
use crate::codec::append_bytes;
use crate::codec::from_fixed;
use crate::codec::to_fixed;

verus! {

/// Bytes in a signing public key.
pub const SIGN_PUBLIC_KEY_LEN: usize = 32;

/// Bytes in a signing secret key.
pub const SIGN_SECRET_KEY_LEN: usize = 64;

/// Bytes in an encryption public key.
pub const BOX_PUBLIC_KEY_LEN: usize = 32;

/// Bytes in an encryption secret key.
pub const BOX_SECRET_KEY_LEN: usize = 32;

/// Bytes in an encryption nonce.
pub const BOX_NONCE_LEN: usize = 24;

/// Bytes in a detached signature.
pub const SIGNATURE_LEN: usize = 64;

/// A public signing key.
#[derive(Clone, Copy, Debug)]
pub struct SignPublicKey(pub [u8; 32]);

/// A secret signing key.
#[derive(Clone, Copy, Debug)]
pub struct SignSecretKey(pub [u8; 64]);

/// A public encryption key.
#[derive(Clone, Copy, Debug)]
pub struct BoxPublicKey(pub [u8; 32]);

/// A secret encryption key.
#[derive(Clone, Copy, Debug)]
pub struct BoxSecretKey(pub [u8; 32]);

/// A nonce for authenticated encryption.
#[derive(Clone, Copy, Debug)]
pub struct BoxNonce(pub [u8; 24]);

/// A detached signature.
#[derive(Clone, Copy, Debug)]
pub struct Signature(pub [u8; 64]);

impl View for SignPublicKey {
    type V = Seq<u8>;

    open spec fn view(&self) -> Seq<u8> {
        self.0@
    }
}

impl View for SignSecretKey {
    type V = Seq<u8>;

    open spec fn view(&self) -> Seq<u8> {
        self.0@
    }
}

impl View for BoxPublicKey {
    type V = Seq<u8>;

    open spec fn view(&self) -> Seq<u8> {
        self.0@
    }
}

impl View for BoxSecretKey {
    type V = Seq<u8>;

    open spec fn view(&self) -> Seq<u8> {
        self.0@
    }
}

impl View for Signature {
    type V = Seq<u8>;

    open spec fn view(&self) -> Seq<u8> {
        self.0@
    }
}

/// The 64-byte digest the external hash function assigns to `data`.
pub uninterp spec fn digest_of(data: Seq<u8>) -> Seq<u8>;

/// The 64-byte detached signature the external signer produces for `data`
/// under `secret_key`.
pub uninterp spec fn sig_of(data: Seq<u8>, secret_key: Seq<u8>) -> Seq<u8>;

/// Whether the external verifier accepts `signature` as a signature of
/// `data` under `public_key`.
pub uninterp spec fn sig_checks(signature: Seq<u8>, data: Seq<u8>, public_key: Seq<u8>) -> bool;

/// A signing pair belongs together when the public key verifies exactly what
/// the secret key signs.
pub open spec fn keypair_matches(public_key: Seq<u8>, secret_key: Seq<u8>) -> bool {
    forall|m: Seq<u8>| #[trigger] sig_checks(sig_of(m, secret_key), m, public_key)
}

/// Relies on sodiumoxide's `crypto::hash::sha512::hash`: a fixed 64-byte
/// digest that depends on the input bytes alone.
#[verifier::external_body]
pub(crate) fn sha512_digest(data: &[u8]) -> (r: [u8; 64])
    ensures
        r@ == digest_of(data@),
{
    sodiumoxide::crypto::hash::sha512::hash(data).0
}

/// Relies on sodiumoxide's `crypto::sign::sign_detached` (ed25519): a
/// 64-byte signature that depends on the message and the secret key alone.
#[verifier::external_body]
pub(crate) fn sign_detached(data: &[u8], sk: &SignSecretKey) -> (r: Signature)
    ensures
        r@ == sig_of(data@, sk@),
{
    let sk = sodiumoxide::crypto::sign::SecretKey(sk.0);
    Signature(sodiumoxide::crypto::sign::sign_detached(data, &sk).to_bytes())
}

/// Relies on sodiumoxide's `crypto::sign::verify_detached` (ed25519).  The
/// signature bytes are re-parsed by `ed25519::Signature::from_bytes` first;
/// the byte strings it rejects (a non-canonical trailing scalar) are exactly
/// ones libsodium's verifier also rejects, so the answer is the verifier's.
#[verifier::external_body]
pub(crate) fn verify_detached(sig: &Signature, data: &[u8], pk: &SignPublicKey) -> (r: bool)
    ensures
        r == sig_checks(sig@, data@, pk@),
{
    let pk = sodiumoxide::crypto::sign::PublicKey(pk.0);
    match sodiumoxide::crypto::sign::Signature::from_bytes(&sig.0) {
        Ok(s) => sodiumoxide::crypto::sign::verify_detached(&s, data, &pk),
        Err(_) => false,
    }
}

/// Relies on sodiumoxide's `crypto::sign::gen_keypair`: a fresh signing pair
/// whose public key verifies the signatures its secret key makes.
#[verifier::external_body]
pub(crate) fn gen_sign_keypair() -> (r: (SignPublicKey, SignSecretKey))
    ensures
        keypair_matches(r.0@, r.1@),
{
    let (pk, sk) = sodiumoxide::crypto::sign::gen_keypair();
    (SignPublicKey(pk.0), SignSecretKey(sk.0))
}

/// Relies on sodiumoxide's `crypto::box_::gen_keypair`: a fresh encryption
/// pair; nothing is stated of the bytes drawn.
#[verifier::external_body]
pub(crate) fn gen_box_keypair() -> (BoxPublicKey, BoxSecretKey) {
    let (pk, sk) = sodiumoxide::crypto::box_::gen_keypair();
    (BoxPublicKey(pk.0), BoxSecretKey(sk.0))
}

/// Relies on sodiumoxide's `crypto::box_::gen_nonce`: a fresh random nonce;
/// nothing is stated of the bytes drawn.
#[verifier::external_body]
pub(crate) fn gen_box_nonce() -> BoxNonce {
    BoxNonce(sodiumoxide::crypto::box_::gen_nonce().0)
}

/// Relies on sodiumoxide's `crypto::box_::seal`: authenticated encryption of
/// `data` for the holder of `pk`; nothing is stated of the ciphertext bytes.
#[verifier::external_body]
pub(crate) fn box_seal(data: &[u8], nonce: &BoxNonce, pk: &BoxPublicKey, sk: &BoxSecretKey) -> Vec<
    u8,
> {
    let n = sodiumoxide::crypto::box_::Nonce(nonce.0);
    let pk = sodiumoxide::crypto::box_::PublicKey(pk.0);
    let sk = sodiumoxide::crypto::box_::SecretKey(sk.0);
    sodiumoxide::crypto::box_::seal(data, &n, &pk, &sk)
}

/// Relies on sodiumoxide's `crypto::box_::open`: decryption that succeeds
/// only when the ciphertext authenticates under the given keys.
#[verifier::external_body]
pub(crate) fn box_open(
    data: &[u8],
    nonce: &BoxNonce,
    pk: &BoxPublicKey,
    sk: &BoxSecretKey,
) -> Option<Vec<u8>> {
    let n = sodiumoxide::crypto::box_::Nonce(nonce.0);
    let pk = sodiumoxide::crypto::box_::PublicKey(pk.0);
    let sk = sodiumoxide::crypto::box_::SecretKey(sk.0);
    sodiumoxide::crypto::box_::open(data, &n, &pk, &sk).ok()
}

/// Relies on `rand::fill` to fill the buffer from the thread-local
/// generator; only the length is certain.
#[verifier::external_body]
pub(crate) fn random_bytes(n: usize) -> (r: Vec<u8>)
    ensures
        r@.len() == n,
{
    let mut v = vec![0u8; n];
    rand::fill(&mut v[..]);
    v
}

/// Concatenates the signature and the payload, producing the byte layout a
/// signed blob carries on the wire: signature first, payload after it.
pub fn attach(signature: &Signature, payload: &[u8]) -> (r: Vec<u8>)
    ensures
        r@ == signature@ + payload@,
{
    let mut out = from_fixed(&signature.0);
    append_bytes(&mut out, payload);
    out
}

/// Interprets the first `SIGNATURE_LEN` bytes of a signed blob as its
/// detached signature; fails with `SizeError` iff the blob is shorter than a
/// signature.
pub fn detach(signed_blob: &[u8]) -> (r: Result<Signature, SizeError>)
    ensures
        signed_blob@.len() >= SIGNATURE_LEN ==> (r matches Ok(s) && s@ == signed_blob@.subrange(
            0,
            SIGNATURE_LEN as int,
        )),
        signed_blob@.len() < SIGNATURE_LEN ==> r is Err,
{
    if signed_blob.len() < SIGNATURE_LEN {
        return Err(SizeError);
    }
    let first = slice_subrange(signed_blob, 0, SIGNATURE_LEN);
    match to_fixed::<64>(first) {
        Ok(arr) => Ok(Signature(arr)),
        Err(e) => Err(e),
    }
}

/// Detaching the signature from a freshly attached blob hands back exactly
/// the signature that was attached, whatever the payload.
pub proof fn lemma_detach_attach(signature: Signature, payload: Seq<u8>)
    ensures
        (signature@ + payload).len() >= SIGNATURE_LEN,
        (signature@ + payload).subrange(0, SIGNATURE_LEN as int) == signature@,
{
    assert((signature@ + payload).subrange(0, SIGNATURE_LEN as int) =~= signature@);
}

/// True when `signature` is a valid signature of `payload` under
/// `owner_key` — the check every self-certifying record must pass before its
/// decode is allowed to succeed.
pub fn verify_self_signed(owner_key: &SignPublicKey, signature: &Signature, payload: &[u8]) -> (r:
    bool)
    ensures
        r == sig_checks(signature@, payload@, owner_key@),
{
    verify_detached(signature, payload, owner_key)
}

/// Splits an attached signed blob into signature and payload and verifies
/// it: hands the payload back exactly when the blob is long enough to hold a
/// signature and that signature checks out under `pk`.
pub fn open_signed(signed_blob: &[u8], pk: &SignPublicKey) -> (r: Option<Vec<u8>>)
    ensures
        (signed_blob@.len() >= SIGNATURE_LEN && sig_checks(
            signed_blob@.subrange(0, SIGNATURE_LEN as int),
            signed_blob@.skip(SIGNATURE_LEN as int),
            pk@,
        )) <==> (r matches Some(m) && m@ == signed_blob@.skip(SIGNATURE_LEN as int)),
{
    match detach(signed_blob) {
        Err(_) => None,
        Ok(sig) => {
            let payload = slice_subrange(signed_blob, SIGNATURE_LEN, signed_blob.len());
            if verify_detached(&sig, payload, pk) {
                Some(slice_to_vec_u8(payload))
            } else {
                None
            }
        },
    }
}

/// Copies a byte slice into a fresh vector.
fn slice_to_vec_u8(b: &[u8]) -> (r: Vec<u8>)
    ensures
        r@ == b@,
{
    vstd::slice::slice_to_vec(b)
}

} // verus!
