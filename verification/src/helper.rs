//! Small helpers shared by the data and identity types: slice comparison and
//! exact-size container conversion.

use vstd::prelude::*;
use vstd::std_specs::cmp::PartialEqSpec;
use crate::codec::append_bytes;
use crate::codec::from_fixed;
use crate::crypto::BoxPublicKey;
use crate::crypto::SignPublicKey;
use crate::crypto::digest_of;
use crate::crypto::sha512_digest;
use crate::name_type::NameType;

verus! {

/// Returns true if both slices are equal in length and have equal contents.
pub fn slice_equal<T: PartialEq>(lhs: &[T], rhs: &[T]) -> (r: bool)
    ensures
        T::obeys_eq_spec() ==> r == (lhs@.len() == rhs@.len() && (forall|i: int|
            0 <= i < lhs@.len() ==> lhs@[i].eq_spec(&rhs@[i]))),
{
    if lhs.len() != rhs.len() {
        return false;
    }
    let n = lhs.len();
    let mut i: usize = 0;
    while i < n
        invariant
            n == lhs@.len() == rhs@.len(),
            0 <= i <= n,
            T::obeys_eq_spec() ==> forall|j: int| 0 <= j < i ==> lhs@[j].eq_spec(&rhs@[j]),
        decreases n - i,
    {
        if lhs[i] != rhs[i] {
            return false;
        }
        i = i + 1;
    }
    true
}

/// Derives the identifier of an identity from its public keys: the digest
/// of the signing key's bytes followed by the encryption key's bytes.
pub fn calculate_name(public_keys: &(SignPublicKey, BoxPublicKey)) -> (r: NameType)
    ensures
        r@ == digest_of(public_keys.0@ + public_keys.1@),
{
    let mut combined = from_fixed(&public_keys.0.0);
    append_bytes(&mut combined, public_keys.1.0.as_slice());
    NameType(sha512_digest(combined.as_slice()))
}

/// Moves a container's elements out unchanged when its length is exactly
/// `size`; returns `None` otherwise, handing nothing partial back.
pub fn convert_to_array<T>(container: Vec<T>, size: usize) -> (r: Option<Vec<T>>)
    ensures
        container@.len() == size ==> (r matches Some(v) && v@ == container@),
        container@.len() != size ==> r is None,
{
    if container.len() != size {
        None
    } else {
        Some(container)
    }
}

} // verus!
