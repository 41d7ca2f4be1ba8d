//! The 64-byte identifier used to address data and nodes in the overlay
//! network's XOR-metric address space.

use vstd::prelude::*;
use vstd::bytes::spec_u64_from_le_bytes;
use vstd::bytes::spec_u64_to_le_bytes;
use vstd::bytes::u64_from_le_bytes;
use vstd::bytes::u64_to_le_bytes;
use vstd::slice::slice_subrange;
use crate::MAIDSAFE_TAG;
use crate::codec::DecodeError;
use crate::codec::append_field;
use crate::codec::read_field;
use crate::codec::spec_field;
use crate::codec::spec_read_field;
use crate::codec::to_fixed;

verus! {

/// Number of bytes in an identifier.
pub const NAME_LEN: usize = 64;

/// A fixed 64-byte identifier.  Equality is byte-wise; the all-zero value is
/// the reserved null identifier and is the only invalid one.
#[derive(Clone, Copy, Debug)]
pub struct NameType(pub [u8; 64]);

impl View for NameType {
    type V = Seq<u8>;

    open spec fn view(&self) -> Seq<u8> {
        self.0@
    }
}

/// True when some byte of `s` is non-zero, i.e. `s` is not the null identifier.
pub open spec fn spec_is_valid(s: Seq<u8>) -> bool {
    exists|i: int| 0 <= i < s.len() && s[i] != 0
}

/// Compares `lhs` and `rhs` by XOR distance to `target`, starting at byte `i`:
/// true when at the first position at or after `i` where the two distances
/// differ, `lhs`'s distance byte is the smaller.
pub open spec fn xor_closer_from(lhs: Seq<u8>, rhs: Seq<u8>, target: Seq<u8>, i: int) -> bool
    decreases 64 - i,
{
    if i < 0 || i >= 64 {
        false
    } else {
        let a = lhs[i] ^ target[i];
        let b = rhs[i] ^ target[i];
        if a != b {
            a < b
        } else {
            xor_closer_from(lhs, rhs, target, i + 1)
        }
    }
}

/// True when `lhs` is strictly closer to `target` than `rhs` in the XOR metric.
pub open spec fn spec_closer_to_target(lhs: Seq<u8>, rhs: Seq<u8>, target: Seq<u8>) -> bool {
    xor_closer_from(lhs, rhs, target, 0)
}

impl NameType {
    /// Returns a fresh identifier with 64 bytes drawn at random.
    ///
    /// Relies on rand::fill to fill the buffer from the thread-local
    /// generator; nothing can be promised of the bytes it produces.
    #[verifier::external_body]
    pub fn generate_random() -> NameType {
        let mut arr = [0u8; 64];
        rand::fill(&mut arr[..]);
        NameType(arr)
    }

    /// True when, at the first byte position where `lhs XOR target` and
    /// `rhs XOR target` differ, `lhs XOR target` is numerically smaller.
    /// When the two distances are identical byte for byte neither side is
    /// strictly closer and the result is false.
    pub fn closer_to_target(lhs: &NameType, rhs: &NameType, target: &NameType) -> (r: bool)
        ensures
            r == spec_closer_to_target(lhs@, rhs@, target@),
    {
        let mut i: usize = 0;
        while i < 64
            invariant
                0 <= i <= 64,
                spec_closer_to_target(lhs@, rhs@, target@) == xor_closer_from(
                    lhs@,
                    rhs@,
                    target@,
                    i as int,
                ),
            decreases 64 - i,
        {
            let a = lhs.0[i] ^ target.0[i];
            let b = rhs.0[i] ^ target.0[i];
            if a != b {
                return a < b;
            }
            i = i + 1;
        }
        false
    }

    /// Wraps the given 64 bytes as an identifier; total, never fails.
    pub fn new(id: [u8; 64]) -> (r: NameType)
        ensures
            r@ == id@,
    {
        NameType(id)
    }

    /// Returns the identifier's bytes.
    pub fn get_id(&self) -> (r: [u8; 64])
        ensures
            r@ == self@,
    {
        self.0
    }

    /// True unless every byte is zero (the reserved null identifier).
    pub fn is_valid(&self) -> (r: bool)
        ensures
            r == spec_is_valid(self@),
    {
        let mut i: usize = 0;
        while i < 64
            invariant
                0 <= i <= 64,
                forall|j: int| 0 <= j < i ==> self@[j] == 0,
            decreases 64 - i,
        {
            if self.0[i] != 0 {
                return true;
            }
            i = i + 1;
        }
        false
    }
}

/// The wire form of a bare identifier: the base tag in eight little-endian
/// bytes, then the 64 identifier bytes as one length-prefixed field.
pub open spec fn spec_encode_name(id: Seq<u8>) -> Seq<u8> {
    spec_u64_to_le_bytes(MAIDSAFE_TAG) + spec_field(id)
}

/// What a stream of bare-identifier bytes decodes to: the identifier iff the
/// stream carries the base tag and exactly one 64-byte field.
pub open spec fn spec_decode_name(s: Seq<u8>) -> Result<Seq<u8>, DecodeError> {
    if s.len() < 8 {
        Err(DecodeError::BadTag)
    } else if spec_u64_from_le_bytes(s.subrange(0, 8)) != MAIDSAFE_TAG {
        Err(DecodeError::BadTag)
    } else {
        match spec_read_field(s, 8) {
            Some(p) => if p.1 == s.len() && p.0.len() == 64 {
                Ok(p.0)
            } else {
                Err(DecodeError::BadSize(MAIDSAFE_TAG))
            },
            None => Err(DecodeError::BadSize(MAIDSAFE_TAG)),
        }
    }
}

impl NameType {
    /// Encodes the identifier on its own: the base tag, then its bytes.
    pub fn serialised_contents(&self) -> (r: Vec<u8>)
        ensures
            r@ == spec_encode_name(self@),
    {
        let mut out = u64_to_le_bytes(MAIDSAFE_TAG);
        append_field(&mut out, self.0.as_slice());
        out
    }

    /// Decodes a bare identifier from its wire form.
    pub fn decode(bytes: &[u8]) -> (r: Result<NameType, DecodeError>)
        ensures
            r matches Ok(n) ==> spec_decode_name(bytes@) == Ok::<Seq<u8>, DecodeError>(n@),
            r matches Err(e) ==> spec_decode_name(bytes@) == Err::<Seq<u8>, DecodeError>(e),
    {
        if bytes.len() < 8 {
            return Err(DecodeError::BadTag);
        }
        let tag = u64_from_le_bytes(slice_subrange(bytes, 0, 8));
        if tag != MAIDSAFE_TAG {
            return Err(DecodeError::BadTag);
        }
        match read_field(bytes, 8) {
            None => Err(DecodeError::BadSize(MAIDSAFE_TAG)),
            Some((field, end)) => {
                if !(end == bytes.len() && field.len() == 64) {
                    return Err(DecodeError::BadSize(MAIDSAFE_TAG));
                }
                match to_fixed::<64>(field.as_slice()) {
                    Ok(arr) => Ok(NameType(arr)),
                    Err(_) => Err(DecodeError::BadSize(MAIDSAFE_TAG)),
                }
            },
        }
    }
}

/// Round trip for bare identifiers: an identifier decodes from its own
/// encoding unchanged.
pub proof fn lemma_round_trip_name(id: Seq<u8>)
    requires
        id.len() == 64,
    ensures
        spec_decode_name(spec_encode_name(id)) == Ok::<Seq<u8>, DecodeError>(id),
{
    vstd::bytes::lemma_auto_spec_u64_to_from_le_bytes();
    let tagb = spec_u64_to_le_bytes(MAIDSAFE_TAG);
    let s = spec_encode_name(id);
    assert(s.subrange(0, 8) =~= tagb);
    assert(s =~= tagb + spec_field(id) + Seq::<u8>::empty());
    crate::codec::lemma_read_field_at(tagb, id, Seq::<u8>::empty());
}

impl PartialEq for NameType {
    fn eq(&self, other: &NameType) -> (r: bool) {
        let mut i: usize = 0;
        while i < 64
            invariant
                0 <= i <= 64,
                forall|j: int| 0 <= j < i ==> self@[j] == other@[j],
            decreases 64 - i,
        {
            if self.0[i] != other.0[i] {
                return false;
            }
            i = i + 1;
        }
        proof {
            assert(self@ =~= other@);
        }
        true
    }
}

impl vstd::std_specs::cmp::PartialEqSpecImpl for NameType {
    open spec fn obeys_eq_spec() -> bool {
        true
    }

    open spec fn eq_spec(&self, other: &NameType) -> bool {
        self@ == other@
    }
}

impl crate::Random for NameType {
    /// A fresh identifier with random bytes.
    fn generate_random() -> NameType {
        NameType::generate_random()
    }
}

/// Transitivity of the XOR-distance comparison from position `i` on: the
/// first-difference rule composes across the three pairs.
proof fn lemma_xor_closer_from_trans(
    a: Seq<u8>,
    b: Seq<u8>,
    c: Seq<u8>,
    target: Seq<u8>,
    i: int,
)
    requires
        xor_closer_from(a, b, target, i),
        xor_closer_from(b, c, target, i),
    ensures
        xor_closer_from(a, c, target, i),
    decreases 64 - i,
{
    let da = a[i] ^ target[i];
    let db = b[i] ^ target[i];
    let dc = c[i] ^ target[i];
    if da == db && db == dc {
        lemma_xor_closer_from_trans(a, b, c, target, i + 1);
    }
}

/// The "closer to target" relation is transitive: for a fixed target, if `a`
/// is strictly closer than `b` and `b` is strictly closer than `c`, then `a`
/// is strictly closer than `c`.
pub proof fn lemma_closer_to_target_transitive(a: NameType, b: NameType, c: NameType, target: NameType)
    requires
        spec_closer_to_target(a@, b@, target@),
        spec_closer_to_target(b@, c@, target@),
    ensures
        spec_closer_to_target(a@, c@, target@),
{
    lemma_xor_closer_from_trans(a@, b@, c@, target@, 0);
}

} // verus!
