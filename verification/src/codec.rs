//! Byte-level building blocks of the wire format: exact-size buffer
//! conversions, length-prefixed fields, and the decimal text form used for
//! numeric tags carried inside a payload.
//!
//! Every value on the wire is laid out as the variant's registry tag in eight
//! little-endian bytes followed by the variant's fields, each field prefixed
//! by its length in eight little-endian bytes.

use vstd::prelude::*;
use vstd::bytes::spec_u64_from_le_bytes;
use vstd::bytes::spec_u64_to_le_bytes;
use vstd::bytes::u64_from_le_bytes;
use vstd::bytes::u64_to_le_bytes;
use vstd::slice::slice_subrange;
use vstd::slice::slice_to_vec;

verus! {

/// Error: a byte buffer's length does not match the fixed size required by
/// its target type.
#[derive(Clone, Copy, Debug, PartialEq, Eq, Structural)]
pub struct SizeError;

/// Why a byte stream failed to decode.  An unrecognized tag is not among
/// these: the dispatching decoder hands such a stream back as an explicit
/// unknown value, never as an error.
#[derive(Clone, Copy, Debug, PartialEq, Eq, Structural)]
pub enum DecodeError {
    /// A field's length does not match the fixed size the tagged variant
    /// requires; carries the variant's tag.
    BadSize(u64),
    /// A numeric tag field could not be parsed, or the stream is too short
    /// to hold the leading tag.
    BadTag,
    /// A self-certifying record's embedded signature failed verification.
    BadSignature,
}

/// Copies a buffer into an array of exactly `N` bytes.  Fails with
/// `SizeError` iff the buffer's length differs from `N`; no truncation and no
/// partial result.
pub fn to_fixed<const N: usize>(buffer: &[u8]) -> (r: Result<[u8; N], SizeError>)
    ensures
        buffer@.len() == N ==> (r matches Ok(a) && a@ == buffer@),
        buffer@.len() != N ==> r is Err,
{
    if buffer.len() != N {
        return Err(SizeError);
    }
    let mut arr = [0u8; N];
    let mut i: usize = 0;
    while i < N
        invariant
            0 <= i <= N,
            buffer@.len() == N,
            arr@.len() == N,
            forall|j: int| 0 <= j < i ==> arr@[j] == buffer@[j],
        decreases N - i,
    {
        arr[i] = buffer[i];
        i = i + 1;
    }
    proof {
        assert(arr@ =~= buffer@);
    }
    Ok(arr)
}

/// The total inverse of `to_fixed`: hands the array's bytes back as a buffer.
pub fn from_fixed<const N: usize>(arr: &[u8; N]) -> (r: Vec<u8>)
    ensures
        r@ == arr@,
{
    slice_to_vec(arr.as_slice())
}

/// Appends `b`'s bytes to `out`.
pub fn append_bytes(out: &mut Vec<u8>, b: &[u8])
    ensures
        final(out)@ == old(out)@ + b@,
{
    let n = b.len();
    let mut i: usize = 0;
    while i < n
        invariant
            n == b@.len(),
            0 <= i <= n,
            out@ == old(out)@ + b@.subrange(0, i as int),
        decreases n - i,
    {
        out.push(b[i]);
        proof {
            assert(b@.subrange(0, i + 1) =~= b@.subrange(0, i as int) + seq![b@[i as int]]);
        }
        i = i + 1;
    }
    proof {
        assert(b@.subrange(0, n as int) =~= b@);
    }
}

/// A field on the wire: the payload's length in eight little-endian bytes,
/// then the payload itself.
pub open spec fn spec_field(b: Seq<u8>) -> Seq<u8> {
    spec_u64_to_le_bytes(b.len() as u64) + b
}

/// Appends `b` to `out` as a length-prefixed field.
pub fn append_field(out: &mut Vec<u8>, b: &[u8])
    ensures
        final(out)@ == old(out)@ + spec_field(b@),
{
    let len_bytes = u64_to_le_bytes(b.len() as u64);
    append_bytes(out, len_bytes.as_slice());
    append_bytes(out, b);
    proof {
        assert(out@ =~= old(out)@ + spec_field(b@));
    }
}

/// Reads the length-prefixed field that starts at `pos`: `None` when the
/// length prefix or the payload runs past the end of `s`, otherwise the
/// payload and the position just after it.
pub open spec fn spec_read_field(s: Seq<u8>, pos: int) -> Option<(Seq<u8>, int)> {
    if pos + 8 <= s.len() {
        let n = spec_u64_from_le_bytes(s.subrange(pos, pos + 8)) as int;
        if pos + 8 + n <= s.len() {
            Some((s.subrange(pos + 8, pos + 8 + n), pos + 8 + n))
        } else {
            None
        }
    } else {
        None
    }
}

/// Reads one length-prefixed field starting at `pos`.
pub fn read_field(bytes: &[u8], pos: usize) -> (r: Option<(Vec<u8>, usize)>)
    requires
        pos <= bytes@.len(),
    ensures
        spec_read_field(bytes@, pos as int) matches Some(p) ==> (r matches Some(q) && q.0@ == p.0
            && q.1 == p.1),
        spec_read_field(bytes@, pos as int) is None ==> r is None,
{
    if bytes.len() - pos < 8 {
        return None;
    }
    let len_slice = slice_subrange(bytes, pos, pos + 8);
    let n64 = u64_from_le_bytes(len_slice);
    let avail = bytes.len() - pos - 8;
    if n64 > avail as u64 {
        return None;
    }
    let n = n64 as usize;
    let field = slice_to_vec(slice_subrange(bytes, pos + 8, pos + 8 + n));
    Some((field, pos + 8 + n))
}

/// Reading a field from right where one was written hands back exactly the
/// payload that was framed, and lands just after it, whatever bytes surround
/// the field.
pub proof fn lemma_read_field_at(base: Seq<u8>, b: Seq<u8>, rest: Seq<u8>)
    requires
        b.len() <= u64::MAX,
    ensures
        spec_read_field(base + spec_field(b) + rest, base.len() as int) == Some(
            (b, base.len() + 8 + b.len() as int),
        ),
{
    vstd::bytes::lemma_auto_spec_u64_to_from_le_bytes();
    let s = base + spec_field(b) + rest;
    let pos = base.len() as int;
    assert(s.subrange(pos, pos + 8) =~= spec_u64_to_le_bytes(b.len() as u64));
    assert(spec_u64_from_le_bytes(s.subrange(pos, pos + 8)) == b.len() as u64);
    assert(s.subrange(pos + 8, pos + 8 + b.len()) =~= b);
}

/// The canonical decimal digits of `n`, most significant first; empty for
/// zero and below.
pub open spec fn spec_digits_rec(n: int) -> Seq<u8>
    decreases n,
{
    if n <= 0 {
        Seq::empty()
    } else {
        spec_digits_rec(n / 10) + seq![(48 + n % 10) as u8]
    }
}

/// The decimal text form of `n`: its digits, with `"0"` for zero.
pub open spec fn spec_u64_to_ascii(n: u64) -> Seq<u8> {
    if n == 0 {
        seq![48u8]
    } else {
        spec_digits_rec(n as int)
    }
}

/// True when `s` is non-empty and holds ASCII decimal digits only.
pub open spec fn spec_is_digits(s: Seq<u8>) -> bool {
    s.len() > 0 && (forall|i: int| 0 <= i < s.len() ==> 48 <= #[trigger] s[i] <= 57)
}

/// The numeric value of a digit string, most significant digit first.
pub open spec fn spec_digits_value(s: Seq<u8>) -> int
    decreases s.len(),
{
    if s.len() == 0 {
        0
    } else {
        spec_digits_value(s.drop_last()) * 10 + (s.last() - 48)
    }
}

/// The tag value carried by a decimal text field: defined exactly when the
/// field is a non-empty string of digits whose value fits in a `u64`.
pub open spec fn spec_parse_u64(s: Seq<u8>) -> Option<u64> {
    if spec_is_digits(s) && spec_digits_value(s) <= u64::MAX {
        Some(spec_digits_value(s) as u64)
    } else {
        None
    }
}

proof fn lemma_digits_value_nonneg(s: Seq<u8>)
    requires
        forall|i: int| 0 <= i < s.len() ==> 48 <= #[trigger] s[i] <= 57,
    ensures
        spec_digits_value(s) >= 0,
    decreases s.len(),
{
    if s.len() > 0 {
        lemma_digits_value_nonneg(s.drop_last());
        assert(spec_digits_value(s.drop_last()) * 10 >= 0) by (nonlinear_arith)
            requires
                spec_digits_value(s.drop_last()) >= 0,
        ;
    }
}

proof fn lemma_digits_value_take_monotone(s: Seq<u8>, i: int)
    requires
        forall|j: int| 0 <= j < s.len() ==> 48 <= #[trigger] s[j] <= 57,
        0 <= i <= s.len(),
    ensures
        spec_digits_value(s) >= spec_digits_value(s.take(i)),
    decreases s.len() - i,
{
    if i == s.len() {
        assert(s.take(i) =~= s);
    } else {
        lemma_digits_value_take_monotone(s, i + 1);
        let t = s.take(i + 1);
        assert(t.drop_last() =~= s.take(i));
        let v = spec_digits_value(s.take(i));
        lemma_digits_value_nonneg(s.take(i));
        assert(v * 10 >= v) by (nonlinear_arith)
            requires
                v >= 0,
        ;
    }
}

/// Parses a non-empty string of ASCII decimal digits into the `u64` it
/// denotes; any other byte string, or a value past `u64::MAX`, is `None`.
pub fn convert_to_u64(num_vec: Vec<u8>) -> (r: Option<u64>)
    ensures
        r == spec_parse_u64(num_vec@),
{
    if num_vec.len() == 0 {
        return None;
    }
    let n = num_vec.len();
    let mut acc: u64 = 0;
    let mut i: usize = 0;
    while i < n
        invariant
            0 < n == num_vec@.len(),
            0 <= i <= n,
            forall|j: int| 0 <= j < i ==> 48 <= #[trigger] num_vec@[j] <= 57,
            acc == spec_digits_value(num_vec@.take(i as int)),
        decreases n - i,
    {
        let b = num_vec[i];
        if b < 48 || b > 57 {
            return None;
        }
        let d = (b - 48) as u64;
        proof {
            assert(num_vec@.take(i + 1).drop_last() =~= num_vec@.take(i as int));
            assert(num_vec@.take(i + 1).last() == num_vec@[i as int]);
        }
        let overflow: bool = match acc.checked_mul(10) {
            Some(x) => match x.checked_add(d) {
                Some(next) => {
                    acc = next;
                    false
                },
                None => true,
            },
            None => true,
        };
        if overflow {
            proof {
                // The running value already exceeds u64::MAX here, so the
                // whole string's value does too.
                assert(spec_digits_value(num_vec@.take(i + 1)) > u64::MAX);
                if spec_is_digits(num_vec@) {
                    lemma_digits_value_take_monotone(num_vec@, i + 1);
                }
            }
            return None;
        }
        i = i + 1;
    }
    proof {
        assert(num_vec@.take(n as int) =~= num_vec@);
    }
    Some(acc)
}

proof fn lemma_digits_rec_wf(n: int)
    requires
        n > 0,
    ensures
        0 < spec_digits_rec(n).len() <= n,
        forall|i: int|
            0 <= i < spec_digits_rec(n).len() ==> 48 <= #[trigger] spec_digits_rec(n)[i] <= 57,
        spec_digits_value(spec_digits_rec(n)) == n,
    decreases n,
{
    let q = n / 10;
    let d = n % 10;
    vstd::arithmetic::div_mod::lemma_fundamental_div_mod(n, 10);
    vstd::arithmetic::div_mod::lemma_mod_bound(n, 10);
    vstd::arithmetic::div_mod::lemma_div_pos_is_pos(n, 10);
    if n >= 10 {
        vstd::arithmetic::div_mod::lemma_div_non_zero(n, 10);
        lemma_digits_rec_wf(q);
    } else {
        assert(q == 0) by (nonlinear_arith)
            requires
                0 <= q,
                q * 10 + d == n,
                0 <= d < 10,
                n < 10,
        ;
        assert(spec_digits_rec(q) =~= Seq::<u8>::empty());
        assert(spec_digits_value(Seq::<u8>::empty()) == 0);
    }
    assert(spec_digits_rec(n).drop_last() =~= spec_digits_rec(q));
    assert(spec_digits_rec(n).last() == (48 + d) as u8);
}

/// The decimal text form of a tag parses back to the tag itself, and always
/// fits in a field.
pub proof fn lemma_u64_ascii_roundtrip(n: u64)
    ensures
        spec_parse_u64(spec_u64_to_ascii(n)) == Some(n),
        0 < spec_u64_to_ascii(n).len() <= u64::MAX,
{
    if n == 0 {
        let s = seq![48u8];
        assert(s.drop_last() =~= Seq::<u8>::empty());
        assert(spec_digits_value(Seq::<u8>::empty()) == 0);
        assert(spec_digits_value(s) == 0);
    } else {
        lemma_digits_rec_wf(n as int);
    }
}

/// Writes `n` in decimal, most significant digit first, `"0"` for zero.
pub fn u64_to_ascii(n: u64) -> (r: Vec<u8>)
    ensures
        r@ == spec_u64_to_ascii(n),
{
    if n == 0 {
        let mut out: Vec<u8> = Vec::new();
        out.push(48);
        proof {
            assert(out@ =~= seq![48u8]);
        }
        return out;
    }
    let mut rev: Vec<u8> = Vec::new();
    let mut x = n;
    while x > 0
        invariant
            spec_digits_rec(x as int) + rev@.reverse() == spec_digits_rec(n as int),
        decreases x,
    {
        let ghost prev = rev@;
        let d = (x % 10) as u8;
        rev.push(48 + d);
        proof {
            assert(rev@.reverse() =~= seq![(48 + (x as int) % 10) as u8] + prev.reverse());
            assert(spec_digits_rec((x / 10) as int) + rev@.reverse() =~= spec_digits_rec(
                x as int,
            ) + prev.reverse());
        }
        x = x / 10;
    }
    let mut out: Vec<u8> = Vec::new();
    let k = rev.len();
    let mut i: usize = 0;
    while i < k
        invariant
            k == rev@.len(),
            0 <= i <= k,
            out@ =~= rev@.reverse().take(i as int),
        decreases k - i,
    {
        out.push(rev[k - 1 - i]);
        proof {
            assert(rev@.reverse().take(i + 1) =~= rev@.reverse().take(i as int) + seq![
                rev@.reverse()[i as int],
            ]);
        }
        i = i + 1;
    }
    proof {
        assert(rev@.reverse().take(k as int) =~= rev@.reverse());
    }
    out
}

} // verus!
