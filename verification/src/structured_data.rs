//! Structured, mutable records: a named, owned list of identifiers.  Several
//! replicas of the same record merge to their longest common prefix of
//! values.

use vstd::prelude::*;
use vstd::bytes::spec_u64_to_le_bytes;
use vstd::bytes::u64_to_le_bytes;
use vstd::slice::slice_subrange;
use vstd::slice::slice_to_vec;
use crate::TypeTag;
use crate::codec::append_bytes;
use crate::codec::append_field;
use crate::codec::spec_field;
use crate::data_tags::STRUCTURED_DATA_TAG;
use crate::name_type::NameType;

verus! {

/// Tag carrier for `StructuredData`.
#[derive(Clone, PartialEq, Debug)]
pub struct StructuredDataTypeTag;

impl TypeTag for StructuredDataTypeTag {
    open spec fn spec_type_tag(&self) -> u64 {
        STRUCTURED_DATA_TAG
    }

    fn type_tag(&self) -> u64 {
        STRUCTURED_DATA_TAG
    }
}

/// The mathematical model of a structured record.
pub struct StructuredDataV {
    /// The record's identifier.
    pub name: Seq<u8>,
    /// The identifier of the record's owner.
    pub owner: Seq<u8>,
    /// The record's list of identifier values, each one 64 bytes.
    pub value: Seq<Seq<u8>>,
}

/// The bytes of each identifier in the list.
pub open spec fn spec_name_views(v: Seq<NameType>) -> Seq<Seq<u8>> {
    v.map_values(|n: NameType| n@)
}

/// A named, owned list of identifiers.
#[derive(Clone, Debug)]
pub struct StructuredData {
    type_tag: StructuredDataTypeTag,
    name: NameType,
    owner: NameType,
    value: Vec<NameType>,
}

impl View for StructuredData {
    type V = StructuredDataV;

    closed spec fn view(&self) -> StructuredDataV {
        StructuredDataV { name: self.name@, owner: self.owner@, value: spec_name_views(self.value@) }
    }
}

/// Well-formedness of the model: the name, the owner and every value are
/// identifiers of 64 bytes, and the value list fits on the wire.
pub open spec fn spec_structured_wf(v: StructuredDataV) -> bool {
    &&& v.name.len() == crate::name_type::NAME_LEN
    &&& v.owner.len() == crate::name_type::NAME_LEN
    &&& forall|i: int| 0 <= i < v.value.len() ==> (#[trigger] v.value[i]).len() == 64
    &&& 64 * v.value.len() <= u64::MAX
}

/// The bytes of a list of identifiers laid end to end.
pub open spec fn spec_concat_names(v: Seq<Seq<u8>>) -> Seq<u8>
    decreases v.len(),
{
    if v.len() == 0 {
        Seq::empty()
    } else {
        spec_concat_names(v.drop_last()) + v.last()
    }
}

/// Splits a byte string into its consecutive 64-byte identifiers.
pub open spec fn spec_chunk_names(b: Seq<u8>) -> Seq<Seq<u8>> {
    Seq::new((b.len() / 64) as nat, |i: int| b.subrange(64 * i, 64 * i + 64))
}

/// The wire form of a structured record: the registry tag, then the name,
/// the owner, and the concatenated values, each as a length-prefixed field.
pub open spec fn spec_encode_structured(v: StructuredDataV) -> Seq<u8> {
    spec_u64_to_le_bytes(STRUCTURED_DATA_TAG) + spec_field(v.name) + spec_field(v.owner)
        + spec_field(spec_concat_names(v.value))
}

/// The first position at or after `i` where `a` and `b` disagree or one of
/// them ends.
pub open spec fn spec_prefix_len(a: Seq<Seq<u8>>, b: Seq<Seq<u8>>, i: int) -> int
    decreases a.len() - i,
{
    if i < 0 || i >= a.len() || i >= b.len() {
        i
    } else if a[i] != b[i] {
        i
    } else {
        spec_prefix_len(a, b, i + 1)
    }
}

/// The longest common prefix of two value lists.
pub open spec fn spec_merge_two(a: Seq<Seq<u8>>, b: Seq<Seq<u8>>) -> Seq<Seq<u8>> {
    a.take(spec_prefix_len(a, b, 0))
}

/// Folds the replicas into `acc`: each replica carrying the same name cuts
/// `acc` down to their common prefix, in order of arrival.
pub open spec fn spec_merge_all(
    name: Seq<u8>,
    acc: Seq<Seq<u8>>,
    others: Seq<StructuredDataV>,
) -> Seq<Seq<u8>>
    decreases others.len(),
{
    if others.len() == 0 {
        acc
    } else {
        let next = if others[0].name == name {
            spec_merge_two(acc, others[0].value)
        } else {
            acc
        };
        spec_merge_all(name, next, others.drop_first())
    }
}

proof fn lemma_prefix_len_bounds(a: Seq<Seq<u8>>, b: Seq<Seq<u8>>, i: int)
    requires
        0 <= i <= a.len(),
        i <= b.len(),
    ensures
        i <= spec_prefix_len(a, b, i) <= a.len(),
        spec_prefix_len(a, b, i) <= b.len(),
    decreases a.len() - i,
{
    if i < a.len() && i < b.len() && a[i] == b[i] {
        lemma_prefix_len_bounds(a, b, i + 1);
    }
}

proof fn lemma_merge_all_snoc(
    name: Seq<u8>,
    acc: Seq<Seq<u8>>,
    others: Seq<StructuredDataV>,
    x: StructuredDataV,
)
    ensures
        spec_merge_all(name, acc, others + seq![x]) == (if x.name == name {
            spec_merge_two(spec_merge_all(name, acc, others), x.value)
        } else {
            spec_merge_all(name, acc, others)
        }),
    decreases others.len(),
{
    let whole = others + seq![x];
    if others.len() == 0 {
        assert(whole[0] == x);
        assert(whole.drop_first() =~= Seq::<StructuredDataV>::empty());
        let next0 = if x.name == name {
            spec_merge_two(acc, x.value)
        } else {
            acc
        };
        assert(spec_merge_all(name, next0, Seq::<StructuredDataV>::empty()) == next0);
    } else {
        assert(whole[0] == others[0]);
        assert(whole.drop_first() =~= others.drop_first() + seq![x]);
        let next = if others[0].name == name {
            spec_merge_two(acc, others[0].value)
        } else {
            acc
        };
        lemma_merge_all_snoc(name, next, others.drop_first(), x);
    }
}

/// The length of the longest common prefix of `a` and `b`.
fn common_prefix_len(a: &Vec<NameType>, b: &Vec<NameType>) -> (r: usize)
    ensures
        r == spec_prefix_len(spec_name_views(a@), spec_name_views(b@), 0),
        r <= a@.len(),
        r <= b@.len(),
{
    let ghost av = spec_name_views(a@);
    let ghost bv = spec_name_views(b@);
    let lim = if a.len() < b.len() {
        a.len()
    } else {
        b.len()
    };
    let mut p: usize = 0;
    while p < lim
        invariant
            av == spec_name_views(a@),
            bv == spec_name_views(b@),
            av.len() == a@.len(),
            bv.len() == b@.len(),
            0 <= p <= lim,
            lim <= av.len(),
            lim <= bv.len(),
            lim == av.len() || lim == bv.len(),
            spec_prefix_len(av, bv, 0) == spec_prefix_len(av, bv, p as int),
        decreases lim - p,
    {
        let ae = a[p];
        let be = b[p];
        if ae != be {
            proof {
                assert(av[p as int] == ae@ && bv[p as int] == be@);
            }
            return p;
        }
        proof {
            assert(av[p as int] == ae@ && bv[p as int] == be@);
        }
        p = p + 1;
    }
    p
}

impl StructuredData {
    /// Builds a record from its identifier, its owner and its values.
    pub fn new(name: NameType, owner: NameType, value: Vec<NameType>) -> (r: StructuredData)
        ensures
            r@.name == name@,
            r@.owner == owner@,
            r@.value == spec_name_views(value@),
    {
        StructuredData { type_tag: StructuredDataTypeTag, name, owner, value }
    }

    /// Returns a copy of the record's values.
    pub fn value(&self) -> (r: Vec<NameType>)
        ensures
            spec_name_views(r@) == self@.value,
    {
        slice_to_vec(self.value.as_slice())
    }

    /// Replaces the record's values.
    pub fn set_value(&mut self, data: Vec<NameType>)
        ensures
            final(self)@.name == old(self)@.name,
            final(self)@.owner == old(self)@.owner,
            final(self)@.value == spec_name_views(data@),
    {
        self.value = data;
    }

    /// Returns the record's identifier.
    pub fn name(&self) -> (r: NameType)
        ensures
            r@ == self@.name,
    {
        self.name
    }

    /// Returns the identifier of the record's owner.
    pub fn owner(&self) -> (r: NameType)
        ensures
            r@ == self@.owner,
    {
        self.owner
    }

    /// The record's registered tag.
    pub fn type_tag(&self) -> (r: u64)
        ensures
            r == STRUCTURED_DATA_TAG,
    {
        STRUCTURED_DATA_TAG
    }

    /// Encodes the record for the wire: its tag, then name, owner and the
    /// values laid end to end, each as a length-prefixed field.
    pub fn serialised_contents(&self) -> (r: Vec<u8>)
        ensures
            r@ == spec_encode_structured(self@),
    {
        let mut ids: Vec<u8> = Vec::new();
        let n = self.value.len();
        let mut k: usize = 0;
        while k < n
            invariant
                n == self.value@.len(),
                0 <= k <= n,
                ids@ == spec_concat_names(spec_name_views(self.value@.take(k as int))),
            decreases n - k,
        {
            append_bytes(&mut ids, self.value[k].0.as_slice());
            proof {
                let views = spec_name_views(self.value@.take(k + 1));
                assert(views.drop_last() =~= spec_name_views(self.value@.take(k as int)));
                assert(views.last() == self.value@[k as int]@);
            }
            k = k + 1;
        }
        proof {
            assert(self.value@.take(n as int) =~= self.value@);
        }
        let mut out = u64_to_le_bytes(STRUCTURED_DATA_TAG);
        append_field(&mut out, self.name.0.as_slice());
        append_field(&mut out, self.owner.0.as_slice());
        append_field(&mut out, ids.as_slice());
        out
    }

    /// Merges replicas of this record: every replica carrying this record's
    /// name cuts the value list down to the longest common prefix, in order;
    /// an empty result merges to nothing.
    pub fn merge(&self, sdvs: Vec<StructuredData>) -> (r: Option<StructuredData>)
        ensures
            ({
                let m = spec_merge_all(
                    self@.name,
                    self@.value,
                    sdvs@.map_values(|s: StructuredData| s@),
                );
                &&& m.len() == 0 ==> r is None
                &&& m.len() > 0 ==> (r matches Some(s) && s@.name == self@.name && s@.owner
                    == self@.owner && s@.value == m)
            }),
    {
        let ghost views = sdvs@.map_values(|s: StructuredData| s@);
        let mut merged: Vec<NameType> = slice_to_vec(self.value.as_slice());
        let n = sdvs.len();
        let mut k: usize = 0;
        while k < n
            invariant
                n == sdvs@.len(),
                views == sdvs@.map_values(|s: StructuredData| s@),
                0 <= k <= n,
                spec_name_views(merged@) == spec_merge_all(
                    self@.name,
                    self@.value,
                    views.take(k as int),
                ),
            decreases n - k,
        {
            let incoming = &sdvs[k];
            if incoming.name == self.name {
                let p = common_prefix_len(&merged, &incoming.value);
                let cut = slice_to_vec(slice_subrange(merged.as_slice(), 0, p));
                proof {
                    assert(spec_name_views(cut@) =~= spec_name_views(merged@).take(p as int));
                    assert(spec_name_views(incoming.value@) == views[k as int].value);
                    assert(views.take(k + 1) =~= views.take(k as int) + seq![views[k as int]]);
                    lemma_merge_all_snoc(
                        self@.name,
                        self@.value,
                        views.take(k as int),
                        views[k as int],
                    );
                }
                merged = cut;
            } else {
                proof {
                    assert(views.take(k + 1) =~= views.take(k as int) + seq![views[k as int]]);
                    lemma_merge_all_snoc(
                        self@.name,
                        self@.value,
                        views.take(k as int),
                        views[k as int],
                    );
                }
            }
            k = k + 1;
        }
        proof {
            assert(views.take(n as int) =~= views);
        }
        if merged.len() == 0 {
            None
        } else {
            Some(StructuredData::new(self.name, self.owner, merged))
        }
    }
}

impl crate::Random for StructuredData {
    /// A record with a random name and owner and one to a hundred random
    /// values.
    fn generate_random() -> StructuredData {
        let len_byte = crate::crypto::random_bytes(1);
        let size = (len_byte[0] % 100) as usize + 1;
        let mut value: Vec<NameType> = Vec::new();
        let mut i: usize = 0;
        while i < size
            decreases size - i,
        {
            value.push(NameType::generate_random());
            i = i + 1;
        }
        StructuredData::new(NameType::generate_random(), NameType::generate_random(), value)
    }
}

impl PartialEq for StructuredData {
    fn eq(&self, other: &StructuredData) -> (r: bool) {
        if self.name != other.name || self.owner != other.owner {
            return false;
        }
        let p = common_prefix_len(&self.value, &other.value);
        let r = self.value.len() == other.value.len() && p == self.value.len();
        proof {
            lemma_prefix_len_equal(spec_name_views(self.value@), spec_name_views(other.value@));
        }
        r
    }
}

impl vstd::std_specs::cmp::PartialEqSpecImpl for StructuredData {
    open spec fn obeys_eq_spec() -> bool {
        true
    }

    open spec fn eq_spec(&self, other: &StructuredData) -> bool {
        self@.name == other@.name && self@.owner == other@.owner && self@.value == other@.value
    }
}

proof fn lemma_prefix_len_equal(a: Seq<Seq<u8>>, b: Seq<Seq<u8>>)
    ensures
        (a.len() == b.len() && spec_prefix_len(a, b, 0) == a.len()) <==> a == b,
{
    lemma_prefix_len_equal_from(a, b, 0);
    if a.len() == b.len() && spec_prefix_len(a, b, 0) == a.len() {
        assert(a =~= b);
    }
}

proof fn lemma_prefix_len_equal_from(a: Seq<Seq<u8>>, b: Seq<Seq<u8>>, i: int)
    requires
        0 <= i <= a.len(),
        i <= b.len(),
    ensures
        spec_prefix_len(a, b, i) == a.len() && a.len() == b.len() ==> (forall|j: int|
            i <= j < a.len() ==> a[j] == b[j]),
        (forall|j: int| i <= j < a.len() ==> a[j] == b[j]) && a.len() == b.len()
            ==> spec_prefix_len(a, b, i) == a.len(),
    decreases a.len() - i,
{
    if i < a.len() && i < b.len() && a[i] == b[i] {
        lemma_prefix_len_equal_from(a, b, i + 1);
    } else if i < a.len() && i < b.len() {
        lemma_prefix_len_bounds(a, b, i);
    }
}

} // verus!
