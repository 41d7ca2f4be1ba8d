//! The dispatching decoder: it reads the leading tag of a byte stream and
//! routes the payload to the matching variant's decoder.  A tag outside the
//! registry is not an error — the stream comes back as an explicit
//! `Unknown` value, so an older consumer never chokes on a newer producer's
//! variant.

use vstd::prelude::*;
use vstd::bytes::spec_u64_from_le_bytes;
use vstd::bytes::spec_u64_to_le_bytes;
use vstd::bytes::u64_from_le_bytes;
use vstd::slice::slice_subrange;
use crate::codec::DecodeError;
use crate::codec::append_bytes;
use crate::codec::convert_to_u64;
use crate::codec::lemma_read_field_at;
use crate::codec::lemma_u64_ascii_roundtrip;
use crate::codec::read_field;
use crate::codec::spec_field;
use crate::codec::spec_parse_u64;
use crate::codec::spec_read_field;
use crate::codec::spec_u64_to_ascii;
use crate::codec::to_fixed;
use crate::crypto::BoxPublicKey;
use crate::crypto::BoxSecretKey;
use crate::crypto::SignPublicKey;
use crate::crypto::SignSecretKey;
use crate::crypto::Signature;
use crate::crypto::sig_checks;
use crate::crypto::verify_self_signed;
use crate::data_tags::AN_MAID_TAG;
use crate::data_tags::AN_MPID_TAG;
use crate::data_tags::IMMUTABLE_DATA_BACKUP_TAG;
use crate::data_tags::IMMUTABLE_DATA_SACRIFICIAL_TAG;
use crate::data_tags::IMMUTABLE_DATA_TAG;
use crate::data_tags::MAID_TAG;
use crate::data_tags::MPID_TAG;
use crate::data_tags::PUBLIC_MAID_TAG;
use crate::data_tags::PUBLIC_MPID_TAG;
use crate::data_tags::STRUCTURED_DATA_TAG;
use crate::data_tags::spec_registered_tags;
use crate::id_type::IdType;
use crate::id_type::IdTypeV;
use crate::id_type::spec_encode_id_type;
use crate::id_type::spec_id_type_wf;
use crate::immutable_data::ImmutableData;
use crate::immutable_data::spec_encode_tagged_value;
use crate::name_type::NameType;
use crate::public_id_type::PublicIdType;
use crate::public_id_type::PublicIdTypeV;
use crate::public_id_type::spec_encode_public_id;
use crate::public_id_type::spec_public_id_wf;
use crate::public_id_type::spec_signed_payload;
use crate::revocation_id_type::RevocationIdType;
use crate::revocation_id_type::RevocationIdTypeV;
use crate::revocation_id_type::spec_encode_revocation;
use crate::revocation_id_type::spec_revocation_wf;
use crate::structured_data::StructuredData;
use crate::structured_data::StructuredDataV;
use crate::structured_data::spec_chunk_names;
use crate::structured_data::spec_concat_names;
use crate::structured_data::spec_encode_structured;
use crate::structured_data::spec_structured_wf;

verus! {

/// Everything a byte stream can decode to: one case per registered variant,
/// and `Unknown` for any tag outside the registry.
#[derive(Debug)]
pub enum Parser {
    /// A structured record.
    StructData(StructuredData),
    /// A content block.
    ImmutData(ImmutableData),
    /// A content block carried under the backup tag.
    ImmutDataBkup(ImmutableData),
    /// A content block carried under the sacrificial tag.
    ImmutDataSacrificial(ImmutableData),
    /// A storage identity's key pairs.
    Maid(IdType),
    /// A communication identity's key pairs.
    Mpid(IdType),
    /// A storage identity's revocation key.
    AnMaid(RevocationIdType),
    /// A communication identity's revocation key.
    AnMpid(RevocationIdType),
    /// A storage identity's public record.
    PubMaid(PublicIdType),
    /// A communication identity's public record.
    PubMpid(PublicIdType),
    /// A value whose tag is not in the registry, carried unharmed.
    Unknown(u64),
}

/// The mathematical model of a decoded value.
pub enum ParserV {
    /// A structured record.
    StructData(StructuredDataV),
    /// A content block's payload.
    ImmutData(Seq<u8>),
    /// A backup block's payload.
    ImmutDataBkup(Seq<u8>),
    /// A sacrificial block's payload.
    ImmutDataSacrificial(Seq<u8>),
    /// A storage identity's key pairs.
    Maid(IdTypeV),
    /// A communication identity's key pairs.
    Mpid(IdTypeV),
    /// A storage identity's revocation key.
    AnMaid(RevocationIdTypeV),
    /// A communication identity's revocation key.
    AnMpid(RevocationIdTypeV),
    /// A storage identity's public record.
    PubMaid(PublicIdTypeV),
    /// A communication identity's public record.
    PubMpid(PublicIdTypeV),
    /// A value whose tag is not in the registry.
    Unknown(u64),
}

impl View for Parser {
    type V = ParserV;

    open spec fn view(&self) -> ParserV {
        match self {
            Parser::StructData(s) => ParserV::StructData(s@),
            Parser::ImmutData(d) => ParserV::ImmutData(d@),
            Parser::ImmutDataBkup(d) => ParserV::ImmutDataBkup(d@),
            Parser::ImmutDataSacrificial(d) => ParserV::ImmutDataSacrificial(d@),
            Parser::Maid(i) => ParserV::Maid(i@),
            Parser::Mpid(i) => ParserV::Mpid(i@),
            Parser::AnMaid(a) => ParserV::AnMaid(a@),
            Parser::AnMpid(a) => ParserV::AnMpid(a@),
            Parser::PubMaid(p) => ParserV::PubMaid(p@),
            Parser::PubMpid(p) => ParserV::PubMpid(p@),
            Parser::Unknown(t) => ParserV::Unknown(*t),
        }
    }
}

/// Decodes a content block's payload: one field, ending the stream.
pub open spec fn spec_decode_value_body(s: Seq<u8>, tag: u64) -> Result<Seq<u8>, DecodeError> {
    match spec_read_field(s, 8) {
        Some(p) => if p.1 == s.len() {
            Ok(p.0)
        } else {
            Err(DecodeError::BadSize(tag))
        },
        None => Err(DecodeError::BadSize(tag)),
    }
}

/// Decodes a structured record's payload: a 64-byte name, a 64-byte owner,
/// and the values laid end to end in whole 64-byte identifiers.
pub open spec fn spec_decode_structured_body(s: Seq<u8>) -> Result<StructuredDataV, DecodeError> {
    let tag = STRUCTURED_DATA_TAG;
    match spec_read_field(s, 8) {
        None => Err(DecodeError::BadSize(tag)),
        Some(f1) => match spec_read_field(s, f1.1) {
            None => Err(DecodeError::BadSize(tag)),
            Some(f2) => match spec_read_field(s, f2.1) {
                None => Err(DecodeError::BadSize(tag)),
                Some(f3) => if f3.1 == s.len() && f1.0.len() == 64 && f2.0.len() == 64 && f3.0.len()
                    % 64 == 0 {
                    Ok(
                        StructuredDataV {
                            name: f1.0,
                            owner: f2.0,
                            value: spec_chunk_names(f3.0),
                        },
                    )
                } else {
                    Err(DecodeError::BadSize(tag))
                },
            },
        },
    }
}

/// Decodes an identity's key pairs: the two public keys and the two secret
/// keys, each with its primitive's exact length.
pub open spec fn spec_decode_id_body(s: Seq<u8>, tag: u64) -> Result<IdTypeV, DecodeError> {
    match spec_read_field(s, 8) {
        None => Err(DecodeError::BadSize(tag)),
        Some(f1) => match spec_read_field(s, f1.1) {
            None => Err(DecodeError::BadSize(tag)),
            Some(f2) => match spec_read_field(s, f2.1) {
                None => Err(DecodeError::BadSize(tag)),
                Some(f3) => match spec_read_field(s, f3.1) {
                    None => Err(DecodeError::BadSize(tag)),
                    Some(f4) => if f4.1 == s.len() && f1.0.len() == 32 && f2.0.len() == 32
                        && f3.0.len() == 64 && f4.0.len() == 32 {
                        Ok(
                            IdTypeV {
                                type_tag: tag,
                                public_keys: (f1.0, f2.0),
                                secret_keys: (f3.0, f4.0),
                            },
                        )
                    } else {
                        Err(DecodeError::BadSize(tag))
                    },
                },
            },
        },
    }
}

/// Decodes a revocation key: the family's three tags as decimal text, then
/// the public and secret keys.  Wrong sizes come first, then a tag field
/// that is not a decimal number.
pub open spec fn spec_decode_revocation_body(s: Seq<u8>, tag: u64) -> Result<
    RevocationIdTypeV,
    DecodeError,
> {
    match spec_read_field(s, 8) {
        None => Err(DecodeError::BadSize(tag)),
        Some(f1) => match spec_read_field(s, f1.1) {
            None => Err(DecodeError::BadSize(tag)),
            Some(f2) => match spec_read_field(s, f2.1) {
                None => Err(DecodeError::BadSize(tag)),
                Some(f3) => match spec_read_field(s, f3.1) {
                    None => Err(DecodeError::BadSize(tag)),
                    Some(f4) => match spec_read_field(s, f4.1) {
                        None => Err(DecodeError::BadSize(tag)),
                        Some(f5) => if !(f5.1 == s.len() && f4.0.len() == 32 && f5.0.len() == 64) {
                            Err(DecodeError::BadSize(tag))
                        } else {
                            match (spec_parse_u64(f1.0), spec_parse_u64(f2.0), spec_parse_u64(
                                f3.0,
                            )) {
                                (Some(t0), Some(t1), Some(t2)) => Ok(
                                    RevocationIdTypeV {
                                        type_tags: (t0, t1, t2),
                                        public_key: f4.0,
                                        secret_key: f5.0,
                                    },
                                ),
                                _ => Err(DecodeError::BadTag),
                            }
                        },
                    },
                },
            },
        },
    }
}

/// Decodes a public identity record: the record's tag as decimal text, the
/// two public keys, the revocation public key and the self-signature.  Wrong
/// sizes come first, then a malformed tag, and last the signature check:
/// the embedded signature must attest to the record's own keys and tag under
/// the record's own revocation key.
pub open spec fn spec_decode_public_id_body(s: Seq<u8>, tag: u64) -> Result<
    PublicIdTypeV,
    DecodeError,
> {
    match spec_read_field(s, 8) {
        None => Err(DecodeError::BadSize(tag)),
        Some(f1) => match spec_read_field(s, f1.1) {
            None => Err(DecodeError::BadSize(tag)),
            Some(f2) => match spec_read_field(s, f2.1) {
                None => Err(DecodeError::BadSize(tag)),
                Some(f3) => match spec_read_field(s, f3.1) {
                    None => Err(DecodeError::BadSize(tag)),
                    Some(f4) => match spec_read_field(s, f4.1) {
                        None => Err(DecodeError::BadSize(tag)),
                        Some(f5) => if !(f5.1 == s.len() && f2.0.len() == 32 && f3.0.len() == 32
                            && f4.0.len() == 32 && f5.0.len() == 64) {
                            Err(DecodeError::BadSize(tag))
                        } else {
                            match spec_parse_u64(f1.0) {
                                None => Err(DecodeError::BadTag),
                                Some(t) => if sig_checks(f5.0, f2.0 + f3.0 + f4.0 + f1.0, f4.0) {
                                    Ok(
                                        PublicIdTypeV {
                                            type_tag: t,
                                            public_keys: (f2.0, f3.0),
                                            revocation_public_key: f4.0,
                                            signature: f5.0,
                                        },
                                    )
                                } else {
                                    Err(DecodeError::BadSignature)
                                },
                            }
                        },
                    },
                },
            },
        },
    }
}

/// What a byte stream decodes to: the leading tag picks the variant's
/// decoder, and a tag outside the registry gives `Unknown`.  A stream too
/// short to hold a tag fails with `BadTag`.
pub open spec fn spec_decode(s: Seq<u8>) -> Result<ParserV, DecodeError> {
    if s.len() < 8 {
        Err(DecodeError::BadTag)
    } else {
        let tag = spec_u64_from_le_bytes(s.subrange(0, 8));
        if tag == IMMUTABLE_DATA_TAG {
            match spec_decode_value_body(s, tag) {
                Ok(v) => Ok(ParserV::ImmutData(v)),
                Err(e) => Err(e),
            }
        } else if tag == IMMUTABLE_DATA_BACKUP_TAG {
            match spec_decode_value_body(s, tag) {
                Ok(v) => Ok(ParserV::ImmutDataBkup(v)),
                Err(e) => Err(e),
            }
        } else if tag == IMMUTABLE_DATA_SACRIFICIAL_TAG {
            match spec_decode_value_body(s, tag) {
                Ok(v) => Ok(ParserV::ImmutDataSacrificial(v)),
                Err(e) => Err(e),
            }
        } else if tag == STRUCTURED_DATA_TAG {
            match spec_decode_structured_body(s) {
                Ok(v) => Ok(ParserV::StructData(v)),
                Err(e) => Err(e),
            }
        } else if tag == MAID_TAG {
            match spec_decode_id_body(s, tag) {
                Ok(v) => Ok(ParserV::Maid(v)),
                Err(e) => Err(e),
            }
        } else if tag == MPID_TAG {
            match spec_decode_id_body(s, tag) {
                Ok(v) => Ok(ParserV::Mpid(v)),
                Err(e) => Err(e),
            }
        } else if tag == AN_MAID_TAG {
            match spec_decode_revocation_body(s, tag) {
                Ok(v) => Ok(ParserV::AnMaid(v)),
                Err(e) => Err(e),
            }
        } else if tag == AN_MPID_TAG {
            match spec_decode_revocation_body(s, tag) {
                Ok(v) => Ok(ParserV::AnMpid(v)),
                Err(e) => Err(e),
            }
        } else if tag == PUBLIC_MAID_TAG {
            match spec_decode_public_id_body(s, tag) {
                Ok(v) => Ok(ParserV::PubMaid(v)),
                Err(e) => Err(e),
            }
        } else if tag == PUBLIC_MPID_TAG {
            match spec_decode_public_id_body(s, tag) {
                Ok(v) => Ok(ParserV::PubMpid(v)),
                Err(e) => Err(e),
            }
        } else {
            Ok(ParserV::Unknown(tag))
        }
    }
}

/// Decodes one field that must end the stream.
fn decode_value_body(bytes: &[u8], tag: u64) -> (r: Result<Vec<u8>, DecodeError>)
    requires
        bytes@.len() >= 8,
    ensures
        r matches Ok(v) ==> spec_decode_value_body(bytes@, tag) == Ok::<Seq<u8>, DecodeError>(v@),
        r matches Err(e) ==> spec_decode_value_body(bytes@, tag) == Err::<Seq<u8>, DecodeError>(e),
{
    match read_field(bytes, 8) {
        None => Err(DecodeError::BadSize(tag)),
        Some((v, end)) => {
            if end == bytes.len() {
                Ok(v)
            } else {
                Err(DecodeError::BadSize(tag))
            }
        },
    }
}

/// Decodes a structured record's payload.
fn decode_structured_body(bytes: &[u8]) -> (r: Result<StructuredData, DecodeError>)
    requires
        bytes@.len() >= 8,
    ensures
        r matches Ok(s) ==> spec_decode_structured_body(bytes@) == Ok::<
            StructuredDataV,
            DecodeError,
        >(s@),
        r matches Err(e) ==> spec_decode_structured_body(bytes@) == Err::<
            StructuredDataV,
            DecodeError,
        >(e),
{
    let tag = STRUCTURED_DATA_TAG;
    let (name_bytes, p1) = match read_field(bytes, 8) {
        None => {
            return Err(DecodeError::BadSize(tag));
        },
        Some(f) => f,
    };
    let (owner_bytes, p2) = match read_field(bytes, p1) {
        None => {
            return Err(DecodeError::BadSize(tag));
        },
        Some(f) => f,
    };
    let (ids, p3) = match read_field(bytes, p2) {
        None => {
            return Err(DecodeError::BadSize(tag));
        },
        Some(f) => f,
    };
    if !(p3 == bytes.len() && name_bytes.len() == 64 && owner_bytes.len() == 64 && ids.len() % 64
        == 0) {
        return Err(DecodeError::BadSize(tag));
    }
    let name_arr = match to_fixed::<64>(name_bytes.as_slice()) {
        Ok(a) => a,
        Err(_) => {
            return Err(DecodeError::BadSize(tag));
        },
    };
    let owner_arr = match to_fixed::<64>(owner_bytes.as_slice()) {
        Ok(a) => a,
        Err(_) => {
            return Err(DecodeError::BadSize(tag));
        },
    };
    let total = ids.len();
    let count = total / 64;
    proof {
        vstd::arithmetic::div_mod::lemma_fundamental_div_mod(ids@.len() as int, 64);
    }
    let mut value: Vec<NameType> = Vec::new();
    let mut i: usize = 0;
    while i < count
        invariant
            total == ids@.len(),
            count == ids@.len() / 64,
            64 * count == total,
            0 <= i <= count,
            crate::structured_data::spec_name_views(value@) =~= spec_chunk_names(ids@).take(
                i as int,
            ),
        decreases count - i,
    {
        proof {
            assert(64 * (i + 1) <= 64 * count) by (nonlinear_arith)
                requires
                    i + 1 <= count,
            ;
            assert(64 * (i as int) >= 0) by (nonlinear_arith)
                requires
                    i >= 0,
            ;
        }
        let chunk = slice_subrange(ids.as_slice(), 64 * i, 64 * i + 64);
        let arr = match to_fixed::<64>(chunk) {
            Ok(a) => a,
            Err(_) => {
                proof {
                    assert(false);
                }
                return Err(DecodeError::BadSize(tag));
            },
        };
        value.push(NameType(arr));
        proof {
            let views = crate::structured_data::spec_name_views(value@);
            assert(views.drop_last() =~= crate::structured_data::spec_name_views(
                value@.drop_last(),
            ));
            assert(spec_chunk_names(ids@).take(i + 1) =~= spec_chunk_names(ids@).take(i as int)
                + seq![spec_chunk_names(ids@)[i as int]]);
            assert(views =~= spec_chunk_names(ids@).take(i + 1));
        }
        i = i + 1;
    }
    proof {
        assert(spec_chunk_names(ids@).take(count as int) =~= spec_chunk_names(ids@));
    }
    Ok(StructuredData::new(NameType(name_arr), NameType(owner_arr), value))
}

/// Decodes an identity's key pairs.
fn decode_id_body(bytes: &[u8], tag: u64) -> (r: Result<IdType, DecodeError>)
    requires
        bytes@.len() >= 8,
    ensures
        r matches Ok(v) ==> spec_decode_id_body(bytes@, tag) == Ok::<IdTypeV, DecodeError>(v@),
        r matches Err(e) ==> spec_decode_id_body(bytes@, tag) == Err::<IdTypeV, DecodeError>(e),
{
    let (pub_sign, p1) = match read_field(bytes, 8) {
        None => {
            return Err(DecodeError::BadSize(tag));
        },
        Some(f) => f,
    };
    let (pub_box, p2) = match read_field(bytes, p1) {
        None => {
            return Err(DecodeError::BadSize(tag));
        },
        Some(f) => f,
    };
    let (sec_sign, p3) = match read_field(bytes, p2) {
        None => {
            return Err(DecodeError::BadSize(tag));
        },
        Some(f) => f,
    };
    let (sec_box, p4) = match read_field(bytes, p3) {
        None => {
            return Err(DecodeError::BadSize(tag));
        },
        Some(f) => f,
    };
    if !(p4 == bytes.len() && pub_sign.len() == 32 && pub_box.len() == 32 && sec_sign.len() == 64
        && sec_box.len() == 32) {
        return Err(DecodeError::BadSize(tag));
    }
    let a0 = match to_fixed::<32>(pub_sign.as_slice()) {
        Ok(a) => a,
        Err(_) => {
            return Err(DecodeError::BadSize(tag));
        },
    };
    let a1 = match to_fixed::<32>(pub_box.as_slice()) {
        Ok(a) => a,
        Err(_) => {
            return Err(DecodeError::BadSize(tag));
        },
    };
    let a2 = match to_fixed::<64>(sec_sign.as_slice()) {
        Ok(a) => a,
        Err(_) => {
            return Err(DecodeError::BadSize(tag));
        },
    };
    let a3 = match to_fixed::<32>(sec_box.as_slice()) {
        Ok(a) => a,
        Err(_) => {
            return Err(DecodeError::BadSize(tag));
        },
    };
    Ok(
        IdType::from_parts(
            tag,
            (SignPublicKey(a0), BoxPublicKey(a1)),
            (SignSecretKey(a2), BoxSecretKey(a3)),
        ),
    )
}

/// Decodes a revocation key.
fn decode_revocation_body(bytes: &[u8], tag: u64) -> (r: Result<RevocationIdType, DecodeError>)
    requires
        bytes@.len() >= 8,
    ensures
        r matches Ok(v) ==> spec_decode_revocation_body(bytes@, tag) == Ok::<
            RevocationIdTypeV,
            DecodeError,
        >(v@),
        r matches Err(e) ==> spec_decode_revocation_body(bytes@, tag) == Err::<
            RevocationIdTypeV,
            DecodeError,
        >(e),
{
    let (t0_bytes, p1) = match read_field(bytes, 8) {
        None => {
            return Err(DecodeError::BadSize(tag));
        },
        Some(f) => f,
    };
    let (t1_bytes, p2) = match read_field(bytes, p1) {
        None => {
            return Err(DecodeError::BadSize(tag));
        },
        Some(f) => f,
    };
    let (t2_bytes, p3) = match read_field(bytes, p2) {
        None => {
            return Err(DecodeError::BadSize(tag));
        },
        Some(f) => f,
    };
    let (pk, p4) = match read_field(bytes, p3) {
        None => {
            return Err(DecodeError::BadSize(tag));
        },
        Some(f) => f,
    };
    let (sk, p5) = match read_field(bytes, p4) {
        None => {
            return Err(DecodeError::BadSize(tag));
        },
        Some(f) => f,
    };
    if !(p5 == bytes.len() && pk.len() == 32 && sk.len() == 64) {
        return Err(DecodeError::BadSize(tag));
    }
    let pk_arr = match to_fixed::<32>(pk.as_slice()) {
        Ok(a) => a,
        Err(_) => {
            return Err(DecodeError::BadSize(tag));
        },
    };
    let sk_arr = match to_fixed::<64>(sk.as_slice()) {
        Ok(a) => a,
        Err(_) => {
            return Err(DecodeError::BadSize(tag));
        },
    };
    let t0 = match convert_to_u64(t0_bytes) {
        None => {
            return Err(DecodeError::BadTag);
        },
        Some(t) => t,
    };
    let t1 = match convert_to_u64(t1_bytes) {
        None => {
            return Err(DecodeError::BadTag);
        },
        Some(t) => t,
    };
    let t2 = match convert_to_u64(t2_bytes) {
        None => {
            return Err(DecodeError::BadTag);
        },
        Some(t) => t,
    };
    Ok(RevocationIdType::from_parts((t0, t1, t2), SignPublicKey(pk_arr), SignSecretKey(sk_arr)))
}

/// Decodes a public identity record, checking its self-signature.
fn decode_public_id_body(bytes: &[u8], tag: u64) -> (r: Result<PublicIdType, DecodeError>)
    requires
        bytes@.len() >= 8,
    ensures
        r matches Ok(v) ==> spec_decode_public_id_body(bytes@, tag) == Ok::<
            PublicIdTypeV,
            DecodeError,
        >(v@),
        r matches Err(e) ==> spec_decode_public_id_body(bytes@, tag) == Err::<
            PublicIdTypeV,
            DecodeError,
        >(e),
{
    let (tag_text, p1) = match read_field(bytes, 8) {
        None => {
            return Err(DecodeError::BadSize(tag));
        },
        Some(f) => f,
    };
    let (pub_sign, p2) = match read_field(bytes, p1) {
        None => {
            return Err(DecodeError::BadSize(tag));
        },
        Some(f) => f,
    };
    let (pub_box, p3) = match read_field(bytes, p2) {
        None => {
            return Err(DecodeError::BadSize(tag));
        },
        Some(f) => f,
    };
    let (rev, p4) = match read_field(bytes, p3) {
        None => {
            return Err(DecodeError::BadSize(tag));
        },
        Some(f) => f,
    };
    let (sig, p5) = match read_field(bytes, p4) {
        None => {
            return Err(DecodeError::BadSize(tag));
        },
        Some(f) => f,
    };
    if !(p5 == bytes.len() && pub_sign.len() == 32 && pub_box.len() == 32 && rev.len() == 32
        && sig.len() == 64) {
        return Err(DecodeError::BadSize(tag));
    }
    let a_sign = match to_fixed::<32>(pub_sign.as_slice()) {
        Ok(a) => a,
        Err(_) => {
            return Err(DecodeError::BadSize(tag));
        },
    };
    let a_box = match to_fixed::<32>(pub_box.as_slice()) {
        Ok(a) => a,
        Err(_) => {
            return Err(DecodeError::BadSize(tag));
        },
    };
    let a_rev = match to_fixed::<32>(rev.as_slice()) {
        Ok(a) => a,
        Err(_) => {
            return Err(DecodeError::BadSize(tag));
        },
    };
    let a_sig = match to_fixed::<64>(sig.as_slice()) {
        Ok(a) => a,
        Err(_) => {
            return Err(DecodeError::BadSize(tag));
        },
    };
    let revocation_key = SignPublicKey(a_rev);
    let signature = Signature(a_sig);
    let mut payload = crate::codec::from_fixed(&a_sign);
    append_bytes(&mut payload, a_box.as_slice());
    append_bytes(&mut payload, a_rev.as_slice());
    append_bytes(&mut payload, tag_text.as_slice());
    let parsed_tag = match convert_to_u64(tag_text) {
        None => {
            return Err(DecodeError::BadTag);
        },
        Some(t) => t,
    };
    if !verify_self_signed(&revocation_key, &signature, payload.as_slice()) {
        return Err(DecodeError::BadSignature);
    }
    Ok(
        PublicIdType::from_parts(
            parsed_tag,
            (SignPublicKey(a_sign), BoxPublicKey(a_box)),
            revocation_key,
            signature,
        ),
    )
}

impl Parser {
    /// Decodes a byte stream: reads the leading tag, routes the payload to
    /// the matching variant's decoder, and hands back `Unknown` for any tag
    /// outside the registry.  One malformed stream never affects another
    /// call: the decoder holds no state.
    pub fn decode(bytes: &[u8]) -> (r: Result<Parser, DecodeError>)
        ensures
            r matches Ok(p) ==> spec_decode(bytes@) == Ok::<ParserV, DecodeError>(p@),
            r matches Err(e) ==> spec_decode(bytes@) == Err::<ParserV, DecodeError>(e),
    {
        if bytes.len() < 8 {
            return Err(DecodeError::BadTag);
        }
        let tag = u64_from_le_bytes(slice_subrange(bytes, 0, 8));
        if tag == IMMUTABLE_DATA_TAG {
            match decode_value_body(bytes, tag) {
                Ok(v) => Ok(Parser::ImmutData(ImmutableData::new(v))),
                Err(e) => Err(e),
            }
        } else if tag == IMMUTABLE_DATA_BACKUP_TAG {
            match decode_value_body(bytes, tag) {
                Ok(v) => Ok(Parser::ImmutDataBkup(ImmutableData::new(v))),
                Err(e) => Err(e),
            }
        } else if tag == IMMUTABLE_DATA_SACRIFICIAL_TAG {
            match decode_value_body(bytes, tag) {
                Ok(v) => Ok(Parser::ImmutDataSacrificial(ImmutableData::new(v))),
                Err(e) => Err(e),
            }
        } else if tag == STRUCTURED_DATA_TAG {
            match decode_structured_body(bytes) {
                Ok(v) => Ok(Parser::StructData(v)),
                Err(e) => Err(e),
            }
        } else if tag == MAID_TAG {
            match decode_id_body(bytes, tag) {
                Ok(v) => Ok(Parser::Maid(v)),
                Err(e) => Err(e),
            }
        } else if tag == MPID_TAG {
            match decode_id_body(bytes, tag) {
                Ok(v) => Ok(Parser::Mpid(v)),
                Err(e) => Err(e),
            }
        } else if tag == AN_MAID_TAG {
            match decode_revocation_body(bytes, tag) {
                Ok(v) => Ok(Parser::AnMaid(v)),
                Err(e) => Err(e),
            }
        } else if tag == AN_MPID_TAG {
            match decode_revocation_body(bytes, tag) {
                Ok(v) => Ok(Parser::AnMpid(v)),
                Err(e) => Err(e),
            }
        } else if tag == PUBLIC_MAID_TAG {
            match decode_public_id_body(bytes, tag) {
                Ok(v) => Ok(Parser::PubMaid(v)),
                Err(e) => Err(e),
            }
        } else if tag == PUBLIC_MPID_TAG {
            match decode_public_id_body(bytes, tag) {
                Ok(v) => Ok(Parser::PubMpid(v)),
                Err(e) => Err(e),
            }
        } else {
            Ok(Parser::Unknown(tag))
        }
    }
}

proof fn lemma_tag_prefix(tag: u64, rest: Seq<u8>)
    ensures
        (spec_u64_to_le_bytes(tag) + rest).len() == 8 + rest.len(),
        spec_u64_from_le_bytes((spec_u64_to_le_bytes(tag) + rest).subrange(0, 8)) == tag,
{
    vstd::bytes::lemma_auto_spec_u64_to_from_le_bytes();
    assert((spec_u64_to_le_bytes(tag) + rest).subrange(0, 8) =~= spec_u64_to_le_bytes(tag));
}

/// Round trip for the content-block variants: a payload encoded under any of
/// the three content-block tags decodes back unchanged, under the variant
/// that belongs to the tag.
pub proof fn lemma_round_trip_immutable(value: Seq<u8>, tag: u64)
    requires
        value.len() <= u64::MAX,
        tag == IMMUTABLE_DATA_TAG || tag == IMMUTABLE_DATA_BACKUP_TAG || tag
            == IMMUTABLE_DATA_SACRIFICIAL_TAG,
    ensures
        tag == IMMUTABLE_DATA_TAG ==> spec_decode(spec_encode_tagged_value(tag, value)) == Ok::<
            ParserV,
            DecodeError,
        >(ParserV::ImmutData(value)),
        tag == IMMUTABLE_DATA_BACKUP_TAG ==> spec_decode(spec_encode_tagged_value(tag, value))
            == Ok::<ParserV, DecodeError>(ParserV::ImmutDataBkup(value)),
        tag == IMMUTABLE_DATA_SACRIFICIAL_TAG ==> spec_decode(spec_encode_tagged_value(tag, value))
            == Ok::<ParserV, DecodeError>(ParserV::ImmutDataSacrificial(value)),
{
    vstd::bytes::lemma_auto_spec_u64_to_from_le_bytes();
    let tagb = spec_u64_to_le_bytes(tag);
    let s = spec_encode_tagged_value(tag, value);
    lemma_tag_prefix(tag, spec_field(value));
    assert(s =~= tagb + spec_field(value) + Seq::<u8>::empty());
    lemma_read_field_at(tagb, value, Seq::<u8>::empty());
}

proof fn lemma_concat_names_len(v: Seq<Seq<u8>>)
    requires
        forall|i: int| 0 <= i < v.len() ==> (#[trigger] v[i]).len() == 64,
    ensures
        spec_concat_names(v).len() == 64 * v.len(),
    decreases v.len(),
{
    if v.len() > 0 {
        lemma_concat_names_len(v.drop_last());
    }
}

proof fn lemma_chunk_of_concat(v: Seq<Seq<u8>>)
    requires
        forall|i: int| 0 <= i < v.len() ==> (#[trigger] v[i]).len() == 64,
    ensures
        spec_chunk_names(spec_concat_names(v)) == v,
    decreases v.len(),
{
    lemma_concat_names_len(v);
    let c = spec_concat_names(v);
    vstd::arithmetic::div_mod::lemma_div_multiples_vanish(v.len() as int, 64);
    assert(c.len() / 64 == v.len());
    if v.len() == 0 {
        assert(spec_chunk_names(c) =~= v);
    } else {
        let u = v.drop_last();
        lemma_chunk_of_concat(u);
        lemma_concat_names_len(u);
        let cu = spec_concat_names(u);
        assert forall|i: int| 0 <= i < v.len() implies spec_chunk_names(c)[i] == v[i] by {
            if i < u.len() {
                assert(c.subrange(64 * i, 64 * i + 64) =~= cu.subrange(64 * i, 64 * i + 64));
                assert(spec_chunk_names(cu)[i] == cu.subrange(64 * i, 64 * i + 64));
                assert(spec_chunk_names(cu)[i] == u[i]);
            } else {
                assert(c.subrange(64 * i, 64 * i + 64) =~= v.last());
            }
        }
        assert(spec_chunk_names(c) =~= v);
    }
}

/// Round trip for structured records: a well-formed record decodes from its
/// own encoding unchanged.
pub proof fn lemma_round_trip_structured(v: StructuredDataV)
    requires
        spec_structured_wf(v),
    ensures
        spec_decode(spec_encode_structured(v)) == Ok::<ParserV, DecodeError>(
            ParserV::StructData(v),
        ),
{
    vstd::bytes::lemma_auto_spec_u64_to_from_le_bytes();
    let tagb = spec_u64_to_le_bytes(STRUCTURED_DATA_TAG);
    let c = spec_concat_names(v.value);
    lemma_concat_names_len(v.value);
    lemma_chunk_of_concat(v.value);
    vstd::arithmetic::div_mod::lemma_mod_multiples_basic(v.value.len() as int, 64);
    assert(c.len() % 64 == 0);
    let s = spec_encode_structured(v);
    lemma_tag_prefix(STRUCTURED_DATA_TAG, spec_field(v.name) + spec_field(v.owner) + spec_field(c));
    assert(s =~= tagb + (spec_field(v.name) + spec_field(v.owner) + spec_field(c)));
    assert(s =~= tagb + spec_field(v.name) + (spec_field(v.owner) + spec_field(c)));
    lemma_read_field_at(tagb, v.name, spec_field(v.owner) + spec_field(c));
    let base2 = tagb + spec_field(v.name);
    assert(s =~= base2 + spec_field(v.owner) + spec_field(c));
    lemma_read_field_at(base2, v.owner, spec_field(c));
    let base3 = base2 + spec_field(v.owner);
    assert(s =~= base3 + spec_field(c) + Seq::<u8>::empty());
    lemma_read_field_at(base3, c, Seq::<u8>::empty());
}

/// Round trip for an identity's key pairs: a well-formed value carrying one
/// of the two key-pair tags decodes from its own encoding unchanged.
pub proof fn lemma_round_trip_id_type(v: IdTypeV)
    requires
        spec_id_type_wf(v),
        v.type_tag == MAID_TAG || v.type_tag == MPID_TAG,
    ensures
        v.type_tag == MAID_TAG ==> spec_decode(spec_encode_id_type(v)) == Ok::<
            ParserV,
            DecodeError,
        >(ParserV::Maid(v)),
        v.type_tag == MPID_TAG ==> spec_decode(spec_encode_id_type(v)) == Ok::<
            ParserV,
            DecodeError,
        >(ParserV::Mpid(v)),
{
    vstd::bytes::lemma_auto_spec_u64_to_from_le_bytes();
    let tagb = spec_u64_to_le_bytes(v.type_tag);
    let f1 = spec_field(v.public_keys.0);
    let f2 = spec_field(v.public_keys.1);
    let f3 = spec_field(v.secret_keys.0);
    let f4 = spec_field(v.secret_keys.1);
    let s = spec_encode_id_type(v);
    lemma_tag_prefix(v.type_tag, f1 + f2 + f3 + f4);
    assert(s =~= tagb + (f1 + f2 + f3 + f4));
    assert(s =~= tagb + f1 + (f2 + f3 + f4));
    lemma_read_field_at(tagb, v.public_keys.0, f2 + f3 + f4);
    let base2 = tagb + f1;
    assert(s =~= base2 + f2 + (f3 + f4));
    lemma_read_field_at(base2, v.public_keys.1, f3 + f4);
    let base3 = base2 + f2;
    assert(s =~= base3 + f3 + f4);
    lemma_read_field_at(base3, v.secret_keys.0, f4);
    let base4 = base3 + f3;
    assert(s =~= base4 + f4 + Seq::<u8>::empty());
    lemma_read_field_at(base4, v.secret_keys.1, Seq::<u8>::empty());
}

/// Round trip for revocation keys: a well-formed value carrying one of the
/// two revocation tags decodes from its own encoding unchanged.
#[verifier::rlimit(100)]
pub proof fn lemma_round_trip_revocation(v: RevocationIdTypeV)
    requires
        spec_revocation_wf(v),
        v.type_tags.0 == AN_MAID_TAG || v.type_tags.0 == AN_MPID_TAG,
    ensures
        v.type_tags.0 == AN_MAID_TAG ==> spec_decode(spec_encode_revocation(v)) == Ok::<
            ParserV,
            DecodeError,
        >(ParserV::AnMaid(v)),
        v.type_tags.0 == AN_MPID_TAG ==> spec_decode(spec_encode_revocation(v)) == Ok::<
            ParserV,
            DecodeError,
        >(ParserV::AnMpid(v)),
{
    vstd::bytes::lemma_auto_spec_u64_to_from_le_bytes();
    let tagb = spec_u64_to_le_bytes(v.type_tags.0);
    let a0 = spec_u64_to_ascii(v.type_tags.0);
    let a1 = spec_u64_to_ascii(v.type_tags.1);
    let a2 = spec_u64_to_ascii(v.type_tags.2);
    lemma_u64_ascii_roundtrip(v.type_tags.0);
    lemma_u64_ascii_roundtrip(v.type_tags.1);
    lemma_u64_ascii_roundtrip(v.type_tags.2);
    let f1 = spec_field(a0);
    let f2 = spec_field(a1);
    let f3 = spec_field(a2);
    let f4 = spec_field(v.public_key);
    let f5 = spec_field(v.secret_key);
    let s = spec_encode_revocation(v);
    lemma_tag_prefix(v.type_tags.0, f1 + f2 + f3 + f4 + f5);
    assert(s =~= tagb + (f1 + f2 + f3 + f4 + f5));
    assert(s =~= tagb + f1 + (f2 + f3 + f4 + f5));
    lemma_read_field_at(tagb, a0, f2 + f3 + f4 + f5);
    let base2 = tagb + f1;
    assert(s =~= base2 + f2 + (f3 + f4 + f5));
    lemma_read_field_at(base2, a1, f3 + f4 + f5);
    let base3 = base2 + f2;
    assert(s =~= base3 + f3 + (f4 + f5));
    lemma_read_field_at(base3, a2, f4 + f5);
    let base4 = base3 + f3;
    assert(s =~= base4 + f4 + f5);
    lemma_read_field_at(base4, v.public_key, f5);
    let base5 = base4 + f4;
    assert(s =~= base5 + f5 + Seq::<u8>::empty());
    lemma_read_field_at(base5, v.secret_key, Seq::<u8>::empty());
}

proof fn lemma_public_id_body(v: PublicIdTypeV)
    requires
        spec_public_id_wf(v),
    ensures
        spec_decode_public_id_body(spec_encode_public_id(v), v.type_tag) == (if sig_checks(
            v.signature,
            spec_signed_payload(
                v.public_keys.0,
                v.public_keys.1,
                v.revocation_public_key,
                v.type_tag,
            ),
            v.revocation_public_key,
        ) {
            Ok::<PublicIdTypeV, DecodeError>(v)
        } else {
            Err::<PublicIdTypeV, DecodeError>(DecodeError::BadSignature)
        }),
        spec_encode_public_id(v).len() >= 8,
        spec_u64_from_le_bytes(spec_encode_public_id(v).subrange(0, 8)) == v.type_tag,
{
    vstd::bytes::lemma_auto_spec_u64_to_from_le_bytes();
    let tagb = spec_u64_to_le_bytes(v.type_tag);
    let a0 = spec_u64_to_ascii(v.type_tag);
    lemma_u64_ascii_roundtrip(v.type_tag);
    let f1 = spec_field(a0);
    let f2 = spec_field(v.public_keys.0);
    let f3 = spec_field(v.public_keys.1);
    let f4 = spec_field(v.revocation_public_key);
    let f5 = spec_field(v.signature);
    let s = spec_encode_public_id(v);
    lemma_tag_prefix(v.type_tag, f1 + f2 + f3 + f4 + f5);
    assert(s =~= tagb + (f1 + f2 + f3 + f4 + f5));
    assert(s =~= tagb + f1 + (f2 + f3 + f4 + f5));
    lemma_read_field_at(tagb, a0, f2 + f3 + f4 + f5);
    let base2 = tagb + f1;
    assert(s =~= base2 + f2 + (f3 + f4 + f5));
    lemma_read_field_at(base2, v.public_keys.0, f3 + f4 + f5);
    let base3 = base2 + f2;
    assert(s =~= base3 + f3 + (f4 + f5));
    lemma_read_field_at(base3, v.public_keys.1, f4 + f5);
    let base4 = base3 + f3;
    assert(s =~= base4 + f4 + f5);
    lemma_read_field_at(base4, v.revocation_public_key, f5);
    let base5 = base4 + f4;
    assert(s =~= base5 + f5 + Seq::<u8>::empty());
    lemma_read_field_at(base5, v.signature, Seq::<u8>::empty());
}

/// Round trip for public identity records: a well-formed record carrying one
/// of the two public-record tags, whose self-signature checks out against
/// its own keys, decodes from its own encoding unchanged.
pub proof fn lemma_round_trip_public_id(v: PublicIdTypeV)
    requires
        spec_public_id_wf(v),
        v.type_tag == PUBLIC_MAID_TAG || v.type_tag == PUBLIC_MPID_TAG,
        sig_checks(
            v.signature,
            spec_signed_payload(
                v.public_keys.0,
                v.public_keys.1,
                v.revocation_public_key,
                v.type_tag,
            ),
            v.revocation_public_key,
        ),
    ensures
        v.type_tag == PUBLIC_MAID_TAG ==> spec_decode(spec_encode_public_id(v)) == Ok::<
            ParserV,
            DecodeError,
        >(ParserV::PubMaid(v)),
        v.type_tag == PUBLIC_MPID_TAG ==> spec_decode(spec_encode_public_id(v)) == Ok::<
            ParserV,
            DecodeError,
        >(ParserV::PubMpid(v)),
{
    lemma_public_id_body(v);
}

/// A decoded self-certifying record is never handed out with a signature
/// that does not attest to its own keys: when the embedded signature fails
/// verification, decoding the record's bytes yields `BadSignature`.
pub proof fn lemma_bad_signature_rejected(v: PublicIdTypeV)
    requires
        spec_public_id_wf(v),
        v.type_tag == PUBLIC_MAID_TAG || v.type_tag == PUBLIC_MPID_TAG,
        !sig_checks(
            v.signature,
            spec_signed_payload(
                v.public_keys.0,
                v.public_keys.1,
                v.revocation_public_key,
                v.type_tag,
            ),
            v.revocation_public_key,
        ),
    ensures
        spec_decode(spec_encode_public_id(v)) == Err::<ParserV, DecodeError>(
            DecodeError::BadSignature,
        ),
{
    lemma_public_id_body(v);
}

/// Unknown-tag safety: a stream long enough to hold a tag, whose tag is not
/// in the registry, decodes to `Unknown` with that tag — never to an error —
/// whatever the rest of the stream holds.
pub proof fn lemma_unknown_tag_safe(s: Seq<u8>)
    requires
        s.len() >= 8,
        !spec_registered_tags().contains(spec_u64_from_le_bytes(s.subrange(0, 8))),
    ensures
        spec_decode(s) == Ok::<ParserV, DecodeError>(
            ParserV::Unknown(spec_u64_from_le_bytes(s.subrange(0, 8))),
        ),
{
    let tag = spec_u64_from_le_bytes(s.subrange(0, 8));
    assert(spec_registered_tags().contains(IMMUTABLE_DATA_TAG));
    assert(spec_registered_tags().contains(IMMUTABLE_DATA_BACKUP_TAG));
    assert(spec_registered_tags().contains(IMMUTABLE_DATA_SACRIFICIAL_TAG));
    assert(spec_registered_tags().contains(STRUCTURED_DATA_TAG));
    assert(spec_registered_tags().contains(AN_MAID_TAG));
    assert(spec_registered_tags().contains(AN_MPID_TAG));
    assert(spec_registered_tags().contains(MAID_TAG));
    assert(spec_registered_tags().contains(MPID_TAG));
    assert(spec_registered_tags().contains(PUBLIC_MAID_TAG));
    assert(spec_registered_tags().contains(PUBLIC_MPID_TAG));
}

/// What a decoder that knows only the tags in `known` yields: the variants
/// it knows decode as ever, everything else is `Unknown`.
pub open spec fn spec_decode_with_known(known: Set<u64>, s: Seq<u8>) -> Result<
    ParserV,
    DecodeError,
> {
    if s.len() < 8 {
        Err(DecodeError::BadTag)
    } else {
        let tag = spec_u64_from_le_bytes(s.subrange(0, 8));
        if known.contains(tag) {
            spec_decode(s)
        } else {
            Ok(ParserV::Unknown(tag))
        }
    }
}

/// The decoder of this crate is the decoder that knows the whole registry.
pub proof fn lemma_decode_with_registry(s: Seq<u8>)
    ensures
        spec_decode_with_known(spec_registered_tags(), s) == spec_decode(s),
{
    if s.len() >= 8 {
        let tag = spec_u64_from_le_bytes(s.subrange(0, 8));
        if !spec_registered_tags().contains(tag) {
            lemma_unknown_tag_safe(s);
        }
    }
}

/// Tag additivity: an older schema version is a decoder that knows fewer
/// tags.  On every stream whose tag the older version already knows, the
/// older and the newer decoder agree exactly; adding variants never changes
/// what existing tags decode to.
pub proof fn lemma_decode_additive(older: Set<u64>, newer: Set<u64>, s: Seq<u8>)
    requires
        older.subset_of(newer),
        s.len() >= 8 ==> older.contains(spec_u64_from_le_bytes(s.subrange(0, 8))),
    ensures
        spec_decode_with_known(older, s) == spec_decode_with_known(newer, s),
{
}

} // verus!
