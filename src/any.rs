//! The type-tagged payload: a message's bytes under the name of its type.

use vstd::prelude::*;
use vstd::string::StringExecFns;
use vstd::utf8::{encode_utf8_decode_utf8, encode_utf8_valid_utf8};

use crate::error::KiCadError;
use crate::message::{
    as_bytes, as_text, bytes_at, bytes_field, decode_message, encode_message,
    group_canonical_fields, last_of, push_bytes, push_text, single, text_at, text_field,
    WireMessage,
};
use crate::wire::{
    encode_fields, fields_view, lemma_parse_fields_round_trip, parse_fields, WireField,
    WireFieldV,
};

verus! {

/// A message of any type: the URL that names its type, and its bytes.
#[derive(Debug, PartialEq)]
pub struct Any {
    pub type_url: String,
    pub value: Vec<u8>,
}

impl WireMessage for Any {
    open spec fn spec_schema_name() -> Seq<char> {
        "google.protobuf.Any"@
    }

    open spec fn fields(&self) -> Seq<WireFieldV> {
        single(text_field(1, self.type_url@)) + single(bytes_field(2, self.value@))
    }

    open spec fn decoded(fs: Seq<WireFieldV>) -> Option<Seq<WireFieldV>> {
        match (as_text(last_of(fs, 1)), as_bytes(last_of(fs, 2))) {
            (Some(a), Some(b)) => Some(single(text_field(1, a)) + single(bytes_field(2, b))),
            _ => None,
        }
    }

    proof fn lemma_fields_decode(&self) {
        broadcast use {group_canonical_fields, encode_utf8_decode_utf8, encode_utf8_valid_utf8};

    }

    fn schema_name() -> (r: String) {
        String::from_str("google.protobuf.Any")
    }

    fn to_fields(&self) -> (r: Vec<WireField>) {
        let mut out: Vec<WireField> = Vec::new();
        push_text(&mut out, 1, &self.type_url);
        push_bytes(&mut out, 2, &self.value);
        assert(fields_view(out@) =~= self.fields());
        out
    }

    fn from_fields(fs: &Vec<WireField>) -> (r: Result<Self, KiCadError>) {
        let type_url = text_at(fs, 1)?;
        let value = bytes_at(fs, 2)?;
        Ok(Any { type_url, value })
    }
}

/// The URL under which a type of the given schema name travels.
pub open spec fn type_url_for(name: Seq<char>) -> Seq<char> {
    "type.googleapis.com/"@ + name
}

/// What decoding `b` as an `M` yields, as canonical fields.
#[verifier::opaque]
pub open spec fn decoded_bytes<M: WireMessage>(b: Seq<u8>) -> Option<Seq<WireFieldV>> {
    match parse_fields(b) {
        Some(fs) => M::decoded(fs),
        None => None,
    }
}

/// What unpacking a payload of the given type URL and bytes as an `M`
/// yields: the canonical fields of the value, or the error.
pub open spec fn unpacked<M: WireMessage>(type_url: Seq<char>, value: Seq<u8>) -> Result<
    Seq<WireFieldV>,
    KiCadError,
> {
    if type_url != type_url_for(M::spec_schema_name()) {
        Err(KiCadError::TypeMismatch)
    } else {
        match decoded_bytes::<M>(value) {
            Some(c) => Ok(c),
            None => Err(KiCadError::MalformedEnvelope),
        }
    }
}

/// The type URL of `M`.
pub fn type_url_of<M: WireMessage>() -> (r: String)
    ensures
        r@ == type_url_for(M::spec_schema_name()),
{
    let mut url = String::from_str("type.googleapis.com/");
    let name = M::schema_name();
    url.append(name.as_str());
    url
}

/// Wraps a message in a payload tagged with its type.
pub fn pack<M: WireMessage>(m: &M) -> (r: Any)
    ensures
        r.type_url@ == type_url_for(M::spec_schema_name()),
        r.value@ == encode_fields(m.fields()),
{
    Any { type_url: type_url_of::<M>(), value: encode_message(m) }
}

/// Unwraps a payload as an `M`: a payload tagged with another type is a
/// type mismatch, bytes that do not decode are malformed.
pub fn unpack<M: WireMessage>(any: &Any) -> (r: Result<M, KiCadError>)
    ensures
        match unpacked::<M>(any.type_url@, any.value@) {
            Ok(c) => r matches Ok(m) && m.fields() == c,
            Err(e) => r matches Err(e2) && e2 == e,
        },
{
    proof {
        reveal(decoded_bytes);
    }
    let expected = type_url_of::<M>();
    if any.type_url != expected {
        return Err(KiCadError::TypeMismatch);
    }
    decode_message::<M>(any.value.as_slice())
}

/// Unpacking a packed message as its own type gives back its fields.
pub proof fn lemma_pack_unpack<M: WireMessage>(m: M)
    requires
        encode_fields(m.fields()).len() <= u64::MAX,
    ensures
        unpacked::<M>(type_url_for(M::spec_schema_name()), encode_fields(m.fields())) == Ok::<
            Seq<WireFieldV>,
            KiCadError,
        >(m.fields()),
{
    reveal(decoded_bytes);
    m.lemma_fields_decode();
    lemma_parse_fields_round_trip(m.fields());
}

/// Unpacking a packed message as a type of another name is a type mismatch.
pub proof fn lemma_unpack_other_type<M: WireMessage, N: WireMessage>(m: M)
    requires
        M::spec_schema_name() != N::spec_schema_name(),
    ensures
        unpacked::<N>(type_url_for(M::spec_schema_name()), encode_fields(m.fields()))
            == Err::<Seq<WireFieldV>, KiCadError>(KiCadError::TypeMismatch),
{
    let p = "type.googleapis.com/"@;
    let a = M::spec_schema_name();
    let b = N::spec_schema_name();
    if p + a == p + b {
        assert((p + a).skip(p.len() as int) =~= a);
        assert((p + b).skip(p.len() as int) =~= b);
    }
}

} // verus!
