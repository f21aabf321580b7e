//! The envelope that carries every request and every response.

use vstd::prelude::*;
use vstd::string::StringExecFns;
use vstd::utf8::{encode_utf8_decode_utf8, encode_utf8_valid_utf8};

use crate::any::Any;
use crate::error::KiCadError;
use crate::message::{
    as_nested, as_text, as_varint, fields_of_option, group_canonical_fields, last_of,
    lemma_optional_round_trip, nested_at, optional_nested, push_optional, push_text,
    push_varint, single, text_at, text_field, varint_at, varint_field, i32_bits, lemma_i32_bits,
    WireMessage,
};
use crate::wire::{fields_view, WireField, WireFieldV};

verus! {

/// The status code of a response that succeeded.
pub const AS_OK: i32 = 1;

/// Who sends a request: the session token and the client's name.
#[derive(Debug, PartialEq)]
pub struct ApiRequestHeader {
    pub kicad_token: String,
    pub client_name: String,
}

impl WireMessage for ApiRequestHeader {
    open spec fn spec_schema_name() -> Seq<char> {
        "kiapi.common.ApiRequestHeader"@
    }

    open spec fn fields(&self) -> Seq<WireFieldV> {
        single(text_field(1, self.kicad_token@)) + single(text_field(2, self.client_name@))
    }

    open spec fn decoded(fs: Seq<WireFieldV>) -> Option<Seq<WireFieldV>> {
        match (as_text(last_of(fs, 1)), as_text(last_of(fs, 2))) {
            (Some(a), Some(b)) => Some(single(text_field(1, a)) + single(text_field(2, b))),
            _ => None,
        }
    }

    proof fn lemma_fields_decode(&self) {
        broadcast use {group_canonical_fields, encode_utf8_decode_utf8, encode_utf8_valid_utf8};

    }

    fn schema_name() -> (r: String) {
        String::from_str("kiapi.common.ApiRequestHeader")
    }

    fn to_fields(&self) -> (r: Vec<WireField>) {
        let mut out: Vec<WireField> = Vec::new();
        push_text(&mut out, 1, &self.kicad_token);
        push_text(&mut out, 2, &self.client_name);
        assert(fields_view(out@) =~= self.fields());
        out
    }

    fn from_fields(fs: &Vec<WireField>) -> (r: Result<Self, KiCadError>) {
        let kicad_token = text_at(fs, 1)?;
        let client_name = text_at(fs, 2)?;
        Ok(ApiRequestHeader { kicad_token, client_name })
    }
}

/// A request: its header and its payload.
#[derive(Debug, PartialEq)]
pub struct ApiRequest {
    pub header: Option<ApiRequestHeader>,
    pub message: Option<Any>,
}

impl WireMessage for ApiRequest {
    open spec fn spec_schema_name() -> Seq<char> {
        "kiapi.common.ApiRequest"@
    }

    open spec fn fields(&self) -> Seq<WireFieldV> {
        optional_nested(1, fields_of_option(self.header))
            + optional_nested(2, fields_of_option(self.message))
    }

    open spec fn decoded(fs: Seq<WireFieldV>) -> Option<Seq<WireFieldV>> {
        match (as_nested::<ApiRequestHeader>(last_of(fs, 1)), as_nested::<Any>(last_of(fs, 2))) {
            (Some(a), Some(b)) => Some(optional_nested(1, a) + optional_nested(2, b)),
            _ => None,
        }
    }

    proof fn lemma_fields_decode(&self) {
        broadcast use group_canonical_fields;

        lemma_optional_round_trip(self.header, 1);
        lemma_optional_round_trip(self.message, 2);
    }

    fn schema_name() -> (r: String) {
        String::from_str("kiapi.common.ApiRequest")
    }

    fn to_fields(&self) -> (r: Vec<WireField>) {
        let mut out: Vec<WireField> = Vec::new();
        push_optional(&mut out, 1, &self.header);
        push_optional(&mut out, 2, &self.message);
        assert(fields_view(out@) =~= self.fields());
        out
    }

    fn from_fields(fs: &Vec<WireField>) -> (r: Result<Self, KiCadError>) {
        let header = nested_at::<ApiRequestHeader>(fs, 1)?;
        let message = nested_at::<Any>(fs, 2)?;
        Ok(ApiRequest { header, message })
    }
}

/// The header of a response: the session token the peer issued.
#[derive(Debug, PartialEq)]
pub struct ApiResponseHeader {
    pub kicad_token: String,
}

impl WireMessage for ApiResponseHeader {
    open spec fn spec_schema_name() -> Seq<char> {
        "kiapi.common.ApiResponseHeader"@
    }

    open spec fn fields(&self) -> Seq<WireFieldV> {
        single(text_field(1, self.kicad_token@))
    }

    open spec fn decoded(fs: Seq<WireFieldV>) -> Option<Seq<WireFieldV>> {
        match as_text(last_of(fs, 1)) {
            Some(a) => Some(single(text_field(1, a))),
            None => None,
        }
    }

    proof fn lemma_fields_decode(&self) {
        broadcast use {group_canonical_fields, encode_utf8_decode_utf8, encode_utf8_valid_utf8};

    }

    fn schema_name() -> (r: String) {
        String::from_str("kiapi.common.ApiResponseHeader")
    }

    fn to_fields(&self) -> (r: Vec<WireField>) {
        let mut out: Vec<WireField> = Vec::new();
        push_text(&mut out, 1, &self.kicad_token);
        assert(fields_view(out@) =~= self.fields());
        out
    }

    fn from_fields(fs: &Vec<WireField>) -> (r: Result<Self, KiCadError>) {
        let kicad_token = text_at(fs, 1)?;
        Ok(ApiResponseHeader { kicad_token })
    }
}

/// The outcome of a request: a status code and, on failure, a message.
#[derive(Debug, PartialEq)]
pub struct ApiResponseStatus {
    pub status: i32,
    pub error_message: String,
}

impl WireMessage for ApiResponseStatus {
    open spec fn spec_schema_name() -> Seq<char> {
        "kiapi.common.ApiResponseStatus"@
    }

    open spec fn fields(&self) -> Seq<WireFieldV> {
        single(varint_field(1, i32_bits(self.status))) + single(text_field(2, self.error_message@))
    }

    open spec fn decoded(fs: Seq<WireFieldV>) -> Option<Seq<WireFieldV>> {
        match (as_varint(last_of(fs, 1)), as_text(last_of(fs, 2))) {
            (Some(a), Some(b)) => Some(
                single(varint_field(1, i32_bits(a as i32)))
                    + single(text_field(2, b))
            ),
            _ => None,
        }
    }

    proof fn lemma_fields_decode(&self) {
        broadcast use {group_canonical_fields, encode_utf8_decode_utf8, encode_utf8_valid_utf8};

        lemma_i32_bits(self.status);
    }

    fn schema_name() -> (r: String) {
        String::from_str("kiapi.common.ApiResponseStatus")
    }

    fn to_fields(&self) -> (r: Vec<WireField>) {
        let mut out: Vec<WireField> = Vec::new();
        push_varint(&mut out, 1, self.status as i64 as u64);
        push_text(&mut out, 2, &self.error_message);
        assert(fields_view(out@) =~= self.fields());
        out
    }

    fn from_fields(fs: &Vec<WireField>) -> (r: Result<Self, KiCadError>) {
        let status = varint_at(fs, 1)?;
        let error_message = text_at(fs, 2)?;
        Ok(ApiResponseStatus { status: status as i32, error_message })
    }
}

/// A response: its header, its status and its payload.
#[derive(Debug, PartialEq)]
pub struct ApiResponse {
    pub header: Option<ApiResponseHeader>,
    pub status: Option<ApiResponseStatus>,
    pub message: Option<Any>,
}

impl WireMessage for ApiResponse {
    open spec fn spec_schema_name() -> Seq<char> {
        "kiapi.common.ApiResponse"@
    }

    open spec fn fields(&self) -> Seq<WireFieldV> {
        optional_nested(1, fields_of_option(self.header))
            + optional_nested(2, fields_of_option(self.status))
            + optional_nested(3, fields_of_option(self.message))
    }

    open spec fn decoded(fs: Seq<WireFieldV>) -> Option<Seq<WireFieldV>> {
        match (
            as_nested::<ApiResponseHeader>(last_of(fs, 1)),
            as_nested::<ApiResponseStatus>(last_of(fs, 2)),
            as_nested::<Any>(last_of(fs, 3)),
        ) {
            (Some(a), Some(b), Some(c)) => Some(
                optional_nested(1, a) + optional_nested(2, b) + optional_nested(3, c),
            ),
            _ => None,
        }
    }

    proof fn lemma_fields_decode(&self) {
        broadcast use group_canonical_fields;

        lemma_optional_round_trip(self.header, 1);
        lemma_optional_round_trip(self.status, 2);
        lemma_optional_round_trip(self.message, 3);
    }

    fn schema_name() -> (r: String) {
        String::from_str("kiapi.common.ApiResponse")
    }

    fn to_fields(&self) -> (r: Vec<WireField>) {
        let mut out: Vec<WireField> = Vec::new();
        push_optional(&mut out, 1, &self.header);
        push_optional(&mut out, 2, &self.status);
        push_optional(&mut out, 3, &self.message);
        assert(fields_view(out@) =~= self.fields());
        out
    }

    fn from_fields(fs: &Vec<WireField>) -> (r: Result<Self, KiCadError>) {
        let header = nested_at::<ApiResponseHeader>(fs, 1)?;
        let status = nested_at::<ApiResponseStatus>(fs, 2)?;
        let message = nested_at::<Any>(fs, 3)?;
        Ok(ApiResponse { header, status, message })
    }
}

} // verus!
