//! The commands every editor answers, as typed messages.

use vstd::prelude::*;
use vstd::string::StringExecFns;
use vstd::utf8::{encode_utf8_decode_utf8, encode_utf8_valid_utf8};

use crate::any::Any;
use crate::error::KiCadError;
use crate::message::{
    all_i32_at, all_nested_at, all_of, as_nested, as_nested_all, as_text, as_varint,
    as_varint_all, bool_bits, fields_of_all, fields_of_option, group_canonical_fields, i32_bits,
    i32_list_bits, i32_list_from, last_of, lemma_i32_bits, lemma_optional_round_trip,
    lemma_repeated_round_trip, nested_at, optional_nested, push_optional, push_repeated,
    push_repeated_i32, push_text, push_varint, repeated_nested, repeated_varint, single, text_at,
    text_field, varint_at, varint_field, str_eq, WireMessage, all_text_at, as_nested_value, as_text_all,
    decode_message, find_last_among, last_among, lemma_nested_round_trip, nested_field, push_nested,
    push_repeated_text, repeated_bytes, texts_bytes,
};
use crate::project::{NetClass, TextVariables};
use crate::types::{Box2, CompoundShape, DocumentSpecifier, ItemHeader, KiCadVersion, Kiid, Text, TextBox, Vector2};
use crate::wire::{encode_fields, fields_numbers_ok, fields_view, WireField, WireFieldV, WireValue};

verus! {

/// Asks for the peer's version.
#[derive(Debug, PartialEq)]
pub struct GetVersion {
}

impl WireMessage for GetVersion {
    open spec fn spec_schema_name() -> Seq<char> {
        "kiapi.common.commands.GetVersion"@
    }

    open spec fn fields(&self) -> Seq<WireFieldV> {
        Seq::empty()
    }

    open spec fn decoded(fs: Seq<WireFieldV>) -> Option<Seq<WireFieldV>> {
        Some(Seq::empty())
    }

    proof fn lemma_fields_decode(&self) {
        broadcast use group_canonical_fields;
    }

    fn schema_name() -> (r: String) {
        String::from_str("kiapi.common.commands.GetVersion")
    }

    fn to_fields(&self) -> (r: Vec<WireField>) {
        let out: Vec<WireField> = Vec::new();
        assert(fields_view(out@) =~= self.fields());
        out
    }

    fn from_fields(fs: &Vec<WireField>) -> (r: Result<Self, KiCadError>) {
        Ok(GetVersion {})
    }
}

/// The peer's version.
#[derive(Debug, PartialEq)]
pub struct GetVersionResponse {
    pub version: Option<KiCadVersion>,
}

impl WireMessage for GetVersionResponse {
    open spec fn spec_schema_name() -> Seq<char> {
        "kiapi.common.commands.GetVersionResponse"@
    }

    open spec fn fields(&self) -> Seq<WireFieldV> {
        optional_nested(1, fields_of_option(self.version))
    }

    open spec fn decoded(fs: Seq<WireFieldV>) -> Option<Seq<WireFieldV>> {
        match as_nested::<KiCadVersion>(last_of(fs, 1)) {
            Some(x0) => Some(optional_nested(1, x0)),
            None => None,
        }
    }

    proof fn lemma_fields_decode(&self) {
        broadcast use group_canonical_fields;

        lemma_optional_round_trip(self.version, 1);
    }

    fn schema_name() -> (r: String) {
        String::from_str("kiapi.common.commands.GetVersionResponse")
    }

    fn to_fields(&self) -> (r: Vec<WireField>) {
        let mut out: Vec<WireField> = Vec::new();
        push_optional(&mut out, 1, &self.version);
        assert(fields_view(out@) =~= self.fields());
        out
    }

    fn from_fields(fs: &Vec<WireField>) -> (r: Result<Self, KiCadError>) {
        let version = nested_at::<KiCadVersion>(fs, 1)?;
        Ok(GetVersionResponse { version })
    }
}

/// Checks that the peer answers.
#[derive(Debug, PartialEq)]
pub struct Ping {
}

impl WireMessage for Ping {
    open spec fn spec_schema_name() -> Seq<char> {
        "kiapi.common.commands.Ping"@
    }

    open spec fn fields(&self) -> Seq<WireFieldV> {
        Seq::empty()
    }

    open spec fn decoded(fs: Seq<WireFieldV>) -> Option<Seq<WireFieldV>> {
        Some(Seq::empty())
    }

    proof fn lemma_fields_decode(&self) {
        broadcast use group_canonical_fields;
    }

    fn schema_name() -> (r: String) {
        String::from_str("kiapi.common.commands.Ping")
    }

    fn to_fields(&self) -> (r: Vec<WireField>) {
        let out: Vec<WireField> = Vec::new();
        assert(fields_view(out@) =~= self.fields());
        out
    }

    fn from_fields(fs: &Vec<WireField>) -> (r: Result<Self, KiCadError>) {
        Ok(Ping {})
    }
}

/// Asks for the full path of one of the peer's executables, by short name.
#[derive(Debug, PartialEq)]
pub struct GetKiCadBinaryPath {
    pub binary_name: String,
}

impl WireMessage for GetKiCadBinaryPath {
    open spec fn spec_schema_name() -> Seq<char> {
        "kiapi.common.commands.GetKiCadBinaryPath"@
    }

    open spec fn fields(&self) -> Seq<WireFieldV> {
        single(text_field(1, self.binary_name@))
    }

    open spec fn decoded(fs: Seq<WireFieldV>) -> Option<Seq<WireFieldV>> {
        match as_text(last_of(fs, 1)) {
            Some(x0) => Some(single(text_field(1, x0))),
            None => None,
        }
    }

    proof fn lemma_fields_decode(&self) {
        broadcast use {group_canonical_fields, encode_utf8_decode_utf8, encode_utf8_valid_utf8};
    }

    fn schema_name() -> (r: String) {
        String::from_str("kiapi.common.commands.GetKiCadBinaryPath")
    }

    fn to_fields(&self) -> (r: Vec<WireField>) {
        let mut out: Vec<WireField> = Vec::new();
        push_text(&mut out, 1, &self.binary_name);
        assert(fields_view(out@) =~= self.fields());
        out
    }

    fn from_fields(fs: &Vec<WireField>) -> (r: Result<Self, KiCadError>) {
        let binary_name = text_at(fs, 1)?;
        Ok(GetKiCadBinaryPath { binary_name })
    }
}

/// A path in the file system.
#[derive(Debug, PartialEq)]
pub struct PathResponse {
    pub path: String,
}

impl WireMessage for PathResponse {
    open spec fn spec_schema_name() -> Seq<char> {
        "kiapi.common.commands.PathResponse"@
    }

    open spec fn fields(&self) -> Seq<WireFieldV> {
        single(text_field(1, self.path@))
    }

    open spec fn decoded(fs: Seq<WireFieldV>) -> Option<Seq<WireFieldV>> {
        match as_text(last_of(fs, 1)) {
            Some(x0) => Some(single(text_field(1, x0))),
            None => None,
        }
    }

    proof fn lemma_fields_decode(&self) {
        broadcast use {group_canonical_fields, encode_utf8_decode_utf8, encode_utf8_valid_utf8};
    }

    fn schema_name() -> (r: String) {
        String::from_str("kiapi.common.commands.PathResponse")
    }

    fn to_fields(&self) -> (r: Vec<WireField>) {
        let mut out: Vec<WireField> = Vec::new();
        push_text(&mut out, 1, &self.path);
        assert(fields_view(out@) =~= self.fields());
        out
    }

    fn from_fields(fs: &Vec<WireField>) -> (r: Result<Self, KiCadError>) {
        let path = text_at(fs, 1)?;
        Ok(PathResponse { path })
    }
}

/// Asks for a writeable directory where a plugin may keep its settings.
#[derive(Debug, PartialEq)]
pub struct GetPluginSettingsPath {
    pub identifier: String,
}

impl WireMessage for GetPluginSettingsPath {
    open spec fn spec_schema_name() -> Seq<char> {
        "kiapi.common.commands.GetPluginSettingsPath"@
    }

    open spec fn fields(&self) -> Seq<WireFieldV> {
        single(text_field(1, self.identifier@))
    }

    open spec fn decoded(fs: Seq<WireFieldV>) -> Option<Seq<WireFieldV>> {
        match as_text(last_of(fs, 1)) {
            Some(x0) => Some(single(text_field(1, x0))),
            None => None,
        }
    }

    proof fn lemma_fields_decode(&self) {
        broadcast use {group_canonical_fields, encode_utf8_decode_utf8, encode_utf8_valid_utf8};
    }

    fn schema_name() -> (r: String) {
        String::from_str("kiapi.common.commands.GetPluginSettingsPath")
    }

    fn to_fields(&self) -> (r: Vec<WireField>) {
        let mut out: Vec<WireField> = Vec::new();
        push_text(&mut out, 1, &self.identifier);
        assert(fields_view(out@) =~= self.fields());
        out
    }

    fn from_fields(fs: &Vec<WireField>) -> (r: Result<Self, KiCadError>) {
        let identifier = text_at(fs, 1)?;
        Ok(GetPluginSettingsPath { identifier })
    }
}

/// A response that is one string.
#[derive(Debug, PartialEq)]
pub struct StringResponse {
    pub response: String,
}

impl WireMessage for StringResponse {
    open spec fn spec_schema_name() -> Seq<char> {
        "kiapi.common.commands.StringResponse"@
    }

    open spec fn fields(&self) -> Seq<WireFieldV> {
        single(text_field(1, self.response@))
    }

    open spec fn decoded(fs: Seq<WireFieldV>) -> Option<Seq<WireFieldV>> {
        match as_text(last_of(fs, 1)) {
            Some(x0) => Some(single(text_field(1, x0))),
            None => None,
        }
    }

    proof fn lemma_fields_decode(&self) {
        broadcast use {group_canonical_fields, encode_utf8_decode_utf8, encode_utf8_valid_utf8};
    }

    fn schema_name() -> (r: String) {
        String::from_str("kiapi.common.commands.StringResponse")
    }

    fn to_fields(&self) -> (r: Vec<WireField>) {
        let mut out: Vec<WireField> = Vec::new();
        push_text(&mut out, 1, &self.response);
        assert(fields_view(out@) =~= self.fields());
        out
    }

    fn from_fields(fs: &Vec<WireField>) -> (r: Result<Self, KiCadError>) {
        let response = text_at(fs, 1)?;
        Ok(StringResponse { response })
    }
}

/// Refreshes the given frame, if that frame is open.
#[derive(Debug, PartialEq)]
pub struct RefreshEditor {
    pub frame: i32,
}

impl WireMessage for RefreshEditor {
    open spec fn spec_schema_name() -> Seq<char> {
        "kiapi.common.commands.RefreshEditor"@
    }

    open spec fn fields(&self) -> Seq<WireFieldV> {
        single(varint_field(1, i32_bits(self.frame)))
    }

    open spec fn decoded(fs: Seq<WireFieldV>) -> Option<Seq<WireFieldV>> {
        match as_varint(last_of(fs, 1)) {
            Some(x0) => Some(single(varint_field(1, i32_bits(x0 as i32)))),
            None => None,
        }
    }

    proof fn lemma_fields_decode(&self) {
        broadcast use group_canonical_fields;

        lemma_i32_bits(self.frame);
    }

    fn schema_name() -> (r: String) {
        String::from_str("kiapi.common.commands.RefreshEditor")
    }

    fn to_fields(&self) -> (r: Vec<WireField>) {
        let mut out: Vec<WireField> = Vec::new();
        push_varint(&mut out, 1, self.frame as i64 as u64);
        assert(fields_view(out@) =~= self.fields());
        out
    }

    fn from_fields(fs: &Vec<WireField>) -> (r: Result<Self, KiCadError>) {
        let frame = varint_at(fs, 1)?;
        Ok(RefreshEditor { frame: frame as i32 })
    }
}

/// Asks for the open documents of one kind.
#[derive(Debug, PartialEq)]
pub struct GetOpenDocuments {
    pub type_: i32,
}

impl WireMessage for GetOpenDocuments {
    open spec fn spec_schema_name() -> Seq<char> {
        "kiapi.common.commands.GetOpenDocuments"@
    }

    open spec fn fields(&self) -> Seq<WireFieldV> {
        single(varint_field(1, i32_bits(self.type_)))
    }

    open spec fn decoded(fs: Seq<WireFieldV>) -> Option<Seq<WireFieldV>> {
        match as_varint(last_of(fs, 1)) {
            Some(x0) => Some(single(varint_field(1, i32_bits(x0 as i32)))),
            None => None,
        }
    }

    proof fn lemma_fields_decode(&self) {
        broadcast use group_canonical_fields;

        lemma_i32_bits(self.type_);
    }

    fn schema_name() -> (r: String) {
        String::from_str("kiapi.common.commands.GetOpenDocuments")
    }

    fn to_fields(&self) -> (r: Vec<WireField>) {
        let mut out: Vec<WireField> = Vec::new();
        push_varint(&mut out, 1, self.type_ as i64 as u64);
        assert(fields_view(out@) =~= self.fields());
        out
    }

    fn from_fields(fs: &Vec<WireField>) -> (r: Result<Self, KiCadError>) {
        let type_ = varint_at(fs, 1)?;
        Ok(GetOpenDocuments { type_: type_ as i32 })
    }
}

/// The open documents, in the peer's order.
#[derive(Debug, PartialEq)]
pub struct GetOpenDocumentsResponse {
    pub documents: Vec<DocumentSpecifier>,
}

impl WireMessage for GetOpenDocumentsResponse {
    open spec fn spec_schema_name() -> Seq<char> {
        "kiapi.common.commands.GetOpenDocumentsResponse"@
    }

    open spec fn fields(&self) -> Seq<WireFieldV> {
        repeated_nested(1, fields_of_all(self.documents@))
    }

    open spec fn decoded(fs: Seq<WireFieldV>) -> Option<Seq<WireFieldV>> {
        match as_nested_all::<DocumentSpecifier>(all_of(fs, 1)) {
            Some(x0) => Some(repeated_nested(1, x0)),
            None => None,
        }
    }

    proof fn lemma_fields_decode(&self) {
        broadcast use group_canonical_fields;

        lemma_repeated_round_trip(self.documents@, 1);
    }

    fn schema_name() -> (r: String) {
        String::from_str("kiapi.common.commands.GetOpenDocumentsResponse")
    }

    fn to_fields(&self) -> (r: Vec<WireField>) {
        let mut out: Vec<WireField> = Vec::new();
        push_repeated(&mut out, 1, &self.documents);
        assert(fields_view(out@) =~= self.fields());
        out
    }

    fn from_fields(fs: &Vec<WireField>) -> (r: Result<Self, KiCadError>) {
        let documents = all_nested_at::<DocumentSpecifier>(fs, 1)?;
        Ok(GetOpenDocumentsResponse { documents })
    }
}

/// Saves a document.
#[derive(Debug, PartialEq)]
pub struct SaveDocument {
    pub document: Option<DocumentSpecifier>,
}

impl WireMessage for SaveDocument {
    open spec fn spec_schema_name() -> Seq<char> {
        "kiapi.common.commands.SaveDocument"@
    }

    open spec fn fields(&self) -> Seq<WireFieldV> {
        optional_nested(1, fields_of_option(self.document))
    }

    open spec fn decoded(fs: Seq<WireFieldV>) -> Option<Seq<WireFieldV>> {
        match as_nested::<DocumentSpecifier>(last_of(fs, 1)) {
            Some(x0) => Some(optional_nested(1, x0)),
            None => None,
        }
    }

    proof fn lemma_fields_decode(&self) {
        broadcast use group_canonical_fields;

        lemma_optional_round_trip(self.document, 1);
    }

    fn schema_name() -> (r: String) {
        String::from_str("kiapi.common.commands.SaveDocument")
    }

    fn to_fields(&self) -> (r: Vec<WireField>) {
        let mut out: Vec<WireField> = Vec::new();
        push_optional(&mut out, 1, &self.document);
        assert(fields_view(out@) =~= self.fields());
        out
    }

    fn from_fields(fs: &Vec<WireField>) -> (r: Result<Self, KiCadError>) {
        let document = nested_at::<DocumentSpecifier>(fs, 1)?;
        Ok(SaveDocument { document })
    }
}

/// Reverts a document to its saved state.
#[derive(Debug, PartialEq)]
pub struct RevertDocument {
    pub document: Option<DocumentSpecifier>,
}

impl WireMessage for RevertDocument {
    open spec fn spec_schema_name() -> Seq<char> {
        "kiapi.common.commands.RevertDocument"@
    }

    open spec fn fields(&self) -> Seq<WireFieldV> {
        optional_nested(1, fields_of_option(self.document))
    }

    open spec fn decoded(fs: Seq<WireFieldV>) -> Option<Seq<WireFieldV>> {
        match as_nested::<DocumentSpecifier>(last_of(fs, 1)) {
            Some(x0) => Some(optional_nested(1, x0)),
            None => None,
        }
    }

    proof fn lemma_fields_decode(&self) {
        broadcast use group_canonical_fields;

        lemma_optional_round_trip(self.document, 1);
    }

    fn schema_name() -> (r: String) {
        String::from_str("kiapi.common.commands.RevertDocument")
    }

    fn to_fields(&self) -> (r: Vec<WireField>) {
        let mut out: Vec<WireField> = Vec::new();
        push_optional(&mut out, 1, &self.document);
        assert(fields_view(out@) =~= self.fields());
        out
    }

    fn from_fields(fs: &Vec<WireField>) -> (r: Result<Self, KiCadError>) {
        let document = nested_at::<DocumentSpecifier>(fs, 1)?;
        Ok(RevertDocument { document })
    }
}

/// Runs an editor action by name.
#[derive(Debug, PartialEq)]
pub struct RunAction {
    pub action: String,
}

impl WireMessage for RunAction {
    open spec fn spec_schema_name() -> Seq<char> {
        "kiapi.common.commands.RunAction"@
    }

    open spec fn fields(&self) -> Seq<WireFieldV> {
        single(text_field(1, self.action@))
    }

    open spec fn decoded(fs: Seq<WireFieldV>) -> Option<Seq<WireFieldV>> {
        match as_text(last_of(fs, 1)) {
            Some(x0) => Some(single(text_field(1, x0))),
            None => None,
        }
    }

    proof fn lemma_fields_decode(&self) {
        broadcast use {group_canonical_fields, encode_utf8_decode_utf8, encode_utf8_valid_utf8};
    }

    fn schema_name() -> (r: String) {
        String::from_str("kiapi.common.commands.RunAction")
    }

    fn to_fields(&self) -> (r: Vec<WireField>) {
        let mut out: Vec<WireField> = Vec::new();
        push_text(&mut out, 1, &self.action);
        assert(fields_view(out@) =~= self.fields());
        out
    }

    fn from_fields(fs: &Vec<WireField>) -> (r: Result<Self, KiCadError>) {
        let action = text_at(fs, 1)?;
        Ok(RunAction { action })
    }
}

/// The outcome of running an action.
#[derive(Debug, PartialEq)]
pub struct RunActionResponse {
    pub status: i32,
}

impl WireMessage for RunActionResponse {
    open spec fn spec_schema_name() -> Seq<char> {
        "kiapi.common.commands.RunActionResponse"@
    }

    open spec fn fields(&self) -> Seq<WireFieldV> {
        single(varint_field(1, i32_bits(self.status)))
    }

    open spec fn decoded(fs: Seq<WireFieldV>) -> Option<Seq<WireFieldV>> {
        match as_varint(last_of(fs, 1)) {
            Some(x0) => Some(single(varint_field(1, i32_bits(x0 as i32)))),
            None => None,
        }
    }

    proof fn lemma_fields_decode(&self) {
        broadcast use group_canonical_fields;

        lemma_i32_bits(self.status);
    }

    fn schema_name() -> (r: String) {
        String::from_str("kiapi.common.commands.RunActionResponse")
    }

    fn to_fields(&self) -> (r: Vec<WireField>) {
        let mut out: Vec<WireField> = Vec::new();
        push_varint(&mut out, 1, self.status as i64 as u64);
        assert(fields_view(out@) =~= self.fields());
        out
    }

    fn from_fields(fs: &Vec<WireField>) -> (r: Result<Self, KiCadError>) {
        let status = varint_at(fs, 1)?;
        Ok(RunActionResponse { status: status as i32 })
    }
}

/// Opens a group of edits.
#[derive(Debug, PartialEq)]
pub struct BeginCommit {
}

impl WireMessage for BeginCommit {
    open spec fn spec_schema_name() -> Seq<char> {
        "kiapi.common.commands.BeginCommit"@
    }

    open spec fn fields(&self) -> Seq<WireFieldV> {
        Seq::empty()
    }

    open spec fn decoded(fs: Seq<WireFieldV>) -> Option<Seq<WireFieldV>> {
        Some(Seq::empty())
    }

    proof fn lemma_fields_decode(&self) {
        broadcast use group_canonical_fields;
    }

    fn schema_name() -> (r: String) {
        String::from_str("kiapi.common.commands.BeginCommit")
    }

    fn to_fields(&self) -> (r: Vec<WireField>) {
        let out: Vec<WireField> = Vec::new();
        assert(fields_view(out@) =~= self.fields());
        out
    }

    fn from_fields(fs: &Vec<WireField>) -> (r: Result<Self, KiCadError>) {
        Ok(BeginCommit {})
    }
}

/// The identifier of an opened group of edits.
#[derive(Debug, PartialEq)]
pub struct BeginCommitResponse {
    pub id: Option<Kiid>,
}

impl WireMessage for BeginCommitResponse {
    open spec fn spec_schema_name() -> Seq<char> {
        "kiapi.common.commands.BeginCommitResponse"@
    }

    open spec fn fields(&self) -> Seq<WireFieldV> {
        optional_nested(1, fields_of_option(self.id))
    }

    open spec fn decoded(fs: Seq<WireFieldV>) -> Option<Seq<WireFieldV>> {
        match as_nested::<Kiid>(last_of(fs, 1)) {
            Some(x0) => Some(optional_nested(1, x0)),
            None => None,
        }
    }

    proof fn lemma_fields_decode(&self) {
        broadcast use group_canonical_fields;

        lemma_optional_round_trip(self.id, 1);
    }

    fn schema_name() -> (r: String) {
        String::from_str("kiapi.common.commands.BeginCommitResponse")
    }

    fn to_fields(&self) -> (r: Vec<WireField>) {
        let mut out: Vec<WireField> = Vec::new();
        push_optional(&mut out, 1, &self.id);
        assert(fields_view(out@) =~= self.fields());
        out
    }

    fn from_fields(fs: &Vec<WireField>) -> (r: Result<Self, KiCadError>) {
        let id = nested_at::<Kiid>(fs, 1)?;
        Ok(BeginCommitResponse { id })
    }
}

/// Closes a group of edits, committing or dropping it.
#[derive(Debug, PartialEq)]
pub struct EndCommit {
    pub id: Option<Kiid>,
    pub action: i32,
    pub message: String,
}

impl WireMessage for EndCommit {
    open spec fn spec_schema_name() -> Seq<char> {
        "kiapi.common.commands.EndCommit"@
    }

    open spec fn fields(&self) -> Seq<WireFieldV> {
        optional_nested(1, fields_of_option(self.id))
            + single(varint_field(2, i32_bits(self.action)))
            + single(text_field(3, self.message@))
    }

    open spec fn decoded(fs: Seq<WireFieldV>) -> Option<Seq<WireFieldV>> {
        match (
            as_nested::<Kiid>(last_of(fs, 1)),
            as_varint(last_of(fs, 2)),
            as_text(last_of(fs, 3)),
        ) {
            (Some(x0), Some(x1), Some(x2)) => Some(
                optional_nested(1, x0)
                    + single(varint_field(2, i32_bits(x1 as i32)))
                    + single(text_field(3, x2))
            ),
            _ => None,
        }
    }

    proof fn lemma_fields_decode(&self) {
        broadcast use {group_canonical_fields, encode_utf8_decode_utf8, encode_utf8_valid_utf8};

        lemma_optional_round_trip(self.id, 1);
        lemma_i32_bits(self.action);
    }

    fn schema_name() -> (r: String) {
        String::from_str("kiapi.common.commands.EndCommit")
    }

    fn to_fields(&self) -> (r: Vec<WireField>) {
        let mut out: Vec<WireField> = Vec::new();
        push_optional(&mut out, 1, &self.id);
        push_varint(&mut out, 2, self.action as i64 as u64);
        push_text(&mut out, 3, &self.message);
        assert(fields_view(out@) =~= self.fields());
        out
    }

    fn from_fields(fs: &Vec<WireField>) -> (r: Result<Self, KiCadError>) {
        let id = nested_at::<Kiid>(fs, 1)?;
        let action = varint_at(fs, 2)?;
        let message = text_at(fs, 3)?;
        Ok(EndCommit { id, action: action as i32, message })
    }
}

/// Acknowledges a closed group of edits.
#[derive(Debug, PartialEq)]
pub struct EndCommitResponse {
}

impl WireMessage for EndCommitResponse {
    open spec fn spec_schema_name() -> Seq<char> {
        "kiapi.common.commands.EndCommitResponse"@
    }

    open spec fn fields(&self) -> Seq<WireFieldV> {
        Seq::empty()
    }

    open spec fn decoded(fs: Seq<WireFieldV>) -> Option<Seq<WireFieldV>> {
        Some(Seq::empty())
    }

    proof fn lemma_fields_decode(&self) {
        broadcast use group_canonical_fields;
    }

    fn schema_name() -> (r: String) {
        String::from_str("kiapi.common.commands.EndCommitResponse")
    }

    fn to_fields(&self) -> (r: Vec<WireField>) {
        let out: Vec<WireField> = Vec::new();
        assert(fields_view(out@) =~= self.fields());
        out
    }

    fn from_fields(fs: &Vec<WireField>) -> (r: Result<Self, KiCadError>) {
        Ok(EndCommitResponse {})
    }
}

/// Asks for the items of the given kinds in a document.
#[derive(Debug, PartialEq)]
pub struct GetItems {
    pub header: Option<ItemHeader>,
    pub types: Vec<i32>,
}

impl WireMessage for GetItems {
    open spec fn spec_schema_name() -> Seq<char> {
        "kiapi.common.commands.GetItems"@
    }

    open spec fn fields(&self) -> Seq<WireFieldV> {
        optional_nested(1, fields_of_option(self.header))
            + repeated_varint(2, i32_list_bits(self.types@))
    }

    open spec fn decoded(fs: Seq<WireFieldV>) -> Option<Seq<WireFieldV>> {
        match (as_nested::<ItemHeader>(last_of(fs, 1)), as_varint_all(all_of(fs, 2))) {
            (Some(x0), Some(x1)) => Some(
                optional_nested(1, x0)
                    + repeated_varint(2, i32_list_from(x1))
            ),
            _ => None,
        }
    }

    proof fn lemma_fields_decode(&self) {
        broadcast use group_canonical_fields;

        lemma_optional_round_trip(self.header, 1);
    }

    fn schema_name() -> (r: String) {
        String::from_str("kiapi.common.commands.GetItems")
    }

    fn to_fields(&self) -> (r: Vec<WireField>) {
        let mut out: Vec<WireField> = Vec::new();
        push_optional(&mut out, 1, &self.header);
        push_repeated_i32(&mut out, 2, &self.types);
        assert(fields_view(out@) =~= self.fields());
        out
    }

    fn from_fields(fs: &Vec<WireField>) -> (r: Result<Self, KiCadError>) {
        let header = nested_at::<ItemHeader>(fs, 1)?;
        let types = all_i32_at(fs, 2)?;
        Ok(GetItems { header, types })
    }
}

/// The items found, each a type-tagged payload.
#[derive(Debug, PartialEq)]
pub struct GetItemsResponse {
    pub header: Option<ItemHeader>,
    pub status: i32,
    pub items: Vec<Any>,
}

impl WireMessage for GetItemsResponse {
    open spec fn spec_schema_name() -> Seq<char> {
        "kiapi.common.commands.GetItemsResponse"@
    }

    open spec fn fields(&self) -> Seq<WireFieldV> {
        optional_nested(1, fields_of_option(self.header))
            + single(varint_field(2, i32_bits(self.status)))
            + repeated_nested(3, fields_of_all(self.items@))
    }

    open spec fn decoded(fs: Seq<WireFieldV>) -> Option<Seq<WireFieldV>> {
        match (
            as_nested::<ItemHeader>(last_of(fs, 1)),
            as_varint(last_of(fs, 2)),
            as_nested_all::<Any>(all_of(fs, 3)),
        ) {
            (Some(x0), Some(x1), Some(x2)) => Some(
                optional_nested(1, x0)
                    + single(varint_field(2, i32_bits(x1 as i32)))
                    + repeated_nested(3, x2)
            ),
            _ => None,
        }
    }

    proof fn lemma_fields_decode(&self) {
        broadcast use group_canonical_fields;

        lemma_optional_round_trip(self.header, 1);
        lemma_i32_bits(self.status);
        lemma_repeated_round_trip(self.items@, 3);
    }

    fn schema_name() -> (r: String) {
        String::from_str("kiapi.common.commands.GetItemsResponse")
    }

    fn to_fields(&self) -> (r: Vec<WireField>) {
        let mut out: Vec<WireField> = Vec::new();
        push_optional(&mut out, 1, &self.header);
        push_varint(&mut out, 2, self.status as i64 as u64);
        push_repeated(&mut out, 3, &self.items);
        assert(fields_view(out@) =~= self.fields());
        out
    }

    fn from_fields(fs: &Vec<WireField>) -> (r: Result<Self, KiCadError>) {
        let header = nested_at::<ItemHeader>(fs, 1)?;
        let status = varint_at(fs, 2)?;
        let items = all_nested_at::<Any>(fs, 3)?;
        Ok(GetItemsResponse { header, status: status as i32, items })
    }
}

/// Deletes items by identifier.
#[derive(Debug, PartialEq)]
pub struct DeleteItems {
    pub header: Option<ItemHeader>,
    pub item_ids: Vec<Kiid>,
}

impl WireMessage for DeleteItems {
    open spec fn spec_schema_name() -> Seq<char> {
        "kiapi.common.commands.DeleteItems"@
    }

    open spec fn fields(&self) -> Seq<WireFieldV> {
        optional_nested(1, fields_of_option(self.header))
            + repeated_nested(2, fields_of_all(self.item_ids@))
    }

    open spec fn decoded(fs: Seq<WireFieldV>) -> Option<Seq<WireFieldV>> {
        match (as_nested::<ItemHeader>(last_of(fs, 1)), as_nested_all::<Kiid>(all_of(fs, 2))) {
            (Some(x0), Some(x1)) => Some(optional_nested(1, x0) + repeated_nested(2, x1)),
            _ => None,
        }
    }

    proof fn lemma_fields_decode(&self) {
        broadcast use group_canonical_fields;

        lemma_optional_round_trip(self.header, 1);
        lemma_repeated_round_trip(self.item_ids@, 2);
    }

    fn schema_name() -> (r: String) {
        String::from_str("kiapi.common.commands.DeleteItems")
    }

    fn to_fields(&self) -> (r: Vec<WireField>) {
        let mut out: Vec<WireField> = Vec::new();
        push_optional(&mut out, 1, &self.header);
        push_repeated(&mut out, 2, &self.item_ids);
        assert(fields_view(out@) =~= self.fields());
        out
    }

    fn from_fields(fs: &Vec<WireField>) -> (r: Result<Self, KiCadError>) {
        let header = nested_at::<ItemHeader>(fs, 1)?;
        let item_ids = all_nested_at::<Kiid>(fs, 2)?;
        Ok(DeleteItems { header, item_ids })
    }
}

/// Clears the selection.
#[derive(Debug, PartialEq)]
pub struct ClearSelection {
    pub header: Option<ItemHeader>,
}

impl WireMessage for ClearSelection {
    open spec fn spec_schema_name() -> Seq<char> {
        "kiapi.common.commands.ClearSelection"@
    }

    open spec fn fields(&self) -> Seq<WireFieldV> {
        optional_nested(1, fields_of_option(self.header))
    }

    open spec fn decoded(fs: Seq<WireFieldV>) -> Option<Seq<WireFieldV>> {
        match as_nested::<ItemHeader>(last_of(fs, 1)) {
            Some(x0) => Some(optional_nested(1, x0)),
            None => None,
        }
    }

    proof fn lemma_fields_decode(&self) {
        broadcast use group_canonical_fields;

        lemma_optional_round_trip(self.header, 1);
    }

    fn schema_name() -> (r: String) {
        String::from_str("kiapi.common.commands.ClearSelection")
    }

    fn to_fields(&self) -> (r: Vec<WireField>) {
        let mut out: Vec<WireField> = Vec::new();
        push_optional(&mut out, 1, &self.header);
        assert(fields_view(out@) =~= self.fields());
        out
    }

    fn from_fields(fs: &Vec<WireField>) -> (r: Result<Self, KiCadError>) {
        let header = nested_at::<ItemHeader>(fs, 1)?;
        Ok(ClearSelection { header })
    }
}

/// Asks for a document's title block.
#[derive(Debug, PartialEq)]
pub struct GetTitleBlockInfo {
    pub document: Option<DocumentSpecifier>,
}

impl WireMessage for GetTitleBlockInfo {
    open spec fn spec_schema_name() -> Seq<char> {
        "kiapi.common.commands.GetTitleBlockInfo"@
    }

    open spec fn fields(&self) -> Seq<WireFieldV> {
        optional_nested(1, fields_of_option(self.document))
    }

    open spec fn decoded(fs: Seq<WireFieldV>) -> Option<Seq<WireFieldV>> {
        match as_nested::<DocumentSpecifier>(last_of(fs, 1)) {
            Some(x0) => Some(optional_nested(1, x0)),
            None => None,
        }
    }

    proof fn lemma_fields_decode(&self) {
        broadcast use group_canonical_fields;

        lemma_optional_round_trip(self.document, 1);
    }

    fn schema_name() -> (r: String) {
        String::from_str("kiapi.common.commands.GetTitleBlockInfo")
    }

    fn to_fields(&self) -> (r: Vec<WireField>) {
        let mut out: Vec<WireField> = Vec::new();
        push_optional(&mut out, 1, &self.document);
        assert(fields_view(out@) =~= self.fields());
        out
    }

    fn from_fields(fs: &Vec<WireField>) -> (r: Result<Self, KiCadError>) {
        let document = nested_at::<DocumentSpecifier>(fs, 1)?;
        Ok(GetTitleBlockInfo { document })
    }
}

/// Asks for a document's text form.
#[derive(Debug, PartialEq)]
pub struct SaveDocumentToString {
    pub document: Option<DocumentSpecifier>,
}

impl WireMessage for SaveDocumentToString {
    open spec fn spec_schema_name() -> Seq<char> {
        "kiapi.common.commands.SaveDocumentToString"@
    }

    open spec fn fields(&self) -> Seq<WireFieldV> {
        optional_nested(1, fields_of_option(self.document))
    }

    open spec fn decoded(fs: Seq<WireFieldV>) -> Option<Seq<WireFieldV>> {
        match as_nested::<DocumentSpecifier>(last_of(fs, 1)) {
            Some(x0) => Some(optional_nested(1, x0)),
            None => None,
        }
    }

    proof fn lemma_fields_decode(&self) {
        broadcast use group_canonical_fields;

        lemma_optional_round_trip(self.document, 1);
    }

    fn schema_name() -> (r: String) {
        String::from_str("kiapi.common.commands.SaveDocumentToString")
    }

    fn to_fields(&self) -> (r: Vec<WireField>) {
        let mut out: Vec<WireField> = Vec::new();
        push_optional(&mut out, 1, &self.document);
        assert(fields_view(out@) =~= self.fields());
        out
    }

    fn from_fields(fs: &Vec<WireField>) -> (r: Result<Self, KiCadError>) {
        let document = nested_at::<DocumentSpecifier>(fs, 1)?;
        Ok(SaveDocumentToString { document })
    }
}

/// A document's text form.
#[derive(Debug, PartialEq)]
pub struct SavedDocumentResponse {
    pub document: Option<DocumentSpecifier>,
    pub contents: String,
}

impl WireMessage for SavedDocumentResponse {
    open spec fn spec_schema_name() -> Seq<char> {
        "kiapi.common.commands.SavedDocumentResponse"@
    }

    open spec fn fields(&self) -> Seq<WireFieldV> {
        optional_nested(1, fields_of_option(self.document)) + single(text_field(2, self.contents@))
    }

    open spec fn decoded(fs: Seq<WireFieldV>) -> Option<Seq<WireFieldV>> {
        match (as_nested::<DocumentSpecifier>(last_of(fs, 1)), as_text(last_of(fs, 2))) {
            (Some(x0), Some(x1)) => Some(optional_nested(1, x0) + single(text_field(2, x1))),
            _ => None,
        }
    }

    proof fn lemma_fields_decode(&self) {
        broadcast use {group_canonical_fields, encode_utf8_decode_utf8, encode_utf8_valid_utf8};

        lemma_optional_round_trip(self.document, 1);
    }

    fn schema_name() -> (r: String) {
        String::from_str("kiapi.common.commands.SavedDocumentResponse")
    }

    fn to_fields(&self) -> (r: Vec<WireField>) {
        let mut out: Vec<WireField> = Vec::new();
        push_optional(&mut out, 1, &self.document);
        push_text(&mut out, 2, &self.contents);
        assert(fields_view(out@) =~= self.fields());
        out
    }

    fn from_fields(fs: &Vec<WireField>) -> (r: Result<Self, KiCadError>) {
        let document = nested_at::<DocumentSpecifier>(fs, 1)?;
        let contents = text_at(fs, 2)?;
        Ok(SavedDocumentResponse { document, contents })
    }
}

/// Asks for the selection's text form.
#[derive(Debug, PartialEq)]
pub struct SaveSelectionToString {
}

impl WireMessage for SaveSelectionToString {
    open spec fn spec_schema_name() -> Seq<char> {
        "kiapi.common.commands.SaveSelectionToString"@
    }

    open spec fn fields(&self) -> Seq<WireFieldV> {
        Seq::empty()
    }

    open spec fn decoded(fs: Seq<WireFieldV>) -> Option<Seq<WireFieldV>> {
        Some(Seq::empty())
    }

    proof fn lemma_fields_decode(&self) {
        broadcast use group_canonical_fields;
    }

    fn schema_name() -> (r: String) {
        String::from_str("kiapi.common.commands.SaveSelectionToString")
    }

    fn to_fields(&self) -> (r: Vec<WireField>) {
        let out: Vec<WireField> = Vec::new();
        assert(fields_view(out@) =~= self.fields());
        out
    }

    fn from_fields(fs: &Vec<WireField>) -> (r: Result<Self, KiCadError>) {
        Ok(SaveSelectionToString {})
    }
}

/// Asks for the net classes.
#[derive(Debug, PartialEq)]
pub struct GetNetClasses {
}

impl WireMessage for GetNetClasses {
    open spec fn spec_schema_name() -> Seq<char> {
        "kiapi.common.commands.GetNetClasses"@
    }

    open spec fn fields(&self) -> Seq<WireFieldV> {
        Seq::empty()
    }

    open spec fn decoded(fs: Seq<WireFieldV>) -> Option<Seq<WireFieldV>> {
        Some(Seq::empty())
    }

    proof fn lemma_fields_decode(&self) {
        broadcast use group_canonical_fields;
    }

    fn schema_name() -> (r: String) {
        String::from_str("kiapi.common.commands.GetNetClasses")
    }

    fn to_fields(&self) -> (r: Vec<WireField>) {
        let out: Vec<WireField> = Vec::new();
        assert(fields_view(out@) =~= self.fields());
        out
    }

    fn from_fields(fs: &Vec<WireField>) -> (r: Result<Self, KiCadError>) {
        Ok(GetNetClasses {})
    }
}

/// Asks for a document's text variables.
#[derive(Debug, PartialEq)]
pub struct GetTextVariables {
    pub document: Option<DocumentSpecifier>,
}

impl WireMessage for GetTextVariables {
    open spec fn spec_schema_name() -> Seq<char> {
        "kiapi.common.commands.GetTextVariables"@
    }

    open spec fn fields(&self) -> Seq<WireFieldV> {
        optional_nested(1, fields_of_option(self.document))
    }

    open spec fn decoded(fs: Seq<WireFieldV>) -> Option<Seq<WireFieldV>> {
        match as_nested::<DocumentSpecifier>(last_of(fs, 1)) {
            Some(x0) => Some(optional_nested(1, x0)),
            None => None,
        }
    }

    proof fn lemma_fields_decode(&self) {
        broadcast use group_canonical_fields;

        lemma_optional_round_trip(self.document, 1);
    }

    fn schema_name() -> (r: String) {
        String::from_str("kiapi.common.commands.GetTextVariables")
    }

    fn to_fields(&self) -> (r: Vec<WireField>) {
        let mut out: Vec<WireField> = Vec::new();
        push_optional(&mut out, 1, &self.document);
        assert(fields_view(out@) =~= self.fields());
        out
    }

    fn from_fields(fs: &Vec<WireField>) -> (r: Result<Self, KiCadError>) {
        let document = nested_at::<DocumentSpecifier>(fs, 1)?;
        Ok(GetTextVariables { document })
    }
}


/// How a copy of a document is saved.
#[derive(Debug, PartialEq)]
pub struct SaveOptions {
    pub overwrite: bool,
    pub include_project: bool,
}

impl WireMessage for SaveOptions {
    open spec fn spec_schema_name() -> Seq<char> {
        "kiapi.common.commands.SaveOptions"@
    }

    open spec fn fields(&self) -> Seq<WireFieldV> {
        single(varint_field(1, bool_bits(self.overwrite)))
            + single(varint_field(2, bool_bits(self.include_project)))
    }

    open spec fn decoded(fs: Seq<WireFieldV>) -> Option<Seq<WireFieldV>> {
        match (as_varint(last_of(fs, 1)), as_varint(last_of(fs, 2))) {
            (Some(x0), Some(x1)) => Some(
                single(varint_field(1, bool_bits(x0 != 0)))
                    + single(varint_field(2, bool_bits(x1 != 0)))
            ),
            _ => None,
        }
    }

    proof fn lemma_fields_decode(&self) {
        broadcast use group_canonical_fields;
    }

    fn schema_name() -> (r: String) {
        String::from_str("kiapi.common.commands.SaveOptions")
    }

    fn to_fields(&self) -> (r: Vec<WireField>) {
        let mut out: Vec<WireField> = Vec::new();
        push_varint(&mut out, 1, if self.overwrite { 1 } else { 0 });
        push_varint(&mut out, 2, if self.include_project { 1 } else { 0 });
        assert(fields_view(out@) =~= self.fields());
        out
    }

    fn from_fields(fs: &Vec<WireField>) -> (r: Result<Self, KiCadError>) {
        let overwrite = varint_at(fs, 1)?;
        let include_project = varint_at(fs, 2)?;
        Ok(SaveOptions { overwrite: overwrite != 0, include_project: include_project != 0 })
    }
}

/// Saves a copy of a document under another path.
#[derive(Debug, PartialEq)]
pub struct SaveCopyOfDocument {
    pub document: Option<DocumentSpecifier>,
    pub path: String,
    pub options: Option<SaveOptions>,
}

impl WireMessage for SaveCopyOfDocument {
    open spec fn spec_schema_name() -> Seq<char> {
        "kiapi.common.commands.SaveCopyOfDocument"@
    }

    open spec fn fields(&self) -> Seq<WireFieldV> {
        optional_nested(1, fields_of_option(self.document))
            + single(text_field(2, self.path@))
            + optional_nested(3, fields_of_option(self.options))
    }

    open spec fn decoded(fs: Seq<WireFieldV>) -> Option<Seq<WireFieldV>> {
        match (
            as_nested::<DocumentSpecifier>(last_of(fs, 1)),
            as_text(last_of(fs, 2)),
            as_nested::<SaveOptions>(last_of(fs, 3)),
        ) {
            (Some(x0), Some(x1), Some(x2)) => Some(
                optional_nested(1, x0)
                    + single(text_field(2, x1))
                    + optional_nested(3, x2)
            ),
            _ => None,
        }
    }

    proof fn lemma_fields_decode(&self) {
        broadcast use {group_canonical_fields, encode_utf8_decode_utf8, encode_utf8_valid_utf8};

        lemma_optional_round_trip(self.document, 1);
        lemma_optional_round_trip(self.options, 3);
    }

    fn schema_name() -> (r: String) {
        String::from_str("kiapi.common.commands.SaveCopyOfDocument")
    }

    fn to_fields(&self) -> (r: Vec<WireField>) {
        let mut out: Vec<WireField> = Vec::new();
        push_optional(&mut out, 1, &self.document);
        push_text(&mut out, 2, &self.path);
        push_optional(&mut out, 3, &self.options);
        assert(fields_view(out@) =~= self.fields());
        out
    }

    fn from_fields(fs: &Vec<WireField>) -> (r: Result<Self, KiCadError>) {
        let document = nested_at::<DocumentSpecifier>(fs, 1)?;
        let path = text_at(fs, 2)?;
        let options = nested_at::<SaveOptions>(fs, 3)?;
        Ok(SaveCopyOfDocument { document, path, options })
    }
}

/// Creates items in a document.
#[derive(Debug, PartialEq)]
pub struct CreateItems {
    pub header: Option<ItemHeader>,
    pub items: Vec<Any>,
    pub container: Option<Kiid>,
}

impl WireMessage for CreateItems {
    open spec fn spec_schema_name() -> Seq<char> {
        "kiapi.common.commands.CreateItems"@
    }

    open spec fn fields(&self) -> Seq<WireFieldV> {
        optional_nested(1, fields_of_option(self.header))
            + repeated_nested(2, fields_of_all(self.items@))
            + optional_nested(3, fields_of_option(self.container))
    }

    open spec fn decoded(fs: Seq<WireFieldV>) -> Option<Seq<WireFieldV>> {
        match (
            as_nested::<ItemHeader>(last_of(fs, 1)),
            as_nested_all::<Any>(all_of(fs, 2)),
            as_nested::<Kiid>(last_of(fs, 3)),
        ) {
            (Some(x0), Some(x1), Some(x2)) => Some(
                optional_nested(1, x0)
                    + repeated_nested(2, x1)
                    + optional_nested(3, x2)
            ),
            _ => None,
        }
    }

    proof fn lemma_fields_decode(&self) {
        broadcast use group_canonical_fields;

        lemma_optional_round_trip(self.header, 1);
        lemma_repeated_round_trip(self.items@, 2);
        lemma_optional_round_trip(self.container, 3);
    }

    fn schema_name() -> (r: String) {
        String::from_str("kiapi.common.commands.CreateItems")
    }

    fn to_fields(&self) -> (r: Vec<WireField>) {
        let mut out: Vec<WireField> = Vec::new();
        push_optional(&mut out, 1, &self.header);
        push_repeated(&mut out, 2, &self.items);
        push_optional(&mut out, 3, &self.container);
        assert(fields_view(out@) =~= self.fields());
        out
    }

    fn from_fields(fs: &Vec<WireField>) -> (r: Result<Self, KiCadError>) {
        let header = nested_at::<ItemHeader>(fs, 1)?;
        let items = all_nested_at::<Any>(fs, 2)?;
        let container = nested_at::<Kiid>(fs, 3)?;
        Ok(CreateItems { header, items, container })
    }
}

/// The outcome for one item.
#[derive(Debug, PartialEq)]
pub struct ItemStatus {
    pub code: i32,
    pub error_message: String,
}

impl WireMessage for ItemStatus {
    open spec fn spec_schema_name() -> Seq<char> {
        "kiapi.common.commands.ItemStatus"@
    }

    open spec fn fields(&self) -> Seq<WireFieldV> {
        single(varint_field(1, i32_bits(self.code))) + single(text_field(2, self.error_message@))
    }

    open spec fn decoded(fs: Seq<WireFieldV>) -> Option<Seq<WireFieldV>> {
        match (as_varint(last_of(fs, 1)), as_text(last_of(fs, 2))) {
            (Some(x0), Some(x1)) => Some(
                single(varint_field(1, i32_bits(x0 as i32)))
                    + single(text_field(2, x1))
            ),
            _ => None,
        }
    }

    proof fn lemma_fields_decode(&self) {
        broadcast use {group_canonical_fields, encode_utf8_decode_utf8, encode_utf8_valid_utf8};

        lemma_i32_bits(self.code);
    }

    fn schema_name() -> (r: String) {
        String::from_str("kiapi.common.commands.ItemStatus")
    }

    fn to_fields(&self) -> (r: Vec<WireField>) {
        let mut out: Vec<WireField> = Vec::new();
        push_varint(&mut out, 1, self.code as i64 as u64);
        push_text(&mut out, 2, &self.error_message);
        assert(fields_view(out@) =~= self.fields());
        out
    }

    fn from_fields(fs: &Vec<WireField>) -> (r: Result<Self, KiCadError>) {
        let code = varint_at(fs, 1)?;
        let error_message = text_at(fs, 2)?;
        Ok(ItemStatus { code: code as i32, error_message })
    }
}

/// The outcome of creating one item, with the item as created.
#[derive(Debug, PartialEq)]
pub struct ItemCreationResult {
    pub status: Option<ItemStatus>,
    pub item: Option<Any>,
}

impl WireMessage for ItemCreationResult {
    open spec fn spec_schema_name() -> Seq<char> {
        "kiapi.common.commands.ItemCreationResult"@
    }

    open spec fn fields(&self) -> Seq<WireFieldV> {
        optional_nested(1, fields_of_option(self.status))
            + optional_nested(2, fields_of_option(self.item))
    }

    open spec fn decoded(fs: Seq<WireFieldV>) -> Option<Seq<WireFieldV>> {
        match (as_nested::<ItemStatus>(last_of(fs, 1)), as_nested::<Any>(last_of(fs, 2))) {
            (Some(x0), Some(x1)) => Some(optional_nested(1, x0) + optional_nested(2, x1)),
            _ => None,
        }
    }

    proof fn lemma_fields_decode(&self) {
        broadcast use group_canonical_fields;

        lemma_optional_round_trip(self.status, 1);
        lemma_optional_round_trip(self.item, 2);
    }

    fn schema_name() -> (r: String) {
        String::from_str("kiapi.common.commands.ItemCreationResult")
    }

    fn to_fields(&self) -> (r: Vec<WireField>) {
        let mut out: Vec<WireField> = Vec::new();
        push_optional(&mut out, 1, &self.status);
        push_optional(&mut out, 2, &self.item);
        assert(fields_view(out@) =~= self.fields());
        out
    }

    fn from_fields(fs: &Vec<WireField>) -> (r: Result<Self, KiCadError>) {
        let status = nested_at::<ItemStatus>(fs, 1)?;
        let item = nested_at::<Any>(fs, 2)?;
        Ok(ItemCreationResult { status, item })
    }
}

/// The outcome of creating items.
#[derive(Debug, PartialEq)]
pub struct CreateItemsResponse {
    pub header: Option<ItemHeader>,
    pub status: i32,
    pub created_items: Vec<ItemCreationResult>,
}

impl WireMessage for CreateItemsResponse {
    open spec fn spec_schema_name() -> Seq<char> {
        "kiapi.common.commands.CreateItemsResponse"@
    }

    open spec fn fields(&self) -> Seq<WireFieldV> {
        optional_nested(1, fields_of_option(self.header))
            + single(varint_field(2, i32_bits(self.status)))
            + repeated_nested(3, fields_of_all(self.created_items@))
    }

    open spec fn decoded(fs: Seq<WireFieldV>) -> Option<Seq<WireFieldV>> {
        match (
            as_nested::<ItemHeader>(last_of(fs, 1)),
            as_varint(last_of(fs, 2)),
            as_nested_all::<ItemCreationResult>(all_of(fs, 3)),
        ) {
            (Some(x0), Some(x1), Some(x2)) => Some(
                optional_nested(1, x0)
                    + single(varint_field(2, i32_bits(x1 as i32)))
                    + repeated_nested(3, x2)
            ),
            _ => None,
        }
    }

    proof fn lemma_fields_decode(&self) {
        broadcast use group_canonical_fields;

        lemma_optional_round_trip(self.header, 1);
        lemma_i32_bits(self.status);
        lemma_repeated_round_trip(self.created_items@, 3);
    }

    fn schema_name() -> (r: String) {
        String::from_str("kiapi.common.commands.CreateItemsResponse")
    }

    fn to_fields(&self) -> (r: Vec<WireField>) {
        let mut out: Vec<WireField> = Vec::new();
        push_optional(&mut out, 1, &self.header);
        push_varint(&mut out, 2, self.status as i64 as u64);
        push_repeated(&mut out, 3, &self.created_items);
        assert(fields_view(out@) =~= self.fields());
        out
    }

    fn from_fields(fs: &Vec<WireField>) -> (r: Result<Self, KiCadError>) {
        let header = nested_at::<ItemHeader>(fs, 1)?;
        let status = varint_at(fs, 2)?;
        let created_items = all_nested_at::<ItemCreationResult>(fs, 3)?;
        Ok(CreateItemsResponse { header, status: status as i32, created_items })
    }
}

/// Updates items in a document.
#[derive(Debug, PartialEq)]
pub struct UpdateItems {
    pub header: Option<ItemHeader>,
    pub items: Vec<Any>,
}

impl WireMessage for UpdateItems {
    open spec fn spec_schema_name() -> Seq<char> {
        "kiapi.common.commands.UpdateItems"@
    }

    open spec fn fields(&self) -> Seq<WireFieldV> {
        optional_nested(1, fields_of_option(self.header))
            + repeated_nested(2, fields_of_all(self.items@))
    }

    open spec fn decoded(fs: Seq<WireFieldV>) -> Option<Seq<WireFieldV>> {
        match (as_nested::<ItemHeader>(last_of(fs, 1)), as_nested_all::<Any>(all_of(fs, 2))) {
            (Some(x0), Some(x1)) => Some(optional_nested(1, x0) + repeated_nested(2, x1)),
            _ => None,
        }
    }

    proof fn lemma_fields_decode(&self) {
        broadcast use group_canonical_fields;

        lemma_optional_round_trip(self.header, 1);
        lemma_repeated_round_trip(self.items@, 2);
    }

    fn schema_name() -> (r: String) {
        String::from_str("kiapi.common.commands.UpdateItems")
    }

    fn to_fields(&self) -> (r: Vec<WireField>) {
        let mut out: Vec<WireField> = Vec::new();
        push_optional(&mut out, 1, &self.header);
        push_repeated(&mut out, 2, &self.items);
        assert(fields_view(out@) =~= self.fields());
        out
    }

    fn from_fields(fs: &Vec<WireField>) -> (r: Result<Self, KiCadError>) {
        let header = nested_at::<ItemHeader>(fs, 1)?;
        let items = all_nested_at::<Any>(fs, 2)?;
        Ok(UpdateItems { header, items })
    }
}

/// The outcome of updating one item, with the item as updated.
#[derive(Debug, PartialEq)]
pub struct ItemUpdateResult {
    pub status: Option<ItemStatus>,
    pub item: Option<Any>,
}

impl WireMessage for ItemUpdateResult {
    open spec fn spec_schema_name() -> Seq<char> {
        "kiapi.common.commands.ItemUpdateResult"@
    }

    open spec fn fields(&self) -> Seq<WireFieldV> {
        optional_nested(1, fields_of_option(self.status))
            + optional_nested(2, fields_of_option(self.item))
    }

    open spec fn decoded(fs: Seq<WireFieldV>) -> Option<Seq<WireFieldV>> {
        match (as_nested::<ItemStatus>(last_of(fs, 1)), as_nested::<Any>(last_of(fs, 2))) {
            (Some(x0), Some(x1)) => Some(optional_nested(1, x0) + optional_nested(2, x1)),
            _ => None,
        }
    }

    proof fn lemma_fields_decode(&self) {
        broadcast use group_canonical_fields;

        lemma_optional_round_trip(self.status, 1);
        lemma_optional_round_trip(self.item, 2);
    }

    fn schema_name() -> (r: String) {
        String::from_str("kiapi.common.commands.ItemUpdateResult")
    }

    fn to_fields(&self) -> (r: Vec<WireField>) {
        let mut out: Vec<WireField> = Vec::new();
        push_optional(&mut out, 1, &self.status);
        push_optional(&mut out, 2, &self.item);
        assert(fields_view(out@) =~= self.fields());
        out
    }

    fn from_fields(fs: &Vec<WireField>) -> (r: Result<Self, KiCadError>) {
        let status = nested_at::<ItemStatus>(fs, 1)?;
        let item = nested_at::<Any>(fs, 2)?;
        Ok(ItemUpdateResult { status, item })
    }
}

/// The outcome of updating items.
#[derive(Debug, PartialEq)]
pub struct UpdateItemsResponse {
    pub header: Option<ItemHeader>,
    pub status: i32,
    pub updated_items: Vec<ItemUpdateResult>,
}

impl WireMessage for UpdateItemsResponse {
    open spec fn spec_schema_name() -> Seq<char> {
        "kiapi.common.commands.UpdateItemsResponse"@
    }

    open spec fn fields(&self) -> Seq<WireFieldV> {
        optional_nested(1, fields_of_option(self.header))
            + single(varint_field(2, i32_bits(self.status)))
            + repeated_nested(3, fields_of_all(self.updated_items@))
    }

    open spec fn decoded(fs: Seq<WireFieldV>) -> Option<Seq<WireFieldV>> {
        match (
            as_nested::<ItemHeader>(last_of(fs, 1)),
            as_varint(last_of(fs, 2)),
            as_nested_all::<ItemUpdateResult>(all_of(fs, 3)),
        ) {
            (Some(x0), Some(x1), Some(x2)) => Some(
                optional_nested(1, x0)
                    + single(varint_field(2, i32_bits(x1 as i32)))
                    + repeated_nested(3, x2)
            ),
            _ => None,
        }
    }

    proof fn lemma_fields_decode(&self) {
        broadcast use group_canonical_fields;

        lemma_optional_round_trip(self.header, 1);
        lemma_i32_bits(self.status);
        lemma_repeated_round_trip(self.updated_items@, 3);
    }

    fn schema_name() -> (r: String) {
        String::from_str("kiapi.common.commands.UpdateItemsResponse")
    }

    fn to_fields(&self) -> (r: Vec<WireField>) {
        let mut out: Vec<WireField> = Vec::new();
        push_optional(&mut out, 1, &self.header);
        push_varint(&mut out, 2, self.status as i64 as u64);
        push_repeated(&mut out, 3, &self.updated_items);
        assert(fields_view(out@) =~= self.fields());
        out
    }

    fn from_fields(fs: &Vec<WireField>) -> (r: Result<Self, KiCadError>) {
        let header = nested_at::<ItemHeader>(fs, 1)?;
        let status = varint_at(fs, 2)?;
        let updated_items = all_nested_at::<ItemUpdateResult>(fs, 3)?;
        Ok(UpdateItemsResponse { header, status: status as i32, updated_items })
    }
}

/// The outcome of deleting one item.
#[derive(Debug, PartialEq)]
pub struct ItemDeletionResult {
    pub id: Option<Kiid>,
    pub status: i32,
}

impl WireMessage for ItemDeletionResult {
    open spec fn spec_schema_name() -> Seq<char> {
        "kiapi.common.commands.ItemDeletionResult"@
    }

    open spec fn fields(&self) -> Seq<WireFieldV> {
        optional_nested(1, fields_of_option(self.id))
            + single(varint_field(2, i32_bits(self.status)))
    }

    open spec fn decoded(fs: Seq<WireFieldV>) -> Option<Seq<WireFieldV>> {
        match (as_nested::<Kiid>(last_of(fs, 1)), as_varint(last_of(fs, 2))) {
            (Some(x0), Some(x1)) => Some(
                optional_nested(1, x0)
                    + single(varint_field(2, i32_bits(x1 as i32)))
            ),
            _ => None,
        }
    }

    proof fn lemma_fields_decode(&self) {
        broadcast use group_canonical_fields;

        lemma_optional_round_trip(self.id, 1);
        lemma_i32_bits(self.status);
    }

    fn schema_name() -> (r: String) {
        String::from_str("kiapi.common.commands.ItemDeletionResult")
    }

    fn to_fields(&self) -> (r: Vec<WireField>) {
        let mut out: Vec<WireField> = Vec::new();
        push_optional(&mut out, 1, &self.id);
        push_varint(&mut out, 2, self.status as i64 as u64);
        assert(fields_view(out@) =~= self.fields());
        out
    }

    fn from_fields(fs: &Vec<WireField>) -> (r: Result<Self, KiCadError>) {
        let id = nested_at::<Kiid>(fs, 1)?;
        let status = varint_at(fs, 2)?;
        Ok(ItemDeletionResult { id, status: status as i32 })
    }
}

/// The outcome of deleting items.
#[derive(Debug, PartialEq)]
pub struct DeleteItemsResponse {
    pub header: Option<ItemHeader>,
    pub status: i32,
    pub deleted_items: Vec<ItemDeletionResult>,
}

impl WireMessage for DeleteItemsResponse {
    open spec fn spec_schema_name() -> Seq<char> {
        "kiapi.common.commands.DeleteItemsResponse"@
    }

    open spec fn fields(&self) -> Seq<WireFieldV> {
        optional_nested(1, fields_of_option(self.header))
            + single(varint_field(2, i32_bits(self.status)))
            + repeated_nested(3, fields_of_all(self.deleted_items@))
    }

    open spec fn decoded(fs: Seq<WireFieldV>) -> Option<Seq<WireFieldV>> {
        match (
            as_nested::<ItemHeader>(last_of(fs, 1)),
            as_varint(last_of(fs, 2)),
            as_nested_all::<ItemDeletionResult>(all_of(fs, 3)),
        ) {
            (Some(x0), Some(x1), Some(x2)) => Some(
                optional_nested(1, x0)
                    + single(varint_field(2, i32_bits(x1 as i32)))
                    + repeated_nested(3, x2)
            ),
            _ => None,
        }
    }

    proof fn lemma_fields_decode(&self) {
        broadcast use group_canonical_fields;

        lemma_optional_round_trip(self.header, 1);
        lemma_i32_bits(self.status);
        lemma_repeated_round_trip(self.deleted_items@, 3);
    }

    fn schema_name() -> (r: String) {
        String::from_str("kiapi.common.commands.DeleteItemsResponse")
    }

    fn to_fields(&self) -> (r: Vec<WireField>) {
        let mut out: Vec<WireField> = Vec::new();
        push_optional(&mut out, 1, &self.header);
        push_varint(&mut out, 2, self.status as i64 as u64);
        push_repeated(&mut out, 3, &self.deleted_items);
        assert(fields_view(out@) =~= self.fields());
        out
    }

    fn from_fields(fs: &Vec<WireField>) -> (r: Result<Self, KiCadError>) {
        let header = nested_at::<ItemHeader>(fs, 1)?;
        let status = varint_at(fs, 2)?;
        let deleted_items = all_nested_at::<ItemDeletionResult>(fs, 3)?;
        Ok(DeleteItemsResponse { header, status: status as i32, deleted_items })
    }
}

/// Asks for the bounding boxes of items.
#[derive(Debug, PartialEq)]
pub struct GetBoundingBox {
    pub header: Option<ItemHeader>,
    pub items: Vec<Kiid>,
    pub mode: i32,
}

impl WireMessage for GetBoundingBox {
    open spec fn spec_schema_name() -> Seq<char> {
        "kiapi.common.commands.GetBoundingBox"@
    }

    open spec fn fields(&self) -> Seq<WireFieldV> {
        optional_nested(1, fields_of_option(self.header))
            + repeated_nested(2, fields_of_all(self.items@))
            + single(varint_field(3, i32_bits(self.mode)))
    }

    open spec fn decoded(fs: Seq<WireFieldV>) -> Option<Seq<WireFieldV>> {
        match (
            as_nested::<ItemHeader>(last_of(fs, 1)),
            as_nested_all::<Kiid>(all_of(fs, 2)),
            as_varint(last_of(fs, 3)),
        ) {
            (Some(x0), Some(x1), Some(x2)) => Some(
                optional_nested(1, x0)
                    + repeated_nested(2, x1)
                    + single(varint_field(3, i32_bits(x2 as i32)))
            ),
            _ => None,
        }
    }

    proof fn lemma_fields_decode(&self) {
        broadcast use group_canonical_fields;

        lemma_optional_round_trip(self.header, 1);
        lemma_repeated_round_trip(self.items@, 2);
        lemma_i32_bits(self.mode);
    }

    fn schema_name() -> (r: String) {
        String::from_str("kiapi.common.commands.GetBoundingBox")
    }

    fn to_fields(&self) -> (r: Vec<WireField>) {
        let mut out: Vec<WireField> = Vec::new();
        push_optional(&mut out, 1, &self.header);
        push_repeated(&mut out, 2, &self.items);
        push_varint(&mut out, 3, self.mode as i64 as u64);
        assert(fields_view(out@) =~= self.fields());
        out
    }

    fn from_fields(fs: &Vec<WireField>) -> (r: Result<Self, KiCadError>) {
        let header = nested_at::<ItemHeader>(fs, 1)?;
        let items = all_nested_at::<Kiid>(fs, 2)?;
        let mode = varint_at(fs, 3)?;
        Ok(GetBoundingBox { header, items, mode: mode as i32 })
    }
}

/// Asks for the selected items of the given kinds.
#[derive(Debug, PartialEq)]
pub struct GetSelection {
    pub header: Option<ItemHeader>,
    pub types: Vec<i32>,
}

impl WireMessage for GetSelection {
    open spec fn spec_schema_name() -> Seq<char> {
        "kiapi.common.commands.GetSelection"@
    }

    open spec fn fields(&self) -> Seq<WireFieldV> {
        optional_nested(1, fields_of_option(self.header))
            + repeated_varint(2, i32_list_bits(self.types@))
    }

    open spec fn decoded(fs: Seq<WireFieldV>) -> Option<Seq<WireFieldV>> {
        match (as_nested::<ItemHeader>(last_of(fs, 1)), as_varint_all(all_of(fs, 2))) {
            (Some(x0), Some(x1)) => Some(
                optional_nested(1, x0)
                    + repeated_varint(2, i32_list_from(x1))
            ),
            _ => None,
        }
    }

    proof fn lemma_fields_decode(&self) {
        broadcast use group_canonical_fields;

        lemma_optional_round_trip(self.header, 1);
    }

    fn schema_name() -> (r: String) {
        String::from_str("kiapi.common.commands.GetSelection")
    }

    fn to_fields(&self) -> (r: Vec<WireField>) {
        let mut out: Vec<WireField> = Vec::new();
        push_optional(&mut out, 1, &self.header);
        push_repeated_i32(&mut out, 2, &self.types);
        assert(fields_view(out@) =~= self.fields());
        out
    }

    fn from_fields(fs: &Vec<WireField>) -> (r: Result<Self, KiCadError>) {
        let header = nested_at::<ItemHeader>(fs, 1)?;
        let types = all_i32_at(fs, 2)?;
        Ok(GetSelection { header, types })
    }
}

/// The selected items.
#[derive(Debug, PartialEq)]
pub struct SelectionResponse {
    pub items: Vec<Any>,
}

impl WireMessage for SelectionResponse {
    open spec fn spec_schema_name() -> Seq<char> {
        "kiapi.common.commands.SelectionResponse"@
    }

    open spec fn fields(&self) -> Seq<WireFieldV> {
        repeated_nested(1, fields_of_all(self.items@))
    }

    open spec fn decoded(fs: Seq<WireFieldV>) -> Option<Seq<WireFieldV>> {
        match as_nested_all::<Any>(all_of(fs, 1)) {
            Some(x0) => Some(repeated_nested(1, x0)),
            None => None,
        }
    }

    proof fn lemma_fields_decode(&self) {
        broadcast use group_canonical_fields;

        lemma_repeated_round_trip(self.items@, 1);
    }

    fn schema_name() -> (r: String) {
        String::from_str("kiapi.common.commands.SelectionResponse")
    }

    fn to_fields(&self) -> (r: Vec<WireField>) {
        let mut out: Vec<WireField> = Vec::new();
        push_repeated(&mut out, 1, &self.items);
        assert(fields_view(out@) =~= self.fields());
        out
    }

    fn from_fields(fs: &Vec<WireField>) -> (r: Result<Self, KiCadError>) {
        let items = all_nested_at::<Any>(fs, 1)?;
        Ok(SelectionResponse { items })
    }
}

/// Adds items to the selection.
#[derive(Debug, PartialEq)]
pub struct AddToSelection {
    pub header: Option<ItemHeader>,
    pub items: Vec<Kiid>,
}

impl WireMessage for AddToSelection {
    open spec fn spec_schema_name() -> Seq<char> {
        "kiapi.common.commands.AddToSelection"@
    }

    open spec fn fields(&self) -> Seq<WireFieldV> {
        optional_nested(1, fields_of_option(self.header))
            + repeated_nested(2, fields_of_all(self.items@))
    }

    open spec fn decoded(fs: Seq<WireFieldV>) -> Option<Seq<WireFieldV>> {
        match (as_nested::<ItemHeader>(last_of(fs, 1)), as_nested_all::<Kiid>(all_of(fs, 2))) {
            (Some(x0), Some(x1)) => Some(optional_nested(1, x0) + repeated_nested(2, x1)),
            _ => None,
        }
    }

    proof fn lemma_fields_decode(&self) {
        broadcast use group_canonical_fields;

        lemma_optional_round_trip(self.header, 1);
        lemma_repeated_round_trip(self.items@, 2);
    }

    fn schema_name() -> (r: String) {
        String::from_str("kiapi.common.commands.AddToSelection")
    }

    fn to_fields(&self) -> (r: Vec<WireField>) {
        let mut out: Vec<WireField> = Vec::new();
        push_optional(&mut out, 1, &self.header);
        push_repeated(&mut out, 2, &self.items);
        assert(fields_view(out@) =~= self.fields());
        out
    }

    fn from_fields(fs: &Vec<WireField>) -> (r: Result<Self, KiCadError>) {
        let header = nested_at::<ItemHeader>(fs, 1)?;
        let items = all_nested_at::<Kiid>(fs, 2)?;
        Ok(AddToSelection { header, items })
    }
}

/// Removes items from the selection.
#[derive(Debug, PartialEq)]
pub struct RemoveFromSelection {
    pub header: Option<ItemHeader>,
    pub items: Vec<Kiid>,
}

impl WireMessage for RemoveFromSelection {
    open spec fn spec_schema_name() -> Seq<char> {
        "kiapi.common.commands.RemoveFromSelection"@
    }

    open spec fn fields(&self) -> Seq<WireFieldV> {
        optional_nested(1, fields_of_option(self.header))
            + repeated_nested(2, fields_of_all(self.items@))
    }

    open spec fn decoded(fs: Seq<WireFieldV>) -> Option<Seq<WireFieldV>> {
        match (as_nested::<ItemHeader>(last_of(fs, 1)), as_nested_all::<Kiid>(all_of(fs, 2))) {
            (Some(x0), Some(x1)) => Some(optional_nested(1, x0) + repeated_nested(2, x1)),
            _ => None,
        }
    }

    proof fn lemma_fields_decode(&self) {
        broadcast use group_canonical_fields;

        lemma_optional_round_trip(self.header, 1);
        lemma_repeated_round_trip(self.items@, 2);
    }

    fn schema_name() -> (r: String) {
        String::from_str("kiapi.common.commands.RemoveFromSelection")
    }

    fn to_fields(&self) -> (r: Vec<WireField>) {
        let mut out: Vec<WireField> = Vec::new();
        push_optional(&mut out, 1, &self.header);
        push_repeated(&mut out, 2, &self.items);
        assert(fields_view(out@) =~= self.fields());
        out
    }

    fn from_fields(fs: &Vec<WireField>) -> (r: Result<Self, KiCadError>) {
        let header = nested_at::<ItemHeader>(fs, 1)?;
        let items = all_nested_at::<Kiid>(fs, 2)?;
        Ok(RemoveFromSelection { header, items })
    }
}

/// Asks whether a point hits an item.
#[derive(Debug, PartialEq)]
pub struct HitTest {
    pub header: Option<ItemHeader>,
    pub id: Option<Kiid>,
    pub position: Option<Vector2>,
    pub tolerance: i32,
}

impl WireMessage for HitTest {
    open spec fn spec_schema_name() -> Seq<char> {
        "kiapi.common.commands.HitTest"@
    }

    open spec fn fields(&self) -> Seq<WireFieldV> {
        optional_nested(1, fields_of_option(self.header))
            + optional_nested(2, fields_of_option(self.id))
            + optional_nested(3, fields_of_option(self.position))
            + single(varint_field(4, i32_bits(self.tolerance)))
    }

    open spec fn decoded(fs: Seq<WireFieldV>) -> Option<Seq<WireFieldV>> {
        match (
            as_nested::<ItemHeader>(last_of(fs, 1)),
            as_nested::<Kiid>(last_of(fs, 2)),
            as_nested::<Vector2>(last_of(fs, 3)),
            as_varint(last_of(fs, 4)),
        ) {
            (Some(x0), Some(x1), Some(x2), Some(x3)) => Some(
                optional_nested(1, x0)
                    + optional_nested(2, x1)
                    + optional_nested(3, x2)
                    + single(varint_field(4, i32_bits(x3 as i32)))
            ),
            _ => None,
        }
    }

    proof fn lemma_fields_decode(&self) {
        broadcast use group_canonical_fields;

        lemma_optional_round_trip(self.header, 1);
        lemma_optional_round_trip(self.id, 2);
        lemma_optional_round_trip(self.position, 3);
        lemma_i32_bits(self.tolerance);
    }

    fn schema_name() -> (r: String) {
        String::from_str("kiapi.common.commands.HitTest")
    }

    fn to_fields(&self) -> (r: Vec<WireField>) {
        let mut out: Vec<WireField> = Vec::new();
        push_optional(&mut out, 1, &self.header);
        push_optional(&mut out, 2, &self.id);
        push_optional(&mut out, 3, &self.position);
        push_varint(&mut out, 4, self.tolerance as i64 as u64);
        assert(fields_view(out@) =~= self.fields());
        out
    }

    fn from_fields(fs: &Vec<WireField>) -> (r: Result<Self, KiCadError>) {
        let header = nested_at::<ItemHeader>(fs, 1)?;
        let id = nested_at::<Kiid>(fs, 2)?;
        let position = nested_at::<Vector2>(fs, 3)?;
        let tolerance = varint_at(fs, 4)?;
        Ok(HitTest { header, id, position, tolerance: tolerance as i32 })
    }
}

/// Whether the point hit the item.
#[derive(Debug, PartialEq)]
pub struct HitTestResponse {
    pub result: i32,
}

impl WireMessage for HitTestResponse {
    open spec fn spec_schema_name() -> Seq<char> {
        "kiapi.common.commands.HitTestResponse"@
    }

    open spec fn fields(&self) -> Seq<WireFieldV> {
        single(varint_field(1, i32_bits(self.result)))
    }

    open spec fn decoded(fs: Seq<WireFieldV>) -> Option<Seq<WireFieldV>> {
        match as_varint(last_of(fs, 1)) {
            Some(x0) => Some(single(varint_field(1, i32_bits(x0 as i32)))),
            None => None,
        }
    }

    proof fn lemma_fields_decode(&self) {
        broadcast use group_canonical_fields;

        lemma_i32_bits(self.result);
    }

    fn schema_name() -> (r: String) {
        String::from_str("kiapi.common.commands.HitTestResponse")
    }

    fn to_fields(&self) -> (r: Vec<WireField>) {
        let mut out: Vec<WireField> = Vec::new();
        push_varint(&mut out, 1, self.result as i64 as u64);
        assert(fields_view(out@) =~= self.fields());
        out
    }

    fn from_fields(fs: &Vec<WireField>) -> (r: Result<Self, KiCadError>) {
        let result = varint_at(fs, 1)?;
        Ok(HitTestResponse { result: result as i32 })
    }
}

/// The selection's text form and the identifiers it holds.
#[derive(Debug, PartialEq)]
pub struct SavedSelectionResponse {
    pub ids: Vec<Kiid>,
    pub contents: String,
}

impl WireMessage for SavedSelectionResponse {
    open spec fn spec_schema_name() -> Seq<char> {
        "kiapi.common.commands.SavedSelectionResponse"@
    }

    open spec fn fields(&self) -> Seq<WireFieldV> {
        repeated_nested(1, fields_of_all(self.ids@)) + single(text_field(2, self.contents@))
    }

    open spec fn decoded(fs: Seq<WireFieldV>) -> Option<Seq<WireFieldV>> {
        match (as_nested_all::<Kiid>(all_of(fs, 1)), as_text(last_of(fs, 2))) {
            (Some(x0), Some(x1)) => Some(repeated_nested(1, x0) + single(text_field(2, x1))),
            _ => None,
        }
    }

    proof fn lemma_fields_decode(&self) {
        broadcast use {group_canonical_fields, encode_utf8_decode_utf8, encode_utf8_valid_utf8};

        lemma_repeated_round_trip(self.ids@, 1);
    }

    fn schema_name() -> (r: String) {
        String::from_str("kiapi.common.commands.SavedSelectionResponse")
    }

    fn to_fields(&self) -> (r: Vec<WireField>) {
        let mut out: Vec<WireField> = Vec::new();
        push_repeated(&mut out, 1, &self.ids);
        push_text(&mut out, 2, &self.contents);
        assert(fields_view(out@) =~= self.fields());
        out
    }

    fn from_fields(fs: &Vec<WireField>) -> (r: Result<Self, KiCadError>) {
        let ids = all_nested_at::<Kiid>(fs, 1)?;
        let contents = text_at(fs, 2)?;
        Ok(SavedSelectionResponse { ids, contents })
    }
}

/// Creates the items that a text form describes.
#[derive(Debug, PartialEq)]
pub struct ParseAndCreateItemsFromString {
    pub document: Option<DocumentSpecifier>,
    pub contents: String,
}

impl WireMessage for ParseAndCreateItemsFromString {
    open spec fn spec_schema_name() -> Seq<char> {
        "kiapi.common.commands.ParseAndCreateItemsFromString"@
    }

    open spec fn fields(&self) -> Seq<WireFieldV> {
        optional_nested(1, fields_of_option(self.document)) + single(text_field(2, self.contents@))
    }

    open spec fn decoded(fs: Seq<WireFieldV>) -> Option<Seq<WireFieldV>> {
        match (as_nested::<DocumentSpecifier>(last_of(fs, 1)), as_text(last_of(fs, 2))) {
            (Some(x0), Some(x1)) => Some(optional_nested(1, x0) + single(text_field(2, x1))),
            _ => None,
        }
    }

    proof fn lemma_fields_decode(&self) {
        broadcast use {group_canonical_fields, encode_utf8_decode_utf8, encode_utf8_valid_utf8};

        lemma_optional_round_trip(self.document, 1);
    }

    fn schema_name() -> (r: String) {
        String::from_str("kiapi.common.commands.ParseAndCreateItemsFromString")
    }

    fn to_fields(&self) -> (r: Vec<WireField>) {
        let mut out: Vec<WireField> = Vec::new();
        push_optional(&mut out, 1, &self.document);
        push_text(&mut out, 2, &self.contents);
        assert(fields_view(out@) =~= self.fields());
        out
    }

    fn from_fields(fs: &Vec<WireField>) -> (r: Result<Self, KiCadError>) {
        let document = nested_at::<DocumentSpecifier>(fs, 1)?;
        let contents = text_at(fs, 2)?;
        Ok(ParseAndCreateItemsFromString { document, contents })
    }
}


/// Which of the two kinds of text an item is.
#[derive(Debug, PartialEq)]
pub enum Inner {
    Text(Text),
    Textbox(TextBox),
}

/// The canonical fields of a text item's kind: none, or the one alternative.
pub open spec fn inner_fields(o: Option<Inner>) -> Seq<WireFieldV> {
    match o {
        None => Seq::empty(),
        Some(Inner::Text(t)) => single(nested_field(1, t.fields())),
        Some(Inner::Textbox(b)) => single(nested_field(2, b.fields())),
    }
}

/// Decoding the alternative that counts, as canonical fields.
pub open spec fn inner_decoded(o: Option<WireFieldV>) -> Option<Seq<WireFieldV>> {
    match o {
        None => Some(Seq::empty()),
        Some(f) => if f.number == 1 {
            match as_nested_value::<Text>(f.value) {
                Some(c) => Some(single(nested_field(1, c))),
                None => None,
            }
        } else {
            match as_nested_value::<TextBox>(f.value) {
                Some(c) => Some(single(nested_field(2, c))),
                None => None,
            }
        },
    }
}

proof fn lemma_inner_round_trip(o: Option<Inner>)
    requires
        encode_fields(inner_fields(o)).len() <= u64::MAX,
    ensures
        inner_decoded(last_among(inner_fields(o), 1, 2)) == Some(inner_fields(o)),
        fields_numbers_ok(inner_fields(o)),
{
    broadcast use group_canonical_fields;

    match o {
        None => {},
        Some(Inner::Text(t)) => {
            lemma_nested_round_trip(t);
        },
        Some(Inner::Textbox(b)) => {
            lemma_nested_round_trip(b);
        },
    }
}

/// Decodes the alternative that counts among a text item's kinds.
fn inner_from_fields(fs: &Vec<WireField>) -> (r: Result<Option<Inner>, KiCadError>)
    ensures
        match inner_decoded(last_among(fields_view(fs@), 1, 2)) {
            Some(c) => r matches Ok(o) && inner_fields(o) == c,
            None => r matches Err(KiCadError::MalformedEnvelope),
        },
{
    match find_last_among(fs, 1, 2) {
        None => Ok(None),
        Some(i) => {
            let f = &fs[i];
            match &f.value {
                WireValue::Delimited(b) => {
                    if f.number == 1 {
                        let t = decode_message::<Text>(b.as_slice())?;
                        Ok(Some(Inner::Text(t)))
                    } else {
                        let tb = decode_message::<TextBox>(b.as_slice())?;
                        Ok(Some(Inner::Textbox(tb)))
                    }
                },
                _ => Err(KiCadError::MalformedEnvelope),
            }
        },
    }
}

/// A text item: plain text or a text box.
#[derive(Debug, PartialEq)]
pub struct TextOrTextBox {
    pub inner: Option<Inner>,
}

impl WireMessage for TextOrTextBox {
    open spec fn spec_schema_name() -> Seq<char> {
        "kiapi.common.commands.TextOrTextBox"@
    }

    open spec fn fields(&self) -> Seq<WireFieldV> {
        inner_fields(self.inner)
    }

    open spec fn decoded(fs: Seq<WireFieldV>) -> Option<Seq<WireFieldV>> {
        inner_decoded(last_among(fs, 1, 2))
    }

    proof fn lemma_fields_decode(&self) {
        lemma_inner_round_trip(self.inner);
    }

    fn schema_name() -> (r: String) {
        String::from_str("kiapi.common.commands.TextOrTextBox")
    }

    fn to_fields(&self) -> (r: Vec<WireField>) {
        let mut out: Vec<WireField> = Vec::new();
        match &self.inner {
            None => {},
            Some(Inner::Text(t)) => push_nested(&mut out, 1, t),
            Some(Inner::Textbox(b)) => push_nested(&mut out, 2, b),
        }
        assert(fields_view(out@) =~= self.fields());
        out
    }

    fn from_fields(fs: &Vec<WireField>) -> (r: Result<Self, KiCadError>) {
        let inner = inner_from_fields(fs)?;
        Ok(TextOrTextBox { inner })
    }
}

/// Asks for the bounding box of a temporary text item.
#[derive(Debug, PartialEq)]
pub struct GetTextExtents {
    pub text: Option<Text>,
}

impl WireMessage for GetTextExtents {
    open spec fn spec_schema_name() -> Seq<char> {
        "kiapi.common.commands.GetTextExtents"@
    }

    open spec fn fields(&self) -> Seq<WireFieldV> {
        optional_nested(1, fields_of_option(self.text))
    }

    open spec fn decoded(fs: Seq<WireFieldV>) -> Option<Seq<WireFieldV>> {
        match as_nested::<Text>(last_of(fs, 1)) {
            Some(x0) => Some(optional_nested(1, x0)),
            None => None,
        }
    }

    proof fn lemma_fields_decode(&self) {
        broadcast use group_canonical_fields;

        lemma_optional_round_trip(self.text, 1);
    }

    fn schema_name() -> (r: String) {
        String::from_str("kiapi.common.commands.GetTextExtents")
    }

    fn to_fields(&self) -> (r: Vec<WireField>) {
        let mut out: Vec<WireField> = Vec::new();
        push_optional(&mut out, 1, &self.text);
        assert(fields_view(out@) =~= self.fields());
        out
    }

    fn from_fields(fs: &Vec<WireField>) -> (r: Result<Self, KiCadError>) {
        let text = nested_at::<Text>(fs, 1)?;
        Ok(GetTextExtents { text })
    }
}

/// Asks for text items rendered as shapes.
#[derive(Debug, PartialEq)]
pub struct GetTextAsShapes {
    pub text: Vec<TextOrTextBox>,
}

impl WireMessage for GetTextAsShapes {
    open spec fn spec_schema_name() -> Seq<char> {
        "kiapi.common.commands.GetTextAsShapes"@
    }

    open spec fn fields(&self) -> Seq<WireFieldV> {
        repeated_nested(1, fields_of_all(self.text@))
    }

    open spec fn decoded(fs: Seq<WireFieldV>) -> Option<Seq<WireFieldV>> {
        match as_nested_all::<TextOrTextBox>(all_of(fs, 1)) {
            Some(x0) => Some(repeated_nested(1, x0)),
            None => None,
        }
    }

    proof fn lemma_fields_decode(&self) {
        broadcast use group_canonical_fields;

        lemma_repeated_round_trip(self.text@, 1);
    }

    fn schema_name() -> (r: String) {
        String::from_str("kiapi.common.commands.GetTextAsShapes")
    }

    fn to_fields(&self) -> (r: Vec<WireField>) {
        let mut out: Vec<WireField> = Vec::new();
        push_repeated(&mut out, 1, &self.text);
        assert(fields_view(out@) =~= self.fields());
        out
    }

    fn from_fields(fs: &Vec<WireField>) -> (r: Result<Self, KiCadError>) {
        let text = all_nested_at::<TextOrTextBox>(fs, 1)?;
        Ok(GetTextAsShapes { text })
    }
}

/// A text item and the shapes it renders as.
#[derive(Debug, PartialEq)]
pub struct TextWithShapes {
    pub text: Option<TextOrTextBox>,
    pub shapes: Option<CompoundShape>,
}

impl WireMessage for TextWithShapes {
    open spec fn spec_schema_name() -> Seq<char> {
        "kiapi.common.commands.TextWithShapes"@
    }

    open spec fn fields(&self) -> Seq<WireFieldV> {
        optional_nested(1, fields_of_option(self.text))
            + optional_nested(2, fields_of_option(self.shapes))
    }

    open spec fn decoded(fs: Seq<WireFieldV>) -> Option<Seq<WireFieldV>> {
        match (
            as_nested::<TextOrTextBox>(last_of(fs, 1)),
            as_nested::<CompoundShape>(last_of(fs, 2)),
        ) {
            (Some(x0), Some(x1)) => Some(optional_nested(1, x0) + optional_nested(2, x1)),
            _ => None,
        }
    }

    proof fn lemma_fields_decode(&self) {
        broadcast use group_canonical_fields;

        lemma_optional_round_trip(self.text, 1);
        lemma_optional_round_trip(self.shapes, 2);
    }

    fn schema_name() -> (r: String) {
        String::from_str("kiapi.common.commands.TextWithShapes")
    }

    fn to_fields(&self) -> (r: Vec<WireField>) {
        let mut out: Vec<WireField> = Vec::new();
        push_optional(&mut out, 1, &self.text);
        push_optional(&mut out, 2, &self.shapes);
        assert(fields_view(out@) =~= self.fields());
        out
    }

    fn from_fields(fs: &Vec<WireField>) -> (r: Result<Self, KiCadError>) {
        let text = nested_at::<TextOrTextBox>(fs, 1)?;
        let shapes = nested_at::<CompoundShape>(fs, 2)?;
        Ok(TextWithShapes { text, shapes })
    }
}

/// Text items with the shapes they render as.
#[derive(Debug, PartialEq)]
pub struct GetTextAsShapesResponse {
    pub text_with_shapes: Vec<TextWithShapes>,
}

impl WireMessage for GetTextAsShapesResponse {
    open spec fn spec_schema_name() -> Seq<char> {
        "kiapi.common.commands.GetTextAsShapesResponse"@
    }

    open spec fn fields(&self) -> Seq<WireFieldV> {
        repeated_nested(1, fields_of_all(self.text_with_shapes@))
    }

    open spec fn decoded(fs: Seq<WireFieldV>) -> Option<Seq<WireFieldV>> {
        match as_nested_all::<TextWithShapes>(all_of(fs, 1)) {
            Some(x0) => Some(repeated_nested(1, x0)),
            None => None,
        }
    }

    proof fn lemma_fields_decode(&self) {
        broadcast use group_canonical_fields;

        lemma_repeated_round_trip(self.text_with_shapes@, 1);
    }

    fn schema_name() -> (r: String) {
        String::from_str("kiapi.common.commands.GetTextAsShapesResponse")
    }

    fn to_fields(&self) -> (r: Vec<WireField>) {
        let mut out: Vec<WireField> = Vec::new();
        push_repeated(&mut out, 1, &self.text_with_shapes);
        assert(fields_view(out@) =~= self.fields());
        out
    }

    fn from_fields(fs: &Vec<WireField>) -> (r: Result<Self, KiCadError>) {
        let text_with_shapes = all_nested_at::<TextWithShapes>(fs, 1)?;
        Ok(GetTextAsShapesResponse { text_with_shapes })
    }
}

/// The bounding boxes of items, in the order of the items.
#[derive(Debug, PartialEq)]
pub struct GetBoundingBoxResponse {
    pub items: Vec<Kiid>,
    pub boxes: Vec<Box2>,
}

impl WireMessage for GetBoundingBoxResponse {
    open spec fn spec_schema_name() -> Seq<char> {
        "kiapi.common.commands.GetBoundingBoxResponse"@
    }

    open spec fn fields(&self) -> Seq<WireFieldV> {
        repeated_nested(1, fields_of_all(self.items@))
            + repeated_nested(2, fields_of_all(self.boxes@))
    }

    open spec fn decoded(fs: Seq<WireFieldV>) -> Option<Seq<WireFieldV>> {
        match (as_nested_all::<Kiid>(all_of(fs, 1)), as_nested_all::<Box2>(all_of(fs, 2))) {
            (Some(x0), Some(x1)) => Some(repeated_nested(1, x0) + repeated_nested(2, x1)),
            _ => None,
        }
    }

    proof fn lemma_fields_decode(&self) {
        broadcast use group_canonical_fields;

        lemma_repeated_round_trip(self.items@, 1);
        lemma_repeated_round_trip(self.boxes@, 2);
    }

    fn schema_name() -> (r: String) {
        String::from_str("kiapi.common.commands.GetBoundingBoxResponse")
    }

    fn to_fields(&self) -> (r: Vec<WireField>) {
        let mut out: Vec<WireField> = Vec::new();
        push_repeated(&mut out, 1, &self.items);
        push_repeated(&mut out, 2, &self.boxes);
        assert(fields_view(out@) =~= self.fields());
        out
    }

    fn from_fields(fs: &Vec<WireField>) -> (r: Result<Self, KiCadError>) {
        let items = all_nested_at::<Kiid>(fs, 1)?;
        let boxes = all_nested_at::<Box2>(fs, 2)?;
        Ok(GetBoundingBoxResponse { items, boxes })
    }
}

/// The net classes.
#[derive(Debug, PartialEq)]
pub struct NetClassesResponse {
    pub net_classes: Vec<NetClass>,
}

impl WireMessage for NetClassesResponse {
    open spec fn spec_schema_name() -> Seq<char> {
        "kiapi.common.commands.NetClassesResponse"@
    }

    open spec fn fields(&self) -> Seq<WireFieldV> {
        repeated_nested(1, fields_of_all(self.net_classes@))
    }

    open spec fn decoded(fs: Seq<WireFieldV>) -> Option<Seq<WireFieldV>> {
        match as_nested_all::<NetClass>(all_of(fs, 1)) {
            Some(x0) => Some(repeated_nested(1, x0)),
            None => None,
        }
    }

    proof fn lemma_fields_decode(&self) {
        broadcast use group_canonical_fields;

        lemma_repeated_round_trip(self.net_classes@, 1);
    }

    fn schema_name() -> (r: String) {
        String::from_str("kiapi.common.commands.NetClassesResponse")
    }

    fn to_fields(&self) -> (r: Vec<WireField>) {
        let mut out: Vec<WireField> = Vec::new();
        push_repeated(&mut out, 1, &self.net_classes);
        assert(fields_view(out@) =~= self.fields());
        out
    }

    fn from_fields(fs: &Vec<WireField>) -> (r: Result<Self, KiCadError>) {
        let net_classes = all_nested_at::<NetClass>(fs, 1)?;
        Ok(NetClassesResponse { net_classes })
    }
}

/// Sets the net classes, merging with or replacing the existing ones.
#[derive(Debug, PartialEq)]
pub struct SetNetClasses {
    pub net_classes: Vec<NetClass>,
    pub merge_mode: i32,
}

impl WireMessage for SetNetClasses {
    open spec fn spec_schema_name() -> Seq<char> {
        "kiapi.common.commands.SetNetClasses"@
    }

    open spec fn fields(&self) -> Seq<WireFieldV> {
        repeated_nested(1, fields_of_all(self.net_classes@))
            + single(varint_field(3, i32_bits(self.merge_mode)))
    }

    open spec fn decoded(fs: Seq<WireFieldV>) -> Option<Seq<WireFieldV>> {
        match (as_nested_all::<NetClass>(all_of(fs, 1)), as_varint(last_of(fs, 3))) {
            (Some(x0), Some(x1)) => Some(
                repeated_nested(1, x0)
                    + single(varint_field(3, i32_bits(x1 as i32)))
            ),
            _ => None,
        }
    }

    proof fn lemma_fields_decode(&self) {
        broadcast use group_canonical_fields;

        lemma_repeated_round_trip(self.net_classes@, 1);
        lemma_i32_bits(self.merge_mode);
    }

    fn schema_name() -> (r: String) {
        String::from_str("kiapi.common.commands.SetNetClasses")
    }

    fn to_fields(&self) -> (r: Vec<WireField>) {
        let mut out: Vec<WireField> = Vec::new();
        push_repeated(&mut out, 1, &self.net_classes);
        push_varint(&mut out, 3, self.merge_mode as i64 as u64);
        assert(fields_view(out@) =~= self.fields());
        out
    }

    fn from_fields(fs: &Vec<WireField>) -> (r: Result<Self, KiCadError>) {
        let net_classes = all_nested_at::<NetClass>(fs, 1)?;
        let merge_mode = varint_at(fs, 3)?;
        Ok(SetNetClasses { net_classes, merge_mode: merge_mode as i32 })
    }
}

/// Asks for texts with their variables expanded.
#[derive(Debug, PartialEq)]
pub struct ExpandTextVariables {
    pub document: Option<DocumentSpecifier>,
    pub text: Vec<String>,
}

impl WireMessage for ExpandTextVariables {
    open spec fn spec_schema_name() -> Seq<char> {
        "kiapi.common.commands.ExpandTextVariables"@
    }

    open spec fn fields(&self) -> Seq<WireFieldV> {
        optional_nested(1, fields_of_option(self.document))
            + repeated_bytes(2, texts_bytes(self.text@))
    }

    open spec fn decoded(fs: Seq<WireFieldV>) -> Option<Seq<WireFieldV>> {
        match (as_nested::<DocumentSpecifier>(last_of(fs, 1)), as_text_all(all_of(fs, 2))) {
            (Some(x0), Some(x1)) => Some(optional_nested(1, x0) + repeated_bytes(2, x1)),
            _ => None,
        }
    }

    proof fn lemma_fields_decode(&self) {
        broadcast use group_canonical_fields;

        lemma_optional_round_trip(self.document, 1);
    }

    fn schema_name() -> (r: String) {
        String::from_str("kiapi.common.commands.ExpandTextVariables")
    }

    fn to_fields(&self) -> (r: Vec<WireField>) {
        let mut out: Vec<WireField> = Vec::new();
        push_optional(&mut out, 1, &self.document);
        push_repeated_text(&mut out, 2, &self.text);
        assert(fields_view(out@) =~= self.fields());
        out
    }

    fn from_fields(fs: &Vec<WireField>) -> (r: Result<Self, KiCadError>) {
        let document = nested_at::<DocumentSpecifier>(fs, 1)?;
        let text = all_text_at(fs, 2)?;
        Ok(ExpandTextVariables { document, text })
    }
}

/// Texts with their variables expanded, in order.
#[derive(Debug, PartialEq)]
pub struct ExpandTextVariablesResponse {
    pub text: Vec<String>,
}

impl WireMessage for ExpandTextVariablesResponse {
    open spec fn spec_schema_name() -> Seq<char> {
        "kiapi.common.commands.ExpandTextVariablesResponse"@
    }

    open spec fn fields(&self) -> Seq<WireFieldV> {
        repeated_bytes(1, texts_bytes(self.text@))
    }

    open spec fn decoded(fs: Seq<WireFieldV>) -> Option<Seq<WireFieldV>> {
        match as_text_all(all_of(fs, 1)) {
            Some(x0) => Some(repeated_bytes(1, x0)),
            None => None,
        }
    }

    proof fn lemma_fields_decode(&self) {
        broadcast use group_canonical_fields;


    }

    fn schema_name() -> (r: String) {
        String::from_str("kiapi.common.commands.ExpandTextVariablesResponse")
    }

    fn to_fields(&self) -> (r: Vec<WireField>) {
        let mut out: Vec<WireField> = Vec::new();
        push_repeated_text(&mut out, 1, &self.text);
        assert(fields_view(out@) =~= self.fields());
        out
    }

    fn from_fields(fs: &Vec<WireField>) -> (r: Result<Self, KiCadError>) {
        let text = all_text_at(fs, 1)?;
        Ok(ExpandTextVariablesResponse { text })
    }
}

/// Sets a document's text variables, merging with or replacing the existing ones.
#[derive(Debug, PartialEq)]
pub struct SetTextVariables {
    pub document: Option<DocumentSpecifier>,
    pub variables: Option<TextVariables>,
    pub merge_mode: i32,
}

impl WireMessage for SetTextVariables {
    open spec fn spec_schema_name() -> Seq<char> {
        "kiapi.common.commands.SetTextVariables"@
    }

    open spec fn fields(&self) -> Seq<WireFieldV> {
        optional_nested(1, fields_of_option(self.document))
            + optional_nested(2, fields_of_option(self.variables))
            + single(varint_field(3, i32_bits(self.merge_mode)))
    }

    open spec fn decoded(fs: Seq<WireFieldV>) -> Option<Seq<WireFieldV>> {
        match (
            as_nested::<DocumentSpecifier>(last_of(fs, 1)),
            as_nested::<TextVariables>(last_of(fs, 2)),
            as_varint(last_of(fs, 3)),
        ) {
            (Some(x0), Some(x1), Some(x2)) => Some(
                optional_nested(1, x0)
                    + optional_nested(2, x1)
                    + single(varint_field(3, i32_bits(x2 as i32)))
            ),
            _ => None,
        }
    }

    proof fn lemma_fields_decode(&self) {
        broadcast use group_canonical_fields;

        lemma_optional_round_trip(self.document, 1);
        lemma_optional_round_trip(self.variables, 2);
        lemma_i32_bits(self.merge_mode);
    }

    fn schema_name() -> (r: String) {
        String::from_str("kiapi.common.commands.SetTextVariables")
    }

    fn to_fields(&self) -> (r: Vec<WireField>) {
        let mut out: Vec<WireField> = Vec::new();
        push_optional(&mut out, 1, &self.document);
        push_optional(&mut out, 2, &self.variables);
        push_varint(&mut out, 3, self.merge_mode as i64 as u64);
        assert(fields_view(out@) =~= self.fields());
        out
    }

    fn from_fields(fs: &Vec<WireField>) -> (r: Result<Self, KiCadError>) {
        let document = nested_at::<DocumentSpecifier>(fs, 1)?;
        let variables = nested_at::<TextVariables>(fs, 2)?;
        let merge_mode = varint_at(fs, 3)?;
        Ok(SetTextVariables { document, variables, merge_mode: merge_mode as i32 })
    }
}


/// The outcome of running an action.
#[derive(Clone, Copy, Debug, PartialEq, Eq, Hash, PartialOrd, Ord)]
pub enum RunActionStatus {
    RasUnknown,
    /// The action was submitted successfully.
    RasOk,
    /// The action was unknown for the targeted frame.
    RasInvalid,
    /// The targeted frame was not open when the call was submitted.
    RasFrameNotOpen,
}

impl RunActionStatus {
    /// The name the schema gives the value.
    pub open spec fn spec_str_name(&self) -> Seq<char> {
        match self {
            RunActionStatus::RasUnknown => "RAS_UNKNOWN"@,
            RunActionStatus::RasOk => "RAS_OK"@,
            RunActionStatus::RasInvalid => "RAS_INVALID"@,
            RunActionStatus::RasFrameNotOpen => "RAS_FRAME_NOT_OPEN"@,
        }
    }

    /// The value of a schema name, if it is one.
    pub open spec fn spec_from_str_name(s: Seq<char>) -> Option<Self> {
        if s == "RAS_UNKNOWN"@ {
            Some(RunActionStatus::RasUnknown)
        } else if s == "RAS_OK"@ {
            Some(RunActionStatus::RasOk)
        } else if s == "RAS_INVALID"@ {
            Some(RunActionStatus::RasInvalid)
        } else if s == "RAS_FRAME_NOT_OPEN"@ {
            Some(RunActionStatus::RasFrameNotOpen)
        } else {
            None
        }
    }

    /// The number that stands for the value on the wire.
    pub open spec fn spec_value(&self) -> i32 {
        match self {
            RunActionStatus::RasUnknown => 0,
            RunActionStatus::RasOk => 1,
            RunActionStatus::RasInvalid => 2,
            RunActionStatus::RasFrameNotOpen => 3,
        }
    }

    /// The value a number stands for; an unknown number stands for the first value.
    pub open spec fn spec_from_i32(v: i32) -> Self {
        if v == 1 {
            RunActionStatus::RasOk
        } else if v == 2 {
            RunActionStatus::RasInvalid
        } else if v == 3 {
            RunActionStatus::RasFrameNotOpen
        } else {
            RunActionStatus::RasUnknown
        }
    }

    /// The name the schema gives the value.
    pub fn as_str_name(&self) -> (r: &'static str)
        ensures
            r@ == self.spec_str_name(),
    {
        match self {
            RunActionStatus::RasUnknown => "RAS_UNKNOWN",
            RunActionStatus::RasOk => "RAS_OK",
            RunActionStatus::RasInvalid => "RAS_INVALID",
            RunActionStatus::RasFrameNotOpen => "RAS_FRAME_NOT_OPEN",
        }
    }

    /// The value a schema name stands for, if any.
    pub fn from_str_name(value: &str) -> (r: Option<Self>)
        ensures
            r == Self::spec_from_str_name(value@),
    {
        if str_eq(value, "RAS_UNKNOWN") {
            Some(RunActionStatus::RasUnknown)
        } else if str_eq(value, "RAS_OK") {
            Some(RunActionStatus::RasOk)
        } else if str_eq(value, "RAS_INVALID") {
            Some(RunActionStatus::RasInvalid)
        } else if str_eq(value, "RAS_FRAME_NOT_OPEN") {
            Some(RunActionStatus::RasFrameNotOpen)
        } else {
            None
        }
    }

    /// The value a number stands for; an unknown number stands for the first value.
    pub fn from_i32(v: i32) -> (r: Self)
        ensures
            r == Self::spec_from_i32(v),
    {
        if v == 1 {
            RunActionStatus::RasOk
        } else if v == 2 {
            RunActionStatus::RasInvalid
        } else if v == 3 {
            RunActionStatus::RasFrameNotOpen
        } else {
            RunActionStatus::RasUnknown
        }
    }

    /// Reading a value's schema name gives the value back.
    pub proof fn lemma_str_name_round_trip(self)
        ensures
            Self::spec_from_str_name(self.spec_str_name()) == Some(self),
    {
        match self {
            RunActionStatus::RasUnknown => {
                reveal_strlit("RAS_UNKNOWN");
            },
            RunActionStatus::RasOk => {
                reveal_strlit("RAS_OK");
                reveal_strlit("RAS_UNKNOWN");
                assert("RAS_OK"@.len() != "RAS_UNKNOWN"@.len());
            },
            RunActionStatus::RasInvalid => {
                reveal_strlit("RAS_INVALID");
                reveal_strlit("RAS_OK");
                reveal_strlit("RAS_UNKNOWN");
                assert("RAS_INVALID"@[4] != "RAS_UNKNOWN"@[4]);
                assert("RAS_INVALID"@.len() != "RAS_OK"@.len());
            },
            RunActionStatus::RasFrameNotOpen => {
                reveal_strlit("RAS_FRAME_NOT_OPEN");
                reveal_strlit("RAS_INVALID");
                reveal_strlit("RAS_OK");
                reveal_strlit("RAS_UNKNOWN");
                assert("RAS_FRAME_NOT_OPEN"@.len() != "RAS_UNKNOWN"@.len());
                assert("RAS_FRAME_NOT_OPEN"@.len() != "RAS_OK"@.len());
                assert("RAS_FRAME_NOT_OPEN"@.len() != "RAS_INVALID"@.len());
            },
        }
    }
}

/// What to do with a group of edits.
#[derive(Clone, Copy, Debug, PartialEq, Eq, Hash, PartialOrd, Ord)]
pub enum CommitAction {
    CmaUnknown,
    /// Commit the changes to the design.
    CmaCommit,
    /// Cancel this commit.
    CmaDrop,
}

impl CommitAction {
    /// The name the schema gives the value.
    pub open spec fn spec_str_name(&self) -> Seq<char> {
        match self {
            CommitAction::CmaUnknown => "CMA_UNKNOWN"@,
            CommitAction::CmaCommit => "CMA_COMMIT"@,
            CommitAction::CmaDrop => "CMA_DROP"@,
        }
    }

    /// The value of a schema name, if it is one.
    pub open spec fn spec_from_str_name(s: Seq<char>) -> Option<Self> {
        if s == "CMA_UNKNOWN"@ {
            Some(CommitAction::CmaUnknown)
        } else if s == "CMA_COMMIT"@ {
            Some(CommitAction::CmaCommit)
        } else if s == "CMA_DROP"@ {
            Some(CommitAction::CmaDrop)
        } else {
            None
        }
    }

    /// The number that stands for the value on the wire.
    pub open spec fn spec_value(&self) -> i32 {
        match self {
            CommitAction::CmaUnknown => 0,
            CommitAction::CmaCommit => 1,
            CommitAction::CmaDrop => 2,
        }
    }

    /// The value a number stands for; an unknown number stands for the first value.
    pub open spec fn spec_from_i32(v: i32) -> Self {
        if v == 1 {
            CommitAction::CmaCommit
        } else if v == 2 {
            CommitAction::CmaDrop
        } else {
            CommitAction::CmaUnknown
        }
    }

    /// The name the schema gives the value.
    pub fn as_str_name(&self) -> (r: &'static str)
        ensures
            r@ == self.spec_str_name(),
    {
        match self {
            CommitAction::CmaUnknown => "CMA_UNKNOWN",
            CommitAction::CmaCommit => "CMA_COMMIT",
            CommitAction::CmaDrop => "CMA_DROP",
        }
    }

    /// The value a schema name stands for, if any.
    pub fn from_str_name(value: &str) -> (r: Option<Self>)
        ensures
            r == Self::spec_from_str_name(value@),
    {
        if str_eq(value, "CMA_UNKNOWN") {
            Some(CommitAction::CmaUnknown)
        } else if str_eq(value, "CMA_COMMIT") {
            Some(CommitAction::CmaCommit)
        } else if str_eq(value, "CMA_DROP") {
            Some(CommitAction::CmaDrop)
        } else {
            None
        }
    }

    /// The value a number stands for; an unknown number stands for the first value.
    pub fn from_i32(v: i32) -> (r: Self)
        ensures
            r == Self::spec_from_i32(v),
    {
        if v == 1 {
            CommitAction::CmaCommit
        } else if v == 2 {
            CommitAction::CmaDrop
        } else {
            CommitAction::CmaUnknown
        }
    }

    /// Reading a value's schema name gives the value back.
    pub proof fn lemma_str_name_round_trip(self)
        ensures
            Self::spec_from_str_name(self.spec_str_name()) == Some(self),
    {
        match self {
            CommitAction::CmaUnknown => {
                reveal_strlit("CMA_UNKNOWN");
            },
            CommitAction::CmaCommit => {
                reveal_strlit("CMA_COMMIT");
                reveal_strlit("CMA_UNKNOWN");
                assert("CMA_COMMIT"@.len() != "CMA_UNKNOWN"@.len());
            },
            CommitAction::CmaDrop => {
                reveal_strlit("CMA_COMMIT");
                reveal_strlit("CMA_DROP");
                reveal_strlit("CMA_UNKNOWN");
                assert("CMA_DROP"@.len() != "CMA_UNKNOWN"@.len());
                assert("CMA_DROP"@.len() != "CMA_COMMIT"@.len());
            },
        }
    }
}

/// The outcome for one item of a request that creates or updates items.
#[derive(Clone, Copy, Debug, PartialEq, Eq, Hash, PartialOrd, Ord)]
pub enum ItemStatusCode {
    IscUnknown,
    /// The item was created or updated.
    IscOk,
    /// The item's type is not valid for the given document.
    IscInvalidType,
    /// The item to be created had an identifier already in use.
    IscExisting,
    /// The item to be updated did not exist in the given document.
    IscNonexistent,
    /// The item to be updated may not be modified.
    IscImmutable,
    /// The item to be created does not have valid data for the given document.
    IscInvalidData,
}

impl ItemStatusCode {
    /// The name the schema gives the value.
    pub open spec fn spec_str_name(&self) -> Seq<char> {
        match self {
            ItemStatusCode::IscUnknown => "ISC_UNKNOWN"@,
            ItemStatusCode::IscOk => "ISC_OK"@,
            ItemStatusCode::IscInvalidType => "ISC_INVALID_TYPE"@,
            ItemStatusCode::IscExisting => "ISC_EXISTING"@,
            ItemStatusCode::IscNonexistent => "ISC_NONEXISTENT"@,
            ItemStatusCode::IscImmutable => "ISC_IMMUTABLE"@,
            ItemStatusCode::IscInvalidData => "ISC_INVALID_DATA"@,
        }
    }

    /// The value of a schema name, if it is one.
    pub open spec fn spec_from_str_name(s: Seq<char>) -> Option<Self> {
        if s == "ISC_UNKNOWN"@ {
            Some(ItemStatusCode::IscUnknown)
        } else if s == "ISC_OK"@ {
            Some(ItemStatusCode::IscOk)
        } else if s == "ISC_INVALID_TYPE"@ {
            Some(ItemStatusCode::IscInvalidType)
        } else if s == "ISC_EXISTING"@ {
            Some(ItemStatusCode::IscExisting)
        } else if s == "ISC_NONEXISTENT"@ {
            Some(ItemStatusCode::IscNonexistent)
        } else if s == "ISC_IMMUTABLE"@ {
            Some(ItemStatusCode::IscImmutable)
        } else if s == "ISC_INVALID_DATA"@ {
            Some(ItemStatusCode::IscInvalidData)
        } else {
            None
        }
    }

    /// The number that stands for the value on the wire.
    pub open spec fn spec_value(&self) -> i32 {
        match self {
            ItemStatusCode::IscUnknown => 0,
            ItemStatusCode::IscOk => 1,
            ItemStatusCode::IscInvalidType => 2,
            ItemStatusCode::IscExisting => 3,
            ItemStatusCode::IscNonexistent => 4,
            ItemStatusCode::IscImmutable => 5,
            ItemStatusCode::IscInvalidData => 7,
        }
    }

    /// The value a number stands for; an unknown number stands for the first value.
    pub open spec fn spec_from_i32(v: i32) -> Self {
        if v == 1 {
            ItemStatusCode::IscOk
        } else if v == 2 {
            ItemStatusCode::IscInvalidType
        } else if v == 3 {
            ItemStatusCode::IscExisting
        } else if v == 4 {
            ItemStatusCode::IscNonexistent
        } else if v == 5 {
            ItemStatusCode::IscImmutable
        } else if v == 7 {
            ItemStatusCode::IscInvalidData
        } else {
            ItemStatusCode::IscUnknown
        }
    }

    /// The name the schema gives the value.
    pub fn as_str_name(&self) -> (r: &'static str)
        ensures
            r@ == self.spec_str_name(),
    {
        match self {
            ItemStatusCode::IscUnknown => "ISC_UNKNOWN",
            ItemStatusCode::IscOk => "ISC_OK",
            ItemStatusCode::IscInvalidType => "ISC_INVALID_TYPE",
            ItemStatusCode::IscExisting => "ISC_EXISTING",
            ItemStatusCode::IscNonexistent => "ISC_NONEXISTENT",
            ItemStatusCode::IscImmutable => "ISC_IMMUTABLE",
            ItemStatusCode::IscInvalidData => "ISC_INVALID_DATA",
        }
    }

    /// The value a schema name stands for, if any.
    pub fn from_str_name(value: &str) -> (r: Option<Self>)
        ensures
            r == Self::spec_from_str_name(value@),
    {
        if str_eq(value, "ISC_UNKNOWN") {
            Some(ItemStatusCode::IscUnknown)
        } else if str_eq(value, "ISC_OK") {
            Some(ItemStatusCode::IscOk)
        } else if str_eq(value, "ISC_INVALID_TYPE") {
            Some(ItemStatusCode::IscInvalidType)
        } else if str_eq(value, "ISC_EXISTING") {
            Some(ItemStatusCode::IscExisting)
        } else if str_eq(value, "ISC_NONEXISTENT") {
            Some(ItemStatusCode::IscNonexistent)
        } else if str_eq(value, "ISC_IMMUTABLE") {
            Some(ItemStatusCode::IscImmutable)
        } else if str_eq(value, "ISC_INVALID_DATA") {
            Some(ItemStatusCode::IscInvalidData)
        } else {
            None
        }
    }

    /// The value a number stands for; an unknown number stands for the first value.
    pub fn from_i32(v: i32) -> (r: Self)
        ensures
            r == Self::spec_from_i32(v),
    {
        if v == 1 {
            ItemStatusCode::IscOk
        } else if v == 2 {
            ItemStatusCode::IscInvalidType
        } else if v == 3 {
            ItemStatusCode::IscExisting
        } else if v == 4 {
            ItemStatusCode::IscNonexistent
        } else if v == 5 {
            ItemStatusCode::IscImmutable
        } else if v == 7 {
            ItemStatusCode::IscInvalidData
        } else {
            ItemStatusCode::IscUnknown
        }
    }

    /// Reading a value's schema name gives the value back.
    pub proof fn lemma_str_name_round_trip(self)
        ensures
            Self::spec_from_str_name(self.spec_str_name()) == Some(self),
    {
        match self {
            ItemStatusCode::IscUnknown => {
                reveal_strlit("ISC_UNKNOWN");
            },
            ItemStatusCode::IscOk => {
                reveal_strlit("ISC_OK");
                reveal_strlit("ISC_UNKNOWN");
                assert("ISC_OK"@.len() != "ISC_UNKNOWN"@.len());
            },
            ItemStatusCode::IscInvalidType => {
                reveal_strlit("ISC_INVALID_TYPE");
                reveal_strlit("ISC_OK");
                reveal_strlit("ISC_UNKNOWN");
                assert("ISC_INVALID_TYPE"@.len() != "ISC_UNKNOWN"@.len());
                assert("ISC_INVALID_TYPE"@.len() != "ISC_OK"@.len());
            },
            ItemStatusCode::IscExisting => {
                reveal_strlit("ISC_EXISTING");
                reveal_strlit("ISC_INVALID_TYPE");
                reveal_strlit("ISC_OK");
                reveal_strlit("ISC_UNKNOWN");
                assert("ISC_EXISTING"@.len() != "ISC_UNKNOWN"@.len());
                assert("ISC_EXISTING"@.len() != "ISC_OK"@.len());
                assert("ISC_EXISTING"@.len() != "ISC_INVALID_TYPE"@.len());
            },
            ItemStatusCode::IscNonexistent => {
                reveal_strlit("ISC_EXISTING");
                reveal_strlit("ISC_INVALID_TYPE");
                reveal_strlit("ISC_NONEXISTENT");
                reveal_strlit("ISC_OK");
                reveal_strlit("ISC_UNKNOWN");
                assert("ISC_NONEXISTENT"@.len() != "ISC_UNKNOWN"@.len());
                assert("ISC_NONEXISTENT"@.len() != "ISC_OK"@.len());
                assert("ISC_NONEXISTENT"@.len() != "ISC_INVALID_TYPE"@.len());
                assert("ISC_NONEXISTENT"@.len() != "ISC_EXISTING"@.len());
            },
            ItemStatusCode::IscImmutable => {
                reveal_strlit("ISC_EXISTING");
                reveal_strlit("ISC_IMMUTABLE");
                reveal_strlit("ISC_INVALID_TYPE");
                reveal_strlit("ISC_NONEXISTENT");
                reveal_strlit("ISC_OK");
                reveal_strlit("ISC_UNKNOWN");
                assert("ISC_IMMUTABLE"@.len() != "ISC_UNKNOWN"@.len());
                assert("ISC_IMMUTABLE"@.len() != "ISC_OK"@.len());
                assert("ISC_IMMUTABLE"@.len() != "ISC_INVALID_TYPE"@.len());
                assert("ISC_IMMUTABLE"@.len() != "ISC_EXISTING"@.len());
                assert("ISC_IMMUTABLE"@.len() != "ISC_NONEXISTENT"@.len());
            },
            ItemStatusCode::IscInvalidData => {
                reveal_strlit("ISC_EXISTING");
                reveal_strlit("ISC_IMMUTABLE");
                reveal_strlit("ISC_INVALID_DATA");
                reveal_strlit("ISC_INVALID_TYPE");
                reveal_strlit("ISC_NONEXISTENT");
                reveal_strlit("ISC_OK");
                reveal_strlit("ISC_UNKNOWN");
                assert("ISC_INVALID_DATA"@.len() != "ISC_UNKNOWN"@.len());
                assert("ISC_INVALID_DATA"@.len() != "ISC_OK"@.len());
                assert("ISC_INVALID_DATA"@[12] != "ISC_INVALID_TYPE"@[12]);
                assert("ISC_INVALID_DATA"@.len() != "ISC_EXISTING"@.len());
                assert("ISC_INVALID_DATA"@.len() != "ISC_NONEXISTENT"@.len());
                assert("ISC_INVALID_DATA"@.len() != "ISC_IMMUTABLE"@.len());
            },
        }
    }
}

/// The outcome for one item of a request that deletes items.
#[derive(Clone, Copy, Debug, PartialEq, Eq, Hash, PartialOrd, Ord)]
pub enum ItemDeletionStatus {
    IdsUnknown,
    IdsOk,
    /// The item did not exist in the given document.
    IdsNonexistent,
    /// The item may not be modified.
    IdsImmutable,
}

impl ItemDeletionStatus {
    /// The name the schema gives the value.
    pub open spec fn spec_str_name(&self) -> Seq<char> {
        match self {
            ItemDeletionStatus::IdsUnknown => "IDS_UNKNOWN"@,
            ItemDeletionStatus::IdsOk => "IDS_OK"@,
            ItemDeletionStatus::IdsNonexistent => "IDS_NONEXISTENT"@,
            ItemDeletionStatus::IdsImmutable => "IDS_IMMUTABLE"@,
        }
    }

    /// The value of a schema name, if it is one.
    pub open spec fn spec_from_str_name(s: Seq<char>) -> Option<Self> {
        if s == "IDS_UNKNOWN"@ {
            Some(ItemDeletionStatus::IdsUnknown)
        } else if s == "IDS_OK"@ {
            Some(ItemDeletionStatus::IdsOk)
        } else if s == "IDS_NONEXISTENT"@ {
            Some(ItemDeletionStatus::IdsNonexistent)
        } else if s == "IDS_IMMUTABLE"@ {
            Some(ItemDeletionStatus::IdsImmutable)
        } else {
            None
        }
    }

    /// The number that stands for the value on the wire.
    pub open spec fn spec_value(&self) -> i32 {
        match self {
            ItemDeletionStatus::IdsUnknown => 0,
            ItemDeletionStatus::IdsOk => 1,
            ItemDeletionStatus::IdsNonexistent => 2,
            ItemDeletionStatus::IdsImmutable => 3,
        }
    }

    /// The value a number stands for; an unknown number stands for the first value.
    pub open spec fn spec_from_i32(v: i32) -> Self {
        if v == 1 {
            ItemDeletionStatus::IdsOk
        } else if v == 2 {
            ItemDeletionStatus::IdsNonexistent
        } else if v == 3 {
            ItemDeletionStatus::IdsImmutable
        } else {
            ItemDeletionStatus::IdsUnknown
        }
    }

    /// The name the schema gives the value.
    pub fn as_str_name(&self) -> (r: &'static str)
        ensures
            r@ == self.spec_str_name(),
    {
        match self {
            ItemDeletionStatus::IdsUnknown => "IDS_UNKNOWN",
            ItemDeletionStatus::IdsOk => "IDS_OK",
            ItemDeletionStatus::IdsNonexistent => "IDS_NONEXISTENT",
            ItemDeletionStatus::IdsImmutable => "IDS_IMMUTABLE",
        }
    }

    /// The value a schema name stands for, if any.
    pub fn from_str_name(value: &str) -> (r: Option<Self>)
        ensures
            r == Self::spec_from_str_name(value@),
    {
        if str_eq(value, "IDS_UNKNOWN") {
            Some(ItemDeletionStatus::IdsUnknown)
        } else if str_eq(value, "IDS_OK") {
            Some(ItemDeletionStatus::IdsOk)
        } else if str_eq(value, "IDS_NONEXISTENT") {
            Some(ItemDeletionStatus::IdsNonexistent)
        } else if str_eq(value, "IDS_IMMUTABLE") {
            Some(ItemDeletionStatus::IdsImmutable)
        } else {
            None
        }
    }

    /// The value a number stands for; an unknown number stands for the first value.
    pub fn from_i32(v: i32) -> (r: Self)
        ensures
            r == Self::spec_from_i32(v),
    {
        if v == 1 {
            ItemDeletionStatus::IdsOk
        } else if v == 2 {
            ItemDeletionStatus::IdsNonexistent
        } else if v == 3 {
            ItemDeletionStatus::IdsImmutable
        } else {
            ItemDeletionStatus::IdsUnknown
        }
    }

    /// Reading a value's schema name gives the value back.
    pub proof fn lemma_str_name_round_trip(self)
        ensures
            Self::spec_from_str_name(self.spec_str_name()) == Some(self),
    {
        match self {
            ItemDeletionStatus::IdsUnknown => {
                reveal_strlit("IDS_UNKNOWN");
            },
            ItemDeletionStatus::IdsOk => {
                reveal_strlit("IDS_OK");
                reveal_strlit("IDS_UNKNOWN");
                assert("IDS_OK"@.len() != "IDS_UNKNOWN"@.len());
            },
            ItemDeletionStatus::IdsNonexistent => {
                reveal_strlit("IDS_NONEXISTENT");
                reveal_strlit("IDS_OK");
                reveal_strlit("IDS_UNKNOWN");
                assert("IDS_NONEXISTENT"@.len() != "IDS_UNKNOWN"@.len());
                assert("IDS_NONEXISTENT"@.len() != "IDS_OK"@.len());
            },
            ItemDeletionStatus::IdsImmutable => {
                reveal_strlit("IDS_IMMUTABLE");
                reveal_strlit("IDS_NONEXISTENT");
                reveal_strlit("IDS_OK");
                reveal_strlit("IDS_UNKNOWN");
                assert("IDS_IMMUTABLE"@.len() != "IDS_UNKNOWN"@.len());
                assert("IDS_IMMUTABLE"@.len() != "IDS_OK"@.len());
                assert("IDS_IMMUTABLE"@.len() != "IDS_NONEXISTENT"@.len());
            },
        }
    }
}

/// Which parts of an item a bounding box covers.
#[derive(Clone, Copy, Debug, PartialEq, Eq, Hash, PartialOrd, Ord)]
pub enum BoundingBoxMode {
    BbmUnknown,
    BbmItemOnly,
    BbmItemAndChildText,
}

impl BoundingBoxMode {
    /// The name the schema gives the value.
    pub open spec fn spec_str_name(&self) -> Seq<char> {
        match self {
            BoundingBoxMode::BbmUnknown => "BBM_UNKNOWN"@,
            BoundingBoxMode::BbmItemOnly => "BBM_ITEM_ONLY"@,
            BoundingBoxMode::BbmItemAndChildText => "BBM_ITEM_AND_CHILD_TEXT"@,
        }
    }

    /// The value of a schema name, if it is one.
    pub open spec fn spec_from_str_name(s: Seq<char>) -> Option<Self> {
        if s == "BBM_UNKNOWN"@ {
            Some(BoundingBoxMode::BbmUnknown)
        } else if s == "BBM_ITEM_ONLY"@ {
            Some(BoundingBoxMode::BbmItemOnly)
        } else if s == "BBM_ITEM_AND_CHILD_TEXT"@ {
            Some(BoundingBoxMode::BbmItemAndChildText)
        } else {
            None
        }
    }

    /// The number that stands for the value on the wire.
    pub open spec fn spec_value(&self) -> i32 {
        match self {
            BoundingBoxMode::BbmUnknown => 0,
            BoundingBoxMode::BbmItemOnly => 1,
            BoundingBoxMode::BbmItemAndChildText => 2,
        }
    }

    /// The value a number stands for; an unknown number stands for the first value.
    pub open spec fn spec_from_i32(v: i32) -> Self {
        if v == 1 {
            BoundingBoxMode::BbmItemOnly
        } else if v == 2 {
            BoundingBoxMode::BbmItemAndChildText
        } else {
            BoundingBoxMode::BbmUnknown
        }
    }

    /// The name the schema gives the value.
    pub fn as_str_name(&self) -> (r: &'static str)
        ensures
            r@ == self.spec_str_name(),
    {
        match self {
            BoundingBoxMode::BbmUnknown => "BBM_UNKNOWN",
            BoundingBoxMode::BbmItemOnly => "BBM_ITEM_ONLY",
            BoundingBoxMode::BbmItemAndChildText => "BBM_ITEM_AND_CHILD_TEXT",
        }
    }

    /// The value a schema name stands for, if any.
    pub fn from_str_name(value: &str) -> (r: Option<Self>)
        ensures
            r == Self::spec_from_str_name(value@),
    {
        if str_eq(value, "BBM_UNKNOWN") {
            Some(BoundingBoxMode::BbmUnknown)
        } else if str_eq(value, "BBM_ITEM_ONLY") {
            Some(BoundingBoxMode::BbmItemOnly)
        } else if str_eq(value, "BBM_ITEM_AND_CHILD_TEXT") {
            Some(BoundingBoxMode::BbmItemAndChildText)
        } else {
            None
        }
    }

    /// The value a number stands for; an unknown number stands for the first value.
    pub fn from_i32(v: i32) -> (r: Self)
        ensures
            r == Self::spec_from_i32(v),
    {
        if v == 1 {
            BoundingBoxMode::BbmItemOnly
        } else if v == 2 {
            BoundingBoxMode::BbmItemAndChildText
        } else {
            BoundingBoxMode::BbmUnknown
        }
    }

    /// Reading a value's schema name gives the value back.
    pub proof fn lemma_str_name_round_trip(self)
        ensures
            Self::spec_from_str_name(self.spec_str_name()) == Some(self),
    {
        match self {
            BoundingBoxMode::BbmUnknown => {
                reveal_strlit("BBM_UNKNOWN");
            },
            BoundingBoxMode::BbmItemOnly => {
                reveal_strlit("BBM_ITEM_ONLY");
                reveal_strlit("BBM_UNKNOWN");
                assert("BBM_ITEM_ONLY"@.len() != "BBM_UNKNOWN"@.len());
            },
            BoundingBoxMode::BbmItemAndChildText => {
                reveal_strlit("BBM_ITEM_AND_CHILD_TEXT");
                reveal_strlit("BBM_ITEM_ONLY");
                reveal_strlit("BBM_UNKNOWN");
                assert("BBM_ITEM_AND_CHILD_TEXT"@.len() != "BBM_UNKNOWN"@.len());
                assert("BBM_ITEM_AND_CHILD_TEXT"@.len() != "BBM_ITEM_ONLY"@.len());
            },
        }
    }
}

/// Whether a point hits an item.
#[derive(Clone, Copy, Debug, PartialEq, Eq, Hash, PartialOrd, Ord)]
pub enum HitTestResult {
    HtrUnknown,
    HtrNoHit,
    HtrHit,
}

impl HitTestResult {
    /// The name the schema gives the value.
    pub open spec fn spec_str_name(&self) -> Seq<char> {
        match self {
            HitTestResult::HtrUnknown => "HTR_UNKNOWN"@,
            HitTestResult::HtrNoHit => "HTR_NO_HIT"@,
            HitTestResult::HtrHit => "HTR_HIT"@,
        }
    }

    /// The value of a schema name, if it is one.
    pub open spec fn spec_from_str_name(s: Seq<char>) -> Option<Self> {
        if s == "HTR_UNKNOWN"@ {
            Some(HitTestResult::HtrUnknown)
        } else if s == "HTR_NO_HIT"@ {
            Some(HitTestResult::HtrNoHit)
        } else if s == "HTR_HIT"@ {
            Some(HitTestResult::HtrHit)
        } else {
            None
        }
    }

    /// The number that stands for the value on the wire.
    pub open spec fn spec_value(&self) -> i32 {
        match self {
            HitTestResult::HtrUnknown => 0,
            HitTestResult::HtrNoHit => 1,
            HitTestResult::HtrHit => 2,
        }
    }

    /// The value a number stands for; an unknown number stands for the first value.
    pub open spec fn spec_from_i32(v: i32) -> Self {
        if v == 1 {
            HitTestResult::HtrNoHit
        } else if v == 2 {
            HitTestResult::HtrHit
        } else {
            HitTestResult::HtrUnknown
        }
    }

    /// The name the schema gives the value.
    pub fn as_str_name(&self) -> (r: &'static str)
        ensures
            r@ == self.spec_str_name(),
    {
        match self {
            HitTestResult::HtrUnknown => "HTR_UNKNOWN",
            HitTestResult::HtrNoHit => "HTR_NO_HIT",
            HitTestResult::HtrHit => "HTR_HIT",
        }
    }

    /// The value a schema name stands for, if any.
    pub fn from_str_name(value: &str) -> (r: Option<Self>)
        ensures
            r == Self::spec_from_str_name(value@),
    {
        if str_eq(value, "HTR_UNKNOWN") {
            Some(HitTestResult::HtrUnknown)
        } else if str_eq(value, "HTR_NO_HIT") {
            Some(HitTestResult::HtrNoHit)
        } else if str_eq(value, "HTR_HIT") {
            Some(HitTestResult::HtrHit)
        } else {
            None
        }
    }

    /// The value a number stands for; an unknown number stands for the first value.
    pub fn from_i32(v: i32) -> (r: Self)
        ensures
            r == Self::spec_from_i32(v),
    {
        if v == 1 {
            HitTestResult::HtrNoHit
        } else if v == 2 {
            HitTestResult::HtrHit
        } else {
            HitTestResult::HtrUnknown
        }
    }

    /// Reading a value's schema name gives the value back.
    pub proof fn lemma_str_name_round_trip(self)
        ensures
            Self::spec_from_str_name(self.spec_str_name()) == Some(self),
    {
        match self {
            HitTestResult::HtrUnknown => {
                reveal_strlit("HTR_UNKNOWN");
            },
            HitTestResult::HtrNoHit => {
                reveal_strlit("HTR_NO_HIT");
                reveal_strlit("HTR_UNKNOWN");
                assert("HTR_NO_HIT"@.len() != "HTR_UNKNOWN"@.len());
            },
            HitTestResult::HtrHit => {
                reveal_strlit("HTR_HIT");
                reveal_strlit("HTR_NO_HIT");
                reveal_strlit("HTR_UNKNOWN");
                assert("HTR_HIT"@.len() != "HTR_UNKNOWN"@.len());
                assert("HTR_HIT"@.len() != "HTR_NO_HIT"@.len());
            },
        }
    }
}


} // verus!
