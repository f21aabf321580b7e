//! Common records of the interface: versions, document specifiers, item
//! identifiers.

use vstd::prelude::*;
use vstd::string::StringExecFns;
use vstd::utf8::{encode_utf8_decode_utf8, encode_utf8_valid_utf8};

use crate::error::KiCadError;
use crate::message::{
    all_nested_at, all_of, as_fixed64, as_nested, as_nested_all, as_nested_value, as_text,
    as_varint, fields_of_all, fields_of_option, find_last_among, fixed64_at, fixed64_field,
    group_canonical_fields, last_among, last_of, lemma_nested_round_trip,
    lemma_optional_round_trip, lemma_repeated_round_trip, nested_at, nested_field,
    optional_nested, push_fixed64, push_nested, push_optional, push_repeated, push_text,
    push_varint, repeated_nested, single, text_at, text_from_bytes, text_field, varint_at, varint_field,
    decode_message, i32_bits, lemma_i32_bits, lemma_u64_i64, WireMessage, all_bytes_at, as_delimited_all,
    bytes_views, push_repeated_bytes, repeated_bytes,
};
use crate::wire::{encode_fields, fields_numbers_ok, fields_view, WireField, WireFieldV, WireValue};

verus! {


/// The version of the peer application.
#[derive(Debug, PartialEq)]
pub struct KiCadVersion {
    pub major: u32,
    pub minor: u32,
    pub patch: u32,
    pub full_version: String,
}

impl WireMessage for KiCadVersion {
    open spec fn spec_schema_name() -> Seq<char> {
        "kiapi.common.types.KiCadVersion"@
    }

    open spec fn fields(&self) -> Seq<WireFieldV> {
        single(varint_field(1, self.major as u64)) + single(varint_field(2, self.minor as u64))
            + single(varint_field(3, self.patch as u64)) + single(
            text_field(4, self.full_version@),
        )
    }

    open spec fn decoded(fs: Seq<WireFieldV>) -> Option<Seq<WireFieldV>> {
        match (
            as_varint(last_of(fs, 1)),
            as_varint(last_of(fs, 2)),
            as_varint(last_of(fs, 3)),
            as_text(last_of(fs, 4)),
        ) {
            (Some(a), Some(b), Some(c), Some(d)) => Some(
                single(varint_field(1, a as u32 as u64)) + single(varint_field(2, b as u32 as u64))
                    + single(varint_field(3, c as u32 as u64)) + single(text_field(4, d)),
            ),
            _ => None,
        }
    }

    proof fn lemma_fields_decode(&self) {
        broadcast use {group_canonical_fields, encode_utf8_decode_utf8, encode_utf8_valid_utf8};

    }

    fn schema_name() -> (r: String) {
        String::from_str("kiapi.common.types.KiCadVersion")
    }

    fn to_fields(&self) -> (r: Vec<WireField>) {
        let mut out: Vec<WireField> = Vec::new();
        push_varint(&mut out, 1, self.major as u64);
        push_varint(&mut out, 2, self.minor as u64);
        push_varint(&mut out, 3, self.patch as u64);
        push_text(&mut out, 4, &self.full_version);
        assert(fields_view(out@) =~= self.fields());
        out
    }

    fn from_fields(fs: &Vec<WireField>) -> (r: Result<Self, KiCadError>) {
        let major = varint_at(fs, 1)?;
        let minor = varint_at(fs, 2)?;
        let patch = varint_at(fs, 3)?;
        let full_version = text_at(fs, 4)?;
        Ok(KiCadVersion {
            major: major as u32,
            minor: minor as u32,
            patch: patch as u32,
            full_version,
        })
    }
}

/// The document kind of a board.
pub const DOCTYPE_PCB: i32 = 3;

/// A unique item identifier.
#[derive(Debug, PartialEq)]
pub struct Kiid {
    pub value: String,
}

impl WireMessage for Kiid {
    open spec fn spec_schema_name() -> Seq<char> {
        "kiapi.common.types.KIID"@
    }

    open spec fn fields(&self) -> Seq<WireFieldV> {
        single(text_field(1, self.value@))
    }

    open spec fn decoded(fs: Seq<WireFieldV>) -> Option<Seq<WireFieldV>> {
        match as_text(last_of(fs, 1)) {
            Some(v) => Some(single(text_field(1, v))),
            None => None,
        }
    }

    proof fn lemma_fields_decode(&self) {
        broadcast use {group_canonical_fields, encode_utf8_decode_utf8, encode_utf8_valid_utf8};

    }

    fn schema_name() -> (r: String) {
        String::from_str("kiapi.common.types.KIID")
    }

    fn to_fields(&self) -> (r: Vec<WireField>) {
        let mut out: Vec<WireField> = Vec::new();
        push_text(&mut out, 1, &self.value);
        assert(fields_view(out@) =~= self.fields());
        out
    }

    fn from_fields(fs: &Vec<WireField>) -> (r: Result<Self, KiCadError>) {
        let value = text_at(fs, 1)?;
        Ok(Kiid { value })
    }
}

/// A library entry: the library's nickname and the entry's name.
#[derive(Debug, PartialEq)]
pub struct LibraryIdentifier {
    pub library_nickname: String,
    pub entry_name: String,
}

impl WireMessage for LibraryIdentifier {
    open spec fn spec_schema_name() -> Seq<char> {
        "kiapi.common.types.LibraryIdentifier"@
    }

    open spec fn fields(&self) -> Seq<WireFieldV> {
        single(text_field(1, self.library_nickname@)) + single(text_field(2, self.entry_name@))
    }

    open spec fn decoded(fs: Seq<WireFieldV>) -> Option<Seq<WireFieldV>> {
        match (as_text(last_of(fs, 1)), as_text(last_of(fs, 2))) {
            (Some(a), Some(b)) => Some(single(text_field(1, a)) + single(text_field(2, b))),
            _ => None,
        }
    }

    proof fn lemma_fields_decode(&self) {
        broadcast use {group_canonical_fields, encode_utf8_decode_utf8, encode_utf8_valid_utf8};

    }

    fn schema_name() -> (r: String) {
        String::from_str("kiapi.common.types.LibraryIdentifier")
    }

    fn to_fields(&self) -> (r: Vec<WireField>) {
        let mut out: Vec<WireField> = Vec::new();
        push_text(&mut out, 1, &self.library_nickname);
        push_text(&mut out, 2, &self.entry_name);
        assert(fields_view(out@) =~= self.fields());
        out
    }

    fn from_fields(fs: &Vec<WireField>) -> (r: Result<Self, KiCadError>) {
        let library_nickname = text_at(fs, 1)?;
        let entry_name = text_at(fs, 2)?;
        Ok(LibraryIdentifier { library_nickname, entry_name })
    }
}

/// A path of sheets in a schematic.
#[derive(Debug, PartialEq)]
pub struct SheetPath {
    pub path: Vec<Kiid>,
    pub path_human_readable: String,
}

impl WireMessage for SheetPath {
    open spec fn spec_schema_name() -> Seq<char> {
        "kiapi.common.types.SheetPath"@
    }

    open spec fn fields(&self) -> Seq<WireFieldV> {
        repeated_nested(1, fields_of_all(self.path@))
            + single(text_field(2, self.path_human_readable@))
    }

    open spec fn decoded(fs: Seq<WireFieldV>) -> Option<Seq<WireFieldV>> {
        match (as_nested_all::<Kiid>(all_of(fs, 1)), as_text(last_of(fs, 2))) {
            (Some(a), Some(b)) => Some(repeated_nested(1, a) + single(text_field(2, b))),
            _ => None,
        }
    }

    proof fn lemma_fields_decode(&self) {
        broadcast use {group_canonical_fields, encode_utf8_decode_utf8, encode_utf8_valid_utf8};

        lemma_repeated_round_trip(self.path@, 1);
    }

    fn schema_name() -> (r: String) {
        String::from_str("kiapi.common.types.SheetPath")
    }

    fn to_fields(&self) -> (r: Vec<WireField>) {
        let mut out: Vec<WireField> = Vec::new();
        push_repeated(&mut out, 1, &self.path);
        push_text(&mut out, 2, &self.path_human_readable);
        assert(fields_view(out@) =~= self.fields());
        out
    }

    fn from_fields(fs: &Vec<WireField>) -> (r: Result<Self, KiCadError>) {
        let path = all_nested_at::<Kiid>(fs, 1)?;
        let path_human_readable = text_at(fs, 2)?;
        Ok(SheetPath { path, path_human_readable })
    }
}

/// A project: its name and its path.
#[derive(Debug, PartialEq)]
pub struct ProjectSpecifier {
    pub name: String,
    pub path: String,
}

impl WireMessage for ProjectSpecifier {
    open spec fn spec_schema_name() -> Seq<char> {
        "kiapi.common.types.ProjectSpecifier"@
    }

    open spec fn fields(&self) -> Seq<WireFieldV> {
        single(text_field(1, self.name@)) + single(text_field(2, self.path@))
    }

    open spec fn decoded(fs: Seq<WireFieldV>) -> Option<Seq<WireFieldV>> {
        match (as_text(last_of(fs, 1)), as_text(last_of(fs, 2))) {
            (Some(a), Some(b)) => Some(single(text_field(1, a)) + single(text_field(2, b))),
            _ => None,
        }
    }

    proof fn lemma_fields_decode(&self) {
        broadcast use {group_canonical_fields, encode_utf8_decode_utf8, encode_utf8_valid_utf8};

    }

    fn schema_name() -> (r: String) {
        String::from_str("kiapi.common.types.ProjectSpecifier")
    }

    fn to_fields(&self) -> (r: Vec<WireField>) {
        let mut out: Vec<WireField> = Vec::new();
        push_text(&mut out, 1, &self.name);
        push_text(&mut out, 2, &self.path);
        assert(fields_view(out@) =~= self.fields());
        out
    }

    fn from_fields(fs: &Vec<WireField>) -> (r: Result<Self, KiCadError>) {
        let name = text_at(fs, 1)?;
        let path = text_at(fs, 2)?;
        Ok(ProjectSpecifier { name, path })
    }
}

/// How a document is named: exactly one of these.
#[derive(Debug, PartialEq)]
pub enum DocumentIdentifier {
    LibId(LibraryIdentifier),
    BoardFilename(String),
    SheetPath(SheetPath),
}

/// The canonical fields of a document's name: none, or the one alternative.
pub open spec fn identifier_fields(o: Option<DocumentIdentifier>) -> Seq<WireFieldV> {
    match o {
        None => Seq::empty(),
        Some(DocumentIdentifier::LibId(l)) => single(nested_field(2, l.fields())),
        Some(DocumentIdentifier::BoardFilename(f)) => single(text_field(3, f@)),
        Some(DocumentIdentifier::SheetPath(p)) => single(nested_field(4, p.fields())),
    }
}

/// Decoding the alternative that counts, as canonical fields.
pub open spec fn identifier_decoded(o: Option<WireFieldV>) -> Option<Seq<WireFieldV>> {
    match o {
        None => Some(Seq::empty()),
        Some(f) => if f.number == 2 {
            match as_nested_value::<LibraryIdentifier>(f.value) {
                Some(c) => Some(single(nested_field(2, c))),
                None => None,
            }
        } else if f.number == 3 {
            match as_text(Some(f.value)) {
                Some(t) => Some(single(text_field(3, t))),
                None => None,
            }
        } else {
            match as_nested_value::<SheetPath>(f.value) {
                Some(c) => Some(single(nested_field(4, c))),
                None => None,
            }
        },
    }
}

proof fn lemma_identifier_round_trip(o: Option<DocumentIdentifier>)
    requires
        encode_fields(identifier_fields(o)).len() <= u64::MAX,
    ensures
        identifier_decoded(last_among(identifier_fields(o), 2, 4)) == Some(identifier_fields(o)),
        last_of(identifier_fields(o), 1) is None,
        last_of(identifier_fields(o), 5) is None,
        fields_numbers_ok(identifier_fields(o)),
{
    broadcast use {group_canonical_fields, encode_utf8_decode_utf8, encode_utf8_valid_utf8};

    match o {
        None => {},
        Some(DocumentIdentifier::LibId(l)) => {
            lemma_nested_round_trip(l);
        },
        Some(DocumentIdentifier::BoardFilename(f)) => {},
        Some(DocumentIdentifier::SheetPath(p)) => {
            lemma_nested_round_trip(p);
        },
    }
}

/// Decodes the alternative that counts among a document's names.
fn identifier_from_fields(fs: &Vec<WireField>) -> (r: Result<Option<DocumentIdentifier>, KiCadError>)
    ensures
        match identifier_decoded(last_among(fields_view(fs@), 2, 4)) {
            Some(c) => r matches Ok(o) && identifier_fields(o) == c,
            None => r matches Err(KiCadError::MalformedEnvelope),
        },
{
    match find_last_among(fs, 2, 4) {
        None => Ok(None),
        Some(i) => {
            let f = &fs[i];
            match &f.value {
                WireValue::Delimited(b) => {
                    if f.number == 2 {
                        let l = decode_message::<LibraryIdentifier>(b.as_slice())?;
                        Ok(Some(DocumentIdentifier::LibId(l)))
                    } else if f.number == 3 {
                        let t = text_from_bytes(b)?;
                        Ok(Some(DocumentIdentifier::BoardFilename(t)))
                    } else {
                        let p = decode_message::<SheetPath>(b.as_slice())?;
                        Ok(Some(DocumentIdentifier::SheetPath(p)))
                    }
                },
                _ => Err(KiCadError::MalformedEnvelope),
            }
        },
    }
}

/// One open document: its kind, its name and its project.
#[derive(Debug, PartialEq)]
pub struct DocumentSpecifier {
    pub type_: i32,
    pub identifier: Option<DocumentIdentifier>,
    pub project: Option<ProjectSpecifier>,
}

impl WireMessage for DocumentSpecifier {
    open spec fn spec_schema_name() -> Seq<char> {
        "kiapi.common.types.DocumentSpecifier"@
    }

    open spec fn fields(&self) -> Seq<WireFieldV> {
        single(varint_field(1, i32_bits(self.type_))) + identifier_fields(self.identifier)
            + optional_nested(5, fields_of_option(self.project))
    }

    open spec fn decoded(fs: Seq<WireFieldV>) -> Option<Seq<WireFieldV>> {
        match (
            as_varint(last_of(fs, 1)),
            identifier_decoded(last_among(fs, 2, 4)),
            as_nested::<ProjectSpecifier>(last_of(fs, 5)),
        ) {
            (Some(t), Some(i), Some(p)) => Some(
                single(varint_field(1, i32_bits(t as i32))) + i + optional_nested(5, p),
            ),
            _ => None,
        }
    }

    proof fn lemma_fields_decode(&self) {
        broadcast use group_canonical_fields;

        lemma_i32_bits(self.type_);
        lemma_identifier_round_trip(self.identifier);
        lemma_optional_round_trip(self.project, 5);
        assert(Self::decoded(self.fields()) =~= Some(self.fields()));
    }

    fn schema_name() -> (r: String) {
        String::from_str("kiapi.common.types.DocumentSpecifier")
    }

    fn to_fields(&self) -> (r: Vec<WireField>) {
        let mut out: Vec<WireField> = Vec::new();
        push_varint(&mut out, 1, self.type_ as i64 as u64);
        match &self.identifier {
            None => {},
            Some(DocumentIdentifier::LibId(l)) => push_nested(&mut out, 2, l),
            Some(DocumentIdentifier::BoardFilename(f)) => push_text(&mut out, 3, f),
            Some(DocumentIdentifier::SheetPath(p)) => push_nested(&mut out, 4, p),
        }
        push_optional(&mut out, 5, &self.project);
        assert(fields_view(out@) =~= self.fields());
        out
    }

    fn from_fields(fs: &Vec<WireField>) -> (r: Result<Self, KiCadError>) {
        let type_ = varint_at(fs, 1)?;
        let identifier = identifier_from_fields(fs)?;
        let project = nested_at::<ProjectSpecifier>(fs, 5)?;
        Ok(DocumentSpecifier { type_: type_ as i32, identifier, project })
    }
}

/// Which document a request about items addresses, and within which container.
#[derive(Debug, PartialEq)]
pub struct ItemHeader {
    pub document: Option<DocumentSpecifier>,
    pub container: Option<Kiid>,
}

impl WireMessage for ItemHeader {
    open spec fn spec_schema_name() -> Seq<char> {
        "kiapi.common.types.ItemHeader"@
    }

    open spec fn fields(&self) -> Seq<WireFieldV> {
        optional_nested(1, fields_of_option(self.document))
            + optional_nested(2, fields_of_option(self.container))
    }

    open spec fn decoded(fs: Seq<WireFieldV>) -> Option<Seq<WireFieldV>> {
        match (as_nested::<DocumentSpecifier>(last_of(fs, 1)), as_nested::<Kiid>(last_of(fs, 2))) {
            (Some(a), Some(b)) => Some(optional_nested(1, a) + optional_nested(2, b)),
            _ => None,
        }
    }

    proof fn lemma_fields_decode(&self) {
        broadcast use group_canonical_fields;

        lemma_optional_round_trip(self.document, 1);
        lemma_optional_round_trip(self.container, 2);
    }

    fn schema_name() -> (r: String) {
        String::from_str("kiapi.common.types.ItemHeader")
    }

    fn to_fields(&self) -> (r: Vec<WireField>) {
        let mut out: Vec<WireField> = Vec::new();
        push_optional(&mut out, 1, &self.document);
        push_optional(&mut out, 2, &self.container);
        assert(fields_view(out@) =~= self.fields());
        out
    }

    fn from_fields(fs: &Vec<WireField>) -> (r: Result<Self, KiCadError>) {
        let document = nested_at::<DocumentSpecifier>(fs, 1)?;
        let container = nested_at::<Kiid>(fs, 2)?;
        Ok(ItemHeader { document, container })
    }
}

/// A point, in nanometres.
#[derive(Debug, PartialEq)]
pub struct Vector2 {
    pub x_nm: i64,
    pub y_nm: i64,
}

impl WireMessage for Vector2 {
    open spec fn spec_schema_name() -> Seq<char> {
        "kiapi.common.types.Vector2"@
    }

    open spec fn fields(&self) -> Seq<WireFieldV> {
        single(varint_field(1, self.x_nm as u64)) + single(varint_field(2, self.y_nm as u64))
    }

    open spec fn decoded(fs: Seq<WireFieldV>) -> Option<Seq<WireFieldV>> {
        match (as_varint(last_of(fs, 1)), as_varint(last_of(fs, 2))) {
            (Some(a), Some(b)) => Some(single(varint_field(1, a)) + single(varint_field(2, b))),
            _ => None,
        }
    }

    proof fn lemma_fields_decode(&self) {
        broadcast use group_canonical_fields;

    }

    fn schema_name() -> (r: String) {
        String::from_str("kiapi.common.types.Vector2")
    }

    fn to_fields(&self) -> (r: Vec<WireField>) {
        let mut out: Vec<WireField> = Vec::new();
        push_varint(&mut out, 1, self.x_nm as u64);
        push_varint(&mut out, 2, self.y_nm as u64);
        assert(fields_view(out@) =~= self.fields());
        out
    }

    fn from_fields(fs: &Vec<WireField>) -> (r: Result<Self, KiCadError>) {
        let x = varint_at(fs, 1)?;
        let y = varint_at(fs, 2)?;
        proof {
            lemma_u64_i64(x);
            lemma_u64_i64(y);
        }
        Ok(Vector2 { x_nm: x as i64, y_nm: y as i64 })
    }
}

/// An angle in degrees, held as the bits of its double-precision value.
#[derive(Debug, PartialEq)]
pub struct Angle {
    pub value_degrees_bits: u64,
}

impl WireMessage for Angle {
    open spec fn spec_schema_name() -> Seq<char> {
        "kiapi.common.types.Angle"@
    }

    open spec fn fields(&self) -> Seq<WireFieldV> {
        single(fixed64_field(1, self.value_degrees_bits))
    }

    open spec fn decoded(fs: Seq<WireFieldV>) -> Option<Seq<WireFieldV>> {
        match as_fixed64(last_of(fs, 1)) {
            Some(a) => Some(single(fixed64_field(1, a))),
            None => None,
        }
    }

    proof fn lemma_fields_decode(&self) {
        broadcast use group_canonical_fields;

    }

    fn schema_name() -> (r: String) {
        String::from_str("kiapi.common.types.Angle")
    }

    fn to_fields(&self) -> (r: Vec<WireField>) {
        let mut out: Vec<WireField> = Vec::new();
        push_fixed64(&mut out, 1, self.value_degrees_bits);
        assert(fields_view(out@) =~= self.fields());
        out
    }

    fn from_fields(fs: &Vec<WireField>) -> (r: Result<Self, KiCadError>) {
        let value_degrees_bits = fixed64_at(fs, 1)?;
        Ok(Angle { value_degrees_bits })
    }
}

/// A piece of text; of its attributes only the characters are held.
#[derive(Debug, PartialEq)]
pub struct Text {
    pub text: String,
}

impl WireMessage for Text {
    open spec fn spec_schema_name() -> Seq<char> {
        "kiapi.common.types.Text"@
    }

    open spec fn fields(&self) -> Seq<WireFieldV> {
        single(text_field(3, self.text@))
    }

    open spec fn decoded(fs: Seq<WireFieldV>) -> Option<Seq<WireFieldV>> {
        match as_text(last_of(fs, 3)) {
            Some(t) => Some(single(text_field(3, t))),
            None => None,
        }
    }

    proof fn lemma_fields_decode(&self) {
        broadcast use {group_canonical_fields, encode_utf8_decode_utf8, encode_utf8_valid_utf8};

    }

    fn schema_name() -> (r: String) {
        String::from_str("kiapi.common.types.Text")
    }

    fn to_fields(&self) -> (r: Vec<WireField>) {
        let mut out: Vec<WireField> = Vec::new();
        push_text(&mut out, 3, &self.text);
        assert(fields_view(out@) =~= self.fields());
        out
    }

    fn from_fields(fs: &Vec<WireField>) -> (r: Result<Self, KiCadError>) {
        let text = text_at(fs, 3)?;
        Ok(Text { text })
    }
}

/// A box of text; of its attributes only the characters are held.
#[derive(Debug, PartialEq)]
pub struct TextBox {
    pub text: String,
}

impl WireMessage for TextBox {
    open spec fn spec_schema_name() -> Seq<char> {
        "kiapi.common.types.TextBox"@
    }

    open spec fn fields(&self) -> Seq<WireFieldV> {
        single(text_field(4, self.text@))
    }

    open spec fn decoded(fs: Seq<WireFieldV>) -> Option<Seq<WireFieldV>> {
        match as_text(last_of(fs, 4)) {
            Some(x0) => Some(single(text_field(4, x0))),
            None => None,
        }
    }

    proof fn lemma_fields_decode(&self) {
        broadcast use {group_canonical_fields, encode_utf8_decode_utf8, encode_utf8_valid_utf8};


    }

    fn schema_name() -> (r: String) {
        String::from_str("kiapi.common.types.TextBox")
    }

    fn to_fields(&self) -> (r: Vec<WireField>) {
        let mut out: Vec<WireField> = Vec::new();
        push_text(&mut out, 4, &self.text);
        assert(fields_view(out@) =~= self.fields());
        out
    }

    fn from_fields(fs: &Vec<WireField>) -> (r: Result<Self, KiCadError>) {
        let text = text_at(fs, 4)?;
        Ok(TextBox { text })
    }
}

/// An axis-aligned box: its corner and its size, in nanometres.
#[derive(Debug, PartialEq)]
pub struct Box2 {
    pub position: Option<Vector2>,
    pub size: Option<Vector2>,
}

impl WireMessage for Box2 {
    open spec fn spec_schema_name() -> Seq<char> {
        "kiapi.common.types.Box2"@
    }

    open spec fn fields(&self) -> Seq<WireFieldV> {
        optional_nested(1, fields_of_option(self.position))
            + optional_nested(2, fields_of_option(self.size))
    }

    open spec fn decoded(fs: Seq<WireFieldV>) -> Option<Seq<WireFieldV>> {
        match (as_nested::<Vector2>(last_of(fs, 1)), as_nested::<Vector2>(last_of(fs, 2))) {
            (Some(x0), Some(x1)) => Some(optional_nested(1, x0) + optional_nested(2, x1)),
            _ => None,
        }
    }

    proof fn lemma_fields_decode(&self) {
        broadcast use group_canonical_fields;

        lemma_optional_round_trip(self.position, 1);
        lemma_optional_round_trip(self.size, 2);
    }

    fn schema_name() -> (r: String) {
        String::from_str("kiapi.common.types.Box2")
    }

    fn to_fields(&self) -> (r: Vec<WireField>) {
        let mut out: Vec<WireField> = Vec::new();
        push_optional(&mut out, 1, &self.position);
        push_optional(&mut out, 2, &self.size);
        assert(fields_view(out@) =~= self.fields());
        out
    }

    fn from_fields(fs: &Vec<WireField>) -> (r: Result<Self, KiCadError>) {
        let position = nested_at::<Vector2>(fs, 1)?;
        let size = nested_at::<Vector2>(fs, 2)?;
        Ok(Box2 { position, size })
    }
}

/// A shape made of several; each part is held as the bytes of its message.
#[derive(Debug, PartialEq)]
pub struct CompoundShape {
    pub shapes: Vec<Vec<u8>>,
}

impl WireMessage for CompoundShape {
    open spec fn spec_schema_name() -> Seq<char> {
        "kiapi.common.types.CompoundShape"@
    }

    open spec fn fields(&self) -> Seq<WireFieldV> {
        repeated_bytes(1, bytes_views(self.shapes@))
    }

    open spec fn decoded(fs: Seq<WireFieldV>) -> Option<Seq<WireFieldV>> {
        match as_delimited_all(all_of(fs, 1)) {
            Some(x0) => Some(repeated_bytes(1, x0)),
            None => None,
        }
    }

    proof fn lemma_fields_decode(&self) {
        broadcast use group_canonical_fields;


    }

    fn schema_name() -> (r: String) {
        String::from_str("kiapi.common.types.CompoundShape")
    }

    fn to_fields(&self) -> (r: Vec<WireField>) {
        let mut out: Vec<WireField> = Vec::new();
        push_repeated_bytes(&mut out, 1, &self.shapes);
        assert(fields_view(out@) =~= self.fields());
        out
    }

    fn from_fields(fs: &Vec<WireField>) -> (r: Result<Self, KiCadError>) {
        let shapes = all_bytes_at(fs, 1)?;
        Ok(CompoundShape { shapes })
    }
}


} // verus!
