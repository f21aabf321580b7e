//! Project records: net classes and text variables.

use vstd::prelude::*;
use vstd::string::StringExecFns;
use vstd::utf8::{encode_utf8_decode_utf8, encode_utf8_valid_utf8};

use crate::error::KiCadError;
use crate::message::{
    all_nested_at, all_of, as_nested_all, as_text, fields_of_all, group_canonical_fields, last_of,
    lemma_repeated_round_trip, push_repeated, push_text, repeated_nested, single, text_at,
    text_field, WireMessage,
};
use crate::wire::{fields_view, WireField, WireFieldV};

verus! {

/// A net class; of its settings only the name is held.
#[derive(Debug, PartialEq)]
pub struct NetClass {
    pub name: String,
}

impl WireMessage for NetClass {
    open spec fn spec_schema_name() -> Seq<char> {
        "kiapi.common.project.NetClass"@
    }

    open spec fn fields(&self) -> Seq<WireFieldV> {
        single(text_field(1, self.name@))
    }

    open spec fn decoded(fs: Seq<WireFieldV>) -> Option<Seq<WireFieldV>> {
        match as_text(last_of(fs, 1)) {
            Some(x0) => Some(single(text_field(1, x0))),
            None => None,
        }
    }

    proof fn lemma_fields_decode(&self) {
        broadcast use {group_canonical_fields, encode_utf8_decode_utf8, encode_utf8_valid_utf8};


    }

    fn schema_name() -> (r: String) {
        String::from_str("kiapi.common.project.NetClass")
    }

    fn to_fields(&self) -> (r: Vec<WireField>) {
        let mut out: Vec<WireField> = Vec::new();
        push_text(&mut out, 1, &self.name);
        assert(fields_view(out@) =~= self.fields());
        out
    }

    fn from_fields(fs: &Vec<WireField>) -> (r: Result<Self, KiCadError>) {
        let name = text_at(fs, 1)?;
        Ok(NetClass { name })
    }
}

/// One text variable: its name and its value.
#[derive(Debug, PartialEq)]
pub struct TextVariable {
    pub key: String,
    pub value: String,
}

impl WireMessage for TextVariable {
    open spec fn spec_schema_name() -> Seq<char> {
        "kiapi.common.project.TextVariables.VariablesEntry"@
    }

    open spec fn fields(&self) -> Seq<WireFieldV> {
        single(text_field(1, self.key@)) + single(text_field(2, self.value@))
    }

    open spec fn decoded(fs: Seq<WireFieldV>) -> Option<Seq<WireFieldV>> {
        match (as_text(last_of(fs, 1)), as_text(last_of(fs, 2))) {
            (Some(x0), Some(x1)) => Some(single(text_field(1, x0)) + single(text_field(2, x1))),
            _ => None,
        }
    }

    proof fn lemma_fields_decode(&self) {
        broadcast use {group_canonical_fields, encode_utf8_decode_utf8, encode_utf8_valid_utf8};


    }

    fn schema_name() -> (r: String) {
        String::from_str("kiapi.common.project.TextVariables.VariablesEntry")
    }

    fn to_fields(&self) -> (r: Vec<WireField>) {
        let mut out: Vec<WireField> = Vec::new();
        push_text(&mut out, 1, &self.key);
        push_text(&mut out, 2, &self.value);
        assert(fields_view(out@) =~= self.fields());
        out
    }

    fn from_fields(fs: &Vec<WireField>) -> (r: Result<Self, KiCadError>) {
        let key = text_at(fs, 1)?;
        let value = text_at(fs, 2)?;
        Ok(TextVariable { key, value })
    }
}

/// The text variables of a project, in the order they were sent.
#[derive(Debug, PartialEq)]
pub struct TextVariables {
    pub variables: Vec<TextVariable>,
}

impl WireMessage for TextVariables {
    open spec fn spec_schema_name() -> Seq<char> {
        "kiapi.common.project.TextVariables"@
    }

    open spec fn fields(&self) -> Seq<WireFieldV> {
        repeated_nested(1, fields_of_all(self.variables@))
    }

    open spec fn decoded(fs: Seq<WireFieldV>) -> Option<Seq<WireFieldV>> {
        match as_nested_all::<TextVariable>(all_of(fs, 1)) {
            Some(x0) => Some(repeated_nested(1, x0)),
            None => None,
        }
    }

    proof fn lemma_fields_decode(&self) {
        broadcast use group_canonical_fields;

        lemma_repeated_round_trip(self.variables@, 1);
    }

    fn schema_name() -> (r: String) {
        String::from_str("kiapi.common.project.TextVariables")
    }

    fn to_fields(&self) -> (r: Vec<WireField>) {
        let mut out: Vec<WireField> = Vec::new();
        push_repeated(&mut out, 1, &self.variables);
        assert(fields_view(out@) =~= self.fields());
        out
    }

    fn from_fields(fs: &Vec<WireField>) -> (r: Result<Self, KiCadError>) {
        let variables = all_nested_at::<TextVariable>(fs, 1)?;
        Ok(TextVariables { variables })
    }
}


} // verus!
