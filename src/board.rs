//! Board records: layers, lock states, and the placed footprint with the
//! parts of it that the client reads.

use vstd::prelude::*;
use vstd::string::StringExecFns;

use crate::error::KiCadError;
use crate::message::{
    as_nested, as_varint, bool_bits, fields_of_option, group_canonical_fields, i32_bits,
    last_of, lemma_i32_bits, lemma_optional_round_trip, nested_at, optional_nested,
    push_optional, push_varint, single, str_eq, varint_at, varint_field, WireMessage,
    lemma_encode_fields_concat, lemma_optional_encoding, lemma_encode_single, lemma_numbers_ok_concat,
    lemma_numbers_ok_single, lemma_numbers_ok_optional, lemma_last_of_concat, lemma_last_of_single,
    lemma_last_of_optional,
};
use crate::types::{Angle, Kiid, LibraryIdentifier, Text, Vector2};
use crate::wire::{encode_fields, fields_numbers_ok, fields_view, WireField, WireFieldV, WireValueV};

verus! {

/// A layer of a board.
#[derive(Clone, Copy, Debug, PartialEq, Eq, Hash, PartialOrd, Ord)]
pub enum BoardLayer {
    BlUnknown,
    BlUndefined,
    BlUnselected,
    BlFCu,
    BlIn1Cu,
    BlIn2Cu,
    BlIn3Cu,
    BlIn4Cu,
    BlIn5Cu,
    BlIn6Cu,
    BlIn7Cu,
    BlIn8Cu,
    BlIn9Cu,
    BlIn10Cu,
    BlIn11Cu,
    BlIn12Cu,
    BlIn13Cu,
    BlIn14Cu,
    BlIn15Cu,
    BlIn16Cu,
    BlIn17Cu,
    BlIn18Cu,
    BlIn19Cu,
    BlIn20Cu,
    BlIn21Cu,
    BlIn22Cu,
    BlIn23Cu,
    BlIn24Cu,
    BlIn25Cu,
    BlIn26Cu,
    BlIn27Cu,
    BlIn28Cu,
    BlIn29Cu,
    BlIn30Cu,
    BlBCu,
    BlBAdhes,
    BlFAdhes,
    BlBPaste,
    BlFPaste,
    BlBSilkS,
    BlFSilkS,
    BlBMask,
    BlFMask,
    BlDwgsUser,
    BlCmtsUser,
    BlEco1User,
    BlEco2User,
    BlEdgeCuts,
    BlMargin,
    BlBCrtYd,
    BlFCrtYd,
    BlBFab,
    BlFFab,
    BlUser1,
    BlUser2,
    BlUser3,
    BlUser4,
    BlUser5,
    BlUser6,
    BlUser7,
    BlUser8,
    BlUser9,
}

impl BoardLayer {
    /// The name the schema gives the value.
    pub open spec fn spec_str_name(&self) -> Seq<char> {
        match self {
            BoardLayer::BlUnknown => "BL_UNKNOWN"@,
            BoardLayer::BlUndefined => "BL_UNDEFINED"@,
            BoardLayer::BlUnselected => "BL_UNSELECTED"@,
            BoardLayer::BlFCu => "BL_F_Cu"@,
            BoardLayer::BlIn1Cu => "BL_In1_Cu"@,
            BoardLayer::BlIn2Cu => "BL_In2_Cu"@,
            BoardLayer::BlIn3Cu => "BL_In3_Cu"@,
            BoardLayer::BlIn4Cu => "BL_In4_Cu"@,
            BoardLayer::BlIn5Cu => "BL_In5_Cu"@,
            BoardLayer::BlIn6Cu => "BL_In6_Cu"@,
            BoardLayer::BlIn7Cu => "BL_In7_Cu"@,
            BoardLayer::BlIn8Cu => "BL_In8_Cu"@,
            BoardLayer::BlIn9Cu => "BL_In9_Cu"@,
            BoardLayer::BlIn10Cu => "BL_In10_Cu"@,
            BoardLayer::BlIn11Cu => "BL_In11_Cu"@,
            BoardLayer::BlIn12Cu => "BL_In12_Cu"@,
            BoardLayer::BlIn13Cu => "BL_In13_Cu"@,
            BoardLayer::BlIn14Cu => "BL_In14_Cu"@,
            BoardLayer::BlIn15Cu => "BL_In15_Cu"@,
            BoardLayer::BlIn16Cu => "BL_In16_Cu"@,
            BoardLayer::BlIn17Cu => "BL_In17_Cu"@,
            BoardLayer::BlIn18Cu => "BL_In18_Cu"@,
            BoardLayer::BlIn19Cu => "BL_In19_Cu"@,
            BoardLayer::BlIn20Cu => "BL_In20_Cu"@,
            BoardLayer::BlIn21Cu => "BL_In21_Cu"@,
            BoardLayer::BlIn22Cu => "BL_In22_Cu"@,
            BoardLayer::BlIn23Cu => "BL_In23_Cu"@,
            BoardLayer::BlIn24Cu => "BL_In24_Cu"@,
            BoardLayer::BlIn25Cu => "BL_In25_Cu"@,
            BoardLayer::BlIn26Cu => "BL_In26_Cu"@,
            BoardLayer::BlIn27Cu => "BL_In27_Cu"@,
            BoardLayer::BlIn28Cu => "BL_In28_Cu"@,
            BoardLayer::BlIn29Cu => "BL_In29_Cu"@,
            BoardLayer::BlIn30Cu => "BL_In30_Cu"@,
            BoardLayer::BlBCu => "BL_B_Cu"@,
            BoardLayer::BlBAdhes => "BL_B_Adhes"@,
            BoardLayer::BlFAdhes => "BL_F_Adhes"@,
            BoardLayer::BlBPaste => "BL_B_Paste"@,
            BoardLayer::BlFPaste => "BL_F_Paste"@,
            BoardLayer::BlBSilkS => "BL_B_SilkS"@,
            BoardLayer::BlFSilkS => "BL_F_SilkS"@,
            BoardLayer::BlBMask => "BL_B_Mask"@,
            BoardLayer::BlFMask => "BL_F_Mask"@,
            BoardLayer::BlDwgsUser => "BL_Dwgs_User"@,
            BoardLayer::BlCmtsUser => "BL_Cmts_User"@,
            BoardLayer::BlEco1User => "BL_Eco1_User"@,
            BoardLayer::BlEco2User => "BL_Eco2_User"@,
            BoardLayer::BlEdgeCuts => "BL_Edge_Cuts"@,
            BoardLayer::BlMargin => "BL_Margin"@,
            BoardLayer::BlBCrtYd => "BL_B_CrtYd"@,
            BoardLayer::BlFCrtYd => "BL_F_CrtYd"@,
            BoardLayer::BlBFab => "BL_B_Fab"@,
            BoardLayer::BlFFab => "BL_F_Fab"@,
            BoardLayer::BlUser1 => "BL_User_1"@,
            BoardLayer::BlUser2 => "BL_User_2"@,
            BoardLayer::BlUser3 => "BL_User_3"@,
            BoardLayer::BlUser4 => "BL_User_4"@,
            BoardLayer::BlUser5 => "BL_User_5"@,
            BoardLayer::BlUser6 => "BL_User_6"@,
            BoardLayer::BlUser7 => "BL_User_7"@,
            BoardLayer::BlUser8 => "BL_User_8"@,
            BoardLayer::BlUser9 => "BL_User_9"@,
        }
    }

    /// The value of a schema name, if it is one.
    pub open spec fn spec_from_str_name(s: Seq<char>) -> Option<Self> {
        if s == "BL_UNKNOWN"@ {
            Some(BoardLayer::BlUnknown)
        } else if s == "BL_UNDEFINED"@ {
            Some(BoardLayer::BlUndefined)
        } else if s == "BL_UNSELECTED"@ {
            Some(BoardLayer::BlUnselected)
        } else if s == "BL_F_Cu"@ {
            Some(BoardLayer::BlFCu)
        } else if s == "BL_In1_Cu"@ {
            Some(BoardLayer::BlIn1Cu)
        } else if s == "BL_In2_Cu"@ {
            Some(BoardLayer::BlIn2Cu)
        } else if s == "BL_In3_Cu"@ {
            Some(BoardLayer::BlIn3Cu)
        } else if s == "BL_In4_Cu"@ {
            Some(BoardLayer::BlIn4Cu)
        } else if s == "BL_In5_Cu"@ {
            Some(BoardLayer::BlIn5Cu)
        } else if s == "BL_In6_Cu"@ {
            Some(BoardLayer::BlIn6Cu)
        } else if s == "BL_In7_Cu"@ {
            Some(BoardLayer::BlIn7Cu)
        } else if s == "BL_In8_Cu"@ {
            Some(BoardLayer::BlIn8Cu)
        } else if s == "BL_In9_Cu"@ {
            Some(BoardLayer::BlIn9Cu)
        } else if s == "BL_In10_Cu"@ {
            Some(BoardLayer::BlIn10Cu)
        } else if s == "BL_In11_Cu"@ {
            Some(BoardLayer::BlIn11Cu)
        } else if s == "BL_In12_Cu"@ {
            Some(BoardLayer::BlIn12Cu)
        } else if s == "BL_In13_Cu"@ {
            Some(BoardLayer::BlIn13Cu)
        } else if s == "BL_In14_Cu"@ {
            Some(BoardLayer::BlIn14Cu)
        } else if s == "BL_In15_Cu"@ {
            Some(BoardLayer::BlIn15Cu)
        } else if s == "BL_In16_Cu"@ {
            Some(BoardLayer::BlIn16Cu)
        } else if s == "BL_In17_Cu"@ {
            Some(BoardLayer::BlIn17Cu)
        } else if s == "BL_In18_Cu"@ {
            Some(BoardLayer::BlIn18Cu)
        } else if s == "BL_In19_Cu"@ {
            Some(BoardLayer::BlIn19Cu)
        } else if s == "BL_In20_Cu"@ {
            Some(BoardLayer::BlIn20Cu)
        } else if s == "BL_In21_Cu"@ {
            Some(BoardLayer::BlIn21Cu)
        } else if s == "BL_In22_Cu"@ {
            Some(BoardLayer::BlIn22Cu)
        } else if s == "BL_In23_Cu"@ {
            Some(BoardLayer::BlIn23Cu)
        } else if s == "BL_In24_Cu"@ {
            Some(BoardLayer::BlIn24Cu)
        } else if s == "BL_In25_Cu"@ {
            Some(BoardLayer::BlIn25Cu)
        } else if s == "BL_In26_Cu"@ {
            Some(BoardLayer::BlIn26Cu)
        } else if s == "BL_In27_Cu"@ {
            Some(BoardLayer::BlIn27Cu)
        } else if s == "BL_In28_Cu"@ {
            Some(BoardLayer::BlIn28Cu)
        } else if s == "BL_In29_Cu"@ {
            Some(BoardLayer::BlIn29Cu)
        } else if s == "BL_In30_Cu"@ {
            Some(BoardLayer::BlIn30Cu)
        } else if s == "BL_B_Cu"@ {
            Some(BoardLayer::BlBCu)
        } else if s == "BL_B_Adhes"@ {
            Some(BoardLayer::BlBAdhes)
        } else if s == "BL_F_Adhes"@ {
            Some(BoardLayer::BlFAdhes)
        } else if s == "BL_B_Paste"@ {
            Some(BoardLayer::BlBPaste)
        } else if s == "BL_F_Paste"@ {
            Some(BoardLayer::BlFPaste)
        } else if s == "BL_B_SilkS"@ {
            Some(BoardLayer::BlBSilkS)
        } else if s == "BL_F_SilkS"@ {
            Some(BoardLayer::BlFSilkS)
        } else if s == "BL_B_Mask"@ {
            Some(BoardLayer::BlBMask)
        } else if s == "BL_F_Mask"@ {
            Some(BoardLayer::BlFMask)
        } else if s == "BL_Dwgs_User"@ {
            Some(BoardLayer::BlDwgsUser)
        } else if s == "BL_Cmts_User"@ {
            Some(BoardLayer::BlCmtsUser)
        } else if s == "BL_Eco1_User"@ {
            Some(BoardLayer::BlEco1User)
        } else if s == "BL_Eco2_User"@ {
            Some(BoardLayer::BlEco2User)
        } else if s == "BL_Edge_Cuts"@ {
            Some(BoardLayer::BlEdgeCuts)
        } else if s == "BL_Margin"@ {
            Some(BoardLayer::BlMargin)
        } else if s == "BL_B_CrtYd"@ {
            Some(BoardLayer::BlBCrtYd)
        } else if s == "BL_F_CrtYd"@ {
            Some(BoardLayer::BlFCrtYd)
        } else if s == "BL_B_Fab"@ {
            Some(BoardLayer::BlBFab)
        } else if s == "BL_F_Fab"@ {
            Some(BoardLayer::BlFFab)
        } else if s == "BL_User_1"@ {
            Some(BoardLayer::BlUser1)
        } else if s == "BL_User_2"@ {
            Some(BoardLayer::BlUser2)
        } else if s == "BL_User_3"@ {
            Some(BoardLayer::BlUser3)
        } else if s == "BL_User_4"@ {
            Some(BoardLayer::BlUser4)
        } else if s == "BL_User_5"@ {
            Some(BoardLayer::BlUser5)
        } else if s == "BL_User_6"@ {
            Some(BoardLayer::BlUser6)
        } else if s == "BL_User_7"@ {
            Some(BoardLayer::BlUser7)
        } else if s == "BL_User_8"@ {
            Some(BoardLayer::BlUser8)
        } else if s == "BL_User_9"@ {
            Some(BoardLayer::BlUser9)
        } else {
            None
        }
    }

    /// The number that stands for the value on the wire.
    pub open spec fn spec_value(&self) -> i32 {
        match self {
            BoardLayer::BlUnknown => 0,
            BoardLayer::BlUndefined => 1,
            BoardLayer::BlUnselected => 2,
            BoardLayer::BlFCu => 3,
            BoardLayer::BlIn1Cu => 4,
            BoardLayer::BlIn2Cu => 5,
            BoardLayer::BlIn3Cu => 6,
            BoardLayer::BlIn4Cu => 7,
            BoardLayer::BlIn5Cu => 8,
            BoardLayer::BlIn6Cu => 9,
            BoardLayer::BlIn7Cu => 10,
            BoardLayer::BlIn8Cu => 11,
            BoardLayer::BlIn9Cu => 12,
            BoardLayer::BlIn10Cu => 13,
            BoardLayer::BlIn11Cu => 14,
            BoardLayer::BlIn12Cu => 15,
            BoardLayer::BlIn13Cu => 16,
            BoardLayer::BlIn14Cu => 17,
            BoardLayer::BlIn15Cu => 18,
            BoardLayer::BlIn16Cu => 19,
            BoardLayer::BlIn17Cu => 20,
            BoardLayer::BlIn18Cu => 21,
            BoardLayer::BlIn19Cu => 22,
            BoardLayer::BlIn20Cu => 23,
            BoardLayer::BlIn21Cu => 24,
            BoardLayer::BlIn22Cu => 25,
            BoardLayer::BlIn23Cu => 26,
            BoardLayer::BlIn24Cu => 27,
            BoardLayer::BlIn25Cu => 28,
            BoardLayer::BlIn26Cu => 29,
            BoardLayer::BlIn27Cu => 30,
            BoardLayer::BlIn28Cu => 31,
            BoardLayer::BlIn29Cu => 32,
            BoardLayer::BlIn30Cu => 33,
            BoardLayer::BlBCu => 34,
            BoardLayer::BlBAdhes => 35,
            BoardLayer::BlFAdhes => 36,
            BoardLayer::BlBPaste => 37,
            BoardLayer::BlFPaste => 38,
            BoardLayer::BlBSilkS => 39,
            BoardLayer::BlFSilkS => 40,
            BoardLayer::BlBMask => 41,
            BoardLayer::BlFMask => 42,
            BoardLayer::BlDwgsUser => 43,
            BoardLayer::BlCmtsUser => 44,
            BoardLayer::BlEco1User => 45,
            BoardLayer::BlEco2User => 46,
            BoardLayer::BlEdgeCuts => 47,
            BoardLayer::BlMargin => 48,
            BoardLayer::BlBCrtYd => 49,
            BoardLayer::BlFCrtYd => 50,
            BoardLayer::BlBFab => 51,
            BoardLayer::BlFFab => 52,
            BoardLayer::BlUser1 => 53,
            BoardLayer::BlUser2 => 54,
            BoardLayer::BlUser3 => 55,
            BoardLayer::BlUser4 => 56,
            BoardLayer::BlUser5 => 57,
            BoardLayer::BlUser6 => 58,
            BoardLayer::BlUser7 => 59,
            BoardLayer::BlUser8 => 60,
            BoardLayer::BlUser9 => 61,
        }
    }

    /// The value a number stands for; an unknown number stands for the first value.
    pub open spec fn spec_from_i32(v: i32) -> Self {
        if v == 1 {
            BoardLayer::BlUndefined
        } else if v == 2 {
            BoardLayer::BlUnselected
        } else if v == 3 {
            BoardLayer::BlFCu
        } else if v == 4 {
            BoardLayer::BlIn1Cu
        } else if v == 5 {
            BoardLayer::BlIn2Cu
        } else if v == 6 {
            BoardLayer::BlIn3Cu
        } else if v == 7 {
            BoardLayer::BlIn4Cu
        } else if v == 8 {
            BoardLayer::BlIn5Cu
        } else if v == 9 {
            BoardLayer::BlIn6Cu
        } else if v == 10 {
            BoardLayer::BlIn7Cu
        } else if v == 11 {
            BoardLayer::BlIn8Cu
        } else if v == 12 {
            BoardLayer::BlIn9Cu
        } else if v == 13 {
            BoardLayer::BlIn10Cu
        } else if v == 14 {
            BoardLayer::BlIn11Cu
        } else if v == 15 {
            BoardLayer::BlIn12Cu
        } else if v == 16 {
            BoardLayer::BlIn13Cu
        } else if v == 17 {
            BoardLayer::BlIn14Cu
        } else if v == 18 {
            BoardLayer::BlIn15Cu
        } else if v == 19 {
            BoardLayer::BlIn16Cu
        } else if v == 20 {
            BoardLayer::BlIn17Cu
        } else if v == 21 {
            BoardLayer::BlIn18Cu
        } else if v == 22 {
            BoardLayer::BlIn19Cu
        } else if v == 23 {
            BoardLayer::BlIn20Cu
        } else if v == 24 {
            BoardLayer::BlIn21Cu
        } else if v == 25 {
            BoardLayer::BlIn22Cu
        } else if v == 26 {
            BoardLayer::BlIn23Cu
        } else if v == 27 {
            BoardLayer::BlIn24Cu
        } else if v == 28 {
            BoardLayer::BlIn25Cu
        } else if v == 29 {
            BoardLayer::BlIn26Cu
        } else if v == 30 {
            BoardLayer::BlIn27Cu
        } else if v == 31 {
            BoardLayer::BlIn28Cu
        } else if v == 32 {
            BoardLayer::BlIn29Cu
        } else if v == 33 {
            BoardLayer::BlIn30Cu
        } else if v == 34 {
            BoardLayer::BlBCu
        } else if v == 35 {
            BoardLayer::BlBAdhes
        } else if v == 36 {
            BoardLayer::BlFAdhes
        } else if v == 37 {
            BoardLayer::BlBPaste
        } else if v == 38 {
            BoardLayer::BlFPaste
        } else if v == 39 {
            BoardLayer::BlBSilkS
        } else if v == 40 {
            BoardLayer::BlFSilkS
        } else if v == 41 {
            BoardLayer::BlBMask
        } else if v == 42 {
            BoardLayer::BlFMask
        } else if v == 43 {
            BoardLayer::BlDwgsUser
        } else if v == 44 {
            BoardLayer::BlCmtsUser
        } else if v == 45 {
            BoardLayer::BlEco1User
        } else if v == 46 {
            BoardLayer::BlEco2User
        } else if v == 47 {
            BoardLayer::BlEdgeCuts
        } else if v == 48 {
            BoardLayer::BlMargin
        } else if v == 49 {
            BoardLayer::BlBCrtYd
        } else if v == 50 {
            BoardLayer::BlFCrtYd
        } else if v == 51 {
            BoardLayer::BlBFab
        } else if v == 52 {
            BoardLayer::BlFFab
        } else if v == 53 {
            BoardLayer::BlUser1
        } else if v == 54 {
            BoardLayer::BlUser2
        } else if v == 55 {
            BoardLayer::BlUser3
        } else if v == 56 {
            BoardLayer::BlUser4
        } else if v == 57 {
            BoardLayer::BlUser5
        } else if v == 58 {
            BoardLayer::BlUser6
        } else if v == 59 {
            BoardLayer::BlUser7
        } else if v == 60 {
            BoardLayer::BlUser8
        } else if v == 61 {
            BoardLayer::BlUser9
        } else {
            BoardLayer::BlUnknown
        }
    }

    /// The name the schema gives the value.
    pub fn as_str_name(&self) -> (r: &'static str)
        ensures
            r@ == self.spec_str_name(),
    {
        match self {
            BoardLayer::BlUnknown => "BL_UNKNOWN",
            BoardLayer::BlUndefined => "BL_UNDEFINED",
            BoardLayer::BlUnselected => "BL_UNSELECTED",
            BoardLayer::BlFCu => "BL_F_Cu",
            BoardLayer::BlIn1Cu => "BL_In1_Cu",
            BoardLayer::BlIn2Cu => "BL_In2_Cu",
            BoardLayer::BlIn3Cu => "BL_In3_Cu",
            BoardLayer::BlIn4Cu => "BL_In4_Cu",
            BoardLayer::BlIn5Cu => "BL_In5_Cu",
            BoardLayer::BlIn6Cu => "BL_In6_Cu",
            BoardLayer::BlIn7Cu => "BL_In7_Cu",
            BoardLayer::BlIn8Cu => "BL_In8_Cu",
            BoardLayer::BlIn9Cu => "BL_In9_Cu",
            BoardLayer::BlIn10Cu => "BL_In10_Cu",
            BoardLayer::BlIn11Cu => "BL_In11_Cu",
            BoardLayer::BlIn12Cu => "BL_In12_Cu",
            BoardLayer::BlIn13Cu => "BL_In13_Cu",
            BoardLayer::BlIn14Cu => "BL_In14_Cu",
            BoardLayer::BlIn15Cu => "BL_In15_Cu",
            BoardLayer::BlIn16Cu => "BL_In16_Cu",
            BoardLayer::BlIn17Cu => "BL_In17_Cu",
            BoardLayer::BlIn18Cu => "BL_In18_Cu",
            BoardLayer::BlIn19Cu => "BL_In19_Cu",
            BoardLayer::BlIn20Cu => "BL_In20_Cu",
            BoardLayer::BlIn21Cu => "BL_In21_Cu",
            BoardLayer::BlIn22Cu => "BL_In22_Cu",
            BoardLayer::BlIn23Cu => "BL_In23_Cu",
            BoardLayer::BlIn24Cu => "BL_In24_Cu",
            BoardLayer::BlIn25Cu => "BL_In25_Cu",
            BoardLayer::BlIn26Cu => "BL_In26_Cu",
            BoardLayer::BlIn27Cu => "BL_In27_Cu",
            BoardLayer::BlIn28Cu => "BL_In28_Cu",
            BoardLayer::BlIn29Cu => "BL_In29_Cu",
            BoardLayer::BlIn30Cu => "BL_In30_Cu",
            BoardLayer::BlBCu => "BL_B_Cu",
            BoardLayer::BlBAdhes => "BL_B_Adhes",
            BoardLayer::BlFAdhes => "BL_F_Adhes",
            BoardLayer::BlBPaste => "BL_B_Paste",
            BoardLayer::BlFPaste => "BL_F_Paste",
            BoardLayer::BlBSilkS => "BL_B_SilkS",
            BoardLayer::BlFSilkS => "BL_F_SilkS",
            BoardLayer::BlBMask => "BL_B_Mask",
            BoardLayer::BlFMask => "BL_F_Mask",
            BoardLayer::BlDwgsUser => "BL_Dwgs_User",
            BoardLayer::BlCmtsUser => "BL_Cmts_User",
            BoardLayer::BlEco1User => "BL_Eco1_User",
            BoardLayer::BlEco2User => "BL_Eco2_User",
            BoardLayer::BlEdgeCuts => "BL_Edge_Cuts",
            BoardLayer::BlMargin => "BL_Margin",
            BoardLayer::BlBCrtYd => "BL_B_CrtYd",
            BoardLayer::BlFCrtYd => "BL_F_CrtYd",
            BoardLayer::BlBFab => "BL_B_Fab",
            BoardLayer::BlFFab => "BL_F_Fab",
            BoardLayer::BlUser1 => "BL_User_1",
            BoardLayer::BlUser2 => "BL_User_2",
            BoardLayer::BlUser3 => "BL_User_3",
            BoardLayer::BlUser4 => "BL_User_4",
            BoardLayer::BlUser5 => "BL_User_5",
            BoardLayer::BlUser6 => "BL_User_6",
            BoardLayer::BlUser7 => "BL_User_7",
            BoardLayer::BlUser8 => "BL_User_8",
            BoardLayer::BlUser9 => "BL_User_9",
        }
    }

    /// The value a schema name stands for, if any.
    pub fn from_str_name(value: &str) -> (r: Option<Self>)
        ensures
            r == Self::spec_from_str_name(value@),
    {
        if str_eq(value, "BL_UNKNOWN") {
            Some(BoardLayer::BlUnknown)
        } else if str_eq(value, "BL_UNDEFINED") {
            Some(BoardLayer::BlUndefined)
        } else if str_eq(value, "BL_UNSELECTED") {
            Some(BoardLayer::BlUnselected)
        } else if str_eq(value, "BL_F_Cu") {
            Some(BoardLayer::BlFCu)
        } else if str_eq(value, "BL_In1_Cu") {
            Some(BoardLayer::BlIn1Cu)
        } else if str_eq(value, "BL_In2_Cu") {
            Some(BoardLayer::BlIn2Cu)
        } else if str_eq(value, "BL_In3_Cu") {
            Some(BoardLayer::BlIn3Cu)
        } else if str_eq(value, "BL_In4_Cu") {
            Some(BoardLayer::BlIn4Cu)
        } else if str_eq(value, "BL_In5_Cu") {
            Some(BoardLayer::BlIn5Cu)
        } else if str_eq(value, "BL_In6_Cu") {
            Some(BoardLayer::BlIn6Cu)
        } else if str_eq(value, "BL_In7_Cu") {
            Some(BoardLayer::BlIn7Cu)
        } else if str_eq(value, "BL_In8_Cu") {
            Some(BoardLayer::BlIn8Cu)
        } else if str_eq(value, "BL_In9_Cu") {
            Some(BoardLayer::BlIn9Cu)
        } else if str_eq(value, "BL_In10_Cu") {
            Some(BoardLayer::BlIn10Cu)
        } else if str_eq(value, "BL_In11_Cu") {
            Some(BoardLayer::BlIn11Cu)
        } else if str_eq(value, "BL_In12_Cu") {
            Some(BoardLayer::BlIn12Cu)
        } else if str_eq(value, "BL_In13_Cu") {
            Some(BoardLayer::BlIn13Cu)
        } else if str_eq(value, "BL_In14_Cu") {
            Some(BoardLayer::BlIn14Cu)
        } else if str_eq(value, "BL_In15_Cu") {
            Some(BoardLayer::BlIn15Cu)
        } else if str_eq(value, "BL_In16_Cu") {
            Some(BoardLayer::BlIn16Cu)
        } else if str_eq(value, "BL_In17_Cu") {
            Some(BoardLayer::BlIn17Cu)
        } else if str_eq(value, "BL_In18_Cu") {
            Some(BoardLayer::BlIn18Cu)
        } else if str_eq(value, "BL_In19_Cu") {
            Some(BoardLayer::BlIn19Cu)
        } else if str_eq(value, "BL_In20_Cu") {
            Some(BoardLayer::BlIn20Cu)
        } else if str_eq(value, "BL_In21_Cu") {
            Some(BoardLayer::BlIn21Cu)
        } else if str_eq(value, "BL_In22_Cu") {
            Some(BoardLayer::BlIn22Cu)
        } else if str_eq(value, "BL_In23_Cu") {
            Some(BoardLayer::BlIn23Cu)
        } else if str_eq(value, "BL_In24_Cu") {
            Some(BoardLayer::BlIn24Cu)
        } else if str_eq(value, "BL_In25_Cu") {
            Some(BoardLayer::BlIn25Cu)
        } else if str_eq(value, "BL_In26_Cu") {
            Some(BoardLayer::BlIn26Cu)
        } else if str_eq(value, "BL_In27_Cu") {
            Some(BoardLayer::BlIn27Cu)
        } else if str_eq(value, "BL_In28_Cu") {
            Some(BoardLayer::BlIn28Cu)
        } else if str_eq(value, "BL_In29_Cu") {
            Some(BoardLayer::BlIn29Cu)
        } else if str_eq(value, "BL_In30_Cu") {
            Some(BoardLayer::BlIn30Cu)
        } else if str_eq(value, "BL_B_Cu") {
            Some(BoardLayer::BlBCu)
        } else if str_eq(value, "BL_B_Adhes") {
            Some(BoardLayer::BlBAdhes)
        } else if str_eq(value, "BL_F_Adhes") {
            Some(BoardLayer::BlFAdhes)
        } else if str_eq(value, "BL_B_Paste") {
            Some(BoardLayer::BlBPaste)
        } else if str_eq(value, "BL_F_Paste") {
            Some(BoardLayer::BlFPaste)
        } else if str_eq(value, "BL_B_SilkS") {
            Some(BoardLayer::BlBSilkS)
        } else if str_eq(value, "BL_F_SilkS") {
            Some(BoardLayer::BlFSilkS)
        } else if str_eq(value, "BL_B_Mask") {
            Some(BoardLayer::BlBMask)
        } else if str_eq(value, "BL_F_Mask") {
            Some(BoardLayer::BlFMask)
        } else if str_eq(value, "BL_Dwgs_User") {
            Some(BoardLayer::BlDwgsUser)
        } else if str_eq(value, "BL_Cmts_User") {
            Some(BoardLayer::BlCmtsUser)
        } else if str_eq(value, "BL_Eco1_User") {
            Some(BoardLayer::BlEco1User)
        } else if str_eq(value, "BL_Eco2_User") {
            Some(BoardLayer::BlEco2User)
        } else if str_eq(value, "BL_Edge_Cuts") {
            Some(BoardLayer::BlEdgeCuts)
        } else if str_eq(value, "BL_Margin") {
            Some(BoardLayer::BlMargin)
        } else if str_eq(value, "BL_B_CrtYd") {
            Some(BoardLayer::BlBCrtYd)
        } else if str_eq(value, "BL_F_CrtYd") {
            Some(BoardLayer::BlFCrtYd)
        } else if str_eq(value, "BL_B_Fab") {
            Some(BoardLayer::BlBFab)
        } else if str_eq(value, "BL_F_Fab") {
            Some(BoardLayer::BlFFab)
        } else if str_eq(value, "BL_User_1") {
            Some(BoardLayer::BlUser1)
        } else if str_eq(value, "BL_User_2") {
            Some(BoardLayer::BlUser2)
        } else if str_eq(value, "BL_User_3") {
            Some(BoardLayer::BlUser3)
        } else if str_eq(value, "BL_User_4") {
            Some(BoardLayer::BlUser4)
        } else if str_eq(value, "BL_User_5") {
            Some(BoardLayer::BlUser5)
        } else if str_eq(value, "BL_User_6") {
            Some(BoardLayer::BlUser6)
        } else if str_eq(value, "BL_User_7") {
            Some(BoardLayer::BlUser7)
        } else if str_eq(value, "BL_User_8") {
            Some(BoardLayer::BlUser8)
        } else if str_eq(value, "BL_User_9") {
            Some(BoardLayer::BlUser9)
        } else {
            None
        }
    }

    /// The value a number stands for; an unknown number stands for the first value.
    pub fn from_i32(v: i32) -> (r: Self)
        ensures
            r == Self::spec_from_i32(v),
    {
        if v == 1 {
            BoardLayer::BlUndefined
        } else if v == 2 {
            BoardLayer::BlUnselected
        } else if v == 3 {
            BoardLayer::BlFCu
        } else if v == 4 {
            BoardLayer::BlIn1Cu
        } else if v == 5 {
            BoardLayer::BlIn2Cu
        } else if v == 6 {
            BoardLayer::BlIn3Cu
        } else if v == 7 {
            BoardLayer::BlIn4Cu
        } else if v == 8 {
            BoardLayer::BlIn5Cu
        } else if v == 9 {
            BoardLayer::BlIn6Cu
        } else if v == 10 {
            BoardLayer::BlIn7Cu
        } else if v == 11 {
            BoardLayer::BlIn8Cu
        } else if v == 12 {
            BoardLayer::BlIn9Cu
        } else if v == 13 {
            BoardLayer::BlIn10Cu
        } else if v == 14 {
            BoardLayer::BlIn11Cu
        } else if v == 15 {
            BoardLayer::BlIn12Cu
        } else if v == 16 {
            BoardLayer::BlIn13Cu
        } else if v == 17 {
            BoardLayer::BlIn14Cu
        } else if v == 18 {
            BoardLayer::BlIn15Cu
        } else if v == 19 {
            BoardLayer::BlIn16Cu
        } else if v == 20 {
            BoardLayer::BlIn17Cu
        } else if v == 21 {
            BoardLayer::BlIn18Cu
        } else if v == 22 {
            BoardLayer::BlIn19Cu
        } else if v == 23 {
            BoardLayer::BlIn20Cu
        } else if v == 24 {
            BoardLayer::BlIn21Cu
        } else if v == 25 {
            BoardLayer::BlIn22Cu
        } else if v == 26 {
            BoardLayer::BlIn23Cu
        } else if v == 27 {
            BoardLayer::BlIn24Cu
        } else if v == 28 {
            BoardLayer::BlIn25Cu
        } else if v == 29 {
            BoardLayer::BlIn26Cu
        } else if v == 30 {
            BoardLayer::BlIn27Cu
        } else if v == 31 {
            BoardLayer::BlIn28Cu
        } else if v == 32 {
            BoardLayer::BlIn29Cu
        } else if v == 33 {
            BoardLayer::BlIn30Cu
        } else if v == 34 {
            BoardLayer::BlBCu
        } else if v == 35 {
            BoardLayer::BlBAdhes
        } else if v == 36 {
            BoardLayer::BlFAdhes
        } else if v == 37 {
            BoardLayer::BlBPaste
        } else if v == 38 {
            BoardLayer::BlFPaste
        } else if v == 39 {
            BoardLayer::BlBSilkS
        } else if v == 40 {
            BoardLayer::BlFSilkS
        } else if v == 41 {
            BoardLayer::BlBMask
        } else if v == 42 {
            BoardLayer::BlFMask
        } else if v == 43 {
            BoardLayer::BlDwgsUser
        } else if v == 44 {
            BoardLayer::BlCmtsUser
        } else if v == 45 {
            BoardLayer::BlEco1User
        } else if v == 46 {
            BoardLayer::BlEco2User
        } else if v == 47 {
            BoardLayer::BlEdgeCuts
        } else if v == 48 {
            BoardLayer::BlMargin
        } else if v == 49 {
            BoardLayer::BlBCrtYd
        } else if v == 50 {
            BoardLayer::BlFCrtYd
        } else if v == 51 {
            BoardLayer::BlBFab
        } else if v == 52 {
            BoardLayer::BlFFab
        } else if v == 53 {
            BoardLayer::BlUser1
        } else if v == 54 {
            BoardLayer::BlUser2
        } else if v == 55 {
            BoardLayer::BlUser3
        } else if v == 56 {
            BoardLayer::BlUser4
        } else if v == 57 {
            BoardLayer::BlUser5
        } else if v == 58 {
            BoardLayer::BlUser6
        } else if v == 59 {
            BoardLayer::BlUser7
        } else if v == 60 {
            BoardLayer::BlUser8
        } else if v == 61 {
            BoardLayer::BlUser9
        } else {
            BoardLayer::BlUnknown
        }
    }

}

/// Whether an item may be moved.
#[derive(Clone, Copy, Debug, PartialEq, Eq, Hash, PartialOrd, Ord)]
pub enum LockedState {
    LsUnknown,
    LsUnlocked,
    LsLocked,
}

impl LockedState {
    /// The name the schema gives the value.
    pub open spec fn spec_str_name(&self) -> Seq<char> {
        match self {
            LockedState::LsUnknown => "LS_UNKNOWN"@,
            LockedState::LsUnlocked => "LS_UNLOCKED"@,
            LockedState::LsLocked => "LS_LOCKED"@,
        }
    }

    /// The value of a schema name, if it is one.
    pub open spec fn spec_from_str_name(s: Seq<char>) -> Option<Self> {
        if s == "LS_UNKNOWN"@ {
            Some(LockedState::LsUnknown)
        } else if s == "LS_UNLOCKED"@ {
            Some(LockedState::LsUnlocked)
        } else if s == "LS_LOCKED"@ {
            Some(LockedState::LsLocked)
        } else {
            None
        }
    }

    /// The number that stands for the value on the wire.
    pub open spec fn spec_value(&self) -> i32 {
        match self {
            LockedState::LsUnknown => 0,
            LockedState::LsUnlocked => 1,
            LockedState::LsLocked => 2,
        }
    }

    /// The value a number stands for; an unknown number stands for the first value.
    pub open spec fn spec_from_i32(v: i32) -> Self {
        if v == 1 {
            LockedState::LsUnlocked
        } else if v == 2 {
            LockedState::LsLocked
        } else {
            LockedState::LsUnknown
        }
    }

    /// The name the schema gives the value.
    pub fn as_str_name(&self) -> (r: &'static str)
        ensures
            r@ == self.spec_str_name(),
    {
        match self {
            LockedState::LsUnknown => "LS_UNKNOWN",
            LockedState::LsUnlocked => "LS_UNLOCKED",
            LockedState::LsLocked => "LS_LOCKED",
        }
    }

    /// The value a schema name stands for, if any.
    pub fn from_str_name(value: &str) -> (r: Option<Self>)
        ensures
            r == Self::spec_from_str_name(value@),
    {
        if str_eq(value, "LS_UNKNOWN") {
            Some(LockedState::LsUnknown)
        } else if str_eq(value, "LS_UNLOCKED") {
            Some(LockedState::LsUnlocked)
        } else if str_eq(value, "LS_LOCKED") {
            Some(LockedState::LsLocked)
        } else {
            None
        }
    }

    /// The value a number stands for; an unknown number stands for the first value.
    pub fn from_i32(v: i32) -> (r: Self)
        ensures
            r == Self::spec_from_i32(v),
    {
        if v == 1 {
            LockedState::LsUnlocked
        } else if v == 2 {
            LockedState::LsLocked
        } else {
            LockedState::LsUnknown
        }
    }

}

/// A footprint's definition; of it only the library identifier is held.
#[derive(Debug, PartialEq)]
pub struct Footprint {
    pub id: Option<LibraryIdentifier>,
}

impl WireMessage for Footprint {
    open spec fn spec_schema_name() -> Seq<char> {
        "kiapi.board.types.Footprint"@
    }

    open spec fn fields(&self) -> Seq<WireFieldV> {
        optional_nested(1, fields_of_option(self.id))
    }

    open spec fn decoded(fs: Seq<WireFieldV>) -> Option<Seq<WireFieldV>> {
        match as_nested::<LibraryIdentifier>(last_of(fs, 1)) {
            Some(x0) => Some(optional_nested(1, x0)),
            None => None,
        }
    }

    proof fn lemma_fields_decode(&self) {
        broadcast use group_canonical_fields;

        lemma_optional_round_trip(self.id, 1);
    }

    fn schema_name() -> (r: String) {
        String::from_str("kiapi.board.types.Footprint")
    }

    fn to_fields(&self) -> (r: Vec<WireField>) {
        let mut out: Vec<WireField> = Vec::new();
        push_optional(&mut out, 1, &self.id);
        assert(fields_view(out@) =~= self.fields());
        out
    }

    fn from_fields(fs: &Vec<WireField>) -> (r: Result<Self, KiCadError>) {
        let id = nested_at::<LibraryIdentifier>(fs, 1)?;
        Ok(Footprint { id })
    }
}

/// Text placed on a board; of it only the text itself is held.
#[derive(Debug, PartialEq)]
pub struct BoardText {
    pub text: Option<Text>,
}

impl WireMessage for BoardText {
    open spec fn spec_schema_name() -> Seq<char> {
        "kiapi.board.types.BoardText"@
    }

    open spec fn fields(&self) -> Seq<WireFieldV> {
        optional_nested(2, fields_of_option(self.text))
    }

    open spec fn decoded(fs: Seq<WireFieldV>) -> Option<Seq<WireFieldV>> {
        match as_nested::<Text>(last_of(fs, 2)) {
            Some(x0) => Some(optional_nested(2, x0)),
            None => None,
        }
    }

    proof fn lemma_fields_decode(&self) {
        broadcast use group_canonical_fields;

        lemma_optional_round_trip(self.text, 2);
    }

    fn schema_name() -> (r: String) {
        String::from_str("kiapi.board.types.BoardText")
    }

    fn to_fields(&self) -> (r: Vec<WireField>) {
        let mut out: Vec<WireField> = Vec::new();
        push_optional(&mut out, 2, &self.text);
        assert(fields_view(out@) =~= self.fields());
        out
    }

    fn from_fields(fs: &Vec<WireField>) -> (r: Result<Self, KiCadError>) {
        let text = nested_at::<Text>(fs, 2)?;
        Ok(BoardText { text })
    }
}

/// A named field of a footprint; of it only its text is held.
#[derive(Debug, PartialEq)]
pub struct Field {
    pub text: Option<BoardText>,
}

impl WireMessage for Field {
    open spec fn spec_schema_name() -> Seq<char> {
        "kiapi.board.types.Field"@
    }

    open spec fn fields(&self) -> Seq<WireFieldV> {
        optional_nested(3, fields_of_option(self.text))
    }

    open spec fn decoded(fs: Seq<WireFieldV>) -> Option<Seq<WireFieldV>> {
        match as_nested::<BoardText>(last_of(fs, 3)) {
            Some(x0) => Some(optional_nested(3, x0)),
            None => None,
        }
    }

    proof fn lemma_fields_decode(&self) {
        broadcast use group_canonical_fields;

        lemma_optional_round_trip(self.text, 3);
    }

    fn schema_name() -> (r: String) {
        String::from_str("kiapi.board.types.Field")
    }

    fn to_fields(&self) -> (r: Vec<WireField>) {
        let mut out: Vec<WireField> = Vec::new();
        push_optional(&mut out, 3, &self.text);
        assert(fields_view(out@) =~= self.fields());
        out
    }

    fn from_fields(fs: &Vec<WireField>) -> (r: Result<Self, KiCadError>) {
        let text = nested_at::<BoardText>(fs, 3)?;
        Ok(Field { text })
    }
}

/// The manufacturing attributes of a footprint that the client reads.
#[derive(Debug, PartialEq)]
pub struct FootprintAttributes {
    pub exclude_from_bill_of_materials: bool,
    pub do_not_populate: bool,
}

impl WireMessage for FootprintAttributes {
    open spec fn spec_schema_name() -> Seq<char> {
        "kiapi.board.types.FootprintAttributes"@
    }

    open spec fn fields(&self) -> Seq<WireFieldV> {
        single(varint_field(5, bool_bits(self.exclude_from_bill_of_materials)))
            + single(varint_field(7, bool_bits(self.do_not_populate)))
    }

    open spec fn decoded(fs: Seq<WireFieldV>) -> Option<Seq<WireFieldV>> {
        match (as_varint(last_of(fs, 5)), as_varint(last_of(fs, 7))) {
            (Some(x0), Some(x1)) => Some(
                single(varint_field(5, bool_bits(x0 != 0)))
                    + single(varint_field(7, bool_bits(x1 != 0)))
            ),
            _ => None,
        }
    }

    proof fn lemma_fields_decode(&self) {
        broadcast use group_canonical_fields;
    }

    fn schema_name() -> (r: String) {
        String::from_str("kiapi.board.types.FootprintAttributes")
    }

    fn to_fields(&self) -> (r: Vec<WireField>) {
        let mut out: Vec<WireField> = Vec::new();
        push_varint(&mut out, 5, if self.exclude_from_bill_of_materials { 1 } else { 0 });
        push_varint(&mut out, 7, if self.do_not_populate { 1 } else { 0 });
        assert(fields_view(out@) =~= self.fields());
        out
    }

    fn from_fields(fs: &Vec<WireField>) -> (r: Result<Self, KiCadError>) {
        let exclude_from_bill_of_materials = varint_at(fs, 5)?;
        let do_not_populate = varint_at(fs, 7)?;
        Ok(FootprintAttributes {
            exclude_from_bill_of_materials: exclude_from_bill_of_materials != 0,
            do_not_populate: do_not_populate != 0,
        })
    }
}

/// One placed footprint, with the parts of it that the client reads.
#[derive(Debug, PartialEq)]
pub struct FootprintInstance {
    pub id: Option<Kiid>,
    pub position: Option<Vector2>,
    pub orientation: Option<Angle>,
    pub layer: i32,
    pub locked: i32,
    pub definition: Option<Footprint>,
    pub reference_field: Option<Field>,
    pub value_field: Option<Field>,
    pub description_field: Option<Field>,
    pub attributes: Option<FootprintAttributes>,
}

impl WireMessage for FootprintInstance {
    open spec fn spec_schema_name() -> Seq<char> {
        "kiapi.board.types.FootprintInstance"@
    }

    open spec fn fields(&self) -> Seq<WireFieldV> {
        optional_nested(1, fields_of_option(self.id))
            + optional_nested(2, fields_of_option(self.position))
            + optional_nested(3, fields_of_option(self.orientation))
            + single(varint_field(4, i32_bits(self.layer)))
            + single(varint_field(5, i32_bits(self.locked)))
            + optional_nested(6, fields_of_option(self.definition))
            + optional_nested(7, fields_of_option(self.reference_field))
            + optional_nested(8, fields_of_option(self.value_field))
            + optional_nested(10, fields_of_option(self.description_field))
            + optional_nested(11, fields_of_option(self.attributes))
    }

    open spec fn decoded(fs: Seq<WireFieldV>) -> Option<Seq<WireFieldV>> {
        match (
            as_nested::<Kiid>(last_of(fs, 1)),
            as_nested::<Vector2>(last_of(fs, 2)),
            as_nested::<Angle>(last_of(fs, 3)),
            as_varint(last_of(fs, 4)),
            as_varint(last_of(fs, 5)),
            as_nested::<Footprint>(last_of(fs, 6)),
            as_nested::<Field>(last_of(fs, 7)),
            as_nested::<Field>(last_of(fs, 8)),
            as_nested::<Field>(last_of(fs, 10)),
            as_nested::<FootprintAttributes>(last_of(fs, 11)),
        ) {
            (
                Some(x0),
                Some(x1),
                Some(x2),
                Some(x3),
                Some(x4),
                Some(x5),
                Some(x6),
                Some(x7),
                Some(x8),
                Some(x9),
            ) => Some(
                optional_nested(1, x0)
                    + optional_nested(2, x1)
                    + optional_nested(3, x2)
                    + single(varint_field(4, i32_bits(x3 as i32)))
                    + single(varint_field(5, i32_bits(x4 as i32)))
                    + optional_nested(6, x5)
                    + optional_nested(7, x6)
                    + optional_nested(8, x7)
                    + optional_nested(10, x8)
                    + optional_nested(11, x9)
            ),
            _ => None,
        }
    }

    proof fn lemma_fields_decode(&self) {
        lemma_footprint_parts(*self);
        lemma_optional_round_trip(self.id, 1);
        lemma_optional_round_trip(self.position, 2);
        lemma_optional_round_trip(self.orientation, 3);
        lemma_i32_bits(self.layer);
        lemma_i32_bits(self.locked);
        lemma_optional_round_trip(self.definition, 6);
        lemma_optional_round_trip(self.reference_field, 7);
        lemma_optional_round_trip(self.value_field, 8);
        lemma_optional_round_trip(self.description_field, 10);
        lemma_optional_round_trip(self.attributes, 11);
    }

    fn schema_name() -> (r: String) {
        String::from_str("kiapi.board.types.FootprintInstance")
    }

    fn to_fields(&self) -> (r: Vec<WireField>) {
        let mut out: Vec<WireField> = Vec::new();
        push_optional(&mut out, 1, &self.id);
        push_optional(&mut out, 2, &self.position);
        push_optional(&mut out, 3, &self.orientation);
        push_varint(&mut out, 4, self.layer as i64 as u64);
        push_varint(&mut out, 5, self.locked as i64 as u64);
        push_optional(&mut out, 6, &self.definition);
        push_optional(&mut out, 7, &self.reference_field);
        push_optional(&mut out, 8, &self.value_field);
        push_optional(&mut out, 10, &self.description_field);
        push_optional(&mut out, 11, &self.attributes);
        assert(fields_view(out@) =~= self.fields());
        out
    }

    fn from_fields(fs: &Vec<WireField>) -> (r: Result<Self, KiCadError>) {
        let id = nested_at::<Kiid>(fs, 1)?;
        let position = nested_at::<Vector2>(fs, 2)?;
        let orientation = nested_at::<Angle>(fs, 3)?;
        let layer = varint_at(fs, 4)?;
        let locked = varint_at(fs, 5)?;
        let definition = nested_at::<Footprint>(fs, 6)?;
        let reference_field = nested_at::<Field>(fs, 7)?;
        let value_field = nested_at::<Field>(fs, 8)?;
        let description_field = nested_at::<Field>(fs, 10)?;
        let attributes = nested_at::<FootprintAttributes>(fs, 11)?;
        Ok(FootprintInstance {
            id,
            position,
            orientation,
            layer: layer as i32,
            locked: locked as i32,
            definition,
            reference_field,
            value_field,
            description_field,
            attributes,
        })
    }
}

/// How the canonical fields of a footprint split into one part per field.
proof fn lemma_footprint_parts(m: FootprintInstance)
    ensures
        encode_fields(m.fields()).len() == encode_fields(optional_nested(1, fields_of_option(m.id))).len()
            + encode_fields(optional_nested(2, fields_of_option(m.position))).len()
            + encode_fields(optional_nested(3, fields_of_option(m.orientation))).len()
            + encode_fields(single(varint_field(4, i32_bits(m.layer)))).len()
            + encode_fields(single(varint_field(5, i32_bits(m.locked)))).len()
            + encode_fields(optional_nested(6, fields_of_option(m.definition))).len()
            + encode_fields(optional_nested(7, fields_of_option(m.reference_field))).len()
            + encode_fields(optional_nested(8, fields_of_option(m.value_field))).len()
            + encode_fields(optional_nested(10, fields_of_option(m.description_field))).len()
            + encode_fields(optional_nested(11, fields_of_option(m.attributes))).len(),
        fields_numbers_ok(m.fields()),
        last_of(m.fields(), 1) == last_of(optional_nested(1, fields_of_option(m.id)), 1),
        last_of(m.fields(), 2) == last_of(optional_nested(2, fields_of_option(m.position)), 2),
        last_of(m.fields(), 3) == last_of(optional_nested(3, fields_of_option(m.orientation)), 3),
        last_of(m.fields(), 4) == Some(WireValueV::Varint(i32_bits(m.layer))),
        last_of(m.fields(), 5) == Some(WireValueV::Varint(i32_bits(m.locked))),
        last_of(m.fields(), 6) == last_of(optional_nested(6, fields_of_option(m.definition)), 6),
        last_of(m.fields(), 7) == last_of(optional_nested(7, fields_of_option(m.reference_field)), 7),
        last_of(m.fields(), 8) == last_of(optional_nested(8, fields_of_option(m.value_field)), 8),
        last_of(m.fields(), 10) == last_of(optional_nested(10, fields_of_option(m.description_field)), 10),
        last_of(m.fields(), 11) == last_of(optional_nested(11, fields_of_option(m.attributes)), 11),
{
    lemma_footprint_lengths(m);
    lemma_footprint_numbers(m);
    lemma_footprint_last_1(m);
    lemma_footprint_last_2(m);
    lemma_footprint_last_3(m);
    lemma_footprint_last_4(m);
    lemma_footprint_last_5(m);
    lemma_footprint_last_6(m);
    lemma_footprint_last_7(m);
    lemma_footprint_last_8(m);
    lemma_footprint_last_10(m);
    lemma_footprint_last_11(m);
}

proof fn lemma_footprint_lengths(m: FootprintInstance)
    ensures
        encode_fields(m.fields()).len() == encode_fields(optional_nested(1, fields_of_option(m.id))).len()
            + encode_fields(optional_nested(2, fields_of_option(m.position))).len()
            + encode_fields(optional_nested(3, fields_of_option(m.orientation))).len()
            + encode_fields(single(varint_field(4, i32_bits(m.layer)))).len()
            + encode_fields(single(varint_field(5, i32_bits(m.locked)))).len()
            + encode_fields(optional_nested(6, fields_of_option(m.definition))).len()
            + encode_fields(optional_nested(7, fields_of_option(m.reference_field))).len()
            + encode_fields(optional_nested(8, fields_of_option(m.value_field))).len()
            + encode_fields(optional_nested(10, fields_of_option(m.description_field))).len()
            + encode_fields(optional_nested(11, fields_of_option(m.attributes))).len(),
{
    broadcast use {lemma_encode_fields_concat, lemma_optional_encoding, lemma_encode_single};

}

proof fn lemma_footprint_numbers(m: FootprintInstance)
    ensures
        fields_numbers_ok(m.fields()),
{
    broadcast use {lemma_numbers_ok_concat, lemma_numbers_ok_single, lemma_numbers_ok_optional};

}

proof fn lemma_footprint_last_1(m: FootprintInstance)
    ensures
        last_of(m.fields(), 1) == last_of(optional_nested(1, fields_of_option(m.id)), 1),
{
    broadcast use {lemma_last_of_concat, lemma_last_of_single, lemma_last_of_optional};

}

proof fn lemma_footprint_last_2(m: FootprintInstance)
    ensures
        last_of(m.fields(), 2) == last_of(optional_nested(2, fields_of_option(m.position)), 2),
{
    broadcast use {lemma_last_of_concat, lemma_last_of_single, lemma_last_of_optional};

}

proof fn lemma_footprint_last_3(m: FootprintInstance)
    ensures
        last_of(m.fields(), 3) == last_of(optional_nested(3, fields_of_option(m.orientation)), 3),
{
    broadcast use {lemma_last_of_concat, lemma_last_of_single, lemma_last_of_optional};

}

proof fn lemma_footprint_last_4(m: FootprintInstance)
    ensures
        last_of(m.fields(), 4) == Some(WireValueV::Varint(i32_bits(m.layer))),
{
    broadcast use {lemma_last_of_concat, lemma_last_of_single, lemma_last_of_optional};

}

proof fn lemma_footprint_last_5(m: FootprintInstance)
    ensures
        last_of(m.fields(), 5) == Some(WireValueV::Varint(i32_bits(m.locked))),
{
    broadcast use {lemma_last_of_concat, lemma_last_of_single, lemma_last_of_optional};

}

proof fn lemma_footprint_last_6(m: FootprintInstance)
    ensures
        last_of(m.fields(), 6) == last_of(optional_nested(6, fields_of_option(m.definition)), 6),
{
    broadcast use {lemma_last_of_concat, lemma_last_of_single, lemma_last_of_optional};

}

proof fn lemma_footprint_last_7(m: FootprintInstance)
    ensures
        last_of(m.fields(), 7) == last_of(optional_nested(7, fields_of_option(m.reference_field)), 7),
{
    broadcast use {lemma_last_of_concat, lemma_last_of_single, lemma_last_of_optional};

}

proof fn lemma_footprint_last_8(m: FootprintInstance)
    ensures
        last_of(m.fields(), 8) == last_of(optional_nested(8, fields_of_option(m.value_field)), 8),
{
    broadcast use {lemma_last_of_concat, lemma_last_of_single, lemma_last_of_optional};

}

proof fn lemma_footprint_last_10(m: FootprintInstance)
    ensures
        last_of(m.fields(), 10) == last_of(optional_nested(10, fields_of_option(m.description_field)), 10),
{
    broadcast use {lemma_last_of_concat, lemma_last_of_single, lemma_last_of_optional};

}

proof fn lemma_footprint_last_11(m: FootprintInstance)
    ensures
        last_of(m.fields(), 11) == last_of(optional_nested(11, fields_of_option(m.attributes)), 11),
{
    broadcast use {lemma_last_of_concat, lemma_last_of_single, lemma_last_of_optional};

}


} // verus!
