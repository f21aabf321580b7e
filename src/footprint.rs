//! Turning a placed footprint as the peer sends it into a flat record, with a
//! defined value for every part that is missing.

use vstd::prelude::*;
use vstd::string::{StrSliceExecFns, StringExecFns};

use crate::any::{unpack, unpacked, Any};
use crate::board::{BoardLayer, Field, FootprintInstance, LockedState};
use crate::error::KiCadError;
use crate::message::WireMessage;
use crate::wire::WireFieldV;

verus! {

/// One placed footprint, flattened. Coordinates stay in the wire's unit,
/// nanometres; the rotation is the bit pattern of its double-precision value
/// in degrees, passed through as received.
#[derive(Debug)]
pub struct FootprintData {
    pub id: String,
    pub reference: String,
    pub value: String,
    pub footprint_name: String,
    pub position_nm: (i64, i64),
    pub rotation_degrees_bits: u64,
    pub layer: String,
    pub description: Option<String>,
    pub exclude_from_bom: bool,
    pub do_not_populate: bool,
    pub locked: bool,
}

/// The text a field carries, where every link of field, board text and
/// text is present.
pub open spec fn field_text(o: Option<Field>) -> Option<Seq<char>> {
    match o {
        Some(f) => match f.text {
            Some(bt) => match bt.text {
                Some(t) => Some(t.text@),
                None => None,
            },
            None => None,
        },
        None => None,
    }
}

/// The identifier of a footprint; empty where it is missing.
pub open spec fn footprint_id(m: FootprintInstance) -> Seq<char> {
    match m.id {
        Some(k) => k.value@,
        None => Seq::empty(),
    }
}

/// The reference that stands in for a missing one: `REF_` and the first six
/// characters of the identifier, all of it where it is shorter.
pub open spec fn fallback_reference(id: Seq<char>) -> Seq<char> {
    "REF_"@ + id.take(if id.len() < 6 { id.len() as int } else { 6 })
}

/// The name a layer is shown by: the short codes of the two outer copper
/// layers, and the schema name of any other.
pub open spec fn layer_name(l: BoardLayer) -> Seq<char> {
    if l == BoardLayer::BlFCu {
        "F.Cu"@
    } else if l == BoardLayer::BlBCu {
        "B.Cu"@
    } else {
        l.spec_str_name()
    }
}

/// The record that `d` must be for the wire footprint `m`.
pub open spec fn decodes_to(m: FootprintInstance, d: FootprintData) -> bool {
    &&& d.id@ == footprint_id(m)
    &&& d.reference@ == match field_text(m.reference_field) {
        Some(t) => t,
        None => fallback_reference(footprint_id(m)),
    }
    &&& d.value@ == match field_text(m.value_field) {
        Some(t) => t,
        None => "UNKNOWN"@,
    }
    &&& d.footprint_name@ == match m.definition {
        Some(fp) => match fp.id {
            Some(l) => l.entry_name@,
            None => Seq::empty(),
        },
        None => Seq::empty(),
    }
    &&& d.position_nm == match m.position {
        Some(p) => (p.x_nm, p.y_nm),
        None => (0i64, 0i64),
    }
    &&& d.rotation_degrees_bits == match m.orientation {
        Some(a) => a.value_degrees_bits,
        None => 0u64,
    }
    &&& d.layer@ == layer_name(BoardLayer::spec_from_i32(m.layer))
    &&& match d.description {
        Some(s) => field_text(m.description_field) == Some(s@) && s@.len() > 0,
        None => match field_text(m.description_field) {
            Some(t) => t.len() == 0,
            None => true,
        },
    }
    &&& d.exclude_from_bom == match m.attributes {
        Some(a) => a.exclude_from_bill_of_materials,
        None => false,
    }
    &&& d.do_not_populate == match m.attributes {
        Some(a) => a.do_not_populate,
        None => false,
    }
    &&& d.locked == (LockedState::spec_from_i32(m.locked) == LockedState::LsLocked)
}

/// The two outer copper layers show as `F.Cu` and `B.Cu`; every other layer
/// shows as its schema name, which is never empty; a number that stands for
/// no layer shows as `BL_UNKNOWN`.
pub proof fn lemma_layer_names(l: BoardLayer, v: i32)
    ensures
        layer_name(BoardLayer::BlFCu) == "F.Cu"@,
        layer_name(BoardLayer::BlBCu) == "B.Cu"@,
        l != BoardLayer::BlFCu && l != BoardLayer::BlBCu ==> layer_name(l) == l.spec_str_name(),
        layer_name(l).len() > 0,
        !(0 <= v <= 61) ==> layer_name(BoardLayer::spec_from_i32(v)) == "BL_UNKNOWN"@,
{
    reveal_strlit("F.Cu");
    reveal_strlit("B.Cu");
    match l {
        BoardLayer::BlUnknown => {
            reveal_strlit("BL_UNKNOWN");
        },
        BoardLayer::BlUndefined => {
            reveal_strlit("BL_UNDEFINED");
        },
        BoardLayer::BlUnselected => {
            reveal_strlit("BL_UNSELECTED");
        },
        BoardLayer::BlFCu => {
            reveal_strlit("BL_F_Cu");
        },
        BoardLayer::BlIn1Cu => {
            reveal_strlit("BL_In1_Cu");
        },
        BoardLayer::BlIn2Cu => {
            reveal_strlit("BL_In2_Cu");
        },
        BoardLayer::BlIn3Cu => {
            reveal_strlit("BL_In3_Cu");
        },
        BoardLayer::BlIn4Cu => {
            reveal_strlit("BL_In4_Cu");
        },
        BoardLayer::BlIn5Cu => {
            reveal_strlit("BL_In5_Cu");
        },
        BoardLayer::BlIn6Cu => {
            reveal_strlit("BL_In6_Cu");
        },
        BoardLayer::BlIn7Cu => {
            reveal_strlit("BL_In7_Cu");
        },
        BoardLayer::BlIn8Cu => {
            reveal_strlit("BL_In8_Cu");
        },
        BoardLayer::BlIn9Cu => {
            reveal_strlit("BL_In9_Cu");
        },
        BoardLayer::BlIn10Cu => {
            reveal_strlit("BL_In10_Cu");
        },
        BoardLayer::BlIn11Cu => {
            reveal_strlit("BL_In11_Cu");
        },
        BoardLayer::BlIn12Cu => {
            reveal_strlit("BL_In12_Cu");
        },
        BoardLayer::BlIn13Cu => {
            reveal_strlit("BL_In13_Cu");
        },
        BoardLayer::BlIn14Cu => {
            reveal_strlit("BL_In14_Cu");
        },
        BoardLayer::BlIn15Cu => {
            reveal_strlit("BL_In15_Cu");
        },
        BoardLayer::BlIn16Cu => {
            reveal_strlit("BL_In16_Cu");
        },
        BoardLayer::BlIn17Cu => {
            reveal_strlit("BL_In17_Cu");
        },
        BoardLayer::BlIn18Cu => {
            reveal_strlit("BL_In18_Cu");
        },
        BoardLayer::BlIn19Cu => {
            reveal_strlit("BL_In19_Cu");
        },
        BoardLayer::BlIn20Cu => {
            reveal_strlit("BL_In20_Cu");
        },
        BoardLayer::BlIn21Cu => {
            reveal_strlit("BL_In21_Cu");
        },
        BoardLayer::BlIn22Cu => {
            reveal_strlit("BL_In22_Cu");
        },
        BoardLayer::BlIn23Cu => {
            reveal_strlit("BL_In23_Cu");
        },
        BoardLayer::BlIn24Cu => {
            reveal_strlit("BL_In24_Cu");
        },
        BoardLayer::BlIn25Cu => {
            reveal_strlit("BL_In25_Cu");
        },
        BoardLayer::BlIn26Cu => {
            reveal_strlit("BL_In26_Cu");
        },
        BoardLayer::BlIn27Cu => {
            reveal_strlit("BL_In27_Cu");
        },
        BoardLayer::BlIn28Cu => {
            reveal_strlit("BL_In28_Cu");
        },
        BoardLayer::BlIn29Cu => {
            reveal_strlit("BL_In29_Cu");
        },
        BoardLayer::BlIn30Cu => {
            reveal_strlit("BL_In30_Cu");
        },
        BoardLayer::BlBCu => {
            reveal_strlit("BL_B_Cu");
        },
        BoardLayer::BlBAdhes => {
            reveal_strlit("BL_B_Adhes");
        },
        BoardLayer::BlFAdhes => {
            reveal_strlit("BL_F_Adhes");
        },
        BoardLayer::BlBPaste => {
            reveal_strlit("BL_B_Paste");
        },
        BoardLayer::BlFPaste => {
            reveal_strlit("BL_F_Paste");
        },
        BoardLayer::BlBSilkS => {
            reveal_strlit("BL_B_SilkS");
        },
        BoardLayer::BlFSilkS => {
            reveal_strlit("BL_F_SilkS");
        },
        BoardLayer::BlBMask => {
            reveal_strlit("BL_B_Mask");
        },
        BoardLayer::BlFMask => {
            reveal_strlit("BL_F_Mask");
        },
        BoardLayer::BlDwgsUser => {
            reveal_strlit("BL_Dwgs_User");
        },
        BoardLayer::BlCmtsUser => {
            reveal_strlit("BL_Cmts_User");
        },
        BoardLayer::BlEco1User => {
            reveal_strlit("BL_Eco1_User");
        },
        BoardLayer::BlEco2User => {
            reveal_strlit("BL_Eco2_User");
        },
        BoardLayer::BlEdgeCuts => {
            reveal_strlit("BL_Edge_Cuts");
        },
        BoardLayer::BlMargin => {
            reveal_strlit("BL_Margin");
        },
        BoardLayer::BlBCrtYd => {
            reveal_strlit("BL_B_CrtYd");
        },
        BoardLayer::BlFCrtYd => {
            reveal_strlit("BL_F_CrtYd");
        },
        BoardLayer::BlBFab => {
            reveal_strlit("BL_B_Fab");
        },
        BoardLayer::BlFFab => {
            reveal_strlit("BL_F_Fab");
        },
        BoardLayer::BlUser1 => {
            reveal_strlit("BL_User_1");
        },
        BoardLayer::BlUser2 => {
            reveal_strlit("BL_User_2");
        },
        BoardLayer::BlUser3 => {
            reveal_strlit("BL_User_3");
        },
        BoardLayer::BlUser4 => {
            reveal_strlit("BL_User_4");
        },
        BoardLayer::BlUser5 => {
            reveal_strlit("BL_User_5");
        },
        BoardLayer::BlUser6 => {
            reveal_strlit("BL_User_6");
        },
        BoardLayer::BlUser7 => {
            reveal_strlit("BL_User_7");
        },
        BoardLayer::BlUser8 => {
            reveal_strlit("BL_User_8");
        },
        BoardLayer::BlUser9 => {
            reveal_strlit("BL_User_9");
        },
    }
}

/// The layer of every flattened footprint is named: front and back copper
/// by their short codes, any other layer number by its schema name, and a
/// number outside the enumeration as `BL_UNKNOWN`; never an empty string.
pub proof fn lemma_footprint_layer_named(m: FootprintInstance, d: FootprintData)
    requires
        decodes_to(m, d),
    ensures
        d.layer@.len() > 0,
        m.layer == 3 ==> d.layer@ == "F.Cu"@,
        m.layer == 34 ==> d.layer@ == "B.Cu"@,
        m.layer != 3 && m.layer != 34 ==> d.layer@ == BoardLayer::spec_from_i32(m.layer).spec_str_name(),
        !(0 <= m.layer <= 61) ==> d.layer@ == "BL_UNKNOWN"@,
{
    let l = BoardLayer::spec_from_i32(m.layer);
    lemma_layer_names(l, m.layer);
    assert(m.layer != 3 ==> l != BoardLayer::BlFCu);
    assert(m.layer != 34 ==> l != BoardLayer::BlBCu);
}

/// The display name of a layer.
pub fn layer_to_string(layer: BoardLayer) -> (r: String)
    ensures
        r@ == layer_name(layer),
{
    match layer {
        BoardLayer::BlFCu => String::from_str("F.Cu"),
        BoardLayer::BlBCu => String::from_str("B.Cu"),
        _ => String::from_str(layer.as_str_name()),
    }
}

/// The text a field carries, if every link is present.
fn field_text_of(o: &Option<Field>) -> (r: Option<String>)
    ensures
        match field_text(*o) {
            Some(t) => r matches Some(s) && s@ == t,
            None => r is None,
        },
{
    match o {
        Some(f) => match &f.text {
            Some(bt) => match &bt.text {
                Some(t) => Some(t.text.clone()),
                None => None,
            },
            None => None,
        },
        None => None,
    }
}

/// Flattens a wire footprint; every missing part has its fallback.
pub fn decode_footprint(m: &FootprintInstance) -> (r: FootprintData)
    ensures
        decodes_to(*m, r),
{
    let id = match &m.id {
        Some(k) => k.value.clone(),
        None => String::new(),
    };
    let reference = match field_text_of(&m.reference_field) {
        Some(t) => t,
        None => {
            let mut r = String::from_str("REF_");
            let len = id.as_str().unicode_len();
            let n: usize = if len < 6 {
                len
            } else {
                6
            };
            let prefix = id.as_str().substring_char(0, n);
            r.append(prefix);
            proof {
                assert(id@.subrange(0, n as int) =~= id@.take(n as int));
            }
            r
        },
    };
    let value = match field_text_of(&m.value_field) {
        Some(t) => t,
        None => String::from_str("UNKNOWN"),
    };
    let description = match field_text_of(&m.description_field) {
        Some(t) => {
            if t.as_str().unicode_len() > 0 {
                Some(t)
            } else {
                None
            }
        },
        None => None,
    };
    let footprint_name = match &m.definition {
        Some(fp) => match &fp.id {
            Some(l) => l.entry_name.clone(),
            None => String::new(),
        },
        None => String::new(),
    };
    let position_nm = match &m.position {
        Some(p) => (p.x_nm, p.y_nm),
        None => (0i64, 0i64),
    };
    let rotation_degrees_bits = match &m.orientation {
        Some(a) => a.value_degrees_bits,
        None => 0u64,
    };
    let layer = layer_to_string(BoardLayer::from_i32(m.layer));
    let locked = match LockedState::from_i32(m.locked) {
        LockedState::LsLocked => true,
        _ => false,
    };
    let (exclude_from_bom, do_not_populate) = match &m.attributes {
        Some(a) => (a.exclude_from_bill_of_materials, a.do_not_populate),
        None => (false, false),
    };
    FootprintData {
        id,
        reference,
        value,
        footprint_name,
        position_nm,
        rotation_degrees_bits,
        layer,
        description,
        exclude_from_bom,
        do_not_populate,
        locked,
    }
}

/// Unpacks one item as a footprint and flattens it; an item of another type
/// is a type mismatch.
pub fn unpack_footprint(any: &Any) -> (r: Result<FootprintData, KiCadError>)
    ensures
        match unpacked::<FootprintInstance>(any.type_url@, any.value@) {
            Ok(c) => r matches Ok(d) && record_of(d, c),
            Err(e) => r matches Err(e2) && e2 == e,
        },
{
    let m = unpack::<FootprintInstance>(any)?;
    let d = decode_footprint(&m);
    assert(m.fields() == m.fields() && decodes_to(m, d));
    Ok(d)
}

/// The canonical fields of the items that unpack as footprints, in order.
pub open spec fn footprint_items(items: Seq<Any>) -> Seq<Seq<WireFieldV>>
    decreases items.len(),
{
    if items.len() == 0 {
        Seq::empty()
    } else {
        let init = footprint_items(items.drop_last());
        match unpacked::<FootprintInstance>(items.last().type_url@, items.last().value@) {
            Ok(c) => init.push(c),
            Err(_) => init,
        }
    }
}

/// `d` is the flattening of a footprint whose canonical fields are `c`.
pub open spec fn record_of(d: FootprintData, c: Seq<WireFieldV>) -> bool {
    exists|m: FootprintInstance| m.fields() == c && decodes_to(m, d)
}

/// Each record is the flattening of a footprint with the matching fields.
pub open spec fn records_match(ds: Seq<FootprintData>, cs: Seq<Seq<WireFieldV>>) -> bool {
    &&& ds.len() == cs.len()
    &&& forall|j: int| 0 <= j < ds.len() ==> #[trigger] record_of(ds[j], cs[j])
}

/// Flattens every item that is a footprint, in order, and skips the others.
pub fn decode_footprints(items: &Vec<Any>) -> (r: Vec<FootprintData>)
    ensures
        records_match(r@, footprint_items(items@)),
{
    let mut out: Vec<FootprintData> = Vec::new();
    let ghost mut kept: Seq<Seq<WireFieldV>> = Seq::empty();
    let mut i: usize = 0;
    while i < items.len()
        invariant
            i <= items@.len(),
            kept == footprint_items(items@.take(i as int)),
            records_match(out@, kept),
        decreases items@.len() - i,
    {
        proof {
            assert(items@.take(i + 1).drop_last() =~= items@.take(i as int));
            assert(items@.take(i + 1).last() == items@[i as int]);
        }
        let ghost before = out@;
        match unpack_footprint(&items[i]) {
            Ok(d) => {
                out.push(d);
                proof {
                    let c = unpacked::<FootprintInstance>(items@[i as int].type_url@, items@[i as int].value@)->Ok_0;
                    let old_kept = kept;
                    assert(before.len() == old_kept.len());
                    kept = kept.push(c);
                    assert(out@.len() == kept.len());
                    assert forall|j: int| 0 <= j < out@.len() implies #[trigger] record_of(out@[j], kept[j]) by {
                        if j < before.len() {
                            assert(out@[j] == before[j]);
                        } else {
                            assert(out@[j] == d);
                            assert(kept[j] == c);
                        }
                    }
                    assert(records_match(out@, kept));
                }
            },
            Err(_) => {},
        }
        i = i + 1;
    }
    assert(items@.take(i as int) =~= items@);
    out
}

} // verus!
