use kicad_ecs::any::{pack, type_url_of, unpack, Any};
use kicad_ecs::commands::{
    CreateItems, CreateItemsResponse, EndCommit, ExpandTextVariables, ExpandTextVariablesResponse,
    GetBoundingBoxResponse, GetTextAsShapes, GetTextAsShapesResponse, GetTextExtents, HitTest,
    Inner, ItemCreationResult, ItemStatus, NetClassesResponse, SaveCopyOfDocument, SaveOptions,
    SetNetClasses, SetTextVariables, TextOrTextBox, TextWithShapes,
};
use kicad_ecs::error::KiCadError;
use kicad_ecs::project::{NetClass, TextVariable, TextVariables};
use kicad_ecs::stats::{ComponentFlagSet, PcbStatistics};
use kicad_ecs::types::{Box2, CompoundShape, DocumentSpecifier, ItemHeader, Kiid, Text, TextBox, Vector2};

fn flags(bom: bool, dnp: bool, locked: bool) -> ComponentFlagSet {
    ComponentFlagSet { exclude_from_bom: bom, do_not_populate: dnp, locked }
}

#[test]
fn statistics_count_sides_and_flags() {
    let layers = vec!["F.Cu".to_string(), "B.Cu".to_string(), "F.Cu".to_string(), "BL_In1_Cu".to_string()];
    let fl = vec![flags(true, false, true), flags(false, true, true), flags(false, false, false)];
    let s = PcbStatistics::tally(&layers, &fl, 2, 4);
    assert_eq!(s.front_components, 2);
    assert_eq!(s.back_components, 1);
    assert_eq!(s.other_layer_components, 1);
    assert_eq!(s.mounting_holes, 2);
    assert_eq!(s.total_components, 4);
    assert_eq!(s.exclude_bom_components, 1);
    assert_eq!(s.dnp_components, 1);
    assert_eq!(s.locked_components, 2);
}

#[test]
fn statistics_of_nothing_are_zero() {
    let s = PcbStatistics::tally(&vec![], &vec![], 0, 0);
    assert_eq!(s.front_components + s.back_components + s.other_layer_components, 0);
    assert_eq!(s.locked_components, 0);
}

#[test]
fn edit_messages_round_trip() {
    let e = EndCommit { id: Some(Kiid { value: "c1".to_string() }), action: 1, message: "move".to_string() };
    let back: EndCommit = unpack(&pack(&e)).unwrap();
    assert_eq!(back, e);

    let c = CreateItems {
        header: Some(ItemHeader { document: None, container: None }),
        items: vec![pack(&Kiid { value: "x".to_string() })],
        container: None,
    };
    let back: CreateItems = unpack(&pack(&c)).unwrap();
    assert_eq!(back, c);

    let r = CreateItemsResponse {
        header: None,
        status: 1,
        created_items: vec![ItemCreationResult {
            status: Some(ItemStatus { code: 7, error_message: "bad".to_string() }),
            item: None,
        }],
    };
    let back: CreateItemsResponse = unpack(&pack(&r)).unwrap();
    assert_eq!(back, r);

    let s = SaveCopyOfDocument {
        document: Some(DocumentSpecifier { type_: 3, identifier: None, project: None }),
        path: "/tmp/copy.kicad_pcb".to_string(),
        options: Some(SaveOptions { overwrite: true, include_project: false }),
    };
    let back: SaveCopyOfDocument = unpack(&pack(&s)).unwrap();
    assert_eq!(back, s);

    let h = HitTest {
        header: None,
        id: Some(Kiid { value: "k".to_string() }),
        position: Some(Vector2 { x_nm: i64::MIN, y_nm: i64::MAX }),
        tolerance: -1,
    };
    let back: HitTest = unpack(&pack(&h)).unwrap();
    assert_eq!(back, h);
}

#[test]
fn text_and_shape_messages_round_trip() {
    let req = GetTextAsShapes {
        text: vec![
            TextOrTextBox { inner: Some(Inner::Text(Text { text: "A".to_string() })) },
            TextOrTextBox { inner: Some(Inner::Textbox(TextBox { text: "B\nC".to_string() })) },
            TextOrTextBox { inner: None },
        ],
    };
    let back: GetTextAsShapes = unpack(&pack(&req)).unwrap();
    assert_eq!(back, req);

    let resp = GetTextAsShapesResponse {
        text_with_shapes: vec![TextWithShapes {
            text: Some(TextOrTextBox { inner: Some(Inner::Text(Text { text: "A".to_string() })) }),
            shapes: Some(CompoundShape { shapes: vec![vec![1, 2, 3], vec![]] }),
        }],
    };
    let back: GetTextAsShapesResponse = unpack(&pack(&resp)).unwrap();
    assert_eq!(back, resp);

    let ext = GetTextExtents { text: Some(Text { text: "x".to_string() }) };
    let back: GetTextExtents = unpack(&pack(&ext)).unwrap();
    assert_eq!(back, ext);
}

#[test]
fn repeated_strings_round_trip_and_reject_bad_utf8() {
    let e = ExpandTextVariables {
        document: None,
        text: vec!["${TITLE}".to_string(), String::new(), "\u{e9}".to_string()],
    };
    let back: ExpandTextVariables = unpack(&pack(&e)).unwrap();
    assert_eq!(back, e);
    let r = ExpandTextVariablesResponse { text: vec!["Board".to_string()] };
    let back: ExpandTextVariablesResponse = unpack(&pack(&r)).unwrap();
    assert_eq!(back, r);
    // second string is not UTF-8
    let bad = Any {
        type_url: type_url_of::<ExpandTextVariablesResponse>(),
        value: vec![0x0A, 0x01, b'a', 0x0A, 0x01, 0xFF],
    };
    let res: Result<ExpandTextVariablesResponse, KiCadError> = unpack(&bad);
    assert_eq!(res.unwrap_err(), KiCadError::MalformedEnvelope);
}

#[test]
fn project_and_box_messages_round_trip() {
    let b = GetBoundingBoxResponse {
        items: vec![Kiid { value: "a".to_string() }],
        boxes: vec![Box2 {
            position: Some(Vector2 { x_nm: 1, y_nm: 2 }),
            size: Some(Vector2 { x_nm: 3, y_nm: 4 }),
        }],
    };
    let back: GetBoundingBoxResponse = unpack(&pack(&b)).unwrap();
    assert_eq!(back, b);
    let n = SetNetClasses { net_classes: vec![NetClass { name: "Default".to_string() }], merge_mode: 2 };
    let back: SetNetClasses = unpack(&pack(&n)).unwrap();
    assert_eq!(back, n);
    let nr = NetClassesResponse { net_classes: vec![NetClass { name: "HV".to_string() }] };
    let back: NetClassesResponse = unpack(&pack(&nr)).unwrap();
    assert_eq!(back, nr);
    let v = SetTextVariables {
        document: None,
        variables: Some(TextVariables {
            variables: vec![TextVariable { key: "REV".to_string(), value: "B".to_string() }],
        }),
        merge_mode: 1,
    };
    let back: SetTextVariables = unpack(&pack(&v)).unwrap();
    assert_eq!(back, v);
}
