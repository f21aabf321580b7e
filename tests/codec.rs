use kicad_ecs::any::{pack, type_url_of, unpack, Any};
use kicad_ecs::board::{BoardText, Field, FootprintAttributes, FootprintInstance};
use kicad_ecs::commands::{GetItems, GetOpenDocumentsResponse, GetVersion, GetVersionResponse};
use kicad_ecs::error::KiCadError;
use kicad_ecs::message::{decode_message, encode_message};
use kicad_ecs::types::{
    Angle, DocumentIdentifier, DocumentSpecifier, ItemHeader, KiCadVersion, Kiid,
    LibraryIdentifier, ProjectSpecifier, SheetPath, Text, Vector2,
};
use kicad_ecs::wire::{read_fields, write_varint, WireValue};

fn version(major: u32, minor: u32, patch: u32, full: &str) -> KiCadVersion {
    KiCadVersion { major, minor, patch, full_version: full.to_string() }
}

#[test]
fn varint_digits_are_least_significant_first() {
    let mut out = Vec::new();
    write_varint(&mut out, 300);
    assert_eq!(out, vec![0xAC, 0x02]);
    let mut one = Vec::new();
    write_varint(&mut one, 1);
    assert_eq!(one, vec![0x01]);
    let mut max = Vec::new();
    write_varint(&mut max, u64::MAX);
    assert_eq!(max.len(), 10);
}

#[test]
fn fields_read_back_with_their_wire_types() {
    // field 1 varint 150, field 2 "hi"
    let bytes = vec![0x08, 0x96, 0x01, 0x12, 0x02, b'h', b'i'];
    let fs = read_fields(&bytes).unwrap();
    assert_eq!(fs.len(), 2);
    assert_eq!(fs[0].number, 1);
    assert!(matches!(fs[0].value, WireValue::Varint(150)));
    assert_eq!(fs[1].number, 2);
    match &fs[1].value {
        WireValue::Delimited(b) => assert_eq!(b, &vec![b'h', b'i']),
        _ => panic!("expected a length-delimited field"),
    }
}

#[test]
fn truncated_bytes_are_malformed() {
    assert!(read_fields(&[0x12, 0x05, b'a']).is_none());
    assert!(read_fields(&[0x08]).is_none());
    // field number zero is not allowed
    assert!(read_fields(&[0x00, 0x01]).is_none());
    let r: Result<KiCadVersion, KiCadError> = decode_message(&[0x0A, 0x09, 0x01]);
    assert_eq!(r.unwrap_err(), KiCadError::MalformedEnvelope);
}

#[test]
fn version_packs_and_unpacks_to_the_same_value() {
    let v = version(7, 0, 5, "7.0.5");
    let a = pack(&v);
    assert_eq!(a.type_url, "type.googleapis.com/kiapi.common.types.KiCadVersion");
    let back: KiCadVersion = unpack(&a).unwrap();
    assert_eq!(back, v);
}

#[test]
fn nested_messages_round_trip() {
    let r = GetVersionResponse { version: Some(version(8, 0, 1, "8.0.1-rc")) };
    let back: GetVersionResponse = unpack(&pack(&r)).unwrap();
    assert_eq!(back, r);

    let docs = GetOpenDocumentsResponse {
        documents: vec![
            DocumentSpecifier {
                type_: 3,
                identifier: Some(DocumentIdentifier::BoardFilename("demo.kicad_pcb".to_string())),
                project: Some(ProjectSpecifier { name: "demo".to_string(), path: "/p".to_string() }),
            },
            DocumentSpecifier {
                type_: -2,
                identifier: Some(DocumentIdentifier::LibId(LibraryIdentifier {
                    library_nickname: "Lib".to_string(),
                    entry_name: "R_0603".to_string(),
                })),
                project: None,
            },
            DocumentSpecifier {
                type_: 1,
                identifier: Some(DocumentIdentifier::SheetPath(SheetPath {
                    path: vec![Kiid { value: "a".to_string() }, Kiid { value: "b".to_string() }],
                    path_human_readable: "/sub/".to_string(),
                })),
                project: None,
            },
            DocumentSpecifier { type_: 0, identifier: None, project: None },
        ],
    };
    let back: GetOpenDocumentsResponse = unpack(&pack(&docs)).unwrap();
    assert_eq!(back, docs);
}

#[test]
fn requests_with_repeated_integers_round_trip() {
    let g = GetItems {
        header: Some(ItemHeader {
            document: Some(DocumentSpecifier { type_: 3, identifier: None, project: None }),
            container: Some(Kiid { value: "c".to_string() }),
        }),
        types: vec![1, 2, -5],
    };
    let back: GetItems = unpack(&pack(&g)).unwrap();
    assert_eq!(back, g);
}

#[test]
fn footprint_instance_round_trips() {
    let fp = FootprintInstance {
        id: Some(Kiid { value: "abcdef0123".to_string() }),
        position: Some(Vector2 { x_nm: -1_500_000, y_nm: 2_000_000 }),
        orientation: Some(Angle { value_degrees_bits: 90.0f64.to_bits() }),
        layer: 34,
        locked: 2,
        definition: None,
        reference_field: Some(Field {
            text: Some(BoardText { text: Some(Text { text: "R1".to_string() }) }),
        }),
        value_field: None,
        description_field: None,
        attributes: Some(FootprintAttributes {
            exclude_from_bill_of_materials: true,
            do_not_populate: false,
        }),
    };
    let back: FootprintInstance = unpack(&pack(&fp)).unwrap();
    assert_eq!(back, fp);
}

#[test]
fn unpacking_as_another_type_is_a_type_mismatch() {
    let a = pack(&version(7, 0, 5, "7.0.5"));
    let r: Result<GetVersionResponse, KiCadError> = unpack(&a);
    assert_eq!(r.unwrap_err(), KiCadError::TypeMismatch);
    let empty = Any { type_url: String::new(), value: Vec::new() };
    let r2: Result<GetVersion, KiCadError> = unpack(&empty);
    assert_eq!(r2.unwrap_err(), KiCadError::TypeMismatch);
}

#[test]
fn matching_tag_with_bad_bytes_is_malformed() {
    let a = Any { type_url: type_url_of::<KiCadVersion>(), value: vec![0x22, 0x05, b'x'] };
    let r: Result<KiCadVersion, KiCadError> = unpack(&a);
    assert_eq!(r.unwrap_err(), KiCadError::MalformedEnvelope);
    // a string field that is not UTF-8
    let b = Any { type_url: type_url_of::<KiCadVersion>(), value: vec![0x22, 0x01, 0xFF] };
    let r2: Result<KiCadVersion, KiCadError> = unpack(&b);
    assert_eq!(r2.unwrap_err(), KiCadError::MalformedEnvelope);
}

#[test]
fn later_field_occurrence_wins_and_unknown_fields_are_skipped() {
    // major = 1, then major = 9, then unknown field 15 (fixed32)
    let bytes = vec![0x08, 0x01, 0x08, 0x09, 0x7D, 1, 2, 3, 4];
    let v: KiCadVersion = decode_message(&bytes).unwrap();
    assert_eq!(v.major, 9);
    assert_eq!(v.minor, 0);
    assert_eq!(v.full_version, "");
}

#[test]
fn encoded_version_has_expected_bytes() {
    let bytes = encode_message(&version(7, 0, 5, "7"));
    assert_eq!(bytes, vec![0x08, 7, 0x10, 0, 0x18, 5, 0x22, 1, b'7']);
}
