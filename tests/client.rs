use kicad_ecs::any::{pack, unpack, Any};
use kicad_ecs::board::{BoardLayer, BoardText, Field, Footprint, FootprintAttributes, FootprintInstance, LockedState};
use kicad_ecs::client::{board_from_documents, first_document, KiCadClient, KiCadConnectionConfig};
use kicad_ecs::commands::{
    BoundingBoxMode, CommitAction, GetItems, GetItemsResponse, GetOpenDocuments,
    GetOpenDocumentsResponse, GetVersionResponse, HitTestResult, ItemDeletionStatus,
    ItemStatusCode, RunActionStatus,
};
use kicad_ecs::envelope::{ApiRequest, ApiResponse, ApiResponseHeader, ApiResponseStatus};
use kicad_ecs::error::KiCadError;
use kicad_ecs::footprint::{decode_footprint, layer_to_string, unpack_footprint};
use kicad_ecs::message::{decode_message, encode_message};
use kicad_ecs::types::{
    Angle, DocumentIdentifier, DocumentSpecifier, KiCadVersion, Kiid, LibraryIdentifier,
    ProjectSpecifier, Text, Vector2,
};

fn client() -> KiCadClient {
    KiCadClient::new(KiCadConnectionConfig {
        socket_path: "ipc:///tmp/kicad/api.sock".to_string(),
        client_name: "kicad-ecs-test".to_string(),
        kicad_token: String::new(),
    })
}

fn reply(token: &str, status: i32, error: &str, payload: Option<Any>) -> Vec<u8> {
    encode_message(&ApiResponse {
        header: Some(ApiResponseHeader { kicad_token: token.to_string() }),
        status: Some(ApiResponseStatus { status, error_message: error.to_string() }),
        message: payload,
    })
}

fn version_reply(token: &str) -> Vec<u8> {
    let v = GetVersionResponse {
        version: Some(KiCadVersion { major: 7, minor: 0, patch: 5, full_version: "7.0.5".to_string() }),
    };
    reply(token, 1, "", Some(pack(&v)))
}

fn board_doc(name: &str) -> DocumentSpecifier {
    DocumentSpecifier {
        type_: 3,
        identifier: Some(DocumentIdentifier::BoardFilename(name.to_string())),
        project: None,
    }
}

fn text_field(s: &str) -> Option<Field> {
    Some(Field { text: Some(BoardText { text: Some(Text { text: s.to_string() }) }) })
}

fn bare_footprint(id: &str) -> FootprintInstance {
    FootprintInstance {
        id: Some(Kiid { value: id.to_string() }),
        position: None,
        orientation: None,
        layer: 0,
        locked: 0,
        definition: None,
        reference_field: None,
        value_field: None,
        description_field: None,
        attributes: None,
    }
}

#[test]
fn get_version_end_to_end_sets_the_token() {
    let mut c = client();
    let req: ApiRequest = decode_message(&c.version_request()).unwrap();
    let header = req.header.unwrap();
    assert_eq!(header.client_name, "kicad-ecs-test");
    assert_eq!(header.kicad_token, "");
    assert_eq!(req.message.unwrap().type_url, "type.googleapis.com/kiapi.common.commands.GetVersion");

    let info = c.version_from_reply(&version_reply("T0")).unwrap();
    assert_eq!(info.major, 7);
    assert_eq!(info.minor, 0);
    assert_eq!(info.patch, 5);
    assert_eq!(info.full, "7.0.5");
    assert_eq!(c.config.kicad_token, "T0");
}

#[test]
fn first_successful_token_wins() {
    let mut c = client();
    c.version_from_reply(&version_reply("T1")).unwrap();
    let req: ApiRequest = decode_message(&c.version_request()).unwrap();
    assert_eq!(req.header.unwrap().kicad_token, "T1");
    c.version_from_reply(&version_reply("T2")).unwrap();
    assert_eq!(c.config.kicad_token, "T1");
    assert_eq!(c.attach_header().kicad_token, "T1");
}

#[test]
fn error_status_is_an_api_error_and_keeps_the_token() {
    let mut c = client();
    let r = c.version_from_reply(&reply("T9", 3, "bad request", None));
    assert_eq!(r.unwrap_err(), KiCadError::ApiError("bad request".to_string()));
    assert_eq!(c.config.kicad_token, "");
    let mut c2 = client();
    c2.observe_reply(false, &"T3".to_string());
    assert_eq!(c2.config.kicad_token, "");
}

#[test]
fn missing_status_is_an_api_error() {
    let mut c = client();
    let bytes = encode_message(&ApiResponse { header: None, status: None, message: None });
    let r = c.version_from_reply(&bytes);
    assert_eq!(r.unwrap_err(), KiCadError::ApiError(String::new()));
}

#[test]
fn garbage_reply_is_malformed() {
    let mut c = client();
    let r = c.version_from_reply(&[0xFF, 0xFF]);
    assert_eq!(r.unwrap_err(), KiCadError::MalformedEnvelope);
    assert_eq!(c.config.kicad_token, "");
}

#[test]
fn reply_of_the_wrong_type_is_a_type_mismatch() {
    let mut c = client();
    let wrong = pack(&GetOpenDocumentsResponse { documents: vec![] });
    let r = c.version_from_reply(&reply("T1", 1, "", Some(wrong)));
    assert_eq!(r.unwrap_err(), KiCadError::TypeMismatch);
}

#[test]
fn open_documents_request_asks_for_boards() {
    let c = client();
    let req: ApiRequest = decode_message(&c.open_documents_request(3)).unwrap();
    let q: GetOpenDocuments = unpack(&req.message.unwrap()).unwrap();
    assert_eq!(q.type_, 3);
}

#[test]
fn open_documents_empty_list_is_no_error() {
    let mut c = client();
    let r = reply("T", 1, "", Some(pack(&GetOpenDocumentsResponse { documents: vec![] })));
    assert_eq!(c.open_documents_from_reply(&r).unwrap(), vec![]);
}

#[test]
fn get_board_without_documents_is_no_board_open() {
    assert_eq!(board_from_documents(vec![]).unwrap_err(), KiCadError::NoBoardOpen);
    assert_eq!(first_document(vec![]).unwrap_err(), KiCadError::NoBoardOpen);
}

#[test]
fn get_board_names_the_first_document() {
    let b = board_from_documents(vec![board_doc("demo.kicad_pcb")]).unwrap();
    assert_eq!(b.name, "demo.kicad_pcb");
    assert_eq!(b.project_name, None);
    assert_eq!(b.document, board_doc("demo.kicad_pcb"));

    let mut with_project = board_doc("a.kicad_pcb");
    with_project.project = Some(ProjectSpecifier { name: "proj".to_string(), path: "/x".to_string() });
    let b2 = board_from_documents(vec![with_project, board_doc("b.kicad_pcb")]).unwrap();
    assert_eq!(b2.name, "a.kicad_pcb");
    assert_eq!(b2.project_name, Some("proj".to_string()));

    let lib = DocumentSpecifier {
        type_: 4,
        identifier: Some(DocumentIdentifier::LibId(LibraryIdentifier {
            library_nickname: "Lib".to_string(),
            entry_name: "Part".to_string(),
        })),
        project: None,
    };
    assert_eq!(board_from_documents(vec![lib]).unwrap().name, "Lib:Part");
}

#[test]
fn footprint_request_addresses_the_document() {
    let c = client();
    let req: ApiRequest = decode_message(&c.footprints_request(board_doc("demo.kicad_pcb"))).unwrap();
    let g: GetItems = unpack(&req.message.unwrap()).unwrap();
    assert_eq!(g.types, vec![1]);
    assert_eq!(g.header.unwrap().document, Some(board_doc("demo.kicad_pcb")));
}

#[test]
fn footprint_defaults_when_fields_are_missing() {
    let d = decode_footprint(&bare_footprint("abcdef0123"));
    assert_eq!(d.id, "abcdef0123");
    assert_eq!(d.reference, "REF_abcdef");
    assert_eq!(d.value, "UNKNOWN");
    assert_eq!(d.description, None);
    assert_eq!(d.footprint_name, "");
    assert_eq!(d.position_nm, (0, 0));
    assert_eq!(d.rotation_degrees_bits, 0);
    assert_eq!(d.layer, "BL_UNKNOWN");
    assert!(!d.locked);
    assert!(!d.exclude_from_bom);
    assert!(!d.do_not_populate);
}

#[test]
fn footprint_short_id_gives_whole_id_as_prefix() {
    let d = decode_footprint(&bare_footprint("ab"));
    assert_eq!(d.reference, "REF_ab");
    let six = decode_footprint(&bare_footprint("abcdef"));
    assert_eq!(six.reference, "REF_abcdef");
    let wide = decode_footprint(&bare_footprint("\u{e9}t\u{e9}abcd"));
    assert_eq!(wide.reference, "REF_\u{e9}t\u{e9}abc");
    let mut no_id = bare_footprint("");
    no_id.id = None;
    let d2 = decode_footprint(&no_id);
    assert_eq!(d2.id, "");
    assert_eq!(d2.reference, "REF_");
}

#[test]
fn footprint_fields_are_read_through() {
    let mut fp = bare_footprint("0123456789");
    fp.reference_field = text_field("R1");
    fp.value_field = text_field("10k");
    fp.description_field = text_field("Resistor");
    fp.definition = Some(Footprint {
        id: Some(LibraryIdentifier {
            library_nickname: "Resistor_SMD".to_string(),
            entry_name: "R_0603".to_string(),
        }),
    });
    fp.position = Some(Vector2 { x_nm: 1_500_000, y_nm: -2_000_000 });
    fp.orientation = Some(Angle { value_degrees_bits: 90.0f64.to_bits() });
    fp.layer = 34;
    fp.locked = 2;
    fp.attributes = Some(FootprintAttributes { exclude_from_bill_of_materials: true, do_not_populate: true });
    let d = decode_footprint(&fp);
    assert_eq!(d.reference, "R1");
    assert_eq!(d.value, "10k");
    assert_eq!(d.description, Some("Resistor".to_string()));
    assert_eq!(d.footprint_name, "R_0603");
    assert_eq!(d.position_nm, (1_500_000, -2_000_000));
    assert_eq!(f64::from_bits(d.rotation_degrees_bits), 90.0);
    assert_eq!(d.layer, "B.Cu");
    assert!(d.locked);
    assert!(d.exclude_from_bom);
    assert!(d.do_not_populate);
}

#[test]
fn empty_description_is_absent_and_unlocked_states_are_unlocked() {
    let mut fp = bare_footprint("0123456789");
    fp.description_field = text_field("");
    fp.locked = 1;
    let d = decode_footprint(&fp);
    assert_eq!(d.description, None);
    assert!(!d.locked);
    fp.locked = 77;
    assert!(!decode_footprint(&fp).locked);
}

#[test]
fn layer_names() {
    assert_eq!(layer_to_string(BoardLayer::BlFCu), "F.Cu");
    assert_eq!(layer_to_string(BoardLayer::BlBCu), "B.Cu");
    assert_eq!(layer_to_string(BoardLayer::BlIn1Cu), "BL_In1_Cu");
    assert_eq!(layer_to_string(BoardLayer::BlFSilkS), "BL_F_SilkS");
    assert_eq!(layer_to_string(BoardLayer::from_i32(999)), "BL_UNKNOWN");
    assert_eq!(BoardLayer::from_i32(3), BoardLayer::BlFCu);
    assert_eq!(BoardLayer::from_i32(34), BoardLayer::BlBCu);
    assert_eq!(BoardLayer::from_str_name("BL_Edge_Cuts"), Some(BoardLayer::BlEdgeCuts));
    assert_eq!(LockedState::from_i32(2), LockedState::LsLocked);
}

#[test]
fn footprints_from_reply_skip_other_items() {
    let mut c = client();
    let mut first = bare_footprint("aaaaaa1111");
    first.reference_field = text_field("U1");
    let items = vec![
        pack(&first),
        pack(&Kiid { value: "not a footprint".to_string() }),
        Any { type_url: kicad_ecs::any::type_url_of::<FootprintInstance>(), value: vec![0x0A, 0x09] },
        pack(&bare_footprint("bbbbbb2222")),
    ];
    let resp = GetItemsResponse { header: None, status: 1, items };
    let fps = c.footprints_from_reply(&reply("T", 1, "", Some(pack(&resp)))).unwrap();
    assert_eq!(fps.len(), 2);
    assert_eq!(fps[0].reference, "U1");
    assert_eq!(fps[1].reference, "REF_bbbbbb");
}

#[test]
fn unpack_footprint_rejects_other_types() {
    let r = unpack_footprint(&pack(&Kiid { value: "x".to_string() }));
    assert_eq!(r.unwrap_err(), KiCadError::TypeMismatch);
    let ok = unpack_footprint(&pack(&bare_footprint("abcdef0123"))).unwrap();
    assert_eq!(ok.reference, "REF_abcdef");
}

#[test]
fn default_config_per_platform() {
    let unix = KiCadConnectionConfig::for_platform("linux", "/tmp");
    assert_eq!(unix.socket_path, "ipc:///tmp/kicad/api.sock");
    assert!(unix.client_name.starts_with("kicad-ecs-"));
    assert_eq!(unix.client_name.len(), 18);
    assert!(unix.client_name[10..].chars().all(|ch| ch.is_ascii_alphanumeric()));
    assert_eq!(unix.kicad_token, "");
    let win = KiCadConnectionConfig::for_platform("windows", "C:\\Temp");
    assert_eq!(win.socket_path, "ipc://C:\\Temp\\kicad\\api.sock");
}

#[test]
fn enum_schema_names_round_trip() {
    assert_eq!(RunActionStatus::RasFrameNotOpen.as_str_name(), "RAS_FRAME_NOT_OPEN");
    assert_eq!(RunActionStatus::from_str_name("RAS_OK"), Some(RunActionStatus::RasOk));
    assert_eq!(RunActionStatus::from_str_name("ras_ok"), None);
    assert_eq!(CommitAction::from_str_name(CommitAction::CmaDrop.as_str_name()), Some(CommitAction::CmaDrop));
    assert_eq!(ItemStatusCode::IscInvalidData.as_str_name(), "ISC_INVALID_DATA");
    assert_eq!(ItemStatusCode::from_i32(7), ItemStatusCode::IscInvalidData);
    assert_eq!(ItemStatusCode::from_i32(6), ItemStatusCode::IscUnknown);
    assert_eq!(ItemDeletionStatus::from_str_name("IDS_IMMUTABLE"), Some(ItemDeletionStatus::IdsImmutable));
    assert_eq!(BoundingBoxMode::BbmItemAndChildText.as_str_name(), "BBM_ITEM_AND_CHILD_TEXT");
    assert_eq!(HitTestResult::from_str_name("HTR_HIT"), Some(HitTestResult::HtrHit));
    assert_eq!(HitTestResult::from_str_name(""), None);
}
