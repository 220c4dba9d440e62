use streamline_backend::frames::{
    assemble_auth_error, assemble_auth_success, assemble_event, read_handshake_token,
    write_auth_error, write_auth_success, AUTH_FAILED_MESSAGE,
};
use streamline_backend::identity::{extract_connection_id, format_id};
use streamline_backend::message::{EventType, WebSocketMessage};

const ID: u128 = 0xa1a2a3a4_b1b2_c1c2_d1d2_d3d4d5d6d7d8;
const ID_TEXT: &str = "a1a2a3a4-b1b2-c1c2-d1d2-d3d4d5d6d7d8";

#[test]
fn identity_is_written_hyphenated_in_lower_case() {
    assert_eq!(format_id(ID), ID_TEXT);
    assert_eq!(format_id(0), "00000000-0000-0000-0000-000000000000");
    assert_eq!(format_id(u128::MAX), "ffffffff-ffff-ffff-ffff-ffffffffffff");
    assert_eq!(format_id(0x0123456789abcdef_0fedcba987654321), "01234567-89ab-cdef-0fed-cba987654321");
}

#[test]
fn identity_is_written_as_uuid_writes_it() {
    for id in [ID, 1, 0x8000_0000_0000_0000_0000_0000_0000_0000, 0xdead_beef, u128::MAX - 1] {
        assert_eq!(format_id(id), uuid::Uuid::from_u128(id).hyphenated().to_string());
    }
}

#[test]
fn connection_id_header_is_parsed() {
    assert_eq!(extract_connection_id(Some(ID_TEXT)), Some(ID));
    assert_eq!(extract_connection_id(Some("A1A2A3A4-B1B2-C1C2-D1D2-D3D4D5D6D7D8")), Some(ID));
    assert_eq!(extract_connection_id(Some("a1a2a3a4b1b2c1c2d1d2d3d4d5d6d7d8")), Some(ID));
}

#[test]
fn connection_id_header_absent_or_unreadable_means_no_exclusion() {
    assert_eq!(extract_connection_id(None), None);
    assert_eq!(extract_connection_id(Some("")), None);
    assert_eq!(extract_connection_id(Some("not-a-uuid")), None);
    assert_eq!(extract_connection_id(Some("a1a2a3a4-b1b2-c1c2-d1d2-d3d4d5d6d7d")), None);
}

#[test]
fn written_identity_parses_back() {
    for id in [0u128, 1, ID, u128::MAX] {
        assert_eq!(extract_connection_id(Some(&format_id(id))), Some(id));
    }
}

#[test]
fn handshake_token_is_read_from_a_json_object() {
    assert_eq!(read_handshake_token("{\"token\":\"abc\"}"), Some("abc".to_string()));
    assert_eq!(
        read_handshake_token(" { \"other\": 1, \"token\" : \"a\\\"b\" } "),
        Some("a\"b".to_string())
    );
    assert_eq!(read_handshake_token("{\"token\":\"\"}"), Some(String::new()));
}

#[test]
fn handshake_token_is_missing_from_anything_else() {
    assert_eq!(read_handshake_token(""), None);
    assert_eq!(read_handshake_token("token"), None);
    assert_eq!(read_handshake_token("{\"token\":"), None);
    assert_eq!(read_handshake_token("{}"), None);
    assert_eq!(read_handshake_token("{\"Token\":\"abc\"}"), None);
    assert_eq!(read_handshake_token("{\"token\":42}"), None);
    assert_eq!(read_handshake_token("{\"token\":null}"), None);
    assert_eq!(read_handshake_token("[\"token\"]"), None);
    assert_eq!(read_handshake_token("\"token\""), None);
}

#[test]
fn auth_success_frame_is_exact() {
    assert_eq!(
        write_auth_success(ID, 2),
        "{\"type\":\"auth_success\",\"user_id\":\"a1a2a3a4-b1b2-c1c2-d1d2-d3d4d5d6d7d8\",\"connection_id\":\"00000000-0000-0000-0000-000000000002\"}"
    );
}

#[test]
fn auth_error_frame_is_exact() {
    assert_eq!(
        write_auth_error(AUTH_FAILED_MESSAGE),
        "{\"type\":\"auth_error\",\"message\":\"Authentication failed\"}"
    );
}

#[test]
fn auth_error_frame_escapes_its_message() {
    assert_eq!(
        write_auth_error("say \"no\"\n\\"),
        "{\"type\":\"auth_error\",\"message\":\"say \\\"no\\\"\\n\\\\\"}"
    );
}

#[test]
fn frames_are_assembled_from_their_members() {
    assert_eq!(assemble_auth_error("M"), "{\"type\":\"auth_error\",\"message\":M}");
    assert_eq!(
        assemble_auth_success("U", "C"),
        "{\"type\":\"auth_success\",\"user_id\":U,\"connection_id\":C}"
    );
    assert_eq!(
        assemble_event("E", "T", "U", "R", "D"),
        "{\"event_type\":E,\"table\":T,\"user_id\":U,\"record_id\":R,\"data\":D}"
    );
}

#[test]
fn event_frame_is_exact() {
    let event = WebSocketMessage::new(
        EventType::Insert,
        "projects",
        ID,
        Some(3),
        Some("{\"iv\":\"x\"}".to_string()),
    );
    assert_eq!(
        event.to_frame(),
        "{\"event_type\":\"INSERT\",\"table\":\"projects\",\"user_id\":\"a1a2a3a4-b1b2-c1c2-d1d2-d3d4d5d6d7d8\",\"record_id\":\"00000000-0000-0000-0000-000000000003\",\"data\":{\"iv\":\"x\"}}"
    );
}

#[test]
fn event_frame_without_record_and_snapshot_holds_nulls() {
    let event = WebSocketMessage::new(EventType::Delete, "can_do_list", 1, None, None);
    assert_eq!(
        event.to_frame(),
        "{\"event_type\":\"DELETE\",\"table\":\"can_do_list\",\"user_id\":\"00000000-0000-0000-0000-000000000001\",\"record_id\":null,\"data\":null}"
    );
}

#[test]
fn event_frame_is_json_with_the_five_members() {
    let event = WebSocketMessage::new(
        EventType::Update,
        "odd \"table\"",
        ID,
        Some(ID),
        Some("{\"nested\":[1,2,{\"a\":null}]}".to_string()),
    );
    let parsed: serde_json::Value = serde_json::from_str(&event.to_frame()).unwrap();
    let object = parsed.as_object().unwrap();
    assert_eq!(object.len(), 5);
    assert_eq!(parsed["event_type"].as_str(), Some("UPDATE"));
    assert_eq!(parsed["table"].as_str(), Some("odd \"table\""));
    assert_eq!(parsed["user_id"].as_str(), Some(ID_TEXT));
    assert_eq!(parsed["record_id"].as_str(), Some(ID_TEXT));
    assert_eq!(parsed["data"]["nested"][2]["a"], serde_json::Value::Null);
}

#[test]
fn event_kinds_have_their_wire_names() {
    assert_eq!(EventType::Insert.as_str(), "INSERT");
    assert_eq!(EventType::Update.as_str(), "UPDATE");
    assert_eq!(EventType::Delete.as_str(), "DELETE");
}

#[test]
fn event_clone_is_equal() {
    let event = WebSocketMessage::new(EventType::Insert, "t", 1, Some(2), Some("{}".to_string()));
    let copy = event.clone();
    assert_eq!(copy.event_type, event.event_type);
    assert_eq!(copy.table, event.table);
    assert_eq!(copy.user_id, event.user_id);
    assert_eq!(copy.record_id, event.record_id);
    assert_eq!(copy.data, event.data);
}
