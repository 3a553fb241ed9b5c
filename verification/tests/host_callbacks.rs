use deepseek_mobile::android_host::{
    apply_host_callback_json, apply_host_callback_value, drain_next_host_action, AndroidHostAction,
};
use deepseek_mobile::chat_file_links::{
    extract_paths_from_tool_args, extract_paths_from_tool_args_value, extract_paths_from_tool_result,
};
use deepseek_mobile::device_calibration::{
    note_calibration_from_event, try_note_calibration_from_host_json, try_note_calibration_from_host_value,
    CALIBRATION_REQUEST_ID,
};
use deepseek_mobile::document_picker::DocumentPickerRequest;
use deepseek_mobile::host_callbacks::{parse_host_callback, parse_mdns_record, parse_termux_result, HostCallback};
use deepseek_mobile::json::{JsonNumber, JsonValue};
use deepseek_mobile::native_bridge::{NativeBridgeState, NativeMobileEvent};
use deepseek_mobile::native_termux::AndroidTermuxCallback;

fn text(s: &str) -> JsonValue {
    JsonValue::Str(s.to_string())
}

fn num(n: u64) -> JsonValue {
    JsonValue::Number(JsonNumber::PosInt(n))
}

fn object(members: Vec<(&str, JsonValue)>) -> JsonValue {
    JsonValue::Object(members.into_iter().map(|(k, v)| (k.to_string(), v)).collect())
}

fn termux_result(id: &str, exit: JsonValue, error: JsonValue) -> JsonValue {
    object(vec![
        ("request_id", text(id)),
        ("stdout", text("/data/data/com.termux/files/home\n")),
        ("stderr", text("")),
        ("exit_code", exit),
        ("timed_out", JsonValue::Bool(false)),
        ("error", error),
    ])
}

#[test]
fn applies_document_picker_picked_callback() {
    let mut bridge = NativeBridgeState::default();
    bridge.enqueue_document_picker(DocumentPickerRequest::chat_attachment());
    let action = drain_next_host_action(&mut bridge, 0).expect("picker");
    let request_id = match action {
        AndroidHostAction::OpenDocumentPicker { request_id, .. } => request_id,
        other => panic!("unexpected action: {other:?}"),
    };
    let payload = format!(
        r#"{{"kind":"document_picker_picked","callback":{{"type":"picked","request_id":"{request_id}","documents":[{{"id":"doc-1","display_name":"notes.txt","local_path":"/data/user/0/com.deepseek.mobile/files/notes.txt","mime_type":"text/plain","size_bytes":12}}]}}}}"#
    );
    let event = apply_host_callback_json(&mut bridge, &payload, false).expect("event");
    match event {
        NativeMobileEvent::DocumentsPicked(documents) => {
            assert_eq!(documents.len(), 1);
            assert_eq!(documents[0].path.as_deref(), Some("/data/user/0/com.deepseek.mobile/files/notes.txt"));
            assert_eq!(documents[0].size_bytes, Some(12));
        }
        other => panic!("unexpected event: {other:?}"),
    }
    assert!(!bridge.is_waiting_for_document_picker_callback());
}

#[test]
fn applies_pc_discovery_updated_callback() {
    let mut bridge = NativeBridgeState::default();
    bridge.enqueue_pc_gateway_discovery("scan-test");
    let action = drain_next_host_action(&mut bridge, 0).expect("discovery");
    let request_id = match action {
        AndroidHostAction::StartPcGatewayDiscovery { request_id, .. } => request_id,
        other => panic!("unexpected action: {other:?}"),
    };
    let payload = format!(
        r#"{{"kind":"pc_discovery","callback":{{"type":"updated","request_id":"{request_id}","record":{{"instance_name":"Laptop","host":"192.168.1.10","port":8787,"txt":{{}}}}}}}}"#
    );
    let event = apply_host_callback_json(&mut bridge, &payload, false).expect("event");
    assert!(matches!(event, NativeMobileEvent::PcGatewayDiscoveryUpdated(_)));
}

#[test]
fn unknown_or_incomplete_payloads_change_nothing() {
    let mut bridge = NativeBridgeState::default();
    assert!(apply_host_callback_value(&mut bridge, &object(vec![("kind", text("dance"))]), false).is_none());
    assert!(apply_host_callback_value(&mut bridge, &object(vec![("kind", text("termux_failed"))]), false).is_none());
    assert!(apply_host_callback_value(&mut bridge, &JsonValue::Null, false).is_none());
    assert!(apply_host_callback_json(&mut bridge, r#"{"kind":"dance"}"#, false).is_none());
    assert!(apply_host_callback_json(&mut bridge, "not json", false).is_none());
    assert!(apply_host_callback_json(&mut bridge, r#"{"kind":"termux_failed""#, false).is_none());
    assert_eq!(bridge.last_event_id, 0);
}

#[test]
fn failure_payloads_get_default_messages() {
    let payload = object(vec![("kind", text("termux_failed")), ("request_id", text("t1"))]);
    match parse_host_callback(&payload) {
        Some(HostCallback::Termux(AndroidTermuxCallback::Failed { request_id, message })) => {
            assert_eq!(request_id, "t1");
            assert_eq!(message, "termux command failed");
        }
        other => panic!("unexpected: {other:?}"),
    }
}

#[test]
fn termux_result_fields_follow_their_types() {
    let ok = parse_termux_result(&termux_result("t", num(0), JsonValue::Null)).expect("result");
    assert_eq!(ok.exit_code, Some(0));
    assert_eq!(ok.error, None);
    let negative = parse_termux_result(&termux_result("t", JsonValue::Number(JsonNumber::NegInt(-9)), text("boom")))
        .expect("result");
    assert_eq!(negative.exit_code, Some(-9));
    assert_eq!(negative.error.as_deref(), Some("boom"));
    assert!(parse_termux_result(&termux_result("t", num(1 << 40), JsonValue::Null)).is_none());
    assert!(parse_termux_result(&termux_result("t", text("0"), JsonValue::Null)).is_none());
    assert!(parse_termux_result(&object(vec![("request_id", text("t"))])).is_none());
}

#[test]
fn mdns_port_wraps_and_txt_keeps_strings() {
    let record = parse_mdns_record(&object(vec![
        ("instance_name", text("pc")),
        ("host", text("10.0.0.2")),
        ("port", num(65536 + 80)),
        ("txt", object(vec![("v", text("1")), ("n", num(2))])),
    ]))
    .expect("record");
    assert_eq!(record.port, 80);
    assert_eq!(record.txt.len(), 1);
    assert_eq!(record.txt.get("v").map(String::as_str), Some("1"));
}

#[test]
fn termux_callback_delivery_does_not_deadlock_while_runtime_is_locked() {
    let mut bridge = NativeBridgeState::default();
    let payload = r#"{"kind":"termux_completed","result":{"request_id":"termux-deadlock-test","stdout":"/data/data/com.termux/files/home\n","stderr":"","exit_code":0,"timed_out":false,"error":null}}"#;
    assert!(apply_host_callback_json(&mut bridge, payload, false).is_some());
}

#[test]
fn termux_callback_delivery_reports_calibration() {
    let mut bridge = NativeBridgeState::default();
    let payload = object(vec![
        ("kind", text("termux_completed")),
        ("result", termux_result(CALIBRATION_REQUEST_ID, num(0), JsonValue::Null)),
    ]);
    assert!(try_note_calibration_from_host_value(&payload));
    let event = apply_host_callback_value(&mut bridge, &payload, true).expect("event");
    assert!(matches!(event, NativeMobileEvent::TermuxCommandCompleted(_)));
    assert_eq!(note_calibration_from_event(&event), Some(true));
    let other = object(vec![("kind", text("termux_completed")), ("result", termux_result("x", num(0), JsonValue::Null))]);
    assert!(!try_note_calibration_from_host_value(&other));
    let text_payload = format!(
        r#"{{"kind":"termux_completed","result":{{"request_id":"{CALIBRATION_REQUEST_ID}","stdout":"","stderr":"","exit_code":0,"timed_out":false,"error":null}}}}"#
    );
    assert!(try_note_calibration_from_host_json(&text_payload));
    assert!(!try_note_calibration_from_host_json("{\"kind\":"));
    assert!(!try_note_calibration_from_host_json(r#"{"kind":"termux_completed","result":{"request_id":"x","exit_code":0}}"#));
}

#[test]
fn parses_write_file_output() {
    let paths = extract_paths_from_tool_result("write_file", "Wrote 12 bytes to src/demo.rs", None);
    assert!(paths.contains(&"src/demo.rs".to_string()));
}

#[test]
fn parses_tool_args_path() {
    let paths = extract_paths_from_tool_args("write_file", r#"{"path":"pkg/calc.py","content":"print(1)"}"#);
    assert_eq!(paths, vec!["pkg/calc.py".to_string()]);
}

#[test]
fn metadata_paths_are_found_at_any_depth() {
    let meta = object(vec![
        ("files", JsonValue::Array(vec![object(vec![("file_path", text("./b/z.rs"))])])),
        ("path", text("a.md")),
        ("note", text("not/a/path.rs")),
    ]);
    let paths = extract_paths_from_tool_result("read_file", "see c.txt", Some(&meta));
    assert_eq!(
        paths,
        vec!["a.md".to_string(), "b/z.rs".to_string(), "c.txt".to_string(), "see c.txt".to_string()]
    );
    assert!(extract_paths_from_tool_args_value("shell", None).is_empty());
    let args = object(vec![("path", text("notes"))]);
    assert_eq!(extract_paths_from_tool_args_value("list_dir", Some(&args)), vec!["notes".to_string()]);
    assert!(extract_paths_from_tool_args_value("shell", Some(&args)).is_empty());
    assert!(extract_paths_from_tool_args("write_file", "{not json").is_empty());
    assert_eq!(
        extract_paths_from_tool_args("edit_file", r#"{"path":"./src/a.rs","files":[{"file_path":"b.md"}]}"#),
        vec!["b.md".to_string(), "src/a.rs".to_string()]
    );
}
