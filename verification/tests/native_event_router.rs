use deepseek_mobile::agent_timeline::MobileTimelineState;
use deepseek_mobile::chat_attachment::ChatComposerState;
use deepseek_mobile::document_picker::{DocumentPickerRequest, DocumentPickerState, PickedDocument};
use deepseek_mobile::native_bridge::{NativeBridgeState, NativeMobileEvent};
use deepseek_mobile::native_event_router::route_native_mobile_event;
use deepseek_mobile::native_pc_discovery::AndroidPcGatewayMdnsRecordPayload;
use deepseek_mobile::pc_pairing_state::{PcPairingUiState, PcPairingUiStatus};

fn route(picker: DocumentPickerState, event: NativeMobileEvent) -> deepseek_mobile::native_event_router::NativeEventRouteResult {
    route_native_mobile_event(
        ChatComposerState::default(),
        picker,
        NativeBridgeState::default(),
        PcPairingUiState::default(),
        MobileTimelineState::default(),
        event,
    )
}

#[test]
fn routes_documents_picked_into_composer() {
    let mut picker = DocumentPickerState::default();
    picker.request(DocumentPickerRequest::chat_attachment());
    let result = route(
        picker,
        NativeMobileEvent::DocumentsPicked(vec![PickedDocument::new("doc-1", "main.rs")
            .with_uri("content://docs/main.rs")
            .with_path("/tmp/main.rs")
            .with_mime_type("text/plain")]),
    );
    assert_eq!(result.composer.attachments.len(), 1);
    assert_eq!(result.composer.attachments[0].display_name, "main.rs");
    assert_eq!(result.composer.attachments[0].path.as_deref(), Some("/tmp/main.rs"));
    assert!(!result.picker.is_waiting_for_native_picker());
    assert!(result.native_bridge.last_error.is_none());
    assert!(!result.timeline.items.is_empty());
    assert_eq!(result.timeline.items[0].body, "main.rs");
    assert_eq!(result.timeline.items[1].body, "Android document picker files attached to chat composer");
}

#[test]
fn routes_picker_cancel_to_complete_state() {
    let mut picker = DocumentPickerState::default();
    picker.request(DocumentPickerRequest::chat_attachment());
    let result = route(picker, NativeMobileEvent::DocumentPickerCancelled);
    assert!(!result.picker.is_waiting_for_native_picker());
    assert!(result.composer.attachments.is_empty());
}

#[test]
fn routes_picker_error_to_picker_and_bridge_errors() {
    let mut picker = DocumentPickerState::default();
    picker.request(DocumentPickerRequest::chat_attachment());
    let result = route(picker, NativeMobileEvent::DocumentPickerFailed("permission denied".to_string()));
    assert_eq!(result.picker.last_error.as_deref(), Some("permission denied"));
    assert_eq!(result.native_bridge.last_error.as_deref(), Some("permission denied"));
    assert_eq!(result.timeline.items[0].body, "Android document picker failed: permission denied");
}

#[test]
fn routes_pc_discovery_records_into_pairing_state() {
    let result = route(
        DocumentPickerState::default(),
        NativeMobileEvent::PcGatewayDiscoveryCompleted(vec![AndroidPcGatewayMdnsRecordPayload::new(
            "Laptop",
            "192.168.1.10",
            8787,
        )]),
    );
    assert_eq!(result.pc_pairing.status, PcPairingUiStatus::WaitingForPc);
    assert_eq!(result.timeline.items[0].body, "Android PC gateway discovery completed: 1 candidate(s)");
    let empty = route(DocumentPickerState::default(), NativeMobileEvent::PcGatewayDiscoveryUpdated(vec![]));
    assert_eq!(empty.pc_pairing.status, PcPairingUiStatus::Offline);
}

#[test]
fn routes_terminal_events_to_timeline() {
    let result = route(
        DocumentPickerState::default(),
        NativeMobileEvent::TerminalOpened {
            session_id: "term-1".to_string(),
            title: "test".to_string(),
            cwd: "/workspace".to_string(),
        },
    );
    assert!(result.timeline.items.iter().any(|i| i.body.contains("Terminal session opened")));
    let result = route(
        DocumentPickerState::default(),
        NativeMobileEvent::TerminalOutput { session_id: "term-1".to_string(), chunk: "héllo".to_string() },
    );
    assert!(result.timeline.items.iter().any(|i| i.body.contains("Terminal term-1 output")));
    assert_eq!(result.timeline.items[0].body, "Terminal term-1 output: 6 char(s)");
    let result = route(
        DocumentPickerState::default(),
        NativeMobileEvent::TerminalClosed { session_id: "term-1".to_string(), exit_code: Some(-2) },
    );
    assert!(result.timeline.items.iter().any(|i| i.body.contains("Terminal term-1 closed")));
    assert_eq!(result.timeline.items[0].body, "Terminal term-1 closed (exit code: -2)");
    let result = route(
        DocumentPickerState::default(),
        NativeMobileEvent::TerminalFailed { session_id: None, message: "timeout".to_string() },
    );
    assert_eq!(result.timeline.items[0].body, "Terminal unknown failed: timeout");
}
