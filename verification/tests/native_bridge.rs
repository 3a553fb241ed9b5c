use deepseek_mobile::android_host::{drain_next_host_action, AndroidHostAction};
use deepseek_mobile::document_picker::{DocumentPickerRequest, PickedDocument};
use deepseek_mobile::native_bridge::{NativeBridgeState, NativeMobileCommand, NativeMobileEvent, PhoneNativeRequest};
use deepseek_mobile::native_document_picker::{
    next_request_id, AndroidDocumentPickerCallback, AndroidDocumentPickerCommand, AndroidPickedDocumentPayload,
};
use deepseek_mobile::native_pc_discovery::{AndroidPcGatewayDiscoveryCallback, AndroidPcGatewayMdnsRecordPayload};
use deepseek_mobile::native_termux::{AndroidTermuxCallback, AndroidTermuxCommand, TermuxExecRequest, TermuxExecResult};

#[test]
fn command_uses_android_open_document_contract() {
    let command = AndroidDocumentPickerCommand::from_request(&DocumentPickerRequest::chat_attachment(), 1);
    assert_eq!(command.action, "android.intent.action.OPEN_DOCUMENT");
    assert_eq!(command.category, "android.intent.category.OPENABLE");
    assert!(command.allow_multiple);
    assert!(command.mime_types.contains(&"application/pdf".to_string()));
    assert!(command.request_id.starts_with("android-document-picker-"));
    let second = AndroidDocumentPickerCommand::from_request(&DocumentPickerRequest::chat_attachment(), 2);
    assert_ne!(second.request_id, command.request_id);
}

#[test]
fn callback_exposes_request_id_for_bridge_correlation() {
    let callback = AndroidDocumentPickerCallback::Cancelled { request_id: "req-42".to_string() };
    assert_eq!(callback.request_id(), "req-42");
}

#[test]
fn picker_request_ids_are_numbered() {
    assert_eq!(next_request_id(7), "android-document-picker-7");
    let command = AndroidDocumentPickerCommand::from_request(&DocumentPickerRequest::project_import(), 12);
    assert_eq!(command.request_id, "android-document-picker-12");
    assert!(!command.allow_multiple);
}

#[test]
fn picked_callback_becomes_native_event() {
    let callback = AndroidDocumentPickerCallback::Picked {
        request_id: "req-1".to_string(),
        documents: vec![AndroidPickedDocumentPayload::new("doc-1", "main.rs")
            .with_uri("content://docs/main.rs")
            .with_local_path("/tmp/main.rs")
            .with_mime_type("text/plain")
            .with_size_bytes(128)],
    };
    match callback.into_native_event() {
        NativeMobileEvent::DocumentsPicked(documents) => {
            assert_eq!(documents.len(), 1);
            assert_eq!(documents[0].display_name, "main.rs");
            assert_eq!(documents[0].uri.as_deref(), Some("content://docs/main.rs"));
            assert_eq!(documents[0].path.as_deref(), Some("/tmp/main.rs"));
        }
        other => panic!("unexpected native event: {:?}", other),
    }
}

#[test]
fn failed_callback_becomes_failed_event() {
    let callback = AndroidDocumentPickerCallback::Failed {
        request_id: "req-1".to_string(),
        message: "permission denied".to_string(),
    };
    assert_eq!(
        callback.into_native_event(),
        NativeMobileEvent::DocumentPickerFailed("permission denied".to_string())
    );
}

#[test]
fn bridge_queues_document_picker_command() {
    let mut state = NativeBridgeState::default();
    state.enqueue_document_picker(DocumentPickerRequest::chat_attachment());
    assert!(state.has_pending_commands());
    assert!(matches!(state.pop_next_command(), Some(NativeMobileCommand::OpenDocumentPicker(_))));
    assert!(!state.has_pending_commands());
}

#[test]
fn bridge_exposes_android_document_picker_command() {
    let mut state = NativeBridgeState::default();
    state.enqueue_document_picker(DocumentPickerRequest::chat_attachment());
    let command = state.pop_next_android_document_picker_command().expect("android picker command");
    assert_eq!(command.action, "android.intent.action.OPEN_DOCUMENT");
    assert!(command.allow_multiple);
    assert_eq!(state.active_document_picker_request_id.as_deref(), Some(command.request_id.as_str()));
    assert!(state.is_waiting_for_document_picker_callback());
    assert!(!state.has_pending_commands());
}

#[test]
fn bridge_accepts_android_picker_callback_only_for_active_request() {
    let mut state = NativeBridgeState::default();
    state.enqueue_document_picker(DocumentPickerRequest::chat_attachment());
    let command = state.pop_next_android_document_picker_command().unwrap();
    let event = state.accept_android_document_picker_callback(AndroidDocumentPickerCallback::Picked {
        request_id: command.request_id,
        documents: vec![AndroidPickedDocumentPayload::new("1", "main.rs").with_local_path("/tmp/main.rs")],
    });
    assert!(matches!(event, NativeMobileEvent::DocumentsPicked(_)));
    assert!(!state.is_waiting_for_document_picker_callback());
    assert!(state.last_error.is_none());
}

#[test]
fn bridge_rejects_stale_android_picker_callback() {
    let mut state = NativeBridgeState::default();
    let event = state.accept_android_document_picker_callback(AndroidDocumentPickerCallback::Cancelled {
        request_id: "old-request".to_string(),
    });
    assert!(matches!(event, NativeMobileEvent::DocumentPickerFailed(_)));
    assert!(state.last_error.as_deref().unwrap().contains("stale Android document picker callback"));
    assert_eq!(
        state.last_error.as_deref(),
        Some("stale Android document picker callback: expected None, got old-request")
    );
}

#[test]
fn bridge_exposes_android_pc_discovery_command() {
    let mut state = NativeBridgeState::default();
    state.enqueue_pc_gateway_discovery("scan-1");
    let command = state.pop_next_android_pc_discovery_command(1000).unwrap();
    assert_eq!(command.request_id, "scan-1");
    assert_eq!(command.service_type, "_deepseek-pc-gateway._tcp.");
    assert!(state.is_waiting_for_pc_discovery_callback());
    assert_eq!(state.active_pc_discovery_since_unix, Some(1000));
}

#[test]
fn bridge_accepts_android_pc_discovery_callback_only_for_active_request() {
    let mut state = NativeBridgeState::default();
    state.enqueue_pc_gateway_discovery("scan-1");
    let command = state.pop_next_android_pc_discovery_command(1000).unwrap();
    let event = state.accept_android_pc_discovery_callback(AndroidPcGatewayDiscoveryCallback::Candidate {
        request_id: command.request_id,
        record: AndroidPcGatewayMdnsRecordPayload::new("Laptop", "192.168.1.10", 8787),
    });
    assert!(matches!(event, NativeMobileEvent::PcGatewayDiscoveryUpdated(_)));
    assert!(state.is_waiting_for_pc_discovery_callback());
    assert!(state.last_error.is_none());
}

#[test]
fn bridge_completes_android_pc_discovery_callback() {
    let mut state = NativeBridgeState::default();
    state.enqueue_pc_gateway_discovery("scan-1");
    let command = state.pop_next_android_pc_discovery_command(1000).unwrap();
    let event = state.accept_android_pc_discovery_callback(AndroidPcGatewayDiscoveryCallback::Completed {
        request_id: command.request_id,
        records: vec![AndroidPcGatewayMdnsRecordPayload::new("Laptop", "192.168.1.10", 8787)],
    });
    assert!(matches!(event, NativeMobileEvent::PcGatewayDiscoveryCompleted(_)));
    assert!(!state.is_waiting_for_pc_discovery_callback());
    assert_eq!(state.active_pc_discovery_since_unix, None);
}

#[test]
fn stale_discovery_callback_names_the_waiting_request() {
    let mut state = NativeBridgeState::default();
    state.enqueue_pc_gateway_discovery("scan-1");
    state.pop_next_android_pc_discovery_command(5).unwrap();
    let event = state.accept_android_pc_discovery_callback(AndroidPcGatewayDiscoveryCallback::Failed {
        request_id: "scan-0".to_string(),
        message: "boom".to_string(),
    });
    assert_eq!(
        event,
        NativeMobileEvent::PcGatewayDiscoveryFailed(
            "stale Android PC discovery callback: expected Some(\"scan-1\"), got scan-0".to_string()
        )
    );
    assert!(state.is_waiting_for_pc_discovery_callback());
}

#[test]
fn bridge_accepts_documents_picked_event() {
    let mut state = NativeBridgeState::default();
    state.accept_event(NativeMobileEvent::DocumentsPicked(vec![PickedDocument::new("1", "spec.pdf")]));
    assert!(matches!(state.last_event, Some(NativeMobileEvent::DocumentsPicked(_))));
    assert!(state.last_error.is_none());
}

#[test]
fn bridge_records_native_errors() {
    let mut state = NativeBridgeState::default();
    assert_eq!(state.last_event_id, 0);
    state.accept_event(NativeMobileEvent::DocumentPickerFailed("permission denied".to_string()));
    assert_eq!(state.last_event_id, 1);
    assert_eq!(state.last_error.as_deref(), Some("permission denied"));
    state.accept_event(NativeMobileEvent::FileShared);
    assert_eq!(state.last_event_id, 2);
    assert!(state.last_error.is_none());
}

#[test]
fn event_counter_saturates() {
    let mut state = NativeBridgeState::default();
    state.last_event_id = u64::MAX;
    state.accept_event(NativeMobileEvent::FileShared);
    assert_eq!(state.last_event_id, u64::MAX);
}

#[test]
fn bridge_queues_terminal_commands() {
    let mut state = NativeBridgeState::default();
    state.enqueue_open_terminal("w1");
    state.enqueue_terminal_input("term-1", "echo hello");
    state.enqueue_close_terminal("term-1");
    assert!(state.has_pending_commands());
    assert!(matches!(state.pop_terminal_command(), Some(NativeMobileCommand::OpenTerminal { .. })));
    assert!(matches!(state.pop_terminal_command(), Some(NativeMobileCommand::TerminalInput { .. })));
    assert!(matches!(state.pop_terminal_command(), Some(NativeMobileCommand::CloseTerminal { .. })));
    assert!(state.pop_terminal_command().is_none());
}

#[test]
fn bridge_accepts_terminal_events() {
    let mut state = NativeBridgeState::default();
    state.accept_event(NativeMobileEvent::TerminalOpened {
        session_id: "term-1".to_string(),
        title: "test".to_string(),
        cwd: "/workspace".to_string(),
    });
    assert!(matches!(state.last_event, Some(NativeMobileEvent::TerminalOpened { .. })));
    assert!(state.last_error.is_none());
    state.accept_event(NativeMobileEvent::TerminalOutput {
        session_id: "term-1".to_string(),
        chunk: "output line".to_string(),
    });
    assert!(matches!(state.last_event, Some(NativeMobileEvent::TerminalOutput { .. })));
    state.accept_event(NativeMobileEvent::TerminalFailed {
        session_id: Some("term-1".to_string()),
        message: "timeout".to_string(),
    });
    assert_eq!(state.last_error.as_deref(), Some("timeout"));
}

fn termux_request(id: &str) -> TermuxExecRequest {
    TermuxExecRequest {
        request_id: id.to_string(),
        command: "cargo test".to_string(),
        working_dir: "/data/data/com.termux/files/home/project".to_string(),
        timeout_secs: Some(30),
    }
}

#[test]
fn bridge_exposes_android_termux_commands_and_correlates_callbacks() {
    let mut state = NativeBridgeState::default();
    state.enqueue_termux_command(termux_request("termux-1"));
    let command = state.pop_next_android_termux_command(100).unwrap();
    assert_eq!(command.request_id, "termux-1");
    assert_eq!(state.active_termux_request_ids, vec!["termux-1".to_string()]);
    assert!(state.is_waiting_for_termux_callback());
    let event = state.accept_android_termux_callback(
        AndroidTermuxCallback::Completed(TermuxExecResult {
            request_id: "termux-1".to_string(),
            stdout: "ok".to_string(),
            stderr: String::new(),
            exit_code: Some(0),
            timed_out: false,
            error: None,
        }),
        false,
    );
    assert!(matches!(event, NativeMobileEvent::TermuxCommandCompleted(_)));
    assert!(state.active_termux_request_ids.is_empty());
    assert!(!state.is_waiting_for_termux_callback());
    assert_eq!(state.active_termux_since_unix, None);
}

#[test]
fn bridge_rejects_stale_android_termux_callback() {
    let mut state = NativeBridgeState::default();
    let event = state.accept_android_termux_callback(
        AndroidTermuxCallback::Failed { request_id: "old".to_string(), message: "failed".to_string() },
        false,
    );
    assert!(matches!(event, NativeMobileEvent::TermuxCommandFailed { .. }));
    assert!(state.last_error.as_deref().unwrap().contains("stale"));
}

#[test]
fn saved_pending_termux_callback_is_accepted() {
    let mut state = NativeBridgeState::default();
    let event = state.accept_android_termux_callback(
        AndroidTermuxCallback::Failed { request_id: "saved".to_string(), message: "exit 2".to_string() },
        true,
    );
    assert_eq!(
        event,
        NativeMobileEvent::TermuxCommandFailed { request_id: "saved".to_string(), message: "exit 2".to_string() }
    );
    assert_eq!(state.last_error.as_deref(), Some("exit 2"));
}

#[test]
fn termux_command_wraps_shell_execution_for_run_command_intent() {
    let command = AndroidTermuxCommand::from_request(&termux_request("termux-1"));
    assert_eq!(command.request_id, "termux-1");
    assert_eq!(command.command_path, "/data/data/com.termux/files/usr/bin/sh");
    assert_eq!(command.arguments, vec!["-lc", "cargo test"]);
    assert!(command.background);
    assert_eq!(command.timeout_secs, Some(30));
}

#[test]
fn callback_exposes_request_id_for_correlation() {
    let callback = AndroidTermuxCallback::Completed(TermuxExecResult {
        request_id: "termux-2".to_string(),
        stdout: "ok".to_string(),
        stderr: String::new(),
        exit_code: Some(0),
        timed_out: false,
        error: None,
    });
    assert_eq!(callback.request_id(), "termux-2");
}

#[test]
fn stale_termux_wait_expires_after_timeout() {
    let mut state = NativeBridgeState::default();
    state.enqueue_termux_command(termux_request("a"));
    state.enqueue_termux_command(termux_request("b"));
    state.pop_next_android_termux_command(100).unwrap();
    state.pop_next_android_termux_command(150).unwrap();
    assert_eq!(state.active_termux_since_unix, Some(100));
    assert_eq!(state.expire_stale_termux_wait(60, 160), None);
    let message = state.expire_stale_termux_wait(60, 161).expect("expired");
    assert_eq!(
        message,
        "Termux не ответил за 60 с (request_ids: a, b). Проверьте Termux и allow-external-apps."
    );
    assert!(!state.is_waiting_for_termux_callback());
    assert_eq!(state.last_error.as_deref(), Some(message.as_str()));
}

#[test]
fn stale_pc_discovery_expires_after_timeout() {
    let mut state = NativeBridgeState::default();
    assert_eq!(state.expire_stale_pc_discovery(30, 10), None);
    state.enqueue_pc_gateway_discovery("scan-9");
    state.pop_next_android_pc_discovery_command(100).unwrap();
    assert_eq!(state.expire_stale_pc_discovery(30, 130), None);
    let message = state.expire_stale_pc_discovery(30, 131).expect("expired");
    assert_eq!(message, "Поиск PC Host прерван по таймауту (30 с, request_id=scan-9)");
    assert!(!state.is_waiting_for_pc_discovery_callback());
}

#[test]
fn phone_actions_need_their_values() {
    let mut state = NativeBridgeState::default();
    let request = |action: &str, url: Option<&str>| PhoneNativeRequest {
        action: action.to_string(),
        url: url.map(str::to_string),
        path: None,
        mime_type: None,
        package: None,
    };
    assert!(!state.enqueue_phone_native_request(request("open_url", Some("   "))));
    assert!(!state.enqueue_phone_native_request(request("dance", None)));
    assert!(!state.has_pending_commands());
    assert!(state.enqueue_phone_native_request(request("open_url", Some("https://example.com"))));
    assert!(state.enqueue_phone_native_request(request("open_settings", None)));
    assert_eq!(
        state.pop_next_command(),
        Some(NativeMobileCommand::OpenUrl { url: "https://example.com".to_string() })
    );
    assert_eq!(state.pop_next_command(), Some(NativeMobileCommand::OpenSystemSettings));
}

#[test]
fn drains_document_picker_before_other_commands() {
    let mut bridge = NativeBridgeState::default();
    bridge.enqueue_share_file("/tmp/export.zip");
    bridge.enqueue_document_picker(DocumentPickerRequest::project_import());
    let action = drain_next_host_action(&mut bridge, 0).expect("picker action");
    assert!(matches!(action, AndroidHostAction::OpenDocumentPicker { .. }));
    assert!(bridge.has_pending_commands());
    let action = drain_next_host_action(&mut bridge, 0).expect("share action");
    assert_eq!(
        action,
        AndroidHostAction::ShareFile {
            path: "/tmp/export.zip".to_string(),
            mime_type: Some("application/zip".to_string())
        }
    );
    assert!(drain_next_host_action(&mut bridge, 0).is_none());
}

#[test]
fn drain_order_is_picker_discovery_termux_terminal_then_rest() {
    let mut bridge = NativeBridgeState::default();
    bridge.enqueue_open_terminal("w1");
    bridge.enqueue_termux_command(termux_request("t1"));
    bridge.enqueue_pc_gateway_discovery("scan-1");
    let first = drain_next_host_action(&mut bridge, 9).unwrap();
    assert_eq!(
        first,
        AndroidHostAction::StartPcGatewayDiscovery {
            request_id: "scan-1".to_string(),
            service_type: "_deepseek-pc-gateway._tcp.".to_string()
        }
    );
    let second = drain_next_host_action(&mut bridge, 9).unwrap();
    assert_eq!(
        second,
        AndroidHostAction::RunTermuxCommand {
            request_id: "t1".to_string(),
            command: "cargo test".to_string(),
            working_dir: "/data/data/com.termux/files/home/project".to_string(),
            timeout_secs: Some(30)
        }
    );
    let third = drain_next_host_action(&mut bridge, 9).unwrap();
    assert_eq!(third, AndroidHostAction::OpenTerminal { workspace_id: "w1".to_string() });
    assert!(drain_next_host_action(&mut bridge, 9).is_none());
}

#[test]
fn successive_picker_commands_get_different_ids() {
    let mut state = NativeBridgeState::default();
    state.enqueue_document_picker(DocumentPickerRequest::chat_attachment());
    state.enqueue_document_picker(DocumentPickerRequest::chat_attachment());
    let first = state.pop_next_android_document_picker_command().unwrap();
    let second = state.pop_next_android_document_picker_command().unwrap();
    assert_eq!(first.request_id, "android-document-picker-1");
    assert_eq!(second.request_id, "android-document-picker-2");
    assert_ne!(first.request_id, second.request_id);
}
