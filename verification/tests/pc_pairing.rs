use deepseek_mobile::pc_pairing_manager::{sanitize_file_component, MobilePcPairingRequest, PcPairingManager};
use deepseek_mobile::pc_pairing_persist::{pairing_status_code, pairing_status_from_code, restore_pairing};
use deepseek_mobile::pc_pairing_state::{format_latency, PcGatewayEndpointHealth, PcPairingUiState, PcPairingUiStatus};

fn sample_request() -> MobilePcPairingRequest {
    MobilePcPairingRequest::new(
        "pc-local",
        "Developer PC",
        "phone-1",
        "Android Phone",
        "local",
        "/work/project",
        "pairing-token",
    )
}

#[test]
fn starts_not_configured() {
    let state = PcPairingUiState::default();
    assert_eq!(state.status, PcPairingUiStatus::NotConfigured);
    assert_eq!(state.primary_action_label(), "Configure PC pairing");
}

#[test]
fn configure_moves_to_ready() {
    let mut state = PcPairingUiState::default();
    state.configure(sample_request());
    assert_eq!(state.status, PcPairingUiStatus::ReadyToExport);
    assert_eq!(state.primary_action_label(), "Create PC pairing ZIP");
}

#[test]
fn export_without_request_sets_error() {
    let mut state = PcPairingUiState::default();
    let result = state.export_request();
    assert!(result.is_none());
    assert!(matches!(state.status, PcPairingUiStatus::Error(_)));
    assert_eq!(state.status_text(), "PC pairing error: PC pairing request is not configured");
}

#[test]
fn exported_zip_is_shown_in_status() {
    let mut state = PcPairingUiState::default();
    state.configure(sample_request());
    let request = state.export_request().expect("configured");
    assert_eq!(request.gateway_id, "pc-local");
    let path = state.apply_export_result(Ok("/out/pc.zip".to_string()));
    assert_eq!(path.as_deref(), Some("/out/pc.zip"));
    assert!(matches!(state.status, PcPairingUiStatus::Exported));
    assert_eq!(state.status_text(), "Pairing ZIP created: /out/pc.zip");
    assert_eq!(state.apply_export_result(Err("disk full".to_string())), None);
    assert_eq!(state.last_error.as_deref(), Some("disk full"));
}

#[test]
fn connection_status_transitions() {
    let mut state = PcPairingUiState::default();
    state.mark_waiting_for_pc();
    assert_eq!(state.status, PcPairingUiStatus::WaitingForPc);
    state.mark_online();
    assert_eq!(state.status, PcPairingUiStatus::Online);
    state.mark_offline();
    assert_eq!(state.status, PcPairingUiStatus::Offline);
}

#[test]
fn endpoint_health_marks_online_and_shows_route() {
    let mut state = PcPairingUiState::default();
    let endpoint = PcGatewayEndpointHealth {
        label: "same-lan".to_string(),
        base_url: "http://192.168.1.10:8787".to_string(),
        success_count: 2,
        failure_count: 0,
        last_latency_ms: Some(42),
        last_error: None,
    };
    state.apply_endpoint_health(Some(endpoint.clone()), vec![endpoint]);
    assert_eq!(state.status, PcPairingUiStatus::Online);
    assert!(state.status_text().contains("same-lan"));
    assert!(state.active_route_text().contains("42 ms"));
    assert_eq!(
        state.active_route_text(),
        "same-lan\nhttp://192.168.1.10:8787\nlatency: 42 ms\nsuccess: 2 | failure: 0"
    );
}

#[test]
fn failed_routes_without_active_one_mean_offline() {
    let mut state = PcPairingUiState::default();
    state.mark_waiting_for_pc();
    let failed = PcGatewayEndpointHealth {
        label: "lan".to_string(),
        base_url: "http://10.0.0.2:8787".to_string(),
        success_count: 0,
        failure_count: 3,
        last_latency_ms: None,
        last_error: Some("refused".to_string()),
    };
    state.apply_endpoint_health(None, vec![failed]);
    assert_eq!(state.status, PcPairingUiStatus::Offline);
    assert_eq!(
        state.active_route_text(),
        "No active PC route yet. Run a connection check or execute a PC workspace request."
    );
    assert_eq!(format_latency(None), "not measured");
}

#[test]
fn discovery_result_sets_status() {
    let mut state = PcPairingUiState::default();
    state.apply_discovery_result(false, true);
    assert_eq!(state.status, PcPairingUiStatus::WaitingForPc);
    state.apply_discovery_result(true, true);
    assert_eq!(state.status, PcPairingUiStatus::Online);
    state.apply_discovery_result(false, false);
    assert_eq!(state.status, PcPairingUiStatus::Offline);
}

#[test]
fn saved_status_words_read_back() {
    for status in [
        PcPairingUiStatus::NotConfigured,
        PcPairingUiStatus::ReadyToExport,
        PcPairingUiStatus::Exported,
        PcPairingUiStatus::WaitingForPc,
        PcPairingUiStatus::Online,
        PcPairingUiStatus::Offline,
    ] {
        assert_eq!(pairing_status_from_code(pairing_status_code(&status)), status);
    }
    let error = PcPairingUiStatus::Error("x".to_string());
    assert_eq!(pairing_status_code(&error), "error");
    assert_eq!(pairing_status_from_code("error"), PcPairingUiStatus::NotConfigured);
    assert_eq!(pairing_status_from_code("error:error:lost"), PcPairingUiStatus::Error("lost".to_string()));
    let restored = restore_pairing(Some(sample_request()), "online");
    assert_eq!(restored.status, PcPairingUiStatus::Online);
    assert!(restored.request.is_some());
}

#[test]
fn pairing_request_builders_and_zip_name() {
    let request = sample_request().with_bind_addr("127.0.0.1:9000").with_expiry(77).with_auto_start(false);
    assert_eq!(request.bind_addr, "127.0.0.1:9000");
    assert_eq!(request.expires_at_unix, Some(77));
    assert!(!request.auto_start);
    assert_eq!(sanitize_file_component("  my pc!! "), "my-pc");
    assert_eq!(sanitize_file_component("***"), "pc");
    assert_eq!(PcPairingManager::zip_file_name("pc local"), "deepseek-pc-host-pairing-pc-local.zip");
}
