use deepseek_mobile::device_calibration::{
    is_calibration_request, is_health_probe_request, last_queued_unix, needs_allow_external_apps,
    calibration_flag_actions, calibration_result_actions, note_calibration_result, schedule_android_calibration, schedule_termux_health_probe, should_retry_calibration,
    CalibrationFlagAction, CALIBRATION_REQUEST_ID, HEALTH_TERMUX_PROBE_ID,
};
use deepseek_mobile::native_bridge::{NativeBridgeState, NativeMobileCommand};

#[test]
fn recognizes_calibration_request_id() {
    assert!(is_calibration_request(CALIBRATION_REQUEST_ID));
    assert!(!is_calibration_request("other"));
}

#[test]
fn health_probe_id_is_recognised() {
    assert!(is_health_probe_request(HEALTH_TERMUX_PROBE_ID));
    assert!(!is_health_probe_request(CALIBRATION_REQUEST_ID));
}

#[test]
fn calibration_result_needs_exit_zero_or_marker_or_seeded_project() {
    assert!(note_calibration_result("", "", None, Some(0)));
    assert!(note_calibration_result("", "DEEPSEEK_CALIBRATION_OK", None, Some(1)));
    assert!(note_calibration_result("/home/deepseek-project\ntotal 4", "", None, None));
    assert!(!note_calibration_result(
        "/home/deepseek-project\ntotal 4",
        "",
        Some("allow-external-apps"),
        None
    ));
    assert!(!note_calibration_result("", "", Some("failed"), Some(1)));
}

#[test]
fn retry_waits_ninety_seconds_after_the_last_queue() {
    assert!(!should_retry_calibration(true, Some(500)));
    assert!(!should_retry_calibration(false, None));
    assert!(!should_retry_calibration(false, Some(89)));
    assert!(should_retry_calibration(false, Some(90)));
}

#[test]
fn last_queued_line_gives_its_time() {
    let trace = "100 stage=queued detail=\n150 stage=result detail=x\n200 stage=queued detail=\n250 stage=marked_ok detail=\n";
    assert_eq!(last_queued_unix(trace), Some(200));
    assert_eq!(last_queued_unix("1 stage=result detail=\n"), None);
    assert!(needs_allow_external_apps("x allow-external-apps y"));
    assert!(!needs_allow_external_apps("nothing"));
}

#[test]
fn health_probe_is_queued_only_on_an_idle_bridge() {
    let mut bridge = NativeBridgeState::default();
    assert!(!schedule_termux_health_probe(&mut bridge, false));
    assert!(schedule_termux_health_probe(&mut bridge, true));
    match bridge.pending_commands.last() {
        Some(NativeMobileCommand::RunTermuxCommand(request)) => {
            assert_eq!(request.request_id, HEALTH_TERMUX_PROBE_ID);
            assert_eq!(request.timeout_secs, Some(60));
        }
        other => panic!("unexpected command: {other:?}"),
    }
    assert!(!schedule_termux_health_probe(&mut bridge, true));
}

#[test]
fn calibration_replaces_only_a_stale_calibration_wait() {
    let mut bridge = NativeBridgeState::default();
    assert!(!schedule_android_calibration(&mut bridge, true, true, true));
    assert!(!schedule_android_calibration(&mut bridge, false, false, true));
    bridge.active_termux_request_ids = vec!["other".to_string()];
    assert!(!schedule_android_calibration(&mut bridge, false, true, true));
    bridge.active_termux_request_ids = vec![CALIBRATION_REQUEST_ID.to_string()];
    assert!(schedule_android_calibration(&mut bridge, false, true, true));
    assert!(bridge.active_termux_request_ids.is_empty());
    match bridge.pending_commands.last() {
        Some(NativeMobileCommand::RunTermuxCommand(request)) => {
            assert_eq!(request.request_id, CALIBRATION_REQUEST_ID);
            assert!(request.command.contains("DEEPSEEK_CALIBRATION_OK"));
            assert_eq!(request.timeout_secs, Some(90));
        }
        other => panic!("unexpected command: {other:?}"),
    }
}

#[test]
fn successful_calibration_marks_and_clears_both_requests() {
    assert_eq!(
        calibration_flag_actions(true),
        vec![
            CalibrationFlagAction::MarkCalibrated,
            CalibrationFlagAction::ClearCalibrationRequest,
            CalibrationFlagAction::ClearOnboardingProvision,
        ]
    );
    assert!(calibration_flag_actions(false).is_empty());
}

#[test]
fn calibration_result_actions_follow_the_verdict() {
    let (ok, actions) = calibration_result_actions("", "", None, Some(0));
    assert!(ok);
    assert_eq!(actions.len(), 3);
    let (ok, actions) = calibration_result_actions("nothing", "", Some("failed"), Some(1));
    assert!(!ok);
    assert!(actions.is_empty());
}
