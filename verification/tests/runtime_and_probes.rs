use deepseek_mobile::agent_event_adapter::AgentEvent;
use deepseek_mobile::agent_timeline::{MobileTimelineItemStatus, MobileTimelineState};
use deepseek_mobile::agent_turn_probe::{
    probe_message, probe_requirements, reply_counts, termux_stdout_ok, termux_wait_outcome,
    termux_wait_timeout_message, unique_probe_thread_id, DEFAULT_PROBE_MESSAGE,
};
use deepseek_mobile::agent_turn_probe::{
    probe_continuation_step, probe_step_head, probe_termux_step, probe_turn_settings, probe_turn_step, TurnProbeStep,
    ProbeTurnSettings,
};
use deepseek_mobile::native_termux::TermuxExecResult as ProbeTermuxResult;
use deepseek_mobile::api_probe::{api_key_configured, api_key_looks_valid, api_response_line};
use deepseek_mobile::app_update_state::{check_downloaded_size, AppUpdateOffer, AppUpdateUiPhase, AppUpdateUiState};
use deepseek_mobile::chat_scroll::{scroll_chat_to_bottom_force_script, sticky_scroll_script, CHAT_SCROLL_PANEL_ID};
use deepseek_mobile::mobile_engine_runner::{MobileApprovalContinuationUiResult, MobileTurnUiResult};
use deepseek_mobile::mobile_runtime_config::MobileRuntimeConfig;
use deepseek_mobile::native_bridge::NativeMobileEvent;
use deepseek_mobile::native_termux::TermuxExecResult;
use deepseek_mobile::turn_results::{apply_approval_continuation_ui, apply_mobile_turn_ui_result};

#[test]
fn default_config_uses_mobile_thread() {
    let config = MobileRuntimeConfig::from_base_dir("/tmp/deepseek-mobile-default");
    assert_eq!(config.thread_id, "mobile-default-thread");
    assert!(config.runtime_store_root_display().contains("runtime_store"));
    assert!(config.workspace_root_display().contains("workspace"));
    assert_eq!(config.session_file_path(), "/tmp/deepseek-mobile-default/runtime_store/session.json");
}

#[test]
fn thread_id_can_be_overridden() {
    let config = MobileRuntimeConfig::from_base_dir("/tmp/deepseek-mobile").with_thread_id("thread-2");
    assert_eq!(config.thread_id, "thread-2");
}

#[test]
fn pc_workspace_connection_overrides_workspace_display_root() {
    let config = MobileRuntimeConfig::from_base_dir("/phone/").with_workspace_connection("/pc/project");
    assert_eq!(config.workspace_root_display(), "/pc/project");
    assert_eq!(config.workspace_root, "/phone/workspace");
}

fn turn_result(count: usize, final_text: Option<&str>) -> MobileTurnUiResult {
    MobileTurnUiResult {
        events: Vec::new(),
        final_text: final_text.map(str::to_string),
        approval_cards: Vec::new(),
        approval_card_count: count,
        runtime_store_root: ".deepseek-mobile/runtime_store".to_string(),
        workspace_root: ".deepseek-mobile/workspace".to_string(),
        thread_id: "mobile-default-thread".to_string(),
    }
}

#[test]
fn ui_result_reports_pending_approvals() {
    assert!(turn_result(1, None).has_pending_approvals());
}

#[test]
fn ui_result_without_cards_has_no_pending_approvals() {
    assert!(!turn_result(0, Some("done")).has_pending_approvals());
}

#[test]
fn continuation_result_reports_remaining_approvals() {
    let result = MobileApprovalContinuationUiResult {
        events: Vec::new(),
        final_text: None,
        executed_count: 0,
        session_grant_count: 0,
        remaining_approval_cards: Vec::new(),
    };
    assert!(!result.has_remaining_approvals());
}

#[test]
fn finalizer_does_not_replay_streamed_events() {
    let result = MobileApprovalContinuationUiResult {
        events: vec![AgentEvent::Status("already streamed".to_string())],
        final_text: Some("done".to_string()),
        executed_count: 0,
        session_grant_count: 0,
        remaining_approval_cards: Vec::new(),
    };
    let mut timeline = MobileTimelineState::default();
    let mut messages = Vec::new();
    apply_approval_continuation_ui(&mut timeline, &mut messages, result.final_text.clone());
    assert_eq!(timeline.items.len(), 1);
    assert_eq!(timeline.items[0].body, "Approval continuation finished");
    assert_eq!(messages, vec![("assistant".to_string(), "done".to_string())]);
}

#[test]
fn finished_turn_publishes_reply_and_done_line() {
    let mut timeline = MobileTimelineState::default();
    let mut messages = Vec::new();
    apply_mobile_turn_ui_result(&mut messages, &mut timeline, Some("All set".to_string()), "/w", "t1", true);
    assert_eq!(messages, vec![("assistant".to_string(), "All set".to_string())]);
    let bodies: Vec<&str> = timeline.items.iter().map(|i| i.body.as_str()).collect();
    assert_eq!(
        bodies,
        vec!["All set", "Готово · workspace: /w · thread: t1", "Нужно подтверждение: нажмите карточку одобрения выше."]
    );
    assert!(timeline.items.iter().all(|i| i.status != MobileTimelineItemStatus::Running));
}

#[test]
fn probe_message_prefers_termux_then_saved_text() {
    assert!(probe_message(true, Some("x")).contains("exec_shell"));
    assert_eq!(probe_message(false, Some("  hi  ")), "hi");
    assert_eq!(probe_message(false, Some("   ")), DEFAULT_PROBE_MESSAGE);
    assert_eq!(probe_message(false, None), DEFAULT_PROBE_MESSAGE);
    assert_eq!(probe_requirements(false, "use write_file"), (true, true));
    assert_eq!(probe_requirements(false, "say hi"), (false, false));
    assert_eq!(probe_requirements(true, "say hi"), (false, true));
    assert_eq!(unique_probe_thread_id(42), "__deepseek_adb_probe__42");
    assert!(reply_counts("PROBE_OK"));
    assert!(reply_counts("abc"));
    assert!(!reply_counts("ok"));
    assert!(!reply_counts("ÿ"));
    assert!(reply_counts("ÿÿ"));
}

#[test]
fn termux_wait_reads_the_matching_event() {
    let result = TermuxExecResult {
        request_id: "t1".to_string(),
        stdout: "/data/data/com.termux/files/home\n".to_string(),
        stderr: String::new(),
        exit_code: Some(0),
        timed_out: false,
        error: None,
    };
    assert!(termux_stdout_ok(&result));
    let event = Some(NativeMobileEvent::TermuxCommandCompleted(result));
    assert!(matches!(termux_wait_outcome(&event, "t1"), Some(Ok(_))));
    assert!(termux_wait_outcome(&event, "t2").is_none());
    let failed = Some(NativeMobileEvent::TermuxCommandFailed { request_id: "t2".to_string(), message: "no".to_string() });
    assert_eq!(termux_wait_outcome(&failed, "t2").map(|r| r.err()), Some(Some("no".to_string())));
    assert_eq!(termux_wait_timeout_message("t3"), "timeout waiting for Termux request t3");
}

#[test]
fn api_probe_lines() {
    assert!(api_key_looks_valid("  sk-abc "));
    assert!(!api_key_looks_valid("abc"));
    assert!(api_key_configured(Some("sk-1")));
    assert!(!api_key_configured(None));
    assert_eq!(api_response_line(true, 200, "200 OK", "{}"), "PASS http=200 OK body={}");
    assert_eq!(api_response_line(false, 401, "401 Unauthorized", "x"), "FAIL http=401 unauthorized (bad API key)");
    let long = "z".repeat(200);
    assert_eq!(api_response_line(false, 500, "500 Internal Server Error", &long).len(), "FAIL http=500 Internal Server Error body=".len() + 120);
}

#[test]
fn update_phases_and_status_lines() {
    let mut state = AppUpdateUiState::default();
    assert_eq!(state.status_line("1.2.0"), "Version 1.2.0");
    assert_eq!(state.download_target(), Err("No update is available to download".to_string()));
    state.begin_check();
    assert_eq!(state.status_line("1.2.0"), "Checking GitHub for updates…");
    state.apply_check_result(None);
    assert_eq!(state.status_line("1.2.0"), "Version 1.2.0 is up to date");
    state.apply_check_result(Some(AppUpdateOffer {
        current_version: "1.2.0".to_string(),
        latest_version: "1.3.0".to_string(),
        apk_download_url: Some("https://example.com/app.apk".to_string()),
    }));
    assert_eq!(state.status_line("1.2.0"), "Update available: 1.2.0 → 1.3.0");
    assert_eq!(
        state.download_target(),
        Ok(("https://example.com/app.apk".to_string(), "1.3.0".to_string()))
    );
    state.apply_downloaded("/u/app.apk".to_string(), "1.3.0".to_string());
    assert_eq!(state.downloaded_apk_path().as_deref(), Some("/u/app.apk"));
    assert_eq!(state.status_line("1.2.0"), "Downloaded v1.3.0. Tap Install update.");
    state.set_error("net");
    assert!(matches!(state.phase, AppUpdateUiPhase::Error(_)));
    assert!(check_downloaded_size(99_999).is_err());
    assert!(check_downloaded_size(100_000).is_ok());
}

#[test]
fn scroll_script_matches_the_sticky_rule() {
    let expected = format!(
        r#"
        (function() {{
            const el = document.getElementById("{CHAT_SCROLL_PANEL_ID}");
            if (!el) return;
            const force = {};
            const threshold = {};
            const nearBottom = el.scrollHeight - el.scrollTop - el.clientHeight <= threshold;
            if (!force && !nearBottom) return;
            const scroll = () => {{ el.scrollTop = el.scrollHeight; }};
            scroll();
            requestAnimationFrame(scroll);
        }})();
        "#,
        false, 160
    );
    assert_eq!(sticky_scroll_script(false), expected);
    assert!(scroll_chat_to_bottom_force_script().contains("const force = true;"));
}

fn probe_result(exit_code: Option<i32>, stdout: &str) -> ProbeTermuxResult {
    ProbeTermuxResult {
        request_id: "t-1".to_string(),
        stdout: stdout.to_string(),
        stderr: String::new(),
        exit_code,
        timed_out: false,
        error: None,
    }
}

#[test]
fn probe_turn_step_follows_the_verdict_tree() {
    let queued = Some("t-1".to_string());
    assert_eq!(probe_turn_step(2, true, true, &queued, Some("PROBE_OK"), true), TurnProbeStep::PartialApprovals);
    assert_eq!(probe_turn_step(0, true, false, &queued, None, false), TurnProbeStep::FailToolNotObserved);
    assert_eq!(probe_turn_step(0, true, true, &queued, None, false), TurnProbeStep::WaitForTermux);
    assert_eq!(probe_turn_step(0, true, true, &None, None, false), TurnProbeStep::FailRequestNotQueued);
    assert_eq!(probe_turn_step(0, false, false, &None, Some("PROBE_OK"), false), TurnProbeStep::Pass);
    assert_eq!(probe_turn_step(0, false, false, &None, Some("ok"), true), TurnProbeStep::Pass);
    assert_eq!(probe_turn_step(0, false, false, &None, Some("ok"), false), TurnProbeStep::PartialEmptyReply);
    assert_eq!(probe_turn_step(0, false, false, &None, None, false), TurnProbeStep::PartialEmptyReply);
}

#[test]
fn probe_termux_and_continuation_steps() {
    assert_eq!(probe_termux_step(true, &Ok(probe_result(Some(0), ""))), TurnProbeStep::PassWriteFile);
    assert_eq!(probe_termux_step(true, &Ok(probe_result(Some(1), ""))), TurnProbeStep::FailWriteFile);
    assert_eq!(probe_termux_step(false, &Ok(probe_result(Some(1), ""))), TurnProbeStep::ContinueWithResult);
    assert_eq!(probe_termux_step(false, &Err("gone".to_string())), TurnProbeStep::FailNativeFailed);
    let real = probe_result(Some(0), "/data/data/com.termux/files/home\n");
    assert_eq!(probe_continuation_step(&real, true), TurnProbeStep::PassTermuxReal);
    assert_eq!(probe_continuation_step(&real, false), TurnProbeStep::FailContinuationFailed);
    assert_eq!(probe_continuation_step(&probe_result(Some(0), "C:\\"), true), TurnProbeStep::FailOutputUnexpected);
    assert_eq!(probe_step_head(TurnProbeStep::PassTermuxReal), "PASS termux_real");
    assert_eq!(probe_step_head(TurnProbeStep::PartialEmptyReply), "PARTIAL empty_reply");
}

#[test]
fn probe_turn_settings_pin_flash_only_for_shell_probe() {
    assert_eq!(probe_turn_settings(true, false), ProbeTurnSettings { yolo_execution: false, pin_flash_model: true });
    assert_eq!(probe_turn_settings(false, true), ProbeTurnSettings { yolo_execution: true, pin_flash_model: false });
}
