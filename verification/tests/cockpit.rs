use deepseek_mobile::agent_event_adapter::{AgentEvent, ToolResultEvent};
use deepseek_mobile::diagnostics_state::{severity_color, severity_label, DiagnosticsUiState, PcDiagnosticSeverity};
use deepseek_mobile::json::{JsonNumber, JsonValue};
use deepseek_mobile::mobile_approval_panel::{
    action_background, mcp_status_color, quick_actions, severity_background, severity_border, severity_text,
    ApprovalCardSeverity, McpServerStatus, ReviewDecision,
};
use deepseek_mobile::agent_mode::{
    next_execution_mode, next_model_mode, next_thinking_level, ExecutionMode, ModelMode, ThinkingLevel,
};
use deepseek_mobile::agent_timeline::{MobileTimelineItem, MobileTimelineItemKind, MobileTimelineItemStatus};
use deepseek_mobile::locale::AppLanguage;
use deepseek_mobile::mobile_drawer::{
    badge_background, default_drawer_items, default_nav_items, CockpitSection, MobileChromeSummary,
};
use deepseek_mobile::pc_pairing_state::{status_badge_color, status_badge_text, PcPairingUiStatus};
use deepseek_mobile::timeline_display::{
    activity_has_active_item, activity_linked_paths, activity_significant_step_count, activity_text,
    compact_status_text, is_activity_item, is_conversation_item, item_background, item_badge_color, item_border,
    item_matches_pending_tool, status_color, tool_name_from_timeline_item,
};

#[test]
fn cockpit_section_panel_all_non_chat_sections_have_titles() {
    assert_eq!(CockpitSection::PcHost.title(), "PC Host");
    assert_eq!(CockpitSection::Files.title(), "Files");
    assert_eq!(CockpitSection::Snapshots.title(), "Snapshots");
    assert_eq!(CockpitSection::Diagnostics.title(), "Diagnostics");
    assert_eq!(CockpitSection::Terminal.title(), "Terminal");
    assert_eq!(CockpitSection::Approvals.title(), "Approvals");
    assert_eq!(CockpitSection::Git.title(), "Git & GitHub");
    assert_eq!(CockpitSection::Mcp.title(), "MCP");
    assert_eq!(CockpitSection::Skills.title(), "Skills");
    assert_eq!(CockpitSection::Tasks.title(), "Tasks");
    assert_eq!(CockpitSection::Settings.title(), "Settings");
}

#[test]
fn mobile_drawer_all_non_chat_sections_have_titles() {
    assert_eq!(CockpitSection::Health.title(), "Health");
    assert_eq!(CockpitSection::Chat.localized_title(AppLanguage::Ru), "Чат");
    assert_eq!(CockpitSection::Git.localized_title(AppLanguage::En), "Git & GitHub");
    assert_eq!(CockpitSection::Tasks.localized_subtitle(AppLanguage::Ru), "Фоновые задачи и сборки");
    assert_eq!(CockpitSection::Tasks.subtitle(), "Background tasks, build jobs, test runs");
}

#[test]
fn drawer_items_include_all_sections() {
    let items = default_drawer_items(AppLanguage::En);
    let titles: Vec<&str> = items.iter().map(|i| i.title).collect();
    assert!(titles.contains(&"Chat"));
    assert!(titles.contains(&"MCP"));
    assert!(titles.contains(&"Skills"));
    assert!(titles.contains(&"Tasks"));
    assert!(titles.contains(&"Settings"));
    assert_eq!(items.len(), 13);
}

#[test]
fn bottom_nav_includes_all_new_sections() {
    let items = default_nav_items(AppLanguage::En);
    let labels: Vec<&str> = items.iter().map(|i| i.label).collect();
    assert!(labels.contains(&"MCP"));
    assert!(labels.contains(&"Skills"));
    assert!(labels.contains(&"Approvals"));
    assert!(labels.contains(&"Health"));
    assert_eq!(items.len(), 7);
}

#[test]
fn chrome_summary_badges_reflect_runtime_counts() {
    let summary = MobileChromeSummary {
        api_configured: true,
        pc_label: "PC ON".to_string(),
        pc_online: true,
        pending_approvals: 3,
        running_tasks: 2,
        diagnostics_errors: 1,
        dirty_files: 4,
        native_waiting: true,
        ..MobileChromeSummary::default()
    };
    assert_eq!(summary.api_chip_label(AppLanguage::En), "API OK");
    assert_eq!(summary.badge_for(CockpitSection::PcHost).as_deref(), Some("PC ON"));
    assert_eq!(summary.badge_for(CockpitSection::Approvals).as_deref(), Some("3"));
    assert_eq!(summary.badge_for(CockpitSection::Diagnostics).as_deref(), Some("ERR 1"));
    assert_eq!(summary.badge_for(CockpitSection::Git).as_deref(), Some("4"));
    assert_eq!(summary.badge_for(CockpitSection::Tasks).as_deref(), Some("RUN 2"));
    assert_eq!(summary.badge_for(CockpitSection::Chat).as_deref(), Some("WAIT"));
    assert_eq!(summary.compact_badge_for(CockpitSection::PcHost).as_deref(), Some("ON"));
    assert_eq!(summary.compact_badge_for(CockpitSection::Chat).as_deref(), Some("…"));
    assert_eq!(summary.compact_badge_for(CockpitSection::Settings), None);
    assert_eq!(summary.pc_chip_colors(), ("#78350f", "#f59e0b", "#fde68a"));
    assert_eq!(badge_background(CockpitSection::PcHost, "PC OFF"), "#b91c1c");
    let empty = MobileChromeSummary::default();
    assert_eq!(empty.api_chip_label(AppLanguage::Ru), "НЕТ API");
    assert_eq!(empty.api_chip_colors(), ("#3f1d1d", "#ef4444", "#fecaca"));
    assert_eq!(empty.badge_for(CockpitSection::Diagnostics), None);
}

#[test]
fn status_badges_match_pairing_state() {
    assert_eq!(status_badge_text(&PcPairingUiStatus::NotConfigured), "SETUP");
    assert_eq!(status_badge_text(&PcPairingUiStatus::ReadyToExport), "READY");
    assert_eq!(status_badge_text(&PcPairingUiStatus::Exported), "ZIP READY");
    assert_eq!(status_badge_text(&PcPairingUiStatus::WaitingForPc), "WAITING");
    assert_eq!(status_badge_text(&PcPairingUiStatus::Online), "ONLINE");
    assert_eq!(status_badge_text(&PcPairingUiStatus::Offline), "OFFLINE");
    assert_eq!(status_badge_text(&PcPairingUiStatus::Error("x".to_string())), "ERROR");
    assert_eq!(status_badge_color(&PcPairingUiStatus::Online), "#059669");
}

#[test]
fn mode_chips_cycle() {
    assert_eq!(next_execution_mode(&ExecutionMode::Plan), ExecutionMode::Agent);
    assert_eq!(next_model_mode(&ModelMode::Pro), ModelMode::Auto);
    assert_eq!(next_thinking_level(&ThinkingLevel::Max), ThinkingLevel::Off);
}

#[test]
fn timeline_styles_cover_core_kinds() {
    assert_eq!(item_badge_color(&MobileTimelineItemKind::ToolCall), "#7c3aed");
    assert_eq!(item_background(&MobileTimelineItemKind::Error), "#7f1d1d");
    assert_eq!(item_border(&MobileTimelineItemStatus::WaitingForApproval), "1px solid #ca8a04");
    assert_eq!(status_color(&MobileTimelineItemStatus::Done), "#86efac");
}

#[test]
fn compact_status_text_limits_noise() {
    let text = "a".repeat(200);
    assert!(compact_status_text(&text).chars().count() <= 121);
    assert_eq!(compact_status_text("a\nb"), "a · b");
    let cut = compact_status_text(&"b".repeat(121));
    assert_eq!(cut.chars().count(), 121);
    assert!(cut.ends_with('…'));
}

fn row(kind: MobileTimelineItemKind, status: MobileTimelineItemStatus, title: &str, body: &str) -> MobileTimelineItem {
    MobileTimelineItem::new("r", kind, status, title, body)
}

#[test]
fn rows_split_into_conversation_and_activity() {
    let probe = row(MobileTimelineItemKind::AssistantMessage, MobileTimelineItemStatus::Done, "DeepSeek response", " PROBE_OK ");
    assert!(!is_conversation_item(&probe));
    let waiting = row(MobileTimelineItemKind::ToolCall, MobileTimelineItemStatus::WaitingForApproval, "Tool: x", "");
    assert!(is_conversation_item(&waiting));
    assert!(is_activity_item(&waiting));
    let status = row(MobileTimelineItemKind::Status, MobileTimelineItemStatus::Running, "Agent status", "Thinking\nhard");
    assert_eq!(activity_text(&status), "Agent status · Thinking · hard");
    assert_eq!(tool_name_from_timeline_item(&waiting).as_deref(), Some("x"));
    assert!(item_matches_pending_tool(&waiting, "x"));
    let done = row(MobileTimelineItemKind::Status, MobileTimelineItemStatus::Running, "Agent status", "Turn finished ok");
    assert!(activity_has_active_item(&vec![status.clone()]));
    assert!(!activity_has_active_item(&vec![done.clone()]));
    assert_eq!(activity_significant_step_count(&vec![status, waiting, done]), 1);
    let linked = MobileTimelineItem::new("a", MobileTimelineItemKind::ToolCall, MobileTimelineItemStatus::Done, "Tool: y", "")
        .with_linked_file_paths(vec!["a.rs".to_string(), "b.rs".to_string()]);
    let again = linked.clone().with_linked_file_paths(vec!["b.rs".to_string(), "c.rs".to_string()]);
    assert_eq!(activity_linked_paths(&vec![linked, again]), vec!["a.rs", "b.rs", "c.rs"]);
}

#[test]
fn diagnostic_severity_styles_are_stable() {
    assert_eq!(severity_label(&PcDiagnosticSeverity::Error), "ERROR");
    assert_eq!(severity_color(&PcDiagnosticSeverity::Warning), "#fcd34d");
}

#[test]
fn diagnostics_metadata_updates_latest_report() {
    let text = |s: &str| JsonValue::Str(s.to_string());
    let object = |members: Vec<(&str, JsonValue)>| {
        JsonValue::Object(members.into_iter().map(|(k, v)| (k.to_string(), v)).collect())
    };
    let mut state = DiagnosticsUiState::default();
    assert!(!state.has_data());
    state.apply_agent_event(&AgentEvent::ToolCallFinished(ToolResultEvent {
        id: "tool-1".to_string(),
        name: "write_file".to_string(),
        success: true,
        output: "ok".to_string(),
        metadata: Some(object(vec![
            ("post_edit_diagnostics_summary", text("1 diagnostic(s): 1 error(s), 0 warning(s)")),
            ("post_edit_diagnostics_path", text("src/main.rs")),
            (
                "post_edit_diagnostics",
                JsonValue::Array(vec![object(vec![
                    ("path", text("src/main.rs")),
                    ("line", JsonValue::Number(JsonNumber::PosInt(7))),
                    ("column", JsonValue::Number(JsonNumber::PosInt(3))),
                    ("severity", text("Error")),
                    ("message", text("expected expression")),
                    ("source", text("cargo check")),
                ])]),
            ),
        ])),
        pre_snapshot: None,
    }));
    assert!(state.has_data());
    assert_eq!(state.path.as_deref(), Some("src/main.rs"));
    assert_eq!(state.error_count(), 1);
    assert_eq!(state.warning_count(), 0);
    state.apply_agent_event(&AgentEvent::Finished);
    assert_eq!(state.error_count(), 1);
}

#[test]
fn dangerous_cards_use_red_border() {
    assert!(severity_border(&ApprovalCardSeverity::Dangerous).contains("#ef4444"));
    assert_eq!(severity_background(&ApprovalCardSeverity::Info), "#172554");
    assert_eq!(severity_text(&ApprovalCardSeverity::Warning), "#fbbf24");
}

#[test]
fn approve_for_session_uses_distinct_action_style() {
    assert_ne!(action_background(&ReviewDecision::Approved), action_background(&ReviewDecision::ApprovedForSession));
    assert_eq!(mcp_status_color(&McpServerStatus::Error("x".to_string())), "#dc2626");
}

#[test]
fn quick_actions_fill_the_composer() {
    let actions = quick_actions();
    assert_eq!(actions.len(), 7);
    assert_eq!(actions[0].label(AppLanguage::Ru), "План");
    assert_eq!(actions[3].label(AppLanguage::En), "Run tests");
    assert!(actions[2].prompt.contains("git status"));
}
