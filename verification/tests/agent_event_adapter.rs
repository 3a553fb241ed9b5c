use deepseek_mobile::agent_event_adapter::{
    push_agent_event, risk_label, AgentEvent, ApprovalRequest, PatchProposal, RiskLevel, SnapshotSummary, TokenUsage,
    ToolCallEvent, ToolResultEvent,
};
use deepseek_mobile::agent_timeline::{MobileTimelineItemKind, MobileTimelineItemStatus, MobileTimelineState};
use deepseek_mobile::json::{JsonNumber, JsonValue};
use deepseek_mobile::native_bridge::{termux_request_from_agent_event, NativeBridgeState, NativeMobileCommand};

fn object(members: Vec<(&str, JsonValue)>) -> JsonValue {
    JsonValue::Object(members.into_iter().map(|(k, v)| (k.to_string(), v)).collect())
}

#[test]
fn status_event_becomes_timeline_status() {
    let mut timeline = MobileTimelineState::default();
    push_agent_event(&mut timeline, &AgentEvent::Status("Thinking".to_string()));
    assert_eq!(timeline.len(), 1);
    assert_eq!(timeline.items[0].kind, MobileTimelineItemKind::Status);
    assert_eq!(timeline.items[0].body, "Thinking");
    assert_eq!(timeline.items[0].status, MobileTimelineItemStatus::Running);
}

#[test]
fn terminal_status_event_is_marked_done() {
    let mut timeline = MobileTimelineState::default();
    push_agent_event(&mut timeline, &AgentEvent::Status("Готово · workspace: /tmp · thread: t1".to_string()));
    assert_eq!(timeline.items[0].status, MobileTimelineItemStatus::Done);
}

#[test]
fn reasoning_deltas_merge_into_one_work_log_line() {
    let mut timeline = MobileTimelineState::default();
    push_agent_event(&mut timeline, &AgentEvent::ReasoningDelta("a".to_string()));
    push_agent_event(&mut timeline, &AgentEvent::ReasoningDelta("b".to_string()));
    push_agent_event(&mut timeline, &AgentEvent::MessageFinished { index: 0 });
    let reasoning: Vec<_> = timeline.items.iter().filter(|item| item.title == "Reasoning").collect();
    assert_eq!(reasoning.len(), 1);
    assert_eq!(reasoning[0].body, "ab");
    assert_eq!(reasoning[0].status, MobileTimelineItemStatus::Done);
}

#[test]
fn streaming_text_deltas_merge_into_one_assistant_message() {
    let mut timeline = MobileTimelineState::default();
    push_agent_event(&mut timeline, &AgentEvent::MessageStarted { index: 0, role: "assistant".to_string() });
    push_agent_event(&mut timeline, &AgentEvent::TextDelta("hel".to_string()));
    push_agent_event(&mut timeline, &AgentEvent::TextDelta("lo".to_string()));
    push_agent_event(&mut timeline, &AgentEvent::MessageFinished { index: 0 });
    let assistant = timeline
        .items
        .iter()
        .find(|item| item.kind == MobileTimelineItemKind::AssistantMessage)
        .expect("assistant message");
    assert_eq!(assistant.body, "hello");
    assert_eq!(assistant.status, MobileTimelineItemStatus::Done);
}

#[test]
fn tool_events_become_tool_cards() {
    let mut timeline = MobileTimelineState::default();
    push_agent_event(
        &mut timeline,
        &AgentEvent::ToolCallStarted(ToolCallEvent {
            id: "tool-1".to_string(),
            name: "read_file".to_string(),
            args: "{\"path\":\"Cargo.toml\"}".to_string(),
        }),
    );
    push_agent_event(
        &mut timeline,
        &AgentEvent::ToolCallFinished(ToolResultEvent {
            id: "tool-1".to_string(),
            name: "read_file".to_string(),
            success: true,
            output: "ok".to_string(),
            metadata: None,
            pre_snapshot: None,
        }),
    );
    assert_eq!(timeline.len(), 2);
    assert_eq!(timeline.items[0].kind, MobileTimelineItemKind::ToolCall);
    assert_eq!(timeline.items[1].status, MobileTimelineItemStatus::Done);
}

#[test]
fn tool_metadata_surfaces_snapshot_and_diagnostics_status_cards() {
    let mut timeline = MobileTimelineState::default();
    push_agent_event(
        &mut timeline,
        &AgentEvent::ToolCallFinished(ToolResultEvent {
            id: "tool-2".to_string(),
            name: "write_file".to_string(),
            success: true,
            output: "ok".to_string(),
            metadata: Some(object(vec![(
                "post_edit_diagnostics_summary",
                JsonValue::Str("1 diagnostic(s): 1 error(s), 0 warning(s)".to_string()),
            )])),
            pre_snapshot: Some(SnapshotSummary { id: "snapshot-1".to_string(), file_count: 2, total_bytes: 42 }),
        }),
    );
    assert_eq!(timeline.items.len(), 3);
    assert_eq!(timeline.items[0].title, "Safety snapshot");
    assert_eq!(timeline.items[0].body, "snapshot-1 · 2 file(s) · 42 bytes");
    assert_eq!(timeline.items[1].title, "Post-edit diagnostics");
    assert_eq!(timeline.items[2].title, "Tool result: write_file");
}

#[test]
fn termux_pending_metadata_surfaces_native_queue_status() {
    let mut timeline = MobileTimelineState::default();
    push_agent_event(
        &mut timeline,
        &AgentEvent::ToolCallFinished(ToolResultEvent {
            id: "tool-3".to_string(),
            name: "exec_shell".to_string(),
            success: true,
            output: "queued".to_string(),
            metadata: Some(object(vec![
                ("termux_execution_pending", JsonValue::Bool(true)),
                ("termux_request_id", JsonValue::Str("termux-tool-3".to_string())),
            ])),
            pre_snapshot: None,
        }),
    );
    assert_eq!(timeline.items.len(), 2);
    assert_eq!(timeline.items[0].title, "Termux native execution queued");
    assert!(timeline.items[0].body.contains("termux-tool-3"));
    assert_eq!(timeline.items[1].title, "Tool result: exec_shell");
}

#[test]
fn turn_finished_seals_running_status_rows() {
    let mut timeline = MobileTimelineState::default();
    push_agent_event(&mut timeline, &AgentEvent::Status("Thinking".to_string()));
    push_agent_event(
        &mut timeline,
        &AgentEvent::TurnFinished {
            turn_id: "t1".to_string(),
            status: "Completed".to_string(),
            usage: TokenUsage { input_tokens: 0, output_tokens: 0, reasoning_tokens: 0 },
            error: None,
        },
    );
    let running_status = timeline
        .items
        .iter()
        .filter(|item| {
            item.kind == MobileTimelineItemKind::Status
                && item.title == "Agent status"
                && item.status == MobileTimelineItemStatus::Running
        })
        .count();
    assert_eq!(running_status, 0);
    assert!(timeline.items.iter().any(|item| item.title == "Turn finished"));
}

#[test]
fn turn_summary_counts_tokens_and_names_errors() {
    let mut timeline = MobileTimelineState::default();
    let id = push_agent_event(
        &mut timeline,
        &AgentEvent::TurnFinished {
            turn_id: "t9".to_string(),
            status: "Failed".to_string(),
            usage: TokenUsage { input_tokens: 10, output_tokens: 5, reasoning_tokens: 2 },
            error: Some("boom".to_string()),
        },
    );
    assert_eq!(id.as_deref(), Some("timeline-1"));
    assert_eq!(timeline.items[0].status, MobileTimelineItemStatus::Failed);
    assert_eq!(
        timeline.items[0].body,
        "turn_id=t9 status=Failed input_tokens=10 output_tokens=5 reasoning_tokens=2 total_tokens=17 error=boom"
    );
}

#[test]
fn approval_event_becomes_waiting_card() {
    let mut timeline = MobileTimelineState::default();
    push_agent_event(
        &mut timeline,
        &AgentEvent::ApprovalRequired(ApprovalRequest {
            id: "approval-1".to_string(),
            title: "Run command".to_string(),
            description: "cargo test".to_string(),
            risk_level: RiskLevel::Medium,
        }),
    );
    assert_eq!(timeline.items[0].id, "approval-1");
    assert_eq!(timeline.items[0].kind, MobileTimelineItemKind::Approval);
    assert_eq!(timeline.items[0].status, MobileTimelineItemStatus::WaitingForApproval);
    assert!(timeline.items[0].body.contains("risk=medium"));
}

#[test]
fn transport_status_lines_are_skipped_and_others_pushed() {
    let mut timeline = MobileTimelineState::default();
    assert_eq!(push_agent_event(&mut timeline, &AgentEvent::Status("ModelRouter: pro".to_string())), None);
    assert_eq!(
        push_agent_event(&mut timeline, &AgentEvent::Status("DeepSeek streaming response opened".to_string())),
        None
    );
    assert_eq!(push_agent_event(&mut timeline, &AgentEvent::Started), None);
    assert!(timeline.is_empty());
    push_agent_event(
        &mut timeline,
        &AgentEvent::PatchProposed(PatchProposal { file_path: "a.rs".to_string(), diff: "+x".to_string() }),
    );
    push_agent_event(
        &mut timeline,
        &AgentEvent::SessionUpdated { message_count: 3, model: "deepseek-chat".to_string(), workspace: "w".to_string() },
    );
    push_agent_event(&mut timeline, &AgentEvent::TermuxExecutionPending { call_id: "c1".to_string() });
    push_agent_event(&mut timeline, &AgentEvent::Error("lost".to_string()));
    assert_eq!(timeline.items[0].title, "Patch proposed: a.rs");
    assert_eq!(timeline.items[1].body, "messages=3 model=deepseek-chat workspace=w");
    assert_eq!(timeline.items[2].body, "tool_call_id=c1 — waiting for Android Termux bridge to complete");
    assert_eq!(timeline.items[2].status, MobileTimelineItemStatus::Done);
    assert_eq!(timeline.items[3].title, "Agent error");
    assert_eq!(risk_label(&RiskLevel::Dangerous), "dangerous");
}

#[test]
fn bridge_extracts_termux_request_from_tool_result_metadata() {
    let event = AgentEvent::ToolCallFinished(ToolResultEvent {
        id: "tool-1".to_string(),
        name: "exec_shell".to_string(),
        success: true,
        output: "queued".to_string(),
        metadata: Some(object(vec![
            ("termux_execution_pending", JsonValue::Bool(true)),
            (
                "termux_exec_request",
                object(vec![
                    ("request_id", JsonValue::Str("termux-tool-1".to_string())),
                    ("command", JsonValue::Str("pwd".to_string())),
                    ("working_dir", JsonValue::Str("/data/data/com.termux/files/home/project".to_string())),
                    ("timeout_secs", JsonValue::Number(JsonNumber::PosInt(5))),
                ]),
            ),
        ])),
        pre_snapshot: None,
    });
    let request = termux_request_from_agent_event(&event).expect("termux request");
    assert_eq!(request.request_id, "termux-tool-1");
    assert_eq!(request.command, "pwd");
    let mut state = NativeBridgeState::default();
    assert!(state.enqueue_termux_command_from_agent_event(&event));
    assert!(matches!(
        state.pending_commands.first(),
        Some(NativeMobileCommand::RunTermuxCommand(request)) if request.request_id == "termux-tool-1"
    ));
}

#[test]
fn phone_actions_come_from_pending_tool_metadata() {
    let event = |pending: bool| {
        AgentEvent::ToolCallFinished(ToolResultEvent {
            id: "tool-9".to_string(),
            name: "phone".to_string(),
            success: true,
            output: "queued".to_string(),
            metadata: Some(object(vec![
                ("phone_native_pending", JsonValue::Bool(pending)),
                (
                    "phone_native_request",
                    object(vec![
                        ("action", JsonValue::Str("launch_app".to_string())),
                        ("package", JsonValue::Str("com.termux".to_string())),
                        ("url", JsonValue::Null),
                    ]),
                ),
            ])),
            pre_snapshot: None,
        })
    };
    let mut state = NativeBridgeState::default();
    assert!(!state.enqueue_phone_native_from_agent_event(&event(false)));
    assert!(state.enqueue_phone_native_from_agent_event(&event(true)));
    assert_eq!(
        state.pop_next_command(),
        Some(NativeMobileCommand::LaunchApp { package: "com.termux".to_string() })
    );
}
