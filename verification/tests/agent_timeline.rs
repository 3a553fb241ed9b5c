use deepseek_mobile::agent_timeline::{
    format_tool_step_with_output, parse_safety_snapshot_id, split_tool_step_body,
    timeline_kind_label, timeline_status_label, tool_name_from_step_title, MobileTimelineItem,
    MobileTimelineItemKind, MobileTimelineItemStatus, MobileTimelineState,
};

#[test]
fn timeline_pushes_items_in_order() {
    let mut timeline = MobileTimelineState::default();
    timeline.push_user_message("Build project");
    timeline.push_status("Thinking");
    timeline.push_assistant_message("Done");
    assert_eq!(timeline.len(), 3);
    assert_eq!(timeline.items[0].id, "timeline-1");
    assert_eq!(timeline.items[2].title, "DeepSeek response");
}

#[test]
fn timeline_labels_are_stable() {
    assert_eq!(
        timeline_kind_label(&MobileTimelineItemKind::ToolCall),
        "TOOL"
    );
    assert_eq!(
        timeline_kind_label(&MobileTimelineItemKind::Approval),
        "APPROVAL"
    );
}

#[test]
fn streaming_deltas_append_to_one_live_assistant_item() {
    let mut timeline = MobileTimelineState::default();
    timeline.append_live_assistant_delta("hel");
    timeline.append_live_assistant_delta("lo");
    assert_eq!(timeline.len(), 1);
    assert_eq!(timeline.items[0].body, "hello");
    assert_eq!(timeline.items[0].status, MobileTimelineItemStatus::Running);
    timeline.finish_live_assistant_message();
    assert_eq!(timeline.items[0].status, MobileTimelineItemStatus::Done);
}

#[test]
fn parses_safety_snapshot_id_from_body() {
    assert_eq!(
        parse_safety_snapshot_id("snap-abc · 3 file(s) · 120 bytes"),
        Some("snap-abc".to_string())
    );
}

#[test]
fn complete_tool_call_merges_output_into_running_row() {
    let mut timeline = MobileTimelineState::default();
    let id = timeline.push(
        MobileTimelineItemKind::ToolCall,
        MobileTimelineItemStatus::Running,
        "Tool: write_file",
        r#"{"path":"src/a.rs"}"#,
    );
    let completed = timeline.complete_tool_call(
        "write_file",
        true,
        "Wrote 10 bytes",
        vec!["src/a.rs".to_string()],
    );
    assert_eq!(completed.as_deref(), Some(id.as_str()));
    assert_eq!(timeline.len(), 1);
    assert!(timeline.items[0].body.contains("── Output ──"));
    assert!(timeline.items[0]
        .linked_file_paths
        .contains(&"src/a.rs".to_string()));
}

#[test]
fn compact_for_display_merges_legacy_tool_result_rows() {
    let mut timeline = MobileTimelineState::default();
    timeline.push(
        MobileTimelineItemKind::ToolCall,
        MobileTimelineItemStatus::Done,
        "Tool: read_file",
        r#"{"path":"Cargo.toml"}"#,
    );
    timeline.push(
        MobileTimelineItemKind::ToolCall,
        MobileTimelineItemStatus::Done,
        "Tool result: read_file",
        "ok",
    );
    timeline.compact_for_display();
    assert_eq!(timeline.len(), 1);
    assert!(timeline.items[0].body.contains("── Output ──"));
    assert!(timeline.items[0].body.contains("ok"));
}

#[test]
fn assistant_reply_inherits_paths_from_tools_in_same_turn() {
    let mut timeline = MobileTimelineState::default();
    timeline.push_user_message("create demo");
    let tool_id = timeline.push(
        MobileTimelineItemKind::ToolCall,
        MobileTimelineItemStatus::Done,
        "Tool result: write_file",
        "Wrote 3 bytes to pkg/demo.rs",
    );
    timeline.attach_linked_paths(&tool_id, vec!["pkg/demo.rs".to_string()]);
    timeline.append_live_assistant_delta("Готово, файл создан.");
    timeline.finish_live_assistant_message();
    let assistant = timeline
        .items
        .iter()
        .find(|item| item.kind == MobileTimelineItemKind::AssistantMessage)
        .expect("assistant bubble");
    assert!(
        assistant
            .linked_file_paths
            .contains(&"pkg/demo.rs".to_string()),
        "paths from tools should appear on the assistant reply"
    );
}

#[test]
fn status_labels_cover_every_status() {
    assert_eq!(timeline_status_label(&MobileTimelineItemStatus::Pending), "pending");
    assert_eq!(timeline_status_label(&MobileTimelineItemStatus::WaitingForApproval), "approval");
    assert_eq!(timeline_kind_label(&MobileTimelineItemKind::UserMessage), "USER");
}

#[test]
fn tool_step_body_round_trips_through_split() {
    let body = format_tool_step_with_output("{\"path\":\"a\"}", "done");
    assert_eq!(body, "── Input ──\n{\"path\":\"a\"}\n\n── Output ──\ndone");
    assert_eq!(split_tool_step_body(&body), Some(("{\"path\":\"a\"}", "done")));
    assert_eq!(split_tool_step_body("no markers"), None);
}

#[test]
fn tool_names_come_from_either_title_form() {
    assert_eq!(tool_name_from_step_title("Tool: read_file"), Some("read_file"));
    assert_eq!(tool_name_from_step_title("Tool result: read_file"), Some("read_file"));
    assert_eq!(tool_name_from_step_title("Agent status"), None);
}

#[test]
fn blank_snapshot_line_has_no_id() {
    assert_eq!(parse_safety_snapshot_id("   · 3 files"), None);
    assert_eq!(parse_safety_snapshot_id("snap-1"), Some("snap-1".to_string()));
}

#[test]
fn snapshot_id_prefers_linked_snapshot() {
    let item = MobileTimelineItem::new(
        "s1",
        MobileTimelineItemKind::Status,
        MobileTimelineItemStatus::Done,
        "Safety snapshot",
        "snap-9 · 1 file(s)",
    );
    assert_eq!(item.snapshot_id(), Some("snap-9".to_string()));
    let mut timeline = MobileTimelineState::default();
    let id = timeline.push(
        MobileTimelineItemKind::ToolCall,
        MobileTimelineItemStatus::Done,
        "Tool: write_file",
        "",
    );
    timeline.attach_linked_snapshot(&id, "snap-linked");
    assert_eq!(timeline.items[0].snapshot_id(), Some("snap-linked".to_string()));
}

#[test]
fn reasoning_deltas_share_one_row_and_blank_reasoning_is_dropped() {
    let mut timeline = MobileTimelineState::default();
    let first = timeline.append_live_reasoning_delta("step 1 ");
    let second = timeline.append_live_reasoning_delta("step 2");
    assert_eq!(first, second);
    assert_eq!(timeline.len(), 1);
    assert_eq!(timeline.items[0].body, "step 1 step 2");
    timeline.finish_live_reasoning();
    assert_eq!(timeline.items[0].status, MobileTimelineItemStatus::Done);

    let mut blank = MobileTimelineState::default();
    blank.append_live_reasoning_delta("");
    assert_eq!(blank.len(), 1);
    blank.finish_live_reasoning();
    assert!(blank.is_empty());
}

#[test]
fn push_status_closes_previous_agent_status() {
    let mut timeline = MobileTimelineState::default();
    timeline.push_status("one");
    timeline.push_status("two");
    assert_eq!(timeline.items[0].status, MobileTimelineItemStatus::Done);
    assert_eq!(timeline.items[1].status, MobileTimelineItemStatus::Running);
}

#[test]
fn seal_open_work_items_finishes_running_rows() {
    let mut timeline = MobileTimelineState::default();
    timeline.push_native_command("share");
    timeline.push(
        MobileTimelineItemKind::ToolCall,
        MobileTimelineItemStatus::Running,
        "Tool: exec_shell",
        "pwd",
    );
    timeline.push_error("boom");
    timeline.seal_open_work_items();
    assert_eq!(timeline.items[0].status, MobileTimelineItemStatus::Done);
    assert_eq!(timeline.items[1].status, MobileTimelineItemStatus::Done);
    assert_eq!(timeline.items[2].status, MobileTimelineItemStatus::Failed);
}

#[test]
fn failed_tool_call_is_marked_failed_and_unknown_tool_is_none() {
    let mut timeline = MobileTimelineState::default();
    timeline.push(
        MobileTimelineItemKind::ToolCall,
        MobileTimelineItemStatus::Running,
        "Tool: exec_shell",
        "ls",
    );
    assert_eq!(timeline.complete_tool_call("read_file", true, "x", vec![]), None);
    let id = timeline.complete_tool_call("exec_shell", false, "denied", vec![]);
    assert_eq!(id.as_deref(), Some("timeline-1"));
    assert_eq!(timeline.items[0].status, MobileTimelineItemStatus::Failed);
}

#[test]
fn seal_tool_call_marks_the_last_running_row() {
    let mut timeline = MobileTimelineState::default();
    for _ in 0..2 {
        timeline.push(
            MobileTimelineItemKind::ToolCall,
            MobileTimelineItemStatus::Running,
            "Tool: list_dir",
            ".",
        );
    }
    timeline.seal_tool_call("list_dir");
    assert_eq!(timeline.items[0].status, MobileTimelineItemStatus::Running);
    assert_eq!(timeline.items[1].status, MobileTimelineItemStatus::Done);
}

#[test]
fn retain_recent_keeps_the_newest_rows() {
    let mut timeline = MobileTimelineState::default();
    for body in ["a", "b", "c", "d"] {
        timeline.push_attachment(body);
    }
    timeline.retain_recent(2);
    assert_eq!(timeline.len(), 2);
    assert_eq!(timeline.items[0].body, "c");
    assert_eq!(timeline.items[1].body, "d");
}

#[test]
fn soften_stale_errors_drops_walls_of_errors_only() {
    let mut timeline = MobileTimelineState::default();
    timeline.push_error("e1");
    timeline.push_error("e2");
    timeline.soften_stale_errors();
    assert_eq!(timeline.len(), 2);
    timeline.push_error("e3");
    timeline.push_user_message("hi");
    timeline.soften_stale_errors();
    assert_eq!(timeline.len(), 1);
    assert_eq!(timeline.items[0].kind, MobileTimelineItemKind::UserMessage);
}

#[test]
fn compact_for_display_drops_probe_replies_and_joins_reasoning() {
    let mut timeline = MobileTimelineState::default();
    timeline.push(
        MobileTimelineItemKind::AssistantMessage,
        MobileTimelineItemStatus::Done,
        "DeepSeek response",
        " PROBE_OK\n",
    );
    timeline.push(
        MobileTimelineItemKind::Status,
        MobileTimelineItemStatus::Running,
        "Reasoning",
        "a",
    );
    timeline.push(
        MobileTimelineItemKind::Status,
        MobileTimelineItemStatus::Done,
        "Reasoning",
        "b",
    );
    timeline.compact_for_display();
    assert_eq!(timeline.len(), 1);
    assert_eq!(timeline.items[0].body, "ab");
    assert_eq!(timeline.items[0].status, MobileTimelineItemStatus::Done);
}

#[test]
fn publish_assistant_reply_fills_or_appends() {
    let mut timeline = MobileTimelineState::default();
    timeline.publish_assistant_reply("   ");
    assert!(timeline.is_empty());
    timeline.start_live_assistant_message();
    timeline.publish_assistant_reply("  Hello ");
    assert_eq!(timeline.items[0].body, "Hello");
    assert_eq!(timeline.items[0].status, MobileTimelineItemStatus::Done);
    timeline.publish_assistant_reply("Hello");
    assert_eq!(timeline.len(), 1);
    timeline.publish_assistant_reply("Another reply");
    assert_eq!(timeline.len(), 2);
    assert_eq!(timeline.items[1].body, "Another reply");
}

#[test]
fn terminal_status_messages_are_recognised() {
    assert!(MobileTimelineState::status_message_is_terminal("Turn FINISHED"));
    assert!(MobileTimelineState::status_message_is_terminal("Готово · workspace"));
    assert!(MobileTimelineState::status_message_is_terminal("done · 3 files"));
    assert!(!MobileTimelineState::status_message_is_terminal("Thinking"));
}

#[test]
fn push_with_id_keeps_the_given_id() {
    let mut timeline = MobileTimelineState::default();
    let id = timeline.push_with_id(
        "approval-7",
        MobileTimelineItemKind::Approval,
        MobileTimelineItemStatus::WaitingForApproval,
        "Approve",
        "write_file",
    );
    assert_eq!(id, "approval-7");
    let next = timeline.push_attachment("x");
    assert_eq!(next, "timeline-2");
    let item = timeline.items[0].clone().with_linked_file_paths(vec!["a.rs".to_string()]);
    assert_eq!(item.linked_file_paths, vec!["a.rs".to_string()]);
}
