//! The agent runtime's events as timeline rows: status lines, streamed
//! replies and reasoning, tool cards, approvals and the end of a turn.
use crate::agent_timeline::{
    append_to_row_spec, fail_assistant_spec, finish_assistant_spec, finish_reasoning_spec, is_terminal_status_text,
    push_spec, push_with_id_spec, seal_agent_status_spec, seal_tool_spec, seal_work_rows, start_assistant_spec,
    start_reasoning_spec, timeline_id, MobileTimelineItemKind, MobileTimelineItemStatus, MobileTimelineState,
    TimelineView,
};
use crate::json::{get, get_str, json_bool, json_get, str_field, JsonValue};
use crate::text::{decimal, owned, push_decimal, str_eq, str_starts_with, unicode_lowercase};
use vstd::prelude::*;

verus! {

broadcast use vstd::string::group_string_axioms;

/// How risky a tool call that asks for approval is.
#[derive(Clone, Copy, Debug, PartialEq, Eq, Structural)]
pub enum RiskLevel {
    Low,
    Medium,
    High,
    Dangerous,
}

/// The label of a risk level.
pub open spec fn risk_text(risk: RiskLevel) -> Seq<char> {
    match risk {
        RiskLevel::Low => "low"@,
        RiskLevel::Medium => "medium"@,
        RiskLevel::High => "high"@,
        RiskLevel::Dangerous => "dangerous"@,
    }
}

/// The label of a risk level.
pub fn risk_label(risk: &RiskLevel) -> (r: &'static str)
    ensures
        r@ == risk_text(*risk),
{
    match risk {
        RiskLevel::Low => "low",
        RiskLevel::Medium => "medium",
        RiskLevel::High => "high",
        RiskLevel::Dangerous => "dangerous",
    }
}

/// The tokens a turn used.
#[derive(Clone, Copy, Debug, PartialEq, Eq, Structural)]
pub struct TokenUsage {
    pub input_tokens: u64,
    pub output_tokens: u64,
    pub reasoning_tokens: u64,
}

/// A tool call the model started.
#[derive(Clone, Debug, PartialEq, Eq)]
pub struct ToolCallEvent {
    pub id: String,
    pub name: String,
    pub args: String,
}

/// A safety snapshot taken before a tool wrote files.
#[derive(Clone, Debug, PartialEq, Eq)]
pub struct SnapshotSummary {
    pub id: String,
    pub file_count: u64,
    pub total_bytes: u64,
}

/// A finished tool call.
#[derive(Debug, PartialEq, Eq)]
pub struct ToolResultEvent {
    pub id: String,
    pub name: String,
    pub success: bool,
    pub output: String,
    pub metadata: Option<JsonValue>,
    /// The snapshot record under the metadata's `pre_snapshot`, when it reads as one.
    pub pre_snapshot: Option<SnapshotSummary>,
}

/// A tool call that waits for the user's approval.
#[derive(Clone, Debug, PartialEq, Eq)]
pub struct ApprovalRequest {
    pub id: String,
    pub title: String,
    pub description: String,
    pub risk_level: RiskLevel,
}

/// A patch the model proposes.
#[derive(Clone, Debug, PartialEq, Eq)]
pub struct PatchProposal {
    pub file_path: String,
    pub diff: String,
}

/// What the agent runtime reports while it runs a turn.
#[derive(Debug, PartialEq, Eq)]
pub enum AgentEvent {
    Started,
    Status(String),
    TurnStarted,
    /// `status` is the name of the turn's final state.
    TurnFinished { turn_id: String, status: String, usage: TokenUsage, error: Option<String> },
    MessageStarted { index: u64, role: String },
    TextDelta(String),
    ReasoningDelta(String),
    MessageFinished { index: u64 },
    ToolCallStarted(ToolCallEvent),
    ToolCallFinished(ToolResultEvent),
    ApprovalRequired(ApprovalRequest),
    PatchProposed(PatchProposal),
    /// `workspace` is the workspace as the runtime names it.
    SessionUpdated { message_count: u64, model: String, workspace: String },
    TermuxExecutionPending { call_id: String },
    Error(String),
    Finished,
}

/// Status lines of the transport and the model router that the timeline does not show.
pub open spec fn skipped_status(m: Seq<char>) -> bool {
    m == "DeepSeek streaming response opened"@ || m == "DeepSeek streaming response completed"@ || crate::text::starts_with(
        m,
        "ModelRouter:"@,
    )
}

fn skip_status_timeline_line(message: &str) -> (r: bool)
    ensures
        r == skipped_status(message@),
{
    str_eq(message, "DeepSeek streaming response opened") || str_eq(message, "DeepSeek streaming response completed")
        || str_starts_with(message, "ModelRouter:")
}

/// The live rows ended and the open work rows sealed, as at the end of a turn.
pub open spec fn sealed(v: TimelineView) -> TimelineView {
    let w = finish_reasoning_spec(finish_assistant_spec(v));
    TimelineView { items: seal_work_rows(w.items), ..w }
}

/// The body of a `Turn finished` row.
pub open spec fn turn_summary(
    turn_id: Seq<char>,
    status: Seq<char>,
    usage: TokenUsage,
    error: Option<Seq<char>>,
) -> Seq<char> {
    "turn_id="@ + turn_id + " status="@ + status + " input_tokens="@ + decimal(usage.input_tokens as nat)
        + " output_tokens="@ + decimal(usage.output_tokens as nat) + " reasoning_tokens="@ + decimal(
        usage.reasoning_tokens as nat,
    ) + " total_tokens="@ + decimal((usage.input_tokens + usage.output_tokens + usage.reasoning_tokens) as nat)
        + match error {
        Some(e) => " error="@ + e,
        None => Seq::empty(),
    }
}

/// The rows that a finished tool's metadata adds before its result card:
/// its safety snapshot, its queued Termux request, its diagnostics summary.
pub open spec fn tool_metadata_rows(v: TimelineView, r: ToolResultEvent) -> TimelineView {
    let a = match r.pre_snapshot {
        Some(s) => push_spec(
            v,
            MobileTimelineItemKind::Status,
            MobileTimelineItemStatus::Done,
            "Safety snapshot"@,
            s.id@ + " · "@ + decimal(s.file_count as nat) + " file(s) · "@ + decimal(s.total_bytes as nat)
                + " bytes"@,
        ),
        None => v,
    };
    let b = match r.metadata {
        Some(m) => match json_get(m, "termux_execution_pending"@) {
            Some(p) => if json_bool(p) == Some(true) {
                match str_field(m, "termux_request_id"@) {
                    Some(rid) => push_spec(
                        a,
                        MobileTimelineItemKind::Status,
                        MobileTimelineItemStatus::Running,
                        "Termux native execution queued"@,
                        "request_id="@ + rid,
                    ),
                    None => a,
                }
            } else {
                a
            },
            None => a,
        },
        None => a,
    };
    match r.metadata {
        Some(m) => match str_field(m, "post_edit_diagnostics_summary"@) {
            Some(summary) => push_spec(
                b,
                MobileTimelineItemKind::Status,
                MobileTimelineItemStatus::Done,
                "Post-edit diagnostics"@,
                summary,
            ),
            None => b,
        },
        None => b,
    }
}

/// The timeline after a status event with text `m`, and the id of its row:
/// transport lines are skipped; otherwise the running status lines are
/// sealed and the line is pushed, done when it says the turn is over.
pub open spec fn status_event_spec(v: TimelineView, m: Seq<char>) -> (TimelineView, Option<Seq<char>>) {
    if skipped_status(m) {
        (v, None)
    } else {
        let w = seal_agent_status_spec(v);
        (
            push_spec(
                w,
                MobileTimelineItemKind::Status,
                if is_terminal_status_text(unicode_lowercase(m)) {
                    MobileTimelineItemStatus::Done
                } else {
                    MobileTimelineItemStatus::Running
                },
                "Agent status"@,
                m,
            ),
            Some(timeline_id(w.next_id + 1)),
        )
    }
}

/// The timeline after an event, and the id of the row it touched, if any.
pub open spec fn agent_event_spec(v: TimelineView, e: AgentEvent) -> (TimelineView, Option<Seq<char>>) {
    match e {
        AgentEvent::Started | AgentEvent::TurnStarted => (v, None),
        AgentEvent::Status(m) => status_event_spec(v, m@),
        AgentEvent::TurnFinished { turn_id, status, usage, error } => {
            let w = sealed(
                if error is Some {
                    fail_assistant_spec(v)
                } else {
                    finish_assistant_spec(v)
                },
            );
            (
                push_spec(
                    w,
                    MobileTimelineItemKind::Status,
                    if error is Some {
                        MobileTimelineItemStatus::Failed
                    } else {
                        MobileTimelineItemStatus::Done
                    },
                    "Turn finished"@,
                    turn_summary(
                        turn_id@,
                        status@,
                        usage,
                        match error {
                            Some(x) => Some(x@),
                            None => None,
                        },
                    ),
                ),
                Some(timeline_id(w.next_id + 1)),
            )
        },
        AgentEvent::MessageStarted { role, .. } => if role@ == "assistant"@ {
            (start_assistant_spec(v).0, None)
        } else {
            (v, None)
        },
        AgentEvent::TextDelta(t) => if t@.len() == 0 {
            (v, None)
        } else {
            (
                append_to_row_spec(start_assistant_spec(v).0, start_assistant_spec(v).1, t@),
                Some(start_assistant_spec(v).1),
            )
        },
        AgentEvent::ReasoningDelta(t) => if t@.len() == 0 {
            (v, None)
        } else {
            (
                append_to_row_spec(start_reasoning_spec(v).0, start_reasoning_spec(v).1, t@),
                Some(start_reasoning_spec(v).1),
            )
        },
        AgentEvent::MessageFinished { .. } => (finish_assistant_spec(v), None),
        AgentEvent::ToolCallStarted(tool) => (
            push_spec(
                v,
                MobileTimelineItemKind::ToolCall,
                MobileTimelineItemStatus::Running,
                "Tool: "@ + tool.name@,
                tool.args@,
            ),
            Some(timeline_id(v.next_id + 1)),
        ),
        AgentEvent::ToolCallFinished(r) => {
            let w = tool_metadata_rows(seal_tool_spec(v, r.name@), r);
            (
                push_spec(
                    w,
                    MobileTimelineItemKind::ToolCall,
                    if r.success {
                        MobileTimelineItemStatus::Done
                    } else {
                        MobileTimelineItemStatus::Failed
                    },
                    "Tool result: "@ + r.name@,
                    r.output@,
                ),
                Some(timeline_id(w.next_id + 1)),
            )
        },
        AgentEvent::ApprovalRequired(req) => (
            push_with_id_spec(
                v,
                req.id@,
                MobileTimelineItemKind::Approval,
                MobileTimelineItemStatus::WaitingForApproval,
                req.title@,
                req.description@ + "\nrisk="@ + risk_text(req.risk_level),
            ),
            Some(req.id@),
        ),
        AgentEvent::PatchProposed(p) => (
            push_spec(
                v,
                MobileTimelineItemKind::ToolCall,
                MobileTimelineItemStatus::WaitingForApproval,
                "Patch proposed: "@ + p.file_path@,
                p.diff@,
            ),
            Some(timeline_id(v.next_id + 1)),
        ),
        AgentEvent::SessionUpdated { message_count, model, workspace } => (
            push_spec(
                v,
                MobileTimelineItemKind::Status,
                MobileTimelineItemStatus::Done,
                "Session updated"@,
                "messages="@ + decimal(message_count as nat) + " model="@ + model@ + " workspace="@ + workspace@,
            ),
            Some(timeline_id(v.next_id + 1)),
        ),
        AgentEvent::TermuxExecutionPending { call_id } => (
            push_spec(
                v,
                MobileTimelineItemKind::Status,
                MobileTimelineItemStatus::Running,
                "Termux execution pending"@,
                "tool_call_id="@ + call_id@ + " — waiting for Android Termux bridge to complete"@,
            ),
            Some(timeline_id(v.next_id + 1)),
        ),
        AgentEvent::Error(m) => {
            let w = sealed(fail_assistant_spec(v));
            (
                push_spec(w, MobileTimelineItemKind::Error, MobileTimelineItemStatus::Failed, "Agent error"@, m@),
                Some(timeline_id(w.next_id + 1)),
            )
        },
        AgentEvent::Finished => (sealed(finish_assistant_spec(v)), None),
    }
}

fn push_tool_metadata_rows(timeline: &mut MobileTimelineState, r: &ToolResultEvent)
    requires
        old(timeline)@.next_id + 3 <= u64::MAX,
    ensures
        final(timeline)@ == tool_metadata_rows(old(timeline)@, *r),
        final(timeline)@.next_id <= old(timeline)@.next_id + 3,
{
    match &r.pre_snapshot {
        Some(s) => {
            let mut body = s.id.clone();
            body.append(" · ");
            push_decimal(&mut body, s.file_count as u128);
            body.append(" file(s) · ");
            push_decimal(&mut body, s.total_bytes as u128);
            body.append(" bytes");
            let _ = timeline.push(
                MobileTimelineItemKind::Status,
                MobileTimelineItemStatus::Done,
                "Safety snapshot",
                body.as_str(),
            );
        },
        None => {},
    }
    match &r.metadata {
        Some(m) => {
            let pending = match get(m, "termux_execution_pending") {
                Some(p) => crate::json::as_bool(p),
                None => None,
            };
            if pending == Some(true) {
                match get_str(m, "termux_request_id") {
                    Some(rid) => {
                        let mut body = owned("request_id=");
                        body.append(rid);
                        let _ = timeline.push(
                            MobileTimelineItemKind::Status,
                            MobileTimelineItemStatus::Running,
                            "Termux native execution queued",
                            body.as_str(),
                        );
                    },
                    None => {},
                }
            }
            match get_str(m, "post_edit_diagnostics_summary") {
                Some(summary) => {
                    let _ = timeline.push(
                        MobileTimelineItemKind::Status,
                        MobileTimelineItemStatus::Done,
                        "Post-edit diagnostics",
                        summary,
                    );
                },
                None => {},
            }
        },
        None => {},
    }
}

fn seal_turn(timeline: &mut MobileTimelineState)
    ensures
        final(timeline)@ == sealed(old(timeline)@),
{
    timeline.seal_open_work_items();
}

/// Shows an agent event on the timeline and returns the id of the row it
/// added or changed, if any.
pub fn push_agent_event(timeline: &mut MobileTimelineState, event: &AgentEvent) -> (r: Option<String>)
    requires
        old(timeline)@.next_id + 4 <= u64::MAX,
    ensures
        (final(timeline)@, crate::agent_timeline::opt_view(r)) == agent_event_spec(old(timeline)@, *event),
{
    match event {
        AgentEvent::Started | AgentEvent::TurnStarted => None,
        AgentEvent::Status(message) => {
            if skip_status_timeline_line(message.as_str()) {
                return None;
            }
            timeline.seal_agent_status_items();
            let status = if MobileTimelineState::status_message_is_terminal(message.as_str()) {
                MobileTimelineItemStatus::Done
            } else {
                MobileTimelineItemStatus::Running
            };
            Some(timeline.push(MobileTimelineItemKind::Status, status, "Agent status", message.as_str()))
        },
        AgentEvent::TurnFinished { turn_id, status, usage, error } => {
            if error.is_some() {
                timeline.fail_live_assistant_message();
            } else {
                timeline.finish_live_assistant_message();
            }
            seal_turn(timeline);
            let mut body = owned("turn_id=");
            body.append(turn_id.as_str());
            body.append(" status=");
            body.append(status.as_str());
            body.append(" input_tokens=");
            push_decimal(&mut body, usage.input_tokens as u128);
            body.append(" output_tokens=");
            push_decimal(&mut body, usage.output_tokens as u128);
            body.append(" reasoning_tokens=");
            push_decimal(&mut body, usage.reasoning_tokens as u128);
            body.append(" total_tokens=");
            push_decimal(
                &mut body,
                usage.input_tokens as u128 + usage.output_tokens as u128 + usage.reasoning_tokens as u128,
            );
            match error {
                Some(e) => {
                    body.append(" error=");
                    body.append(e.as_str());
                },
                None => {},
            }
            assert(body@ =~= turn_summary(
                turn_id@,
                status@,
                *usage,
                match error {
                    Some(x) => Some(x@),
                    None => None,
                },
            ));
            let st = if error.is_some() {
                MobileTimelineItemStatus::Failed
            } else {
                MobileTimelineItemStatus::Done
            };
            Some(timeline.push(MobileTimelineItemKind::Status, st, "Turn finished", body.as_str()))
        },
        AgentEvent::MessageStarted { role, .. } => {
            if str_eq(role.as_str(), "assistant") {
                let _ = timeline.start_live_assistant_message();
            }
            None
        },
        AgentEvent::TextDelta(text) => {
            if text.as_str().is_empty() {
                None
            } else {
                Some(timeline.append_live_assistant_delta(text.as_str()))
            }
        },
        AgentEvent::ReasoningDelta(text) => {
            if text.as_str().is_empty() {
                None
            } else {
                Some(timeline.append_live_reasoning_delta(text.as_str()))
            }
        },
        AgentEvent::MessageFinished { .. } => {
            timeline.finish_live_assistant_message();
            None
        },
        AgentEvent::ToolCallStarted(tool) => {
            let mut title = owned("Tool: ");
            title.append(tool.name.as_str());
            Some(
                timeline.push(
                    MobileTimelineItemKind::ToolCall,
                    MobileTimelineItemStatus::Running,
                    title.as_str(),
                    tool.args.as_str(),
                ),
            )
        },
        AgentEvent::ToolCallFinished(result) => {
            timeline.seal_tool_call(result.name.as_str());
            push_tool_metadata_rows(timeline, result);
            let mut title = owned("Tool result: ");
            title.append(result.name.as_str());
            let st = if result.success {
                MobileTimelineItemStatus::Done
            } else {
                MobileTimelineItemStatus::Failed
            };
            Some(timeline.push(MobileTimelineItemKind::ToolCall, st, title.as_str(), result.output.as_str()))
        },
        AgentEvent::ApprovalRequired(request) => {
            let mut body = request.description.clone();
            body.append("\nrisk=");
            body.append(risk_label(&request.risk_level));
            Some(
                timeline.push_with_id(
                    request.id.as_str(),
                    MobileTimelineItemKind::Approval,
                    MobileTimelineItemStatus::WaitingForApproval,
                    request.title.as_str(),
                    body.as_str(),
                ),
            )
        },
        AgentEvent::PatchProposed(patch) => {
            let mut title = owned("Patch proposed: ");
            title.append(patch.file_path.as_str());
            Some(
                timeline.push(
                    MobileTimelineItemKind::ToolCall,
                    MobileTimelineItemStatus::WaitingForApproval,
                    title.as_str(),
                    patch.diff.as_str(),
                ),
            )
        },
        AgentEvent::SessionUpdated { message_count, model, workspace } => {
            let mut body = owned("messages=");
            push_decimal(&mut body, *message_count as u128);
            body.append(" model=");
            body.append(model.as_str());
            body.append(" workspace=");
            body.append(workspace.as_str());
            Some(
                timeline.push(
                    MobileTimelineItemKind::Status,
                    MobileTimelineItemStatus::Done,
                    "Session updated",
                    body.as_str(),
                ),
            )
        },
        AgentEvent::TermuxExecutionPending { call_id } => {
            let mut body = owned("tool_call_id=");
            body.append(call_id.as_str());
            body.append(" — waiting for Android Termux bridge to complete");
            Some(
                timeline.push(
                    MobileTimelineItemKind::Status,
                    MobileTimelineItemStatus::Running,
                    "Termux execution pending",
                    body.as_str(),
                ),
            )
        },
        AgentEvent::Error(message) => {
            timeline.fail_live_assistant_message();
            seal_turn(timeline);
            Some(
                timeline.push(
                    MobileTimelineItemKind::Error,
                    MobileTimelineItemStatus::Failed,
                    "Agent error",
                    message.as_str(),
                ),
            )
        },
        AgentEvent::Finished => {
            timeline.finish_live_assistant_message();
            seal_turn(timeline);
            None
        },
    }
}

/// Two streamed text pieces land in the same assistant row as the one piece
/// made of both: the reply streams into one message.
pub proof fn lemma_text_deltas_merge(v: TimelineView, a: String, b: String, c: String)
    requires
        a@.len() > 0,
        b@.len() > 0,
        c@ == a@ + b@,
    ensures
        agent_event_spec(agent_event_spec(v, AgentEvent::TextDelta(a)).0, AgentEvent::TextDelta(b)).0
            == agent_event_spec(v, AgentEvent::TextDelta(c)).0,
        agent_event_spec(agent_event_spec(v, AgentEvent::TextDelta(a)).0, AgentEvent::TextDelta(b)).1
            == agent_event_spec(v, AgentEvent::TextDelta(a)).1,
{
    let (w, id) = start_assistant_spec(v);
    let x = append_to_row_spec(w, id, a@);
    assert(x.live_assistant == Some(id));
    assert(start_assistant_spec(x) == (x, id));
    crate::timeline_laws::lemma_deltas_concatenate(w, id, a@, b@);
}

/// Two streamed reasoning pieces land in the same reasoning row as the one
/// piece made of both.
pub proof fn lemma_reasoning_deltas_merge(v: TimelineView, a: String, b: String, c: String)
    requires
        a@.len() > 0,
        b@.len() > 0,
        c@ == a@ + b@,
    ensures
        agent_event_spec(agent_event_spec(v, AgentEvent::ReasoningDelta(a)).0, AgentEvent::ReasoningDelta(b)).0
            == agent_event_spec(v, AgentEvent::ReasoningDelta(c)).0,
{
    let (w, id) = start_reasoning_spec(v);
    let x = append_to_row_spec(w, id, a@);
    assert(x.live_reasoning == Some(id));
    assert(start_reasoning_spec(x) == (x, id));
    crate::timeline_laws::lemma_deltas_concatenate(w, id, a@, b@);
}

/// After a turn finishes, fails with an error, or the run finishes, no
/// status, tool or native command row is left pending or running.
pub proof fn lemma_turn_end_leaves_no_open_work(v: TimelineView, e: AgentEvent)
    requires
        e is TurnFinished || e is Error || e is Finished,
    ensures
        forall|i: int|
            0 <= i < agent_event_spec(v, e).0.items.len() ==> !crate::agent_timeline::is_open_work_item(
                #[trigger] agent_event_spec(v, e).0.items[i],
            ),
{
    let w = match e {
        AgentEvent::TurnFinished { error, .. } => sealed(
            if error is Some {
                fail_assistant_spec(v)
            } else {
                finish_assistant_spec(v)
            },
        ),
        AgentEvent::Error(_) => sealed(fail_assistant_spec(v)),
        _ => sealed(finish_assistant_spec(v)),
    };
    let base = match e {
        AgentEvent::TurnFinished { error, .. } => if error is Some {
            fail_assistant_spec(v)
        } else {
            finish_assistant_spec(v)
        },
        AgentEvent::Error(_) => fail_assistant_spec(v),
        _ => finish_assistant_spec(v),
    };
    crate::timeline_laws::lemma_seal_closes_all_work(finish_reasoning_spec(finish_assistant_spec(base)).items);
    let r = agent_event_spec(v, e).0;
    assert forall|i: int| 0 <= i < r.items.len() implies !crate::agent_timeline::is_open_work_item(
        #[trigger] r.items[i],
    ) by {
        if i < w.items.len() {
            assert(r.items[i] == w.items[i]);
        }
    }
}

/// A finished tool call ends with one new row at the bottom: the
/// `Tool result: {name}` tool row showing the output, which is failed exactly
/// when the call did not succeed and done exactly when it did; its id is the
/// one returned.
pub proof fn lemma_tool_result_row(v: TimelineView, r: ToolResultEvent)
    ensures
        ({
            let (w, id) = agent_event_spec(v, AgentEvent::ToolCallFinished(r));
            &&& w.items.len() > 0
            &&& w.items.last().kind == MobileTimelineItemKind::ToolCall
            &&& w.items.last().title == "Tool result: "@ + r.name@
            &&& w.items.last().body == r.output@
            &&& (w.items.last().status == MobileTimelineItemStatus::Failed <==> !r.success)
            &&& (w.items.last().status == MobileTimelineItemStatus::Done <==> r.success)
            &&& id == Some(w.items.last().id)
        }),
{
}

} // verus!
