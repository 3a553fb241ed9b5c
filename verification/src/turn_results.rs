//! What the chat shows when an agent turn, or the continuation after an
//! approval, comes back.
use crate::agent_event_adapter::{agent_event_spec, push_agent_event, status_event_spec, AgentEvent};
use crate::agent_timeline::{
    finish_assistant_spec, finish_reasoning_spec, publish_reply_spec, push_spec, retain_recent_spec,
    seal_agent_status_spec, seal_work_rows, MobileTimelineItemKind, MobileTimelineItemStatus, MobileTimelineState,
    TimelineView,
};
use crate::text::owned;
use vstd::prelude::*;

verus! {

broadcast use vstd::string::group_string_axioms;

/// How many rows the chat keeps after a turn.
pub const KEPT_ROWS_AFTER_TURN: usize = 120;

/// The status line asking the user to confirm a pending approval.
pub const APPROVAL_NEEDED_STATUS: &'static str = "Нужно подтверждение: нажмите карточку одобрения выше.";

/// The status line after an approval continuation.
pub const CONTINUATION_FINISHED_STATUS: &'static str = "Approval continuation finished";

/// The messages as (role, text) values.
pub open spec fn messages_view(m: Seq<(String, String)>) -> Seq<(Seq<char>, Seq<char>)> {
    m.map_values(|p: (String, String)| (p.0@, p.1@))
}

/// The live rows ended and open work rows sealed.
pub open spec fn sealed_view(v: TimelineView) -> TimelineView {
    let w = finish_reasoning_spec(finish_assistant_spec(v));
    TimelineView { items: seal_work_rows(w.items), ..w }
}

/// The done line of a turn.
pub open spec fn done_line(workspace_root: Seq<char>, thread_id: Seq<char>) -> Seq<char> {
    "Готово · workspace: "@ + workspace_root + " · thread: "@ + thread_id
}

/// The timeline after a turn: the live reply ends and the final text is
/// published; the status lines close with a done line (and a request to
/// confirm when approvals wait); work rows are sealed and only the newest
/// `KEPT_ROWS_AFTER_TURN` rows are kept.
pub open spec fn turn_timeline(
    v: TimelineView,
    final_text: Option<Seq<char>>,
    workspace_root: Seq<char>,
    thread_id: Seq<char>,
    pending_approvals: bool,
) -> TimelineView {
    let a = finish_assistant_spec(v);
    let b = match final_text {
        Some(t) => publish_reply_spec(a, t),
        None => a,
    };
    let c = push_spec(
        seal_agent_status_spec(b),
        MobileTimelineItemKind::Status,
        MobileTimelineItemStatus::Done,
        "Agent status"@,
        done_line(workspace_root, thread_id),
    );
    let d = if pending_approvals {
        status_event_spec(c, APPROVAL_NEEDED_STATUS@).0
    } else {
        c
    };
    retain_recent_spec(sealed_view(d), KEPT_ROWS_AFTER_TURN as nat)
}

fn publish_if_any(timeline: &mut MobileTimelineState, final_text: &Option<String>)
    requires
        old(timeline)@.next_id < u64::MAX,
    ensures
        final(timeline)@ == match final_text {
            Some(t) => publish_reply_spec(old(timeline)@, t@),
            None => old(timeline)@,
        },
        final(timeline)@.next_id <= old(timeline)@.next_id + 1,
{
    match final_text {
        Some(t) => timeline.publish_assistant_reply(t.as_str()),
        None => {},
    }
}

/// Shows a finished agent turn: the final text joins the messages and the
/// timeline as `turn_timeline` says.
pub fn apply_mobile_turn_ui_result(
    messages: &mut Vec<(String, String)>,
    timeline: &mut MobileTimelineState,
    final_text: Option<String>,
    workspace_root: &str,
    thread_id: &str,
    has_pending_approvals: bool,
)
    requires
        old(timeline)@.next_id + 6 <= u64::MAX,
    ensures
        messages_view(final(messages)@) == match final_text {
            Some(t) => messages_view(old(messages)@).push(("assistant"@, t@)),
            None => messages_view(old(messages)@),
        },
        final(timeline)@ == turn_timeline(
            old(timeline)@,
            match final_text {
                Some(t) => Some(t@),
                None => None,
            },
            workspace_root@,
            thread_id@,
            has_pending_approvals,
        ),
{
    match &final_text {
        Some(t) => {
            let ghost before = messages@;
            messages.push((owned("assistant"), t.clone()));
            assert(messages_view(messages@) =~= messages_view(before).push(("assistant"@, t@)));
        },
        None => {},
    }
    timeline.finish_live_assistant_message();
    publish_if_any(timeline, &final_text);
    timeline.seal_agent_status_items();
    let mut line = owned("Готово · workspace: ");
    line.append(workspace_root);
    line.append(" · thread: ");
    line.append(thread_id);
    let _ = timeline.push(MobileTimelineItemKind::Status, MobileTimelineItemStatus::Done, "Agent status", line.as_str());
    if has_pending_approvals {
        let event = AgentEvent::Status(owned(APPROVAL_NEEDED_STATUS));
        let _ = push_agent_event(timeline, &event);
    }
    timeline.seal_open_work_items();
    timeline.retain_recent(KEPT_ROWS_AFTER_TURN);
}

/// Shows the end of an approval continuation: a status line says it
/// finished (its events were shown while it ran), work rows are sealed, and
/// the final text joins the messages.
pub fn apply_approval_continuation_ui(
    timeline: &mut MobileTimelineState,
    messages: &mut Vec<(String, String)>,
    final_text: Option<String>,
)
    requires
        old(timeline)@.next_id + 4 <= u64::MAX,
    ensures
        final(timeline)@ == sealed_view(status_event_spec(old(timeline)@, CONTINUATION_FINISHED_STATUS@).0),
        messages_view(final(messages)@) == match final_text {
            Some(t) => messages_view(old(messages)@).push(("assistant"@, t@)),
            None => messages_view(old(messages)@),
        },
{
    let event = AgentEvent::Status(owned(CONTINUATION_FINISHED_STATUS));
    let _ = push_agent_event(timeline, &event);
    timeline.seal_open_work_items();
    match final_text {
        Some(t) => {
            let ghost before = messages@;
            let ghost tv = t@;
            messages.push((owned("assistant"), t));
            assert(messages_view(messages@) =~= messages_view(before).push(("assistant"@, tv)));
        },
        None => {},
    }
}

} // verus!
