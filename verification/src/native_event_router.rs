//! Where a platform event lands: the bridge records it, and the composer,
//! the picker, the pairing screen and the timeline each take their part.
use crate::agent_timeline::{
    fail_assistant_spec, push_spec, seal_agent_status_spec, MobileTimelineItemKind, MobileTimelineItemStatus,
    MobileTimelineState, TimelineView,
};
use crate::chat_attachment::{attachments_view, picked_attachment, ChatAttachmentView, ChatComposerState};
use crate::document_picker::{DocumentPickerState, PickedDocumentView};
use crate::native_bridge::{after_event, NativeBridgeState, NativeBridgeView, NativeMobileEvent, NativeMobileEventView};
use crate::pc_pairing_state::{PcPairingUiState, PcPairingUiStatusView, PcPairingUiView};
use crate::text::{chars_of, decimal, owned, push_decimal};
use vstd::prelude::*;

verus! {

broadcast use vstd::string::group_string_axioms;

/// The states after an event was routed.
#[derive(Clone, Debug, PartialEq, Eq)]
pub struct NativeEventRouteResult {
    pub composer: ChatComposerState,
    pub picker: DocumentPickerState,
    pub native_bridge: NativeBridgeState,
    pub pc_pairing: PcPairingUiState,
    pub timeline: MobileTimelineState,
}

/// The number of bytes of a character in UTF-8.
pub open spec fn utf8_width(c: char) -> nat {
    if (c as u32) < 0x80 {
        1
    } else if (c as u32) < 0x800 {
        2
    } else if (c as u32) < 0x10000 {
        3
    } else {
        4
    }
}

/// The number of bytes of a text in UTF-8 (`str::len`).
pub open spec fn utf8_len(s: Seq<char>) -> nat
    decreases s.len(),
{
    if s.len() == 0 {
        0
    } else {
        utf8_len(s.drop_last()) + utf8_width(s.last())
    }
}

/// The number of bytes of a text in UTF-8.
pub fn byte_len(s: &str) -> (r: u128)
    ensures
        r == utf8_len(s@),
{
    let chars = chars_of(s);
    let mut n: u128 = 0;
    let mut i: usize = 0;
    while i < chars.len()
        invariant
            i <= chars.len(),
            n == utf8_len(chars@.take(i as int)),
            n <= 4 * i,
            chars@ == s@,
        decreases chars.len() - i,
    {
        let c = chars[i];
        assert(chars@.take(i + 1).drop_last() == chars@.take(i as int));
        assert(chars@.take(i + 1).last() == c);
        let w: u128 = if (c as u32) < 0x80 {
            1
        } else if (c as u32) < 0x800 {
            2
        } else if (c as u32) < 0x10000 {
            3
        } else {
            4
        };
        n = n + w;
        i = i + 1;
    }
    assert(chars@.take(chars.len() as int) == chars@);
    n
}

/// A signed number in decimal, with a leading `-` when negative.
pub open spec fn signed_decimal(n: i32) -> Seq<char> {
    if n < 0 {
        "-"@ + decimal((-n) as nat)
    } else {
        decimal(n as nat)
    }
}

fn push_signed(s: &mut String, n: i32)
    ensures
        final(s)@ == old(s)@ + signed_decimal(n),
{
    if n < 0 {
        s.append("-");
        let m: i64 = -(n as i64);
        push_decimal(s, m as u128);
    } else {
        push_decimal(s, n as u128);
    }
}

/// A status line pushed after the running agent status lines are sealed.
pub open spec fn status_pushed(v: TimelineView, body: Seq<char>) -> TimelineView {
    push_spec(
        seal_agent_status_spec(v),
        MobileTimelineItemKind::Status,
        MobileTimelineItemStatus::Running,
        "Agent status"@,
        body,
    )
}

/// An error row pushed after the live assistant row fails.
pub open spec fn error_pushed(v: TimelineView, body: Seq<char>) -> TimelineView {
    push_spec(fail_assistant_spec(v), MobileTimelineItemKind::Error, MobileTimelineItemStatus::Failed, "Error"@, body)
}

/// One attachment row per picked document, in order.
pub open spec fn attachment_rows(v: TimelineView, docs: Seq<PickedDocumentView>) -> TimelineView
    decreases docs.len(),
{
    if docs.len() == 0 {
        v
    } else {
        push_spec(
            attachment_rows(v, docs.drop_last()),
            MobileTimelineItemKind::Attachment,
            MobileTimelineItemStatus::Done,
            "Attachment added"@,
            docs.last().display_name,
        )
    }
}

/// How many rows routing an event adds to the timeline.
pub open spec fn rows_added(e: NativeMobileEventView) -> nat {
    match e {
        NativeMobileEventView::DocumentsPicked(docs) => docs.len() + 1,
        NativeMobileEventView::TermuxCommandCompleted(_) => 0,
        NativeMobileEventView::TermuxCommandFailed { .. } => 0,
        _ => 1,
    }
}

/// The timeline after an event: a status or error line that says what
/// happened, after one attachment row per picked document. Termux events
/// leave it alone.
pub open spec fn routed_timeline(v: TimelineView, e: NativeMobileEventView) -> TimelineView {
    match e {
        NativeMobileEventView::DocumentsPicked(docs) => if docs.len() == 0 {
            status_pushed(v, "Document picker returned no files"@)
        } else {
            status_pushed(attachment_rows(v, docs), "Android document picker files attached to chat composer"@)
        },
        NativeMobileEventView::DocumentPickerCancelled => status_pushed(v, "Android document picker cancelled"@),
        NativeMobileEventView::DocumentPickerFailed(m) => error_pushed(v, "Android document picker failed: "@ + m),
        NativeMobileEventView::PcGatewayDiscoveryStarted { service_type, .. } => status_pushed(
            v,
            "Android PC gateway discovery started: "@ + service_type,
        ),
        NativeMobileEventView::PcGatewayDiscoveryUpdated(r) => status_pushed(
            v,
            "Android PC gateway discovery candidate update: "@ + decimal(r.len()) + " candidate(s)"@,
        ),
        NativeMobileEventView::PcGatewayDiscoveryCompleted(r) => status_pushed(
            v,
            "Android PC gateway discovery completed: "@ + decimal(r.len()) + " candidate(s)"@,
        ),
        NativeMobileEventView::PcGatewayDiscoveryFailed(m) => error_pushed(
            v,
            "Android PC gateway discovery failed: "@ + m,
        ),
        NativeMobileEventView::FileShared => status_pushed(v, "Native share completed"@),
        NativeMobileEventView::ShareFailed(m) => error_pushed(v, "Native share failed: "@ + m),
        NativeMobileEventView::TerminalOpened { session_id, title, cwd } => status_pushed(
            v,
            "Terminal session opened: "@ + session_id + " ("@ + title + " - "@ + cwd + ")"@,
        ),
        NativeMobileEventView::TerminalOutput { session_id, chunk } => status_pushed(
            v,
            "Terminal "@ + session_id + " output: "@ + decimal(utf8_len(chunk)) + " char(s)"@,
        ),
        NativeMobileEventView::TerminalClosed { session_id, exit_code } => status_pushed(
            v,
            "Terminal "@ + session_id + " closed (exit code: "@ + match exit_code {
                Some(c) => signed_decimal(c),
                None => "unknown"@,
            } + ")"@,
        ),
        NativeMobileEventView::TerminalFailed { session_id, message } => error_pushed(
            v,
            "Terminal "@ + match session_id {
                Some(s) => s,
                None => "unknown"@,
            } + " failed: "@ + message,
        ),
        _ => v,
    }
}

/// The pairing screen after an event: a started browse waits for the PC; the
/// records of a browse are candidates not yet probed, so the screen waits
/// when there are some and is offline otherwise; a failed browse is an error.
pub open spec fn routed_pairing(p: PcPairingUiView, e: NativeMobileEventView) -> PcPairingUiView {
    match e {
        NativeMobileEventView::PcGatewayDiscoveryStarted { .. } => PcPairingUiView {
            status: PcPairingUiStatusView::WaitingForPc,
            last_error: None,
            ..p
        },
        NativeMobileEventView::PcGatewayDiscoveryUpdated(r) => discovery_records_applied(p, r.len()),
        NativeMobileEventView::PcGatewayDiscoveryCompleted(r) => discovery_records_applied(p, r.len()),
        NativeMobileEventView::PcGatewayDiscoveryFailed(m) => PcPairingUiView {
            status: PcPairingUiStatusView::Error(m),
            last_error: Some(m),
            ..p
        },
        _ => p,
    }
}

/// The pairing screen after a browse found `n` records.
pub open spec fn discovery_records_applied(p: PcPairingUiView, n: nat) -> PcPairingUiView {
    if n > 0 {
        PcPairingUiView { status: PcPairingUiStatusView::WaitingForPc, last_error: None, ..p }
    } else {
        PcPairingUiView { status: PcPairingUiStatusView::Offline, ..p }
    }
}

/// The composer's attachments after an event: the picked documents added.
pub open spec fn routed_attachments(a: Seq<ChatAttachmentView>, e: NativeMobileEventView) -> Seq<ChatAttachmentView> {
    match e {
        NativeMobileEventView::DocumentsPicked(docs) => a + docs.map_values(|d: PickedDocumentView| picked_attachment(d)),
        _ => a,
    }
}

fn push_status_line(timeline: &mut MobileTimelineState, body: &str)
    requires
        old(timeline)@.next_id < u64::MAX,
    ensures
        final(timeline)@ == status_pushed(old(timeline)@, body@),
{
    let _ = timeline.push_status(body);
}

fn push_error_line(timeline: &mut MobileTimelineState, body: &str)
    requires
        old(timeline)@.next_id < u64::MAX,
    ensures
        final(timeline)@ == error_pushed(old(timeline)@, body@),
{
    let _ = timeline.push_error(body);
}

/// Routes a platform event: the bridge accepts it, then the composer,
/// picker, pairing screen and timeline take their part.
pub fn route_native_mobile_event(
    composer: ChatComposerState,
    picker: DocumentPickerState,
    native_bridge: NativeBridgeState,
    pc_pairing: PcPairingUiState,
    timeline: MobileTimelineState,
    event: NativeMobileEvent,
) -> (r: NativeEventRouteResult)
    requires
        timeline@.next_id + rows_added(event@) <= u64::MAX,
    ensures
        r.native_bridge@ == after_event(native_bridge@, event@),
        r.timeline@ == routed_timeline(timeline@, event@),
        r.pc_pairing@ == routed_pairing(pc_pairing@, event@),
        r.composer.draft_text@ == composer.draft_text@,
        attachments_view(r.composer.attachments@) == routed_attachments(attachments_view(composer.attachments@), event@),
        match event@ {
            NativeMobileEventView::DocumentsPicked(_) | NativeMobileEventView::DocumentPickerCancelled =>
                r.picker.pending_request is None && r.picker.last_error is None,
            NativeMobileEventView::DocumentPickerFailed(m) => r.picker.pending_request is None
                && crate::agent_timeline::opt_view(r.picker.last_error) == Some(m),
            _ => r.picker == picker,
        },
{
    let mut composer = composer;
    let mut picker = picker;
    let mut native_bridge = native_bridge;
    let mut pc_pairing = pc_pairing;
    let mut timeline = timeline;
    let ghost e = event@;
    native_bridge.accept_event(event.duplicate());
    match event {
        NativeMobileEvent::DocumentsPicked(documents) => {
            if documents.len() == 0 {
                push_status_line(&mut timeline, "Document picker returned no files");
                assert(routed_attachments(attachments_view(composer.attachments@), e) =~= attachments_view(
                    composer.attachments@,
                ));
            } else {
                let ghost docs = crate::native_bridge::documents_view(documents@);
                let ghost t0 = timeline@;
                let ghost a0 = attachments_view(composer.attachments@);
                let ghost draft0 = composer.draft_text@;
                let mut rest = documents;
                let ghost mut i: int = 0;
                assert(docs.take(0) =~= Seq::<PickedDocumentView>::empty());
                while rest.len() > 0
                    invariant
                        0 <= i <= docs.len(),
                        rest@.len() == docs.len() - i,
                        forall|k: int| 0 <= k < rest@.len() ==> (#[trigger] rest@[k])@ == docs[i + k],
                        timeline@ == attachment_rows(t0, docs.take(i)),
                        timeline@.next_id == t0.next_id + i,
                        t0.next_id + docs.len() + 1 <= u64::MAX,
                        attachments_view(composer.attachments@) == a0 + docs.take(i).map_values(
                            |d: PickedDocumentView| picked_attachment(d),
                        ),
                        composer.draft_text@ == draft0,
                    decreases rest.len(),
                {
                    let ghost before_rest = rest@;
                    let d = rest.remove(0);
                    assert(d@ == docs[i]);
                    assert forall|k: int| 0 <= k < rest@.len() implies (#[trigger] rest@[k])@ == docs[i + 1 + k] by {
                        assert(rest@[k] == before_rest[k + 1]);
                    }
                    let _ = timeline.push_attachment(d.display_name.as_str());
                    let ghost before_a = attachments_view(composer.attachments@);
                    composer.add_picked_document(d);
                    assert(docs.take(i + 1).drop_last() == docs.take(i));
                    assert(docs.take(i + 1).last() == docs[i]);
                    assert(docs.take(i + 1).map_values(|d: PickedDocumentView| picked_attachment(d)) =~= docs.take(
                        i,
                    ).map_values(|d: PickedDocumentView| picked_attachment(d)).push(picked_attachment(docs[i])));
                    proof {
                        i = i + 1;
                    }
                }
                assert(docs.take(i) == docs);
                push_status_line(&mut timeline, "Android document picker files attached to chat composer");
            }
            picker.complete();
        },
        NativeMobileEvent::DocumentPickerCancelled => {
            push_status_line(&mut timeline, "Android document picker cancelled");
            picker.complete();
        },
        NativeMobileEvent::DocumentPickerFailed(error) => {
            let mut m = owned("Android document picker failed: ");
            m.append(error.as_str());
            push_error_line(&mut timeline, m.as_str());
            picker.fail(error.as_str());
        },
        NativeMobileEvent::PcGatewayDiscoveryStarted { service_type, .. } => {
            pc_pairing.mark_waiting_for_pc();
            let mut m = owned("Android PC gateway discovery started: ");
            m.append(service_type.as_str());
            push_status_line(&mut timeline, m.as_str());
        },
        NativeMobileEvent::PcGatewayDiscoveryUpdated(records) => {
            let count = records.len();
            pc_pairing.apply_discovery_result(false, count > 0);
            let mut m = owned("Android PC gateway discovery candidate update: ");
            push_decimal(&mut m, count as u128);
            m.append(" candidate(s)");
            push_status_line(&mut timeline, m.as_str());
        },
        NativeMobileEvent::PcGatewayDiscoveryCompleted(records) => {
            let count = records.len();
            pc_pairing.apply_discovery_result(false, count > 0);
            let mut m = owned("Android PC gateway discovery completed: ");
            push_decimal(&mut m, count as u128);
            m.append(" candidate(s)");
            push_status_line(&mut timeline, m.as_str());
        },
        NativeMobileEvent::PcGatewayDiscoveryFailed(error) => {
            pc_pairing.set_error(error.as_str());
            let mut m = owned("Android PC gateway discovery failed: ");
            m.append(error.as_str());
            push_error_line(&mut timeline, m.as_str());
        },
        NativeMobileEvent::FileShared => {
            push_status_line(&mut timeline, "Native share completed");
        },
        NativeMobileEvent::ShareFailed(error) => {
            let mut m = owned("Native share failed: ");
            m.append(error.as_str());
            push_error_line(&mut timeline, m.as_str());
        },
        NativeMobileEvent::TerminalOpened { session_id, title, cwd } => {
            let mut m = owned("Terminal session opened: ");
            m.append(session_id.as_str());
            m.append(" (");
            m.append(title.as_str());
            m.append(" - ");
            m.append(cwd.as_str());
            m.append(")");
            push_status_line(&mut timeline, m.as_str());
        },
        NativeMobileEvent::TerminalOutput { session_id, chunk } => {
            let mut m = owned("Terminal ");
            m.append(session_id.as_str());
            m.append(" output: ");
            push_decimal(&mut m, byte_len(chunk.as_str()));
            m.append(" char(s)");
            push_status_line(&mut timeline, m.as_str());
        },
        NativeMobileEvent::TerminalClosed { session_id, exit_code } => {
            let mut m = owned("Terminal ");
            m.append(session_id.as_str());
            m.append(" closed (exit code: ");
            match exit_code {
                Some(c) => push_signed(&mut m, c),
                None => m.append("unknown"),
            }
            m.append(")");
            push_status_line(&mut timeline, m.as_str());
        },
        NativeMobileEvent::TerminalFailed { session_id, message } => {
            let mut m = owned("Terminal ");
            match &session_id {
                Some(s) => m.append(s.as_str()),
                None => m.append("unknown"),
            }
            m.append(" failed: ");
            m.append(message.as_str());
            push_error_line(&mut timeline, m.as_str());
        },
        NativeMobileEvent::TermuxCommandCompleted(_) => {},
        NativeMobileEvent::TermuxCommandFailed { .. } => {},
    }
    NativeEventRouteResult { composer, picker, native_bridge, pc_pairing, timeline }
}

} // verus!
