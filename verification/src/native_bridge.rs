//! The queue of native commands for the platform host and the correlation of
//! the callbacks that answer them.
//!
//! The host drains commands one at a time; each callback is accepted only
//! for the request that is waiting for it, and every accepted event bumps the
//! event counter and records its error, if it carries one.
use crate::agent_timeline::opt_view;
use crate::document_picker::{DocumentPickerRequest, PickedDocument, PickedDocumentView};
use crate::native_document_picker::{
    command_for_request, picker_callback_event, picker_request_id, AndroidDocumentPickerCallback, AndroidDocumentPickerCommand,
};
use crate::native_pc_discovery::{
    copy_records, records_view, AndroidPcGatewayDiscoveryCallback, AndroidPcGatewayDiscoveryCommand,
    AndroidPcGatewayMdnsRecordPayload, MdnsRecordView, PC_GATEWAY_DISCOVERY_TIMEOUT_MS, PC_GATEWAY_SERVICE_TYPE,
};
use crate::native_termux::{
    copy_opt_string, termux_command_for, AndroidTermuxCallback, AndroidTermuxCommand, TermuxExecRequest, TermuxExecResult,
    TermuxExecResultView,
};
use crate::agent_event_adapter::AgentEvent;
use crate::host_callbacks::optional_member;
use crate::json::{get, get_str, json_get, json_str, json_u64, str_field, JsonValue};
use crate::native_termux::TermuxExecRequestView;
use crate::text::{decimal, is_blank, is_blank_str, join, join_strings, lemma_decimal_digits, owned, push_decimal};
use vstd::prelude::*;

verus! {

broadcast use vstd::string::group_string_axioms;

/// The MIME type of files shared from an export.
pub const SHARE_MIME_TYPE: &'static str = "application/zip";

/// A request for the platform host.
#[derive(Clone, Debug, PartialEq, Eq)]
pub enum NativeMobileCommand {
    OpenDocumentPicker(DocumentPickerRequest),
    StartPcGatewayDiscovery(AndroidPcGatewayDiscoveryCommand),
    ShareFile { path: String, mime_type: Option<String> },
    OpenUrl { url: String },
    LaunchApp { package: String },
    OpenSystemSettings,
    OpenTerminal { workspace_id: String },
    TerminalInput { session_id: String, input: String },
    CloseTerminal { session_id: String },
    RunTermuxCommand(TermuxExecRequest),
}

/// What the platform host reported.
#[derive(Clone, Debug, PartialEq, Eq)]
pub enum NativeMobileEvent {
    DocumentsPicked(Vec<PickedDocument>),
    DocumentPickerCancelled,
    DocumentPickerFailed(String),
    PcGatewayDiscoveryStarted { request_id: String, service_type: String },
    /// The service records found so far.
    PcGatewayDiscoveryUpdated(Vec<AndroidPcGatewayMdnsRecordPayload>),
    /// The service records found by a finished browse.
    PcGatewayDiscoveryCompleted(Vec<AndroidPcGatewayMdnsRecordPayload>),
    PcGatewayDiscoveryFailed(String),
    FileShared,
    ShareFailed(String),
    TerminalOpened { session_id: String, title: String, cwd: String },
    TerminalOutput { session_id: String, chunk: String },
    TerminalClosed { session_id: String, exit_code: Option<i32> },
    TerminalFailed { session_id: Option<String>, message: String },
    TermuxCommandCompleted(TermuxExecResult),
    TermuxCommandFailed { request_id: String, message: String },
}

/// An event as values.
pub enum NativeMobileEventView {
    DocumentsPicked(Seq<PickedDocumentView>),
    DocumentPickerCancelled,
    DocumentPickerFailed(Seq<char>),
    PcGatewayDiscoveryStarted { request_id: Seq<char>, service_type: Seq<char> },
    PcGatewayDiscoveryUpdated(Seq<MdnsRecordView>),
    PcGatewayDiscoveryCompleted(Seq<MdnsRecordView>),
    PcGatewayDiscoveryFailed(Seq<char>),
    FileShared,
    ShareFailed(Seq<char>),
    TerminalOpened { session_id: Seq<char>, title: Seq<char>, cwd: Seq<char> },
    TerminalOutput { session_id: Seq<char>, chunk: Seq<char> },
    TerminalClosed { session_id: Seq<char>, exit_code: Option<i32> },
    TerminalFailed { session_id: Option<Seq<char>>, message: Seq<char> },
    TermuxCommandCompleted(TermuxExecResultView),
    TermuxCommandFailed { request_id: Seq<char>, message: Seq<char> },
}

/// The documents as values.
pub open spec fn documents_view(v: Seq<PickedDocument>) -> Seq<PickedDocumentView> {
    v.map_values(|d: PickedDocument| d@)
}

impl View for NativeMobileEvent {
    type V = NativeMobileEventView;

    open spec fn view(&self) -> NativeMobileEventView {
        match self {
            NativeMobileEvent::DocumentsPicked(d) => NativeMobileEventView::DocumentsPicked(documents_view(d@)),
            NativeMobileEvent::DocumentPickerCancelled => NativeMobileEventView::DocumentPickerCancelled,
            NativeMobileEvent::DocumentPickerFailed(m) => NativeMobileEventView::DocumentPickerFailed(m@),
            NativeMobileEvent::PcGatewayDiscoveryStarted { request_id, service_type } =>
                NativeMobileEventView::PcGatewayDiscoveryStarted {
                    request_id: request_id@,
                    service_type: service_type@,
                },
            NativeMobileEvent::PcGatewayDiscoveryUpdated(r) => NativeMobileEventView::PcGatewayDiscoveryUpdated(
                records_view(r@),
            ),
            NativeMobileEvent::PcGatewayDiscoveryCompleted(r) => NativeMobileEventView::PcGatewayDiscoveryCompleted(
                records_view(r@),
            ),
            NativeMobileEvent::PcGatewayDiscoveryFailed(m) => NativeMobileEventView::PcGatewayDiscoveryFailed(m@),
            NativeMobileEvent::FileShared => NativeMobileEventView::FileShared,
            NativeMobileEvent::ShareFailed(m) => NativeMobileEventView::ShareFailed(m@),
            NativeMobileEvent::TerminalOpened { session_id, title, cwd } => NativeMobileEventView::TerminalOpened {
                session_id: session_id@,
                title: title@,
                cwd: cwd@,
            },
            NativeMobileEvent::TerminalOutput { session_id, chunk } => NativeMobileEventView::TerminalOutput {
                session_id: session_id@,
                chunk: chunk@,
            },
            NativeMobileEvent::TerminalClosed { session_id, exit_code } => NativeMobileEventView::TerminalClosed {
                session_id: session_id@,
                exit_code: *exit_code,
            },
            NativeMobileEvent::TerminalFailed { session_id, message } => NativeMobileEventView::TerminalFailed {
                session_id: opt_view(*session_id),
                message: message@,
            },
            NativeMobileEvent::TermuxCommandCompleted(r) => NativeMobileEventView::TermuxCommandCompleted(r@),
            NativeMobileEvent::TermuxCommandFailed { request_id, message } =>
                NativeMobileEventView::TermuxCommandFailed { request_id: request_id@, message: message@ },
        }
    }
}

fn copy_document(d: &PickedDocument) -> (r: PickedDocument)
    ensures
        r == *d,
{
    PickedDocument {
        id: d.id.clone(),
        display_name: d.display_name.clone(),
        uri: copy_opt_string(&d.uri),
        path: copy_opt_string(&d.path),
        mime_type: copy_opt_string(&d.mime_type),
        size_bytes: d.size_bytes,
    }
}

fn copy_documents(v: &Vec<PickedDocument>) -> (r: Vec<PickedDocument>)
    ensures
        r@ == v@,
{
    let mut r: Vec<PickedDocument> = Vec::new();
    let mut i: usize = 0;
    while i < v.len()
        invariant
            i <= v.len(),
            r@ == v@.take(i as int),
        decreases v.len() - i,
    {
        r.push(copy_document(&v[i]));
        i = i + 1;
        assert(r@ =~= v@.take(i as int));
    }
    assert(v@.take(v.len() as int) == v@);
    r
}

impl NativeMobileEvent {
    /// A copy that holds the same values.
    pub fn duplicate(&self) -> (r: Self)
        ensures
            r@ == self@,
    {
        match self {
            NativeMobileEvent::DocumentsPicked(d) => {
                let c = copy_documents(d);
                assert(documents_view(c@) =~= documents_view(d@));
                NativeMobileEvent::DocumentsPicked(c)
            },
            NativeMobileEvent::DocumentPickerCancelled => NativeMobileEvent::DocumentPickerCancelled,
            NativeMobileEvent::DocumentPickerFailed(m) => NativeMobileEvent::DocumentPickerFailed(m.clone()),
            NativeMobileEvent::PcGatewayDiscoveryStarted { request_id, service_type } =>
                NativeMobileEvent::PcGatewayDiscoveryStarted {
                    request_id: request_id.clone(),
                    service_type: service_type.clone(),
                },
            NativeMobileEvent::PcGatewayDiscoveryUpdated(r) => NativeMobileEvent::PcGatewayDiscoveryUpdated(
                copy_records(r),
            ),
            NativeMobileEvent::PcGatewayDiscoveryCompleted(r) => NativeMobileEvent::PcGatewayDiscoveryCompleted(
                copy_records(r),
            ),
            NativeMobileEvent::PcGatewayDiscoveryFailed(m) => NativeMobileEvent::PcGatewayDiscoveryFailed(m.clone()),
            NativeMobileEvent::FileShared => NativeMobileEvent::FileShared,
            NativeMobileEvent::ShareFailed(m) => NativeMobileEvent::ShareFailed(m.clone()),
            NativeMobileEvent::TerminalOpened { session_id, title, cwd } => NativeMobileEvent::TerminalOpened {
                session_id: session_id.clone(),
                title: title.clone(),
                cwd: cwd.clone(),
            },
            NativeMobileEvent::TerminalOutput { session_id, chunk } => NativeMobileEvent::TerminalOutput {
                session_id: session_id.clone(),
                chunk: chunk.clone(),
            },
            NativeMobileEvent::TerminalClosed { session_id, exit_code } => NativeMobileEvent::TerminalClosed {
                session_id: session_id.clone(),
                exit_code: *exit_code,
            },
            NativeMobileEvent::TerminalFailed { session_id, message } => NativeMobileEvent::TerminalFailed {
                session_id: copy_opt_string(session_id),
                message: message.clone(),
            },
            NativeMobileEvent::TermuxCommandCompleted(r) => NativeMobileEvent::TermuxCommandCompleted(r.duplicate()),
            NativeMobileEvent::TermuxCommandFailed { request_id, message } => NativeMobileEvent::TermuxCommandFailed {
                request_id: request_id.clone(),
                message: message.clone(),
            },
        }
    }
}

/// The error that an event carries: the message of every failure event.
pub open spec fn event_error(e: NativeMobileEventView) -> Option<Seq<char>> {
    match e {
        NativeMobileEventView::DocumentPickerFailed(m) => Some(m),
        NativeMobileEventView::PcGatewayDiscoveryFailed(m) => Some(m),
        NativeMobileEventView::ShareFailed(m) => Some(m),
        NativeMobileEventView::TerminalFailed { message, .. } => Some(message),
        NativeMobileEventView::TermuxCommandFailed { message, .. } => Some(message),
        _ => None,
    }
}

/// The queue of commands, the requests that wait for a callback, and the last event.
#[derive(Clone, Debug, PartialEq, Eq)]
pub struct NativeBridgeState {
    pub pending_commands: Vec<NativeMobileCommand>,
    pub last_event: Option<NativeMobileEvent>,
    pub last_error: Option<String>,
    pub active_document_picker_request_id: Option<String>,
    pub active_pc_discovery_request_id: Option<String>,
    pub active_termux_request_ids: Vec<String>,
    /// When the oldest Termux command still waiting was handed to the host.
    pub active_termux_since_unix: Option<u64>,
    pub active_pc_discovery_since_unix: Option<u64>,
    pub last_event_id: u64,
    /// The number of the next picker request handed to the host.
    pub next_picker_request_id: u64,
}

/// The bridge as values.
pub struct NativeBridgeView {
    pub pending_commands: Seq<NativeMobileCommand>,
    pub last_event: Option<NativeMobileEventView>,
    pub last_error: Option<Seq<char>>,
    pub active_document_picker_request_id: Option<Seq<char>>,
    pub active_pc_discovery_request_id: Option<Seq<char>>,
    pub active_termux_request_ids: Seq<Seq<char>>,
    pub active_termux_since_unix: Option<u64>,
    pub active_pc_discovery_since_unix: Option<u64>,
    pub last_event_id: u64,
    pub next_picker_request_id: u64,
}

/// An optional event as values.
pub open spec fn opt_event_view(e: Option<NativeMobileEvent>) -> Option<NativeMobileEventView> {
    match e {
        Some(e) => Some(e@),
        None => None,
    }
}

/// The strings as values.
pub open spec fn ids_view(v: Seq<String>) -> Seq<Seq<char>> {
    v.map_values(|s: String| s@)
}

impl View for NativeBridgeState {
    type V = NativeBridgeView;

    open spec fn view(&self) -> NativeBridgeView {
        NativeBridgeView {
            pending_commands: self.pending_commands@,
            last_event: opt_event_view(self.last_event),
            last_error: opt_view(self.last_error),
            active_document_picker_request_id: opt_view(self.active_document_picker_request_id),
            active_pc_discovery_request_id: opt_view(self.active_pc_discovery_request_id),
            active_termux_request_ids: ids_view(self.active_termux_request_ids@),
            active_termux_since_unix: self.active_termux_since_unix,
            active_pc_discovery_since_unix: self.active_pc_discovery_since_unix,
            last_event_id: self.last_event_id,
            next_picker_request_id: self.next_picker_request_id,
        }
    }
}

/// A bridge with nothing queued, nothing waiting and no event yet.
pub open spec fn empty_bridge() -> NativeBridgeView {
    NativeBridgeView {
        pending_commands: Seq::empty(),
        last_event: None,
        last_error: None,
        active_document_picker_request_id: None,
        active_pc_discovery_request_id: None,
        active_termux_request_ids: Seq::empty(),
        active_termux_since_unix: None,
        active_pc_discovery_since_unix: None,
        last_event_id: 0,
        next_picker_request_id: 1,
    }
}

impl Default for NativeBridgeState {
    fn default() -> (r: Self)
        ensures
            r@ == empty_bridge(),
    {
        let r = NativeBridgeState {
            pending_commands: Vec::new(),
            last_event: None,
            last_error: None,
            active_document_picker_request_id: None,
            active_pc_discovery_request_id: None,
            active_termux_request_ids: Vec::new(),
            active_termux_since_unix: None,
            active_pc_discovery_since_unix: None,
            last_event_id: 0,
            next_picker_request_id: 1,
        };
        assert(ids_view(r.active_termux_request_ids@) =~= Seq::<Seq<char>>::empty());
        r
    }
}

/// `new` is `old` with one more command queued at the back, and nothing else changed.
pub open spec fn queued_one(old: NativeBridgeView, new: NativeBridgeView) -> bool {
    &&& new == (NativeBridgeView { pending_commands: new.pending_commands, ..old })
    &&& new.pending_commands.len() == old.pending_commands.len() + 1
    &&& new.pending_commands.drop_last() == old.pending_commands
}

/// The picker number after `n` (wrapping at the end of `u64`).
pub open spec fn next_picker_number(n: u64) -> u64 {
    if n == u64::MAX { 0 } else { (n + 1) as u64 }
}

/// Two picker requests with different numbers get different ids.
pub proof fn lemma_picker_ids_distinct(a: u64, b: u64)
    requires
        a != b,
    ensures
        picker_request_id(a) != picker_request_id(b),
{
    let p = "android-document-picker-"@;
    if picker_request_id(a) == picker_request_id(b) {
        assert(picker_request_id(a).skip(p.len() as int) =~= decimal(a as nat));
        assert(picker_request_id(b).skip(p.len() as int) =~= decimal(b as nat));
        lemma_decimal_digits(a as nat);
        lemma_decimal_digits(b as nat);
    }
}

/// Two picker commands taken out one after the other carry different ids:
/// the bridge's picker number always moves on to a different number.
pub proof fn lemma_successive_picker_ids_differ(n: u64)
    ensures
        next_picker_number(n) != n,
        picker_request_id(n) != picker_request_id(next_picker_number(n)),
{
    lemma_picker_ids_distinct(n, next_picker_number(n));
}

/// A group of commands that the host takes out of the queue ahead of the others.
#[derive(Clone, Copy, Debug, PartialEq, Eq, Structural)]
pub enum CommandKind {
    DocumentPicker,
    PcDiscovery,
    Termux,
    Terminal,
}

/// Whether a command belongs to a group.
pub open spec fn is_of_kind(c: NativeMobileCommand, kind: CommandKind) -> bool {
    match kind {
        CommandKind::DocumentPicker => c is OpenDocumentPicker,
        CommandKind::PcDiscovery => c is StartPcGatewayDiscovery,
        CommandKind::Termux => c is RunTermuxCommand,
        CommandKind::Terminal => c is OpenTerminal || c is TerminalInput || c is CloseTerminal,
    }
}

/// The index of the first command of a group, or the queue's length if there is none.
pub open spec fn first_of_kind(s: Seq<NativeMobileCommand>, kind: CommandKind) -> int
    decreases s.len(),
{
    if s.len() == 0 {
        0
    } else if is_of_kind(s[0], kind) {
        0
    } else {
        1 + first_of_kind(s.drop_first(), kind)
    }
}

proof fn lemma_first_of_kind(s: Seq<NativeMobileCommand>, kind: CommandKind, i: int)
    requires
        0 <= i <= s.len(),
        forall|j: int| 0 <= j < i ==> !is_of_kind(#[trigger] s[j], kind),
        i < s.len() ==> is_of_kind(s[i], kind),
    ensures
        first_of_kind(s, kind) == i,
    decreases i,
{
    if s.len() > 0 && i > 0 {
        assert(!is_of_kind(s[0], kind));
        assert forall|j: int| 0 <= j < i - 1 implies !is_of_kind(#[trigger] s.drop_first()[j], kind) by {
            assert(s.drop_first()[j] == s[j + 1]);
        }
        if i < s.len() {
            assert(s.drop_first()[i - 1] == s[i]);
        }
        lemma_first_of_kind(s.drop_first(), kind, i - 1);
    }
}

/// The index found by `first_of_kind` lies in the queue or just past it, and
/// a command there belongs to the group.
pub proof fn lemma_first_of_kind_found(s: Seq<NativeMobileCommand>, kind: CommandKind)
    ensures
        0 <= first_of_kind(s, kind) <= s.len(),
        first_of_kind(s, kind) < s.len() ==> is_of_kind(s[first_of_kind(s, kind)], kind),
    decreases s.len(),
{
    if s.len() > 0 && !is_of_kind(s[0], kind) {
        lemma_first_of_kind_found(s.drop_first(), kind);
        let i = first_of_kind(s.drop_first(), kind);
        if i < s.drop_first().len() {
            assert(s.drop_first()[i] == s[i + 1]);
        }
    }
}

/// The queue after the first command of a group is taken out, and that command.
pub open spec fn take_first_spec(s: Seq<NativeMobileCommand>, kind: CommandKind) -> (
    Seq<NativeMobileCommand>,
    Option<NativeMobileCommand>,
) {
    let i = first_of_kind(s, kind);
    if i < s.len() {
        (s.remove(i), Some(s[i]))
    } else {
        (s, None)
    }
}

fn command_is(c: &NativeMobileCommand, kind: CommandKind) -> (r: bool)
    ensures
        r == is_of_kind(*c, kind),
{
    match kind {
        CommandKind::DocumentPicker => matches!(c, NativeMobileCommand::OpenDocumentPicker(_)),
        CommandKind::PcDiscovery => matches!(c, NativeMobileCommand::StartPcGatewayDiscovery(_)),
        CommandKind::Termux => matches!(c, NativeMobileCommand::RunTermuxCommand(_)),
        CommandKind::Terminal => matches!(
            c,
            NativeMobileCommand::OpenTerminal { .. } | NativeMobileCommand::TerminalInput { .. }
                | NativeMobileCommand::CloseTerminal { .. }
        ),
    }
}

/// `PhoneNativeRequest`: an action that an agent tool asked the phone to perform.
#[derive(Clone, Debug, PartialEq, Eq)]
pub struct PhoneNativeRequest {
    pub action: String,
    pub url: Option<String>,
    pub path: Option<String>,
    pub mime_type: Option<String>,
    pub package: Option<String>,
}

/// The command for a phone action, if the action is known and has the value it needs.
pub open spec fn phone_native_command(r: PhoneNativeRequest) -> Option<NativeMobileCommand> {
    if r.action@ == "open_url"@ {
        match r.url {
            Some(url) => if !is_blank(url@) { Some(NativeMobileCommand::OpenUrl { url }) } else { None },
            None => None,
        }
    } else if r.action@ == "share_file"@ {
        match r.path {
            Some(path) => if !is_blank(path@) {
                Some(NativeMobileCommand::ShareFile { path, mime_type: r.mime_type })
            } else {
                None
            },
            None => None,
        }
    } else if r.action@ == "launch_app"@ {
        match r.package {
            Some(package) => if !is_blank(package@) {
                Some(NativeMobileCommand::LaunchApp { package })
            } else {
                None
            },
            None => None,
        }
    } else if r.action@ == "open_settings"@ {
        Some(NativeMobileCommand::OpenSystemSettings)
    } else {
        None
    }
}

fn non_blank(o: Option<String>) -> (r: Option<String>)
    ensures
        r == (match o {
            Some(s) => if !is_blank(s@) { Some(s) } else { None },
            None => None,
        }),
{
    match o {
        Some(s) => if !is_blank_str(s.as_str()) { Some(s) } else { None },
        None => None,
    }
}

impl NativeBridgeState {
    /// Queues a command at the back.
    pub fn enqueue(&mut self, command: NativeMobileCommand)
        ensures
            final(self)@ == (NativeBridgeView {
                pending_commands: old(self)@.pending_commands.push(command),
                ..old(self)@
            }),
    {
        self.pending_commands.push(command);
    }

    /// Queues a document picker request.
    pub fn enqueue_document_picker(&mut self, request: DocumentPickerRequest)
        ensures
            final(self)@ == (NativeBridgeView {
                pending_commands: old(self)@.pending_commands.push(NativeMobileCommand::OpenDocumentPicker(request)),
                ..old(self)@
            }),
    {
        self.enqueue(NativeMobileCommand::OpenDocumentPicker(request));
    }

    /// Queues a browse for PC gateways under `request_id`.
    pub fn enqueue_pc_gateway_discovery(&mut self, request_id: &str)
        ensures
            queued_one(old(self)@, final(self)@),
            final(self)@.pending_commands.last() matches NativeMobileCommand::StartPcGatewayDiscovery(c)
                && c.request_id@ == request_id@ && c.service_type@ == PC_GATEWAY_SERVICE_TYPE@
                && c.timeout_ms == PC_GATEWAY_DISCOVERY_TIMEOUT_MS,
    {
        self.enqueue(NativeMobileCommand::StartPcGatewayDiscovery(AndroidPcGatewayDiscoveryCommand::new(request_id)));
        assert(final(self)@.pending_commands.drop_last() =~= old(self)@.pending_commands);
    }

    /// Queues opening a terminal on a workspace.
    pub fn enqueue_open_terminal(&mut self, workspace_id: &str)
        ensures
            queued_one(old(self)@, final(self)@),
            final(self)@.pending_commands.last() matches NativeMobileCommand::OpenTerminal { workspace_id: w }
                && w@ == workspace_id@,
    {
        self.enqueue(NativeMobileCommand::OpenTerminal { workspace_id: owned(workspace_id) });
        assert(final(self)@.pending_commands.drop_last() =~= old(self)@.pending_commands);
    }

    /// Queues input for a terminal session.
    pub fn enqueue_terminal_input(&mut self, session_id: &str, input: &str)
        ensures
            queued_one(old(self)@, final(self)@),
            final(self)@.pending_commands.last() matches NativeMobileCommand::TerminalInput { session_id: s, input: i }
                && s@ == session_id@ && i@ == input@,
    {
        self.enqueue(NativeMobileCommand::TerminalInput { session_id: owned(session_id), input: owned(input) });
        assert(final(self)@.pending_commands.drop_last() =~= old(self)@.pending_commands);
    }

    /// Queues closing a terminal session.
    pub fn enqueue_close_terminal(&mut self, session_id: &str)
        ensures
            queued_one(old(self)@, final(self)@),
            final(self)@.pending_commands.last() matches NativeMobileCommand::CloseTerminal { session_id: s }
                && s@ == session_id@,
    {
        self.enqueue(NativeMobileCommand::CloseTerminal { session_id: owned(session_id) });
        assert(final(self)@.pending_commands.drop_last() =~= old(self)@.pending_commands);
    }

    /// Queues sharing a file as a zip archive.
    pub fn enqueue_share_file(&mut self, path: &str)
        ensures
            queued_one(old(self)@, final(self)@),
            final(self)@.pending_commands.last() matches NativeMobileCommand::ShareFile { path: p, mime_type: Some(m) }
                && p@ == path@ && m@ == SHARE_MIME_TYPE@,
    {
        self.enqueue(NativeMobileCommand::ShareFile { path: owned(path), mime_type: Some(owned(SHARE_MIME_TYPE)) });
        assert(final(self)@.pending_commands.drop_last() =~= old(self)@.pending_commands);
    }

    /// Queues a Termux command.
    pub fn enqueue_termux_command(&mut self, request: TermuxExecRequest)
        ensures
            final(self)@ == (NativeBridgeView {
                pending_commands: old(self)@.pending_commands.push(NativeMobileCommand::RunTermuxCommand(request)),
                ..old(self)@
            }),
    {
        self.enqueue(NativeMobileCommand::RunTermuxCommand(request));
    }

    /// Queues the command for a phone action; false, with nothing queued,
    /// for an unknown action or one without the value it needs.
    pub fn enqueue_phone_native_request(&mut self, request: PhoneNativeRequest) -> (r: bool)
        ensures
            r == (phone_native_command(request) is Some),
            final(self)@ == (match phone_native_command(request) {
                Some(c) => NativeBridgeView { pending_commands: old(self)@.pending_commands.push(c), ..old(self)@ },
                None => old(self)@,
            }),
    {
        let PhoneNativeRequest { action, url, path, mime_type, package } = request;
        let a = action.as_str();
        if crate::text::str_eq(a, "open_url") {
            match non_blank(url) {
                Some(url) => {
                    self.enqueue(NativeMobileCommand::OpenUrl { url });
                    true
                },
                None => false,
            }
        } else if crate::text::str_eq(a, "share_file") {
            match non_blank(path) {
                Some(path) => {
                    self.enqueue(NativeMobileCommand::ShareFile { path, mime_type });
                    true
                },
                None => false,
            }
        } else if crate::text::str_eq(a, "launch_app") {
            match non_blank(package) {
                Some(package) => {
                    self.enqueue(NativeMobileCommand::LaunchApp { package });
                    true
                },
                None => false,
            }
        } else if crate::text::str_eq(a, "open_settings") {
            self.enqueue(NativeMobileCommand::OpenSystemSettings);
            true
        } else {
            false
        }
    }

    /// Takes the oldest command out of the queue.
    pub fn pop_next_command(&mut self) -> (r: Option<NativeMobileCommand>)
        ensures
            old(self)@.pending_commands.len() == 0 ==> r is None && final(self)@ == old(self)@,
            old(self)@.pending_commands.len() > 0 ==> r == Some(old(self)@.pending_commands[0])
                && final(self)@ == (NativeBridgeView {
                pending_commands: old(self)@.pending_commands.drop_first(),
                ..old(self)@
            }),
    {
        if self.pending_commands.len() == 0 {
            None
        } else {
            let c = self.pending_commands.remove(0);
            assert(self.pending_commands@ =~= old(self)@.pending_commands.drop_first());
            Some(c)
        }
    }

    /// Takes the first command of a group out of the queue.
    fn take_first(&mut self, kind: CommandKind) -> (r: Option<NativeMobileCommand>)
        ensures
            (final(self)@.pending_commands, r) == take_first_spec(old(self)@.pending_commands, kind),
            final(self)@ == (NativeBridgeView { pending_commands: final(self)@.pending_commands, ..old(self)@ }),
            r matches Some(c) ==> is_of_kind(c, kind),
    {
        let mut i: usize = 0;
        while i < self.pending_commands.len()
            invariant
                i <= self.pending_commands.len(),
                self.pending_commands@ == old(self).pending_commands@,
                *self == *old(self),
                forall|j: int| 0 <= j < i ==> !is_of_kind(#[trigger] self.pending_commands@[j], kind),
            decreases self.pending_commands.len() - i,
        {
            if command_is(&self.pending_commands[i], kind) {
                proof {
                    lemma_first_of_kind(self.pending_commands@, kind, i as int);
                }
                let c = self.pending_commands.remove(i);
                return Some(c);
            }
            i = i + 1;
        }
        proof {
            lemma_first_of_kind(self.pending_commands@, kind, i as int);
        }
        None
    }

    /// Takes out the first picker request and waits for its callback; the
    /// command is numbered with the bridge's next picker number, which then
    /// moves on by one (wrapping at the end of `u64`).
    pub fn pop_next_android_document_picker_command(&mut self) -> (r: Option<AndroidDocumentPickerCommand>)
        ensures
            ({
                let (rest, taken) = take_first_spec(old(self)@.pending_commands, CommandKind::DocumentPicker);
                match taken {
                    Some(NativeMobileCommand::OpenDocumentPicker(request)) => r matches Some(c) && command_for_request(
                        c,
                        request,
                        old(self)@.next_picker_request_id,
                    ) && final(self)@ == (NativeBridgeView {
                        pending_commands: rest,
                        active_document_picker_request_id: Some(c.request_id@),
                        next_picker_request_id: next_picker_number(old(self)@.next_picker_request_id),
                        ..old(self)@
                    }),
                    _ => r is None && final(self)@ == old(self)@,
                }
            }),
    {
        match self.take_first(CommandKind::DocumentPicker) {
            Some(NativeMobileCommand::OpenDocumentPicker(request)) => {
                let sequence = self.next_picker_request_id;
                let command = AndroidDocumentPickerCommand::from_request(&request, sequence);
                self.active_document_picker_request_id = Some(command.request_id.clone());
                self.next_picker_request_id = if sequence == u64::MAX { 0 } else { sequence + 1 };
                Some(command)
            },
            _ => None,
        }
    }

    /// Takes out the first discovery command and waits for its callbacks from `now_unix` on.
    pub fn pop_next_android_pc_discovery_command(&mut self, now_unix: u64) -> (r: Option<
        AndroidPcGatewayDiscoveryCommand,
    >)
        ensures
            ({
                let (rest, taken) = take_first_spec(old(self)@.pending_commands, CommandKind::PcDiscovery);
                match taken {
                    Some(NativeMobileCommand::StartPcGatewayDiscovery(command)) => r == Some(command) && final(self)@
                        == (NativeBridgeView {
                        pending_commands: rest,
                        active_pc_discovery_request_id: Some(command.request_id@),
                        active_pc_discovery_since_unix: Some(now_unix),
                        ..old(self)@
                    }),
                    _ => r is None && final(self)@ == old(self)@,
                }
            }),
    {
        match self.take_first(CommandKind::PcDiscovery) {
            Some(NativeMobileCommand::StartPcGatewayDiscovery(command)) => {
                self.active_pc_discovery_request_id = Some(command.request_id.clone());
                self.active_pc_discovery_since_unix = Some(now_unix);
                Some(command)
            },
            _ => None,
        }
    }

    /// Takes out the first terminal command.
    pub fn pop_terminal_command(&mut self) -> (r: Option<NativeMobileCommand>)
        ensures
            ({
                let (rest, taken) = take_first_spec(old(self)@.pending_commands, CommandKind::Terminal);
                r == taken && final(self)@ == (NativeBridgeView { pending_commands: rest, ..old(self)@ })
            }),
            r matches Some(c) ==> is_of_kind(c, CommandKind::Terminal),
    {
        self.take_first(CommandKind::Terminal)
    }

    /// Takes out the first Termux command and waits for its callback; the
    /// wait is timed from `now_unix` when no other Termux command waits.
    pub fn pop_next_android_termux_command(&mut self, now_unix: u64) -> (r: Option<AndroidTermuxCommand>)
        ensures
            ({
                let (rest, taken) = take_first_spec(old(self)@.pending_commands, CommandKind::Termux);
                match taken {
                    Some(NativeMobileCommand::RunTermuxCommand(request)) => r matches Some(c)
                        && termux_command_for(c, request) && final(self)@ == (
                    NativeBridgeView {
                        pending_commands: rest,
                        active_termux_request_ids: old(self)@.active_termux_request_ids.push(
                            request.request_id@,
                        ),
                        active_termux_since_unix: if old(self)@.active_termux_request_ids.len() == 0 {
                            Some(now_unix)
                        } else {
                            old(self)@.active_termux_since_unix
                        },
                        ..old(self)@
                    }),
                    _ => r is None && final(self)@ == old(self)@,
                }
            }),
    {
        match self.take_first(CommandKind::Termux) {
            Some(NativeMobileCommand::RunTermuxCommand(request)) => {
                let command = AndroidTermuxCommand::from_request(&request);
                if self.active_termux_request_ids.len() == 0 {
                    self.active_termux_since_unix = Some(now_unix);
                }
                let ghost before = self.active_termux_request_ids@;
                self.active_termux_request_ids.push(command.request_id.clone());
                assert(ids_view(self.active_termux_request_ids@) =~= ids_view(before).push(request.request_id@));
                Some(command)
            },
            _ => None,
        }
    }

    /// Whether any command waits to be handed to the host.
    pub fn has_pending_commands(&self) -> (r: bool)
        ensures
            r == (self@.pending_commands.len() > 0),
    {
        self.pending_commands.len() > 0
    }

    /// Whether a picker request waits for its callback.
    pub fn is_waiting_for_document_picker_callback(&self) -> (r: bool)
        ensures
            r == (self@.active_document_picker_request_id is Some),
    {
        self.active_document_picker_request_id.is_some()
    }

    /// Whether a discovery waits for its callbacks.
    pub fn is_waiting_for_pc_discovery_callback(&self) -> (r: bool)
        ensures
            r == (self@.active_pc_discovery_request_id is Some),
    {
        self.active_pc_discovery_request_id.is_some()
    }

    /// Whether a Termux command waits for its callback.
    pub fn is_waiting_for_termux_callback(&self) -> (r: bool)
        ensures
            r == (self@.active_termux_request_ids.len() > 0),
    {
        self.active_termux_request_ids.len() > 0
    }
}


/// The `Debug` text of an optional string (`Some("..")` or `None`).
pub uninterp spec fn option_debug_text(s: Option<Seq<char>>) -> Seq<char>;

/// Text that `Debug` prints between quotes as it is: printable ASCII with no
/// quote and no backslash.
pub open spec fn debug_plain(t: Seq<char>) -> bool {
    forall|i: int| 0 <= i < t.len() ==> 0x20 <= (#[trigger] t[i] as u32) <= 0x7E && t[i] != '"' && t[i] != '\\'
}

/// `<Option<String> as Debug>::fmt` through `format!("{:?}")`: the result is
/// the `Debug` text of the value: `None`, or `Some("..")` with the string
/// quoted, and escaped where it holds quotes, backslashes or characters that
/// are not printable ASCII (that escaping is not stated here).
#[verifier::external_body]
fn debug_option_text(s: &Option<String>) -> (r: String)
    ensures
        r@ == option_debug_text(opt_view(*s)),
        s is None ==> r@ == "None"@,
        (s matches Some(t) && debug_plain(t@)) ==> r@ == "Some(\""@ + s->0@ + "\")"@,
{
    format!("{:?}", s)
}

/// The bridge after it accepted an event: the counter bumped (saturating),
/// the event's error recorded (or cleared), and the event kept as the last one.
pub open spec fn after_event(s: NativeBridgeView, e: NativeMobileEventView) -> NativeBridgeView {
    NativeBridgeView {
        last_event_id: if s.last_event_id == u64::MAX { u64::MAX } else { (s.last_event_id + 1) as u64 },
        last_error: event_error(e),
        last_event: Some(e),
        ..s
    }
}

/// The error of a picker callback that no request waits for.
pub open spec fn stale_picker_message(active: Option<Seq<char>>, got: Seq<char>) -> Seq<char> {
    "stale Android document picker callback: expected "@ + option_debug_text(active) + ", got "@ + got
}

/// The error of a discovery callback that no browse waits for.
pub open spec fn stale_discovery_message(active: Option<Seq<char>>, got: Seq<char>) -> Seq<char> {
    "stale Android PC discovery callback: expected "@ + option_debug_text(active) + ", got "@ + got
}

/// The error of a Termux callback that no command waits for.
pub open spec fn stale_termux_message() -> Seq<char> {
    "stale Android Termux callback"@
}

/// The bridge and the event after a picker callback: the callback's event
/// when it answers the waiting request, which then waits no more; a stale
/// callback error otherwise.
pub open spec fn picker_callback_spec(s: NativeBridgeView, cb: AndroidDocumentPickerCallback) -> (
    NativeBridgeView,
    NativeMobileEventView,
) {
    if s.active_document_picker_request_id == Some(cb.request_id_spec()) {
        let e = picker_callback_event(cb);
        (after_event(NativeBridgeView { active_document_picker_request_id: None, ..s }, e), e)
    } else {
        let e = NativeMobileEventView::DocumentPickerFailed(
            stale_picker_message(s.active_document_picker_request_id, cb.request_id_spec()),
        );
        (after_event(s, e), e)
    }
}

/// The bridge and the event after a discovery callback. For the waiting
/// browse: a start, the one record found, or the records of a finished
/// browse, which then waits no more, as does a failed one. For any other
/// browse: a stale callback error.
pub open spec fn discovery_callback_spec(s: NativeBridgeView, cb: AndroidPcGatewayDiscoveryCallback) -> (
    NativeBridgeView,
    NativeMobileEventView,
) {
    let done = NativeBridgeView {
        active_pc_discovery_request_id: None,
        active_pc_discovery_since_unix: None,
        ..s
    };
    if s.active_pc_discovery_request_id == Some(cb.request_id_spec()) {
        match cb {
            AndroidPcGatewayDiscoveryCallback::Started { request_id, service_type } => {
                let e = NativeMobileEventView::PcGatewayDiscoveryStarted {
                    request_id: request_id@,
                    service_type: service_type@,
                };
                (after_event(s, e), e)
            },
            AndroidPcGatewayDiscoveryCallback::Candidate { record, .. } => {
                let e = NativeMobileEventView::PcGatewayDiscoveryUpdated(seq![record@]);
                (after_event(s, e), e)
            },
            AndroidPcGatewayDiscoveryCallback::Completed { records, .. } => {
                let e = NativeMobileEventView::PcGatewayDiscoveryCompleted(records_view(records@));
                (after_event(done, e), e)
            },
            AndroidPcGatewayDiscoveryCallback::Failed { message, .. } => {
                let e = NativeMobileEventView::PcGatewayDiscoveryFailed(message@);
                (after_event(done, e), e)
            },
        }
    } else {
        let e = NativeMobileEventView::PcGatewayDiscoveryFailed(
            stale_discovery_message(s.active_pc_discovery_request_id, cb.request_id_spec()),
        );
        (after_event(s, e), e)
    }
}

/// The bridge and the event after a Termux callback. A callback for a
/// waiting command, or for one that the runtime store still holds as pending
/// (`saved_pending`), ends that wait and gives the callback's event; the wait
/// clock stops when no command waits any more. Any other callback gives a
/// stale callback error.
pub open spec fn termux_callback_spec(s: NativeBridgeView, cb: AndroidTermuxCallback, saved_pending: bool) -> (
    NativeBridgeView,
    NativeMobileEventView,
) {
    let id = cb.request_id_spec();
    if s.active_termux_request_ids.contains(id) || saved_pending {
        let ids = s.active_termux_request_ids.filter(|a: Seq<char>| a != id);
        let e = match cb {
            AndroidTermuxCallback::Completed(result) => NativeMobileEventView::TermuxCommandCompleted(result@),
            AndroidTermuxCallback::Failed { request_id, message } => NativeMobileEventView::TermuxCommandFailed {
                request_id: request_id@,
                message: message@,
            },
        };
        (
            after_event(
                NativeBridgeView {
                    active_termux_request_ids: ids,
                    active_termux_since_unix: if ids.len() == 0 {
                        None
                    } else {
                        s.active_termux_since_unix
                    },
                    ..s
                },
                e,
            ),
            e,
        )
    } else {
        let e = NativeMobileEventView::TermuxCommandFailed { request_id: id, message: stale_termux_message() };
        (after_event(s, e), e)
    }
}

/// The message of an expired Termux wait.
pub open spec fn termux_timeout_message(timeout_secs: u64, ids: Seq<Seq<char>>) -> Seq<char> {
    "Termux не ответил за "@ + decimal(timeout_secs as nat) + " с (request_ids: "@ + join(ids, ", "@)
        + "). Проверьте Termux и allow-external-apps."@
}

/// The message of an expired discovery.
pub open spec fn discovery_timeout_message(timeout_secs: u64, request_id: Seq<char>) -> Seq<char> {
    "Поиск PC Host прерван по таймауту ("@ + decimal(timeout_secs as nat) + " с, request_id="@ + request_id + ")"@
}

/// Seconds from `since` to `now`, zero when `now` is earlier.
pub open spec fn elapsed(since: u64, now: u64) -> int {
    if now >= since { now - since } else { 0 }
}

/// The bridge and the message after a check of the Termux wait at `now`.
/// Without a running clock nothing changes; a clock with no waiting command
/// stops; a wait longer than `timeout_secs` ends for every waiting command,
/// with its message as the last error.
pub open spec fn expire_termux_spec(s: NativeBridgeView, timeout_secs: u64, now: u64) -> (
    NativeBridgeView,
    Option<Seq<char>>,
) {
    match s.active_termux_since_unix {
        None => (s, None),
        Some(since) => if s.active_termux_request_ids.len() == 0 {
            (NativeBridgeView { active_termux_since_unix: None, ..s }, None)
        } else if elapsed(since, now) <= timeout_secs {
            (s, None)
        } else {
            let m = termux_timeout_message(timeout_secs, s.active_termux_request_ids);
            (
                NativeBridgeView {
                    active_termux_request_ids: Seq::empty(),
                    active_termux_since_unix: None,
                    last_error: Some(m),
                    ..s
                },
                Some(m),
            )
        },
    }
}

/// The bridge and the message after a check of the discovery wait at `now`.
/// With no browse waiting, only a zero timeout clears a leftover clock. A
/// browse waits on while `timeout_secs` is positive and not yet passed (its
/// clock starts now if it had none); otherwise it ends, with its message as
/// the last error.
pub open spec fn expire_discovery_spec(s: NativeBridgeView, timeout_secs: u64, now: u64) -> (
    NativeBridgeView,
    Option<Seq<char>>,
) {
    match s.active_pc_discovery_request_id {
        None => if timeout_secs == 0 && s.active_pc_discovery_since_unix is Some {
            (NativeBridgeView { active_pc_discovery_since_unix: None, ..s }, None)
        } else {
            (s, None)
        },
        Some(id) => {
            let since = match s.active_pc_discovery_since_unix {
                Some(t) => t,
                None => now,
            };
            if timeout_secs > 0 && elapsed(since, now) <= timeout_secs {
                (NativeBridgeView { active_pc_discovery_since_unix: Some(since), ..s }, None)
            } else {
                let m = discovery_timeout_message(timeout_secs, id);
                (
                    NativeBridgeView {
                        active_pc_discovery_request_id: None,
                        active_pc_discovery_since_unix: None,
                        last_error: Some(m),
                        ..s
                    },
                    Some(m),
                )
            }
        },
    }
}

fn event_error_text(e: &NativeMobileEvent) -> (r: Option<String>)
    ensures
        opt_view(r) == event_error(e@),
{
    match e {
        NativeMobileEvent::DocumentPickerFailed(m) => Some(m.clone()),
        NativeMobileEvent::PcGatewayDiscoveryFailed(m) => Some(m.clone()),
        NativeMobileEvent::ShareFailed(m) => Some(m.clone()),
        NativeMobileEvent::TerminalFailed { message, .. } => Some(message.clone()),
        NativeMobileEvent::TermuxCommandFailed { message, .. } => Some(message.clone()),
        _ => None,
    }
}

fn same_id(active: &Option<String>, id: &str) -> (r: bool)
    ensures
        r == (opt_view(*active) == Some(id@)),
{
    match active {
        Some(a) => crate::text::str_eq(a.as_str(), id),
        None => false,
    }
}

impl NativeBridgeState {
    /// Records an event: bumps the counter, keeps the event as the last one,
    /// and sets the last error to the event's message or clears it.
    pub fn accept_event(&mut self, event: NativeMobileEvent)
        ensures
            final(self)@ == after_event(old(self)@, event@),
    {
        self.last_event_id = if self.last_event_id < u64::MAX { self.last_event_id + 1 } else { u64::MAX };
        self.last_error = event_error_text(&event);
        self.last_event = Some(event);
    }

    /// Accepts a picker callback; see `picker_callback_spec`.
    pub fn accept_android_document_picker_callback(&mut self, callback: AndroidDocumentPickerCallback) -> (r:
        NativeMobileEvent)
        ensures
            (final(self)@, r@) == picker_callback_spec(old(self)@, callback),
    {
        let id = owned(callback.request_id());
        let event = if same_id(&self.active_document_picker_request_id, id.as_str()) {
            self.active_document_picker_request_id = None;
            callback.into_native_event()
        } else {
            let mut m = owned("stale Android document picker callback: expected ");
            m.append(debug_option_text(&self.active_document_picker_request_id).as_str());
            m.append(", got ");
            m.append(id.as_str());
            NativeMobileEvent::DocumentPickerFailed(m)
        };
        let copy = event.duplicate();
        self.accept_event(event);
        copy
    }

    /// Accepts a discovery callback; see `discovery_callback_spec`.
    pub fn accept_android_pc_discovery_callback(&mut self, callback: AndroidPcGatewayDiscoveryCallback) -> (r:
        NativeMobileEvent)
        ensures
            (final(self)@, r@) == discovery_callback_spec(old(self)@, callback),
    {
        let id = owned(callback.request_id());
        let event = if same_id(&self.active_pc_discovery_request_id, id.as_str()) {
            match callback {
                AndroidPcGatewayDiscoveryCallback::Started { request_id, service_type } =>
                    NativeMobileEvent::PcGatewayDiscoveryStarted { request_id, service_type },
                AndroidPcGatewayDiscoveryCallback::Candidate { record, .. } => {
                    let mut records: Vec<AndroidPcGatewayMdnsRecordPayload> = Vec::new();
                    records.push(record);
                    assert(records_view(records@) =~= seq![records@[0]@]);
                    NativeMobileEvent::PcGatewayDiscoveryUpdated(records)
                },
                AndroidPcGatewayDiscoveryCallback::Completed { records, .. } => {
                    self.active_pc_discovery_request_id = None;
                    self.active_pc_discovery_since_unix = None;
                    NativeMobileEvent::PcGatewayDiscoveryCompleted(records)
                },
                AndroidPcGatewayDiscoveryCallback::Failed { message, .. } => {
                    self.active_pc_discovery_request_id = None;
                    self.active_pc_discovery_since_unix = None;
                    NativeMobileEvent::PcGatewayDiscoveryFailed(message)
                },
            }
        } else {
            let mut m = owned("stale Android PC discovery callback: expected ");
            m.append(debug_option_text(&self.active_pc_discovery_request_id).as_str());
            m.append(", got ");
            m.append(id.as_str());
            NativeMobileEvent::PcGatewayDiscoveryFailed(m)
        };
        let copy = event.duplicate();
        self.accept_event(event);
        copy
    }

    /// Accepts a Termux callback; see `termux_callback_spec`. `saved_pending`
    /// tells whether the runtime store holds the request as pending; it is
    /// consulted only for a request that no longer waits here.
    pub fn accept_android_termux_callback(&mut self, callback: AndroidTermuxCallback, saved_pending: bool) -> (r:
        NativeMobileEvent)
        ensures
            (final(self)@, r@) == termux_callback_spec(old(self)@, callback, saved_pending),
    {
        let id = owned(callback.request_id());
        let active = self.is_termux_active(id.as_str());
        let event = if active || saved_pending {
            self.remove_termux_id(id.as_str());
            assert((|a: Seq<char>| a != id@) =~= (|a: Seq<char>| a != callback.request_id_spec()));
            if self.active_termux_request_ids.len() == 0 {
                self.active_termux_since_unix = None;
            }
            match callback {
                AndroidTermuxCallback::Completed(result) => NativeMobileEvent::TermuxCommandCompleted(result),
                AndroidTermuxCallback::Failed { request_id, message } =>
                    NativeMobileEvent::TermuxCommandFailed { request_id, message },
            }
        } else {
            NativeMobileEvent::TermuxCommandFailed { request_id: id, message: owned("stale Android Termux callback") }
        };
        let copy = event.duplicate();
        self.accept_event(event);
        copy
    }

    fn is_termux_active(&self, id: &str) -> (r: bool)
        ensures
            r == self@.active_termux_request_ids.contains(id@),
    {
        let mut i: usize = 0;
        while i < self.active_termux_request_ids.len()
            invariant
                i <= self.active_termux_request_ids.len(),
                forall|j: int| 0 <= j < i ==> self@.active_termux_request_ids[j] != id@,
            decreases self.active_termux_request_ids.len() - i,
        {
            if crate::text::str_eq(self.active_termux_request_ids[i].as_str(), id) {
                assert(self@.active_termux_request_ids[i as int] == id@);
                return true;
            }
            i = i + 1;
        }
        false
    }

    fn remove_termux_id(&mut self, id: &str)
        ensures
            final(self)@ == (NativeBridgeView {
                active_termux_request_ids: old(self)@.active_termux_request_ids.filter(|a: Seq<char>| a != id@),
                ..old(self)@
            }),
    {
        let ghost f = |a: Seq<char>| a != id@;
        let ghost iv = old(self)@.active_termux_request_ids;
        let mut rest: Vec<String> = Vec::new();
        std::mem::swap(&mut rest, &mut self.active_termux_request_ids);
        let mut kept: Vec<String> = Vec::new();
        let mut i: usize = 0;
        assert(iv.take(0).filter(f) =~= Seq::<Seq<char>>::empty());
        assert(ids_view(kept@) =~= Seq::<Seq<char>>::empty());
        while i < rest.len()
            invariant
                i <= rest.len(),
                ids_view(rest@) == iv,
                ids_view(kept@) == iv.take(i as int).filter(f),
                f == (|a: Seq<char>| a != id@),
            decreases rest.len() - i,
        {
            reveal_with_fuel(Seq::filter, 1);
            assert(iv.take(i + 1).drop_last() == iv.take(i as int));
            assert(iv.take(i + 1).last() == rest@[i as int]@);
            if !crate::text::str_eq(rest[i].as_str(), id) {
                let ghost before = kept@;
                kept.push(rest[i].clone());
                assert(ids_view(kept@) =~= ids_view(before).push(rest@[i as int]@));
            }
            i = i + 1;
        }
        assert(iv.take(rest.len() as int) == iv);
        self.active_termux_request_ids = kept;
    }

    /// Ends a Termux wait older than `timeout_secs` at `now_unix`; see
    /// `expire_termux_spec`.
    pub fn expire_stale_termux_wait(&mut self, timeout_secs: u64, now_unix: u64) -> (r: Option<String>)
        ensures
            (final(self)@, opt_view(r)) == expire_termux_spec(old(self)@, timeout_secs, now_unix),
    {
        let since = match self.active_termux_since_unix {
            Some(t) => t,
            None => return None,
        };
        if self.active_termux_request_ids.len() == 0 {
            self.active_termux_since_unix = None;
            return None;
        }
        let waited = if now_unix >= since { now_unix - since } else { 0 };
        if waited <= timeout_secs {
            return None;
        }
        let ids = join_strings(&self.active_termux_request_ids, ", ");
        let mut m = owned("Termux не ответил за ");
        push_decimal(&mut m, timeout_secs as u128);
        m.append(" с (request_ids: ");
        m.append(ids.as_str());
        m.append("). Проверьте Termux и allow-external-apps.");
        self.active_termux_request_ids = Vec::new();
        self.active_termux_since_unix = None;
        self.last_error = Some(m.clone());
        assert(ids_view(self.active_termux_request_ids@) =~= Seq::<Seq<char>>::empty());
        Some(m)
    }

    /// Ends a discovery wait older than `timeout_secs` at `now_unix`; see
    /// `expire_discovery_spec`.
    pub fn expire_stale_pc_discovery(&mut self, timeout_secs: u64, now_unix: u64) -> (r: Option<String>)
        ensures
            (final(self)@, opt_view(r)) == expire_discovery_spec(old(self)@, timeout_secs, now_unix),
    {
        let request_id = match copy_opt_string(&self.active_pc_discovery_request_id) {
            Some(id) => id,
            None => {
                if timeout_secs == 0 && self.active_pc_discovery_since_unix.is_some() {
                    self.active_pc_discovery_since_unix = None;
                }
                return None;
            },
        };
        let since = match self.active_pc_discovery_since_unix {
            Some(t) => t,
            None => now_unix,
        };
        let waited = if now_unix >= since { now_unix - since } else { 0 };
        if timeout_secs > 0 && waited <= timeout_secs {
            if self.active_pc_discovery_since_unix.is_none() {
                self.active_pc_discovery_since_unix = Some(since);
            }
            return None;
        }
        self.active_pc_discovery_request_id = None;
        self.active_pc_discovery_since_unix = None;
        let mut m = owned("Поиск PC Host прерван по таймауту (");
        push_decimal(&mut m, timeout_secs as u128);
        m.append(" с, request_id=");
        m.append(request_id.as_str());
        m.append(")");
        self.last_error = Some(m.clone());
        Some(m)
    }
}

// ---------------------------------------------------------------------------
// Requests that agent tools leave for the phone
// ---------------------------------------------------------------------------
/// Whether tool metadata marks a request of this kind as pending: the flag
/// is `true`.
pub open spec fn pending_flag(m: JsonValue, flag: Seq<char>) -> bool {
    json_get(m, flag) == Some(JsonValue::Bool(true))
}

/// A Termux request object: `request_id`, `command` and `working_dir` are
/// required strings; `timeout_secs` may be missing or `null`.
pub open spec fn termux_request_from_json(v: JsonValue) -> Option<TermuxExecRequestView> {
    match v {
        JsonValue::Object(_) => match (
            str_field(v, "request_id"@),
            str_field(v, "command"@),
            str_field(v, "working_dir"@),
            optional_member(v, "timeout_secs"@, |x: JsonValue| json_u64(x)),
        ) {
            (Some(rid), Some(cmd), Some(dir), Some(t)) => Some(
                TermuxExecRequestView { request_id: rid, command: cmd, working_dir: dir, timeout_secs: t },
            ),
            _ => None,
        },
        _ => None,
    }
}

/// The Termux request that a finished tool call leaves pending, if any.
pub open spec fn termux_request_of_event(e: AgentEvent) -> Option<TermuxExecRequestView> {
    match e {
        AgentEvent::ToolCallFinished(r) => match r.metadata {
            Some(m) => if pending_flag(m, "termux_execution_pending"@) {
                match json_get(m, "termux_exec_request"@) {
                    Some(x) => termux_request_from_json(x),
                    None => None,
                }
            } else {
                None
            },
            None => None,
        },
        _ => None,
    }
}

fn read_timeout(v: &JsonValue) -> (r: Option<Option<u64>>)
    ensures
        r == optional_member(*v, "timeout_secs"@, |x: JsonValue| json_u64(x)),
{
    match get(v, "timeout_secs") {
        None => Some(None),
        Some(JsonValue::Null) => Some(None),
        Some(x) => match crate::json::as_u64(x) {
            Some(n) => Some(Some(n)),
            None => None,
        },
    }
}

fn parse_termux_request(v: &JsonValue) -> (r: Option<TermuxExecRequest>)
    ensures
        match r {
            Some(x) => termux_request_from_json(*v) == Some(x@),
            None => termux_request_from_json(*v) is None,
        },
{
    match v {
        JsonValue::Object(_) => {},
        _ => return None,
    }
    let rid = match get_str(v, "request_id") {
        Some(s) => s,
        None => return None,
    };
    let cmd = match get_str(v, "command") {
        Some(s) => s,
        None => return None,
    };
    let dir = match get_str(v, "working_dir") {
        Some(s) => s,
        None => return None,
    };
    let t = match read_timeout(v) {
        Some(t) => t,
        None => return None,
    };
    Some(TermuxExecRequest { request_id: owned(rid), command: owned(cmd), working_dir: owned(dir), timeout_secs: t })
}

fn pending_metadata<'a>(event: &'a AgentEvent, flag: &str) -> (r: Option<&'a JsonValue>)
    ensures
        match r {
            Some(m) => event matches AgentEvent::ToolCallFinished(res) && res.metadata == Some(*m) && pending_flag(
                *m,
                flag@,
            ),
            None => !(event matches AgentEvent::ToolCallFinished(res) && res.metadata matches Some(m)
                && pending_flag(m, flag@)),
        },
{
    let result = match event {
        AgentEvent::ToolCallFinished(r) => r,
        _ => return None,
    };
    let m = match &result.metadata {
        Some(m) => m,
        None => return None,
    };
    match get(m, flag) {
        Some(JsonValue::Bool(true)) => Some(m),
        _ => None,
    }
}

/// The Termux request that a finished tool call leaves pending, if any.
pub fn termux_request_from_agent_event(event: &AgentEvent) -> (r: Option<TermuxExecRequest>)
    ensures
        match r {
            Some(x) => termux_request_of_event(*event) == Some(x@),
            None => termux_request_of_event(*event) is None,
        },
{
    let m = match pending_metadata(event, "termux_execution_pending") {
        Some(m) => m,
        None => return None,
    };
    match get(m, "termux_exec_request") {
        Some(x) => parse_termux_request(x),
        None => None,
    }
}

/// A phone action as values.
pub struct PhoneNativeRequestView {
    pub action: Seq<char>,
    pub url: Option<Seq<char>>,
    pub path: Option<Seq<char>>,
    pub mime_type: Option<Seq<char>>,
    pub package: Option<Seq<char>>,
}

impl View for PhoneNativeRequest {
    type V = PhoneNativeRequestView;

    open spec fn view(&self) -> PhoneNativeRequestView {
        PhoneNativeRequestView {
            action: self.action@,
            url: opt_view(self.url),
            path: opt_view(self.path),
            mime_type: opt_view(self.mime_type),
            package: opt_view(self.package),
        }
    }
}

/// A phone action object: `action` is a required string; `url`, `path`,
/// `mime_type` and `package` may be missing or `null`.
pub open spec fn phone_request_from_json(v: JsonValue) -> Option<PhoneNativeRequestView> {
    match v {
        JsonValue::Object(_) => match (
            str_field(v, "action"@),
            optional_member(v, "url"@, |x: JsonValue| json_str(x)),
            optional_member(v, "path"@, |x: JsonValue| json_str(x)),
            optional_member(v, "mime_type"@, |x: JsonValue| json_str(x)),
            optional_member(v, "package"@, |x: JsonValue| json_str(x)),
        ) {
            (Some(action), Some(url), Some(path), Some(mime_type), Some(package)) => Some(
                PhoneNativeRequestView { action, url, path, mime_type, package },
            ),
            _ => None,
        },
        _ => None,
    }
}

/// The phone action that a finished tool call leaves pending, if any.
pub open spec fn phone_request_of_event(e: AgentEvent) -> Option<PhoneNativeRequestView> {
    match e {
        AgentEvent::ToolCallFinished(r) => match r.metadata {
            Some(m) => if pending_flag(m, "phone_native_pending"@) {
                match json_get(m, "phone_native_request"@) {
                    Some(x) => phone_request_from_json(x),
                    None => None,
                }
            } else {
                None
            },
            None => None,
        },
        _ => None,
    }
}

fn read_optional_str(v: &JsonValue, key: &str) -> (r: Option<Option<String>>)
    ensures
        match r {
            Some(o) => optional_member(*v, key@, |x: JsonValue| json_str(x)) == Some(opt_view(o)),
            None => optional_member(*v, key@, |x: JsonValue| json_str(x)) is None,
        },
{
    match get(v, key) {
        None => Some(None),
        Some(JsonValue::Null) => Some(None),
        Some(x) => match crate::json::as_str(x) {
            Some(s) => Some(Some(owned(s))),
            None => None,
        },
    }
}

fn parse_phone_request(v: &JsonValue) -> (r: Option<PhoneNativeRequest>)
    ensures
        match r {
            Some(x) => phone_request_from_json(*v) == Some(x@),
            None => phone_request_from_json(*v) is None,
        },
{
    match v {
        JsonValue::Object(_) => {},
        _ => return None,
    }
    let action = match get_str(v, "action") {
        Some(s) => s,
        None => return None,
    };
    let url = match read_optional_str(v, "url") {
        Some(o) => o,
        None => return None,
    };
    let path = match read_optional_str(v, "path") {
        Some(o) => o,
        None => return None,
    };
    let mime_type = match read_optional_str(v, "mime_type") {
        Some(o) => o,
        None => return None,
    };
    let package = match read_optional_str(v, "package") {
        Some(o) => o,
        None => return None,
    };
    Some(PhoneNativeRequest { action: owned(action), url, path, mime_type, package })
}

/// The phone action that a finished tool call leaves pending, if any.
pub fn phone_native_request_from_agent_event(event: &AgentEvent) -> (r: Option<PhoneNativeRequest>)
    ensures
        match r {
            Some(x) => phone_request_of_event(*event) == Some(x@),
            None => phone_request_of_event(*event) is None,
        },
{
    let m = match pending_metadata(event, "phone_native_pending") {
        Some(m) => m,
        None => return None,
    };
    match get(m, "phone_native_request") {
        Some(x) => parse_phone_request(x),
        None => None,
    }
}

impl NativeBridgeState {
    /// Queues the Termux request that a finished tool call leaves pending;
    /// whether there was one.
    pub fn enqueue_termux_command_from_agent_event(&mut self, event: &AgentEvent) -> (r: bool)
        ensures
            r == (termux_request_of_event(*event) is Some),
            !r ==> final(self)@ == old(self)@,
            r ==> queued_one(old(self)@, final(self)@) && (final(self)@.pending_commands.last() matches NativeMobileCommand::RunTermuxCommand(q)
                && Some(q@) == termux_request_of_event(*event)),
    {
        match termux_request_from_agent_event(event) {
            Some(request) => {
                self.enqueue_termux_command(request);
                assert(final(self)@.pending_commands.drop_last() =~= old(self)@.pending_commands);
                true
            },
            None => false,
        }
    }

    /// Queues the command for the phone action that a finished tool call
    /// leaves pending; false, with nothing queued, when there is none or it
    /// cannot be run.
    pub fn enqueue_phone_native_from_agent_event(&mut self, event: &AgentEvent) -> (r: bool)
        ensures
            match phone_request_of_event(*event) {
                Some(v) => exists|req: PhoneNativeRequest|
                    #[trigger] req@ == v && r == (phone_native_command(req) is Some) && final(self)@ == (match phone_native_command(req) {
                        Some(c) => NativeBridgeView { pending_commands: old(self)@.pending_commands.push(c), ..old(self)@ },
                        None => old(self)@,
                    }),
                None => !r && final(self)@ == old(self)@,
            },
    {
        match phone_native_request_from_agent_event(event) {
            Some(request) => {
                let ghost req = request;
                let r = self.enqueue_phone_native_request(request);
                assert(req@ == phone_request_of_event(*event).unwrap());
                r
            },
            None => false,
        }
    }
}

} // verus!
