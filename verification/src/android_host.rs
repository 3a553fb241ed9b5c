//! What the Android host runs next: the bridge's queue drained one action at
//! a time, picker requests first, then discoveries, Termux commands, terminal
//! commands, and the rest in order.
use crate::chat_file_links::strings_view;
use crate::native_bridge::{
    first_of_kind, is_of_kind, take_first_spec, CommandKind, NativeBridgeState, NativeBridgeView, NativeMobileCommand,
};
use crate::native_document_picker::{picker_request_id, AndroidDocumentPickerCommand};
use crate::native_pc_discovery::AndroidPcGatewayDiscoveryCommand;
use crate::native_termux::{AndroidTermuxCommand, termux_command_for};
use crate::document_picker::DocumentPickerMode;
use crate::host_callbacks::{host_callback_from_json, host_callback_view, parse_host_callback, HostCallback};
use crate::json::{json_text_value, parse_json, JsonValue};
use crate::native_bridge::{discovery_callback_spec, picker_callback_spec, termux_callback_spec, NativeMobileEvent, NativeMobileEventView};
use crate::text::{join, join_strings, str_eq};
use vstd::prelude::*;

verus! {

broadcast use vstd::string::group_string_axioms;

/// A command for the Kotlin host coordinator.
#[derive(Clone, Debug, PartialEq, Eq)]
pub enum AndroidHostAction {
    OpenDocumentPicker {
        request_id: String,
        action: String,
        category: String,
        mime_types: Vec<String>,
        allow_multiple: bool,
    },
    StartPcGatewayDiscovery { request_id: String, service_type: String },
    RunTermuxCommand { request_id: String, command: String, working_dir: String, timeout_secs: Option<u64> },
    ShareFile { path: String, mime_type: Option<String> },
    OpenUrl { url: String },
    LaunchApp { package: String },
    OpenSystemSettings,
    OpenTerminal { workspace_id: String },
    TerminalInput { session_id: String, input: String },
    CloseTerminal { session_id: String },
}

/// The action that carries a command over field for field, for the commands
/// that need no conversion.
pub open spec fn plain_action(c: NativeMobileCommand) -> Option<AndroidHostAction> {
    match c {
        NativeMobileCommand::ShareFile { path, mime_type } => Some(AndroidHostAction::ShareFile { path, mime_type }),
        NativeMobileCommand::OpenUrl { url } => Some(AndroidHostAction::OpenUrl { url }),
        NativeMobileCommand::LaunchApp { package } => Some(AndroidHostAction::LaunchApp { package }),
        NativeMobileCommand::OpenSystemSettings => Some(AndroidHostAction::OpenSystemSettings),
        NativeMobileCommand::OpenTerminal { workspace_id } => Some(AndroidHostAction::OpenTerminal { workspace_id }),
        NativeMobileCommand::TerminalInput { session_id, input } => Some(
            AndroidHostAction::TerminalInput { session_id, input },
        ),
        NativeMobileCommand::CloseTerminal { session_id } => Some(AndroidHostAction::CloseTerminal { session_id }),
        _ => None,
    }
}

fn to_plain_action(c: NativeMobileCommand) -> (r: Option<AndroidHostAction>)
    ensures
        r == plain_action(c),
{
    match c {
        NativeMobileCommand::ShareFile { path, mime_type } => Some(AndroidHostAction::ShareFile { path, mime_type }),
        NativeMobileCommand::OpenUrl { url } => Some(AndroidHostAction::OpenUrl { url }),
        NativeMobileCommand::LaunchApp { package } => Some(AndroidHostAction::LaunchApp { package }),
        NativeMobileCommand::OpenSystemSettings => Some(AndroidHostAction::OpenSystemSettings),
        NativeMobileCommand::OpenTerminal { workspace_id } => Some(AndroidHostAction::OpenTerminal { workspace_id }),
        NativeMobileCommand::TerminalInput { session_id, input } => Some(
            AndroidHostAction::TerminalInput { session_id, input },
        ),
        NativeMobileCommand::CloseTerminal { session_id } => Some(AndroidHostAction::CloseTerminal { session_id }),
        _ => None,
    }
}

/// The queue and the action after the plain commands are drained from the
/// front: the first one that has an action, with the ones before it (which
/// have none) dropped.
pub open spec fn drain_plain(q: Seq<NativeMobileCommand>) -> (Seq<NativeMobileCommand>, Option<AndroidHostAction>)
    decreases q.len(),
{
    if q.len() == 0 {
        (q, None)
    } else {
        match plain_action(q[0]) {
            Some(a) => (q.drop_first(), Some(a)),
            None => drain_plain(q.drop_first()),
        }
    }
}

/// `a` opens the picker as the command numbered `sequence` for `request` says.
pub open spec fn picker_action_for(
    a: AndroidHostAction,
    request: crate::document_picker::DocumentPickerRequest,
    sequence: u64,
) -> bool {
    a matches AndroidHostAction::OpenDocumentPicker { request_id, action, category, mime_types, allow_multiple }
        && request_id@ == picker_request_id(sequence) && action@ == "android.intent.action.OPEN_DOCUMENT"@
        && category@ == "android.intent.category.OPENABLE"@ && allow_multiple == (request.mode
        == DocumentPickerMode::Multiple) && strings_view(mime_types@) == strings_view(request.mime_types@)
}

/// `a` runs the Termux request's shell command.
pub open spec fn termux_action_for(a: AndroidHostAction, request: crate::native_termux::TermuxExecRequest) -> bool {
    a matches AndroidHostAction::RunTermuxCommand { request_id, command, working_dir, timeout_secs }
        && request_id@ == request.request_id@ && command@ == request.command@ && working_dir@
        == request.working_dir@ && timeout_secs == request.timeout_secs
}

/// The shell command of a Termux command: the script after `-lc`, or the
/// arguments joined by spaces.
pub open spec fn shell_command(c: AndroidTermuxCommand) -> Seq<char> {
    if c.arguments@.len() >= 2 && c.arguments@[0]@ == "-lc"@ {
        c.arguments@[1]@
    } else {
        join(strings_view(c.arguments@), " "@)
    }
}

fn document_picker_action(command: AndroidDocumentPickerCommand) -> (r: AndroidHostAction)
    ensures
        r == (AndroidHostAction::OpenDocumentPicker {
            request_id: command.request_id,
            action: command.action,
            category: command.category,
            mime_types: command.mime_types,
            allow_multiple: command.allow_multiple,
        }),
{
    AndroidHostAction::OpenDocumentPicker {
        request_id: command.request_id,
        action: command.action,
        category: command.category,
        mime_types: command.mime_types,
        allow_multiple: command.allow_multiple,
    }
}

fn pc_discovery_action(command: AndroidPcGatewayDiscoveryCommand) -> (r: AndroidHostAction)
    ensures
        r == (AndroidHostAction::StartPcGatewayDiscovery {
            request_id: command.request_id,
            service_type: command.service_type,
        }),
{
    AndroidHostAction::StartPcGatewayDiscovery { request_id: command.request_id, service_type: command.service_type }
}

fn termux_action(command: AndroidTermuxCommand) -> (r: AndroidHostAction)
    ensures
        r matches AndroidHostAction::RunTermuxCommand { request_id, command: shell, working_dir, timeout_secs }
            && request_id == command.request_id && shell@ == shell_command(command) && working_dir
            == command.working_dir && timeout_secs == command.timeout_secs,
{
    let shell = if command.arguments.len() >= 2 && str_eq(command.arguments[0].as_str(), "-lc") {
        command.arguments[1].clone()
    } else {
        join_strings(&command.arguments, " ")
    };
    proof {
        assert(strings_view(command.arguments@) =~= command.arguments@.map_values(|p: String| p@));
    }
    AndroidHostAction::RunTermuxCommand {
        request_id: command.request_id,
        command: shell,
        working_dir: command.working_dir,
        timeout_secs: command.timeout_secs,
    }
}

/// Takes the next command out of the bridge and says what the host should
/// run: a picker request first (numbered by the bridge), then a discovery (timed
/// from `now_unix`), a Termux command, a terminal command, and then the
/// oldest other command that the host can run; `None` when nothing is left.
pub fn drain_next_host_action(bridge: &mut NativeBridgeState, now_unix: u64) -> (r: Option<
    AndroidHostAction,
>)
    ensures
        ({
            let p = old(bridge)@.pending_commands;
            let s = old(bridge)@;
            if first_of_kind(p, CommandKind::DocumentPicker) < p.len() {
                let i = first_of_kind(p, CommandKind::DocumentPicker);
                p[i] matches NativeMobileCommand::OpenDocumentPicker(request) && r matches Some(a)
                    && picker_action_for(a, request, s.next_picker_request_id) && final(bridge)@ == (NativeBridgeView {
                    pending_commands: p.remove(i),
                    active_document_picker_request_id: Some(picker_request_id(s.next_picker_request_id)),
                    next_picker_request_id: crate::native_bridge::next_picker_number(s.next_picker_request_id),
                    ..s
                })
            } else if first_of_kind(p, CommandKind::PcDiscovery) < p.len() {
                let i = first_of_kind(p, CommandKind::PcDiscovery);
                p[i] matches NativeMobileCommand::StartPcGatewayDiscovery(c) && r == Some(
                    AndroidHostAction::StartPcGatewayDiscovery {
                        request_id: c.request_id,
                        service_type: c.service_type,
                    },
                ) && final(bridge)@ == (NativeBridgeView {
                    pending_commands: p.remove(i),
                    active_pc_discovery_request_id: Some(c.request_id@),
                    active_pc_discovery_since_unix: Some(now_unix),
                    ..s
                })
            } else if first_of_kind(p, CommandKind::Termux) < p.len() {
                let i = first_of_kind(p, CommandKind::Termux);
                p[i] matches NativeMobileCommand::RunTermuxCommand(request) && r matches Some(a)
                    && termux_action_for(a, request) && final(bridge)@ == (NativeBridgeView {
                    pending_commands: p.remove(i),
                    active_termux_request_ids: s.active_termux_request_ids.push(request.request_id@),
                    active_termux_since_unix: if s.active_termux_request_ids.len() == 0 {
                        Some(now_unix)
                    } else {
                        s.active_termux_since_unix
                    },
                    ..s
                })
            } else if first_of_kind(p, CommandKind::Terminal) < p.len() {
                let i = first_of_kind(p, CommandKind::Terminal);
                r == plain_action(p[i]) && r is Some && final(bridge)@ == (NativeBridgeView {
                    pending_commands: p.remove(i),
                    ..s
                })
            } else {
                let (q, a) = drain_plain(p);
                r == a && final(bridge)@ == (NativeBridgeView { pending_commands: q, ..s })
            }
        }),
{
    let ghost p = old(bridge)@.pending_commands;
    let ghost s = old(bridge)@;
    proof {
        crate::native_bridge::lemma_first_of_kind_found(p, CommandKind::DocumentPicker);
        crate::native_bridge::lemma_first_of_kind_found(p, CommandKind::PcDiscovery);
        crate::native_bridge::lemma_first_of_kind_found(p, CommandKind::Termux);
        crate::native_bridge::lemma_first_of_kind_found(p, CommandKind::Terminal);
    }
    if let Some(command) = bridge.pop_next_android_document_picker_command() {
        return Some(document_picker_action(command));
    }
    if let Some(command) = bridge.pop_next_android_pc_discovery_command(now_unix) {
        return Some(pc_discovery_action(command));
    }
    if let Some(command) = bridge.pop_next_android_termux_command(now_unix) {
        let a = termux_action(command);
        return Some(a);
    }
    if let Some(command) = bridge.pop_terminal_command() {
        return to_plain_action(command);
    }
    assert(bridge@ == s);
    loop
        invariant
            p == old(bridge)@.pending_commands,
            s == old(bridge)@,
            !(first_of_kind(p, CommandKind::DocumentPicker) < p.len()),
            !(first_of_kind(p, CommandKind::PcDiscovery) < p.len()),
            !(first_of_kind(p, CommandKind::Termux) < p.len()),
            !(first_of_kind(p, CommandKind::Terminal) < p.len()),
            bridge@ == (NativeBridgeView { pending_commands: bridge@.pending_commands, ..s }),
            drain_plain(bridge@.pending_commands) == drain_plain(p),
        decreases bridge.pending_commands.len(),
    {
        let ghost q = bridge@.pending_commands;
        match bridge.pop_next_command() {
            None => {
                return None;
            },
            Some(c) => {
                match to_plain_action(c) {
                    Some(a) => {
                        return Some(a);
                    },
                    None => {
                        assert(drain_plain(q) == drain_plain(q.drop_first()));
                    },
                }
            },
        }
    }
}

/// The bridge and the event after it accepted a host callback.
pub open spec fn callback_accepted(s: NativeBridgeView, cb: HostCallback, saved_pending: bool) -> (
    NativeBridgeView,
    NativeMobileEventView,
) {
    match cb {
        HostCallback::DocumentPicker(c) => picker_callback_spec(s, c),
        HostCallback::PcDiscovery(c) => discovery_callback_spec(s, c),
        HostCallback::Termux(c) => termux_callback_spec(s, c, saved_pending),
    }
}

/// Hands a host callback to the bridge. `saved_pending` says whether the
/// runtime store holds a Termux request that the callback answers.
pub fn accept_host_callback(bridge: &mut NativeBridgeState, cb: HostCallback, saved_pending: bool) -> (r:
    NativeMobileEvent)
    ensures
        (final(bridge)@, r@) == callback_accepted(old(bridge)@, cb, saved_pending),
{
    match cb {
        HostCallback::DocumentPicker(c) => bridge.accept_android_document_picker_callback(c),
        HostCallback::PcDiscovery(c) => bridge.accept_android_pc_discovery_callback(c),
        HostCallback::Termux(c) => bridge.accept_android_termux_callback(c, saved_pending),
    }
}

/// Applies a parsed host callback payload to the bridge: a payload that does
/// not read as a callback changes nothing and gives no event; otherwise the
/// callback it carries is accepted.
pub fn apply_host_callback_value(bridge: &mut NativeBridgeState, value: &JsonValue, saved_pending: bool) -> (r: Option<
    NativeMobileEvent,
>)
    ensures
        host_callback_from_json(*value) is None ==> r is None && final(bridge)@ == old(bridge)@,
        host_callback_from_json(*value) is Some ==> exists|cb: HostCallback|
            #[trigger] host_callback_view(cb) == host_callback_from_json(*value).unwrap() && (r matches Some(e)
                && (final(bridge)@, e@) == callback_accepted(old(bridge)@, cb, saved_pending)),
{
    match parse_host_callback(value) {
        Some(cb) => {
            let ghost c = cb;
            let e = accept_host_callback(bridge, cb, saved_pending);
            assert(host_callback_view(c) == host_callback_from_json(*value).unwrap());
            Some(e)
        },
        None => None,
    }
}

/// Applies a host callback payload, given as JSON text, to the bridge: text
/// that is not JSON, or JSON that does not read as a callback, changes
/// nothing and gives no event; otherwise the callback it carries is accepted.
pub fn apply_host_callback_json(bridge: &mut NativeBridgeState, payload: &str, saved_pending: bool) -> (r: Option<
    NativeMobileEvent,
>)
    ensures
        match json_text_value(payload@) {
            None => r is None && final(bridge)@ == old(bridge)@,
            Some(v) => match host_callback_from_json(v) {
                None => r is None && final(bridge)@ == old(bridge)@,
                Some(c) => exists|cb: HostCallback|
                    #[trigger] host_callback_view(cb) == c && (r matches Some(e) && (final(bridge)@, e@)
                        == callback_accepted(old(bridge)@, cb, saved_pending)),
            },
        },
{
    match parse_json(payload) {
        Some(v) => apply_host_callback_value(bridge, &v, saved_pending),
        None => None,
    }
}

} // verus!
