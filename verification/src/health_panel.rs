//! The rows of the health screen that are decided from the runtime's state:
//! the execution mode, the MCP servers and the native bridge.
use crate::agent_mode::ExecutionMode;
use crate::locale::AppLanguage;
use crate::text::{decimal, push_decimal};
use vstd::prelude::*;

verus! {

broadcast use vstd::string::group_string_axioms;

/// A shortcut that a row of the health screen offers.
#[derive(Clone, Copy, Debug, PartialEq, Eq, Structural)]
pub enum HealthQuickAction {
    RunTermuxCheck,
    OpenSettings,
    OpenPcHost,
    OpenFiles,
}

/// The label of an execution mode, with what it means.
pub open spec fn execution_mode_label_spec(lang: AppLanguage, mode: ExecutionMode) -> Seq<char> {
    match (lang, mode) {
        (AppLanguage::Ru, ExecutionMode::Plan) => "Plan (инструменты выкл.)"@,
        (AppLanguage::En, ExecutionMode::Plan) => "Plan (tools disabled)"@,
        (AppLanguage::Ru, ExecutionMode::Agent) => "Agent (рекомендуется)"@,
        (AppLanguage::En, ExecutionMode::Agent) => "Agent (recommended)"@,
        (AppLanguage::Ru, ExecutionMode::Yolo) => "YOLO (авто-одобрение)"@,
        (AppLanguage::En, ExecutionMode::Yolo) => "YOLO (auto-approve)"@,
    }
}

/// The label of an execution mode on the health screen.
pub fn execution_mode_label(lang: AppLanguage, mode: ExecutionMode) -> (r: &'static str)
    ensures
        r@ == execution_mode_label_spec(lang, mode),
{
    match (lang, mode) {
        (AppLanguage::Ru, ExecutionMode::Plan) => "Plan (инструменты выкл.)",
        (AppLanguage::En, ExecutionMode::Plan) => "Plan (tools disabled)",
        (AppLanguage::Ru, ExecutionMode::Agent) => "Agent (рекомендуется)",
        (AppLanguage::En, ExecutionMode::Agent) => "Agent (recommended)",
        (AppLanguage::Ru, ExecutionMode::Yolo) => "YOLO (авто-одобрение)",
        (AppLanguage::En, ExecutionMode::Yolo) => "YOLO (auto-approve)",
    }
}

/// The execution mode row is green only in the agent mode.
pub fn execution_mode_ok(mode: ExecutionMode) -> (r: bool)
    ensures
        r == (mode == ExecutionMode::Agent),
{
    match mode {
        ExecutionMode::Agent => true,
        _ => false,
    }
}

/// `connected/total connected`, in the interface language.
pub open spec fn mcp_status_text_spec(lang: AppLanguage, connected: nat, total: nat) -> Seq<char> {
    decimal(connected) + "/"@ + decimal(total) + match lang {
        AppLanguage::Ru => " подключено"@,
        AppLanguage::En => " connected"@,
    }
}

/// The MCP row's text: how many of the configured servers are connected.
pub fn mcp_status_text(lang: AppLanguage, connected: usize, total: usize) -> (r: String)
    ensures
        r@ == mcp_status_text_spec(lang, connected as nat, total as nat),
{
    let mut r = String::new();
    push_decimal(&mut r, connected as u128);
    r.append("/");
    push_decimal(&mut r, total as u128);
    match lang {
        AppLanguage::Ru => r.append(" подключено"),
        AppLanguage::En => r.append(" connected"),
    }
    r
}

/// The MCP row is green when a server is connected or none is configured.
pub fn mcp_status_ok(connected: usize, total: usize) -> (r: bool)
    ensures
        r == (connected > 0 || total == 0),
{
    connected > 0 || total == 0
}

/// The native bridge row: waiting for a callback, showing an error, or idle;
/// green only when idle.
pub open spec fn native_bridge_row_spec(lang: AppLanguage, pending: bool, has_error: bool) -> (Seq<char>, bool) {
    let text = if pending {
        match lang {
            AppLanguage::Ru => "Ожидание callback"@,
            AppLanguage::En => "Waiting for Android callback"@,
        }
    } else if has_error {
        match lang {
            AppLanguage::Ru => "Ошибка (ниже)"@,
            AppLanguage::En => "Error (see below)"@,
        }
    } else {
        match lang {
            AppLanguage::Ru => "Простой"@,
            AppLanguage::En => "Idle"@,
        }
    };
    (text, !pending && !has_error)
}

/// The text of the native bridge row and whether it is green.
pub fn native_bridge_row(lang: AppLanguage, pending: bool, has_error: bool) -> (r: (&'static str, bool))
    ensures
        (r.0@, r.1) == native_bridge_row_spec(lang, pending, has_error),
{
    let text = if pending {
        match lang {
            AppLanguage::Ru => "Ожидание callback",
            AppLanguage::En => "Waiting for Android callback",
        }
    } else if has_error {
        match lang {
            AppLanguage::Ru => "Ошибка (ниже)",
            AppLanguage::En => "Error (see below)",
        }
    } else {
        match lang {
            AppLanguage::Ru => "Простой",
            AppLanguage::En => "Idle",
        }
    };
    (text, !pending && !has_error)
}

} // verus!
