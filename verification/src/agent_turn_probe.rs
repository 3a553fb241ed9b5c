//! The decisions of the one-shot agent turn that device scripts ask for:
//! which message to send, whether the turn must go through Termux, when a
//! Termux result has arrived, and whether the reply counts.
use crate::native_bridge::{NativeMobileEvent, NativeMobileEventView};
use crate::native_event_router::{byte_len, utf8_len};
use crate::native_termux::{TermuxExecResult, TermuxExecResultView};
use crate::text::{contains, decimal, is_blank, owned, push_decimal, str_contains, str_eq, trim, trim_str};
use vstd::prelude::*;

verus! {

broadcast use vstd::string::group_string_axioms;

/// The message of a probe that checks the Termux shell.
pub const TERMUX_PWD_PROBE_MESSAGE: &'static str = "In the Termux project workspace, use the real shell. Your first response must be exactly this JSON object and no prose: {\"tool\":\"exec_shell\",\"args\":{\"command\":\"pwd\",\"timeout_secs\":30}}. After the tool result is returned, reply with one line: the printed working directory path only.";

/// The message of a probe that names none.
pub const DEFAULT_PROBE_MESSAGE: &'static str = "Reply with exactly: PROBE_OK";

/// The message a probe sends: the Termux shell check, else the saved
/// message trimmed when it is not blank, else the default.
pub open spec fn probe_message_text(termux_pwd: bool, saved: Option<Seq<char>>) -> Seq<char> {
    if termux_pwd {
        TERMUX_PWD_PROBE_MESSAGE@
    } else {
        match saved {
            Some(m) => if trim(m).len() > 0 {
                trim(m)
            } else {
                DEFAULT_PROBE_MESSAGE@
            },
            None => DEFAULT_PROBE_MESSAGE@,
        }
    }
}

/// The message a probe sends.
pub fn probe_message(termux_pwd: bool, saved: Option<&str>) -> (r: String)
    ensures
        r@ == probe_message_text(
            termux_pwd,
            match saved {
                Some(m) => Some(m@),
                None => None,
            },
        ),
{
    if termux_pwd {
        return owned(TERMUX_PWD_PROBE_MESSAGE);
    }
    match saved {
        Some(m) => {
            let t = trim_str(m);
            if t.unicode_len() > 0 {
                t
            } else {
                owned(DEFAULT_PROBE_MESSAGE)
            }
        },
        None => owned(DEFAULT_PROBE_MESSAGE),
    }
}

/// A probe that exercises a Termux file tool.
pub open spec fn file_tool_probe(message: Seq<char>) -> bool {
    contains(message, "write_file"@) || contains(message, "delete_file"@)
}

/// A probe whose turn must call a Termux tool.
pub open spec fn needs_termux_tool(termux_pwd: bool, message: Seq<char>) -> bool {
    termux_pwd || contains(message, "exec_shell"@) || file_tool_probe(message) || contains(
        message,
        "DSM_PROJECT_PROBE"@,
    )
}

/// Whether the probe exercises a Termux file tool, and whether its turn must
/// call a Termux tool at all.
pub fn probe_requirements(termux_pwd: bool, message: &str) -> (r: (bool, bool))
    ensures
        r.0 == file_tool_probe(message@),
        r.1 == needs_termux_tool(termux_pwd, message@),
{
    let file_tool = str_contains(message, "write_file") || str_contains(message, "delete_file");
    let termux = termux_pwd || str_contains(message, "exec_shell") || file_tool || str_contains(
        message,
        "DSM_PROJECT_PROBE",
    );
    (file_tool, termux)
}

/// The thread of a probe started at `millis`.
pub fn unique_probe_thread_id(millis: u128) -> (r: String)
    ensures
        r@ == "__deepseek_adb_probe__"@ + decimal(millis as nat),
{
    let mut s = owned("__deepseek_adb_probe__");
    push_decimal(&mut s, millis);
    s
}

/// Text that shows the model answered: a probe marker, or more than two bytes.
pub open spec fn counts_as_reply(t: Seq<char>) -> bool {
    contains(t, "PROBE_OK"@) || contains(t, "HELLO_E2E_OK"@) || contains(t, "HELLO_E2E"@) || utf8_len(t) > 2
}

/// Whether a streamed or final text shows that the model answered.
pub fn reply_counts(text: &str) -> (r: bool)
    ensures
        r == counts_as_reply(text@),
{
    str_contains(text, "PROBE_OK") || str_contains(text, "HELLO_E2E_OK") || str_contains(text, "HELLO_E2E")
        || byte_len(text) > 2
}

/// What the last bridge event says of the Termux request being waited for:
/// its result, its failure message, or nothing yet.
pub open spec fn termux_outcome(e: Option<NativeMobileEventView>, request_id: Seq<char>) -> Option<
    Result<TermuxExecResultView, Seq<char>>,
> {
    match e {
        Some(NativeMobileEventView::TermuxCommandCompleted(r)) => if r.request_id == request_id {
            Some(Ok(r))
        } else {
            None
        },
        Some(NativeMobileEventView::TermuxCommandFailed { request_id: id, message }) => if id == request_id {
            Some(Err(message))
        } else {
            None
        },
        _ => None,
    }
}

/// What the last bridge event says of the Termux request being waited for.
pub fn termux_wait_outcome(last_event: &Option<NativeMobileEvent>, request_id: &str) -> (r: Option<
    Result<TermuxExecResult, String>,
>)
    ensures
        match r {
            None => termux_outcome(crate::native_bridge::opt_event_view(*last_event), request_id@) is None,
            Some(Ok(x)) => termux_outcome(crate::native_bridge::opt_event_view(*last_event), request_id@) == Some(
                Ok::<TermuxExecResultView, Seq<char>>(x@),
            ),
            Some(Err(m)) => termux_outcome(crate::native_bridge::opt_event_view(*last_event), request_id@) == Some(
                Err::<TermuxExecResultView, Seq<char>>(m@),
            ),
        },
{
    match last_event {
        Some(NativeMobileEvent::TermuxCommandCompleted(result)) => {
            if str_eq(result.request_id.as_str(), request_id) {
                Some(Ok(result.duplicate()))
            } else {
                None
            }
        },
        Some(NativeMobileEvent::TermuxCommandFailed { request_id: id, message }) => {
            if str_eq(id.as_str(), request_id) {
                Some(Err(message.clone()))
            } else {
                None
            }
        },
        _ => None,
    }
}

/// The error when no Termux result came in time.
pub fn termux_wait_timeout_message(request_id: &str) -> (r: String)
    ensures
        r@ == "timeout waiting for Termux request "@ + request_id@,
{
    crate::text::concat("timeout waiting for Termux request ", request_id)
}

/// A Termux shell result that shows a real working directory or the probe marker.
pub open spec fn real_stdout(r: TermuxExecResultView) -> bool {
    r.exit_code == Some(0i32) && (contains(r.stdout, "/data/"@) || contains(r.stdout, "/home/"@) || contains(
        r.stdout,
        "HELLO_E2E"@,
    ))
}

/// Whether a Termux shell result shows a real working directory or the probe marker.
pub fn termux_stdout_ok(result: &TermuxExecResult) -> (r: bool)
    ensures
        r == real_stdout(result@),
{
    let exit_ok = match result.exit_code {
        Some(c) => c == 0,
        None => false,
    };
    exit_ok && (str_contains(result.stdout.as_str(), "/data/") || str_contains(result.stdout.as_str(), "/home/")
        || str_contains(result.stdout.as_str(), "HELLO_E2E"))
}

/// The model a Termux shell probe pins, so that the run checks the tool loop
/// and the bridge rather than the routing of the automatic mode.
pub const PROBE_FLASH_MODEL: &'static str = "deepseek-v4-flash";

/// How a probe turn departs from the saved configuration.
#[derive(Clone, Copy, Debug, PartialEq, Eq, Structural)]
pub struct ProbeTurnSettings {
    /// Run tools without asking (the probe asked for it).
    pub yolo_execution: bool,
    /// Turn the automatic mode and thinking off and use the flash model.
    pub pin_flash_model: bool,
}

/// The settings of a probe turn: the execution mode follows the yolo flag,
/// and a Termux shell probe pins the flash model.
pub fn probe_turn_settings(termux_pwd: bool, yolo: bool) -> (r: ProbeTurnSettings)
    ensures
        r == (ProbeTurnSettings { yolo_execution: yolo, pin_flash_model: termux_pwd }),
{
    ProbeTurnSettings { yolo_execution: yolo, pin_flash_model: termux_pwd }
}

/// Where a probe turn stands once the agent has answered, once the Termux
/// result has come in, and once the turn has been continued with it.
#[derive(Clone, Copy, Debug, PartialEq, Eq, Structural)]
pub enum TurnProbeStep {
    /// The turn stopped at approval cards.
    PartialApprovals,
    /// A Termux tool was required and none was called.
    FailToolNotObserved,
    /// A Termux request was queued: wait for its result.
    WaitForTermux,
    /// A Termux tool was called but no request reached the queue.
    FailRequestNotQueued,
    /// A plain turn got a reply.
    Pass,
    /// A plain turn got no reply.
    PartialEmptyReply,
    /// The file tool ran with exit code 0.
    PassWriteFile,
    /// The file tool failed.
    FailWriteFile,
    /// The shell result came in: continue the turn with it.
    ContinueWithResult,
    /// The host reported the Termux request as failed (or it timed out).
    FailNativeFailed,
    /// The continued turn ran on a real shell result.
    PassTermuxReal,
    /// The continued turn ran, but the shell output was not the expected one.
    FailOutputUnexpected,
    /// The turn could not be continued with the shell result.
    FailContinuationFailed,
}

/// The step after the agent's answer: approval cards first; then, for a
/// probe that needs Termux, whether a tool was called and a request queued;
/// otherwise whether a reply (final or streamed) came.
pub open spec fn probe_turn_step_spec(
    approval_cards: usize,
    requires_termux_tool: bool,
    termux_tool_seen: bool,
    request_queued: bool,
    final_text: Option<Seq<char>>,
    saw_text: bool,
) -> TurnProbeStep {
    if approval_cards > 0 {
        TurnProbeStep::PartialApprovals
    } else if requires_termux_tool {
        if !termux_tool_seen {
            TurnProbeStep::FailToolNotObserved
        } else if request_queued {
            TurnProbeStep::WaitForTermux
        } else {
            TurnProbeStep::FailRequestNotQueued
        }
    } else if (final_text matches Some(t) && counts_as_reply(t)) || saw_text {
        TurnProbeStep::Pass
    } else {
        TurnProbeStep::PartialEmptyReply
    }
}

/// The step after the agent's answer to a probe turn.
pub fn probe_turn_step(
    approval_cards: usize,
    requires_termux_tool: bool,
    termux_tool_seen: bool,
    pending_request_id: &Option<String>,
    final_text: Option<&str>,
    saw_text: bool,
) -> (r: TurnProbeStep)
    ensures
        r == probe_turn_step_spec(
            approval_cards,
            requires_termux_tool,
            termux_tool_seen,
            pending_request_id is Some,
            match final_text {
                Some(t) => Some(t@),
                None => None,
            },
            saw_text,
        ),
{
    if approval_cards > 0 {
        TurnProbeStep::PartialApprovals
    } else if requires_termux_tool {
        if !termux_tool_seen {
            TurnProbeStep::FailToolNotObserved
        } else if pending_request_id.is_some() {
            TurnProbeStep::WaitForTermux
        } else {
            TurnProbeStep::FailRequestNotQueued
        }
    } else {
        let final_ok = match final_text {
            Some(t) => reply_counts(t),
            None => false,
        };
        if final_ok || saw_text {
            TurnProbeStep::Pass
        } else {
            TurnProbeStep::PartialEmptyReply
        }
    }
}

/// The step once the Termux request has an outcome: a file tool probe is
/// judged by the exit code; a shell probe continues the turn; a failure ends it.
pub open spec fn probe_termux_step_spec(file_tool_probe: bool, outcome: Result<TermuxExecResultView, Seq<char>>) -> TurnProbeStep {
    match outcome {
        Ok(r) => if file_tool_probe {
            if r.exit_code == Some(0i32) {
                TurnProbeStep::PassWriteFile
            } else {
                TurnProbeStep::FailWriteFile
            }
        } else {
            TurnProbeStep::ContinueWithResult
        },
        Err(_) => TurnProbeStep::FailNativeFailed,
    }
}

/// The step once the Termux request being waited for has an outcome.
pub fn probe_termux_step(file_tool_probe: bool, outcome: &Result<TermuxExecResult, String>) -> (r: TurnProbeStep)
    ensures
        r == probe_termux_step_spec(
            file_tool_probe,
            match outcome {
                Ok(x) => Ok(x@),
                Err(e) => Err(e@),
            },
        ),
{
    match outcome {
        Ok(result) => {
            if file_tool_probe {
                let exit_ok = match result.exit_code {
                    Some(c) => c == 0,
                    None => false,
                };
                if exit_ok {
                    TurnProbeStep::PassWriteFile
                } else {
                    TurnProbeStep::FailWriteFile
                }
            } else {
                TurnProbeStep::ContinueWithResult
            }
        },
        Err(_) => TurnProbeStep::FailNativeFailed,
    }
}

/// The verdict once the turn was continued with a shell result: a failed
/// continuation, else a pass exactly when the output shows a real shell.
pub open spec fn probe_continuation_step_spec(result: TermuxExecResultView, continued: bool) -> TurnProbeStep {
    if !continued {
        TurnProbeStep::FailContinuationFailed
    } else if real_stdout(result) {
        TurnProbeStep::PassTermuxReal
    } else {
        TurnProbeStep::FailOutputUnexpected
    }
}

/// The verdict once the turn was continued (or not) with a shell result.
pub fn probe_continuation_step(result: &TermuxExecResult, continued: bool) -> (r: TurnProbeStep)
    ensures
        r == probe_continuation_step_spec(result@, continued),
{
    let stdout_ok = termux_stdout_ok(result);
    if !continued {
        TurnProbeStep::FailContinuationFailed
    } else if stdout_ok {
        TurnProbeStep::PassTermuxReal
    } else {
        TurnProbeStep::FailOutputUnexpected
    }
}

/// The head of the result line of each step that ends a probe; the host
/// appends the details (counts, texts and codes) that follow it.
pub open spec fn probe_step_head_spec(step: TurnProbeStep) -> Seq<char> {
    match step {
        TurnProbeStep::PartialApprovals => "PARTIAL approvals="@,
        TurnProbeStep::FailToolNotObserved => "FAIL termux_tool_not_observed termux_tool=false"@,
        TurnProbeStep::WaitForTermux => "WAIT_TERMUX"@,
        TurnProbeStep::FailRequestNotQueued => "FAIL termux_request_not_queued termux_tool=true"@,
        TurnProbeStep::Pass => "PASS"@,
        TurnProbeStep::PartialEmptyReply => "PARTIAL empty_reply"@,
        TurnProbeStep::PassWriteFile => "PASS termux_write_file exit=0"@,
        TurnProbeStep::FailWriteFile => "FAIL termux_write_file"@,
        TurnProbeStep::ContinueWithResult => "TERMUX_RESULT"@,
        TurnProbeStep::FailNativeFailed => "FAIL termux_native_failed"@,
        TurnProbeStep::PassTermuxReal => "PASS termux_real"@,
        TurnProbeStep::FailOutputUnexpected => "FAIL termux_output_unexpected"@,
        TurnProbeStep::FailContinuationFailed => "FAIL termux_continuation_failed"@,
    }
}

/// The head of the result (or trace) line of a step.
pub fn probe_step_head(step: TurnProbeStep) -> (r: &'static str)
    ensures
        r@ == probe_step_head_spec(step),
{
    match step {
        TurnProbeStep::PartialApprovals => "PARTIAL approvals=",
        TurnProbeStep::FailToolNotObserved => "FAIL termux_tool_not_observed termux_tool=false",
        TurnProbeStep::WaitForTermux => "WAIT_TERMUX",
        TurnProbeStep::FailRequestNotQueued => "FAIL termux_request_not_queued termux_tool=true",
        TurnProbeStep::Pass => "PASS",
        TurnProbeStep::PartialEmptyReply => "PARTIAL empty_reply",
        TurnProbeStep::PassWriteFile => "PASS termux_write_file exit=0",
        TurnProbeStep::FailWriteFile => "FAIL termux_write_file",
        TurnProbeStep::ContinueWithResult => "TERMUX_RESULT",
        TurnProbeStep::FailNativeFailed => "FAIL termux_native_failed",
        TurnProbeStep::PassTermuxReal => "PASS termux_real",
        TurnProbeStep::FailOutputUnexpected => "FAIL termux_output_unexpected",
        TurnProbeStep::FailContinuationFailed => "FAIL termux_continuation_failed",
    }
}

} // verus!
