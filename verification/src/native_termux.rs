//! Termux `RUN_COMMAND` requests as the Android host runs them, and the
//! callbacks that answer them.
use crate::agent_timeline::opt_view;
use crate::text::owned;
use vstd::prelude::*;

verus! {

broadcast use vstd::string::group_string_axioms;

/// The shell binary of Termux that runs every command.
pub const TERMUX_SHELL_PATH: &'static str = "/data/data/com.termux/files/usr/bin/sh";

/// A shell command that the agent wants Termux to run.
#[derive(Clone, Debug, PartialEq, Eq)]
pub struct TermuxExecRequest {
    pub request_id: String,
    pub command: String,
    pub working_dir: String,
    pub timeout_secs: Option<u64>,
}

/// A Termux request as values.
pub struct TermuxExecRequestView {
    pub request_id: Seq<char>,
    pub command: Seq<char>,
    pub working_dir: Seq<char>,
    pub timeout_secs: Option<u64>,
}

impl View for TermuxExecRequest {
    type V = TermuxExecRequestView;

    open spec fn view(&self) -> TermuxExecRequestView {
        TermuxExecRequestView {
            request_id: self.request_id@,
            command: self.command@,
            working_dir: self.working_dir@,
            timeout_secs: self.timeout_secs,
        }
    }
}

/// What Termux reported for a finished command.
#[derive(Clone, Debug, PartialEq, Eq)]
pub struct TermuxExecResult {
    pub request_id: String,
    pub stdout: String,
    pub stderr: String,
    pub exit_code: Option<i32>,
    pub timed_out: bool,
    pub error: Option<String>,
}

/// A Termux result as values.
pub struct TermuxExecResultView {
    pub request_id: Seq<char>,
    pub stdout: Seq<char>,
    pub stderr: Seq<char>,
    pub exit_code: Option<i32>,
    pub timed_out: bool,
    pub error: Option<Seq<char>>,
}

impl View for TermuxExecResult {
    type V = TermuxExecResultView;

    open spec fn view(&self) -> TermuxExecResultView {
        TermuxExecResultView {
            request_id: self.request_id@,
            stdout: self.stdout@,
            stderr: self.stderr@,
            exit_code: self.exit_code,
            timed_out: self.timed_out,
            error: opt_view(self.error),
        }
    }
}

/// A copy of an optional string.
pub fn copy_opt_string(o: &Option<String>) -> (r: Option<String>)
    ensures
        r == *o,
{
    match o {
        Some(s) => Some(s.clone()),
        None => None,
    }
}

impl TermuxExecResult {
    /// A field-for-field copy.
    pub fn duplicate(&self) -> (r: Self)
        ensures
            r == *self,
    {
        TermuxExecResult {
            request_id: self.request_id.clone(),
            stdout: self.stdout.clone(),
            stderr: self.stderr.clone(),
            exit_code: self.exit_code,
            timed_out: self.timed_out,
            error: copy_opt_string(&self.error),
        }
    }
}

/// The intent extras of a Termux `RUN_COMMAND` call.
#[derive(Clone, Debug, PartialEq, Eq)]
pub struct AndroidTermuxCommand {
    pub request_id: String,
    pub command_path: String,
    pub arguments: Vec<String>,
    pub working_dir: String,
    pub background: bool,
    pub timeout_secs: Option<u64>,
}

/// `c` runs `request` as `sh -lc <command>` in the background, in the
/// request's working directory and with its timeout.
pub open spec fn termux_command_for(c: AndroidTermuxCommand, request: TermuxExecRequest) -> bool {
    &&& c.request_id@ == request.request_id@
    &&& c.command_path@ == TERMUX_SHELL_PATH@
    &&& c.arguments@.len() == 2
    &&& c.arguments@[0]@ == "-lc"@
    &&& c.arguments@[1]@ == request.command@
    &&& c.working_dir@ == request.working_dir@
    &&& c.background
    &&& c.timeout_secs == request.timeout_secs
}

impl AndroidTermuxCommand {
    /// The request run as `sh -lc <command>` in the background, in its working directory.
    pub fn from_request(request: &TermuxExecRequest) -> (r: Self)
        ensures
            termux_command_for(r, *request),
    {
        let mut arguments: Vec<String> = Vec::new();
        arguments.push(owned("-lc"));
        arguments.push(request.command.clone());
        AndroidTermuxCommand {
            request_id: request.request_id.clone(),
            command_path: owned(TERMUX_SHELL_PATH),
            arguments,
            working_dir: request.working_dir.clone(),
            background: true,
            timeout_secs: request.timeout_secs,
        }
    }
}

/// What the Android host answers to a Termux command.
#[derive(Clone, Debug, PartialEq, Eq)]
pub enum AndroidTermuxCallback {
    Completed(TermuxExecResult),
    Failed { request_id: String, message: String },
}

impl AndroidTermuxCallback {
    /// The id of the request that the callback answers.
    pub open spec fn request_id_spec(&self) -> Seq<char> {
        match self {
            AndroidTermuxCallback::Completed(result) => result.request_id@,
            AndroidTermuxCallback::Failed { request_id, .. } => request_id@,
        }
    }

    /// The id of the request that the callback answers.
    pub fn request_id(&self) -> (r: &str)
        ensures
            r@ == self.request_id_spec(),
    {
        match self {
            AndroidTermuxCallback::Completed(result) => result.request_id.as_str(),
            AndroidTermuxCallback::Failed { request_id, .. } => request_id.as_str(),
        }
    }
}

} // verus!
