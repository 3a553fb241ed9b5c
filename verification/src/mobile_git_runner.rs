//! The git panel's actions as calls of the `git` tool, and their results
//! applied to the panel.
use crate::agent_timeline::opt_view;
use crate::git_state::{changed_file_count, current_branch_of, GitPanelAction, GitUiState, GitUiView};
use crate::text::{is_blank, is_blank_str, owned, trim, trim_str};
use vstd::prelude::*;

verus! {

broadcast use vstd::string::group_string_axioms;

/// The output of a git action and, after a commit, push or pull, the fresh
/// status, diff and branch listing.
#[derive(Clone, Debug, PartialEq)]
pub struct MobileGitActionResult {
    pub action: GitPanelAction,
    pub output: String,
    pub status_after: Option<String>,
    pub diff_after: Option<String>,
    pub branches_after: Option<String>,
}

/// The panel after a status text is shown.
pub open spec fn with_status(v: GitUiView, t: Seq<char>) -> GitUiView {
    GitUiView { status_text: t, changed_files: changed_file_count(t), error: None, loading: false, ..v }
}

/// The panel after a diff is shown.
pub open spec fn with_diff(v: GitUiView, t: Seq<char>) -> GitUiView {
    GitUiView { diff_text: t, error: None, loading: false, ..v }
}

/// The panel after a branch listing is shown.
pub open spec fn with_branches(v: GitUiView, t: Seq<char>) -> GitUiView {
    GitUiView {
        branch_list: t,
        current_branch: match current_branch_of(t) {
            Some(b) => b,
            None => v.current_branch,
        },
        error: None,
        loading: false,
        ..v
    }
}

/// The panel after command output is shown.
pub open spec fn with_output(v: GitUiView, t: Seq<char>) -> GitUiView {
    GitUiView { status_text: t, error: None, loading: false, ..v }
}

/// The panel after the output of an action is shown where that action's output goes.
pub open spec fn action_output_applied(v: GitUiView, action: GitPanelAction, t: Seq<char>) -> GitUiView {
    match action {
        GitPanelAction::RefreshStatus => with_status(v, t),
        GitPanelAction::RefreshDiff => with_diff(v, t),
        GitPanelAction::ListBranches => with_branches(v, t),
        GitPanelAction::Commit => with_output(GitUiView { commit_message: Seq::empty(), ..v }, t),
        GitPanelAction::Push | GitPanelAction::Pull => with_output(v, t),
    }
}

/// The panel after a whole result: the action's output, then the fresh
/// status, diff and branches that came with it.
pub open spec fn git_result_applied(v: GitUiView, r: MobileGitActionResult) -> GitUiView {
    let v1 = action_output_applied(v, r.action, r.output@);
    let v2 = match r.status_after {
        Some(s) => with_status(v1, s@),
        None => v1,
    };
    let v3 = match r.diff_after {
        Some(d) => with_diff(v2, d@),
        None => v2,
    };
    match r.branches_after {
        Some(b) => with_branches(v3, b@),
        None => v3,
    }
}

/// Shows a git action's result on the panel.
pub fn apply_git_action_result(state: &mut GitUiState, result: MobileGitActionResult)
    ensures
        final(state)@ == git_result_applied(old(state)@, result),
{
    match result.action {
        GitPanelAction::RefreshStatus => state.apply_status(result.output.as_str()),
        GitPanelAction::RefreshDiff => state.apply_diff(result.output.as_str()),
        GitPanelAction::ListBranches => state.apply_branch(result.output.as_str()),
        GitPanelAction::Commit => state.apply_commit(result.output.as_str()),
        GitPanelAction::Push | GitPanelAction::Pull => state.apply_command_output(result.output.as_str()),
    }
    match &result.status_after {
        Some(s) => state.apply_status(s.as_str()),
        None => {},
    }
    match &result.diff_after {
        Some(d) => state.apply_diff(d.as_str()),
        None => {},
    }
    match &result.branches_after {
        Some(b) => state.apply_branch(b.as_str()),
        None => {},
    }
}

/// Whether an action changes the repository, so that status, diff and
/// branches are read again after it.
pub open spec fn refreshes_after_spec(action: GitPanelAction) -> bool {
    action == GitPanelAction::Commit || action == GitPanelAction::Push || action == GitPanelAction::Pull
}

/// Whether status, diff and branches are read again after `action`.
pub fn refreshes_after(action: GitPanelAction) -> (r: bool)
    ensures
        r == refreshes_after_spec(action),
{
    match action {
        GitPanelAction::Commit | GitPanelAction::Push | GitPanelAction::Pull => true,
        _ => false,
    }
}

/// The arguments of one call of the `git` tool.
#[derive(Clone, Debug, PartialEq, Eq)]
pub struct GitToolArgs {
    pub operation: String,
    pub message: Option<String>,
    pub files: Vec<String>,
    pub remote: Option<String>,
    pub branch: Option<String>,
}

/// The arguments of a `git` call as values.
pub struct GitToolArgsView {
    pub operation: Seq<char>,
    pub message: Option<Seq<char>>,
    pub files: Seq<Seq<char>>,
    pub remote: Option<Seq<char>>,
    pub branch: Option<Seq<char>>,
}

impl View for GitToolArgs {
    type V = GitToolArgsView;

    open spec fn view(&self) -> GitToolArgsView {
        GitToolArgsView {
            operation: self.operation@,
            message: opt_view(self.message),
            files: self.files@.map_values(|f: String| f@),
            remote: opt_view(self.remote),
            branch: opt_view(self.branch),
        }
    }
}

/// A call with only an operation.
pub open spec fn operation_only(op: Seq<char>) -> GitToolArgsView {
    GitToolArgsView { operation: op, message: None, files: Seq::empty(), remote: None, branch: None }
}

/// The remote of a push or pull: the trimmed remote, or `origin` when blank.
pub open spec fn remote_of(v: GitUiView) -> Seq<char> {
    if is_blank(v.remote) { "origin"@ } else { trim(v.remote) }
}

/// The branch of a push or pull: the trimmed push branch, else the trimmed
/// current branch; none when that is empty.
pub open spec fn branch_of(v: GitUiView) -> Option<Seq<char>> {
    let b = if is_blank(v.push_branch) { trim(v.current_branch) } else { trim(v.push_branch) };
    if b.len() == 0 { None } else { Some(b) }
}

/// The `git` call for an action, or the error when a commit has no message.
pub open spec fn git_args_spec(action: GitPanelAction, v: GitUiView) -> Result<GitToolArgsView, Seq<char>> {
    match action {
        GitPanelAction::RefreshStatus => Ok(operation_only("status"@)),
        GitPanelAction::RefreshDiff => Ok(operation_only("diff"@)),
        GitPanelAction::ListBranches => Ok(operation_only("branch"@)),
        GitPanelAction::Commit => if is_blank(v.commit_message) {
            Err("commit message is required"@)
        } else {
            Ok(
                GitToolArgsView {
                    operation: "commit"@,
                    message: Some(trim(v.commit_message)),
                    files: seq!["."@],
                    remote: None,
                    branch: None,
                },
            )
        },
        GitPanelAction::Push => Ok(
            GitToolArgsView {
                operation: "push"@,
                message: None,
                files: Seq::empty(),
                remote: Some(remote_of(v)),
                branch: branch_of(v),
            },
        ),
        GitPanelAction::Pull => Ok(
            GitToolArgsView {
                operation: "pull"@,
                message: None,
                files: Seq::empty(),
                remote: Some(remote_of(v)),
                branch: branch_of(v),
            },
        ),
    }
}

fn operation_args(op: &str) -> (r: GitToolArgs)
    ensures
        r@ == operation_only(op@),
{
    let r = GitToolArgs { operation: owned(op), message: None, files: Vec::new(), remote: None, branch: None };
    assert(r@.files =~= Seq::<Seq<char>>::empty());
    r
}

/// The arguments of the `git` tool call that performs `action`; a commit
/// needs a non-blank message, which is sent trimmed.
pub fn git_args_for_action(action: GitPanelAction, state: &GitUiState) -> (r: Result<GitToolArgs, String>)
    ensures
        match r {
            Ok(a) => git_args_spec(action, state@) == Ok::<GitToolArgsView, Seq<char>>(a@),
            Err(e) => git_args_spec(action, state@) == Err::<GitToolArgsView, Seq<char>>(e@),
        },
{
    match action {
        GitPanelAction::RefreshStatus => Ok(operation_args("status")),
        GitPanelAction::RefreshDiff => Ok(operation_args("diff")),
        GitPanelAction::ListBranches => Ok(operation_args("branch")),
        GitPanelAction::Commit => {
            if is_blank_str(state.commit_message.as_str()) {
                return Err(owned("commit message is required"));
            }
            let mut files: Vec<String> = Vec::new();
            files.push(owned("."));
            let r = GitToolArgs {
                operation: owned("commit"),
                message: Some(trim_str(state.commit_message.as_str())),
                files,
                remote: None,
                branch: None,
            };
            assert(r@.files =~= seq!["."@]);
            Ok(r)
        },
        GitPanelAction::Push | GitPanelAction::Pull => {
            let op = if action == GitPanelAction::Push { "push" } else { "pull" };
            let r = GitToolArgs {
                operation: owned(op),
                message: None,
                files: Vec::new(),
                remote: Some(state.remote_or_default()),
                branch: state.branch_for_remote_action(),
            };
            assert(r@.files =~= Seq::<Seq<char>>::empty());
            Ok(r)
        },
    }
}

/// What a call of the `git` tool reported.
#[derive(Clone, Debug, PartialEq, Eq)]
pub struct GitToolOutcome {
    pub success: bool,
    pub content: String,
}

/// The content of a successful call; the content as the error otherwise.
pub fn successful_git_content(result: GitToolOutcome) -> (r: Result<String, String>)
    ensures
        result.success ==> r == Ok::<String, String>(result.content),
        !result.success ==> r == Err::<String, String>(result.content),
{
    if result.success {
        Ok(result.content)
    } else {
        Err(result.content)
    }
}

} // verus!
