use deepseek_mobile::git_state::{GitPanelAction, GitUiState};
use deepseek_mobile::mobile_git_runner::{
    apply_git_action_result, git_args_for_action, refreshes_after, successful_git_content, GitToolOutcome,
    MobileGitActionResult,
};

#[test]
fn default_remote_is_origin() {
    let state = GitUiState::default();
    assert_eq!(state.remote_or_default(), "origin");
}

#[test]
fn status_counts_changed_files() {
    let mut state = GitUiState::default();
    state.apply_status(" M README.md\n?? src/main.rs\n");
    assert_eq!(state.changed_files, 2);
    assert!(state.is_dirty());
}

#[test]
fn branch_list_updates_current_branch() {
    let mut state = GitUiState::default();
    state.apply_branch("  develop\n* main\n");
    assert_eq!(state.current_branch, "main");
    assert_eq!(state.branch_for_remote_action().as_deref(), Some("main"));
}

#[test]
fn status_header_lines_are_not_changes() {
    let mut state = GitUiState::default();
    state.apply_status("## main...origin/main\n M a.rs\n\n");
    assert_eq!(state.changed_files, 1);
}

#[test]
fn commit_needs_changes_and_a_message() {
    let mut state = GitUiState::default();
    assert!(!state.can_commit());
    state.apply_status(" M a.rs\n");
    assert!(!state.can_commit());
    state.set_commit_message("fix");
    assert!(state.can_commit());
    state.set_loading();
    assert!(!state.can_commit());
    state.set_error("boom");
    assert!(!state.loading);
    assert_eq!(state.error.as_deref(), Some("boom"));
}

#[test]
fn push_branch_wins_over_current_branch() {
    let mut state = GitUiState::default();
    state.apply_branch("* main\n");
    state.push_branch = " release ".to_string();
    state.remote = "  upstream ".to_string();
    assert_eq!(state.branch_for_remote_action().as_deref(), Some("release"));
    assert_eq!(state.remote_or_default(), "upstream");
}

#[test]
fn commit_result_clears_message_and_refreshes_status() {
    let mut state = GitUiState::default();
    state.set_commit_message("initial commit");
    apply_git_action_result(
        &mut state,
        MobileGitActionResult {
            action: GitPanelAction::Commit,
            output: "[main abc] initial commit".to_string(),
            status_after: Some(String::new()),
            diff_after: Some("no diff".to_string()),
            branches_after: Some("* main\n".to_string()),
        },
    );
    assert_eq!(state.commit_message, "");
    assert_eq!(state.status_text, "");
    assert_eq!(state.changed_files, 0);
    assert_eq!(state.diff_text, "no diff");
    assert_eq!(state.current_branch, "main");
}

#[test]
fn commit_without_message_is_refused() {
    let state = GitUiState::default();
    assert_eq!(
        git_args_for_action(GitPanelAction::Commit, &state).unwrap_err(),
        "commit message is required"
    );
    let mut state = GitUiState::default();
    state.set_commit_message("  fix bug  ");
    let args = git_args_for_action(GitPanelAction::Commit, &state).unwrap();
    assert_eq!(args.operation, "commit");
    assert_eq!(args.message.as_deref(), Some("fix bug"));
    assert_eq!(args.files, vec![".".to_string()]);
}

#[test]
fn push_arguments_name_remote_and_branch() {
    let mut state = GitUiState::default();
    let args = git_args_for_action(GitPanelAction::Push, &state).unwrap();
    assert_eq!(args.operation, "push");
    assert_eq!(args.remote.as_deref(), Some("origin"));
    assert_eq!(args.branch, None);
    state.apply_branch("* dev\n");
    let args = git_args_for_action(GitPanelAction::Pull, &state).unwrap();
    assert_eq!(args.operation, "pull");
    assert_eq!(args.branch.as_deref(), Some("dev"));
    let args = git_args_for_action(GitPanelAction::RefreshStatus, &state).unwrap();
    assert_eq!(args.operation, "status");
}

#[test]
fn only_changing_actions_refresh_afterwards() {
    assert!(refreshes_after(GitPanelAction::Commit));
    assert!(refreshes_after(GitPanelAction::Push));
    assert!(refreshes_after(GitPanelAction::Pull));
    assert!(!refreshes_after(GitPanelAction::RefreshDiff));
    assert_eq!(
        successful_git_content(GitToolOutcome { success: false, content: "denied".to_string() }),
        Err("denied".to_string())
    );
    assert_eq!(
        successful_git_content(GitToolOutcome { success: true, content: "ok".to_string() }),
        Ok("ok".to_string())
    );
}
