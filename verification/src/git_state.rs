//! Git UI state for the mobile cockpit.
use crate::text::{
    chars_of, is_blank, is_blank_chars, is_blank_str, lines, owned, pieces_view, slice_range,
    split_lines, starts_with, starts_with_chars, string_from_chars, trim, trim_chars, trim_str,
    CharClass, lemma_trim_empty_iff_blank,
};
use vstd::prelude::*;

verus! {

broadcast use vstd::string::group_string_axioms;

/// The git actions that the panel offers.
#[derive(Clone, Copy, Debug, PartialEq, Eq, Structural)]
pub enum GitPanelAction {
    RefreshStatus,
    RefreshDiff,
    ListBranches,
    Commit,
    Push,
    Pull,
}

/// What the git panel shows.
#[derive(Clone, Debug, PartialEq, Eq)]
pub struct GitUiState {
    pub status_text: String,
    pub diff_text: String,
    pub branch_list: String,
    pub current_branch: String,
    pub commit_message: String,
    pub remote: String,
    pub push_branch: String,
    pub loading: bool,
    pub error: Option<String>,
    pub changed_files: usize,
}

/// The git panel as values.
pub struct GitUiView {
    pub status_text: Seq<char>,
    pub diff_text: Seq<char>,
    pub branch_list: Seq<char>,
    pub current_branch: Seq<char>,
    pub commit_message: Seq<char>,
    pub remote: Seq<char>,
    pub push_branch: Seq<char>,
    pub loading: bool,
    pub error: Option<Seq<char>>,
    pub changed_files: nat,
}

impl View for GitUiState {
    type V = GitUiView;

    open spec fn view(&self) -> GitUiView {
        GitUiView {
            status_text: self.status_text@,
            diff_text: self.diff_text@,
            branch_list: self.branch_list@,
            current_branch: self.current_branch@,
            commit_message: self.commit_message@,
            remote: self.remote@,
            push_branch: self.push_branch@,
            loading: self.loading,
            error: crate::agent_timeline::opt_view(self.error),
            changed_files: self.changed_files as nat,
        }
    }
}

/// A `git status --short` line that names a changed file: not blank and not a `##` branch header.
pub open spec fn is_change_line(l: Seq<char>) -> bool {
    !is_blank(l) && !starts_with(trim(l), "##"@)
}

/// The number of change lines in a status text.
pub open spec fn changed_file_count(status: Seq<char>) -> nat {
    lines(status).filter(|l: Seq<char>| is_change_line(l)).len()
}

/// The branch marked `* ` in a `git branch` listing: from the first trimmed
/// line that starts with `* ` and has a non-blank rest.
pub open spec fn marked_branch(ls: Seq<Seq<char>>) -> Option<Seq<char>>
    decreases ls.len(),
{
    if ls.len() == 0 {
        None
    } else {
        let t = trim(ls[0]);
        let rest = trim(t.skip(2));
        if starts_with(t, "* "@) && rest.len() > 0 {
            Some(rest)
        } else {
            marked_branch(ls.drop_first())
        }
    }
}

/// The current branch named in a branch listing.
pub open spec fn current_branch_of(branches: Seq<char>) -> Option<Seq<char>> {
    marked_branch(lines(branches))
}

/// The default state: remote `origin`, nothing loaded.
pub open spec fn default_git_view() -> GitUiView {
    GitUiView {
        status_text: Seq::empty(),
        diff_text: Seq::empty(),
        branch_list: Seq::empty(),
        current_branch: Seq::empty(),
        commit_message: Seq::empty(),
        remote: "origin"@,
        push_branch: Seq::empty(),
        loading: false,
        error: None,
        changed_files: 0,
    }
}

/// The number of lines of `status` that name changed files.
fn count_changed_files(status: &str) -> (r: usize)
    ensures
        r as nat == changed_file_count(status@),
{
    let chars = chars_of(status);
    let ls = split_lines(&chars);
    let ghost lv = pieces_view(ls@);
    let ghost f = |l: Seq<char>| is_change_line(l);
    let hashes = chars_of("##");
    let mut n: usize = 0;
    let mut i: usize = 0;
    assert(lv.take(0).filter(f) =~= Seq::<Seq<char>>::empty());
    while i < ls.len()
        invariant
            i <= ls.len(),
            lv == pieces_view(ls@),
            lv == lines(status@),
            hashes@ == "##"@,
            f == (|l: Seq<char>| is_change_line(l)),
            n as nat == lv.take(i as int).filter(f).len(),
            n <= i,
        decreases ls.len() - i,
    {
        reveal_with_fuel(Seq::filter, 1);
        assert(lv.take(i + 1).drop_last() == lv.take(i as int));
        assert(lv.take(i + 1).last() == ls@[i as int]@);
        let t = trim_chars(ls[i].as_slice(), CharClass::Whitespace);
        assert(crate::text::class_pred(CharClass::Whitespace) == (|c: char|
            crate::text::unicode_whitespace(c)));
        proof {
            crate::text::lemma_trim_empty_iff_blank(ls@[i as int]@);
        }
        if t.len() > 0 && !starts_with_chars(&t, &hashes) {
            n = n + 1;
        }
        i = i + 1;
    }
    assert(lv.take(ls.len() as int) == lv);
    n
}

/// The branch that a listing marks as current.
fn current_branch_from_list(branches: &str) -> (r: Option<String>)
    ensures
        crate::agent_timeline::opt_view(r) == current_branch_of(branches@),
{
    let chars = chars_of(branches);
    let ls = split_lines(&chars);
    let ghost lv = pieces_view(ls@);
    let marker = chars_of("* ");
    let mut i: usize = 0;
    assert(lv.skip(0) == lv);
    while i < ls.len()
        invariant
            i <= ls.len(),
            lv == pieces_view(ls@),
            lv == lines(branches@),
            marker@ == "* "@,
            marked_branch(lv) == marked_branch(lv.skip(i as int)),
        decreases ls.len() - i,
    {
        assert(lv.skip(i as int)[0] == ls@[i as int]@);
        assert(lv.skip(i as int).drop_first() == lv.skip(i + 1));
        let t = trim_chars(ls[i].as_slice(), CharClass::Whitespace);
        assert(crate::text::class_pred(CharClass::Whitespace) == (|c: char|
            crate::text::unicode_whitespace(c)));
        if starts_with_chars(&t, &marker) {
            proof {
                reveal_strlit("* ");
            }
            let after = slice_range(&t, 2, t.len());
            assert(after@ == t@.skip(2));
            let rest = trim_chars(&after, CharClass::Whitespace);
            if rest.len() > 0 {
                return Some(string_from_chars(&rest));
            }
        }
        i = i + 1;
    }
    None
}

impl Default for GitUiState {
    fn default() -> (r: Self)
        ensures
            r@ == default_git_view(),
    {
        GitUiState {
            status_text: String::new(),
            diff_text: String::new(),
            branch_list: String::new(),
            current_branch: String::new(),
            commit_message: String::new(),
            remote: owned("origin"),
            push_branch: String::new(),
            loading: false,
            error: None,
            changed_files: 0,
        }
    }
}

impl GitUiState {
    /// Shows a status text, counts its changed files, clears error and loading.
    pub fn apply_status(&mut self, t: &str)
        ensures
            final(self)@ == (GitUiView {
                status_text: t@,
                changed_files: changed_file_count(t@),
                error: None,
                loading: false,
                ..old(self)@
            }),
    {
        self.status_text = owned(t);
        self.changed_files = count_changed_files(t);
        self.error = None;
        self.loading = false;
    }

    /// Shows a diff text, clears error and loading.
    pub fn apply_diff(&mut self, t: &str)
        ensures
            final(self)@ == (GitUiView { diff_text: t@, error: None, loading: false, ..old(self)@ }),
    {
        self.diff_text = owned(t);
        self.error = None;
        self.loading = false;
    }

    /// Shows a branch listing and takes the current branch from its `* ` line, if any.
    pub fn apply_branch(&mut self, t: &str)
        ensures
            final(self)@ == (GitUiView {
                branch_list: t@,
                current_branch: match current_branch_of(t@) {
                    Some(b) => b,
                    None => old(self)@.current_branch,
                },
                error: None,
                loading: false,
                ..old(self)@
            }),
    {
        self.branch_list = owned(t);
        match current_branch_from_list(t) {
            Some(branch) => {
                self.current_branch = branch;
            },
            None => {},
        }
        self.error = None;
        self.loading = false;
    }

    /// Shows command output in the status area, clears error and loading.
    pub fn apply_command_output(&mut self, t: &str)
        ensures
            final(self)@ == (GitUiView { status_text: t@, error: None, loading: false, ..old(self)@ }),
    {
        self.status_text = owned(t);
        self.error = None;
        self.loading = false;
    }

    /// After a commit: the message is cleared and the output shown.
    pub fn apply_commit(&mut self, output: &str)
        ensures
            final(self)@ == (GitUiView {
                commit_message: Seq::empty(),
                status_text: output@,
                error: None,
                loading: false,
                ..old(self)@
            }),
    {
        self.commit_message = String::new();
        self.apply_command_output(output);
    }

    /// Sets the commit message.
    pub fn set_commit_message(&mut self, message: &str)
        ensures
            final(self)@ == (GitUiView { commit_message: message@, ..old(self)@ }),
    {
        self.commit_message = owned(message);
    }

    /// Records an error and stops loading.
    pub fn set_error(&mut self, m: &str)
        ensures
            final(self)@ == (GitUiView { error: Some(m@), loading: false, ..old(self)@ }),
    {
        self.error = Some(owned(m));
        self.loading = false;
    }

    /// Starts loading and clears the error.
    pub fn set_loading(&mut self)
        ensures
            final(self)@ == (GitUiView { loading: true, error: None, ..old(self)@ }),
    {
        self.loading = true;
        self.error = None;
    }

    /// The trimmed remote, or `origin` when it is blank.
    pub fn remote_or_default(&self) -> (r: String)
        ensures
            r@ == (if is_blank(self@.remote) { "origin"@ } else { trim(self@.remote) }),
    {
        if is_blank_str(self.remote.as_str()) {
            owned("origin")
        } else {
            trim_str(self.remote.as_str())
        }
    }

    /// The branch to push or pull: the trimmed push branch, else the trimmed
    /// current branch; none when that is empty.
    pub fn branch_for_remote_action(&self) -> (r: Option<String>)
        ensures
            crate::agent_timeline::opt_view(r) == ({
                let b = if is_blank(self@.push_branch) {
                    trim(self@.current_branch)
                } else {
                    trim(self@.push_branch)
                };
                if b.len() == 0 { None } else { Some(b) }
            }),
    {
        let branch = if is_blank_str(self.push_branch.as_str()) {
            trim_str(self.current_branch.as_str())
        } else {
            trim_str(self.push_branch.as_str())
        };
        if branch.as_str().is_empty() {
            None
        } else {
            Some(branch)
        }
    }

    /// A commit is possible with changes, a non-blank message and nothing loading.
    pub fn can_commit(&self) -> (r: bool)
        ensures
            r == (self.is_dirty_spec() && !is_blank(self@.commit_message) && !self@.loading),
    {
        self.is_dirty() && !is_blank_str(self.commit_message.as_str()) && !self.loading
    }

    /// The working tree has changes: counted files or a non-blank status text.
    pub open spec fn is_dirty_spec(&self) -> bool {
        self@.changed_files > 0 || !is_blank(self@.status_text)
    }

    /// Whether the working tree has changes.
    pub fn is_dirty(&self) -> (r: bool)
        ensures
            r == self.is_dirty_spec(),
    {
        self.changed_files > 0 || !is_blank_str(self.status_text.as_str())
    }
}

/// The changed-file count of a status text is the number of its lines whose
/// trimmed text is not empty and does not start with `##`: every porcelain
/// line `XY path` counts once, whatever its status letters.
pub proof fn lemma_changed_files_are_status_lines(status: Seq<char>)
    ensures
        changed_file_count(status) == lines(status).filter(
            |l: Seq<char>| trim(l).len() > 0 && !starts_with(trim(l), "##"@),
        ).len(),
{
    let f = |l: Seq<char>| is_change_line(l);
    let g = |l: Seq<char>| trim(l).len() > 0 && !starts_with(trim(l), "##"@);
    assert forall|l: Seq<char>| #[trigger] f(l) == g(l) by {
        lemma_trim_empty_iff_blank(l);
    }
    assert(f =~= g);
}

} // verus!
