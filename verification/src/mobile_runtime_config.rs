//! Where the agent runtime keeps a thread's store and which workspace it
//! works in.
use crate::agent_timeline::opt_view;
use crate::text::{ends_with, owned};
use vstd::prelude::*;

verus! {

broadcast use vstd::string::group_string_axioms;

/// The thread that a fresh install talks in.
pub const DEFAULT_THREAD_ID: &'static str = "mobile-default-thread";

/// A path with one more component (`Path::join` for a relative component):
/// a `/` goes between them unless the path is empty or already ends with one.
pub open spec fn path_join(base: Seq<char>, name: Seq<char>) -> Seq<char> {
    if base.len() == 0 || ends_with(base, "/"@) {
        base + name
    } else {
        base + "/"@ + name
    }
}

/// `base` joined with the relative component `name`.
pub fn join_path(base: &str, name: &str) -> (r: String)
    ensures
        r@ == path_join(base@, name@),
{
    let mut r = owned(base);
    if !(base.unicode_len() == 0 || crate::text::str_ends_with(base, "/")) {
        r.append("/");
    }
    r.append(name);
    r
}

/// The runtime settings of a chat thread.
#[derive(Clone, Debug, PartialEq, Eq)]
pub struct MobileRuntimeConfig {
    pub thread_id: String,
    pub runtime_store_root: String,
    pub workspace_root: String,
    /// The root of the active PC workspace connection, when there is one.
    pub workspace_connection_root: Option<String>,
}

impl MobileRuntimeConfig {
    /// Settings with these paths and no PC workspace.
    pub fn new(thread_id: &str, runtime_store_root: &str, workspace_root: &str) -> (r: Self)
        ensures
            r.thread_id@ == thread_id@,
            r.runtime_store_root@ == runtime_store_root@,
            r.workspace_root@ == workspace_root@,
            r.workspace_connection_root is None,
    {
        MobileRuntimeConfig {
            thread_id: owned(thread_id),
            runtime_store_root: owned(runtime_store_root),
            workspace_root: owned(workspace_root),
            workspace_connection_root: None,
        }
    }

    /// The default thread with the store and the workspace under `base_dir`.
    pub fn from_base_dir(base_dir: &str) -> (r: Self)
        ensures
            r.thread_id@ == DEFAULT_THREAD_ID@,
            r.runtime_store_root@ == path_join(base_dir@, "runtime_store"@),
            r.workspace_root@ == path_join(base_dir@, "workspace"@),
            r.workspace_connection_root is None,
    {
        let store = join_path(base_dir, "runtime_store");
        let workspace = join_path(base_dir, "workspace");
        MobileRuntimeConfig::new(DEFAULT_THREAD_ID, store.as_str(), workspace.as_str())
    }

    /// The settings for another thread.
    pub fn with_thread_id(self, thread_id: &str) -> (r: Self)
        ensures
            r.thread_id@ == thread_id@,
            r.runtime_store_root == self.runtime_store_root,
            r.workspace_root == self.workspace_root,
            r.workspace_connection_root == self.workspace_connection_root,
    {
        let mut s = self;
        s.thread_id = owned(thread_id);
        s
    }

    /// The settings working in a PC workspace rooted at `connection_root`.
    pub fn with_workspace_connection(self, connection_root: &str) -> (r: Self)
        ensures
            opt_view(r.workspace_connection_root) == Some(connection_root@),
            r.thread_id == self.thread_id,
            r.runtime_store_root == self.runtime_store_root,
            r.workspace_root == self.workspace_root,
    {
        let mut s = self;
        s.workspace_connection_root = Some(owned(connection_root));
        s
    }

    /// The store's root as text.
    pub fn runtime_store_root_display(&self) -> (r: String)
        ensures
            r@ == self.runtime_store_root@,
    {
        self.runtime_store_root.clone()
    }

    /// The session file in the store.
    pub fn session_file_path(&self) -> (r: String)
        ensures
            r@ == path_join(self.runtime_store_root@, "session.json"@),
    {
        join_path(self.runtime_store_root.as_str(), "session.json")
    }

    /// The workspace the agent works in: the PC workspace when connected,
    /// else the local one.
    pub fn workspace_root_display(&self) -> (r: String)
        ensures
            r@ == match self.workspace_connection_root {
                Some(c) => c@,
                None => self.workspace_root@,
            },
    {
        match &self.workspace_connection_root {
            Some(c) => c.clone(),
            None => self.workspace_root.clone(),
        }
    }
}

} // verus!
