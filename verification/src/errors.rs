//! Error taxonomy for workspace operations.
//!
//! Every failure carries enough context (operation name, target, underlying
//! detail) for a consuming layer to render a specific message.

use vstd::prelude::*;

verus! {

/// What can go wrong while managing agent workspaces.
#[derive(Debug, Clone, PartialEq, Eq)]
pub enum GitError {
    /// The repository at `path` could not be opened.
    OpenFailed { path: String, detail: String },
    /// The underlying process could not even be started.
    LaunchFailed { command: String, detail: String },
    /// The underlying process ran past its deadline and was terminated.
    Timeout { command: String },
    /// Git reported a failure for `operation` on `target`.
    CommandFailed { operation: String, target: String, stderr: String },
    /// Git's on-disk lock was still held after the retry budget ran out.
    ResourceBusy { operation: String, target: String },
    /// A worktree with this name is already registered (even if stale).
    AlreadyExists { name: String },
    /// No worktree with this name is registered.
    NotFound { name: String },
    /// An amend was requested but HEAD has no commit to rewrite.
    NothingToAmend,
    /// The agent has no live workspace.
    NoWorkspace { agent_id: String },
}

impl GitError {
    /// The human-readable rendering of the error.
    pub open spec fn message_spec(&self) -> Seq<char> {
        match self {
            GitError::OpenFailed { path, detail } => "failed to open repository at "@ + path@
                + ": "@ + detail@,
            GitError::LaunchFailed { command, detail } => "failed to launch "@ + command@ + ": "@
                + detail@,
            GitError::Timeout { command } => "command timed out: "@ + command@,
            GitError::CommandFailed { operation, target, stderr } => operation@ + " on "@ + target@
                + " failed: "@ + stderr@,
            GitError::ResourceBusy { operation, target } => operation@ + " on "@ + target@
                + ": repository lock is busy"@,
            GitError::AlreadyExists { name } => "worktree already exists: "@ + name@,
            GitError::NotFound { name } => "worktree not found: "@ + name@,
            GitError::NothingToAmend => "nothing to amend: HEAD has no commit"@,
            GitError::NoWorkspace { agent_id } => "no workspace for agent "@ + agent_id@,
        }
    }

    /// Renders the error for display.
    pub fn message(&self) -> (r: String)
        ensures
            r@ == self.message_spec(),
    {
        match self {
            GitError::OpenFailed { path, detail } => {
                let mut s = String::from_str("failed to open repository at ");
                s.append(path.as_str());
                s.append(": ");
                s.append(detail.as_str());
                s
            },
            GitError::LaunchFailed { command, detail } => {
                let mut s = String::from_str("failed to launch ");
                s.append(command.as_str());
                s.append(": ");
                s.append(detail.as_str());
                s
            },
            GitError::Timeout { command } => {
                let mut s = String::from_str("command timed out: ");
                s.append(command.as_str());
                s
            },
            GitError::CommandFailed { operation, target, stderr } => {
                let mut s = String::new();
                s.append(operation.as_str());
                s.append(" on ");
                s.append(target.as_str());
                s.append(" failed: ");
                s.append(stderr.as_str());
                s
            },
            GitError::ResourceBusy { operation, target } => {
                let mut s = String::new();
                s.append(operation.as_str());
                s.append(" on ");
                s.append(target.as_str());
                s.append(": repository lock is busy");
                s
            },
            GitError::AlreadyExists { name } => {
                let mut s = String::from_str("worktree already exists: ");
                s.append(name.as_str());
                s
            },
            GitError::NotFound { name } => {
                let mut s = String::from_str("worktree not found: ");
                s.append(name.as_str());
                s
            },
            GitError::NothingToAmend => String::from_str("nothing to amend: HEAD has no commit"),
            GitError::NoWorkspace { agent_id } => {
                let mut s = String::from_str("no workspace for agent ");
                s.append(agent_id.as_str());
                s
            },
        }
    }
}

} // verus!
