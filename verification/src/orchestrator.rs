//! The workspace orchestration facade.
//!
//! Callers deal in one identity — the agent id — instead of juggling
//! worktree names: `spawn` carves the agent's worktree out of the rig,
//! `sync` commits the agent's changes, `nuke` finishes tearing the
//! workspace down once its directory has been deleted.
//! The worktree name is the agent id itself, so the derivation is
//! deterministic and collisions map one-to-one onto name collisions.

use vstd::prelude::*;

use crate::backend;
use crate::errors::GitError;
use crate::model::{CommitId, CommitRequest, Worktree};
use crate::repo::{has_name, lookup_failure, name_index, RepoHandle};

verus! {

/// Which worktree serves the agent, given the registered names: the entry
/// named exactly like the agent, or `NoWorkspace` exactly when there is
/// none.  This is the whole of the facade's identity decision; callers
/// that reach it through `sync` or `nuke` perform no mutation when it
/// fails.
pub fn locate_workspace(names: &Vec<String>, agent_id: &String) -> (r: Result<usize, GitError>)
    ensures
        r matches Ok(i) ==> i < names@.len() && names@[i as int]@ == agent_id@,
        r is Err <==> !has_name(names@, agent_id@),
        r matches Err(e) ==> (e matches GitError::NoWorkspace { agent_id: a } && a@ == agent_id@),
{
    match name_index(names, agent_id) {
        Some(i) => Ok(i),
        None => Err(GitError::NoWorkspace { agent_id: agent_id.clone() }),
    }
}

/// The rig plus the directory its agent worktrees are carved out under.
pub struct Orchestrator {
    repo: RepoHandle,
    worktree_root: String,
}

impl Orchestrator {
    /// The directory agent worktrees are placed under.
    pub closed spec fn root_spec(&self) -> Seq<char> {
        self.worktree_root@
    }

    /// Wraps an opened rig; new worktrees are placed under
    /// `worktree_root`.
    pub fn new(repo: RepoHandle, worktree_root: String) -> (r: Orchestrator)
        ensures
            r.root_spec() == worktree_root@,
    {
        Orchestrator { repo, worktree_root }
    }

    /// The rig this facade operates on.
    pub fn repo(&self) -> &RepoHandle {
        &self.repo
    }

    /// Where the agent's working directory lives: the worktree root, a
    /// separator, the agent id.
    pub fn workspace_path(&self, agent_id: &String) -> (r: String)
        ensures
            r@ == self.root_spec() + "/"@ + agent_id@,
    {
        let mut p = self.worktree_root.clone();
        p.append("/");
        p.append(agent_id.as_str());
        p
    }

    /// Creates the agent's workspace: a worktree named after the agent,
    /// branching from the rig's HEAD, or from `base` when given.  Fails
    /// with `AlreadyExists` when the agent already has a live — or stale
    /// but unpruned — workspace.
    pub fn spawn(&self, agent_id: &String, base: Option<&CommitId>) -> (r: Result<
        Worktree,
        GitError,
    >)
        ensures
            r matches Ok(w) ==> w.name@ == agent_id@ && w.path@ == self.root_spec() + "/"@
                + agent_id@ && w.valid,
            r matches Err(e) ==> (e is AlreadyExists || e is ResourceBusy || e is CommandFailed),
            r matches Err(e) ==> (e matches GitError::AlreadyExists { name } ==> name@
                == agent_id@),
    {
        let path = self.workspace_path(agent_id);
        self.repo.create_worktree(agent_id, &path, base)
    }

    /// Commits the agent's pending changes with the given request.  Fails
    /// with `NoWorkspace` — before touching anything — exactly when the
    /// agent has no registered worktree, as `locate_workspace` decides
    /// over the listed names.
    pub fn sync(&self, agent_id: &String, req: &CommitRequest) -> (r: Result<CommitId, GitError>)
        ensures
            r matches Err(e) ==> (e matches GitError::NoWorkspace { agent_id: a } ==> a@
                == agent_id@),
            r matches Err(e) ==> (e is NothingToAmend ==> req.options.amend),
            r matches Err(e) ==> (e is NoWorkspace || e is NotFound || e is OpenFailed || e
                is NothingToAmend || e is ResourceBusy || e is CommandFailed),
    {
        let names = match self.repo.worktree_names() {
            Ok(names) => names,
            Err(e) => {
                return Err(e);
            },
        };
        match locate_workspace(&names, agent_id) {
            Ok(_) => {},
            Err(e) => {
                return Err(e);
            },
        }
        let (path, _valid) = match backend::find_worktree_raw(self.repo.raw(), agent_id.as_str()) {
            Ok(found) => found,
            Err(e) => {
                let (kind, detail) = backend::error_details(&e);
                return Err(lookup_failure("worktree lookup", agent_id, kind, detail));
            },
        };
        let wt_repo = match RepoHandle::open(&path) {
            Ok(r) => r,
            Err(e) => {
                return Err(e);
            },
        };
        wt_repo.commit(req)
    }

    /// The pruning half of tearing the agent's workspace down.  The
    /// canonical teardown order is delete-then-prune: the embedding
    /// application deletes the working directory first (recursive
    /// filesystem removal is its work), and this call then removes the
    /// metadata entry — succeeding whether or not the directory still
    /// exists, so it alone can be retried after a partial teardown.
    /// Fails with `NoWorkspace` — before touching anything — exactly
    /// when the agent has no registered worktree.
    pub fn nuke(&self, agent_id: &String) -> (r: Result<(), GitError>)
        ensures
            r matches Err(e) ==> (e matches GitError::NoWorkspace { agent_id: a } ==> a@
                == agent_id@),
            r matches Err(e) ==> (e is NoWorkspace || e is NotFound || e is ResourceBusy || e
                is CommandFailed),
    {
        let names = match self.repo.worktree_names() {
            Ok(names) => names,
            Err(e) => {
                return Err(e);
            },
        };
        match locate_workspace(&names, agent_id) {
            Ok(_) => {},
            Err(e) => {
                return Err(e);
            },
        }
        self.repo.prune_worktree(agent_id)
    }
}

} // verus!
