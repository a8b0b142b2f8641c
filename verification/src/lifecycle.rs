//! Worktree lifecycle: create and prune.
//!
//! Creation is a mutation and must be serialized with all other mutations
//! on the same repository; the embedding application holds one mutual
//! exclusion gate per repository around these calls and `commit`.
//!
//! Teardown happens in two independently reachable steps, in this
//! canonical order: first the working directory is deleted — recursive
//! filesystem removal, which is the embedding application's work — and
//! then `prune_worktree` removes the metadata entry.  Pruning succeeds
//! whether or not the directory still exists, so after a partial teardown
//! (directory gone, metadata still there) the prune alone can be retried
//! without re-attempting the deletion; a stale entry — directory already
//! gone — is the expected input for a forceful teardown, not an error.

use vstd::prelude::*;

use crate::backend;
use crate::errors::GitError;
use crate::executor::{should_retry, MAX_MUTATION_ATTEMPTS};
use crate::model::{CommitId, Worktree};
use crate::repo::{lookup_failure, mutation_failure, name_index, RepoHandle};

verus! {

impl RepoHandle {
    /// The registration step of creation, with its bounded retry: git's
    /// add is reissued while the lock is busy, and the last failure is
    /// classified.
    fn add_with_retry(&self, name: &String, target_path: &String, on_branch: bool) -> (r: Result<
        (),
        GitError,
    >)
        ensures
            r matches Err(e) ==> (e is AlreadyExists || e is ResourceBusy || e is CommandFailed),
            r matches Err(e) ==> (e matches GitError::AlreadyExists { name: n } ==> n@ == name@),
    {
        let mut attempt: u32 = 0;
        while attempt < MAX_MUTATION_ATTEMPTS
            invariant
                attempt <= MAX_MUTATION_ATTEMPTS,
            decreases MAX_MUTATION_ATTEMPTS - attempt,
        {
            let res = if on_branch {
                backend::add_worktree_on_branch_raw(
                    self.raw(),
                    name.as_str(),
                    target_path.as_str(),
                    name.as_str(),
                )
            } else {
                backend::add_worktree_raw(self.raw(), name.as_str(), target_path.as_str())
            };
            match res {
                Ok(()) => {
                    return Ok(());
                },
                Err(e) => {
                    let (kind, detail) = backend::error_details(&e);
                    let err = mutation_failure("worktree add", name, kind, detail);
                    if !should_retry(&err, attempt, MAX_MUTATION_ATTEMPTS) {
                        return Err(err);
                    }
                },
            }
            attempt = attempt + 1;
        }
        Err(
            GitError::ResourceBusy {
                operation: String::from_str("worktree add"),
                target: name.clone(),
            },
        )
    }

    /// Creates a worktree named `name` with its working directory at
    /// `target_path`, branching from the current HEAD, or from
    /// `from_commit` when given.  Fails with `AlreadyExists` when the
    /// name is already registered — even if the entry is stale — or when
    /// git refuses because the target already exists on disk; nothing is
    /// silently reused or cleared, and a branch created for `from_commit`
    /// is rolled back when the registration then fails.  Transient lock
    /// contention is retried a bounded number of times before surfacing
    /// as `ResourceBusy`.
    pub fn create_worktree(
        &self,
        name: &String,
        target_path: &String,
        from_commit: Option<&CommitId>,
    ) -> (r: Result<Worktree, GitError>)
        ensures
            r matches Ok(w) ==> w.name@ == name@ && w.path@ == target_path@ && w.valid,
            r matches Err(e) ==> (e is AlreadyExists || e is ResourceBusy || e is CommandFailed),
            r matches Err(e) ==> (e matches GitError::AlreadyExists { name: n } ==> n@ == name@),
    {
        let names = match self.worktree_names() {
            Ok(names) => names,
            Err(e) => {
                return Err(e);
            },
        };
        if name_index(&names, name).is_some() {
            return Err(GitError::AlreadyExists { name: name.clone() });
        }
        let on_branch = from_commit.is_some();
        if let Some(base) = from_commit {
            match backend::create_branch_raw(self.raw(), name.as_str(), base.hex.as_str()) {
                Ok(()) => {},
                Err(e) => {
                    let (kind, detail) = backend::error_details(&e);
                    return Err(mutation_failure("branch create", name, kind, detail));
                },
            }
        }
        match self.add_with_retry(name, target_path, on_branch) {
            Ok(()) => {
                let head_ref = match backend::open_repo(target_path.as_str()) {
                    Ok(wt_repo) => match backend::head_ref_raw(&wt_repo) {
                        Ok(h) => h,
                        Err(_) => None,
                    },
                    Err(_) => None,
                };
                Ok(
                    Worktree {
                        name: name.clone(),
                        path: target_path.clone(),
                        head_ref,
                        valid: true,
                    },
                )
            },
            Err(err) => {
                if on_branch {
                    // The branch was created for this call alone; a failed
                    // registration must not leave it behind, and a failed
                    // rollback is reported, never swallowed.
                    match backend::delete_branch_raw(self.raw(), name.as_str()) {
                        Ok(()) => Err(err),
                        Err(cleanup) => {
                            let (_, cleanup_detail) = backend::error_details(&cleanup);
                            let mut stderr = err.message();
                            stderr.append("; branch cleanup failed, the branch remains: ");
                            stderr.append(cleanup_detail.as_str());
                            Err(
                                GitError::CommandFailed {
                                    operation: String::from_str("worktree add"),
                                    target: name.clone(),
                                    stderr,
                                },
                            )
                        },
                    }
                } else {
                    Err(err)
                }
            },
        }
    }

    /// Removes the named worktree's entry from git's metadata, leaving
    /// whatever is on disk alone.  Succeeds whether or not the working
    /// directory still exists — deleting the directory first and pruning
    /// second is the canonical teardown order, and a prune that failed
    /// after the deletion can be retried alone.  Fails with `NotFound`
    /// when the name is not registered.
    pub fn prune_worktree(&self, name: &String) -> (r: Result<(), GitError>)
        ensures
            r matches Err(e) ==> (e is NotFound || e is ResourceBusy || e is CommandFailed),
            r matches Err(e) ==> (e matches GitError::NotFound { name: n } ==> n@ == name@),
    {
        match backend::prune_worktree_raw(self.raw(), name.as_str()) {
            Ok(()) => Ok(()),
            Err(e) => {
                let (kind, detail) = backend::error_details(&e);
                Err(lookup_failure("worktree prune", name, kind, detail))
            },
        }
    }
}

} // verus!
