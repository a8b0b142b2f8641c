//! One opened repository, and its read operations.
//!
//! A `RepoHandle` is a capability object: it identifies a git metadata
//! location and owns nothing else.  Worktrees are discovered by querying
//! git, never cached here, and every query returns plain snapshot values.

use vstd::prelude::*;

use crate::backend;
use crate::backend::GitErrorKind;
use crate::errors::GitError;
use crate::model::{classify_entries, contains_nul, has_nul, CommitId, StatusEntry, Worktree};

verus! {

/// How many times a read is reissued when git's lock is busy.
pub const MAX_READ_ATTEMPTS: u32 = 5;

/// A name occurs in a listing of worktree names.
pub open spec fn has_name(names: Seq<String>, name: Seq<char>) -> bool {
    exists|i: int| 0 <= i < names.len() && names[i]@ == name
}

/// A worktree snapshot with this name occurs in a listing.
pub open spec fn has_worktree(list: Seq<Worktree>, name: Seq<char>) -> bool {
    exists|i: int| 0 <= i < list.len() && list[i].name@ == name
}

/// Position of the first occurrence of `name` in a name listing; `None`
/// exactly when the name is absent.
pub fn name_index(names: &Vec<String>, name: &String) -> (r: Option<usize>)
    ensures
        r matches Some(i) ==> i < names@.len() && names@[i as int]@ == name@,
        r is None <==> !has_name(names@, name@),
{
    let mut i: usize = 0;
    while i < names.len()
        invariant
            i <= names@.len(),
            forall|k: int| 0 <= k < i ==> names@[k]@ != name@,
        decreases names@.len() - i,
    {
        if names[i] == *name {
            return Some(i);
        }
        i = i + 1;
    }
    None
}

/// Position of the first worktree snapshot named `name`; `None` exactly
/// when no snapshot carries the name.
pub fn worktree_index(list: &Vec<Worktree>, name: &String) -> (r: Option<usize>)
    ensures
        r matches Some(i) ==> i < list@.len() && list@[i as int].name@ == name@,
        r is None <==> !has_worktree(list@, name@),
{
    let mut i: usize = 0;
    while i < list.len()
        invariant
            i <= list@.len(),
            forall|k: int| 0 <= k < i ==> list@[k].name@ != name@,
        decreases list@.len() - i,
    {
        if list[i].name == *name {
            return Some(i);
        }
        i = i + 1;
    }
    None
}

/// Builds the snapshot record for one listed name from what the boundary
/// returned: `lookup` is the metadata lookup's outcome (working-directory
/// path and validity), `probed` what a head probe of that directory gave.
/// An entry that vanished between listing and lookup yields `None`; a
/// stale entry (not valid) never carries a head reference.
pub fn entry_of(name: &String, lookup: Option<(String, bool)>, probed: Option<String>) -> (r:
    Option<Worktree>)
    ensures
        lookup matches Some(found) ==> (r matches Some(w) && w.name@ == name@ && w.path@
            == found.0@ && w.valid == found.1 && w.head_ref == (if found.1 {
            probed
        } else {
            None::<String>
        })),
        lookup is None <==> r is None,
{
    match lookup {
        Some((path, valid)) => Some(
            Worktree {
                name: name.clone(),
                path,
                head_ref: if valid {
                    probed
                } else {
                    None
                },
                valid,
            },
        ),
        None => None,
    }
}

/// Maps a failed mutation to the taxonomy: an existing object of the same
/// name is `AlreadyExists`, a held lock is `ResourceBusy`, anything else is
/// `CommandFailed` carrying git's own report.
pub fn mutation_failure(operation: &str, target: &String, kind: GitErrorKind, detail: String) -> (r:
    GitError)
    ensures
        kind == GitErrorKind::Exists ==> (r matches GitError::AlreadyExists { name } && name@
            == target@),
        kind == GitErrorKind::Locked ==> (r matches GitError::ResourceBusy { operation: op, target: t }
            && op@ == operation@ && t@ == target@),
        kind != GitErrorKind::Exists && kind != GitErrorKind::Locked ==> (
        r matches GitError::CommandFailed { operation: op, target: t, stderr } && op@ == operation@
            && t@ == target@ && stderr@ == detail@),
{
    match kind {
        GitErrorKind::Exists => GitError::AlreadyExists { name: target.clone() },
        GitErrorKind::Locked => GitError::ResourceBusy {
            operation: String::from_str(operation),
            target: target.clone(),
        },
        _ => GitError::CommandFailed {
            operation: String::from_str(operation),
            target: target.clone(),
            stderr: detail,
        },
    }
}

/// Maps a failed lookup to the taxonomy: an unknown name is `NotFound`, a
/// held lock is `ResourceBusy`, anything else is `CommandFailed`.
pub fn lookup_failure(operation: &str, target: &String, kind: GitErrorKind, detail: String) -> (r:
    GitError)
    ensures
        kind == GitErrorKind::NotFound ==> (r matches GitError::NotFound { name } && name@
            == target@),
        kind == GitErrorKind::Locked ==> (r matches GitError::ResourceBusy { operation: op, target: t }
            && op@ == operation@ && t@ == target@),
        kind != GitErrorKind::NotFound && kind != GitErrorKind::Locked ==> (
        r matches GitError::CommandFailed { operation: op, target: t, stderr } && op@ == operation@
            && t@ == target@ && stderr@ == detail@),
{
    match kind {
        GitErrorKind::NotFound => GitError::NotFound { name: target.clone() },
        GitErrorKind::Locked => GitError::ResourceBusy {
            operation: String::from_str(operation),
            target: target.clone(),
        },
        _ => GitError::CommandFailed {
            operation: String::from_str(operation),
            target: target.clone(),
            stderr: detail,
        },
    }
}

/// One opened repository: a `.git` location plus the engine operating on
/// it.  Immutable once opened.
pub struct RepoHandle {
    inner: git2::Repository,
    git_dir: String,
}

impl RepoHandle {
    /// The path this handle was opened at.
    pub closed spec fn path_spec(&self) -> Seq<char> {
        self.git_dir@
    }

    pub(crate) fn raw(&self) -> &git2::Repository {
        &self.inner
    }

    /// The path this handle was opened at.
    pub fn git_dir(&self) -> (r: &String)
        ensures
            r@ == self.path_spec(),
    {
        &self.git_dir
    }

    /// Opens an already-existing repository.  Fails with `OpenFailed` —
    /// carrying the path and git's report — exactly when git cannot use
    /// the target as a repository.
    pub fn open(path: &String) -> (r: Result<RepoHandle, GitError>)
        ensures
            r matches Ok(h) ==> h.path_spec() == path@,
            r matches Err(e) ==> (e matches GitError::OpenFailed { path: p, detail } && p@
                == path@),
    {
        match backend::open_repo(path.as_str()) {
            Ok(inner) => Ok(RepoHandle { inner, git_dir: path.clone() }),
            Err(e) => {
                let (_, detail) = backend::error_details(&e);
                Err(GitError::OpenFailed { path: path.clone(), detail })
            },
        }
    }

    /// Creates a repository at `path` (the directory is created if
    /// needed) and opens it.  Fails with `OpenFailed` exactly when git
    /// cannot set the target up.
    pub fn init(path: &String) -> (r: Result<RepoHandle, GitError>)
        ensures
            r matches Ok(h) ==> h.path_spec() == path@,
            r matches Err(e) ==> (e matches GitError::OpenFailed { path: p, detail } && p@
                == path@),
    {
        match backend::init_repo(path.as_str()) {
            Ok(inner) => Ok(RepoHandle { inner, git_dir: path.clone() }),
            Err(e) => {
                let (_, detail) = backend::error_details(&e);
                Err(GitError::OpenFailed { path: path.clone(), detail })
            },
        }
    }

    /// Best-effort read of the reference a worktree's HEAD points at, by
    /// opening its working directory as a repository; what comes back
    /// depends on the disk alone, and `entry_of` fixes how it is used.
    fn probe_head_ref(path: &String) -> Option<String> {
        match backend::open_repo(path.as_str()) {
            Ok(wt_repo) => match backend::head_ref_raw(&wt_repo) {
                Ok(h) => h,
                Err(_) => None,
            },
            Err(_) => None,
        }
    }

    /// Lists the names of all worktrees currently registered in git's
    /// metadata, stale ones included, retrying while git's lock is busy.
    pub(crate) fn worktree_names(&self) -> (r: Result<Vec<String>, GitError>)
        ensures
            r matches Err(e) ==> (e is ResourceBusy || e is CommandFailed),
    {
        let target = self.git_dir.clone();
        let mut attempt: u32 = 0;
        while attempt < MAX_READ_ATTEMPTS
            invariant
                attempt <= MAX_READ_ATTEMPTS,
            decreases MAX_READ_ATTEMPTS - attempt,
        {
            match backend::list_worktree_names(&self.inner) {
                Ok(names) => {
                    return Ok(names);
                },
                Err(e) => {
                    let (kind, detail) = backend::error_details(&e);
                    if kind == GitErrorKind::Locked {
                        if attempt + 1 >= MAX_READ_ATTEMPTS {
                            return Err(
                                GitError::ResourceBusy {
                                    operation: String::from_str("worktree list"),
                                    target,
                                },
                            );
                        }
                    } else {
                        return Err(
                            GitError::CommandFailed {
                                operation: String::from_str("worktree list"),
                                target,
                                stderr: detail,
                            },
                        );
                    }
                },
            }
            attempt = attempt + 1;
        }
        Err(
            GitError::ResourceBusy {
                operation: String::from_str("worktree list"),
                target,
            },
        )
    }

    /// Lists all worktrees known to git's metadata as snapshot records, in
    /// listing order: name, working-directory path, the reference its HEAD
    /// points at (when readable), and whether metadata and filesystem
    /// still agree.  A stale worktree — directory gone — is listed with
    /// `valid` false.
    pub fn worktrees(&self) -> (r: Result<Vec<Worktree>, GitError>)
        ensures
            r matches Err(e) ==> (e is ResourceBusy || e is CommandFailed),
            r matches Ok(list) ==> forall|j: int|
                0 <= j < list@.len() ==> (#[trigger] list@[j].valid || list@[j].head_ref is None),
    {
        let names = match self.worktree_names() {
            Ok(names) => names,
            Err(e) => {
                return Err(e);
            },
        };
        let mut out: Vec<Worktree> = Vec::new();
        let mut i: usize = 0;
        while i < names.len()
            invariant
                i <= names@.len(),
                forall|j: int|
                    0 <= j < out@.len() ==> (#[trigger] out@[j].valid || out@[j].head_ref
                        is None),
            decreases names@.len() - i,
        {
            let name = names[i].clone();
            // An entry that vanished between listing and lookup is simply
            // omitted from the snapshot.
            let lookup = match backend::find_worktree_raw(&self.inner, name.as_str()) {
                Ok(found) => Some(found),
                Err(_) => None,
            };
            let probed = match &lookup {
                Some(found) => if found.1 {
                    RepoHandle::probe_head_ref(&found.0)
                } else {
                    None
                },
                None => None,
            };
            match entry_of(&name, lookup, probed) {
                Some(w) => out.push(w),
                None => {},
            }
            i = i + 1;
        }
        Ok(out)
    }

    /// Looks a single worktree up by name.  Returns its snapshot, or
    /// `NotFound` exactly when the name is not registered: the decision is
    /// `name_index` over the listed names.
    pub fn find_worktree(&self, name: &String) -> (r: Result<Worktree, GitError>)
        ensures
            r matches Ok(w) ==> w.name@ == name@ && (w.valid || w.head_ref is None),
            r matches Err(e) ==> (e matches GitError::NotFound { name: n } && n@ == name@ || e
                is ResourceBusy || e is CommandFailed),
    {
        let names = match self.worktree_names() {
            Ok(names) => names,
            Err(e) => {
                return Err(e);
            },
        };
        if name_index(&names, name).is_none() {
            return Err(GitError::NotFound { name: name.clone() });
        }
        match backend::find_worktree_raw(&self.inner, name.as_str()) {
            Ok(found) => {
                let probed = if found.1 {
                    RepoHandle::probe_head_ref(&found.0)
                } else {
                    None
                };
                match entry_of(name, Some(found), probed) {
                    Some(w) => Ok(w),
                    // Unreachable: a present lookup always yields a record.
                    None => Err(GitError::NotFound { name: name.clone() }),
                }
            },
            Err(e) => {
                let (kind, detail) = backend::error_details(&e);
                Err(lookup_failure("worktree lookup", name, kind, detail))
            },
        }
    }

    /// The working-directory state as classified entries, one per changed
    /// path; `pathspecs` empty means the whole tree.  The classification
    /// of the raw pairs is exactly `classify_entries`.  A pathspec with an
    /// interior NUL character cannot cross the C boundary and is rejected
    /// up front.
    pub fn status(&self, pathspecs: &Vec<String>) -> (r: Result<Vec<StatusEntry>, GitError>)
        ensures
            r matches Err(e) ==> (e is ResourceBusy || e is CommandFailed),
            (exists|i: int| 0 <= i < pathspecs@.len() && has_nul(pathspecs@[i]@)) ==> (
            r matches Err(e) && e matches GitError::CommandFailed { operation, target, stderr }
                && operation@ == "status"@ && target@ == self.path_spec() && stderr@
                == "pathspec contains a NUL byte"@),
    {
        let target = self.git_dir.clone();
        let mut i: usize = 0;
        while i < pathspecs.len()
            invariant
                target@ == self.path_spec(),
                i <= pathspecs@.len(),
                forall|k: int| 0 <= k < i ==> !has_nul(pathspecs@[k]@),
            decreases pathspecs@.len() - i,
        {
            if contains_nul(pathspecs[i].as_str()) {
                return Err(
                    GitError::CommandFailed {
                        operation: String::from_str("status"),
                        target,
                        stderr: String::from_str("pathspec contains a NUL byte"),
                    },
                );
            }
            i = i + 1;
        }
        let mut attempt: u32 = 0;
        while attempt < MAX_READ_ATTEMPTS
            invariant
                attempt <= MAX_READ_ATTEMPTS,
                forall|k: int| 0 <= k < pathspecs@.len() ==> !has_nul(pathspecs@[k]@),
            decreases MAX_READ_ATTEMPTS - attempt,
        {
            match backend::statuses_raw(&self.inner, pathspecs) {
                Ok(raw) => {
                    return Ok(classify_entries(&raw));
                },
                Err(e) => {
                    let (kind, detail) = backend::error_details(&e);
                    if kind == GitErrorKind::Locked {
                        if attempt + 1 >= MAX_READ_ATTEMPTS {
                            return Err(
                                GitError::ResourceBusy {
                                    operation: String::from_str("status"),
                                    target,
                                },
                            );
                        }
                    } else {
                        return Err(
                            GitError::CommandFailed {
                                operation: String::from_str("status"),
                                target,
                                stderr: detail,
                            },
                        );
                    }
                },
            }
            attempt = attempt + 1;
        }
        Err(GitError::ResourceBusy { operation: String::from_str("status"), target })
    }

    /// The commit id HEAD points at, or `None` on an unborn branch (no
    /// commits yet) — never an error for the unborn case.
    pub fn head_sha(&self) -> (r: Result<Option<CommitId>, GitError>)
        ensures
            r matches Err(e) ==> (e is ResourceBusy || e is CommandFailed),
    {
        let target = self.git_dir.clone();
        let mut attempt: u32 = 0;
        while attempt < MAX_READ_ATTEMPTS
            invariant
                attempt <= MAX_READ_ATTEMPTS,
            decreases MAX_READ_ATTEMPTS - attempt,
        {
            match backend::head_sha_raw(&self.inner) {
                Ok(opt) => {
                    return Ok(
                        match opt {
                            Some(hex) => Some(CommitId { hex }),
                            None => None,
                        },
                    );
                },
                Err(e) => {
                    let (kind, detail) = backend::error_details(&e);
                    if kind == GitErrorKind::Locked {
                        if attempt + 1 >= MAX_READ_ATTEMPTS {
                            return Err(
                                GitError::ResourceBusy {
                                    operation: String::from_str("head lookup"),
                                    target,
                                },
                            );
                        }
                    } else {
                        return Err(
                            GitError::CommandFailed {
                                operation: String::from_str("head lookup"),
                                target,
                                stderr: detail,
                            },
                        );
                    }
                },
            }
            attempt = attempt + 1;
        }
        Err(GitError::ResourceBusy { operation: String::from_str("head lookup"), target })
    }
}

} // verus!
