//! Trusted boundary over libgit2.
//!
//! Every function here is an `external_body` wrapper around one git
//! operation of the `git2` crate.  What each call returns depends on the
//! repository on disk, which other processes may change at any time, so the
//! wrappers promise nothing about the values that come back: the verified
//! code around them takes those values as arguments and states exactly what
//! it does for each possible value.

use vstd::prelude::*;

verus! {

#[verifier::external_type_specification]
#[verifier::external_body]
pub struct ExRepository(git2::Repository);

#[verifier::external_type_specification]
#[verifier::external_body]
pub struct ExGit2Error(git2::Error);

/// The error conditions this library reacts to, read off a `git2::Error`.
#[derive(Debug, Clone, Copy, PartialEq, Eq, Structural)]
pub enum GitErrorKind {
    /// An object with that name already exists.
    Exists,
    /// The requested object was not found.
    NotFound,
    /// A lock file prevented the operation.
    Locked,
    /// HEAD refers to a branch with no commits.
    Unborn,
    /// Anything else.
    Other,
}

/// Relies on git2::Error::code and git2::Error::message: reads which error
/// condition libgit2 reported, and its text.
#[verifier::external_body]
pub(crate) fn error_details(e: &git2::Error) -> (GitErrorKind, String) {
    let kind = match e.code() {
        git2::ErrorCode::Exists => GitErrorKind::Exists,
        git2::ErrorCode::NotFound => GitErrorKind::NotFound,
        git2::ErrorCode::Locked => GitErrorKind::Locked,
        git2::ErrorCode::UnbornBranch => GitErrorKind::Unborn,
        _ => GitErrorKind::Other,
    };
    (kind, e.message().to_string())
}

/// Relies on git2::Repository::open: opens an already-existing repository
/// (normal or bare) at the given path.
#[verifier::external_body]
pub(crate) fn open_repo(path: &str) -> Result<git2::Repository, git2::Error> {
    git2::Repository::open(path)
}

/// Relies on git2::Repository::init: creates a new repository at the given
/// path, creating the directory if needed.
#[verifier::external_body]
pub(crate) fn init_repo(path: &str) -> Result<git2::Repository, git2::Error> {
    git2::Repository::init(path)
}

/// Relies on git2::Repository::worktrees: lists the names of all worktrees
/// registered in the repository's metadata, stale ones included.  A name
/// that is not valid UTF-8 is skipped.
#[verifier::external_body]
pub(crate) fn list_worktree_names(repo: &git2::Repository) -> Result<Vec<String>, git2::Error> {
    let arr = repo.worktrees()?;
    let mut v = Vec::new();
    for entry in arr.iter() {
        if let Ok(Some(s)) = entry {
            v.push(s.to_string());
        }
    }
    Ok(v)
}

/// Relies on git2::Repository::find_worktree, git2::Worktree::path and
/// git2::Worktree::validate: looks up the metadata entry of the named
/// worktree and reads the filesystem location of its working directory and
/// whether metadata and filesystem still agree.
#[verifier::external_body]
pub(crate) fn find_worktree_raw(repo: &git2::Repository, name: &str) -> Result<
    (String, bool),
    git2::Error,
> {
    let wt = repo.find_worktree(name)?;
    Ok((wt.path().to_string_lossy().into_owned(), wt.validate().is_ok()))
}

/// Relies on git2::Repository::worktree: registers a new worktree named
/// `name`, materializes its working directory at `path`, and checks out a
/// branch named after the worktree from the current HEAD.
#[verifier::external_body]
pub(crate) fn add_worktree_raw(repo: &git2::Repository, name: &str, path: &str) -> Result<
    (),
    git2::Error,
> {
    repo.worktree(name, std::path::Path::new(path), None)?;
    Ok(())
}

/// Relies on git2::Repository::worktree with git2::WorktreeAddOptions::reference
/// (looked up through git2::Repository::find_reference): as `add_worktree_raw`,
/// but the new worktree's HEAD points at the named branch.
#[verifier::external_body]
pub(crate) fn add_worktree_on_branch_raw(
    repo: &git2::Repository,
    name: &str,
    path: &str,
    branch: &str,
) -> Result<(), git2::Error> {
    let reference = repo.find_reference(&format!("refs/heads/{}", branch))?;
    let mut opts = git2::WorktreeAddOptions::new();
    opts.reference(Some(&reference));
    repo.worktree(name, std::path::Path::new(path), Some(&opts))?;
    Ok(())
}

/// Relies on git2::Repository::branch (with git2::Oid::from_str and
/// git2::Repository::find_commit): creates branch `name` pointing at the
/// commit with the given hex id, without forcing.
#[verifier::external_body]
pub(crate) fn create_branch_raw(repo: &git2::Repository, name: &str, sha: &str) -> Result<
    (),
    git2::Error,
> {
    let commit = repo.find_commit(git2::Oid::from_str(sha)?)?;
    repo.branch(name, &commit, false)?;
    Ok(())
}

/// Relies on git2::Worktree::prune with git2::WorktreePruneOptions (looked
/// up through git2::Repository::find_worktree): removes the named
/// worktree's metadata entry, even if the working directory still exists
/// (`valid` flag).  The working directory itself is left alone.
#[verifier::external_body]
pub(crate) fn prune_worktree_raw(repo: &git2::Repository, name: &str) -> Result<
    (),
    git2::Error,
> {
    let wt = repo.find_worktree(name)?;
    let mut opts = git2::WorktreePruneOptions::new();
    opts.valid(true);
    wt.prune(Some(&mut opts))
}

/// Relies on git2::Branch::delete (looked up through
/// git2::Repository::find_branch): removes the local branch with that
/// name.
#[verifier::external_body]
pub(crate) fn delete_branch_raw(repo: &git2::Repository, name: &str) -> Result<(), git2::Error> {
    let mut branch = repo.find_branch(name, git2::BranchType::Local)?;
    branch.delete()
}

/// Relies on git2::Repository::head and git2::Reference::peel_to_commit:
/// the hex id of the commit HEAD points at, or `None` on an unborn branch
/// (no commits yet).
#[verifier::external_body]
pub(crate) fn head_sha_raw(repo: &git2::Repository) -> Result<Option<String>, git2::Error> {
    match repo.head() {
        Ok(h) => Ok(Some(h.peel_to_commit()?.id().to_string())),
        Err(e) if e.code() == git2::ErrorCode::UnbornBranch || e.code()
            == git2::ErrorCode::NotFound => Ok(None),
        Err(e) => Err(e),
    }
}

/// Relies on git2::Repository::head and git2::Reference::name: the full
/// name of the reference HEAD resolves to, or `None` on an unborn branch or
/// a name that is not valid UTF-8.
#[verifier::external_body]
pub(crate) fn head_ref_raw(repo: &git2::Repository) -> Result<Option<String>, git2::Error> {
    match repo.head() {
        Ok(h) => Ok(h.name().ok().map(|s| s.to_string())),
        Err(e) if e.code() == git2::ErrorCode::UnbornBranch || e.code()
            == git2::ErrorCode::NotFound => Ok(None),
        Err(e) => Err(e),
    }
}

/// Relies on git2::Repository::signature: the repository-configured
/// identity (`user.name`, `user.email`), as name and email.  A field that
/// is not valid UTF-8 comes back empty.
#[verifier::external_body]
pub(crate) fn default_signature_raw(repo: &git2::Repository) -> Result<
    (String, String),
    git2::Error,
> {
    let sig = repo.signature()?;
    Ok((sig.name().unwrap_or("").to_string(), sig.email().unwrap_or("").to_string()))
}

/// Relies on git2::Repository::statuses with git2::StatusOptions: one
/// `(path, status bits)` pair per changed path, untracked files included;
/// the given pathspecs restrict the walk, none meaning the whole tree.
/// git2's pathspec conversion panics on a string with an interior NUL
/// byte, so the precondition keeps that input out.
#[verifier::external_body]
pub(crate) fn statuses_raw(repo: &git2::Repository, pathspecs: &Vec<String>) -> Result<
    Vec<(String, u32)>,
    git2::Error,
>
    requires
        forall|i: int| 0 <= i < pathspecs@.len() ==> !crate::model::has_nul(pathspecs@[i]@),
{
    let mut opts = git2::StatusOptions::new();
    opts.include_untracked(true);
    for p in pathspecs {
        opts.pathspec(p.as_str());
    }
    let statuses = repo.statuses(Some(&mut opts))?;
    Ok(
        statuses.iter().map(
            |e| (String::from_utf8_lossy(e.path_bytes()).into_owned(), e.status().bits()),
        ).collect(),
    )
}

/// Relies on git2::Index::add_all and git2::Index::write (through
/// git2::Repository::index): stages every pending change in the working
/// directory, untracked files included.
#[verifier::external_body]
pub(crate) fn stage_all_raw(repo: &git2::Repository) -> Result<(), git2::Error> {
    let mut index = repo.index()?;
    index.add_all(["*"].iter(), git2::IndexAddOption::DEFAULT, None)?;
    index.write()?;
    Ok(())
}

/// Relies on git2::Repository::commit (with git2::Signature::now,
/// git2::Index::write_tree, git2::Repository::find_tree, and
/// git2::Reference::peel_to_commit for the parent): writes the staged tree
/// as a commit on HEAD — parentless on an unborn branch — and returns the
/// new commit's hex id.
#[verifier::external_body]
pub(crate) fn commit_head_raw(
    repo: &git2::Repository,
    message: &str,
    name: &str,
    email: &str,
) -> Result<String, git2::Error> {
    let sig = git2::Signature::now(name, email)?;
    let mut index = repo.index()?;
    let tree = repo.find_tree(index.write_tree()?)?;
    let head = match repo.head() {
        Ok(h) => Some(h.peel_to_commit()?),
        Err(e) if e.code() == git2::ErrorCode::UnbornBranch || e.code()
            == git2::ErrorCode::NotFound => None,
        Err(e) => return Err(e),
    };
    let parents: Vec<&git2::Commit> = head.iter().collect();
    let oid = repo.commit(Some("HEAD"), &sig, &sig, message, &tree, &parents)?;
    Ok(oid.to_string())
}

/// Relies on git2::Commit::amend (with git2::Signature::now,
/// git2::Index::write_tree, git2::Repository::find_tree, and
/// git2::Repository::head): rewrites the commit HEAD points at with the
/// staged tree and the given message and identity, keeping its parents, and
/// returns the replacement commit's hex id.
#[verifier::external_body]
pub(crate) fn amend_head_raw(
    repo: &git2::Repository,
    message: &str,
    name: &str,
    email: &str,
) -> Result<String, git2::Error> {
    let sig = git2::Signature::now(name, email)?;
    let mut index = repo.index()?;
    let tree = repo.find_tree(index.write_tree()?)?;
    let head = repo.head()?.peel_to_commit()?;
    let oid = head.amend(Some("HEAD"), Some(&sig), Some(&sig), None, Some(message), Some(&tree))?;
    Ok(oid.to_string())
}

} // verus!
