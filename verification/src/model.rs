//! Plain data returned by workspace queries.
//!
//! `Worktree` and `StatusEntry` values are snapshots produced by queries,
//! never live handles: holding one grants no capability over the repository.

use vstd::prelude::*;

verus! {

/// Identifies one commit by its full hex object id.
#[derive(Debug, Clone, PartialEq, Eq)]
pub struct CommitId {
    pub hex: String,
}

/// A commit identity: author or committer name plus email address.
#[derive(Debug, Clone, PartialEq, Eq)]
pub struct Author {
    pub name: String,
    pub email: String,
}

/// A named, filesystem-located secondary working copy linked to a repository.
///
/// `valid` records whether git's internal bookkeeping and the filesystem
/// agree; a worktree whose directory is missing is stale (`valid` is false),
/// not gone: its metadata entry still blocks reuse of the name until pruned.
#[derive(Debug, Clone, PartialEq, Eq)]
pub struct Worktree {
    pub name: String,
    pub path: String,
    /// The reference the worktree's HEAD points at, if it could be read.
    pub head_ref: Option<String>,
    pub valid: bool,
}

/// Classification of one changed path in a working directory.
#[derive(Debug, Clone, Copy, PartialEq, Eq, Structural)]
pub enum StatusKind {
    Added,
    Modified,
    Deleted,
    Untracked,
    Conflicted,
}

/// One changed path inside a worktree's working directory.
///
/// A worktree is clean iff its status query returns no entries.
#[derive(Debug, Clone, PartialEq, Eq)]
pub struct StatusEntry {
    pub path: String,
    pub kind: StatusKind,
}

/// How a commit is built.
#[derive(Debug, Clone, Copy, PartialEq, Eq, Structural)]
pub struct CommitOptions {
    /// Rewrite the current HEAD commit instead of creating a new one.
    pub amend: bool,
    /// Append a sign-off trailer with the resolved author identity.
    pub signoff: bool,
}

/// Everything the commit pipeline needs for one commit.
///
/// The co-author is resolved before the request is built: a resolver that
/// may suspend (for example, a lookup of a collaborating agent's identity)
/// runs in the embedding application, and its outcome — possibly "no
/// co-author" — is recorded here as a plain value.
#[derive(Debug, Clone, PartialEq, Eq)]
pub struct CommitRequest {
    pub message: String,
    /// Commit as this identity; absent means use an override from `env`
    /// or the repository-configured identity.
    pub author: Option<Author>,
    pub options: CommitOptions,
    /// Environment mapping propagated to the underlying git operation,
    /// consulted for identity overrides.
    pub env: Vec<(String, String)>,
    /// The already-resolved co-author, if any.
    pub co_author: Option<Author>,
}

/// The string holds an interior NUL character.  The C strings of the git
/// boundary cannot carry one, so such a value is rejected before it
/// reaches the boundary.
pub open spec fn has_nul(s: Seq<char>) -> bool {
    exists|i: int| 0 <= i < s.len() && s[i] == '\0'
}

/// Whether the string holds a NUL character.
pub fn contains_nul(s: &str) -> (r: bool)
    ensures
        r == has_nul(s@),
{
    let len = s.unicode_len();
    let mut i: usize = 0;
    while i < len
        invariant
            len == s@.len(),
            i <= len,
            forall|k: int| 0 <= k < i ==> s@[k] != '\0',
        decreases len - i,
    {
        if s.get_char(i) == '\0' {
            return true;
        }
        i = i + 1;
    }
    false
}

// libgit2 reports the state of a path as a bit set; these are the bits the
// classification below reads.
pub const STATUS_INDEX_NEW: u32 = 0x0001;
pub const STATUS_INDEX_MODIFIED: u32 = 0x0002;
pub const STATUS_INDEX_DELETED: u32 = 0x0004;
pub const STATUS_INDEX_RENAMED: u32 = 0x0008;
pub const STATUS_INDEX_TYPECHANGE: u32 = 0x0010;
pub const STATUS_WT_NEW: u32 = 0x0080;
pub const STATUS_WT_MODIFIED: u32 = 0x0100;
pub const STATUS_WT_DELETED: u32 = 0x0200;
pub const STATUS_WT_TYPECHANGE: u32 = 0x0400;
pub const STATUS_WT_RENAMED: u32 = 0x0800;
pub const STATUS_CONFLICTED: u32 = 0x8000;

/// How a raw status bit set is classified, most specific state first:
/// a conflict wins over everything, a path unknown to the index is
/// untracked, a path newly staged is added, any deletion wins over a
/// plain modification, and everything else counts as modified.
pub open spec fn classify_status_spec(bits: u32) -> StatusKind {
    if bits & STATUS_CONFLICTED != 0 {
        StatusKind::Conflicted
    } else if bits & STATUS_WT_NEW != 0 {
        StatusKind::Untracked
    } else if bits & STATUS_INDEX_NEW != 0 {
        StatusKind::Added
    } else if bits & (STATUS_INDEX_DELETED | STATUS_WT_DELETED) != 0 {
        StatusKind::Deleted
    } else {
        StatusKind::Modified
    }
}

/// Classifies one raw status bit set.
pub fn classify_status(bits: u32) -> (r: StatusKind)
    ensures
        r == classify_status_spec(bits),
{
    if bits & STATUS_CONFLICTED != 0 {
        StatusKind::Conflicted
    } else if bits & STATUS_WT_NEW != 0 {
        StatusKind::Untracked
    } else if bits & STATUS_INDEX_NEW != 0 {
        StatusKind::Added
    } else if bits & (STATUS_INDEX_DELETED | STATUS_WT_DELETED) != 0 {
        StatusKind::Deleted
    } else {
        StatusKind::Modified
    }
}

/// Turns the raw `(path, bits)` pairs of a status query into classified
/// entries, in order.
pub fn classify_entries(raw: &Vec<(String, u32)>) -> (r: Vec<StatusEntry>)
    ensures
        r@.len() == raw@.len(),
        forall|i: int| 0 <= i < raw@.len() ==> #[trigger] r@[i].path@ == raw@[i].0@,
        forall|i: int| 0 <= i < raw@.len() ==> #[trigger] r@[i].kind == classify_status_spec(raw@[i].1),
{
    let mut out: Vec<StatusEntry> = Vec::new();
    let mut i: usize = 0;
    while i < raw.len()
        invariant
            0 <= i <= raw@.len(),
            out@.len() == i,
            forall|j: int| 0 <= j < i ==> #[trigger] out@[j].path@ == raw@[j].0@,
            forall|j: int| 0 <= j < i ==> #[trigger] out@[j].kind == classify_status_spec(raw@[j].1),
        decreases raw@.len() - i,
    {
        let p = raw[i].0.clone();
        let bits = raw[i].1;
        out.push(StatusEntry { path: p, kind: classify_status(bits) });
        i = i + 1;
    }
    out
}

} // verus!
