//! The commit pipeline: stage everything, resolve the identity, assemble
//! the message with its trailers, and build the commit.
//!
//! On success the target worktree's HEAD advances to the returned commit
//! id; on any failure HEAD is left exactly as it was, because the commit
//! object is only written in the final step.

use vstd::prelude::*;

use crate::backend;
use crate::backend::GitErrorKind;
use crate::errors::GitError;
use crate::model::{Author, CommitId, CommitRequest};
use crate::repo::RepoHandle;

verus! {

/// A key occurs in an environment mapping.
pub open spec fn has_env_key(env: Seq<(String, String)>, key: Seq<char>) -> bool {
    exists|i: int| 0 <= i < env.len() && env[i].0@ == key
}

/// The value paired with the first occurrence of `key`, scanning left to
/// right; `None` when the key is absent.
pub open spec fn env_value_spec(env: Seq<(String, String)>, key: Seq<char>) -> Option<Seq<char>>
    decreases env.len(),
{
    if env.len() == 0 {
        None
    } else if env[0].0@ == key {
        Some(env[0].1@)
    } else {
        env_value_spec(env.drop_first(), key)
    }
}

proof fn lemma_absent_key_has_no_value(env: Seq<(String, String)>, key: Seq<char>)
    requires
        !has_env_key(env, key),
    ensures
        env_value_spec(env, key) is None,
    decreases env.len(),
{
    if env.len() > 0 {
        assert(env[0].0@ != key);
        if has_env_key(env.drop_first(), key) {
            let j = choose|j: int|
                0 <= j < env.drop_first().len() && env.drop_first()[j].0@ == key;
            assert(env.drop_first()[j] == env[j + 1]);
            assert(false);
        }
        lemma_absent_key_has_no_value(env.drop_first(), key);
    }
}

/// The value paired with the first occurrence of `key` — exactly
/// `env_value_spec` — or `None` exactly when the key is absent.
pub fn env_lookup(env: &Vec<(String, String)>, key: &str) -> (r: Option<String>)
    ensures
        r matches Some(v) ==> env_value_spec(env@, key@) == Some(v@),
        r is None <==> !has_env_key(env@, key@),
{
    let key_string = String::from_str(key);
    let mut i: usize = 0;
    proof {
        assert(env@.skip(0) =~= env@);
    }
    while i < env.len()
        invariant
            key_string@ == key@,
            i <= env@.len(),
            forall|k: int| 0 <= k < i ==> env@[k].0@ != key@,
            env_value_spec(env@, key@) == env_value_spec(env@.skip(i as int), key@),
        decreases env@.len() - i,
    {
        if env[i].0 == key_string {
            proof {
                assert(env@.skip(i as int)[0] == env@[i as int]);
            }
            return Some(env[i].1.clone());
        }
        proof {
            assert(env@.skip(i as int)[0] == env@[i as int]);
            assert(env@.skip(i as int).drop_first() =~= env@.skip(i as int + 1));
        }
        i = i + 1;
    }
    proof {
        assert(env@.skip(i as int).len() == 0);
    }
    None
}

/// Picks the commit identity: the explicitly requested author wins; next an
/// identity override in the environment mapping (both `GIT_AUTHOR_NAME` and
/// `GIT_AUTHOR_EMAIL` present); last the repository-configured fallback.
pub fn resolve_author(
    requested: &Option<Author>,
    env: &Vec<(String, String)>,
    fallback: &Option<Author>,
) -> (r: Option<Author>)
    ensures
        requested matches Some(a) ==> (r matches Some(b) && b.name@ == a.name@ && b.email@
            == a.email@),
        requested is None ==> (env_value_spec(env@, "GIT_AUTHOR_NAME"@) matches Some(n) ==> (
        env_value_spec(env@, "GIT_AUTHOR_EMAIL"@) matches Some(m) ==> (r matches Some(b)
            && b.name@ == n && b.email@ == m))),
        requested is None && !(has_env_key(env@, "GIT_AUTHOR_NAME"@) && has_env_key(
            env@,
            "GIT_AUTHOR_EMAIL"@,
        )) ==> (match fallback {
            Some(f) => r matches Some(b) && b.name@ == f.name@ && b.email@ == f.email@,
            None => r is None,
        }),
{
    match requested {
        Some(a) => Some(Author { name: a.name.clone(), email: a.email.clone() }),
        None => {
            let name = env_lookup(env, "GIT_AUTHOR_NAME");
            let email = env_lookup(env, "GIT_AUTHOR_EMAIL");
            if name.is_some() && email.is_some() {
                Some(Author { name: name.unwrap(), email: email.unwrap() })
            } else {
                proof {
                    if name is None {
                        lemma_absent_key_has_no_value(env@, "GIT_AUTHOR_NAME"@);
                    }
                    if email is None {
                        lemma_absent_key_has_no_value(env@, "GIT_AUTHOR_EMAIL"@);
                    }
                }
                match fallback {
                    Some(f) => Some(Author { name: f.name.clone(), email: f.email.clone() }),
                    None => None,
                }
            }
        },
    }
}

/// `name <email>`, as it appears in a trailer.
pub open spec fn identity_spec(a: Author) -> Seq<char> {
    a.name@ + " <"@ + a.email@ + ">"@
}

/// The full commit message: the request's message, then a co-author
/// trailer when a co-author was resolved, then a sign-off trailer when
/// sign-off was requested, each in its own trailer block.
pub open spec fn full_message_spec(
    message: Seq<char>,
    co_author: Option<Author>,
    signoff: Option<Author>,
) -> Seq<char> {
    (match co_author {
        Some(c) => message + "\n\nCo-authored-by: "@ + identity_spec(c),
        None => message,
    }) + (match signoff {
        Some(s) => "\n\nSigned-off-by: "@ + identity_spec(s),
        None => Seq::<char>::empty(),
    })
}

/// Assembles the message handed to git, exactly as `full_message_spec`
/// lays it out.
pub fn build_message(message: &String, co_author: &Option<Author>, signoff: Option<&Author>) -> (r:
    String)
    ensures
        r@ == full_message_spec(
            message@,
            *co_author,
            match signoff {
                Some(s) => Some(*s),
                None => None,
            },
        ),
{
    let mut out = message.clone();
    if let Some(c) = co_author {
        out.append("\n\nCo-authored-by: ");
        out.append(c.name.as_str());
        out.append(" <");
        out.append(c.email.as_str());
        out.append(">");
    }
    if let Some(s) = signoff {
        out.append("\n\nSigned-off-by: ");
        out.append(s.name.as_str());
        out.append(" <");
        out.append(s.email.as_str());
        out.append(">");
    }
    out
}

/// The amend gate: rewriting HEAD needs a commit to rewrite, so an amend
/// on an unborn branch fails with `NothingToAmend` — and nothing else does.
pub fn amend_precheck(amend: bool, head: &Option<CommitId>) -> (r: Result<(), GitError>)
    ensures
        r is Ok <==> (!amend || head is Some),
        r matches Err(e) ==> e is NothingToAmend,
{
    if amend && head.is_none() {
        Err(GitError::NothingToAmend)
    } else {
        Ok(())
    }
}

impl RepoHandle {
    /// Stages every pending change in this worktree and commits it with
    /// the request's message, identity, and options.  `amend` rewrites
    /// the current HEAD commit instead of creating a new one, failing
    /// with `NothingToAmend` on an unborn branch; `signoff` appends a
    /// sign-off trailer with the resolved identity; a resolved co-author
    /// gets a co-author trailer.  On success the returned id is what
    /// `head_sha` reports immediately afterward for this worktree.
    pub fn commit(&self, req: &CommitRequest) -> (r: Result<CommitId, GitError>)
        ensures
            r matches Err(e) ==> (e is NothingToAmend || e is ResourceBusy || e is CommandFailed),
            r matches Err(e) ==> (e is NothingToAmend ==> req.options.amend),
    {
        let target = self.git_dir().clone();
        match backend::stage_all_raw(self.raw()) {
            Ok(()) => {},
            Err(e) => {
                let (kind, detail) = backend::error_details(&e);
                return Err(commit_failure("stage", &target, kind, detail));
            },
        }
        let head = match self.head_sha() {
            Ok(h) => h,
            Err(e) => {
                return Err(e);
            },
        };
        match amend_precheck(req.options.amend, &head) {
            Ok(()) => {},
            Err(e) => {
                return Err(e);
            },
        }
        let fallback = match backend::default_signature_raw(self.raw()) {
            Ok((name, email)) => Some(Author { name, email }),
            Err(_) => None,
        };
        let author = match resolve_author(&req.author, &req.env, &fallback) {
            Some(a) => a,
            None => {
                return Err(
                    GitError::CommandFailed {
                        operation: String::from_str("commit"),
                        target,
                        stderr: String::from_str("no author identity configured"),
                    },
                );
            },
        };
        let message = build_message(
            &req.message,
            &req.co_author,
            if req.options.signoff {
                Some(&author)
            } else {
                None
            },
        );
        let res = if req.options.amend {
            backend::amend_head_raw(
                self.raw(),
                message.as_str(),
                author.name.as_str(),
                author.email.as_str(),
            )
        } else {
            backend::commit_head_raw(
                self.raw(),
                message.as_str(),
                author.name.as_str(),
                author.email.as_str(),
            )
        };
        match res {
            Ok(hex) => Ok(CommitId { hex }),
            Err(e) => {
                let (kind, detail) = backend::error_details(&e);
                Err(commit_failure("commit", &target, kind, detail))
            },
        }
    }
}

/// Maps a failure inside the commit pipeline: a held lock is
/// `ResourceBusy`, anything else is `CommandFailed` carrying git's report.
fn commit_failure(operation: &str, target: &String, kind: GitErrorKind, detail: String) -> (r:
    GitError)
    ensures
        kind == GitErrorKind::Locked ==> (r matches GitError::ResourceBusy {
            operation: op,
            target: t,
        } && op@ == operation@ && t@ == target@),
        kind != GitErrorKind::Locked ==> (r matches GitError::CommandFailed {
            operation: op,
            target: t,
            stderr,
        } && op@ == operation@ && t@ == target@ && stderr@ == detail@),
{
    match kind {
        GitErrorKind::Locked => GitError::ResourceBusy {
            operation: String::from_str(operation),
            target: target.clone(),
        },
        _ => GitError::CommandFailed {
            operation: String::from_str(operation),
            target: target.clone(),
            stderr: detail,
        },
    }
}

} // verus!
