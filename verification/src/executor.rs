//! Decision layer of the process executor.
//!
//! The executor itself — spawning a git process, capturing its output,
//! enforcing a deadline — is operating-system work that lives in the
//! embedding application.  What is verified here is everything the executor
//! decides: how a finished invocation is classified into the error taxonomy,
//! when a failed mutation is worth retrying, and how long to back off.

use vstd::prelude::*;

use crate::errors::GitError;

verus! {

/// One command invocation, as data: program, argument list, working
/// directory, environment overlay, and the deadline imposed on the run.
#[derive(Debug, Clone, PartialEq, Eq)]
pub struct CommandSpec {
    pub program: String,
    pub args: Vec<String>,
    pub cwd: String,
    pub env: Vec<(String, String)>,
    pub timeout_ms: u64,
}

/// What running one command produced, as data.
///
/// A non-zero exit is not an error of the executor: it is recorded here and
/// classified by `classify_outcome`.  Only a failure to even launch the
/// process (`launched` false) or an expired deadline (`timed_out` true) are
/// process-level failures.
#[derive(Debug, Clone, PartialEq, Eq)]
pub struct CommandOutcome {
    pub launched: bool,
    /// Meaningful only when `launched` is true.
    pub timed_out: bool,
    /// Meaningful only when the process ran to completion.
    pub exit_code: i32,
    pub stdout: String,
    pub stderr: String,
    /// The OS-level report when `launched` is false.
    pub launch_error: String,
}

/// `n` occurs in `h` starting at position `i`.
pub open spec fn matches_at(h: Seq<char>, n: Seq<char>, i: int) -> bool {
    0 <= i && i + n.len() <= h.len() && h.subrange(i, i + n.len()) == n
}

/// `n` occurs somewhere in `h`.
pub open spec fn contains_chars(h: Seq<char>, n: Seq<char>) -> bool {
    exists|i: int| matches_at(h, n, i)
}

/// Whether the characters of `n` occur contiguously in `h`.
pub fn contains_str(h: &str, n: &str) -> (r: bool)
    ensures
        r == contains_chars(h@, n@),
{
    let hl = h.unicode_len();
    let nl = n.unicode_len();
    if nl > hl {
        return false;
    }
    if nl == 0 {
        proof {
            assert(h@.subrange(0, 0) =~= n@);
            assert(matches_at(h@, n@, 0));
        }
        return true;
    }
    let mut i: usize = 0;
    while i <= hl - nl
        invariant
            1 <= nl <= hl == h@.len(),
            nl == n@.len(),
            i <= hl - nl + 1,
            forall|k: int| 0 <= k < i ==> !matches_at(h@, n@, k),
        decreases hl - nl + 1 - i,
    {
        let mut j: usize = 0;
        let mut all_eq = true;
        proof {
            assert(h@.subrange(i as int, i as int) =~= n@.subrange(0, 0));
        }
        while j < nl
            invariant
                nl <= hl == h@.len(),
                nl == n@.len(),
                i + nl <= hl,
                j <= nl,
                all_eq <==> h@.subrange(i as int, i + j) == n@.subrange(0, j as int),
            decreases nl - j,
        {
            let hc = h.get_char(i + j);
            let nc = n.get_char(j);
            proof {
                let ghost hpre = h@.subrange(i as int, i + j);
                let ghost npre = n@.subrange(0, j as int);
                if hpre == npre && hc == nc {
                    assert(h@.subrange(i as int, i + j + 1) =~= hpre.push(hc));
                    assert(n@.subrange(0, j + 1) =~= npre.push(nc));
                } else if h@.subrange(i as int, i + j + 1) == n@.subrange(0, j + 1) {
                    assert(h@.subrange(i as int, i + j + 1).drop_last() =~= hpre);
                    assert(n@.subrange(0, j + 1).drop_last() =~= npre);
                    assert(h@.subrange(i as int, i + j + 1).last() == hc);
                    assert(n@.subrange(0, j + 1).last() == nc);
                }
            }
            all_eq = all_eq && hc == nc;
            j = j + 1;
        }
        if all_eq {
            proof {
                assert(h@.subrange(i as int, i + nl) == n@.subrange(0, nl as int));
                assert(n@.subrange(0, nl as int) =~= n@);
                assert(matches_at(h@, n@, i as int));
            }
            return true;
        }
        proof {
            assert(n@.subrange(0, nl as int) =~= n@);
            assert(!matches_at(h@, n@, i as int));
        }
        i = i + 1;
    }
    proof {
        assert forall|k: int| !matches_at(h@, n@, k) by {
            if 0 <= k <= hl - nl {
                assert(!matches_at(h@, n@, k));
            }
        }
    }
    false
}

/// Git reports index-lock contention by naming the lock file on stderr.
pub open spec fn lock_contention_spec(stderr: Seq<char>) -> bool {
    contains_chars(stderr, "index.lock"@)
}

/// Whether stderr shows transient lock contention worth retrying.
pub fn is_lock_contention(stderr: &str) -> (r: bool)
    ensures
        r == lock_contention_spec(stderr@),
{
    contains_str(stderr, "index.lock")
}

/// Classifies one finished invocation into the error taxonomy: a process
/// that never launched is `LaunchFailed`, an expired deadline is `Timeout`,
/// a zero exit yields the captured stdout, lock contention on stderr is
/// `ResourceBusy`, and any other non-zero exit is `CommandFailed` carrying
/// the captured stderr.
pub fn classify_outcome(operation: &String, target: &String, out: &CommandOutcome) -> (r: Result<
    String,
    GitError,
>)
    ensures
        !out.launched ==> (r matches Err(e) && e matches GitError::LaunchFailed {
            command,
            detail,
        } && command@ == operation@ && detail@ == out.launch_error@),
        out.launched && out.timed_out ==> (r matches Err(e) && e matches GitError::Timeout {
            command,
        } && command@ == operation@),
        out.launched && !out.timed_out && out.exit_code == 0 ==> (r matches Ok(s) && s@
            == out.stdout@),
        out.launched && !out.timed_out && out.exit_code != 0 && lock_contention_spec(out.stderr@)
            ==> (r matches Err(e) && e matches GitError::ResourceBusy { operation: op, target: t }
            && op@ == operation@ && t@ == target@),
        out.launched && !out.timed_out && out.exit_code != 0 && !lock_contention_spec(out.stderr@)
            ==> (r matches Err(e) && e matches GitError::CommandFailed {
            operation: op,
            target: t,
            stderr,
        } && op@ == operation@ && t@ == target@ && stderr@ == out.stderr@),
{
    if !out.launched {
        Err(
            GitError::LaunchFailed {
                command: operation.clone(),
                detail: out.launch_error.clone(),
            },
        )
    } else if out.timed_out {
        Err(GitError::Timeout { command: operation.clone() })
    } else if out.exit_code == 0 {
        Ok(out.stdout.clone())
    } else if is_lock_contention(out.stderr.as_str()) {
        Err(GitError::ResourceBusy { operation: operation.clone(), target: target.clone() })
    } else {
        Err(
            GitError::CommandFailed {
                operation: operation.clone(),
                target: target.clone(),
                stderr: out.stderr.clone(),
            },
        )
    }
}

/// How many times a mutation is attempted before lock contention surfaces
/// as `ResourceBusy`.
pub const MAX_MUTATION_ATTEMPTS: u32 = 5;

/// Whether a failed attempt is retried: only transient lock contention is,
/// and only while the attempt budget lasts.  `attempt` counts the attempts
/// already made.
pub fn should_retry(err: &GitError, attempt: u32, max_attempts: u32) -> (r: bool)
    ensures
        r == (attempt + 1 < max_attempts && err is ResourceBusy),
{
    max_attempts > 0 && attempt < max_attempts - 1 && match err {
        GitError::ResourceBusy { .. } => true,
        _ => false,
    }
}

/// Backoff before retry number `attempt + 1`, in milliseconds: doubling
/// from 50 ms, capped at 1600 ms.
pub open spec fn backoff_delay_spec(attempt: u32) -> u64 {
    if attempt == 0 {
        50
    } else if attempt == 1 {
        100
    } else if attempt == 2 {
        200
    } else if attempt == 3 {
        400
    } else if attempt == 4 {
        800
    } else {
        1600
    }
}

/// How long to back off after attempt number `attempt` hit lock contention.
pub fn backoff_delay_ms(attempt: u32) -> (r: u64)
    ensures
        r == backoff_delay_spec(attempt),
{
    if attempt == 0 {
        50
    } else if attempt == 1 {
        100
    } else if attempt == 2 {
        200
    } else if attempt == 3 {
        400
    } else if attempt == 4 {
        800
    } else {
        1600
    }
}

} // verus!
