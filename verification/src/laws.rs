//! Laws of the worktree listing that the lifecycle operations rely on.
//!
//! Listings are snapshots (`Seq<Worktree>`), and the lookup decision is
//! `worktree_index` / `name_index`, whose contracts tie the executable
//! search to `has_worktree` / `has_name`.  The lemmas here state what
//! creation and removal mean for that decision.

use vstd::prelude::*;

use crate::model::Worktree;
use crate::repo::has_worktree;

verus! {

/// Law: recording a worktree under a fresh name makes it listed, and a
/// lookup by that name afterward yields exactly the recorded entry.
pub proof fn lemma_created_worktree_is_found(list: Seq<Worktree>, w: Worktree)
    requires
        !has_worktree(list, w.name@),
    ensures
        has_worktree(list.push(w), w.name@),
        forall|i: int|
            0 <= i < list.push(w).len() && list.push(w)[i].name@ == w.name@ ==> list.push(w)[i]
                == w,
{
    assert(list.push(w)[list.len() as int] == w);
    assert forall|i: int|
        0 <= i < list.push(w).len() && list.push(w)[i].name@ == w.name@ implies list.push(w)[i]
        == w by {
        if i < list.len() {
            assert(list.push(w)[i] == list[i]);
            assert(!(exists|k: int| 0 <= k < list.len() && list[k].name@ == w.name@));
        }
    }
}

/// Law: once no listed entry carries a name, a lookup by that name finds
/// nothing.
pub proof fn lemma_removed_worktree_not_found(list: Seq<Worktree>, name: Seq<char>)
    requires
        forall|i: int| 0 <= i < list.len() ==> list[i].name@ != name,
    ensures
        !has_worktree(list, name),
{
}

} // verus!
