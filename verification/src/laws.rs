//! The general laws of the store, stated over the same views and spec
//! functions that the operations' contracts use, and proved once and for
//! all inputs.

use crate::state::{list_wf, new_task, task_wf, toggle_at, toggled_task, TodoView};
use vstd::prelude::*;

verus! {

/// A successful add appends exactly one task at the end: the list grows by
/// one, every earlier task keeps its place, and the new last task carries
/// the given title, is not done, is stamped with the creation height and
/// has no update stamp.
pub proof fn lemma_add_appends(s: Seq<TodoView>, title: Seq<char>, height: u64)
    ensures
        s.push(new_task(title, height)).len() == s.len() + 1,
        s.push(new_task(title, height))[s.len() as int] == new_task(title, height),
        forall|j: int| 0 <= j < s.len() ==> s.push(new_task(title, height))[j] == s[j],
        new_task(title, height).title == title,
        !new_task(title, height).is_done,
        new_task(title, height).created_block == height,
        new_task(title, height).updated_block is None,
{
}

/// Toggling flips and stamps, and toggling twice flips back: after a toggle
/// at `h2` the addressed task's flag is inverted and its stamp is `h2`;
/// after a second toggle at `h3` the flag is back to its prior value while
/// the stamp is refreshed to `h3`. The title and creation height never
/// change, and no other task is touched.
pub proof fn lemma_toggle_twice(s: Seq<TodoView>, i: int, h2: u64, h3: u64)
    requires
        0 <= i < s.len(),
    ensures
        toggle_at(s, i, h2)[i].is_done == !s[i].is_done,
        toggle_at(s, i, h2)[i].updated_block == Some(h2),
        toggle_at(toggle_at(s, i, h2), i, h3)[i].is_done == s[i].is_done,
        toggle_at(toggle_at(s, i, h2), i, h3)[i].updated_block == Some(h3),
        toggle_at(toggle_at(s, i, h2), i, h3)[i].title == s[i].title,
        toggle_at(toggle_at(s, i, h2), i, h3)[i].created_block == s[i].created_block,
        forall|j: int|
            0 <= j < s.len() && j != i ==> toggle_at(toggle_at(s, i, h2), i, h3)[j] == s[j],
{
}

/// Removal re-indexes: the list shrinks by one, tasks before the removed
/// position keep their place, and every task after it shifts down by one
/// position.
pub proof fn lemma_remove_reindexes(s: Seq<TodoView>, i: int)
    requires
        0 <= i < s.len(),
    ensures
        s.remove(i).len() == s.len() - 1,
        forall|j: int| 0 <= j < i ==> s.remove(i)[j] == s[j],
        forall|j: int| i <= j < s.len() - 1 ==> s.remove(i)[j] == s[j + 1],
{
}

/// A toggle that follows a removal addresses the shifted task: after
/// removing position `i`, toggling position `j` (with `i <= j`) changes the
/// task that sat at position `j + 1` before the removal.
pub proof fn lemma_toggle_after_remove(s: Seq<TodoView>, i: int, j: int, height: u64)
    requires
        0 <= i <= j < s.len() - 1,
    ensures
        toggle_at(s.remove(i), j, height)[j] == toggled_task(s[j + 1], height),
{
}

/// The empty list is well formed.
pub proof fn lemma_new_wf()
    ensures
        list_wf(Seq::<TodoView>::empty()),
{
}

/// Adding preserves well-formedness: the appended task has no update stamp
/// at all, whatever the height.
pub proof fn lemma_add_preserves_wf(s: Seq<TodoView>, title: Seq<char>, height: u64)
    requires
        list_wf(s),
    ensures
        list_wf(s.push(new_task(title, height))),
{
}

/// Toggling preserves well-formedness whenever the supplied height is not
/// older than the addressed task's creation height — which the monotone
/// clock guarantees, since the creation height was read from that same
/// clock earlier.
pub proof fn lemma_toggle_preserves_wf(s: Seq<TodoView>, i: int, height: u64)
    requires
        list_wf(s),
        0 <= i < s.len(),
        height >= s[i].created_block,
    ensures
        list_wf(toggle_at(s, i, height)),
{
    assert forall|j: int| 0 <= j < toggle_at(s, i, height).len() implies task_wf(
        toggle_at(s, i, height)[j],
    ) by {
        if j != i {
            assert(toggle_at(s, i, height)[j] == s[j]);
        }
    }
}

/// Removal preserves well-formedness: the surviving tasks are unchanged.
pub proof fn lemma_remove_preserves_wf(s: Seq<TodoView>, i: int)
    requires
        list_wf(s),
        0 <= i < s.len(),
    ensures
        list_wf(s.remove(i)),
{
    assert forall|j: int| 0 <= j < s.remove(i).len() implies task_wf(s.remove(i)[j]) by {
        if j < i {
            assert(s.remove(i)[j] == s[j]);
        } else {
            assert(s.remove(i)[j] == s[j + 1]);
        }
    }
}

} // verus!
