//! What the database does to a user's task collection, as a sequence of
//! tasks in insertion order. The endpoints' laws are stated over these.
use crate::tasks::TaskView;
use vstd::prelude::*;

verus! {

/// Position of the first task whose id is `id`; the length when none is.
pub open spec fn first_index_of(s: Seq<TaskView>, id: int) -> int
    decreases s.len(),
{
    if s.len() == 0 {
        0
    } else if s[0].id == id {
        0
    } else {
        1 + first_index_of(s.drop_first(), id)
    }
}

/// A lookup by id (`find_one({"id": id})`): the first task with that id.
pub open spec fn find_task(s: Seq<TaskView>, id: int) -> Option<TaskView> {
    let i = first_index_of(s, id);
    if i < s.len() {
        Some(s[i])
    } else {
        None
    }
}

/// `find_one_and_update({"id": id}, {"$set": {"status": status}})`: the
/// first task with that id gets the new status; nothing else changes.
pub open spec fn set_task_status(s: Seq<TaskView>, id: int, status: bool) -> Seq<TaskView> {
    let i = first_index_of(s, id);
    if i < s.len() {
        s.update(i, TaskView { status: status, ..s[i] })
    } else {
        s
    }
}

/// `find_one_and_delete({"id": id})`: the first task with that id leaves.
pub open spec fn delete_task(s: Seq<TaskView>, id: int) -> Seq<TaskView> {
    let i = first_index_of(s, id);
    if i < s.len() {
        s.remove(i)
    } else {
        s
    }
}

/// No two tasks share an id.
pub open spec fn ids_unique(s: Seq<TaskView>) -> bool {
    forall|i: int, j: int| 0 <= i < j < s.len() ==> s[i].id != s[j].id
}

/// `t` is what a lookup sorted by descending id returns first: a stored task
/// whose id no other task exceeds.
pub open spec fn is_last_task(s: Seq<TaskView>, t: TaskView) -> bool {
    &&& s.contains(t)
    &&& forall|i: int| 0 <= i < s.len() ==> s[i].id <= t.id
}

/// The first index is in range, points at the id, and no earlier task has it.
pub proof fn lemma_first_index_of(s: Seq<TaskView>, id: int)
    ensures
        0 <= first_index_of(s, id) <= s.len(),
        first_index_of(s, id) < s.len() ==> s[first_index_of(s, id)].id == id,
        forall|j: int| 0 <= j < first_index_of(s, id) ==> s[j].id != id,
    decreases s.len(),
{
    if s.len() > 0 && s[0].id != id {
        lemma_first_index_of(s.drop_first(), id);
        assert forall|j: int| 0 <= j < first_index_of(s, id) implies s[j].id != id by {
            if j > 0 {
                assert(s[j] == s.drop_first()[j - 1]);
            }
        }
    }
}

/// Any position with the properties of the first index is the first index.
pub proof fn lemma_first_index_unique(s: Seq<TaskView>, id: int, r: int)
    requires
        0 <= r <= s.len(),
        r < s.len() ==> s[r].id == id,
        forall|j: int| 0 <= j < r ==> s[j].id != id,
    ensures
        first_index_of(s, id) == r,
{
    lemma_first_index_of(s, id);
    let f = first_index_of(s, id);
    if f < r {
        assert(s[f].id != id);
    } else if r < f {
        assert(s[r].id != id);
    }
}

/// Replacing a task by one with the same id leaves every first index alone.
pub proof fn lemma_first_index_same_ids(s: Seq<TaskView>, i: int, x: TaskView, id: int)
    requires
        0 <= i < s.len(),
        x.id == s[i].id,
    ensures
        first_index_of(s.update(i, x), id) == first_index_of(s, id),
{
    lemma_first_index_of(s, id);
    let t = s.update(i, x);
    assert forall|j: int| 0 <= j < s.len() implies t[j].id == s[j].id by {}
    lemma_first_index_unique(t, id, first_index_of(s, id));
}

} // verus!
