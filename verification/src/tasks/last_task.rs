//! The id of the most recent task.
use crate::tasks::{opt_task_view, Task, TaskView};
use vstd::prelude::*;

verus! {

/// The last id in use, given the task that a lookup sorted by descending id
/// returned first: that task's id, or 0 for an empty collection.
pub open spec fn last_task_id(found: Option<TaskView>) -> usize {
    match found {
        Some(t) => t.id,
        None => 0,
    }
}

/// The last id in use, given the task that a lookup sorted by descending id
/// returned first: that task's id, or 0 when the collection is empty.
pub fn get_last_task_id(found: Option<Task>) -> (id: usize)
    ensures
        id == last_task_id(opt_task_view(found)),
{
    match found {
        Some(task) => task.id,
        None => 0,
    }
}

} // verus!
