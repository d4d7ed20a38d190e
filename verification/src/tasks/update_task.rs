//! Flipping a task between done and not done.
use crate::error::ApiError;
use crate::tasks::{opt_task_view, Task, TaskView};
use vstd::prelude::*;

verus! {

/// The write that toggling asks for: set the status of the task with `id`.
#[derive(Debug, Clone, Copy, PartialEq, Eq, Structural)]
pub struct StatusUpdate {
    pub id: u32,
    pub status: bool,
}

/// What toggling decides once the task with `id` has been looked up.
pub open spec fn toggle_plan(id: u32, found: Option<TaskView>) -> Result<StatusUpdate, ApiError> {
    match found {
        Some(t) => Ok(StatusUpdate { id: id, status: !t.status }),
        None => Err(ApiError::TaskNotFound),
    }
}

/// Decides the toggle of task `id`, given what the lookup by id found: a
/// missing task is an error, a found one gets the negation of its status.
pub fn toggle_task_state(id: u32, found: Option<Task>) -> (r: Result<StatusUpdate, ApiError>)
    ensures
        r == toggle_plan(id, opt_task_view(found)),
{
    match found {
        Some(task) => Ok(StatusUpdate { id, status: !task.status }),
        None => Err(ApiError::TaskNotFound),
    }
}

/// Whether the toggle took effect, given what the conditional update
/// returned: it did when the update matched a task.
pub fn toggle_applied(updated: Option<Task>) -> (r: bool)
    ensures
        r == updated.is_some(),
{
    updated.is_some()
}

} // verus!
