//! Adding a task to the collection of the user a token names.
use crate::tasks::{Task, TaskView};
use crate::user::add_user::User;
use vstd::prelude::*;

verus! {

/// The body of an add-task request.
#[derive(Debug, Clone, PartialEq, Eq)]
pub struct TaskToAdd {
    pub name: String,
    pub priority: usize,
    pub auth_jwt: String,
}

/// The task that follows the last id in use: the next id, not done yet.
pub open spec fn new_task(name: Seq<char>, priority: usize, last_id: usize) -> TaskView {
    TaskView { id: (last_id + 1) as usize, name: name, status: false, priority: priority }
}

/// The collection a new task goes to, given the lookup of the token's user:
/// the one named after that user's email, or none when no such user exists
/// (the request then answers `false`).
pub fn add_task_collection(user: Option<User>) -> (c: Option<String>)
    ensures
        match user {
            Some(u) => c is Some && c->0@ == u.email@,
            None => c is None,
        },
{
    match user {
        Some(u) => Some(u.email),
        None => None,
    }
}

/// The task an add-task request stores, given the last id in use: it takes
/// the next id, the requested name and priority, and starts not done.
pub fn add_task(payload: TaskToAdd, last_id: usize) -> (t: Task)
    requires
        last_id < usize::MAX,
    ensures
        t@ == new_task(payload.name@, payload.priority, last_id),
        t.id == last_id + 1,
        t.name@ == payload.name@,
        t.priority == payload.priority,
        !t.status,
{
    Task { id: last_id + 1, name: payload.name, status: false, priority: payload.priority }
}

} // verus!
