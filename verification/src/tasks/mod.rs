use vstd::prelude::*;

pub mod add_task;
pub mod api;
pub mod collection;
pub mod get_tasks;
pub mod last_task;
pub mod remove_task;
pub mod update_task;

verus! {

use crate::error::ApiError;
use crate::user::jwt::UserJWT;

/// A task as stored in a user's task collection.
#[derive(Debug, Clone, PartialEq, Eq)]
pub struct Task {
    pub id: usize,
    pub name: String,
    pub status: bool,
    pub priority: usize,
}

/// The mathematical value of a [`Task`].
pub struct TaskView {
    pub id: usize,
    pub name: Seq<char>,
    pub status: bool,
    pub priority: usize,
}

impl View for Task {
    type V = TaskView;

    open spec fn view(&self) -> TaskView {
        TaskView { id: self.id, name: self.name@, status: self.status, priority: self.priority }
    }
}

/// The view of an optional task.
pub open spec fn opt_task_view(t: Option<Task>) -> Option<TaskView> {
    match t {
        Some(t) => Some(t@),
        None => None,
    }
}

/// Whose task collection a task request may read or write, given the outcome
/// of checking its token: the token's email. A rejected token names no one:
/// the request reads and writes no collection and ends with the token's
/// error.
pub fn task_request_owner(verified: Result<UserJWT, ApiError>) -> (r: Result<String, ApiError>)
    ensures
        match verified {
            Ok(claims) => r matches Ok(owner) && owner@ == claims.email@,
            Err(e) => r == Err::<String, ApiError>(e),
        },
{
    match verified {
        Ok(claims) => Ok(claims.email),
        Err(e) => Err(e),
    }
}

} // verus!
