//! The answers of the task endpoints.
use crate::error::{ApiError, HttpStatus};
use crate::tasks::Task;
use vstd::prelude::*;

verus! {

/// The body of an update-task request.
#[derive(Debug, Clone, PartialEq, Eq)]
pub struct TaskUpdate {
    pub id: u32,
    pub auth_jwt: String,
}

/// The body of an update-task or delete-task answer.
#[derive(Debug, Clone, Copy, PartialEq, Eq, Structural)]
pub struct Res {
    pub success: bool,
}

/// The body of a get-tasks request.
#[derive(Debug, Clone, PartialEq, Eq)]
pub struct GetTasks {
    pub auth_jwt: String,
    pub counter: u16,
}

/// The body of a get-tasks answer.
#[derive(Debug, Clone, PartialEq, Eq)]
pub struct ResultGetTasks {
    pub res: bool,
    pub tasks: Option<Vec<Task>>,
}

/// The body of a delete-task request.
#[derive(Debug, Clone, PartialEq, Eq)]
pub struct TaskRemovalPayload {
    pub auth_jwt: String,
    pub task_id: u32,
}

/// The fewest tasks a get-tasks request may ask for.
pub const MIN_TASKS_PER_PAGE: u16 = 5;

/// The add-task answer: `true` only when the task was stored.
pub fn add_task_api(outcome: Result<bool, ApiError>) -> (r: bool)
    ensures
        r == (outcome == Ok::<bool, ApiError>(true)),
{
    match outcome {
        Ok(v) => v,
        Err(_) => false,
    }
}

/// The update-task answer for the outcome of a toggle request.
pub open spec fn update_reply(outcome: Result<bool, ApiError>) -> (HttpStatus, Res) {
    match outcome {
        Ok(v) => (HttpStatus::Success, Res { success: v }),
        Err(ApiError::InvalidToken) => (HttpStatus::Unauthorized, Res { success: false }),
        Err(_) => (HttpStatus::InternalServerError, Res { success: false }),
    }
}

/// The update-task answer: a rejected token is 401, any other failure 500,
/// both with `success: false`; otherwise 200 with whether the toggle applied.
pub fn udpate_task_api(outcome: Result<bool, ApiError>) -> (r: (HttpStatus, Res))
    ensures
        r == update_reply(outcome),
{
    match outcome {
        Ok(v) => (HttpStatus::Success, Res { success: v }),
        Err(ApiError::InvalidToken) => (HttpStatus::Unauthorized, Res { success: false }),
        Err(_) => (HttpStatus::InternalServerError, Res { success: false }),
    }
}

/// How many tasks a get-tasks request fetches: what it asks for, but never
/// fewer than five.
pub fn get_tasks_limit(counter: u16) -> (n: u16)
    ensures
        n == (if counter < MIN_TASKS_PER_PAGE { MIN_TASKS_PER_PAGE } else { counter }),
        n >= MIN_TASKS_PER_PAGE,
        n >= counter,
{
    if counter < MIN_TASKS_PER_PAGE {
        MIN_TASKS_PER_PAGE
    } else {
        counter
    }
}

/// The get-tasks answer: the tasks with `res: true`, or no tasks with
/// `res: false` when the request failed.
pub fn get_tasks_api(outcome: Result<Vec<Task>, ApiError>) -> (r: ResultGetTasks)
    ensures
        match outcome {
            Ok(v) => r.res && r.tasks == Some(v),
            Err(_) => !r.res && r.tasks is None,
        },
{
    match outcome {
        Ok(tasks) => ResultGetTasks { res: true, tasks: Some(tasks) },
        Err(_) => ResultGetTasks { res: false, tasks: None },
    }
}

/// The delete-task answer: 200 with the outcome, or 500 with
/// `success: false` for any failure, a rejected token included.
pub fn task_removal_api(outcome: Result<bool, ApiError>) -> (r: (HttpStatus, Res))
    ensures
        match outcome {
            Ok(v) => r == (HttpStatus::Success, Res { success: v }),
            Err(_) => r == (HttpStatus::InternalServerError, Res { success: false }),
        },
{
    match outcome {
        Ok(v) => (HttpStatus::Success, Res { success: v }),
        Err(_) => (HttpStatus::InternalServerError, Res { success: false }),
    }
}

} // verus!
