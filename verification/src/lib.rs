//! Verified core of a todo-list backend: the decisions behind each endpoint,
//! the shape of the stored tasks and users, and the laws that tie the
//! endpoints to the task and user collections they read and write.

pub mod error;
pub mod laws;
pub mod tasks;
pub mod user;
