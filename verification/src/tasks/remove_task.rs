//! Deleting a task of the user a token names.
use crate::user::add_user::User;
use vstd::prelude::*;

verus! {

/// The write that a removal asks for: delete the task with `id` from the
/// collection named `collection`.
#[derive(Debug, Clone, PartialEq, Eq)]
pub struct TaskDeletion {
    pub collection: String,
    pub id: u32,
}

/// Decides the removal of task `id` for the token whose email is
/// `claims_email`, given the lookup of the user with that email: a known user
/// has the task deleted from the collection named after the email (the
/// request then answers `true`); an unknown one gets no write (`false`).
pub fn remove_task(claims_email: String, id: u32, user: Option<User>) -> (r: Option<TaskDeletion>)
    ensures
        match user {
            Some(_) => r is Some && r->0.collection@ == claims_email@ && r->0.id == id,
            None => r is None,
        },
{
    match user {
        Some(_) => Some(TaskDeletion { collection: claims_email, id }),
        None => None,
    }
}

} // verus!
