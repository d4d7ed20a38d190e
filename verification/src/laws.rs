//! Laws that span several endpoints: what a sequence of requests does to the
//! task and user collections, stated over the collection model of
//! `tasks::collection` and the contracts of the decision functions.
use crate::error::{ApiError, HttpStatus};
use crate::tasks::api::{update_reply, Res};
use crate::tasks::collection::{
    delete_task, find_task, first_index_of, ids_unique, is_last_task, lemma_first_index_of,
    lemma_first_index_same_ids, lemma_first_index_unique, set_task_status,
};
use crate::tasks::add_task::new_task;
use crate::tasks::last_task::last_task_id;
use crate::tasks::update_task::{toggle_plan, StatusUpdate};
use crate::tasks::TaskView;
use crate::user::add_user::UserView;
use crate::user::check_user_access::access_decision;
use crate::user::password::bcrypt_verify;
use crate::user::{
    emails_unique, find_user, insert_user, lemma_find_user_none, lemma_find_user_push,
};
use vstd::prelude::*;

verus! {

/// The collection after the write that a status update asks for.
pub open spec fn apply_status_update(s: Seq<TaskView>, u: StatusUpdate) -> Seq<TaskView> {
    set_task_status(s, u.id as int, u.status)
}

/// One toggle request for `id`: the task is looked up, the write is made
/// only when the toggle decision is a status update, and the outcome is
/// whether that conditional update matched a task. Gives the collection
/// afterwards and the outcome.
pub open spec fn toggle_request(s: Seq<TaskView>, id: u32) -> (Seq<TaskView>, Result<bool, ApiError>) {
    match toggle_plan(id, find_task(s, id as int)) {
        Ok(u) => (apply_status_update(s, u), Ok(find_task(s, u.id as int) is Some)),
        Err(e) => (s, Err(e)),
    }
}

/// The collection after one toggle request for `id`.
pub open spec fn toggled(s: Seq<TaskView>, id: u32) -> Seq<TaskView> {
    toggle_request(s, id).0
}

/// The update-task endpoint answers 200 with `success: true` for a task that
/// exists, and 500 with `success: false` for one that does not.
pub proof fn toggle_answers(s: Seq<TaskView>, id: u32)
    ensures
        find_task(s, id as int) is Some ==> update_reply(toggle_request(s, id).1) == (
        HttpStatus::Success,
        Res { success: true },
        ),
        find_task(s, id as int) is None ==> update_reply(toggle_request(s, id).1) == (
        HttpStatus::InternalServerError,
        Res { success: false },
        ),
{
}

/// Toggling an existing task flips its status and keeps its other fields.
pub proof fn toggle_flips_status(s: Seq<TaskView>, id: u32)
    requires
        find_task(s, id as int) is Some,
    ensures
        toggle_plan(id, find_task(s, id as int)) is Ok,
        find_task(toggled(s, id), id as int) == Some(
            TaskView { status: !find_task(s, id as int)->0.status, ..find_task(s, id as int)->0 },
        ),
        toggled(s, id).len() == s.len(),
{
    lemma_first_index_of(s, id as int);
    let i = first_index_of(s, id as int);
    let t = s[i];
    let x = TaskView { status: !t.status, ..t };
    lemma_first_index_same_ids(s, i, x, id as int);
}

/// A toggle changes no other task: every other id is looked up as before,
/// and unique ids stay unique.
pub proof fn toggle_touches_only_that_task(s: Seq<TaskView>, id: u32)
    ensures
        forall|other: int| other != id ==> find_task(toggled(s, id), other) == find_task(s, other),
        ids_unique(s) ==> ids_unique(toggled(s, id)),
{
    lemma_first_index_of(s, id as int);
    let i = first_index_of(s, id as int);
    if i < s.len() {
        let t = s[i];
        let x = TaskView { status: !t.status, ..t };
        let s1 = s.update(i, x);
        assert forall|other: int| other != id implies find_task(s1, other) == find_task(s, other) by {
            lemma_first_index_same_ids(s, i, x, other);
            lemma_first_index_of(s, other);
        }
        assert forall|a: int, b: int| ids_unique(s) && 0 <= a < b < s1.len() implies s1[a].id != s1[b].id by {
            assert(s1[a].id == s[a].id);
            assert(s1[b].id == s[b].id);
        }
    }
}

/// Two toggles of the same id leave the collection as it was; a toggle of a
/// missing id changes nothing.
pub proof fn toggle_twice_restores(s: Seq<TaskView>, id: u32)
    ensures
        toggled(toggled(s, id), id) == s,
{
    lemma_first_index_of(s, id as int);
    let i = first_index_of(s, id as int);
    if i < s.len() {
        let t = s[i];
        let x = TaskView { status: !t.status, ..t };
        let s1 = s.update(i, x);
        lemma_first_index_same_ids(s, i, x, id as int);
        let y = TaskView { status: !x.status, ..x };
        assert(y == t);
        assert(s1.update(i, y) =~= s);
    }
}

/// A toggle of an id that no task has is refused as "task not found" and
/// leaves the collection unchanged.
pub proof fn toggle_missing_task_fails(s: Seq<TaskView>, id: u32)
    requires
        find_task(s, id as int) is None,
    ensures
        toggle_plan(id, find_task(s, id as int)) == Err::<StatusUpdate, ApiError>(
            ApiError::TaskNotFound,
        ),
        toggled(s, id) == s,
{
}

/// The lookup sorted by descending id behaves as the database does: it finds
/// nothing only in an empty collection, and otherwise a task with the
/// greatest id.
pub open spec fn last_lookup(s: Seq<TaskView>, found: Option<TaskView>) -> bool {
    match found {
        Some(t) => is_last_task(s, t),
        None => s.len() == 0,
    }
}

/// The task an add-task request stores is the one requested: the requested
/// name character for character, the requested priority, the id after the
/// last one in use, and not done.
pub proof fn added_task_is_the_requested_one(name: Seq<char>, priority: usize, last_id: usize)
    requires
        last_id < usize::MAX,
    ensures
        new_task(name, priority, last_id).name == name,
        new_task(name, priority, last_id).name.len() == name.len(),
        forall|i: int| 0 <= i < name.len() ==> new_task(name, priority, last_id).name[i] == name[i],
        new_task(name, priority, last_id).priority == priority,
        new_task(name, priority, last_id).id == last_id + 1,
        !new_task(name, priority, last_id).status,
{
}

/// A task added after the last id in use gets an id that no stored task has
/// and that exceeds every stored id; it can be looked up by that id, it
/// becomes the last task, it starts not done, and ids stay unique.
pub proof fn add_task_assigns_fresh_id(
    s: Seq<TaskView>,
    found: Option<TaskView>,
    name: Seq<char>,
    priority: usize,
)
    requires
        last_lookup(s, found),
        last_task_id(found) < usize::MAX,
    ensures
        ({
            let t = new_task(name, priority, last_task_id(found));
            &&& forall|i: int| 0 <= i < s.len() ==> s[i].id < t.id
            &&& !t.status
            &&& find_task(s.push(t), t.id as int) == Some(t)
            &&& is_last_task(s.push(t), t)
            &&& ids_unique(s) ==> ids_unique(s.push(t))
        }),
{
    let t = new_task(name, priority, last_task_id(found));
    let s2 = s.push(t);
    assert forall|i: int| 0 <= i < s.len() implies s[i].id < t.id by {
        match found {
            Some(l) => {}
            None => {}
        }
    }
    assert forall|j: int| 0 <= j < s.len() implies s2[j].id != t.id by {
        assert(s2[j] == s[j]);
    }
    lemma_first_index_unique(s2, t.id as int, s.len() as int);
    assert(s2[s.len() as int] == t);
    assert forall|i: int| 0 <= i < s2.len() implies s2[i].id <= t.id by {
        if i < s.len() {
            assert(s2[i] == s[i]);
        }
    }
}

/// With unique ids, deleting a task by id removes exactly that task: no task
/// with that id remains, every other task can still be looked up as before,
/// and ids stay unique.
pub proof fn delete_removes_only_that_task(s: Seq<TaskView>, id: u32)
    requires
        ids_unique(s),
    ensures
        find_task(delete_task(s, id as int), id as int) is None,
        forall|other: int| other != id ==> find_task(delete_task(s, id as int), other) == find_task(s, other),
        ids_unique(delete_task(s, id as int)),
        delete_task(s, id as int).len() == s.len() - (if find_task(s, id as int) is Some { 1int } else { 0int }),
{
    lemma_first_index_of(s, id as int);
    let i = first_index_of(s, id as int);
    if i < s.len() {
        let d = s.remove(i);
        assert forall|j: int| 0 <= j < d.len() implies d[j].id != id by {
            if j >= i {
                assert(d[j] == s[j + 1]);
            }
        }
        lemma_first_index_unique(d, id as int, d.len() as int);
        assert forall|other: int| other != id implies find_task(d, other) == find_task(s, other) by {
            lemma_first_index_of(s, other);
            let k = first_index_of(s, other);
            if k < i {
                lemma_first_index_unique(d, other, k);
            } else {
                assert(k != i);
                if k < s.len() {
                    assert(d[k - 1] == s[k]);
                    assert forall|j: int| 0 <= j < k - 1 implies d[j].id != other by {
                        if j >= i {
                            assert(d[j] == s[j + 1]);
                        }
                    }
                    lemma_first_index_unique(d, other, k - 1);
                } else {
                    assert forall|j: int| 0 <= j < d.len() implies d[j].id != other by {
                        if j >= i {
                            assert(d[j] == s[j + 1]);
                        }
                    }
                    lemma_first_index_unique(d, other, d.len() as int);
                }
            }
        }
        assert forall|a: int, b: int| 0 <= a < b < d.len() implies d[a].id != d[b].id by {
            let a2 = if a >= i { a + 1 } else { a };
            let b2 = if b >= i { b + 1 } else { b };
            assert(d[a] == s[a2]);
            assert(d[b] == s[b2]);
        }
    }
}

/// Storing an account keeps emails unique: the unique index refuses a
/// second account with a stored email.
pub proof fn insert_keeps_emails_unique(users: Seq<UserView>, created: UserView)
    requires
        emails_unique(users),
    ensures
        insert_user(users, created) matches Some(after) ==> emails_unique(after),
{
    lemma_find_user_none(users, created.email);
}

/// An account stored with a password hash that verifies against `password`
/// (as every hash that account creation stores does) is found by its email
/// and opens with that password, as long as the users are unchanged since.
pub proof fn created_user_can_log_in(users: Seq<UserView>, created: UserView, password: Seq<char>)
    requires
        bcrypt_verify(password, created.password) == Some(true),
        insert_user(users, created) is Some,
    ensures
        find_user(insert_user(users, created)->0, created.email) == Some(created),
        access_decision(password, find_user(insert_user(users, created)->0, created.email))
            == Ok::<bool, ApiError>(true),
{
    lemma_find_user_push(users, created, created.email);
}

/// A stored account refuses any password that bcrypt does not match against
/// its hash: the check answers no access, and no token is issued.
pub proof fn other_password_is_refused(users: Seq<UserView>, created: UserView, other: Seq<char>)
    requires
        bcrypt_verify(other, created.password) == Some(false),
        insert_user(users, created) is Some,
    ensures
        access_decision(other, find_user(insert_user(users, created)->0, created.email))
            == Ok::<bool, ApiError>(false),
{
    lemma_find_user_push(users, created, created.email);
}

/// Gathering the next task that a cursor yields extends a prefix of the
/// cursor's tasks by that task.
pub proof fn gathering_extends_prefix(cursor: Seq<TaskView>, gathered: Seq<TaskView>)
    requires
        gathered == cursor.take(gathered.len() as int),
        gathered.len() < cursor.len(),
    ensures
        gathered.push(cursor[gathered.len() as int]) == cursor.take(gathered.len() + 1int),
{
    assert(gathered.push(cursor[gathered.len() as int]) =~= cursor.take(gathered.len() + 1int));
}

/// When gathering stops, because the limit is reached or the cursor has no
/// more tasks, the tasks gathered in cursor order are exactly the first
/// `min(n, limit)` of the cursor's `n` tasks.
pub proof fn gathering_yields_first_tasks(cursor: Seq<TaskView>, gathered: Seq<TaskView>, limit: nat)
    requires
        gathered == cursor.take(gathered.len() as int),
        gathered.len() <= limit,
        gathered.len() <= cursor.len(),
        gathered.len() == limit || gathered.len() == cursor.len(),
    ensures
        gathered == cursor.take((if cursor.len() < limit { cursor.len() } else { limit }) as int),
{
}

} // verus!
