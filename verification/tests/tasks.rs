use my_api::error::{ApiError, HttpStatus};
use my_api::tasks::add_task::{add_task, add_task_collection, TaskToAdd};
use my_api::tasks::api::{
    add_task_api, get_tasks_api, get_tasks_limit, task_removal_api, udpate_task_api, Res,
};
use my_api::tasks::get_tasks::TaskCollector;
use my_api::tasks::last_task::get_last_task_id;
use my_api::tasks::remove_task::{remove_task, TaskDeletion};
use my_api::tasks::update_task::{toggle_applied, toggle_task_state, StatusUpdate};
use my_api::tasks::{task_request_owner, Task};
use my_api::user::jwt::UserJWT;
use my_api::user::add_user::User;

fn task(id: usize, name: &str, status: bool) -> Task {
    Task { id, name: name.to_string(), status, priority: 1 }
}

fn user(email: &str) -> User {
    User { username: "john_doe".to_string(), email: email.to_string(), password: "hash".to_string() }
}

/// One toggle request against an in-memory collection, the way the database
/// answers the lookup and the conditional update.
fn toggle_in(store: &mut Vec<Task>, id: u32) -> Result<bool, ApiError> {
    let found = store.iter().find(|t| t.id == id as usize).cloned();
    let update = toggle_task_state(id, found)?;
    let updated = match store.iter_mut().find(|t| t.id == update.id as usize) {
        Some(t) => {
            let before = t.clone();
            t.status = update.status;
            Some(before)
        }
        None => None,
    };
    Ok(toggle_applied(updated))
}

#[test]
fn toggle_of_found_task_negates_its_status() {
    assert_eq!(
        toggle_task_state(3, Some(task(3, "a", false))),
        Ok(StatusUpdate { id: 3, status: true })
    );
    assert_eq!(
        toggle_task_state(3, Some(task(3, "a", true))),
        Ok(StatusUpdate { id: 3, status: false })
    );
}

#[test]
fn toggle_of_missing_task_is_not_found() {
    assert_eq!(toggle_task_state(9, None), Err(ApiError::TaskNotFound));
    assert_eq!(
        udpate_task_api(Err(ApiError::TaskNotFound)),
        (HttpStatus::InternalServerError, Res { success: false })
    );
}

#[test]
fn toggle_applied_follows_the_update_result() {
    assert!(toggle_applied(Some(task(1, "a", false))));
    assert!(!toggle_applied(None));
}

#[test]
fn toggling_twice_restores_the_collection() {
    let initial = vec![task(1, "a", false), task(2, "b", true), task(3, "c", false)];
    let mut store = initial.clone();
    assert_eq!(toggle_in(&mut store, 2), Ok(true));
    assert_eq!(store[1].status, false);
    assert_eq!(store[0], initial[0]);
    assert_eq!(store[2], initial[2]);
    assert_eq!(toggle_in(&mut store, 2), Ok(true));
    assert_eq!(store, initial);
    assert_eq!(toggle_in(&mut store, 7), Err(ApiError::TaskNotFound));
    assert_eq!(store, initial);
}

#[test]
fn last_task_id_is_found_id_or_zero() {
    assert_eq!(get_last_task_id(Some(task(7, "x", true))), 7);
    assert_eq!(get_last_task_id(None), 0);
}

#[test]
fn new_task_follows_last_id_and_starts_open() {
    let payload = TaskToAdd {
        name: "Complete project documentation".to_string(),
        priority: 1,
        auth_jwt: "token".to_string(),
    };
    let t = add_task(payload.clone(), get_last_task_id(Some(task(7, "x", true))));
    assert_eq!(
        t,
        Task { id: 8, name: "Complete project documentation".to_string(), status: false, priority: 1 }
    );
    let first = add_task(payload, get_last_task_id(None));
    assert_eq!(first.id, 1);
    assert!(!first.status);
}

#[test]
fn new_task_goes_to_the_users_collection() {
    assert_eq!(add_task_collection(Some(user("john@example.com"))), Some("john@example.com".to_string()));
    assert_eq!(add_task_collection(None), None);
}

#[test]
fn added_ids_stay_unique() {
    let mut store: Vec<Task> = vec![];
    for name in ["a", "b", "c"] {
        let last = store.iter().max_by_key(|t| t.id).cloned();
        let payload = TaskToAdd { name: name.to_string(), priority: 2, auth_jwt: String::new() };
        store.push(add_task(payload, get_last_task_id(last)));
    }
    let ids: Vec<usize> = store.iter().map(|t| t.id).collect();
    assert_eq!(ids, vec![1, 2, 3]);
}

#[test]
fn removal_targets_the_token_users_collection() {
    assert_eq!(
        remove_task("john@example.com".to_string(), 4, Some(user("john@example.com"))),
        Some(TaskDeletion { collection: "john@example.com".to_string(), id: 4 })
    );
    assert_eq!(remove_task("john@example.com".to_string(), 4, None), None);
}

#[test]
fn tasks_limit_is_at_least_five() {
    assert_eq!(get_tasks_limit(0), 5);
    assert_eq!(get_tasks_limit(3), 5);
    assert_eq!(get_tasks_limit(5), 5);
    assert_eq!(get_tasks_limit(10), 10);
    assert_eq!(get_tasks_limit(u16::MAX), u16::MAX);
}

#[test]
fn collector_keeps_order_and_stops_at_limit() {
    let mut c = TaskCollector::new(get_tasks_limit(2));
    let mut fed = 0;
    let stream: Vec<Task> = (1..=8).map(|i| task(i, "t", false)).collect();
    let mut cursor = stream.clone().into_iter();
    while c.wants_more() {
        match cursor.next() {
            Some(t) => {
                c.push(t);
                fed += 1;
            }
            None => break,
        }
    }
    assert_eq!(fed, 5);
    let got = c.into_tasks();
    assert_eq!(got, stream[..5].to_vec());
}

#[test]
fn collector_takes_all_of_a_short_stream() {
    let mut c = TaskCollector::new(10);
    assert!(c.wants_more());
    c.push(task(1, "a", false));
    c.push(task(2, "b", true));
    assert!(c.wants_more());
    assert_eq!(c.into_tasks(), vec![task(1, "a", false), task(2, "b", true)]);
}

#[test]
fn add_task_answer() {
    assert!(add_task_api(Ok(true)));
    assert!(!add_task_api(Ok(false)));
    assert!(!add_task_api(Err(ApiError::Database)));
    assert!(!add_task_api(Err(ApiError::InvalidToken)));
}

#[test]
fn update_task_answer() {
    assert_eq!(udpate_task_api(Ok(true)), (HttpStatus::Success, Res { success: true }));
    assert_eq!(udpate_task_api(Ok(false)), (HttpStatus::Success, Res { success: false }));
    assert_eq!(
        udpate_task_api(Err(ApiError::InvalidToken)),
        (HttpStatus::Unauthorized, Res { success: false })
    );
    assert_eq!(
        udpate_task_api(Err(ApiError::Database)),
        (HttpStatus::InternalServerError, Res { success: false })
    );
}

#[test]
fn get_tasks_answer() {
    let ok = get_tasks_api(Ok(vec![task(1, "a", false)]));
    assert!(ok.res);
    assert_eq!(ok.tasks, Some(vec![task(1, "a", false)]));
    let err = get_tasks_api(Err(ApiError::InvalidToken));
    assert!(!err.res);
    assert_eq!(err.tasks, None);
}

#[test]
fn delete_task_answer() {
    assert_eq!(task_removal_api(Ok(true)), (HttpStatus::Success, Res { success: true }));
    assert_eq!(task_removal_api(Ok(false)), (HttpStatus::Success, Res { success: false }));
    assert_eq!(
        task_removal_api(Err(ApiError::InvalidToken)),
        (HttpStatus::InternalServerError, Res { success: false })
    );
}

#[test]
fn status_codes() {
    assert_eq!(HttpStatus::Success.code(), 200);
    assert_eq!(HttpStatus::Unauthorized.code(), 401);
    assert_eq!(HttpStatus::InternalServerError.code(), 500);
}

#[test]
fn rejected_token_names_no_collection() {
    let claims = UserJWT { email: "john@example.com".to_string(), expiration: 10 };
    assert_eq!(task_request_owner(Ok(claims)), Ok("john@example.com".to_string()));
    assert_eq!(task_request_owner(Err(ApiError::InvalidToken)), Err(ApiError::InvalidToken));
}
