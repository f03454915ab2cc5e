use todos::model::{CreateTodo, Todo};
use todos::service::{
    delete_tasks_status, get_tasks_response, new_todo, post_tasks_status, rows_outcome,
    update_target, update_tasks_status, Status, StoreError,
};

fn todo(id: i32) -> Todo {
    Todo { id, date: "2024-02-02".to_string(), inhalt: format!("task {id}"), percent: id * 10 }
}

#[test]
fn status_codes() {
    assert_eq!(Status::Success.code(), 200);
    assert_eq!(Status::ServerError.code(), 500);
    assert_eq!(Status::NotFound.code(), 404);
}

#[test]
fn no_changed_row_is_not_found() {
    assert_eq!(rows_outcome(0), Err(StoreError::NotFound));
    assert_eq!(rows_outcome(1), Ok(()));
    assert_eq!(rows_outcome(3), Ok(()));
}

#[test]
fn delete_of_missing_task_is_404() {
    assert_eq!(delete_tasks_status(&rows_outcome(0)), Status::NotFound);
    assert_eq!(delete_tasks_status(&rows_outcome(1)), Status::Success);
    assert_eq!(delete_tasks_status(&Err(StoreError::Other)), Status::NotFound);
}

#[test]
fn update_of_missing_task_is_500() {
    assert_eq!(update_tasks_status(&rows_outcome(0)), Status::ServerError);
    assert_eq!(update_tasks_status(&rows_outcome(1)), Status::Success);
}

#[test]
fn create_statuses() {
    assert_eq!(post_tasks_status(&Ok(())), Status::Success);
    assert_eq!(post_tasks_status(&Err(StoreError::Other)), Status::ServerError);
}

#[test]
fn get_tasks_passes_rows_through() {
    let (s, v) = get_tasks_response(Ok(vec![todo(1), todo(2)]));
    assert_eq!(s, Status::Success);
    assert_eq!(v.len(), 2);
    assert_eq!(v[1].id, 2);
    assert_eq!(v[1].inhalt, "task 2");
}

#[test]
fn get_tasks_failure_gives_empty_list() {
    let (s, v) = get_tasks_response(Err(StoreError::Other));
    assert_eq!(s, Status::ServerError);
    assert!(v.is_empty());
}

#[test]
fn new_todo_copies_payload() {
    let p = CreateTodo { date: "2024-03-03".to_string(), inhalt: "Call Bob".to_string(), percent: 20 };
    let n = new_todo(&p);
    assert_eq!(n.date, "2024-03-03");
    assert_eq!(n.inhalt, "Call Bob");
    assert_eq!(n.percent, 20);
}

#[test]
fn update_target_names_row_and_values() {
    let t = todo(7);
    let (id, vals) = update_target(&t);
    assert_eq!(id, 7);
    assert_eq!(vals.date, "2024-02-02");
    assert_eq!(vals.inhalt, "task 7");
    assert_eq!(vals.percent, 70);
}
