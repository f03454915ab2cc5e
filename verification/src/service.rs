//! The decisions of the task service: what row a request inserts or changes,
//! how a changed-row count becomes an outcome, and which status code answers
//! each outcome. Reading the request and talking to the database are left to
//! the caller.
use vstd::prelude::*;
use crate::model::{CreateTodo, NewTodo, Todo};

verus! {

/// The status codes the service answers with.
#[derive(Debug, Clone, Copy, PartialEq, Eq, Structural)]
pub enum Status {
    Success,
    ServerError,
    NotFound,
}

/// The HTTP code of a status.
pub open spec fn status_code(s: Status) -> u16 {
    match s {
        Status::Success => 200,
        Status::ServerError => 500,
        Status::NotFound => 404,
    }
}

impl Status {
    /// The HTTP code of this status.
    pub fn code(&self) -> (c: u16)
        ensures
            c == status_code(*self),
    {
        match self {
            Status::Success => 200,
            Status::ServerError => 500,
            Status::NotFound => 404,
        }
    }
}

/// Why a database operation failed: no row matched, or anything else.
#[derive(Debug, Clone, Copy, PartialEq, Eq, Structural)]
pub enum StoreError {
    NotFound,
    Other,
}

/// The row that a create request inserts: its date, description and percent.
pub fn new_todo<'a>(payload: &'a CreateTodo) -> (r: NewTodo<'a>)
    ensures
        r.date@ == payload.date@,
        r.inhalt@ == payload.inhalt@,
        r.percent == payload.percent,
{
    NewTodo { date: payload.date.as_str(), inhalt: payload.inhalt.as_str(), percent: payload.percent }
}

/// The id of the row that an update request changes, and the values it
/// writes there.
pub fn update_target<'a>(todo: &'a Todo) -> (r: (i32, NewTodo<'a>))
    ensures
        r.0 == todo.id,
        r.1.date@ == todo.date@,
        r.1.inhalt@ == todo.inhalt@,
        r.1.percent == todo.percent,
{
    (todo.id, NewTodo { date: todo.date.as_str(), inhalt: todo.inhalt.as_str(), percent: todo.percent })
}

/// The outcome of a delete or an update that changed `rows` rows: no row
/// means that no task had the id.
pub open spec fn rows_outcome_spec(rows: nat) -> Result<(), StoreError> {
    if rows == 0 {
        Err(StoreError::NotFound)
    } else {
        Ok(())
    }
}

/// Turns the number of rows a delete or an update changed into its outcome.
pub fn rows_outcome(rows: usize) -> (r: Result<(), StoreError>)
    ensures
        r == rows_outcome_spec(rows as nat),
{
    if rows == 0 {
        Err(StoreError::NotFound)
    } else {
        Ok(())
    }
}

/// The answer to a create request.
pub open spec fn post_answer(outcome: Result<(), StoreError>) -> Status {
    match outcome {
        Ok(_) => Status::Success,
        Err(_) => Status::ServerError,
    }
}

/// The answer to an update request.
pub open spec fn update_answer(outcome: Result<(), StoreError>) -> Status {
    match outcome {
        Ok(_) => Status::Success,
        Err(_) => Status::ServerError,
    }
}

/// The answer to a delete request.
pub open spec fn delete_answer(outcome: Result<(), StoreError>) -> Status {
    match outcome {
        Ok(_) => Status::Success,
        Err(_) => Status::NotFound,
    }
}

/// The status that answers a create request, given how the insert went.
pub fn post_tasks_status(outcome: &Result<(), StoreError>) -> (s: Status)
    ensures
        s == post_answer(*outcome),
{
    match outcome {
        Ok(_) => Status::Success,
        Err(_) => Status::ServerError,
    }
}

/// The status that answers an update request, given how the update went.
pub fn update_tasks_status(outcome: &Result<(), StoreError>) -> (s: Status)
    ensures
        s == update_answer(*outcome),
{
    match outcome {
        Ok(_) => Status::Success,
        Err(_) => Status::ServerError,
    }
}

/// The status that answers a delete request, given how the delete went.
pub fn delete_tasks_status(outcome: &Result<(), StoreError>) -> (s: Status)
    ensures
        s == delete_answer(*outcome),
{
    match outcome {
        Ok(_) => Status::Success,
        Err(_) => Status::NotFound,
    }
}

/// The answer to a request for all tasks: the tasks that were read, or an
/// empty list with an error status when reading failed.
pub fn get_tasks_response(outcome: Result<Vec<Todo>, StoreError>) -> (r: (Status, Vec<Todo>))
    ensures
        match outcome {
            Ok(v) => r.0 == Status::Success && r.1@ == v@,
            Err(_) => r.0 == Status::ServerError && r.1@.len() == 0,
        },
{
    match outcome {
        Ok(v) => (Status::Success, v),
        Err(_) => (Status::ServerError, Vec::new()),
    }
}

/// A delete or an update of an id that no task has is refused: the delete
/// is answered 404 and the update 500; where a row changed, both are
/// answered 200.
pub proof fn lemma_missing_task_answers(rows: nat)
    ensures
        rows == 0 ==> delete_answer(rows_outcome_spec(rows)) == Status::NotFound,
        rows == 0 ==> update_answer(rows_outcome_spec(rows)) == Status::ServerError,
        rows > 0 ==> delete_answer(rows_outcome_spec(rows)) == Status::Success,
        rows > 0 ==> update_answer(rows_outcome_spec(rows)) == Status::Success,
{
}

/// Every failed operation is answered with an error code, every successful
/// one with 200.
pub proof fn lemma_answers_follow_outcome(outcome: Result<(), StoreError>)
    ensures
        (outcome is Ok) <==> status_code(post_answer(outcome)) == 200,
        (outcome is Ok) <==> status_code(update_answer(outcome)) == 200,
        (outcome is Ok) <==> status_code(delete_answer(outcome)) == 200,
{
}

} // verus!
