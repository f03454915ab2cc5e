//! The records of the to-do list: a stored task, the fields of a task to be
//! created, the request bodies the service accepts, and the task as the web
//! front end holds it.
use vstd::prelude::*;

verus! {

/// The value of a task: its id, due date, description (`inhalt`) and how
/// many percent of it are done.
pub struct TodoModel {
    pub id: i32,
    pub date: Seq<char>,
    pub inhalt: Seq<char>,
    pub percent: i32,
}

/// A task as the `todos` table stores it.
#[derive(Debug)]
pub struct Todo {
    pub id: i32,
    pub date: String,
    pub inhalt: String,
    pub percent: i32,
}

impl View for Todo {
    type V = TodoModel;

    open spec fn view(&self) -> TodoModel {
        TodoModel { id: self.id, date: self.date@, inhalt: self.inhalt@, percent: self.percent }
    }
}

/// The columns of a row to insert; the table chooses the id.
pub struct NewTodo<'a> {
    pub date: &'a str,
    pub inhalt: &'a str,
    pub percent: i32,
}

/// The body of a request that creates a task.
pub struct CreateTodo {
    pub date: String,
    pub inhalt: String,
    pub percent: i32,
}

/// The body of a request that deletes a task.
pub struct DeleteTasks {
    pub id: i32,
}

/// A task as the web front end shows and edits it.
#[derive(Debug)]
pub struct TaskProp {
    pub id: i32,
    pub date: String,
    pub inhalt: String,
    pub percent: i32,
}

impl View for TaskProp {
    type V = TodoModel;

    open spec fn view(&self) -> TodoModel {
        TodoModel { id: self.id, date: self.date@, inhalt: self.inhalt@, percent: self.percent }
    }
}

/// The empty task that a new-task form starts from.
pub open spec fn empty_task() -> TodoModel {
    TodoModel { id: 0, date: Seq::empty(), inhalt: Seq::empty(), percent: 0 }
}

impl Clone for TaskProp {
    fn clone(&self) -> (r: Self)
        ensures
            r@ == self@,
    {
        TaskProp {
            id: self.id,
            date: self.date.clone(),
            inhalt: self.inhalt.clone(),
            percent: self.percent,
        }
    }
}

impl Default for TaskProp {
    fn default() -> (r: Self)
        ensures
            r@ == empty_task(),
    {
        TaskProp { id: 0, date: String::new(), inhalt: String::new(), percent: 0 }
    }
}

} // verus!
