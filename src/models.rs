use vstd::prelude::*;

verus! {

/// Body of the liveness probe.
#[derive(Debug)]
pub struct Status {
    pub status: String,
}

/// A row of the `todo_list` table.
#[derive(Debug)]
pub struct TodoList {
    pub id: i32,
    pub title: String,
}

/// A row of the `todo_item` table.
#[derive(Debug)]
pub struct TodoItem {
    pub id: i32,
    pub title: String,
    pub checked: bool,
    pub list_id: i32,
}

/// Body of a request that creates a list.
#[derive(Debug)]
pub struct CreateTodoList {
    pub title: String,
}

/// Whether a conditional update took effect.
#[derive(Debug)]
pub struct ResultResponse {
    pub success: bool,
}

} // verus!
