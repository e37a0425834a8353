//! The four handlers. Each stands on both sides of one store operation: it
//! says which statement to send, and it turns the store's outcome into the
//! answer. Whoever runs the store in between hands the outcome over.

use crate::response::{
    todo_views, Body, Response, ResponseView, STATUS_INTERNAL_SERVER_ERROR, STATUS_OK,
};
use crate::statement::{Statement, StatementView, StoreError};
use crate::todo::{row_views, RowView, SelectableTodo, Todo, TodoView};
use vstd::prelude::*;

verus! {

/// The text sent when a record could not be created.
pub open spec fn create_error_text() -> Seq<char> {
    "Error creating todo"@
}

/// The text sent when the records could not be loaded.
pub open spec fn list_error_text() -> Seq<char> {
    "Error loading todos"@
}

/// The text sent when a record could not be updated.
pub open spec fn update_error_text() -> Seq<char> {
    "Error updating todo"@
}

/// The text sent when a record could not be deleted.
pub open spec fn delete_error_text() -> Seq<char> {
    "Error deleting todo"@
}

/// The text that confirms a delete.
pub open spec fn deleted_text() -> Seq<char> {
    "Todo deleted"@
}

/// The answer to a create request for `todo`, given whether the store
/// carried out the insert.
pub open spec fn create_response(todo: TodoView, stored: bool) -> ResponseView {
    if stored {
        ResponseView::todo(todo)
    } else {
        ResponseView::failure(create_error_text())
    }
}

/// The answer to a list request, given the rows that the store returned, or
/// `None` where the store failed. Each row appears once, in the store's
/// order, with its id present.
pub open spec fn list_response(loaded: Option<Seq<RowView>>) -> ResponseView {
    match loaded {
        Some(rows) => ResponseView::todos(Seq::new(rows.len(), |i: int| rows[i].as_todo())),
        None => ResponseView::failure(list_error_text()),
    }
}

/// The answer to an update request with body `todo`, given whether the
/// store carried out the update. That no row matched is not a failure.
pub open spec fn update_response(todo: TodoView, stored: bool) -> ResponseView {
    if stored {
        ResponseView::todo(todo)
    } else {
        ResponseView::failure(update_error_text())
    }
}

/// The answer to a delete request, given whether the store carried out the
/// delete. That no row matched is not a failure.
pub open spec fn delete_response(stored: bool) -> ResponseView {
    if stored {
        ResponseView::confirmation(deleted_text())
    } else {
        ResponseView::failure(delete_error_text())
    }
}

/// What a load returned, as the list handler sees it.
pub open spec fn loaded_rows(outcome: Result<Vec<SelectableTodo>, StoreError>) -> Option<
    Seq<RowView>,
> {
    match outcome {
        Ok(rows) => Some(row_views(rows@)),
        Err(_) => None,
    }
}

/// The statement that creates `todo`: an insert of its three fields. An id
/// in the body is not sent; the store assigns one.
pub fn insert_statement(todo: &Todo) -> (statement: Statement)
    ensures
        statement@ == StatementView::Insert(todo@.fields()),
{
    Statement::Insert(todo.fields())
}

/// The statement that updates the record `id` from the body `todo`: every
/// field is replaced. The row is found by `id` alone; an id in the body is
/// not looked at.
pub fn update_statement(id: i32, todo: &Todo) -> (statement: Statement)
    ensures
        statement@ == StatementView::Update(id as int, todo@.fields()),
{
    Statement::Update(id, todo.fields())
}

/// The statement that deletes the record `id`.
pub fn delete_statement(id: i32) -> (statement: Statement)
    ensures
        statement@ == StatementView::Delete(id as int),
{
    Statement::Delete(id)
}

/// Answers a create request once the insert has run. On success the
/// submitted body goes back unchanged with status 200: the id that the
/// store assigned is not in it. On any store error the answer is status 500
/// with a fixed text.
pub fn create_todo(todo: Todo, outcome: Result<usize, StoreError>) -> (response: Response)
    ensures
        response@ == create_response(todo@, outcome is Ok),
{
    match outcome {
        Ok(_) => Response { status: STATUS_OK, body: Body::Todo(todo) },
        Err(_) => Response {
            status: STATUS_INTERNAL_SERVER_ERROR,
            body: Body::Text("Error creating todo"),
        },
    }
}

/// Answers a list request once the load has run. On success every row goes
/// back as a record with its id, in the order the store gave, with status
/// 200; no rows give an empty collection. On any store error the answer is
/// status 500 with a fixed text.
pub fn get_todos(outcome: Result<Vec<SelectableTodo>, StoreError>) -> (response: Response)
    ensures
        response@ == list_response(loaded_rows(outcome)),
{
    match outcome {
        Ok(rows) => {
            let ghost loaded = row_views(rows@);
            let mut todos: Vec<Todo> = Vec::new();
            let mut i: usize = 0;
            while i < rows.len()
                invariant
                    i <= rows.len(),
                    todos.len() == i,
                    forall|k: int| 0 <= k < i ==> (#[trigger] todos[k])@ == rows[k]@.as_todo(),
                decreases rows.len() - i,
            {
                todos.push(Todo::from_row(rows[i].clone()));
                i += 1;
            }
            assert(todo_views(todos@) =~= Seq::new(loaded.len(), |k: int| loaded[k].as_todo()));
            Response { status: STATUS_OK, body: Body::Todos(todos) }
        },
        Err(_) => Response {
            status: STATUS_INTERNAL_SERVER_ERROR,
            body: Body::Text("Error loading todos"),
        },
    }
}

/// Answers an update request once the update has run. On success the
/// submitted body goes back unchanged with status 200, whether or not a row
/// had the id. On any store error the answer is status 500 with a fixed
/// text.
pub fn update_todo(todo: Todo, outcome: Result<usize, StoreError>) -> (response: Response)
    ensures
        response@ == update_response(todo@, outcome is Ok),
{
    match outcome {
        Ok(_) => Response { status: STATUS_OK, body: Body::Todo(todo) },
        Err(_) => Response {
            status: STATUS_INTERNAL_SERVER_ERROR,
            body: Body::Text("Error updating todo"),
        },
    }
}

/// Answers a delete request once the delete has run. On success a fixed
/// confirmation goes back with status 200, whether or not a row had the id.
/// On any store error the answer is status 500 with a fixed text.
pub fn delete_todo(outcome: Result<usize, StoreError>) -> (response: Response)
    ensures
        response@ == delete_response(outcome is Ok),
{
    match outcome {
        Ok(_) => Response { status: STATUS_OK, body: Body::Text("Todo deleted") },
        Err(_) => Response {
            status: STATUS_INTERNAL_SERVER_ERROR,
            body: Body::Text("Error deleting todo"),
        },
    }
}

} // verus!
