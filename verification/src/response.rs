//! What a handler answers: a status code and a body.

use crate::todo::{Todo, TodoView};
use vstd::prelude::*;

verus! {

/// The status of every answer that reports success.
pub const STATUS_OK: u16 = 200;

/// The status of every answer that reports a failed store operation.
pub const STATUS_INTERNAL_SERVER_ERROR: u16 = 500;

/// The body of an answer.
#[derive(Debug, PartialEq, Eq)]
pub enum Body {
    /// One record, sent as a JSON object.
    Todo(Todo),
    /// A collection of records, sent as a JSON array.
    Todos(Vec<Todo>),
    /// A fixed text, sent as plain text.
    Text(&'static str),
}

/// An answer to one request.
#[derive(Debug, PartialEq, Eq)]
pub struct Response {
    pub status: u16,
    pub body: Body,
}

pub enum BodyView {
    Todo(TodoView),
    Todos(Seq<TodoView>),
    Text(Seq<char>),
}

pub struct ResponseView {
    pub status: int,
    pub body: BodyView,
}

/// The views of a sequence of bodies, in order.
pub open spec fn todo_views(todos: Seq<Todo>) -> Seq<TodoView> {
    Seq::new(todos.len(), |i: int| todos[i]@)
}

impl View for Body {
    type V = BodyView;

    open spec fn view(&self) -> BodyView {
        match self {
            Body::Todo(todo) => BodyView::Todo(todo@),
            Body::Todos(todos) => BodyView::Todos(todo_views(todos@)),
            Body::Text(text) => BodyView::Text(text@),
        }
    }
}

impl View for Response {
    type V = ResponseView;

    open spec fn view(&self) -> ResponseView {
        ResponseView { status: self.status as int, body: self.body@ }
    }
}

impl ResponseView {
    /// The answer that carries one record with status 200.
    pub open spec fn todo(todo: TodoView) -> ResponseView {
        ResponseView { status: 200, body: BodyView::Todo(todo) }
    }

    /// The answer that carries a collection of records with status 200.
    pub open spec fn todos(todos: Seq<TodoView>) -> ResponseView {
        ResponseView { status: 200, body: BodyView::Todos(todos) }
    }

    /// The answer that confirms with a fixed text and status 200.
    pub open spec fn confirmation(text: Seq<char>) -> ResponseView {
        ResponseView { status: 200, body: BodyView::Text(text) }
    }

    /// The answer that reports a failed store operation: status 500 and a
    /// fixed text.
    pub open spec fn failure(text: Seq<char>) -> ResponseView {
        ResponseView { status: 500, body: BodyView::Text(text) }
    }
}

} // verus!
