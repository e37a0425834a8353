//! The todo record in its three shapes: as a request or response body
//! ([`Todo`]), as a row read from the store ([`SelectableTodo`]), and as the
//! three fields that a write carries ([`TodoFields`]).

use vstd::prelude::*;

verus! {

/// The fields of a todo that a caller chooses: everything but the id.
pub struct FieldsView {
    pub title: Seq<char>,
    pub description: Option<Seq<char>>,
    pub done: bool,
}

/// A todo as it appears in a request or response body.
pub struct TodoView {
    pub id: Option<int>,
    pub title: Seq<char>,
    pub description: Option<Seq<char>>,
    pub done: bool,
}

/// A todo as the store holds it: the id is always present.
pub struct RowView {
    pub id: int,
    pub title: Seq<char>,
    pub description: Option<Seq<char>>,
    pub done: bool,
}

impl TodoView {
    /// The three caller-chosen fields of this todo; the id is left behind.
    pub open spec fn fields(self) -> FieldsView {
        FieldsView { title: self.title, description: self.description, done: self.done }
    }
}

impl RowView {
    /// The three caller-chosen fields of this row.
    pub open spec fn fields(self) -> FieldsView {
        FieldsView { title: self.title, description: self.description, done: self.done }
    }

    /// The body that represents this row in a listing: same fields, id present.
    pub open spec fn as_todo(self) -> TodoView {
        TodoView {
            id: Some(self.id),
            title: self.title,
            description: self.description,
            done: self.done,
        }
    }
}

impl FieldsView {
    /// The row that holds these fields under `id`.
    pub open spec fn with_id(self, id: int) -> RowView {
        RowView { id, title: self.title, description: self.description, done: self.done }
    }
}

/// The view of an optional text.
pub open spec fn text_view(text: Option<String>) -> Option<Seq<char>> {
    match text {
        Some(s) => Some(s@),
        None => None,
    }
}

/// Copies an optional text.
pub fn clone_text(text: &Option<String>) -> (copy: Option<String>)
    ensures
        copy == *text,
{
    match text {
        Some(s) => Some(s.clone()),
        None => None,
    }
}

/// A todo as a request or response body. `id` is absent on a create request
/// and is never used to address a record: the path does that.
#[derive(Debug, PartialEq, Eq)]
pub struct Todo {
    pub id: Option<i32>,
    pub title: String,
    pub description: Option<String>,
    pub done: bool,
}

/// A row of the `todos` table as a query returns it.
#[derive(Debug, PartialEq, Eq)]
pub struct SelectableTodo {
    pub id: i32,
    pub title: String,
    pub description: Option<String>,
    pub done: bool,
}

/// What an insert or an update writes: the three fields, and no id.
#[derive(Debug, PartialEq, Eq)]
pub struct TodoFields {
    pub title: String,
    pub description: Option<String>,
    pub done: bool,
}

impl View for Todo {
    type V = TodoView;

    open spec fn view(&self) -> TodoView {
        TodoView {
            id: match self.id {
                Some(id) => Some(id as int),
                None => None,
            },
            title: self.title@,
            description: text_view(self.description),
            done: self.done,
        }
    }
}

impl View for SelectableTodo {
    type V = RowView;

    open spec fn view(&self) -> RowView {
        RowView {
            id: self.id as int,
            title: self.title@,
            description: text_view(self.description),
            done: self.done,
        }
    }
}

impl View for TodoFields {
    type V = FieldsView;

    open spec fn view(&self) -> FieldsView {
        FieldsView {
            title: self.title@,
            description: text_view(self.description),
            done: self.done,
        }
    }
}

/// The views of a sequence of rows, in order.
pub open spec fn row_views(rows: Seq<SelectableTodo>) -> Seq<RowView> {
    Seq::new(rows.len(), |i: int| rows[i]@)
}

impl Clone for Todo {
    fn clone(&self) -> (copy: Self)
        ensures
            copy == *self,
    {
        Todo {
            id: self.id,
            title: self.title.clone(),
            description: clone_text(&self.description),
            done: self.done,
        }
    }
}

impl Clone for SelectableTodo {
    fn clone(&self) -> (copy: Self)
        ensures
            copy == *self,
    {
        SelectableTodo {
            id: self.id,
            title: self.title.clone(),
            description: clone_text(&self.description),
            done: self.done,
        }
    }
}

impl Clone for TodoFields {
    fn clone(&self) -> (copy: Self)
        ensures
            copy == *self,
    {
        TodoFields {
            title: self.title.clone(),
            description: clone_text(&self.description),
            done: self.done,
        }
    }
}

impl Todo {
    /// The fields that a write of this body carries. Whatever `id` the body
    /// holds is dropped.
    pub fn fields(&self) -> (fields: TodoFields)
        ensures
            fields@ == self@.fields(),
    {
        TodoFields {
            title: self.title.clone(),
            description: clone_text(&self.description),
            done: self.done,
        }
    }

    /// The body that represents a stored row: its three fields, and its id,
    /// which is always present.
    pub fn from_row(row: SelectableTodo) -> (todo: Todo)
        ensures
            todo@ == row@.as_todo(),
    {
        Todo { id: Some(row.id), title: row.title, description: row.description, done: row.done }
    }
}

impl TodoFields {
    /// The row that holds these fields under `id`.
    pub fn into_row(self, id: i32) -> (row: SelectableTodo)
        ensures
            row@ == self@.with_id(id as int),
    {
        SelectableTodo { id, title: self.title, description: self.description, done: self.done }
    }
}

} // verus!
