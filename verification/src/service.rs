//! The whole request cycle over the reference table: a request comes in, the
//! handler names its statement, the table carries it out, and the handler
//! turns the outcome into the answer.

use crate::handlers::{
    create_response, create_todo, delete_response, delete_statement, delete_todo, get_todos,
    insert_statement, list_response, update_response, update_statement, update_todo,
};
use crate::response::{Response, ResponseView};
use crate::statement::StatementView;
use crate::table::{TableView, TodoTable};
use crate::todo::{Todo, TodoView};
use vstd::prelude::*;

verus! {

/// One of the four requests that the service answers.
#[derive(Debug, PartialEq, Eq)]
pub enum Request {
    /// `POST /todo` with a record as body.
    Create(Todo),
    /// `GET /todos`.
    List,
    /// `PUT /todo/{id}` with a record as body.
    Update(i32, Todo),
    /// `DELETE /todo/{id}`.
    Delete(i32),
}

pub enum RequestView {
    Create(TodoView),
    List,
    Update(int, TodoView),
    Delete(int),
}

impl View for Request {
    type V = RequestView;

    open spec fn view(&self) -> RequestView {
        match self {
            Request::Create(todo) => RequestView::Create(todo@),
            Request::List => RequestView::List,
            Request::Update(id, todo) => RequestView::Update(*id as int, todo@),
            Request::Delete(id) => RequestView::Delete(*id as int),
        }
    }
}

impl RequestView {
    /// The statement that this request sends to the store. A list request
    /// sends none: it loads.
    pub open spec fn statement(self) -> Option<StatementView> {
        match self {
            RequestView::Create(todo) => Some(StatementView::Insert(todo.fields())),
            RequestView::List => None,
            RequestView::Update(id, todo) => Some(StatementView::Update(id, todo.fields())),
            RequestView::Delete(id) => Some(StatementView::Delete(id)),
        }
    }
}

/// The table after `request` was answered.
pub open spec fn table_after(table: TableView, request: RequestView) -> TableView {
    match request.statement() {
        Some(statement) => table.apply(statement),
        None => table,
    }
}

/// The answer to `request` on `table`.
pub open spec fn answer(table: TableView, request: RequestView) -> ResponseView {
    match request {
        RequestView::Create(todo) => create_response(todo, table.has_room()),
        RequestView::List => list_response(Some(table.rows)),
        RequestView::Update(_, todo) => update_response(todo, true),
        RequestView::Delete(_) => delete_response(true),
    }
}

/// The table after each of `requests` was answered in turn.
pub open spec fn table_after_all(table: TableView, requests: Seq<RequestView>) -> TableView
    decreases requests.len(),
{
    if requests.len() == 0 {
        table
    } else {
        table_after(table_after_all(table, requests.drop_last()), requests.last())
    }
}

/// The service over a reference table of its own.
pub struct TodoService {
    table: TodoTable,
}

impl View for TodoService {
    type V = TableView;

    closed spec fn view(&self) -> TableView {
        self.table@
    }
}

impl TodoService {
    /// A service whose table is empty.
    pub fn new() -> (service: TodoService)
        ensures
            service@ == TableView::empty(),
            service@.well_formed(),
    {
        TodoService { table: TodoTable::new() }
    }

    /// A service over `table`.
    pub fn over(table: TodoTable) -> (service: TodoService)
        ensures
            service@ == table@,
    {
        TodoService { table }
    }

    /// Answers one request.
    pub fn handle(&mut self, request: Request) -> (response: Response)
        ensures
            old(self)@.well_formed(),
            final(self)@.well_formed(),
            final(self)@ == table_after(old(self)@, request@),
            response@ == answer(old(self)@, request@),
    {
        match request {
            Request::Create(todo) => self.create(todo),
            Request::List => self.list(),
            Request::Update(id, todo) => self.update(id, todo),
            Request::Delete(id) => self.delete(id),
        }
    }

    /// Inserts the three fields of `todo` and echoes the body.
    pub fn create(&mut self, todo: Todo) -> (response: Response)
        ensures
            old(self)@.well_formed(),
            final(self)@.well_formed(),
            final(self)@ == old(self)@.insert(todo@.fields()),
            response@ == create_response(todo@, old(self)@.has_room()),
    {
        let statement = insert_statement(&todo);
        let outcome = self.table.execute(statement);
        create_todo(todo, outcome)
    }

    /// Loads every row and answers with the collection.
    pub fn list(&self) -> (response: Response)
        ensures
            self@.well_formed(),
            response@ == list_response(Some(self@.rows)),
    {
        let outcome = self.table.load();
        get_todos(outcome)
    }

    /// Overwrites the fields of the row `id` with those of `todo` and echoes
    /// the body.
    pub fn update(&mut self, id: i32, todo: Todo) -> (response: Response)
        ensures
            old(self)@.well_formed(),
            final(self)@.well_formed(),
            final(self)@ == old(self)@.update(id as int, todo@.fields()),
            response@ == update_response(todo@, true),
    {
        let statement = update_statement(id, &todo);
        let outcome = self.table.execute(statement);
        update_todo(todo, outcome)
    }

    /// Removes the row `id` and confirms.
    pub fn delete(&mut self, id: i32) -> (response: Response)
        ensures
            old(self)@.well_formed(),
            final(self)@.well_formed(),
            final(self)@ == old(self)@.delete(id as int),
            response@ == delete_response(true),
    {
        let statement = delete_statement(id);
        let outcome = self.table.execute(statement);
        delete_todo(outcome)
    }
}

} // verus!
