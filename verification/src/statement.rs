//! What the service asks of its store, and how the store can fail.

use crate::todo::{FieldsView, TodoFields};
use vstd::prelude::*;

verus! {

/// The one failure the service knows: the store did not carry out the
/// operation. Why it did not is never looked at.
#[derive(Debug, PartialEq, Eq, Clone, Copy)]
pub struct StoreError;

/// A write sent to the `todos` table. Each is a single statement that the
/// store carries out whole or not at all.
#[derive(Debug, PartialEq, Eq)]
pub enum Statement {
    /// Add a row with these fields; the store picks the id.
    Insert(TodoFields),
    /// Overwrite every field of the row with this id.
    Update(i32, TodoFields),
    /// Remove the row with this id.
    Delete(i32),
}

pub enum StatementView {
    Insert(FieldsView),
    Update(int, FieldsView),
    Delete(int),
}

impl View for Statement {
    type V = StatementView;

    open spec fn view(&self) -> StatementView {
        match self {
            Statement::Insert(fields) => StatementView::Insert(fields@),
            Statement::Update(id, fields) => StatementView::Update(*id as int, fields@),
            Statement::Delete(id) => StatementView::Delete(*id as int),
        }
    }
}

} // verus!
