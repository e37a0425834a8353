//! A reference `todos` table held in memory. It does what the service
//! expects of its store, one statement at a time: ids are assigned in
//! ascending order from 1 and never handed out twice, an update overwrites
//! every field of the addressed row, a delete removes it, and a load returns
//! the rows in the order in which they were inserted.

use crate::statement::{Statement, StatementView, StoreError};
use crate::todo::{row_views, FieldsView, RowView, SelectableTodo, TodoFields};
use vstd::prelude::*;

verus! {

/// The largest id that the table can assign.
pub const MAX_ID: i32 = 2147483647;

/// Whether a row has the id `id`.
pub open spec fn has_id(id: int) -> spec_fn(RowView) -> bool {
    |row: RowView| row.id == id
}

/// Whether a row has another id than `id`.
pub open spec fn has_other_id(id: int) -> spec_fn(RowView) -> bool {
    |row: RowView| row.id != id
}

/// The table as a value: its rows in insertion order, and the id that the
/// next insert will assign.
pub struct TableView {
    pub rows: Seq<RowView>,
    pub next_id: int,
}

impl TableView {
    /// The table before anything was inserted.
    pub open spec fn empty() -> TableView {
        TableView { rows: Seq::empty(), next_id: 1 }
    }

    /// No two rows share an id, and every id was assigned by an earlier
    /// insert.
    pub open spec fn well_formed(self) -> bool {
        &&& 1 <= self.next_id <= MAX_ID + 1
        &&& forall|i: int| 0 <= i < self.rows.len() ==> 1 <= (#[trigger] self.rows[i]).id < self.next_id
        &&& forall|i: int, j: int|
            0 <= i < j < self.rows.len() ==> (#[trigger] self.rows[i]).id != (#[trigger] self.rows[j]).id
    }

    /// Whether some row has the id `id`.
    pub open spec fn contains_id(self, id: int) -> bool {
        exists|i: int| 0 <= i < self.rows.len() && (#[trigger] self.rows[i]).id == id
    }

    /// Whether an id is left for one more insert.
    pub open spec fn has_room(self) -> bool {
        self.next_id <= MAX_ID
    }

    /// How many rows have the id `id`.
    pub open spec fn count(self, id: int) -> nat {
        self.rows.filter(has_id(id)).len()
    }

    /// The table after an insert of `fields`: one more row at the end, under
    /// the next id. Without room the insert fails and nothing changes.
    pub open spec fn insert(self, fields: FieldsView) -> TableView {
        if self.has_room() {
            TableView { rows: self.rows.push(fields.with_id(self.next_id)), next_id: self.next_id + 1 }
        } else {
            self
        }
    }

    /// The table after an update of `id` to `fields`: every row with that id
    /// holds the new fields, every other row is as it was.
    pub open spec fn update(self, id: int, fields: FieldsView) -> TableView {
        TableView {
            rows: Seq::new(
                self.rows.len(),
                |i: int| if self.rows[i].id == id { fields.with_id(id) } else { self.rows[i] },
            ),
            next_id: self.next_id,
        }
    }

    /// The table after a delete of `id`: the rows with another id, in their
    /// order.
    pub open spec fn delete(self, id: int) -> TableView {
        TableView { rows: self.rows.filter(has_other_id(id)), next_id: self.next_id }
    }

    /// The table after `statement`.
    pub open spec fn apply(self, statement: StatementView) -> TableView {
        match statement {
            StatementView::Insert(fields) => self.insert(fields),
            StatementView::Update(id, fields) => self.update(id, fields),
            StatementView::Delete(id) => self.delete(id),
        }
    }

    /// How many rows `statement` touches, or `None` where it fails. Only an
    /// insert without room fails.
    pub open spec fn affected(self, statement: StatementView) -> Option<nat> {
        match statement {
            StatementView::Insert(_) => if self.has_room() { Some(1nat) } else { None },
            StatementView::Update(id, _) => Some(self.count(id)),
            StatementView::Delete(id) => Some(self.count(id)),
        }
    }
}

/// What an executed statement reported, as a count or `None` for a failure.
pub open spec fn reported(outcome: Result<usize, StoreError>) -> Option<nat> {
    match outcome {
        Ok(n) => Some(n as nat),
        Err(_) => None,
    }
}

/// The reference table.
pub struct TodoTable {
    rows: Vec<SelectableTodo>,
    last_id: i32,
}

impl View for TodoTable {
    type V = TableView;

    closed spec fn view(&self) -> TableView {
        TableView { rows: row_views(self.rows@), next_id: self.last_id + 1 }
    }
}

impl TodoTable {
    #[verifier::type_invariant]
    spec fn valid(self) -> bool {
        self@.well_formed()
    }

    /// An empty table.
    pub fn new() -> (table: TodoTable)
        ensures
            table@ == TableView::empty(),
            table@.well_formed(),
    {
        let table = TodoTable { rows: Vec::new(), last_id: 0 };
        assert(table@.rows =~= Seq::empty());
        table
    }

    /// An empty table that has assigned every id up to `last_id` before, as
    /// one whose rows were all deleted has. There is none for a negative
    /// `last_id`.
    pub fn resuming_after(last_id: i32) -> (table: Option<TodoTable>)
        ensures
            last_id < 0 ==> table is None,
            last_id >= 0 ==> (table matches Some(t) && t@.well_formed() && t@ == (TableView {
                rows: Seq::empty(),
                next_id: last_id + 1,
            })),
    {
        if last_id < 0 {
            return None;
        }
        let table = TodoTable { rows: Vec::new(), last_id };
        assert(table@.rows =~= Seq::empty());
        Some(table)
    }

    /// Carries out one statement and reports how many rows it touched.
    pub fn execute(&mut self, statement: Statement) -> (outcome: Result<usize, StoreError>)
        ensures
            old(self)@.well_formed(),
            final(self)@.well_formed(),
            final(self)@ == old(self)@.apply(statement@),
            reported(outcome) == old(self)@.affected(statement@),
    {
        proof {
            use_type_invariant(&*self);
        }
        match statement {
            Statement::Insert(fields) => self.insert(fields),
            Statement::Update(id, fields) => self.update(id, fields),
            Statement::Delete(id) => self.delete(id),
        }
    }

    /// Returns a copy of every row, in insertion order. A load never fails.
    pub fn load(&self) -> (outcome: Result<Vec<SelectableTodo>, StoreError>)
        ensures
            self@.well_formed(),
            outcome matches Ok(rows) && row_views(rows@) == self@.rows,
    {
        proof {
            use_type_invariant(self);
        }
        let mut rows: Vec<SelectableTodo> = Vec::new();
        let mut i: usize = 0;
        while i < self.rows.len()
            invariant
                i <= self.rows.len(),
                rows.len() == i,
                forall|k: int| 0 <= k < i ==> (#[trigger] rows[k])@ == self.rows[k]@,
            decreases self.rows.len() - i,
        {
            rows.push(self.rows[i].clone());
            i += 1;
        }
        assert(row_views(rows@) =~= self@.rows);
        Ok(rows)
    }

    /// Adds a row with `fields` under the next id, unless every id has been
    /// assigned.
    pub fn insert(&mut self, fields: TodoFields) -> (outcome: Result<usize, StoreError>)
        ensures
            old(self)@.well_formed(),
            final(self)@.well_formed(),
            final(self)@ == old(self)@.insert(fields@),
            old(self)@.has_room() ==> outcome == Ok::<usize, StoreError>(1),
            !old(self)@.has_room() ==> outcome is Err,
    {
        proof {
            use_type_invariant(&*self);
        }
        if self.last_id >= MAX_ID {
            return Err(StoreError);
        }
        let id: i32 = self.last_id + 1;
        let ghost before = self@;
        let mut rows: Vec<SelectableTodo> = Vec::new();
        std::mem::swap(&mut rows, &mut self.rows);
        rows.push(fields.into_row(id));
        assert(row_views(rows@) =~= before.rows.push(fields@.with_id(id as int)));
        self.last_id = id;
        self.rows = rows;
        Ok(1)
    }

    /// Overwrites every field of the row `id` with `fields` and reports how
    /// many rows had that id.
    pub fn update(&mut self, id: i32, fields: TodoFields) -> (outcome: Result<usize, StoreError>)
        ensures
            old(self)@.well_formed(),
            final(self)@.well_formed(),
            final(self)@ == old(self)@.update(id as int, fields@),
            outcome matches Ok(n) && n == old(self)@.count(id as int),
    {
        proof {
            use_type_invariant(&*self);
        }
        let ghost before = self@;
        let mut rows: Vec<SelectableTodo> = Vec::new();
        std::mem::swap(&mut rows, &mut self.rows);
        let mut touched: usize = 0;
        let mut i: usize = 0;
        while i < rows.len()
            invariant
                i <= rows.len(),
                rows.len() == before.rows.len(),
                touched <= i,
                touched == before.rows.take(i as int).filter(has_id(id as int)).len(),
                forall|k: int| 0 <= k < i ==> (#[trigger] rows[k])@ == before.update(id as int, fields@).rows[k],
                forall|k: int| i <= k < rows.len() ==> (#[trigger] rows[k])@ == before.rows[k],
            decreases rows.len() - i,
        {
            proof {
                broadcast use Seq::lemma_filter_len_push;
                assert(before.rows.take(i + 1) =~= before.rows.take(i as int).push(before.rows[i as int]));
            }
            if rows[i].id == id {
                rows.set(i, fields.clone().into_row(id));
                touched += 1;
            }
            i += 1;
        }
        proof {
            assert(before.rows.take(i as int) =~= before.rows);
            assert(row_views(rows@) =~= before.update(id as int, fields@).rows);
        }
        self.rows = rows;
        Ok(touched)
    }

    /// Removes the row `id` and reports how many rows had that id.
    pub fn delete(&mut self, id: i32) -> (outcome: Result<usize, StoreError>)
        ensures
            old(self)@.well_formed(),
            final(self)@.well_formed(),
            final(self)@ == old(self)@.delete(id as int),
            outcome matches Ok(n) && n == old(self)@.count(id as int),
    {
        proof {
            use_type_invariant(&*self);
        }
        let ghost before = self@;
        let mut rows: Vec<SelectableTodo> = Vec::new();
        std::mem::swap(&mut rows, &mut self.rows);
        let mut kept: Vec<SelectableTodo> = Vec::new();
        let mut removed: usize = 0;
        let mut i: usize = 0;
        while i < rows.len()
            invariant
                i <= rows.len(),
                row_views(rows@) == before.rows,
                removed <= i,
                removed == before.rows.take(i as int).filter(has_id(id as int)).len(),
                row_views(kept@) == before.rows.take(i as int).filter(has_other_id(id as int)),
            decreases rows.len() - i,
        {
            proof {
                broadcast use Seq::lemma_filter_len_push;
                broadcast use Seq::lemma_filter_push;
                assert(before.rows.take(i + 1) =~= before.rows.take(i as int).push(before.rows[i as int]));
                assert(rows[i as int]@ == before.rows[i as int]);
            }
            if rows[i].id == id {
                removed += 1;
            } else {
                let ghost kept_before = row_views(kept@);
                kept.push(rows[i].clone());
                assert(row_views(kept@) =~= kept_before.push(before.rows[i as int]));
            }
            i += 1;
        }
        proof {
            assert(before.rows.take(i as int) =~= before.rows);
            lemma_delete_well_formed(before, id as int);
        }
        self.rows = kept;
        Ok(removed)
    }
}

/// A delete keeps a well-formed table well formed.
pub proof fn lemma_delete_well_formed(table: TableView, id: int)
    requires
        table.well_formed(),
    ensures
        table.delete(id).well_formed(),
{
    let kept = table.rows.filter(has_other_id(id));
    lemma_filter_keeps_order(table.rows, has_other_id(id));
}

/// Every item of a filtered sequence comes from the sequence, and two items
/// stand in the order in which they stood there.
pub proof fn lemma_filter_keeps_order(rows: Seq<RowView>, keep: spec_fn(RowView) -> bool)
    ensures
        forall|k: int|
            0 <= k < rows.filter(keep).len() ==> exists|i: int|
                0 <= i < rows.len() && rows[i] == #[trigger] rows.filter(keep)[k],
        forall|k: int, l: int|
            0 <= k < l < rows.filter(keep).len() ==> exists|i: int, j: int|
                0 <= i < j < rows.len() && rows[i] == #[trigger] rows.filter(keep)[k] && rows[j]
                    == #[trigger] rows.filter(keep)[l],
    decreases rows.len(),
{
    reveal(Seq::filter);
    if rows.len() > 0 {
        let front = rows.drop_last();
        lemma_filter_keeps_order(front, keep);
        let out = rows.filter(keep);
        assert forall|k: int| 0 <= k < out.len() implies exists|i: int|
            0 <= i < rows.len() && rows[i] == #[trigger] out[k] by {
            if k < front.filter(keep).len() {
                let i = choose|i: int| 0 <= i < front.len() && front[i] == front.filter(keep)[k];
                assert(rows[i] == out[k]);
            } else {
                assert(rows[rows.len() - 1] == out[k]);
            }
        }
        assert forall|k: int, l: int| 0 <= k < l < out.len() implies exists|i: int, j: int|
            0 <= i < j < rows.len() && rows[i] == #[trigger] out[k] && rows[j] == #[trigger] out[l] by {
            if l < front.filter(keep).len() {
                let (i, j) = choose|i: int, j: int|
                    0 <= i < j < front.len() && front[i] == front.filter(keep)[k] && front[j]
                        == front.filter(keep)[l];
                assert(rows[i] == out[k] && rows[j] == out[l]);
            } else {
                let i = choose|i: int| 0 <= i < front.len() && front[i] == front.filter(keep)[k];
                assert(rows[i] == out[k] && rows[rows.len() - 1] == out[l]);
            }
        }
    }
}

} // verus!
