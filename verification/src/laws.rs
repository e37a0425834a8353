//! What holds of the request cycle over the reference table, whatever the
//! table holds and whatever is asked.

use crate::handlers::deleted_text;
use crate::response::{BodyView, ResponseView};
use crate::service::{answer, table_after, table_after_all, RequestView};
use crate::table::{has_id, has_other_id, lemma_delete_well_formed, TableView, MAX_ID};
use crate::todo::{RowView, TodoView};
use vstd::prelude::*;

verus! {

/// The records that a list request on `table` returns.
pub open spec fn listing(table: TableView) -> Seq<TodoView> {
    Seq::new(table.rows.len(), |i: int| table.rows[i].as_todo())
}

/// The create requests for `todos`, in order.
pub open spec fn creates(todos: Seq<TodoView>) -> Seq<RequestView> {
    Seq::new(todos.len(), |k: int| RequestView::Create(todos[k]))
}

/// A list request is answered with status 200 and one record for each row;
/// it leaves the table as it was.
pub proof fn lemma_list_answers_with_listing(table: TableView)
    ensures
        answer(table, RequestView::List) == ResponseView::todos(listing(table)),
        answer(table, RequestView::List).status == 200,
        table_after(table, RequestView::List) == table,
{
}

/// On a table with room, a create request is answered with status 200 and
/// the submitted body, unchanged.
pub proof fn lemma_create_echoes_body(table: TableView, todo: TodoView)
    requires
        table.has_room(),
    ensures
        answer(table, RequestView::Create(todo)).status == 200,
        answer(table, RequestView::Create(todo)).body == BodyView::Todo(todo),
{
}

/// After a create request on a table with room, a list request returns a
/// record with the title, description and done flag that were submitted. It
/// is the last one, it has the id that was next, and the records before it
/// are those that were listed before.
pub proof fn lemma_created_todo_is_listed(table: TableView, todo: TodoView)
    requires
        table.has_room(),
    ensures
        ({
            let after = listing(table_after(table, RequestView::Create(todo)));
            &&& after.len() == listing(table).len() + 1
            &&& after.last().fields() == todo.fields()
            &&& after.last().id == Some(table.next_id)
            &&& after.drop_last() == listing(table)
            &&& exists|i: int| 0 <= i < after.len() && (#[trigger] after[i]).fields() == todo.fields()
        }),
{
    let after = listing(table_after(table, RequestView::Create(todo)));
    assert(after.drop_last() =~= listing(table));
    assert(after[after.len() - 1].fields() == todo.fields());
}

/// The empty table lists as an empty collection with status 200.
pub proof fn lemma_empty_table_lists_nothing()
    ensures
        answer(TableView::empty(), RequestView::List) == ResponseView::todos(Seq::empty()),
{
    assert(listing(TableView::empty()) =~= Seq::empty());
}

/// An update request is answered with status 200 and the submitted body,
/// whether or not a row has the id.
pub proof fn lemma_update_echoes_body(table: TableView, id: int, todo: TodoView)
    ensures
        answer(table, RequestView::Update(id, todo)) == ResponseView::todo(todo),
        answer(table, RequestView::Update(id, todo)).status == 200,
{
}

/// After an update request for an id that the table holds, a list request
/// returns as many records as before; the record with that id carries the
/// submitted fields, and every other record is as it was. No record changes
/// its id.
pub proof fn lemma_update_is_listed(table: TableView, id: int, todo: TodoView)
    requires
        table.contains_id(id),
    ensures
        ({
            let before = listing(table);
            let after = listing(table_after(table, RequestView::Update(id, todo)));
            &&& after.len() == before.len()
            &&& forall|i: int| 0 <= i < after.len() ==> (#[trigger] after[i]).id == before[i].id
            &&& forall|i: int|
                0 <= i < after.len() && before[i].id == Some(id) ==> (#[trigger] after[i]).fields()
                    == todo.fields()
            &&& forall|i: int|
                0 <= i < after.len() && before[i].id != Some(id) ==> #[trigger] after[i] == before[i]
            &&& exists|i: int|
                0 <= i < after.len() && (#[trigger] after[i]).id == Some(id) && after[i].fields()
                    == todo.fields()
        }),
{
    let after = listing(table_after(table, RequestView::Update(id, todo)));
    let i = choose|i: int| 0 <= i < table.rows.len() && (#[trigger] table.rows[i]).id == id;
    assert(after[i].id == Some(id) && after[i].fields() == todo.fields());
}

/// An update request for an id that the table does not hold leaves the table
/// as it was, and is still answered with status 200 and the submitted body.
pub proof fn lemma_update_of_missing_id(table: TableView, id: int, todo: TodoView)
    requires
        !table.contains_id(id),
    ensures
        table_after(table, RequestView::Update(id, todo)) == table,
        answer(table, RequestView::Update(id, todo)) == ResponseView::todo(todo),
{
    assert(table.update(id, todo.fields()).rows =~= table.rows);
}

/// A delete request is answered with status 200 and the fixed confirmation,
/// whether or not a row has the id. Afterwards no row has the id, and the
/// rows with another id are all there, in their order.
pub proof fn lemma_delete_confirms_and_removes(table: TableView, id: int)
    ensures
        answer(table, RequestView::Delete(id)) == ResponseView::confirmation(deleted_text()),
        answer(table, RequestView::Delete(id)).status == 200,
        !table_after(table, RequestView::Delete(id)).contains_id(id),
        table_after(table, RequestView::Delete(id)).rows == table.rows.filter(has_other_id(id)),
        forall|i: int|
            0 <= i < table.rows.len() && (#[trigger] table.rows[i]).id != id ==> table_after(
                table,
                RequestView::Delete(id),
            ).rows.contains(table.rows[i]),
{
    let after = table_after(table, RequestView::Delete(id));
    let keep = has_other_id(id);
    assert forall|k: int| 0 <= k < after.rows.len() implies (#[trigger] after.rows[k]).id != id by {
        table.rows.lemma_filter_pred(keep, k);
    }
    assert forall|i: int| 0 <= i < table.rows.len() && (#[trigger] table.rows[i]).id
        != id implies after.rows.contains(table.rows[i]) by {
        table.rows.lemma_filter_contains(keep, i);
    }
}

/// A delete request for an id that the table does not hold leaves the table
/// as it was, and is answered like any other delete request.
pub proof fn lemma_delete_of_missing_id(table: TableView, id: int)
    requires
        !table.contains_id(id),
    ensures
        table_after(table, RequestView::Delete(id)) == table,
        answer(table, RequestView::Delete(id)) == ResponseView::confirmation(deleted_text()),
{
    lemma_filter_keeps_all(table.rows, has_other_id(id));
}

/// A filter that every item passes keeps the sequence as it is.
pub proof fn lemma_filter_keeps_all(rows: Seq<RowView>, keep: spec_fn(RowView) -> bool)
    requires
        forall|i: int| 0 <= i < rows.len() ==> keep(#[trigger] rows[i]),
    ensures
        rows.filter(keep) == rows,
    decreases rows.len(),
{
    reveal(Seq::filter);
    if rows.len() > 0 {
        let front = rows.drop_last();
        assert forall|i: int| 0 <= i < front.len() implies keep(#[trigger] front[i]) by {
            assert(front[i] == rows[i]);
        }
        lemma_filter_keeps_all(front, keep);
        assert(keep(rows[rows.len() - 1]));
        assert(front.push(rows.last()) =~= rows);
    }
}

/// In a well-formed table at most one row has a given id: one where the
/// table holds the id, none where it does not.
pub proof fn lemma_count_is_zero_or_one(table: TableView, id: int)
    requires
        table.well_formed(),
    ensures
        table.count(id) == (if table.contains_id(id) { 1nat } else { 0nat }),
{
    lemma_count_of_distinct(table.rows, id);
}

/// Among rows with pairwise distinct ids, one has the id `id` where it
/// occurs, none where it does not.
pub proof fn lemma_count_of_distinct(rows: Seq<RowView>, id: int)
    requires
        forall|i: int, j: int|
            0 <= i < j < rows.len() ==> (#[trigger] rows[i]).id != (#[trigger] rows[j]).id,
    ensures
        rows.filter(has_id(id)).len() == (if exists|i: int|
            0 <= i < rows.len() && (#[trigger] rows[i]).id == id {
            1nat
        } else {
            0nat
        }),
    decreases rows.len(),
{
    reveal(Seq::filter);
    if rows.len() > 0 {
        let front = rows.drop_last();
        let last = rows.len() - 1;
        assert forall|i: int, j: int| 0 <= i < j < front.len() implies (#[trigger] front[i]).id != (
        #[trigger] front[j]).id by {
            assert(front[i] == rows[i] && front[j] == rows[j]);
        }
        lemma_count_of_distinct(front, id);
        if rows[last].id == id {
            assert forall|i: int| 0 <= i < front.len() implies (#[trigger] front[i]).id != id by {
                assert(front[i] == rows[i]);
            }
        } else {
            if exists|i: int| 0 <= i < rows.len() && (#[trigger] rows[i]).id == id {
                let i = choose|i: int| 0 <= i < rows.len() && (#[trigger] rows[i]).id == id;
                assert(front[i].id == id);
            }
            if exists|i: int| 0 <= i < front.len() && (#[trigger] front[i]).id == id {
                let i = choose|i: int| 0 <= i < front.len() && (#[trigger] front[i]).id == id;
                assert(rows[i].id == id);
            }
        }
    }
}

/// No request breaks the table: after any request no two rows share an id,
/// and every id in the table is below the next one.
pub proof fn lemma_request_keeps_well_formed(table: TableView, request: RequestView)
    requires
        table.well_formed(),
    ensures
        table_after(table, request).well_formed(),
{
    match request {
        RequestView::Delete(id) => {
            lemma_delete_well_formed(table, id);
        },
        _ => {},
    }
}

/// No sequence of requests breaks the table.
pub proof fn lemma_requests_keep_well_formed(table: TableView, requests: Seq<RequestView>)
    requires
        table.well_formed(),
    ensures
        table_after_all(table, requests).well_formed(),
    decreases requests.len(),
{
    if requests.len() > 0 {
        lemma_requests_keep_well_formed(table, requests.drop_last());
        lemma_request_keeps_well_formed(
            table_after_all(table, requests.drop_last()),
            requests.last(),
        );
    }
}

/// Creates that are carried out one after another, in whatever order they
/// arrive, lose nothing and share no id: where the table has room for all of
/// them, each adds one row with the submitted fields under an id of its own,
/// and the rows that were there stay as they were.
pub proof fn lemma_creates_get_distinct_ids(table: TableView, todos: Seq<TodoView>)
    requires
        table.well_formed(),
        table.next_id + todos.len() <= MAX_ID + 1,
    ensures
        ({
            let after = table_after_all(table, creates(todos));
            let n = table.rows.len() as int;
            &&& after.well_formed()
            &&& after.next_id == table.next_id + todos.len()
            &&& after.rows.len() == n + todos.len()
            &&& after.rows.take(n) == table.rows
            &&& forall|k: int|
                0 <= k < todos.len() ==> #[trigger] after.rows[n + k] == todos[k].fields().with_id(
                    table.next_id + k,
                )
            &&& forall|k: int, l: int|
                0 <= k < l < todos.len() ==> (#[trigger] after.rows[n + k]).id != (
                #[trigger] after.rows[n + l]).id
        }),
    decreases todos.len(),
{
    let after = table_after_all(table, creates(todos));
    let n = table.rows.len() as int;
    if todos.len() == 0 {
        assert(after.rows.take(n) =~= table.rows);
    } else {
        let front = todos.drop_last();
        assert(creates(todos).drop_last() =~= creates(front));
        lemma_creates_get_distinct_ids(table, front);
        let middle = table_after_all(table, creates(front));
        assert(after == table_after(middle, RequestView::Create(todos.last())));
        assert(after.rows.take(n) =~= middle.rows.take(n));
        assert forall|k: int| 0 <= k < todos.len() implies #[trigger] after.rows[n + k]
            == todos[k].fields().with_id(table.next_id + k) by {
            if k < front.len() {
                assert(after.rows[n + k] == middle.rows[n + k]);
                assert(front[k] == todos[k]);
            }
        }
    }
}

} // verus!
