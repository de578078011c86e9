//! Service-level properties, proved once over the table semantics.
//!
//! Each proof function states one property of the five operations for
//! every input the service accepts, in the same spec vocabulary that the
//! operation contracts use, so the handlers' postconditions compose with
//! these laws directly.

use vstd::prelude::*;

use crate::models::ItemView;
use crate::plan::insert_sql;
use crate::plan::params_of;
use crate::plan::sql_of;
use crate::plan::ParamView;
use crate::plan::StatementView;
use crate::table::contains_id;
use crate::table::deleted;
use crate::table::distinct_ids;
use crate::table::inserted;
use crate::table::lemma_row_index_of;
use crate::table::lookup;
use crate::table::row_index;
use crate::table::rows_affected;
use crate::table::updated;
use crate::table::wf_rows;

verus! {

/// An insert keeps the table well formed, and the id it assigns is fresh:
/// no existing row carries it.
pub proof fn lemma_insert_wf(rows: Seq<ItemView>, next: int, name: Seq<char>, description: Seq<char>)
    requires
        wf_rows(rows, next),
        next < i32::MAX,
    ensures
        !contains_id(rows, next),
        wf_rows(inserted(rows, next, name, description), next + 1),
        inserted(rows, next, name, description).len() == rows.len() as int + 1,
{
    let rows2 = inserted(rows, next, name, description);
    assert forall|i: int| 0 <= i < rows2.len() implies 1 <= #[trigger] rows2[i].id < next + 1 by {
        if i < rows.len() {
            assert(1 <= rows[i].id < next);
        }
    }
    assert forall|i: int, j: int| 0 <= i < j < rows2.len() implies rows2[i].id != rows2[j].id by {
        if j < rows.len() {
            assert(rows[i].id != rows[j].id);
        } else {
            assert(1 <= rows[i].id < next);
        }
    }
    if contains_id(rows, next) {
        let k = row_index(rows, next);
        assert(1 <= rows[k].id < next);
    }
}

/// Round trip: creating an item and then fetching it by the returned id
/// yields a row with exactly the given name and description, for every
/// pair of texts the service accepts.
pub proof fn lemma_create_round_trip(rows: Seq<ItemView>, next: int, name: Seq<char>, description: Seq<char>)
    requires
        wf_rows(rows, next),
        next < i32::MAX,
    ensures
        contains_id(inserted(rows, next, name, description), next),
        lookup(inserted(rows, next, name, description), next) == (ItemView { id: next, name, description }),
{
    lemma_insert_wf(rows, next, name, description);
    let rows2 = inserted(rows, next, name, description);
    lemma_row_index_of(rows2, rows.len() as int);
}

/// List completeness: after creating three items in turn, the listed
/// table holds a row for each assigned id with its own name and
/// description, nothing is lost, and the three ids are pairwise distinct.
pub proof fn lemma_list_completeness(
    rows: Seq<ItemView>,
    next: int,
    a_name: Seq<char>,
    a_description: Seq<char>,
    b_name: Seq<char>,
    b_description: Seq<char>,
    c_name: Seq<char>,
    c_description: Seq<char>,
)
    requires
        wf_rows(rows, next),
        next + 3 <= i32::MAX,
    ensures
        ({
            let r3 = inserted(
                inserted(inserted(rows, next, a_name, a_description), next + 1, b_name, b_description),
                next + 2,
                c_name,
                c_description,
            );
            &&& wf_rows(r3, next + 3)
            &&& r3.len() == rows.len() + 3
            &&& contains_id(r3, next) && lookup(r3, next) == (ItemView {
                id: next,
                name: a_name,
                description: a_description,
            })
            &&& contains_id(r3, next + 1) && lookup(r3, next + 1) == (ItemView {
                id: next + 1,
                name: b_name,
                description: b_description,
            })
            &&& contains_id(r3, next + 2) && lookup(r3, next + 2) == (ItemView {
                id: next + 2,
                name: c_name,
                description: c_description,
            })
        }),
{
    let r1 = inserted(rows, next, a_name, a_description);
    let r2 = inserted(r1, next + 1, b_name, b_description);
    let r3 = inserted(r2, next + 2, c_name, c_description);
    lemma_insert_wf(rows, next, a_name, a_description);
    lemma_insert_wf(r1, next + 1, b_name, b_description);
    lemma_insert_wf(r2, next + 2, c_name, c_description);
    assert(r3[rows.len() as int] == (ItemView { id: next, name: a_name, description: a_description }));
    assert(r3[rows.len() as int + 1] == (ItemView { id: next + 1, name: b_name, description: b_description }));
    assert(r3[rows.len() as int + 2] == (ItemView { id: next + 2, name: c_name, description: c_description }));
    lemma_row_index_of(r3, rows.len() as int);
    lemma_row_index_of(r3, rows.len() as int + 1);
    lemma_row_index_of(r3, rows.len() as int + 2);
}

/// Not-found: any id at or above the store's next id is absent. Ids are
/// assigned in a strictly increasing sequence, so one above every
/// existing id is never found and a fetch of it answers not-found.
pub proof fn lemma_fresh_id_absent(rows: Seq<ItemView>, next: int, id: int)
    requires
        wf_rows(rows, next),
        id >= next,
    ensures
        !contains_id(rows, id),
{
    if contains_id(rows, id) {
        let k = row_index(rows, id);
        assert(1 <= rows[k].id < next);
    }
}

/// Update visibility: updating an existing id affects exactly one row,
/// and a fetch afterwards yields the new name and description under the
/// unchanged id; every other row keeps its value.
pub proof fn lemma_update_visibility(
    rows: Seq<ItemView>,
    next: int,
    id: int,
    name: Seq<char>,
    description: Seq<char>,
)
    requires
        wf_rows(rows, next),
        contains_id(rows, id),
    ensures
        rows_affected(rows, id) == 1,
        wf_rows(updated(rows, id, name, description), next),
        contains_id(updated(rows, id, name, description), id),
        lookup(updated(rows, id, name, description), id) == (ItemView { id, name, description }),
        updated(rows, id, name, description).len() == rows.len(),
        forall|i: int|
            0 <= i < rows.len() && i != row_index(rows, id)
                ==> #[trigger] updated(rows, id, name, description)[i] == rows[i],
{
    let k = row_index(rows, id);
    assert(0 <= k < rows.len() && rows[k].id == id);
    let rows2 = updated(rows, id, name, description);
    assert(rows2 == rows.update(k, ItemView { id, name, description }));
    assert forall|i: int| 0 <= i < rows2.len() implies #[trigger] rows2[i].id == rows[i].id by {
        if i != k {
            assert(rows2[i] == rows[i]);
        }
    }
    assert forall|i: int| 0 <= i < rows2.len() implies 1 <= #[trigger] rows2[i].id < next by {
        assert(rows2[i].id == rows[i].id);
        assert(1 <= rows[i].id < next);
    }
    assert forall|i: int, j: int| 0 <= i < j < rows2.len() implies rows2[i].id != rows2[j].id by {
        assert(rows2[i].id == rows[i].id);
        assert(rows2[j].id == rows[j].id);
        assert(rows[i].id != rows[j].id);
    }
    lemma_row_index_of(rows2, k);
}

/// Delete then fetch: after a delete of an id, a fetch of the same id
/// finds no row, so it answers not-found.
pub proof fn lemma_delete_then_fetch(rows: Seq<ItemView>, id: int)
    requires
        distinct_ids(rows),
    ensures
        !contains_id(deleted(rows, id), id),
{
    if contains_id(rows, id) {
        let k = row_index(rows, id);
        assert(0 <= k < rows.len() && rows[k].id == id);
        let rows2 = rows.remove(k);
        if contains_id(rows2, id) {
            let j = row_index(rows2, id);
            assert(0 <= j < rows2.len() && rows2[j].id == id);
            if j < k {
                assert(rows2[j] == rows[j]);
                assert(rows[j].id != rows[k].id);
            } else {
                assert(rows2[j] == rows[j + 1]);
                assert(rows[k].id != rows[j + 1].id);
            }
        }
    }
}

/// Idempotence of delete: deleting an id a second time affects zero rows
/// and leaves the table exactly as the first delete left it. The router
/// maps both outcomes to the same success status.
pub proof fn lemma_delete_idempotent(rows: Seq<ItemView>, id: int)
    requires
        distinct_ids(rows),
    ensures
        rows_affected(deleted(rows, id), id) == 0,
        deleted(deleted(rows, id), id) == deleted(rows, id),
{
    lemma_delete_then_fetch(rows, id);
}

/// Distinct ids across creates: two creates, in whichever order the
/// store serializes them, assign distinct fresh ids, and afterwards both
/// rows are present with their own texts: no duplicate ids, no lost
/// insert.
pub proof fn lemma_creates_assign_distinct_ids(
    rows: Seq<ItemView>,
    next: int,
    first_name: Seq<char>,
    first_description: Seq<char>,
    second_name: Seq<char>,
    second_description: Seq<char>,
)
    requires
        wf_rows(rows, next),
        next + 2 <= i32::MAX,
    ensures
        ({
            let r2 = inserted(
                inserted(rows, next, first_name, first_description),
                next + 1,
                second_name,
                second_description,
            );
            &&& wf_rows(r2, next + 2)
            &&& r2.len() == rows.len() as int + 2
            &&& contains_id(r2, next) && lookup(r2, next) == (ItemView {
                id: next,
                name: first_name,
                description: first_description,
            })
            &&& contains_id(r2, next + 1) && lookup(r2, next + 1) == (ItemView {
                id: next + 1,
                name: second_name,
                description: second_description,
            })
        }),
{
    let r1 = inserted(rows, next, first_name, first_description);
    let r2 = inserted(r1, next + 1, second_name, second_description);
    lemma_insert_wf(rows, next, first_name, first_description);
    lemma_insert_wf(r1, next + 1, second_name, second_description);
    assert(r2[rows.len() as int] == (ItemView { id: next, name: first_name, description: first_description }));
    assert(r2[rows.len() as int + 1] == (ItemView {
        id: next + 1,
        name: second_name,
        description: second_description,
    }));
    lemma_row_index_of(r2, rows.len() as int);
    lemma_row_index_of(r2, rows.len() as int + 1);
}

/// Injection safety: whatever characters the two texts hold, the insert
/// statement's text is the one fixed constant, the texts travel only as
/// bound parameters in placeholder order, and the stored row returns
/// them verbatim while every existing row is untouched: the texts reach
/// the store as data, never as statement structure.
pub proof fn lemma_injection_safety(rows: Seq<ItemView>, next: int, name: Seq<char>, description: Seq<char>)
    requires
        wf_rows(rows, next),
        next < i32::MAX,
    ensures
        sql_of(StatementView::Insert { name, description }) == insert_sql(),
        params_of(StatementView::Insert { name, description }) == seq![
            ParamView::Text(name),
            ParamView::Text(description),
        ],
        inserted(rows, next, name, description).len() == rows.len() as int + 1,
        forall|i: int|
            0 <= i < rows.len() ==> #[trigger] inserted(rows, next, name, description)[i] == rows[i],
        lookup(inserted(rows, next, name, description), next) == (ItemView { id: next, name, description }),
{
    lemma_create_round_trip(rows, next, name, description);
}

} // verus!
