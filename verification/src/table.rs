//! Per-statement semantics of the `items` table.
//!
//! The store schema is a fixed external contract:
//! `items(id INTEGER PRIMARY KEY, name TEXT NOT NULL, description TEXT NOT NULL)`
//! with store-assigned, strictly increasing ids. [`ItemTable`] is an
//! executable model of that contract: each method is one atomic statement,
//! and the repository and router contracts are stated against its view.
//! Tests may also use it directly as an in-memory store.

use vstd::prelude::*;

use crate::errors::RepoError;
use crate::errors::StoreFault;
use crate::models::Item;
use crate::models::ItemView;

verus! {

/// The abstract value of a sequence of rows, element for element.
pub open spec fn views_of(rows: Seq<Item>) -> Seq<ItemView> {
    rows.map_values(|it: Item| it@)
}

/// Whether some row of `rows` carries `id`.
pub open spec fn contains_id(rows: Seq<ItemView>, id: int) -> bool {
    exists|i: int| 0 <= i < rows.len() && rows[i].id == id
}

/// The index of the row carrying `id` (unique when ids are distinct).
pub open spec fn row_index(rows: Seq<ItemView>, id: int) -> int {
    choose|i: int| 0 <= i < rows.len() && rows[i].id == id
}

/// The row carrying `id`.
pub open spec fn lookup(rows: Seq<ItemView>, id: int) -> ItemView {
    rows[row_index(rows, id)]
}

/// No two rows share an id (`id` is the primary key).
pub open spec fn distinct_ids(rows: Seq<ItemView>) -> bool {
    forall|i: int, j: int| 0 <= i < j < rows.len() ==> rows[i].id != rows[j].id
}

/// Every id is positive and below the next id to be assigned.
pub open spec fn ids_below(rows: Seq<ItemView>, bound: int) -> bool {
    forall|i: int| 0 <= i < rows.len() ==> 1 <= #[trigger] rows[i].id < bound
}

/// Well-formedness of a table state: ids distinct, positive and below the
/// id counter, which itself stays representable.
pub open spec fn wf_rows(rows: Seq<ItemView>, next_id: int) -> bool {
    &&& 1 <= next_id <= i32::MAX
    &&& ids_below(rows, next_id)
    &&& distinct_ids(rows)
}

/// The table after an insert: the new row appended, carrying the assigned id.
pub open spec fn inserted(rows: Seq<ItemView>, id: int, name: Seq<char>, description: Seq<char>) -> Seq<ItemView> {
    rows.push(ItemView { id, name, description })
}

/// The table after an update of `id`: that row overwritten in place when it
/// exists (id unchanged), the table unchanged when it does not.
pub open spec fn updated(rows: Seq<ItemView>, id: int, name: Seq<char>, description: Seq<char>) -> Seq<ItemView> {
    if contains_id(rows, id) {
        rows.update(row_index(rows, id), ItemView { id, name, description })
    } else {
        rows
    }
}

/// The table after a delete of `id`: that row removed when it exists, the
/// table unchanged when it does not.
pub open spec fn deleted(rows: Seq<ItemView>, id: int) -> Seq<ItemView> {
    if contains_id(rows, id) {
        rows.remove(row_index(rows, id))
    } else {
        rows
    }
}

/// Rows affected by an update or delete of `id`: 1 when the row exists,
/// 0 when it does not. The store does not distinguish the two as failures.
pub open spec fn rows_affected(rows: Seq<ItemView>, id: int) -> int {
    if contains_id(rows, id) {
        1
    } else {
        0
    }
}

/// With distinct ids, the row index of `rows[i].id` is `i` itself.
pub proof fn lemma_row_index_of(rows: Seq<ItemView>, i: int)
    requires
        distinct_ids(rows),
        0 <= i < rows.len(),
    ensures
        contains_id(rows, rows[i].id),
        row_index(rows, rows[i].id) == i,
        lookup(rows, rows[i].id) == rows[i],
{
    assert(contains_id(rows, rows[i].id)) by {
        assert(0 <= i < rows.len() && rows[i].id == rows[i].id);
    }
    let k = row_index(rows, rows[i].id);
    assert(0 <= k < rows.len() && rows[k].id == rows[i].id);
    if k < i {
        assert(rows[k].id != rows[i].id);
    } else if i < k {
        assert(rows[i].id != rows[k].id);
    }
}

/// Executable model of the `items` table: the rows in store order and the
/// id counter. One method per statement; each is atomic, as each statement
/// of the store is.
pub struct ItemTable {
    rows: Vec<Item>,
    next_id: i32,
}

impl View for ItemTable {
    type V = Seq<ItemView>;

    closed spec fn view(&self) -> Seq<ItemView> {
        views_of(self.rows@)
    }
}

impl ItemTable {
    /// The next id the store will assign. Ids start at 1 and never repeat,
    /// also across deletes.
    pub closed spec fn next(&self) -> int {
        self.next_id as int
    }

    /// Table invariant, established by [`ItemTable::new`] and preserved by
    /// every operation.
    pub open spec fn wf(&self) -> bool {
        wf_rows(self@, self.next())
    }

    /// Whether an id is still available for an insert.
    pub open spec fn can_assign_id(&self) -> bool {
        self.next() < i32::MAX as int
    }

    /// An empty table, as a fresh store starts.
    pub fn new() -> (t: ItemTable)
        ensures
            t@ == Seq::<ItemView>::empty(),
            t.next() == 1,
            t.wf(),
    {
        let t = ItemTable { rows: Vec::new(), next_id: 1 };
        proof {
            assert(t@ =~= Seq::<ItemView>::empty());
        }
        t
    }

    /// `INSERT INTO items (name, description) VALUES ($1, $2)
    /// RETURNING id, name, description`: appends a row with the next
    /// store-assigned id and returns it fully populated. The two text
    /// parameters are stored verbatim, whatever characters they hold.
    /// Fails only when the id space is exhausted, the one constraint the
    /// model can violate.
    pub fn insert(&mut self, name: String, description: String) -> (r: Result<Item, RepoError>)
        requires
            old(self).wf(),
        ensures
            final(self).wf(),
            r is Ok <==> old(self).can_assign_id(),
            r matches Ok(item) ==> {
                &&& item@ == (ItemView { id: old(self).next(), name: name@, description: description@ })
                &&& !contains_id(old(self)@, item@.id)
                &&& final(self)@ == inserted(old(self)@, old(self).next(), name@, description@)
                &&& final(self).next() == old(self).next() + 1
            },
            r is Err ==> {
                &&& r == Err::<Item, RepoError>(RepoError::Store(StoreFault::Other))
                &&& final(self)@ == old(self)@
                &&& final(self).next() == old(self).next()
            },
    {
        if self.next_id == i32::MAX {
            return Err(RepoError::Store(StoreFault::Other));
        }
        let id = self.next_id;
        self.next_id = self.next_id + 1;
        let item = Item { id, name, description };
        let returned = item.clone();
        self.rows.push(item);
        proof {
            assert(self@ =~= inserted(old(self)@, id as int, returned@.name, returned@.description));
            assert forall|i: int| 0 <= i < self@.len() implies 1 <= #[trigger] self@[i].id < self.next() by {
                if i < old(self)@.len() {
                    assert(old(self)@[i].id < old(self).next());
                }
            }
        }
        Ok(returned)
    }

    /// `SELECT id, name, description FROM items`: every row, in store
    /// order; an empty table yields an empty sequence, not an error.
    pub fn select_all(&self) -> (r: Vec<Item>)
        ensures
            views_of(r@) == self@,
    {
        let mut out: Vec<Item> = Vec::new();
        let n = self.rows.len();
        let mut i: usize = 0;
        while i < n
            invariant
                n == self.rows.len(),
                i <= n,
                views_of(out@) == self@.subrange(0, i as int),
            decreases n - i,
        {
            let ghost prev = out@;
            out.push(self.rows[i].clone());
            proof {
                assert(views_of(prev).len() == prev.len());
                assert(prev.len() == i as int);
                assert forall|j: int| 0 <= j < i as int implies out@[j]@ == self@[j] by {
                    assert(views_of(prev)[j] == prev[j]@);
                    assert(views_of(prev)[j] == self@.subrange(0, i as int)[j]);
                }
                assert(self@[i as int] == self.rows@[i as int]@);
                assert(out@[i as int]@ == self@[i as int]);
                assert(views_of(out@) =~= self@.subrange(0, i as int + 1));
            }
            i = i + 1;
        }
        proof {
            assert(self@.subrange(0, n as int) =~= self@);
        }
        out
    }

    /// `SELECT id, name, description FROM items WHERE id = $1`: the single
    /// matching row, or `NotFound` when zero rows match. Multiple matches
    /// cannot occur: `id` is the primary key.
    pub fn select_by_id(&self, id: i32) -> (r: Result<Item, RepoError>)
        requires
            self.wf(),
        ensures
            r is Ok <==> contains_id(self@, id as int),
            r matches Ok(item) ==> item@ == lookup(self@, id as int),
            r is Err ==> r == Err::<Item, RepoError>(RepoError::NotFound),
    {
        let n = self.rows.len();
        let mut i: usize = 0;
        while i < n
            invariant
                self.wf(),
                n == self.rows.len(),
                i <= n,
                forall|j: int| 0 <= j < i ==> #[trigger] self@[j].id != id as int,
            decreases n - i,
        {
            if self.rows[i].id == id {
                proof {
                    lemma_row_index_of(self@, i as int);
                }
                return Ok(self.rows[i].clone());
            }
            i = i + 1;
        }
        Err(RepoError::NotFound)
    }

    /// `UPDATE items SET name = $1, description = $2 WHERE id = $3`:
    /// overwrites both text fields of the matching row (id unchanged) and
    /// reports the rows affected; affecting zero rows is success, not an
    /// error.
    pub fn update_by_id(&mut self, id: i32, name: String, description: String) -> (r: u64)
        requires
            old(self).wf(),
        ensures
            final(self).wf(),
            final(self).next() == old(self).next(),
            r == rows_affected(old(self)@, id as int),
            final(self)@ == updated(old(self)@, id as int, name@, description@),
    {
        let n = self.rows.len();
        let mut i: usize = 0;
        while i < n
            invariant
                *self == *old(self),
                old(self).wf(),
                n == self.rows.len(),
                i <= n,
                forall|j: int| 0 <= j < i ==> #[trigger] self@[j].id != id as int,
            decreases n - i,
        {
            if self.rows[i].id == id {
                proof {
                    lemma_row_index_of(self@, i as int);
                }
                self.rows[i] = Item { id, name, description };
                proof {
                    assert(self@ =~= updated(old(self)@, id as int, name@, description@));
                    assert forall|p: int, q: int| 0 <= p < q < self@.len() implies self@[p].id != self@[q].id by {
                        assert(old(self)@[p].id != old(self)@[q].id);
                    }
                    assert forall|p: int| 0 <= p < self@.len() implies 1 <= #[trigger] self@[p].id < self.next() by {
                        assert(1 <= old(self)@[p].id < old(self).next());
                    }
                }
                return 1;
            }
            i = i + 1;
        }
        0
    }

    /// `DELETE FROM items WHERE id = $1`: removes the matching row and
    /// reports the rows affected; deleting an absent id affects zero rows
    /// and is still success. The id counter does not move back, so a
    /// deleted id is never reassigned.
    pub fn delete_by_id(&mut self, id: i32) -> (r: u64)
        requires
            old(self).wf(),
        ensures
            final(self).wf(),
            final(self).next() == old(self).next(),
            r == rows_affected(old(self)@, id as int),
            final(self)@ == deleted(old(self)@, id as int),
    {
        let n = self.rows.len();
        let mut i: usize = 0;
        while i < n
            invariant
                *self == *old(self),
                old(self).wf(),
                n == self.rows.len(),
                i <= n,
                forall|j: int| 0 <= j < i ==> #[trigger] self@[j].id != id as int,
            decreases n - i,
        {
            if self.rows[i].id == id {
                proof {
                    lemma_row_index_of(self@, i as int);
                }
                self.rows.remove(i);
                proof {
                    assert(self@ =~= deleted(old(self)@, id as int));
                    assert forall|p: int, q: int| 0 <= p < q < self@.len() implies self@[p].id != self@[q].id by {
                        let s = deleted(old(self)@, id as int);
                        assert(s[p] == if p < i { old(self)@[p] } else { old(self)@[p + 1] });
                        assert(s[q] == if q < i { old(self)@[q] } else { old(self)@[q + 1] });
                    }
                    assert forall|p: int| 0 <= p < self@.len() implies 1 <= #[trigger] self@[p].id < self.next() by {
                        let s = deleted(old(self)@, id as int);
                        assert(s[p] == if p < i { old(self)@[p] } else { old(self)@[p + 1] });
                    }
                }
                return 1;
            }
            i = i + 1;
        }
        0
    }
}

} // verus!
