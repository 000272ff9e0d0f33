//! The item table: rows keyed by a store-assigned id, with at most one row
//! per name, and the five operations of the service on it. Each operation
//! is one atomic step on the table, so concurrent requests run as some
//! sequence of these steps.
use vstd::prelude::*;

use crate::item::{DbFailure, Item, ItemView, ItemWithoutId, ServiceError, Upserted};
use crate::outcome::{delete_outcome, read_outcome, update_outcome, upsert_outcome, UpsertRow};

verus! {

/// The mathematical value of a table: its rows in storage order and the
/// id that the next inserted row receives.
pub struct TableView {
    pub rows: Seq<ItemView>,
    pub next_id: int,
}

pub open spec fn in_i32(x: int) -> bool {
    i32::MIN <= x <= i32::MAX
}

impl TableView {
    /// Ids are positive, below `next_id` and distinct; names are distinct;
    /// quantities fit the column.
    pub open spec fn wf(self) -> bool {
        &&& 1 <= self.next_id <= i32::MAX
        &&& forall|i: int|
            0 <= i < self.rows.len() ==> 1 <= #[trigger] self.rows[i].id < self.next_id
                && in_i32(self.rows[i].quantity)
        &&& forall|i: int, j: int|
            0 <= i < self.rows.len() && 0 <= j < self.rows.len() && i != j ==> #[trigger] self.rows[i].id
                != #[trigger] self.rows[j].id
        &&& forall|i: int, j: int|
            0 <= i < self.rows.len() && 0 <= j < self.rows.len() && i != j ==> #[trigger] self.rows[i].name
                != #[trigger] self.rows[j].name
    }

    pub open spec fn has_id(self, id: int) -> bool {
        exists|i: int| 0 <= i < self.rows.len() && #[trigger] self.rows[i].id == id
    }

    pub open spec fn index_of_id(self, id: int) -> int {
        choose|i: int| 0 <= i < self.rows.len() && #[trigger] self.rows[i].id == id
    }

    pub open spec fn has_name(self, name: Seq<char>) -> bool {
        exists|i: int| 0 <= i < self.rows.len() && #[trigger] self.rows[i].name == name
    }

    pub open spec fn index_of_name(self, name: Seq<char>) -> int {
        choose|i: int| 0 <= i < self.rows.len() && #[trigger] self.rows[i].name == name
    }

    /// The indices of the rows that carry `name`.
    pub open spec fn rows_named(self, name: Seq<char>) -> Set<int> {
        Set::new(|i: int| 0 <= i < self.rows.len() && self.rows[i].name == name)
    }

    /// Reading row `id`: the row, or a server error where there is none.
    pub open spec fn get(self, id: int) -> Result<ItemView, ServiceError> {
        if self.has_id(id) {
            Ok(self.rows[self.index_of_id(id)])
        } else {
            Err(ServiceError::Server)
        }
    }

    /// Upserting `name` with `delta`: the answer and the table after it.
    /// The row with that name gets `delta` added to its quantity; where
    /// there is none, a row is inserted with the next id. A sum outside the
    /// column's range, or ids run out, is a server error that changes nothing.
    pub open spec fn upsert(self, name: Seq<char>, delta: int) -> (
        Result<(Upserted, ItemView), ServiceError>,
        TableView,
    ) {
        if self.has_name(name) {
            let i = self.index_of_name(name);
            let row = self.rows[i];
            let q = row.quantity + delta;
            if in_i32(q) {
                let merged = ItemView { id: row.id, name: row.name, quantity: q };
                (
                    Ok((Upserted::Merged, merged)),
                    TableView { rows: self.rows.update(i, merged), next_id: self.next_id },
                )
            } else {
                (Err(ServiceError::Server), self)
            }
        } else if self.next_id < i32::MAX {
            let created = ItemView { id: self.next_id, name, quantity: delta };
            (
                Ok((Upserted::Created, created)),
                TableView { rows: self.rows.push(created), next_id: self.next_id + 1 },
            )
        } else {
            (Err(ServiceError::Server), self)
        }
    }

    /// Replacing row `id` by `name` and `quantity`: not found where there is
    /// no such row; a server error where another row already has `name`
    /// (names are unique in the store).
    pub open spec fn replace(self, id: int, name: Seq<char>, quantity: int) -> (
        Result<ItemView, ServiceError>,
        TableView,
    ) {
        if !self.has_id(id) {
            (Err(ServiceError::NotFound), self)
        } else if self.has_name(name) && self.index_of_name(name) != self.index_of_id(id) {
            (Err(ServiceError::Server), self)
        } else {
            let row = ItemView { id, name, quantity };
            (
                Ok(row),
                TableView {
                    rows: self.rows.update(self.index_of_id(id), row),
                    next_id: self.next_id,
                },
            )
        }
    }

    /// Deleting row `id`: the row leaves, or not found where there is none.
    pub open spec fn delete(self, id: int) -> (Result<(), ServiceError>, TableView) {
        if self.has_id(id) {
            (
                Ok(()),
                TableView { rows: self.rows.remove(self.index_of_id(id)), next_id: self.next_id },
            )
        } else {
            (Err(ServiceError::NotFound), self)
        }
    }
}

/// The values of a sequence of items.
pub open spec fn views(s: Seq<Item>) -> Seq<ItemView> {
    s.map_values(|it: Item| it@)
}

proof fn lemma_views_update(s: Seq<Item>, i: int, x: Item)
    requires
        0 <= i < s.len(),
    ensures
        views(s.update(i, x)) == views(s).update(i, x@),
{
    assert(views(s.update(i, x)) =~= views(s).update(i, x@));
}

proof fn lemma_views_push(s: Seq<Item>, x: Item)
    ensures
        views(s.push(x)) == views(s).push(x@),
{
    assert(views(s.push(x)) =~= views(s).push(x@));
}

proof fn lemma_views_remove(s: Seq<Item>, i: int)
    requires
        0 <= i < s.len(),
    ensures
        views(s.remove(i)) == views(s).remove(i),
{
    assert(views(s.remove(i)) =~= views(s).remove(i));
}

pub open spec fn item_result(r: Result<Item, ServiceError>) -> Result<ItemView, ServiceError> {
    match r {
        Ok(it) => Ok(it@),
        Err(e) => Err(e),
    }
}

pub open spec fn upsert_result(r: Result<(Upserted, Item), ServiceError>) -> Result<
    (Upserted, ItemView),
    ServiceError,
> {
    match r {
        Ok((how, it)) => Ok((how, it@)),
        Err(e) => Err(e),
    }
}

/// An item table held in memory.
pub struct ItemTable {
    rows: Vec<Item>,
    next_id: i32,
}

impl View for ItemTable {
    type V = TableView;

    closed spec fn view(&self) -> TableView {
        TableView { rows: views(self.rows@), next_id: self.next_id as int }
    }
}

impl ItemTable {
    pub open spec fn wf(&self) -> bool {
        self@.wf()
    }

    /// An empty table whose first row will get id 1.
    pub fn new() -> (r: ItemTable)
        ensures
            r.wf(),
            r@.rows.len() == 0,
            r@.next_id == 1,
    {
        let r = ItemTable { rows: Vec::new(), next_id: 1 };
        assert(r@.rows =~= Seq::<ItemView>::empty());
        r
    }

    fn find_id(&self, id: i32) -> (r: Option<usize>)
        requires
            self.wf(),
        ensures
            match r {
                Some(i) => i < self@.rows.len() && i == self@.index_of_id(id as int)
                    && self@.has_id(id as int),
                None => !self@.has_id(id as int),
            },
    {
        let mut i: usize = 0;
        while i < self.rows.len()
            invariant
                self.wf(),
                i <= self.rows@.len(),
                forall|k: int| 0 <= k < i ==> #[trigger] self@.rows[k].id != id as int,
            decreases self.rows.len() - i,
        {
            assert(self@.rows[i as int] == self.rows@[i as int]@);
            if self.rows[i].id == id {
                assert(self@.rows[i as int].id == id as int);
                let ghost j = self@.index_of_id(id as int);
                assert(self@.rows[j].id == id as int);
                return Some(i);
            }
            i += 1;
        }
        None
    }

    fn find_name(&self, name: &String) -> (r: Option<usize>)
        requires
            self.wf(),
        ensures
            match r {
                Some(i) => i < self@.rows.len() && i == self@.index_of_name(name@)
                    && self@.has_name(name@),
                None => !self@.has_name(name@),
            },
    {
        let mut i: usize = 0;
        while i < self.rows.len()
            invariant
                self.wf(),
                i <= self.rows@.len(),
                forall|k: int| 0 <= k < i ==> #[trigger] self@.rows[k].name != name@,
            decreases self.rows.len() - i,
        {
            assert(self@.rows[i as int] == self.rows@[i as int]@);
            if self.rows[i].name == *name {
                assert(self@.rows[i as int].name == name@);
                let ghost j = self@.index_of_name(name@);
                assert(self@.rows[j].name == name@);
                return Some(i);
            }
            i += 1;
        }
        None
    }

    /// The row with id `id`. A missing row is reported as a server error,
    /// the same as a failed lookup. The table is left as it is, so two reads
    /// with no write between them agree.
    pub fn get_item(&self, id: i32) -> (r: Result<Item, ServiceError>)
        requires
            self.wf(),
        ensures
            item_result(r) == self@.get(id as int),
    {
        let found = match self.find_id(id) {
            Some(i) => Some(self.rows[i].duplicate()),
            None => None,
        };
        read_outcome(Ok(found))
    }

    /// Every row, in storage order.
    pub fn items(&self) -> (r: Vec<Item>)
        requires
            self.wf(),
        ensures
            views(r@) == self@.rows,
    {
        let mut out: Vec<Item> = Vec::new();
        let mut i: usize = 0;
        while i < self.rows.len()
            invariant
                i <= self.rows@.len(),
                out@.len() == i,
                views(out@) == self@.rows.subrange(0, i as int),
            decreases self.rows.len() - i,
        {
            let it = self.rows[i].duplicate();
            assert(self@.rows[i as int] == it@);
            let ghost before = out@;
            out.push(it);
            assert(out@ == before.push(it));
            assert forall|k: int| 0 <= k <= i implies #[trigger] views(out@)[k] == self@.rows[k] by {
                if k < i {
                    assert(views(before)[k] == self@.rows.subrange(0, i as int)[k]);
                    assert(views(before)[k] == before[k]@);
                }
                assert(views(out@)[k] == out@[k]@);
            }
            i += 1;
            assert(views(out@) =~= self@.rows.subrange(0, i as int));
        }
        assert(self@.rows.subrange(0, i as int) =~= self@.rows);
        out
    }

    /// Upserts `req`: adds its quantity to the row with its name, or inserts
    /// a row with the next id where no row has that name. The whole step is
    /// one atomic change of the table.
    pub fn create_or_update_item(&mut self, req: ItemWithoutId) -> (r: Result<
        (Upserted, Item),
        ServiceError,
    >)
        requires
            old(self).wf(),
        ensures
            final(self).wf(),
            (upsert_result(r), final(self)@) == old(self)@.upsert(req.name@, req.quantity as int),
    {
        let ghost before = self@;
        let row: Result<UpsertRow, DbFailure> = match self.find_name(&req.name) {
            Some(i) => {
                let id = self.rows[i].id;
                let sum: i64 = self.rows[i].quantity as i64 + req.quantity as i64;
                if sum < i32::MIN as i64 || sum > i32::MAX as i64 {
                    Err(DbFailure)
                } else {
                    let merged = Item { id, name: req.name.clone(), quantity: sum as i32 };
                    proof {
                        lemma_views_update(self.rows@, i as int, merged);
                    }
                    self.rows.set(i, merged);
                    assert(self@.rows == before.rows.update(i as int, merged@));
                    Ok(UpsertRow { id, quantity: sum as i32, created: false })
                }
            },
            None => {
                if self.next_id < i32::MAX {
                    let id = self.next_id;
                    let created = Item { id, name: req.name.clone(), quantity: req.quantity };
                    proof {
                        lemma_views_push(self.rows@, created);
                    }
                    self.rows.push(created);
                    self.next_id = id + 1;
                    assert(self@.rows == before.rows.push(created@));
                    Ok(UpsertRow { id, quantity: req.quantity, created: true })
                } else {
                    Err(DbFailure)
                }
            },
        };
        upsert_outcome(req, row)
    }

    /// Replaces the name and quantity of row `id` by those of `req`. Where
    /// no row has that id: not found. Where another row already has the
    /// name: a server error, as the store's unique constraint on names
    /// reports it. Neither failure changes the table.
    pub fn update_item(&mut self, id: i32, req: ItemWithoutId) -> (r: Result<Item, ServiceError>)
        requires
            old(self).wf(),
        ensures
            final(self).wf(),
            (item_result(r), final(self)@) == old(self)@.replace(
                id as int,
                req.name@,
                req.quantity as int,
            ),
    {
        let ghost before = self@;
        let affected: Result<u64, DbFailure> = match self.find_id(id) {
            None => Ok(0),
            Some(i) => {
                match self.find_name(&req.name) {
                    Some(j) if j != i => Err(DbFailure),
                    _ => {
                        let row = Item { id, name: req.name.clone(), quantity: req.quantity };
                        proof {
                            lemma_views_update(self.rows@, i as int, row);
                        }
                        self.rows.set(i, row);
                        assert(self@.rows == before.rows.update(i as int, row@));
                        Ok(1)
                    },
                }
            },
        };
        update_outcome(id, req, affected)
    }

    /// Deletes row `id`; not found where no row has that id.
    pub fn delete_item(&mut self, id: i32) -> (r: Result<(), ServiceError>)
        requires
            old(self).wf(),
        ensures
            final(self).wf(),
            (r, final(self)@) == old(self)@.delete(id as int),
    {
        let ghost before = self@;
        let affected: Result<u64, DbFailure> = match self.find_id(id) {
            None => Ok(0),
            Some(i) => {
                proof {
                    lemma_views_remove(self.rows@, i as int);
                }
                self.rows.remove(i);
                assert(self@.rows == before.rows.remove(i as int));
                Ok(1)
            },
        };
        delete_outcome(affected)
    }
}

} // verus!
