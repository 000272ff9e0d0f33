//! Properties of the item table that hold across several operations.
use vstd::prelude::*;

use crate::item::{ItemView, ServiceError, Upserted};
use crate::table::{in_i32, TableView};

verus! {

/// In a well-formed table a name that is present is carried by exactly one row.
pub proof fn lemma_name_unique(t: TableView, name: Seq<char>)
    requires
        t.wf(),
        t.has_name(name),
    ensures
        t.rows_named(name) == set![t.index_of_name(name)],
        t.rows[t.index_of_name(name)].name == name,
{
    let i = t.index_of_name(name);
    assert(t.rows[i].name == name);
    assert(t.rows_named(name) =~= set![i]);
}

/// The row of a present id is the one row with that id.
proof fn lemma_id_index(t: TableView, id: int, i: int)
    requires
        t.wf(),
        0 <= i < t.rows.len(),
        t.rows[i].id == id,
    ensures
        t.has_id(id),
        t.index_of_id(id) == i,
{
    assert(t.has_id(id));
    let j = t.index_of_id(id);
    assert(t.rows[j].id == id);
}

/// An upsert whose delta fits the column keeps the table well formed.
pub proof fn lemma_upsert_wf(t: TableView, name: Seq<char>, delta: int)
    requires
        t.wf(),
        in_i32(delta),
    ensures
        t.upsert(name, delta).1.wf(),
{
    if t.has_name(name) {
        let i = t.index_of_name(name);
        assert(t.rows[i].name == name);
    }
}

/// A replace with a quantity that fits the column keeps the table well formed.
pub proof fn lemma_replace_wf(t: TableView, id: int, name: Seq<char>, quantity: int)
    requires
        t.wf(),
        in_i32(quantity),
    ensures
        t.replace(id, name, quantity).1.wf(),
{
    if t.has_id(id) {
        let i = t.index_of_id(id);
        assert(t.rows[i].id == id);
        if t.has_name(name) {
            let j = t.index_of_name(name);
            assert(t.rows[j].name == name);
        }
    }
}

/// A delete keeps the table well formed.
pub proof fn lemma_delete_wf(t: TableView, id: int)
    requires
        t.wf(),
    ensures
        t.delete(id).1.wf(),
{
    if t.has_id(id) {
        let i = t.index_of_id(id);
        assert(t.rows[i].id == id);
        let u = t.delete(id).1;
        assert forall|a: int, b: int|
            0 <= a < u.rows.len() && 0 <= b < u.rows.len() && a != b implies #[trigger] u.rows[a].name
            != #[trigger] u.rows[b].name && u.rows[a].id != u.rows[b].id by {
            let a0 = if a < i { a } else { a + 1 };
            let b0 = if b < i { b } else { b + 1 };
            assert(u.rows[a] == t.rows[a0]);
            assert(u.rows[b] == t.rows[b0]);
        }
    }
}

/// Upserting a name that no row has inserts a row with a fresh id, answers
/// Created, and a later read of that id returns the same name and quantity.
pub proof fn lemma_upsert_creates(t: TableView, name: Seq<char>, delta: int)
    requires
        t.wf(),
        in_i32(delta),
        !t.has_name(name),
        t.next_id < i32::MAX,
    ensures
        ({
            let (r, u) = t.upsert(name, delta);
            &&& r is Ok
            &&& r->Ok_0.0 == Upserted::Created
            &&& !t.has_id(r->Ok_0.1.id)
            &&& r->Ok_0.1.name == name
            &&& r->Ok_0.1.quantity == delta
            &&& u.get(r->Ok_0.1.id) == Ok::<ItemView, ServiceError>(r->Ok_0.1)
        }),
{
    let (r, u) = t.upsert(name, delta);
    lemma_upsert_wf(t, name, delta);
    let id = t.next_id;
    lemma_id_index(u, id, t.rows.len() as int);
    if t.has_id(id) {
        let i = t.index_of_id(id);
        assert(t.rows[i].id == id);
    }
}

/// Two upserts of one name, the first on a table without that name, leave
/// one row of that name whose quantity is the sum of the two deltas, and
/// the second answers Merged with that row.
pub proof fn lemma_upsert_accumulates(t: TableView, name: Seq<char>, a: int, b: int)
    requires
        t.wf(),
        in_i32(a),
        in_i32(b),
        in_i32(a + b),
        !t.has_name(name),
        t.next_id < i32::MAX,
    ensures
        ({
            let (r1, u1) = t.upsert(name, a);
            let (r2, u2) = u1.upsert(name, b);
            &&& r1 is Ok
            &&& r2 is Ok
            &&& r2->Ok_0.0 == Upserted::Merged
            &&& r2->Ok_0.1.id == r1->Ok_0.1.id
            &&& r2->Ok_0.1.quantity == a + b
            &&& u2.wf()
            &&& u2.rows_named(name).len() == 1
            &&& u2.rows[u2.index_of_name(name)].quantity == a + b
        }),
{
    let u1 = t.upsert(name, a).1;
    lemma_upsert_wf(t, name, a);
    let n = t.rows.len() as int;
    assert(u1.rows[n].name == name);
    lemma_name_unique(u1, name);
    let u2 = u1.upsert(name, b).1;
    lemma_upsert_wf(u1, name, b);
    assert(u2.rows[n].name == name);
    lemma_name_unique(u2, name);
}

/// The table after `n` upserts of `name`, each adding one.
pub open spec fn upsert_ones(t: TableView, name: Seq<char>, n: nat) -> TableView
    decreases n,
{
    if n == 0 {
        t
    } else {
        upsert_ones(t, name, (n - 1) as nat).upsert(name, 1).1
    }
}

/// Concurrent upserts run as some sequence of atomic steps. So `n` upserts
/// of one name, each adding one, starting where no row has that name, leave
/// exactly one row of that name, with quantity `n`: no increment is lost
/// and no second row appears.
pub proof fn lemma_no_lost_updates(t: TableView, name: Seq<char>, n: nat)
    requires
        t.wf(),
        !t.has_name(name),
        t.next_id < i32::MAX,
        1 <= n <= i32::MAX,
    ensures
        ({
            let u = upsert_ones(t, name, n);
            &&& u.wf()
            &&& u.has_name(name)
            &&& u.rows_named(name).len() == 1
            &&& u.rows[u.index_of_name(name)].quantity == n
        }),
    decreases n,
{
    if n == 1 {
        let u = upsert_ones(t, name, 1);
        assert(upsert_ones(t, name, 0) == t);
        lemma_upsert_wf(t, name, 1);
        let k = t.rows.len() as int;
        assert(u.rows[k].name == name);
        lemma_name_unique(u, name);
    } else {
        lemma_no_lost_updates(t, name, (n - 1) as nat);
        let p = upsert_ones(t, name, (n - 1) as nat);
        lemma_upsert_wf(p, name, 1);
        let i = p.index_of_name(name);
        lemma_name_unique(p, name);
        let u = p.upsert(name, 1).1;
        assert(u.rows[i].name == name);
        lemma_name_unique(u, name);
    }
}

/// A replace of a present row sets its name and quantity to the given
/// values, whatever they were before, as long as no other row has the
/// name; a replace of an absent id is not found and changes nothing.
pub proof fn lemma_replace_overwrites(t: TableView, id: int, name: Seq<char>, quantity: int)
    requires
        t.wf(),
        in_i32(quantity),
        t.has_name(name) ==> t.rows[t.index_of_name(name)].id == id,
    ensures
        t.has_id(id) ==> ({
            let (r, u) = t.replace(id, name, quantity);
            &&& r == Ok::<ItemView, ServiceError>(ItemView { id, name, quantity })
            &&& u.get(id) == r
        }),
        !t.has_id(id) ==> t.replace(id, name, quantity) == (
            Err::<ItemView, ServiceError>(ServiceError::NotFound),
            t,
        ),
{
    if t.has_id(id) {
        let i = t.index_of_id(id);
        assert(t.rows[i].id == id);
        if t.has_name(name) {
            let j = t.index_of_name(name);
            assert(t.rows[j].name == name);
            lemma_id_index(t, id, j);
        }
        lemma_replace_wf(t, id, name, quantity);
        let u = t.replace(id, name, quantity).1;
        lemma_id_index(u, id, i);
    }
}

/// Deleting a present row succeeds; afterwards a read of its id fails and
/// a second delete is not found.
pub proof fn lemma_delete_then_get(t: TableView, id: int)
    requires
        t.wf(),
        t.has_id(id),
    ensures
        ({
            let (r, u) = t.delete(id);
            &&& r == Ok::<(), ServiceError>(())
            &&& !u.has_id(id)
            &&& u.get(id) == Err::<ItemView, ServiceError>(ServiceError::Server)
            &&& u.delete(id).0 == Err::<(), ServiceError>(ServiceError::NotFound)
        }),
{
    let i = t.index_of_id(id);
    assert(t.rows[i].id == id);
    let u = t.delete(id).1;
    if u.has_id(id) {
        let k = u.index_of_id(id);
        assert(u.rows[k].id == id);
        let k0 = if k < i { k } else { k + 1 };
        assert(u.rows[k] == t.rows[k0]);
    }
}

} // verus!
