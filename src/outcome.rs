//! How each endpoint answers, given what its statement against the store
//! returned.
use vstd::prelude::*;

use crate::item::{
    DbFailure, Item, ItemView, ItemWithoutId, ServiceError, Upserted, STATUS_NO_CONTENT, STATUS_OK,
};

verus! {

/// The row that an atomic upsert statement hands back.
pub struct UpsertRow {
    pub id: i32,
    pub quantity: i32,
    /// Whether the statement inserted the row rather than merging into it.
    pub created: bool,
}

/// Answers a read by id. A missing row and a failed query are one error,
/// a server error: the read endpoints do not tell the two apart.
pub fn read_outcome(found: Result<Option<Item>, DbFailure>) -> (r: Result<Item, ServiceError>)
    ensures
        match found {
            Ok(Some(it)) => r is Ok && r->Ok_0@ == it@,
            _ => r is Err && r->Err_0 == ServiceError::Server,
        },
{
    match found {
        Ok(Some(it)) => Ok(it),
        _ => Err(ServiceError::Server),
    }
}

/// Answers a listing: every row the store returned, or a server error.
pub fn list_outcome(rows: Result<Vec<Item>, DbFailure>) -> (r: Result<Vec<Item>, ServiceError>)
    ensures
        match rows {
            Ok(v) => r is Ok && r->Ok_0@ == v@,
            Err(_) => r is Err && r->Err_0 == ServiceError::Server,
        },
{
    match rows {
        Ok(v) => Ok(v),
        Err(_) => Err(ServiceError::Server),
    }
}

/// Answers an upsert of `req` from the row that the store's atomic
/// insert-or-accumulate statement returned.
pub fn upsert_outcome(req: ItemWithoutId, row: Result<UpsertRow, DbFailure>) -> (r: Result<
    (Upserted, Item),
    ServiceError,
>)
    ensures
        match row {
            Ok(w) => r is Ok && r->Ok_0.0 == (if w.created {
                Upserted::Created
            } else {
                Upserted::Merged
            }) && r->Ok_0.1@ == (ItemView {
                id: w.id as int,
                name: req.name@,
                quantity: w.quantity as int,
            }),
            Err(_) => r is Err && r->Err_0 == ServiceError::Server,
        },
{
    match row {
        Ok(w) => {
            let how = if w.created {
                Upserted::Created
            } else {
                Upserted::Merged
            };
            Ok((how, Item { id: w.id, name: req.name, quantity: w.quantity }))
        },
        Err(_) => Err(ServiceError::Server),
    }
}

/// Answers a replace of row `id` by `req`, given how many rows the
/// update statement changed.
pub fn update_outcome(id: i32, req: ItemWithoutId, affected: Result<u64, DbFailure>) -> (r: Result<
    Item,
    ServiceError,
>)
    ensures
        match affected {
            Ok(n) => if n > 0 {
                r is Ok && r->Ok_0@ == (ItemView {
                    id: id as int,
                    name: req.name@,
                    quantity: req.quantity as int,
                })
            } else {
                r is Err && r->Err_0 == ServiceError::NotFound
            },
            Err(_) => r is Err && r->Err_0 == ServiceError::Server,
        },
{
    match affected {
        Ok(n) => {
            if n > 0 {
                Ok(Item { id, name: req.name, quantity: req.quantity })
            } else {
                Err(ServiceError::NotFound)
            }
        },
        Err(_) => Err(ServiceError::Server),
    }
}

/// Answers a delete, given how many rows the delete statement removed.
pub fn delete_outcome(affected: Result<u64, DbFailure>) -> (r: Result<(), ServiceError>)
    ensures
        match affected {
            Ok(n) => if n > 0 {
                r == Ok::<(), ServiceError>(())
            } else {
                r is Err && r->Err_0 == ServiceError::NotFound
            },
            Err(_) => r is Err && r->Err_0 == ServiceError::Server,
        },
{
    match affected {
        Ok(n) => {
            if n > 0 {
                Ok(())
            } else {
                Err(ServiceError::NotFound)
            }
        },
        Err(_) => Err(ServiceError::Server),
    }
}

/// The status of a read, listing or replace: 200 on success.
pub fn status_of<T>(r: &Result<T, ServiceError>) -> (s: u16)
    ensures
        s == match r {
            Ok(_) => STATUS_OK,
            Err(e) => e.status_spec(),
        },
{
    match r {
        Ok(_) => STATUS_OK,
        Err(e) => e.status(),
    }
}

/// The status of an upsert: 201 for a new row, 200 for a merge.
pub fn upsert_status(r: &Result<(Upserted, Item), ServiceError>) -> (s: u16)
    ensures
        s == match r {
            Ok((how, _)) => how.status_spec(),
            Err(e) => e.status_spec(),
        },
{
    match r {
        Ok((how, _)) => how.status(),
        Err(e) => e.status(),
    }
}

/// The status of a delete: 204 on success.
pub fn delete_status(r: &Result<(), ServiceError>) -> (s: u16)
    ensures
        s == match r {
            Ok(_) => STATUS_NO_CONTENT,
            Err(e) => e.status_spec(),
        },
{
    match r {
        Ok(_) => STATUS_NO_CONTENT,
        Err(e) => e.status(),
    }
}

} // verus!
