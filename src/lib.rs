//! An item store service: items with a store-assigned id, a name and a
//! quantity, read, listed, upserted by name, replaced and deleted by id.
use vstd::prelude::*;

pub mod item;
pub mod laws;
pub mod outcome;
pub mod service;
pub mod table;

pub use item::{DbFailure, Item, ItemWithoutId, ServiceError, Upserted};
pub use service::{rocket, DbInit};
pub use table::ItemTable;

verus! {

} // verus!
