use vstd::prelude::*;

verus! {

/// HTTP status of a successful read, merge or replace.
pub const STATUS_OK: u16 = 200;

/// HTTP status of an upsert that inserted a new row.
pub const STATUS_CREATED: u16 = 201;

/// HTTP status of a successful delete (no body).
pub const STATUS_NO_CONTENT: u16 = 204;

/// HTTP status when the addressed row does not exist.
pub const STATUS_NOT_FOUND: u16 = 404;

/// HTTP status of a store failure.
pub const STATUS_SERVER_ERROR: u16 = 500;

/// A persisted item: a store-assigned id, a name and a quantity.
#[derive(Debug)]
pub struct Item {
    pub id: i32,
    pub name: String,
    pub quantity: i32,
}

/// The mathematical value of an item.
pub struct ItemView {
    pub id: int,
    pub name: Seq<char>,
    pub quantity: int,
}

impl View for Item {
    type V = ItemView;

    open spec fn view(&self) -> ItemView {
        ItemView { id: self.id as int, name: self.name@, quantity: self.quantity as int }
    }
}

impl Item {
    /// A copy of the item.
    pub fn duplicate(&self) -> (r: Item)
        ensures
            r@ == self@,
    {
        Item { id: self.id, name: self.name.clone(), quantity: self.quantity }
    }
}

/// A request body: the name and quantity of an item, without its id.
#[derive(Debug)]
pub struct ItemWithoutId {
    pub name: String,
    pub quantity: i32,
}

/// The failures that a request can end in.
#[derive(PartialEq, Eq, Structural, Clone, Copy, Debug)]
pub enum ServiceError {
    /// No row has the requested id.
    NotFound,
    /// The store failed, or a read found nothing to return.
    Server,
}

impl ServiceError {
    pub open spec fn status_spec(self) -> u16 {
        match self {
            ServiceError::NotFound => STATUS_NOT_FOUND,
            ServiceError::Server => STATUS_SERVER_ERROR,
        }
    }

    /// The HTTP status that answers this failure.
    pub fn status(&self) -> (r: u16)
        ensures
            r == self.status_spec(),
    {
        match self {
            ServiceError::NotFound => STATUS_NOT_FOUND,
            ServiceError::Server => STATUS_SERVER_ERROR,
        }
    }
}

/// What an upsert did to the store.
#[derive(PartialEq, Eq, Structural, Clone, Copy, Debug)]
pub enum Upserted {
    /// A new row was inserted.
    Created,
    /// The quantity was added to the row that has the name.
    Merged,
}

impl Upserted {
    pub open spec fn status_spec(self) -> u16 {
        match self {
            Upserted::Created => STATUS_CREATED,
            Upserted::Merged => STATUS_OK,
        }
    }

    /// The HTTP status that answers a successful upsert.
    pub fn status(&self) -> (r: u16)
        ensures
            r == self.status_spec(),
    {
        match self {
            Upserted::Created => STATUS_CREATED,
            Upserted::Merged => STATUS_OK,
        }
    }
}

/// A statement against the store failed (I/O, a constraint, a range).
#[derive(PartialEq, Eq, Structural, Clone, Copy, Debug)]
pub struct DbFailure;

} // verus!
