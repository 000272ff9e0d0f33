//! What the service is made of: the database it uses, the start-up step,
//! and the endpoints it mounts.
use vstd::prelude::*;

verus! {

/// The start-up step that runs the schema script on the database before the
/// service takes requests.
pub struct DbInit;

impl DbInit {
    /// The name under which the step is registered.
    pub fn name(&self) -> (r: &'static str)
        ensures
            r@ == "Init SQL Script"@,
    {
        "Init SQL Script"
    }

    /// Where the schema script is read from.
    pub fn script_path(&self) -> (r: &'static str)
        ensures
            r@ == "migrations/init.sql"@,
    {
        "migrations/init.sql"
    }
}

/// An HTTP method that an endpoint answers.
#[derive(PartialEq, Eq, Structural, Clone, Copy, Debug)]
pub enum Method {
    Get,
    Post,
    Put,
    Delete,
}

/// The endpoints of the service.
#[derive(PartialEq, Eq, Structural, Clone, Copy, Debug)]
pub enum Endpoint {
    GetItem,
    ListItems,
    CreateOrUpdateItem,
    UpdateItem,
    DeleteItem,
    TestConnection,
}

impl Endpoint {
    pub open spec fn method_spec(self) -> Method {
        match self {
            Endpoint::GetItem => Method::Get,
            Endpoint::ListItems => Method::Get,
            Endpoint::CreateOrUpdateItem => Method::Post,
            Endpoint::UpdateItem => Method::Put,
            Endpoint::DeleteItem => Method::Delete,
            Endpoint::TestConnection => Method::Get,
        }
    }

    pub open spec fn path_spec(self) -> Seq<char> {
        match self {
            Endpoint::GetItem => "/items/<id>"@,
            Endpoint::ListItems => "/items"@,
            Endpoint::CreateOrUpdateItem => "/items"@,
            Endpoint::UpdateItem => "/items/<id>"@,
            Endpoint::DeleteItem => "/items/<id>"@,
            Endpoint::TestConnection => "/test_db"@,
        }
    }

    /// The method the endpoint answers.
    pub fn method(&self) -> (r: Method)
        ensures
            r == self.method_spec(),
    {
        match self {
            Endpoint::GetItem => Method::Get,
            Endpoint::ListItems => Method::Get,
            Endpoint::CreateOrUpdateItem => Method::Post,
            Endpoint::UpdateItem => Method::Put,
            Endpoint::DeleteItem => Method::Delete,
            Endpoint::TestConnection => Method::Get,
        }
    }

    /// The path the endpoint answers, relative to the mount point.
    pub fn path(&self) -> (r: &'static str)
        ensures
            r@ == self.path_spec(),
    {
        match self {
            Endpoint::GetItem => "/items/<id>",
            Endpoint::ListItems => "/items",
            Endpoint::CreateOrUpdateItem => "/items",
            Endpoint::UpdateItem => "/items/<id>",
            Endpoint::DeleteItem => "/items/<id>",
            Endpoint::TestConnection => "/test_db",
        }
    }
}

/// How the service is assembled.
pub struct Service {
    /// The configured database the connection pool is opened on.
    pub database: &'static str,
    /// The start-up step run before requests are taken.
    pub init: DbInit,
    /// Where the endpoints are mounted.
    pub mount: &'static str,
    pub endpoints: Vec<Endpoint>,
}

/// The service: the "shop" database, the schema step, and the five item
/// endpoints plus a connection check, mounted at the root.
pub fn rocket() -> (r: Service)
    ensures
        r.database@ == "shop"@,
        r.mount@ == "/"@,
        r.endpoints@ == seq![
            Endpoint::GetItem,
            Endpoint::ListItems,
            Endpoint::CreateOrUpdateItem,
            Endpoint::UpdateItem,
            Endpoint::DeleteItem,
            Endpoint::TestConnection,
        ],
{
    let endpoints = vec![
        Endpoint::GetItem,
        Endpoint::ListItems,
        Endpoint::CreateOrUpdateItem,
        Endpoint::UpdateItem,
        Endpoint::DeleteItem,
        Endpoint::TestConnection,
    ];
    Service { database: "shop", init: DbInit, mount: "/", endpoints }
}

} // verus!
