use shop::item::{
    DbFailure, Item, ItemWithoutId, ServiceError, Upserted, STATUS_CREATED, STATUS_NOT_FOUND,
    STATUS_NO_CONTENT, STATUS_OK, STATUS_SERVER_ERROR,
};
use shop::outcome::{
    delete_outcome, delete_status, list_outcome, read_outcome, status_of, update_outcome,
    upsert_outcome, upsert_status, UpsertRow,
};
use shop::ItemTable;

fn req(name: &str, quantity: i32) -> ItemWithoutId {
    ItemWithoutId { name: name.to_string(), quantity }
}

fn fields(it: &Item) -> (i32, String, i32) {
    (it.id, it.name.clone(), it.quantity)
}

#[test]
fn test_items() {
    let table = ItemTable::new();
    let response = list_outcome(Ok(table.items()));
    assert_eq!(status_of(&response), STATUS_OK);
}

#[test]
fn test_create_item() {
    let mut table = ItemTable::new();
    let response = table.create_or_update_item(req("Apfel", 5));
    let status = upsert_status(&response);
    assert!(status == STATUS_CREATED || status == STATUS_OK, "Status should be 200 or 201");
}

#[test]
fn read_twice_without_write_agrees() {
    let mut table = ItemTable::new();
    let id = table.create_or_update_item(req("Birne", 4)).unwrap().1.id;
    let first = fields(&table.get_item(id).unwrap());
    let second = fields(&table.get_item(id).unwrap());
    assert_eq!(first, second);
    assert_eq!(first, (id, "Birne".to_string(), 4));
}

#[test]
fn upsert_accumulates_into_one_row() {
    let mut table = ItemTable::new();
    let first = table.create_or_update_item(req("Apfel", 5));
    assert_eq!(upsert_status(&first), STATUS_CREATED);
    let second = table.create_or_update_item(req("Apfel", 3));
    assert_eq!(upsert_status(&second), STATUS_OK);
    let (how, it) = second.unwrap();
    assert_eq!(how, Upserted::Merged);
    assert_eq!(it.quantity, 8);
    let rows = table.items();
    assert_eq!(rows.len(), 1);
    assert_eq!(fields(&rows[0]), (first.unwrap().1.id, "Apfel".to_string(), 8));
}

#[test]
fn upsert_of_new_name_creates_fresh_row() {
    let mut table = ItemTable::new();
    let a = table.create_or_update_item(req("Apfel", 5)).unwrap().1;
    let (how, b) = table.create_or_update_item(req("Kiwi", 7)).unwrap();
    assert_eq!(how, Upserted::Created);
    assert_ne!(a.id, b.id);
    assert_eq!(fields(&table.get_item(b.id).unwrap()), (b.id, "Kiwi".to_string(), 7));
}

#[test]
fn upsert_with_zero_delta_still_creates() {
    let mut table = ItemTable::new();
    let (how, it) = table.create_or_update_item(req("Leer", 0)).unwrap();
    assert_eq!(how, Upserted::Created);
    assert_eq!(it.quantity, 0);
    assert_eq!(table.items().len(), 1);
}

#[test]
fn upsert_names_are_case_sensitive() {
    let mut table = ItemTable::new();
    table.create_or_update_item(req("Apfel", 1)).unwrap();
    let (how, _) = table.create_or_update_item(req("apfel", 1)).unwrap();
    assert_eq!(how, Upserted::Created);
    assert_eq!(table.items().len(), 2);
}

#[test]
fn repeated_upserts_lose_no_increment() {
    let mut table = ItemTable::new();
    for _ in 0..50 {
        table.create_or_update_item(req("Nuss", 1)).unwrap();
    }
    let rows = table.items();
    assert_eq!(rows.len(), 1);
    assert_eq!(rows[0].quantity, 50);
}

#[test]
fn upsert_overflow_is_server_error_and_changes_nothing() {
    let mut table = ItemTable::new();
    table.create_or_update_item(req("Sand", i32::MAX)).unwrap();
    let r = table.create_or_update_item(req("Sand", 1));
    assert_eq!(r.unwrap_err(), ServiceError::Server);
    assert_eq!(upsert_status(&table.create_or_update_item(req("Sand", 1))), STATUS_SERVER_ERROR);
    assert_eq!(table.items()[0].quantity, i32::MAX);
}

#[test]
fn upsert_accepts_negative_quantities() {
    let mut table = ItemTable::new();
    table.create_or_update_item(req("Salz", 2)).unwrap();
    let (_, it) = table.create_or_update_item(req("Salz", -5)).unwrap();
    assert_eq!(it.quantity, -3);
}

#[test]
fn replace_overwrites_without_accumulating() {
    let mut table = ItemTable::new();
    let id = table.create_or_update_item(req("Apfel", 5)).unwrap().1.id;
    let r = table.update_item(id, req("X", 0));
    assert_eq!(status_of(&r), STATUS_OK);
    assert_eq!(fields(&r.unwrap()), (id, "X".to_string(), 0));
    assert_eq!(fields(&table.get_item(id).unwrap()), (id, "X".to_string(), 0));
}

#[test]
fn replace_of_missing_id_is_not_found() {
    let mut table = ItemTable::new();
    let r = table.update_item(42, req("X", 0));
    assert_eq!(status_of(&r), STATUS_NOT_FOUND);
    assert_eq!(r.unwrap_err(), ServiceError::NotFound);
    assert_eq!(table.items().len(), 0);
}

#[test]
fn replace_with_name_of_other_row_is_server_error() {
    let mut table = ItemTable::new();
    let a = table.create_or_update_item(req("Apfel", 5)).unwrap().1.id;
    table.create_or_update_item(req("Birne", 2)).unwrap();
    let r = table.update_item(a, req("Birne", 9));
    assert_eq!(r.unwrap_err(), ServiceError::Server);
    assert_eq!(fields(&table.get_item(a).unwrap()), (a, "Apfel".to_string(), 5));
}

#[test]
fn delete_then_get_then_delete_again() {
    let mut table = ItemTable::new();
    let id = table.create_or_update_item(req("Apfel", 5)).unwrap().1.id;
    let r = table.delete_item(id);
    assert_eq!(delete_status(&r), STATUS_NO_CONTENT);
    let g = table.get_item(id);
    assert_eq!(g.as_ref().err(), Some(&ServiceError::Server));
    let again = table.delete_item(id);
    assert_eq!(delete_status(&again), STATUS_NOT_FOUND);
}

#[test]
fn get_of_missing_id_is_server_error() {
    let table = ItemTable::new();
    assert_eq!(status_of(&table.get_item(1)), STATUS_SERVER_ERROR);
}

#[test]
fn ids_are_not_reused_after_delete() {
    let mut table = ItemTable::new();
    let a = table.create_or_update_item(req("A", 1)).unwrap().1.id;
    table.delete_item(a).unwrap();
    let b = table.create_or_update_item(req("A", 1)).unwrap().1.id;
    assert_ne!(a, b);
    assert_eq!(a, 1);
    assert_eq!(b, 2);
}

#[test]
fn items_lists_rows_in_storage_order() {
    let mut table = ItemTable::new();
    table.create_or_update_item(req("A", 1)).unwrap();
    table.create_or_update_item(req("B", 2)).unwrap();
    table.create_or_update_item(req("A", 3)).unwrap();
    let rows: Vec<(i32, String, i32)> = table.items().iter().map(fields).collect();
    assert_eq!(rows, vec![(1, "A".to_string(), 4), (2, "B".to_string(), 2)]);
}

#[test]
fn read_outcome_maps_store_results() {
    let it = Item { id: 3, name: "Apfel".to_string(), quantity: 5 };
    assert_eq!(fields(&read_outcome(Ok(Some(it))).unwrap()), (3, "Apfel".to_string(), 5));
    assert_eq!(read_outcome(Ok(None)).unwrap_err(), ServiceError::Server);
    assert_eq!(read_outcome(Err(DbFailure)).unwrap_err(), ServiceError::Server);
}

#[test]
fn list_outcome_maps_store_results() {
    let rows = vec![Item { id: 1, name: "A".to_string(), quantity: 2 }];
    assert_eq!(list_outcome(Ok(rows)).unwrap().len(), 1);
    let failed = list_outcome(Err(DbFailure));
    assert_eq!(status_of(&failed), STATUS_SERVER_ERROR);
}

#[test]
fn upsert_outcome_maps_store_results() {
    let created = upsert_outcome(req("Apfel", 5), Ok(UpsertRow { id: 7, quantity: 5, created: true }));
    assert_eq!(upsert_status(&created), STATUS_CREATED);
    assert_eq!(fields(&created.unwrap().1), (7, "Apfel".to_string(), 5));
    let merged = upsert_outcome(req("Apfel", 3), Ok(UpsertRow { id: 7, quantity: 8, created: false }));
    assert_eq!(upsert_status(&merged), STATUS_OK);
    assert_eq!(fields(&merged.unwrap().1), (7, "Apfel".to_string(), 8));
    let failed = upsert_outcome(req("Apfel", 3), Err(DbFailure));
    assert_eq!(upsert_status(&failed), STATUS_SERVER_ERROR);
}

#[test]
fn update_outcome_maps_store_results() {
    let done = update_outcome(4, req("X", 0), Ok(1));
    assert_eq!(fields(&done.unwrap()), (4, "X".to_string(), 0));
    assert_eq!(update_outcome(4, req("X", 0), Ok(0)).unwrap_err(), ServiceError::NotFound);
    assert_eq!(update_outcome(4, req("X", 0), Err(DbFailure)).unwrap_err(), ServiceError::Server);
}

#[test]
fn delete_outcome_maps_store_results() {
    assert_eq!(delete_status(&delete_outcome(Ok(2))), STATUS_NO_CONTENT);
    assert_eq!(delete_status(&delete_outcome(Ok(0))), STATUS_NOT_FOUND);
    assert_eq!(delete_status(&delete_outcome(Err(DbFailure))), STATUS_SERVER_ERROR);
}
