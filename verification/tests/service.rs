use item_service::errors::{RepoError, StoreFault};
use item_service::models::CreateItemRequest;
use item_service::router::{
    create_response, delete_response, get_response, handle_create, handle_delete, handle_get,
    handle_list, handle_update, list_response, update_response, validate, Body, Response,
    STATUS_INTERNAL_ERROR, STATUS_NOT_FOUND, STATUS_OK,
};
use item_service::table::ItemTable;

fn request(name: &str, description: &str) -> CreateItemRequest {
    CreateItemRequest { name: name.to_string(), description: description.to_string() }
}

fn created_id(response: &Response) -> i32 {
    match &response.body {
        Body::Item(item) => item.id,
        _ => panic!("create response carries no item"),
    }
}

#[test]
fn create_then_fetch_round_trip() {
    let mut table = ItemTable::new();
    let r = handle_create(&mut table, request("lamp", "a desk lamp"));
    assert_eq!(r.status, STATUS_OK);
    let id = created_id(&r);
    let fetched = handle_get(&table, id);
    assert_eq!(fetched.status, STATUS_OK);
    match fetched.body {
        Body::Item(item) => {
            assert_eq!(item.id, id);
            assert_eq!(item.name, "lamp");
            assert_eq!(item.description, "a desk lamp");
        }
        _ => panic!("fetch returned no item"),
    }
}

#[test]
fn list_contains_all_created() {
    let mut table = ItemTable::new();
    let a = created_id(&handle_create(&mut table, request("a", "first")));
    let b = created_id(&handle_create(&mut table, request("b", "second")));
    let c = created_id(&handle_create(&mut table, request("c", "third")));
    let listed = handle_list(&table);
    assert_eq!(listed.status, STATUS_OK);
    let items = match listed.body {
        Body::Items(items) => items,
        _ => panic!("list returned no item array"),
    };
    assert_eq!(items.len(), 3);
    for (id, name, description) in [(a, "a", "first"), (b, "b", "second"), (c, "c", "third")] {
        let found = items.iter().find(|it| it.id == id).expect("created item missing from list");
        assert_eq!(found.name, name);
        assert_eq!(found.description, description);
    }
}

#[test]
fn fetch_missing_id_is_not_found() {
    let mut table = ItemTable::new();
    let empty_fetch = handle_get(&table, 1);
    assert_eq!(empty_fetch.status, STATUS_NOT_FOUND);
    assert!(matches!(empty_fetch.body, Body::Empty));
    let id = created_id(&handle_create(&mut table, request("only", "row")));
    let above_max = handle_get(&table, id + 1);
    assert_eq!(above_max.status, STATUS_NOT_FOUND);
    assert!(matches!(above_max.body, Body::Empty));
}

#[test]
fn update_then_fetch_sees_new_values() {
    let mut table = ItemTable::new();
    let id = created_id(&handle_create(&mut table, request("old name", "old text")));
    let updated = handle_update(&mut table, id, request("X", "Y"));
    assert_eq!(updated.status, STATUS_OK);
    assert!(matches!(updated.body, Body::Empty));
    let fetched = handle_get(&table, id);
    assert_eq!(fetched.status, STATUS_OK);
    match fetched.body {
        Body::Item(item) => {
            assert_eq!(item.id, id);
            assert_eq!(item.name, "X");
            assert_eq!(item.description, "Y");
        }
        _ => panic!("fetch returned no item"),
    }
}

#[test]
fn update_of_absent_id_is_success_with_zero_rows() {
    let mut table = ItemTable::new();
    let affected = table.update_by_id(7, "X".to_string(), "Y".to_string());
    assert_eq!(affected, 0);
    let response = handle_update(&mut table, 7, request("X", "Y"));
    assert_eq!(response.status, STATUS_OK);
    assert_eq!(handle_get(&table, 7).status, STATUS_NOT_FOUND);
}

#[test]
fn delete_then_fetch_is_not_found() {
    let mut table = ItemTable::new();
    let id = created_id(&handle_create(&mut table, request("doomed", "to go")));
    let deleted = handle_delete(&mut table, id);
    assert_eq!(deleted.status, STATUS_OK);
    assert!(matches!(deleted.body, Body::Empty));
    assert_eq!(handle_get(&table, id).status, STATUS_NOT_FOUND);
}

#[test]
fn delete_twice_returns_same_success_status() {
    let mut table = ItemTable::new();
    let id = created_id(&handle_create(&mut table, request("once", "only")));
    let first = handle_delete(&mut table, id);
    let second = handle_delete(&mut table, id);
    assert_eq!(first.status, STATUS_OK);
    assert_eq!(second.status, first.status);
    assert_eq!(table.delete_by_id(id), 0);
}

#[test]
fn creates_assign_distinct_increasing_ids() {
    let mut table = ItemTable::new();
    let mut ids = Vec::new();
    for i in 0..5 {
        let name = format!("item {}", i);
        let r = handle_create(&mut table, request(&name, "payload"));
        assert_eq!(r.status, STATUS_OK);
        ids.push(created_id(&r));
    }
    for window in ids.windows(2) {
        assert!(window[0] < window[1], "assigned ids must increase");
    }
    let listed = handle_list(&table);
    match listed.body {
        Body::Items(items) => assert_eq!(items.len(), 5, "no insert may be lost"),
        _ => panic!("list returned no item array"),
    }
}

#[test]
fn empty_table_lists_empty_array() {
    let table = ItemTable::new();
    let listed = handle_list(&table);
    assert_eq!(listed.status, STATUS_OK);
    match listed.body {
        Body::Items(items) => assert!(items.is_empty()),
        _ => panic!("list returned no item array"),
    }
}

#[test]
fn empty_strings_are_accepted() {
    let mut table = ItemTable::new();
    let r = handle_create(&mut table, request("", ""));
    assert_eq!(r.status, STATUS_OK);
    let id = created_id(&r);
    match handle_get(&table, id).body {
        Body::Item(item) => {
            assert_eq!(item.name, "");
            assert_eq!(item.description, "");
        }
        _ => panic!("fetch returned no item"),
    }
}

#[test]
fn metacharacters_are_stored_verbatim() {
    let hostile = "'; DROP TABLE items; --";
    let mut table = ItemTable::new();
    let id = created_id(&handle_create(&mut table, request(hostile, hostile)));
    match handle_get(&table, id).body {
        Body::Item(item) => {
            assert_eq!(item.name, hostile);
            assert_eq!(item.description, hostile);
        }
        _ => panic!("fetch returned no item"),
    }
    let listed = handle_list(&table);
    match listed.body {
        Body::Items(items) => assert_eq!(items.len(), 1, "table structure unaffected"),
        _ => panic!("list returned no item array"),
    }
}

#[test]
fn store_failures_map_to_internal_error() {
    for fault in [
        StoreFault::ConnectionLost,
        StoreFault::ConstraintViolation,
        StoreFault::Timeout,
        StoreFault::Other,
    ] {
        let r = create_response(Err(RepoError::Store(fault)));
        assert_eq!(r.status, STATUS_INTERNAL_ERROR);
        match r.body {
            Body::Text(text) => assert_eq!(text, "Error to create item"),
            _ => panic!("create failure must carry the plain-text body"),
        }
        let r = list_response(Err(RepoError::Store(fault)));
        assert_eq!(r.status, STATUS_INTERNAL_ERROR);
        assert!(matches!(r.body, Body::Empty));
        let r = get_response(Err(RepoError::Store(fault)));
        assert_eq!(r.status, STATUS_INTERNAL_ERROR);
        assert!(matches!(r.body, Body::Empty));
        let r = update_response(Err(RepoError::Store(fault)));
        assert_eq!(r.status, STATUS_INTERNAL_ERROR);
        assert!(matches!(r.body, Body::Empty));
        let r = delete_response(Err(RepoError::Store(fault)));
        assert_eq!(r.status, STATUS_INTERNAL_ERROR);
        assert!(matches!(r.body, Body::Empty));
    }
}

#[test]
fn baseline_validation_accepts_every_body_verbatim() {
    for (name, description) in [("", ""), ("plain", "text"), ("'; DROP TABLE items; --", "\" OR 1=1")] {
        match validate(request(name, description)) {
            Ok(validated) => {
                assert_eq!(validated.name, name);
                assert_eq!(validated.description, description);
            }
            Err(_) => panic!("the baseline policy rejects nothing"),
        }
    }
}

#[test]
fn missed_lookup_maps_to_not_found() {
    let r = get_response(Err(RepoError::NotFound));
    assert_eq!(r.status, STATUS_NOT_FOUND);
    assert!(matches!(r.body, Body::Empty));
}
