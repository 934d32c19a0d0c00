use todo_service::service::{
    handler_404, insert_todo, internal_error, todo_create, todo_delete, todo_update, todos_index,
    STATUS_CREATED, STATUS_INTERNAL_SERVER_ERROR, STATUS_NOT_FOUND, STATUS_OK,
};
use todo_service::table::{TableError, TodoTable};
use todo_service::todo::{new_todo, resolve_pagination, CreateTodo, Pagination, UpdateTodo};

fn page(offset: i64, limit: i64) -> Option<Pagination> {
    Some(Pagination { offset: Some(offset), limit: Some(limit) })
}

fn create(table: &mut TodoTable, description: &str) -> String {
    let (status, todo) =
        todo_create(table, CreateTodo { description: description.to_string() }).unwrap();
    assert_eq!(status, 201);
    todo.id
}

fn is_simple_uuid(s: &str) -> bool {
    s.len() == 32 && s.chars().all(|c| c.is_ascii_digit() || ('a'..='f').contains(&c))
}

#[test]
fn buy_milk_round_trip() {
    let mut table = TodoTable::new();
    let (status, todo) =
        todo_create(&mut table, CreateTodo { description: "buy milk".to_string() }).unwrap();
    assert_eq!(status, STATUS_CREATED);
    assert!(is_simple_uuid(&todo.id));
    assert_eq!(todo.description, "buy milk");
    assert!(!todo.completed);
    let id = todo.id.clone();

    let rows = todos_index(&table, page(0, 10)).unwrap();
    assert!(rows.iter().any(|t| t.id == id && t.description == "buy milk" && !t.completed));

    let reply = todo_update(
        &mut table,
        UpdateTodo { id: id.clone(), description: None, completed: Some(true) },
    )
    .unwrap();
    assert_eq!(reply, (STATUS_OK, id.clone()));
    let rows = todos_index(&table, page(0, 10)).unwrap();
    let row = rows.iter().find(|t| t.id == id).unwrap();
    assert!(row.completed);
    assert_eq!(row.description, "buy milk");

    let reply = todo_delete(&mut table, id.clone()).unwrap();
    assert_eq!(reply, (200, id.clone()));
    let rows = todos_index(&table, page(0, 10)).unwrap();
    assert!(rows.iter().all(|t| t.id != id));
}

#[test]
fn unmatched_route_is_not_found() {
    let (status, body) = handler_404();
    assert_eq!(status, STATUS_NOT_FOUND);
    assert_eq!(status, 404);
    assert_eq!(body, "404");
}

#[test]
fn created_todo_is_listed_with_default_page() {
    let mut table = TodoTable::new();
    create(&mut table, "first");
    create(&mut table, "second");
    let rows = todos_index(&table, None).unwrap();
    assert_eq!(rows.len(), 2);
    assert_eq!(rows[0].description, "first");
    assert_eq!(rows[1].description, "second");
    assert!(rows.iter().all(|t| !t.completed));
}

#[test]
fn delete_twice_still_succeeds() {
    let mut table = TodoTable::new();
    let id = create(&mut table, "walk the dog");
    let keep = create(&mut table, "water plants");
    assert_eq!(todo_delete(&mut table, id.clone()).unwrap(), (200, id.clone()));
    assert_eq!(todo_delete(&mut table, id.clone()).unwrap(), (200, id.clone()));
    let rows = todos_index(&table, None).unwrap();
    assert_eq!(rows.len(), 1);
    assert_eq!(rows[0].id, keep);
}

#[test]
fn zero_limit_and_far_offset_give_empty_pages() {
    let mut table = TodoTable::new();
    create(&mut table, "a");
    create(&mut table, "b");
    create(&mut table, "c");
    assert!(todos_index(&table, page(0, 0)).unwrap().is_empty());
    assert!(todos_index(&table, page(3, 10)).unwrap().is_empty());
    assert!(todos_index(&table, page(100, 10)).unwrap().is_empty());
    let middle = todos_index(&table, page(1, 1)).unwrap();
    assert_eq!(middle.len(), 1);
    assert_eq!(middle[0].description, "b");
    let tail = todos_index(&table, page(1, 100)).unwrap();
    assert_eq!(tail.len(), 2);
    assert_eq!(tail[1].description, "c");
}

#[test]
fn update_with_id_only_keeps_fields() {
    let mut table = TodoTable::new();
    let id = create(&mut table, "keep me");
    todo_update(&mut table, UpdateTodo { id: id.clone(), description: None, completed: Some(true) })
        .unwrap();
    todo_update(&mut table, UpdateTodo { id: id.clone(), description: None, completed: None })
        .unwrap();
    let rows = todos_index(&table, None).unwrap();
    assert_eq!(rows[0].description, "keep me");
    assert!(rows[0].completed);
}

#[test]
fn update_description_only() {
    let mut table = TodoTable::new();
    let id = create(&mut table, "old text");
    todo_update(
        &mut table,
        UpdateTodo { id: id.clone(), description: Some("new text".to_string()), completed: None },
    )
    .unwrap();
    let rows = todos_index(&table, None).unwrap();
    assert_eq!(rows[0].description, "new text");
    assert!(!rows[0].completed);
}

#[test]
fn update_unknown_id_reports_success_and_changes_nothing() {
    let mut table = TodoTable::new();
    create(&mut table, "only");
    let reply = todo_update(
        &mut table,
        UpdateTodo { id: "missing".to_string(), description: Some("x".to_string()), completed: Some(true) },
    )
    .unwrap();
    assert_eq!(reply, (200, "missing".to_string()));
    let rows = todos_index(&table, None).unwrap();
    assert_eq!(rows.len(), 1);
    assert_eq!(rows[0].description, "only");
    assert!(!rows[0].completed);
}

#[test]
fn negative_offset_is_server_error() {
    let table = TodoTable::new();
    let err = todos_index(&table, page(-1, 10)).unwrap_err();
    assert_eq!(err.0, STATUS_INTERNAL_SERVER_ERROR);
    assert_eq!(err.1, TableError::NegativeOffset.message());
}

#[test]
fn negative_limit_is_server_error() {
    let table = TodoTable::new();
    let err = todos_index(&table, page(0, -5)).unwrap_err();
    assert_eq!(err, (500, TableError::NegativeLimit.message()));
}

#[test]
fn duplicate_id_is_server_error() {
    let mut table = TodoTable::new();
    let todo = new_todo("abc".to_string(), "one".to_string());
    let (status, created) = insert_todo(&mut table, todo.clone()).unwrap();
    assert_eq!(status, 201);
    assert_eq!(created.id, "abc");
    let err = insert_todo(&mut table, new_todo("abc".to_string(), "two".to_string())).unwrap_err();
    assert_eq!(err, (500, TableError::DuplicateId.message()));
    let rows = todos_index(&table, None).unwrap();
    assert_eq!(rows.len(), 1);
    assert_eq!(rows[0].description, "one");
}

#[test]
fn generated_ids_differ() {
    let mut table = TodoTable::new();
    let a = create(&mut table, "x");
    let b = create(&mut table, "x");
    assert!(is_simple_uuid(&a) && is_simple_uuid(&b));
    assert_ne!(a, b);
}

#[test]
fn pagination_defaults() {
    assert_eq!(resolve_pagination(None), (0, 100));
    assert_eq!(resolve_pagination(Some(Pagination { offset: None, limit: None })), (0, 100));
    assert_eq!(resolve_pagination(Some(Pagination { offset: Some(7), limit: None })), (7, 100));
    assert_eq!(resolve_pagination(Some(Pagination { offset: None, limit: Some(3) })), (0, 3));
}

#[test]
fn internal_error_carries_message() {
    assert_eq!(internal_error("pool timed out".to_string()), (500, "pool timed out".to_string()));
}

#[test]
fn new_todo_is_not_completed() {
    let t = new_todo("id1".to_string(), "d".to_string());
    assert_eq!(t.id, "id1");
    assert_eq!(t.description, "d");
    assert!(!t.completed);
    let copy = t.duplicate();
    assert_eq!(copy.id, t.id);
    assert_eq!(copy.description, t.description);
}

#[test]
fn generated_id_carries_version_and_variant() {
    let mut table = TodoTable::new();
    let id = create(&mut table, "check the id");
    let bytes = id.as_bytes();
    assert_eq!(bytes[12], b'4');
    assert!(b"89ab".contains(&bytes[16]));
}
