use std::collections::HashSet;
use todo_api::store::{StoreError, TodoStore};
use todo_api::model::UpdateTodoSchema;

fn no_patch() -> UpdateTodoSchema {
    UpdateTodoSchema { title: None, content: None, completed: None }
}

#[test]
fn create_valid_defaults() {
    let mut store = TodoStore::new();
    let todo = store
        .create(String::from("A"), String::from("x"), None, 7)
        .unwrap();
    assert!(!todo.id.is_empty());
    assert_eq!(todo.title, "A");
    assert_eq!(todo.content, "x");
    assert!(!todo.completed);
    assert_eq!(todo.createdAt, 7);
    assert_eq!(todo.updatedAt, 7);
    assert_eq!(store.len(), 1);
}

#[test]
fn create_completed_supplied() {
    let mut store = TodoStore::new();
    let todo = store
        .create(String::from("A"), String::from("x"), Some(true), 7)
        .unwrap();
    assert!(todo.completed);
}

#[test]
fn create_empty_title_rejected() {
    let mut store = TodoStore::new();
    let r = store.create(String::new(), String::from("x"), None, 7);
    assert!(matches!(r, Err(StoreError::EmptyTitle)));
    assert_eq!(store.len(), 0);
}

#[test]
fn create_empty_content_rejected() {
    let mut store = TodoStore::new();
    let r = store.create(String::from("A"), String::new(), None, 7);
    assert!(matches!(r, Err(StoreError::EmptyContent)));
    assert_eq!(store.len(), 0);
}

#[test]
fn create_then_get_field_for_field() {
    let mut store = TodoStore::new();
    let created = store
        .create(String::from("title one"), String::from("content one"), Some(true), 42)
        .unwrap();
    let got = store.get_by_id(&created.id).unwrap();
    assert_eq!(got.id, created.id);
    assert_eq!(got.title, created.title);
    assert_eq!(got.content, created.content);
    assert_eq!(got.completed, created.completed);
    assert_eq!(got.createdAt, created.createdAt);
    assert_eq!(got.updatedAt, created.updatedAt);
}

#[test]
fn get_unknown_id_is_none() {
    let store = TodoStore::new();
    assert!(store.get_by_id(&String::from("no-such-id")).is_none());
}

#[test]
fn update_partial_changes_only_given_fields() {
    let mut store = TodoStore::new();
    let created = store
        .create(String::from("A"), String::from("x"), None, 5)
        .unwrap();
    let patch = UpdateTodoSchema { title: None, content: None, completed: Some(true) };
    let updated = store.update_by_id(&created.id, &patch, 9).unwrap();
    assert_eq!(updated.id, created.id);
    assert_eq!(updated.title, "A");
    assert_eq!(updated.content, "x");
    assert!(updated.completed);
    assert_eq!(updated.createdAt, 5);
    assert_eq!(updated.updatedAt, 9);
    assert!(updated.updatedAt >= created.updatedAt);
}

#[test]
fn update_refreshes_updated_at_even_without_changes() {
    let mut store = TodoStore::new();
    let created = store
        .create(String::from("A"), String::from("x"), None, 5)
        .unwrap();
    let updated = store.update_by_id(&created.id, &no_patch(), 11).unwrap();
    assert_eq!(updated.title, "A");
    assert_eq!(updated.updatedAt, 11);
}

#[test]
fn update_never_moves_updated_at_backwards() {
    let mut store = TodoStore::new();
    let created = store
        .create(String::from("A"), String::from("x"), None, 5)
        .unwrap();
    let updated = store.update_by_id(&created.id, &no_patch(), 3).unwrap();
    assert_eq!(updated.updatedAt, 5);
    assert!(updated.updatedAt >= created.updatedAt);
}

#[test]
fn update_unknown_id_is_not_found() {
    let mut store = TodoStore::new();
    let r = store.update_by_id(&String::from("missing"), &no_patch(), 1);
    assert!(matches!(r, Err(StoreError::NotFound)));
}

#[test]
fn delete_then_get_and_update_not_found() {
    let mut store = TodoStore::new();
    let created = store
        .create(String::from("A"), String::from("x"), None, 5)
        .unwrap();
    assert!(store.delete_by_id(&created.id).is_ok());
    assert!(store.get_by_id(&created.id).is_none());
    let r = store.update_by_id(&created.id, &no_patch(), 6);
    assert!(matches!(r, Err(StoreError::NotFound)));
    let r = store.delete_by_id(&created.id);
    assert!(matches!(r, Err(StoreError::NotFound)));
    assert_eq!(store.len(), 0);
}

#[test]
fn delete_keeps_other_records_in_order() {
    let mut store = TodoStore::new();
    let a = store.create(String::from("a"), String::from("1"), None, 1).unwrap();
    let b = store.create(String::from("b"), String::from("2"), None, 2).unwrap();
    let c = store.create(String::from("c"), String::from("3"), None, 3).unwrap();
    store.delete_by_id(&b.id).unwrap();
    let page = store.list(None, None);
    assert_eq!(page.len(), 2);
    assert_eq!(page[0].id, a.id);
    assert_eq!(page[1].id, c.id);
}

#[test]
fn list_second_page_holds_the_remainder() {
    let mut store = TodoStore::new();
    let mut ids = Vec::new();
    for i in 0..15u64 {
        let t = store
            .create(format!("title {}", i), format!("content {}", i), None, i)
            .unwrap();
        ids.push(t.id);
    }
    let page = store.list(Some(2), Some(10));
    assert_eq!(page.len(), 5);
    for (k, t) in page.iter().enumerate() {
        assert_eq!(t.id, ids[10 + k]);
        assert_eq!(t.title, format!("title {}", 10 + k));
    }
}

#[test]
fn list_never_exceeds_limit() {
    let mut store = TodoStore::new();
    for i in 0..5u64 {
        store
            .create(format!("t{}", i), format!("c{}", i), None, i)
            .unwrap();
    }
    assert_eq!(store.list(Some(1), Some(3)).len(), 3);
    assert_eq!(store.list(Some(1), Some(99)).len(), 5);
}

#[test]
fn list_defaults_to_first_page_of_ten() {
    let mut store = TodoStore::new();
    for i in 0..15u64 {
        store
            .create(format!("t{}", i), format!("c{}", i), None, i)
            .unwrap();
    }
    let page = store.list(None, None);
    assert_eq!(page.len(), 10);
    assert_eq!(page[0].title, "t0");
    assert_eq!(page[9].title, "t9");
}

#[test]
fn list_out_of_range_page_is_empty() {
    let mut store = TodoStore::new();
    for i in 0..3u64 {
        store
            .create(format!("t{}", i), format!("c{}", i), None, i)
            .unwrap();
    }
    assert!(store.list(Some(5), Some(10)).is_empty());
}

#[test]
fn list_page_zero_reads_as_page_one() {
    let mut store = TodoStore::new();
    for i in 0..3u64 {
        store
            .create(format!("t{}", i), format!("c{}", i), None, i)
            .unwrap();
    }
    let p0 = store.list(Some(0), Some(2));
    let p1 = store.list(Some(1), Some(2));
    assert_eq!(p0.len(), p1.len());
    for k in 0..p0.len() {
        assert_eq!(p0[k].id, p1[k].id);
    }
}

#[test]
fn many_creates_distinct_ids_and_full_count() {
    let mut store = TodoStore::new();
    let mut seen = HashSet::new();
    let n = 25u64;
    for i in 0..n {
        let t = store
            .create(format!("t{}", i), format!("c{}", i), None, i)
            .unwrap();
        assert!(seen.insert(t.id.clone()), "identifier handed out twice");
    }
    assert_eq!(store.len(), n as usize);
    assert_eq!(seen.len(), n as usize);
}
