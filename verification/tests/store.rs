use rust_api::errors::AppError;
use rust_api::models::{CreateTodo, Todo, UpdateTodo};
use rust_api::store::InMemory;

fn titled(text: &str) -> CreateTodo {
    CreateTodo { title: text.to_string() }
}

fn same(a: &Todo, b: &Todo) -> bool {
    a.id == b.id && a.title == b.title && a.done == b.done
}

#[test]
fn create_returns_the_first_record() {
    let mut store = InMemory::new();
    assert!(store.has_free_id());
    let todo = store.create(titled("learn rust")).unwrap();
    assert_eq!(todo.id, 1);
    assert_eq!(todo.title, "learn rust");
    assert!(!todo.done);
}

#[test]
fn create_refuses_a_blank_title() {
    let mut store = InMemory::new();
    let refused = store.create(titled("  "));
    match refused {
        Err(e) => {
            assert_eq!(e.status_code(), 400);
            assert_eq!(e.message(), "title cannot be empty");
        }
        Ok(_) => panic!("a blank title was stored"),
    }
    assert!(store.list().is_empty());
    let next = store.create(titled("real")).unwrap();
    assert_eq!(next.id, 1);
}

#[test]
fn create_refuses_a_long_title() {
    let mut store = InMemory::new();
    let refused = store.create(CreateTodo { title: "a".repeat(101) });
    assert!(matches!(
        refused,
        Err(AppError::Validation(ref m)) if m == "title cannot be longer than 100 characters"
    ));
    assert!(store.list().is_empty());
}

#[test]
fn create_keeps_the_title_as_given() {
    let mut store = InMemory::new();
    let todo = store.create(titled("  padded  ")).unwrap();
    assert_eq!(todo.title, "  padded  ");
}

#[test]
fn update_sets_done_and_keeps_the_title() {
    let mut store = InMemory::new();
    store.create(titled("learn rust")).unwrap();
    let updated = store.update(1, UpdateTodo { title: None, done: Some(true) }).unwrap();
    assert_eq!(updated.id, 1);
    assert_eq!(updated.title, "learn rust");
    assert!(updated.done);
    let stored = store.get(1).unwrap();
    assert!(same(&stored, &updated));
}

#[test]
fn update_sets_title_and_keeps_done() {
    let mut store = InMemory::new();
    store.create(titled("one")).unwrap();
    store.update(1, UpdateTodo { title: None, done: Some(true) }).unwrap();
    let renamed = store.update(1, UpdateTodo { title: Some("two".to_string()), done: None }).unwrap();
    assert_eq!(renamed.id, 1);
    assert_eq!(renamed.title, "two");
    assert!(renamed.done);
    let both = store
        .update(1, UpdateTodo { title: Some("three".to_string()), done: Some(false) })
        .unwrap();
    assert_eq!(both.title, "three");
    assert!(!both.done);
}

#[test]
fn update_with_no_field_is_refused() {
    let mut store = InMemory::new();
    store.create(titled("learn rust")).unwrap();
    let refused = store.update(1, UpdateTodo { title: None, done: None });
    match refused {
        Err(e) => {
            assert_eq!(e.status_code(), 400);
            assert_eq!(e.message(), "provide at least one field to update");
        }
        Ok(_) => panic!("an empty update went through"),
    }
    let stored = store.get(1).unwrap();
    assert_eq!(stored.title, "learn rust");
    assert!(!stored.done);
}

#[test]
fn update_is_judged_before_the_record_is_sought() {
    let mut store = InMemory::new();
    let blank = store.update(7, UpdateTodo { title: Some(" ".to_string()), done: None });
    assert!(matches!(blank, Err(AppError::Validation(ref m)) if m == "title cannot be empty"));
    let empty = store.update(7, UpdateTodo { title: None, done: None });
    assert!(matches!(empty, Err(AppError::Validation(_))));
    let missing = store.update(7, UpdateTodo { title: None, done: Some(true) });
    assert!(matches!(missing, Err(AppError::NotFound)));
}

#[test]
fn update_with_a_bad_title_leaves_the_record() {
    let mut store = InMemory::new();
    store.create(titled("keep me")).unwrap();
    let refused = store.update(1, UpdateTodo { title: Some("b".repeat(101)), done: Some(true) });
    assert!(matches!(refused, Err(AppError::Validation(_))));
    let stored = store.get(1).unwrap();
    assert_eq!(stored.title, "keep me");
    assert!(!stored.done);
}

#[test]
fn get_on_an_empty_store_is_not_found() {
    let store = InMemory::new();
    match store.get(999) {
        Err(e) => {
            assert!(matches!(e, AppError::NotFound));
            assert_eq!(e.status_code(), 404);
            assert_eq!(e.message(), "not found");
        }
        Ok(_) => panic!("found a record in an empty store"),
    }
}

#[test]
fn get_after_delete_is_not_found() {
    let mut store = InMemory::new();
    store.create(titled("learn rust")).unwrap();
    assert!(store.delete(1).is_ok());
    match store.get(1) {
        Err(e) => assert_eq!(e.status_code(), 404),
        Ok(_) => panic!("the record outlived its delete"),
    }
    assert!(matches!(store.delete(1), Err(AppError::NotFound)));
}

#[test]
fn delete_of_a_missing_id_is_not_found() {
    let mut store = InMemory::new();
    assert!(matches!(store.delete(1), Err(AppError::NotFound)));
    store.create(titled("a")).unwrap();
    assert!(matches!(store.delete(2), Err(AppError::NotFound)));
    assert_eq!(store.list().len(), 1);
}

#[test]
fn get_returns_what_create_returned() {
    let mut store = InMemory::new();
    for text in ["a", "b", "  c  ", "learn rust"] {
        let made = store.create(titled(text)).unwrap();
        let found = store.get(made.id).unwrap();
        assert!(same(&made, &found));
    }
}

#[test]
fn ids_are_distinct_and_increase() {
    let mut store = InMemory::new();
    let mut last: u64 = 0;
    for n in 0..1000u64 {
        let made = store.create(titled("task")).unwrap();
        assert_eq!(made.id, n + 1);
        assert!(made.id > last);
        last = made.id;
    }
    assert_eq!(store.list().len(), 1000);
}

#[test]
fn ids_are_not_reused_after_delete() {
    let mut store = InMemory::new();
    let a = store.create(titled("a")).unwrap();
    let b = store.create(titled("b")).unwrap();
    store.delete(b.id).unwrap();
    let c = store.create(titled("c")).unwrap();
    assert_eq!((a.id, b.id, c.id), (1, 2, 3));
    store.delete(a.id).unwrap();
    store.delete(c.id).unwrap();
    assert!(store.list().is_empty());
    let d = store.create(titled("d")).unwrap();
    assert_eq!(d.id, 4);
}

#[test]
fn a_refused_create_uses_no_id() {
    let mut store = InMemory::new();
    assert!(store.create(titled("")).is_err());
    assert!(store.create(titled("\t")).is_err());
    assert_eq!(store.create(titled("first")).unwrap().id, 1);
}

#[test]
fn list_holds_every_record_once() {
    let mut store = InMemory::new();
    assert!(store.list().is_empty());
    store.create(titled("a")).unwrap();
    store.create(titled("b")).unwrap();
    store.create(titled("c")).unwrap();
    store.delete(2).unwrap();
    store.update(3, UpdateTodo { title: None, done: Some(true) }).unwrap();
    let mut listed = store.list();
    listed.sort_by_key(|t| t.id);
    assert_eq!(listed.len(), 2);
    assert_eq!((listed[0].id, listed[0].title.as_str(), listed[0].done), (1, "a", false));
    assert_eq!((listed[1].id, listed[1].title.as_str(), listed[1].done), (3, "c", true));
}

#[test]
fn list_is_a_copy() {
    let mut store = InMemory::new();
    store.create(titled("a")).unwrap();
    let mut listed = store.list();
    listed[0].title = "changed".to_string();
    listed[0].done = true;
    let mut got = store.get(1).unwrap();
    assert_eq!(got.title, "a");
    got.title = "also changed".to_string();
    assert_eq!(store.get(1).unwrap().title, "a");
    assert!(!store.get(1).unwrap().done);
}
