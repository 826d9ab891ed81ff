use todo_db::store::{
    add_todo, check_todo, init_database, list_all_todos, list_todos, todos_from_rows,
    open_store, unchecked_only, Store, StoreError,
};
use todo_db::todo::Todo;

fn bare() -> Store {
    open_store(":memory:").unwrap()
}

fn fresh() -> Store {
    let mut store = bare();
    init_database(&mut store).unwrap();
    store
}

fn todo(id: i32, text: &str, checked: bool) -> Todo {
    Todo { id, todo: text.to_string(), checked }
}

#[test]
fn init_twice_is_init_once() {
    let mut once = fresh();
    add_todo(&mut once, "a").unwrap();
    let mut twice = fresh();
    init_database(&mut twice).unwrap();
    add_todo(&mut twice, "a").unwrap();
    init_database(&mut twice).unwrap();
    assert_eq!(list_all_todos(&mut once).unwrap(), list_all_todos(&mut twice).unwrap());
    assert_eq!(list_all_todos(&mut twice).unwrap(), vec![todo(1, "a", false)]);
}

#[test]
fn add_then_list_all_gives_one_new_record() {
    let mut store = fresh();
    add_todo(&mut store, "first").unwrap();
    let before = list_all_todos(&mut store).unwrap();
    add_todo(&mut store, "buy milk").unwrap();
    let after = list_all_todos(&mut store).unwrap();
    assert_eq!(after.len(), before.len() + 1);
    assert_eq!(&after[..before.len()], &before[..]);
    let new = &after[before.len()];
    assert_eq!(new.todo, "buy milk");
    assert!(!new.checked);
}

#[test]
fn empty_text_is_stored_as_is() {
    let mut store = fresh();
    add_todo(&mut store, "").unwrap();
    assert_eq!(list_all_todos(&mut store).unwrap(), vec![todo(1, "", false)]);
}

#[test]
fn checking_an_absent_id_changes_nothing() {
    let mut store = fresh();
    add_todo(&mut store, "a").unwrap();
    add_todo(&mut store, "b").unwrap();
    let before = list_all_todos(&mut store).unwrap();
    check_todo(&mut store, 99).unwrap();
    check_todo(&mut store, -1).unwrap();
    assert_eq!(list_all_todos(&mut store).unwrap(), before);
}

#[test]
fn checked_record_is_in_all_but_not_in_list() {
    let mut store = fresh();
    add_todo(&mut store, "a").unwrap();
    add_todo(&mut store, "b").unwrap();
    check_todo(&mut store, 1).unwrap();
    let all = list_all_todos(&mut store).unwrap();
    assert_eq!(all, vec![todo(1, "a", true), todo(2, "b", false)]);
    assert_eq!(list_todos(&mut store).unwrap(), vec![todo(2, "b", false)]);
}

#[test]
fn insert_round_trip_gives_fresh_id() {
    let mut store = fresh();
    add_todo(&mut store, "one").unwrap();
    add_todo(&mut store, "two").unwrap();
    let before = list_all_todos(&mut store).unwrap();
    add_todo(&mut store, "three \"quoted\"").unwrap();
    let after = list_all_todos(&mut store).unwrap();
    let new = after.last().unwrap();
    assert_eq!(new.todo, "three \"quoted\"");
    assert!(!new.checked);
    assert!(before.iter().all(|t| t.id != new.id));
}

#[test]
fn operations_without_table_fail() {
    let mut store = bare();
    assert!(matches!(add_todo(&mut store, "a"), Err(StoreError::Write(_))));
    assert!(matches!(check_todo(&mut store, 1), Err(StoreError::Write(_))));
    assert!(matches!(list_all_todos(&mut store), Err(StoreError::Read(_))));
    assert!(matches!(list_todos(&mut store), Err(StoreError::Read(_))));
}

#[test]
fn init_on_read_only_store_fails() {
    let mut store = bare();
    store.conn.execute_batch("PRAGMA query_only = ON").unwrap();
    assert!(matches!(init_database(&mut store), Err(StoreError::Schema(_))));
}

#[test]
fn rows_become_records_in_order() {
    let rows = vec![(3, "c".to_string(), true), (1, "a".to_string(), false)];
    assert_eq!(todos_from_rows(&rows), vec![todo(3, "c", true), todo(1, "a", false)]);
    assert_eq!(todos_from_rows(&Vec::new()), Vec::<Todo>::new());
}

#[test]
fn unchecked_only_keeps_pending_in_order() {
    let all = vec![todo(1, "a", true), todo(2, "b", false), todo(3, "c", false)];
    assert_eq!(unchecked_only(&all), vec![todo(2, "b", false), todo(3, "c", false)]);
    assert_eq!(unchecked_only(&vec![todo(1, "a", true)]), Vec::<Todo>::new());
}

#[test]
fn text_is_bound_not_run_as_sql() {
    let mut store = fresh();
    let text = "x'); DROP TABLE todos;--";
    add_todo(&mut store, text).unwrap();
    assert_eq!(list_all_todos(&mut store).unwrap(), vec![todo(1, text, false)]);
}
