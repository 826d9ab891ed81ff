use todo_db::command::{ArgError, Command};
use todo_db::run::{run, run_command, RunError};
use todo_db::store::{init_database, list_all_todos, open_store, Store, StoreError};

fn go(store: &mut Store, name: &str, text: Option<&str>, id: Option<i32>) -> Result<Vec<String>, RunError> {
    run(store, name.to_string(), text.map(|t| t.to_string()), id)
}

#[test]
fn init_add_check_list_scenario() {
    let store = &mut open_store(":memory:").unwrap();
    assert_eq!(go(store, "init", None, None), Ok(vec![]));
    assert_eq!(go(store, "add", Some("buy milk"), None), Ok(vec![]));
    assert_eq!(
        go(store, "all", None, None),
        Ok(vec!["Todo { id: 1, todo: \"buy milk\", checked: false }".to_string()])
    );
    assert_eq!(go(store, "check", None, Some(1)), Ok(vec![]));
    assert_eq!(go(store, "list", None, None), Ok(vec![]));
    assert_eq!(
        go(store, "all", None, None),
        Ok(vec!["Todo { id: 1, todo: \"buy milk\", checked: true }".to_string()])
    );
}

#[test]
fn scenario_across_connections_to_one_file() {
    let path = "file:scenario_db?mode=memory&cache=shared";
    let _keep = open_store(path).unwrap();
    assert_eq!(go(&mut open_store(path).unwrap(), "init", None, None), Ok(vec![]));
    assert_eq!(go(&mut open_store(path).unwrap(), "add", Some("buy milk"), None), Ok(vec![]));
    assert_eq!(go(&mut open_store(path).unwrap(), "check", None, Some(1)), Ok(vec![]));
    assert_eq!(
        go(&mut open_store(path).unwrap(), "all", None, None),
        Ok(vec!["Todo { id: 1, todo: \"buy milk\", checked: true }".to_string()])
    );
}

#[test]
fn unknown_command_leaves_store_alone() {
    let store = &mut open_store(":memory:").unwrap();
    assert_eq!(go(store, "init", None, None), Ok(vec![]));
    assert_eq!(go(store, "add", Some("a"), None), Ok(vec![]));
    let before = list_all_todos(store).unwrap();
    assert_eq!(
        go(store, "frobnicate", Some("b"), Some(1)),
        Err(RunError::Argument(ArgError::UnknownCommand("frobnicate".to_string())))
    );
    assert_eq!(list_all_todos(store).unwrap(), before);
}

#[test]
fn help_prints_usage() {
    let store = &mut open_store(":memory:").unwrap();
    assert_eq!(go(store, "help", None, None), Ok(vec!["Usage: help".to_string()]));
}

#[test]
fn missing_flag_is_an_argument_error() {
    let store = &mut open_store(":memory:").unwrap();
    assert_eq!(go(store, "check", None, None), Err(RunError::Argument(ArgError::MissingId)));
    assert_eq!(go(store, "add", None, None), Err(RunError::Argument(ArgError::MissingText)));
}

#[test]
fn bad_path_is_an_open_error() {
    assert!(matches!(open_store("/nonexistent/dir/db.sqlite"), Err(StoreError::Open(_))));
}

#[test]
fn listing_before_init_is_a_read_error() {
    let store = &mut open_store(":memory:").unwrap();
    assert!(matches!(run_command(Command::All, store), Err(StoreError::Read(_))));
    assert!(matches!(run_command(Command::List, store), Err(StoreError::Read(_))));
    assert!(matches!(go(store, "add", Some("x"), None), Err(RunError::Store(StoreError::Write(_)))));
    assert_eq!(run_command(Command::Help, store), Ok(vec!["Usage: help".to_string()]));
    init_database(store).unwrap();
    assert_eq!(run_command(Command::All, store), Ok(vec![]));
}
