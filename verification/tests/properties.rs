//! Concrete checks of the layer-wide guarantees: rejected input persists
//! nothing, searches stay within one user's rows, ids never repeat, and
//! the full flow from creation through search to completion holds up.

use dooly::errors::{message_of, status_of};
use dooly::pool::ConnectionPool;
use dooly::store::Store;
use dooly::todos::{
    add_todo, complete_todo, delete_todo, get_todos, search_todos, update_todo, NewTodoItem,
};
use dooly::user::{create_user, NewUser};

fn new_todo(title: &str, completed: bool, user_id: i32) -> NewTodoItem {
    NewTodoItem {
        title: title.to_string(),
        description: None,
        priority: None,
        due_date: None,
        completed,
        user_id,
    }
}

fn new_user(username: &str, password_hash: &str) -> NewUser {
    NewUser { username: username.to_string(), password_hash: password_hash.to_string() }
}

fn fresh() -> (ConnectionPool, Store) {
    (ConnectionPool::new(10), Store::new())
}

#[test]
fn test_whitespace_title_rejected_nothing_persisted() {
    let (mut pool, mut store) = fresh();

    let err = add_todo(&mut pool, &mut store, new_todo(" \t\n ", false, 1)).unwrap_err();

    assert_eq!(status_of(&err), 400);
    assert_eq!(message_of(&err), "Title cannot be empty");
    assert_eq!(get_todos(&mut pool, &store).unwrap().len(), 0);
}

#[test]
fn test_precompleted_rejected_nothing_persisted() {
    let (mut pool, mut store) = fresh();

    let err = add_todo(&mut pool, &mut store, new_todo("Valid title", true, 1)).unwrap_err();

    assert_eq!(status_of(&err), 400);
    assert_eq!(message_of(&err), "New todo item cannot be marked as completed");
    assert_eq!(get_todos(&mut pool, &store).unwrap().len(), 0);
}

#[test]
fn test_create_then_list_exactly_one() {
    let (mut pool, mut store) = fresh();

    add_todo(&mut pool, &mut store, new_todo("T", false, 1)).unwrap();

    let todos = get_todos(&mut pool, &store).unwrap();
    assert_eq!(todos.len(), 1);
    assert_eq!(todos[0].title, "T");
    assert_eq!(todos[0].completed, false);
}

#[test]
fn test_update_empty_title_rejected_for_any_id() {
    let (mut pool, mut store) = fresh();
    add_todo(&mut pool, &mut store, new_todo("Existing", false, 1)).unwrap();

    // An existing id and a missing id alike: validation comes first.
    let err_existing = update_todo(&mut pool, &mut store, 1, new_todo("", false, 1)).unwrap_err();
    let err_missing = update_todo(&mut pool, &mut store, 999, new_todo("", false, 1)).unwrap_err();

    assert_eq!(status_of(&err_existing), 400);
    assert_eq!(message_of(&err_existing), "Title cannot be empty");
    assert_eq!(status_of(&err_missing), 400);
    assert_eq!(message_of(&err_missing), "Title cannot be empty");
}

#[test]
fn test_update_missing_id_not_found() {
    let (mut pool, mut store) = fresh();
    add_todo(&mut pool, &mut store, new_todo("Existing", false, 1)).unwrap();

    let err = update_todo(&mut pool, &mut store, 999, new_todo("New title", false, 1))
        .unwrap_err();

    assert_eq!(status_of(&err), 404);
    assert_eq!(message_of(&err), "Todo item not found");
}

#[test]
fn test_update_applies_only_title_and_completed() {
    let (mut pool, mut store) = fresh();
    let mut original = new_todo("Original", false, 1);
    original.description = Some("keep me".to_string());
    original.priority = Some(3);
    add_todo(&mut pool, &mut store, original).unwrap();

    let mut replacement = new_todo("Renamed", true, 42);
    replacement.description = Some("ignored".to_string());
    replacement.priority = Some(9);
    update_todo(&mut pool, &mut store, 1, replacement).unwrap();

    let todos = get_todos(&mut pool, &store).unwrap();
    assert_eq!(todos[0].title, "Renamed");
    assert_eq!(todos[0].completed, true);
    // The other columns kept their stored values: the broad input is
    // accepted but only the two declared columns are applied.
    assert_eq!(todos[0].description, Some("keep me".to_string()));
    assert_eq!(todos[0].priority, Some(3));
    assert_eq!(todos[0].user_id, 1);
}

#[test]
fn test_complete_missing_id_succeeds() {
    let (mut pool, mut store) = fresh();

    let response = complete_todo(&mut pool, &mut store, 12345);

    assert_eq!(response.unwrap(), "Todo marked as completed!");
}

#[test]
fn test_search_without_query_returns_exactly_owned() {
    let (mut pool, mut store) = fresh();
    add_todo(&mut pool, &mut store, new_todo("Mine A", false, 1)).unwrap();
    add_todo(&mut pool, &mut store, new_todo("Theirs", false, 2)).unwrap();
    add_todo(&mut pool, &mut store, new_todo("Mine B", false, 1)).unwrap();

    let mine = search_todos(&mut pool, &store, None, 1).unwrap();
    let theirs = search_todos(&mut pool, &store, None, 2).unwrap();

    assert_eq!(mine.len(), 2);
    assert_eq!(mine[0].title, "Mine A");
    assert_eq!(mine[1].title, "Mine B");
    assert_eq!(theirs.len(), 1);
    assert_eq!(theirs[0].title, "Theirs");
}

#[test]
fn test_search_with_query_filters_by_substring() {
    let (mut pool, mut store) = fresh();
    add_todo(&mut pool, &mut store, new_todo("Important Task", false, 1)).unwrap();
    add_todo(&mut pool, &mut store, new_todo("Groceries", false, 1)).unwrap();
    add_todo(&mut pool, &mut store, new_todo("Task for someone else", false, 2)).unwrap();

    let found = search_todos(&mut pool, &store, Some("Task".to_string()), 1).unwrap();

    assert_eq!(found.len(), 1);
    assert_eq!(found[0].title, "Important Task");
}

#[test]
fn test_search_substring_match_is_exact() {
    let (mut pool, mut store) = fresh();
    add_todo(&mut pool, &mut store, new_todo("Important Task", false, 1)).unwrap();

    // The match is a plain character run: no case folding.
    let lower = search_todos(&mut pool, &store, Some("task".to_string()), 1).unwrap();
    let empty = search_todos(&mut pool, &store, Some("".to_string()), 1).unwrap();

    assert_eq!(lower.len(), 0);
    assert_eq!(empty.len(), 1);
}

#[test]
fn test_created_ids_all_distinct_even_after_delete() {
    let (mut pool, mut store) = fresh();
    add_todo(&mut pool, &mut store, new_todo("One", false, 1)).unwrap();
    add_todo(&mut pool, &mut store, new_todo("Two", false, 1)).unwrap();
    add_todo(&mut pool, &mut store, new_todo("Three", false, 1)).unwrap();
    delete_todo(&mut pool, &mut store, 2).unwrap();
    add_todo(&mut pool, &mut store, new_todo("Four", false, 1)).unwrap();

    let todos = get_todos(&mut pool, &store).unwrap();
    let ids: Vec<i32> = vec![todos[0].id, todos[1].id, todos[2].id];

    // The deleted row's id is not reused: the seed only moves up.
    assert_eq!(ids, vec![1, 3, 4]);
}

#[test]
fn test_end_to_end_scenario() {
    let (mut pool, mut store) = fresh();
    create_user(&mut pool, &mut store, new_user("first", "first_hash")).unwrap();
    create_user(&mut pool, &mut store, new_user("second", "second_hash")).unwrap();

    add_todo(&mut pool, &mut store, new_todo("Buy milk", false, 1)).unwrap();

    let found = search_todos(&mut pool, &store, Some("milk".to_string()), 1).unwrap();
    assert_eq!(found.len(), 1);
    let other = search_todos(&mut pool, &store, Some("milk".to_string()), 2).unwrap();
    assert_eq!(other.len(), 0);

    let id = found[0].id;
    complete_todo(&mut pool, &mut store, id).unwrap();

    let todos = get_todos(&mut pool, &store).unwrap();
    assert_eq!(todos.len(), 1);
    assert_eq!(todos[0].id, id);
    assert_eq!(todos[0].completed, true);
}
