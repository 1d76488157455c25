use dooly::pool::ConnectionPool;
use dooly::store::Store;
use dooly::todos::{add_todo, complete_todo, search_todos, NewTodoItem};
use dooly::user::{create_user, NewUser};

fn new_todo(title: &str, completed: bool, user_id: i32) -> NewTodoItem {
    NewTodoItem {
        title: title.to_string(),
        description: None,
        priority: None,
        due_date: None,
        completed,
        user_id,
    }
}

/// One user (id 1) and two of their todos: "Test Todo 1" still open and
/// "Test Todo 2" already completed.
fn seeded() -> (ConnectionPool, Store) {
    let mut pool = ConnectionPool::new(10);
    let mut store = Store::new();
    create_user(
        &mut pool,
        &mut store,
        NewUser { username: "seed_user".to_string(), password_hash: "seed_hash".to_string() },
    )
    .unwrap();
    add_todo(&mut pool, &mut store, new_todo("Test Todo 1", false, 1)).unwrap();
    add_todo(&mut pool, &mut store, new_todo("Test Todo 2", false, 1)).unwrap();
    complete_todo(&mut pool, &mut store, 2).unwrap();
    (pool, store)
}

#[test]
fn test_search_todos_with_results() {
    let (mut pool, mut store) = seeded();

    add_todo(&mut pool, &mut store, new_todo("Test Todo 1", false, 1)).unwrap();
    add_todo(&mut pool, &mut store, new_todo("Important Task", false, 1)).unwrap();

    let todos = search_todos(&mut pool, &store, Some("Task".to_string()), 1).unwrap();

    assert_eq!(todos.len(), 1);
    assert_eq!(todos[0].title, "Important Task");
}

#[test]
fn test_search_todos_no_results() {
    let (mut pool, mut store) = seeded();

    add_todo(&mut pool, &mut store, new_todo("Unrelated Task", false, 1)).unwrap();

    let todos = search_todos(&mut pool, &store, Some("NotInDatabase".to_string()), 1).unwrap();

    assert_eq!(todos.len(), 0);
}

#[test]
fn test_search_todos_no_query() {
    let (mut pool, mut store) = seeded();

    add_todo(&mut pool, &mut store, new_todo("General Todo", false, 1)).unwrap();

    let todos = search_todos(&mut pool, &store, None, 1).unwrap();

    assert_eq!(todos.len(), 3);
    assert_eq!(todos[2].title, "General Todo");
}

#[test]
fn test_search_todos_wrong_user() {
    let (mut pool, mut store) = seeded();

    add_todo(&mut pool, &mut store, new_todo("User 1's Todo", false, 1)).unwrap();

    let todos = search_todos(&mut pool, &store, None, 2).unwrap();

    assert_eq!(todos.len(), 0);
}
