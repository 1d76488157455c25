use dooly::pool::ConnectionPool;
use dooly::store::Store;
use dooly::todos::{add_todo, complete_todo, get_todos, NewTodoItem};
use dooly::user::{create_user, NewUser};

fn new_todo(title: &str, completed: bool, user_id: i32) -> NewTodoItem {
    NewTodoItem {
        title: title.to_string(),
        description: None,
        priority: None,
        due_date: None,
        completed,
        user_id,
    }
}

/// One user (id 1) and two of their todos: "Test Todo 1" still open and
/// "Test Todo 2" already completed.
fn seeded() -> (ConnectionPool, Store) {
    let mut pool = ConnectionPool::new(10);
    let mut store = Store::new();
    create_user(
        &mut pool,
        &mut store,
        NewUser { username: "seed_user".to_string(), password_hash: "seed_hash".to_string() },
    )
    .unwrap();
    add_todo(&mut pool, &mut store, new_todo("Test Todo 1", false, 1)).unwrap();
    add_todo(&mut pool, &mut store, new_todo("Test Todo 2", false, 1)).unwrap();
    complete_todo(&mut pool, &mut store, 2).unwrap();
    (pool, store)
}

#[test]
fn test_complete_todo() {
    let (mut pool, mut store) = seeded();

    let response = add_todo(&mut pool, &mut store, new_todo("Test Incomplete Todo", false, 1));
    assert!(response.is_ok());
    assert_eq!(response.unwrap(), "Todo added successfully!");

    let todos = get_todos(&mut pool, &store).unwrap();
    let todo_id = todos[0].id;

    let response = complete_todo(&mut pool, &mut store, todo_id);
    assert!(response.is_ok());
    assert_eq!(response.unwrap(), "Todo marked as completed!");

    let todos = get_todos(&mut pool, &store).unwrap();
    assert_eq!(todos[0].completed, true);
}

#[test]
fn test_complete_todo_missing_id_still_succeeds() {
    let (mut pool, mut store) = seeded();

    let response = complete_todo(&mut pool, &mut store, 999);

    assert_eq!(response.unwrap(), "Todo marked as completed!");
    let todos = get_todos(&mut pool, &store).unwrap();
    assert_eq!(todos.len(), 2);
    assert_eq!(todos[0].completed, false);
}
