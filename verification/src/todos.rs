//! To-do rows and the repository operations over them.
//!
//! Each operation validates its input, takes one pooled connection, runs
//! its statements against the store, and gives the connection back on
//! every exit path.  The contracts say exactly which rows every call reads
//! or writes, when each error comes, and that the pool ends every call
//! exactly as it began.

use vstd::prelude::*;
use crate::dates::Date;
use crate::errors::{ApiError, Operation, Resource, ValidationRule};
use crate::pool::ConnectionPool;
use crate::store::{
    apply_complete, apply_update, has_todo_with_id, inserted_todo, search_results,
    string_query_view, without_todo, Store,
};
use crate::text::is_blank;
use crate::validation::{new_todo_ok, todo_update_ok, validate_new_todo, validate_todo_update};

verus! {

/// A persisted to-do row, as the store materializes it per call.
#[derive(Debug)]
pub struct TodoItem {
    pub id: i32,
    pub title: String,
    pub description: Option<String>,
    pub priority: Option<i32>,
    pub due_date: Option<Date>,
    pub completed: bool,
    pub user_id: i32,
}

/// The full input record for creating or updating a to-do.  The id is
/// engine-assigned and therefore absent.
#[derive(Debug)]
pub struct NewTodoItem {
    pub title: String,
    pub description: Option<String>,
    pub priority: Option<i32>,
    pub due_date: Option<Date>,
    pub completed: bool,
    pub user_id: i32,
}

impl TodoItem {
    /// A field-for-field copy of the row.
    pub fn duplicate(&self) -> (r: TodoItem)
        ensures
            r == *self,
    {
        TodoItem {
            id: self.id,
            title: self.title.clone(),
            description: match &self.description {
                Some(d) => Some(d.clone()),
                None => None,
            },
            priority: self.priority,
            due_date: self.due_date,
            completed: self.completed,
            user_id: self.user_id,
        }
    }
}

/// GET /todos: every stored to-do, in insertion order.
pub fn get_todos(pool: &mut ConnectionPool, store: &Store) -> (r: Result<Vec<TodoItem>, ApiError>)
    ensures
        final(pool).spec_capacity() == old(pool).spec_capacity(),
        final(pool).spec_in_use() == old(pool).spec_in_use(),
        !old(pool).spec_available() ==> r == Err::<Vec<TodoItem>, ApiError>(
            ApiError::PoolExhausted,
        ),
        old(pool).spec_available() ==> (r matches Ok(items) && items@ == store.todo_rows()),
{
    let handle = match pool.acquire() {
        Some(h) => h,
        None => {
            return Err(ApiError::PoolExhausted);
        },
    };
    let items = store.select_todos();
    pool.release(handle);
    Ok(items)
}

/// POST /todos: validates the input, then persists a new row under a fresh
/// id.  A blank title or a pre-completed item is rejected before anything
/// touches the store; nothing is persisted on any failure.
pub fn add_todo(pool: &mut ConnectionPool, store: &mut Store, new_todo: NewTodoItem) -> (r: Result<
    &'static str,
    ApiError,
>)
    requires
        old(store).wf(),
    ensures
        final(store).wf(),
        final(pool).spec_capacity() == old(pool).spec_capacity(),
        final(pool).spec_in_use() == old(pool).spec_in_use(),
        final(store).user_rows() == old(store).user_rows(),
        final(store).user_id_seed() == old(store).user_id_seed(),
        is_blank(new_todo.title@) ==> r == Err::<&'static str, ApiError>(
            ApiError::Validation(ValidationRule::TitleNotBlank),
        ) && *final(store) == *old(store),
        !is_blank(new_todo.title@) && new_todo.completed ==> r == Err::<&'static str, ApiError>(
            ApiError::Validation(ValidationRule::NotPreCompleted),
        ) && *final(store) == *old(store),
        new_todo_ok(new_todo) && !old(pool).spec_available() ==> r == Err::<&'static str,
            ApiError,
        >(ApiError::PoolExhausted) && *final(store) == *old(store),
        new_todo_ok(new_todo) && old(pool).spec_available() && old(store).todo_id_seed()
            == i32::MAX ==> r == Err::<&'static str, ApiError>(
            ApiError::Storage(Operation::AddTodo),
        ) && *final(store) == *old(store),
        new_todo_ok(new_todo) && old(pool).spec_available() && old(store).todo_id_seed()
            < i32::MAX ==> ({
            &&& r matches Ok(m) && m@ == "Todo added successfully!"@
            &&& final(store).todo_rows() == old(store).todo_rows().push(
                inserted_todo(new_todo, (old(store).todo_id_seed()) as i32),
            )
            &&& final(store).todo_rows().last().completed == false
            &&& final(store).todo_id_seed() == old(store).todo_id_seed() + 1
        }),
{
    match validate_new_todo(&new_todo) {
        Err(e) => {
            return Err(e);
        },
        Ok(()) => {},
    }
    let handle = match pool.acquire() {
        Some(h) => h,
        None => {
            return Err(ApiError::PoolExhausted);
        },
    };
    if !store.can_assign_todo_id() {
        pool.release(handle);
        return Err(ApiError::Storage(Operation::AddTodo));
    }
    let _id = store.insert_todo(new_todo);
    pool.release(handle);
    Ok("Todo added successfully!")
}

/// DELETE /todos/{id}: removes the row if present.  A missing id still
/// succeeds — existence is never checked, and the call does not tell
/// "removed" apart from "nothing to remove".
pub fn delete_todo(pool: &mut ConnectionPool, store: &mut Store, id: i32) -> (r: Result<
    &'static str,
    ApiError,
>)
    requires
        old(store).wf(),
    ensures
        final(store).wf(),
        final(pool).spec_capacity() == old(pool).spec_capacity(),
        final(pool).spec_in_use() == old(pool).spec_in_use(),
        final(store).user_rows() == old(store).user_rows(),
        final(store).user_id_seed() == old(store).user_id_seed(),
        final(store).todo_id_seed() == old(store).todo_id_seed(),
        !old(pool).spec_available() ==> r == Err::<&'static str, ApiError>(
            ApiError::PoolExhausted,
        ) && *final(store) == *old(store),
        old(pool).spec_available() ==> ({
            &&& r matches Ok(m) && m@ == "Todo deleted successfully!"@
            &&& final(store).todo_rows() == without_todo(old(store).todo_rows(), id)
        }),
{
    let handle = match pool.acquire() {
        Some(h) => h,
        None => {
            return Err(ApiError::PoolExhausted);
        },
    };
    let _n = store.delete_todo_rows(id);
    pool.release(handle);
    Ok("Todo deleted successfully!")
}

/// PUT /todos/{id}: validates the title, reads for existence, then
/// overwrites only the title and the completion flag.  The other input
/// fields are accepted but not applied — the projection is deliberately
/// narrow, a quirk this layer preserves rather than corrects.  The read
/// and the write are two statements, not one atomic step.
pub fn update_todo(
    pool: &mut ConnectionPool,
    store: &mut Store,
    id: i32,
    updated_todo: NewTodoItem,
) -> (r: Result<&'static str, ApiError>)
    requires
        old(store).wf(),
    ensures
        final(store).wf(),
        final(pool).spec_capacity() == old(pool).spec_capacity(),
        final(pool).spec_in_use() == old(pool).spec_in_use(),
        final(store).user_rows() == old(store).user_rows(),
        final(store).user_id_seed() == old(store).user_id_seed(),
        final(store).todo_id_seed() == old(store).todo_id_seed(),
        is_blank(updated_todo.title@) ==> r == Err::<&'static str, ApiError>(
            ApiError::Validation(ValidationRule::TitleNotBlank),
        ) && *final(store) == *old(store),
        todo_update_ok(updated_todo) && !old(pool).spec_available() ==> r == Err::<&'static str,
            ApiError,
        >(ApiError::PoolExhausted) && *final(store) == *old(store),
        todo_update_ok(updated_todo) && old(pool).spec_available() && !has_todo_with_id(
            old(store).todo_rows(),
            id,
        ) ==> r == Err::<&'static str, ApiError>(ApiError::NotFound(Resource::Todo))
            && *final(store) == *old(store),
        todo_update_ok(updated_todo) && old(pool).spec_available() && has_todo_with_id(
            old(store).todo_rows(),
            id,
        ) ==> ({
            &&& r matches Ok(m) && m@ == "Todo updated successfully!"@
            &&& final(store).todo_rows() == old(store).todo_rows().map_values(
                apply_update(id, updated_todo.title, updated_todo.completed),
            )
        }),
{
    match validate_todo_update(&updated_todo) {
        Err(e) => {
            return Err(e);
        },
        Ok(()) => {},
    }
    let handle = match pool.acquire() {
        Some(h) => h,
        None => {
            return Err(ApiError::PoolExhausted);
        },
    };
    // Existence read first; the overwrite is a separate second statement.
    if !store.contains_todo(id) {
        pool.release(handle);
        return Err(ApiError::NotFound(Resource::Todo));
    }
    let NewTodoItem { title, completed, description: _, priority: _, due_date: _, user_id: _ } =
        updated_todo;
    let _n = store.update_todo_rows(id, title, completed);
    pool.release(handle);
    Ok("Todo updated successfully!")
}

/// PUT /todos/{id}/complete: unconditionally marks the row completed.  A
/// missing id still succeeds — there is no existence check and no
/// not-found outcome here.
pub fn complete_todo(pool: &mut ConnectionPool, store: &mut Store, id: i32) -> (r: Result<
    &'static str,
    ApiError,
>)
    requires
        old(store).wf(),
    ensures
        final(store).wf(),
        final(pool).spec_capacity() == old(pool).spec_capacity(),
        final(pool).spec_in_use() == old(pool).spec_in_use(),
        final(store).user_rows() == old(store).user_rows(),
        final(store).user_id_seed() == old(store).user_id_seed(),
        final(store).todo_id_seed() == old(store).todo_id_seed(),
        !old(pool).spec_available() ==> r == Err::<&'static str, ApiError>(
            ApiError::PoolExhausted,
        ) && *final(store) == *old(store),
        old(pool).spec_available() ==> ({
            &&& r matches Ok(m) && m@ == "Todo marked as completed!"@
            &&& final(store).todo_rows() == old(store).todo_rows().map_values(apply_complete(id))
        }),
{
    let handle = match pool.acquire() {
        Some(h) => h,
        None => {
            return Err(ApiError::PoolExhausted);
        },
    };
    let _n = store.complete_todo_rows(id);
    pool.release(handle);
    Ok("Todo marked as completed!")
}

/// GET /todos/search: the rows owned by `user_id`, narrowed by the
/// optional needle.  No proof of caller identity is asked for: whoever
/// supplies a user id receives that user's rows, a gap this layer
/// preserves as it stands.
pub fn search_todos(
    pool: &mut ConnectionPool,
    store: &Store,
    query: Option<String>,
    user_id: i32,
) -> (r: Result<Vec<TodoItem>, ApiError>)
    ensures
        final(pool).spec_capacity() == old(pool).spec_capacity(),
        final(pool).spec_in_use() == old(pool).spec_in_use(),
        !old(pool).spec_available() ==> r == Err::<Vec<TodoItem>, ApiError>(
            ApiError::PoolExhausted,
        ),
        old(pool).spec_available() ==> (r matches Ok(items) && items@ == search_results(
            store.todo_rows(),
            user_id,
            string_query_view(query),
        )),
{
    let handle = match pool.acquire() {
        Some(h) => h,
        None => {
            return Err(ApiError::PoolExhausted);
        },
    };
    let items = match &query {
        Some(q) => store.select_todos_matching(user_id, Some(q.as_str())),
        None => store.select_todos_matching(user_id, None),
    };
    pool.release(handle);
    Ok(items)
}

/// Creations never hand out the same id twice: a successful creation takes
/// the id seed of the store it ran against, and every creation moves the
/// seed strictly up, so ids drawn one after another — in whatever order
/// callers overlapped — all differ.
pub proof fn lemma_created_ids_distinct(earlier: Store, later: Store, id1: i32, id2: i32)
    requires
        earlier.wf(),
        later.wf(),
        id1 as int == earlier.todo_id_seed(),
        later.todo_id_seed() > earlier.todo_id_seed(),
        id2 as int == later.todo_id_seed(),
    ensures
        id1 != id2,
{
}

} // verus!
