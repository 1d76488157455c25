//! Error taxonomy and the fixed boundary mapping.
//!
//! Internal outcomes fall into three kinds: a validation failure (the input
//! violates a field rule and the client can correct it), a missing row, and
//! a storage or pool failure.  Each outcome crosses the boundary as exactly
//! one fixed `{status, message}` pair; no richer detail leaks out.

use vstd::prelude::*;

verus! {

/// Field-level rules that are checked before any persistence call.
#[derive(Clone, Copy, Debug, PartialEq, Eq, Structural)]
pub enum ValidationRule {
    /// A to-do title must be non-empty after trimming whitespace.
    TitleNotBlank,
    /// A newly created to-do must not start out completed.
    NotPreCompleted,
    /// A username must be non-empty after trimming whitespace.
    UsernameNotBlank,
    /// A password hash must be non-empty after trimming whitespace.
    PasswordNotBlank,
}

/// The kinds of row a lookup can fail to find.
#[derive(Clone, Copy, Debug, PartialEq, Eq, Structural)]
pub enum Resource {
    Todo,
    User,
}

/// The storage operations whose engine-side failure has a message of its own.
#[derive(Clone, Copy, Debug, PartialEq, Eq, Structural)]
pub enum Operation {
    FetchTodos,
    AddTodo,
    DeleteTodo,
    UpdateTodo,
    CompleteTodo,
    SearchTodos,
    CreateUser,
}

/// Internal outcome of a repository call.
///
/// Every request ends here on failure: there are no retries and no partial
/// commits.  `Validation` maps to 400, `NotFound` to 404, and `Storage` and
/// `PoolExhausted` to 500.
#[derive(Clone, Copy, Debug, PartialEq, Eq, Structural)]
pub enum ApiError {
    Validation(ValidationRule),
    NotFound(Resource),
    Storage(Operation),
    PoolExhausted,
}

pub open spec fn spec_status_of(e: ApiError) -> u16 {
    match e {
        ApiError::Validation(_) => 400,
        ApiError::NotFound(_) => 404,
        ApiError::Storage(_) => 500,
        ApiError::PoolExhausted => 500,
    }
}

pub open spec fn spec_message_of(e: ApiError) -> Seq<char> {
    match e {
        ApiError::Validation(ValidationRule::TitleNotBlank) => "Title cannot be empty"@,
        ApiError::Validation(ValidationRule::NotPreCompleted) => "New todo item cannot be marked as completed"@,
        ApiError::Validation(ValidationRule::UsernameNotBlank) => "Username cannot be empty"@,
        ApiError::Validation(ValidationRule::PasswordNotBlank) => "Password cannot be empty"@,
        ApiError::NotFound(Resource::Todo) => "Todo item not found"@,
        ApiError::NotFound(Resource::User) => "User not found"@,
        ApiError::Storage(Operation::FetchTodos) => "Failed to fetch todos"@,
        ApiError::Storage(Operation::AddTodo) => "Failed to add todo"@,
        ApiError::Storage(Operation::DeleteTodo) => "Failed to delete todo"@,
        ApiError::Storage(Operation::UpdateTodo) => "Failed to update todo"@,
        ApiError::Storage(Operation::CompleteTodo) => "Failed to complete todo"@,
        ApiError::Storage(Operation::SearchTodos) => "Failed to search todos"@,
        ApiError::Storage(Operation::CreateUser) => "Failed to create user"@,
        ApiError::PoolExhausted => "Failed to get connection from pool"@,
    }
}

/// The HTTP status that a failed call surfaces with.
pub fn status_of(e: &ApiError) -> (s: u16)
    ensures
        s == spec_status_of(*e),
{
    match e {
        ApiError::Validation(_) => 400,
        ApiError::NotFound(_) => 404,
        ApiError::Storage(_) => 500,
        ApiError::PoolExhausted => 500,
    }
}

/// The one fixed human-readable message that a failed call surfaces with.
pub fn message_of(e: &ApiError) -> (m: &'static str)
    ensures
        m@ == spec_message_of(*e),
{
    match e {
        ApiError::Validation(ValidationRule::TitleNotBlank) => "Title cannot be empty",
        ApiError::Validation(ValidationRule::NotPreCompleted) => "New todo item cannot be marked as completed",
        ApiError::Validation(ValidationRule::UsernameNotBlank) => "Username cannot be empty",
        ApiError::Validation(ValidationRule::PasswordNotBlank) => "Password cannot be empty",
        ApiError::NotFound(Resource::Todo) => "Todo item not found",
        ApiError::NotFound(Resource::User) => "User not found",
        ApiError::Storage(Operation::FetchTodos) => "Failed to fetch todos",
        ApiError::Storage(Operation::AddTodo) => "Failed to add todo",
        ApiError::Storage(Operation::DeleteTodo) => "Failed to delete todo",
        ApiError::Storage(Operation::UpdateTodo) => "Failed to update todo",
        ApiError::Storage(Operation::CompleteTodo) => "Failed to complete todo",
        ApiError::Storage(Operation::SearchTodos) => "Failed to search todos",
        ApiError::Storage(Operation::CreateUser) => "Failed to create user",
        ApiError::PoolExhausted => "Failed to get connection from pool",
    }
}

/// The full boundary translation: status and message together.
pub fn error_response(e: &ApiError) -> (r: (u16, &'static str))
    ensures
        r.0 == spec_status_of(*e),
        r.1@ == spec_message_of(*e),
{
    (status_of(e), message_of(e))
}

} // verus!
