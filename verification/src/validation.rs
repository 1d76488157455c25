//! Field-level input rules, run before any persistence call.
//!
//! The rules are small and composable: a required text field must be
//! non-blank after trimming, and a to-do being created must not already be
//! completed.  Each composed validator reports the first rule broken, in a
//! fixed order.

use vstd::prelude::*;
use crate::errors::{ApiError, ValidationRule};
use crate::text::{is_blank, str_is_blank};
use crate::todos::NewTodoItem;
use crate::user::NewUser;

verus! {

/// A creation input passes every field rule.
pub open spec fn new_todo_ok(new_todo: NewTodoItem) -> bool {
    !is_blank(new_todo.title@) && !new_todo.completed
}

/// An update input passes every field rule: only the title is checked.
pub open spec fn todo_update_ok(new_todo: NewTodoItem) -> bool {
    !is_blank(new_todo.title@)
}

/// A user-creation input passes every field rule.
pub open spec fn new_user_ok(new_user: NewUser) -> bool {
    !is_blank(new_user.username@) && !is_blank(new_user.password_hash@)
}

/// The rule for required text: reject a value that is blank after trimming.
pub fn require_filled(value: &str, rule: ValidationRule) -> (r: Result<(), ApiError>)
    ensures
        r == (if is_blank(value@) {
            Err::<(), ApiError>(ApiError::Validation(rule))
        } else {
            Ok::<(), ApiError>(())
        }),
{
    if str_is_blank(value) {
        Err(ApiError::Validation(rule))
    } else {
        Ok(())
    }
}

/// The creation rule: a new to-do must start incomplete.
pub fn require_incomplete(completed: bool) -> (r: Result<(), ApiError>)
    ensures
        r == (if completed {
            Err::<(), ApiError>(ApiError::Validation(ValidationRule::NotPreCompleted))
        } else {
            Ok::<(), ApiError>(())
        }),
{
    if completed {
        Err(ApiError::Validation(ValidationRule::NotPreCompleted))
    } else {
        Ok(())
    }
}

/// Every field rule for creating a to-do, title first.
pub fn validate_new_todo(new_todo: &NewTodoItem) -> (r: Result<(), ApiError>)
    ensures
        is_blank(new_todo.title@) ==> r == Err::<(), ApiError>(
            ApiError::Validation(ValidationRule::TitleNotBlank),
        ),
        !is_blank(new_todo.title@) && new_todo.completed ==> r == Err::<(), ApiError>(
            ApiError::Validation(ValidationRule::NotPreCompleted),
        ),
        new_todo_ok(*new_todo) ==> r == Ok::<(), ApiError>(()),
{
    match require_filled(new_todo.title.as_str(), ValidationRule::TitleNotBlank) {
        Err(e) => return Err(e),
        Ok(()) => {},
    }
    require_incomplete(new_todo.completed)
}

/// Every field rule for updating a to-do: the title must be filled; the
/// completion flag may take either value on an update.
pub fn validate_todo_update(new_todo: &NewTodoItem) -> (r: Result<(), ApiError>)
    ensures
        is_blank(new_todo.title@) ==> r == Err::<(), ApiError>(
            ApiError::Validation(ValidationRule::TitleNotBlank),
        ),
        todo_update_ok(*new_todo) ==> r == Ok::<(), ApiError>(()),
{
    require_filled(new_todo.title.as_str(), ValidationRule::TitleNotBlank)
}

/// Every field rule for creating a user, username first.
pub fn validate_new_user(new_user: &NewUser) -> (r: Result<(), ApiError>)
    ensures
        is_blank(new_user.username@) ==> r == Err::<(), ApiError>(
            ApiError::Validation(ValidationRule::UsernameNotBlank),
        ),
        !is_blank(new_user.username@) && is_blank(new_user.password_hash@) ==> r == Err::<(),
            ApiError,
        >(ApiError::Validation(ValidationRule::PasswordNotBlank)),
        new_user_ok(*new_user) ==> r == Ok::<(), ApiError>(()),
{
    match require_filled(new_user.username.as_str(), ValidationRule::UsernameNotBlank) {
        Err(e) => return Err(e),
        Ok(()) => {},
    }
    require_filled(new_user.password_hash.as_str(), ValidationRule::PasswordNotBlank)
}

} // verus!
