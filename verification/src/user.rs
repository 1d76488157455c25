//! User rows and the repository operations over them.
//!
//! Users are created once and read by id; no update or delete is exposed
//! at this layer.  The read goes through a projection that selects only
//! the id and username columns, so the hash never reaches a caller.

use vstd::prelude::*;
use crate::errors::{ApiError, Operation, Resource, ValidationRule};
use crate::pool::ConnectionPool;
use crate::store::{has_user_with_id, inserted_user, Store};
use crate::text::is_blank;
use crate::validation::{new_user_ok, validate_new_user};

verus! {

/// A persisted user row.  The hash is opaque to this layer: a caller
/// supplies it pre-hashed and nothing here ever derives or inspects it.
#[derive(Debug)]
pub struct User {
    pub id: i32,
    pub username: String,
    pub password_hash: String,
}

/// The input record for creating a user.
#[derive(Debug)]
pub struct NewUser {
    pub username: String,
    pub password_hash: String,
}

/// The read projection of a user: id and username only.  The hash field is
/// structurally absent from this type, not filtered out of a value.
#[derive(Debug)]
pub struct PublicUser {
    pub id: i32,
    pub username: String,
}

/// POST /users: validates both fields, then persists them verbatim under a
/// fresh id.  Hashing happened before this layer; the hash is stored as
/// given.  Nothing is persisted on any failure.
pub fn create_user(pool: &mut ConnectionPool, store: &mut Store, new_user: NewUser) -> (r: Result<
    &'static str,
    ApiError,
>)
    requires
        old(store).wf(),
    ensures
        final(store).wf(),
        final(pool).spec_capacity() == old(pool).spec_capacity(),
        final(pool).spec_in_use() == old(pool).spec_in_use(),
        final(store).todo_rows() == old(store).todo_rows(),
        final(store).todo_id_seed() == old(store).todo_id_seed(),
        is_blank(new_user.username@) ==> r == Err::<&'static str, ApiError>(
            ApiError::Validation(ValidationRule::UsernameNotBlank),
        ) && *final(store) == *old(store),
        !is_blank(new_user.username@) && is_blank(new_user.password_hash@) ==> r == Err::<
            &'static str,
            ApiError,
        >(ApiError::Validation(ValidationRule::PasswordNotBlank)) && *final(store)
            == *old(store),
        new_user_ok(new_user) && !old(pool).spec_available() ==> r == Err::<&'static str,
            ApiError,
        >(ApiError::PoolExhausted) && *final(store) == *old(store),
        new_user_ok(new_user) && old(pool).spec_available() && old(store).user_id_seed()
            == i32::MAX ==> r == Err::<&'static str, ApiError>(
            ApiError::Storage(Operation::CreateUser),
        ) && *final(store) == *old(store),
        new_user_ok(new_user) && old(pool).spec_available() && old(store).user_id_seed()
            < i32::MAX ==> ({
            &&& r matches Ok(m) && m@ == "User created successfully!"@
            &&& final(store).user_rows() == old(store).user_rows().push(
                inserted_user(new_user, (old(store).user_id_seed()) as i32),
            )
            &&& final(store).user_id_seed() == old(store).user_id_seed() + 1
        }),
{
    match validate_new_user(&new_user) {
        Err(e) => {
            return Err(e);
        },
        Ok(()) => {},
    }
    let handle = match pool.acquire() {
        Some(h) => h,
        None => {
            return Err(ApiError::PoolExhausted);
        },
    };
    if !store.can_assign_user_id() {
        pool.release(handle);
        return Err(ApiError::Storage(Operation::CreateUser));
    }
    let _id = store.insert_user(new_user);
    pool.release(handle);
    Ok("User created successfully!")
}

/// GET /users/{id}: the password-free projection of the user, or a
/// not-found outcome.  The result type has no field for the hash, so its
/// absence is structural, not a filter.
pub fn get_user_by_id(pool: &mut ConnectionPool, store: &Store, id: i32) -> (r: Result<
    PublicUser,
    ApiError,
>)
    ensures
        final(pool).spec_capacity() == old(pool).spec_capacity(),
        final(pool).spec_in_use() == old(pool).spec_in_use(),
        !old(pool).spec_available() ==> r == Err::<PublicUser, ApiError>(ApiError::PoolExhausted),
        old(pool).spec_available() && !has_user_with_id(store.user_rows(), id) ==> r == Err::<
            PublicUser,
            ApiError,
        >(ApiError::NotFound(Resource::User)),
        old(pool).spec_available() && has_user_with_id(store.user_rows(), id) ==> (r matches Ok(p)
            && exists|i: int|
            0 <= i < store.user_rows().len() && (#[trigger] store.user_rows()[i]).id == id && p.id
                == id && p.username == store.user_rows()[i].username),
{
    let handle = match pool.acquire() {
        Some(h) => h,
        None => {
            return Err(ApiError::PoolExhausted);
        },
    };
    let looked_up = store.select_user_public(id);
    pool.release(handle);
    match looked_up {
        Some(p) => Ok(p),
        None => Err(ApiError::NotFound(Resource::User)),
    }
}

} // verus!
