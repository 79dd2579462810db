//! The request-handling layer: one function per route, each mapping its
//! inputs through the store to an HTTP status code and a serializable
//! response.

use vstd::prelude::*;

use crate::store::{patched, opt_text, StoreError, UserStore, User, UserView, views_of};
use crate::textmatch::{str_contains, text_contains};
use crate::timefmt::{format_timestamp, timestamp_text};
use crate::MAX_TIMESTAMP;

verus! {

pub const STATUS_CREATED: u16 = 201;

pub const STATUS_NO_CONTENT: u16 = 204;

pub const STATUS_NOT_FOUND: u16 = 404;

pub const STATUS_CONFLICT: u16 = 409;

pub const STATUS_INTERNAL_ERROR: u16 = 500;

/// Body of a creation request: both fields are required.
#[derive(Debug)]
pub struct CreateUserRequest {
    pub name: String,
    pub email: String,
}

/// Body of an update request: absent fields keep their stored value.
#[derive(Debug)]
pub struct UpdateUserRequest {
    pub name: Option<String>,
    pub email: Option<String>,
}

/// A user record as it is serialized for a response, timestamps rendered as
/// text.
#[derive(Debug)]
pub struct UserResponse {
    pub id: i32,
    pub name: String,
    pub email: String,
    pub created_at: String,
    pub updated_at: String,
}

/// Body of the health-check response.
#[derive(Debug)]
pub struct HealthCheckResponse {
    pub status: String,
}

/// `r` serializes the record `u`.
pub open spec fn response_matches(r: UserResponse, u: UserView) -> bool {
    &&& r.id as int == u.id
    &&& r.name@ == u.name
    &&& r.email@ == u.email
    &&& r.created_at@ == timestamp_text(u.created_at as i64)
    &&& r.updated_at@ == timestamp_text(u.updated_at as i64)
}

impl UserResponse {
    /// Serialize a record.
    pub fn from_user(u: &User) -> (r: UserResponse)
        requires
            0 <= u.created_at <= MAX_TIMESTAMP,
            0 <= u.updated_at <= MAX_TIMESTAMP,
        ensures
            response_matches(r, u@),
    {
        UserResponse {
            id: u.id,
            name: u.name.clone(),
            email: u.email.clone(),
            created_at: format_timestamp(u.created_at),
            updated_at: format_timestamp(u.updated_at),
        }
    }
}

/// The health check: always reports that the service is up.
pub fn health_check() -> (r: HealthCheckResponse)
    ensures
        r.status@ == "ok"@,
{
    HealthCheckResponse { status: "ok".to_owned() }
}

/// A storage error message reports a uniqueness-constraint violation when
/// it mentions a duplicate key or a unique constraint.
pub open spec fn classified_error(msg: Seq<char>) -> StoreError {
    if text_contains(msg, "duplicate key"@) || text_contains(msg, "unique constraint"@) {
        StoreError::UniqueViolation
    } else {
        StoreError::Other
    }
}

/// Classify a storage layer's error message: a uniqueness-constraint
/// violation is told apart from every other failure by the message's text.
pub fn classify_storage_error(msg: &str) -> (r: StoreError)
    ensures
        r == classified_error(msg@),
{
    if str_contains(msg, "duplicate key") || str_contains(msg, "unique constraint") {
        StoreError::UniqueViolation
    } else {
        StoreError::Other
    }
}

/// The status a failed creation reports: a conflict for a uniqueness
/// violation, a generic server error otherwise.
pub open spec fn create_failure_code(e: StoreError) -> u16 {
    if e == StoreError::UniqueViolation {
        STATUS_CONFLICT
    } else {
        STATUS_INTERNAL_ERROR
    }
}

/// Map a failed creation's error to its status code.
pub fn create_failure_status(e: &StoreError) -> (r: u16)
    ensures
        r == create_failure_code(*e),
{
    match e {
        StoreError::UniqueViolation => STATUS_CONFLICT,
        _ => STATUS_INTERNAL_ERROR,
    }
}

/// The status a failed lookup, update or deletion reports: not-found when
/// no record carries the id, a generic server error for every other
/// failure (a uniqueness violation on update included).
pub open spec fn lookup_failure_code(e: StoreError) -> u16 {
    if e == StoreError::NotFound {
        STATUS_NOT_FOUND
    } else {
        STATUS_INTERNAL_ERROR
    }
}

/// Map a failed lookup, update or deletion's error to its status code.
pub fn lookup_failure_status(e: &StoreError) -> (r: u16)
    ensures
        r == lookup_failure_code(*e),
{
    match e {
        StoreError::NotFound => STATUS_NOT_FOUND,
        _ => STATUS_INTERNAL_ERROR,
    }
}

/// Create a user: a fresh id and `now` for both timestamps on success, a
/// conflict when the email is already taken.
pub fn create_user(store: &mut UserStore, req: CreateUserRequest, now: i64) -> (r: Result<
    (u16, UserResponse),
    u16,
>)
    requires
        old(store)@.wf(),
        old(store)@.next_id < i32::MAX as int,
        0 <= now <= MAX_TIMESTAMP,
    ensures
        final(store)@.wf(),
        old(store)@.email_taken(req.email@) ==> (r matches Err(c) && c == STATUS_CONFLICT
            && final(store)@ == old(store)@),
        !old(store)@.email_taken(req.email@) ==> (r matches Ok(p) && p.0 == STATUS_CREATED
            && response_matches(
            p.1,
            UserView {
                id: old(store)@.next_id,
                name: req.name@,
                email: req.email@,
                created_at: now as int,
                updated_at: now as int,
            },
        ) && final(store)@ == old(store)@.after_insert(req.name@, req.email@, now as int)),
{
    match store.insert(req.name, req.email, now) {
        Result::Ok(u) => Result::Ok((STATUS_CREATED, UserResponse::from_user(&u))),
        Result::Err(e) => Result::Err(create_failure_status(&e)),
    }
}

/// List all users, in storage order.
pub fn list_users(store: &UserStore) -> (r: Vec<UserResponse>)
    requires
        store@.wf(),
    ensures
        r@.len() == store@.users.len(),
        forall|i: int|
            0 <= i < r@.len() ==> response_matches(#[trigger] r@[i], store@.users[i]),
{
    let users = store.find_all();
    let n = users.len();
    let mut out: Vec<UserResponse> = Vec::new();
    let mut i: usize = 0;
    while i < n
        invariant
            store@.wf(),
            n == users@.len(),
            views_of(users@) == store@.users,
            i <= n,
            out@.len() == i,
            forall|j: int|
                0 <= j < i ==> response_matches(#[trigger] out@[j], store@.users[j]),
        decreases n - i,
    {
        proof {
            assert(users@[i as int]@ == store@.users[i as int]);
        }
        out.push(UserResponse::from_user(&users[i]));
        i += 1;
    }
    out
}

/// Get one user by id.
pub fn get_user(store: &UserStore, id: i32) -> (r: Result<UserResponse, u16>)
    requires
        store@.wf(),
    ensures
        store@.has_id(id as int) ==> (r matches Ok(resp) && response_matches(
            resp,
            store@.user_at(id as int),
        )),
        !store@.has_id(id as int) ==> (r matches Err(c) && c == STATUS_NOT_FOUND),
{
    match store.find_by_id(id) {
        Result::Ok(u) => Result::Ok(UserResponse::from_user(&u)),
        Result::Err(e) => Result::Err(lookup_failure_status(&e)),
    }
}

/// Update a user: supplied fields are replaced, absent fields are kept,
/// and the modification timestamp is refreshed even when the body is
/// empty.
pub fn update_user(store: &mut UserStore, id: i32, req: UpdateUserRequest, now: i64) -> (r: Result<
    UserResponse,
    u16,
>)
    requires
        old(store)@.wf(),
        0 <= now <= MAX_TIMESTAMP,
        old(store)@.has_id(id as int) ==> old(store)@.user_at(id as int).created_at <= now,
    ensures
        final(store)@.wf(),
        !old(store)@.has_id(id as int) ==> (r matches Err(c) && c == STATUS_NOT_FOUND && final(store)@ == old(store)@),
        old(store)@.has_id(id as int) && old(store)@.update_conflicts(
            id as int,
            opt_text(req.email),
        ) ==> (r matches Err(c) && c == STATUS_INTERNAL_ERROR && final(store)@ == old(store)@),
        old(store)@.has_id(id as int) && !old(store)@.update_conflicts(
            id as int,
            opt_text(req.email),
        ) ==> (r matches Ok(resp) && response_matches(
            resp,
            patched(
                old(store)@.user_at(id as int),
                opt_text(req.name),
                opt_text(req.email),
                now as int,
            ),
        ) && final(store)@ == old(store)@.after_update(
            id as int,
            opt_text(req.name),
            opt_text(req.email),
            now as int,
        )),
{
    match store.update_by_id(id, req.name, req.email, now) {
        Result::Ok(u) => Result::Ok(UserResponse::from_user(&u)),
        Result::Err(e) => Result::Err(lookup_failure_status(&e)),
    }
}

/// Delete a user: empty success, or not-found.
pub fn delete_user(store: &mut UserStore, id: i32) -> (r: Result<u16, u16>)
    requires
        old(store)@.wf(),
    ensures
        final(store)@.wf(),
        old(store)@.has_id(id as int) ==> (r matches Ok(c) && c == STATUS_NO_CONTENT && final(store)@ == old(store)@.after_delete(id as int)),
        !old(store)@.has_id(id as int) ==> (r matches Err(c) && c == STATUS_NOT_FOUND && final(store)@ == old(store)@),
{
    match store.delete_by_id(id) {
        Result::Ok(_) => Result::Ok(STATUS_NO_CONTENT),
        Result::Err(e) => Result::Err(lookup_failure_status(&e)),
    }
}

} // verus!
