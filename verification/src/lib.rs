//! A verified model of a small user-directory service: a store of user
//! records with create, list, get, update and delete operations, together
//! with the pure request-handling logic that maps each operation's outcome
//! to an HTTP status code and a serializable response.

use vstd::prelude::*;

pub mod handlers;
pub mod laws;
pub mod store;
pub mod textmatch;
pub mod timefmt;

verus! {

/// Latest second this library will render as text: 9999-12-31T23:59:59 UTC.
pub const MAX_TIMESTAMP: i64 = 253402300799;

} // verus!

