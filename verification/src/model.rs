//! The stored entities and their request/response shapes.
//!
//! Each entity module holds the stored row (`Model`), the body a client sends
//! to create or edit one (`Input`), the row joined with its author's username
//! as it is answered to clients (`Output`), and the entity's foreign-key
//! relations (`Relation`). Timestamps are milliseconds since the Unix epoch,
//! kept as plain `i64` values.

use vstd::prelude::*;

pub mod post;
pub mod reply;
pub mod token;
pub mod user;

verus! {

/// The authenticated principal: the user id resolved from a valid, unexpired
/// session token by the session guard.
#[derive(Clone, Copy, Debug, PartialEq, Eq, Structural)]
pub struct AuthUser {
    pub id: i64,
}

} // verus!
