//! A minimal forum backend: users register and log in, authenticated users
//! create posts and replies and may edit or delete only their own content.
//!
//! The store (users, session tokens, posts, replies) is held in memory with
//! its referential integrity stated as an invariant; the session guard, the
//! ownership check and every create/read/update/delete handler are verified
//! against specifications over that state. Password hashing and session-id
//! generation are the only outside calls, each behind a trusted wrapper.

pub mod controller;
pub mod crypto;
pub mod errors;
pub mod laws;
pub mod model;
pub mod store;
