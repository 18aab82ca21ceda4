//! The request handlers, one module per concern: `auth` for registration,
//! login, the session guard and the ownership check; `post` and `reply` for
//! the two resources' create/read/update/delete.
//!
//! Each handler is a plain function from the store and the request's values
//! to a response, with the store passed in explicitly and the current time
//! taken as an argument; the surrounding server is expected to dispatch
//! routes, decode bodies and read the clock, and nothing more.

pub mod auth;
pub mod post;
pub mod reply;
