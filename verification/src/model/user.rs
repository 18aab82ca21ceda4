//! Users: the stored account row and the registration/login shapes.

use vstd::prelude::*;

verus! {

/// The credentials a client sends to register or to log in.
pub struct Input {
    pub username: String,
    pub password: String,
}

/// A stored user account. `password` holds the bcrypt hash of the password
/// chosen at registration, never the clear text. Accounts are immutable once
/// created: there is no edit or delete path.
pub struct Model {
    pub id: i64,
    pub username: String,
    pub password: String,
    pub created_at: i64,
}

/// The body answered to registration and login requests: a success flag and a
/// human-readable message. Both outcomes travel in a 200 response so that the
/// status code does not reveal whether the username or the password was wrong.
pub struct LoginResponse {
    pub status: bool,
    pub message: String,
}

/// The rows owned by a user: its session tokens, posts and replies. Each
/// variant names a `user_id` column in the corresponding table; the store
/// invariant keeps every such column pointing at a stored user.
#[derive(Clone, Copy, Debug, PartialEq, Eq, Structural)]
pub enum Relation {
    Token,
    Post,
    Reply,
}

/// The mathematical value of a stored user.
pub struct UserView {
    pub id: int,
    pub username: Seq<char>,
    pub password: Seq<char>,
    pub created_at: int,
}

impl View for Model {
    type V = UserView;

    open spec fn view(&self) -> UserView {
        UserView {
            id: self.id as int,
            username: self.username@,
            password: self.password@,
            created_at: self.created_at as int,
        }
    }
}

} // verus!
