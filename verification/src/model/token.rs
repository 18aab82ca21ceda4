//! Session tokens: the stored row behind the `token` cookie.

use vstd::prelude::*;

verus! {

/// A stored session token.
///
/// `hash` is the storage key the cookie value is looked up by. This library
/// stores the high-entropy random session identifier itself under that key:
/// the identifier is unguessable on its own, so no further hashing is applied
/// before storage. A token is created at login, is never refreshed, and is
/// never deleted: expiry is enforced at lookup time, not by removing the row.
pub struct Model {
    pub hash: String,
    pub user_id: i64,
    pub expires_at: i64,
}

/// The foreign key of a token: `User` names its `user_id` column, kept
/// pointing at a stored user by the store invariant.
#[derive(Clone, Copy, Debug, PartialEq, Eq, Structural)]
pub enum Relation {
    User,
}

/// The mathematical value of a stored token.
pub struct TokenView {
    pub hash: Seq<char>,
    pub user_id: int,
    pub expires_at: int,
}

impl View for Model {
    type V = TokenView;

    open spec fn view(&self) -> TokenView {
        TokenView {
            hash: self.hash@,
            user_id: self.user_id as int,
            expires_at: self.expires_at as int,
        }
    }
}

} // verus!
