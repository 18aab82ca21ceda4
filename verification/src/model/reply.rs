//! Replies: the stored row, the create/edit body, and the joined response row.
//!
//! A reply lives under exactly one post. Every lookup is scoped by the
//! `(reply id, post id)` pair: a reply id that exists under a different post
//! is treated as not found.

use vstd::prelude::*;

verus! {

/// The body a client sends to create or edit a reply: the text alone.
pub struct Input {
    pub text: String,
}

/// A stored reply. `post_id` is the parent post and `user_id` the author;
/// neither changes after creation. Only `text` is mutable, and only by the
/// author.
pub struct Model {
    pub id: i64,
    pub post_id: i64,
    pub user_id: i64,
    pub text: String,
    pub created_at: i64,
}

/// A reply as answered to clients: the stored row joined with its author's
/// username.
pub struct Output {
    pub id: i64,
    pub post_id: i64,
    pub user_id: i64,
    pub username: String,
    pub text: String,
    pub created_at: i64,
}

/// The foreign keys of a reply: `User` names its `user_id` column and `Post`
/// its `post_id` column. The store invariant keeps both pointing at stored
/// rows; deleting a post removes its replies with it.
#[derive(Clone, Copy, Debug, PartialEq, Eq, Structural)]
pub enum Relation {
    User,
    Post,
}

/// The mathematical value of a stored reply.
pub struct ReplyView {
    pub id: int,
    pub post_id: int,
    pub user_id: int,
    pub text: Seq<char>,
    pub created_at: int,
}

impl View for Model {
    type V = ReplyView;

    open spec fn view(&self) -> ReplyView {
        ReplyView {
            id: self.id as int,
            post_id: self.post_id as int,
            user_id: self.user_id as int,
            text: self.text@,
            created_at: self.created_at as int,
        }
    }
}

/// The mathematical value of a joined reply row.
pub struct OutputView {
    pub id: int,
    pub post_id: int,
    pub user_id: int,
    pub username: Seq<char>,
    pub text: Seq<char>,
    pub created_at: int,
}

impl View for Output {
    type V = OutputView;

    open spec fn view(&self) -> OutputView {
        OutputView {
            id: self.id as int,
            post_id: self.post_id as int,
            user_id: self.user_id as int,
            username: self.username@,
            text: self.text@,
            created_at: self.created_at as int,
        }
    }
}

} // verus!
