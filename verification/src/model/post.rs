//! Posts: the stored row, the create/edit body, and the joined response row.

use vstd::prelude::*;

verus! {

/// The body a client sends to create or edit a post: the text alone. The id,
/// the author and the creation time are never taken from the client.
pub struct Input {
    pub text: String,
}

/// A stored post. `user_id` is the author and never changes after creation;
/// only `text` is mutable, and only by the author.
pub struct Model {
    pub id: i64,
    pub user_id: i64,
    pub text: String,
    pub created_at: i64,
}

/// A post as answered to clients: the stored row joined with its author's
/// username.
pub struct Output {
    pub id: i64,
    pub user_id: i64,
    pub username: String,
    pub text: String,
    pub created_at: i64,
}

/// The foreign keys touching a post: `User` names its `user_id` column, and
/// `Reply` the `post_id` column of the replies under it. Deleting a post
/// cascades over the `Reply` relation.
#[derive(Clone, Copy, Debug, PartialEq, Eq, Structural)]
pub enum Relation {
    User,
    Reply,
}

/// The mathematical value of a stored post.
pub struct PostView {
    pub id: int,
    pub user_id: int,
    pub text: Seq<char>,
    pub created_at: int,
}

impl View for Model {
    type V = PostView;

    open spec fn view(&self) -> PostView {
        PostView {
            id: self.id as int,
            user_id: self.user_id as int,
            text: self.text@,
            created_at: self.created_at as int,
        }
    }
}

/// The mathematical value of a joined post row.
pub struct OutputView {
    pub id: int,
    pub user_id: int,
    pub username: Seq<char>,
    pub text: Seq<char>,
    pub created_at: int,
}

impl View for Output {
    type V = OutputView;

    open spec fn view(&self) -> OutputView {
        OutputView {
            id: self.id as int,
            user_id: self.user_id as int,
            username: self.username@,
            text: self.text@,
            created_at: self.created_at as int,
        }
    }
}

} // verus!
