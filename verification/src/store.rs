//! The in-memory store: users, session tokens, posts and replies, with the
//! referential integrity the handlers rely on stated as an invariant.
//!
//! `StoreView` is the mathematical value of a store; `Store` is the
//! executable one. The invariant `StoreView::wf` pins down what the schema
//! enforced in a relational database: primary keys are unique (and usernames
//! besides), and every foreign key points at a stored row.

use crate::crypto::{DEFAULT_COST, MAX_COST, MIN_COST};
use crate::model::post;
use crate::model::post::PostView;
use crate::model::reply;
use crate::model::reply::ReplyView;
use crate::model::token;
use crate::model::token::TokenView;
use crate::model::user;
use crate::model::user::UserView;
use vstd::prelude::*;

verus! {

// ------------------------------------------------------------------
// Lookup predicates over the view sequences
// ------------------------------------------------------------------
/// Whether some stored user carries this username.
pub open spec fn has_username(users: Seq<UserView>, name: Seq<char>) -> bool {
    exists|i: int| 0 <= i < users.len() && users[i].username == name
}

/// The index of the user carrying this username (unique under `wf`).
pub open spec fn username_ix(users: Seq<UserView>, name: Seq<char>) -> int {
    choose|i: int| 0 <= i < users.len() && users[i].username == name
}

/// The user carrying this username (meaningful under `has_username`).
pub open spec fn user_by_name(users: Seq<UserView>, name: Seq<char>) -> UserView {
    users[username_ix(users, name)]
}

/// Whether some stored user carries this id.
pub open spec fn has_user_id(users: Seq<UserView>, id: int) -> bool {
    exists|i: int| 0 <= i < users.len() && users[i].id == id
}

/// The index of the user carrying this id (unique under `wf`).
pub open spec fn user_id_ix(users: Seq<UserView>, id: int) -> int {
    choose|i: int| 0 <= i < users.len() && users[i].id == id
}

/// The user carrying this id (meaningful under `has_user_id`).
pub open spec fn user_by_id(users: Seq<UserView>, id: int) -> UserView {
    users[user_id_ix(users, id)]
}

/// Whether some stored token is keyed by this value.
pub open spec fn has_token(tokens: Seq<TokenView>, hash: Seq<char>) -> bool {
    exists|i: int| 0 <= i < tokens.len() && tokens[i].hash == hash
}

/// The index of the token keyed by this value (unique under `wf`).
pub open spec fn token_ix(tokens: Seq<TokenView>, hash: Seq<char>) -> int {
    choose|i: int| 0 <= i < tokens.len() && tokens[i].hash == hash
}

/// The token keyed by this value (meaningful under `has_token`).
pub open spec fn token_by(tokens: Seq<TokenView>, hash: Seq<char>) -> TokenView {
    tokens[token_ix(tokens, hash)]
}

/// Whether some stored post carries this id.
pub open spec fn has_post(posts: Seq<PostView>, id: int) -> bool {
    exists|i: int| 0 <= i < posts.len() && posts[i].id == id
}

/// The index of the post carrying this id (unique under `wf`).
pub open spec fn post_ix(posts: Seq<PostView>, id: int) -> int {
    choose|i: int| 0 <= i < posts.len() && posts[i].id == id
}

/// The post carrying this id (meaningful under `has_post`).
pub open spec fn post_by(posts: Seq<PostView>, id: int) -> PostView {
    posts[post_ix(posts, id)]
}

/// Whether some stored reply carries this id *and* lives under this post.
/// Every reply lookup is scoped by the pair: an id stored under a different
/// post does not count.
pub open spec fn has_reply(replies: Seq<ReplyView>, id: int, post_id: int) -> bool {
    exists|i: int| 0 <= i < replies.len() && replies[i].id == id && replies[i].post_id == post_id
}

/// The index of the reply matching the pair (unique under `wf`).
pub open spec fn reply_ix(replies: Seq<ReplyView>, id: int, post_id: int) -> int {
    choose|i: int| 0 <= i < replies.len() && replies[i].id == id && replies[i].post_id == post_id
}

/// The reply matching the pair (meaningful under `has_reply`).
pub open spec fn reply_by(replies: Seq<ReplyView>, id: int, post_id: int) -> ReplyView {
    replies[reply_ix(replies, id, post_id)]
}

// ------------------------------------------------------------------
// The store's mathematical value and its invariant
// ------------------------------------------------------------------
/// The mathematical value of a store.
#[verifier::ext_equal]
pub struct StoreView {
    pub users: Seq<UserView>,
    pub tokens: Seq<TokenView>,
    pub posts: Seq<PostView>,
    pub replies: Seq<ReplyView>,
    pub next_user_id: int,
    pub next_post_id: int,
    pub next_reply_id: int,
}

impl StoreView {
    /// The store with nothing in it; id generation starts at 1.
    pub open spec fn empty() -> StoreView {
        StoreView {
            users: Seq::empty(),
            tokens: Seq::empty(),
            posts: Seq::empty(),
            replies: Seq::empty(),
            next_user_id: 1,
            next_post_id: 1,
            next_reply_id: 1,
        }
    }

    /// User rows are well-formed: ids are positive, below the id counter and
    /// pairwise distinct, and usernames are pairwise distinct.
    pub open spec fn users_wf(self) -> bool {
        &&& forall|i: int|
            0 <= i < self.users.len() ==> 0 < (#[trigger] self.users[i]).id < self.next_user_id
        &&& forall|i: int, j: int|
            0 <= i < self.users.len() && 0 <= j < self.users.len() && i != j ==> (
            #[trigger] self.users[i]).id != (#[trigger] self.users[j]).id
        &&& forall|i: int, j: int|
            0 <= i < self.users.len() && 0 <= j < self.users.len() && i != j ==> (
            #[trigger] self.users[i]).username != (#[trigger] self.users[j]).username
    }

    /// Token rows are well-formed: keys are pairwise distinct and every token
    /// belongs to a stored user.
    pub open spec fn tokens_wf(self) -> bool {
        &&& forall|i: int, j: int|
            0 <= i < self.tokens.len() && 0 <= j < self.tokens.len() && i != j ==> (
            #[trigger] self.tokens[i]).hash != (#[trigger] self.tokens[j]).hash
        &&& forall|i: int|
            0 <= i < self.tokens.len() ==> has_user_id(
                self.users,
                (#[trigger] self.tokens[i]).user_id,
            )
    }

    /// Post rows are well-formed: ids are positive, below the id counter and
    /// pairwise distinct, and every post has a stored author.
    pub open spec fn posts_wf(self) -> bool {
        &&& forall|i: int|
            0 <= i < self.posts.len() ==> 0 < (#[trigger] self.posts[i]).id < self.next_post_id
        &&& forall|i: int, j: int|
            0 <= i < self.posts.len() && 0 <= j < self.posts.len() && i != j ==> (
            #[trigger] self.posts[i]).id != (#[trigger] self.posts[j]).id
        &&& forall|i: int|
            0 <= i < self.posts.len() ==> has_user_id(
                self.users,
                (#[trigger] self.posts[i]).user_id,
            )
    }

    /// Reply rows are well-formed: ids are positive, below the id counter and
    /// pairwise distinct, and every reply has a stored author and a stored
    /// parent post.
    pub open spec fn replies_wf(self) -> bool {
        &&& forall|i: int|
            0 <= i < self.replies.len() ==> 0 < (#[trigger] self.replies[i]).id
                < self.next_reply_id
        &&& forall|i: int, j: int|
            0 <= i < self.replies.len() && 0 <= j < self.replies.len() && i != j ==> (
            #[trigger] self.replies[i]).id != (#[trigger] self.replies[j]).id
        &&& forall|i: int|
            0 <= i < self.replies.len() ==> has_user_id(
                self.users,
                (#[trigger] self.replies[i]).user_id,
            )
        &&& forall|i: int|
            0 <= i < self.replies.len() ==> has_post(
                self.posts,
                (#[trigger] self.replies[i]).post_id,
            )
    }

    /// The store invariant: what the relational schema enforced.
    pub open spec fn wf(self) -> bool {
        &&& 0 < self.next_user_id
        &&& 0 < self.next_post_id
        &&& 0 < self.next_reply_id
        &&& self.users_wf()
        &&& self.tokens_wf()
        &&& self.posts_wf()
        &&& self.replies_wf()
    }
}

// ------------------------------------------------------------------
// The executable store
// ------------------------------------------------------------------
/// The executable store. A freshly constructed store is empty; every handler
/// preserves `wf`.
pub struct Store {
    pub users: Vec<user::Model>,
    pub tokens: Vec<token::Model>,
    pub posts: Vec<post::Model>,
    pub replies: Vec<reply::Model>,
    pub next_user_id: i64,
    pub next_post_id: i64,
    pub next_reply_id: i64,
    pub cost: u32,
}

impl View for Store {
    type V = StoreView;

    open spec fn view(&self) -> StoreView {
        StoreView {
            users: self.users@.map_values(|m: user::Model| m@),
            tokens: self.tokens@.map_values(|m: token::Model| m@),
            posts: self.posts@.map_values(|m: post::Model| m@),
            replies: self.replies@.map_values(|m: reply::Model| m@),
            next_user_id: self.next_user_id as int,
            next_post_id: self.next_post_id as int,
            next_reply_id: self.next_reply_id as int,
        }
    }
}

impl Store {
    /// The executable store's validity: its value satisfies the invariant and
    /// its bcrypt cost factor is one `bcrypt::hash` accepts.
    pub open spec fn wf(&self) -> bool {
        &&& self@.wf()
        &&& MIN_COST <= self.cost <= MAX_COST
    }

    /// An empty store hashing passwords at the default bcrypt cost.
    pub fn new() -> (s: Store)
        ensures
            s.wf(),
            s@ == StoreView::empty(),
            s.cost == DEFAULT_COST,
    {
        Store::with_cost(DEFAULT_COST)
    }

    /// An empty store hashing passwords at the given bcrypt cost.
    pub fn with_cost(cost: u32) -> (s: Store)
        requires
            MIN_COST <= cost <= MAX_COST,
        ensures
            s.wf(),
            s@ == StoreView::empty(),
            s.cost == cost,
    {
        let s = Store {
            users: Vec::new(),
            tokens: Vec::new(),
            posts: Vec::new(),
            replies: Vec::new(),
            next_user_id: 1,
            next_post_id: 1,
            next_reply_id: 1,
            cost,
        };
        proof {
            assert(s@ =~= StoreView::empty());
        }
        s
    }

    /// Finds the row index of the user with this username.
    pub fn find_user_by_name(&self, name: &String) -> (r: Option<usize>)
        ensures
            match r {
                Some(ix) => ix < self@.users.len() && self@.users[ix as int].username == name@,
                None => !has_username(self@.users, name@),
            },
    {
        let mut i: usize = 0;
        while i < self.users.len()
            invariant
                i <= self.users.len(),
                forall|j: int| 0 <= j < i ==> (#[trigger] self@.users[j]).username != name@,
            decreases self.users.len() - i,
        {
            if self.users[i].username == *name {
                return Some(i);
            }
            i = i + 1;
        }
        None
    }

    /// Finds the row index of the user with this id.
    pub fn find_user_by_id(&self, id: i64) -> (r: Option<usize>)
        ensures
            match r {
                Some(ix) => ix < self@.users.len() && self@.users[ix as int].id == id as int,
                None => !has_user_id(self@.users, id as int),
            },
    {
        let mut i: usize = 0;
        while i < self.users.len()
            invariant
                i <= self.users.len(),
                forall|j: int| 0 <= j < i ==> (#[trigger] self@.users[j]).id != id as int,
            decreases self.users.len() - i,
        {
            if self.users[i].id == id {
                return Some(i);
            }
            i = i + 1;
        }
        None
    }

    /// Finds the row index of the token keyed by this value.
    pub fn find_token(&self, hash: &String) -> (r: Option<usize>)
        ensures
            match r {
                Some(ix) => ix < self@.tokens.len() && self@.tokens[ix as int].hash == hash@,
                None => !has_token(self@.tokens, hash@),
            },
    {
        let mut i: usize = 0;
        while i < self.tokens.len()
            invariant
                i <= self.tokens.len(),
                forall|j: int| 0 <= j < i ==> (#[trigger] self@.tokens[j]).hash != hash@,
            decreases self.tokens.len() - i,
        {
            if self.tokens[i].hash == *hash {
                return Some(i);
            }
            i = i + 1;
        }
        None
    }

    /// Finds the row index of the post with this id.
    pub fn find_post(&self, id: i64) -> (r: Option<usize>)
        ensures
            match r {
                Some(ix) => ix < self@.posts.len() && self@.posts[ix as int].id == id as int,
                None => !has_post(self@.posts, id as int),
            },
    {
        let mut i: usize = 0;
        while i < self.posts.len()
            invariant
                i <= self.posts.len(),
                forall|j: int| 0 <= j < i ==> (#[trigger] self@.posts[j]).id != id as int,
            decreases self.posts.len() - i,
        {
            if self.posts[i].id == id {
                return Some(i);
            }
            i = i + 1;
        }
        None
    }

    /// The username of a stored user, for joining onto a post or reply row.
    pub fn username_of(&self, user_id: i64) -> (r: String)
        requires
            self.wf(),
            has_user_id(self@.users, user_id as int),
        ensures
            r@ == user_by_id(self@.users, user_id as int).username,
    {
        match self.find_user_by_id(user_id) {
            Some(ix) => {
                proof {
                    lemma_user_id_ix(self@, user_id as int, ix as int);
                }
                self.users[ix].username.clone()
            },
            None => vstd::pervasive::unreached(),
        }
    }

    /// Finds the row index of the reply matching the `(reply id, post id)`
    /// pair. A reply id stored under a different post is not found.
    pub fn find_reply(&self, id: i64, post_id: i64) -> (r: Option<usize>)
        ensures
            match r {
                Some(ix) => ix < self@.replies.len() && self@.replies[ix as int].id == id as int
                    && self@.replies[ix as int].post_id == post_id as int,
                None => !has_reply(self@.replies, id as int, post_id as int),
            },
    {
        let mut i: usize = 0;
        while i < self.replies.len()
            invariant
                i <= self.replies.len(),
                forall|j: int|
                    0 <= j < i ==> !((#[trigger] self@.replies[j]).id == id as int
                        && self@.replies[j].post_id == post_id as int),
            decreases self.replies.len() - i,
        {
            if self.replies[i].id == id && self.replies[i].post_id == post_id {
                return Some(i);
            }
            i = i + 1;
        }
        None
    }
}

// ------------------------------------------------------------------
// Uniqueness: a found index is the index the lookup functions denote
// ------------------------------------------------------------------
/// Under distinct usernames, any index matching a username is the one
/// `username_ix` denotes.
pub proof fn lemma_username_ix(s: StoreView, name: Seq<char>, i: int)
    requires
        s.users_wf(),
        0 <= i < s.users.len(),
        s.users[i].username == name,
    ensures
        has_username(s.users, name),
        username_ix(s.users, name) == i,
        user_by_name(s.users, name) == s.users[i],
{
    assert(has_username(s.users, name));
    let j = username_ix(s.users, name);
    assert(0 <= j < s.users.len() && s.users[j].username == name);
}

/// Under distinct user ids, any index matching an id is the one `user_id_ix`
/// denotes.
pub proof fn lemma_user_id_ix(s: StoreView, id: int, i: int)
    requires
        s.users_wf(),
        0 <= i < s.users.len(),
        s.users[i].id == id,
    ensures
        has_user_id(s.users, id),
        user_id_ix(s.users, id) == i,
        user_by_id(s.users, id) == s.users[i],
{
    assert(has_user_id(s.users, id));
    let j = user_id_ix(s.users, id);
    assert(0 <= j < s.users.len() && s.users[j].id == id);
}

/// Under distinct token keys, any index matching a key is the one `token_ix`
/// denotes.
pub proof fn lemma_token_ix(s: StoreView, hash: Seq<char>, i: int)
    requires
        s.tokens_wf(),
        0 <= i < s.tokens.len(),
        s.tokens[i].hash == hash,
    ensures
        has_token(s.tokens, hash),
        token_ix(s.tokens, hash) == i,
        token_by(s.tokens, hash) == s.tokens[i],
{
    assert(has_token(s.tokens, hash));
    let j = token_ix(s.tokens, hash);
    assert(0 <= j < s.tokens.len() && s.tokens[j].hash == hash);
}

/// Under distinct post ids, any index matching an id is the one `post_ix`
/// denotes.
pub proof fn lemma_post_ix(s: StoreView, id: int, i: int)
    requires
        s.posts_wf(),
        0 <= i < s.posts.len(),
        s.posts[i].id == id,
    ensures
        has_post(s.posts, id),
        post_ix(s.posts, id) == i,
        post_by(s.posts, id) == s.posts[i],
{
    assert(has_post(s.posts, id));
    let j = post_ix(s.posts, id);
    assert(0 <= j < s.posts.len() && s.posts[j].id == id);
}

/// Under distinct reply ids, any index matching a `(reply id, post id)` pair
/// is the one `reply_ix` denotes.
pub proof fn lemma_reply_ix(s: StoreView, id: int, post_id: int, i: int)
    requires
        s.replies_wf(),
        0 <= i < s.replies.len(),
        s.replies[i].id == id,
        s.replies[i].post_id == post_id,
    ensures
        has_reply(s.replies, id, post_id),
        reply_ix(s.replies, id, post_id) == i,
        reply_by(s.replies, id, post_id) == s.replies[i],
{
    assert(has_reply(s.replies, id, post_id));
    let j = reply_ix(s.replies, id, post_id);
    assert(0 <= j < s.replies.len() && s.replies[j].id == id && s.replies[j].post_id == post_id);
}

} // verus!
