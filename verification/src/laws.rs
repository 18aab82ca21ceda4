//! The laws that tie the handlers together, proved over the same state
//! transitions and predicates the handlers' contracts use: registration
//! enables login, duplicate usernames are rejected without damage, a wrong
//! password or a foreign or expired token gets nothing, deleting a post
//! takes its replies with it, and reply lookups are scoped to their post.

use crate::controller::auth::{auth_spec, login_outcome, register_ok};
use crate::controller::post::delete_post_cascade;
use crate::crypto::bcrypt_matches;
use crate::errors::ApiError;
use crate::model::user::UserView;
use crate::model::AuthUser;
use crate::store::{
    has_post, has_reply, has_token, has_user_id, has_username, lemma_username_ix, post_by,
    post_ix, token_by, user_by_name, StoreView,
};
use vstd::prelude::*;

verus! {

/// Law: registering a fresh username makes the account reachable by login.
/// After `register_ok` stores the username with a hash matching the chosen
/// password, the store is still well-formed, the username is stored, and
/// `login_outcome` — what `login` decides — accepts exactly these
/// credentials, resolving to the freshly generated user id. The matching
/// hash hypothesis is what the password-hashing wrapper guarantees of every
/// hash it returns.
pub proof fn lemma_register_then_login(
    s: StoreView,
    username: Seq<char>,
    password: Seq<char>,
    h: Seq<char>,
    now: int,
)
    requires
        s.wf(),
        !has_username(s.users, username),
        bcrypt_matches(password, h),
    ensures
        register_ok(s, username, h, now).wf(),
        has_username(register_ok(s, username, h, now).users, username),
        user_by_name(register_ok(s, username, h, now).users, username) == (UserView {
            id: s.next_user_id,
            username,
            password: h,
            created_at: now,
        }),
        login_outcome(register_ok(s, username, h, now).users, username, password) matches Ok(u)
            && u.id == s.next_user_id,
{
    crate::controller::auth::lemma_register_ok_wf(s, username, h, now);
    let s2 = register_ok(s, username, h, now);
    let n = s.users.len() as int;
    assert(s2.users[n].username == username);
    lemma_username_ix(s2, username, n);
}

/// Law: registering the same username twice cannot succeed twice, and the
/// second attempt does not alter the first account's stored hash. After the
/// first registration the username is stored with hash `h1`; `register_hashed`
/// then answers `UsernameTaken` on any second attempt and leaves the store
/// untouched, by its contract, and what it would leave untouched still holds
/// `h1`.
pub proof fn lemma_duplicate_registration_rejected(
    s: StoreView,
    username: Seq<char>,
    h1: Seq<char>,
    now: int,
)
    requires
        s.wf(),
        !has_username(s.users, username),
    ensures
        has_username(register_ok(s, username, h1, now).users, username),
        user_by_name(register_ok(s, username, h1, now).users, username).password == h1,
{
    let s2 = register_ok(s, username, h1, now);
    crate::controller::auth::lemma_register_ok_wf(s, username, h1, now);
    let n = s.users.len() as int;
    assert(s2.users[n].username == username);
    lemma_username_ix(s2, username, n);
}

/// Law: a login with a stored username but a password that does not match
/// the stored hash is decided as `InvalidPassword`. By `login`'s contract no
/// cookie is issued and the store is left unchanged on that outcome.
pub proof fn lemma_wrong_password_rejected(
    users: Seq<UserView>,
    username: Seq<char>,
    password: Seq<char>,
)
    requires
        has_username(users, username),
        !bcrypt_matches(password, user_by_name(users, username).password),
    ensures
        login_outcome(users, username, password) == Err::<UserView, ApiError>(
            ApiError::InvalidPassword,
        ),
{
}

/// Law: a valid, unexpired token belonging to someone other than a post's
/// author authenticates — the guard accepts it — but authenticates as that
/// other user, so the ownership check fails: `update` and `delete` answer
/// `Unauthorized` and change nothing, by their contracts. The id-space bound
/// makes the principal's machine integer faithful to the token's user id.
pub proof fn lemma_foreign_author_rejected(s: StoreView, cookie: Seq<char>, now: int, pid: int)
    requires
        s.wf(),
        s.next_user_id <= i64::MAX as int,
        has_token(s.tokens, cookie),
        token_by(s.tokens, cookie).expires_at > now,
        has_post(s.posts, pid),
        token_by(s.tokens, cookie).user_id != post_by(s.posts, pid).user_id,
    ensures
        auth_spec(s, Option::Some(cookie), now) matches Ok(a) && a.id as int == token_by(
            s.tokens,
            cookie,
        ).user_id && post_by(s.posts, pid).user_id != a.id as int,
{
    let uid = token_by(s.tokens, cookie).user_id;
    assert(0 < uid < s.next_user_id) by {
        let w = crate::store::user_id_ix(s.users, uid);
        let tix = crate::store::token_ix(s.tokens, cookie);
        assert(has_user_id(s.users, s.tokens[tix].user_id));
        assert(0 <= w < s.users.len() && s.users[w].id == uid);
    }
}

/// Law: a token whose expiry is not in the future is rejected as
/// `ExpiredCredential`, even though the row is still stored — expiry is
/// enforced at lookup time, never by deletion, and the guard is read-only.
pub proof fn lemma_expired_token_rejected(s: StoreView, cookie: Seq<char>, now: int)
    requires
        s.wf(),
        has_token(s.tokens, cookie),
        token_by(s.tokens, cookie).expires_at <= now,
    ensures
        auth_spec(s, Option::Some(cookie), now) == Err::<AuthUser, ApiError>(
            ApiError::ExpiredCredential,
        ),
        has_token(s.tokens, cookie),
{
}

/// Law: deleting a post removes every reply under it. After the cascade the
/// store is still well-formed, the post is gone, and no `(reply id, this
/// post)` lookup can match, so subsequent reads of those replies answer
/// `NotFound` by `read`'s contract.
pub proof fn lemma_delete_post_removes_replies(s: StoreView, pid: int)
    requires
        s.wf(),
        has_post(s.posts, pid),
    ensures
        delete_post_cascade(s, pid).wf(),
        !has_post(delete_post_cascade(s, pid).posts, pid),
        forall|rid: int| !has_reply(delete_post_cascade(s, pid).replies, rid, pid),
{
    crate::controller::post::lemma_delete_post_cascade_wf(s, pid);
    crate::controller::post::lemma_without_post_replies_membership(s.replies, pid);
    let s2 = delete_post_cascade(s, pid);
    let ix = post_ix(s.posts, pid);
    assert(0 <= ix < s.posts.len() && s.posts[ix].id == pid);
    assert forall|rid: int| !has_reply(s2.replies, rid, pid) by {
        if has_reply(s2.replies, rid, pid) {
            let w = choose|w: int|
                0 <= w < s2.replies.len() && s2.replies[w].id == rid && s2.replies[w].post_id
                    == pid;
            assert(s2.replies[w].post_id != pid);
        }
    }
    assert(!has_post(s2.posts, pid)) by {
        if has_post(s2.posts, pid) {
            let w = choose|w: int| 0 <= w < s2.posts.len() && s2.posts[w].id == pid;
            if w < ix {
                assert(s.posts[w].id == pid);
            } else {
                assert(s.posts[w + 1].id == pid);
            }
        }
    }
}

/// Law: reply lookups are scoped to their post. A reply id stored under one
/// post matches no lookup under any other post, so fetching it there answers
/// `NotFound` by `read`'s contract, never the reply.
pub proof fn lemma_reply_scoped_lookup(s: StoreView, rid: int, pid_a: int, pid_b: int)
    requires
        s.wf(),
        has_reply(s.replies, rid, pid_b),
        pid_a != pid_b,
    ensures
        !has_reply(s.replies, rid, pid_a),
{
    if has_reply(s.replies, rid, pid_a) {
        let wa = choose|w: int|
            0 <= w < s.replies.len() && s.replies[w].id == rid && s.replies[w].post_id == pid_a;
        let wb = choose|w: int|
            0 <= w < s.replies.len() && s.replies[w].id == rid && s.replies[w].post_id == pid_b;
        assert(wa != wb);
        assert(s.replies[wa].id != s.replies[wb].id);
    }
}

} // verus!
