//! The reply handlers: create, read one, read all, update, delete.
//!
//! Replies mirror posts, scoped to a parent post: creation requires the post
//! to exist, and every lookup matches the `(reply id, post id)` pair — a
//! reply id stored under a different post is treated as not found.

use crate::errors::ApiError;
use crate::model::reply;
use crate::model::reply::ReplyView;
use crate::model::user::UserView;
use crate::model::AuthUser;
use crate::store::{
    has_post, has_reply, has_user_id, lemma_reply_ix, reply_by, reply_ix, user_by_id, Store,
    StoreView,
};
use vstd::prelude::*;

verus! {

// ------------------------------------------------------------------
// The state transitions and the joined row
// ------------------------------------------------------------------
/// A stored reply joined with its author's username, as answered to clients.
pub open spec fn reply_output(users: Seq<UserView>, r: ReplyView) -> reply::OutputView {
    reply::OutputView {
        id: r.id,
        post_id: r.post_id,
        user_id: r.user_id,
        username: user_by_id(users, r.user_id).username,
        text: r.text,
        created_at: r.created_at,
    }
}

/// The store after a reply is created under post `post_id`: one more reply
/// carrying the freshly generated id, the author and the creation time;
/// nothing else moves.
pub open spec fn create_reply_ok(
    s: StoreView,
    post_id: int,
    author: int,
    text: Seq<char>,
    now: int,
) -> StoreView {
    StoreView {
        replies: s.replies.push(
            ReplyView { id: s.next_reply_id, post_id, user_id: author, text, created_at: now },
        ),
        next_reply_id: s.next_reply_id + 1,
        ..s
    }
}

/// The store after a reply's text is replaced: the row keeps its id, parent
/// post, author and creation time; nothing else moves.
pub open spec fn update_reply_text(s: StoreView, rid: int, pid: int, text: Seq<char>) -> StoreView {
    StoreView {
        replies: s.replies.update(
            reply_ix(s.replies, rid, pid),
            ReplyView { text, ..reply_by(s.replies, rid, pid) },
        ),
        ..s
    }
}

/// The store after a reply is deleted: the row is removed, nothing else
/// moves.
pub open spec fn delete_reply_ok(s: StoreView, rid: int, pid: int) -> StoreView {
    StoreView { replies: s.replies.remove(reply_ix(s.replies, rid, pid)), ..s }
}

/// The replies stored under post `pid`, in their stored order.
pub open spec fn replies_under(rs: Seq<ReplyView>, pid: int) -> Seq<ReplyView>
    decreases rs.len(),
{
    if rs.len() == 0 {
        rs
    } else {
        let rest = replies_under(rs.drop_last(), pid);
        if rs.last().post_id == pid {
            rest.push(rs.last())
        } else {
            rest
        }
    }
}

// ------------------------------------------------------------------
// Invariant preservation
// ------------------------------------------------------------------
/// Creating a reply under a stored post preserves the store invariant.
pub proof fn lemma_create_reply_ok_wf(
    s: StoreView,
    post_id: int,
    author: int,
    text: Seq<char>,
    now: int,
)
    requires
        s.wf(),
        has_user_id(s.users, author),
        has_post(s.posts, post_id),
    ensures
        create_reply_ok(s, post_id, author, text, now).wf(),
{
    let s2 = create_reply_ok(s, post_id, author, text, now);
    assert forall|i: int| 0 <= i < s.replies.len() implies s2.replies[i] == s.replies[i] by {}
}

/// Replacing a reply's text preserves the store invariant.
pub proof fn lemma_update_reply_text_wf(s: StoreView, rid: int, pid: int, text: Seq<char>)
    requires
        s.wf(),
        has_reply(s.replies, rid, pid),
    ensures
        update_reply_text(s, rid, pid, text).wf(),
{
    let s2 = update_reply_text(s, rid, pid, text);
    let ix = reply_ix(s.replies, rid, pid);
    assert(0 <= ix < s.replies.len() && s.replies[ix].id == rid);
    assert forall|i: int| 0 <= i < s2.replies.len() implies (#[trigger] s2.replies[i]).id
        == s.replies[i].id && s2.replies[i].user_id == s.replies[i].user_id
        && s2.replies[i].post_id == s.replies[i].post_id by {}
}

/// Deleting a reply preserves the store invariant.
pub proof fn lemma_delete_reply_ok_wf(s: StoreView, rid: int, pid: int)
    requires
        s.wf(),
        has_reply(s.replies, rid, pid),
    ensures
        delete_reply_ok(s, rid, pid).wf(),
{
    let s2 = delete_reply_ok(s, rid, pid);
    let ix = reply_ix(s.replies, rid, pid);
    assert(0 <= ix < s.replies.len());
    assert forall|i: int| 0 <= i < s2.replies.len() implies #[trigger] s2.replies[i] == if i < ix {
        s.replies[i]
    } else {
        s.replies[i + 1]
    } by {}
}

// ------------------------------------------------------------------
// Handlers
// ------------------------------------------------------------------
/// Creates a reply under a post, authored by the authenticated principal.
/// The parent post must exist (`NotFound` otherwise); the text comes from the
/// client, while the id, the parent, the author and the creation time never
/// do. The answer is the stored row joined with the author's username.
pub fn create(
    store: &mut Store,
    input: reply::Input,
    post_id: i64,
    author: &AuthUser,
    now: i64,
) -> (r: Result<reply::Output, ApiError>)
    requires
        old(store).wf(),
    ensures
        final(store).wf(),
        final(store).cost == old(store).cost,
        r is Ok <==> (has_post(old(store)@.posts, post_id as int) && has_user_id(
            old(store)@.users,
            author.id as int,
        ) && old(store)@.next_reply_id < i64::MAX),
        r matches Ok(out) ==> final(store)@ == create_reply_ok(
            old(store)@,
            post_id as int,
            author.id as int,
            input.text@,
            now as int,
        ) && out@ == reply_output(
            old(store)@.users,
            ReplyView {
                id: old(store)@.next_reply_id,
                post_id: post_id as int,
                user_id: author.id as int,
                text: input.text@,
                created_at: now as int,
            },
        ),
        r matches Err(e) ==> final(store)@ == old(store)@ && (e == ApiError::NotFound || e
            == ApiError::StoreError) && (e == ApiError::NotFound <==> !has_post(
            old(store)@.posts,
            post_id as int,
        )),
{
    if store.find_post(post_id).is_none() {
        return Err(ApiError::NotFound);
    }
    if store.find_user_by_id(author.id).is_none() {
        return Err(ApiError::StoreError);
    }
    if store.next_reply_id == i64::MAX {
        return Err(ApiError::StoreError);
    }
    proof {
        assert(has_post(store@.posts, post_id as int));
        assert(has_user_id(store@.users, author.id as int));
    }
    let username = store.username_of(author.id);
    let ghost s0 = store@;
    let id = store.next_reply_id;
    let text_out = input.text.clone();
    let m = reply::Model { id, post_id, user_id: author.id, text: input.text, created_at: now };
    store.replies.push(m);
    store.next_reply_id = id + 1;
    proof {
        assert(store@.replies =~= s0.replies.push(m@));
        assert(store@ =~= create_reply_ok(
            s0,
            post_id as int,
            author.id as int,
            text_out@,
            now as int,
        ));
        lemma_create_reply_ok_wf(s0, post_id as int, author.id as int, text_out@, now as int);
    }
    Ok(
        reply::Output {
            id,
            post_id,
            user_id: author.id,
            username,
            text: text_out,
            created_at: now,
        },
    )
}

/// Reads all replies under a post, each joined with its author's username,
/// in stored order. A post id under which nothing is stored yields the empty
/// list.
pub fn read_all(store: &Store, post_id: i64) -> (r: Vec<reply::Output>)
    requires
        store.wf(),
    ensures
        r@.len() == replies_under(store@.replies, post_id as int).len(),
        forall|i: int|
            0 <= i < r@.len() ==> (#[trigger] r@[i])@ == reply_output(
                store@.users,
                replies_under(store@.replies, post_id as int)[i],
            ),
{
    let mut out: Vec<reply::Output> = Vec::new();
    let mut i: usize = 0;
    while i < store.replies.len()
        invariant
            store.wf(),
            i <= store.replies.len(),
            out@.len() == replies_under(
                store@.replies.subrange(0, i as int),
                post_id as int,
            ).len(),
            forall|j: int|
                0 <= j < out@.len() ==> (#[trigger] out@[j])@ == reply_output(
                    store@.users,
                    replies_under(store@.replies.subrange(0, i as int), post_id as int)[j],
                ),
        decreases store.replies.len() - i,
    {
        proof {
            assert(store@.replies.subrange(0, i as int + 1).drop_last() =~= store@.replies.subrange(
                0,
                i as int,
            ));
            assert(store@.replies.subrange(0, i as int + 1).last() == store@.replies[i as int]);
        }
        let rrow = &store.replies[i];
        if rrow.post_id == post_id {
            proof {
                assert(store@.replies[i as int].user_id == rrow.user_id as int);
            }
            let username = store.username_of(rrow.user_id);
            out.push(
                reply::Output {
                    id: rrow.id,
                    post_id: rrow.post_id,
                    user_id: rrow.user_id,
                    username,
                    text: rrow.text.clone(),
                    created_at: rrow.created_at,
                },
            );
        }
        i = i + 1;
    }
    proof {
        assert(store@.replies.subrange(0, store@.replies.len() as int) =~= store@.replies);
    }
    out
}

/// Reads one reply by the `(post id, reply id)` pair, joined with its
/// author's username; `NotFound` unless a stored reply matches both — a
/// reply id stored under a different post is not answered.
pub fn read(store: &Store, post_id: i64, reply_id: i64) -> (r: Result<reply::Output, ApiError>)
    requires
        store.wf(),
    ensures
        r is Ok <==> has_reply(store@.replies, reply_id as int, post_id as int),
        r matches Ok(out) ==> out@ == reply_output(
            store@.users,
            reply_by(store@.replies, reply_id as int, post_id as int),
        ),
        r matches Err(e) ==> e == ApiError::NotFound,
{
    let ix = match store.find_reply(reply_id, post_id) {
        None => {
            return Err(ApiError::NotFound);
        },
        Some(ix) => ix,
    };
    proof {
        lemma_reply_ix(store@, reply_id as int, post_id as int, ix as int);
    }
    let rrow = &store.replies[ix];
    let username = store.username_of(rrow.user_id);
    Ok(
        reply::Output {
            id: rrow.id,
            post_id: rrow.post_id,
            user_id: rrow.user_id,
            username,
            text: rrow.text.clone(),
            created_at: rrow.created_at,
        },
    )
}

/// Replaces a reply's text. The `(post id, reply id)` pair must match a
/// stored reply (`NotFound` otherwise) and the principal must be its author
/// (`Unauthorized` otherwise, with nothing changed); id, parent, author and
/// creation time are immutable. Answers the updated row joined with the
/// author's username.
pub fn update(
    store: &mut Store,
    input: reply::Input,
    post_id: i64,
    reply_id: i64,
    principal: &AuthUser,
) -> (r: Result<reply::Output, ApiError>)
    requires
        old(store).wf(),
    ensures
        final(store).wf(),
        final(store).cost == old(store).cost,
        !has_reply(old(store)@.replies, reply_id as int, post_id as int) ==> r == Err::<
            reply::Output,
            ApiError,
        >(ApiError::NotFound) && final(store)@ == old(store)@,
        has_reply(old(store)@.replies, reply_id as int, post_id as int) && reply_by(
            old(store)@.replies,
            reply_id as int,
            post_id as int,
        ).user_id != principal.id ==> r == Err::<reply::Output, ApiError>(ApiError::Unauthorized)
            && final(store)@ == old(store)@,
        has_reply(old(store)@.replies, reply_id as int, post_id as int) && reply_by(
            old(store)@.replies,
            reply_id as int,
            post_id as int,
        ).user_id == principal.id ==> final(store)@ == update_reply_text(
            old(store)@,
            reply_id as int,
            post_id as int,
            input.text@,
        ) && (r matches Ok(out) && out@ == reply_output(
            old(store)@.users,
            ReplyView {
                text: input.text@,
                ..reply_by(old(store)@.replies, reply_id as int, post_id as int)
            },
        )),
{
    let ix = match store.find_reply(reply_id, post_id) {
        None => {
            return Err(ApiError::NotFound);
        },
        Some(ix) => ix,
    };
    proof {
        lemma_reply_ix(store@, reply_id as int, post_id as int, ix as int);
    }
    match super::auth::authorize(store.replies[ix].user_id, principal) {
        Err(e) => {
            return Err(e);
        },
        Ok(()) => {},
    }
    let ghost s0 = store@;
    let text_out = input.text.clone();
    store.replies[ix].text = input.text;
    proof {
        assert(store@.replies =~= s0.replies.update(
            ix as int,
            ReplyView {
                text: text_out@,
                ..reply_by(s0.replies, reply_id as int, post_id as int)
            },
        ));
        assert(store@ =~= update_reply_text(s0, reply_id as int, post_id as int, text_out@));
        lemma_update_reply_text_wf(s0, reply_id as int, post_id as int, text_out@);
    }
    let rrow = &store.replies[ix];
    let username = store.username_of(rrow.user_id);
    Ok(
        reply::Output {
            id: rrow.id,
            post_id: rrow.post_id,
            user_id: rrow.user_id,
            username,
            text: rrow.text.clone(),
            created_at: rrow.created_at,
        },
    )
}

/// Deletes a reply. The `(post id, reply id)` pair must match a stored reply
/// (`NotFound` otherwise) and the principal must be its author
/// (`Unauthorized` otherwise, with nothing changed).
pub fn delete(store: &mut Store, post_id: i64, reply_id: i64, principal: &AuthUser) -> (r: Result<
    (),
    ApiError,
>)
    requires
        old(store).wf(),
    ensures
        final(store).wf(),
        final(store).cost == old(store).cost,
        !has_reply(old(store)@.replies, reply_id as int, post_id as int) ==> r == Err::<
            (),
            ApiError,
        >(ApiError::NotFound) && final(store)@ == old(store)@,
        has_reply(old(store)@.replies, reply_id as int, post_id as int) && reply_by(
            old(store)@.replies,
            reply_id as int,
            post_id as int,
        ).user_id != principal.id ==> r == Err::<(), ApiError>(ApiError::Unauthorized)
            && final(store)@ == old(store)@,
        has_reply(old(store)@.replies, reply_id as int, post_id as int) && reply_by(
            old(store)@.replies,
            reply_id as int,
            post_id as int,
        ).user_id == principal.id ==> r is Ok && final(store)@ == delete_reply_ok(
            old(store)@,
            reply_id as int,
            post_id as int,
        ),
        r is Ok ==> !has_reply(final(store)@.replies, reply_id as int, post_id as int),
{
    let ix = match store.find_reply(reply_id, post_id) {
        None => {
            return Err(ApiError::NotFound);
        },
        Some(ix) => ix,
    };
    proof {
        lemma_reply_ix(store@, reply_id as int, post_id as int, ix as int);
    }
    match super::auth::authorize(store.replies[ix].user_id, principal) {
        Err(e) => {
            return Err(e);
        },
        Ok(()) => {},
    }
    let ghost s0 = store@;
    store.replies.remove(ix);
    proof {
        assert(store@.replies =~= s0.replies.remove(ix as int));
        assert(store@ =~= delete_reply_ok(s0, reply_id as int, post_id as int));
        lemma_delete_reply_ok_wf(s0, reply_id as int, post_id as int);
        assert(!has_reply(store@.replies, reply_id as int, post_id as int)) by {
            if has_reply(store@.replies, reply_id as int, post_id as int) {
                let w = choose|w: int|
                    0 <= w < store@.replies.len() && store@.replies[w].id == reply_id as int
                        && store@.replies[w].post_id == post_id as int;
                if w < ix as int {
                    assert(s0.replies[w].id == reply_id as int);
                    assert(s0.replies[ix as int].id == reply_id as int);
                } else {
                    assert(s0.replies[w + 1].id == reply_id as int);
                    assert(s0.replies[ix as int].id == reply_id as int);
                }
            }
        }
    }
    Ok(())
}

} // verus!
