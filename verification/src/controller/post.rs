//! The post handlers: create, read one, read all, update, delete.
//!
//! Reads need no authentication. Create takes the session guard's principal
//! as the author. Update and delete run the ownership check against the
//! stored row first and replace only the text, or remove the row; deleting a
//! post removes every reply under it.

use crate::errors::ApiError;
use crate::model::post;
use crate::model::post::PostView;
use crate::model::reply::ReplyView;
use crate::model::user::UserView;
use crate::model::AuthUser;
use crate::store::{
    has_post, has_reply, has_user_id, lemma_post_ix, post_by, post_ix, user_by_id, Store,
    StoreView,
};
use vstd::prelude::*;

verus! {

// ------------------------------------------------------------------
// The state transitions and the joined row
// ------------------------------------------------------------------
/// A stored post joined with its author's username, as answered to clients.
pub open spec fn post_output(users: Seq<UserView>, p: PostView) -> post::OutputView {
    post::OutputView {
        id: p.id,
        user_id: p.user_id,
        username: user_by_id(users, p.user_id).username,
        text: p.text,
        created_at: p.created_at,
    }
}

/// The store after a post is created: one more post carrying the freshly
/// generated id, the author and the creation time; nothing else moves.
pub open spec fn create_post_ok(s: StoreView, author: int, text: Seq<char>, now: int) -> StoreView {
    StoreView {
        posts: s.posts.push(
            PostView { id: s.next_post_id, user_id: author, text, created_at: now },
        ),
        next_post_id: s.next_post_id + 1,
        ..s
    }
}

/// The store after a post's text is replaced: the row keeps its id, author
/// and creation time; nothing else moves.
pub open spec fn update_post_text(s: StoreView, pid: int, text: Seq<char>) -> StoreView {
    StoreView {
        posts: s.posts.update(
            post_ix(s.posts, pid),
            PostView { text, ..post_by(s.posts, pid) },
        ),
        ..s
    }
}

/// The replies that survive deleting post `pid`: those under any other post,
/// in their stored order.
pub open spec fn without_post_replies(rs: Seq<ReplyView>, pid: int) -> Seq<ReplyView>
    decreases rs.len(),
{
    if rs.len() == 0 {
        rs
    } else {
        let rest = without_post_replies(rs.drop_last(), pid);
        if rs.last().post_id == pid {
            rest
        } else {
            rest.push(rs.last())
        }
    }
}

/// The store after a post is deleted: the row is removed and the deletion
/// cascades over the replies under it; users and tokens do not move.
pub open spec fn delete_post_cascade(s: StoreView, pid: int) -> StoreView {
    StoreView {
        posts: s.posts.remove(post_ix(s.posts, pid)),
        replies: without_post_replies(s.replies, pid),
        ..s
    }
}

// ------------------------------------------------------------------
// Invariant preservation
// ------------------------------------------------------------------
/// A post lookup by id survives appending another post.
pub proof fn lemma_has_post_extend(posts: Seq<PostView>, p: PostView, id: int)
    requires
        has_post(posts, id),
    ensures
        has_post(posts.push(p), id),
{
    let w = post_ix(posts, id);
    assert(0 <= w < posts.len() && posts[w].id == id);
    assert(posts.push(p)[w] == posts[w]);
}

/// A post lookup by id survives removing a post with a different id.
pub proof fn lemma_has_post_remove(posts: Seq<PostView>, ix: int, id: int)
    requires
        0 <= ix < posts.len(),
        has_post(posts, id),
        posts[ix].id != id,
    ensures
        has_post(posts.remove(ix), id),
{
    let w = post_ix(posts, id);
    assert(0 <= w < posts.len() && posts[w].id == id);
    if w < ix {
        assert(posts.remove(ix)[w] == posts[w]);
    } else {
        assert(posts.remove(ix)[w - 1] == posts[w]);
    }
}

/// Creating a post preserves the store invariant.
pub proof fn lemma_create_post_ok_wf(s: StoreView, author: int, text: Seq<char>, now: int)
    requires
        s.wf(),
        has_user_id(s.users, author),
    ensures
        create_post_ok(s, author, text, now).wf(),
{
    let s2 = create_post_ok(s, author, text, now);
    assert forall|i: int| 0 <= i < s.posts.len() implies s2.posts[i] == s.posts[i] by {}
    assert forall|i: int| 0 <= i < s2.replies.len() implies has_post(
        s2.posts,
        (#[trigger] s2.replies[i]).post_id,
    ) by {
        lemma_has_post_extend(s.posts, s2.posts.last(), s.replies[i].post_id);
    }
}

/// Replacing a post's text preserves the store invariant.
pub proof fn lemma_update_post_text_wf(s: StoreView, pid: int, text: Seq<char>)
    requires
        s.wf(),
        has_post(s.posts, pid),
    ensures
        update_post_text(s, pid, text).wf(),
{
    let s2 = update_post_text(s, pid, text);
    let ix = post_ix(s.posts, pid);
    assert(0 <= ix < s.posts.len() && s.posts[ix].id == pid);
    assert forall|i: int| 0 <= i < s2.posts.len() implies (#[trigger] s2.posts[i]).id
        == s.posts[i].id && s2.posts[i].user_id == s.posts[i].user_id by {}
    assert forall|i: int| 0 <= i < s2.replies.len() implies has_post(
        s2.posts,
        (#[trigger] s2.replies[i]).post_id,
    ) by {
        let rp = s.replies[i].post_id;
        let w = post_ix(s.posts, rp);
        assert(0 <= w < s.posts.len() && s.posts[w].id == rp);
        assert(s2.posts[w].id == rp);
    }
}

/// What survives the cascade: every kept reply is one of the stored replies,
/// and none of them lives under the deleted post.
pub proof fn lemma_without_post_replies_membership(rs: Seq<ReplyView>, pid: int)
    ensures
        without_post_replies(rs, pid).len() <= rs.len(),
        forall|i: int|
            0 <= i < without_post_replies(rs, pid).len() ==> (#[trigger] without_post_replies(
                rs,
                pid,
            )[i]).post_id != pid,
        forall|i: int|
            0 <= i < without_post_replies(rs, pid).len() ==> exists|j: int|
                0 <= j < rs.len() && rs[j] == (#[trigger] without_post_replies(rs, pid)[i]),
    decreases rs.len(),
{
    if rs.len() > 0 {
        lemma_without_post_replies_membership(rs.drop_last(), pid);
        let out = without_post_replies(rs, pid);
        let rest = without_post_replies(rs.drop_last(), pid);
        assert forall|i: int| 0 <= i < out.len() implies exists|j: int|
            0 <= j < rs.len() && rs[j] == (#[trigger] out[i]) by {
            if rs.last().post_id == pid || i < out.len() - 1 {
                let j = choose|j: int| 0 <= j < rs.drop_last().len() && rs.drop_last()[j] == rest[i];
                assert(rs[j] == out[i]);
            } else {
                assert(rs[rs.len() - 1] == out[i]);
            }
        }
    }
}

/// The cascade keeps reply ids pairwise distinct.
pub proof fn lemma_without_post_replies_distinct(rs: Seq<ReplyView>, pid: int)
    requires
        forall|i: int, j: int|
            0 <= i < rs.len() && 0 <= j < rs.len() && i != j ==> (#[trigger] rs[i]).id != (
            #[trigger] rs[j]).id,
    ensures
        forall|i: int, j: int|
            0 <= i < without_post_replies(rs, pid).len() && 0 <= j < without_post_replies(
                rs,
                pid,
            ).len() && i != j ==> (#[trigger] without_post_replies(rs, pid)[i]).id != (
            #[trigger] without_post_replies(rs, pid)[j]).id,
    decreases rs.len(),
{
    if rs.len() > 0 {
        assert forall|i: int, j: int|
            0 <= i < rs.drop_last().len() && 0 <= j < rs.drop_last().len() && i != j implies (
        #[trigger] rs.drop_last()[i]).id != (#[trigger] rs.drop_last()[j]).id by {
            assert(rs[i] == rs.drop_last()[i] && rs[j] == rs.drop_last()[j]);
        }
        lemma_without_post_replies_distinct(rs.drop_last(), pid);
        let out = without_post_replies(rs, pid);
        let rest = without_post_replies(rs.drop_last(), pid);
        if rs.last().post_id != pid {
            lemma_without_post_replies_membership(rs.drop_last(), pid);
            assert forall|i: int| 0 <= i < rest.len() implies (#[trigger] rest[i]).id
                != rs.last().id by {
                let j = choose|j: int| 0 <= j < rs.drop_last().len() && rs.drop_last()[j] == rest[i];
                assert(rs[j] == rest[i]);
                assert(rs[j].id != rs[rs.len() - 1].id);
            }
        }
    }
}

/// Deleting a post preserves the store invariant.
pub proof fn lemma_delete_post_cascade_wf(s: StoreView, pid: int)
    requires
        s.wf(),
        has_post(s.posts, pid),
    ensures
        delete_post_cascade(s, pid).wf(),
{
    let s2 = delete_post_cascade(s, pid);
    let ix = post_ix(s.posts, pid);
    assert(0 <= ix < s.posts.len() && s.posts[ix].id == pid);
    assert forall|i: int| 0 <= i < s2.posts.len() implies #[trigger] s2.posts[i] == if i < ix {
        s.posts[i]
    } else {
        s.posts[i + 1]
    } by {}
    lemma_without_post_replies_membership(s.replies, pid);
    lemma_without_post_replies_distinct(s.replies, pid);
    assert forall|i: int| 0 <= i < s2.replies.len() implies 0 < (#[trigger] s2.replies[i]).id
        < s2.next_reply_id && has_user_id(s2.users, s2.replies[i].user_id) && has_post(
        s2.posts,
        s2.replies[i].post_id,
    ) by {
        let j = choose|j: int| 0 <= j < s.replies.len() && s.replies[j] == s2.replies[i];
        assert(0 < s.replies[j].id < s.next_reply_id);
        assert(has_user_id(s.users, s.replies[j].user_id));
        assert(has_post(s.posts, s.replies[j].post_id));
        assert(s2.replies[i].post_id != pid);
        assert(s.posts[ix].id != s.replies[j].post_id) by {
            assert(s.replies[j].post_id == s2.replies[i].post_id);
        }
        lemma_has_post_remove(s.posts, ix, s.replies[j].post_id);
    }
}

// ------------------------------------------------------------------
// Handlers
// ------------------------------------------------------------------
/// Creates a post authored by the authenticated principal. The text comes
/// from the client; the id, the author and the creation time never do. The
/// answer is the stored row joined with the author's username. Fails only on
/// internal grounds: the principal's user row is gone, or the id space is
/// exhausted.
pub fn create(store: &mut Store, input: post::Input, author: &AuthUser, now: i64) -> (r: Result<
    post::Output,
    ApiError,
>)
    requires
        old(store).wf(),
    ensures
        final(store).wf(),
        final(store).cost == old(store).cost,
        r is Ok <==> (has_user_id(old(store)@.users, author.id as int) && old(store)@.next_post_id
            < i64::MAX),
        r matches Ok(out) ==> final(store)@ == create_post_ok(
            old(store)@,
            author.id as int,
            input.text@,
            now as int,
        ) && out@ == post_output(
            old(store)@.users,
            PostView {
                id: old(store)@.next_post_id,
                user_id: author.id as int,
                text: input.text@,
                created_at: now as int,
            },
        ),
        r matches Err(e) ==> final(store)@ == old(store)@ && e == ApiError::StoreError,
{
    if store.find_user_by_id(author.id).is_none() {
        return Err(ApiError::StoreError);
    }
    if store.next_post_id == i64::MAX {
        return Err(ApiError::StoreError);
    }
    proof {
        assert(has_user_id(store@.users, author.id as int));
    }
    let username = store.username_of(author.id);
    let ghost s0 = store@;
    let id = store.next_post_id;
    let text_out = input.text.clone();
    let m = post::Model { id, user_id: author.id, text: input.text, created_at: now };
    store.posts.push(m);
    store.next_post_id = id + 1;
    proof {
        assert(store@.posts =~= s0.posts.push(m@));
        assert(store@ =~= create_post_ok(s0, author.id as int, text_out@, now as int));
        lemma_create_post_ok_wf(s0, author.id as int, text_out@, now as int);
    }
    Ok(post::Output { id, user_id: author.id, username, text: text_out, created_at: now })
}

/// Reads all posts, each joined with its author's username, in stored order.
pub fn read_all(store: &Store) -> (r: Vec<post::Output>)
    requires
        store.wf(),
    ensures
        r@.len() == store@.posts.len(),
        forall|i: int|
            0 <= i < r@.len() ==> (#[trigger] r@[i])@ == post_output(
                store@.users,
                store@.posts[i],
            ),
{
    let mut out: Vec<post::Output> = Vec::new();
    let mut i: usize = 0;
    while i < store.posts.len()
        invariant
            store.wf(),
            i <= store.posts.len(),
            out@.len() == i,
            forall|j: int|
                0 <= j < i ==> (#[trigger] out@[j])@ == post_output(
                    store@.users,
                    store@.posts[j],
                ),
        decreases store.posts.len() - i,
    {
        let p = &store.posts[i];
        proof {
            assert(store@.posts[i as int].user_id == p.user_id as int);
        }
        let username = store.username_of(p.user_id);
        out.push(
            post::Output {
                id: p.id,
                user_id: p.user_id,
                username,
                text: p.text.clone(),
                created_at: p.created_at,
            },
        );
        i = i + 1;
    }
    out
}

/// Reads one post by id, joined with its author's username; `NotFound` if no
/// post carries the id.
pub fn read(store: &Store, post_id: i64) -> (r: Result<post::Output, ApiError>)
    requires
        store.wf(),
    ensures
        r is Ok <==> has_post(store@.posts, post_id as int),
        r matches Ok(out) ==> out@ == post_output(
            store@.users,
            post_by(store@.posts, post_id as int),
        ),
        r matches Err(e) ==> e == ApiError::NotFound,
{
    let ix = match store.find_post(post_id) {
        None => {
            return Err(ApiError::NotFound);
        },
        Some(ix) => ix,
    };
    proof {
        lemma_post_ix(store@, post_id as int, ix as int);
    }
    let p = &store.posts[ix];
    let username = store.username_of(p.user_id);
    Ok(
        post::Output {
            id: p.id,
            user_id: p.user_id,
            username,
            text: p.text.clone(),
            created_at: p.created_at,
        },
    )
}

/// Replaces a post's text. The post must exist (`NotFound` otherwise) and the
/// principal must be its author (`Unauthorized` otherwise, with nothing
/// changed); id, author and creation time are immutable. Answers the updated
/// row joined with the author's username.
pub fn update(store: &mut Store, input: post::Input, post_id: i64, principal: &AuthUser) -> (r:
    Result<post::Output, ApiError>)
    requires
        old(store).wf(),
    ensures
        final(store).wf(),
        final(store).cost == old(store).cost,
        !has_post(old(store)@.posts, post_id as int) ==> r == Err::<post::Output, ApiError>(
            ApiError::NotFound,
        ) && final(store)@ == old(store)@,
        has_post(old(store)@.posts, post_id as int) && post_by(
            old(store)@.posts,
            post_id as int,
        ).user_id != principal.id ==> r == Err::<post::Output, ApiError>(ApiError::Unauthorized)
            && final(store)@ == old(store)@,
        has_post(old(store)@.posts, post_id as int) && post_by(
            old(store)@.posts,
            post_id as int,
        ).user_id == principal.id ==> final(store)@ == update_post_text(
            old(store)@,
            post_id as int,
            input.text@,
        ) && (r matches Ok(out) && out@ == post_output(
            old(store)@.users,
            PostView { text: input.text@, ..post_by(old(store)@.posts, post_id as int) },
        )),
{
    let ix = match store.find_post(post_id) {
        None => {
            return Err(ApiError::NotFound);
        },
        Some(ix) => ix,
    };
    proof {
        lemma_post_ix(store@, post_id as int, ix as int);
    }
    match super::auth::authorize(store.posts[ix].user_id, principal) {
        Err(e) => {
            return Err(e);
        },
        Ok(()) => {},
    }
    let ghost s0 = store@;
    let text_out = input.text.clone();
    store.posts[ix].text = input.text;
    proof {
        assert(store@.posts =~= s0.posts.update(
            ix as int,
            PostView { text: text_out@, ..post_by(s0.posts, post_id as int) },
        ));
        assert(store@ =~= update_post_text(s0, post_id as int, text_out@));
        lemma_update_post_text_wf(s0, post_id as int, text_out@);
    }
    let p = &store.posts[ix];
    let username = store.username_of(p.user_id);
    Ok(
        post::Output {
            id: p.id,
            user_id: p.user_id,
            username,
            text: p.text.clone(),
            created_at: p.created_at,
        },
    )
}

/// Deletes a post. The post must exist (`NotFound` otherwise) and the
/// principal must be its author (`Unauthorized` otherwise, with nothing
/// changed). Deletion cascades: every reply under the post is removed with
/// it, so no reply lookup under this post id can succeed afterwards.
pub fn delete(store: &mut Store, post_id: i64, principal: &AuthUser) -> (r: Result<(), ApiError>)
    requires
        old(store).wf(),
    ensures
        final(store).wf(),
        final(store).cost == old(store).cost,
        !has_post(old(store)@.posts, post_id as int) ==> r == Err::<(), ApiError>(ApiError::NotFound)
            && final(store)@ == old(store)@,
        has_post(old(store)@.posts, post_id as int) && post_by(
            old(store)@.posts,
            post_id as int,
        ).user_id != principal.id ==> r == Err::<(), ApiError>(ApiError::Unauthorized)
            && final(store)@ == old(store)@,
        has_post(old(store)@.posts, post_id as int) && post_by(
            old(store)@.posts,
            post_id as int,
        ).user_id == principal.id ==> r is Ok && final(store)@ == delete_post_cascade(
            old(store)@,
            post_id as int,
        ),
        r is Ok ==> !has_post(final(store)@.posts, post_id as int) && (forall|rid: int|
            !has_reply(final(store)@.replies, rid, post_id as int)),
{
    let ix = match store.find_post(post_id) {
        None => {
            return Err(ApiError::NotFound);
        },
        Some(ix) => ix,
    };
    proof {
        lemma_post_ix(store@, post_id as int, ix as int);
    }
    match super::auth::authorize(store.posts[ix].user_id, principal) {
        Err(e) => {
            return Err(e);
        },
        Ok(()) => {},
    }
    let ghost s0 = store@;
    store.posts.remove(ix);
    let mut kept: Vec<crate::model::reply::Model> = Vec::new();
    let mut i: usize = 0;
    while i < store.replies.len()
        invariant
            i <= store.replies.len(),
            store.replies@.map_values(|m: crate::model::reply::Model| m@) == s0.replies,
            kept@.map_values(|m: crate::model::reply::Model| m@) == without_post_replies(
                s0.replies.subrange(0, i as int),
                post_id as int,
            ),
        decreases store.replies.len() - i,
    {
        let rrow = &store.replies[i];
        proof {
            assert(s0.replies.subrange(0, i as int + 1).drop_last() =~= s0.replies.subrange(
                0,
                i as int,
            ));
            assert(s0.replies.subrange(0, i as int + 1).last() == s0.replies[i as int]);
        }
        if rrow.post_id != post_id {
            let copy = crate::model::reply::Model {
                id: rrow.id,
                post_id: rrow.post_id,
                user_id: rrow.user_id,
                text: rrow.text.clone(),
                created_at: rrow.created_at,
            };
            kept.push(copy);
            proof {
                assert(kept@.map_values(|m: crate::model::reply::Model| m@)
                    =~= without_post_replies(
                    s0.replies.subrange(0, i as int + 1),
                    post_id as int,
                ));
            }
        } else {
            proof {
                assert(kept@.map_values(|m: crate::model::reply::Model| m@)
                    =~= without_post_replies(
                    s0.replies.subrange(0, i as int + 1),
                    post_id as int,
                ));
            }
        }
        i = i + 1;
    }
    store.replies = kept;
    proof {
        assert(s0.replies.subrange(0, s0.replies.len() as int) =~= s0.replies);
        assert(store@ =~= delete_post_cascade(s0, post_id as int));
        lemma_delete_post_cascade_wf(s0, post_id as int);
        lemma_without_post_replies_membership(s0.replies, post_id as int);
        assert forall|rid: int| !has_reply(store@.replies, rid, post_id as int) by {
            if has_reply(store@.replies, rid, post_id as int) {
                let w = choose|w: int|
                    0 <= w < store@.replies.len() && store@.replies[w].id == rid
                        && store@.replies[w].post_id == post_id as int;
                assert(store@.replies[w].post_id != post_id as int);
            }
        }
        assert(!has_post(store@.posts, post_id as int)) by {
            if has_post(store@.posts, post_id as int) {
                let w = choose|w: int|
                    0 <= w < store@.posts.len() && store@.posts[w].id == post_id as int;
                let iix = post_ix(s0.posts, post_id as int);
                if w < iix {
                    assert(s0.posts[w].id == post_id as int);
                    assert(s0.posts[iix].id == post_id as int);
                } else {
                    assert(s0.posts[w + 1].id == post_id as int);
                    assert(s0.posts[iix].id == post_id as int);
                }
            }
        }
    }
    Ok(())
}

} // verus!
