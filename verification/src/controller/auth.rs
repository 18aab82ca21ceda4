//! Registration, login, the session guard and the ownership check.
//!
//! Registration hashes the password (never storing or logging the clear
//! text) and inserts the user unless the username is already stored. Login
//! verifies the password against the stored hash and, on success, stores a
//! fresh random session identifier as a token row valid for one week. The
//! session guard resolves a cookie value back to the authenticated principal,
//! enforcing expiry at lookup time; the ownership check then authorizes a
//! mutation iff the principal is the resource's author.

use crate::crypto::{bcrypt_matches, fresh_token_id, hash_password, verify_password};
use crate::errors::ApiError;
use crate::model::token;
use crate::model::token::TokenView;
use crate::model::user;
use crate::model::user::{LoginResponse, UserView};
use crate::model::AuthUser;
use crate::store::{
    has_token, has_user_id, has_username, lemma_token_ix, lemma_username_ix, token_by,
    user_by_name, user_id_ix, Store, StoreView,
};
use vstd::prelude::*;

verus! {

/// How long a freshly issued token stays valid: one week, in milliseconds.
/// A finite lifetime is chosen deliberately; expiry is enforced by the guard
/// at lookup time, never by deleting the row.
pub const TOKEN_TTL_MILLIS: i64 = 604800000;

/// When a token issued at `now` expires: one week later, saturated at the
/// largest representable time.
pub open spec fn expiry_of(now: int) -> int {
    if now + TOKEN_TTL_MILLIS <= i64::MAX {
        now + TOKEN_TTL_MILLIS
    } else {
        i64::MAX as int
    }
}

/// Computes [`expiry_of`] on machine integers.
pub fn expiry_at(now: i64) -> (r: i64)
    ensures
        r as int == expiry_of(now as int),
{
    if now <= i64::MAX - TOKEN_TTL_MILLIS {
        now + TOKEN_TTL_MILLIS
    } else {
        i64::MAX
    }
}

// ------------------------------------------------------------------
// The state transitions the handlers are specified against
// ------------------------------------------------------------------
/// The store after a successful registration: one more user, carrying the
/// freshly generated id, the username, the password hash and the creation
/// time; nothing else moves.
pub open spec fn register_ok(
    s: StoreView,
    username: Seq<char>,
    password_hash: Seq<char>,
    now: int,
) -> StoreView {
    StoreView {
        users: s.users.push(
            UserView { id: s.next_user_id, username, password: password_hash, created_at: now },
        ),
        next_user_id: s.next_user_id + 1,
        ..s
    }
}

/// The store after login stores a session: exactly one token row is added,
/// keyed by the identifier and expiring one week after `now`; every other
/// row — in particular every earlier token, this user's or anyone's — is
/// kept. The key must be fresh: token keys form the primary key, and a login
/// whose insert the key constraint would refuse surfaces as a failure
/// instead, with no session created.
pub open spec fn with_token(s: StoreView, hash: Seq<char>, user_id: int, now: int) -> StoreView {
    StoreView {
        tokens: s.tokens.push(TokenView { hash, user_id, expires_at: expiry_of(now) }),
        ..s
    }
}

/// What login decides, before any token is stored: the user looked up by
/// username, `UnknownUser` if there is none, `InvalidPassword` if the
/// password does not match the stored hash.
pub open spec fn login_outcome(
    users: Seq<UserView>,
    username: Seq<char>,
    password: Seq<char>,
) -> Result<UserView, ApiError> {
    if !has_username(users, username) {
        Err(ApiError::UnknownUser)
    } else if !bcrypt_matches(password, user_by_name(users, username).password) {
        Err(ApiError::InvalidPassword)
    } else {
        Ok(user_by_name(users, username))
    }
}

/// What the session guard decides: `MissingCredential` without a cookie,
/// `InvalidCredential` when the cookie value matches no stored token,
/// `ExpiredCredential` when the matching token's expiry is not in the
/// future — the row itself stays — and otherwise the token's user as the
/// authenticated principal.
pub open spec fn auth_spec(s: StoreView, cookie: Option<Seq<char>>, now: int) -> Result<
    AuthUser,
    ApiError,
> {
    match cookie {
        Option::None => Err(ApiError::MissingCredential),
        Option::Some(c) => if !has_token(s.tokens, c) {
            Err(ApiError::InvalidCredential)
        } else if token_by(s.tokens, c).expires_at <= now {
            Err(ApiError::ExpiredCredential)
        } else {
            Ok(AuthUser { id: token_by(s.tokens, c).user_id as i64 })
        },
    }
}

/// The cookie as the guard's specification sees it.
pub open spec fn cookie_view(cookie: Option<&String>) -> Option<Seq<char>> {
    match cookie {
        Option::None => Option::None,
        Option::Some(c) => Option::Some(c@),
    }
}

// ------------------------------------------------------------------
// Invariant preservation
// ------------------------------------------------------------------
/// A user lookup by id survives appending another user.
pub proof fn lemma_has_user_id_extend(users: Seq<UserView>, u: UserView, id: int)
    requires
        has_user_id(users, id),
    ensures
        has_user_id(users.push(u), id),
{
    let w = user_id_ix(users, id);
    assert(0 <= w < users.len() && users[w].id == id);
    assert(users.push(u)[w] == users[w]);
}

/// A successful registration preserves the store invariant.
pub proof fn lemma_register_ok_wf(s: StoreView, username: Seq<char>, h: Seq<char>, now: int)
    requires
        s.wf(),
        !has_username(s.users, username),
    ensures
        register_ok(s, username, h, now).wf(),
{
    let s2 = register_ok(s, username, h, now);
    assert forall|i: int| 0 <= i < s.users.len() implies s2.users[i] == s.users[i] by {}
    assert forall|i: int, j: int|
        0 <= i < s2.users.len() && 0 <= j < s2.users.len() && i != j implies (
    #[trigger] s2.users[i]).username != (#[trigger] s2.users[j]).username by {
        if i < s.users.len() && j < s.users.len() {
        } else if i < s.users.len() {
            assert(s.users[i].username != username) by {
                if s.users[i].username == username {
                    assert(has_username(s.users, username));
                }
            }
        } else {
            assert(s.users[j].username != username) by {
                if s.users[j].username == username {
                    assert(has_username(s.users, username));
                }
            }
        }
    }
    assert forall|i: int| 0 <= i < s2.tokens.len() implies has_user_id(
        s2.users,
        (#[trigger] s2.tokens[i]).user_id,
    ) by {
        lemma_has_user_id_extend(s.users, s2.users.last(), s.tokens[i].user_id);
    }
    assert forall|i: int| 0 <= i < s2.posts.len() implies has_user_id(
        s2.users,
        (#[trigger] s2.posts[i]).user_id,
    ) by {
        lemma_has_user_id_extend(s.users, s2.users.last(), s.posts[i].user_id);
    }
    assert forall|i: int| 0 <= i < s2.replies.len() implies has_user_id(
        s2.users,
        (#[trigger] s2.replies[i]).user_id,
    ) by {
        lemma_has_user_id_extend(s.users, s2.users.last(), s.replies[i].user_id);
    }
}

/// Storing a fresh-keyed token for a stored user preserves the store
/// invariant.
pub proof fn lemma_with_token_wf(s: StoreView, hash: Seq<char>, user_id: int, now: int)
    requires
        s.wf(),
        has_user_id(s.users, user_id),
        !has_token(s.tokens, hash),
    ensures
        with_token(s, hash, user_id, now).wf(),
{
    let s2 = with_token(s, hash, user_id, now);
    assert forall|i: int, j: int|
        0 <= i < s2.tokens.len() && 0 <= j < s2.tokens.len() && i != j implies (
    #[trigger] s2.tokens[i]).hash != (#[trigger] s2.tokens[j]).hash by {
        if i < s.tokens.len() && j < s.tokens.len() {
        } else if i < s.tokens.len() {
            assert(s.tokens[i].hash != hash) by {
                if s.tokens[i].hash == hash {
                    assert(has_token(s.tokens, hash));
                }
            }
        } else {
            assert(s.tokens[j].hash != hash) by {
                if s.tokens[j].hash == hash {
                    assert(has_token(s.tokens, hash));
                }
            }
        }
    }
    assert forall|i: int| 0 <= i < s2.tokens.len() implies has_user_id(
        s2.users,
        (#[trigger] s2.tokens[i]).user_id,
    ) by {
        if i < s.tokens.len() {
            assert(s2.tokens[i] == s.tokens[i]);
        } else {
            assert(s2.tokens[i].user_id == user_id);
        }
    }
}

// ------------------------------------------------------------------
// Handlers
// ------------------------------------------------------------------
/// Inserts a user whose password is already hashed. This is the storage half
/// of registration, verified for every hash value: the username must be
/// fresh, and the new account takes the next generated id.
pub fn register_hashed(
    store: &mut Store,
    username: String,
    password_hash: String,
    now: i64,
) -> (r: Result<i64, ApiError>)
    requires
        old(store).wf(),
    ensures
        final(store).wf(),
        final(store).cost == old(store).cost,
        r is Ok <==> (!has_username(old(store)@.users, username@) && old(store)@.next_user_id
            < i64::MAX),
        r matches Ok(id) ==> id == old(store).next_user_id && final(store)@ == register_ok(
            old(store)@,
            username@,
            password_hash@,
            now as int,
        ),
        r matches Err(e) ==> final(store)@ == old(store)@ && (e == ApiError::UsernameTaken || e
            == ApiError::StoreError) && (e == ApiError::UsernameTaken <==> has_username(
            old(store)@.users,
            username@,
        )),
{
    match store.find_user_by_name(&username) {
        Some(ix) => {
            proof {
                assert(store@.users[ix as int].username == username@);
                assert(has_username(store@.users, username@));
            }
            Err(ApiError::UsernameTaken)
        },
        None => {
            if store.next_user_id == i64::MAX {
                Err(ApiError::StoreError)
            } else {
                let ghost s0 = store@;
                let id = store.next_user_id;
                let m = user::Model { id, username, password: password_hash, created_at: now };
                store.users.push(m);
                store.next_user_id = id + 1;
                proof {
                    assert(store@.users =~= s0.users.push(m@));
                    assert(store@ =~= register_ok(s0, username@, password_hash@, now as int));
                    lemma_register_ok_wf(s0, username@, password_hash@, now as int);
                }
                Ok(id)
            }
        },
    }
}

/// Registration: hashes the password at the store's cost factor and inserts
/// the account. The outcome travels as a status flag and a message in a 200
/// response; a taken username is reported as such, any other failure (the
/// hash call failing, an exhausted id space) as invalid registration info.
pub fn create(store: &mut Store, input: user::Input, now: i64) -> (r: LoginResponse)
    requires
        old(store).wf(),
    ensures
        final(store).wf(),
        final(store).cost == old(store).cost,
        !r.status ==> final(store)@ == old(store)@,
        r.status ==> !has_username(old(store)@.users, input.username@) && (exists|h: Seq<char>|
            #[trigger] bcrypt_matches(input.password@, h) && final(store)@ == register_ok(
                old(store)@,
                input.username@,
                h,
                now as int,
            )),
        has_username(old(store)@.users, input.username@) ==> !r.status && r.message@
            == "username is taken"@,
        r.status ==> r.message@ == "registration successful"@,
        !r.status && !has_username(old(store)@.users, input.username@) ==> r.message@
            == "invalid registration info"@,
{
    match store.find_user_by_name(&input.username) {
        Some(ix) => {
            proof {
                assert(store@.users[ix as int].username == input.username@);
                assert(has_username(store@.users, input.username@));
            }
            return LoginResponse { status: false, message: "username is taken".to_owned() };
        },
        None => {},
    }
    let hashed = match hash_password(input.password.as_str(), store.cost) {
        Ok(h) => h,
        Err(_) => {
            return LoginResponse { status: false, message: "invalid registration info".to_owned() };
        },
    };
    let ghost hview = hashed@;
    match register_hashed(store, input.username, hashed, now) {
        Ok(_) => {
            proof {
                assert(bcrypt_matches(input.password@, hview) && final(store)@ == register_ok(
                    old(store)@,
                    input.username@,
                    hview,
                    now as int,
                ));
            }
            LoginResponse { status: true, message: "registration successful".to_owned() }
        },
        Err(_) => LoginResponse { status: false, message: "invalid registration info".to_owned() },
    }
}

/// The storage half of login, verified for every session identifier: looks
/// the user up, verifies the password against the stored hash, and on success
/// stores `token_id` as a token for that user expiring one week after `now`.
/// A wrong username or password is answered inside a 200 response with a
/// status flag, never saying more than a message. A `token_id` colliding with
/// a stored token key — the insert the primary key would refuse — surfaces as
/// `StoreError`: the session is never created, and the caller must log in
/// again.
pub fn login_with_token(
    store: &mut Store,
    input: &user::Input,
    token_id: String,
    now: i64,
) -> (r: Result<LoginResponse, ApiError>)
    requires
        old(store).wf(),
    ensures
        final(store).wf(),
        final(store).cost == old(store).cost,
        login_outcome(old(store)@.users, input.username@, input.password@) matches Err(e) ==> (
        r matches Ok(resp) && !resp.status && final(store)@ == old(store)@ && (e
            == ApiError::UnknownUser ==> resp.message@ == "username doesn't exist"@) && (e
            == ApiError::InvalidPassword ==> resp.message@ == "invalid login info"@)),
        login_outcome(old(store)@.users, input.username@, input.password@) matches Ok(u) ==> (
        !has_token(old(store)@.tokens, token_id@) ==> (r matches Ok(resp) && resp.status
            && resp.message@ == "login successful"@ && final(store)@ == with_token(
            old(store)@,
            token_id@,
            u.id,
            now as int,
        ))),
        r matches Err(e) ==> e == ApiError::StoreError && final(store)@ == old(store)@,
        r is Err <==> (login_outcome(old(store)@.users, input.username@, input.password@) is Ok
            && has_token(old(store)@.tokens, token_id@)),
{
    let ix = match store.find_user_by_name(&input.username) {
        None => {
            return Ok(
                LoginResponse { status: false, message: "username doesn't exist".to_owned() },
            );
        },
        Some(ix) => ix,
    };
    proof {
        lemma_username_ix(store@, input.username@, ix as int);
    }
    let ok = verify_password(input.password.as_str(), store.users[ix].password.as_str());
    if !ok {
        return Ok(LoginResponse { status: false, message: "invalid login info".to_owned() });
    }
    let user_id = store.users[ix].id;
    let ghost s0 = store@;
    match store.find_token(&token_id) {
        Some(jx) => {
            proof {
                assert(store@.tokens[jx as int].hash == token_id@);
                assert(has_token(s0.tokens, token_id@));
            }
            Err(ApiError::StoreError)
        },
        None => {
            let expires_at = expiry_at(now);
            let tok = token::Model { hash: token_id, user_id, expires_at };
            store.tokens.push(tok);
            proof {
                assert(store@.tokens =~= s0.tokens.push(tok@));
                assert(store@ =~= with_token(s0, token_id@, user_id as int, now as int));
                assert(has_user_id(s0.users, user_id as int)) by {
                    assert(s0.users[ix as int].id == user_id as int);
                }
                lemma_with_token_wf(s0, token_id@, user_id as int, now as int);
            }
            Ok(LoginResponse { status: true, message: "login successful".to_owned() })
        },
    }
}

/// Login: draws a fresh random session identifier, runs
/// [`login_with_token`], and on success hands the identifier back as the
/// value to set as the `token` cookie (which the embedding server should mark
/// secure, cross-site and unreadable to scripts). Success stores exactly one
/// fresh token row and issues exactly one cookie, whose value is that row's
/// key; no cookie is issued on any failure. In the vanishingly rare case that
/// the drawn identifier collides with a stored token key, the whole login
/// fails as `StoreError` — an internal failure, answered as a 500 — with no
/// session created, and the client logs in again.
pub fn login(store: &mut Store, input: &user::Input, now: i64) -> (r: Result<
    (LoginResponse, Option<String>),
    ApiError,
>)
    requires
        old(store).wf(),
    ensures
        final(store).wf(),
        final(store).cost == old(store).cost,
        login_outcome(old(store)@.users, input.username@, input.password@) matches Err(e) ==> (
        r matches Ok(p) && !p.0.status && p.1 is None && final(store)@ == old(store)@ && (e
            == ApiError::UnknownUser ==> p.0.message@ == "username doesn't exist"@) && (e
            == ApiError::InvalidPassword ==> p.0.message@ == "invalid login info"@)),
        login_outcome(old(store)@.users, input.username@, input.password@) matches Ok(u) ==> (r
            matches Ok(p) ==> (p.0.status && p.0.message@ == "login successful"@ && (p.1 matches
        Some(c) && c@.len() == 36 && !has_token(old(store)@.tokens, c@) && final(store)@
            == with_token(old(store)@, c@, u.id, now as int)))),
        r matches Ok(p) ==> (p.1 is Some <==> p.0.status),
        r matches Err(e) ==> e == ApiError::StoreError && final(store)@ == old(store)@
            && login_outcome(old(store)@.users, input.username@, input.password@) is Ok,
{
    let token_id = fresh_token_id();
    let cookie = token_id.clone();
    match login_with_token(store, input, token_id, now) {
        Err(e) => Err(e),
        Ok(resp) => {
            if resp.status {
                Ok((resp, Some(cookie)))
            } else {
                Ok((resp, None))
            }
        },
    }
}

/// The session guard: resolves the request's `token` cookie to the
/// authenticated principal, or fails as [`auth_spec`] says. Read-only: no
/// sliding expiry, no refresh, no deletion of expired rows. The principal it
/// returns is always a stored user.
pub fn authenticate(store: &Store, cookie: Option<&String>, now: i64) -> (r: Result<
    AuthUser,
    ApiError,
>)
    requires
        store.wf(),
    ensures
        r == auth_spec(store@, cookie_view(cookie), now as int),
        r matches Ok(a) ==> has_user_id(store@.users, a.id as int),
{
    let c = match cookie {
        None => {
            return Err(ApiError::MissingCredential);
        },
        Some(c) => c,
    };
    let ix = match store.find_token(c) {
        None => {
            return Err(ApiError::InvalidCredential);
        },
        Some(ix) => ix,
    };
    proof {
        lemma_token_ix(store@, c@, ix as int);
    }
    if store.tokens[ix].expires_at <= now {
        return Err(ApiError::ExpiredCredential);
    }
    let uid = store.tokens[ix].user_id;
    Ok(AuthUser { id: uid })
}

/// The ownership check: a mutation of a resource is authorized iff the
/// acting principal is the resource's author.
pub fn authorize(author_id: i64, principal: &AuthUser) -> (r: Result<(), ApiError>)
    ensures
        r is Ok <==> principal.id == author_id,
        r matches Err(e) ==> e == ApiError::Unauthorized,
{
    if principal.id == author_id {
        Ok(())
    } else {
        Err(ApiError::Unauthorized)
    }
}

} // verus!
