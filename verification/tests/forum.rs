//! End-to-end exercises of the forum library with the real bcrypt and uuid
//! crates linked: registration, login, the session guard, ownership, and the
//! post/reply handlers, on concrete values.

use forum::controller::auth;
use forum::controller::post;
use forum::controller::reply;
use forum::errors::ApiError;
use forum::model::post as post_model;
use forum::model::reply as reply_model;
use forum::model::user;
use forum::model::AuthUser;
use forum::store::Store;

// A low (but valid) bcrypt cost keeps the hashing in these tests fast.
const TEST_COST: u32 = 4;

fn creds(username: &str, password: &str) -> user::Input {
    user::Input {
        username: username.to_string(),
        password: password.to_string(),
    }
}

/// Registers `alice` and logs in, returning the store and her cookie.
fn store_with_alice() -> (Store, String) {
    let mut store = Store::with_cost(TEST_COST);
    let reg = auth::create(&mut store, creds("alice", "pw1"), 1_000);
    assert!(reg.status);
    let (resp, cookie) = auth::login(&mut store, &creds("alice", "pw1"), 2_000).expect("login failed");
    assert!(resp.status);
    (store, cookie.expect("login issued no cookie"))
}

#[test]
fn register_then_login_succeeds() {
    let mut store = Store::with_cost(TEST_COST);
    let reg = auth::create(&mut store, creds("alice", "pw1"), 1_000);
    assert!(reg.status);
    assert_eq!(reg.message, "registration successful");
    let (resp, cookie) = auth::login(&mut store, &creds("alice", "pw1"), 2_000).expect("login failed");
    assert!(resp.status);
    assert_eq!(resp.message, "login successful");
    assert!(cookie.is_some());
}

#[test]
fn registration_stores_no_clear_text_password() {
    let mut store = Store::with_cost(TEST_COST);
    let reg = auth::create(&mut store, creds("alice", "pw1"), 1_000);
    assert!(reg.status);
    assert_eq!(store.users.len(), 1);
    assert_ne!(store.users[0].password, "pw1");
}

#[test]
fn duplicate_username_rejected_and_hash_unchanged() {
    let mut store = Store::with_cost(TEST_COST);
    let first = auth::create(&mut store, creds("alice", "pw1"), 1_000);
    assert!(first.status);
    let stored_hash = store.users[0].password.clone();
    let second = auth::create(&mut store, creds("alice", "pw2"), 2_000);
    assert!(!second.status);
    assert_eq!(second.message, "username is taken");
    assert_eq!(store.users.len(), 1);
    assert_eq!(store.users[0].password, stored_hash);
    // The original password still logs in; the second attempt's does not.
    let (ok, _) = auth::login(&mut store, &creds("alice", "pw1"), 3_000).expect("login failed");
    assert!(ok.status);
    let (bad, _) = auth::login(&mut store, &creds("alice", "pw2"), 3_000).expect("login failed");
    assert!(!bad.status);
}

#[test]
fn wrong_password_rejected_without_cookie() {
    let mut store = Store::with_cost(TEST_COST);
    assert!(auth::create(&mut store, creds("alice", "pw1"), 1_000).status);
    let (resp, cookie) = auth::login(&mut store, &creds("alice", "wrong"), 2_000).expect("login failed");
    assert!(!resp.status);
    assert_eq!(resp.message, "invalid login info");
    assert!(cookie.is_none());
    assert_eq!(store.tokens.len(), 0);
}

#[test]
fn unknown_username_rejected_without_cookie() {
    let mut store = Store::with_cost(TEST_COST);
    let (resp, cookie) = auth::login(&mut store, &creds("nobody", "pw"), 1_000).expect("login failed");
    assert!(!resp.status);
    assert_eq!(resp.message, "username doesn't exist");
    assert!(cookie.is_none());
}

#[test]
fn login_issues_36_character_cookie() {
    let (_, cookie) = store_with_alice();
    assert_eq!(cookie.len(), 36);
}

#[test]
fn guard_accepts_fresh_cookie() {
    let (store, cookie) = store_with_alice();
    let principal = auth::authenticate(&store, Some(&cookie), 2_500).expect("valid cookie");
    assert_eq!(principal.id, store.users[0].id);
}

#[test]
fn guard_rejects_missing_cookie() {
    let (store, _) = store_with_alice();
    assert_eq!(
        auth::authenticate(&store, None, 2_500),
        Err(ApiError::MissingCredential)
    );
}

#[test]
fn guard_rejects_unknown_cookie() {
    let (store, _) = store_with_alice();
    let forged = "not-a-token".to_string();
    assert_eq!(
        auth::authenticate(&store, Some(&forged), 2_500),
        Err(ApiError::InvalidCredential)
    );
}

#[test]
fn guard_rejects_expired_cookie_and_keeps_row() {
    let (store, cookie) = store_with_alice();
    // The token was issued at 2_000 and lives one week.
    let just_before = 2_000 + auth::TOKEN_TTL_MILLIS - 1;
    assert!(auth::authenticate(&store, Some(&cookie), just_before).is_ok());
    let at_expiry = 2_000 + auth::TOKEN_TTL_MILLIS;
    assert_eq!(
        auth::authenticate(&store, Some(&cookie), at_expiry),
        Err(ApiError::ExpiredCredential)
    );
    // Expiry is enforced at lookup time: the row persists.
    assert_eq!(store.tokens.len(), 1);
}

#[test]
fn created_post_is_answered_with_username() {
    let (mut store, cookie) = store_with_alice();
    let principal = auth::authenticate(&store, Some(&cookie), 2_500).expect("valid cookie");
    let out = post::create(
        &mut store,
        post_model::Input {
            text: "hello".to_string(),
        },
        &principal,
        3_000,
    )
    .expect("create failed");
    assert_eq!(out.id, 1);
    assert_eq!(out.user_id, principal.id);
    assert_eq!(out.username, "alice");
    assert_eq!(out.text, "hello");
    assert_eq!(out.created_at, 3_000);
}

#[test]
fn end_to_end_register_login_post_read() {
    let mut store = Store::with_cost(TEST_COST);
    assert!(auth::create(&mut store, creds("alice", "pw1"), 1_000).status);
    let (resp, cookie) = auth::login(&mut store, &creds("alice", "pw1"), 2_000).expect("login failed");
    assert!(resp.status);
    let cookie = cookie.expect("no cookie");
    let principal = auth::authenticate(&store, Some(&cookie), 2_500).expect("valid cookie");
    let created = post::create(
        &mut store,
        post_model::Input {
            text: "hello".to_string(),
        },
        &principal,
        3_000,
    )
    .expect("create failed");
    let fetched = post::read(&store, created.id).expect("read failed");
    assert_eq!(fetched.text, "hello");
    assert_eq!(fetched.username, "alice");
}

#[test]
fn read_missing_post_is_not_found() {
    let store = Store::with_cost(TEST_COST);
    assert!(matches!(post::read(&store, 1), Err(ApiError::NotFound)));
}

#[test]
fn read_all_posts_in_stored_order() {
    let (mut store, cookie) = store_with_alice();
    let principal = auth::authenticate(&store, Some(&cookie), 2_500).expect("valid cookie");
    for text in ["first", "second", "third"] {
        post::create(
            &mut store,
            post_model::Input {
                text: text.to_string(),
            },
            &principal,
            3_000,
        )
        .expect("create failed");
    }
    let all = post::read_all(&store);
    assert_eq!(all.len(), 3);
    assert_eq!(all[0].text, "first");
    assert_eq!(all[1].text, "second");
    assert_eq!(all[2].text, "third");
    assert!(all.iter().all(|p| p.username == "alice"));
}

#[test]
fn create_post_with_unknown_author_is_store_error() {
    let mut store = Store::with_cost(TEST_COST);
    let ghost_author = AuthUser { id: 42 };
    let r = post::create(
        &mut store,
        post_model::Input {
            text: "boo".to_string(),
        },
        &ghost_author,
        1_000,
    );
    assert!(matches!(r, Err(ApiError::StoreError)));
    assert_eq!(store.posts.len(), 0);
}

#[test]
fn foreign_user_cannot_update_or_delete_post() {
    let (mut store, alice_cookie) = store_with_alice();
    let alice = auth::authenticate(&store, Some(&alice_cookie), 2_500).expect("valid cookie");
    let created = post::create(
        &mut store,
        post_model::Input {
            text: "mine".to_string(),
        },
        &alice,
        3_000,
    )
    .expect("create failed");

    assert!(auth::create(&mut store, creds("bob", "pw2"), 4_000).status);
    let (resp, bob_cookie) = auth::login(&mut store, &creds("bob", "pw2"), 5_000).expect("login failed");
    assert!(resp.status);
    let bob_cookie = bob_cookie.expect("no cookie");
    let bob = auth::authenticate(&store, Some(&bob_cookie), 5_500).expect("valid cookie");

    let upd = post::update(
        &mut store,
        post_model::Input {
            text: "stolen".to_string(),
        },
        created.id,
        &bob,
    );
    assert!(matches!(upd, Err(ApiError::Unauthorized)));
    let del = post::delete(&mut store, created.id, &bob);
    assert!(matches!(del, Err(ApiError::Unauthorized)));
    // The text is unchanged.
    let fetched = post::read(&store, created.id).expect("read failed");
    assert_eq!(fetched.text, "mine");
}

#[test]
fn author_updates_own_post_text_only() {
    let (mut store, cookie) = store_with_alice();
    let alice = auth::authenticate(&store, Some(&cookie), 2_500).expect("valid cookie");
    let created = post::create(
        &mut store,
        post_model::Input {
            text: "before".to_string(),
        },
        &alice,
        3_000,
    )
    .expect("create failed");
    let updated = post::update(
        &mut store,
        post_model::Input {
            text: "after".to_string(),
        },
        created.id,
        &alice,
    )
    .expect("update failed");
    assert_eq!(updated.text, "after");
    assert_eq!(updated.id, created.id);
    assert_eq!(updated.user_id, created.user_id);
    assert_eq!(updated.created_at, created.created_at);
}

#[test]
fn update_missing_post_is_not_found() {
    let (mut store, cookie) = store_with_alice();
    let alice = auth::authenticate(&store, Some(&cookie), 2_500).expect("valid cookie");
    let r = post::update(
        &mut store,
        post_model::Input {
            text: "x".to_string(),
        },
        7,
        &alice,
    );
    assert!(matches!(r, Err(ApiError::NotFound)));
}

#[test]
fn deleting_post_removes_its_replies() {
    let (mut store, cookie) = store_with_alice();
    let alice = auth::authenticate(&store, Some(&cookie), 2_500).expect("valid cookie");
    let kept_post = post::create(
        &mut store,
        post_model::Input {
            text: "kept".to_string(),
        },
        &alice,
        3_000,
    )
    .expect("create failed");
    let doomed_post = post::create(
        &mut store,
        post_model::Input {
            text: "doomed".to_string(),
        },
        &alice,
        3_100,
    )
    .expect("create failed");
    let kept_reply = reply::create(
        &mut store,
        reply_model::Input {
            text: "stays".to_string(),
        },
        kept_post.id,
        &alice,
        3_200,
    )
    .expect("reply failed");
    let doomed_reply = reply::create(
        &mut store,
        reply_model::Input {
            text: "goes".to_string(),
        },
        doomed_post.id,
        &alice,
        3_300,
    )
    .expect("reply failed");

    post::delete(&mut store, doomed_post.id, &alice).expect("delete failed");

    assert!(matches!(
        post::read(&store, doomed_post.id),
        Err(ApiError::NotFound)
    ));
    assert!(matches!(
        reply::read(&store, doomed_post.id, doomed_reply.id),
        Err(ApiError::NotFound)
    ));
    assert_eq!(reply::read_all(&store, doomed_post.id).len(), 0);
    // The other post and its reply survive.
    assert_eq!(
        reply::read(&store, kept_post.id, kept_reply.id)
            .expect("read failed")
            .text,
        "stays"
    );
}

#[test]
fn reply_lookup_is_scoped_to_its_post() {
    let (mut store, cookie) = store_with_alice();
    let alice = auth::authenticate(&store, Some(&cookie), 2_500).expect("valid cookie");
    let post_a = post::create(
        &mut store,
        post_model::Input {
            text: "a".to_string(),
        },
        &alice,
        3_000,
    )
    .expect("create failed");
    let post_b = post::create(
        &mut store,
        post_model::Input {
            text: "b".to_string(),
        },
        &alice,
        3_100,
    )
    .expect("create failed");
    let reply_under_b = reply::create(
        &mut store,
        reply_model::Input {
            text: "under b".to_string(),
        },
        post_b.id,
        &alice,
        3_200,
    )
    .expect("reply failed");

    // The reply exists, but not under post A.
    assert!(matches!(
        reply::read(&store, post_a.id, reply_under_b.id),
        Err(ApiError::NotFound)
    ));
    assert_eq!(
        reply::read(&store, post_b.id, reply_under_b.id)
            .expect("read failed")
            .text,
        "under b"
    );
}

#[test]
fn reply_under_missing_post_is_not_found() {
    let (mut store, cookie) = store_with_alice();
    let alice = auth::authenticate(&store, Some(&cookie), 2_500).expect("valid cookie");
    let r = reply::create(
        &mut store,
        reply_model::Input {
            text: "orphan".to_string(),
        },
        9,
        &alice,
        3_000,
    );
    assert!(matches!(r, Err(ApiError::NotFound)));
}

#[test]
fn foreign_user_cannot_update_or_delete_reply() {
    let (mut store, alice_cookie) = store_with_alice();
    let alice = auth::authenticate(&store, Some(&alice_cookie), 2_500).expect("valid cookie");
    let p = post::create(
        &mut store,
        post_model::Input {
            text: "thread".to_string(),
        },
        &alice,
        3_000,
    )
    .expect("create failed");
    let r = reply::create(
        &mut store,
        reply_model::Input {
            text: "mine".to_string(),
        },
        p.id,
        &alice,
        3_100,
    )
    .expect("reply failed");

    assert!(auth::create(&mut store, creds("bob", "pw2"), 4_000).status);
    let (_, bob_cookie) = auth::login(&mut store, &creds("bob", "pw2"), 5_000).expect("login failed");
    let bob_cookie = bob_cookie.expect("no cookie");
    let bob = auth::authenticate(&store, Some(&bob_cookie), 5_500).expect("valid cookie");

    let upd = reply::update(
        &mut store,
        reply_model::Input {
            text: "stolen".to_string(),
        },
        p.id,
        r.id,
        &bob,
    );
    assert!(matches!(upd, Err(ApiError::Unauthorized)));
    let del = reply::delete(&mut store, p.id, r.id, &bob);
    assert!(matches!(del, Err(ApiError::Unauthorized)));
    let fetched = reply::read(&store, p.id, r.id).expect("read failed");
    assert_eq!(fetched.text, "mine");
}

#[test]
fn author_updates_and_deletes_own_reply() {
    let (mut store, cookie) = store_with_alice();
    let alice = auth::authenticate(&store, Some(&cookie), 2_500).expect("valid cookie");
    let p = post::create(
        &mut store,
        post_model::Input {
            text: "thread".to_string(),
        },
        &alice,
        3_000,
    )
    .expect("create failed");
    let r = reply::create(
        &mut store,
        reply_model::Input {
            text: "before".to_string(),
        },
        p.id,
        &alice,
        3_100,
    )
    .expect("reply failed");
    let updated = reply::update(
        &mut store,
        reply_model::Input {
            text: "after".to_string(),
        },
        p.id,
        r.id,
        &alice,
    )
    .expect("update failed");
    assert_eq!(updated.text, "after");
    assert_eq!(updated.id, r.id);
    assert_eq!(updated.post_id, p.id);
    reply::delete(&mut store, p.id, r.id, &alice).expect("delete failed");
    assert!(matches!(
        reply::read(&store, p.id, r.id),
        Err(ApiError::NotFound)
    ));
}

#[test]
fn read_all_replies_lists_only_that_post() {
    let (mut store, cookie) = store_with_alice();
    let alice = auth::authenticate(&store, Some(&cookie), 2_500).expect("valid cookie");
    let post_a = post::create(
        &mut store,
        post_model::Input {
            text: "a".to_string(),
        },
        &alice,
        3_000,
    )
    .expect("create failed");
    let post_b = post::create(
        &mut store,
        post_model::Input {
            text: "b".to_string(),
        },
        &alice,
        3_100,
    )
    .expect("create failed");
    for (pid, text) in [(post_a.id, "a1"), (post_b.id, "b1"), (post_a.id, "a2")] {
        reply::create(
            &mut store,
            reply_model::Input {
                text: text.to_string(),
            },
            pid,
            &alice,
            3_200,
        )
        .expect("reply failed");
    }
    let under_a = reply::read_all(&store, post_a.id);
    assert_eq!(under_a.len(), 2);
    assert_eq!(under_a[0].text, "a1");
    assert_eq!(under_a[1].text, "a2");
    assert_eq!(reply::read_all(&store, post_b.id).len(), 1);
}

#[test]
fn mutations_require_authentication_errors_map_to_http() {
    assert_eq!(ApiError::MissingCredential.http_status(), 401);
    assert_eq!(ApiError::InvalidCredential.http_status(), 401);
    assert_eq!(ApiError::ExpiredCredential.http_status(), 401);
    assert_eq!(ApiError::Unauthorized.http_status(), 401);
    assert_eq!(ApiError::NotFound.http_status(), 404);
    assert_eq!(ApiError::UsernameTaken.http_status(), 200);
    assert_eq!(ApiError::UnknownUser.http_status(), 200);
    assert_eq!(ApiError::InvalidPassword.http_status(), 200);
    assert_eq!(ApiError::StoreError.http_status(), 500);
}

#[test]
fn hashing_round_trips_through_the_real_bcrypt() {
    // Would fail if the hashing wrapper handed its argument back unchanged:
    // a clear-text "pw1" is no bcrypt hash string, so verification would
    // reject the very password that was registered.
    let mut store = Store::with_cost(TEST_COST);
    assert!(auth::create(&mut store, creds("alice", "pw1"), 1_000).status);
    let (ok, _) = auth::login(&mut store, &creds("alice", "pw1"), 2_000).expect("login failed");
    assert!(ok.status);
    let (bad, _) = auth::login(&mut store, &creds("alice", "pw1 "), 2_000).expect("login failed");
    assert!(!bad.status);
}

#[test]
fn token_key_collision_fails_login_and_creates_no_session() {
    let mut store = Store::with_cost(TEST_COST);
    assert!(auth::create(&mut store, creds("alice", "pw1"), 1_000).status);
    let first = auth::login_with_token(
        &mut store,
        &creds("alice", "pw1"),
        "fixed-token".to_string(),
        2_000,
    )
    .expect("first login failed");
    assert!(first.status);
    assert_eq!(store.tokens.len(), 1);
    // The same key again: the store's primary key refuses the insert, the
    // login surfaces the failure and no second session exists.
    let second = auth::login_with_token(
        &mut store,
        &creds("alice", "pw1"),
        "fixed-token".to_string(),
        3_000,
    );
    assert!(matches!(second, Err(ApiError::StoreError)));
    assert_eq!(store.tokens.len(), 1);
    assert_eq!(store.tokens[0].expires_at, 2_000 + auth::TOKEN_TTL_MILLIS);
}

#[test]
fn successful_login_adds_exactly_one_token_row() {
    let mut store = Store::with_cost(TEST_COST);
    assert!(auth::create(&mut store, creds("alice", "pw1"), 1_000).status);
    assert!(auth::create(&mut store, creds("bob", "pw2"), 1_100).status);
    let (a1, _) = auth::login(&mut store, &creds("alice", "pw1"), 2_000).expect("login failed");
    assert!(a1.status);
    assert_eq!(store.tokens.len(), 1);
    let first_key = store.tokens[0].hash.clone();
    // A second login — same user, then another user — adds one row each and
    // keeps every earlier row: nothing is revoked.
    let (a2, _) = auth::login(&mut store, &creds("alice", "pw1"), 2_500).expect("login failed");
    assert!(a2.status);
    let (b1, _) = auth::login(&mut store, &creds("bob", "pw2"), 3_000).expect("login failed");
    assert!(b1.status);
    assert_eq!(store.tokens.len(), 3);
    assert_eq!(store.tokens[0].hash, first_key);
}
