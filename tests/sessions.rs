use ticket_app::auth::{login, logout, resolve_request, session_cookie, LoginError, DEFAULT_SESSION_TTL_SECONDS};
use ticket_app::ctx::{Ctx, CtxError, UserId};
use ticket_app::password::{compute_password_hash, AuthError, Credentials, StoredCredentials};
use ticket_app::resolver::{
    ctx_from_lookup, require_ctx, session_key_from_cookie, should_clear_cookie, CtxExtError, CtxResult,
    SessionLookup, AUTH_COOKIE,
};
use ticket_app::session_key::{generate_session_key, SessionKey};
use ticket_app::session_store::SessionStore;

const TTL: u64 = 10;

fn key(text: &str) -> SessionKey {
    SessionKey::parse(text).unwrap()
}

#[test]
fn nil_user_id_gives_no_identity() {
    assert_eq!(Ctx::new(UserId::nil()).unwrap_err(), CtxError::InvalidUserId);
    let ctx = Ctx::new(UserId(99)).unwrap();
    assert_eq!(ctx.user_id(), UserId(99));
    assert!(Ctx::root_ctx().user_id().is_nil());
}

#[test]
fn user_id_text_is_hyphenated_uuid() {
    assert_eq!(UserId(1).to_text(), "00000000-0000-0000-0000-000000000001");
    assert_eq!(
        UserId(0x67e5504410b1426f9247bb680e5fe0c8).to_text(),
        "67e55044-10b1-426f-9247-bb680e5fe0c8"
    );
}

#[test]
fn missing_cookie_is_not_cleared() {
    let result: CtxResult = session_key_from_cookie(None).map(|_| Ctx::root_ctx());
    assert_eq!(result.clone().unwrap_err(), CtxExtError::TokenNotInCookie);
    assert!(!should_clear_cookie(&result));
}

#[test]
fn oversized_cookie_is_malformed_and_cleared() {
    let value = "k".repeat(4065);
    let parsed = session_key_from_cookie(Some(&value));
    assert_eq!(parsed.unwrap_err(), CtxExtError::TokenMalformed);
    let mut store = SessionStore::new();
    let result = resolve_request(&mut store, Some(&value), TTL, 0);
    assert_eq!(result.clone().unwrap_err(), CtxExtError::TokenMalformed);
    assert!(should_clear_cookie(&result));
}

#[test]
fn lookup_answers_map_to_outcomes() {
    assert_eq!(ctx_from_lookup(SessionLookup::Found(UserId(5))).unwrap().user_id(), UserId(5));
    assert_eq!(ctx_from_lookup(SessionLookup::Missing).unwrap_err(), CtxExtError::SessionNotFound);
    assert_eq!(
        ctx_from_lookup(SessionLookup::Unavailable).unwrap_err(),
        CtxExtError::SessionAccessError
    );
    assert_eq!(
        ctx_from_lookup(SessionLookup::Found(UserId(0))).unwrap_err(),
        CtxExtError::CtxCreateFail("00000000-0000-0000-0000-000000000000".to_string())
    );
}

#[test]
fn guard_lets_only_identified_requests_through() {
    let ok: CtxResult = Ok(Ctx::new(UserId(1)).unwrap());
    assert_eq!(require_ctx(&ok), Ok(()));
    assert!(!should_clear_cookie(&ok));
    let missing: CtxResult = Err(CtxExtError::SessionNotFound);
    assert_eq!(require_ctx(&missing), Err(CtxExtError::SessionNotFound));
    assert!(should_clear_cookie(&missing));
    let absent: CtxResult = Err(CtxExtError::TokenNotInCookie);
    assert_eq!(require_ctx(&absent), Err(CtxExtError::TokenNotInCookie));
}

#[test]
fn session_cookie_carries_key_and_lifetime() {
    let k = key("abc");
    let cookie = session_cookie(&k, 1800);
    assert_eq!(cookie.name, "x-session");
    assert_eq!(AUTH_COOKIE, "x-session");
    assert_eq!(cookie.value, "abc");
    assert_eq!(cookie.max_age_seconds, 1800);
    assert!(cookie.http_only);
    assert_eq!(DEFAULT_SESSION_TTL_SECONDS, 1800);
}

#[test]
fn store_sets_only_absent_keys() {
    let mut store = SessionStore::new();
    let k = key("k1");
    assert!(store.set_if_absent(&k, UserId(1), TTL, 100));
    assert!(!store.set_if_absent(&k, UserId(2), TTL, 105));
    assert_eq!(store.get_and_refresh(&k, TTL, 106), Some(UserId(1)));
    // Once expired, the key may be taken again.
    assert!(store.set_if_absent(&k, UserId(3), TTL, 200));
    assert_eq!(store.get_and_refresh(&k, TTL, 201), Some(UserId(3)));
}

#[test]
fn store_delete_is_idempotent() {
    let mut store = SessionStore::new();
    let k = key("k2");
    store.delete(&k);
    assert!(store.set_if_absent(&k, UserId(1), TTL, 0));
    store.delete(&k);
    store.delete(&k);
    assert_eq!(store.get_and_refresh(&k, TTL, 1), None);
}

#[test]
fn login_then_request_resolves_to_the_user() {
    let mut store = SessionStore::new();
    let stored = StoredCredentials {
        user_id: UserId(77),
        password_hash: compute_password_hash("Secret-Pass1").unwrap(),
    };
    let credentials = Credentials {
        email_or_user: "alice".to_string(),
        password: "Secret-Pass1".to_string(),
    };
    let session = generate_session_key();
    let cookie = login(&mut store, &credentials, Some(stored), session.clone(), TTL, 1000).unwrap();
    assert_eq!(cookie.name, AUTH_COOKIE);
    assert_eq!(cookie.value, session.as_str());
    let ctx = resolve_request(&mut store, Some(&cookie.value), TTL, 1005).unwrap();
    assert_eq!(ctx.user_id(), UserId(77));
}

#[test]
fn failed_login_sets_no_cookie_and_creates_no_session() {
    let mut store = SessionStore::new();
    let stored = StoredCredentials {
        user_id: UserId(77),
        password_hash: compute_password_hash("Secret-Pass1").unwrap(),
    };
    let credentials = Credentials {
        email_or_user: "alice".to_string(),
        password: "Wrong-Pass1".to_string(),
    };
    let session = generate_session_key();
    let result = login(&mut store, &credentials, Some(stored), session.clone(), TTL, 1000);
    assert_eq!(result.unwrap_err(), LoginError::Auth(AuthError::InvalidCredentials));
    assert_eq!(store.get_and_refresh(&session, TTL, 1001), None);
}

#[test]
fn unknown_user_cannot_log_in() {
    let mut store = SessionStore::new();
    let credentials = Credentials {
        email_or_user: "ghost".to_string(),
        password: "Anything-1".to_string(),
    };
    let result = login(&mut store, &credentials, None, generate_session_key(), TTL, 0);
    assert_eq!(result.unwrap_err(), LoginError::Auth(AuthError::InvalidCredentials));
}

#[test]
fn idle_session_expires_after_ttl() {
    let mut store = SessionStore::new();
    let k = key("idle");
    assert!(store.set_if_absent(&k, UserId(8), TTL, 100));
    let result = resolve_request(&mut store, Some("idle"), TTL, 110);
    assert_eq!(result.clone().unwrap_err(), CtxExtError::SessionNotFound);
    assert!(should_clear_cookie(&result));
}

#[test]
fn activity_slides_the_expiry() {
    let mut store = SessionStore::new();
    let k = key("busy");
    assert!(store.set_if_absent(&k, UserId(8), TTL, 100));
    assert_eq!(resolve_request(&mut store, Some("busy"), TTL, 109).unwrap().user_id(), UserId(8));
    // Past the deadline set at login, but within TTL of the last request.
    assert_eq!(resolve_request(&mut store, Some("busy"), TTL, 115).unwrap().user_id(), UserId(8));
    assert_eq!(
        resolve_request(&mut store, Some("busy"), TTL, 125).unwrap_err(),
        CtxExtError::SessionNotFound
    );
}

#[test]
fn logout_ends_the_session() {
    let mut store = SessionStore::new();
    let k = key("bye");
    assert!(store.set_if_absent(&k, UserId(9), TTL, 0));
    assert!(resolve_request(&mut store, Some("bye"), TTL, 1).is_ok());
    logout(&mut store, &k);
    let result = resolve_request(&mut store, Some("bye"), TTL, 2);
    assert_eq!(result.clone().unwrap_err(), CtxExtError::SessionNotFound);
    assert!(should_clear_cookie(&result));
}

#[test]
fn request_without_cookie_is_anonymous() {
    let mut store = SessionStore::new();
    assert_eq!(
        resolve_request(&mut store, None, TTL, 0).unwrap_err(),
        CtxExtError::TokenNotInCookie
    );
}

#[test]
fn key_collision_is_reported() {
    let mut store = SessionStore::new();
    let k = key("taken");
    assert!(store.set_if_absent(&k, UserId(1), TTL, 0));
    let stored = StoredCredentials {
        user_id: UserId(2),
        password_hash: compute_password_hash("Other-Pass2").unwrap(),
    };
    let credentials = Credentials {
        email_or_user: "bob".to_string(),
        password: "Other-Pass2".to_string(),
    };
    let result = login(&mut store, &credentials, Some(stored), k.clone(), TTL, 1);
    assert_eq!(result.unwrap_err(), LoginError::KeyCollision);
    assert_eq!(store.get_and_refresh(&k, TTL, 2), Some(UserId(1)));
}

#[test]
fn login_steps_open_a_session_or_refuse() {
    let refused = ticket_app::auth::begin_login(Err(AuthError::InvalidCredentials), key("k"), TTL);
    assert_eq!(refused.unwrap_err(), LoginError::Auth(AuthError::InvalidCredentials));
    let opening = ticket_app::auth::begin_login(Ok(UserId(4)), key("k"), TTL).unwrap();
    assert_eq!(opening.user_id, UserId(4));
    assert_eq!(opening.key.as_str(), "k");
    assert_eq!(opening.ttl_seconds, TTL);
    let cookie = ticket_app::auth::finish_login(&opening, true).unwrap();
    assert_eq!(cookie.name, "x-session");
    assert_eq!(cookie.value, "k");
    assert_eq!(cookie.max_age_seconds, TTL);
    assert!(cookie.http_only);
    assert_eq!(
        ticket_app::auth::finish_login(&opening, false).unwrap_err(),
        LoginError::KeyCollision
    );
}
