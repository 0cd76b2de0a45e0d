use vstd::prelude::*;
use crate::ctx::{uuid_text, UserId};
use crate::password::{credentials_outcome, validate_credentials, AuthError, Credentials, StoredCredentials};
use crate::resolver::{
    clears_cookie, ctx_from_lookup, session_key_from_cookie, CtxExtError, CtxResult, SessionLookup,
    AUTH_COOKIE,
};
use crate::session_key::{fits_in_cookie, SessionKey};
use crate::session_store::{
    expiry, get_and_refresh_effect, live_session, set_if_absent_effect, SessionEntry, SessionStore,
};

verus! {

/// Default lifetime of an idle session, in seconds. Every request that
/// presents the session starts the lifetime over.
pub const DEFAULT_SESSION_TTL_SECONDS: u64 = 1800;

/// The session cookie to put on a response: HTTP-only, living as long as
/// the session does.
#[derive(Clone, Debug)]
pub struct SessionCookie {
    pub name: String,
    pub value: String,
    pub max_age_seconds: u64,
    pub http_only: bool,
}

/// The cookie that hands `key` to the client.
pub fn session_cookie(key: &SessionKey, ttl: u64) -> (r: SessionCookie)
    ensures
        r.name@ == AUTH_COOKIE@,
        r.value@ == key@,
        r.max_age_seconds == ttl,
        r.http_only,
        fits_in_cookie(r.value@),
{
    SessionCookie {
        name: AUTH_COOKIE.to_owned(),
        value: key.as_str().to_owned(),
        max_age_seconds: ttl,
        http_only: true,
    }
}

/// Why a login did not open a session.
#[derive(Clone, Copy, Debug, PartialEq, Eq, Structural)]
pub enum LoginError {
    /// The credentials were refused.
    Auth(AuthError),
    /// A live session already holds the freshly drawn key.
    KeyCollision,
}

/// The text of a cookie value, if any.
pub open spec fn cookie_text(cookie: Option<&str>) -> Option<Seq<char>> {
    match cookie {
        Some(c) => Some(c@),
        None => None,
    }
}

/// What a successful credential check asks of the session store: hold
/// `key` for `user_id` during `ttl_seconds`, unless the key is taken.
#[derive(Clone, Debug)]
pub struct SessionOpening {
    pub key: SessionKey,
    pub user_id: UserId,
    pub ttl_seconds: u64,
}

/// The first step of a login, once the credentials have been checked:
/// either the session to open under the freshly generated `key`, or the
/// refusal.
pub fn begin_login(validation: Result<UserId, AuthError>, key: SessionKey, ttl: u64) -> (r: Result<
    SessionOpening,
    LoginError,
>)
    ensures
        validation matches Err(e) ==> r == Err::<SessionOpening, LoginError>(LoginError::Auth(e)),
        validation matches Ok(user_id) ==> (r matches Ok(opening) && opening.key@ == key@
            && opening.user_id == user_id && opening.ttl_seconds == ttl),
{
    match validation {
        Err(e) => Err(LoginError::Auth(e)),
        Ok(user_id) => Ok(SessionOpening { key, user_id, ttl_seconds: ttl }),
    }
}

/// The last step of a login, once the session store has said whether it
/// stored the session: the cookie to set, or the collision.
pub fn finish_login(opening: &SessionOpening, stored: bool) -> (r: Result<SessionCookie, LoginError>)
    ensures
        r is Ok <==> stored,
        !stored ==> r == Err::<SessionCookie, LoginError>(LoginError::KeyCollision),
        r matches Ok(cookie) ==> cookie.name@ == AUTH_COOKIE@ && cookie.value@ == opening.key@
            && fits_in_cookie(cookie.value@) && cookie.max_age_seconds == opening.ttl_seconds
            && cookie.http_only,
{
    if stored {
        Ok(session_cookie(&opening.key, opening.ttl_seconds))
    } else {
        Err(LoginError::KeyCollision)
    }
}

/// The user whose session a request presenting `cookie` at `now` resumes:
/// the cookie must hold a valid session key with a live session behind it.
pub open spec fn resolved_user(m: Map<Seq<char>, SessionEntry>, cookie: Option<Seq<char>>, now: u64) -> Option<
    UserId,
> {
    match cookie {
        Some(v) => if fits_in_cookie(v) {
            live_session(m, v, now)
        } else {
            None
        },
        None => None,
    }
}

/// Checks a login attempt and, on success, opens a session under `key`
/// (a freshly generated session key) for `ttl` seconds and returns the
/// cookie that carries it. Refused credentials leave the store untouched.
pub fn login(
    store: &mut SessionStore,
    credentials: &Credentials,
    stored: Option<StoredCredentials>,
    key: SessionKey,
    ttl: u64,
    now: u64,
) -> (r: Result<SessionCookie, LoginError>)
    requires
        old(store).well_formed(),
    ensures
        final(store).well_formed(),
        credentials_outcome(credentials.password@, stored) matches Err(e) ==> r == Err::<
            SessionCookie,
            LoginError,
        >(LoginError::Auth(e)) && final(store)@ == old(store)@,
        credentials_outcome(credentials.password@, stored) matches Ok(user_id) ==> {
            let (m, stored_it) = set_if_absent_effect(old(store)@, key@, user_id, ttl, now);
            &&& final(store)@ == m
            &&& r is Ok <==> stored_it
            &&& r is Err ==> r == Err::<SessionCookie, LoginError>(LoginError::KeyCollision)
        },
        r matches Ok(cookie) ==> cookie.name@ == AUTH_COOKIE@ && cookie.value@ == key@
            && fits_in_cookie(cookie.value@) && cookie.max_age_seconds == ttl && cookie.http_only,
{
    let validation = validate_credentials(credentials, stored);
    match begin_login(validation, key, ttl) {
        Err(e) => Err(e),
        Ok(opening) => {
            let stored_it = store.set_if_absent(&opening.key, opening.user_id, ttl, now);
            finish_login(&opening, stored_it)
        },
    }
}

/// Resolves the identity of a request that presents `cookie` (the session
/// cookie's value, if any) at `now`, renewing the session it resumes.
pub fn resolve_request(store: &mut SessionStore, cookie: Option<&str>, ttl: u64, now: u64) -> (r: CtxResult)
    requires
        old(store).well_formed(),
    ensures
        final(store).well_formed(),
        cookie is None ==> r == Err::<crate::ctx::Ctx, CtxExtError>(CtxExtError::TokenNotInCookie)
            && final(store)@ == old(store)@,
        cookie matches Some(v) ==> {
            if !fits_in_cookie(v@) {
                &&& r == Err::<crate::ctx::Ctx, CtxExtError>(CtxExtError::TokenMalformed)
                &&& final(store)@ == old(store)@
            } else {
                &&& final(store)@ == get_and_refresh_effect(old(store)@, v@, ttl, now).0
                &&& live_session(old(store)@, v@, now) is None ==> r == Err::<
                    crate::ctx::Ctx,
                    CtxExtError,
                >(CtxExtError::SessionNotFound)
                &&& live_session(old(store)@, v@, now) == Some(UserId(0)) ==> (r matches Err(
                    CtxExtError::CtxCreateFail(text),
                ) && text@ == uuid_text(0))
            }
        },
        r is Ok <==> (resolved_user(old(store)@, cookie_text(cookie), now) matches Some(u)
            && u.0 != 0),
        r matches Ok(ctx) ==> resolved_user(old(store)@, cookie_text(cookie), now) == Some(
            ctx@,
        ),
{
    match session_key_from_cookie(cookie) {
        Err(e) => Err(e),
        Ok(key) => {
            let lookup = match store.get_and_refresh(&key, ttl, now) {
                Some(user_id) => SessionLookup::Found(user_id),
                None => SessionLookup::Missing,
            };
            ctx_from_lookup(lookup)
        },
    }
}

/// Ends the session stored under `key`.
pub fn logout(store: &mut SessionStore, key: &SessionKey)
    requires
        old(store).well_formed(),
    ensures
        final(store).well_formed(),
        final(store)@ == old(store)@.remove(key@),
{
    store.delete(key);
}

/// A session opened at login is resumed, with the user that logged in, by
/// a request that presents its key before the session's lifetime is over.
pub proof fn lemma_login_then_resolve(
    m: Map<Seq<char>, SessionEntry>,
    key: Seq<char>,
    user_id: UserId,
    ttl: u64,
    t_login: u64,
    t_request: u64,
)
    requires
        fits_in_cookie(key),
        set_if_absent_effect(m, key, user_id, ttl, t_login).1,
        t_request < expiry(t_login, ttl),
    ensures
        resolved_user(set_if_absent_effect(m, key, user_id, ttl, t_login).0, Some(key), t_request)
            == Some(user_id),
{
}

/// A session that no request presents for its whole lifetime is gone: a
/// later request with its key finds no session.
pub proof fn lemma_idle_session_expires(
    m: Map<Seq<char>, SessionEntry>,
    key: Seq<char>,
    user_id: UserId,
    ttl: u64,
    t_login: u64,
    t_request: u64,
)
    requires
        set_if_absent_effect(m, key, user_id, ttl, t_login).1,
        expiry(t_login, ttl) <= t_request,
    ensures
        resolved_user(set_if_absent_effect(m, key, user_id, ttl, t_login).0, Some(key), t_request)
            is None,
        get_and_refresh_effect(set_if_absent_effect(m, key, user_id, ttl, t_login).0, key, ttl, t_request).1
            is None,
{
}

/// A request within a session's lifetime starts the lifetime over: the
/// session is still live at any time before `ttl` seconds after that
/// request, even past the deadline set at login.
pub proof fn lemma_activity_keeps_session_alive(
    m: Map<Seq<char>, SessionEntry>,
    key: Seq<char>,
    user_id: UserId,
    ttl: u64,
    t_login: u64,
    t_active: u64,
    t_later: u64,
)
    requires
        fits_in_cookie(key),
        set_if_absent_effect(m, key, user_id, ttl, t_login).1,
        t_active < expiry(t_login, ttl),
        t_later < expiry(t_active, ttl),
    ensures
        ({
            let opened = set_if_absent_effect(m, key, user_id, ttl, t_login).0;
            let (renewed, seen) = get_and_refresh_effect(opened, key, ttl, t_active);
            &&& seen == Some(user_id)
            &&& resolved_user(renewed, Some(key), t_later) == Some(user_id)
        }),
{
}

/// After logout, a request that still presents the session's key finds no
/// session, and its response clears the session cookie.
pub proof fn lemma_logout_ends_session(m: Map<Seq<char>, SessionEntry>, key: Seq<char>, now: u64)
    ensures
        live_session(m.remove(key), key, now) is None,
        resolved_user(m.remove(key), Some(key), now) is None,
        clears_cookie(Err::<crate::ctx::Ctx, CtxExtError>(CtxExtError::SessionNotFound)),
{
}

} // verus!
