use vstd::prelude::*;
use crate::ctx::{uuid_text, Ctx, UserId};
use crate::session_key::{fits_in_cookie, SessionKey};

verus! {

/// Name of the cookie that carries the session key.
pub const AUTH_COOKIE: &'static str = "x-session";

/// Why a request carries no usable identity.
#[derive(Debug, PartialEq, Eq)]
pub enum CtxExtError {
    /// The request has no session cookie.
    TokenNotInCookie,
    /// The session cookie does not hold a valid session key.
    TokenMalformed,
    /// The session store knows no live session under that key.
    SessionNotFound,
    /// The session store could not be reached.
    SessionAccessError,
    /// The session cookie could not be set on the response.
    CannotSetTokenCookie,
    /// No resolution outcome was attached to the request.
    CtxNotInRequestExt,
    /// The store named a user from which no identity can be built; holds the
    /// identifier's text.
    CtxCreateFail(String),
}

impl Clone for CtxExtError {
    fn clone(&self) -> (r: Self)
        ensures
            r == *self,
    {
        match self {
            CtxExtError::TokenNotInCookie => CtxExtError::TokenNotInCookie,
            CtxExtError::TokenMalformed => CtxExtError::TokenMalformed,
            CtxExtError::SessionNotFound => CtxExtError::SessionNotFound,
            CtxExtError::SessionAccessError => CtxExtError::SessionAccessError,
            CtxExtError::CannotSetTokenCookie => CtxExtError::CannotSetTokenCookie,
            CtxExtError::CtxNotInRequestExt => CtxExtError::CtxNotInRequestExt,
            CtxExtError::CtxCreateFail(text) => CtxExtError::CtxCreateFail(text.clone()),
        }
    }
}

/// The identity of a request, or why it has none.
pub type CtxResult = Result<Ctx, CtxExtError>;

/// What the session store answered for a session key.
#[derive(Clone, Copy, Debug, PartialEq, Eq, Structural)]
pub enum SessionLookup {
    /// A live session of this user; its lifetime has been renewed.
    Found(UserId),
    /// No live session under the key.
    Missing,
    /// The store could not be reached.
    Unavailable,
}

/// Reads the session key out of the session cookie's value, if any.
pub fn session_key_from_cookie(cookie: Option<&str>) -> (r: Result<SessionKey, CtxExtError>)
    ensures
        cookie is None ==> r == Err::<SessionKey, CtxExtError>(CtxExtError::TokenNotInCookie),
        cookie matches Some(v) ==> (r is Ok <==> fits_in_cookie(v@)),
        cookie matches Some(v) && !fits_in_cookie(v@) ==> r == Err::<SessionKey, CtxExtError>(
            CtxExtError::TokenMalformed,
        ),
        r matches Ok(key) ==> (cookie matches Some(v) && key@ == v@),
{
    match cookie {
        None => Err(CtxExtError::TokenNotInCookie),
        Some(value) => match SessionKey::parse(value) {
            Ok(key) => Ok(key),
            Err(_) => Err(CtxExtError::TokenMalformed),
        },
    }
}

/// Builds the identity of a request from the session store's answer.
pub fn ctx_from_lookup(lookup: SessionLookup) -> (r: CtxResult)
    ensures
        lookup matches SessionLookup::Found(id) ==> if id.0 != 0 {
            (r matches Ok(ctx) && ctx@ == id)
        } else {
            (r matches Err(CtxExtError::CtxCreateFail(text)) && text@ == uuid_text(id.0))
        },
        lookup is Missing ==> r == Err::<Ctx, CtxExtError>(CtxExtError::SessionNotFound),
        lookup is Unavailable ==> r == Err::<Ctx, CtxExtError>(CtxExtError::SessionAccessError),
{
    match lookup {
        SessionLookup::Found(user_id) => match Ctx::new(user_id) {
            Ok(ctx) => Ok(ctx),
            Err(_) => Err(CtxExtError::CtxCreateFail(user_id.to_text())),
        },
        SessionLookup::Missing => Err(CtxExtError::SessionNotFound),
        SessionLookup::Unavailable => Err(CtxExtError::SessionAccessError),
    }
}

/// A failed resolution clears the session cookie, unless the failure is
/// that there was no cookie at all.
pub open spec fn clears_cookie(result: CtxResult) -> bool {
    result matches Err(e) && !(e is TokenNotInCookie)
}

/// Whether the response to a request resolved to `result` must clear the
/// session cookie.
pub fn should_clear_cookie(result: &CtxResult) -> (r: bool)
    ensures
        r == clears_cookie(*result),
{
    match result {
        Ok(_) => false,
        Err(CtxExtError::TokenNotInCookie) => false,
        Err(_) => true,
    }
}

/// The guard of protected routes: a request goes on only with an identity.
pub fn require_ctx(result: &CtxResult) -> (r: Result<(), CtxExtError>)
    ensures
        r is Ok <==> result is Ok,
        *result matches Err(e) ==> r == Err::<(), CtxExtError>(e),
{
    match result {
        Ok(_) => Ok(()),
        Err(e) => Err(e.clone()),
    }
}

} // verus!
