//! The request-level user guard and the session cookie rules.
//!
//! The session is a single encrypted and authenticated cookie named
//! `username`; encryption, MAC checking and the cookie jar itself belong to
//! the HTTP layer.  That layer hands the guard the decrypted cookie value,
//! or `None` when the cookie is absent or fails verification, and the guard
//! decides between an authenticated and an anonymous request.  The guard is
//! a pure function: it performs no network or disk access.

use vstd::prelude::*;
use vstd::string::*;

verus! {

/// The identity resolved for one request, never stored.
pub enum User {
    Authenticated { username: String },
    Anonymous,
}

/// Resolves the current user from the decrypted session cookie value.
///
/// The result is `Authenticated` exactly when the session store yielded a
/// value; a missing or tampered cookie (handed in as `None`) is anonymous.
pub fn user_from_session(session: Option<String>) -> (u: User)
    ensures
        session matches Some(name) ==> u == (User::Authenticated { username: name }),
        session is None ==> u == User::Anonymous,
{
    match session {
        Some(name) => User::Authenticated { username: name },
        None => User::Anonymous,
    }
}

/// Body of `GET /` for an authenticated request.
pub fn index(user: &User) -> (r: String)
    requires
        user is Authenticated,
    ensures
        user matches User::Authenticated { username } ==> r@ == "Hi, "@ + username@ + "!"@,
{
    match user {
        User::Authenticated { username } => {
            let mut body = String::new();
            body.append("Hi, ");
            body.append(username.as_str());
            body.append("!");
            body
        },
        User::Anonymous => String::new(),
    }
}

/// Body of `GET /` for an anonymous request (the rank-ordered fallback).
pub fn index_anonymous() -> (r: &'static str)
    ensures
        r@ == "Please login (/login/google)"@,
{
    "Please login (/login/google)"
}

/// What `GET /logout` answers: clear the session cookie and send the
/// browser back to the frontend origin.
pub struct LogoutResponse {
    pub clear_username_cookie: bool,
    pub location: String,
}

/// Decides the logout response.  The `username` cookie is cleared
/// unconditionally, whether or not one was present.
pub fn logout(frontend_origin: &str) -> (r: LogoutResponse)
    ensures
        r.clear_username_cookie,
        r.location@ == frontend_origin@,
{
    LogoutResponse { clear_username_cookie: true, location: frontend_origin.to_owned() }
}

/// Attributes a cookie is written with.  `max_age_seconds` of `None` means
/// session lifetime.
pub struct CookiePolicy {
    pub name: &'static str,
    pub http_only: bool,
    pub same_site_lax: bool,
    pub path: &'static str,
    pub max_age_seconds: Option<u64>,
}

/// Attributes of the `username` session cookie: `HttpOnly`, `SameSite=Lax`,
/// `Path=/`, no explicit expiry.
pub fn session_cookie_policy() -> (p: CookiePolicy)
    ensures
        p.name@ == "username"@,
        p.http_only,
        p.same_site_lax,
        p.path@ == "/"@,
        p.max_age_seconds is None,
{
    CookiePolicy {
        name: "username",
        http_only: true,
        same_site_lax: true,
        path: "/",
        max_age_seconds: None,
    }
}

/// Attributes of the short-lived `oauth_state` cookie: as the session
/// cookie, but it expires after ten minutes.
pub fn state_cookie_policy() -> (p: CookiePolicy)
    ensures
        p.name@ == "oauth_state"@,
        p.http_only,
        p.same_site_lax,
        p.path@ == "/"@,
        p.max_age_seconds == Some(600u64),
{
    CookiePolicy {
        name: "oauth_state",
        http_only: true,
        same_site_lax: true,
        path: "/",
        max_age_seconds: Some(600),
    }
}

} // verus!
