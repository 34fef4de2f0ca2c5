//! `GET /login/google`: construction of the authorization redirect.
//!
//! The shell draws the random nonce bytes and performs the HTTP redirect;
//! this module turns the nonce into the URL-safe `state` value, and builds
//! the authorization URL the browser is sent to.  The same `state` value
//! goes into the short-lived `oauth_state` cookie, to be checked at the
//! callback.

use vstd::prelude::*;
use vstd::string::*;
use crate::config::{ConfigView, OAuthConfig};
use crate::encode::{ascii_chars_of, hex_bytes, hex_string, pct, percent_encode_str};

verus! {

/// The authorization URL: the configured endpoint with `response_type`,
/// `client_id`, `redirect_uri`, the single `profile` scope, and `state`.
pub open spec fn authorize_url_view(cfg: ConfigView, state: Seq<char>) -> Seq<char> {
    cfg.auth_url + "?response_type=code&client_id="@ + pct(cfg.client_id) + "&redirect_uri="@
        + pct(cfg.redirect_url) + "&scope=profile&state="@ + state
}

/// The answer to `GET /login/google`: a redirect to `location`, with
/// `state` to be stored in the `oauth_state` cookie.
pub struct LoginRedirect {
    pub status: u16,
    pub location: String,
    pub state: String,
}

/// Builds the authorization redirect from fresh nonce bytes (at least 128
/// bits of them).  The `state` value is the hexadecimal form of the nonce;
/// the location is the authorization URL carrying that same `state`.
pub fn google_login(cfg: &OAuthConfig, nonce: &[u8]) -> (r: LoginRedirect)
    requires
        nonce@.len() >= 16,
    ensures
        r.status == 302,
        r.state@ == ascii_chars_of(hex_bytes(nonce@)),
        r.state@.len() == 2 * nonce@.len(),
        r.location@ == authorize_url_view(cfg@, r.state@),
{
    let state = hex_string(nonce);
    proof {
        lemma_hex_bytes_len(nonce@);
    }
    let mut location = String::new();
    location.append(cfg.auth_url.as_str());
    location.append("?response_type=code&client_id=");
    let enc_id = percent_encode_str(cfg.client_id.as_str());
    location.append(enc_id.as_str());
    location.append("&redirect_uri=");
    let enc_redirect = percent_encode_str(cfg.redirect_url.as_str());
    location.append(enc_redirect.as_str());
    location.append("&scope=profile&state=");
    location.append(state.as_str());
    proof {
        assert(location@ =~= authorize_url_view(cfg@, state@));
    }
    LoginRedirect { status: 302, location, state }
}

/// Two hexadecimal digits stand for each byte.
pub proof fn lemma_hex_bytes_len(bs: Seq<u8>)
    ensures
        hex_bytes(bs).len() == 2 * bs.len(),
    decreases bs.len(),
{
    if bs.len() != 0 {
        lemma_hex_bytes_len(bs.drop_first());
    }
}

} // verus!
