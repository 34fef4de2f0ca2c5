//! The token exchange: the form body POSTed to the token endpoint, and the
//! acceptance rule for what comes back.
//!
//! The POST itself is outbound I/O and lives in the shell; it hands back
//! the parsed response fields, and this module decides whether they count
//! as a successful exchange.

use vstd::prelude::*;
use vstd::string::*;
use crate::config::{ConfigView, OAuthConfig};
use crate::encode::{pct, percent_encode_str};

verus! {

/// The fields of a token endpoint response.  Ephemeral: dropped once the
/// profile has been fetched.
pub struct TokenResponse {
    pub access_token: String,
    pub token_type: String,
    pub expires_in: Option<u64>,
    pub refresh_token: Option<String>,
    pub scope: Option<String>,
}

/// The mathematical image of a [`TokenResponse`].
pub struct TokenView {
    pub access_token: Seq<char>,
    pub token_type: Seq<char>,
    pub expires_in: Option<u64>,
    pub refresh_token: Option<Seq<char>>,
    pub scope: Option<Seq<char>>,
}

impl View for TokenResponse {
    type V = TokenView;

    open spec fn view(&self) -> TokenView {
        TokenView {
            access_token: self.access_token@,
            token_type: self.token_type@,
            expires_in: self.expires_in,
            refresh_token: match self.refresh_token {
                Some(s) => Some(s@),
                None => None,
            },
            scope: match self.scope {
                Some(s) => Some(s@),
                None => None,
            },
        }
    }
}

/// The string equals `Bearer` up to ASCII case.
pub open spec fn is_bearer(s: Seq<char>) -> bool {
    s.len() == 6 && (s[0] == 'B' || s[0] == 'b') && (s[1] == 'E' || s[1] == 'e') && (s[2] == 'A'
        || s[2] == 'a') && (s[3] == 'R' || s[3] == 'r') && (s[4] == 'E' || s[4] == 'e') && (s[5]
        == 'R' || s[5] == 'r')
}

/// A token response is accepted when its type is `Bearer`, compared
/// without regard to ASCII case.
pub open spec fn token_accepted(t: TokenView) -> bool {
    is_bearer(t.token_type)
}

/// Decides whether a token response counts as a successful exchange.
pub fn check_token_response(t: &TokenResponse) -> (r: bool)
    ensures
        r == token_accepted(t@),
{
    let s = t.token_type.as_str();
    if s.unicode_len() != 6 {
        return false;
    }
    let c0 = s.get_char(0);
    let c1 = s.get_char(1);
    let c2 = s.get_char(2);
    let c3 = s.get_char(3);
    let c4 = s.get_char(4);
    let c5 = s.get_char(5);
    (c0 == 'B' || c0 == 'b') && (c1 == 'E' || c1 == 'e') && (c2 == 'A' || c2 == 'a') && (c3 == 'R'
        || c3 == 'r') && (c4 == 'E' || c4 == 'e') && (c5 == 'R' || c5 == 'r')
}

/// The `application/x-www-form-urlencoded` body of the token exchange:
/// grant type, code, redirect URI and the client credentials, each value
/// percent-encoded.
pub open spec fn token_form_view(cfg: ConfigView, code: Seq<char>) -> Seq<char> {
    "grant_type=authorization_code&code="@ + pct(code) + "&redirect_uri="@ + pct(cfg.redirect_url)
        + "&client_id="@ + pct(cfg.client_id) + "&client_secret="@ + pct(cfg.client_secret)
}

/// Renders the form body POSTed to the token endpoint.
pub fn token_request_form(cfg: &OAuthConfig, code: &str) -> (r: String)
    ensures
        r@ == token_form_view(cfg@, code@),
{
    let mut body = String::new();
    body.append("grant_type=authorization_code&code=");
    let enc_code = percent_encode_str(code);
    body.append(enc_code.as_str());
    body.append("&redirect_uri=");
    let enc_redirect = percent_encode_str(cfg.redirect_url.as_str());
    body.append(enc_redirect.as_str());
    body.append("&client_id=");
    let enc_id = percent_encode_str(cfg.client_id.as_str());
    body.append(enc_id.as_str());
    body.append("&client_secret=");
    let enc_secret = percent_encode_str(cfg.client_secret.as_str());
    body.append(enc_secret.as_str());
    proof {
        assert(body@ =~= token_form_view(cfg@, code@));
    }
    body
}

} // verus!
