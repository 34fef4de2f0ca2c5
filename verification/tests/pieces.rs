use oauth_core::config::{ConfigError, OAuthConfig};
use oauth_core::encode::{hex_string, percent_encode_str};
use oauth_core::session::{session_cookie_policy, state_cookie_policy};
use oauth_core::token::{check_token_response, token_request_form, TokenResponse};

#[test]
fn hex_is_two_uppercase_digits_per_byte() {
    assert_eq!(hex_string(&[]), "");
    assert_eq!(hex_string(&[0x00]), "00");
    assert_eq!(hex_string(&[0xAB, 0xFF, 0x10]), "ABFF10");
}

#[test]
fn percent_encoding_keeps_unreserved_bytes() {
    assert_eq!(
        percent_encode_str("AZaz09-._~"),
        "AZaz09-._~"
    );
}

#[test]
fn percent_encoding_escapes_the_rest() {
    assert_eq!(percent_encode_str("a b/c?"), "a%20b%2Fc%3F");
    assert_eq!(percent_encode_str(""), "");
    // One non-ASCII character is escaped byte by byte of its UTF-8 form.
    assert_eq!(percent_encode_str("é"), "%C3%A9");
}

#[test]
fn form_body_is_exact() {
    let cfg = OAuthConfig::new(
        "id".to_string(),
        "s&cret".to_string(),
        "https://auth.example".to_string(),
        "https://token.example".to_string(),
        "https://app.example/cb".to_string(),
        "https://front.example".to_string(),
    )
    .expect("well formed");
    assert_eq!(
        token_request_form(&cfg, "co=de"),
        "grant_type=authorization_code&code=co%3Dde\
         &redirect_uri=https%3A%2F%2Fapp.example%2Fcb\
         &client_id=id&client_secret=s%26cret"
    );
}

#[test]
fn token_type_check() {
    let token = |token_type: &str| TokenResponse {
        access_token: "t".to_string(),
        token_type: token_type.to_string(),
        expires_in: None,
        refresh_token: None,
        scope: None,
    };
    assert!(check_token_response(&token("Bearer")));
    assert!(check_token_response(&token("bearer")));
    assert!(check_token_response(&token("BEARER")));
    assert!(!check_token_response(&token("Basic")));
    assert!(!check_token_response(&token("")));
    assert!(!check_token_response(&token("Bearers")));
}

#[test]
fn config_reports_first_missing_value() {
    let build = |a: &str, b: &str, c: &str, d: &str, e: &str, f: &str| {
        OAuthConfig::new(
            a.to_string(),
            b.to_string(),
            c.to_string(),
            d.to_string(),
            e.to_string(),
            f.to_string(),
        )
    };
    assert!(build("i", "s", "a", "t", "r", "f").is_ok());
    assert_eq!(build("", "s", "a", "t", "r", "f").unwrap_err(), ConfigError::MissingClientId);
    assert_eq!(build("i", "", "a", "t", "r", "f").unwrap_err(), ConfigError::MissingClientSecret);
    assert_eq!(build("i", "s", "", "t", "r", "f").unwrap_err(), ConfigError::MissingAuthUrl);
    assert_eq!(build("i", "s", "a", "", "r", "f").unwrap_err(), ConfigError::MissingTokenUrl);
    assert_eq!(build("i", "s", "a", "t", "", "f").unwrap_err(), ConfigError::MissingRedirectUrl);
    assert_eq!(
        build("i", "s", "a", "t", "r", "").unwrap_err(),
        ConfigError::MissingFrontendOrigin
    );
    // The first missing value wins.
    assert_eq!(build("", "", "", "", "", "").unwrap_err(), ConfigError::MissingClientId);
}

#[test]
fn cookie_policies() {
    let session = session_cookie_policy();
    assert_eq!(session.name, "username");
    assert!(session.http_only);
    assert!(session.same_site_lax);
    assert_eq!(session.path, "/");
    assert!(session.max_age_seconds.is_none());

    let state = state_cookie_policy();
    assert_eq!(state.name, "oauth_state");
    assert!(state.http_only);
    assert!(state.same_site_lax);
    assert_eq!(state.path, "/");
    assert_eq!(state.max_age_seconds, Some(600));
}
