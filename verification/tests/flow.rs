use oauth_core::callback::{CallbackAction, CallbackEvent, CallbackState, google_callback_step};
use oauth_core::config::OAuthConfig;
use oauth_core::login::google_login;
use oauth_core::profile::{GoogleProfile, NameRecord};
use oauth_core::session::{index, index_anonymous, logout, user_from_session, User};
use oauth_core::token::TokenResponse;

fn test_config() -> OAuthConfig {
    OAuthConfig::new(
        "id-123".to_string(),
        "sekrit".to_string(),
        "https://accounts.google.com/o/oauth2/v2/auth".to_string(),
        "https://oauth2.googleapis.com/token".to_string(),
        "http://127.0.0.1:9797/auth/google".to_string(),
        "http://127.0.0.1:8080".to_string(),
    )
    .expect("test configuration is well formed")
}

fn bearer_token(access_token: &str, token_type: &str) -> TokenResponse {
    TokenResponse {
        access_token: access_token.to_string(),
        token_type: token_type.to_string(),
        expires_in: Some(3599),
        refresh_token: None,
        scope: None,
    }
}

fn profile_with(names: Vec<Option<&str>>) -> GoogleProfile {
    GoogleProfile {
        names: names
            .into_iter()
            .map(|n| NameRecord { display_name: n.map(|s| s.to_string()) })
            .collect(),
    }
}

fn query_event(code: Option<&str>, state: Option<&str>, error: Option<&str>, cookie: Option<&str>) -> CallbackEvent {
    CallbackEvent::Query {
        code: code.map(|s| s.to_string()),
        state: state.map(|s| s.to_string()),
        error: error.map(|s| s.to_string()),
        state_cookie: cookie.map(|s| s.to_string()),
    }
}

#[test]
fn login_redirect() {
    let cfg = test_config();
    let nonce: Vec<u8> = (0u8..16u8).collect();
    let r = google_login(&cfg, &nonce);
    assert_eq!(r.status, 302);
    assert_eq!(r.state, "000102030405060708090A0B0C0D0E0F");
    assert!(r.location.starts_with("https://accounts.google.com/o/oauth2/v2/auth?"));
    assert!(r.location.contains("response_type=code"));
    assert!(r.location.contains("client_id=id-123"));
    assert!(r.location.contains("redirect_uri=http%3A%2F%2F127.0.0.1%3A9797%2Fauth%2Fgoogle"));
    assert!(r.location.contains("scope=profile"));
    assert!(r.location.contains("state=000102030405060708090A0B0C0D0E0F"));
}

#[test]
fn happy_callback() {
    let cfg = test_config();
    let (s1, a1) = google_callback_step(
        &cfg,
        CallbackState::Received,
        query_event(Some("c"), Some("S"), None, Some("S")),
    );
    assert!(matches!(s1, CallbackState::Exchanging { ref code } if code.as_str() == "c"));
    let form = match a1 {
        CallbackAction::ExchangeCode { form_body } => form_body,
        other => panic!("expected an exchange action, got {:?}", action_kind(&other)),
    };
    assert_eq!(
        form,
        "grant_type=authorization_code&code=c\
         &redirect_uri=http%3A%2F%2F127.0.0.1%3A9797%2Fauth%2Fgoogle\
         &client_id=id-123&client_secret=sekrit"
    );

    let (s2, a2) = google_callback_step(
        &cfg,
        s1,
        CallbackEvent::TokenOk { token: bearer_token("tok", "Bearer") },
    );
    assert!(matches!(s2, CallbackState::Profiling { ref access_token } if access_token.as_str() == "tok"));
    match a2 {
        CallbackAction::FetchProfile { access_token } => assert_eq!(access_token, "tok"),
        other => panic!("expected a profile fetch, got {:?}", action_kind(&other)),
    }

    let (s3, a3) = google_callback_step(
        &cfg,
        s2,
        CallbackEvent::ProfileOk { profile: profile_with(vec![Some("Ada")]) },
    );
    assert!(matches!(s3, CallbackState::Completed { ref username } if username.as_str() == "Ada"));
    let response = match a3 {
        CallbackAction::Respond { response } => response,
        other => panic!("expected a response, got {:?}", action_kind(&other)),
    };
    assert_eq!(response.status, 302);
    assert_eq!(response.set_username_cookie.as_deref(), Some("Ada"));
    assert!(response.clear_oauth_state);
    assert_eq!(response.location.as_deref(), Some("/"));

    let user = user_from_session(response.set_username_cookie);
    assert_eq!(index(&user), "Hi, Ada!");
}

fn action_kind(a: &CallbackAction) -> &'static str {
    match a {
        CallbackAction::ExchangeCode { .. } => "ExchangeCode",
        CallbackAction::FetchProfile { .. } => "FetchProfile",
        CallbackAction::Respond { .. } => "Respond",
    }
}

#[test]
fn missing_display_name() {
    let cfg = test_config();
    let (s, a) = google_callback_step(
        &cfg,
        CallbackState::Profiling { access_token: "tok".to_string() },
        CallbackEvent::ProfileOk { profile: profile_with(vec![]) },
    );
    assert!(matches!(s, CallbackState::Completed { ref username } if username.is_empty()));
    match a {
        CallbackAction::Respond { response } => {
            assert_eq!(response.status, 302);
            assert_eq!(response.set_username_cookie.as_deref(), Some(""));
            let user = user_from_session(response.set_username_cookie);
            assert_eq!(index(&user), "Hi, !");
        }
        other => panic!("expected a response, got {:?}", action_kind(&other)),
    }
}

#[test]
fn first_record_without_display_name() {
    let cfg = test_config();
    let (_, a) = google_callback_step(
        &cfg,
        CallbackState::Profiling { access_token: "tok".to_string() },
        CallbackEvent::ProfileOk { profile: profile_with(vec![None, Some("Ada")]) },
    );
    match a {
        CallbackAction::Respond { response } => {
            assert_eq!(response.set_username_cookie.as_deref(), Some(""));
        }
        other => panic!("expected a response, got {:?}", action_kind(&other)),
    }
}

#[test]
fn state_mismatch_rejected() {
    let cfg = test_config();
    let (s, a) = google_callback_step(
        &cfg,
        CallbackState::Received,
        query_event(Some("c"), Some("WRONG"), None, Some("RIGHT")),
    );
    assert!(matches!(s, CallbackState::Failed { .. }));
    match a {
        CallbackAction::Respond { response } => {
            assert_eq!(response.status, 400);
            assert!(response.set_username_cookie.is_none());
            assert!(!response.clear_oauth_state);
        }
        other => panic!("expected a response, got {:?}", action_kind(&other)),
    }
}

#[test]
fn state_missing_rejected() {
    let cfg = test_config();
    let (_, a) = google_callback_step(
        &cfg,
        CallbackState::Received,
        query_event(Some("c"), None, None, Some("RIGHT")),
    );
    match a {
        CallbackAction::Respond { response } => assert_eq!(response.status, 400),
        other => panic!("expected a response, got {:?}", action_kind(&other)),
    }
}

#[test]
fn state_cookie_absent_rejected() {
    let cfg = test_config();
    let (_, a) = google_callback_step(
        &cfg,
        CallbackState::Received,
        query_event(Some("c"), Some("S"), None, None),
    );
    match a {
        CallbackAction::Respond { response } => assert_eq!(response.status, 400),
        other => panic!("expected a response, got {:?}", action_kind(&other)),
    }
}

#[test]
fn provider_error_rejected() {
    let cfg = test_config();
    let (s, a) = google_callback_step(
        &cfg,
        CallbackState::Received,
        query_event(Some("c"), Some("S"), Some("access_denied"), Some("S")),
    );
    assert!(matches!(s, CallbackState::Failed { .. }));
    match a {
        CallbackAction::Respond { response } => {
            assert_eq!(response.status, 400);
            assert!(response.set_username_cookie.is_none());
        }
        other => panic!("expected a response, got {:?}", action_kind(&other)),
    }
}

#[test]
fn token_endpoint_error_gives_502() {
    let cfg = test_config();
    let (_, a) = google_callback_step(
        &cfg,
        CallbackState::Exchanging { code: "c".to_string() },
        CallbackEvent::TokenHttpError { status: 500 },
    );
    match a {
        CallbackAction::Respond { response } => {
            assert_eq!(response.status, 502);
            assert!(response.set_username_cookie.is_none());
            assert!(!response.clear_oauth_state);
        }
        other => panic!("expected a response, got {:?}", action_kind(&other)),
    }
}

#[test]
fn non_bearer_token_gives_502() {
    let cfg = test_config();
    let (_, a) = google_callback_step(
        &cfg,
        CallbackState::Exchanging { code: "c".to_string() },
        CallbackEvent::TokenOk { token: bearer_token("tok", "Basic") },
    );
    match a {
        CallbackAction::Respond { response } => assert_eq!(response.status, 502),
        other => panic!("expected a response, got {:?}", action_kind(&other)),
    }
}

#[test]
fn bearer_case_insensitive() {
    let cfg = test_config();
    for token_type in ["Bearer", "bearer", "BEARER", "bEaReR"] {
        let (s, _) = google_callback_step(
            &cfg,
            CallbackState::Exchanging { code: "c".to_string() },
            CallbackEvent::TokenOk { token: bearer_token("tok", token_type) },
        );
        assert!(matches!(s, CallbackState::Profiling { .. }), "{token_type} must pass");
    }
    let (s, _) = google_callback_step(
        &cfg,
        CallbackState::Exchanging { code: "c".to_string() },
        CallbackEvent::TokenOk { token: bearer_token("tok", "Bearer7") },
    );
    assert!(matches!(s, CallbackState::Failed { .. }));
}

#[test]
fn token_timeout_gives_504() {
    let cfg = test_config();
    let (_, a) = google_callback_step(
        &cfg,
        CallbackState::Exchanging { code: "c".to_string() },
        CallbackEvent::TokenTimeout,
    );
    match a {
        CallbackAction::Respond { response } => assert_eq!(response.status, 504),
        other => panic!("expected a response, got {:?}", action_kind(&other)),
    }
}

#[test]
fn token_malformed_gives_502() {
    let cfg = test_config();
    let (_, a) = google_callback_step(
        &cfg,
        CallbackState::Exchanging { code: "c".to_string() },
        CallbackEvent::TokenMalformed,
    );
    match a {
        CallbackAction::Respond { response } => assert_eq!(response.status, 502),
        other => panic!("expected a response, got {:?}", action_kind(&other)),
    }
}

#[test]
fn profile_fetch_error_gives_502() {
    let cfg = test_config();
    let (_, a) = google_callback_step(
        &cfg,
        CallbackState::Profiling { access_token: "tok".to_string() },
        CallbackEvent::ProfileHttpError { status: 403 },
    );
    match a {
        CallbackAction::Respond { response } => {
            assert_eq!(response.status, 502);
            assert!(response.set_username_cookie.is_none());
        }
        other => panic!("expected a response, got {:?}", action_kind(&other)),
    }
}

#[test]
fn profile_timeout_gives_504() {
    let cfg = test_config();
    let (_, a) = google_callback_step(
        &cfg,
        CallbackState::Profiling { access_token: "tok".to_string() },
        CallbackEvent::ProfileTimeout,
    );
    match a {
        CallbackAction::Respond { response } => assert_eq!(response.status, 504),
        other => panic!("expected a response, got {:?}", action_kind(&other)),
    }
}

#[test]
fn logout_clears_cookie() {
    let r = logout("http://127.0.0.1:8080");
    assert!(r.clear_username_cookie);
    assert_eq!(r.location, "http://127.0.0.1:8080");
    assert_eq!(index_anonymous(), "Please login (/login/google)");
}

#[test]
fn guard_maps_session_to_user() {
    match user_from_session(Some("Ada".to_string())) {
        User::Authenticated { username } => assert_eq!(username, "Ada"),
        User::Anonymous => panic!("a present session must authenticate"),
    }
    assert!(matches!(user_from_session(None), User::Anonymous));
}
