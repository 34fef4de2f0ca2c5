//! The configuration provider: the five OAuth parameters plus the frontend
//! origin the logout redirect points at.
//!
//! The values are read from the environment by the shell around the
//! library; this module decides whether a set of values is acceptable and,
//! if so, freezes it.  A value that is absent arrives as the empty string.

use vstd::prelude::*;

verus! {

/// Immutable OAuth provider settings, established once at startup.
#[derive(Debug)]
pub struct OAuthConfig {
    pub client_id: String,
    pub client_secret: String,
    pub auth_url: String,
    pub token_url: String,
    pub redirect_url: String,
    pub frontend_origin: String,
}

/// The mathematical image of an [`OAuthConfig`]: each field as its
/// character sequence.
pub struct ConfigView {
    pub client_id: Seq<char>,
    pub client_secret: Seq<char>,
    pub auth_url: Seq<char>,
    pub token_url: Seq<char>,
    pub redirect_url: Seq<char>,
    pub frontend_origin: Seq<char>,
}

impl View for OAuthConfig {
    type V = ConfigView;

    open spec fn view(&self) -> ConfigView {
        ConfigView {
            client_id: self.client_id@,
            client_secret: self.client_secret@,
            auth_url: self.auth_url@,
            token_url: self.token_url@,
            redirect_url: self.redirect_url@,
            frontend_origin: self.frontend_origin@,
        }
    }
}

impl ConfigView {
    /// A configuration is well formed when every required value is present.
    pub open spec fn wf(self) -> bool {
        self.client_id.len() > 0 && self.client_secret.len() > 0 && self.auth_url.len() > 0
            && self.token_url.len() > 0 && self.redirect_url.len() > 0
            && self.frontend_origin.len() > 0
    }
}

/// Why startup must fail: the first required value that is missing.
#[derive(PartialEq, Eq, Structural, Clone, Copy, Debug)]
pub enum ConfigError {
    MissingClientId,
    MissingClientSecret,
    MissingAuthUrl,
    MissingTokenUrl,
    MissingRedirectUrl,
    MissingFrontendOrigin,
}

/// The first missing value of a candidate configuration, in field order,
/// or `None` when the configuration is well formed.
pub open spec fn missing_value(v: ConfigView) -> Option<ConfigError> {
    if v.client_id.len() == 0 {
        Some(ConfigError::MissingClientId)
    } else if v.client_secret.len() == 0 {
        Some(ConfigError::MissingClientSecret)
    } else if v.auth_url.len() == 0 {
        Some(ConfigError::MissingAuthUrl)
    } else if v.token_url.len() == 0 {
        Some(ConfigError::MissingTokenUrl)
    } else if v.redirect_url.len() == 0 {
        Some(ConfigError::MissingRedirectUrl)
    } else if v.frontend_origin.len() == 0 {
        Some(ConfigError::MissingFrontendOrigin)
    } else {
        None
    }
}

impl OAuthConfig {
    /// Accepts the startup values, or says which required value is missing.
    /// Success comes exactly on well-formed input, and the accepted
    /// configuration carries the input values unchanged.
    pub fn new(
        client_id: String,
        client_secret: String,
        auth_url: String,
        token_url: String,
        redirect_url: String,
        frontend_origin: String,
    ) -> (r: Result<OAuthConfig, ConfigError>)
        ensures
            ({
                let v = ConfigView {
                    client_id: client_id@,
                    client_secret: client_secret@,
                    auth_url: auth_url@,
                    token_url: token_url@,
                    redirect_url: redirect_url@,
                    frontend_origin: frontend_origin@,
                };
                match r {
                    Ok(c) => missing_value(v) is None && c@ == v && v.wf(),
                    Err(e) => missing_value(v) == Some(e),
                }
            }),
    {
        if client_id.as_str().is_empty() {
            Err(ConfigError::MissingClientId)
        } else if client_secret.as_str().is_empty() {
            Err(ConfigError::MissingClientSecret)
        } else if auth_url.as_str().is_empty() {
            Err(ConfigError::MissingAuthUrl)
        } else if token_url.as_str().is_empty() {
            Err(ConfigError::MissingTokenUrl)
        } else if redirect_url.as_str().is_empty() {
            Err(ConfigError::MissingRedirectUrl)
        } else if frontend_origin.as_str().is_empty() {
            Err(ConfigError::MissingFrontendOrigin)
        } else {
            Ok(
                OAuthConfig {
                    client_id,
                    client_secret,
                    auth_url,
                    token_url,
                    redirect_url,
                    frontend_origin,
                },
            )
        }
    }
}

} // verus!
