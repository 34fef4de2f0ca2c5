//! Core logic of a Google OAuth 2.0 "authorization code" login service.
//!
//! The library holds everything that can be stated and proved over plain
//! values: configuration validation, URL and form construction for the
//! authorization redirect and the token exchange, validation of the token
//! response, extraction of the display name from the fetched profile, the
//! callback state machine, and the request-level user guard.  The HTTP
//! server, the outbound HTTP calls, the cookie encryption and the JSON
//! (de)serialization live in the unverified shell around it, which hands
//! this library plain values and carries its decisions out.

pub mod callback;
pub mod config;
pub mod encode;
pub mod login;
pub mod profile;
pub mod session;
pub mod token;

pub use session::User;
