//! `GET /auth/google`: the callback state machine.
//!
//! A single callback runs `Received -> Exchanging -> Profiling ->
//! Completed`, falling to `Failed` on a provider error, a missing or
//! mismatched `state`, a failed token exchange, a failed profile fetch, or
//! a timeout.  The two outbound calls are I/O and belong to the shell: it
//! performs the action each step hands back (POST the form to the token
//! endpoint; GET the profile with the bearer token) and feeds the outcome
//! in as the next event.  Every decision — what counts as success, which
//! status answers which failure, and when the session cookie may be
//! written — is taken here.

use vstd::prelude::*;
use crate::config::{ConfigView, OAuthConfig};
use crate::profile::{display_name_view, GoogleProfile, ProfileView};
use crate::token::{
    check_token_response,
    token_accepted,
    token_form_view,
    token_request_form,
    TokenResponse,
    TokenView,
};

verus! {

/// Why a callback failed, one variant per failure kind of the flow.
pub enum CallbackError {
    /// Google answered the redirect with `error=...`.
    ProviderError { message: String },
    /// `state` was absent, the `oauth_state` cookie was absent, or the two
    /// differed; or the callback lacked its required `code`.
    InvalidState,
    TokenExchangeFailed,
    ProfileFetchFailed,
    UpstreamTimeout,
}

/// The mathematical image of a [`CallbackError`].
pub enum ErrorView {
    ProviderError { message: Seq<char> },
    InvalidState,
    TokenExchangeFailed,
    ProfileFetchFailed,
    UpstreamTimeout,
}

impl View for CallbackError {
    type V = ErrorView;

    open spec fn view(&self) -> ErrorView {
        match self {
            CallbackError::ProviderError { message } => ErrorView::ProviderError {
                message: message@,
            },
            CallbackError::InvalidState => ErrorView::InvalidState,
            CallbackError::TokenExchangeFailed => ErrorView::TokenExchangeFailed,
            CallbackError::ProfileFetchFailed => ErrorView::ProfileFetchFailed,
            CallbackError::UpstreamTimeout => ErrorView::UpstreamTimeout,
        }
    }
}

/// Where a single callback stands.
pub enum CallbackState {
    Received,
    Exchanging { code: String },
    Profiling { access_token: String },
    Completed { username: String },
    Failed { error: CallbackError },
}

/// The mathematical image of a [`CallbackState`].
pub enum StateView {
    Received,
    Exchanging { code: Seq<char> },
    Profiling { access_token: Seq<char> },
    Completed { username: Seq<char> },
    Failed { error: ErrorView },
}

impl View for CallbackState {
    type V = StateView;

    open spec fn view(&self) -> StateView {
        match self {
            CallbackState::Received => StateView::Received,
            CallbackState::Exchanging { code } => StateView::Exchanging { code: code@ },
            CallbackState::Profiling { access_token } => StateView::Profiling {
                access_token: access_token@,
            },
            CallbackState::Completed { username } => StateView::Completed { username: username@ },
            CallbackState::Failed { error } => StateView::Failed { error: error@ },
        }
    }
}

/// What the shell reports to the state machine.
pub enum CallbackEvent {
    /// The callback request itself: its query values and the value of the
    /// `oauth_state` cookie, each `None` when absent.
    Query {
        code: Option<String>,
        state: Option<String>,
        error: Option<String>,
        state_cookie: Option<String>,
    },
    /// The token endpoint answered 2xx with a parsable body.
    TokenOk { token: TokenResponse },
    /// The token endpoint answered with a non-2xx status.
    TokenHttpError { status: u16 },
    /// The token endpoint's body could not be parsed.
    TokenMalformed,
    /// The token exchange exceeded its time budget.
    TokenTimeout,
    /// The profile endpoint answered 2xx with a parsable body.
    ProfileOk { profile: GoogleProfile },
    /// The profile endpoint answered with a non-2xx status.
    ProfileHttpError { status: u16 },
    /// The profile body could not be parsed.
    ProfileMalformed,
    /// The profile fetch exceeded its time budget.
    ProfileTimeout,
}

/// The mathematical image of a [`CallbackEvent`].
pub enum EventView {
    Query {
        code: Option<Seq<char>>,
        state: Option<Seq<char>>,
        error: Option<Seq<char>>,
        state_cookie: Option<Seq<char>>,
    },
    TokenOk { token: TokenView },
    TokenHttpError { status: u16 },
    TokenMalformed,
    TokenTimeout,
    ProfileOk { profile: ProfileView },
    ProfileHttpError { status: u16 },
    ProfileMalformed,
    ProfileTimeout,
}

pub open spec fn view_of_opt_string(o: Option<String>) -> Option<Seq<char>> {
    match o {
        Some(s) => Some(s@),
        None => None,
    }
}

impl View for CallbackEvent {
    type V = EventView;

    open spec fn view(&self) -> EventView {
        match self {
            CallbackEvent::Query { code, state, error, state_cookie } => EventView::Query {
                code: view_of_opt_string(*code),
                state: view_of_opt_string(*state),
                error: view_of_opt_string(*error),
                state_cookie: view_of_opt_string(*state_cookie),
            },
            CallbackEvent::TokenOk { token } => EventView::TokenOk { token: token@ },
            CallbackEvent::TokenHttpError { status } => EventView::TokenHttpError {
                status: *status,
            },
            CallbackEvent::TokenMalformed => EventView::TokenMalformed,
            CallbackEvent::TokenTimeout => EventView::TokenTimeout,
            CallbackEvent::ProfileOk { profile } => EventView::ProfileOk { profile: profile@ },
            CallbackEvent::ProfileHttpError { status } => EventView::ProfileHttpError {
                status: *status,
            },
            CallbackEvent::ProfileMalformed => EventView::ProfileMalformed,
            CallbackEvent::ProfileTimeout => EventView::ProfileTimeout,
        }
    }
}

/// The HTTP answer a finished callback sends.
pub struct CallbackResponse {
    pub status: u16,
    /// `Some(name)`: write the session cookie with this name.
    pub set_username_cookie: Option<String>,
    /// Whether to expire the `oauth_state` cookie.
    pub clear_oauth_state: bool,
    /// The `Location` of a redirect answer.
    pub location: Option<String>,
}

/// The mathematical image of a [`CallbackResponse`].
pub struct ResponseView {
    pub status: u16,
    pub set_username_cookie: Option<Seq<char>>,
    pub clear_oauth_state: bool,
    pub location: Option<Seq<char>>,
}

impl View for CallbackResponse {
    type V = ResponseView;

    open spec fn view(&self) -> ResponseView {
        ResponseView {
            status: self.status,
            set_username_cookie: view_of_opt_string(self.set_username_cookie),
            clear_oauth_state: self.clear_oauth_state,
            location: view_of_opt_string(self.location),
        }
    }
}

/// What the shell must do after a step.
pub enum CallbackAction {
    /// POST this `application/x-www-form-urlencoded` body to the token
    /// endpoint.
    ExchangeCode { form_body: String },
    /// GET the profile endpoint with this bearer token.
    FetchProfile { access_token: String },
    /// Answer the browser.
    Respond { response: CallbackResponse },
}

/// The mathematical image of a [`CallbackAction`].
pub enum ActionView {
    ExchangeCode { form_body: Seq<char> },
    FetchProfile { access_token: Seq<char> },
    Respond { response: ResponseView },
}

impl View for CallbackAction {
    type V = ActionView;

    open spec fn view(&self) -> ActionView {
        match self {
            CallbackAction::ExchangeCode { form_body } => ActionView::ExchangeCode {
                form_body: form_body@,
            },
            CallbackAction::FetchProfile { access_token } => ActionView::FetchProfile {
                access_token: access_token@,
            },
            CallbackAction::Respond { response } => ActionView::Respond { response: response@ },
        }
    }
}

/// The failure answer: no session cookie, `oauth_state` untouched.
pub open spec fn failed(error: ErrorView, status: u16) -> (StateView, ActionView) {
    (
        StateView::Failed { error },
        ActionView::Respond {
            response: ResponseView {
                status,
                set_username_cookie: None,
                clear_oauth_state: false,
                location: None,
            },
        },
    )
}

/// The callback's `state` agrees with the `oauth_state` cookie: both are
/// present and equal.
pub open spec fn state_matches(state: Option<Seq<char>>, cookie: Option<Seq<char>>) -> bool {
    state is Some && cookie is Some && state->0 == cookie->0
}

/// Which events may arrive in which state.
pub open spec fn compatible(s: StateView, e: EventView) -> bool {
    match (s, e) {
        (StateView::Received, EventView::Query { .. }) => true,
        (StateView::Exchanging { .. }, EventView::TokenOk { .. }) => true,
        (StateView::Exchanging { .. }, EventView::TokenHttpError { .. }) => true,
        (StateView::Exchanging { .. }, EventView::TokenMalformed) => true,
        (StateView::Exchanging { .. }, EventView::TokenTimeout) => true,
        (StateView::Profiling { .. }, EventView::ProfileOk { .. }) => true,
        (StateView::Profiling { .. }, EventView::ProfileHttpError { .. }) => true,
        (StateView::Profiling { .. }, EventView::ProfileMalformed) => true,
        (StateView::Profiling { .. }, EventView::ProfileTimeout) => true,
        _ => false,
    }
}

/// One transition of the callback state machine.
pub open spec fn step_view(cfg: ConfigView, s: StateView, e: EventView) -> (StateView, ActionView) {
    match (s, e) {
        (StateView::Received, EventView::Query { code, state, error, state_cookie }) => {
            if error is Some {
                failed(ErrorView::ProviderError { message: error->0 }, 400)
            } else if !state_matches(state, state_cookie) {
                failed(ErrorView::InvalidState, 400)
            } else if code is None {
                failed(ErrorView::InvalidState, 400)
            } else {
                (
                    StateView::Exchanging { code: code->0 },
                    ActionView::ExchangeCode { form_body: token_form_view(cfg, code->0) },
                )
            }
        },
        (StateView::Exchanging { .. }, EventView::TokenOk { token }) => {
            if token_accepted(token) {
                (
                    StateView::Profiling { access_token: token.access_token },
                    ActionView::FetchProfile { access_token: token.access_token },
                )
            } else {
                failed(ErrorView::TokenExchangeFailed, 502)
            }
        },
        (StateView::Exchanging { .. }, EventView::TokenHttpError { .. }) => failed(
            ErrorView::TokenExchangeFailed,
            502,
        ),
        (StateView::Exchanging { .. }, EventView::TokenMalformed) => failed(
            ErrorView::TokenExchangeFailed,
            502,
        ),
        (StateView::Exchanging { .. }, EventView::TokenTimeout) => failed(
            ErrorView::UpstreamTimeout,
            504,
        ),
        (StateView::Profiling { .. }, EventView::ProfileOk { profile }) => (
            StateView::Completed { username: display_name_view(profile) },
            ActionView::Respond {
                response: ResponseView {
                    status: 302,
                    set_username_cookie: Some(display_name_view(profile)),
                    clear_oauth_state: true,
                    location: Some("/"@),
                },
            },
        ),
        (StateView::Profiling { .. }, EventView::ProfileHttpError { .. }) => failed(
            ErrorView::ProfileFetchFailed,
            502,
        ),
        (StateView::Profiling { .. }, EventView::ProfileMalformed) => failed(
            ErrorView::ProfileFetchFailed,
            502,
        ),
        (StateView::Profiling { .. }, EventView::ProfileTimeout) => failed(
            ErrorView::UpstreamTimeout,
            504,
        ),
        (other, _) => (
            other,
            ActionView::Respond {
                response: ResponseView {
                    status: 500,
                    set_username_cookie: None,
                    clear_oauth_state: false,
                    location: None,
                },
            },
        ),
    }
}

fn respond_failure(error: CallbackError, status: u16) -> (r: (CallbackState, CallbackAction))
    ensures
        (r.0@, r.1@) == failed(error@, status),
{
    (
        CallbackState::Failed { error },
        CallbackAction::Respond {
            response: CallbackResponse {
                status,
                set_username_cookie: None,
                clear_oauth_state: false,
                location: None,
            },
        },
    )
}

/// Runs one transition of the callback: from where the callback stands and
/// what just happened, to where it stands next and what the shell must do.
pub fn google_callback_step(cfg: &OAuthConfig, state: CallbackState, event: CallbackEvent) -> (r: (
    CallbackState,
    CallbackAction,
))
    requires
        compatible(state@, event@),
    ensures
        (r.0@, r.1@) == step_view(cfg@, state@, event@),
{
    match (state, event) {
        (
            CallbackState::Received,
            CallbackEvent::Query { code, state, error, state_cookie },
        ) => {
            if let Some(message) = error {
                respond_failure(CallbackError::ProviderError { message }, 400)
            } else {
                let state_ok = match (&state, &state_cookie) {
                    (Some(sent), Some(stored)) => *sent == *stored,
                    _ => false,
                };
                if !state_ok {
                    respond_failure(CallbackError::InvalidState, 400)
                } else if let Some(code_value) = code {
                    let form_body = token_request_form(cfg, code_value.as_str());
                    (
                        CallbackState::Exchanging { code: code_value },
                        CallbackAction::ExchangeCode { form_body },
                    )
                } else {
                    respond_failure(CallbackError::InvalidState, 400)
                }
            }
        },
        (CallbackState::Exchanging { .. }, CallbackEvent::TokenOk { token }) => {
            if check_token_response(&token) {
                let access_token = token.access_token;
                (
                    CallbackState::Profiling { access_token: access_token.clone() },
                    CallbackAction::FetchProfile { access_token },
                )
            } else {
                respond_failure(CallbackError::TokenExchangeFailed, 502)
            }
        },
        (CallbackState::Exchanging { .. }, CallbackEvent::TokenHttpError { .. }) => {
            respond_failure(CallbackError::TokenExchangeFailed, 502)
        },
        (CallbackState::Exchanging { .. }, CallbackEvent::TokenMalformed) => {
            respond_failure(CallbackError::TokenExchangeFailed, 502)
        },
        (CallbackState::Exchanging { .. }, CallbackEvent::TokenTimeout) => {
            respond_failure(CallbackError::UpstreamTimeout, 504)
        },
        (CallbackState::Profiling { .. }, CallbackEvent::ProfileOk { profile }) => {
            let username = crate::profile::display_name_of(&profile);
            (
                CallbackState::Completed { username: username.clone() },
                CallbackAction::Respond {
                    response: CallbackResponse {
                        status: 302,
                        set_username_cookie: Some(username),
                        clear_oauth_state: true,
                        location: Some("/".to_owned()),
                    },
                },
            )
        },
        (CallbackState::Profiling { .. }, CallbackEvent::ProfileHttpError { .. }) => {
            respond_failure(CallbackError::ProfileFetchFailed, 502)
        },
        (CallbackState::Profiling { .. }, CallbackEvent::ProfileMalformed) => {
            respond_failure(CallbackError::ProfileFetchFailed, 502)
        },
        (CallbackState::Profiling { .. }, CallbackEvent::ProfileTimeout) => {
            respond_failure(CallbackError::UpstreamTimeout, 504)
        },
        (other, _) => (
            other,
            CallbackAction::Respond {
                response: CallbackResponse {
                    status: 500,
                    set_username_cookie: None,
                    clear_oauth_state: false,
                    location: None,
                },
            },
        ),
    }
}

/// The session cookie an action writes, if any.
pub open spec fn session_cookie_of(a: ActionView) -> Option<Seq<char>> {
    match a {
        ActionView::Respond { response } => response.set_username_cookie,
        _ => None,
    }
}

/// Law: one step writes the session cookie exactly when a fetched profile
/// arrives in the `Profiling` state, and then the cookie carries the
/// profile's display name with a 302 back to `/` and the `oauth_state`
/// cookie cleared.
pub proof fn lemma_session_cookie_iff_profile_success(
    cfg: ConfigView,
    s: StateView,
    e: EventView,
)
    requires
        compatible(s, e),
    ensures
        session_cookie_of(step_view(cfg, s, e).1) is Some <==> (s is Profiling
            && e is ProfileOk),
        s is Profiling ==> (e matches EventView::ProfileOk { profile } ==> step_view(
            cfg,
            s,
            e,
        ).1 == (ActionView::Respond {
            response: ResponseView {
                status: 302,
                set_username_cookie: Some(display_name_view(profile)),
                clear_oauth_state: true,
                location: Some("/"@),
            },
        })),
{
}

/// Law: a session can only be established by a successful token exchange
/// followed at once by a successful profile fetch: if two consecutive
/// steps end in a written session cookie, the first consumed an accepted
/// token response and the second a fetched profile.
pub proof fn lemma_session_needs_token_then_profile(
    cfg: ConfigView,
    s0: StateView,
    e1: EventView,
    e2: EventView,
)
    requires
        compatible(s0, e1),
        compatible(step_view(cfg, s0, e1).0, e2),
        session_cookie_of(step_view(cfg, step_view(cfg, s0, e1).0, e2).1) is Some,
    ensures
        s0 is Exchanging,
        e1 matches EventView::TokenOk { token } && token_accepted(token),
        e2 is ProfileOk,
{
}

/// Whether an action expires the `oauth_state` cookie.
pub open spec fn clears_oauth_state(a: ActionView) -> bool {
    match a {
        ActionView::Respond { response } => response.clear_oauth_state,
        _ => false,
    }
}

/// Law: the `oauth_state` cookie is expired exactly when the callback
/// completes; every failure answer leaves it untouched.
pub proof fn lemma_state_cookie_cleared_iff_success(cfg: ConfigView, s: StateView, e: EventView)
    requires
        compatible(s, e),
    ensures
        clears_oauth_state(step_view(cfg, s, e).1) <==> (s is Profiling && e is ProfileOk),
{
}

/// The state a callback stands in after consuming each event in turn,
/// starting from `Received`.
pub open spec fn run_view(cfg: ConfigView, events: Seq<EventView>) -> StateView
    decreases events.len(),
{
    if events.len() == 0 {
        StateView::Received
    } else {
        step_view(cfg, run_view(cfg, events.drop_last()), events.last()).0
    }
}

/// Every event of the trace is admitted by the state it arrives in.
pub open spec fn trace_admitted(cfg: ConfigView, events: Seq<EventView>) -> bool
    decreases events.len(),
{
    events.len() == 0 || (trace_admitted(cfg, events.drop_last()) && compatible(
        run_view(cfg, events.drop_last()),
        events.last(),
    ))
}

/// Law: one step reaches `Profiling` only by an accepted token response
/// arriving in `Exchanging`.
pub proof fn lemma_profiling_needs_accepted_token(cfg: ConfigView, s: StateView, e: EventView)
    requires
        compatible(s, e),
        step_view(cfg, s, e).0 is Profiling,
    ensures
        s is Exchanging,
        e matches EventView::TokenOk { token } && token_accepted(token),
{
}

/// Law: over a whole callback, the session cookie is written only as the
/// last step of a successful token exchange followed at once by a
/// successful profile fetch: whatever admitted trace of events arrives,
/// if its last step writes the cookie, the event before last was an
/// accepted token response and the last a fetched profile, and the
/// callback completes.
pub proof fn lemma_trace_session_cookie(cfg: ConfigView, events: Seq<EventView>)
    requires
        events.len() > 0,
        trace_admitted(cfg, events),
        session_cookie_of(
            step_view(cfg, run_view(cfg, events.drop_last()), events.last()).1,
        ) is Some,
    ensures
        events.len() >= 2,
        events.last() is ProfileOk,
        events[events.len() - 2] matches EventView::TokenOk { token } && token_accepted(token),
        run_view(cfg, events) is Completed,
{
    let before_last = events.drop_last();
    lemma_session_cookie_iff_profile_success(cfg, run_view(cfg, before_last), events.last());
    assert(run_view(cfg, before_last) is Profiling);
    assert(before_last.len() > 0);
    let earlier = before_last.drop_last();
    assert(trace_admitted(cfg, before_last));
    assert(compatible(run_view(cfg, earlier), before_last.last()));
    lemma_profiling_needs_accepted_token(cfg, run_view(cfg, earlier), before_last.last());
    assert(before_last.last() == events[events.len() - 2]);
}

/// Law: with no provider error, the callback answers 400 `invalid_state`
/// exactly when the query `state` is absent, the `oauth_state` cookie is
/// absent, or the two differ — and then no session cookie is written and
/// `oauth_state` is left untouched; when they match and a `code` is
/// present, the flow proceeds to the token exchange.
pub proof fn lemma_invalid_state_rejected(
    cfg: ConfigView,
    code: Option<Seq<char>>,
    state: Option<Seq<char>>,
    state_cookie: Option<Seq<char>>,
)
    ensures
        ({
            let r = step_view(
                cfg,
                StateView::Received,
                EventView::Query { code, state, error: None, state_cookie },
            );
            &&& !state_matches(state, state_cookie) ==> r == failed(ErrorView::InvalidState, 400)
            &&& state_matches(state, state_cookie) && code is Some ==> r == (
                StateView::Exchanging { code: code->0 },
                ActionView::ExchangeCode { form_body: token_form_view(cfg, code->0) },
            )
            &&& session_cookie_of(r.1) is None
        }),
{
}

/// Law: display-name extraction is total and never blocks the session:
/// whatever profile comes back, the step completes with a 302 and a
/// session cookie; a profile whose name list is empty or whose first
/// record lacks a display name yields the empty name.
pub proof fn lemma_profile_extraction_total(
    cfg: ConfigView,
    access_token: Seq<char>,
    profile: ProfileView,
)
    ensures
        ({
            let r = step_view(
                cfg,
                StateView::Profiling { access_token },
                EventView::ProfileOk { profile },
            );
            &&& r.0 == StateView::Completed { username: display_name_view(profile) }
            &&& session_cookie_of(r.1) == Some(display_name_view(profile))
            &&& (profile.names.len() == 0 || profile.names[0].display_name is None)
                ==> display_name_view(profile) == Seq::<char>::empty()
        }),
{
}

} // verus!
