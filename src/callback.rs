//! What the loopback listener does with the authorization redirect.
use crate::session::{lookup, without, AuthState, SessionRegistry};
use crate::tokens::TokenResponse;
use vstd::prelude::*;
use vstd::string::*;

verus! {

/// The outcome of one authorization attempt.
#[derive(Debug, Clone)]
pub struct AuthResult {
    pub success: bool,
    pub access_token: Option<String>,
    pub refresh_token: Option<String>,
    pub error: Option<String>,
}

/// A failed outcome carrying `msg`, with no token.
pub open spec fn is_failure(r: AuthResult, msg: Seq<char>) -> bool {
    &&& !r.success
    &&& r.access_token is None
    &&& r.refresh_token is None
    &&& r.error matches Some(e) && e@ == msg
}

impl AuthResult {
    pub fn failure(msg: String) -> (r: AuthResult)
        ensures
            is_failure(r, msg@),
    {
        AuthResult { success: false, access_token: None, refresh_token: None, error: Some(msg) }
    }
}

/// The token request owed for a callback that matched a session.
#[derive(Debug)]
pub struct ExchangeRequest {
    pub code: String,
    pub code_verifier: String,
    pub client_id: String,
    pub port: u16,
}

/// What follows a callback: an outcome at once, or a token request first.
#[derive(Debug)]
pub enum CallbackStep {
    Finished(AuthResult),
    Exchange(ExchangeRequest),
}

/// The token request for `code` under session `s`.
pub open spec fn request_for(code: String, s: AuthState) -> ExchangeRequest {
    ExchangeRequest { code, code_verifier: s.code_verifier, client_id: s.client_id, port: s.port }
}

/// Handles a redirect with the query parameters `error`, `code` and `state`.
/// An `error` wins; else `code` and `state` consume the session under
/// `state`; else the code is missing.
pub fn handle_callback(
    registry: &mut SessionRegistry,
    error: Option<String>,
    code: Option<String>,
    state: Option<String>,
) -> (r: CallbackStep)
    requires
        old(registry).wf(),
    ensures
        final(registry).wf(),
        error matches Some(e) ==> {
            &&& r matches CallbackStep::Finished(a) && is_failure(a, "Authorization error: "@ + e@)
            &&& final(registry)@ == old(registry)@
        },
        error is None && code is Some && state is Some ==> {
            &&& final(registry)@ == without(old(registry)@, state.unwrap()@)
            &&& match lookup(old(registry)@, state.unwrap()@) {
                Some(s) => r == CallbackStep::Exchange(request_for(code.unwrap(), s)),
                None => r matches CallbackStep::Finished(a) && is_failure(
                    a,
                    "Invalid state parameter"@,
                ),
            }
        },
        error is None && (code is None || state is None) ==> {
            &&& r matches CallbackStep::Finished(a) && is_failure(a, "Missing authorization code"@)
            &&& final(registry)@ == old(registry)@
        },
{
    match error {
        Some(e) => CallbackStep::Finished(
            AuthResult::failure(String::from_str("Authorization error: ").concat(e.as_str())),
        ),
        None => match (code, state) {
            (Some(code), Some(state)) => match registry.take(&state) {
                Some(s) => CallbackStep::Exchange(
                    ExchangeRequest {
                        code,
                        code_verifier: s.code_verifier,
                        client_id: s.client_id,
                        port: s.port,
                    },
                ),
                None => CallbackStep::Finished(
                    AuthResult::failure(String::from_str("Invalid state parameter")),
                ),
            },
            _ => CallbackStep::Finished(
                AuthResult::failure(String::from_str("Missing authorization code")),
            ),
        },
    }
}

/// The outcome once the token request has answered: its tokens, or its error
/// prefixed with `Token exchange failed: `.
pub fn finish_exchange(result: Result<TokenResponse, String>) -> (r: AuthResult)
    ensures
        result matches Ok(t) ==> r == (AuthResult {
            success: true,
            access_token: Some(t.access_token),
            refresh_token: t.refresh_token,
            error: None,
        }),
        result matches Err(e) ==> is_failure(r, "Token exchange failed: "@ + e@),
{
    match result {
        Ok(t) => AuthResult {
            success: true,
            access_token: Some(t.access_token),
            refresh_token: t.refresh_token,
            error: None,
        },
        Err(e) => AuthResult::failure(String::from_str("Token exchange failed: ").concat(e.as_str())),
    }
}

} // verus!
