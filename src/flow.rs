//! Starting a flow: the session, its PKCE values, and the authorization URL.
use crate::exchange::{redirect_uri, redirect_uri_spec};
use crate::pkce::{challenge_of, generate_code_challenge, generate_random_string, is_unreserved};
use crate::ports::StartError;
use crate::session::{has_key, AuthState, SessionRegistry};
use vstd::prelude::*;
use vstd::string::*;

verus! {

pub const AUTHORIZE_ENDPOINT: &'static str = "https://accounts.spotify.com/authorize";

/// The requested scopes, joined by single spaces.
pub const SCOPES: &'static str = "streaming user-read-email user-read-private user-library-read user-library-modify user-read-playback-state user-modify-playback-state playlist-read-private playlist-read-collaborative playlist-modify-public playlist-modify-private";

pub const VERIFIER_LEN: usize = 128;

pub const STATE_LEN: usize = 16;

/// The percent-encoding of a text for use in a URL query.
pub uninterp spec fn url_encoded(text: Seq<char>) -> Seq<char>;

/// Relies on urlencoding::encode: the text percent-encoded for a URL.
#[verifier::external_body]
fn url_encode(text: &str) -> (r: String)
    ensures
        r@ == url_encoded(text@),
{
    urlencoding::encode(text).into_owned()
}

/// The authorization URL for a client, a redirect port, a challenge and a state.
pub open spec fn authorization_url_spec(
    client_id: Seq<char>,
    port: u16,
    challenge: Seq<char>,
    state: Seq<char>,
) -> Seq<char> {
    AUTHORIZE_ENDPOINT@ + "?client_id="@ + client_id + "&response_type=code&redirect_uri="@
        + url_encoded(redirect_uri_spec(port)) + "&code_challenge_method=S256&code_challenge="@
        + challenge + "&state="@ + state + "&scope="@ + url_encoded(SCOPES@)
}

pub fn authorization_url(client_id: &str, port: u16, challenge: &str, state: &str) -> (r: String)
    ensures
        r@ == authorization_url_spec(client_id@, port, challenge@, state@),
{
    let uri = redirect_uri(port);
    let uri_enc = url_encode(uri.as_str());
    let scopes_enc = url_encode(SCOPES);
    String::from_str(AUTHORIZE_ENDPOINT).concat("?client_id=").concat(client_id).concat(
        "&response_type=code&redirect_uri=",
    ).concat(uri_enc.as_str()).concat("&code_challenge_method=S256&code_challenge=").concat(
        challenge,
    ).concat("&state=").concat(state).concat("&scope=").concat(scopes_enc.as_str())
}

/// `s` is a session begun for `client_id` on `port`: a fresh 128-character
/// verifier and 16-character state, both over the unreserved alphabet.
pub open spec fn is_new_session(s: AuthState, client_id: Seq<char>, port: u16) -> bool {
    &&& s.client_id@ == client_id
    &&& s.port == port
    &&& s.code_verifier@.len() == VERIFIER_LEN
    &&& forall|i: int| 0 <= i < s.code_verifier@.len() ==> is_unreserved(#[trigger] s.code_verifier@[i])
    &&& s.state@.len() == STATE_LEN
    &&& forall|i: int| 0 <= i < s.state@.len() ==> is_unreserved(#[trigger] s.state@[i])
}

/// How many states are drawn at most before a start gives up.
pub const STATE_ATTEMPTS: usize = 8;

/// Begins a flow for `client_id` whose redirect comes to `port`: stores a new
/// session under a state that no stored session has, and returns the
/// authorization URL with the port. Fails, changing nothing, when every state
/// drawn was already in use, which cannot happen while no stored state has
/// the length of a drawn one (an empty registry, in particular).
pub fn start_spotify_auth(registry: &mut SessionRegistry, client_id: String, port: u16) -> (r:
    Result<(String, u16), StartError>)
    requires
        old(registry).wf(),
    ensures
        final(registry).wf(),
        r matches Ok(v) ==> {
            &&& v.1 == port
            &&& exists|s: AuthState|
                {
                    &&& is_new_session(s, client_id@, port)
                    &&& !has_key(old(registry)@, s.state@)
                    &&& final(registry)@ == old(registry)@.push(s)
                    &&& v.0@ == authorization_url_spec(
                        client_id@,
                        port,
                        challenge_of(s.code_verifier@),
                        s.state@,
                    )
                }
        },
        (forall|i: int|
            0 <= i < old(registry)@.len() ==> (#[trigger] old(registry)@[i]).state@.len()
                != STATE_LEN) ==> r is Ok,
        r matches Err(e) ==> {
            &&& e == StartError::StateCollision
            &&& final(registry)@ == old(registry)@
        },
{
    let code_verifier = generate_random_string(VERIFIER_LEN);
    let code_challenge = generate_code_challenge(code_verifier.as_str());
    let mut state = generate_random_string(STATE_LEN);
    let mut attempt: usize = 1;
    while registry.contains_key(&state)
        invariant
            registry.wf(),
            registry@ == old(registry)@,
            1 <= attempt <= STATE_ATTEMPTS,
            state@.len() == STATE_LEN,
            forall|i: int| 0 <= i < state@.len() ==> is_unreserved(#[trigger] state@[i]),
        decreases STATE_ATTEMPTS - attempt,
    {
        if attempt == STATE_ATTEMPTS {
            return Err(StartError::StateCollision);
        }
        state = generate_random_string(STATE_LEN);
        attempt = attempt + 1;
    }
    let url = authorization_url(client_id.as_str(), port, code_challenge.as_str(), state.as_str());
    let session = AuthState { code_verifier, state, client_id, port };
    let ghost g = session;
    registry.insert(session);
    assert(is_new_session(g, client_id@, port));
    Ok((url, port))
}

} // verus!
