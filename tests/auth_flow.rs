use spotify_auth::callback::{finish_exchange, handle_callback, AuthResult, CallbackStep};
use spotify_auth::exchange::{
    classify_error_body, classify_error_fields, decimal_text, describe_token_error, redirect_uri,
    token_error_message, token_request_form, ErrorFields, ErrorShape,
};
use spotify_auth::flow::{authorization_url, start_spotify_auth};
use spotify_auth::pkce::{
    generate_code_challenge, generate_random_string, string_from_indices, UNRESERVED,
};
use spotify_auth::ports::{candidate_ports, select_port, StartError};
use spotify_auth::session::{AuthState, SessionRegistry};
use spotify_auth::tokens::{
    get_current_timestamp, is_still_valid, timestamp_from_reading, load_tokens, stored_tokens_from, StoredTokens,
    TokenLoad, TokenResponse,
};

fn session(state: &str, verifier: &str, port: u16) -> AuthState {
    AuthState {
        code_verifier: verifier.to_string(),
        state: state.to_string(),
        client_id: "client".to_string(),
        port,
    }
}

fn assert_failure(step: CallbackStep, msg: &str) {
    match step {
        CallbackStep::Finished(r) => assert_failure_result(&r, msg),
        CallbackStep::Exchange(_) => panic!("expected a finished outcome"),
    }
}

fn assert_failure_result(r: &AuthResult, msg: &str) {
    assert!(!r.success);
    assert_eq!(r.access_token, None);
    assert_eq!(r.refresh_token, None);
    assert_eq!(r.error.as_deref(), Some(msg));
}

#[test]
fn random_string_has_requested_length_and_alphabet() {
    for n in [1usize, 16, 128, 500] {
        let s = generate_random_string(n);
        assert_eq!(s.chars().count(), n);
        assert!(s.chars().all(|c| UNRESERVED.contains(c)));
        assert!(s.chars().all(|c| c.is_ascii_alphanumeric() || "-._~".contains(c)));
    }
    assert_eq!(generate_random_string(0), "");
}

#[test]
fn random_strings_differ() {
    assert_ne!(generate_random_string(128), generate_random_string(128));
}

#[test]
fn challenge_matches_known_vector() {
    assert_eq!(
        generate_code_challenge("abc"),
        "ungWv48Bz-pBQUDeXa4iI7ADYaOWF3qctBD_YfIAFa0"
    );
}

#[test]
fn challenge_is_deterministic_and_unpadded() {
    let v = generate_random_string(128);
    let a = generate_code_challenge(&v);
    let b = generate_code_challenge(&v.clone());
    assert_eq!(a, b);
    assert_eq!(a.len(), 43);
    assert!(!a.contains('=') && !a.contains('+') && !a.contains('/'));
    assert_ne!(a, generate_code_challenge("other"));
}

#[test]
fn candidate_ports_are_8888_to_8897() {
    let ports = candidate_ports();
    assert_eq!(ports, (8888u16..=8897).collect::<Vec<u16>>());
}

#[test]
fn port_selection_takes_first_free() {
    let ports = candidate_ports();
    let mut free = vec![false; 10];
    free[3] = true;
    free[7] = true;
    assert_eq!(select_port(&ports, &free), Ok(8891));
    assert_eq!(select_port(&ports, &vec![true; 10]), Ok(8888));
}

#[test]
fn port_selection_exhausted_when_all_taken() {
    let ports = candidate_ports();
    let r = select_port(&ports, &vec![false; 10]);
    assert_eq!(r, Err(StartError::PortExhausted));
    assert_eq!(
        StartError::PortExhausted.message(),
        "No available ports found in range 8888-8897"
    );
    assert_eq!(select_port(&vec![], &vec![]), Err(StartError::PortExhausted));
}

#[test]
fn take_returns_session_once() {
    let mut reg = SessionRegistry::new();
    reg.insert(session("s1", "v1", 8888));
    reg.insert(session("s2", "v2", 8889));
    let key = "s1".to_string();
    let first = reg.take(&key).expect("stored session");
    assert_eq!(first.code_verifier, "v1");
    assert_eq!(first.port, 8888);
    assert!(reg.take(&key).is_none());
    assert_eq!(reg.take(&"s2".to_string()).map(|s| s.code_verifier), Some("v2".to_string()));
    assert!(reg.len() == 0);
}

#[test]
fn insert_replaces_same_state() {
    let mut reg = SessionRegistry::new();
    reg.insert(session("s", "old", 8888));
    reg.insert(session("s", "new", 8890));
    assert_eq!(reg.len(), 1);
    let s = reg.take(&"s".to_string()).unwrap();
    assert_eq!(s.code_verifier, "new");
    assert_eq!(s.port, 8890);
}

#[test]
fn callback_error_wins() {
    let mut reg = SessionRegistry::new();
    reg.insert(session("s", "v", 8888));
    let step = handle_callback(
        &mut reg,
        Some("access_denied".to_string()),
        Some("code".to_string()),
        Some("s".to_string()),
    );
    assert_failure(step, "Authorization error: access_denied");
    assert_eq!(reg.len(), 1);
}

#[test]
fn callback_unknown_state_is_invalid() {
    let mut reg = SessionRegistry::new();
    reg.insert(session("s", "v", 8888));
    let step =
        handle_callback(&mut reg, None, Some("code".to_string()), Some("forged".to_string()));
    assert_failure(step, "Invalid state parameter");
    assert_eq!(reg.len(), 1);
}

#[test]
fn callback_without_code_is_missing() {
    let mut reg = SessionRegistry::new();
    assert_failure(
        handle_callback(&mut reg, None, None, Some("s".to_string())),
        "Missing authorization code",
    );
    assert_failure(
        handle_callback(&mut reg, None, Some("c".to_string()), None),
        "Missing authorization code",
    );
}

#[test]
fn callback_with_known_state_asks_for_exchange_once() {
    let mut reg = SessionRegistry::new();
    reg.insert(session("s", "verifier", 8892));
    let step =
        handle_callback(&mut reg, None, Some("the-code".to_string()), Some("s".to_string()));
    match step {
        CallbackStep::Exchange(req) => {
            assert_eq!(req.code, "the-code");
            assert_eq!(req.code_verifier, "verifier");
            assert_eq!(req.client_id, "client");
            assert_eq!(req.port, 8892);
        }
        CallbackStep::Finished(_) => panic!("expected an exchange"),
    }
    let replay =
        handle_callback(&mut reg, None, Some("the-code".to_string()), Some("s".to_string()));
    assert_failure(replay, "Invalid state parameter");
}

#[test]
fn exchange_outcomes() {
    let ok = finish_exchange(Ok(TokenResponse {
        access_token: "A".to_string(),
        token_type: "Bearer".to_string(),
        expires_in: 3600,
        refresh_token: Some("R".to_string()),
        scope: "streaming".to_string(),
    }));
    assert!(ok.success);
    assert_eq!(ok.access_token.as_deref(), Some("A"));
    assert_eq!(ok.refresh_token.as_deref(), Some("R"));
    assert_eq!(ok.error, None);
    let err = finish_exchange(Err("Spotify OAuth error: bad code".to_string()));
    assert_failure_result(&err, "Token exchange failed: Spotify OAuth error: bad code");
}

#[test]
fn saved_tokens_load_back() {
    let now = get_current_timestamp();
    assert!(now > 1_600_000_000);
    let saved = stored_tokens_from("A".to_string(), None, 3600, now);
    assert_eq!(saved.expires_at, now + 3600);
    match load_tokens(Some(saved), now) {
        TokenLoad::Valid(t) => {
            assert_eq!(t.access_token, "A");
            assert_eq!(t.refresh_token, None);
            assert_eq!(t.expires_at, now + 3600);
        }
        other => panic!("expected valid tokens, got {:?}", other),
    }
}

#[test]
fn tokens_inside_buffer_are_expired() {
    let now = 1_700_000_000u64;
    let t = StoredTokens { access_token: "A".to_string(), refresh_token: None, expires_at: now + 100 };
    assert!(matches!(load_tokens(Some(t), now), TokenLoad::Expired));
    assert!(matches!(load_tokens(None, now), TokenLoad::Empty));
}

#[test]
fn expiry_buffer_boundary() {
    let now = 1_000u64;
    let at = |e: u64| StoredTokens { access_token: "A".to_string(), refresh_token: None, expires_at: e };
    assert!(!is_still_valid(&at(now + 300), now));
    assert!(is_still_valid(&at(now + 301), now));
    assert!(!is_still_valid(&at(0), now));
    assert!(is_still_valid(&at(u64::MAX), u64::MAX - 301));
    assert!(!is_still_valid(&at(u64::MAX), u64::MAX - 300));
}

#[test]
fn oauth_error_body() {
    let body = r#"{"error":"invalid_grant","error_description":"bad code"}"#;
    assert_eq!(token_error_message("400 Bad Request", body), "Spotify OAuth error: bad code");
}

#[test]
fn api_and_plain_error_bodies() {
    assert_eq!(
        token_error_message("401 Unauthorized", r#"{"error":{"status":401,"message":"No token"}}"#),
        "Spotify API error: No token"
    );
    assert_eq!(
        token_error_message("400 Bad Request", r#"{"error":"invalid_client"}"#),
        r#"HTTP 400 Bad Request - {"error":"invalid_client"}"#
    );
    assert_eq!(
        token_error_message(
            "400 Bad Request",
            r#"{"error":{"message":"api"},"error_description":"oauth"}"#
        ),
        "Spotify OAuth error: oauth"
    );
    assert_eq!(
        token_error_message("400 Bad Request", r#"{"error":{"message":null}}"#),
        "Spotify API error: Unknown error"
    );
    assert_eq!(
        token_error_message("400 Bad Request", r#"{"error_description":5}"#),
        "Spotify OAuth error: Unknown error"
    );
}

#[test]
fn generic_error_bodies() {
    assert_eq!(
        token_error_message("500 Internal Server Error", "oops"),
        "HTTP 500 Internal Server Error - oops"
    );
    assert_eq!(token_error_message("400 Bad Request", "{}"), "HTTP 400 Bad Request - {}");
    assert!(matches!(classify_error_body("not json"), ErrorShape::Generic));
    assert!(matches!(classify_error_body("[1]"), ErrorShape::Generic));
    assert!(matches!(classify_error_body(r#"{"error":{"status":400}}"#), ErrorShape::Generic));
    assert_eq!(
        describe_token_error("418", "b", ErrorShape::Api(None)),
        "Spotify API error: Unknown error"
    );
}

#[test]
fn redirect_and_form() {
    assert_eq!(redirect_uri(8888), "http://127.0.0.1:8888/callback");
    assert_eq!(redirect_uri(7), "http://127.0.0.1:7/callback");
    let form = token_request_form("c", "v", "id", 8890);
    let expect = [
        ("grant_type", "authorization_code"),
        ("code", "c"),
        ("redirect_uri", "http://127.0.0.1:8890/callback"),
        ("client_id", "id"),
        ("code_verifier", "v"),
    ];
    assert_eq!(form.len(), 5);
    for (got, want) in form.iter().zip(expect.iter()) {
        assert_eq!(got.0, want.0);
        assert_eq!(got.1, want.1);
    }
}

#[test]
fn authorization_url_layout() {
    let url = authorization_url("abc", 8888, "CH", "ST");
    assert_eq!(
        url,
        "https://accounts.spotify.com/authorize?client_id=abc&response_type=code\
         &redirect_uri=http%3A%2F%2F127.0.0.1%3A8888%2Fcallback\
         &code_challenge_method=S256&code_challenge=CH&state=ST\
         &scope=streaming%20user-read-email%20user-read-private%20user-library-read\
         %20user-library-modify%20user-read-playback-state%20user-modify-playback-state\
         %20playlist-read-private%20playlist-read-collaborative%20playlist-modify-public\
         %20playlist-modify-private"
    );
}

#[test]
fn start_stores_session_for_url() {
    let mut reg = SessionRegistry::new();
    reg.insert(session("taken", "v", 8888));
    let (url, port) = start_spotify_auth(&mut reg, "my-client".to_string(), 8893).unwrap();
    assert_eq!(port, 8893);
    assert_eq!(reg.len(), 2);
    assert_eq!(reg.get(0).state, "taken");
    let s = &reg.get(1);
    assert_ne!(s.state, "taken");
    assert!(reg.contains_key(&s.state.clone()));
    assert_eq!(s.client_id, "my-client");
    assert_eq!(s.port, 8893);
    assert_eq!(s.code_verifier.len(), 128);
    assert_eq!(s.state.len(), 16);
    let challenge = generate_code_challenge(&s.code_verifier);
    assert_eq!(url, authorization_url("my-client", 8893, &challenge, &s.state));
}

#[test]
fn error_fields_precedence() {
    let both = ErrorFields {
        description: Some(Some("d".to_string())),
        message: Some(Some("m".to_string())),
    };
    assert!(matches!(classify_error_fields(both), ErrorShape::OAuth(Some(ref d)) if d == "d"));
    let api = ErrorFields { description: None, message: Some(None) };
    assert!(matches!(classify_error_fields(api), ErrorShape::Api(None)));
    let none = ErrorFields { description: None, message: None };
    assert!(matches!(classify_error_fields(none), ErrorShape::Generic));
}

#[test]
fn indices_map_to_alphabet() {
    assert_eq!(string_from_indices(&vec![0, 25, 26, 52, 61, 62, 63, 64, 65]), "AZa09-._~");
    assert_eq!(string_from_indices(&vec![]), "");
}

#[test]
fn start_error_messages() {
    assert_eq!(StartError::StateCollision.message(), "Failed to draw an unused state");
    assert_eq!(StartError::LockFailure.message(), "Failed to lock state");
}

#[test]
fn decimal_digits_of_ports() {
    assert_eq!(decimal_text(0), "0");
    assert_eq!(decimal_text(9), "9");
    assert_eq!(decimal_text(10), "10");
    assert_eq!(decimal_text(8897), "8897");
    assert_eq!(decimal_text(65535), "65535");
}

#[test]
fn timestamp_follows_reading() {
    assert_eq!(timestamp_from_reading(Some(1_700_000_000)), 1_700_000_000);
    assert_eq!(timestamp_from_reading(None), 0);
    let a = get_current_timestamp();
    let b = get_current_timestamp();
    assert!(a > 1_600_000_000 && a <= b);
}

#[test]
fn start_on_empty_registry_succeeds() {
    let mut reg = SessionRegistry::new();
    assert!(start_spotify_auth(&mut reg, "c".to_string(), 8888).is_ok());
    assert_eq!(reg.len(), 1);
}
