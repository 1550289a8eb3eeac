//! Token records: their expiry and whether a stored record is still usable.
use vstd::prelude::*;

verus! {

/// What the token endpoint answers on success.
#[derive(Debug)]
pub struct TokenResponse {
    pub access_token: String,
    pub token_type: String,
    pub expires_in: u64,
    pub refresh_token: Option<String>,
    pub scope: String,
}

/// The record that is persisted between runs.
#[derive(Debug, Clone)]
pub struct StoredTokens {
    pub access_token: String,
    pub refresh_token: Option<String>,
    /// Unix time, in seconds, at which the access token expires.
    pub expires_at: u64,
}

/// A stored record is used only while it has more than this many seconds left.
pub const EXPIRY_BUFFER_SECS: u64 = 300;

/// Relies on std::time::SystemTime::duration_since: whole seconds since the
/// Unix epoch, or `None` for a clock set before it.
#[verifier::external_body]
fn seconds_since_epoch() -> (r: Option<u64>) {
    match std::time::SystemTime::now().duration_since(std::time::UNIX_EPOCH) {
        Ok(d) => Some(d.as_secs()),
        Err(_) => None,
    }
}

/// The timestamp for a clock reading: its whole seconds since the epoch, or 0
/// for a clock set before the epoch.
pub open spec fn timestamp_spec(reading: Option<u64>) -> u64 {
    match reading {
        Some(s) => s,
        None => 0,
    }
}

/// The timestamp for a clock reading given as whole seconds since the epoch,
/// `None` for a clock set before it.
pub fn timestamp_from_reading(reading: Option<u64>) -> (r: u64)
    ensures
        r == timestamp_spec(reading),
{
    match reading {
        Some(s) => s,
        None => 0,
    }
}

/// Readings in order give timestamps in order.
pub proof fn lemma_timestamp_monotonic(s1: u64, s2: u64)
    requires
        s1 <= s2,
    ensures
        timestamp_spec(Some(s1)) <= timestamp_spec(Some(s2)),
{
}

/// The current Unix time in seconds, as `timestamp_from_reading` makes it of
/// the clock's reading.
pub fn get_current_timestamp() -> (r: u64)
    ensures
        exists|reading: Option<u64>| r == timestamp_spec(reading),
{
    let reading = seconds_since_epoch();
    timestamp_from_reading(reading)
}

/// The record saved at time `now` for a token that lives `expires_in` seconds.
pub open spec fn saved_record(
    access_token: String,
    refresh_token: Option<String>,
    expires_in: u64,
    now: u64,
) -> StoredTokens {
    StoredTokens { access_token, refresh_token, expires_at: (now + expires_in) as u64 }
}

/// Builds the record to persist; its expiry is `now + expires_in`.
pub fn stored_tokens_from(
    access_token: String,
    refresh_token: Option<String>,
    expires_in: u64,
    now: u64,
) -> (r: StoredTokens)
    requires
        now + expires_in <= u64::MAX,
    ensures
        r == saved_record(access_token, refresh_token, expires_in, now),
        r.expires_at == now + expires_in,
{
    StoredTokens { access_token, refresh_token, expires_at: now + expires_in }
}

/// A record is usable while it expires more than the buffer after `now`.
pub open spec fn is_fresh(tokens: StoredTokens, now: u64) -> bool {
    tokens.expires_at > now + EXPIRY_BUFFER_SECS
}

pub fn is_still_valid(tokens: &StoredTokens, now: u64) -> (r: bool)
    ensures
        r == is_fresh(*tokens, now),
{
    tokens.expires_at > now && tokens.expires_at - now > EXPIRY_BUFFER_SECS
}

/// What loading the persisted record comes to.
#[derive(Debug)]
pub enum TokenLoad {
    /// The record is usable.
    Valid(StoredTokens),
    /// The record is too close to expiry: the store is to be cleared.
    Expired,
    /// Nothing was stored.
    Empty,
}

pub open spec fn load_spec(stored: Option<StoredTokens>, now: u64) -> TokenLoad {
    match stored {
        Some(t) => if is_fresh(t, now) {
            TokenLoad::Valid(t)
        } else {
            TokenLoad::Expired
        },
        None => TokenLoad::Empty,
    }
}

/// Decides what a load at time `now` of the stored record returns.
pub fn load_tokens(stored: Option<StoredTokens>, now: u64) -> (r: TokenLoad)
    ensures
        r == load_spec(stored, now),
{
    match stored {
        Some(t) => {
            if is_still_valid(&t, now) {
                TokenLoad::Valid(t)
            } else {
                TokenLoad::Expired
            }
        },
        None => TokenLoad::Empty,
    }
}

/// A record saved at `now` loads back unchanged at any time `later` that is
/// still more than the buffer before its expiry, and is dropped otherwise.
pub proof fn lemma_saved_tokens_load(
    access_token: String,
    refresh_token: Option<String>,
    expires_in: u64,
    now: u64,
    later: u64,
)
    requires
        now + expires_in <= u64::MAX,
    ensures
        now + expires_in > later + EXPIRY_BUFFER_SECS ==> load_spec(
            Some(saved_record(access_token, refresh_token, expires_in, now)),
            later,
        ) == TokenLoad::Valid(saved_record(access_token, refresh_token, expires_in, now)),
        now + expires_in <= later + EXPIRY_BUFFER_SECS ==> load_spec(
            Some(saved_record(access_token, refresh_token, expires_in, now)),
            later,
        ) == TokenLoad::Expired,
{
}

} // verus!
