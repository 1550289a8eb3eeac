//! Verifier generation and S256 challenge derivation.
use base64::Engine;
use rand::Rng;
use sha2::Digest;
use vstd::prelude::*;
use vstd::string::*;

verus! {

/// A character of the unreserved URL alphabet `[A-Za-z0-9-._~]`.
pub open spec fn is_unreserved(c: char) -> bool {
    ('A' <= c && c <= 'Z') || ('a' <= c && c <= 'z') || ('0' <= c && c <= '9') || c == '-' || c
        == '.' || c == '_' || c == '~'
}

/// A character of the URL-safe base64 alphabet `[A-Za-z0-9-_]`.
pub open spec fn is_base64url_char(c: char) -> bool {
    ('A' <= c && c <= 'Z') || ('a' <= c && c <= 'z') || ('0' <= c && c <= '9') || c == '-' || c
        == '_'
}

/// The SHA-256 digest of the UTF-8 bytes of a text.
pub uninterp spec fn sha256_digest(text: Seq<char>) -> Seq<u8>;

/// The unpadded URL-safe base64 encoding of some bytes.
pub uninterp spec fn base64url_text(bytes: Seq<u8>) -> Seq<char>;

/// The S256 code challenge of a verifier.
pub open spec fn challenge_of(verifier: Seq<char>) -> Seq<char> {
    base64url_text(sha256_digest(verifier))
}

/// Relies on rand::thread_rng and Rng::gen_range: an index drawn below `bound`.
#[verifier::external_body]
fn random_index(bound: usize) -> (r: usize)
    requires
        bound > 0,
    ensures
        r < bound,
{
    rand::thread_rng().gen_range(0..bound)
}

/// Relies on sha2::Sha256::digest: the 32-byte digest of the text's UTF-8 bytes.
#[verifier::external_body]
fn sha256_of_text(text: &str) -> (r: Vec<u8>)
    ensures
        r@ == sha256_digest(text@),
        r@.len() == 32,
{
    sha2::Sha256::digest(text.as_bytes()).to_vec()
}

/// Relies on base64's URL_SAFE_NO_PAD engine: URL-safe alphabet, no padding.
#[verifier::external_body]
fn encode_base64url(bytes: &Vec<u8>) -> (r: String)
    ensures
        r@ == base64url_text(bytes@),
        r@.len() == (4 * bytes@.len() + 2) / 3,
        forall|i: int| 0 <= i < r@.len() ==> is_base64url_char(#[trigger] r@[i]),
{
    base64::engine::general_purpose::URL_SAFE_NO_PAD.encode(bytes)
}

pub const UNRESERVED: &'static str = "ABCDEFGHIJKLMNOPQRSTUVWXYZabcdefghijklmnopqrstuvwxyz0123456789-._~";

proof fn lemma_alphabet_unreserved()
    ensures
        UNRESERVED@.len() == 66,
        forall|i: int| 0 <= i < 66 ==> is_unreserved(#[trigger] UNRESERVED@[i]),
{
    reveal_strlit("ABCDEFGHIJKLMNOPQRSTUVWXYZabcdefghijklmnopqrstuvwxyz0123456789-._~");
}

/// The characters of the unreserved alphabet at the given positions.
pub open spec fn chars_at(indices: Seq<usize>) -> Seq<char> {
    Seq::new(indices.len(), |i: int| UNRESERVED@[indices[i] as int])
}

/// The text whose characters are those of the unreserved alphabet at the
/// given positions.
pub fn string_from_indices(indices: &Vec<usize>) -> (r: String)
    requires
        forall|i: int| 0 <= i < indices@.len() ==> #[trigger] indices@[i] < 66,
    ensures
        r@ == chars_at(indices@),
        forall|i: int| 0 <= i < r@.len() ==> is_unreserved(#[trigger] r@[i]),
{
    proof {
        lemma_alphabet_unreserved();
    }
    let mut out = String::new();
    let mut n: usize = 0;
    while n < indices.len()
        invariant
            n <= indices@.len(),
            forall|i: int| 0 <= i < indices@.len() ==> #[trigger] indices@[i] < 66,
            UNRESERVED@.len() == 66,
            out@ == chars_at(indices@.take(n as int)),
        decreases indices@.len() - n,
    {
        let idx = indices[n];
        let piece = UNRESERVED.substring_char(idx, idx + 1);
        out.append(piece);
        n = n + 1;
        assert(out@ =~= chars_at(indices@.take(n as int)));
    }
    assert(indices@.take(n as int) =~= indices@);
    assert forall|i: int| 0 <= i < out@.len() implies is_unreserved(#[trigger] out@[i]) by {
        assert(indices@[i] < 66);
    }
    out
}

/// Draws `length` characters at random from the unreserved alphabet.
pub fn generate_random_string(length: usize) -> (r: String)
    ensures
        r@.len() == length,
        forall|i: int| 0 <= i < r@.len() ==> is_unreserved(#[trigger] r@[i]),
{
    let mut indices: Vec<usize> = Vec::new();
    let mut n: usize = 0;
    while n < length
        invariant
            n <= length,
            indices@.len() == n,
            forall|i: int| 0 <= i < indices@.len() ==> #[trigger] indices@[i] < 66,
        decreases length - n,
    {
        indices.push(random_index(66));
        n = n + 1;
    }
    string_from_indices(&indices)
}

/// The S256 challenge: SHA-256 of the verifier, encoded as unpadded URL-safe base64.
pub fn generate_code_challenge(verifier: &str) -> (r: String)
    ensures
        r@ == challenge_of(verifier@),
        r@.len() == 43,
        forall|i: int| 0 <= i < r@.len() ==> is_base64url_char(#[trigger] r@[i]),
{
    let digest = sha256_of_text(verifier);
    encode_base64url(&digest)
}

/// The challenge is a function of the verifier: equal verifiers give equal
/// challenges.
pub proof fn lemma_challenge_deterministic(v1: Seq<char>, v2: Seq<char>)
    requires
        v1 == v2,
    ensures
        challenge_of(v1) == challenge_of(v2),
{
}

} // verus!
