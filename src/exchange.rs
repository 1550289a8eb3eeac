//! The token request and the reading of the token endpoint's error replies.
use vstd::prelude::*;
use vstd::string::*;

verus! {

pub const TOKEN_ENDPOINT: &'static str = "https://accounts.spotify.com/api/token";

pub open spec fn digit_char(d: nat) -> char {
    if d == 0 { '0' } else if d == 1 { '1' } else if d == 2 { '2' } else if d == 3 { '3' }
    else if d == 4 { '4' } else if d == 5 { '5' } else if d == 6 { '6' } else if d == 7 { '7' }
    else if d == 8 { '8' } else { '9' }
}

/// The decimal digits of `n`, without leading zeros.
pub open spec fn decimal(n: nat) -> Seq<char>
    decreases n,
{
    if n < 10 {
        seq![digit_char(n)]
    } else {
        decimal(n / 10).push(digit_char(n % 10))
    }
}

pub const DIGITS: &'static str = "0123456789";

proof fn lemma_digits()
    ensures
        DIGITS@.len() == 10,
        forall|d: int| 0 <= d < 10 ==> #[trigger] DIGITS@[d] == digit_char(d as nat),
{
    reveal_strlit("0123456789");
}

/// The decimal digits of `n`.
pub fn decimal_text(n: u16) -> (r: String)
    ensures
        r@ == decimal(n as nat),
    decreases n,
{
    proof {
        lemma_digits();
    }
    let d = (n % 10) as usize;
    let digit = DIGITS.substring_char(d, d + 1);
    assert(digit@ =~= seq![digit_char(d as nat)]);
    if n < 10 {
        String::from_str(digit)
    } else {
        decimal_text(n / 10).concat(digit)
    }
}

/// `http://127.0.0.1:<port>/callback`.
pub open spec fn redirect_uri_spec(port: u16) -> Seq<char> {
    "http://127.0.0.1:"@ + decimal(port as nat) + "/callback"@
}

pub fn redirect_uri(port: u16) -> (r: String)
    ensures
        r@ == redirect_uri_spec(port),
{
    let digits = decimal_text(port);
    String::from_str("http://127.0.0.1:").concat(digits.as_str()).concat("/callback")
}

fn pair(k: &str, v: &str) -> (r: (String, String))
    ensures
        r.0@ == k@,
        r.1@ == v@,
{
    (String::from_str(k), String::from_str(v))
}

/// The form fields of the authorization-code request, in order.
pub fn token_request_form(code: &str, code_verifier: &str, client_id: &str, port: u16) -> (r: Vec<
    (String, String),
>)
    ensures
        r@.len() == 5,
        r@[0].0@ == "grant_type"@ && r@[0].1@ == "authorization_code"@,
        r@[1].0@ == "code"@ && r@[1].1@ == code@,
        r@[2].0@ == "redirect_uri"@ && r@[2].1@ == redirect_uri_spec(port),
        r@[3].0@ == "client_id"@ && r@[3].1@ == client_id@,
        r@[4].0@ == "code_verifier"@ && r@[4].1@ == code_verifier@,
{
    let uri = redirect_uri(port);
    let mut form: Vec<(String, String)> = Vec::new();
    form.push(pair("grant_type", "authorization_code"));
    form.push(pair("code", code));
    form.push(pair("redirect_uri", uri.as_str()));
    form.push(pair("client_id", client_id));
    form.push(pair("code_verifier", code_verifier));
    form
}

/// What the reading of an error reply looks at. Each field is `None` when the
/// member is absent (or the body is not a JSON object), else `Some` of the
/// member's text when it is a JSON string, `Some(None)` when it is not.
#[derive(Debug)]
pub struct ErrorFields {
    /// The top-level `error_description` member.
    pub description: Option<Option<String>>,
    /// The `message` member of the top-level `error` member.
    pub message: Option<Option<String>>,
}

pub type ErrorFieldsView = (Option<Option<Seq<char>>>, Option<Option<Seq<char>>>);

pub open spec fn member_view(m: Option<Option<String>>) -> Option<Option<Seq<char>>> {
    match m {
        Some(Some(t)) => Some(Some(t@)),
        Some(None) => Some(None),
        None => None,
    }
}

impl View for ErrorFields {
    type V = ErrorFieldsView;

    open spec fn view(&self) -> ErrorFieldsView {
        (member_view(self.description), member_view(self.message))
    }
}

/// The members of an error body that its reading looks at.
pub uninterp spec fn error_fields_of(body: Seq<char>) -> ErrorFieldsView;

/// Relies on serde_json::from_str, Value::get and Value::as_str: the body's
/// `error_description` member and the `message` member of its `error` member.
#[verifier::external_body]
fn read_error_fields(body: &str) -> (r: ErrorFields)
    ensures
        r@ == error_fields_of(body@),
{
    let v: serde_json::Value = match serde_json::from_str(body) {
        Ok(v) => v,
        Err(_) => return ErrorFields { description: None, message: None },
    };
    let description = v.get("error_description").map(|d| d.as_str().map(String::from));
    let message = v.get("error").and_then(|e| e.get("message")).map(|m| m.as_str().map(String::from));
    ErrorFields { description, message }
}

/// How an error reply of the token endpoint reads.
#[derive(Debug)]
pub enum ErrorShape {
    /// OAuth style: an `error_description` member, with its text if it is a string.
    OAuth(Option<String>),
    /// API style: an `error` member holding a `message`, with its text if a string.
    Api(Option<String>),
    /// Neither: the reply is reported by its status and body.
    Generic,
}

/// `error_description` first, then `error.message`, else the generic form.
pub open spec fn shape_of(f: ErrorFields) -> ErrorShape {
    match f.description {
        Some(d) => ErrorShape::OAuth(d),
        None => match f.message {
            Some(m) => ErrorShape::Api(m),
            None => ErrorShape::Generic,
        },
    }
}

pub fn classify_error_fields(f: ErrorFields) -> (r: ErrorShape)
    ensures
        r == shape_of(f),
{
    match f.description {
        Some(d) => ErrorShape::OAuth(d),
        None => match f.message {
            Some(m) => ErrorShape::Api(m),
            None => ErrorShape::Generic,
        },
    }
}

pub open spec fn or_unknown(t: Option<Seq<char>>) -> Seq<char> {
    match t {
        Some(s) => s,
        None => "Unknown error"@,
    }
}

pub open spec fn text_of(t: Option<String>) -> Option<Seq<char>> {
    match t {
        Some(s) => Some(s@),
        None => None,
    }
}

pub open spec fn generic_message(status: Seq<char>, body: Seq<char>) -> Seq<char> {
    "HTTP "@ + status + " - "@ + body
}

/// The message for an error reply with status text `status`, body `body`,
/// read as `shape`.
pub open spec fn shape_message(status: Seq<char>, body: Seq<char>, shape: ErrorShape) -> Seq<char> {
    match shape {
        ErrorShape::OAuth(d) => "Spotify OAuth error: "@ + or_unknown(text_of(d)),
        ErrorShape::Api(m) => "Spotify API error: "@ + or_unknown(text_of(m)),
        ErrorShape::Generic => generic_message(status, body),
    }
}

/// The message for an error reply with status text `status` and body `body`
/// whose members read `f`.
pub open spec fn error_message_spec(status: Seq<char>, body: Seq<char>, f: ErrorFieldsView) -> Seq<
    char,
> {
    match f.0 {
        Some(d) => "Spotify OAuth error: "@ + or_unknown(d),
        None => match f.1 {
            Some(m) => "Spotify API error: "@ + or_unknown(m),
            None => generic_message(status, body),
        },
    }
}

fn text_or_unknown(t: Option<String>) -> (r: String)
    ensures
        r@ == or_unknown(text_of(t)),
{
    match t {
        Some(s) => s,
        None => String::from_str("Unknown error"),
    }
}

/// Words the failure of the token request from the reply's status text, its
/// body, and how the body reads.
pub fn describe_token_error(status: &str, body: &str, shape: ErrorShape) -> (r: String)
    ensures
        r@ == shape_message(status@, body@, shape),
{
    match shape {
        ErrorShape::OAuth(d) => String::from_str("Spotify OAuth error: ").concat(
            text_or_unknown(d).as_str(),
        ),
        ErrorShape::Api(m) => String::from_str("Spotify API error: ").concat(
            text_or_unknown(m).as_str(),
        ),
        ErrorShape::Generic => String::from_str("HTTP ").concat(status).concat(" - ").concat(body),
    }
}

/// Reads how an error body is laid out.
pub fn classify_error_body(body: &str) -> (r: ErrorShape)
    ensures
        exists|f: ErrorFields| f@ == error_fields_of(body@) && r == shape_of(f),
        forall|status: Seq<char>|
            #[trigger] shape_message(status, body@, r) == error_message_spec(
                status,
                body@,
                error_fields_of(body@),
            ),
{
    let fields = read_error_fields(body);
    let ghost f = fields;
    let r = classify_error_fields(fields);
    assert(f@ == error_fields_of(body@) && r == shape_of(f));
    r
}

/// The message for a failed token request with status text `status` and body `body`.
pub fn token_error_message(status: &str, body: &str) -> (r: String)
    ensures
        r@ == error_message_spec(status@, body@, error_fields_of(body@)),
{
    let fields = read_error_fields(body);
    let shape = classify_error_fields(fields);
    describe_token_error(status, body, shape)
}

} // verus!
