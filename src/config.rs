//! Startup validation of the API credential and the authorization header
//! built from it.
use vstd::prelude::*;
use reqwest::header::{HeaderValue, InvalidHeaderValue};

verus! {

#[verifier::external_type_specification]
#[verifier::external_body]
pub struct ExHeaderValue(HeaderValue);

#[verifier::external_type_specification]
#[verifier::external_body]
pub struct ExInvalidHeaderValue(InvalidHeaderValue);

/// Why the client could not start.
#[derive(PartialEq, Eq, Structural, Clone, Copy, Debug)]
pub enum StartupError {
    /// No API key was found in the environment.
    MissingCredential,
    /// The API key holds a character that no header value may hold.
    InvalidCredential,
}

/// Whether a header value may hold `c`: a tab, or any character at or above
/// the space other than DEL (characters beyond ASCII are encoded as bytes
/// that all qualify).
pub open spec fn header_char_ok(c: char) -> bool {
    c == '\t' || (c as u32 >= 32 && c as u32 != 127)
}

/// Whether every character of `s` may stand in a header value.
pub open spec fn header_text_ok(s: Seq<char>) -> bool {
    forall|i: int| 0 <= i < s.len() ==> header_char_ok(#[trigger] s[i])
}

/// The authorization header text for an API key.
pub open spec fn bearer_of(key: Seq<char>) -> Seq<char> {
    "Bearer "@ + key
}

/// A header value together with the text it was built from.
pub struct HeaderText {
    value: HeaderValue,
    text: Ghost<Seq<char>>,
}

impl View for HeaderText {
    type V = Seq<char>;

    closed spec fn view(&self) -> Seq<char> {
        self.text@
    }
}

impl HeaderText {
    /// The header value itself, to be placed in a request's headers.
    pub fn into_value(self) -> HeaderValue {
        self.value
    }
}

/// Relies on `HeaderValue::from_str`, which accepts a string exactly when
/// each of its bytes is a tab or at least 32 and not 127, and then copies
/// those bytes into the value.
#[verifier::external_body]
fn header_value(s: &str) -> (r: Result<HeaderText, InvalidHeaderValue>)
    ensures
        r is Ok <==> header_text_ok(s@),
        r matches Ok(h) ==> h@ == s@,
{
    HeaderValue::from_str(s).map(|value| HeaderText { value, text: Ghost(s@) })
}

/// Startup validation of the credential read from the environment: absent
/// (or unreadable) is an error, any present value is the key.
pub fn require_api_key(value: Option<String>) -> (r: Result<String, StartupError>)
    ensures
        match value {
            Some(k) => r == Ok::<String, StartupError>(k),
            None => r matches Err(StartupError::MissingCredential),
        },
{
    match value {
        Some(k) => Ok(k),
        None => Err(StartupError::MissingCredential),
    }
}

/// The text of the `Authorization` header for `api_key`.
pub fn bearer_text(api_key: &str) -> (r: String)
    ensures
        r@ == bearer_of(api_key@),
{
    let mut s = String::from_str("Bearer ");
    s.append(api_key);
    s
}

/// The `Authorization` header value `Bearer <api_key>`, attached to every
/// request for the life of the client. A key holding a character that a
/// header cannot carry (a control character other than tab, or DEL) is
/// refused with `InvalidCredential` rather than ending the program.
pub fn authorization_header(api_key: &str) -> (r: Result<HeaderText, StartupError>)
    ensures
        r is Ok <==> header_text_ok(api_key@),
        r matches Ok(h) ==> h@ == bearer_of(api_key@),
        r is Err ==> r matches Err(StartupError::InvalidCredential),
{
    let text = bearer_text(api_key);
    proof {
        reveal_strlit("Bearer ");
        let p = "Bearer "@;
        let b = bearer_of(api_key@);
        assert(header_text_ok(p));
        assert forall|i: int| 0 <= i < api_key@.len() implies b[i + p.len()] == api_key@[i] by {}
        if header_text_ok(b) {
            assert forall|i: int| 0 <= i < api_key@.len() implies header_char_ok(
                #[trigger] api_key@[i],
            ) by {
                assert(header_char_ok(b[i + p.len()]));
            }
        }
    }
    match header_value(text.as_str()) {
        Ok(v) => Ok(v),
        Err(_) => Err(StartupError::InvalidCredential),
    }
}

} // verus!
