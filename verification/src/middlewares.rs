//! Authentication of requests: from the `Authorization` header of a request to
//! the claims of its bearer, or to the reason for turning it away.

use crate::auth::{
    decode_outcome, signature_checked, Claims, ClaimsView, DecodeError, DecodeErrorView,
    JSONWebToken,
};
use crate::clock::{current_timestamp, MAX_TIMESTAMP};
use crate::json::{json_message, message_body};
use crate::jwt::hs512_verified;
use crate::text::{ascii_chars, is_ascii_bytes, text_of_bytes};
use vstd::prelude::*;
use vstd::string::*;

verus! {

/// Why a request was turned away.
#[derive(Clone, Debug, PartialEq, Eq)]
pub enum AuthenticationError {
    /// The request has no `Authorization` header.
    MissingToken,
    /// The header is not made of visible ASCII characters.
    InvalidTokenFormat,
    /// The token did not decode.
    InvalidToken(DecodeError),
}

/// Mathematical content of an [`AuthenticationError`].
pub enum AuthenticationErrorView {
    MissingToken,
    InvalidTokenFormat,
    InvalidToken(DecodeErrorView),
}

impl View for AuthenticationError {
    type V = AuthenticationErrorView;

    open spec fn view(&self) -> AuthenticationErrorView {
        match self {
            AuthenticationError::MissingToken => AuthenticationErrorView::MissingToken,
            AuthenticationError::InvalidTokenFormat => AuthenticationErrorView::InvalidTokenFormat,
            AuthenticationError::InvalidToken(e) => AuthenticationErrorView::InvalidToken(e@),
        }
    }
}

/// The response that reports a refusal.
#[derive(Clone, Debug, PartialEq, Eq)]
pub struct ErrorResponse {
    /// The HTTP status code.
    pub status: u16,
    /// The media type of the body.
    pub content_type: String,
    /// The body: a JSON object with the one member `message`.
    pub body: String,
}

/// A byte that a header value shows as text: a printable ASCII character, a
/// space or a tab.
pub open spec fn is_visible_ascii(b: u8) -> bool {
    32 <= b < 127 || b == 9
}

/// The text of a header value: its bytes as characters, where all of them
/// are visible ASCII.
pub open spec fn header_text(bytes: Seq<u8>) -> Option<Seq<char>> {
    if forall|i: int| 0 <= i < bytes.len() ==> is_visible_ascii(#[trigger] bytes[i]) {
        Some(ascii_chars(bytes))
    } else {
        None
    }
}

/// The word that introduces a bearer token, with the space after it.
pub open spec fn bearer_prefix() -> Seq<char> {
    "Bearer "@
}

/// The token in the text of a header: what follows the prefix `"Bearer "`,
/// or the whole text where it does not start so.
pub open spec fn bearer_token(header: Seq<char>) -> Seq<char> {
    if bearer_prefix().is_prefix_of(header) {
        header.skip(bearer_prefix().len() as int)
    } else {
        header
    }
}

/// What authentication decides at `now` for a request with this `Authorization`
/// header, under `secret`.
pub open spec fn authentication_outcome(
    header: Option<Seq<u8>>,
    secret: Seq<char>,
    now: i64,
) -> Result<ClaimsView, AuthenticationErrorView> {
    match header {
        None => Err(AuthenticationErrorView::MissingToken),
        Some(bytes) => match header_text(bytes) {
            None => Err(AuthenticationErrorView::InvalidTokenFormat),
            Some(text) => match decode_outcome(hs512_verified(secret, bearer_token(text)), now) {
                Ok(claims) => Ok(claims),
                Err(e) => Err(AuthenticationErrorView::InvalidToken(e)),
            },
        },
    }
}

/// Whether `outcome` is what authenticating a request with this header at
/// `now` owes: the decision, and the signature check on the token of a header
/// that is text.
pub open spec fn authenticates_to(
    header: Option<Seq<u8>>,
    secret: Seq<char>,
    now: i64,
    outcome: Result<ClaimsView, AuthenticationErrorView>,
) -> bool {
    &&& outcome == authentication_outcome(header, secret, now)
    &&& header matches Some(bytes) ==> (header_text(bytes) matches Some(text)
        ==> signature_checked(secret, bearer_token(text)))
}

/// The bytes of a header value, where the request has the header.
pub open spec fn header_view(header: Option<Vec<u8>>) -> Option<Seq<u8>> {
    match header {
        Some(bytes) => Some(bytes@),
        None => None,
    }
}

/// The view of a decision on a request.
pub open spec fn authentication_view(r: Result<Claims, AuthenticationError>) -> Result<
    ClaimsView,
    AuthenticationErrorView,
> {
    match r {
        Ok(claims) => Ok(claims@),
        Err(e) => Err(e@),
    }
}

/// The status code that answers each refusal: 400 for a header that is no
/// text, 401 for a missing or invalid token.
pub open spec fn status_of(e: AuthenticationErrorView) -> u16 {
    match e {
        AuthenticationErrorView::MissingToken => 401,
        AuthenticationErrorView::InvalidTokenFormat => 400,
        AuthenticationErrorView::InvalidToken(_) => 401,
    }
}

/// The message that reports each refusal.
pub open spec fn message_of(e: AuthenticationErrorView) -> Seq<char> {
    match e {
        AuthenticationErrorView::MissingToken => "Missing authentication token"@,
        AuthenticationErrorView::InvalidTokenFormat =>
            "Invalid token format: an error occurred when formatting an argument"@,
        AuthenticationErrorView::InvalidToken(e) => "Invalid token: "@ + e.message,
    }
}

impl AuthenticationError {
    /// The HTTP status code of the response that reports this refusal.
    pub fn status_code(&self) -> (code: u16)
        ensures
            code == status_of(self@),
    {
        match self {
            AuthenticationError::MissingToken => 401,
            AuthenticationError::InvalidTokenFormat => 400,
            AuthenticationError::InvalidToken(_) => 401,
        }
    }

    /// The message of the response that reports this refusal.
    pub fn to_string(&self) -> (message: String)
        ensures
            message@ == message_of(self@),
    {
        match self {
            AuthenticationError::MissingToken => String::from_str("Missing authentication token"),
            AuthenticationError::InvalidTokenFormat => String::from_str(
                "Invalid token format: an error occurred when formatting an argument",
            ),
            AuthenticationError::InvalidToken(e) => {
                let mut message = String::from_str("Invalid token: ");
                message.append(e.message.as_str());
                message
            },
        }
    }
}

impl AuthenticationError {
    /// The response that reports this refusal: its status code, and its
    /// message as a JSON body.
    pub fn error_response(&self) -> (response: ErrorResponse)
        ensures
            response.status == status_of(self@),
            response.content_type@ == "application/json"@,
            response.body@ == json_message(message_of(self@)),
    {
        let message = self.to_string();
        ErrorResponse {
            status: self.status_code(),
            content_type: String::from_str("application/json"),
            body: message_body(message.as_str()),
        }
    }
}

/// Reads the value of a header as text.
pub fn read_header_text(bytes: Vec<u8>) -> (text: Option<String>)
    ensures
        match text {
            Some(t) => header_text(bytes@) == Some(t@),
            None => header_text(bytes@) is None,
        },
{
    let mut i: usize = 0;
    while i < bytes.len()
        invariant
            i <= bytes.len(),
            forall|k: int| 0 <= k < i ==> is_visible_ascii(#[trigger] bytes[k]),
        decreases bytes.len() - i,
    {
        let b = bytes[i];
        if !(b >= 32 && b < 127 || b == 9) {
            return None;
        }
        i = i + 1;
    }
    assert(is_ascii_bytes(bytes@));
    text_of_bytes(bytes)
}

/// Takes the token out of the text of an `Authorization` header.
pub fn strip_bearer(header: &str) -> (token: String)
    ensures
        token@ == bearer_token(header@),
{
    proof {
        reveal_strlit("Bearer ");
    }
    let prefix = "Bearer ";
    let len = header.unicode_len();
    if len < 7 {
        return String::from_str(header);
    }
    let mut i: usize = 0;
    while i < 7
        invariant
            i <= 7,
            7 <= len,
            len == header@.len(),
            prefix@ == bearer_prefix(),
            prefix@.len() == 7,
            forall|k: int| 0 <= k < i ==> header@[k] == #[trigger] prefix@[k],
        decreases 7 - i,
    {
        if header.get_char(i) != prefix.get_char(i) {
            assert(!bearer_prefix().is_prefix_of(header@)) by {
                if bearer_prefix().is_prefix_of(header@) {
                    assert(header@.subrange(0, 7)[i as int] == prefix@[i as int]);
                }
            }
            return String::from_str(header);
        }
        i = i + 1;
    }
    assert(bearer_prefix().is_prefix_of(header@)) by {
        assert(header@.subrange(0, 7) =~= bearer_prefix());
    }
    let rest = header.substring_char(7, len);
    assert(rest@ =~= header@.skip(7));
    String::from_str(rest)
}

/// Decides at `now` whether a request with this `Authorization` header
/// is authenticated under `jwt`: with its claims if it is.
pub fn authenticate_at(header: Option<Vec<u8>>, jwt: &JSONWebToken, now: i64) -> (r: Result<
    Claims,
    AuthenticationError,
>)
    ensures
        authenticates_to(header_view(header), jwt.secret@, now, authentication_view(r)),
{
    let bytes = match header {
        Some(bytes) => bytes,
        None => { return Err(AuthenticationError::MissingToken); },
    };
    let text = match read_header_text(bytes) {
        Some(text) => text,
        None => { return Err(AuthenticationError::InvalidTokenFormat); },
    };
    let token = strip_bearer(text.as_str());
    match jwt.decode_at(token, now) {
        Ok(claims) => Ok(claims),
        Err(e) => Err(AuthenticationError::InvalidToken(e)),
    }
}

/// Decides at the present time whether a request with this `Authorization`
/// header is authenticated under `jwt`.
pub fn authenticate(header: Option<Vec<u8>>, jwt: &JSONWebToken) -> (r: Result<
    Claims,
    AuthenticationError,
>)
    ensures
        exists|now: i64|
            0 <= now <= MAX_TIMESTAMP && #[trigger] authenticates_to(
                header_view(header),
                jwt.secret@,
                now,
                authentication_view(r),
            ),
{
    let now = current_timestamp();
    authenticate_at(header, jwt, now)
}

} // verus!
