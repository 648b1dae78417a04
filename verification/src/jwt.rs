//! The boundary to the signing library: what the token codec takes on trust
//! from it.

use jsonwebtoken::errors::ErrorKind;
use jsonwebtoken::{Algorithm, DecodingKey, EncodingKey, Header, Validation};
use serde_json::Value;
use vstd::prelude::*;

verus! {

/// The signing library's error value, carried through unopened.
#[verifier::external_type_specification]
#[verifier::external_body]
pub struct ExJwtError(jsonwebtoken::errors::Error);

/// Why the signing library refused a token or a signing request.
#[derive(Clone, Copy, Debug, PartialEq, Eq, Structural)]
pub enum JwtErrorKind {
    InvalidToken,
    InvalidSignature,
    InvalidAlgorithm,
    MissingAlgorithm,
    MissingRequiredClaim,
    ExpiredSignature,
    ImmatureSignature,
    InvalidAudience,
    Base64,
    Json,
    Utf8,
    Other,
}

/// The claim members of a verified payload, each as far as it is present
/// with the expected JSON type.
#[derive(Clone, Debug)]
pub struct RawClaims {
    pub exp: Option<i64>,
    pub iat: Option<i64>,
    pub id: Option<i64>,
    pub email: Option<String>,
}

/// Mathematical content of a [`RawClaims`].
pub struct RawClaimsView {
    pub exp: Option<i64>,
    pub iat: Option<i64>,
    pub id: Option<i64>,
    pub email: Option<Seq<char>>,
}

impl View for RawClaims {
    type V = RawClaimsView;

    open spec fn view(&self) -> RawClaimsView {
        RawClaimsView {
            exp: self.exp,
            iat: self.iat,
            id: self.id,
            email: match self.email {
                Some(e) => Some(e@),
                None => None,
            },
        }
    }
}

/// The claim members that a payload signed from these four values holds.
pub open spec fn signed_claims(exp: i64, iat: i64, id: i32, email: Seq<char>) -> RawClaimsView {
    RawClaimsView { exp: Some(exp), iat: Some(iat), id: Some(id as i64), email: Some(email) }
}

/// What `jsonwebtoken::encode` makes of the claims object
/// `{exp, iat, id, email}` with an HS512 header under `secret`: the compact
/// token, or the display text of the error it reports.
pub uninterp spec fn hs512_signed(secret: Seq<char>, exp: i64, iat: i64, id: i32, email: Seq<char>) -> Result<Seq<char>, Seq<char>>;

/// What `jsonwebtoken::decode` makes of `token` under `secret`, asked for
/// HS512 and with its own expiry test switched off: the claim members of the
/// payload, or the kind and display text of the error it reports.
pub uninterp spec fn hs512_verified(secret: Seq<char>, token: Seq<char>) -> Result<RawClaimsView, (JwtErrorKind, Seq<char>)>;

/// The variant of `jsonwebtoken::errors::ErrorKind` that an error holds.
pub uninterp spec fn jwt_error_kind(e: jsonwebtoken::errors::Error) -> JwtErrorKind;

/// The text that an error of the signing library displays.
pub uninterp spec fn jwt_error_text(e: jsonwebtoken::errors::Error) -> Seq<char>;

/// The view of what a signing returned: the token, or the error's text.
pub open spec fn signing_view(r: Result<String, jsonwebtoken::errors::Error>) -> Result<
    Seq<char>,
    Seq<char>,
> {
    match r {
        Ok(token) => Ok(token@),
        Err(e) => Err(jwt_error_text(e)),
    }
}

/// The view of what a signature check returned: the claim members, or the
/// error's kind and text.
pub open spec fn verified_view(r: Result<RawClaims, jsonwebtoken::errors::Error>) -> Result<
    RawClaimsView,
    (JwtErrorKind, Seq<char>),
> {
    match r {
        Ok(raw) => Ok(raw@),
        Err(e) => Err((jwt_error_kind(e), jwt_error_text(e))),
    }
}

/// Whether `verified` is what checking `token` under `secret` must return if
/// that secret signed the token: whenever `token` is the signing of four
/// values with a non-negative `exp`, it is accepted with those four values.
pub open spec fn accepts_what_was_signed(
    secret: Seq<char>,
    token: Seq<char>,
    verified: Result<RawClaimsView, (JwtErrorKind, Seq<char>)>,
) -> bool {
    forall|exp: i64, iat: i64, id: i32, email: Seq<char>|
        exp >= 0 && #[trigger] hs512_signed(secret, exp, iat, id, email) == Ok::<
            Seq<char>,
            Seq<char>,
        >(token) ==> verified == Ok::<RawClaimsView, (JwtErrorKind, Seq<char>)>(
            signed_claims(exp, iat, id, email),
        )
}

/// Signs the claims object `{exp, iat, id, email}`, its members in this
/// order, with HMAC-SHA-512 under `secret` by `jsonwebtoken::encode`. The
/// contract only names the outcome: token or error, it is a function of the
/// five arguments.
#[verifier::external_body]
pub(crate) fn sign_hs512(secret: &str, exp: i64, iat: i64, id: i32, email: &str) -> (r: Result<
    String,
    jsonwebtoken::errors::Error,
>)
    ensures
        signing_view(r) == hs512_signed(secret@, exp, iat, id, email@),
{
    let mut claims = serde_json::Map::new();
    claims.insert("exp".to_owned(), Value::from(exp));
    claims.insert("iat".to_owned(), Value::from(iat));
    claims.insert("id".to_owned(), Value::from(id));
    claims.insert("email".to_owned(), Value::from(email));
    let key = EncodingKey::from_secret(secret.as_bytes());
    let header = Header::new(Algorithm::HS512);
    jsonwebtoken::encode(&header, &Value::Object(claims), &key)
}

/// Checks `token` under `secret` by `jsonwebtoken::decode`, with a validation
/// that admits HS512 alone, requires an `exp` claim and leaves the comparison
/// of `exp` with the clock to the caller; then picks the four claim members
/// out of the payload, each `None` unless present as an integer that fits
/// `i64` (`exp`, `iat`, `id`) or as a string (`email`).
///
/// Taken on trust, besides the naming of the outcome: a token that
/// [`sign_hs512`] made under the same secret from a non-negative `exp` is
/// accepted, and its payload holds the four values it was signed from. For
/// `decode` splits the token at its dots, signs header and payload again with
/// the key and compares the two signatures, reads the payload back as the
/// JSON that `encode` wrote, and refuses an `exp` that does not read as an
/// unsigned number as a missing claim.
#[verifier::external_body]
pub(crate) fn verify_hs512(secret: &str, token: &str) -> (r: Result<
    RawClaims,
    jsonwebtoken::errors::Error,
>)
    ensures
        verified_view(r) == hs512_verified(secret@, token@),
        accepts_what_was_signed(secret@, token@, verified_view(r)),
{
    let mut validation = Validation::new(Algorithm::HS512);
    validation.validate_exp = false;
    let key = DecodingKey::from_secret(secret.as_bytes());
    let claims = jsonwebtoken::decode::<Value>(token, &key, &validation)?.claims;
    Ok(RawClaims {
        exp: claims.get("exp").and_then(Value::as_i64),
        iat: claims.get("iat").and_then(Value::as_i64),
        id: claims.get("id").and_then(Value::as_i64),
        email: claims.get("email").and_then(Value::as_str).map(str::to_owned),
    })
}

/// Tells the variants of `jsonwebtoken::errors::ErrorKind` apart.
#[verifier::external_body]
pub(crate) fn error_kind(e: &jsonwebtoken::errors::Error) -> (k: JwtErrorKind)
    ensures
        k == jwt_error_kind(*e),
{
    match e.kind() {
        ErrorKind::InvalidToken => JwtErrorKind::InvalidToken,
        ErrorKind::InvalidSignature => JwtErrorKind::InvalidSignature,
        ErrorKind::InvalidAlgorithm => JwtErrorKind::InvalidAlgorithm,
        ErrorKind::MissingAlgorithm => JwtErrorKind::MissingAlgorithm,
        ErrorKind::MissingRequiredClaim(_) => JwtErrorKind::MissingRequiredClaim,
        ErrorKind::ExpiredSignature => JwtErrorKind::ExpiredSignature,
        ErrorKind::ImmatureSignature => JwtErrorKind::ImmatureSignature,
        ErrorKind::InvalidAudience => JwtErrorKind::InvalidAudience,
        ErrorKind::Base64(_) => JwtErrorKind::Base64,
        ErrorKind::Json(_) => JwtErrorKind::Json,
        ErrorKind::Utf8(_) => JwtErrorKind::Utf8,
        _ => JwtErrorKind::Other,
    }
}

/// The display text of an error of the signing library.
#[verifier::external_body]
pub(crate) fn error_text(e: &jsonwebtoken::errors::Error) -> (s: String)
    ensures
        s@ == jwt_error_text(*e),
{
    e.to_string()
}

} // verus!
