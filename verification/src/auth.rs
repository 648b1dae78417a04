//! The token codec: signed, time-bound identity tokens.

use crate::clock::{current_timestamp, MAX_TIMESTAMP};
use crate::jwt::{
    accepts_what_was_signed, error_kind, error_text, hs512_signed, hs512_verified, sign_hs512,
    signed_claims, signing_view, verified_view, verify_hs512, JwtErrorKind, RawClaims,
    RawClaimsView,
};
use vstd::prelude::*;
use vstd::string::*;

verus! {

/// Lifetime of an access token, in seconds: one hour.
pub const ACCESS_TTL: i64 = 3_600;

/// Lifetime of a refresh token, in seconds: seven days.
pub const REFRESH_TTL: i64 = 604_800;

/// The identity assertion that a token carries.
#[derive(Clone, Debug, PartialEq, Eq)]
pub struct Claims {
    /// Expiry, in seconds since the Unix epoch.
    pub exp: i64,
    /// Time of issue, in seconds since the Unix epoch.
    pub iat: i64,
    /// The user's identifier.
    pub id: i32,
    /// The user's e-mail address.
    pub email: String,
}

/// Mathematical content of a [`Claims`].
pub struct ClaimsView {
    pub exp: i64,
    pub iat: i64,
    pub id: i32,
    pub email: Seq<char>,
}

impl View for Claims {
    type V = ClaimsView;

    open spec fn view(&self) -> ClaimsView {
        ClaimsView { exp: self.exp, iat: self.iat, id: self.id, email: self.email@ }
    }
}

/// The codec, keyed by the shared secret.
#[derive(Clone, Debug)]
pub struct JSONWebToken {
    pub secret: String,
}

/// An access token and the refresh token issued with it.
#[derive(Clone, Debug, PartialEq, Eq)]
pub struct Token {
    pub token: String,
    pub refresh_token: String,
}

/// Mathematical content of a [`Token`].
pub struct TokenView {
    pub token: Seq<char>,
    pub refresh_token: Seq<char>,
}

impl View for Token {
    type V = TokenView;

    open spec fn view(&self) -> TokenView {
        TokenView { token: self.token@, refresh_token: self.refresh_token@ }
    }
}

/// Token issuance failed; `message` is the signing library's account of it.
#[derive(Clone, Debug, PartialEq, Eq)]
pub struct SigningError {
    pub message: String,
}

/// The ways in which a token fails to decode.
#[derive(Clone, Copy, Debug, PartialEq, Eq, Structural)]
pub enum TokenFault {
    /// Not three well-formed parts, or a payload without the expected claims.
    Malformed,
    /// The signature does not belong to the token under this secret.
    InvalidSignature,
    /// The token names another algorithm than HS512.
    InvalidAlgorithm,
    /// The expiry time has passed.
    Expired,
    /// Refused for another reason.
    Rejected,
}

/// One of the four members of the claims object.
#[derive(Clone, Copy, Debug, PartialEq, Eq, Structural)]
pub enum ClaimField {
    Exp,
    Iat,
    Id,
    Email,
}

/// A token was refused: why, and the text to report.
#[derive(Clone, Debug, PartialEq, Eq)]
pub struct DecodeError {
    pub fault: TokenFault,
    pub message: String,
}

/// Mathematical content of a [`DecodeError`].
pub struct DecodeErrorView {
    pub fault: TokenFault,
    pub message: Seq<char>,
}

impl View for DecodeError {
    type V = DecodeErrorView;

    open spec fn view(&self) -> DecodeErrorView {
        DecodeErrorView { fault: self.fault, message: self.message@ }
    }
}

/// The claims issued to `(id, email)` at `now` for `ttl` seconds.
pub open spec fn issued_claims(id: i32, email: Seq<char>, now: i64, ttl: i64) -> ClaimsView {
    ClaimsView { exp: (now + ttl) as i64, iat: now, id, email }
}

/// The token that signing `claims` under `secret` yields, or the signing
/// library's error text.
pub open spec fn signed(secret: Seq<char>, claims: ClaimsView) -> Result<Seq<char>, Seq<char>> {
    hs512_signed(secret, claims.exp, claims.iat, claims.id, claims.email)
}

/// What issuing a token pair to `(id, email)` at `now` under `secret` yields:
/// both tokens carry the same identity and time of issue and differ in their
/// lifetime; the first signing failure is reported.
pub open spec fn encode_outcome(secret: Seq<char>, id: i32, email: Seq<char>, now: i64) -> Result<
    TokenView,
    Seq<char>,
> {
    match signed(secret, issued_claims(id, email, now, ACCESS_TTL)) {
        Err(text) => Err(text),
        Ok(access) => match signed(secret, issued_claims(id, email, now, REFRESH_TTL)) {
            Err(text) => Err(text),
            Ok(refresh) => Ok(TokenView { token: access, refresh_token: refresh }),
        },
    }
}

/// The view of the result of an issuance.
pub open spec fn encode_view(r: Result<Token, SigningError>) -> Result<TokenView, Seq<char>> {
    match r {
        Ok(t) => Ok(t@),
        Err(e) => Err(e.message@),
    }
}

/// The view of the result of a decoding.
pub open spec fn decode_view(r: Result<Claims, DecodeError>) -> Result<ClaimsView, DecodeErrorView> {
    match r {
        Ok(c) => Ok(c@),
        Err(e) => Err(e@),
    }
}

/// The first member, in the order `exp`, `iat`, `id`, `email`, that a payload
/// lacks or holds with another type or range than the claims need.
pub open spec fn unusable_field(raw: RawClaimsView) -> Option<ClaimField> {
    if raw.exp is None {
        Some(ClaimField::Exp)
    } else if raw.iat is None {
        Some(ClaimField::Iat)
    } else if raw.id is None || raw.id->0 < i32::MIN || raw.id->0 > i32::MAX {
        Some(ClaimField::Id)
    } else if raw.email is None {
        Some(ClaimField::Email)
    } else {
        None
    }
}

/// The text that reports an unusable member.
pub open spec fn unusable_field_text(field: ClaimField) -> Seq<char> {
    match field {
        ClaimField::Exp => "JSON error: missing or invalid field `exp`"@,
        ClaimField::Iat => "JSON error: missing or invalid field `iat`"@,
        ClaimField::Id => "JSON error: missing or invalid field `id`"@,
        ClaimField::Email => "JSON error: missing or invalid field `email`"@,
    }
}

/// The claims that a payload holds, or the error for its first unusable
/// member.
pub open spec fn claims_of(raw: RawClaimsView) -> Result<ClaimsView, DecodeErrorView> {
    match unusable_field(raw) {
        Some(field) => Err(
            DecodeErrorView { fault: TokenFault::Malformed, message: unusable_field_text(field) },
        ),
        None => Ok(
            ClaimsView {
                exp: raw.exp->0,
                iat: raw.iat->0,
                id: raw.id->0 as i32,
                email: raw.email->0,
            },
        ),
    }
}

/// The text that reports an expired token.
pub open spec fn expired_text() -> Seq<char> {
    "ExpiredSignature"@
}

/// The error that reports an expired token.
pub open spec fn expired_error() -> DecodeErrorView {
    DecodeErrorView { fault: TokenFault::Expired, message: expired_text() }
}

/// Claims are in force at `now` while `now` has not gone past their expiry
/// time; there is no tolerance.
pub open spec fn in_force(claims: ClaimsView, now: i64) -> bool {
    now <= claims.exp
}

/// The fault that each refusal of the signing library amounts to.
pub open spec fn fault_of(kind: JwtErrorKind) -> TokenFault {
    match kind {
        JwtErrorKind::InvalidToken => TokenFault::Malformed,
        JwtErrorKind::Base64 => TokenFault::Malformed,
        JwtErrorKind::Json => TokenFault::Malformed,
        JwtErrorKind::Utf8 => TokenFault::Malformed,
        JwtErrorKind::MissingRequiredClaim => TokenFault::Malformed,
        JwtErrorKind::InvalidSignature => TokenFault::InvalidSignature,
        JwtErrorKind::InvalidAlgorithm => TokenFault::InvalidAlgorithm,
        JwtErrorKind::MissingAlgorithm => TokenFault::InvalidAlgorithm,
        JwtErrorKind::ExpiredSignature => TokenFault::Expired,
        JwtErrorKind::ImmatureSignature => TokenFault::Rejected,
        JwtErrorKind::InvalidAudience => TokenFault::Rejected,
        JwtErrorKind::Other => TokenFault::Rejected,
    }
}

/// What decoding yields at `now`, given what the signature check made of the
/// token: its refusal, mapped to a fault; else the error for the first
/// unusable member of the payload; else the expiry error when the claims are
/// no longer in force; else the claims.
pub open spec fn decode_outcome(
    verified: Result<RawClaimsView, (JwtErrorKind, Seq<char>)>,
    now: i64,
) -> Result<ClaimsView, DecodeErrorView> {
    match verified {
        Err((kind, text)) => Err(DecodeErrorView { fault: fault_of(kind), message: text }),
        Ok(raw) => match claims_of(raw) {
            Err(e) => Err(e),
            Ok(claims) => if in_force(claims, now) {
                Ok(claims)
            } else {
                Err(expired_error())
            },
        },
    }
}

/// Claims past their expiry time are refused with the expiry error, however
/// valid the signature of the token that carries them.
pub proof fn law_expired_claims_are_refused(
    verified: Result<RawClaimsView, (JwtErrorKind, Seq<char>)>,
    claims: ClaimsView,
    now: i64,
)
    requires
        verified matches Ok(raw) && claims_of(raw) == Ok::<ClaimsView, DecodeErrorView>(claims),
        claims.exp < now,
    ensures
        decode_outcome(verified, now) == Err::<ClaimsView, DecodeErrorView>(expired_error()),
        expired_error().fault == TokenFault::Expired,
{
}

/// Claims issued for a positive lifetime expire after they were issued, and
/// are in force at the time of issue.
pub proof fn law_issued_claims_are_in_force(id: i32, email: Seq<char>, now: i64, ttl: i64)
    requires
        0 < ttl,
        now + ttl <= i64::MAX,
    ensures
        issued_claims(id, email, now, ttl).exp > issued_claims(id, email, now, ttl).iat,
        in_force(issued_claims(id, email, now, ttl), now),
{
}

/// What a token that was signed from `claims` decodes to at `now`: the claims
/// while they are in force, the expiry error afterwards.
pub open spec fn decoding_of(claims: ClaimsView, now: i64) -> Result<ClaimsView, DecodeErrorView> {
    if in_force(claims, now) {
        Ok(claims)
    } else {
        Err(expired_error())
    }
}

/// What is known of `token` once its signature was checked under `secret`:
/// if that secret signed it, from claims with an expiry time that is not
/// before the epoch, the check accepts it with the members of those claims.
pub open spec fn signature_checked(secret: Seq<char>, token: Seq<char>) -> bool {
    accepts_what_was_signed(secret, token, hs512_verified(secret, token))
}

/// Whether `outcome` is what decoding `token` under `secret` at `now` owes:
/// the outcome decided from the signature check, which was run.
pub open spec fn decodes_to(
    secret: Seq<char>,
    token: Seq<char>,
    now: i64,
    outcome: Result<ClaimsView, DecodeErrorView>,
) -> bool {
    &&& outcome == decode_outcome(hs512_verified(secret, token), now)
    &&& signature_checked(secret, token)
}

/// Where the signature of `token` was checked under the secret that signed it
/// from `claims`, with an expiry time that is not before the epoch, the token
/// decodes to those claims while they are in force, and to the expiry error
/// afterwards.
pub proof fn lemma_signed_token_decodes(
    secret: Seq<char>,
    token: Seq<char>,
    claims: ClaimsView,
    now: i64,
)
    requires
        signature_checked(secret, token),
        signed(secret, claims) == Ok::<Seq<char>, Seq<char>>(token),
        claims.exp >= 0,
    ensures
        decode_outcome(hs512_verified(secret, token), now) == decoding_of(claims, now),
{
    let raw = signed_claims(claims.exp, claims.iat, claims.id, claims.email);
    assert(hs512_verified(secret, token) == Ok::<RawClaimsView, (JwtErrorKind, Seq<char>)>(raw));
    assert(claims_of(raw) == Ok::<ClaimsView, DecodeErrorView>(claims));
}

/// The identity that tokens are issued for is the identity that they decode
/// to: where issuing to `(id, email)` at `issued_at` succeeds and the
/// signatures of the two tokens are checked under the same secret, the access
/// token decodes, up to its expiry, to claims with this `id` and `email`, and
/// so does the refresh token up to its own; afterwards each decodes to the
/// expiry error. Expiry times before the epoch are left out: the signature
/// check refuses them.
pub proof fn law_issued_tokens_decode_to_their_identity(
    secret: Seq<char>,
    id: i32,
    email: Seq<char>,
    issued_at: i64,
    pair: TokenView,
    now: i64,
)
    requires
        encode_outcome(secret, id, email, issued_at) == Ok::<TokenView, Seq<char>>(pair),
        signature_checked(secret, pair.token),
        signature_checked(secret, pair.refresh_token),
        0 <= issued_at + ACCESS_TTL,
        issued_at + REFRESH_TTL <= i64::MAX,
    ensures
        decode_outcome(hs512_verified(secret, pair.token), now) == decoding_of(
            issued_claims(id, email, issued_at, ACCESS_TTL),
            now,
        ),
        decode_outcome(hs512_verified(secret, pair.refresh_token), now) == decoding_of(
            issued_claims(id, email, issued_at, REFRESH_TTL),
            now,
        ),
        now <= issued_at + ACCESS_TTL ==> (decode_outcome(
            hs512_verified(secret, pair.token),
            now,
        ) matches Ok(claims) && claims.id == id && claims.email == email),
        now <= issued_at + REFRESH_TTL ==> (decode_outcome(
            hs512_verified(secret, pair.refresh_token),
            now,
        ) matches Ok(claims) && claims.id == id && claims.email == email),
{
    lemma_signed_token_decodes(
        secret,
        pair.token,
        issued_claims(id, email, issued_at, ACCESS_TTL),
        now,
    );
    lemma_signed_token_decodes(
        secret,
        pair.refresh_token,
        issued_claims(id, email, issued_at, REFRESH_TTL),
        now,
    );
}

impl TokenFault {
    /// Maps a refusal of the signing library to a fault.
    pub fn from_kind(kind: JwtErrorKind) -> (fault: TokenFault)
        ensures
            fault == fault_of(kind),
    {
        match kind {
            JwtErrorKind::InvalidToken => TokenFault::Malformed,
            JwtErrorKind::Base64 => TokenFault::Malformed,
            JwtErrorKind::Json => TokenFault::Malformed,
            JwtErrorKind::Utf8 => TokenFault::Malformed,
            JwtErrorKind::MissingRequiredClaim => TokenFault::Malformed,
            JwtErrorKind::InvalidSignature => TokenFault::InvalidSignature,
            JwtErrorKind::InvalidAlgorithm => TokenFault::InvalidAlgorithm,
            JwtErrorKind::MissingAlgorithm => TokenFault::InvalidAlgorithm,
            JwtErrorKind::ExpiredSignature => TokenFault::Expired,
            JwtErrorKind::ImmatureSignature => TokenFault::Rejected,
            JwtErrorKind::InvalidAudience => TokenFault::Rejected,
            JwtErrorKind::Other => TokenFault::Rejected,
        }
    }
}

impl ClaimField {
    /// The text that reports this member as unusable.
    pub fn error_text(&self) -> (s: String)
        ensures
            s@ == unusable_field_text(*self),
    {
        match self {
            ClaimField::Exp => String::from_str("JSON error: missing or invalid field `exp`"),
            ClaimField::Iat => String::from_str("JSON error: missing or invalid field `iat`"),
            ClaimField::Id => String::from_str("JSON error: missing or invalid field `id`"),
            ClaimField::Email => String::from_str("JSON error: missing or invalid field `email`"),
        }
    }
}

impl DecodeError {
    /// The error for a payload whose member `field` is unusable.
    pub fn unusable(field: ClaimField) -> (e: DecodeError)
        ensures
            e@ == (DecodeErrorView {
                fault: TokenFault::Malformed,
                message: unusable_field_text(field),
            }),
    {
        DecodeError { fault: TokenFault::Malformed, message: field.error_text() }
    }

    /// The error for a token past its expiry time.
    pub fn expired() -> (e: DecodeError)
        ensures
            e@ == expired_error(),
    {
        DecodeError { fault: TokenFault::Expired, message: String::from_str("ExpiredSignature") }
    }

    /// The text to report.
    pub fn to_string(&self) -> (s: String)
        ensures
            s@ == self.message@,
    {
        self.message.clone()
    }
}

impl SigningError {
    /// The text to report.
    pub fn to_string(&self) -> (s: String)
        ensures
            s@ == self.message@,
    {
        self.message.clone()
    }
}

impl Claims {
    /// Builds the claims issued to `(id, email)` at `now` for `ttl` seconds.
    pub fn issue(id: i32, email: String, now: i64, ttl: i64) -> (claims: Claims)
        requires
            i64::MIN <= now + ttl <= i64::MAX,
        ensures
            claims@ == issued_claims(id, email@, now, ttl),
            ttl > 0 ==> claims.exp > claims.iat,
    {
        Claims { exp: now + ttl, iat: now, id, email }
    }

    /// Reads the claims out of the members of a verified payload.
    pub fn from_raw(raw: RawClaims) -> (r: Result<Claims, DecodeError>)
        ensures
            decode_view(r) == claims_of(raw@),
    {
        let exp = match raw.exp {
            Some(exp) => exp,
            None => { return Err(DecodeError::unusable(ClaimField::Exp)); },
        };
        let iat = match raw.iat {
            Some(iat) => iat,
            None => { return Err(DecodeError::unusable(ClaimField::Iat)); },
        };
        let id: i32 = match raw.id {
            Some(id) => {
                if id < -2_147_483_648 || id > 2_147_483_647 {
                    return Err(DecodeError::unusable(ClaimField::Id));
                }
                id as i32
            },
            None => { return Err(DecodeError::unusable(ClaimField::Id)); },
        };
        let email = match raw.email {
            Some(email) => email,
            None => { return Err(DecodeError::unusable(ClaimField::Email)); },
        };
        Ok(Claims { exp, iat, id, email })
    }

    /// Whether the claims are still in force at `now`.
    pub fn in_force(&self, now: i64) -> (b: bool)
        ensures
            b == in_force(self@, now),
    {
        now <= self.exp
    }
}

impl Token {
    /// Joins the outcomes of the two signings into a token pair; the first
    /// failure is reported.
    pub fn from_signed(
        access: Result<String, jsonwebtoken::errors::Error>,
        refresh: Result<String, jsonwebtoken::errors::Error>,
    ) -> (r: Result<Token, SigningError>)
        ensures
            encode_view(r) == match signing_view(access) {
                Err(text) => Err::<TokenView, Seq<char>>(text),
                Ok(a) => match signing_view(refresh) {
                    Err(text) => Err(text),
                    Ok(f) => Ok(TokenView { token: a, refresh_token: f }),
                },
            },
    {
        match access {
            Err(e) => Err(SigningError { message: error_text(&e) }),
            Ok(token) => match refresh {
                Err(e) => Err(SigningError { message: error_text(&e) }),
                Ok(refresh_token) => Ok(Token { token, refresh_token }),
            },
        }
    }
}

/// Decides what decoding returns at `now`, from what the signature check made
/// of the token.
pub fn decode_verified(verified: Result<RawClaims, jsonwebtoken::errors::Error>, now: i64) -> (r:
    Result<Claims, DecodeError>)
    ensures
        decode_view(r) == decode_outcome(verified_view(verified), now),
{
    match verified {
        Err(e) => Err(
            DecodeError { fault: TokenFault::from_kind(error_kind(&e)), message: error_text(&e) },
        ),
        Ok(raw) => {
            let claims = Claims::from_raw(raw)?;
            if claims.in_force(now) {
                Ok(claims)
            } else {
                Err(DecodeError::expired())
            }
        },
    }
}

impl JSONWebToken {
    /// A codec keyed by `secret`.
    pub fn new(secret: String) -> (jwt: JSONWebToken)
        ensures
            jwt.secret@ == secret@,
    {
        JSONWebToken { secret }
    }

    /// Signs `claims` under the secret.
    pub fn sign(&self, claims: &Claims) -> (r: Result<String, jsonwebtoken::errors::Error>)
        ensures
            signing_view(r) == signed(self.secret@, claims@),
    {
        sign_hs512(self.secret.as_str(), claims.exp, claims.iat, claims.id, claims.email.as_str())
    }

    /// Issues an access token and a refresh token to `(id, email)` at the
    /// time `now`.
    pub fn encode_at(&self, id: i32, email: String, now: i64) -> (r: Result<Token, SigningError>)
        requires
            now + REFRESH_TTL <= i64::MAX,
        ensures
            encode_view(r) == encode_outcome(self.secret@, id, email@, now),
    {
        let access_claims = Claims::issue(id, email.clone(), now, ACCESS_TTL);
        let access = self.sign(&access_claims);
        let refresh_claims = Claims::issue(id, email, now, REFRESH_TTL);
        let refresh = self.sign(&refresh_claims);
        Token::from_signed(access, refresh)
    }

    /// Issues an access token and a refresh token to `(id, email)` at the
    /// present time.
    pub fn encode(&self, id: i32, email: String) -> (r: Result<Token, SigningError>)
        ensures
            exists|now: i64|
                0 <= now <= MAX_TIMESTAMP && encode_view(r) == #[trigger] encode_outcome(
                    self.secret@,
                    id,
                    email@,
                    now,
                ),
    {
        let now = current_timestamp();
        self.encode_at(id, email, now)
    }

    /// Decodes `jwt` as of the time `now`.
    pub fn decode_at(&self, jwt: String, now: i64) -> (r: Result<Claims, DecodeError>)
        ensures
            decodes_to(self.secret@, jwt@, now, decode_view(r)),
    {
        let verified = verify_hs512(self.secret.as_str(), jwt.as_str());
        decode_verified(verified, now)
    }

    /// Decodes `jwt` as of the present time.
    pub fn decode(&self, jwt: String) -> (r: Result<Claims, DecodeError>)
        ensures
            exists|now: i64|
                0 <= now <= MAX_TIMESTAMP && #[trigger] decodes_to(
                    self.secret@,
                    jwt@,
                    now,
                    decode_view(r),
                ),
    {
        let now = current_timestamp();
        self.decode_at(jwt, now)
    }
}

} // verus!
