//! What each endpoint answers, decided from what the request holds and what
//! the store returned. The store itself is the caller's business.

use crate::auth::{
    claims_of, decode_outcome, encode_outcome, expired_text, signature_checked, ClaimsView,
    DecodeErrorView, JSONWebToken, Token, TokenView, REFRESH_TTL,
};
use crate::clock::{current_datetime, current_timestamp, MAX_TIMESTAMP};
use crate::jwt::hs512_verified;
use crate::models::{
    ApiResponse, HomeResponse, LoginResponse, RefreshToken, User, UserFields, UserRequest,
};
use crate::pagination::{describes, page_size_of, PageEnvelope, Pagination};
use crate::serializers::{clone_text, serialized, UserSerializer};
use crate::text::{decimal, i32_to_decimal, signed_decimal, u64_to_decimal};
use vstd::prelude::*;
use vstd::string::*;

verus! {

/// The answer of an endpoint: its body under the status it is sent with.
#[derive(Clone, Debug, PartialEq)]
pub enum Reply<T> {
    /// 200, with the body asked for.
    Success(T),
    /// 400, with a message.
    BadRequest(ApiResponse),
    /// 404, with a message.
    NotFound(ApiResponse),
    /// 500, with a message.
    InternalServerError(ApiResponse),
}

/// Mathematical content of a [`Reply`]: the body, or the message as text.
pub enum ReplyView<T> {
    Success(T),
    BadRequest(Seq<char>),
    NotFound(Seq<char>),
    InternalServerError(Seq<char>),
}

/// The view of a reply whose body is taken as it is.
pub open spec fn reply_view<T>(r: Reply<T>) -> ReplyView<T> {
    match r {
        Reply::Success(body) => ReplyView::Success(body),
        Reply::BadRequest(b) => ReplyView::BadRequest(b.message@),
        Reply::NotFound(b) => ReplyView::NotFound(b.message@),
        Reply::InternalServerError(b) => ReplyView::InternalServerError(b.message@),
    }
}

/// The view of a step that either goes on with a user or ends in a reply.
pub open spec fn step_view<T>(r: Result<User, Reply<T>>) -> Result<User, ReplyView<T>> {
    match r {
        Ok(user) => Ok(user),
        Err(reply) => Err(reply_view(reply)),
    }
}

/// The view of a reply that holds a token pair.
pub open spec fn token_reply_view(r: Reply<Token>) -> ReplyView<TokenView> {
    match r {
        Reply::Success(pair) => ReplyView::Success(pair@),
        Reply::BadRequest(b) => ReplyView::BadRequest(b.message@),
        Reply::NotFound(b) => ReplyView::NotFound(b.message@),
        Reply::InternalServerError(b) => ReplyView::InternalServerError(b.message@),
    }
}

/// The view of the reply to a login.
pub open spec fn login_reply_view(r: Reply<LoginResponse>) -> ReplyView<TokenView> {
    match r {
        Reply::Success(body) => ReplyView::Success(
            TokenView { token: body.token@, refresh_token: body.refresh_token@ },
        ),
        Reply::BadRequest(b) => ReplyView::BadRequest(b.message@),
        Reply::NotFound(b) => ReplyView::NotFound(b.message@),
        Reply::InternalServerError(b) => ReplyView::InternalServerError(b.message@),
    }
}

/// The status code of each kind of reply.
pub open spec fn status_of<T>(r: Reply<T>) -> u16 {
    match r {
        Reply::Success(_) => 200,
        Reply::BadRequest(_) => 400,
        Reply::NotFound(_) => 404,
        Reply::InternalServerError(_) => 500,
    }
}

/// The message for a user that the store does not hold.
pub open spec fn missing_user_text(user_id: i32) -> Seq<char> {
    "User with ID `"@ + signed_decimal(user_id as int) + "`, does not exist"@
}

/// The message for a login that matches no user.
pub open spec fn unknown_login_text(username: Seq<char>) -> Seq<char> {
    "User '"@ + username + "' not found"@
}

/// The message that confirms a deletion of `rows` rows.
pub open spec fn deleted_text(rows: u64, user_id: i32) -> Seq<char> {
    "Deleted "@ + decimal(rows as nat) + " user with Id "@ + signed_decimal(user_id as int)
}

/// The greeting for `name`.
pub open spec fn greeting_text(name: Seq<char>) -> Seq<char> {
    "Hello "@ + name + "!"@
}

/// The first of two optional values that is there.
pub open spec fn or_else<T>(first: Option<T>, second: Option<T>) -> Option<T> {
    if first is Some {
        first
    } else {
        second
    }
}

/// The columns of `user` after a partial update at `now`: each text and flag
/// that the request names replaces the stored one, the others stay; the time
/// of the update is recorded.
pub open spec fn patched(
    user: UserFields,
    payload: UserRequest,
    now: chrono::NaiveDateTime,
) -> UserFields {
    UserFields {
        username: or_else(payload.username, user.username),
        firstname: or_else(payload.firstname, user.firstname),
        lastname: or_else(payload.lastname, user.lastname),
        email: or_else(payload.email, user.email),
        password: or_else(payload.password, user.password),
        is_active: or_else(payload.is_active, user.is_active),
        last_login: user.last_login,
        date_joined: user.date_joined,
        created_at: user.created_at,
        updated_at: Some(now),
        is_admin: or_else(payload.is_admin, user.is_admin),
        is_superadmin: or_else(payload.is_superadmin, user.is_superadmin),
    }
}

/// The columns of `user` after a full update at `now`: every text and flag is
/// what the request holds, also where it holds none; the time of the update
/// is recorded.
pub open spec fn replaced(
    user: UserFields,
    payload: UserRequest,
    now: chrono::NaiveDateTime,
) -> UserFields {
    UserFields {
        username: payload.username,
        firstname: payload.firstname,
        lastname: payload.lastname,
        email: payload.email,
        password: payload.password,
        is_active: payload.is_active,
        last_login: user.last_login,
        date_joined: user.date_joined,
        created_at: user.created_at,
        updated_at: Some(now),
        is_admin: payload.is_admin,
        is_superadmin: payload.is_superadmin,
    }
}

/// What a lookup by identifier leads to: the user, or the reply that ends
/// the request, 404 where there is no such user and 400 where the store
/// failed.
pub open spec fn lookup_outcome<T>(user_id: i32, found: Result<Option<User>, String>) -> Result<
    User,
    ReplyView<T>,
> {
    match found {
        Ok(Some(user)) => Ok(user),
        Ok(None) => Err(ReplyView::NotFound(missing_user_text(user_id))),
        Err(e) => Err(ReplyView::BadRequest(e@)),
    }
}

/// What a partial update leads to after the lookup: the user to store, or
/// the reply that ends the request.
pub open spec fn update_outcome(
    user_id: i32,
    payload: UserRequest,
    found: Result<Option<User>, String>,
    now: chrono::NaiveDateTime,
) -> Result<User, ReplyView<User>> {
    match lookup_outcome::<User>(user_id, found) {
        Ok(user) => Ok(User { id: user.id, fields: patched(user.fields, payload, now) }),
        Err(reply) => Err(reply),
    }
}

/// What a full update leads to after the lookup: the user to store, or the
/// reply that ends the request.
pub open spec fn update_full_outcome(
    user_id: i32,
    payload: UserRequest,
    found: Result<Option<User>, String>,
    now: chrono::NaiveDateTime,
) -> Result<User, ReplyView<User>> {
    match lookup_outcome::<User>(user_id, found) {
        Ok(user) => Ok(User { id: user.id, fields: replaced(user.fields, payload, now) }),
        Err(reply) => Err(reply),
    }
}

/// What a request for new tokens is answered with at `now`: 400 with the
/// decoding error's text where the token does not decode, else a new pair
/// for the identity in its claims, or 500 where signing fails.
pub open spec fn refresh_outcome(secret: Seq<char>, token: Seq<char>, now: i64) -> ReplyView<
    TokenView,
> {
    match decode_outcome(hs512_verified(secret, token), now) {
        Err(e) => ReplyView::BadRequest(e.message),
        Ok(claims) => match encode_outcome(secret, claims.id, claims.email, now) {
            Ok(pair) => ReplyView::Success(pair),
            Err(text) => ReplyView::InternalServerError(text),
        },
    }
}

/// Whether `reply` is what a request for new tokens is owed at `now`: the
/// answer decided from the signature check on the token it presents, which
/// was run.
pub open spec fn refreshes_to(
    secret: Seq<char>,
    token: Seq<char>,
    now: i64,
    reply: ReplyView<TokenView>,
) -> bool {
    &&& reply == refresh_outcome(secret, token, now)
    &&& signature_checked(secret, token)
}

/// What a login is answered with at `now`, given what the store found for
/// the name and password: 400 where the store failed, 404 where it found no
/// user, else a token pair for the user, or 500 where signing fails.
pub open spec fn login_outcome(
    username: Seq<char>,
    found: Result<Option<User>, String>,
    secret: Seq<char>,
    now: i64,
) -> ReplyView<TokenView>
    recommends
        found matches Ok(Some(user)) ==> user.fields.email is Some,
{
    match found {
        Err(e) => ReplyView::BadRequest(e@),
        Ok(None) => ReplyView::NotFound(unknown_login_text(username)),
        Ok(Some(user)) => match encode_outcome(secret, user.id, user.fields.email->0@, now) {
            Ok(pair) => ReplyView::Success(pair),
            Err(text) => ReplyView::InternalServerError(text),
        },
    }
}

/// A request for new tokens that presents claims past their expiry time is
/// answered with 400 and the expiry text, not with a new pair.
pub proof fn law_refresh_refuses_expired(
    secret: Seq<char>,
    token: Seq<char>,
    claims: ClaimsView,
    now: i64,
)
    requires
        hs512_verified(secret, token) matches Ok(raw) && claims_of(raw) == Ok::<
            ClaimsView,
            DecodeErrorView,
        >(claims),
        claims.exp < now,
    ensures
        refresh_outcome(secret, token, now) == ReplyView::<TokenView>::BadRequest(expired_text()),
{
}

/// New tokens are handed out only for a token that decodes: every other
/// request is answered with 400 and the text of the decoding error.
pub proof fn law_refresh_requires_a_valid_token(secret: Seq<char>, token: Seq<char>, now: i64)
    ensures
        match decode_outcome(hs512_verified(secret, token), now) {
            Err(e) => refresh_outcome(secret, token, now) == ReplyView::<TokenView>::BadRequest(
                e.message,
            ),
            Ok(_) => !(refresh_outcome(secret, token, now) is BadRequest),
        },
{
}

/// Status 500 answers a signing failure and nothing else: neither a login nor
/// a request for new tokens ends in it unless issuing the token pair failed.
pub proof fn law_server_error_only_for_signing_failure(
    secret: Seq<char>,
    token: Seq<char>,
    username: Seq<char>,
    found: Result<Option<User>, String>,
    now: i64,
)
    ensures
        refresh_outcome(secret, token, now) is InternalServerError ==> (decode_outcome(
            hs512_verified(secret, token),
            now,
        ) matches Ok(claims) && encode_outcome(secret, claims.id, claims.email, now) is Err),
        login_outcome(username, found, secret, now) is InternalServerError ==> (found matches Ok(
            Some(user),
        ) && encode_outcome(secret, user.id, user.fields.email->0@, now) is Err),
{
}

impl<T> Reply<T> {
    /// The HTTP status code that the reply is sent with.
    pub fn status_code(&self) -> (code: u16)
        ensures
            code == status_of(*self),
    {
        match self {
            Reply::Success(_) => 200,
            Reply::BadRequest(_) => 400,
            Reply::NotFound(_) => 404,
            Reply::InternalServerError(_) => 500,
        }
    }
}

/// Renders the message for a user that the store does not hold.
pub fn missing_user_message(user_id: i32) -> (message: String)
    ensures
        message@ == missing_user_text(user_id),
{
    let mut message = String::from_str("User with ID `");
    let id_text = i32_to_decimal(user_id);
    message.append(id_text.as_str());
    message.append("`, does not exist");
    message
}

/// Greets `name`.
pub fn greet(name: &str) -> (response: HomeResponse)
    ensures
        response.message@ == greeting_text(name@),
{
    let mut message = String::from_str("Hello ");
    message.append(name);
    message.append("!");
    HomeResponse { message }
}

/// Answers the probe of the store, once the store has answered it.
pub fn test() -> (response: HomeResponse)
    ensures
        response.message@ == "Testing..."@,
{
    HomeResponse { message: String::from_str("Testing...") }
}

/// Goes on from a lookup by identifier: with the user, or with the reply
/// that ends the request.
pub fn found_user<T>(user_id: i32, found: Result<Option<User>, String>) -> (r: Result<
    User,
    Reply<T>,
>)
    ensures
        step_view(r) == lookup_outcome::<T>(user_id, found),
{
    match found {
        Ok(Some(user)) => Ok(user),
        Ok(None) => Err(Reply::NotFound(ApiResponse { message: missing_user_message(user_id) })),
        Err(e) => Err(Reply::BadRequest(ApiResponse { message: e })),
    }
}

/// Answers a request for one user, given what the store found.
pub fn get_user(user_id: i32, found: Result<Option<User>, String>) -> (r: Reply<User>)
    ensures
        reply_view(r) == match lookup_outcome::<User>(user_id, found) {
            Ok(user) => ReplyView::Success(user),
            Err(reply) => reply,
        },
{
    match found_user(user_id, found) {
        Ok(user) => Reply::Success(user),
        Err(reply) => reply,
    }
}

/// Answers a request that stored a user, given what the store returned: the
/// stored user, or 400 with the store's error.
pub fn stored_reply(stored: Result<User, String>) -> (r: Reply<User>)
    ensures
        reply_view(r) == match stored {
            Ok(user) => ReplyView::Success(user),
            Err(e) => ReplyView::BadRequest(e@),
        },
{
    match stored {
        Ok(user) => Reply::Success(user),
        Err(e) => Reply::BadRequest(ApiResponse { message: e }),
    }
}

/// The columns to store for a creation request.
pub fn create_user(payload: UserRequest) -> (user: UserFields)
    ensures
        user == serialized(payload),
{
    let serializer = UserSerializer { data: payload };
    serializer.serialize()
}

/// The first of two optional texts that is there.
fn text_or(first: &Option<String>, second: Option<String>) -> (r: Option<String>)
    ensures
        r == or_else(*first, second),
{
    match first {
        Some(text) => Some(text.clone()),
        None => second,
    }
}

/// The first of two optional flags that is there.
fn flag_or(first: Option<bool>, second: Option<bool>) -> (r: Option<bool>)
    ensures
        r == or_else(first, second),
{
    match first {
        Some(flag) => Some(flag),
        None => second,
    }
}

/// Prepares a partial update as of `now`: the user to store, or the reply
/// that ends the request.
pub fn update_user_at(
    user_id: i32,
    payload: &UserRequest,
    found: Result<Option<User>, String>,
    now: chrono::NaiveDateTime,
) -> (r: Result<User, Reply<User>>)
    ensures
        step_view(r) == update_outcome(user_id, *payload, found, now),
{
    let user = found_user(user_id, found)?;
    let old = user.fields;
    Ok(
        User {
            id: user.id,
            fields: UserFields {
                username: text_or(&payload.username, old.username),
                firstname: text_or(&payload.firstname, old.firstname),
                lastname: text_or(&payload.lastname, old.lastname),
                email: text_or(&payload.email, old.email),
                password: text_or(&payload.password, old.password),
                is_active: flag_or(payload.is_active, old.is_active),
                last_login: old.last_login,
                date_joined: old.date_joined,
                created_at: old.created_at,
                updated_at: Some(now),
                is_admin: flag_or(payload.is_admin, old.is_admin),
                is_superadmin: flag_or(payload.is_superadmin, old.is_superadmin),
            },
        },
    )
}

/// Prepares a partial update as of the present time.
pub fn update_user(user_id: i32, payload: &UserRequest, found: Result<Option<User>, String>) -> (r:
    Result<User, Reply<User>>)
    ensures
        exists|now: chrono::NaiveDateTime|
            step_view(r) == #[trigger] update_outcome(user_id, *payload, found, now),
{
    let now = current_datetime();
    update_user_at(user_id, payload, found, now)
}

/// Prepares a full update as of `now`: the user to store, or the reply that
/// ends the request.
pub fn update_user_full_at(
    user_id: i32,
    payload: &UserRequest,
    found: Result<Option<User>, String>,
    now: chrono::NaiveDateTime,
) -> (r: Result<User, Reply<User>>)
    ensures
        step_view(r) == update_full_outcome(user_id, *payload, found, now),
{
    let user = found_user(user_id, found)?;
    let old = user.fields;
    Ok(
        User {
            id: user.id,
            fields: UserFields {
                username: clone_text(&payload.username),
                firstname: clone_text(&payload.firstname),
                lastname: clone_text(&payload.lastname),
                email: clone_text(&payload.email),
                password: clone_text(&payload.password),
                is_active: payload.is_active,
                last_login: old.last_login,
                date_joined: old.date_joined,
                created_at: old.created_at,
                updated_at: Some(now),
                is_admin: payload.is_admin,
                is_superadmin: payload.is_superadmin,
            },
        },
    )
}

/// Prepares a full update as of the present time.
pub fn update_user_full(
    user_id: i32,
    payload: &UserRequest,
    found: Result<Option<User>, String>,
) -> (r: Result<User, Reply<User>>)
    ensures
        exists|now: chrono::NaiveDateTime|
            step_view(r) == #[trigger] update_full_outcome(user_id, *payload, found, now),
{
    let now = current_datetime();
    update_user_full_at(user_id, payload, found, now)
}

/// Prepares a deletion: the user to delete, or the reply that ends the
/// request.
pub fn delete_user(user_id: i32, found: Result<Option<User>, String>) -> (r: Result<
    User,
    Reply<ApiResponse>,
>)
    ensures
        step_view(r) == lookup_outcome::<ApiResponse>(user_id, found),
{
    found_user(user_id, found)
}

/// Answers a deletion, given the number of rows that the store removed or
/// its error.
pub fn deleted_reply(user_id: i32, deleted: Result<u64, String>) -> (r: Reply<ApiResponse>)
    ensures
        match deleted {
            Ok(rows) => r matches Reply::Success(body) && body.message@ == deleted_text(rows, user_id),
            Err(e) => r matches Reply::BadRequest(body) && body.message == e,
        },
{
    match deleted {
        Ok(rows) => {
            let mut message = String::from_str("Deleted ");
            let rows_text = u64_to_decimal(rows);
            message.append(rows_text.as_str());
            message.append(" user with Id ");
            let id_text = i32_to_decimal(user_id);
            message.append(id_text.as_str());
            Reply::Success(ApiResponse { message })
        },
        Err(e) => Reply::BadRequest(ApiResponse { message: e }),
    }
}

/// Answers a request for a page of users, given the rows that the store
/// returned for the window of `page` and the number of rows in all.
pub fn get_users<T>(page: &Pagination, rows: Result<Vec<T>, String>, total: u64) -> (r: Reply<
    PageEnvelope<T>,
>)
    requires
        rows is Ok ==> page_size_of(page.query) != 0,
    ensures
        match rows {
            Ok(users) => r matches Reply::Success(envelope) && describes(
                envelope,
                page.query,
                users,
                total,
            ),
            Err(e) => r matches Reply::BadRequest(body) && body.message == e,
        },
{
    match rows {
        Ok(users) => Reply::Success(page.response(users, total)),
        Err(e) => Reply::BadRequest(ApiResponse { message: e }),
    }
}

/// Answers a request for new tokens as of `now`.
pub fn refresh_jwt_at(jwt: &JSONWebToken, payload: &RefreshToken, now: i64) -> (r: Reply<Token>)
    requires
        now + REFRESH_TTL <= i64::MAX,
    ensures
        refreshes_to(jwt.secret@, payload.token@, now, token_reply_view(r)),
{
    match jwt.decode_at(payload.token.clone(), now) {
        Ok(claims) => match jwt.encode_at(claims.id, claims.email, now) {
            Ok(pair) => Reply::Success(pair),
            Err(e) => Reply::InternalServerError(ApiResponse { message: e.message }),
        },
        Err(e) => Reply::BadRequest(ApiResponse { message: e.message }),
    }
}

/// Answers a request for new tokens as of the present time.
pub fn refresh_jwt(jwt: &JSONWebToken, payload: &RefreshToken) -> (r: Reply<Token>)
    ensures
        exists|now: i64|
            0 <= now <= MAX_TIMESTAMP && #[trigger] refreshes_to(
                jwt.secret@,
                payload.token@,
                now,
                token_reply_view(r),
            ),
{
    let now = current_timestamp();
    refresh_jwt_at(jwt, payload, now)
}

/// Answers a login as of `now`, given what the store found for the name and
/// password of the request.
pub fn login_at(
    payload: &UserRequest,
    found: Result<Option<User>, String>,
    jwt: &JSONWebToken,
    now: i64,
) -> (r: Reply<LoginResponse>)
    requires
        payload.username is Some,
        found matches Ok(Some(user)) ==> user.fields.email is Some,
        now + REFRESH_TTL <= i64::MAX,
    ensures
        login_reply_view(r) == login_outcome(payload.username->0@, found, jwt.secret@, now),
{
    match found {
        Ok(Some(user)) => match jwt.encode_at(user.id, user.fields.email.unwrap(), now) {
            Ok(pair) => Reply::Success(
                LoginResponse { token: pair.token, refresh_token: pair.refresh_token },
            ),
            Err(e) => Reply::InternalServerError(ApiResponse { message: e.message }),
        },
        Ok(None) => {
            let mut message = String::from_str("User '");
            message.append(payload.username.as_ref().unwrap().as_str());
            message.append("' not found");
            Reply::NotFound(ApiResponse { message })
        },
        Err(e) => Reply::BadRequest(ApiResponse { message: e }),
    }
}

/// Answers a login as of the present time.
pub fn login(payload: &UserRequest, found: Result<Option<User>, String>, jwt: &JSONWebToken) -> (r:
    Reply<LoginResponse>)
    requires
        payload.username is Some,
        found matches Ok(Some(user)) ==> user.fields.email is Some,
    ensures
        exists|now: i64|
            0 <= now <= MAX_TIMESTAMP && login_reply_view(r) == #[trigger] login_outcome(
                payload.username->0@,
                found,
                jwt.secret@,
                now,
            ),
{
    let now = current_timestamp();
    login_at(payload, found, jwt, now)
}

} // verus!
