//! The bodies of requests and responses, and the user record.

use crate::json::{json_message, message_body};
use vstd::prelude::*;

verus! {

/// The body of a greeting.
#[derive(Clone, Debug, PartialEq, Eq)]
pub struct HomeResponse {
    pub message: String,
}

/// The body that answers a login: the token pair.
#[derive(Clone, Debug, PartialEq, Eq)]
pub struct LoginResponse {
    pub token: String,
    pub refresh_token: String,
}

/// The body that reports a failure, or confirms a deletion.
#[derive(Clone, Debug, PartialEq, Eq)]
pub struct ApiResponse {
    pub message: String,
}

impl ApiResponse {
    /// The body as JSON text: an object with the one member `message`.
    pub fn to_json(&self) -> (body: String)
        ensures
            body@ == json_message(self.message@),
    {
        message_body(self.message.as_str())
    }
}

/// The body of a request for new tokens.
#[derive(Clone, Debug, PartialEq, Eq)]
pub struct RefreshToken {
    pub token: String,
}

/// The body of a request that creates or changes a user; each member may be
/// left out.
#[derive(Clone, Debug, PartialEq)]
pub struct UserRequest {
    pub username: Option<String>,
    pub firstname: Option<String>,
    pub lastname: Option<String>,
    pub email: Option<String>,
    pub password: Option<String>,
    pub is_active: Option<bool>,
    pub last_login: Option<chrono::NaiveDateTime>,
    pub date_joined: Option<chrono::NaiveDateTime>,
    pub created_at: Option<chrono::NaiveDateTime>,
    pub updated_at: Option<chrono::NaiveDateTime>,
    pub is_admin: Option<bool>,
    pub is_superadmin: Option<bool>,
}

/// The columns of a user that a request can set.
#[derive(Clone, Debug, PartialEq)]
pub struct UserFields {
    pub username: Option<String>,
    pub firstname: Option<String>,
    pub lastname: Option<String>,
    pub email: Option<String>,
    pub password: Option<String>,
    pub is_active: Option<bool>,
    pub last_login: Option<chrono::NaiveDateTime>,
    pub date_joined: Option<chrono::NaiveDateTime>,
    pub created_at: Option<chrono::NaiveDateTime>,
    pub updated_at: Option<chrono::NaiveDateTime>,
    pub is_admin: Option<bool>,
    pub is_superadmin: Option<bool>,
}

/// A stored user: its identifier and its columns.
#[derive(Clone, Debug, PartialEq)]
pub struct User {
    pub id: i32,
    pub fields: UserFields,
}

} // verus!
