//! From the body of a request to the columns of the user it creates.

use crate::models::{UserFields, UserRequest};
use vstd::prelude::*;

verus! {

/// A copy of an optional text.
pub fn clone_text(text: &Option<String>) -> (copy: Option<String>)
    ensures
        copy == *text,
{
    match text {
        Some(s) => Some(s.clone()),
        None => None,
    }
}

/// Turns the body of a creation request into the columns to store.
#[derive(Clone, Debug)]
pub struct UserSerializer {
    pub data: UserRequest,
}

/// The columns that a creation request stores. Texts and times are taken as
/// sent. A flag is stored as `true` where the request names the member that
/// decides it and as `false` where it leaves it out, whatever value the
/// member holds: `is_active` decides the first flag, `is_admin` both the
/// second and the third.
pub open spec fn serialized(data: UserRequest) -> UserFields {
    UserFields {
        username: data.username,
        firstname: data.firstname,
        lastname: data.lastname,
        email: data.email,
        password: data.password,
        is_active: Some(data.is_active is Some),
        last_login: data.last_login,
        date_joined: data.date_joined,
        created_at: data.created_at,
        updated_at: data.updated_at,
        is_admin: Some(data.is_admin is Some),
        is_superadmin: Some(data.is_admin is Some),
    }
}

impl UserSerializer {
    /// The columns of the user that the request creates.
    pub fn serialize(&self) -> (user: UserFields)
        ensures
            user == serialized(self.data),
    {
        let is_active = self.is_active();
        let is_admin = self.is_admin();
        let is_superadmin = self.is_superadmin();

        UserFields {
            username: clone_text(&self.data.username),
            firstname: clone_text(&self.data.firstname),
            lastname: clone_text(&self.data.lastname),
            email: clone_text(&self.data.email),
            password: clone_text(&self.data.password),
            is_active: Some(is_active),
            last_login: self.data.last_login,
            date_joined: self.data.date_joined,
            created_at: self.data.created_at,
            updated_at: self.data.updated_at,
            is_admin: Some(is_admin),
            is_superadmin: Some(is_superadmin),
        }
    }

    /// Whether the request names `is_active`.
    pub fn is_active(&self) -> (b: bool)
        ensures
            b == (self.data.is_active is Some),
    {
        match self.data.is_active {
            None => false,
            Some(_) => true,
        }
    }

    /// Whether the request names `is_admin`.
    pub fn is_admin(&self) -> (b: bool)
        ensures
            b == (self.data.is_admin is Some),
    {
        match self.data.is_admin {
            None => false,
            Some(_) => true,
        }
    }

    /// Whether the request makes a superadmin: decided by `is_admin`.
    pub fn is_superadmin(&self) -> (b: bool)
        ensures
            b == (self.data.is_admin is Some),
    {
        match self.data.is_admin {
            None => false,
            Some(_) => true,
        }
    }
}

} // verus!
