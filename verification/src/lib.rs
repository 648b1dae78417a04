//! Token issuance and validation, authentication of requests, pagination and
//! the configuration rules of a small user-account service.

pub mod auth;
pub mod clock;
pub mod config;
pub mod handlers;
pub mod json;
pub mod jwt;
pub mod middlewares;
pub mod models;
pub mod pagination;
pub mod serializers;
pub mod text;
