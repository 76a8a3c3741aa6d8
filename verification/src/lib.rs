//! Token issuance for a single-sign-on service: signed, typed claims, the
//! OAuth2 authorization-code grant, and the "claim a key for a while" rule
//! behind single-use codes and rate limits.

pub mod config;
pub mod helpers;
pub mod kvs;
pub mod routes;
pub mod services;
pub mod text;
