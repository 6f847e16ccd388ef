//! Marketplace data API core: typed validation of untrusted query
//! parameters, pagination windowing, and HTTP Basic credential
//! verification with a constant-effort decoy path.

pub mod auth;
pub mod config;
pub mod domain;
pub mod errors;
pub mod routes;
