//! Delegation issuance and certification engine.
//!
//! Given a bearer token from an external identity provider, the library
//! verifies the token against the provider's published signing keys, derives a
//! stable per-user seed from a one-time secret salt, and maintains a certified
//! map of pending delegation signatures together with a single root digest
//! that summarizes it. A caller that prepared a delegation can later fetch a
//! proof of inclusion anchored to that digest.

pub mod api;
pub mod crypto;
pub mod delegation;
pub mod id_token;
pub mod laws;
pub mod sig_map;
pub mod state;
pub mod types;
pub mod users;
pub mod utils;
