//! A bearer-token authorization gate for a protected HTTP endpoint.
//!
//! The library validates an inbound request's bearer token in stages:
//! credential extraction, unverified header parsing, discovery of the
//! provider's key-set endpoint, key lookup by key identifier, signature
//! and claim validation, and scope enforcement. The network fetches are
//! performed by the caller between stages; every decision taken on what
//! they return, and the signature verdict itself, stands here.

pub mod base64;
pub mod cause;
pub mod config;
pub mod crypto;
pub mod gate;
pub mod jsonio;
pub mod keyset;
pub mod scope;
pub mod text;
pub mod token;
