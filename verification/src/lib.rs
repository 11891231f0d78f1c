//! A serverless OAuth2 facade: the provider authorization handshake with
//! CSRF binding, durable issuance and lookup of API credential pairs, and
//! the minting and verification of short-lived bearer tokens.
//!
//! The modules hold the protocol logic on plain values; the surrounding
//! binary performs the network calls and hands their results in.

pub mod articles;
pub mod authorize;
pub mod callback;
pub mod credentials;
pub mod errors;
pub mod oauth;
pub mod pages;
pub mod token;
