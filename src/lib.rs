//! Keyed per-identity salt derivation and nonce material for a
//! zero-knowledge OIDC login flow.
pub mod hexcode;
pub mod salt;
pub mod nonce;
