//! Keys, passwords, tokens and network admission.

pub mod auth;
pub mod crypto;
pub mod zero_trust;
