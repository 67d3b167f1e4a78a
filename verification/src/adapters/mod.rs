//! The places where the library calls into other crates.
//!
//! Every function here that is marked `external_body` is believed, not
//! proved: its contract restates what the called crate documents.

pub mod auth;
pub mod clock;
pub mod crypto;
pub mod ids;
pub mod json;
pub mod net;
pub mod pattern;
pub mod url;
