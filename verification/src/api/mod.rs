//! What the HTTP interface exchanges and decides.

pub mod handlers;
pub mod middleware;
