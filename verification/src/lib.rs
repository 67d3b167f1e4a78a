//! Retrieval-augmented generation for research notebooks: documents are cut
//! into overlapping chunks, embedded, stored in a vector index and retrieved
//! again as ranked, threshold-filtered context.

use vstd::prelude::*;

pub mod adapters;
pub mod api;
pub mod cli;
pub mod config;
pub mod engine;
pub mod julia;
pub mod search;
pub mod security;
pub mod storage;

verus! {

/// The version of the library.
pub const VERSION: &'static str = "0.1.0";

} // verus!
