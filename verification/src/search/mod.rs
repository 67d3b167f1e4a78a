//! Sources of documents outside the knowledge base.

pub mod arxiv;
pub mod google;
pub mod pdf;

use vstd::prelude::*;
use crate::adapters::clock::Timestamp;

verus! {

/// One hit of a search outside the knowledge base.
#[derive(Debug, Clone)]
pub struct ExternalSearchResult {
    pub title: String,
    pub summary: String,
    pub url: String,
    /// The name of the provider that found the hit.
    pub source: String,
    pub authors: Vec<String>,
    pub published: Option<Timestamp>,
    pub arxiv_id: String,
}

/// A search service. The request goes over the network; a provider says
/// where to.
pub trait SearchProvider {
    /// The provider's name.
    fn name(&self) -> &str;

    /// The URL to fetch for at most `max_results` hits for `query`.
    fn search_url(&self, query: &str, max_results: usize) -> String;
}

} // verus!
