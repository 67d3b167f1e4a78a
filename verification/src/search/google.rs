//! Search of the web through SerpAPI.

use vstd::prelude::*;
use crate::adapters::url::{encode, url_encoded};
use crate::engine::text::{decimal, decimal_text};
use crate::search::{ExternalSearchResult, SearchProvider};

verus! {

/// One organic result of the service's answer.
#[derive(Debug, Clone)]
pub struct OrganicResult {
    pub title: String,
    pub link: String,
    pub snippet: Option<String>,
}

/// Whether `result` says what `found` says: title and link as they are, the
/// snippet as the summary, or an empty summary if there is none, and
/// nothing about authors, date or arXiv.
pub open spec fn tells(result: ExternalSearchResult, found: OrganicResult) -> bool {
    &&& result.title@ == found.title@
    &&& result.summary@ == match found.snippet {
        Some(snippet) => snippet@,
        None => Seq::empty(),
    }
    &&& result.url@ == found.link@
    &&& result.source@ == "Google"@
    &&& result.authors@.len() == 0
    &&& result.published is None
    &&& result.arxiv_id@.len() == 0
}

/// The URL of a web search.
pub open spec fn serpapi_url(query: Seq<char>, api_key: Seq<char>, max_results: nat) -> Seq<char> {
    "https://serpapi.com/search.json?q="@ + url_encoded(query) + "&api_key="@ + api_key + "&num="@
        + decimal(max_results)
}

/// A client of the web search.
#[derive(Debug, Clone)]
pub struct GoogleSearcher {
    api_key: String,
}

impl GoogleSearcher {
    /// The key that the client presents.
    pub closed spec fn key(self) -> Seq<char> {
        self.api_key@
    }

    /// A client that presents `api_key`.
    pub fn new(api_key: String) -> (searcher: GoogleSearcher)
        ensures
            searcher.key() == api_key@,
    {
        GoogleSearcher { api_key }
    }

    /// The URL to fetch for `max_results` hits for `query`.
    pub fn request_url(&self, query: &str, max_results: usize) -> (url: String)
        ensures
            url@ == serpapi_url(query@, self.key(), max_results as nat),
    {
        let mut url = "https://serpapi.com/search.json?q=".to_owned();
        url.append(encode(query).as_str());
        url.append("&api_key=");
        url.append(self.api_key.as_str());
        url.append("&num=");
        url.append(decimal_text(max_results as u128).as_str());
        url
    }

    /// The results that the service's answer holds: one for every organic
    /// result, in order, and none if the answer holds no such list.
    pub fn search(organic_results: Option<Vec<OrganicResult>>) -> (results: Vec<
        ExternalSearchResult,
    >)
        ensures
            match organic_results {
                Some(found) => {
                    &&& results@.len() == found@.len()
                    &&& forall|k: int|
                        0 <= k < found@.len() ==> tells(#[trigger] results@[k], found@[k])
                },
                None => results@.len() == 0,
            },
    {
        let mut results: Vec<ExternalSearchResult> = Vec::new();
        match organic_results {
            Some(found) => {
                let mut k: usize = 0;
                while k < found.len()
                    invariant
                        k <= found.len(),
                        results@.len() == k,
                        forall|j: int| 0 <= j < k ==> tells(#[trigger] results@[j], found@[j]),
                    decreases found.len() - k,
                {
                    let hit = &found[k];
                    results.push(
                        ExternalSearchResult {
                            title: hit.title.clone(),
                            summary: match &hit.snippet {
                                Some(snippet) => snippet.clone(),
                                None => String::new(),
                            },
                            url: hit.link.clone(),
                            source: "Google".to_owned(),
                            authors: Vec::new(),
                            published: None,
                            arxiv_id: String::new(),
                        },
                    );
                    k += 1;
                }
            },
            None => {},
        }
        results
    }
}

impl SearchProvider for GoogleSearcher {
    fn name(&self) -> (name: &str)
        ensures
            name@ == "Google"@,
    {
        "Google"
    }

    fn search_url(&self, query: &str, max_results: usize) -> (url: String)
        ensures
            url@ == serpapi_url(query@, self.key(), max_results as nat),
    {
        self.request_url(query, max_results)
    }
}

} // verus!
