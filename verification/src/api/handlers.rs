//! The bodies of requests and responses, and how one is made from the other.

use vstd::prelude::*;
use crate::adapters::ids::{hyphenated, id_text};
use crate::engine::document::{Document, SourceType};
use crate::engine::rag::{ContextChunk, QueryResult};
use crate::engine::score::Score;
use crate::engine::text::{lowercase, lowercased, same_text};

verus! {

/// A search of the knowledge base.
#[derive(Debug, Clone)]
pub struct SearchRequest {
    pub query: String,
    pub limit: usize,
}

/// The limit of a search request that names none.
pub fn default_limit() -> (limit: usize)
    ensures
        limit == 10,
{
    10
}

/// One retrieved chunk as a search response shows it.
#[derive(Debug, Clone)]
pub struct SearchResultItem {
    pub content: String,
    pub score: Score,
    pub source_type: String,
    pub source_title: String,
}

/// The answer to a search request.
#[derive(Debug, Clone)]
pub struct SearchResponse {
    pub query: String,
    pub results: Vec<SearchResultItem>,
    pub context: String,
}

/// A document to ingest.
#[derive(Debug, Clone)]
pub struct IngestRequest {
    pub title: String,
    pub content: String,
    pub source_type: String,
    pub source_url: Option<String>,
}

/// The answer to an ingest request.
#[derive(Debug, Clone)]
pub struct IngestResponse {
    pub document_id: String,
    pub chunks: usize,
}

/// A search of arXiv.
#[derive(Debug, Clone)]
pub struct ArxivSearchRequest {
    pub query: String,
    pub max_results: usize,
    /// Whether the papers found are to be ingested as well.
    pub ingest: bool,
}

/// The number of results of an arXiv search request that names none.
pub fn default_arxiv_limit() -> (limit: usize)
    ensures
        limit == 20,
{
    20
}

/// A paper as an arXiv search response shows it.
#[derive(Debug, Clone)]
pub struct ArxivPaper {
    pub arxiv_id: String,
    pub title: String,
    pub authors: Vec<String>,
    pub summary: String,
    pub url: String,
}

/// The answer to an arXiv search request.
#[derive(Debug, Clone)]
pub struct ArxivSearchResponse {
    pub query: String,
    pub papers: Vec<ArxivPaper>,
    /// How many papers were ingested.
    pub ingested: usize,
}

/// A request for gamma exposure data.
#[derive(Debug, Clone)]
pub struct GexRequest {
    pub symbol: String,
    pub days: i32,
}

/// The number of days of a gamma exposure request that names none.
pub fn default_days() -> (days: i32)
    ensures
        days == 7,
{
    7
}

/// A login attempt.
#[derive(Debug, Clone)]
pub struct LoginRequest {
    pub email: String,
    pub password: String,
}

/// The answer to a successful login.
#[derive(Debug, Clone)]
pub struct LoginResponse {
    pub token: String,
    /// For how many seconds the token is good.
    pub expires_in: i64,
}

/// The source type that a request names: `pdf`, `arxiv`, `web` and `questdb`
/// in any mix of cases stand for their types, anything else for a manual
/// entry.
pub open spec fn named_source(name: Seq<char>) -> SourceType {
    let lower = lowercased(name);
    if lower == "pdf"@ {
        SourceType::Pdf
    } else if lower == "arxiv"@ {
        SourceType::ArxivPaper
    } else if lower == "web"@ {
        SourceType::WebPage
    } else if lower == "questdb"@ {
        SourceType::QuestDb
    } else {
        SourceType::Manual
    }
}

/// The source type that a request names.
pub fn source_type_named(name: &str) -> (source_type: SourceType)
    ensures
        source_type == named_source(name@),
{
    let lower = lowercase(name);
    if same_text(lower.as_str(), "pdf") {
        SourceType::Pdf
    } else if same_text(lower.as_str(), "arxiv") {
        SourceType::ArxivPaper
    } else if same_text(lower.as_str(), "web") {
        SourceType::WebPage
    } else if same_text(lower.as_str(), "questdb") {
        SourceType::QuestDb
    } else {
        SourceType::Manual
    }
}

impl IngestRequest {
    /// The document that the request describes, newly created.
    pub fn document(&self) -> (document: Document)
        ensures
            document.title@ == self.title@,
            document.content@ == self.content@,
            document.source_type == named_source(self.source_type@),
            match self.source_url {
                Some(url) => document.source_url is Some && document.source_url->0@ == url@,
                None => document.source_url is None,
            },
            document.metadata.is_blank(),
            document.chunks@.len() == 0,
    {
        let source_type = source_type_named(self.source_type.as_str());
        let document = Document::new(self.title.as_str(), self.content.as_str(), source_type);
        match &self.source_url {
            Some(url) => document.with_source_url(url.as_str()),
            None => document,
        }
    }
}

impl IngestResponse {
    /// The answer for a document that was ingested.
    pub fn of(document: &Document) -> (response: IngestResponse)
        ensures
            response.document_id@ == hyphenated(document.id),
            response.chunks == document.chunks@.len(),
    {
        IngestResponse { document_id: id_text(document.id), chunks: document.chunks.len() }
    }
}

impl SearchResultItem {
    /// Whether the item shows `chunk`.
    pub open spec fn shows(self, chunk: ContextChunk) -> bool {
        &&& self.content@ == chunk.content@
        &&& self.score == chunk.score
        &&& self.source_type@ == match chunk.source_type {
            SourceType::Pdf => "Pdf"@,
            SourceType::ArxivPaper => "ArxivPaper"@,
            SourceType::WebPage => "WebPage"@,
            SourceType::QuestDb => "QuestDb"@,
            SourceType::ThetaData => "ThetaData"@,
            SourceType::Manual => "Manual"@,
        }
        &&& self.source_title@ == chunk.source_title@
    }

    /// The item that shows `chunk`.
    pub fn of(chunk: &ContextChunk) -> (item: SearchResultItem)
        ensures
            item.shows(*chunk),
    {
        SearchResultItem {
            content: chunk.content.clone(),
            score: chunk.score,
            source_type: chunk.source_type.label().to_owned(),
            source_title: chunk.source_title.clone(),
        }
    }
}

impl SearchResponse {
    /// The answer to a search: the query, one item per context chunk in
    /// order, and the context text.
    pub fn of(query: &str, result: &QueryResult, context: String) -> (response: SearchResponse)
        ensures
            response.query@ == query@,
            response.context == context,
            response.results@.len() == result.context_chunks@.len(),
            forall|k: int|
                0 <= k < response.results@.len() ==> (#[trigger] response.results@[k]).shows(
                    result.context_chunks@[k],
                ),
    {
        let mut results: Vec<SearchResultItem> = Vec::new();
        let mut k: usize = 0;
        while k < result.context_chunks.len()
            invariant
                k <= result.context_chunks.len(),
                results@.len() == k,
                forall|j: int|
                    0 <= j < k ==> (#[trigger] results@[j]).shows(result.context_chunks@[j]),
            decreases result.context_chunks.len() - k,
        {
            results.push(SearchResultItem::of(&result.context_chunks[k]));
            k += 1;
        }
        SearchResponse { query: query.to_owned(), results, context }
    }
}

/// The text of an optional string, empty if there is none.
pub open spec fn text_or_empty(text: Option<String>) -> Seq<char> {
    match text {
        Some(t) => t@,
        None => Seq::empty(),
    }
}

/// A copy of an optional string, empty if there is none.
fn or_empty(text: &Option<String>) -> (copy: String)
    ensures
        copy@ == text_or_empty(*text),
{
    match text {
        Some(t) => t.clone(),
        None => String::new(),
    }
}

impl ArxivPaper {
    /// Whether the paper shows `document`.
    pub open spec fn shows(self, document: Document) -> bool {
        &&& self.arxiv_id@ == text_or_empty(document.metadata.arxiv_id)
        &&& self.title@ == document.title@
        &&& self.authors@.len() == document.metadata.authors@.len()
        &&& forall|i: int|
            0 <= i < self.authors@.len() ==> (#[trigger] self.authors@[i])@
                == document.metadata.authors@[i]@
        &&& self.summary@ == text_or_empty(document.metadata.abstract_text)
        &&& self.url@ == text_or_empty(document.source_url)
    }

    /// The paper that shows `document`.
    pub fn of(document: &Document) -> (paper: ArxivPaper)
        ensures
            paper.shows(*document),
    {
        let mut authors: Vec<String> = Vec::new();
        let mut i: usize = 0;
        while i < document.metadata.authors.len()
            invariant
                i <= document.metadata.authors.len(),
                authors@.len() == i,
                forall|j: int|
                    0 <= j < i ==> (#[trigger] authors@[j])@ == document.metadata.authors@[j]@,
            decreases document.metadata.authors.len() - i,
        {
            authors.push(document.metadata.authors[i].clone());
            i += 1;
        }
        ArxivPaper {
            arxiv_id: or_empty(&document.metadata.arxiv_id),
            title: document.title.clone(),
            authors,
            summary: or_empty(&document.metadata.abstract_text),
            url: or_empty(&document.source_url),
        }
    }
}

impl ArxivSearchResponse {
    /// The answer to an arXiv search: the query, one paper per document in
    /// order, and the number of documents if they were ingested, else 0.
    pub fn of(query: &str, documents: &Vec<Document>, ingested: bool) -> (response:
        ArxivSearchResponse)
        ensures
            response.query@ == query@,
            response.papers@.len() == documents@.len(),
            forall|k: int|
                0 <= k < documents@.len() ==> (#[trigger] response.papers@[k]).shows(documents@[k]),
            response.ingested == if ingested {
                documents@.len()
            } else {
                0
            },
    {
        let mut papers: Vec<ArxivPaper> = Vec::new();
        let mut k: usize = 0;
        while k < documents.len()
            invariant
                k <= documents.len(),
                papers@.len() == k,
                forall|j: int| 0 <= j < k ==> (#[trigger] papers@[j]).shows(documents@[j]),
            decreases documents.len() - k,
        {
            papers.push(ArxivPaper::of(&documents[k]));
            k += 1;
        }
        ArxivSearchResponse {
            query: query.to_owned(),
            papers,
            ingested: if ingested {
                documents.len()
            } else {
                0
            },
        }
    }
}

impl LoginRequest {
    /// Whether both an e-mail address and a password are given.
    pub fn is_complete(&self) -> (complete: bool)
        ensures
            complete == (self.email@.len() > 0 && self.password@.len() > 0),
    {
        !self.email.as_str().is_empty() && !self.password.as_str().is_empty()
    }
}

impl LoginResponse {
    /// The answer that hands out `token`, good for a day.
    pub fn of(token: String) -> (response: LoginResponse)
        ensures
            response.token == token,
            response.expires_in == 86_400,
    {
        LoginResponse { token, expires_in: 24 * 3600 }
    }
}

} // verus!
