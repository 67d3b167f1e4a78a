//! The retrieval engine: configuration, the ingestion and query flows, and
//! the assembly of retrieved chunks into context.
//!
//! The engine never talks to the embedding model or to the vector index
//! itself. Each flow is a step function: it is handed what the collaborator
//! answered and says what to ask next. Whoever drives the flow performs the
//! request and reports back.

use vstd::prelude::*;
use crate::adapters::ids::{hyphenated, id_text};
use crate::engine::chunking::is_chunking;
use crate::engine::document::{Document, DocumentChunk, DocumentMetadata, Embedding, SourceType};
use crate::engine::error::{ConfigError, IndexError, ModelError, RagError};
use crate::engine::score::Score;
use crate::engine::text::{decimal, decimal_text, strings_view};
use crate::search::arxiv::{arxiv_url, ArxivSearcher};
use crate::search::google::GoogleSearcher;
use crate::search::pdf::PdfProcessor;
use crate::search::ExternalSearchResult;
use crate::storage::questdb::QuestDbClient;
use crate::engine::vector_store::{
    results_view, IndexPoint, IndexPointView, SearchResult, SearchResultView,
};

verus! {

/// How the engine chunks and retrieves.
#[derive(Debug, Clone, Copy)]
pub struct RagConfig {
    /// Code points per chunk.
    pub chunk_size: usize,
    /// Code points that consecutive chunks share.
    pub chunk_overlap: usize,
    /// How many candidates a search fetches at most.
    pub search_limit: usize,
    /// The least score with which a candidate is kept.
    pub similarity_threshold: Score,
}

impl RagConfig {
    /// Whether the engine accepts the configuration.
    pub open spec fn is_valid(self) -> bool {
        &&& self.chunk_overlap < self.chunk_size
        &&& self.similarity_threshold.in_unit_interval()
    }

    /// Checks the configuration. Of two faults the overlap is reported.
    pub fn validate(&self) -> (outcome: Result<(), ConfigError>)
        ensures
            self.is_valid() <==> outcome is Ok,
            self.chunk_overlap >= self.chunk_size ==> outcome == Err::<(), ConfigError>(
                ConfigError::OverlapNotBelowChunkSize,
            ),
            self.chunk_overlap < self.chunk_size && !self.similarity_threshold.in_unit_interval()
                ==> outcome == Err::<(), ConfigError>(ConfigError::ThresholdOutOfRange),
    {
        if self.chunk_overlap >= self.chunk_size {
            Err(ConfigError::OverlapNotBelowChunkSize)
        } else if !self.similarity_threshold.is_fraction() {
            Err(ConfigError::ThresholdOutOfRange)
        } else {
            Ok(())
        }
    }
}

impl Default for RagConfig {
    /// Chunks of 512 code points that overlap by 50, ten candidates per
    /// search, and a threshold of 0.7.
    fn default() -> (config: RagConfig)
        ensures
            config.chunk_size == 512,
            config.chunk_overlap == 50,
            config.search_limit == 10,
            config.similarity_threshold.bits == 0x3f33_3333,
            config.is_valid(),
    {
        RagConfig {
            chunk_size: 512,
            chunk_overlap: 50,
            search_limit: 10,
            similarity_threshold: Score::from_bits(0x3f33_3333),
        }
    }
}

/// A retrieved chunk with its score and where it came from.
#[derive(Debug, Clone)]
pub struct ContextChunk {
    pub content: String,
    pub score: Score,
    pub source_type: SourceType,
    pub source_title: String,
}

/// The model of a `ContextChunk`.
pub struct ContextChunkView {
    pub content: Seq<char>,
    pub score: Score,
    pub source_type: SourceType,
    pub source_title: Seq<char>,
}

impl View for ContextChunk {
    type V = ContextChunkView;

    open spec fn view(&self) -> ContextChunkView {
        ContextChunkView {
            content: self.content@,
            score: self.score,
            source_type: self.source_type,
            source_title: self.source_title@,
        }
    }
}

/// A pointer to the document that a retrieved chunk belongs to.
#[derive(Debug, Clone)]
pub struct SourceReference {
    pub title: String,
    pub url: Option<String>,
    pub source_type: SourceType,
}

/// The model of a `SourceReference`.
pub struct SourceReferenceView {
    pub title: Seq<char>,
    pub url: Option<Seq<char>>,
    pub source_type: SourceType,
}

impl View for SourceReference {
    type V = SourceReferenceView;

    open spec fn view(&self) -> SourceReferenceView {
        SourceReferenceView {
            title: self.title@,
            url: match self.url {
                Some(url) => Some(url@),
                None => None,
            },
            source_type: self.source_type,
        }
    }
}

/// What a query returns.
#[derive(Debug, Clone)]
pub struct QueryResult {
    pub query: String,
    pub context_chunks: Vec<ContextChunk>,
    pub sources: Vec<SourceReference>,
}

/// The model of a `QueryResult`.
pub struct QueryResultView {
    pub query: Seq<char>,
    pub context_chunks: Seq<ContextChunkView>,
    pub sources: Seq<SourceReferenceView>,
}

/// The models of a list of context chunks, in order.
pub open spec fn contexts_view(chunks: Seq<ContextChunk>) -> Seq<ContextChunkView> {
    chunks.map_values(|c: ContextChunk| c@)
}

/// The models of a list of source references, in order.
pub open spec fn references_view(sources: Seq<SourceReference>) -> Seq<SourceReferenceView> {
    sources.map_values(|s: SourceReference| s@)
}

impl View for QueryResult {
    type V = QueryResultView;

    open spec fn view(&self) -> QueryResultView {
        QueryResultView {
            query: self.query@,
            context_chunks: contexts_view(self.context_chunks@),
            sources: references_view(self.sources@),
        }
    }
}

/// The title under which a document is cited as long as nothing but its
/// identifier is known.
pub open spec fn document_label(document_id: u128) -> Seq<char> {
    "Document "@ + hyphenated(document_id)
}

/// The context chunk made from a search result.
pub open spec fn context_of(result: SearchResultView) -> ContextChunkView {
    ContextChunkView {
        content: result.content,
        score: result.score,
        source_type: SourceType::Manual,
        source_title: document_label(result.document_id),
    }
}

/// The source reference made from a search result.
pub open spec fn reference_of(result: SearchResultView) -> SourceReferenceView {
    SourceReferenceView {
        title: document_label(result.document_id),
        url: None,
        source_type: SourceType::Manual,
    }
}

/// The test that a search result's score reaches the threshold.
pub open spec fn passes(threshold: Score) -> spec_fn(SearchResultView) -> bool {
    |result: SearchResultView| result.score.reaches(threshold)
}

/// The search results whose score reaches the threshold, in their order.
pub open spec fn retained(results: Seq<SearchResultView>, threshold: Score) -> Seq<
    SearchResultView,
> {
    results.filter(passes(threshold))
}

/// The context chunks made from a list of search results.
pub open spec fn contexts_of(results: Seq<SearchResultView>) -> Seq<ContextChunkView> {
    results.map_values(|r: SearchResultView| context_of(r))
}

/// The source references made from a list of search results.
pub open spec fn references_of(results: Seq<SearchResultView>) -> Seq<SourceReferenceView> {
    results.map_values(|r: SearchResultView| reference_of(r))
}

/// The answer to `query` given what the search found: one context chunk and
/// one source reference for every result whose score reaches the threshold,
/// in the order of the results.
pub open spec fn answer(
    query: Seq<char>,
    results: Seq<SearchResultView>,
    threshold: Score,
) -> QueryResultView {
    QueryResultView {
        query,
        context_chunks: contexts_of(retained(results, threshold)),
        sources: references_of(retained(results, threshold)),
    }
}

/// Whether the scores of `results` never rise from one result to the next.
pub open spec fn descending(results: Seq<SearchResultView>) -> bool {
    forall|i: int, j: int|
        0 <= i < j < results.len() ==> (#[trigger] results[i]).score.order_key() >= (
        #[trigger] results[j]).score.order_key()
}

/// What is retained are results that were found, each with a score that
/// reaches the threshold, and every such result is retained.
pub proof fn lemma_retained_are_found(results: Seq<SearchResultView>, threshold: Score)
    ensures
        retained(results, threshold).len() <= results.len(),
        forall|k: int|
            0 <= k < retained(results, threshold).len() ==> {
                &&& (#[trigger] retained(results, threshold)[k]).score.reaches(threshold)
                &&& results.contains(retained(results, threshold)[k])
            },
        forall|i: int|
            0 <= i < results.len() && results[i].score.reaches(threshold) ==> retained(
                results,
                threshold,
            ).contains(#[trigger] results[i]),
{
    let pred = passes(threshold);
    let kept = results.filter(pred);
    results.lemma_filter_len(pred);
    assert forall|k: int| 0 <= k < kept.len() implies {
        &&& (#[trigger] kept[k]).score.reaches(threshold)
        &&& results.contains(kept[k])
    } by {
        results.lemma_filter_pred(pred, k);
        results.lemma_filter_contains_rev(pred, kept[k]);
    }
    assert forall|i: int|
        0 <= i < results.len() && results[i].score.reaches(threshold) implies kept.contains(
        #[trigger] results[i],
    ) by {
        results.lemma_filter_contains(pred, i);
    }
}

/// The threshold is inclusive: a result whose score equals the threshold is
/// retained, and one whose score is the next below the threshold is not.
pub proof fn lemma_threshold_is_inclusive(
    results: Seq<SearchResultView>,
    threshold: Score,
    i: int,
)
    requires
        0 <= i < results.len(),
        !threshold.is_nan(),
        !threshold.is_least(),
    ensures
        results[i].score == threshold ==> retained(results, threshold).contains(results[i]),
        results[i].score == threshold.next_below() ==> !retained(results, threshold).contains(
            results[i],
        ),
{
    crate::engine::score::lemma_threshold_boundary(threshold);
    lemma_retained_are_found(results, threshold);
}

/// A chunk that the search found with a score that reaches the threshold is
/// part of the answer, with its content and its score; and every chunk of
/// the answer has a score that reaches the threshold.
pub proof fn lemma_hit_is_answered(
    query: Seq<char>,
    results: Seq<SearchResultView>,
    threshold: Score,
    i: int,
)
    requires
        0 <= i < results.len(),
        results[i].score.reaches(threshold),
    ensures
        exists|k: int|
            0 <= k < answer(query, results, threshold).context_chunks.len() && (#[trigger] answer(
                query,
                results,
                threshold,
            ).context_chunks[k]) == context_of(results[i]),
        forall|k: int|
            0 <= k < answer(query, results, threshold).context_chunks.len() ==> (#[trigger] answer(
                query,
                results,
                threshold,
            ).context_chunks[k]).score.reaches(threshold),
{
    let kept = retained(results, threshold);
    let chunks = answer(query, results, threshold).context_chunks;
    lemma_retained_are_found(results, threshold);
    let k = choose|k: int| 0 <= k < kept.len() && kept[k] == results[i];
    assert(chunks[k] == context_of(kept[k]));
}

/// Filtering keeps the order: if what was found is in descending order of
/// score, so is what is retained.
pub proof fn lemma_retained_keeps_order(results: Seq<SearchResultView>, threshold: Score)
    requires
        descending(results),
    ensures
        descending(retained(results, threshold)),
    decreases results.len(),
{
    let pred = passes(threshold);
    reveal(Seq::filter);
    if results.len() > 0 {
        let front = results.drop_last();
        let last = results.last();
        lemma_retained_keeps_order(front, threshold);
        let kept = front.filter(pred);
        if pred(last) {
            let all = kept.push(last);
            assert forall|i: int, j: int| 0 <= i < j < all.len() implies (#[trigger] all[i]).score.order_key()
                >= (#[trigger] all[j]).score.order_key() by {
                if j == all.len() - 1 {
                    front.lemma_filter_contains_rev(pred, kept[i]);
                }
            }
        }
    }
}

/// The block of context text for the chunk at position `index`.
pub open spec fn context_block(index: int, chunk: ContextChunkView) -> Seq<char> {
    "[Source "@ + decimal((index + 1) as nat) + "] (score: "@ + chunk.score.two_decimals() + ")\n"@
        + chunk.content + "\n\n"@
}

/// The context text for a list of chunks: their blocks, in order.
pub open spec fn context_text(chunks: Seq<ContextChunkView>) -> Seq<char>
    decreases chunks.len(),
{
    if chunks.len() == 0 {
        Seq::empty()
    } else {
        context_text(chunks.drop_last()) + context_block(chunks.len() - 1, chunks.last())
    }
}

/// The texts of a list of chunks, in order.
pub open spec fn chunk_texts(chunks: Seq<DocumentChunk>) -> Seq<Seq<char>> {
    chunks.map_values(|c: DocumentChunk| c.content@)
}

/// The point written to the index for a chunk with its vector.
pub open spec fn chunk_point(chunk: DocumentChunk, vector: Seq<u32>) -> IndexPointView {
    IndexPointView {
        id: chunk.id,
        document_id: chunk.document_id,
        chunk_index: chunk.chunk_index,
        content: chunk.content@,
        vector,
    }
}

/// The points written to the index for a list of chunks with their vectors.
pub open spec fn chunk_points(chunks: Seq<DocumentChunk>, vectors: Seq<Embedding>) -> Seq<
    IndexPointView,
> {
    Seq::new(chunks.len(), |k: int| chunk_point(chunks[k], vectors[k]@))
}

/// The models of a list of index points, in order.
pub open spec fn points_view(points: Seq<IndexPoint>) -> Seq<IndexPointView> {
    points.map_values(|p: IndexPoint| p@)
}

/// What an ingestion reports when it is done.
#[derive(Debug, Clone)]
pub struct IngestReport {
    pub document_id: u128,
    pub title: String,
    /// How many chunks were written to the index.
    pub chunks: usize,
}

impl IngestReport {
    /// Whether the report is the one for `document`.
    pub open spec fn tells(self, document: Document) -> bool {
        &&& self.document_id == document.id
        &&& self.title@ == document.title@
        &&& self.chunks == document.chunks@.len()
    }
}

/// Where an ingestion stands.
#[derive(Debug, Clone)]
pub enum IngestState {
    /// Nothing has been done with the document yet.
    Ready(Document),
    /// The texts of the document's chunks are with the embedding model.
    Embedding(Document),
    /// The document's points are with the index.
    Storing(Document),
    /// The ingestion is over.
    Finished,
}

/// What the driver of an ingestion reports.
#[derive(Debug)]
pub enum IngestEvent {
    /// The ingestion is to begin.
    Start,
    /// The embedding model answered.
    Embedded(Result<Vec<Embedding>, ModelError>),
    /// The index answered.
    Stored(Result<(), IndexError>),
}

/// What the driver of an ingestion is to do next.
#[derive(Debug, Clone)]
pub enum IngestAction {
    /// Embed these texts as one batch and report the vectors.
    Embed(Vec<String>),
    /// Write these points to the index as one batch and report the outcome.
    Store(Vec<IndexPoint>),
    /// Announce the ingestion and stop.
    Done(IngestReport),
    /// Stop with this failure.
    Fail(RagError),
}

/// Where a query stands.
#[derive(Debug, Clone)]
pub enum QueryState {
    /// Nothing has been done with the query text yet.
    Ready(String),
    /// The query text is with the embedding model.
    Embedding(String),
    /// The query vector is with the index.
    Searching(String),
    /// The query is over.
    Finished,
}

/// What the driver of a query reports.
#[derive(Debug)]
pub enum QueryEvent {
    /// The query is to begin.
    Start,
    /// The embedding model answered.
    Embedded(Result<Embedding, ModelError>),
    /// The index answered.
    Found(Result<Vec<SearchResult>, IndexError>),
}

/// What the driver of a query is to do next.
#[derive(Debug, Clone)]
pub enum QueryAction {
    /// Embed this text and report the vector.
    Embed(String),
    /// Search the index with this vector for at most this many candidates
    /// and report them.
    Search(Embedding, usize),
    /// Hand this result to the caller and stop.
    Done(QueryResult),
    /// Stop with this failure.
    Fail(RagError),
}

/// Whether `chunked` is `document` after chunking under `config`.
pub open spec fn is_chunked(config: RagConfig, document: Document, chunked: Document) -> bool {
    &&& chunked.same_but_chunks(document)
    &&& is_chunking(
        chunked.pieces(),
        document.content@,
        config.chunk_size as int,
        config.chunk_overlap as int,
    )
    &&& forall|k: int|
        0 <= k < chunked.chunks@.len() ==> {
            &&& (#[trigger] chunked.chunks@[k]).document_id == document.id
            &&& chunked.chunks@[k].chunk_index == k
            &&& chunked.chunks@[k].embedding is None
        }
}

/// Whether an ingestion in `state` that is told `event` goes on in `next`
/// with `action`.
pub open spec fn ingest_follows(
    config: RagConfig,
    state: IngestState,
    event: IngestEvent,
    next: IngestState,
    action: IngestAction,
) -> bool {
    match (state, event) {
        (IngestState::Ready(document), IngestEvent::Start) => {
            if document.content@.len() == 0 {
                &&& next is Finished
                &&& action matches IngestAction::Done(report)
                &&& report.document_id == document.id
                &&& report.title@ == document.title@
                &&& report.chunks == 0
            } else {
                &&& next matches IngestState::Embedding(chunked)
                &&& is_chunked(config, document, chunked)
                &&& chunked.chunks@.len() > 0
                &&& action matches IngestAction::Embed(texts)
                &&& strings_view(texts@) == chunk_texts(chunked.chunks@)
            }
        },
        (IngestState::Embedding(document), IngestEvent::Embedded(Ok(vectors))) => {
            if vectors@.len() == document.chunks@.len() {
                &&& next == IngestState::Storing(document)
                &&& action matches IngestAction::Store(points)
                &&& points_view(points@) == chunk_points(document.chunks@, vectors@)
            } else {
                &&& next is Finished
                &&& action == IngestAction::Fail(RagError::Model(ModelError::WrongCount))
            }
        },
        (IngestState::Embedding(_), IngestEvent::Embedded(Err(e))) => {
            &&& next is Finished
            &&& action == IngestAction::Fail(RagError::Model(e))
        },
        (IngestState::Storing(document), IngestEvent::Stored(Ok(_))) => {
            &&& next is Finished
            &&& action matches IngestAction::Done(report)
            &&& report.tells(document)
        },
        (IngestState::Storing(_), IngestEvent::Stored(Err(e))) => {
            &&& next is Finished
            &&& action == IngestAction::Fail(RagError::Index(e))
        },
        _ => {
            &&& next is Finished
            &&& action == IngestAction::Fail(RagError::UnexpectedEvent)
        },
    }
}

/// Whether a query in `state` that is told `event` goes on in `next` with
/// `action`.
pub open spec fn query_follows(
    config: RagConfig,
    state: QueryState,
    event: QueryEvent,
    next: QueryState,
    action: QueryAction,
) -> bool {
    match (state, event) {
        (QueryState::Ready(query), QueryEvent::Start) => {
            &&& next == QueryState::Embedding(query)
            &&& action == QueryAction::Embed(query)
        },
        (QueryState::Embedding(query), QueryEvent::Embedded(Ok(vector))) => {
            &&& next == QueryState::Searching(query)
            &&& action == QueryAction::Search(vector, config.search_limit)
        },
        (QueryState::Embedding(_), QueryEvent::Embedded(Err(e))) => {
            &&& next is Finished
            &&& action == QueryAction::Fail(RagError::Model(e))
        },
        (QueryState::Searching(query), QueryEvent::Found(Ok(results))) => {
            &&& next is Finished
            &&& action matches QueryAction::Done(result)
            &&& result@ == answer(query@, results_view(results@), config.similarity_threshold)
        },
        (QueryState::Searching(_), QueryEvent::Found(Err(e))) => {
            &&& next is Finished
            &&& action == QueryAction::Fail(RagError::Index(e))
        },
        _ => {
            &&& next is Finished
            &&& action == QueryAction::Fail(RagError::UnexpectedEvent)
        },
    }
}

/// Whether `document` is the document made from a hit of an arXiv search:
/// titled as the hit, with the summary as its content and as its abstract,
/// the hit's URL as its source, and the hit's authors, arXiv identifier and
/// date of publication in its metadata.
pub open spec fn is_arxiv_document(document: Document, hit: ExternalSearchResult) -> bool {
    &&& document.title@ == hit.title@
    &&& document.content@ == hit.summary@
    &&& document.source_type == SourceType::ArxivPaper
    &&& document.source_url is Some
    &&& document.source_url->0@ == hit.url@
    &&& strings_view(document.metadata.authors@) == strings_view(hit.authors@)
    &&& document.metadata.tags@.len() == 0
    &&& document.metadata.abstract_text is Some
    &&& document.metadata.abstract_text->0@ == hit.summary@
    &&& document.metadata.doi is None
    &&& document.metadata.arxiv_id is Some
    &&& document.metadata.arxiv_id->0@ == hit.arxiv_id@
    &&& document.metadata.publication_date == hit.published
    &&& document.metadata.page_count is None
    &&& document.metadata.word_count is None
    &&& document.metadata.extra@ == "null"@
    &&& document.chunks@.len() == 0
}

/// The retrieval engine.
pub struct RagEngine {
    config: RagConfig,
    arxiv_searcher: Option<ArxivSearcher>,
    google_searcher: Option<GoogleSearcher>,
    pdf_processor: PdfProcessor,
    questdb_client: Option<QuestDbClient>,
}

impl RagEngine {
    /// The configuration the engine was made with.
    pub closed spec fn settings(self) -> RagConfig {
        self.config
    }

    /// The client of the arXiv search, if one is configured.
    pub closed spec fn arxiv(self) -> Option<ArxivSearcher> {
        self.arxiv_searcher
    }

    /// The client of the web search, if one is configured.
    pub closed spec fn google(self) -> Option<GoogleSearcher> {
        self.google_searcher
    }

    /// The client of the time series database, if one is configured.
    pub closed spec fn questdb(self) -> Option<QuestDbClient> {
        self.questdb_client
    }

    /// An engine with the given configuration, if the configuration is valid.
    pub fn new(config: RagConfig) -> (engine: Result<RagEngine, ConfigError>)
        ensures
            config.is_valid() <==> engine is Ok,
            engine matches Ok(e) ==> {
                &&& e.settings() == config
                &&& e.arxiv() is Some
                &&& e.arxiv()->0.cap() == 50
                &&& e.google() is None
                &&& e.questdb() is None
            },
            config.chunk_overlap >= config.chunk_size ==> engine matches Err(
                ConfigError::OverlapNotBelowChunkSize,
            ),
            config.chunk_overlap < config.chunk_size
                && !config.similarity_threshold.in_unit_interval() ==> engine matches Err(
                ConfigError::ThresholdOutOfRange,
            ),
    {
        match config.validate() {
            Ok(()) => Ok(
                RagEngine {
                    config,
                    arxiv_searcher: Some(ArxivSearcher::new(50)),
                    google_searcher: None,
                    pdf_processor: PdfProcessor::new(),
                    questdb_client: None,
                },
            ),
            Err(e) => Err(e),
        }
    }

    /// The configuration the engine was made with.
    pub fn config(&self) -> (config: RagConfig)
        ensures
            config == self.settings(),
    {
        self.config
    }

    /// The same engine with a web search that presents `api_key`.
    pub fn with_google_search(self, api_key: String) -> (engine: RagEngine)
        ensures
            engine.settings() == self.settings(),
            engine.arxiv() == self.arxiv(),
            engine.questdb() == self.questdb(),
            engine.google() is Some,
            engine.google()->0.key() == api_key@,
    {
        let mut engine = self;
        engine.google_searcher = Some(GoogleSearcher::new(api_key));
        engine
    }

    /// The same engine with `client` as its time series database.
    pub fn with_questdb(self, client: QuestDbClient) -> (engine: RagEngine)
        ensures
            engine.settings() == self.settings(),
            engine.arxiv() == self.arxiv(),
            engine.google() == self.google(),
            engine.questdb() == Some(client),
    {
        let mut engine = self;
        engine.questdb_client = Some(client);
        engine
    }

    /// The URL to fetch for a search of arXiv, or a failure if no arXiv
    /// search is configured.
    pub fn search_and_ingest_arxiv(&self, query: &str, max_results: usize) -> (outcome: Result<
        String,
        RagError,
    >)
        ensures
            match self.arxiv() {
                Some(searcher) => outcome is Ok && outcome->Ok_0@ == arxiv_url(
                    query@,
                    if max_results <= searcher.cap() {
                        max_results as nat
                    } else {
                        searcher.cap() as nat
                    },
                ),
                None => outcome matches Err(RagError::NotConfigured(what)) && what@
                    == "arXiv searcher not configured"@,
            },
    {
        match &self.arxiv_searcher {
            Some(searcher) => Ok(searcher.request_url(query, max_results)),
            None => Err(RagError::NotConfigured("arXiv searcher not configured".to_owned())),
        }
    }

    /// The document to ingest for a hit of an arXiv search.
    pub fn arxiv_document(hit: &ExternalSearchResult) -> (document: Document)
        ensures
            is_arxiv_document(document, *hit),
    {
        let mut authors: Vec<String> = Vec::new();
        let mut i: usize = 0;
        while i < hit.authors.len()
            invariant
                i <= hit.authors.len(),
                authors@.len() == i,
                forall|j: int| 0 <= j < i ==> (#[trigger] authors@[j])@ == hit.authors@[j]@,
            decreases hit.authors.len() - i,
        {
            authors.push(hit.authors[i].clone());
            i += 1;
        }
        assert(strings_view(authors@) =~= strings_view(hit.authors@));
        let mut metadata = DocumentMetadata::default();
        metadata.authors = authors;
        metadata.arxiv_id = Some(hit.arxiv_id.clone());
        metadata.publication_date = hit.published;
        metadata.abstract_text = Some(hit.summary.clone());
        Document::new(
            hit.title.as_str(),
            hit.summary.as_str(),
            SourceType::ArxivPaper,
        ).with_source_url(hit.url.as_str()).with_metadata(metadata)
    }

    /// The document for a PDF file, ready to be ingested: titled after the
    /// file, holding its text and metadata, and pointing at the file.
    pub fn ingest_pdf(
        &self,
        stem: Option<&str>,
        path: &str,
        text: &str,
        metadata: DocumentMetadata,
    ) -> (document: Document)
        ensures
            document.title@ == crate::search::pdf::pdf_title(
                match stem {
                    Some(name) => Some(name@),
                    None => None,
                },
            ),
            document.content@ == text@,
            document.source_type == SourceType::Pdf,
            document.metadata == metadata,
            document.source_url is Some,
            document.source_url->0@ == "file://"@ + path@,
            document.chunks@.len() == 0,
    {
        self.pdf_processor.process(stem, path, text, metadata)
    }

    /// The URL to which a query of trading data goes, or a failure if no
    /// time series database is configured.
    pub fn query_trading_data(&self) -> (outcome: Result<String, RagError>)
        ensures
            match self.questdb() {
                Some(client) => outcome is Ok && outcome->Ok_0@ == client.address() + "/exec"@,
                None => outcome matches Err(RagError::NotConfigured(what)) && what@
                    == "QuestDB not configured"@,
            },
    {
        match &self.questdb_client {
            Some(client) => Ok(client.query()),
            None => Err(RagError::NotConfigured("QuestDB not configured".to_owned())),
        }
    }

    /// The title under which a document is cited.
    fn label(document_id: u128) -> (title: String)
        ensures
            title@ == document_label(document_id),
    {
        let mut title = "Document ".to_owned();
        let id = id_text(document_id);
        title.append(id.as_str());
        title
    }

    /// Turns what a search found into the answer to `query`: the results whose
    /// score reaches the configured threshold, in the order in which they were
    /// found, each as a context chunk and as a source reference.
    pub fn assemble(&self, query: &str, results: &Vec<SearchResult>) -> (result: QueryResult)
        ensures
            result@ == answer(query@, results_view(results@), self.settings().similarity_threshold),
            result.context_chunks@.len() == result.sources@.len(),
            result.context_chunks@.len() <= results@.len(),
    {
        let threshold = self.config.similarity_threshold;
        let mut context_chunks: Vec<ContextChunk> = Vec::new();
        let mut sources: Vec<SourceReference> = Vec::new();
        let ghost found = results_view(results@);
        let mut i: usize = 0;
        proof {
            reveal(Seq::filter);
        }
        while i < results.len()
            invariant
                i <= results.len(),
                found == results_view(results@),
                threshold == self.settings().similarity_threshold,
                context_chunks@.len() == sources@.len(),
                context_chunks@.len() <= i,
                contexts_view(context_chunks@) =~= contexts_of(retained(found.take(i as int), threshold)),
                references_view(sources@) =~= references_of(
                    retained(found.take(i as int), threshold),
                ),
            decreases results.len() - i,
        {
            let hit = &results[i];
            let ghost kept = retained(found.take(i as int), threshold);
            proof {
                assert(found.take(i + 1) =~= found.take(i as int).push(hit@));
                found.take(i as int).lemma_filter_push(hit@, passes(threshold));
            }
            if hit.score.at_least(threshold) {
                context_chunks.push(
                    ContextChunk {
                        content: hit.content.clone(),
                        score: hit.score,
                        source_type: SourceType::Manual,
                        source_title: Self::label(hit.document_id),
                    },
                );
                sources.push(
                    SourceReference {
                        title: Self::label(hit.document_id),
                        url: None,
                        source_type: SourceType::Manual,
                    },
                );
                proof {
                    assert(contexts_of(kept.push(hit@)) =~= contexts_of(kept).push(
                        context_of(hit@),
                    ));
                    assert(references_of(kept.push(hit@)) =~= references_of(kept).push(
                        reference_of(hit@),
                    ));
                }
            }
            i += 1;
        }
        assert(found.take(results.len() as int) =~= found);
        QueryResult { query: query.to_owned(), context_chunks, sources }
    }

    /// The texts of a document's chunks, in order.
    pub fn texts_of(document: &Document) -> (texts: Vec<String>)
        ensures
            strings_view(texts@) == chunk_texts(document.chunks@),
    {
        let mut texts: Vec<String> = Vec::new();
        let mut k: usize = 0;
        while k < document.chunks.len()
            invariant
                k <= document.chunks.len(),
                texts@.len() == k,
                forall|j: int| 0 <= j < k ==> (#[trigger] texts@[j])@ == document.chunks@[j].content@,
            decreases document.chunks.len() - k,
        {
            texts.push(document.chunks[k].content.clone());
            k += 1;
        }
        texts
    }

    /// The points to write for `chunks`, given one vector per chunk in the
    /// same order. Another number of vectors than chunks is refused.
    pub fn index_points(chunks: &Vec<DocumentChunk>, vectors: &Vec<Embedding>) -> (outcome: Result<
        Vec<IndexPoint>,
        ModelError,
    >)
        ensures
            vectors@.len() == chunks@.len() ==> outcome is Ok && points_view(outcome->Ok_0@)
                == chunk_points(chunks@, vectors@),
            vectors@.len() != chunks@.len() ==> outcome is Err && outcome->Err_0
                == ModelError::WrongCount,
    {
        if vectors.len() != chunks.len() {
            return Err(ModelError::WrongCount);
        }
        let mut points: Vec<IndexPoint> = Vec::new();
        let mut k: usize = 0;
        while k < chunks.len()
            invariant
                k <= chunks.len(),
                vectors@.len() == chunks@.len(),
                points@.len() == k,
                forall|j: int|
                    0 <= j < k ==> (#[trigger] points@[j])@ == chunk_point(chunks@[j], vectors@[j]@),
            decreases chunks.len() - k,
        {
            let chunk = &chunks[k];
            points.push(
                IndexPoint {
                    id: chunk.id,
                    document_id: chunk.document_id,
                    chunk_index: chunk.chunk_index,
                    content: chunk.content.clone(),
                    vector: vectors[k].clone(),
                },
            );
            k += 1;
        }
        Ok(points)
    }

    /// What is announced when `document` has been ingested.
    pub fn report(document: &Document) -> (report: IngestReport)
        ensures
            report.tells(*document),
    {
        IngestReport {
            document_id: document.id,
            title: document.title.clone(),
            chunks: document.chunks.len(),
        }
    }

    /// Takes an ingestion one step further.
    ///
    /// A ready document is chunked; its chunk texts go to the embedding
    /// model, unless there are none, in which case the ingestion is done at
    /// once. The vectors that come back are paired with the chunks and go to
    /// the index as one batch. When the index has confirmed, the ingestion is
    /// announced. The first failure ends the ingestion.
    pub fn ingest_document(&self, state: IngestState, event: IngestEvent) -> (next: (
        IngestState,
        IngestAction,
    ))
        ensures
            ingest_follows(self.settings(), state, event, next.0, next.1),
    {
        match (state, event) {
            (IngestState::Ready(document), IngestEvent::Start) => {
                let mut document = document;
                document.chunk(self.config.chunk_size, self.config.chunk_overlap);
                if document.chunks.len() == 0 {
                    let report = Self::report(&document);
                    (IngestState::Finished, IngestAction::Done(report))
                } else {
                    let texts = Self::texts_of(&document);
                    (IngestState::Embedding(document), IngestAction::Embed(texts))
                }
            },
            (IngestState::Embedding(document), IngestEvent::Embedded(Ok(vectors))) => {
                match Self::index_points(&document.chunks, &vectors) {
                    Ok(points) => (IngestState::Storing(document), IngestAction::Store(points)),
                    Err(e) => (IngestState::Finished, IngestAction::Fail(RagError::Model(e))),
                }
            },
            (IngestState::Embedding(_), IngestEvent::Embedded(Err(e))) => (
                IngestState::Finished,
                IngestAction::Fail(RagError::Model(e)),
            ),
            (IngestState::Storing(document), IngestEvent::Stored(Ok(()))) => {
                let report = Self::report(&document);
                (IngestState::Finished, IngestAction::Done(report))
            },
            (IngestState::Storing(_), IngestEvent::Stored(Err(e))) => (
                IngestState::Finished,
                IngestAction::Fail(RagError::Index(e)),
            ),
            _ => (IngestState::Finished, IngestAction::Fail(RagError::UnexpectedEvent)),
        }
    }

    /// Takes a query one step further.
    ///
    /// The query text goes to the embedding model, the vector that comes
    /// back goes to the index together with the configured limit, and what
    /// the index finds is assembled into the result. The first failure ends
    /// the query.
    pub fn query(&self, state: QueryState, event: QueryEvent) -> (next: (
        QueryState,
        QueryAction,
    ))
        ensures
            query_follows(self.settings(), state, event, next.0, next.1),
    {
        match (state, event) {
            (QueryState::Ready(query), QueryEvent::Start) => {
                let text = query.clone();
                (QueryState::Embedding(query), QueryAction::Embed(text))
            },
            (QueryState::Embedding(query), QueryEvent::Embedded(Ok(vector))) => (
                QueryState::Searching(query),
                QueryAction::Search(vector, self.config.search_limit),
            ),
            (QueryState::Embedding(_), QueryEvent::Embedded(Err(e))) => (
                QueryState::Finished,
                QueryAction::Fail(RagError::Model(e)),
            ),
            (QueryState::Searching(query), QueryEvent::Found(Ok(results))) => {
                let result = self.assemble(query.as_str(), &results);
                (QueryState::Finished, QueryAction::Done(result))
            },
            (QueryState::Searching(_), QueryEvent::Found(Err(e))) => (
                QueryState::Finished,
                QueryAction::Fail(RagError::Index(e)),
            ),
            _ => (QueryState::Finished, QueryAction::Fail(RagError::UnexpectedEvent)),
        }
    }

    /// Writes the context for a language model: one block per context chunk,
    /// in order, each headed by its position counted from one and its score
    /// with two decimals.
    pub fn build_context(&self, result: &QueryResult) -> (context: String)
        ensures
            context@ == context_text(result@.context_chunks),
    {
        let mut context = String::new();
        let ghost chunks = result@.context_chunks;
        let mut i: usize = 0;
        while i < result.context_chunks.len()
            invariant
                i <= result.context_chunks.len(),
                chunks == result@.context_chunks,
                context@ == context_text(chunks.take(i as int)),
            decreases result.context_chunks.len() - i,
        {
            let chunk = &result.context_chunks[i];
            context.append("[Source ");
            let position = decimal_text((i + 1) as u128);
            context.append(position.as_str());
            context.append("] (score: ");
            let score = chunk.score.render();
            context.append(score.as_str());
            context.append(")\n");
            context.append(chunk.content.as_str());
            context.append("\n\n");
            proof {
                let upto = chunks.take(i + 1);
                assert(upto.drop_last() =~= chunks.take(i as int));
            }
            i += 1;
        }
        assert(chunks.take(result.context_chunks.len() as int) =~= chunks);
        context
    }
}

} // verus!
