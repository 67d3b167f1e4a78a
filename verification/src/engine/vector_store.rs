//! The vector index as the engine sees it: what is written to it, what comes
//! back from it, and the requests that carry both.

use vstd::prelude::*;
use crate::adapters::ids::{hyphenated, id_text, parse_id, parsed_id};
use crate::engine::document::Embedding;
use crate::engine::score::Score;
use crate::engine::text::same_text;

verus! {

/// A value of a stored point's payload.
#[derive(Debug, Clone)]
pub enum PayloadValue {
    Text(String),
    Integer(i64),
    /// Anything that is neither text nor an integer.
    Other,
}

/// The model of a `PayloadValue`.
pub enum PayloadValueView {
    Text(Seq<char>),
    Integer(i64),
    Other,
}

impl View for PayloadValue {
    type V = PayloadValueView;

    open spec fn view(&self) -> PayloadValueView {
        match *self {
            PayloadValue::Text(t) => PayloadValueView::Text(t@),
            PayloadValue::Integer(v) => PayloadValueView::Integer(v),
            PayloadValue::Other => PayloadValueView::Other,
        }
    }
}

/// One named value of a payload.
#[derive(Debug, Clone)]
pub struct PayloadEntry {
    pub key: String,
    pub value: PayloadValue,
}

impl View for PayloadEntry {
    type V = (Seq<char>, PayloadValueView);

    open spec fn view(&self) -> (Seq<char>, PayloadValueView) {
        (self.key@, self.value@)
    }
}

/// The model of a payload: its entries in order.
pub open spec fn payload_view(payload: Seq<PayloadEntry>) -> Seq<(Seq<char>, PayloadValueView)> {
    payload.map_values(|e: PayloadEntry| e@)
}

/// The value of the first entry named `key`, if there is one.
pub open spec fn lookup(payload: Seq<(Seq<char>, PayloadValueView)>, key: Seq<char>) -> Option<
    PayloadValueView,
>
    decreases payload.len(),
{
    if payload.len() == 0 {
        None
    } else if payload[0].0 == key {
        Some(payload[0].1)
    } else {
        lookup(payload.drop_first(), key)
    }
}

/// The chunk index as the payload stores it: the same bits read as a signed
/// 64-bit number.
pub open spec fn stored_index(chunk_index: usize) -> int {
    if chunk_index <= i64::MAX {
        chunk_index as int
    } else {
        chunk_index - 0x1_0000_0000_0000_0000
    }
}

/// The chunk index that a stored number stands for: its bits, as many as a
/// `usize` holds, read as an unsigned number.
pub open spec fn index_of(stored: i64) -> int {
    (if stored >= 0 {
        stored as int
    } else {
        stored + 0x1_0000_0000_0000_0000
    }) % (usize::MAX + 1)
}

/// The payload stored with a chunk: the owning document's identifier in
/// hyphenated form, the chunk's index, and its text.
pub open spec fn chunk_payload(document_id: u128, chunk_index: usize, content: Seq<char>) -> Seq<
    (Seq<char>, PayloadValueView),
> {
    seq![
        ("document_id"@, PayloadValueView::Text(hyphenated(document_id))),
        ("chunk_index"@, PayloadValueView::Integer(stored_index(chunk_index) as i64)),
        ("content"@, PayloadValueView::Text(content)),
    ]
}

/// What is written to the index for one chunk.
#[derive(Debug, Clone)]
pub struct IndexPoint {
    /// The point's identifier, which is the chunk's.
    pub id: u128,
    pub document_id: u128,
    pub chunk_index: usize,
    pub content: String,
    pub vector: Embedding,
}

/// The model of an `IndexPoint`.
pub struct IndexPointView {
    pub id: u128,
    pub document_id: u128,
    pub chunk_index: usize,
    pub content: Seq<char>,
    pub vector: Seq<u32>,
}

impl View for IndexPoint {
    type V = IndexPointView;

    open spec fn view(&self) -> IndexPointView {
        IndexPointView {
            id: self.id,
            document_id: self.document_id,
            chunk_index: self.chunk_index,
            content: self.content@,
            vector: self.vector@,
        }
    }
}

impl IndexPoint {
    /// The identifier under which the point is stored, in hyphenated form.
    pub fn key_text(&self) -> (text: String)
        ensures
            text@ == hyphenated(self.id),
            parsed_id(text@) == Some(self.id),
    {
        id_text(self.id)
    }

    /// The payload stored with the point.
    pub fn payload(&self) -> (payload: Vec<PayloadEntry>)
        ensures
            payload_view(payload@) == chunk_payload(
                self.document_id,
                self.chunk_index,
                self.content@,
            ),
            parsed_id(hyphenated(self.document_id)) == Some(self.document_id),
    {
        let mut payload: Vec<PayloadEntry> = Vec::new();
        payload.push(
            PayloadEntry {
                key: "document_id".to_owned(),
                value: PayloadValue::Text(id_text(self.document_id)),
            },
        );
        payload.push(
            PayloadEntry {
                key: "chunk_index".to_owned(),
                value: PayloadValue::Integer(signed_index(self.chunk_index)),
            },
        );
        payload.push(
            PayloadEntry {
                key: "content".to_owned(),
                value: PayloadValue::Text(self.content.clone()),
            },
        );
        payload
    }
}

/// The bits of `chunk_index` read as a signed 64-bit number.
fn signed_index(chunk_index: usize) -> (stored: i64)
    ensures
        stored == stored_index(chunk_index),
{
    let wide: u64 = chunk_index as u64;
    if wide <= 0x7fff_ffff_ffff_ffff {
        wide as i64
    } else {
        let high: u64 = wide - 0x8000_0000_0000_0000;
        high as i64 + i64::MIN
    }
}

/// The bits of `stored`, as many as a `usize` holds, read as an unsigned
/// number.
fn unsigned_index(stored: i64) -> (chunk_index: usize)
    ensures
        chunk_index == index_of(stored),
{
    let bits: u64 = if stored >= 0 {
        stored as u64
    } else {
        u64::MAX - ((-(stored + 1)) as u64)
    };
    if bits <= usize::MAX as u64 {
        assert(bits as int % (usize::MAX + 1) == bits) by (nonlinear_arith)
            requires
                0 <= bits <= usize::MAX,
        ;
        bits as usize
    } else {
        (bits % (usize::MAX as u64 + 1)) as usize
    }
}

/// How a stored point is identified.
#[derive(Debug, Clone)]
pub enum PointKey {
    /// By the text of a 128-bit identifier.
    Uuid(String),
    /// By a number, or not at all.
    Other,
}

/// A point as a search hands it back.
#[derive(Debug, Clone)]
pub struct StoredPoint {
    pub key: PointKey,
    pub score: Score,
    pub payload: Vec<PayloadEntry>,
}

/// One hit of a similarity search.
#[derive(Debug, Clone)]
pub struct SearchResult {
    pub id: u128,
    pub score: Score,
    pub document_id: u128,
    pub chunk_index: usize,
    pub content: String,
}

/// The model of a `SearchResult`.
pub struct SearchResultView {
    pub id: u128,
    pub score: Score,
    pub document_id: u128,
    pub chunk_index: usize,
    pub content: Seq<char>,
}

impl View for SearchResult {
    type V = SearchResultView;

    open spec fn view(&self) -> SearchResultView {
        SearchResultView {
            id: self.id,
            score: self.score,
            document_id: self.document_id,
            chunk_index: self.chunk_index,
            content: self.content@,
        }
    }
}

/// The models of a list of search results, in order.
pub open spec fn results_view(results: Seq<SearchResult>) -> Seq<SearchResultView> {
    results.map_values(|r: SearchResult| r@)
}

/// The identifier a point was stored under, if it is a well-formed one.
pub open spec fn point_id(key: PointKey) -> Option<u128> {
    match key {
        PointKey::Uuid(text) => parsed_id(text@),
        PointKey::Other => None,
    }
}

/// The identifier of the document that a payload names, if it names one.
pub open spec fn payload_document(payload: Seq<(Seq<char>, PayloadValueView)>) -> Option<u128> {
    match lookup(payload, "document_id"@) {
        Some(PayloadValueView::Text(text)) => parsed_id(text),
        _ => None,
    }
}

/// The chunk index that a payload records, or 0 if it records none.
pub open spec fn payload_index(payload: Seq<(Seq<char>, PayloadValueView)>) -> usize {
    match lookup(payload, "chunk_index"@) {
        Some(PayloadValueView::Integer(stored)) => index_of(stored) as usize,
        _ => 0,
    }
}

/// The text that a payload records, or the empty text if it records none.
pub open spec fn payload_content(payload: Seq<(Seq<char>, PayloadValueView)>) -> Seq<char> {
    match lookup(payload, "content"@) {
        Some(PayloadValueView::Text(text)) => text,
        _ => Seq::empty(),
    }
}

/// The search result that a stored point stands for. A point counts only if
/// it is stored under a well-formed identifier and its payload names its
/// document by one.
pub open spec fn read_point(
    key: PointKey,
    score: Score,
    payload: Seq<(Seq<char>, PayloadValueView)>,
) -> Option<SearchResultView> {
    match (point_id(key), payload_document(payload)) {
        (Some(id), Some(document_id)) => Some(
            SearchResultView {
                id,
                score,
                document_id,
                chunk_index: payload_index(payload),
                content: payload_content(payload),
            },
        ),
        _ => None,
    }
}

/// The search results that a list of stored points stands for: those of the
/// points that count, in the order of the points.
pub open spec fn read_points(points: Seq<StoredPoint>) -> Seq<SearchResultView>
    decreases points.len(),
{
    if points.len() == 0 {
        Seq::empty()
    } else {
        let earlier = read_points(points.drop_last());
        let point = points.last();
        match read_point(point.key, point.score, payload_view(point.payload@)) {
            Some(result) => earlier.push(result),
            None => earlier,
        }
    }
}

/// Finds the value of the first entry named `key`.
fn find<'a>(payload: &'a Vec<PayloadEntry>, key: &str) -> (value: Option<&'a PayloadValue>)
    ensures
        match value {
            Some(v) => lookup(payload_view(payload@), key@) == Some(v@),
            None => lookup(payload_view(payload@), key@) is None,
        },
{
    let ghost whole = payload_view(payload@);
    let mut i: usize = 0;
    assert(whole.skip(0) =~= whole);
    while i < payload.len()
        invariant
            i <= payload.len(),
            whole == payload_view(payload@),
            lookup(whole, key@) == lookup(whole.skip(i as int), key@),
        decreases payload.len() - i,
    {
        if same_text(payload[i].key.as_str(), key) {
            return Some(&payload[i].value);
        }
        assert(whole.skip(i as int).drop_first() =~= whole.skip(i + 1));
        i += 1;
    }
    None
}

impl SearchResult {
    /// Reads a search result off a stored point.
    pub fn from_stored(point: &StoredPoint) -> (result: Option<SearchResult>)
        ensures
            match result {
                Some(r) => read_point(point.key, point.score, payload_view(point.payload@))
                    == Some(r@),
                None => read_point(point.key, point.score, payload_view(point.payload@)) is None,
            },
    {
        let id = match &point.key {
            PointKey::Uuid(text) => match parse_id(text.as_str()) {
                Some(id) => id,
                None => { return None; },
            },
            PointKey::Other => { return None; },
        };
        let document_id = match find(&point.payload, "document_id") {
            Some(PayloadValue::Text(text)) => match parse_id(text.as_str()) {
                Some(document_id) => document_id,
                None => { return None; },
            },
            _ => { return None; },
        };
        let chunk_index = match find(&point.payload, "chunk_index") {
            Some(PayloadValue::Integer(stored)) => unsigned_index(*stored),
            _ => 0,
        };
        let content = match find(&point.payload, "content") {
            Some(PayloadValue::Text(text)) => text.clone(),
            _ => String::new(),
        };
        Some(SearchResult { id, score: point.score, document_id, chunk_index, content })
    }
}

/// The similarity measures of a collection.
#[derive(Debug, Clone, Copy, PartialEq, Eq, Structural)]
pub enum Distance {
    Cosine,
}

/// How a collection is to be created.
#[derive(Debug, Clone)]
pub struct CollectionSpec {
    pub name: String,
    /// The length of the collection's vectors.
    pub size: u64,
    pub distance: Distance,
}

/// A point in the form in which it is written to the index.
#[derive(Debug, Clone)]
pub struct PointRecord {
    /// The point's identifier in hyphenated form.
    pub key: String,
    pub vector: Embedding,
    pub payload: Vec<PayloadEntry>,
}

impl PointRecord {
    /// Whether this is the record of `point`.
    pub open spec fn holds(self, point: IndexPointView) -> bool {
        &&& self.key@ == hyphenated(point.id)
        &&& self.vector@ == point.vector
        &&& payload_view(self.payload@) == chunk_payload(
            point.document_id,
            point.chunk_index,
            point.content,
        )
    }

    /// What a search result reads when the index hands the record back with
    /// `score`.
    pub open spec fn read_back(self, score: Score) -> Option<SearchResultView> {
        read_point(PointKey::Uuid(self.key), score, payload_view(self.payload@))
    }
}

/// Which points to delete: those whose payload holds `value` under `field`.
#[derive(Debug, Clone)]
pub struct PayloadMatch {
    pub field: String,
    pub value: String,
}

/// A collection of a vector index: its name and the length of its vectors.
#[derive(Debug, Clone)]
pub struct VectorStore {
    collection_name: String,
    dimension: usize,
}

/// Reading a stored chunk index gives back the index that was stored.
pub proof fn lemma_index_round_trip(chunk_index: usize)
    ensures
        i64::MIN <= stored_index(chunk_index) <= i64::MAX,
        index_of(stored_index(chunk_index) as i64) == chunk_index,
{
    let m = usize::MAX + 1;
    assert(chunk_index as int % m == chunk_index) by (nonlinear_arith)
        requires
            0 <= chunk_index < m,
    ;
}

/// The payload of a chunk names the chunk's document, index and text.
pub proof fn lemma_chunk_payload_reads(document_id: u128, chunk_index: usize, content: Seq<char>)
    ensures
        lookup(chunk_payload(document_id, chunk_index, content), "document_id"@) == Some(
            PayloadValueView::Text(hyphenated(document_id)),
        ),
        payload_index(chunk_payload(document_id, chunk_index, content)) == chunk_index,
        payload_content(chunk_payload(document_id, chunk_index, content)) == content,
{
    reveal_strlit("document_id");
    reveal_strlit("chunk_index");
    reveal_strlit("content");
    let payload = chunk_payload(document_id, chunk_index, content);
    let rest = payload.drop_first();
    let last = rest.drop_first();
    assert("document_id"@[0] != "chunk_index"@[0]);
    assert("document_id"@.len() != "content"@.len());
    assert(lookup(rest, "chunk_index"@) == Some(payload[1].1));
    assert(lookup(rest, "content"@) == lookup(last, "content"@));
    lemma_index_round_trip(chunk_index);
}

impl VectorStore {
    /// The name of the collection.
    pub closed spec fn name(self) -> Seq<char> {
        self.collection_name@
    }

    /// The length of the collection's vectors.
    pub closed spec fn size(self) -> usize {
        self.dimension
    }

    /// The collection `collection_name` with vectors of length `dimension`.
    pub fn new(collection_name: &str, dimension: usize) -> (store: VectorStore)
        ensures
            store.name() == collection_name@,
            store.size() == dimension,
    {
        VectorStore { collection_name: collection_name.to_owned(), dimension }
    }

    /// The name of the collection.
    pub fn collection_name(&self) -> (name: &str)
        ensures
            name@ == self.name(),
    {
        self.collection_name.as_str()
    }

    /// What to do so that the collection exists, given whether it does:
    /// nothing if it does, else create it for vectors of the configured
    /// length, compared by cosine similarity.
    pub fn ensure_collection(&self, exists: bool) -> (create: Option<CollectionSpec>)
        ensures
            exists <==> create is None,
            create matches Some(spec) ==> {
                &&& spec.name@ == self.name()
                &&& spec.size == self.size()
                &&& spec.distance == Distance::Cosine
            },
    {
        if exists {
            None
        } else {
            Some(
                CollectionSpec {
                    name: self.collection_name.clone(),
                    size: self.dimension as u64,
                    distance: Distance::Cosine,
                },
            )
        }
    }

    /// The record to write for one chunk. Handed back by a search, the
    /// record reads as the chunk it was made from.
    pub fn upsert(
        &self,
        id: u128,
        document_id: u128,
        chunk_index: usize,
        content: &str,
        embedding: Embedding,
    ) -> (record: PointRecord)
        ensures
            record.holds(
                IndexPointView { id, document_id, chunk_index, content: content@, vector: embedding@ },
            ),
            forall|score: Score| #[trigger]
                record.read_back(score) == Some(
                    SearchResultView { id, score, document_id, chunk_index, content: content@ },
                ),
    {
        let point = IndexPoint {
            id,
            document_id,
            chunk_index,
            content: content.to_owned(),
            vector: embedding,
        };
        let key = point.key_text();
        let payload = point.payload();
        proof {
            lemma_chunk_payload_reads(document_id, chunk_index, content@);
        }
        PointRecord { key, vector: point.vector, payload }
    }

    /// The records to write for a batch of points, one per point, in order.
    pub fn upsert_batch(&self, points: Vec<IndexPoint>) -> (records: Vec<PointRecord>)
        ensures
            records@.len() == points@.len(),
            forall|k: int|
                0 <= k < points@.len() ==> (#[trigger] records@[k]).holds(points@[k]@),
            forall|k: int, score: Score|
                0 <= k < points@.len() ==> #[trigger] records@[k].read_back(score) == Some(
                    SearchResultView {
                        id: points@[k].id,
                        score,
                        document_id: points@[k].document_id,
                        chunk_index: points@[k].chunk_index,
                        content: points@[k].content@,
                    },
                ),
    {
        let mut records: Vec<PointRecord> = Vec::new();
        let mut k: usize = 0;
        while k < points.len()
            invariant
                k <= points.len(),
                records@.len() == k,
                forall|j: int| 0 <= j < k ==> (#[trigger] records@[j]).holds(points@[j]@),
                forall|j: int, score: Score|
                    0 <= j < k ==> #[trigger] records@[j].read_back(score) == Some(
                        SearchResultView {
                            id: points@[j].id,
                            score,
                            document_id: points@[j].document_id,
                            chunk_index: points@[j].chunk_index,
                            content: points@[j].content@,
                        },
                    ),
            decreases points.len() - k,
        {
            let point = &points[k];
            let record = self.upsert(
                point.id,
                point.document_id,
                point.chunk_index,
                point.content.as_str(),
                point.vector.clone(),
            );
            records.push(record);
            k += 1;
        }
        records
    }

    /// How many candidates to ask the index for.
    pub fn search_limit(limit: usize) -> (wide: u64)
        ensures
            wide == limit,
    {
        limit as u64
    }

    /// Reads the search results off the points that the index handed back,
    /// dropping the points that do not count and keeping the order of the
    /// rest.
    pub fn search(&self, points: &Vec<StoredPoint>) -> (results: Vec<SearchResult>)
        ensures
            results_view(results@) == read_points(points@),
            results@.len() <= points@.len(),
    {
        search_results(points)
    }

    /// Which points belong to a document: those whose payload names it.
    pub fn delete_by_document(&self, document_id: u128) -> (filter: PayloadMatch)
        ensures
            filter.field@ == "document_id"@,
            filter.value@ == hyphenated(document_id),
    {
        PayloadMatch { field: "document_id".to_owned(), value: id_text(document_id) }
    }
}

/// Reads the search results off the points that a search handed back,
/// dropping the points that do not count and keeping the order of the rest.
pub fn search_results(points: &Vec<StoredPoint>) -> (results: Vec<SearchResult>)
    ensures
        results_view(results@) == read_points(points@),
        results@.len() <= points@.len(),
{
    let mut results: Vec<SearchResult> = Vec::new();
    let mut i: usize = 0;
    while i < points.len()
        invariant
            i <= points.len(),
            results@.len() <= i,
            results_view(results@) == read_points(points@.take(i as int)),
        decreases points.len() - i,
    {
        assert(points@.take(i + 1).drop_last() =~= points@.take(i as int));
        match SearchResult::from_stored(&points[i]) {
            Some(result) => {
                results.push(result);
            },
            None => {},
        }
        i += 1;
    }
    assert(points@.take(points.len() as int) =~= points@);
    results
}

} // verus!
