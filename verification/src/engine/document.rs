//! Documents and their chunks.

use vstd::prelude::*;
use crate::adapters::clock::{now, Timestamp};
use crate::adapters::ids::time_ordered_id;
use crate::engine::chunking::{
    chunk_step, covers, gapless, is_chunk, is_chunking, is_sentence_end, last_sentence_end,
    lemma_chunk_count_unique, lemma_chunk_end_bounds, lemma_chunking_covers,
    lemma_chunking_shape, lemma_last_sentence_end, Piece,
};
use crate::engine::text::{code_points, string_of};

verus! {

/// Where a document came from.
#[derive(Debug, Clone, Copy, PartialEq, Eq, Structural)]
pub enum SourceType {
    Pdf,
    ArxivPaper,
    WebPage,
    QuestDb,
    ThetaData,
    Manual,
}

impl SourceType {
    /// The name of the variant as it is written in source code.
    pub fn label(&self) -> (name: &'static str)
        ensures
            name@ == match *self {
                SourceType::Pdf => "Pdf"@,
                SourceType::ArxivPaper => "ArxivPaper"@,
                SourceType::WebPage => "WebPage"@,
                SourceType::QuestDb => "QuestDb"@,
                SourceType::ThetaData => "ThetaData"@,
                SourceType::Manual => "Manual"@,
            },
    {
        match self {
            SourceType::Pdf => "Pdf",
            SourceType::ArxivPaper => "ArxivPaper",
            SourceType::WebPage => "WebPage",
            SourceType::QuestDb => "QuestDb",
            SourceType::ThetaData => "ThetaData",
            SourceType::Manual => "Manual",
        }
    }

    /// The name of the variant in stored records: lower case, words joined
    /// by underscores.
    pub fn as_str(&self) -> (name: &'static str)
        ensures
            name@ == match *self {
                SourceType::Pdf => "pdf"@,
                SourceType::ArxivPaper => "arxiv_paper"@,
                SourceType::WebPage => "web_page"@,
                SourceType::QuestDb => "quest_db"@,
                SourceType::ThetaData => "theta_data"@,
                SourceType::Manual => "manual"@,
            },
    {
        match self {
            SourceType::Pdf => "pdf",
            SourceType::ArxivPaper => "arxiv_paper",
            SourceType::WebPage => "web_page",
            SourceType::QuestDb => "quest_db",
            SourceType::ThetaData => "theta_data",
            SourceType::Manual => "manual",
        }
    }
}

/// What is known about a document besides its text.
#[derive(Debug, Clone)]
pub struct DocumentMetadata {
    pub authors: Vec<String>,
    pub tags: Vec<String>,
    pub abstract_text: Option<String>,
    pub doi: Option<String>,
    pub arxiv_id: Option<String>,
    pub publication_date: Option<Timestamp>,
    pub page_count: Option<usize>,
    pub word_count: Option<usize>,
    /// Free-form extension data, as JSON text.
    pub extra: String,
}

impl DocumentMetadata {
    /// Whether nothing is recorded: no authors, no tags, every optional
    /// field absent, and the JSON value `null` as extension data.
    pub open spec fn is_blank(self) -> bool {
        &&& self.authors@.len() == 0
        &&& self.tags@.len() == 0
        &&& self.abstract_text is None
        &&& self.doi is None
        &&& self.arxiv_id is None
        &&& self.publication_date is None
        &&& self.page_count is None
        &&& self.word_count is None
        &&& self.extra@ == "null"@
    }
}

impl Default for DocumentMetadata {
    fn default() -> (metadata: DocumentMetadata)
        ensures
            metadata.is_blank(),
    {
        DocumentMetadata {
            authors: Vec::new(),
            tags: Vec::new(),
            abstract_text: None,
            doi: None,
            arxiv_id: None,
            publication_date: None,
            page_count: None,
            word_count: None,
            extra: "null".to_owned(),
        }
    }
}

/// Each component is the bit pattern of a single-precision number.
pub type Embedding = Vec<u32>;

/// A span of a document's text, the unit that is embedded and retrieved.
#[derive(Debug, Clone)]
pub struct DocumentChunk {
    pub id: u128,
    /// The document this chunk was cut from.
    pub document_id: u128,
    pub content: String,
    /// Position among the document's chunks, from zero.
    pub chunk_index: usize,
    /// Offset, in code points, of the chunk's first code point.
    pub start_char: usize,
    /// Offset, in code points, just past the chunk's last code point.
    pub end_char: usize,
    pub embedding: Option<Embedding>,
}

impl DocumentChunk {
    /// The chunk's text with the range it was taken from.
    pub open spec fn piece(self) -> Piece {
        (self.content, self.start_char, self.end_char)
    }

    /// Whether this is the chunk made from `piece` under the identifier `id`,
    /// as number `k` of document `document_id`, not yet embedded.
    pub open spec fn is_made_from(self, piece: Piece, id: u128, document_id: u128, k: int) -> bool {
        &&& self.id == id
        &&& self.document_id == document_id
        &&& self.content@ == piece.0@
        &&& self.chunk_index == k
        &&& self.start_char == piece.1
        &&& self.end_char == piece.2
        &&& self.embedding is None
    }
}

/// A document of the knowledge base.
#[derive(Debug, Clone)]
pub struct Document {
    pub id: u128,
    pub title: String,
    pub content: String,
    pub source_type: SourceType,
    pub source_url: Option<String>,
    pub metadata: DocumentMetadata,
    pub chunks: Vec<DocumentChunk>,
    pub created_at: Timestamp,
    pub updated_at: Timestamp,
}

impl Document {
    /// The texts and ranges of the document's chunks, in order.
    pub open spec fn pieces(self) -> Seq<Piece> {
        Seq::new(self.chunks@.len(), |k: int| self.chunks@[k].piece())
    }

    /// Whether `self` differs from `before` at most in its chunks and in the
    /// time of its last update.
    pub open spec fn same_but_chunks(self, before: Document) -> bool {
        &&& self.id == before.id
        &&& self.title == before.title
        &&& self.content == before.content
        &&& self.source_type == before.source_type
        &&& self.source_url == before.source_url
        &&& self.metadata == before.metadata
        &&& self.created_at == before.created_at
    }

    /// A document with the given identity and creation time, without source
    /// URL, metadata or chunks.
    pub fn with_identity(
        id: u128,
        created: Timestamp,
        title: &str,
        content: &str,
        source_type: SourceType,
    ) -> (document: Document)
        ensures
            document.id == id,
            document.title@ == title@,
            document.content@ == content@,
            document.source_type == source_type,
            document.source_url is None,
            document.metadata.is_blank(),
            document.chunks@.len() == 0,
            document.created_at == created,
            document.updated_at == created,
    {
        Document {
            id,
            title: title.to_owned(),
            content: content.to_owned(),
            source_type,
            source_url: None,
            metadata: DocumentMetadata::default(),
            chunks: Vec::new(),
            created_at: created,
            updated_at: created,
        }
    }

    /// A new document with a fresh time-ordered identifier, created now.
    pub fn new(title: &str, content: &str, source_type: SourceType) -> (document: Document)
        ensures
            document.title@ == title@,
            document.content@ == content@,
            document.source_type == source_type,
            document.source_url is None,
            document.metadata.is_blank(),
            document.chunks@.len() == 0,
            document.updated_at == document.created_at,
    {
        let created = now();
        Document::with_identity(time_ordered_id(), created, title, content, source_type)
    }

    /// The same document with its source URL set.
    pub fn with_source_url(self, url: &str) -> (document: Document)
        ensures
            document.source_url is Some,
            document.source_url->0@ == url@,
            document.id == self.id,
            document.title == self.title,
            document.content == self.content,
            document.source_type == self.source_type,
            document.metadata == self.metadata,
            document.chunks == self.chunks,
            document.created_at == self.created_at,
            document.updated_at == self.updated_at,
    {
        let mut document = self;
        document.source_url = Some(url.to_owned());
        document
    }

    /// The same document with its metadata replaced.
    pub fn with_metadata(self, metadata: DocumentMetadata) -> (document: Document)
        ensures
            document.metadata == metadata,
            document.id == self.id,
            document.title == self.title,
            document.content == self.content,
            document.source_type == self.source_type,
            document.source_url == self.source_url,
            document.chunks == self.chunks,
            document.created_at == self.created_at,
            document.updated_at == self.updated_at,
    {
        let mut document = self;
        document.metadata = metadata;
        document
    }

    /// Replaces the chunk list by one chunk per piece, identified by `ids` in
    /// order, and records `updated` as the time of the change. Nothing is
    /// changed, and `false` is returned, unless there is one identifier per
    /// piece.
    pub fn set_chunks(&mut self, pieces: &Vec<Piece>, ids: &Vec<u128>, updated: Timestamp) -> (done:
        bool)
        ensures
            done == (ids@.len() == pieces@.len()),
            !done ==> *final(self) == *old(self),
            done ==> {
                &&& final(self).same_but_chunks(*old(self))
                &&& final(self).updated_at == updated
                &&& final(self).chunks@.len() == pieces@.len()
                &&& forall|k: int|
                    0 <= k < pieces@.len() ==> (#[trigger] final(self).chunks@[k]).is_made_from(
                        pieces@[k],
                        ids@[k],
                        old(self).id,
                        k,
                    )
            },
    {
        if ids.len() != pieces.len() {
            return false;
        }
        let mut chunks: Vec<DocumentChunk> = Vec::new();
        let mut k: usize = 0;
        while k < pieces.len()
            invariant
                ids.len() == pieces.len(),
                k <= pieces.len(),
                chunks.len() == k,
                self.id == old(self).id,
                forall|j: int|
                    0 <= j < k ==> (#[trigger] chunks@[j]).is_made_from(
                        pieces[j],
                        ids[j],
                        self.id,
                        j,
                    ),
            decreases pieces.len() - k,
        {
            chunks.push(
                DocumentChunk {
                    id: ids[k],
                    document_id: self.id,
                    content: pieces[k].0.clone(),
                    chunk_index: k,
                    start_char: pieces[k].1,
                    end_char: pieces[k].2,
                    embedding: None,
                },
            );
            k += 1;
        }
        self.chunks = chunks;
        self.updated_at = updated;
        true
    }

    /// Cuts the content into chunks, replacing any earlier chunk list. Every
    /// chunk gets a fresh time-ordered identifier.
    pub fn chunk(&mut self, chunk_size: usize, overlap: usize)
        ensures
            final(self).same_but_chunks(*old(self)),
            is_chunking(
                final(self).pieces(),
                old(self).content@,
                chunk_size as int,
                overlap as int,
            ),
            old(self).content@.len() == 0 <==> final(self).chunks@.len() == 0,
            forall|k: int|
                0 <= k < final(self).chunks@.len() ==> {
                    &&& (#[trigger] final(self).chunks@[k]).document_id == old(self).id
                    &&& final(self).chunks@[k].chunk_index == k
                    &&& final(self).chunks@[k].embedding is None
                },
    {
        let pieces = chunk_text(self.content.as_str(), chunk_size, overlap);
        let ids = fresh_ids(pieces.len());
        let updated = now();
        self.set_chunks(&pieces, &ids, updated);
    }
}

/// `count` fresh time-ordered identifiers.
fn fresh_ids(count: usize) -> (ids: Vec<u128>)
    ensures
        ids.len() == count,
{
    let mut ids: Vec<u128> = Vec::new();
    while ids.len() < count
        invariant
            ids.len() <= count,
        decreases count - ids.len(),
    {
        ids.push(time_ordered_id());
    }
    ids
}

/// Whether `c` ends a sentence.
fn ends_sentence(c: char) -> (yes: bool)
    ensures
        yes == is_sentence_end(c),
{
    c == '.' || c == '!' || c == '?'
}

/// Where to end the chunk that starts at `start` and whose window stops at
/// `limit`, short of the end of the text.
fn sentence_cut(chars: &Vec<char>, start: usize, limit: usize) -> (end: usize)
    requires
        start <= limit <= chars.len(),
        start < chars.len(),
    ensures
        end as int == if last_sentence_end(chars@, start + 1, limit as int) > start {
            last_sentence_end(chars@, start + 1, limit as int) + 1
        } else {
            limit as int
        },
{
    let mut i = limit;
    while i > start + 1
        invariant
            start <= limit <= chars.len(),
            start < chars.len(),
            i <= limit,
            i > start + 1 || last_sentence_end(chars@, start + 1, i as int) <= start,
            last_sentence_end(chars@, start + 1, limit as int) == last_sentence_end(
                chars@,
                start + 1,
                i as int,
            ),
        decreases i,
    {
        if ends_sentence(chars[i - 1]) {
            return i;
        }
        i -= 1;
        proof {
            lemma_last_sentence_end(chars@, start + 1, i as int);
        }
    }
    limit
}

/// Cuts `text` into chunks of at most `chunk_size` code points whose starts
/// lie `max(1, chunk_size - overlap)` apart.
///
/// Each piece carries its content and the offsets, in code points, of its
/// first code point and of the one after its last.
pub fn chunk_text(text: &str, chunk_size: usize, overlap: usize) -> (chunks: Vec<Piece>)
    ensures
        is_chunking(chunks@, text@, chunk_size as int, overlap as int),
        text@.len() == 0 <==> chunks.len() == 0,
        forall|k: int|
            0 <= k < chunks.len() ==> (#[trigger] chunks[k]).1 <= chunks[k].2 <= text@.len(),
        chunk_size > 0 ==> forall|k: int|
            0 <= k < chunks.len() ==> (#[trigger] chunks[k]).1 < chunks[k].2,
        forall|k: int|
            0 <= k < chunks.len() - 1 ==> chunks[k + 1].1 == (#[trigger] chunks[k]).1 + chunk_step(
                chunk_size as int,
                overlap as int,
            ),
        forall|k: int|
            0 <= k < chunks.len() - 1 ==> (#[trigger] chunks[k]).2 - chunks[k + 1].1 <= overlap,
        forall|k: int| 0 <= k < chunks.len() - 1 ==> (#[trigger] chunks[k]).2 <= chunks[k + 1].2,
        chunk_size > 0 && chunks.len() > 0 ==> chunks[chunks.len() - 1].2 == text@.len(),
        chunk_size > 0 && gapless(chunks@) ==> forall|pos: int|
            0 <= pos < text@.len() ==> #[trigger] covers(chunks@, pos),
{
    let mut chunks: Vec<Piece> = Vec::new();
    let chars = code_points(text);
    let total = chars.len();
    if total > 0 {
        let step: usize = if chunk_size > overlap {
            chunk_size - overlap
        } else {
            1
        };
        let mut start: usize = 0;
        assert(0 * step == 0);
        loop
            invariant_except_break
                start == chunks.len() * step,
                start < total,
                forall|k: int|
                    0 <= k < chunks.len() ==> is_chunk(
                        #[trigger] chunks[k],
                        text@,
                        chunk_size as int,
                        overlap as int,
                        k,
                    ),
            invariant
                chars@ == text@,
                total == chars.len(),
                total > 0,
                step == chunk_step(chunk_size as int, overlap as int),
            ensures
                is_chunking(chunks@, text@, chunk_size as int, overlap as int),
            decreases total - start,
        {
            let limit = if chunk_size < total - start {
                start + chunk_size
            } else {
                total
            };
            let end = if limit < total {
                sentence_cut(&chars, start, limit)
            } else {
                limit
            };
            proof {
                lemma_chunk_end_bounds(text@, start as int, chunk_size as int);
            }
            let content = string_of(&chars, start, end);
            let ghost k = chunks.len() as int;
            chunks.push((content, start, end));
            assert((k + 1) * step == k * step + step) by (nonlinear_arith);
            if step >= total - start {
                proof {
                    lemma_chunk_count_unique(total as int, step as int, k + 1);
                }
                break ;
            }
            start = start + step;
        }
    }
    proof {
        lemma_chunking_shape(chunks@, text@, chunk_size as int, overlap as int);
        if chunk_size > 0 && gapless(chunks@) {
            assert forall|pos: int| 0 <= pos < text@.len() implies #[trigger] covers(
                chunks@,
                pos,
            ) by {
                lemma_chunking_covers(chunks@, text@, chunk_size as int, overlap as int, pos);
            }
        }
    }
    chunks
}

} // verus!
