use prior_notebook::adapters::clock::Timestamp;
use prior_notebook::engine::document::{chunk_text, Document, DocumentMetadata, SourceType};

fn pieces(text: &str, chunk_size: usize, overlap: usize) -> Vec<(String, usize, usize)> {
    chunk_text(text, chunk_size, overlap)
}

fn expect(items: &[(&str, usize, usize)]) -> Vec<(String, usize, usize)> {
    items.iter().map(|(s, a, b)| (s.to_string(), *a, *b)).collect()
}

#[test]
fn test_document_creation() {
    let doc = Document::new("Test", "Content here", SourceType::Manual);
    assert_eq!(doc.title, "Test");
    assert_eq!(doc.source_type, SourceType::Manual);
}

#[test]
fn test_chunking() {
    let mut doc = Document::new(
        "Test",
        "Hello world. This is a test. Another sentence here.",
        SourceType::Manual,
    );
    doc.chunk(20, 5);
    assert!(!doc.chunks.is_empty());
}

#[test]
fn chunk_text_cuts_at_sentence_ends() {
    let text = "Hello world. This is a test. Another sentence here.";
    let chunks = pieces(text, 20, 5);
    assert_eq!(
        chunks,
        expect(&[
            ("Hello world.", 0, 12),
            ("is is a test.", 15, 28),
            ("nother sentence here", 30, 50),
            (" here.", 45, 51),
        ])
    );
    for pair in chunks.windows(2) {
        assert!(pair[0].1 < pair[1].1);
        assert!(pair[0].2 <= pair[1].2);
    }
    assert_eq!(chunks.last().unwrap().2, text.chars().count());
}

#[test]
fn chunk_text_of_empty_text_is_empty() {
    assert!(pieces("", 20, 5).is_empty());
    assert!(pieces("", 0, 0).is_empty());
}

#[test]
fn chunk_text_of_text_yields_a_chunk() {
    assert_eq!(pieces("a", 20, 5), expect(&[("a", 0, 1)]));
    assert_eq!(pieces("One. Two. Three.", 100, 10), expect(&[("One. Two. Three.", 0, 16)]));
}

#[test]
fn chunk_text_ignores_a_terminator_that_opens_the_window() {
    assert_eq!(
        pieces(".aaaaaaaaaaaa", 5, 0),
        expect(&[(".aaaa", 0, 5), ("aaaaa", 5, 10), ("aaa", 10, 13)])
    );
}

#[test]
fn chunk_text_counts_code_points() {
    let text = "Héllo wörld. Ça va? Très bien!";
    assert_eq!(
        pieces(text, 12, 3),
        expect(&[
            ("Héllo wörld.", 0, 12),
            ("ld. Ça va?", 9, 19),
            ("? Très bien!", 18, 30),
            ("en!", 27, 30),
        ])
    );
}

#[test]
fn chunk_text_steps_by_one_when_overlap_is_not_below_size() {
    assert_eq!(
        pieces("abcdef", 4, 10),
        expect(&[
            ("abcd", 0, 4),
            ("bcde", 1, 5),
            ("cdef", 2, 6),
            ("def", 3, 6),
            ("ef", 4, 6),
            ("f", 5, 6),
        ])
    );
    assert_eq!(
        pieces("abcdef", 0, 0),
        expect(&[("", 0, 0), ("", 1, 1), ("", 2, 2), ("", 3, 3), ("", 4, 4), ("", 5, 5)])
    );
}

#[test]
fn chunk_text_keeps_the_last_window_whole() {
    assert_eq!(
        pieces("a.b.c.d.e", 4, 2),
        expect(&[("a.b.", 0, 4), ("b.c.", 2, 6), ("c.d.", 4, 8), ("d.e", 6, 9), ("e", 8, 9)])
    );
}

#[test]
fn chunk_text_takes_huge_sizes() {
    assert_eq!(pieces("abc", usize::MAX, 0), expect(&[("abc", 0, 3)]));
    assert_eq!(pieces("abc", usize::MAX, usize::MAX), expect(&[("abc", 0, 3), ("bc", 1, 3), ("c", 2, 3)]));
    assert_eq!(pieces("abc", 1, usize::MAX), expect(&[("a", 0, 1), ("b", 1, 2), ("c", 2, 3)]));
}

#[test]
fn chunks_without_overlap_cover_the_text() {
    let text = "no terminators here at all just words";
    let chunks = pieces(text, 7, 2);
    let total = text.chars().count();
    for pos in 0..total {
        assert!(chunks.iter().any(|c| c.1 <= pos && pos < c.2));
    }
    for pair in chunks.windows(2) {
        assert_eq!(pair[1].1 - pair[0].1, 5);
        assert!(pair[0].2 - pair[1].1 <= 2);
    }
}

#[test]
fn new_document_is_bare() {
    let doc = Document::new("Title", "Body", SourceType::WebPage);
    assert_eq!(doc.content, "Body");
    assert!(doc.source_url.is_none());
    assert!(doc.chunks.is_empty());
    assert_eq!(doc.created_at, doc.updated_at);
    assert!(doc.metadata.authors.is_empty());
    assert!(doc.metadata.tags.is_empty());
    assert!(doc.metadata.abstract_text.is_none());
    assert!(doc.metadata.doi.is_none());
    assert!(doc.metadata.arxiv_id.is_none());
    assert!(doc.metadata.publication_date.is_none());
    assert!(doc.metadata.page_count.is_none());
    assert!(doc.metadata.word_count.is_none());
    assert_eq!(doc.metadata.extra, "null");
}

#[test]
fn new_documents_get_distinct_time_ordered_ids() {
    let first = Document::new("a", "b", SourceType::Manual);
    let second = Document::new("a", "b", SourceType::Manual);
    assert!(first.id < second.id);
    assert_eq!((first.id >> 76) & 0xf, 7);
}

#[test]
fn with_identity_sets_what_it_is_given() {
    let created = Timestamp { secs: 1_700_000_000, nanos: 5 };
    let doc = Document::with_identity(42, created, "T", "C", SourceType::Pdf);
    assert_eq!(doc.id, 42);
    assert_eq!(doc.created_at, created);
    assert_eq!(doc.updated_at, created);
    assert_eq!(doc.title, "T");
    assert_eq!(doc.content, "C");
    assert_eq!(doc.source_type, SourceType::Pdf);
}

#[test]
fn builders_set_one_field() {
    let created = Timestamp { secs: 1, nanos: 2 };
    let doc = Document::with_identity(7, created, "T", "C", SourceType::Manual)
        .with_source_url("http://example.org/x");
    assert_eq!(doc.source_url.as_deref(), Some("http://example.org/x"));
    assert_eq!(doc.id, 7);
    let mut metadata = DocumentMetadata::default();
    metadata.tags.push("quant".to_string());
    metadata.page_count = Some(3);
    let doc = doc.with_metadata(metadata);
    assert_eq!(doc.metadata.tags, vec!["quant".to_string()]);
    assert_eq!(doc.metadata.page_count, Some(3));
    assert_eq!(doc.source_url.as_deref(), Some("http://example.org/x"));
    assert_eq!(doc.title, "T");
}

#[test]
fn set_chunks_replaces_the_list() {
    let created = Timestamp { secs: 10, nanos: 0 };
    let later = Timestamp { secs: 20, nanos: 0 };
    let mut doc = Document::with_identity(9, created, "T", "abcdef", SourceType::Manual);
    let text_pieces = vec![("abc".to_string(), 0, 3), ("def".to_string(), 3, 6)];
    assert!(!doc.set_chunks(&text_pieces, &vec![100], later));
    assert!(doc.chunks.is_empty());
    assert_eq!(doc.updated_at, created);
    assert!(doc.set_chunks(&text_pieces, &vec![100, 101], later));
    assert_eq!(doc.chunks.len(), 2);
    assert_eq!(doc.chunks[0].id, 100);
    assert_eq!(doc.chunks[1].id, 101);
    assert_eq!(doc.chunks[1].document_id, 9);
    assert_eq!(doc.chunks[1].chunk_index, 1);
    assert_eq!(doc.chunks[1].content, "def");
    assert_eq!(doc.chunks[1].start_char, 3);
    assert_eq!(doc.chunks[1].end_char, 6);
    assert!(doc.chunks[1].embedding.is_none());
    assert_eq!(doc.updated_at, later);
    assert_eq!(doc.created_at, created);
    assert!(doc.set_chunks(&vec![("abcdef".to_string(), 0, 6)], &vec![5], later));
    assert_eq!(doc.chunks.len(), 1);
    assert_eq!(doc.chunks[0].id, 5);
}

#[test]
fn chunking_again_gives_the_same_spans() {
    let mut doc = Document::new("T", "One two. Three four. Five six seven.", SourceType::Manual);
    doc.chunk(10, 3);
    let first: Vec<(String, usize, usize, usize)> = doc
        .chunks
        .iter()
        .map(|c| (c.content.clone(), c.chunk_index, c.start_char, c.end_char))
        .collect();
    let id = doc.id;
    doc.chunk(10, 3);
    let second: Vec<(String, usize, usize, usize)> = doc
        .chunks
        .iter()
        .map(|c| (c.content.clone(), c.chunk_index, c.start_char, c.end_char))
        .collect();
    assert_eq!(first, second);
    assert_eq!(doc.id, id);
    for (k, chunk) in doc.chunks.iter().enumerate() {
        assert_eq!(chunk.chunk_index, k);
        assert_eq!(chunk.document_id, id);
        assert!(chunk.end_char > chunk.start_char);
    }
    let expected: Vec<(String, usize, usize)> = chunk_text(&doc.content, 10, 3);
    assert_eq!(expected.len(), doc.chunks.len());
}

#[test]
fn chunking_an_empty_document_gives_no_chunks() {
    let mut doc = Document::new("T", "", SourceType::Manual);
    doc.chunk(512, 50);
    assert!(doc.chunks.is_empty());
}

#[test]
fn source_types_have_names() {
    assert_eq!(SourceType::Pdf.label(), "Pdf");
    assert_eq!(SourceType::ArxivPaper.label(), "ArxivPaper");
    assert_eq!(SourceType::WebPage.label(), "WebPage");
    assert_eq!(SourceType::QuestDb.label(), "QuestDb");
    assert_eq!(SourceType::ThetaData.label(), "ThetaData");
    assert_eq!(SourceType::Manual.label(), "Manual");
    assert_eq!(SourceType::Pdf.as_str(), "pdf");
    assert_eq!(SourceType::ArxivPaper.as_str(), "arxiv_paper");
    assert_eq!(SourceType::WebPage.as_str(), "web_page");
    assert_eq!(SourceType::QuestDb.as_str(), "quest_db");
    assert_eq!(SourceType::ThetaData.as_str(), "theta_data");
    assert_eq!(SourceType::Manual.as_str(), "manual");
}
