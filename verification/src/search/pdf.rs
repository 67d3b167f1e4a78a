//! Documents from PDF files.

use vstd::prelude::*;
use crate::engine::document::{Document, DocumentMetadata, SourceType};
use crate::engine::text::{code_points, is_white_space, push_char, same_text, white_space};

verus! {

/// How many words `text` holds: the runs of code points that are not white
/// space.
pub open spec fn word_count(text: Seq<char>) -> nat
    decreases text.len(),
{
    if text.len() == 0 {
        0
    } else {
        let before = word_count(text.drop_last());
        let starts_word = !is_white_space(text.last()) && (text.len() == 1 || is_white_space(
            text[text.len() - 2],
        ));
        if starts_word {
            before + 1
        } else {
            before
        }
    }
}

/// The text of a file whose pages gave `pages`: the text of every page that
/// could be read, each followed by a line feed.
pub open spec fn joined_pages(pages: Seq<Option<String>>) -> Seq<char>
    decreases pages.len(),
{
    if pages.len() == 0 {
        Seq::empty()
    } else {
        joined_pages(pages.drop_last()) + match pages.last() {
            Some(text) => text@.push('\n'),
            None => Seq::empty(),
        }
    }
}

/// The title of a document from a file: the file's name without its
/// extension, or `Untitled` if the file has no such name.
pub open spec fn pdf_title(stem: Option<Seq<char>>) -> Seq<char> {
    match stem {
        Some(name) => name,
        None => "Untitled"@,
    }
}

/// Turns PDF files into documents.
#[derive(Debug, Clone, Copy, PartialEq, Eq, Structural)]
pub struct PdfProcessor {}

/// Counts the words of `text`.
pub fn count_words(text: &str) -> (count: usize)
    ensures
        count == word_count(text@),
{
    let chars = code_points(text);
    let mut count: usize = 0;
    let mut in_word = false;
    let mut i: usize = 0;
    while i < chars.len()
        invariant
            i <= chars.len(),
            count <= i,
            count == word_count(chars@.take(i as int)),
            in_word == (i > 0 && !is_white_space(chars@[i - 1])),
        decreases chars.len() - i,
    {
        let space = white_space(chars[i]);
        proof {
            let upto = chars@.take(i + 1);
            assert(upto.drop_last() =~= chars@.take(i as int));
        }
        if !space && !in_word {
            count += 1;
        }
        in_word = !space;
        i += 1;
    }
    assert(chars@.take(chars.len() as int) =~= chars@);
    count
}

impl PdfProcessor {
    /// A processor.
    pub fn new() -> (processor: PdfProcessor)
        ensures
            processor == (PdfProcessor {  }),
    {
        PdfProcessor {  }
    }

    /// Whether a file with this extension is taken for a PDF file.
    pub fn is_pdf(extension: Option<&str>) -> (yes: bool)
        ensures
            yes == match extension {
                Some(e) => e@ == "pdf"@,
                None => false,
            },
    {
        match extension {
            Some(e) => same_text(e, "pdf"),
            None => false,
        }
    }

    /// The text and the metadata of a file, given what reading each of its
    /// pages gave: the texts of the readable pages, each followed by a line
    /// feed; the number of pages, readable or not; and the number of words
    /// of the text.
    pub fn extract_pdf_content(pages: &Vec<Option<String>>) -> (content: (String, DocumentMetadata))
        ensures
            content.0@ == joined_pages(pages@),
            content.1.page_count == Some(pages@.len() as usize),
            content.1.word_count == Some(word_count(joined_pages(pages@)) as usize),
            content.1.authors@.len() == 0,
            content.1.tags@.len() == 0,
            content.1.abstract_text is None,
            content.1.doi is None,
            content.1.arxiv_id is None,
            content.1.publication_date is None,
            content.1.extra@ == "null"@,
    {
        let mut text = String::new();
        let mut k: usize = 0;
        while k < pages.len()
            invariant
                k <= pages.len(),
                text@ == joined_pages(pages@.take(k as int)),
            decreases pages.len() - k,
        {
            assert(pages@.take(k + 1).drop_last() =~= pages@.take(k as int));
            match &pages[k] {
                Some(page) => {
                    text.append(page.as_str());
                    push_char(&mut text, '\n');
                },
                None => {},
            }
            k += 1;
        }
        assert(pages@.take(pages.len() as int) =~= pages@);
        let words = count_words(text.as_str());
        let mut metadata = DocumentMetadata::default();
        metadata.page_count = Some(pages.len());
        metadata.word_count = Some(words);
        (text, metadata)
    }

    /// The document for a file: titled after the file, holding its text and
    /// metadata, and pointing at the file as its source.
    pub fn process(
        &self,
        stem: Option<&str>,
        path: &str,
        text: &str,
        metadata: DocumentMetadata,
    ) -> (document: Document)
        ensures
            document.title@ == pdf_title(
                match stem {
                    Some(name) => Some(name@),
                    None => None,
                },
            ),
            document.content@ == text@,
            document.source_type == SourceType::Pdf,
            document.metadata == metadata,
            document.source_url is Some,
            document.source_url->0@ == "file://"@ + path@,
            document.chunks@.len() == 0,
    {
        let title = match stem {
            Some(name) => name,
            None => "Untitled",
        };
        let mut document = Document::new(title, text, SourceType::Pdf);
        document.metadata = metadata;
        let mut url = "file://".to_owned();
        url.append(path);
        document.source_url = Some(url);
        document
    }

    /// The documents of a directory, given what processing each of its PDF
    /// files gave: those that could be processed, in order.
    pub fn process_directory(&self, processed: Vec<Option<Document>>) -> (documents: Vec<Document>)
        ensures
            documents@ == processed@.filter(|d: Option<Document>| d is Some).map_values(
                |d: Option<Document>| d->0,
            ),
    {
        let ghost pred = |d: Option<Document>| d is Some;
        let ghost pick = |d: Option<Document>| d->0;
        let mut documents: Vec<Document> = Vec::new();
        let mut processed = processed;
        let ghost all = processed@;
        let mut rest: Vec<Option<Document>> = Vec::new();
        while processed.len() > 0
            invariant
                rest@.len() + processed@.len() == all.len(),
                forall|j: int| 0 <= j < processed@.len() ==> processed@[j] == all[j],
                forall|j: int|
                    0 <= j < rest@.len() ==> #[trigger] rest@[j] == all[all.len() - 1 - j],
            decreases processed.len(),
        {
            let last = processed.pop();
            match last {
                Some(item) => { rest.push(item); },
                None => {},
            }
        }
        proof {
            reveal(Seq::filter);
        }
        let ghost mut done: int = 0;
        while rest.len() > 0
            invariant
                0 <= done <= all.len(),
                rest@.len() == all.len() - done,
                forall|j: int|
                    0 <= j < rest@.len() ==> #[trigger] rest@[j] == all[all.len() - 1 - j],
                documents@ == all.take(done).filter(pred).map_values(pick),
                pred == (|d: Option<Document>| d is Some),
                pick == (|d: Option<Document>| d->0),
            decreases rest.len(),
        {
            let next = rest.pop();
            proof {
                assert(all.take(done + 1) =~= all.take(done).push(all[done]));
                all.take(done).lemma_filter_push(all[done], pred);
            }
            match next {
                Some(Some(document)) => {
                    documents.push(document);
                },
                _ => {},
            }
            proof {
                done = done + 1;
            }
        }
        assert(all.take(all.len() as int) =~= all);
        documents
    }
}

impl Default for PdfProcessor {
    fn default() -> (processor: PdfProcessor)
        ensures
            processor == (PdfProcessor {  }),
    {
        PdfProcessor::new()
    }
}

} // verus!
