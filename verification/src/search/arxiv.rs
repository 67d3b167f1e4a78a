//! Search of arXiv.

use vstd::prelude::*;
use crate::adapters::clock::{parse_rfc3339, parsed_rfc3339, Timestamp};
use crate::adapters::pattern::{first_groups, regex_groups};
use crate::adapters::url::{encode, url_encoded};
use crate::engine::text::{
    code_points, decimal, decimal_text, string_of, strings_view, trim, trimmed, unbreak, unbroken,
};
use crate::search::{ExternalSearchResult, SearchProvider};

verus! {

/// The pattern of an entry of the feed.
pub open spec fn entry_pattern() -> Seq<char> {
    "<entry>(.*?)</entry>"@
}

/// The pattern of an entry's identifier.
pub open spec fn id_pattern() -> Seq<char> {
    "<id>(.*?)</id>"@
}

/// The pattern of an entry's title.
pub open spec fn title_pattern() -> Seq<char> {
    "<title>(.*?)</title>"@
}

/// The pattern of an entry's summary.
pub open spec fn summary_pattern() -> Seq<char> {
    "<summary>(.*?)</summary>"@
}

/// The pattern of an author's name.
pub open spec fn name_pattern() -> Seq<char> {
    "<name>(.*?)</name>"@
}

/// The pattern of an entry's date of publication.
pub open spec fn published_pattern() -> Seq<char> {
    "<published>(.*?)</published>"@
}

/// The first of a list of texts, or the empty text.
pub open spec fn first_or_empty(texts: Seq<Seq<char>>) -> Seq<char> {
    if texts.len() > 0 {
        texts[0]
    } else {
        Seq::empty()
    }
}

/// The index just past the last slash of `text`, or 0 if it holds none.
pub open spec fn after_last_slash(text: Seq<char>) -> int
    decreases text.len(),
{
    if text.len() == 0 {
        0
    } else if text.last() == '/' {
        text.len() as int
    } else {
        after_last_slash(text.drop_last())
    }
}

/// The arXiv identifier in a URL: what follows the last slash, or all of it
/// if there is no slash.
pub open spec fn arxiv_id_of(url: Seq<char>) -> Seq<char> {
    url.skip(after_last_slash(url))
}

/// The model of an `ExternalSearchResult` of arXiv.
pub struct ArxivEntryView {
    pub title: Seq<char>,
    pub summary: Seq<char>,
    pub url: Seq<char>,
    pub authors: Seq<Seq<char>>,
    pub published: Option<(i64, u32)>,
    pub arxiv_id: Seq<char>,
}

/// What an entry of the feed says: identifier, title and summary are the
/// first of their kind in the entry, title and summary without the white
/// space around them and on one line; the authors are all the names in the
/// entry; the date is read in the format of RFC 3339.
pub open spec fn entry_view(entry: Seq<char>) -> ArxivEntryView {
    let id = first_or_empty(regex_groups(id_pattern(), entry));
    let published = regex_groups(published_pattern(), entry);
    ArxivEntryView {
        title: line_or_empty(regex_groups(title_pattern(), entry)),
        summary: line_or_empty(regex_groups(summary_pattern(), entry)),
        url: id,
        authors: regex_groups(name_pattern(), entry),
        published: if published.len() > 0 {
            parsed_rfc3339(published[0])
        } else {
            None
        },
        arxiv_id: arxiv_id_of(id),
    }
}

/// The first of a list of texts without the white space around it and on
/// one line, or the empty text.
pub open spec fn line_or_empty(texts: Seq<Seq<char>>) -> Seq<char> {
    if texts.len() > 0 {
        unbroken(trimmed(texts[0]))
    } else {
        Seq::empty()
    }
}

/// Whether `result` says what `entry` says.
pub open spec fn tells(result: ExternalSearchResult, entry: ArxivEntryView) -> bool {
    &&& result.title@ == entry.title
    &&& result.summary@ == entry.summary
    &&& result.url@ == entry.url
    &&& result.source@ == "arXiv"@
    &&& strings_view(result.authors@) == entry.authors
    &&& match result.published {
        Some(t) => entry.published == Some((t.secs, t.nanos)),
        None => entry.published is None,
    }
    &&& result.arxiv_id@ == entry.arxiv_id
}

/// The URL of a search of arXiv for at most `limit` hits.
pub open spec fn arxiv_url(query: Seq<char>, limit: nat) -> Seq<char> {
    "http://export.arxiv.org/api/query?search_query=all:"@ + url_encoded(query)
        + "&start=0&max_results="@ + decimal(limit)
}

/// A client of the arXiv search.
#[derive(Debug, Clone)]
pub struct ArxivSearcher {
    max_results: usize,
}

/// What the client calls itself towards the service.
pub fn user_agent() -> (agent: &'static str)
    ensures
        agent@ == "PriorNotebook/1.0"@,
{
    "PriorNotebook/1.0"
}

/// The first of `texts`, copied, or the empty text.
fn first_of(texts: &Vec<String>) -> (first: String)
    ensures
        first@ == first_or_empty(strings_view(texts@)),
{
    if texts.len() > 0 {
        texts[0].clone()
    } else {
        String::new()
    }
}

/// `text` without the white space around it and on one line.
pub fn tidy(text: &str) -> (line: String)
    ensures
        line@ == unbroken(trimmed(text@)),
{
    unbreak(trim(text).as_str())
}

/// The first of `texts` without the white space around it and on one line,
/// or the empty text.
fn line_of(texts: &Vec<String>) -> (line: String)
    ensures
        line@ == line_or_empty(strings_view(texts@)),
{
    if texts.len() > 0 {
        tidy(texts[0].as_str())
    } else {
        String::new()
    }
}

impl ArxivSearcher {
    /// The most hits that the client ever asks for.
    pub closed spec fn cap(self) -> usize {
        self.max_results
    }

    /// A client that asks for at most `max_results` hits.
    pub fn new(max_results: usize) -> (searcher: ArxivSearcher)
        ensures
            searcher.cap() == max_results,
    {
        ArxivSearcher { max_results }
    }

    /// The arXiv identifier in a URL.
    pub fn parse_arxiv_id(url: &str) -> (id: String)
        ensures
            id@ == arxiv_id_of(url@),
    {
        let chars = code_points(url);
        let mut i: usize = chars.len();
        assert(chars@.take(i as int) =~= chars@);
        while i > 0 && chars[i - 1] != '/'
            invariant
                i <= chars.len(),
                after_last_slash(chars@) == after_last_slash(chars@.take(i as int)),
            decreases i,
        {
            assert(chars@.take(i as int).drop_last() =~= chars@.take(i - 1));
            i -= 1;
        }
        assert(after_last_slash(chars@.take(i as int)) == i);
        let id = string_of(&chars, i, chars.len());
        id
    }

    /// Reads a point in time as the feed writes it.
    pub fn parse_datetime(text: &str) -> (time: Option<Timestamp>)
        ensures
            match time {
                Some(t) => parsed_rfc3339(text@) == Some((t.secs, t.nanos)),
                None => parsed_rfc3339(text@) is None,
            },
    {
        parse_rfc3339(text)
    }

    /// The URL to fetch for at most `max_results` hits for `query`, and
    /// never more than the client's cap.
    pub fn request_url(&self, query: &str, max_results: usize) -> (url: String)
        ensures
            url@ == arxiv_url(
                query@,
                if max_results <= self.cap() {
                    max_results as nat
                } else {
                    self.cap() as nat
                },
            ),
    {
        let limit = if max_results <= self.max_results {
            max_results
        } else {
            self.max_results
        };
        let mut url = "http://export.arxiv.org/api/query?search_query=all:".to_owned();
        url.append(encode(query).as_str());
        url.append("&start=0&max_results=");
        url.append(decimal_text(limit as u128).as_str());
        url
    }

    /// Reads one entry of the feed.
    fn parse_entry(entry: &str) -> (result: ExternalSearchResult)
        ensures
            tells(result, entry_view(entry@)),
    {
        let ids = first_groups("<id>(.*?)</id>", entry);
        let id = first_of(&ids);
        let titles = first_groups("<title>(.*?)</title>", entry);
        let summaries = first_groups("<summary>(.*?)</summary>", entry);
        let authors = first_groups("<name>(.*?)</name>", entry);
        let dates = first_groups("<published>(.*?)</published>", entry);
        let published = if dates.len() > 0 {
            Self::parse_datetime(dates[0].as_str())
        } else {
            None
        };
        let arxiv_id = Self::parse_arxiv_id(id.as_str());
        ExternalSearchResult {
            title: line_of(&titles),
            summary: line_of(&summaries),
            url: id,
            source: "arXiv".to_owned(),
            authors,
            published,
            arxiv_id,
        }
    }

    /// Reads the feed that the service answered with: one result for every
    /// entry, in the order of the feed.
    pub fn parse_atom_feed(&self, xml: &str) -> (results: Vec<ExternalSearchResult>)
        ensures
            results@.len() == regex_groups(entry_pattern(), xml@).len(),
            forall|k: int|
                0 <= k < results@.len() ==> tells(
                    #[trigger] results@[k],
                    entry_view(regex_groups(entry_pattern(), xml@)[k]),
                ),
    {
        let entries = first_groups("<entry>(.*?)</entry>", xml);
        let mut results: Vec<ExternalSearchResult> = Vec::new();
        let mut k: usize = 0;
        while k < entries.len()
            invariant
                k <= entries.len(),
                results@.len() == k,
                strings_view(entries@) == regex_groups(entry_pattern(), xml@),
                forall|j: int|
                    0 <= j < k ==> tells(
                        #[trigger] results@[j],
                        entry_view(regex_groups(entry_pattern(), xml@)[j]),
                    ),
            decreases entries.len() - k,
        {
            results.push(Self::parse_entry(entries[k].as_str()));
            k += 1;
        }
        results
    }
}

impl SearchProvider for ArxivSearcher {
    fn name(&self) -> (name: &str)
        ensures
            name@ == "arXiv"@,
    {
        "arXiv"
    }

    fn search_url(&self, query: &str, max_results: usize) -> (url: String)
        ensures
            url@ == arxiv_url(
                query@,
                if max_results <= self.cap() {
                    max_results as nat
                } else {
                    self.cap() as nat
                },
            ),
    {
        self.request_url(query, max_results)
    }
}

} // verus!
