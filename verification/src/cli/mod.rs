//! The commands of the command line.

use vstd::prelude::*;
use vstd::string::StringSliceAdditionalSpecFns;
use vstd::utf8::{
    decode_utf8, encode_utf8_decode_utf8, encode_utf8_valid_utf8, is_char_boundary,
};
use crate::engine::text::same_text;

verus! {

/// What is shown of a text that may be too long for a line: the text itself
/// if it has at most `limit` bytes, else its first `limit` bytes followed by
/// three dots.
pub open spec fn shortened(text: Seq<char>, bytes: Seq<u8>, limit: int) -> Seq<char> {
    if bytes.len() <= limit {
        text
    } else {
        decode_utf8(bytes.subrange(0, limit)) + "..."@
    }
}

/// Shortens a text for display. Nothing is shown of a text that would have
/// to be cut between the bytes of a code point.
pub fn preview(text: &str, limit: usize) -> (shown: Option<String>)
    ensures
        shown is None <==> text.spec_bytes().len() > limit && !is_char_boundary(
            text.spec_bytes(),
            limit as int,
        ),
        shown matches Some(s) ==> s@ == shortened(text@, text.spec_bytes(), limit as int),
{
    proof {
        encode_utf8_valid_utf8(text@);
    }
    if text.as_bytes().len() <= limit {
        Some(text.to_owned())
    } else if text.is_char_boundary(limit) {
        let (head, _tail) = text.split_at(limit);
        proof {
            encode_utf8_decode_utf8(head@);
        }
        let mut shown = head.to_owned();
        shown.append("...");
        Some(shown)
    } else {
        None
    }
}

/// A command line as it was parsed.
#[derive(Debug, Clone)]
pub struct Cli {
    pub command: Commands,
    /// The path of the configuration file.
    pub config: String,
    /// Whether to say more than usual.
    pub verbose: bool,
}

/// What the command line asks for.
#[derive(Debug, Clone)]
pub enum Commands {
    /// Search the knowledge base.
    Search { query: String, limit: usize, format: String },
    /// Search arXiv for papers.
    Arxiv { query: String, max_results: usize, ingest: bool },
    /// Ingest documents.
    Ingest { source: IngestSource },
    /// Query trading data.
    Trading { data: TradingData },
    /// Start the server.
    Serve { host: String, port: u16, workers: Option<usize> },
    /// Manage security settings.
    Security { action: SecurityAction },
}

/// What to ingest.
#[derive(Debug, Clone)]
pub enum IngestSource {
    /// A PDF file, or a directory of them.
    Pdf { path: String, recursive: bool },
    /// What a URL points to.
    Url { url: String },
    /// Plain text from a file, or from standard input if the file is `-` or
    /// missing.
    Text { title: String, file: Option<String> },
}

/// Which trading data to fetch.
#[derive(Debug, Clone)]
pub enum TradingData {
    /// Gamma exposure.
    Gex { symbol: String, days: i32, format: String },
    /// Vanna.
    Vanna { symbol: String, days: i32 },
    /// The rows that an SQL query selects.
    Query { sql: String },
}

/// A security chore.
#[derive(Debug, Clone)]
pub enum SecurityAction {
    /// Make a new token secret.
    GenerateSecret,
    /// Say whether an address would be admitted.
    TestZeroTrust { ip: String },
    /// Hash a password.
    HashPassword { password: String },
}

/// Where the text of a `Text` ingestion comes from.
#[derive(Debug, Clone, Copy, PartialEq, Eq, Structural)]
pub enum TextInput {
    /// Standard input.
    Stdin,
    /// Standard input, after a prompt.
    PromptedStdin,
    /// The named file.
    File,
}

/// How search results are printed.
#[derive(Debug, Clone, Copy, PartialEq, Eq, Structural)]
pub enum OutputFormat {
    Json,
    Markdown,
    Table,
}

impl TextInput {
    /// Where the text comes from, given the file that the command names:
    /// standard input for `-`, the file for any other name, and standard
    /// input after a prompt if no file is named.
    pub fn of(file: &Option<String>) -> (input: TextInput)
        ensures
            input == match *file {
                Some(name) => if name@ == "-"@ {
                    TextInput::Stdin
                } else {
                    TextInput::File
                },
                None => TextInput::PromptedStdin,
            },
    {
        match file {
            Some(name) => {
                if same_text(name.as_str(), "-") {
                    TextInput::Stdin
                } else {
                    TextInput::File
                }
            },
            None => TextInput::PromptedStdin,
        }
    }
}

impl OutputFormat {
    /// The format that a command names: `json` and `markdown` stand for
    /// themselves, anything else for a table.
    pub fn named(format: &str) -> (output: OutputFormat)
        ensures
            output == if format@ == "json"@ {
                OutputFormat::Json
            } else if format@ == "markdown"@ {
                OutputFormat::Markdown
            } else {
                OutputFormat::Table
            },
    {
        if same_text(format, "json") {
            OutputFormat::Json
        } else if same_text(format, "markdown") {
            OutputFormat::Markdown
        } else {
            OutputFormat::Table
        }
    }
}

} // verus!
