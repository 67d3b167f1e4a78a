//! Escaping of text for URLs, by way of the `urlencoding` crate.

use vstd::prelude::*;
use vstd::utf8::encode_utf8;

verus! {

/// Whether a byte stands for itself in a URL: the ASCII letters and digits
/// and `-`, `.`, `_`, `~`.
pub open spec fn is_unreserved(b: u8) -> bool {
    ||| 0x30 <= b <= 0x39
    ||| 0x41 <= b <= 0x5a
    ||| 0x61 <= b <= 0x7a
    ||| b == 0x2d
    ||| b == 0x2e
    ||| b == 0x5f
    ||| b == 0x7e
}

/// The sixteen upper-case hexadecimal digits.
pub open spec fn upper_hex_digits() -> Seq<char> {
    seq!['0', '1', '2', '3', '4', '5', '6', '7', '8', '9', 'A', 'B', 'C', 'D', 'E', 'F']
}

/// A byte as it is written in a URL: itself if it is unreserved, else a
/// percent sign and its two hexadecimal digits.
pub open spec fn escaped_byte(b: u8) -> Seq<char> {
    if is_unreserved(b) {
        seq![b as char]
    } else {
        seq!['%', upper_hex_digits()[b as int / 16], upper_hex_digits()[b as int % 16]]
    }
}

/// Bytes as they are written in a URL.
pub open spec fn percent_encoded(bytes: Seq<u8>) -> Seq<char>
    decreases bytes.len(),
{
    if bytes.len() == 0 {
        Seq::empty()
    } else {
        percent_encoded(bytes.drop_last()) + escaped_byte(bytes.last())
    }
}

/// A text as it is written in a URL: its UTF-8 bytes, escaped.
pub open spec fn url_encoded(text: Seq<char>) -> Seq<char> {
    percent_encoded(encode_utf8(text))
}

/// Escapes a text for a URL.
///
/// Wraps `urlencoding::encode`, which percent-encodes every byte of the
/// text's UTF-8 form except alphanumerics and `-`, `_`, `.`, `~`.
#[verifier::external_body]
pub(crate) fn encode(text: &str) -> (escaped: String)
    ensures
        escaped@ == url_encoded(text@),
{
    urlencoding::encode(text).into_owned()
}

} // verus!
