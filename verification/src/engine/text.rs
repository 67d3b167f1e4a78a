//! Texts as sequences of code points: comparing, cutting and trimming them,
//! and reading and writing numbers.

use vstd::prelude::*;

verus! {

/// Appends one code point to a string.
///
/// Wraps `String::push`, which adds the given `char` at the end of the string
/// and leaves what was there untouched.
#[verifier::external_body]
pub(crate) fn push_char(s: &mut String, c: char)
    ensures
        final(s)@ == old(s)@.push(c),
{
    s.push(c)
}

/// Whether two strings hold the same code points.
pub fn same_text(a: &str, b: &str) -> (same: bool)
    ensures
        same == (a@ == b@),
{
    let left = code_points(a);
    let right = code_points(b);
    if left.len() != right.len() {
        return false;
    }
    let mut i: usize = 0;
    while i < left.len()
        invariant
            i <= left.len(),
            left.len() == right.len(),
            left@ == a@,
            right@ == b@,
            forall|j: int| 0 <= j < i ==> left@[j] == right@[j],
        decreases left.len() - i,
    {
        if left[i] != right[i] {
            return false;
        }
        i += 1;
    }
    assert(left@ =~= right@);
    true
}

/// Whether `text` begins with `prefix`.
pub fn has_prefix(text: &str, prefix: &str) -> (yes: bool)
    ensures
        yes == prefix@.is_prefix_of(text@),
{
    let whole = code_points(text);
    let start = code_points(prefix);
    if start.len() > whole.len() {
        return false;
    }
    let mut i: usize = 0;
    while i < start.len()
        invariant
            i <= start.len() <= whole.len(),
            whole@ == text@,
            start@ == prefix@,
            forall|j: int| 0 <= j < i ==> whole@[j] == start@[j],
        decreases start.len() - i,
    {
        if whole[i] != start[i] {
            return false;
        }
        i += 1;
    }
    true
}

/// What follows `prefix` in `text`, if `text` begins with it.
pub fn without_prefix(text: &str, prefix: &str) -> (rest: Option<String>)
    ensures
        match rest {
            Some(r) => prefix@.is_prefix_of(text@) && r@ == text@.skip(prefix@.len() as int),
            None => !prefix@.is_prefix_of(text@),
        },
{
    if has_prefix(text, prefix) {
        let whole = code_points(text);
        let start = code_points(prefix);
        let rest = string_of(&whole, start.len(), whole.len());
        Some(rest)
    } else {
        None
    }
}

/// The number that a decimal digit stands for, if the code point is one.
pub open spec fn digit_value(c: char) -> Option<nat> {
    if '0' <= c <= '9' {
        Some((c as u32 - '0' as u32) as nat)
    } else {
        None
    }
}

/// The number that a text of decimal digits denotes, if it is made of
/// decimal digits only. The empty text denotes 0.
pub open spec fn digits_value(text: Seq<char>) -> Option<nat>
    decreases text.len(),
{
    if text.len() == 0 {
        Some(0)
    } else {
        match (digits_value(text.drop_last()), digit_value(text.last())) {
            (Some(front), Some(last)) => Some(front * 10 + last),
            _ => None,
        }
    }
}

/// The number between 0 and 65535 that a text denotes in decimal, if it
/// denotes one: one or more decimal digits after an optional plus sign.
pub open spec fn parsed_u16(text: Seq<char>) -> Option<u16> {
    let digits = if text.len() > 0 && text[0] == '+' {
        text.skip(1)
    } else {
        text
    };
    match digits_value(digits) {
        Some(value) => if digits.len() > 0 && value <= 65535 {
            Some(value as u16)
        } else {
            None
        },
        None => None,
    }
}

/// A longer text of digits does not denote a smaller number.
proof fn lemma_digits_grow(text: Seq<char>, upto: int)
    requires
        0 <= upto <= text.len(),
        digits_value(text) is Some,
    ensures
        digits_value(text.take(upto)) is Some,
        digits_value(text.take(upto))->0 <= digits_value(text)->0,
    decreases text.len() - upto,
{
    if upto < text.len() {
        if upto < text.len() - 1 {
            assert(text.drop_last().take(upto) =~= text.take(upto));
            lemma_digits_grow(text.drop_last(), upto);
        }
    } else {
        assert(text.take(upto) =~= text);
    }
}

/// A text with something other than a digit in it denotes no number.
proof fn lemma_digits_all(text: Seq<char>, at: int)
    requires
        0 <= at < text.len(),
        digit_value(text[at]) is None,
    ensures
        digits_value(text) is None,
    decreases text.len(),
{
    if at < text.len() - 1 {
        lemma_digits_all(text.drop_last(), at);
    }
}

/// Reads a number between 0 and 65535.
pub fn parse_u16(text: &str) -> (number: Option<u16>)
    ensures
        number == parsed_u16(text@),
{
    let chars = code_points(text);
    let first: usize = if chars.len() > 0 && chars[0] == '+' {
        1
    } else {
        0
    };
    let ghost digits = chars@.skip(first as int);
    assert(chars@.skip(0) =~= chars@);
    if first == chars.len() {
        return None;
    }
    let mut value: u32 = 0;
    let mut i: usize = first;
    while i < chars.len()
        invariant
            first <= i <= chars.len(),
            first < chars.len(),
            chars@ == text@,
            first == if text@.len() > 0 && text@[0] == '+' {
                1int
            } else {
                0int
            },
            digits == chars@.skip(first as int),
            digits_value(digits.take(i - first)) == Some(value as nat),
            value <= 65535,
        decreases chars.len() - i,
    {
        let c = chars[i];
        proof {
            let upto = digits.take(i - first + 1);
            assert(upto.drop_last() =~= digits.take(i - first));
            assert(chars@.skip(0) =~= chars@);
        }
        if c < '0' || c > '9' {
            proof {
                lemma_digits_all(digits, i - first);
            }
            return None;
        }
        let digit: u32 = c as u32 - '0' as u32;
        let next: u32 = value * 10 + digit;
        if next > 65535 {
            proof {
                if digits_value(digits) is Some {
                    lemma_digits_grow(digits, i - first + 1);
                }
            }
            return None;
        }
        value = next;
        i += 1;
    }
    assert(digits.take(digits.len() as int) =~= digits);
    Some(value as u16)
}

/// The models of a list of strings, in order.
pub open spec fn strings_view(texts: Seq<String>) -> Seq<Seq<char>> {
    texts.map_values(|t: String| t@)
}

/// Whether a code point is white space as Unicode defines it.
pub uninterp spec fn is_white_space(c: char) -> bool;

/// Whether `c` is white space.
///
/// Wraps `char::is_whitespace`, which says whether the code point has the
/// Unicode property `White_Space`.
#[verifier::external_body]
pub(crate) fn white_space(c: char) -> (yes: bool)
    ensures
        yes == is_white_space(c),
{
    c.is_whitespace()
}

/// How many code points of white space `text` begins with.
pub open spec fn leading_space(text: Seq<char>) -> int
    decreases text.len(),
{
    if text.len() == 0 || !is_white_space(text[0]) {
        0
    } else {
        1 + leading_space(text.drop_first())
    }
}

/// How many code points of white space `text` ends with.
pub open spec fn trailing_space(text: Seq<char>) -> int
    decreases text.len(),
{
    if text.len() == 0 || !is_white_space(text.last()) {
        0
    } else {
        1 + trailing_space(text.drop_last())
    }
}

/// A text without the white space it begins and ends with.
pub open spec fn trimmed(text: Seq<char>) -> Seq<char> {
    if leading_space(text) >= text.len() {
        Seq::empty()
    } else {
        text.subrange(leading_space(text), text.len() - trailing_space(text))
    }
}

/// A text with every line feed replaced by a space.
pub open spec fn unbroken(text: Seq<char>) -> Seq<char> {
    text.map_values(
        |c: char|
            if c == '\n' {
                ' '
            } else {
                c
            },
    )
}

/// `text` without the white space around it.
pub fn trim(text: &str) -> (inner: String)
    ensures
        inner@ == trimmed(text@),
{
    let chars = code_points(text);
    let mut lead: usize = 0;
    assert(chars@.skip(0) =~= chars@);
    while lead < chars.len() && white_space(chars[lead])
        invariant
            lead <= chars.len(),
            leading_space(chars@) == lead + leading_space(chars@.skip(lead as int)),
        decreases chars.len() - lead,
    {
        assert(chars@.skip(lead as int).drop_first() =~= chars@.skip(lead + 1));
        lead += 1;
    }
    if lead >= chars.len() {
        return String::new();
    }
    let mut end: usize = chars.len();
    while end > lead + 1 && white_space(chars[end - 1])
        invariant
            lead < end <= chars.len(),
            !is_white_space(chars@[lead as int]),
            trailing_space(chars@) == chars.len() - end + trailing_space(chars@.take(end as int)),
        decreases end,
    {
        assert(chars@.take(end as int).drop_last() =~= chars@.take(end - 1));
        end -= 1;
    }
    string_of(&chars, lead, end)
}

/// `text` on one line.
pub fn unbreak(text: &str) -> (line: String)
    ensures
        line@ == unbroken(text@),
{
    let chars = code_points(text);
    let mut line = String::new();
    let mut i: usize = 0;
    while i < chars.len()
        invariant
            i <= chars.len(),
            line@ == unbroken(chars@.take(i as int)),
        decreases chars.len() - i,
    {
        let c = if chars[i] == '\n' {
            ' '
        } else {
            chars[i]
        };
        push_char(&mut line, c);
        i += 1;
    }
    line
}

/// The lower-case form of a text.
pub uninterp spec fn lowercased(text: Seq<char>) -> Seq<char>;

/// The lower-case form of `text`.
///
/// Wraps `str::to_lowercase`, which maps the text to lower case as Unicode
/// defines it.
#[verifier::external_body]
pub(crate) fn lowercase(text: &str) -> (lower: String)
    ensures
        lower@ == lowercased(text@),
{
    text.to_lowercase()
}

/// The code points of `text`, in order.
pub fn code_points(text: &str) -> (chars: Vec<char>)
    ensures
        chars@ == text@,
{
    let mut chars: Vec<char> = Vec::new();
    for c in it: text.chars()
        invariant
            it.seq() == text@,
            chars@ == text@.take(it.index()),
    {
        chars.push(c);
    }
    chars
}

/// The string made of `chars[start..end]`.
pub fn string_of(chars: &Vec<char>, start: usize, end: usize) -> (s: String)
    requires
        start <= end <= chars.len(),
    ensures
        s@ == chars@.subrange(start as int, end as int),
{
    let mut s = String::new();
    let mut i = start;
    while i < end
        invariant
            start <= i <= end <= chars.len(),
            s@ == chars@.subrange(start as int, i as int),
        decreases end - i,
    {
        push_char(&mut s, chars[i]);
        i += 1;
    }
    s
}

/// The ten decimal digits.
pub open spec fn digits() -> Seq<char> {
    seq!['0', '1', '2', '3', '4', '5', '6', '7', '8', '9']
}

/// The decimal numeral of `n`, without leading zeros.
pub open spec fn decimal(n: nat) -> Seq<char>
    decreases n,
{
    if n < 10 {
        seq![digits()[n as int]]
    } else {
        decimal(n / 10).push(digits()[(n % 10) as int])
    }
}

/// The character of a decimal digit.
pub fn digit_char(d: u8) -> (c: char)
    requires
        d < 10,
    ensures
        c == digits()[d as int],
{
    match d {
        0 => '0',
        1 => '1',
        2 => '2',
        3 => '3',
        4 => '4',
        5 => '5',
        6 => '6',
        7 => '7',
        8 => '8',
        _ => '9',
    }
}

/// Writes `n` in decimal.
pub fn decimal_text(n: u128) -> (text: String)
    ensures
        text@ == decimal(n as nat),
    decreases n,
{
    if n < 10 {
        let mut text = String::new();
        push_char(&mut text, digit_char(n as u8));
        text
    } else {
        let mut text = decimal_text(n / 10);
        push_char(&mut text, digit_char((n % 10) as u8));
        text
    }
}

} // verus!
