//! What it means to cut a text into overlapping, sentence-aware chunks.
//!
//! Offsets count code points. Chunk `k` starts at `k * step`. Its window runs
//! for `chunk_size` code points or to the end of the text, whichever comes
//! first. A window that stops short of the end of the text is cut back to end
//! right after its last sentence terminator, unless that terminator is the
//! window's very first code point or there is none.

use vstd::prelude::*;

verus! {

/// A piece of text with the half-open range of offsets it was taken from.
pub type Piece = (String, usize, usize);

/// Whether `c` ends a sentence.
pub open spec fn is_sentence_end(c: char) -> bool {
    c == '.' || c == '!' || c == '?'
}

/// The distance between the starts of consecutive chunks.
pub open spec fn chunk_step(chunk_size: int, overlap: int) -> int {
    if chunk_size - overlap >= 1 {
        chunk_size - overlap
    } else {
        1
    }
}

/// How many chunks a text of `total` code points yields.
pub open spec fn chunk_count(total: int, step: int) -> int {
    if total <= 0 {
        0
    } else {
        (total - 1) / step + 1
    }
}

/// The right edge of the window that starts at `start`.
pub open spec fn window_end(total: int, start: int, chunk_size: int) -> int {
    if start + chunk_size < total {
        start + chunk_size
    } else {
        total
    }
}

/// The largest index in `[lo, hi)` that holds a sentence terminator, or
/// `lo - 1` if none does.
pub open spec fn last_sentence_end(text: Seq<char>, lo: int, hi: int) -> int
    decreases hi - lo,
{
    if hi <= lo {
        lo - 1
    } else if is_sentence_end(text[hi - 1]) {
        hi - 1
    } else {
        last_sentence_end(text, lo, hi - 1)
    }
}

/// Where the chunk that starts at `start` ends.
pub open spec fn chunk_end(text: Seq<char>, start: int, chunk_size: int) -> int {
    let limit = window_end(text.len() as int, start, chunk_size);
    let cut = last_sentence_end(text, start + 1, limit);
    if limit < text.len() && cut > start {
        cut + 1
    } else {
        limit
    }
}

/// Whether `piece` is chunk number `k` of `text`.
pub open spec fn is_chunk(
    piece: Piece,
    text: Seq<char>,
    chunk_size: int,
    overlap: int,
    k: int,
) -> bool {
    &&& piece.1 == k * chunk_step(chunk_size, overlap)
    &&& piece.2 == chunk_end(text, piece.1 as int, chunk_size)
    &&& piece.0@ == text.subrange(piece.1 as int, piece.2 as int)
}

/// Whether `chunks` is the chunking of `text`.
pub open spec fn is_chunking(
    chunks: Seq<Piece>,
    text: Seq<char>,
    chunk_size: int,
    overlap: int,
) -> bool {
    &&& chunks.len() == chunk_count(text.len() as int, chunk_step(chunk_size, overlap))
    &&& forall|k: int|
        0 <= k < chunks.len() ==> is_chunk(#[trigger] chunks[k], text, chunk_size, overlap, k)
}

/// Whether some chunk holds the code point at offset `pos`.
pub open spec fn covers(chunks: Seq<Piece>, pos: int) -> bool {
    exists|k: int| 0 <= k < chunks.len() && (#[trigger] chunks[k]).1 <= pos < chunks[k].2
}

/// Whether every chunk but the last reaches at least to the start of the next.
pub open spec fn gapless(chunks: Seq<Piece>) -> bool {
    forall|k: int| 0 <= k < chunks.len() - 1 ==> (#[trigger] chunks[k]).2 >= chunks[k + 1].1
}

/// `last_sentence_end` names a terminator inside the range with none after
/// it, or reports that the range holds none.
pub proof fn lemma_last_sentence_end(text: Seq<char>, lo: int, hi: int)
    ensures
        lo - 1 <= last_sentence_end(text, lo, hi),
        lo <= hi ==> last_sentence_end(text, lo, hi) < hi,
        last_sentence_end(text, lo, hi) >= lo ==> is_sentence_end(
            text[last_sentence_end(text, lo, hi)],
        ),
        forall|i: int|
            last_sentence_end(text, lo, hi) < i < hi && lo <= i ==> !is_sentence_end(text[i]),
    decreases hi - lo,
{
    if hi > lo && !is_sentence_end(text[hi - 1]) {
        lemma_last_sentence_end(text, lo, hi - 1);
    }
}

/// A chunk lies inside its window, and a window that reaches the end of the
/// text is kept whole.
pub proof fn lemma_chunk_end_bounds(text: Seq<char>, start: int, chunk_size: int)
    requires
        0 <= start < text.len(),
        0 <= chunk_size,
    ensures
        start <= chunk_end(text, start, chunk_size) <= window_end(
            text.len() as int,
            start,
            chunk_size,
        ),
        window_end(text.len() as int, start, chunk_size) <= text.len(),
        chunk_size > 0 ==> start < chunk_end(text, start, chunk_size),
        start + chunk_size >= text.len() ==> chunk_end(text, start, chunk_size) == text.len(),
{
    let limit = window_end(text.len() as int, start, chunk_size);
    lemma_last_sentence_end(text, start + 1, limit);
}

/// A chunk that starts later does not end earlier.
pub proof fn lemma_ends_do_not_fall(text: Seq<char>, start: int, later: int, chunk_size: int)
    requires
        0 <= start <= later < text.len(),
        0 <= chunk_size,
    ensures
        chunk_end(text, start, chunk_size) <= chunk_end(text, later, chunk_size),
{
    let total = text.len() as int;
    let limit = window_end(total, start, chunk_size);
    let later_limit = window_end(total, later, chunk_size);
    lemma_last_sentence_end(text, start + 1, limit);
    lemma_last_sentence_end(text, later + 1, later_limit);
}

/// The number of chunks is the least `n` with `n * step >= total`.
pub proof fn lemma_chunk_count(total: int, step: int)
    requires
        0 <= total,
        1 <= step,
    ensures
        0 <= chunk_count(total, step),
        total > 0 ==> chunk_count(total, step) >= 1,
        total > 0 ==> (chunk_count(total, step) - 1) * step < total,
        chunk_count(total, step) * step >= total,
{
    if total > 0 {
        let q = (total - 1) / step;
        assert(q * step <= total - 1 < (q + 1) * step && q >= 0) by (nonlinear_arith)
            requires
                q == (total - 1) / step,
                total - 1 >= 0,
                step >= 1,
        ;
    }
}

/// Any `n` that satisfies the two bounds of `lemma_chunk_count` is the count.
pub proof fn lemma_chunk_count_unique(total: int, step: int, n: int)
    requires
        0 < total,
        1 <= step,
        (n - 1) * step < total <= n * step,
    ensures
        n == chunk_count(total, step),
{
    assert((total - 1) / step == n - 1) by (nonlinear_arith)
        requires
            (n - 1) * step <= total - 1 < n * step,
            step >= 1,
    ;
}

/// The offsets of a chunking: every chunk lies in the text, chunks start one
/// step apart, consecutive chunks share at most `overlap` code points, no
/// chunk ends before the chunk before it, and with a positive chunk size no
/// chunk is empty and the last one ends where the text ends. An empty text,
/// and only an empty text, has no chunks.
pub proof fn lemma_chunking_shape(
    chunks: Seq<Piece>,
    text: Seq<char>,
    chunk_size: int,
    overlap: int,
)
    requires
        is_chunking(chunks, text, chunk_size, overlap),
        0 <= chunk_size,
        0 <= overlap,
    ensures
        text.len() == 0 <==> chunks.len() == 0,
        forall|k: int|
            0 <= k < chunks.len() ==> (#[trigger] chunks[k]).1 <= chunks[k].2 <= text.len(),
        chunk_size > 0 ==> forall|k: int|
            0 <= k < chunks.len() ==> (#[trigger] chunks[k]).1 < chunks[k].2,
        forall|k: int|
            0 <= k < chunks.len() - 1 ==> chunks[k + 1].1 == (#[trigger] chunks[k]).1 + chunk_step(
                chunk_size,
                overlap,
            ),
        forall|k: int|
            0 <= k < chunks.len() - 1 ==> (#[trigger] chunks[k]).2 - chunks[k + 1].1 <= overlap,
        forall|k: int| 0 <= k < chunks.len() - 1 ==> (#[trigger] chunks[k]).2 <= chunks[k + 1].2,
        chunk_size > 0 && chunks.len() > 0 ==> chunks[chunks.len() - 1].2 == text.len(),
{
    let total = text.len() as int;
    let step = chunk_step(chunk_size, overlap);
    let n = chunks.len() as int;
    lemma_chunk_count(total, step);
    assert forall|k: int| 0 <= k < n implies {
        &&& 0 <= (#[trigger] chunks[k]).1 < total
        &&& chunks[k].1 <= chunks[k].2 <= total
        &&& chunks[k].2 <= chunks[k].1 + chunk_size
        &&& (chunk_size > 0 ==> chunks[k].1 < chunks[k].2)
    } by {
        assert(0 <= k * step <= (n - 1) * step) by (nonlinear_arith)
            requires
                0 <= k <= n - 1,
                step >= 1,
        ;
        lemma_chunk_end_bounds(text, k * step, chunk_size);
    }
    assert forall|k: int| 0 <= k < n - 1 implies chunks[k + 1].1 == (#[trigger] chunks[k]).1
        + step by {
        assert((k + 1) * step == k * step + step) by (nonlinear_arith);
    }
    assert forall|k: int| 0 <= k < n - 1 implies (#[trigger] chunks[k]).2 <= chunks[k + 1].2 by {
        lemma_ends_do_not_fall(text, chunks[k].1 as int, chunks[k + 1].1 as int, chunk_size);
    }
    if chunk_size > 0 && n > 0 {
        let last = n - 1;
        assert(last * step + step == n * step) by (nonlinear_arith)
            requires
                last == n - 1,
        ;
        lemma_chunk_end_bounds(text, last * step, chunk_size);
    }
}

/// Every offset of the text lies in some chunk, provided no chunk was cut
/// back so far that it ends before the next one starts.
pub proof fn lemma_chunking_covers(
    chunks: Seq<Piece>,
    text: Seq<char>,
    chunk_size: int,
    overlap: int,
    pos: int,
)
    requires
        is_chunking(chunks, text, chunk_size, overlap),
        0 < chunk_size,
        0 <= overlap,
        0 <= pos < text.len(),
        gapless(chunks),
    ensures
        covers(chunks, pos),
{
    let total = text.len() as int;
    let step = chunk_step(chunk_size, overlap);
    let n = chunks.len() as int;
    let k = pos / step;
    lemma_chunk_count(total, step);
    lemma_chunking_shape(chunks, text, chunk_size, overlap);
    assert(k * step <= pos < (k + 1) * step && k >= 0) by (nonlinear_arith)
        requires
            k == pos / step,
            pos >= 0,
            step >= 1,
    ;
    assert(k < n) by (nonlinear_arith)
        requires
            k * step <= pos,
            pos < total,
            total <= n * step,
            step >= 1,
    ;
    assert(is_chunk(chunks[k], text, chunk_size, overlap, k));
}

} // verus!
