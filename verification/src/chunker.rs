//! Splitting a text into overlapping segments.
//!
//! A segment holds at most [`CHUNK_SIZE`] characters. Where the text goes on
//! after a segment, the segment ends in front of the last white space that
//! still lies within reach, so that no word is cut in two; a word longer than
//! a whole segment is cut at the size limit. The next segment starts
//! [`CHUNK_OVERLAP`] characters before the end of the previous one, and always
//! at least one character after its start.
//!
//! Where the white space lies is all that the splitting needs to know of a
//! text, so the rule itself is stated over a sequence of flags, one for each
//! character.

use vstd::prelude::*;
use crate::text::{char_is_whitespace, from_chars, is_white_space, to_chars};

verus! {

/// The largest number of characters in a segment.
pub const CHUNK_SIZE: usize = 1500;

/// The number of characters that a segment shares with the one before it.
pub const CHUNK_OVERLAP: usize = 200;

/// The farthest position at which a segment that starts at `start` may end in
/// a text of `n` characters.
pub open spec fn candidate_end(n: int, start: int) -> int {
    if start + CHUNK_SIZE <= n {
        start + CHUNK_SIZE
    } else {
        n
    }
}

/// Walks from `pos` towards `start` and stops at the first white space, or at
/// `start`.
pub open spec fn walk_back(ws: Seq<bool>, start: int, pos: int) -> int
    decreases pos - start,
{
    if pos > start && !ws[pos] {
        walk_back(ws, start, pos - 1)
    } else {
        pos
    }
}

/// The position at which the segment that starts at `start` ends.
pub open spec fn segment_end(ws: Seq<bool>, start: int) -> int {
    let end = candidate_end(ws.len() as int, start);
    if end < ws.len() {
        let p = walk_back(ws, start, end);
        if p == start {
            end
        } else {
            p
        }
    } else {
        end
    }
}

/// How far the start moves after a segment of `len` characters.
pub open spec fn stride(len: int) -> int {
    if len - CHUNK_OVERLAP > 1 {
        len - CHUNK_OVERLAP
    } else {
        1
    }
}

/// Where the segment after the one at `start` begins.
pub open spec fn next_start(ws: Seq<bool>, start: int) -> int {
    start + stride(segment_end(ws, start) - start)
}

/// The segments from `start` on, each as its first position and the position
/// after its last.
pub open spec fn spans_from(ws: Seq<bool>, start: int) -> Seq<(int, int)>
    decreases ws.len() - start,
    via spans_from_terminates
{
    if 0 <= start < ws.len() {
        seq![(start, segment_end(ws, start))] + spans_from(ws, next_start(ws, start))
    } else {
        Seq::empty()
    }
}

#[via_fn]
proof fn spans_from_terminates(ws: Seq<bool>, start: int) {
    if 0 <= start < ws.len() {
        lemma_segment_end(ws, start);
    }
}

/// All segments of a text whose white space lies where `ws` says.
pub open spec fn spans(ws: Seq<bool>) -> Seq<(int, int)> {
    spans_from(ws, 0)
}

/// The positions of a vector of spans as mathematical integers.
pub open spec fn span_view(v: Seq<(usize, usize)>) -> Seq<(int, int)> {
    Seq::new(v.len(), |i: int| (v[i].0 as int, v[i].1 as int))
}

/// For each character of `text`, whether it is white space.
pub open spec fn whitespace_flags(text: Seq<char>) -> Seq<bool> {
    Seq::new(text.len(), |i: int| is_white_space(text[i]))
}

/// The segments of `text`, as texts.
pub open spec fn chunks_of(text: Seq<char>) -> Seq<Seq<char>> {
    let sp = spans(whitespace_flags(text));
    Seq::new(sp.len(), |i: int| text.subrange(sp[i].0, sp[i].1))
}

/// What holds of the segments from `start` on of a text of `n` characters.
pub open spec fn spans_well_formed_from(sp: Seq<(int, int)>, start: int, n: int) -> bool {
    &&& forall|i: int|
        0 <= i < sp.len() ==> start <= (#[trigger] sp[i]).0 < sp[i].1 <= n && sp[i].1 - sp[i].0
            <= CHUNK_SIZE
    &&& forall|i: int|
        0 <= i < sp.len() - 1 ==> (#[trigger] sp[i]).0 < sp[i + 1].0 <= sp[i].1 && sp[i].1
            - sp[i + 1].0 <= CHUNK_OVERLAP
    &&& (start < n ==> sp.len() > 0 && sp[0].0 == start && sp[sp.len() - 1].1 == n)
    &&& (start >= n ==> sp.len() == 0)
}

/// What holds of the segments of every text of `n` characters: each is
/// non-empty, no longer than [`CHUNK_SIZE`] and inside the text; the starts
/// grow from one segment to the next, no segment starts behind the end of
/// the one before it, and none shares more than [`CHUNK_OVERLAP`] characters
/// with it; the first starts with the text and the last ends with it.
pub open spec fn spans_well_formed(sp: Seq<(int, int)>, n: int) -> bool {
    spans_well_formed_from(sp, 0, n)
}

/// `walk_back` stays between `start` and `pos`, passes over no white space
/// and stops on white space unless it reaches `start`.
pub proof fn lemma_walk_back(ws: Seq<bool>, start: int, pos: int)
    requires
        start <= pos,
    ensures
        start <= walk_back(ws, start, pos) <= pos,
        forall|q: int| walk_back(ws, start, pos) < q <= pos ==> !ws[q],
        walk_back(ws, start, pos) > start ==> ws[walk_back(ws, start, pos)],
    decreases pos - start,
{
    if pos > start && !ws[pos] {
        lemma_walk_back(ws, start, pos - 1);
    }
}

/// Where a segment ends: after at least one character and at most
/// [`CHUNK_SIZE`]; at the end of the text when that is within reach;
/// otherwise on the last white space within reach, if there is any behind the
/// segment's first character, and else at the size limit.
pub proof fn lemma_segment_end(ws: Seq<bool>, start: int)
    requires
        0 <= start < ws.len(),
    ensures
        start < segment_end(ws, start) <= candidate_end(ws.len() as int, start) <= ws.len(),
        segment_end(ws, start) - start <= CHUNK_SIZE,
        start + CHUNK_SIZE >= ws.len() ==> segment_end(ws, start) == ws.len(),
        start + CHUNK_SIZE < ws.len() ==> (forall|q: int|
            segment_end(ws, start) < q <= start + CHUNK_SIZE ==> !ws[q]),
        start + CHUNK_SIZE < ws.len() && segment_end(ws, start) < start + CHUNK_SIZE
            ==> ws[segment_end(ws, start)],
        start + CHUNK_SIZE < ws.len() && (forall|q: int|
            start < q <= start + CHUNK_SIZE ==> !ws[q]) ==> segment_end(ws, start) == start
            + CHUNK_SIZE,
{
    let end = candidate_end(ws.len() as int, start);
    if end < ws.len() {
        lemma_walk_back(ws, start, end);
    }
}

/// Computes the segments of a text from the positions of its white space.
pub fn chunk_spans(ws: &Vec<bool>) -> (out: Vec<(usize, usize)>)
    ensures
        span_view(out@) == spans(ws@),
{
    let n: usize = ws.len();
    let mut out: Vec<(usize, usize)> = Vec::new();
    let mut start: usize = 0;
    while start < n
        invariant
            n == ws.len(),
            start <= n,
            spans(ws@) == span_view(out@) + spans_from(ws@, start as int),
        decreases n - start,
    {
        let end: usize = if n - start > CHUNK_SIZE {
            start + CHUNK_SIZE
        } else {
            n
        };
        let mut actual_end: usize = end;
        if actual_end < n {
            while actual_end > start && !ws[actual_end]
                invariant
                    start <= actual_end <= end < n,
                    n == ws.len(),
                    walk_back(ws@, start as int, end as int) == walk_back(
                        ws@,
                        start as int,
                        actual_end as int,
                    ),
                decreases actual_end - start,
            {
                actual_end -= 1;
            }
        }
        if actual_end == start {
            actual_end = end;
        }
        out.push((start, actual_end));
        let len: usize = actual_end - start;
        let step: usize = if len > CHUNK_OVERLAP + 1 {
            len - CHUNK_OVERLAP
        } else {
            1
        };
        start += step;
    }
    out
}

/// Splits `text` into its segments, in the order of their starts.
pub fn split_text_into_chunks(text: &str) -> (chunks: Vec<String>)
    ensures
        chunks@.len() == chunks_of(text@).len(),
        forall|i: int| 0 <= i < chunks@.len() ==> (#[trigger] chunks@[i])@ == chunks_of(text@)[i],
{
    let chars = to_chars(text);
    let mut ws: Vec<bool> = Vec::new();
    let mut k: usize = 0;
    while k < chars.len()
        invariant
            k <= chars.len(),
            ws@ == whitespace_flags(chars@.take(k as int)),
        decreases chars.len() - k,
    {
        ws.push(char_is_whitespace(chars[k]));
        k += 1;
    }
    let sp = chunk_spans(&ws);
    proof {
        lemma_spans(ws@);
    }
    let mut chunks: Vec<String> = Vec::new();
    let mut i: usize = 0;
    while i < sp.len()
        invariant
            i <= sp.len(),
            chars@ == text@,
            ws@ == whitespace_flags(text@),
            span_view(sp@) == spans(ws@),
            spans_well_formed(spans(ws@), ws@.len() as int),
            chunks@.len() == i,
            forall|j: int| 0 <= j < i ==> (#[trigger] chunks@[j])@ == chunks_of(text@)[j],
        decreases sp.len() - i,
    {
        let (from, to) = sp[i];
        proof {
            assert(span_view(sp@)[i as int] == (from as int, to as int));
        }
        chunks.push(from_chars(&chars, from, to));
        i += 1;
    }
    chunks
}

proof fn lemma_spans_from(ws: Seq<bool>, start: int)
    requires
        0 <= start,
    ensures
        spans_well_formed_from(spans_from(ws, start), start, ws.len() as int),
    decreases ws.len() - start,
{
    if start < ws.len() {
        lemma_segment_end(ws, start);
        let next = next_start(ws, start);
        lemma_spans_from(ws, next);
    }
}

/// The segments of every text are well formed.
pub proof fn lemma_spans(ws: Seq<bool>)
    ensures
        spans_well_formed(spans(ws), ws.len() as int),
{
    lemma_spans_from(ws, 0);
}

proof fn lemma_covered_from(sp: Seq<(int, int)>, n: int, k: int, j: int)
    requires
        spans_well_formed(sp, n),
        0 <= j < sp.len(),
        sp[j].0 <= k < n,
    ensures
        exists|i: int| 0 <= i < sp.len() && (#[trigger] sp[i]).0 <= k < sp[i].1,
    decreases sp.len() - j,
{
    if k >= sp[j].1 {
        lemma_covered_from(sp, n, k, j + 1);
    }
}

/// Every position of a text lies in at least one of its segments: together
/// the segments cover the text, with no gap.
pub proof fn lemma_every_position_covered(ws: Seq<bool>, k: int)
    requires
        0 <= k < ws.len(),
    ensures
        exists|i: int|
            0 <= i < spans(ws).len() && (#[trigger] spans(ws)[i]).0 <= k < spans(ws)[i].1,
{
    lemma_spans(ws);
    lemma_covered_from(spans(ws), ws.len() as int, k, 0);
}

/// The chunks of a text are as many as its segments, and each is the part of
/// the text that its segment marks.
pub proof fn lemma_chunks_follow_spans(text: Seq<char>)
    ensures
        chunks_of(text).len() == spans(whitespace_flags(text)).len(),
        forall|i: int|
            0 <= i < chunks_of(text).len() ==> #[trigger] chunks_of(text)[i] == text.subrange(
                spans(whitespace_flags(text))[i].0,
                spans(whitespace_flags(text))[i].1,
            ),
        forall|i: int|
            0 <= i < chunks_of(text).len() ==> 0 < (#[trigger] chunks_of(text)[i]).len()
                <= CHUNK_SIZE,
{
    lemma_spans(whitespace_flags(text));
}

/// Every character of a text occurs in at least one of its chunks, at the
/// place that its position in the text gives it.
pub proof fn lemma_every_character_in_a_chunk(text: Seq<char>, k: int)
    requires
        0 <= k < text.len(),
    ensures
        exists|i: int|
            #![trigger chunks_of(text)[i]]
            {
                let sp = spans(whitespace_flags(text));
                &&& 0 <= i < chunks_of(text).len()
                &&& sp[i].0 <= k < sp[i].1
                &&& chunks_of(text)[i].len() == sp[i].1 - sp[i].0
                &&& chunks_of(text)[i][k - sp[i].0] == text[k]
            },
{
    let ws = whitespace_flags(text);
    let sp = spans(ws);
    lemma_spans(ws);
    lemma_every_position_covered(ws, k);
    let i = choose|i: int| 0 <= i < sp.len() && (#[trigger] sp[i]).0 <= k < sp[i].1;
    assert(chunks_of(text)[i] == text.subrange(sp[i].0, sp[i].1));
}

/// The first chunk of a text of at most [`CHUNK_SIZE`] characters is the
/// whole text.
pub proof fn lemma_short_text_first_chunk(text: Seq<char>)
    requires
        0 < text.len() <= CHUNK_SIZE,
    ensures
        chunks_of(text).len() > 0,
        chunks_of(text)[0] == text,
{
}

/// A text of one character has one chunk, the text itself.
pub proof fn lemma_one_character_one_chunk(text: Seq<char>)
    requires
        text.len() == 1,
    ensures
        chunks_of(text) == seq![text],
{
    let ws = whitespace_flags(text);
    assert(spans_from(ws, 1) =~= Seq::<(int, int)>::empty());
    assert(text.subrange(0, 1) =~= text);
}

} // verus!
