use vstd::prelude::*;
use vstd::string::{StringExecFns, StringSliceAdditionalSpecFns};
use vstd::utf8::*;

verus! {

broadcast use {vstd::slice::group_slice_axioms, encode_utf8_valid_utf8, is_char_boundary_start_end_of_seq, encode_utf8_decode_utf8};

/// A semantic-search hit: a file, a byte range `[range_start, range_end)` in
/// it, and the relevance score that the index gave the range.
pub struct SearchHit<S> {
    pub path: String,
    pub range_start: usize,
    pub range_end: usize,
    pub score: S,
}

/// The text of a hit, cut out of the file's current content.
pub struct Excerpt<S> {
    pub path: String,
    pub text: String,
    pub score: S,
}

impl<S> View for Excerpt<S> {
    type V = (Seq<char>, Seq<char>, S);

    open spec fn view(&self) -> (Seq<char>, Seq<char>, S) {
        (self.path@, self.text@, self.score)
    }
}

/// The nearest character boundary of `bytes` at or before `i`.
pub open spec fn boundary_at_or_before(bytes: Seq<u8>, i: int) -> int
    decreases i,
{
    if i <= 0 {
        0
    } else if is_char_boundary(bytes, i) {
        i
    } else {
        boundary_at_or_before(bytes, i - 1)
    }
}

/// The nearest character boundary of `bytes` at or after `i`, but no further
/// than `limit`.
pub open spec fn boundary_at_or_after(bytes: Seq<u8>, i: int, limit: int) -> int
    decreases limit - i,
{
    if i >= limit {
        limit
    } else if is_char_boundary(bytes, i) {
        i
    } else {
        boundary_at_or_after(bytes, i + 1, limit)
    }
}

/// The smaller of two integers.
pub open spec fn min(a: int, b: int) -> int {
    if a <= b {
        a
    } else {
        b
    }
}

/// The end of the excerpt: `end` clamped to the text, then moved back to a
/// character boundary.
pub open spec fn excerpt_end(bytes: Seq<u8>, end: int) -> int {
    boundary_at_or_before(bytes, min(end, bytes.len() as int))
}

/// The start of the excerpt: `start` moved forward to a character boundary,
/// never past the excerpt's end.
pub open spec fn excerpt_start(bytes: Seq<u8>, start: int, end: int) -> int {
    let e = excerpt_end(bytes, end);
    boundary_at_or_after(bytes, min(start, e), e)
}

/// The characters of `text` between the aligned byte offsets.
pub open spec fn excerpt_text(text: Seq<char>, start: int, end: int) -> Seq<char> {
    let bytes = encode_utf8(text);
    decode_utf8(bytes.subrange(excerpt_start(bytes, start, end), excerpt_end(bytes, end)))
}

proof fn lemma_boundary_at_or_before(bytes: Seq<u8>, i: int)
    requires
        valid_utf8(bytes),
        0 <= i <= bytes.len(),
    ensures
        0 <= boundary_at_or_before(bytes, i) <= i,
        is_char_boundary(bytes, boundary_at_or_before(bytes, i)),
        forall|j: int| boundary_at_or_before(bytes, i) < j <= i ==> !is_char_boundary(bytes, j),
    decreases i,
{
    if i > 0 && !is_char_boundary(bytes, i) {
        lemma_boundary_at_or_before(bytes, i - 1);
    }
}

proof fn lemma_boundary_at_or_after(bytes: Seq<u8>, i: int, limit: int)
    requires
        valid_utf8(bytes),
        0 <= i <= limit <= bytes.len(),
        is_char_boundary(bytes, limit),
    ensures
        i <= boundary_at_or_after(bytes, i, limit) <= limit,
        is_char_boundary(bytes, boundary_at_or_after(bytes, i, limit)),
        forall|j: int| i <= j < boundary_at_or_after(bytes, i, limit) ==> !is_char_boundary(bytes, j),
    decreases limit - i,
{
    if i < limit && !is_char_boundary(bytes, i) {
        lemma_boundary_at_or_after(bytes, i + 1, limit);
    }
}

/// An excerpt is made of whole characters of its file: its bytes are those of
/// the file between two character boundaries. Its end is the nearest boundary
/// at or before the hit's end clamped to the file's length, and its start the
/// nearest boundary at or after the hit's start, never past that end.
pub proof fn lemma_excerpt_is_whole_characters(text: Seq<char>, start: int, end: int)
    requires
        0 <= start,
        0 <= end,
    ensures
        ({
            let bytes = encode_utf8(text);
            let clamped = min(end, bytes.len() as int);
            let e = excerpt_end(bytes, end);
            let s = excerpt_start(bytes, start, end);
            &&& 0 <= s <= e <= clamped
            &&& is_char_boundary(bytes, e)
            &&& forall|j: int| e < j <= clamped ==> !is_char_boundary(bytes, j)
            &&& min(start, e) <= s
            &&& is_char_boundary(bytes, s)
            &&& forall|j: int| min(start, e) <= j < s ==> !is_char_boundary(bytes, j)
            &&& encode_utf8(excerpt_text(text, start, end)) == bytes.subrange(s, e)
        }),
{
    let bytes = encode_utf8(text);
    let clamped = min(end, bytes.len() as int);
    lemma_boundary_at_or_before(bytes, clamped);
    let e = excerpt_end(bytes, end);
    lemma_boundary_at_or_after(bytes, min(start, e), e);
    let s = excerpt_start(bytes, start, end);
    let head = bytes.subrange(0, e);
    valid_utf8_split(bytes, e);
    if s < e {
        is_char_boundary_iff_not_is_continuation_byte(bytes, s);
        is_char_boundary_iff_not_is_continuation_byte(head, s);
    }
    valid_utf8_split(head, s);
    assert(head.subrange(s, head.len() as int) =~= bytes.subrange(s, e));
    decode_utf8_encode_utf8(bytes.subrange(s, e));
}

/// Clamps the byte range `[start, end)` to `text` and aligns both ends to
/// character boundaries: the end moves back, the start moves forward, and
/// neither passes the other.
pub fn char_aligned_range(text: &str, start: usize, end: usize) -> (r: (usize, usize))
    ensures
        r.0 == excerpt_start(text.spec_bytes(), start as int, end as int),
        r.1 == excerpt_end(text.spec_bytes(), end as int),
        r.0 <= r.1 <= text.spec_bytes().len(),
        is_char_boundary(text.spec_bytes(), r.0 as int),
        is_char_boundary(text.spec_bytes(), r.1 as int),
{
    let ghost bytes = text.spec_bytes();
    let len = text.as_bytes().len();
    let mut e: usize = if end < len { end } else { len };
    let ghost clamped_end = e as int;
    while !text.is_char_boundary(e)
        invariant
            bytes == text.spec_bytes(),
            0 <= e <= clamped_end <= bytes.len(),
            clamped_end == min(end as int, bytes.len() as int),
            boundary_at_or_before(bytes, e as int) == boundary_at_or_before(bytes, clamped_end),
        decreases e,
    {
        e = e - 1;
    }
    assert(boundary_at_or_before(bytes, e as int) == e);
    let mut s: usize = if start < e { start } else { e };
    let ghost clamped_start = s as int;
    while !text.is_char_boundary(s)
        invariant
            bytes == text.spec_bytes(),
            clamped_start <= s <= e,
            clamped_start == min(start as int, e as int),
            e == excerpt_end(bytes, end as int),
            is_char_boundary(bytes, e as int),
            boundary_at_or_after(bytes, s as int, e as int) == boundary_at_or_after(
                bytes,
                clamped_start,
                e as int,
            ),
        decreases e - s,
    {
        s = s + 1;
    }
    assert(boundary_at_or_after(bytes, s as int, e as int) == s);
    (s, e)
}

/// Cuts the excerpt of `hit` out of `text`, the current content of its file.
pub fn excerpt_from_text<S>(hit: SearchHit<S>, text: &str) -> (r: Excerpt<S>)
    ensures
        r@ == (hit.path@, excerpt_text(text@, hit.range_start as int, hit.range_end as int), hit.score),
{
    let ghost bytes = text.spec_bytes();
    let (start, end) = char_aligned_range(text, hit.range_start, hit.range_end);
    let head = text.split_at(end).0;
    proof {
        valid_utf8_split(bytes, end as int);
        if start < end {
            is_char_boundary_iff_not_is_continuation_byte(bytes, start as int);
            is_char_boundary_iff_not_is_continuation_byte(head.spec_bytes(), start as int);
        }
    }
    let slice = head.split_at(start).1;
    let owned = slice.to_owned();
    proof {
        assert(slice.spec_bytes() =~= bytes.subrange(start as int, end as int));
    }
    Excerpt { path: hit.path, text: owned, score: hit.score }
}

/// What a hit becomes once `text`, the content of its file, is at hand.
pub open spec fn excerpt_view<S>(hit: SearchHit<S>, text: Seq<char>) -> (Seq<char>, Seq<char>, S) {
    (hit.path@, excerpt_text(text, hit.range_start as int, hit.range_end as int), hit.score)
}

/// The excerpts of a batch of hits, each paired with its file's content or
/// with `None` where loading the file failed: the failed hits are left out,
/// the others keep their order.
pub open spec fn materialized<S>(loaded: Seq<(SearchHit<S>, Option<String>)>) -> Seq<
    (Seq<char>, Seq<char>, S),
>
    decreases loaded.len(),
{
    if loaded.len() == 0 {
        Seq::empty()
    } else {
        let rest = materialized(loaded.drop_first());
        match loaded[0].1 {
            Some(text) => seq![excerpt_view(loaded[0].0, text@)] + rest,
            None => rest,
        }
    }
}

/// Whether the file of a hit was loaded.
pub open spec fn was_loaded<S>(entry: (SearchHit<S>, Option<String>)) -> bool {
    entry.1 is Some
}

/// A batch of hits keeps exactly its hits whose file was loaded, in their
/// order, and each of them becomes the excerpt of its own hit and text, with
/// its path and score unchanged.
pub proof fn lemma_materialized_keeps_loaded_hits<S>(loaded: Seq<(SearchHit<S>, Option<String>)>)
    ensures
        materialized(loaded) == loaded.filter(|e: (SearchHit<S>, Option<String>)| was_loaded(e)).map_values(
            |e: (SearchHit<S>, Option<String>)| excerpt_view(e.0, e.1->0@),
        ),
    decreases loaded.len(),
{
    let pred = |e: (SearchHit<S>, Option<String>)| was_loaded(e);
    let f = |e: (SearchHit<S>, Option<String>)| excerpt_view(e.0, e.1->0@);
    if loaded.len() > 0 {
        let head = seq![loaded[0]];
        let rest = loaded.drop_first();
        lemma_materialized_keeps_loaded_hits(rest);
        assert(loaded =~= head + rest);
        Seq::filter_distributes_over_add(head, rest, pred);
        reveal_with_fuel(Seq::filter, 2);
        assert(head.drop_last() =~= Seq::<(SearchHit<S>, Option<String>)>::empty());
        let fh = head.filter(pred);
        let fr = rest.filter(pred);
        assert((fh + fr).map_values(f) =~= fh.map_values(f) + fr.map_values(f));
        if was_loaded(loaded[0]) {
            assert(fh =~= head);
        } else {
            assert(fh =~= Seq::<(SearchHit<S>, Option<String>)>::empty());
        }
        assert(materialized(loaded) =~= fh.map_values(f) + fr.map_values(f));
    } else {
        assert(loaded.filter(pred) =~= loaded);
    }
}

/// Turns a batch of hits into excerpts. Each hit comes with the content of its
/// file, or `None` where that file could not be resolved or loaded; such a hit
/// is dropped and the rest of the batch is kept, in hit order.
pub fn materialize<S>(loaded: Vec<(SearchHit<S>, Option<String>)>) -> (r: Vec<Excerpt<S>>)
    ensures
        r@.map_values(|e: Excerpt<S>| e@) == materialized(loaded@),
{
    let ghost all = loaded@;
    let mut pending = loaded;
    let mut out: Vec<Excerpt<S>> = Vec::new();
    while pending.len() > 0
        invariant
            out@.map_values(|e: Excerpt<S>| e@) + materialized(pending@) == materialized(all),
        decreases pending.len(),
    {
        let ghost before = pending@;
        let (hit, text) = pending.remove(0);
        assert(pending@ =~= before.drop_first());
        let ghost done = out@.map_values(|e: Excerpt<S>| e@);
        match text {
            Some(text) => {
                let excerpt = excerpt_from_text(hit, text.as_str());
                out.push(excerpt);
                assert(out@.map_values(|e: Excerpt<S>| e@) =~= done.push(excerpt@));
                assert(done + materialized(before) =~= done.push(excerpt@) + materialized(
                    pending@,
                ));
            },
            None => {},
        }
    }
    assert(out@.map_values(|e: Excerpt<S>| e@) + materialized(pending@) =~= out@.map_values(
        |e: Excerpt<S>| e@,
    ));
    out
}

/// The first line of a block of search results.
pub const RESULTS_HEADER: &'static str = "Semantic search results for user query:\n";

/// How one excerpt, whose score is already written out, is framed for the
/// language model: a line naming the file and score, then the text between
/// `~~~` fences.
pub open spec fn framed_excerpt(e: (Seq<char>, Seq<char>, String)) -> Seq<char> {
    "Excerpt from "@ + e.0 + ", score "@ + e.2@ + ":\n"@ + "~~~\n"@ + e.1 + "~~~\n"@
}

/// The framed excerpts, one after the other.
pub open spec fn framed_excerpts(es: Seq<(Seq<char>, Seq<char>, String)>) -> Seq<char>
    decreases es.len(),
{
    if es.len() == 0 {
        Seq::empty()
    } else {
        framed_excerpts(es.drop_last()) + framed_excerpt(es.last())
    }
}

/// Writes excerpts, each with its score already written out, as the text
/// block handed to the language model: a header line, then each excerpt framed
/// in order.
pub fn format_output(excerpts: &Vec<Excerpt<String>>) -> (r: String)
    ensures
        r@ == RESULTS_HEADER@ + framed_excerpts(excerpts@.map_values(|e: Excerpt<String>| e@)),
{
    let ghost views = excerpts@.map_values(|e: Excerpt<String>| e@);
    let mut body = String::new();
    body.append(RESULTS_HEADER);
    let mut i: usize = 0;
    while i < excerpts.len()
        invariant
            0 <= i <= excerpts@.len(),
            views == excerpts@.map_values(|e: Excerpt<String>| e@),
            body@ == RESULTS_HEADER@ + framed_excerpts(views.take(i as int)),
        decreases excerpts@.len() - i,
    {
        let excerpt = &excerpts[i];
        body.append("Excerpt from ");
        body.append(excerpt.path.as_str());
        body.append(", score ");
        body.append(excerpt.score.as_str());
        body.append(":\n");
        body.append("~~~\n");
        body.append(excerpt.text.as_str());
        body.append("~~~\n");
        assert(views.take(i + 1).drop_last() =~= views.take(i as int));
        i = i + 1;
    }
    assert(views.take(i as int) =~= views);
    body
}

} // verus!
