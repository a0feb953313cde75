//! Grapheme clusters of a line: the unit in which the cursor is addressed.
//!
//! Texts are modelled as sequences of `char`. Where a cluster begins and ends
//! is decided by the `unicode-segmentation` crate; everything else here is
//! derived from its answer.

use unicode_segmentation::UnicodeSegmentation;
use vstd::prelude::*;
use vstd::seq_lib::lemma_flatten_concat;

verus! {

/// The extended grapheme clusters of `text`, in the order in which they occur.
pub uninterp spec fn grapheme_clusters(text: Seq<char>) -> Seq<Seq<char>>;

/// The number of grapheme clusters of `text`.
pub open spec fn grapheme_count(text: Seq<char>) -> nat {
    grapheme_clusters(text).len()
}

/// The part of `text` that its first `index` clusters make up.
pub open spec fn text_before(text: Seq<char>, index: int) -> Seq<char> {
    grapheme_clusters(text).take(index).flatten()
}

/// The part of `text` from its cluster number `index` on.
pub open spec fn text_from(text: Seq<char>, index: int) -> Seq<char> {
    grapheme_clusters(text).skip(index).flatten()
}

/// The number of `char`s that stand before the cluster number `index`.
pub open spec fn grapheme_offset(text: Seq<char>, index: int) -> nat {
    text_before(text, index).len()
}

/// What the segmentation of a text is known to satisfy: the clusters are not
/// empty, and laid end to end they give the text back.
pub open spec fn is_segmentation(clusters: Seq<Seq<char>>, text: Seq<char>) -> bool {
    &&& clusters.flatten() == text
    &&& forall|i: int| 0 <= i < clusters.len() ==> (#[trigger] clusters[i]).len() > 0
}

/// The views of a vector of strings.
pub open spec fn texts_of(strings: Seq<String>) -> Seq<Seq<char>> {
    strings.map_values(|s: String| s@)
}

/// Segments `text` with `UnicodeSegmentation::graphemes` in its extended
/// mode and hands each cluster out as a string of its own. Trusted: the
/// result is the segmentation named by `grapheme_clusters`; the iterator
/// yields adjoining, non-empty slices that cover the text from start to end.
#[verifier::external_body]
pub(crate) fn segment(text: &str) -> (clusters: Vec<String>)
    ensures
        texts_of(clusters@) == grapheme_clusters(text@),
        is_segmentation(texts_of(clusters@), text@),
{
    text.graphemes(true).map(String::from).collect()
}

/// Joins the strings `parts[from..to]` into one.
pub(crate) fn concat_range(parts: &Vec<String>, from: usize, to: usize) -> (joined: String)
    requires
        from <= to <= parts.len(),
    ensures
        joined@ == texts_of(parts@).subrange(from as int, to as int).flatten(),
{
    let mut joined = String::new();
    let mut i: usize = from;
    while i < to
        invariant
            from <= i <= to <= parts.len(),
            joined@ == texts_of(parts@).subrange(from as int, i as int).flatten(),
        decreases to - i,
    {
        proof {
            let all = texts_of(parts@);
            assert(all.subrange(from as int, i + 1) =~= all.subrange(from as int, i as int).push(
                all[i as int],
            ));
            all.subrange(from as int, i as int).lemma_flatten_push(all[i as int]);
        }
        joined.append(parts[i].as_str());
        i = i + 1;
    }
    joined
}

/// `index`, or the number of clusters of `text` where `index` lies beyond it.
pub open spec fn resolved_index(text: Seq<char>, index: int) -> int {
    if index <= grapheme_count(text) {
        index
    } else {
        grapheme_count(text) as int
    }
}

/// `text` with `ch` put in front of its cluster number `index`, or at its
/// end where it has no such cluster.
pub open spec fn with_char_inserted(text: Seq<char>, index: int, ch: char) -> Seq<char> {
    let at = resolved_index(text, index);
    text_before(text, at).push(ch) + text_from(text, at)
}

/// `text` without its cluster number `index`; `text` itself where it has no
/// such cluster.
pub open spec fn with_grapheme_removed(text: Seq<char>, index: int) -> Seq<char> {
    if 0 <= index < grapheme_count(text) {
        grapheme_clusters(text).remove(index).flatten()
    } else {
        text
    }
}

/// Clusters that are not empty make up a text of at least as many `char`s
/// as there are clusters.
proof fn lemma_count_within_length(clusters: Seq<Seq<char>>)
    requires
        forall|i: int| 0 <= i < clusters.len() ==> (#[trigger] clusters[i]).len() > 0,
    ensures
        clusters.len() <= clusters.flatten().len(),
    decreases clusters.len(),
{
    if clusters.len() > 0 {
        let front = clusters.drop_last();
        assert forall|i: int| 0 <= i < front.len() implies (#[trigger] front[i]).len() > 0 by {
            assert(front[i] == clusters[i]);
        }
        lemma_count_within_length(front);
        assert(clusters =~= front.push(clusters.last()));
        front.lemma_flatten_push(clusters.last());
    }
}

/// The number of grapheme clusters of `text`: no more than it has `char`s.
pub fn count_graphemes(text: &str) -> (count: usize)
    ensures
        count == grapheme_count(text@),
        count <= text@.len(),
{
    let clusters = segment(text);
    proof {
        lemma_count_within_length(texts_of(clusters@));
    }
    clusters.len()
}

/// The number of `char`s of `text` that stand before its cluster number
/// `index`; the length of `text` where `index` lies beyond its clusters.
pub fn char_offset(text: &str, index: usize) -> (offset: usize)
    ensures
        offset == grapheme_offset(text@, resolved_index(text@, index as int)),
        offset <= text@.len(),
        text@.take(offset as int) == text_before(text@, resolved_index(text@, index as int)),
        text@.skip(offset as int) == text_from(text@, resolved_index(text@, index as int)),
{
    let clusters = segment(text);
    let at = if index <= clusters.len() {
        index
    } else {
        clusters.len()
    };
    let before = concat_range(&clusters, 0, at);
    proof {
        lemma_split_at_cluster(texts_of(clusters@), at as int);
    }
    before.as_str().unicode_len()
}

/// The number of bytes that the first `index` clusters of `text` take in
/// UTF-8: the place of cluster number `index` in the stored line. The length
/// of the stored line where `index` lies beyond its clusters.
pub fn byte_offset(text: &str, index: usize) -> (offset: usize)
    ensures
        offset == vstd::utf8::encode_utf8(
            text_before(text@, resolved_index(text@, index as int)),
        ).len() as usize,
{
    let (before, _) = split_at_grapheme(text, index);
    before.as_str().len()
}

/// Cutting a sequence of clusters in two cuts their text in two at the
/// length of the first part.
proof fn lemma_split_at_cluster(clusters: Seq<Seq<char>>, index: int)
    requires
        0 <= index <= clusters.len(),
    ensures
        clusters.take(index).flatten() + clusters.skip(index).flatten() == clusters.flatten(),
        clusters.flatten().take(clusters.take(index).flatten().len() as int) == clusters.take(
            index,
        ).flatten(),
        clusters.flatten().skip(clusters.take(index).flatten().len() as int) == clusters.skip(
            index,
        ).flatten(),
{
    let front = clusters.take(index);
    let back = clusters.skip(index);
    assert(front + back =~= clusters);
    lemma_flatten_concat(front, back);
    let text = clusters.flatten();
    assert(text =~= front.flatten() + back.flatten());
    assert(text.take(front.flatten().len() as int) =~= front.flatten());
    assert(text.skip(front.flatten().len() as int) =~= back.flatten());
}

/// Splits `text` in front of its cluster number `index`, or at its end where
/// it has no such cluster. Nothing is lost: the two parts make up `text`.
pub fn split_at_grapheme(text: &str, index: usize) -> (parts: (String, String))
    ensures
        parts.0@ == text_before(text@, resolved_index(text@, index as int)),
        parts.1@ == text_from(text@, resolved_index(text@, index as int)),
        parts.0@ + parts.1@ == text@,
{
    let clusters = segment(text);
    let at = if index <= clusters.len() {
        index
    } else {
        clusters.len()
    };
    proof {
        lemma_split_at_cluster(texts_of(clusters@), at as int);
    }
    (concat_range(&clusters, 0, at), concat_range(&clusters, at, clusters.len()))
}

/// Puts `ch` in front of the cluster number `index` of `text`, or at the end
/// of `text` where it has no such cluster.
pub fn insert_at_grapheme(text: &str, index: usize, ch: char) -> (edited: String)
    ensures
        edited@ == with_char_inserted(text@, index as int, ch),
        edited@.len() == text@.len() + 1,
{
    let (mut edited, rest) = split_at_grapheme(text, index);
    edited.push(ch);
    edited.append(rest.as_str());
    edited
}

/// Takes the cluster number `index` out of `text`, which gets shorter by
/// it. A `text` without such a cluster comes back unchanged.
pub fn remove_grapheme(text: &str, index: usize) -> (edited: String)
    ensures
        edited@ == with_grapheme_removed(text@, index as int),
        index < grapheme_count(text@) ==> edited@.len() < text@.len(),
        index >= grapheme_count(text@) ==> edited@ == text@,
{
    let clusters = segment(text);
    if index < clusters.len() {
        let mut edited = concat_range(&clusters, 0, index);
        let rest = concat_range(&clusters, index + 1, clusters.len());
        proof {
            let all = texts_of(clusters@);
            assert(all.remove(index as int) =~= all.subrange(0, index as int) + all.subrange(
                index + 1,
                all.len() as int,
            ));
            lemma_flatten_concat(
                all.subrange(0, index as int),
                all.subrange(index + 1, all.len() as int),
            );
            let front = all.subrange(0, index as int);
            let back = all.subrange(index + 1, all.len() as int);
            assert(all =~= front.push(all[index as int]) + back);
            lemma_flatten_concat(front.push(all[index as int]), back);
            front.lemma_flatten_push(all[index as int]);
        }
        edited.append(rest.as_str());
        edited
    } else {
        text.to_owned()
    }
}

} // verus!
