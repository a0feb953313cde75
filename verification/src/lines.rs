//! The stored form of a document: lines joined by a terminator, and the
//! splitting of such a text into lines again.

use crate::graphemes::texts_of;
use vstd::prelude::*;

verus! {

/// The line terminator: a carriage return and a line feed, or a line feed
/// alone.
pub open spec fn terminator(use_crlf: bool) -> Seq<char> {
    if use_crlf {
        seq!['\r', '\n']
    } else {
        seq!['\n']
    }
}

/// The lines laid end to end, with `terminator` between each two of them and
/// none after the last.
pub open spec fn join_lines(lines: Seq<Seq<char>>, terminator: Seq<char>) -> Seq<char>
    decreases lines.len(),
{
    if lines.len() == 0 {
        Seq::empty()
    } else if lines.len() == 1 {
        lines[0]
    } else {
        join_lines(lines.drop_last(), terminator) + terminator + lines.last()
    }
}

/// The index of the first line feed of `text`, or the length of `text` where
/// it holds none.
pub open spec fn first_line_feed(text: Seq<char>) -> int
    decreases text.len(),
{
    if text.len() == 0 || text[0] == '\n' {
        0
    } else {
        1 + first_line_feed(text.drop_first())
    }
}

/// `line` without the carriage return at its end, if it has one there.
pub open spec fn without_carriage_return(line: Seq<char>) -> Seq<char> {
    if line.len() > 0 && line.last() == '\r' {
        line.drop_last()
    } else {
        line
    }
}

/// The lines of `text`. A line ends at a line feed, or at a carriage return
/// followed by a line feed; neither belongs to the line. A text without a
/// line feed is one line, and what follows the last line feed is a line
/// even if it is empty: a text has one line more than it has line feeds.
pub open spec fn split_lines(text: Seq<char>) -> Seq<Seq<char>>
    decreases text.len(),
{
    let end = first_line_feed(text);
    if end < 0 || end >= text.len() {
        seq![text]
    } else {
        seq![without_carriage_return(text.take(end))] + split_lines(text.skip(end + 1))
    }
}

/// Whether `text` holds no line feed.
pub open spec fn is_single_line(text: Seq<char>) -> bool {
    forall|i: int| 0 <= i < text.len() ==> text[i] != '\n'
}

/// In a text that begins with a part free of line feeds, the first line feed
/// is the first one of what follows.
pub proof fn lemma_first_line_feed_after(head: Seq<char>, tail: Seq<char>)
    requires
        is_single_line(head),
    ensures
        first_line_feed(head + tail) == head.len() + first_line_feed(tail),
    decreases head.len(),
{
    if head.len() == 0 {
        assert(head + tail =~= tail);
    } else {
        assert((head + tail)[0] == head[0]);
        assert((head + tail).drop_first() =~= head.drop_first() + tail);
        assert forall|i: int| 0 <= i < head.drop_first().len() implies head.drop_first()[i]
            != '\n' by {
            assert(head.drop_first()[i] == head[i + 1]);
        }
        lemma_first_line_feed_after(head.drop_first(), tail);
    }
}

/// What is left to split once some lines are complete: the unfinished line
/// `begun`, then `rest`. A text free of line feeds is a line of its own, in
/// front of a line feed and at the end of the text.
pub proof fn lemma_split_lines_step(begun: Seq<char>, rest: Seq<char>)
    requires
        is_single_line(begun),
    ensures
        rest.len() == 0 ==> split_lines(begun + rest) == seq![begun],
        rest.len() > 0 && rest[0] == '\n' ==> split_lines(begun + rest) == seq![
            without_carriage_return(begun),
        ] + split_lines(rest.drop_first()),
{
    let text = begun + rest;
    lemma_first_line_feed_after(begun, rest);
    if rest.len() == 0 {
        assert(text =~= begun);
    } else if rest[0] == '\n' {
        assert(text.take(begun.len() as int) =~= begun);
        assert(text.skip(begun.len() as int + 1) =~= rest.drop_first());
    }
}

/// Splits `text` into its lines: one more than it has line feeds.
pub fn split_into_lines(text: &str) -> (lines: Vec<String>)
    ensures
        texts_of(lines@) == split_lines(text@),
        lines.len() >= 1,
{
    broadcast use vstd::string::group_string_axioms;

    let mut lines: Vec<String> = Vec::new();
    let mut line = String::new();
    // A carriage return is held back until the next character shows whether
    // it belongs to the terminator.
    let mut held_back = false;
    let ghost mut begun: Seq<char> = Seq::empty();
    proof {
        assert(texts_of(lines@) =~= Seq::<Seq<char>>::empty());
        assert(begun + text@.skip(0) =~= text@);
        assert(texts_of(lines@) + split_lines(text@) =~= split_lines(text@));
    }
    for c in it: text.chars()
        invariant
            it.seq() == text@,
            begun == if held_back {
                line@.push('\r')
            } else {
                line@
            },
            is_single_line(begun),
            !held_back && line@.len() > 0 ==> line@.last() != '\r',
            split_lines(text@) == texts_of(lines@) + split_lines(
                begun + text@.skip(it.index() as int),
            ),
    {
        let ghost rest = text@.skip(it.index() as int);
        assert(rest.len() > 0 && rest[0] == c);
        assert(rest.drop_first() =~= text@.skip(it.index() + 1));
        if c == '\n' {
            proof {
                lemma_split_lines_step(begun, rest);
                assert(texts_of(lines@.push(line)) =~= texts_of(lines@).push(line@));
                assert(without_carriage_return(begun) =~= line@);
                assert(Seq::<char>::empty() + rest.drop_first() =~= rest.drop_first());
            }
            lines.push(line);
            line = String::new();
            held_back = false;
            proof {
                begun = Seq::empty();
            }
        } else {
            if held_back {
                line.push('\r');
            }
            if c == '\r' {
                held_back = true;
            } else {
                line.push(c);
                held_back = false;
            }
            proof {
                assert(begun.push(c) + rest.drop_first() =~= begun + rest);
                begun = begun.push(c);
            }
        }
    }
    proof {
        assert(text@.skip(text@.len() as int) =~= Seq::<char>::empty());
        lemma_split_lines_step(begun, Seq::empty());
        assert(begun + Seq::<char>::empty() =~= begun);
    }
    if held_back {
        line.push('\r');
    }
    proof {
        assert(texts_of(lines@.push(line)) =~= texts_of(lines@).push(line@));
    }
    lines.push(line);
    lines
}

/// Joins `lines` with the terminator between each two of them.
pub fn join_into_text(lines: &Vec<String>, use_crlf: bool) -> (text: String)
    ensures
        text@ == join_lines(texts_of(lines@), terminator(use_crlf)),
{
    let mut text = String::new();
    let mut i: usize = 0;
    while i < lines.len()
        invariant
            i <= lines.len(),
            text@ == join_lines(texts_of(lines@).take(i as int), terminator(use_crlf)),
        decreases lines.len() - i,
    {
        proof {
            let all = texts_of(lines@);
            assert(all.take(i + 1).drop_last() =~= all.take(i as int));
            assert(all.take(i + 1).last() == lines[i as int]@);
        }
        if i > 0 {
            if use_crlf {
                text.push('\r');
            }
            text.push('\n');
            assert(text@ =~= join_lines(texts_of(lines@).take(i as int), terminator(use_crlf))
                + terminator(use_crlf));
        }
        text.append(lines[i].as_str());
        i = i + 1;
    }
    assert(texts_of(lines@).take(lines.len() as int) =~= texts_of(lines@));
    text
}

/// Whether `line` ends in a carriage return.
pub open spec fn ends_in_carriage_return(line: Seq<char>) -> bool {
    line.len() > 0 && line.last() == '\r'
}

/// The line sequences that come back unchanged from being joined and split:
/// there is a line; no line holds a line feed; and with a bare line feed as
/// the terminator, no line but the last ends in a carriage return.
pub open spec fn survives_round_trip(lines: Seq<Seq<char>>, use_crlf: bool) -> bool {
    &&& lines.len() >= 1
    &&& forall|i: int| 0 <= i < lines.len() ==> is_single_line(#[trigger] lines[i])
    &&& !use_crlf ==> forall|i: int|
        0 <= i < lines.len() - 1 ==> !ends_in_carriage_return(#[trigger] lines[i])
}

/// A joined text is its first line, the terminator, and the join of the
/// other lines.
pub proof fn lemma_join_lines_front(lines: Seq<Seq<char>>, terminator: Seq<char>)
    requires
        lines.len() >= 2,
    ensures
        join_lines(lines, terminator) == lines[0] + terminator + join_lines(
            lines.drop_first(),
            terminator,
        ),
    decreases lines.len(),
{
    if lines.len() == 2 {
        assert(join_lines(lines.drop_last(), terminator) == lines[0]);
        assert(join_lines(lines.drop_first(), terminator) == lines[1]);
    } else {
        lemma_join_lines_front(lines.drop_last(), terminator);
        assert(lines.drop_last().drop_first() =~= lines.drop_first().drop_last());
        assert(join_lines(lines, terminator) =~= lines[0] + terminator + join_lines(
            lines.drop_first(),
            terminator,
        ));
    }
}

/// Joining the lines with the terminator and splitting the text again gives
/// the same lines, for every line sequence that `survives_round_trip`
/// describes.
pub proof fn lemma_join_split_round_trip(lines: Seq<Seq<char>>, use_crlf: bool)
    requires
        survives_round_trip(lines, use_crlf),
    ensures
        split_lines(join_lines(lines, terminator(use_crlf))) == lines,
    decreases lines.len(),
{
    let mark = terminator(use_crlf);
    if lines.len() == 1 {
        lemma_split_lines_step(lines[0], Seq::empty());
        assert(lines[0] + Seq::<char>::empty() =~= lines[0]);
        assert(lines =~= seq![lines[0]]);
    } else {
        let others = lines.drop_first();
        let tail = join_lines(others, mark);
        lemma_join_lines_front(lines, mark);
        assert forall|i: int| 0 <= i < others.len() implies is_single_line(
            #[trigger] others[i],
        ) by {
            assert(others[i] == lines[i + 1]);
        }
        if !use_crlf {
            assert forall|i: int| 0 <= i < others.len() - 1 implies !ends_in_carriage_return(
                #[trigger] others[i],
            ) by {
                assert(others[i] == lines[i + 1]);
            }
        }
        lemma_join_split_round_trip(others, use_crlf);
        let begun = if use_crlf {
            lines[0].push('\r')
        } else {
            lines[0]
        };
        let rest = seq!['\n'] + tail;
        assert(begun + rest =~= lines[0] + mark + tail);
        assert(rest.drop_first() =~= tail);
        assert(is_single_line(lines[0]));
        lemma_split_lines_step(begun, rest);
        assert(without_carriage_return(begun) =~= lines[0]);
        assert(seq![lines[0]] + others =~= lines);
    }
}

/// Lines that hold neither a line feed nor a carriage return come back
/// unchanged from being joined and split, with either terminator.
pub proof fn lemma_plain_lines_round_trip(lines: Seq<Seq<char>>, use_crlf: bool)
    requires
        lines.len() >= 1,
        forall|i: int, j: int|
            0 <= i < lines.len() && 0 <= j < lines[i].len() ==> lines[i][j] != '\n'
                && lines[i][j] != '\r',
    ensures
        split_lines(join_lines(lines, terminator(use_crlf))) == lines,
{
    lemma_join_split_round_trip(lines, use_crlf);
}

} // verus!
