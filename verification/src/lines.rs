//! A text as the lines between its line feeds.

use vstd::prelude::*;

verus! {

/// A text that holds no line feed.
pub open spec fn is_line(s: Seq<char>) -> bool {
    forall|i: int| 0 <= i < s.len() ==> #[trigger] s[i] != '\n'
}

/// The first position at or after `from` that holds a line feed, or the
/// length of `s` where none follows.
pub open spec fn first_feed(s: Seq<char>, from: int) -> int
    decreases s.len() - from,
{
    if 0 <= from < s.len() && s[from] != '\n' {
        first_feed(s, from + 1)
    } else {
        from
    }
}

/// The lines of a text: what stands before its first line feed, between
/// one line feed and the next, and after the last. A text with `n` line
/// feeds has `n + 1` lines, of which some may be empty.
pub open spec fn lines_of(s: Seq<char>) -> Seq<Seq<char>>
    decreases s.len(),
{
    let end = first_feed(s, 0);
    if 0 <= end < s.len() {
        seq![s.take(end)] + lines_of(s.skip(end + 1))
    } else {
        seq![s]
    }
}

/// `first_feed` is the one position before which no line feed stands and
/// at which one does, or the text ends.
pub proof fn lemma_first_feed_to(s: Seq<char>, from: int, to: int)
    requires
        0 <= from <= to <= s.len(),
        forall|i: int| from <= i < to ==> #[trigger] s[i] != '\n',
        to < s.len() ==> s[to] == '\n',
    ensures
        first_feed(s, from) == to,
    decreases to - from,
{
    if from < to {
        lemma_first_feed_to(s, from + 1, to);
    }
}

/// A text without a line feed is one line.
pub proof fn lemma_lines_of_line(line: Seq<char>)
    requires
        is_line(line),
    ensures
        lines_of(line) == seq![line],
{
    lemma_first_feed_to(line, 0, line.len() as int);
}

/// A line, a line feed and a text have the line first and then the lines
/// of the text.
pub proof fn lemma_lines_of_cons(line: Seq<char>, rest: Seq<char>)
    requires
        is_line(line),
    ensures
        lines_of(line + seq!['\n'] + rest) == seq![line] + lines_of(rest),
{
    let text = line + seq!['\n'] + rest;
    let end = line.len() as int;
    assert forall|i: int| 0 <= i < end implies #[trigger] text[i] != '\n' by {
        assert(text[i] == line[i]);
    }
    assert(text[end] == '\n');
    lemma_first_feed_to(text, 0, end);
    assert(text.take(end) =~= line);
    assert(text.skip(end + 1) =~= rest);
}

/// Texts without a line feed, put together, hold none.
pub proof fn lemma_is_line_concat(a: Seq<char>, b: Seq<char>)
    requires
        is_line(a),
        is_line(b),
    ensures
        is_line(a + b),
{
    assert forall|i: int| 0 <= i < (a + b).len() implies #[trigger] (a + b)[i] != '\n' by {
        if i < a.len() {
            assert((a + b)[i] == a[i]);
        } else {
            assert((a + b)[i] == b[i - a.len()]);
        }
    }
}

} // verus!
