//! Reading the lines of a `.tamu` file into entries.

use crate::entry::{EntryView, ErrorView, TamuEntry, TamuError};
use crate::token::{
    is_white_space, lemma_skip_white, lemma_words_are_words, lemma_words_from_none, split_whitespace,
    words,
};
use vstd::prelude::*;

verus! {

/// What one line of a `.tamu` file holds.
#[derive(Debug, Clone, PartialEq, Eq)]
pub enum Line {
    /// Nothing but white space.
    Blank,
    /// A name and no value.
    Dangling,
    /// A name and a value.
    Pair(TamuEntry),
}

/// A line without a word.
pub open spec fn is_blank(line: Seq<char>) -> bool {
    words(line).len() == 0
}

/// A line of one word: a name that no value follows.
pub open spec fn is_dangling(line: Seq<char>) -> bool {
    words(line).len() == 1
}

/// The entry of a line of two words or more: the first word names it, the
/// second is its value, and what follows is passed over.
pub open spec fn entry_of(line: Seq<char>) -> Option<EntryView> {
    let w = words(line);
    if w.len() >= 2 {
        Some(EntryView { name: w[0], value: w[1] })
    } else {
        None
    }
}

/// Some line of `lines` is dangling.
pub open spec fn has_dangling(lines: Seq<Seq<char>>) -> bool {
    exists|i: int| 0 <= i < lines.len() && is_dangling(#[trigger] lines[i])
}

/// The entries of the lines that have one, in the order of the lines.
pub open spec fn entries_of(lines: Seq<Seq<char>>) -> Seq<EntryView> {
    lines.filter_map(|line: Seq<char>| entry_of(line))
}

/// What `lines` parse to: a failure where one of them is dangling, else the
/// entries of the lines that are not blank, in the order of the lines.
pub open spec fn parsed(lines: Seq<Seq<char>>) -> Result<Seq<EntryView>, ErrorView> {
    if has_dangling(lines) {
        Err(ErrorView::MalformedData)
    } else {
        Ok(entries_of(lines))
    }
}

/// The first position at or after `from` that holds a dangling line, or the
/// number of lines where none follows.
pub open spec fn first_dangling(lines: Seq<Seq<char>>, from: int) -> int
    decreases lines.len() - from,
{
    if 0 <= from < lines.len() && !is_dangling(lines[from]) {
        first_dangling(lines, from + 1)
    } else {
        from
    }
}

/// The number of blank lines that stand before the first dangling line, or
/// in the whole of `lines` where none is dangling: the lines that a parse
/// passes over.
pub open spec fn blanks_met(lines: Seq<Seq<char>>) -> nat {
    lines.take(first_dangling(lines, 0)).filter(|line: Seq<char>| is_blank(line)).len()
}

/// The blank lines are the lines that hold white space and nothing else.
pub proof fn lemma_blank_is_all_white(line: Seq<char>)
    ensures
        is_blank(line) <==> forall|i: int| 0 <= i < line.len() ==> is_white_space(#[trigger] line[i]),
{
    lemma_skip_white(line, 0);
    if forall|i: int| 0 <= i < line.len() ==> is_white_space(#[trigger] line[i]) {
        lemma_words_from_none(line, 0);
    }
}

/// A line added at the end adds its entry, if it has one, at the end.
pub proof fn lemma_entries_push(lines: Seq<Seq<char>>, line: Seq<char>)
    ensures
        entries_of(lines.push(line)) == match entry_of(line) {
            Some(entry) => entries_of(lines).push(entry),
            None => entries_of(lines),
        },
{
    let longer = lines.push(line);
    assert(longer.drop_last() =~= lines);
    assert(longer.last() == line);
    match entry_of(line) {
        Some(entry) => {
            assert(entries_of(lines) + seq![entry] =~= entries_of(lines).push(entry));
        },
        None => {},
    }
}

/// The entries of two runs of lines, one after the other, are the entries
/// of the first and then those of the second.
pub proof fn lemma_entries_concat(front: Seq<Seq<char>>, back: Seq<Seq<char>>)
    ensures
        entries_of(front + back) == entries_of(front) + entries_of(back),
    decreases back.len(),
{
    if back.len() == 0 {
        assert(front + back =~= front);
        assert(entries_of(front) + entries_of(back) =~= entries_of(front));
    } else {
        let line = back.last();
        assert(front + back =~= (front + back.drop_last()).push(line));
        assert(back =~= back.drop_last().push(line));
        lemma_entries_push(front + back.drop_last(), line);
        lemma_entries_push(back.drop_last(), line);
        lemma_entries_concat(front, back.drop_last());
        match entry_of(line) {
            Some(entry) => {
                assert((entries_of(front) + entries_of(back.drop_last())).push(entry) =~= entries_of(
                    front,
                ) + entries_of(back.drop_last()).push(entry));
            },
            None => {},
        }
    }
}

/// The entry of a line that is neither blank nor dangling.
pub open spec fn pair_of(line: Seq<char>) -> EntryView {
    EntryView { name: words(line)[0], value: words(line)[1] }
}

/// Lines of which none is dangling parse, and to one entry for each line
/// that is not blank: the entries are those lines' pairs, in the order of
/// the lines.
pub proof fn lemma_parse_sound_lines(lines: Seq<Seq<char>>)
    requires
        forall|i: int| 0 <= i < lines.len() ==> !is_dangling(#[trigger] lines[i]),
    ensures
        parsed(lines) is Ok,
        parsed(lines)->Ok_0 == lines.filter(|line: Seq<char>| !is_blank(line)).map_values(
            |line: Seq<char>| pair_of(line),
        ),
        parsed(lines)->Ok_0.len() == lines.filter(|line: Seq<char>| !is_blank(line)).len(),
    decreases lines.len(),
{
    let full = |line: Seq<char>| !is_blank(line);
    let pair = |line: Seq<char>| pair_of(line);
    if lines.len() == 0 {
        reveal(Seq::filter);
        assert(lines.filter(full).map_values(pair) =~= entries_of(lines));
    } else {
        let front = lines.drop_last();
        let line = lines.last();
        lemma_parse_sound_lines(front);
        assert(lines =~= front.push(line));
        lemma_entries_push(front, line);
        front.lemma_filter_push(line, full);
        if is_blank(line) {
        } else {
            assert(entry_of(line) == Some(pair_of(line)));
            assert(front.filter(full).push(line).map_values(pair) =~= front.filter(full).map_values(
                pair,
            ).push(pair_of(line)));
        }
    }
}

/// A blank line put anywhere among `lines` changes nothing of what they
/// parse to: neither whether they parse, nor the entries, nor their order.
pub proof fn lemma_blank_line_is_ignored(lines: Seq<Seq<char>>, at: int, blank: Seq<char>)
    requires
        0 <= at <= lines.len(),
        is_blank(blank),
    ensures
        parsed(lines.insert(at, blank)) == parsed(lines),
{
    let longer = lines.insert(at, blank);
    let front = lines.take(at);
    let back = lines.skip(at);
    assert(lines =~= front + back);
    assert(longer =~= front.push(blank) + back);
    lemma_entries_push(front, blank);
    lemma_entries_concat(front, back);
    lemma_entries_concat(front.push(blank), back);
    if has_dangling(lines) {
        let i = choose|i: int| 0 <= i < lines.len() && is_dangling(#[trigger] lines[i]);
        if i < at {
            assert(is_dangling(longer[i]));
        } else {
            assert(is_dangling(longer[i + 1]));
        }
    }
    if has_dangling(longer) {
        let i = choose|i: int| 0 <= i < longer.len() && is_dangling(#[trigger] longer[i]);
        if i < at {
            assert(is_dangling(lines[i]));
        } else {
            assert(i != at);
            assert(is_dangling(lines[i - 1]));
        }
    }
}

/// One dangling line fails the parse of all the lines, wherever it stands
/// and whatever the others hold: no entry is given.
pub proof fn lemma_dangling_line_fails(lines: Seq<Seq<char>>, at: int)
    requires
        0 <= at < lines.len(),
        is_dangling(lines[at]),
    ensures
        parsed(lines) == Err::<Seq<EntryView>, ErrorView>(ErrorView::MalformedData),
{
}

/// The entries that lines parse to hold words: no name and no value is
/// empty or holds white space.
pub proof fn lemma_entries_are_wf(lines: Seq<Seq<char>>)
    ensures
        forall|k: int| 0 <= k < entries_of(lines).len() ==> (#[trigger] entries_of(lines)[k]).wf(),
    decreases lines.len(),
{
    if lines.len() > 0 {
        let front = lines.drop_last();
        let line = lines.last();
        assert(lines =~= front.push(line));
        lemma_entries_push(front, line);
        lemma_entries_are_wf(front);
        lemma_words_are_words(line);
    }
}

/// Reads one line.
pub fn parse_line(line: &str) -> (kind: Line)
    ensures
        match kind {
            Line::Blank => is_blank(line@),
            Line::Dangling => is_dangling(line@),
            Line::Pair(entry) => entry_of(line@) == Some(entry@) && entry.wf(),
        },
{
    let mut found = split_whitespace(line);
    proof {
        lemma_words_are_words(line@);
    }
    if found.len() == 0 {
        Line::Blank
    } else if found.len() == 1 {
        Line::Dangling
    } else {
        let ghost w = found.deep_view();
        assert(w[0] == found[0]@ && w[1] == found[1]@);
        let property_value = found.swap_remove(1);
        let converted_name = found.swap_remove(0);
        Line::Pair(TamuEntry { converted_name, property_value })
    }
}

/// Reads the lines of a `.tamu` file into its entries.
///
/// A blank line is passed over. A line of one word fails the whole parse,
/// wherever it stands. Every other line gives one entry, and the entries
/// keep the order of their lines.
pub fn parse_tamu(lines: &Vec<String>) -> (result: Result<Vec<TamuEntry>, TamuError>)
    ensures
        match result {
            Ok(entries) => parsed(lines.deep_view()) == Ok::<Seq<EntryView>, ErrorView>(
                entries.deep_view(),
            ),
            Err(error) => parsed(lines.deep_view()) == Err::<Seq<EntryView>, ErrorView>(error@),
        },
        result matches Ok(entries) ==> forall|k: int|
            0 <= k < entries.len() ==> (#[trigger] entries[k]).wf(),
{
    let ghost all = lines.deep_view();
    let mut entries: Vec<TamuEntry> = Vec::new();
    for at in 0..lines.len()
        invariant
            all == lines.deep_view(),
            forall|i: int| 0 <= i < at ==> !is_dangling(#[trigger] all[i]),
            entries.deep_view() == entries_of(all.take(at as int)),
            forall|k: int| 0 <= k < entries.len() ==> (#[trigger] entries[k]).wf(),
    {
        assert(all[at as int] == lines[at as int]@);
        let ghost before = entries.deep_view();
        proof {
            assert(all.take(at + 1) =~= all.take(at as int).push(all[at as int]));
            lemma_entries_push(all.take(at as int), all[at as int]);
        }
        match parse_line(lines[at].as_str()) {
            Line::Blank => {},
            Line::Dangling => {
                return Err(TamuError::MalformedData);
            },
            Line::Pair(entry) => {
                entries.push(entry);
                assert(entries.deep_view() =~= before + seq![entry@]);
            },
        }
    }
    assert(all.take(lines.len() as int) =~= all);
    Ok(entries)
}

/// Counts the blank lines that a parse of `lines` passes over: those before
/// the first line of one word, or all of them where no such line stands.
pub fn blank_lines(lines: &Vec<String>) -> (count: usize)
    ensures
        count == blanks_met(lines.deep_view()),
{
    let ghost all = lines.deep_view();
    let ghost blank = |line: Seq<char>| is_blank(line);
    let mut count: usize = 0;
    let mut at: usize = 0;
    while at < lines.len()
        invariant
            all == lines.deep_view(),
            blank == |line: Seq<char>| is_blank(line),
            at <= lines.len(),
            first_dangling(all, 0) == first_dangling(all, at as int),
            count == all.take(at as int).filter(blank).len(),
            count <= at,
        decreases lines.len() - at,
    {
        assert(all[at as int] == lines[at as int]@);
        proof {
            assert(all.take(at + 1) =~= all.take(at as int).push(all[at as int]));
            all.take(at as int).lemma_filter_push(all[at as int], blank);
        }
        match parse_line(lines[at].as_str()) {
            Line::Blank => {
                count += 1;
            },
            Line::Dangling => {
                return count;
            },
            Line::Pair(_) => {},
        }
        at += 1;
    }
    count
}

} // verus!
