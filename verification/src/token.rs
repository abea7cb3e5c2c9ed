//! White space and the words between it.

use vstd::prelude::*;

verus! {

/// The characters with the Unicode property `White_Space`.
pub open spec fn is_white_space(c: char) -> bool {
    ||| '\u{9}' <= c <= '\u{d}'
    ||| c == ' '
    ||| c == '\u{85}'
    ||| c == '\u{a0}'
    ||| c == '\u{1680}'
    ||| '\u{2000}' <= c <= '\u{200a}'
    ||| c == '\u{2028}'
    ||| c == '\u{2029}'
    ||| c == '\u{202f}'
    ||| c == '\u{205f}'
    ||| c == '\u{3000}'
}

/// A word: one character at least, none of them white space.
pub open spec fn is_word(s: Seq<char>) -> bool {
    &&& s.len() > 0
    &&& forall|i: int| 0 <= i < s.len() ==> !is_white_space(#[trigger] s[i])
}

/// The first position at or after `from` that holds no white space, or the
/// length of `s` where only white space follows.
pub open spec fn skip_white(s: Seq<char>, from: int) -> int
    decreases s.len() - from,
{
    if 0 <= from < s.len() && is_white_space(s[from]) {
        skip_white(s, from + 1)
    } else {
        from
    }
}

/// The first position at or after `from` that holds white space, or the
/// length of `s` where none follows.
pub open spec fn skip_word(s: Seq<char>, from: int) -> int
    decreases s.len() - from,
{
    if 0 <= from < s.len() && !is_white_space(s[from]) {
        skip_word(s, from + 1)
    } else {
        from
    }
}

/// The words of `s` that begin at or after `from`, in order.
pub open spec fn words_from(s: Seq<char>, from: int) -> Seq<Seq<char>>
    decreases s.len() - from,
{
    let start = skip_white(s, from);
    if 0 <= from && start < s.len() {
        let end = skip_word(s, start);
        proof {
            lemma_skip_white(s, from);
            lemma_skip_word(s, start);
        }
        seq![s.subrange(start, end)] + words_from(s, end)
    } else {
        Seq::empty()
    }
}

/// The words of `s`: its longest runs of characters that are not white
/// space, in order.
pub open spec fn words(s: Seq<char>) -> Seq<Seq<char>> {
    words_from(s, 0)
}

/// `skip_white` stops in range, on the first character that is not white
/// space, and passes over white space only.
pub proof fn lemma_skip_white(s: Seq<char>, from: int)
    requires
        0 <= from <= s.len(),
    ensures
        from <= skip_white(s, from) <= s.len(),
        skip_white(s, from) < s.len() ==> !is_white_space(s[skip_white(s, from)]),
        forall|i: int| from <= i < skip_white(s, from) ==> is_white_space(#[trigger] s[i]),
    decreases s.len() - from,
{
    if from < s.len() && is_white_space(s[from]) {
        lemma_skip_white(s, from + 1);
    }
}

/// `skip_word` stops in range, on the first white space, and passes over
/// other characters only.
pub proof fn lemma_skip_word(s: Seq<char>, from: int)
    requires
        0 <= from <= s.len(),
    ensures
        from <= skip_word(s, from) <= s.len(),
        from < s.len() && !is_white_space(s[from]) ==> from < skip_word(s, from),
        skip_word(s, from) < s.len() ==> is_white_space(s[skip_word(s, from)]),
        forall|i: int| from <= i < skip_word(s, from) ==> !is_white_space(#[trigger] s[i]),
    decreases s.len() - from,
{
    if from < s.len() && !is_white_space(s[from]) {
        lemma_skip_word(s, from + 1);
    }
}

/// `skip_white` is the one position up to which all is white space and at
/// which white space ends.
pub proof fn lemma_skip_white_to(s: Seq<char>, from: int, to: int)
    requires
        0 <= from <= to <= s.len(),
        forall|i: int| from <= i < to ==> is_white_space(#[trigger] s[i]),
        to < s.len() ==> !is_white_space(s[to]),
    ensures
        skip_white(s, from) == to,
    decreases to - from,
{
    if from < to {
        lemma_skip_white_to(s, from + 1, to);
    }
}

/// `skip_word` is the one position up to which nothing is white space and at
/// which the word ends.
pub proof fn lemma_skip_word_to(s: Seq<char>, from: int, to: int)
    requires
        0 <= from <= to <= s.len(),
        forall|i: int| from <= i < to ==> !is_white_space(#[trigger] s[i]),
        to < s.len() ==> is_white_space(s[to]),
    ensures
        skip_word(s, from) == to,
    decreases to - from,
{
    if from < to {
        lemma_skip_word_to(s, from + 1, to);
    }
}

/// Where a word stands in `s` from `start` to `end`, with nothing but white
/// space between `from` and `start`, it is the first of `words_from`, and the
/// others are the words from `end` on.
pub proof fn lemma_words_from_step(s: Seq<char>, from: int, start: int, end: int)
    requires
        0 <= from <= start < end <= s.len(),
        forall|i: int| from <= i < start ==> is_white_space(#[trigger] s[i]),
        forall|i: int| start <= i < end ==> !is_white_space(#[trigger] s[i]),
        end < s.len() ==> is_white_space(s[end]),
    ensures
        words_from(s, from) == seq![s.subrange(start, end)] + words_from(s, end),
{
    lemma_skip_white_to(s, from, start);
    lemma_skip_word_to(s, start, end);
}

/// Where nothing but white space stands from `from` on, no word does.
pub proof fn lemma_words_from_none(s: Seq<char>, from: int)
    requires
        0 <= from <= s.len(),
        forall|i: int| from <= i < s.len() ==> is_white_space(#[trigger] s[i]),
    ensures
        words_from(s, from) == Seq::<Seq<char>>::empty(),
{
    lemma_skip_white_to(s, from, s.len() as int);
}

/// Every element of `words_from` is a word.
pub proof fn lemma_words_from_are_words(s: Seq<char>, from: int)
    requires
        0 <= from <= s.len(),
    ensures
        forall|k: int| 0 <= k < words_from(s, from).len() ==> is_word(#[trigger] words_from(s, from)[k]),
    decreases s.len() - from,
{
    let start = skip_white(s, from);
    lemma_skip_white(s, from);
    if start < s.len() {
        let end = skip_word(s, start);
        lemma_skip_word(s, start);
        lemma_words_from_are_words(s, end);
        let head = s.subrange(start, end);
        assert(is_word(head)) by {
            assert forall|i: int| 0 <= i < head.len() implies !is_white_space(#[trigger] head[i]) by {
                assert(head[i] == s[start + i]);
            }
        }
        assert forall|k: int| 0 <= k < words_from(s, from).len() implies is_word(
            #[trigger] words_from(s, from)[k],
        ) by {
            if k > 0 {
                assert(words_from(s, from)[k] == words_from(s, end)[k - 1]);
            }
        }
    }
}

/// Every element of `words(s)` is a word.
pub proof fn lemma_words_are_words(s: Seq<char>)
    ensures
        forall|k: int| 0 <= k < words(s).len() ==> is_word(#[trigger] words(s)[k]),
{
    lemma_words_from_are_words(s, 0);
}

/// Whether `c` is white space.
pub fn is_whitespace(c: char) -> (b: bool)
    ensures
        b == is_white_space(c),
{
    ('\u{9}' <= c && c <= '\u{d}') || c == ' ' || c == '\u{85}' || c == '\u{a0}' || c == '\u{1680}'
        || ('\u{2000}' <= c && c <= '\u{200a}') || c == '\u{2028}' || c == '\u{2029}' || c
        == '\u{202f}' || c == '\u{205f}' || c == '\u{3000}'
}

/// The characters of `s`, one by one.
pub fn chars_of(s: &str) -> (v: Vec<char>)
    ensures
        v@ == s@,
{
    let mut v: Vec<char> = Vec::new();
    for c in it: s.chars()
        invariant
            v@ == it.seq().take(it.index()),
    {
        v.push(c);
    }
    v
}

/// Moves from `from` over white space.
fn pass_white(v: &Vec<char>, from: usize) -> (at: usize)
    requires
        from <= v.len(),
    ensures
        from <= at <= v.len(),
        at == skip_white(v@, from as int),
        forall|i: int| from <= i < at ==> is_white_space(#[trigger] v[i]),
        at < v.len() ==> !is_white_space(v[at as int]),
{
    let mut at: usize = from;
    while at < v.len() && is_whitespace(v[at])
        invariant
            from <= at <= v.len(),
            forall|i: int| from <= i < at ==> is_white_space(#[trigger] v[i]),
        decreases v.len() - at,
    {
        at += 1;
    }
    proof {
        lemma_skip_white_to(v@, from as int, at as int);
    }
    at
}

/// Moves from `from` to the end of the word that stands there.
fn pass_word(v: &Vec<char>, from: usize) -> (at: usize)
    requires
        from <= v.len(),
    ensures
        from <= at <= v.len(),
        at == skip_word(v@, from as int),
        forall|i: int| from <= i < at ==> !is_white_space(#[trigger] v[i]),
        at < v.len() ==> is_white_space(v[at as int]),
{
    let mut at: usize = from;
    while at < v.len() && !is_whitespace(v[at])
        invariant
            from <= at <= v.len(),
            forall|i: int| from <= i < at ==> !is_white_space(#[trigger] v[i]),
        decreases v.len() - at,
    {
        at += 1;
    }
    proof {
        lemma_skip_word_to(v@, from as int, at as int);
    }
    at
}

/// Splits `s` at white space into its words.
pub fn split_whitespace(s: &str) -> (out: Vec<String>)
    ensures
        out.deep_view() == words(s@),
{
    let v = chars_of(s);
    let mut out: Vec<String> = Vec::new();
    let mut at: usize = 0;
    loop
        invariant
            v@ == s@,
            at <= v.len(),
            out.deep_view() + words_from(s@, at as int) == words(s@),
        ensures
            out.deep_view() == words(s@),
        decreases v.len() - at,
    {
        let start = pass_white(&v, at);
        if start == v.len() {
            proof {
                lemma_words_from_none(s@, at as int);
                assert(out.deep_view() + Seq::<Seq<char>>::empty() =~= out.deep_view());
            }
            break ;
        }
        let end = pass_word(&v, start);
        let word = s.substring_char(start, end).to_owned();
        let ghost before = out.deep_view();
        out.push(word);
        proof {
            lemma_words_from_step(s@, at as int, start as int, end as int);
            assert(out.deep_view() =~= before + seq![s@.subrange(start as int, end as int)]);
            assert(out.deep_view() + words_from(s@, end as int) =~= before + words_from(
                s@,
                at as int,
            ));
        }
        at = end;
    }
    out
}

} // verus!
