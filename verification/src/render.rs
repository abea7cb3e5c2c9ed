//! The two texts that entries are rendered to.

use crate::entry::{EntryView, TamuEntry};
use crate::lines::{is_line, lemma_is_line_concat, lemma_lines_of_cons, lemma_lines_of_line, lines_of};
use crate::token::{is_white_space, is_word};
use vstd::prelude::*;
use vstd::string::StringExecFns;

verus! {

/// The declaration of one custom property, as it stands in its line: the
/// name behind a tab and two hyphens, then the value, as they are.
pub open spec fn css_property(entry: EntryView) -> Seq<char> {
    "\t--"@ + entry.name + ": "@ + entry.value + ";"@
}

/// The line of one custom property, with its line feed.
pub open spec fn css_line(entry: EntryView) -> Seq<char> {
    css_property(entry) + "\n"@
}

/// The custom-property sheet of `entries`: a `:root` block with one
/// declaration for each entry, in order.
pub open spec fn css_text(entries: Seq<EntryView>) -> Seq<char> {
    ":root {\n"@ + entries.map_values(|entry: EntryView| css_line(entry)).flatten() + "}"@
}

/// One name mapped to its value, as the pair stands in its line: behind
/// three tabs, name and value as they are between single quotes, and a
/// comma.
pub open spec fn theme_pair(entry: EntryView) -> Seq<char> {
    "\t\t\t'"@ + entry.name + "': '"@ + entry.value + "',"@
}

/// The line of one pair, with its line feed.
pub open spec fn theme_line(entry: EntryView) -> Seq<char> {
    theme_pair(entry) + "\n"@
}

/// The theme configuration of `entries`: a module export whose `theme` holds
/// `colors`, with one pair for each entry, in order.
pub open spec fn theme_text(entries: Seq<EntryView>) -> Seq<char> {
    "module.exports = {\n\ttheme: {\n\t\tcolors: {\n"@ + entries.map_values(
        |entry: EntryView| theme_line(entry),
    ).flatten() + "\t\t}\n\t}\n}"@
}

/// A word holds no line feed.
pub proof fn lemma_word_is_line(word: Seq<char>)
    requires
        is_word(word),
    ensures
        is_line(word),
{
    assert forall|i: int| 0 <= i < word.len() implies #[trigger] word[i] != '\n' by {
        assert(!is_white_space(word[i]));
    }
}

/// The declarations of `entries` and the closing brace, line by line.
proof fn lemma_css_block_lines(entries: Seq<EntryView>)
    requires
        forall|i: int| 0 <= i < entries.len() ==> (#[trigger] entries[i]).wf(),
    ensures
        lines_of(entries.map_values(|entry: EntryView| css_line(entry)).flatten() + "}"@)
            == entries.map_values(|entry: EntryView| css_property(entry)) + seq!["}"@],
    decreases entries.len(),
{
    let line = |entry: EntryView| css_line(entry);
    let property = |entry: EntryView| css_property(entry);
    reveal_strlit("}");
    if entries.len() == 0 {
        assert(entries.map_values(line).flatten() + "}"@ =~= "}"@);
        lemma_lines_of_line("}"@);
        assert(entries.map_values(property) + seq!["}"@] =~= seq!["}"@]);
    } else {
        let head = entries[0];
        let rest = entries.drop_first();
        assert(head.wf());
        assert forall|i: int| 0 <= i < rest.len() implies (#[trigger] rest[i]).wf() by {
            assert(rest[i] == entries[i + 1]);
        }
        lemma_css_block_lines(rest);
        lemma_css_property_is_line(head);
        assert(entries.map_values(line).drop_first() =~= rest.map_values(line));
        assert(css_line(head) =~= css_property(head) + seq!['\n']) by {
            reveal_strlit("\n");
        }
        assert(entries.map_values(line).flatten() + "}"@ =~= css_property(head) + seq!['\n'] + (
        rest.map_values(line).flatten() + "}"@));
        lemma_lines_of_cons(css_property(head), rest.map_values(line).flatten() + "}"@);
        assert(entries.map_values(property) + seq!["}"@] =~= seq![css_property(head)] + (
        rest.map_values(property) + seq!["}"@]));
    }
}

/// The declaration of an entry of two words holds no line feed.
pub proof fn lemma_css_property_is_line(entry: EntryView)
    requires
        entry.wf(),
    ensures
        is_line(css_property(entry)),
{
    reveal_strlit("\t--");
    reveal_strlit(": ");
    reveal_strlit(";");
    lemma_word_is_line(entry.name);
    lemma_word_is_line(entry.value);
    lemma_is_line_concat("\t--"@, entry.name);
    lemma_is_line_concat("\t--"@ + entry.name, ": "@);
    lemma_is_line_concat("\t--"@ + entry.name + ": "@, entry.value);
    lemma_is_line_concat("\t--"@ + entry.name + ": "@ + entry.value, ";"@);
}

/// The sheet rendered from `n` entries has `n + 2` lines: the line that
/// opens the `:root` block, one declaration for each entry, in the order of
/// the entries and with name and value as they are, and the closing brace.
pub proof fn lemma_css_lines(entries: Seq<EntryView>)
    requires
        forall|i: int| 0 <= i < entries.len() ==> (#[trigger] entries[i]).wf(),
    ensures
        lines_of(css_text(entries)) == seq![":root {"@] + entries.map_values(
            |entry: EntryView| css_property(entry),
        ) + seq!["}"@],
        lines_of(css_text(entries)).len() == entries.len() + 2,
{
    let block = entries.map_values(|entry: EntryView| css_line(entry)).flatten() + "}"@;
    lemma_css_block_lines(entries);
    reveal_strlit(":root {");
    reveal_strlit(":root {\n");
    assert(css_text(entries) =~= ":root {"@ + seq!['\n'] + block);
    lemma_lines_of_cons(":root {"@, block);
    assert(seq![":root {"@] + (entries.map_values(|entry: EntryView| css_property(entry)) + seq![
        "}"@,
    ]) =~= seq![":root {"@] + entries.map_values(|entry: EntryView| css_property(entry)) + seq![
        "}"@,
    ]);
}

/// The pair of an entry of two words holds no line feed.
pub proof fn lemma_theme_pair_is_line(entry: EntryView)
    requires
        entry.wf(),
    ensures
        is_line(theme_pair(entry)),
{
    reveal_strlit("\t\t\t'");
    reveal_strlit("': '");
    reveal_strlit("',");
    lemma_word_is_line(entry.name);
    lemma_word_is_line(entry.value);
    lemma_is_line_concat("\t\t\t'"@, entry.name);
    lemma_is_line_concat("\t\t\t'"@ + entry.name, "': '"@);
    lemma_is_line_concat("\t\t\t'"@ + entry.name + "': '"@, entry.value);
    lemma_is_line_concat("\t\t\t'"@ + entry.name + "': '"@ + entry.value, "',"@);
}

/// The lines that close the theme configuration.
pub open spec fn theme_closing() -> Seq<Seq<char>> {
    seq!["\t\t}"@, "\t}"@, "}"@]
}

/// The lines that open the theme configuration.
pub open spec fn theme_opening() -> Seq<Seq<char>> {
    seq!["module.exports = {"@, "\ttheme: {"@, "\t\tcolors: {"@]
}

/// The pairs of `entries` and the closing lines, line by line.
proof fn lemma_theme_block_lines(entries: Seq<EntryView>)
    requires
        forall|i: int| 0 <= i < entries.len() ==> (#[trigger] entries[i]).wf(),
    ensures
        lines_of(
            entries.map_values(|entry: EntryView| theme_line(entry)).flatten() + "\t\t}\n\t}\n}"@,
        ) == entries.map_values(|entry: EntryView| theme_pair(entry)) + theme_closing(),
    decreases entries.len(),
{
    let line = |entry: EntryView| theme_line(entry);
    let pair = |entry: EntryView| theme_pair(entry);
    let closing = "\t\t}\n\t}\n}"@;
    if entries.len() == 0 {
        reveal_strlit("\t\t}\n\t}\n}");
        reveal_strlit("\t\t}");
        reveal_strlit("\t}");
        reveal_strlit("}");
        assert(entries.map_values(line).flatten() + closing =~= closing);
        assert(closing =~= "\t\t}"@ + seq!['\n'] + ("\t}"@ + seq!['\n'] + "}"@));
        lemma_lines_of_cons("\t\t}"@, "\t}"@ + seq!['\n'] + "}"@);
        lemma_lines_of_cons("\t}"@, "}"@);
        lemma_lines_of_line("}"@);
        assert(entries.map_values(pair) + theme_closing() =~= theme_closing());
    } else {
        let head = entries[0];
        let rest = entries.drop_first();
        assert(head.wf());
        assert forall|i: int| 0 <= i < rest.len() implies (#[trigger] rest[i]).wf() by {
            assert(rest[i] == entries[i + 1]);
        }
        lemma_theme_block_lines(rest);
        lemma_theme_pair_is_line(head);
        assert(entries.map_values(line).drop_first() =~= rest.map_values(line));
        assert(theme_line(head) =~= theme_pair(head) + seq!['\n']) by {
            reveal_strlit("\n");
        }
        assert(entries.map_values(line).flatten() + closing =~= theme_pair(head) + seq!['\n'] + (
        rest.map_values(line).flatten() + closing));
        lemma_lines_of_cons(theme_pair(head), rest.map_values(line).flatten() + closing);
        assert(entries.map_values(pair) + theme_closing() =~= seq![theme_pair(head)] + (
        rest.map_values(pair) + theme_closing()));
    }
}

/// The theme configuration rendered from `n` entries has `n + 6` lines:
/// three that open the export, `theme` and `colors`, then one pair for each
/// entry, in the order of the entries, behind three tabs, with name and
/// value as they are between single quotes and a comma at its end, then
/// three that close what was opened.
pub proof fn lemma_theme_lines(entries: Seq<EntryView>)
    requires
        forall|i: int| 0 <= i < entries.len() ==> (#[trigger] entries[i]).wf(),
    ensures
        lines_of(theme_text(entries)) == theme_opening() + entries.map_values(
            |entry: EntryView| theme_pair(entry),
        ) + theme_closing(),
        lines_of(theme_text(entries)).len() == entries.len() + 6,
{
    let pairs = entries.map_values(|entry: EntryView| theme_pair(entry));
    let block = entries.map_values(|entry: EntryView| theme_line(entry)).flatten()
        + "\t\t}\n\t}\n}"@;
    lemma_theme_block_lines(entries);
    reveal_strlit("module.exports = {\n\ttheme: {\n\t\tcolors: {\n");
    reveal_strlit("module.exports = {");
    reveal_strlit("\ttheme: {");
    reveal_strlit("\t\tcolors: {");
    let third = "\t\tcolors: {"@ + seq!['\n'] + block;
    let second = "\ttheme: {"@ + seq!['\n'] + third;
    assert(theme_text(entries) =~= "module.exports = {"@ + seq!['\n'] + second);
    lemma_lines_of_cons("module.exports = {"@, second);
    lemma_lines_of_cons("\ttheme: {"@, third);
    lemma_lines_of_cons("\t\tcolors: {"@, block);
    assert(seq!["module.exports = {"@] + (seq!["\ttheme: {"@] + (seq!["\t\tcolors: {"@] + (pairs
        + theme_closing()))) =~= theme_opening() + pairs + theme_closing());
}

/// Renders the entries as a CSS custom-property sheet. Names and values are
/// written as they are.
pub fn to_css_variables_file(tamu_entries: Vec<TamuEntry>) -> (text: String)
    ensures
        text@ == css_text(tamu_entries.deep_view()),
{
    let ghost all = tamu_entries.deep_view();
    let ghost line = |entry: EntryView| css_line(entry);
    let mut text = ":root {\n".to_owned();
    for at in 0..tamu_entries.len()
        invariant
            all == tamu_entries.deep_view(),
            line == |entry: EntryView| css_line(entry),
            text@ == ":root {\n"@ + all.take(at as int).map_values(line).flatten(),
    {
        let ghost before = text@;
        text.append("\t--");
        text.append(tamu_entries[at].converted_name.as_str());
        text.append(": ");
        text.append(tamu_entries[at].property_value.as_str());
        text.append(";\n");
        proof {
            let done = all.take(at as int).map_values(line);
            assert(all[at as int] == tamu_entries[at as int]@);
            assert(all.take(at + 1).map_values(line) =~= done.push(css_line(all[at as int])));
            done.lemma_flatten_push(css_line(all[at as int]));
            reveal_strlit(";");
            reveal_strlit("\n");
            reveal_strlit(";\n");
            assert(";\n"@ =~= ";"@ + "\n"@);
            assert(text@ =~= before + css_line(all[at as int]));
        }
    }
    assert(all.take(tamu_entries.len() as int) =~= all);
    text.append("}");
    text
}

/// Renders the entries as a theme configuration object. Names and values are
/// written as they are, between single quotes.
pub fn to_tailwind_config(tamu_entries: Vec<TamuEntry>) -> (text: String)
    ensures
        text@ == theme_text(tamu_entries.deep_view()),
{
    let ghost all = tamu_entries.deep_view();
    let ghost line = |entry: EntryView| theme_line(entry);
    let mut text = "module.exports = {\n\ttheme: {\n\t\tcolors: {\n".to_owned();
    for at in 0..tamu_entries.len()
        invariant
            all == tamu_entries.deep_view(),
            line == |entry: EntryView| theme_line(entry),
            text@ == "module.exports = {\n\ttheme: {\n\t\tcolors: {\n"@ + all.take(
                at as int,
            ).map_values(line).flatten(),
    {
        let ghost before = text@;
        text.append("\t\t\t'");
        text.append(tamu_entries[at].converted_name.as_str());
        text.append("': '");
        text.append(tamu_entries[at].property_value.as_str());
        text.append("',\n");
        proof {
            let done = all.take(at as int).map_values(line);
            assert(all[at as int] == tamu_entries[at as int]@);
            assert(all.take(at + 1).map_values(line) =~= done.push(theme_line(all[at as int])));
            done.lemma_flatten_push(theme_line(all[at as int]));
            reveal_strlit("',");
            reveal_strlit("\n");
            reveal_strlit("',\n");
            assert("',\n"@ =~= "',"@ + "\n"@);
            assert(text@ =~= before + theme_line(all[at as int]));
        }
    }
    assert(all.take(tamu_entries.len() as int) =~= all);
    text.append("\t\t}\n\t}\n}");
    text
}

} // verus!
