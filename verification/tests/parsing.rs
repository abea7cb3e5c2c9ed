use tamu::{blank_lines, parse_line, parse_tamu, Line, TamuEntry, TamuError};

fn lines(text: &[&str]) -> Vec<String> {
    text.iter().map(|l| l.to_string()).collect()
}

fn entry(name: &str, value: &str) -> TamuEntry {
    TamuEntry { converted_name: name.to_string(), property_value: value.to_string() }
}

#[test]
fn line_without_a_word_is_blank() {
    assert_eq!(parse_line(""), Line::Blank);
    assert_eq!(parse_line("   "), Line::Blank);
    assert_eq!(parse_line("\t\r"), Line::Blank);
    assert_eq!(parse_line("\u{a0}\u{3000}"), Line::Blank);
}

#[test]
fn line_of_one_word_is_dangling() {
    assert_eq!(parse_line("accent"), Line::Dangling);
    assert_eq!(parse_line("  accent  "), Line::Dangling);
    assert_eq!(parse_line("#336699\r"), Line::Dangling);
}

#[test]
fn line_of_two_words_is_a_pair() {
    assert_eq!(parse_line("primary #336699"), Line::Pair(entry("primary", "#336699")));
    assert_eq!(parse_line("\tprimary\t\t#336699\r"), Line::Pair(entry("primary", "#336699")));
    assert_eq!(parse_line("a b"), Line::Pair(entry("a", "b")));
}

#[test]
fn words_after_the_second_are_passed_over() {
    assert_eq!(parse_line("primary hsl(210, 50%, 40%)"), Line::Pair(entry("primary", "hsl(210,")));
    assert_eq!(parse_line("a b c d e"), Line::Pair(entry("a", "b")));
    assert_eq!(
        parse_tamu(&lines(&["primary #336699 ; the main colour", "secondary #889933 x"])),
        Ok(vec![entry("primary", "#336699"), entry("secondary", "#889933")])
    );
}

#[test]
fn two_lines_give_two_entries() {
    assert_eq!(
        parse_tamu(&lines(&["primary #336699", "secondary #889933"])),
        Ok(vec![entry("primary", "#336699"), entry("secondary", "#889933")])
    );
}

#[test]
fn no_line_gives_no_entry() {
    assert_eq!(parse_tamu(&lines(&[])), Ok(vec![]));
    assert_eq!(parse_tamu(&lines(&["", "  ", "\t"])), Ok(vec![]));
}

#[test]
fn as_many_entries_as_lines_in_their_order() {
    let mut text: Vec<String> = Vec::new();
    let mut expected: Vec<TamuEntry> = Vec::new();
    for n in 0..40 {
        text.push(format!("colour{} #{:06x} trailing", n, n * 4099));
        expected.push(entry(&format!("colour{}", n), &format!("#{:06x}", n * 4099)));
    }
    let parsed = parse_tamu(&text);
    assert_eq!(parsed.as_ref().map(|entries| entries.len()), Ok(40));
    assert_eq!(parsed, Ok(expected));
}

#[test]
fn same_name_twice_is_kept_twice() {
    assert_eq!(
        parse_tamu(&lines(&["a 1", "a 2", "a 1"])),
        Ok(vec![entry("a", "1"), entry("a", "2"), entry("a", "1")])
    );
}

#[test]
fn blank_lines_change_nothing() {
    let plain = lines(&["primary #336699", "secondary #889933", "accent #ff0000"]);
    let expected = parse_tamu(&plain);
    assert_eq!(expected.as_ref().map(|entries| entries.len()), Ok(3));
    for at in 0..=plain.len() {
        for blank in ["", "   ", "\t\r", "\u{2003}"] {
            let mut spaced = plain.clone();
            spaced.insert(at, blank.to_string());
            assert_eq!(parse_tamu(&spaced), expected);
        }
    }
    assert_eq!(
        parse_tamu(&lines(&["", "primary #336699", "", "", "secondary #889933", " ", "accent #ff0000", ""])),
        expected
    );
}

#[test]
fn lone_name_fails_the_parse() {
    assert_eq!(parse_tamu(&lines(&["accent"])), Err(TamuError::MalformedData));
}

#[test]
fn dangling_line_fails_wherever_it_stands() {
    let plain = lines(&["primary #336699", "secondary #889933", "accent #ff0000"]);
    for at in 0..=plain.len() {
        let mut broken = plain.clone();
        broken.insert(at, " tertiary ".to_string());
        assert_eq!(parse_tamu(&broken), Err(TamuError::MalformedData));
    }
    assert_eq!(parse_tamu(&lines(&["", "x", ""])), Err(TamuError::MalformedData));
    assert_eq!(parse_tamu(&lines(&["a b", "c d", "e"])), Err(TamuError::MalformedData));
}

#[test]
fn entries_hold_words() {
    let parsed = parse_tamu(&lines(&[" a\u{a0}b ", "\tname\tvalue\textra"]));
    let entries = match parsed {
        Ok(entries) => entries,
        Err(error) => panic!("{:?}", error),
    };
    assert_eq!(entries.len(), 2);
    for e in &entries {
        assert!(!e.converted_name.is_empty());
        assert!(!e.property_value.is_empty());
        assert!(!e.converted_name.chars().any(|c| c.is_whitespace()));
        assert!(!e.property_value.chars().any(|c| c.is_whitespace()));
    }
    assert_eq!(entries, vec![entry("a", "b"), entry("name", "value")]);
}

#[test]
fn values_are_not_judged() {
    assert_eq!(
        parse_tamu(&lines(&["primary not-a-colour", "-- ;", "'quoted' \"x\""])),
        Ok(vec![entry("primary", "not-a-colour"), entry("--", ";"), entry("'quoted'", "\"x\"")])
    );
}

#[test]
fn blank_lines_are_counted() {
    assert_eq!(blank_lines(&lines(&[])), 0);
    assert_eq!(blank_lines(&lines(&["a b", "c d"])), 0);
    assert_eq!(blank_lines(&lines(&["", "a b", "  ", "c d", "\t"])), 3);
    assert_eq!(blank_lines(&lines(&["", "", ""])), 3);
}

#[test]
fn blank_lines_after_a_dangling_line_are_not_met() {
    assert_eq!(blank_lines(&lines(&["accent", "", ""])), 0);
    assert_eq!(blank_lines(&lines(&["", "a b", "", "accent", "", "c d", ""])), 2);
    assert_eq!(blank_lines(&lines(&["", "", "x", "y", ""])), 2);
}
