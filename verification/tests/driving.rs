use tamu::{
    advance, blank_line_notice, write_to_css, write_to_tailwind, Action, DirItem, Event, Phase, TamuError,
    Target,
};

const NOT_FOUND: &str = "Could not find a .tamu file in the current directory";
const MALFORMED: &str =
    "Pal file is misformatted. Each line should have: Color [space] Value(Hex, HSL, RGB)";

fn file(name: &str) -> DirItem {
    DirItem { name: name.to_string(), regular: true }
}

fn listed(names: &[&str]) -> Event {
    Event::Listed { items: names.iter().map(|n| file(n)).collect(), fault: None }
}

fn read(lines: &[&str]) -> Event {
    Event::Read { lines: lines.iter().map(|l| l.to_string()).collect(), fault: None }
}

fn report(skipped: usize, message: &str) -> Action {
    Action::Report { skipped, message: message.to_string() }
}

fn io(text: &str) -> TamuError {
    TamuError::IoError(text.to_string())
}

/// Runs a conversion on a directory that holds what `names` and `lines` say, and gives the
/// actions asked for.
fn run(step: fn(Phase, Event) -> (Phase, Action), names: &[&str], lines: &[&str]) -> (Phase, Vec<Action>) {
    let mut phase = Phase::Start;
    let mut event = Event::Begin;
    let mut asked: Vec<Action> = Vec::new();
    loop {
        let (next, action) = step(phase, event);
        phase = next;
        asked.push(action.clone());
        event = match action {
            Action::List => listed(names),
            Action::Read { .. } => read(lines),
            Action::Write { .. } => Event::Written { fault: None },
            Action::Report { .. } | Action::Stop => return (phase, asked),
        };
        assert!(asked.len() < 10);
    }
}

#[test]
fn messages_of_the_errors() {
    assert_eq!(TamuError::NotFound.message(), NOT_FOUND);
    assert_eq!(TamuError::MalformedData.message(), MALFORMED);
    assert_eq!(io("permission denied (os error 13)").message(), "permission denied (os error 13)");
    assert_eq!(io("").message(), "");
}

#[test]
fn notice_of_a_blank_line() {
    assert_eq!(blank_line_notice(), "You should not skip lines within a .tamu file for my sake");
}

#[test]
fn conversion_begins_by_listing() {
    assert_eq!(write_to_css(Phase::Start, Event::Begin), (Phase::Locating, Action::List));
    assert_eq!(write_to_tailwind(Phase::Start, Event::Begin), (Phase::Locating, Action::List));
}

#[test]
fn located_file_is_read() {
    assert_eq!(
        write_to_css(Phase::Locating, listed(&["a.txt", "colors.tamu", "b.tamu"])),
        (Phase::Parsing, Action::Read { index: 1 })
    );
    assert_eq!(
        write_to_tailwind(Phase::Locating, listed(&["colors.tamu"])),
        (Phase::Parsing, Action::Read { index: 0 })
    );
}

#[test]
fn empty_directory_fails_with_not_found() {
    let expected = (Phase::Failed(TamuError::NotFound), report(0, &format!("Err: {}", NOT_FOUND)));
    assert_eq!(write_to_css(Phase::Locating, listed(&[])), expected);
    assert_eq!(write_to_tailwind(Phase::Locating, listed(&[])), expected);
    let (phase, asked) = run(write_to_css, &[], &["primary #336699"]);
    assert_eq!(phase, Phase::Failed(TamuError::NotFound));
    assert_eq!(asked, vec![Action::List, report(0, &format!("Err: {}", NOT_FOUND))]);
    assert!(!asked.iter().any(|a| matches!(a, Action::Write { .. })));
}

#[test]
fn fault_of_the_listing_is_reported() {
    let event = Event::Listed { items: vec![file("a.txt")], fault: Some("permission denied".to_string()) };
    assert_eq!(
        write_to_css(Phase::Locating, event),
        (Phase::Failed(io("permission denied")), report(0, "Err: permission denied"))
    );
    let event = Event::Listed { items: vec![], fault: Some("gone".to_string()) };
    assert_eq!(write_to_tailwind(Phase::Locating, event), (Phase::Failed(io("gone")), report(0, "Err: gone")));
}

#[test]
fn file_listed_before_a_fault_is_taken() {
    let event = Event::Listed {
        items: vec![file("a.txt"), file("colors.tamu")],
        fault: Some("permission denied".to_string()),
    };
    assert_eq!(write_to_css(Phase::Locating, event), (Phase::Parsing, Action::Read { index: 1 }));
}

#[test]
fn parsed_lines_are_written_as_css() {
    assert_eq!(
        write_to_css(Phase::Parsing, read(&["primary #336699", "secondary #889933"])),
        (
            Phase::Rendering,
            Action::Write {
                file: "generated.css".to_string(),
                text: ":root {\n\t--primary: #336699;\n\t--secondary: #889933;\n}".to_string(),
                skipped: 0,
            }
        )
    );
}

#[test]
fn parsed_lines_are_written_as_theme() {
    assert_eq!(
        write_to_tailwind(Phase::Parsing, read(&["primary #336699", "", "secondary #889933"])),
        (
            Phase::Rendering,
            Action::Write {
                file: "generated.js".to_string(),
                text: "module.exports = {\n\ttheme: {\n\t\tcolors: {\n\t\t\t'primary': '#336699',\n\t\t\t'secondary': '#889933',\n\t\t}\n\t}\n}"
                    .to_string(),
                skipped: 1,
            }
        )
    );
}

#[test]
fn file_without_entries_is_converted() {
    assert_eq!(
        write_to_css(Phase::Parsing, read(&[])),
        (
            Phase::Rendering,
            Action::Write { file: "generated.css".to_string(), text: ":root {\n}".to_string(), skipped: 0 }
        )
    );
    assert_eq!(
        write_to_css(Phase::Parsing, read(&["", " "])),
        (
            Phase::Rendering,
            Action::Write { file: "generated.css".to_string(), text: ":root {\n}".to_string(), skipped: 2 }
        )
    );
}

#[test]
fn lone_name_fails_and_writes_nothing() {
    let expected = (Phase::Failed(TamuError::MalformedData), report(0, &format!("Err: {}", MALFORMED)));
    assert_eq!(write_to_css(Phase::Parsing, read(&["accent"])), expected);
    assert_eq!(write_to_tailwind(Phase::Parsing, read(&["accent"])), expected);
    for step in [write_to_css as fn(Phase, Event) -> (Phase, Action), write_to_tailwind] {
        let (phase, asked) = run(step, &["colors.tamu"], &["accent"]);
        assert_eq!(phase, Phase::Failed(TamuError::MalformedData));
        assert_eq!(
            asked,
            vec![Action::List, Action::Read { index: 0 }, report(0, &format!("Err: {}", MALFORMED))]
        );
    }
}

#[test]
fn notices_come_before_the_report() {
    assert_eq!(
        write_to_css(Phase::Parsing, read(&["", "a b", " ", "accent", "", "c d"])),
        (Phase::Failed(TamuError::MalformedData), report(2, &format!("Err: {}", MALFORMED)))
    );
}

#[test]
fn fault_of_the_reading_is_reported() {
    let event = Event::Read { lines: vec![], fault: Some("No such file or directory (os error 2)".to_string()) };
    assert_eq!(
        write_to_css(Phase::Parsing, event),
        (
            Phase::Failed(io("No such file or directory (os error 2)")),
            report(0, "Err: No such file or directory (os error 2)")
        )
    );
    let event = Event::Read {
        lines: vec!["a b".to_string(), "".to_string()],
        fault: Some("stream did not contain valid UTF-8".to_string()),
    };
    assert_eq!(
        write_to_tailwind(Phase::Parsing, event),
        (
            Phase::Failed(io("stream did not contain valid UTF-8")),
            report(1, "Err: stream did not contain valid UTF-8")
        )
    );
}

#[test]
fn dangling_line_read_before_a_fault_is_the_error() {
    let event = Event::Read {
        lines: vec!["a b".to_string(), "accent".to_string()],
        fault: Some("stream did not contain valid UTF-8".to_string()),
    };
    assert_eq!(
        write_to_css(Phase::Parsing, event),
        (Phase::Failed(TamuError::MalformedData), report(0, &format!("Err: {}", MALFORMED)))
    );
}

#[test]
fn written_file_ends_the_conversion() {
    assert_eq!(write_to_css(Phase::Rendering, Event::Written { fault: None }), (Phase::Done, Action::Stop));
    assert_eq!(
        write_to_tailwind(Phase::Rendering, Event::Written { fault: None }),
        (Phase::Done, Action::Stop)
    );
}

#[test]
fn fault_of_the_writing_is_reported() {
    let event = Event::Written { fault: Some("No space left on device (os error 28)".to_string()) };
    assert_eq!(
        write_to_css(Phase::Rendering, event),
        (
            Phase::Failed(io("No space left on device (os error 28)")),
            report(0, "Err: No space left on device (os error 28)")
        )
    );
}

#[test]
fn stopped_conversion_stays_stopped() {
    let events = [
        Event::Begin,
        listed(&["colors.tamu"]),
        read(&["a b"]),
        Event::Written { fault: None },
        Event::Written { fault: Some("x".to_string()) },
    ];
    for phase in [Phase::Done, Phase::Failed(TamuError::NotFound), Phase::Failed(io("x")), Phase::Failed(TamuError::MalformedData)] {
        for event in &events {
            assert_eq!(write_to_css(phase.clone(), event.clone()), (phase.clone(), Action::Stop));
            assert_eq!(write_to_tailwind(phase.clone(), event.clone()), (phase.clone(), Action::Stop));
        }
    }
}

#[test]
fn event_that_is_not_awaited_changes_nothing() {
    assert_eq!(write_to_css(Phase::Start, listed(&["colors.tamu"])), (Phase::Start, Action::Stop));
    assert_eq!(write_to_css(Phase::Start, read(&["a b"])), (Phase::Start, Action::Stop));
    assert_eq!(write_to_css(Phase::Locating, Event::Begin), (Phase::Locating, Action::Stop));
    assert_eq!(write_to_css(Phase::Locating, read(&["a b"])), (Phase::Locating, Action::Stop));
    assert_eq!(write_to_css(Phase::Parsing, listed(&["colors.tamu"])), (Phase::Parsing, Action::Stop));
    assert_eq!(write_to_css(Phase::Parsing, Event::Written { fault: None }), (Phase::Parsing, Action::Stop));
    assert_eq!(write_to_css(Phase::Rendering, read(&["a b"])), (Phase::Rendering, Action::Stop));
    assert_eq!(write_to_css(Phase::Rendering, Event::Begin), (Phase::Rendering, Action::Stop));
}

#[test]
fn whole_conversion_to_css() {
    let (phase, asked) = run(write_to_css, &["colors.tamu"], &["primary #336699", "secondary #889933"]);
    assert_eq!(phase, Phase::Done);
    assert_eq!(
        asked,
        vec![
            Action::List,
            Action::Read { index: 0 },
            Action::Write {
                file: "generated.css".to_string(),
                text: ":root {\n\t--primary: #336699;\n\t--secondary: #889933;\n}".to_string(),
                skipped: 0,
            },
            Action::Stop,
        ]
    );
}

#[test]
fn whole_conversion_to_theme() {
    let (phase, asked) =
        run(write_to_tailwind, &["notes.md", "colors.tamu"], &["", "primary #336699 main", "secondary #889933"]);
    assert_eq!(phase, Phase::Done);
    assert_eq!(
        asked,
        vec![
            Action::List,
            Action::Read { index: 1 },
            Action::Write {
                file: "generated.js".to_string(),
                text: "module.exports = {\n\ttheme: {\n\t\tcolors: {\n\t\t\t'primary': '#336699',\n\t\t\t'secondary': '#889933',\n\t\t}\n\t}\n}"
                    .to_string(),
                skipped: 1,
            },
            Action::Stop,
        ]
    );
}

#[test]
fn conversion_repeated_gives_the_same_text() {
    let names = ["b.txt", "colors.tamu", "other.tamu"];
    let lines = ["primary #336699", "", "secondary #889933 x", "accent hsl(1,2%,3%)"];
    for step in [write_to_css as fn(Phase, Event) -> (Phase, Action), write_to_tailwind] {
        let first = run(step, &names, &lines);
        let second = run(step, &names, &lines);
        assert_eq!(first, second);
        assert_eq!(first.0, Phase::Done);
        assert!(matches!(first.1[2], Action::Write { .. }));
    }
}

#[test]
fn drivers_are_the_steps_of_their_targets() {
    let events = [Event::Begin, listed(&["colors.tamu"]), read(&["a b", "", "c d"]), Event::Written { fault: None }];
    let phases = [Phase::Start, Phase::Locating, Phase::Parsing, Phase::Rendering, Phase::Done];
    for phase in &phases {
        for event in &events {
            assert_eq!(
                advance(Target::Css, phase.clone(), event.clone()),
                write_to_css(phase.clone(), event.clone())
            );
            assert_eq!(
                advance(Target::Tailwind, phase.clone(), event.clone()),
                write_to_tailwind(phase.clone(), event.clone())
            );
        }
    }
}
