//! The two conversions, step by step.
//!
//! A conversion lists a directory, reads a file and writes a file. None of
//! that is done here. A driver is told what happened (an `Event`), moves to
//! the next `Phase` and answers with what is to be done (an `Action`). Its
//! caller does it and comes back with the next event, until the action is
//! `Report` or `Stop`.

use crate::entry::{EntryView, ErrorView, TamuError};
use crate::locate::{find_tamu, located, DirItem, ItemView};
use crate::lines::lines_of;
use crate::parse::{blank_lines, blanks_met, entries_of, lemma_entries_are_wf, parse_tamu, parsed};
use crate::render::{
    css_text, lemma_css_lines, lemma_theme_lines, theme_text, to_css_variables_file,
    to_tailwind_config,
};
use vstd::prelude::*;
use vstd::string::StringExecFns;

verus! {

/// The artifact that a conversion makes.
#[derive(Debug, Clone, Copy, PartialEq, Eq)]
pub enum Target {
    /// The custom-property sheet.
    Css,
    /// The theme configuration object.
    Tailwind,
}

impl Target {
    /// The name of the file that the artifact is written to.
    pub open spec fn file_name(self) -> Seq<char> {
        match self {
            Target::Css => "generated.css"@,
            Target::Tailwind => "generated.js"@,
        }
    }

    /// The text of the artifact for `entries`.
    pub open spec fn rendered(self, entries: Seq<EntryView>) -> Seq<char> {
        match self {
            Target::Css => css_text(entries),
            Target::Tailwind => theme_text(entries),
        }
    }
}

/// How far a conversion has come.
#[derive(Debug, Clone, PartialEq, Eq)]
pub enum Phase {
    /// Nothing has been done.
    Start,
    /// The directory is being listed.
    Locating,
    /// The input file is being read.
    Parsing,
    /// The output file is being written.
    Rendering,
    /// The output file has been written.
    Done,
    /// The conversion has stopped, for the reason given.
    Failed(TamuError),
}

/// A `Phase` with the view of its error.
pub enum PhaseView {
    Start,
    Locating,
    Parsing,
    Rendering,
    Done,
    Failed(ErrorView),
}

impl View for Phase {
    type V = PhaseView;

    open spec fn view(&self) -> PhaseView {
        match self {
            Phase::Start => PhaseView::Start,
            Phase::Locating => PhaseView::Locating,
            Phase::Parsing => PhaseView::Parsing,
            Phase::Rendering => PhaseView::Rendering,
            Phase::Done => PhaseView::Done,
            Phase::Failed(error) => PhaseView::Failed(error@),
        }
    }
}

impl PhaseView {
    /// No step leads out of the phase.
    pub open spec fn is_terminal(self) -> bool {
        self is Done || self is Failed
    }

    /// The phase that follows where nothing fails. The last has none.
    pub open spec fn successor(self) -> PhaseView {
        match self {
            PhaseView::Start => PhaseView::Locating,
            PhaseView::Locating => PhaseView::Parsing,
            PhaseView::Parsing => PhaseView::Rendering,
            PhaseView::Rendering => PhaseView::Done,
            PhaseView::Done => PhaseView::Done,
            PhaseView::Failed(error) => PhaseView::Failed(error),
        }
    }
}

/// What the caller of a driver has to tell it.
#[derive(Debug, Clone, PartialEq, Eq)]
pub enum Event {
    /// The conversion is asked for.
    Begin,
    /// The directory was listed. `items` holds its entries in the order in
    /// which they came, up to the first that the system failed to give;
    /// `fault` holds the system's words where it failed.
    Listed { items: Vec<DirItem>, fault: Option<String> },
    /// The input file was read. `lines` holds its lines in order, without
    /// their line feeds, up to the first that the system failed to give;
    /// `fault` holds the system's words where it failed.
    Read { lines: Vec<String>, fault: Option<String> },
    /// The output file was written, or was not: `fault` holds the system's
    /// words where it failed.
    Written { fault: Option<String> },
}

/// An `Event` with its texts as sequences of characters.
pub enum EventView {
    Begin,
    Listed { items: Seq<ItemView>, fault: Option<Seq<char>> },
    Read { lines: Seq<Seq<char>>, fault: Option<Seq<char>> },
    Written { fault: Option<Seq<char>> },
}

/// The characters of an optional text.
pub open spec fn text_view(text: Option<String>) -> Option<Seq<char>> {
    match text {
        Some(text) => Some(text@),
        None => None,
    }
}

impl View for Event {
    type V = EventView;

    open spec fn view(&self) -> EventView {
        match self {
            Event::Begin => EventView::Begin,
            Event::Listed { items, fault } => EventView::Listed {
                items: items.deep_view(),
                fault: text_view(*fault),
            },
            Event::Read { lines, fault } => EventView::Read {
                lines: lines.deep_view(),
                fault: text_view(*fault),
            },
            Event::Written { fault } => EventView::Written { fault: text_view(*fault) },
        }
    }
}

/// What a driver asks its caller to do.
#[derive(Debug, Clone, PartialEq, Eq)]
pub enum Action {
    /// List the working directory, and come back with `Event::Listed`.
    List,
    /// Read the lines of the file at position `index` of the listing, and
    /// come back with `Event::Read`.
    Read { index: usize },
    /// Print the notice of a blank line `skipped` times to the error
    /// stream, write `text` to the file `file`, replacing what it held, and
    /// come back with `Event::Written`.
    Write { file: String, text: String, skipped: usize },
    /// Print the notice of a blank line `skipped` times and then `message`
    /// to the error stream. The conversion has failed.
    Report { skipped: usize, message: String },
    /// Nothing is left to do.
    Stop,
}

/// An `Action` with its texts as sequences of characters.
pub enum ActionView {
    List,
    Read { index: int },
    Write { file: Seq<char>, text: Seq<char>, skipped: nat },
    Report { skipped: nat, message: Seq<char> },
    Stop,
}

impl View for Action {
    type V = ActionView;

    open spec fn view(&self) -> ActionView {
        match self {
            Action::List => ActionView::List,
            Action::Read { index } => ActionView::Read { index: *index as int },
            Action::Write { file, text, skipped } => ActionView::Write {
                file: file@,
                text: text@,
                skipped: *skipped as nat,
            },
            Action::Report { skipped, message } => ActionView::Report {
                skipped: *skipped as nat,
                message: message@,
            },
            Action::Stop => ActionView::Stop,
        }
    }
}

/// The line that reports `error` to the user.
pub open spec fn report_of(error: ErrorView) -> Seq<char> {
    "Err: "@ + error.message()
}

/// The step into failure: after `skipped` notices the error is reported.
pub open spec fn failure(error: ErrorView, skipped: nat) -> (PhaseView, ActionView) {
    (PhaseView::Failed(error), ActionView::Report { skipped, message: report_of(error) })
}

/// The error of a step on which the system failed with the words `fault`.
pub open spec fn or_fault(fault: Option<Seq<char>>, otherwise: ErrorView) -> ErrorView {
    match fault {
        Some(text) => ErrorView::IoError(text),
        None => otherwise,
    }
}

/// The step that a conversion to `target` takes in `phase` on `event`.
///
/// Locating takes the first qualifying entry of the listing; where there is
/// none, the system's fault is the error if it failed, else `NotFound`.
/// Parsing fails on a dangling line among the lines read, then on the
/// system's fault; else the entries are rendered. An event that the phase
/// does not await changes nothing.
pub open spec fn next(target: Target, phase: PhaseView, event: EventView) -> (
    PhaseView,
    ActionView,
) {
    match (phase, event) {
        (PhaseView::Start, EventView::Begin) => (PhaseView::Locating, ActionView::List),
        (PhaseView::Locating, EventView::Listed { items, fault }) => match located(items) {
            Some(index) => (PhaseView::Parsing, ActionView::Read { index }),
            None => failure(or_fault(fault, ErrorView::NotFound), 0),
        },
        (PhaseView::Parsing, EventView::Read { lines, fault }) => match parsed(lines) {
            Err(error) => failure(error, blanks_met(lines)),
            Ok(entries) => match fault {
                Some(text) => failure(ErrorView::IoError(text), blanks_met(lines)),
                None => (
                    PhaseView::Rendering,
                    ActionView::Write {
                        file: target.file_name(),
                        text: target.rendered(entries),
                        skipped: blanks_met(lines),
                    },
                ),
            },
        },
        (PhaseView::Rendering, EventView::Written { fault }) => match fault {
            Some(text) => failure(ErrorView::IoError(text), 0),
            None => (PhaseView::Done, ActionView::Stop),
        },
        _ => (phase, ActionView::Stop),
    }
}

/// A step depends on nothing but the target, the phase and what the event
/// holds. A conversion repeated on a directory and a file that have not
/// changed meets the same events, so it takes the same steps: it asks for
/// the same file to be written, with the same text, character for
/// character.
pub proof fn lemma_same_input_same_step(
    target: Target,
    phase: Phase,
    event: Event,
    phase_again: Phase,
    event_again: Event,
)
    requires
        phase@ == phase_again@,
        event@ == event_again@,
    ensures
        next(target, phase@, event@) == next(target, phase_again@, event_again@),
{
}

/// A step leaves the phase as it is and asks for nothing, or it goes on to
/// the phase that follows, or it fails and reports: no phase is entered
/// twice, and none is left out.
pub proof fn lemma_step_goes_forward(target: Target, phase: PhaseView, event: EventView)
    ensures
        ({
            let (after, action) = next(target, phase, event);
            ||| after == phase && action is Stop
            ||| after == phase.successor() && !phase.is_terminal() && !(action is Report)
            ||| after is Failed && !phase.is_terminal() && action is Report
        }),
{
}

/// `Done` and `Failed` are kept whatever comes, and nothing more is asked
/// for: a conversion that has stopped is not taken up again.
pub proof fn lemma_terminal_phase_stays(target: Target, phase: PhaseView, event: EventView)
    requires
        phase.is_terminal(),
    ensures
        next(target, phase, event) == (phase, ActionView::Stop),
{
}

/// A file is written in one case only: in `Parsing`, on lines that were
/// read without a fault and of which none is dangling. It is then the
/// target's file, and its text is rendered from the entries of those lines.
pub proof fn lemma_write_only_after_parse(target: Target, phase: PhaseView, event: EventView)
    requires
        next(target, phase, event).1 is Write,
    ensures
        phase is Parsing,
        event is Read,
        event->Read_fault is None,
        parsed(event->lines) is Ok,
        next(target, phase, event) == (
            PhaseView::Rendering,
            (ActionView::Write {
                file: target.file_name(),
                text: target.rendered(entries_of(event->lines)),
                skipped: blanks_met(event->lines),
            }),
        ),
{
}

impl Target {
    /// The number of lines that open and close the artifact, around the
    /// lines of the entries.
    pub open spec fn frame_lines(self) -> nat {
        match self {
            Target::Css => 2,
            Target::Tailwind => 6,
        }
    }
}

/// The text that is written for lines of a `.tamu` file has one line for
/// each entry of theirs, within the lines that open and close the artifact
/// and are the same whatever the entries.
pub proof fn lemma_written_lines(target: Target, lines: Seq<Seq<char>>)
    ensures
        lines_of(target.rendered(entries_of(lines))).len() == entries_of(lines).len()
            + target.frame_lines(),
{
    lemma_entries_are_wf(lines);
    match target {
        Target::Css => lemma_css_lines(entries_of(lines)),
        Target::Tailwind => lemma_theme_lines(entries_of(lines)),
    }
}

/// The notice that is printed for each blank line passed over.
pub fn blank_line_notice() -> (text: String)
    ensures
        text@ == "You should not skip lines within a .tamu file for my sake"@,
{
    "You should not skip lines within a .tamu file for my sake".to_owned()
}

/// Fails with `error`, after `skipped` notices.
fn fail(error: TamuError, skipped: usize) -> (step: (Phase, Action))
    ensures
        (step.0@, step.1@) == failure(error@, skipped as nat),
{
    let mut message = "Err: ".to_owned();
    let text = error.message();
    message.append(text.as_str());
    (Phase::Failed(error), Action::Report { skipped, message })
}

/// Takes one step of a conversion to `target`.
pub fn advance(target: Target, phase: Phase, event: Event) -> (step: (Phase, Action))
    ensures
        (step.0@, step.1@) == next(target, phase@, event@),
{
    match (phase, event) {
        (Phase::Start, Event::Begin) => (Phase::Locating, Action::List),
        (Phase::Locating, Event::Listed { items, fault }) => match find_tamu(&items) {
            Ok(index) => (Phase::Parsing, Action::Read { index }),
            Err(error) => match fault {
                Some(text) => fail(TamuError::IoError(text), 0),
                None => fail(error, 0),
            },
        },
        (Phase::Parsing, Event::Read { lines, fault }) => {
            let skipped = blank_lines(&lines);
            match parse_tamu(&lines) {
                Err(error) => fail(error, skipped),
                Ok(entries) => match fault {
                    Some(text) => fail(TamuError::IoError(text), skipped),
                    None => {
                        let (file, text) = match target {
                            Target::Css => (
                                "generated.css".to_owned(),
                                to_css_variables_file(entries),
                            ),
                            Target::Tailwind => (
                                "generated.js".to_owned(),
                                to_tailwind_config(entries),
                            ),
                        };
                        (Phase::Rendering, Action::Write { file, text, skipped })
                    },
                },
            }
        },
        (Phase::Rendering, Event::Written { fault }) => match fault {
            Some(text) => fail(TamuError::IoError(text), 0),
            None => (Phase::Done, Action::Stop),
        },
        (phase, _) => (phase, Action::Stop),
    }
}

/// Takes one step of the conversion to a CSS custom-property sheet.
pub fn write_to_css(phase: Phase, event: Event) -> (step: (Phase, Action))
    ensures
        (step.0@, step.1@) == next(Target::Css, phase@, event@),
{
    advance(Target::Css, phase, event)
}

/// Takes one step of the conversion to a theme configuration object.
pub fn write_to_tailwind(phase: Phase, event: Event) -> (step: (Phase, Action))
    ensures
        (step.0@, step.1@) == next(Target::Tailwind, phase@, event@),
{
    advance(Target::Tailwind, phase, event)
}

} // verus!
