//! The entry of a `.tamu` file and the ways a conversion fails.

use crate::token::is_word;
use vstd::prelude::*;

verus! {

/// One colour: what a line of a `.tamu` file holds.
#[derive(Debug, Clone, PartialEq, Eq)]
pub struct TamuEntry {
    /// The name of the colour.
    pub converted_name: String,
    /// Its value, kept as written.
    pub property_value: String,
}

/// A `TamuEntry` as two sequences of characters.
pub struct EntryView {
    pub name: Seq<char>,
    pub value: Seq<char>,
}

impl View for TamuEntry {
    type V = EntryView;

    open spec fn view(&self) -> EntryView {
        EntryView { name: self.converted_name@, value: self.property_value@ }
    }
}

impl DeepView for TamuEntry {
    type V = EntryView;

    open spec fn deep_view(&self) -> EntryView {
        self@
    }
}

impl EntryView {
    /// Name and value are words: neither is empty nor holds white space.
    pub open spec fn wf(self) -> bool {
        is_word(self.name) && is_word(self.value)
    }
}

impl TamuEntry {
    /// Name and value are words: neither is empty nor holds white space.
    pub open spec fn wf(&self) -> bool {
        self@.wf()
    }
}

/// Why a conversion stopped.
#[derive(Debug, Clone, PartialEq, Eq)]
pub enum TamuError {
    /// The directory holds no `.tamu` file.
    NotFound,
    /// The file system refused a step; the text is the system's own.
    IoError(String),
    /// A line holds a name and no value.
    MalformedData,
}

/// A `TamuError` with its text as a sequence of characters.
pub enum ErrorView {
    NotFound,
    IoError(Seq<char>),
    MalformedData,
}

impl View for TamuError {
    type V = ErrorView;

    open spec fn view(&self) -> ErrorView {
        match self {
            TamuError::NotFound => ErrorView::NotFound,
            TamuError::IoError(text) => ErrorView::IoError(text@),
            TamuError::MalformedData => ErrorView::MalformedData,
        }
    }
}

impl ErrorView {
    /// The sentence that tells a user of the failure.
    pub open spec fn message(self) -> Seq<char> {
        match self {
            ErrorView::NotFound => "Could not find a .tamu file in the current directory"@,
            ErrorView::IoError(text) => text,
            ErrorView::MalformedData =>
                "Pal file is misformatted. Each line should have: Color [space] Value(Hex, HSL, RGB)"@,
        }
    }
}

impl TamuError {
    /// The sentence that tells a user of the failure.
    pub fn message(&self) -> (text: String)
        ensures
            text@ == self@.message(),
    {
        match self {
            TamuError::NotFound => "Could not find a .tamu file in the current directory".to_owned(),
            TamuError::IoError(text) => text.clone(),
            TamuError::MalformedData =>
                "Pal file is misformatted. Each line should have: Color [space] Value(Hex, HSL, RGB)".to_owned(),
        }
    }
}

} // verus!
