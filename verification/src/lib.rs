//! Conversion of `.tamu` colour definitions into a CSS custom-property sheet
//! and a theme configuration object.
//!
//! A `.tamu` file holds one colour per line: a name, white space, a value.
//! The library finds the file in a directory listing, reads its lines into
//! entries and renders the entries as text. It touches neither the file
//! system nor the error stream: a caller lists, reads, writes and prints, and
//! the two drivers in [`run`] tell it what to do next.

pub mod entry;
pub mod lines;
pub mod locate;
pub mod parse;
pub mod render;
pub mod run;
pub mod token;

pub use entry::{TamuEntry, TamuError};
pub use locate::{find_tamu, is_tamu_name, DirItem};
pub use parse::{blank_lines, parse_line, parse_tamu, Line};
pub use render::{to_css_variables_file, to_tailwind_config};
pub use run::{advance, blank_line_notice, write_to_css, write_to_tailwind, Action, Event, Phase, Target};
pub use token::{is_whitespace, split_whitespace};
