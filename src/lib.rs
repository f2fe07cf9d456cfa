//! Text in boxes drawn with line-drawing characters, for the terminal.
use vstd::prelude::*;

pub mod ansi;
pub mod border;
pub mod format;
pub mod line;
pub mod padding;
pub mod termbox;
pub mod title;

pub use ansi::AnsiStyle;
pub use border::{BorderChar, BorderShape, BorderStyle};
pub use line::CountedString;
pub use padding::Padding;
pub use termbox::TermBox;
pub use title::{Title, TitlePosition, Titles};
