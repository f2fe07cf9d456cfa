//! Text paired with its display width.
use vstd::prelude::*;

verus! {

/// The number of terminal columns that a text occupies once escape sequences are skipped,
/// as `ansi_width` measures it.
pub uninterp spec fn display_width(s: Seq<char>) -> nat;

/// Relies on `ansi_width::ansi_width`: the column count of the text, a function of the text
/// alone; the empty text occupies no column.
#[verifier::external_body]
fn measure(s: &str) -> (r: usize)
    ensures
        r == display_width(s@),
        s@.len() == 0 ==> r == 0,
{
    ansi_width::ansi_width(s)
}

/// What a [`CountedString`] holds: its text and the width recorded for it.
pub struct CountedView {
    pub text: Seq<char>,
    pub width: nat,
}

/// A text together with its display width, measured once.
#[derive(Debug, Clone, PartialEq, Eq)]
pub struct CountedString {
    text: String,
    width: usize,
}

impl View for CountedString {
    type V = CountedView;

    closed spec fn view(&self) -> CountedView {
        CountedView { text: self.text@, width: self.width as nat }
    }
}

impl CountedString {
    /// Measures a copy of `string`.
    pub fn new(string: &str) -> (r: Self)
        ensures
            r@ == (CountedView { text: string@, width: display_width(string@) }),
    {
        let width = measure(string);
        CountedString { text: string.to_owned(), width }
    }

    /// Measures `string`, taking ownership of it.
    pub fn owned(string: String) -> (r: Self)
        ensures
            r@ == (CountedView { text: string@, width: display_width(string@) }),
    {
        let width = measure(string.as_str());
        Self::counted(string, width)
    }

    /// Pairs `string` with a width that the caller already knows.
    pub fn counted(string: String, width: usize) -> (r: Self)
        ensures
            r@ == (CountedView { text: string@, width: width as nat }),
    {
        CountedString { text: string, width }
    }

    /// The empty text, of width zero.
    pub fn empty() -> (r: Self)
        ensures
            r@ == (CountedView { text: Seq::<char>::empty(), width: 0 }),
    {
        CountedString { text: String::new(), width: 0 }
    }

    /// The text.
    pub fn str(&self) -> (r: &str)
        ensures
            r@ == self@.text,
    {
        self.text.as_str()
    }

    /// The recorded display width.
    pub fn width(&self) -> (r: usize)
        ensures
            r == self@.width,
    {
        self.width
    }
}

} // verus!
