//! The padding between a box's border and its text.
use vstd::prelude::*;

use crate::line::{CountedString, CountedView};

verus! {

/// `n` copies of `c`.
pub open spec fn repeat_char(c: char, n: nat) -> Seq<char> {
    Seq::new(n, |_i: int| c)
}

/// The padding that `Padding::new(chr, count)` describes: a tab stands for eight spaces.
pub open spec fn padding_of(chr: char, count: nat) -> (char, nat) {
    if chr == '\t' {
        (' ', 8 * count)
    } else {
        (chr, count)
    }
}

/// The number of bytes that `c` takes in UTF-8.
pub open spec fn utf8_len(c: char) -> nat {
    if (c as u32) < 0x80 {
        1
    } else if (c as u32) < 0x800 {
        2
    } else if (c as u32) < 0x10000 {
        3
    } else {
        4
    }
}

/// Relies on `String::push`: it appends the character.
#[verifier::external_body]
fn push_char(s: &mut String, c: char)
    ensures
        final(s)@ == old(s)@.push(c),
{
    s.push(c)
}

/// A character repeated between the border of a box and each line of its text.
///
/// Every padding character is taken to occupy one column; a tab is replaced by spaces when
/// the padding is made.
#[derive(Debug, Clone, Copy, PartialEq, Eq)]
pub struct Padding {
    chr: char,
    count: usize,
}

impl View for Padding {
    type V = (char, nat);

    closed spec fn view(&self) -> (char, nat) {
        (self.chr, self.count as nat)
    }
}

impl Default for Padding {
    fn default() -> (r: Self)
        ensures
            r@ == ('\0', 0nat),
    {
        Padding::none()
    }
}

impl Padding {
    /// No padding.
    pub fn none() -> (r: Self)
        ensures
            r@ == ('\0', 0nat),
    {
        Self::new('\0', 0)
    }

    /// `count` copies of `chr`; a tab becomes eight spaces each, so that the border stays
    /// aligned.
    pub fn new(chr: char, count: usize) -> (r: Self)
        requires
            chr == '\t' ==> 8 * count <= usize::MAX,
        ensures
            r@ == padding_of(chr, count as nat),
    {
        if chr == '\t' {
            Self::spaces(count * 8)
        } else {
            Padding { chr, count }
        }
    }

    /// `count` spaces.
    pub fn spaces(count: usize) -> (r: Self)
        ensures
            r@ == (' ', count as nat),
    {
        Padding { chr: ' ', count }
    }

    /// The number of bytes the padding takes as text.
    pub fn len_utf8(self) -> (r: usize)
        requires
            utf8_len(self@.0) * self@.1 <= usize::MAX,
        ensures
            r == utf8_len(self@.0) * self@.1,
    {
        let code = self.chr as u32;
        let n: usize = if code < 0x80 {
            1
        } else if code < 0x800 {
            2
        } else if code < 0x10000 {
            3
        } else {
            4
        };
        n * self.count
    }

    /// The padding character.
    pub fn chr(self) -> (r: char)
        ensures
            r == self@.0,
    {
        self.chr
    }

    /// How many times the character is repeated.
    pub fn count(self) -> (r: usize)
        ensures
            r == self@.1,
    {
        self.count
    }

    /// The padding as text.
    pub fn into_string(self) -> (r: String)
        ensures
            r@ == repeat_char(self@.0, self@.1),
    {
        let mut s = String::new();
        let mut i: usize = 0;
        while i < self.count
            invariant
                i <= self.count,
                s@ == repeat_char(self.chr, i as nat),
            decreases self.count - i,
        {
            push_char(&mut s, self.chr);
            i += 1;
            assert(s@ =~= repeat_char(self.chr, i as nat));
        }
        s
    }

    /// The padding as text, with its width: one column per character.
    pub fn into_counted_string(self) -> (r: CountedString)
        ensures
            r@ == (CountedView { text: repeat_char(self@.0, self@.1), width: self@.1 }),
    {
        if self.count == 0 {
            let r = CountedString::empty();
            assert(r@.text =~= repeat_char(self.chr, 0));
            r
        } else {
            let n = self.count;
            CountedString::counted(self.into_string(), n)
        }
    }
}

} // verus!
