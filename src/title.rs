//! Titles drawn inside the top and bottom lines of a box's border.
use vstd::prelude::*;

use crate::line::{display_width, CountedString};
use vstd::utf8::encode_utf8;

verus! {

/// How many edge glyphs stand between a corner and a title placed at that corner's side.
pub const DIST_FROM_CORNER: usize = 1;

/// How many glyphs of a line the two corners take.
pub const SIDES: usize = 2;

/// Where a title stands along its line of the border.
#[derive(Debug, Clone, Copy, PartialEq, Eq, Structural)]
pub enum TitlePosition {
    /// As near the middle as the widths allow.
    Centered,
    /// Next to the left corner.
    Left,
    /// Next to the right corner.
    Right,
}

impl Default for TitlePosition {
    fn default() -> (r: Self)
        ensures
            r == TitlePosition::Left,
    {
        TitlePosition::Left
    }
}

/// The pad lengths that do not depend on the position: a title of no width splits the line
/// in halves, and one that fills the inside of the line leaves no room on either side.
pub open spec fn special_pad(width: int, total_len: int) -> Option<int> {
    if width == 0 {
        Some(total_len / 2)
    } else if total_len - 2 == width {
        Some(0)
    } else {
        None
    }
}

/// The pad on the side away from the corner a title is placed at.
pub open spec fn opposite_pad(width: int, total_len: int) -> int {
    total_len - width - DIST_FROM_CORNER - SIDES
}

/// The pad on one side of a centered title; `parity_mod` is 0 for the left side and 1 for the
/// right one. When the parities of the widths differ, an odd line gives the extra glyph to the
/// right side and an even line takes it from the right side.
pub open spec fn center_pad(width: int, total_len: int, parity_mod: int) -> int {
    let base = total_len / 2 - width / 2 - 1;
    if width % 2 != total_len % 2 {
        if total_len % 2 == 1 {
            base + parity_mod
        } else {
            base - parity_mod
        }
    } else {
        base
    }
}

/// How many edge glyphs stand left of a title of `width` columns in a line of `total_len`.
pub open spec fn left_pad(width: int, total_len: int, pos: TitlePosition) -> int {
    match special_pad(width, total_len) {
        Some(p) => p,
        None => match pos {
            TitlePosition::Left => DIST_FROM_CORNER as int,
            TitlePosition::Right => opposite_pad(width, total_len),
            TitlePosition::Centered => center_pad(width, total_len, 0),
        },
    }
}

/// How many edge glyphs stand right of a title of `width` columns in a line of `total_len`.
pub open spec fn right_pad(width: int, total_len: int, pos: TitlePosition) -> int {
    match special_pad(width, total_len) {
        Some(p) => p,
        None => match pos {
            TitlePosition::Right => DIST_FROM_CORNER as int,
            TitlePosition::Left => opposite_pad(width, total_len),
            TitlePosition::Centered => center_pad(width, total_len, 1),
        },
    }
}

/// What a [`Title`] holds.
pub struct TitleView {
    pub text: Seq<char>,
    pub width: nat,
    pub pos: TitlePosition,
}

/// A title drawn inside a line of the border. Make one with [`Title::empty`] or the
/// function [`Title()`](fn@Title).
#[derive(Debug, Clone, PartialEq, Eq)]
pub struct Title {
    text: CountedString,
    pos: TitlePosition,
}

impl View for Title {
    type V = TitleView;

    closed spec fn view(&self) -> TitleView {
        TitleView { text: self.text@.text, width: self.text@.width, pos: self.pos }
    }
}

impl Default for Title {
    fn default() -> (r: Self)
        ensures
            r@ == (TitleView { text: Seq::<char>::empty(), width: 0, pos: TitlePosition::Left }),
    {
        Title::empty()
    }
}

/// A title of `text` at `pos`, measured once here.
#[allow(non_snake_case)]
pub fn Title(text: &str, pos: TitlePosition) -> (r: Title)
    ensures
        r@ == (TitleView { text: text@, width: display_width(text@), pos }),
{
    Title { text: CountedString::new(text), pos }
}

impl Title {
    /// No title.
    pub fn empty() -> (r: Self)
        ensures
            r@ == (TitleView { text: Seq::<char>::empty(), width: 0, pos: TitlePosition::Left }),
    {
        Title { text: CountedString::empty(), pos: TitlePosition::Left }
    }

    /// Whether the title has no text. A title of control sequences alone has no width but
    /// is not empty.
    pub fn is_empty(&self) -> (r: bool)
        ensures
            r == (self@.text.len() == 0),
    {
        self.text.str().is_empty()
    }

    /// The title's text.
    pub fn text(&self) -> (r: &str)
        ensures
            r@ == self@.text,
    {
        self.text.str()
    }

    /// Where the title stands.
    pub fn pos(&self) -> (r: TitlePosition)
        ensures
            r == self@.pos,
    {
        self.pos
    }

    /// The display width of the title's text.
    pub fn width(&self) -> (r: usize)
        ensures
            r == self@.width,
    {
        self.text.width()
    }

    /// The length of the title's text in bytes.
    pub fn len_bytes(&self) -> (r: usize)
        ensures
            r == encode_utf8(self@.text).len() as usize,
    {
        self.text().len()
    }

    /// How many edge glyphs go left of the title in a line of `total_len` columns.
    pub fn left_pad_len(&self, total_len: usize) -> (r: usize)
        requires
            self@.width + SIDES <= total_len,
        ensures
            r == left_pad(self@.width as int, total_len as int, self@.pos),
    {
        let width = self.width();
        if let Some(pad_len) = special_pad_len(width, total_len) {
            return pad_len;
        }
        match self.pos {
            TitlePosition::Left => DIST_FROM_CORNER,
            TitlePosition::Right => opposite_side_pad_len(width, total_len),
            TitlePosition::Centered => center_pad_len(width, total_len, 0),
        }
    }

    /// How many edge glyphs go right of the title in a line of `total_len` columns.
    pub fn right_pad_len(&self, total_len: usize) -> (r: usize)
        requires
            self@.width + SIDES <= total_len,
        ensures
            r == right_pad(self@.width as int, total_len as int, self@.pos),
    {
        let width = self.width();
        if let Some(pad_len) = special_pad_len(width, total_len) {
            return pad_len;
        }
        match self.pos {
            TitlePosition::Right => DIST_FROM_CORNER,
            TitlePosition::Left => opposite_side_pad_len(width, total_len),
            TitlePosition::Centered => center_pad_len(width, total_len, 1),
        }
    }
}

fn special_pad_len(width: usize, total_len: usize) -> (r: Option<usize>)
    requires
        width + SIDES <= total_len,
    ensures
        r matches Some(p) ==> special_pad(width as int, total_len as int) == Some(p as int),
        r is None ==> special_pad(width as int, total_len as int) is None,
{
    if width == 0 {
        return Some(total_len / 2);
    }
    let diff = (total_len - SIDES) - width;
    if diff == 0 {
        Some(0)
    } else {
        None
    }
}

fn opposite_side_pad_len(width: usize, total_len: usize) -> (r: usize)
    requires
        width + SIDES < total_len,
    ensures
        r == opposite_pad(width as int, total_len as int),
{
    total_len - width - DIST_FROM_CORNER - SIDES
}

fn center_pad_len(width: usize, total_len: usize, parity_diff_mod: usize) -> (r: usize)
    requires
        0 < width,
        width + SIDES < total_len,
        parity_diff_mod <= 1,
    ensures
        r == center_pad(width as int, total_len as int, parity_diff_mod as int),
{
    let res = (total_len / 2) - (width / 2) - 1;
    let total_parity = total_len % 2;
    if (width % 2) != total_parity {
        if total_parity == 1 {
            res + parity_diff_mod
        } else {
            res - parity_diff_mod
        }
    } else {
        res
    }
}

/// The titles of a box, one in the top line of its border and one in the bottom line.
#[derive(Debug, Clone, PartialEq, Eq)]
pub struct Titles {
    /// The title in the top line; [`Title::empty`] for none.
    pub top: Title,
    /// The title in the bottom line; [`Title::empty`] for none.
    pub bottom: Title,
}

impl Default for Titles {
    fn default() -> (r: Self)
        ensures
            r.top@ == (TitleView { text: Seq::<char>::empty(), width: 0, pos: TitlePosition::Left }),
            r.bottom@ == (TitleView { text: Seq::<char>::empty(), width: 0, pos: TitlePosition::Left }),
    {
        Titles::none()
    }
}

impl Titles {
    /// No title at the top or the bottom.
    pub fn none() -> (r: Self)
        ensures
            r.top@ == (TitleView { text: Seq::<char>::empty(), width: 0, pos: TitlePosition::Left }),
            r.bottom@ == (TitleView { text: Seq::<char>::empty(), width: 0, pos: TitlePosition::Left }),
    {
        Titles { top: Title::empty(), bottom: Title::empty() }
    }
}

/// A title with text and width fills its line exactly: the edge glyphs on its two sides, the
/// title and the two corners take `total_len` columns, whatever its position.
pub proof fn lemma_title_fills_line(width: int, total_len: int, pos: TitlePosition)
    requires
        0 < width,
        width + SIDES <= total_len,
    ensures
        0 <= left_pad(width, total_len, pos),
        0 <= right_pad(width, total_len, pos),
        left_pad(width, total_len, pos) + width + right_pad(width, total_len, pos) + SIDES == total_len,
{
}

/// A centered title is balanced: the pads on its two sides are equal when the widths of the
/// title and of the line have the same parity; otherwise they differ by one glyph, which an odd
/// line adds on the right and an even line on the left.
pub proof fn lemma_centered_title_balance(width: int, total_len: int)
    requires
        0 <= width,
        width + SIDES <= total_len,
        width > 0 || total_len % 2 == 0,
    ensures
        width % 2 == total_len % 2 ==> left_pad(width, total_len, TitlePosition::Centered)
            == right_pad(width, total_len, TitlePosition::Centered),
        width % 2 != total_len % 2 && total_len % 2 == 1 ==> right_pad(
            width,
            total_len,
            TitlePosition::Centered,
        ) == left_pad(width, total_len, TitlePosition::Centered) + 1,
        width % 2 != total_len % 2 && total_len % 2 == 0 ==> left_pad(
            width,
            total_len,
            TitlePosition::Centered,
        ) == right_pad(width, total_len, TitlePosition::Centered) + 1,
{
}

} // verus!
