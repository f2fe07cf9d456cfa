//! The box itself and how it is drawn.
use vstd::prelude::*;
use vstd::string::StringExecFns;

use crate::ansi::{style_is_plain, styled};
use crate::border::{glyph, BorderChar, BorderStyle};
use crate::format::{border_line, content_line, content_width, line_len, make_bottom_line, make_line, make_top_line};
use crate::line::{display_width, CountedString, CountedView};
use crate::padding::{padding_of, repeat_char, Padding};
use crate::title::{left_pad, lemma_title_fills_line, right_pad, TitleView, Titles, SIDES};

verus! {

/// The fewest columns a line of a box takes: two corners and one glyph between them.
pub const MIN_LINE_LEN: usize = 3;

/// Text in a box, with a border, padding and titles.
#[derive(Debug, Clone, PartialEq, Eq)]
pub struct TermBox {
    /// The shape and style of the border.
    pub border_style: BorderStyle,
    /// The padding between the border and the text.
    pub padding: Padding,
    /// The titles in the top and bottom lines of the border.
    pub titles: Titles,
    /// The lines of text, in order.
    pub lines: Vec<String>,
}

/// The texts of a box's lines.
pub open spec fn line_texts(b: TermBox) -> Seq<Seq<char>> {
    b.lines@.map_values(|s: String| s@)
}

/// The widest display width among `texts`; zero when there is none.
pub open spec fn max_width(texts: Seq<Seq<char>>) -> nat
    decreases texts.len(),
{
    if texts.len() == 0 {
        0
    } else {
        let rest = max_width(texts.drop_last());
        let last = display_width(texts.last());
        if last > rest {
            last
        } else {
            rest
        }
    }
}

/// The widest of a box's lines and titles.
pub open spec fn longest_width(b: TermBox) -> nat {
    let lines = max_width(line_texts(b));
    let titles = if b.titles.top@.width > b.titles.bottom@.width {
        b.titles.top@.width
    } else {
        b.titles.bottom@.width
    };
    if lines > titles {
        lines
    } else {
        titles
    }
}

/// Whether the width of the box's lines can be counted in a `usize`.
pub open spec fn box_fits(b: TermBox) -> bool {
    content_width(longest_width(b) as int, b.padding@.1 as int) <= usize::MAX
}

/// The number of columns of every line of the box, border included.
pub open spec fn box_line_len(b: TermBox) -> nat {
    let needed = content_width(longest_width(b) as int, b.padding@.1 as int);
    if needed > MIN_LINE_LEN {
        needed as nat
    } else {
        MIN_LINE_LEN as nat
    }
}

/// How many spaces follow the text of the box's line `i` to fill it out.
pub open spec fn fill_len(b: TermBox, i: int) -> int {
    box_line_len(b) - content_width(display_width(line_texts(b)[i]) as int, b.padding@.1 as int)
}

/// The box's side glyph, as it starts and ends each content line.
pub open spec fn side_string(b: TermBox) -> Seq<char> {
    styled(b.border_style@.1, seq![glyph(b.border_style@.0, BorderChar::Side)])
}

/// The first `n` content lines of the box.
pub open spec fn content_lines(b: TermBox, n: nat) -> Seq<char>
    decreases n,
{
    if n == 0 {
        Seq::empty()
    } else {
        content_lines(b, (n - 1) as nat) + content_line(
            side_string(b),
            repeat_char(b.padding@.0, b.padding@.1),
            line_texts(b)[n - 1],
            fill_len(b, n - 1) as nat,
        )
    }
}

/// The top line of the box's border, with its top title.
pub open spec fn top_line(b: TermBox) -> Seq<char> {
    border_line(
        b.border_style@.0,
        b.border_style@.1,
        b.titles.top@,
        BorderChar::TopLeft,
        BorderChar::TopRight,
        box_line_len(b),
    )
}

/// The bottom line of the box's border, with its bottom title.
pub open spec fn bottom_line(b: TermBox) -> Seq<char> {
    border_line(
        b.border_style@.0,
        b.border_style@.1,
        b.titles.bottom@,
        BorderChar::BotLeft,
        BorderChar::BotRight,
        box_line_len(b),
    )
}

/// The box drawn as text: the top line, a newline, each content line ended by a newline, and
/// the bottom line, with no newline after it.
pub open spec fn rendered(b: TermBox) -> Seq<char> {
    top_line(b) + seq!['\n'] + content_lines(b, b.lines@.len()) + bottom_line(b)
}

impl Default for TermBox {
    fn default() -> (r: Self)
        ensures
            r.border_style@.0 == crate::border::BorderShape::Single,
            crate::ansi::style_is_plain(r.border_style@.1),
            r.padding@ == ('\0', 0nat),
            r.titles.top@.text.len() == 0,
            r.titles.bottom@.text.len() == 0,
            r.titles.top@.width == 0,
            r.titles.bottom@.width == 0,
            r.lines@.len() == 0,
    {
        TermBox {
            border_style: BorderStyle::new_single(),
            padding: Padding::none(),
            titles: Titles::none(),
            lines: Vec::new(),
        }
    }
}

/// No line of a box is wider than the widest.
pub proof fn lemma_max_width_bounds(texts: Seq<Seq<char>>, i: int)
    requires
        0 <= i < texts.len(),
    ensures
        display_width(texts[i]) <= max_width(texts),
    decreases texts.len(),
{
    if i < texts.len() - 1 {
        lemma_max_width_bounds(texts.drop_last(), i);
    }
}

#[verifier::external_type_specification]
#[verifier::external_body]
pub struct ExFmtError(core::fmt::Error);

#[verifier::external_type_specification]
#[verifier::external_body]
pub struct ExIoError(std::io::Error);

/// Relies on `core::fmt::Write::write_str`: it writes the text to the sink, which may fail.
#[verifier::external_body]
fn write_text<T: core::fmt::Write>(write: &mut T, text: &str) -> core::fmt::Result {
    write.write_str(text)
}

/// Relies on `writeln!` on a `std::io::Write`: it writes the text and a newline
/// to the sink, which may fail.
#[verifier::external_body]
fn write_text_line<T: std::io::Write>(write: &mut T, text: &str) -> std::io::Result<()> {
    writeln!(write, "{}", text)
}

/// Relies on `Default` of `core::fmt::Error`, the one value of that type.
#[verifier::external_body]
fn fmt_error() -> core::fmt::Error {
    core::fmt::Error::default()
}

/// Relies on `std::io::Error::other`: an error that says the box is too wide to draw.
#[verifier::external_body]
fn too_wide_error() -> std::io::Error {
    std::io::Error::other("the box is too wide to be drawn")
}

impl TermBox {
    /// The same box with `lines` in place of its lines.
    pub fn with_lines(self, lines: Vec<String>) -> (r: Self)
        ensures
            r.border_style@ == self.border_style@,
            r.padding@ == self.padding@,
            r.titles.top@ == self.titles.top@,
            r.titles.bottom@ == self.titles.bottom@,
            r.lines@ == lines@,
    {
        TermBox { lines, ..self }
    }

    /// Adds `line` after the box's last line.
    pub fn append(&mut self, line: &str)
        ensures
            final(self).border_style@ == old(self).border_style@,
            final(self).padding@ == old(self).padding@,
            final(self).titles.top@ == old(self).titles.top@,
            final(self).titles.bottom@ == old(self).titles.bottom@,
            final(self).lines@.len() == old(self).lines@.len() + 1,
            line_texts(*final(self)) == line_texts(*old(self)).push(line@),
    {
        self.lines.push(line.to_owned());
        assert(line_texts(*self) =~= line_texts(*old(self)).push(line@));
    }

    /// The same box with `line` added after its last line.
    pub fn append_with(self, line: &str) -> (r: Self)
        ensures
            r.border_style@ == self.border_style@,
            r.padding@ == self.padding@,
            r.titles.top@ == self.titles.top@,
            r.titles.bottom@ == self.titles.bottom@,
            r.lines@.len() == self.lines@.len() + 1,
            line_texts(r) == line_texts(self).push(line@),
    {
        let mut b = self;
        b.append(line);
        b
    }

    /// Measures every line into `lines`, in order, and returns the index of the first of the
    /// widest, or `None` when the box has no line.
    fn map_to_counts_and_find_longest(&self, lines: &mut Vec<CountedString>) -> (r: Option<usize>)
        requires
            old(lines)@.len() == 0,
        ensures
            final(lines)@.len() == self.lines@.len(),
            forall|i: int|
                0 <= i < self.lines@.len() ==> #[trigger] final(lines)@[i]@ == (CountedView {
                    text: line_texts(*self)[i],
                    width: display_width(line_texts(*self)[i]),
                }),
            r is None <==> self.lines@.len() == 0,
            r matches Some(k) ==> k < self.lines@.len() && display_width(line_texts(*self)[k as int])
                == max_width(line_texts(*self)),
            r matches Some(k) ==> forall|j: int|
                0 <= j < k ==> display_width(#[trigger] line_texts(*self)[j]) < display_width(
                    line_texts(*self)[k as int],
                ),
    {
        let ghost texts = line_texts(*self);
        let mut max_idx: Option<usize> = None;
        let mut idx: usize = 0;
        while idx < self.lines.len()
            invariant
                texts == line_texts(*self),
                idx <= self.lines@.len(),
                lines@.len() == idx,
                forall|i: int|
                    0 <= i < idx ==> #[trigger] lines@[i]@ == (CountedView {
                        text: texts[i],
                        width: display_width(texts[i]),
                    }),
                max_idx is None <==> idx == 0,
                max_idx matches Some(k) ==> k < idx && display_width(texts[k as int]) == max_width(
                    texts.take(idx as int),
                ),
                max_idx matches Some(k) ==> forall|j: int|
                    0 <= j < k ==> display_width(#[trigger] texts[j]) < display_width(texts[k as int]),
            decreases self.lines@.len() - idx,
        {
            let line = CountedString::new(self.lines[idx].as_str());
            assert(texts.take(idx + 1).drop_last() =~= texts.take(idx as int));
            assert(texts.take(idx + 1).last() == texts[idx as int]);
            assert(texts[idx as int] == self.lines@[idx as int]@);
            assert(max_width(texts.take(idx + 1)) == if display_width(texts[idx as int]) > max_width(
                texts.take(idx as int),
            ) {
                display_width(texts[idx as int])
            } else {
                max_width(texts.take(idx as int))
            });
            match max_idx {
                Some(max) => {
                    if line.width() > lines[max].width() {
                        proof {
                            assert forall|j: int| 0 <= j < idx implies display_width(#[trigger] texts[j])
                                < display_width(texts[idx as int]) by {
                                lemma_max_width_bounds(texts.take(idx as int), j);
                            }
                        }
                        max_idx = Some(idx);
                    }
                },
                None => {
                    max_idx = Some(idx);
                },
            }
            lines.push(line);
            idx += 1;
        }
        assert(texts.take(idx as int) =~= texts);
        max_idx
    }

    /// Measures every line, and gives the width of the box's lines unless it cannot be
    /// counted in a `usize`.
    fn measure_lines(&self) -> (r: (Vec<CountedString>, Option<usize>))
        ensures
            r.0@.len() == self.lines@.len(),
            forall|i: int|
                0 <= i < self.lines@.len() ==> #[trigger] r.0@[i]@ == (CountedView {
                    text: line_texts(*self)[i],
                    width: display_width(line_texts(*self)[i]),
                }),
            r.1 is Some <==> box_fits(*self),
            r.1 matches Some(len) ==> len == box_line_len(*self),
    {
        let mut lines: Vec<CountedString> = Vec::new();
        let top = self.titles.top.width();
        let bottom = self.titles.bottom.width();
        let mut longest: usize = if top > bottom {
            top
        } else {
            bottom
        };
        if let Some(longest_idx) = self.map_to_counts_and_find_longest(&mut lines) {
            if lines[longest_idx].width() > longest {
                longest = lines[longest_idx].width();
            }
        }
        let count = self.padding.count();
        let len = match count.checked_mul(SIDES) {
            Some(pads) => match longest.checked_add(SIDES) {
                Some(text) => text.checked_add(pads),
                None => None,
            },
            None => None,
        };
        match len {
            Some(_) => {
                let len = line_len(longest, count);
                if len > MIN_LINE_LEN {
                    (lines, Some(len))
                } else {
                    (lines, Some(MIN_LINE_LEN))
                }
            },
            None => (lines, None),
        }
    }

    /// Draws the box from its measured lines, in `len` columns per line.
    fn render_measured(&self, lines: &Vec<CountedString>, len: usize) -> (r: String)
        requires
            lines@.len() == self.lines@.len(),
            forall|i: int|
                0 <= i < self.lines@.len() ==> #[trigger] lines@[i]@ == (CountedView {
                    text: line_texts(*self)[i],
                    width: display_width(line_texts(*self)[i]),
                }),
            box_fits(*self),
            len == box_line_len(*self),
        ensures
            r@ == rendered(*self),
    {
        let mut buf = String::new();
        make_top_line(&mut buf, &self.border_style, &self.titles.top, len);
        let edge_string = self.border_style.get_edge_string();
        let pad_string = self.padding.into_counted_string();
        let ghost head = buf@;
        let mut i: usize = 0;
        while i < lines.len()
            invariant
                lines@.len() == self.lines@.len(),
                forall|i: int|
                    0 <= i < self.lines@.len() ==> #[trigger] lines@[i]@ == (CountedView {
                        text: line_texts(*self)[i],
                        width: display_width(line_texts(*self)[i]),
                    }),
                box_fits(*self),
                len == box_line_len(*self),
                edge_string@ == side_string(*self),
                pad_string@ == (CountedView {
                    text: repeat_char(self.padding@.0, self.padding@.1),
                    width: self.padding@.1,
                }),
                i <= lines@.len(),
                buf@ == head + content_lines(*self, i as nat),
            decreases lines@.len() - i,
        {
            proof {
                lemma_max_width_bounds(line_texts(*self), i as int);
            }
            make_line(&mut buf, edge_string.as_str(), &pad_string, &lines[i], len);
            i += 1;
            assert(buf@ =~= head + content_lines(*self, i as nat));
        }
        make_bottom_line(&mut buf, &self.border_style, &self.titles.bottom, len);
        assert(buf@ =~= rendered(*self));
        buf
    }

    /// The box drawn as text, with no newline after its last line.
    pub fn into_string(self) -> (r: String)
        requires
            box_fits(self),
        ensures
            r@ == rendered(self),
    {
        let (lines, len) = self.measure_lines();
        self.render_measured(&lines, len.unwrap())
    }

    /// The box drawn as text, or `None` when the width of its lines cannot be counted in a
    /// `usize`.
    pub fn try_into_string(self) -> (r: Option<String>)
        ensures
            r is Some <==> box_fits(self),
            r matches Some(s) ==> s@ == rendered(self),
    {
        let (_, len) = self.measure_lines();
        if len.is_some() {
            Some(self.into_string())
        } else {
            None
        }
    }

    /// Writes the box to `write`, with no newline after its last line.
    pub fn write_to<T: core::fmt::Write>(self, write: &mut T) -> (r: core::fmt::Result)
        ensures
            !box_fits(self) ==> r is Err,
    {
        match self.try_into_string() {
            Some(text) => write_text(write, text.as_str()),
            None => Err(fmt_error()),
        }
    }

    /// Writes the box to `write`, with a newline after its last line.
    pub fn print_to<T: std::io::Write>(self, write: &mut T) -> (r: std::io::Result<()>)
        ensures
            !box_fits(self) ==> r is Err,
    {
        match self.try_into_string() {
            Some(text) => write_text_line(write, text.as_str()),
            None => Err(too_wide_error()),
        }
    }
}

/// The number of columns that the pieces of a border line take: the two corners, and between
/// them either edge glyphs alone or the title's width and the edge glyphs on its two sides.
pub open spec fn border_line_width(title: TitleView, len: nat) -> int {
    SIDES + if title.text.len() == 0 {
        len - SIDES
    } else {
        left_pad(title.width as int, len as int, title.pos) + title.width + right_pad(
            title.width as int,
            len as int,
            title.pos,
        )
    }
}

/// Whether a title that has text also has width: a title of control sequences alone has none.
pub open spec fn title_has_width(title: TitleView) -> bool {
    title.text.len() == 0 || title.width > 0
}

/// Whether two boxes hold the same lines, padding and titles.
pub open spec fn same_content(a: TermBox, b: TermBox) -> bool {
    &&& a.padding@ == b.padding@
    &&& a.titles.top@ == b.titles.top@
    &&& a.titles.bottom@ == b.titles.bottom@
    &&& line_texts(a) == line_texts(b)
}

/// Every line of a drawn box is equally wide: each is made of pieces whose widths add up to
/// the box's line length. The pieces are the corners, side and edge glyphs, one column each;
/// the padding, one column per character; each text and title at its measured width; and the
/// spaces that fill a content line out, never a negative number of them. This holds of every
/// box whose titles with text have width.
pub proof fn lemma_lines_equally_wide(b: TermBox)
    requires
        title_has_width(b.titles.top@),
        title_has_width(b.titles.bottom@),
    ensures
        border_line_width(b.titles.top@, box_line_len(b)) == box_line_len(b),
        border_line_width(b.titles.bottom@, box_line_len(b)) == box_line_len(b),
        forall|i: int|
            0 <= i < b.lines@.len() ==> 0 <= #[trigger] fill_len(b, i) && 1 + b.padding@.1
                + display_width(line_texts(b)[i]) + fill_len(b, i) + b.padding@.1 + 1
                == box_line_len(b),
{
    if b.titles.top@.text.len() != 0 {
        lemma_title_fills_line(b.titles.top@.width as int, box_line_len(b) as int, b.titles.top@.pos);
    }
    if b.titles.bottom@.text.len() != 0 {
        lemma_title_fills_line(
            b.titles.bottom@.width as int,
            box_line_len(b) as int,
            b.titles.bottom@.pos,
        );
    }
    assert forall|i: int| 0 <= i < b.lines@.len() implies 0 <= #[trigger] fill_len(b, i) by {
        lemma_max_width_bounds(line_texts(b), i);
    }
}

/// Content lines drawn with the same side glyph, padding, texts and line length are the same.
proof fn lemma_content_lines_agree(a: TermBox, b: TermBox, n: nat)
    requires
        same_content(a, b),
        side_string(a) == side_string(b),
        n <= a.lines@.len(),
    ensures
        content_lines(a, n) == content_lines(b, n),
    decreases n,
{
    if n > 0 {
        lemma_content_lines_agree(a, b, (n - 1) as nat);
    }
}

/// Drawing depends on nothing but what the box holds: two boxes that hold the same are drawn
/// alike, so drawing a box twice gives the same text.
pub proof fn lemma_render_deterministic(a: TermBox, b: TermBox)
    requires
        a.border_style@ == b.border_style@,
        same_content(a, b),
    ensures
        rendered(a) == rendered(b),
{
    assert(a.lines@.len() == line_texts(a).len());
    lemma_content_lines_agree(a, b, a.lines@.len());
}

/// A tab padding of `n` draws as a padding of `8 * n` spaces.
pub proof fn lemma_tab_padding_is_spaces(a: TermBox, b: TermBox, n: nat)
    requires
        a.border_style@ == b.border_style@,
        a.titles.top@ == b.titles.top@,
        a.titles.bottom@ == b.titles.bottom@,
        line_texts(a) == line_texts(b),
        a.padding@ == padding_of('\t', n),
        b.padding@ == padding_of(' ', 8 * n),
    ensures
        rendered(a) == rendered(b),
{
    lemma_render_deterministic(a, b);
}

/// A border painted with a plain style draws as an unstyled border of the same shape.
pub proof fn lemma_plain_style_is_unstyled(a: TermBox, b: TermBox)
    requires
        a.border_style@.0 == b.border_style@.0,
        style_is_plain(a.border_style@.1),
        style_is_plain(b.border_style@.1),
        same_content(a, b),
    ensures
        rendered(a) == rendered(b),
{
    assert(a.lines@.len() == line_texts(a).len());
    lemma_content_lines_agree(a, b, a.lines@.len());
}

} // verus!
