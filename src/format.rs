//! The lines of a box: its top and bottom border lines and its content lines.
use vstd::prelude::*;
use vstd::string::StringExecFns;

use crate::ansi::{paint, style_is_plain, styled};
use crate::border::{glyph, BorderChar, BorderShape, BorderStyle};
use crate::line::CountedString;
use crate::padding::repeat_char;
use crate::title::{left_pad, right_pad, Title, TitleView, SIDES};

verus! {

/// The width of a content line whose text is `width` columns wide, with `padding` columns of
/// padding on each side, border included.
pub open spec fn content_width(width: int, padding: int) -> int {
    width + SIDES + SIDES * padding
}

/// A content line: the side glyph, the padding, the text, `fill` spaces, the padding again,
/// the side glyph again, and a newline.
pub open spec fn content_line(edge: Seq<char>, pad: Seq<char>, text: Seq<char>, fill: nat) -> Seq<char> {
    edge + pad + text + repeat_char(' ', fill) + pad + edge + seq!['\n']
}

/// What stands right of a title in its border line: the edge glyphs and the corner, painted
/// once more, since the title may reset the style.
pub open spec fn after_title(shape: BorderShape, st: nu_ansi_term::Style, right_pad_len: nat, right: BorderChar) -> Seq<char> {
    styled(st, repeat_char(glyph(shape, BorderChar::Edge), right_pad_len) + seq![glyph(shape, right)])
}

/// A line of the border, `len` columns wide, between the corners `left` and `right`, with the
/// title in it unless the title is empty; no newline.
pub open spec fn border_line(
    shape: BorderShape,
    st: nu_ansi_term::Style,
    title: TitleView,
    left: BorderChar,
    right: BorderChar,
    len: nat,
) -> Seq<char> {
    let edge = glyph(shape, BorderChar::Edge);
    let inner = if title.text.len() == 0 {
        repeat_char(edge, (len - SIDES) as nat) + seq![glyph(shape, right)]
    } else {
        repeat_char(edge, left_pad(title.width as int, len as int, title.pos) as nat) + title.text
            + after_title(shape, st, right_pad(title.width as int, len as int, title.pos) as nat, right)
    };
    styled(st, seq![glyph(shape, left)] + inner)
}

/// Appends `n` copies of the one character of `s`.
fn push_repeated(buf: &mut String, s: &str, n: usize)
    requires
        s@.len() == 1,
    ensures
        final(buf)@ == old(buf)@ + repeat_char(s@[0], n as nat),
{
    let ghost start = buf@;
    let mut i: usize = 0;
    while i < n
        invariant
            s@.len() == 1,
            i <= n,
            buf@ == start + repeat_char(s@[0], i as nat),
        decreases n - i,
    {
        buf.append(s);
        i += 1;
        assert(buf@ =~= start + repeat_char(s@[0], i as nat));
    }
}

/// The width of a content line for a text of `width` columns and `padding` columns of
/// padding.
pub fn line_len(width: usize, padding: usize) -> (r: usize)
    requires
        content_width(width as int, padding as int) <= usize::MAX,
    ensures
        r == content_width(width as int, padding as int),
{
    width + SIDES + (SIDES * padding)
}

/// Appends the content line of `text` to `buf`, filled with spaces up to `min_len` columns.
pub fn make_line(
    buf: &mut String,
    edge_string: &str,
    pad_string: &CountedString,
    text: &CountedString,
    min_len: usize,
)
    requires
        content_width(text@.width as int, pad_string@.width as int) <= min_len,
    ensures
        final(buf)@ == old(buf)@ + content_line(
            edge_string@,
            pad_string@.text,
            text@.text,
            (min_len - content_width(text@.width as int, pad_string@.width as int)) as nat,
        ),
{
    let ghost start = buf@;
    buf.append(edge_string);
    buf.append(pad_string.str());
    buf.append(text.str());
    let diff = min_len - line_len(text.width(), pad_string.width());
    proof {
        reveal_strlit(" ");
    }
    push_repeated(buf, " ", diff);
    buf.append(pad_string.str());
    buf.append(edge_string);
    push_char_newline(buf);
    assert(buf@ =~= start + content_line(edge_string@, pad_string@.text, text@.text, diff as nat));
}

/// Appends a newline.
fn push_char_newline(buf: &mut String)
    ensures
        final(buf)@ == old(buf)@ + seq!['\n'],
{
    proof {
        reveal_strlit("\n");
    }
    buf.append("\n");
}

/// Appends the top line of the border, with the top title, and a newline.
pub fn make_top_line(buf: &mut String, style: &BorderStyle, title: &Title, len: usize)
    requires
        title@.width + SIDES <= len,
    ensures
        final(buf)@ == old(buf)@ + border_line(style@.0, style@.1, title@, BorderChar::TopLeft, BorderChar::TopRight, len as nat)
            + seq!['\n'],
{
    make_top_or_bottom_line(buf, style, title, BorderChar::TopLeft, BorderChar::TopRight, len);
    push_char_newline(buf);
}

/// Appends the bottom line of the border, with the bottom title.
pub fn make_bottom_line(buf: &mut String, style: &BorderStyle, title: &Title, len: usize)
    requires
        title@.width + SIDES <= len,
    ensures
        final(buf)@ == old(buf)@ + border_line(style@.0, style@.1, title@, BorderChar::BotLeft, BorderChar::BotRight, len as nat),
{
    make_top_or_bottom_line(buf, style, title, BorderChar::BotLeft, BorderChar::BotRight, len)
}

fn make_top_or_bottom_line(
    buf: &mut String,
    style: &BorderStyle,
    title: &Title,
    left: BorderChar,
    right: BorderChar,
    len: usize,
)
    requires
        title@.width + SIDES <= len,
    ensures
        final(buf)@ == old(buf)@ + border_line(style@.0, style@.1, title@, left, right, len as nat),
{
    let shape = style.shape();
    let ansi = style.ansi_style();
    let edge_char = shape.get_char(BorderChar::Edge);
    let mut tmp_buf = String::new();
    tmp_buf.append(shape.get_char(left));
    let right_char = shape.get_char(right);
    if !title.is_empty() {
        tmp_buf = ins_title(tmp_buf, edge_char, right_char, style, title, len);
    } else {
        push_repeated(&mut tmp_buf, edge_char, len - SIDES);
        tmp_buf.append(right_char);
    }
    let ghost body = tmp_buf@;
    assert(body =~= seq![glyph(shape, left)] + (if title@.text.len() == 0 {
        repeat_char(glyph(shape, BorderChar::Edge), (len - SIDES) as nat) + seq![glyph(shape, right)]
    } else {
        repeat_char(glyph(shape, BorderChar::Edge), left_pad(title@.width as int, len as int, title@.pos) as nat)
            + title@.text + after_title(
            shape,
            ansi,
            right_pad(title@.width as int, len as int, title@.pos) as nat,
            right,
        )
    }));
    if ansi.is_plain() {
        buf.append(tmp_buf.as_str());
    } else {
        let painted_line = paint(ansi, tmp_buf.as_str());
        buf.append(painted_line.as_str());
    }
}

fn ins_title(
    buf: String,
    edge_char: &str,
    right_char: &str,
    style: &BorderStyle,
    title: &Title,
    len: usize,
) -> (r: String)
    requires
        title@.width + SIDES <= len,
        edge_char@ == seq![glyph(style@.0, BorderChar::Edge)],
        right_char@.len() == 1,
    ensures
        r@ == buf@ + repeat_char(glyph(style@.0, BorderChar::Edge), left_pad(title@.width as int, len as int, title@.pos) as nat)
            + title@.text + styled(
            style@.1,
            repeat_char(glyph(style@.0, BorderChar::Edge), right_pad(title@.width as int, len as int, title@.pos) as nat)
                + right_char@,
        ),
{
    let mut buf = buf;
    let ghost start = buf@;
    let left_pad_len = title.left_pad_len(len);
    push_repeated(&mut buf, edge_char, left_pad_len);
    buf.append(title.text());
    let right_pad_len = title.right_pad_len(len);
    let mut right_pad = String::new();
    push_repeated(&mut right_pad, edge_char, right_pad_len);
    right_pad.append(right_char);
    let ansi = style.ansi_style();
    if ansi.is_plain() {
        buf.append(right_pad.as_str());
    } else {
        let painted_pad = paint(ansi, right_pad.as_str());
        buf.append(painted_pad.as_str());
    }
    assert(right_pad@ =~= repeat_char(glyph(style@.0, BorderChar::Edge), right_pad_len as nat) + right_char@);
    buf
}

} // verus!
