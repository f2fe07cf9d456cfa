//! The shape and style of a box's border.
use vstd::prelude::*;

use crate::ansi::{paint, painted, style_is_plain};

verus! {

/// One of the six places of the border that a glyph is drawn at.
#[derive(Debug, Clone, Copy, PartialEq, Eq, Structural)]
pub enum BorderChar {
    TopLeft,
    TopRight,
    Side,
    BotLeft,
    BotRight,
    Edge,
}

/// The lines that a border is drawn with.
#[derive(Debug, Clone, Copy, PartialEq, Eq, Structural)]
pub enum BorderShape {
    /// A single line: `┌─┐` over `└─┘`.
    Single,
    /// A double line: `╔═╗` over `╚═╝`.
    Double,
}

/// The glyph that a shape draws at a place of the border.
pub open spec fn glyph(shape: BorderShape, place: BorderChar) -> char {
    match shape {
        BorderShape::Single => match place {
            BorderChar::TopLeft => '┌',
            BorderChar::TopRight => '┐',
            BorderChar::Side => '│',
            BorderChar::BotLeft => '└',
            BorderChar::BotRight => '┘',
            BorderChar::Edge => '─',
        },
        BorderShape::Double => match place {
            BorderChar::TopLeft => '╔',
            BorderChar::TopRight => '╗',
            BorderChar::Side => '║',
            BorderChar::BotLeft => '╚',
            BorderChar::BotRight => '╝',
            BorderChar::Edge => '═',
        },
    }
}

impl Default for BorderShape {
    fn default() -> (r: Self)
        ensures
            r == BorderShape::Single,
    {
        BorderShape::Single
    }
}

impl BorderShape {
    /// The glyph drawn at `place`, as a text of one character.
    pub fn get_char(self, place: BorderChar) -> (r: &'static str)
        ensures
            r@ == seq![glyph(self, place)],
    {
        match self {
            BorderShape::Single => match place {
                BorderChar::TopLeft => {
                    proof { reveal_strlit("┌"); }
                    "┌"
                },
                BorderChar::TopRight => {
                    proof { reveal_strlit("┐"); }
                    "┐"
                },
                BorderChar::Side => {
                    proof { reveal_strlit("│"); }
                    "│"
                },
                BorderChar::BotLeft => {
                    proof { reveal_strlit("└"); }
                    "└"
                },
                BorderChar::BotRight => {
                    proof { reveal_strlit("┘"); }
                    "┘"
                },
                BorderChar::Edge => {
                    proof { reveal_strlit("─"); }
                    "─"
                },
            },
            BorderShape::Double => match place {
                BorderChar::TopLeft => {
                    proof { reveal_strlit("╔"); }
                    "╔"
                },
                BorderChar::TopRight => {
                    proof { reveal_strlit("╗"); }
                    "╗"
                },
                BorderChar::Side => {
                    proof { reveal_strlit("║"); }
                    "║"
                },
                BorderChar::BotLeft => {
                    proof { reveal_strlit("╚"); }
                    "╚"
                },
                BorderChar::BotRight => {
                    proof { reveal_strlit("╝"); }
                    "╝"
                },
                BorderChar::Edge => {
                    proof { reveal_strlit("═"); }
                    "═"
                },
            },
        }
    }
}

/// The shape of a box's border and the terminal style it is painted with.
#[derive(Debug, Clone, Copy, PartialEq, Eq)]
pub struct BorderStyle {
    shape: BorderShape,
    ansi: nu_ansi_term::Style,
}

impl View for BorderStyle {
    type V = (BorderShape, nu_ansi_term::Style);

    closed spec fn view(&self) -> (BorderShape, nu_ansi_term::Style) {
        (self.shape, self.ansi)
    }
}

impl Default for BorderStyle {
    fn default() -> (r: Self)
        ensures
            r@.0 == BorderShape::Single,
            style_is_plain(r@.1),
    {
        BorderStyle { shape: BorderShape::Single, ansi: nu_ansi_term::Style::new() }
    }
}

impl BorderStyle {
    /// A single-line border with no styling.
    pub fn new_single() -> (r: Self)
        ensures
            r@.0 == BorderShape::Single,
            style_is_plain(r@.1),
    {
        Self::default()
    }

    /// A double-line border with no styling.
    pub fn new_double() -> (r: Self)
        ensures
            r@.0 == BorderShape::Double,
            style_is_plain(r@.1),
    {
        BorderStyle { shape: BorderShape::Double, ansi: nu_ansi_term::Style::new() }
    }

    /// The same border, painted with `style`.
    pub fn with_style(self, style: nu_ansi_term::Style) -> (r: Self)
        ensures
            r@ == (self@.0, style),
    {
        BorderStyle { ansi: style, ..self }
    }

    /// The side glyph, painted with the border's style; every content line starts and ends
    /// with it.
    pub fn get_edge_string(&self) -> (r: String)
        ensures
            r@ == painted(self@.1, seq![glyph(self@.0, BorderChar::Side)]),
            style_is_plain(self@.1) ==> r@ == seq![glyph(self@.0, BorderChar::Side)],
    {
        let base = self.shape.get_char(BorderChar::Side);
        paint(self.ansi, base)
    }

    /// The shape of the border.
    pub fn shape(&self) -> (r: BorderShape)
        ensures
            r == self@.0,
    {
        self.shape
    }

    /// The style the border is painted with.
    pub fn ansi_style(&self) -> (r: nu_ansi_term::Style)
        ensures
            r == self@.1,
    {
        self.ansi
    }
}

} // verus!
