//! The terminal styles of `nu_ansi_term`, as the layout sees them.
use vstd::prelude::*;

pub use nu_ansi_term::Style as AnsiStyle;

verus! {

#[verifier::external_type_specification]
#[verifier::external_body]
pub struct ExAnsiStyle(nu_ansi_term::Style);

/// Whether a style sets no property at all, so that painting with it changes nothing.
pub uninterp spec fn style_is_plain(st: nu_ansi_term::Style) -> bool;

/// The text that `nu_ansi_term` writes for `s` painted with `st`.
pub uninterp spec fn painted(st: nu_ansi_term::Style, s: Seq<char>) -> Seq<char>;

/// Relies on `nu_ansi_term::Style::is_plain`: it tells whether the style equals the default
/// style, which has no property set.
pub assume_specification[ nu_ansi_term::Style::is_plain ](st: nu_ansi_term::Style) -> (r: bool)
    ensures
        r == style_is_plain(st),
;

/// Relies on `nu_ansi_term::Style::new`: it returns the default style, which is plain.
pub assume_specification[ nu_ansi_term::Style::new ]() -> (r: nu_ansi_term::Style)
    ensures
        style_is_plain(r),
;

/// Relies on `nu_ansi_term::Style::paint` and the `Display` of what it returns: the text
/// between the style's prefix and suffix, a function of the style and the text; for a plain
/// style both are empty.
#[verifier::external_body]
pub(crate) fn paint(st: nu_ansi_term::Style, s: &str) -> (r: String)
    ensures
        r@ == painted(st, s@),
        style_is_plain(st) ==> r@ == s@,
{
    st.paint(s).to_string()
}

/// What a line of the border becomes under a style: painted, unless the style is plain.
pub open spec fn styled(st: nu_ansi_term::Style, s: Seq<char>) -> Seq<char> {
    if style_is_plain(st) {
        s
    } else {
        painted(st, s)
    }
}

} // verus!
