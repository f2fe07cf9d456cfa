use ansi_width::ansi_width;
use nu_ansi_term::{Color, Style};
use term_box::{BorderShape, BorderStyle, CountedString, Padding, TermBox, Title, TitlePosition, Titles};

fn widths(text: &str) -> Vec<usize> {
    text.split('\n').map(ansi_width).collect()
}

fn sample_box() -> TermBox {
    TermBox {
        border_style: BorderStyle::new_double().with_style(Color::Green.bold()),
        padding: Padding::spaces(2),
        titles: Titles {
            top: Title(&Color::Red.paint("top").to_string(), TitlePosition::Right),
            bottom: Title("a bottom title", TitlePosition::Centered),
        },
        lines: vec!["one".to_string(), Color::Blue.paint("two").to_string(), "日本語".to_string(), String::new()],
    }
}

#[test]
fn every_line_equally_wide() {
    let text = sample_box().into_string();
    let w = widths(&text);
    assert_eq!(w.len(), 6);
    assert!(w.iter().all(|&x| x == 20), "{w:?}");
}

#[test]
fn every_line_equally_wide_with_each_position() {
    for pos in [TitlePosition::Left, TitlePosition::Right, TitlePosition::Centered] {
        for line in ["x", "xy", "xyz", "wider line"] {
            let text = TermBox {
                titles: Titles { top: Title("ab", pos), bottom: Title("abc", pos) },
                lines: vec![line.to_string()],
                ..TermBox::default()
            }
            .into_string();
            let w = widths(&text);
            assert!(w.iter().all(|&x| x == w[0]), "{pos:?} {line}: {w:?}");
        }
    }
}

#[test]
fn empty_box_line_terminated() {
    let mut out: Vec<u8> = Vec::new();
    TermBox::default().print_to(&mut out).unwrap();
    assert_eq!(String::from_utf8(out).unwrap(), "┌─┐\n└─┘\n");
}

#[test]
fn write_to_has_no_final_newline() {
    let mut out = String::new();
    TermBox::default().write_to(&mut out).unwrap();
    assert_eq!(out, "┌─┐\n└─┘");
}

#[test]
fn render_twice_is_identical() {
    let b = sample_box();
    let first = b.clone().into_string();
    let second = b.into_string();
    assert_eq!(first, second);
}

#[test]
fn try_into_string_draws_the_box() {
    let b = sample_box();
    assert_eq!(b.clone().try_into_string(), Some(b.into_string()));
}

#[test]
fn centered_title_pads_by_parity() {
    // even title, odd line: the extra glyph goes right
    assert_eq!(Title("ab", TitlePosition::Centered).left_pad_len(9), 2);
    assert_eq!(Title("ab", TitlePosition::Centered).right_pad_len(9), 3);
    // odd title, odd line
    assert_eq!(Title("abc", TitlePosition::Centered).left_pad_len(9), 2);
    assert_eq!(Title("abc", TitlePosition::Centered).right_pad_len(9), 2);
    // odd title, even line: the extra glyph goes left
    assert_eq!(Title("abc", TitlePosition::Centered).left_pad_len(8), 2);
    assert_eq!(Title("abc", TitlePosition::Centered).right_pad_len(8), 1);
    // even title, even line
    assert_eq!(Title("ab", TitlePosition::Centered).left_pad_len(8), 2);
    assert_eq!(Title("ab", TitlePosition::Centered).right_pad_len(8), 2);
}

#[test]
fn side_title_pads() {
    assert_eq!(Title("abc", TitlePosition::Left).left_pad_len(10), 1);
    assert_eq!(Title("abc", TitlePosition::Left).right_pad_len(10), 4);
    assert_eq!(Title("abc", TitlePosition::Right).left_pad_len(10), 4);
    assert_eq!(Title("abc", TitlePosition::Right).right_pad_len(10), 1);
    // a title that fills the inside of the line
    assert_eq!(Title("abc", TitlePosition::Right).left_pad_len(5), 0);
    assert_eq!(Title("abc", TitlePosition::Centered).right_pad_len(5), 0);
}

#[test]
fn control_only_title() {
    let t = Title("\x1b[0m", TitlePosition::Left);
    assert!(!t.is_empty());
    assert_eq!(t.width(), 0);
    assert_eq!(t.len_bytes(), 4);
    assert_eq!(t.left_pad_len(7), 3);
    assert_eq!(t.right_pad_len(7), 3);
}

#[test]
fn tab_padding_renders_as_spaces() {
    let lines = vec!["tab".to_string(), "stops".to_string()];
    let tabbed = TermBox { padding: Padding::new('\t', 2), lines: lines.clone(), ..TermBox::default() };
    let spaced = TermBox { padding: Padding::spaces(16), lines, ..TermBox::default() };
    assert_eq!(Padding::new('\t', 2), Padding::spaces(16));
    assert_eq!(tabbed.into_string(), spaced.into_string());
}

#[test]
fn plain_style_renders_as_unstyled() {
    let lines = vec!["plain".to_string()];
    let titles = Titles { top: Title("t", TitlePosition::Centered), bottom: Title::empty() };
    let styled = TermBox {
        border_style: BorderStyle::new_double().with_style(Style::new()),
        titles: titles.clone(),
        lines: lines.clone(),
        ..TermBox::default()
    };
    let unstyled = TermBox { border_style: BorderStyle::new_double(), titles, lines, ..TermBox::default() };
    assert_eq!(styled.into_string(), unstyled.into_string());
}

#[test]
fn styled_border_is_painted() {
    let plain = TermBox::default().into_string();
    let red = TermBox { border_style: BorderStyle::new_single().with_style(Color::Red.normal()), ..TermBox::default() }
        .into_string();
    assert_ne!(plain, red);
    assert_eq!(red, format!("{}\n{}", Color::Red.paint("┌─┐"), Color::Red.paint("└─┘")));
}

#[test]
fn title_wider_than_lines_sets_the_width() {
    let text = TermBox {
        titles: Titles { top: Title("a long title", TitlePosition::Left), bottom: Title::empty() },
        lines: vec!["x".to_string()],
        ..TermBox::default()
    }
    .into_string();
    assert_eq!(text, "┌a long title┐\n│x           │\n└────────────┘");
}

#[test]
fn append_and_with_lines_agree() {
    let mut appended = TermBox::default().with_lines(vec!["hello".to_string()]);
    appended.append("world!");
    let built = TermBox::default().with_lines(vec!["hello".to_string(), "world!".to_string()]);
    assert_eq!(appended.clone().into_string(), built.clone().into_string());
    assert_eq!(appended, built);
    assert_eq!(TermBox::default().append_with("a"), TermBox::default().with_lines(vec!["a".to_string()]));
}

#[test]
fn counted_string_measures_display_width() {
    assert_eq!(CountedString::new("hello").width(), 5);
    assert_eq!(CountedString::new("\x1b[1mhi\x1b[0m").width(), 2);
    assert_eq!(CountedString::new("日本").width(), 4);
    assert_eq!(CountedString::owned("héllo".to_string()).width(), 5);
    let c = CountedString::counted("abc".to_string(), 7);
    assert_eq!(c.width(), 7);
    assert_eq!(c.str(), "abc");
    assert_eq!(CountedString::empty().str(), "");
}

#[test]
fn padding_values() {
    assert_eq!(Padding::default(), Padding::none());
    assert_eq!(Padding::none().into_string(), "");
    assert_eq!(Padding::new('-', 2).into_string(), "--");
    assert_eq!(Padding::new('a', 3).into_string(), "aaa");
    assert_eq!(Padding::spaces(1).into_string(), " ");
    assert_eq!(Padding::new('\t', 1), Padding::new(' ', 8));
    assert_eq!(Padding::new('é', 3).len_utf8(), 6);
    assert_eq!(Padding::new('─', 2).len_utf8(), 6);
    assert_eq!(Padding::spaces(4).len_utf8(), 4);
    assert_eq!(Padding::new('x', 5).chr(), 'x');
    assert_eq!(Padding::new('\t', 5).chr(), ' ');
    assert_eq!(Padding::new('\t', 5).count(), 40);
}

#[test]
fn border_style_accessors() {
    assert_eq!(BorderStyle::new_single().shape(), BorderShape::Single);
    assert_eq!(BorderStyle::new_double().shape(), BorderShape::Double);
    assert!(BorderStyle::new_single().ansi_style().is_plain());
    let st = Color::Cyan.bold();
    let b = BorderStyle::new_double().with_style(st);
    assert_eq!(b.ansi_style(), st);
    assert_eq!(b.shape(), BorderShape::Double);
    assert_eq!(b.get_edge_string(), st.paint("║").to_string());
    assert_eq!(BorderStyle::new_single().get_edge_string(), "│");
}

#[test]
fn title_accessors() {
    let t = Title("héllo", TitlePosition::Right);
    assert_eq!(t.text(), "héllo");
    assert_eq!(t.pos(), TitlePosition::Right);
    assert_eq!(t.width(), 5);
    assert_eq!(t.len_bytes(), 6);
    assert!(!t.is_empty());
    assert!(Title::empty().is_empty());
    assert_eq!(Title::empty().pos(), TitlePosition::Left);
    assert!(Titles::none().top.is_empty());
    assert!(Titles::none().bottom.is_empty());
}
