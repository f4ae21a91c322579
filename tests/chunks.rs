use prettyline::prompt::{Chunk, Segment};
use prettyline::style::{AnsiColor, Color, Style, TextWeight};

#[test]
fn plain_chunk_has_no_codes() {
    assert_eq!(Chunk::new("abc").render(), "abc");
    assert_eq!(Chunk::new("abc").pad().render(), " abc ");
    assert_eq!(Chunk::new("").render(), "");
    assert_eq!(Chunk::new("").pad().render(), "  ");
}

#[test]
fn colors_and_weight_render_in_order() {
    let c = Chunk::new("x")
        .fg(Color::Ansi(AnsiColor::Red))
        .bg(Color::Ansi(AnsiColor::BrightWhite))
        .weight(TextWeight::Bold);
    assert_eq!(c.render(), "\x1b[1m\x1b[31m\x1b[107mx\x1b[0m");
}

#[test]
fn indexed_and_rgb_colors() {
    let c = Chunk::new("t").fg(Color::Ansi256(220)).bg(Color::Rgb(1, 20, 255)).weight(TextWeight::Dimm);
    assert_eq!(c.render(), "\x1b[2m\x1b[38;5;220m\x1b[48;2;1;20;255mt\x1b[0m");
}

#[test]
fn padding_is_inside_the_style() {
    let c = Chunk::new("u").bg(Color::Ansi(AnsiColor::Blue)).pad();
    assert_eq!(c.render(), "\x1b[44m u \x1b[0m");
}

#[test]
fn empty_styled_chunk_keeps_its_envelope() {
    assert_eq!(Chunk::new("").fg(Color::Ansi(AnsiColor::Green)).render(), "\x1b[32m\x1b[0m");
}

#[test]
fn padding_toggled_twice_is_unpadded() {
    let once = Chunk::new("v").fg(Color::Ansi(AnsiColor::Cyan));
    let twice = Chunk::new("v").fg(Color::Ansi(AnsiColor::Cyan)).pad().pad();
    assert_eq!(twice.render(), once.render());
    assert_eq!(twice.render(), "\x1b[36mv\x1b[0m");
}

#[test]
fn style_apply_wraps_text() {
    let st = Style { fg: Some(Color::Ansi(AnsiColor::BrightBlack)), bg: None, weight: None };
    assert_eq!(st.apply("q"), "\x1b[90mq\x1b[0m");
    let none = Style { fg: None, bg: None, weight: None };
    assert_eq!(none.apply("q"), "q");
}

#[test]
fn bare_segment_renders_as_its_center() {
    let c = Chunk::new("mid").fg(Color::Ansi(AnsiColor::Yellow)).pad();
    let expected = c.render();
    let seg = Segment { left: None, center: c, right: None };
    assert_eq!(seg.render(), expected);
    assert_eq!(seg.render(), "\x1b[33m mid \x1b[0m");
}

#[test]
fn segment_joins_caps_and_center_in_order() {
    let seg = Segment {
        left: Some(Chunk::new("<").fg(Color::Ansi(AnsiColor::Magenta))),
        center: Chunk::new("c"),
        right: Some(Chunk::new(">").bg(Color::Ansi(AnsiColor::White))),
    };
    assert_eq!(seg.render(), "\x1b[35m<\x1b[0mc\x1b[47m>\x1b[0m");
}
