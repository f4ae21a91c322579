//! Colors, text weight and the escape codes that style a run of text.

use vstd::prelude::*;
use vstd::string::*;

verus! {

/// The 4-bit palette whose meaning each terminal defines, declared in
/// palette order: the variant at position `n` is palette entry `n`.
#[derive(Debug, Clone, Copy, PartialEq, Eq, Structural)]
pub enum AnsiColor {
    Black,
    Red,
    Green,
    Yellow,
    Blue,
    Magenta,
    Cyan,
    White,
    BrightBlack,
    BrightRed,
    BrightGreen,
    BrightYellow,
    BrightBlue,
    BrightMagenta,
    BrightCyan,
    BrightWhite,
}

/// A terminal color: a palette entry, an index into the 256-color table, or
/// a 24-bit red, green, blue triple.
#[derive(Debug, Clone, Copy, PartialEq, Eq, Structural)]
pub enum Color {
    Ansi(AnsiColor),
    Ansi256(u8),
    Rgb(u8, u8, u8),
}

/// Thick (bold) or thin (dimmed) text; normal text has no weight.
#[derive(Debug, Clone, Copy, PartialEq, Eq, Structural)]
pub enum TextWeight {
    Bold,
    Dimm,
}

/// What a styled run of text sets: each part that is `None` contributes
/// nothing to the escape codes.
#[derive(Debug, Clone, Copy, PartialEq, Eq, Structural)]
pub struct Style {
    pub fg: Option<Color>,
    pub bg: Option<Color>,
    pub weight: Option<TextWeight>,
}

impl Style {
    /// A style that sets nothing and so renders as plain text.
    pub open spec fn is_plain(self) -> bool {
        self.fg is None && self.bg is None && self.weight is None
    }
}

/// The escape codes that open a run of text in a style that sets something,
/// as a terminal reads them (the weight, then each color that is set).
pub uninterp spec fn style_codes(style: Style) -> Seq<char>;

/// What opens a run of text in `style`: nothing for a plain style.
pub open spec fn opening_codes(style: Style) -> Seq<char> {
    if style.is_plain() {
        Seq::empty()
    } else {
        style_codes(style)
    }
}

/// The code that clears every styling attribute at once.
pub open spec fn reset_code() -> Seq<char> {
    seq!['\x1b', '[', '0', 'm']
}

/// What closes a run of text in `style`: nothing for a plain style, else a
/// full reset, whichever parts were set.
pub open spec fn closing_codes(style: Style) -> Seq<char> {
    if style.is_plain() {
        Seq::empty()
    } else {
        reset_code()
    }
}

/// `text` as it appears once styled: opening codes, the text, closing codes.
pub open spec fn styled(style: Style, text: Seq<char>) -> Seq<char> {
    opening_codes(style) + text + closing_codes(style)
}

/// Relies on anstyle's `Display` for `Style`: the plain form writes the
/// opening codes (none for an empty style), the alternate form `{:#}` writes
/// the reset `ESC [ 0 m`, or nothing for an empty style. A palette color
/// is handed over by its entry number, through `Ansi256Color::into_ansi`.
#[verifier::external_body]
fn style_envelope(style: &Style) -> (r: (String, String))
    ensures
        r.0@ == opening_codes(*style),
        !style.is_plain() ==> r.0@ == style_codes(*style),
        r.1@ == closing_codes(*style),
{
    let conv = |c: Color| match c {
        Color::Ansi(a) => anstyle::Color::Ansi(anstyle::Ansi256Color(a as u8).into_ansi().unwrap()),
        Color::Ansi256(n) => anstyle::Color::Ansi256(anstyle::Ansi256Color(n)),
        Color::Rgb(r, g, b) => anstyle::Color::Rgb(anstyle::RgbColor(r, g, b)),
    };
    let s = anstyle::Style::new().fg_color(style.fg.map(conv)).bg_color(style.bg.map(conv));
    let s = match style.weight {
        Some(TextWeight::Bold) => s.bold(),
        Some(TextWeight::Dimm) => s.dimmed(),
        None => s,
    };
    (format!("{s}"), format!("{s:#}"))
}

impl Style {
    /// Wraps `text` in this style's opening codes and its closing reset.
    pub fn apply(&self, text: &str) -> (r: String)
        ensures
            r@ == styled(*self, text@),
    {
        let (open, close) = style_envelope(self);
        let mut out = open;
        out.append(text);
        out.append(close.as_str());
        out
    }
}

} // verus!
