//! The glyphs that cap segments and the color set of each part of the prompt.

use vstd::prelude::*;
use crate::style::{AnsiColor, Color};

verus! {

/// Filled chevron pointing right.
pub const R_ANGLED_FILL: &'static str = "\u{E0B0}";
/// Filled chevron pointing left.
pub const L_ANGLED_FILL: &'static str = "\u{E0B2}";
/// Thin chevron pointing right.
pub const R_ANGLED_FLAT: &'static str = "\u{E0B1}";
/// Thin chevron pointing left.
pub const L_ANGLED_FLAT: &'static str = "\u{E0B3}";
/// Filled half circle, round side on the right.
pub const R_CURVED_FILL: &'static str = "\u{E0B4}";
/// Filled half circle, round side on the left.
pub const L_CURVED_FILL: &'static str = "\u{E0B6}";
/// Thin half circle, round side on the right.
pub const R_CURVED_FLAT: &'static str = "\u{E0B5}";
/// Thin half circle, round side on the left.
pub const L_CURVED_FLAT: &'static str = "\u{E0B7}";
/// Filled honeycomb.
pub const HONEYCOMB_FILL: &'static str = "\u{E0CC}";
/// Outlined honeycomb.
pub const HONEYCOMB_FLAT: &'static str = "\u{E0CD}";
/// Version control branch.
pub const BRANCH: &'static str = "\u{E0A0}";
/// The Python logo, shown while a virtual environment is active.
pub const PYTHON_LOGO: &'static str = "\u{E235}";

/// The part of the prompt that a pair of colors is for.
#[derive(Debug, Clone, Copy, PartialEq, Eq, Structural)]
pub enum Role {
    /// The name of an ordinary user.
    UserNormal,
    /// The name of the superuser.
    UserRoot,
    /// The status of a command that succeeded.
    ExitSuccess,
    /// The status of a command that failed, or an unknown status.
    ExitFailed,
    /// The clock.
    Time,
    /// The Python virtual environment marker.
    VenvPython,
}

/// The text and background colors of a part of the prompt.
#[derive(Debug, Clone, Copy, PartialEq, Eq, Structural)]
pub struct Palette {
    pub fg: Color,
    pub bg: Color,
}

/// The color table, keyed by role.
pub open spec fn palette_of(role: Role) -> Palette {
    match role {
        Role::UserNormal => Palette { fg: Color::Ansi(AnsiColor::Black), bg: Color::Ansi(AnsiColor::BrightWhite) },
        Role::UserRoot => Palette { fg: Color::Ansi(AnsiColor::Black), bg: Color::Ansi(AnsiColor::BrightRed) },
        Role::ExitSuccess => Palette { fg: Color::Ansi(AnsiColor::Black), bg: Color::Ansi(AnsiColor::BrightBlue) },
        Role::ExitFailed => Palette { fg: Color::Ansi(AnsiColor::Black), bg: Color::Ansi(AnsiColor::BrightRed) },
        Role::Time => Palette { fg: Color::Ansi(AnsiColor::White), bg: Color::Ansi256(237) },
        Role::VenvPython => Palette { fg: Color::Ansi256(220), bg: Color::Ansi256(25) },
    }
}

/// The colors of `role`.
pub fn palette(role: Role) -> (r: Palette)
    ensures
        r == palette_of(role),
{
    match role {
        Role::UserNormal => Palette { fg: Color::Ansi(AnsiColor::Black), bg: Color::Ansi(AnsiColor::BrightWhite) },
        Role::UserRoot => Palette { fg: Color::Ansi(AnsiColor::Black), bg: Color::Ansi(AnsiColor::BrightRed) },
        Role::ExitSuccess => Palette { fg: Color::Ansi(AnsiColor::Black), bg: Color::Ansi(AnsiColor::BrightBlue) },
        Role::ExitFailed => Palette { fg: Color::Ansi(AnsiColor::Black), bg: Color::Ansi(AnsiColor::BrightRed) },
        Role::Time => Palette { fg: Color::Ansi(AnsiColor::White), bg: Color::Ansi256(237) },
        Role::VenvPython => Palette { fg: Color::Ansi256(220), bg: Color::Ansi256(25) },
    }
}

} // verus!
