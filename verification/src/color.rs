//! Terminal colors and the ANSI escape sequences that select them.

use vstd::prelude::*;

verus! {

/// The foreground colors that log output uses.
#[derive(Clone, Copy, Debug, PartialEq, Eq, Structural)]
pub enum Color {
    Red,
    Green,
    Yellow,
    Blue,
    Magenta,
    Cyan,
}

/// The escape sequence that switches the terminal to foreground color `c`.
pub open spec fn ansi_code(c: Color) -> Seq<char> {
    match c {
        Color::Red => "\x1b[31m"@,
        Color::Green => "\x1b[32m"@,
        Color::Yellow => "\x1b[33m"@,
        Color::Blue => "\x1b[34m"@,
        Color::Magenta => "\x1b[35m"@,
        Color::Cyan => "\x1b[36m"@,
    }
}

/// The escape sequence that resets the terminal's attributes.
pub open spec fn ansi_reset() -> Seq<char> {
    "\x1b[0m"@
}

/// `text` wrapped in the escape sequences for color `c`.
pub open spec fn colored(c: Color, text: Seq<char>) -> Seq<char> {
    ansi_code(c) + text + ansi_reset()
}

/// The escape sequence for color `c`.
pub fn ansi_code_str(c: Color) -> (res: &'static str)
    ensures
        res@ == ansi_code(c),
{
    match c {
        Color::Red => "\x1b[31m",
        Color::Green => "\x1b[32m",
        Color::Yellow => "\x1b[33m",
        Color::Blue => "\x1b[34m",
        Color::Magenta => "\x1b[35m",
        Color::Cyan => "\x1b[36m",
    }
}

/// The escape sequence that resets the terminal's attributes.
pub fn ansi_reset_str() -> (res: &'static str)
    ensures
        res@ == ansi_reset(),
{
    "\x1b[0m"
}

/// `colorized::colorize_this`: the text between the color's escape
/// sequence and the reset sequence, as the crate's `format!` builds it.
#[verifier::external_body]
pub(crate) fn colorize(text: &str, c: Color) -> (res: String)
    ensures
        res@ == colored(c, text@),
{
    let value = match c {
        Color::Red => colorized::Colors::RedFg,
        Color::Green => colorized::Colors::GreenFg,
        Color::Yellow => colorized::Colors::YellowFg,
        Color::Blue => colorized::Colors::BlueFg,
        Color::Magenta => colorized::Colors::MagentaFg,
        Color::Cyan => colorized::Colors::CyanFg,
    };
    colorized::colorize_this(text, value)
}

} // verus!
