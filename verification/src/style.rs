//! Terminal styling, done by the `colored` crate.
//!
//! Whether `colored` emits escape sequences is decided by the process (its
//! override switch, the environment, the terminal), so a styled text is known
//! only up to that choice: see [`painted`].

use colored::Colorize;
use vstd::prelude::*;

verus! {

/// The styles this program prints in.
#[derive(Debug, Clone, Copy, PartialEq, Eq)]
pub enum Paint {
    Red,
    Green,
    Yellow,
    Blue,
    BrightBlack,
    BoldRed,
    BoldGreen,
}

impl Paint {
    /// The parameters of the escape sequence that switches the style on.
    pub open spec fn codes(self) -> Seq<char> {
        match self {
            Paint::Red => seq!['3', '1'],
            Paint::Green => seq!['3', '2'],
            Paint::Yellow => seq!['3', '3'],
            Paint::Blue => seq!['3', '4'],
            Paint::BrightBlack => seq!['9', '0'],
            Paint::BoldRed => seq!['1', ';', '3', '1'],
            Paint::BoldGreen => seq!['1', ';', '3', '2'],
        }
    }
}

/// The escape sequence that switches every style off.
pub open spec fn reset() -> Seq<char> {
    seq!['\u{1b}', '[', '0', 'm']
}

/// The escape sequence that switches the style with these parameters on.
pub open spec fn start(codes: Seq<char>) -> Seq<char> {
    seq!['\u{1b}', '['] + codes + seq!['m']
}

/// `text` with `again` written behind each reset sequence in it, so that a
/// reset inside the text does not end the style around it.
pub open spec fn resumed(text: Seq<char>, again: Seq<char>) -> Seq<char>
    decreases text.len(),
{
    if text.len() == 0 {
        text
    } else if reset().is_prefix_of(text) {
        reset() + again + resumed(text.skip(4), again)
    } else {
        seq![text[0]] + resumed(text.skip(1), again)
    }
}

/// `text` between the sequence that switches the style on and a reset.
pub open spec fn styled(codes: Seq<char>, text: Seq<char>) -> Seq<char> {
    start(codes) + resumed(text, start(codes)) + reset()
}

/// What printing `text` in a style may give: the text itself where colouring
/// is off, the text between escape sequences where it is on.
pub open spec fn painted(out: Seq<char>, paint: Paint, text: Seq<char>) -> bool {
    out == text || out == styled(paint.codes(), text)
}

/// `Colorize::red` on `text`, then `to_string`: the text in red (SGR 31), or
/// unchanged where `colored` has colouring switched off.
#[verifier::external_body]
fn red(text: &str) -> (out: String)
    ensures
        painted(out@, Paint::Red, text@),
{
    text.red().to_string()
}

/// `Colorize::green` on `text`, then `to_string`: the text in green (SGR 32),
/// or unchanged where `colored` has colouring switched off.
#[verifier::external_body]
fn green(text: &str) -> (out: String)
    ensures
        painted(out@, Paint::Green, text@),
{
    text.green().to_string()
}

/// `Colorize::yellow` on `text`, then `to_string`: the text in yellow (SGR
/// 33), or unchanged where `colored` has colouring switched off.
#[verifier::external_body]
fn yellow(text: &str) -> (out: String)
    ensures
        painted(out@, Paint::Yellow, text@),
{
    text.yellow().to_string()
}

/// `Colorize::blue` on `text`, then `to_string`: the text in blue (SGR 34), or
/// unchanged where `colored` has colouring switched off.
#[verifier::external_body]
fn blue(text: &str) -> (out: String)
    ensures
        painted(out@, Paint::Blue, text@),
{
    text.blue().to_string()
}

/// `Colorize::bright_black` on `text`, then `to_string`: the text in bright
/// black (SGR 90), or unchanged where `colored` has colouring switched off.
#[verifier::external_body]
fn bright_black(text: &str) -> (out: String)
    ensures
        painted(out@, Paint::BrightBlack, text@),
{
    text.bright_black().to_string()
}

/// `Colorize::red` and `Colorize::bold` on `text`, then `to_string`: the text
/// in bold red (SGR 1;31), or unchanged where `colored` has colouring switched
/// off.
#[verifier::external_body]
fn bold_red(text: &str) -> (out: String)
    ensures
        painted(out@, Paint::BoldRed, text@),
{
    text.red().bold().to_string()
}

/// `Colorize::green` and `Colorize::bold` on `text`, then `to_string`: the
/// text in bold green (SGR 1;32), or unchanged where `colored` has colouring
/// switched off.
#[verifier::external_body]
fn bold_green(text: &str) -> (out: String)
    ensures
        painted(out@, Paint::BoldGreen, text@),
{
    text.green().bold().to_string()
}

/// `text` printed in the style `with`.
pub fn paint(with: Paint, text: &str) -> (out: String)
    ensures
        painted(out@, with, text@),
{
    match with {
        Paint::Red => red(text),
        Paint::Green => green(text),
        Paint::Yellow => yellow(text),
        Paint::Blue => blue(text),
        Paint::BrightBlack => bright_black(text),
        Paint::BoldRed => bold_red(text),
        Paint::BoldGreen => bold_green(text),
    }
}

} // verus!
