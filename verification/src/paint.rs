//! From a line to what a terminal is sent.
//!
//! The colours come from the `colored` crate. Whether it emits them at all
//! is its own decision, taken from the terminal and the environment, so the
//! contracts here say what holds either way.

use colored::Colorize;
use vstd::prelude::*;
use vstd::string::*;

use crate::line::{Line, LineView, Marker, Text};

verus! {

/// Whether `text` holds the sequence that switches all styling off.
pub open spec fn holds_reset(text: Text) -> bool {
    exists|i: int| 0 <= i && i + 4 <= text.len() && #[trigger] text.subrange(i, i + 4) == "\x1B[0m"@
}

/// Whether `out` shows `text`: either as it is, or between a style sequence
/// and the sequence that switches styling off.
pub open spec fn frames(out: Text, text: Text) -> bool {
    out == text || exists|style: Text| out == #[trigger] (style + text) + "\x1B[0m"@
}

/// Whether `out` is a way to show `line` on a terminal. An unmarked line is
/// shown as it reads. A marked line keeps its prefix as it is, and its text
/// is framed unless the text itself switches styling off.
pub open spec fn shows(out: Text, line: LineView) -> bool {
    if line.marker == Marker::Plain {
        out == line.content()
    } else {
        exists|painted: Text| #[trigger]
            (line.prefix + painted) == out && (!holds_reset(line.text) ==> frames(
                painted,
                line.text,
            ))
    }
}

/// `colored`'s `Colorize::green` on a string slice, formatted by the
/// `Display` of the `ColoredString` it returns.
///
/// That `Display` writes the text unchanged when colours are off. When they
/// are on it writes a style sequence, the text, and the reset sequence; only
/// a text that holds a reset sequence itself is altered in between.
#[verifier::external_body]
fn paint_green(text: &str) -> (out: String)
    ensures
        !holds_reset(text@) ==> frames(out@, text@),
{
    text.green().to_string()
}

/// `colored`'s `Colorize::yellow` on a string slice, formatted by the
/// `Display` of the `ColoredString` it returns: the text unchanged when
/// colours are off, else framed as `paint_green` says.
#[verifier::external_body]
fn paint_yellow(text: &str) -> (out: String)
    ensures
        !holds_reset(text@) ==> frames(out@, text@),
{
    text.yellow().to_string()
}

/// `colored`'s `Colorize::red` on a string slice, formatted by the `Display`
/// of the `ColoredString` it returns: the text unchanged when colours are
/// off, else framed as `paint_green` says.
#[verifier::external_body]
fn paint_red(text: &str) -> (out: String)
    ensures
        !holds_reset(text@) ==> frames(out@, text@),
{
    text.red().to_string()
}

/// `colored`'s `Colorize::truecolor` on a string slice, formatted by the
/// `Display` of the `ColoredString` it returns: the text unchanged when
/// colours are off, else framed as `paint_green` says. Which style sequence
/// stands for the colour depends on what the terminal is said to support.
#[verifier::external_body]
fn paint_truecolor(text: &str, r: u8, g: u8, b: u8) -> (out: String)
    ensures
        !holds_reset(text@) ==> frames(out@, text@),
{
    text.truecolor(r, g, b).to_string()
}

impl Marker {
    /// Shows `text` under this marker: green for success, yellow for a
    /// warning, orange for an alert, red for what is severe, and the text
    /// as it is where there is no marker.
    pub fn tint(&self, text: &str) -> (out: String)
        ensures
            *self == Marker::Plain ==> out@ == text@,
            !holds_reset(text@) ==> frames(out@, text@),
    {
        match self {
            Marker::Success => paint_green(text),
            Marker::Warning => paint_yellow(text),
            Marker::Alert => paint_truecolor(text, 255, 165, 0),
            Marker::Severe => paint_red(text),
            Marker::Plain => String::from_str(text),
        }
    }
}

impl Line {
    /// What a terminal is sent for this line: the prefix as it is, then the
    /// text under the line's marker.
    pub fn paint(&self) -> (out: String)
        ensures
            shows(out@, self@),
    {
        let painted = self.marker.tint(self.text.as_str());
        let mut out = self.prefix.clone();
        out.append(painted.as_str());
        proof {
            if self.marker != Marker::Plain {
                assert(self@.prefix + painted@ == out@);
            }
        }
        out
    }
}

} // verus!
