//! Display lines: the unit of every report.

use vstd::prelude::*;
use vstd::string::*;

verus! {

/// The mathematical value of a piece of text: its characters in order.
pub type Text = Seq<char>;

/// How a line's subject is to be marked when it is shown.
#[derive(Clone, Copy, Debug, PartialEq, Eq, Structural)]
pub enum Marker {
    /// Everything is in order.
    Success,
    /// Something is degraded.
    Warning,
    /// Something is partly out; kept apart from [`Marker::Severe`].
    Alert,
    /// Something is out altogether.
    Severe,
    /// No marker: the text is shown as it is.
    Plain,
}

/// One line of a report.
///
/// The line reads `prefix` followed by `text`; only `text` is marked.
#[derive(Clone, Debug, PartialEq, Eq)]
pub struct Line {
    /// What stands before the marked text and is never marked itself.
    pub prefix: String,
    /// The text that carries the marker.
    pub text: String,
    /// The marker of `text`.
    pub marker: Marker,
}

/// The value of a [`Line`].
pub struct LineView {
    pub prefix: Text,
    pub text: Text,
    pub marker: Marker,
}

impl LineView {
    /// What the line reads once markers are left aside.
    pub open spec fn content(self) -> Text {
        self.prefix + self.text
    }
}

impl View for Line {
    type V = LineView;

    open spec fn view(&self) -> LineView {
        LineView { prefix: self.prefix@, text: self.text@, marker: self.marker }
    }
}

impl DeepView for Line {
    type V = LineView;

    open spec fn deep_view(&self) -> LineView {
        self@
    }
}

/// A line of unmarked text.
pub open spec fn plain(text: Text) -> LineView {
    LineView { prefix: Seq::empty(), text, marker: Marker::Plain }
}

/// The empty line that separates the parts of a report.
pub open spec fn blank() -> LineView {
    plain(Seq::empty())
}

/// A line that consists of marked text alone.
pub open spec fn marked(text: Text, marker: Marker) -> LineView {
    LineView { prefix: Seq::empty(), text, marker }
}

/// A line `name: state` in which only `state` is marked.
pub open spec fn named(name: Text, state: Text, marker: Marker) -> LineView {
    LineView { prefix: name + ": "@, text: state, marker }
}

/// The lines that an optional value adds: `label` followed by the value
/// where there is one, nothing where there is none.
pub open spec fn optional(label: Text, value: Option<Text>) -> Seq<LineView> {
    match value {
        Some(v) => seq![plain(label + v)],
        None => Seq::empty(),
    }
}

impl Line {
    /// A line of unmarked text: `label` followed by `value`.
    pub fn plain(label: &str, value: &str) -> (line: Line)
        ensures
            line@ == plain(label@ + value@),
    {
        let mut text = String::from_str(label);
        text.append(value);
        Line { prefix: String::new(), text, marker: Marker::Plain }
    }

    /// The empty line.
    pub fn blank() -> (line: Line)
        ensures
            line@ == blank(),
    {
        Line { prefix: String::new(), text: String::new(), marker: Marker::Plain }
    }

    /// A line that consists of `text` under `marker`.
    pub fn marked(text: &str, marker: Marker) -> (line: Line)
        ensures
            line@ == marked(text@, marker),
    {
        Line { prefix: String::new(), text: String::from_str(text), marker }
    }

    /// A line `name: state` with `state` under `marker`.
    pub fn named(name: &str, state: &str, marker: Marker) -> (line: Line)
        ensures
            line@ == named(name@, state@, marker),
    {
        let mut prefix = String::from_str(name);
        prefix.append(": ");
        Line { prefix, text: String::from_str(state), marker }
    }

    /// What the line reads once its marker is left aside.
    pub fn content(&self) -> (out: String)
        ensures
            out@ == self@.content(),
    {
        let mut out = self.prefix.clone();
        out.append(self.text.as_str());
        out
    }
}

/// Appends `line` to `out`.
pub(crate) fn push_line(out: &mut Vec<Line>, line: Line)
    ensures
        final(out).deep_view() == old(out).deep_view().push(line@),
{
    out.push(line);
    assert(out.deep_view() =~= old(out).deep_view().push(line@));
}

/// Appends to `out` the line that an optional value adds.
pub(crate) fn push_optional(out: &mut Vec<Line>, label: &str, value: &Option<String>)
    ensures
        final(out).deep_view() == old(out).deep_view() + optional(label@, value.deep_view()),
{
    match value {
        Some(v) => {
            push_line(out, Line::plain(label, v.as_str()));
            assert(out.deep_view() =~= old(out).deep_view() + optional(label@, value.deep_view()));
        },
        None => {
            assert(out.deep_view() =~= old(out).deep_view() + optional(label@, value.deep_view()));
        },
    }
}

} // verus!
