//! Renderable output lines: plain text plus a styling tag. The host maps the
//! tag to concrete colors; the core only decides text and tag.

use vstd::prelude::*;
use vstd::string::*;

verus! {

/// How a line should be styled when rendered.
#[derive(Clone, Copy, PartialEq, Eq, Structural, Debug)]
pub enum LineKind {
    Normal,
    Primary,
    Secondary,
    Muted,
    Error,
    Warning,
    Success,
    Heading,
    Prompt,
}

/// One line of scrollback output.
pub struct RenderLine {
    pub text: String,
    pub kind: LineKind,
}

/// The mathematical value of a [`RenderLine`].
pub ghost struct LineV {
    pub text: Seq<char>,
    pub kind: LineKind,
}

impl View for RenderLine {
    type V = LineV;

    open spec fn view(&self) -> LineV {
        LineV { text: self.text@, kind: self.kind }
    }
}

/// Shorthand for a line value.
pub open spec fn lv(text: Seq<char>, kind: LineKind) -> LineV {
    LineV { text, kind }
}

/// The values of a sequence of render lines.
pub open spec fn views_of(s: Seq<RenderLine>) -> Seq<LineV> {
    s.map_values(|l: RenderLine| l@)
}

/// A line holding `text`, styled as `kind`.
pub fn line_of(kind: LineKind, text: &str) -> (r: RenderLine)
    ensures
        r@ == lv(text@, kind),
{
    RenderLine { text: text.to_owned(), kind }
}

/// A line taking ownership of `text`, styled as `kind`.
pub fn line_string(kind: LineKind, text: String) -> (r: RenderLine)
    ensures
        r@ == lv(text@, kind),
{
    RenderLine { text, kind }
}

/// Append a line holding `text`.
pub fn push_line(out: &mut Vec<RenderLine>, kind: LineKind, text: &str)
    ensures
        views_of(final(out)@) == views_of(old(out)@).push(lv(text@, kind)),
{
    out.push(line_of(kind, text));
    proof {
        assert(views_of(out@) =~= views_of(old(out)@).push(lv(text@, kind)));
    }
}

/// Append a line taking ownership of `text`.
pub fn push_line_string(out: &mut Vec<RenderLine>, kind: LineKind, text: String)
    ensures
        views_of(final(out)@) == views_of(old(out)@).push(lv(text@, kind)),
{
    let ghost t = text@;
    out.push(line_string(kind, text));
    proof {
        assert(views_of(out@) =~= views_of(old(out)@).push(lv(t, kind)));
    }
}

impl RenderLine {
    /// A copy with the same value.
    pub fn duplicate(&self) -> (r: RenderLine)
        ensures
            r@ == self@,
    {
        RenderLine { text: self.text.clone(), kind: self.kind }
    }
}

} // verus!
