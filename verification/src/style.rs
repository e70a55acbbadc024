//! Styled text as it is put on the screen.

use crate::text::{owned, Chars};
use vstd::prelude::*;

verus! {

#[derive(Clone, Copy, Debug, PartialEq, Eq, Structural)]
pub enum Color {
    Reset,
    Black,
    Red,
    Green,
    Yellow,
    Blue,
    Magenta,
    Cyan,
    Gray,
    DarkGray,
    LightRed,
    LightGreen,
    LightYellow,
    LightBlue,
    LightMagenta,
    LightCyan,
    White,
    Rgb(u8, u8, u8),
}

/// Colours and attributes of a piece of text. What is not given is left as it is on the screen.
#[derive(Clone, Copy, Debug, PartialEq, Eq, Structural)]
pub struct Style {
    pub fg: Option<Color>,
    pub bg: Option<Color>,
    pub bold: bool,
    pub underlined: bool,
    pub dim: bool,
}

impl Style {
    pub open spec fn plain_spec() -> Style {
        Style { fg: None, bg: None, bold: false, underlined: false, dim: false }
    }

    pub fn plain() -> (r: Style)
        ensures
            r == Style::plain_spec(),
    {
        Style { fg: None, bg: None, bold: false, underlined: false, dim: false }
    }

    pub open spec fn fg_spec(c: Color) -> Style {
        Style { fg: Some(c), ..Style::plain_spec() }
    }

    pub fn fg(c: Color) -> (r: Style)
        ensures
            r == Style::fg_spec(c),
    {
        Style { fg: Some(c), bg: None, bold: false, underlined: false, dim: false }
    }

    pub open spec fn bold_spec(c: Color) -> Style {
        Style { fg: Some(c), bold: true, ..Style::plain_spec() }
    }

    pub fn bold(c: Color) -> (r: Style)
        ensures
            r == Style::bold_spec(c),
    {
        Style { fg: Some(c), bg: None, bold: true, underlined: false, dim: false }
    }
}

/// A piece of text in one style.
#[derive(Debug)]
pub struct Span {
    pub text: String,
    pub style: Style,
}

pub struct SpanView {
    pub text: Chars,
    pub style: Style,
}

impl View for Span {
    type V = SpanView;

    open spec fn view(&self) -> SpanView {
        SpanView { text: self.text@, style: self.style }
    }
}

impl Clone for Span {
    fn clone(&self) -> (r: Self)
        ensures
            r == *self,
    {
        Span { text: self.text.clone(), style: self.style }
    }
}

/// A line of styled text.
#[derive(Debug)]
pub struct Line {
    pub spans: Vec<Span>,
}

/// A line as the specifications see it.
pub type LineView = Seq<SpanView>;

pub open spec fn spans_view(v: Seq<Span>) -> LineView {
    Seq::new(v.len(), |i: int| v[i]@)
}

impl View for Line {
    type V = LineView;

    open spec fn view(&self) -> LineView {
        spans_view(self.spans@)
    }
}

pub open spec fn lines_view(v: Seq<Line>) -> Seq<LineView> {
    Seq::new(v.len(), |i: int| v[i]@)
}

impl Clone for Line {
    fn clone(&self) -> (r: Self)
        ensures
            r@ == self@,
    {
        let mut out: Vec<Span> = Vec::new();
        let mut i: usize = 0;
        while i < self.spans.len()
            invariant
                i <= self.spans.len(),
                out@ == self.spans@.subrange(0, i as int),
            decreases self.spans.len() - i,
        {
            out.push(self.spans[i].clone());
            i += 1;
            assert(out@ =~= self.spans@.subrange(0, i as int));
        }
        assert(self.spans@.subrange(0, self.spans@.len() as int) =~= self.spans@);
        Line { spans: out }
    }
}

pub fn clone_lines(v: &Vec<Line>) -> (r: Vec<Line>)
    ensures
        lines_view(r@) == lines_view(v@),
{
    let mut out: Vec<Line> = Vec::new();
    let mut i: usize = 0;
    while i < v.len()
        invariant
            i <= v.len(),
            out@.len() == i,
            forall|k: int| 0 <= k < i ==> (#[trigger] out@[k])@ == v@[k]@,
        decreases v.len() - i,
    {
        out.push(v[i].clone());
        i += 1;
    }
    assert(lines_view(out@) =~= lines_view(v@));
    out
}

/// A piece of text in a style, for the specifications.
pub open spec fn span_of(text: Chars, style: Style) -> SpanView {
    SpanView { text, style }
}

pub fn span(text: &str, style: Style) -> (r: Span)
    ensures
        r@ == span_of(text@, style),
{
    Span { text: owned(text), style }
}

pub fn span_owned(text: String, style: Style) -> (r: Span)
    ensures
        r@ == span_of(text@, style),
{
    Span { text, style }
}

/// Adds a span to the end of a line that is being put together.
pub fn add_span(line: &mut Vec<Span>, s: Span)
    ensures
        spans_view(final(line)@) == spans_view(old(line)@).push(s@),
{
    line.push(s);
    assert(spans_view(line@) =~= spans_view(old(line)@).push(s@));
}

/// Adds a line to the end of a text that is being put together.
pub fn add_line(lines: &mut Vec<Line>, spans: Vec<Span>)
    ensures
        lines_view(final(lines)@) == lines_view(old(lines)@).push(spans_view(spans@)),
{
    let l: Line = Line { spans };
    lines.push(l);
    assert(lines_view(lines@) =~= lines_view(old(lines)@).push(l@));
}

/// A line of one span.
pub open spec fn line1(a: SpanView) -> LineView {
    seq![a]
}

/// A line of two spans.
pub open spec fn line2(a: SpanView, b: SpanView) -> LineView {
    seq![a, b]
}

/// A line of three spans.
pub open spec fn line3(a: SpanView, b: SpanView, c: SpanView) -> LineView {
    seq![a, b, c]
}

/// An empty line.
pub open spec fn blank_line() -> LineView {
    Seq::empty()
}

pub fn add_blank(lines: &mut Vec<Line>)
    ensures
        lines_view(final(lines)@) == lines_view(old(lines)@).push(blank_line()),
{
    add_line(lines, no_spans());
}

pub fn spans1(a: Span) -> (r: Vec<Span>)
    ensures
        spans_view(r@) == line1(a@),
{
    let mut v: Vec<Span> = Vec::new();
    v.push(a);
    assert(spans_view(v@) =~= line1(a@));
    v
}

pub fn spans2(a: Span, b: Span) -> (r: Vec<Span>)
    ensures
        spans_view(r@) == line2(a@, b@),
{
    let mut v: Vec<Span> = Vec::new();
    v.push(a);
    v.push(b);
    assert(spans_view(v@) =~= line2(a@, b@));
    v
}

pub fn spans3(a: Span, b: Span, c: Span) -> (r: Vec<Span>)
    ensures
        spans_view(r@) == line3(a@, b@, c@),
{
    let mut v: Vec<Span> = Vec::new();
    v.push(a);
    v.push(b);
    v.push(c);
    assert(spans_view(v@) =~= line3(a@, b@, c@));
    v
}

/// Adds a line of one span.
pub fn add1(lines: &mut Vec<Line>, a: Span)
    ensures
        lines_view(final(lines)@) == lines_view(old(lines)@).push(line1(a@)),
{
    add_line(lines, spans1(a));
}

/// Adds a line of two spans.
pub fn add2(lines: &mut Vec<Line>, a: Span, b: Span)
    ensures
        lines_view(final(lines)@) == lines_view(old(lines)@).push(line2(a@, b@)),
{
    add_line(lines, spans2(a, b));
}

/// Adds a line of three spans.
pub fn add3(lines: &mut Vec<Line>, a: Span, b: Span, c: Span)
    ensures
        lines_view(final(lines)@) == lines_view(old(lines)@).push(line3(a@, b@, c@)),
{
    add_line(lines, spans3(a, b, c));
}

/// No spans.
pub fn no_spans() -> (r: Vec<Span>)
    ensures
        spans_view(r@) == Seq::<SpanView>::empty(),
{
    let out: Vec<Span> = Vec::new();
    assert(spans_view(out@) =~= Seq::<SpanView>::empty());
    out
}

/// No lines.
pub fn no_lines() -> (r: Vec<Line>)
    ensures
        lines_view(r@) == Seq::<LineView>::empty(),
{
    let out: Vec<Line> = Vec::new();
    assert(lines_view(out@) =~= Seq::<LineView>::empty());
    out
}

} // verus!
