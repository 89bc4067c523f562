//! Styled text: colors, spans and lines, with the views that contracts speak of.

use vstd::prelude::*;

verus! {

/// A terminal color: the sixteen named ones, or red, green and blue.
#[derive(Debug, Clone, Copy, PartialEq, Eq)]
pub enum Color {
    Black,
    Red,
    Green,
    Yellow,
    Blue,
    Magenta,
    Cyan,
    Gray,
    DarkGray,
    LightRed,
    LightGreen,
    LightYellow,
    LightBlue,
    LightMagenta,
    LightCyan,
    White,
    Rgb(u8, u8, u8),
}

/// How a piece of text is drawn: its foreground, if one is set, and its weight.
#[derive(Debug, Clone, Copy, PartialEq, Eq)]
pub struct Style {
    pub fg: Option<Color>,
    pub bold: bool,
}

impl Style {
    /// The terminal's own foreground, normal weight.
    pub open spec fn plain() -> Style {
        Style { fg: None, bold: false }
    }

    /// `color`, normal weight.
    pub open spec fn colored(color: Color) -> Style {
        Style { fg: Some(color), bold: false }
    }

    /// `color`, bold.
    pub open spec fn strong(color: Color) -> Style {
        Style { fg: Some(color), bold: true }
    }

    /// The terminal's own foreground, normal weight.
    pub fn new() -> (r: Style)
        ensures
            r == Style::plain(),
    {
        Style { fg: None, bold: false }
    }

    /// This style with its foreground replaced.
    pub fn fg(self, color: Color) -> (r: Style)
        ensures
            r == (Style { fg: Some(color), bold: self.bold }),
    {
        Style { fg: Some(color), bold: self.bold }
    }

    /// This style in bold.
    pub fn bold(self) -> (r: Style)
        ensures
            r == (Style { fg: self.fg, bold: true }),
    {
        Style { fg: self.fg, bold: true }
    }
}

/// A run of text in one style.
#[derive(Debug, Clone, PartialEq, Eq)]
pub struct Span {
    pub content: String,
    pub style: Style,
}

/// What a span shows: its characters and its style.
pub struct SpanView {
    pub content: Seq<char>,
    pub style: Style,
}

impl View for Span {
    type V = SpanView;

    open spec fn view(&self) -> SpanView {
        SpanView { content: self.content@, style: self.style }
    }
}

/// The span that shows `content` in `style`.
pub open spec fn styled(content: Seq<char>, style: Style) -> SpanView {
    SpanView { content, style }
}

/// The span that shows `content` in the terminal's own style.
pub open spec fn raw(content: Seq<char>) -> SpanView {
    SpanView { content, style: Style::plain() }
}

impl Span {
    /// A span in the terminal's own style.
    pub fn raw(content: &str) -> (r: Span)
        ensures
            r@ == raw(content@),
    {
        Span { content: String::from_str(content), style: Style::new() }
    }

    /// A span of `content` in `style`.
    pub fn styled(content: String, style: Style) -> (r: Span)
        ensures
            r@ == styled(content@, style),
    {
        Span { content, style }
    }

    /// A span over a fixed piece of text.
    pub fn label(content: &str, style: Style) -> (r: Span)
        ensures
            r@ == styled(content@, style),
    {
        Span { content: String::from_str(content), style }
    }
}

/// One row of text: spans from left to right.
#[derive(Debug, Clone, PartialEq, Eq)]
pub struct Line {
    pub spans: Vec<Span>,
}

impl View for Line {
    type V = Seq<SpanView>;

    open spec fn view(&self) -> Seq<SpanView> {
        self.spans@.map_values(|s: Span| s@)
    }
}

impl Line {
    /// The empty row.
    pub fn new() -> (r: Line)
        ensures
            r@ == Seq::<SpanView>::empty(),
    {
        Line { spans: Vec::new() }
    }

    /// A row of one span.
    pub fn single(span: Span) -> (r: Line)
        ensures
            r@ == seq![span@],
    {
        let mut spans = Vec::new();
        spans.push(span);
        Line { spans }
    }

    /// Adds a span at the right end.
    pub fn push(&mut self, span: Span)
        ensures
            final(self)@ == old(self)@.push(span@),
    {
        self.spans.push(span);
    }
}

/// What a column of rows shows.
pub open spec fn lines_view(lines: Seq<Line>) -> Seq<Seq<SpanView>> {
    lines.map_values(|l: Line| l@)
}

/// Adds a row at the bottom.
pub fn push_line(lines: &mut Vec<Line>, line: Line)
    ensures
        lines_view(final(lines)@) == lines_view(old(lines)@).push(line@),
        final(lines)@.len() == old(lines)@.len() + 1,
{
    lines.push(line);
}

/// Where a paragraph puts its rows between the left and right edge.
#[derive(Debug, Clone, Copy, PartialEq, Eq)]
pub enum Alignment {
    Left,
    Center,
}

} // verus!
