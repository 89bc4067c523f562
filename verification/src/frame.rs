//! What a frame of the dashboard consists of: widgets, each placed on an area.
//!
//! A frame is a list of what to draw, in the order of drawing. Painting it on
//! a terminal is the caller's part.

use vstd::prelude::*;
use crate::layout::Rect;
use crate::style::{lines_view, Alignment, Color, Line, SpanView, Style};

verus! {

/// A border around an area, on all four sides, with a title in its top edge.
/// An empty title is no title.
#[derive(Debug, Clone, PartialEq, Eq)]
pub struct Block {
    pub title: String,
    pub title_style: Style,
    pub border_style: Style,
}

/// What a block shows.
pub struct BlockView {
    pub title: Seq<char>,
    pub title_style: Style,
    pub border_style: Style,
}

impl View for Block {
    type V = BlockView;

    open spec fn view(&self) -> BlockView {
        BlockView {
            title: self.title@,
            title_style: self.title_style,
            border_style: self.border_style,
        }
    }
}

/// The block of a panel: border in `color`, and the title on it in bold.
pub open spec fn panel_block(title: Seq<char>, color: Color) -> BlockView {
    BlockView { title, title_style: Style::strong(color), border_style: Style::colored(color) }
}

/// A border without a title.
pub open spec fn bare_block(border_style: Style) -> BlockView {
    BlockView { title: Seq::<char>::empty(), title_style: Style::plain(), border_style }
}

impl Block {
    /// The block of a panel: border in `color`, the title on it in bold.
    pub fn panel(title: &str, color: Color) -> (r: Block)
        ensures
            r@ == panel_block(title@, color),
    {
        Block {
            title: String::from_str(title),
            title_style: Style::new().fg(color).bold(),
            border_style: Style::new().fg(color),
        }
    }

    /// A border without a title.
    pub fn bare(border_style: Style) -> (r: Block)
        ensures
            r@ == bare_block(border_style),
    {
        Block { title: String::new(), title_style: Style::new(), border_style }
    }
}

/// Rows of text, inside a block or on the bare area.
#[derive(Debug, Clone, PartialEq, Eq)]
pub struct Paragraph {
    pub lines: Vec<Line>,
    pub block: Option<Block>,
    pub style: Style,
    pub alignment: Alignment,
}

/// What a paragraph shows.
pub struct ParagraphView {
    pub lines: Seq<Seq<SpanView>>,
    pub block: Option<BlockView>,
    pub style: Style,
    pub alignment: Alignment,
}

impl View for Paragraph {
    type V = ParagraphView;

    open spec fn view(&self) -> ParagraphView {
        ParagraphView {
            lines: lines_view(self.lines@),
            block: match self.block {
                Some(block) => Some(block@),
                None => None,
            },
            style: self.style,
            alignment: self.alignment,
        }
    }
}

/// One thing to draw.
#[derive(Debug, Clone, PartialEq, Eq)]
pub enum Widget {
    /// Wipes the area.
    Clear,
    Block(Block),
    Paragraph(Paragraph),
}

/// What a widget shows.
pub enum WidgetView {
    Clear,
    Block(BlockView),
    Paragraph(ParagraphView),
}

impl View for Widget {
    type V = WidgetView;

    open spec fn view(&self) -> WidgetView {
        match self {
            Widget::Clear => WidgetView::Clear,
            Widget::Block(block) => WidgetView::Block(block@),
            Widget::Paragraph(paragraph) => WidgetView::Paragraph(paragraph@),
        }
    }
}

/// Rows of text flush left on the bare area.
pub open spec fn text_widget(lines: Seq<Seq<SpanView>>) -> WidgetView {
    WidgetView::Paragraph(
        ParagraphView { lines, block: None, style: Style::plain(), alignment: Alignment::Left },
    )
}

/// Rows of text, each centered, on the bare area.
pub open spec fn centered_widget(lines: Seq<Seq<SpanView>>) -> WidgetView {
    WidgetView::Paragraph(
        ParagraphView { lines, block: None, style: Style::plain(), alignment: Alignment::Center },
    )
}

/// Rows of text inside a block.
pub open spec fn boxed_widget(
    lines: Seq<Seq<SpanView>>,
    block: BlockView,
    alignment: Alignment,
) -> WidgetView {
    WidgetView::Paragraph(
        ParagraphView { lines, block: Some(block), style: Style::plain(), alignment },
    )
}

impl Widget {
    /// Rows of text flush left on the bare area.
    pub fn text(lines: Vec<Line>) -> (r: Widget)
        ensures
            r@ == text_widget(lines_view(lines@)),
    {
        Widget::Paragraph(
            Paragraph { lines, block: None, style: Style::new(), alignment: Alignment::Left },
        )
    }

    /// Rows of text, each centered, on the bare area.
    pub fn centered(lines: Vec<Line>) -> (r: Widget)
        ensures
            r@ == centered_widget(lines_view(lines@)),
    {
        Widget::Paragraph(
            Paragraph { lines, block: None, style: Style::new(), alignment: Alignment::Center },
        )
    }

    /// Rows of text inside a block.
    pub fn boxed(lines: Vec<Line>, block: Block, alignment: Alignment) -> (r: Widget)
        ensures
            r@ == boxed_widget(lines_view(lines@), block@, alignment),
    {
        Widget::Paragraph(Paragraph { lines, block: Some(block), style: Style::new(), alignment })
    }
}

/// A widget and the area it is drawn on.
#[derive(Debug, Clone, PartialEq, Eq)]
pub struct Placed {
    pub widget: Widget,
    pub area: Rect,
}

/// What a placed widget shows, and where.
pub struct PlacedView {
    pub widget: WidgetView,
    pub area: Rect,
}

impl View for Placed {
    type V = PlacedView;

    open spec fn view(&self) -> PlacedView {
        PlacedView { widget: self.widget@, area: self.area }
    }
}

/// `widget` drawn on `area`.
pub open spec fn placed(widget: WidgetView, area: Rect) -> PlacedView {
    PlacedView { widget, area }
}

/// One picture of the dashboard in the making: the size of the terminal, and
/// what has been drawn so far, oldest first.
#[derive(Debug, Clone, PartialEq, Eq)]
pub struct Frame {
    pub size: Rect,
    pub widgets: Vec<Placed>,
}

impl View for Frame {
    type V = Seq<PlacedView>;

    open spec fn view(&self) -> Seq<PlacedView> {
        self.widgets@.map_values(|p: Placed| p@)
    }
}

impl Frame {
    /// An empty frame for a terminal of the given size.
    pub fn new(size: Rect) -> (r: Frame)
        ensures
            r.size == size,
            r@ == Seq::<PlacedView>::empty(),
    {
        Frame { size, widgets: Vec::new() }
    }

    /// The whole terminal.
    pub fn area(&self) -> (r: Rect)
        ensures
            r == self.size,
    {
        self.size
    }

    /// Draws `widget` on `area`, over what is there.
    pub fn render_widget(&mut self, widget: Widget, area: Rect)
        ensures
            final(self).size == old(self).size,
            final(self)@ == old(self)@.push(placed(widget@, area)),
    {
        self.widgets.push(Placed { widget, area });
    }
}

} // verus!
