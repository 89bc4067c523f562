//! Rectangles of the terminal grid, and how an area is divided.
//!
//! Dividing an area among constraints is ratatui's work; so is the inside of a
//! bordered block.

use vstd::prelude::*;

verus! {

/// A rectangle of the terminal grid: its top left cell, and its size in cells.
#[derive(Debug, Clone, Copy, PartialEq, Eq)]
pub struct Rect {
    pub x: u16,
    pub y: u16,
    pub width: u16,
    pub height: u16,
}

/// The smaller of two numbers.
pub open spec fn at_most(a: int, limit: int) -> int {
    if a <= limit {
        a
    } else {
        limit
    }
}

/// `a - b`, or zero where that would be negative.
pub open spec fn minus(a: int, b: int) -> int {
    if a >= b {
        a - b
    } else {
        0
    }
}

impl Rect {
    /// The rectangle at `(x, y)` of the given size, cut so that its right and
    /// bottom edge stay on the grid.
    pub open spec fn clamped(x: u16, y: u16, width: u16, height: u16) -> Rect {
        Rect {
            x,
            y,
            width: at_most(width as int, u16::MAX - x) as u16,
            height: at_most(height as int, u16::MAX - y) as u16,
        }
    }

    /// The first column to the right of the rectangle, no further than the grid goes.
    pub open spec fn right(self) -> int {
        at_most(self.x + self.width, u16::MAX as int)
    }

    /// The first row below the rectangle, no further than the grid goes.
    pub open spec fn bottom(self) -> int {
        at_most(self.y + self.height, u16::MAX as int)
    }

    /// What a border of one cell on every side leaves: the rectangle one cell
    /// in from each edge, and nothing of an extent below three cells but its
    /// place.
    pub open spec fn inside_border(self) -> Rect {
        Rect {
            x: at_most(self.x + 1, self.right()) as u16,
            y: at_most(self.y + 1, self.bottom()) as u16,
            width: minus(self.width as int, 2) as u16,
            height: minus(self.height as int, 2) as u16,
        }
    }

    /// A box of the given size in the middle of the rectangle, measured from
    /// the grid's origin; where the rectangle is smaller, the box starts at
    /// the origin and keeps its size.
    pub open spec fn popup(self, width: u16, height: u16) -> Rect {
        Rect::clamped(
            (minus(self.width as int, width as int) / 2) as u16,
            (minus(self.height as int, height as int) / 2) as u16,
            width,
            height,
        )
    }

    /// The rectangle at `(x, y)` of the given size, as far as the grid goes.
    pub fn new(x: u16, y: u16, width: u16, height: u16) -> (r: Rect)
        ensures
            r == Rect::clamped(x, y, width, height),
    {
        let max_width = u16::MAX - x;
        let max_height = u16::MAX - y;
        Rect {
            x,
            y,
            width: if width > max_width {
                max_width
            } else {
                width
            },
            height: if height > max_height {
                max_height
            } else {
                height
            },
        }
    }

    /// The area of a popup of the given size over this rectangle.
    pub fn centered_popup(&self, width: u16, height: u16) -> (r: Rect)
        ensures
            r == self.popup(width, height),
    {
        let x = (if self.width >= width {
            self.width - width
        } else {
            0
        }) / 2;
        let y = (if self.height >= height {
            self.height - height
        } else {
            0
        }) / 2;
        Rect::new(x, y, width, height)
    }
}

/// What one part of a divided area asks for.
#[derive(Debug, Clone, Copy, PartialEq, Eq)]
pub enum Sizing {
    /// Exactly so many cells.
    Length(u16),
    /// At least so many cells.
    Min(u16),
    /// So many hundredths of the area.
    Percentage(u16),
    /// The fraction of the area with this numerator and denominator.
    Ratio(u32, u32),
}

/// Along which axis an area is divided.
#[derive(Debug, Clone, Copy, PartialEq, Eq)]
pub enum Direction {
    Horizontal,
    Vertical,
}

/// Whether `part` is as a part of `area` divided along `direction` is across
/// the axis: as high as the area where the parts lie side by side, as wide
/// where they lie one above the other.
pub open spec fn spans_across(area: Rect, direction: Direction, part: Rect) -> bool {
    match direction {
        Direction::Horizontal => part.y == area.y && part.height == area.height,
        Direction::Vertical => part.x == area.x && part.width == area.width,
    }
}

/// Whether `part` lies within `area` along `direction`: it begins no earlier
/// than the area and ends no later.
pub open spec fn lies_within(area: Rect, direction: Direction, part: Rect) -> bool {
    match direction {
        Direction::Horizontal => area.x <= part.x && part.x + part.width <= area.right(),
        Direction::Vertical => area.y <= part.y && part.y + part.height <= area.bottom(),
    }
}

/// What is known of the parts that the layout makes of `area` for `sizings`:
/// there is one part for each sizing, in their order, and each lies within
/// the area along the axis and spans it across. How the room is shared among
/// the sizings is the layout's decision.
pub open spec fn divides(
    area: Rect,
    direction: Direction,
    sizings: Seq<Sizing>,
    parts: Seq<Rect>,
) -> bool {
    &&& parts.len() == sizings.len()
    &&& forall|i: int|
        0 <= i < parts.len() ==> spans_across(area, direction, #[trigger] parts[i])
            && lies_within(area, direction, parts[i])
}

/// ratatui's own form of a constraint, which the library only hands on.
#[verifier::external_type_specification]
#[verifier::external_body]
pub struct ExConstraint(ratatui::layout::Constraint);

/// The variant of ratatui's `Constraint` that has the name and the numbers of
/// `sizing`.
#[verifier::external_body]
fn outside_constraint(sizing: &Sizing) -> ratatui::layout::Constraint {
    match sizing {
        Sizing::Length(cells) => ratatui::layout::Constraint::Length(*cells),
        Sizing::Min(cells) => ratatui::layout::Constraint::Min(*cells),
        Sizing::Percentage(part) => ratatui::layout::Constraint::Percentage(*part),
        Sizing::Ratio(num, den) => ratatui::layout::Constraint::Ratio(*num, *den),
    }
}

/// `Layout::split` of ratatui, without margin or spacing: one part for each
/// constraint, in their order, each spanning the area across the axis. Along
/// the axis the solver is required to keep the two ends of every part within
/// the area, so each part lies within it; where in it, and how wide, is the
/// solver's decision, of which nothing is claimed.
#[verifier::external_body]
fn split(area: Rect, direction: Direction, asks: Vec<ratatui::layout::Constraint>) -> (parts: Vec<
    Rect,
>)
    ensures
        parts@.len() == asks@.len(),
        forall|i: int|
            0 <= i < parts@.len() ==> spans_across(area, direction, #[trigger] parts@[i])
                && lies_within(area, direction, parts@[i]),
{
    let axis = match direction {
        Direction::Horizontal => ratatui::layout::Direction::Horizontal,
        Direction::Vertical => ratatui::layout::Direction::Vertical,
    };
    let whole = ratatui::layout::Rect { x: area.x, y: area.y, width: area.width, height: area.height };
    let parts = ratatui::layout::Layout::default().direction(axis).constraints(asks).split(whole);
    parts.iter().map(|r| Rect { x: r.x, y: r.y, width: r.width, height: r.height }).collect()
}

/// `Block::inner` of ratatui, for a block with all four borders and no padding.
#[verifier::external_body]
fn bordered_inner(area: Rect) -> (inner: Rect)
    ensures
        inner == area.inside_border(),
{
    let r = ratatui::widgets::Block::default()
        .borders(ratatui::widgets::Borders::ALL)
        .inner(ratatui::layout::Rect { x: area.x, y: area.y, width: area.width, height: area.height });
    Rect { x: r.x, y: r.y, width: r.width, height: r.height }
}

/// Divides `area` along `direction` into one part for each sizing.
pub fn divide(area: Rect, direction: Direction, sizings: &Vec<Sizing>) -> (parts: Vec<Rect>)
    ensures
        divides(area, direction, sizings@, parts@),
{
    let mut asks: Vec<ratatui::layout::Constraint> = Vec::new();
    let mut i: usize = 0;
    while i < sizings.len()
        invariant
            i <= sizings@.len(),
            asks@.len() == i,
        decreases sizings@.len() - i,
    {
        asks.push(outside_constraint(&sizings[i]));
        i += 1;
    }
    split(area, direction, asks)
}

/// The area inside the border of a block drawn on `area`.
pub fn inner_area(area: Rect) -> (inner: Rect)
    ensures
        inner == area.inside_border(),
{
    bordered_inner(area)
}

} // verus!
