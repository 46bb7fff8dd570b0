//! Rectangles of terminal cells and the size rules a layout is made of.
use vstd::prelude::*;

verus! {

/// The axis along which an area is cut into chunks.
#[derive(Clone, Copy, Debug, PartialEq, Eq, Hash, Structural)]
pub enum Direction {
    Horizontal,
    Vertical,
}

impl Direction {
    /// The other axis.
    pub open spec fn across(self) -> Direction {
        match self {
            Direction::Horizontal => Direction::Vertical,
            Direction::Vertical => Direction::Horizontal,
        }
    }
}

/// A rectangle of terminal cells: its top-left corner and its size.
#[derive(Clone, Copy, Debug, PartialEq, Eq, Hash, Default, Structural)]
pub struct Rect {
    pub x: u16,
    pub y: u16,
    pub width: u16,
    pub height: u16,
}

impl Rect {
    /// The column just past the right edge.
    pub open spec fn right(self) -> int {
        self.x + self.width
    }

    /// The row just past the bottom edge.
    pub open spec fn bottom(self) -> int {
        self.y + self.height
    }

    /// Both far edges are coordinates a terminal can address.
    pub open spec fn fits(self) -> bool {
        self.right() <= u16::MAX && self.bottom() <= u16::MAX
    }

    /// `inner` does not reach past the right or the bottom edge of `self`.
    pub open spec fn bounds(self, inner: Rect) -> bool {
        inner.right() <= self.right() && inner.bottom() <= self.bottom()
    }

    /// The near edge along an axis: the left column, or the top row.
    pub open spec fn start(self, along: Direction) -> int {
        match along {
            Direction::Horizontal => self.x as int,
            Direction::Vertical => self.y as int,
        }
    }

    /// The size along an axis: the width, or the height.
    pub open spec fn extent(self, along: Direction) -> int {
        match along {
            Direction::Horizontal => self.width as int,
            Direction::Vertical => self.height as int,
        }
    }

    /// The far edge along an axis: `right`, or `bottom`.
    pub open spec fn end(self, along: Direction) -> int {
        self.start(along) + self.extent(along)
    }

    /// What is left of the rectangle inside a margin of `margin` cells on
    /// every side. A rectangle too small for the margin leaves the empty
    /// rectangle at the origin.
    pub open spec fn inner(self, margin: u16) -> Rect {
        if self.width < 2 * margin || self.height < 2 * margin {
            Rect { x: 0, y: 0, width: 0, height: 0 }
        } else {
            Rect {
                x: (self.x + margin) as u16,
                y: (self.y + margin) as u16,
                width: (self.width - 2 * margin) as u16,
                height: (self.height - 2 * margin) as u16,
            }
        }
    }

    /// The band of `height` rows that starts `offset` rows below the top
    /// edge and is as wide as the rectangle.
    pub open spec fn rows(self, offset: int, height: int) -> Rect {
        Rect { x: self.x, y: (self.y + offset) as u16, width: self.width, height: height as u16 }
    }

    /// The band of `width` columns that starts `offset` columns right of the
    /// left edge and is as high as the rectangle.
    pub open spec fn columns(self, offset: int, width: int) -> Rect {
        Rect { x: (self.x + offset) as u16, y: self.y, width: width as u16, height: self.height }
    }

    /// Tests `fits` at run time.
    pub fn fits_terminal(&self) -> (ok: bool)
        ensures
            ok == self.fits(),
    {
        self.width <= u16::MAX - self.x && self.height <= u16::MAX - self.y
    }
}

/// The size asked of one chunk of a layout, along the layout's direction.
#[derive(Clone, Copy, Debug, PartialEq, Eq, Hash, Structural)]
pub enum Constraint {
    /// Exactly this many cells, where the area allows it.
    Length(u16),
    /// At least this many cells, where the area allows it.
    Min(u16),
}

impl Constraint {
    /// The least size that meets the rule.
    pub open spec fn floor(self) -> int {
        match self {
            Constraint::Length(n) => n as int,
            Constraint::Min(n) => n as int,
        }
    }

    /// A chunk of `size` cells is what the rule asks for.
    pub open spec fn met_by(self, size: int) -> bool {
        match self {
            Constraint::Length(n) => size == n,
            Constraint::Min(n) => size >= n,
        }
    }
}

} // verus!
