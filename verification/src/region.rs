//! Rectangles of terminal cells.

use vstd::prelude::*;

verus! {

/// The direction along which a rectangle is cut in two.
#[derive(Clone, Copy, Debug, PartialEq, Eq, Structural)]
pub enum Axis {
    /// The parts lie side by side: the cut is a column.
    Horizontal,
    /// The parts lie one above the other: the cut is a row.
    Vertical,
}

/// A rectangle of terminal cells: the column and row of its top-left cell,
/// and how many columns and rows it spans.
#[derive(Clone, Copy, Debug, PartialEq, Eq, Structural)]
pub struct Region {
    pub x: u16,
    pub y: u16,
    pub width: u16,
    pub height: u16,
}

impl Region {
    /// The column just past the last one, as a mathematical integer.
    pub open spec fn right(self) -> int {
        self.x + self.width
    }

    /// The row just past the last one, as a mathematical integer.
    pub open spec fn bottom(self) -> int {
        self.y + self.height
    }

    /// Whether the cell at (`col`, `row`) lies inside the rectangle.
    pub open spec fn covers(self, col: int, row: int) -> bool {
        self.x <= col < self.right() && self.y <= row < self.bottom()
    }

    /// The cells of the rectangle, as (column, row) pairs.
    pub open spec fn cells(self) -> Set<(int, int)> {
        Set::new(|c: (int, int)| self.covers(c.0, c.1))
    }

    /// Whether every cell of the rectangle has coordinates that fit in `u16`.
    pub open spec fn on_grid(self) -> bool {
        self.right() <= u16::MAX && self.bottom() <= u16::MAX
    }

    /// How many cells the rectangle spans along `axis`.
    pub open spec fn extent(self, axis: Axis) -> int {
        match axis {
            Axis::Horizontal => self.width as int,
            Axis::Vertical => self.height as int,
        }
    }

    /// The part of `self` that lies before a cut made `cut` cells along `axis`.
    pub open spec fn before_cut(self, axis: Axis, cut: int) -> Region {
        match axis {
            Axis::Horizontal => Region { x: self.x, y: self.y, width: cut as u16, height: self.height },
            Axis::Vertical => Region { x: self.x, y: self.y, width: self.width, height: cut as u16 },
        }
    }

    /// The part of `self` that lies after a cut made `cut` cells along `axis`.
    pub open spec fn after_cut(self, axis: Axis, cut: int) -> Region {
        match axis {
            Axis::Horizontal => Region {
                x: (self.x + cut) as u16,
                y: self.y,
                width: (self.width - cut) as u16,
                height: self.height,
            },
            Axis::Vertical => Region {
                x: self.x,
                y: (self.y + cut) as u16,
                width: self.width,
                height: (self.height - cut) as u16,
            },
        }
    }

    /// Whether `a` and `b` share no cell and together hold exactly the cells
    /// of `self`.
    pub open spec fn tiled_by_pair(self, a: Region, b: Region) -> bool {
        &&& a.cells().disjoint(b.cells())
        &&& a.cells().union(b.cells()) =~= self.cells()
    }

    /// The whole screen of a terminal with `width` columns and `height` rows.
    pub fn screen(width: u16, height: u16) -> (r: Region)
        ensures
            r == (Region { x: 0, y: 0, width, height }),
            r.on_grid(),
    {
        Region { x: 0, y: 0, width, height }
    }

    /// How many cells the rectangle spans along `axis`.
    pub fn span(&self, axis: Axis) -> (n: u16)
        ensures
            n == self.extent(axis),
    {
        match axis {
            Axis::Horizontal => self.width,
            Axis::Vertical => self.height,
        }
    }

    /// Cuts the rectangle in two, `cut` cells along `axis`: what lies before
    /// the cut and what lies after it. Either part may be empty.
    pub fn split_at(&self, axis: Axis, cut: u16) -> (parts: (Region, Region))
        requires
            cut <= self.extent(axis),
            self.on_grid(),
        ensures
            parts.0 == self.before_cut(axis, cut as int),
            parts.1 == self.after_cut(axis, cut as int),
            parts.0.extent(axis) == cut,
            parts.0.extent(axis) + parts.1.extent(axis) == self.extent(axis),
            parts.0.on_grid(),
            parts.1.on_grid(),
            self.tiled_by_pair(parts.0, parts.1),
    {
        let parts = match axis {
            Axis::Horizontal => (
                Region { x: self.x, y: self.y, width: cut, height: self.height },
                Region { x: self.x + cut, y: self.y, width: self.width - cut, height: self.height },
            ),
            Axis::Vertical => (
                Region { x: self.x, y: self.y, width: self.width, height: cut },
                Region { x: self.x, y: self.y + cut, width: self.width, height: self.height - cut },
            ),
        };
        proof {
            lemma_cut_tiles(*self, axis, cut as int);
        }
        parts
    }

    /// Whether the rectangle holds no cell at all.
    pub fn is_empty(&self) -> (b: bool)
        ensures
            b == (self.width == 0 || self.height == 0),
            b == (self.cells() =~= Set::<(int, int)>::empty()),
    {
        proof {
            if self.width > 0 && self.height > 0 {
                assert(self.covers(self.x as int, self.y as int));
                assert(self.cells().contains((self.x as int, self.y as int)));
            }
        }
        self.width == 0 || self.height == 0
    }
}

/// A cut anywhere along a rectangle leaves two parts that share no cell and
/// together hold exactly the cells of the rectangle.
pub proof fn lemma_cut_tiles(area: Region, axis: Axis, cut: int)
    requires
        0 <= cut <= area.extent(axis),
        area.on_grid(),
    ensures
        area.tiled_by_pair(area.before_cut(axis, cut), area.after_cut(axis, cut)),
{
    let a = area.before_cut(axis, cut);
    let b = area.after_cut(axis, cut);
    assert forall|c: (int, int)| a.cells().union(b.cells()).contains(c) == area.cells().contains(c) by {
        assert(a.cells().contains(c) == a.covers(c.0, c.1));
        assert(b.cells().contains(c) == b.covers(c.0, c.1));
        assert(area.cells().contains(c) == area.covers(c.0, c.1));
    }
    assert forall|c: (int, int)| !(a.cells().contains(c) && b.cells().contains(c)) by {
        assert(a.cells().contains(c) == a.covers(c.0, c.1));
        assert(b.cells().contains(c) == b.covers(c.0, c.1));
    }
}

} // verus!
