use vstd::prelude::*;

verus! {

/// Sum of two coordinate values, saturating at `u16::MAX`.
pub open spec fn sat_add(a: int, b: int) -> int {
    if a + b > u16::MAX as int {
        u16::MAX as int
    } else {
        a + b
    }
}

/// Difference of two coordinate values, saturating at zero.
pub open spec fn sat_sub(a: int, b: int) -> int {
    if a - b < 0 {
        0
    } else {
        a - b
    }
}

/// The smaller of two values.
pub open spec fn min_i(a: int, b: int) -> int {
    if a < b {
        a
    } else {
        b
    }
}

/// The larger of two values.
pub open spec fn max_i(a: int, b: int) -> int {
    if a > b {
        a
    } else {
        b
    }
}

/// An axis-aligned rectangle on the character grid, given by its top-left
/// corner, a width and a height.
///
/// Every derived accessor uses saturating arithmetic, so all operations are
/// total over any rectangle, including degenerate, zero-sized ones.
#[derive(Clone, Copy, Debug, Default, PartialEq, Eq, Structural, Hash)]
pub struct Rect {
    pub x: u16,
    pub y: u16,
    pub width: u16,
    pub height: u16,
}

impl Rect {
    /// Builds the rectangle with the given corner and size.
    pub fn new(x: u16, y: u16, width: u16, height: u16) -> (r: Rect)
        ensures
            r == (Rect { x, y, width, height }),
    {
        Rect { x, y, width, height }
    }

    /// The leftmost column of the rectangle.
    pub open spec fn spec_left(self) -> int {
        self.x as int
    }

    /// One past the rightmost column, saturating at `u16::MAX`.
    pub open spec fn spec_right(self) -> int {
        sat_add(self.x as int, self.width as int)
    }

    /// The topmost row of the rectangle.
    pub open spec fn spec_top(self) -> int {
        self.y as int
    }

    /// One past the bottommost row, saturating at `u16::MAX`.
    pub open spec fn spec_bottom(self) -> int {
        sat_add(self.y as int, self.height as int)
    }

    /// A rectangle is empty when either side has zero length.
    pub open spec fn spec_is_empty(self) -> bool {
        self.width == 0 || self.height == 0
    }

    /// Whether the cell at column `x`, row `y` lies inside this rectangle.
    pub open spec fn spec_contains(self, x: int, y: int) -> bool {
        &&& self.x <= x < self.x + self.width
        &&& self.y <= y < self.y + self.height
    }

    /// Whether every cell of `self` lies inside `outer`.
    pub open spec fn spec_inside(self, outer: Rect) -> bool {
        &&& outer.x <= self.x
        &&& self.x + self.width <= outer.x + outer.width
        &&& outer.y <= self.y
        &&& self.y + self.height <= outer.y + outer.height
    }

    /// The largest rectangle covered by both `self` and `other`.
    pub open spec fn spec_intersection(self, other: Rect) -> Rect {
        let x1 = max_i(self.x as int, other.x as int);
        let y1 = max_i(self.y as int, other.y as int);
        let x2 = min_i(self.spec_right(), other.spec_right());
        let y2 = min_i(self.spec_bottom(), other.spec_bottom());
        Rect {
            x: x1 as u16,
            y: y1 as u16,
            width: sat_sub(x2, x1) as u16,
            height: sat_sub(y2, y1) as u16,
        }
    }

    pub fn left(&self) -> (r: u16)
        ensures
            r as int == self.spec_left(),
    {
        self.x
    }

    pub fn right(&self) -> (r: u16)
        ensures
            r as int == self.spec_right(),
    {
        self.x.saturating_add(self.width)
    }

    pub fn top(&self) -> (r: u16)
        ensures
            r as int == self.spec_top(),
    {
        self.y
    }

    pub fn bottom(&self) -> (r: u16)
        ensures
            r as int == self.spec_bottom(),
    {
        self.y.saturating_add(self.height)
    }

    pub fn is_empty(&self) -> (r: bool)
        ensures
            r == self.spec_is_empty(),
    {
        self.width == 0 || self.height == 0
    }

    pub fn intersection(&self, other: Rect) -> (r: Rect)
        ensures
            r == self.spec_intersection(other),
    {
        let x1 = if self.x > other.x {
            self.x
        } else {
            other.x
        };
        let y1 = if self.y > other.y {
            self.y
        } else {
            other.y
        };
        let sr = self.right();
        let or_ = other.right();
        let x2 = if sr < or_ {
            sr
        } else {
            or_
        };
        let sb = self.bottom();
        let ob = other.bottom();
        let y2 = if sb < ob {
            sb
        } else {
            ob
        };
        Rect { x: x1, y: y1, width: x2.saturating_sub(x1), height: y2.saturating_sub(y1) }
    }
}

} // verus!
