use vstd::prelude::*;

verus! {

/// An edge selector: the set of frame sides active for some purpose. A
/// frame keeps two of these, one for the sides it draws itself and one for
/// the sides a neighbouring frame draws on its behalf.
#[derive(Clone, Copy, Debug, Default, PartialEq, Eq, Structural, Hash)]
pub struct Borders {
    pub top: bool,
    pub bottom: bool,
    pub left: bool,
    pub right: bool,
}

impl Borders {
    /// The empty selector.
    pub open spec fn spec_none() -> Borders {
        Borders { top: false, bottom: false, left: false, right: false }
    }

    /// The selector holding all four sides.
    pub open spec fn spec_all() -> Borders {
        Borders { top: true, bottom: true, left: true, right: true }
    }

    /// The sides selected by `self` or by `other`.
    pub open spec fn spec_union(self, other: Borders) -> Borders {
        Borders {
            top: self.top || other.top,
            bottom: self.bottom || other.bottom,
            left: self.left || other.left,
            right: self.right || other.right,
        }
    }

    /// The sides selected both by `self` and by `other`.
    pub open spec fn spec_intersection(self, other: Borders) -> Borders {
        Borders {
            top: self.top && other.top,
            bottom: self.bottom && other.bottom,
            left: self.left && other.left,
            right: self.right && other.right,
        }
    }

    /// Whether every side selected by `other` is also selected by `self`.
    pub open spec fn spec_contains(self, other: Borders) -> bool {
        &&& (other.top ==> self.top)
        &&& (other.bottom ==> self.bottom)
        &&& (other.left ==> self.left)
        &&& (other.right ==> self.right)
    }

    /// Whether some side is selected both by `self` and by `other`.
    pub open spec fn spec_intersects(self, other: Borders) -> bool {
        ||| (self.top && other.top)
        ||| (self.bottom && other.bottom)
        ||| (self.left && other.left)
        ||| (self.right && other.right)
    }

    /// Whether no side is selected.
    pub open spec fn spec_is_empty(self) -> bool {
        !self.top && !self.bottom && !self.left && !self.right
    }

    pub fn none() -> (r: Borders)
        ensures
            r == Borders::spec_none(),
    {
        Borders { top: false, bottom: false, left: false, right: false }
    }

    pub fn all() -> (r: Borders)
        ensures
            r == Borders::spec_all(),
    {
        Borders { top: true, bottom: true, left: true, right: true }
    }

    /// The selector holding only the top side.
    pub fn top() -> (r: Borders)
        ensures
            r == (Borders { top: true, ..Borders::spec_none() }),
    {
        Borders { top: true, ..Borders::none() }
    }

    /// The selector holding only the bottom side.
    pub fn bottom() -> (r: Borders)
        ensures
            r == (Borders { bottom: true, ..Borders::spec_none() }),
    {
        Borders { bottom: true, ..Borders::none() }
    }

    /// The selector holding only the left side.
    pub fn left() -> (r: Borders)
        ensures
            r == (Borders { left: true, ..Borders::spec_none() }),
    {
        Borders { left: true, ..Borders::none() }
    }

    /// The selector holding only the right side.
    pub fn right() -> (r: Borders)
        ensures
            r == (Borders { right: true, ..Borders::spec_none() }),
    {
        Borders { right: true, ..Borders::none() }
    }

    pub fn union(self, other: Borders) -> (r: Borders)
        ensures
            r == self.spec_union(other),
    {
        Borders {
            top: self.top || other.top,
            bottom: self.bottom || other.bottom,
            left: self.left || other.left,
            right: self.right || other.right,
        }
    }

    pub fn intersection(self, other: Borders) -> (r: Borders)
        ensures
            r == self.spec_intersection(other),
    {
        Borders {
            top: self.top && other.top,
            bottom: self.bottom && other.bottom,
            left: self.left && other.left,
            right: self.right && other.right,
        }
    }

    pub fn contains(self, other: Borders) -> (r: bool)
        ensures
            r == self.spec_contains(other),
    {
        (!other.top || self.top) && (!other.bottom || self.bottom) && (!other.left || self.left)
            && (!other.right || self.right)
    }

    pub fn intersects(self, other: Borders) -> (r: bool)
        ensures
            r == self.spec_intersects(other),
    {
        (self.top && other.top) || (self.bottom && other.bottom) || (self.left && other.left) || (
        self.right && other.right)
    }

    pub fn is_empty(self) -> (r: bool)
        ensures
            r == self.spec_is_empty(),
    {
        !self.top && !self.bottom && !self.left && !self.right
    }
}

} // verus!
