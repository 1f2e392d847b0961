use vstd::prelude::*;

verus! {

/// Four independent insets applied inside a frame's borders and title
/// rows.
#[derive(Clone, Copy, Debug, Default, PartialEq, Eq, Structural, Hash)]
pub struct Padding {
    pub left: u16,
    pub right: u16,
    pub top: u16,
    pub bottom: u16,
}

impl Padding {
    /// Builds a padding value from its four insets.
    pub fn new(left: u16, right: u16, top: u16, bottom: u16) -> (r: Padding)
        ensures
            r == (Padding { left, right, top, bottom }),
    {
        Padding { left, right, top, bottom }
    }

    /// No padding on any side.
    pub fn zero() -> (r: Padding)
        ensures
            r == (Padding { left: 0, right: 0, top: 0, bottom: 0 }),
    {
        Padding { left: 0, right: 0, top: 0, bottom: 0 }
    }

    /// The same padding on all four sides.
    pub fn uniform(value: u16) -> (r: Padding)
        ensures
            r == (Padding { left: value, right: value, top: value, bottom: value }),
    {
        Padding { left: value, right: value, top: value, bottom: value }
    }

    /// Padding on the left and right sides only.
    pub fn horizontal(value: u16) -> (r: Padding)
        ensures
            r == (Padding { left: value, right: value, top: 0, bottom: 0 }),
    {
        Padding { left: value, right: value, top: 0, bottom: 0 }
    }

    /// Padding on the top and bottom sides only.
    pub fn vertical(value: u16) -> (r: Padding)
        ensures
            r == (Padding { left: 0, right: 0, top: value, bottom: value }),
    {
        Padding { left: 0, right: 0, top: value, bottom: value }
    }
}

} // verus!
