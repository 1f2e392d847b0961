use vstd::prelude::*;
use crate::borders::Borders;

verus! {

/// A table of the thirteen glyphs used to draw a frame border: four
/// corners, four edge glyphs, four three-way junctions and the four-way
/// cross.
///
/// Every glyph used as a corner or edge value should also be resolvable by
/// [`BorderSet::line_parts_from_symbol`]; a table that breaks this (for
/// example by using a blank for an unused junction) degrades silently when
/// borders are merged: the unresolvable cell is left untouched.
#[derive(Clone, Copy, Debug, PartialEq, Eq, Hash)]
pub struct BorderSet {
    pub top_left: char,
    pub top_right: char,
    pub bottom_left: char,
    pub bottom_right: char,
    pub vertical_left: char,
    pub vertical_right: char,
    pub horizontal_top: char,
    pub horizontal_bottom: char,
    pub vertical_t_left: char,
    pub vertical_t_right: char,
    pub horizontal_t_down: char,
    pub horizontal_t_up: char,
    pub cross: char,
}

/// The set of cardinal directions a box-drawing glyph visually extends
/// toward. Two partial borders meeting in a cell are combined by taking
/// the union of their direction masks and looking the result up again.
#[derive(Clone, Copy, Debug, PartialEq, Eq, Structural, Hash)]
pub struct LineParts {
    pub up: bool,
    pub down: bool,
    pub left: bool,
    pub right: bool,
}

/// Shorthand for building a direction mask.
pub open spec fn spec_parts(up: bool, down: bool, left: bool, right: bool) -> LineParts {
    LineParts { up, down, left, right }
}

pub fn parts(up: bool, down: bool, left: bool, right: bool) -> (r: LineParts)
    ensures
        r == spec_parts(up, down, left, right),
{
    LineParts { up, down, left, right }
}

impl LineParts {
    /// The directions present in `self` or in `other`.
    pub open spec fn spec_union(self, other: LineParts) -> LineParts {
        LineParts {
            up: self.up || other.up,
            down: self.down || other.down,
            left: self.left || other.left,
            right: self.right || other.right,
        }
    }

    pub fn union(self, other: LineParts) -> (r: LineParts)
        ensures
            r == self.spec_union(other),
    {
        LineParts {
            up: self.up || other.up,
            down: self.down || other.down,
            left: self.left || other.left,
            right: self.right || other.right,
        }
    }

    /// The directions a merged edge contributes at a corner it touches: the
    /// arm that points from the shared edge into this frame's area.
    pub open spec fn spec_from_borders(borders: Borders) -> LineParts {
        LineParts { up: borders.bottom, down: borders.top, left: borders.right, right: borders.left }
    }

    pub fn from_borders(borders: Borders) -> (r: LineParts)
        ensures
            r == LineParts::spec_from_borders(borders),
    {
        LineParts { up: borders.bottom, down: borders.top, left: borders.right, right: borders.left }
    }
}

impl BorderSet {
    /// Scans the thirteen glyph fields for an exact match and returns the
    /// direction mask of the first role using that glyph, or `None` when no
    /// role uses it.
    pub open spec fn spec_line_parts_from_symbol(self, symbol: char) -> Option<LineParts> {
        if symbol == self.top_left {
            Some(spec_parts(false, true, false, true))
        } else if symbol == self.top_right {
            Some(spec_parts(false, true, true, false))
        } else if symbol == self.bottom_left {
            Some(spec_parts(true, false, false, true))
        } else if symbol == self.bottom_right {
            Some(spec_parts(true, false, true, false))
        } else if symbol == self.vertical_left {
            Some(spec_parts(true, true, false, false))
        } else if symbol == self.vertical_right {
            Some(spec_parts(true, true, false, false))
        } else if symbol == self.horizontal_top {
            Some(spec_parts(false, false, true, true))
        } else if symbol == self.horizontal_bottom {
            Some(spec_parts(false, false, true, true))
        } else if symbol == self.vertical_t_left {
            Some(spec_parts(true, true, true, false))
        } else if symbol == self.vertical_t_right {
            Some(spec_parts(true, true, false, true))
        } else if symbol == self.horizontal_t_down {
            Some(spec_parts(false, true, true, true))
        } else if symbol == self.horizontal_t_up {
            Some(spec_parts(true, false, true, true))
        } else if symbol == self.cross {
            Some(spec_parts(true, true, true, true))
        } else {
            None
        }
    }

    pub fn line_parts_from_symbol(&self, symbol: char) -> (r: Option<LineParts>)
        ensures
            r == self.spec_line_parts_from_symbol(symbol),
    {
        if symbol == self.top_left {
            Some(parts(false, true, false, true))
        } else if symbol == self.top_right {
            Some(parts(false, true, true, false))
        } else if symbol == self.bottom_left {
            Some(parts(true, false, false, true))
        } else if symbol == self.bottom_right {
            Some(parts(true, false, true, false))
        } else if symbol == self.vertical_left {
            Some(parts(true, true, false, false))
        } else if symbol == self.vertical_right {
            Some(parts(true, true, false, false))
        } else if symbol == self.horizontal_top {
            Some(parts(false, false, true, true))
        } else if symbol == self.horizontal_bottom {
            Some(parts(false, false, true, true))
        } else if symbol == self.vertical_t_left {
            Some(parts(true, true, true, false))
        } else if symbol == self.vertical_t_right {
            Some(parts(true, true, false, true))
        } else if symbol == self.horizontal_t_down {
            Some(parts(false, true, true, true))
        } else if symbol == self.horizontal_t_up {
            Some(parts(true, false, true, true))
        } else if symbol == self.cross {
            Some(parts(true, true, true, true))
        } else {
            None
        }
    }

    /// Maps a direction mask back to the glyph of the role drawn that way.
    /// Masks with fewer than two directions name no glyph.
    pub open spec fn spec_symbol_from_line_parts(self, p: LineParts) -> Option<char> {
        if p.up && p.down && p.left && p.right {
            Some(self.cross)
        } else if p.up && p.down && p.left {
            Some(self.vertical_t_left)
        } else if p.up && p.down && p.right {
            Some(self.vertical_t_right)
        } else if p.down && p.left && p.right {
            Some(self.horizontal_t_down)
        } else if p.up && p.left && p.right {
            Some(self.horizontal_t_up)
        } else if p.down && p.right {
            Some(self.top_left)
        } else if p.down && p.left {
            Some(self.top_right)
        } else if p.up && p.right {
            Some(self.bottom_left)
        } else if p.up && p.left {
            Some(self.bottom_right)
        } else if p.up && p.down {
            Some(self.vertical_left)
        } else if p.left && p.right {
            Some(self.horizontal_top)
        } else {
            None
        }
    }

    pub fn symbol_from_line_parts(&self, p: LineParts) -> (r: Option<char>)
        ensures
            r == self.spec_symbol_from_line_parts(p),
    {
        if p.up && p.down && p.left && p.right {
            Some(self.cross)
        } else if p.up && p.down && p.left {
            Some(self.vertical_t_left)
        } else if p.up && p.down && p.right {
            Some(self.vertical_t_right)
        } else if p.down && p.left && p.right {
            Some(self.horizontal_t_down)
        } else if p.up && p.left && p.right {
            Some(self.horizontal_t_up)
        } else if p.down && p.right {
            Some(self.top_left)
        } else if p.down && p.left {
            Some(self.top_right)
        } else if p.up && p.right {
            Some(self.bottom_left)
        } else if p.up && p.left {
            Some(self.bottom_right)
        } else if p.up && p.down {
            Some(self.vertical_left)
        } else if p.left && p.right {
            Some(self.horizontal_top)
        } else {
            None
        }
    }

    /// A table is invertible when looking a glyph up again yields exactly
    /// the mask it was produced from. The four line-drawing themes are;
    /// the two quadrant themes are not, since they share one block glyph
    /// among all junction roles.
    pub open spec fn spec_invertible(self) -> bool {
        forall|p: LineParts|
            (#[trigger] self.spec_symbol_from_line_parts(p)) matches Some(sym)
                ==> self.spec_line_parts_from_symbol(sym) == Some(p)
    }

    /// Merging never loses a corner it resolved: every glyph the reverse
    /// lookup can resolve extends at least two ways, so its mask unioned
    /// with any merged arms names a glyph again.
    pub proof fn lemma_composed_mask_resolves(self, symbol: char, arms: LineParts)
        ensures
            self.spec_line_parts_from_symbol(symbol) matches Some(p)
                ==> self.spec_symbol_from_line_parts(p.spec_union(arms)) is Some,
    {
    }
}

/// The plain line-drawing theme.
pub open spec fn spec_plain() -> BorderSet {
    BorderSet {
        top_left: '┌',
        top_right: '┐',
        bottom_left: '└',
        bottom_right: '┘',
        vertical_left: '│',
        vertical_right: '│',
        horizontal_top: '─',
        horizontal_bottom: '─',
        vertical_t_left: '┤',
        vertical_t_right: '├',
        horizontal_t_down: '┬',
        horizontal_t_up: '┴',
        cross: '┼',
    }
}

pub fn plain() -> (r: BorderSet)
    ensures
        r == spec_plain(),
{
    BorderSet {
        top_left: '┌',
        top_right: '┐',
        bottom_left: '└',
        bottom_right: '┘',
        vertical_left: '│',
        vertical_right: '│',
        horizontal_top: '─',
        horizontal_bottom: '─',
        vertical_t_left: '┤',
        vertical_t_right: '├',
        horizontal_t_down: '┬',
        horizontal_t_up: '┴',
        cross: '┼',
    }
}

/// The plain theme with rounded corners.
pub open spec fn spec_rounded() -> BorderSet {
    BorderSet { top_left: '╭', top_right: '╮', bottom_left: '╰', bottom_right: '╯', ..spec_plain() }
}

pub fn rounded() -> (r: BorderSet)
    ensures
        r == spec_rounded(),
{
    BorderSet { top_left: '╭', top_right: '╮', bottom_left: '╰', bottom_right: '╯', ..plain() }
}

/// The doubled line theme.
pub open spec fn spec_double() -> BorderSet {
    BorderSet {
        top_left: '╔',
        top_right: '╗',
        bottom_left: '╚',
        bottom_right: '╝',
        vertical_left: '║',
        vertical_right: '║',
        horizontal_top: '═',
        horizontal_bottom: '═',
        vertical_t_left: '╣',
        vertical_t_right: '╠',
        horizontal_t_down: '╦',
        horizontal_t_up: '╩',
        cross: '╬',
    }
}

pub fn double() -> (r: BorderSet)
    ensures
        r == spec_double(),
{
    BorderSet {
        top_left: '╔',
        top_right: '╗',
        bottom_left: '╚',
        bottom_right: '╝',
        vertical_left: '║',
        vertical_right: '║',
        horizontal_top: '═',
        horizontal_bottom: '═',
        vertical_t_left: '╣',
        vertical_t_right: '╠',
        horizontal_t_down: '╦',
        horizontal_t_up: '╩',
        cross: '╬',
    }
}

/// The thick line theme.
pub open spec fn spec_thick() -> BorderSet {
    BorderSet {
        top_left: '┏',
        top_right: '┓',
        bottom_left: '┗',
        bottom_right: '┛',
        vertical_left: '┃',
        vertical_right: '┃',
        horizontal_top: '━',
        horizontal_bottom: '━',
        vertical_t_left: '┫',
        vertical_t_right: '┣',
        horizontal_t_down: '┳',
        horizontal_t_up: '┻',
        cross: '╋',
    }
}

pub fn thick() -> (r: BorderSet)
    ensures
        r == spec_thick(),
{
    BorderSet {
        top_left: '┏',
        top_right: '┓',
        bottom_left: '┗',
        bottom_right: '┛',
        vertical_left: '┃',
        vertical_right: '┃',
        horizontal_top: '━',
        horizontal_bottom: '━',
        vertical_t_left: '┫',
        vertical_t_right: '┣',
        horizontal_t_down: '┳',
        horizontal_t_up: '┻',
        cross: '╋',
    }
}

/// A single line drawn on the inside edge of half blocks.
pub open spec fn spec_quadrant_inside() -> BorderSet {
    BorderSet {
        top_left: '▗',
        top_right: '▖',
        bottom_left: '▝',
        bottom_right: '▘',
        vertical_left: '▐',
        vertical_right: '▌',
        horizontal_top: '▄',
        horizontal_bottom: '▀',
        vertical_t_left: '█',
        vertical_t_right: '█',
        horizontal_t_down: '█',
        horizontal_t_up: '█',
        cross: '█',
    }
}

pub fn quadrant_inside() -> (r: BorderSet)
    ensures
        r == spec_quadrant_inside(),
{
    BorderSet {
        top_left: '▗',
        top_right: '▖',
        bottom_left: '▝',
        bottom_right: '▘',
        vertical_left: '▐',
        vertical_right: '▌',
        horizontal_top: '▄',
        horizontal_bottom: '▀',
        vertical_t_left: '█',
        vertical_t_right: '█',
        horizontal_t_down: '█',
        horizontal_t_up: '█',
        cross: '█',
    }
}

/// A single line drawn on the outside edge of half blocks.
pub open spec fn spec_quadrant_outside() -> BorderSet {
    BorderSet {
        top_left: '▛',
        top_right: '▜',
        bottom_left: '▙',
        bottom_right: '▟',
        vertical_left: '▌',
        vertical_right: '▐',
        horizontal_top: '▀',
        horizontal_bottom: '▄',
        vertical_t_left: '█',
        vertical_t_right: '█',
        horizontal_t_down: '█',
        horizontal_t_up: '█',
        cross: '█',
    }
}

pub fn quadrant_outside() -> (r: BorderSet)
    ensures
        r == spec_quadrant_outside(),
{
    BorderSet {
        top_left: '▛',
        top_right: '▜',
        bottom_left: '▙',
        bottom_right: '▟',
        vertical_left: '▌',
        vertical_right: '▐',
        horizontal_top: '▀',
        horizontal_bottom: '▄',
        vertical_t_left: '█',
        vertical_t_right: '█',
        horizontal_t_down: '█',
        horizontal_t_up: '█',
        cross: '█',
    }
}

/// The four line-drawing themes resolve every glyph back to the mask it
/// was produced from.
pub proof fn lemma_line_themes_invertible()
    ensures
        spec_plain().spec_invertible(),
        spec_rounded().spec_invertible(),
        spec_double().spec_invertible(),
        spec_thick().spec_invertible(),
{
}

} // verus!
