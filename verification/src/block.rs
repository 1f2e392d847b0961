use vstd::prelude::*;
use crate::borders::Borders;
use crate::buffer::Buffer;
use crate::buffer::Cell;
use crate::buffer::grid_get;
use crate::buffer::grid_hline;
use crate::buffer::grid_text;
use crate::buffer::grid_put;
use crate::buffer::grid_set_cell;
use crate::buffer::grid_style_rect;
use crate::buffer::grid_style_row;
use crate::buffer::grid_vline;
use crate::geometry::Rect;
use crate::geometry::max_i;
use crate::geometry::min_i;
use crate::geometry::sat_add;
use crate::geometry::sat_sub;
use crate::padding::Padding;
use crate::style::Style;
use crate::symbols::BorderSet;
use crate::symbols::LineParts;
use crate::symbols::spec_double;
use crate::symbols::spec_plain;
use crate::symbols::spec_quadrant_inside;
use crate::symbols::spec_quadrant_outside;
use crate::symbols::spec_rounded;
use crate::symbols::spec_thick;
use crate::symbols::double;
use crate::symbols::plain;
use crate::symbols::quadrant_inside;
use crate::symbols::quadrant_outside;
use crate::symbols::rounded;
use crate::symbols::thick;
use crate::title::Alignment;
use crate::title::Line;
use crate::title::Position;
use crate::title::Title;
use crate::title::TitleView;

verus! {

/// The border visual theme of a frame: one of the built-in glyph tables.
#[derive(Clone, Copy, Debug, Default, PartialEq, Eq, Structural, Hash)]
pub enum BorderType {
    #[default]
    Plain,
    Rounded,
    Double,
    Thick,
    QuadrantInside,
    QuadrantOutside,
}

impl BorderType {
    /// The glyph table of each theme.
    pub open spec fn spec_border_symbols(border_type: BorderType) -> BorderSet {
        match border_type {
            BorderType::Plain => spec_plain(),
            BorderType::Rounded => spec_rounded(),
            BorderType::Double => spec_double(),
            BorderType::Thick => spec_thick(),
            BorderType::QuadrantInside => spec_quadrant_inside(),
            BorderType::QuadrantOutside => spec_quadrant_outside(),
        }
    }

    /// Converts a theme into its table of border glyphs.
    pub fn border_symbols(border_type: BorderType) -> (r: BorderSet)
        ensures
            r == BorderType::spec_border_symbols(border_type),
    {
        match border_type {
            BorderType::Plain => plain(),
            BorderType::Rounded => rounded(),
            BorderType::Double => double(),
            BorderType::Thick => thick(),
            BorderType::QuadrantInside => quadrant_inside(),
            BorderType::QuadrantOutside => quadrant_outside(),
        }
    }

    /// Converts this theme into its table of border glyphs.
    pub fn to_border_set(self) -> (r: BorderSet)
        ensures
            r == BorderType::spec_border_symbols(self),
    {
        BorderType::border_symbols(self)
    }

    /// The name of each theme.
    pub open spec fn spec_name(border_type: BorderType) -> Seq<char> {
        match border_type {
            BorderType::Plain => "Plain"@,
            BorderType::Rounded => "Rounded"@,
            BorderType::Double => "Double"@,
            BorderType::Thick => "Thick"@,
            BorderType::QuadrantInside => "QuadrantInside"@,
            BorderType::QuadrantOutside => "QuadrantOutside"@,
        }
    }

    /// The theme's name, as written in its source declaration.
    pub fn name(&self) -> (r: String)
        ensures
            r@ == BorderType::spec_name(*self),
    {
        match self {
            BorderType::Plain => "Plain".to_owned(),
            BorderType::Rounded => "Rounded".to_owned(),
            BorderType::Double => "Double".to_owned(),
            BorderType::Thick => "Thick".to_owned(),
            BorderType::QuadrantInside => "QuadrantInside".to_owned(),
            BorderType::QuadrantOutside => "QuadrantOutside".to_owned(),
        }
    }

    /// The theme a name stands for, or `None` when the name matches no
    /// theme.
    pub open spec fn spec_from_name(name: Seq<char>) -> Option<BorderType> {
        if name == "Plain"@ {
            Some(BorderType::Plain)
        } else if name == "Rounded"@ {
            Some(BorderType::Rounded)
        } else if name == "Double"@ {
            Some(BorderType::Double)
        } else if name == "Thick"@ {
            Some(BorderType::Thick)
        } else if name == "QuadrantInside"@ {
            Some(BorderType::QuadrantInside)
        } else if name == "QuadrantOutside"@ {
            Some(BorderType::QuadrantOutside)
        } else {
            None
        }
    }

    /// Parses a theme from its name.
    pub fn from_name(name: &str) -> (r: Option<BorderType>)
        ensures
            r == BorderType::spec_from_name(name@),
    {
        if str_eq(name, "Plain") {
            Some(BorderType::Plain)
        } else if str_eq(name, "Rounded") {
            Some(BorderType::Rounded)
        } else if str_eq(name, "Double") {
            Some(BorderType::Double)
        } else if str_eq(name, "Thick") {
            Some(BorderType::Thick)
        } else if str_eq(name, "QuadrantInside") {
            Some(BorderType::QuadrantInside)
        } else if str_eq(name, "QuadrantOutside") {
            Some(BorderType::QuadrantOutside)
        } else {
            None
        }
    }
}

/// Character-wise string comparison.
fn str_eq(a: &str, b: &str) -> (r: bool)
    ensures
        r == (a@ == b@),
{
    let na = a.unicode_len();
    let nb = b.unicode_len();
    if na != nb {
        proof {
            assert(a@ != b@);
        }
        return false;
    }
    let mut i: usize = 0;
    while i < na
        invariant
            i <= na,
            na == a@.len(),
            na == b@.len(),
            forall|j: int| 0 <= j < i ==> a@[j] == b@[j],
        decreases na - i,
    {
        if a.get_char(i) != b.get_char(i) {
            return false;
        }
        i = i + 1;
    }
    proof {
        assert(a@ =~= b@);
    }
    true
}

/// A frame: the value describing one bordered, titled rectangle to be
/// painted onto a grid. It is built up with the configuration methods and
/// consumed by one [`Block::render`] call; it keeps no state between
/// renders.
#[derive(Debug, PartialEq, Eq, Hash)]
pub struct Block {
    /// The ordered titles of the frame.
    pub titles: Vec<Title>,
    /// The style merged under every title's own style.
    pub titles_style: Style,
    /// The default alignment of titles without one of their own.
    pub titles_alignment: Alignment,
    /// The default position of titles without one of their own.
    pub titles_position: Position,
    /// The sides this frame draws.
    pub borders: Borders,
    /// The sides a neighbouring frame draws on this frame's behalf; they
    /// are not redrawn here and their space is reclaimed.
    pub merge_borders: Borders,
    /// The style of the border glyphs.
    pub border_style: Style,
    /// The glyph table used to draw the border.
    pub border_set: BorderSet,
    /// The style merged onto every cell of the frame's area.
    pub style: Style,
    /// Insets applied inside the borders and title rows.
    pub padding: Padding,
}

impl Block {
    /// Creates a frame with no borders, no titles and no padding.
    pub fn new() -> (r: Block)
        ensures
            r.titles@ == Seq::<Title>::empty(),
            r.titles_style == Style::spec_new(),
            r.titles_alignment == Alignment::Left,
            r.titles_position == Position::Top,
            r.borders == Borders::spec_none(),
            r.merge_borders == Borders::spec_none(),
            r.border_style == Style::spec_new(),
            r.border_set == spec_plain(),
            r.style == Style::spec_new(),
            r.padding == (Padding { left: 0, right: 0, top: 0, bottom: 0 }),
    {
        Block {
            titles: Vec::new(),
            titles_style: Style::new(),
            titles_alignment: Alignment::Left,
            titles_position: Position::Top,
            borders: Borders::none(),
            merge_borders: Borders::none(),
            border_style: Style::new(),
            border_set: BorderType::Plain.to_border_set(),
            style: Style::new(),
            padding: Padding::zero(),
        }
    }

    /// Creates a frame with all four borders shown.
    pub fn bordered() -> (r: Block)
        ensures
            r.titles@ == Seq::<Title>::empty(),
            r.titles_style == Style::spec_new(),
            r.titles_alignment == Alignment::Left,
            r.titles_position == Position::Top,
            r.borders == Borders::spec_all(),
            r.merge_borders == Borders::spec_none(),
            r.border_style == Style::spec_new(),
            r.border_set == spec_plain(),
            r.style == Style::spec_new(),
            r.padding == (Padding { left: 0, right: 0, top: 0, bottom: 0 }),
    {
        let mut block = Block::new();
        block.borders = Borders::all();
        block
    }

    /// Appends a title to the frame. Titles in the same position and
    /// alignment are packed in the order they were added.
    pub fn title(self, title: Title) -> (r: Block)
        ensures
            r.titles@ == self.titles@.push(title),
            r.titles_style == self.titles_style,
            r.titles_alignment == self.titles_alignment,
            r.titles_position == self.titles_position,
            r.borders == self.borders,
            r.merge_borders == self.merge_borders,
            r.border_style == self.border_style,
            r.border_set == self.border_set,
            r.style == self.style,
            r.padding == self.padding,
    {
        let mut block = self;
        block.titles.push(title);
        block
    }

    /// Appends a title pinned to the top row, keeping the line's own
    /// alignment.
    pub fn title_top(self, title: Line) -> (r: Block)
        ensures
            r.titles@ == self.titles@.push(
                Title { alignment: title.alignment, position: Some(Position::Top), content: title },
            ),
            r.titles_style == self.titles_style,
            r.titles_alignment == self.titles_alignment,
            r.titles_position == self.titles_position,
            r.borders == self.borders,
            r.merge_borders == self.merge_borders,
            r.border_style == self.border_style,
            r.border_set == self.border_set,
            r.style == self.style,
            r.padding == self.padding,
    {
        let title = Title::from_line(title).position(Position::Top);
        let mut block = self;
        block.titles.push(title);
        block
    }

    /// Appends a title pinned to the bottom row, keeping the line's own
    /// alignment.
    pub fn title_bottom(self, title: Line) -> (r: Block)
        ensures
            r.titles@ == self.titles@.push(
                Title {
                    alignment: title.alignment,
                    position: Some(Position::Bottom),
                    content: title,
                },
            ),
            r.titles_style == self.titles_style,
            r.titles_alignment == self.titles_alignment,
            r.titles_position == self.titles_position,
            r.borders == self.borders,
            r.merge_borders == self.merge_borders,
            r.border_style == self.border_style,
            r.border_set == self.border_set,
            r.style == self.style,
            r.padding == self.padding,
    {
        let title = Title::from_line(title).position(Position::Bottom);
        let mut block = self;
        block.titles.push(title);
        block
    }

    /// Sets the style merged under every title's own style.
    pub fn title_style(self, style: Style) -> (r: Block)
        ensures
            r == (Block { titles_style: style, ..self }),
    {
        Block { titles_style: style, ..self }
    }

    /// Sets the default alignment for titles without one of their own.
    pub fn title_alignment(self, alignment: Alignment) -> (r: Block)
        ensures
            r == (Block { titles_alignment: alignment, ..self }),
    {
        Block { titles_alignment: alignment, ..self }
    }

    /// Sets the default position for titles without one of their own.
    pub fn title_position(self, position: Position) -> (r: Block)
        ensures
            r == (Block { titles_position: position, ..self }),
    {
        Block { titles_position: position, ..self }
    }

    /// Sets the style of the border glyphs.
    pub fn border_style(self, style: Style) -> (r: Block)
        ensures
            r == (Block { border_style: style, ..self }),
    {
        Block { border_style: style, ..self }
    }

    /// Sets the style merged onto every cell of the frame's area.
    pub fn style(self, style: Style) -> (r: Block)
        ensures
            r == (Block { style, ..self }),
    {
        Block { style, ..self }
    }

    /// Sets the style merged onto every cell of the frame's area.
    pub fn set_style(self, style: Style) -> (r: Block)
        ensures
            r == (Block { style, ..self }),
    {
        self.style(style)
    }

    /// Sets which borders this frame draws.
    pub fn borders(self, flag: Borders) -> (r: Block)
        ensures
            r == (Block { borders: flag, ..self }),
    {
        Block { borders: flag, ..self }
    }

    /// Sets the border glyphs from a named theme.
    pub fn border_type(self, border_type: BorderType) -> (r: Block)
        ensures
            r == (Block { border_set: BorderType::spec_border_symbols(border_type), ..self }),
    {
        let set = border_type.to_border_set();
        Block { border_set: set, ..self }
    }

    /// Sets the border glyphs from an explicit table.
    pub fn border_set(self, border_set: BorderSet) -> (r: Block)
        ensures
            r == (Block { border_set, ..self }),
    {
        Block { border_set, ..self }
    }

    /// Sets which of this frame's borders a neighbouring frame draws.
    pub fn merge_with(self, borders: Borders) -> (r: Block)
        ensures
            r == (Block { merge_borders: borders, ..self }),
    {
        Block { merge_borders: borders, ..self }
    }

    /// Sets the padding applied inside the borders and title rows.
    pub fn padding(self, padding: Padding) -> (r: Block)
        ensures
            r == (Block { padding, ..self }),
    {
        Block { padding, ..self }
    }

    /// The mathematical values of the frame's titles, in order.
    pub open spec fn spec_titles_views(self) -> Seq<TitleView> {
        title_views(self.titles@)
    }

    /// Whether some title of the frame resolves to `position`.
    pub open spec fn spec_has_title_at(self, position: Position) -> bool {
        exists|i: int|
            0 <= i < self.spec_titles_views().len() && (#[trigger] self.spec_titles_views()[i]).spec_resolved_position(
                self.titles_position,
            ) == position
    }

    /// Whether some title of the frame is painted at `position`, counting
    /// inherited default positions.
    pub fn have_title_at_position(&self, position: Position) -> (r: bool)
        ensures
            r == self.spec_has_title_at(position),
    {
        let n = self.titles.len();
        let mut i: usize = 0;
        while i < n
            invariant
                i <= n,
                n == self.titles@.len(),
                forall|j: int|
                    0 <= j < i
                        ==> (#[trigger] self.spec_titles_views()[j]).spec_resolved_position(
                        self.titles_position,
                    ) != position,
            decreases n - i,
        {
            let matches_here = self.titles[i].resolved_position(self.titles_position) == position;
            proof {
                assert(self.spec_titles_views()[i as int] == self.titles@[i as int]@);
            }
            if matches_here {
                return true;
            }
            i = i + 1;
        }
        false
    }

    /// The content rectangle of the frame: `area` inset by one on each side
    /// that shows a border or holds a title — unless a neighbour draws that
    /// side — then inset by the padding. All insets saturate; they never
    /// make a side negative.
    pub open spec fn spec_inner(self, area: Rect) -> Rect {
        let left_in = self.borders.left && !self.merge_borders.left;
        let top_in = (self.borders.top || self.spec_has_title_at(Position::Top))
            && !self.merge_borders.top;
        let right_in = self.borders.right && !self.merge_borders.right;
        let bottom_in = (self.borders.bottom || self.spec_has_title_at(Position::Bottom))
            && !self.merge_borders.bottom;
        let x1 = if left_in {
            min_i(sat_add(area.x as int, 1), area.spec_right())
        } else {
            area.x as int
        };
        let w1 = if left_in {
            sat_sub(area.width as int, 1)
        } else {
            area.width as int
        };
        let y1 = if top_in {
            min_i(sat_add(area.y as int, 1), area.spec_bottom())
        } else {
            area.y as int
        };
        let h1 = if top_in {
            sat_sub(area.height as int, 1)
        } else {
            area.height as int
        };
        let w2 = if right_in {
            sat_sub(w1, 1)
        } else {
            w1
        };
        let h2 = if bottom_in {
            sat_sub(h1, 1)
        } else {
            h1
        };
        Rect {
            x: sat_add(x1, self.padding.left as int) as u16,
            y: sat_add(y1, self.padding.top as int) as u16,
            width: sat_sub(sat_sub(w2, self.padding.left as int), self.padding.right as int) as u16,
            height: sat_sub(
                sat_sub(h2, self.padding.top as int),
                self.padding.bottom as int,
            ) as u16,
        }
    }

    /// Computes the content rectangle left inside the frame's borders,
    /// title rows and padding.
    pub fn inner(&self, area: Rect) -> (r: Rect)
        ensures
            r == self.spec_inner(area),
    {
        let mut inner = area;
        if self.borders.intersects(Borders::left()) && !self.merge_borders.intersects(
            Borders::left(),
        ) {
            let capped = inner.right();
            inner.x = if inner.x.saturating_add(1) < capped {
                inner.x.saturating_add(1)
            } else {
                capped
            };
            inner.width = inner.width.saturating_sub(1);
        }
        if (self.borders.intersects(Borders::top()) || self.have_title_at_position(Position::Top))
            && !self.merge_borders.intersects(Borders::top()) {
            let capped = inner.bottom();
            inner.y = if inner.y.saturating_add(1) < capped {
                inner.y.saturating_add(1)
            } else {
                capped
            };
            inner.height = inner.height.saturating_sub(1);
        }
        if self.borders.intersects(Borders::right()) && !self.merge_borders.intersects(
            Borders::right(),
        ) {
            inner.width = inner.width.saturating_sub(1);
        }
        if (self.borders.intersects(Borders::bottom()) || self.have_title_at_position(
            Position::Bottom,
        )) && !self.merge_borders.intersects(Borders::bottom()) {
            inner.height = inner.height.saturating_sub(1);
        }
        inner.x = inner.x.saturating_add(self.padding.left);
        inner.y = inner.y.saturating_add(self.padding.top);
        inner.width = inner.width.saturating_sub(self.padding.left).saturating_sub(
            self.padding.right,
        );
        inner.height = inner.height.saturating_sub(self.padding.top).saturating_sub(
            self.padding.bottom,
        );
        inner
    }

    /// The paint rectangle of the frame: `area` grown by one toward every
    /// merged side, reclaiming the line a neighbour draws there.
    pub open spec fn spec_compensated(self, area: Rect) -> Rect {
        let x = if self.merge_borders.left {
            sat_sub(area.x as int, 1)
        } else {
            area.x as int
        };
        let w1 = if self.merge_borders.left {
            sat_add(area.width as int, 1)
        } else {
            area.width as int
        };
        let w2 = if self.merge_borders.right {
            sat_add(w1, 1)
        } else {
            w1
        };
        let y = if self.merge_borders.top {
            sat_sub(area.y as int, 1)
        } else {
            area.y as int
        };
        let h1 = if self.merge_borders.top {
            sat_add(area.height as int, 1)
        } else {
            area.height as int
        };
        let h2 = if self.merge_borders.bottom {
            sat_add(h1, 1)
        } else {
            h1
        };
        Rect { x: x as u16, y: y as u16, width: w2 as u16, height: h2 as u16 }
    }

    /// Grows the rectangle toward every merged side, reclaiming the space
    /// gained from not drawing those borders here.
    pub fn compensate_area_rect(&self, area: Rect) -> (r: Rect)
        ensures
            r == self.spec_compensated(area),
    {
        let mut rect = area;
        if self.merge_borders.intersects(Borders::left()) {
            rect.x = rect.x.saturating_sub(1);
            rect.width = rect.width.saturating_add(1);
        }
        if self.merge_borders.intersects(Borders::right()) {
            rect.width = rect.width.saturating_add(1);
        }
        if self.merge_borders.intersects(Borders::top()) {
            rect.y = rect.y.saturating_sub(1);
            rect.height = rect.height.saturating_add(1);
        }
        if self.merge_borders.intersects(Borders::bottom()) {
            rect.height = rect.height.saturating_add(1);
        }
        rect
    }

    /// The rectangle the left and right edge painters may use: shrunk on a
    /// merged top or bottom so they never overwrite a corner a merge owns.
    pub open spec fn spec_vertical_border_rect(self, area: Rect) -> Rect {
        let y = if self.merge_borders.top {
            sat_add(area.y as int, 1)
        } else {
            area.y as int
        };
        let h1 = if self.merge_borders.top {
            sat_sub(area.height as int, 1)
        } else {
            area.height as int
        };
        let h2 = if self.merge_borders.bottom {
            sat_sub(h1, 1)
        } else {
            h1
        };
        Rect { y: y as u16, height: h2 as u16, ..area }
    }

    /// Shrinks the rectangle used to draw the left and right borders away
    /// from corners owned by a merged top or bottom edge.
    pub fn calculate_vertical_border_rect(&self, area: Rect) -> (r: Rect)
        ensures
            r == self.spec_vertical_border_rect(area),
    {
        let mut rect = area;
        if self.merge_borders.intersects(Borders::top()) {
            rect.y = rect.y.saturating_add(1);
            rect.height = rect.height.saturating_sub(1);
        }
        if self.merge_borders.intersects(Borders::bottom()) {
            rect.height = rect.height.saturating_sub(1);
        }
        rect
    }

    /// The rectangle the top and bottom edge painters may use: shrunk on a
    /// merged left or right so they never overwrite a corner a merge owns.
    pub open spec fn spec_horizontal_border_rect(self, area: Rect) -> Rect {
        let x = if self.merge_borders.left {
            sat_add(area.x as int, 1)
        } else {
            area.x as int
        };
        let w1 = if self.merge_borders.left {
            sat_sub(area.width as int, 1)
        } else {
            area.width as int
        };
        let w2 = if self.merge_borders.right {
            sat_sub(w1, 1)
        } else {
            w1
        };
        Rect { x: x as u16, width: w2 as u16, ..area }
    }

    /// Shrinks the rectangle used to draw the top and bottom borders away
    /// from corners owned by a merged left or right edge.
    pub fn calculate_horizontal_border_rect(&self, area: Rect) -> (r: Rect)
        ensures
            r == self.spec_horizontal_border_rect(area),
    {
        let mut rect = area;
        if self.merge_borders.intersects(Borders::left()) {
            rect.x = rect.x.saturating_add(1);
            rect.width = rect.width.saturating_sub(1);
        }
        if self.merge_borders.intersects(Borders::right()) {
            rect.width = rect.width.saturating_sub(1);
        }
        rect
    }

    /// The one-cell-tall rectangle titles at `position` are packed into:
    /// the frame's top or bottom row, excluding columns taken by a visible
    /// left or right border.
    pub open spec fn spec_titles_area(self, area: Rect, position: Position) -> Rect {
        let lb: int = if self.borders.left {
            1
        } else {
            0
        };
        let rb: int = if self.borders.right {
            1
        } else {
            0
        };
        Rect {
            x: sat_add(area.x as int, lb) as u16,
            y: (match position {
                Position::Top => area.spec_top(),
                Position::Bottom => sat_sub(area.spec_bottom(), 1),
            }) as u16,
            width: sat_sub(sat_sub(area.width as int, lb), rb) as u16,
            height: 1,
        }
    }

    /// The row rectangle available to titles at `position`.
    pub fn titles_area(&self, area: Rect, position: Position) -> (r: Rect)
        ensures
            r == self.spec_titles_area(area, position),
    {
        let left_border: u16 = if self.borders.contains(Borders::left()) {
            1
        } else {
            0
        };
        let right_border: u16 = if self.borders.contains(Borders::right()) {
            1
        } else {
            0
        };
        Rect {
            x: area.left().saturating_add(left_border),
            y: match position {
                Position::Top => area.top(),
                Position::Bottom => area.bottom().saturating_sub(1),
            },
            width: area.width.saturating_sub(left_border).saturating_sub(right_border),
            height: 1,
        }
    }
}

impl Block {
    /// The grid after the left edge is painted: the left column of `varea`
    /// filled with the left-vertical glyph, when the left border is visible
    /// and not drawn by a neighbour.
    pub open spec fn spec_left_side(self, varea: Rect, barea: Rect, s: Seq<Cell>) -> Seq<Cell> {
        if self.borders.left && !self.merge_borders.left {
            grid_vline(
                s,
                barea,
                varea.spec_left(),
                varea.spec_top(),
                varea.spec_bottom(),
                self.border_set.vertical_left,
                self.border_style,
            )
        } else {
            s
        }
    }

    /// Paints the left edge into the left column of `area`.
    pub fn render_left_side(&self, area: Rect, buf: &mut Buffer)
        requires
            old(buf).wf(),
        ensures
            final(buf).wf(),
            final(buf).area == old(buf).area,
            final(buf).content@ == self.spec_left_side(area, old(buf).area, old(buf).content@),
    {
        if self.borders.contains(Borders::left()) && !self.merge_borders.contains(
            Borders::left(),
        ) {
            let x = area.left();
            let y_end = area.bottom();
            let mut y = area.top();
            while y < y_end
                invariant
                    buf.wf(),
                    buf.area == old(buf).area,
                    y <= y_end,
                    grid_vline(
                        buf.content@,
                        buf.area,
                        x as int,
                        y as int,
                        y_end as int,
                        self.border_set.vertical_left,
                        self.border_style,
                    ) == grid_vline(
                        old(buf).content@,
                        buf.area,
                        x as int,
                        area.spec_top(),
                        y_end as int,
                        self.border_set.vertical_left,
                        self.border_style,
                    ),
                decreases y_end - y,
            {
                buf.put(x, y, self.border_set.vertical_left, self.border_style);
                y = y + 1;
            }
        }
    }

    /// The grid after the top edge is painted: the top row of `harea`
    /// filled with the top-horizontal glyph, when the top border is visible
    /// and not drawn by a neighbour.
    pub open spec fn spec_top_side(self, harea: Rect, barea: Rect, s: Seq<Cell>) -> Seq<Cell> {
        if self.borders.top && !self.merge_borders.top {
            grid_hline(
                s,
                barea,
                harea.spec_top(),
                harea.spec_left(),
                harea.spec_right(),
                self.border_set.horizontal_top,
                self.border_style,
            )
        } else {
            s
        }
    }

    /// Paints the top edge into the top row of `area`.
    pub fn render_top_side(&self, area: Rect, buf: &mut Buffer)
        requires
            old(buf).wf(),
        ensures
            final(buf).wf(),
            final(buf).area == old(buf).area,
            final(buf).content@ == self.spec_top_side(area, old(buf).area, old(buf).content@),
    {
        if self.borders.contains(Borders::top()) && !self.merge_borders.contains(Borders::top()) {
            let y = area.top();
            let x_end = area.right();
            let mut x = area.left();
            while x < x_end
                invariant
                    buf.wf(),
                    buf.area == old(buf).area,
                    x <= x_end,
                    grid_hline(
                        buf.content@,
                        buf.area,
                        y as int,
                        x as int,
                        x_end as int,
                        self.border_set.horizontal_top,
                        self.border_style,
                    ) == grid_hline(
                        old(buf).content@,
                        buf.area,
                        y as int,
                        area.spec_left(),
                        x_end as int,
                        self.border_set.horizontal_top,
                        self.border_style,
                    ),
                decreases x_end - x,
            {
                buf.put(x, y, self.border_set.horizontal_top, self.border_style);
                x = x + 1;
            }
        }
    }

    /// The grid after the right edge is painted into the last column of
    /// `varea`, when the right border is visible and not drawn by a
    /// neighbour.
    pub open spec fn spec_right_side(self, varea: Rect, barea: Rect, s: Seq<Cell>) -> Seq<Cell> {
        if self.borders.right && !self.merge_borders.right {
            grid_vline(
                s,
                barea,
                varea.spec_right() - 1,
                varea.spec_top(),
                varea.spec_bottom(),
                self.border_set.vertical_right,
                self.border_style,
            )
        } else {
            s
        }
    }

    /// Paints the right edge into the last column of `area`.
    pub fn render_right_side(&self, area: Rect, buf: &mut Buffer)
        requires
            old(buf).wf(),
            1 <= area.width,
        ensures
            final(buf).wf(),
            final(buf).area == old(buf).area,
            final(buf).content@ == self.spec_right_side(area, old(buf).area, old(buf).content@),
    {
        if self.borders.contains(Borders::right()) && !self.merge_borders.contains(
            Borders::right(),
        ) {
            let x = area.right() - 1;
            let y_end = area.bottom();
            let mut y = area.top();
            while y < y_end
                invariant
                    buf.wf(),
                    buf.area == old(buf).area,
                    y <= y_end,
                    grid_vline(
                        buf.content@,
                        buf.area,
                        x as int,
                        y as int,
                        y_end as int,
                        self.border_set.vertical_right,
                        self.border_style,
                    ) == grid_vline(
                        old(buf).content@,
                        buf.area,
                        x as int,
                        area.spec_top(),
                        y_end as int,
                        self.border_set.vertical_right,
                        self.border_style,
                    ),
                decreases y_end - y,
            {
                buf.put(x, y, self.border_set.vertical_right, self.border_style);
                y = y + 1;
            }
        }
    }

    /// The grid after the bottom edge is painted into the last row of
    /// `harea`, when the bottom border is visible and not drawn by a
    /// neighbour.
    pub open spec fn spec_bottom_side(self, harea: Rect, barea: Rect, s: Seq<Cell>) -> Seq<Cell> {
        if self.borders.bottom && !self.merge_borders.bottom {
            grid_hline(
                s,
                barea,
                harea.spec_bottom() - 1,
                harea.spec_left(),
                harea.spec_right(),
                self.border_set.horizontal_bottom,
                self.border_style,
            )
        } else {
            s
        }
    }

    /// Paints the bottom edge into the last row of `area`.
    pub fn render_bottom_side(&self, area: Rect, buf: &mut Buffer)
        requires
            old(buf).wf(),
            1 <= area.height,
        ensures
            final(buf).wf(),
            final(buf).area == old(buf).area,
            final(buf).content@ == self.spec_bottom_side(area, old(buf).area, old(buf).content@),
    {
        if self.borders.contains(Borders::bottom()) && !self.merge_borders.contains(
            Borders::bottom(),
        ) {
            let y = area.bottom() - 1;
            let x_end = area.right();
            let mut x = area.left();
            while x < x_end
                invariant
                    buf.wf(),
                    buf.area == old(buf).area,
                    x <= x_end,
                    grid_hline(
                        buf.content@,
                        buf.area,
                        y as int,
                        x as int,
                        x_end as int,
                        self.border_set.horizontal_bottom,
                        self.border_style,
                    ) == grid_hline(
                        old(buf).content@,
                        buf.area,
                        y as int,
                        area.spec_left(),
                        x_end as int,
                        self.border_set.horizontal_bottom,
                        self.border_style,
                    ),
                decreases x_end - x,
            {
                buf.put(x, y, self.border_set.horizontal_bottom, self.border_style);
                x = x + 1;
            }
        }
    }

    /// The merged-corner composition: the cell's glyph resolved back to a
    /// direction mask, unioned with the arms the merged edges contribute,
    /// and looked up again. `None` when nothing merges at this corner or
    /// the glyph cannot be resolved; the caller then leaves the merge
    /// alone.
    pub open spec fn spec_merged_corner_cell(self, cell: Cell, borders_to_merge: Borders) -> Option<
        Cell,
    > {
        if borders_to_merge.spec_is_empty() {
            None
        } else {
            match self.border_set.spec_line_parts_from_symbol(cell.symbol) {
                None => None,
                Some(p) => {
                    let target = p.spec_union(LineParts::spec_from_borders(borders_to_merge));
                    match self.border_set.spec_symbol_from_line_parts(target) {
                        None => None,
                        Some(sym) => Some(
                            cell.spec_with_symbol(sym).spec_with_style(self.border_style),
                        ),
                    }
                },
            }
        }
    }

    /// Composes a corner cell with the border lines merged into it.
    /// Returns whether the composition applied; on failure the cell is
    /// left untouched.
    pub fn render_merged_corner(&self, cell: &mut Cell, borders_to_merge: Borders) -> (merged:
        bool)
        ensures
            merged == (self.spec_merged_corner_cell(*old(cell), borders_to_merge) is Some),
            merged ==> Some(*final(cell)) == self.spec_merged_corner_cell(
                *old(cell),
                borders_to_merge,
            ),
            !merged ==> *final(cell) == *old(cell),
    {
        if borders_to_merge.is_empty() {
            return false;
        }
        let current_parts = self.border_set.line_parts_from_symbol(cell.symbol);
        match current_parts {
            None => false,
            Some(p) => {
                let target_parts = p.union(LineParts::from_borders(borders_to_merge));
                match self.border_set.symbol_from_line_parts(target_parts) {
                    None => false,
                    Some(corner_symbol) => {
                        let composed = cell.set_symbol(corner_symbol).set_style(self.border_style);
                        *cell = composed;
                        true
                    },
                }
            },
        }
    }

    /// The grid after one corner is resolved: a non-empty merge mask is
    /// composed onto the current cell; otherwise, when both adjoining
    /// edges are visible, the plain corner glyph is written; otherwise the
    /// cell is left untouched.
    pub open spec fn spec_corner(
        self,
        barea: Rect,
        s: Seq<Cell>,
        x: int,
        y: int,
        pair: Borders,
        corner_symbol: char,
    ) -> Seq<Cell> {
        let to_merge = self.merge_borders.spec_intersection(pair);
        match self.spec_merged_corner_cell(grid_get(s, barea, x, y), to_merge) {
            Some(c) => grid_set_cell(s, barea, x, y, c),
            None => if self.borders.spec_contains(pair) {
                grid_put(s, barea, x, y, corner_symbol, self.border_style)
            } else {
                s
            },
        }
    }

    /// Resolves the bottom-right corner of `area`.
    pub fn render_bottom_right_corner(&self, buf: &mut Buffer, area: Rect)
        requires
            old(buf).wf(),
            1 <= area.width,
            1 <= area.height,
            area.x + area.width <= u16::MAX,
            area.y + area.height <= u16::MAX,
            area.spec_inside(old(buf).area),
        ensures
            final(buf).wf(),
            final(buf).area == old(buf).area,
            final(buf).content@ == self.spec_corner(
                old(buf).area,
                old(buf).content@,
                area.spec_right() - 1,
                area.spec_bottom() - 1,
                Borders { right: true, bottom: true, ..Borders::spec_none() },
                self.border_set.bottom_right,
            ),
    {
        let x = area.right() - 1;
        let y = area.bottom() - 1;
        let pair = Borders::right().union(Borders::bottom());
        let borders_to_merge = self.merge_borders.intersection(pair);
        let mut corner_cell = buf.get(x, y);
        if self.render_merged_corner(&mut corner_cell, borders_to_merge) {
            buf.set_cell(x, y, corner_cell);
            return ;
        }
        if self.borders.contains(pair) {
            buf.put(x, y, self.border_set.bottom_right, self.border_style);
        }
    }

    /// Resolves the top-right corner of `area`.
    pub fn render_top_right_corner(&self, buf: &mut Buffer, area: Rect)
        requires
            old(buf).wf(),
            1 <= area.width,
            1 <= area.height,
            area.x + area.width <= u16::MAX,
            area.y + area.height <= u16::MAX,
            area.spec_inside(old(buf).area),
        ensures
            final(buf).wf(),
            final(buf).area == old(buf).area,
            final(buf).content@ == self.spec_corner(
                old(buf).area,
                old(buf).content@,
                area.spec_right() - 1,
                area.spec_top(),
                Borders { right: true, top: true, ..Borders::spec_none() },
                self.border_set.top_right,
            ),
    {
        let x = area.right() - 1;
        let y = area.top();
        let pair = Borders::right().union(Borders::top());
        let borders_to_merge = self.merge_borders.intersection(pair);
        let mut corner_cell = buf.get(x, y);
        if self.render_merged_corner(&mut corner_cell, borders_to_merge) {
            buf.set_cell(x, y, corner_cell);
            return ;
        }
        if self.borders.contains(pair) {
            buf.put(x, y, self.border_set.top_right, self.border_style);
        }
    }

    /// Resolves the bottom-left corner of `area`.
    pub fn render_bottom_left_corner(&self, buf: &mut Buffer, area: Rect)
        requires
            old(buf).wf(),
            1 <= area.width,
            1 <= area.height,
            area.x + area.width <= u16::MAX,
            area.y + area.height <= u16::MAX,
            area.spec_inside(old(buf).area),
        ensures
            final(buf).wf(),
            final(buf).area == old(buf).area,
            final(buf).content@ == self.spec_corner(
                old(buf).area,
                old(buf).content@,
                area.spec_left(),
                area.spec_bottom() - 1,
                Borders { left: true, bottom: true, ..Borders::spec_none() },
                self.border_set.bottom_left,
            ),
    {
        let x = area.left();
        let y = area.bottom() - 1;
        let pair = Borders::left().union(Borders::bottom());
        let borders_to_merge = self.merge_borders.intersection(pair);
        let mut corner_cell = buf.get(x, y);
        if self.render_merged_corner(&mut corner_cell, borders_to_merge) {
            buf.set_cell(x, y, corner_cell);
            return ;
        }
        if self.borders.contains(pair) {
            buf.put(x, y, self.border_set.bottom_left, self.border_style);
        }
    }

    /// Resolves the top-left corner of `area`.
    pub fn render_top_left_corner(&self, buf: &mut Buffer, area: Rect)
        requires
            old(buf).wf(),
            1 <= area.width,
            1 <= area.height,
            area.x + area.width <= u16::MAX,
            area.y + area.height <= u16::MAX,
            area.spec_inside(old(buf).area),
        ensures
            final(buf).wf(),
            final(buf).area == old(buf).area,
            final(buf).content@ == self.spec_corner(
                old(buf).area,
                old(buf).content@,
                area.spec_left(),
                area.spec_top(),
                Borders { left: true, top: true, ..Borders::spec_none() },
                self.border_set.top_left,
            ),
    {
        let x = area.left();
        let y = area.top();
        let pair = Borders::left().union(Borders::top());
        let borders_to_merge = self.merge_borders.intersection(pair);
        let mut corner_cell = buf.get(x, y);
        if self.render_merged_corner(&mut corner_cell, borders_to_merge) {
            buf.set_cell(x, y, corner_cell);
            return ;
        }
        if self.borders.contains(pair) {
            buf.put(x, y, self.border_set.top_left, self.border_style);
        }
    }

    /// The grid after the whole border pass: the four edges painted into
    /// their shrunk draw rectangles, then the four corners resolved, the
    /// bottom-right first and the top-left last.
    pub open spec fn spec_borders_rendered(self, area: Rect, barea: Rect, s: Seq<Cell>) -> Seq<
        Cell,
    > {
        let h = self.spec_horizontal_border_rect(area);
        let v = self.spec_vertical_border_rect(area);
        let s1 = self.spec_left_side(v, barea, s);
        let s2 = self.spec_top_side(h, barea, s1);
        let s3 = self.spec_right_side(v, barea, s2);
        let s4 = self.spec_bottom_side(h, barea, s3);
        let s5 = self.spec_corner(
            barea,
            s4,
            area.spec_right() - 1,
            area.spec_bottom() - 1,
            Borders { right: true, bottom: true, ..Borders::spec_none() },
            self.border_set.bottom_right,
        );
        let s6 = self.spec_corner(
            barea,
            s5,
            area.spec_right() - 1,
            area.spec_top(),
            Borders { right: true, top: true, ..Borders::spec_none() },
            self.border_set.top_right,
        );
        let s7 = self.spec_corner(
            barea,
            s6,
            area.spec_left(),
            area.spec_bottom() - 1,
            Borders { left: true, bottom: true, ..Borders::spec_none() },
            self.border_set.bottom_left,
        );
        self.spec_corner(
            barea,
            s7,
            area.spec_left(),
            area.spec_top(),
            Borders { left: true, top: true, ..Borders::spec_none() },
            self.border_set.top_left,
        )
    }

    /// Paints the four edges and resolves the four corners, strictly in
    /// that order: corner composition reads back the glyph an edge painter
    /// just wrote.
    pub fn render_borders(&self, area: Rect, buf: &mut Buffer)
        requires
            old(buf).wf(),
            1 <= area.width,
            1 <= area.height,
            area.x + area.width <= u16::MAX,
            area.y + area.height <= u16::MAX,
            area.spec_inside(old(buf).area),
        ensures
            final(buf).wf(),
            final(buf).area == old(buf).area,
            final(buf).content@ == self.spec_borders_rendered(
                area,
                old(buf).area,
                old(buf).content@,
            ),
    {
        let horizontal_border_rect = self.calculate_horizontal_border_rect(area);
        let vertical_border_rect = self.calculate_vertical_border_rect(area);

        self.render_left_side(vertical_border_rect, buf);
        self.render_top_side(horizontal_border_rect, buf);
        self.render_right_side(vertical_border_rect, buf);
        self.render_bottom_side(horizontal_border_rect, buf);

        self.render_bottom_right_corner(buf, area);
        self.render_top_right_corner(buf, area);
        self.render_bottom_left_corner(buf, area);
        self.render_top_left_corner(buf, area);
    }
}

/// The mathematical values of a sequence of titles, in order.
pub open spec fn title_views(titles: Seq<Title>) -> Seq<TitleView> {
    titles.map_values(|t: Title| t@)
}

/// A title's display width clamped to the widest possible row.
fn title_width16(title: &Title) -> (w: u16)
    ensures
        w as int == min_i(title@.spec_width(), u16::MAX as int),
{
    let len = title.content.content.len();
    if len < 65535 {
        len as u16
    } else {
        65535
    }
}

impl Block {
    /// Whether a title belongs to the pass over `position` and
    /// `alignment`, with unset attributes resolved to the frame defaults.
    pub open spec fn spec_title_selected(
        self,
        t: TitleView,
        position: Position,
        alignment: Alignment,
    ) -> bool {
        &&& t.spec_resolved_position(self.titles_position) == position
        &&& t.spec_resolved_alignment(self.titles_alignment) == alignment
    }

    /// The titles of the pass over `position` and `alignment`, scanning
    /// the frame's titles from index `i` on, in declaration order.
    pub open spec fn spec_filtered_from(
        self,
        position: Position,
        alignment: Alignment,
        i: int,
    ) -> Seq<TitleView>
        decreases self.titles@.len() - i,
    {
        if i < 0 || i >= self.titles@.len() {
            Seq::empty()
        } else if self.spec_title_selected(title_views(self.titles@)[i], position, alignment) {
            seq![title_views(self.titles@)[i]] + self.spec_filtered_from(position, alignment, i + 1)
        } else {
            self.spec_filtered_from(position, alignment, i + 1)
        }
    }

    /// The titles of the pass over `position` and `alignment`, in
    /// declaration order.
    pub open spec fn spec_filtered_titles(self, position: Position, alignment: Alignment) -> Seq<
        TitleView,
    > {
        self.spec_filtered_from(position, alignment, 0)
    }

    /// Materialises the titles that the pass over `position` and
    /// `alignment` paints, in declaration order.
    pub fn filtered_titles(&self, position: Position, alignment: Alignment) -> (r: Vec<Title>)
        ensures
            title_views(r@) == self.spec_filtered_titles(position, alignment),
    {
        let n = self.titles.len();
        let mut r: Vec<Title> = Vec::new();
        let mut i: usize = 0;
        while i < n
            invariant
                i <= n,
                n == self.titles@.len(),
                title_views(r@) + self.spec_filtered_from(position, alignment, i as int)
                    == self.spec_filtered_titles(position, alignment),
            decreases n - i,
        {
            let ghost views_before = title_views(r@);
            let title = &self.titles[i];
            proof {
                assert(title_views(self.titles@)[i as int] == self.titles@[i as int]@);
            }
            if title.resolved_position(self.titles_position) == position
                && title.resolved_alignment(self.titles_alignment) == alignment {
                r.push(title.clone());
                proof {
                    assert(title_views(r@) =~= views_before + seq![self.titles@[i as int]@]);
                    assert(views_before + seq![self.titles@[i as int]@]
                        + self.spec_filtered_from(position, alignment, i + 1) =~= views_before
                        + (seq![self.titles@[i as int]@] + self.spec_filtered_from(
                        position,
                        alignment,
                        i + 1,
                    )));
                }
            }
            i = i + 1;
        }
        proof {
            assert(title_views(r@) + self.spec_filtered_from(position, alignment, n as int)
                =~= title_views(r@));
        }
        r
    }

    /// The grid after one title is painted: the frame's title style merged
    /// over the title's rectangle, then the title's characters written on
    /// top with the title's own style, truncated to the rectangle.
    pub open spec fn spec_title_painted(
        self,
        barea: Rect,
        s: Seq<Cell>,
        t: TitleView,
        x: int,
        y: int,
        w: int,
    ) -> Seq<Cell> {
        let styled = grid_style_rect(
            s,
            barea,
            Rect { x: x as u16, y: y as u16, width: w as u16, height: 1 },
            self.titles_style,
        );
        grid_text(
            styled,
            barea,
            t.content.content,
            t.content.style,
            x,
            y,
            0,
            min_i(w, 0x10000 - x),
        )
    }

    /// A left-to-right packing pass: each title is painted at the cursor,
    /// truncated to the remaining width, and the cursor advances past the
    /// title and a one-column separator; the pass stops when no width
    /// remains.
    pub open spec fn spec_pack_ltr(
        self,
        barea: Rect,
        s: Seq<Cell>,
        titles: Seq<TitleView>,
        x: int,
        width: int,
        y: int,
    ) -> Seq<Cell>
        decreases titles.len(),
    {
        if titles.len() == 0 || width <= 0 {
            s
        } else {
            let t = titles[0];
            let tw = min_i(t.spec_width(), u16::MAX as int);
            let paint_w = min_i(tw, width);
            let s1 = self.spec_title_painted(barea, s, t, x, y, paint_w);
            self.spec_pack_ltr(
                barea,
                s1,
                titles.skip(1),
                sat_add(sat_add(x, tw), 1),
                sat_sub(sat_sub(width, tw), 1),
                y,
            )
        }
    }

    /// A right-anchored packing pass: titles are taken in reverse
    /// declaration order, each painted flush to the right edge of the
    /// shrinking band, floored at the band's left edge; the band loses the
    /// title's width and a one-column separator from the right.
    pub open spec fn spec_pack_rtl(
        self,
        barea: Rect,
        s: Seq<Cell>,
        titles: Seq<TitleView>,
        x: int,
        width: int,
        y: int,
    ) -> Seq<Cell>
        decreases titles.len(),
    {
        if titles.len() == 0 || width <= 0 {
            s
        } else {
            let t = titles.last();
            let tw = min_i(t.spec_width(), u16::MAX as int);
            let right = sat_add(x, width);
            let paint_x = max_i(sat_sub(right, tw), x);
            let paint_w = min_i(tw, width);
            let s1 = self.spec_title_painted(barea, s, t, paint_x, y, paint_w);
            self.spec_pack_rtl(barea, s1, titles.drop_last(), x, sat_sub(sat_sub(width, tw), 1), y)
        }
    }

    /// The sum over `titles` of each width plus a one-column separator,
    /// saturating, on top of `acc`.
    pub open spec fn spec_total_width(titles: Seq<TitleView>, acc: int) -> int
        decreases titles.len(),
    {
        if titles.len() == 0 {
            acc
        } else {
            Block::spec_total_width(
                titles.skip(1),
                sat_add(sat_add(acc, min_i(titles[0].spec_width(), u16::MAX as int)), 1),
            )
        }
    }

    /// The grid after the right-aligned titles at `position` are painted.
    pub open spec fn spec_right_titles_rendered(
        self,
        position: Position,
        area: Rect,
        barea: Rect,
        s: Seq<Cell>,
    ) -> Seq<Cell> {
        let ta = self.spec_titles_area(area, position);
        self.spec_pack_rtl(
            barea,
            s,
            self.spec_filtered_titles(position, Alignment::Right),
            ta.x as int,
            ta.width as int,
            ta.y as int,
        )
    }

    /// The grid after the centered titles at `position` are painted. The
    /// centered block starts at half the leftover of the full row width —
    /// independent of what other passes consumed — and is then packed left
    /// to right.
    pub open spec fn spec_center_titles_rendered(
        self,
        position: Position,
        area: Rect,
        barea: Rect,
        s: Seq<Cell>,
    ) -> Seq<Cell> {
        let ta = self.spec_titles_area(area, position);
        let ts = self.spec_filtered_titles(position, Alignment::Center);
        let total = sat_sub(Block::spec_total_width(ts, 0), 1);
        let x0 = sat_add(ta.x as int, sat_sub(ta.width as int, total) / 2);
        self.spec_pack_ltr(barea, s, ts, x0, ta.width as int, ta.y as int)
    }

    /// The grid after the left-aligned titles at `position` are painted.
    pub open spec fn spec_left_titles_rendered(
        self,
        position: Position,
        area: Rect,
        barea: Rect,
        s: Seq<Cell>,
    ) -> Seq<Cell> {
        let ta = self.spec_titles_area(area, position);
        self.spec_pack_ltr(
            barea,
            s,
            self.spec_filtered_titles(position, Alignment::Left),
            ta.x as int,
            ta.width as int,
            ta.y as int,
        )
    }

    /// Paints the right-aligned titles at `position`, in reverse
    /// declaration order, against the right edge of the title row.
    pub fn render_right_titles(&self, position: Position, area: Rect, buf: &mut Buffer)
        requires
            old(buf).wf(),
        ensures
            final(buf).wf(),
            final(buf).area == old(buf).area,
            final(buf).content@ == self.spec_right_titles_rendered(
                position,
                area,
                old(buf).area,
                old(buf).content@,
            ),
    {
        let titles = self.filtered_titles(position, Alignment::Right);
        let mut titles_area = self.titles_area(area, position);
        let ghost ta0 = titles_area;
        let mut idx = titles.len();
        proof {
            assert(title_views(titles@).take(titles@.len() as int) =~= title_views(titles@));
        }
        while idx > 0 && titles_area.width > 0
            invariant
                buf.wf(),
                buf.area == old(buf).area,
                idx <= titles@.len(),
                titles_area.x == ta0.x,
                titles_area.y == ta0.y,
                self.spec_pack_rtl(
                    buf.area,
                    buf.content@,
                    title_views(titles@).take(idx as int),
                    titles_area.x as int,
                    titles_area.width as int,
                    titles_area.y as int,
                ) == self.spec_pack_rtl(
                    buf.area,
                    old(buf).content@,
                    title_views(titles@),
                    ta0.x as int,
                    ta0.width as int,
                    ta0.y as int,
                ),
            decreases idx,
        {
            idx = idx - 1;
            let title = &titles[idx];
            proof {
                assert(title_views(titles@)[idx as int] == titles@[idx as int]@);
                assert(title_views(titles@).take(idx as int + 1).drop_last() =~= title_views(
                    titles@,
                ).take(idx as int));
                assert(title_views(titles@).take(idx as int + 1).last() == title_views(titles@)[idx as int]);
            }
            let title_width = title_width16(title);
            let right_edge = titles_area.right();
            let shifted = right_edge.saturating_sub(title_width);
            let paint_x = if shifted > titles_area.left() {
                shifted
            } else {
                titles_area.left()
            };
            let paint_w = if title_width < titles_area.width {
                title_width
            } else {
                titles_area.width
            };
            buf.set_style(
                Rect { x: paint_x, y: titles_area.y, width: paint_w, height: 1 },
                self.titles_style,
            );
            buf.put_text(
                &title.content.content,
                title.content.style,
                paint_x,
                titles_area.y,
                paint_w as usize,
            );
            titles_area.width = titles_area.width.saturating_sub(title_width).saturating_sub(1);
        }
        proof {
            if idx > 0 {
                assert(self.spec_pack_rtl(
                    buf.area,
                    buf.content@,
                    title_views(titles@).take(idx as int),
                    titles_area.x as int,
                    titles_area.width as int,
                    titles_area.y as int,
                ) == buf.content@);
            } else {
                assert(title_views(titles@).take(0) =~= Seq::<TitleView>::empty());
            }
            assert(title_views(titles@).take(titles@.len() as int) =~= title_views(titles@));
        }
    }

    /// Paints the centered titles at `position`, packed left to right from
    /// the centered start column.
    pub fn render_center_titles(&self, position: Position, area: Rect, buf: &mut Buffer)
        requires
            old(buf).wf(),
        ensures
            final(buf).wf(),
            final(buf).area == old(buf).area,
            final(buf).content@ == self.spec_center_titles_rendered(
                position,
                area,
                old(buf).area,
                old(buf).content@,
            ),
    {
        let titles = self.filtered_titles(position, Alignment::Center);
        let mut total: u16 = 0;
        let mut i: usize = 0;
        proof {
            assert(title_views(titles@).skip(0) =~= title_views(titles@));
        }
        while i < titles.len()
            invariant
                i <= titles@.len(),
                Block::spec_total_width(title_views(titles@).skip(i as int), total as int)
                    == Block::spec_total_width(title_views(titles@), 0),
            decreases titles@.len() - i,
        {
            proof {
                assert(title_views(titles@)[i as int] == titles@[i as int]@);
                assert(title_views(titles@).skip(i as int).skip(1) =~= title_views(titles@).skip(
                    i as int + 1,
                ));
            }
            let tw = title_width16(&titles[i]);
            total = total.saturating_add(tw).saturating_add(1);
            i = i + 1;
        }
        proof {
            assert(title_views(titles@).skip(titles@.len() as int) =~= Seq::<TitleView>::empty());
        }
        let total_width = total.saturating_sub(1);
        let ta = self.titles_area(area, position);
        let mut titles_area = Rect {
            x: ta.left().saturating_add(ta.width.saturating_sub(total_width) / 2),
            ..ta
        };
        self.pack_titles_ltr(&titles, &mut titles_area, buf);
    }

    /// Paints the left-aligned titles at `position`, packed left to right
    /// from the row's left edge.
    pub fn render_left_titles(&self, position: Position, area: Rect, buf: &mut Buffer)
        requires
            old(buf).wf(),
        ensures
            final(buf).wf(),
            final(buf).area == old(buf).area,
            final(buf).content@ == self.spec_left_titles_rendered(
                position,
                area,
                old(buf).area,
                old(buf).content@,
            ),
    {
        let titles = self.filtered_titles(position, Alignment::Left);
        let mut titles_area = self.titles_area(area, position);
        self.pack_titles_ltr(&titles, &mut titles_area, buf);
    }

    /// Packs `titles` left to right into the row `titles_area`, advancing
    /// the cursor past each title and a separator column.
    fn pack_titles_ltr(&self, titles: &Vec<Title>, titles_area: &mut Rect, buf: &mut Buffer)
        requires
            old(buf).wf(),
        ensures
            final(buf).wf(),
            final(buf).area == old(buf).area,
            final(buf).content@ == self.spec_pack_ltr(
                old(buf).area,
                old(buf).content@,
                title_views(titles@),
                old(titles_area).x as int,
                old(titles_area).width as int,
                old(titles_area).y as int,
            ),
    {
        let ghost ta0 = *titles_area;
        let mut idx: usize = 0;
        proof {
            assert(title_views(titles@).skip(0) =~= title_views(titles@));
        }
        while idx < titles.len() && titles_area.width > 0
            invariant
                buf.wf(),
                buf.area == old(buf).area,
                idx <= titles@.len(),
                titles_area.y == ta0.y,
                self.spec_pack_ltr(
                    buf.area,
                    buf.content@,
                    title_views(titles@).skip(idx as int),
                    titles_area.x as int,
                    titles_area.width as int,
                    titles_area.y as int,
                ) == self.spec_pack_ltr(
                    buf.area,
                    old(buf).content@,
                    title_views(titles@),
                    ta0.x as int,
                    ta0.width as int,
                    ta0.y as int,
                ),
            decreases titles@.len() - idx,
        {
            let title = &titles[idx];
            proof {
                assert(title_views(titles@)[idx as int] == titles@[idx as int]@);
                assert(title_views(titles@).skip(idx as int).skip(1) =~= title_views(titles@).skip(
                    idx as int + 1,
                ));
            }
            let title_width = title_width16(title);
            let paint_w = if title_width < titles_area.width {
                title_width
            } else {
                titles_area.width
            };
            buf.set_style(
                Rect { x: titles_area.x, y: titles_area.y, width: paint_w, height: 1 },
                self.titles_style,
            );
            buf.put_text(
                &title.content.content,
                title.content.style,
                titles_area.x,
                titles_area.y,
                paint_w as usize,
            );
            titles_area.x = titles_area.x.saturating_add(title_width).saturating_add(1);
            titles_area.width = titles_area.width.saturating_sub(title_width).saturating_sub(1);
            idx = idx + 1;
        }
        proof {
            if idx < titles@.len() {
                assert(self.spec_pack_ltr(
                    buf.area,
                    buf.content@,
                    title_views(titles@).skip(idx as int),
                    titles_area.x as int,
                    titles_area.width as int,
                    titles_area.y as int,
                ) == buf.content@);
            } else {
                assert(title_views(titles@).skip(idx as int) =~= Seq::<TitleView>::empty());
            }
        }
    }

    /// The grid after every title at `position` is painted: the
    /// right-aligned pass first, then the centered one, then the
    /// left-aligned one. Later passes paint on top where titles overflow.
    pub open spec fn spec_title_position_rendered(
        self,
        position: Position,
        area: Rect,
        barea: Rect,
        s: Seq<Cell>,
    ) -> Seq<Cell> {
        let s1 = self.spec_right_titles_rendered(position, area, barea, s);
        let s2 = self.spec_center_titles_rendered(position, area, barea, s1);
        self.spec_left_titles_rendered(position, area, barea, s2)
    }

    /// Paints every title at `position`. The pass order is the documented
    /// tie-break for overlap: right, then centered, then left.
    pub fn render_title_position(&self, position: Position, area: Rect, buf: &mut Buffer)
        requires
            old(buf).wf(),
        ensures
            final(buf).wf(),
            final(buf).area == old(buf).area,
            final(buf).content@ == self.spec_title_position_rendered(
                position,
                area,
                old(buf).area,
                old(buf).content@,
            ),
    {
        self.render_right_titles(position, area, buf);
        self.render_center_titles(position, area, buf);
        self.render_left_titles(position, area, buf);
    }

    /// The grid after all titles are painted, the top row first.
    pub open spec fn spec_titles_rendered(self, area: Rect, barea: Rect, s: Seq<Cell>) -> Seq<
        Cell,
    > {
        let s1 = self.spec_title_position_rendered(Position::Top, area, barea, s);
        self.spec_title_position_rendered(Position::Bottom, area, barea, s1)
    }

    /// Paints the titles of both rows.
    pub fn render_titles(&self, area: Rect, buf: &mut Buffer)
        requires
            old(buf).wf(),
        ensures
            final(buf).wf(),
            final(buf).area == old(buf).area,
            final(buf).content@ == self.spec_titles_rendered(
                area,
                old(buf).area,
                old(buf).content@,
            ),
    {
        self.render_title_position(Position::Top, area, buf);
        self.render_title_position(Position::Bottom, area, buf);
    }

    /// The grid after one full render of the frame: the paint area is the
    /// merge-compensated rectangle clipped to the grid; an empty paint
    /// area leaves the grid untouched; otherwise the frame style is
    /// merged over the paint area, the borders are painted, and the
    /// titles are painted on top.
    pub open spec fn spec_rendered(self, area: Rect, barea: Rect, s: Seq<Cell>) -> Seq<Cell> {
        let pa = self.spec_compensated(area).spec_intersection(barea);
        if pa.spec_is_empty() {
            s
        } else {
            let s1 = grid_style_rect(s, barea, pa, self.style);
            let s2 = self.spec_borders_rendered(pa, barea, s1);
            self.spec_titles_rendered(pa, barea, s2)
        }
    }

    /// Renders the frame onto the grid: styles the paint area, draws the
    /// borders, and paints the titles.
    pub fn render(&self, area: Rect, buf: &mut Buffer)
        requires
            old(buf).wf(),
        ensures
            final(buf).wf(),
            final(buf).area == old(buf).area,
            final(buf).content@ == self.spec_rendered(area, old(buf).area, old(buf).content@),
    {
        let area = self.compensate_area_rect(area).intersection(buf.area);
        if area.is_empty() {
            return ;
        }
        buf.set_style(area, self.style);
        self.render_borders(area, buf);
        self.render_titles(area, buf);
    }
}

impl Block {
    /// Whether the resolution of one corner may write its cell: some
    /// adjoining edge is merged there, or both adjoining edges are
    /// visible.
    pub open spec fn spec_corner_active(self, pair: Borders) -> bool {
        ||| !self.merge_borders.spec_intersection(pair).spec_is_empty()
        ||| self.borders.spec_contains(pair)
    }

    /// The cells of `area` the border pass may write: the four edge runs,
    /// where drawn, and the four corner cells, where active.
    pub open spec fn spec_border_cell(self, area: Rect, x: int, y: int) -> bool {
        let v = self.spec_vertical_border_rect(area);
        let h = self.spec_horizontal_border_rect(area);
        ||| (self.borders.left && !self.merge_borders.left && x == v.spec_left() && v.spec_top()
            <= y < v.spec_bottom())
        ||| (self.borders.top && !self.merge_borders.top && y == h.spec_top() && h.spec_left() <= x
            < h.spec_right())
        ||| (self.borders.right && !self.merge_borders.right && x == v.spec_right() - 1
            && v.spec_top() <= y < v.spec_bottom())
        ||| (self.borders.bottom && !self.merge_borders.bottom && y == h.spec_bottom() - 1
            && h.spec_left() <= x < h.spec_right())
        ||| (x == area.spec_right() - 1 && y == area.spec_bottom() - 1 && self.spec_corner_active(
            Borders { right: true, bottom: true, ..Borders::spec_none() },
        ))
        ||| (x == area.spec_right() - 1 && y == area.spec_top() && self.spec_corner_active(
            Borders { right: true, top: true, ..Borders::spec_none() },
        ))
        ||| (x == area.spec_left() && y == area.spec_bottom() - 1 && self.spec_corner_active(
            Borders { left: true, bottom: true, ..Borders::spec_none() },
        ))
        ||| (x == area.spec_left() && y == area.spec_top() && self.spec_corner_active(
            Borders { left: true, top: true, ..Borders::spec_none() },
        ))
    }

    /// Resolving a corner touches only its own cell, and an inactive
    /// corner touches nothing.
    pub proof fn lemma_corner_preserves(
        self,
        barea: Rect,
        s: Seq<Cell>,
        x: int,
        y: int,
        pair: Borders,
        corner_symbol: char,
        qx: int,
        qy: int,
    )
        ensures
            self.spec_corner(barea, s, x, y, pair, corner_symbol).len() == s.len(),
            !(qx == x && qy == y) ==> grid_get(
                self.spec_corner(barea, s, x, y, pair, corner_symbol),
                barea,
                qx,
                qy,
            ) == grid_get(s, barea, qx, qy),
            !self.spec_corner_active(pair) ==> self.spec_corner(barea, s, x, y, pair, corner_symbol)
                == s,
    {
        let to_merge = self.merge_borders.spec_intersection(pair);
        let composed = self.spec_merged_corner_cell(grid_get(s, barea, x, y), to_merge);
        if composed is Some {
            if !(qx == x && qy == y) {
                crate::buffer::lemma_grid_set_cell_preserves(
                    s,
                    barea,
                    x,
                    y,
                    composed.unwrap(),
                    qx,
                    qy,
                );
            }
        } else {
            if self.borders.spec_contains(pair) && !(qx == x && qy == y) {
                crate::buffer::lemma_grid_put_preserves(
                    s,
                    barea,
                    x,
                    y,
                    corner_symbol,
                    self.border_style,
                    qx,
                    qy,
                );
            }
        }
    }

    /// The border pass leaves every cell outside its edge runs and active
    /// corners untouched.
    pub proof fn lemma_borders_rendered_preserves(
        self,
        area: Rect,
        barea: Rect,
        s: Seq<Cell>,
        qx: int,
        qy: int,
    )
        requires
            !self.spec_border_cell(area, qx, qy),
        ensures
            self.spec_borders_rendered(area, barea, s).len() == s.len(),
            grid_get(self.spec_borders_rendered(area, barea, s), barea, qx, qy) == grid_get(
                s,
                barea,
                qx,
                qy,
            ),
    {
        let h = self.spec_horizontal_border_rect(area);
        let v = self.spec_vertical_border_rect(area);
        let s1 = self.spec_left_side(v, barea, s);
        if self.borders.left && !self.merge_borders.left {
            crate::buffer::lemma_grid_vline_preserves(
                s,
                barea,
                v.spec_left(),
                v.spec_top(),
                v.spec_bottom(),
                self.border_set.vertical_left,
                self.border_style,
                qx,
                qy,
            );
        }
        let s2 = self.spec_top_side(h, barea, s1);
        if self.borders.top && !self.merge_borders.top {
            crate::buffer::lemma_grid_hline_preserves(
                s1,
                barea,
                h.spec_top(),
                h.spec_left(),
                h.spec_right(),
                self.border_set.horizontal_top,
                self.border_style,
                qx,
                qy,
            );
        }
        let s3 = self.spec_right_side(v, barea, s2);
        if self.borders.right && !self.merge_borders.right {
            crate::buffer::lemma_grid_vline_preserves(
                s2,
                barea,
                v.spec_right() - 1,
                v.spec_top(),
                v.spec_bottom(),
                self.border_set.vertical_right,
                self.border_style,
                qx,
                qy,
            );
        }
        let s4 = self.spec_bottom_side(h, barea, s3);
        if self.borders.bottom && !self.merge_borders.bottom {
            crate::buffer::lemma_grid_hline_preserves(
                s3,
                barea,
                h.spec_bottom() - 1,
                h.spec_left(),
                h.spec_right(),
                self.border_set.horizontal_bottom,
                self.border_style,
                qx,
                qy,
            );
        }
        let s5 = self.spec_corner(
            barea,
            s4,
            area.spec_right() - 1,
            area.spec_bottom() - 1,
            Borders { right: true, bottom: true, ..Borders::spec_none() },
            self.border_set.bottom_right,
        );
        self.lemma_corner_preserves(
            barea,
            s4,
            area.spec_right() - 1,
            area.spec_bottom() - 1,
            Borders { right: true, bottom: true, ..Borders::spec_none() },
            self.border_set.bottom_right,
            qx,
            qy,
        );
        let s6 = self.spec_corner(
            barea,
            s5,
            area.spec_right() - 1,
            area.spec_top(),
            Borders { right: true, top: true, ..Borders::spec_none() },
            self.border_set.top_right,
        );
        self.lemma_corner_preserves(
            barea,
            s5,
            area.spec_right() - 1,
            area.spec_top(),
            Borders { right: true, top: true, ..Borders::spec_none() },
            self.border_set.top_right,
            qx,
            qy,
        );
        let s7 = self.spec_corner(
            barea,
            s6,
            area.spec_left(),
            area.spec_bottom() - 1,
            Borders { left: true, bottom: true, ..Borders::spec_none() },
            self.border_set.bottom_left,
        );
        self.lemma_corner_preserves(
            barea,
            s6,
            area.spec_left(),
            area.spec_bottom() - 1,
            Borders { left: true, bottom: true, ..Borders::spec_none() },
            self.border_set.bottom_left,
            qx,
            qy,
        );
        self.lemma_corner_preserves(
            barea,
            s7,
            area.spec_left(),
            area.spec_top(),
            Borders { left: true, top: true, ..Borders::spec_none() },
            self.border_set.top_left,
            qx,
            qy,
        );
    }

    /// Painting one title touches only its own row.
    pub proof fn lemma_title_painted_preserves(
        self,
        barea: Rect,
        s: Seq<Cell>,
        t: TitleView,
        x: int,
        y: int,
        w: int,
        qx: int,
        qy: int,
    )
        requires
            qy != y,
            0 <= x <= u16::MAX,
            0 <= y <= u16::MAX,
            0 <= w <= u16::MAX,
        ensures
            self.spec_title_painted(barea, s, t, x, y, w).len() == s.len(),
            grid_get(self.spec_title_painted(barea, s, t, x, y, w), barea, qx, qy) == grid_get(
                s,
                barea,
                qx,
                qy,
            ),
    {
        let r = Rect { x: x as u16, y: y as u16, width: w as u16, height: 1 };
        crate::buffer::lemma_grid_style_rect_preserves(s, barea, r, self.titles_style, qx, qy);
        assert(!r.spec_intersection(barea).spec_contains(qx, qy));
        let styled = grid_style_rect(s, barea, r, self.titles_style);
        crate::buffer::lemma_grid_text_preserves(
            styled,
            barea,
            t.content.content,
            t.content.style,
            x,
            y,
            0,
            min_i(w, 0x10000 - x),
            qx,
            qy,
        );
    }

    /// A left-to-right packing pass touches only its own row.
    pub proof fn lemma_pack_ltr_preserves(
        self,
        barea: Rect,
        s: Seq<Cell>,
        titles: Seq<TitleView>,
        x: int,
        width: int,
        y: int,
        qx: int,
        qy: int,
    )
        requires
            qy != y,
            0 <= x <= u16::MAX,
            0 <= y <= u16::MAX,
        ensures
            self.spec_pack_ltr(barea, s, titles, x, width, y).len() == s.len(),
            grid_get(self.spec_pack_ltr(barea, s, titles, x, width, y), barea, qx, qy) == grid_get(
                s,
                barea,
                qx,
                qy,
            ),
        decreases titles.len(),
    {
        if titles.len() == 0 || width <= 0 {
        } else {
            let t = titles[0];
            let tw = min_i(t.spec_width(), u16::MAX as int);
            let paint_w = min_i(tw, width);
            self.lemma_title_painted_preserves(barea, s, t, x, y, paint_w, qx, qy);
            self.lemma_pack_ltr_preserves(
                barea,
                self.spec_title_painted(barea, s, t, x, y, paint_w),
                titles.skip(1),
                sat_add(sat_add(x, tw), 1),
                sat_sub(sat_sub(width, tw), 1),
                y,
                qx,
                qy,
            );
        }
    }

    /// A right-anchored packing pass touches only its own row.
    pub proof fn lemma_pack_rtl_preserves(
        self,
        barea: Rect,
        s: Seq<Cell>,
        titles: Seq<TitleView>,
        x: int,
        width: int,
        y: int,
        qx: int,
        qy: int,
    )
        requires
            qy != y,
            0 <= x <= u16::MAX,
            0 <= y <= u16::MAX,
        ensures
            self.spec_pack_rtl(barea, s, titles, x, width, y).len() == s.len(),
            grid_get(self.spec_pack_rtl(barea, s, titles, x, width, y), barea, qx, qy) == grid_get(
                s,
                barea,
                qx,
                qy,
            ),
        decreases titles.len(),
    {
        if titles.len() == 0 || width <= 0 {
        } else {
            let t = titles.last();
            let tw = min_i(t.spec_width(), u16::MAX as int);
            let right = sat_add(x, width);
            let paint_x = max_i(sat_sub(right, tw), x);
            let paint_w = min_i(tw, width);
            self.lemma_title_painted_preserves(barea, s, t, paint_x, y, paint_w, qx, qy);
            self.lemma_pack_rtl_preserves(
                barea,
                self.spec_title_painted(barea, s, t, paint_x, y, paint_w),
                titles.drop_last(),
                x,
                sat_sub(sat_sub(width, tw), 1),
                y,
                qx,
                qy,
            );
        }
    }

    /// A frame without a title at `position` selects nothing for any pass
    /// over that position.
    pub proof fn lemma_no_title_no_selection(
        self,
        position: Position,
        alignment: Alignment,
        i: int,
    )
        requires
            !self.spec_has_title_at(position),
        ensures
            self.spec_filtered_from(position, alignment, i) == Seq::<TitleView>::empty(),
        decreases self.titles@.len() - i,
    {
        if i < 0 || i >= self.titles@.len() {
        } else {
            if self.spec_title_selected(title_views(self.titles@)[i], position, alignment) {
                assert(self.spec_titles_views()[i].spec_resolved_position(self.titles_position)
                    == position);
            }
            self.lemma_no_title_no_selection(position, alignment, i + 1);
        }
    }

    /// The title passes over one position touch only that position's row,
    /// and a position without titles is left entirely alone.
    pub proof fn lemma_title_position_preserves(
        self,
        position: Position,
        area: Rect,
        barea: Rect,
        s: Seq<Cell>,
        qx: int,
        qy: int,
    )
        requires
            self.spec_has_title_at(position) ==> qy != self.spec_titles_area(area, position).y,
        ensures
            self.spec_title_position_rendered(position, area, barea, s).len() == s.len(),
            grid_get(self.spec_title_position_rendered(position, area, barea, s), barea, qx, qy)
                == grid_get(s, barea, qx, qy),
    {
        let ta = self.spec_titles_area(area, position);
        if self.spec_has_title_at(position) {
            let s1 = self.spec_right_titles_rendered(position, area, barea, s);
            self.lemma_pack_rtl_preserves(
                barea,
                s,
                self.spec_filtered_titles(position, Alignment::Right),
                ta.x as int,
                ta.width as int,
                ta.y as int,
                qx,
                qy,
            );
            let ts = self.spec_filtered_titles(position, Alignment::Center);
            let total = sat_sub(Block::spec_total_width(ts, 0), 1);
            let x0 = sat_add(ta.x as int, sat_sub(ta.width as int, total) / 2);
            let s2 = self.spec_center_titles_rendered(position, area, barea, s1);
            self.lemma_pack_ltr_preserves(
                barea,
                s1,
                ts,
                x0,
                ta.width as int,
                ta.y as int,
                qx,
                qy,
            );
            self.lemma_pack_ltr_preserves(
                barea,
                s2,
                self.spec_filtered_titles(position, Alignment::Left),
                ta.x as int,
                ta.width as int,
                ta.y as int,
                qx,
                qy,
            );
        } else {
            self.lemma_no_title_no_selection(position, Alignment::Right, 0);
            self.lemma_no_title_no_selection(position, Alignment::Center, 0);
            self.lemma_no_title_no_selection(position, Alignment::Left, 0);
        }
    }

    /// The whole title pass touches only the two title rows, and only
    /// where titles exist.
    pub proof fn lemma_titles_rendered_preserves(
        self,
        area: Rect,
        barea: Rect,
        s: Seq<Cell>,
        qx: int,
        qy: int,
    )
        requires
            self.spec_has_title_at(Position::Top) ==> qy != self.spec_titles_area(
                area,
                Position::Top,
            ).y,
            self.spec_has_title_at(Position::Bottom) ==> qy != self.spec_titles_area(
                area,
                Position::Bottom,
            ).y,
        ensures
            self.spec_titles_rendered(area, barea, s).len() == s.len(),
            grid_get(self.spec_titles_rendered(area, barea, s), barea, qx, qy) == grid_get(
                s,
                barea,
                qx,
                qy,
            ),
    {
        self.lemma_title_position_preserves(Position::Top, area, barea, s, qx, qy);
        self.lemma_title_position_preserves(
            Position::Bottom,
            area,
            barea,
            self.spec_title_position_rendered(Position::Top, area, barea, s),
            qx,
            qy,
        );
    }
}

/// Inner-area monotonicity: adding a border edge or a title to a frame
/// never enlarges the inner area. `wider` is a frame with every
/// constraint of `narrower` and possibly more — its visible edges include
/// `narrower`'s and it holds a title at every position `narrower` does —
/// while both share the same merged edges and padding. Its inner area is
/// then no wider and no taller on any area.
pub proof fn lemma_inner_monotonic(narrower: Block, wider: Block, area: Rect)
    requires
        wider.borders.spec_contains(narrower.borders),
        narrower.spec_has_title_at(Position::Top) ==> wider.spec_has_title_at(Position::Top),
        narrower.spec_has_title_at(Position::Bottom) ==> wider.spec_has_title_at(Position::Bottom),
        wider.merge_borders == narrower.merge_borders,
        wider.padding == narrower.padding,
    ensures
        wider.spec_inner(area).width <= narrower.spec_inner(area).width,
        wider.spec_inner(area).height <= narrower.spec_inner(area).height,
{
}

/// Corner compositing is idempotent: composing the same merge mask onto a
/// corner cell a second time yields the cell unchanged, provided the
/// glyph table resolves every glyph back to the mask it was produced
/// from. The four line-drawing themes satisfy that; the two quadrant
/// themes do not, since one block glyph serves all their junction roles.
pub proof fn lemma_merged_corner_idempotent(
    block: Block,
    cell: Cell,
    composed: Cell,
    to_merge: Borders,
)
    requires
        block.border_set.spec_invertible(),
        block.spec_merged_corner_cell(cell, to_merge) == Some(composed),
    ensures
        block.spec_merged_corner_cell(composed, to_merge) == Some(composed),
{
    let set = block.border_set;
    let p = set.spec_line_parts_from_symbol(cell.symbol).unwrap();
    let target = p.spec_union(LineParts::spec_from_borders(to_merge));
    let sym = set.spec_symbol_from_line_parts(target).unwrap();
    assert(set.spec_line_parts_from_symbol(sym) == Some(target));
    assert(target.spec_union(LineParts::spec_from_borders(to_merge)) == target);
}

/// A packing pass is a function of the selected titles alone: two frames
/// with the same title style paint the same title sequence identically,
/// whatever other titles they hold.
pub proof fn lemma_pack_depends_on_titles(
    b1: Block,
    b2: Block,
    barea: Rect,
    s: Seq<Cell>,
    titles: Seq<TitleView>,
    x: int,
    width: int,
    y: int,
)
    requires
        b1.titles_style == b2.titles_style,
    ensures
        b1.spec_pack_ltr(barea, s, titles, x, width, y) == b2.spec_pack_ltr(
            barea,
            s,
            titles,
            x,
            width,
            y,
        ),
        b1.spec_pack_rtl(barea, s, titles, x, width, y) == b2.spec_pack_rtl(
            barea,
            s,
            titles,
            x,
            width,
            y,
        ),
    decreases titles.len(),
{
    if titles.len() == 0 || width <= 0 {
    } else {
        let t = titles[0];
        let tw = min_i(t.spec_width(), u16::MAX as int);
        let paint_w = min_i(tw, width);
        lemma_pack_depends_on_titles(
            b1,
            b2,
            barea,
            b1.spec_title_painted(barea, s, t, x, y, paint_w),
            titles.skip(1),
            sat_add(sat_add(x, tw), 1),
            sat_sub(sat_sub(width, tw), 1),
            y,
        );
        let tl = titles.last();
        let twl = min_i(tl.spec_width(), u16::MAX as int);
        let right = sat_add(x, width);
        let paint_x = max_i(sat_sub(right, twl), x);
        let paint_wl = min_i(twl, width);
        lemma_pack_depends_on_titles(
            b1,
            b2,
            barea,
            b1.spec_title_painted(barea, s, tl, paint_x, y, paint_wl),
            titles.drop_last(),
            x,
            sat_sub(sat_sub(width, twl), 1),
            y,
        );
    }
}

/// Title packing is stable under everything but the pass's own
/// selection: two frames that select the same titles for a pass, in the
/// same order, with the same title style and the same title row, paint
/// that pass identically. In particular the centered block's start
/// column is computed against the full row width, never against the
/// space the left- and right-aligned passes consumed, so extra titles of
/// other alignments leave a centered pass unchanged.
pub proof fn lemma_title_pass_depends_on_selection(
    b1: Block,
    b2: Block,
    position: Position,
    alignment: Alignment,
    area: Rect,
    barea: Rect,
    s: Seq<Cell>,
)
    requires
        b1.titles_style == b2.titles_style,
        b1.spec_filtered_titles(position, alignment) == b2.spec_filtered_titles(
            position,
            alignment,
        ),
        b1.spec_titles_area(area, position) == b2.spec_titles_area(area, position),
    ensures
        alignment == Alignment::Right ==> b1.spec_right_titles_rendered(position, area, barea, s)
            == b2.spec_right_titles_rendered(position, area, barea, s),
        alignment == Alignment::Center ==> b1.spec_center_titles_rendered(position, area, barea, s)
            == b2.spec_center_titles_rendered(position, area, barea, s),
        alignment == Alignment::Left ==> b1.spec_left_titles_rendered(position, area, barea, s)
            == b2.spec_left_titles_rendered(position, area, barea, s),
{
    let ta = b1.spec_titles_area(area, position);
    let ts = b1.spec_filtered_titles(position, alignment);
    lemma_pack_depends_on_titles(b1, b2, barea, s, ts, ta.x as int, ta.width as int, ta.y as int);
    let total = sat_sub(Block::spec_total_width(ts, 0), 1);
    let x0 = sat_add(ta.x as int, sat_sub(ta.width as int, total) / 2);
    lemma_pack_depends_on_titles(b1, b2, barea, s, ts, x0, ta.width as int, ta.y as int);
}

impl Block {
    /// The frame, the neighbour space its merges reclaim, and the grid
    /// all fit the coordinate space.
    pub open spec fn spec_render_fits(self, area: Rect, barea: Rect) -> bool {
        &&& self.spec_compensated(area).spec_inside(barea)
        &&& area.x + area.width <= u16::MAX
        &&& area.y + area.height <= u16::MAX
        &&& barea.x + barea.width <= u16::MAX
        &&& barea.y + barea.height <= u16::MAX
        &&& (self.merge_borders.left ==> area.x >= 1)
        &&& (self.merge_borders.top ==> area.y >= 1)
        &&& (self.merge_borders.right ==> area.x + area.width < u16::MAX)
        &&& (self.merge_borders.bottom ==> area.y + area.height < u16::MAX)
    }
}

/// Round-trip support: a render never writes a glyph into the inner area
/// it reports. A child bounded by [`Block::inner`]'s answer therefore
/// composes exactly with the frame: the child may paint every inner cell
/// and no border or title glyph is lost, whatever the frame's edges,
/// merges, titles and padding.
pub proof fn lemma_render_spares_inner(
    block: Block,
    area: Rect,
    barea: Rect,
    s: Seq<Cell>,
    qx: int,
    qy: int,
)
    requires
        block.spec_inner(area).spec_contains(qx, qy),
        block.spec_render_fits(area, barea),
    ensures
        grid_get(block.spec_rendered(area, barea, s), barea, qx, qy).symbol == grid_get(
            s,
            barea,
            qx,
            qy,
        ).symbol,
{
    let comp = block.spec_compensated(area);
    let pa = comp.spec_intersection(barea);
    assert(pa == comp);
    if pa.spec_is_empty() {
    } else {
        let inner = block.spec_inner(area);
        let ml: int = if block.merge_borders.left {
            1
        } else {
            0
        };
        let mt: int = if block.merge_borders.top {
            1
        } else {
            0
        };
        let mr: int = if block.merge_borders.right {
            1
        } else {
            0
        };
        let mb: int = if block.merge_borders.bottom {
            1
        } else {
            0
        };
        assert(pa.x == area.x - ml && pa.y == area.y - mt);
        assert(pa.x + pa.width == area.x + area.width + mr);
        assert(pa.y + pa.height == area.y + area.height + mb);

        let left_in = block.borders.left && !block.merge_borders.left;
        let top_in = (block.borders.top || block.spec_has_title_at(Position::Top))
            && !block.merge_borders.top;
        let right_in = block.borders.right && !block.merge_borders.right;
        let bottom_in = (block.borders.bottom || block.spec_has_title_at(Position::Bottom))
            && !block.merge_borders.bottom;
        let x1 = if left_in {
            min_i(sat_add(area.x as int, 1), area.spec_right())
        } else {
            area.x as int
        };
        let w1 = if left_in {
            sat_sub(area.width as int, 1)
        } else {
            area.width as int
        };
        let y1 = if top_in {
            min_i(sat_add(area.y as int, 1), area.spec_bottom())
        } else {
            area.y as int
        };
        let h1 = if top_in {
            sat_sub(area.height as int, 1)
        } else {
            area.height as int
        };
        let w2 = if right_in {
            sat_sub(w1, 1)
        } else {
            w1
        };
        let h2 = if bottom_in {
            sat_sub(h1, 1)
        } else {
            h1
        };
        let pl = block.padding.left as int;
        let pt = block.padding.top as int;
        assert(inner.width > 0 && inner.height > 0);
        assert(x1 + w1 <= area.x + area.width);
        assert(y1 + h1 <= area.y + area.height);
        assert(x1 + pl <= u16::MAX && inner.x == x1 + pl);
        assert(y1 + pt <= u16::MAX && inner.y == y1 + pt);
        assert(x1 <= qx < x1 + w2);
        assert(y1 <= qy < y1 + h2);
        assert(area.x <= qx < area.x + area.width);
        assert(area.y <= qy < area.y + area.height);
        assert(left_in ==> area.x + 1 <= qx);
        assert(top_in ==> area.y + 1 <= qy);
        assert(right_in ==> qx < area.x + area.width - 1);
        assert(bottom_in ==> qy < area.y + area.height - 1);

        crate::buffer::lemma_grid_style_rect_preserves(s, barea, pa, block.style, qx, qy);
        let s1 = grid_style_rect(s, barea, pa, block.style);
        assert(!block.spec_border_cell(pa, qx, qy));
        block.lemma_borders_rendered_preserves(pa, barea, s1, qx, qy);
        let s2 = block.spec_borders_rendered(pa, barea, s1);
        assert(block.spec_has_title_at(Position::Top) ==> qy != block.spec_titles_area(
            pa,
            Position::Top,
        ).y);
        assert(block.spec_has_title_at(Position::Bottom) ==> qy != block.spec_titles_area(
            pa,
            Position::Bottom,
        ).y);
        block.lemma_titles_rendered_preserves(pa, barea, s2, qx, qy);
    }
}

/// Merge reclaim, left edge: a frame whose left edge is merged repaints
/// nothing of the reclaimed shared column but its two corner cells. The
/// border line a neighbour drew there shows through unchanged on every
/// row in between — no doubled and no missing line — and the corners are
/// composed junctions, idempotent by
/// [`lemma_merged_corner_idempotent`].
pub proof fn lemma_merge_left_keeps_shared_column(
    block: Block,
    area: Rect,
    barea: Rect,
    s: Seq<Cell>,
    qy: int,
)
    requires
        block.merge_borders.left,
        1 <= area.width,
        block.spec_render_fits(area, barea),
        area.y - (if block.merge_borders.top { 1int } else { 0int }) < qy,
        qy < area.y + area.height + (if block.merge_borders.bottom { 1int } else { 0int }) - 1,
    ensures
        grid_get(block.spec_rendered(area, barea, s), barea, area.x - 1, qy).symbol == grid_get(
            s,
            barea,
            area.x - 1,
            qy,
        ).symbol,
{
    let comp = block.spec_compensated(area);
    let pa = comp.spec_intersection(barea);
    assert(pa == comp);
    let qx = area.x - 1;
    assert(qx == pa.spec_left());
    assert(pa.spec_top() < qy < pa.spec_bottom() - 1);
    crate::buffer::lemma_grid_style_rect_preserves(s, barea, pa, block.style, qx, qy);
    let s1 = grid_style_rect(s, barea, pa, block.style);
    assert(!block.spec_border_cell(pa, qx, qy));
    block.lemma_borders_rendered_preserves(pa, barea, s1, qx, qy);
    let s2 = block.spec_borders_rendered(pa, barea, s1);
    block.lemma_titles_rendered_preserves(pa, barea, s2, qx, qy);
}

/// Merge reclaim made concrete: when a neighbour has drawn its border
/// line down the shared column — each cell holding the theme's vertical
/// glyph — a frame merging its left edge there leaves exactly that line
/// showing on every non-corner row, just as a single frame drawing the
/// edge itself would. No doubled and no missing line.
pub proof fn lemma_merge_left_composes_one_line(
    block: Block,
    area: Rect,
    barea: Rect,
    s: Seq<Cell>,
    qy: int,
)
    requires
        block.merge_borders.left,
        1 <= area.width,
        block.spec_render_fits(area, barea),
        area.y - (if block.merge_borders.top { 1int } else { 0int }) < qy,
        qy < area.y + area.height + (if block.merge_borders.bottom { 1int } else { 0int }) - 1,
        grid_get(s, barea, area.x - 1, qy).symbol == block.border_set.vertical_left,
    ensures
        grid_get(block.spec_rendered(area, barea, s), barea, area.x - 1, qy).symbol
            == block.border_set.vertical_left,
{
    lemma_merge_left_keeps_shared_column(block, area, barea, s, qy);
}

/// Merge reclaim, right edge: the mirror image of
/// [`lemma_merge_left_keeps_shared_column`].
pub proof fn lemma_merge_right_keeps_shared_column(
    block: Block,
    area: Rect,
    barea: Rect,
    s: Seq<Cell>,
    qy: int,
)
    requires
        block.merge_borders.right,
        1 <= area.width,
        block.spec_render_fits(area, barea),
        area.y - (if block.merge_borders.top { 1int } else { 0int }) < qy,
        qy < area.y + area.height + (if block.merge_borders.bottom { 1int } else { 0int }) - 1,
    ensures
        grid_get(block.spec_rendered(area, barea, s), barea, area.x + area.width, qy).symbol
            == grid_get(s, barea, area.x + area.width, qy).symbol,
{
    let comp = block.spec_compensated(area);
    let pa = comp.spec_intersection(barea);
    assert(pa == comp);
    let qx = area.x + area.width;
    assert(qx == pa.spec_right() - 1);
    assert(pa.spec_top() < qy < pa.spec_bottom() - 1);
    crate::buffer::lemma_grid_style_rect_preserves(s, barea, pa, block.style, qx, qy);
    let s1 = grid_style_rect(s, barea, pa, block.style);
    assert(!block.spec_border_cell(pa, qx, qy));
    block.lemma_borders_rendered_preserves(pa, barea, s1, qx, qy);
    let s2 = block.spec_borders_rendered(pa, barea, s1);
    block.lemma_titles_rendered_preserves(pa, barea, s2, qx, qy);
}

/// Merge reclaim, top edge: a frame whose top edge is merged repaints
/// nothing of the reclaimed shared row but its two corner cells —
/// provided it puts no title there, since top titles overlay that very
/// row.
pub proof fn lemma_merge_top_keeps_shared_row(
    block: Block,
    area: Rect,
    barea: Rect,
    s: Seq<Cell>,
    qx: int,
)
    requires
        block.merge_borders.top,
        1 <= area.height,
        !block.spec_has_title_at(Position::Top),
        block.spec_render_fits(area, barea),
        area.x - (if block.merge_borders.left { 1int } else { 0int }) < qx,
        qx < area.x + area.width + (if block.merge_borders.right { 1int } else { 0int }) - 1,
    ensures
        grid_get(block.spec_rendered(area, barea, s), barea, qx, area.y - 1).symbol == grid_get(
            s,
            barea,
            qx,
            area.y - 1,
        ).symbol,
{
    let comp = block.spec_compensated(area);
    let pa = comp.spec_intersection(barea);
    assert(pa == comp);
    let qy = area.y - 1;
    assert(qy == pa.spec_top());
    assert(pa.spec_left() < qx < pa.spec_right() - 1);
    crate::buffer::lemma_grid_style_rect_preserves(s, barea, pa, block.style, qx, qy);
    let s1 = grid_style_rect(s, barea, pa, block.style);
    assert(!block.spec_border_cell(pa, qx, qy));
    block.lemma_borders_rendered_preserves(pa, barea, s1, qx, qy);
    let s2 = block.spec_borders_rendered(pa, barea, s1);
    block.lemma_titles_rendered_preserves(pa, barea, s2, qx, qy);
}

/// Merge reclaim, bottom edge: the mirror image of
/// [`lemma_merge_top_keeps_shared_row`], for frames without bottom
/// titles.
pub proof fn lemma_merge_bottom_keeps_shared_row(
    block: Block,
    area: Rect,
    barea: Rect,
    s: Seq<Cell>,
    qx: int,
)
    requires
        block.merge_borders.bottom,
        1 <= area.height,
        !block.spec_has_title_at(Position::Bottom),
        block.spec_render_fits(area, barea),
        area.x - (if block.merge_borders.left { 1int } else { 0int }) < qx,
        qx < area.x + area.width + (if block.merge_borders.right { 1int } else { 0int }) - 1,
    ensures
        grid_get(block.spec_rendered(area, barea, s), barea, qx, area.y + area.height).symbol
            == grid_get(s, barea, qx, area.y + area.height).symbol,
{
    let comp = block.spec_compensated(area);
    let pa = comp.spec_intersection(barea);
    assert(pa == comp);
    let qy = area.y + area.height;
    assert(qy == pa.spec_bottom() - 1);
    assert(pa.spec_left() < qx < pa.spec_right() - 1);
    crate::buffer::lemma_grid_style_rect_preserves(s, barea, pa, block.style, qx, qy);
    let s1 = grid_style_rect(s, barea, pa, block.style);
    assert(!block.spec_border_cell(pa, qx, qy));
    block.lemma_borders_rendered_preserves(pa, barea, s1, qx, qy);
    let s2 = block.spec_borders_rendered(pa, barea, s1);
    block.lemma_titles_rendered_preserves(pa, barea, s2, qx, qy);
}

impl Clone for Block {
    /// A cloned frame has the same configuration and mathematically equal
    /// titles.
    fn clone(&self) -> (r: Block)
        ensures
            title_views(r.titles@) == title_views(self.titles@),
            r.titles_style == self.titles_style,
            r.titles_alignment == self.titles_alignment,
            r.titles_position == self.titles_position,
            r.borders == self.borders,
            r.merge_borders == self.merge_borders,
            r.border_style == self.border_style,
            r.border_set == self.border_set,
            r.style == self.style,
            r.padding == self.padding,
    {
        let titles = self.titles.clone();
        proof {
            assert(title_views(titles@) =~= title_views(self.titles@));
        }
        Block {
            titles,
            titles_style: self.titles_style,
            titles_alignment: self.titles_alignment,
            titles_position: self.titles_position,
            borders: self.borders,
            merge_borders: self.merge_borders,
            border_style: self.border_style,
            border_set: self.border_set,
            style: self.style,
            padding: self.padding,
        }
    }
}

impl Default for Block {
    /// The default frame equals [`Block::new`].
    fn default() -> (r: Block)
        ensures
            r.titles@ == Seq::<Title>::empty(),
            r.titles_style == Style::spec_new(),
            r.titles_alignment == Alignment::Left,
            r.titles_position == Position::Top,
            r.borders == Borders::spec_none(),
            r.merge_borders == Borders::spec_none(),
            r.border_style == Style::spec_new(),
            r.border_set == spec_plain(),
            r.style == Style::spec_new(),
            r.padding == (Padding { left: 0, right: 0, top: 0, bottom: 0 }),
    {
        Block::new()
    }
}

} // verus!
