use vstd::prelude::*;
use crate::style::Style;

verus! {

/// Horizontal packing rule for a title within its row.
#[derive(Clone, Copy, Debug, Default, PartialEq, Eq, Structural, Hash)]
pub enum Alignment {
    #[default]
    Left,
    Center,
    Right,
}

/// Whether a title is painted in the top or the bottom row of its frame.
#[derive(Clone, Copy, Debug, Default, PartialEq, Eq, Structural, Hash)]
pub enum Position {
    #[default]
    Top,
    Bottom,
}

/// Reads the characters of a string into a vector, one element per
/// character.
fn chars_of(text: &str) -> (r: Vec<char>)
    ensures
        r@ == text@,
{
    let n = text.unicode_len();
    let mut r: Vec<char> = Vec::new();
    let mut i: usize = 0;
    while i < n
        invariant
            i <= n,
            n == text@.len(),
            r@.len() == i,
            forall|j: int| 0 <= j < i ==> r@[j] == text@[j],
        decreases n - i,
    {
        r.push(text.get_char(i));
        i = i + 1;
    }
    proof {
        assert(r@ =~= text@);
    }
    r
}

/// A measurable, truncating-renderable run of styled text: the content a
/// title is made of. Each element of `content` occupies one grid cell.
#[derive(Debug, PartialEq, Eq, Hash)]
pub struct Line {
    pub content: Vec<char>,
    pub style: Style,
    pub alignment: Option<Alignment>,
}

/// The mathematical value of a [`Line`]: its characters together with
/// their style and optional alignment.
pub struct LineView {
    pub content: Seq<char>,
    pub style: Style,
    pub alignment: Option<Alignment>,
}

impl View for Line {
    type V = LineView;

    open spec fn view(&self) -> LineView {
        LineView { content: self.content@, style: self.style, alignment: self.alignment }
    }
}

impl Clone for Line {
    /// A cloned line has the same mathematical value.
    fn clone(&self) -> (r: Line)
        ensures
            r@ == self@,
    {
        let content = self.content.clone();
        proof {
            assert(content@ =~= self.content@);
        }
        Line { content, style: self.style, alignment: self.alignment }
    }
}

impl Line {
    /// Unstyled text with no alignment of its own.
    pub fn raw(text: &str) -> (r: Line)
        ensures
            r.content@ == text@,
            r.style == Style::spec_new(),
            r.alignment is None,
    {
        Line { content: chars_of(text), style: Style::new(), alignment: None }
    }

    /// Text carrying its own style and no alignment of its own.
    pub fn styled(text: &str, style: Style) -> (r: Line)
        ensures
            r.content@ == text@,
            r.style == style,
            r.alignment is None,
    {
        Line { content: chars_of(text), style, alignment: None }
    }

    /// The line, aligned to the left.
    pub fn left_aligned(self) -> (r: Line)
        ensures
            r == (Line { alignment: Some(Alignment::Left), ..self }),
    {
        Line { alignment: Some(Alignment::Left), ..self }
    }

    /// The line, centered.
    pub fn centered(self) -> (r: Line)
        ensures
            r == (Line { alignment: Some(Alignment::Center), ..self }),
    {
        Line { alignment: Some(Alignment::Center), ..self }
    }

    /// The line, aligned to the right.
    pub fn right_aligned(self) -> (r: Line)
        ensures
            r == (Line { alignment: Some(Alignment::Right), ..self }),
    {
        Line { alignment: Some(Alignment::Right), ..self }
    }

    /// The display width of the line, one cell per character.
    pub open spec fn spec_width(self) -> int {
        self.content@.len() as int
    }

    pub fn width(&self) -> (w: usize)
        ensures
            w == self.spec_width(),
    {
        self.content.len()
    }
}

/// A frame title: its content plus an optional explicit position and an
/// optional explicit alignment. An absent position or alignment inherits
/// the frame's default.
#[derive(Debug, PartialEq, Eq, Hash)]
pub struct Title {
    pub content: Line,
    pub alignment: Option<Alignment>,
    pub position: Option<Position>,
}

/// The mathematical value of a [`Title`].
pub struct TitleView {
    pub content: LineView,
    pub alignment: Option<Alignment>,
    pub position: Option<Position>,
}

impl View for Title {
    type V = TitleView;

    open spec fn view(&self) -> TitleView {
        TitleView { content: self.content@, alignment: self.alignment, position: self.position }
    }
}

impl Clone for Title {
    /// A cloned title has the same mathematical value.
    fn clone(&self) -> (r: Title)
        ensures
            r@ == self@,
    {
        Title { content: self.content.clone(), alignment: self.alignment, position: self.position }
    }
}

impl TitleView {
    /// The position the title is painted at, given the frame's default.
    pub open spec fn spec_resolved_position(self, default: Position) -> Position {
        match self.position {
            Some(p) => p,
            None => default,
        }
    }

    /// The alignment the title is packed with, given the frame's default.
    pub open spec fn spec_resolved_alignment(self, default: Alignment) -> Alignment {
        match self.alignment {
            Some(a) => a,
            None => default,
        }
    }

    /// The display width of the title's content.
    pub open spec fn spec_width(self) -> int {
        self.content.content.len() as int
    }
}

impl Title {
    /// Builds a title from plain text; position and alignment inherit the
    /// frame's defaults.
    pub fn from(text: &str) -> (r: Title)
        ensures
            r.content.content@ == text@,
            r.content.style == Style::spec_new(),
            r.content.alignment is None,
            r.alignment is None,
            r.position is None,
    {
        Title { content: Line::raw(text), alignment: None, position: None }
    }

    /// Builds a title from a line, taking over the line's own alignment;
    /// the position inherits the frame's default.
    pub fn from_line(line: Line) -> (r: Title)
        ensures
            r.content == line,
            r.alignment == line.alignment,
            r.position is None,
    {
        let alignment = line.alignment;
        Title { content: line, alignment, position: None }
    }

    /// The title with an explicit alignment.
    pub fn alignment(self, alignment: Alignment) -> (r: Title)
        ensures
            r == (Title { alignment: Some(alignment), ..self }),
    {
        Title { alignment: Some(alignment), ..self }
    }

    /// The title with an explicit position.
    pub fn position(self, position: Position) -> (r: Title)
        ensures
            r == (Title { position: Some(position), ..self }),
    {
        Title { position: Some(position), ..self }
    }

    /// The position the title is painted at, given the frame's default.
    pub fn resolved_position(&self, default: Position) -> (r: Position)
        ensures
            r == self@.spec_resolved_position(default),
    {
        match self.position {
            Some(p) => p,
            None => default,
        }
    }

    /// The alignment the title is packed with, given the frame's default.
    pub fn resolved_alignment(&self, default: Alignment) -> (r: Alignment)
        ensures
            r == self@.spec_resolved_alignment(default),
    {
        match self.alignment {
            Some(a) => a,
            None => default,
        }
    }
}

} // verus!
