use vstd::prelude::*;

verus! {

/// A terminal foreground or background colour. `Reset` stands for the
/// terminal's own default.
#[derive(Clone, Copy, Debug, PartialEq, Eq, Structural, Hash)]
pub enum Color {
    Reset,
    Black,
    Red,
    Green,
    Yellow,
    Blue,
    Magenta,
    Cyan,
    Gray,
    DarkGray,
    White,
}

/// A set of text attribute flags.
#[derive(Clone, Copy, Debug, Default, PartialEq, Eq, Structural, Hash)]
pub struct Modifier {
    pub bold: bool,
    pub dim: bool,
    pub italic: bool,
    pub underlined: bool,
    pub reversed: bool,
    pub crossed_out: bool,
}

impl Modifier {
    /// The empty attribute set.
    pub open spec fn spec_none() -> Modifier {
        Modifier {
            bold: false,
            dim: false,
            italic: false,
            underlined: false,
            reversed: false,
            crossed_out: false,
        }
    }

    /// The set holding every attribute.
    pub open spec fn spec_all() -> Modifier {
        Modifier {
            bold: true,
            dim: true,
            italic: true,
            underlined: true,
            reversed: true,
            crossed_out: true,
        }
    }

    /// The attributes present in `self` or in `other`.
    pub open spec fn spec_union(self, other: Modifier) -> Modifier {
        Modifier {
            bold: self.bold || other.bold,
            dim: self.dim || other.dim,
            italic: self.italic || other.italic,
            underlined: self.underlined || other.underlined,
            reversed: self.reversed || other.reversed,
            crossed_out: self.crossed_out || other.crossed_out,
        }
    }

    /// The attributes present in `self` but not in `other`.
    pub open spec fn spec_difference(self, other: Modifier) -> Modifier {
        Modifier {
            bold: self.bold && !other.bold,
            dim: self.dim && !other.dim,
            italic: self.italic && !other.italic,
            underlined: self.underlined && !other.underlined,
            reversed: self.reversed && !other.reversed,
            crossed_out: self.crossed_out && !other.crossed_out,
        }
    }

    pub fn none() -> (r: Modifier)
        ensures
            r == Modifier::spec_none(),
    {
        Modifier {
            bold: false,
            dim: false,
            italic: false,
            underlined: false,
            reversed: false,
            crossed_out: false,
        }
    }

    pub fn all() -> (r: Modifier)
        ensures
            r == Modifier::spec_all(),
    {
        Modifier {
            bold: true,
            dim: true,
            italic: true,
            underlined: true,
            reversed: true,
            crossed_out: true,
        }
    }

    /// The set holding only the bold attribute.
    pub fn bold() -> (r: Modifier)
        ensures
            r == (Modifier { bold: true, ..Modifier::spec_none() }),
    {
        Modifier { bold: true, ..Modifier::none() }
    }

    /// The set holding only the dim attribute.
    pub fn dim() -> (r: Modifier)
        ensures
            r == (Modifier { dim: true, ..Modifier::spec_none() }),
    {
        Modifier { dim: true, ..Modifier::none() }
    }

    /// The set holding only the italic attribute.
    pub fn italic() -> (r: Modifier)
        ensures
            r == (Modifier { italic: true, ..Modifier::spec_none() }),
    {
        Modifier { italic: true, ..Modifier::none() }
    }

    pub fn union(self, other: Modifier) -> (r: Modifier)
        ensures
            r == self.spec_union(other),
    {
        Modifier {
            bold: self.bold || other.bold,
            dim: self.dim || other.dim,
            italic: self.italic || other.italic,
            underlined: self.underlined || other.underlined,
            reversed: self.reversed || other.reversed,
            crossed_out: self.crossed_out || other.crossed_out,
        }
    }

    pub fn difference(self, other: Modifier) -> (r: Modifier)
        ensures
            r == self.spec_difference(other),
    {
        Modifier {
            bold: self.bold && !other.bold,
            dim: self.dim && !other.dim,
            italic: self.italic && !other.italic,
            underlined: self.underlined && !other.underlined,
            reversed: self.reversed && !other.reversed,
            crossed_out: self.crossed_out && !other.crossed_out,
        }
    }
}

/// An opaque, mergeable styling value: optional foreground and background
/// colours plus attribute flags to add and to remove. A style with no
/// colours and empty flag sets changes nothing when applied to a cell.
#[derive(Clone, Copy, Debug, Default, PartialEq, Eq, Structural, Hash)]
pub struct Style {
    pub fg: Option<Color>,
    pub bg: Option<Color>,
    pub add_modifier: Modifier,
    pub sub_modifier: Modifier,
}

impl Style {
    /// The style that leaves a cell unchanged.
    pub open spec fn spec_new() -> Style {
        Style {
            fg: None,
            bg: None,
            add_modifier: Modifier::spec_none(),
            sub_modifier: Modifier::spec_none(),
        }
    }

    pub fn new() -> (r: Style)
        ensures
            r == Style::spec_new(),
    {
        Style { fg: None, bg: None, add_modifier: Modifier::none(), sub_modifier: Modifier::none() }
    }

    /// The style that returns a cell to the terminal defaults.
    pub fn reset() -> (r: Style)
        ensures
            r == (Style {
                fg: Some(Color::Reset),
                bg: Some(Color::Reset),
                add_modifier: Modifier::spec_none(),
                sub_modifier: Modifier::spec_all(),
            }),
    {
        Style {
            fg: Some(Color::Reset),
            bg: Some(Color::Reset),
            add_modifier: Modifier::none(),
            sub_modifier: Modifier::all(),
        }
    }

    /// Sets the foreground colour.
    pub fn fg(self, color: Color) -> (r: Style)
        ensures
            r == (Style { fg: Some(color), ..self }),
    {
        Style { fg: Some(color), ..self }
    }

    /// Sets the background colour.
    pub fn bg(self, color: Color) -> (r: Style)
        ensures
            r == (Style { bg: Some(color), ..self }),
    {
        Style { bg: Some(color), ..self }
    }

    /// Marks the given attributes to be switched on.
    pub fn add_modifier(self, modifier: Modifier) -> (r: Style)
        ensures
            r == (Style {
                add_modifier: self.add_modifier.spec_union(modifier),
                sub_modifier: self.sub_modifier.spec_difference(modifier),
                ..self
            }),
    {
        Style {
            add_modifier: self.add_modifier.union(modifier),
            sub_modifier: self.sub_modifier.difference(modifier),
            ..self
        }
    }

    /// Marks the given attributes to be switched off.
    pub fn remove_modifier(self, modifier: Modifier) -> (r: Style)
        ensures
            r == (Style {
                add_modifier: self.add_modifier.spec_difference(modifier),
                sub_modifier: self.sub_modifier.spec_union(modifier),
                ..self
            }),
    {
        Style {
            add_modifier: self.add_modifier.difference(modifier),
            sub_modifier: self.sub_modifier.union(modifier),
            ..self
        }
    }
}

impl From<Color> for Style {
    /// A bare colour converts to a style that sets the foreground.
    fn from(color: Color) -> (r: Style) {
        Style::new().fg(color)
    }
}

impl vstd::std_specs::convert::FromSpecImpl<Color> for Style {
    open spec fn obeys_from_spec() -> bool {
        true
    }

    open spec fn from_spec(color: Color) -> Style {
        Style { fg: Some(color), ..Style::spec_new() }
    }
}

impl From<(Color, Color)> for Style {
    /// A colour pair converts to a style that sets foreground and background.
    fn from(colors: (Color, Color)) -> (r: Style) {
        Style::new().fg(colors.0).bg(colors.1)
    }
}

impl vstd::std_specs::convert::FromSpecImpl<(Color, Color)> for Style {
    open spec fn obeys_from_spec() -> bool {
        true
    }

    open spec fn from_spec(colors: (Color, Color)) -> Style {
        Style { fg: Some(colors.0), bg: Some(colors.1), ..Style::spec_new() }
    }
}

impl From<Modifier> for Style {
    /// A bare attribute set converts to a style that switches it on.
    fn from(modifier: Modifier) -> (r: Style) {
        Style::new().add_modifier(modifier)
    }
}

impl vstd::std_specs::convert::FromSpecImpl<Modifier> for Style {
    open spec fn obeys_from_spec() -> bool {
        true
    }

    open spec fn from_spec(modifier: Modifier) -> Style {
        Style { add_modifier: modifier, ..Style::spec_new() }
    }
}

impl From<(Modifier, Modifier)> for Style {
    /// An attribute-set pair converts to a style that switches the first on
    /// and the second off.
    fn from(modifiers: (Modifier, Modifier)) -> (r: Style) {
        Style::new().add_modifier(modifiers.0).remove_modifier(modifiers.1)
    }
}

impl vstd::std_specs::convert::FromSpecImpl<(Modifier, Modifier)> for Style {
    open spec fn obeys_from_spec() -> bool {
        true
    }

    open spec fn from_spec(modifiers: (Modifier, Modifier)) -> Style {
        Style {
            add_modifier: modifiers.0.spec_difference(modifiers.1),
            sub_modifier: modifiers.1,
            ..Style::spec_new()
        }
    }
}

impl From<(Color, Modifier)> for Style {
    fn from(parts: (Color, Modifier)) -> (r: Style) {
        Style::new().fg(parts.0).add_modifier(parts.1)
    }
}

impl vstd::std_specs::convert::FromSpecImpl<(Color, Modifier)> for Style {
    open spec fn obeys_from_spec() -> bool {
        true
    }

    open spec fn from_spec(parts: (Color, Modifier)) -> Style {
        Style { fg: Some(parts.0), add_modifier: parts.1, ..Style::spec_new() }
    }
}

impl From<(Color, Color, Modifier)> for Style {
    fn from(parts: (Color, Color, Modifier)) -> (r: Style) {
        Style::new().fg(parts.0).bg(parts.1).add_modifier(parts.2)
    }
}

impl vstd::std_specs::convert::FromSpecImpl<(Color, Color, Modifier)> for Style {
    open spec fn obeys_from_spec() -> bool {
        true
    }

    open spec fn from_spec(parts: (Color, Color, Modifier)) -> Style {
        Style { fg: Some(parts.0), bg: Some(parts.1), add_modifier: parts.2, ..Style::spec_new() }
    }
}

impl From<(Color, Color, Modifier, Modifier)> for Style {
    fn from(parts: (Color, Color, Modifier, Modifier)) -> (r: Style) {
        Style::new().fg(parts.0).bg(parts.1).add_modifier(parts.2).remove_modifier(parts.3)
    }
}

impl vstd::std_specs::convert::FromSpecImpl<(Color, Color, Modifier, Modifier)> for Style {
    open spec fn obeys_from_spec() -> bool {
        true
    }

    open spec fn from_spec(parts: (Color, Color, Modifier, Modifier)) -> Style {
        Style {
            fg: Some(parts.0),
            bg: Some(parts.1),
            add_modifier: parts.2.spec_difference(parts.3),
            sub_modifier: parts.3,
            ..Style::spec_new()
        }
    }
}

} // verus!
