//! Colours, text modifiers and styled text: the values that the diff preview and
//! the interface are drawn from.
use vstd::prelude::*;

verus! {

/// A terminal colour: the sixteen named ANSI colours, the terminal's default
/// (`Reset`), a 256-colour palette index, or a 24-bit RGB colour.
#[derive(Clone, Copy, Debug, PartialEq, Eq, Structural)]
pub enum Color {
    Reset,
    Black,
    Red,
    Green,
    Yellow,
    Blue,
    Magenta,
    Cyan,
    Gray,
    DarkGray,
    LightRed,
    LightGreen,
    LightYellow,
    LightBlue,
    LightMagenta,
    LightCyan,
    White,
    Rgb(u8, u8, u8),
    Indexed(u8),
}

} // verus!

verus! {

/// Text emphasis flags that a style adds.
#[derive(Clone, Copy, Debug, PartialEq, Eq, Structural)]
pub struct Modifiers {
    pub bold: bool,
    pub dim: bool,
    pub italic: bool,
    pub underlined: bool,
    pub crossed_out: bool,
}

/// A text emphasis flag.
#[derive(Clone, Copy, Debug, PartialEq, Eq, Structural)]
pub enum Modifier {
    Bold,
    Dim,
    Italic,
    Underlined,
    CrossedOut,
}

impl Modifiers {
    pub open spec fn none() -> Modifiers {
        Modifiers { bold: false, dim: false, italic: false, underlined: false, crossed_out: false }
    }

    /// The flags with `m` added.
    pub open spec fn spec_with(self, m: Modifier) -> Modifiers {
        match m {
            Modifier::Bold => Modifiers { bold: true, ..self },
            Modifier::Dim => Modifiers { dim: true, ..self },
            Modifier::Italic => Modifiers { italic: true, ..self },
            Modifier::Underlined => Modifiers { underlined: true, ..self },
            Modifier::CrossedOut => Modifiers { crossed_out: true, ..self },
        }
    }

    pub fn empty() -> (r: Modifiers)
        ensures
            r == Modifiers::none(),
    {
        Modifiers { bold: false, dim: false, italic: false, underlined: false, crossed_out: false }
    }

    pub fn with(self, m: Modifier) -> (r: Modifiers)
        ensures
            r == self.spec_with(m),
    {
        match m {
            Modifier::Bold => Modifiers { bold: true, ..self },
            Modifier::Dim => Modifiers { dim: true, ..self },
            Modifier::Italic => Modifiers { italic: true, ..self },
            Modifier::Underlined => Modifiers { underlined: true, ..self },
            Modifier::CrossedOut => Modifiers { crossed_out: true, ..self },
        }
    }
}

/// A style: optional foreground and background colours and the modifiers it adds.
#[derive(Clone, Copy, Debug, PartialEq, Eq, Structural)]
pub struct Style {
    pub fg: Option<Color>,
    pub bg: Option<Color>,
    pub modifiers: Modifiers,
}

/// The plain style: no colours, no modifiers.
pub open spec fn plain() -> Style {
    Style { fg: None, bg: None, modifiers: Modifiers::none() }
}

impl Style {
    /// The plain style: no colours and no modifiers.
    pub fn new() -> (r: Style)
        ensures
            r == plain(),
    {
        Style { fg: None, bg: None, modifiers: Modifiers::empty() }
    }

    pub open spec fn spec_fg(self, c: Color) -> Style {
        Style { fg: Some(c), ..self }
    }

    pub open spec fn spec_bg(self, c: Color) -> Style {
        Style { bg: Some(c), ..self }
    }

    pub open spec fn spec_add_modifier(self, m: Modifier) -> Style {
        Style { modifiers: self.modifiers.spec_with(m), ..self }
    }

    /// This style with the foreground colour set to `c`.
    pub fn fg(self, c: Color) -> (r: Style)
        ensures
            r == self.spec_fg(c),
    {
        Style { fg: Some(c), ..self }
    }

    /// This style with the background colour set to `c`.
    pub fn bg(self, c: Color) -> (r: Style)
        ensures
            r == self.spec_bg(c),
    {
        Style { bg: Some(c), ..self }
    }

    /// This style with `m` added to its modifiers.
    pub fn add_modifier(self, m: Modifier) -> (r: Style)
        ensures
            r == self.spec_add_modifier(m),
    {
        Style { modifiers: self.modifiers.with(m), ..self }
    }
}

impl Default for Style {
    fn default() -> (r: Style)
        ensures
            r == plain(),
    {
        Style::new()
    }
}

/// A run of text drawn in one style.
#[derive(Clone, Debug)]
pub struct Span {
    pub content: String,
    pub style: Style,
}

/// One line of styled text.
#[derive(Clone, Debug)]
pub struct Line {
    pub spans: Vec<Span>,
}

/// Several lines of styled text.
#[derive(Clone, Debug)]
pub struct Text {
    pub lines: Vec<Line>,
}

impl View for Span {
    type V = (Seq<char>, Style);

    open spec fn view(&self) -> (Seq<char>, Style) {
        (self.content@, self.style)
    }
}

impl View for Line {
    type V = Seq<(Seq<char>, Style)>;

    open spec fn view(&self) -> Seq<(Seq<char>, Style)> {
        self.spans@.map_values(|s: Span| s@)
    }
}

impl View for Text {
    type V = Seq<Seq<(Seq<char>, Style)>>;

    open spec fn view(&self) -> Seq<Seq<(Seq<char>, Style)>> {
        self.lines@.map_values(|l: Line| l@)
    }
}

impl Span {
    /// A span of `content` in the plain style.
    pub fn raw(content: String) -> (r: Span)
        ensures
            r@ == (content@, plain()),
    {
        Span { content, style: Style::new() }
    }

    /// A span of `content` in `style`.
    pub fn styled(content: String, style: Style) -> (r: Span)
        ensures
            r@ == (content@, style),
    {
        Span { content, style }
    }
}

} // verus!
