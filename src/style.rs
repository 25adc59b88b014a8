use vstd::prelude::*;

verus! {

/// A terminal color.
#[derive(Clone, Copy, Debug, PartialEq, Eq, Structural)]
pub enum Color {
    Reset,
    Black,
    DarkGrey,
    Red,
    DarkRed,
    Green,
    DarkGreen,
    Yellow,
    DarkYellow,
    Blue,
    DarkBlue,
    Magenta,
    DarkMagenta,
    Cyan,
    DarkCyan,
    White,
    Grey,
    Rgb { r: u8, g: u8, b: u8 },
    AnsiValue(u8),
}

/// Visual attributes attached to a character of the buffer.
#[derive(Clone, Copy, Debug, PartialEq, Eq, Structural)]
pub struct Style {
    pub foreground: Option<Color>,
    pub background: Option<Color>,
}

/// The style with no attribute set.
pub open spec fn plain_style() -> Style {
    Style { foreground: None, background: None }
}

impl Style {
    /// A style with no attribute set.
    pub fn new() -> (r: Style)
        ensures
            r == plain_style(),
    {
        Style { foreground: None, background: None }
    }

    pub fn set_foreground_color(&mut self, color: Color)
        ensures
            *final(self) == (Style { foreground: Some(color), ..*old(self) }),
    {
        self.foreground = Some(color);
    }

    pub fn set_background_color(&mut self, color: Color)
        ensures
            *final(self) == (Style { background: Some(color), ..*old(self) }),
    {
        self.background = Some(color);
    }
}

impl Default for Style {
    fn default() -> (r: Style)
        ensures
            r == plain_style(),
    {
        Style::new()
    }
}

/// Shape of the terminal cursor while editing.
#[derive(Clone, Copy, Debug, PartialEq, Eq, Structural)]
pub enum CursorStyle {
    DefaultUserShape,
    BlinkingBlock,
    SteadyBlock,
    BlinkingUnderScore,
    SteadyUnderScore,
    BlinkingBar,
    SteadyBar,
}

} // verus!
