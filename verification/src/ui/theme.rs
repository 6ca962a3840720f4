//! The colours of the wizard and the text styles made from them, as plain
//! values that any terminal library can be fed with.

use vstd::prelude::*;

verus! {

/// A colour by its red, green and blue parts.
#[derive(Debug, Clone, Copy, PartialEq, Eq)]
pub struct Rgb {
    pub r: u8,
    pub g: u8,
    pub b: u8,
}

/// How a piece of text is drawn: its foreground colour, and whether it is
/// bold.
#[derive(Debug, Clone, Copy, PartialEq, Eq)]
pub struct TextStyle {
    pub fg: Rgb,
    pub bold: bool,
}

/// Color theme for the TUI wizard.
#[derive(Debug, Clone)]
pub struct Theme {
    pub primary: Rgb,
    pub secondary: Rgb,
    pub bg: Rgb,
    pub fg: Rgb,
    pub accent: Rgb,
    pub error: Rgb,
    pub border: Rgb,
    pub highlight: Rgb,
}

/// The Tokyonight-inspired palette that a theme starts with.
pub open spec fn default_theme() -> Theme {
    Theme {
        primary: Rgb { r: 122, g: 162, b: 247 },
        secondary: Rgb { r: 187, g: 154, b: 247 },
        bg: Rgb { r: 26, g: 27, b: 38 },
        fg: Rgb { r: 192, g: 202, b: 245 },
        accent: Rgb { r: 158, g: 206, b: 106 },
        error: Rgb { r: 247, g: 118, b: 142 },
        border: Rgb { r: 59, g: 66, b: 97 },
        highlight: Rgb { r: 69, g: 78, b: 115 },
    }
}

impl Default for Theme {
    fn default() -> (res: Self)
        ensures
            res == default_theme(),
    {
        // Tokyonight-inspired palette
        Self {
            primary: Rgb { r: 122, g: 162, b: 247 },  // Blue
            secondary: Rgb { r: 187, g: 154, b: 247 },  // Purple
            bg: Rgb { r: 26, g: 27, b: 38 },  // Dark background
            fg: Rgb { r: 192, g: 202, b: 245 },  // Light foreground
            accent: Rgb { r: 158, g: 206, b: 106 },  // Green
            error: Rgb { r: 247, g: 118, b: 142 },  // Red/pink
            border: Rgb { r: 59, g: 66, b: 97 },  // Muted border
            highlight: Rgb { r: 69, g: 78, b: 115 },  // Selection highlight
        }
    }
}

impl Theme {
    /// Titles: the primary colour, bold.
    pub fn title_style(&self) -> (res: TextStyle)
        ensures
            res == (TextStyle { fg: self.primary, bold: true }),
    {
        TextStyle { fg: self.primary, bold: true }
    }

    /// Text in an input field: the foreground colour.
    pub fn input_style(&self) -> (res: TextStyle)
        ensures
            res == (TextStyle { fg: self.fg, bold: false }),
    {
        TextStyle { fg: self.fg, bold: false }
    }

    /// A selected entry: the accent colour, bold.
    pub fn selected_style(&self) -> (res: TextStyle)
        ensures
            res == (TextStyle { fg: self.accent, bold: true }),
    {
        TextStyle { fg: self.accent, bold: true }
    }

    /// Help lines: the border colour.
    pub fn help_style(&self) -> (res: TextStyle)
        ensures
            res == (TextStyle { fg: self.border, bold: false }),
    {
        TextStyle { fg: self.border, bold: false }
    }

    /// Error messages: the error colour.
    pub fn error_style(&self) -> (res: TextStyle)
        ensures
            res == (TextStyle { fg: self.error, bold: false }),
    {
        TextStyle { fg: self.error, bold: false }
    }

    /// The border of the widget in focus: the primary colour.
    pub fn focused_border_style(&self) -> (res: TextStyle)
        ensures
            res == (TextStyle { fg: self.primary, bold: false }),
    {
        TextStyle { fg: self.primary, bold: false }
    }

    /// The border of a widget out of focus: the border colour.
    pub fn unfocused_border_style(&self) -> (res: TextStyle)
        ensures
            res == (TextStyle { fg: self.border, bold: false }),
    {
        TextStyle { fg: self.border, bold: false }
    }
}

} // verus!
