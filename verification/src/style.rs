//! Presentation attributes for text fragments: a named color and the
//! emphasis flags the portfolio uses. Styles are immutable values attached
//! to each fragment; there is no shared style state.

use vstd::prelude::*;

verus! {

/// A color by name; `Reset` leaves the surface's own default in force.
#[derive(Clone, Copy, PartialEq, Eq, Structural, Debug)]
pub enum ColorName {
    Reset,
    Black,
    White,
    LightGreen,
    LightMagenta,
}

/// Presentation attributes of one text fragment.
#[derive(Clone, Copy, PartialEq, Eq, Structural, Debug)]
pub struct TextStyle {
    pub fg: ColorName,
    pub bold: bool,
    pub underlined: bool,
}

pub open spec fn plain_spec() -> TextStyle {
    TextStyle { fg: ColorName::Reset, bold: false, underlined: false }
}

pub open spec fn title_style_spec() -> TextStyle {
    TextStyle { fg: ColorName::Reset, bold: true, underlined: true }
}

pub open spec fn highlight_style_spec() -> TextStyle {
    TextStyle { fg: ColorName::LightGreen, bold: true, underlined: false }
}

pub open spec fn accent_style_spec() -> TextStyle {
    TextStyle { fg: ColorName::LightMagenta, bold: false, underlined: false }
}

impl TextStyle {
    /// No color, no emphasis.
    pub fn plain() -> (r: TextStyle)
        ensures
            r == plain_spec(),
    {
        TextStyle { fg: ColorName::Reset, bold: false, underlined: false }
    }

    /// Bold and underlined: how a job title is set.
    pub fn title() -> (r: TextStyle)
        ensures
            r == title_style_spec(),
    {
        TextStyle { fg: ColorName::Reset, bold: true, underlined: true }
    }

    /// Light green and bold: how the lead of an achievement is set.
    pub fn highlight() -> (r: TextStyle)
        ensures
            r == highlight_style_spec(),
    {
        TextStyle { fg: ColorName::LightGreen, bold: true, underlined: false }
    }

    /// Light magenta: how the side-project panel's caption is set.
    pub fn accent() -> (r: TextStyle)
        ensures
            r == accent_style_spec(),
    {
        TextStyle { fg: ColorName::LightMagenta, bold: false, underlined: false }
    }
}

impl Default for TextStyle {
    fn default() -> (r: TextStyle)
        ensures
            r == plain_spec(),
    {
        TextStyle::plain()
    }
}

} // verus!
