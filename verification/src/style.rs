//! Colors and drawing styles.

use vstd::prelude::*;

use crate::Mm;

verus! {

/// A color in one of the supported color spaces.
#[derive(Clone, Copy, PartialEq, Eq, Structural, Debug)]
pub enum Color {
    /// Red, green and blue components, each between 0 and 255.
    Rgb(u8, u8, u8),
    /// A grey value between 0 (black) and 255 (white).
    Greyscale(u8),
}

/// The style of a drawn line: its color and its outline thickness.
#[derive(Clone, Copy, PartialEq, Eq, Structural, Debug)]
pub struct LineStyle {
    pub color: Color,
    pub thickness: Mm,
}

impl LineStyle {
    pub fn new(color: Color, thickness: Mm) -> (r: LineStyle)
        ensures
            r.color == color,
            r.thickness == thickness,
    {
        LineStyle { color, thickness }
    }

    /// The line color.
    pub fn color(&self) -> (r: Color)
        ensures
            r == self.color,
    {
        self.color
    }

    /// The line thickness.
    pub fn thickness(&self) -> (r: Mm)
        ensures
            r == self.thickness,
    {
        self.thickness
    }
}

/// The style of printed text: the font (an index into a
/// [`crate::fonts::FontCache`]), the font size in points, and an optional
/// fill color.  Without a color, text is filled black.
#[derive(Clone, Copy, Debug)]
pub struct Style {
    pub font: usize,
    pub font_size: u8,
    pub color: Option<Color>,
}

impl Style {
    pub fn new(font: usize, font_size: u8, color: Option<Color>) -> (r: Style)
        ensures
            r.font == font,
            r.font_size == font_size,
            r.color == color,
    {
        Style { font, font_size, color }
    }

    /// The font size in points.
    pub fn font_size(&self) -> (r: u8)
        ensures
            r == self.font_size,
    {
        self.font_size
    }

    /// The configured fill color, if any.
    pub fn color(&self) -> (r: Option<Color>)
        ensures
            r == self.color,
    {
        self.color
    }
}

} // verus!
