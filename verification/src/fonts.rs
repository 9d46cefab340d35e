//! Fonts and font metrics.
//!
//! The cache only tracks what the verified rendering logic needs to know
//! about a font: whether it is one of the built-in fonts, which are limited
//! to a single-byte encoding, or an embedded font addressed by glyph
//! identifiers.  Glyph metrics (ascents, kerning, glyph identifiers) come
//! from an outside shaping collaborator and are passed into the drawing
//! calls as plain values.

use vstd::prelude::*;

use crate::Mm;

verus! {

/// One of the fourteen fonts that every conforming document reader
/// provides.  Built-in fonts are restricted to a single-byte encoding.
#[derive(Clone, Copy, PartialEq, Eq, Structural, Debug)]
pub enum BuiltinFont {
    Courier,
    CourierBold,
    CourierOblique,
    CourierBoldOblique,
    Helvetica,
    HelveticaBold,
    HelveticaOblique,
    HelveticaBoldOblique,
    TimesRoman,
    TimesBold,
    TimesItalic,
    TimesBoldItalic,
    Symbol,
    ZapfDingbats,
}

/// Where a font comes from: a built-in font, or a font program embedded
/// into the document from raw bytes.
#[derive(Clone, Debug)]
pub enum FontSource {
    Builtin(BuiltinFont),
    Embedded(Vec<u8>),
}

impl FontSource {
    /// Whether this font is one of the built-in fonts.
    pub open spec fn spec_is_builtin(&self) -> bool {
        self is Builtin
    }
}

/// The fonts registered for a document, addressed by index.
#[derive(Clone, Debug)]
pub struct FontCache {
    fonts: Vec<FontSource>,
}

impl FontCache {
    /// The registered font sources, in registration order.
    pub closed spec fn spec_fonts(&self) -> Seq<FontSource> {
        self.fonts@
    }

    /// An empty cache with no fonts.
    pub fn new() -> (r: FontCache)
        ensures
            r.spec_fonts() == Seq::<FontSource>::empty(),
    {
        FontCache { fonts: Vec::new() }
    }

    /// The number of registered fonts.
    pub fn font_count(&self) -> (r: usize)
        ensures
            r == self.spec_fonts().len(),
    {
        self.fonts.len()
    }

    /// Registers a built-in font and returns its index.
    pub fn add_builtin_font(&mut self, builtin: BuiltinFont) -> (r: usize)
        ensures
            r == old(self).spec_fonts().len(),
            final(self).spec_fonts() == old(self).spec_fonts().push(
                FontSource::Builtin(builtin),
            ),
    {
        let r = self.fonts.len();
        self.fonts.push(FontSource::Builtin(builtin));
        r
    }

    /// Registers an embedded font from raw font-program bytes and returns
    /// its index.
    pub fn add_embedded_font(&mut self, data: Vec<u8>) -> (r: usize)
        ensures
            r == old(self).spec_fonts().len(),
            final(self).spec_fonts() == old(self).spec_fonts().push(
                FontSource::Embedded(data),
            ),
    {
        let r = self.fonts.len();
        self.fonts.push(FontSource::Embedded(data));
        r
    }

    /// Whether the font at the given index is a built-in font.
    pub fn is_builtin(&self, idx: usize) -> (r: bool)
        requires
            idx < self.spec_fonts().len(),
        ensures
            r == self.spec_fonts()[idx as int].spec_is_builtin(),
    {
        match &self.fonts[idx] {
            FontSource::Builtin(_) => true,
            FontSource::Embedded(_) => false,
        }
    }

    /// The font source at the given index.
    pub fn get(&self, idx: usize) -> (r: Option<&FontSource>)
        ensures
            idx < self.spec_fonts().len() ==> r == Some(&self.spec_fonts()[idx as int]),
            idx >= self.spec_fonts().len() ==> r is None,
    {
        if idx < self.fonts.len() {
            Some(&self.fonts[idx])
        } else {
            None
        }
    }
}

/// Line metrics of a font at a chosen size, as the shaping collaborator
/// reports them: the ascent above the baseline, the advance from one line
/// to the next, and the height of the tallest glyph.
#[derive(Clone, Copy, PartialEq, Eq, Structural, Debug)]
pub struct Metrics {
    pub ascent: Mm,
    pub line_height: Mm,
    pub glyph_height: Mm,
}

impl Metrics {
    pub fn new(ascent: Mm, line_height: Mm, glyph_height: Mm) -> (r: Metrics)
        ensures
            r.ascent == ascent,
            r.line_height == line_height,
            r.glyph_height == glyph_height,
    {
        Metrics { ascent, line_height, glyph_height }
    }
}

/// What the shaping collaborator reports for one string in one font: the
/// kerning adjustment before each glyph in thousandths of an em (positive
/// values widen the gap), the glyph identifiers for embedded fonts, and
/// the left side bearing of the first glyph.
#[derive(Clone, Debug)]
pub struct TextShaping {
    pub kerning_milli_em: Vec<i64>,
    pub glyph_ids: Vec<u16>,
    pub left_side_bearing: Mm,
}

impl TextShaping {
    pub fn new(kerning_milli_em: Vec<i64>, glyph_ids: Vec<u16>, left_side_bearing: Mm) -> (r:
        TextShaping)
        ensures
            r.kerning_milli_em == kerning_milli_em,
            r.glyph_ids == glyph_ids,
            r.left_side_bearing == left_side_bearing,
    {
        TextShaping { kerning_milli_em, glyph_ids, left_side_bearing }
    }
}

} // verus!
