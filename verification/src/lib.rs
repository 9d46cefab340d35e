//! Low-level, verified page-rendering primitives.
//!
//! A [`render::Renderer`] builds a paginated document out of pages and layers.
//! Drawing happens through [`render::Area`] views on a layer; every drawing
//! call is recorded as a backend command carrying plain integer coordinates,
//! so that an unverified shell can replay the commands against a PDF backend.
//!
//! All physical lengths are fixed-point integers: a [`Mm`] holds thousandths
//! of a millimeter, a [`Rotation`] holds thousandths of a degree, and a
//! [`Scale`] holds millionths of the scale factor.

use vstd::prelude::*;

pub mod backend;
pub mod error;
pub mod fonts;
pub mod render;
pub mod images;
pub mod style;
pub mod trig;

verus! {

/// Largest magnitude, in thousandths of a millimeter, that a well-formed
/// length may have.  Keeping lengths in this range lets every product with a
/// trigonometric fixed-point factor fit in 64 bits.
pub const MAX_UM: i64 = 1_000_000_000_000;

/// A physical length, stored as thousandths of a millimeter.
#[derive(Clone, Copy, PartialEq, Eq, Structural, Debug)]
pub struct Mm(pub i64);

impl Mm {
    /// A length is well formed when its magnitude stays within [`MAX_UM`].
    pub open spec fn wf(self) -> bool {
        -MAX_UM <= self.0 <= MAX_UM
    }

    /// Builds a length from whole millimeters.
    pub fn from_mm(v: i64) -> (r: Mm)
        requires
            -1_000_000_000 <= v <= 1_000_000_000,
        ensures
            r.0 == v * 1000,
            r.wf(),
    {
        Mm(v * 1000)
    }
}

impl Default for Mm {
    /// The zero length.
    fn default() -> (r: Mm)
        ensures
            r.0 == 0,
    {
        Mm(0)
    }
}

/// An offset from the top left corner of a layer or an area.
#[derive(Clone, Copy, PartialEq, Eq, Structural, Debug)]
pub struct Position {
    pub x: Mm,
    pub y: Mm,
}

impl Position {
    pub open spec fn wf(self) -> bool {
        self.x.wf() && self.y.wf()
    }

    pub fn new(x: Mm, y: Mm) -> (r: Position)
        ensures
            r.x == x,
            r.y == y,
    {
        Position { x, y }
    }
}

impl Default for Position {
    /// The origin: no offset in either direction.
    fn default() -> (r: Position)
        ensures
            r.x.0 == 0,
            r.y.0 == 0,
    {
        Position { x: Mm(0), y: Mm(0) }
    }
}

/// The width and height of a rectangle.
#[derive(Clone, Copy, PartialEq, Eq, Structural, Debug)]
pub struct Size {
    pub width: Mm,
    pub height: Mm,
}

impl Size {
    pub open spec fn wf(self) -> bool {
        self.width.wf() && self.height.wf()
    }

    /// A size whose width and height are both non-negative.
    pub open spec fn non_negative(self) -> bool {
        self.width.0 >= 0 && self.height.0 >= 0
    }

    pub fn new(width: Mm, height: Mm) -> (r: Size)
        ensures
            r.width == width,
            r.height == height,
    {
        Size { width, height }
    }
}

impl Default for Size {
    /// The empty size.
    fn default() -> (r: Size)
        ensures
            r.width.0 == 0,
            r.height.0 == 0,
    {
        Size { width: Mm(0), height: Mm(0) }
    }
}

/// Margins that shrink the usable rectangle of an area on all four sides.
#[derive(Clone, Copy, PartialEq, Eq, Structural, Debug)]
pub struct Margins {
    pub left: Mm,
    pub top: Mm,
    pub right: Mm,
    pub bottom: Mm,
}

impl Margins {
    pub open spec fn wf(self) -> bool {
        self.left.wf() && self.top.wf() && self.right.wf() && self.bottom.wf()
    }

    pub fn new(left: Mm, top: Mm, right: Mm, bottom: Mm) -> (r: Margins)
        ensures
            r.left == left,
            r.top == top,
            r.right == right,
            r.bottom == bottom,
    {
        Margins { left, top, right, bottom }
    }
}

/// One million: the fixed-point unit of a [`Scale`] factor.
pub const SCALE_ONE: i64 = 1_000_000;

/// A multiplicative scale factor per axis, stored in millionths.
#[derive(Clone, Copy, PartialEq, Eq, Structural, Debug)]
pub struct Scale {
    pub x: i64,
    pub y: i64,
}

impl Scale {
    /// A scale factor is well formed when both axes are non-negative and at
    /// most one thousand (one billion millionths).
    pub open spec fn wf(self) -> bool {
        0 <= self.x <= 1_000_000_000 && 0 <= self.y <= 1_000_000_000
    }

    /// Builds a scale from per-axis factors in millionths.
    pub fn new(x: i64, y: i64) -> (r: Scale)
        ensures
            r.x == x,
            r.y == y,
    {
        Scale { x, y }
    }
}

impl Default for Scale {
    /// The identity scale: one in both directions.
    fn default() -> (r: Scale)
        ensures
            r.x == SCALE_ONE,
            r.y == SCALE_ONE,
            r.wf(),
    {
        Scale { x: SCALE_ONE, y: SCALE_ONE }
    }
}

/// Half a turn, in thousandths of a degree.
pub const HALF_TURN_MDEG: i64 = 180_000;

/// A clockwise rotation angle, stored in thousandths of a degree and
/// constrained to the closed range from minus half a turn to half a turn.
#[derive(Clone, Copy, PartialEq, Eq, Structural, Debug)]
pub struct Rotation {
    pub millidegrees: i64,
}

impl Rotation {
    /// The angle stays within the closed range of minus 180 to 180 degrees.
    pub open spec fn is_valid(self) -> bool {
        -HALF_TURN_MDEG <= self.millidegrees <= HALF_TURN_MDEG
    }

    /// Builds a rotation from thousandths of a degree.  Angles outside the
    /// closed range of minus 180 to 180 degrees are a contract violation.
    pub fn from_millidegrees(millidegrees: i64) -> (r: Rotation)
        requires
            -HALF_TURN_MDEG <= millidegrees <= HALF_TURN_MDEG,
        ensures
            r.millidegrees == millidegrees,
            r.is_valid(),
    {
        Rotation { millidegrees }
    }
}

impl Default for Rotation {
    /// No rotation.
    fn default() -> (r: Rotation)
        ensures
            r.millidegrees == 0,
            r.is_valid(),
    {
        Rotation { millidegrees: 0 }
    }
}

/// Horizontal alignment of content that has no absolute position.
#[derive(Clone, Copy, PartialEq, Eq, Structural, Debug)]
pub enum Alignment {
    Left,
    Center,
    Right,
}

impl Default for Alignment {
    /// Content aligns to the left edge.
    fn default() -> (r: Alignment)
        ensures
            r == Alignment::Left,
    {
        Alignment::Left
    }
}

} // verus!
