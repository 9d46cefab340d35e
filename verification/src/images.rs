//! Rotated-rectangle geometry and image placement.
//!
//! The central function is [`bounding_box_offset_and_size`]: given the size
//! of a rectangle and a clockwise rotation angle, it computes the smallest
//! axis-aligned box containing the rotated rectangle, together with the
//! offset from the box's top left corner to where the rectangle's lower left
//! corner lands.  The derivation splits the angle range into four branches;
//! the proofs below pin down the branch boundaries exactly.

use vstd::prelude::*;
use vstd::string::StringExecFns;

use crate::backend;
use crate::error::{Error, ErrorKind};
use crate::render::{Area, Command, Page};
use crate::trig::{
    lemma_mul_trig_bounds, lemma_mul_trig_one, lemma_mul_trig_zero, lemma_sin_fp_bounds,
    mul_trig, sin_cos_mag, spec_cos_mag, spec_mul_trig, spec_ref_angle, spec_sin_mag, TRIG_ONE,
};
use crate::{Alignment, Mm, Position, Rotation, Scale, Size, MAX_UM};

verus! {

/// The width and height of the smallest axis-aligned box that contains a
/// rectangle of the given size rotated clockwise by `rot` thousandths of a
/// degree: each dimension projects the width and the height onto the
/// rotated axes.
pub open spec fn spec_bbox_size(rot: int, size: Size) -> (int, int) {
    let s = spec_sin_mag(rot);
    let c = spec_cos_mag(rot);
    (
        spec_mul_trig(size.width.0 as int, c) + spec_mul_trig(size.height.0 as int, s),
        spec_mul_trig(size.height.0 as int, c) + spec_mul_trig(size.width.0 as int, s),
    )
}

/// The offset from the bounding box's top left corner to the rotated
/// position of the rectangle's lower left corner.  The four angle ranges
/// place that corner on the four sides of the bounding box in turn.
pub open spec fn spec_bbox_offset(rot: int, size: Size) -> (int, int) {
    let s = spec_sin_mag(rot);
    let c = spec_cos_mag(rot);
    let w = size.width.0 as int;
    let h = size.height.0 as int;
    if rot <= -90_000 {
        (spec_mul_trig(w, c), 0)
    } else if rot <= 0 {
        (0, spec_mul_trig(h, c))
    } else if rot <= 90_000 {
        (spec_mul_trig(h, s), spec_bbox_size(rot, size).1)
    } else {
        (spec_bbox_size(rot, size).0, spec_mul_trig(w, s))
    }
}

/// Computes the bounding box of a rotated rectangle and the placement
/// offset of its lower left corner, as fixed-point lengths.
pub fn bounding_box_offset_and_size(rotation: &Rotation, size: &Size) -> (r: (Position, Size))
    requires
        rotation.is_valid(),
        size.wf(),
        size.non_negative(),
    ensures
        r.1.width.0 == spec_bbox_size(rotation.millidegrees as int, *size).0,
        r.1.height.0 == spec_bbox_size(rotation.millidegrees as int, *size).1,
        r.0.x.0 == spec_bbox_offset(rotation.millidegrees as int, *size).0,
        r.0.y.0 == spec_bbox_offset(rotation.millidegrees as int, *size).1,
        0 <= r.1.width.0 <= size.width.0 + size.height.0,
        0 <= r.1.height.0 <= size.width.0 + size.height.0,
        0 <= r.0.x.0 <= size.width.0 + size.height.0,
        0 <= r.0.y.0 <= size.width.0 + size.height.0,
{
    let (s, c) = sin_cos_mag(rotation.millidegrees);
    let wc: i64 = mul_trig(size.width.0, c);
    let ws: i64 = mul_trig(size.width.0, s);
    let hc: i64 = mul_trig(size.height.0, c);
    let hs: i64 = mul_trig(size.height.0, s);
    let bb_w: i64 = wc + hs;
    let bb_h: i64 = hc + ws;
    let bb_size = Size::new(Mm(bb_w), Mm(bb_h));
    let md: i64 = rotation.millidegrees;
    let bb_pos = if md <= -90_000 {
        Position::new(Mm(wc), Mm(0))
    } else if md <= 0 {
        Position::new(Mm(0), Mm(hc))
    } else if md <= 90_000 {
        Position::new(Mm(hs), Mm(bb_h))
    } else {
        Position::new(Mm(bb_w), Mm(ws))
    };
    (bb_pos, bb_size)
}

/// Mirroring the rotation angle leaves the bounding-box size unchanged:
/// the box at some angle equals the box at the negated angle.
pub proof fn lemma_bbox_size_negate(rot: int, size: Size)
    requires
        -180_000 <= rot <= 180_000,
    ensures
        spec_bbox_size(rot, size) == spec_bbox_size(-rot, size),
{
    assert(spec_ref_angle(rot) == spec_ref_angle(-rot));
}

/// Replacing the angle by its supplement leaves the bounding-box size
/// unchanged: the box at some angle equals the box at a half turn minus
/// that angle.
pub proof fn lemma_bbox_size_supplement(rot: int, size: Size)
    requires
        0 <= rot <= 180_000,
    ensures
        spec_bbox_size(180_000 - rot, size) == spec_bbox_size(rot, size),
{
    assert(spec_ref_angle(180_000 - rot) == spec_ref_angle(rot));
}

/// The bounding box of a rotated square is itself square.
pub proof fn lemma_bbox_square(rot: int, size: Size)
    requires
        size.width == size.height,
    ensures
        spec_bbox_size(rot, size).0 == spec_bbox_size(rot, size).1,
{
}

/// At a clockwise or counter-clockwise quarter turn the bounding box swaps
/// the rectangle's axes exactly.
pub proof fn lemma_bbox_quarter_turn(rot: int, size: Size)
    requires
        size.wf(),
        size.non_negative(),
        rot == 90_000 || rot == -90_000,
    ensures
        spec_bbox_size(rot, size).0 == size.height.0 as int,
        spec_bbox_size(rot, size).1 == size.width.0 as int,
{
    assert(spec_ref_angle(rot) == 90_000);
    crate::trig::lemma_sin_fp_quarter();
    crate::trig::lemma_sin_fp_zero();
    assert(spec_sin_mag(rot) == TRIG_ONE);
    assert(spec_cos_mag(rot) == 0);
    lemma_mul_trig_one(size.width.0 as int);
    lemma_mul_trig_one(size.height.0 as int);
    lemma_mul_trig_zero(size.width.0 as int);
    lemma_mul_trig_zero(size.height.0 as int);
}

/// The placement offset always lands inside the bounding box: both of its
/// components lie between zero and the corresponding box dimension.
pub proof fn lemma_bbox_offset_in_box(rot: int, size: Size)
    requires
        -180_000 <= rot <= 180_000,
        size.wf(),
        size.non_negative(),
    ensures
        0 <= spec_bbox_offset(rot, size).0 <= spec_bbox_size(rot, size).0,
        0 <= spec_bbox_offset(rot, size).1 <= spec_bbox_size(rot, size).1,
{
    let refa = spec_ref_angle(rot);
    assert(0 <= refa <= 90_000);
    lemma_sin_fp_bounds(refa);
    lemma_sin_fp_bounds(90_000 - refa);
    lemma_mul_trig_bounds(size.width.0 as int, spec_sin_mag(rot));
    lemma_mul_trig_bounds(size.width.0 as int, spec_cos_mag(rot));
    lemma_mul_trig_bounds(size.height.0 as int, spec_sin_mag(rot));
    lemma_mul_trig_bounds(size.height.0 as int, spec_cos_mag(rot));
}

/// At zero rotation the bounding box equals the input size and the offset
/// is the zero abscissa together with the height: the rectangle's lower
/// left corner sits on the box's lower left corner.
pub proof fn lemma_bbox_identity(size: Size)
    requires
        size.wf(),
        size.non_negative(),
    ensures
        spec_bbox_size(0, size).0 == size.width.0 as int,
        spec_bbox_size(0, size).1 == size.height.0 as int,
        spec_bbox_offset(0, size).0 == 0,
        spec_bbox_offset(0, size).1 == size.height.0 as int,
{
    assert(spec_ref_angle(0) == 0);
    crate::trig::lemma_sin_fp_quarter();
    crate::trig::lemma_sin_fp_zero();
    assert(spec_sin_mag(0) == 0);
    assert(spec_cos_mag(0) == TRIG_ONE);
    lemma_mul_trig_one(size.width.0 as int);
    lemma_mul_trig_one(size.height.0 as int);
    lemma_mul_trig_zero(size.width.0 as int);
    lemma_mul_trig_zero(size.height.0 as int);
}


/// What a render pass reports back to its caller: the space the content
/// consumed, and whether content remains for another area.
#[derive(Clone, Copy, PartialEq, Eq, Structural, Debug)]
pub struct RenderResult {
    pub size: Size,
    pub has_more: bool,
}

impl Default for RenderResult {
    /// Nothing consumed and nothing left over.
    fn default() -> (r: RenderResult)
        ensures
            r.size.width.0 == 0,
            r.size.height.0 == 0,
            !r.has_more,
    {
        RenderResult { size: Size { width: Mm(0), height: Mm(0) }, has_more: false }
    }
}

/// The default resolution assumed for an image, in thousandths of dots
/// per inch.
pub const DEFAULT_DPI_MILLI: i64 = 300_000;

/// Half of a difference, rounded toward zero.
pub open spec fn spec_half_toward_zero(d: int) -> int {
    if d >= 0 {
        d / 2
    } else {
        -((-d) / 2)
    }
}

/// The horizontal offset of content of the given width inside a row of
/// the given maximal width: zero for left alignment, half the leftover
/// space for centering, all of it for right alignment.
pub open spec fn spec_alignment_offset(a: Alignment, width: int, max_width: int) -> int {
    match a {
        Alignment::Left => 0,
        Alignment::Center => spec_half_toward_zero(max_width - width),
        Alignment::Right => max_width - width,
    }
}

/// The physical extent, in thousandths of a millimeter, of `px` pixels at
/// `dpi_milli` thousandths of dots per inch, scaled by `scale_fp`
/// millionths: 25.4 millimeters per inch times the scaled pixel count
/// over the resolution.
pub open spec fn spec_image_extent_um(px: int, scale_fp: int, dpi_milli: int) -> int {
    25400 * px * scale_fp / (1000 * dpi_milli)
}

/// An image to place on a page.
///
/// The decoded pixel buffer is carried through to the backend untouched;
/// the verified logic works on its pixel dimensions, the configured
/// alignment, absolute position, scale, clockwise rotation and resolution.
/// Pixel buffers with an alpha channel are rejected at construction.
#[derive(Debug)]
pub struct Image {
    data: printpdf::image_crate::DynamicImage,
    width_px: u32,
    height_px: u32,
    alignment: Alignment,
    position: Option<Position>,
    scale: Scale,
    rotation: Rotation,
    dpi_milli: Option<i64>,
}

impl Image {
    /// The decoded pixel buffer.
    pub closed spec fn spec_data(&self) -> printpdf::image_crate::DynamicImage {
        self.data
    }

    /// The pixel width of the buffer.
    pub closed spec fn spec_width_px(&self) -> u32 {
        self.width_px
    }

    /// The pixel height of the buffer.
    pub closed spec fn spec_height_px(&self) -> u32 {
        self.height_px
    }

    /// The alignment used when no absolute position is set.
    pub closed spec fn spec_alignment(&self) -> Alignment {
        self.alignment
    }

    /// The absolute position, if one is set.
    pub closed spec fn spec_position(&self) -> Option<Position> {
        self.position
    }

    /// The configured scale.
    pub closed spec fn spec_scale(&self) -> Scale {
        self.scale
    }

    /// The configured clockwise rotation.
    pub closed spec fn spec_rotation(&self) -> Rotation {
        self.rotation
    }

    /// The configured resolution override in thousandths of dots per
    /// inch, if one is set.
    pub closed spec fn spec_dpi_milli(&self) -> Option<i64> {
        self.dpi_milli
    }

    /// The resolution used: the override, or the default.
    pub open spec fn spec_dpi_or_default(&self) -> int {
        match self.spec_dpi_milli() {
            Some(d) => d as int,
            None => DEFAULT_DPI_MILLI as int,
        }
    }

    /// The physical width of the image under its scale and resolution.
    pub open spec fn spec_true_width_um(&self) -> int {
        spec_image_extent_um(
            self.spec_width_px() as int,
            self.spec_scale().x as int,
            self.spec_dpi_or_default(),
        )
    }

    /// The physical height of the image under its scale and resolution.
    pub open spec fn spec_true_height_um(&self) -> int {
        spec_image_extent_um(
            self.spec_height_px() as int,
            self.spec_scale().y as int,
            self.spec_dpi_or_default(),
        )
    }

    /// An image is well formed when its scale, rotation, resolution and
    /// absolute position (if any) are.
    pub open spec fn wf(&self) -> bool {
        &&& self.spec_scale().wf()
        &&& self.spec_rotation().is_valid()
        &&& (self.spec_dpi_milli() matches Some(d) ==> 1 <= d)
        &&& (self.spec_position() matches Some(p) ==> p.wf())
    }

    /// Builds an image from a pixel buffer whose dimensions and alpha
    /// flag the caller has read off the buffer.  A buffer with an alpha
    /// channel is rejected with an invalid-data error before any geometry
    /// or backend command is involved; otherwise the image starts with
    /// left alignment, no absolute position, the identity scale, no
    /// rotation and the default resolution.
    pub fn from_pixel_dimensions(
        data: printpdf::image_crate::DynamicImage,
        width_px: u32,
        height_px: u32,
        has_alpha: bool,
    ) -> (r: Result<Image, Error>)
        ensures
            (r is Err) <==> has_alpha,
            r is Err ==> r->Err_0.spec_kind() == ErrorKind::InvalidData
                && r->Err_0.spec_msg() == (
            "Images with an alpha channel are not supported"
            )@,
            r matches Ok(img) ==> img.spec_data() == data && img.spec_width_px() == width_px
                && img.spec_height_px() == height_px && img.spec_alignment() == Alignment::Left
                && img.spec_position() is None && img.spec_scale() == (Scale {
                x: crate::SCALE_ONE,
                y: crate::SCALE_ONE,
            }) && img.spec_rotation().millidegrees == 0 && img.spec_dpi_milli() is None
                && img.wf(),
    {
        if has_alpha {
            Err(
                Error::new(
                    String::from_str("Images with an alpha channel are not supported"),
                    ErrorKind::InvalidData,
                ),
            )
        } else {
            Ok(
                Image {
                    data,
                    width_px,
                    height_px,
                    alignment: Alignment::default(),
                    position: None,
                    scale: Scale::default(),
                    rotation: Rotation::default(),
                    dpi_milli: None,
                },
            )
        }
    }

    /// Builds an image from an already decoded pixel buffer, reading its
    /// dimensions and alpha flag off the buffer.  Buffers with an alpha
    /// channel are rejected with an invalid-data error.
    pub fn from_dynamic_image(data: printpdf::image_crate::DynamicImage) -> (r: Result<
        Image,
        Error,
    >)
        ensures
            r is Err ==> r->Err_0.spec_kind() == ErrorKind::InvalidData
                && r->Err_0.spec_msg() == (
            "Images with an alpha channel are not supported"
            )@,
            r matches Ok(img) ==> img.spec_data() == data && img.spec_alignment()
                == Alignment::Left && img.spec_position() is None && img.spec_scale() == (Scale {
                x: crate::SCALE_ONE,
                y: crate::SCALE_ONE,
            }) && img.spec_rotation().millidegrees == 0 && img.spec_dpi_milli() is None
                && img.wf(),
    {
        let (width_px, height_px) = backend::image_dimensions(&data);
        let has_alpha = backend::image_has_alpha(&data);
        Image::from_pixel_dimensions(data, width_px, height_px, has_alpha)
    }

    /// Places the image at an absolute position instead of aligning it.
    pub fn set_position(&mut self, position: Position)
        ensures
            final(self).spec_position() == Some(position),
            final(self).spec_data() == old(self).spec_data(),
            final(self).spec_width_px() == old(self).spec_width_px(),
            final(self).spec_height_px() == old(self).spec_height_px(),
            final(self).spec_alignment() == old(self).spec_alignment(),
            final(self).spec_scale() == old(self).spec_scale(),
            final(self).spec_rotation() == old(self).spec_rotation(),
            final(self).spec_dpi_milli() == old(self).spec_dpi_milli(),
    {
        self.position = Some(position);
    }

    /// Places the image at an absolute position and returns it.
    pub fn with_position(self, position: Position) -> (r: Image)
        ensures
            r.spec_position() == Some(position),
            r.spec_data() == self.spec_data(),
            r.spec_width_px() == self.spec_width_px(),
            r.spec_height_px() == self.spec_height_px(),
            r.spec_alignment() == self.spec_alignment(),
            r.spec_scale() == self.spec_scale(),
            r.spec_rotation() == self.spec_rotation(),
            r.spec_dpi_milli() == self.spec_dpi_milli(),
    {
        let mut s = self;
        s.set_position(position);
        s
    }

    /// Scales the image.
    pub fn set_scale(&mut self, scale: Scale)
        ensures
            final(self).spec_scale() == scale,
            final(self).spec_data() == old(self).spec_data(),
            final(self).spec_width_px() == old(self).spec_width_px(),
            final(self).spec_height_px() == old(self).spec_height_px(),
            final(self).spec_alignment() == old(self).spec_alignment(),
            final(self).spec_position() == old(self).spec_position(),
            final(self).spec_rotation() == old(self).spec_rotation(),
            final(self).spec_dpi_milli() == old(self).spec_dpi_milli(),
    {
        self.scale = scale;
    }

    /// Scales the image and returns it.
    pub fn with_scale(self, scale: Scale) -> (r: Image)
        ensures
            r.spec_scale() == scale,
            r.spec_data() == self.spec_data(),
            r.spec_width_px() == self.spec_width_px(),
            r.spec_height_px() == self.spec_height_px(),
            r.spec_alignment() == self.spec_alignment(),
            r.spec_position() == self.spec_position(),
            r.spec_rotation() == self.spec_rotation(),
            r.spec_dpi_milli() == self.spec_dpi_milli(),
    {
        let mut s = self;
        s.set_scale(scale);
        s
    }

    /// Sets the alignment used when no absolute position is set.
    pub fn set_alignment(&mut self, alignment: Alignment)
        ensures
            final(self).spec_alignment() == alignment,
            final(self).spec_data() == old(self).spec_data(),
            final(self).spec_width_px() == old(self).spec_width_px(),
            final(self).spec_height_px() == old(self).spec_height_px(),
            final(self).spec_position() == old(self).spec_position(),
            final(self).spec_scale() == old(self).spec_scale(),
            final(self).spec_rotation() == old(self).spec_rotation(),
            final(self).spec_dpi_milli() == old(self).spec_dpi_milli(),
    {
        self.alignment = alignment;
    }

    /// Sets the alignment and returns the image.
    pub fn with_alignment(self, alignment: Alignment) -> (r: Image)
        ensures
            r.spec_alignment() == alignment,
            r.spec_data() == self.spec_data(),
            r.spec_width_px() == self.spec_width_px(),
            r.spec_height_px() == self.spec_height_px(),
            r.spec_position() == self.spec_position(),
            r.spec_scale() == self.spec_scale(),
            r.spec_rotation() == self.spec_rotation(),
            r.spec_dpi_milli() == self.spec_dpi_milli(),
    {
        let mut s = self;
        s.set_alignment(alignment);
        s
    }

    /// Sets the clockwise rotation of the image around its lower left
    /// corner.
    pub fn set_clockwise_rotation(&mut self, rotation: Rotation)
        requires
            rotation.is_valid(),
        ensures
            final(self).spec_rotation() == rotation,
            final(self).spec_data() == old(self).spec_data(),
            final(self).spec_width_px() == old(self).spec_width_px(),
            final(self).spec_height_px() == old(self).spec_height_px(),
            final(self).spec_alignment() == old(self).spec_alignment(),
            final(self).spec_position() == old(self).spec_position(),
            final(self).spec_scale() == old(self).spec_scale(),
            final(self).spec_dpi_milli() == old(self).spec_dpi_milli(),
    {
        self.rotation = rotation;
    }

    /// Sets the clockwise rotation and returns the image.
    pub fn with_clockwise_rotation(self, rotation: Rotation) -> (r: Image)
        requires
            rotation.is_valid(),
        ensures
            r.spec_rotation() == rotation,
            r.spec_data() == self.spec_data(),
            r.spec_width_px() == self.spec_width_px(),
            r.spec_height_px() == self.spec_height_px(),
            r.spec_alignment() == self.spec_alignment(),
            r.spec_position() == self.spec_position(),
            r.spec_scale() == self.spec_scale(),
            r.spec_dpi_milli() == self.spec_dpi_milli(),
    {
        let mut s = self;
        s.set_clockwise_rotation(rotation);
        s
    }

    /// Overrides the expected resolution of the image, in thousandths of
    /// dots per inch.
    pub fn set_dpi(&mut self, dpi_milli: i64)
        requires
            dpi_milli >= 1,
        ensures
            final(self).spec_dpi_milli() == Some(dpi_milli),
            final(self).spec_data() == old(self).spec_data(),
            final(self).spec_width_px() == old(self).spec_width_px(),
            final(self).spec_height_px() == old(self).spec_height_px(),
            final(self).spec_alignment() == old(self).spec_alignment(),
            final(self).spec_position() == old(self).spec_position(),
            final(self).spec_scale() == old(self).spec_scale(),
            final(self).spec_rotation() == old(self).spec_rotation(),
    {
        self.dpi_milli = Some(dpi_milli);
    }

    /// Overrides the expected resolution and returns the image.
    pub fn with_dpi(self, dpi_milli: i64) -> (r: Image)
        requires
            dpi_milli >= 1,
        ensures
            r.spec_dpi_milli() == Some(dpi_milli),
            r.spec_data() == self.spec_data(),
            r.spec_width_px() == self.spec_width_px(),
            r.spec_height_px() == self.spec_height_px(),
            r.spec_alignment() == self.spec_alignment(),
            r.spec_position() == self.spec_position(),
            r.spec_scale() == self.spec_scale(),
            r.spec_rotation() == self.spec_rotation(),
    {
        let mut s = self;
        s.set_dpi(dpi_milli);
        s
    }

    /// The horizontal offset of content of the given width under this
    /// image's alignment.
    fn get_offset(&self, width: Mm, max_width: Mm) -> (r: Position)
        requires
            -2 * MAX_UM <= width.0 <= 2 * MAX_UM,
            max_width.wf(),
        ensures
            r.x.0 == spec_alignment_offset(
                self.spec_alignment(),
                width.0 as int,
                max_width.0 as int,
            ),
            r.y.0 == 0,
    {
        let x: i64 = match self.alignment {
            Alignment::Left => 0,
            Alignment::Center => {
                let d: i64 = max_width.0 - width.0;
                if d >= 0 {
                    ((d as u64) / 2) as i64
                } else {
                    -((((-d) as u64) / 2) as i64)
                }
            },
            Alignment::Right => max_width.0 - width.0,
        };
        Position { x: Mm(x), y: Mm(0) }
    }

    /// The physical size of the image from its pixel dimensions, scale
    /// and resolution.
    fn get_size(&self) -> (r: Size)
        requires
            self.wf(),
            self.spec_true_width_um() <= MAX_UM,
            self.spec_true_height_um() <= MAX_UM,
        ensures
            r.width.0 == self.spec_true_width_um(),
            r.height.0 == self.spec_true_height_um(),
            r.wf(),
            r.non_negative(),
    {
        let dpi: i64 = match self.dpi_milli {
            Some(d) => d,
            None => DEFAULT_DPI_MILLI,
        };
        proof {
            lemma_extent_in_range(self.spec_width_px() as int, self.spec_scale().x as int,
                dpi as int);
            lemma_extent_in_range(self.spec_height_px() as int, self.spec_scale().y as int,
                dpi as int);
        }
        let den: u128 = 1000u128 * (dpi as u128);
        let wq: u128 = 25400u128 * (self.width_px as u128) * (self.scale.x as u128) / den;
        let hq: u128 = 25400u128 * (self.height_px as u128) * (self.scale.y as u128) / den;
        Size { width: Mm(wq as i64), height: Mm(hq as i64) }
    }
}

/// A physical extent is never negative, and the fixed-point products
/// stay inside 128 bits.
proof fn lemma_extent_in_range(px: int, scale_fp: int, dpi_milli: int)
    requires
        0 <= px < 0x1_0000_0000,
        0 <= scale_fp <= 1_000_000_000,
        1 <= dpi_milli,
    ensures
        0 <= spec_image_extent_um(px, scale_fp, dpi_milli),
        0 <= 25400 * px * scale_fp <= 0x2_0000_0000_0000_0000_0000_0000,
{
    assert(0 <= 25400 * px <= 25400 * 0x1_0000_0000) by (nonlinear_arith)
        requires 0 <= px < 0x1_0000_0000;
    assert(0 <= 25400 * px * scale_fp <= 25400 * 0x1_0000_0000 * 1_000_000_000)
        by (nonlinear_arith)
        requires 0 <= 25400 * px <= 25400 * 0x1_0000_0000 && 0 <= scale_fp <= 1_000_000_000;
    assert(25400 * 0x1_0000_0000 * 1_000_000_000 < 0x2_0000_0000_0000_0000_0000_0000);
    vstd::arithmetic::div_mod::lemma_div_is_ordered(
        0,
        25400 * px * scale_fp,
        1000 * dpi_milli,
    );
}


/// The physical size of an image as a size value.
pub open spec fn spec_image_true_size(img: Image) -> Size {
    Size {
        width: Mm(img.spec_true_width_um() as i64),
        height: Mm(img.spec_true_height_um() as i64),
    }
}

/// The layer-space position at which a render pass places an image: the
/// configured absolute position, or the alignment offset of the rotated
/// bounding box inside the given row width; in both cases shifted by the
/// bounding-box offset so that rotation pivots around the intended
/// anchor.
pub open spec fn spec_render_position(img: Image, max_width: int) -> (int, int) {
    let ts = spec_image_true_size(img);
    let rot = img.spec_rotation().millidegrees as int;
    let off = spec_bbox_offset(rot, ts);
    match img.spec_position() {
        Some(p) => (p.x.0 + off.0, p.y.0 + off.1),
        None => (
            spec_alignment_offset(img.spec_alignment(), spec_bbox_size(rot, ts).0, max_width)
                + off.0,
            off.1,
        ),
    }
}

impl Image {
    /// Renders the image into the given area: computes its physical size,
    /// the rotated bounding box and the placement position, and records
    /// one image command.  The reported size is the bounding box when the
    /// image was aligned, and nothing when an absolute position was
    /// configured; an image never has content left over.
    pub fn render(&self, area: &Area, page: &mut Page) -> (r: Result<RenderResult, Error>)
        requires
            old(page).wf(),
            area.spec_layer().valid_for(*old(page)),
            area.spec_origin().wf(),
            area.spec_size().wf(),
            self.wf(),
            self.spec_true_width_um() <= MAX_UM,
            self.spec_true_height_um() <= MAX_UM,
        ensures
            final(page).wf(),
            r is Ok,
            !r->Ok_0.has_more,
            self.spec_position() is Some ==> r->Ok_0.size.width.0 == 0
                && r->Ok_0.size.height.0 == 0,
            self.spec_position() is None ==> r->Ok_0.size.width.0 == spec_bbox_size(
                self.spec_rotation().millidegrees as int,
                spec_image_true_size(*self),
            ).0 && r->Ok_0.size.height.0 == spec_bbox_size(
                self.spec_rotation().millidegrees as int,
                spec_image_true_size(*self),
            ).1,
            final(page).spec_size() == old(page).spec_size(),
            final(page).spec_layers().len() == old(page).spec_layers().len(),
            forall|j: int|
                0 <= j < old(page).spec_layers().len() && j != area.spec_layer().layer_idx
                    ==> final(page).spec_layers()[j] == old(page).spec_layers()[j],
            ({
                let idx = area.spec_layer().layer_idx as int;
                let oldld = old(page).spec_layers()[idx];
                let newld = final(page).spec_layers()[idx];
                let rp = spec_render_position(*self, area.spec_size().width.0 as int);
                &&& crate::render::LayerData::spec_same_cache(oldld, newld)
                &&& newld.spec_commands().len() == oldld.spec_commands().len() + 1
                &&& newld.spec_commands().take(newld.spec_commands().len() - 1)
                    == oldld.spec_commands()
                &&& (newld.spec_commands().last() matches Command::AddImage {
                    image: im,
                    position: pos,
                    scale: sc,
                    rotation_ccw_millidegrees: rot,
                    dpi_milli: dpi,
                } && im == self.spec_data() && sc == self.spec_scale() && rot
                    == -self.spec_rotation().millidegrees && dpi == self.spec_dpi_milli()
                    && pos.x.0 == area.spec_origin().x.0 + rp.0 && pos.y.0
                    == area.spec_layer().page_size.height.0 - (area.spec_origin().y.0 + rp.1))
            }),
    {
        let true_size = self.get_size();
        let (bb_origin, bb_size) = bounding_box_offset_and_size(&self.rotation, &true_size);
        proof {
            assert(true_size == spec_image_true_size(*self));
        }
        let mut result_size = Size { width: Mm(0), height: Mm(0) };
        let base: Position = match self.position {
            Some(p) => p,
            None => {
                result_size = bb_size;
                self.get_offset(bb_size.width, area.size().width)
            },
        };
        let position = Position {
            x: Mm(base.x.0 + bb_origin.x.0),
            y: Mm(base.y.0 + bb_origin.y.0),
        };
        area.add_image(page, &self.data, position, self.scale, self.rotation, self.dpi_milli);
        Ok(RenderResult { size: result_size, has_more: false })
    }
}

} // verus!
