//! What the library assumes of the outside document and image backends.
//!
//! Every item in this module is trusted: its contract states what the
//! outside crate's source shows, and the verified rendering logic builds on
//! those contracts alone.

use vstd::prelude::*;

verus! {

#[verifier::external_type_specification]
#[verifier::external_body]
pub struct ExDynamicImage(printpdf::image_crate::DynamicImage);

#[verifier::external_type_specification]
#[verifier::external_body]
pub struct ExPdfConformance(printpdf::PdfConformance);

#[verifier::external_type_specification]
#[verifier::external_body]
pub struct ExOffsetDateTime(printpdf::OffsetDateTime);

/// The bytes that the Windows-1252 text encoding of the document backend
/// produces for a sequence of characters.  Each UTF-16 unit of the text
/// that has a Windows-1252 code becomes one byte; every other unit is
/// dropped, so the result is exactly as long as the text precisely when
/// every character lies in the single-byte repertoire.
pub uninterp spec fn win_ansi_encode(s: Seq<char>) -> Seq<u8>;

/// Relies on lopdf::Document::encode_text with the WinAnsiEncoding table:
/// the result is a pure function of the text, mapping each encodable UTF-16
/// unit to its Windows-1252 byte and dropping the rest.
#[verifier::external_body]
pub(crate) fn encode_text_win_ansi(s: &str) -> (r: Vec<u8>)
    ensures
        r@ == win_ansi_encode(s@),
{
    lopdf::Document::encode_text(Some("WinAnsiEncoding"), s)
}

/// Relies on image::DynamicImage::dimensions (through printpdf's re-export
/// of the image crate) for the pixel width and height of a decoded image.
#[verifier::external_body]
pub(crate) fn image_dimensions(image: &printpdf::image_crate::DynamicImage) -> (u32, u32) {
    printpdf::image_crate::GenericImageView::dimensions(image)
}

/// Relies on image::DynamicImage::color and image::ColorType::has_alpha for
/// whether the pixel format of a decoded image carries an alpha channel.
#[verifier::external_body]
pub(crate) fn image_has_alpha(image: &printpdf::image_crate::DynamicImage) -> bool {
    image.color().has_alpha()
}

/// Relies on image::DynamicImage's derived Clone: the duplicate equals the
/// original pixel buffer.
#[verifier::external_body]
pub(crate) fn clone_image(
    image: &printpdf::image_crate::DynamicImage,
) -> (r: printpdf::image_crate::DynamicImage)
    ensures
        r == *image,
{
    image.clone()
}

} // verus!
