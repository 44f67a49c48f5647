//! Decoding texture images into raw RGBA pixel data.
//!
//! The texture loader takes the raw bytes of an encoded image
//! container, decodes them through the `image` crate, and keeps the
//! result as plain values: pixel dimensions and one RGBA byte
//! quadruple per pixel.  The host uploads that data to a device
//! texture sized to the same dimensions.  A failed decode, or an image
//! not stored as 8-bit RGBA, is reported to the caller, never
//! swallowed.

use vstd::prelude::*;

verus! {

#[verifier::external_type_specification]
#[verifier::external_body]
pub struct ExDynamicImage(image::DynamicImage);

#[verifier::external_type_specification]
#[verifier::external_body]
pub struct ExImageError(image::ImageError);

/// The 8-bit-RGBA pixel data behind an already decoded image: `Some`
/// of the width, the height and the raw byte buffer exactly when the
/// image is stored as 8-bit RGBA.  A function of the image value
/// alone.
pub uninterp spec fn image_rgba8(img: image::DynamicImage) -> Option<(u32, u32, Seq<u8>)>;

/// Relies on image::load_from_memory: guesses the container format of
/// the bytes and decodes them, returning the decoded image, or the
/// decoder's error when it rejects the bytes.  Format detection and
/// decoding consult hooks that the process can register at run time,
/// so the outcome is not a function of the bytes alone and nothing is
/// assumed of it beyond the signature.
pub assume_specification[ image::load_from_memory ](buffer: &[u8]) -> Result<
    image::DynamicImage,
    image::ImageError,
>;

/// Relies on image::DynamicImage::as_rgba8: returns the image's pixel
/// buffer exactly when the image is stored as 8-bit RGBA — the result
/// `image_rgba8` names.  The buffer behind such an image holds at
/// least four bytes per pixel of its dimensions; width, height and the
/// raw bytes are read off it.
#[verifier::external_body]
fn image_rgba8_data(img: &image::DynamicImage) -> (r: Option<(u32, u32, Vec<u8>)>)
    ensures
        r is None <==> image_rgba8(*img) is None,
        r matches Some(t) ==> image_rgba8(*img) == Some((t.0, t.1, t.2@)) && t.2@.len() >= 4 * (
        t.0 as int) * (t.1 as int),
{
    match img.as_rgba8() {
        Some(buf) => Some((buf.width(), buf.height(), buf.as_raw().clone())),
        None => None,
    }
}

/// Why texture bytes were rejected.
#[derive(Clone, Copy, PartialEq, Eq, Structural, Debug)]
pub enum TextureError {
    /// The bytes are not a supported image container, or are corrupt.
    Decode,
    /// The image decoded, but is not stored as 8-bit RGBA.
    NotRgba8,
}

/// A decoded image: pixel dimensions and exactly four RGBA bytes per
/// pixel, row by row.
#[derive(Clone, PartialEq, Eq, Debug)]
pub struct DecodedImage {
    pub width: u32,
    pub height: u32,
    pub pixels: Vec<u8>,
}

impl DecodedImage {
    /// The pixel data holds exactly four bytes per pixel.
    pub open spec fn wf(self) -> bool {
        self.pixels@.len() == 4 * (self.width as int) * (self.height as int)
    }

    /// Accepts raw pixel data for the given dimensions: the data must
    /// hold at least four bytes per pixel, and anything beyond that is
    /// cut off; shorter data is rejected.
    pub fn from_parts(width: u32, height: u32, pixels: Vec<u8>) -> (r: Option<DecodedImage>)
        ensures
            pixels@.len() >= 4 * (width as int) * (height as int) ==> (r matches Some(d)
                && d.width == width && d.height == height && d.pixels@ == pixels@.subrange(
                0,
                4 * (width as int) * (height as int),
            ) && d.wf()),
            pixels@.len() < 4 * (width as int) * (height as int) ==> r is None,
    {
        let len = pixels.len();
        let needed: usize = match (width as usize).checked_mul(height as usize) {
            Some(wh) => match wh.checked_mul(4) {
                Some(n) => n,
                None => {
                    proof {
                        assert(4 * (width as int) * (height as int) == (
                        (width as int) * (height as int)) * 4) by (nonlinear_arith);
                    }
                    return None;
                },
            },
            None => {
                proof {
                    assert(4 * (width as int) * (height as int) >= (width as int) * (
                    height as int)) by (nonlinear_arith);
                }
                return None;
            },
        };
        proof {
            assert(needed == 4 * (width as int) * (height as int)) by (nonlinear_arith)
                requires
                    needed == ((width as int) * (height as int)) * 4,
            ;
        }
        if len >= needed {
            let mut p = pixels;
            p.truncate(needed);
            Some(DecodedImage { width, height, pixels: p })
        } else {
            None
        }
    }

    /// Reads an already decoded image: succeeds exactly when the image
    /// is stored as 8-bit RGBA, and then holds its dimensions and its
    /// pixel bytes.
    pub fn from_image(img: &image::DynamicImage) -> (r: Result<DecodedImage, TextureError>)
        ensures
            r is Err <==> image_rgba8(*img) is None,
            r matches Err(e) ==> e == TextureError::NotRgba8,
            r matches Ok(d) ==> image_rgba8(*img) matches Some(t) && d.width == t.0 && d.height
                == t.1 && d.pixels@ == t.2.subrange(0, 4 * (t.0 as int) * (t.1 as int)) && d.wf(),
    {
        match image_rgba8_data(img) {
            Some((w, h, pixels)) => match DecodedImage::from_parts(w, h, pixels) {
                Some(d) => Ok(d),
                None => {
                    proof {
                        assert(false);
                    }
                    Err(TextureError::NotRgba8)
                },
            },
            None => Err(TextureError::NotRgba8),
        }
    }

    /// Decodes the raw bytes of an encoded image container into RGBA8
    /// pixel data.  Bytes this call's decoder rejects give `Decode`; a
    /// decoded image not stored as 8-bit RGBA gives `NotRgba8`; any
    /// success holds exactly the dimensions and the pixel bytes of the
    /// image the decoder returned, as `from_image` reads them.  The
    /// decoder may consult hooks registered in the process, so which
    /// outcome a byte sequence takes is fixed per call, not per bytes.
    pub fn from_bytes(bytes: &[u8]) -> (r: Result<DecodedImage, TextureError>)
        ensures
            r matches Ok(d) ==> d.wf() && (exists|img: image::DynamicImage|
                #[trigger] image_rgba8(img) matches Some(t) && d.width == t.0 && d.height == t.1
                    && d.pixels@ == t.2.subrange(0, 4 * (t.0 as int) * (t.1 as int))),
    {
        match image::load_from_memory(bytes) {
            Ok(img) => DecodedImage::from_image(&img),
            Err(_) => Err(TextureError::Decode),
        }
    }
}

} // verus!
