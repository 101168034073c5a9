//! An immutable decoded image: dimensions plus a dense RGBA byte sequence.

use vstd::prelude::*;

use crate::errors::ImageDataErrors;

verus! {

/// A decoded image: `width` and `height` are both non-zero, and `data`
/// holds exactly `width * height * 4` bytes of row-major RGBA, top-left
/// origin. The byte count is also kept small enough that an output buffer
/// capacity computed in `u32` cannot overflow.
pub struct PixelGrid {
    pub width: u32,
    pub height: u32,
    pub data: Vec<u8>,
}

impl PixelGrid {
    /// Well-formedness: non-empty dimensions, a tightly packed RGBA byte
    /// sequence, and a total byte count that fits in `u32`.
    pub open spec fn wf(self) -> bool {
        &&& self.width > 0
        &&& self.height > 0
        &&& self.width * self.height * 4 <= u32::MAX
        &&& self.data@.len() == self.width * self.height * 4
    }

    /// The pixel count, the metric by which dimensions are compared.
    pub open spec fn area(self) -> int {
        self.width * self.height
    }

    /// Builds a grid from raw parts; `None` exactly when the parts cannot
    /// form a well-formed grid.
    pub fn new(width: u32, height: u32, data: Vec<u8>) -> (r: Option<PixelGrid>)
        ensures
            r is Some <==> (width > 0 && height > 0 && width * height * 4 <= u32::MAX
                && data@.len() == width * height * 4),
            r matches Some(g) ==> g == (PixelGrid { width, height, data }) && g.wf(),
    {
        proof {
            assert((width as int) * (height as int) <= 0xFFFF_FFFF * 0xFFFF_FFFF)
                by (nonlinear_arith)
                requires
                    width <= 0xFFFF_FFFFu32,
                    height <= 0xFFFF_FFFFu32,
            ;
        }
        let pixels: u64 = (width as u64) * (height as u64);
        if width == 0 || height == 0 || pixels > (u32::MAX as u64) / 4 {
            return None;
        }
        if data.len() as u64 != pixels * 4 {
            return None;
        }
        Some(PixelGrid { width, height, data })
    }
}

/// What the codec crate decodes a byte sequence to: `None` when the bytes
/// are not a decodable image, otherwise the width, the height and the
/// tightly packed RGBA pixels; a function of the bytes alone.
pub uninterp spec fn decoded_rgba(bytes: Seq<u8>) -> Option<(nat, nat, Seq<u8>)>;

/// Relies on `image::load_from_memory` to decode an encoded image from
/// bytes, and on `DynamicImage::to_rgba8` / `ImageBuffer::into_raw` to
/// expose it as tightly packed RGBA: decoding depends on the bytes alone,
/// it fails exactly on bytes that are not a decodable image, and the
/// buffer it yields holds exactly `width * height * 4` bytes.
#[verifier::external_body]
fn decode_rgba(bytes: &Vec<u8>) -> (r: Result<(u32, u32, Vec<u8>), image::ImageError>)
    ensures
        r matches Ok(t) ==> (decoded_rgba(bytes@) matches Some(d) && t.0 as nat == d.0
            && t.1 as nat == d.1 && t.2@ == d.2),
        r is Err ==> decoded_rgba(bytes@) is None,
        r matches Ok(t) ==> t.2@.len() == t.0 * t.1 * 4,
{
    match image::load_from_memory(bytes.as_slice()) {
        Ok(img) => {
            let rgba = img.to_rgba8();
            let (w, h) = (rgba.width(), rgba.height());
            Ok((w, h, rgba.into_raw()))
        }
        Err(e) => Err(e),
    }
}

/// Decodes encoded image bytes into a well-formed `PixelGrid`.
///
/// Bytes that decode to an image with non-zero dimensions and a byte
/// count a `u32` can hold come back as exactly that grid. Bytes that do
/// not decode come back as `UnableToDecodeImage` with the codec's error;
/// bytes that decode to a grid no stage downstream could accept (a zero
/// dimension, or more bytes than a `u32` capacity can count) come back
/// as `UnableToFormatImage`.
pub fn decode_pixel_grid(bytes: &Vec<u8>) -> (r: Result<PixelGrid, ImageDataErrors>)
    ensures
        r is Ok <==> (decoded_rgba(bytes@) matches Some(d) && d.0 > 0 && d.1 > 0 && d.0 * d.1 * 4
            <= u32::MAX),
        r matches Ok(g) ==> (decoded_rgba(bytes@) matches Some(d) && g.width as nat == d.0
            && g.height as nat == d.1 && g.data@ == d.2 && g.wf()),
        r matches Err(e) ==> (e is UnableToDecodeImage <==> decoded_rgba(bytes@) is None),
        r matches Err(e) ==> (e is UnableToFormatImage <==> (decoded_rgba(bytes@) matches Some(d)
            && !(d.0 > 0 && d.1 > 0 && d.0 * d.1 * 4 <= u32::MAX))),
{
    match decode_rgba(bytes) {
        Err(e) => Err(ImageDataErrors::UnableToDecodeImage(e)),
        Ok((width, height, data)) => match PixelGrid::new(width, height, data) {
            Some(g) => Ok(g),
            None => Err(ImageDataErrors::UnableToFormatImage(String::from_str(
                "decoded image has unusable dimensions",
            ))),
        },
    }
}

} // verus!
