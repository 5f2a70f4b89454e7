//! Decoding source files into RGBA rasters.
use vstd::prelude::*;

verus! {

#[verifier::external_type_specification]
#[verifier::external_body]
pub struct ExImageError(image::ImageError);

/// The width, height and RGBA8 samples (row by row, four per pixel) that the
/// `image` crate decodes from a file's bytes, or `None` when it cannot.
pub uninterp spec fn rgba8_decoding(bytes: Seq<u8>) -> Option<(u32, u32, Seq<u8>)>;

/// Relies on `image::load_from_memory`, which guesses the format from the
/// bytes and decodes them, and on `DynamicImage::to_rgba8` with the
/// `ImageBuffer` accessors `width`, `height` and `into_raw`, which only convert
/// the decoded image.
#[verifier::external_body]
fn decode_rgba8(bytes: &[u8]) -> (r: Result<(u32, u32, Vec<u8>), image::ImageError>)
    ensures
        r matches Ok(t) ==> rgba8_decoding(bytes@) == Some((t.0, t.1, t.2@)),
        r is Err ==> rgba8_decoding(bytes@) is None,
{
    match image::load_from_memory(bytes) {
        Ok(img) => {
            let buf = img.to_rgba8();
            Ok((buf.width(), buf.height(), buf.into_raw()))
        },
        Err(e) => Err(e),
    }
}

/// A fully decoded image: `width` by `height` pixels of four 8-bit samples.
pub struct Raster {
    pub width: u32,
    pub height: u32,
    pub pixels: Vec<u8>,
}

impl Raster {
    /// The samples are exactly four per pixel.
    pub open spec fn wf(&self) -> bool {
        self.pixels@.len() == 4 * (self.width as int) * (self.height as int)
    }
}

/// Why a source could not be decoded.
pub enum DecodeError {
    /// The `image` crate could not read the bytes as an image.
    Image(image::ImageError),
    /// The decoded samples do not number four per pixel.
    Size,
}

/// The samples count four per pixel.
pub open spec fn fits(t: (u32, u32, Seq<u8>)) -> bool {
    t.2.len() == 4 * (t.0 as int) * (t.1 as int)
}

/// Decodes a JPEG, PNG or WebP file's bytes into an RGBA8 raster.
pub fn decode_raster(bytes: &[u8]) -> (r: Result<Raster, DecodeError>)
    ensures
        r matches Ok(img) ==> img.wf() && rgba8_decoding(bytes@) == Some(
            (img.width, img.height, img.pixels@),
        ),
        r is Ok <==> (rgba8_decoding(bytes@) matches Some(t) && fits(t)),
        r matches Err(e) ==> (e is Image <==> rgba8_decoding(bytes@) is None),
{
    match decode_rgba8(bytes) {
        Ok((width, height, pixels)) => {
            let n = pixels.len() as u128;
            proof {
                assert((width as int) * (height as int) <= 0xffff_ffff * 0xffff_ffff)
                    by (nonlinear_arith)
                    requires
                        width <= 0xffff_ffff,
                        height <= 0xffff_ffff,
                ;
                assert(4 * (width as int) * (height as int) == 4 * ((width as int) * (height as int)))
                    by (nonlinear_arith);
            }
            let area = (width as u128) * (height as u128);
            let expected = 4u128 * area;
            if n == expected {
                Ok(Raster { width, height, pixels })
            } else {
                Err(DecodeError::Size)
            }
        },
        Err(e) => Err(DecodeError::Image(e)),
    }
}

} // verus!
