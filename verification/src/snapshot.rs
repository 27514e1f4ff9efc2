//! Snapshot encoding: one display frame as a PNG image.
//!
//! The raw RGB565 frame is converted to 8-bit RGB here and handed to
//! the image library's PNG encoder.  The encoder's output is a function
//! of the pixel buffer and the dimensions alone; it is given a name
//! rather than written out, and the conversion in front of it is
//! verified exactly.  The encoder refuses a buffer whose size does not
//! match the claimed dimensions, so that is checked here first and
//! reported as this library's own error.

use vstd::prelude::*;
use crate::pixel::{rgb565_to_rgb888, spec_rgb888};

verus! {

/// The error type of the image library, declared so that the encoder
/// wrapper can return it.
#[verifier::external_type_specification]
#[verifier::external_body]
pub struct ExImageError(image::ImageError);

/// What the image library's PNG encoder produces for an 8-bit RGB
/// buffer of the given dimensions.
pub uninterp spec fn spec_png_encoding(pixels: Seq<u8>, width: u32, height: u32) -> Seq<u8>;

/// Relies on `image::write_buffer_with_format` with
/// `ExtendedColorType::Rgb8` and `ImageFormat::Png`: the encoder writes
/// the PNG rendering of the buffer, deterministically in the buffer and
/// the dimensions, or reports an error.  It asserts that the buffer
/// holds exactly three bytes per pixel and panics otherwise, so that
/// input is excluded here.
#[verifier::external_body]
fn encode_png_rgb888(pixels: &Vec<u8>, width: u32, height: u32) -> (r: Result<
    Vec<u8>,
    image::ImageError,
>)
    requires
        pixels@.len() == 3 * (width as int) * (height as int),
    ensures
        r matches Ok(b) ==> b@ == spec_png_encoding(pixels@, width, height),
{
    let mut buf = std::io::Cursor::new(Vec::new());
    match image::write_buffer_with_format(
        &mut buf,
        pixels,
        width,
        height,
        image::ExtendedColorType::Rgb8,
        image::ImageFormat::Png,
    ) {
        Ok(()) => Ok(buf.into_inner()),
        Err(e) => Err(e),
    }
}

/// Snapshot failures surfaced to the caller.
#[derive(Clone, Copy, Debug, PartialEq, Eq, Structural)]
pub enum SnapshotError {
    /// The frame does not hold exactly `width` by `height` 16-bit
    /// pixels.
    DimensionMismatch,
    /// The PNG encoder reported an error (a zero-sized image, for one);
    /// the snapshot is dropped and the wall keeps running.
    Encode,
}

/// Whether a frame of `len` bytes holds exactly `width` by `height`
/// 16-bit pixels.
pub open spec fn frame_fits(len: int, width: u32, height: u32) -> bool {
    len == 2 * (width as int) * (height as int)
}

/// Encodes one raw little-endian RGB565 frame of `width` by `height`
/// pixels as a PNG image.  On success the result is exactly the PNG
/// rendering of the frame's 8-bit RGB conversion; a frame of the wrong
/// size is reported as a dimension mismatch, an encoder failure as an
/// encoding error — never escalated.
pub fn snapshot_png(frame: &Vec<u8>, width: u32, height: u32) -> (r: Result<
    Vec<u8>,
    SnapshotError,
>)
    requires
        frame@.len() % 2 == 0,
    ensures
        r matches Ok(b) ==> frame_fits(frame@.len() as int, width, height) && b@
            == spec_png_encoding(spec_rgb888(frame@), width, height),
        r == Err::<Vec<u8>, SnapshotError>(SnapshotError::DimensionMismatch) <==> !frame_fits(
            frame@.len() as int,
            width,
            height,
        ),
{
    let len: usize = frame.len();
    let half: usize = len / 2;
    let product: Option<usize> = (width as usize).checked_mul(height as usize);
    let fits: bool = match product {
        Some(p) => half == p,
        None => false,
    };
    proof {
        let l: int = frame@.len() as int;
        let w: int = width as int;
        let h: int = height as int;
        vstd::arithmetic::mul::lemma_mul_is_associative(2, w, h);
        vstd::arithmetic::div_mod::lemma_fundamental_div_mod(l, 2);
        if product is None {
            vstd::arithmetic::mul::lemma_mul_nonnegative(w, h);
            assert(l < 2 * (w * h));
        }
        assert(fits == frame_fits(l, width, height));
    }
    if !fits {
        return Err(SnapshotError::DimensionMismatch);
    }
    let rgb: Vec<u8> = rgb565_to_rgb888(frame.as_slice());
    proof {
        assert(rgb@.len() == 3 * (width as int) * (height as int)) by {
            vstd::arithmetic::mul::lemma_mul_is_associative(3, width as int, height as int);
        }
    }
    match encode_png_rgb888(&rgb, width, height) {
        Ok(b) => Ok(b),
        Err(_) => Err(SnapshotError::Encode),
    }
}

} // verus!
