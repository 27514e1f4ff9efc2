//! Pixel format conversion for display snapshots.
//!
//! The display holds its frame as 16-bit RGB565, little endian; the
//! snapshot encoder wants 8-bit RGB.  Each 5- or 6-bit channel is
//! widened by shifting into the high bits of a byte.

use vstd::prelude::*;

verus! {

/// The 16-bit RGB565 value of one pixel from its two little-endian
/// bytes.
pub open spec fn spec_pixel565(lo: u8, hi: u8) -> u16 {
    lo as u16 | (hi as u16) << 8
}

/// The red byte of an RGB565 pixel: the top five bits, widened.
pub open spec fn spec_red(pixel: u16) -> u8 {
    (((pixel >> 11) & 0x1f) << 3) as u8
}

/// The green byte of an RGB565 pixel: the middle six bits, widened.
pub open spec fn spec_green(pixel: u16) -> u8 {
    (((pixel >> 5) & 0x3f) << 2) as u8
}

/// The blue byte of an RGB565 pixel: the low five bits, widened.
pub open spec fn spec_blue(pixel: u16) -> u8 {
    ((pixel & 0x1f) << 3) as u8
}

/// The 24-bit RGB rendering of a whole RGB565 frame: three bytes out
/// for every two bytes in, in order.
pub open spec fn spec_rgb888(frame: Seq<u8>) -> Seq<u8> {
    Seq::new(
        (frame.len() / 2 * 3) as nat,
        |j: int|
            {
                let pixel = spec_pixel565(frame[2 * (j / 3)], frame[2 * (j / 3) + 1]);
                if j % 3 == 0 {
                    spec_red(pixel)
                } else if j % 3 == 1 {
                    spec_green(pixel)
                } else {
                    spec_blue(pixel)
                }
            },
    )
}

/// Converts a little-endian RGB565 frame to 8-bit RGB, pixel by pixel.
/// The frame is a whole number of 16-bit pixels.
pub fn rgb565_to_rgb888(frame: &[u8]) -> (r: Vec<u8>)
    requires
        frame@.len() % 2 == 0,
    ensures
        r@ == spec_rgb888(frame@),
{
    let mut out: Vec<u8> = Vec::new();
    let pixels: usize = frame.len() / 2;
    let mut i: usize = 0;
    while i < pixels
        invariant
            frame@.len() % 2 == 0,
            frame@.len() <= usize::MAX,
            pixels == frame@.len() / 2,
            i <= pixels,
            out@.len() == 3 * i,
            forall|j: int| 0 <= j < 3 * i ==> out@[j] == spec_rgb888(frame@)[j],
        decreases pixels - i,
    {
        let lo: u8 = frame[2 * i];
        let hi: u8 = frame[2 * i + 1];
        let pixel: u16 = lo as u16 | (hi as u16) << 8u16;
        let red: u16 = ((pixel >> 11u16) & 0x1f) << 3u16;
        let green: u16 = ((pixel >> 5u16) & 0x3f) << 2u16;
        let blue: u16 = (pixel & 0x1f) << 3u16;
        proof {
            assert(((pixel >> 11u16) & 0x1f) << 3u16 <= 248) by (bit_vector);
            assert(((pixel >> 5u16) & 0x3f) << 2u16 <= 252) by (bit_vector);
            assert((pixel & 0x1f) << 3u16 <= 248) by (bit_vector);
        }
        out.push(red as u8);
        out.push(green as u8);
        out.push(blue as u8);
        proof {
            assert forall|j: int| 0 <= j < 3 * (i + 1) implies out@[j] == spec_rgb888(frame@)[j] by {
                if j >= 3 * i {
                    assert(j / 3 == i as int) by {
                        vstd::arithmetic::div_mod::lemma_fundamental_div_mod_converse(
                            j,
                            3,
                            i as int,
                            j - 3 * i,
                        );
                    }
                }
            }
        }
        i = i + 1;
    }
    proof {
        assert(out@ =~= spec_rgb888(frame@));
    }
    out
}

} // verus!
