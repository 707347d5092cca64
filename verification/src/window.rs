//! What the game window does with the frames it is sent.
//!
//! The core's display buffer holds one `0xAARRGGBB` word per pixel; read
//! little-endian, that is GDK's BGRA8 memory format. A frame of the wrong
//! size is not shown.
use vstd::prelude::*;

verus! {

/// Width of the GBA screen in pixels.
pub const GBA_WIDTH: usize = 240;
/// Height of the GBA screen in pixels.
pub const GBA_HEIGHT: usize = 160;
/// Pixels in one frame (`GBA_WIDTH * GBA_HEIGHT`).
pub const GBA_PIXELS: usize = 38400;
/// Bytes in one row of a frame's texture (`GBA_WIDTH * 4`).
pub const FRAME_STRIDE: usize = 960;

/// Byte `j` (0 to 3, least significant first) of the pixel word `w`.
pub open spec fn pixel_byte(w: u32, j: int) -> u8 {
    if j == 0 {
        (w & 0xff) as u8
    } else if j == 1 {
        ((w >> 8u32) & 0xff) as u8
    } else if j == 2 {
        ((w >> 16u32) & 0xff) as u8
    } else {
        ((w >> 24u32) & 0xff) as u8
    }
}

/// `bytes` holds the pixels of `pixels`, each as its four bytes, least
/// significant first.
pub open spec fn little_endian_pixels(pixels: Seq<u32>, bytes: Seq<u8>) -> bool {
    &&& bytes.len() == 4 * pixels.len()
    &&& forall|i: int, j: int|
        0 <= i < pixels.len() && 0 <= j < 4 ==> #[trigger] bytes[4 * i + j] == pixel_byte(
            pixels[i],
            j,
        )
}

/// The texture bytes of a frame: `None` when `pixels` is not a whole frame
/// (`GBA_PIXELS` words), else every pixel word as four bytes, least
/// significant first.
pub fn frame_texture_bytes(pixels: &Vec<u32>) -> (bytes: Option<Vec<u8>>)
    ensures
        pixels@.len() != GBA_PIXELS ==> bytes is None,
        pixels@.len() == GBA_PIXELS ==> (bytes matches Some(b) && little_endian_pixels(
            pixels@,
            b@,
        )),
{
    if pixels.len() != GBA_PIXELS {
        return None;
    }
    let mut bytes: Vec<u8> = Vec::new();
    let mut i: usize = 0;
    while i < pixels.len()
        invariant
            i <= pixels@.len() == GBA_PIXELS,
            little_endian_pixels(pixels@.take(i as int), bytes@),
        decreases pixels@.len() - i,
    {
        let w = pixels[i];
        let ghost before = bytes@;
        bytes.push((w & 0xff) as u8);
        bytes.push(((w >> 8u32) & 0xff) as u8);
        bytes.push(((w >> 16u32) & 0xff) as u8);
        bytes.push(((w >> 24u32) & 0xff) as u8);
        proof {
            let done = pixels@.take(i as int);
            let next = pixels@.take(i + 1);
            assert forall|a: int, j: int| 0 <= a < next.len() && 0 <= j < 4 implies #[trigger] bytes@[4
                * a + j] == pixel_byte(next[a], j) by {
                if a < i {
                    assert(next[a] == done[a]);
                    assert(bytes@[4 * a + j] == before[4 * a + j]);
                } else {
                    assert(a == i);
                    assert(next[a] == w);
                }
            }
        }
        i = i + 1;
    }
    assert(pixels@.take(i as int) =~= pixels@);
    Some(bytes)
}

/// The four bytes of a pixel word, put back together least significant
/// first, are the word.
pub proof fn law_pixel_bytes_reassemble(w: u32)
    ensures
        (pixel_byte(w, 0) as u32) | ((pixel_byte(w, 1) as u32) << 8u32) | ((pixel_byte(w, 2) as u32)
            << 16u32) | ((pixel_byte(w, 3) as u32) << 24u32) == w,
{
    assert(((w & 0xff) as u8 as u32) | ((((w >> 8u32) & 0xff) as u8 as u32) << 8u32) | ((((w
        >> 16u32) & 0xff) as u8 as u32) << 16u32) | ((((w >> 24u32) & 0xff) as u8 as u32) << 24u32)
        == w) by (bit_vector);
}

} // verus!
