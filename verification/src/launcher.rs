//! The tray launcher's icon: a 16x16 RGBA image drawn as a dark border, a
//! slate body and a green square in the middle.

use vstd::prelude::*;

verus! {

pub const ICON_SIZE: u32 = 16;

/// The RGBA colour of pixel (`x`, `y`).
pub open spec fn icon_pixel(x: int, y: int) -> Seq<u8> {
    if x == 0 || y == 0 || x == 15 || y == 15 {
        seq![0x0fu8, 0x17u8, 0x2au8, 0xffu8]
    } else if 4 < x < 11 && 4 < y < 11 {
        seq![0x22u8, 0xc5u8, 0x5eu8, 0xffu8]
    } else {
        seq![0x1fu8, 0x29u8, 0x37u8, 0xffu8]
    }
}

/// Byte `i` of the row-major RGBA image.
pub open spec fn icon_byte(i: int) -> u8 {
    let pixel = i / 4;
    icon_pixel(pixel % 16, pixel / 16)[i % 4]
}

fn pixel_channel(x: u32, y: u32, channel: u32) -> (b: u8)
    requires
        channel < 4,
    ensures
        b == icon_pixel(x as int, y as int)[channel as int],
{
    let rgba: [u8; 4] = if x == 0 || y == 0 || x == 15 || y == 15 {
        [0x0f, 0x17, 0x2a, 0xff]
    } else if 4 < x && x < 11 && 4 < y && y < 11 {
        [0x22, 0xc5, 0x5e, 0xff]
    } else {
        [0x1f, 0x29, 0x37, 0xff]
    };
    rgba[channel as usize]
}

/// The icon's pixels, row by row, four bytes (red, green, blue, alpha) per
/// pixel.
pub fn build_launcher_icon_rgba() -> (rgba: Vec<u8>)
    ensures
        rgba@.len() == ICON_SIZE * ICON_SIZE * 4,
        forall|i: int| 0 <= i < rgba@.len() ==> #[trigger] rgba@[i] == icon_byte(i),
{
    let total: u32 = ICON_SIZE * ICON_SIZE * 4;
    let mut rgba: Vec<u8> = Vec::with_capacity(total as usize);
    let mut i: u32 = 0;
    while i < total
        invariant
            total == ICON_SIZE * ICON_SIZE * 4,
            i <= total,
            rgba@.len() == i,
            forall|k: int| 0 <= k < i ==> #[trigger] rgba@[k] == icon_byte(k),
        decreases total - i,
    {
        let pixel = i / 4;
        rgba.push(pixel_channel(pixel % ICON_SIZE, pixel / ICON_SIZE, i % 4));
        i += 1;
    }
    rgba
}

/// The bytes of pixel (`x`, `y`) are its colour.
pub proof fn lemma_icon_pixel_bytes(x: int, y: int, channel: int)
    requires
        0 <= x < 16,
        0 <= y < 16,
        0 <= channel < 4,
    ensures
        icon_byte((y * 16 + x) * 4 + channel) == icon_pixel(x, y)[channel],
{
    let i = (y * 16 + x) * 4 + channel;
    assert(i / 4 == y * 16 + x) by (nonlinear_arith)
        requires
            i == (y * 16 + x) * 4 + channel,
            0 <= channel < 4,
            0 <= x < 16,
            0 <= y < 16,
    ;
    assert(i % 4 == channel) by (nonlinear_arith)
        requires
            i == (y * 16 + x) * 4 + channel,
            0 <= channel < 4,
            0 <= x < 16,
            0 <= y < 16,
    ;
    assert((y * 16 + x) % 16 == x && (y * 16 + x) / 16 == y) by (nonlinear_arith)
        requires
            0 <= x < 16,
            0 <= y < 16,
    ;
}

} // verus!
