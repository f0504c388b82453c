//! The application icon, drawn at run time: a hand-drawn 8x8 letter "R",
//! upscaled and rendered as RGBA bytes.
use vstd::prelude::*;

verus! {

/// The 8x8 glyph of the letter "R": whether the cell at row `gy`, column
/// `gx` is drawn in the foreground colour.
pub open spec fn glyph_r(gy: int, gx: int) -> bool {
    if gy == 0 || gy == 3 {
        0 <= gx <= 3
    } else if gy == 1 || gy == 2 || gy == 6 {
        gx == 0 || gx == 4
    } else if gy == 4 {
        gx == 0 || gx == 2
    } else if gy == 5 {
        gx == 0 || gx == 3
    } else {
        false
    }
}

/// The colour of pixel `p` (row `p / size`, column `p % size`) of the icon
/// scaled by `scale`.
pub open spec fn icon_color(p: int, scale: int, bg: [u8; 4], fg: [u8; 4]) -> [u8; 4] {
    let size = 8 * scale;
    if glyph_r((p / size) / scale, (p % size) / scale) { fg } else { bg }
}

/// The icon's background colour, dark red (the glyph is gold).
pub fn icon_bg() -> (r: [u8; 4])
    ensures
        r@ == seq![139u8, 0u8, 0u8, 255u8],
{
    [139, 0, 0, 255]
}

/// The icon's glyph colour.
pub fn icon_fg() -> (r: [u8; 4])
    ensures
        r@ == seq![255u8, 215u8, 0u8, 255u8],
{
    [255, 215, 0, 255]
}

fn glyph_on(gy: u32, gx: u32) -> (r: bool)
    ensures
        r == glyph_r(gy as int, gx as int),
{
    if gy == 0 || gy == 3 {
        gx <= 3
    } else if gy == 1 || gy == 2 || gy == 6 {
        gx == 0 || gx == 4
    } else if gy == 4 {
        gx == 0 || gx == 2
    } else if gy == 5 {
        gx == 0 || gx == 3
    } else {
        false
    }
}

/// Renders the glyph as RGBA8 bytes, upscaled by `scale` (4 gives a 32x32
/// image), filled with `bg` and drawn in `fg`. Returns the bytes, the width
/// and the height. Pixel `p` takes the four bytes from `4 * p`.
pub fn render_icon_rgba(scale: u32, bg: [u8; 4], fg: [u8; 4]) -> (r: (Vec<u8>, u32, u32))
    requires
        8 * scale * (8 * scale) * 4 <= u32::MAX,
    ensures
        r.1 == 8 * scale,
        r.2 == 8 * scale,
        r.0@.len() == (8 * scale) * (8 * scale) * 4,
        forall|p: int, c: int|
            0 <= p < (8 * scale) * (8 * scale) && 0 <= c < 4 ==> #[trigger] r.0@[4 * p + c]
                == icon_color(p, scale as int, bg, fg)@[c],
{
    proof {
        assert(8 * scale <= u32::MAX) by (nonlinear_arith)
            requires
                8 * scale * (8 * scale) * 4 <= u32::MAX,
        ;
    }
    let size: u32 = 8 * scale;
    let pixels: u32 = size * size;
    let mut rgba: Vec<u8> = Vec::new();
    let mut p: u32 = 0;
    while p < pixels
        invariant
            size == 8 * scale,
            pixels == size * size,
            pixels * 4 <= u32::MAX,
            p <= pixels,
            rgba@.len() == 4 * p,
            forall|q: int, c: int|
                0 <= q < p && 0 <= c < 4 ==> #[trigger] rgba@[4 * q + c] == icon_color(q, scale as int, bg, fg)@[c],
        decreases pixels - p,
    {
        proof {
            assert(size > 0) by (nonlinear_arith)
                requires
                    p < pixels,
                    pixels == size * size,
            ;
        }
        let row = p / size;
        let col = p % size;
        let color = if glyph_on(row / scale, col / scale) { fg } else { bg };
        assert(color == icon_color(p as int, scale as int, bg, fg));
        let ghost before = rgba@;
        rgba.push(color[0]);
        rgba.push(color[1]);
        rgba.push(color[2]);
        rgba.push(color[3]);
        proof {
            assert forall|q: int, c: int|
                0 <= q < p + 1 && 0 <= c < 4 implies #[trigger] rgba@[4 * q + c] == icon_color(
                q,
                scale as int,
                bg,
                fg,
            )@[c] by {
                if q < p {
                    assert(rgba@[4 * q + c] == before[4 * q + c]);
                } else {
                    assert(q == p);
                    assert(rgba@[4 * q + c] == color@[c]);
                }
            }
        }
        p = p + 1;
    }
    (rgba, size, size)
}

} // verus!
