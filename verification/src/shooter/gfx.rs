//! Drawing into the shooter's 240x160 frame buffer of packed colours.
use vstd::prelude::*;

use crate::shooter::color::{from_rgb, rgb_value, Color, Palette};

verus! {

/// Width of the frame buffer in pixels.
pub const GAME_W: u32 = 240;

/// Height of the frame buffer in pixels.
pub const GAME_H: u32 = 160;

/// An integer 2D vector: a pixel position or a size.
#[derive(Clone, Copy, PartialEq, Eq, Structural, Debug, Default)]
pub struct IVec2 {
    pub x: i32,
    pub y: i32,
}

impl IVec2 {
    pub fn new(x: i32, y: i32) -> (v: Self)
        ensures
            v.x == x,
            v.y == y,
    {
        IVec2 { x, y }
    }
}

/// Whether `(x, y)` lies on the frame.
pub open spec fn on_screen(x: int, y: int) -> bool {
    0 <= x < GAME_W && 0 <= y < GAME_H
}

/// The frame buffer index of an on-screen pixel, row by row.
pub open spec fn frame_index(x: int, y: int) -> int {
    y * GAME_W + x
}

/// Column of the `i`th pixel of an image `width` wide drawn at `origin`.
pub open spec fn blit_x(origin: IVec2, width: i32, i: int) -> int {
    origin.x + i % (width as int)
}

/// Row of the `i`th pixel of an image `width` wide drawn at `origin`.
pub open spec fn blit_y(origin: IVec2, width: i32, i: int) -> int {
    origin.y + i / (width as int)
}

/// The `i`th pixel is drawn: it is not transparent (0) and it lands on the frame.
pub open spec fn blit_visible(pixels: Seq<u8>, origin: IVec2, width: i32, i: int) -> bool {
    &&& pixels[i] != 0
    &&& on_screen(blit_x(origin, width, i), blit_y(origin, width, i))
}

/// The palette index drawn for a pixel: the tint, unless the tint is 0.
pub open spec fn tinted(px: u8, tint: u8) -> u8 {
    if tint != 0 {
        tint
    } else {
        px
    }
}

/// The frame after drawing the first `n` pixels of an image, in order.
pub open spec fn blit_upto(
    frame: Seq<u32>,
    palette: Seq<u32>,
    pixels: Seq<u8>,
    origin: IVec2,
    width: i32,
    tint: u8,
    n: nat,
) -> Seq<u32>
    decreases n,
{
    if n == 0 {
        frame
    } else {
        let prev = blit_upto(frame, palette, pixels, origin, width, tint, (n - 1) as nat);
        let i = n - 1;
        if blit_visible(pixels, origin, width, i) {
            prev.update(
                frame_index(blit_x(origin, width, i), blit_y(origin, width, i)),
                palette[tinted(pixels[i], tint) as int],
            )
        } else {
            prev
        }
    }
}

/// The conditions under which drawing an image cannot fail: an image with
/// an opaque pixel has a nonzero `width`, no drawn pixel's coordinates
/// overflow, and the frame holds every pixel that lands on it.
pub open spec fn blit_fits(frame_len: int, pixels: Seq<u8>, origin: IVec2, width: i32) -> bool {
    &&& (exists|i: int| #![trigger pixels[i]] 0 <= i < pixels.len() && pixels[i] != 0) ==> width
        != 0
    &&& pixels.len() <= i32::MAX
    &&& forall|i: int|
        #![trigger pixels[i]]
        0 <= i < pixels.len() && pixels[i] != 0 ==> {
            &&& i32::MIN <= blit_x(origin, width, i) <= i32::MAX
            &&& i32::MIN <= blit_y(origin, width, i) <= i32::MAX
        }
    &&& forall|i: int|
        #![trigger pixels[i]]
        0 <= i < pixels.len() && blit_visible(pixels, origin, width, i) ==> frame_index(
            blit_x(origin, width, i),
            blit_y(origin, width, i),
        ) < frame_len
}

/// For a nonnegative index, the remainder and quotient by a divisor of
/// either sign come from its magnitude.
proof fn lemma_nonneg_div_mod(i: int, w: int)
    requires
        i >= 0,
        w != 0,
    ensures
        i % w == i % (if w > 0 { w } else { -w }),
        i / w == (if w > 0 { i / w } else { -(i / (-w)) }),
{
    if w < 0 {
        let a = -w;
        let q = i / a;
        let r = i % a;
        vstd::arithmetic::div_mod::lemma_fundamental_div_mod(i, a);
        vstd::arithmetic::div_mod::lemma_mod_bound(i, a);
        assert(i == w * (-q) + r) by (nonlinear_arith)
            requires
                i == a * q + r,
                a == -w,
        ;
        assert(i / w == -q && i % w == r) by (nonlinear_arith)
            requires
                i == w * (-q) + r,
                0 <= r < -w,
                w < 0,
        ;
    }
}

/// Draws an image of palette indices, `width` pixels per row, with its top
/// left corner at `origin`. Index 0 is transparent; a nonzero `tint` replaces
/// every other index. Pixels off the frame are skipped.
pub fn blit(
    frame: &mut [u32],
    palette: &Palette,
    pixels: &[u8],
    origin: IVec2,
    width: i32,
    tint: u8,
)
    requires
        blit_fits(old(frame)@.len() as int, pixels@, origin, width),
    ensures
        final(frame)@ == blit_upto(
            old(frame)@,
            palette@,
            pixels@,
            origin,
            width,
            tint,
            pixels@.len(),
        ),
{
    let n = pixels.len();
    let mut i: usize = 0;
    while i < n
        invariant
            n == pixels@.len(),
            i <= n,
            blit_fits(frame@.len() as int, pixels@, origin, width),
            frame@.len() == old(frame)@.len(),
            frame@ == blit_upto(old(frame)@, palette@, pixels@, origin, width, tint, i as nat),
        decreases n - i,
    {
        let px = pixels[i];
        assert(pixels@[i as int] == px);
        if px != 0 {
            let ii: i64 = i as i64;
            let w: i64 = width as i64;
            let aw: i64 = if w > 0 {
                w
            } else {
                -w
            };
            let m: i64 = ii % aw;
            let q: i64 = if w > 0 {
                ii / aw
            } else {
                -(ii / aw)
            };
            proof {
                lemma_nonneg_div_mod(i as int, width as int);
            }
            let sx: i32 = (origin.x as i64 + m) as i32;
            let sy: i32 = (origin.y as i64 + q) as i32;
            if !(sx < 0 || sx >= GAME_W as i32 || sy < 0 || sy >= GAME_H as i32) {
                let c: u8 = if tint != 0 {
                    tint
                } else {
                    px
                };
                let idx: usize = (sy * GAME_W as i32 + sx) as usize;
                frame[idx] = palette.at(c);
            }
        }
        i = i + 1;
    }
}

/// Two drawn pixels of one image never land on the same frame index.
proof fn lemma_blit_injective(pixels: Seq<u8>, origin: IVec2, width: i32, i: int, j: int)
    requires
        width != 0,
        0 <= i,
        0 <= j,
        blit_visible(pixels, origin, width, i),
        blit_visible(pixels, origin, width, j),
        frame_index(blit_x(origin, width, i), blit_y(origin, width, i)) == frame_index(
            blit_x(origin, width, j),
            blit_y(origin, width, j),
        ),
    ensures
        i == j,
{
    let w = width as int;
    let xi = blit_x(origin, width, i);
    let yi = blit_y(origin, width, i);
    let xj = blit_x(origin, width, j);
    let yj = blit_y(origin, width, j);
    assert(yi == yj && xi == xj) by (nonlinear_arith)
        requires
            yi * 240 + xi == yj * 240 + xj,
            0 <= xi < 240,
            0 <= xj < 240,
    ;
    vstd::arithmetic::div_mod::lemma_fundamental_div_mod(i, w);
    vstd::arithmetic::div_mod::lemma_fundamental_div_mod(j, w);
}

/// Drawing an image sets each drawn pixel's frame entry to its (tinted)
/// palette colour, and leaves every other entry as it was: transparent and
/// off-frame pixels change nothing.
pub proof fn lemma_blit_pointwise(
    frame: Seq<u32>,
    palette: Seq<u32>,
    pixels: Seq<u8>,
    origin: IVec2,
    width: i32,
    tint: u8,
    n: nat,
)
    requires
        blit_fits(frame.len() as int, pixels, origin, width),
        n <= pixels.len(),
    ensures
        blit_upto(frame, palette, pixels, origin, width, tint, n).len() == frame.len(),
        forall|i: int|
            0 <= i < n && #[trigger] blit_visible(pixels, origin, width, i) ==> blit_upto(
                frame,
                palette,
                pixels,
                origin,
                width,
                tint,
                n,
            )[frame_index(blit_x(origin, width, i), blit_y(origin, width, i))]
                == palette[tinted(pixels[i], tint) as int],
        forall|k: int|
            0 <= k < frame.len() && (forall|i: int|
                0 <= i < n && #[trigger] blit_visible(pixels, origin, width, i) ==> frame_index(
                    blit_x(origin, width, i),
                    blit_y(origin, width, i),
                ) != k) ==> #[trigger] blit_upto(
                frame,
                palette,
                pixels,
                origin,
                width,
                tint,
                n,
            )[k] == frame[k],
    decreases n,
{
    if n > 0 {
        let m = (n - 1) as nat;
        lemma_blit_pointwise(frame, palette, pixels, origin, width, tint, m);
        let prev = blit_upto(frame, palette, pixels, origin, width, tint, m);
        let cur = blit_upto(frame, palette, pixels, origin, width, tint, n);
        let last = n - 1;
        if blit_visible(pixels, origin, width, last) {
            assert(pixels[last] != 0);
            let idx = frame_index(blit_x(origin, width, last), blit_y(origin, width, last));
            assert(0 <= idx < frame.len());
            assert forall|i: int|
                0 <= i < n && #[trigger] blit_visible(pixels, origin, width, i) implies cur[frame_index(
                blit_x(origin, width, i),
                blit_y(origin, width, i),
            )] == palette[tinted(pixels[i], tint) as int] by {
                assert(pixels[i] != 0);
                if i != last {
                    if frame_index(blit_x(origin, width, i), blit_y(origin, width, i)) == idx {
                        lemma_blit_injective(pixels, origin, width, i, last);
                    }
                }
            }
        }
    }
}

/// A frame buffer of `GAME_W * GAME_H` packed colours that text is drawn into.
pub struct Frame<'a>(pub &'a mut [u32]);

impl<'a> Frame<'a> {
    /// Sets the pixel at `(x, y)` to the colour `(r, g, b)`; pixels off the
    /// frame are skipped.
    pub fn plot(&mut self, x: i32, y: i32, r: u8, g: u8, b: u8)
        requires
            on_screen(x as int, y as int) ==> frame_index(x as int, y as int) < old(self).0@.len(),
        ensures
            final(self).0@ == if on_screen(x as int, y as int) {
                old(self).0@.update(frame_index(x as int, y as int), rgb_value(r, g, b))
            } else {
                old(self).0@
            },
    {
        if x < 0 || x >= GAME_W as i32 || y < 0 || y >= GAME_H as i32 {
            return;
        }
        let idx: usize = (y * GAME_W as i32 + x) as usize;
        self.0[idx] = from_rgb(r, g, b);
    }
}

} // verus!
