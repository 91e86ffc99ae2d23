//! Showing the 240x160 frame in a window: scaled up by the largest whole
//! factor that fits, centred, with black around it.
use vstd::prelude::*;

use crate::shooter::gfx::{GAME_H, GAME_W};

verus! {

/// The largest whole factor by which the frame fits a `w` by `h` window.
pub open spec fn scale_for(w: int, h: int) -> int {
    let sx = (w as int) / (GAME_W as int);
    let sy = (h as int) / (GAME_H as int);
    if sx < sy {
        sx
    } else {
        sy
    }
}

/// The scale is the largest whole factor that fits: the scaled frame fits
/// the window, and one step larger would not; it is the smaller of the
/// window's width over 240 and its height over 160.
pub proof fn lemma_scale_is_largest(w: int, h: int)
    requires
        w >= 0,
        h >= 0,
    ensures
        scale_for(w, h) >= 0,
        GAME_W * scale_for(w, h) <= w,
        GAME_H * scale_for(w, h) <= h,
        GAME_W * (scale_for(w, h) + 1) > w || GAME_H * (scale_for(w, h) + 1) > h,
        scale_for(w, h) == w / 240 || scale_for(w, h) == h / 160,
        scale_for(w, h) <= w / 240 && scale_for(w, h) <= h / 160,
{
    let s = scale_for(w, h);
    assert(240 * (w / 240) <= w && w < 240 * (w / 240 + 1)) by (nonlinear_arith)
        requires
            w >= 0,
    ;
    assert(160 * (h / 160) <= h && h < 160 * (h / 160 + 1)) by (nonlinear_arith)
        requires
            h >= 0,
    ;
    assert(w / 240 >= 0 && h / 160 >= 0) by (nonlinear_arith)
        requires
            w >= 0,
            h >= 0,
    ;
    assert(240 * s <= 240 * (w / 240) && 160 * s <= 160 * (h / 160)) by (nonlinear_arith)
        requires
            s <= w / 240,
            s <= h / 160,
    ;
}

/// The colour of entry `k` of a `w` by `h` window buffer showing `frame`:
/// inside the centred, scaled image it is the frame pixel it enlarges,
/// outside it is black (0).
pub open spec fn presented_pixel(frame: Seq<u32>, w: int, h: int, k: int) -> u32 {
    let s = scale_for(w, h);
    let x0 = (w - GAME_W * s) / 2;
    let y0 = (h - GAME_H * s) / 2;
    let x = k % w;
    let y = k / w;
    if x0 <= x < x0 + GAME_W * s && y0 <= y < y0 + GAME_H * s {
        frame[((y - y0) / s) * GAME_W + (x - x0) / s]
    } else {
        0
    }
}

proof fn lemma_pixel_in_frame(s: int, dx: int, dy: int)
    requires
        s > 0,
        0 <= dx < GAME_W * s,
        0 <= dy < GAME_H * s,
    ensures
        0 <= dx / s < GAME_W,
        0 <= dy / s < GAME_H,
        0 <= (dy / s) * GAME_W + dx / s < GAME_W * GAME_H,
{
    assert(0 <= dx / s < 240) by (nonlinear_arith)
        requires
            s > 0,
            0 <= dx < 240 * s,
    ;
    assert(0 <= dy / s < 160) by (nonlinear_arith)
        requires
            s > 0,
            0 <= dy < 160 * s,
    ;
    assert(0 <= (dy / s) * 240 + dx / s < 38400) by (nonlinear_arith)
        requires
            0 <= dx / s < 240,
            0 <= dy / s < 160,
    ;
}

/// The whole scale of the frame in a `w` by `h` window (0 or less when it
/// does not fit), and the left and top margins of the scaled frame.
pub open spec fn window_layout(w: int, h: int) -> (int, int, int) {
    let sx = w / (GAME_W as int);
    let sy = h / (GAME_H as int);
    let s = if sx < sy {
        sx
    } else {
        sy
    };
    (s, (w - GAME_W * s) / 2, (h - GAME_H * s) / 2)
}

/// A window position relative to the top left corner of the scaled frame,
/// with the scale, for a `w` by `h` window; none when the window is smaller
/// than the frame.
pub fn cursor_offset(px: i32, py: i32, w: i32, h: i32) -> (r: Option<(i32, i32, i32)>)
    requires
        window_layout(w as int, h as int).0 > 0 ==> px - window_layout(w as int, h as int).1
            >= i32::MIN && py - window_layout(w as int, h as int).2 >= i32::MIN,
    ensures
        ({
            let (s, x0, y0) = window_layout(w as int, h as int);
            if s > 0 {
                r == Some(((px - x0) as i32, (py - y0) as i32, s as i32))
            } else {
                r is None
            }
        }),
{
    if w < 240 || h < 160 {
        return None;
    }
    let sx: i32 = w / 240;
    let sy: i32 = h / 160;
    let s: i32 = if sx < sy {
        sx
    } else {
        sy
    };
    assert(240 * s <= w) by (nonlinear_arith)
        requires
            s <= w / 240,
            w >= 240,
    ;
    assert(160 * s <= h) by (nonlinear_arith)
        requires
            s <= h / 160,
            h >= 160,
    ;
    let x0: i32 = (w - 240 * s) / 2;
    let y0: i32 = (h - 160 * s) / 2;
    Some((px - x0, py - y0, s))
}

/// Each frame pixel `(gx, gy)` fills a square of `scale * scale` window
/// pixels, at the scaled frame's margins plus `scale` times its position.
pub proof fn lemma_presented_block(
    frame: Seq<u32>,
    w: int,
    h: int,
    gx: int,
    gy: int,
    sx: int,
    sy: int,
)
    requires
        scale_for(w, h) > 0,
        0 <= gx < GAME_W,
        0 <= gy < GAME_H,
        0 <= sx < scale_for(w, h),
        0 <= sy < scale_for(w, h),
    ensures
        ({
            let s = scale_for(w, h);
            let x0 = (w - GAME_W * s) / 2;
            let y0 = (h - GAME_H * s) / 2;
            let k = (y0 + gy * s + sy) * w + x0 + gx * s + sx;
            &&& 0 <= k < w * h
            &&& presented_pixel(frame, w, h, k) == frame[gy * GAME_W + gx]
        }),
{
    let s = scale_for(w, h);
    let x0 = (w - GAME_W * s) / 2;
    let y0 = (h - GAME_H * s) / 2;
    let x = x0 + gx * s + sx;
    let y = y0 + gy * s + sy;
    let k = y * w + x;
    assert(240 * s <= w && 160 * s <= h) by (nonlinear_arith)
        requires
            s == scale_for(w, h),
            s > 0,
    ;
    assert(0 <= gx * s + sx < 240 * s && 0 <= gy * s + sy < 160 * s) by (nonlinear_arith)
        requires
            0 <= gx < 240,
            0 <= gy < 160,
            0 <= sx < s,
            0 <= sy < s,
    ;
    assert(0 <= x0 && x0 + 240 * s <= w);
    assert(0 <= y0 && y0 + 160 * s <= h);
    assert(0 <= x < w && 0 <= y < h);
    assert(0 <= k < w * h) by (nonlinear_arith)
        requires
            k == y * w + x,
            0 <= x < w,
            0 <= y < h,
    ;
    vstd::arithmetic::div_mod::lemma_fundamental_div_mod_converse(k, w, y, x);
    vstd::arithmetic::div_mod::lemma_fundamental_div_mod_converse(gx * s + sx, s, gx, sx);
    vstd::arithmetic::div_mod::lemma_fundamental_div_mod_converse(gy * s + sy, s, gy, sy);
}

/// Fills a `w` by `h` window buffer (row by row) with the frame, scaled and
/// centred as `presented_pixel` says. Nothing is drawn, and `false` comes
/// back, when the window is smaller than the frame or the buffer does not
/// have `w * h` entries.
pub fn present_scaled(frame: &[u32], buffer: &mut [u32], w: usize, h: usize) -> (presented: bool)
    requires
        frame@.len() >= GAME_W * GAME_H,
        scale_for(w as int, h as int) > 0 ==> w * h <= usize::MAX,
    ensures
        presented == (scale_for(w as int, h as int) > 0 && old(buffer)@.len() == w * h),
        !presented ==> final(buffer)@ == old(buffer)@,
        presented ==> final(buffer)@.len() == old(buffer)@.len() && forall|k: int|
            0 <= k < w * h ==> #[trigger] final(buffer)@[k] == presented_pixel(
                frame@,
                w as int,
                h as int,
                k,
            ),
{
    let sx: usize = w / 240;
    let sy: usize = h / 160;
    let scale: usize = if sx < sy {
        sx
    } else {
        sy
    };
    if scale == 0 {
        return false;
    }
    if buffer.len() != w * h {
        return false;
    }
    assert(240 * scale <= w) by (nonlinear_arith)
        requires
            scale <= w / 240,
    ;
    assert(160 * scale <= h) by (nonlinear_arith)
        requires
            scale <= h / 160,
    ;
    let out_w: usize = 240 * scale;
    let out_h: usize = 160 * scale;
    let x0: usize = (w - out_w) / 2;
    let y0: usize = (h - out_h) / 2;
    let ghost n = w * h;
    let mut y: usize = 0;
    while y < h
        invariant
            scale == scale_for(w as int, h as int),
            scale > 0,
            out_w == 240 * scale,
            out_h == 160 * scale,
            out_w <= w,
            out_h <= h,
            x0 == (w - out_w) / 2,
            y0 == (h - out_h) / 2,
            frame@.len() >= 38400,
            buffer@.len() == w * h,
            w * h <= usize::MAX,
            y <= h,
            forall|k: int|
                0 <= k < y * w ==> #[trigger] buffer@[k] == presented_pixel(
                    frame@,
                    w as int,
                    h as int,
                    k,
                ),
        decreases h - y,
    {
        let in_rows: bool = y0 <= y && y < y0 + out_h;
        let gy: usize = if in_rows {
            (y - y0) / scale
        } else {
            0
        };
        proof {
            if in_rows {
                lemma_pixel_in_frame(scale as int, 0, (y - y0) as int);
            }
            assert((y + 1) * w <= w * h) by (nonlinear_arith)
                requires
                    y < h,
            ;
            assert((y + 1) * w == y * w + w) by (nonlinear_arith);
        }
        let mut x: usize = 0;
        while x < w
            invariant
                scale == scale_for(w as int, h as int),
                scale > 0,
                out_w == 240 * scale,
                out_h == 160 * scale,
                out_w <= w,
                out_h <= h,
                x0 == (w - out_w) / 2,
                y0 == (h - out_h) / 2,
                frame@.len() >= 38400,
                buffer@.len() == w * h,
                w * h <= usize::MAX,
                y < h,
                (y + 1) * w <= w * h,
                (y + 1) * w == y * w + w,
                in_rows == (y0 <= y && y < y0 + out_h),
                in_rows ==> gy == (y - y0) as int / (scale as int) && gy < 160,
                x <= w,
                forall|k: int|
                    0 <= k < y * w + x ==> #[trigger] buffer@[k] == presented_pixel(
                        frame@,
                        w as int,
                        h as int,
                        k,
                    ),
            decreases w - x,
        {
            let k: usize = y * w + x;
            proof {
                vstd::arithmetic::div_mod::lemma_fundamental_div_mod_converse(
                    k as int,
                    w as int,
                    y as int,
                    x as int,
                );
            }
            let c: u32 = if in_rows && x0 <= x && x < x0 + out_w {
                let gx: usize = (x - x0) / scale;
                proof {
                    lemma_pixel_in_frame(scale as int, (x - x0) as int, (y - y0) as int);
                }
                frame[gy * 240 + gx]
            } else {
                0
            };
            buffer[k] = c;
            x = x + 1;
        }
        y = y + 1;
    }
    assert(y * w == w * h) by (nonlinear_arith)
        requires
            y == h,
    ;
    true
}

} // verus!
