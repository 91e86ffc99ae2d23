//! Sprites: rectangular images of palette indices.
use vstd::prelude::*;

use crate::shooter::color::Palette;
use crate::shooter::gfx::{blit, blit_fits, blit_upto, IVec2};

verus! {

/// An image of palette indices, `size.x` pixels per row.
#[derive(Clone, Default)]
pub struct Sprite {
    pixels: Vec<u8>,
    pub size: IVec2,
}

impl Sprite {
    /// The sprite's palette indices, row by row.
    pub closed spec fn pixel_data(&self) -> Seq<u8> {
        self.pixels@
    }

    /// The sprite's width and height.
    pub closed spec fn dims(&self) -> IVec2 {
        self.size
    }

    pub fn new(width: i32, height: i32, pixels: Vec<u8>) -> (s: Self)
        ensures
            s.pixel_data() == pixels@,
            s.dims() == (IVec2 { x: width, y: height }),
    {
        Self { pixels, size: IVec2 { x: width, y: height } }
    }

    /// The sprite's palette indices, row by row.
    pub fn pixels(&self) -> (p: &[u8])
        ensures
            p@ == self.pixel_data(),
    {
        self.pixels.as_slice()
    }

    /// Draws the sprite with its top left corner at `pos`.
    pub fn draw_at(&self, frame: &mut [u32], palette: &Palette, pos: IVec2)
        requires
            blit_fits(old(frame)@.len() as int, self.pixel_data(), pos, self.dims().x),
        ensures
            final(frame)@ == blit_upto(
                old(frame)@,
                palette@,
                self.pixel_data(),
                pos,
                self.dims().x,
                0,
                self.pixel_data().len(),
            ),
    {
        blit(frame, palette, &self.pixels, pos, self.size.x, 0);
    }

    /// Draws the sprite with every non-transparent pixel in the palette colour `tint`
    /// (or in its own colours when `tint` is 0).
    pub fn draw_tinted(&self, frame: &mut [u32], palette: &Palette, pos: IVec2, tint: u8)
        requires
            blit_fits(old(frame)@.len() as int, self.pixel_data(), pos, self.dims().x),
        ensures
            final(frame)@ == blit_upto(
                old(frame)@,
                palette@,
                self.pixel_data(),
                pos,
                self.dims().x,
                tint,
                self.pixel_data().len(),
            ),
    {
        blit(frame, palette, &self.pixels, pos, self.size.x, tint);
    }
}

} // verus!
