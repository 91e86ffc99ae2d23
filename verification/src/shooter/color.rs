//! Packed 0xRRGGBB colours and the 256-entry palette.
use vstd::prelude::*;

verus! {

/// A colour packed as 0x00RRGGBB.
pub type Color = u32;

/// The packed value of a colour: red in bits 16..24, green in 8..16, blue in 0..8.
pub open spec fn rgb_value(r: u8, g: u8, b: u8) -> u32 {
    (r as int * 65536 + g as int * 256 + b as int) as u32
}

/// Packs three channels into one colour.
pub fn from_rgb(r: u8, g: u8, b: u8) -> (c: Color)
    ensures
        c == rgb_value(r, g, b),
        c < 0x0100_0000,
{
    let rr: u32 = r as u32;
    let gg: u32 = g as u32;
    let bb: u32 = b as u32;
    assert((rr << 16u32) | (gg << 8u32) | bb == rr * 65536 + gg * 256 + bb) by (bit_vector)
        requires
            rr < 256,
            gg < 256,
            bb < 256,
    ;
    (rr << 16u32) | (gg << 8u32) | bb
}

/// The channels of a packed colour, red first.
pub open spec fn channels(c: u32) -> (u8, u8, u8) {
    (((c / 65536) % 256) as u8, ((c / 256) % 256) as u8, (c % 256) as u8)
}

/// Packing loses nothing: the channels of `from_rgb(r, g, b)` are `r`, `g` and `b`.
pub proof fn lemma_rgb_channels(r: u8, g: u8, b: u8)
    ensures
        channels(rgb_value(r, g, b)) == (r, g, b),
{
    let v = r as int * 65536 + g as int * 256 + b as int;
    assert(v / 65536 == r as int) by (nonlinear_arith)
        requires
            v == r as int * 65536 + g as int * 256 + b as int,
            0 <= r < 256,
            0 <= g < 256,
            0 <= b < 256,
    ;
    assert(v / 256 == r as int * 256 + g as int) by (nonlinear_arith)
        requires
            v == r as int * 65536 + g as int * 256 + b as int,
            0 <= g < 256,
            0 <= b < 256,
    ;
    assert((r as int * 256 + g as int) % 256 == g as int) by (nonlinear_arith)
        requires
            0 <= g < 256,
            0 <= r,
    ;
    assert(v % 256 == b as int) by (nonlinear_arith)
        requires
            v == r as int * 65536 + g as int * 256 + b as int,
            0 <= r,
            0 <= g,
            0 <= b < 256,
    ;
}

/// One colour entry of an Aseprite palette, as the palette reads it.
#[derive(Clone, Copy, PartialEq, Eq, Structural, Debug)]
pub struct AseColor {
    pub r: u8,
    pub g: u8,
    pub b: u8,
}

/// A 256-entry indexed palette.
#[derive(Clone, Copy)]
pub struct Palette([Color; 256]);

impl View for Palette {
    type V = Seq<Color>;

    closed spec fn view(&self) -> Seq<Color> {
        self.0@
    }
}

impl Default for Palette {
    /// The all-black palette.
    fn default() -> (p: Self)
        ensures
            p@.len() == 256,
            forall|i: int| 0 <= i < 256 ==> p@[i] == 0,
    {
        Palette([0u32; 256])
    }
}

impl Palette {
    /// The colour at `index`.
    pub fn at(&self, index: u8) -> (c: Color)
        ensures
            c == self@[index as int],
    {
        self.0[index as usize]
    }

    /// A palette whose first entries are the given colours, packed, and whose
    /// remaining entries (if fewer than 256 colours are given) are 0; colours
    /// past the 256th are ignored.
    pub fn from_ase(src: &[AseColor]) -> (p: Self)
        ensures
            p@.len() == 256,
            forall|i: int|
                0 <= i < 256 ==> p@[i] == (if i < src@.len() {
                    rgb_value(src@[i].r, src@[i].g, src@[i].b)
                } else {
                    0
                }),
    {
        let mut out = [0u32; 256];
        let n: usize = if src.len() < 256 { src.len() } else { 256 };
        let mut i: usize = 0;
        while i < n
            invariant
                n <= 256,
                n <= src@.len(),
                n == src@.len() || n == 256,
                i <= n,
                out@.len() == 256,
                forall|k: int|
                    0 <= k < 256 ==> out@[k] == (if k < i {
                        rgb_value(src@[k].r, src@[k].g, src@[k].b)
                    } else {
                        0
                    }),
            decreases n - i,
        {
            let s = src[i];
            out[i] = from_rgb(s.r, s.g, s.b);
            i = i + 1;
        }
        Palette(out)
    }
}

} // verus!
