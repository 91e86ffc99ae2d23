//! The colours of the heads on screen, and their textures.
use vstd::prelude::*;

verus! {

/// The colour of a head.
#[derive(Debug, Copy, Clone, PartialEq, Eq, Structural)]
pub enum EntityColor {
    Red,
    Green,
    Bleu,
    Yellow,
}

/// The position of a colour in per-colour tables: red, green, blue, yellow.
pub open spec fn color_index(c: EntityColor) -> usize {
    match c {
        EntityColor::Red => 0,
        EntityColor::Green => 1,
        EntityColor::Bleu => 2,
        EntityColor::Yellow => 3,
    }
}

impl EntityColor {
    /// The colour's position in per-colour tables.
    pub fn index(&self) -> (i: usize)
        ensures
            i == color_index(*self),
            i < 4,
    {
        match self {
            EntityColor::Red => 0,
            EntityColor::Green => 1,
            EntityColor::Bleu => 2,
            EntityColor::Yellow => 3,
        }
    }
}

/// The game's textures.
#[derive(Debug, Copy, Clone, PartialEq, Eq, Structural)]
pub enum Texture {
    BackgroundMain,
    Computer,
    Disquette,
    Landing,
    Mrbleu,
    MrbleuLurking,
    Mrgreen,
    Mrred,
    Mryellow,
    Mute,
    Unmute,
}

/// The texture a head of a colour is drawn with.
pub open spec fn color_texture(c: EntityColor) -> Texture {
    match c {
        EntityColor::Red => Texture::Mrred,
        EntityColor::Green => Texture::Mrgreen,
        EntityColor::Bleu => Texture::Mrbleu,
        EntityColor::Yellow => Texture::Mryellow,
    }
}

/// The texture of a coloured thing.
pub trait ColorExt {
    fn texture(&self) -> Texture;
}

impl ColorExt for EntityColor {
    fn texture(&self) -> (t: Texture)
        ensures
            t == color_texture(*self),
    {
        match self {
            EntityColor::Red => Texture::Mrred,
            EntityColor::Green => Texture::Mrgreen,
            EntityColor::Bleu => Texture::Mrbleu,
            EntityColor::Yellow => Texture::Mryellow,
        }
    }
}

} // verus!
