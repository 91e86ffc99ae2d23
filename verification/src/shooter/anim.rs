//! One-shot sprite animations, such as explosions.
use vstd::prelude::*;

use std::rc::Rc;

use crate::shooter::sprite::Sprite;

verus! {

/// A point in the game's floating-point plane, carried through unchanged.
#[verifier::external_type_specification]
#[verifier::external_body]
pub struct ExVec2(glam::Vec2);

/// Ticks each animation frame stays on screen.
pub const FRAME_TICKS: u32 = 6;

/// An animation playing its frames once, centred on a point.
pub struct Anim {
    center: glam::Vec2,
    frames: Rc<Vec<Sprite>>,
    tick: u32,
}

impl Anim {
    /// Ticks since the animation started.
    pub closed spec fn ticks(&self) -> u32 {
        self.tick
    }

    /// The frames, in order.
    pub closed spec fn frame_seq(&self) -> Seq<Sprite> {
        self.frames@
    }

    /// The number of frames.
    pub open spec fn frame_count(&self) -> nat {
        self.frame_seq().len()
    }

    /// The point the animation is centred on.
    pub closed spec fn center_point(&self) -> glam::Vec2 {
        self.center
    }

    /// A new animation at its first tick.
    pub fn new(frames: Rc<Vec<Sprite>>, center: glam::Vec2) -> (a: Self)
        ensures
            a.ticks() == 0,
            a.frame_seq() == frames@,
            a.center_point() == center,
    {
        Self { center, frames, tick: 0 }
    }

    /// Whether every frame has been shown for its `FRAME_TICKS` ticks.
    pub fn done(&self) -> (r: bool)
        requires
            FRAME_TICKS * self.frame_count() <= u32::MAX,
        ensures
            r == (self.ticks() >= FRAME_TICKS * self.frame_count()),
    {
        self.tick >= FRAME_TICKS * self.frames.len() as u32
    }

    /// The point the animation is centred on.
    pub fn center(&self) -> (c: glam::Vec2)
        ensures
            c == self.center_point(),
    {
        self.center
    }

    /// The frame showing at the current tick: frame `tick / FRAME_TICKS`,
    /// or none once the animation has run out of frames.
    pub fn current_frame(&self) -> (f: Option<&Sprite>)
        ensures
            (self.ticks() / FRAME_TICKS) < self.frame_count() ==> f == Some(
                &self.frame_seq()[(self.ticks() / FRAME_TICKS) as int],
            ),
            (self.ticks() / FRAME_TICKS) >= self.frame_count() ==> f is None,
    {
        let i: usize = (self.tick / FRAME_TICKS) as usize;
        if i < self.frames.len() {
            Some(&self.frames[i])
        } else {
            None
        }
    }

    /// Advances the animation by one tick.
    pub fn update(&mut self)
        requires
            old(self).ticks() < u32::MAX,
        ensures
            final(self).ticks() == old(self).ticks() + 1,
            final(self).frame_seq() == old(self).frame_seq(),
            final(self).center_point() == old(self).center_point(),
    {
        self.tick = self.tick + 1;
    }
}

} // verus!
