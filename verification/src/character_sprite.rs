//! Choosing and driving the walk animations of a character sprite.
use vstd::prelude::*;

pub mod animation_resume;
pub mod rolling_value;
pub mod sprite_directions;

use crate::cardinal::RpgDirection;
use animation_resume::{Playback, PlaybackMemory};
use sprite_directions::{anim_name, AnimationSwitch, SpriteDirections};

verus! {

/// The signal a character listens to for its sprite.
#[derive(Debug, Clone, Copy, PartialEq, Eq, Structural)]
pub enum SpriteWatch {
    /// Without a sprite: a child entering the tree, which may be a sprite to adopt.
    ChildEntered,
    /// With a sprite: the sprite leaving the tree.
    SpriteExiting,
}

/// The state behind an animated character sprite: which walk animations it has, the
/// direction whose animation it shows, and where its animation stopped (`R`, a frame and its
/// progress). The sprite itself is driven by the caller as each method directs.
pub struct CharacterSprite2d<R> {
    directions: SpriteDirections,
    anim_dir: RpgDirection,
    memory: PlaybackMemory<R>,
}

impl<R> CharacterSprite2d<R> {
    pub closed spec fn spec_directions(&self) -> SpriteDirections {
        self.directions
    }

    pub closed spec fn spec_anim_dir(&self) -> RpgDirection {
        self.anim_dir
    }

    pub closed spec fn spec_memory(&self) -> PlaybackMemory<R> {
        self.memory
    }

    /// The state of a sprite with the walk animations `directions` that is made to face
    /// `initial_dir`, and the switch to apply to the sprite, which is `playing` or not.
    pub fn new(directions: SpriteDirections, initial_dir: RpgDirection, playing: bool) -> (r: (
        Self,
        AnimationSwitch,
    ))
        ensures
            r.0.spec_directions() == directions,
            r.0.spec_anim_dir() == directions.spec_nearest_to(
                directions.spec_nearest_to(RpgDirection::East, initial_dir),
                initial_dir,
            ),
            r.0.spec_memory().saved is None,
            r.1.name@ == anim_name(r.0.spec_anim_dir()),
            r.1.keep_progress == playing,
    {
        let mut res = CharacterSprite2d {
            directions,
            anim_dir: directions.nearest_to(RpgDirection::East, initial_dir),
            memory: PlaybackMemory::new(),
        };
        let switch = res.set_dir(initial_dir, playing);
        (res, switch)
    }

    /// The walk animations this sprite has.
    pub fn directions(&self) -> (r: SpriteDirections)
        ensures
            r == self.spec_directions(),
    {
        self.directions
    }

    /// The direction whose walk animation the sprite shows.
    pub fn anim_dir(&self) -> (r: RpgDirection)
        ensures
            r == self.spec_anim_dir(),
    {
        self.anim_dir
    }

    /// Turns the sprite towards `dir`: it shows the supported direction nearest to `dir`,
    /// keeping the one it showed where that is as near; returns the switch to apply to the
    /// sprite, which is `playing` or not.
    pub fn set_dir(&mut self, dir: RpgDirection, playing: bool) -> (r: AnimationSwitch)
        ensures
            final(self).spec_directions() == old(self).spec_directions(),
            final(self).spec_anim_dir() == old(self).spec_directions().spec_nearest_to(
                old(self).spec_anim_dir(),
                dir,
            ),
            final(self).spec_memory() == old(self).spec_memory(),
            r.name@ == anim_name(final(self).spec_anim_dir()),
            r.keep_progress == playing,
    {
        self.anim_dir = self.directions.nearest_to(self.anim_dir, dir);
        AnimationSwitch {
            name: SpriteDirections::get_anim_name_for(self.anim_dir),
            keep_progress: playing,
        }
    }

    /// Gets the sprite's animation running, at the place where it was last stopped if any.
    pub fn ensure_playing(&mut self, playing: bool) -> (r: Playback<R>)
        ensures
            final(self).spec_directions() == old(self).spec_directions(),
            final(self).spec_anim_dir() == old(self).spec_anim_dir(),
            (final(self).spec_memory(), r) == old(self).spec_memory().spec_unpause(playing),
    {
        self.memory.unpause(playing)
    }

    /// Stops the sprite's animation if it is `playing`, remembering `at`, the place where it
    /// was; returns whether the sprite must be stopped and set to show frame 1.
    pub fn ensure_stopped(&mut self, playing: bool, at: R) -> (stop: bool)
        ensures
            final(self).spec_directions() == old(self).spec_directions(),
            final(self).spec_anim_dir() == old(self).spec_anim_dir(),
            (final(self).spec_memory(), stop) == old(self).spec_memory().spec_pause(playing, at),
    {
        self.memory.pause(playing, at)
    }
}

} // verus!
