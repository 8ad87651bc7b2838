//! A non-player character that stands still and turns towards whoever talks to it.
use vstd::prelude::*;

use crate::cardinal::RpgDirection;
use crate::character_sprite::sprite_directions::{AnimationSwitch, SpriteDirections};
use crate::character_sprite::{CharacterSprite2d, SpriteWatch};

verus! {

/// The abstract state of a non-player character.
pub struct StaticNpcView<R> {
    pub facing_dir: RpgDirection,
    pub sprite: Option<CharacterSprite2d<R>>,
}

/// The state behind a non-player character: the direction it faces and its sprite's state,
/// when it has a sprite (`R` is the place where the sprite's animation stopped).
pub struct StaticNpc2d<R> {
    facing_dir: RpgDirection,
    sprite: Option<CharacterSprite2d<R>>,
}

impl<R> View for StaticNpc2d<R> {
    type V = StaticNpcView<R>;

    closed spec fn view(&self) -> StaticNpcView<R> {
        StaticNpcView { facing_dir: self.facing_dir, sprite: self.sprite }
    }
}

impl<R> StaticNpc2d<R> {
    /// A character facing south, without a sprite.
    pub fn new() -> (r: Self)
        ensures
            r@ == (StaticNpcView::<R> { facing_dir: RpgDirection::South, sprite: None }),
    {
        StaticNpc2d { facing_dir: RpgDirection::South, sprite: None }
    }

    /// The direction the character faces.
    pub fn facing_dir(&self) -> (r: RpgDirection)
        ensures
            r == self@.facing_dir,
    {
        self.facing_dir
    }

    /// Whether the character has a sprite.
    pub fn has_sprite(&self) -> (r: bool)
        ensures
            r == self@.sprite is Some,
    {
        self.sprite.is_some()
    }

    /// The signal to listen to: for a sprite to adopt while there is none, for the sprite
    /// leaving otherwise.
    pub fn watched_signal(&self) -> (r: SpriteWatch)
        ensures
            r == (if self@.sprite is Some { SpriteWatch::SpriteExiting } else { SpriteWatch::ChildEntered }),
    {
        if self.sprite.is_some() {
            SpriteWatch::SpriteExiting
        } else {
            SpriteWatch::ChildEntered
        }
    }

    /// Turns the character to face `dir`; when it has a sprite, which is `playing` or not,
    /// returns the switch to apply to it.
    pub fn set_facing_dir(&mut self, dir: RpgDirection, playing: bool) -> (r: Option<AnimationSwitch>)
        ensures
            final(self)@.facing_dir == dir,
            old(self)@.sprite is None ==> r is None && final(self)@.sprite is None,
            old(self)@.sprite matches Some(s) ==> ({
                &&& final(self)@.sprite matches Some(t)
                &&& t.spec_directions() == s.spec_directions()
                &&& t.spec_anim_dir() == s.spec_directions().spec_nearest_to(s.spec_anim_dir(), dir)
                &&& t.spec_memory() == s.spec_memory()
                &&& r matches Some(w) && w.keep_progress == playing
                    && w.name@ == crate::character_sprite::sprite_directions::anim_name(t.spec_anim_dir())
            }),
    {
        self.facing_dir = dir;
        match &mut self.sprite {
            Some(sprite) => Some(sprite.set_dir(dir, playing)),
            None => None,
        }
    }

    /// An animated sprite with the walk animations `directions`, `playing` or not, entered
    /// the tree as the character's child: it becomes the character's sprite, facing the
    /// character's direction, unless the character has one already. Returns the switch to
    /// apply to the adopted sprite.
    pub fn on_child_entered_tree(&mut self, directions: SpriteDirections, playing: bool) -> (r: Option<
        AnimationSwitch,
    >)
        ensures
            final(self)@.facing_dir == old(self)@.facing_dir,
            old(self)@.sprite is Some ==> r is None && final(self)@ == old(self)@,
            old(self)@.sprite is None ==> ({
                &&& final(self)@.sprite matches Some(t)
                &&& t.spec_directions() == directions
                &&& t.spec_anim_dir() == directions.spec_nearest_to(
                    directions.spec_nearest_to(RpgDirection::East, old(self)@.facing_dir),
                    old(self)@.facing_dir,
                )
                &&& t.spec_memory().saved is None
                &&& r matches Some(w) && w.keep_progress == playing
                    && w.name@ == crate::character_sprite::sprite_directions::anim_name(t.spec_anim_dir())
            }),
    {
        if self.sprite.is_some() {
            return None;
        }
        let (sprite, switch) = CharacterSprite2d::new(directions, self.facing_dir, playing);
        self.sprite = Some(sprite);
        Some(switch)
    }

    /// The sprite left the tree: the character has no sprite any more.
    pub fn on_sprite_exiting(&mut self)
        ensures
            final(self)@ == (StaticNpcView::<R> { facing_dir: old(self)@.facing_dir, sprite: None }),
    {
        self.sprite = None;
    }
}

} // verus!
