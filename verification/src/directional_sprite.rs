//! The state of a sprite node that turns to face a direction.
use vstd::prelude::*;

use crate::cardinal::RpgDirection;
use crate::character_sprite::rolling_value::RollingValue;
use crate::character_sprite::sprite_directions::{anim_name, AnimationSwitch, SpriteDirections};

verus! {

/// The state of a directional sprite: the requested direction together with the one
/// requested before it, and which walk animations the sprite has.
pub struct DirectionalSprite2D {
    direction: RollingValue<RpgDirection>,
    supported_dirs: SpriteDirections,
}

impl DirectionalSprite2D {
    pub closed spec fn spec_direction(&self) -> RollingValue<RpgDirection> {
        self.direction
    }

    pub closed spec fn spec_supported_dirs(&self) -> SpriteDirections {
        self.supported_dirs
    }

    /// A sprite that faces south (and faced south before) and has no walk animations yet.
    pub fn new() -> (r: Self)
        ensures
            r.spec_direction() == (RollingValue { current: RpgDirection::South, prev: RpgDirection::South }),
            r.spec_supported_dirs() == SpriteDirections::Nothing,
    {
        DirectionalSprite2D {
            direction: RollingValue::new_with(RpgDirection::South),
            supported_dirs: SpriteDirections::Nothing,
        }
    }

    /// The requested direction and the one requested before it.
    pub fn direction(&self) -> (r: RollingValue<RpgDirection>)
        ensures
            r == self.spec_direction(),
    {
        self.direction
    }

    /// The walk animations the sprite has.
    pub fn supported_dirs(&self) -> (r: SpriteDirections)
        ensures
            r == self.spec_supported_dirs(),
    {
        self.supported_dirs
    }

    /// Requests `dir`; returns the switch to apply to the sprite, which is `playing` or not:
    /// the animation nearest to `dir`, biased towards the direction requested before.
    pub fn set_direction(&mut self, dir: RpgDirection, playing: bool) -> (r: AnimationSwitch)
        ensures
            final(self).spec_direction() == old(self).spec_direction().spec_push(dir).0,
            final(self).spec_supported_dirs() == old(self).spec_supported_dirs(),
            r.name@ == anim_name(
                old(self).spec_supported_dirs().spec_nearest_to(old(self).spec_direction().current, dir),
            ),
            r.keep_progress == playing,
    {
        self.direction.push(dir);
        self.supported_dirs.apply_rolling_direction(playing, self.direction)
    }

    /// Takes note that the sprite's animations changed so that it now supports `new_dirs`;
    /// when that differs from before, returns the switch that shows the current direction
    /// again.
    pub fn update_frames(&mut self, new_dirs: SpriteDirections, playing: bool) -> (r: Option<
        AnimationSwitch,
    >)
        ensures
            final(self).spec_direction() == old(self).spec_direction(),
            final(self).spec_supported_dirs() == new_dirs,
            new_dirs == old(self).spec_supported_dirs() <==> r is None,
            r matches Some(s) ==> s.keep_progress == playing && s.name@ == anim_name(
                new_dirs.spec_nearest_to(old(self).spec_direction().prev, old(self).spec_direction().current),
            ),
    {
        if self.supported_dirs == new_dirs {
            return None;
        }
        self.supported_dirs = new_dirs;
        Some(self.supported_dirs.apply_rolling_direction(playing, self.direction))
    }
}

} // verus!
