//! Which walk animations a sprite has, and which of them to show for a direction.
use vstd::prelude::*;

use crate::cardinal::{positions_adjacent, RpgDirection};
use crate::character_sprite::rolling_value::RollingValue;

verus! {

pub const NORTH_ANIM_NAME: &'static str = "walk_north";
pub const SOUTH_ANIM_NAME: &'static str = "walk_south";
pub const EAST_ANIM_NAME: &'static str = "walk_east";
pub const WEST_ANIM_NAME: &'static str = "walk_west";
pub const NORTHEAST_ANIM_NAME: &'static str = "walk_northeast";
pub const NORTHWEST_ANIM_NAME: &'static str = "walk_northwest";
pub const SOUTHEAST_ANIM_NAME: &'static str = "walk_southeast";
pub const SOUTHWEST_ANIM_NAME: &'static str = "walk_southwest";

/// The directions supported by a sprite.
#[derive(Debug, Clone, Copy, PartialEq, Eq, Structural, Hash, Default)]
pub enum SpriteDirections {
    #[default]
    Nothing,
    /// Cardinals (N, S, E, W)
    Cardinals,
    /// Cardinals & intercardinals (N, S, E, W, NE, SE, NW, SW)
    All,
}

/// How a sprite's animation changes when the direction it shows changes.
#[derive(Debug, Clone, Copy, PartialEq, Eq)]
pub struct AnimationSwitch {
    /// The walk animation to show.
    pub name: &'static str,
    /// `true` when the sprite is playing: play `name` and restore the frame and its progress
    /// from before the switch. `false` when it is stopped: select `name` and show frame 1.
    pub keep_progress: bool,
}

/// The name of the walk animation for a direction.
pub open spec fn anim_name(dir: RpgDirection) -> Seq<char> {
    match dir {
        RpgDirection::East => "walk_east"@,
        RpgDirection::SouthEast => "walk_southeast"@,
        RpgDirection::South => "walk_south"@,
        RpgDirection::SouthWest => "walk_southwest"@,
        RpgDirection::West => "walk_west"@,
        RpgDirection::NorthWest => "walk_northwest"@,
        RpgDirection::North => "walk_north"@,
        RpgDirection::NorthEast => "walk_northeast"@,
    }
}

/// Whether the walk animation of `dir` is present, where `available` holds one flag per
/// direction, indexed by clockwise position from east.
pub open spec fn has_anim(available: Seq<bool>, dir: RpgDirection) -> bool {
    available[dir.ord()]
}

impl SpriteDirections {
    /// Whether a sprite with these directions can show `dir`.
    pub open spec fn supports(self, dir: RpgDirection) -> bool {
        match self {
            SpriteDirections::Nothing => false,
            SpriteDirections::Cardinals => dir.spec_is_cardinal(),
            SpriteDirections::All => true,
        }
    }

    pub open spec fn spec_nearest_to(self, sticky: RpgDirection, dir: RpgDirection) -> RpgDirection {
        match self {
            SpriteDirections::Nothing => sticky,
            SpriteDirections::All => dir,
            SpriteDirections::Cardinals => dir.spec_nearest_cardinal(sticky),
        }
    }

    /// The directions a sprite supports, given which of the eight walk animations it has.
    pub open spec fn spec_check(available: Seq<bool>) -> SpriteDirections {
        if has_anim(available, RpgDirection::North) && has_anim(available, RpgDirection::South)
            && has_anim(available, RpgDirection::East) && has_anim(available, RpgDirection::West) {
            if has_anim(available, RpgDirection::NorthWest) && has_anim(available, RpgDirection::NorthEast)
                && has_anim(available, RpgDirection::SouthWest) && has_anim(available, RpgDirection::SouthEast) {
                SpriteDirections::All
            } else {
                SpriteDirections::Cardinals
            }
        } else {
            SpriteDirections::Nothing
        }
    }

    /// The name of the walk animation for `dir`.
    pub fn get_anim_name_for(dir: RpgDirection) -> (r: &'static str)
        ensures
            r@ == anim_name(dir),
    {
        proof {
            reveal_strlit("walk_north");
            reveal_strlit("walk_south");
            reveal_strlit("walk_east");
            reveal_strlit("walk_west");
            reveal_strlit("walk_northeast");
            reveal_strlit("walk_northwest");
            reveal_strlit("walk_southeast");
            reveal_strlit("walk_southwest");
        }
        match dir {
            RpgDirection::East => EAST_ANIM_NAME,
            RpgDirection::SouthEast => SOUTHEAST_ANIM_NAME,
            RpgDirection::South => SOUTH_ANIM_NAME,
            RpgDirection::SouthWest => SOUTHWEST_ANIM_NAME,
            RpgDirection::West => WEST_ANIM_NAME,
            RpgDirection::NorthWest => NORTHWEST_ANIM_NAME,
            RpgDirection::North => NORTH_ANIM_NAME,
            RpgDirection::NorthEast => NORTHEAST_ANIM_NAME,
        }
    }

    /// Get the nearest supported direction to the given direction, biased towards the "sticky" direction.
    pub fn nearest_to(self, sticky: RpgDirection, dir: RpgDirection) -> (r: RpgDirection)
        ensures
            r == self.spec_nearest_to(sticky, dir),
    {
        match self {
            SpriteDirections::Nothing => sticky,
            SpriteDirections::All => dir,
            SpriteDirections::Cardinals => dir.nearest_cardinal(sticky),
        }
    }

    /// The walk animation to show for `dir`, biased towards the "sticky" direction.
    pub fn nearest_anim_to(self, sticky: RpgDirection, dir: RpgDirection) -> (r: &'static str)
        ensures
            r@ == anim_name(self.spec_nearest_to(sticky, dir)),
    {
        Self::get_anim_name_for(self.nearest_to(sticky, dir))
    }

    /// Get the directions supported by a sprite from which of its walk animations exist:
    /// `available[i]` tells whether the animation of the direction at clockwise position `i`
    /// from east exists (the names are those of `get_anim_name_for`).
    pub fn check_sprite_frames(available: &[bool; 8]) -> (r: SpriteDirections)
        ensures
            r == Self::spec_check(available@),
    {
        if available[6] && available[2] && available[0] && available[4] {
            if available[5] && available[7] && available[3] && available[1] {
                SpriteDirections::All
            } else {
                SpriteDirections::Cardinals
            }
        } else {
            SpriteDirections::Nothing
        }
    }

    /// How to switch a sprite, playing or not, that showed the animation nearest to
    /// `prev_dir` when it turns to `dir`.
    pub fn apply_direction(self, playing: bool, prev_dir: RpgDirection, dir: RpgDirection) -> (r: AnimationSwitch)
        ensures
            r.name@ == anim_name(self.spec_nearest_to(prev_dir, dir)),
            r.keep_progress == playing,
    {
        AnimationSwitch { name: self.nearest_anim_to(prev_dir, dir), keep_progress: playing }
    }

    /// `apply_direction` from the previous to the current value of a rolling direction.
    pub fn apply_rolling_direction(self, playing: bool, dir: RollingValue<RpgDirection>) -> (r: AnimationSwitch)
        ensures
            r.name@ == anim_name(self.spec_nearest_to(dir.prev, dir.current)),
            r.keep_progress == playing,
    {
        self.apply_direction(playing, dir.prev, dir.current)
    }
}

/// Every walk animation is named `walk_` followed by the name of its direction, so distinct
/// directions have distinct animations.
pub proof fn lemma_anim_name(dir: RpgDirection, other: RpgDirection)
    ensures
        anim_name(dir) == "walk_"@ + dir.spec_name(),
        dir != other ==> anim_name(dir) != anim_name(other),
{
    reveal_strlit("walk_");
    reveal_strlit("walk_north");
    reveal_strlit("walk_south");
    reveal_strlit("walk_east");
    reveal_strlit("walk_west");
    reveal_strlit("walk_northeast");
    reveal_strlit("walk_northwest");
    reveal_strlit("walk_southeast");
    reveal_strlit("walk_southwest");
    reveal_strlit("north");
    reveal_strlit("south");
    reveal_strlit("east");
    reveal_strlit("west");
    reveal_strlit("northeast");
    reveal_strlit("northwest");
    reveal_strlit("southeast");
    reveal_strlit("southwest");
    assert(anim_name(dir) =~= "walk_"@ + dir.spec_name());
    if dir != other {
        assert(anim_name(dir).len() != anim_name(other).len() || anim_name(dir)[5] != anim_name(
            other,
        )[5] || anim_name(dir)[10] != anim_name(other)[10]);
    }
}

/// The direction chosen for a sprite is one it can show (when it can show any), and it is
/// the requested direction whenever that one is supported.
pub proof fn lemma_nearest_to_supported(dirs: SpriteDirections, sticky: RpgDirection, dir: RpgDirection)
    ensures
        dirs != SpriteDirections::Nothing ==> dirs.supports(dirs.spec_nearest_to(sticky, dir)),
        dirs.supports(dir) ==> dirs.spec_nearest_to(sticky, dir) == dir,
        dirs == SpriteDirections::Nothing ==> dirs.spec_nearest_to(sticky, dir) == sticky,
{
    crate::cardinal::lemma_nearest_cardinal(dir, sticky);
}

/// A sprite is classified as supporting a direction only when it has that direction's
/// walk animation.
pub proof fn lemma_check_supports(available: Seq<bool>, dir: RpgDirection)
    requires
        available.len() == 8,
    ensures
        SpriteDirections::spec_check(available).supports(dir) ==> has_anim(available, dir),
{
}

/// The direction a sprite shows, by clockwise positions: with no walk animations the sticky
/// direction stays; with all of them the requested one is shown; with the cardinals only, a
/// requested cardinal is shown, else the sticky direction when it is a cardinal next to the
/// requested one, else the cardinal just counter-clockwise of the requested one. Either way a
/// cardinal-only sprite shows a cardinal next to the requested direction.
pub proof fn lemma_nearest_to_positions(dirs: SpriteDirections, sticky: RpgDirection, dir: RpgDirection)
    ensures
        dirs == SpriteDirections::Nothing ==> dirs.spec_nearest_to(sticky, dir) == sticky,
        dirs == SpriteDirections::All ==> dirs.spec_nearest_to(sticky, dir) == dir,
        dirs == SpriteDirections::Cardinals ==> ({
            let a = dir.ord();
            let b = sticky.ord();
            let diff = if a >= b { a - b } else { b - a };
            let r = dirs.spec_nearest_to(sticky, dir).ord();
            &&& r == if a % 2 == 0 {
                a
            } else if b % 2 == 0 && (diff <= 1 || diff == 7) {
                b
            } else {
                (a + 7) % 8
            }
            &&& r % 2 == 0
            &&& positions_adjacent(a, r)
        }),
{
    crate::cardinal::lemma_nearest_cardinal_positions(dir, sticky);
}

/// The classification of a sprite from its walk animations, flag by flag (even positions are
/// the cardinals, odd ones the diagonals): all eight give every direction, the four
/// cardinals without every diagonal give the cardinals, and a missing cardinal gives none.
pub proof fn lemma_check_flags(available: Seq<bool>)
    requires
        available.len() == 8,
    ensures
        ({
            let cardinals = available[0] && available[2] && available[4] && available[6];
            let diagonals = available[1] && available[3] && available[5] && available[7];
            SpriteDirections::spec_check(available) == if cardinals && diagonals {
                SpriteDirections::All
            } else if cardinals {
                SpriteDirections::Cardinals
            } else {
                SpriteDirections::Nothing
            }
        }),
{
}

/// How many directions a classification lets a sprite show, in order: none, the cardinals,
/// all.
pub open spec fn class_rank(dirs: SpriteDirections) -> int {
    match dirs {
        SpriteDirections::Nothing => 0,
        SpriteDirections::Cardinals => 1,
        SpriteDirections::All => 2,
    }
}

/// Classification is monotone: a sprite with more walk animations never supports fewer
/// directions; in particular, one with all four cardinal animations supports every cardinal.
pub proof fn lemma_check_monotone(fewer: Seq<bool>, more: Seq<bool>, dir: RpgDirection)
    requires
        fewer.len() == 8,
        more.len() == 8,
        forall|i: int| 0 <= i < 8 && #[trigger] fewer[i] ==> more[i],
    ensures
        class_rank(SpriteDirections::spec_check(fewer)) <= class_rank(SpriteDirections::spec_check(more)),
        more[0] && more[2] && more[4] && more[6] && dir.spec_is_cardinal() ==> SpriteDirections::spec_check(
            more,
        ).supports(dir),
{
    lemma_check_flags(fewer);
    lemma_check_flags(more);
    assert(fewer[0] ==> more[0]);
    assert(fewer[1] ==> more[1]);
    assert(fewer[2] ==> more[2]);
    assert(fewer[3] ==> more[3]);
    assert(fewer[4] ==> more[4]);
    assert(fewer[5] ==> more[5]);
    assert(fewer[6] ==> more[6]);
    assert(fewer[7] ==> more[7]);
}

} // verus!
