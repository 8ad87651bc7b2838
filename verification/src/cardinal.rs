//! The eight facing directions of a character.
use vstd::prelude::*;

verus! {

/// A facing direction, one of the eight compass points, listed clockwise from east
/// in screen coordinates (south points down the screen).
#[derive(Debug, Clone, Copy, PartialEq, Eq, Structural, PartialOrd, Ord, Hash, Default)]
pub enum RpgDirection {
    East,
    SouthEast,
    #[default]
    South,
    SouthWest,
    West,
    NorthWest,
    North,
    NorthEast,
}

/// The direction whose clockwise position from east is `i` modulo 8.
pub open spec fn direction_at(i: int) -> RpgDirection {
    let k = i % 8;
    if k == 0 {
        RpgDirection::East
    } else if k == 1 {
        RpgDirection::SouthEast
    } else if k == 2 {
        RpgDirection::South
    } else if k == 3 {
        RpgDirection::SouthWest
    } else if k == 4 {
        RpgDirection::West
    } else if k == 5 {
        RpgDirection::NorthWest
    } else if k == 6 {
        RpgDirection::North
    } else {
        RpgDirection::NorthEast
    }
}

/// Whether two positions on the eight-point compass are equal or next to each other,
/// going round the circle.
pub open spec fn positions_adjacent(a: int, b: int) -> bool {
    let d = if a >= b { a - b } else { b - a };
    d <= 1 || d == 7
}

impl RpgDirection {
    /// Clockwise position from east: east is 0, south is 2, west is 4, north is 6.
    pub open spec fn ord(self) -> int {
        match self {
            RpgDirection::East => 0,
            RpgDirection::SouthEast => 1,
            RpgDirection::South => 2,
            RpgDirection::SouthWest => 3,
            RpgDirection::West => 4,
            RpgDirection::NorthWest => 5,
            RpgDirection::North => 6,
            RpgDirection::NorthEast => 7,
        }
    }

    /// North, south, east or west.
    pub open spec fn spec_is_cardinal(self) -> bool {
        self is East || self is South || self is West || self is North
    }

    pub open spec fn spec_name(self) -> Seq<char> {
        match self {
            RpgDirection::East => "east"@,
            RpgDirection::SouthEast => "southeast"@,
            RpgDirection::South => "south"@,
            RpgDirection::SouthWest => "southwest"@,
            RpgDirection::West => "west"@,
            RpgDirection::NorthWest => "northwest"@,
            RpgDirection::North => "north"@,
            RpgDirection::NorthEast => "northeast"@,
        }
    }

    /// The cardinal direction used in place of `self` when only cardinals are available:
    /// `self` itself if it is cardinal; otherwise `sticky` when that is a cardinal next to
    /// `self`; otherwise the cardinal just counter-clockwise of `self`.
    pub open spec fn spec_nearest_cardinal(self, sticky: RpgDirection) -> RpgDirection {
        if self.spec_is_cardinal() {
            self
        } else if sticky.spec_is_cardinal() && positions_adjacent(self.ord(), sticky.ord()) {
            sticky
        } else {
            direction_at(self.ord() - 1)
        }
    }

    /// The position of this direction, clockwise from east (east is 0, north is 6).
    pub fn index(self) -> (r: u8)
        ensures
            r == self.ord(),
    {
        match self {
            RpgDirection::East => 0,
            RpgDirection::SouthEast => 1,
            RpgDirection::South => 2,
            RpgDirection::SouthWest => 3,
            RpgDirection::West => 4,
            RpgDirection::NorthWest => 5,
            RpgDirection::North => 6,
            RpgDirection::NorthEast => 7,
        }
    }

    /// The direction at clockwise position `index` from east, if `index` is below 8.
    pub fn from_index(index: u8) -> (r: Option<RpgDirection>)
        ensures
            index < 8 ==> r == Some(direction_at(index as int)),
            index >= 8 ==> r is None,
    {
        match index {
            0 => Some(RpgDirection::East),
            1 => Some(RpgDirection::SouthEast),
            2 => Some(RpgDirection::South),
            3 => Some(RpgDirection::SouthWest),
            4 => Some(RpgDirection::West),
            5 => Some(RpgDirection::NorthWest),
            6 => Some(RpgDirection::North),
            7 => Some(RpgDirection::NorthEast),
            _ => None,
        }
    }

    /// The lower-case name of this direction, such as `"southwest"`.
    pub fn name(self) -> (r: &'static str)
        ensures
            r@ == self.spec_name(),
    {
        match self {
            RpgDirection::East => "east",
            RpgDirection::SouthEast => "southeast",
            RpgDirection::South => "south",
            RpgDirection::SouthWest => "southwest",
            RpgDirection::West => "west",
            RpgDirection::NorthWest => "northwest",
            RpgDirection::North => "north",
            RpgDirection::NorthEast => "northeast",
        }
    }

    /// Whether this is north, south, east or west.
    pub fn is_cardinal(self) -> (r: bool)
        ensures
            r == self.spec_is_cardinal(),
    {
        match self {
            RpgDirection::East | RpgDirection::South | RpgDirection::West | RpgDirection::North => true,
            _ => false,
        }
    }

    /// The cardinal direction to show for `self` when only cardinals are available,
    /// keeping `sticky` when it is a cardinal next to `self`.
    pub fn nearest_cardinal(self, sticky: RpgDirection) -> (r: RpgDirection)
        ensures
            r == self.spec_nearest_cardinal(sticky),
    {
        if self.is_cardinal() {
            self
        } else {
            let a = self.index();
            let b = sticky.index();
            let diff: u8 = if a >= b { a - b } else { b - a };
            if sticky.is_cardinal() && (diff <= 1 || diff == 7) {
                sticky
            } else {
                match self {
                    RpgDirection::SouthEast => RpgDirection::East,
                    RpgDirection::SouthWest => RpgDirection::South,
                    RpgDirection::NorthWest => RpgDirection::West,
                    _ => RpgDirection::North,
                }
            }
        }
    }
}

impl RpgDirection {
    /// The direction for a rounded angle step on a sixteen-step circle starting at west:
    /// the step is taken modulo 16 and halved, so steps 0 and 1 give west, 2 and 3
    /// north-west, and so on clockwise.
    pub fn from_sector(step: u32) -> (r: RpgDirection)
        ensures
            r == direction_at((step % 16) / 2 + 4),
    {
        match (step % 16) / 2 {
            0 => RpgDirection::West,
            1 => RpgDirection::NorthWest,
            2 => RpgDirection::North,
            3 => RpgDirection::NorthEast,
            4 => RpgDirection::East,
            5 => RpgDirection::SouthEast,
            6 => RpgDirection::South,
            _ => RpgDirection::SouthWest,
        }
    }

    /// The cardinal direction for a rounded angle step on an eight-step circle starting at
    /// west: the step is taken modulo 8 and halved, so steps 0 and 1 give west, 2 and 3 north,
    /// 4 and 5 east, 6 and 7 south.
    pub fn from_sector_cardinal(step: u32) -> (r: RpgDirection)
        ensures
            r == direction_at(2 * ((step % 8) / 2) + 4),
    {
        match (step % 8) / 2 {
            0 => RpgDirection::West,
            1 => RpgDirection::North,
            2 => RpgDirection::East,
            _ => RpgDirection::South,
        }
    }
}

/// The cardinals are exactly the directions at even clockwise positions.
pub proof fn lemma_cardinal_iff_even(d: RpgDirection)
    ensures
        d.spec_is_cardinal() <==> d.ord() % 2 == 0,
        direction_at(d.ord()) == d,
{
}

/// Snapping to a cardinal always yields a cardinal next to the original direction, leaves
/// cardinals unchanged, and prefers the sticky direction when it is a neighbouring cardinal.
pub proof fn lemma_nearest_cardinal(d: RpgDirection, sticky: RpgDirection)
    ensures
        d.spec_nearest_cardinal(sticky).spec_is_cardinal(),
        positions_adjacent(d.ord(), d.spec_nearest_cardinal(sticky).ord()),
        d.spec_is_cardinal() ==> d.spec_nearest_cardinal(sticky) == d,
        !d.spec_is_cardinal() && sticky.spec_is_cardinal() && positions_adjacent(d.ord(), sticky.ord())
            ==> d.spec_nearest_cardinal(sticky) == sticky,
{
}

/// Snapping is idempotent: a snapped direction snaps to itself, whatever the sticky direction.
pub proof fn lemma_nearest_cardinal_idempotent(d: RpgDirection, s1: RpgDirection, s2: RpgDirection)
    ensures
        d.spec_nearest_cardinal(s1).spec_nearest_cardinal(s2) == d.spec_nearest_cardinal(s1),
{
    lemma_nearest_cardinal(d, s1);
}

/// The cardinal angle mapping only ever yields cardinals, and both angle mappings repeat
/// with the period of their circle.
pub proof fn lemma_sector_mappings(step: int)
    requires
        0 <= step,
    ensures
        direction_at(2 * ((step % 8) / 2) + 4).spec_is_cardinal(),
        direction_at(((step + 16) % 16) / 2 + 4) == direction_at((step % 16) / 2 + 4),
        direction_at(2 * (((step + 8) % 8) / 2) + 4) == direction_at(2 * ((step % 8) / 2) + 4),
{
    vstd::arithmetic::div_mod::lemma_mod_pos_bound(step, 8);
    vstd::arithmetic::div_mod::lemma_mod_add_multiples_vanish(step, 8);
    vstd::arithmetic::div_mod::lemma_mod_add_multiples_vanish(step, 16);
    let k = step % 8;
    assert(direction_at(2 * (k / 2) + 4).spec_is_cardinal()) by {
        assert(k == 0 || k == 1 || k == 2 || k == 3 || k == 4 || k == 5 || k == 6 || k == 7);
    }
}

/// Snapping to a cardinal, by clockwise positions: a direction at an even position (a
/// cardinal) stays; otherwise the sticky direction is kept when it is at an even position
/// next to it round the circle; otherwise the result is the position just counter-clockwise
/// of it.
pub proof fn lemma_nearest_cardinal_positions(d: RpgDirection, sticky: RpgDirection)
    ensures
        ({
            let a = d.ord();
            let b = sticky.ord();
            let diff = if a >= b { a - b } else { b - a };
            d.spec_nearest_cardinal(sticky).ord() == if a % 2 == 0 {
                a
            } else if b % 2 == 0 && (diff <= 1 || diff == 7) {
                b
            } else {
                (a + 7) % 8
            }
        }),
        !d.spec_is_cardinal() && !(sticky.spec_is_cardinal() && positions_adjacent(d.ord(), sticky.ord()))
            ==> d.spec_nearest_cardinal(sticky).ord() == (d.ord() + 7) % 8,
{
}

/// The angle mappings go round clockwise: step 0 is west, and every two steps further give
/// the next direction clockwise on the sixteen-step circle, or the next cardinal clockwise on
/// the eight-step one.
pub proof fn lemma_sectors_clockwise(step: int)
    requires
        0 <= step,
    ensures
        direction_at((0int % 16) / 2 + 4) == RpgDirection::West,
        direction_at(2 * ((0int % 8) / 2) + 4) == RpgDirection::West,
        direction_at(((step + 2) % 16) / 2 + 4).ord() == (direction_at((step % 16) / 2 + 4).ord() + 1) % 8,
        direction_at(2 * (((step + 2) % 8) / 2) + 4).ord() == (direction_at(2 * ((step % 8) / 2) + 4).ord() + 2)
            % 8,
{
    vstd::arithmetic::div_mod::lemma_mod_pos_bound(step, 16);
    vstd::arithmetic::div_mod::lemma_mod_pos_bound(step, 8);
    let k = step % 16;
    let j = step % 8;
    assert((step + 2) % 16 == (k + 2) % 16) by {
        vstd::arithmetic::div_mod::lemma_add_mod_noop(step, 2, 16);
    }
    assert((step + 2) % 8 == (j + 2) % 8) by {
        vstd::arithmetic::div_mod::lemma_add_mod_noop(step, 2, 8);
    }
    assert(0 <= k < 16);
    assert(0 <= j < 8);
}

} // verus!
