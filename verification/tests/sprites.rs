use rpg_character::RpgDirection::{East, North, NorthEast, NorthWest, South, SouthEast, SouthWest, West};
use rpg_character::character_sprite::sprite_directions::{
    EAST_ANIM_NAME, NORTHEAST_ANIM_NAME, NORTH_ANIM_NAME, SOUTH_ANIM_NAME, WEST_ANIM_NAME,
};
use rpg_character::{
    AnimationSwitch, CharacterSprite2d, DirectionalSprite2D, Playback, PlaybackMemory, RollingValue,
    RpgDirection, SpriteDirections,
};

#[test]
fn rolling_value_push() {
    let mut v = RollingValue::new(1, 2);
    assert_eq!(v.prev, 1);
    assert_eq!(v.current, 2);
    assert_eq!(v.push(3), 1);
    assert_eq!(v, RollingValue { current: 3, prev: 2 });
    let w = RollingValue::new_with(7);
    assert_eq!(w, RollingValue { current: 7, prev: 7 });
}

#[test]
fn rolling_value_two_pushes_fix_the_pair() {
    let mut v = RollingValue::new(10, 20);
    v.push(1);
    assert_eq!(v.push(2), 20);
    assert_eq!(v, RollingValue { current: 2, prev: 1 });
    let d: RollingValue<RpgDirection> = RollingValue::default();
    assert_eq!(d, RollingValue::new_with(RpgDirection::South));
}

#[test]
fn animation_names() {
    assert_eq!(SpriteDirections::get_anim_name_for(RpgDirection::North), "walk_north");
    assert_eq!(SpriteDirections::get_anim_name_for(RpgDirection::SouthWest), "walk_southwest");
    let all = [
        RpgDirection::East, RpgDirection::SouthEast, RpgDirection::South, RpgDirection::SouthWest,
        RpgDirection::West, RpgDirection::NorthWest, RpgDirection::North, RpgDirection::NorthEast,
    ];
    for d in all {
        let name = SpriteDirections::get_anim_name_for(d);
        assert_eq!(name, format!("walk_{}", d.name()));
    }
    assert_eq!(NORTH_ANIM_NAME, "walk_north");
    assert_eq!(NORTHEAST_ANIM_NAME, "walk_northeast");
}

#[test]
fn check_sprite_frames_classifies() {
    assert_eq!(SpriteDirections::check_sprite_frames(&[true; 8]), SpriteDirections::All);
    // cardinals only: east, south, west, north are at even positions
    let cardinals = [true, false, true, false, true, false, true, false];
    assert_eq!(SpriteDirections::check_sprite_frames(&cardinals), SpriteDirections::Cardinals);
    // one diagonal missing
    let mut almost = [true; 8];
    almost[7] = false;
    assert_eq!(SpriteDirections::check_sprite_frames(&almost), SpriteDirections::Cardinals);
    // a cardinal missing: nothing, even with every diagonal
    let mut no_north = [true; 8];
    no_north[6] = false;
    assert_eq!(SpriteDirections::check_sprite_frames(&no_north), SpriteDirections::Nothing);
    assert_eq!(SpriteDirections::check_sprite_frames(&[false; 8]), SpriteDirections::Nothing);
    assert_eq!(SpriteDirections::default(), SpriteDirections::Nothing);
}

#[test]
fn nearest_to_by_class() {
    assert_eq!(SpriteDirections::Nothing.nearest_to(West, NorthEast), West);
    assert_eq!(SpriteDirections::All.nearest_to(West, NorthEast), NorthEast);
    assert_eq!(SpriteDirections::Cardinals.nearest_to(East, NorthEast), East);
    assert_eq!(SpriteDirections::Cardinals.nearest_to(West, NorthEast), North);
    assert_eq!(SpriteDirections::Cardinals.nearest_anim_to(West, NorthEast), NORTH_ANIM_NAME);
}

#[test]
fn apply_direction_switches() {
    let s = SpriteDirections::Cardinals.apply_direction(true, South, SouthWest);
    assert_eq!(s, AnimationSwitch { name: SOUTH_ANIM_NAME, keep_progress: true });
    let s = SpriteDirections::Cardinals.apply_direction(false, North, SouthWest);
    assert_eq!(s, AnimationSwitch { name: SOUTH_ANIM_NAME, keep_progress: false });
    let s = SpriteDirections::All.apply_rolling_direction(false, RollingValue::new(North, West));
    assert_eq!(s, AnimationSwitch { name: WEST_ANIM_NAME, keep_progress: false });
}

#[test]
fn playback_memory_resumes_once() {
    let mut m: PlaybackMemory<(i32, u8)> = PlaybackMemory::new();
    // stopped sprite: nothing to do, nothing remembered
    assert!(!m.pause(false, (9, 9)));
    assert_eq!(m.saved, None);
    assert_eq!(m.unpause(false), Playback::Play);
    assert_eq!(m.unpause(true), Playback::AlreadyPlaying);
    // playing sprite: stop it and remember where
    assert!(m.pause(true, (3, 50)));
    assert_eq!(m.saved, Some((3, 50)));
    assert_eq!(m.unpause(true), Playback::AlreadyPlaying);
    assert_eq!(m.saved, Some((3, 50)));
    assert_eq!(m.unpause(false), Playback::Resume((3, 50)));
    assert_eq!(m.unpause(false), Playback::Play);
}

#[test]
fn character_sprite_faces_nearest_supported() {
    let (mut s, switch) = CharacterSprite2d::<u8>::new(SpriteDirections::Cardinals, SouthEast, false);
    assert_eq!(s.anim_dir(), East);
    assert_eq!(s.directions(), SpriteDirections::Cardinals);
    assert_eq!(switch, AnimationSwitch { name: EAST_ANIM_NAME, keep_progress: false });
    // south-west from east: east is not adjacent, so south
    let switch = s.set_dir(SouthWest, true);
    assert_eq!(s.anim_dir(), South);
    assert_eq!(switch, AnimationSwitch { name: SOUTH_ANIM_NAME, keep_progress: true });
    // south-east from south: stays south
    s.set_dir(SouthEast, true);
    assert_eq!(s.anim_dir(), South);
    // without animations the direction never changes
    let (mut n, _) = CharacterSprite2d::<u8>::new(SpriteDirections::Nothing, North, false);
    assert_eq!(n.anim_dir(), East);
    n.set_dir(West, false);
    assert_eq!(n.anim_dir(), East);
}

#[test]
fn character_sprite_stop_and_play() {
    let (mut s, _) = CharacterSprite2d::<(i32, u8)>::new(SpriteDirections::All, RpgDirection::North, true);
    assert!(!s.ensure_stopped(false, (1, 1)));
    assert!(s.ensure_stopped(true, (4, 20)));
    assert_eq!(s.ensure_playing(false), Playback::Resume((4, 20)));
    assert_eq!(s.ensure_playing(true), Playback::AlreadyPlaying);
    assert_eq!(s.ensure_playing(false), Playback::Play);
}

#[test]
fn directional_sprite_follows_requests() {
    let mut d = DirectionalSprite2D::new();
    assert_eq!(d.direction(), RollingValue::new_with(South));
    assert_eq!(d.supported_dirs(), SpriteDirections::Nothing);
    // nothing supported: keeps showing the previous request
    let s = d.set_direction(West, false);
    assert_eq!(d.direction(), RollingValue::new(South, West));
    assert_eq!(s.name, SOUTH_ANIM_NAME);
    // same classification: nothing to do
    assert_eq!(d.update_frames(SpriteDirections::Nothing, false), None);
    // now all directions: show the current request
    let s = d.update_frames(SpriteDirections::All, true);
    assert_eq!(s, Some(AnimationSwitch { name: WEST_ANIM_NAME, keep_progress: true }));
    assert_eq!(d.supported_dirs(), SpriteDirections::All);
    let s = d.set_direction(NorthEast, false);
    assert_eq!(s.name, NORTHEAST_ANIM_NAME);
    assert_eq!(d.direction(), RollingValue::new(West, NorthEast));
}

#[test]
fn repeated_stops_keep_the_first_place() {
    let mut m: PlaybackMemory<(i32, u8)> = PlaybackMemory::new();
    assert!(m.pause(true, (6, 1)));
    for k in 0..5 {
        assert!(!m.pause(false, (k, k as u8)));
    }
    assert_eq!(m.unpause(false), Playback::Resume((6, 1)));
    assert_eq!(m.saved, None);
    let (mut s, _) = CharacterSprite2d::<(i32, u8)>::new(SpriteDirections::All, North, true);
    assert!(s.ensure_stopped(true, (2, 2)));
    assert!(!s.ensure_stopped(false, (7, 7)));
    assert!(!s.ensure_stopped(false, (8, 8)));
    assert_eq!(s.ensure_playing(false), Playback::Resume((2, 2)));
}
