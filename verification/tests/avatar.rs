use rpg_character::{InteractionRound, Playback, RpgCharacter2d, RpgDirection, SpriteStep, SpriteWatch};

type Avatar = RpgCharacter2d<(i32, u8), u32>;

#[test]
fn new_character_defaults() {
    let av = Avatar::new();
    assert_eq!(av.facing_dir(), RpgDirection::South);
    assert!(!av.acceleration_enabled());
    assert_eq!(av.acceleration_delay(), 180);
    assert_eq!(av.follower_delay(), 12);
    assert_eq!(av.follower_delay_frames(), 12);
    assert!(!av.interact_queued());
    assert_eq!(av.acceleration_accumulator(), 0);
    assert_eq!(av.follower_count(), 0);
    assert!(!av.has_sprite());
    assert_eq!(av.current_move_speed(128, 192), 128);
}

#[test]
fn acceleration_after_delay() {
    let mut av = Avatar::new();
    av.set_acceleration_enabled(true);
    av.set_acceleration_delay(2);
    // the speed is chosen before each frame is counted
    assert_eq!(av.walk(RpgDirection::East, 128, 192), 128);
    assert_eq!(av.walk(RpgDirection::East, 128, 192), 128);
    assert_eq!(av.acceleration_accumulator(), 2);
    assert_eq!(av.walk(RpgDirection::North, 128, 192), 192);
    assert_eq!(av.facing_dir(), RpgDirection::North);
    assert_eq!(av.current_move_speed(128, 192), 192);
    // stopping starts over
    av.halt();
    assert_eq!(av.acceleration_accumulator(), 0);
    assert_eq!(av.current_move_speed(128, 192), 128);
}

#[test]
fn acceleration_disabled_never_accelerates() {
    let mut av = Avatar::new();
    av.set_acceleration_delay(0);
    for _ in 0..5 {
        assert_eq!(av.walk(RpgDirection::West, 1, 2), 1);
    }
    av.set_acceleration_enabled(true);
    assert_eq!(av.walk(RpgDirection::West, 1, 2), 2);
    // with a delay of zero even a stopped character is accelerated
    av.halt();
    assert_eq!(av.current_move_speed(1, 2), 2);
}

#[test]
fn interaction_requests_are_taken_once() {
    let mut av = Avatar::new();
    assert!(!av.take_interact_request());
    av.queue_interact();
    av.queue_interact();
    assert!(av.interact_queued());
    assert!(av.take_interact_request());
    assert!(!av.take_interact_request());
}

#[test]
fn sprite_resumes_where_it_stopped() {
    let mut av = Avatar::new();
    assert!(av.pause_sprite(true, (2, 7)));
    assert_eq!(av.resume_sprite(false), Playback::Resume((2, 7)));
    assert_eq!(av.resume_sprite(false), Playback::Play);
    assert!(!av.pause_sprite(false, (5, 5)));
    assert_eq!(av.resume_sprite(true), Playback::AlreadyPlaying);
}

#[test]
fn avatar_followers() {
    let mut av = Avatar::new();
    av.set_follower_delay(1);
    av.set_facing_dir(RpgDirection::West);
    assert_eq!(av.facing_dir(), RpgDirection::West);
    let anchor = av.follower_anchor(10);
    assert_eq!(anchor, 10);
    assert_eq!(av.push_follower(9, anchor), None);
    assert_eq!(av.follower_count(), 1);
    assert_eq!(av.follower_anchor(11), 9);
    assert_eq!(av.push_frame(11), vec![10]);
    assert_eq!(av.push_frame(12), vec![11]);
    assert_eq!(av.follower_anchor(13), 11);
    // a follower added after the delay changes gets the new delay
    av.set_follower_delay(0);
    assert_eq!(av.push_follower(10, 11), Some(11));
}

#[test]
fn interaction_reported_iff_accepted() {
    let mut round = InteractionRound::new();
    assert!(!round.interacted());
    assert!(!round.offer(false));
    assert!(!round.interacted());
    assert!(round.offer(true));
    assert!(!round.offer(false));
    assert!(round.interacted());
}

#[test]
fn follower_delay_change_spares_existing_followers() {
    let mut av = Avatar::new();
    av.set_follower_delay(3);
    let anchor = av.follower_anchor(0);
    assert_eq!(av.push_follower(0, anchor), None);
    av.set_follower_delay(1);
    // the existing follower keeps its delay of 3: it waits for three frames in all
    assert_eq!(av.push_frame(1), Vec::<u32>::new());
    assert_eq!(av.push_frame(2), Vec::<u32>::new());
    assert_eq!(av.push_frame(3), vec![0]);
    assert_eq!(av.push_frame(4), vec![1]);
}

#[test]
fn sprite_adoption_switches_the_watched_signal() {
    let mut av = Avatar::new();
    assert_eq!(av.sprite_watch(), SpriteWatch::ChildEntered);
    assert_eq!(av.adopt_sprite(), SpriteWatch::SpriteExiting);
    assert!(av.has_sprite());
    assert_eq!(av.sprite_watch(), SpriteWatch::SpriteExiting);
    // a second sprite replaces the first
    assert_eq!(av.adopt_sprite(), SpriteWatch::SpriteExiting);
    av.forget_sprite();
    assert!(!av.has_sprite());
    assert_eq!(av.sprite_watch(), SpriteWatch::ChildEntered);
    // the rest of the state is untouched
    assert_eq!(av.facing_dir(), RpgDirection::South);
    assert_eq!(av.follower_count(), 0);
}

#[test]
fn steer_without_input_stops_character_and_sprite() {
    let mut av = Avatar::new();
    av.set_acceleration_enabled(true);
    av.set_acceleration_delay(1);
    av.walk(RpgDirection::East, 1, 2);
    // no input, playing sprite: stand still, stop the sprite and remember where
    assert_eq!(av.steer(None, Some((true, (3, 4))), 1, 2), (None, SpriteStep::Stop));
    assert_eq!(av.acceleration_accumulator(), 0);
    assert_eq!(av.facing_dir(), RpgDirection::East);
    // no input, stopped sprite: leave it alone, keep the place
    assert_eq!(av.steer(None, Some((false, (9, 9))), 1, 2), (None, SpriteStep::Untouched));
    // no sprite at all
    assert_eq!(av.steer(None, None, 1, 2), (None, SpriteStep::Untouched));
    // input again: walk, turn the sprite and resume at the remembered place
    assert_eq!(
        av.steer(Some(RpgDirection::North), Some((false, (0, 0))), 1, 2),
        (Some(1), SpriteStep::Turn(Playback::Resume((3, 4))))
    );
    assert_eq!(av.facing_dir(), RpgDirection::North);
    assert_eq!(av.acceleration_accumulator(), 1);
    // accelerated now, sprite still playing
    assert_eq!(
        av.steer(Some(RpgDirection::North), Some((true, (0, 0))), 1, 2),
        (Some(2), SpriteStep::Turn(Playback::AlreadyPlaying))
    );
    assert_eq!(av.steer(Some(RpgDirection::West), None, 1, 2), (Some(2), SpriteStep::Untouched));
    assert_eq!(av.facing_dir(), RpgDirection::West);
}

#[test]
fn follow_only_when_moved() {
    let mut av = Avatar::new();
    av.set_follower_delay(0);
    av.push_follower(0, 0);
    assert_eq!(av.follow(false, 5), None);
    assert_eq!(av.follower_anchor(9), 0);
    assert_eq!(av.follow(true, 5), Some(vec![5]));
    assert_eq!(av.follower_anchor(9), 5);
}
