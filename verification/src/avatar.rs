//! The player character: facing, acceleration, interaction requests and the followers
//! that trail it.
use vstd::prelude::*;

pub mod follower;
pub mod interact;

use crate::cardinal::RpgDirection;
use crate::character_sprite::animation_resume::{Playback, PlaybackMemory};
use crate::character_sprite::SpriteWatch;
use follower::{cascade, FollowerSet, FollowerView};

verus! {

/// The count of consecutive moving frames after one more moving frame (it stops growing at
/// the largest `u32`).
pub open spec fn count_up(n: u32) -> u32 {
    if n == u32::MAX {
        n
    } else {
        (n + 1) as u32
    }
}

/// The count of consecutive moving frames after `k` more moving frames.
pub open spec fn count_up_by(n: u32, k: nat) -> u32
    decreases k,
{
    if k == 0 {
        n
    } else {
        count_up(count_up_by(n, (k - 1) as nat))
    }
}

/// The abstract state of a player character.
pub struct RpgCharacterView<R, F> {
    pub facing_dir: RpgDirection,
    pub acceleration_enabled: bool,
    pub acceleration_delay: u32,
    pub follower_delay: u32,
    pub sprite_resume_data: PlaybackMemory<R>,
    pub interact_queued: bool,
    pub accumulator: u32,
    pub has_sprite: bool,
    pub followers: Seq<FollowerView<F>>,
}

/// What to do to the character's sprite in a physics frame.
#[derive(Debug, Clone, Copy, PartialEq, Eq)]
pub enum SpriteStep<R> {
    /// Leave the sprite alone.
    Untouched,
    /// Stop the sprite and show its frame 1.
    Stop,
    /// Turn the sprite to the new facing direction, then get it running as directed.
    Turn(Playback<R>),
}

impl<R, F> RpgCharacterView<R, F> {
    /// Whether the character moves at its accelerated speed.
    pub open spec fn accelerated(self) -> bool {
        self.acceleration_enabled && self.accumulator >= self.acceleration_delay
    }

    /// A physics frame's steering: with no input (`dir` is `None`) the character stops, and
    /// its sprite, if it has one (`sprite` gives whether it plays and where its animation is),
    /// is stopped where it is; with input towards `dir` the character faces and walks that
    /// way, and its sprite turns and runs again. Gives the new state, the speed to move at
    /// (`None`: stand still) and what to do to the sprite.
    pub open spec fn steer<T>(
        self,
        dir: Option<RpgDirection>,
        sprite: Option<(bool, R)>,
        move_speed: T,
        acceleration_speed: T,
    ) -> (Self, Option<T>, SpriteStep<R>) {
        match dir {
            None => {
                let halted = RpgCharacterView { accumulator: 0, ..self };
                match sprite {
                    None => (halted, None, SpriteStep::Untouched),
                    Some((playing, at)) => {
                        let (m, stop) = self.sprite_resume_data.spec_pause(playing, at);
                        (
                            RpgCharacterView { sprite_resume_data: m, ..halted },
                            None,
                            if stop { SpriteStep::Stop } else { SpriteStep::Untouched },
                        )
                    },
                }
            },
            Some(d) => {
                let speed = if self.accelerated() { acceleration_speed } else { move_speed };
                let walked = RpgCharacterView { facing_dir: d, accumulator: count_up(self.accumulator), ..self };
                match sprite {
                    None => (walked, Some(speed), SpriteStep::Untouched),
                    Some((playing, _)) => {
                        let (m, p) = self.sprite_resume_data.spec_unpause(playing);
                        (RpgCharacterView { sprite_resume_data: m, ..walked }, Some(speed), SpriteStep::Turn(p))
                    },
                }
            },
        }
    }
}

/// The state behind a player character, apart from its node, its sprite node, the nodes of
/// its followers and its speeds and distances; `R` is the place (frame and progress) where its
/// sprite's animation stopped, `F` a follower frame.
pub struct RpgCharacter2d<R, F> {
    /// The direction in which this character is facing.
    facing_dir: RpgDirection,
    /// Whether movement acceleration is enabled.
    acceleration_enabled: bool,
    /// The number of physics frames before movement accelerates.
    acceleration_delay: u32,
    /// The number of frames of delay between this character and each of its followers
    /// (changes only apply to followers added after the change).
    follower_delay: u32,
    /// Where the sprite's walk animation stopped, while the character stands still.
    sprite_resume_data: PlaybackMemory<R>,
    /// whether an interact raycast is queued for the next physics process
    interact_queued: bool,
    /// The number of frames for which we've been moving without stopping
    acceleration_accumulator: u32,
    /// Whether the character has a directional sprite
    has_sprite: bool,
    followers: FollowerSet<F>,
}

impl<R, F> View for RpgCharacter2d<R, F> {
    type V = RpgCharacterView<R, F>;

    closed spec fn view(&self) -> RpgCharacterView<R, F> {
        RpgCharacterView {
            facing_dir: self.facing_dir,
            acceleration_enabled: self.acceleration_enabled,
            acceleration_delay: self.acceleration_delay,
            follower_delay: self.follower_delay,
            sprite_resume_data: self.sprite_resume_data,
            interact_queued: self.interact_queued,
            accumulator: self.acceleration_accumulator,
            has_sprite: self.has_sprite,
            followers: self.followers@,
        }
    }
}

impl<R, F: Copy> RpgCharacter2d<R, F> {
    /// A character facing south, with acceleration off (after 180 frames once turned on),
    /// followers 12 frames apart, no interaction queued, no movement yet, no sprite and no
    /// followers.
    pub fn new() -> (r: Self)
        ensures
            r@ == (RpgCharacterView::<R, F> {
                facing_dir: RpgDirection::South,
                acceleration_enabled: false,
                acceleration_delay: 180,
                follower_delay: 12,
                sprite_resume_data: PlaybackMemory { saved: None },
                interact_queued: false,
                accumulator: 0,
                has_sprite: false,
                followers: Seq::empty(),
            }),
    {
        RpgCharacter2d {
            facing_dir: RpgDirection::South,
            acceleration_enabled: false,
            acceleration_delay: 180,
            follower_delay: 12,
            sprite_resume_data: PlaybackMemory::new(),
            interact_queued: false,
            acceleration_accumulator: 0,
            has_sprite: false,
            followers: FollowerSet::new(),
        }
    }

    /// The direction in which this character is facing.
    pub fn facing_dir(&self) -> (r: RpgDirection)
        ensures
            r == self@.facing_dir,
    {
        self.facing_dir
    }

    /// Whether movement acceleration is enabled.
    pub fn acceleration_enabled(&self) -> (r: bool)
        ensures
            r == self@.acceleration_enabled,
    {
        self.acceleration_enabled
    }

    pub fn set_acceleration_enabled(&mut self, enabled: bool)
        ensures
            final(self)@ == (RpgCharacterView { acceleration_enabled: enabled, ..old(self)@ }),
    {
        self.acceleration_enabled = enabled;
    }

    /// The number of physics frames before movement accelerates.
    pub fn acceleration_delay(&self) -> (r: u32)
        ensures
            r == self@.acceleration_delay,
    {
        self.acceleration_delay
    }

    pub fn set_acceleration_delay(&mut self, delay: u32)
        ensures
            final(self)@ == (RpgCharacterView { acceleration_delay: delay, ..old(self)@ }),
    {
        self.acceleration_delay = delay;
    }

    /// The number of frames of delay between this character and each of its followers.
    pub fn follower_delay(&self) -> (r: u32)
        ensures
            r == self@.follower_delay,
    {
        self.follower_delay
    }

    /// Changes the follower delay; it applies to followers added afterwards.
    pub fn set_follower_delay(&mut self, delay: u32)
        ensures
            final(self)@ == (RpgCharacterView { follower_delay: delay, ..old(self)@ }),
    {
        self.follower_delay = delay;
    }

    /// The number of frames for which the character has been moving without stopping.
    pub fn acceleration_accumulator(&self) -> (r: u32)
        ensures
            r == self@.accumulator,
    {
        self.acceleration_accumulator
    }

    /// Whether an interaction is queued for the next physics frame.
    pub fn interact_queued(&self) -> (r: bool)
        ensures
            r == self@.interact_queued,
    {
        self.interact_queued
    }

    /// Whether the character has a directional sprite.
    pub fn has_sprite(&self) -> (r: bool)
        ensures
            r == self@.has_sprite,
    {
        self.has_sprite
    }

    /// The signal to listen to when the character enters the tree: the sprite leaving when it
    /// has one, a child entering (which may be a sprite to adopt) otherwise.
    pub fn sprite_watch(&self) -> (r: SpriteWatch)
        ensures
            r == (if self@.has_sprite { SpriteWatch::SpriteExiting } else { SpriteWatch::ChildEntered }),
    {
        if self.has_sprite {
            SpriteWatch::SpriteExiting
        } else {
            SpriteWatch::ChildEntered
        }
    }

    /// A directional sprite entered the tree as the character's child: it becomes the
    /// character's sprite (replacing any other); returns the signal to listen to from now on,
    /// the sprite leaving (instead of children entering).
    pub fn adopt_sprite(&mut self) -> (r: SpriteWatch)
        ensures
            final(self)@ == (RpgCharacterView { has_sprite: true, ..old(self)@ }),
            r == SpriteWatch::SpriteExiting,
    {
        self.has_sprite = true;
        SpriteWatch::SpriteExiting
    }

    /// The sprite left the tree: the character has no sprite any more (it listens for a new
    /// one the next time it enters the tree).
    pub fn forget_sprite(&mut self)
        ensures
            final(self)@ == (RpgCharacterView { has_sprite: false, ..old(self)@ }),
    {
        self.has_sprite = false;
    }

    /// The number of followers.
    pub fn follower_count(&self) -> (r: usize)
        ensures
            r == self@.followers.len(),
    {
        self.followers.len()
    }

    /// The character's current movement speed, taking into account acceleration: the
    /// accelerated speed when acceleration is on and the character has been moving for at
    /// least the acceleration delay, the normal speed otherwise.
    pub fn current_move_speed<T>(&self, move_speed: T, acceleration_speed: T) -> (r: T)
        ensures
            r == if self@.accelerated() { acceleration_speed } else { move_speed },
    {
        if self.acceleration_enabled && self.acceleration_accumulator >= self.acceleration_delay {
            acceleration_speed
        } else {
            move_speed
        }
    }

    /// Turns the character to face `dir` (the caller turns its sprite too).
    pub fn set_facing_dir(&mut self, dir: RpgDirection)
        ensures
            final(self)@ == (RpgCharacterView { facing_dir: dir, ..old(self)@ }),
    {
        self.facing_dir = dir;
    }

    /// Queues an interaction for the next physics frame (the interact action was pressed).
    pub fn queue_interact(&mut self)
        ensures
            final(self)@ == (RpgCharacterView { interact_queued: true, ..old(self)@ }),
    {
        self.interact_queued = true;
    }

    /// At the start of a physics frame: whether an interaction is queued, which it no longer
    /// is afterwards.
    pub fn take_interact_request(&mut self) -> (r: bool)
        ensures
            r == old(self)@.interact_queued,
            final(self)@ == (RpgCharacterView { interact_queued: false, ..old(self)@ }),
    {
        let r = self.interact_queued;
        self.interact_queued = false;
        r
    }

    /// A physics frame in which the character does not try to move: acceleration starts
    /// over.
    pub fn halt(&mut self)
        ensures
            final(self)@ == (RpgCharacterView { accumulator: 0, ..old(self)@ }),
    {
        self.acceleration_accumulator = 0;
    }

    /// A physics frame in which the character tries to move towards `dir`: it faces `dir`
    /// and one more moving frame is counted; returns the speed to move at, chosen before the
    /// count goes up.
    pub fn walk<T>(&mut self, dir: RpgDirection, move_speed: T, acceleration_speed: T) -> (r: T)
        ensures
            r == if old(self)@.accelerated() { acceleration_speed } else { move_speed },
            final(self)@ == (RpgCharacterView {
                facing_dir: dir,
                accumulator: count_up(old(self)@.accumulator),
                ..old(self)@
            }),
    {
        self.facing_dir = dir;
        let speed = self.current_move_speed(move_speed, acceleration_speed);
        self.acceleration_accumulator = self.acceleration_accumulator.saturating_add(1);
        speed
    }

    /// Stops the sprite, if it is `playing`, while the character stands still, remembering
    /// `at`, the place where its animation was; returns whether the sprite must be stopped and
    /// set to show frame 1.
    pub fn pause_sprite(&mut self, playing: bool, at: R) -> (stop: bool)
        ensures
            (final(self)@.sprite_resume_data, stop) == old(self)@.sprite_resume_data.spec_pause(playing, at),
            final(self)@ == (RpgCharacterView { sprite_resume_data: final(self)@.sprite_resume_data, ..old(self)@ }),
    {
        self.sprite_resume_data.pause(playing, at)
    }

    /// Gets the sprite running again while the character moves, where it stopped if that is
    /// remembered.
    pub fn resume_sprite(&mut self, playing: bool) -> (r: Playback<R>)
        ensures
            (final(self)@.sprite_resume_data, r) == old(self)@.sprite_resume_data.spec_unpause(playing),
            final(self)@ == (RpgCharacterView { sprite_resume_data: final(self)@.sprite_resume_data, ..old(self)@ }),
    {
        self.sprite_resume_data.unpause(playing)
    }

    /// The decisions of a physics frame's steering (see `RpgCharacterView::steer`): whether
    /// the character stands or walks, at which speed, and what happens to its sprite.
    pub fn steer<T>(
        &mut self,
        dir: Option<RpgDirection>,
        sprite: Option<(bool, R)>,
        move_speed: T,
        acceleration_speed: T,
    ) -> (r: (Option<T>, SpriteStep<R>))
        ensures
            (final(self)@, r.0, r.1) == old(self)@.steer(dir, sprite, move_speed, acceleration_speed),
    {
        match dir {
            None => {
                self.halt();
                match sprite {
                    None => (None, SpriteStep::Untouched),
                    Some((playing, at)) => {
                        if self.pause_sprite(playing, at) {
                            (None, SpriteStep::Stop)
                        } else {
                            (None, SpriteStep::Untouched)
                        }
                    },
                }
            },
            Some(d) => {
                let speed = self.walk(d, move_speed, acceleration_speed);
                match sprite {
                    None => (Some(speed), SpriteStep::Untouched),
                    Some((playing, _)) => {
                        let p = self.resume_sprite(playing);
                        (Some(speed), SpriteStep::Turn(p))
                    },
                }
            },
        }
    }

    /// The end of a physics frame: when the character did not really move, its followers
    /// take a break (`None`, the caller stops them) and nothing changes; when it `moved` to
    /// `frame`, the followers walk on and the frames they moved to are returned.
    pub fn follow(&mut self, moved: bool, frame: F) -> (r: Option<Vec<F>>)
        ensures
            !moved ==> r is None && final(self)@ == old(self)@,
            moved ==> (r matches Some(applied) && cascade(
                old(self)@.followers,
                final(self)@.followers,
                frame,
                applied@,
            )),
            moved ==> final(self)@ == (RpgCharacterView { followers: final(self)@.followers, ..old(self)@ }),
    {
        if moved {
            Some(self.push_frame(frame))
        } else {
            None
        }
    }

    /// The delay, in frames, of followers added now.
    pub fn follower_delay_frames(&self) -> (r: usize)
        ensures
            r == self@.follower_delay,
    {
        self.follower_delay as usize
    }

    /// The frame behind which a new follower is placed: that of the last follower, or
    /// `leader_frame` (the character's own) when there is none.
    pub fn follower_anchor(&self, leader_frame: F) -> (r: F)
        ensures
            r == if self@.followers.len() == 0 {
                leader_frame
            } else {
                self@.followers.last().current
            },
    {
        self.followers.anchor_frame(leader_frame)
    }

    /// Adds a follower with the current follower delay, placed at `start` and walking to
    /// `anchor` first; returns the frame it moves to at once, if any.
    pub fn push_follower(&mut self, start: F, anchor: F) -> (r: Option<F>)
        ensures
            final(self)@ == (RpgCharacterView {
                followers: old(self)@.followers.push(
                    FollowerView::fresh(old(self)@.follower_delay as nat, start).push(anchor).0,
                ),
                ..old(self)@
            }),
            r == FollowerView::fresh(old(self)@.follower_delay as nat, start).push(anchor).1,
    {
        let delay = self.follower_delay_frames();
        self.followers.push_follower(delay, start, anchor)
    }

    /// After a frame in which the character moved to `frame`: the followers walk on; returns
    /// the frames they moved to, in order.
    pub fn push_frame(&mut self, frame: F) -> (applied: Vec<F>)
        ensures
            cascade(old(self)@.followers, final(self)@.followers, frame, applied@),
            final(self)@ == (RpgCharacterView { followers: final(self)@.followers, ..old(self)@ }),
    {
        self.followers.push_frame(frame)
    }
}

/// However many times the interact action is pressed before a physics frame, that frame
/// interacts once, and the next frame does not interact again unless it is pressed again.
pub proof fn lemma_interact_once<R, F>(v: RpgCharacterView<R, F>)
    ensures
        ({
            let pressed = RpgCharacterView { interact_queued: true, ..v };
            let pressed_again = RpgCharacterView { interact_queued: true, ..pressed };
            let taken = RpgCharacterView { interact_queued: false, ..pressed_again };
            &&& pressed_again == pressed
            &&& pressed_again.interact_queued
            &&& !taken.interact_queued
        }),
{
}

/// A character listens for a sprite leaving exactly while it has one: adopting a sprite
/// switches it to the sprite leaving, and after the sprite leaves it listens for a new sprite
/// the next time it enters the tree.
pub proof fn lemma_sprite_watch<R, F>(v: RpgCharacterView<R, F>)
    ensures
        ({
            let adopted = RpgCharacterView { has_sprite: true, ..v };
            let forgotten = RpgCharacterView { has_sprite: false, ..adopted };
            &&& (if adopted.has_sprite { SpriteWatch::SpriteExiting } else { SpriteWatch::ChildEntered })
                == SpriteWatch::SpriteExiting
            &&& (if forgotten.has_sprite { SpriteWatch::SpriteExiting } else { SpriteWatch::ChildEntered })
                == SpriteWatch::ChildEntered
            &&& forgotten == RpgCharacterView { has_sprite: false, ..v }
        }),
{
}

/// Counting up from zero, `k` moving frames give a count of `k`, up to the largest `u32`.
pub proof fn lemma_count_up_by(k: nat)
    ensures
        count_up_by(0, k) == if k <= u32::MAX { k } else { u32::MAX as nat },
    decreases k,
{
    if k > 0 {
        lemma_count_up_by((k - 1) as nat);
    }
}

/// After a character stops and then keeps moving for `k` frames, it moves at its
/// accelerated speed exactly when acceleration is on and `k` is at least the acceleration
/// delay; and once accelerated it stays so while it keeps moving.
pub proof fn lemma_acceleration<R, F>(v: RpgCharacterView<R, F>, k: nat)
    ensures
        (RpgCharacterView { accumulator: count_up_by(0, k), ..v }).accelerated() <==> (
        v.acceleration_enabled && k >= v.acceleration_delay),
        v.accelerated() ==> (RpgCharacterView { accumulator: count_up(v.accumulator), ..v }).accelerated(),
{
    lemma_count_up_by(k);
}

/// Every physics frame with movement input counts one more moving frame, whatever the
/// sprite's state, and moves at the accelerated speed exactly when acceleration is on and the
/// count before the frame has reached the delay; the character then faces the input
/// direction. A frame without input stands still and starts the count over. The acceleration
/// settings never change.
pub proof fn lemma_steer_counts<R, F, T>(
    v: RpgCharacterView<R, F>,
    d: RpgDirection,
    sprite: Option<(bool, R)>,
    move_speed: T,
    acceleration_speed: T,
)
    ensures
        v.steer(Some(d), sprite, move_speed, acceleration_speed).0.accumulator == count_up(v.accumulator),
        v.steer(Some(d), sprite, move_speed, acceleration_speed).1 == Some(
            if v.acceleration_enabled && v.accumulator >= v.acceleration_delay {
                acceleration_speed
            } else {
                move_speed
            },
        ),
        v.steer(Some(d), sprite, move_speed, acceleration_speed).0.facing_dir == d,
        v.steer(None, sprite, move_speed, acceleration_speed).0.accumulator == 0,
        v.steer(None, sprite, move_speed, acceleration_speed).1 is None,
        v.steer(Some(d), sprite, move_speed, acceleration_speed).0.acceleration_enabled == v.acceleration_enabled,
        v.steer(Some(d), sprite, move_speed, acceleration_speed).0.acceleration_delay == v.acceleration_delay,
{
}

/// The character after frames with input towards `d`, the `i`-th with the sprite state
/// `sprites[i]`.
pub open spec fn walk_frames<R, F, T>(
    v: RpgCharacterView<R, F>,
    d: RpgDirection,
    sprites: Seq<Option<(bool, R)>>,
    move_speed: T,
    acceleration_speed: T,
) -> RpgCharacterView<R, F>
    decreases sprites.len(),
{
    if sprites.len() == 0 {
        v
    } else {
        walk_frames(v, d, sprites.drop_last(), move_speed, acceleration_speed).steer(
            Some(d),
            sprites.last(),
            move_speed,
            acceleration_speed,
        ).0
    }
}

/// After `k` frames with movement input from a stop, whatever the sprite does meanwhile, the
/// count of moving frames is `k` (up to the largest `u32`), and the next frame moves at the
/// accelerated speed exactly when acceleration is on and `k` is at least the delay.
pub proof fn lemma_walk_frames_accelerate<R, F, T>(
    v: RpgCharacterView<R, F>,
    d: RpgDirection,
    sprites: Seq<Option<(bool, R)>>,
    next_sprite: Option<(bool, R)>,
    move_speed: T,
    acceleration_speed: T,
)
    requires
        v.accumulator == 0,
    ensures
        walk_frames(v, d, sprites, move_speed, acceleration_speed).accumulator == count_up_by(0, sprites.len()),
        walk_frames(v, d, sprites, move_speed, acceleration_speed).steer(
            Some(d),
            next_sprite,
            move_speed,
            acceleration_speed,
        ).1 == Some(
            if v.acceleration_enabled && sprites.len() >= v.acceleration_delay {
                acceleration_speed
            } else {
                move_speed
            },
        ),
    decreases sprites.len(),
{
    lemma_walk_frames_settings(v, d, sprites, move_speed, acceleration_speed);
    if sprites.len() > 0 {
        lemma_walk_frames_accelerate(v, d, sprites.drop_last(), sprites.last(), move_speed, acceleration_speed);
        let w = walk_frames(v, d, sprites.drop_last(), move_speed, acceleration_speed);
        lemma_steer_counts(w, d, sprites.last(), move_speed, acceleration_speed);
    }
    let w = walk_frames(v, d, sprites, move_speed, acceleration_speed);
    lemma_steer_counts(w, d, next_sprite, move_speed, acceleration_speed);
    lemma_count_up_by(sprites.len());
}

/// Walking frames keep the acceleration settings.
proof fn lemma_walk_frames_settings<R, F, T>(
    v: RpgCharacterView<R, F>,
    d: RpgDirection,
    sprites: Seq<Option<(bool, R)>>,
    move_speed: T,
    acceleration_speed: T,
)
    ensures
        walk_frames(v, d, sprites, move_speed, acceleration_speed).acceleration_enabled == v.acceleration_enabled,
        walk_frames(v, d, sprites, move_speed, acceleration_speed).acceleration_delay == v.acceleration_delay,
    decreases sprites.len(),
{
    if sprites.len() > 0 {
        lemma_walk_frames_settings(v, d, sprites.drop_last(), move_speed, acceleration_speed);
        let w = walk_frames(v, d, sprites.drop_last(), move_speed, acceleration_speed);
        lemma_steer_counts(w, d, sprites.last(), move_speed, acceleration_speed);
    }
}

/// The sprite in a physics frame: without input a playing sprite is stopped and a stopped one
/// left alone; with input the sprite is turned and, if stopped, started again, at the place
/// where it was stopped when the character stood still; without a sprite nothing is done to
/// one.
pub proof fn lemma_steer_sprite<R, F, T>(
    v: RpgCharacterView<R, F>,
    d: RpgDirection,
    e: RpgDirection,
    at: R,
    other: R,
    move_speed: T,
    acceleration_speed: T,
)
    ensures
        v.steer(None, Some((true, at)), move_speed, acceleration_speed).2 == SpriteStep::<R>::Stop,
        v.steer(None, Some((false, at)), move_speed, acceleration_speed).2 == SpriteStep::<R>::Untouched,
        v.steer(None, None, move_speed, acceleration_speed).2 == SpriteStep::<R>::Untouched,
        v.steer(Some(d), None, move_speed, acceleration_speed).2 == SpriteStep::<R>::Untouched,
        v.steer(Some(d), Some((true, at)), move_speed, acceleration_speed).2 == SpriteStep::Turn(
            Playback::<R>::AlreadyPlaying,
        ),
        v.steer(None, Some((true, at)), move_speed, acceleration_speed).0.steer(
            None,
            Some((false, other)),
            move_speed,
            acceleration_speed,
        ).0.steer(Some(e), Some((false, other)), move_speed, acceleration_speed).2 == SpriteStep::Turn(
            Playback::Resume(at),
        ),
{
}

} // verus!
