//! Remembering where a stopped animation was, so that it can pick up from there.
use vstd::prelude::*;

verus! {

/// What to do to get a sprite's animation running.
#[derive(Debug, Clone, Copy, PartialEq, Eq)]
pub enum Playback<R> {
    /// It is already playing: leave it alone.
    AlreadyPlaying,
    /// Start playing from wherever the sprite is.
    Play,
    /// Start playing, then go back to the remembered frame and progress.
    Resume(R),
}

/// The place (frame and progress, of type `R`) at which an animation was last stopped, until
/// it is used to resume.
#[derive(Debug, Clone, Copy, PartialEq)]
pub struct PlaybackMemory<R> {
    pub saved: Option<R>,
}

impl<R> PlaybackMemory<R> {
    /// The memory after stopping a sprite that was `playing` at `at`, and whether the sprite
    /// must be stopped (and set to show frame 1).
    pub open spec fn spec_pause(self, playing: bool, at: R) -> (Self, bool) {
        if playing {
            (PlaybackMemory { saved: Some(at) }, true)
        } else {
            (self, false)
        }
    }

    /// The memory after making a sprite that was `playing` run, and what to do to it.
    pub open spec fn spec_unpause(self, playing: bool) -> (Self, Playback<R>) {
        if playing {
            (self, Playback::AlreadyPlaying)
        } else {
            match self.saved {
                Some(r) => (PlaybackMemory { saved: None }, Playback::Resume(r)),
                None => (self, Playback::Play),
            }
        }
    }

    /// A memory that holds nothing.
    pub fn new() -> (r: Self)
        ensures
            r.saved is None,
    {
        PlaybackMemory { saved: None }
    }

    /// Stops a sprite that is `playing`, remembering `at`, the place it was at; returns whether
    /// the sprite must be stopped and set to show frame 1. A stopped sprite is left alone.
    pub fn pause(&mut self, playing: bool, at: R) -> (stop: bool)
        ensures
            (*final(self), stop) == old(self).spec_pause(playing, at),
    {
        if playing {
            self.saved = Some(at);
            true
        } else {
            false
        }
    }

    /// Gets a sprite running: a stopped sprite resumes at the remembered place, which is then
    /// forgotten, or plays from where it is if nothing is remembered.
    pub fn unpause(&mut self, playing: bool) -> (r: Playback<R>)
        ensures
            (*final(self), r) == old(self).spec_unpause(playing),
    {
        if playing {
            Playback::AlreadyPlaying
        } else {
            match self.saved.take() {
                Some(at) => Playback::Resume(at),
                None => Playback::Play,
            }
        }
    }
}

/// Stopping a playing sprite and starting it again resumes exactly where it stopped, and
/// only once: a second start, after another stop of the stopped sprite, just plays.
pub proof fn lemma_pause_then_unpause<R>(m: PlaybackMemory<R>, at: R)
    ensures
        m.spec_pause(true, at).0.spec_unpause(false).1 == Playback::Resume(at),
        m.spec_pause(true, at).0.spec_unpause(false).0.spec_unpause(false).1 == Playback::<R>::Play,
        m.spec_pause(true, at).0.spec_unpause(false).0.spec_pause(false, at).0.spec_unpause(false).1
            == Playback::<R>::Play,
{
}

/// The memory after asking a stopped sprite to stop at each of the places `ats`, in order.
pub open spec fn pause_stopped<R>(m: PlaybackMemory<R>, ats: Seq<R>) -> PlaybackMemory<R>
    decreases ats.len(),
{
    if ats.len() == 0 {
        m
    } else {
        pause_stopped(m, ats.drop_last()).spec_pause(false, ats.last()).0
    }
}

/// Stopping a playing sprite at `at` and then asking it to stop again any number of times
/// while it is stopped keeps `at`: starting it again resumes there, and only once.
pub proof fn lemma_repeated_stops_keep_place<R>(m: PlaybackMemory<R>, at: R, ats: Seq<R>)
    ensures
        pause_stopped(m.spec_pause(true, at).0, ats) == (PlaybackMemory { saved: Some(at) }),
        pause_stopped(m.spec_pause(true, at).0, ats).spec_unpause(false)
            == (PlaybackMemory::<R> { saved: None }, Playback::Resume(at)),
    decreases ats.len(),
{
    if ats.len() > 0 {
        lemma_repeated_stops_keep_place(m, at, ats.drop_last());
    }
}

} // verus!
