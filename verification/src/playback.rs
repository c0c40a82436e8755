//! The playback controller: a monotonic query-time cursor over
//! `[0, duration]`, advanced by elapsed wall-clock ticks or moved by a seek.
//!
//! Every operation is a synchronous state update consumed by the next rendered
//! frame; nothing here blocks.

use vstd::prelude::*;

verus! {

/// Playback state: the cursor, the animation end it is clamped to, and
/// whether ticks advance it.
#[derive(Clone, Copy, Debug, PartialEq, Eq, Structural)]
pub struct Playback {
    /// The query-time cursor, always within `[0, duration]`.
    pub t: u64,
    /// The animation end the cursor is clamped to.
    pub duration: u64,
    /// Whether the controller is Playing rather than Paused.
    pub playing: bool,
}

impl Playback {
    /// The cursor never leaves `[0, duration]`.
    pub open spec fn wf(&self) -> bool {
        self.t <= self.duration
    }

    /// A fresh controller: paused at the start of the animation.
    pub fn new(duration: u64) -> (r: Playback)
        ensures
            r.t == 0,
            r.duration == duration,
            !r.playing,
            r.wf(),
    {
        Playback { t: 0, duration, playing: false }
    }

    /// The current query time.
    pub fn time(&self) -> (r: u64)
        ensures
            r == self.t,
    {
        self.t
    }

    /// Whether the controller is playing.
    pub fn is_playing(&self) -> (r: bool)
        ensures
            r == self.playing,
    {
        self.playing
    }

    /// Advances the cursor by the elapsed wall-clock ticks while playing,
    /// clamped to the animation end; reaching the end pauses. Paused, a tick
    /// changes nothing.
    pub fn tick(&mut self, elapsed: u64)
        requires
            old(self).wf(),
        ensures
            final(self).duration == old(self).duration,
            final(self).wf(),
            !old(self).playing ==> *final(self) == *old(self),
            old(self).playing ==> {
                &&& final(self).t == if old(self).t + elapsed >= old(self).duration {
                    old(self).duration as int
                } else {
                    old(self).t + elapsed
                }
                &&& final(self).playing == (final(self).t < final(self).duration)
            },
    {
        if self.playing {
            if elapsed >= self.duration - self.t {
                self.t = self.duration;
                self.playing = false;
            } else {
                self.t = self.t + elapsed;
            }
        }
    }

    /// Moves the cursor to `target`, clamped to the animation end, without
    /// changing whether the controller is playing.
    pub fn seek(&mut self, target: u64)
        ensures
            final(self).duration == old(self).duration,
            final(self).playing == old(self).playing,
            final(self).t == if target <= old(self).duration {
                target as int
            } else {
                old(self).duration as int
            },
            final(self).wf(),
    {
        self.t = crate::num::clamp_time(target, self.duration);
    }

    /// Stops advancing without moving the cursor.
    pub fn pause(&mut self)
        ensures
            final(self).t == old(self).t,
            final(self).duration == old(self).duration,
            !final(self).playing,
    {
        self.playing = false;
    }

    /// Resumes advancing without moving the cursor. Resumed at the end, the
    /// next tick pauses again; replay by seeking to the start first.
    pub fn resume(&mut self)
        ensures
            final(self).t == old(self).t,
            final(self).duration == old(self).duration,
            final(self).playing,
    {
        self.playing = true;
    }
}

} // verus!
