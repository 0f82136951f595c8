//! Where the stream and the listener are, in milliseconds of wall time.
use vstd::prelude::*;

verus! {

#[derive(Debug, Clone, Copy, PartialEq, Eq, Structural)]
pub struct PlaybackClock {
    pub live_head: u64,
    pub playback_cursor: u64,
}

impl PlaybackClock {
    pub fn new() -> (r: PlaybackClock)
        ensures
            r == (PlaybackClock { live_head: 0, playback_cursor: 0 }),
    {
        PlaybackClock { live_head: 0, playback_cursor: 0 }
    }

    pub fn reset(&mut self)
        ensures
            *final(self) == (PlaybackClock { live_head: 0, playback_cursor: 0 }),
    {
        self.live_head = 0;
        self.playback_cursor = 0;
    }

    pub fn live_head_ms(&self) -> (r: u64)
        ensures
            r == self.live_head,
    {
        self.live_head
    }

    pub fn playback_cursor_ms(&self) -> (r: u64)
        ensures
            r == self.playback_cursor,
    {
        self.playback_cursor
    }

    pub fn set_live_head_ms(&mut self, value: u64)
        ensures
            *final(self) == (PlaybackClock { live_head: value, ..*old(self) }),
    {
        self.live_head = value;
    }

    pub fn set_playback_cursor_ms(&mut self, value: u64)
        ensures
            *final(self) == (PlaybackClock { playback_cursor: value, ..*old(self) }),
    {
        self.playback_cursor = value;
    }

    /// Moves the listener to the live head, and gives its time.
    pub fn snap_playback_to_live(&mut self) -> (r: u64)
        ensures
            r == old(self).live_head,
            *final(self) == (PlaybackClock { playback_cursor: r, ..*old(self) }),
    {
        let live: u64 = self.live_head;
        self.playback_cursor = live;
        live
    }

    /// Moves the listener to the given time if it is before that, and gives where it is then.
    pub fn clamp_playback_floor(&mut self, floor_ms: u64) -> (r: u64)
        ensures
            r == (if old(self).playback_cursor < floor_ms {
                floor_ms
            } else {
                old(self).playback_cursor
            }),
            *final(self) == (PlaybackClock { playback_cursor: r, ..*old(self) }),
    {
        if self.playback_cursor < floor_ms {
            self.playback_cursor = floor_ms;
        }
        self.playback_cursor
    }
}

impl Default for PlaybackClock {
    fn default() -> (r: PlaybackClock)
        ensures
            r == (PlaybackClock { live_head: 0, playback_cursor: 0 }),
    {
        PlaybackClock::new()
    }
}

} // verus!
