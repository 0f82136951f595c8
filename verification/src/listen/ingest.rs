//! Taking the stream into the recording: what to do after each thing that happens.
use vstd::prelude::*;

use crate::listen::clock::PlaybackClock;
use crate::listen::live::{PacketOutcome, PacketRead};
use crate::listen::source;
use crate::listen::source::{supported_track, SourceChoice};

verus! {

/// What to do next.
#[derive(Debug, Clone, Copy, PartialEq, Eq, Structural)]
pub enum IngestAction {
    /// Look whether a stop was asked for.
    Poll,
    /// Open the stream at the chosen address.
    Open,
    /// Replace the client, then look whether a stop was asked for.
    RebuildClient,
    /// Begin with a fresh decoder state, and look whether a stop was asked for.
    StartConnection,
    /// Read the next packet.
    ReadPacket,
    /// Decode the track at the given index from here on, with fresh spectrum and sample state.
    UseTrack(usize),
    /// Append the packet's audio to the recording.
    Append,
    /// End.
    Finish,
    /// End with the complaint that no track can be played.
    FailNoTrack,
}

/// The loop that fills the recording.
#[derive(Debug, Clone, Copy, PartialEq, Eq, Structural)]
pub struct Ingest {
    pub source: SourceChoice,
    pub connected: bool,
}

impl Ingest {
    pub fn new(fallback_url: &str) -> (r: Ingest)
        ensures
            !r.connected,
            !r.source.use_fallback,
            r.source.has_fallback == (fallback_url@.len() > 0),
    {
        Ingest { source: SourceChoice::new(fallback_url), connected: false }
    }

    /// Goes on after it was looked whether a stop was asked for.
    pub fn on_poll(&self, stop: bool) -> (r: IngestAction)
        ensures
            r == (if stop {
                IngestAction::Finish
            } else if self.connected {
                IngestAction::ReadPacket
            } else {
                IngestAction::Open
            }),
    {
        if stop {
            IngestAction::Finish
        } else if self.connected {
            IngestAction::ReadPacket
        } else {
            IngestAction::Open
        }
    }

    /// Goes on after the stream was opened, or could not be.
    pub fn on_opened(&mut self, opened: bool) -> (r: IngestAction)
        ensures
            opened ==> r == IngestAction::StartConnection && *final(self) == (Ingest {
                connected: true,
                ..*old(self)
            }),
            !opened ==> r == IngestAction::RebuildClient && *final(self) == (Ingest {
                source: old(self).source.after_failure(),
                ..*old(self)
            }),
    {
        if opened {
            self.connected = true;
            IngestAction::StartConnection
        } else {
            self.source.switch();
            IngestAction::RebuildClient
        }
    }

    /// Goes on after a packet was read.
    pub fn on_packet(&mut self, read: &PacketRead) -> (r: IngestAction)
        ensures
            match read {
                PacketRead::Reset { tracks } => {
                    &&& *final(self) == *old(self)
                    &&& r == (match source::playable_from(tracks@, 0) {
                        Some(i) => IngestAction::UseTrack(i as usize),
                        None => IngestAction::FailNoTrack,
                    })
                },
                PacketRead::Failed => {
                    &&& *final(self) == (Ingest {
                        source: old(self).source.after_failure(),
                        connected: false,
                    })
                    &&& r == IngestAction::Poll
                },
                PacketRead::Decoded { outcome, audio } => match outcome {
                    PacketOutcome::Reconnect => {
                        &&& *final(self) == (Ingest {
                            source: old(self).source.after_failure(),
                            connected: false,
                        })
                        &&& r == IngestAction::Poll
                    },
                    PacketOutcome::SpecChanged => *final(self) == *old(self) && r
                        == IngestAction::Poll,
                    PacketOutcome::Continue => *final(self) == *old(self) && r == (if audio is Some {
                        IngestAction::Append
                    } else {
                        IngestAction::Poll
                    }),
                },
            },
    {
        match read {
            PacketRead::Reset { tracks } => match supported_track(tracks) {
                Some(i) => IngestAction::UseTrack(i),
                None => IngestAction::FailNoTrack,
            },
            PacketRead::Failed => {
                self.source.switch();
                self.connected = false;
                IngestAction::Poll
            },
            PacketRead::Decoded { outcome, audio } => match outcome {
                PacketOutcome::Reconnect => {
                    self.source.switch();
                    self.connected = false;
                    IngestAction::Poll
                },
                PacketOutcome::SpecChanged => IngestAction::Poll,
                PacketOutcome::Continue => if audio.is_some() {
                    IngestAction::Append
                } else {
                    IngestAction::Poll
                },
            },
        }
    }
}

/// The clock once audio was appended: where the recording reaches to, and where the listener is.
pub open spec fn clock_after(
    clock: PlaybackClock,
    end_ms: u64,
    floor: Option<u64>,
    live_head: u64,
) -> PlaybackClock {
    let from = clock.playback_cursor;
    PlaybackClock {
        live_head: end_ms,
        playback_cursor: if from == 0 {
            live_head
        } else if floor is Some && from < floor->0 {
            floor->0
        } else {
            from
        },
    }
}

/// Sets the clock after audio was appended. `end_ms` is the end of that audio, `floor` the start
/// of the recording and `live_head` its end. A listener who has not begun goes to the live head; one
/// who has fallen behind the start of the recording goes there.
pub fn note_appended(clock: &mut PlaybackClock, end_ms: u64, floor: Option<u64>, live_head: u64)
    ensures
        final(clock).live_head == end_ms,
        final(clock).playback_cursor == (if old(clock).playback_cursor == 0 {
            live_head
        } else {
            match floor {
                Some(ms) if ms > old(clock).playback_cursor => ms,
                _ => old(clock).playback_cursor,
            }
        }),
        *final(clock) == clock_after(*old(clock), end_ms, floor, live_head),
{
    clock.set_live_head_ms(end_ms);
    if clock.playback_cursor_ms() == 0 {
        clock.set_playback_cursor_ms(live_head);
    } else if let Some(ms) = floor {
        let _ = clock.clamp_playback_floor(ms);
    }
}

/// Recording goes on without moving a listener who is in the recording; one who has fallen behind
/// its start is taken to the start, and one who has not begun to its end. No listener is moved back.
pub proof fn law_recording_does_not_move_the_listener(
    clock: PlaybackClock,
    end_ms: u64,
    floor: u64,
    live_head: u64,
)
    ensures
        ({
            let after = clock_after(clock, end_ms, Some(floor), live_head);
            &&& after.live_head == end_ms
            &&& after.playback_cursor >= clock.playback_cursor
            &&& clock.playback_cursor > 0 && clock.playback_cursor >= floor
                ==> after.playback_cursor == clock.playback_cursor
            &&& 0 < clock.playback_cursor < floor ==> after.playback_cursor == floor
            &&& clock.playback_cursor == 0 ==> after.playback_cursor == live_head
            &&& clock.playback_cursor > 0 ==> clock_after(
                clock,
                end_ms,
                None,
                live_head,
            ).playback_cursor == clock.playback_cursor
        }),
{
}

} // verus!
