//! Playing the stream as it comes in: the live clock, and what to do after each thing that happens.
use vstd::prelude::*;

use crate::listen::clock::PlaybackClock;
use crate::listen::controller::Control;
use crate::listen::source;
use crate::listen::source::{is_playable, supported_track, SourceChoice, StreamTrack};
use crate::wall::now_timestamp_ms;

verus! {

/// How far the live clock runs ahead before the listener's clock is set.
pub const LIVE_CLOCK_FLUSH_MS: u64 = 250;

/// Reckons the time of the live stream from the audio that came in.
#[derive(Debug, Clone, Copy, PartialEq, Eq, Structural)]
pub struct LiveClockTracker {
    pub live_head_ms: u64,
    pub last_flushed_ms: u64,
    pub resync_from_wall: bool,
}

impl LiveClockTracker {
    /// Whether audio of the given kind moves the clock.
    pub open spec fn counts(sample_rate: u32, channels: u16, sample_count: nat) -> bool {
        sample_rate != 0 && channels != 0 && sample_count / channels as nat > 0
    }

    /// How long the given audio plays, in whole milliseconds and at least one.
    pub open spec fn played_ms(sample_rate: u32, channels: u16, sample_count: nat) -> int {
        let ms = (sample_count / channels as nat) * 1000 / sample_rate as nat;
        if ms > 1 {
            ms as int
        } else {
            1
        }
    }

    /// The clock after audio came in at the given time. It starts from that time if it was not
    /// running or the connection is new.
    pub open spec fn after_audio(
        self,
        sample_rate: u32,
        channels: u16,
        sample_count: nat,
        now_ms: u64,
    ) -> LiveClockTracker {
        if !Self::counts(sample_rate, channels, sample_count) {
            self
        } else {
            let ms = Self::played_ms(sample_rate, channels, sample_count);
            let resync = self.resync_from_wall || self.live_head_ms == 0;
            let from = if !resync {
                self.live_head_ms as int
            } else if now_ms >= ms {
                now_ms - ms
            } else {
                0
            };
            LiveClockTracker {
                live_head_ms: crate::number::capped(from + ms),
                last_flushed_ms: self.last_flushed_ms,
                resync_from_wall: false,
            }
        }
    }

    /// Whether the listener's clock is to be set.
    pub open spec fn is_due(self) -> bool {
        self.live_head_ms != 0 && (self.last_flushed_ms == 0 || self.live_head_ms
            - self.last_flushed_ms >= LIVE_CLOCK_FLUSH_MS)
    }

    /// The live clock once the listener's clock has been set.
    pub open spec fn flushed(self) -> LiveClockTracker {
        if self.live_head_ms == 0 {
            self
        } else {
            LiveClockTracker { last_flushed_ms: self.live_head_ms, ..self }
        }
    }

    /// The listener's clock once it has been set.
    pub open spec fn shown(self, clock: PlaybackClock) -> PlaybackClock {
        if self.live_head_ms == 0 {
            clock
        } else {
            PlaybackClock { live_head: self.live_head_ms, playback_cursor: self.live_head_ms }
        }
    }

    pub fn new(seed_live_head_ms: u64) -> (r: LiveClockTracker)
        ensures
            r == (LiveClockTracker {
                live_head_ms: seed_live_head_ms,
                last_flushed_ms: seed_live_head_ms,
                resync_from_wall: seed_live_head_ms == 0,
            }),
    {
        LiveClockTracker {
            live_head_ms: seed_live_head_ms,
            last_flushed_ms: seed_live_head_ms,
            resync_from_wall: seed_live_head_ms == 0,
        }
    }

    pub fn mark_reconnect(&mut self)
        ensures
            *final(self) == (LiveClockTracker { resync_from_wall: true, ..*old(self) }),
    {
        self.resync_from_wall = true;
    }

    /// Counts audio that came in at the given time, and gives where the clock then stands.
    pub fn advance_at(
        &mut self,
        sample_rate: u32,
        channels: u16,
        sample_count: usize,
        now_ms: u64,
    ) -> (r: Option<u64>)
        requires
            Self::counts(sample_rate, channels, sample_count as nat) ==> (sample_count as nat
                / channels as nat) * 1000 <= u64::MAX,
        ensures
            *final(self) == old(self).after_audio(
                sample_rate,
                channels,
                sample_count as nat,
                now_ms,
            ),
            r == (if Self::counts(sample_rate, channels, sample_count as nat) {
                Some(final(self).live_head_ms)
            } else {
                None
            }),
    {
        if sample_rate == 0 || channels == 0 || sample_count == 0 {
            return None;
        }
        let frames: u64 = (sample_count / channels as usize) as u64;
        if frames == 0 {
            return None;
        }
        let whole_ms: u64 = (frames * 1000) / sample_rate as u64;
        let duration_ms: u64 = if whole_ms > 1 {
            whole_ms
        } else {
            1
        };
        if self.resync_from_wall || self.live_head_ms == 0 {
            self.live_head_ms = now_ms.saturating_sub(duration_ms);
            self.resync_from_wall = false;
        }
        self.live_head_ms = self.live_head_ms.saturating_add(duration_ms);
        Some(self.live_head_ms)
    }

    /// Counts audio that came in now.
    pub fn advance(&mut self, sample_rate: u32, channels: u16, sample_count: usize) -> (r: Option<
        u64,
    >)
        requires
            Self::counts(sample_rate, channels, sample_count as nat) ==> (sample_count as nat
                / channels as nat) * 1000 <= u64::MAX,
        ensures
            exists|now_ms: u64|
                *final(self) == #[trigger] old(self).after_audio(
                    sample_rate,
                    channels,
                    sample_count as nat,
                    now_ms,
                ),
            !old(self).resync_from_wall && old(self).live_head_ms != 0 ==> *final(self) == old(
                self,
            ).after_audio(sample_rate, channels, sample_count as nat, 0),
            r == (if Self::counts(sample_rate, channels, sample_count as nat) {
                Some(final(self).live_head_ms)
            } else {
                None
            }),
    {
        let now_ms: u64 = now_timestamp_ms();
        self.advance_at(sample_rate, channels, sample_count, now_ms)
    }

    pub fn flush_if_due(&mut self, clock: &mut PlaybackClock)
        ensures
            *final(self) == (if old(self).is_due() {
                old(self).flushed()
            } else {
                *old(self)
            }),
            *final(clock) == (if old(self).is_due() {
                old(self).shown(*old(clock))
            } else {
                *old(clock)
            }),
    {
        if self.live_head_ms == 0 {
            return;
        }
        if self.last_flushed_ms == 0 || self.live_head_ms.saturating_sub(self.last_flushed_ms)
            >= LIVE_CLOCK_FLUSH_MS {
            self.flush_now(clock);
        }
    }

    pub fn flush_now(&mut self, clock: &mut PlaybackClock)
        ensures
            *final(self) == old(self).flushed(),
            *final(clock) == old(self).shown(*old(clock)),
    {
        if self.live_head_ms == 0 {
            return;
        }
        clock.set_live_head_ms(self.live_head_ms);
        clock.set_playback_cursor_ms(self.live_head_ms);
        self.last_flushed_ms = self.live_head_ms;
    }
}

/// On one connection the live clock never goes back.
pub proof fn law_live_clock_never_goes_back(
    tracker: LiveClockTracker,
    sample_rate: u32,
    channels: u16,
    sample_count: nat,
    now_ms: u64,
)
    requires
        !tracker.resync_from_wall,
    ensures
        tracker.live_head_ms <= tracker.after_audio(
            sample_rate,
            channels,
            sample_count,
            now_ms,
        ).live_head_ms,
{
}

/// The first audio of a connection ends at the time at which it came in, unless it plays longer
/// than the clock has run.
pub proof fn law_new_connection_starts_at_the_wall_clock(
    tracker: LiveClockTracker,
    sample_rate: u32,
    channels: u16,
    sample_count: nat,
    now_ms: u64,
)
    requires
        tracker.resync_from_wall,
        LiveClockTracker::counts(sample_rate, channels, sample_count),
        LiveClockTracker::played_ms(sample_rate, channels, sample_count) <= now_ms,
    ensures
        tracker.after_audio(sample_rate, channels, sample_count, now_ms).live_head_ms == now_ms,
{
}

/// Whether a stop is among the commands that have come in.
pub fn handle_stop_control(commands: &[Control]) -> (r: bool)
    ensures
        r == commands@.contains(Control::Stop),
{
    let mut i: usize = 0;
    while i < commands.len()
        invariant
            i <= commands@.len(),
            forall|k: int| 0 <= k < i ==> commands@[k] != Control::Stop,
        decreases commands@.len() - i,
    {
        if commands[i] == Control::Stop {
            assert(commands@[i as int] == Control::Stop);
            return true;
        }
        i += 1;
    }
    false
}

/// What the decoder made of a packet.
#[derive(Debug, Clone, Copy, PartialEq, Eq, Structural)]
pub enum PacketOutcome {
    Continue,
    Reconnect,
    SpecChanged,
}

/// The audio of a packet.
#[derive(Debug, Clone, Copy, PartialEq, Eq, Structural)]
pub struct PacketAudio {
    pub channels: u16,
    pub sample_rate: u32,
    pub sample_count: usize,
}

impl PacketAudio {
    /// Whether the output takes it.
    pub open spec fn playable(self) -> bool {
        self.channels > 0 && self.sample_rate > 0
    }

    /// Whether its length can be counted in 64 bits.
    pub open spec fn countable(self) -> bool {
        LiveClockTracker::counts(self.sample_rate, self.channels, self.sample_count as nat) ==> (
        self.sample_count as nat / self.channels as nat) * 1000 <= u64::MAX
    }
}

/// What reading the next packet of the stream gave. After a reset the stream has the given tracks.
#[derive(Debug)]
pub enum PacketRead {
    Reset { tracks: Vec<StreamTrack> },
    Failed,
    Decoded { outcome: PacketOutcome, audio: Option<PacketAudio> },
}

/// What to do next.
#[derive(Debug, Clone, Copy, PartialEq, Eq, Structural)]
pub enum LiveAction {
    /// Look whether a stop was asked for.
    Poll,
    /// Open the stream at the chosen address.
    Open,
    /// Replace the client, then look whether a stop was asked for.
    RebuildClient,
    /// Read the next packet.
    ReadPacket,
    /// Begin a new output queue with fresh spectrum and decoder state.
    StartConnection,
    /// Decode the track at the given index from here on, with fresh spectrum and sample state.
    UseTrack(usize),
    /// Begin a new output queue with fresh spectrum state.
    RestartQueue,
    /// Hand the packet's audio to the output.
    Play,
    /// Clear output and spectrum, and end.
    Finish,
    /// End with the complaint that no track can be played.
    FailNoTrack,
}

/// The loop that plays the stream as it comes in.
#[derive(Debug, Clone, Copy, PartialEq, Eq, Structural)]
pub struct LiveSession {
    pub source: SourceChoice,
    pub live_clock: LiveClockTracker,
    pub connected: bool,
}

impl LiveSession {
    /// The loop after the connection was lost.
    pub open spec fn disconnected(self) -> LiveSession {
        LiveSession { source: self.source.after_failure(), connected: false, ..self }
    }

    pub fn new(fallback_url: &str, clock: &PlaybackClock) -> (r: LiveSession)
        ensures
            !r.connected,
            !r.source.use_fallback,
            r.source.has_fallback == (fallback_url@.len() > 0),
            r.live_clock == (LiveClockTracker {
                live_head_ms: clock.live_head,
                last_flushed_ms: clock.live_head,
                resync_from_wall: clock.live_head == 0,
            }),
    {
        LiveSession {
            source: SourceChoice::new(fallback_url),
            live_clock: LiveClockTracker::new(clock.live_head_ms()),
            connected: false,
        }
    }

    /// Goes on after it was looked whether a stop was asked for.
    pub fn on_poll(&mut self, clock: &mut PlaybackClock, stop: bool) -> (r: LiveAction)
        ensures
            stop ==> r == LiveAction::Finish,
            stop ==> *final(self) == (LiveSession {
                live_clock: old(self).live_clock.flushed(),
                ..*old(self)
            }),
            stop ==> *final(clock) == old(self).live_clock.shown(*old(clock)),
            !stop ==> *final(self) == *old(self) && *final(clock) == *old(clock),
            !stop ==> r == (if old(self).connected {
                LiveAction::ReadPacket
            } else {
                LiveAction::Open
            }),
    {
        if stop {
            self.live_clock.flush_now(clock);
            LiveAction::Finish
        } else if self.connected {
            LiveAction::ReadPacket
        } else {
            LiveAction::Open
        }
    }

    /// Goes on after the stream was opened, or could not be.
    pub fn on_opened(&mut self, opened: bool) -> (r: LiveAction)
        ensures
            opened ==> r == LiveAction::StartConnection,
            opened ==> *final(self) == (LiveSession {
                connected: true,
                live_clock: LiveClockTracker { resync_from_wall: true, ..old(self).live_clock },
                ..*old(self)
            }),
            !opened ==> r == LiveAction::RebuildClient,
            !opened ==> *final(self) == (LiveSession {
                source: old(self).source.after_failure(),
                ..*old(self)
            }),
    {
        if opened {
            self.connected = true;
            self.live_clock.mark_reconnect();
            LiveAction::StartConnection
        } else {
            self.source.switch();
            LiveAction::RebuildClient
        }
    }

    /// Goes on after a packet was read at the given time.
    pub fn on_packet(&mut self, clock: &mut PlaybackClock, read: &PacketRead, now_ms: u64) -> (r:
        LiveAction)
        requires
            read matches PacketRead::Decoded { outcome, audio } ==> (audio matches Some(a)
                ==> a.countable()),
        ensures
            match read {
                PacketRead::Reset { tracks } => {
                    &&& *final(self) == *old(self)
                    &&& *final(clock) == *old(clock)
                    &&& r == (match source::playable_from(tracks@, 0) {
                        Some(i) => LiveAction::UseTrack(i as usize),
                        None => LiveAction::FailNoTrack,
                    })
                },
                PacketRead::Failed => {
                    &&& *final(self) == (LiveSession {
                        live_clock: old(self).live_clock.flushed(),
                        ..*old(self)
                    }).disconnected()
                    &&& *final(clock) == old(self).live_clock.shown(*old(clock))
                    &&& r == LiveAction::Poll
                },
                PacketRead::Decoded { outcome, audio } => match outcome {
                    PacketOutcome::Reconnect => {
                        &&& *final(self) == old(self).disconnected()
                        &&& *final(clock) == *old(clock)
                        &&& r == LiveAction::Poll
                    },
                    PacketOutcome::SpecChanged => {
                        &&& *final(self) == *old(self)
                        &&& *final(clock) == *old(clock)
                        &&& r == LiveAction::RestartQueue
                    },
                    PacketOutcome::Continue => match audio {
                        Some(a) if a.playable() => {
                            let ticked = old(self).live_clock.after_audio(
                                a.sample_rate,
                                a.channels,
                                a.sample_count as nat,
                                now_ms,
                            );
                            let due = LiveClockTracker::counts(
                                a.sample_rate,
                                a.channels,
                                a.sample_count as nat,
                            ) && ticked.is_due();
                            &&& r == LiveAction::Play
                            &&& *final(self) == (LiveSession {
                                live_clock: if due {
                                    ticked.flushed()
                                } else {
                                    ticked
                                },
                                ..*old(self)
                            })
                            &&& *final(clock) == (if due {
                                ticked.shown(*old(clock))
                            } else {
                                *old(clock)
                            })
                        },
                        _ => {
                            &&& *final(self) == *old(self)
                            &&& *final(clock) == *old(clock)
                            &&& r == LiveAction::Poll
                        },
                    },
                },
            },
    {
        match read {
            PacketRead::Reset { tracks } => match supported_track(tracks) {
                Some(i) => LiveAction::UseTrack(i),
                None => LiveAction::FailNoTrack,
            },
            PacketRead::Failed => {
                self.live_clock.flush_now(clock);
                self.source.switch();
                self.connected = false;
                LiveAction::Poll
            },
            PacketRead::Decoded { outcome, audio } => match outcome {
                PacketOutcome::Reconnect => {
                    self.source.switch();
                    self.connected = false;
                    LiveAction::Poll
                },
                PacketOutcome::SpecChanged => LiveAction::RestartQueue,
                PacketOutcome::Continue => match audio {
                    Some(a) => {
                        if !is_playable(a.channels, a.sample_rate) {
                            return LiveAction::Poll;
                        }
                        let counted = self.live_clock.advance_at(
                            a.sample_rate,
                            a.channels,
                            a.sample_count,
                            now_ms,
                        );
                        if counted.is_some() {
                            self.live_clock.flush_if_due(clock);
                        }
                        LiveAction::Play
                    },
                    None => LiveAction::Poll,
                },
            },
        }
    }
}

/// A lost connection is tried again at the other address, where there is one; the live clock stays.
pub proof fn law_lost_connection_goes_to_the_other_address(session: LiveSession)
    ensures
        !session.disconnected().connected,
        session.source.has_fallback ==> session.disconnected().source.use_fallback
            != session.source.use_fallback,
        !session.source.has_fallback ==> session.disconnected().source == session.source,
        session.disconnected().live_clock == session.live_clock,
{
}

/// Audio is played just if it has channels and a rate.
pub proof fn law_audio_needs_channels_and_a_rate(audio: PacketAudio)
    ensures
        audio.playable() <==> audio.channels != 0 && audio.sample_rate != 0,
{
}

} // verus!
