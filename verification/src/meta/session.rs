//! One connection to the gateway: what to do after each thing that happens, and which tracks the
//! window is told of, and when.
use vstd::prelude::*;

use crate::listen::clock::PlaybackClock;
use crate::listen::store;
use crate::listen::store::RETENTION_MS;
use crate::meta::control;
use crate::meta::control::ControlPoll;
use crate::meta::controller::Control;

verus! {

pub const HEARTBEAT_PAYLOAD: &'static str = "{\"op\":9}";

pub const TRACK_UPDATE_REQUEST_PAYLOAD: &'static str = "{\"op\":2}";

/// How long the gateway may be silent if it has not asked for heartbeats.
pub const MAX_INACTIVITY_MS: u64 = 30_000;

/// How long a look at the clock is put off while it is not running.
pub const RESYNC_DELAY_MS: u64 = 250;

/// What was read as the first message of a connection.
#[derive(Debug, Clone, Copy, PartialEq, Eq, Structural)]
pub enum HelloRead {
    /// A greeting that asks for heartbeats at this distance in milliseconds.
    Hello(u64),
    /// Another message.
    Other,
    /// The connection was closed.
    Closed,
    /// Reading failed, or what was read cannot be understood.
    Failed,
}

/// The distance of heartbeats that the first message asks for, if it does.
pub fn read_hello_heartbeat(read: HelloRead) -> (r: Result<Option<u64>, ()>)
    ensures
        r == (match read {
            HelloRead::Hello(ms) => Ok::<Option<u64>, ()>(Some(ms)),
            HelloRead::Other => Ok(None),
            HelloRead::Closed => Ok(None),
            HelloRead::Failed => Err(()),
        }),
{
    match read {
        HelloRead::Hello(ms) => Ok(Some(ms)),
        HelloRead::Other => Ok(None),
        HelloRead::Closed => Ok(None),
        HelloRead::Failed => Err(()),
    }
}

/// Numbers for what the window is to be told later. Only what was given the newest number is told.
#[derive(Debug, Clone, Copy, PartialEq, Eq, Structural)]
pub struct UiSchedule {
    pub newest: u64,
}

impl UiSchedule {
    /// Whether what was given the number is still to be told.
    pub open spec fn is_due(self, token: u64) -> bool {
        self.newest == token
    }

    /// With one more number given out.
    pub open spec fn next(self) -> UiSchedule {
        UiSchedule { newest: (self.newest + 1) as u64 }
    }

    pub fn new() -> (r: UiSchedule)
        ensures
            r.newest == 0,
    {
        UiSchedule { newest: 0 }
    }

    /// Drops all that was to be told later.
    pub fn invalidate(&mut self)
        requires
            old(self).newest < u64::MAX,
        ensures
            *final(self) == old(self).next(),
    {
        self.newest = self.newest + 1;
    }

    /// A number for something to be told later, in place of all before it.
    pub fn issue(&mut self) -> (r: u64)
        requires
            old(self).newest < u64::MAX,
        ensures
            *final(self) == old(self).next(),
            r == final(self).newest,
    {
        self.newest = self.newest + 1;
        self.newest
    }

    pub fn is_current(&self, token: u64) -> (r: bool)
        ensures
            r == self.is_due(token),
    {
        self.newest == token
    }
}

/// Once a number has been given out, what was given an earlier one is never told.
pub proof fn law_only_the_newest_is_told(schedule: UiSchedule, token: u64)
    requires
        token <= schedule.newest,
        schedule.newest < u64::MAX,
    ensures
        !schedule.next().is_due(token),
        schedule.next().is_due(schedule.next().newest),
{
}

/// What is to be done to show the right track.
#[derive(Debug, Clone, Copy, PartialEq, Eq, Structural)]
pub enum Resync {
    /// Look again after `RESYNC_DELAY_MS`, if the number is still the newest then.
    Later { token: u64 },
    /// Show the track at this time, and see to the one after it.
    At { cursor_ms: u64 },
}

/// The time whose track is to be shown: where the listener is, else where the stream is.
pub open spec fn shown_time(clock: PlaybackClock) -> u64 {
    if clock.playback_cursor != 0 {
        clock.playback_cursor
    } else {
        clock.live_head
    }
}

/// Drops all that was to be told later, and finds out what to show. While the clock is not running
/// that is put off.
pub fn resync_ui(schedule: &mut UiSchedule, clock: &PlaybackClock) -> (r: Resync)
    requires
        old(schedule).newest < u64::MAX - 1,
    ensures
        shown_time(*clock) == 0 ==> *final(schedule) == old(schedule).next().next() && r
            == (Resync::Later { token: final(schedule).newest }),
        shown_time(*clock) != 0 ==> *final(schedule) == old(schedule).next() && r == (Resync::At {
            cursor_ms: shown_time(*clock),
        }),
{
    schedule.invalidate();
    let cursor_ms: u64 = if clock.playback_cursor_ms() == 0 {
        let live_head_ms: u64 = clock.live_head_ms();
        if live_head_ms == 0 {
            let token: u64 = schedule.issue();
            return Resync::Later { token };
        }
        live_head_ms
    } else {
        clock.playback_cursor_ms()
    };
    Resync::At { cursor_ms }
}

/// A change of the shown track that is to come.
#[derive(Debug, Clone, Copy, PartialEq, Eq, Structural)]
pub struct NextSwitch {
    pub token: u64,
    pub wait_ms: u64,
}

/// Sees to the track after the given time, if there is one: `next_start_ms` is when it starts. It
/// is shown after the wait, if the number is still the newest then.
pub fn schedule_next_ui_switch(
    schedule: &mut UiSchedule,
    next_start_ms: Option<u64>,
    cursor_ms: u64,
) -> (r: Option<NextSwitch>)
    requires
        old(schedule).newest < u64::MAX,
    ensures
        match next_start_ms {
            Some(start) => {
                &&& *final(schedule) == old(schedule).next()
                &&& r == Some(
                    NextSwitch {
                        token: final(schedule).newest,
                        wait_ms: store::time_before(start, cursor_ms),
                    },
                )
            },
            None => r is None && *final(schedule) == *old(schedule),
        },
{
    match next_start_ms {
        Some(start) => {
            let token: u64 = schedule.issue();
            Some(NextSwitch { token, wait_ms: start.saturating_sub(cursor_ms) })
        },
        None => None,
    }
}

/// What was read from the gateway.
#[derive(Debug, Clone, Copy, PartialEq, Eq, Structural)]
pub enum GatewayRead {
    /// The connection was closed.
    Closed,
    /// Nothing came in the time that a read waits.
    Quiet,
    /// Reading failed.
    Failed,
    /// Something that is not text.
    NotText,
    /// A text that is no message of the gateway.
    Malformed,
    /// A heartbeat was noticed.
    HeartbeatAck,
    /// News of tracks.
    Tracks,
    /// A message about tracks that tells of none.
    NoTracks,
    /// Any other message.
    Other,
}

/// What to do next.
#[derive(Debug, Clone, Copy, PartialEq, Eq, Structural)]
pub enum SessionAction {
    /// Go on.
    Continue,
    /// Show the track that plays where the listener is.
    Resync,
    /// Show the newest track at once.
    ShowCurrent,
    /// End the connection.
    End,
    /// End the connection with the error that reading gave.
    Fail,
}

/// One connection. Times are nanoseconds of a clock that does not go back.
#[derive(Debug, Clone, Copy, PartialEq, Eq, Structural)]
pub struct GatewaySession {
    pub heartbeat_ms: Option<u64>,
    pub last_heartbeat: u128,
    pub last_heartbeat_ack: u128,
    pub last_any_message: u128,
}

/// The time between two readings of the clock.
pub open spec fn elapsed(now: u128, since: u128) -> int {
    if now >= since {
        now - since
    } else {
        0
    }
}

impl GatewaySession {
    /// Whether a heartbeat is to be sent.
    pub open spec fn owes_heartbeat(self, now: u128) -> bool {
        match self.heartbeat_ms {
            Some(ms) => elapsed(now, self.last_heartbeat) >= ms * 1_000_000,
            None => false,
        }
    }

    /// Whether the gateway has been silent for too long: three heartbeats without an answer, or
    /// thirty seconds where it has not asked for heartbeats.
    pub open spec fn is_lost(self, now: u128) -> bool {
        match self.heartbeat_ms {
            Some(ms) => elapsed(now, self.last_heartbeat_ack) > crate::number::capped(ms * 3)
                * 1_000_000,
            None => elapsed(now, self.last_any_message) > MAX_INACTIVITY_MS * 1_000_000,
        }
    }

    /// The connection once something was read: which times of it have moved.
    pub open spec fn heard(self, read: GatewayRead, now: u128) -> GatewaySession {
        let understood = read == GatewayRead::HeartbeatAck || read == GatewayRead::Tracks || read
            == GatewayRead::NoTracks || read == GatewayRead::Other;
        GatewaySession {
            last_heartbeat_ack: if read == GatewayRead::HeartbeatAck {
                now
            } else {
                self.last_heartbeat_ack
            },
            last_any_message: if understood {
                now
            } else {
                self.last_any_message
            },
            ..self
        }
    }

    /// The connection once a heartbeat was sent.
    pub open spec fn beaten(self, now: u128) -> GatewaySession {
        GatewaySession { last_heartbeat: now, ..self }
    }

    pub fn new(heartbeat_ms: Option<u64>, now: u128) -> (r: GatewaySession)
        ensures
            r == (GatewaySession {
                heartbeat_ms,
                last_heartbeat: now,
                last_heartbeat_ack: now,
                last_any_message: now,
            }),
    {
        GatewaySession {
            heartbeat_ms,
            last_heartbeat: now,
            last_heartbeat_ack: now,
            last_any_message: now,
        }
    }

    /// Takes what was found when a command was looked for.
    pub fn on_control(&self, poll: ControlPoll, paused: &mut bool, schedule: &mut UiSchedule) -> (r:
        SessionAction)
        requires
            old(schedule).newest < u64::MAX,
        ensures
            *final(paused) == control::paused_after(poll, *old(paused)),
            *final(schedule) == (match poll {
                ControlPoll::Command(Control::Resume) => *old(schedule),
                ControlPoll::Empty => *old(schedule),
                _ => old(schedule).next(),
            }),
            r == (match poll {
                ControlPoll::Command(Control::Stop) => SessionAction::End,
                ControlPoll::Disconnected => SessionAction::End,
                ControlPoll::Command(Control::Resume) => SessionAction::Resync,
                ControlPoll::Command(Control::Pause) => SessionAction::Continue,
                ControlPoll::Empty => SessionAction::Continue,
            }),
    {
        match poll {
            ControlPoll::Command(command) => match command {
                Control::Stop => {
                    schedule.invalidate();
                    SessionAction::End
                },
                Control::Pause => {
                    *paused = true;
                    schedule.invalidate();
                    SessionAction::Continue
                },
                Control::Resume => {
                    *paused = false;
                    SessionAction::Resync
                },
            },
            ControlPoll::Disconnected => {
                schedule.invalidate();
                SessionAction::End
            },
            ControlPoll::Empty => SessionAction::Continue,
        }
    }

    pub fn heartbeat_due(&self, now: u128) -> (r: bool)
        ensures
            r == self.owes_heartbeat(now),
    {
        match self.heartbeat_ms {
            Some(ms) => now.saturating_sub(self.last_heartbeat) >= ms as u128 * 1_000_000,
            None => false,
        }
    }

    /// Takes whether a heartbeat could be sent.
    pub fn on_heartbeat_sent(&mut self, sent: bool, now: u128) -> (r: SessionAction)
        ensures
            r == (if sent {
                SessionAction::Continue
            } else {
                SessionAction::End
            }),
            *final(self) == (if sent {
                GatewaySession { last_heartbeat: now, ..*old(self) }
            } else {
                *old(self)
            }),
            sent ==> *final(self) == old(self).beaten(now),
    {
        if sent {
            self.last_heartbeat = now;
            SessionAction::Continue
        } else {
            SessionAction::End
        }
    }

    /// Whether the gateway has been silent for too long.
    pub fn timed_out(&self, now: u128) -> (r: bool)
        ensures
            r == self.is_lost(now),
    {
        match self.heartbeat_ms {
            Some(ms) => {
                let max_silence: u64 = crate::number::capped_product(ms, 3);
                now.saturating_sub(self.last_heartbeat_ack) > max_silence as u128 * 1_000_000
            },
            None => now.saturating_sub(self.last_any_message) > MAX_INACTIVITY_MS as u128
                * 1_000_000,
        }
    }

    /// Takes what was read. `direct_live` says that the stream is played as it comes in, so that the
    /// newest track is the one that plays.
    pub fn on_read(
        &mut self,
        read: GatewayRead,
        now: u128,
        paused: bool,
        direct_live: bool,
        schedule: &mut UiSchedule,
    ) -> (r: SessionAction)
        requires
            old(schedule).newest < u64::MAX,
        ensures
            *final(self) == (match read {
                GatewayRead::HeartbeatAck => GatewaySession {
                    last_heartbeat_ack: now,
                    last_any_message: now,
                    ..*old(self)
                },
                GatewayRead::Tracks => GatewaySession { last_any_message: now, ..*old(self) },
                GatewayRead::NoTracks => GatewaySession { last_any_message: now, ..*old(self) },
                GatewayRead::Other => GatewaySession { last_any_message: now, ..*old(self) },
                _ => *old(self),
            }),
            *final(self) == old(self).heard(read, now),
            r == (match read {
                GatewayRead::Closed => SessionAction::End,
                GatewayRead::Failed => SessionAction::Fail,
                GatewayRead::Tracks => if paused {
                    SessionAction::Continue
                } else if direct_live {
                    SessionAction::ShowCurrent
                } else {
                    SessionAction::Resync
                },
                _ => SessionAction::Continue,
            }),
            *final(schedule) == (if r == SessionAction::ShowCurrent {
                old(schedule).next()
            } else {
                *old(schedule)
            }),
    {
        match read {
            GatewayRead::Closed => SessionAction::End,
            GatewayRead::Failed => SessionAction::Fail,
            GatewayRead::Quiet => SessionAction::Continue,
            GatewayRead::NotText => SessionAction::Continue,
            GatewayRead::Malformed => SessionAction::Continue,
            GatewayRead::HeartbeatAck => {
                self.last_any_message = now;
                self.last_heartbeat_ack = now;
                SessionAction::Continue
            },
            GatewayRead::NoTracks => {
                self.last_any_message = now;
                SessionAction::Continue
            },
            GatewayRead::Other => {
                self.last_any_message = now;
                SessionAction::Continue
            },
            GatewayRead::Tracks => {
                self.last_any_message = now;
                if paused {
                    SessionAction::Continue
                } else if direct_live {
                    schedule.invalidate();
                    SessionAction::ShowCurrent
                } else {
                    SessionAction::Resync
                }
            },
        }
    }
}

/// The time before which tracks are not kept.
pub fn retention_floor(clock: &PlaybackClock) -> (r: u64)
    ensures
        r == store::time_before(clock.live_head, RETENTION_MS),
{
    clock.live_head_ms().saturating_sub(RETENTION_MS)
}

/// A connection on which every heartbeat is answered in time is not given up: an answer no older
/// than three heartbeats is enough.
pub proof fn law_answered_heartbeats_keep_the_connection(
    session: GatewaySession,
    ms: u64,
    now: u128,
)
    requires
        session.heartbeat_ms == Some(ms),
        ms * 3 <= u64::MAX,
        elapsed(now, session.last_heartbeat_ack) <= 3 * ms * 1_000_000,
    ensures
        !session.is_lost(now),
{
}

/// A heartbeat is owed once the distance that the gateway asked for has passed since the last one,
/// and never where it has not asked.
pub proof fn law_heartbeats_keep_their_distance(session: GatewaySession, now: u128)
    ensures
        session.heartbeat_ms is None ==> !session.owes_heartbeat(now),
        session.heartbeat_ms matches Some(ms) && session.last_heartbeat <= now ==> (
        session.owes_heartbeat(now) <==> session.last_heartbeat + session.heartbeat_ms->0
            * 1_000_000 <= now),
{
}

/// A connection is given up once the gateway has left three heartbeats in a row unanswered, or has
/// been silent for thirty seconds where it has not asked for heartbeats; and no earlier.
pub proof fn law_silent_connections_are_given_up(session: GatewaySession, now: u128)
    requires
        session.last_heartbeat_ack <= now,
        session.last_any_message <= now,
        session.heartbeat_ms matches Some(ms) ==> ms * 3 <= u64::MAX,
    ensures
        session.heartbeat_ms matches Some(ms) ==> (session.is_lost(now) <==> now
            - session.last_heartbeat_ack > 3 * ms * 1_000_000),
        session.heartbeat_ms is None ==> (session.is_lost(now) <==> now - session.last_any_message
            > 30_000_000_000),
{
}

/// The track that is shown is the one where the listener is; only a listener without a place is
/// shown the one at the live head.
pub proof fn law_shown_track_is_the_listeners(clock: PlaybackClock)
    ensures
        clock.playback_cursor > 0 ==> shown_time(clock) == clock.playback_cursor,
        clock.playback_cursor == 0 ==> shown_time(clock) == clock.live_head,
{
}

/// Tracks are kept for seven days.
pub proof fn law_tracks_are_kept_for_a_week(live_head: u64)
    ensures
        live_head >= 604_800_000 ==> store::time_before(live_head, RETENTION_MS) + 604_800_000
            == live_head,
        live_head < 604_800_000 ==> store::time_before(live_head, RETENTION_MS) == 0,
{
}

/// An answered heartbeat keeps the connection for three heartbeats more; a message keeps one without
/// heartbeats for thirty seconds more.
pub proof fn law_answers_keep_the_connection(
    session: GatewaySession,
    read: GatewayRead,
    now: u128,
    later: u128,
)
    requires
        now <= later,
    ensures
        session.heartbeat_ms matches Some(ms) && ms * 3 <= u64::MAX && read
            == GatewayRead::HeartbeatAck && later - now <= 3 * ms * 1_000_000 ==> !session.heard(
            read,
            now,
        ).is_lost(later),
        session.heartbeat_ms is None && (read == GatewayRead::HeartbeatAck || read
            == GatewayRead::Tracks || read == GatewayRead::NoTracks || read == GatewayRead::Other)
            && later - now <= 30_000_000_000 ==> !session.heard(read, now).is_lost(later),
        session.heard(read, now).owes_heartbeat(later) == session.owes_heartbeat(later),
{
}

/// What cannot be understood, and silence, keep no connection; nor does a message stand for the
/// answer to a heartbeat.
pub proof fn law_noise_does_not_keep_the_connection(
    session: GatewaySession,
    read: GatewayRead,
    now: u128,
    later: u128,
)
    requires
        read != GatewayRead::HeartbeatAck,
    ensures
        session.heartbeat_ms is Some ==> session.heard(read, now).is_lost(later) == session.is_lost(
            later,
        ),
        read == GatewayRead::Quiet || read == GatewayRead::NotText || read
            == GatewayRead::Malformed ==> session.heard(read, now) == session,
{
}

/// A heartbeat that was sent is not owed again before the distance has passed once more, and then it
/// is. It answers nothing.
pub proof fn law_sent_heartbeats_are_not_owed(
    session: GatewaySession,
    ms: u64,
    now: u128,
    later: u128,
)
    requires
        session.heartbeat_ms == Some(ms),
        now <= later,
    ensures
        session.beaten(now).owes_heartbeat(later) <==> later - now >= ms * 1_000_000,
        session.beaten(now).is_lost(later) == session.is_lost(later),
{
}

} // verus!
