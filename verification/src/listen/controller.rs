//! Starting, pausing and stopping playback of a station.
use vstd::prelude::*;

use crate::listen::clock::PlaybackClock;
use crate::number;
use crate::number::decimal_string;
use crate::station::Station;

verus! {

/// The bars of the spectrum display.
pub const N_BARS: usize = 48;

/// What a running stream is told.
#[derive(Debug, Clone, Copy, PartialEq, Eq, Structural)]
pub enum Control {
    Stop,
    Pause,
    Resume,
}

#[derive(Debug, Clone, Copy, PartialEq, Eq, Structural)]
pub enum PlayState {
    Stopped,
    Paused,
    Playing,
}

/// What a change asks for: word to the stream that runs, and a new stream after that.
#[derive(Debug, Clone, Copy, PartialEq, Eq, Structural)]
pub struct StreamOrder {
    pub send: Option<Control>,
    pub spawn: Option<Station>,
}

/// Playback of a station. The streams themselves are run by the caller, as the methods say.
#[derive(Debug)]
pub struct Listen {
    pub station: Station,
    pub state: PlayState,
    pub clock: PlaybackClock,
    pub spectrum_bits: Vec<u32>,
}

impl Listen {
    /// Whether a stream runs.
    pub open spec fn has_stream(self) -> bool {
        self.state != PlayState::Stopped
    }

    /// Whether the bars of the spectrum are the same.
    pub open spec fn same_display(self, other: Listen) -> bool {
        self.spectrum_bits == other.spectrum_bits
    }

    pub fn new(station: Station) -> (r: Listen)
        ensures
            r.station == station,
            r.state == PlayState::Stopped,
            r.clock == (PlaybackClock { live_head: 0, playback_cursor: 0 }),
            r.spectrum_bits@ == Seq::new(N_BARS as nat, |i: int| 0u32),
    {
        let mut bits: Vec<u32> = Vec::new();
        let mut i: usize = 0;
        while i < N_BARS
            invariant
                i <= N_BARS,
                bits@ == Seq::new(i as nat, |k: int| 0u32),
            decreases N_BARS - i,
        {
            bits.push(0);
            i += 1;
            assert(bits@ =~= Seq::new(i as nat, |k: int| 0u32));
        }
        Listen {
            station,
            state: PlayState::Stopped,
            clock: PlaybackClock::new(),
            spectrum_bits: bits,
        }
    }

    pub fn spectrum_bars(&self) -> (r: &Vec<u32>)
        ensures
            *r == self.spectrum_bits,
    {
        &self.spectrum_bits
    }

    pub fn playback_clock(&self) -> (r: &PlaybackClock)
        ensures
            *r == self.clock,
    {
        &self.clock
    }

    pub fn get_station(&self) -> (r: Station)
        ensures
            r == self.station,
    {
        self.station
    }

    /// Changes the station. A stream that runs or is paused is stopped, and one of the new station
    /// started.
    pub fn set_station(&mut self, station: Station) -> (r: StreamOrder)
        ensures
            final(self).station == station,
            final(self).same_display(*old(self)),
            old(self).has_stream() ==> {
                &&& r == (StreamOrder { send: Some(Control::Stop), spawn: Some(station) })
                &&& final(self).state == PlayState::Playing
                &&& final(self).clock == (PlaybackClock { live_head: 0, playback_cursor: 0 })
            },
            !old(self).has_stream() ==> {
                &&& r == (StreamOrder { send: None, spawn: None })
                &&& final(self).state == old(self).state
                &&& final(self).clock == old(self).clock
            },
    {
        if self.state == PlayState::Stopped {
            self.station = station;
            StreamOrder { send: None, spawn: None }
        } else {
            let stopped = self.stop();
            self.station = station;
            let started = self.start();
            StreamOrder { send: stopped.send, spawn: started.spawn }
        }
    }

    /// Starts a stream, or goes on with one that is paused. The clock stays as it is.
    pub fn start(&mut self) -> (r: StreamOrder)
        ensures
            final(self).station == old(self).station,
            final(self).state == PlayState::Playing,
            final(self).clock == old(self).clock,
            final(self).same_display(*old(self)),
            r == (match old(self).state {
                PlayState::Playing => StreamOrder { send: None, spawn: None },
                PlayState::Paused => StreamOrder { send: Some(Control::Resume), spawn: None },
                PlayState::Stopped => StreamOrder { send: None, spawn: Some(old(self).station) },
            }),
    {
        match self.state {
            PlayState::Playing => StreamOrder { send: None, spawn: None },
            PlayState::Paused => {
                self.state = PlayState::Playing;
                StreamOrder { send: Some(Control::Resume), spawn: None }
            },
            PlayState::Stopped => {
                self.state = PlayState::Playing;
                StreamOrder { send: None, spawn: Some(self.station) }
            },
        }
    }

    /// Pauses a stream that plays.
    pub fn pause(&mut self) -> (r: StreamOrder)
        ensures
            final(self).station == old(self).station,
            final(self).clock == old(self).clock,
            final(self).same_display(*old(self)),
            old(self).state == PlayState::Playing ==> final(self).state == PlayState::Paused && r
                == (StreamOrder { send: Some(Control::Pause), spawn: None }),
            old(self).state != PlayState::Playing ==> final(self).state == old(self).state && r
                == (StreamOrder { send: None, spawn: None }),
    {
        match self.state {
            PlayState::Playing => {
                self.state = PlayState::Paused;
                StreamOrder { send: Some(Control::Pause), spawn: None }
            },
            _ => StreamOrder { send: None, spawn: None },
        }
    }

    /// Stops playback and sets the clock back. Also what is left to do when playback is given up.
    pub fn stop(&mut self) -> (r: StreamOrder)
        ensures
            final(self).station == old(self).station,
            final(self).state == PlayState::Stopped,
            final(self).clock == (PlaybackClock { live_head: 0, playback_cursor: 0 }),
            final(self).same_display(*old(self)),
            r == (StreamOrder {
                send: if old(self).has_stream() {
                    Some(Control::Stop)
                } else {
                    None
                },
                spawn: None,
            }),
    {
        let send = match self.state {
            PlayState::Playing => Some(Control::Stop),
            PlayState::Paused => Some(Control::Stop),
            PlayState::Stopped => None,
        };
        self.state = PlayState::Stopped;
        self.clock.reset();
        StreamOrder { send, spawn: None }
    }
}

/// The directory of the cache that belongs to this application. A name that the environment gives
/// goes first; a build for development has its own.
pub fn listen_cache_namespace(app_id: Option<String>, is_debug: bool) -> (r: String)
    ensures
        r@ == (match app_id {
            Some(id) => id@,
            None => if is_debug {
                "io.github.noobping.listenmoe.Devel"@
            } else {
                "io.github.noobping.listenmoe"@
            },
        }),
{
    match app_id {
        Some(id) => id,
        None => if is_debug {
            "io.github.noobping.listenmoe.Devel".to_owned()
        } else {
            "io.github.noobping.listenmoe".to_owned()
        },
    }
}

/// The path below the cache directory that the recording of a session goes to.
pub fn timeshift_root(namespace: &str, station: Station, session_id: u128) -> (r: Vec<String>)
    ensures
        r@.len() == 4,
        r@[0]@ == namespace@,
        r@[1]@ == "timeshift"@,
        r@[2]@ == station.short_name(),
        r@[3]@ == "session-"@ + number::decimal(session_id as nat),
{
    let mut session = "session-".to_owned();
    session.push_str(&decimal_string(session_id));
    let mut root: Vec<String> = Vec::new();
    root.push(namespace.to_owned());
    root.push("timeshift".to_owned());
    root.push(station.name().to_owned());
    root.push(session);
    root
}

/// Sessions with different numbers record to different directories.
pub proof fn law_sessions_are_apart(a: u128, b: u128)
    requires
        a != b,
    ensures
        "session-"@ + number::decimal(a as nat) != "session-"@ + number::decimal(b as nat),
{
    let front = "session-"@;
    let da = number::decimal(a as nat);
    let db = number::decimal(b as nat);
    if front + da == front + db {
        assert((front + da).skip(front.len() as int) =~= da);
        assert((front + db).skip(front.len() as int) =~= db);
        number::lemma_decimal_injective(a as nat, b as nat);
    }
}

} // verus!
