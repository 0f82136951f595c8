//! What the actions of the window do.
use vstd::prelude::*;

use crate::listen::clock::PlaybackClock;
use crate::listen::controller::{Control, Listen, PlayState, StreamOrder, N_BARS};
use crate::meta::controller;
use crate::meta::controller::{Meta, MetaOrder};
use crate::station::{other_station, Station};
use crate::ui::controls::PlaybackStatus;
use crate::ui::options::UiOptions;
use crate::ui::state;

verus! {

pub const APP_NAME: &'static str = "Listen Moe";

/// What stands below the title while the stream is being connected.
pub const CONNECTING_SUBTITLE: &'static str = "Connecting...";

/// What stands below the title while nothing plays; shown in the user's language.
pub const IDLE_SUBTITLE: &'static str = "J-POP and K-POP radio";

/// What stands below the title.
#[derive(Debug, Clone, Copy, PartialEq, Eq, Structural)]
pub enum Subtitle {
    Connecting,
    Idle,
}

impl Subtitle {
    pub fn message(self) -> (r: &'static str)
        ensures
            r@ == (match self {
                Subtitle::Connecting => CONNECTING_SUBTITLE@,
                Subtitle::Idle => IDLE_SUBTITLE@,
            }),
    {
        match self {
            Subtitle::Connecting => CONNECTING_SUBTITLE,
            Subtitle::Idle => IDLE_SUBTITLE,
        }
    }
}

/// What is to be done for an action: word to the gateway and to the stream; below the title, which
/// is then the application's name; and the state for the media controls.
#[derive(Debug, Clone, Copy, PartialEq, Eq, Structural)]
pub struct ActionEffect {
    pub meta: MetaOrder,
    pub radio: StreamOrder,
    pub subtitle: Subtitle,
    pub playback: PlaybackStatus,
}

/// What is to be done for a change of station. `activate` names an action to go on with.
#[derive(Debug, Clone, Copy)]
pub struct StationEffect {
    pub meta: MetaOrder,
    pub radio: StreamOrder,
    pub activate: Option<&'static str>,
}

/// An order for nothing.
pub open spec fn no_stream_order() -> StreamOrder {
    StreamOrder { send: None, spawn: None }
}

/// An order for nothing.
pub open spec fn no_meta_order() -> MetaOrder {
    MetaOrder { send: None, spawn: None }
}

/// What the actions work on.
#[derive(Debug)]
pub struct ActionCtx {
    pub radio: Listen,
    pub meta: Meta,
    pub current_track: Option<(String, String)>,
    pub stop_instead_pause: bool,
    pub play_visible: bool,
    pub pause_visible: bool,
}

impl ActionCtx {
    /// Whether the window is as it is while nothing plays.
    pub open spec fn is_idle(self) -> bool {
        self.play_visible && !self.pause_visible && self.current_track is None
    }

    /// Whether the window is as it is while something plays of which no track is known yet.
    pub open spec fn is_starting(self) -> bool {
        !self.play_visible && self.pause_visible && self.current_track is None
    }

    /// Whether stream and gateway are of one station and run together.
    pub open spec fn in_step(self) -> bool {
        &&& self.radio.station == self.meta.station
        &&& self.radio.has_stream() == self.meta.running
    }

    /// What a station's change comes to for stream and gateway.
    pub open spec fn changed_to(self, station: Station, after: ActionCtx) -> bool {
        &&& after.radio.station == station
        &&& after.meta == (Meta { station, ..self.meta })
        &&& after.radio.state == (if self.radio.has_stream() {
            PlayState::Playing
        } else {
            PlayState::Stopped
        })
        &&& after.radio.clock == (if self.radio.has_stream() {
            PlaybackClock { live_head: 0, playback_cursor: 0 }
        } else {
            self.radio.clock
        })
        &&& after.radio.same_display(self.radio)
        &&& after.same_window(self)
    }

    /// Whether the window has not changed.
    pub open spec fn same_window(self, other: ActionCtx) -> bool {
        &&& self.current_track == other.current_track
        &&& self.stop_instead_pause == other.stop_instead_pause
        &&& self.play_visible == other.play_visible
        &&& self.pause_visible == other.pause_visible
    }

    /// The word to the stream where the station changes.
    pub open spec fn stream_change(self, station: Station) -> StreamOrder {
        if self.radio.has_stream() {
            StreamOrder { send: Some(Control::Stop), spawn: Some(station) }
        } else {
            no_stream_order()
        }
    }

    /// The word to the gateway where the station changes.
    pub open spec fn meta_change(self, station: Station) -> MetaOrder {
        if self.meta.running {
            MetaOrder { send: Some(controller::Control::Stop), spawn: Some(station) }
        } else {
            no_meta_order()
        }
    }

    pub fn new(options: UiOptions) -> (r: ActionCtx)
        ensures
            r.is_idle(),
            r.in_step(),
            r.radio.station == options.station,
            r.radio.state == PlayState::Stopped,
            r.radio.clock == (PlaybackClock { live_head: 0, playback_cursor: 0 }),
            r.radio.spectrum_bits@ == Seq::new(N_BARS as nat, |i: int| 0u32),
            r.meta == (Meta { station: options.station, running: false }),
            r.stop_instead_pause == !options.pause_resume_enabled,
    {
        ActionCtx {
            radio: Listen::new(options.station),
            meta: Meta::new(options.station),
            current_track: None,
            stop_instead_pause: !options.pause_resume_enabled(),
            play_visible: true,
            pause_visible: false,
        }
    }

    fn set_idle_ui(&mut self)
        ensures
            final(self).is_idle(),
            final(self).radio == old(self).radio,
            final(self).meta == old(self).meta,
            final(self).stop_instead_pause == old(self).stop_instead_pause,
    {
        self.pause_visible = false;
        self.play_visible = true;
        self.current_track = None;
    }

    pub fn play(&mut self) -> (r: ActionEffect)
        ensures
            final(self).is_starting(),
            old(self).in_step() ==> final(self).in_step(),
            final(self).stop_instead_pause == old(self).stop_instead_pause,
            final(self).meta == (Meta { running: true, ..old(self).meta }),
            final(self).radio.state == PlayState::Playing,
            final(self).radio.station == old(self).radio.station,
            final(self).radio.clock == old(self).radio.clock,
            final(self).radio.same_display(old(self).radio),
            r == (ActionEffect {
                meta: if old(self).meta.running {
                    MetaOrder { send: Some(controller::Control::Resume), spawn: None }
                } else {
                    MetaOrder { send: None, spawn: Some(old(self).meta.station) }
                },
                radio: match old(self).radio.state {
                    PlayState::Playing => no_stream_order(),
                    PlayState::Paused => StreamOrder { send: Some(Control::Resume), spawn: None },
                    PlayState::Stopped => StreamOrder {
                        send: None,
                        spawn: Some(old(self).radio.station),
                    },
                },
                subtitle: Subtitle::Connecting,
                playback: PlaybackStatus::Playing,
            }),
    {
        self.current_track = None;
        let meta = self.meta.start();
        let radio = self.radio.start();
        self.play_visible = false;
        self.pause_visible = true;
        ActionEffect {
            meta,
            radio,
            subtitle: Subtitle::Connecting,
            playback: PlaybackStatus::Playing,
        }
    }

    /// Pauses, or stops where the user has chosen so.
    pub fn pause(&mut self) -> (r: ActionEffect)
        ensures
            final(self).is_idle(),
            old(self).in_step() ==> final(self).in_step(),
            final(self).stop_instead_pause == old(self).stop_instead_pause,
            final(self).radio.station == old(self).radio.station,
            final(self).radio.same_display(old(self).radio),
            old(self).stop_instead_pause ==> {
                &&& final(self).meta == (Meta { running: false, ..old(self).meta })
                &&& final(self).radio.state == PlayState::Stopped
                &&& final(self).radio.clock == (PlaybackClock { live_head: 0, playback_cursor: 0 })
                &&& r == old(self).stopping()
            },
            !old(self).stop_instead_pause ==> {
                &&& final(self).meta == old(self).meta
                &&& final(self).radio.state == (if old(self).radio.state == PlayState::Playing {
                    PlayState::Paused
                } else {
                    old(self).radio.state
                })
                &&& final(self).radio.clock == old(self).radio.clock
                &&& r == old(self).pausing()
            },
    {
        if self.stop_instead_pause {
            return self.stop();
        }
        let meta = self.meta.pause();
        let radio = self.radio.pause();
        self.set_idle_ui();
        ActionEffect { meta, radio, subtitle: Subtitle::Idle, playback: PlaybackStatus::Paused }
    }

    /// What is done to stop.
    pub open spec fn stopping(self) -> ActionEffect {
        ActionEffect {
            meta: MetaOrder {
                send: if self.meta.running {
                    Some(controller::Control::Stop)
                } else {
                    None
                },
                spawn: None,
            },
            radio: StreamOrder {
                send: if self.radio.has_stream() {
                    Some(Control::Stop)
                } else {
                    None
                },
                spawn: None,
            },
            subtitle: Subtitle::Idle,
            playback: PlaybackStatus::Stopped,
        }
    }

    /// What is done to pause.
    pub open spec fn pausing(self) -> ActionEffect {
        ActionEffect {
            meta: MetaOrder {
                send: if self.meta.running {
                    Some(controller::Control::Pause)
                } else {
                    None
                },
                spawn: None,
            },
            radio: StreamOrder {
                send: if self.radio.state == PlayState::Playing {
                    Some(Control::Pause)
                } else {
                    None
                },
                spawn: None,
            },
            subtitle: Subtitle::Idle,
            playback: PlaybackStatus::Paused,
        }
    }

    pub fn stop(&mut self) -> (r: ActionEffect)
        ensures
            final(self).is_idle(),
            old(self).in_step() ==> final(self).in_step(),
            final(self).stop_instead_pause == old(self).stop_instead_pause,
            final(self).meta == (Meta { running: false, ..old(self).meta }),
            final(self).radio.state == PlayState::Stopped,
            final(self).radio.station == old(self).radio.station,
            final(self).radio.clock == (PlaybackClock { live_head: 0, playback_cursor: 0 }),
            final(self).radio.same_display(old(self).radio),
            r == old(self).stopping(),
    {
        let meta = self.meta.stop();
        let radio = self.radio.stop();
        self.set_idle_ui();
        ActionEffect { meta, radio, subtitle: Subtitle::Idle, playback: PlaybackStatus::Stopped }
    }

    /// The action that playing and pausing in turn comes to.
    pub fn toggle(&self) -> (r: Option<&'static str>)
        ensures
            match r {
                Some(action) => action@ == (if self.play_visible {
                    "win.play"@
                } else if self.stop_instead_pause {
                    "win.stop"@
                } else {
                    "win.pause"@
                }) && (self.play_visible || self.pause_visible),
                None => !self.play_visible && !self.pause_visible,
            },
    {
        if self.play_visible {
            Some("win.play")
        } else if self.pause_visible {
            if self.stop_instead_pause {
                Some("win.stop")
            } else {
                Some("win.pause")
            }
        } else {
            None
        }
    }

    /// The text that copying the track puts on the clipboard: artist and title, as far as they are
    /// known.
    pub fn copy_current_track(&self) -> (r: Option<String>)
        ensures
            match (state::names(self.current_track), r) {
                (None, _) => r is None,
                (Some((artist, title)), None) => artist.len() == 0 && title.len() == 0,
                (Some((artist, title)), Some(text)) => if artist.len() == 0 {
                    title.len() > 0 && text@ == title
                } else if title.len() == 0 {
                    text@ == artist
                } else {
                    text@ == artist + ", "@ + title
                },
            },
    {
        match &self.current_track {
            None => None,
            Some((artist, title)) => {
                if artist.as_str().is_empty() {
                    if title.as_str().is_empty() {
                        None
                    } else {
                        Some(title.clone())
                    }
                } else if title.as_str().is_empty() {
                    Some(artist.clone())
                } else {
                    let mut text = artist.clone();
                    text.push_str(", ");
                    text.push_str(title);
                    Some(text)
                }
            },
        }
    }

    fn change_station(&mut self, station: Station) -> (r: (MetaOrder, StreamOrder))
        ensures
            old(self).changed_to(station, *final(self)),
            r == (old(self).meta_change(station), old(self).stream_change(station)),
    {
        let radio = self.radio.set_station(station);
        let meta = self.meta.set_station(station);
        (meta, radio)
    }

    /// Changes to the other station, or plays where nothing plays.
    pub fn next_station(&mut self) -> (r: StationEffect)
        ensures
            old(self).in_step() ==> final(self).in_step(),
            old(self).play_visible ==> {
                &&& *final(self) == *old(self)
                &&& r.activate matches Some(action) && action@ == "win.play"@
                &&& r.meta == no_meta_order()
                &&& r.radio == no_stream_order()
            },
            !old(self).play_visible ==> {
                let station = old(self).radio.station.other();
                &&& old(self).changed_to(station, *final(self))
                &&& r.activate is None
                &&& r.meta == old(self).meta_change(station)
                &&& r.radio == old(self).stream_change(station)
            },
    {
        if self.play_visible {
            return StationEffect {
                meta: MetaOrder { send: None, spawn: None },
                radio: StreamOrder { send: None, spawn: None },
                activate: Some("win.play"),
            };
        }
        let station = other_station(self.radio.get_station());
        let (meta, radio) = self.change_station(station);
        StationEffect { meta, radio, activate: None }
    }

    /// Changes to the other station where something plays.
    pub fn prev_station(&mut self) -> (r: StationEffect)
        ensures
            old(self).in_step() ==> final(self).in_step(),
            r.activate is None,
            old(self).play_visible ==> {
                &&& *final(self) == *old(self)
                &&& r.meta == no_meta_order()
                &&& r.radio == no_stream_order()
            },
            !old(self).play_visible ==> {
                let station = old(self).radio.station.other();
                &&& old(self).changed_to(station, *final(self))
                &&& r.meta == old(self).meta_change(station)
                &&& r.radio == old(self).stream_change(station)
            },
    {
        if self.play_visible {
            return StationEffect {
                meta: MetaOrder { send: None, spawn: None },
                radio: StreamOrder { send: None, spawn: None },
                activate: None,
            };
        }
        let station = other_station(self.radio.get_station());
        let (meta, radio) = self.change_station(station);
        StationEffect { meta, radio, activate: None }
    }

    /// Changes to a station that was chosen in the menu, and plays it where nothing plays.
    pub fn choose_station(&mut self, station: Station, playing: bool) -> (r: StationEffect)
        ensures
            old(self).in_step() ==> final(self).in_step(),
            old(self).changed_to(station, *final(self)),
            r.meta == old(self).meta_change(station),
            r.radio == old(self).stream_change(station),
            playing ==> r.activate is None,
            !playing ==> (r.activate matches Some(action) && action@ == "win.play"@),
    {
        let (meta, radio) = self.change_station(station);
        StationEffect {
            meta,
            radio,
            activate: if playing {
                None
            } else {
                Some("win.play")
            },
        }
    }
}

/// The action that the window begins with, if any.
pub fn startup_action(options: &UiOptions) -> (r: Option<&'static str>)
    ensures
        match r {
            Some(action) => options.autoplay && action@ == "win.play"@,
            None => !options.autoplay,
        },
{
    if options.autoplay {
        Some("win.play")
    } else {
        None
    }
}

/// Where the station changes, what runs is stopped and begun anew with that station, and what does
/// not run is left; stream and gateway go the same way where they are in step.
pub proof fn law_change_restarts_what_runs(ctx: ActionCtx, station: Station)
    ensures
        ctx.radio.state != PlayState::Stopped ==> ctx.stream_change(station).send == Some(
            Control::Stop,
        ) && ctx.stream_change(station).spawn == Some(station),
        ctx.radio.state == PlayState::Stopped ==> ctx.stream_change(station).send is None
            && ctx.stream_change(station).spawn is None,
        ctx.meta.running ==> ctx.meta_change(station).send == Some(controller::Control::Stop)
            && ctx.meta_change(station).spawn == Some(station),
        !ctx.meta.running ==> ctx.meta_change(station).send is None && ctx.meta_change(
            station,
        ).spawn is None,
        ctx.in_step() ==> ctx.stream_change(station).spawn == ctx.meta_change(station).spawn,
{
}

/// A change of the station is a change of stream and gateway to it, and keeps them in step; a stream
/// that was paused plays, and its clock starts anew.
pub proof fn law_change_keeps_stream_and_gateway_together(
    ctx: ActionCtx,
    station: Station,
    after: ActionCtx,
)
    requires
        ctx.changed_to(station, after),
    ensures
        after.radio.station == station,
        after.meta.station == station,
        after.meta.running == ctx.meta.running,
        ctx.radio.state != PlayState::Stopped ==> after.radio.state == PlayState::Playing
            && after.radio.clock.live_head == 0 && after.radio.clock.playback_cursor == 0,
        ctx.radio.state == PlayState::Stopped ==> after.radio.state == PlayState::Stopped
            && after.radio.clock == ctx.radio.clock,
        ctx.in_step() ==> after.in_step(),
        after.play_visible == ctx.play_visible,
        after.pause_visible == ctx.pause_visible,
        after.current_track == ctx.current_track,
        after.stop_instead_pause == ctx.stop_instead_pause,
        after.radio.spectrum_bits == ctx.radio.spectrum_bits,
{
}

/// Stopping and pausing begin nothing, are told to what runs and to nothing else, and are shown as
/// what they are.
pub proof fn law_stopping_and_pausing_reach_what_runs(ctx: ActionCtx)
    ensures
        ctx.stopping().radio.spawn is None && ctx.stopping().meta.spawn is None,
        ctx.pausing().radio.spawn is None && ctx.pausing().meta.spawn is None,
        ctx.stopping().radio.send == (if ctx.radio.state == PlayState::Stopped {
            None
        } else {
            Some(Control::Stop)
        }),
        ctx.radio.state == PlayState::Playing ==> ctx.pausing().radio.send == Some(Control::Pause),
        ctx.radio.state != PlayState::Playing ==> ctx.pausing().radio.send is None,
        ctx.meta.running ==> ctx.stopping().meta.send == Some(controller::Control::Stop)
            && ctx.pausing().meta.send == Some(controller::Control::Pause),
        !ctx.meta.running ==> ctx.stopping().meta.send is None && ctx.pausing().meta.send is None,
        ctx.stopping().playback == PlaybackStatus::Stopped,
        ctx.pausing().playback == PlaybackStatus::Paused,
        ctx.stopping().subtitle == Subtitle::Idle,
        ctx.pausing().subtitle == Subtitle::Idle,
{
}

/// Playing and pausing are offered in turn, never both and never neither.
pub proof fn law_one_button_is_offered(ctx: ActionCtx)
    ensures
        ctx.is_idle() ==> ctx.play_visible && !ctx.pause_visible && ctx.current_track is None,
        ctx.is_starting() ==> !ctx.play_visible && ctx.pause_visible && ctx.current_track is None,
        !(ctx.is_idle() && ctx.is_starting()),
{
}

} // verus!
