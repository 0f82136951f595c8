//! The system's media controls.
use vstd::prelude::*;

verus! {

/// What the user asked for with the media controls.
#[derive(Debug, Clone, Copy, PartialEq, Eq, Structural)]
pub enum MediaControlEvent {
    Play,
    Pause,
    Stop,
    Toggle,
    Next,
    Previous,
    SetVolume(u8),
}

impl MediaControlEvent {
    /// The action of the window for an event. A volume is set in another way.
    pub fn action_name(self) -> (r: &'static str)
        requires
            !(self is SetVolume),
        ensures
            r@ == (match self {
                MediaControlEvent::Play => "win.play"@,
                MediaControlEvent::Pause => "win.pause"@,
                MediaControlEvent::Stop => "win.stop"@,
                MediaControlEvent::Toggle => "win.toggle"@,
                MediaControlEvent::Next => "win.next_station"@,
                _ => "win.prev_station"@,
            }),
    {
        match self {
            MediaControlEvent::Play => "win.play",
            MediaControlEvent::Pause => "win.pause",
            MediaControlEvent::Stop => "win.stop",
            MediaControlEvent::Toggle => "win.toggle",
            MediaControlEvent::Next => "win.next_station",
            _ => "win.prev_station",
        }
    }
}

/// What the media controls show.
#[derive(Debug, Clone, PartialEq, Eq)]
pub struct NowPlaying {
    pub title: String,
    pub artist: String,
    pub album: String,
    pub art_url: Option<String>,
}

/// The states of playback that the media controls know.
#[derive(Debug, Clone, Copy, PartialEq, Eq, Structural)]
pub enum PlaybackStatus {
    Playing,
    Paused,
    Stopped,
}

} // verus!
