//! What the window knows of the track that it shows.
use vstd::prelude::*;

use crate::meta::track;
use crate::meta::track::TrackInfo;
use crate::text;
use crate::text::same_text;

verus! {

/// Why the window shows no track any more.
#[derive(Debug, Clone, Copy, PartialEq, Eq, Structural)]
pub enum UiResetReason {
    Paused,
    Stopped,
}

/// What the window is told.
#[derive(Debug, Clone, PartialEq, Eq)]
pub enum UiEvent {
    Connecting,
    Reset(UiResetReason),
    TrackChanged(TrackInfo),
}

/// The artist and title of a track, as text.
pub open spec fn names(track: Option<(String, String)>) -> Option<(Seq<char>, Seq<char>)> {
    match track {
        Some((artist, title)) => Some((artist@, title@)),
        None => None,
    }
}

/// The track that is shown, and the cover that belongs to it.
#[derive(Debug, Clone, PartialEq, Eq)]
pub struct RuntimeState {
    pub current_track: Option<(String, String)>,
    pub latest_cover_url: Option<String>,
}

impl RuntimeState {
    pub fn new(current_track: Option<(String, String)>) -> (r: RuntimeState)
        ensures
            r.current_track == current_track,
            r.latest_cover_url is None,
    {
        RuntimeState { current_track, latest_cover_url: None }
    }

    pub fn set_track(&mut self, track: &TrackInfo)
        ensures
            names(final(self).current_track) == Some((track@.artist, track@.title)),
            final(self).latest_cover_url == old(self).latest_cover_url,
    {
        self.current_track = Some((track.artist.clone(), track.title.clone()));
    }

    pub fn clear_track(&mut self)
        ensures
            final(self).current_track is None,
            final(self).latest_cover_url == old(self).latest_cover_url,
    {
        self.current_track = None;
    }

    pub fn set_latest_cover_url(&mut self, url: Option<&str>)
        ensures
            track::maybe(final(self).latest_cover_url) == text::optional(url),
            final(self).current_track == old(self).current_track,
    {
        self.latest_cover_url = match url {
            Some(url) => Some(url.to_owned()),
            None => None,
        };
    }

    pub fn is_latest_cover(&self, url: &str) -> (r: bool)
        ensures
            r == (track::maybe(self.latest_cover_url) == Some(url@)),
    {
        match &self.latest_cover_url {
            Some(latest) => same_text(latest, url),
            None => false,
        }
    }
}

/// The names of a track are its artist and its title, in this order.
pub proof fn law_names_are_artist_and_title(artist: String, title: String)
    ensures
        names(Some((artist, title))) == Some((artist@, title@)),
        names(None) is None,
{
}

} // verus!
