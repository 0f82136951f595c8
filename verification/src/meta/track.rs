//! Tracks.
use vstd::prelude::*;

use crate::number;

verus! {

pub const ALBUM_COVER_BASE: &'static str = "https://cdn.listen.moe/covers/";

pub const ARTIST_IMAGE_BASE: &'static str = "https://cdn.listen.moe/artists/";

/// A track and when it plays.
#[derive(Debug, Clone, PartialEq, Eq)]
pub struct TrackInfo {
    pub artist: String,
    pub title: String,
    pub album: String,
    pub album_cover: Option<String>,
    pub artist_image: Option<String>,
    pub start_time_ms: u64,
    pub duration_secs: u32,
}

/// What a track is, its texts as sequences.
pub struct TrackView {
    pub artist: Seq<char>,
    pub title: Seq<char>,
    pub album: Seq<char>,
    pub album_cover: Option<Seq<char>>,
    pub artist_image: Option<Seq<char>>,
    pub start_time_ms: u64,
    pub duration_secs: u32,
}

/// The characters of a text that may be missing.
pub open spec fn maybe(s: Option<String>) -> Option<Seq<char>> {
    match s {
        Some(s) => Some(s@),
        None => None,
    }
}

impl View for TrackInfo {
    type V = TrackView;

    open spec fn view(&self) -> TrackView {
        TrackView {
            artist: self.artist@,
            title: self.title@,
            album: self.album@,
            album_cover: maybe(self.album_cover),
            artist_image: maybe(self.artist_image),
            start_time_ms: self.start_time_ms,
            duration_secs: self.duration_secs,
        }
    }
}

impl TrackView {
    /// The time at which the track is over.
    pub open spec fn end(self) -> u64 {
        number::capped(self.start_time_ms + self.duration_secs * 1000)
    }

    /// Whether the track plays at the given time. One without a known length goes on.
    pub open spec fn plays_at(self, ms: u64) -> bool {
        self.start_time_ms <= ms && (self.duration_secs == 0 || ms < self.end())
    }
}

impl TrackInfo {
    pub fn end_time_ms(&self) -> (r: u64)
        ensures
            r == self@.end(),
    {
        self.start_time_ms.saturating_add(self.duration_secs as u64 * 1000)
    }

    pub fn contains_timestamp_ms(&self, timestamp_ms: u64) -> (r: bool)
        ensures
            r == self@.plays_at(timestamp_ms),
    {
        if self.duration_secs == 0 {
            return timestamp_ms >= self.start_time_ms;
        }
        timestamp_ms >= self.start_time_ms && timestamp_ms < self.end_time_ms()
    }
}

/// A track of known length plays from its start, and not at its end any more. A track that follows
/// it then does not play at the same time.
pub proof fn law_tracks_in_a_row_do_not_overlap(first: TrackView, second: TrackView, ms: u64)
    requires
        first.duration_secs > 0,
        second.start_time_ms >= first.end(),
    ensures
        !(first.plays_at(ms) && second.plays_at(ms)),
        first.end() > first.start_time_ms ==> first.plays_at(first.start_time_ms),
        !first.plays_at(first.end()),
{
}

/// What is told of a song, apart from when it plays.
#[derive(Debug, Clone, PartialEq, Eq)]
pub struct SongInfo {
    pub artist: String,
    pub title: String,
    pub album: String,
    pub album_cover: Option<String>,
    pub artist_image: Option<String>,
    pub duration_secs: u32,
}

impl SongInfo {
    /// The song as a track that starts at the given time.
    pub open spec fn starting_at(self, start_time_ms: u64) -> TrackView {
        TrackView {
            artist: self.artist@,
            title: self.title@,
            album: self.album@,
            album_cover: maybe(self.album_cover),
            artist_image: maybe(self.artist_image),
            start_time_ms,
            duration_secs: self.duration_secs,
        }
    }
}

/// A copy of a text that may be missing.
pub fn copied_text(s: &Option<String>) -> (r: Option<String>)
    ensures
        maybe(r) == maybe(*s),
{
    match s {
        Some(text) => Some(text.clone()),
        None => None,
    }
}

/// The song as a track that starts at the given time.
pub fn build_track_info(song: &SongInfo, start_time_ms: u64) -> (r: TrackInfo)
    ensures
        r@ == song.starting_at(start_time_ms),
{
    TrackInfo {
        artist: song.artist.clone(),
        title: song.title.clone(),
        album: song.album.clone(),
        album_cover: copied_text(&song.album_cover),
        artist_image: copied_text(&song.artist_image),
        start_time_ms,
        duration_secs: song.duration_secs,
    }
}

/// A track plays for as many seconds as it lasts, from its start; without a known length it goes on
/// from its start.
pub proof fn law_track_plays_for_its_length(track: TrackView, ms: u64)
    requires
        track.start_time_ms + track.duration_secs * 1000 <= u64::MAX,
    ensures
        track.duration_secs > 0 ==> (track.plays_at(ms) <==> track.start_time_ms <= ms
            < track.start_time_ms + 1000 * track.duration_secs),
        track.duration_secs == 0 ==> (track.plays_at(ms) <==> track.start_time_ms <= ms),
        track.end() - track.start_time_ms == 1000 * track.duration_secs,
{
}

/// A song keeps its names, images and length wherever it is placed in time.
pub proof fn law_song_keeps_its_names(song: SongInfo, a: u64, b: u64)
    ensures
        song.starting_at(a).start_time_ms == a,
        song.starting_at(a) == (TrackView { start_time_ms: a, ..song.starting_at(b) }),
        song.starting_at(a).artist == song.artist@,
        song.starting_at(a).title == song.title@,
        song.starting_at(a).album == song.album@,
        song.starting_at(a).duration_secs == song.duration_secs,
        song.starting_at(a).album_cover == maybe(song.album_cover),
        song.starting_at(a).artist_image == maybe(song.artist_image),
{
}

/// The images of a song are those of its track, as far as it has any.
pub proof fn law_song_keeps_its_images(song: SongInfo, ms: u64)
    ensures
        song.album_cover matches Some(url) ==> song.starting_at(ms).album_cover == Some(url@),
        song.album_cover is None ==> song.starting_at(ms).album_cover is None,
        song.artist_image matches Some(url) ==> song.starting_at(ms).artist_image == Some(url@),
        song.artist_image is None ==> song.starting_at(ms).artist_image is None,
{
}

} // verus!
