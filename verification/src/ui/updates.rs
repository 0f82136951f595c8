//! What the window does from time to time: following the track, its cover, and what Discord is told.
use vstd::prelude::*;

use crate::meta::track;
use crate::meta::track::{copied_text, TrackInfo, TrackView};
use crate::ui::controls::NowPlaying;
use crate::ui::state;
use crate::ui::state::RuntimeState;

verus! {

/// How long after Discord was told something it is told again.
pub const DISCORD_REFRESH_MS: u64 = 2_000;

/// How long after Discord could not be told something that is tried again.
pub const DISCORD_RETRY_MS: u64 = 500;

/// What Discord is to be told.
#[derive(Debug)]
pub enum DiscordUpdate {
    Nothing,
    /// Nothing plays any more.
    Clear,
    /// This artist and title.
    Show(String, String),
}

/// What is to be done with a cover that was fetched.
#[derive(Debug, Clone, Copy, PartialEq, Eq, Structural)]
pub enum CoverAction {
    /// It belongs to another track.
    Ignore,
    /// Show it; where that fails, show none.
    Show,
    /// Show none.
    Clear,
}

/// What follows a change of the track: what Discord is told, what the media controls show, and the
/// cover to fetch; with none, none is shown.
#[derive(Debug)]
pub struct TrackUpdate {
    pub discord: DiscordUpdate,
    pub now_playing: NowPlaying,
    pub fetch_cover: Option<String>,
}

/// The cover of a track: that of the album, else the image of the artist.
pub open spec fn cover_of(track: TrackView) -> Option<Seq<char>> {
    match track.album_cover {
        Some(url) => Some(url),
        None => track.artist_image,
    }
}

/// What the window follows. Times are nanoseconds of a clock that does not go back.
#[derive(Debug)]
pub struct UpdateLoop {
    pub runtime: RuntimeState,
    pub discord_enabled: bool,
    pub was_playing: bool,
    pub last_track: Option<(String, String)>,
    pub next_discord_refresh: u128,
}

/// When Discord is told next, after it was told something or could not be.
pub open spec fn next_refresh(now: u128, told: bool) -> int {
    let wait = if told {
        DISCORD_REFRESH_MS
    } else {
        DISCORD_RETRY_MS
    };
    let next = now + wait * 1_000_000;
    if next <= u128::MAX {
        next
    } else {
        u128::MAX as int
    }
}

impl UpdateLoop {
    /// Whether Discord is to be told the track again.
    pub open spec fn refreshes(self, playing: bool, now: u128) -> bool {
        &&& playing
        &&& now >= self.next_discord_refresh
        &&& self.discord_enabled
        &&& self.last_track is Some
    }

    pub fn new(discord_enabled: bool, playing: bool, now: u128) -> (r: UpdateLoop)
        ensures
            r.runtime.current_track is None,
            r.runtime.latest_cover_url is None,
            r.discord_enabled == discord_enabled,
            r.was_playing == playing,
            r.last_track is None,
            r.next_discord_refresh == now,
    {
        UpdateLoop {
            runtime: RuntimeState::new(None),
            discord_enabled,
            was_playing: playing,
            last_track: None,
            next_discord_refresh: now,
        }
    }

    /// What Discord is to be told now: once that nothing plays, when playing ends; and the track
    /// again from time to time, while it plays.
    pub fn tick(&mut self, playing: bool, now: u128) -> (r: DiscordUpdate)
        ensures
            final(self).runtime == old(self).runtime,
            final(self).discord_enabled == old(self).discord_enabled,
            final(self).next_discord_refresh == old(self).next_discord_refresh,
            final(self).was_playing == playing,
            old(self).was_playing && !playing ==> {
                &&& final(self).last_track is None
                &&& r == (if old(self).discord_enabled {
                    DiscordUpdate::Clear
                } else {
                    DiscordUpdate::Nothing
                })
            },
            !(old(self).was_playing && !playing) ==> {
                &&& final(self).last_track == old(self).last_track
                &&& match r {
                    DiscordUpdate::Show(artist, title) => old(self).refreshes(playing, now)
                        && state::names(old(self).last_track) == Some((artist@, title@)),
                    DiscordUpdate::Nothing => !old(self).refreshes(playing, now),
                    DiscordUpdate::Clear => false,
                }
            },
    {
        let stopped = self.was_playing && !playing;
        self.was_playing = playing;
        if stopped {
            self.last_track = None;
            return if self.discord_enabled {
                DiscordUpdate::Clear
            } else {
                DiscordUpdate::Nothing
            };
        }
        if playing && now >= self.next_discord_refresh && self.discord_enabled {
            if let Some((artist, title)) = &self.last_track {
                return DiscordUpdate::Show(artist.clone(), title.clone());
            }
        }
        DiscordUpdate::Nothing
    }

    /// Takes whether Discord could be told a track.
    pub fn on_discord_told(&mut self, told: bool, now: u128)
        ensures
            final(self).next_discord_refresh == next_refresh(now, told),
            final(self).runtime == old(self).runtime,
            final(self).discord_enabled == old(self).discord_enabled,
            final(self).was_playing == old(self).was_playing,
            final(self).last_track == old(self).last_track,
    {
        let wait: u64 = if told {
            DISCORD_REFRESH_MS
        } else {
            DISCORD_RETRY_MS
        };
        self.next_discord_refresh = now.saturating_add(wait as u128 * 1_000_000);
    }

    /// Takes a change of the track. Its artist and title are then shown.
    pub fn on_track(&mut self, info: &TrackInfo) -> (r: TrackUpdate)
        ensures
            state::names(final(self).runtime.current_track) == Some((info@.artist, info@.title)),
            track::maybe(final(self).runtime.latest_cover_url) == cover_of(info@),
            final(self).discord_enabled == old(self).discord_enabled,
            final(self).was_playing == old(self).was_playing,
            final(self).next_discord_refresh == old(self).next_discord_refresh,
            old(self).discord_enabled ==> {
                &&& state::names(final(self).last_track) == Some((info@.artist, info@.title))
                &&& r.discord matches DiscordUpdate::Show(artist, title) && artist@ == info@.artist
                    && title@ == info@.title
            },
            !old(self).discord_enabled ==> final(self).last_track == old(self).last_track
                && r.discord is Nothing,
            r.now_playing.title@ == info@.title,
            r.now_playing.artist@ == info@.artist,
            r.now_playing.album@ == info@.album,
            track::maybe(r.now_playing.art_url) == cover_of(info@),
            track::maybe(r.fetch_cover) == cover_of(info@),
    {
        self.runtime.set_track(info);
        let discord = if self.discord_enabled {
            self.last_track = Some((info.artist.clone(), info.title.clone()));
            DiscordUpdate::Show(info.artist.clone(), info.title.clone())
        } else {
            DiscordUpdate::Nothing
        };
        let cover = match &info.album_cover {
            Some(url) => Some(url.clone()),
            None => copied_text(&info.artist_image),
        };
        match &cover {
            Some(url) => self.runtime.set_latest_cover_url(Some(url.as_str())),
            None => self.runtime.set_latest_cover_url(None),
        }
        TrackUpdate {
            discord,
            now_playing: NowPlaying {
                title: info.title.clone(),
                artist: info.artist.clone(),
                album: info.album.clone(),
                art_url: copied_text(&cover),
            },
            fetch_cover: cover,
        }
    }

    /// Takes whether a cover could be fetched. Only the cover of the track that is shown counts.
    pub fn on_cover(&self, url: &str, fetched: bool) -> (r: CoverAction)
        ensures
            r == (if track::maybe(self.runtime.latest_cover_url) != Some(url@) {
                CoverAction::Ignore
            } else if fetched {
                CoverAction::Show
            } else {
                CoverAction::Clear
            }),
    {
        if !self.runtime.is_latest_cover(url) {
            CoverAction::Ignore
        } else if fetched {
            CoverAction::Show
        } else {
            CoverAction::Clear
        }
    }
}

/// Discord is told again two seconds after it was told, and half a second after it could not be.
pub proof fn law_discord_is_told_again(now: u128)
    requires
        now + 2_000_000_000 <= u128::MAX,
    ensures
        next_refresh(now, true) - now == 2_000_000_000,
        next_refresh(now, false) - now == 500_000_000,
{
}

/// Discord is told a track again just while it plays, is wanted, and the time has come.
pub proof fn law_track_is_told_while_it_plays(update: UpdateLoop, playing: bool, now: u128)
    ensures
        update.refreshes(playing, now) <==> (playing && update.discord_enabled && update.last_track
            is Some && update.next_discord_refresh <= now),
{
}

/// The cover of the album goes before the image of the artist, which goes before none.
pub proof fn law_album_cover_goes_first(track: TrackView)
    ensures
        track.album_cover matches Some(url) ==> cover_of(track) == Some(url),
        track.album_cover is None ==> cover_of(track) == track.artist_image,
{
}

} // verus!
