//! The tracks that were played last.
use vstd::prelude::*;

use crate::meta::track::{build_track_info, SongInfo, TrackInfo, TrackView};
use crate::number;
use crate::number::parse_unsigned;
use crate::station::Station;

verus! {

pub const GRAPHQL_URL: &'static str = "https://listen.moe/graphql";

/// The question that the server is asked.
pub const HISTORY_QUERY: &'static str = "
  query playStatistics($offset: Int!, $count: Int!, $kpop: Boolean) {
    playStatistics(offset: $offset, count: $count, kpop: $kpop) {
      songs {
        song {
          title
          duration
          artists { name image }
          albums { name image }
        }
        createdAt
      }
    }
  }
";

pub const RECENT_HISTORY_COUNT: usize = 8;

/// When a track was played: milliseconds, as a number or in digits.
#[derive(Debug, Clone, PartialEq, Eq)]
pub enum CreatedAt {
    String(String),
    Number(u64),
}

impl CreatedAt {
    pub open spec fn millis(self) -> Option<u64> {
        match self {
            CreatedAt::String(value) => number::unsigned_value(value@),
            CreatedAt::Number(value) => Some(value),
        }
    }

    pub fn as_ms(&self) -> (r: Option<u64>)
        ensures
            r == self.millis(),
    {
        match self {
            CreatedAt::String(value) => parse_unsigned(value),
            CreatedAt::Number(value) => Some(*value),
        }
    }
}

/// A track that was played, as the server tells of it.
#[derive(Debug, Clone, PartialEq, Eq)]
pub struct PlayHistoryEntry {
    pub song: Option<SongInfo>,
    pub created_at: CreatedAt,
}

impl PlayHistoryEntry {
    /// The track, if the song is known and the time can be read.
    pub open spec fn track(self) -> Option<TrackView> {
        match (self.song, self.created_at.millis()) {
            (Some(song), Some(ms)) => Some(song.starting_at(ms)),
            _ => None,
        }
    }
}

/// The tracks of those entries that have one, in the order of the entries.
pub open spec fn tracks_in(entries: Seq<PlayHistoryEntry>) -> Seq<TrackView>
    decreases entries.len(),
{
    if entries.len() == 0 {
        Seq::empty()
    } else {
        let before = tracks_in(entries.drop_last());
        match entries.last().track() {
            Some(track) => before.push(track),
            None => before,
        }
    }
}

/// How many tracks at the front of `tracks` start no later than the given time.
pub open spec fn started_by(tracks: Seq<TrackView>, ms: u64) -> int
    decreases tracks.len(),
{
    if tracks.len() == 0 || tracks[0].start_time_ms > ms {
        0
    } else {
        1 + started_by(tracks.drop_first(), ms)
    }
}

/// `tracks` with one more put in behind those at the front that start no later.
pub open spec fn placed(tracks: Seq<TrackView>, track: TrackView) -> Seq<TrackView> {
    tracks.insert(started_by(tracks, track.start_time_ms), track)
}

/// `tracks` in the order in which they start.
pub open spec fn in_order(tracks: Seq<TrackView>) -> Seq<TrackView>
    decreases tracks.len(),
{
    if tracks.len() == 0 {
        Seq::empty()
    } else {
        placed(in_order(tracks.drop_last()), tracks.last())
    }
}

/// Whether each track starts no earlier than those before it.
pub open spec fn is_in_order(tracks: Seq<TrackView>) -> bool {
    forall|i: int, j: int|
        0 <= i < j < tracks.len() ==> tracks[i].start_time_ms <= tracks[j].start_time_ms
}

/// What each of several tracks is.
pub open spec fn views(tracks: Seq<TrackInfo>) -> Seq<TrackView> {
    tracks.map_values(|track: TrackInfo| track@)
}

proof fn lemma_started_by(tracks: Seq<TrackView>, ms: u64)
    ensures
        0 <= started_by(tracks, ms) <= tracks.len(),
        forall|i: int|
            0 <= i < started_by(tracks, ms) ==> (#[trigger] tracks[i]).start_time_ms <= ms,
        started_by(tracks, ms) < tracks.len() ==> tracks[started_by(tracks, ms)].start_time_ms > ms,
    decreases tracks.len(),
{
    if tracks.len() > 0 && tracks[0].start_time_ms <= ms {
        let rest = tracks.drop_first();
        lemma_started_by(rest, ms);
        assert forall|i: int| 0 <= i < started_by(tracks, ms) implies (
        #[trigger] tracks[i]).start_time_ms <= ms by {
            if i > 0 {
                assert(tracks[i] == rest[i - 1]);
            }
        }
    }
}

proof fn lemma_started_by_is(tracks: Seq<TrackView>, ms: u64, n: int)
    requires
        0 <= n <= tracks.len(),
        forall|i: int| 0 <= i < n ==> (#[trigger] tracks[i]).start_time_ms <= ms,
        n < tracks.len() ==> tracks[n].start_time_ms > ms,
    ensures
        started_by(tracks, ms) == n,
{
    lemma_started_by(tracks, ms);
    let m = started_by(tracks, ms);
    if m < n {
        assert(tracks[m].start_time_ms <= ms);
    }
    if n < m {
        assert(tracks[n].start_time_ms <= ms);
    }
}

/// The tracks of the entries that the server sent, in the order in which they were played.
pub fn history_tracks(entries: &[PlayHistoryEntry]) -> (r: Vec<TrackInfo>)
    ensures
        views(r@) == in_order(tracks_in(entries@)),
{
    let mut tracks: Vec<TrackInfo> = Vec::new();
    let mut i: usize = 0;
    assert(views(tracks@) =~= in_order(tracks_in(entries@.take(0))));
    while i < entries.len()
        invariant
            i <= entries@.len(),
            views(tracks@) == in_order(tracks_in(entries@.take(i as int))),
        decreases entries@.len() - i,
    {
        let entry = &entries[i];
        let ghost seen = entries@.take(i + 1);
        assert(seen.drop_last() =~= entries@.take(i as int));
        assert(seen.last() == *entry);
        if let Some(song) = &entry.song {
            if let Some(ms) = entry.created_at.as_ms() {
                let track = build_track_info(song, ms);
                let ghost before = tracks_in(entries@.take(i as int));
                assert(tracks_in(seen) == before.push(track@));
                assert(before.push(track@).drop_last() =~= before);
                place(&mut tracks, track);
            }
        }
        i += 1;
    }
    assert(entries@.take(i as int) =~= entries@);
    tracks
}

fn place(tracks: &mut Vec<TrackInfo>, track: TrackInfo)
    ensures
        views(final(tracks)@) == placed(views(old(tracks)@), track@),
{
    let ghost before = views(tracks@);
    let mut n: usize = 0;
    while n < tracks.len() && tracks[n].start_time_ms <= track.start_time_ms
        invariant
            n <= tracks@.len(),
            before == views(tracks@),
            forall|i: int|
                0 <= i < n ==> (#[trigger] before[i]).start_time_ms <= track.start_time_ms,
        decreases tracks@.len() - n,
    {
        assert(before[n as int] == tracks@[n as int]@);
        n += 1;
    }
    proof {
        if n < tracks@.len() {
            assert(before[n as int] == tracks@[n as int]@);
        }
        lemma_started_by_is(before, track.start_time_ms, n as int);
    }
    tracks.insert(n, track);
    assert(views(tracks@) =~= placed(before, track@));
}

/// Ordering tracks puts them in order.
pub proof fn law_ordered_tracks_are_in_order(tracks: Seq<TrackView>)
    ensures
        is_in_order(in_order(tracks)),
    decreases tracks.len(),
{
    if tracks.len() > 0 {
        let before = in_order(tracks.drop_last());
        let track = tracks.last();
        law_ordered_tracks_are_in_order(tracks.drop_last());
        lemma_started_by(before, track.start_time_ms);
        let n = started_by(before, track.start_time_ms);
        let after = before.insert(n, track);
        assert forall|i: int, j: int| 0 <= i < j < after.len() implies after[i].start_time_ms
            <= after[j].start_time_ms by {
            let a = if i < n {
                before[i]
            } else if i == n {
                track
            } else {
                before[i - 1]
            };
            let b = if j < n {
                before[j]
            } else if j == n {
                track
            } else {
                before[j - 1]
            };
            assert(after[i] == a);
            assert(after[j] == b);
            if j > n && i == n {
                assert(before[n].start_time_ms <= before[j - 1].start_time_ms);
            }
        }
    }
}

/// Ordering tracks loses none and adds none.
pub proof fn law_ordering_keeps_the_tracks(tracks: Seq<TrackView>)
    ensures
        in_order(tracks).to_multiset() == tracks.to_multiset(),
    decreases tracks.len(),
{
    broadcast use vstd::seq_lib::group_to_multiset_ensures;

    if tracks.len() > 0 {
        let rest = tracks.drop_last();
        let track = tracks.last();
        law_ordering_keeps_the_tracks(rest);
        let before = in_order(rest);
        lemma_started_by(before, track.start_time_ms);
        vstd::seq_lib::to_multiset_insert(before, started_by(before, track.start_time_ms), track);
        assert(rest.push(track) =~= tracks);
        assert(tracks.to_multiset() =~= rest.to_multiset().insert(track));
    }
}

/// The tracks that start at the given time.
pub open spec fn starting_at(tracks: Seq<TrackView>, ms: u64) -> Seq<TrackView> {
    tracks.filter(|track: TrackView| track.start_time_ms == ms)
}

proof fn lemma_filter_insert(
    tracks: Seq<TrackView>,
    n: int,
    track: TrackView,
    ms: u64,
)
    requires
        0 <= n <= tracks.len(),
        forall|i: int|
            n <= i < tracks.len() ==> (#[trigger] tracks[i]).start_time_ms != track.start_time_ms,
    ensures
        starting_at(tracks.insert(n, track), ms) == (if track.start_time_ms == ms {
            starting_at(tracks, ms).push(track)
        } else {
            starting_at(tracks, ms)
        }),
    decreases tracks.len() - n,
{
    reveal(Seq::filter);
    let after = tracks.insert(n, track);
    if n == tracks.len() {
        assert(after.drop_last() =~= tracks);
    } else {
        let rest = tracks.drop_last();
        assert(after.drop_last() =~= rest.insert(n, track));
        assert(after.last() == tracks.last());
        assert forall|i: int| n <= i < rest.len() implies (#[trigger] rest[i]).start_time_ms
            != track.start_time_ms by {
            assert(rest[i] == tracks[i]);
        }
        lemma_filter_insert(rest, n, track, ms);
    }
}

/// Tracks that start at the same time stay in the order in which they came.
pub proof fn law_ordering_is_stable(tracks: Seq<TrackView>, ms: u64)
    ensures
        starting_at(in_order(tracks), ms) == starting_at(tracks, ms),
    decreases tracks.len(),
{
    reveal(Seq::filter);
    if tracks.len() > 0 {
        let rest = tracks.drop_last();
        let track = tracks.last();
        law_ordering_is_stable(rest, ms);
        law_ordered_tracks_are_in_order(rest);
        let before = in_order(rest);
        lemma_started_by(before, track.start_time_ms);
        let n = started_by(before, track.start_time_ms);
        assert forall|i: int| n <= i < before.len() implies (#[trigger] before[i]).start_time_ms
            != track.start_time_ms by {
            if i > n {
                assert(before[n].start_time_ms <= before[i].start_time_ms);
            }
        }
        lemma_filter_insert(before, n, track, ms);
    }
}

/// What is asked of the server: how many of the last tracks, and of which station.
#[derive(Debug, Clone, Copy, PartialEq, Eq, Structural)]
pub struct PlayHistoryVariables {
    pub offset: usize,
    pub count: usize,
    pub kpop: bool,
}

pub fn history_variables(station: Station, count: usize) -> (r: PlayHistoryVariables)
    ensures
        r == (PlayHistoryVariables { offset: 0, count, kpop: station == Station::Kpop }),
{
    PlayHistoryVariables { offset: 0, count, kpop: station == Station::Kpop }
}

/// How the player introduces itself to the server.
pub fn history_useragent(name: &str, version: &str) -> (r: String)
    ensures
        r@ == name@ + "/"@ + version@,
{
    let mut agent = name.to_owned();
    agent.push_str("/");
    agent.push_str(version);
    agent
}

/// A time that is written in digits is the time that is given as a number.
pub proof fn law_times_in_digits_are_times(written: String, ms: u64)
    requires
        written@ == number::decimal(ms as nat),
    ensures
        CreatedAt::String(written).millis() == CreatedAt::Number(ms).millis(),
        CreatedAt::Number(ms).millis() == Some(ms),
{
    number::law_decimal_reads_back(ms);
}

/// The history has one track for each entry whose song is known and whose time can be read, and no
/// other; entries that come later give tracks that come later.
pub proof fn law_history_has_the_known_tracks(
    entries: Seq<PlayHistoryEntry>,
    entry: PlayHistoryEntry,
)
    ensures
        tracks_in(Seq::empty()) == Seq::<TrackView>::empty(),
        match (entry.song, entry.created_at.millis()) {
            (Some(song), Some(ms)) => {
                &&& tracks_in(entries.push(entry)).drop_last() == tracks_in(entries)
                &&& tracks_in(entries.push(entry)).last().start_time_ms == ms
                &&& tracks_in(entries.push(entry)).last().title == song.title@
                &&& tracks_in(entries.push(entry)).last().artist == song.artist@
                &&& tracks_in(entries.push(entry)).len() == tracks_in(entries).len() + 1
            },
            _ => tracks_in(entries.push(entry)) == tracks_in(entries),
        },
{
    assert(entries.push(entry).drop_last() =~= entries);
    if let Some(track) = entry.track() {
        assert(tracks_in(entries).push(track).drop_last() =~= tracks_in(entries));
    }
}

} // verus!
