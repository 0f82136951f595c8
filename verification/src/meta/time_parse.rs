//! Times as the gateway writes them.
use time::format_description::well_known::Rfc3339;
use time::OffsetDateTime;
use vstd::prelude::*;

use crate::meta::track::{build_track_info, SongInfo, TrackInfo};

verus! {

/// The instant that a text in the format of RFC 3339 names, in nanoseconds since the start of 1970,
/// or nothing if `time` does not read the text as such.
pub uninterp spec fn rfc3339_nanos(s: Seq<char>) -> Option<i128>;

/// Reads a text in the format of RFC 3339. Calls `time::OffsetDateTime::parse` with the well-known
/// format `Rfc3339` and gives the instant by `unix_timestamp_nanos`. The result is claimed to be a
/// function of the text; which texts are read, and as what, is left to that crate.
#[verifier::external_body]
fn parse_rfc3339_nanos(s: &str) -> (r: Option<i128>)
    ensures
        r == rfc3339_nanos(s@),
{
    match OffsetDateTime::parse(s, &Rfc3339) {
        Ok(instant) => Some(instant.unix_timestamp_nanos()),
        Err(_) => None,
    }
}

/// Nanoseconds as whole milliseconds, towards zero, if that is a number of at most 64 bits without
/// a sign.
pub open spec fn millis_of_nanos(nanos: int) -> Option<u64> {
    if nanos >= 0 {
        if nanos / 1_000_000 <= u64::MAX {
            Some((nanos / 1_000_000) as u64)
        } else {
            None
        }
    } else if nanos > -1_000_000 {
        Some(0)
    } else {
        None
    }
}

pub fn nanos_to_millis(nanos: i128) -> (r: Option<u64>)
    ensures
        r == millis_of_nanos(nanos as int),
{
    if nanos >= 0 {
        let millis: i128 = nanos / 1_000_000;
        if millis <= 0xffff_ffff_ffff_ffff {
            Some(millis as u64)
        } else {
            None
        }
    } else if nanos > -1_000_000 {
        Some(0)
    } else {
        None
    }
}

/// The time that a text names, in milliseconds.
pub open spec fn timestamp_of(s: Seq<char>) -> Option<u64> {
    match rfc3339_nanos(s) {
        Some(nanos) => millis_of_nanos(nanos as int),
        None => None,
    }
}

pub fn parse_rfc3339_timestamp_ms(s: &str) -> (r: Option<u64>)
    ensures
        r == timestamp_of(s@),
{
    match parse_rfc3339_nanos(s) {
        Some(nanos) => nanos_to_millis(nanos),
        None => None,
    }
}

/// The track that the gateway tells of, by the song and the text that names its start.
pub fn parse_track_info(start_time: &str, song: &SongInfo) -> (r: Option<TrackInfo>)
    ensures
        match timestamp_of(start_time@) {
            Some(ms) => r is Some && r->0@ == song.starting_at(ms),
            None => r is None,
        },
{
    match parse_rfc3339_timestamp_ms(start_time) {
        Some(ms) => Some(build_track_info(song, ms)),
        None => None,
    }
}

/// Later instants have later times, as far as they have one.
pub proof fn law_times_keep_their_order(a: int, b: int)
    requires
        a <= b,
        millis_of_nanos(a) is Some,
        millis_of_nanos(b) is Some,
    ensures
        millis_of_nanos(a)->0 <= millis_of_nanos(b)->0,
{
}

/// The milliseconds of an instant are the whole ones that have passed since the epoch; an instant a
/// whole millisecond before it, or too far after it, has none.
pub proof fn law_milliseconds_are_whole(nanos: int)
    ensures
        match millis_of_nanos(nanos) {
            Some(ms) => nanos >= 0 && ms * 1_000_000 <= nanos < (ms + 1) * 1_000_000 || (nanos < 0
                && nanos > -1_000_000 && ms == 0),
            None => nanos <= -1_000_000 || nanos >= 0x1_0000_0000_0000_0000 * 1_000_000,
        },
{
}

/// A text has a time just if it names an instant that has one, and then it is that time.
pub proof fn law_timestamp_is_that_of_the_instant(s: Seq<char>)
    ensures
        match (rfc3339_nanos(s), timestamp_of(s)) {
            (Some(nanos), Some(ms)) => nanos > -1_000_000 && (nanos >= 0 ==> ms * 1_000_000 <= nanos
                < (ms + 1) * 1_000_000),
            (Some(nanos), None) => nanos <= -1_000_000 || nanos >= 0x1_0000_0000_0000_0000
                * 1_000_000,
            (None, ms) => ms is None,
        },
{
    if let Some(nanos) = rfc3339_nanos(s) {
        law_milliseconds_are_whole(nanos as int);
    }
}

} // verus!
