//! What the recording promises of times: how long audio lasts, when it starts, and which frame plays
//! at a time.
use vstd::prelude::*;

use crate::listen::clock::PlaybackClock;
use crate::listen::live::LiveClockTracker;
use crate::listen::store;
use crate::listen::store::{AppendView, CursorView, PlanView, SegmentView, StoreView};

verus! {

/// A quotient is the largest number whose product with the divisor is not above the dividend.
proof fn lemma_quotient(x: int, d: int)
    requires
        0 <= x,
        0 < d,
    ensures
        0 <= x / d,
        (x / d) * d <= x < (x / d + 1) * d,
        x / d <= x,
{
    vstd::arithmetic::div_mod::lemma_fundamental_div_mod(x, d);
    vstd::arithmetic::div_mod::lemma_mod_bound(x, d);
    let q = x / d;
    assert(d * q == q * d) by (nonlinear_arith);
    assert((q + 1) * d == q * d + d) by (nonlinear_arith);
    assert(q >= 0) by (nonlinear_arith)
        requires
            q * d + d > 0,
            0 < d,
            (q + 1) * d == q * d + d,
    ;
    assert(q <= q * d) by (nonlinear_arith)
        requires
            q >= 0,
            d >= 1,
    ;
}

/// Only the quotient lies between those bounds.
proof fn lemma_quotient_is(x: int, d: int, q: int)
    requires
        0 <= x,
        0 < d,
        q * d <= x < (q + 1) * d,
    ensures
        x / d == q,
{
    lemma_quotient(x, d);
    let p = x / d;
    assert(p == q) by (nonlinear_arith)
        requires
            0 < d,
            q * d <= x,
            x < (q + 1) * d,
            p * d <= x,
            x < (p + 1) * d,
    ;
}

/// A chunk comes of audio that has a rate, channels and at least one whole frame, and of no other.
pub proof fn law_whole_frames_make_a_chunk(
    previous_live_head_ms: u64,
    sample_rate: u32,
    channels: u16,
    sample_count: nat,
    now_ms: u64,
)
    ensures
        store::chunk_timing(previous_live_head_ms, sample_rate, channels, sample_count, now_ms)
            is Some <==> (sample_rate > 0 && channels > 0 && sample_count >= channels),
{
    if channels > 0 {
        lemma_quotient(sample_count as int, channels as int);
        let frames = sample_count as int / channels as int;
        assert(frames == 0 <==> sample_count < channels) by (nonlinear_arith)
            requires
                frames >= 0,
                frames * channels <= sample_count,
                sample_count < (frames + 1) * channels,
        ;
    }
}

/// A chunk lasts as long as its frames play at its rate, in whole milliseconds, and never less than
/// one.
pub proof fn law_chunk_lasts_as_long_as_it_plays(
    previous_live_head_ms: u64,
    sample_rate: u32,
    channels: u16,
    sample_count: nat,
    now_ms: u64,
    frames: int,
)
    requires
        sample_rate > 0,
        channels > 0,
        frames > 0,
        frames * channels <= sample_count < (frames + 1) * channels,
        previous_live_head_ms + frames * 1000 <= u64::MAX,
    ensures
        ({
            let timing = store::chunk_timing(
                previous_live_head_ms,
                sample_rate,
                channels,
                sample_count,
                now_ms,
            );
            let (start, end) = timing->0;
            let lasts = end - start;
            &&& timing is Some
            &&& lasts >= 1
            &&& frames * 1000 < (lasts + 1) * sample_rate
            &&& lasts * sample_rate <= frames * 1000 || (lasts == 1 && frames * 1000 < sample_rate)
        }),
{
    lemma_quotient_is(sample_count as int, channels as int, frames);
    let total = frames * 1000;
    lemma_quotient(total, sample_rate as int);
    let ms = total / sample_rate as int;
    assert(store::duration_of(frames as u64, sample_rate) == if ms > 1 {
        ms
    } else {
        1
    });
    if ms == 0 {
        assert((0int + 1) * sample_rate == sample_rate) by (nonlinear_arith);
        assert((1int + 1) * sample_rate == 2 * sample_rate) by (nonlinear_arith);
    }
}

/// Audio of a whole number of seconds lasts that many seconds.
pub proof fn law_whole_seconds_last_whole_seconds(
    previous_live_head_ms: u64,
    sample_rate: u32,
    channels: u16,
    seconds: int,
    now_ms: u64,
)
    requires
        sample_rate > 0,
        channels > 0,
        seconds > 0,
        previous_live_head_ms + seconds * sample_rate * 1000 <= u64::MAX,
    ensures
        store::chunk_timing(
            previous_live_head_ms,
            sample_rate,
            channels,
            (seconds * sample_rate * channels) as nat,
            now_ms,
        ) matches Some((start, end)) && end - start == 1000 * seconds,
{
    let frames = seconds * sample_rate;
    let count = frames * channels;
    assert(frames > 0) by (nonlinear_arith)
        requires
            frames == seconds * sample_rate,
            seconds > 0,
            sample_rate > 0,
    ;
    assert(count >= 0) by (nonlinear_arith)
        requires
            count == frames * channels,
            frames > 0,
            channels > 0,
    ;
    assert((frames + 1) * channels == frames * channels + channels) by (nonlinear_arith);
    law_chunk_lasts_as_long_as_it_plays(
        previous_live_head_ms,
        sample_rate,
        channels,
        count as nat,
        now_ms,
        frames,
    );
    let timing = store::chunk_timing(
        previous_live_head_ms,
        sample_rate,
        channels,
        count as nat,
        now_ms,
    );
    let (start, end) = timing->0;
    let lasts = end - start;
    assert(frames * 1000 == (1000 * seconds) * sample_rate) by (nonlinear_arith)
        requires
            frames == seconds * sample_rate,
    ;
    assert(!(frames * 1000 < sample_rate)) by (nonlinear_arith)
        requires
            frames == seconds * sample_rate,
            seconds > 0,
    ;
    assert(lasts == 1000 * seconds) by (nonlinear_arith)
        requires
            sample_rate > 0,
            lasts * sample_rate <= (1000 * seconds) * sample_rate,
            (1000 * seconds) * sample_rate < (lasts + 1) * sample_rate,
    ;
}

/// A chunk follows the audio before it, unless it arrives more than one and a half seconds later
/// than that; then, and where there is none before it, it ends when it arrives.
pub proof fn law_chunk_follows_or_ends_at_its_arrival(
    previous_live_head_ms: u64,
    sample_rate: u32,
    channels: u16,
    sample_count: nat,
    now_ms: u64,
    frames: int,
)
    requires
        sample_rate > 0,
        channels > 0,
        frames > 0,
        frames * channels <= sample_count < (frames + 1) * channels,
        previous_live_head_ms + frames * 1000 <= u64::MAX,
    ensures
        ({
            let timing = store::chunk_timing(
                previous_live_head_ms,
                sample_rate,
                channels,
                sample_count,
                now_ms,
            );
            let (start, end) = timing->0;
            let lasts = end - start;
            let late = previous_live_head_ms == 0 || now_ms - lasts > previous_live_head_ms + 1500;
            &&& timing is Some
            &&& !late ==> start == previous_live_head_ms
            &&& late && lasts <= now_ms ==> end == now_ms
            &&& late && lasts > now_ms ==> start == 0
        }),
{
    law_chunk_lasts_as_long_as_it_plays(
        previous_live_head_ms,
        sample_rate,
        channels,
        sample_count,
        now_ms,
        frames,
    );
    lemma_quotient_is(sample_count as int, channels as int, frames);
    lemma_quotient(frames * 1000, sample_rate as int);
}

/// On one connection the live clock moves on by the time that the audio plays, in whole milliseconds
/// and at least one; the first audio of a connection ends when it came in.
pub proof fn law_live_clock_moves_on_by_what_plays(
    tracker: LiveClockTracker,
    sample_rate: u32,
    channels: u16,
    sample_count: nat,
    now_ms: u64,
    frames: int,
)
    requires
        sample_rate > 0,
        channels > 0,
        frames > 0,
        frames * channels <= sample_count < (frames + 1) * channels,
        tracker.live_head_ms + frames * 1000 <= u64::MAX,
    ensures
        ({
            let after = tracker.after_audio(sample_rate, channels, sample_count, now_ms);
            let runs = tracker.live_head_ms != 0 && !tracker.resync_from_wall;
            let moved = after.live_head_ms - tracker.live_head_ms;
            &&& !after.resync_from_wall
            &&& after.last_flushed_ms == tracker.last_flushed_ms
            &&& runs ==> {
                &&& moved >= 1
                &&& frames * 1000 < (moved + 1) * sample_rate
                &&& moved * sample_rate <= frames * 1000 || (moved == 1 && frames * 1000
                    < sample_rate)
            }
            &&& !runs && now_ms * sample_rate >= frames * 1000 && now_ms >= 1
                ==> after.live_head_ms == now_ms
        }),
{
    lemma_quotient_is(sample_count as int, channels as int, frames);
    let total = frames * 1000;
    let rate = sample_rate as int;
    lemma_quotient(total, rate);
    let ms = total / rate;
    if ms == 0 {
        assert((0int + 1) * sample_rate == sample_rate) by (nonlinear_arith);
        assert((1int + 1) * sample_rate == 2 * sample_rate) by (nonlinear_arith);
    }
    if now_ms * sample_rate >= frames * 1000 {
        assert(ms <= now_ms) by (nonlinear_arith)
            requires
                ms * rate <= total,
                total <= now_ms * rate,
                rate > 0,
        ;
    }
}

/// Audio without a rate, without channels or without a whole frame leaves the live clock alone.
pub proof fn law_no_audio_leaves_the_live_clock(
    tracker: LiveClockTracker,
    sample_rate: u32,
    channels: u16,
    sample_count: nat,
    now_ms: u64,
)
    requires
        sample_rate == 0 || channels == 0 || sample_count < channels,
    ensures
        tracker.after_audio(sample_rate, channels, sample_count, now_ms) == tracker,
{
    if channels > 0 && sample_count < channels {
        assert(0int * channels == 0) by (nonlinear_arith);
        assert((0int + 1) * channels == channels) by (nonlinear_arith);
        lemma_quotient_is(sample_count as int, channels as int, 0);
    }
}

/// The listener's clock is set once the live clock runs and then each time it has moved on by a
/// quarter of a second. Setting it puts the listener at the live head.
pub proof fn law_listener_follows_the_live_clock(tracker: LiveClockTracker, clock: PlaybackClock)
    ensures
        tracker.live_head_ms == 0 ==> !tracker.is_due() && tracker.shown(clock) == clock
            && tracker.flushed() == tracker,
        tracker.live_head_ms != 0 ==> {
            &&& tracker.is_due() <==> (tracker.last_flushed_ms == 0 || tracker.live_head_ms
                >= tracker.last_flushed_ms + 250)
            &&& tracker.shown(clock).live_head == tracker.live_head_ms
            &&& tracker.shown(clock).playback_cursor == tracker.live_head_ms
            &&& tracker.flushed().live_head_ms == tracker.live_head_ms
            &&& !tracker.flushed().is_due()
        },
{
}

proof fn lemma_first_bounds(
    segments: Seq<SegmentView>,
    p: spec_fn(SegmentView) -> bool,
    from: int,
)
    requires
        0 <= from,
    ensures
        match store::first_from(segments, p, from) {
            Some(i) => {
                &&& from <= i < segments.len()
                &&& p(segments[i])
                &&& forall|j: int| from <= j < i ==> !p(#[trigger] segments[j])
            },
            None => forall|j: int| from <= j < segments.len() ==> !p(#[trigger] segments[j]),
        },
    decreases segments.len() - from,
{
    if from < segments.len() && !p(segments[from]) {
        lemma_first_bounds(segments, p, from + 1);
    }
}

proof fn lemma_first_is(segments: Seq<SegmentView>, p: spec_fn(SegmentView) -> bool, i: int)
    requires
        0 <= i < segments.len(),
        p(segments[i]),
        forall|j: int| 0 <= j < i ==> !p(#[trigger] segments[j]),
    ensures
        store::first_from(segments, p, 0) == Some(i),
{
    lemma_first_bounds(segments, p, 0);
    match store::first_from(segments, p, 0) {
        Some(k) => {
            if k < i {
                assert(!p(segments[k]));
            }
            if i < k {
                assert(!p(segments[i]));
            }
        },
        None => {
            assert(!p(segments[i]));
        },
    }
}

/// Whether a frame of a segment is the one that plays a time after the segment's start: not after
/// that time, while the frame behind it is. Where the segment has no such frame any more, its end
/// takes the place.
pub open spec fn plays_after(segment: SegmentView, ms: int, frame: u64) -> bool {
    if frame < segment.frames {
        frame * 1000 <= ms * segment.sample_rate < (frame + 1) * 1000
    } else {
        frame == segment.frames && segment.frames * 1000 <= ms * segment.sample_rate
    }
}

proof fn lemma_frame_at(segment: SegmentView, ms: u64)
    requires
        segment.start_ms <= ms,
        (ms - segment.start_ms) * segment.sample_rate <= u64::MAX,
    ensures
        plays_after(segment, ms - segment.start_ms, segment.frame_at(ms)),
{
    let product = (ms - segment.start_ms) * segment.sample_rate;
    assert(product >= 0) by (nonlinear_arith)
        requires
            product == (ms - segment.start_ms) * segment.sample_rate,
            segment.start_ms <= ms,
    ;
    lemma_quotient(product, 1000);
    if ms == segment.start_ms {
        assert(product == 0) by (nonlinear_arith)
            requires
                product == (ms - segment.start_ms) * segment.sample_rate,
                ms == segment.start_ms,
        ;
    }
}

/// The place for a time stands in the first segment that plays then, at the frame that plays then.
pub proof fn law_cursor_stands_where_its_time_plays(store: StoreView, ms: u64, i: int)
    requires
        0 <= i < store.segments.len(),
        store.segments[i].start_ms <= ms < store.segments[i].end_ms,
        forall|j: int|
            #![trigger store.segments[j]]
            0 <= j < i ==> !(store.segments[j].start_ms <= ms < store.segments[j].end_ms),
        (ms - store.segments[i].start_ms) * store.segments[i].sample_rate <= u64::MAX,
    ensures
        ({
            let segment = store.segments[i];
            let cursor = store.cursor_at(ms)->0;
            &&& store.cursor_at(ms) is Some
            &&& cursor.name == segment.name
            &&& cursor.position_ms == ms
            &&& cursor.frame_offset <= segment.frames
            &&& cursor.frame_offset < segment.frames ==> cursor.frame_offset * 1000 <= (ms
                - segment.start_ms) * segment.sample_rate < (cursor.frame_offset + 1) * 1000
            &&& cursor.frame_offset == segment.frames ==> segment.frames * 1000 <= (ms
                - segment.start_ms) * segment.sample_rate
        }),
{
    lemma_first_is(store.segments, store::plays_at(ms), i);
    lemma_frame_at(store.segments[i], ms);
}

/// Where nothing plays at a time, its place is the start of the first segment that ends after it.
pub proof fn law_cursor_in_a_gap_stands_behind_it(store: StoreView, ms: u64, i: int)
    requires
        0 <= i < store.segments.len(),
        ms < store.segments[i].end_ms,
        forall|j: int|
            #![trigger store.segments[j]]
            0 <= j < store.segments.len() ==> !(store.segments[j].start_ms <= ms
                < store.segments[j].end_ms),
        forall|j: int| #![trigger store.segments[j]] 0 <= j < i ==> store.segments[j].end_ms <= ms,
    ensures
        store.cursor_at(ms) matches Some(cursor) && cursor.name == store.segments[i].name
            && cursor.frame_offset == 0 && cursor.position_ms == store.segments[i].start_ms,
{
    lemma_first_bounds(store.segments, store::plays_at(ms), 0);
    lemma_first_is(store.segments, store::ends_after(ms), i);
}

/// A time has no place just if the whole recording ends before it.
pub proof fn law_no_cursor_behind_the_recording(store: StoreView, ms: u64)
    ensures
        store.cursor_at(ms) is None <==> (forall|j: int|
            #![trigger store.segments[j]]
            0 <= j < store.segments.len() ==> store.segments[j].end_ms <= ms),
{
    lemma_first_bounds(store.segments, store::plays_at(ms), 0);
    lemma_first_bounds(store.segments, store::ends_after(ms), 0);
}

/// Once its segment has been dropped, a place goes on by its time, in the first segment that ends
/// after it: at the frame that plays then, or at the segment's start where that comes later.
pub proof fn law_cursor_outlives_its_segment(store: StoreView, cursor: CursorView, i: int)
    requires
        0 <= i < store.segments.len(),
        forall|j: int|
            #![trigger store.segments[j]]
            0 <= j < store.segments.len() ==> store.segments[j].name != cursor.name,
        cursor.position_ms < store.segments[i].end_ms,
        forall|j: int|
            #![trigger store.segments[j]]
            0 <= j < i ==> store.segments[j].end_ms <= cursor.position_ms,
        (cursor.position_ms - store.segments[i].start_ms) * store.segments[i].sample_rate
            <= u64::MAX,
    ensures
        ({
            let segment = store.segments[i];
            let (k, frame, moved) = store.resolved(cursor)->0;
            &&& store.resolved(cursor) is Some
            &&& k == i
            &&& moved.name == segment.name
            &&& moved.frame_offset == frame
            &&& cursor.position_ms < segment.start_ms ==> frame == 0 && moved.position_ms
                == segment.start_ms
            &&& cursor.position_ms >= segment.start_ms ==> moved.position_ms == cursor.position_ms
            &&& cursor.position_ms >= segment.start_ms && frame < segment.frames ==> frame * 1000
                <= (cursor.position_ms - segment.start_ms) * segment.sample_rate < (frame + 1)
                * 1000
            &&& cursor.position_ms >= segment.start_ms && frame >= segment.frames ==> frame
                == segment.frames && segment.frames * 1000 <= (cursor.position_ms
                - segment.start_ms) * segment.sample_rate
        }),
{
    lemma_first_bounds(store.segments, store::named(cursor.name), 0);
    lemma_first_is(store.segments, store::ends_after(cursor.position_ms), i);
    if cursor.position_ms >= store.segments[i].start_ms {
        lemma_frame_at(store.segments[i], cursor.position_ms);
    }
}

/// A place whose segment is still there, with audio behind it, is read from just there.
pub proof fn law_cursor_keeps_its_place(
    store: StoreView,
    cursor: CursorView,
    max_duration_ms: u64,
    i: int,
)
    requires
        store.wf(),
        0 <= i < store.segments.len(),
        cursor.name == store.segments[i].name,
        cursor.frame_offset < store.segments[i].frames,
        cursor.frame_offset * store.segments[i].channels * 4 <= u64::MAX,
    ensures
        store.moved(cursor) == cursor,
        store.plan(cursor, max_duration_ms) matches Some(plan) && {
            &&& plan.segment == i
            &&& plan.name == cursor.name
            &&& plan.frame_offset == cursor.frame_offset
            &&& plan.byte_offset == cursor.frame_offset * store.segments[i].channels * 4
        },
{
    assert forall|j: int| 0 <= j < i implies !store::named(cursor.name)(
        #[trigger] store.segments[j],
    ) by {
        store::law_segment_names_differ(store.segments[j].id, store.segments[i].id);
    }
    lemma_first_is(store.segments, store::named(cursor.name), i);
    let product = cursor.frame_offset * store.segments[i].channels;
    assert(product >= 0) by (nonlinear_arith)
        requires
            product == cursor.frame_offset * store.segments[i].channels,
    ;
}

/// A place at the end of its segment goes on at the start of the next one, where that has audio.
pub proof fn law_exhausted_segment_is_left(
    store: StoreView,
    cursor: CursorView,
    max_duration_ms: u64,
    i: int,
)
    requires
        store.wf(),
        0 <= i < store.segments.len() - 1,
        cursor.name == store.segments[i].name,
        cursor.frame_offset >= store.segments[i].frames,
        store.segments[i + 1].frames > 0,
    ensures
        ({
            let next = store.segments[i + 1];
            let plan = store.plan(cursor, max_duration_ms)->0;
            let moved = store.moved(cursor);
            &&& store.plan(cursor, max_duration_ms) is Some
            &&& plan.segment == i + 1
            &&& plan.frame_offset == 0
            &&& plan.byte_offset == 0
            &&& moved.name == next.name
            &&& moved.frame_offset == 0
            &&& moved.position_ms == next.start_ms
        }),
{
    assert forall|j: int| 0 <= j < i implies !store::named(cursor.name)(
        #[trigger] store.segments[j],
    ) by {
        store::law_segment_names_differ(store.segments[j].id, store.segments[i].id);
    }
    lemma_first_is(store.segments, store::named(cursor.name), i);
    reveal_with_fuel(StoreView::settled, 2);
    assert(0 * store.segments[i + 1].channels == 0) by (nonlinear_arith);
}

/// A place at the end of the newest segment waits there for more.
pub proof fn law_place_at_the_end_waits(store: StoreView, cursor: CursorView, max_duration_ms: u64)
    requires
        store.wf(),
        store.segments.len() > 0,
        cursor.name == store.segments.last().name,
        cursor.frame_offset >= store.segments.last().frames,
    ensures
        store.plan(cursor, max_duration_ms) is None,
        store.moved(cursor) == cursor,
{
    let i = store.segments.len() - 1;
    assert forall|j: int| 0 <= j < i implies !store::named(cursor.name)(
        #[trigger] store.segments[j],
    ) by {
        store::law_segment_names_differ(store.segments[j].id, store.segments[i].id);
    }
    lemma_first_is(store.segments, store::named(cursor.name), i);
}

/// A read takes as many frames as play in the time that was asked for, and at least one; fewer only
/// where the segment has no more.
pub proof fn law_read_lasts_as_asked(store: StoreView, cursor: CursorView, max_duration_ms: u64)
    requires
        store.countable(cursor, max_duration_ms),
        store.plan(cursor, max_duration_ms) is Some,
    ensures
        ({
            let plan = store.plan(cursor, max_duration_ms)->0;
            let segment = store.segments[plan.segment];
            let asked = if max_duration_ms > 1 {
                max_duration_ms as int
            } else {
                1
            };
            &&& plan.frames >= 1
            &&& plan.frame_offset + plan.frames <= segment.frames
            &&& plan.frames == 1 || plan.frames * 1000 <= asked * segment.sample_rate
            &&& plan.frame_offset + plan.frames < segment.frames ==> asked * segment.sample_rate
                < (plan.frames + 1) * 1000
        }),
{
    let plan = store.plan(cursor, max_duration_ms)->0;
    let segment = store.segments[plan.segment];
    let asked = if max_duration_ms > 1 {
        max_duration_ms as int
    } else {
        1
    };
    let product = asked * segment.sample_rate;
    assert(product >= 0) by (nonlinear_arith)
        requires
            product == asked * segment.sample_rate,
            asked >= 1,
    ;
    assert(product <= u64::MAX) by {
        if max_duration_ms <= 1 {
            assert(product == segment.sample_rate) by (nonlinear_arith)
                requires
                    product == asked * segment.sample_rate,
                    asked == 1,
            ;
        }
    }
    lemma_quotient(product, 1000);
}

/// A frame starts as long after its segment as the frames before it play, in whole milliseconds.
pub proof fn law_frame_starts_after_those_before_it(segment: SegmentView, frame: u64)
    requires
        segment.sample_rate > 0,
        segment.start_ms + frame * 1000 <= u64::MAX,
    ensures
        ({
            let after = segment.time_of(frame) - segment.start_ms;
            after >= 0 && after * segment.sample_rate <= frame * 1000 < (after + 1)
                * segment.sample_rate
        }),
{
    lemma_quotient(frame * 1000, segment.sample_rate as int);
}

/// The frame found for a time has begun by then, and the frame behind it begins no earlier.
pub proof fn law_frame_and_time_agree(segment: SegmentView, ms: u64)
    requires
        segment.sample_rate > 0,
        segment.start_ms <= ms,
        (ms - segment.start_ms) * segment.sample_rate <= u64::MAX,
        segment.frame_at(ms) < segment.frames,
        segment.start_ms + segment.frames * 1000 <= u64::MAX,
    ensures
        segment.time_of(segment.frame_at(ms)) <= ms,
        ms <= segment.time_of((segment.frame_at(ms) + 1) as u64),
{
    let frame = segment.frame_at(ms);
    let rate = segment.sample_rate as int;
    let d = ms - segment.start_ms;
    lemma_frame_at(segment, ms);
    assert(segment.start_ms + (frame + 1) * 1000 <= u64::MAX);
    law_frame_starts_after_those_before_it(segment, frame);
    law_frame_starts_after_those_before_it(segment, (frame + 1) as u64);
    let a = segment.time_of(frame) - segment.start_ms;
    let b = segment.time_of((frame + 1) as u64) - segment.start_ms;
    assert(a <= d) by (nonlinear_arith)
        requires
            a * rate <= frame * 1000,
            frame * 1000 <= d * rate,
            rate > 0,
    ;
    assert(d <= b) by (nonlinear_arith)
        requires
            d * rate < (frame + 1) * 1000,
            (frame + 1) * 1000 < (b + 1) * rate,
            rate > 0,
    ;
}

/// What is read ends when the frame behind it would start, and never after its segment.
pub proof fn law_read_ends_where_the_next_begins(store: StoreView, plan: PlanView)
    requires
        plan.frame_offset + plan.frames <= u64::MAX,
    ensures
        ({
            let segment = store.segments[plan.segment];
            let next = segment.time_of((plan.frame_offset + plan.frames) as u64);
            &&& store.read_until(plan) <= next
            &&& store.read_until(plan) <= segment.end_ms
            &&& store.read_until(plan) == next || store.read_until(plan) == segment.end_ms
        }),
{
}

/// After a read the place is right behind what was read, or at the start of the segment that
/// follows where nothing is left in this one.
pub proof fn law_place_moves_behind_what_was_read(
    store: StoreView,
    cursor: CursorView,
    plan: PlanView,
)
    requires
        0 <= plan.segment < store.segments.len(),
        plan.frame_offset + plan.frames <= store.segments[plan.segment].frames,
    ensures
        ({
            let after = store.advanced(cursor, plan);
            let next = plan.frame_offset + plan.frames;
            let done = next == store.segments[plan.segment].frames;
            let last = plan.segment == store.segments.len() - 1;
            &&& !done || last ==> after.name == cursor.name && after.frame_offset == next
                && after.position_ms == store.read_until(plan)
            &&& done && !last ==> {
                let following = store.segments[plan.segment + 1];
                &&& after.name == following.name
                &&& after.frame_offset == 0
                &&& after.position_ms == following.start_ms
            }
        }),
{
}

/// Audio goes on in the newest segment just if it is of the same kind, begins no later than the
/// segment ends, and the segment is below its full size of 64 MiB. Else it gets a file of its own,
/// with a number that no segment has had.
pub proof fn law_segments_are_of_one_kind(
    store: StoreView,
    sample_rate: u32,
    channels: u16,
    samples: Seq<u32>,
    now_ms: u64,
)
    requires
        store.wf(),
        store.pending(sample_rate, channels, samples, now_ms) is Some,
    ensures
        ({
            let append = store.pending(sample_rate, channels, samples, now_ms)->0;
            let newest = store.segments.last();
            &&& append.sample_rate == sample_rate
            &&& append.channels == channels
            &&& append.new_file is None <==> (store.segments.len() > 0 && newest.sample_rate
                == sample_rate && newest.channels == channels && newest.bytes < 67_108_864
                && append.start_ms <= newest.end_ms)
            &&& append.new_file is None ==> append.segment_id == newest.id
            &&& append.new_file matches Some(name) ==> {
                &&& name == store::segment_name(append.segment_id)
                &&& forall|i: int|
                    #![trigger store.segments[i]]
                    0 <= i < store.segments.len() ==> store.segments[i].id < append.segment_id
                        && store.segments[i].name != name
                &&& store.asked(append).next_segment_id > append.segment_id
                    || store.next_segment_id == u64::MAX
            }
        }),
{
    let append = store.pending(sample_rate, channels, samples, now_ms)->0;
    assert forall|i: int|
        #![trigger store.segments[i]]
        0 <= i < store.segments.len() && append.new_file is Some implies store.segments[i].name
        != store::segment_name(append.segment_id) by {
        store::law_segment_names_differ(store.segments[i].id, append.segment_id);
    }
}

/// Audio that is taken in follows the recording, unless it arrives more than one and a half seconds
/// later than that, and lasts as long as its frames play. All its whole frames are counted.
pub proof fn law_append_follows_the_recording(
    store: StoreView,
    sample_rate: u32,
    channels: u16,
    samples: Seq<u32>,
    now_ms: u64,
    frames: int,
)
    requires
        sample_rate > 0,
        channels > 0,
        frames > 0,
        frames * channels <= samples.len() < (frames + 1) * channels,
        store.live_head_ms + frames * 1000 <= u64::MAX,
    ensures
        ({
            let append = store.pending(sample_rate, channels, samples, now_ms)->0;
            let lasts = append.end_ms - append.start_ms;
            let late = store.live_head_ms == 0 || now_ms - lasts > store.live_head_ms + 1500;
            &&& store.pending(sample_rate, channels, samples, now_ms) is Some
            &&& append.frames == frames
            &&& lasts >= 1
            &&& frames * 1000 < (lasts + 1) * sample_rate
            &&& lasts * sample_rate <= frames * 1000 || (lasts == 1 && frames * 1000 < sample_rate)
            &&& !late ==> append.start_ms == store.live_head_ms
            &&& late && lasts <= now_ms ==> append.end_ms == now_ms
        }),
{
    law_chunk_lasts_as_long_as_it_plays(
        store.live_head_ms,
        sample_rate,
        channels,
        samples.len(),
        now_ms,
        frames,
    );
    law_chunk_follows_or_ends_at_its_arrival(
        store.live_head_ms,
        sample_rate,
        channels,
        samples.len(),
        now_ms,
        frames,
    );
    lemma_quotient_is(samples.len() as int, channels as int, frames);
}

/// An append moves the end of the recording to its own end. A segment that it begins starts where it
/// starts; one that it goes on in keeps its start; those before are left alone.
pub proof fn law_append_moves_the_live_head(store: StoreView, append: AppendView)
    requires
        append.new_file is None ==> store.segments.len() > 0,
    ensures
        ({
            let after = store.appended(append);
            let newest = after.segments.last();
            let before = if append.new_file is Some {
                store.segments.len() as int
            } else {
                store.segments.len() - 1
            };
            &&& after.live_head_ms == append.end_ms
            &&& after.retention_ms == store.retention_ms
            &&& after.segments.len() == before + 1
            &&& newest.end_ms == append.end_ms
            &&& append.new_file is Some ==> {
                &&& newest.id == append.segment_id
                &&& newest.start_ms == append.start_ms
                &&& newest.sample_rate == append.sample_rate
                &&& newest.channels == append.channels
                &&& newest.frames == append.frames
            }
            &&& append.new_file is None ==> {
                &&& newest.id == store.segments.last().id
                &&& newest.start_ms == store.segments.last().start_ms
                &&& newest.sample_rate == store.segments.last().sample_rate
                &&& newest.channels == store.segments.last().channels
                &&& store.segments.last().frames + append.frames <= u64::MAX ==> newest.frames
                    == store.segments.last().frames + append.frames
            }
            &&& forall|i: int|
                #![trigger after.segments[i]]
                0 <= i < before ==> after.segments[i] == store.segments[i]
        }),
{
}

/// The oldest segment is dropped just if it ended longer ago than audio is kept, and never the only
/// one.
pub proof fn law_recent_audio_is_kept(store: StoreView)
    ensures
        store.drops_oldest() <==> (store.segments.len() > 1 && store.segments[0].end_ms
            + store.retention_ms < store.live_head_ms),
        store.drops_oldest() ==> store.without_oldest().segments.len() == store.segments.len() - 1,
        store.without_oldest().live_head_ms == store.live_head_ms,
{
}

/// What is left of a time without another is what has to be added to that to make it up, or nothing.
pub proof fn law_difference_makes_up_the_time(t: u64, d: u64)
    ensures
        d <= t ==> store::time_before(t, d) + d == t,
        d > t ==> store::time_before(t, d) == 0,
{
}

/// A time inside the recording is left as it is; one outside moves to the nearer end.
pub proof fn law_times_are_held_to_the_recording(store: StoreView, ms: u64)
    requires
        store.segments.len() > 0,
        store.segments[0].start_ms <= store.live_head_ms,
        ms > 0,
    ensures
        store.segments[0].start_ms <= store.held(ms) <= store.live_head_ms,
        store.segments[0].start_ms <= ms <= store.live_head_ms ==> store.held(ms) == ms,
        ms < store.segments[0].start_ms ==> store.held(ms) == store.segments[0].start_ms,
        ms > store.live_head_ms ==> store.held(ms) == store.live_head_ms,
{
}

/// Without a time, or without a recording, nothing is moved.
pub proof fn law_no_time_is_left_alone(store: StoreView, ms: u64)
    requires
        ms == 0 || store.segments.len() == 0,
    ensures
        store.held(ms) == ms,
{
}

/// The next start after a time is that of the first segment that starts after it.
pub proof fn law_next_start_is_the_first_after(store: StoreView, ms: u64)
    ensures
        match store.next_start(ms) {
            Some(start) => start > ms && exists|i: int|
                #![trigger store.segments[i]]
                0 <= i < store.segments.len() && store.segments[i].start_ms == start && forall|
                    j: int,
                |
                    #![trigger store.segments[j]]
                    0 <= j < i ==> store.segments[j].start_ms <= ms,
            None => forall|j: int|
                #![trigger store.segments[j]]
                0 <= j < store.segments.len() ==> store.segments[j].start_ms <= ms,
        },
{
    lemma_first_bounds(store.segments, store::starts_after(ms), 0);
    if let Some(i) = store::first_from(store.segments, store::starts_after(ms), 0) {
        assert(store.segments[i].start_ms > ms);
    }
}

} // verus!
