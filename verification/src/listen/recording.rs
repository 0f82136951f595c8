//! What the recording promises of the files that it lies in: audio that was written is read back
//! whole, in order and once.
use vstd::prelude::*;

use crate::listen::pcm;
use crate::listen::store;
use crate::listen::store::{
    AppendView, CursorView, PlanView, SegmentView, StoreView, MAX_SEGMENT_BYTES,
};
use crate::number;

verus! {

impl SegmentView {
    /// The length in bytes of the given number of frames.
    pub open spec fn span(self, frames: int) -> int {
        frames * (self.channels * 4)
    }
}

impl StoreView {
    /// Whether the files hold the audio of each segment.
    pub open spec fn lies_in(self, files: Map<Seq<char>, Seq<u8>>) -> bool {
        forall|i: int|
            #![trigger self.segments[i]]
            0 <= i < self.segments.len() ==> {
                let segment = self.segments[i];
                &&& files.contains_key(segment.name)
                &&& segment.span(segment.frames as int) <= files[segment.name].len()
                &&& segment.span(segment.frames as int) <= u64::MAX
            }
    }

    /// Whether the files hold the audio of each segment and nothing else.
    pub open spec fn fills(self, files: Map<Seq<char>, Seq<u8>>) -> bool {
        forall|i: int|
            #![trigger self.segments[i]]
            0 <= i < self.segments.len() ==> {
                let segment = self.segments[i];
                &&& files.contains_key(segment.name)
                &&& segment.span(segment.frames as int) == files[segment.name].len()
                &&& segment.bytes == files[segment.name].len()
            }
    }

    /// The audio from a frame of a segment to the end of the recording.
    pub open spec fn audio_from(self, files: Map<Seq<char>, Seq<u8>>, i: int, frame: int) -> Seq<u8>
        decreases self.segments.len() - i,
    {
        if i < 0 || i >= self.segments.len() {
            Seq::empty()
        } else {
            let segment = self.segments[i];
            files[segment.name].subrange(
                segment.span(frame),
                segment.span(segment.frames as int),
            ) + self.audio_from(files, i + 1, 0)
        }
    }

    /// The audio that lies ahead of a cursor.
    pub open spec fn ahead(self, files: Map<Seq<char>, Seq<u8>>, cursor: CursorView) -> Seq<u8> {
        match self.position(cursor) {
            None => Seq::empty(),
            Some((i, frame, moved)) => self.audio_from(files, i, frame as int),
        }
    }

    /// The bytes that a plan reads.
    pub open spec fn bytes_read(self, files: Map<Seq<char>, Seq<u8>>, plan: PlanView) -> Seq<u8> {
        files[plan.name].subrange(
            plan.byte_offset as int,
            plan.byte_offset + plan.byte_count,
        )
    }

    /// Where a cursor stands after up to `n` reads.
    pub open spec fn cursor_after(self, cursor: CursorView, max_duration_ms: u64, n: nat) -> CursorView
        decreases n,
    {
        if n == 0 {
            cursor
        } else {
            match self.plan(cursor, max_duration_ms) {
                None => cursor,
                Some(plan) => self.cursor_after(
                    self.advanced(self.moved(cursor), plan),
                    max_duration_ms,
                    (n - 1) as nat,
                ),
            }
        }
    }

    /// What up to `n` reads from a cursor give, one behind the other.
    pub open spec fn read_in_turn(
        self,
        files: Map<Seq<char>, Seq<u8>>,
        cursor: CursorView,
        max_duration_ms: u64,
        n: nat,
    ) -> Seq<u8>
        decreases n,
    {
        if n == 0 {
            Seq::empty()
        } else {
            match self.plan(cursor, max_duration_ms) {
                None => Seq::empty(),
                Some(plan) => self.bytes_read(files, plan) + self.read_in_turn(
                    files,
                    self.advanced(self.moved(cursor), plan),
                    max_duration_ms,
                    (n - 1) as nat,
                ),
            }
        }
    }
}

proof fn lemma_span_bounds(segment: SegmentView, a: int, b: int)
    requires
        0 <= a <= b,
    ensures
        0 <= segment.span(a) <= segment.span(b),
        segment.channels > 0 && a < b ==> segment.span(a) < segment.span(b),
        segment.span(0) == 0,
        segment.span(b) - segment.span(a) == segment.span(b - a),
{
    let unit = segment.channels * 4;
    assert(0 <= a * unit <= b * unit) by (nonlinear_arith)
        requires
            0 <= a <= b,
            unit >= 0,
    ;
    assert(unit > 0 && a < b ==> a * unit < b * unit) by (nonlinear_arith);
    assert(b * unit - a * unit == (b - a) * unit) by (nonlinear_arith);
}

/// Where the audio of a segment is addressable, bytes are counted without a cap.
proof fn lemma_frame_bytes(segment: SegmentView, frames: u64)
    requires
        segment.span(frames as int) <= u64::MAX,
    ensures
        segment.frame_bytes(frames) == segment.span(frames as int),
{
    let channels = segment.channels as int;
    assert(frames * (channels * 4) == (frames * channels) * 4) by (nonlinear_arith);
    assert(frames * channels >= 0) by (nonlinear_arith)
        requires
            channels >= 0,
    ;
}

/// The name of a segment leads to that segment.
proof fn lemma_found_by_name(store: StoreView, i: int, from: int)
    requires
        store.wf(),
        0 <= from <= i < store.segments.len(),
    ensures
        store::first_from(store.segments, store::named(store.segments[i].name), from) == Some(i),
    decreases i - from,
{
    if from < i {
        store::law_segment_names_differ(store.segments[from].id, store.segments[i].id);
        lemma_found_by_name(store, i, from + 1);
    }
}

/// Going past exhausted segments skips no audio.
proof fn lemma_settled(store: StoreView, files: Map<Seq<char>, Seq<u8>>, i: int, frame: u64)
    requires
        store.wf(),
        store.lies_in(files),
        0 <= i < store.segments.len(),
        frame <= store.segments[i].frames,
    ensures
        ({
            let (k, at) = store.settled(i, frame);
            &&& i <= k < store.segments.len()
            &&& at <= store.segments[k].frames
            &&& k == i ==> at == frame
            &&& k > i ==> at == 0
            &&& store.audio_from(files, k, at as int) == store.audio_from(files, i, frame as int)
            &&& at == store.segments[k].frames ==> k + 1 == store.segments.len()
        }),
    decreases store.segments.len() - i,
{
    let segment = store.segments[i];
    if segment.frames > frame || i + 1 >= store.segments.len() {
    } else {
        lemma_settled(store, files, i + 1, 0);
        lemma_span_bounds(segment, frame as int, segment.frames as int);
        assert(store.audio_from(files, i, frame as int) =~= store.audio_from(files, i + 1, 0));
    }
}

proof fn lemma_resolved_bounds(store: StoreView, cursor: CursorView)
    ensures
        store.resolved(cursor) matches Some((i, frame, moved)) ==> {
            &&& 0 <= i < store.segments.len()
            &&& frame <= store.segments[i].frames
            &&& moved.name == store.segments[i].name
        },
{
    lemma_first_bounds(store.segments, store::named(cursor.name), 0);
    lemma_first_bounds(store.segments, store::ends_after(cursor.position_ms), 0);
}

proof fn lemma_first_bounds(
    segments: Seq<SegmentView>,
    p: spec_fn(SegmentView) -> bool,
    from: int,
)
    requires
        0 <= from,
    ensures
        store::first_from(segments, p, from) matches Some(i) ==> from <= i < segments.len() && p(
            segments[i],
        ),
    decreases segments.len() - from,
{
    if from < segments.len() && !p(segments[from]) {
        lemma_first_bounds(segments, p, from + 1);
    }
}

/// One read gives the audio right ahead of the cursor, and the cursor then stands right behind it.
/// Nothing is planned only if no audio is ahead.
pub proof fn law_read_takes_what_is_ahead(
    store: StoreView,
    files: Map<Seq<char>, Seq<u8>>,
    cursor: CursorView,
    max_duration_ms: u64,
)
    requires
        store.wf(),
        store.lies_in(files),
        store.countable(cursor, max_duration_ms),
    ensures
        match store.plan(cursor, max_duration_ms) {
            None => store.ahead(files, cursor).len() == 0,
            Some(plan) => {
                let next = store.advanced(store.moved(cursor), plan);
                &&& store.has(plan)
                &&& store.bytes_read(files, plan).len() > 0
                &&& store.ahead(files, cursor) == store.bytes_read(files, plan) + store.ahead(
                    files,
                    next,
                )
            },
        },
{
    lemma_resolved_bounds(store, cursor);
    if let Some((first, first_frame, resolved)) = store.resolved(cursor) {
        lemma_settled(store, files, first, first_frame);
        let (i, frame) = store.settled(first, first_frame);
        let segment = store.segments[i];
        let total = segment.frames as int;
        lemma_span_bounds(segment, frame as int, total);
        match store.plan(cursor, max_duration_ms) {
            None => {
                assert(store.audio_from(files, i + 1, 0).len() == 0);
                assert(store.audio_from(files, i, frame as int).len() == 0);
            },
            Some(plan) => {
                let next = plan.frame_offset + plan.frames;
                let most = segment.frames_in(max_duration_ms);
                assert(most >= 1);
                assert(store.has(plan));
                lemma_span_bounds(segment, frame as int, next as int);
                lemma_span_bounds(segment, next as int, total);
                lemma_span_bounds(segment, plan.frames as int, total);
                lemma_frame_bytes(segment, frame);
                lemma_frame_bytes(segment, plan.frames);
                let file = files[segment.name];
                assert(store.bytes_read(files, plan) =~= file.subrange(
                    segment.span(frame as int),
                    segment.span(next as int),
                ));
                assert(store.audio_from(files, i, frame as int) =~= store.bytes_read(files, plan)
                    + store.audio_from(files, i, next as int));
                let after = store.advanced(store.moved(cursor), plan);
                assert(store.moved(cursor).name == segment.name);
                lemma_found_by_name(store, i, 0);
                if next >= total && i + 1 < store.segments.len() {
                    lemma_found_by_name(store, i + 1, 0);
                    assert(store.resolved(after) == Some((i + 1, 0u64, after)));
                    lemma_settled(store, files, i + 1, 0);
                    assert(store.audio_from(files, i, next as int) =~= store.audio_from(
                        files,
                        i + 1,
                        0,
                    ));
                } else {
                    assert(store.resolved(after) == Some((i, next as u64, after)));
                    lemma_settled(store, files, i, next as u64);
                }
            },
        }
    }
}

/// Reads that follow one another neither drop nor repeat audio: together with what is still ahead
/// they make up what was ahead at first. As many reads as there are bytes leave nothing over.
pub proof fn law_reads_in_turn_give_everything(
    store: StoreView,
    files: Map<Seq<char>, Seq<u8>>,
    cursor: CursorView,
    max_duration_ms: u64,
    n: nat,
)
    requires
        store.wf(),
        store.lies_in(files),
        forall|i: int|
            0 <= i < store.segments.len() ==> max_duration_ms * (
            #[trigger] store.segments[i]).sample_rate <= u64::MAX,
    ensures
        store.ahead(files, cursor) == store.read_in_turn(files, cursor, max_duration_ms, n)
            + store.ahead(files, store.cursor_after(cursor, max_duration_ms, n)),
        n >= store.ahead(files, cursor).len() ==> store.read_in_turn(
            files,
            cursor,
            max_duration_ms,
            n,
        ) == store.ahead(files, cursor),
    decreases n,
{
    lemma_plan_bounds(store, files, cursor, max_duration_ms);
    law_read_takes_what_is_ahead(store, files, cursor, max_duration_ms);
    let all = store.ahead(files, cursor);
    let taken = store.read_in_turn(files, cursor, max_duration_ms, n);
    match store.plan(cursor, max_duration_ms) {
        None => {
            assert(all =~= taken + all);
        },
        Some(plan) => {
            if n == 0 {
                assert(all =~= taken + all);
            } else {
                let next = store.advanced(store.moved(cursor), plan);
                let m = (n - 1) as nat;
                law_reads_in_turn_give_everything(store, files, next, max_duration_ms, m);
                assert(all =~= taken + store.ahead(
                    files,
                    store.cursor_after(next, max_duration_ms, m),
                ));
            }
        },
    }
}

proof fn lemma_plan_bounds(
    store: StoreView,
    files: Map<Seq<char>, Seq<u8>>,
    cursor: CursorView,
    max_duration_ms: u64,
)
    requires
        store.wf(),
        store.lies_in(files),
    ensures
        store.plan(cursor, max_duration_ms) matches Some(plan) ==> 0 <= plan.segment
            < store.segments.len(),
{
    lemma_resolved_bounds(store, cursor);
    if let Some((first, first_frame, resolved)) = store.resolved(cursor) {
        lemma_settled(store, files, first, first_frame);
    }
}

/// The files once the bytes of an append have been written.
pub open spec fn files_after(files: Map<Seq<char>, Seq<u8>>, append: AppendView) -> Map<
    Seq<char>,
    Seq<u8>,
> {
    let name = store::segment_name(append.segment_id);
    let before = if append.new_file is Some {
        Seq::empty()
    } else {
        files[name]
    };
    files.insert(name, before + append.bytes)
}

/// Audio from a segment on is not changed by what happens to the files of earlier segments, nor by
/// what happens to those segments.
proof fn lemma_same_audio(
    a: StoreView,
    a_files: Map<Seq<char>, Seq<u8>>,
    i: int,
    b: StoreView,
    b_files: Map<Seq<char>, Seq<u8>>,
    shift: int,
    frame: int,
)
    requires
        0 <= i,
        0 <= i + shift,
        a.segments.len() + shift == b.segments.len(),
        forall|k: int|
            #![trigger a.segments[k]]
            i <= k < a.segments.len() ==> a.segments[k] == b.segments[k + shift]
                && a_files[a.segments[k].name] == b_files[a.segments[k].name],
    ensures
        a.audio_from(a_files, i, frame) == b.audio_from(b_files, i + shift, frame),
    decreases a.segments.len() - i,
{
    if i < a.segments.len() {
        assert(a.segments[i] == b.segments[i + shift]);
        lemma_same_audio(a, a_files, i + 1, b, b_files, shift, 0);
    }
}

/// An append leaves the recording in order, and its files hold just its audio, if they did before
/// and the audio consists of whole frames.
pub proof fn law_append_fills_the_files(
    store: StoreView,
    files: Map<Seq<char>, Seq<u8>>,
    sample_rate: u32,
    channels: u16,
    samples: Seq<u32>,
    now_ms: u64,
)
    requires
        store.wf(),
        store.fills(files),
        store.next_segment_id < u64::MAX,
        channels > 0 ==> samples.len() % channels as nat == 0,
        4 * samples.len() + MAX_SEGMENT_BYTES <= u64::MAX,
    ensures
        store.pending(sample_rate, channels, samples, now_ms) matches Some(append) ==> {
            &&& store.appended(append).wf()
            &&& store.appended(append).fills(files_after(files, append))
            &&& store.appended(append).lies_in(files_after(files, append))
        },
{
    if let Some(append) = store.pending(sample_rate, channels, samples, now_ms) {
        let after = store.appended(append);
        let written = files_after(files, append);
        let newest = after.segments.last();
        let count = after.segments.len() as int;
        let prior = if append.new_file is Some {
            0
        } else {
            store.segments.last().frames as int
        };
        let unit = channels * 4;
        assert(samples.len() == channels * append.frames) by {
            vstd::arithmetic::div_mod::lemma_fundamental_div_mod(
                samples.len() as int,
                channels as int,
            );
        }
        assert(append.bytes.len() == 4 * samples.len());
        assert(append.frames * (channels * 4) == 4 * (channels * append.frames))
            by (nonlinear_arith);
        assert((prior + append.frames) * unit == prior * unit + append.frames * unit)
            by (nonlinear_arith);
        assert(prior + append.frames <= (prior + append.frames) * unit) by (nonlinear_arith)
            requires
                unit >= 1,
                prior >= 0,
        ;
        assert forall|k: int| #![trigger after.segments[k]] 0 <= k < count implies {
            let segment = after.segments[k];
            &&& written.contains_key(segment.name)
            &&& segment.span(segment.frames as int) == written[segment.name].len()
            &&& segment.bytes == written[segment.name].len()
        } by {
            if k < count - 1 {
                assert(after.segments[k] == store.segments[k]);
                store::law_segment_names_differ(after.segments[k].id, append.segment_id);
            }
        }
    }
}

/// An append adds its samples to the end of the recording, and nothing else: from every place on,
/// there is to be read what there was before and then those samples.
pub proof fn law_append_adds_its_samples(
    store: StoreView,
    files: Map<Seq<char>, Seq<u8>>,
    sample_rate: u32,
    channels: u16,
    samples: Seq<u32>,
    now_ms: u64,
    i: int,
    frame: int,
)
    requires
        store.wf(),
        store.fills(files),
        store.next_segment_id < u64::MAX,
        channels > 0 ==> samples.len() % channels as nat == 0,
        4 * samples.len() + MAX_SEGMENT_BYTES <= u64::MAX,
        0 <= i < store.segments.len() && 0 <= frame <= store.segments[i].frames || (i == 0 && frame
            == 0),
    ensures
        store.pending(sample_rate, channels, samples, now_ms) matches Some(append)
            ==> store.appended(append).audio_from(files_after(files, append), i, frame)
            == store.audio_from(files, i, frame) + pcm::bytes_of(samples),
    decreases store.segments.len() - i,
{
    if let Some(append) = store.pending(sample_rate, channels, samples, now_ms) {
        law_append_fills_the_files(store, files, sample_rate, channels, samples, now_ms);
        let after = store.appended(append);
        let written = files_after(files, append);
        let last = store.segments.len() - 1;
        if i < last {
            law_append_adds_its_samples(
                store,
                files,
                sample_rate,
                channels,
                samples,
                now_ms,
                i + 1,
                0,
            );
            assert(after.segments[i] == store.segments[i]);
            store::law_segment_names_differ(after.segments[i].id, append.segment_id);
            assert(after.audio_from(written, i, frame) =~= store.audio_from(files, i, frame)
                + append.bytes);
        } else {
            reveal_with_fuel(StoreView::audio_from, 3);
            if append.new_file is Some {
                let fresh = after.segments[last + 1];
                lemma_span_bounds(fresh, 0, fresh.frames as int);
                assert(written[fresh.name] =~= append.bytes);
                assert(after.audio_from(written, last + 1, 0) =~= append.bytes);
                if i == last {
                    assert(after.segments[i] == store.segments[i]);
                    store::law_segment_names_differ(after.segments[i].id, append.segment_id);
                }
                assert(after.audio_from(written, i, frame) =~= store.audio_from(files, i, frame)
                    + append.bytes);
            } else {
                let old_last = store.segments[last];
                let new_last = after.segments[last];
                lemma_span_bounds(old_last, frame, old_last.frames as int);
                assert(old_last.span(frame) == new_last.span(frame));
                assert(after.audio_from(written, i, frame) =~= store.audio_from(files, i, frame)
                    + append.bytes);
            }
        }
    }
}

/// Dropping the oldest segment and its file leaves the rest of the recording as it was.
pub proof fn law_dropping_the_oldest_keeps_the_rest(
    store: StoreView,
    files: Map<Seq<char>, Seq<u8>>,
    i: int,
    frame: int,
)
    requires
        store.wf(),
        store.fills(files),
        store.drops_oldest(),
        0 <= i,
    ensures
        ({
            let rest = store.without_oldest();
            let kept = files.remove(store.segments[0].name);
            &&& rest.wf()
            &&& rest.fills(kept)
            &&& rest.audio_from(kept, i, frame) == store.audio_from(files, i + 1, frame)
        }),
{
    let rest = store.without_oldest();
    let kept = files.remove(store.segments[0].name);
    assert forall|k: int| 0 <= k < rest.segments.len() implies {
        &&& #[trigger] rest.segments[k] == store.segments[k + 1]
        &&& rest.segments[k].name != store.segments[0].name
    } by {
        store::law_segment_names_differ(store.segments[k + 1].id, store.segments[0].id);
    }
    assert(rest.fills(kept));
    lemma_same_audio(rest, kept, i, store, files, 1, frame);
}

/// Reading from the start of the recording until nothing is left gives back all that was recorded.
pub proof fn law_whole_recording_reads_back(
    store: StoreView,
    files: Map<Seq<char>, Seq<u8>>,
    max_duration_ms: u64,
    n: nat,
)
    requires
        store.wf(),
        store.lies_in(files),
        store.segments.len() > 0,
        forall|i: int|
            0 <= i < store.segments.len() ==> max_duration_ms * (
            #[trigger] store.segments[i]).sample_rate <= u64::MAX,
        n >= store.audio_from(files, 0, 0).len(),
    ensures
        store.read_in_turn(
            files,
            store.segments[0].cursor(0, store.segments[0].start_ms),
            max_duration_ms,
            n,
        ) == store.audio_from(files, 0, 0),
{
    let cursor = store.segments[0].cursor(0, store.segments[0].start_ms);
    lemma_found_by_name(store, 0, 0);
    lemma_settled(store, files, 0, 0);
    law_reads_in_turn_give_everything(store, files, cursor, max_duration_ms, n);
}

/// Samples that were recorded are played: reading a recording that holds one append, from its start
/// until nothing is left, gives the samples of that append.
pub proof fn law_recorded_samples_are_played(
    store: StoreView,
    files: Map<Seq<char>, Seq<u8>>,
    sample_rate: u32,
    channels: u16,
    samples: Seq<u32>,
    now_ms: u64,
    max_duration_ms: u64,
    n: nat,
)
    requires
        store.wf(),
        store.segments.len() == 0,
        store.next_segment_id < u64::MAX,
        sample_rate > 0,
        channels > 0,
        samples.len() > 0,
        samples.len() % channels as nat == 0,
        4 * samples.len() + MAX_SEGMENT_BYTES <= u64::MAX,
        max_duration_ms * sample_rate <= u64::MAX,
        n >= 4 * samples.len(),
    ensures
        ({
            let append = store.pending(sample_rate, channels, samples, now_ms)->0;
            let after = store.appended(append);
            let start = after.segments[0].cursor(0, after.segments[0].start_ms);
            &&& store.pending(sample_rate, channels, samples, now_ms) is Some
            &&& pcm::samples_of(
                after.read_in_turn(files_after(files, append), start, max_duration_ms, n),
            ) == samples
        }),
{
    assert(samples.len() / channels as nat > 0) by {
        vstd::arithmetic::div_mod::lemma_fundamental_div_mod(
            samples.len() as int,
            channels as int,
        );
        let frames = samples.len() as int / channels as int;
        assert(channels * frames == samples.len());
        assert(frames > 0) by (nonlinear_arith)
            requires
                channels * frames > 0,
                channels > 0,
        ;
    }
    let append = store.pending(sample_rate, channels, samples, now_ms)->0;
    let after = store.appended(append);
    let written = files_after(files, append);
    assert(store.fills(files));
    law_append_fills_the_files(store, files, sample_rate, channels, samples, now_ms);
    law_append_adds_its_samples(store, files, sample_rate, channels, samples, now_ms, 0, 0);
    assert(store.audio_from(files, 0, 0) + pcm::bytes_of(samples) =~= pcm::bytes_of(samples));
    assert(after.segments.len() == 1);
    law_whole_recording_reads_back(after, written, max_duration_ms, n);
    pcm::law_samples_read_back(samples);
}

} // verus!
