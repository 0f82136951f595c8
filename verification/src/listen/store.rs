//! Recorded audio of the last days, in segment files, and the cursors that read it back.
use std::collections::VecDeque;
use vstd::prelude::*;

use crate::listen::pcm;
use crate::listen::pcm::{decode_samples, encode_samples};
use crate::number;
use crate::number::{capped_product, decimal_string, pad_with_zeros};
use crate::text::same_text;

verus! {

/// How long recorded audio is kept.
pub const RETENTION_MS: u64 = 7 * 24 * 60 * 60 * 1000;

/// How far the wall clock may run ahead of the audio before it counts as a gap.
pub const GAP_THRESHOLD_MS: u64 = 1_500;

/// The size from which on a segment is not written to any more.
pub const MAX_SEGMENT_BYTES: u64 = 64 * 1024 * 1024;

/// The bytes that one sample takes in a segment.
pub const BYTES_PER_SAMPLE: u64 = 4;

/// How long the given frames play, in whole milliseconds and at least one.
pub open spec fn duration_of(frames: u64, sample_rate: u32) -> u64 {
    let ms = number::capped(frames * 1000) / sample_rate as u64;
    if ms > 1 {
        ms
    } else {
        1
    }
}

/// The difference of two times, or zero if the second is the later one.
pub open spec fn time_before(t: u64, d: u64) -> u64 {
    if t >= d {
        (t - d) as u64
    } else {
        0
    }
}

/// When a chunk of audio that has just arrived starts and ends. It follows the audio before it;
/// the first chunk, and one after a gap, ends at the time of its arrival.
pub open spec fn chunk_timing(
    previous_live_head_ms: u64,
    sample_rate: u32,
    channels: u16,
    sample_count: nat,
    now_ms: u64,
) -> Option<(u64, u64)> {
    if sample_rate == 0 || channels == 0 || sample_count / channels as nat == 0 {
        None
    } else {
        let duration = duration_of((sample_count / channels as nat) as u64, sample_rate);
        let arrival = time_before(now_ms, duration);
        let start = if previous_live_head_ms == 0 || arrival > number::capped(
            previous_live_head_ms + GAP_THRESHOLD_MS,
        ) {
            arrival
        } else {
            previous_live_head_ms
        };
        Some((start, number::capped(start + duration)))
    }
}

pub fn compute_chunk_timing(
    previous_live_head_ms: u64,
    sample_rate: u32,
    channels: u16,
    sample_count: usize,
    now_ms: u64,
) -> (r: Option<(u64, u64)>)
    ensures
        r == chunk_timing(
            previous_live_head_ms,
            sample_rate,
            channels,
            sample_count as nat,
            now_ms,
        ),
{
    if sample_count == 0 || sample_rate == 0 || channels == 0 {
        return None;
    }
    let frames: u64 = (sample_count / channels as usize) as u64;
    if frames == 0 {
        return None;
    }
    let whole_ms: u64 = capped_product(frames, 1000) / sample_rate as u64;
    let duration_ms: u64 = if whole_ms > 1 {
        whole_ms
    } else {
        1
    };
    let wall_start_ms: u64 = now_ms.saturating_sub(duration_ms);
    let start_ms: u64 = if previous_live_head_ms == 0 || wall_start_ms
        > previous_live_head_ms.saturating_add(GAP_THRESHOLD_MS) {
        wall_start_ms
    } else {
        previous_live_head_ms
    };
    Some((start_ms, start_ms.saturating_add(duration_ms)))
}

/// Audio never goes back behind what has been played into the recording: a chunk starts no earlier
/// than the one before it ended, and ends no earlier than it starts.
pub proof fn law_live_head_never_goes_back(
    previous_live_head_ms: u64,
    sample_rate: u32,
    channels: u16,
    sample_count: nat,
    now_ms: u64,
)
    ensures
        chunk_timing(previous_live_head_ms, sample_rate, channels, sample_count, now_ms) matches Some(
            (start, end),
        ) ==> previous_live_head_ms <= start <= end,
{
}

/// Chunks that arrive without a gap between them follow each other without one.
pub proof fn law_chunks_are_contiguous(
    previous_live_head_ms: u64,
    sample_rate: u32,
    channels: u16,
    sample_count: nat,
    now_ms: u64,
)
    requires
        previous_live_head_ms != 0,
        now_ms <= previous_live_head_ms + GAP_THRESHOLD_MS,
    ensures
        chunk_timing(previous_live_head_ms, sample_rate, channels, sample_count, now_ms) matches Some(
            (start, end),
        ) ==> start == previous_live_head_ms,
{
}

/// A stretch of audio in one file: one sample rate, one number of channels, and no gap in it.
#[derive(Debug)]
pub struct StoredSegment {
    pub id: u64,
    pub file_name: String,
    pub start_ms: u64,
    pub end_ms: u64,
    pub sample_rate: u32,
    pub channels: u16,
    pub frames: u64,
    pub bytes: u64,
}

/// What a segment is, its name as text.
pub struct SegmentView {
    pub id: u64,
    pub name: Seq<char>,
    pub start_ms: u64,
    pub end_ms: u64,
    pub sample_rate: u32,
    pub channels: u16,
    pub frames: u64,
    pub bytes: u64,
}

impl View for StoredSegment {
    type V = SegmentView;

    open spec fn view(&self) -> SegmentView {
        SegmentView {
            id: self.id,
            name: self.file_name@,
            start_ms: self.start_ms,
            end_ms: self.end_ms,
            sample_rate: self.sample_rate,
            channels: self.channels,
            frames: self.frames,
            bytes: self.bytes,
        }
    }
}

/// A place in the recording: a segment, a frame in it and the time that it plays at. The time finds
/// the place again once the segment has been dropped.
#[derive(Debug)]
pub struct PlaybackReadCursor {
    pub segment_file_name: String,
    pub frame_offset: u64,
    pub position_ms: u64,
}

/// What a cursor is, the name of its segment as text.
pub struct CursorView {
    pub name: Seq<char>,
    pub frame_offset: u64,
    pub position_ms: u64,
}

impl View for PlaybackReadCursor {
    type V = CursorView;

    open spec fn view(&self) -> CursorView {
        CursorView {
            name: self.segment_file_name@,
            frame_offset: self.frame_offset,
            position_ms: self.position_ms,
        }
    }
}

/// Audio that was read back. Samples are bit patterns of 32-bit floats.
#[derive(Debug)]
pub struct StoredPcmChunk {
    pub channels: u16,
    pub sample_rate: u32,
    pub samples: Vec<u32>,
    pub start_ms: u64,
    pub end_ms: u64,
}

/// Audio on its way into the recording. `new_file` names the file to create first, if it does not
/// go to the end of the newest one.
#[derive(Debug)]
pub struct PendingAppend {
    pub segment_id: u64,
    pub new_file: Option<String>,
    pub sample_rate: u32,
    pub channels: u16,
    pub start_ms: u64,
    pub end_ms: u64,
    pub frames: u64,
    pub bytes: Vec<u8>,
}

/// What a pending append is, names and bytes as sequences.
pub struct AppendView {
    pub segment_id: u64,
    pub new_file: Option<Seq<char>>,
    pub sample_rate: u32,
    pub channels: u16,
    pub start_ms: u64,
    pub end_ms: u64,
    pub frames: u64,
    pub bytes: Seq<u8>,
}

impl View for PendingAppend {
    type V = AppendView;

    open spec fn view(&self) -> AppendView {
        AppendView {
            segment_id: self.segment_id,
            new_file: match self.new_file {
                Some(name) => Some(name@),
                None => None,
            },
            sample_rate: self.sample_rate,
            channels: self.channels,
            start_ms: self.start_ms,
            end_ms: self.end_ms,
            frames: self.frames,
            bytes: self.bytes@,
        }
    }
}

/// The bytes to read from a segment's file to go on playing.
#[derive(Debug)]
pub struct ReadPlan {
    pub segment: usize,
    pub file_name: String,
    pub frame_offset: u64,
    pub frames: u64,
    pub byte_offset: u64,
    pub byte_count: u64,
}

/// What a read plan is, the file's name as text.
pub struct PlanView {
    pub segment: int,
    pub name: Seq<char>,
    pub frame_offset: u64,
    pub frames: u64,
    pub byte_offset: u64,
    pub byte_count: u64,
}

impl View for ReadPlan {
    type V = PlanView;

    open spec fn view(&self) -> PlanView {
        PlanView {
            segment: self.segment as int,
            name: self.file_name@,
            frame_offset: self.frame_offset,
            frames: self.frames,
            byte_offset: self.byte_offset,
            byte_count: self.byte_count,
        }
    }
}

/// The name of the file that holds the segment with the given number.
pub open spec fn segment_name(id: u64) -> Seq<char> {
    "segment-"@ + number::zero_padded(number::decimal(id as nat), 6) + ".pcm"@
}

/// Segments with different numbers lie in different files.
pub proof fn law_segment_names_differ(a: u64, b: u64)
    requires
        a != b,
    ensures
        segment_name(a) != segment_name(b),
{
    if segment_name(a) == segment_name(b) {
        let pa = number::zero_padded(number::decimal(a as nat), 6);
        let pb = number::zero_padded(number::decimal(b as nat), 6);
        let front = "segment-"@;
        let back = ".pcm"@;
        let na = segment_name(a);
        let nb = segment_name(b);
        assert(na.subrange(front.len() as int, na.len() - back.len()) =~= pa);
        assert(nb.subrange(front.len() as int, nb.len() - back.len()) =~= pb);
        number::lemma_decimal_value(a as nat);
        number::lemma_decimal_value(b as nat);
        number::lemma_zero_padded_value(number::decimal(a as nat), 6);
        number::lemma_zero_padded_value(number::decimal(b as nat), 6);
    }
}

/// The name of a segment's file gives its number in at least six digits, between a word and an
/// ending that are always the same.
pub proof fn law_segment_name_tells_its_number(id: u64)
    ensures
        ({
            let name = segment_name(id);
            let digits = name.subrange(8, name.len() - 4);
            &&& name.take(8) == "segment-"@
            &&& name.skip(name.len() - 4) == ".pcm"@
            &&& digits.len() >= 6
            &&& number::unsigned_value(digits) == Some(id)
        }),
{
    reveal_strlit("segment-");
    reveal_strlit(".pcm");
    let plain = number::decimal(id as nat);
    let padded = number::zero_padded(plain, 6);
    let name = segment_name(id);
    number::lemma_decimal_value(id as nat);
    number::lemma_zero_padded_value(plain, 6);
    number::law_padding_puts_zeros_in_front(plain, 6);
    assert(name.take(8) =~= "segment-"@);
    assert(name.skip(name.len() - 4) =~= ".pcm"@);
    assert(name.subrange(8, name.len() - 4) =~= padded);
    assert(number::is_digit(padded[0]));
    assert(number::without_plus(padded) == padded);
}

/// The first index from `from` on at which `p` holds.
pub open spec fn first_from(
    segments: Seq<SegmentView>,
    p: spec_fn(SegmentView) -> bool,
    from: int,
) -> Option<int>
    decreases segments.len() - from,
{
    if from >= segments.len() {
        None
    } else if p(segments[from]) {
        Some(from)
    } else {
        first_from(segments, p, from + 1)
    }
}

/// Whether a segment lies in the file of the given name.
pub open spec fn named(name: Seq<char>) -> spec_fn(SegmentView) -> bool {
    |s: SegmentView| s.name == name
}

/// Whether a segment plays at the given time.
pub open spec fn plays_at(ms: u64) -> spec_fn(SegmentView) -> bool {
    |s: SegmentView| s.start_ms <= ms < s.end_ms
}

/// Whether a segment ends after the given time.
pub open spec fn ends_after(ms: u64) -> spec_fn(SegmentView) -> bool {
    |s: SegmentView| s.end_ms > ms
}

/// Whether a segment starts after the given time.
pub open spec fn starts_after(ms: u64) -> spec_fn(SegmentView) -> bool {
    |s: SegmentView| s.start_ms > ms
}

impl SegmentView {
    /// The frame of the segment that plays at the given time, held to what the segment has.
    pub open spec fn frame_at(self, ms: u64) -> u64 {
        let frame = if ms <= self.start_ms {
            0
        } else {
            number::capped((ms - self.start_ms) * self.sample_rate) / 1000
        };
        if frame < self.frames {
            frame
        } else {
            self.frames
        }
    }

    /// The time at which the given frame of the segment starts.
    pub open spec fn time_of(self, frame: u64) -> u64 {
        number::capped(self.start_ms + number::capped(frame * 1000) / self.sample_rate as u64)
    }

    /// The bytes that the given number of frames takes.
    pub open spec fn frame_bytes(self, frames: u64) -> u64 {
        number::capped(number::capped(frames * self.channels) * BYTES_PER_SAMPLE)
    }

    /// The most frames that are read at once.
    pub open spec fn frames_in(self, max_duration_ms: u64) -> u64 {
        let ms = if max_duration_ms > 1 {
            max_duration_ms
        } else {
            1
        };
        let frames = ms * self.sample_rate / 1000;
        if frames > 1 {
            frames as u64
        } else {
            1
        }
    }

    /// The place at a frame of the segment.
    pub open spec fn cursor(self, frame_offset: u64, position_ms: u64) -> CursorView {
        CursorView { name: self.name, frame_offset, position_ms }
    }
}

/// The recording: its segments, the oldest first, and the time that it reaches to.
pub struct StoreView {
    pub segments: Seq<SegmentView>,
    pub next_segment_id: u64,
    pub live_head_ms: u64,
    pub retention_ms: u64,
}

impl StoreView {
    /// Segments are numbered in the order in which they were begun, lie in the file that goes with
    /// their number, and have a sample rate and channels.
    pub open spec fn wf(self) -> bool {
        &&& forall|i: int, j: int|
            #![trigger self.segments[i], self.segments[j]]
            0 <= i < j < self.segments.len() ==> self.segments[i].id < self.segments[j].id
        &&& forall|i: int|
            #![trigger self.segments[i]]
            0 <= i < self.segments.len() ==> {
                &&& self.segments[i].id < self.next_segment_id
                &&& self.segments[i].name == segment_name(self.segments[i].id)
                &&& self.segments[i].sample_rate > 0
                &&& self.segments[i].channels > 0
            }
    }

    /// Whether audio that starts at the given time needs a file of its own: it does not go on where
    /// the newest segment ends, is of another kind, or the newest segment is full.
    pub open spec fn rotates(self, sample_rate: u32, channels: u16, start_ms: u64) -> bool {
        self.segments.len() == 0 || {
            let newest = self.segments.last();
            ||| newest.sample_rate != sample_rate
            ||| newest.channels != channels
            ||| newest.bytes >= MAX_SEGMENT_BYTES
            ||| newest.end_ms < start_ms
        }
    }

    /// What is to be written for audio that arrives at the given time.
    pub open spec fn pending(
        self,
        sample_rate: u32,
        channels: u16,
        samples: Seq<u32>,
        now_ms: u64,
    ) -> Option<AppendView> {
        match chunk_timing(self.live_head_ms, sample_rate, channels, samples.len(), now_ms) {
            None => None,
            Some((start_ms, end_ms)) => {
                let rotates = self.rotates(sample_rate, channels, start_ms);
                let segment_id = if rotates {
                    self.next_segment_id
                } else {
                    self.segments.last().id
                };
                Some(
                    AppendView {
                        segment_id,
                        new_file: if rotates {
                            Some(segment_name(segment_id))
                        } else {
                            None
                        },
                        sample_rate,
                        channels,
                        start_ms,
                        end_ms,
                        frames: (samples.len() / channels as nat) as u64,
                        bytes: pcm::bytes_of(samples),
                    },
                )
            },
        }
    }

    /// The recording once an append has been asked for: a number is used up by the attempt to
    /// begin a file, whether or not it can be created.
    pub open spec fn asked(self, append: AppendView) -> StoreView {
        StoreView {
            next_segment_id: if append.new_file is Some {
                (self.next_segment_id + 1) as u64
            } else {
                self.next_segment_id
            },
            ..self
        }
    }

    /// The recording once the new file of an append exists.
    pub open spec fn opened(self, append: AppendView) -> StoreView {
        StoreView {
            segments: self.segments.push(
                SegmentView {
                    id: append.segment_id,
                    name: segment_name(append.segment_id),
                    start_ms: append.start_ms,
                    end_ms: append.start_ms,
                    sample_rate: append.sample_rate,
                    channels: append.channels,
                    frames: 0,
                    bytes: 0,
                },
            ),
            ..self
        }
    }

    /// The recording once the bytes of an append are in the newest file.
    pub open spec fn written(self, append: AppendView) -> StoreView {
        let newest = self.segments.last();
        StoreView {
            segments: self.segments.update(
                self.segments.len() - 1,
                SegmentView {
                    end_ms: append.end_ms,
                    frames: number::capped(newest.frames + append.frames),
                    bytes: number::capped(newest.bytes + append.bytes.len()),
                    ..newest
                },
            ),
            live_head_ms: append.end_ms,
            ..self
        }
    }

    /// The recording once everything that an append asks for has been done.
    pub open spec fn appended(self, append: AppendView) -> StoreView {
        let asked = self.asked(append);
        if append.new_file is Some {
            asked.opened(append).written(append)
        } else {
            asked.written(append)
        }
    }

    /// The time before which audio is not kept.
    pub open spec fn kept_from(self) -> u64 {
        time_before(self.live_head_ms, self.retention_ms)
    }

    /// Whether the oldest segment is to be dropped. The newest one never is.
    pub open spec fn drops_oldest(self) -> bool {
        self.segments.len() > 1 && self.segments[0].end_ms < self.kept_from()
    }

    /// The recording without its oldest segment.
    pub open spec fn without_oldest(self) -> StoreView {
        StoreView { segments: self.segments.skip(1), ..self }
    }

    /// The place that plays at the given time, or the first one after it.
    pub open spec fn cursor_at(self, ms: u64) -> Option<CursorView> {
        let found = match first_from(self.segments, plays_at(ms), 0) {
            Some(i) => Some(i),
            None => first_from(self.segments, ends_after(ms), 0),
        };
        match found {
            None => None,
            Some(i) => Some(self.cursor_in(i, ms)),
        }
    }

    /// The place in a segment that plays at the given time.
    pub open spec fn cursor_in(self, i: int, ms: u64) -> CursorView {
        let segment = self.segments[i];
        segment.cursor(
            segment.frame_at(ms),
            if ms > segment.start_ms {
                ms
            } else {
                segment.start_ms
            },
        )
    }

    /// The segment and frame that a cursor stands at, and the cursor itself, which moves on where
    /// its segment is gone.
    pub open spec fn resolved(self, cursor: CursorView) -> Option<(int, u64, CursorView)> {
        match first_from(self.segments, named(cursor.name), 0) {
            Some(i) => Some(
                (
                    i,
                    if cursor.frame_offset < self.segments[i].frames {
                        cursor.frame_offset
                    } else {
                        self.segments[i].frames
                    },
                    cursor,
                ),
            ),
            None => match first_from(self.segments, ends_after(cursor.position_ms), 0) {
                Some(i) => {
                    let moved = self.cursor_in(i, cursor.position_ms);
                    Some((i, moved.frame_offset, moved))
                },
                None => None,
            },
        }
    }

    /// The first segment from `i` on, read from the given frame of `i`, that has a frame left.
    pub open spec fn settled(self, i: int, frame: u64) -> (int, u64)
        decreases self.segments.len() - i,
    {
        if self.segments[i].frames > frame || i + 1 >= self.segments.len() {
            (i, frame)
        } else {
            self.settled(i + 1, 0)
        }
    }

    /// Where the next read starts: the segment and frame, and the cursor that has moved there.
    /// Nothing is left to read if the segment has no frame after that one.
    pub open spec fn position(self, cursor: CursorView) -> Option<(int, u64, CursorView)> {
        match self.resolved(cursor) {
            None => None,
            Some((i, frame, moved)) => {
                let (k, at) = self.settled(i, frame);
                Some(
                    (
                        k,
                        at,
                        if k == i {
                            moved
                        } else {
                            self.segments[k].cursor(0, self.segments[k].start_ms)
                        },
                    ),
                )
            },
        }
    }

    /// What to read next.
    pub open spec fn plan(self, cursor: CursorView, max_duration_ms: u64) -> Option<PlanView> {
        match self.position(cursor) {
            None => None,
            Some((i, frame, moved)) => {
                let segment = self.segments[i];
                if segment.frames <= frame {
                    None
                } else {
                    let left = (segment.frames - frame) as u64;
                    let most = segment.frames_in(max_duration_ms);
                    let frames = if left < most {
                        left
                    } else {
                        most
                    };
                    Some(
                        PlanView {
                            segment: i,
                            name: segment.name,
                            frame_offset: frame,
                            frames,
                            byte_offset: segment.frame_bytes(frame),
                            byte_count: segment.frame_bytes(frames),
                        },
                    )
                }
            },
        }
    }

    /// Whether the frames of the given time can be counted in 64 bits, as far as there is something
    /// to read.
    pub open spec fn countable(self, cursor: CursorView, max_duration_ms: u64) -> bool {
        self.plan(cursor, max_duration_ms) matches Some(plan) ==> max_duration_ms
            * self.segments[plan.segment].sample_rate <= u64::MAX
    }

    /// Where a cursor stands once it has looked for what to read.
    pub open spec fn moved(self, cursor: CursorView) -> CursorView {
        match self.position(cursor) {
            None => cursor,
            Some((i, frame, moved)) => moved,
        }
    }

    /// The time at which what a plan reads ends.
    pub open spec fn read_until(self, plan: PlanView) -> u64 {
        let segment = self.segments[plan.segment];
        let end = segment.time_of((plan.frame_offset + plan.frames) as u64);
        if end < segment.end_ms {
            end
        } else {
            segment.end_ms
        }
    }

    /// Where a cursor stands once what a plan says has been read: behind it, or at the start of the
    /// segment that follows.
    pub open spec fn advanced(self, cursor: CursorView, plan: PlanView) -> CursorView {
        let segment = self.segments[plan.segment];
        let next = (plan.frame_offset + plan.frames) as u64;
        if next >= segment.frames && plan.segment + 1 < self.segments.len() {
            let following = self.segments[plan.segment + 1];
            following.cursor(0, following.start_ms)
        } else {
            CursorView { frame_offset: next, position_ms: self.read_until(plan), ..cursor }
        }
    }

    /// A time held to the recording: not before its start and not behind its end. Zero stands for
    /// no time, and stays.
    pub open spec fn held(self, ms: u64) -> u64 {
        if ms == 0 || self.segments.len() == 0 {
            ms
        } else if ms < self.segments[0].start_ms {
            self.segments[0].start_ms
        } else if ms > self.live_head_ms {
            self.live_head_ms
        } else {
            ms
        }
    }

    /// The start of the first segment that starts after the given time.
    pub open spec fn next_start(self, ms: u64) -> Option<u64> {
        match first_from(self.segments, starts_after(ms), 0) {
            Some(i) => Some(self.segments[i].start_ms),
            None => None,
        }
    }

    /// Whether a plan reads frames that are there.
    pub open spec fn has(self, plan: PlanView) -> bool {
        &&& 0 <= plan.segment < self.segments.len()
        &&& plan.frames > 0
        &&& plan.frame_offset + plan.frames <= self.segments[plan.segment].frames
    }
}

/// The recorded audio. The files themselves are created, written, read and removed by the caller,
/// as the methods say.
#[derive(Debug)]
pub struct TimeshiftStore {
    pub segments: VecDeque<StoredSegment>,
    pub next_segment_id: u64,
    pub live_head_ms: u64,
    pub retention_ms: u64,
}

impl View for TimeshiftStore {
    type V = StoreView;

    open spec fn view(&self) -> StoreView {
        StoreView {
            segments: self.segments@.map_values(|s: StoredSegment| s@),
            next_segment_id: self.next_segment_id,
            live_head_ms: self.live_head_ms,
            retention_ms: self.retention_ms,
        }
    }
}

impl TimeshiftStore {
    /// An empty recording.
    pub fn new_session(retention_ms: u64) -> (r: TimeshiftStore)
        ensures
            r@.wf(),
            r@.segments.len() == 0,
            r@.next_segment_id == 0,
            r@.live_head_ms == 0,
            r@.retention_ms == retention_ms,
    {
        TimeshiftStore {
            segments: VecDeque::new(),
            next_segment_id: 0,
            live_head_ms: 0,
            retention_ms,
        }
    }

    /// Takes audio in, as bit patterns of its samples. If the result names a new file, that is
    /// created and `segment_opened` called; then the bytes are written and `append_written` called;
    /// then files are removed as long as `prune_old_segments` names one. An operation that fails
    /// ends this, and the calls that would follow are left out.
    pub fn append_pcm(
        &mut self,
        sample_rate: u32,
        channels: u16,
        samples: &[u32],
        now_ms: u64,
    ) -> (r: Option<PendingAppend>)
        requires
            old(self)@.wf(),
            old(self)@.next_segment_id < u64::MAX,
        ensures
            final(self)@.wf(),
            match old(self)@.pending(sample_rate, channels, samples@, now_ms) {
                None => r is None && *final(self) == *old(self),
                Some(append) => r is Some && r->0@ == append && final(self)@ == old(self)@.asked(
                    append,
                ),
            },
    {
        let timing = compute_chunk_timing(
            self.live_head_ms,
            sample_rate,
            channels,
            samples.len(),
            now_ms,
        );
        match timing {
            None => None,
            Some((start_ms, end_ms)) => {
                let frames: u64 = (samples.len() / channels as usize) as u64;
                let bytes = encode_samples(samples);
                let (segment_id, new_file) = self.ensure_active_segment(
                    sample_rate,
                    channels,
                    start_ms,
                );
                Some(
                    PendingAppend {
                        segment_id,
                        new_file,
                        sample_rate,
                        channels,
                        start_ms,
                        end_ms,
                        frames,
                        bytes,
                    },
                )
            },
        }
    }

    /// The segment that audio from the given time on goes to, and the file to create for it if it
    /// is a new one.
    fn ensure_active_segment(&mut self, sample_rate: u32, channels: u16, start_ms: u64) -> (r: (
        u64,
        Option<String>,
    ))
        requires
            old(self)@.wf(),
            old(self)@.next_segment_id < u64::MAX,
        ensures
            final(self)@.wf(),
            final(self)@ == (StoreView {
                next_segment_id: final(self)@.next_segment_id,
                ..old(self)@
            }),
            match r.1 {
                Some(name) => {
                    &&& old(self)@.rotates(sample_rate, channels, start_ms)
                    &&& r.0 == old(self)@.next_segment_id
                    &&& name@ == segment_name(r.0)
                    &&& final(self)@.next_segment_id == r.0 + 1
                },
                None => {
                    &&& !old(self)@.rotates(sample_rate, channels, start_ms)
                    &&& r.0 == old(self)@.segments.last().id
                    &&& final(self)@.next_segment_id == old(self)@.next_segment_id
                },
            },
    {
        let count: usize = self.segments.len();
        if count > 0 {
            let newest = &self.segments[count - 1];
            assert(newest@ == self@.segments.last());
            if newest.sample_rate == sample_rate && newest.channels == channels && newest.bytes
                < MAX_SEGMENT_BYTES && newest.end_ms >= start_ms {
                return (newest.id, None);
            }
        }
        let id: u64 = self.next_segment_id;
        self.next_segment_id = id + 1;
        (id, Some(segment_file_name(id)))
    }

    /// Notes that the new file of an append has been created.
    pub fn segment_opened(&mut self, append: &PendingAppend)
        requires
            old(self)@.wf(),
            append.new_file is Some,
            append.segment_id < old(self)@.next_segment_id,
            forall|i: int|
                0 <= i < old(self)@.segments.len() ==> (#[trigger] old(self)@.segments[i]).id
                    < append.segment_id,
            append.sample_rate > 0,
            append.channels > 0,
        ensures
            final(self)@.wf(),
            final(self)@ == old(self)@.opened(append@),
    {
        let segment = StoredSegment {
            id: append.segment_id,
            file_name: segment_file_name(append.segment_id),
            start_ms: append.start_ms,
            end_ms: append.start_ms,
            sample_rate: append.sample_rate,
            channels: append.channels,
            frames: 0,
            bytes: 0,
        };
        let ghost before = self@;
        self.segments.push_back(segment);
        assert(self@.segments =~= before.opened(append@).segments);
    }

    /// Notes that the bytes of an append are in the newest file, and that the recording reaches to
    /// its end.
    pub fn append_written(&mut self, append: &PendingAppend)
        requires
            old(self)@.wf(),
            old(self)@.segments.len() > 0,
        ensures
            final(self)@.wf(),
            final(self)@ == old(self)@.written(append@),
    {
        let ghost before = self@;
        if let Some(mut newest) = self.segments.pop_back() {
            assert(newest@ == before.segments.last());
            newest.end_ms = append.end_ms;
            newest.frames = newest.frames.saturating_add(append.frames);
            newest.bytes = newest.bytes.saturating_add(append.bytes.len() as u64);
            self.segments.push_back(newest);
        }
        self.live_head_ms = append.end_ms;
        assert(self@.segments =~= before.written(append@).segments);
    }

    /// Drops the oldest segment if all of it is older than what is kept, and names its file. The
    /// newest segment stays.
    pub fn prune_old_segments(&mut self) -> (r: Option<String>)
        requires
            old(self)@.wf(),
        ensures
            final(self)@.wf(),
            match r {
                Some(name) => {
                    &&& old(self)@.drops_oldest()
                    &&& name@ == old(self)@.segments[0].name
                    &&& final(self)@ == old(self)@.without_oldest()
                },
                None => !old(self)@.drops_oldest() && *final(self) == *old(self),
            },
    {
        let prune_before: u64 = self.live_head_ms.saturating_sub(self.retention_ms);
        if self.segments.len() <= 1 {
            return None;
        }
        let oldest = &self.segments[0];
        assert(oldest@ == self@.segments[0]);
        if oldest.end_ms >= prune_before {
            return None;
        }
        let ghost before = self@;
        match self.segments.pop_front() {
            Some(removed) => {
                assert(removed@ == before.segments[0]);
                assert(self@.segments =~= before.without_oldest().segments);
                Some(removed.file_name)
            },
            None => None,
        }
    }

    pub fn earliest_timestamp_ms(&self) -> (r: Option<u64>)
        ensures
            r == (if self@.segments.len() == 0 {
                None
            } else {
                Some(self@.segments[0].start_ms)
            }),
    {
        if self.segments.len() == 0 {
            None
        } else {
            let oldest = &self.segments[0];
            assert(oldest@ == self@.segments[0]);
            Some(oldest.start_ms)
        }
    }

    pub fn live_head_ms(&self) -> (r: u64)
        ensures
            r == self@.live_head_ms,
    {
        self.live_head_ms
    }

    /// A time held to the recording.
    pub fn clamp_cursor_ms(&self, cursor_ms: u64) -> (r: u64)
        ensures
            r == self@.held(cursor_ms),
    {
        match self.earliest_timestamp_ms() {
            Some(start) if cursor_ms != 0 => if cursor_ms < start {
                start
            } else if cursor_ms > self.live_head_ms {
                self.live_head_ms
            } else {
                cursor_ms
            },
            _ => cursor_ms,
        }
    }

    /// The start of the first segment that starts after the given time.
    pub fn next_available_timestamp_ms(&self, cursor_ms: u64) -> (r: Option<u64>)
        ensures
            r == self@.next_start(cursor_ms),
    {
        let mut i: usize = 0;
        while i < self.segments.len()
            invariant
                i <= self.segments@.len(),
                first_from(self@.segments, starts_after(cursor_ms), i as int) == first_from(
                    self@.segments,
                    starts_after(cursor_ms),
                    0,
                ),
            decreases self.segments@.len() - i,
        {
            let segment = &self.segments[i];
            assert(segment@ == self@.segments[i as int]);
            if segment.start_ms > cursor_ms {
                return Some(segment.start_ms);
            }
            i += 1;
        }
        None
    }

    fn find_named(&self, name: &str) -> (r: Option<usize>)
        ensures
            match first_from(self@.segments, named(name@), 0) {
                Some(i) => r is Some && r->0 == i && 0 <= i < self@.segments.len(),
                None => r is None,
            },
    {
        let mut i: usize = 0;
        while i < self.segments.len()
            invariant
                i <= self.segments@.len(),
                first_from(self@.segments, named(name@), i as int) == first_from(
                    self@.segments,
                    named(name@),
                    0,
                ),
            decreases self.segments@.len() - i,
        {
            let segment = &self.segments[i];
            assert(segment@ == self@.segments[i as int]);
            if same_text(&segment.file_name, name) {
                return Some(i);
            }
            i += 1;
        }
        None
    }

    fn find_playing_at(&self, ms: u64) -> (r: Option<usize>)
        ensures
            match first_from(self@.segments, plays_at(ms), 0) {
                Some(i) => r is Some && r->0 == i && 0 <= i < self@.segments.len(),
                None => r is None,
            },
    {
        let mut i: usize = 0;
        while i < self.segments.len()
            invariant
                i <= self.segments@.len(),
                first_from(self@.segments, plays_at(ms), i as int) == first_from(
                    self@.segments,
                    plays_at(ms),
                    0,
                ),
            decreases self.segments@.len() - i,
        {
            let segment = &self.segments[i];
            assert(segment@ == self@.segments[i as int]);
            if segment.start_ms <= ms && ms < segment.end_ms {
                return Some(i);
            }
            i += 1;
        }
        None
    }

    fn find_ending_after(&self, ms: u64) -> (r: Option<usize>)
        ensures
            match first_from(self@.segments, ends_after(ms), 0) {
                Some(i) => r is Some && r->0 == i && 0 <= i < self@.segments.len(),
                None => r is None,
            },
    {
        let mut i: usize = 0;
        while i < self.segments.len()
            invariant
                i <= self.segments@.len(),
                first_from(self@.segments, ends_after(ms), i as int) == first_from(
                    self@.segments,
                    ends_after(ms),
                    0,
                ),
            decreases self.segments@.len() - i,
        {
            let segment = &self.segments[i];
            assert(segment@ == self@.segments[i as int]);
            if segment.end_ms > ms {
                return Some(i);
            }
            i += 1;
        }
        None
    }

    fn cursor_in(&self, i: usize, ms: u64) -> (r: PlaybackReadCursor)
        requires
            i < self@.segments.len(),
        ensures
            r@ == self@.cursor_in(i as int, ms),
    {
        let segment = &self.segments[i];
        assert(segment@ == self@.segments[i as int]);
        let frame: u64 = if ms <= segment.start_ms {
            0
        } else {
            capped_product(ms - segment.start_ms, segment.sample_rate as u64) / 1000
        };
        PlaybackReadCursor {
            segment_file_name: segment.file_name.clone(),
            frame_offset: if frame < segment.frames {
                frame
            } else {
                segment.frames
            },
            position_ms: if ms > segment.start_ms {
                ms
            } else {
                segment.start_ms
            },
        }
    }

    /// The place that plays at the given time, or the first one after it.
    pub fn cursor_for_ms(&self, cursor_ms: u64) -> (r: Option<PlaybackReadCursor>)
        ensures
            match self@.cursor_at(cursor_ms) {
                Some(cursor) => r is Some && r->0@ == cursor,
                None => r is None,
            },
    {
        let found = match self.find_playing_at(cursor_ms) {
            Some(i) => Some(i),
            None => self.find_ending_after(cursor_ms),
        };
        match found {
            Some(i) => Some(self.cursor_in(i, cursor_ms)),
            None => None,
        }
    }

    fn resolve_cursor(&self, cursor: &mut PlaybackReadCursor) -> (r: Option<(usize, u64)>)
        ensures
            match self@.resolved(old(cursor)@) {
                Some((i, frame, moved)) => {
                    &&& r matches Some((index, offset))
                    &&& index == i
                    &&& 0 <= i < self@.segments.len()
                    &&& offset == frame
                    &&& final(cursor)@ == moved
                },
                None => r is None && *final(cursor) == *old(cursor),
            },
    {
        match self.find_named(&cursor.segment_file_name) {
            Some(i) => {
                let segment = &self.segments[i];
                assert(segment@ == self@.segments[i as int]);
                let frame: u64 = if cursor.frame_offset < segment.frames {
                    cursor.frame_offset
                } else {
                    segment.frames
                };
                Some((i, frame))
            },
            None => match self.find_ending_after(cursor.position_ms) {
                Some(i) => {
                    *cursor = self.cursor_in(i, cursor.position_ms);
                    Some((i, cursor.frame_offset))
                },
                None => None,
            },
        }
    }

    /// What to read to go on from a cursor, at most for the given time. The cursor moves to where
    /// that starts. Once it has been read, `chunk_read` takes it.
    pub fn read_chunk_from(&self, cursor: &mut PlaybackReadCursor, max_duration_ms: u64) -> (r:
        Option<ReadPlan>)
        requires
            self@.wf(),
            self@.countable(old(cursor)@, max_duration_ms),
        ensures
            final(cursor)@ == self@.moved(old(cursor)@),
            match self@.plan(old(cursor)@, max_duration_ms) {
                Some(plan) => r is Some && r->0@ == plan && self@.has(plan),
                None => r is None,
            },
    {
        let ghost start = cursor@;
        let (first, first_frame) = match self.resolve_cursor(cursor) {
            Some(found) => found,
            None => {
                return None;
            },
        };
        let mut i: usize = first;
        let mut frame: u64 = first_frame;
        let ghost moved = cursor@;
        while i < self.segments.len() - 1 && self.segments[i].frames <= frame
            invariant
                first <= i < self@.segments.len(),
                i == first ==> frame == first_frame && cursor@ == moved,
                i > first ==> frame == 0 && cursor@ == self@.segments[i as int].cursor(
                    0,
                    self@.segments[i as int].start_ms,
                ),
                self@.settled(i as int, frame) == self@.settled(first as int, first_frame),
                frame <= self@.segments[i as int].frames,
            decreases self@.segments.len() - i,
        {
            assert(self.segments@[i as int]@ == self@.segments[i as int]);
            i += 1;
            frame = 0;
            let following = &self.segments[i];
            assert(following@ == self@.segments[i as int]);
            *cursor = PlaybackReadCursor {
                segment_file_name: following.file_name.clone(),
                frame_offset: 0,
                position_ms: following.start_ms,
            };
        }
        let segment = &self.segments[i];
        assert(segment@ == self@.segments[i as int]);
        assert(self@.settled(i as int, frame) == (i as int, frame));
        assert(self@.position(start) == Some((i as int, frame, cursor@)));
        if segment.frames <= frame {
            return None;
        }
        let left: u64 = segment.frames - frame;
        let ms: u64 = if max_duration_ms > 1 {
            max_duration_ms
        } else {
            1
        };
        let whole: u64 = (ms * segment.sample_rate as u64) / 1000;
        let most: u64 = if whole > 1 {
            whole
        } else {
            1
        };
        let frames: u64 = if left < most {
            left
        } else {
            most
        };
        let channels: u64 = segment.channels as u64;
        Some(
            ReadPlan {
                segment: i,
                file_name: segment.file_name.clone(),
                frame_offset: frame,
                frames,
                byte_offset: capped_product(capped_product(frame, channels), BYTES_PER_SAMPLE),
                byte_count: capped_product(capped_product(frames, channels), BYTES_PER_SAMPLE),
            },
        )
    }

    /// The place that plays at the given time and what to read there.
    pub fn read_chunk(&self, cursor_ms: u64, max_duration_ms: u64) -> (r: Option<
        (PlaybackReadCursor, ReadPlan),
    >)
        requires
            self@.wf(),
            self@.cursor_at(cursor_ms) matches Some(cursor) ==> self@.countable(
                cursor,
                max_duration_ms,
            ),
        ensures
            match self@.cursor_at(cursor_ms) {
                None => r is None,
                Some(cursor) => match self@.plan(cursor, max_duration_ms) {
                    None => r is None,
                    Some(plan) => {
                        &&& r matches Some((place, read))
                        &&& place@ == self@.moved(cursor)
                        &&& read@ == plan
                        &&& self@.has(plan)
                    },
                },
            },
    {
        match self.cursor_for_ms(cursor_ms) {
            None => None,
            Some(found) => {
                let mut cursor = found;
                match self.read_chunk_from(&mut cursor, max_duration_ms) {
                    None => None,
                    Some(plan) => Some((cursor, plan)),
                }
            },
        }
    }

    /// The audio in the bytes that a plan asked for. The cursor moves behind it.
    pub fn chunk_read(&self, cursor: &mut PlaybackReadCursor, plan: &ReadPlan, bytes: &[u8]) -> (r:
        StoredPcmChunk)
        requires
            self@.wf(),
            self@.has(plan@),
        ensures
            final(cursor)@ == self@.advanced(old(cursor)@, plan@),
            r.channels == self@.segments[plan@.segment].channels,
            r.sample_rate == self@.segments[plan@.segment].sample_rate,
            r.samples@ == pcm::samples_of(bytes@),
            r.start_ms == self@.segments[plan@.segment].time_of(plan.frame_offset),
            r.end_ms == self@.read_until(plan@),
    {
        let segment = &self.segments[plan.segment];
        assert(segment@ == self@.segments[plan.segment as int]);
        let sample_rate: u64 = segment.sample_rate as u64;
        let start_ms: u64 = segment.start_ms.saturating_add(
            capped_product(plan.frame_offset, 1000) / sample_rate,
        );
        let next: u64 = plan.frame_offset + plan.frames;
        let played: u64 = segment.start_ms.saturating_add(capped_product(next, 1000) / sample_rate);
        let end_ms: u64 = if played < segment.end_ms {
            played
        } else {
            segment.end_ms
        };
        if next >= segment.frames && plan.segment < self.segments.len() - 1 {
            let following = &self.segments[plan.segment + 1];
            assert(following@ == self@.segments[plan.segment + 1]);
            *cursor = PlaybackReadCursor {
                segment_file_name: following.file_name.clone(),
                frame_offset: 0,
                position_ms: following.start_ms,
            };
        } else {
            cursor.frame_offset = next;
            cursor.position_ms = end_ms;
        }
        StoredPcmChunk {
            channels: segment.channels,
            sample_rate: segment.sample_rate,
            samples: decode_samples(bytes),
            start_ms,
            end_ms,
        }
    }
}

/// The name of the file that holds the segment with the given number.
fn segment_file_name(id: u64) -> (r: String)
    ensures
        r@ == segment_name(id),
{
    let digits = decimal_string(id as u128);
    let mut name = "segment-".to_owned();
    name.push_str(&pad_with_zeros(&digits, 6));
    name.push_str(".pcm");
    name
}

} // verus!
