use listenmoe::listen::pcm::{decode_samples, encode_samples};
use listenmoe::listen::store::{
    compute_chunk_timing, PlaybackReadCursor, StoredPcmChunk, TimeshiftStore, RETENTION_MS,
};
use std::collections::HashMap;

/// A recording together with the files that it lies in.
struct Recording {
    store: TimeshiftStore,
    files: HashMap<String, Vec<u8>>,
    active: String,
}

impl Recording {
    fn new_session(retention_ms: u64) -> Recording {
        Recording {
            store: TimeshiftStore::new_session(retention_ms),
            files: HashMap::new(),
            active: String::new(),
        }
    }

    fn append_pcm(
        &mut self,
        sample_rate: u32,
        channels: u16,
        samples: &[f32],
        now_ms: u64,
    ) -> (u64, u64) {
        let bits: Vec<u32> = samples.iter().map(|sample| sample.to_bits()).collect();
        let Some(append) = self.store.append_pcm(sample_rate, channels, &bits, now_ms) else {
            return (self.store.live_head_ms(), self.store.live_head_ms());
        };
        if let Some(name) = &append.new_file {
            self.active = name.clone();
            self.files.insert(name.clone(), Vec::new());
            self.store.segment_opened(&append);
        }
        self.files
            .get_mut(&self.active)
            .expect("active file")
            .extend_from_slice(&append.bytes);
        self.store.append_written(&append);
        while let Some(name) = self.store.prune_old_segments() {
            self.files.remove(&name);
        }
        (append.start_ms, append.end_ms)
    }

    fn read_chunk_from(
        &self,
        cursor: &mut PlaybackReadCursor,
        max_duration_ms: u64,
    ) -> Option<StoredPcmChunk> {
        let plan = self.store.read_chunk_from(cursor, max_duration_ms)?;
        let from = plan.byte_offset as usize;
        let to = from + plan.byte_count as usize;
        let bytes = self.files[&plan.file_name][from..to].to_vec();
        Some(self.store.chunk_read(cursor, &plan, &bytes))
    }

    fn read_chunk(&self, cursor_ms: u64, max_duration_ms: u64) -> Option<StoredPcmChunk> {
        let (mut cursor, plan) = self.store.read_chunk(cursor_ms, max_duration_ms)?;
        let from = plan.byte_offset as usize;
        let to = from + plan.byte_count as usize;
        let bytes = self.files[&plan.file_name][from..to].to_vec();
        Some(self.store.chunk_read(&mut cursor, &plan, &bytes))
    }
}

fn floats(chunk: &StoredPcmChunk) -> Vec<f32> {
    chunk.samples.iter().map(|bits| f32::from_bits(*bits)).collect()
}

fn samples(frames: usize, channels: u16) -> Vec<f32> {
    (0..(frames * usize::from(channels)))
        .map(|i| i as f32 / 32.0)
        .collect()
}

#[test]
fn rotates_segments_when_file_size_limit_is_reached() {
    let mut store = Recording::new_session(RETENTION_MS);
    let chunk = vec![0.0f32; 1_000_000];
    for offset in 0..20 {
        store.append_pcm(48_000, 1, &chunk, 1_000 + offset * 1_000);
    }
    store.append_pcm(48_000, 1, &[0.5; 64], 2_000);

    let segment_count = store
        .files
        .keys()
        .filter(|name| name.ends_with(".pcm"))
        .count();
    assert!(segment_count >= 2);
}

#[test]
fn prunes_old_segments_after_retention_window() {
    let mut store = Recording::new_session(2_000);
    store.append_pcm(1_000, 1, &samples(1_000, 1), 1_000);
    store.append_pcm(1_000, 1, &samples(1_000, 1), 4_500);

    assert!(store.store.earliest_timestamp_ms().expect("missing earliest") >= 2_500);
    assert_eq!(store.files.len(), 1);
}

#[test]
fn reads_back_audio_at_persisted_cursor() {
    let mut store = Recording::new_session(RETENTION_MS);
    store.append_pcm(1_000, 2, &samples(1_000, 2), 1_000);

    let chunk = store.read_chunk(500, 250).expect("missing chunk");
    assert_eq!(chunk.channels, 2);
    assert_eq!(chunk.sample_rate, 1_000);
    assert_eq!(chunk.samples.len(), 500);
    assert!(chunk.end_ms > chunk.start_ms);
    assert_eq!(chunk.start_ms, 500);
    assert_eq!(chunk.end_ms, 750);
    assert_eq!(floats(&chunk), samples(1_000, 2)[1_000..1_500].to_vec());
}

#[test]
fn sequential_cursor_reads_do_not_drop_or_duplicate_samples() {
    let mut store = Recording::new_session(RETENTION_MS);
    let original = samples(44_100, 1);
    store.append_pcm(44_100, 1, &original, 1_000);

    let mut cursor = store.store.cursor_for_ms(0).expect("cursor");
    let mut recovered = Vec::new();

    while let Some(chunk) = store.read_chunk_from(&mut cursor, 137) {
        recovered.extend_from_slice(&floats(&chunk));
        if recovered.len() >= original.len() {
            break;
        }
    }

    assert_eq!(recovered.len(), original.len());
    assert_eq!(recovered, original);
}

#[test]
fn reads_go_on_over_segments_of_another_kind() {
    let mut store = Recording::new_session(RETENTION_MS);
    let first = samples(100, 2);
    let second = samples(50, 1);
    assert_eq!(store.append_pcm(1_000, 2, &first, 1_000), (900, 1_000));
    assert_eq!(store.append_pcm(500, 1, &second, 1_100), (1_000, 1_100));
    assert_eq!(store.files.len(), 2);
    assert!(store.files.contains_key("segment-000000.pcm"));
    assert!(store.files.contains_key("segment-000001.pcm"));

    let mut cursor = store.store.cursor_for_ms(900).expect("cursor");
    let mut recovered = Vec::new();
    while let Some(chunk) = store.read_chunk_from(&mut cursor, 30) {
        recovered.extend_from_slice(&floats(&chunk));
    }
    let mut written = first.clone();
    written.extend_from_slice(&second);
    assert_eq!(recovered, written);

    let more = samples(10, 1);
    store.append_pcm(500, 1, &more, 1_120);
    let rest = store.read_chunk_from(&mut cursor, 1_000).expect("rest");
    assert_eq!(floats(&rest), more);
}

#[test]
fn a_cursor_of_a_dropped_segment_goes_on_by_time() {
    let mut store = Recording::new_session(1_000);
    store.append_pcm(1_000, 1, &samples(100, 1), 1_000);
    let mut cursor = store.store.cursor_for_ms(950).expect("cursor");
    assert_eq!(cursor.frame_offset, 50);
    store.append_pcm(1_000, 1, &samples(100, 1), 5_000);
    assert_eq!(store.files.len(), 1);
    let chunk = store.read_chunk_from(&mut cursor, 10).expect("chunk");
    assert_eq!(chunk.start_ms, 4_900);
    assert_eq!(chunk.samples.len(), 10);
    assert_eq!(cursor.frame_offset, 10);
}

#[test]
fn times_are_held_to_the_recording() {
    let mut store = Recording::new_session(RETENTION_MS);
    assert_eq!(store.store.earliest_timestamp_ms(), None);
    assert_eq!(store.store.clamp_cursor_ms(77), 77);
    assert!(store.store.cursor_for_ms(0).is_none());
    store.append_pcm(1_000, 1, &samples(100, 1), 1_000);
    store.append_pcm(1_000, 1, &samples(100, 1), 9_000);
    assert_eq!(store.store.clamp_cursor_ms(0), 0);
    assert_eq!(store.store.clamp_cursor_ms(1), 900);
    assert_eq!(store.store.clamp_cursor_ms(950), 950);
    assert_eq!(store.store.clamp_cursor_ms(10_000), 9_000);
    assert_eq!(store.store.next_available_timestamp_ms(1_000), Some(8_900));
    assert_eq!(store.store.next_available_timestamp_ms(8_900), None);
}

#[test]
fn chunks_follow_each_other_unless_there_is_a_gap() {
    assert_eq!(compute_chunk_timing(0, 0, 2, 10, 5), None);
    assert_eq!(compute_chunk_timing(0, 10, 0, 10, 5), None);
    assert_eq!(compute_chunk_timing(0, 10, 2, 1, 5), None);
    assert_eq!(compute_chunk_timing(0, 1_000, 1, 100, 1_000), Some((900, 1_000)));
    assert_eq!(compute_chunk_timing(0, 48_000, 1, 1, 1_000), Some((999, 1_000)));
    assert_eq!(
        compute_chunk_timing(1_000, 1_000, 1, 100, 2_600),
        Some((1_000, 1_100))
    );
    assert_eq!(
        compute_chunk_timing(1_000, 1_000, 1, 100, 2_601),
        Some((2_501, 2_601))
    );
    assert_eq!(compute_chunk_timing(0, 1_000, 1, 100, 50), Some((0, 100)));
}

#[test]
fn samples_are_kept_with_their_lowest_byte_first() {
    assert_eq!(encode_samples(&[0x0403_0201]), vec![1, 2, 3, 4]);
    assert_eq!(decode_samples(&[1, 2, 3, 4, 5]), vec![0x0403_0201]);
    let bits = [1.5f32.to_bits(), (-0.25f32).to_bits(), f32::MIN_POSITIVE.to_bits()];
    assert_eq!(decode_samples(&encode_samples(&bits)), bits.to_vec());
    assert_eq!(encode_samples(&[1.5f32.to_bits()]), 1.5f32.to_le_bytes().to_vec());
}

#[test]
fn audio_without_a_frame_is_left_out() {
    let mut store = Recording::new_session(RETENTION_MS);
    store.append_pcm(1_000, 1, &samples(100, 1), 1_000);
    assert_eq!(store.append_pcm(1_000, 2, &[0.5], 2_000), (1_000, 1_000));
    assert_eq!(store.files.len(), 1);
}
