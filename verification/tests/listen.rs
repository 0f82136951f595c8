use listenmoe::listen::clock::PlaybackClock;
use listenmoe::listen::controller::{
    listen_cache_namespace, timeshift_root, Control, Listen, PlayState, StreamOrder,
};
use listenmoe::listen::ingest::{note_appended, Ingest, IngestAction};
use listenmoe::listen::live::{
    handle_stop_control, LiveAction, LiveClockTracker, LiveSession, PacketAudio, PacketOutcome,
    PacketRead,
};
use listenmoe::listen::output::{
    note_played, DoneNotifier, FillStep, OutputLoop, OutputNext, SinkAction, Waited,
};
use listenmoe::listen::source::{
    build_useragent, is_playable, supported_track, Platform, SourceChoice, StreamTrack, TrackCodec,
};
use listenmoe::listen::store::TimeshiftStore;
use listenmoe::listen::volume::PlaybackVolume;
use listenmoe::station::{other_station, Station};
use listenmoe::wall::{now_timestamp_ms, reading_millis, reading_nanos, unique_session_id};
use std::cell::RefCell;
use std::rc::Rc;

/// What samples are multiplied by at a volume.
fn factor(volume: &PlaybackVolume) -> f32 {
    f32::from(volume.percent()) / 100.0
}

#[test]
fn resume_from_paused_preserves_playback_cursor() {
    let mut listen = Listen::new(Station::Jpop);
    listen.state = PlayState::Paused;
    listen.clock.set_live_head_ms(9_000);
    listen.clock.set_playback_cursor_ms(1_000);
    assert_eq!(listen.spectrum_bars().len(), 48);

    let order = listen.start();

    assert_eq!(listen.playback_clock().playback_cursor_ms(), 1_000);
    assert!(matches!(listen.state, PlayState::Playing));
    assert!(matches!(
        order.send.expect("missing control"),
        Control::Resume
    ));
}

#[test]
fn defaults_to_full_volume() {
    let volume = PlaybackVolume::default();

    assert_eq!(volume.percent(), 100);
    assert_eq!(factor(&volume), 1.0);
}

#[test]
fn clones_share_volume_changes() {
    let volume = Rc::new(RefCell::new(PlaybackVolume::default()));
    let playback = volume.clone();

    volume.borrow_mut().set_percent(37);

    assert_eq!(playback.borrow().percent(), 37);
    assert_eq!(factor(&playback.borrow()), 0.37);

    volume.borrow_mut().set_percent(u8::MAX);
    assert_eq!(volume.borrow().percent(), 100);
    assert_eq!(factor(&playback.borrow()), 1.0);

    volume.borrow_mut().set_percent(0);
    assert_eq!(playback.borrow().percent(), 0);
    assert_eq!(factor(&playback.borrow()), 0.0);
}

#[test]
fn volume_is_clamped_to_one_hundred_percent() {
    let mut volume = PlaybackVolume::default();

    volume.set_percent(u8::MAX);

    assert_eq!(volume.percent(), 100);
    assert_eq!(factor(&volume), 1.0);
}

#[test]
fn zero_percent_is_silent() {
    let mut volume = PlaybackVolume::default();

    volume.set_percent(0);

    assert_eq!(volume.percent(), 0);
    assert_eq!(factor(&volume), 0.0);
}

#[test]
fn the_clock_snaps_clamps_and_resets() {
    let mut clock = PlaybackClock::new();
    clock.set_live_head_ms(50);
    assert_eq!(clock.snap_playback_to_live(), 50);
    assert_eq!(clock.clamp_playback_floor(40), 50);
    assert_eq!(clock.clamp_playback_floor(70), 70);
    assert_eq!(clock.playback_cursor_ms(), 70);
    assert_eq!(clock.live_head_ms(), 50);
    clock.reset();
    assert_eq!(clock, PlaybackClock::default());
}

#[test]
fn changing_the_station_restarts_a_stream_that_runs() {
    let mut listen = Listen::new(Station::Jpop);
    assert_eq!(
        listen.set_station(Station::Kpop),
        StreamOrder { send: None, spawn: None }
    );
    assert_eq!(listen.get_station(), Station::Kpop);
    assert_eq!(
        listen.start(),
        StreamOrder { send: None, spawn: Some(Station::Kpop) }
    );
    assert_eq!(listen.start(), StreamOrder { send: None, spawn: None });
    assert_eq!(
        listen.pause(),
        StreamOrder { send: Some(Control::Pause), spawn: None }
    );
    assert_eq!(listen.pause(), StreamOrder { send: None, spawn: None });
    listen.clock.set_live_head_ms(5);
    assert_eq!(
        listen.set_station(Station::Jpop),
        StreamOrder { send: Some(Control::Stop), spawn: Some(Station::Jpop) }
    );
    assert_eq!(listen.playback_clock().live_head_ms(), 0);
    assert_eq!(
        listen.stop(),
        StreamOrder { send: Some(Control::Stop), spawn: None }
    );
    assert_eq!(listen.stop(), StreamOrder { send: None, spawn: None });
}

#[test]
fn stations_have_names_and_change_places() {
    assert_eq!(Station::Jpop.name(), "jpop");
    assert_eq!(Station::Kpop.display_name(), "K-POP");
    assert_eq!(other_station(Station::Jpop), Station::Kpop);
    assert_eq!(other_station(other_station(Station::Jpop)), Station::Jpop);
    assert_eq!(
        timeshift_root("ns", Station::Kpop, 12),
        vec!["ns", "timeshift", "kpop", "session-12"]
    );
    assert_eq!(
        listen_cache_namespace(None, true),
        "io.github.noobping.listenmoe.Devel"
    );
    assert_eq!(listen_cache_namespace(Some("x".to_string()), true), "x");
}

#[test]
fn readings_of_the_wall_clock_are_cut_to_milliseconds() {
    assert_eq!(reading_millis(None), 0);
    assert_eq!(reading_millis(Some((12, 345_678_901))), 12_345);
    assert_eq!(reading_millis(Some((u64::MAX, 0))), u64::MAX - 999);
    assert_eq!(reading_nanos(None), 0);
    assert_eq!(reading_nanos(Some((1, 2))), 1_000_000_002);
    assert!(now_timestamp_ms() > 1_600_000_000_000);
    assert!(unique_session_id() > 1_600_000_000_000_000_000);
}

#[test]
fn the_first_track_with_audio_is_played() {
    let tracks = [
        StreamTrack { id: 1, codec: TrackCodec::NotAudio },
        StreamTrack { id: 2, codec: TrackCodec::NullAudio },
        StreamTrack { id: 3, codec: TrackCodec::Audio },
        StreamTrack { id: 4, codec: TrackCodec::Audio },
    ];
    assert_eq!(supported_track(&tracks), Some(2));
    assert_eq!(supported_track(&tracks[..2]), None);
    assert_eq!(
        build_useragent("listenmoe", "1.0.0", Platform::Linux),
        "listenmoe-v1.0.0-linux"
    );
    assert!(!is_playable(0, 44_100));
    assert!(is_playable(2, 44_100));
}

#[test]
fn addresses_take_turns_only_if_there_are_two() {
    let mut two = SourceChoice::new("fallback");
    assert_eq!(two.url("primary", "fallback"), "primary");
    two.switch();
    assert_eq!(two.url("primary", "fallback"), "fallback");
    two.switch();
    assert_eq!(two.url("primary", "fallback"), "primary");
    let mut one = SourceChoice::new("");
    one.switch();
    assert_eq!(one.url("primary", ""), "primary");
}

#[test]
fn the_live_clock_follows_the_audio() {
    let mut tracker = LiveClockTracker::new(0);
    let mut clock = PlaybackClock::new();
    assert_eq!(tracker.advance_at(0, 2, 100, 10_000), None);
    assert_eq!(tracker.advance_at(1_000, 1, 100, 10_000), Some(10_000));
    tracker.flush_if_due(&mut clock);
    assert_eq!(clock.live_head_ms(), 10_000);
    assert_eq!(clock.playback_cursor_ms(), 10_000);
    assert_eq!(tracker.advance_at(1_000, 1, 249, 99_999), Some(10_249));
    tracker.flush_if_due(&mut clock);
    assert_eq!(clock.live_head_ms(), 10_000);
    assert_eq!(tracker.advance(1_000, 1, 1), Some(10_250));
    tracker.flush_if_due(&mut clock);
    assert_eq!(clock.live_head_ms(), 10_250);
    tracker.mark_reconnect();
    assert_eq!(tracker.advance_at(1_000, 2, 200, 50_000), Some(50_000));
    tracker.flush_now(&mut clock);
    assert_eq!(clock.playback_cursor_ms(), 50_000);
    let mut fresh = LiveClockTracker::new(0);
    assert!(fresh.advance(48_000, 2, 96_000).expect("counted") > 1_600_000_000_000);
}

fn decoded(outcome: PacketOutcome, audio: Option<PacketAudio>) -> PacketRead {
    PacketRead::Decoded { outcome, audio }
}

#[test]
fn the_live_session_connects_plays_and_switches() {
    let mut clock = PlaybackClock::new();
    let mut session = LiveSession::new("fallback", &clock);
    assert_eq!(session.on_poll(&mut clock, false), LiveAction::Open);
    assert_eq!(session.on_opened(false), LiveAction::RebuildClient);
    assert!(session.source.use_fallback);
    assert_eq!(session.on_opened(true), LiveAction::StartConnection);
    assert_eq!(session.on_poll(&mut clock, false), LiveAction::ReadPacket);
    let audio = PacketAudio { channels: 1, sample_rate: 1_000, sample_count: 300 };
    assert_eq!(
        session.on_packet(&mut clock, &decoded(PacketOutcome::Continue, Some(audio)), 7_000),
        LiveAction::Play
    );
    assert_eq!(clock.live_head_ms(), 7_000);
    let silent = PacketAudio { channels: 0, sample_rate: 1_000, sample_count: 300 };
    assert_eq!(
        session.on_packet(&mut clock, &decoded(PacketOutcome::Continue, Some(silent)), 8_000),
        LiveAction::Poll
    );
    assert_eq!(
        session.on_packet(&mut clock, &decoded(PacketOutcome::SpecChanged, None), 8_000),
        LiveAction::RestartQueue
    );
    assert_eq!(
        session.on_packet(&mut clock, &PacketRead::Reset { tracks: vec![] }, 8_000),
        LiveAction::FailNoTrack
    );
    let tracks = vec![StreamTrack { id: 9, codec: TrackCodec::Audio }];
    assert_eq!(
        session.on_packet(&mut clock, &PacketRead::Reset { tracks }, 8_000),
        LiveAction::UseTrack(0)
    );
    assert_eq!(
        session.on_packet(&mut clock, &PacketRead::Failed, 8_000),
        LiveAction::Poll
    );
    assert!(!session.connected && !session.source.use_fallback);
    assert_eq!(session.on_poll(&mut clock, true), LiveAction::Finish);
    assert!(handle_stop_control(&[Control::Resume, Control::Stop]));
    assert!(!handle_stop_control(&[]));
}

#[test]
fn taking_in_the_stream_sets_the_clock() {
    let mut ingest = Ingest::new("");
    assert_eq!(ingest.on_poll(false), IngestAction::Open);
    assert_eq!(ingest.on_opened(true), IngestAction::StartConnection);
    assert_eq!(ingest.on_poll(false), IngestAction::ReadPacket);
    let audio = PacketAudio { channels: 1, sample_rate: 1_000, sample_count: 300 };
    assert_eq!(
        ingest.on_packet(&decoded(PacketOutcome::Continue, Some(audio))),
        IngestAction::Append
    );
    assert_eq!(
        ingest.on_packet(&decoded(PacketOutcome::Reconnect, None)),
        IngestAction::Poll
    );
    assert_eq!(ingest.on_poll(false), IngestAction::Open);
    assert_eq!(ingest.on_poll(true), IngestAction::Finish);
    let mut clock = PlaybackClock::new();
    note_appended(&mut clock, 500, Some(100), 500);
    assert_eq!(clock.playback_cursor_ms(), 500);
    note_appended(&mut clock, 900, Some(600), 900);
    assert_eq!(clock.playback_cursor_ms(), 600);
    assert_eq!(clock.live_head_ms(), 900);
    note_appended(&mut clock, 950, None, 950);
    assert_eq!(clock.playback_cursor_ms(), 600);
}

#[test]
fn the_output_loop_obeys_commands() {
    let mut output = OutputLoop::new();
    let (effect, next) = output.on_poll(Some(Control::Pause));
    let effect = effect.expect("effect");
    assert_eq!(effect.sink, Some(SinkAction::Pause));
    assert!(effect.clear_spectrum && !effect.stop);
    assert_eq!(next, OutputNext::Poll);
    let (effect, _) = output.on_poll(Some(Control::Pause));
    assert_eq!(effect.expect("effect").sink, None);
    assert_eq!(output.on_poll(None).1, OutputNext::AwaitCommand);
    let (effect, next) = output.on_command(Waited::Received(Control::Resume));
    assert_eq!(effect.expect("effect").sink, Some(SinkAction::Play));
    assert_eq!(next, OutputNext::Restart);
    assert_eq!(output.on_poll(None).1, OutputNext::Fill);
    assert_eq!(output.after_fill(0), OutputNext::AwaitCommandBriefly);
    assert_eq!(output.after_fill(2), OutputNext::AwaitChunkBriefly);
    output.on_queued(77);
    assert_eq!(output.queued_cursor_ms, 77);
    assert_eq!(output.after_fill(2), OutputNext::Restart);
    assert_eq!(output.on_command(Waited::TimedOut).1, OutputNext::Restart);
    assert_eq!(output.on_command(Waited::Disconnected).1, OutputNext::Finish);
    assert_eq!(output.on_poll(Some(Control::Stop)).1, OutputNext::Finish);
    let mut clock = PlaybackClock::new();
    assert_eq!(
        output.on_played(&mut clock, Waited::Received(5)),
        OutputNext::Restart
    );
    assert_eq!(clock.playback_cursor_ms(), 5);
    note_played(&mut clock, &[6, 9]);
    assert_eq!(clock.playback_cursor_ms(), 9);
    let mut notifier = DoneNotifier::new(3);
    assert_eq!(notifier.notify_done(), Some(3));
    assert_eq!(notifier.notify_done(), None);
}

#[test]
fn filling_the_output_reads_on_where_it_left_off() {
    let mut store = TimeshiftStore::new_session(100_000);
    let mut clock = PlaybackClock::new();
    let mut output = OutputLoop::new();
    assert!(matches!(output.fill(&mut clock, &store, 0), FillStep::Nothing));
    assert_eq!(output.queued_cursor_ms, 0);

    let append = store
        .append_pcm(1_000, 1, &[7u32; 200], 1_000)
        .expect("append");
    store.segment_opened(&append);
    store.append_written(&append);
    assert!(matches!(output.fill(&mut clock, &store, 0), FillStep::Nothing));
    assert_eq!(output.queued_cursor_ms, 1_000);

    clock.set_playback_cursor_ms(10);
    let mut output = OutputLoop::new();
    match output.fill(&mut clock, &store, 0) {
        FillStep::Read { plan, .. } => {
            assert_eq!(plan.frame_offset, 0);
            assert_eq!(plan.frames, 50);
            assert_eq!(plan.byte_count, 200);
        }
        _ => panic!("there is something to read"),
    }
    assert_eq!(clock.playback_cursor_ms(), 800);
    output.on_queued(850);
    match output.fill(&mut clock, &store, 1) {
        FillStep::Read { plan, .. } => assert_eq!(plan.frame_offset, 50),
        _ => panic!("there is something to read"),
    }
    assert!(matches!(output.fill(&mut clock, &store, 4), FillStep::Full));
}
