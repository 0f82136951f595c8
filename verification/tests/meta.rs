use listenmoe::listen::clock::PlaybackClock;
use listenmoe::meta::control::{
    ends_before_connect, handle_outer_control, ControlPoll, MetaLoop, OuterLoopAction,
};
use listenmoe::meta::controller::{timeline_path, Control, Meta, MetaOrder};
use listenmoe::meta::history::{
    history_tracks, history_useragent, history_variables, CreatedAt, PlayHistoryEntry,
};
use listenmoe::meta::session::{
    read_hello_heartbeat, resync_ui, retention_floor, schedule_next_ui_switch, GatewayRead,
    GatewaySession, HelloRead, NextSwitch, Resync, SessionAction, UiSchedule,
};
use listenmoe::meta::time_parse::{nanos_to_millis, parse_rfc3339_timestamp_ms, parse_track_info};
use listenmoe::meta::track::{SongInfo, TrackInfo};
use listenmoe::station::Station;

fn song(title: &str, duration_secs: u32) -> SongInfo {
    SongInfo {
        artist: "Artist".to_string(),
        title: title.to_string(),
        album: "Album".to_string(),
        album_cover: None,
        artist_image: Some("artist.jpg".to_string()),
        duration_secs,
    }
}

fn entries_of(raw: &str) -> Vec<PlayHistoryEntry> {
    let value: serde_json::Value = serde_json::from_str(raw).expect("history should parse");
    let songs = value["data"]["playStatistics"]["songs"]
        .as_array()
        .expect("songs")
        .clone();
    songs
        .iter()
        .map(|entry| PlayHistoryEntry {
            song: entry["song"].as_object().map(|s| SongInfo {
                artist: s["artists"][0]["name"].as_str().unwrap_or("").to_string(),
                title: s["title"].as_str().unwrap_or("").to_string(),
                album: s["albums"][0]["name"].as_str().unwrap_or("").to_string(),
                album_cover: s["albums"][0]["image"].as_str().map(str::to_string),
                artist_image: s["artists"][0]["image"].as_str().map(str::to_string),
                duration_secs: s["duration"].as_u64().unwrap_or(0) as u32,
            }),
            created_at: match entry["createdAt"].as_u64() {
                Some(ms) => CreatedAt::Number(ms),
                None => CreatedAt::String(entry["createdAt"].as_str().unwrap_or("").to_string()),
            },
        })
        .collect()
}

#[test]
fn parses_recent_history_start_timestamps() {
    let raw = r#"{
          "data": {
            "playStatistics": {
              "songs": [
                {
                  "song": {
                    "title": "Current",
                    "duration": 180,
                    "artists": [{ "name": "Artist", "image": "artist.jpg" }],
                    "albums": [{ "name": "Album", "image": "album.jpg" }]
                  },
                  "createdAt": "1774866158963"
                },
                {
                  "song": {
                    "title": "Previous",
                    "duration": 120,
                    "artists": [{ "name": "Prev Artist", "image": null }],
                    "albums": [{ "name": "Prev Album", "image": null }]
                  },
                  "createdAt": 1774866038963
                }
              ]
            }
          }
        }"#;

    let tracks = history_tracks(&entries_of(raw));
    assert_eq!(tracks.len(), 2);
    assert_eq!(tracks[0].title, "Previous");
    assert_eq!(tracks[0].start_time_ms, 1_774_866_038_963);
    assert_eq!(tracks[1].title, "Current");
    assert_eq!(tracks[1].start_time_ms, 1_774_866_158_963);
}

#[test]
fn history_leaves_out_what_it_cannot_read_and_keeps_equal_starts_in_order() {
    let entry = |song: Option<SongInfo>, at: CreatedAt| PlayHistoryEntry { song, created_at: at };
    let entries = vec![
        entry(Some(song("c", 1)), CreatedAt::Number(30)),
        entry(None, CreatedAt::Number(5)),
        entry(Some(song("a", 1)), CreatedAt::String("10".to_string())),
        entry(Some(song("x", 1)), CreatedAt::String("ten".to_string())),
        entry(Some(song("x", 1)), CreatedAt::String(String::new())),
        entry(Some(song("d", 1)), CreatedAt::Number(30)),
        entry(Some(song("b", 1)), CreatedAt::String("+20".to_string())),
    ];
    let titles: Vec<String> = history_tracks(&entries)
        .iter()
        .map(|track| track.title.clone())
        .collect();
    assert_eq!(titles, vec!["a", "b", "c", "d"]);
    let variables = history_variables(Station::Kpop, 8);
    assert!(variables.kpop);
    assert_eq!((variables.offset, variables.count), (0, 8));
    assert_eq!(history_useragent("listenmoe", "1.0"), "listenmoe/1.0");
}

#[test]
fn tracks_play_from_their_start_to_their_end() {
    let mut track: TrackInfo = parse_track_info("1970-01-01T00:00:10Z", &song("t", 5))
        .expect("track");
    assert_eq!(track.start_time_ms, 10_000);
    assert_eq!(track.end_time_ms(), 15_000);
    assert_eq!(track.artist_image.as_deref(), Some("artist.jpg"));
    assert!(!track.contains_timestamp_ms(9_999));
    assert!(track.contains_timestamp_ms(10_000));
    assert!(track.contains_timestamp_ms(14_999));
    assert!(!track.contains_timestamp_ms(15_000));
    track.duration_secs = 0;
    assert!(track.contains_timestamp_ms(u64::MAX));
    track.duration_secs = 1;
    track.start_time_ms = u64::MAX;
    assert_eq!(track.end_time_ms(), u64::MAX);
}

#[test]
fn times_of_the_gateway_are_read_as_milliseconds() {
    assert_eq!(parse_rfc3339_timestamp_ms("1970-01-01T00:00:01.500Z"), Some(1_500));
    assert_eq!(
        parse_rfc3339_timestamp_ms("1970-01-01T01:00:00+01:00"),
        Some(0)
    );
    assert_eq!(
        parse_rfc3339_timestamp_ms("2026-03-30T10:22:38.963Z"),
        Some(1_774_866_158_963)
    );
    assert_eq!(parse_rfc3339_timestamp_ms("1969-12-31T23:59:59Z"), None);
    assert_eq!(parse_rfc3339_timestamp_ms("1969-12-31T23:59:59.9995Z"), Some(0));
    assert_eq!(parse_rfc3339_timestamp_ms("yesterday"), None);
    assert!(parse_track_info("yesterday", &song("t", 5)).is_none());
    assert_eq!(nanos_to_millis(-999_999), Some(0));
    assert_eq!(nanos_to_millis(-1_000_000), None);
    assert_eq!(nanos_to_millis(1_999_999), Some(1));
    assert_eq!(nanos_to_millis(i128::MAX), None);
}

#[test]
fn the_gateway_is_started_paused_and_stopped() {
    let mut meta = Meta::new(Station::Jpop);
    assert_eq!(meta.pause(), MetaOrder { send: None, spawn: None });
    assert_eq!(
        meta.start(),
        MetaOrder { send: None, spawn: Some(Station::Jpop) }
    );
    assert_eq!(
        meta.start(),
        MetaOrder { send: Some(Control::Resume), spawn: None }
    );
    assert_eq!(
        meta.pause(),
        MetaOrder { send: Some(Control::Pause), spawn: None }
    );
    assert_eq!(
        meta.set_station(Station::Kpop),
        MetaOrder { send: Some(Control::Stop), spawn: Some(Station::Kpop) }
    );
    assert_eq!(
        meta.stop(),
        MetaOrder { send: Some(Control::Stop), spawn: None }
    );
    assert_eq!(
        meta.set_station(Station::Jpop),
        MetaOrder { send: None, spawn: None }
    );
    assert_eq!(
        timeline_path("ns", Station::Jpop, 3),
        vec!["ns", "timeshift", "jpop", "session-3", "timeline.json"]
    );
}

#[test]
fn the_outer_loop_waits_and_stops_as_told() {
    let mut paused = false;
    assert_eq!(
        handle_outer_control(ControlPoll::Empty, &mut paused, 0),
        OuterLoopAction::Continue
    );
    assert_eq!(
        handle_outer_control(ControlPoll::Command(Control::Pause), &mut paused, 0),
        OuterLoopAction::SleepMs(1_000)
    );
    assert!(paused);
    assert_eq!(
        handle_outer_control(ControlPoll::Command(Control::Resume), &mut paused, 0),
        OuterLoopAction::SleepMs(1_000)
    );
    assert!(!paused);
    assert_eq!(
        handle_outer_control(ControlPoll::Disconnected, &mut paused, 0),
        OuterLoopAction::Stop
    );
    let mut outer = MetaLoop::new();
    assert_eq!(outer.before_session(ControlPoll::Empty), OuterLoopAction::Continue);
    assert_eq!(
        outer.after_session(ControlPoll::Empty),
        OuterLoopAction::SleepMs(5_000)
    );
    assert_eq!(
        outer.after_session(ControlPoll::Command(Control::Stop)),
        OuterLoopAction::Stop
    );
}

#[test]
fn only_a_stop_or_a_closed_channel_ends_a_session_before_it_connects() {
    assert!(ends_before_connect(ControlPoll::Command(Control::Stop)));
    assert!(ends_before_connect(ControlPoll::Disconnected));
    assert!(!ends_before_connect(ControlPoll::Command(Control::Pause)));
    assert!(!ends_before_connect(ControlPoll::Command(Control::Resume)));
    assert!(!ends_before_connect(ControlPoll::Empty));
}

#[test]
fn heartbeats_are_sent_and_missed() {
    let ms = 1_000_000u128;
    let mut session = GatewaySession::new(Some(100), 0);
    assert!(!session.heartbeat_due(99 * ms));
    assert!(session.heartbeat_due(100 * ms));
    assert_eq!(
        session.on_heartbeat_sent(true, 100 * ms),
        SessionAction::Continue
    );
    assert!(!session.heartbeat_due(150 * ms));
    assert_eq!(session.on_heartbeat_sent(false, 0), SessionAction::End);
    assert!(!session.timed_out(300 * ms));
    assert!(session.timed_out(300 * ms + 1));
    let mut schedule = UiSchedule::new();
    assert_eq!(
        session.on_read(GatewayRead::HeartbeatAck, 200 * ms, false, false, &mut schedule),
        SessionAction::Continue
    );
    assert!(!session.timed_out(500 * ms));
    let mut quiet = GatewaySession::new(None, 0);
    assert!(!quiet.heartbeat_due(1_000_000 * ms));
    assert!(!quiet.timed_out(30_000 * ms));
    assert!(quiet.timed_out(30_001 * ms));
    let _ = quiet.on_read(GatewayRead::Other, 10_000 * ms, false, false, &mut schedule);
    assert!(!quiet.timed_out(40_000 * ms));
    let _ = quiet.on_read(GatewayRead::Malformed, 20_000 * ms, false, false, &mut schedule);
    assert!(quiet.timed_out(40_001 * ms));
    assert_eq!(read_hello_heartbeat(HelloRead::Hello(35_000)), Ok(Some(35_000)));
    assert_eq!(read_hello_heartbeat(HelloRead::Other), Ok(None));
    assert_eq!(read_hello_heartbeat(HelloRead::Closed), Ok(None));
    assert_eq!(read_hello_heartbeat(HelloRead::Failed), Err(()));
}

#[test]
fn news_of_tracks_are_shown_at_once_later_or_not_at_all() {
    let mut session = GatewaySession::new(None, 0);
    let mut schedule = UiSchedule::new();
    let mut paused = false;
    let token = schedule.issue();
    assert!(schedule.is_current(token));
    assert_eq!(
        session.on_read(GatewayRead::Tracks, 1, paused, true, &mut schedule),
        SessionAction::ShowCurrent
    );
    assert!(!schedule.is_current(token));
    assert_eq!(
        session.on_read(GatewayRead::Tracks, 1, paused, false, &mut schedule),
        SessionAction::Resync
    );
    assert_eq!(
        session.on_control(ControlPoll::Command(Control::Pause), &mut paused, &mut schedule),
        SessionAction::Continue
    );
    assert!(paused);
    assert_eq!(
        session.on_read(GatewayRead::Tracks, 1, paused, false, &mut schedule),
        SessionAction::Continue
    );
    assert_eq!(
        session.on_control(ControlPoll::Command(Control::Resume), &mut paused, &mut schedule),
        SessionAction::Resync
    );
    assert!(!paused);
    assert_eq!(
        session.on_control(ControlPoll::Disconnected, &mut paused, &mut schedule),
        SessionAction::End
    );
    assert_eq!(
        session.on_read(GatewayRead::Closed, 1, paused, false, &mut schedule),
        SessionAction::End
    );
    assert_eq!(
        session.on_read(GatewayRead::Failed, 1, paused, false, &mut schedule),
        SessionAction::Fail
    );
}

#[test]
fn the_shown_track_follows_the_listener() {
    let mut schedule = UiSchedule::new();
    let mut clock = PlaybackClock::new();
    let later = resync_ui(&mut schedule, &clock);
    match later {
        Resync::Later { token } => assert!(schedule.is_current(token)),
        Resync::At { .. } => panic!("the clock does not run"),
    }
    clock.set_live_head_ms(700_000_000);
    assert_eq!(
        resync_ui(&mut schedule, &clock),
        Resync::At { cursor_ms: 700_000_000 }
    );
    clock.set_playback_cursor_ms(5_000);
    assert_eq!(
        resync_ui(&mut schedule, &clock),
        Resync::At { cursor_ms: 5_000 }
    );
    assert_eq!(schedule_next_ui_switch(&mut schedule, None, 5_000), None);
    let next = schedule_next_ui_switch(&mut schedule, Some(8_000), 5_000);
    assert_eq!(
        next,
        Some(NextSwitch { token: schedule.newest, wait_ms: 3_000 })
    );
    let late = schedule_next_ui_switch(&mut schedule, Some(4_000), 5_000);
    assert_eq!(late.map(|switch| switch.wait_ms), Some(0));
    assert_eq!(retention_floor(&clock), 700_000_000 - 604_800_000);
}
