use listenmoe::volume::controller::{
    after_connection, connecting_step, drain_to_latest, receive_pending_commands,
    wait_before_retry, CommandPoll, Connecting, ConnectionOutcome, Listing, Operation, Serving,
    ServerState, StreamReport, VolumeConnection,
};
use listenmoe::volume::identity::{
    configure_stream_identity, instance_marker_from, matches_stream_identity, running_in_flatpak,
    StreamIdentity,
};
use listenmoe::volume::level::{
    percent_to_raw, planned_actions, raw_to_percent, DesiredVolume, EventEmitter, GainMode,
    PlannedAction, VolumeCommand, VolumeEvent, RAW_MUTED, RAW_NORMAL,
};
use listenmoe::volume::properties::{
    balanced_spa_object, escape_spa_string, merge_pipewire_props, valid_pipewire_object_body,
};
use listenmoe::volume::tracker::{StreamTracker, StreamUpdate, TrackedStream};

fn desired(raw_percent: u32, muted: bool) -> DesiredVolume {
    DesiredVolume { raw_percent, muted }
}

fn available(raw_percent: u32, muted: bool) -> VolumeEvent {
    VolumeEvent::Available { raw_percent, muted }
}

#[test]
fn instance_markers_use_uuid_and_unique_fallback_material() {
    assert_eq!(
        instance_marker_from(Some(" uuid-123\n"), "2", 10),
        "listenmoe-uuid-123"
    );
    assert_ne!(
        instance_marker_from(None, "2", 10),
        instance_marker_from(None, "2", 11)
    );
    assert_ne!(instance_marker_from(None, "2", 10), "2");
}

#[test]
fn stream_matching_prefers_marker_and_disables_pid_fallback_in_flatpak() {
    let direct = StreamIdentity::new("instance-123", "42", true);
    let flatpak = StreamIdentity::new("instance-123", "2", false);

    assert!(matches_stream_identity(
        Some("instance-123"),
        Some("unrelated-process"),
        &direct,
    ));
    assert!(matches_stream_identity(None, Some("42"), &direct));
    assert!(matches_stream_identity(
        Some("instance-123"),
        Some("2"),
        &flatpak
    ));
    assert!(!matches_stream_identity(None, Some("2"), &flatpak));

    assert!(!matches_stream_identity(
        Some("another-instance"),
        Some("42"),
        &direct,
    ));
    assert!(!matches_stream_identity(None, None, &direct));
}

#[test]
fn pipewire_merge_preserves_valid_existing_properties() {
    let merged = merge_pipewire_props(
        Some(" { custom.key = \"kept\" nested = { enabled = true } } "),
        "io.github.example.Listen",
        "random-marker",
        "1234",
    );

    assert!(merged.starts_with("{ custom.key = \"kept\" nested = { enabled = true }"));
    assert!(merged.contains("application.name = \"Listen Moe\""));
    assert!(merged.contains("application.id = \"io.github.example.Listen\""));
    assert!(merged.contains("application.process.id = \"1234\""));
    assert!(merged.contains("listenmoe.instance.id = \"random-marker\""));
}

#[test]
fn pipewire_merge_discards_malformed_existing_properties() {
    let merged = merge_pipewire_props(
        Some("{ custom.key = \"unterminated }"),
        "io.github.example.Listen",
        "random-marker",
        "1234",
    );

    assert!(!merged.contains("custom.key"));
    assert!(merged.starts_with("{ application.name"));
}

#[test]
fn pipewire_values_are_escaped() {
    let merged = merge_pipewire_props(None, "an\\app\"id\n", "marker\tvalue", "12");

    assert!(merged.contains("application.id = \"an\\\\app\\\"id\\n\""));
    assert!(merged.contains("listenmoe.instance.id = \"marker\\tvalue\""));
}

#[test]
fn first_discovered_stream_wins_without_a_desired_value() {
    let mut tracker = StreamTracker::default();
    assert_eq!(
        tracker.observe(4, 45, false, 2),
        StreamUpdate::Publish(VolumeEvent::Available {
            raw_percent: 45,
            muted: false,
        })
    );
    assert_eq!(
        tracker.observe(9, 82, false, 2),
        StreamUpdate::Apply(desired(45, false))
    );

    assert_eq!(
        tracker.current_event(),
        VolumeEvent::Available {
            raw_percent: 45,
            muted: false,
        }
    );

    tracker.remove(4);
    assert_eq!(tracker.current_event(), VolumeEvent::Unavailable);

    assert_eq!(
        tracker.observe(9, 45, false, 2),
        StreamUpdate::Publish(VolumeEvent::Available {
            raw_percent: 45,
            muted: false,
        })
    );
    assert_eq!(
        tracker.current_event(),
        VolumeEvent::Available {
            raw_percent: 45,
            muted: false,
        }
    );
}

#[test]
fn desired_before_discovery_suppresses_stale_state_and_reapplies_until_confirmed() {
    let mut tracker = StreamTracker::new(Some(desired(37, false)));

    assert_eq!(
        tracker.observe(4, 100, false, 2),
        StreamUpdate::Apply(desired(37, false))
    );
    assert_eq!(tracker.current_event(), VolumeEvent::Unavailable);
    assert_eq!(
        tracker.observe(4, 37, true, 2),
        StreamUpdate::Apply(desired(37, false))
    );
    assert_eq!(tracker.current_event(), VolumeEvent::Unavailable);
    assert_eq!(
        tracker.observe(4, 37, false, 2),
        StreamUpdate::Publish(VolumeEvent::Available {
            raw_percent: 37,
            muted: false,
        })
    );
}

#[test]
fn external_change_becomes_shared_desired_value() {
    let mut tracker = StreamTracker::new(None);
    let _ = tracker.observe(4, 45, false, 2);
    let _ = tracker.observe(9, 45, false, 2);

    assert_eq!(
        tracker.observe(4, 63, false, 2),
        StreamUpdate::PublishAndApply {
            event: VolumeEvent::Available {
                raw_percent: 63,
                muted: false,
            },
            desired: desired(63, false),
            except: 4,
        }
    );
    assert_eq!(tracker.desired, Some(desired(63, false)));
    assert_eq!(tracker.streams[&9].pending, Some(desired(63, false)));
}

#[test]
fn conversion_preserves_amplified_server_values() {
    let amplified_raw = RAW_NORMAL + RAW_NORMAL / 2;
    assert_eq!(raw_to_percent(amplified_raw), 150);
    assert_eq!(raw_to_percent(RAW_NORMAL), 100);
    assert_eq!(percent_to_raw(100), RAW_NORMAL);
    assert_eq!(percent_to_raw(150), amplified_raw);

    assert_eq!(
        DesiredVolume::from_command(VolumeCommand::SetPercent(150)),
        desired(100, false)
    );
}

#[test]
fn external_mute_preserves_raw_level_across_stream_recreation() {
    let mut tracker = StreamTracker::new(None);
    let _ = tracker.observe(4, 68, false, 2);

    assert_eq!(
        tracker.observe(4, 68, true, 2),
        StreamUpdate::PublishAndApply {
            event: VolumeEvent::Available {
                raw_percent: 68,
                muted: true,
            },
            desired: desired(68, true),
            except: 4,
        }
    );
    assert_eq!(tracker.desired, Some(desired(68, true)));

    tracker.remove(4);
    assert_eq!(
        tracker.observe(9, 100, false, 2),
        StreamUpdate::Apply(desired(68, true))
    );
    assert_eq!(
        planned_actions(9, 2, desired(68, true)),
        [
            PlannedAction::SetVolume {
                index: 9,
                channels: 2,
                raw_volume: percent_to_raw(68),
            },
            PlannedAction::SetMute {
                index: 9,
                muted: true,
            },
        ]
    );

    assert_eq!(
        tracker.observe(9, 68, false, 2),
        StreamUpdate::Apply(desired(68, true))
    );
    assert_eq!(
        tracker.observe(9, 68, true, 2),
        StreamUpdate::Publish(VolumeEvent::Available {
            raw_percent: 68,
            muted: true,
        })
    );
}

#[test]
fn zero_sets_every_stream_to_zero_and_unmutes() {
    assert_eq!(
        DesiredVolume::from_command(VolumeCommand::SetPercent(0)),
        desired(0, false)
    );
    let mut tracker = StreamTracker::default();
    let _ = tracker.observe(4, 73, true, 2);
    tracker.streams.insert(
        9,
        TrackedStream {
            raw_percent: 41,
            muted: false,
            channels: 6,
            pending: None,
        },
    );

    assert_eq!(
        tracker.plan(desired(0, false)),
        vec![
            PlannedAction::SetVolume {
                index: 4,
                channels: 2,
                raw_volume: RAW_MUTED,
            },
            PlannedAction::SetMute {
                index: 4,
                muted: false,
            },
            PlannedAction::SetVolume {
                index: 9,
                channels: 6,
                raw_volume: RAW_MUTED,
            },
            PlannedAction::SetMute {
                index: 9,
                muted: false,
            },
        ]
    );
}

#[test]
fn positive_value_updates_and_unmutes_every_stream() {
    assert_eq!(
        DesiredVolume::from_command(VolumeCommand::SetPercent(55)),
        desired(55, false)
    );
    let mut tracker = StreamTracker::default();
    let _ = tracker.observe(4, 20, true, 2);
    tracker.streams.insert(
        9,
        TrackedStream {
            raw_percent: 80,
            muted: false,
            channels: 6,
            pending: None,
        },
    );
    let raw_volume = percent_to_raw(55);

    assert_eq!(
        tracker.plan(desired(55, false)),
        vec![
            PlannedAction::SetVolume {
                index: 4,
                channels: 2,
                raw_volume,
            },
            PlannedAction::SetMute {
                index: 4,
                muted: false,
            },
            PlannedAction::SetVolume {
                index: 9,
                channels: 6,
                raw_volume,
            },
            PlannedAction::SetMute {
                index: 9,
                muted: false,
            },
        ]
    );
}

#[test]
fn muted_state_keeps_the_servers_raw_level() {
    let mut tracker = StreamTracker::default();
    let _ = tracker.observe(4, 68, true, 2);

    assert_eq!(
        tracker.current_event(),
        VolumeEvent::Available {
            raw_percent: 68,
            muted: true,
        }
    );
}

#[test]
fn levels_of_the_sound_server_are_what_they_are_elsewhere() {
    assert_eq!(RAW_NORMAL, 0x10000);
    assert_eq!(RAW_MUTED, 0);
    assert_eq!(percent_to_raw(0), 0);
    assert_eq!(percent_to_raw(1), 655);
    assert_eq!(raw_to_percent(655), 1);
    assert_eq!(raw_to_percent(327), 0);
    assert_eq!(raw_to_percent(328), 1);
    assert_eq!(percent_to_raw(u32::MAX), u32::MAX / 2);
    for percent in 0..=400u32 {
        assert_eq!(raw_to_percent(percent_to_raw(percent)), percent);
    }
}

#[test]
fn markers_ignore_an_empty_uuid_and_name_the_process() {
    assert_eq!(
        instance_marker_from(Some(" \n"), "2", 10),
        instance_marker_from(None, "2", 10)
    );
    assert_ne!(
        instance_marker_from(None, "2", 10),
        instance_marker_from(None, "3", 10)
    );
    let identity = StreamIdentity::for_current_process(77, Some("abc"), 5, true);
    assert_eq!(identity.marker(), "listenmoe-abc");
    assert_eq!(identity.process_id, "77");
    assert!(!identity.allow_process_id_fallback);
    assert!(running_in_flatpak(true, false));
    assert!(running_in_flatpak(false, true));
    assert!(!running_in_flatpak(false, false));
}

#[test]
fn stream_identity_is_handed_to_both_sound_servers() {
    let identity = StreamIdentity::new("mark", "7", true);
    let assignments = configure_stream_identity(&identity, None, "app.id");
    assert_eq!(assignments.len(), 5);
    let merged = merge_pipewire_props(None, "app.id", "mark", "7");
    assert!(assignments.iter().any(|(_, value)| *value == merged));
    assert!(assignments
        .iter()
        .any(|(key, value)| key == "PULSE_PROP_listenmoe.instance.id" && value == "mark"));
}

#[test]
fn objects_of_properties_are_told_from_other_text() {
    assert!(balanced_spa_object("{ a = \"}\" }"));
    assert!(balanced_spa_object("{ a = [ 1 2 ] }"));
    assert!(!balanced_spa_object("{ a = [ 1 2 } ]"));
    assert!(!balanced_spa_object("{ a = \"x }"));
    assert_eq!(
        valid_pipewire_object_body("{ a = 1 }").as_deref(),
        Some(" a = 1 ")
    );
    assert_eq!(valid_pipewire_object_body("a = 1"), None);
    assert_eq!(escape_spa_string("a\"b\\c\r"), "a\\\"b\\\\c\\r");
}

#[test]
fn only_the_last_of_the_waiting_commands_counts() {
    let pending = vec![VolumeCommand::SetPercent(10), VolumeCommand::SetPercent(20)];
    assert_eq!(
        drain_to_latest(&pending, VolumeCommand::SetPercent(5)),
        VolumeCommand::SetPercent(20)
    );
    assert_eq!(
        drain_to_latest(&Vec::new(), VolumeCommand::SetPercent(5)),
        VolumeCommand::SetPercent(5)
    );
    let mut wish = None;
    assert_eq!(
        receive_pending_commands(&pending, false, &mut wish),
        ConnectionOutcome::Retry
    );
    assert_eq!(wish, Some(desired(20, false)));
    assert_eq!(
        receive_pending_commands(&Vec::new(), true, &mut wish),
        ConnectionOutcome::Shutdown
    );
}

#[test]
fn connecting_waits_until_the_server_is_ready() {
    let mut wish = None;
    let none = Vec::new();
    assert_eq!(
        connecting_step(true, &none, false, ServerState::Other, &mut wish),
        Connecting::Wait
    );
    assert_eq!(
        connecting_step(true, &none, false, ServerState::Ready, &mut wish),
        Connecting::Ready
    );
    assert_eq!(
        connecting_step(true, &none, false, ServerState::Failed, &mut wish),
        Connecting::Ended(ConnectionOutcome::Retry)
    );
    assert_eq!(
        connecting_step(false, &none, false, ServerState::Ready, &mut wish),
        Connecting::Ended(ConnectionOutcome::Retry)
    );
    assert_eq!(
        connecting_step(true, &none, true, ServerState::Ready, &mut wish),
        Connecting::Ended(ConnectionOutcome::Shutdown)
    );
    assert_eq!(wait_before_retry(CommandPoll::Timeout, 5, 5, &mut wish), Some(true));
    assert_eq!(
        wait_before_retry(
            CommandPoll::Command(VolumeCommand::SetPercent(3)),
            4,
            5,
            &mut wish
        ),
        None
    );
    assert_eq!(wish, Some(desired(3, false)));
    assert_eq!(
        wait_before_retry(CommandPoll::Disconnected, 4, 5, &mut wish),
        Some(false)
    );
}

fn report(index: u32, raw_volume: u32, muted: bool) -> StreamReport {
    StreamReport {
        index,
        instance_marker: Some("mark".to_string()),
        process_id: None,
        has_volume: true,
        volume_writable: true,
        channels: 2,
        raw_volume,
        muted,
    }
}

#[test]
fn a_connection_publishes_what_is_news_and_brings_streams_to_what_is_desired() {
    let identity = StreamIdentity::new("mark", "7", true);
    let emitter = EventEmitter::new(VolumeEvent::Unavailable);
    let mut connection = VolumeConnection::new(None, emitter);

    let first = connection.on_all_streams(
        &identity,
        &Listing::Item(report(4, percent_to_raw(45), false)),
    );
    assert_eq!(first.event, Some(available(45, false)));
    assert!(first.actions.is_empty());

    let again = connection.on_all_streams(&identity, &Listing::End);
    assert_eq!(again.event, None);

    let second = connection.on_all_streams(
        &identity,
        &Listing::Item(report(9, percent_to_raw(80), false)),
    );
    assert_eq!(second.event, None);
    assert_eq!(
        second.actions,
        planned_actions(9, 2, desired(45, false)).to_vec()
    );

    let mut foreign = report(4, percent_to_raw(45), false);
    foreign.instance_marker = Some("other".to_string());
    let gone = connection.on_all_streams(&identity, &Listing::Item(foreign));
    assert_eq!(gone.event, Some(VolumeEvent::Unavailable));

    match connection.on_poll(
        CommandPoll::Command(VolumeCommand::SetPercent(30)),
        &Vec::new(),
    ) {
        Serving::Continue(actions) => {
            assert_eq!(actions, planned_actions(9, 2, desired(30, false)).to_vec())
        }
        Serving::Ended(_) => panic!("the connection goes on"),
    }
    assert!(matches!(
        connection.on_poll(CommandPoll::Disconnected, &Vec::new()),
        Serving::Ended(ConnectionOutcome::Shutdown)
    ));
}

#[test]
fn notices_ask_for_streams_once_and_forget_those_that_are_gone() {
    let identity = StreamIdentity::new("mark", "7", true);
    let mut connection =
        VolumeConnection::new(None, EventEmitter::new(VolumeEvent::Unavailable));
    assert_eq!(connection.on_notice(true, Operation::New, 4), None);
    assert_eq!(connection.on_notice(false, Operation::New, 5), None);
    let asked = connection.take_refreshes();
    assert!(asked.contains(&4) && asked.len() == 1);
    assert!(connection.take_refreshes().is_empty());

    let mut saw_item = false;
    let found = connection.on_stream(
        &identity,
        4,
        &mut saw_item,
        &Listing::Item(report(4, RAW_NORMAL, false)),
    );
    assert_eq!(found.event, Some(available(100, false)));
    assert!(saw_item);
    assert_eq!(
        connection.on_notice(true, Operation::Removed, 4),
        Some(VolumeEvent::Unavailable)
    );

    assert_eq!(connection.check(true, ServerState::Ready), None);
    connection.on_subscribed(false);
    assert_eq!(
        connection.check(true, ServerState::Ready),
        Some(ConnectionOutcome::Retry)
    );
    let mut emitter = EventEmitter::new(VolumeEvent::Unavailable);
    assert_eq!(
        after_connection(&mut emitter, ConnectionOutcome::Retry),
        Some(Some(VolumeEvent::Disconnected))
    );
    assert_eq!(
        after_connection(&mut emitter, ConnectionOutcome::Retry),
        Some(None)
    );
    assert_eq!(after_connection(&mut emitter, ConnectionOutcome::Shutdown), None);
}

#[test]
fn the_playback_lowers_its_own_volume_only_where_the_server_cannot() {
    let mode = GainMode::Playback;
    assert_eq!(mode.playback_percent(37), 37);
    assert_eq!(mode.playback_percent(u8::MAX), 100);

    let mode = mode.after(VolumeEvent::Available { raw_percent: 37, muted: false });
    assert_eq!(mode, GainMode::Server);
    assert_eq!(mode.playback_percent(37), 100);
    assert_eq!(mode.after(VolumeEvent::Disconnected), GainMode::Server);

    let mode = mode.after(VolumeEvent::Unavailable);
    assert_eq!(mode, GainMode::Playback);
    assert_eq!(mode.after(VolumeEvent::Disconnected), GainMode::Playback);
}
