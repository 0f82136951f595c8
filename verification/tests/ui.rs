use listenmoe::listen::controller::{Control, StreamOrder};
use listenmoe::meta::controller;
use listenmoe::meta::controller::MetaOrder;
use listenmoe::meta::track::TrackInfo;
use listenmoe::station::Station;
use listenmoe::ui::actions::{startup_action, ActionCtx, Subtitle};
use listenmoe::ui::controls::{MediaControlEvent, NowPlaying, PlaybackStatus};
use listenmoe::ui::discord::{Discord, LinkAction};
use listenmoe::ui::menu::{
    apply_preference, populate_menu, station_label, station_place, PreferenceChange,
};
use listenmoe::ui::options::UiOptions;
use listenmoe::ui::state::{RuntimeState, UiEvent, UiResetReason};
use listenmoe::ui::updates::{CoverAction, DiscordUpdate, UpdateLoop};
use listenmoe::ui::volume::VolumeUi;

#[test]
fn now_playing_keeps_album_and_art() {
    let now_playing = NowPlaying {
        title: "title".into(),
        artist: "artist".into(),
        album: "album".into(),
        art_url: Some("https://example.test/cover.jpg".into()),
    };

    assert_eq!(now_playing.album, "album");
    assert_eq!(
        now_playing.art_url.as_deref(),
        Some("https://example.test/cover.jpg")
    );
}

#[test]
fn media_events_name_actions_of_the_window() {
    assert_eq!(MediaControlEvent::Play.action_name(), "win.play");
    assert_eq!(MediaControlEvent::Pause.action_name(), "win.pause");
    assert_eq!(MediaControlEvent::Stop.action_name(), "win.stop");
    assert_eq!(MediaControlEvent::Toggle.action_name(), "win.toggle");
    assert_eq!(MediaControlEvent::Next.action_name(), "win.next_station");
    assert_eq!(MediaControlEvent::Previous.action_name(), "win.prev_station");
}

fn ctx(pause_resume_enabled: bool) -> ActionCtx {
    ActionCtx::new(UiOptions {
        station: Station::Jpop,
        autoplay: false,
        pause_resume_enabled,
        discord_enabled: true,
    })
}

#[test]
fn playing_pausing_and_stopping_reach_stream_and_gateway() {
    let mut ctx = ctx(true);
    assert_eq!(ctx.toggle(), Some("win.play"));
    let played = ctx.play();
    assert_eq!(played.subtitle, Subtitle::Connecting);
    assert_eq!(played.subtitle.message(), "Connecting...");
    assert_eq!(played.playback, PlaybackStatus::Playing);
    assert_eq!(
        played.radio,
        StreamOrder { send: None, spawn: Some(Station::Jpop) }
    );
    assert_eq!(
        played.meta,
        MetaOrder { send: None, spawn: Some(Station::Jpop) }
    );
    assert_eq!(ctx.toggle(), Some("win.pause"));
    let paused = ctx.pause();
    assert_eq!(paused.playback, PlaybackStatus::Paused);
    assert_eq!(
        paused.radio,
        StreamOrder { send: Some(Control::Pause), spawn: None }
    );
    assert_eq!(
        paused.meta,
        MetaOrder { send: Some(controller::Control::Pause), spawn: None }
    );
    assert_eq!(
        ctx.play().radio,
        StreamOrder { send: Some(Control::Resume), spawn: None }
    );
    let stopped = ctx.stop();
    assert_eq!(stopped.subtitle.message(), "J-POP and K-POP radio");
    assert_eq!(
        stopped.meta,
        MetaOrder { send: Some(controller::Control::Stop), spawn: None }
    );
}

#[test]
fn pausing_stops_where_the_user_has_chosen_so() {
    let mut ctx = ctx(false);
    ctx.play();
    assert_eq!(ctx.toggle(), Some("win.stop"));
    let effect = ctx.pause();
    assert_eq!(effect.playback, PlaybackStatus::Stopped);
    assert_eq!(
        effect.radio,
        StreamOrder { send: Some(Control::Stop), spawn: None }
    );
    ctx.play_visible = false;
    ctx.pause_visible = false;
    assert_eq!(ctx.toggle(), None);
}

#[test]
fn stations_change_while_something_plays() {
    let mut ctx = ctx(true);
    assert_eq!(ctx.next_station().activate, Some("win.play"));
    assert_eq!(ctx.prev_station().activate, None);
    assert_eq!(ctx.radio.get_station(), Station::Jpop);
    ctx.play();
    let next = ctx.next_station();
    assert_eq!(
        next.radio,
        StreamOrder { send: Some(Control::Stop), spawn: Some(Station::Kpop) }
    );
    assert_eq!(ctx.radio.get_station(), Station::Kpop);
    ctx.prev_station();
    assert_eq!(ctx.radio.get_station(), Station::Jpop);
    let chosen = ctx.choose_station(Station::Kpop, false);
    assert_eq!(chosen.activate, Some("win.play"));
    assert_eq!(ctx.choose_station(Station::Kpop, true).activate, None);
    assert_eq!(ctx.meta.station, Station::Kpop);
}

#[test]
fn the_track_is_copied_as_far_as_it_is_known() {
    let mut ctx = ctx(true);
    let track = |artist: &str, title: &str| Some((artist.to_string(), title.to_string()));
    assert_eq!(ctx.copy_current_track(), None);
    ctx.current_track = track("a", "t");
    assert_eq!(ctx.copy_current_track().as_deref(), Some("a, t"));
    ctx.current_track = track("", "t");
    assert_eq!(ctx.copy_current_track().as_deref(), Some("t"));
    ctx.current_track = track("a", "");
    assert_eq!(ctx.copy_current_track().as_deref(), Some("a"));
    ctx.current_track = track("", "");
    assert_eq!(ctx.copy_current_track(), None);
    assert_eq!(startup_action(&UiOptions::default()), None);
    let autoplay = UiOptions { autoplay: true, ..UiOptions::default() };
    assert_eq!(startup_action(&autoplay), Some("win.play"));
}

#[test]
fn the_menu_lists_stations_and_updates() {
    let actions = |updater: bool| -> Vec<String> {
        populate_menu(updater)
            .iter()
            .map(|entry| entry.action.clone())
            .collect()
    };
    assert_eq!(
        actions(false),
        vec![
            "win.copy",
            "win.jpop",
            "win.kpop",
            "win.show-help-overlay",
            "win.preferences",
            "win.about",
            "win.quit"
        ]
    );
    assert_eq!(actions(true)[4], "win.check-for-updates");
    assert_eq!(actions(true).len(), 9);
    assert_eq!(station_label("Play %s", Station::Kpop), "Play K-POP");
    assert_eq!(station_label("%s %S %s%", Station::Jpop), "J-POP %S J-POP%");
}

#[test]
fn choices_change_the_options() {
    let mut options = UiOptions::default();
    apply_preference(&mut options, PreferenceChange::Station(station_place(Station::Kpop)));
    apply_preference(&mut options, PreferenceChange::Autoplay(true));
    apply_preference(&mut options, PreferenceChange::PauseResume(true));
    apply_preference(&mut options, PreferenceChange::Discord(false));
    assert_eq!(
        options,
        UiOptions {
            station: Station::Kpop,
            autoplay: true,
            pause_resume_enabled: true,
            discord_enabled: false,
        }
    );
    apply_preference(&mut options, PreferenceChange::Station(7));
    assert_eq!(options.station, Station::Jpop);
}

#[test]
fn a_request_to_discord_is_made_once_more_over_a_new_connection() {
    let mut link = Discord::new(true);
    assert!(link.is_enabled() && link.connects_at_start());
    link.on_start(false);
    assert_eq!(link.begin(), LinkAction::Connect);
    assert_eq!(link.on_outcome(true), LinkAction::Perform);
    assert_eq!(link.on_outcome(false), LinkAction::Reconnect);
    assert!(!link.connected);
    assert_eq!(link.on_outcome(true), LinkAction::Perform);
    assert_eq!(link.on_outcome(false), LinkAction::Fail);
    assert_eq!(link.begin(), LinkAction::Perform);
    assert_eq!(link.on_outcome(true), LinkAction::Done);
    assert!(link.shut_down());
    assert!(!link.shut_down());
    assert_eq!(link.begin(), LinkAction::Connect);
    assert_eq!(link.on_outcome(false), LinkAction::Fail);
    assert_eq!(Discord::new(false).begin(), LinkAction::Done);
}

fn track(artist: &str, cover: Option<&str>, image: Option<&str>) -> TrackInfo {
    TrackInfo {
        artist: artist.to_string(),
        title: "title".to_string(),
        album: "album".to_string(),
        album_cover: cover.map(str::to_string),
        artist_image: image.map(str::to_string),
        start_time_ms: 0,
        duration_secs: 1,
    }
}

#[test]
fn only_the_cover_of_the_shown_track_counts() {
    let mut window = UpdateLoop::new(false, false, 0);
    let update = window.on_track(&track("a", Some("cover"), Some("image")));
    assert_eq!(update.fetch_cover.as_deref(), Some("cover"));
    assert_eq!(update.now_playing.art_url.as_deref(), Some("cover"));
    assert!(matches!(update.discord, DiscordUpdate::Nothing));
    assert_eq!(window.on_cover("cover", true), CoverAction::Show);
    assert_eq!(window.on_cover("cover", false), CoverAction::Clear);
    let update = window.on_track(&track("b", None, Some("image")));
    assert_eq!(update.fetch_cover.as_deref(), Some("image"));
    assert_eq!(window.on_cover("cover", true), CoverAction::Ignore);
    let update = window.on_track(&track("c", None, None));
    assert_eq!(update.fetch_cover, None);
    assert_eq!(window.on_cover("image", true), CoverAction::Ignore);
}

#[test]
fn discord_is_told_again_from_time_to_time_and_cleared_at_the_end() {
    let ms = 1_000_000u128;
    let mut window = UpdateLoop::new(true, false, 0);
    assert!(matches!(window.tick(true, 5 * ms), DiscordUpdate::Nothing));
    match window.on_track(&track("a", None, None)).discord {
        DiscordUpdate::Show(artist, title) => assert_eq!((&artist[..], &title[..]), ("a", "title")),
        _ => panic!("Discord is told of the track"),
    }
    window.on_discord_told(true, 10 * ms);
    assert!(matches!(window.tick(true, 2_009 * ms), DiscordUpdate::Nothing));
    assert!(matches!(window.tick(true, 2_010 * ms), DiscordUpdate::Show(_, _)));
    window.on_discord_told(false, 2_010 * ms);
    assert!(matches!(window.tick(true, 2_510 * ms), DiscordUpdate::Show(_, _)));
    assert!(matches!(window.tick(false, 2_520 * ms), DiscordUpdate::Clear));
    assert!(matches!(window.tick(false, 2_530 * ms), DiscordUpdate::Nothing));
    assert!(matches!(window.tick(true, 9_000 * ms), DiscordUpdate::Nothing));
}

#[test]
fn the_runtime_state_remembers_track_and_cover() {
    let mut state = RuntimeState::new(None);
    state.set_track(&track("a", None, None));
    assert_eq!(
        state.current_track,
        Some(("a".to_string(), "title".to_string()))
    );
    state.set_latest_cover_url(Some("u"));
    assert!(state.is_latest_cover("u") && !state.is_latest_cover("v"));
    state.set_latest_cover_url(None);
    assert!(!state.is_latest_cover("u"));
    state.clear_track();
    assert_eq!(state.current_track, None);
    assert_ne!(
        UiEvent::Reset(UiResetReason::Paused),
        UiEvent::Reset(UiResetReason::Stopped)
    );
}

#[test]
fn changes_that_the_player_makes_itself_are_no_requests() {
    let (mut button, shown) = VolumeUi::new(150);
    assert_eq!(shown, 100);
    assert_eq!(button.on_value_changed(40), Some(40));
    assert_eq!(button.set_percent_silent(30), 30);
    assert_eq!(button.on_value_changed(30), None);
    button.finish_silent();
    assert_eq!(button.request_percent(200), 100);
    assert_eq!(button.on_value_changed(100), None);
    button.finish_silent();
    assert_eq!(button.on_value_changed(1), Some(1));
}
