use listenmoe::preferences::{
    default_stored_station, fallback_config_path, load_pause_resume_enabled_from_settings,
    load_ui_options, resolve_pause_resume_enabled, save_ui_options, FollowUp, PreferenceSource,
    SettingValue, SettingsValues, StoredStation, StoredUiOptions, StoredUiOptionsOnDisk,
};
use listenmoe::station::Station;
use listenmoe::ui::options::UiOptions;

#[test]
fn legacy_stop_flag_maps_to_pause_resume_enabled() {
    assert!(resolve_pause_resume_enabled(None, Some(false), false));
    assert!(!resolve_pause_resume_enabled(None, Some(true), true));
}

#[test]
fn explicit_pause_resume_value_wins_over_legacy_flag() {
    assert!(!resolve_pause_resume_enabled(
        Some(false),
        Some(false),
        true
    ));
    assert!(resolve_pause_resume_enabled(Some(true), Some(true), false));
}

fn on_disk(raw: &str) -> StoredUiOptionsOnDisk {
    let value: serde_json::Value =
        serde_json::from_str(raw).expect("legacy preferences should deserialize");
    StoredUiOptionsOnDisk {
        station: match value["station"].as_str() {
            Some("jpop") => Some(StoredStation::Jpop),
            Some("kpop") => Some(StoredStation::Kpop),
            _ => None,
        },
        autoplay: value["autoplay"].as_bool(),
        pause_resume_enabled: value["pause_resume_enabled"].as_bool(),
        stop_instead_pause: value["stop_instead_pause"].as_bool(),
        discord_enabled: value["discord_enabled"].as_bool(),
    }
}

#[test]
fn legacy_fallback_json_deserializes_into_pause_resume_enabled() {
    let stored = on_disk(
        r#"{
                "station": "jpop",
                "autoplay": true,
                "stop_instead_pause": false,
                "discord_enabled": true
            }"#,
    );

    let options = stored.into_ui_options();

    assert!(options.pause_resume_enabled);
    assert!(options.autoplay);
    assert!(matches!(options.station, Station::Jpop));
}

#[test]
fn stored_preferences_include_legacy_stop_flag_for_compatibility() {
    let stored = StoredUiOptions::from(UiOptions {
        station: Station::Kpop,
        autoplay: false,
        pause_resume_enabled: true,
        discord_enabled: false,
    });

    assert_eq!(Some(stored.pause_resume_enabled), Some(true));
    assert_eq!(Some(stored.stop_instead_pause), Some(false));
}

#[test]
fn defaults_to_stop_behavior() {
    assert!(!UiOptions::default().pause_resume_enabled());
}

#[test]
fn preferences_of_the_older_form_are_written_in_the_newer_one() {
    let legacy = on_disk("{ \"stop_instead_pause\": false }");
    let (options, follow_up) = load_ui_options(&PreferenceSource::Stored(legacy));
    let options = options.expect("options");
    assert!(options.pause_resume_enabled && options.discord_enabled);
    assert_eq!(follow_up, FollowUp::Save(options));

    let values = SettingsValues {
        station: "kpop".to_string(),
        autoplay: true,
        pause_resume_enabled: None,
        stop_instead_pause: Some(true),
        discord_enabled: false,
    };
    assert_eq!(load_pause_resume_enabled_from_settings(&values), (false, true));
    let (options, follow_up) = load_ui_options(&PreferenceSource::Settings(values));
    assert_eq!(options.expect("options").station, Station::Kpop);
    assert_eq!(follow_up, FollowUp::SetPauseResume(false));
}

#[test]
fn missing_preferences_are_begun_with_the_defaults() {
    let defaults = UiOptions::default();
    assert_eq!(
        load_ui_options(&PreferenceSource::Missing),
        (Some(defaults), FollowUp::Save(defaults))
    );
    assert_eq!(
        load_ui_options(&PreferenceSource::Malformed),
        (None, FollowUp::Nothing)
    );
    assert_eq!(
        load_ui_options(&PreferenceSource::Unreadable),
        (None, FollowUp::Nothing)
    );
    assert_eq!(
        load_ui_options(&PreferenceSource::NoDirectory),
        (None, FollowUp::Nothing)
    );
    assert_eq!(
        StoredUiOptionsOnDisk::default().into_ui_options(),
        UiOptions::default()
    );
    assert_eq!(default_stored_station(), StoredStation::Jpop);
    assert!(StoredUiOptions::default().stop_instead_pause);
}

#[test]
fn what_is_saved_is_what_is_loaded() {
    let options = UiOptions {
        station: Station::Kpop,
        autoplay: true,
        pause_resume_enabled: true,
        discord_enabled: false,
    };
    let stored = StoredUiOptions::from(options);
    let read = StoredUiOptionsOnDisk {
        station: Some(stored.station),
        autoplay: Some(stored.autoplay),
        pause_resume_enabled: Some(stored.pause_resume_enabled),
        stop_instead_pause: Some(stored.stop_instead_pause),
        discord_enabled: Some(stored.discord_enabled),
    };
    assert_eq!(
        load_ui_options(&PreferenceSource::Stored(read)),
        (Some(options), FollowUp::Nothing)
    );
    let entries = save_ui_options(options);
    let keys: Vec<&str> = entries.iter().map(|entry| entry.key).collect();
    assert_eq!(
        keys,
        vec![
            "default-station",
            "autoplay",
            "pause-resume-enabled",
            "stop-instead-pause",
            "discord-enabled"
        ]
    );
    assert!(matches!(entries[0].value, SettingValue::Text("kpop")));
    assert!(matches!(entries[3].value, SettingValue::Flag(false)));
    assert_eq!(
        fallback_config_path(None),
        ("io.github.noobping.listenmoe".to_string(), "preferences.json")
    );
}
