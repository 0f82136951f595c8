//! Preferences: how they are kept, and what is made of them when they are loaded.
use vstd::prelude::*;

use crate::station::Station;
use crate::text::same_text;
use crate::ui::options::UiOptions;

verus! {

pub const SHARED_SCHEMA_ID: &'static str = "io.github.noobping.listenmoe";

pub const KEY_STATION: &'static str = "default-station";

pub const KEY_AUTOPLAY: &'static str = "autoplay";

pub const KEY_PAUSE_RESUME_ENABLED: &'static str = "pause-resume-enabled";

pub const LEGACY_KEY_STOP_INSTEAD_PAUSE: &'static str = "stop-instead-pause";

pub const KEY_DISCORD_ENABLED: &'static str = "discord-enabled";

pub const FALLBACK_CONFIG_FILE: &'static str = "preferences.json";

#[derive(Debug, Clone, Copy, PartialEq, Eq, Structural)]
pub enum StoredStation {
    Jpop,
    Kpop,
}

impl StoredStation {
    pub open spec fn of(station: Station) -> StoredStation {
        match station {
            Station::Kpop => StoredStation::Kpop,
            Station::Jpop => StoredStation::Jpop,
        }
    }

    pub open spec fn station(self) -> Station {
        match self {
            StoredStation::Kpop => Station::Kpop,
            StoredStation::Jpop => Station::Jpop,
        }
    }

    pub fn from_station(station: Station) -> (r: StoredStation)
        ensures
            r == StoredStation::of(station),
    {
        match station {
            Station::Kpop => StoredStation::Kpop,
            Station::Jpop => StoredStation::Jpop,
        }
    }

    pub fn to_station(self) -> (r: Station)
        ensures
            r == self.station(),
    {
        match self {
            StoredStation::Kpop => Station::Kpop,
            StoredStation::Jpop => Station::Jpop,
        }
    }
}

/// Preferences as they are written to a file. The flag for stopping is kept up for older versions.
#[derive(Debug, Clone, Copy, PartialEq, Eq, Structural)]
pub struct StoredUiOptions {
    pub station: StoredStation,
    pub autoplay: bool,
    pub pause_resume_enabled: bool,
    pub stop_instead_pause: bool,
    pub discord_enabled: bool,
}

/// Preferences as they are read from a file, where each may be missing.
#[derive(Debug, Clone, Copy, PartialEq, Eq, Structural)]
pub struct StoredUiOptionsOnDisk {
    pub station: Option<StoredStation>,
    pub autoplay: Option<bool>,
    pub pause_resume_enabled: Option<bool>,
    pub stop_instead_pause: Option<bool>,
    pub discord_enabled: Option<bool>,
}

impl StoredUiOptions {
    /// What is written for the given options.
    pub open spec fn of(options: UiOptions) -> StoredUiOptions {
        StoredUiOptions {
            station: StoredStation::of(options.station),
            autoplay: options.autoplay,
            pause_resume_enabled: options.pause_resume_enabled,
            stop_instead_pause: !options.pause_resume_enabled,
            discord_enabled: options.discord_enabled,
        }
    }

    /// What is read of what was written.
    pub open spec fn on_disk(self) -> StoredUiOptionsOnDisk {
        StoredUiOptionsOnDisk {
            station: Some(self.station),
            autoplay: Some(self.autoplay),
            pause_resume_enabled: Some(self.pause_resume_enabled),
            stop_instead_pause: Some(self.stop_instead_pause),
            discord_enabled: Some(self.discord_enabled),
        }
    }
}

impl From<UiOptions> for StoredUiOptions {
    fn from(options: UiOptions) -> (r: StoredUiOptions) {
        StoredUiOptions {
            station: StoredStation::from_station(options.station),
            autoplay: options.autoplay,
            pause_resume_enabled: options.pause_resume_enabled,
            stop_instead_pause: !options.pause_resume_enabled,
            discord_enabled: options.discord_enabled,
        }
    }
}

impl vstd::std_specs::convert::FromSpecImpl<UiOptions> for StoredUiOptions {
    open spec fn obeys_from_spec() -> bool {
        true
    }

    open spec fn from_spec(options: UiOptions) -> StoredUiOptions {
        StoredUiOptions::of(options)
    }
}

impl Default for StoredUiOptions {
    fn default() -> (r: StoredUiOptions)
        ensures
            r == StoredUiOptions::of(UiOptions::defaults()),
    {
        StoredUiOptions::from(UiOptions::default())
    }
}

/// Whether pausing is on: as chosen; else as the older flag says; else as by default.
pub open spec fn resolved_pause_resume(
    pause_resume_enabled: Option<bool>,
    legacy_stop_instead_pause: Option<bool>,
    default: bool,
) -> bool {
    match (pause_resume_enabled, legacy_stop_instead_pause) {
        (Some(enabled), _) => enabled,
        (None, Some(stop)) => !stop,
        (None, None) => default,
    }
}

pub fn resolve_pause_resume_enabled(
    pause_resume_enabled: Option<bool>,
    legacy_stop_instead_pause: Option<bool>,
    default: bool,
) -> (r: bool)
    ensures
        r == resolved_pause_resume(pause_resume_enabled, legacy_stop_instead_pause, default),
{
    match pause_resume_enabled {
        Some(enabled) => enabled,
        None => match legacy_stop_instead_pause {
            Some(stop) => !stop,
            None => default,
        },
    }
}

/// A choice, or what stands in for it.
pub open spec fn chosen<T>(choice: Option<T>, default: T) -> T {
    match choice {
        Some(value) => value,
        None => default,
    }
}

impl StoredUiOptionsOnDisk {
    /// The options that were read, with what is missing as by default.
    pub open spec fn options(self) -> UiOptions {
        let defaults = UiOptions::defaults();
        UiOptions {
            station: chosen(self.station, StoredStation::of(defaults.station)).station(),
            autoplay: chosen(self.autoplay, defaults.autoplay),
            pause_resume_enabled: resolved_pause_resume(
                self.pause_resume_enabled,
                self.stop_instead_pause,
                defaults.pause_resume_enabled,
            ),
            discord_enabled: chosen(self.discord_enabled, defaults.discord_enabled),
        }
    }

    /// Whether pausing was last chosen by the older flag.
    pub open spec fn is_legacy(self) -> bool {
        self.pause_resume_enabled is None && self.stop_instead_pause is Some
    }

    pub fn into_ui_options(self) -> (r: UiOptions)
        ensures
            r == self.options(),
    {
        let defaults = UiOptions::default();
        UiOptions {
            station: match self.station {
                Some(station) => station.to_station(),
                None => defaults.station,
            },
            autoplay: match self.autoplay {
                Some(value) => value,
                None => defaults.autoplay,
            },
            pause_resume_enabled: resolve_pause_resume_enabled(
                self.pause_resume_enabled,
                self.stop_instead_pause,
                defaults.pause_resume_enabled,
            ),
            discord_enabled: match self.discord_enabled {
                Some(value) => value,
                None => defaults.discord_enabled,
            },
        }
    }

    pub fn migrated_from_legacy_stop_flag(&self) -> (r: bool)
        ensures
            r == self.is_legacy(),
    {
        self.pause_resume_enabled.is_none() && self.stop_instead_pause.is_some()
    }
}

pub fn default_stored_station() -> (r: StoredStation)
    ensures
        r == StoredStation::of(UiOptions::defaults().station),
{
    StoredStation::from_station(UiOptions::default().station)
}

impl Default for StoredUiOptionsOnDisk {
    fn default() -> (r: StoredUiOptionsOnDisk)
        ensures
            r == StoredUiOptions::of(UiOptions::defaults()).on_disk(),
    {
        let defaults = UiOptions::default();
        StoredUiOptionsOnDisk {
            station: Some(default_stored_station()),
            autoplay: Some(defaults.autoplay),
            pause_resume_enabled: Some(defaults.pause_resume_enabled),
            stop_instead_pause: Some(!defaults.pause_resume_enabled),
            discord_enabled: Some(defaults.discord_enabled),
        }
    }
}

/// Preferences as the settings service has them. The two about pausing are there only where the
/// user has set them.
#[derive(Debug)]
pub struct SettingsValues {
    pub station: String,
    pub autoplay: bool,
    pub pause_resume_enabled: Option<bool>,
    pub stop_instead_pause: Option<bool>,
    pub discord_enabled: bool,
}

impl SettingsValues {
    pub open spec fn options(self) -> UiOptions {
        UiOptions {
            station: if self.station@ == "kpop"@ {
                Station::Kpop
            } else {
                Station::Jpop
            },
            autoplay: self.autoplay,
            pause_resume_enabled: resolved_pause_resume(
                self.pause_resume_enabled,
                self.stop_instead_pause,
                UiOptions::defaults().pause_resume_enabled,
            ),
            discord_enabled: self.discord_enabled,
        }
    }
}

/// Where preferences were looked for, and what was there.
#[derive(Debug)]
pub enum PreferenceSource {
    /// The settings service has them.
    Settings(SettingsValues),
    /// There is no directory for a file.
    NoDirectory,
    /// There is no file.
    Missing,
    /// The file cannot be read.
    Unreadable,
    /// What is in the file are not preferences.
    Malformed,
    /// The file has them.
    Stored(StoredUiOptionsOnDisk),
}

/// What is to be written once preferences have been loaded.
#[derive(Debug, Clone, Copy, PartialEq, Eq, Structural)]
pub enum FollowUp {
    Nothing,
    /// Set the choice about pausing in the settings service.
    SetPauseResume(bool),
    /// Save the options.
    Save(UiOptions),
}

/// What loading comes to.
pub open spec fn loaded(source: PreferenceSource) -> (Option<UiOptions>, FollowUp) {
    match source {
        PreferenceSource::Settings(values) => (
            Some(values.options()),
            if values.pause_resume_enabled is None && values.stop_instead_pause is Some {
                FollowUp::SetPauseResume(values.options().pause_resume_enabled)
            } else {
                FollowUp::Nothing
            },
        ),
        PreferenceSource::Missing => (
            Some(UiOptions::defaults()),
            FollowUp::Save(UiOptions::defaults()),
        ),
        PreferenceSource::Stored(stored) => (
            Some(stored.options()),
            if stored.is_legacy() {
                FollowUp::Save(stored.options())
            } else {
                FollowUp::Nothing
            },
        ),
        PreferenceSource::NoDirectory => (None, FollowUp::Nothing),
        PreferenceSource::Unreadable => (None, FollowUp::Nothing),
        PreferenceSource::Malformed => (None, FollowUp::Nothing),
    }
}

/// The options that were found, and what is to be written then: preferences that were only kept in
/// the older form are kept in the newer one, and a missing file is begun with the defaults.
pub fn load_ui_options(source: &PreferenceSource) -> (r: (Option<UiOptions>, FollowUp))
    ensures
        r == loaded(*source),
{
    match source {
        PreferenceSource::Settings(values) => {
            let (pause_resume_enabled, migrated) = load_pause_resume_enabled_from_settings(values);
            let station = if same_text(&values.station, "kpop") {
                Station::Kpop
            } else {
                Station::Jpop
            };
            let options = UiOptions {
                station,
                autoplay: values.autoplay,
                pause_resume_enabled,
                discord_enabled: values.discord_enabled,
            };
            let follow_up = if migrated {
                FollowUp::SetPauseResume(pause_resume_enabled)
            } else {
                FollowUp::Nothing
            };
            (Some(options), follow_up)
        },
        PreferenceSource::Missing => {
            let defaults = UiOptions::default();
            (Some(defaults), FollowUp::Save(defaults))
        },
        PreferenceSource::Stored(stored) => {
            let options = stored.into_ui_options();
            let follow_up = if stored.migrated_from_legacy_stop_flag() {
                FollowUp::Save(options)
            } else {
                FollowUp::Nothing
            };
            (Some(options), follow_up)
        },
        PreferenceSource::NoDirectory => (None, FollowUp::Nothing),
        PreferenceSource::Unreadable => (None, FollowUp::Nothing),
        PreferenceSource::Malformed => (None, FollowUp::Nothing),
    }
}

/// Whether pausing is on by the settings service, and whether only the older flag says so.
pub fn load_pause_resume_enabled_from_settings(values: &SettingsValues) -> (r: (bool, bool))
    ensures
        r == (
            values.options().pause_resume_enabled,
            values.pause_resume_enabled is None && values.stop_instead_pause is Some,
        ),
{
    let enabled = resolve_pause_resume_enabled(
        values.pause_resume_enabled,
        values.stop_instead_pause,
        UiOptions::default().pause_resume_enabled,
    );
    (enabled, values.pause_resume_enabled.is_none() && values.stop_instead_pause.is_some())
}

/// A value of the settings service.
#[derive(Debug, Clone, Copy)]
pub enum SettingValue {
    Text(&'static str),
    Flag(bool),
}

/// Something to set in the settings service, and what to say if it cannot be set.
#[derive(Debug, Clone, Copy)]
pub struct SettingEntry {
    pub key: &'static str,
    pub value: SettingValue,
    pub failure: &'static str,
}

impl SettingEntry {
    pub open spec fn sets_text(self, key: Seq<char>, value: Seq<char>, failure: Seq<char>) -> bool {
        &&& self.key@ == key
        &&& self.value matches SettingValue::Text(text) && text@ == value
        &&& self.failure@ == failure
    }

    pub open spec fn sets_flag(self, key: Seq<char>, value: bool, failure: Seq<char>) -> bool {
        &&& self.key@ == key
        &&& self.value == SettingValue::Flag(value)
        &&& self.failure@ == failure
    }
}

/// What saving sets in the settings service, in this order and up to the first that fails.
pub fn save_ui_options(options: UiOptions) -> (r: Vec<SettingEntry>)
    ensures
        r@.len() == 5,
        r@[0].sets_text(
            KEY_STATION@,
            options.station.short_name(),
            "Failed to save station preference"@,
        ),
        r@[1].sets_flag(KEY_AUTOPLAY@, options.autoplay, "Failed to save autoplay preference"@),
        r@[2].sets_flag(
            KEY_PAUSE_RESUME_ENABLED@,
            options.pause_resume_enabled,
            "Failed to save pause/resume preference"@,
        ),
        r@[3].sets_flag(
            LEGACY_KEY_STOP_INSTEAD_PAUSE@,
            !options.pause_resume_enabled,
            "Failed to save legacy stop behavior preference"@,
        ),
        r@[4].sets_flag(
            KEY_DISCORD_ENABLED@,
            options.discord_enabled,
            "Failed to save Discord preference"@,
        ),
{
    let mut entries: Vec<SettingEntry> = Vec::new();
    entries.push(
        SettingEntry {
            key: KEY_STATION,
            value: SettingValue::Text(options.station.name()),
            failure: "Failed to save station preference",
        },
    );
    entries.push(
        SettingEntry {
            key: KEY_AUTOPLAY,
            value: SettingValue::Flag(options.autoplay),
            failure: "Failed to save autoplay preference",
        },
    );
    entries.push(
        SettingEntry {
            key: KEY_PAUSE_RESUME_ENABLED,
            value: SettingValue::Flag(options.pause_resume_enabled),
            failure: "Failed to save pause/resume preference",
        },
    );
    entries.push(
        SettingEntry {
            key: LEGACY_KEY_STOP_INSTEAD_PAUSE,
            value: SettingValue::Flag(!options.pause_resume_enabled),
            failure: "Failed to save legacy stop behavior preference",
        },
    );
    entries.push(
        SettingEntry {
            key: KEY_DISCORD_ENABLED,
            value: SettingValue::Flag(options.discord_enabled),
            failure: "Failed to save Discord preference",
        },
    );
    entries
}

/// The path below the configuration directory of the file that stands in for the settings service.
pub fn fallback_config_path(app_id: Option<String>) -> (r: (String, &'static str))
    ensures
        r.0@ == (match app_id {
            Some(id) => id@,
            None => SHARED_SCHEMA_ID@,
        }),
        r.1@ == FALLBACK_CONFIG_FILE@,
{
    let directory = match app_id {
        Some(id) => id,
        None => SHARED_SCHEMA_ID.to_owned(),
    };
    (directory, FALLBACK_CONFIG_FILE)
}

/// Options that were saved to a file are the options that are loaded from it, with nothing to
/// follow.
pub proof fn law_saved_file_is_loaded(options: UiOptions)
    ensures
        loaded(PreferenceSource::Stored(StoredUiOptions::of(options).on_disk())) == (
            Some(options),
            FollowUp::Nothing,
        ),
{
}

/// Options that were saved to the settings service are the options that are loaded from it, with
/// nothing to follow.
pub proof fn law_saved_settings_are_loaded(options: UiOptions, values: SettingsValues)
    requires
        values.station@ == options.station.short_name(),
        values.autoplay == options.autoplay,
        values.pause_resume_enabled == Some(options.pause_resume_enabled),
        values.stop_instead_pause == Some(!options.pause_resume_enabled),
        values.discord_enabled == options.discord_enabled,
    ensures
        loaded(PreferenceSource::Settings(values)) == (Some(options), FollowUp::Nothing),
{
    crate::station::law_station_names_differ(Station::Jpop, Station::Kpop);
}

/// Loading what was saved after loading the older form gives the same options, and then nothing
/// more is to be written.
pub proof fn law_older_form_is_taken_over_once(stored: StoredUiOptionsOnDisk)
    ensures
        stored.is_legacy() ==> loaded(PreferenceSource::Stored(stored)).1 == FollowUp::Save(
            stored.options(),
        ),
        loaded(
            PreferenceSource::Stored(StoredUiOptions::of(stored.options()).on_disk()),
        ) == (Some(stored.options()), FollowUp::Nothing),
{
}

/// A station is kept under its own name.
pub proof fn law_station_is_kept_as_itself(station: Station)
    ensures
        StoredStation::of(Station::Jpop) == StoredStation::Jpop,
        StoredStation::of(Station::Kpop) == StoredStation::Kpop,
        StoredStation::of(station).station() == station,
{
}

/// The newer choice about pausing goes before the older flag, which says the opposite; without
/// either it is as by default.
pub proof fn law_newer_choice_goes_first(enabled: bool, stop: bool, older: Option<bool>, default: bool)
    ensures
        resolved_pause_resume(Some(enabled), older, default) == enabled,
        resolved_pause_resume(None, Some(stop), default) != stop,
        resolved_pause_resume(None, None, default) == default,
{
}

/// Each choice in a file is taken over as it is, whatever else is there or missing; for a missing
/// one the player starts with J-POP, does not play by itself, stops in place of pausing, and tells
/// Discord.
pub proof fn law_each_choice_stands_alone(stored: StoredUiOptionsOnDisk)
    ensures
        ({
            let options = loaded(PreferenceSource::Stored(stored)).0->0;
            &&& loaded(PreferenceSource::Stored(stored)).0 is Some
            &&& stored.station == Some(StoredStation::Kpop) ==> options.station == Station::Kpop
            &&& stored.station == Some(StoredStation::Jpop) ==> options.station == Station::Jpop
            &&& stored.station is None ==> options.station == Station::Jpop
            &&& stored.autoplay matches Some(on) ==> options.autoplay == on
            &&& stored.autoplay is None ==> !options.autoplay
            &&& stored.pause_resume_enabled matches Some(on) ==> options.pause_resume_enabled == on
            &&& stored.pause_resume_enabled is None && stored.stop_instead_pause is None
                ==> !options.pause_resume_enabled
            &&& stored.pause_resume_enabled is None && stored.stop_instead_pause is Some
                ==> options.pause_resume_enabled != stored.stop_instead_pause->0
            &&& stored.discord_enabled matches Some(on) ==> options.discord_enabled == on
            &&& stored.discord_enabled is None ==> options.discord_enabled
        }),
{
}

/// Each choice in the settings service is taken over as it is; a station that is not known there is
/// J-POP. Where only the older flag is set, the newer choice is set from it.
pub proof fn law_each_setting_stands_alone(values: SettingsValues)
    ensures
        ({
            let (found, follow_up) = loaded(PreferenceSource::Settings(values));
            let options = found->0;
            &&& found is Some
            &&& values.station@ == Station::Kpop.short_name() ==> options.station == Station::Kpop
            &&& values.station@ != Station::Kpop.short_name() ==> options.station == Station::Jpop
            &&& options.autoplay == values.autoplay
            &&& options.discord_enabled == values.discord_enabled
            &&& values.pause_resume_enabled matches Some(on) ==> options.pause_resume_enabled == on
                && follow_up == FollowUp::Nothing
            &&& values.pause_resume_enabled is None && values.stop_instead_pause is Some ==> {
                &&& options.pause_resume_enabled != values.stop_instead_pause->0
                &&& follow_up == FollowUp::SetPauseResume(options.pause_resume_enabled)
            }
            &&& values.pause_resume_enabled is None && values.stop_instead_pause is None
                ==> !options.pause_resume_enabled && follow_up == FollowUp::Nothing
        }),
{
}

/// A missing file is begun with the options of one who has chosen nothing; one that cannot be used
/// gives no options and is left alone.
pub proof fn law_unusable_files_are_left_alone()
    ensures
        loaded(PreferenceSource::Missing).0 matches Some(options) && {
            &&& options.station == Station::Jpop
            &&& !options.autoplay
            &&& !options.pause_resume_enabled
            &&& options.discord_enabled
            &&& loaded(PreferenceSource::Missing).1 == FollowUp::Save(options)
        },
        loaded(PreferenceSource::Unreadable) == (None::<UiOptions>, FollowUp::Nothing),
        loaded(PreferenceSource::Malformed) == (None::<UiOptions>, FollowUp::Nothing),
        loaded(PreferenceSource::NoDirectory) == (None::<UiOptions>, FollowUp::Nothing),
{
}

/// Older versions read of a saved file that they stop just where pausing is not on.
pub proof fn law_older_flag_is_kept_up(options: UiOptions)
    ensures
        StoredUiOptions::of(options).stop_instead_pause != StoredUiOptions::of(
            options,
        ).pause_resume_enabled,
        StoredUiOptions::of(options).pause_resume_enabled == options.pause_resume_enabled,
        StoredUiOptions::of(options).autoplay == options.autoplay,
        StoredUiOptions::of(options).discord_enabled == options.discord_enabled,
        StoredUiOptions::of(options).station.station() == options.station,
{
}

/// An entry for the settings service sets the value that is wanted under the key that is meant.
pub proof fn law_entry_sets_its_value(
    entry: SettingEntry,
    key: Seq<char>,
    value: Seq<char>,
    flag: bool,
    failure: Seq<char>,
)
    ensures
        entry.sets_flag(key, flag, failure) ==> entry.key@ == key && (entry.value matches
            SettingValue::Flag(set) && set == flag),
        entry.sets_text(key, value, failure) ==> entry.key@ == key && (entry.value matches
            SettingValue::Text(set) && set@ == value),
{
}

} // verus!
