//! The menu, and the window for preferences.
use vstd::prelude::*;

use crate::station::Station;
use crate::text::chars_of;
use crate::ui::options::UiOptions;

verus! {

/// What stands in a label where the name of a station goes.
pub const STATION_LABEL: &'static str = "Play %s";

/// An entry of the menu: its label, which is shown in the user's language with the name of the
/// station put in, and the action it is for.
#[derive(Debug)]
pub struct MenuEntry {
    pub label: &'static str,
    pub station: Option<Station>,
    pub action: String,
}

impl MenuEntry {
    pub open spec fn is_for(self, label: Seq<char>, action: Seq<char>) -> bool {
        self.label@ == label && self.station is None && self.action@ == action
    }

    pub open spec fn plays(self, station: Station) -> bool {
        &&& self.label@ == STATION_LABEL@
        &&& self.station == Some(station)
        &&& self.action@ == "win."@ + station.short_name()
    }
}

fn entry(label: &'static str, action: &str) -> (r: MenuEntry)
    ensures
        r.is_for(label@, action@),
{
    MenuEntry { label, station: None, action: action.to_owned() }
}

fn station_entry(station: Station) -> (r: MenuEntry)
    ensures
        r.plays(station),
{
    let mut action = "win.".to_owned();
    action.push_str(station.name());
    MenuEntry { label: STATION_LABEL, station: Some(station), action }
}

/// The entries of the menu, in order. Updates are looked for in the program itself only where the
/// system has no other way.
pub fn populate_menu(with_updater: bool) -> (r: Vec<MenuEntry>)
    ensures
        ({
            let n = if with_updater {
                2int
            } else {
                0
            };
            &&& r@.len() == 7 + n
            &&& r@[0].is_for("Copy current track"@, "win.copy"@)
            &&& r@[1].plays(Station::Jpop)
            &&& r@[2].plays(Station::Kpop)
            &&& r@[3].is_for("Keyboard Shortcuts"@, "win.show-help-overlay"@)
            &&& with_updater ==> r@[4].is_for("Check for updates"@, "win.check-for-updates"@)
            &&& with_updater ==> r@[5].is_for("Cancel update"@, "win.cancel-update"@)
            &&& r@[4 + n].is_for("Preferences"@, "win.preferences"@)
            &&& r@[5 + n].is_for("About"@, "win.about"@)
            &&& r@[6 + n].is_for("Quit"@, "win.quit"@)
        }),
{
    let mut menu: Vec<MenuEntry> = Vec::new();
    menu.push(entry("Copy current track", "win.copy"));
    menu.push(station_entry(Station::Jpop));
    menu.push(station_entry(Station::Kpop));
    menu.push(entry("Keyboard Shortcuts", "win.show-help-overlay"));
    if with_updater {
        menu.push(entry("Check for updates", "win.check-for-updates"));
        menu.push(entry("Cancel update", "win.cancel-update"));
    }
    menu.push(entry("Preferences", "win.preferences"));
    menu.push(entry("About", "win.about"));
    menu.push(entry("Quit", "win.quit"));
    menu
}

/// A label with a name in each place that is kept for one.
pub open spec fn filled_in(label: Seq<char>, name: Seq<char>) -> Seq<char>
    decreases label.len(),
{
    if label.len() == 0 {
        Seq::empty()
    } else if label.len() >= 2 && label[0] == '%' && label[1] == 's' {
        name + filled_in(label.skip(2), name)
    } else {
        seq![label[0]] + filled_in(label.drop_first(), name)
    }
}

/// The label of a station's entry, from the label in the user's language.
pub fn station_label(label: &str, station: Station) -> (r: String)
    ensures
        r@ == filled_in(label@, station.shown_name()),
{
    let v = chars_of(label);
    let name = station.display_name();
    let ghost all = filled_in(v@, name@);
    let mut out = String::new();
    let mut i: usize = 0;
    assert(v@.skip(0) =~= v@);
    assert(out@ + filled_in(v@, name@) =~= all);
    while i < v.len()
        invariant
            i <= v@.len(),
            out@ + filled_in(v@.skip(i as int), name@) == all,
        decreases v@.len() - i,
    {
        let ghost before = out@;
        let ghost rest = v@.skip(i as int);
        if v[i] == '%' && v.len() - i >= 2 && v[i + 1] == 's' {
            out.push_str(name);
            assert(rest.skip(2) =~= v@.skip(i + 2));
            assert(out@ + filled_in(v@.skip(i + 2), name@) =~= before + filled_in(rest, name@));
            i += 2;
        } else {
            out.push(v[i]);
            assert(rest.drop_first() =~= v@.skip(i + 1));
            assert(out@ + filled_in(v@.skip(i + 1), name@) =~= before + filled_in(rest, name@));
            i += 1;
        }
    }
    assert(v@.skip(i as int) =~= Seq::empty());
    assert(out@ + Seq::<char>::empty() =~= out@);
    out
}

/// A choice that the user made in the window for preferences.
#[derive(Debug, Clone, Copy, PartialEq, Eq, Structural)]
pub enum PreferenceChange {
    /// The station at this place of the list.
    Station(u32),
    Autoplay(bool),
    PauseResume(bool),
    Discord(bool),
}

/// The place of a station in the list of the window for preferences.
pub open spec fn place_of(station: Station) -> u32 {
    match station {
        Station::Jpop => 0,
        Station::Kpop => 1,
    }
}

/// The station at a place of the list.
pub open spec fn station_in(place: u32) -> Station {
    if place == 1 {
        Station::Kpop
    } else {
        Station::Jpop
    }
}

pub fn station_place(station: Station) -> (r: u32)
    ensures
        r == place_of(station),
{
    match station {
        Station::Kpop => 1,
        Station::Jpop => 0,
    }
}

/// Options after a choice.
pub open spec fn changed(options: UiOptions, change: PreferenceChange) -> UiOptions {
    match change {
        PreferenceChange::Station(place) => UiOptions { station: station_in(place), ..options },
        PreferenceChange::Autoplay(on) => UiOptions { autoplay: on, ..options },
        PreferenceChange::PauseResume(on) => UiOptions { pause_resume_enabled: on, ..options },
        PreferenceChange::Discord(on) => UiOptions { discord_enabled: on, ..options },
    }
}

/// Takes a choice. The options are saved after each.
pub fn apply_preference(options: &mut UiOptions, change: PreferenceChange)
    ensures
        *final(options) == changed(*old(options), change),
{
    match change {
        PreferenceChange::Station(place) => {
            options.station = if place == 1 {
                Station::Kpop
            } else {
                Station::Jpop
            };
        },
        PreferenceChange::Autoplay(on) => {
            options.autoplay = on;
        },
        PreferenceChange::PauseResume(on) => {
            options.set_pause_resume_enabled(on);
        },
        PreferenceChange::Discord(on) => {
            options.discord_enabled = on;
        },
    }
}

/// The station that the list shows is the station that was chosen from it.
pub proof fn law_list_shows_the_chosen_station(options: UiOptions, station: Station)
    ensures
        changed(options, PreferenceChange::Station(place_of(station))).station == station,
{
}

/// The list has the stations in the order of the menu, and each other place stands for the first.
pub proof fn law_list_has_the_order_of_the_menu(place: u32)
    ensures
        place_of(Station::Jpop) == 0,
        place_of(Station::Kpop) == 1,
        station_in(place_of(Station::Jpop)) == Station::Jpop,
        station_in(place_of(Station::Kpop)) == Station::Kpop,
        place > 1 ==> station_in(place) == station_in(0),
{
}

/// Each choice changes the one thing that it is about.
pub proof fn law_choices_change_one_thing(options: UiOptions, place: u32, on: bool)
    ensures
        changed(options, PreferenceChange::Autoplay(on)) == (UiOptions { autoplay: on, ..options }),
        changed(options, PreferenceChange::PauseResume(on)) == (UiOptions {
            pause_resume_enabled: on,
            ..options
        }),
        changed(options, PreferenceChange::Discord(on)) == (UiOptions {
            discord_enabled: on,
            ..options
        }),
        changed(options, PreferenceChange::Station(place)) == (UiOptions {
            station: changed(options, PreferenceChange::Station(place)).station,
            ..options
        }),
{
}

/// The name stands just where the place for it was, and all else of a label stays as it is.
pub proof fn law_name_is_put_in_its_place(before: Seq<char>, after: Seq<char>, name: Seq<char>)
    requires
        !before.contains('%'),
    ensures
        filled_in(before + seq!['%', 's'] + after, name) == before + name + filled_in(after, name),
        filled_in(before, name) == before,
    decreases before.len(),
{
    let whole = before + seq!['%', 's'] + after;
    if before.len() == 0 {
        assert(whole.skip(2) =~= after);
        assert(whole[0] == '%' && whole[1] == 's');
        assert(before + name + filled_in(after, name) =~= name + filled_in(after, name));
        assert(filled_in(before, name) =~= before);
    } else {
        let rest = before.drop_first();
        assert(before.contains(before[0]));
        assert forall|i: int| 0 <= i < rest.len() implies rest[i] != '%' by {
            assert(before[i + 1] == rest[i]);
        }
        law_name_is_put_in_its_place(rest, after, name);
        assert(whole[0] == before[0]);
        assert(whole.drop_first() =~= rest + seq!['%', 's'] + after);
        assert(seq![before[0]] + rest =~= before);
        assert(filled_in(whole, name) =~= before + name + filled_in(after, name));
    }
}

} // verus!
