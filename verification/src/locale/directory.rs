//! Where compiled translations are looked for.
use vstd::prelude::*;

verus! {

pub const APP_ID: &'static str = "io.github.noobping.listenmoe";

/// The places that translations can lie in, in the order in which they are tried.
#[derive(Debug, Clone, Copy, PartialEq, Eq, Structural)]
pub enum LocaleDir {
    /// In the working directory, where the program is run by its developers.
    Developer,
    /// In the directory that an AppImage is mounted at.
    AppImage,
    /// Beside the program.
    BesideProgram,
    /// In a Flatpak.
    Flatpak,
    /// In the user's own data directory.
    UserData,
    /// In the system's directory.
    System,
}

/// Which of the places are there.
#[derive(Debug, Clone, Copy, PartialEq, Eq, Structural)]
pub struct LocaleDirs {
    pub developer: bool,
    pub app_image: bool,
    pub beside_program: bool,
    pub flatpak: bool,
    pub user_data: bool,
    pub system: bool,
}

impl LocaleDirs {
    pub open spec fn has(self, dir: LocaleDir) -> bool {
        match dir {
            LocaleDir::Developer => self.developer,
            LocaleDir::AppImage => self.app_image,
            LocaleDir::BesideProgram => self.beside_program,
            LocaleDir::Flatpak => self.flatpak,
            LocaleDir::UserData => self.user_data,
            LocaleDir::System => self.system,
        }
    }
}

impl LocaleDir {
    /// The place of a directory in the order in which they are tried.
    pub open spec fn rank(self) -> int {
        match self {
            LocaleDir::Developer => 0,
            LocaleDir::AppImage => 1,
            LocaleDir::BesideProgram => 2,
            LocaleDir::Flatpak => 3,
            LocaleDir::UserData => 4,
            LocaleDir::System => 5,
        }
    }
}

/// The first of the places that is there; the developers' one if none is.
pub fn find_locale_dir(dirs: LocaleDirs) -> (r: LocaleDir)
    ensures
        dirs.has(r) || r == LocaleDir::Developer,
        forall|dir: LocaleDir|
            #[trigger] dirs.has(dir) ==> dirs.has(r) && r.rank() <= dir.rank(),
{
    if dirs.developer {
        LocaleDir::Developer
    } else if dirs.app_image {
        LocaleDir::AppImage
    } else if dirs.beside_program {
        LocaleDir::BesideProgram
    } else if dirs.flatpak {
        LocaleDir::Flatpak
    } else if dirs.user_data {
        LocaleDir::UserData
    } else if dirs.system {
        LocaleDir::System
    } else {
        LocaleDir::Developer
    }
}

/// The steps of a path that lead from the base directory of a place to the translations in it.
pub open spec fn path_below_base(dir: LocaleDir) -> Seq<Seq<char>> {
    match dir {
        LocaleDir::Developer => seq!["data"@, "locale"@],
        LocaleDir::AppImage => seq!["usr"@, "share"@, "locale"@],
        LocaleDir::BesideProgram => seq!["locale"@],
        LocaleDir::Flatpak => seq!["/app/share/locale"@],
        LocaleDir::UserData => seq![APP_ID@, "locale"@],
        LocaleDir::System => seq!["/usr/share/locale"@],
    }
}

pub fn locale_path(dir: LocaleDir) -> (r: Vec<&'static str>)
    ensures
        r@.map_values(|step: &'static str| step@) == path_below_base(dir),
{
    let r: Vec<&'static str> = match dir {
        LocaleDir::Developer => vec!["data", "locale"],
        LocaleDir::AppImage => vec!["usr", "share", "locale"],
        LocaleDir::BesideProgram => vec!["locale"],
        LocaleDir::Flatpak => vec!["/app/share/locale"],
        LocaleDir::UserData => vec![APP_ID, "locale"],
        LocaleDir::System => vec!["/usr/share/locale"],
    };
    assert(r@.map_values(|step: &'static str| step@) =~= path_below_base(dir));
    r
}

/// The places are tried from the one nearest to the developers to that of the system.
pub proof fn law_places_are_tried_in_order(dirs: LocaleDirs)
    ensures
        LocaleDir::Developer.rank() < LocaleDir::AppImage.rank() < LocaleDir::BesideProgram.rank(),
        LocaleDir::BesideProgram.rank() < LocaleDir::Flatpak.rank() < LocaleDir::UserData.rank(),
        LocaleDir::UserData.rank() < LocaleDir::System.rank(),
        dirs.has(LocaleDir::Developer) == dirs.developer,
        dirs.has(LocaleDir::AppImage) == dirs.app_image,
        dirs.has(LocaleDir::BesideProgram) == dirs.beside_program,
        dirs.has(LocaleDir::Flatpak) == dirs.flatpak,
        dirs.has(LocaleDir::UserData) == dirs.user_data,
        dirs.has(LocaleDir::System) == dirs.system,
{
}

/// In every place the last step leads to the directory of translations.
pub proof fn law_paths_lead_to_translations(dir: LocaleDir)
    ensures
        path_below_base(dir).len() >= 1,
        "locale"@.is_suffix_of(path_below_base(dir).last()),
{
    reveal_strlit("locale");
    reveal_strlit("/app/share/locale");
    reveal_strlit("/usr/share/locale");
    let last = path_below_base(dir).last();
    assert("locale"@ =~= last.subrange(last.len() - 6, last.len() as int));
}

} // verus!
