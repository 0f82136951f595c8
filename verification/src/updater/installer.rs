//! Putting a release in place with the system's installer.
use vstd::prelude::*;

use crate::updater::release::SelectedRelease;

verus! {

/// An installer that was or is to be downloaded: its path below the cache directory, and its size.
#[derive(Debug)]
pub struct DownloadedUpdate {
    pub path: Vec<String>,
    pub size: u64,
}

pub fn supports_updater() -> (r: bool)
    ensures
        r,
{
    true
}

pub fn update_check_body() -> (r: &'static str)
    ensures
        r@ == "Looking for a newer Windows installer on GitHub Releases."@,
{
    "Looking for a newer Windows installer on GitHub Releases."
}

pub fn update_available_description() -> (r: &'static str)
    ensures
        r@ == "A newer Windows release is available."@,
{
    "A newer Windows release is available."
}

pub fn ready_status() -> (r: &'static str)
    ensures
        r@ == "The installer is ready to run."@,
{
    "The installer is ready to run."
}

pub fn install_failed_description() -> (r: &'static str)
    ensures
        r@ == "Couldn't start the installer."@,
{
    "Couldn't start the installer."
}

/// Where the installer of a release goes, below the cache directory. `file_name` is the name of the
/// installer as a file may have it.
pub fn cached_download_path(package: &str, release: &SelectedRelease, file_name: &str) -> (r: Vec<
    String,
>)
    ensures
        r@.len() == 3,
        r@[0]@ == package@,
        r@[1]@ == "updates"@,
        r@[2]@ == release.version@ + "-"@ + file_name@,
{
    let mut name = release.version.clone();
    name.push_str("-");
    name.push_str(file_name);
    let mut path: Vec<String> = Vec::new();
    path.push(package.to_owned());
    path.push("updates".to_owned());
    path.push(name);
    path
}

pub fn download_target(package: &str, release: &SelectedRelease, file_name: &str) -> (r:
    DownloadedUpdate)
    ensures
        r.path@.len() == 3,
        r.path@[0]@ == package@,
        r.path@[1]@ == "updates"@,
        r.path@[2]@ == release.version@ + "-"@ + file_name@,
        r.size == release.asset.size,
{
    DownloadedUpdate {
        path: cached_download_path(package, release, file_name),
        size: release.asset.size,
    }
}

/// The program that installs, and its arguments before and after the path of the installer.
pub fn installer_command() -> (r: (&'static str, &'static str, [&'static str; 2]))
    ensures
        r.0@ == "msiexec"@,
        r.1@ == "/i"@,
        r.2@[0]@ == "/quiet"@,
        r.2@[1]@ == "/norestart"@,
{
    ("msiexec", "/i", ["/quiet", "/norestart"])
}

/// What is said where the installer cannot be started.
pub fn launch_failure(error: &str) -> (r: String)
    ensures
        r@ == "Failed to start msiexec for update install: "@ + error@,
{
    let mut out = "Failed to start msiexec for update install: ".to_owned();
    out.push_str(error);
    out
}

} // verus!
