# listenmoe

A desktop player for the LISTEN.moe radio stations. The logic of the player is
a library that Verus proves; windows, sockets, files and the sound card are
ordinary Rust around it.

* `src/listen`: the playback clock, the recording behind a paused stream, and
  the loops that fill and play it.
* `src/meta`: tracks, the gateway that tells of them, and when the window shows
  which.
* `src/volume`: the volume of the player's streams at the sound server.
* `src/locale`: languages and message catalogs.
* `src/ui`: options, actions and menu of the window, and what Discord is told.
* `src/updater`: which release to update to.
* `src/cli.rs`, `src/preferences.rs`: command line and preferences.
* `src/text.rs`, `src/number.rs`, `src/station.rs`, `src/wall.rs`: what the
  others share.
* `app`: the program.
* `tests`: tests of the library.

Functions named `law_…` state what holds of several functions together. The
crates `semver` and `time` are called from the library; what is claimed of them
stands in the doc comments in `src/updater/version.rs` and
`src/meta/time_parse.rs`.
