use listenmoe::cli::{
    application_id, help_text, is_non_unique, parse_cli, version_text, CliAction,
};
use listenmoe::station::Station;
use listenmoe::ui::options::UiOptions;

fn parse(args: &[&str]) -> CliAction {
    let mut options = UiOptions::default();
    options.set_pause_resume_enabled(true);
    let args: Vec<String> = args.iter().map(|arg| arg.to_string()).collect();
    parse_cli(options, &args)
}

fn run(args: &[&str]) -> (UiOptions, Vec<String>, bool, bool) {
    match parse(args) {
        CliAction::Run { ui_options, app_args, verbose, save_preferences } => {
            (ui_options, app_args, verbose, save_preferences)
        }
        _ => panic!("the program is to run"),
    }
}

#[test]
fn flags_change_the_options() {
    let (options, args, verbose, save) = run(&[
        "prog",
        "--autoplay",
        "--kpop",
        "--stop",
        "--no-discord",
        "--verbose",
        "--preferences",
        "--gtk-debug",
        "file",
    ]);
    assert!(options.autoplay && !options.pause_resume_enabled && !options.discord_enabled);
    assert_eq!(options.station, Station::Kpop);
    assert_eq!(args, vec!["prog", "--gtk-debug", "file"]);
    assert!(verbose && save);
    let (options, args, verbose, save) = run(&["prog"]);
    assert!(options.pause_resume_enabled && options.discord_enabled);
    assert_eq!(args, vec!["prog"]);
    assert!(!verbose && !save);
    assert_eq!(run(&[]).1, Vec::<String>::new());
}

#[test]
fn short_flags_can_be_combined() {
    let (options, args, verbose, _) = run(&["prog", "-avk"]);
    assert!(options.autoplay && verbose);
    assert_eq!(options.station, Station::Kpop);
    assert_eq!(args.len(), 1);
    let (combined, ..) = run(&["prog", "-ja"]);
    let (apart, ..) = run(&["prog", "-j", "-a"]);
    assert_eq!(combined, apart);
    assert_eq!(run(&["prog", "-kj"]).0.station, Station::Jpop);
    assert_eq!(run(&["prog", "-ax"]).1, vec!["prog", "-ax"]);
    assert!(!run(&["prog", "-ax"]).0.autoplay);
    assert_eq!(run(&["prog", "-\u{e9}"]).1, vec!["prog", "-\u{e9}"]);
    assert!(matches!(parse(&["prog", "-ah"]), CliAction::Help));
    assert!(matches!(parse(&["prog", "-h", "--version"]), CliAction::Help));
    assert!(matches!(parse(&["prog", "--version"]), CliAction::Version));
}

#[test]
fn everything_after_two_dashes_is_left_to_the_toolkit() {
    let (options, args, ..) = run(&["prog", "-a", "--", "-k", "--help"]);
    assert!(options.autoplay);
    assert_eq!(options.station, Station::Jpop);
    assert_eq!(args, vec!["prog", "--", "-k", "--help"]);
}

#[test]
fn help_names_program_and_flags() {
    let help = help_text("listenmoe", "1.2.3", "A player");
    assert!(help.starts_with("listenmoe 1.2.3\nA player\n\nUsage:\n  listenmoe [OPTIONS]"));
    assert!(help.contains("\n  -s, --stop        Use stop behavior instead of pause\n"));
    assert!(help.ends_with("--version     Show version and exit"));
    assert_eq!(version_text("listenmoe", "1.2.3"), "listenmoe 1.2.3");
}

#[test]
fn settings_of_the_environment_are_read() {
    assert!(is_non_unique(Some("1")));
    assert!(is_non_unique(Some("TrUe")));
    assert!(!is_non_unique(Some("yes")));
    assert!(!is_non_unique(None));
    assert_eq!(application_id(None, true), "io.github.noobping.listenmoe_beta");
    assert_eq!(application_id(None, false), "io.github.noobping.listenmoe");
    assert_eq!(application_id(Some("x".to_string()), false), "x");
}
