//! The command line.
use vstd::prelude::*;

use crate::station::Station;
use crate::text;
use crate::text::{chars_of, lower_chars, same_text, string_of};
use crate::ui::options::UiOptions;

verus! {

/// What the command line asks for.
#[derive(Debug)]
pub enum CliAction {
    Run {
        ui_options: UiOptions,
        app_args: Vec<String>,
        verbose: bool,
        save_preferences: bool,
    },
    Help,
    Version,
}

/// What the command line asks for, arguments as text.
#[verifier::ext_equal]
pub enum CliOutcome {
    Run {
        ui_options: UiOptions,
        app_args: Seq<Seq<char>>,
        verbose: bool,
        save_preferences: bool,
    },
    Help,
    Version,
}

impl View for CliAction {
    type V = CliOutcome;

    open spec fn view(&self) -> CliOutcome {
        match *self {
            CliAction::Run { ui_options, app_args, verbose, save_preferences } => CliOutcome::Run {
                ui_options,
                app_args: texts(app_args@),
                verbose,
                save_preferences,
            },
            CliAction::Help => CliOutcome::Help,
            CliAction::Version => CliOutcome::Version,
        }
    }
}

/// The characters of each of several texts.
pub open spec fn texts(v: Seq<String>) -> Seq<Seq<char>> {
    v.map_values(|s: String| s@)
}

/// What has been read of a command line.
#[verifier::ext_equal]
pub struct CliState {
    pub options: UiOptions,
    pub passed: Seq<Seq<char>>,
    pub verbose: bool,
    pub save_preferences: bool,
    pub parse_flags: bool,
}

/// What one argument leads to.
#[verifier::ext_equal]
pub enum CliStep {
    Continue(CliState),
    Help,
    Version,
}

/// Whether a character is a flag of its own.
pub open spec fn is_short_flag(c: char) -> bool {
    c == 'a' || c == 'j' || c == 'k' || c == 'p' || c == 's' || c == 'v' || c == 'h'
}

/// Whether an argument is several flags in one.
pub open spec fn is_cluster(arg: Seq<char>) -> bool {
    &&& arg.len() > 2
    &&& arg[0] == '-'
    &&& forall|i: int| 1 <= i < arg.len() ==> is_short_flag(#[trigger] arg[i])
}

impl CliState {
    /// With an argument left to the toolkit.
    pub open spec fn passing(self, arg: Seq<char>) -> CliState {
        CliState { passed: self.passed.push(arg), ..self }
    }

    /// After a flag of one letter.
    pub open spec fn after_flag(self, c: char) -> CliStep {
        if c == 'a' {
            CliStep::Continue(
                CliState { options: UiOptions { autoplay: true, ..self.options }, ..self },
            )
        } else if c == 'j' {
            CliStep::Continue(
                CliState { options: UiOptions { station: Station::Jpop, ..self.options }, ..self },
            )
        } else if c == 'k' {
            CliStep::Continue(
                CliState { options: UiOptions { station: Station::Kpop, ..self.options }, ..self },
            )
        } else if c == 's' {
            CliStep::Continue(
                CliState {
                    options: UiOptions { pause_resume_enabled: false, ..self.options },
                    ..self
                },
            )
        } else if c == 'p' {
            CliStep::Continue(CliState { save_preferences: true, ..self })
        } else if c == 'v' {
            CliStep::Continue(CliState { verbose: true, ..self })
        } else {
            CliStep::Help
        }
    }

    /// After several flags of one letter, up to one that asks for help.
    pub open spec fn after_flags(self, flags: Seq<char>) -> CliStep
        decreases flags.len(),
    {
        if flags.len() == 0 {
            CliStep::Continue(self)
        } else {
            match self.after_flag(flags[0]) {
                CliStep::Continue(next) => next.after_flags(flags.drop_first()),
                done => done,
            }
        }
    }

    /// The flag of one letter that an argument stands for.
    pub open spec fn flag_of(arg: Seq<char>) -> Option<char> {
        if arg == "-a"@ || arg == "--autoplay"@ {
            Some('a')
        } else if arg == "-j"@ || arg == "--jpop"@ {
            Some('j')
        } else if arg == "-k"@ || arg == "--kpop"@ {
            Some('k')
        } else if arg == "-s"@ || arg == "--stop"@ {
            Some('s')
        } else if arg == "-p"@ || arg == "--preferences"@ {
            Some('p')
        } else if arg == "-v"@ || arg == "--verbose"@ {
            Some('v')
        } else if arg == "-h"@ || arg == "--help"@ {
            Some('h')
        } else {
            None
        }
    }

    /// After one argument.
    pub open spec fn after_arg(self, arg: Seq<char>) -> CliStep {
        if !self.parse_flags {
            CliStep::Continue(self.passing(arg))
        } else if arg == "--"@ {
            CliStep::Continue(CliState { parse_flags: false, ..self.passing(arg) })
        } else if is_cluster(arg) {
            self.after_flags(arg.drop_first())
        } else if arg == "--no-discord"@ {
            CliStep::Continue(
                CliState { options: UiOptions { discord_enabled: false, ..self.options }, ..self },
            )
        } else if arg == "--version"@ {
            CliStep::Version
        } else {
            match Self::flag_of(arg) {
                Some(c) => self.after_flag(c),
                None => CliStep::Continue(self.passing(arg)),
            }
        }
    }

    /// What the command line asks for, with the given arguments still to be read.
    pub open spec fn outcome(self, args: Seq<Seq<char>>) -> CliOutcome
        decreases args.len(),
    {
        if args.len() == 0 {
            CliOutcome::Run {
                ui_options: self.options,
                app_args: self.passed,
                verbose: self.verbose,
                save_preferences: self.save_preferences,
            }
        } else {
            match self.after_arg(args[0]) {
                CliStep::Continue(next) => next.outcome(args.drop_first()),
                CliStep::Help => CliOutcome::Help,
                CliStep::Version => CliOutcome::Version,
            }
        }
    }

    /// Before the first argument.
    pub open spec fn start(options: UiOptions, passed: Seq<Seq<char>>) -> CliState {
        CliState { options, passed, verbose: false, save_preferences: false, parse_flags: true }
    }
}

/// What a command line asks for. Its first word is the program.
pub open spec fn cli_outcome(defaults: UiOptions, args: Seq<Seq<char>>) -> CliOutcome {
    if args.len() == 0 {
        CliState::start(defaults, Seq::empty()).outcome(Seq::empty())
    } else {
        CliState::start(defaults, seq![args[0]]).outcome(args.drop_first())
    }
}

/// What has been read of a command line.
struct CliReader {
    options: UiOptions,
    passed: Vec<String>,
    verbose: bool,
    save_preferences: bool,
    parse_flags: bool,
}

/// What one argument leads to.
#[derive(PartialEq, Eq, Structural)]
enum Step {
    Continue,
    Help,
    Version,
}

impl Step {
    spec fn leads_to(self, reader: CliReader) -> CliStep {
        match self {
            Step::Continue => CliStep::Continue(reader.state()),
            Step::Help => CliStep::Help,
            Step::Version => CliStep::Version,
        }
    }
}

impl CliReader {
    spec fn state(self) -> CliState {
        CliState {
            options: self.options,
            passed: texts(self.passed@),
            verbose: self.verbose,
            save_preferences: self.save_preferences,
            parse_flags: self.parse_flags,
        }
    }

    fn pass(&mut self, arg: &String)
        ensures
            final(self).state() == old(self).state().passing(arg@),
    {
        let ghost before = self.state();
        self.passed.push(arg.clone());
        assert(self.state() =~= before.passing(arg@));
    }

    fn read_flag(&mut self, c: char) -> (r: Step)
        ensures
            r.leads_to(*final(self)) == old(self).state().after_flag(c),
    {
        if c == 'a' {
            self.options.autoplay = true;
        } else if c == 'j' {
            self.options.station = Station::Jpop;
        } else if c == 'k' {
            self.options.station = Station::Kpop;
        } else if c == 's' {
            self.options.set_pause_resume_enabled(false);
        } else if c == 'p' {
            self.save_preferences = true;
        } else if c == 'v' {
            self.verbose = true;
        } else {
            return Step::Help;
        }
        Step::Continue
    }

    fn read_flags(&mut self, arg: &[char]) -> (r: Step)
        requires
            arg@.len() > 0,
        ensures
            r.leads_to(*final(self)) == old(self).state().after_flags(arg@.drop_first()),
    {
        let ghost flags = arg@.drop_first();
        let ghost before = self.state();
        let mut i: usize = 1;
        assert(flags.skip(0) =~= flags);
        while i < arg.len()
            invariant
                1 <= i <= arg@.len(),
                flags == arg@.drop_first(),
                before == old(self).state(),
                self.state().after_flags(flags.skip(i - 1)) == before.after_flags(flags),
            decreases arg@.len() - i,
        {
            assert(flags.skip(i - 1)[0] == arg@[i as int]);
            assert(flags.skip(i - 1).drop_first() =~= flags.skip(i as int));
            let step = self.read_flag(arg[i]);
            if step != Step::Continue {
                return step;
            }
            i += 1;
        }
        assert(flags.skip(i - 1) =~= Seq::empty());
        Step::Continue
    }

    fn read_arg(&mut self, arg: &String) -> (r: Step)
        ensures
            r.leads_to(*final(self)) == old(self).state().after_arg(arg@),
    {
        if !self.parse_flags {
            self.pass(arg);
            return Step::Continue;
        }
        if same_text(arg, "--") {
            self.parse_flags = false;
            self.pass(arg);
            return Step::Continue;
        }
        let chars = chars_of(arg);
        if read_as_cluster(chars.as_slice()) {
            return self.read_flags(chars.as_slice());
        }
        if same_text(arg, "--no-discord") {
            self.options.discord_enabled = false;
            return Step::Continue;
        }
        if same_text(arg, "--version") {
            return Step::Version;
        }
        match read_as_flag(arg) {
            Some(c) => self.read_flag(c),
            None => {
                self.pass(arg);
                Step::Continue
            },
        }
    }
}

fn read_as_cluster(arg: &[char]) -> (r: bool)
    ensures
        r == is_cluster(arg@),
{
    if arg.len() <= 2 || arg[0] != '-' {
        return false;
    }
    let mut i: usize = 1;
    while i < arg.len()
        invariant
            1 <= i <= arg@.len(),
            forall|k: int| 1 <= k < i ==> is_short_flag(#[trigger] arg@[k]),
        decreases arg@.len() - i,
    {
        let c: char = arg[i];
        if !(c == 'a' || c == 'j' || c == 'k' || c == 'p' || c == 's' || c == 'v' || c == 'h') {
            assert(!is_short_flag(arg@[i as int]));
            return false;
        }
        i += 1;
    }
    true
}

fn read_as_flag(arg: &str) -> (r: Option<char>)
    ensures
        r == CliState::flag_of(arg@),
{
    if same_text(arg, "-a") || same_text(arg, "--autoplay") {
        Some('a')
    } else if same_text(arg, "-j") || same_text(arg, "--jpop") {
        Some('j')
    } else if same_text(arg, "-k") || same_text(arg, "--kpop") {
        Some('k')
    } else if same_text(arg, "-s") || same_text(arg, "--stop") {
        Some('s')
    } else if same_text(arg, "-p") || same_text(arg, "--preferences") {
        Some('p')
    } else if same_text(arg, "-v") || same_text(arg, "--verbose") {
        Some('v')
    } else if same_text(arg, "-h") || same_text(arg, "--help") {
        Some('h')
    } else {
        None
    }
}

/// What a command line asks for. Its first word is the program.
pub fn parse_cli(default_options: UiOptions, args: &[String]) -> (r: CliAction)
    ensures
        r@ == cli_outcome(default_options, texts(args@)),
{
    let ghost all = texts(args@);
    let mut reader = CliReader {
        options: default_options,
        passed: Vec::new(),
        verbose: false,
        save_preferences: false,
        parse_flags: true,
    };
    if args.len() == 0 {
        assert(reader.state() =~= CliState::start(default_options, Seq::empty()));
        return CliAction::Run {
            ui_options: reader.options,
            app_args: reader.passed,
            verbose: false,
            save_preferences: false,
        };
    }
    reader.pass(&args[0]);
    assert(reader.state() =~= CliState::start(default_options, seq![all[0]]));
    let mut i: usize = 1;
    assert(all.skip(1) =~= all.drop_first());
    while i < args.len()
        invariant
            1 <= i <= args@.len(),
            all == texts(args@),
            reader.state().outcome(all.skip(i as int)) == cli_outcome(default_options, all),
        decreases args@.len() - i,
    {
        assert(all.skip(i as int)[0] == args@[i as int]@);
        assert(all.skip(i as int).drop_first() =~= all.skip(i + 1));
        match reader.read_arg(&args[i]) {
            Step::Continue => {},
            Step::Help => {
                return CliAction::Help;
            },
            Step::Version => {
                return CliAction::Version;
            },
        }
        i += 1;
    }
    assert(all.skip(i as int) =~= Seq::empty());
    CliAction::Run {
        ui_options: reader.options,
        app_args: reader.passed,
        verbose: reader.verbose,
        save_preferences: reader.save_preferences,
    }
}

/// The arguments that give each of several flags on its own.
pub open spec fn apart(flags: Seq<char>) -> Seq<Seq<char>> {
    flags.map_values(|c: char| seq!['-', c])
}

proof fn lemma_single_flag(state: CliState, c: char)
    requires
        state.parse_flags,
        is_short_flag(c),
    ensures
        state.after_arg(seq!['-', c]) == state.after_flag(c),
{
    reveal_strlit("-a");
    reveal_strlit("--autoplay");
    reveal_strlit("-j");
    reveal_strlit("--jpop");
    reveal_strlit("-k");
    reveal_strlit("--kpop");
    reveal_strlit("-s");
    reveal_strlit("--stop");
    reveal_strlit("-p");
    reveal_strlit("--preferences");
    reveal_strlit("-v");
    reveal_strlit("--verbose");
    reveal_strlit("-h");
    reveal_strlit("--help");
    reveal_strlit("--");
    reveal_strlit("--no-discord");
    reveal_strlit("--version");
    let arg = seq!['-', c];
    assert(arg[1] == c);
    assert("--"@[1] == '-');
    assert("-a"@ =~= seq!['-', 'a']);
    assert("-j"@ =~= seq!['-', 'j']);
    assert("-k"@ =~= seq!['-', 'k']);
    assert("-s"@ =~= seq!['-', 's']);
    assert("-p"@ =~= seq!['-', 'p']);
    assert("-v"@ =~= seq!['-', 'v']);
    assert("-h"@ =~= seq!['-', 'h']);
    assert("-a"@[1] == 'a');
    assert("-j"@[1] == 'j');
    assert("-k"@[1] == 'k');
    assert("-s"@[1] == 's');
    assert("-p"@[1] == 'p');
    assert("-v"@[1] == 'v');
    assert("-h"@[1] == 'h');
}

proof fn lemma_flags_apart(state: CliState, flags: Seq<char>, rest: Seq<Seq<char>>)
    requires
        state.parse_flags,
        forall|i: int| 0 <= i < flags.len() ==> is_short_flag(#[trigger] flags[i]),
    ensures
        state.outcome(apart(flags) + rest) == (match state.after_flags(flags) {
            CliStep::Continue(next) => next.outcome(rest),
            CliStep::Help => CliOutcome::Help,
            CliStep::Version => CliOutcome::Version,
        }),
    decreases flags.len(),
{
    let args = apart(flags) + rest;
    if flags.len() == 0 {
        assert(args =~= rest);
    } else {
        assert(args[0] =~= seq!['-', flags[0]]);
        assert(args.drop_first() =~= apart(flags.drop_first()) + rest);
        lemma_single_flag(state, flags[0]);
        if let CliStep::Continue(next) = state.after_flag(flags[0]) {
            lemma_flags_apart(next, flags.drop_first(), rest);
        }
    }
}

/// Flags of one letter in one argument mean what they mean one by one.
pub proof fn law_clusters_are_their_flags(
    state: CliState,
    flags: Seq<char>,
    rest: Seq<Seq<char>>,
)
    requires
        state.parse_flags,
        flags.len() >= 2,
        forall|i: int| 0 <= i < flags.len() ==> is_short_flag(#[trigger] flags[i]),
    ensures
        state.outcome(seq![seq!['-'] + flags] + rest) == state.outcome(apart(flags) + rest),
{
    let arg = seq!['-'] + flags;
    let args = seq![arg] + rest;
    reveal_strlit("--");
    assert(arg.len() > 2);
    assert(args[0] == arg);
    assert(args.drop_first() =~= rest);
    assert(arg.drop_first() =~= flags);
    assert forall|i: int| 1 <= i < arg.len() implies is_short_flag(#[trigger] arg[i]) by {
        assert(arg[i] == flags[i - 1]);
    }
    lemma_flags_apart(state, flags, rest);
}

/// After two dashes, all that follows is left to the toolkit as it stands.
pub proof fn law_nothing_is_read_after_two_dashes(state: CliState, rest: Seq<Seq<char>>)
    requires
        !state.parse_flags,
    ensures
        state.outcome(rest) == (CliOutcome::Run {
            ui_options: state.options,
            app_args: state.passed + rest,
            verbose: state.verbose,
            save_preferences: state.save_preferences,
        }),
    decreases rest.len(),
{
    if rest.len() > 0 {
        law_nothing_is_read_after_two_dashes(state.passing(rest[0]), rest.drop_first());
        assert(state.passed.push(rest[0]) + rest.drop_first() =~= state.passed + rest);
    } else {
        assert(state.passed + rest =~= state.passed);
    }
}

/// What each argument of the program is spelled with, so that none is taken for another.
proof fn lemma_spellings()
    ensures
        "-a"@ =~= seq!['-', 'a'],
        "-j"@ =~= seq!['-', 'j'],
        "-k"@ =~= seq!['-', 'k'],
        "-s"@ =~= seq!['-', 's'],
        "-p"@ =~= seq!['-', 'p'],
        "-v"@ =~= seq!['-', 'v'],
        "-h"@ =~= seq!['-', 'h'],
        "--"@ =~= seq!['-', '-'],
        "--autoplay"@ =~= seq!['-', '-', 'a', 'u', 't', 'o', 'p', 'l', 'a', 'y'],
        "--jpop"@ =~= seq!['-', '-', 'j', 'p', 'o', 'p'],
        "--kpop"@ =~= seq!['-', '-', 'k', 'p', 'o', 'p'],
        "--stop"@ =~= seq!['-', '-', 's', 't', 'o', 'p'],
        "--preferences"@ =~= seq![
            '-',
            '-',
            'p',
            'r',
            'e',
            'f',
            'e',
            'r',
            'e',
            'n',
            'c',
            'e',
            's',
        ],
        "--verbose"@ =~= seq!['-', '-', 'v', 'e', 'r', 'b', 'o', 's', 'e'],
        "--version"@ =~= seq!['-', '-', 'v', 'e', 'r', 's', 'i', 'o', 'n'],
        "--help"@ =~= seq!['-', '-', 'h', 'e', 'l', 'p'],
        "--no-discord"@ =~= seq!['-', '-', 'n', 'o', '-', 'd', 'i', 's', 'c', 'o', 'r', 'd'],
{
    reveal_strlit("-a");
    reveal_strlit("--autoplay");
    reveal_strlit("-j");
    reveal_strlit("--jpop");
    reveal_strlit("-k");
    reveal_strlit("--kpop");
    reveal_strlit("-s");
    reveal_strlit("--stop");
    reveal_strlit("-p");
    reveal_strlit("--preferences");
    reveal_strlit("-v");
    reveal_strlit("--verbose");
    reveal_strlit("-h");
    reveal_strlit("--help");
    reveal_strlit("--");
    reveal_strlit("--no-discord");
    reveal_strlit("--version");
}

/// A long flag leads to what its letter leads to.
proof fn lemma_long_spelling(state: CliState, arg: Seq<char>, c: char)
    requires
        state.parse_flags,
        (c == 'a' && arg == "--autoplay"@) || (c == 'j' && arg == "--jpop"@) || (c == 'k' && arg
            == "--kpop"@) || (c == 's' && arg == "--stop"@) || (c == 'p' && arg
            == "--preferences"@) || (c == 'v' && arg == "--verbose"@) || (c == 'h' && arg
            == "--help"@),
    ensures
        state.after_arg(arg) == state.after_flag(c),
{
    lemma_spellings();
    assert(arg[1] == '-');
    assert(arg[2] == c);
    assert(!is_cluster(arg)) by {
        assert(!is_short_flag(arg[1]));
    }
    assert("--autoplay"@[2] == 'a');
    assert("--jpop"@[2] == 'j');
    assert("--kpop"@[2] == 'k');
    assert("--stop"@[2] == 's');
    assert("--preferences"@[2] == 'p');
    assert("--verbose"@[2] == 'v');
    assert("--help"@[2] == 'h');
    assert("--no-discord"@[2] == 'n');
    assert("--version"@[5] == 's');
    assert("--verbose"@[5] == 'b');
}

/// One argument, followed by others, comes to what it leads to, followed by the others.
proof fn lemma_one_by_one(state: CliState, arg: Seq<char>, rest: Seq<Seq<char>>)
    ensures
        state.outcome(seq![arg] + rest) == (match state.after_arg(arg) {
            CliStep::Continue(next) => next.outcome(rest),
            CliStep::Help => CliOutcome::Help,
            CliStep::Version => CliOutcome::Version,
        }),
{
    let args = seq![arg] + rest;
    assert(args[0] == arg);
    assert(args.drop_first() =~= rest);
}

/// A long flag means what its letter means, wherever flags are still read.
pub proof fn law_long_flags_mean_their_letters(state: CliState, rest: Seq<Seq<char>>)
    requires
        state.parse_flags,
    ensures
        state.outcome(seq!["--autoplay"@] + rest) == state.outcome(seq!["-a"@] + rest),
        state.outcome(seq!["--jpop"@] + rest) == state.outcome(seq!["-j"@] + rest),
        state.outcome(seq!["--kpop"@] + rest) == state.outcome(seq!["-k"@] + rest),
        state.outcome(seq!["--stop"@] + rest) == state.outcome(seq!["-s"@] + rest),
        state.outcome(seq!["--preferences"@] + rest) == state.outcome(seq!["-p"@] + rest),
        state.outcome(seq!["--verbose"@] + rest) == state.outcome(seq!["-v"@] + rest),
        state.outcome(seq!["--help"@] + rest) == state.outcome(seq!["-h"@] + rest),
{
    lemma_spellings();
    lemma_long_spelling(state, "--autoplay"@, 'a');
    lemma_long_spelling(state, "--jpop"@, 'j');
    lemma_long_spelling(state, "--kpop"@, 'k');
    lemma_long_spelling(state, "--stop"@, 's');
    lemma_long_spelling(state, "--preferences"@, 'p');
    lemma_long_spelling(state, "--verbose"@, 'v');
    lemma_long_spelling(state, "--help"@, 'h');
    lemma_single_flag(state, 'a');
    lemma_single_flag(state, 'j');
    lemma_single_flag(state, 'k');
    lemma_single_flag(state, 's');
    lemma_single_flag(state, 'p');
    lemma_single_flag(state, 'v');
    lemma_single_flag(state, 'h');
    lemma_one_by_one(state, "--autoplay"@, rest);
    lemma_one_by_one(state, "-a"@, rest);
    lemma_one_by_one(state, "--jpop"@, rest);
    lemma_one_by_one(state, "-j"@, rest);
    lemma_one_by_one(state, "--kpop"@, rest);
    lemma_one_by_one(state, "-k"@, rest);
    lemma_one_by_one(state, "--stop"@, rest);
    lemma_one_by_one(state, "-s"@, rest);
    lemma_one_by_one(state, "--preferences"@, rest);
    lemma_one_by_one(state, "-p"@, rest);
    lemma_one_by_one(state, "--verbose"@, rest);
    lemma_one_by_one(state, "-v"@, rest);
    lemma_one_by_one(state, "--help"@, rest);
    lemma_one_by_one(state, "-h"@, rest);
}

/// Each flag sets the one thing that it is for, and the rest of the command line is read as if that
/// had been so before.
pub proof fn law_flags_set_what_they_are_for(state: CliState, rest: Seq<Seq<char>>)
    requires
        state.parse_flags,
    ensures
        state.outcome(seq!["--autoplay"@] + rest) == (CliState {
            options: UiOptions { autoplay: true, ..state.options },
            ..state
        }).outcome(rest),
        state.outcome(seq!["--jpop"@] + rest) == (CliState {
            options: UiOptions { station: Station::Jpop, ..state.options },
            ..state
        }).outcome(rest),
        state.outcome(seq!["--kpop"@] + rest) == (CliState {
            options: UiOptions { station: Station::Kpop, ..state.options },
            ..state
        }).outcome(rest),
        state.outcome(seq!["--stop"@] + rest) == (CliState {
            options: UiOptions { pause_resume_enabled: false, ..state.options },
            ..state
        }).outcome(rest),
        state.outcome(seq!["--no-discord"@] + rest) == (CliState {
            options: UiOptions { discord_enabled: false, ..state.options },
            ..state
        }).outcome(rest),
        state.outcome(seq!["--preferences"@] + rest) == (CliState {
            save_preferences: true,
            ..state
        }).outcome(rest),
        state.outcome(seq!["--verbose"@] + rest) == (CliState { verbose: true, ..state }).outcome(
            rest,
        ),
        state.outcome(seq!["--help"@] + rest) == CliOutcome::Help,
        state.outcome(seq!["--version"@] + rest) == CliOutcome::Version,
{
    lemma_spellings();
    lemma_long_spelling(state, "--autoplay"@, 'a');
    lemma_long_spelling(state, "--jpop"@, 'j');
    lemma_long_spelling(state, "--kpop"@, 'k');
    lemma_long_spelling(state, "--stop"@, 's');
    lemma_long_spelling(state, "--preferences"@, 'p');
    lemma_long_spelling(state, "--verbose"@, 'v');
    lemma_long_spelling(state, "--help"@, 'h');
    lemma_one_by_one(state, "--autoplay"@, rest);
    lemma_one_by_one(state, "--jpop"@, rest);
    lemma_one_by_one(state, "--kpop"@, rest);
    lemma_one_by_one(state, "--stop"@, rest);
    lemma_one_by_one(state, "--preferences"@, rest);
    lemma_one_by_one(state, "--verbose"@, rest);
    lemma_one_by_one(state, "--help"@, rest);
    lemma_one_by_one(state, "--no-discord"@, rest);
    lemma_one_by_one(state, "--version"@, rest);
    assert(!is_cluster("--no-discord"@)) by {
        assert(!is_short_flag("--no-discord"@[1]));
    }
    assert(!is_cluster("--version"@)) by {
        assert(!is_short_flag("--version"@[1]));
    }
    assert("--no-discord"@.len() == 12);
    assert("--version"@.len() == 9);
}

/// A station is chosen by the flag that bears its name.
pub proof fn law_station_is_chosen_by_its_name(
    state: CliState,
    station: Station,
    rest: Seq<Seq<char>>,
)
    requires
        state.parse_flags,
    ensures
        state.outcome(seq!["--"@ + station.short_name()] + rest) == (CliState {
            options: UiOptions { station, ..state.options },
            ..state
        }).outcome(rest),
{
    lemma_spellings();
    reveal_strlit("jpop");
    reveal_strlit("kpop");
    law_flags_set_what_they_are_for(state, rest);
    match station {
        Station::Jpop => {
            assert("--"@ + "jpop"@ =~= "--jpop"@);
        },
        Station::Kpop => {
            assert("--"@ + "kpop"@ =~= "--kpop"@);
        },
    }
}

/// Letters for flags can be joined behind one dash, in any number and order.
pub proof fn law_letters_can_be_joined(state: CliState, letters: Seq<char>, rest: Seq<Seq<char>>)
    requires
        state.parse_flags,
        letters.len() >= 2,
        forall|i: int| 0 <= i < letters.len() ==> "ajkpsvh"@.contains(#[trigger] letters[i]),
    ensures
        state.outcome(seq![seq!['-'] + letters] + rest) == state.outcome(
            letters.map_values(|c: char| seq!['-', c]) + rest,
        ),
{
    reveal_strlit("ajkpsvh");
    assert forall|i: int| 0 <= i < letters.len() implies is_short_flag(#[trigger] letters[i]) by {
        assert("ajkpsvh"@.contains(letters[i]));
    }
    law_clusters_are_their_flags(state, letters, rest);
    assert(letters.map_values(|c: char| seq!['-', c]) =~= apart(letters));
}

/// An argument that does not begin with a dash, and one of a dash and letters of which one is no
/// flag, is left to the toolkit.
pub proof fn law_other_arguments_are_passed_on(
    state: CliState,
    arg: Seq<char>,
    rest: Seq<Seq<char>>,
    i: int,
)
    requires
        arg.len() == 0 || arg[0] != '-' || (1 <= i < arg.len() && arg[1] != '-'
            && !"ajkpsvh"@.contains(arg[i])),
    ensures
        state.outcome(seq![arg] + rest) == (CliState {
            passed: state.passed + seq![arg],
            ..state
        }).outcome(rest),
{
    lemma_spellings();
    reveal_strlit("ajkpsvh");
    lemma_one_by_one(state, arg, rest);
    assert(state.passed.push(arg) =~= state.passed + seq![arg]);
    assert("ajkpsvh"@[0] == 'a');
    assert("ajkpsvh"@[1] == 'j');
    assert("ajkpsvh"@[2] == 'k');
    assert("ajkpsvh"@[3] == 'p');
    assert("ajkpsvh"@[4] == 's');
    assert("ajkpsvh"@[5] == 'v');
    assert("ajkpsvh"@[6] == 'h');
    if arg.len() > 0 && arg[0] == '-' {
        assert(!is_short_flag(arg[i]));
        assert("-a"@[1] == 'a');
        assert("-j"@[1] == 'j');
        assert("-k"@[1] == 'k');
        assert("-s"@[1] == 's');
        assert("-p"@[1] == 'p');
        assert("-v"@[1] == 'v');
        assert("-h"@[1] == 'h');
    }
}

/// Two dashes and all that follows them are left to the toolkit.
pub proof fn law_two_dashes_end_the_flags(state: CliState, rest: Seq<Seq<char>>)
    ensures
        state.outcome(seq!["--"@] + rest) == (CliOutcome::Run {
            ui_options: state.options,
            app_args: state.passed + seq!["--"@] + rest,
            verbose: state.verbose,
            save_preferences: state.save_preferences,
        }),
{
    lemma_one_by_one(state, "--"@, rest);
    let next = CliState { parse_flags: false, ..state.passing("--"@) };
    law_nothing_is_read_after_two_dashes(next, rest);
    assert(state.passed.push("--"@) =~= state.passed + seq!["--"@]);
}

/// A command line without arguments runs the program with the options it has by default; what is
/// read starts from there, and the program's name is passed on.
pub proof fn law_program_runs_with_its_defaults(
    defaults: UiOptions,
    program: Seq<char>,
    args: Seq<Seq<char>>,
)
    ensures
        cli_outcome(defaults, seq![program]) == (CliOutcome::Run {
            ui_options: defaults,
            app_args: seq![program],
            verbose: false,
            save_preferences: false,
        }),
        cli_outcome(defaults, seq![program] + args) == (CliState {
            options: defaults,
            passed: seq![program],
            verbose: false,
            save_preferences: false,
            parse_flags: true,
        }).outcome(args),
{
    assert(seq![program].drop_first() =~= Seq::empty());
    assert((seq![program] + args).drop_first() =~= args);
}

/// The text behind the program's name in its help.
pub const HELP_USAGE: &'static str = " [OPTIONS] [-- GTK_ARGS...]

Short flags can be combined (for example: -ja or -avk)

Options:
  -a, --autoplay    Start playing automatically on launch
  -j, --jpop        Use J-POP as default station
  -k, --kpop        Use K-POP as default station
  -p, --preferences Save current startup flags as defaults
  -s, --stop        Use stop behavior instead of pause
      --no-discord  Disable Discord Rich Presence at runtime
  -v, --verbose     Print extra startup diagnostics
  -h, --help        Show this help and exit
      --version     Show version and exit";

pub fn help_text(name: &str, version: &str, description: &str) -> (r: String)
    ensures
        r@ == name@ + " "@ + version@ + "\n"@ + description@ + "\n\nUsage:\n  "@ + name@
            + HELP_USAGE@,
{
    let mut out = name.to_owned();
    out.push_str(" ");
    out.push_str(version);
    out.push_str("\n");
    out.push_str(description);
    out.push_str("\n\nUsage:\n  ");
    out.push_str(name);
    out.push_str(HELP_USAGE);
    out
}

pub fn version_text(name: &str, version: &str) -> (r: String)
    ensures
        r@ == name@ + " "@ + version@,
{
    let mut out = name.to_owned();
    out.push_str(" ");
    out.push_str(version);
    out
}

/// Whether a setting of the environment asks for a window of its own.
pub fn is_non_unique(setting: Option<&str>) -> (r: bool)
    ensures
        r == (match setting {
            Some(value) => value@ == "1"@ || text::lower(value@) == "true"@,
            None => false,
        }),
{
    match setting {
        Some(value) => {
            let chars = chars_of(value);
            let lowered = string_of(lower_chars(chars.as_slice()).as_slice());
            same_text(value, "1") || same_text(&lowered, "true")
        },
        None => false,
    }
}

/// The identity that the program runs under. A name that the environment gives goes first; a build
/// for development has its own.
pub fn application_id(setting: Option<String>, is_debug: bool) -> (r: String)
    ensures
        r@ == (match setting {
            Some(id) => id@,
            None => if is_debug {
                "io.github.noobping.listenmoe_beta"@
            } else {
                "io.github.noobping.listenmoe"@
            },
        }),
{
    match setting {
        Some(id) => id,
        None => if is_debug {
            "io.github.noobping.listenmoe_beta".to_owned()
        } else {
            "io.github.noobping.listenmoe".to_owned()
        },
    }
}

} // verus!
