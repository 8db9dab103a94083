//! The command line.

use crate::text::{chars_of, parse_u64, same_text, strings_view};
use vstd::prelude::*;

verus! {

/// What the program is asked to do.
#[derive(Debug, Clone, Copy, PartialEq, Eq, Structural)]
pub enum Command {
    /// Measure the session of the terminal.
    Watch,
    /// Accumulate in the background.
    Daemon,
    /// Show what was accumulated.
    Status,
    /// Start over.
    Reset,
}

/// The settings of a run.
#[derive(Debug, Clone, PartialEq, Eq)]
pub struct Args {
    pub command: Command,
    pub interval_seconds: u64,
    pub once: bool,
    pub live: bool,
    pub json: bool,
    pub sysfs_root: String,
    pub state_file: String,
}

/// What a command line asks for.
#[derive(Debug, Clone, PartialEq, Eq)]
pub enum Invocation {
    /// A run with these settings.
    Run(Args),
    /// The help text.
    Help,
    /// The version.
    Version,
}

/// The model of [`Args`].
pub struct ArgsView {
    pub command: Command,
    pub interval_seconds: u64,
    pub once: bool,
    pub live: bool,
    pub json: bool,
    pub sysfs_root: Seq<char>,
    pub state_file: Seq<char>,
}

/// The model of [`Invocation`].
pub enum InvocationView {
    Run(ArgsView),
    Help,
    Version,
}

impl View for Args {
    type V = ArgsView;

    open spec fn view(&self) -> ArgsView {
        ArgsView {
            command: self.command,
            interval_seconds: self.interval_seconds,
            once: self.once,
            live: self.live,
            json: self.json,
            sysfs_root: self.sysfs_root@,
            state_file: self.state_file@,
        }
    }
}

impl View for Invocation {
    type V = InvocationView;

    open spec fn view(&self) -> InvocationView {
        match *self {
            Invocation::Run(args) => InvocationView::Run(args@),
            Invocation::Help => InvocationView::Help,
            Invocation::Version => InvocationView::Version,
        }
    }
}

/// The model of the outcome of reading a command line.
pub open spec fn outcome_view(outcome: Result<Invocation, String>) -> Result<
    InvocationView,
    Seq<char>,
> {
    match outcome {
        Ok(invocation) => Ok(invocation@),
        Err(message) => Err(message@),
    }
}

/// The settings of a command without options.
pub open spec fn default_args(command: Command) -> ArgsView {
    ArgsView {
        command,
        interval_seconds: 1,
        once: false,
        live: false,
        json: false,
        sysfs_root: "/sys/class/power_supply"@,
        state_file: "/var/lib/battery-up/state"@,
    }
}

/// The command that a word names.
pub open spec fn command_of(word: Seq<char>) -> Option<Command> {
    if word == "watch"@ {
        Some(Command::Watch)
    } else if word == "daemon"@ {
        Some(Command::Daemon)
    } else if word == "status"@ {
        Some(Command::Status)
    } else if word == "reset"@ {
        Some(Command::Reset)
    } else {
        None
    }
}

/// What one option asks for next.
pub enum StepView {
    /// To go on behind so many words, with these settings.
    Continue(int, ArgsView),
    /// To stop with this outcome.
    Stop(Result<InvocationView, Seq<char>>),
}

/// What the first of the options asks for. It takes itself and the value behind it, where it
/// has one, and changes no setting but its own. Help and version stop, and so does every
/// mistake. The version is asked for only where that option is offered.
pub open spec fn one_option(options: Seq<Seq<char>>, args: ArgsView, offers_version: bool) -> StepView
    recommends
        options.len() > 0,
{
    let option = options[0];
    if option == "--interval"@ {
        if options.len() < 2 {
            StepView::Stop(Err("--interval requires a value in seconds"@))
        } else {
            match crate::text::unsigned_u64(options[1]) {
                None => StepView::Stop(Err("--interval must be a positive integer"@)),
                Some(seconds) => if seconds == 0 {
                    StepView::Stop(Err("--interval must be at least 1"@))
                } else {
                    StepView::Continue(2, ArgsView { interval_seconds: seconds, ..args })
                },
            }
        }
    } else if option == "--once"@ {
        StepView::Continue(1, ArgsView { once: true, ..args })
    } else if option == "--live"@ {
        StepView::Continue(1, ArgsView { live: true, ..args })
    } else if option == "--json"@ {
        StepView::Continue(1, ArgsView { json: true, ..args })
    } else if option == "--sysfs-root"@ {
        if options.len() < 2 {
            StepView::Stop(Err("--sysfs-root requires a path"@))
        } else {
            StepView::Continue(2, ArgsView { sysfs_root: options[1], ..args })
        }
    } else if option == "--state-file"@ {
        if options.len() < 2 {
            StepView::Stop(Err("--state-file requires a path"@))
        } else {
            StepView::Continue(2, ArgsView { state_file: options[1], ..args })
        }
    } else if option == "-h"@ || option == "--help"@ {
        StepView::Stop(Ok(InvocationView::Help))
    } else if offers_version && (option == "-V"@ || option == "--version"@) {
        StepView::Stop(Ok(InvocationView::Version))
    } else {
        StepView::Stop(Err("unknown argument: "@ + option))
    }
}

/// What the options of a command line make of the settings so far. Options are read from
/// the left, and a later one overrides an earlier one. The first that stops decides.
pub open spec fn read_options(
    options: Seq<Seq<char>>,
    args: ArgsView,
    offers_version: bool,
) -> Result<InvocationView, Seq<char>>
    decreases options.len(),
{
    if options.len() == 0 {
        Ok(InvocationView::Run(args))
    } else {
        match one_option(options, args, offers_version) {
            StepView::Continue(taken, changed) => read_options(
                options.skip(taken),
                changed,
                offers_version,
            ),
            StepView::Stop(outcome) => outcome,
        }
    }
}

/// What a command line asks for: an optional command, then options.
pub open spec fn read_command_line(words: Seq<Seq<char>>, offers_version: bool) -> Result<
    InvocationView,
    Seq<char>,
> {
    if words.len() > 0 && command_of(words[0]) is Some {
        read_options(words.skip(1), default_args(command_of(words[0])->0), offers_version)
    } else {
        read_options(words, default_args(Command::Watch), offers_version)
    }
}

/// The command that a word names.
fn find_command(word: &[char]) -> (r: Option<Command>)
    ensures
        r == command_of(word@),
{
    if same_text(word, "watch") {
        Some(Command::Watch)
    } else if same_text(word, "daemon") {
        Some(Command::Daemon)
    } else if same_text(word, "status") {
        Some(Command::Status)
    } else if same_text(word, "reset") {
        Some(Command::Reset)
    } else {
        None
    }
}

/// What one option asks for next.
#[derive(Debug, PartialEq, Eq)]
pub enum OptionStep {
    /// To go on at this position with the settings as they now are.
    Continue(usize),
    /// To stop here.
    Stop(Result<Invocation, String>),
}

/// Reads the option at a position, and the value behind it where it has one. The settings
/// stay what they were where the reading stops.
pub fn parse_option(words: &Vec<String>, at: usize, args: &mut Args, offers_version: bool) -> (step: OptionStep)
    requires
        at < words@.len(),
    ensures
        match step {
            OptionStep::Continue(next) => {
                &&& at < next <= words@.len()
                &&& one_option(strings_view(words@).skip(at as int), old(args)@, offers_version)
                    == StepView::Continue(next - at, final(args)@)
            },
            OptionStep::Stop(outcome) => {
                &&& *final(args) == *old(args)
                &&& one_option(strings_view(words@).skip(at as int), old(args)@, offers_version)
                    == StepView::Stop(outcome_view(outcome))
            },
        },
{
    let ghost options = strings_view(words@).skip(at as int);
    assert(options[0] == words@[at as int]@);
    assert(options.len() > 1 ==> options[1] == words@[at + 1]@);
    let option = chars_of(words[at].as_str());
    let word = option.as_slice();
    let has_value = words.len() - at > 1;
    if same_text(word, "--interval") {
        if !has_value {
            return OptionStep::Stop(Err("--interval requires a value in seconds".to_string()));
        }
        let value = chars_of(words[at + 1].as_str());
        match parse_u64(value.as_slice()) {
            Some(seconds) => {
                if seconds == 0 {
                    return OptionStep::Stop(Err("--interval must be at least 1".to_string()));
                }
                args.interval_seconds = seconds;
                OptionStep::Continue(at + 2)
            },
            None => OptionStep::Stop(Err("--interval must be a positive integer".to_string())),
        }
    } else if same_text(word, "--once") {
        args.once = true;
        OptionStep::Continue(at + 1)
    } else if same_text(word, "--live") {
        args.live = true;
        OptionStep::Continue(at + 1)
    } else if same_text(word, "--json") {
        args.json = true;
        OptionStep::Continue(at + 1)
    } else if same_text(word, "--sysfs-root") {
        if !has_value {
            return OptionStep::Stop(Err("--sysfs-root requires a path".to_string()));
        }
        args.sysfs_root = words[at + 1].clone();
        OptionStep::Continue(at + 2)
    } else if same_text(word, "--state-file") {
        if !has_value {
            return OptionStep::Stop(Err("--state-file requires a path".to_string()));
        }
        args.state_file = words[at + 1].clone();
        OptionStep::Continue(at + 2)
    } else if same_text(word, "-h") || same_text(word, "--help") {
        OptionStep::Stop(Ok(Invocation::Help))
    } else if offers_version && (same_text(word, "-V") || same_text(word, "--version")) {
        OptionStep::Stop(Ok(Invocation::Version))
    } else {
        let mut message = "unknown argument: ".to_string();
        message.append(words[at].as_str());
        OptionStep::Stop(Err(message))
    }
}

/// Reads a command line.
pub fn parse_args(words: &Vec<String>, offers_version: bool) -> (outcome: Result<Invocation, String>)
    ensures
        outcome_view(outcome) == read_command_line(strings_view(words@), offers_version),
{
    let ghost all = strings_view(words@);
    let mut args = Args {
        command: Command::Watch,
        interval_seconds: 1,
        once: false,
        live: false,
        json: false,
        sysfs_root: "/sys/class/power_supply".to_string(),
        state_file: "/var/lib/battery-up/state".to_string(),
    };
    let mut at: usize = 0;
    if words.len() > 0 {
        let first = chars_of(words[0].as_str());
        assert(all[0] == words@[0]@);
        if let Some(command) = find_command(first.as_slice()) {
            args.command = command;
            at = 1;
        }
    }
    assert(all.skip(0) =~= all);
    assert(read_options(all.skip(at as int), args@, offers_version) == read_command_line(
        all,
        offers_version,
    ));
    while at < words.len()
        invariant
            at <= words@.len(),
            all == strings_view(words@),
            read_options(all.skip(at as int), args@, offers_version) == read_command_line(
                all,
                offers_version,
            ),
        decreases words@.len() - at,
    {
        match parse_option(words, at, &mut args, offers_version) {
            OptionStep::Continue(next) => {
                assert(all.skip(at as int).skip(next - at) =~= all.skip(next as int));
                at = next;
            },
            OptionStep::Stop(outcome) => {
                return outcome;
            },
        }
    }
    Ok(Invocation::Run(args))
}

// ---------------------------------------------------------------------------
// Laws
// ---------------------------------------------------------------------------

/// An option takes one or two words and never more than there are. It leaves the command
/// alone, switches nothing off, sets no interval of zero, and changes at most one setting.
pub proof fn option_changes_one_setting(
    options: Seq<Seq<char>>,
    args: ArgsView,
    offers_version: bool,
)
    requires
        options.len() > 0,
    ensures
        one_option(options, args, offers_version) matches StepView::Continue(taken, changed) ==> {
            &&& 1 <= taken <= 2
            &&& taken <= options.len()
            &&& {
                ||| changed == ArgsView { interval_seconds: changed.interval_seconds, ..args }
                    && changed.interval_seconds >= 1
                ||| changed == ArgsView { once: true, ..args }
                ||| changed == ArgsView { live: true, ..args }
                ||| changed == ArgsView { json: true, ..args }
                ||| changed == ArgsView { sysfs_root: changed.sysfs_root, ..args }
                ||| changed == ArgsView { state_file: changed.state_file, ..args }
            }
        },
{
}

/// Whatever the options are, the interval of a run is at least one second, the command stays
/// what it was, and a switch that is on stays on.
pub proof fn options_keep_what_was_set(
    options: Seq<Seq<char>>,
    args: ArgsView,
    offers_version: bool,
)
    requires
        args.interval_seconds >= 1,
    ensures
        read_options(options, args, offers_version) matches Ok(InvocationView::Run(r)) ==> {
            &&& r.interval_seconds >= 1
            &&& r.command == args.command
            &&& args.once ==> r.once
            &&& args.live ==> r.live
            &&& args.json ==> r.json
        },
    decreases options.len(),
{
    if options.len() > 0 {
        option_changes_one_setting(options, args, offers_version);
        if let StepView::Continue(taken, changed) = one_option(options, args, offers_version) {
            options_keep_what_was_set(options.skip(taken), changed, offers_version);
        }
    }
}

/// A run always has an interval of at least one second.
pub proof fn runs_have_a_positive_interval(words: Seq<Seq<char>>, offers_version: bool)
    ensures
        read_command_line(words, offers_version) matches Ok(InvocationView::Run(args)) ==> args.interval_seconds
            >= 1,
{
    if words.len() > 0 && command_of(words[0]) is Some {
        options_keep_what_was_set(
            words.skip(1),
            default_args(command_of(words[0])->0),
            offers_version,
        );
    } else {
        options_keep_what_was_set(words, default_args(Command::Watch), offers_version);
    }
}

/// Reading options in two halves gives what reading them at once gives: the second half goes on
/// with the settings that the first one left, unless the first one stopped.
pub proof fn options_are_read_one_after_the_other(
    first: Seq<Seq<char>>,
    second: Seq<Seq<char>>,
    args: ArgsView,
    offers_version: bool,
)
    ensures
        read_options(first, args, offers_version) matches Ok(InvocationView::Run(between))
            ==> read_options(first + second, args, offers_version) == read_options(
            second,
            between,
            offers_version,
        ),
    decreases first.len(),
{
    if first.len() == 0 {
        assert(first + second =~= second);
    } else {
        let all = first + second;
        assert(all[0] == first[0]);
        assert(first.len() > 1 ==> all[1] == first[1]);
        if let StepView::Continue(taken, changed) = one_option(first, args, offers_version) {
            assert(all.skip(taken) =~= first.skip(taken) + second);
            options_are_read_one_after_the_other(
                first.skip(taken),
                second,
                changed,
                offers_version,
            );
        }
    }
}

/// An interval of any positive number of seconds is taken as it is written, and one of zero is
/// refused.
pub proof fn interval_is_taken_as_written(
    seconds: u64,
    rest: Seq<Seq<char>>,
    args: ArgsView,
    offers_version: bool,
)
    ensures
        ({
            let words = seq!["--interval"@, crate::text::decimal(seconds as nat)] + rest;
            &&& seconds > 0 ==> read_options(words, args, offers_version) == read_options(
                rest,
                ArgsView { interval_seconds: seconds, ..args },
                offers_version,
            )
            &&& seconds == 0 ==> read_options(words, args, offers_version) == Err::<
                InvocationView,
                Seq<char>,
            >("--interval must be at least 1"@)
        }),
{
    let words = seq!["--interval"@, crate::text::decimal(seconds as nat)] + rest;
    crate::text::decimal_reads_back(seconds as nat, u64::MAX as nat);
    assert(words[0] == "--interval"@ && words[1] == crate::text::decimal(seconds as nat));
    assert(words.skip(2) =~= rest);
}

/// A switch turns itself on, and a path is taken as it is written, whatever it is. Nothing else
/// changes, and the reading goes on behind it.
pub proof fn switches_and_paths_are_taken_as_written(
    path: Seq<char>,
    rest: Seq<Seq<char>>,
    args: ArgsView,
    offers_version: bool,
)
    ensures
        read_options(seq!["--once"@] + rest, args, offers_version) == read_options(
            rest,
            ArgsView { once: true, ..args },
            offers_version,
        ),
        read_options(seq!["--live"@] + rest, args, offers_version) == read_options(
            rest,
            ArgsView { live: true, ..args },
            offers_version,
        ),
        read_options(seq!["--json"@] + rest, args, offers_version) == read_options(
            rest,
            ArgsView { json: true, ..args },
            offers_version,
        ),
        read_options(seq!["--sysfs-root"@, path] + rest, args, offers_version) == read_options(
            rest,
            ArgsView { sysfs_root: path, ..args },
            offers_version,
        ),
        read_options(seq!["--state-file"@, path] + rest, args, offers_version) == read_options(
            rest,
            ArgsView { state_file: path, ..args },
            offers_version,
        ),
{
    lemma_option_words();
    assert((seq!["--once"@] + rest).skip(1) =~= rest);
    assert((seq!["--live"@] + rest).skip(1) =~= rest);
    assert((seq!["--json"@] + rest).skip(1) =~= rest);
    assert((seq!["--sysfs-root"@, path] + rest).skip(2) =~= rest);
    assert((seq!["--state-file"@, path] + rest).skip(2) =~= rest);
}

/// The options are spelled differently.
proof fn lemma_option_words()
    ensures
        "--interval"@.len() == 10,
        "--once"@.len() == 6 && "--once"@[2] == 'o',
        "--live"@.len() == 6 && "--live"@[2] == 'l',
        "--json"@.len() == 6 && "--json"@[2] == 'j',
        "--sysfs-root"@.len() == 12 && "--sysfs-root"@[3] == 'y',
        "--state-file"@.len() == 12 && "--state-file"@[3] == 't',
{
    reveal_strlit("--interval");
    reveal_strlit("--once");
    reveal_strlit("--live");
    reveal_strlit("--json");
    reveal_strlit("--sysfs-root");
    reveal_strlit("--state-file");
}

/// A command stands first and picks what is done. It changes no setting, and without one the
/// session of the terminal is measured. The settings start from an interval of one second, no
/// switch on, and the usual paths.
pub proof fn command_comes_first(words: Seq<Seq<char>>, offers_version: bool)
    requires
        words.len() > 0,
    ensures
        ({
            let usual = |command: Command|
                ArgsView {
                    command,
                    interval_seconds: 1,
                    once: false,
                    live: false,
                    json: false,
                    sysfs_root: "/sys/class/power_supply"@,
                    state_file: "/var/lib/battery-up/state"@,
                };
            let read = read_command_line(words, offers_version);
            let rest = words.skip(1);
            &&& words[0] == "watch"@ ==> read == read_options(
                rest,
                usual(Command::Watch),
                offers_version,
            )
            &&& words[0] == "daemon"@ ==> read == read_options(
                rest,
                usual(Command::Daemon),
                offers_version,
            )
            &&& words[0] == "status"@ ==> read == read_options(
                rest,
                usual(Command::Status),
                offers_version,
            )
            &&& words[0] == "reset"@ ==> read == read_options(
                rest,
                usual(Command::Reset),
                offers_version,
            )
            &&& words[0] != "watch"@ && words[0] != "daemon"@ && words[0] != "status"@ && words[0]
                != "reset"@ ==> read == read_options(words, usual(Command::Watch), offers_version)
        }),
{
    reveal_strlit("watch");
    reveal_strlit("daemon");
    reveal_strlit("status");
    reveal_strlit("reset");
    assert("watch"@.len() == 5 && "watch"@[0] == 'w');
    assert("daemon"@.len() == 6 && "daemon"@[0] == 'd');
    assert("status"@.len() == 6 && "status"@[0] == 's');
    assert("reset"@.len() == 5 && "reset"@[0] == 'r');
}

/// A word that is no option stops the reading and is named, and so are the two words for the
/// version where it is not offered. An option at the end of the line that needs a value, and an
/// interval that is no number, are mistakes of their own. Help and the version stop the reading
/// whatever follows.
pub proof fn mistakes_and_questions_stop_the_reading(
    word: Seq<char>,
    rest: Seq<Seq<char>>,
    args: ArgsView,
    offers_version: bool,
)
    ensures
        word != "--interval"@ && word != "--once"@ && word != "--live"@ && word != "--json"@ && word
            != "--sysfs-root"@ && word != "--state-file"@ && word != "-h"@ && word != "--help"@ && (
        !offers_version || (word != "-V"@ && word != "--version"@)) ==> read_options(
            seq![word] + rest,
            args,
            offers_version,
        ) == Err::<InvocationView, Seq<char>>("unknown argument: "@ + word),
        read_options(seq!["-h"@] + rest, args, offers_version) == Ok::<InvocationView, Seq<char>>(
            InvocationView::Help,
        ),
        read_options(seq!["--help"@] + rest, args, offers_version) == Ok::<
            InvocationView,
            Seq<char>,
        >(InvocationView::Help),
        read_options(seq!["-V"@] + rest, args, true) == Ok::<InvocationView, Seq<char>>(
            InvocationView::Version,
        ),
        read_options(seq!["--version"@] + rest, args, true) == Ok::<InvocationView, Seq<char>>(
            InvocationView::Version,
        ),
        read_options(seq!["--interval"@], args, offers_version) == Err::<InvocationView, Seq<char>>(
            "--interval requires a value in seconds"@,
        ),
        read_options(seq!["--sysfs-root"@], args, offers_version) == Err::<
            InvocationView,
            Seq<char>,
        >("--sysfs-root requires a path"@),
        read_options(seq!["--state-file"@], args, offers_version) == Err::<
            InvocationView,
            Seq<char>,
        >("--state-file requires a path"@),
        crate::text::unsigned_u64(word) is None ==> read_options(
            seq!["--interval"@, word] + rest,
            args,
            offers_version,
        ) == Err::<InvocationView, Seq<char>>("--interval must be a positive integer"@),
{
    lemma_option_words();
    reveal_strlit("-h");
    reveal_strlit("--help");
    reveal_strlit("-V");
    reveal_strlit("--version");
    assert("-h"@.len() == 2 && "-h"@[1] == 'h');
    assert("-V"@.len() == 2 && "-V"@[1] == 'V');
    assert("--help"@.len() == 6 && "--help"@[2] == 'h');
    assert("--version"@.len() == 9);
    assert((seq![word] + rest)[0] == word);
    assert((seq!["-h"@] + rest)[0] == "-h"@);
    assert((seq!["--help"@] + rest)[0] == "--help"@);
    assert((seq!["-V"@] + rest)[0] == "-V"@);
    assert((seq!["--version"@] + rest)[0] == "--version"@);
    assert((seq!["--interval"@, word] + rest)[0] == "--interval"@);
    assert((seq!["--interval"@, word] + rest)[1] == word);
}

} // verus!
