use vstd::prelude::*;

use clap::error::ErrorKind;
use clap::{Arg, ArgAction, Command};

use crate::config::{Config, ParseError};

verus! {

#[verifier::external_type_specification]
#[verifier::external_body]
pub struct ExCommand(clap::Command);

#[verifier::external_type_specification]
#[verifier::external_body]
pub struct ExArg(clap::Arg);

/// Relies on clap's `Command::new`: a command of that name with no arguments.
#[verifier::external_body]
fn command_named(name: &'static str) -> Command {
    Command::new(name)
}

/// Relies on clap's `Command::no_binary_name`: the first argument is parsed
/// like the others rather than taken as the program's name.
#[verifier::external_body]
fn without_binary_name(cmd: Command) -> Command {
    cmd.no_binary_name(true)
}

/// Relies on clap's `Command::version`: the text that `--version` prints.
#[verifier::external_body]
fn with_version(cmd: Command, version: &'static str) -> Command {
    cmd.version(version)
}

/// Relies on clap's `Command::about`: the description that `--help` prints.
#[verifier::external_body]
fn with_about(cmd: Command, about: &'static str) -> Command {
    cmd.about(about)
}

/// Relies on clap's `Command::arg`: adds an argument to the command.
#[verifier::external_body]
fn with_arg(cmd: Command, arg: Arg) -> Command {
    cmd.arg(arg)
}

/// Relies on clap's `Arg::new`: an argument known by `id` in the matches.
#[verifier::external_body]
fn arg_named(id: &'static str) -> Arg {
    Arg::new(id)
}

/// Relies on clap's `Arg::short`: the one-letter flag; clap refuses `-`
/// itself.
#[verifier::external_body]
fn with_short(arg: Arg, letter: char) -> Arg
    requires
        letter != '-',
{
    arg.short(letter)
}

/// Relies on clap's `Arg::long`: the long flag, written after `--`.
#[verifier::external_body]
fn with_long(arg: Arg, name: &'static str) -> Arg {
    arg.long(name)
}

/// Relies on clap's `Arg::help`: the line that `--help` prints for it.
#[verifier::external_body]
fn with_help(arg: Arg, help: &'static str) -> Arg {
    arg.help(help)
}

/// Relies on clap's `Arg::value_name`: how usage text names its values.
#[verifier::external_body]
fn with_value_name(arg: Arg, name: &'static str) -> Arg {
    arg.value_name(name)
}

/// Relies on clap's `Arg::default_value`: the value taken when none is given.
#[verifier::external_body]
fn with_default_value(arg: Arg, value: &'static str) -> Arg {
    arg.default_value(value)
}

/// Relies on clap's `Arg::num_args`: at least `min` values, with no upper
/// bound.
#[verifier::external_body]
fn with_at_least_values(arg: Arg, min: usize) -> Arg {
    arg.num_args(min..)
}

/// Relies on clap's `Arg::action` with `ArgAction::SetTrue`: a switch that is
/// `false` unless given.
#[verifier::external_body]
fn as_switch(arg: Arg) -> Arg {
    arg.action(ArgAction::SetTrue)
}

/// The views of a list of arguments.
pub open spec fn arg_texts(args: Seq<String>) -> Seq<Seq<char>> {
    args.map_values(|a: String| a@)
}

/// An input name: `-`, or a non-empty word that does not start with `-`.
pub open spec fn is_positional(t: Seq<char>) -> bool {
    t == seq!['-'] || (t.len() > 0 && t[0] != '-')
}

/// `-n` or `--number`.
pub open spec fn is_number_flag(t: Seq<char>) -> bool {
    t == "-n"@ || t == "--number"@
}

/// `-b` or `--number-nonblank`.
pub open spec fn is_nonblank_flag(t: Seq<char>) -> bool {
    t == "-b"@ || t == "--number-nonblank"@
}

/// An input name or one of the two numbering flags, written alone.
pub open spec fn is_simple(t: Seq<char>) -> bool {
    is_positional(t) || is_number_flag(t) || is_nonblank_flag(t)
}

/// The input names among `args`, in order.
pub open spec fn positionals(args: Seq<Seq<char>>) -> Seq<Seq<char>> {
    args.filter(|t: Seq<char>| is_positional(t))
}

/// Some argument asks for every line to be numbered.
pub open spec fn has_number_flag(args: Seq<Seq<char>>) -> bool {
    exists|i: int| 0 <= i < args.len() && is_number_flag(#[trigger] args[i])
}

/// Some argument asks for the non-blank lines to be numbered.
pub open spec fn has_nonblank_flag(args: Seq<Seq<char>>) -> bool {
    exists|i: int| 0 <= i < args.len() && is_nonblank_flag(#[trigger] args[i])
}

/// Every argument is simple, and each numbering flag is given at most once.
pub open spec fn simple_args(args: Seq<Seq<char>>) -> bool {
    &&& forall|i: int| 0 <= i < args.len() ==> is_simple(#[trigger] args[i])
    &&& args.filter(|t: Seq<char>| is_number_flag(t)).len() <= 1
    &&& args.filter(|t: Seq<char>| is_nonblank_flag(t)).len() <= 1
}

/// `t` begins with `prefix`.
pub open spec fn starts_with(t: Seq<char>, prefix: Seq<char>) -> bool {
    t.len() >= prefix.len() && t.subrange(0, prefix.len() as int) == prefix
}

/// An argument that may ask for help or the version: `--help` or
/// `--version` at its start, or a cluster of short flags holding `h` or `V`.
pub open spec fn may_ask_for_display(t: Seq<char>) -> bool {
    ||| starts_with(t, "--help"@)
    ||| starts_with(t, "--version"@)
    ||| (t.len() >= 2 && t[0] == '-' && t[1] != '-' && (t.contains('h') || t.contains('V')))
}

/// A flag that the command does not know: a short cluster whose first letter
/// is none of `n`, `b`, `h`, `V`, or a long flag without `=` that names none of
/// `number`, `number-nonblank`, `help`, `version`.
pub open spec fn is_unknown_flag(t: Seq<char>) -> bool {
    ||| (t.len() >= 2 && t[0] == '-' && t[1] != '-' && t[1] != 'n' && t[1] != 'b' && t[1] != 'h'
        && t[1] != 'V')
    ||| (t.len() > 2 && t[0] == '-' && t[1] == '-' && !t.contains('=') && t != "--number"@ && t
        != "--number-nonblank"@ && t != "--help"@ && t != "--version"@)
}

/// Some argument may ask for help or the version.
pub open spec fn asks_for_display(args: Seq<Seq<char>>) -> bool {
    exists|i: int| 0 <= i < args.len() && may_ask_for_display(#[trigger] args[i])
}

/// An unknown flag comes before anything but input names and numbering flags.
pub open spec fn unknown_flag_first(args: Seq<Seq<char>>) -> bool {
    exists|i: int|
        0 <= i < args.len() && is_unknown_flag(#[trigger] args[i]) && (forall|j: int|
            0 <= j < i ==> is_simple(#[trigger] args[j]))
}

/// The input names with `-` standing in when there are none, and whether
/// each numbering flag was given, as read from a simple argument list.
pub open spec fn parsed_simple(r: Result<(Vec<String>, bool, bool), ParseError>, args: Seq<Seq<char>>) -> bool {
    match r {
        Ok((files, number, nonblank)) => {
            &&& arg_texts(files@) == if positionals(args).len() == 0 {
                seq![seq!['-']]
            } else {
                positionals(args)
            }
            &&& number == has_number_flag(args)
            &&& nonblank == has_nonblank_flag(args)
        },
        Err(_) => false,
    }
}

/// `c` numbers as the flags in `args` ask and reads the input names in
/// `args`, or standard input when there are none.
pub open spec fn configured_from(c: Config, args: Seq<Seq<char>>) -> bool {
    &&& c.spec_number_lines() == has_number_flag(args)
    &&& c.spec_number_nonblank_lines() == has_nonblank_flag(args)
    &&& c.spec_files() == if positionals(args).len() == 0 {
        seq![seq!['-']]
    } else {
        positionals(args)
    }
}

/// The command line, with the library's settings.
pub struct CatCommand {
    cmd: Command,
}

/// Relies on clap's `Command::try_get_matches_from` on the command that
/// `CatCommand::new` builds, read back with `ArgMatches::get_many` and
/// `ArgMatches::get_flag`. Each switch is `SetTrue`, so it is true exactly
/// when given; the input names come in the order given, and `-` (the
/// `default_value`) when there are none. A flag that the command does not know
/// ends parsing with an error at once; help and version come back only when
/// asked for. Errors are told apart by `Error::kind` and keep clap's text.
#[verifier::external_body]
fn parse_with(command: CatCommand, args: &Vec<String>) -> (r: Result<(Vec<String>, bool, bool), ParseError>)
    ensures
        simple_args(arg_texts(args@)) ==> parsed_simple(r, arg_texts(args@)),
        r matches Err(ParseError::HelpRequested(_)) ==> asks_for_display(arg_texts(args@)),
        unknown_flag_first(arg_texts(args@)) ==> r matches Err(ParseError::UsageError(_)),
        r is Ok || !(r->Err_0 is ConflictingFlags),
{
    match command.cmd.try_get_matches_from(args) {
        Ok(m) => Ok((
            m.get_many::<String>(FILES_ID).map(|v| v.cloned().collect()).unwrap_or_default(),
            m.get_flag(NUMBER_ID),
            m.get_flag(NONBLANK_ID),
        )),
        Err(e) => match e.kind() {
            ErrorKind::DisplayHelp => Err(ParseError::HelpRequested(e.to_string())),
            ErrorKind::DisplayVersion => Err(ParseError::HelpRequested(e.to_string())),
            _ => Err(ParseError::UsageError(e.to_string())),
        },
    }
}

/// The name the program reports in usage and version text.
pub const PROGRAM_NAME: &'static str = "catr";

const FILES_ID: &'static str = "file";

const NUMBER_ID: &'static str = "number";

const NONBLANK_ID: &'static str = "number-nonblank";

impl CatCommand {
    /// Input names (`-` when none), `-n`/`--number` and
    /// `-b`/`--number-nonblank`, with help and version. This is the only way
    /// to build a `CatCommand`, and what `parse_with` states holds of it.
    pub fn new() -> CatCommand {
        let files = arg_named(FILES_ID);
        let files = with_value_name(files, "FILE");
        let files = with_help(files, "Input file(s)");
        let files = with_at_least_values(files, 1);
        let files = with_default_value(files, "-");
        let number = arg_named(NUMBER_ID);
        let number = with_short(number, 'n');
        let number = with_long(number, "number");
        let number = with_help(number, "Number lines");
        let number = as_switch(number);
        let nonblank = arg_named(NONBLANK_ID);
        let nonblank = with_short(nonblank, 'b');
        let nonblank = with_long(nonblank, "number-nonblank");
        let nonblank = with_help(nonblank, "Number nonblank lines");
        let nonblank = as_switch(nonblank);
        let cmd = command_named(PROGRAM_NAME);
        let cmd = without_binary_name(cmd);
        let cmd = with_version(cmd, "0.1.0");
        let cmd = with_about(cmd, "Rust cat");
        let cmd = with_arg(cmd, files);
        let cmd = with_arg(cmd, number);
        let cmd = with_arg(cmd, nonblank);
        CatCommand { cmd }
    }
}

/// Reads the arguments that follow the program's name. On a list of input
/// names and numbering flags, each flag at most once, the result is the
/// configuration they describe, or `ConflictingFlags` when both numbering
/// flags are there. Help and version requests come back as `HelpRequested`
/// with the text to print; an unknown flag as `UsageError`.
pub fn get_args(args: &Vec<String>) -> (r: Result<Config, ParseError>)
    ensures
        r matches Ok(c) ==> c.wf(),
        simple_args(arg_texts(args@)) && !(has_number_flag(arg_texts(args@)) && has_nonblank_flag(
            arg_texts(args@),
        )) ==> (r matches Ok(c) && configured_from(c, arg_texts(args@))),
        simple_args(arg_texts(args@)) && has_number_flag(arg_texts(args@)) && has_nonblank_flag(
            arg_texts(args@),
        ) ==> r matches Err(ParseError::ConflictingFlags),
        r matches Err(ParseError::HelpRequested(_)) ==> asks_for_display(arg_texts(args@)),
        unknown_flag_first(arg_texts(args@)) ==> r matches Err(ParseError::UsageError(_)),
{
    match parse_with(CatCommand::new(), args) {
        Err(e) => Err(e),
        Ok((files, number_lines, number_nonblank_lines)) => {
            Config::new(files, number_lines, number_nonblank_lines)
        },
    }
}

} // verus!
