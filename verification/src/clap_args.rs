//! What the command line takes from clap.

use vstd::prelude::*;

use crate::cli::{
    proxy_args, proxy_texts, texts_of, version_text, ArgModel, ArgSpec, CliError, ValueKind, ABOUT,
    LONG_ABOUT, PROGRAM_NAME, PROGRAM_VERSION,
};
use crate::decimal::decimal_value;
use crate::line::{answer_to, Answer, Values};

verus! {

/// clap's definition of a command: a collection of argument definitions.
#[verifier::external_type_specification]
#[verifier::external_body]
pub struct ExCommand(clap::Command);

/// clap's outcome of a parse: a collection of the values of each argument.
#[verifier::external_type_specification]
#[verifier::external_body]
pub struct ExArgMatches(clap::ArgMatches);

/// The arguments that a clap command defines, in the order in which they were
/// added.
pub uninterp spec fn command_args(command: clap::Command) -> Seq<ArgModel>;

/// What a clap command says of the program: its name, its version, and what it is about,
/// in short and at length.
pub uninterp spec fn command_texts(command: clap::Command) -> Seq<Seq<char>>;

/// The arguments that the command defined whose parse gave these matches.
pub uninterp spec fn matches_args(matches: clap::ArgMatches) -> Seq<ArgModel>;

/// The values that matches hold, as the texts that they were read from, under
/// the id of each argument that has any.
pub uninterp spec fn matches_values(matches: clap::ArgMatches) -> Values;

/// Whether an argument with this id and this kind of value is defined.
pub open spec fn defines(args: Seq<ArgModel>, id: Seq<char>, kind: ValueKind) -> bool {
    exists|i: int| 0 <= i < args.len() && (#[trigger] args[i]).id == id && args[i].kind == kind
}

/// Calls `clap::Command::new` with `version`, `about` and `long_about`: a command
/// that says this of the program and defines no argument of its own.
#[verifier::external_body]
pub(crate) fn new_command(
    name: &'static str,
    version: &'static str,
    about: &'static str,
    long_about: &'static str,
) -> (command: clap::Command)
    ensures
        command_args(command) == Seq::<ArgModel>::empty(),
        command_texts(command) == seq![name@, version@, about@, long_about@],
{
    clap::Command::new(name).version(version).about(about).long_about(long_about)
}

/// Calls `clap::Command::arg` with the `clap::Arg` that a definition describes: the
/// command defines that argument behind the earlier ones, and nothing else changes.
#[verifier::external_body]
pub(crate) fn with_arg(command: clap::Command, spec: &ArgSpec) -> (extended: clap::Command)
    requires
        spec.short != Some('-'),
        spec.max_values >= 1,
    ensures
        command_args(extended) == command_args(command).push(spec@),
        command_texts(extended) == command_texts(command),
{
    let parser = match spec.kind {
        ValueKind::Text => clap::builder::ValueParser::string(),
        ValueKind::U16 => <u16 as clap::builder::ValueParserFactory>::value_parser().into(),
        ValueKind::U64 => <u64 as clap::builder::ValueParserFactory>::value_parser().into(),
    };
    let arg = clap::Arg::new(spec.id).short(spec.short).long(spec.long);
    let arg = arg.value_name(spec.value_name).help(spec.help).long_help(spec.long_help);
    let arg = arg.default_value(spec.default).value_parser(parser).num_args(1..=spec.max_values);
    command.arg(arg.last(spec.trailing).required(spec.trailing))
}

/// Calls `clap::Command::try_get_matches_from`: the line is answered as `answer_to` says.
/// Settings are matches that hold these values. The help text, which begins with what the
/// program is about, and the version go to the output stream with exit code 0; an error,
/// which begins with that word, goes to the error stream with exit code 2. How the help
/// text and errors go on is left open: they hold the file name of the program, which
/// depends on the platform.
#[verifier::external_body]
pub(crate) fn parse_args(command: clap::Command, argv: Vec<String>) -> (outcome: Result<
    clap::ArgMatches,
    CliError,
>)
    requires
        command_args(command) == proxy_args(),
        command_texts(command) == proxy_texts(),
    ensures
        match answer_to(command_args(command), texts_of(argv@)) {
            Answer::Settings(values) => {
                &&& outcome is Ok
                &&& matches_args(outcome->Ok_0) == command_args(command)
                &&& matches_values(outcome->Ok_0) == values
            },
            Answer::LongHelp => outcome is Err && outcome->Err_0.answers(LONG_ABOUT@),
            Answer::ShortHelp => outcome is Err && outcome->Err_0.answers(ABOUT@),
            Answer::Version => {
                &&& outcome is Err
                &&& outcome->Err_0.answers(version_text(PROGRAM_NAME@, PROGRAM_VERSION@))
                &&& outcome->Err_0.message@ == version_text(PROGRAM_NAME@, PROGRAM_VERSION@)
            },
            Answer::Refusal => outcome is Err && outcome->Err_0.refuses(),
        },
{
    match command.try_get_matches_from(argv) {
        Ok(matches) => Ok(matches),
        Err(e) => Err(
            CliError {
                message: e.render().to_string(),
                exit_code: e.exit_code(),
                use_stderr: e.use_stderr(),
            },
        ),
    }
}

/// Whether an argument has values.
pub open spec fn has_value(matches: clap::ArgMatches, id: Seq<char>) -> bool {
    matches_values(matches).contains_key(id) && matches_values(matches)[id].len() > 0
}

/// Calls `clap::ArgMatches::get_one::<String>`: the first value of a text argument,
/// where it has one.
#[verifier::external_body]
pub(crate) fn text_value(matches: &clap::ArgMatches, id: &str) -> (value: Option<String>)
    requires
        defines(matches_args(*matches), id@, ValueKind::Text),
    ensures
        match value {
            Some(text) => has_value(*matches, id@) && text@ == matches_values(*matches)[id@][0],
            None => !has_value(*matches, id@),
        },
{
    matches.get_one::<String>(id).cloned()
}

/// Calls `clap::ArgMatches::get_one::<u16>`: the number that the first value of a
/// 16-bit argument denotes, where it has one.
#[verifier::external_body]
pub(crate) fn u16_value(matches: &clap::ArgMatches, id: &str) -> (value: Option<u16>)
    requires
        defines(matches_args(*matches), id@, ValueKind::U16),
    ensures
        match value {
            Some(number) => has_value(*matches, id@) && decimal_value(
                matches_values(*matches)[id@][0],
            ) == Some(number as int),
            None => !has_value(*matches, id@),
        },
{
    matches.get_one::<u16>(id).copied()
}

/// Calls `clap::ArgMatches::get_one::<u64>`: the number that the first value of a
/// 64-bit argument denotes, where it has one.
#[verifier::external_body]
pub(crate) fn u64_value(matches: &clap::ArgMatches, id: &str) -> (value: Option<u64>)
    requires
        defines(matches_args(*matches), id@, ValueKind::U64),
    ensures
        match value {
            Some(number) => has_value(*matches, id@) && decimal_value(
                matches_values(*matches)[id@][0],
            ) == Some(number as int),
            None => !has_value(*matches, id@),
        },
{
    matches.get_one::<u64>(id).copied()
}

/// Calls `clap::ArgMatches::get_many::<String>`: all values of a text argument, in
/// the order of the command line, where it has any.
#[verifier::external_body]
pub(crate) fn text_values(matches: &clap::ArgMatches, id: &str) -> (values: Option<Vec<String>>)
    requires
        defines(matches_args(*matches), id@, ValueKind::Text),
    ensures
        match values {
            Some(texts) => matches_values(*matches).contains_key(id@) && texts_of(texts@)
                == matches_values(*matches)[id@],
            None => !matches_values(*matches).contains_key(id@),
        },
{
    Some(matches.get_many::<String>(id)?.cloned().collect())
}

} // verus!
