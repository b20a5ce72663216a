//! The command line.

use vstd::prelude::*;

use crate::clap_args::{
    command_args, command_texts, has_value, matches_args, matches_values, new_command, parse_args,
    text_value, text_values, u16_value, u64_value, with_arg,
};
use crate::decimal::{decimal_value, digits_value};
use crate::line::{
    after_escape, answer_to, default_values, flagged, is_flag_of, lemma_escape_is_no_option,
    lemma_rest_starts_at_the_first_escape, lemma_values_are_whole, option_values, read_line,
    words_of, Answer, Values,
};
use crate::options::{
    law_endpoint_option, law_first_word, law_host_option, law_port_option,
    law_session_keep_alive_option, law_settings_are_what_the_values_say,
};

verus! {

/// The program's name.
pub const PROGRAM_NAME: &'static str = "hyper-mcp-proxy";

/// The program's version: that of the package.
pub const PROGRAM_VERSION: &'static str = "0.1.0";

/// What the short help says of the program.
pub const ABOUT: &'static str = "Streamable HTTP to stdio MCP proxy";

/// What the long help says of the program.
pub const LONG_ABOUT: &'static str =
    "A streamable-http to stdio MCP proxy.\n\nAccepts MCP clients over Streamable HTTP and, for each session, spawns a dedicated stdio MCP child process, forwarding all messages bidirectionally.";

/// The address that is bound when `--host` is not given.
pub const DEFAULT_HOST: &'static str = "127.0.0.1";

/// The port that is bound when `--port` is not given.
pub const DEFAULT_PORT: &'static str = "8080";

/// The path of the MCP service when `--endpoint` is not given.
pub const DEFAULT_ENDPOINT: &'static str = "/mcp";

/// What the long help says of `--session-keep-alive`.
pub const KEEP_ALIVE_HELP: &'static str =
    "Idle timeout for MCP sessions, in seconds.\n\nResets on every client request or notification. When the timer elapses without activity, the session worker is reaped and its stdio child process is killed. Subsequent requests carrying the stale `Mcp-Session-Id` will receive HTTP 404 per the MCP spec.\n\nWhen unset, rmcp's `LocalSessionManager` default (5 minutes) applies. The proxy does not override `SessionConfig` unless this flag is provided.";

/// The kind of value that an argument takes.
#[derive(Clone, Copy, PartialEq, Eq, Structural)]
pub enum ValueKind {
    /// Any text.
    Text,
    /// A number that fits in 16 bits.
    U16,
    /// A number that fits in 64 bits.
    U64,
}

/// The definition of one argument.
pub struct ArgSpec {
    /// The name under which its values are found again.
    pub id: &'static str,
    /// Its one-letter flag, without the dash.
    pub short: Option<char>,
    /// Its long flag, without the dashes.
    pub long: Option<&'static str>,
    /// How the usage text calls its value.
    pub value_name: &'static str,
    /// Its line in the short help.
    pub help: &'static str,
    /// Its text in the long help, where that says more.
    pub long_help: Option<&'static str>,
    /// The value that it has when it is not given.
    pub default: Option<&'static str>,
    /// What its values are.
    pub kind: ValueKind,
    /// The most values that it takes; the least is one.
    pub max_values: usize,
    /// Whether it is the mandatory list of everything behind `--`.
    pub trailing: bool,
}

/// What an `ArgSpec` says, as mathematical values.
pub struct ArgModel {
    pub id: Seq<char>,
    pub short: Option<char>,
    pub long: Option<Seq<char>>,
    pub value_name: Seq<char>,
    pub help: Seq<char>,
    pub long_help: Option<Seq<char>>,
    pub default: Option<Seq<char>>,
    pub kind: ValueKind,
    pub max_values: usize,
    pub trailing: bool,
}

/// The characters of an optional literal.
pub open spec fn literal_of(text: Option<&'static str>) -> Option<Seq<char>> {
    match text {
        Some(t) => Some(t@),
        None => None,
    }
}

/// The characters of each text of a list.
pub open spec fn texts_of(list: Seq<String>) -> Seq<Seq<char>> {
    list.map_values(|text: String| text@)
}

impl View for ArgSpec {
    type V = ArgModel;

    open spec fn view(&self) -> ArgModel {
        ArgModel {
            id: self.id@,
            short: self.short,
            long: literal_of(self.long),
            value_name: self.value_name@,
            help: self.help@,
            long_help: literal_of(self.long_help),
            default: literal_of(self.default),
            kind: self.kind,
            max_values: self.max_values,
            trailing: self.trailing,
        }
    }
}

/// Why a command line gave no settings.
pub struct CliError {
    /// What to print: an error with a usage hint, the help text, or the version.
    pub message: String,
    /// The status that the program exits with.
    pub exit_code: i32,
    /// Whether the message belongs on the error stream.
    pub use_stderr: bool,
}

/// How a refusal begins.
pub const ERROR: &'static str = "error: ";

/// What is answered to a request for the version.
pub open spec fn version_text(name: Seq<char>, version: Seq<char>) -> Seq<char> {
    name + " "@ + version + "\n"@
}

impl CliError {
    /// It is an answer on the output stream that begins with this text.
    pub open spec fn answers(self, begins: Seq<char>) -> bool {
        !self.use_stderr && self.exit_code == 0 && begins.is_prefix_of(self.message@)
    }

    /// It is an error.
    pub open spec fn refuses(self) -> bool {
        self.use_stderr && self.exit_code == 2 && ERROR@.is_prefix_of(self.message@)
    }
}

/// What the command line says of the program: its name, its version, and what it is
/// about, in short and at length.
pub open spec fn proxy_texts() -> Seq<Seq<char>> {
    seq![PROGRAM_NAME@, PROGRAM_VERSION@, ABOUT@, LONG_ABOUT@]
}

/// The arguments that the program takes, in the order of its help text.
pub open spec fn proxy_args() -> Seq<ArgModel> {
    seq![
        ArgModel {
            id: "host"@,
            short: Some('H'),
            long: Some("host"@),
            value_name: "HOST"@,
            help: "Host address to bind to"@,
            long_help: None,
            default: Some(DEFAULT_HOST@),
            kind: ValueKind::Text,
            max_values: 1,
            trailing: false,
        },
        ArgModel {
            id: "port"@,
            short: Some('p'),
            long: Some("port"@),
            value_name: "PORT"@,
            help: "Port to bind to"@,
            long_help: None,
            default: Some(DEFAULT_PORT@),
            kind: ValueKind::U16,
            max_values: 1,
            trailing: false,
        },
        ArgModel {
            id: "endpoint"@,
            short: Some('e'),
            long: Some("endpoint"@),
            value_name: "ENDPOINT"@,
            help: "Endpoint path for MCP (e.g. \"/mcp\")"@,
            long_help: None,
            default: Some(DEFAULT_ENDPOINT@),
            kind: ValueKind::Text,
            max_values: 1,
            trailing: false,
        },
        ArgModel {
            id: "session_keep_alive"@,
            short: None,
            long: Some("session-keep-alive"@),
            value_name: "SECONDS"@,
            help: "Idle timeout for MCP sessions, in seconds"@,
            long_help: Some(KEEP_ALIVE_HELP@),
            default: None,
            kind: ValueKind::U64,
            max_values: 1,
            trailing: false,
        },
        ArgModel {
            id: "command"@,
            short: None,
            long: None,
            value_name: "COMMAND"@,
            help: "The stdio MCP server command and arguments (after --)"@,
            long_help: None,
            default: None,
            kind: ValueKind::Text,
            max_values: usize::MAX,
            trailing: true,
        },
    ]
}

/// Builds the definitions of the program's arguments.
pub fn proxy_arg_specs() -> (specs: Vec<ArgSpec>)
    ensures
        specs@.map_values(|spec: ArgSpec| spec@) == proxy_args(),
{
    let specs: Vec<ArgSpec> = vec![
        ArgSpec {
            id: "host",
            short: Some('H'),
            long: Some("host"),
            value_name: "HOST",
            help: "Host address to bind to",
            long_help: None,
            default: Some(DEFAULT_HOST),
            kind: ValueKind::Text,
            max_values: 1,
            trailing: false,
        },
        ArgSpec {
            id: "port",
            short: Some('p'),
            long: Some("port"),
            value_name: "PORT",
            help: "Port to bind to",
            long_help: None,
            default: Some(DEFAULT_PORT),
            kind: ValueKind::U16,
            max_values: 1,
            trailing: false,
        },
        ArgSpec {
            id: "endpoint",
            short: Some('e'),
            long: Some("endpoint"),
            value_name: "ENDPOINT",
            help: "Endpoint path for MCP (e.g. \"/mcp\")",
            long_help: None,
            default: Some(DEFAULT_ENDPOINT),
            kind: ValueKind::Text,
            max_values: 1,
            trailing: false,
        },
        ArgSpec {
            id: "session_keep_alive",
            short: None,
            long: Some("session-keep-alive"),
            value_name: "SECONDS",
            help: "Idle timeout for MCP sessions, in seconds",
            long_help: Some(KEEP_ALIVE_HELP),
            default: None,
            kind: ValueKind::U64,
            max_values: 1,
            trailing: false,
        },
        ArgSpec {
            id: "command",
            short: None,
            long: None,
            value_name: "COMMAND",
            help: "The stdio MCP server command and arguments (after --)",
            long_help: None,
            default: None,
            kind: ValueKind::Text,
            max_values: usize::MAX,
            trailing: true,
        },
    ];
    assert(specs@.map_values(|spec: ArgSpec| spec@) =~= proxy_args());
    specs
}

/// The settings of one run.
pub struct Cli {
    /// Host address to bind to.
    pub host: String,
    /// Port to bind to.
    pub port: u16,
    /// Path that the MCP service is mounted on.
    pub endpoint: String,
    /// Idle timeout of a session in seconds: the session manager's own when unset,
    /// none when zero.
    pub session_keep_alive: Option<u64>,
    /// The stdio MCP server: its program, then the arguments.
    pub command: Vec<String>,
}

impl Cli {
    /// The settings are the ones that these values of the arguments spell.
    pub open spec fn spelled_by(self, values: Values) -> bool {
        &&& values.contains_key("host"@) && self.host@ == values["host"@][0]
        &&& values.contains_key("port"@) && decimal_value(values["port"@][0]) == Some(
            self.port as int,
        )
        &&& values.contains_key("endpoint"@) && self.endpoint@ == values["endpoint"@][0]
        &&& match self.session_keep_alive {
            Some(seconds) => values.contains_key("session_keep_alive"@) && decimal_value(
                values["session_keep_alive"@][0],
            ) == Some(seconds as int),
            None => !values.contains_key("session_keep_alive"@),
        }
        &&& values.contains_key("command"@) && texts_of(self.command@) == values["command"@]
    }

    /// The program's command, as clap defines it.
    pub fn command() -> (command: clap::Command)
        ensures
            command_args(command) == proxy_args(),
            command_texts(command) == proxy_texts(),
    {
        let specs: Vec<ArgSpec> = proxy_arg_specs();
        let mut command: clap::Command = new_command(
            PROGRAM_NAME,
            PROGRAM_VERSION,
            ABOUT,
            LONG_ABOUT,
        );
        let ghost models = specs@.map_values(|spec: ArgSpec| spec@);
        let mut i: usize = 0;
        while i < specs.len()
            invariant
                i <= specs.len(),
                models == specs@.map_values(|spec: ArgSpec| spec@),
                models == proxy_args(),
                command_args(command) == models.take(i as int),
                command_texts(command) == proxy_texts(),
            decreases specs.len() - i,
        {
            assert(specs@[i as int]@ == proxy_args()[i as int]) by {
                assert(models[i as int] == specs@[i as int]@);
            }
            assert(models.len() == 5 && i < models.len());
            assert(i == 0 || i == 1 || i == 2 || i == 3 || i == 4);
            command = with_arg(command, &specs[i]);
            assert(models.take(i + 1) =~= models.take(i as int).push(models[i as int]));
            i += 1;
        }
        assert(models.take(specs.len() as int) =~= models);
        command
    }

    /// Reads the settings out of the values that the arguments have.
    pub fn from_matches(matches: &clap::ArgMatches) -> (cli: Cli)
        requires
            matches_args(*matches) == proxy_args(),
            has_value(*matches, "host"@),
            has_value(*matches, "port"@),
            has_value(*matches, "endpoint"@),
            matches_values(*matches).contains_key("session_keep_alive"@) ==> has_value(
                *matches,
                "session_keep_alive"@,
            ),
            has_value(*matches, "command"@),
        ensures
            cli.spelled_by(matches_values(*matches)),
            cli.host@ == matches_values(*matches)["host"@][0],
            decimal_value(matches_values(*matches)["port"@][0]) == Some(cli.port as int),
            cli.endpoint@ == matches_values(*matches)["endpoint"@][0],
            cli.session_keep_alive is Some <==> matches_values(*matches).contains_key(
                "session_keep_alive"@,
            ),
            cli.session_keep_alive is Some ==> decimal_value(
                matches_values(*matches)["session_keep_alive"@][0],
            ) == Some(cli.session_keep_alive->0 as int),
            cli.command@.len() == matches_values(*matches)["command"@].len(),
            forall|n: int|
                0 <= n < cli.command@.len() ==> (#[trigger] cli.command@[n])@ == matches_values(
                    *matches,
                )["command"@][n],
    {
        assert(proxy_args()[0].id == "host"@);
        assert(proxy_args()[1].id == "port"@);
        assert(proxy_args()[2].id == "endpoint"@);
        assert(proxy_args()[3].id == "session_keep_alive"@);
        assert(proxy_args()[4].id == "command"@);
        let cli: Cli = Cli {
            host: text_value(matches, "host").unwrap(),
            port: u16_value(matches, "port").unwrap(),
            endpoint: text_value(matches, "endpoint").unwrap(),
            session_keep_alive: u64_value(matches, "session_keep_alive"),
            command: text_values(matches, "command").unwrap(),
        };
        proof {
            law_settings_are_what_the_values_say(cli, matches_values(*matches));
        }
        cli
    }

    /// Reads the settings from a command line, program name first.
    ///
    /// Everything behind the first `--` is the command of the stdio server, in order, and
    /// there has to be some. Ahead of it, each flag with a value sets its option, in any
    /// order; an option that is not given has its documented default. A value of the
    /// wrong kind, or an option that is given twice, is an error. A request for the help
    /// text or the version is answered with that text.
    pub fn try_parse_from(argv: Vec<String>) -> (outcome: Result<Cli, CliError>)
        ensures
            match answer_to(proxy_args(), texts_of(argv@)) {
                Answer::Settings(values) => outcome is Ok && outcome->Ok_0.spelled_by(values),
                Answer::LongHelp => outcome is Err && outcome->Err_0.answers(LONG_ABOUT@),
                Answer::ShortHelp => outcome is Err && outcome->Err_0.answers(ABOUT@),
                Answer::Version => {
                    &&& outcome is Err
                    &&& outcome->Err_0.answers(version_text(PROGRAM_NAME@, PROGRAM_VERSION@))
                    &&& outcome->Err_0.message@ == version_text(PROGRAM_NAME@, PROGRAM_VERSION@)
                },
                Answer::Refusal => outcome is Err && outcome->Err_0.refuses(),
            },
            outcome is Ok ==> {
                &&& texts_of(outcome->Ok_0.command@) == after_escape(words_of(texts_of(argv@)))
                &&& outcome->Ok_0.command@.len() >= 1
            },
            argv@.len() > 2 && argv@[1]@ == "--"@ ==> match outcome {
                Ok(cli) => {
                    &&& cli.host@ == DEFAULT_HOST@
                    &&& cli.port == 8080
                    &&& cli.endpoint@ == DEFAULT_ENDPOINT@
                    &&& cli.session_keep_alive is None
                    &&& texts_of(cli.command@) == texts_of(argv@).skip(2)
                    &&& cli.host@ == "127.0.0.1"@
                    &&& cli.endpoint@ == "/mcp"@
                    &&& cli.command@.len() == argv@.len() - 2
                    &&& forall|n: int|
                        0 <= n < cli.command@.len() ==> (#[trigger] cli.command@[n])@ == argv@[n
                            + 2]@
                },
                Err(_) => false,
            },
            argv@.len() > 4 && argv@[3]@ == "--"@ && (argv@[1]@ == "-H"@ || argv@[1]@ == "--host"@) && !(argv@[2]@.len() > 0
                && argv@[2]@[0] == '-') ==> {
                &&& outcome is Ok <==> (true)
                &&& outcome is Ok ==> outcome->Ok_0.host@ == argv@[2]@
            },
            argv@.len() > 4 && argv@[3]@ == "--"@ && (argv@[1]@ == "-p"@ || argv@[1]@ == "--port"@) && !(argv@[2]@.len() > 0
                && argv@[2]@[0] == '-') ==> {
                &&& outcome is Ok <==> (decimal_value(argv@[2]@) is Some && 0 <= decimal_value(argv@[2]@)->0 <= 65535)
                &&& outcome is Ok ==> decimal_value(argv@[2]@) == Some(outcome->Ok_0.port as int)
            },
            argv@.len() > 4 && argv@[3]@ == "--"@ && (argv@[1]@ == "-e"@ || argv@[1]@ == "--endpoint"@) && !(argv@[2]@.len() > 0
                && argv@[2]@[0] == '-') ==> {
                &&& outcome is Ok <==> (true)
                &&& outcome is Ok ==> outcome->Ok_0.endpoint@ == argv@[2]@
            },
            argv@.len() > 4 && argv@[3]@ == "--"@ && (argv@[1]@ == "--session-keep-alive"@) && !(argv@[2]@.len() > 0
                && argv@[2]@[0] == '-') ==> {
                &&& outcome is Ok <==> (decimal_value(argv@[2]@) is Some && 0 <= decimal_value(argv@[2]@)->0
                    <= 18446744073709551615)
                &&& outcome is Ok ==> outcome->Ok_0.session_keep_alive is Some && decimal_value(argv@[2]@) == Some(
                    outcome->Ok_0.session_keep_alive->0 as int,
                )
            },
            outcome is Err && outcome->Err_0.use_stderr ==> {
                &&& outcome->Err_0.exit_code == 2
                &&& "error: "@.is_prefix_of(outcome->Err_0.message@)
            },
            outcome is Err && !outcome->Err_0.use_stderr ==> {
                &&& outcome->Err_0.exit_code == 0
                &&& {
                    ||| LONG_ABOUT@.is_prefix_of(outcome->Err_0.message@)
                    ||| "Streamable HTTP to stdio MCP proxy"@.is_prefix_of(
                        outcome->Err_0.message@,
                    )
                    ||| outcome->Err_0.message@ == "hyper-mcp-proxy"@ + " "@ + "0.1.0"@ + "\n"@
                }
            },
            outcome is Err && outcome->Err_0.use_stderr <==> answer_to(
                proxy_args(),
                texts_of(argv@),
            ) is Refusal,
    {
        let ghost texts = texts_of(argv@);
        let ghost words = words_of(texts);
        let ghost options = read_line(proxy_args(), words).options;
        let ghost starts_with_escape = argv@.len() > 2 && argv@[1]@ == "--"@;
        proof {
            lemma_escape_is_no_flag();
            if starts_with_escape {
                assert(words[0] == "--"@);
                lemma_escape_is_no_option(proxy_args(), words);
                assert(words.drop_first() =~= texts.skip(2));
                assert(options =~= Seq::empty());
                assert(option_values(proxy_args(), options) == default_values(proxy_args()));
            }
        }
        let ghost line = argv@;
        match parse_args(Self::command(), argv) {
            Ok(matches) => {
                proof {
                    lemma_proxy_defaults();
                    lemma_values_are_whole(proxy_args(), options);
                    lemma_rest_starts_at_the_first_escape(proxy_args(), words);
                    assert(default_values(proxy_args()).contains_key("host"@));
                    assert(default_values(proxy_args()).contains_key("port"@));
                    assert(default_values(proxy_args()).contains_key("endpoint"@));
                }
                let cli: Cli = Self::from_matches(&matches);
                assert(cli.command@.len() == texts_of(cli.command@).len());
                proof {
                    if starts_with_escape {
                        lemma_default_port();
                        assert forall|n: int| 0 <= n < cli.command@.len() implies (
                        #[trigger] cli.command@[n])@ == line[n + 2]@ by {
                            assert(texts_of(cli.command@)[n] == cli.command@[n]@);
                            assert(texts.skip(2)[n] == line[n + 2]@);
                        }
                    }
                    lemma_line_of_one_option(line, cli);
                }
                Ok(cli)
            },
            Err(error) => {
                proof {
                    lemma_line_of_one_option(line, arbitrary());
                }
                Err(error)
            },
        }
    }
}

/// A flag whose value is missing, because nothing follows it or what follows looks like a
/// flag itself, such as a negative number, is an error, whatever options come before.
pub proof fn law_flag_without_a_value_is_refused(argv: Seq<Seq<char>>)
    requires
        read_line(proxy_args(), words_of(argv)).rest.len() > 0,
        flagged(proxy_args(), read_line(proxy_args(), words_of(argv)).rest[0]) is Some,
    ensures
        answer_to(proxy_args(), argv) is Refusal,
{
    let word = read_line(proxy_args(), words_of(argv)).rest[0];
    let args = proxy_args();
    lemma_escape_is_no_flag();
    lemma_flagged_is_a_flag(args, word);
    reveal_strlit("--");
    reveal_strlit("-h");
    reveal_strlit("-V");
    reveal_strlit("--help");
    reveal_strlit("--version");
    reveal_strlit("host");
    reveal_strlit("port");
    reveal_strlit("endpoint");
    reveal_strlit("session-keep-alive");
    let i = flagged(args, word)->0;
    assert(i == 0 || i == 1 || i == 2 || i == 3 || i == 4);
    assert("--help"@.len() == 6 && "--help"@[3] == 'e' && "--help"@[2] == 'h');
    assert("--version"@.len() == 9 && "--version"@[2] == 'v');
    if args[i].long is Some && word == "--"@ + args[i].long->0 {
        assert(word[0] == '-' && word[1] == '-');
        assert(word[2] == args[i].long->0[0]);
        assert(word[3] == args[i].long->0[1]);
    } else {
        assert(word[1] == args[i].short->0);
    }
    assert("-h"@.len() == 2 && "-V"@.len() == 2);
    assert(word.len() > 1 && word[1] != 'h' && word[1] != 'V');
    if "-h"@.is_prefix_of(word) {
        assert(word.subrange(0, 2)[1] == "-h"@[1]);
    }
    if "-V"@.is_prefix_of(word) {
        assert(word.subrange(0, 2)[1] == "-V"@[1]);
    }
    assert(word != "--help"@ && word != "--version"@);
}

/// The argument that a text is found to be a flag of has that flag.
pub proof fn lemma_flagged_is_a_flag(args: Seq<ArgModel>, text: Seq<char>)
    requires
        flagged(args, text) is Some,
    ensures
        0 <= flagged(args, text)->0 < args.len(),
        is_flag_of(text, args[flagged(args, text)->0]),
    decreases args.len(),
{
    if !is_flag_of(text, args.last()) {
        lemma_flagged_is_a_flag(args.drop_last(), text);
    }
}

/// What a line of one option, `--` and a command is answered with.
proof fn lemma_line_of_one_option(line: Seq<String>, cli: Cli)
    ensures
        line.len() > 4 && line[3]@ == "--"@ && !(line[2]@.len() > 0 && line[2]@[0] == '-') ==> {
            let answer = answer_to(proxy_args(), texts_of(line));
            let number = decimal_value(line[2]@);
            let given = answer is Settings && cli.spelled_by(answer->Settings_0);
            &&& line[1]@ == "-H"@ || line[1]@ == "--host"@ ==> {
                &&& answer is Settings
                &&& given ==> cli.host@ == line[2]@
            }
            &&& line[1]@ == "-p"@ || line[1]@ == "--port"@ ==> {
                &&& answer is Settings <==> number is Some && 0 <= number->0 <= 65535
                &&& !(answer is Settings) ==> answer is Refusal
                &&& given ==> number == Some(cli.port as int)
            }
            &&& line[1]@ == "-e"@ || line[1]@ == "--endpoint"@ ==> {
                &&& answer is Settings
                &&& given ==> cli.endpoint@ == line[2]@
            }
            &&& line[1]@ == "--session-keep-alive"@ ==> {
                &&& answer is Settings <==> number is Some && 0 <= number->0
                    <= 18446744073709551615
                &&& !(answer is Settings) ==> answer is Refusal
                &&& given ==> cli.session_keep_alive is Some && number == Some(
                    cli.session_keep_alive->0 as int,
                )
            }
        },
{
    if line.len() > 4 && line[3]@ == "--"@ && !(line[2]@.len() > 0 && line[2]@[0] == '-') {
        let texts = texts_of(line);
        let words = seq![line[1]@, line[2]@];
        let rest = texts.skip(3);
        let program = line[0]@;
        assert(texts =~= seq![program] + words + rest);
        assert(rest[0] == line[3]@);
        assert(seq![program] + rest =~= seq![program, "--"@] + rest.drop_first());
        law_first_word(program, "--"@, rest.drop_first(), cli);
        if line[1]@ == "-H"@ || line[1]@ == "--host"@ {
            law_host_option(program, words, line[2]@, rest, 0, cli, cli);
        }
        if line[1]@ == "-p"@ || line[1]@ == "--port"@ {
            law_port_option(program, words, line[2]@, rest, 0, cli, cli);
        }
        if line[1]@ == "-e"@ || line[1]@ == "--endpoint"@ {
            law_endpoint_option(program, words, line[2]@, rest, 0, cli, cli);
        }
        if line[1]@ == "--session-keep-alive"@ {
            law_session_keep_alive_option(program, words, line[2]@, rest, 0, cli, cli);
        }
    }
}

/// The arguments are the documented ones: their flags, their defaults, what their values
/// are, and what the help text says of them; and what the program says of itself.
pub proof fn law_arguments_are_the_documented_ones()
    ensures
        proxy_args().len() == 5,
        ({
            let host = proxy_args()[0];
            &&& host.id == "host"@ && host.short == Some('H') && host.long == Some("host"@)
            &&& host.default == Some("127.0.0.1"@) && host.kind is Text && host.max_values == 1
            &&& host.value_name == "HOST"@ && host.help == "Host address to bind to"@
            &&& host.long_help is None && !host.trailing
        }),
        ({
            let port = proxy_args()[1];
            &&& port.id == "port"@ && port.short == Some('p') && port.long == Some("port"@)
            &&& port.default == Some("8080"@) && port.kind is U16 && port.max_values == 1
            &&& port.value_name == "PORT"@ && port.help == "Port to bind to"@
            &&& port.long_help is None && !port.trailing
        }),
        ({
            let endpoint = proxy_args()[2];
            &&& endpoint.id == "endpoint"@ && endpoint.short == Some('e')
            &&& endpoint.long == Some("endpoint"@) && endpoint.default == Some("/mcp"@)
            &&& endpoint.kind is Text && endpoint.max_values == 1
            &&& endpoint.value_name == "ENDPOINT"@
            &&& endpoint.help == "Endpoint path for MCP (e.g. \"/mcp\")"@
            &&& endpoint.long_help is None && !endpoint.trailing
        }),
        ({
            let keep_alive = proxy_args()[3];
            &&& keep_alive.id == "session_keep_alive"@ && keep_alive.short is None
            &&& keep_alive.long == Some("session-keep-alive"@) && keep_alive.default is None
            &&& keep_alive.kind is U64 && keep_alive.max_values == 1
            &&& keep_alive.value_name == "SECONDS"@
            &&& keep_alive.help == "Idle timeout for MCP sessions, in seconds"@
            &&& keep_alive.long_help is Some && !keep_alive.trailing
        }),
        ({
            let command = proxy_args()[4];
            &&& command.id == "command"@ && command.short is None && command.long is None
            &&& command.default is None && command.kind is Text && command.max_values == usize::MAX
            &&& command.value_name == "COMMAND"@
            &&& command.help == "The stdio MCP server command and arguments (after --)"@
            &&& command.long_help is None && command.trailing
        }),
        proxy_texts().len() == 4,
        proxy_texts()[0] == "hyper-mcp-proxy"@,
        proxy_texts()[1] == "0.1.0"@,
        proxy_texts()[2] == "Streamable HTTP to stdio MCP proxy"@,
{
}

/// The texts of a list are those of its members, one for one.
pub proof fn law_texts_are_those_of_the_members(list: Seq<String>, n: int)
    ensures
        texts_of(list).len() == list.len(),
        0 <= n < list.len() ==> texts_of(list)[n] == list[n]@,
{
}

/// No argument of the program has `--` for a flag.
pub proof fn lemma_escape_is_no_flag()
    ensures
        flagged(proxy_args(), "--"@) is None,
{
    reveal_strlit("--");
    reveal_strlit("host");
    reveal_strlit("port");
    reveal_strlit("endpoint");
    reveal_strlit("session-keep-alive");
    assert("--"@.len() == 2);
    assert("host"@.len() == 4);
    assert("port"@.len() == 4);
    assert("endpoint"@.len() == 8);
    assert("session-keep-alive"@.len() == 18);
    let args = proxy_args();
    assert forall|i: int| 0 <= i < args.len() implies !is_flag_of("--"@, #[trigger] args[i]) by {
        assert(i == 0 || i == 1 || i == 2 || i == 3 || i == 4);
        if args[i].short is Some {
            assert(seq!['-', args[i].short->0][1] != "--"@[1]);
        }
    }
    reveal_with_fuel(flagged, 6);
    assert(args.drop_last().drop_last().drop_last().drop_last().drop_last().len() == 0);
}

/// The arguments of the program have different ids.
pub proof fn lemma_ids_differ()
    ensures
        "host"@ != "port"@,
        "host"@ != "endpoint"@,
        "host"@ != "session_keep_alive"@,
        "host"@ != "command"@,
        "port"@ != "endpoint"@,
        "port"@ != "session_keep_alive"@,
        "port"@ != "command"@,
        "endpoint"@ != "session_keep_alive"@,
        "endpoint"@ != "command"@,
        "session_keep_alive"@ != "command"@,
{
    reveal_strlit("host");
    reveal_strlit("port");
    reveal_strlit("endpoint");
    reveal_strlit("session_keep_alive");
    reveal_strlit("command");
    assert("host"@[0] != "port"@[0]);
    assert("endpoint"@.len() == 8);
    assert("session_keep_alive"@.len() == 18);
    assert("command"@.len() == 7);
}

/// The host, the port and the endpoint have a default, and nothing else.
pub proof fn lemma_proxy_defaults()
    ensures
        default_values(proxy_args()) == map![
            "host"@ => seq![DEFAULT_HOST@],
            "port"@ => seq![DEFAULT_PORT@],
            "endpoint"@ => seq![DEFAULT_ENDPOINT@],
        ],
        default_values(proxy_args()).contains_key("host"@),
        default_values(proxy_args()).contains_key("port"@),
        default_values(proxy_args()).contains_key("endpoint"@),
        !default_values(proxy_args()).contains_key("session_keep_alive"@),
        default_values(proxy_args())["host"@] == seq![DEFAULT_HOST@],
        default_values(proxy_args())["port"@] == seq![DEFAULT_PORT@],
        default_values(proxy_args())["endpoint"@] == seq![DEFAULT_ENDPOINT@],
        "session_keep_alive"@ != "command"@,
        "host"@ != "command"@,
        "port"@ != "command"@,
        "endpoint"@ != "command"@,
{
    lemma_ids_differ();
    let all = proxy_args();
    let four = all.drop_last();
    let three = four.drop_last();
    let two = three.drop_last();
    let one = two.drop_last();
    assert(one.drop_last() =~= Seq::<ArgModel>::empty());
    assert(default_values(one.drop_last()) == Map::<Seq<char>, Seq<Seq<char>>>::empty());
    assert(default_values(one) == Map::<Seq<char>, Seq<Seq<char>>>::empty().insert(
        "host"@,
        seq![DEFAULT_HOST@],
    ));
    assert(default_values(two) == default_values(one).insert("port"@, seq![DEFAULT_PORT@]));
    assert(default_values(three) == default_values(two).insert(
        "endpoint"@,
        seq![DEFAULT_ENDPOINT@],
    ));
    assert(default_values(four) == default_values(three));
    assert(default_values(all) == default_values(four));
}

/// The default port is the number 8080.
pub proof fn lemma_default_port()
    ensures
        decimal_value(DEFAULT_PORT@) == Some(8080int),
{
    reveal_strlit("8080");
    let text = DEFAULT_PORT@;
    assert(text.len() == 4);
    reveal_with_fuel(digits_value, 5);
    assert(digits_value(text) == 8080) by {
        assert(text.drop_last().drop_last().drop_last().drop_last().len() == 0);
    }
}

} // verus!
