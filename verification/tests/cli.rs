//! The command line.

use hyper_mcp_proxy::cli::{Cli, CliError, ABOUT, LONG_ABOUT};

fn argv(args: &[&str]) -> Vec<String> {
    args.iter().map(|arg| arg.to_string()).collect()
}

/// Parses arguments as if they had been passed to the binary.
fn parse(args: &[&str]) -> Cli {
    let mut full = vec!["hyper-mcp-proxy"];
    full.extend_from_slice(args);
    match Cli::try_parse_from(argv(&full)) {
        Ok(cli) => cli,
        Err(error) => panic!("{}", error.message),
    }
}

fn refusal(args: &[&str]) -> CliError {
    match Cli::try_parse_from(argv(args)) {
        Ok(_) => panic!("expected a refusal"),
        Err(error) => error,
    }
}

#[test]
fn cli_uses_documented_defaults_for_host_port_endpoint() {
    let cli = parse(&["--", "echo"]);

    assert_eq!(cli.host, "127.0.0.1");
    assert_eq!(cli.port, 8080);
    assert_eq!(cli.endpoint, "/mcp");
    assert!(cli.session_keep_alive.is_none());
}

#[test]
fn cli_session_keep_alive_is_none_by_default() {
    let cli = parse(&["--", "echo"]);
    assert!(cli.session_keep_alive.is_none());
}

#[test]
fn cli_session_keep_alive_parses_seconds() {
    let cli = parse(&["--session-keep-alive", "42", "--", "echo"]);
    assert_eq!(cli.session_keep_alive, Some(42));
}

#[test]
fn cli_session_keep_alive_accepts_zero() {
    let cli = parse(&["--session-keep-alive", "0", "--", "echo"]);
    assert_eq!(cli.session_keep_alive, Some(0));
}

#[test]
fn cli_accepts_short_host_flag() {
    let cli = parse(&["-H", "0.0.0.0", "--", "echo"]);
    assert_eq!(cli.host, "0.0.0.0");
}

#[test]
fn cli_accepts_custom_port_and_endpoint() {
    let cli = parse(&["--port", "9090", "--endpoint", "/rpc", "--", "echo"]);
    assert_eq!(cli.port, 9090);
    assert_eq!(cli.endpoint, "/rpc");
}

#[test]
fn cli_captures_command_after_double_dash() {
    let cli = parse(&["--", "node", "server.js", "--flag"]);

    assert_eq!(
        cli.command,
        vec![
            "node".to_string(),
            "server.js".to_string(),
            "--flag".to_string()
        ]
    );
}

#[test]
fn cli_command_preserves_argument_order() {
    let cli = parse(&["--", "a", "b", "c"]);
    assert_eq!(cli.command, vec!["a", "b", "c"]);
}

#[test]
fn cli_rejects_missing_command() {
    let result = Cli::try_parse_from(argv(&["hyper-mcp-proxy"]));
    assert!(result.is_err(), "command is required (required = true)");
}

#[test]
fn cli_rejects_invalid_port() {
    let result = Cli::try_parse_from(argv(&[
        "hyper-mcp-proxy",
        "--port",
        "not-a-number",
        "--",
        "echo",
    ]));
    assert!(result.is_err(), "port must parse as u16");
}

#[test]
fn cli_rejects_invalid_session_keep_alive() {
    let result = Cli::try_parse_from(argv(&[
        "hyper-mcp-proxy",
        "--session-keep-alive",
        "abc",
        "--",
        "echo",
    ]));
    assert!(result.is_err(), "session-keep-alive must parse as u64");
}

#[test]
fn cli_rejects_negative_session_keep_alive() {
    let result = Cli::try_parse_from(argv(&[
        "hyper-mcp-proxy",
        "--session-keep-alive",
        "-1",
        "--",
        "echo",
    ]));
    assert!(result.is_err(), "session-keep-alive must be unsigned");
}

#[test]
fn cli_accepts_every_short_flag() {
    let cli = parse(&["-H", "::1", "-p", "65535", "-e", "/v1/mcp", "--", "my-mcp-server", "--flag", "value"]);
    assert_eq!(cli.host, "::1");
    assert_eq!(cli.port, 65535);
    assert_eq!(cli.endpoint, "/v1/mcp");
    assert_eq!(cli.command, vec!["my-mcp-server", "--flag", "value"]);
}

#[test]
fn cli_reads_numbers_with_sign_and_leading_zeros() {
    let cli = parse(&["--port=+0080", "--session-keep-alive=007", "--", "echo"]);
    assert_eq!(cli.port, 80);
    assert_eq!(cli.session_keep_alive, Some(7));
}

#[test]
fn cli_rejects_a_port_beyond_sixteen_bits() {
    let error = refusal(&["hyper-mcp-proxy", "--port", "65536", "--", "echo"]);
    assert!(error.use_stderr);
    assert_eq!(error.exit_code, 2);
    assert!(error.message.contains("65536"));
}

#[test]
fn cli_takes_only_the_first_double_dash_as_separator() {
    let cli = parse(&["--", "sh", "--", "-c", "--"]);
    assert_eq!(cli.command, vec!["sh", "--", "-c", "--"]);
}

#[test]
fn cli_rejects_a_command_without_separator() {
    assert!(refusal(&["hyper-mcp-proxy", "echo"]).use_stderr);
    assert!(refusal(&["hyper-mcp-proxy", "--"]).use_stderr);
    assert!(refusal(&["hyper-mcp-proxy", "--host", "--", "echo"]).use_stderr);
    assert!(refusal(&[]).use_stderr);
}

#[test]
fn cli_prints_help_and_version_on_the_output_stream() {
    let help = refusal(&["hyper-mcp-proxy", "--help"]);
    assert!(!help.use_stderr);
    assert_eq!(help.exit_code, 0);
    assert!(help.message.contains("--session-keep-alive <SECONDS>"));
    assert!(help.message.contains("[default: 127.0.0.1]"));

    let version = refusal(&["hyper-mcp-proxy", "--version"]);
    assert!(!version.use_stderr);
    assert_eq!(version.exit_code, 0);
    assert_eq!(version.message, "hyper-mcp-proxy 0.1.0\n");
}

#[test]
fn cli_takes_options_in_any_order() {
    let cli = parse(&[
        "-e", "/v1/mcp", "--session-keep-alive", "5", "-p", "3000", "-H", "0.0.0.0", "--",
        "my-mcp-server", "--flag", "value",
    ]);
    assert_eq!(cli.host, "0.0.0.0");
    assert_eq!(cli.port, 3000);
    assert_eq!(cli.endpoint, "/v1/mcp");
    assert_eq!(cli.session_keep_alive, Some(5));
    assert_eq!(cli.command, vec!["my-mcp-server", "--flag", "value"]);
}

#[test]
fn cli_rejects_an_option_that_is_given_twice() {
    let error = refusal(&["p", "--host", "a", "-H", "b", "--", "echo"]);
    assert!(error.use_stderr);
    assert_eq!(error.exit_code, 2);
}

#[test]
fn cli_leaves_options_that_are_not_given_at_their_defaults() {
    let cli = parse(&["--endpoint", "/rpc", "--", "echo"]);
    assert_eq!(cli.host, "127.0.0.1");
    assert_eq!(cli.port, 8080);
    assert_eq!(cli.endpoint, "/rpc");
    assert_eq!(cli.session_keep_alive, None);
}

#[test]
fn cli_takes_an_empty_text_and_no_empty_number() {
    let cli = parse(&["--host", "", "--", "echo"]);
    assert_eq!(cli.host, "");
    assert!(refusal(&["p", "--port", "", "--", "echo"]).use_stderr);
}

#[test]
fn cli_takes_the_largest_keep_alive() {
    let cli = parse(&["--session-keep-alive", "18446744073709551615", "--", "echo"]);
    assert_eq!(cli.session_keep_alive, Some(u64::MAX));
    assert!(refusal(&["p", "--session-keep-alive", "18446744073709551616", "--", "echo"]).use_stderr);
}

#[test]
fn cli_answers_help_and_version_whatever_follows() {
    for flag in ["-V", "--version"] {
        let version = refusal(&["/usr/bin/other", flag, "--port", "x"]);
        assert!(!version.use_stderr);
        assert_eq!(version.message, "hyper-mcp-proxy 0.1.0\n");
    }
    for flag in ["-h", "--help"] {
        let help = refusal(&["hyper-mcp-proxy", flag, "--nonsense"]);
        assert!(!help.use_stderr);
        assert_eq!(help.exit_code, 0);
        assert!(help.message.contains("-- <COMMAND>..."));
    }
    let short = refusal(&["hyper-mcp-proxy", "-h"]);
    assert!(short.message.starts_with("Streamable HTTP to stdio MCP proxy\n"));
    let long = refusal(&["hyper-mcp-proxy", "--help"]);
    assert!(long.message.starts_with("A streamable-http to stdio MCP proxy.\n\nAccepts"));
}

#[test]
fn cli_takes_attached_values() {
    let cli = parse(&["--host=a=b", "-p80", "-e=/x", "--session-keep-alive=9", "--", "echo"]);
    assert_eq!(cli.host, "a=b");
    assert_eq!(cli.port, 80);
    assert_eq!(cli.endpoint, "/x");
    assert_eq!(cli.session_keep_alive, Some(9));

    let cli = parse(&["-Hfoo=bar", "-p", "+7", "--endpoint=", "--", "echo"]);
    assert_eq!(cli.host, "foo=bar");
    assert_eq!(cli.port, 7);
    assert_eq!(cli.endpoint, "");

    let cli = parse(&["--host=-x", "-e-y", "--", "echo"]);
    assert_eq!(cli.host, "-x");
    assert_eq!(cli.endpoint, "-y");
    assert_eq!(parse(&["-H=", "--", "echo"]).host, "");
    assert_eq!(parse(&["-H==", "--", "echo"]).host, "=");
}

#[test]
fn cli_takes_a_single_dash_for_a_value() {
    assert_eq!(parse(&["--host", "-", "--", "echo"]).host, "-");
    assert_eq!(parse(&["-H", "-", "--", "echo"]).host, "-");
    assert!(refusal(&["p", "--port", "-", "--", "echo"]).use_stderr);
}

#[test]
fn cli_takes_a_signed_zero_for_a_port_alone() {
    assert_eq!(parse(&["--port=-0", "--", "echo"]).port, 0);
    assert!(refusal(&["p", "--session-keep-alive=-0", "--", "echo"]).use_stderr);
    assert!(refusal(&["p", "--port=-1", "--", "echo"]).use_stderr);
    assert!(refusal(&["p", "--port=+", "--", "echo"]).use_stderr);
}

#[test]
fn cli_refuses_everything_else_with_the_word_error() {
    for line in [
        &["p"][..],
        &[][..],
        &["p", "--"][..],
        &["p", "--host"][..],
        &["p", "--host", "--", "echo"][..],
        &["p", "--host", "-x", "--", "echo"][..],
        &["p", "--host", "--help"][..],
        &["p", "--host", "-h"][..],
        &["p", "--host", "--port=1", "--", "echo"][..],
        &["p", "--session-keep-alive", "-1", "--", "echo"][..],
        &["p", "echo", "--", "echo"][..],
        &["p", "help"][..],
        &["p", "-", "--", "echo"][..],
        &["p", "", "--", "echo"][..],
        &["p", "--=x", "--", "echo"][..],
        &["p", "-=", "--", "echo"][..],
        &["p", "-x", "--", "echo"][..],
        &["p", "--hos", "a", "--", "echo"][..],
        &["p", "--nonsense", "--help"][..],
        &["p", "--nonsense=1", "--", "echo"][..],
        &["p", "--help=1"][..],
        &["p", "--version=1"][..],
        &["p", "--port", "x", "--help"][..],
        &["p", "--port=x", "--version"][..],
        &["p", "--host", "a", "--host=b", "--help"][..],
        &["p", "-Ha", "-Hb", "--", "echo"][..],
    ] {
        let error = refusal(line);
        assert!(error.use_stderr, "{:?}", line);
        assert_eq!(error.exit_code, 2, "{:?}", line);
        assert!(error.message.starts_with("error: "), "{:?}", line);
    }
}

#[test]
fn cli_answers_help_and_version_behind_options() {
    for line in [
        &["p", "--help"][..],
        &["p", "--port", "1", "--help", "--port", "x"][..],
        &["p", "--host=-x", "--help"][..],
    ] {
        let help = refusal(line);
        assert!(!help.use_stderr);
        assert_eq!(help.exit_code, 0);
        assert!(help.message.starts_with(LONG_ABOUT), "{:?}", line);
    }
    for line in [
        &["p", "-h"][..],
        &["p", "-hx"][..],
        &["p", "-p1", "-h", "--"][..],
    ] {
        let help = refusal(line);
        assert!(!help.use_stderr);
        assert!(help.message.starts_with(ABOUT), "{:?}", line);
    }
    for line in [
        &["p", "-Vx"][..],
        &["p", "-e", "/x", "--version", "--help"][..],
    ] {
        let version = refusal(line);
        assert!(!version.use_stderr);
        assert_eq!(version.message, "hyper-mcp-proxy 0.1.0\n");
    }
    assert_eq!(parse(&["--", "echo", "--help"]).command, vec!["echo", "--help"]);
}

#[test]
fn cli_command_defines_the_program() {
    let command = Cli::command();
    assert_eq!(command.get_name(), "hyper-mcp-proxy");
    assert_eq!(command.get_version(), Some("0.1.0"));
    let ids: Vec<&str> = command.get_arguments().map(|arg| arg.get_id().as_str()).collect();
    assert_eq!(
        ids,
        vec!["host", "port", "endpoint", "session_keep_alive", "command"]
    );
}
