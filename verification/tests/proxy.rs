//! The two sides of one session.

use hyper_mcp_proxy::child::ChildClientHandler;
use hyper_mcp_proxy::error::{ErrorData, METHOD_NOT_FOUND};
use hyper_mcp_proxy::once::OnceCell;
use hyper_mcp_proxy::proxy::{
    ClientNotification, ClientRequest, ConnectedChild, Implementation, InitializeResult,
    ProxyHandler, StartedChild, LATEST_PROTOCOL,
};
use hyper_mcp_proxy::session::{session_id_from_extensions, session_label};
use rmcp::model::{ErrorCode, Extensions};

/// A session whose child is called by a number.
type Handler = ProxyHandler<u32>;

fn command(words: &[&str]) -> Vec<String> {
    words.iter().map(|word| word.to_string()).collect()
}

/// The extensions of a message that came with these headers.
fn with_headers(headers: &[(&str, &[u8])]) -> Extensions {
    let mut request = http::Request::builder();
    for (name, value) in headers {
        request = request.header(*name, *value);
    }
    let mut extensions = Extensions::new();
    extensions.insert(request.body(()).unwrap().into_parts().0);
    extensions
}

fn child(peer: u32, pid: Option<u32>) -> ConnectedChild<u32, &'static str> {
    let answer = InitializeResult {
        server_info: Implementation {
            name: "child".to_string(),
            version: "9".to_string(),
        },
        body: "capabilities",
    };
    let (_, started) = StartedChild::started(Ok(((), pid))).ok().unwrap();
    started
        .connected(Ok((peer, Some(answer))), "nothing")
        .ok()
        .unwrap()
}

/// Asks the session for its command and completes `initialize` with this child.
fn initialize(
    handler: &mut Handler,
    child: ConnectedChild<u32, &'static str>,
) -> InitializeResult<&'static str> {
    let spawned = handler.spawn_child().ok().unwrap();
    handler.initialize(spawned.permit, Ok(child)).ok().unwrap()
}

fn initialized(peer: u32, pid: Option<u32>) -> Handler {
    let mut handler = Handler::new(command(&["echo"]));
    initialize(&mut handler, child(peer, pid));
    handler
}

fn refused<T>(reply: Result<T, ErrorData>) -> ErrorData {
    match reply {
        Ok(_) => panic!("expected an error"),
        Err(error) => error,
    }
}

#[test]
fn test_new_creates_uninitialized_handler() {
    let command = command(&["echo", "hello"]);
    let handler = Handler::new(command.clone());

    assert_eq!(&*handler.command, &*command);
    assert!(
        handler.inner.get().is_none(),
        "inner must be None before initialize"
    );
}

#[test]
fn test_new_with_single_command() {
    let handler = Handler::new(command(&["my-server"]));

    assert_eq!(handler.command.len(), 1);
    assert_eq!(handler.command[0], "my-server");
}

#[test]
fn test_new_preserves_command_order_and_args() {
    let handler = Handler::new(command(&["node", "--experimental-modules", "server.js"]));

    assert_eq!(handler.command.len(), 3);
    assert_eq!(handler.command[0], "node");
    assert_eq!(handler.command[1], "--experimental-modules");
    assert_eq!(handler.command[2], "server.js");
}

#[test]
fn test_peer_returns_error_when_not_initialized() {
    let handler = Handler::new(command(&["echo"]));

    let result = handler.peer();
    assert!(result.is_err());

    let err = result.unwrap_err();
    assert_eq!(err.code, ErrorCode::INTERNAL_ERROR.0);
    assert!(
        err.message.contains("not initialized"),
        "expected 'not initialized' in message, got: {}",
        err.message,
    );
    assert!(err.data.is_none());
}

#[test]
fn test_child_error_with_string_message() {
    let err = Handler::child_error("connection refused");

    assert_eq!(err.code, ErrorCode::INTERNAL_ERROR.0);
    assert!(
        err.message.contains("child server error"),
        "expected 'child server error' prefix, got: {}",
        err.message,
    );
    assert!(
        err.message.contains("connection refused"),
        "expected original message in output, got: {}",
        err.message,
    );
    assert!(err.data.is_none());
}

#[test]
fn test_child_error_with_io_error() {
    let io_err = std::io::Error::new(std::io::ErrorKind::BrokenPipe, "pipe broken");
    let err = Handler::child_error(&io_err.to_string());

    assert_eq!(err.code, ErrorCode::INTERNAL_ERROR.0);
    assert!(err.message.contains("child server error"));
    assert!(err.message.contains("pipe broken"));
}

#[test]
fn test_child_error_with_empty_message() {
    let err = Handler::child_error("");

    assert_eq!(err.code, ErrorCode::INTERNAL_ERROR.0);
    assert!(err.message.contains("child server error"));
}

#[test]
fn test_upstream_error_with_string_message() {
    let err = ChildClientHandler::<u32>::upstream_error("timeout");

    assert_eq!(err.code, ErrorCode::INTERNAL_ERROR.0);
    assert!(
        err.message.contains("upstream client error"),
        "expected 'upstream client error' prefix, got: {}",
        err.message,
    );
    assert!(
        err.message.contains("timeout"),
        "expected original message in output, got: {}",
        err.message,
    );
    assert!(err.data.is_none());
}

#[test]
fn test_upstream_error_with_io_error() {
    let io_err = std::io::Error::new(std::io::ErrorKind::ConnectionReset, "connection reset");
    let err = ChildClientHandler::<u32>::upstream_error(&io_err.to_string());

    assert_eq!(err.code, ErrorCode::INTERNAL_ERROR.0);
    assert!(err.message.contains("upstream client error"));
    assert!(err.message.contains("connection reset"));
}

#[test]
fn test_upstream_error_with_empty_message() {
    let err = ChildClientHandler::<u32>::upstream_error("");

    assert_eq!(err.code, ErrorCode::INTERNAL_ERROR.0);
    assert!(err.message.contains("upstream client error"));
}

#[test]
fn test_child_and_upstream_errors_have_distinct_prefixes() {
    let child_err = Handler::child_error("boom");
    let upstream_err = ChildClientHandler::<u32>::upstream_error("boom");

    // Same error code, but different human-readable prefixes
    assert_eq!(child_err.code, upstream_err.code);
    assert_ne!(child_err.message, upstream_err.message);
    assert!(child_err.message.contains("child server error"));
    assert!(upstream_err.message.contains("upstream client error"));
}

#[test]
fn error_messages_are_the_prefix_and_the_cause() {
    assert_eq!(
        Handler::child_error("boom").message,
        "child server error: boom"
    );
    assert_eq!(
        ChildClientHandler::<u32>::upstream_error("boom").message,
        "upstream client error: boom"
    );
    assert_eq!(METHOD_NOT_FOUND, ErrorCode::METHOD_NOT_FOUND.0);
}

#[test]
fn session_id_is_the_text_of_the_header() {
    let extensions = with_headers(&[("Mcp-Session-Id", b"abc-123"), ("accept", b"*/*")]);
    assert_eq!(
        session_id_from_extensions(&extensions).as_deref(),
        Some("abc-123")
    );
    let tab = with_headers(&[("mcp-session-id", b"a\tb ~")]);
    assert_eq!(session_id_from_extensions(&tab).as_deref(), Some("a\tb ~"));
    let empty = with_headers(&[("mcp-session-id", b"")]);
    assert_eq!(session_id_from_extensions(&empty).as_deref(), Some(""));
}

#[test]
fn session_id_is_the_first_of_several_headers() {
    let extensions = with_headers(&[("mcp-session-id", b"one"), ("mcp-session-id", b"two")]);
    assert_eq!(
        session_id_from_extensions(&extensions).as_deref(),
        Some("one")
    );
}

#[test]
fn session_id_is_absent_without_a_readable_header() {
    assert!(session_id_from_extensions(&Extensions::new()).is_none());
    assert!(session_id_from_extensions(&with_headers(&[])).is_none());
    assert!(session_id_from_extensions(&with_headers(&[("session-id", b"x")])).is_none());
    let opaque = with_headers(&[("mcp-session-id", b"a\xffb")]);
    assert!(session_id_from_extensions(&opaque).is_none());
}

#[test]
fn session_id_is_kept_from_the_first_message_that_carries_one() {
    let mut handler = Handler::new(command(&["echo"]));

    let fields = handler.record_session(&with_headers(&[]));
    assert_eq!(fields.session_id, None);
    assert_eq!(session_label(&handler.session_id), "<unknown>");

    let first = with_headers(&[("mcp-session-id", b"first")]);
    let fields = handler.record_session(&first);
    assert_eq!(fields.session_id.as_deref(), Some("first"));
    assert_eq!(fields.pid, None);

    let second = with_headers(&[("mcp-session-id", b"second")]);
    let fields = handler.record_session(&second);
    assert_eq!(fields.session_id.as_deref(), Some("first"));

    let fields = handler.record_session(&Extensions::new());
    assert_eq!(fields.session_id.as_deref(), Some("first"));
    assert_eq!(session_label(&handler.session_id), "first");

    let upstream = ChildClientHandler::new(5u32);
    let fields = upstream.record_session(&handler);
    assert_eq!(fields.session_id.as_deref(), Some("first"));
    assert_eq!(fields.pid, None);
}

#[test]
fn log_lines_tell_the_pid_of_the_child() {
    let mut handler = initialized(1, Some(4321));
    assert_eq!(handler.record_session(&Extensions::new()).pid, Some(4321));
    let mut handler = initialized(1, None);
    assert_eq!(handler.record_session(&Extensions::new()).pid, None);
}

#[test]
fn spawned_command_is_program_and_arguments() {
    let mut handler = Handler::new(command(&["node", "server.js", "--flag"]));
    let spawned = handler.spawn_child().ok().unwrap();
    assert_eq!(spawned.program, "node");
    assert_eq!(spawned.args, vec!["server.js", "--flag"]);
    let mut handler = Handler::new(command(&["my-server"]));
    let spawned = handler.spawn_child().ok().unwrap();
    assert_eq!(spawned.program, "my-server");
    assert!(spawned.args.is_empty());
}

#[test]
fn child_that_cannot_be_started_or_connected_is_an_internal_error() {
    let error = refused(StartedChild::started::<()>(Err("no such file".to_string())));
    assert_eq!(error.code, ErrorCode::INTERNAL_ERROR.0);
    assert_eq!(
        error.message,
        "failed to create child transport: no such file"
    );
    let (streams, started) = StartedChild::started(Ok(("streams", Some(3)))).ok().unwrap();
    assert_eq!(streams, "streams");
    assert_eq!(started.pid, Some(3));
    let outcome: Result<(u32, Option<InitializeResult<u8>>), String> =
        Err("connection closed".to_string());
    let error = refused(started.connected(outcome, 0));
    assert_eq!(error.code, ErrorCode::INTERNAL_ERROR.0);
    assert_eq!(
        error.message,
        "failed to connect to child MCP server: connection closed"
    );
}

#[test]
fn initialize_answers_with_the_child_under_the_name_of_the_proxy() {
    let mut handler = Handler::new(command(&["echo"]));
    let answer = initialize(&mut handler, child(1, Some(2)));
    assert_eq!(answer.server_info.name, "hyper-mcp-proxy");
    assert_eq!(answer.server_info.version, "0.1.0");
    assert_eq!(answer.body, "capabilities");
}

#[test]
fn initialize_answers_with_the_fallback_when_the_child_told_nothing() {
    let (_, started) = StartedChild::started(Ok(((), None))).ok().unwrap();
    let connected = started.connected(Ok((1u32, None)), "nothing").ok().unwrap();
    let mut handler = Handler::new(command(&["echo"]));
    let answer = initialize(&mut handler, connected);
    assert_eq!(answer.server_info.name, "hyper-mcp-proxy");
    assert_eq!(answer.body, "nothing");
}

#[test]
fn handshake_passes_on_what_the_child_told() {
    let (_, started) = StartedChild::started(Ok(((), Some(6)))).ok().unwrap();
    let mut capabilities = rmcp::model::ServerCapabilities::default();
    capabilities.tools = Some(Default::default());
    let told = rmcp::model::InitializeResult::new(capabilities).with_instructions("ask");
    let answer = InitializeResult {
        server_info: Implementation {
            name: "child".to_string(),
            version: "9".to_string(),
        },
        body: told.clone(),
    };
    let connected = started.handshake(Ok((1u32, Some(answer)))).ok().unwrap();
    assert_eq!(connected.peer, 1);
    assert_eq!(connected.pid, Some(6));
    assert_eq!(connected.init_result.server_info.name, "hyper-mcp-proxy");
    assert_eq!(connected.init_result.body, told);
}

#[test]
fn handshake_with_a_silent_child_advertises_nothing() {
    let (_, started) = StartedChild::started(Ok(((), None))).ok().unwrap();
    let connected = started.handshake(Ok((1u32, None))).ok().unwrap();
    let body = connected.init_result.body;
    assert_eq!(
        body.capabilities,
        rmcp::model::ServerCapabilities::default()
    );
    assert_eq!(body.protocol_version.to_string(), LATEST_PROTOCOL);
    assert!(body.instructions.is_none());
    assert_eq!(connected.init_result.server_info.name, "hyper-mcp-proxy");

    let (_, started) = StartedChild::started(Ok(((), None))).ok().unwrap();
    let error = refused(started.handshake::<u32>(Err("closed".to_string())));
    assert_eq!(
        error.message,
        "failed to connect to child MCP server: closed"
    );
}

fn assert_already_initialized(error: ErrorData) {
    assert_eq!(error.code, ErrorCode::INTERNAL_ERROR.0);
    assert_eq!(error.message, "session already initialized");
    assert!(error.data.is_none());
}

#[test]
fn second_initialize_is_refused_and_keeps_the_child() {
    let mut handler = initialized(1, Some(10));
    assert_already_initialized(refused(handler.spawn_child()));
    assert_eq!(handler.peer().ok(), Some(&1));
    let fields = handler.record_session(&Extensions::new());
    assert_eq!(fields.pid, Some(10));
}

#[test]
fn overlapping_initialize_is_refused_the_command() {
    let mut handler = Handler::new(command(&["echo"]));
    let spawned = handler.spawn_child().ok().unwrap();
    assert!(handler.spawning);
    assert_already_initialized(refused(handler.spawn_child()));
    assert!(handler.initialize(spawned.permit, Ok(child(3, None))).is_ok());
    assert!(!handler.spawning);
    assert_already_initialized(refused(handler.spawn_child()));
    assert_eq!(handler.peer().ok(), Some(&3));
}

#[test]
fn child_is_kept_whatever_is_completed_later() {
    let mut other = Handler::new(command(&["echo"]));
    let first = other.spawn_child().ok().unwrap().permit;
    let mut handler = initialized(1, Some(10));
    assert_already_initialized(refused(handler.initialize(first, Ok(child(2, Some(20))))));
    assert_eq!(handler.peer().ok(), Some(&1));
}

#[test]
fn failed_initialize_passes_the_error_on_and_can_be_tried_again() {
    let mut handler = Handler::new(command(&["echo"]));
    let spawned = handler.spawn_child().ok().unwrap();
    let error = refused(StartedChild::started::<()>(Err("denied".to_string())));
    let failed: Result<ConnectedChild<u32, &'static str>, ErrorData> = Err(error);
    let error = refused(handler.initialize(spawned.permit, failed));
    assert_eq!(error.message, "failed to create child transport: denied");
    assert!(handler.peer().is_err());
    assert_eq!(initialize(&mut handler, child(4, None)).body, "capabilities");
    assert_eq!(handler.peer().ok(), Some(&4));
}

fn standard_requests() -> Vec<ClientRequest> {
    vec![
        ClientRequest::ListTools,
        ClientRequest::CallTool,
        ClientRequest::ListResources,
        ClientRequest::ListResourceTemplates,
        ClientRequest::ReadResource,
        ClientRequest::Subscribe,
        ClientRequest::Unsubscribe,
        ClientRequest::ListPrompts,
        ClientRequest::GetPrompt,
        ClientRequest::Complete,
        ClientRequest::SetLevel,
    ]
}

#[test]
fn requests_go_to_the_child_once_initialized() {
    let mut handler = initialized(17, None);
    let extensions = with_headers(&[("mcp-session-id", b"s")]);
    for request in standard_requests() {
        let (fields, route) = handler.accept_request(&request, "params", &extensions);
        assert_eq!(fields.session_id.as_deref(), Some("s"));
        let forward = route.ok().unwrap();
        assert_eq!(*forward.peer, 17);
        assert_eq!(forward.params, "params");
    }
}

#[test]
fn requests_are_refused_before_initialize() {
    let mut handler = Handler::new(command(&["echo"]));
    for request in standard_requests() {
        let (_, route) = handler.accept_request(&request, (), &Extensions::new());
        let error = refused(route);
        assert_eq!(error.code, ErrorCode::INTERNAL_ERROR.0);
        assert_eq!(error.message, "proxy session not initialized");
    }
}

#[test]
fn custom_requests_are_not_proxied() {
    let request = ClientRequest::Custom {
        method: "x/y".to_string(),
    };
    for mut handler in [initialized(1, None), Handler::new(command(&["echo"]))] {
        let extensions = with_headers(&[("mcp-session-id", b"s")]);
        let (fields, route) = handler.accept_request(&request, (), &extensions);
        assert_eq!(fields.session_id.as_deref(), Some("s"));
        let error = refused(route);
        assert_eq!(error.code, ErrorCode::METHOD_NOT_FOUND.0);
        assert_eq!(error.message, "custom method 'x/y' cannot be proxied");
        assert!(error.data.is_none());
    }
}

#[test]
fn notifications_go_to_the_child_or_nowhere() {
    let extensions = with_headers(&[("mcp-session-id", b"s")]);
    let mut fresh = Handler::new(command(&["echo"]));
    let mut ready = initialized(17, None);
    for notification in [
        ClientNotification::Cancelled,
        ClientNotification::Progress,
        ClientNotification::RootsListChanged,
    ] {
        let (fields, route) = fresh.accept_notification(&notification, 3, &extensions);
        assert_eq!(fields.session_id.as_deref(), Some("s"));
        assert!(route.is_none());
        let (_, route) = ready.accept_notification(&notification, 3, &extensions);
        let forward = route.unwrap();
        assert_eq!(*forward.peer, 17);
        assert_eq!(forward.params, 3);
    }
    for notification in [ClientNotification::Initialized, ClientNotification::Custom] {
        let (_, route) = ready.accept_notification(&notification, 3, &extensions);
        assert!(route.is_none());
    }
}

#[test]
fn replies_of_the_child_pass_unchanged() {
    assert_eq!(Handler::reply(Ok(5)).ok(), Some(5));
    let error = refused(Handler::reply::<u8>(Err("gone".to_string())));
    assert_eq!(error.code, ErrorCode::INTERNAL_ERROR.0);
    assert_eq!(error.message, "child server error: gone");
}

#[test]
fn messages_of_the_child_go_to_the_client() {
    let handler = ChildClientHandler::new(8u32);
    let forward = handler.accept_request("sampling");
    assert_eq!(*forward.peer, 8);
    assert_eq!(forward.params, "sampling");

    let mut session = Handler::new(command(&["echo"]));
    let (fields, _) = handler.accept_notification(&session, ());
    assert_eq!(fields.session_id, None);
    session.record_session(&with_headers(&[("mcp-session-id", b"s")]));
    let (fields, forward) = handler.accept_notification(&session, "progress");
    assert_eq!(fields.session_id.as_deref(), Some("s"));
    assert_eq!(fields.pid, None);
    assert_eq!(*forward.peer, 8);
    assert_eq!(forward.params, "progress");
}

#[test]
fn replies_of_the_client_pass_unchanged() {
    assert_eq!(ChildClientHandler::<u32>::reply(Ok(5)).ok(), Some(5));
    let outcome: Result<u8, String> = Err("gone".to_string());
    let error = refused(ChildClientHandler::<u32>::reply(outcome));
    assert_eq!(error.code, ErrorCode::INTERNAL_ERROR.0);
    assert_eq!(error.message, "upstream client error: gone");
}

#[test]
fn cell_keeps_the_first_write() {
    let mut cell = OnceCell::new();
    assert_eq!(cell.get(), None);
    assert_eq!(cell.set(1), Ok(()));
    assert_eq!(cell.set(2), Err(2));
    assert_eq!(cell.get(), Some(&1));
}
