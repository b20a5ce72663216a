//! The MCP session that a message belongs to.

use vstd::prelude::*;

use crate::once::OnceCell;

verus! {

/// HTTP header that carries the session id on every request after `initialize`.
pub const MCP_SESSION_ID_HEADER: &'static str = "mcp-session-id";

/// How a log line calls a session whose id is not known.
pub const UNKNOWN_SESSION: &'static str = "<unknown>";

/// The extra data of a message: a collection with at most one value of each type.
#[verifier::external_type_specification]
#[verifier::external_body]
pub struct ExExtensions(rmcp::model::Extensions);

/// The head of an HTTP request, which holds the collection of its headers.
#[verifier::external_type_specification]
#[verifier::external_body]
pub struct ExParts(http::request::Parts);

/// The value of an HTTP header: a collection of bytes.
#[verifier::external_type_specification]
#[verifier::external_body]
pub struct ExHeaderValue(http::HeaderValue);

/// The headers of a request: the values of each header, in order, under its name in
/// lower case.
pub type Headers = Map<Seq<char>, Seq<Seq<u8>>>;

/// The headers of an HTTP request.
pub uninterp spec fn parts_headers(parts: http::request::Parts) -> Headers;

/// The headers of the HTTP request whose head the extensions hold, if they hold one.
pub uninterp spec fn extension_headers(extensions: rmcp::model::Extensions) -> Option<Headers>;

/// The bytes of a header value.
pub uninterp spec fn header_bytes(value: http::HeaderValue) -> Seq<u8>;

/// A header name in lower case.
pub open spec fn is_header_name(name: Seq<char>) -> bool {
    name.len() > 0 && forall|i: int|
        0 <= i < name.len() ==> 'a' <= #[trigger] name[i] <= 'z' || name[i] == '-'
}

/// A byte that may stand in the text of a header: printable ASCII or a tab.
pub open spec fn is_visible(byte: u8) -> bool {
    32 <= byte < 127 || byte == 9
}

/// The text that header bytes spell, if all of them may stand in one.
pub open spec fn header_text(bytes: Seq<u8>) -> Option<Seq<char>> {
    if forall|i: int| 0 <= i < bytes.len() ==> is_visible(#[trigger] bytes[i]) {
        Some(bytes.map_values(|byte: u8| byte as char))
    } else {
        None
    }
}

/// Calls `rmcp::model::Extensions::get::<http::request::Parts>`: the head of the HTTP
/// request, if the extensions hold one.
#[verifier::external_body]
fn http_parts(extensions: &rmcp::model::Extensions) -> (parts: Option<&http::request::Parts>)
    ensures
        match parts {
            Some(head) => extension_headers(*extensions) == Some(parts_headers(*head)),
            None => extension_headers(*extensions) is None,
        },
{
    extensions.get::<http::request::Parts>()
}

/// Calls `http::HeaderMap::get`: the first value of the header, if there is one.
#[verifier::external_body]
fn first_header<'a>(parts: &'a http::request::Parts, name: &str) -> (value: Option<
    &'a http::HeaderValue,
>)
    requires
        is_header_name(name@),
    ensures
        match value {
            Some(first) => {
                &&& parts_headers(*parts).contains_key(name@)
                &&& parts_headers(*parts)[name@].len() > 0
                &&& header_bytes(*first) == parts_headers(*parts)[name@][0]
            },
            None => !parts_headers(*parts).contains_key(name@),
        },
{
    parts.headers.get(name)
}

/// Calls `http::HeaderValue::to_str`: the text of the value, if all of its bytes are
/// printable ASCII or tabs.
#[verifier::external_body]
fn value_text(value: &http::HeaderValue) -> (text: Option<&str>)
    ensures
        match text {
            Some(t) => header_text(header_bytes(*value)) == Some(t@),
            None => header_text(header_bytes(*value)) is None,
        },
{
    value.to_str().ok()
}

/// The session id that a message's headers carry: the text of the first
/// `Mcp-Session-Id` header.
pub open spec fn carried_id(headers: Option<Headers>) -> Option<Seq<char>> {
    match headers {
        Some(fields) => if fields.contains_key(MCP_SESSION_ID_HEADER@) {
            header_text(fields[MCP_SESSION_ID_HEADER@][0])
        } else {
            None
        },
        None => None,
    }
}

/// The characters of an optional text.
pub open spec fn text_of(text: Option<String>) -> Option<Seq<char>> {
    match text {
        Some(t) => Some(t@),
        None => None,
    }
}

/// Extracts the MCP session id from a request's HTTP head, if present.
///
/// There is none on the `initialize` request itself, for the client has no id yet,
/// and none where the transport is not HTTP.
pub fn session_id_from_extensions(extensions: &rmcp::model::Extensions) -> (id: Option<String>)
    ensures
        text_of(id) == carried_id(extension_headers(*extensions)),
        extension_headers(*extensions) is None ==> id is None,
        extension_headers(*extensions) is Some ==> {
            let headers = extension_headers(*extensions)->0;
            let bytes = headers["mcp-session-id"@][0];
            if headers.contains_key("mcp-session-id"@) && (forall|i: int|
                0 <= i < bytes.len() ==> 32 <= #[trigger] bytes[i] < 127 || bytes[i] == 9) {
                &&& id is Some
                &&& id->0@.len() == bytes.len()
                &&& forall|i: int|
                    0 <= i < bytes.len() ==> #[trigger] id->0@[i] as int == bytes[i] as int
            } else {
                id is None
            }
        },
{
    proof {
        reveal_strlit("mcp-session-id");
        if extension_headers(*extensions) is Some {
            law_carried_id_is_the_header(extension_headers(*extensions)->0);
        }
    }
    match http_parts(extensions) {
        Some(parts) => match first_header(parts, MCP_SESSION_ID_HEADER) {
            Some(value) => match value_text(value) {
                Some(text) => Some(text.to_owned()),
                None => None,
            },
            None => None,
        },
        None => None,
    }
}

/// How log lines call the session: by its id once that is known.
pub fn session_label(session_id: &OnceCell<String>) -> (label: String)
    ensures
        label@ == label_of(session_id@),
        session_id@ is Some ==> label@ == session_id@->0@,
        session_id@ is None ==> label@ == "<unknown>"@,
{
    match session_id.get() {
        Some(id) => id.clone(),
        None => UNKNOWN_SESSION.to_owned(),
    }
}

/// The id of a session, or the word for a session without one.
pub open spec fn label_of(session_id: Option<String>) -> Seq<char> {
    match session_id {
        Some(id) => id@,
        None => UNKNOWN_SESSION@,
    }
}

/// What a log line about a message is tagged with.
pub struct SpanFields {
    /// The session id, once it is known.
    pub session_id: Option<String>,
    /// The process id of the child, once it runs, where the platform tells.
    pub pid: Option<u32>,
}

/// A message carries exactly the bytes of its first `Mcp-Session-Id` header, as
/// characters, whatever their number, where all of them are printable ASCII or tabs; in
/// every other case it carries no id.
pub proof fn law_carried_id_is_the_header(headers: Map<Seq<char>, Seq<Seq<u8>>>)
    ensures
        carried_id(None) is None,
        !headers.contains_key("mcp-session-id"@) ==> carried_id(Some(headers)) is None,
        headers.contains_key("mcp-session-id"@) ==> {
            let bytes = headers["mcp-session-id"@][0];
            if forall|i: int|
                0 <= i < bytes.len() ==> 32 <= #[trigger] bytes[i] < 127 || bytes[i] == 9 {
                &&& carried_id(Some(headers)) is Some
                &&& carried_id(Some(headers))->0.len() == bytes.len()
                &&& forall|i: int|
                    0 <= i < bytes.len() ==> #[trigger] carried_id(Some(headers))->0[i] as int
                        == bytes[i] as int
            } else {
                carried_id(Some(headers)) is None
            }
        },
{
    if headers.contains_key("mcp-session-id"@) {
        let bytes = headers["mcp-session-id"@][0];
        if forall|i: int| 0 <= i < bytes.len() ==> is_visible(#[trigger] bytes[i]) {
        } else {
            let i = choose|i: int| 0 <= i < bytes.len() && !is_visible(#[trigger] bytes[i]);
            assert(!(32 <= bytes[i] < 127 || bytes[i] == 9));
        }
    }
}

/// A session with an id is called by that id, whatever it is, so that two sessions with
/// different ids are told apart; one without is called unknown.
pub proof fn law_label_is_the_id(id: String, other: String)
    ensures
        label_of(Some(id)) == id@,
        label_of(None) == "<unknown>"@,
        label_of(Some(id)) == label_of(Some(other)) ==> id@ == other@,
        text_of(Some(id)) == Some(id@),
        text_of(None) is None,
{
}

} // verus!
