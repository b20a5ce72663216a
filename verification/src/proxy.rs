//! The server side of one session: what the proxy does with each message of its
//! client.

use vstd::prelude::*;
use vstd::string::StringExecFns;

use crate::cli::{texts_of, PROGRAM_NAME, PROGRAM_VERSION};
use crate::error::{
    internal_error, plain_error, ErrorData, ErrorModel, INTERNAL_ERROR, METHOD_NOT_FOUND,
};
use crate::line::{after_escape, words_of};
use crate::once::OnceCell;
use crate::session::{
    carried_id, extension_headers, session_id_from_extensions, text_of, SpanFields,
};

verus! {

/// How the error of a failed call to the child server begins.
pub const CHILD_ERROR: &'static str = "child server error: ";

/// How the error of a child that could not be started begins.
pub const TRANSPORT_ERROR: &'static str = "failed to create child transport: ";

/// How the error of a child that could not be spoken to begins.
pub const CONNECT_ERROR: &'static str = "failed to connect to child MCP server: ";

/// The answer to a request ahead of a completed `initialize`.
pub const NOT_INITIALIZED: &'static str = "proxy session not initialized";

/// The answer to a second `initialize`.
pub const ALREADY_INITIALIZED: &'static str = "session already initialized";

/// A request of the client.
pub enum ClientRequest {
    ListTools,
    CallTool,
    ListResources,
    ListResourceTemplates,
    ReadResource,
    Subscribe,
    Unsubscribe,
    ListPrompts,
    GetPrompt,
    Complete,
    SetLevel,
    /// A request that is not part of MCP.
    Custom {
        /// The JSON-RPC method.
        method: String,
    },
}

/// A notification of the client.
pub enum ClientNotification {
    Cancelled,
    Progress,
    Initialized,
    RootsListChanged,
    /// A notification that is not part of MCP.
    Custom,
}

/// A message on its way: whom to call, and with what.
pub struct Forward<'a, P, Q> {
    /// Handle to call with the message.
    pub peer: &'a P,
    /// The parameters of the message.
    pub params: Q,
}

/// The right to complete one `initialize`. It comes with the command to spawn, and only
/// there, so that a request that was refused the command cannot complete another's.
pub struct SpawnPermit {
    granted: (),
}

/// The command line of a process.
pub struct SpawnCommand {
    /// What to run.
    pub program: String,
    /// What to hand to it.
    pub args: Vec<String>,
    /// What to complete `initialize` with.
    pub permit: SpawnPermit,
}

/// A child process that was started and is not connected yet.
pub struct StartedChild {
    /// Its process id, where the platform tells.
    pub pid: Option<u32>,
}

/// The name and the version of an MCP implementation.
pub struct Implementation {
    pub name: String,
    pub version: String,
}

/// The answer to `initialize`: who the server is, and everything else, such as the
/// protocol version and the capabilities.
pub struct InitializeResult<B> {
    pub server_info: Implementation,
    pub body: B,
}

/// A child that completed its MCP handshake.
pub struct ConnectedChild<P, B> {
    /// Handle to call the child with.
    pub peer: P,
    /// What the proxy answers to `initialize`.
    pub init_result: InitializeResult<B>,
    /// Its process id, where the platform tells.
    pub pid: Option<u32>,
}

/// What a session holds of its child once `initialize` completed.
pub struct ProxyInner<P> {
    /// Handle to call the child with.
    pub peer: P,
    /// Its process id, where the platform tells.
    pub child_pid: Option<u32>,
}

/// The server side of one session, which stands in for a child stdio MCP server.
///
/// One is made per session. On `initialize` the command is spawned as a child
/// process and spoken to as an MCP client; from then on every request and
/// notification goes to that child. The command is spawned once per session: there is
/// no second child beside one that runs or is being spawned.
pub struct ProxyHandler<P> {
    /// The program and the arguments of the child.
    pub command: Vec<String>,
    /// The child, once `initialize` completed.
    pub inner: OnceCell<ProxyInner<P>>,
    /// Whether the command was handed out to be spawned and nothing came of it yet.
    pub spawning: bool,
    /// The session id, once a message carried it. The client side of the session and
    /// the capture of the child's stderr read it here.
    pub session_id: OnceCell<String>,
}

/// rmcp's answer to `initialize`, which holds a collection of capabilities.
#[verifier::external_type_specification]
#[verifier::external_body]
pub struct ExServerInfo(rmcp::model::ServerInfo);

/// The names of the capabilities that an answer advertises.
pub uninterp spec fn advertised(answer: rmcp::model::ServerInfo) -> Set<Seq<char>>;

/// The protocol version that an answer names and, behind it, the instructions for the
/// client, if it has any.
pub uninterp spec fn announced(answer: rmcp::model::ServerInfo) -> Seq<Seq<char>>;

/// The protocol version that is announced for a child that told nothing of itself.
pub const LATEST_PROTOCOL: &'static str = "2025-11-25";

/// The answer advertises no capability and announces the latest version that rmcp speaks,
/// without instructions.
pub open spec fn tells_nothing(answer: rmcp::model::ServerInfo) -> bool {
    advertised(answer) == Set::<Seq<char>>::empty() && announced(answer) == seq![LATEST_PROTOCOL@]
}

/// Calls `new` of `rmcp::model::InitializeResult`, alias `ServerInfo`, with
/// `ServerCapabilities::default`: no capability, the latest protocol version that rmcp
/// speaks, and no instructions. The name and version of the server in it are left open,
/// for the proxy puts its own.
#[verifier::external_body]
fn silent_answer() -> (answer: rmcp::model::ServerInfo)
    ensures
        advertised(answer) == Set::<Seq<char>>::empty(),
        announced(answer) == seq![LATEST_PROTOCOL@],
{
    rmcp::model::ServerInfo::new(rmcp::model::ServerCapabilities::default())
}

/// Who the proxy says it is.
pub open spec fn is_proxy_info(info: Implementation) -> bool {
    info.name@ == PROGRAM_NAME@ && info.version@ == PROGRAM_VERSION@
}

impl Implementation {
    /// Who the proxy says it is.
    pub fn proxy() -> (info: Implementation)
        ensures
            is_proxy_info(info),
            info.name@ == "hyper-mcp-proxy"@,
            info.version@ == "0.1.0"@,
    {
        Implementation { name: PROGRAM_NAME.to_owned(), version: PROGRAM_VERSION.to_owned() }
    }
}

impl StartedChild {
    /// What comes of the attempt to start the child process: the streams to speak to it
    /// over, and the process.
    pub fn started<T>(outcome: Result<(T, Option<u32>), String>) -> (child: Result<
        (T, StartedChild),
        ErrorData,
    >)
        ensures
            match outcome {
                Ok((streams, pid)) => child == Ok::<(T, StartedChild), ErrorData>(
                    (streams, StartedChild { pid }),
                ),
                Err(cause) => {
                    &&& child is Err
                    &&& child->Err_0@ == internal_error(TRANSPORT_ERROR@, cause@)
                    &&& child->Err_0.code == -32603
                    &&& child->Err_0.message@ == "failed to create child transport: "@ + cause@
                    &&& child->Err_0.data is None
                },
            },
    {
        match outcome {
            Ok((streams, pid)) => Ok((streams, StartedChild { pid })),
            Err(cause) => Err(ErrorData::internal(TRANSPORT_ERROR, cause.as_str())),
        }
    }

    /// What comes of the MCP handshake with the child: the handle to call it with, and
    /// what it answered to `initialize`, where that is known. The answer is passed on
    /// with the proxy as the server; `fallback` stands in for one that is not known.
    pub fn connected<P, B>(
        self,
        outcome: Result<(P, Option<InitializeResult<B>>), String>,
        fallback: B,
    ) -> (child: Result<ConnectedChild<P, B>, ErrorData>)
        ensures
            match outcome {
                Ok((peer, info)) => {
                    &&& child is Ok
                    &&& child->Ok_0.stands_for(peer, info, fallback, self.pid)
                    &&& child->Ok_0.peer == peer
                    &&& child->Ok_0.pid == self.pid
                    &&& child->Ok_0.init_result.server_info.name@ == "hyper-mcp-proxy"@
                    &&& child->Ok_0.init_result.server_info.version@ == "0.1.0"@
                    &&& info is Some ==> child->Ok_0.init_result.body == info->0.body
                    &&& info is None ==> child->Ok_0.init_result.body == fallback
                },
                Err(cause) => {
                    &&& child is Err
                    &&& child->Err_0@ == internal_error(CONNECT_ERROR@, cause@)
                    &&& child->Err_0.code == -32603
                    &&& child->Err_0.message@ == "failed to connect to child MCP server: "@ + cause@
                    &&& child->Err_0.data is None
                },
            },
    {
        match outcome {
            Ok((peer, info)) => {
                let body: B = match info {
                    Some(answer) => answer.body,
                    None => fallback,
                };
                let init_result: InitializeResult<B> = InitializeResult {
                    server_info: Implementation::proxy(),
                    body,
                };
                Ok(ConnectedChild { peer, init_result, pid: self.pid })
            },
            Err(cause) => Err(ErrorData::internal(CONNECT_ERROR, cause.as_str())),
        }
    }

    /// What comes of the MCP handshake with the child, in rmcp's form: a child that told
    /// nothing of itself is passed on as one without capabilities.
    pub fn handshake<P>(
        self,
        outcome: Result<(P, Option<InitializeResult<rmcp::model::ServerInfo>>), String>,
    ) -> (child: Result<ConnectedChild<P, rmcp::model::ServerInfo>, ErrorData>)
        ensures
            match outcome {
                Ok((peer, info)) => {
                    &&& child is Ok
                    &&& child->Ok_0.peer == peer
                    &&& child->Ok_0.pid == self.pid
                    &&& is_proxy_info(child->Ok_0.init_result.server_info)
                    &&& child->Ok_0.init_result.server_info.name@ == "hyper-mcp-proxy"@
                    &&& child->Ok_0.init_result.server_info.version@ == "0.1.0"@
                    &&& info is None ==> advertised(child->Ok_0.init_result.body) == Set::<
                        Seq<char>,
                    >::empty() && announced(child->Ok_0.init_result.body) == seq!["2025-11-25"@]
                    &&& match info {
                        Some(answer) => child->Ok_0.init_result.body == answer.body,
                        None => tells_nothing(child->Ok_0.init_result.body),
                    }
                },
                Err(cause) => {
                    &&& child is Err
                    &&& child->Err_0@ == internal_error(CONNECT_ERROR@, cause@)
                    &&& child->Err_0.code == -32603
                    &&& child->Err_0.message@ == "failed to connect to child MCP server: "@ + cause@
                    &&& child->Err_0.data is None
                },
            },
    {
        self.connected(outcome, silent_answer())
    }
}

impl<P, B> ConnectedChild<P, B> {
    /// The child is the one with this handle and process id, and everything that it
    /// said of itself is kept but its name and version, which are the proxy's.
    pub open spec fn stands_for(
        self,
        peer: P,
        info: Option<InitializeResult<B>>,
        fallback: B,
        pid: Option<u32>,
    ) -> bool {
        &&& self.peer == peer
        &&& self.pid == pid
        &&& is_proxy_info(self.init_result.server_info)
        &&& self.init_result.body == match info {
            Some(answer) => answer.body,
            None => fallback,
        }
    }

    /// What the session holds of the child.
    pub open spec fn as_inner(self) -> ProxyInner<P> {
        ProxyInner { peer: self.peer, child_pid: self.pid }
    }
}

/// The place for the one child of a session.
pub struct ChildSlot<P> {
    /// The child, once `initialize` completed.
    pub child: Option<ProxyInner<P>>,
    /// Whether the command was handed out and nothing came of it yet.
    pub spawning: bool,
}

/// A call that concerns the child of a session.
pub enum SpawnCall<P> {
    /// The command is asked for, to spawn it.
    Ask,
    /// The spawn failed.
    Failed,
    /// The spawn gave a connected child.
    Connected(ProxyInner<P>),
}

/// The slot of a session that has no child yet.
pub open spec fn fresh_slot<P>() -> ChildSlot<P> {
    ChildSlot { child: None, spawning: false }
}

/// Whether the command may be spawned: there is no child, and none is being spawned.
pub open spec fn is_free<P>(slot: ChildSlot<P>) -> bool {
    slot.child is None && !slot.spawning
}

/// The slot after a call. A child that is there stays.
pub open spec fn slot_after<P>(slot: ChildSlot<P>, call: SpawnCall<P>) -> ChildSlot<P> {
    if slot.child is Some {
        slot
    } else {
        match call {
            SpawnCall::Ask => ChildSlot { child: None, spawning: true },
            SpawnCall::Failed => ChildSlot { child: None, spawning: false },
            SpawnCall::Connected(child) => ChildSlot { child: Some(child), spawning: false },
        }
    }
}

/// The call that completes `initialize` with what came of the spawn.
pub open spec fn completion<P, B>(spawned: Result<ConnectedChild<P, B>, ErrorData>) -> SpawnCall<
    P,
> {
    match spawned {
        Ok(child) => SpawnCall::Connected(child.as_inner()),
        Err(_) => SpawnCall::Failed,
    }
}

/// Where a request goes: to the child, or back to the client with an error.
pub open spec fn request_route<P>(inner: Option<ProxyInner<P>>, request: ClientRequest) -> Result<
    P,
    ErrorModel,
> {
    match request {
        ClientRequest::Custom { method } => Err(custom_method_error(method@)),
        _ => match inner {
            Some(child) => Ok(child.peer),
            None => Err(plain_error(INTERNAL_ERROR, NOT_INITIALIZED@)),
        },
    }
}

/// The answer to a request that is not part of MCP.
pub open spec fn custom_method_error(method: Seq<char>) -> ErrorModel {
    plain_error(METHOD_NOT_FOUND, "custom method '"@ + method + "' cannot be proxied"@)
}

/// Where a notification goes: to the child, or nowhere.
pub open spec fn notification_route<P>(
    inner: Option<ProxyInner<P>>,
    notification: ClientNotification,
) -> Option<P> {
    match notification {
        ClientNotification::Initialized | ClientNotification::Custom => None,
        _ => match inner {
            Some(child) => Some(child.peer),
            None => None,
        },
    }
}

/// The session id that is known after a message: the first one that any message
/// carried.
pub open spec fn known_id(known: Option<Seq<char>>, carried: Option<Seq<char>>) -> Option<
    Seq<char>,
> {
    match known {
        Some(id) => Some(id),
        None => carried,
    }
}

/// The process id of the child, once there is one that the platform tells.
pub open spec fn known_pid<P>(inner: Option<ProxyInner<P>>) -> Option<u32> {
    match inner {
        Some(child) => child.child_pid,
        None => None,
    }
}

impl<P> ProxyHandler<P> {
    /// The place for the one child of the session.
    pub open spec fn slot(self) -> ChildSlot<P> {
        ChildSlot { child: self.inner@, spawning: self.spawning }
    }

    /// A session whose child has this command. The child is not spawned until
    /// `initialize` comes.
    pub fn new(command: Vec<String>) -> (handler: Self)
        ensures
            handler.command == command,
            handler.inner@ is None,
            handler.slot() == fresh_slot::<P>(),
            !handler.spawning,
            handler.session_id@ is None,
    {
        ProxyHandler {
            command,
            inner: OnceCell::new(),
            spawning: false,
            session_id: OnceCell::new(),
        }
    }

    /// The handle to call the child with, or an error ahead of a completed
    /// `initialize`.
    pub fn peer(&self) -> (peer: Result<&P, ErrorData>)
        ensures
            match self.inner@ {
                Some(child) => peer is Ok && *peer->Ok_0 == child.peer,
                None => {
                    &&& peer is Err
                    &&& peer->Err_0@ == plain_error(INTERNAL_ERROR, NOT_INITIALIZED@)
                    &&& peer->Err_0.code == -32603
                    &&& peer->Err_0.message@ == "proxy session not initialized"@
                    &&& peer->Err_0.data is None
                },
            },
    {
        match self.inner.get() {
            Some(child) => Ok(&child.peer),
            None => Err(ErrorData::new(INTERNAL_ERROR, NOT_INITIALIZED.to_owned())),
        }
    }

    /// The error of a failed call to the child.
    pub fn child_error(cause: &str) -> (error: ErrorData)
        ensures
            error@ == internal_error(CHILD_ERROR@, cause@),
            error.code == -32603,
            error.message@ == "child server error: "@ + cause@,
            error.data is None,
    {
        ErrorData::internal(CHILD_ERROR, cause)
    }

    /// The session is the same but for the session id, which it has learned from a
    /// message with these extensions unless it knew one.
    pub open spec fn has_seen(self, before: Self, extensions: rmcp::model::Extensions) -> bool {
        &&& self.command == before.command
        &&& self.inner == before.inner
        &&& self.spawning == before.spawning
        &&& before.session_id@ is Some ==> self.session_id == before.session_id
        &&& text_of(self.session_id@) == known_id(
            text_of(before.session_id@),
            carried_id(extension_headers(extensions)),
        )
    }

    /// Learns the session id from a message and tells what to tag its log lines with.
    ///
    /// The id is kept from the first message that carries one, which is the first
    /// request after `initialize`, so that all later messages, and those of the child,
    /// can be told to belong to the session.
    pub fn record_session(&mut self, extensions: &rmcp::model::Extensions) -> (fields: SpanFields)
        ensures
            final(self).has_seen(*old(self), *extensions),
            text_of(fields.session_id) == text_of(final(self).session_id@),
            fields.pid == known_pid(old(self).inner@),
            final(self).command == old(self).command,
            final(self).inner == old(self).inner,
            final(self).spawning == old(self).spawning,
            old(self).session_id@ is Some ==> final(self).session_id == old(self).session_id,
            old(self).session_id@ is None ==> match carried_id(extension_headers(*extensions)) {
                Some(id) => final(self).session_id@ is Some && final(self).session_id@->0@ == id,
                None => final(self).session_id@ is None,
            },
            fields.session_id is Some <==> final(self).session_id@ is Some,
            fields.session_id is Some ==> fields.session_id->0@ == final(self).session_id@->0@,
            old(self).inner@ is Some ==> fields.pid == old(self).inner@->0.child_pid,
            old(self).inner@ is None ==> fields.pid is None,
    {
        match session_id_from_extensions(extensions) {
            Some(id) => {
                let _ = self.session_id.set(id);
            },
            None => {},
        }
        let known: Option<String> = match self.session_id.get() {
            Some(id) => Some(id.clone()),
            None => None,
        };
        let pid: Option<u32> = match self.inner.get() {
            Some(child) => child.child_pid,
            None => None,
        };
        SpanFields { session_id: known, pid }
    }

    /// Hands out the command line of the child process, to be spawned. A session that
    /// has a child, or whose child is being spawned, refuses.
    pub fn spawn_child(&mut self) -> (command: Result<SpawnCommand, ErrorData>)
        requires
            old(self).command@.len() > 0,
        ensures
            final(self).command == old(self).command,
            final(self).inner == old(self).inner,
            final(self).session_id == old(self).session_id,
            final(self).slot() == slot_after(old(self).slot(), SpawnCall::Ask),
            if is_free(old(self).slot()) {
                &&& command is Ok
                &&& command->Ok_0.program@ == old(self).command@[0]@
                &&& texts_of(command->Ok_0.args@) == texts_of(old(self).command@).drop_first()
                &&& command->Ok_0.args@.len() == old(self).command@.len() - 1
                &&& forall|i: int|
                    0 <= i < command->Ok_0.args@.len() ==> #[trigger] command->Ok_0.args@[i]@
                        == old(self).command@[i + 1]@
            } else {
                &&& *final(self) == *old(self)
                &&& command is Err
                &&& command->Err_0@ == plain_error(INTERNAL_ERROR, ALREADY_INITIALIZED@)
                &&& command->Err_0.code == -32603
                &&& command->Err_0.message@ == "session already initialized"@
                &&& command->Err_0.data is None
            },
            command is Ok <==> old(self).inner@ is None && !old(self).spawning,
            command is Ok ==> final(self).spawning,
    {
        if self.spawning || self.inner.get().is_some() {
            return Err(ErrorData::new(INTERNAL_ERROR, ALREADY_INITIALIZED.to_owned()));
        }
        let program: String = self.command[0].clone();
        let mut args: Vec<String> = Vec::new();
        let mut i: usize = 1;
        while i < self.command.len()
            invariant
                *self == *old(self),
                1 <= i <= self.command@.len(),
                args@.len() == i - 1,
                forall|k: int| 0 <= k < args@.len() ==> args@[k]@ == #[trigger] self.command@[k
                    + 1]@,
            decreases self.command@.len() - i,
        {
            args.push(self.command[i].clone());
            i += 1;
        }
        assert(texts_of(args@) =~= texts_of(self.command@).drop_first());
        self.spawning = true;
        Ok(SpawnCommand { program, args, permit: SpawnPermit { granted: () } })
    }

    /// Completes `initialize` with what came of spawning the child: keeps a connected
    /// child and answers with what it said of itself, or passes on why there is none, so
    /// that a later `initialize` can try again. The permit is used up. A session that has
    /// a child keeps that one.
    pub fn initialize<B>(
        &mut self,
        permit: SpawnPermit,
        spawned: Result<ConnectedChild<P, B>, ErrorData>,
    ) -> (reply: Result<InitializeResult<B>, ErrorData>)
        ensures
            final(self).command == old(self).command,
            final(self).session_id == old(self).session_id,
            final(self).slot() == slot_after(old(self).slot(), completion(spawned)),
            match old(self).inner@ {
                None => match spawned {
                    Ok(child) => {
                        &&& reply == Ok::<InitializeResult<B>, ErrorData>(child.init_result)
                        &&& final(self).inner@ is Some
                        &&& final(self).inner@->0.peer == child.peer
                        &&& final(self).inner@->0.child_pid == child.pid
                        &&& !final(self).spawning
                    },
                    Err(error) => {
                        &&& reply == Err::<InitializeResult<B>, ErrorData>(error)
                        &&& final(self).inner@ is None
                        &&& !final(self).spawning
                    },
                },
                Some(_) => {
                    &&& *final(self) == *old(self)
                    &&& reply is Err
                    &&& reply->Err_0@ == plain_error(INTERNAL_ERROR, ALREADY_INITIALIZED@)
                    &&& reply->Err_0.code == -32603
                    &&& reply->Err_0.message@ == "session already initialized"@
                    &&& reply->Err_0.data is None
                },
            },
    {
        if self.inner.get().is_some() {
            return Err(ErrorData::new(INTERNAL_ERROR, ALREADY_INITIALIZED.to_owned()));
        }
        self.spawning = false;
        match spawned {
            Ok(child) => {
                let inner: ProxyInner<P> = ProxyInner { peer: child.peer, child_pid: child.pid };
                let _ = self.inner.set(inner);
                Ok(child.init_result)
            },
            Err(error) => Err(error),
        }
    }

    /// Takes a request of the client: learns the session id from it, tells what to tag
    /// its log lines with, and whom to hand its parameters to, or what to answer.
    pub fn accept_request<'a, Q>(
        &'a mut self,
        request: &ClientRequest,
        params: Q,
        extensions: &rmcp::model::Extensions,
    ) -> (accepted: (SpanFields, Result<Forward<'a, P, Q>, ErrorData>))
        ensures
            final(self).has_seen(*old(self), *extensions),
            text_of(accepted.0.session_id) == text_of(final(self).session_id@),
            accepted.0.pid == known_pid(old(self).inner@),
            final(self).command == old(self).command,
            final(self).inner == old(self).inner,
            final(self).spawning == old(self).spawning,
            old(self).session_id@ is Some ==> final(self).session_id == old(self).session_id,
            old(self).session_id@ is None ==> match carried_id(extension_headers(*extensions)) {
                Some(id) => final(self).session_id@ is Some && final(self).session_id@->0@ == id,
                None => final(self).session_id@ is None,
            },
            accepted.0.session_id is Some <==> final(self).session_id@ is Some,
            accepted.0.session_id is Some ==> accepted.0.session_id->0@ == final(self).session_id@->0@,
            old(self).inner@ is Some ==> accepted.0.pid == old(self).inner@->0.child_pid,
            old(self).inner@ is None ==> accepted.0.pid is None,
            match request_route(old(self).inner@, *request) {
                Ok(peer) => {
                    &&& accepted.1 is Ok
                    &&& *accepted.1->Ok_0.peer == peer
                    &&& accepted.1->Ok_0.params == params
                },
                Err(error) => accepted.1 is Err && accepted.1->Err_0@ == error,
            },
            *request is Custom ==> {
                &&& accepted.1 is Err
                &&& accepted.1->Err_0.code == -32601
                &&& accepted.1->Err_0.message@ == "custom method '"@ + request->Custom_method@
                    + "' cannot be proxied"@
                &&& accepted.1->Err_0.data is None
            },
            !(*request is Custom) && old(self).inner@ is Some ==> {
                &&& accepted.1 is Ok
                &&& *accepted.1->Ok_0.peer == old(self).inner@->0.peer
                &&& accepted.1->Ok_0.params == params
            },
            !(*request is Custom) && old(self).inner@ is None ==> {
                &&& accepted.1 is Err
                &&& accepted.1->Err_0.code == -32603
                &&& accepted.1->Err_0.message@ == "proxy session not initialized"@
                &&& accepted.1->Err_0.data is None
            },
    {
        let fields: SpanFields = self.record_session(extensions);
        let route: Result<Forward<'a, P, Q>, ErrorData> = match request {
            ClientRequest::Custom { method } => {
                let message: String = "custom method '".to_owned().concat(method.as_str()).concat(
                    "' cannot be proxied",
                );
                Err(ErrorData::new(METHOD_NOT_FOUND, message))
            },
            _ => match self.peer() {
                Ok(peer) => Ok(Forward { peer, params }),
                Err(error) => Err(error),
            },
        };
        (fields, route)
    }

    /// Answers a request that went to the child: its result as it is, or the error of
    /// the failed call.
    pub fn reply<T>(outcome: Result<T, String>) -> (reply: Result<T, ErrorData>)
        ensures
            match outcome {
                Ok(result) => reply == Ok::<T, ErrorData>(result),
                Err(cause) => {
                    &&& reply is Err
                    &&& reply->Err_0@ == internal_error(CHILD_ERROR@, cause@)
                    &&& reply->Err_0.code == -32603
                    &&& reply->Err_0.message@ == "child server error: "@ + cause@
                    &&& reply->Err_0.data is None
                },
            },
    {
        match outcome {
            Ok(result) => Ok(result),
            Err(cause) => Err(Self::child_error(cause.as_str())),
        }
    }

    /// Takes a notification of the client: learns the session id from it, tells what to
    /// tag its log lines with, and whom to hand its parameters to, if anyone. A
    /// notification is never answered.
    pub fn accept_notification<'a, Q>(
        &'a mut self,
        notification: &ClientNotification,
        params: Q,
        extensions: &rmcp::model::Extensions,
    ) -> (accepted: (SpanFields, Option<Forward<'a, P, Q>>))
        ensures
            final(self).has_seen(*old(self), *extensions),
            text_of(accepted.0.session_id) == text_of(final(self).session_id@),
            accepted.0.pid == known_pid(old(self).inner@),
            final(self).command == old(self).command,
            final(self).inner == old(self).inner,
            final(self).spawning == old(self).spawning,
            old(self).session_id@ is Some ==> final(self).session_id == old(self).session_id,
            old(self).session_id@ is None ==> match carried_id(extension_headers(*extensions)) {
                Some(id) => final(self).session_id@ is Some && final(self).session_id@->0@ == id,
                None => final(self).session_id@ is None,
            },
            accepted.0.session_id is Some <==> final(self).session_id@ is Some,
            accepted.0.session_id is Some ==> accepted.0.session_id->0@ == final(self).session_id@->0@,
            old(self).inner@ is Some ==> accepted.0.pid == old(self).inner@->0.child_pid,
            old(self).inner@ is None ==> accepted.0.pid is None,
            match notification_route(old(self).inner@, *notification) {
                Some(peer) => {
                    &&& accepted.1 is Some
                    &&& *accepted.1->0.peer == peer
                    &&& accepted.1->0.params == params
                },
                None => accepted.1 is None,
            },
            accepted.1 is Some <==> old(self).inner@ is Some && (*notification is Cancelled
                || *notification is Progress || *notification is RootsListChanged),
            accepted.1 is Some ==> {
                &&& *accepted.1->0.peer == old(self).inner@->0.peer
                &&& accepted.1->0.params == params
            },
    {
        let fields: SpanFields = self.record_session(extensions);
        let route: Option<Forward<'a, P, Q>> = match notification {
            ClientNotification::Initialized | ClientNotification::Custom => None,
            _ => match self.inner.get() {
                Some(child) => Some(Forward { peer: &child.peer, params }),
                None => None,
            },
        };
        (fields, route)
    }
}

/// The session id that is known after a number of messages.
pub open spec fn known_id_after(known: Option<Seq<char>>, carried: Seq<Option<Seq<char>>>) -> Option<
    Seq<char>,
>
    decreases carried.len(),
{
    if carried.len() == 0 {
        known
    } else {
        known_id(known_id_after(known, carried.drop_last()), carried.last())
    }
}

/// The session id is the one that the first message with an id carried. Later
/// messages do not change it, whatever they carry, and ahead of that message none is
/// known.
pub proof fn law_session_id_is_the_first_carried(carried: Seq<Option<Seq<char>>>, first: int)
    requires
        0 <= first <= carried.len(),
        forall|i: int| 0 <= i < first ==> #[trigger] carried[i] is None,
        first < carried.len() ==> carried[first] is Some,
    ensures
        first < carried.len() ==> known_id_after(None, carried) == carried[first],
        first == carried.len() ==> known_id_after(None, carried) is None,
    decreases carried.len(),
{
    if carried.len() > 0 {
        let before = carried.drop_last();
        if first == carried.len() {
            law_session_id_is_the_first_carried(before, before.len() as int);
        } else {
            law_session_id_is_the_first_carried(before, first);
        }
    }
}

/// The slot of a session after a number of calls.
pub open spec fn slot_after_all<P>(slot: ChildSlot<P>, calls: Seq<SpawnCall<P>>) -> ChildSlot<P>
    decreases calls.len(),
{
    if calls.len() == 0 {
        slot
    } else {
        slot_after(slot_after_all(slot, calls.drop_last()), calls.last())
    }
}

/// Whether the command is handed out at this call of the calls of a session.
pub open spec fn is_granted<P>(calls: Seq<SpawnCall<P>>, k: int) -> bool {
    calls[k] is Ask && is_free(slot_after_all(fresh_slot(), calls.take(k)))
}

/// The command is spawned once per session: whatever the calls, also where those of
/// several `initialize` requests overlap, it is never handed out while a child is there
/// or being spawned. It is handed out again only after a spawn failed in between, and
/// not at all once a child has connected.
pub proof fn law_one_child_per_session<P>(calls: Seq<SpawnCall<P>>, first: int, again: int)
    requires
        0 <= first < again < calls.len(),
        is_granted(calls, first),
        is_granted(calls, again),
    ensures
        exists|k: int| first < k < again && #[trigger] calls[k] is Failed,
        forall|k: int| 0 <= k < again ==> !(#[trigger] calls[k] is Connected),
{
    if forall|k: int| first < k < again ==> !(#[trigger] calls[k] is Failed) {
        lemma_slot_is_taken(calls, first, again);
    }
    assert forall|k: int| 0 <= k < again implies !(#[trigger] calls[k] is Connected) by {
        if calls[k] is Connected {
            lemma_child_is_there(calls, k, again);
        }
    }
}

/// A session that has a child keeps it through all calls, and the command is not handed
/// out.
pub proof fn law_child_is_kept<P>(slot: ChildSlot<P>, calls: Seq<SpawnCall<P>>)
    requires
        slot.child is Some,
    ensures
        slot_after_all(slot, calls) == slot,
        !is_free(slot_after_all(slot, calls)),
    decreases calls.len(),
{
    if calls.len() > 0 {
        law_child_is_kept(slot, calls.drop_last());
    }
}

/// Once the command is handed out the slot is not free, as long as no spawn failed.
proof fn lemma_slot_is_taken<P>(calls: Seq<SpawnCall<P>>, granted: int, now: int)
    requires
        0 <= granted < now <= calls.len(),
        is_granted(calls, granted),
        forall|k: int| granted < k < now ==> !(#[trigger] calls[k] is Failed),
    ensures
        !is_free(slot_after_all(fresh_slot(), calls.take(now))),
    decreases now,
{
    assert(calls.take(now).drop_last() =~= calls.take(now - 1));
    if granted < now - 1 {
        lemma_slot_is_taken(calls, granted, now - 1);
        assert(!(calls[now - 1] is Failed));
    }
}

/// Once a child has connected there is a child.
proof fn lemma_child_is_there<P>(calls: Seq<SpawnCall<P>>, connected: int, now: int)
    requires
        0 <= connected < now <= calls.len(),
        calls[connected] is Connected,
    ensures
        slot_after_all(fresh_slot(), calls.take(now)).child is Some,
    decreases now,
{
    assert(calls.take(now).drop_last() =~= calls.take(now - 1));
    if connected < now - 1 {
        lemma_child_is_there(calls, connected, now - 1);
    }
}

/// Ahead of a completed `initialize`, every request of MCP is refused as one of a
/// session that is not initialized, and every notification is dropped.
pub proof fn law_nothing_passes_before_initialize<P>(
    request: ClientRequest,
    notification: ClientNotification,
)
    requires
        !(request is Custom),
    ensures
        request_route::<P>(None, request) == Err::<P, ErrorModel>(
            plain_error(INTERNAL_ERROR, NOT_INITIALIZED@),
        ),
        notification_route::<P>(None, notification) is None,
{
}

/// After a completed `initialize`, every request of MCP goes to the child that it was
/// completed with, and so do the notifications about cancellation, progress and roots;
/// a later `initialize` does not redirect them.
pub proof fn law_all_passes_after_initialize<P, B>(
    slot: ChildSlot<P>,
    child: ConnectedChild<P, B>,
    later: Seq<SpawnCall<P>>,
    request: ClientRequest,
    notification: ClientNotification,
)
    requires
        slot.child is None,
        !(request is Custom),
        notification is Cancelled || notification is Progress || notification is RootsListChanged,
    ensures
        ({
            let inner = slot_after_all(slot_after(slot, completion(Ok(child))), later).child;
            &&& request_route(inner, request) == Ok::<P, ErrorModel>(child.peer)
            &&& notification_route(inner, notification) == Some(child.peer)
            &&& known_pid(inner) == child.pid
        }),
{
    law_child_is_kept(slot_after(slot, completion(Ok(child))), later);
}

/// A request that is not part of MCP is answered with "method not found" in every
/// state, and a notification that is not part of MCP goes nowhere.
pub proof fn law_custom_messages_are_not_proxied<P>(
    inner: Option<ProxyInner<P>>,
    method: String,
)
    ensures
        request_route(inner, ClientRequest::Custom { method }) == Err::<P, ErrorModel>(
            custom_method_error(method@),
        ),
        custom_method_error(method@).code == METHOD_NOT_FOUND,
        notification_route(inner, ClientNotification::Custom) is None,
{
}

/// The client is told exactly what the child said of itself, under the proxy's name:
/// what `initialize` answers does not depend on the name and version that the child
/// gave.
pub proof fn law_capabilities_are_those_of_the_child<P, B>(
    child: ConnectedChild<P, B>,
    other: ConnectedChild<P, B>,
    peer: P,
    pid: Option<u32>,
    told: InitializeResult<B>,
    renamed: InitializeResult<B>,
    fallback: B,
)
    requires
        child.stands_for(peer, Some(told), fallback, pid),
        other.stands_for(peer, Some(renamed), fallback, pid),
        told.body == renamed.body,
    ensures
        child.init_result.body == told.body,
        is_proxy_info(child.init_result.server_info),
        child.init_result.body == other.init_result.body,
        child.init_result.server_info.name@ == other.init_result.server_info.name@,
        child.init_result.server_info.version@ == other.init_result.server_info.version@,
{
}

/// Nothing of the configured command is lost or reordered: the program followed by
/// its arguments is the command.
pub proof fn law_spawned_command_is_the_configured_one(
    configured: Seq<String>,
    spawned: SpawnCommand,
)
    requires
        configured.len() > 0,
        spawned.program@ == configured[0]@,
        texts_of(spawned.args@) == texts_of(configured).drop_first(),
    ensures
        seq![spawned.program@] + texts_of(spawned.args@) == texts_of(configured),
{
    assert(seq![spawned.program@] + texts_of(spawned.args@) =~= texts_of(configured));
}

/// Everything behind the first `--` of the command line is spawned for a session, as
/// program and arguments, in order, and nothing else is.
pub proof fn law_what_stands_behind_the_separator_is_spawned(
    argv: Seq<Seq<char>>,
    configured: Seq<String>,
    spawned: SpawnCommand,
)
    requires
        configured.len() > 0,
        texts_of(configured) == after_escape(words_of(argv)),
        spawned.program@ == configured[0]@,
        texts_of(spawned.args@) == texts_of(configured).drop_first(),
    ensures
        seq![spawned.program@] + texts_of(spawned.args@) == after_escape(words_of(argv)),
{
    law_spawned_command_is_the_configured_one(configured, spawned);
}

/// The id that is known is the one that was known, whatever a message carries; where none
/// was, it is the one that the message carries, whatever it is, or still none.
pub proof fn law_known_id_is_kept_or_learned(
    known: Seq<char>,
    carried: Option<Seq<char>>,
    learned: Seq<char>,
)
    ensures
        known_id(Some(known), carried) == Some(known),
        known_id(None, Some(learned)) == Some(learned),
        known_id(None, None) is None,
{
}

/// A child goes into the slot as it is, and only into a free place: handle and process id
/// are those of the child that connected, and the command is taken as soon as it is
/// handed out, and free again as soon as the spawn failed.
pub proof fn law_slot_holds_the_connected_child<P, B>(
    child: ConnectedChild<P, B>,
    there: ProxyInner<P>,
    spawning: bool,
    error: ErrorData,
)
    ensures
        ({
            let empty = ChildSlot::<P> { child: None, spawning };
            let spawned: Result<ConnectedChild<P, B>, ErrorData> = Ok(child);
            let failed: Result<ConnectedChild<P, B>, ErrorData> = Err(error);
            let kept = slot_after(empty, completion(spawned));
            &&& kept.child is Some
            &&& kept.child->0.peer == child.peer
            &&& kept.child->0.child_pid == child.pid
            &&& known_pid(kept.child) == child.pid
            &&& !kept.spawning
            &&& slot_after(empty, completion(failed)).child is None
            &&& !slot_after(empty, completion(failed)).spawning
            &&& slot_after(empty, SpawnCall::Ask).child is None
            &&& slot_after(empty, SpawnCall::Ask).spawning
            &&& is_free(empty) == !spawning
            &&& !is_free(ChildSlot { child: Some(there), spawning })
            &&& known_pid(Some(there)) == there.child_pid
            &&& known_pid::<P>(None) is None
        }),
{
}

/// The answer to a method that is not part of MCP names the method, so that different
/// methods are answered differently.
pub proof fn law_custom_method_is_named(method: Seq<char>, other: Seq<char>)
    ensures
        custom_method_error(method).code == -32601,
        custom_method_error(method).message == "custom method '"@ + method
            + "' cannot be proxied"@,
        custom_method_error(method).data is None,
        custom_method_error(method) == custom_method_error(other) ==> method == other,
{
    reveal_strlit("custom method '");
    reveal_strlit("' cannot be proxied");
    let start = "custom method '"@;
    let end = "' cannot be proxied"@;
    if custom_method_error(method) == custom_method_error(other) {
        assert((start + method + end).len() == start.len() + method.len() + end.len());
        assert((start + other + end).len() == start.len() + other.len() + end.len());
        assert((start + method + end).subrange(
            start.len() as int,
            (start.len() + method.len()) as int,
        ) =~= method);
        assert((start + other + end).subrange(
            start.len() as int,
            (start.len() + method.len()) as int,
        ) =~= other);
    }
}

} // verus!
