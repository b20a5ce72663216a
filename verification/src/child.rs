//! The client side of one session: what the proxy does with each message of its
//! child server.

use vstd::prelude::*;

use crate::error::{internal_error, ErrorData};
use crate::proxy::{Forward, ProxyHandler, CHILD_ERROR};
use crate::session::{text_of, SpanFields};

verus! {

/// How the error of a failed call to the upstream client begins.
pub const UPSTREAM_ERROR: &'static str = "upstream client error: ";

/// The client side of one session, which stands in for the upstream client: requests
/// and notifications of the child go to that client.
pub struct ChildClientHandler<U> {
    /// Handle to call the upstream client with.
    pub upstream: U,
}

impl<U> ChildClientHandler<U> {
    /// The client side of the session of this upstream client.
    pub fn new(upstream: U) -> (handler: Self)
        ensures
            handler.upstream == upstream,
    {
        ChildClientHandler { upstream }
    }

    /// The error of a failed call to the upstream client.
    pub fn upstream_error(cause: &str) -> (error: ErrorData)
        ensures
            error@ == internal_error(UPSTREAM_ERROR@, cause@),
            error.code == -32603,
            error.message@ == "upstream client error: "@ + cause@,
            error.data is None,
    {
        ErrorData::internal(UPSTREAM_ERROR, cause)
    }

    /// Tells what to tag the log lines about a message of the child with.
    ///
    /// Messages of the child carry no HTTP headers, so this is the id that the server
    /// side of the session has from a message of the client, once it has one.
    pub fn record_session<P>(&self, session: &ProxyHandler<P>) -> (fields: SpanFields)
        ensures
            text_of(fields.session_id) == text_of(session.session_id@),
            fields.session_id is Some <==> session.session_id@ is Some,
            session.session_id@ is Some ==> fields.session_id->0@ == session.session_id@->0@,
            fields.pid is None,
    {
        let known: Option<String> = match session.session_id.get() {
            Some(id) => Some(id.clone()),
            None => None,
        };
        SpanFields { session_id: known, pid: None }
    }

    /// Takes a request of the child: whatever it asks, the upstream client is asked.
    pub fn accept_request<'a, Q>(&'a self, params: Q) -> (forward: Forward<'a, U, Q>)
        ensures
            *forward.peer == self.upstream,
            forward.params == params,
    {
        Forward { peer: &self.upstream, params }
    }

    /// Answers a request that went to the upstream client: its result as it is, or the
    /// error of the failed call.
    pub fn reply<T>(outcome: Result<T, String>) -> (reply: Result<T, ErrorData>)
        ensures
            match outcome {
                Ok(result) => reply == Ok::<T, ErrorData>(result),
                Err(cause) => {
                    &&& reply is Err
                    &&& reply->Err_0@ == internal_error(UPSTREAM_ERROR@, cause@)
                    &&& reply->Err_0.code == -32603
                    &&& reply->Err_0.message@ == "upstream client error: "@ + cause@
                    &&& reply->Err_0.data is None
                },
            },
    {
        match outcome {
            Ok(result) => Ok(result),
            Err(cause) => Err(Self::upstream_error(cause.as_str())),
        }
    }

    /// Takes a notification of the child: tells what to tag its log lines with;
    /// whatever it tells, the upstream client is told.
    pub fn accept_notification<'a, P, Q>(
        &'a self,
        session: &ProxyHandler<P>,
        params: Q,
    ) -> (accepted: (SpanFields, Forward<'a, U, Q>))
        ensures
            text_of(accepted.0.session_id) == text_of(session.session_id@),
            accepted.0.session_id is Some <==> session.session_id@ is Some,
            session.session_id@ is Some ==> accepted.0.session_id->0@ == session.session_id@->0@,
            accepted.0.pid is None,
            *accepted.1.peer == self.upstream,
            accepted.1.params == params,
    {
        (self.record_session(session), Forward { peer: &self.upstream, params })
    }
}

/// The side that failed can be told from the message: an error of the child and one
/// of the upstream client have the same code and differ in their message, whatever
/// the causes.
pub proof fn law_failed_side_is_told_apart(child_cause: Seq<char>, upstream_cause: Seq<char>)
    ensures
        internal_error(CHILD_ERROR@, child_cause).code == internal_error(
            UPSTREAM_ERROR@,
            upstream_cause,
        ).code,
        internal_error(CHILD_ERROR@, child_cause).message != internal_error(
            UPSTREAM_ERROR@,
            upstream_cause,
        ).message,
{
    reveal_strlit("child server error: ");
    reveal_strlit("upstream client error: ");
    assert((CHILD_ERROR@ + child_cause)[0] == 'c');
    assert((UPSTREAM_ERROR@ + upstream_cause)[0] == 'u');
}

} // verus!
