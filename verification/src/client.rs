//! The client's side of a call.
//!
//! A call is made in two steps around the transport: `start_call` gives the
//! frame to send, `finish_call` takes what came back. At most one request is
//! in flight at a time.

use crate::channel::{frame, receive_frame, reception, reports, send_frame, Reception};
use crate::error::{Error, ErrorView, Violation, ViolationView};
use crate::json::{optional_view, Json, JsonNumber, JsonView};
use crate::message::optional_params_view;
use crate::message::{Message, MessageView, Params, ParamsView, RequestView, Type, TypeView};
use crate::message::VERSION;
use vstd::prelude::*;

verus! {

/// A client: the counter from which its request ids come.
pub struct Client {
    request_counter: u64,
    pending: Option<u64>,
}

/// The request that a client sends to call `method`: of the supported
/// version, with `id` as its id.
pub open spec fn call_request(
    method: Seq<char>,
    params: Option<ParamsView>,
    id: u64,
) -> MessageView {
    MessageView {
        version: VERSION@,
        body: TypeView::Request(
            RequestView { method, params, id: Some(JsonView::Number(JsonNumber::PosInt(id))) },
        ),
    }
}

/// What a call comes to when `m` is received in return, where `pending` is
/// the id of the request in flight, if there is one. In this order: a
/// message of another version is a protocol failure; so is a request; so is a
/// response whose id is not that of the request in flight. A response with an
/// error is a failure that carries it. Any other response gives its result,
/// which may be absent.
pub open spec fn call_outcome(pending: Option<u64>, m: MessageView) -> Result<
    Option<JsonView>,
    ErrorView,
> {
    if m.version != VERSION@ {
        Err(ErrorView::Protocol(ViolationView::UnsupportedVersion(m.version)))
    } else {
        match m.body {
            TypeView::Request(request) => Err(
                ErrorView::Protocol(ViolationView::UnexpectedRequest(request)),
            ),
            TypeView::Response(response) => if !answers(response.id, pending) {
                Err(ErrorView::Protocol(ViolationView::UnexpectedResponseId(response.id)))
            } else {
                match response.error {
                    Some(e) => Err(ErrorView::RPC(e)),
                    None => Ok(response.result),
                }
            },
        }
    }
}

/// Whether a response with this id answers the request in flight: there is
/// one, and the id is the same non-negative integer.
pub open spec fn answers(id: JsonView, pending: Option<u64>) -> bool {
    pending is Some && id.as_u64() == pending
}

/// The view of what a call returns.
pub open spec fn outcome_view(r: Result<Option<Json>, Error>) -> Result<
    Option<JsonView>,
    ErrorView,
> {
    match r {
        Ok(result) => Ok(optional_view(result)),
        Err(e) => Err(e@),
    }
}

/// Judges the message received in return for the request in flight. See
/// `call_outcome`.
pub fn check_response(pending: Option<u64>, message: Message) -> (r: Result<Option<Json>, Error>)
    ensures
        outcome_view(r) == call_outcome(pending, message@),
{
    let supported = message.is_supported_version();
    let (version, body) = message.into_parts();
    if !supported {
        return Err(Error::Protocol(Violation::UnsupportedVersion(version)));
    }
    let response = match body {
        Type::Request(request) => {
            return Err(Error::Protocol(Violation::UnexpectedRequest(request)));
        },
        Type::Response(response) => response,
    };
    let answers = match (response.id().as_u64(), pending) {
        (Some(received), Some(sent)) => received == sent,
        _ => false,
    };
    if !answers {
        let (_, _, id) = response.into_parts();
        return Err(Error::Protocol(Violation::UnexpectedResponseId(id)));
    }
    match response.into_outcome() {
        Ok(result) => Ok(result),
        Err(e) => Err(Error::RPC(e)),
    }
}

impl Client {
    /// The id that the next request will have.
    pub closed spec fn next_id(&self) -> u64 {
        self.request_counter
    }

    /// The id of the request in flight, if there is one.
    pub closed spec fn pending(&self) -> Option<u64> {
        self.pending
    }

    /// A client that has made no call: its first request has id 0, and no
    /// request is in flight.
    pub fn new() -> (c: Client)
        ensures
            c.next_id() == 0,
            c.pending() is None,
    {
        Client { request_counter: 0, pending: None }
    }

    /// The id that the next request will have.
    #[verifier::when_used_as_spec(next_id)]
    pub fn request_counter(&self) -> (n: u64)
        ensures
            n == self.next_id(),
    {
        self.request_counter
    }

    /// The id of the request in flight, if there is one.
    #[verifier::when_used_as_spec(pending)]
    pub fn in_flight(&self) -> (id: Option<u64>)
        ensures
            id == self.pending(),
    {
        self.pending
    }

    /// Starts a call: takes the next id from the counter and returns the
    /// frame of the request to send. That request is then the one in flight;
    /// an earlier one that was not finished is given up. Where the request
    /// cannot be framed, none is in flight. The counter moves on either way.
    pub fn start_call(&mut self, method: &str, params: Option<Params>) -> (r: Result<
        Vec<u8>,
        Error,
    >)
        requires
            old(self).next_id() < u64::MAX,
        ensures
            final(self).next_id() == old(self).next_id() + 1,
            match frame(call_request(method@, optional_params_view(params), old(self).next_id())) {
                Some(bytes) => r matches Ok(out) && out@ == bytes && final(self).pending()
                    == Some(old(self).next_id()),
                None => r matches Err(e) && e@ is Serialization && final(self).pending() is None,
            },
    {
        let request_id = self.request_counter;
        self.request_counter = self.request_counter + 1;
        self.pending = None;
        let request = Message::make_request(method, params, Some(Json::unsigned(request_id)));
        let bytes = send_frame(request)?;
        self.pending = Some(request_id);
        Ok(bytes)
    }

    /// Finishes the call in flight with what was received in return: the
    /// bytes up to and including the next terminator, or up to the end of the
    /// stream. After that no request is in flight.
    pub fn finish_call(&mut self, received: &[u8]) -> (r: Result<Option<Json>, Error>)
        ensures
            final(self).next_id() == old(self).next_id(),
            final(self).pending() is None,
            match reception(received@) {
                Reception::Message(m) => outcome_view(r) == call_outcome(old(self).pending(), m),
                other => r matches Err(e) && reports(e@, other),
            },
    {
        let pending = self.pending;
        self.pending = None;
        let message = receive_frame(received)?;
        check_response(pending, message)
    }
}

/// A response whose id is not that of the request just sent is a protocol
/// failure, whatever else it holds.
pub proof fn lemma_wrong_id_is_protocol_failure(request_id: u64, m: MessageView)
    requires
        m.body matches TypeView::Response(response) && response.id.as_u64() != Some(request_id),
    ensures
        call_outcome(Some(request_id), m) matches Err(ErrorView::Protocol(_)),
{
}

/// A response with an error is a failure that carries that error, where the
/// response is of the supported version and answers the request just sent.
pub proof fn lemma_error_is_rpc_failure(request_id: u64, m: MessageView)
    requires
        m.version == VERSION@,
        m.body matches TypeView::Response(response) && response.id.as_u64() == Some(request_id)
            && response.error is Some,
    ensures
        call_outcome(Some(request_id), m) == Err::<Option<JsonView>, ErrorView>(
            ErrorView::RPC(m.body->Response_0.error->0),
        ),
{
}

} // verus!
