//! The server's side of a call.
//!
//! A server is a table of handlers by method name. What it does with one
//! connection is `handle`: it reads the frame that was received, checks it,
//! calls the handler and frames the response. The transport is not in this
//! module: whoever owns the listener reads the frame and writes the response.

use crate::channel::{frame, receive_frame, reception, reports, send_frame, Reception};
use crate::client::{call_outcome, call_request};
use crate::error::ErrorView;
use crate::journal::{lines, log};
use crate::json::{lemma_position, optional_view, position, Json, JsonNumber, JsonView};
use crate::message::{optional_params_view, METHOD_NOT_FOUND, VERSION};
use crate::message::{Message, MessageView, Params, ParamsView, Request, RequestView};
use crate::message::ResponseView;
use crate::message::{RpcErrorView, Type, TypeView};
use vstd::prelude::*;
use vstd::string::StringExecFns;

verus! {

/// What answers the calls of one method: given the parameters of a request,
/// if it has any, it returns a result, which may be absent, or fails with an
/// error object. It answers every call: nothing is required of the
/// parameters.
pub trait Handler {
    /// Answers one call.
    fn invoke(&self, params: Option<&Params>) -> Result<Option<Json>, crate::message::Error>;
}

/// A server: its handlers, each under the name of its method. No name occurs
/// twice.
pub struct Server<H: Handler> {
    handlers: Vec<(String, H)>,
}

/// The names of these handlers, in order.
pub open spec fn handler_names<H>(entries: Seq<(String, H)>) -> Seq<Seq<char>> {
    entries.map_values(|entry: (String, H)| entry.0@)
}

/// The handler registered for `method` among `entries`: the last of that
/// name, as in a map that is filled with the entries in their order.
pub open spec fn registered<H>(entries: Seq<(String, H)>, method: Seq<char>) -> Option<H> {
    match position(handler_names(entries), method) {
        Some(i) => Some(entries[i].1),
        None => None,
    }
}

/// What the server makes of a message before it looks for a handler. A
/// message of another version, a response, and a request without an id (a
/// notification) are each turned away with a line for the journal. A request
/// with an id goes on, whatever document the id is: `null` is an id.
pub open spec fn validate_message(m: MessageView) -> Result<RequestView, Seq<char>> {
    if m.version != VERSION@ {
        Err("Unexpected version: "@ + m.version)
    } else {
        match m.body {
            TypeView::Response(_) => Err("Unexpected message type"@),
            TypeView::Request(request) => match request.id {
                None => Err("Unexpected notification"@),
                Some(_) => Ok(request),
            },
        }
    }
}

/// The response to the request `id`, given what the handler returned or the
/// error found in its place.
pub open spec fn reply(
    outcome: Result<Option<JsonView>, RpcErrorView>,
    id: JsonView,
) -> MessageView {
    MessageView {
        version: VERSION@,
        body: TypeView::Response(
            match outcome {
                Ok(result) => ResponseView { result, error: None, id },
                Err(e) => ResponseView { result: None, error: Some(e), id },
            },
        ),
    }
}

/// The error that stands in for the result of a method that has no handler.
pub open spec fn not_found() -> RpcErrorView {
    RpcErrorView::standard(METHOD_NOT_FOUND, "Method not found"@)
}

/// The view of what a handler returns.
pub open spec fn handled_view(outcome: Result<Option<Json>, crate::message::Error>) -> Result<
    Option<JsonView>,
    RpcErrorView,
> {
    match outcome {
        Ok(result) => Ok(optional_view(result)),
        Err(e) => Err(e@),
    }
}

/// Optional parameters as a handler takes them.
pub open spec fn borrowed(params: &Option<Params>) -> Option<&Params> {
    match params {
        Some(p) => Some(p),
        None => None,
    }
}

/// Whether `r` is what sending `m` comes to: its frame, or a serialization
/// error where it has none.
pub open spec fn sends(r: Result<Option<Vec<u8>>, crate::Error>, m: MessageView) -> bool {
    match frame(m) {
        Some(bytes) => r matches Ok(Some(out)) && out@ == bytes,
        None => r matches Err(e) && e@ is Serialization,
    }
}

/// Checks a message that was received. See `validate_message`.
pub fn validate(message: Message) -> (r: Result<Request, String>)
    ensures
        match validate_message(message@) {
            Ok(request) => r matches Ok(found) && found@ == request && found.id is Some,
            Err(line) => r matches Err(text) && text@ == line,
        },
{
    let supported = message.is_supported_version();
    let (version, body) = message.into_parts();
    if !supported {
        let mut line = "Unexpected version: ".to_owned();
        line.append(version.as_str());
        return Err(line);
    }
    match body {
        Type::Response(_) => Err("Unexpected message type".to_owned()),
        Type::Request(request) => {
            if request.id.is_none() {
                Err("Unexpected notification".to_owned())
            } else {
                Ok(request)
            }
        },
    }
}

/// Builds the response to the request `id`. See `reply`.
pub fn respond(outcome: Result<Option<Json>, crate::message::Error>, id: Json) -> (m: Message)
    ensures
        m@ == reply(handled_view(outcome), id@),
{
    match outcome {
        Ok(result) => Message::make_response(result, id),
        Err(e) => Message::make_error_response(e, id),
    }
}

/// The position of the handler registered for `method` among `entries`.
fn find<H>(entries: &Vec<(String, H)>, method: &str) -> (r: Option<usize>)
    ensures
        match r {
            Some(i) => i < entries@.len() && position(handler_names(entries@), method@) == Some(
                i as int,
            ),
            None => position(handler_names(entries@), method@) is None,
        },
{
    let ghost names = handler_names(entries@);
    let wanted = method.to_owned();
    let mut i: usize = entries.len();
    assert(names.subrange(0, i as int) =~= names);
    while i > 0
        invariant
            i <= entries@.len(),
            wanted@ == method@,
            names == handler_names(entries@),
            position(names, method@) == position(names.subrange(0, i as int), method@),
        decreases i,
    {
        i -= 1;
        assert(names.subrange(0, i + 1).last() == entries@[i as int].0@);
        assert(names.subrange(0, i + 1).drop_last() =~= names.subrange(0, i as int));
        if entries[i].0 == wanted {
            return Some(i);
        }
    }
    None
}

/// Names that differ from one another still do once a name that is not
/// among them is added.
pub proof fn lemma_new_name(names: Seq<Seq<char>>, name: Seq<char>)
    requires
        names.no_duplicates(),
        position(names, name) is None,
    ensures
        names.push(name).no_duplicates(),
{
    lemma_position(names, name);
    let more = names.push(name);
    assert forall|i: int, j: int|
        0 <= i < more.len() && 0 <= j < more.len() && i != j implies more[i] != more[j] by {
        if i < names.len() {
            assert(more[i] == names[i]);
        }
        if j < names.len() {
            assert(more[j] == names[j]);
        }
    }
}

/// The handler registered for a name is the last entry where that has the
/// name, else the one registered among the entries before it.
pub proof fn lemma_registered_last<H>(entries: Seq<(String, H)>, method: Seq<char>)
    requires
        entries.len() > 0,
    ensures
        registered(entries, method) == (if entries.last().0@ == method {
            Some(entries.last().1)
        } else {
            registered(entries.drop_last(), method)
        }),
{
    let names = handler_names(entries);
    assert(names.last() == entries.last().0@);
    assert(names.drop_last() =~= handler_names(entries.drop_last()));
    if names.last() != method {
        lemma_position(handler_names(entries.drop_last()), method);
    }
}

impl<H: Handler> Server<H> {
    /// The handlers, each with its name.
    pub closed spec fn handlers(&self) -> Seq<(String, H)> {
        self.handlers@
    }

    /// The names of the handlers.
    pub open spec fn names(&self) -> Seq<Seq<char>> {
        handler_names(self.handlers())
    }

    /// The handler registered for `method`, if there is one.
    pub open spec fn handler(&self, method: Seq<char>) -> Option<H> {
        registered(self.handlers(), method)
    }

    /// No name occurs twice among the handlers.
    #[verifier::type_invariant]
    pub closed spec fn well_formed(&self) -> bool {
        handler_names(self.handlers@).no_duplicates()
    }

    /// A server with these handlers. Where a name occurs more than once among
    /// them, the last handler of that name is the one registered, and the
    /// others are dropped.
    pub fn new(handlers: Vec<(String, H)>) -> (s: Server<H>)
        ensures
            s.names().no_duplicates(),
            forall|method: Seq<char>| #[trigger]
                s.handler(method) == registered(handlers@, method),
    {
        let mut rest = handlers;
        let mut table: Vec<(String, H)> = Vec::new();
        while rest.len() > 0
            invariant
                handler_names(table@).no_duplicates(),
                forall|method: Seq<char>| #[trigger]
                    registered(handlers@, method) == (match registered(table@, method) {
                        Some(h) => Some(h),
                        None => registered(rest@, method),
                    }),
            decreases rest.len(),
        {
            let ghost before = rest@;
            let ghost kept = table@;
            let entry = rest.pop().unwrap();
            let known = find(&table, entry.0.as_str());
            if known.is_none() {
                table.push(entry);
            }
            proof {
                assert(rest@ =~= before.drop_last());
                if known is None {
                    assert(handler_names(table@) =~= handler_names(kept).push(entry.0@));
                    lemma_new_name(handler_names(kept), entry.0@);
                }
                assert forall|method: Seq<char>| #[trigger]
                    registered(handlers@, method) == (match registered(table@, method) {
                        Some(h) => Some(h),
                        None => registered(rest@, method),
                    }) by {
                    lemma_registered_last(before, method);
                    if known is None {
                        assert(table@.drop_last() =~= kept);
                        lemma_registered_last(table@, method);
                    }
                    assert(registered(handlers@, method) == (match registered(kept, method) {
                        Some(h) => Some(h),
                        None => registered(before, method),
                    }));
                }
            }
        }
        Server { handlers: table }
    }

    /// The handler registered for `method`, if there is one.
    pub fn lookup(&self, method: &str) -> (r: Option<&H>)
        ensures
            match r {
                Some(h) => self.handler(method@) == Some(*h),
                None => self.handler(method@) is None,
            },
    {
        match find(&self.handlers, method) {
            Some(i) => Some(&self.handlers[i].1),
            None => None,
        }
    }

    /// Finds the handler registered for `method` and calls it with `params`.
    /// Where no handler is registered, that is logged, and the error "Method
    /// not found" stands in for what the handler would have returned.
    pub fn dispatch(
        &self,
        method: &str,
        params: Option<&Params>,
        journal: &mut Vec<String>,
    ) -> (r: Result<Option<Json>, crate::message::Error>)
        ensures
            match self.handler(method@) {
                Some(h) => call_ensures(H::invoke, (&h, params), r)
                    && final(journal)@ == old(journal)@,
                None => r matches Err(e) && e@ == not_found() && lines(final(journal)@) == lines(
                    old(journal)@,
                ).push("Method not found: "@ + method@),
            },
    {
        match self.lookup(method) {
            Some(handler) => handler.invoke(params),
            None => {
                let mut line = "Method not found: ".to_owned();
                line.append(method);
                log(journal, line.as_str());
                Err(crate::message::Error::method_not_found())
            },
        }
    }

    /// Whether `r` and the journal are what answering `request` comes to.
    /// Where no handler is registered for its method, that is logged and the
    /// response carries the error "Method not found". Where one is, nothing is
    /// logged and the response carries what the handler returned for the
    /// parameters of the request.
    pub open spec fn answers(
        &self,
        request: RequestView,
        r: Result<Option<Vec<u8>>, crate::Error>,
        before: Seq<String>,
        after: Seq<String>,
    ) -> bool {
        match self.handler(request.method) {
            None => lines(after) == lines(before).push("Method not found: "@ + request.method)
                && sends(r, reply(Err(not_found()), request.id->0)),
            Some(h) => after == before && exists|
                params: Option<Params>,
                outcome: Result<Option<Json>, crate::message::Error>,
            |
                optional_params_view(params) == request.params && call_ensures(
                    H::invoke,
                    (&h, borrowed(&params)),
                    outcome,
                ) && sends(r, reply(handled_view(outcome), request.id->0)),
        }
    }

    /// Serves one connection, given what was received on it: the bytes up to
    /// and including the first terminator, or up to the end of the stream.
    ///
    /// Returns the frame of the response to send, or `None` where the
    /// connection is to be closed without a response. Fails where no frame
    /// was received, where the frame holds no message, or where the response
    /// cannot be framed. Logs to the journal why a message was turned away,
    /// and which method was not found.
    pub fn handle(&self, received: &[u8], journal: &mut Vec<String>) -> (r: Result<
        Option<Vec<u8>>,
        crate::Error,
    >)
        ensures
            match reception(received@) {
                Reception::Message(m) => match validate_message(m) {
                    Err(line) => r matches Ok(None)
                        && lines(final(journal)@) == lines(old(journal)@).push(line),
                    Ok(request) => self.answers(request, r, old(journal)@, final(journal)@),
                },
                other => r matches Err(e) && reports(e@, other)
                    && final(journal)@ == old(journal)@,
            },
    {
        let message = receive_frame(received)?;
        let request = match validate(message) {
            Ok(found) => found,
            Err(line) => {
                log(journal, line.as_str());
                return Ok(None);
            },
        };
        let outcome = self.dispatch(request.method.as_str(), request.params.as_ref(), journal);
        let ghost params = request.params;
        let ghost returned = outcome;
        let response = respond(outcome, request.id.unwrap());
        let r = match send_frame(response) {
            Ok(bytes) => Ok(Some(bytes)),
            Err(e) => Err(e),
        };
        proof {
            if self.handler(request.method@) is Some {
                let h = self.handler(request.method@)->0;
                assert(optional_params_view(params) == request@.params && call_ensures(
                    H::invoke,
                    (&h, borrowed(&params)),
                    returned,
                ) && sends(r, reply(handled_view(returned), request@.id->0)));
            }
        }
        r
    }
}

/// No method has two handlers in a server: each name occurs once.
pub proof fn lemma_names_are_unique<H: Handler>(server: Server<H>)
    requires
        server.well_formed(),
    ensures
        server.names().no_duplicates(),
{
}

/// The server goes on with every request of the supported version that has
/// an id, whatever document the id is, and replies under that id.
pub proof fn lemma_request_with_id_goes_on(
    request: RequestView,
    outcome: Result<Option<JsonView>, RpcErrorView>,
)
    requires
        request.id is Some,
    ensures
        validate_message(MessageView { version: VERSION@, body: TypeView::Request(request) })
            == Ok::<RequestView, Seq<char>>(request),
        reply(outcome, request.id->0).body->Response_0.id == request.id->0,
{
}

/// The server goes on with every request that a client sends: it is of the
/// supported version and has an id.
pub proof fn lemma_call_is_valid(method: Seq<char>, params: Option<ParamsView>, id: u64)
    ensures
        validate_message(call_request(method, params, id)) == Ok::<RequestView, Seq<char>>(
            call_request(method, params, id).body->Request_0,
        ),
{
}

/// The client takes the reply to the request in flight for what the handler
/// returned: its result as the result of the call, its error as the error
/// that the call fails with.
pub proof fn lemma_reply_is_accepted(id: u64, outcome: Result<Option<JsonView>, RpcErrorView>)
    ensures
        call_outcome(Some(id), reply(outcome, JsonView::Number(JsonNumber::PosInt(id))))
            == (match outcome {
            Ok(result) => Ok(result),
            Err(e) => Err(ErrorView::RPC(e)),
        }),
{
}

} // verus!
