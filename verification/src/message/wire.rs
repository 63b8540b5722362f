//! How a message is laid out as a JSON document, and how a document is read
//! as a message.
//!
//! `message_json` is the layout, `decode_message` the reading. The functions
//! that build and read documents are proved against them, and the laws at the
//! end say how the two go together.

use crate::codec::{json_parse, json_text, parse, print};
use crate::error::ErrorView;
use crate::json::{lemma_member_concat, lemma_member_single, lemma_members_view};
use crate::json::{member, members_view, nullable, optional_view, push_member, take_member};
use crate::json::{Json, JsonNumber, JsonView};
use crate::message::{optional_error_view, optional_params_view};
use crate::message::{Error, Message, Params, Request, Response, Type};
use crate::message::{MessageView, ParamsView, RequestView, ResponseView, RpcErrorView, TypeView};
use vstd::prelude::*;

verus! {

/// What a decoder reports for a document that is neither a request nor a
/// response.
pub const MISMATCH: &'static str = "data is neither a request nor a response";

/// One member where there is a value, none where there is not.
pub open spec fn optional_member(name: Seq<char>, value: Option<JsonView>) -> Seq<
    (Seq<char>, JsonView),
> {
    match value {
        Some(v) => seq![(name, v)],
        None => seq![],
    }
}

/// Parameters as a document: an array by position, an object by name.
pub open spec fn params_json(p: ParamsView) -> JsonView {
    match p {
        ParamsView::ByPosition(items) => JsonView::Array(items),
        ParamsView::ByName(members) => JsonView::Object(members),
    }
}

/// Optional parameters as an optional document.
pub open spec fn optional_params_json(p: Option<ParamsView>) -> Option<JsonView> {
    match p {
        Some(params) => Some(params_json(params)),
        None => None,
    }
}

/// An error object as a document: `code`, `message` and, where there is
/// any, `data`.
pub open spec fn error_json(e: RpcErrorView) -> JsonView {
    JsonView::Object(
        seq![
            ("code"@, JsonView::Number(JsonNumber::spec_from_i64(e.code))),
            ("message"@, JsonView::String(e.message)),
        ] + optional_member("data"@, e.data),
    )
}

/// An optional error object as an optional document.
pub open spec fn optional_error_json(e: Option<RpcErrorView>) -> Option<JsonView> {
    match e {
        Some(error) => Some(error_json(error)),
        None => None,
    }
}

/// The members of a request: `method` and, where there are any, `params`
/// and `id`.
pub open spec fn request_members(r: RequestView) -> Seq<(Seq<char>, JsonView)> {
    seq![("method"@, JsonView::String(r.method))] + optional_member(
        "params"@,
        optional_params_json(r.params),
    ) + optional_member("id"@, r.id)
}

/// The members of a response: `result` or `error`, where there is one, and
/// `id`.
pub open spec fn response_members(r: ResponseView) -> Seq<(Seq<char>, JsonView)> {
    optional_member("result"@, r.result) + optional_member(
        "error"@,
        optional_error_json(r.error),
    ) + seq![("id"@, r.id)]
}

/// A message as a document: `jsonrpc`, then the members of the request or of
/// the response.
pub open spec fn message_json(m: MessageView) -> JsonView {
    JsonView::Object(
        seq![("jsonrpc"@, JsonView::String(m.version))] + (match m.body {
            TypeView::Request(r) => request_members(r),
            TypeView::Response(r) => response_members(r),
        }),
    )
}

/// The parameters that a `params` member stands for. A missing member and
/// `null` stand for none, an array for parameters by position, an object for
/// parameters by name. Anything else is an error.
pub open spec fn decode_params(m: Option<JsonView>) -> Result<Option<ParamsView>, ()> {
    match m {
        None => Ok(None),
        Some(JsonView::Null) => Ok(None),
        Some(JsonView::Array(items)) => Ok(Some(ParamsView::ByPosition(items))),
        Some(JsonView::Object(members)) => Ok(Some(ParamsView::ByName(members))),
        Some(_) => Err(()),
    }
}

/// The error object that an `error` member stands for. A missing member and
/// `null` stand for none. An object stands for an error object where its
/// `code` is an integer in the range of `i64` and its `message` a string; its
/// `data` may be missing or `null`. Anything else is an error.
pub open spec fn decode_error(m: Option<JsonView>) -> Result<Option<RpcErrorView>, ()> {
    match m {
        None => Ok(None),
        Some(JsonView::Null) => Ok(None),
        Some(JsonView::Object(members)) => match (
            member(members, "code"@),
            member(members, "message"@),
        ) {
            (Some(JsonView::Number(n)), Some(JsonView::String(text))) => match n.spec_as_i64() {
                Some(code) => Ok(
                    Some(
                        RpcErrorView {
                            code,
                            message: text,
                            data: nullable(member(members, "data"@)),
                        },
                    ),
                ),
                None => Err(()),
            },
            _ => Err(()),
        },
        Some(_) => Err(()),
    }
}

/// The request that the members `method`, `params` and `id` stand for: there
/// is one where `method` is a string and `params` stands for parameters. Its
/// id is the `id` member as it is, `null` too; it has none only where the
/// member is missing.
pub open spec fn decode_request(
    method: Option<JsonView>,
    params: Option<JsonView>,
    id: Option<JsonView>,
) -> Option<RequestView> {
    match (method, decode_params(params)) {
        (Some(JsonView::String(name)), Ok(p)) => Some(
            RequestView { method: name, params: p, id },
        ),
        _ => None,
    }
}

/// The response that the members `result`, `error` and `id` stand for: there
/// is one where `id` is present, `error` stands for an error object or for
/// none, and `result` and `error` are not both there.
pub open spec fn decode_response(
    result: Option<JsonView>,
    error: Option<JsonView>,
    id: Option<JsonView>,
) -> Option<ResponseView> {
    match (id, decode_error(error)) {
        (Some(id), Ok(e)) => if nullable(result) is Some && e is Some {
            None
        } else {
            Some(ResponseView { result: nullable(result), error: e, id })
        },
        _ => None,
    }
}

/// What the members of an object stand for: a request where they make one,
/// else a response where they make one.
pub open spec fn decode_body(members: Seq<(Seq<char>, JsonView)>) -> Option<TypeView> {
    match decode_request(
        member(members, "method"@),
        member(members, "params"@),
        member(members, "id"@),
    ) {
        Some(r) => Some(TypeView::Request(r)),
        None => match decode_response(
            member(members, "result"@),
            member(members, "error"@),
            member(members, "id"@),
        ) {
            Some(r) => Some(TypeView::Response(r)),
            None => None,
        },
    }
}

/// The message that a document stands for: there is one where the document
/// is an object whose `jsonrpc` is a string and whose members make a request
/// or a response. The version is not looked at.
pub open spec fn decode_message(doc: JsonView) -> Option<MessageView> {
    match doc {
        JsonView::Object(members) => match (member(members, "jsonrpc"@), decode_body(members)) {
            (Some(JsonView::String(version)), Some(body)) => Some(MessageView { version, body }),
            _ => None,
        },
        _ => None,
    }
}

/// Adds the member `name` at the end of `members` where there is a value
/// for it.
fn push_optional(members: &mut Vec<(String, Json)>, name: &str, value: Option<Json>)
    ensures
        members_view(*final(members)) == members_view(*old(members)) + optional_member(
            name@,
            optional_view(value),
        ),
{
    match value {
        Some(v) => push_member(members, name, v),
        None => {},
    }
}

impl From<Params> for Json {
    /// Parameters by position become an array, parameters by name an object.
    fn from(params: Params) -> (doc: Json) {
        match params {
            Params::ByPosition(items) => Json::Array(items),
            Params::ByName(members) => Json::Object(members),
        }
    }
}

impl vstd::std_specs::convert::FromSpecImpl<Params> for Json {
    open spec fn obeys_from_spec() -> bool {
        true
    }

    open spec fn from_spec(params: Params) -> Json {
        match params {
            Params::ByPosition(items) => Json::Array(items),
            Params::ByName(members) => Json::Object(members),
        }
    }
}

impl Params {
    /// The document that stands for the parameters.
    pub fn into_json(self) -> (doc: Json)
        ensures
            doc@ == params_json(self@),
    {
        Json::from(self)
    }
}

impl Error {
    /// The document that stands for the error object.
    pub fn into_json(self) -> (doc: Json)
        ensures
            doc@ == error_json(self@),
    {
        let mut members: Vec<(String, Json)> = Vec::new();
        push_member(&mut members, "code", Json::Number(JsonNumber::from_i64(self.code)));
        push_member(&mut members, "message", Json::String(self.message));
        push_optional(&mut members, "data", self.data);
        let doc = Json::Object(members);
        assert(members_view(members) =~= error_json(self@)->Object_0);
        doc
    }
}

impl Request {
    /// The members that stand for the request, added at the end of `members`.
    fn into_members(self, members: &mut Vec<(String, Json)>)
        ensures
            members_view(*final(members)) == members_view(*old(members)) + request_members(self@),
    {
        let params = match self.params {
            Some(p) => Some(p.into_json()),
            None => None,
        };
        push_member(members, "method", Json::String(self.method));
        push_optional(members, "params", params);
        push_optional(members, "id", self.id);
    }
}

impl Response {
    /// The members that stand for the response, added at the end of
    /// `members`.
    fn into_members(self, members: &mut Vec<(String, Json)>)
        ensures
            members_view(*final(members)) == members_view(*old(members)) + response_members(
                self@,
            ),
    {
        let error = match self.error {
            Some(e) => Some(e.into_json()),
            None => None,
        };
        push_optional(members, "result", self.result);
        push_optional(members, "error", error);
        push_member(members, "id", self.id);
    }
}

impl Message {
    /// The document that stands for the message.
    pub fn into_json(self) -> (doc: Json)
        ensures
            doc@ == message_json(self@),
    {
        let mut members: Vec<(String, Json)> = Vec::new();
        push_member(&mut members, "jsonrpc", Json::String(self.jsonrpc));
        match self.type_ {
            Type::Request(r) => r.into_members(&mut members),
            Type::Response(r) => r.into_members(&mut members),
        }
        let doc = Json::Object(members);
        assert(members_view(members) =~= message_json(self@)->Object_0);
        doc
    }
}

/// The names of the members of a message differ from one another, and so do
/// those of an error object.
pub proof fn lemma_names_differ()
    ensures
        "jsonrpc"@ != "method"@,
        "jsonrpc"@ != "params"@,
        "jsonrpc"@ != "id"@,
        "jsonrpc"@ != "result"@,
        "jsonrpc"@ != "error"@,
        "method"@ != "params"@,
        "method"@ != "id"@,
        "method"@ != "result"@,
        "method"@ != "error"@,
        "params"@ != "id"@,
        "params"@ != "result"@,
        "params"@ != "error"@,
        "id"@ != "result"@,
        "id"@ != "error"@,
        "result"@ != "error"@,
        "code"@ != "message"@,
        "code"@ != "data"@,
        "message"@ != "data"@,
{
    reveal_strlit("jsonrpc");
    reveal_strlit("method");
    reveal_strlit("params");
    reveal_strlit("id");
    reveal_strlit("result");
    reveal_strlit("error");
    reveal_strlit("code");
    reveal_strlit("message");
    reveal_strlit("data");
    assert("method"@[0] != "params"@[0]);
    assert("method"@[0] != "result"@[0]);
    assert("params"@[0] != "result"@[0]);
    assert("jsonrpc"@[0] != "message"@[0]);
    assert("code"@[0] != "data"@[0]);
    assert("id"@.len() != "error"@.len());
}

/// Drops a `null`: what is left is the value that the member stands for.
fn drop_null(m: Option<Json>) -> (r: Option<Json>)
    ensures
        optional_view(r) == nullable(optional_view(m)),
{
    match m {
        None => None,
        Some(Json::Null) => None,
        Some(v) => Some(v),
    }
}

impl Params {
    /// Reads the parameters that a `params` member stands for: an array gives
    /// parameters by position, an object parameters by name, a missing member
    /// or `null` none. Anything else is refused.
    pub fn from_member(m: Option<Json>) -> (r: Result<Option<Params>, ()>)
        ensures
            match decode_params(optional_view(m)) {
                Ok(p) => r matches Ok(q) && optional_params_view(q) == p,
                Err(_) => r is Err,
            },
    {
        match m {
            None => Ok(None),
            Some(Json::Null) => Ok(None),
            Some(Json::Array(items)) => Ok(Some(Params::ByPosition(items))),
            Some(Json::Object(members)) => Ok(Some(Params::ByName(members))),
            Some(_) => Err(()),
        }
    }
}

impl Error {
    /// Reads the error object that an `error` member stands for.
    pub fn from_member(m: Option<Json>) -> (r: Result<Option<Error>, ()>)
        ensures
            match decode_error(optional_view(m)) {
                Ok(e) => r matches Ok(f) && optional_error_view(f) == e,
                Err(_) => r is Err,
            },
    {
        match m {
            None => Ok(None),
            Some(Json::Null) => Ok(None),
            Some(Json::Object(members)) => {
                let mut members = members;
                proof {
                    lemma_names_differ();
                }
                let code = take_member(&mut members, "code");
                let message = take_member(&mut members, "message");
                let data = drop_null(take_member(&mut members, "data"));
                match (code, message) {
                    (Some(Json::Number(n)), Some(Json::String(text))) => match n.as_i64() {
                        Some(code) => Ok(Some(Error { code, message: text, data })),
                        None => Err(()),
                    },
                    _ => Err(()),
                }
            },
            Some(_) => Err(()),
        }
    }
}

impl Message {
    /// Reads the message that a document stands for. A document that stands
    /// for none is refused with a serialization error.
    pub fn from_json(doc: Json) -> (r: Result<Message, crate::Error>)
        ensures
            match decode_message(doc@) {
                Some(m) => r matches Ok(msg) && msg@ == m,
                None => r matches Err(e) && e@ == ErrorView::Serialization(MISMATCH@),
            },
    {
        let mut members = match doc {
            Json::Object(members) => members,
            _ => {
                return Err(crate::Error::Serialization(MISMATCH.to_owned()));
            },
        };
        proof {
            lemma_names_differ();
        }
        let version = take_member(&mut members, "jsonrpc");
        let method = take_member(&mut members, "method");
        let params = take_member(&mut members, "params");
        let id = take_member(&mut members, "id");
        let result = take_member(&mut members, "result");
        let error = take_member(&mut members, "error");
        let jsonrpc = match version {
            Some(Json::String(v)) => v,
            _ => {
                return Err(crate::Error::Serialization(MISMATCH.to_owned()));
            },
        };
        if let Some(Json::String(name)) = method {
            if let Ok(p) = Params::from_member(params) {
                let request = Request { method: name, params: p, id };
                return Ok(Message { jsonrpc, type_: Type::Request(request) });
            }
        }
        let id = match id {
            Some(id) => id,
            None => {
                return Err(crate::Error::Serialization(MISMATCH.to_owned()));
            },
        };
        let error = match Error::from_member(error) {
            Ok(e) => e,
            Err(_) => {
                return Err(crate::Error::Serialization(MISMATCH.to_owned()));
            },
        };
        let result = drop_null(result);
        if result.is_some() && error.is_some() {
            return Err(crate::Error::Serialization(MISMATCH.to_owned()));
        }
        Ok(Message { jsonrpc, type_: Type::Response(Response { result, error, id }) })
    }
}

/// An optional member is the member of its name where it has a value, and
/// no member of any other name.
pub proof fn lemma_member_optional(own: Seq<char>, value: Option<JsonView>, name: Seq<char>)
    ensures
        member(optional_member(own, value), name) == (if own == name {
            value
        } else {
            None
        }),
{
    match value {
        Some(v) => lemma_member_single(own, v, name),
        None => {},
    }
}

/// The members of a request's document, name by name.
pub proof fn lemma_request_members(version: Seq<char>, r: RequestView)
    ensures
        ({
            let members = seq![("jsonrpc"@, JsonView::String(version))] + request_members(r);
            &&& member(members, "jsonrpc"@) == Some(JsonView::String(version))
            &&& member(members, "method"@) == Some(JsonView::String(r.method))
            &&& member(members, "params"@) == optional_params_json(r.params)
            &&& member(members, "id"@) == r.id
            &&& member(members, "result"@) is None
            &&& member(members, "error"@) is None
        }),
{
    lemma_names_differ();
    let head = seq![("jsonrpc"@, JsonView::String(version))];
    let method = seq![("method"@, JsonView::String(r.method))];
    let params = optional_member("params"@, optional_params_json(r.params));
    let id = optional_member("id"@, r.id);
    assert forall|name: Seq<char>|
        member(head + request_members(r), name) == (if name == "id"@ && r.id is Some {
            r.id
        } else if name == "params"@ && r.params is Some {
            optional_params_json(r.params)
        } else if name == "method"@ {
            Some(JsonView::String(r.method))
        } else if name == "jsonrpc"@ {
            Some(JsonView::String(version))
        } else {
            None
        }) by {
        lemma_member_concat(head, request_members(r), name);
        lemma_member_concat(method + params, id, name);
        lemma_member_concat(method, params, name);
        lemma_member_single("jsonrpc"@, JsonView::String(version), name);
        lemma_member_single("method"@, JsonView::String(r.method), name);
        lemma_member_optional("params"@, optional_params_json(r.params), name);
        lemma_member_optional("id"@, r.id, name);
    }
}

/// The members of an error object's document, name by name.
pub proof fn lemma_error_members(e: RpcErrorView)
    ensures
        ({
            let members = error_json(e)->Object_0;
            &&& member(members, "code"@) == Some(
                JsonView::Number(JsonNumber::spec_from_i64(e.code)),
            )
            &&& member(members, "message"@) == Some(JsonView::String(e.message))
            &&& member(members, "data"@) == e.data
        }),
{
    lemma_names_differ();
    let code = seq![("code"@, JsonView::Number(JsonNumber::spec_from_i64(e.code)))];
    let message = seq![("message"@, JsonView::String(e.message))];
    let data = optional_member("data"@, e.data);
    assert(error_json(e)->Object_0 =~= code + message + data);
    assert forall|name: Seq<char>|
        member(code + message + data, name) == (if name == "data"@ && e.data is Some {
            e.data
        } else if name == "message"@ {
            Some(JsonView::String(e.message))
        } else if name == "code"@ {
            Some(JsonView::Number(JsonNumber::spec_from_i64(e.code)))
        } else {
            None
        }) by {
        lemma_member_concat(code + message, data, name);
        lemma_member_concat(code, message, name);
        lemma_member_single("code"@, JsonView::Number(JsonNumber::spec_from_i64(e.code)), name);
        lemma_member_single("message"@, JsonView::String(e.message), name);
        lemma_member_optional("data"@, e.data, name);
    }
}

/// The members of a response's document, name by name.
pub proof fn lemma_response_members(version: Seq<char>, r: ResponseView)
    ensures
        ({
            let members = seq![("jsonrpc"@, JsonView::String(version))] + response_members(r);
            &&& member(members, "jsonrpc"@) == Some(JsonView::String(version))
            &&& member(members, "method"@) is None
            &&& member(members, "params"@) is None
            &&& member(members, "id"@) == Some(r.id)
            &&& member(members, "result"@) == r.result
            &&& member(members, "error"@) == optional_error_json(r.error)
        }),
{
    lemma_names_differ();
    let head = seq![("jsonrpc"@, JsonView::String(version))];
    let result = optional_member("result"@, r.result);
    let error = optional_member("error"@, optional_error_json(r.error));
    let id = seq![("id"@, r.id)];
    assert forall|name: Seq<char>|
        member(head + response_members(r), name) == (if name == "id"@ {
            Some(r.id)
        } else if name == "error"@ && r.error is Some {
            optional_error_json(r.error)
        } else if name == "result"@ && r.result is Some {
            r.result
        } else if name == "jsonrpc"@ {
            Some(JsonView::String(version))
        } else {
            None
        }) by {
        lemma_member_concat(head, response_members(r), name);
        lemma_member_concat(result + error, id, name);
        lemma_member_concat(result, error, name);
        lemma_member_single("jsonrpc"@, JsonView::String(version), name);
        lemma_member_single("id"@, r.id, name);
        lemma_member_optional("result"@, r.result, name);
        lemma_member_optional("error"@, optional_error_json(r.error), name);
    }
}

/// Parameters by position are laid out as an array and parameters by name
/// as an object, and reading either layout gives the same parameters back,
/// of the same kind.
pub proof fn lemma_params_round_trip(p: ParamsView)
    ensures
        p is ByPosition <==> params_json(p) is Array,
        p is ByName <==> params_json(p) is Object,
        decode_params(Some(params_json(p))) == Ok::<Option<ParamsView>, ()>(Some(p)),
{
}

/// Reading the document of an error object gives the error object back,
/// unless its data is `null`, which reads as no data.
pub proof fn lemma_error_round_trip(e: RpcErrorView)
    requires
        e.data != Some(JsonView::Null),
    ensures
        decode_error(Some(error_json(e))) == Ok::<Option<RpcErrorView>, ()>(Some(e)),
{
    lemma_error_members(e);
}

/// Reading the document of a request gives the request back: its method,
/// its parameters and their kind, and its id, whatever document the id is.
pub proof fn lemma_request_round_trip(version: Seq<char>, request: RequestView)
    ensures
        decode_message(message_json(MessageView { version, body: TypeView::Request(request) }))
            == Some(MessageView { version, body: TypeView::Request(request) }),
{
    lemma_request_members(version, request);
    match request.params {
        Some(p) => lemma_params_round_trip(p),
        None => {},
    }
}

/// Reading the document of a response gives the response back, where the
/// response holds at most one of result and error. The exceptions are a
/// result that is `null` and error data that is `null`, which read as absent.
pub proof fn lemma_response_round_trip(version: Seq<char>, response: ResponseView)
    requires
        !(response.result is Some && response.error is Some),
        response.result != Some(JsonView::Null),
        response.error matches Some(e) ==> e.data != Some(JsonView::Null),
    ensures
        decode_message(message_json(MessageView { version, body: TypeView::Response(response) }))
            == Some(MessageView { version, body: TypeView::Response(response) }),
{
    lemma_response_members(version, response);
    match response.error {
        Some(e) => lemma_error_round_trip(e),
        None => {},
    }
}

/// No document reads as a response that holds both a result and an error.
pub proof fn lemma_decoded_response_payload(doc: JsonView)
    ensures
        decode_message(doc) matches Some(m) ==> (m.body matches TypeView::Response(r) ==> !(
        r.result is Some && r.error is Some)),
{
}

/// The JSON text of a message: that of its document, where the printer
/// gives one.
pub open spec fn encode_text(m: MessageView) -> Option<Seq<u8>> {
    json_text(message_json(m))
}

/// The message that a text stands for: there is one where the text is JSON
/// and the document stands for a message.
pub open spec fn decode_text(text: Seq<u8>) -> Option<MessageView> {
    match json_parse(text) {
        Some(doc) => decode_message(doc),
        None => None,
    }
}

impl Message {
    /// Writes the message as JSON text. Fails with a serialization error
    /// where the printer does.
    pub fn encode(self) -> (r: Result<Vec<u8>, crate::Error>)
        ensures
            match encode_text(self@) {
                Some(text) => r matches Ok(bytes) && bytes@ == text,
                None => r matches Err(e) && e@ is Serialization,
            },
    {
        let doc = self.into_json();
        match print(&doc) {
            Ok(bytes) => Ok(bytes),
            Err(reason) => Err(crate::Error::Serialization(reason)),
        }
    }

    /// Reads a message from JSON text. Fails with a serialization error
    /// where the text is not JSON or the document stands for no message.
    pub fn decode(text: &[u8]) -> (r: Result<Message, crate::Error>)
        ensures
            match json_parse(text@) {
                None => r matches Err(e) && e@ is Serialization,
                Some(doc) => match decode_message(doc) {
                    None => r matches Err(e) && e@ == ErrorView::Serialization(MISMATCH@),
                    Some(m) => r matches Ok(msg) && msg@ == m,
                },
            },
    {
        match parse(text) {
            Ok(doc) => Message::from_json(doc),
            Err(reason) => Err(crate::Error::Serialization(reason)),
        }
    }
}

/// Reading the text of a request gives the request back, where the parser
/// reads the printed text as the document that was printed.
pub proof fn lemma_request_text_round_trip(version: Seq<char>, request: RequestView)
    ensures
        ({
            let m = MessageView { version, body: TypeView::Request(request) };
            match encode_text(m) {
                Some(text) => json_parse(text) == Some(message_json(m)) ==> decode_text(text)
                    == Some(m),
                None => true,
            }
        }),
{
    lemma_request_round_trip(version, request);
}

} // verus!
