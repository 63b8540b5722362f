//! JSON-RPC 2.0 messages: requests and responses.
//!
//! How a message is laid out as a JSON document, and how one is read from a
//! document, is in `wire`.

pub mod wire;

use crate::json::{clone_items, clone_members, items_view, members_view, optional_view};
use crate::json::{Json, JsonView};
use vstd::prelude::*;

verus! {

/// The protocol version that every message names.
pub const VERSION: &'static str = "2.0";

/// Code of the error "Parse error".
pub const PARSE_ERROR: i64 = -32700;

/// Code of the error "Invalid Request".
pub const INVALID_REQUEST: i64 = -32600;

/// Code of the error "Method not found".
pub const METHOD_NOT_FOUND: i64 = -32601;

/// Code of the error "Invalid params".
pub const INVALID_PARAMS: i64 = -32602;

/// Code of the error "Internal error".
pub const INTERNAL_ERROR: i64 = -32603;

/// The error object of a response.
#[derive(Debug, PartialEq)]
pub struct Error {
    code: i64,
    message: String,
    data: Option<Json>,
}

/// The parameters of a request: by position or by name. Parameters by name
/// are held in the order in which they were written; where a name occurs more
/// than once, the last occurrence is the parameter of that name.
#[derive(Debug, PartialEq)]
pub enum Params {
    ByPosition(Vec<Json>),
    ByName(Vec<(String, Json)>),
}

/// A call of a method. One without an id is a notification; one whose id is
/// `null` has an id. The method is meant not to be empty, which nothing here
/// looks at: an empty name is the name of a method like any other.
#[derive(Debug, PartialEq)]
pub struct Request {
    pub method: String,
    pub params: Option<Params>,
    pub id: Option<Json>,
}

/// The answer to a request: a result or an error, never both. One that was
/// made from an absent result holds neither.
#[derive(Debug, PartialEq)]
pub struct Response {
    result: Option<Json>,
    error: Option<Error>,
    id: Json,
}

/// What a message is.
#[derive(Debug, PartialEq)]
pub enum Type {
    Request(Request),
    Response(Response),
}

/// A request or a response, with the protocol version that it names.
#[derive(Debug, PartialEq)]
pub struct Message {
    jsonrpc: String,
    type_: Type,
}

/// The model of an error object.
pub struct RpcErrorView {
    pub code: i64,
    pub message: Seq<char>,
    pub data: Option<JsonView>,
}

/// The model of parameters.
pub enum ParamsView {
    ByPosition(Seq<JsonView>),
    ByName(Seq<(Seq<char>, JsonView)>),
}

/// The model of a request.
pub struct RequestView {
    pub method: Seq<char>,
    pub params: Option<ParamsView>,
    pub id: Option<JsonView>,
}

/// The model of a response.
pub struct ResponseView {
    pub result: Option<JsonView>,
    pub error: Option<RpcErrorView>,
    pub id: JsonView,
}

/// The model of what a message is.
pub enum TypeView {
    Request(RequestView),
    Response(ResponseView),
}

/// The model of a message.
pub struct MessageView {
    pub version: Seq<char>,
    pub body: TypeView,
}

impl View for Error {
    type V = RpcErrorView;

    closed spec fn view(&self) -> RpcErrorView {
        RpcErrorView { code: self.code, message: self.message@, data: optional_view(self.data) }
    }
}

impl View for Params {
    type V = ParamsView;

    open spec fn view(&self) -> ParamsView {
        match self {
            Params::ByPosition(items) => ParamsView::ByPosition(items_view(*items)),
            Params::ByName(members) => ParamsView::ByName(members_view(*members)),
        }
    }
}

/// The view of optional parameters.
pub open spec fn optional_params_view(params: Option<Params>) -> Option<ParamsView> {
    match params {
        Some(p) => Some(p@),
        None => None,
    }
}

/// The view of an optional error object.
pub open spec fn optional_error_view(error: Option<Error>) -> Option<RpcErrorView> {
    match error {
        Some(e) => Some(e@),
        None => None,
    }
}

impl View for Request {
    type V = RequestView;

    open spec fn view(&self) -> RequestView {
        RequestView {
            method: self.method@,
            params: optional_params_view(self.params),
            id: optional_view(self.id),
        }
    }
}

impl View for Response {
    type V = ResponseView;

    closed spec fn view(&self) -> ResponseView {
        ResponseView {
            result: optional_view(self.result),
            error: optional_error_view(self.error),
            id: self.id@,
        }
    }
}

impl View for Type {
    type V = TypeView;

    open spec fn view(&self) -> TypeView {
        match self {
            Type::Request(r) => TypeView::Request(r@),
            Type::Response(r) => TypeView::Response(r@),
        }
    }
}

impl View for Message {
    type V = MessageView;

    closed spec fn view(&self) -> MessageView {
        MessageView { version: self.jsonrpc@, body: self.type_@ }
    }
}

impl RpcErrorView {
    /// The error object with this code and message, and no data.
    pub open spec fn standard(code: i64, message: Seq<char>) -> RpcErrorView {
        RpcErrorView { code, message, data: None }
    }
}

impl Error {
    /// An error object with the given parts.
    pub fn new(code: i64, message: &str, data: Option<Json>) -> (e: Error)
        ensures
            e@ == (RpcErrorView { code, message: message@, data: optional_view(data) }),
    {
        Error { code, message: message.to_owned(), data }
    }

    /// Invalid JSON was received.
    pub fn parse_error() -> (e: Error)
        ensures
            e@ == RpcErrorView::standard(PARSE_ERROR, "Parse error"@),
    {
        Error { code: PARSE_ERROR, message: "Parse error".to_owned(), data: None }
    }

    /// The JSON sent is not a valid request.
    pub fn invalid_request() -> (e: Error)
        ensures
            e@ == RpcErrorView::standard(INVALID_REQUEST, "Invalid Request"@),
    {
        Error { code: INVALID_REQUEST, message: "Invalid Request".to_owned(), data: None }
    }

    /// The method does not exist.
    pub fn method_not_found() -> (e: Error)
        ensures
            e@ == RpcErrorView::standard(METHOD_NOT_FOUND, "Method not found"@),
    {
        Error { code: METHOD_NOT_FOUND, message: "Method not found".to_owned(), data: None }
    }

    /// The parameters are not valid for the method.
    pub fn invalid_params() -> (e: Error)
        ensures
            e@ == RpcErrorView::standard(INVALID_PARAMS, "Invalid params"@),
    {
        Error { code: INVALID_PARAMS, message: "Invalid params".to_owned(), data: None }
    }

    /// The handler failed.
    pub fn internal_error() -> (e: Error)
        ensures
            e@ == RpcErrorView::standard(INTERNAL_ERROR, "Internal error"@),
    {
        Error { code: INTERNAL_ERROR, message: "Internal error".to_owned(), data: None }
    }

    /// The code of the error.
    pub fn code(&self) -> (c: i64)
        ensures
            c == self@.code,
    {
        self.code
    }

    /// What the error says.
    pub fn message(&self) -> (m: &str)
        ensures
            m@ == self@.message,
    {
        self.message.as_str()
    }

    /// What else the error carries, if anything.
    pub fn data(&self) -> (d: Option<&Json>)
        ensures
            match d {
                Some(doc) => self@.data == Some(doc@),
                None => self@.data is None,
            },
    {
        self.data.as_ref()
    }
}

impl Clone for Params {
    /// A deep copy: the copy has the view of the parameters it was made from.
    fn clone(&self) -> (r: Params)
        ensures
            r@ == self@,
    {
        match self {
            Params::ByPosition(items) => Params::ByPosition(clone_items(items)),
            Params::ByName(members) => Params::ByName(clone_members(members)),
        }
    }
}

impl Response {
    /// No response holds both a result and an error.
    #[verifier::type_invariant]
    pub closed spec fn well_formed(&self) -> bool {
        !(self.result is Some && self.error is Some)
    }

    /// Whether the response reports an error. One that does holds no result.
    pub fn is_error(&self) -> (r: bool)
        ensures
            r == self@.error is Some,
            r ==> self@.result is None,
    {
        proof {
            use_type_invariant(self);
        }
        self.error.is_some()
    }

    /// The result, where the response carries one.
    pub fn result(&self) -> (r: Option<&Json>)
        ensures
            match r {
                Some(doc) => self@.result == Some(doc@),
                None => self@.result is None,
            },
    {
        self.result.as_ref()
    }

    /// The error, where the response reports one.
    pub fn error(&self) -> (e: Option<&Error>)
        ensures
            match e {
                Some(err) => self@.error == Some(err@),
                None => self@.error is None,
            },
    {
        self.error.as_ref()
    }

    /// The id of the request that the response answers.
    pub fn id(&self) -> (id: &Json)
        ensures
            id@ == self@.id,
    {
        &self.id
    }

    /// Gives up the response for its parts: result, error and id.
    pub fn into_parts(self) -> (parts: (Option<Json>, Option<Error>, Json))
        ensures
            optional_view(parts.0) == self@.result,
            optional_error_view(parts.1) == self@.error,
            parts.2@ == self@.id,
            !(parts.0 is Some && parts.1 is Some),
    {
        proof {
            use_type_invariant(&self);
        }
        (self.result, self.error, self.id)
    }

    /// Gives up the response for what it reports: the error where it holds
    /// one, else the result, which may be absent.
    pub fn into_outcome(self) -> (r: Result<Option<Json>, Error>)
        ensures
            match r {
                Ok(result) => self@.error is None && optional_view(result) == self@.result,
                Err(e) => self@.error == Some(e@),
            },
    {
        match self.error {
            Some(e) => Err(e),
            None => Ok(self.result),
        }
    }
}

impl Message {
    /// The request for `method`, of the supported version.
    pub fn make_request(method: &str, params: Option<Params>, id: Option<Json>) -> (m: Message)
        ensures
            m@ == (MessageView {
                version: VERSION@,
                body: TypeView::Request(
                    RequestView {
                        method: method@,
                        params: optional_params_view(params),
                        id: optional_view(id),
                    },
                ),
            }),
    {
        Message {
            jsonrpc: VERSION.to_owned(),
            type_: Type::Request(Request { method: method.to_owned(), params, id }),
        }
    }

    /// The response that reports `error` for the request `id`.
    pub fn make_error_response(error: Error, id: Json) -> (m: Message)
        ensures
            m@ == (MessageView {
                version: VERSION@,
                body: TypeView::Response(
                    ResponseView { result: None, error: Some(error@), id: id@ },
                ),
            }),
    {
        Message {
            jsonrpc: VERSION.to_owned(),
            type_: Type::Response(Response { result: None, error: Some(error), id }),
        }
    }

    /// The response that carries `result` for the request `id`.
    pub fn make_response(result: Option<Json>, id: Json) -> (m: Message)
        ensures
            m@ == (MessageView {
                version: VERSION@,
                body: TypeView::Response(
                    ResponseView { result: optional_view(result), error: None, id: id@ },
                ),
            }),
    {
        Message {
            jsonrpc: VERSION.to_owned(),
            type_: Type::Response(Response { result, error: None, id }),
        }
    }

    /// The protocol version that the message names.
    pub fn version(&self) -> (v: &str)
        ensures
            v@ == self@.version,
    {
        self.jsonrpc.as_str()
    }

    /// Whether the message names the supported protocol version.
    pub fn is_supported_version(&self) -> (r: bool)
        ensures
            r == (self@.version == VERSION@),
    {
        let supported = VERSION.to_owned();
        self.jsonrpc == supported
    }

    /// Gives up the message for its parts: the version that it names, and
    /// the request or response.
    pub fn into_parts(self) -> (parts: (String, Type))
        ensures
            parts.0@ == self@.version,
            parts.1@ == self@.body,
    {
        (self.jsonrpc, self.type_)
    }

    /// Whether the message is a request.
    pub fn is_request(&self) -> (r: bool)
        ensures
            r == self@.body is Request,
    {
        match self.type_ {
            Type::Request(_) => true,
            Type::Response(_) => false,
        }
    }

    /// Whether the message is a response.
    pub fn is_response(&self) -> (r: bool)
        ensures
            r == self@.body is Response,
    {
        match self.type_ {
            Type::Request(_) => false,
            Type::Response(_) => true,
        }
    }

    /// The request, where the message is one.
    pub fn request(self) -> (r: Option<Request>)
        ensures
            match r {
                Some(req) => self@.body == TypeView::Request(req@),
                None => self@.body is Response,
            },
    {
        match self.type_ {
            Type::Request(req) => Some(req),
            Type::Response(_) => None,
        }
    }

    /// The response, where the message is one.
    pub fn response(self) -> (r: Option<Response>)
        ensures
            match r {
                Some(resp) => self@.body == TypeView::Response(resp@),
                None => self@.body is Request,
            },
    {
        match self.type_ {
            Type::Response(resp) => Some(resp),
            Type::Request(_) => None,
        }
    }
}

/// Every response holds at most one of result and error. One that was not
/// made from an absent result holds exactly one.
pub proof fn lemma_response_payload(response: Response)
    requires
        response.well_formed(),
    ensures
        !(response@.result is Some && response@.error is Some),
        response@.result is Some || response@.error is Some ==> (response@.result is Some)
            != (response@.error is Some),
{
}

} // verus!
