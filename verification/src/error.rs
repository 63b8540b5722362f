//! The failures that the client and the server report.

use crate::json::{Json, JsonView};
use crate::message::{Request, RequestView, RpcErrorView};
use vstd::prelude::*;

verus! {

/// What a peer did that the protocol does not allow.
#[derive(Debug, PartialEq)]
pub enum Violation {
    /// A message names this protocol version, which is not the supported one.
    UnsupportedVersion(String),
    /// A request arrived where a response was expected.
    UnexpectedRequest(Request),
    /// A response carries this id, which is not that of the request just sent.
    UnexpectedResponseId(Json),
}

/// A failure, by kind.
#[derive(Debug, PartialEq)]
pub enum Error {
    /// The remote end answered with an error object.
    RPC(crate::message::Error),
    /// The remote end broke the protocol.
    Protocol(Violation),
    /// Bytes were not JSON, or the JSON was no message. Holds a description.
    Serialization(String),
    /// The transport failed. Holds a description.
    Connection(String),
}

/// The model of a violation.
pub enum ViolationView {
    UnsupportedVersion(Seq<char>),
    UnexpectedRequest(RequestView),
    UnexpectedResponseId(JsonView),
}

/// The model of a failure.
pub enum ErrorView {
    RPC(RpcErrorView),
    Protocol(ViolationView),
    Serialization(Seq<char>),
    Connection(Seq<char>),
}

impl View for Violation {
    type V = ViolationView;

    open spec fn view(&self) -> ViolationView {
        match self {
            Violation::UnsupportedVersion(v) => ViolationView::UnsupportedVersion(v@),
            Violation::UnexpectedRequest(r) => ViolationView::UnexpectedRequest(r@),
            Violation::UnexpectedResponseId(id) => ViolationView::UnexpectedResponseId(id@),
        }
    }
}

impl View for Error {
    type V = ErrorView;

    open spec fn view(&self) -> ErrorView {
        match self {
            Error::RPC(e) => ErrorView::RPC(e@),
            Error::Protocol(v) => ErrorView::Protocol(v@),
            Error::Serialization(s) => ErrorView::Serialization(s@),
            Error::Connection(s) => ErrorView::Connection(s@),
        }
    }
}

} // verus!
