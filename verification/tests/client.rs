use jsonrpc::channel::CLOSED;
use jsonrpc::client::{check_response, Client};
use jsonrpc::message::wire::MISMATCH;
use jsonrpc::message::{Error as RpcError, Message, Params, Request};
use jsonrpc::{Error, Json, JsonNumber, Violation};

fn uint(n: u64) -> Json {
    Json::Number(JsonNumber::PosInt(n))
}

fn string(s: &str) -> Json {
    Json::String(s.to_string())
}

/// A client whose request in flight has the id `id`.
fn awaiting(id: u64) -> Client {
    let mut client = Client::new();
    for _ in 0..=id {
        client.start_call("m", None).unwrap();
    }
    assert_eq!(client.in_flight(), Some(id));
    client
}

fn finish(id: u64, received: &[u8]) -> Result<Option<Json>, Error> {
    awaiting(id).finish_call(received)
}

#[test]
fn first_request_has_id_zero() {
    let mut client = Client::new();
    assert_eq!(client.request_counter(), 0);
    assert_eq!(client.in_flight(), None);
    let frame = client.start_call("hello", None).unwrap();
    assert_eq!(
        frame,
        b"{\"jsonrpc\":\"2.0\",\"method\":\"hello\",\"id\":0}\n".to_vec()
    );
    assert_eq!(client.request_counter(), 1);
    assert_eq!(client.in_flight(), Some(0));
}

#[test]
fn request_ids_count_up() {
    let mut client = Client::new();
    for expected in 0..5u64 {
        assert_eq!(client.request_counter(), expected);
        client.start_call("m", None).unwrap();
        assert_eq!(client.in_flight(), Some(expected));
    }
    let frame = client
        .start_call("foo", Some(Params::ByPosition(vec![uint(1)])))
        .unwrap();
    assert_eq!(
        frame,
        b"{\"jsonrpc\":\"2.0\",\"method\":\"foo\",\"params\":[1],\"id\":5}\n".to_vec()
    );
}

#[test]
fn finished_call_leaves_nothing_in_flight() {
    let mut client = Client::new();
    client.start_call("m", None).unwrap();
    assert_eq!(
        client.finish_call(b"{\"jsonrpc\":\"2.0\",\"result\":1,\"id\":0}\n"),
        Ok(Some(uint(1)))
    );
    assert_eq!(client.in_flight(), None);
    assert_eq!(client.request_counter(), 1);
    client.start_call("m", None).unwrap();
    assert_eq!(client.in_flight(), Some(1));
    assert!(client.finish_call(b"").is_err());
    assert_eq!(client.in_flight(), None);
    assert_eq!(client.request_counter(), 2);
}

#[test]
fn response_to_no_call_is_a_protocol_failure() {
    let mut client = Client::new();
    assert_eq!(
        client.finish_call(b"{\"jsonrpc\":\"2.0\",\"result\":1,\"id\":0}\n"),
        Err(Error::Protocol(Violation::UnexpectedResponseId(uint(0))))
    );
    assert_eq!(
        client.finish_call(b"{\"jsonrpc\":\"2.0\",\"result\":1,\"id\":null}\n"),
        Err(Error::Protocol(Violation::UnexpectedResponseId(Json::Null)))
    );
}

#[test]
fn response_to_an_earlier_call_is_a_protocol_failure() {
    let mut client = Client::new();
    client.start_call("first", None).unwrap();
    client.start_call("second", None).unwrap();
    assert_eq!(
        client.finish_call(b"{\"jsonrpc\":\"2.0\",\"result\":1,\"id\":0}\n"),
        Err(Error::Protocol(Violation::UnexpectedResponseId(uint(0))))
    );
}

#[test]
fn result_is_returned() {
    let r = finish(0, b"{\"jsonrpc\":\"2.0\",\"result\":\"Hello, world!\",\"id\":0}\n");
    assert_eq!(r, Ok(Some(string("Hello, world!"))));
}

#[test]
fn absent_result_is_returned_as_none() {
    assert_eq!(
        finish(3, b"{\"jsonrpc\":\"2.0\",\"id\":3}\n"),
        Ok(None)
    );
    assert_eq!(
        finish(3, b"{\"jsonrpc\":\"2.0\",\"result\":null,\"id\":3}\n"),
        Ok(None)
    );
}

#[test]
fn error_is_an_rpc_failure() {
    let r = finish(
        1,
        b"{\"jsonrpc\":\"2.0\",\"error\":{\"code\":-32601,\"message\":\"Method not found\"},\"id\":1}\n",
    );
    assert_eq!(r, Err(Error::RPC(RpcError::method_not_found())));
    match r {
        Err(Error::RPC(e)) => assert_eq!(e.code(), -32601),
        _ => panic!("not an RPC failure"),
    }
}

#[test]
fn error_with_data_is_carried() {
    let r = finish(
        1,
        b"{\"jsonrpc\":\"2.0\",\"error\":{\"code\":5,\"message\":\"five\",\"data\":[5]},\"id\":1}\n",
    );
    assert_eq!(
        r,
        Err(Error::RPC(RpcError::new(
            5,
            "five",
            Some(Json::Array(vec![uint(5)]))
        )))
    );
}

#[test]
fn other_id_is_a_protocol_failure() {
    let r = finish(0, b"{\"jsonrpc\":\"2.0\",\"result\":1,\"id\":1}\n");
    assert_eq!(
        r,
        Err(Error::Protocol(Violation::UnexpectedResponseId(uint(1))))
    );
}

#[test]
fn id_that_is_no_unsigned_integer_is_a_protocol_failure() {
    for (line, id) in [
        (&b"{\"jsonrpc\":\"2.0\",\"result\":1,\"id\":\"0\"}\n"[..], string("0")),
        (&b"{\"jsonrpc\":\"2.0\",\"result\":1,\"id\":null}\n"[..], Json::Null),
        (
            &b"{\"jsonrpc\":\"2.0\",\"result\":1,\"id\":-1}\n"[..],
            Json::Number(JsonNumber::NegInt(-1)),
        ),
        (&b"{\"jsonrpc\":\"2.0\",\"result\":1,\"id\":[0]}\n"[..], Json::Array(vec![uint(0)])),
    ] {
        assert_eq!(
            finish(0, line),
            Err(Error::Protocol(Violation::UnexpectedResponseId(id)))
        );
    }
}

#[test]
fn other_id_wins_over_error() {
    let r = finish(
        0,
        b"{\"jsonrpc\":\"2.0\",\"error\":{\"code\":1,\"message\":\"m\"},\"id\":9}\n",
    );
    assert_eq!(
        r,
        Err(Error::Protocol(Violation::UnexpectedResponseId(uint(9))))
    );
}

#[test]
fn other_version_is_a_protocol_failure() {
    let r = finish(0, b"{\"jsonrpc\":\"1.0\",\"result\":1,\"id\":0}\n");
    assert_eq!(
        r,
        Err(Error::Protocol(Violation::UnsupportedVersion(
            "1.0".to_string()
        )))
    );
}

#[test]
fn other_version_wins_over_other_id() {
    let r = finish(0, b"{\"jsonrpc\":\"2\",\"result\":1,\"id\":7}\n");
    assert_eq!(
        r,
        Err(Error::Protocol(Violation::UnsupportedVersion(
            "2".to_string()
        )))
    );
}

#[test]
fn request_in_return_is_a_protocol_failure() {
    let r = finish(0, b"{\"jsonrpc\":\"2.0\",\"method\":\"m\",\"id\":0}\n");
    assert_eq!(
        r,
        Err(Error::Protocol(Violation::UnexpectedRequest(Request {
            method: "m".to_string(),
            params: None,
            id: Some(uint(0)),
        })))
    );
}

#[test]
fn closed_connection_is_a_connection_failure() {
    assert_eq!(
        finish(0, b""),
        Err(Error::Connection(CLOSED.to_string()))
    );
    assert_eq!(
        finish(0, b"{\"jsonrpc\":\"2.0\",\"result\":1,"),
        Err(Error::Connection(CLOSED.to_string()))
    );
}

#[test]
fn malformed_frame_is_a_serialization_failure() {
    assert!(matches!(
        finish(0, b"oops\n"),
        Err(Error::Serialization(_))
    ));
    assert_eq!(
        finish(0, b"[]\n"),
        Err(Error::Serialization(MISMATCH.to_string()))
    );
}

#[test]
fn response_is_judged_in_order() {
    assert_eq!(
        check_response(Some(4), Message::make_response(Some(uint(1)), uint(4))),
        Ok(Some(uint(1)))
    );
    assert_eq!(
        check_response(Some(4), Message::make_response(None, uint(4))),
        Ok(None)
    );
    assert_eq!(
        check_response(Some(4),
            Message::make_error_response(RpcError::internal_error(), uint(4))
        ),
        Err(Error::RPC(RpcError::internal_error()))
    );
    assert_eq!(
        check_response(Some(4), Message::make_response(Some(uint(1)), uint(5))),
        Err(Error::Protocol(Violation::UnexpectedResponseId(uint(5))))
    );
    assert_eq!(
        check_response(Some(u64::MAX), Message::make_response(None, uint(u64::MAX))),
        Ok(None)
    );
    assert_eq!(
        check_response(None, Message::make_response(None, uint(4))),
        Err(Error::Protocol(Violation::UnexpectedResponseId(uint(4))))
    );
    assert_eq!(
        check_response(Some(1), Message::make_request("m", None, None)),
        Err(Error::Protocol(Violation::UnexpectedRequest(Request {
            method: "m".to_string(),
            params: None,
            id: None,
        })))
    );
}
