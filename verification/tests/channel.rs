use jsonrpc::channel::{find_terminator, receive_frame, send_frame, CLOSED, TERMINATOR};
use jsonrpc::message::wire::MISMATCH;
use jsonrpc::message::Message;
use jsonrpc::{Error, Json, JsonNumber};

#[test]
fn terminator_is_line_feed() {
    assert_eq!(TERMINATOR, b'\n');
    assert_eq!(TERMINATOR, 0x0A);
}

#[test]
fn sent_frame_is_text_and_terminator() {
    let m = Message::make_request("hello", None, Some(Json::Number(JsonNumber::PosInt(0))));
    assert_eq!(
        send_frame(m).unwrap(),
        b"{\"jsonrpc\":\"2.0\",\"method\":\"hello\",\"id\":0}\n".to_vec()
    );
}

#[test]
fn sent_frame_holds_one_terminator() {
    let m = Message::make_request("a\nb", None, Some(Json::String("c\nd".to_string())));
    let frame = send_frame(m).unwrap();
    assert_eq!(find_terminator(&frame), Some(frame.len() - 1));
}

#[test]
fn first_terminator_is_found() {
    assert_eq!(find_terminator(b""), None);
    assert_eq!(find_terminator(b"abc"), None);
    assert_eq!(find_terminator(b"\n"), Some(0));
    assert_eq!(find_terminator(b"abc\n"), Some(3));
    assert_eq!(find_terminator(b"a\nb\nc"), Some(1));
    assert_eq!(find_terminator(b"\r \t\x0b\x0c"), None);
}

#[test]
fn received_frame_is_decoded() {
    let m = receive_frame(b"{\"jsonrpc\":\"2.0\",\"method\":\"hello\",\"id\":0}\n").unwrap();
    assert_eq!(
        m,
        Message::make_request("hello", None, Some(Json::Number(JsonNumber::PosInt(0))))
    );
}

#[test]
fn frame_round_trip() {
    let sent = Message::make_response(
        Some(Json::Array(vec![Json::Bool(true), Json::Null])),
        Json::String("id".to_string()),
    );
    let frame = send_frame(sent).unwrap();
    let received = receive_frame(&frame).unwrap();
    assert_eq!(
        received,
        Message::make_response(
            Some(Json::Array(vec![Json::Bool(true), Json::Null])),
            Json::String("id".to_string()),
        )
    );
}

#[test]
fn end_of_stream_before_a_frame_is_a_connection_error() {
    assert_eq!(
        receive_frame(b""),
        Err(Error::Connection(CLOSED.to_string()))
    );
}

#[test]
fn end_of_stream_within_a_frame_is_a_connection_error() {
    assert_eq!(
        receive_frame(b"{\"jsonrpc\":\"2.0\",\"method\":\"hello\",\"id\":0}"),
        Err(Error::Connection(CLOSED.to_string()))
    );
}

#[test]
fn frame_that_is_not_json_is_a_serialization_error() {
    assert!(matches!(
        receive_frame(b"hello\n"),
        Err(Error::Serialization(_))
    ));
    assert!(matches!(receive_frame(b"\n"), Err(Error::Serialization(_))));
}

#[test]
fn frame_that_is_no_message_is_a_serialization_error() {
    assert_eq!(
        receive_frame(b"{\"id\":0}\n"),
        Err(Error::Serialization(MISMATCH.to_string()))
    );
}

#[test]
fn bytes_after_the_terminator_are_not_read() {
    let m = receive_frame(b"{\"jsonrpc\":\"2.0\",\"method\":\"a\"}\nnot json at all").unwrap();
    assert_eq!(m, Message::make_request("a", None, None));
}

#[test]
fn white_space_around_the_text_is_tolerated() {
    let m = receive_frame(b" {\"jsonrpc\":\"2.0\", \"method\":\"a\"}\r\n").unwrap();
    assert_eq!(m, Message::make_request("a", None, None));
}

#[test]
fn frame_of_a_large_message_round_trips() {
    let items: Vec<Json> = (0..2000u64)
        .map(|n| Json::Number(JsonNumber::PosInt(n)))
        .collect();
    let frame = send_frame(Message::make_response(
        Some(Json::Array(items.clone())),
        Json::Null,
    ))
    .unwrap();
    assert_eq!(find_terminator(&frame), Some(frame.len() - 1));
    assert_eq!(
        receive_frame(&frame),
        Ok(Message::make_response(Some(Json::Array(items)), Json::Null))
    );
}

#[test]
fn request_frame_round_trip_keeps_a_null_id() {
    let frame = send_frame(Message::make_request("m", None, Some(Json::Null))).unwrap();
    assert_eq!(
        frame,
        b"{\"jsonrpc\":\"2.0\",\"method\":\"m\",\"id\":null}\n".to_vec()
    );
    let received = receive_frame(&frame).unwrap();
    assert_eq!(received.version(), "2.0");
    assert!(received.is_request());
    let request = received.request().unwrap();
    assert_eq!(request.method, "m");
    assert_eq!(request.params, None);
    assert_eq!(request.id, Some(Json::Null));
}

#[test]
fn request_frame_round_trip_keeps_a_missing_id_missing() {
    let frame = send_frame(Message::make_request("a\nb", None, None)).unwrap();
    assert_eq!(find_terminator(&frame), Some(frame.len() - 1));
    let request = receive_frame(&frame).unwrap().request().unwrap();
    assert_eq!(request.method, "a\nb");
    assert_eq!(request.id, None);
}
