//! Frames: a message as JSON text, ended by one terminator byte.
//!
//! The transport is not in this module. Whoever owns the stream writes the
//! bytes that `send_frame` returns, reads up to and including the next
//! terminator (or up to the end of the stream), and hands what was read to
//! `receive_frame`.

use crate::codec::json_parse;
use crate::error::{Error, ErrorView};
use crate::message::wire::{decode_message, encode_text, message_json, MISMATCH};
use crate::message::wire::lemma_request_round_trip;
use crate::message::{Message, MessageView, RequestView, TypeView};
use vstd::prelude::*;
use vstd::slice::slice_subrange;

verus! {

/// The byte that ends a frame: a line feed.
pub const TERMINATOR: u8 = 10;

/// What `receive_frame` reports where the stream ended within a frame.
pub const CLOSED: &'static str = "connection closed before the end of a frame";

/// What `send_frame` reports for a message whose text holds a terminator.
pub const UNFRAMED: &'static str = "text of the message holds a frame terminator";

/// The frame of a message: its JSON text and the terminator. A message has
/// none where it has no text, or where its text holds a terminator.
pub open spec fn frame(m: MessageView) -> Option<Seq<u8>> {
    match encode_text(m) {
        Some(text) => if text.contains(TERMINATOR) {
            None
        } else {
            Some(text.push(TERMINATOR))
        },
        None => None,
    }
}

/// The text of the first frame in `received`: the bytes before the first
/// terminator. There is none where no terminator was received.
pub open spec fn first_frame(received: Seq<u8>) -> Option<Seq<u8>> {
    match received.index_of_first(TERMINATOR) {
        Some(end) => Some(received.subrange(0, end)),
        None => None,
    }
}

/// What a receiver makes of the bytes that it was handed.
pub enum Reception {
    /// No terminator: the stream ended before the end of a frame.
    Closed,
    /// A frame whose text is not JSON.
    NotJson,
    /// A frame whose JSON stands for no message.
    NoMessage,
    /// A frame that holds this message.
    Message(MessageView),
}

/// What `received` holds. Only the first frame counts.
pub open spec fn reception(received: Seq<u8>) -> Reception {
    match first_frame(received) {
        None => Reception::Closed,
        Some(text) => match json_parse(text) {
            None => Reception::NotJson,
            Some(doc) => match decode_message(doc) {
                None => Reception::NoMessage,
                Some(m) => Reception::Message(m),
            },
        },
    }
}

/// Whether `e` is the error that a receiver reports for `what`: a
/// connection error where the stream ended, a serialization error where the
/// frame holds no message.
pub open spec fn reports(e: ErrorView, what: Reception) -> bool {
    match what {
        Reception::Closed => e == ErrorView::Connection(CLOSED@),
        Reception::NotJson => e is Serialization,
        Reception::NoMessage => e == ErrorView::Serialization(MISMATCH@),
        Reception::Message(_) => false,
    }
}

/// The position of the first terminator in `received`, if there is one.
pub fn find_terminator(received: &[u8]) -> (r: Option<usize>)
    ensures
        match r {
            Some(end) => end < received@.len() && received@.index_of_first(TERMINATOR) == Some(
                end as int,
            ),
            None => received@.index_of_first(TERMINATOR) is None,
        },
{
    let mut i: usize = 0;
    while i < received.len()
        invariant
            i <= received.len(),
            forall|j: int| 0 <= j < i ==> received@[j] != TERMINATOR,
        decreases received.len() - i,
    {
        if received[i] == TERMINATOR {
            proof {
                assert(received@[i as int] == TERMINATOR);
                received@.index_of_first_ensures(TERMINATOR);
            }
            return Some(i);
        }
        i += 1;
    }
    proof {
        received@.index_of_first_ensures(TERMINATOR);
    }
    None
}

/// Frames a message for sending: its JSON text, then the terminator. Fails
/// with a serialization error where the message cannot be printed, or where
/// its text holds a terminator. A frame so holds one terminator, its last
/// byte, and what a receiver takes for its text is the text of the message.
pub fn send_frame(message: Message) -> (r: Result<Vec<u8>, Error>)
    ensures
        match frame(message@) {
            Some(bytes) => r matches Ok(out) && out@ == bytes && first_frame(out@) == encode_text(
                message@,
            ),
            None => r matches Err(e) && e@ is Serialization && (encode_text(message@) is Some
                ==> e@ == ErrorView::Serialization(UNFRAMED@)),
        },
{
    let mut bytes = message.encode()?;
    proof {
        bytes@.index_of_first_ensures(TERMINATOR);
    }
    if find_terminator(bytes.as_slice()).is_some() {
        return Err(Error::Serialization(UNFRAMED.to_owned()));
    }
    proof {
        lemma_first_frame(bytes@, Seq::empty());
        assert(bytes@.push(TERMINATOR) + Seq::<u8>::empty() =~= bytes@.push(TERMINATOR));
    }
    bytes.push(TERMINATOR);
    Ok(bytes)
}

/// Reads the message of the first frame in `received`. Fails with a
/// connection error where no terminator was received, which is what is left
/// when the peer closes the stream within a frame or before one; and with a
/// serialization error where the frame holds no message. Bytes after the
/// first terminator are not looked at.
pub fn receive_frame(received: &[u8]) -> (r: Result<Message, Error>)
    ensures
        match reception(received@) {
            Reception::Message(m) => r matches Ok(msg) && msg@ == m,
            other => r matches Err(e) && reports(e@, other),
        },
{
    match find_terminator(received) {
        None => Err(Error::Connection(CLOSED.to_owned())),
        Some(end) => Message::decode(slice_subrange(received, 0, end)),
    }
}

/// Text that holds no terminator is the first frame of what is received once
/// it was framed, whatever is received after it.
pub proof fn lemma_first_frame(text: Seq<u8>, rest: Seq<u8>)
    requires
        !text.contains(TERMINATOR),
    ensures
        first_frame(text.push(TERMINATOR) + rest) == Some(text),
{
    let received = text.push(TERMINATOR) + rest;
    received.index_of_first_ensures(TERMINATOR);
    assert(received[text.len() as int] == TERMINATOR);
    let end = received.index_of_first(TERMINATOR)->0;
    if end < text.len() {
        assert(text[end] == TERMINATOR);
    }
    assert(received.subrange(0, end) =~= text);
}

/// A frame that is received as it was sent holds the message that was
/// sent, where the parser reads the text of the message as the document that
/// was printed, and the document reads as the message.
pub proof fn lemma_frame_round_trip(m: MessageView, rest: Seq<u8>)
    ensures
        match frame(m) {
            Some(bytes) => json_parse(encode_text(m)->0) == Some(message_json(m))
                && decode_message(message_json(m)) == Some(m) ==> reception(bytes + rest)
                == Reception::Message(m),
            None => true,
        },
{
    match frame(m) {
        Some(bytes) => lemma_first_frame(encode_text(m)->0, rest),
        None => {},
    }
}

/// The frame of a request, received as it was sent, holds the request:
/// its method, its parameters and their kind, and its id, `null` too. This
/// holds where the parser reads the text of the request as the document that
/// was printed.
pub proof fn lemma_request_frame_round_trip(
    version: Seq<char>,
    request: RequestView,
    rest: Seq<u8>,
)
    ensures
        ({
            let m = MessageView { version, body: TypeView::Request(request) };
            match frame(m) {
                Some(bytes) => json_parse(encode_text(m)->0) == Some(message_json(m))
                    ==> reception(bytes + rest) == Reception::Message(m),
                None => true,
            }
        }),
{
    let m = MessageView { version, body: TypeView::Request(request) };
    lemma_request_round_trip(version, request);
    lemma_frame_round_trip(m, rest);
}

} // verus!
