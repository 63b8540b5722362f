//! JSON-RPC 2.0 without the transport.
//!
//! The library builds, frames, reads and judges messages; it opens no socket.
//! A client is `client::Client`, a server `server::Server`. Each takes the
//! bytes that were received and gives the bytes to send.

pub mod channel;
pub mod client;
pub mod codec;
pub mod error;
pub mod journal;
pub mod json;
pub mod message;
pub mod server;

pub use error::{Error, Violation};
pub use json::{Json, JsonNumber};
pub use message::Params;
pub use server::Handler;
