//! What the server does with what comes in on a socket.

use crate::server::ServerMessage;
use vstd::prelude::*;
use vstd::utf8::encode_utf8;

verus! {

/// What came in on a socket.
#[derive(Debug, Clone, PartialEq, Eq)]
pub enum Incoming {
    /// A text.
    Text(String),
    /// A ping of the transport, with the bytes it carries.
    Ping(Vec<u8>),
    /// The other side closed the connection.
    Close,
    /// Anything else.
    Other,
}

/// What the server does next.
#[derive(Debug, Clone, PartialEq, Eq)]
pub enum Reply {
    /// Send the message.
    Send(ServerMessage),
    /// Answer the ping of the transport with the bytes it carried.
    Pong(Vec<u8>),
    /// Do nothing and wait for more.
    Ignore,
    /// End the connection.
    Stop,
}

/// What the server does next, as plain values.
pub enum ReplyView {
    Send(ServerMessage),
    Pong(Seq<u8>),
    Ignore,
    Stop,
}

impl View for Reply {
    type V = ReplyView;

    open spec fn view(&self) -> ReplyView {
        match self {
            Reply::Send(message) => ReplyView::Send(*message),
            Reply::Pong(data) => ReplyView::Pong(data@),
            Reply::Ignore => ReplyView::Ignore,
            Reply::Stop => ReplyView::Stop,
        }
    }
}

/// A byte with the capital letters of ASCII turned into small ones.
pub open spec fn spec_ascii_lower(byte: u8) -> u8 {
    if 0x41 <= byte <= 0x5a {
        (byte + 0x20) as u8
    } else {
        byte
    }
}

/// Whether two texts, as bytes, are the same but for the case of their
/// letters of ASCII.
pub open spec fn spec_eq_ignore_ascii_case(left: Seq<u8>, right: Seq<u8>) -> bool {
    &&& left.len() == right.len()
    &&& forall|i: int|
        0 <= i < left.len() ==> spec_ascii_lower(#[trigger] left[i]) == spec_ascii_lower(right[i])
}

/// Whether a text is a ping: the word "ping" in any mix of cases.
pub open spec fn spec_is_ping(text: Seq<char>) -> bool {
    spec_eq_ignore_ascii_case(encode_utf8(text), encode_utf8("ping"@))
}

/// What the server does with what came in: a ping in words is answered with
/// a pong in words, a ping of the transport with its own bytes, a close ends
/// the connection, and the rest is passed over.
pub open spec fn spec_reply_to(message: Incoming) -> ReplyView {
    match message {
        Incoming::Text(text) => if spec_is_ping(text@) {
            ReplyView::Send(ServerMessage::Pong)
        } else {
            ReplyView::Ignore
        },
        Incoming::Ping(data) => ReplyView::Pong(data@),
        Incoming::Close => ReplyView::Stop,
        Incoming::Other => ReplyView::Ignore,
    }
}

/// A byte with the capital letters of ASCII turned into small ones.
pub fn ascii_lower(byte: u8) -> (lower: u8)
    ensures
        lower == spec_ascii_lower(byte),
{
    if 0x41 <= byte && byte <= 0x5a {
        byte + 0x20
    } else {
        byte
    }
}

/// Whether two texts, as bytes, are the same but for the case of their
/// letters of ASCII.
pub fn eq_ignore_ascii_case(left: &[u8], right: &[u8]) -> (same: bool)
    ensures
        same == spec_eq_ignore_ascii_case(left@, right@),
{
    if left.len() != right.len() {
        return false;
    }
    let mut i: usize = 0;
    while i < left.len()
        invariant
            i <= left@.len(),
            left@.len() == right@.len(),
            forall|k: int|
                0 <= k < i ==> spec_ascii_lower(#[trigger] left@[k]) == spec_ascii_lower(right@[k]),
        decreases left@.len() - i,
    {
        if ascii_lower(left[i]) != ascii_lower(right[i]) {
            return false;
        }
        i += 1;
    }
    true
}

/// Whether a text is a ping: the word "ping" in any mix of cases.
pub fn is_ping(text: &str) -> (ping: bool)
    ensures
        ping == spec_is_ping(text@),
{
    eq_ignore_ascii_case(text.as_bytes(), "ping".as_bytes())
}

/// Decides what the server does with what came in.
pub fn reply_to(message: Incoming) -> (reply: Reply)
    ensures
        reply@ == spec_reply_to(message),
{
    match message {
        Incoming::Text(text) => {
            if is_ping(text.as_str()) {
                Reply::Send(ServerMessage::Pong)
            } else {
                Reply::Ignore
            }
        },
        Incoming::Ping(data) => Reply::Pong(data),
        Incoming::Close => Reply::Stop,
        Incoming::Other => Reply::Ignore,
    }
}

} // verus!
