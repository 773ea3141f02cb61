//! The wire protocol: the text frames that client and server exchange.
//!
//! A client opens with `hello` or `hello:<id>`; the server answers once with
//! `hello:<assigned id>` and then sends one `push:<song id>` per submission.

use crate::connections::{is_valid_id_request, valid_id_request};
use crate::text::{same_text, strip_prefix};
use vstd::prelude::*;
use vstd::string::*;
use vstd::utf8::encode_utf8;

verus! {

/// Length of a track identifier, in bytes.
pub const SONG_ID_LENGTH: usize = 11;

/// Whether `id` has the length of a track identifier.
pub open spec fn valid_song_id(id: Seq<char>) -> bool {
    encode_utf8(id).len() == SONG_ID_LENGTH
}

/// Whether `id` has the length of a track identifier.
pub fn is_valid_song_id(id: &str) -> (r: bool)
    ensures
        r == valid_song_id(id@),
{
    id.as_bytes().len() == SONG_ID_LENGTH
}

/// One frame of the transport, as far as the protocol looks at it.
pub enum Frame {
    Text(String),
    Binary(Vec<u8>),
    Ping(Vec<u8>),
    Pong(Vec<u8>),
    Close,
}

/// A frame as plain values.
pub enum FrameView {
    Text(Seq<char>),
    Binary(Seq<u8>),
    Ping(Seq<u8>),
    Pong(Seq<u8>),
    Close,
}

impl View for Frame {
    type V = FrameView;

    open spec fn view(&self) -> FrameView {
        match self {
            Frame::Text(t) => FrameView::Text(t@),
            Frame::Binary(b) => FrameView::Binary(b@),
            Frame::Ping(p) => FrameView::Ping(p@),
            Frame::Pong(p) => FrameView::Pong(p@),
            Frame::Close => FrameView::Close,
        }
    }
}

/// Why a first frame is refused.
#[derive(Clone, Copy, Debug, PartialEq, Eq, Structural)]
pub enum ProtocolError {
    /// The frame is neither `hello` nor `hello:<id>`.
    InvalidHello,
    /// The frame is `hello:<id>` with an id that may not be requested.
    InvalidIdRequest,
}

/// What the first frame `text` asks for: `Ok(None)` for a fresh id,
/// `Ok(Some(id))` for the id it names.
pub open spec fn hello_request(text: Seq<char>) -> Result<Option<Seq<char>>, ProtocolError> {
    if text == "hello"@ {
        Ok(None)
    } else if "hello:"@.is_prefix_of(text) {
        let id = text.skip("hello:"@.len() as int);
        if valid_id_request(id) {
            Ok(Some(id))
        } else {
            Err(ProtocolError::InvalidIdRequest)
        }
    } else {
        Err(ProtocolError::InvalidHello)
    }
}

/// Reads the first frame of a client.
pub fn parse_hello(text: &str) -> (r: Result<Option<String>, ProtocolError>)
    ensures
        match r {
            Ok(Some(id)) => hello_request(text@) == Ok::<_, ProtocolError>(Some(id@)),
            Ok(None) => hello_request(text@) == Ok::<Option<Seq<char>>, ProtocolError>(None),
            Err(e) => hello_request(text@) == Err::<Option<Seq<char>>, _>(e),
        },
{
    if same_text(text, "hello") {
        return Ok(None);
    }
    match strip_prefix(text, "hello:") {
        Some(id) => {
            assert(text@.skip("hello:"@.len() as int) =~= id@);
            if is_valid_id_request(id) {
                Ok(Some(id.to_owned()))
            } else {
                Err(ProtocolError::InvalidIdRequest)
            }
        },
        None => Err(ProtocolError::InvalidHello),
    }
}

/// The first frame of a client: `hello`, or `hello:<id>` to ask for `id`.
pub open spec fn hello_text(request_id: Option<Seq<char>>) -> Seq<char> {
    match request_id {
        Some(id) => "hello:"@ + id,
        None => "hello"@,
    }
}

/// The first frame of a client: `hello`, or `hello:<id>` to ask for `id`.
pub fn hello_frame(request_id: Option<&str>) -> (r: String)
    ensures
        r@ == hello_text(
            match request_id {
                Some(id) => Some(id@),
                None => None,
            },
        ),
{
    match request_id {
        Some(id) => {
            let mut r = String::from_str("hello:");
            r.append(id);
            r
        },
        None => String::from_str("hello"),
    }
}

/// The server's answer to a valid hello: `hello:<assigned id>`.
pub fn welcome_frame(id: &str) -> (r: String)
    ensures
        r@ == "hello:"@ + id@,
{
    let mut r = String::from_str("hello:");
    r.append(id);
    r
}

/// The frame that carries one submission: `push:<song id>`.
pub fn push_frame(song_id: &str) -> (r: String)
    ensures
        r@ == "push:"@ + song_id@,
{
    let mut r = String::from_str("push:");
    r.append(song_id);
    r
}

/// What a frame of the server tells the client.
pub enum ServerMessage {
    /// `hello:<id>`: the session is registered under `id`.
    Hello { id: String },
    /// `push:<song id>`: a track was submitted.
    Push { song_id: String },
}

/// A server message as plain values.
pub enum ServerMessageView {
    Hello { id: Seq<char> },
    Push { song_id: Seq<char> },
}

impl View for ServerMessage {
    type V = ServerMessageView;

    open spec fn view(&self) -> ServerMessageView {
        match self {
            ServerMessage::Hello { id } => ServerMessageView::Hello { id: id@ },
            ServerMessage::Push { song_id } => ServerMessageView::Push { song_id: song_id@ },
        }
    }
}

/// What the text frame `text` of the server says. A `hello:` without an id,
/// a `push:` whose id has not the length of a track identifier, and any other
/// text say nothing.
pub open spec fn server_message(text: Seq<char>) -> Option<ServerMessageView> {
    if "hello:"@.is_prefix_of(text) {
        let id = text.skip("hello:"@.len() as int);
        if id.len() > 0 {
            Some(ServerMessageView::Hello { id })
        } else {
            None
        }
    } else if "push:"@.is_prefix_of(text) {
        let song_id = text.skip("push:"@.len() as int);
        if valid_song_id(song_id) {
            Some(ServerMessageView::Push { song_id })
        } else {
            None
        }
    } else {
        None
    }
}

/// Reads a text frame of the server.
pub fn parse_server_message(text: &str) -> (r: Option<ServerMessage>)
    ensures
        match r {
            Some(m) => server_message(text@) == Some(m@),
            None => server_message(text@) is None,
        },
{
    match strip_prefix(text, "hello:") {
        Some(id) => {
            assert(text@.skip("hello:"@.len() as int) =~= id@);
            if id.unicode_len() > 0 {
                Some(ServerMessage::Hello { id: id.to_owned() })
            } else {
                None
            }
        },
        None => match strip_prefix(text, "push:") {
            Some(song_id) => {
                assert(text@.skip("push:"@.len() as int) =~= song_id@);
                if is_valid_song_id(song_id) {
                    Some(ServerMessage::Push { song_id: song_id.to_owned() })
                } else {
                    None
                }
            },
            None => None,
        },
    }
}

} // verus!
