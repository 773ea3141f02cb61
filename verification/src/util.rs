//! Addresses and names that client and server agree on, and the events that
//! the client's workers report.

use crate::text::{decimal, decimal_text};
use vstd::prelude::*;
use vstd::string::*;

verus! {

/// What a worker of the client reports to the main loop.
pub enum Event {
    /// The server registered the session under `id`.
    ServerHello { id: String },
    /// The connection failed.
    ConnError { msg: String },
    /// The connection was closed.
    ServerClose,
    /// A track was submitted.
    Push { song_id: String },
    /// The user closed the window.
    UIQuit,
    /// The user skipped the track.
    NextSong,
    /// The user paused or resumed.
    TogglePause,
}

/// An event as plain values.
pub enum EventView {
    ServerHello { id: Seq<char> },
    ConnError { msg: Seq<char> },
    ServerClose,
    Push { song_id: Seq<char> },
    UIQuit,
    NextSong,
    TogglePause,
}

impl View for Event {
    type V = EventView;

    open spec fn view(&self) -> EventView {
        match self {
            Event::ServerHello { id } => EventView::ServerHello { id: id@ },
            Event::ConnError { msg } => EventView::ConnError { msg: msg@ },
            Event::ServerClose => EventView::ServerClose,
            Event::Push { song_id } => EventView::Push { song_id: song_id@ },
            Event::UIQuit => EventView::UIQuit,
            Event::NextSong => EventView::NextSong,
            Event::TogglePause => EventView::TogglePause,
        }
    }
}

/// The address of the submission form of session `id`: plain `http` on port
/// 80, `https` on port 443, and `http` with the port written out on any
/// other.
pub open spec fn submission_address(id: Seq<char>, server_address: Seq<char>, server_port: u16) -> Seq<
    char,
> {
    (if server_port == 80 {
        "http://"@ + server_address
    } else if server_port == 443 {
        "https://"@ + server_address
    } else {
        "http://"@ + server_address + ":"@ + decimal(server_port as nat)
    }) + "/submit/"@ + id
}

/// The address of the submission form of session `id`.
pub fn submission_url(id: &str, server_address: &str, server_port: u16) -> (r: String)
    ensures
        r@ == submission_address(id@, server_address@, server_port),
{
    let mut s = String::new();
    if server_port == 80 {
        s.append("http://");
        s.append(server_address);
    } else if server_port == 443 {
        s.append("https://");
        s.append(server_address);
    } else {
        s.append("http://");
        s.append(server_address);
        s.append(":");
        s.append(decimal_text(server_port).as_str());
    }
    s.append("/submit/");
    s.append(id);
    assert(s@ =~= submission_address(id@, server_address@, server_port));
    s
}

/// The address of the server's socket: `wss` on port 443, `ws` on any other,
/// with the port written out in both.
pub open spec fn socket_address(server_address: Seq<char>, server_port: u16) -> Seq<char> {
    (if server_port == 443 {
        "wss://"@
    } else {
        "ws://"@
    }) + server_address + ":"@ + decimal(server_port as nat) + "/ws"@
}

/// The address of the server's socket.
pub fn socket_url(server_address: &str, server_port: u16) -> (r: String)
    ensures
        r@ == socket_address(server_address@, server_port),
{
    let mut s = String::new();
    if server_port == 443 {
        s.append("wss://");
    } else {
        s.append("ws://");
    }
    s.append(server_address);
    s.append(":");
    s.append(decimal_text(server_port).as_str());
    s.append("/ws");
    assert(s@ =~= socket_address(server_address@, server_port));
    s
}

/// Where the audio of track `id` is cached, below the cache directory.
pub open spec fn audio_cache_name(id: Seq<char>) -> Seq<char> {
    "schmu/"@ + id + ".m4a"@
}

/// Where the metadata of track `id` is cached, below the cache directory.
pub open spec fn song_info_cache_name(id: Seq<char>) -> Seq<char> {
    "schmu/"@ + id + ".json"@
}

/// Where the audio of track `id` is cached, below the cache directory.
pub fn audio_cache_location(id: &str) -> (r: String)
    ensures
        r@ == audio_cache_name(id@),
{
    let mut s = String::from_str("schmu/");
    s.append(id);
    s.append(".m4a");
    s
}

/// Where the metadata of track `id` is cached, below the cache directory.
pub fn song_info_cache_location(id: &str) -> (r: String)
    ensures
        r@ == song_info_cache_name(id@),
{
    let mut s = String::from_str("schmu/");
    s.append(id);
    s.append(".json");
    s
}

} // verus!
