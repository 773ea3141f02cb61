//! The server's end of a connection.
//!
//! The endpoint decides; the code that owns the socket performs what it
//! decided and reports what happened next.

use crate::connections::{
    is_live, lemma_unregister_twice, mailbox_of, registered, source_of, unique_ids, without,
    Connections, SessionView,
};
use crate::protocol::{hello_request, parse_hello, push_frame, welcome_frame, Frame, FrameView};
use tokio::sync::mpsc::Receiver;
use vstd::prelude::*;

verus! {

/// Where a connection stands.
pub enum ServerPhase {
    /// Waiting for the client's first frame.
    AwaitHello,
    /// The session `id` is registered.
    Active { id: String },
    /// The connection is over.
    Closed,
}

/// A phase as plain values.
pub enum ServerPhaseView {
    AwaitHello,
    Active { id: Seq<char> },
    Closed,
}

impl View for ServerPhase {
    type V = ServerPhaseView;

    open spec fn view(&self) -> ServerPhaseView {
        match self {
            ServerPhase::AwaitHello => ServerPhaseView::AwaitHello,
            ServerPhase::Active { id } => ServerPhaseView::Active { id: id@ },
            ServerPhase::Closed => ServerPhaseView::Closed,
        }
    }
}

/// What happened on a connection.
pub enum ServerEvent {
    /// The client sent a frame.
    Frame(Frame),
    /// The transport failed or ended.
    Disconnected,
    /// A submission came out of the session's mailbox.
    Submission(String),
}

/// An event as plain values.
pub enum ServerEventView {
    Frame(FrameView),
    Disconnected,
    Submission(Seq<char>),
}

impl View for ServerEvent {
    type V = ServerEventView;

    open spec fn view(&self) -> ServerEventView {
        match self {
            ServerEvent::Frame(f) => ServerEventView::Frame(f@),
            ServerEvent::Disconnected => ServerEventView::Disconnected,
            ServerEvent::Submission(s) => ServerEventView::Submission(s@),
        }
    }
}

/// What to do on a connection.
pub enum ServerAction {
    /// Nothing.
    Ignore,
    /// The session `id` is registered: send the text frame `reply`, then
    /// forward what arrives in `mailbox`, the receiving half of the session's
    /// mailbox.
    Welcome { id: String, reply: String, mailbox: Receiver<String> },
    /// Send the text frame `frame`.
    Send { frame: String },
    /// Answer a ping with a pong that carries `payload`.
    Pong { payload: Vec<u8> },
    /// End the connection and send nothing.
    Close,
}

/// An action as plain values.
pub enum ServerActionView {
    Ignore,
    Welcome { id: Seq<char>, reply: Seq<char>, mailbox: int },
    Send { frame: Seq<char> },
    Pong { payload: Seq<u8> },
    Close,
}

impl View for ServerAction {
    type V = ServerActionView;

    open spec fn view(&self) -> ServerActionView {
        match self {
            ServerAction::Ignore => ServerActionView::Ignore,
            ServerAction::Welcome { id, reply, mailbox } => ServerActionView::Welcome {
                id: id@,
                reply: reply@,
                mailbox: source_of(*mailbox),
            },
            ServerAction::Send { frame } => ServerActionView::Send { frame: frame@ },
            ServerAction::Pong { payload } => ServerActionView::Pong { payload: payload@ },
            ServerAction::Close => ServerActionView::Close,
        }
    }
}

impl ServerActionView {
    /// Whether the action sends a frame to the client.
    pub open spec fn replies(self) -> bool {
        self is Welcome || self is Send || self is Pong
    }
}

/// Whether `frame` is a first frame that opens a session.
pub open spec fn is_valid_hello(frame: FrameView) -> bool {
    frame matches FrameView::Text(t) && hello_request(t) is Ok
}

/// Whether `event` is a frame that, as a first frame, opens no session and
/// is no ping.
pub open spec fn is_refused_frame(event: ServerEventView) -> bool {
    match event {
        ServerEventView::Frame(f) => !(f is Ping) && !is_valid_hello(f),
        _ => false,
    }
}

/// Whether one step may lead from `phase` with the live sessions `sessions`,
/// on `event`, to `next` with `after`, deciding `action`.
pub open spec fn server_step(
    phase: ServerPhaseView,
    sessions: Seq<SessionView>,
    event: ServerEventView,
    next: ServerPhaseView,
    after: Seq<SessionView>,
    action: ServerActionView,
) -> bool {
    match phase {
        ServerPhaseView::AwaitHello => match event {
            ServerEventView::Frame(FrameView::Ping(p)) => {
                &&& next == phase
                &&& after == sessions
                &&& action == ServerActionView::Pong { payload: p }
            },
            ServerEventView::Frame(FrameView::Text(t)) if hello_request(t) is Ok => {
                &&& next matches ServerPhaseView::Active { id }
                &&& registered(sessions, hello_request(t)->Ok_0, id, after)
                &&& action == ServerActionView::Welcome {
                    id,
                    reply: "hello:"@ + id,
                    mailbox: mailbox_of(after, id),
                }
            },
            _ => {
                &&& next == ServerPhaseView::Closed
                &&& after == sessions
                &&& action == ServerActionView::Close
            },
        },
        ServerPhaseView::Active { id } => match event {
            ServerEventView::Frame(FrameView::Ping(p)) => {
                &&& next == phase
                &&& after == sessions
                &&& action == ServerActionView::Pong { payload: p }
            },
            ServerEventView::Frame(FrameView::Close) | ServerEventView::Disconnected => {
                &&& next == ServerPhaseView::Closed
                &&& after == without(sessions, id)
                &&& action == ServerActionView::Close
            },
            ServerEventView::Frame(_) => {
                &&& next == phase
                &&& after == sessions
                &&& action == ServerActionView::Ignore
            },
            ServerEventView::Submission(song) => {
                &&& next == phase
                &&& after == sessions
                &&& action == ServerActionView::Send { frame: "push:"@ + song }
            },
        },
        ServerPhaseView::Closed => {
            &&& next == phase
            &&& after == sessions
            &&& action == ServerActionView::Ignore
        },
    }
}

/// The server's end of one connection.
pub struct ServerEndpoint {
    phase: ServerPhase,
}

impl View for ServerEndpoint {
    type V = ServerPhaseView;

    closed spec fn view(&self) -> ServerPhaseView {
        self.phase@
    }
}

impl ServerEndpoint {
    /// The endpoint of a connection that has just been accepted.
    pub fn new() -> (r: Self)
        ensures
            r@ == ServerPhaseView::AwaitHello,
    {
        ServerEndpoint { phase: ServerPhase::AwaitHello }
    }

    /// Whether the connection is over.
    pub fn is_closed(&self) -> (r: bool)
        ensures
            r == (self@ is Closed),
    {
        match &self.phase {
            ServerPhase::Closed => true,
            _ => false,
        }
    }

    /// Decides what to do on `event`.
    ///
    /// A first frame that is a valid hello registers a session and is
    /// answered with the assigned id; any other first frame but a ping ends
    /// the connection without a reply. A ping is answered with a pong in
    /// every phase but the last. Once the session is registered, each
    /// submission is sent on as a push, and a close frame or a failed
    /// transport ends the connection and removes the session.
    pub fn step(&mut self, registry: &mut Connections, event: ServerEvent) -> (action: ServerAction)
        ensures
            unique_ids(final(registry)@),
            server_step(
                old(self)@,
                old(registry)@,
                event@,
                final(self)@,
                final(registry)@,
                action@,
            ),
            old(self)@ is AwaitHello && is_refused_frame(event@) ==> final(self)@ is Closed
                && !action@.replies() && final(registry)@ == old(registry)@,
    {
        proof {
            use_type_invariant(&*registry);
        }
        match &self.phase {
            ServerPhase::AwaitHello => match event {
                ServerEvent::Frame(Frame::Ping(payload)) => ServerAction::Pong { payload },
                ServerEvent::Frame(Frame::Text(text)) => match parse_hello(text.as_str()) {
                    Ok(request) => {
                        let (id, mailbox) = registry.register(request);
                        let reply = welcome_frame(id.as_str());
                        self.phase = ServerPhase::Active { id: id.clone() };
                        ServerAction::Welcome { id, reply, mailbox }
                    },
                    Err(_) => {
                        self.phase = ServerPhase::Closed;
                        ServerAction::Close
                    },
                },
                _ => {
                    self.phase = ServerPhase::Closed;
                    ServerAction::Close
                },
            },
            ServerPhase::Active { id } => match event {
                ServerEvent::Frame(Frame::Ping(payload)) => ServerAction::Pong { payload },
                ServerEvent::Frame(Frame::Close) | ServerEvent::Disconnected => {
                    registry.unregister(id.as_str());
                    self.phase = ServerPhase::Closed;
                    ServerAction::Close
                },
                ServerEvent::Frame(_) => ServerAction::Ignore,
                ServerEvent::Submission(song) => ServerAction::Send {
                    frame: push_frame(song.as_str()),
                },
            },
            ServerPhase::Closed => ServerAction::Ignore,
        }
    }
}

/// A first frame that is neither a valid hello nor a ping ends the
/// connection: no frame is sent back and no session is registered.
pub proof fn lemma_refused_first_frame(
    sessions: Seq<SessionView>,
    event: ServerEventView,
    next: ServerPhaseView,
    after: Seq<SessionView>,
    action: ServerActionView,
)
    requires
        is_refused_frame(event),
        server_step(ServerPhaseView::AwaitHello, sessions, event, next, after, action),
    ensures
        next is Closed,
        !action.replies(),
        after == sessions,
{
}

/// A close frame and a failed transport end a registered session's
/// connection, and the session is no longer live afterwards.
pub proof fn lemma_close_unregisters(
    id: Seq<char>,
    sessions: Seq<SessionView>,
    event: ServerEventView,
    next: ServerPhaseView,
    after: Seq<SessionView>,
    action: ServerActionView,
)
    requires
        unique_ids(sessions),
        event == ServerEventView::Frame(FrameView::Close) || event is Disconnected,
        server_step(ServerPhaseView::Active { id }, sessions, event, next, after, action),
    ensures
        next is Closed,
        !is_live(after, id),
        !action.replies(),
{
    lemma_unregister_twice(sessions, id);
}

/// A ping is answered with a pong of the same payload and changes nothing,
/// as long as the connection is not over.
pub proof fn lemma_ping_is_answered(
    phase: ServerPhaseView,
    sessions: Seq<SessionView>,
    payload: Seq<u8>,
    next: ServerPhaseView,
    after: Seq<SessionView>,
    action: ServerActionView,
)
    requires
        !(phase is Closed),
        server_step(
            phase,
            sessions,
            ServerEventView::Frame(FrameView::Ping(payload)),
            next,
            after,
            action,
        ),
    ensures
        next == phase,
        after == sessions,
        action == (ServerActionView::Pong { payload }),
{
}

/// A submission is pushed to the session that it came out of the mailbox
/// for, as `push:<song id>`, and to no other effect.
pub proof fn lemma_submission_is_pushed(
    id: Seq<char>,
    sessions: Seq<SessionView>,
    song: Seq<char>,
    next: ServerPhaseView,
    after: Seq<SessionView>,
    action: ServerActionView,
)
    requires
        server_step(
            ServerPhaseView::Active { id },
            sessions,
            ServerEventView::Submission(song),
            next,
            after,
            action,
        ),
    ensures
        next == (ServerPhaseView::Active { id }),
        after == sessions,
        action == (ServerActionView::Send { frame: "push:"@ + song }),
{
}

/// The assigned id is sent once: the welcome is decided on the first frame
/// only, and a connection that is past its first frame never waits for one
/// again.
pub proof fn lemma_welcome_is_sent_once(
    phase: ServerPhaseView,
    sessions: Seq<SessionView>,
    event: ServerEventView,
    next: ServerPhaseView,
    after: Seq<SessionView>,
    action: ServerActionView,
)
    requires
        server_step(phase, sessions, event, next, after, action),
    ensures
        action is Welcome ==> phase is AwaitHello && next is Active,
        !(phase is AwaitHello) ==> !(next is AwaitHello),
{
}

} // verus!
