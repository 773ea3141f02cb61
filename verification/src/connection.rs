//! The client's end of the connection.
//!
//! The supervisor owns the decisions of the one connection a client has:
//! what to send, which event to report, when to stop. The worker that owns
//! the socket performs what was decided and reports what happened next. A
//! supervisor that has stopped stays stopped: nothing connects again.

use crate::protocol::{
    hello_frame, hello_text, parse_server_message, server_message, Frame, FrameView, ServerMessage,
    ServerMessageView,
};
use crate::util::{Event, EventView};
use vstd::prelude::*;

verus! {

/// How long the worker sleeps when the socket has nothing to read, in
/// milliseconds.
pub const POLL_INTERVAL_MS: u64 = 50;

/// Where the connection stands.
#[derive(Clone, Copy, Debug, PartialEq, Eq, Structural)]
pub enum ClientPhase {
    /// The transport is not established yet.
    Init,
    /// The hello is sent; the server's answer is awaited.
    AwaitHello,
    /// The session is registered.
    Active,
    /// The connection is over.
    Closed,
}

/// What the worker reports to the supervisor.
pub enum Input {
    /// The transport is established.
    Connected,
    /// The transport could not be established.
    ConnectFailed { msg: String },
    /// The server sent a frame.
    Frame(Frame),
    /// There is nothing to read yet.
    Idle,
    /// Reading or writing failed.
    Failed { msg: String },
    /// The client is shutting down.
    Quit,
}

/// An input as plain values.
pub enum InputView {
    Connected,
    ConnectFailed { msg: Seq<char> },
    Frame(FrameView),
    Idle,
    Failed { msg: Seq<char> },
    Quit,
}

impl View for Input {
    type V = InputView;

    open spec fn view(&self) -> InputView {
        match self {
            Input::Connected => InputView::Connected,
            Input::ConnectFailed { msg } => InputView::ConnectFailed { msg: msg@ },
            Input::Frame(f) => InputView::Frame(f@),
            Input::Idle => InputView::Idle,
            Input::Failed { msg } => InputView::Failed { msg: msg@ },
            Input::Quit => InputView::Quit,
        }
    }
}

/// What the supervisor tells the worker to do.
pub enum Output {
    /// Nothing.
    Ignore,
    /// Send the text frame `frame`.
    Send { frame: String },
    /// Answer a ping with a pong that carries `payload`.
    Pong { payload: Vec<u8> },
    /// Report `event`.
    Emit { event: Event },
    /// Sleep for `millis` milliseconds, then read again.
    Sleep { millis: u64 },
    /// Report `event` and stop; send a close frame first if `close`.
    Stop { event: Event, close: bool },
}

/// An output as plain values.
pub enum OutputView {
    Ignore,
    Send { frame: Seq<char> },
    Pong { payload: Seq<u8> },
    Emit { event: EventView },
    Sleep { millis: u64 },
    Stop { event: EventView, close: bool },
}

impl View for Output {
    type V = OutputView;

    open spec fn view(&self) -> OutputView {
        match self {
            Output::Ignore => OutputView::Ignore,
            Output::Send { frame } => OutputView::Send { frame: frame@ },
            Output::Pong { payload } => OutputView::Pong { payload: payload@ },
            Output::Emit { event } => OutputView::Emit { event: event@ },
            Output::Sleep { millis } => OutputView::Sleep { millis: *millis },
            Output::Stop { event, close } => OutputView::Stop { event: event@, close: *close },
        }
    }
}

/// The supervisor as plain values.
pub struct SupervisorView {
    pub phase: ClientPhase,
    pub request_id: Option<Seq<char>>,
}

/// The phase after `input`.
pub open spec fn next_phase(phase: ClientPhase, input: InputView) -> ClientPhase {
    match phase {
        ClientPhase::Closed => ClientPhase::Closed,
        ClientPhase::Init => match input {
            InputView::Connected => ClientPhase::AwaitHello,
            InputView::ConnectFailed { .. } | InputView::Failed { .. } | InputView::Quit =>
                ClientPhase::Closed,
            _ => phase,
        },
        _ => match input {
            InputView::ConnectFailed { .. } | InputView::Failed { .. } | InputView::Quit =>
                ClientPhase::Closed,
            InputView::Frame(FrameView::Close) => ClientPhase::Closed,
            InputView::Frame(FrameView::Text(t)) => match server_message(t) {
                Some(ServerMessageView::Hello { .. }) => ClientPhase::Active,
                _ => phase,
            },
            _ => phase,
        },
    }
}

/// What the supervisor decides on `input`.
pub open spec fn decision(s: SupervisorView, input: InputView) -> OutputView {
    match s.phase {
        ClientPhase::Closed => OutputView::Ignore,
        ClientPhase::Init => match input {
            InputView::Connected => OutputView::Send { frame: hello_text(s.request_id) },
            InputView::ConnectFailed { msg } | InputView::Failed { msg } => OutputView::Stop {
                event: EventView::ConnError { msg },
                close: false,
            },
            InputView::Quit => OutputView::Stop { event: EventView::ServerClose, close: false },
            _ => OutputView::Ignore,
        },
        _ => match input {
            InputView::Connected => OutputView::Ignore,
            InputView::ConnectFailed { msg } | InputView::Failed { msg } => OutputView::Stop {
                event: EventView::ConnError { msg },
                close: false,
            },
            InputView::Quit => OutputView::Stop { event: EventView::ServerClose, close: true },
            InputView::Idle => OutputView::Sleep { millis: POLL_INTERVAL_MS },
            InputView::Frame(FrameView::Ping(payload)) => OutputView::Pong { payload },
            InputView::Frame(FrameView::Close) => OutputView::Stop {
                event: EventView::ServerClose,
                close: false,
            },
            InputView::Frame(FrameView::Text(t)) => match server_message(t) {
                Some(ServerMessageView::Hello { id }) => OutputView::Emit {
                    event: EventView::ServerHello { id },
                },
                Some(ServerMessageView::Push { song_id }) => if s.phase == ClientPhase::Active {
                    OutputView::Emit { event: EventView::Push { song_id } }
                } else {
                    OutputView::Ignore
                },
                None => OutputView::Ignore,
            },
            InputView::Frame(_) => OutputView::Ignore,
        },
    }
}

/// The client's end of the connection.
pub struct Supervisor {
    phase: ClientPhase,
    request_id: Option<String>,
}

impl View for Supervisor {
    type V = SupervisorView;

    closed spec fn view(&self) -> SupervisorView {
        SupervisorView {
            phase: self.phase,
            request_id: match self.request_id {
                Some(id) => Some(id@),
                None => None,
            },
        }
    }
}

impl Supervisor {
    /// A supervisor that will ask for `request_id`, or for a fresh id.
    pub fn new(request_id: Option<String>) -> (r: Self)
        ensures
            r@.phase == ClientPhase::Init,
            r@.request_id == match request_id {
                Some(id) => Some(id@),
                None => None,
            },
    {
        Supervisor { phase: ClientPhase::Init, request_id }
    }

    /// Where the connection stands.
    pub fn phase(&self) -> (r: ClientPhase)
        ensures
            r == self@.phase,
    {
        self.phase
    }

    /// Decides what to do on `input`.
    ///
    /// Once the transport stands, the hello is sent. The server's hello
    /// makes the session active and is reported; a push is reported once the
    /// session is active. A ping is answered, an idle read is followed by a
    /// short sleep. A failure, a close frame and a quit each stop the
    /// supervisor with one last event; after that every input is ignored.
    pub fn step(&mut self, input: Input) -> (output: Output)
        ensures
            output@ == decision(old(self)@, input@),
            final(self)@.phase == next_phase(old(self)@.phase, input@),
            final(self)@.request_id == old(self)@.request_id,
    {
        match self.phase {
            ClientPhase::Closed => Output::Ignore,
            ClientPhase::Init => match input {
                Input::Connected => {
                    self.phase = ClientPhase::AwaitHello;
                    let frame = match &self.request_id {
                        Some(id) => hello_frame(Some(id.as_str())),
                        None => hello_frame(None),
                    };
                    Output::Send { frame }
                },
                Input::ConnectFailed { msg } | Input::Failed { msg } => {
                    self.phase = ClientPhase::Closed;
                    Output::Stop { event: Event::ConnError { msg }, close: false }
                },
                Input::Quit => {
                    self.phase = ClientPhase::Closed;
                    Output::Stop { event: Event::ServerClose, close: false }
                },
                _ => Output::Ignore,
            },
            _ => match input {
                Input::Connected => Output::Ignore,
                Input::ConnectFailed { msg } | Input::Failed { msg } => {
                    self.phase = ClientPhase::Closed;
                    Output::Stop { event: Event::ConnError { msg }, close: false }
                },
                Input::Quit => {
                    self.phase = ClientPhase::Closed;
                    Output::Stop { event: Event::ServerClose, close: true }
                },
                Input::Idle => Output::Sleep { millis: POLL_INTERVAL_MS },
                Input::Frame(Frame::Ping(payload)) => Output::Pong { payload },
                Input::Frame(Frame::Close) => {
                    self.phase = ClientPhase::Closed;
                    Output::Stop { event: Event::ServerClose, close: false }
                },
                Input::Frame(Frame::Text(text)) => match parse_server_message(text.as_str()) {
                    Some(ServerMessage::Hello { id }) => {
                        self.phase = ClientPhase::Active;
                        Output::Emit { event: Event::ServerHello { id } }
                    },
                    Some(ServerMessage::Push { song_id }) => {
                        if self.phase == ClientPhase::Active {
                            Output::Emit { event: Event::Push { song_id } }
                        } else {
                            Output::Ignore
                        }
                    },
                    None => Output::Ignore,
                },
                Input::Frame(_) => Output::Ignore,
            },
        }
    }
}

/// A supervisor that has stopped ignores every input and stays stopped.
pub proof fn lemma_stopped_is_inert(s: SupervisorView, input: InputView)
    requires
        s.phase == ClientPhase::Closed,
    ensures
        decision(s, input) == OutputView::Ignore,
        next_phase(s.phase, input) == ClientPhase::Closed,
{
}

/// The supervisor stops exactly when it decides on a last event: a decision
/// to stop leaves it stopped, and it does not reach the stopped phase in any
/// other way.
pub proof fn lemma_stop_is_final(s: SupervisorView, input: InputView)
    requires
        s.phase != ClientPhase::Closed,
    ensures
        decision(s, input) is Stop <==> next_phase(s.phase, input) == ClientPhase::Closed,
{
}

/// A connect failure and a transport failure are each reported as one
/// connection error that carries the failure's message, and stop the
/// supervisor.
pub proof fn lemma_failure_is_reported(s: SupervisorView, msg: Seq<char>)
    requires
        s.phase != ClientPhase::Closed,
    ensures
        decision(s, InputView::ConnectFailed { msg }) == (OutputView::Stop {
            event: EventView::ConnError { msg },
            close: false,
        }),
        decision(s, InputView::Failed { msg }) == (OutputView::Stop {
            event: EventView::ConnError { msg },
            close: false,
        }),
        next_phase(s.phase, InputView::ConnectFailed { msg }) == ClientPhase::Closed,
        next_phase(s.phase, InputView::Failed { msg }) == ClientPhase::Closed,
{
}

/// No push is reported before the server's hello has arrived.
pub proof fn lemma_no_push_before_hello(s: SupervisorView, input: InputView)
    requires
        s.phase == ClientPhase::Init || s.phase == ClientPhase::AwaitHello,
    ensures
        !(decision(s, input) matches OutputView::Emit { event } && event is Push),
{
}

/// The phase after the inputs `inputs`, first to last.
pub open spec fn phase_after(phase: ClientPhase, inputs: Seq<InputView>) -> ClientPhase
    decreases inputs.len(),
{
    if inputs.len() == 0 {
        phase
    } else {
        next_phase(phase_after(phase, inputs.drop_last()), inputs.last())
    }
}

/// How often the supervisor decides to stop over the inputs `inputs`.
pub open spec fn stops(s: SupervisorView, inputs: Seq<InputView>) -> nat
    decreases inputs.len(),
{
    if inputs.len() == 0 {
        0
    } else {
        let before = SupervisorView {
            phase: phase_after(s.phase, inputs.drop_last()),
            request_id: s.request_id,
        };
        stops(s, inputs.drop_last()) + if decision(before, inputs.last()) is Stop {
            1nat
        } else {
            0nat
        }
    }
}

/// Whatever is reported to it, and in whatever order, the supervisor
/// decides to stop at most once, and it has done so exactly if it has
/// stopped.
pub proof fn lemma_stops_at_most_once(s: SupervisorView, inputs: Seq<InputView>)
    requires
        s.phase != ClientPhase::Closed,
    ensures
        stops(s, inputs) <= 1,
        stops(s, inputs) == 1 <==> phase_after(s.phase, inputs) == ClientPhase::Closed,
    decreases inputs.len(),
{
    if inputs.len() > 0 {
        lemma_stops_at_most_once(s, inputs.drop_last());
        let before = SupervisorView {
            phase: phase_after(s.phase, inputs.drop_last()),
            request_id: s.request_id,
        };
        if before.phase == ClientPhase::Closed {
            lemma_stopped_is_inert(before, inputs.last());
        } else {
            lemma_stop_is_final(before, inputs.last());
        }
    }
}

} // verus!
