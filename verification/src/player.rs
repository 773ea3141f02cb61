//! What the player decides: when it takes the next entry from the store,
//! when it idles, and what it reports back.
//!
//! The media engine itself is told to play a file and is asked for its
//! position; that is the worker's part.

use crate::state::{State, StoreView};
use crate::util::{audio_cache_location, audio_cache_name};
use std::time::Duration;
use vstd::prelude::*;

verus! {

/// How long the worker sleeps when the store has nothing to play, in
/// milliseconds.
pub const IDLE_INTERVAL_MS: u64 = 50;

/// What the player is told through its channel.
#[derive(Clone, Copy, Debug, PartialEq, Eq, Structural)]
pub enum Message {
    /// Stop.
    Quit,
    /// Skip what is playing.
    Next,
    /// Pause, or resume.
    TogglePause,
}

/// What the worker of the player reports.
pub enum PlayerEvent {
    /// A message came through the channel.
    Message(Message),
    /// The channel is closed.
    Disconnected,
    /// No message is pending.
    Quiet,
    /// The file was handed to the engine.
    Loaded,
    /// The engine did not take the file.
    LoadFailed,
    /// A look at the engine: its position, if it told one, as total and
    /// elapsed time, and whether it has come to the end of the file.
    Observed { time: Option<(Duration, Duration)>, ended: bool },
}

/// What the worker of the player is to do next.
pub enum PlayerAction {
    /// Look whether a message is pending, without waiting.
    Poll,
    /// Sleep for `millis` milliseconds, then look for a message.
    Sleep { millis: u64 },
    /// Hand the file `path` below the cache directory, the audio of track
    /// `id`, to the engine.
    Load { id: String, path: String },
    /// Look at the engine; before that, pause or resume it if
    /// `toggle_pause`.
    Observe { toggle_pause: bool },
    /// End.
    Stop,
}

/// An action as plain values.
pub enum PlayerActionView {
    Poll,
    Sleep { millis: u64 },
    Load { id: Seq<char>, path: Seq<char> },
    Observe { toggle_pause: bool },
    Stop,
}

impl View for PlayerAction {
    type V = PlayerActionView;

    open spec fn view(&self) -> PlayerActionView {
        match self {
            PlayerAction::Poll => PlayerActionView::Poll,
            PlayerAction::Sleep { millis } => PlayerActionView::Sleep { millis: *millis },
            PlayerAction::Load { id, path } => PlayerActionView::Load { id: id@, path: path@ },
            PlayerAction::Observe { toggle_pause } => PlayerActionView::Observe {
                toggle_pause: *toggle_pause,
            },
            PlayerAction::Stop => PlayerActionView::Stop,
        }
    }
}

/// What the player is busy with.
#[derive(Clone, Copy, Debug, PartialEq, Eq, Structural)]
pub enum PlayerPhase {
    /// Nothing is playing.
    Idle,
    /// The entry that the store calls playing is with the engine.
    Playing,
    /// The player has ended.
    Stopped,
}

/// A step of the player: its phase and the store after it, and what the
/// worker is to do next.
pub struct PlayerStep {
    pub phase: PlayerPhase,
    pub store: StoreView,
    pub action: PlayerActionView,
}

/// The order to play the entry that a selection in `store` picks, or to idle
/// if it picks none.
pub open spec fn selection(store: StoreView) -> PlayerStep {
    match store.next_song() {
        Some(song) => PlayerStep {
            phase: PlayerPhase::Playing,
            store: store.take_next(),
            action: PlayerActionView::Load { id: song.id, path: audio_cache_name(song.id) },
        },
        None => PlayerStep {
            phase: PlayerPhase::Idle,
            store: store.take_next(),
            action: PlayerActionView::Sleep { millis: IDLE_INTERVAL_MS },
        },
    }
}

/// The step of the player on `event`.
pub open spec fn player_step(phase: PlayerPhase, store: StoreView, event: PlayerEvent) -> PlayerStep {
    match phase {
        PlayerPhase::Stopped => PlayerStep { phase, store, action: PlayerActionView::Stop },
        _ => match event {
            PlayerEvent::Message(Message::Quit) | PlayerEvent::Disconnected => PlayerStep {
                phase: PlayerPhase::Stopped,
                store,
                action: PlayerActionView::Stop,
            },
            _ => match phase {
                PlayerPhase::Playing => match event {
                    PlayerEvent::Message(Message::Next) | PlayerEvent::LoadFailed => PlayerStep {
                        phase: PlayerPhase::Idle,
                        store,
                        action: PlayerActionView::Poll,
                    },
                    PlayerEvent::Message(Message::TogglePause) => PlayerStep {
                        phase,
                        store,
                        action: PlayerActionView::Observe { toggle_pause: true },
                    },
                    PlayerEvent::Quiet => PlayerStep {
                        phase,
                        store,
                        action: PlayerActionView::Observe { toggle_pause: false },
                    },
                    PlayerEvent::Observed { time, ended } => PlayerStep {
                        phase: if ended {
                            PlayerPhase::Idle
                        } else {
                            phase
                        },
                        store: match time {
                            Some((total, elapsed)) => store.update_current_time(total, elapsed),
                            None => store,
                        },
                        action: PlayerActionView::Poll,
                    },
                    _ => PlayerStep { phase, store, action: PlayerActionView::Poll },
                },
                _ => match event {
                    PlayerEvent::Message(_) | PlayerEvent::Quiet => selection(store),
                    _ => PlayerStep { phase, store, action: PlayerActionView::Poll },
                },
            },
        },
    }
}

/// The player.
pub struct Player {
    phase: PlayerPhase,
}

impl View for Player {
    type V = PlayerPhase;

    closed spec fn view(&self) -> PlayerPhase {
        self.phase
    }
}

impl Player {
    /// A player with nothing to play.
    pub fn new() -> (r: Self)
        ensures
            r@ == PlayerPhase::Idle,
    {
        Player { phase: PlayerPhase::Idle }
    }

    /// What the player is busy with.
    pub fn phase(&self) -> (r: PlayerPhase)
        ensures
            r == self@,
    {
        self.phase
    }

    /// Takes `event` in and decides what the worker does next.
    ///
    /// With nothing playing, the player asks the store for the next entry
    /// whenever the channel has been looked at: it hands the entry to the
    /// engine, or idles for a moment if the store has none that is ready.
    /// While an entry plays, the worker looks at the channel and at the
    /// engine in turns, and the position that the engine tells goes into the
    /// store. The end of the file, a skip and a file that the engine does not
    /// take make the player ask for the next entry. A quit and a closed
    /// channel end the player.
    pub fn step(&mut self, store: &mut State, event: PlayerEvent) -> (action: PlayerAction)
        ensures
            final(self)@ == player_step(old(self)@, old(store)@, event).phase,
            final(store)@ == player_step(old(self)@, old(store)@, event).store,
            action@ == player_step(old(self)@, old(store)@, event).action,
    {
        match self.phase {
            PlayerPhase::Stopped => PlayerAction::Stop,
            PlayerPhase::Playing => match event {
                PlayerEvent::Message(Message::Quit) | PlayerEvent::Disconnected => {
                    self.phase = PlayerPhase::Stopped;
                    PlayerAction::Stop
                },
                PlayerEvent::Message(Message::Next) | PlayerEvent::LoadFailed => {
                    self.phase = PlayerPhase::Idle;
                    PlayerAction::Poll
                },
                PlayerEvent::Message(Message::TogglePause) => PlayerAction::Observe {
                    toggle_pause: true,
                },
                PlayerEvent::Quiet => PlayerAction::Observe { toggle_pause: false },
                PlayerEvent::Observed { time, ended } => {
                    match time {
                        Some((total, elapsed)) => store.update_current_time(total, elapsed),
                        None => {},
                    }
                    if ended {
                        self.phase = PlayerPhase::Idle;
                    }
                    PlayerAction::Poll
                },
                PlayerEvent::Loaded => PlayerAction::Poll,
            },
            PlayerPhase::Idle => match event {
                PlayerEvent::Message(Message::Quit) | PlayerEvent::Disconnected => {
                    self.phase = PlayerPhase::Stopped;
                    PlayerAction::Stop
                },
                PlayerEvent::Message(_) | PlayerEvent::Quiet => match store.get_next_song() {
                    Some(id) => {
                        let path = audio_cache_location(id.as_str());
                        self.phase = PlayerPhase::Playing;
                        PlayerAction::Load { id, path }
                    },
                    None => PlayerAction::Sleep { millis: IDLE_INTERVAL_MS },
                },
                _ => PlayerAction::Poll,
            },
        }
    }
}

/// A player with nothing playing and a store with nothing ready idles: the
/// playing slot is cleared, the queues stay as they are, and the worker
/// sleeps before it asks again.
pub proof fn lemma_idles_when_nothing_is_ready(store: StoreView)
    requires
        store.next_song() is None,
    ensures
        ({
            let step = player_step(PlayerPhase::Idle, store, PlayerEvent::Quiet);
            &&& step.phase == PlayerPhase::Idle
            &&& step.action == (PlayerActionView::Sleep { millis: IDLE_INTERVAL_MS })
            &&& step.store.playing is None
            &&& step.store.queue == store.queue
            &&& step.store.fallback == store.fallback
        }),
{
}

/// While an entry plays, nothing but the engine's position changes the
/// store, and it changes the timing of the playing entry only.
pub proof fn lemma_playing_keeps_the_queues(store: StoreView, event: PlayerEvent)
    ensures
        ({
            let step = player_step(PlayerPhase::Playing, store, event);
            &&& step.store.queue == store.queue
            &&& step.store.fallback == store.fallback
            &&& step.store.connection == store.connection
            &&& step.store.playing is Some <==> store.playing is Some
            &&& step.store.playing is Some ==> step.store.playing->0.song == store.playing->0.song
        }),
{
}

} // verus!
