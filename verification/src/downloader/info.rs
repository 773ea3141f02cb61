//! The first stage of the pipeline: from a track id to an entry of the
//! store.

use crate::downloader::{requeued, Backlog, DownloadEntry, EntryView, Message, MessageView};
use crate::state::{Song, SongView, State, StoreView};
use vstd::prelude::*;

verus! {

/// What the worker of the first stage reports.
pub enum InfoEvent {
    /// A message came through the channel.
    Message(Message),
    /// The channel is closed.
    Disconnected,
    /// No message is pending.
    Drained,
    /// The metadata of the entry at work was found in the cache, and its
    /// audio with it. The entry is taken as downloaded.
    Cached(Song),
    /// The cache holds no metadata of the entry at work that can be read.
    NotCached,
    /// The metadata of the entry at work was fetched.
    Fetched(Song),
    /// The metadata of the entry at work could not be fetched.
    FetchFailed,
    /// The id was handed to the second stage.
    Forwarded,
}

/// An event as plain values.
pub enum InfoEventView {
    Message(MessageView),
    Disconnected,
    Drained,
    Cached(SongView),
    NotCached,
    Fetched(SongView),
    FetchFailed,
    Forwarded,
}

impl View for InfoEvent {
    type V = InfoEventView;

    open spec fn view(&self) -> InfoEventView {
        match self {
            InfoEvent::Message(m) => InfoEventView::Message(m@),
            InfoEvent::Disconnected => InfoEventView::Disconnected,
            InfoEvent::Drained => InfoEventView::Drained,
            InfoEvent::Cached(song) => InfoEventView::Cached(song@),
            InfoEvent::NotCached => InfoEventView::NotCached,
            InfoEvent::Fetched(song) => InfoEventView::Fetched(song@),
            InfoEvent::FetchFailed => InfoEventView::FetchFailed,
            InfoEvent::Forwarded => InfoEventView::Forwarded,
        }
    }
}

/// What a look into the cache says of the entry at work: it is cached if its
/// audio is there and its metadata could be read, and else not. Metadata
/// alone is no hit, so that no entry counts as downloaded without its audio.
pub fn cache_probe(audio_present: bool, metadata: Option<Song>) -> (event: InfoEvent)
    ensures
        event@ == match metadata {
            Some(song) if audio_present => InfoEventView::Cached(song@),
            _ => InfoEventView::NotCached,
        },
{
    match metadata {
        Some(song) => if audio_present {
            InfoEvent::Cached(song)
        } else {
            InfoEvent::NotCached
        },
        None => InfoEvent::NotCached,
    }
}

/// What the worker of the first stage is to do next.
pub enum InfoAction {
    /// Wait until a message comes through the channel.
    Receive,
    /// Look whether a message is pending, without waiting.
    Poll,
    /// Look for the metadata of track `id` in the cache.
    Probe { id: String },
    /// Fetch the metadata of track `id`.
    Fetch { id: String },
    /// Hand `id` to the second stage.
    Forward { id: String },
    /// Tell the second stage to quit, and end.
    Stop,
}

/// An action as plain values.
pub enum InfoActionView {
    Receive,
    Poll,
    Probe { id: Seq<char> },
    Fetch { id: Seq<char> },
    Forward { id: Seq<char> },
    Stop,
}

impl View for InfoAction {
    type V = InfoActionView;

    open spec fn view(&self) -> InfoActionView {
        match self {
            InfoAction::Receive => InfoActionView::Receive,
            InfoAction::Poll => InfoActionView::Poll,
            InfoAction::Probe { id } => InfoActionView::Probe { id: id@ },
            InfoAction::Fetch { id } => InfoActionView::Fetch { id: id@ },
            InfoAction::Forward { id } => InfoActionView::Forward { id: id@ },
            InfoAction::Stop => InfoActionView::Stop,
        }
    }
}

/// What the first stage is busy with.
pub enum InfoPhaseView {
    /// Nothing: the next entry can be taken up.
    Idle,
    /// The entry `entry` is at work.
    Working { entry: EntryView },
    /// The stage has ended.
    Stopped,
}

/// The first stage as plain values.
pub struct InfoStageView {
    pub backlog: Seq<EntryView>,
    pub phase: InfoPhaseView,
}

/// A step of the first stage: the stage and the store after it, and what
/// the worker is to do next.
pub struct InfoStep {
    pub stage: InfoStageView,
    pub store: StoreView,
    pub action: InfoActionView,
}

/// What an idle stage does next: it waits for a message if nothing is left
/// to do, and else looks for pending messages before it takes up an entry.
pub open spec fn info_idle_action(backlog: Seq<EntryView>) -> InfoActionView {
    if backlog.len() == 0 {
        InfoActionView::Receive
    } else {
        InfoActionView::Poll
    }
}

/// The step of the first stage on `event`.
pub open spec fn info_step(stage: InfoStageView, store: StoreView, event: InfoEventView) -> InfoStep {
    let backlog = stage.backlog;
    match stage.phase {
        InfoPhaseView::Stopped => InfoStep { stage, store, action: InfoActionView::Stop },
        _ => match event {
            InfoEventView::Message(MessageView::Quit) | InfoEventView::Disconnected => InfoStep {
                stage: InfoStageView { backlog, phase: InfoPhaseView::Stopped },
                store,
                action: InfoActionView::Stop,
            },
            InfoEventView::Message(MessageView::Download { id, is_fallback }) => InfoStep {
                stage: InfoStageView {
                    backlog: backlog.push(EntryView::fresh(id, is_fallback)),
                    phase: stage.phase,
                },
                store,
                action: InfoActionView::Poll,
            },
            _ => match stage.phase {
                InfoPhaseView::Working { entry } => match event {
                    InfoEventView::Cached(song) => InfoStep {
                        stage: InfoStageView { backlog, phase: InfoPhaseView::Idle },
                        store: store.enqueue(song.ready(), entry.is_fallback),
                        action: info_idle_action(backlog),
                    },
                    InfoEventView::NotCached => InfoStep {
                        stage,
                        store,
                        action: InfoActionView::Fetch { id: entry.id },
                    },
                    InfoEventView::Fetched(song) => InfoStep {
                        stage: InfoStageView { backlog, phase: InfoPhaseView::Idle },
                        store: store.enqueue(song.pending(), entry.is_fallback),
                        action: InfoActionView::Forward { id: entry.id },
                    },
                    InfoEventView::FetchFailed => InfoStep {
                        stage: InfoStageView {
                            backlog: requeued(backlog, entry),
                            phase: InfoPhaseView::Idle,
                        },
                        store,
                        action: info_idle_action(requeued(backlog, entry)),
                    },
                    _ => InfoStep { stage, store, action: InfoActionView::Probe { id: entry.id } },
                },
                _ => match event {
                    InfoEventView::Drained if backlog.len() > 0 => InfoStep {
                        stage: InfoStageView {
                            backlog: backlog.skip(1),
                            phase: InfoPhaseView::Working { entry: backlog[0] },
                        },
                        store,
                        action: InfoActionView::Probe { id: backlog[0].id },
                    },
                    _ => InfoStep { stage, store, action: info_idle_action(backlog) },
                },
            },
        },
    }
}

/// The first stage of the pipeline.
pub struct InfoStage {
    backlog: Backlog,
    current: Option<DownloadEntry>,
    stopped: bool,
}

impl View for InfoStage {
    type V = InfoStageView;

    closed spec fn view(&self) -> InfoStageView {
        InfoStageView {
            backlog: self.backlog@,
            phase: if self.stopped {
                InfoPhaseView::Stopped
            } else {
                match self.current {
                    Some(entry) => InfoPhaseView::Working { entry: entry@ },
                    None => InfoPhaseView::Idle,
                }
            },
        }
    }
}

impl InfoStage {
    /// A stage with nothing to do.
    pub fn new() -> (r: Self)
        ensures
            r@.backlog == Seq::<EntryView>::empty(),
            r@.phase is Idle,
    {
        InfoStage { backlog: Backlog::new(), current: None, stopped: false }
    }

    /// What an idle stage does next.
    fn idle_action(&self) -> (r: InfoAction)
        ensures
            r@ == info_idle_action(self.backlog@),
    {
        if self.backlog.is_empty() {
            InfoAction::Receive
        } else {
            InfoAction::Poll
        }
    }

    /// Takes `event` in and decides what the worker does next.
    ///
    /// Every id that comes through the channel joins the backlog. With no
    /// message pending, the entry at the front is taken up and looked for in
    /// the cache. Cached metadata goes into the store as a downloaded entry
    /// and is not handed on; fetched metadata goes into the store as an entry
    /// whose audio is to come, and the id is handed to the second stage. An
    /// entry whose fetch failed returns to the front of the backlog with one
    /// try less, or is dropped without one. A quit and a closed channel end
    /// the stage.
    pub fn step(&mut self, store: &mut State, event: InfoEvent) -> (action: InfoAction)
        ensures
            final(self)@ == info_step(old(self)@, old(store)@, event@).stage,
            final(store)@ == info_step(old(self)@, old(store)@, event@).store,
            action@ == info_step(old(self)@, old(store)@, event@).action,
    {
        if self.stopped {
            return InfoAction::Stop;
        }
        match event {
            InfoEvent::Message(Message::Quit) | InfoEvent::Disconnected => {
                self.stopped = true;
                return InfoAction::Stop;
            },
            InfoEvent::Message(Message::Download { id, is_fallback }) => {
                self.backlog.enqueue(id, is_fallback);
                return InfoAction::Poll;
            },
            _ => {},
        }
        match self.current.take() {
            Some(mut entry) => match event {
                InfoEvent::Cached(mut song) => {
                    song.downloaded = true;
                    store.enqueue(song, entry.is_fallback);
                    self.idle_action()
                },
                InfoEvent::NotCached => {
                    let id = entry.id.clone();
                    self.current = Some(entry);
                    InfoAction::Fetch { id }
                },
                InfoEvent::Fetched(mut song) => {
                    song.downloaded = false;
                    store.enqueue(song, entry.is_fallback);
                    InfoAction::Forward { id: entry.id }
                },
                InfoEvent::FetchFailed => {
                    self.backlog.requeue(entry);
                    self.idle_action()
                },
                _ => {
                    let id = entry.id.clone();
                    self.current = Some(entry);
                    InfoAction::Probe { id }
                },
            },
            None => match event {
                InfoEvent::Drained => match self.backlog.dequeue() {
                    Some(entry) => {
                        let id = entry.id.clone();
                        self.current = Some(entry);
                        InfoAction::Probe { id }
                    },
                    None => InfoAction::Receive,
                },
                _ => self.idle_action(),
            },
        }
    }
}

/// A failed fetch never ends the stage and never touches the store: the
/// entry returns to the front of the backlog with one try less, or is dropped
/// if it had none left.
pub proof fn lemma_fetch_failure_is_contained(
    stage: InfoStageView,
    store: StoreView,
    entry: EntryView,
)
    requires
        stage.phase == (InfoPhaseView::Working { entry }),
    ensures
        ({
            let step = info_step(stage, store, InfoEventView::FetchFailed);
            &&& step.stage.phase is Idle
            &&& step.store == store
            &&& !(step.action is Stop)
            &&& entry.tries_left == 0 ==> step.stage.backlog == stage.backlog
            &&& entry.tries_left > 0 ==> step.stage.backlog == seq![entry.charged()]
                + stage.backlog && step.stage.backlog[0].tries_left < entry.tries_left
        }),
{
}

/// Cached metadata goes into the store as a downloaded entry, and its id is
/// not handed to the second stage.
pub proof fn lemma_cached_entry_is_not_forwarded(
    stage: InfoStageView,
    store: StoreView,
    entry: EntryView,
    song: SongView,
)
    requires
        stage.phase == (InfoPhaseView::Working { entry }),
    ensures
        ({
            let step = info_step(stage, store, InfoEventView::Cached(song));
            &&& step.store == store.enqueue(song.ready(), entry.is_fallback)
            &&& !(step.action is Forward)
            &&& step.stage.backlog == stage.backlog
        }),
{
}

/// Fetched metadata goes into the store as an entry whose audio is to come,
/// and the id of the entry at work is handed to the second stage.
pub proof fn lemma_fetched_entry_is_forwarded(
    stage: InfoStageView,
    store: StoreView,
    entry: EntryView,
    song: SongView,
)
    requires
        stage.phase == (InfoPhaseView::Working { entry }),
    ensures
        ({
            let step = info_step(stage, store, InfoEventView::Fetched(song));
            &&& step.store == store.enqueue(song.pending(), entry.is_fallback)
            &&& step.action == (InfoActionView::Forward { id: entry.id })
        }),
{
}

/// A stage that has ended stays ended, whatever is reported to it, and
/// leaves the store alone.
pub proof fn lemma_stopped_info_stage_is_inert(
    stage: InfoStageView,
    store: StoreView,
    event: InfoEventView,
)
    requires
        stage.phase is Stopped,
    ensures
        info_step(stage, store, event).stage == stage,
        info_step(stage, store, event).store == store,
        info_step(stage, store, event).action is Stop,
{
}

} // verus!
