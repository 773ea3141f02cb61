//! The second stage of the pipeline: the audio of an entry.

use crate::downloader::{
    get_youtube_url, requeued, youtube_address, Backlog, DownloadEntry, EntryView, Message,
    MessageView,
};
use crate::state::{State, StoreView};
use crate::util::{audio_cache_location, audio_cache_name};
use vstd::prelude::*;

verus! {

/// How long the worker sleeps between two looks at a running extraction, in
/// milliseconds.
pub const WAIT_INTERVAL_MS: u64 = 50;

/// What the worker of the second stage reports.
pub enum AudioEvent {
    /// A message came through the channel.
    Message(Message),
    /// The channel is closed.
    Disconnected,
    /// No message is pending.
    Drained,
    /// The audio of the entry at work is in the cache.
    Cached,
    /// The audio of the entry at work is not in the cache.
    NotCached,
    /// The extraction has not ended yet.
    Running,
    /// The extraction has ended, with success or without.
    Exited { success: bool },
    /// The extraction could not be started, or not be waited for.
    Failed,
}

/// An event as plain values.
pub enum AudioEventView {
    Message(MessageView),
    Disconnected,
    Drained,
    Cached,
    NotCached,
    Running,
    Exited { success: bool },
    Failed,
}

impl View for AudioEvent {
    type V = AudioEventView;

    open spec fn view(&self) -> AudioEventView {
        match self {
            AudioEvent::Message(m) => AudioEventView::Message(m@),
            AudioEvent::Disconnected => AudioEventView::Disconnected,
            AudioEvent::Drained => AudioEventView::Drained,
            AudioEvent::Cached => AudioEventView::Cached,
            AudioEvent::NotCached => AudioEventView::NotCached,
            AudioEvent::Running => AudioEventView::Running,
            AudioEvent::Exited { success } => AudioEventView::Exited { success: *success },
            AudioEvent::Failed => AudioEventView::Failed,
        }
    }
}

/// What the worker of the second stage is to do next.
pub enum AudioAction {
    /// Wait until a message comes through the channel.
    Receive,
    /// Look whether a message is pending, without waiting.
    Poll,
    /// Look for the audio of track `id` in the cache.
    Probe { id: String },
    /// Start the extraction of track `id` from `url` into the file `output`
    /// below the cache directory, then look whether it has ended.
    Spawn { id: String, url: String, output: String },
    /// Sleep for `millis` milliseconds, then look whether the extraction has
    /// ended.
    Wait { millis: u64 },
    /// End; before that, kill the running extraction if `kill`.
    Stop { kill: bool },
}

/// An action as plain values.
pub enum AudioActionView {
    Receive,
    Poll,
    Probe { id: Seq<char> },
    Spawn { id: Seq<char>, url: Seq<char>, output: Seq<char> },
    Wait { millis: u64 },
    Stop { kill: bool },
}

impl View for AudioAction {
    type V = AudioActionView;

    open spec fn view(&self) -> AudioActionView {
        match self {
            AudioAction::Receive => AudioActionView::Receive,
            AudioAction::Poll => AudioActionView::Poll,
            AudioAction::Probe { id } => AudioActionView::Probe { id: id@ },
            AudioAction::Spawn { id, url, output } => AudioActionView::Spawn {
                id: id@,
                url: url@,
                output: output@,
            },
            AudioAction::Wait { millis } => AudioActionView::Wait { millis: *millis },
            AudioAction::Stop { kill } => AudioActionView::Stop { kill: *kill },
        }
    }
}

/// What the second stage is busy with.
pub enum AudioPhaseView {
    /// Nothing: the next entry can be taken up.
    Idle,
    /// The entry `entry` is looked for in the cache.
    Probing { entry: EntryView },
    /// The audio of `entry` is being extracted.
    Downloading { entry: EntryView },
    /// The stage has ended.
    Stopped,
}

/// The second stage as plain values.
pub struct AudioStageView {
    pub backlog: Seq<EntryView>,
    pub phase: AudioPhaseView,
}

/// A step of the second stage: the stage and the store after it, and what
/// the worker is to do next.
pub struct AudioStep {
    pub stage: AudioStageView,
    pub store: StoreView,
    pub action: AudioActionView,
}

/// What an idle stage does next: it waits for a message if nothing is left
/// to do, and else looks for pending messages before it takes up an entry.
pub open spec fn audio_idle_action(backlog: Seq<EntryView>) -> AudioActionView {
    if backlog.len() == 0 {
        AudioActionView::Receive
    } else {
        AudioActionView::Poll
    }
}

/// The order to extract the audio of track `id`.
pub open spec fn spawn_order(id: Seq<char>) -> AudioActionView {
    AudioActionView::Spawn { id, url: youtube_address(id), output: audio_cache_name(id) }
}

/// The step of the second stage on `event`.
pub open spec fn audio_step(stage: AudioStageView, store: StoreView, event: AudioEventView) -> AudioStep {
    let backlog = stage.backlog;
    match stage.phase {
        AudioPhaseView::Stopped => AudioStep {
            stage,
            store,
            action: AudioActionView::Stop { kill: false },
        },
        _ => match event {
            AudioEventView::Message(MessageView::Quit) | AudioEventView::Disconnected => AudioStep {
                stage: AudioStageView { backlog, phase: AudioPhaseView::Stopped },
                store,
                action: AudioActionView::Stop { kill: stage.phase is Downloading },
            },
            AudioEventView::Message(MessageView::Download { id, is_fallback }) => AudioStep {
                stage: AudioStageView {
                    backlog: backlog.push(EntryView::fresh(id, is_fallback)),
                    phase: stage.phase,
                },
                store,
                action: if stage.phase is Downloading {
                    AudioActionView::Wait { millis: 0 }
                } else {
                    AudioActionView::Poll
                },
            },
            _ => match stage.phase {
                AudioPhaseView::Downloading { entry } => match event {
                    AudioEventView::Running => AudioStep {
                        stage,
                        store,
                        action: AudioActionView::Poll,
                    },
                    AudioEventView::Drained => AudioStep {
                        stage,
                        store,
                        action: AudioActionView::Wait { millis: WAIT_INTERVAL_MS },
                    },
                    AudioEventView::Exited { success: true } => AudioStep {
                        stage: AudioStageView { backlog, phase: AudioPhaseView::Idle },
                        store: store.mark_downloaded(entry.id),
                        action: audio_idle_action(backlog),
                    },
                    AudioEventView::Exited { success: false } | AudioEventView::Failed => AudioStep {
                        stage: AudioStageView {
                            backlog: requeued(backlog, entry),
                            phase: AudioPhaseView::Idle,
                        },
                        store,
                        action: audio_idle_action(requeued(backlog, entry)),
                    },
                    _ => AudioStep { stage, store, action: AudioActionView::Wait { millis: 0 } },
                },
                AudioPhaseView::Probing { entry } => match event {
                    AudioEventView::Cached => AudioStep {
                        stage: AudioStageView { backlog, phase: AudioPhaseView::Idle },
                        store,
                        action: audio_idle_action(backlog),
                    },
                    AudioEventView::NotCached => AudioStep {
                        stage: AudioStageView {
                            backlog,
                            phase: AudioPhaseView::Downloading { entry },
                        },
                        store,
                        action: spawn_order(entry.id),
                    },
                    _ => AudioStep {
                        stage,
                        store,
                        action: AudioActionView::Probe { id: entry.id },
                    },
                },
                _ => match event {
                    AudioEventView::Drained if backlog.len() > 0 => AudioStep {
                        stage: AudioStageView {
                            backlog: backlog.skip(1),
                            phase: AudioPhaseView::Probing { entry: backlog[0] },
                        },
                        store,
                        action: AudioActionView::Probe { id: backlog[0].id },
                    },
                    _ => AudioStep { stage, store, action: audio_idle_action(backlog) },
                },
            },
        },
    }
}

/// The second stage of the pipeline.
pub struct AudioStage {
    backlog: Backlog,
    current: Option<DownloadEntry>,
    running: bool,
    stopped: bool,
}

impl View for AudioStage {
    type V = AudioStageView;

    closed spec fn view(&self) -> AudioStageView {
        AudioStageView {
            backlog: self.backlog@,
            phase: if self.stopped {
                AudioPhaseView::Stopped
            } else {
                match self.current {
                    Some(entry) => if self.running {
                        AudioPhaseView::Downloading { entry: entry@ }
                    } else {
                        AudioPhaseView::Probing { entry: entry@ }
                    },
                    None => AudioPhaseView::Idle,
                }
            },
        }
    }
}

impl AudioStage {
    /// A stage with nothing to do.
    pub fn new() -> (r: Self)
        ensures
            r@.backlog == Seq::<EntryView>::empty(),
            r@.phase is Idle,
    {
        AudioStage { backlog: Backlog::new(), current: None, running: false, stopped: false }
    }

    /// What an idle stage does next.
    fn idle_action(&self) -> (r: AudioAction)
        ensures
            r@ == audio_idle_action(self.backlog@),
    {
        if self.backlog.is_empty() {
            AudioAction::Receive
        } else {
            AudioAction::Poll
        }
    }

    /// Takes `event` in and decides what the worker does next.
    ///
    /// Every id that comes through the channel joins the backlog. With no
    /// message pending, the entry at the front is taken up. If its audio is
    /// cached it is passed over and the store is left alone; else the
    /// extraction is started. While that runs the worker keeps looking at the
    /// channel. A successful extraction marks the entry as downloaded in the
    /// store; a failed one returns the entry to the front of the backlog with
    /// one try less, or drops it without one. A quit and a closed channel end
    /// the stage and kill a running extraction.
    pub fn step(&mut self, store: &mut State, event: AudioEvent) -> (action: AudioAction)
        ensures
            final(self)@ == audio_step(old(self)@, old(store)@, event@).stage,
            final(store)@ == audio_step(old(self)@, old(store)@, event@).store,
            action@ == audio_step(old(self)@, old(store)@, event@).action,
    {
        if self.stopped {
            return AudioAction::Stop { kill: false };
        }
        let downloading = self.current.is_some() && self.running;
        match event {
            AudioEvent::Message(Message::Quit) | AudioEvent::Disconnected => {
                self.stopped = true;
                return AudioAction::Stop { kill: downloading };
            },
            AudioEvent::Message(Message::Download { id, is_fallback }) => {
                self.backlog.enqueue(id, is_fallback);
                return if downloading {
                    AudioAction::Wait { millis: 0 }
                } else {
                    AudioAction::Poll
                };
            },
            _ => {},
        }
        match self.current.take() {
            Some(entry) => if self.running {
                match event {
                    AudioEvent::Exited { success: true } => {
                        store.mark_downloaded(entry.id.as_str());
                        self.running = false;
                        self.idle_action()
                    },
                    AudioEvent::Exited { success: false } | AudioEvent::Failed => {
                        self.backlog.requeue(entry);
                        self.running = false;
                        self.idle_action()
                    },
                    AudioEvent::Running => {
                        self.current = Some(entry);
                        AudioAction::Poll
                    },
                    AudioEvent::Drained => {
                        self.current = Some(entry);
                        AudioAction::Wait { millis: WAIT_INTERVAL_MS }
                    },
                    _ => {
                        self.current = Some(entry);
                        AudioAction::Wait { millis: 0 }
                    },
                }
            } else {
                match event {
                    AudioEvent::Cached => self.idle_action(),
                    AudioEvent::NotCached => {
                        let id = entry.id.clone();
                        let url = get_youtube_url(id.as_str());
                        let output = audio_cache_location(id.as_str());
                        self.current = Some(entry);
                        self.running = true;
                        AudioAction::Spawn { id, url, output }
                    },
                    _ => {
                        let id = entry.id.clone();
                        self.current = Some(entry);
                        AudioAction::Probe { id }
                    },
                }
            },
            None => match event {
                AudioEvent::Drained => match self.backlog.dequeue() {
                    Some(entry) => {
                        let id = entry.id.clone();
                        self.current = Some(entry);
                        self.running = false;
                        AudioAction::Probe { id }
                    },
                    None => AudioAction::Receive,
                },
                _ => self.idle_action(),
            },
        }
    }
}

/// A failed extraction never ends the stage and never touches the store:
/// the entry returns to the front of the backlog with one try less, or is
/// dropped if it had none left.
pub proof fn lemma_extraction_failure_is_contained(
    stage: AudioStageView,
    store: StoreView,
    entry: EntryView,
    event: AudioEventView,
)
    requires
        stage.phase == (AudioPhaseView::Downloading { entry }),
        event == (AudioEventView::Exited { success: false }) || event is Failed,
    ensures
        ({
            let step = audio_step(stage, store, event);
            &&& step.stage.phase is Idle
            &&& step.store == store
            &&& !(step.action is Stop)
            &&& entry.tries_left == 0 ==> step.stage.backlog == stage.backlog
            &&& entry.tries_left > 0 ==> step.stage.backlog == seq![entry.charged()]
                + stage.backlog && step.stage.backlog[0].tries_left < entry.tries_left
        }),
{
}

/// Audio that is cached is passed over: the store stays as it is and no
/// extraction is started.
pub proof fn lemma_cached_audio_is_skipped(stage: AudioStageView, store: StoreView, entry: EntryView)
    requires
        stage.phase == (AudioPhaseView::Probing { entry }),
    ensures
        ({
            let step = audio_step(stage, store, AudioEventView::Cached);
            &&& step.store == store
            &&& step.stage.phase is Idle
            &&& step.stage.backlog == stage.backlog
            &&& !(step.action is Spawn)
        }),
{
}

/// Only a successful extraction changes the store, and it does so by
/// marking the entry at work as downloaded.
pub proof fn lemma_only_success_marks(stage: AudioStageView, store: StoreView, event: AudioEventView)
    ensures
        ({
            let step = audio_step(stage, store, event);
            if stage.phase is Downloading && event == (AudioEventView::Exited { success: true }) {
                step.store == store.mark_downloaded(stage.phase->Downloading_entry.id)
            } else {
                step.store == store
            }
        }),
{
}

/// A quit and a closed channel end the stage, and the running extraction is
/// to be killed exactly if there is one.
pub proof fn lemma_quit_kills_running_extraction(
    stage: AudioStageView,
    store: StoreView,
    event: AudioEventView,
)
    requires
        !(stage.phase is Stopped),
        event == AudioEventView::Message(MessageView::Quit) || event is Disconnected,
    ensures
        ({
            let step = audio_step(stage, store, event);
            &&& step.stage.phase is Stopped
            &&& step.store == store
            &&& step.action == (AudioActionView::Stop { kill: stage.phase is Downloading })
        }),
{
}

} // verus!
