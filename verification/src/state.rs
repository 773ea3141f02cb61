//! The shared state store: the primary queue, the fallback queue, the entry
//! that is playing, and the connection status.
//!
//! Every operation is one short step on a [`State`]; what it does is stated
//! over [`StoreView`], the store as plain mathematical values.

pub mod laws;

use crate::text::same_text;
use std::collections::vec_deque::Iter;
use std::collections::VecDeque;
use std::time::Duration;
use vstd::prelude::*;
use vstd::std_specs::iter::IteratorSpec;

verus! {

/// What `Duration::from_secs` returns for a number of whole seconds.
pub uninterp spec fn whole_seconds(secs: u64) -> Duration;

/// `Duration::from_secs` builds the duration of `secs` whole seconds; the
/// result depends on `secs` alone.
pub assume_specification[ Duration::from_secs ](secs: u64) -> (d: Duration)
    ensures
        d == whole_seconds(secs),
;

/// A track queue entry.
pub struct Song {
    pub id: String,
    pub title: String,
    pub artist: String,
    pub downloaded: bool,
    pub thumbnail: Vec<u8>,
}

/// A queue entry as plain values.
pub struct SongView {
    pub id: Seq<char>,
    pub title: Seq<char>,
    pub artist: Seq<char>,
    pub downloaded: bool,
    pub thumbnail: Seq<u8>,
}

impl View for Song {
    type V = SongView;

    open spec fn view(&self) -> SongView {
        SongView {
            id: self.id@,
            title: self.title@,
            artist: self.artist@,
            downloaded: self.downloaded,
            thumbnail: self.thumbnail@,
        }
    }
}

impl SongView {
    /// The same entry with its audio present.
    pub open spec fn ready(self) -> SongView {
        SongView { downloaded: true, ..self }
    }

    /// The same entry with its audio still to come.
    pub open spec fn pending(self) -> SongView {
        SongView { downloaded: false, ..self }
    }
}

/// The entry that is being played, with its timing.
pub struct PlayingSong {
    pub song: Song,
    pub total: Duration,
    pub elapsed: Duration,
}

/// The playing entry as plain values.
pub struct PlayingView {
    pub song: SongView,
    pub total: Duration,
    pub elapsed: Duration,
}

impl View for PlayingSong {
    type V = PlayingView;

    open spec fn view(&self) -> PlayingView {
        PlayingView { song: self.song@, total: self.total, elapsed: self.elapsed }
    }
}

impl PlayingView {
    /// An entry that has just been selected: no time played, length unknown.
    pub open spec fn fresh(song: SongView) -> PlayingView {
        PlayingView { song, total: whole_seconds(0), elapsed: whole_seconds(0) }
    }
}

/// The client's view of its session.
pub enum ConnectionState {
    NotConnected,
    Connected { id: String },
    Error { msg: String },
}

/// The connection status as plain values.
pub enum ConnectionView {
    NotConnected,
    Connected { id: Seq<char> },
    Error { msg: Seq<char> },
}

impl View for ConnectionState {
    type V = ConnectionView;

    open spec fn view(&self) -> ConnectionView {
        match self {
            ConnectionState::NotConnected => ConnectionView::NotConnected,
            ConnectionState::Connected { id } => ConnectionView::Connected { id: id@ },
            ConnectionState::Error { msg } => ConnectionView::Error { msg: msg@ },
        }
    }
}

/// The entries of a queue as plain values, in queue order.
pub open spec fn views(q: Seq<Song>) -> Seq<SongView> {
    q.map_values(|s: Song| s@)
}

/// Whether some entry of `q` carries `id`.
pub open spec fn has_id(q: Seq<SongView>, id: Seq<char>) -> bool {
    exists|i: int| 0 <= i < q.len() && (#[trigger] q[i]).id == id
}

/// Whether `i` is the position of the earliest entry of `q` that carries `id`.
pub open spec fn is_first_with_id(q: Seq<SongView>, id: Seq<char>, i: int) -> bool {
    &&& 0 <= i < q.len()
    &&& q[i].id == id
    &&& forall|j: int| 0 <= j < i ==> (#[trigger] q[j]).id != id
}

/// The position of the earliest entry of `q` that carries `id`.
pub open spec fn first_with_id(q: Seq<SongView>, id: Seq<char>) -> int {
    choose|i: int| is_first_with_id(q, id, i)
}

/// `q` with the earliest entry that carries `id` marked as downloaded.
pub open spec fn mark_first(q: Seq<SongView>, id: Seq<char>) -> Seq<SongView> {
    if has_id(q, id) {
        let i = first_with_id(q, id);
        q.update(i, q[i].ready())
    } else {
        q
    }
}

/// Whether some entry of `q` is downloaded.
pub open spec fn has_ready(q: Seq<SongView>) -> bool {
    exists|i: int| 0 <= i < q.len() && (#[trigger] q[i]).downloaded
}

/// Whether `i` is the position of the earliest downloaded entry of `q`.
pub open spec fn is_first_ready(q: Seq<SongView>, i: int) -> bool {
    &&& 0 <= i < q.len()
    &&& q[i].downloaded
    &&& forall|j: int| 0 <= j < i ==> !(#[trigger] q[j]).downloaded
}

/// The position of the earliest downloaded entry of `q`.
pub open spec fn first_ready(q: Seq<SongView>) -> int {
    choose|i: int| is_first_ready(q, i)
}

/// `q` with the neighbours at positions `i` and `i + 1` exchanged.
pub open spec fn swap_adjacent(q: Seq<SongView>, i: int) -> Seq<SongView> {
    q.update(i, q[i + 1]).update(i + 1, q[i])
}

/// The store as plain values.
#[verifier::ext_equal]
pub struct StoreView {
    pub queue: Seq<SongView>,
    pub fallback: Seq<SongView>,
    pub playing: Option<PlayingView>,
    pub connection: ConnectionView,
}

impl StoreView {
    /// The store at startup: nothing queued, nothing playing, not connected.
    pub open spec fn empty() -> StoreView {
        StoreView {
            queue: Seq::empty(),
            fallback: Seq::empty(),
            playing: None,
            connection: ConnectionView::NotConnected,
        }
    }

    /// Whether the entry that is playing carries `id`.
    pub open spec fn is_playing(self, id: Seq<char>) -> bool {
        self.playing is Some && self.playing->0.song.id == id
    }

    /// Appends `song` to the chosen queue, unless its id is playing or waits
    /// in the primary queue.
    pub open spec fn enqueue(self, song: SongView, is_fallback: bool) -> StoreView {
        if self.is_playing(song.id) || has_id(self.queue, song.id) {
            self
        } else if is_fallback {
            StoreView { fallback: self.fallback.push(song), ..self }
        } else {
            StoreView { queue: self.queue.push(song), ..self }
        }
    }

    /// Marks the earliest entry with `id` in each queue as downloaded.
    pub open spec fn mark_downloaded(self, id: Seq<char>) -> StoreView {
        StoreView {
            queue: mark_first(self.queue, id),
            fallback: mark_first(self.fallback, id),
            ..self
        }
    }

    /// The entry that the next selection picks: the earliest downloaded entry
    /// of the primary queue, else the earliest of the fallback queue.
    pub open spec fn next_song(self) -> Option<SongView> {
        if has_ready(self.queue) {
            Some(self.queue[first_ready(self.queue)])
        } else if has_ready(self.fallback) {
            Some(self.fallback[first_ready(self.fallback)])
        } else {
            None
        }
    }

    /// The store after a selection: the picked entry leaves its queue and
    /// becomes the playing entry; with nothing ready the playing slot is
    /// cleared. Entries that are skipped keep their places.
    pub open spec fn take_next(self) -> StoreView {
        if has_ready(self.queue) {
            let i = first_ready(self.queue);
            StoreView {
                queue: self.queue.remove(i),
                playing: Some(PlayingView::fresh(self.queue[i])),
                ..self
            }
        } else if has_ready(self.fallback) {
            let i = first_ready(self.fallback);
            StoreView {
                fallback: self.fallback.remove(i),
                playing: Some(PlayingView::fresh(self.fallback[i])),
                ..self
            }
        } else {
            StoreView { playing: None, ..self }
        }
    }

    /// Overwrites the timing of the playing entry, if there is one.
    pub open spec fn update_current_time(self, total: Duration, elapsed: Duration) -> StoreView {
        match self.playing {
            Some(p) => StoreView {
                playing: Some(PlayingView { song: p.song, total, elapsed }),
                ..self
            },
            None => self,
        }
    }

    /// Number of entries in both queues.
    pub open spec fn len(self) -> int {
        (self.queue.len() + self.fallback.len()) as int
    }

    /// Removes the entry at the 1-based `index`, which counts through the
    /// primary queue and then the fallback queue.
    pub open spec fn delete_song(self, index: int) -> StoreView {
        let n = self.queue.len() as int;
        if 1 <= index <= n {
            StoreView { queue: self.queue.remove(index - 1), ..self }
        } else if n < index <= self.len() {
            StoreView { fallback: self.fallback.remove(index - n - 1), ..self }
        } else {
            self
        }
    }

    /// Whether the entry at `index` has a successor in its own queue.
    pub open spec fn can_move_down(self, index: int) -> bool {
        let n = self.queue.len() as int;
        1 <= index < n || n < index < self.len()
    }

    /// Whether the entry at `index` has a predecessor in its own queue.
    pub open spec fn can_move_up(self, index: int) -> bool {
        let n = self.queue.len() as int;
        2 <= index <= n || n + 1 < index <= self.len()
    }

    /// Exchanges the entry at `index` with the one at `index + 1`.
    pub open spec fn exchange(self, index: int) -> StoreView {
        let n = self.queue.len() as int;
        if index < n {
            StoreView { queue: swap_adjacent(self.queue, index - 1), ..self }
        } else {
            StoreView { fallback: swap_adjacent(self.fallback, index - n - 1), ..self }
        }
    }

    /// Moves the entry at `index` one place towards the end of its queue.
    pub open spec fn move_down(self, index: int) -> StoreView {
        if self.can_move_down(index) {
            self.exchange(index)
        } else {
            self
        }
    }

    /// Where the entry at `index` is after `move_down`.
    pub open spec fn move_down_index(self, index: int) -> int {
        if self.can_move_down(index) {
            index + 1
        } else {
            index
        }
    }

    /// Moves the entry at `index` one place towards the front of its queue.
    pub open spec fn move_up(self, index: int) -> StoreView {
        if self.can_move_up(index) {
            self.exchange(index - 1)
        } else {
            self
        }
    }

    /// Where the entry at `index` is after `move_up`.
    pub open spec fn move_up_index(self, index: int) -> int {
        if self.can_move_up(index) {
            index - 1
        } else {
            index
        }
    }

    /// Overwrites the connection status with a live session.
    pub open spec fn set_connected(self, id: Seq<char>) -> StoreView {
        StoreView { connection: ConnectionView::Connected { id }, ..self }
    }

    /// Overwrites the connection status with a failure.
    pub open spec fn set_connection_error(self, msg: Seq<char>) -> StoreView {
        StoreView { connection: ConnectionView::Error { msg }, ..self }
    }
}

/// The shared store itself.
pub struct State {
    queue: VecDeque<Song>,
    fallback_queue: VecDeque<Song>,
    playing: Option<PlayingSong>,
    connection: ConnectionState,
}

impl View for State {
    type V = StoreView;

    closed spec fn view(&self) -> StoreView {
        StoreView {
            queue: views(self.queue@),
            fallback: views(self.fallback_queue@),
            playing: match self.playing {
                Some(p) => Some(p@),
                None => None,
            },
            connection: self.connection@,
        }
    }
}

/// Position of the earliest entry of `q` that carries `id`.
fn find_id(q: &VecDeque<Song>, id: &str) -> (r: Option<usize>)
    ensures
        match r {
            Some(i) => is_first_with_id(views(q@), id@, i as int),
            None => !has_id(views(q@), id@),
        },
{
    let mut i: usize = 0;
    while i < q.len()
        invariant
            i <= q@.len(),
            forall|j: int| 0 <= j < i ==> (#[trigger] views(q@)[j]).id != id@,
        decreases q@.len() - i,
    {
        if same_text(q[i].id.as_str(), id) {
            return Some(i);
        }
        i = i + 1;
    }
    None
}

/// Position of the earliest downloaded entry of `q`.
fn find_ready(q: &VecDeque<Song>) -> (r: Option<usize>)
    ensures
        match r {
            Some(i) => is_first_ready(views(q@), i as int),
            None => !has_ready(views(q@)),
        },
{
    let mut i: usize = 0;
    while i < q.len()
        invariant
            i <= q@.len(),
            forall|j: int| 0 <= j < i ==> !(#[trigger] views(q@)[j]).downloaded,
        decreases q@.len() - i,
    {
        if q[i].downloaded {
            return Some(i);
        }
        i = i + 1;
    }
    None
}

/// Two positions that are both the earliest with `id` are one position.
pub proof fn lemma_first_with_id_unique(q: Seq<SongView>, id: Seq<char>, i: int)
    requires
        is_first_with_id(q, id, i),
    ensures
        has_id(q, id),
        first_with_id(q, id) == i,
{
    let k = first_with_id(q, id);
    assert(is_first_with_id(q, id, k));
    if k < i {
        assert(q[k].id != id);
    }
    if i < k {
        assert(q[i].id != id);
    }
}

/// Two positions that are both the earliest downloaded are one position.
pub proof fn lemma_first_ready_unique(q: Seq<SongView>, i: int)
    requires
        is_first_ready(q, i),
    ensures
        has_ready(q),
        first_ready(q) == i,
{
    let k = first_ready(q);
    assert(is_first_ready(q, k));
    if k < i {
        assert(!q[k].downloaded);
    }
    if i < k {
        assert(!q[i].downloaded);
    }
}

impl State {
    /// The empty store.
    pub fn new() -> (s: Self)
        ensures
            s@ == StoreView::empty(),
    {
        let s = State {
            queue: VecDeque::new(),
            fallback_queue: VecDeque::new(),
            playing: None,
            connection: ConnectionState::NotConnected,
        };
        assert(s@.queue =~= Seq::empty());
        assert(s@.fallback =~= Seq::empty());
        s
    }

    /// The entries of the primary queue, front first.
    pub fn queue(&self) -> (it: Iter<'_, Song>)
        ensures
            it.remaining().len() == self@.queue.len(),
            forall|i: int| 0 <= i < self@.queue.len() ==> it.remaining()[i]@ == self@.queue[i],
    {
        self.queue.iter()
    }

    /// The entries of the fallback queue, front first.
    pub fn fallback_queue(&self) -> (it: Iter<'_, Song>)
        ensures
            it.remaining().len() == self@.fallback.len(),
            forall|i: int|
                0 <= i < self@.fallback.len() ==> it.remaining()[i]@ == self@.fallback[i],
    {
        self.fallback_queue.iter()
    }

    /// Whether the primary queue holds an entry.
    pub fn has_song_suggestions(&self) -> (b: bool)
        ensures
            b == (self@.queue.len() > 0),
    {
        self.queue.len() > 0
    }

    /// Whether the fallback queue holds an entry.
    pub fn has_fallback_queue(&self) -> (b: bool)
        ensures
            b == (self@.fallback.len() > 0),
    {
        self.fallback_queue.len() > 0
    }

    /// The entry that is playing.
    pub fn playing(&self) -> (p: Option<&PlayingSong>)
        ensures
            match p {
                Some(p) => self@.playing == Some(p@),
                None => self@.playing is None,
            },
    {
        self.playing.as_ref()
    }

    /// The connection status.
    pub fn connection_state(&self) -> (c: &ConnectionState)
        ensures
            c@ == self@.connection,
    {
        &self.connection
    }
}

/// Marks the earliest entry of `q` that carries `id` as downloaded.
fn mark_in(q: &mut VecDeque<Song>, id: &str)
    ensures
        views(final(q)@) == mark_first(views(old(q)@), id@),
{
    match find_id(q, id) {
        Some(i) => {
            proof {
                lemma_first_with_id_unique(views(q@), id@, i as int);
            }
            let mut song = q.remove(i).unwrap();
            song.downloaded = true;
            q.insert(i, song);
            assert(views(q@) =~= mark_first(views(old(q)@), id@));
        },
        None => {},
    }
}

/// Exchanges the entries of `q` at positions `i` and `i + 1`.
fn swap_with_next(q: &mut VecDeque<Song>, i: usize)
    requires
        i + 1 < old(q).len(),
    ensures
        views(final(q)@) == swap_adjacent(views(old(q)@), i as int),
{
    let next = q.remove(i + 1).unwrap();
    q.insert(i, next);
    assert(views(q@) =~= swap_adjacent(views(old(q)@), i as int));
}

/// Number of entries in both queues together.
fn entries(queue: &VecDeque<Song>, fallback_queue: &VecDeque<Song>) -> (n: usize)
    ensures
        n == queue@.len() + fallback_queue@.len(),
{
    // One unit is counted for each entry. Units take no room, and the two
    // counts joined have one length, so the sum is a `usize`.
    let mut count: Vec<()> = Vec::new();
    count.resize(queue.len(), ());
    let mut rest: Vec<()> = Vec::new();
    rest.resize(fallback_queue.len(), ());
    count.append(&mut rest);
    count.len()
}

impl State {
    /// Appends `song` to the primary queue, or to the fallback queue if
    /// `is_fallback`; does nothing if its id is playing or already waits in
    /// the primary queue.
    pub fn enqueue(&mut self, song: Song, is_fallback: bool)
        ensures
            final(self)@ == old(self)@.enqueue(song@, is_fallback),
            old(self)@.is_playing(song@.id) ==> final(self)@ == old(self)@,
    {
        if let Some(playing) = &self.playing {
            if playing.song.id == song.id {
                return ;
            }
        }
        match find_id(&self.queue, song.id.as_str()) {
            Some(i) => {
                proof {
                    lemma_first_with_id_unique(views(self.queue@), song.id@, i as int);
                }
                return ;
            },
            None => {},
        }
        if is_fallback {
            self.fallback_queue.push_back(song);
            assert(views(self.fallback_queue@) =~= views(old(self).fallback_queue@).push(song@));
        } else {
            self.queue.push_back(song);
            assert(views(self.queue@) =~= views(old(self).queue@).push(song@));
        }
    }

    /// Marks the entry with `id` as downloaded, in the primary queue and in
    /// the fallback queue; does nothing where no entry carries `id`.
    pub fn mark_downloaded(&mut self, id: &str)
        ensures
            final(self)@ == old(self)@.mark_downloaded(id@),
    {
        mark_in(&mut self.queue, id);
        mark_in(&mut self.fallback_queue, id);
    }

    /// Overwrites the timing of the playing entry; does nothing if nothing is
    /// playing.
    pub fn update_current_time(&mut self, total: Duration, elapsed: Duration)
        ensures
            final(self)@ == old(self)@.update_current_time(total, elapsed),
    {
        match self.playing.take() {
            Some(playing) => {
                self.playing = Some(PlayingSong { song: playing.song, total, elapsed });
            },
            None => {},
        }
    }

    /// Selects what to play next: the earliest downloaded entry of the
    /// primary queue, else the earliest downloaded entry of the fallback
    /// queue. The entry leaves its queue and becomes the playing entry with
    /// zeroed timing, and its id is returned. With no downloaded entry the
    /// playing slot is cleared and `None` is returned.
    pub fn get_next_song(&mut self) -> (r: Option<String>)
        ensures
            final(self)@ == old(self)@.take_next(),
            match r {
                Some(id) => old(self)@.next_song() is Some && old(self)@.next_song()->0.id == id@,
                None => old(self)@.next_song() is None,
            },
    {
        let song = match find_ready(&self.queue) {
            Some(i) => {
                proof {
                    lemma_first_ready_unique(views(self.queue@), i as int);
                }
                let song = self.queue.remove(i).unwrap();
                assert(views(self.queue@) =~= views(old(self).queue@).remove(i as int));
                song
            },
            None => match find_ready(&self.fallback_queue) {
                Some(i) => {
                    proof {
                        lemma_first_ready_unique(views(self.fallback_queue@), i as int);
                    }
                    let song = self.fallback_queue.remove(i).unwrap();
                    assert(views(self.fallback_queue@) =~= views(
                        old(self).fallback_queue@,
                    ).remove(i as int));
                    song
                },
                None => {
                    self.playing = None;
                    return None;
                },
            },
        };
        let id = song.id.clone();
        self.playing = Some(
            PlayingSong { song, total: Duration::from_secs(0), elapsed: Duration::from_secs(0) },
        );
        Some(id)
    }

    /// Records that the session `id` is live.
    pub fn set_connected(&mut self, id: String)
        ensures
            final(self)@ == old(self)@.set_connected(id@),
    {
        self.connection = ConnectionState::Connected { id };
    }

    /// Records that the connection failed with `msg`.
    pub fn set_connection_error(&mut self, msg: String)
        ensures
            final(self)@ == old(self)@.set_connection_error(msg@),
    {
        self.connection = ConnectionState::Error { msg };
    }

    /// Removes the entry at the 1-based `index`, which counts through the
    /// primary queue and then the fallback queue. Index 0 and an index past
    /// the last entry change nothing.
    pub fn delete_song(&mut self, index: usize)
        ensures
            final(self)@ == old(self)@.delete_song(index as int),
    {
        let n = self.queue.len();
        if index == 0 {
        } else if index <= n {
            let _ = self.queue.remove(index - 1);
            assert(views(self.queue@) =~= views(old(self).queue@).remove(index - 1));
        } else if index - n <= self.fallback_queue.len() {
            let _ = self.fallback_queue.remove(index - n - 1);
            assert(views(self.fallback_queue@) =~= views(old(self).fallback_queue@).remove(
                index - n - 1,
            ));
        }
    }

    /// Moves the entry at the 1-based `index` one place towards the end of
    /// its queue and returns where it is afterwards. The last entry of either
    /// queue, index 0 and an index past the last entry stay where they are.
    pub fn move_down(&mut self, index: usize) -> (r: usize)
        ensures
            final(self)@ == old(self)@.move_down(index as int),
            r == old(self)@.move_down_index(index as int),
            index == old(self)@.queue.len() ==> final(self)@ == old(self)@ && r == index,
    {
        let n = self.queue.len();
        let total = entries(&self.queue, &self.fallback_queue);
        if index == 0 || index == n || index >= total {
            index
        } else if index < n {
            swap_with_next(&mut self.queue, index - 1);
            index + 1
        } else {
            swap_with_next(&mut self.fallback_queue, index - n - 1);
            index + 1
        }
    }

    /// Moves the entry at the 1-based `index` one place towards the front of
    /// its queue and returns where it is afterwards. The first entry of
    /// either queue, index 0 and an index past the last entry stay where they
    /// are.
    pub fn move_up(&mut self, index: usize) -> (r: usize)
        ensures
            final(self)@ == old(self)@.move_up(index as int),
            r == old(self)@.move_up_index(index as int),
            index <= 1 ==> final(self)@ == old(self)@ && r == index,
    {
        let n = self.queue.len();
        if index == 0 || index == 1 {
            index
        } else if index <= n {
            swap_with_next(&mut self.queue, index - 2);
            index - 1
        } else if index - n == 1 {
            index
        } else if index - n <= self.fallback_queue.len() {
            swap_with_next(&mut self.fallback_queue, index - n - 2);
            index - 1
        } else {
            index
        }
    }
}

} // verus!
