//! What the client's main loop decides: how it answers the events of its
//! workers, and which tracks it plays when nobody has submitted one.

use crate::protocol::{is_valid_song_id, valid_song_id};
use crate::state::{State, StoreView};
use crate::text::chars_of;
use crate::util::{Event, EventView};
use rand::seq::SliceRandom;
use vstd::prelude::*;
use vstd::string::*;

verus! {

/// What the main loop does after an event.
pub enum Command {
    /// Go on.
    Nothing,
    /// End the program.
    Quit,
    /// Tell the player to skip the track.
    NextSong,
    /// Tell the player to pause or to resume.
    TogglePause,
    /// Hand track `id` to the download pipeline.
    Download { id: String },
}

/// A command as plain values.
pub enum CommandView {
    Nothing,
    Quit,
    NextSong,
    TogglePause,
    Download { id: Seq<char> },
}

impl View for Command {
    type V = CommandView;

    open spec fn view(&self) -> CommandView {
        match self {
            Command::Nothing => CommandView::Nothing,
            Command::Quit => CommandView::Quit,
            Command::NextSong => CommandView::NextSong,
            Command::TogglePause => CommandView::TogglePause,
            Command::Download { id } => CommandView::Download { id: id@ },
        }
    }
}

/// The command that answers `event`.
pub open spec fn command_for(event: EventView) -> CommandView {
    match event {
        EventView::UIQuit => CommandView::Quit,
        EventView::NextSong => CommandView::NextSong,
        EventView::TogglePause => CommandView::TogglePause,
        EventView::Push { song_id } => CommandView::Download { id: song_id },
        _ => CommandView::Nothing,
    }
}

/// The store after `event`: only what the connection reports changes it, and
/// only the connection status.
pub open spec fn store_after(store: StoreView, event: EventView) -> StoreView {
    match event {
        EventView::ServerHello { id } => store.set_connected(id),
        EventView::ConnError { msg } => store.set_connection_error(msg),
        EventView::ServerClose => store.set_connection_error("connection closed"@),
        _ => store,
    }
}

/// Answers one event of a worker: records what the connection reports in
/// the store, and returns what the main loop does next.
pub fn dispatch(state: &mut State, event: Event) -> (command: Command)
    ensures
        final(state)@ == store_after(old(state)@, event@),
        command@ == command_for(event@),
{
    match event {
        Event::UIQuit => Command::Quit,
        Event::NextSong => Command::NextSong,
        Event::TogglePause => Command::TogglePause,
        Event::ServerHello { id } => {
            state.set_connected(id);
            Command::Nothing
        },
        Event::ConnError { msg } => {
            state.set_connection_error(msg);
            Command::Nothing
        },
        Event::Push { song_id } => Command::Download { id: song_id },
        Event::ServerClose => {
            state.set_connection_error(String::from_str("connection closed"));
            Command::Nothing
        },
    }
}

/// Number of characters before the first line feed of `text`.
pub open spec fn line_end(text: Seq<char>) -> nat
    decreases text.len(),
{
    if text.len() == 0 || text[0] == '\n' {
        0
    } else {
        1 + line_end(text.skip(1))
    }
}

/// `line` without a carriage return at its end.
pub open spec fn without_cr(line: Seq<char>) -> Seq<char> {
    if line.len() > 0 && line.last() == '\r' {
        line.drop_last()
    } else {
        line
    }
}

/// The track ids that the playlist `text` names: its lines that have the
/// length of a track identifier, in order. A line ends with a line feed,
/// with or without a carriage return before it; the last line may go
/// without.
pub open spec fn playlist(text: Seq<char>) -> Seq<Seq<char>>
    decreases text.len(),
{
    if text.len() == 0 {
        Seq::empty()
    } else {
        let k = line_end(text) as int;
        let line = if k < text.len() {
            without_cr(text.take(k))
        } else {
            text
        };
        let rest = if k < text.len() {
            playlist(text.skip(k + 1))
        } else {
            Seq::empty()
        };
        if valid_song_id(line) {
            seq![line] + rest
        } else {
            rest
        }
    }
}

proof fn lemma_line_end(text: Seq<char>, k: int)
    requires
        0 <= k <= text.len(),
        forall|j: int| 0 <= j < k ==> text[j] != '\n',
        k == text.len() || text[k] == '\n',
    ensures
        line_end(text) == k,
    decreases k,
{
    if k > 0 {
        let rest = text.skip(1);
        assert forall|j: int| 0 <= j < k - 1 implies rest[j] != '\n' by {
            assert(rest[j] == text[j + 1]);
        }
        lemma_line_end(rest, k - 1);
    }
}

/// The strings of `ids` as plain values.
pub open spec fn texts(ids: Seq<String>) -> Seq<Seq<char>> {
    ids.map_values(|id: String| id@)
}

/// Reads the track ids of a playlist.
pub fn playlist_ids(text: &str) -> (ids: Vec<String>)
    ensures
        texts(ids@) == playlist(text@),
{
    let chars = chars_of(text);
    let n = chars.len();
    let mut ids: Vec<String> = Vec::new();
    let mut start: usize = 0;
    assert(text@.skip(0) =~= text@);
    assert(texts(ids@) =~= Seq::<Seq<char>>::empty());
    while start < n
        invariant
            chars@ == text@,
            n == text@.len(),
            start <= n,
            texts(ids@) + playlist(text@.skip(start as int)) == playlist(text@),
        decreases n - start,
    {
        let ghost tail = text@.skip(start as int);
        let ghost before = texts(ids@);
        let mut end = start;
        while end < n && chars[end] != '\n'
            invariant
                chars@ == text@,
                n == text@.len(),
                start <= end <= n,
                forall|j: int| start <= j < end ==> text@[j] != '\n',
            decreases n - end,
        {
            end = end + 1;
        }
        proof {
            lemma_line_end(tail, end - start);
        }
        let line = if end < n {
            if end > start && chars[end - 1] == '\r' {
                text.substring_char(start, end - 1)
            } else {
                text.substring_char(start, end)
            }
        } else {
            text.substring_char(start, n)
        };
        proof {
            if end < n {
                assert(tail.take(end - start) =~= text@.subrange(start as int, end as int));
                assert(line@ =~= without_cr(tail.take(end - start)));
                assert(tail.skip(end - start + 1) =~= text@.skip(end + 1));
            } else {
                assert(line@ =~= tail);
            }
        }
        if is_valid_song_id(line) {
            ids.push(line.to_owned());
            assert(texts(ids@) =~= before.push(line@));
        }
        start = if end < n {
            end + 1
        } else {
            n
        };
        assert(texts(ids@) + playlist(text@.skip(start as int)) =~= playlist(text@));
    }
    assert(texts(ids@) + playlist(text@.skip(start as int)) =~= texts(ids@));
    ids
}

/// `SliceRandom::shuffle` of the `rand` crate with the thread's generator:
/// puts `ids` into a random order by exchanging elements, so that the same
/// strings are there afterwards, each as often as before. The generator
/// itself panics if the operating system gives it no entropy when a thread
/// first uses it, which no precondition can leave out.
#[verifier::external_body]
fn shuffle(ids: &mut Vec<String>)
    ensures
        final(ids)@.to_multiset() == old(ids)@.to_multiset(),
{
    ids.shuffle(&mut rand::thread_rng());
}

/// Reads the track ids of a fallback playlist and puts them into a random
/// order: what comes back are the ids that the playlist names, each as often
/// as it names it.
pub fn fallback_playlist(text: &str) -> (ids: Vec<String>)
    ensures
        exists|named: Seq<String>|
            texts(named) == playlist(text@) && #[trigger] named.to_multiset()
                == ids@.to_multiset(),
{
    let mut ids = playlist_ids(text);
    let ghost named = ids@;
    shuffle(&mut ids);
    assert(named.to_multiset() == ids@.to_multiset());
    ids
}

} // verus!
