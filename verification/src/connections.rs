//! The session registry of the relay server: which sessions are live, and
//! the mailbox each of them is pushed through.

use crate::text::same_text;
use rand::Rng;
use tokio::sync::mpsc::error::TrySendError;
use tokio::sync::mpsc::{Receiver, Sender};
use vstd::prelude::*;
use vstd::string::*;

verus! {

/// The sending half of a tokio `mpsc` channel.
#[verifier::external_type_specification]
#[verifier::external_body]
#[verifier::reject_recursive_types(T)]
pub struct ExSender<T>(Sender<T>);

/// The receiving half of a tokio `mpsc` channel.
#[verifier::external_type_specification]
#[verifier::external_body]
#[verifier::reject_recursive_types(T)]
pub struct ExReceiver<T>(Receiver<T>);

/// How many submissions a mailbox buffers.
pub const MAILBOX_CAPACITY: usize = 64;

/// What a mailbox did with a submission.
#[derive(Clone, Copy, Debug, PartialEq, Eq, Structural)]
pub enum Offer {
    /// The submission waits in the mailbox.
    Accepted,
    /// The mailbox holds as many submissions as it buffers.
    Full,
    /// The receiving half is closed or gone.
    Closed,
}

/// The messages that the channel has accepted from the sending half
/// `mailbox`, in the order in which it accepted them.
pub uninterp spec fn accepted(mailbox: Sender<String>) -> Seq<Seq<char>>;

/// Which channel the sending half `mailbox` belongs to. The number stands
/// for the channel and for nothing that can be read off it: all that is said
/// of it is that the two halves of one channel have the same.
pub uninterp spec fn channel_of(mailbox: Sender<String>) -> int;

/// Which channel the receiving half `receiver` belongs to.
pub uninterp spec fn source_of(receiver: Receiver<String>) -> int;

/// `tokio::sync::mpsc::channel`: a bounded channel that buffers `capacity`
/// messages and has accepted none yet; the two halves it returns belong to
/// that one channel. It panics on a capacity of 0 and on one above its
/// semaphore's limit, which is `usize::MAX >> 3`; both are left out.
#[verifier::external_body]
fn open_mailbox(capacity: usize) -> (r: (Sender<String>, Receiver<String>))
    requires
        0 < capacity <= 0x1fff_ffff,
    ensures
        accepted(r.0) == Seq::<Seq<char>>::empty(),
        source_of(r.1) == channel_of(r.0),
{
    tokio::sync::mpsc::channel(capacity)
}

/// `Sender::try_send`: hands `song` to the channel without waiting. The
/// channel accepts it behind what it accepted before, or refuses it because
/// it is full or closed and accepts nothing. Which of the three happens
/// depends on what the receiving half has taken, so nothing is claimed of
/// that. The sending half stays with its channel.
#[verifier::external_body]
fn offer(mailbox: &mut Sender<String>, song: String) -> (r: Offer)
    ensures
        accepted(*final(mailbox)) == if r == Offer::Accepted {
            accepted(*old(mailbox)).push(song@)
        } else {
            accepted(*old(mailbox))
        },
        channel_of(*final(mailbox)) == channel_of(*old(mailbox)),
{
    match mailbox.try_send(song) {
        Ok(()) => Offer::Accepted,
        Err(TrySendError::Full(_)) => Offer::Full,
        Err(TrySendError::Closed(_)) => Offer::Closed,
    }
}

/// `Rng::gen_range` on the thread's generator: some index below `bound`.
/// It panics on an empty range, which is left out. The generator itself
/// panics if the operating system gives it no entropy when a thread first
/// uses it, which no precondition can leave out.
#[verifier::external_body]
fn random_below(bound: usize) -> (i: usize)
    requires
        bound > 0,
    ensures
        i < bound,
{
    rand::thread_rng().gen_range(0..bound)
}

/// The letters and digits that generated ids are drawn from: none that is
/// easily taken for another.
pub const ALPHABET: &'static str = "abcdeghkmnpqrswxyzACEFGHLMNPRSTWY34679";

/// Length of a generated id, unless the registry is crowded.
pub const ID_LENGTH: usize = 6;

/// Least length of an id that a client may request.
pub const MIN_REQUEST_LENGTH: usize = 4;

/// How often a colliding id is drawn anew before it is lengthened instead.
pub const REGENERATIONS: usize = 1024;

/// Whether `c` may stand in a requested id: an ASCII letter or digit, `-` or
/// `_`.
pub open spec fn is_id_char(c: char) -> bool {
    ||| 'a' <= c <= 'z'
    ||| 'A' <= c <= 'Z'
    ||| '0' <= c <= '9'
    ||| c == '-'
    ||| c == '_'
}

/// Whether a client may request `id`: it is long enough and made of the
/// allowed characters.
pub open spec fn valid_id_request(id: Seq<char>) -> bool {
    &&& id.len() >= MIN_REQUEST_LENGTH
    &&& forall|i: int| 0 <= i < id.len() ==> is_id_char(#[trigger] id[i])
}

/// Whether `id` has the shape of a generated id: at least `ID_LENGTH`
/// characters, all of the alphabet.
pub open spec fn is_generated_id(id: Seq<char>) -> bool {
    &&& id.len() >= ID_LENGTH
    &&& forall|i: int| 0 <= i < id.len() ==> ALPHABET@.contains(#[trigger] id[i])
}

/// A generated id may be requested again: it is long enough and made of
/// allowed characters.
pub proof fn lemma_generated_id_is_valid(id: Seq<char>)
    requires
        is_generated_id(id),
    ensures
        valid_id_request(id),
{
    reveal_strlit("abcdeghkmnpqrswxyzACEFGHLMNPRSTWY34679");
    assert forall|i: int| 0 <= i < id.len() implies is_id_char(#[trigger] id[i]) by {
        let k = choose|k: int| 0 <= k < ALPHABET@.len() && ALPHABET@[k] == id[i];
        assert(is_id_char(ALPHABET@[k]));
    }
}

/// Whether a client may request `id`.
pub fn is_valid_id_request(id: &str) -> (r: bool)
    ensures
        r == valid_id_request(id@),
{
    let mut n: usize = 0;
    for c in it: id.chars()
        invariant
            n == if it.index() < MIN_REQUEST_LENGTH {
                it.index()
            } else {
                MIN_REQUEST_LENGTH as int
            },
            it.seq() == id@,
            forall|i: int| 0 <= i < it.index() ==> is_id_char(#[trigger] id@[i]),
    {
        let allowed = ('a' <= c && c <= 'z') || ('A' <= c && c <= 'Z') || ('0' <= c && c <= '9')
            || c == '-' || c == '_';
        if !allowed {
            assert(!is_id_char(id@[it.index()]));
            return false;
        }
        if n < MIN_REQUEST_LENGTH {
            n = n + 1;
        }
    }
    n >= MIN_REQUEST_LENGTH
}

/// One character of the alphabet, drawn at random.
fn random_letter() -> (c: &'static str)
    ensures
        c@.len() == 1,
        ALPHABET@.contains(c@[0]),
{
    proof {
        reveal_strlit("abcdeghkmnpqrswxyzACEFGHLMNPRSTWY34679");
    }
    let n = ALPHABET.unicode_len();
    let i = random_below(n);
    let c = ALPHABET.substring_char(i, i + 1);
    assert(c@[0] == ALPHABET@[i as int]);
    c
}

/// An id of `ID_LENGTH` characters of the alphabet, drawn at random.
fn generate_id() -> (id: String)
    ensures
        id@.len() == ID_LENGTH,
        is_generated_id(id@),
{
    let mut id = String::new();
    let mut k: usize = 0;
    while k < ID_LENGTH
        invariant
            k <= ID_LENGTH,
            id@.len() == k,
            forall|i: int| 0 <= i < id@.len() ==> ALPHABET@.contains(#[trigger] id@[i]),
        decreases ID_LENGTH - k,
    {
        let c = random_letter();
        id.append(c);
        k = k + 1;
    }
    id
}

/// Length of the longest of `ids`.
spec fn longest(ids: Seq<Seq<char>>) -> nat
    decreases ids.len(),
{
    if ids.len() == 0 {
        0
    } else if ids.last().len() > longest(ids.drop_last()) {
        ids.last().len()
    } else {
        longest(ids.drop_last())
    }
}

proof fn lemma_longest(ids: Seq<Seq<char>>, id: Seq<char>)
    requires
        ids.contains(id),
    ensures
        id.len() <= longest(ids),
    decreases ids.len(),
{
    if ids.last() != id {
        let i = choose|i: int| 0 <= i < ids.len() && ids[i] == id;
        assert(ids.drop_last()[i] == id);
        lemma_longest(ids.drop_last(), id);
    }
}

/// What became of a submission.
#[derive(Clone, Copy, Debug, PartialEq, Eq, Structural)]
pub enum Submission {
    /// No session with that id is live: the submission is dropped.
    NoSession,
    /// The submission waits in the session's mailbox.
    Delivered,
    /// The mailbox was full: the submission is dropped.
    MailboxFull,
    /// The session's receiving half is gone: the submission is dropped.
    MailboxClosed,
}

impl Submission {
    /// What the answer of a mailbox means for the submission.
    pub open spec fn of_offer(offer: Offer) -> Submission {
        match offer {
            Offer::Accepted => Submission::Delivered,
            Offer::Full => Submission::MailboxFull,
            Offer::Closed => Submission::MailboxClosed,
        }
    }

    /// What the answer of a mailbox means for the submission.
    pub fn from_offer(offer: Offer) -> (r: Submission)
        ensures
            r == Submission::of_offer(offer),
    {
        match offer {
            Offer::Accepted => Submission::Delivered,
            Offer::Full => Submission::MailboxFull,
            Offer::Closed => Submission::MailboxClosed,
        }
    }
}

/// One session as plain values: its id, the channel that is its mailbox, and
/// the submissions that the mailbox has accepted so far.
pub struct SessionView {
    pub id: Seq<char>,
    pub channel: int,
    pub accepted: Seq<Seq<char>>,
}

impl SessionView {
    /// A session that has just registered, with the channel `channel` as
    /// its mailbox.
    pub open spec fn fresh(id: Seq<char>, channel: int) -> SessionView {
        SessionView { id, channel, accepted: Seq::empty() }
    }

    /// The session after its mailbox has accepted `song`.
    pub open spec fn with(self, song: Seq<char>) -> SessionView {
        SessionView { id: self.id, channel: self.channel, accepted: self.accepted.push(song) }
    }
}

/// Whether one of `sessions` has the id `id`.
pub open spec fn is_live(sessions: Seq<SessionView>, id: Seq<char>) -> bool {
    exists|i: int| 0 <= i < sessions.len() && (#[trigger] sessions[i]).id == id
}

/// Whether no two of `sessions` have the same id.
pub open spec fn unique_ids(sessions: Seq<SessionView>) -> bool {
    forall|i: int, j: int|
        0 <= i < j < sessions.len() ==> (#[trigger] sessions[i]).id != (#[trigger] sessions[j]).id
}

/// The place of the session `id` among `sessions`.
pub open spec fn place_of(sessions: Seq<SessionView>, id: Seq<char>) -> int {
    choose|i: int| 0 <= i < sessions.len() && (#[trigger] sessions[i]).id == id
}

/// The channel that is the mailbox of session `id`.
pub open spec fn mailbox_of(sessions: Seq<SessionView>, id: Seq<char>) -> int {
    sessions[place_of(sessions, id)].channel
}

/// What the mailbox of session `id` has accepted.
pub open spec fn accepted_by(sessions: Seq<SessionView>, id: Seq<char>) -> Seq<Seq<char>> {
    sessions[place_of(sessions, id)].accepted
}

/// `sessions` without the session `id`.
pub open spec fn without(sessions: Seq<SessionView>, id: Seq<char>) -> Seq<SessionView> {
    if is_live(sessions, id) {
        sessions.remove(place_of(sessions, id))
    } else {
        sessions
    }
}

/// Whether registering with the request `requested` may turn the sessions
/// `before` into `after` and assign `id`: `id` was not live, and a session
/// with that id and a mailbox that has accepted nothing is appended; `id` is
/// the requested id where that is a valid request and not live, and a
/// generated id otherwise.
pub open spec fn registered(
    before: Seq<SessionView>,
    requested: Option<Seq<char>>,
    id: Seq<char>,
    after: Seq<SessionView>,
) -> bool {
    &&& !is_live(before, id)
    &&& after == before.push(SessionView::fresh(id, after.last().channel))
    &&& match requested {
        Some(x) if valid_id_request(x) && !is_live(before, x) => id == x,
        _ => is_generated_id(id),
    }
}

/// The request that `register` is given, as plain values.
pub open spec fn request_view(id: Option<String>) -> Option<Seq<char>> {
    match id {
        Some(x) => Some(x@),
        None => None,
    }
}

/// Whether submitting `song` to `id` may turn the sessions `before` into
/// `after` with the result `outcome`: with no session `id` nothing changes;
/// else the mailbox of that session, and no other, accepts `song` if the
/// submission is delivered, and nothing changes if it is dropped.
pub open spec fn submitted(
    before: Seq<SessionView>,
    id: Seq<char>,
    song: Seq<char>,
    outcome: Submission,
    after: Seq<SessionView>,
) -> bool {
    if is_live(before, id) {
        let i = place_of(before, id);
        &&& !(outcome is NoSession)
        &&& after == if outcome is Delivered {
            before.update(i, before[i].with(song))
        } else {
            before
        }
    } else {
        outcome is NoSession && after == before
    }
}

/// Where ids are unique, a session is at the place that is named for its
/// id.
pub proof fn lemma_place_of(sessions: Seq<SessionView>, i: int)
    requires
        unique_ids(sessions),
        0 <= i < sessions.len(),
    ensures
        is_live(sessions, sessions[i].id),
        place_of(sessions, sessions[i].id) == i,
{
    let j = place_of(sessions, sessions[i].id);
    if j < i {
        assert(sessions[j].id != sessions[i].id);
    }
    if i < j {
        assert(sessions[i].id != sessions[j].id);
    }
}

/// Two registrations in a row never assign the same id, whatever they
/// request.
pub proof fn lemma_registrations_differ(
    s0: Seq<SessionView>,
    first: Option<Seq<char>>,
    id1: Seq<char>,
    s1: Seq<SessionView>,
    second: Option<Seq<char>>,
    id2: Seq<char>,
    s2: Seq<SessionView>,
)
    requires
        registered(s0, first, id1, s1),
        registered(s1, second, id2, s2),
    ensures
        id1 != id2,
{
    assert(s1[s0.len() as int].id == id1);
}

/// Requesting an id that a live session has assigns another id, and every
/// live session keeps its id, its place and its mailbox.
pub proof fn lemma_live_id_is_not_reassigned(
    before: Seq<SessionView>,
    x: Seq<char>,
    id: Seq<char>,
    after: Seq<SessionView>,
)
    requires
        is_live(before, x),
        registered(before, Some(x), id, after),
    ensures
        id != x,
        after.len() == before.len() + 1,
        forall|i: int| 0 <= i < before.len() ==> after[i] == before[i],
{
}

/// Registering keeps the ids of live sessions unique.
pub proof fn lemma_registered_keeps_unique(
    before: Seq<SessionView>,
    requested: Option<Seq<char>>,
    id: Seq<char>,
    after: Seq<SessionView>,
)
    requires
        unique_ids(before),
        registered(before, requested, id, after),
    ensures
        unique_ids(after),
        is_live(after, id),
        place_of(after, id) == before.len(),
        mailbox_of(after, id) == after.last().channel,
        accepted_by(after, id) == Seq::<Seq<char>>::empty(),
{
    assert forall|i: int, j: int| 0 <= i < j < after.len() implies (#[trigger] after[i]).id != (
    #[trigger] after[j]).id by {
        assert(after[i] == before[i]);
        if j < before.len() {
            assert(after[j] == before[j]);
        }
    }
    lemma_place_of(after, before.len() as int);
}

/// Removing a session leaves no session with its id, keeps every other
/// session as it is, and doing it twice is the same as doing it once.
pub proof fn lemma_unregister_twice(sessions: Seq<SessionView>, id: Seq<char>)
    requires
        unique_ids(sessions),
    ensures
        unique_ids(without(sessions, id)),
        !is_live(without(sessions, id), id),
        without(without(sessions, id), id) == without(sessions, id),
        forall|x: Seq<char>|
            x != id && is_live(sessions, x) ==> is_live(without(sessions, id), x) && accepted_by(
                without(sessions, id),
                x,
            ) == accepted_by(sessions, x),
{
    let rest = without(sessions, id);
    if is_live(sessions, id) {
        let i = place_of(sessions, id);
        assert forall|a: int| 0 <= a < rest.len() implies (#[trigger] rest[a]) == sessions[if a
            < i {
            a
        } else {
            a + 1
        }] by {}
        assert forall|a: int, b: int| 0 <= a < b < rest.len() implies (#[trigger] rest[a]).id != (
        #[trigger] rest[b]).id by {
            let a0 = if a < i {
                a
            } else {
                a + 1
            };
            let b0 = if b < i {
                b
            } else {
                b + 1
            };
            assert(sessions[a0].id != sessions[b0].id);
        }
        if is_live(rest, id) {
            let j = place_of(rest, id);
            let j0 = if j < i {
                j
            } else {
                j + 1
            };
            assert(rest[j] == sessions[j0]);
            if j0 < i {
                assert(sessions[j0].id != sessions[i].id);
            } else {
                assert(sessions[i].id != sessions[j0].id);
            }
        }
    }
    assert forall|x: Seq<char>| x != id && is_live(sessions, x) implies is_live(rest, x)
        && accepted_by(rest, x) == accepted_by(sessions, x) by {
        let k = place_of(sessions, x);
        if is_live(sessions, id) {
            let i = place_of(sessions, id);
            let k1 = if k < i {
                k
            } else {
                k - 1
            };
            assert(rest[k1] == sessions[k]);
            lemma_place_of(rest, k1);
        }
    }
}

/// A submission to an id that no session has changes nothing: no mailbox
/// accepts anything, no session comes or goes, and the result is that there
/// is no such session.
pub proof fn lemma_unknown_submission(
    before: Seq<SessionView>,
    id: Seq<char>,
    song: Seq<char>,
    outcome: Submission,
    after: Seq<SessionView>,
)
    requires
        !is_live(before, id),
        submitted(before, id, song, outcome, after),
    ensures
        after == before,
        outcome == Submission::NoSession,
{
}

/// A submission reaches the mailbox of the session it names, and only that
/// one: a delivered submission is accepted there behind what was accepted
/// before, and every other session's mailbox has accepted what it had.
pub proof fn lemma_submission_reaches_one_mailbox(
    before: Seq<SessionView>,
    id: Seq<char>,
    song: Seq<char>,
    outcome: Submission,
    after: Seq<SessionView>,
    other: Seq<char>,
)
    requires
        unique_ids(before),
        is_live(before, id),
        is_live(before, other),
        other != id,
        submitted(before, id, song, outcome, after),
    ensures
        unique_ids(after),
        accepted_by(after, other) == accepted_by(before, other),
        accepted_by(after, id) == if outcome is Delivered {
            accepted_by(before, id).push(song)
        } else {
            accepted_by(before, id)
        },
{
    let i = place_of(before, id);
    let k = place_of(before, other);
    assert forall|a: int, b: int| 0 <= a < b < after.len() implies (#[trigger] after[a]).id != (
    #[trigger] after[b]).id by {
        assert(after[a].id == before[a].id && after[b].id == before[b].id);
    }
    assert(after[i].id == id && after[k].id == other);
    lemma_place_of(after, i);
    lemma_place_of(after, k);
}

/// One registered session.
pub struct Connection {
    id: String,
    queue: Sender<String>,
}

impl View for Connection {
    type V = SessionView;

    closed spec fn view(&self) -> SessionView {
        SessionView {
            id: self.id@,
            channel: channel_of(self.queue),
            accepted: accepted(self.queue),
        }
    }
}

/// The sessions of `sessions` as plain values, in order.
spec fn session_views(sessions: Seq<Connection>) -> Seq<SessionView> {
    sessions.map_values(|c: Connection| c@)
}

/// The ids of `sessions`, in order.
spec fn ids_of(sessions: Seq<SessionView>) -> Seq<Seq<char>> {
    sessions.map_values(|s: SessionView| s.id)
}

/// Position of the session `id` among `sessions`.
fn position(sessions: &Vec<Connection>, id: &str) -> (r: Option<usize>)
    ensures
        match r {
            Some(i) => i < sessions@.len() && session_views(sessions@)[i as int].id == id@,
            None => !is_live(session_views(sessions@), id@),
        },
{
    let mut i: usize = 0;
    while i < sessions.len()
        invariant
            i <= sessions@.len(),
            forall|j: int| 0 <= j < i ==> (#[trigger] session_views(sessions@)[j]).id != id@,
        decreases sessions@.len() - i,
    {
        if same_text(sessions[i].id.as_str(), id) {
            return Some(i);
        }
        i = i + 1;
    }
    None
}

/// An id that none of `sessions` has. A colliding id is drawn anew; among
/// sessions so many that `REGENERATIONS` draws collide, each further
/// collision lengthens the id by one letter.
fn fresh_id(sessions: &Vec<Connection>) -> (id: String)
    ensures
        !is_live(session_views(sessions@), id@),
        is_generated_id(id@),
{
    let mut id = generate_id();
    let mut draws: usize = 0;
    while draws < REGENERATIONS && position(sessions, id.as_str()).is_some()
        invariant
            draws <= REGENERATIONS,
            is_generated_id(id@),
        decreases REGENERATIONS - draws,
    {
        draws = draws + 1;
        id = generate_id();
    }
    while position(sessions, id.as_str()).is_some()
        invariant
            is_generated_id(id@),
        decreases longest(ids_of(session_views(sessions@))) + 1 - id@.len(),
    {
        proof {
            let views = session_views(sessions@);
            let i = choose|i: int| 0 <= i < views.len() && (#[trigger] views[i]).id == id@;
            assert(ids_of(views)[i] == id@);
            lemma_longest(ids_of(views), id@);
        }
        let letter = random_letter();
        id.append(letter);
    }
    id
}

/// The live sessions, in the order in which they registered. No two of them
/// have the same id.
pub struct Connections {
    connections: Vec<Connection>,
}

impl View for Connections {
    type V = Seq<SessionView>;

    closed spec fn view(&self) -> Seq<SessionView> {
        session_views(self.connections@)
    }
}

impl Connections {
    /// No two live sessions have the same id.
    #[verifier::type_invariant]
    pub open spec fn wf(&self) -> bool {
        unique_ids(self@)
    }

    /// A registry without sessions.
    pub fn new() -> (r: Self)
        ensures
            r@ == Seq::<SessionView>::empty(),
    {
        let r = Connections { connections: Vec::new() };
        assert(r@ =~= Seq::<SessionView>::empty());
        r
    }

    /// Takes the sessions out and leaves none behind.
    fn take(&mut self) -> (sessions: Vec<Connection>)
        ensures
            session_views(sessions@) == old(self)@,
            unique_ids(old(self)@),
            final(self)@ == Seq::<SessionView>::empty(),
    {
        let mut taken = Connections::new();
        std::mem::swap(self, &mut taken);
        proof {
            use_type_invariant(&taken);
        }
        let Connections { connections } = taken;
        connections
    }

    /// Whether a session `id` is live.
    pub fn contains(&self, id: &str) -> (r: bool)
        ensures
            r == is_live(self@, id@),
            unique_ids(self@),
    {
        proof {
            use_type_invariant(self);
        }
        position(&self.connections, id).is_some()
    }

    /// Registers a session and opens its mailbox. The session gets the
    /// requested id if that is a valid request and no live session has it;
    /// otherwise it gets a generated id that no live session has. Returns the
    /// id and the receiving half of the session's mailbox.
    pub fn register(&mut self, id: Option<String>) -> (r: (String, Receiver<String>))
        ensures
            registered(old(self)@, request_view(id), r.0@, final(self)@),
            is_live(final(self)@, r.0@),
            mailbox_of(final(self)@, r.0@) == source_of(r.1),
            unique_ids(final(self)@),
    {
        let mut sessions = self.take();
        let ghost request = request_view(id);
        let assigned = match id {
            Some(x) => {
                if is_valid_id_request(x.as_str()) && position(&sessions, x.as_str()).is_none() {
                    x
                } else {
                    fresh_id(&sessions)
                }
            },
            None => fresh_id(&sessions),
        };
        let (sender, receiver) = open_mailbox(MAILBOX_CAPACITY);
        sessions.push(Connection { id: assigned.clone(), queue: sender });
        proof {
            assert(session_views(sessions@) =~= old(self)@.push(
                SessionView::fresh(assigned@, source_of(receiver)),
            ));
            lemma_registered_keeps_unique(old(self)@, request, assigned@, session_views(sessions@));
        }
        *self = Connections { connections: sessions };
        (assigned, receiver)
    }

    /// Removes the session `id`, which closes its mailbox; does nothing if no
    /// such session is live.
    pub fn unregister(&mut self, id: &str)
        ensures
            final(self)@ == without(old(self)@, id@),
            !is_live(final(self)@, id@),
            unique_ids(final(self)@),
    {
        let mut sessions = self.take();
        match position(&sessions, id) {
            Some(i) => {
                proof {
                    lemma_place_of(old(self)@, i as int);
                }
                let _ = sessions.remove(i);
                assert(session_views(sessions@) =~= old(self)@.remove(i as int));
            },
            None => {},
        }
        proof {
            lemma_unregister_twice(old(self)@, id@);
        }
        *self = Connections { connections: sessions };
    }

    /// Hands `song` to the mailbox of session `id` without waiting. The
    /// submission is dropped if no such session is live, if its mailbox is
    /// full, or if its receiving half is gone. No other mailbox is touched.
    pub fn submit(&mut self, id: &str, song: &str) -> (r: Submission)
        ensures
            submitted(old(self)@, id@, song@, r, final(self)@),
            r is NoSession <==> !is_live(old(self)@, id@),
            !is_live(old(self)@, id@) ==> final(self)@ == old(self)@,
            unique_ids(final(self)@),
    {
        let mut sessions = self.take();
        let outcome = match position(&sessions, id) {
            Some(i) => {
                proof {
                    lemma_place_of(old(self)@, i as int);
                }
                let mut session = sessions.remove(i);
                let offered = offer(&mut session.queue, song.to_owned());
                sessions.insert(i, session);
                let outcome = Submission::from_offer(offered);
                proof {
                    let before = old(self)@;
                    if outcome is Delivered {
                        assert(session_views(sessions@) =~= before.update(
                            i as int,
                            before[i as int].with(song@),
                        ));
                    } else {
                        assert(session_views(sessions@) =~= before);
                    }
                    assert forall|a: int, b: int|
                        0 <= a < b < sessions@.len() implies (#[trigger] session_views(
                        sessions@,
                    )[a]).id != (#[trigger] session_views(sessions@)[b]).id by {
                        assert(before[a].id != before[b].id);
                    }
                }
                outcome
            },
            None => Submission::NoSession,
        };
        *self = Connections { connections: sessions };
        outcome
    }
}

} // verus!
