//! What holds of the store across operations.

use crate::state::{
    first_ready, first_with_id, has_id, has_ready, is_first_ready, is_first_with_id, mark_first,
    lemma_first_ready_unique, swap_adjacent, PlayingView, SongView, StoreView,
};
use std::time::Duration;
use vstd::prelude::*;

verus! {

/// No two entries of `q` carry the same id.
pub open spec fn unique_ids(q: Seq<SongView>) -> bool {
    forall|i: int, j: int| 0 <= i < j < q.len() ==> (#[trigger] q[i]).id != (#[trigger] q[j]).id
}

/// No entry of `a` carries the id of an entry of `b`.
pub open spec fn disjoint_ids(a: Seq<SongView>, b: Seq<SongView>) -> bool {
    forall|i: int, j: int|
        0 <= i < a.len() && 0 <= j < b.len() ==> (#[trigger] a[i]).id != (#[trigger] b[j]).id
}

impl StoreView {
    /// In how many of the three places (primary queue, fallback queue,
    /// playing slot) `id` is present.
    pub open spec fn places(self, id: Seq<char>) -> int {
        (if has_id(self.queue, id) {
            1int
        } else {
            0int
        }) + (if has_id(self.fallback, id) {
            1int
        } else {
            0int
        }) + (if self.is_playing(id) {
            1int
        } else {
            0int
        })
    }

    /// No id is present in more than one of the three places.
    pub open spec fn ids_apart(self) -> bool {
        forall|id: Seq<char>| #[trigger] self.places(id) <= 1
    }

    /// Every id occurs at most once in the whole store.
    pub open spec fn ids_distinct(self) -> bool {
        &&& unique_ids(self.queue)
        &&& unique_ids(self.fallback)
        &&& disjoint_ids(self.queue, self.fallback)
        &&& self.playing is Some ==> !has_id(self.queue, self.playing->0.song.id) && !has_id(
            self.fallback,
            self.playing->0.song.id,
        )
    }
}

/// One operation on the store, with its arguments as plain values.
pub enum StoreOp {
    Enqueue { song: SongView, is_fallback: bool },
    MarkDownloaded { id: Seq<char> },
    GetNextSong,
    UpdateCurrentTime { total: Duration, elapsed: Duration },
    DeleteSong { index: int },
    MoveUp { index: int },
    MoveDown { index: int },
    SetConnected { id: Seq<char> },
    SetConnectionError { msg: Seq<char> },
}

impl StoreView {
    /// The store after `op`.
    pub open spec fn apply(self, op: StoreOp) -> StoreView {
        match op {
            StoreOp::Enqueue { song, is_fallback } => self.enqueue(song, is_fallback),
            StoreOp::MarkDownloaded { id } => self.mark_downloaded(id),
            StoreOp::GetNextSong => self.take_next(),
            StoreOp::UpdateCurrentTime { total, elapsed } => self.update_current_time(
                total,
                elapsed,
            ),
            StoreOp::DeleteSong { index } => self.delete_song(index),
            StoreOp::MoveUp { index } => self.move_up(index),
            StoreOp::MoveDown { index } => self.move_down(index),
            StoreOp::SetConnected { id } => self.set_connected(id),
            StoreOp::SetConnectionError { msg } => self.set_connection_error(msg),
        }
    }

    /// The store after the operations `ops`, first to last.
    pub open spec fn run(self, ops: Seq<StoreOp>) -> StoreView
        decreases ops.len(),
    {
        if ops.len() == 0 {
            self
        } else {
            self.run(ops.drop_last()).apply(ops.last())
        }
    }

    /// Whether `op` appends an entry whose id already waits in the fallback
    /// queue. `enqueue` looks for the id in the playing slot and in the
    /// primary queue only, so such an entry is appended a second time.
    pub open spec fn repeats_fallback_id(self, op: StoreOp) -> bool {
        op matches StoreOp::Enqueue { song, .. } && has_id(self.fallback, song.id)
            && !self.is_playing(song.id) && !has_id(self.queue, song.id)
    }

    /// Whether no operation of `ops`, run from this store, appends an id that
    /// waits in the fallback queue at that moment.
    pub open spec fn never_repeats_fallback_id(self, ops: Seq<StoreOp>) -> bool {
        forall|k: int|
            0 <= k < ops.len() ==> !(#[trigger] self.run(ops.take(k))).repeats_fallback_id(ops[k])
    }
}

/// Where some entry carries `id`, one of them is the earliest.
pub proof fn lemma_first_with_id_exists(q: Seq<SongView>, id: Seq<char>)
    requires
        has_id(q, id),
    ensures
        is_first_with_id(q, id, first_with_id(q, id)),
{
    let k = choose|k: int| 0 <= k < q.len() && (#[trigger] q[k]).id == id;
    lemma_earliest_with_id(q, id, k);
}

proof fn lemma_earliest_with_id(q: Seq<SongView>, id: Seq<char>, k: int)
    requires
        0 <= k < q.len(),
        q[k].id == id,
    ensures
        exists|i: int| is_first_with_id(q, id, i),
    decreases k,
{
    if exists|j: int| 0 <= j < k && (#[trigger] q[j]).id == id {
        let j = choose|j: int| 0 <= j < k && (#[trigger] q[j]).id == id;
        lemma_earliest_with_id(q, id, j);
    } else {
        assert(is_first_with_id(q, id, k));
    }
}

/// Where some entry is downloaded, one of them is the earliest.
pub proof fn lemma_first_ready_exists(q: Seq<SongView>)
    requires
        has_ready(q),
    ensures
        is_first_ready(q, first_ready(q)),
{
    let k = choose|k: int| 0 <= k < q.len() && (#[trigger] q[k]).downloaded;
    lemma_earliest_ready(q, k);
}

proof fn lemma_earliest_ready(q: Seq<SongView>, k: int)
    requires
        0 <= k < q.len(),
        q[k].downloaded,
    ensures
        exists|i: int| is_first_ready(q, i),
    decreases k,
{
    if exists|j: int| 0 <= j < k && (#[trigger] q[j]).downloaded {
        let j = choose|j: int| 0 <= j < k && (#[trigger] q[j]).downloaded;
        lemma_earliest_ready(q, j);
    } else {
        assert(is_first_ready(q, k));
    }
}

/// Marking an entry as downloaded changes no id and moves no entry.
pub proof fn lemma_mark_first_keeps_ids(q: Seq<SongView>, id: Seq<char>)
    ensures
        mark_first(q, id).len() == q.len(),
        forall|i: int| 0 <= i < q.len() ==> (#[trigger] mark_first(q, id)[i]).id == q[i].id,
        forall|x: Seq<char>| has_id(mark_first(q, id), x) == has_id(q, x),
{
    if has_id(q, id) {
        lemma_first_with_id_exists(q, id);
    }
    let m = mark_first(q, id);
    assert forall|x: Seq<char>| has_id(m, x) == has_id(q, x) by {
        if has_id(q, x) {
            let i = choose|i: int| 0 <= i < q.len() && (#[trigger] q[i]).id == x;
            assert(m[i].id == x);
        }
        if has_id(m, x) {
            let i = choose|i: int| 0 <= i < m.len() && (#[trigger] m[i]).id == x;
            assert(q[i].id == x);
        }
    }
}

/// Where every id occurs once in the whole store, no id is present in more
/// than one of primary queue, fallback queue and playing slot.
pub proof fn lemma_distinct_ids_are_apart(s: StoreView)
    requires
        s.ids_distinct(),
    ensures
        s.ids_apart(),
{
    assert forall|id: Seq<char>| #[trigger] s.places(id) <= 1 by {
        if has_id(s.queue, id) && has_id(s.fallback, id) {
            let i = choose|i: int| 0 <= i < s.queue.len() && (#[trigger] s.queue[i]).id == id;
            let j = choose|j: int|
                0 <= j < s.fallback.len() && (#[trigger] s.fallback[j]).id == id;
            assert(s.queue[i].id != s.fallback[j].id);
        }
    }
}

/// Removing an entry keeps ids unique, and removes its id where ids are
/// unique.
proof fn lemma_remove_keeps_unique(q: Seq<SongView>, i: int)
    requires
        unique_ids(q),
        0 <= i < q.len(),
    ensures
        unique_ids(q.remove(i)),
        !has_id(q.remove(i), q[i].id),
        forall|x: Seq<char>| has_id(q.remove(i), x) ==> has_id(q, x),
{
    let r = q.remove(i);
    assert forall|a: int, b: int| 0 <= a < b < r.len() implies (#[trigger] r[a]).id != (
    #[trigger] r[b]).id by {
        let a0 = if a < i {
            a
        } else {
            a + 1
        };
        let b0 = if b < i {
            b
        } else {
            b + 1
        };
        assert(r[a] == q[a0] && r[b] == q[b0]);
    }
    assert forall|x: Seq<char>| has_id(r, x) implies has_id(q, x) && x != q[i].id by {
        let a = choose|a: int| 0 <= a < r.len() && (#[trigger] r[a]).id == x;
        let a0 = if a < i {
            a
        } else {
            a + 1
        };
        assert(r[a] == q[a0]);
        if a0 < i {
            assert(q[a0].id != q[i].id);
        } else {
            assert(q[i].id != q[a0].id);
        }
    }
}

/// Exchanging two neighbours keeps ids unique and keeps the set of ids.
proof fn lemma_swap_keeps_unique(q: Seq<SongView>, i: int)
    requires
        unique_ids(q),
        0 <= i,
        i + 1 < q.len(),
    ensures
        unique_ids(swap_adjacent(q, i)),
        forall|x: Seq<char>| has_id(swap_adjacent(q, i), x) == has_id(q, x),
{
    let r = swap_adjacent(q, i);
    let other = |a: int|
        if a == i {
            i + 1
        } else if a == i + 1 {
            i
        } else {
            a
        };
    assert forall|a: int, b: int| 0 <= a < b < r.len() implies (#[trigger] r[a]).id != (
    #[trigger] r[b]).id by {
        assert(r[a] == q[other(a)] && r[b] == q[other(b)]);
        if other(a) < other(b) {
            assert(q[other(a)].id != q[other(b)].id);
        } else {
            assert(q[other(b)].id != q[other(a)].id);
        }
    }
    assert forall|x: Seq<char>| has_id(r, x) == has_id(q, x) by {
        if has_id(r, x) {
            let a = choose|a: int| 0 <= a < r.len() && (#[trigger] r[a]).id == x;
            assert(q[other(a)].id == x);
        }
        if has_id(q, x) {
            let a = choose|a: int| 0 <= a < q.len() && (#[trigger] q[a]).id == x;
            assert(r[other(a)].id == x);
        }
    }
}

/// Appending an entry whose id is new keeps ids unique.
proof fn lemma_push_keeps_unique(q: Seq<SongView>, song: SongView)
    requires
        unique_ids(q),
        !has_id(q, song.id),
    ensures
        unique_ids(q.push(song)),
        forall|x: Seq<char>| has_id(q.push(song), x) == (has_id(q, x) || x == song.id),
{
    let r = q.push(song);
    assert forall|a: int, b: int| 0 <= a < b < r.len() implies (#[trigger] r[a]).id != (
    #[trigger] r[b]).id by {
        assert(r[a] == q[a]);
        if b == q.len() {
            assert(q[a].id != song.id);
        } else {
            assert(r[b] == q[b]);
        }
    }
    assert forall|x: Seq<char>| has_id(r, x) == (has_id(q, x) || x == song.id) by {
        if has_id(r, x) {
            let a = choose|a: int| 0 <= a < r.len() && (#[trigger] r[a]).id == x;
            if a < q.len() {
                assert(q[a].id == x);
            }
        }
        if has_id(q, x) {
            let a = choose|a: int| 0 <= a < q.len() && (#[trigger] q[a]).id == x;
            assert(r[a].id == x);
        }
        if x == song.id {
            assert(r[q.len() as int].id == x);
        }
    }
}

/// Two queues share no id exactly if no id of the first is in the second.
proof fn lemma_disjoint_by_ids(a: Seq<SongView>, b: Seq<SongView>)
    ensures
        disjoint_ids(a, b) <==> (forall|x: Seq<char>| !(has_id(a, x) && has_id(b, x))),
{
    if disjoint_ids(a, b) {
        assert forall|x: Seq<char>| !(has_id(a, x) && has_id(b, x)) by {
            if has_id(a, x) && has_id(b, x) {
                let i = choose|i: int| 0 <= i < a.len() && (#[trigger] a[i]).id == x;
                let j = choose|j: int| 0 <= j < b.len() && (#[trigger] b[j]).id == x;
                assert(a[i].id != b[j].id);
            }
        }
    }
    if forall|x: Seq<char>| !(has_id(a, x) && has_id(b, x)) {
        assert forall|i: int, j: int| 0 <= i < a.len() && 0 <= j < b.len() implies (
        #[trigger] a[i]).id != (#[trigger] b[j]).id by {
            if a[i].id == b[j].id {
                assert(has_id(a, a[i].id));
                assert(has_id(b, a[i].id));
            }
        }
    }
}

/// One operation keeps every id at most once in the store, unless it
/// appends an id that already waits in the fallback queue.
pub proof fn lemma_apply_keeps_ids_distinct(s: StoreView, op: StoreOp)
    requires
        s.ids_distinct(),
        !s.repeats_fallback_id(op),
    ensures
        s.apply(op).ids_distinct(),
{
    let t = s.apply(op);
    lemma_disjoint_by_ids(s.queue, s.fallback);
    match op {
        StoreOp::Enqueue { song, is_fallback } => {
            if s.is_playing(song.id) || has_id(s.queue, song.id) {
            } else if is_fallback {
                lemma_push_keeps_unique(s.fallback, song);
                lemma_disjoint_by_ids(t.queue, t.fallback);
            } else {
                lemma_push_keeps_unique(s.queue, song);
                lemma_disjoint_by_ids(t.queue, t.fallback);
            }
        },
        StoreOp::MarkDownloaded { id } => {
            lemma_mark_first_keeps_ids(s.queue, id);
            lemma_mark_first_keeps_ids(s.fallback, id);
            lemma_disjoint_by_ids(t.queue, t.fallback);
            assert(unique_ids(t.queue)) by {
                assert forall|a: int, b: int| 0 <= a < b < t.queue.len() implies (
                #[trigger] t.queue[a]).id != (#[trigger] t.queue[b]).id by {
                    assert(s.queue[a].id != s.queue[b].id);
                }
            }
            assert(unique_ids(t.fallback)) by {
                assert forall|a: int, b: int| 0 <= a < b < t.fallback.len() implies (
                #[trigger] t.fallback[a]).id != (#[trigger] t.fallback[b]).id by {
                    assert(s.fallback[a].id != s.fallback[b].id);
                }
            }
        },
        StoreOp::GetNextSong => {
            if has_ready(s.queue) {
                lemma_first_ready_exists(s.queue);
                let i = first_ready(s.queue);
                lemma_remove_keeps_unique(s.queue, i);
                lemma_disjoint_by_ids(t.queue, t.fallback);
                assert(has_id(s.queue, s.queue[i].id));
            } else if has_ready(s.fallback) {
                lemma_first_ready_exists(s.fallback);
                let i = first_ready(s.fallback);
                lemma_remove_keeps_unique(s.fallback, i);
                lemma_disjoint_by_ids(t.queue, t.fallback);
                assert(has_id(s.fallback, s.fallback[i].id));
            } else {
            }
        },
        StoreOp::UpdateCurrentTime { total, elapsed } => {},
        StoreOp::DeleteSong { index } => {
            let n = s.queue.len() as int;
            if 1 <= index <= n {
                lemma_remove_keeps_unique(s.queue, index - 1);
                lemma_disjoint_by_ids(t.queue, t.fallback);
            } else if n < index <= s.len() {
                lemma_remove_keeps_unique(s.fallback, index - n - 1);
                lemma_disjoint_by_ids(t.queue, t.fallback);
            }
        },
        StoreOp::MoveUp { index } => {
            if s.can_move_up(index) {
                lemma_exchange_keeps_ids_distinct(s, index - 1);
            }
        },
        StoreOp::MoveDown { index } => {
            if s.can_move_down(index) {
                lemma_exchange_keeps_ids_distinct(s, index);
            }
        },
        StoreOp::SetConnected { id } => {},
        StoreOp::SetConnectionError { msg } => {},
    }
}

proof fn lemma_exchange_keeps_ids_distinct(s: StoreView, index: int)
    requires
        s.ids_distinct(),
        s.can_move_down(index),
    ensures
        s.exchange(index).ids_distinct(),
{
    let t = s.exchange(index);
    let n = s.queue.len() as int;
    lemma_disjoint_by_ids(s.queue, s.fallback);
    if index < n {
        lemma_swap_keeps_unique(s.queue, index - 1);
    } else {
        lemma_swap_keeps_unique(s.fallback, index - n - 1);
    }
    lemma_disjoint_by_ids(t.queue, t.fallback);
}

/// An id that waits in the fallback queue, and is neither playing nor in the
/// primary queue, is in both queues once it is enqueued to the primary queue.
pub proof fn lemma_repeated_id_is_in_two_places(s: StoreView, song: SongView)
    requires
        s.repeats_fallback_id(StoreOp::Enqueue { song, is_fallback: false }),
    ensures
        s.enqueue(song, false).places(song.id) == 2,
        !s.enqueue(song, false).ids_apart(),
{
    let t = s.enqueue(song, false);
    assert(t.queue[s.queue.len() as int].id == song.id);
    assert(has_id(t.queue, song.id));
}

/// From the empty store, any sequence of operations leaves every id in at
/// most one of primary queue, fallback queue and playing slot, as long as no
/// operation of the sequence appends an id that waits in the fallback queue
/// at that moment.
pub proof fn lemma_ids_stay_apart(ops: Seq<StoreOp>)
    requires
        StoreView::empty().never_repeats_fallback_id(ops),
    ensures
        StoreView::empty().run(ops).ids_distinct(),
        StoreView::empty().run(ops).ids_apart(),
    decreases ops.len(),
{
    let start = StoreView::empty();
    if ops.len() > 0 {
        let before = ops.drop_last();
        assert forall|k: int| 0 <= k < before.len() implies !(#[trigger] start.run(
            before.take(k),
        )).repeats_fallback_id(before[k]) by {
            assert(before.take(k) =~= ops.take(k));
            assert(!start.run(ops.take(k)).repeats_fallback_id(ops[k]));
        }
        lemma_ids_stay_apart(before);
        assert(ops.take(ops.len() - 1) =~= before);
        assert(!start.run(ops.take(ops.len() - 1)).repeats_fallback_id(ops[ops.len() - 1]));
        lemma_apply_keeps_ids_distinct(start.run(before), ops.last());
    }
    lemma_distinct_ids_are_apart(start.run(ops));
}

/// Whether the earliest downloaded entry of `q` carries `id`.
pub open spec fn leads(q: Seq<SongView>, id: Seq<char>) -> bool {
    exists|i: int| #[trigger] is_first_ready(q, i) && q[i].id == id
}

impl StoreView {
    /// Whether the earliest downloaded entry across both queues, the primary
    /// queue before the fallback queue, carries `id`.
    pub open spec fn earliest_ready_is(self, id: Seq<char>) -> bool {
        leads(self.queue, id) || (!has_ready(self.queue) && leads(self.fallback, id))
    }
}

/// Enqueueing the id that is playing changes nothing, whichever queue is
/// named.
pub proof fn lemma_enqueue_of_playing_id(s: StoreView, song: SongView, is_fallback: bool)
    requires
        s.is_playing(song.id),
    ensures
        s.enqueue(song, is_fallback) == s,
{
}

/// A selection takes the earliest downloaded entry of the primary queue; if
/// the primary queue has none, the earliest of the fallback queue; if neither
/// has one, nothing. The entry taken is removed from its place, and every
/// other entry keeps its queue and its order.
pub proof fn lemma_selection_takes_earliest(s: StoreView)
    ensures
        has_ready(s.queue) ==> {
            let i = first_ready(s.queue);
            &&& is_first_ready(s.queue, i)
            &&& s.next_song() == Some(s.queue[i])
            &&& s.take_next().playing == Some(PlayingView::fresh(s.queue[i]))
            &&& s.take_next().queue == s.queue.remove(i)
            &&& s.take_next().fallback == s.fallback
        },
        !has_ready(s.queue) && has_ready(s.fallback) ==> {
            let i = first_ready(s.fallback);
            &&& is_first_ready(s.fallback, i)
            &&& s.next_song() == Some(s.fallback[i])
            &&& s.take_next().playing == Some(PlayingView::fresh(s.fallback[i]))
            &&& s.take_next().queue == s.queue
            &&& s.take_next().fallback == s.fallback.remove(i)
        },
        !has_ready(s.queue) && !has_ready(s.fallback) ==> {
            &&& s.next_song() is None
            &&& s.take_next().playing is None
            &&& s.take_next().queue == s.queue
            &&& s.take_next().fallback == s.fallback
        },
{
    if has_ready(s.queue) {
        lemma_first_ready_exists(s.queue);
    } else if has_ready(s.fallback) {
        lemma_first_ready_exists(s.fallback);
    }
}

/// After `mark_downloaded(id)`, the next selection returns `id` if and only
/// if the earliest downloaded entry across both queues carries `id`.
pub proof fn lemma_mark_then_select(s: StoreView, id: Seq<char>)
    ensures
        ({
            let t = s.mark_downloaded(id);
            (t.next_song() is Some && t.next_song()->0.id == id) <==> t.earliest_ready_is(id)
        }),
{
    let t = s.mark_downloaded(id);
    lemma_leads(t.queue, id);
    lemma_leads(t.fallback, id);
}

proof fn lemma_leads(q: Seq<SongView>, id: Seq<char>)
    ensures
        leads(q, id) <==> has_ready(q) && q[first_ready(q)].id == id,
{
    if has_ready(q) {
        lemma_first_ready_exists(q);
        assert(is_first_ready(q, first_ready(q)));
    }
    if leads(q, id) {
        let i = choose|i: int| #[trigger] is_first_ready(q, i) && q[i].id == id;
        lemma_first_ready_unique(q, i);
    }
}

/// After `mark_downloaded(id)`, the next selection returns `id` where the
/// entry with `id` waits in the primary queue with no downloaded entry before
/// it.
pub proof fn lemma_marked_at_front_is_selected(s: StoreView, id: Seq<char>)
    requires
        has_id(s.queue, id),
        forall|j: int| 0 <= j < first_with_id(s.queue, id) ==> !(#[trigger] s.queue[j]).downloaded,
    ensures
        s.mark_downloaded(id).next_song() is Some,
        s.mark_downloaded(id).next_song()->0.id == id,
{
    let t = s.mark_downloaded(id);
    lemma_first_with_id_exists(s.queue, id);
    let i = first_with_id(s.queue, id);
    assert(is_first_ready(t.queue, i)) by {
        assert forall|j: int| 0 <= j < i implies !(#[trigger] t.queue[j]).downloaded by {
            assert(!s.queue[j].downloaded);
        }
    }
    lemma_first_ready_unique(t.queue, i);
}

/// After `mark_downloaded(id)`, the next selection does not return `id` where
/// an entry with another id is downloaded in the primary queue and no entry
/// before it carries `id`.
pub proof fn lemma_earlier_entry_is_selected(s: StoreView, id: Seq<char>, k: int)
    requires
        0 <= k < s.queue.len(),
        s.queue[k].downloaded,
        forall|j: int| 0 <= j <= k ==> (#[trigger] s.queue[j]).id != id,
    ensures
        s.mark_downloaded(id).next_song() is Some,
        s.mark_downloaded(id).next_song()->0.id != id,
{
    let t = s.mark_downloaded(id);
    lemma_mark_first_keeps_ids(s.queue, id);
    if has_id(s.queue, id) {
        lemma_first_with_id_exists(s.queue, id);
    }
    assert(t.queue[k].downloaded);
    lemma_first_ready_exists(t.queue);
    let i = first_ready(t.queue);
    if i > k {
        assert(!t.queue[k].downloaded);
    }
    assert(t.queue[i].id == s.queue[i].id);
}

/// `move_up` at index 0 or 1 and `move_down` at the last index of the primary
/// queue change nothing and return the index they were given.
pub proof fn lemma_moves_at_the_boundary(s: StoreView)
    ensures
        s.move_up(0) == s && s.move_up_index(0) == 0,
        s.move_up(1) == s && s.move_up_index(1) == 1,
        s.move_down(s.queue.len() as int) == s && s.move_down_index(s.queue.len() as int)
            == s.queue.len(),
{
}

/// Moving an entry up and then moving it down from where it went restores
/// the store and the index, for every entry that has a predecessor in its
/// queue.
pub proof fn lemma_move_up_then_down(s: StoreView, index: int)
    requires
        s.can_move_up(index),
    ensures
        s.move_up(index).move_down(s.move_up_index(index)) == s,
        s.move_up(index).move_down_index(s.move_up_index(index)) == index,
{
    lemma_exchange_twice(s, index - 1);
}

/// Moving an entry down and then moving it up from where it went restores
/// the store and the index, for every entry that has a successor in its
/// queue.
pub proof fn lemma_move_down_then_up(s: StoreView, index: int)
    requires
        s.can_move_down(index),
    ensures
        s.move_down(index).move_up(s.move_down_index(index)) == s,
        s.move_down(index).move_up_index(s.move_down_index(index)) == index,
{
    lemma_exchange_twice(s, index);
}

proof fn lemma_exchange_twice(s: StoreView, index: int)
    requires
        s.can_move_down(index),
    ensures
        s.exchange(index).can_move_down(index),
        s.exchange(index).can_move_up(index + 1),
        s.exchange(index).exchange(index) == s,
{
    let t = s.exchange(index);
    let n = s.queue.len() as int;
    if index < n {
        assert(swap_adjacent(swap_adjacent(s.queue, index - 1), index - 1) =~= s.queue);
    } else {
        assert(swap_adjacent(swap_adjacent(s.fallback, index - n - 1), index - n - 1)
            =~= s.fallback);
    }
    assert(t.exchange(index) =~= s);
}

} // verus!
