//! The per-pump-thread window registry: the live mapping from native window
//! identifiers to each window's outbound event queue.
//!
//! The registry is owned and mutated by exactly one message-pump thread; the
//! platform invokes that thread's callback re-entrantly, and the callback
//! resolves each incoming message to the right queue through [`CallbackData`].
//! A cached index makes repeated lookups of the active window O(1); the cache
//! is an optimization only, never a source of truth.

use vstd::prelude::*;

use crate::event::Event;
use crate::queue::EventQueue;

verus! {

/// An opaque, platform-assigned, process-unique identifier for a native
/// window. The platform may reuse a value after the window is destroyed, so
/// the registry deregisters an identifier before it can be considered free.
#[derive(Debug, Clone, Copy, PartialEq, Eq, Structural)]
pub struct WindowId(pub u64);

/// One live window's registry entry: its identifier, the queue its events
/// are delivered through, and the native cursor handle shown over its
/// client area (`0` for no cursor).
#[derive(Debug, PartialEq)]
pub struct WindowEntry {
    /// The native identifier of the window.
    pub window: WindowId,
    /// The producer end of the window's event channel.
    pub sender: EventQueue,
    /// The native cursor handle for this window; `0` shows no cursor.
    pub cursor: u64,
}

/// The registry a pump thread's callback works against: the live entries,
/// the cached index of the last window looked up, and the last reported
/// mouse position (used to tell a mouse entry from a repeated move report;
/// `i64::MAX` means the mouse is not over any tracked window).
#[derive(Debug)]
pub struct CallbackData {
    /// The top-level window this pump thread exists for: processing its
    /// destroy report drains the whole registry and ends the thread's
    /// message loop.
    pub root: WindowId,
    /// The live entries, in registration order.
    pub win_vec: Vec<WindowEntry>,
    /// Cached index of the last window resolved; an optimization only.
    pub win_index: usize,
    /// The raw coordinates of the last mouse report, or `MOUSE_POS_NONE`.
    pub last_mpos: i64,
}

/// The sentinel stored in `last_mpos` while the mouse is not over any
/// tracked window.
pub const MOUSE_POS_NONE: i64 = i64::MAX;

/// Whether a sequence of identifiers holds no identifier twice.
pub open spec fn distinct_ids(ids: Seq<WindowId>) -> bool {
    forall|i: int, j: int| 0 <= i < j < ids.len() ==> ids[i] != ids[j]
}

/// Where an identifier stands in a sequence, scanning from the back the way
/// the registry does: most-recently-created windows are most likely to be
/// active. With distinct identifiers this is the only occurrence.
pub open spec fn find_index(ids: Seq<WindowId>, id: WindowId) -> Option<int>
    decreases ids.len(),
{
    if ids.len() == 0 {
        None
    } else if ids.last() == id {
        Some(ids.len() - 1)
    } else {
        find_index(ids.drop_last(), id)
    }
}

/// The identifiers left after deregistering `id`: the sequence unchanged
/// when `id` is not registered, and with `id`'s entry removed when it is.
pub open spec fn spec_deregister(ids: Seq<WindowId>, id: WindowId) -> Seq<WindowId> {
    match find_index(ids, id) {
        Some(i) => ids.remove(i),
        None => ids,
    }
}

/// Looking an identifier up succeeds exactly when the identifier is
/// registered, and the index found names an entry carrying that identifier.
pub proof fn lemma_find_index_characterizes(ids: Seq<WindowId>, id: WindowId)
    ensures
        (find_index(ids, id) is Some) <==> ids.contains(id),
        find_index(ids, id) matches Some(i) ==> 0 <= i < ids.len() && ids[i] == id,
    decreases ids.len(),
{
    if ids.len() > 0 {
        if ids.last() == id {
            assert(ids[ids.len() - 1] == id);
            assert(ids.contains(id));
        } else {
            lemma_find_index_characterizes(ids.drop_last(), id);
            if ids.contains(id) {
                let w = choose|w: int| 0 <= w < ids.len() && ids[w] == id;
                assert(ids.drop_last()[w] == id);
                assert(ids.drop_last().contains(id));
            }
            if ids.drop_last().contains(id) {
                let w = choose|w: int| 0 <= w < ids.drop_last().len() && ids.drop_last()[w] == id;
                assert(ids[w] == id);
                assert(ids.contains(id));
            }
        }
    }
}

/// With distinct identifiers, the index found for a registered identifier
/// is the position it stands at — whichever position that is.
pub proof fn lemma_find_index_unique(ids: Seq<WindowId>, id: WindowId, j: int)
    requires
        distinct_ids(ids),
        0 <= j < ids.len(),
        ids[j] == id,
    ensures
        find_index(ids, id) == Some(j),
    decreases ids.len(),
{
    if ids.last() == id {
        assert(j == ids.len() - 1);
    } else {
        assert(j < ids.len() - 1);
        assert(ids.drop_last()[j] == id);
        assert(distinct_ids(ids.drop_last())) by {
            assert(forall|a: int, b: int|
                0 <= a < b < ids.drop_last().len() ==> ids.drop_last()[a] == ids[a]
                    && ids.drop_last()[b] == ids[b]);
        }
        lemma_find_index_unique(ids.drop_last(), id, j);
    }
}

/// Removing an entry keeps the remaining identifiers distinct.
pub proof fn lemma_distinct_remove(ids: Seq<WindowId>, i: int)
    requires
        distinct_ids(ids),
        0 <= i < ids.len(),
    ensures
        distinct_ids(ids.remove(i)),
{
    assert forall|a: int, b: int|
        0 <= a < b < ids.remove(i).len() implies ids.remove(i)[a] != ids.remove(i)[b] by {
        assert(ids.remove(i)[a] == if a < i { ids[a] } else { ids[a + 1] });
        assert(ids.remove(i)[b] == if b < i { ids[b] } else { ids[b + 1] });
    }
}

/// With distinct identifiers, removing the entry found for an identifier
/// removes its only occurrence: the identifier is no longer registered.
pub proof fn lemma_remove_only_occurrence(ids: Seq<WindowId>, id: WindowId, i: int)
    requires
        distinct_ids(ids),
        0 <= i < ids.len(),
        ids[i] == id,
    ensures
        !ids.remove(i).contains(id),
{
    if ids.remove(i).contains(id) {
        let w = choose|w: int| 0 <= w < ids.remove(i).len() && ids.remove(i)[w] == id;
        assert(ids.remove(i)[w] == if w < i { ids[w] } else { ids[w + 1] });
    }
}

/// Deregistering an identifier twice in a row is a no-op the second time:
/// the first call removed the only entry, so the second finds nothing and
/// leaves the registry as it was.
pub proof fn lemma_deregister_idempotent(ids: Seq<WindowId>, id: WindowId)
    requires
        distinct_ids(ids),
    ensures
        spec_deregister(spec_deregister(ids, id), id) == spec_deregister(ids, id),
{
    lemma_find_index_characterizes(ids, id);
    match find_index(ids, id) {
        Some(i) => {
            lemma_remove_only_occurrence(ids, id, i);
            lemma_find_index_characterizes(ids.remove(i), id);
        },
        None => {},
    }
}

/// The cached index is only an optimization: where an identifier stands is a
/// function of the registered entries alone, so two registries holding the
/// same entries resolve every lookup identically, however stale either
/// one's cache is. `lookup` promises exactly `find_index` of its entry
/// identifiers, which neither mentions nor depends on the cache.
pub proof fn lemma_lookup_cache_oblivious(a: CallbackData, b: CallbackData, window: WindowId)
    requires
        a.ids() == b.ids(),
    ensures
        find_index(a.ids(), window) == find_index(b.ids(), window),
{
}

impl CallbackData {
    /// The live entries, in registration order.
    pub open spec fn entries(self) -> Seq<WindowEntry> {
        self.win_vec@
    }

    /// The registered identifiers, in registration order.
    pub open spec fn ids(self) -> Seq<WindowId> {
        self.win_vec@.map_values(|e: WindowEntry| e.window)
    }

    /// Whether an identifier is currently registered.
    pub open spec fn contains_id(self, id: WindowId) -> bool {
        self.ids().contains(id)
    }

    /// The registry's invariant: each window registered at most once, and
    /// few enough entries that an index fits a signed machine word.
    pub open spec fn wf(self) -> bool {
        &&& distinct_ids(self.ids())
        &&& self.win_vec@.len() <= 0x7fff_ffff
    }

    /// Create the registry for a fresh pump thread, holding the one entry
    /// for the thread's top-level window before any message is dispatched.
    pub fn new(root: WindowId, cursor: u64) -> (t: CallbackData)
        ensures
            t.wf(),
            t.root == root,
            t.entries().len() == 1,
            t.entries()[0].window == root,
            t.entries()[0].cursor == cursor,
            t.entries()[0].sender@ == Seq::<Event>::empty(),
            !t.entries()[0].sender.is_closed(),
            t.win_index == 0,
            t.last_mpos == MOUSE_POS_NONE,
    {
        let mut win_vec: Vec<WindowEntry> = Vec::new();
        win_vec.push(WindowEntry { window: root, sender: EventQueue::new(), cursor });
        CallbackData { root, win_vec, win_index: 0, last_mpos: MOUSE_POS_NONE }
    }

    /// Resolve an identifier to its entry's index: first against the cached
    /// index, then by a reverse scan (recent windows are the likely hits),
    /// caching the index found. `None` for a window this registry does not
    /// track — expected for platform messages to windows created elsewhere,
    /// and never a panic.
    pub fn lookup(&mut self, window: WindowId) -> (r: Option<usize>)
        requires
            old(self).wf(),
        ensures
            final(self).wf(),
            final(self).root == old(self).root,
            final(self).entries() == old(self).entries(),
            final(self).last_mpos == old(self).last_mpos,
            match r {
                Some(i) => find_index(old(self).ids(), window) == Some(i as int),
                None => find_index(old(self).ids(), window) is None
                    && final(self).win_index == old(self).win_index,
            },
    {
        if self.win_index < self.win_vec.len() {
            if self.win_vec[self.win_index].window == window {
                proof {
                    lemma_find_index_unique(self.ids(), window, self.win_index as int);
                }
                return Some(self.win_index);
            }
        }
        let ghost all_ids = self.ids();
        let mut index = self.win_vec.len();
        proof {
            assert(all_ids.take(index as int) =~= all_ids);
        }
        while index != 0
            invariant
                self.wf(),
                *self == *old(self),
                all_ids == self.ids(),
                index <= self.win_vec.len(),
                find_index(all_ids, window) == find_index(all_ids.take(index as int), window),
            decreases index,
        {
            index -= 1;
            proof {
                assert(all_ids.take(index as int + 1).last() == all_ids[index as int]);
                assert(all_ids.take(index as int + 1).drop_last() =~= all_ids.take(index as int));
            }
            if self.win_vec[index].window == window {
                self.win_index = index;
                return Some(index);
            }
        }
        proof {
            assert(all_ids.take(0) =~= Seq::<WindowId>::empty());
        }
        None
    }

    /// The resolved index as the callback's signed convention: the entry's
    /// index when the window is tracked, `-1` when it is not.
    pub fn get_window_index(&mut self, window: WindowId) -> (r: isize)
        requires
            old(self).wf(),
        ensures
            final(self).wf(),
            final(self).root == old(self).root,
            final(self).entries() == old(self).entries(),
            final(self).last_mpos == old(self).last_mpos,
            r == -1 ==> find_index(old(self).ids(), window) is None,
            r >= 0 ==> find_index(old(self).ids(), window) == Some(r as int),
            r == -1 || 0 <= r < old(self).entries().len(),
    {
        proof {
            lemma_find_index_characterizes(self.ids(), window);
        }
        match self.lookup(window) {
            Some(i) => i as isize,
            None => -1,
        }
    }

    /// Append a fresh entry for a newly created window, with an empty, open
    /// event queue. Registration never fails; the identifier must be fresh,
    /// which the platform guarantees while the window lives.
    pub fn register(&mut self, window: WindowId, cursor: u64) -> (idx: usize)
        requires
            old(self).wf(),
            !old(self).contains_id(window),
            old(self).entries().len() < 0x7fff_ffff,
        ensures
            final(self).wf(),
            final(self).root == old(self).root,
            idx == old(self).entries().len(),
            final(self).entries().len() == old(self).entries().len() + 1,
            forall|j: int| 0 <= j < old(self).entries().len()
                ==> final(self).entries()[j] == old(self).entries()[j],
            final(self).entries().last().window == window,
            final(self).entries().last().cursor == cursor,
            final(self).entries().last().sender@ == Seq::<Event>::empty(),
            !final(self).entries().last().sender.is_closed(),
            final(self).ids() =~= old(self).ids().push(window),
            final(self).win_index == old(self).win_index,
            final(self).last_mpos == old(self).last_mpos,
    {
        let idx = self.win_vec.len();
        self.win_vec.push(WindowEntry { window, sender: EventQueue::new(), cursor });
        proof {
            assert(self.ids() =~= old(self).ids().push(window));
            assert(forall|i: int|
                0 <= i < old(self).ids().len() ==> old(self).ids()[i] != window);
            assert(distinct_ids(self.ids()));
        }
        idx
    }

    /// Remove the entry for an identifier, closing its queue — the producer
    /// end is dropped, so the consumer drains what was already delivered and
    /// then sees disconnection. Deregistering an untracked identifier is a
    /// no-op, not an error: destruction can race with a message that already
    /// deregistered the window through another path.
    pub fn deregister(&mut self, window: WindowId) -> (removed: Option<EventQueue>)
        requires
            old(self).wf(),
        ensures
            final(self).wf(),
            final(self).root == old(self).root,
            final(self).last_mpos == old(self).last_mpos,
            final(self).ids() =~= spec_deregister(old(self).ids(), window),
            match find_index(old(self).ids(), window) {
                Some(i) => {
                    &&& removed matches Some(q)
                        && q.is_closed()
                        && q@ == old(self).entries()[i].sender@
                    &&& final(self).entries() =~= old(self).entries().remove(i)
                },
                None => {
                    &&& removed is None
                    &&& final(self).entries() == old(self).entries()
                    &&& final(self).win_index == old(self).win_index
                },
            },
    {
        proof {
            lemma_find_index_characterizes(self.ids(), window);
        }
        match self.lookup(window) {
            Some(i) => {
                let mut entry = self.win_vec.remove(i);
                entry.sender.close();
                proof {
                    let pre = old(self).ids();
                    lemma_distinct_remove(pre, i as int);
                    assert(self.ids() =~= pre.remove(i as int));
                    assert(self.ids() =~= spec_deregister(pre, window));
                }
                Some(entry.sender)
            },
            None => None,
        }
    }

    /// Enqueue an event on the queue of the window it belongs to. A message
    /// for an untracked window is dropped, and so is an event for a window
    /// whose queue is already closed — the application chose to stop
    /// listening, which is silent backpressure-free dropping, not an error.
    pub fn dispatch(&mut self, window: WindowId, event: Event)
        requires
            old(self).wf(),
        ensures
            final(self).wf(),
            final(self).root == old(self).root,
            final(self).last_mpos == old(self).last_mpos,
            final(self).ids() == old(self).ids(),
            dispatched(*old(self), *final(self), window, seq![event]),
    {
        proof {
            lemma_find_index_characterizes(self.ids(), window);
        }
        match self.lookup(window) {
            Some(i) => {
                let mut entry = self.win_vec.remove(i);
                entry.sender.push(event);
                self.win_vec.insert(i, entry);
                proof {
                    assert(self.entries() =~= old(self).entries().update(
                        i as int,
                        self.entries()[i as int],
                    ));
                    assert(self.ids() =~= old(self).ids());
                    if !old(self).entries()[i as int].sender.is_closed() {
                        assert(self.entries()[i as int].sender@
                            =~= old(self).entries()[i as int].sender@ + seq![event]);
                    }
                }
            },
            None => {},
        }
    }

    /// Take every event waiting for a window, in the order it was enqueued,
    /// leaving the window's queue empty and everything else untouched.
    /// `None` for a window this registry does not track.
    pub fn drain_events(&mut self, window: WindowId) -> (drained: Option<Vec<Event>>)
        requires
            old(self).wf(),
        ensures
            final(self).wf(),
            final(self).root == old(self).root,
            final(self).last_mpos == old(self).last_mpos,
            final(self).ids() == old(self).ids(),
            match find_index(old(self).ids(), window) {
                Some(i) => {
                    &&& (drained matches Some(v) && v@ == old(self).entries()[i].sender@)
                    &&& final(self).entries().len() == old(self).entries().len()
                    &&& (forall|j: int| 0 <= j < old(self).entries().len() && j != i
                        ==> final(self).entries()[j] == old(self).entries()[j])
                    &&& final(self).entries()[i].window == old(self).entries()[i].window
                    &&& final(self).entries()[i].cursor == old(self).entries()[i].cursor
                    &&& final(self).entries()[i].sender.is_closed() == old(
                        self,
                    ).entries()[i].sender.is_closed()
                    &&& final(self).entries()[i].sender@.len() == 0
                },
                None => drained is None && final(self).entries() == old(self).entries(),
            },
    {
        proof {
            lemma_find_index_characterizes(self.ids(), window);
        }
        match self.lookup(window) {
            Some(i) => {
                let mut entry = self.win_vec.remove(i);
                let drained = entry.sender.poll_all();
                self.win_vec.insert(i, entry);
                proof {
                    assert(self.ids() =~= old(self).ids());
                }
                Some(drained)
            },
            None => None,
        }
    }

    /// Replace the cursor handle stored for a window's entry. A request for
    /// an untracked window changes nothing.
    pub fn set_entry_cursor(&mut self, window: WindowId, cursor: u64)
        requires
            old(self).wf(),
        ensures
            final(self).wf(),
            final(self).root == old(self).root,
            final(self).last_mpos == old(self).last_mpos,
            final(self).ids() == old(self).ids(),
            match find_index(old(self).ids(), window) {
                Some(i) => {
                    &&& final(self).entries().len() == old(self).entries().len()
                    &&& (forall|j: int| 0 <= j < old(self).entries().len() && j != i
                        ==> final(self).entries()[j] == old(self).entries()[j])
                    &&& final(self).entries()[i].window == old(self).entries()[i].window
                    &&& final(self).entries()[i].sender == old(self).entries()[i].sender
                    &&& final(self).entries()[i].cursor == cursor
                },
                None => final(self).entries() == old(self).entries(),
            },
    {
        proof {
            lemma_find_index_characterizes(self.ids(), window);
        }
        match self.lookup(window) {
            Some(i) => {
                let mut entry = self.win_vec.remove(i);
                entry.cursor = cursor;
                self.win_vec.insert(i, entry);
                proof {
                    assert(self.ids() =~= old(self).ids());
                }
            },
            None => {},
        }
    }
}

/// How a registry looks after events are appended for one window: the entry
/// for `window` has `events` appended to its queue (or dropped, if its queue
/// is closed), every other entry is untouched, and a dispatch to an
/// untracked window changes nothing.
pub open spec fn dispatched(
    pre: CallbackData,
    post: CallbackData,
    window: WindowId,
    events: Seq<Event>,
) -> bool {
    match find_index(pre.ids(), window) {
        Some(i) => {
            &&& post.entries().len() == pre.entries().len()
            &&& (forall|j: int| 0 <= j < pre.entries().len() && j != i
                ==> post.entries()[j] == pre.entries()[j])
            &&& post.entries()[i].window == pre.entries()[i].window
            &&& post.entries()[i].cursor == pre.entries()[i].cursor
            &&& post.entries()[i].sender.is_closed() == pre.entries()[i].sender.is_closed()
            &&& post.entries()[i].sender@ == if pre.entries()[i].sender.is_closed() {
                pre.entries()[i].sender@
            } else {
                pre.entries()[i].sender@ + events
            }
        },
        None => post.entries() == pre.entries(),
    }
}

/// The events waiting for one window: the contents of its entry's queue,
/// or nothing when the window is not registered.
pub open spec fn queue_of(t: CallbackData, id: WindowId) -> Option<Seq<Event>> {
    match find_index(t.ids(), id) {
        Some(i) => Some(t.entries()[i].sender@),
        None => None,
    }
}

/// Dispatching no events leaves the registry as it was.
pub proof fn lemma_dispatched_refl(a: CallbackData, window: WindowId)
    ensures
        dispatched(a, a, window, Seq::<Event>::empty()),
{
    match find_index(a.ids(), window) {
        Some(i) => {
            assert(a.entries()[i].sender@ =~= a.entries()[i].sender@ + Seq::<Event>::empty());
        },
        None => {},
    }
}

/// Two dispatch steps to the same window compose: the window's queue sees
/// the two event batches back to back, in order.
pub proof fn lemma_dispatched_trans(
    a: CallbackData,
    b: CallbackData,
    c: CallbackData,
    window: WindowId,
    e1: Seq<Event>,
    e2: Seq<Event>,
)
    requires
        b.ids() == a.ids(),
        dispatched(a, b, window, e1),
        dispatched(b, c, window, e2),
    ensures
        dispatched(a, c, window, e1 + e2),
{
    match find_index(a.ids(), window) {
        Some(i) => {
            lemma_find_index_characterizes(a.ids(), window);
            if a.entries()[i].sender.is_closed() {
                assert(c.entries()[i].sender@ == a.entries()[i].sender@);
            } else {
                assert(c.entries()[i].sender@ =~= a.entries()[i].sender@ + (e1 + e2));
            }
        },
        None => {},
    }
}

} // verus!
