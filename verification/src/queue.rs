//! The play queue: an ordered list of tracks, a selection cursor, and a
//! cached total running time.
//!
//! The cache is the queue's central invariant: `total_ms` always equals the
//! sum of the lengths of the items, and every mutation re-establishes it.
//! The cursor is `None` exactly when that is allowed: always on an empty
//! queue, and optionally ("no selection") on a non-empty one.

use vstd::prelude::*;

verus! {

/// One playable track: where it lives on disk, the string shown for it,
/// and how long it runs (milliseconds, as reported when it was decoded).
/// Immutable once constructed.
pub struct Track {
    pub path: String,
    pub title: String,
    pub length_ms: u64,
}

impl Track {
    /// Field-wise sameness: the relation `clone` and the lookup accessors
    /// preserve.  Two tracks are the same when they point at the same file,
    /// display the same title and run for the same time.
    pub open spec fn same_as(self, other: Track) -> bool {
        &&& self.path@ == other.path@
        &&& self.title@ == other.title@
        &&& self.length_ms == other.length_ms
    }

    pub fn new(path: String, title: String, length_ms: u64) -> (t: Track)
        ensures
            t.path@ == path@,
            t.title@ == title@,
            t.length_ms == length_ms,
    {
        Track { path, title, length_ms }
    }
}

impl Clone for Track {
    fn clone(&self) -> (r: Track)
        ensures
            r.same_as(*self),
    {
        Track { path: self.path.clone(), title: self.title.clone(), length_ms: self.length_ms }
    }
}

/// The sum of the lengths of a sequence of tracks, in milliseconds.
pub open spec fn total_of(items: Seq<Track>) -> int
    decreases items.len(),
{
    if items.len() == 0 {
        0
    } else {
        total_of(items.drop_last()) + items.last().length_ms
    }
}

pub proof fn lemma_total_nonneg(items: Seq<Track>)
    ensures
        total_of(items) >= 0,
    decreases items.len(),
{
    if items.len() > 0 {
        lemma_total_nonneg(items.drop_last());
    }
}

pub proof fn lemma_total_push(items: Seq<Track>, t: Track)
    ensures
        total_of(items.push(t)) == total_of(items) + t.length_ms,
{
    assert(items.push(t).drop_last() =~= items);
}

pub proof fn lemma_total_remove(items: Seq<Track>, i: int)
    requires
        0 <= i < items.len(),
    ensures
        total_of(items.remove(i)) == total_of(items) - items[i].length_ms,
    decreases items.len(),
{
    if i == items.len() - 1 {
        assert(items.remove(i) =~= items.drop_last());
    } else {
        assert(items.remove(i).drop_last() =~= items.drop_last().remove(i));
        assert(items.remove(i).last() == items.last());
        lemma_total_remove(items.drop_last(), i);
    }
}

/// The index of the first track at or after position `i` whose path is
/// `path`, or `-1` when there is none.
pub open spec fn find_from(items: Seq<Track>, path: Seq<char>, i: int) -> int
    decreases items.len() - i,
{
    if i < 0 || i >= items.len() {
        -1
    } else if items[i].path@ == path {
        i
    } else {
        find_from(items, path, i + 1)
    }
}

/// Ordered collection of tracks with a selection cursor and a cached
/// aggregate duration.
pub struct Queue {
    pub items: Vec<Track>,
    pub selected: Option<usize>,
    pub total_ms: u64,
}

impl Queue {
    /// The queue's invariant: the cached total equals the sum of the item
    /// lengths, and the cursor, when set, points at an item.
    pub open spec fn wf(self) -> bool {
        &&& self.total_ms == total_of(self.items@)
        &&& (self.selected matches Some(i) ==> i < self.items@.len())
        &&& (self.items@.len() == 0 ==> self.selected is None)
    }

    pub fn new() -> (q: Queue)
        ensures
            q.wf(),
            q.items@.len() == 0,
            q.selected is None,
            q.total_ms == 0,
    {
        Queue { items: Vec::new(), selected: None, total_ms: 0 }
    }

    /// Appends a track and recomputes the cached total.  The one input
    /// rejected is the one the machine forces us to reject: a queue whose
    /// total no longer fits in 64 bits of milliseconds.
    pub fn add(&mut self, track: Track) -> (added: bool)
        requires
            old(self).wf(),
        ensures
            final(self).wf(),
            added == (total_of(old(self).items@) + track.length_ms <= u64::MAX),
            added ==> final(self).items@ == old(self).items@.push(track),
            added ==> final(self).total_ms == old(self).total_ms + track.length_ms,
            added ==> final(self).selected == old(self).selected,
            !added ==> *final(self) == *old(self),
    {
        if self.total_ms <= u64::MAX - track.length_ms {
            proof {
                lemma_total_push(self.items@, track);
            }
            self.total_ms = self.total_ms + track.length_ms;
            self.items.push(track);
            true
        } else {
            false
        }
    }

    /// Removes the item under the cursor (no-op when nothing is selected),
    /// recomputes the total, and clamps the cursor back into range when it
    /// now points past the end.
    pub fn remove_selected(&mut self)
        requires
            old(self).wf(),
        ensures
            final(self).wf(),
            (match old(self).selected {
                None => *final(self) == *old(self),
                Some(i) => {
                    &&& final(self).items@ == old(self).items@.remove(i as int)
                    &&& final(self).total_ms == old(self).total_ms - old(self).items@[
                        i as int
                    ].length_ms
                    &&& final(self).selected == (if final(self).items@.len() == 0 {
                        None::<usize>
                    } else if i as int >= final(self).items@.len() {
                        Some((final(self).items@.len() - 1) as usize)
                    } else {
                        Some(i)
                    })
                },
            }),
    {
        match self.selected {
            None => {},
            Some(i) => {
                proof {
                    lemma_total_remove(self.items@, i as int);
                    lemma_total_nonneg(self.items@.remove(i as int));
                }
                let removed = self.items.remove(i);
                self.total_ms = self.total_ms - removed.length_ms;
                if self.items.len() == 0 {
                    self.selected = None;
                } else if i >= self.items.len() {
                    self.selected = Some(self.items.len() - 1);
                }
            },
        }
    }

    /// Moves the cursor one item down, saturating at the last item; selects
    /// the first item when nothing was selected.  Does nothing on an empty
    /// queue.
    pub fn select_next(&mut self)
        requires
            old(self).wf(),
        ensures
            final(self).wf(),
            final(self).items@ == old(self).items@,
            final(self).total_ms == old(self).total_ms,
            old(self).items@.len() == 0 ==> final(self).selected is None,
            old(self).items@.len() > 0 ==> final(self).selected == (match old(self).selected {
                None => Some(0usize),
                Some(i) => if i + 1 < old(self).items@.len() {
                    Some((i + 1) as usize)
                } else {
                    Some(i)
                },
            }),
    {
        if self.items.len() > 0 {
            match self.selected {
                None => {
                    self.selected = Some(0);
                },
                Some(i) => {
                    if i + 1 < self.items.len() {
                        self.selected = Some(i + 1);
                    }
                },
            }
        }
    }

    /// Moves the cursor one item up, saturating at the first item; selects
    /// the first item when nothing was selected.  Does nothing on an empty
    /// queue.
    pub fn select_previous(&mut self)
        requires
            old(self).wf(),
        ensures
            final(self).wf(),
            final(self).items@ == old(self).items@,
            final(self).total_ms == old(self).total_ms,
            old(self).items@.len() == 0 ==> final(self).selected is None,
            old(self).items@.len() > 0 ==> final(self).selected == (match old(self).selected {
                None => Some(0usize),
                Some(i) => if i > 0 {
                    Some((i - 1) as usize)
                } else {
                    Some(0usize)
                },
            }),
    {
        if self.items.len() > 0 {
            match self.selected {
                None => {
                    self.selected = Some(0);
                },
                Some(i) => {
                    if i > 0 {
                        self.selected = Some(i - 1);
                    }
                },
            }
        }
    }

    /// Clears the cursor without removing anything.
    pub fn select_none(&mut self)
        requires
            old(self).wf(),
        ensures
            final(self).wf(),
            final(self).items@ == old(self).items@,
            final(self).total_ms == old(self).total_ms,
            final(self).selected is None,
    {
        self.selected = None;
    }

    /// The track under the cursor, or nothing.
    pub fn selected_song(&self) -> (r: Option<Track>)
        requires
            self.wf(),
        ensures
            (match self.selected {
                None => r is None,
                Some(i) => r matches Some(t) && t.same_as(self.items@[i as int]),
            }),
    {
        match self.selected {
            None => None,
            Some(i) => Some(self.items[i].clone()),
        }
    }

    /// What the driving loop plays after the track at `path` ends: the item
    /// following the first queued item with that path; nothing when that
    /// item is the last.  A track that is not in the queue (one played
    /// directly from the browser) hands playback to the front of the queue.
    pub fn next_after(&self, path: &String) -> (r: Option<Track>)
        requires
            self.wf(),
        ensures
            ({
                let idx = find_from(self.items@, path@, 0);
                if self.items@.len() == 0 {
                    r is None
                } else if idx == -1 {
                    r matches Some(t) && t.same_as(self.items@[0])
                } else if idx + 1 < self.items@.len() {
                    r matches Some(t) && t.same_as(self.items@[idx + 1])
                } else {
                    r is None
                }
            }),
    {
        if self.items.len() == 0 {
            return None;
        }
        let mut k: usize = 0;
        while k < self.items.len()
            invariant
                self.wf(),
                k <= self.items@.len(),
                find_from(self.items@, path@, 0) == find_from(self.items@, path@, k as int),
            decreases self.items@.len() - k,
        {
            if self.items[k].path == *path {
                if k + 1 < self.items.len() {
                    return Some(self.items[k + 1].clone());
                } else {
                    return None;
                }
            }
            k = k + 1;
        }
        Some(self.items[0].clone())
    }

    /// The items' paths, in queue order, for persistence.
    pub fn paths(&self) -> (r: Vec<String>)
        ensures
            r@.len() == self.items@.len(),
            forall|i: int| 0 <= i < r@.len() ==> r@[i]@ == self.items@[i].path@,
    {
        let mut r: Vec<String> = Vec::new();
        let mut k: usize = 0;
        while k < self.items.len()
            invariant
                k <= self.items@.len(),
                r@.len() == k,
                forall|i: int| 0 <= i < k ==> r@[i]@ == self.items@[i].path@,
            decreases self.items@.len() - k,
        {
            r.push(self.items[k].path.clone());
            k = k + 1;
        }
        r
    }

    /// How many tracks are queued.
    pub fn length(&self) -> (n: usize)
        ensures
            n == self.items@.len(),
    {
        self.items.len()
    }

    /// The cached total running time of the queue, in milliseconds.
    pub fn total_time(&self) -> (t: u64)
        requires
            self.wf(),
        ensures
            t == total_of(self.items@),
    {
        self.total_ms
    }
}

/// Law: the cached total always matches the items.  Every queue operation
/// preserves `wf`, under which the cache equals the sum of the current
/// items' lengths, so the equality holds after any sequence of `add` and
/// `remove_selected` calls.
pub proof fn lemma_total_time_invariant(q: Queue)
    requires
        q.wf(),
    ensures
        q.total_ms == total_of(q.items@),
{
}

/// Law: the cursor never leaves the queue.  Every queue operation preserves
/// `wf`, under which a set cursor indexes an item and an empty queue carries
/// no cursor, so no sequence of selection moves can push it out of bounds.
pub proof fn lemma_selection_bounds(q: Queue)
    requires
        q.wf(),
    ensures
        q.selected matches Some(i) ==> i < q.items@.len(),
        q.items@.len() == 0 ==> q.selected is None,
{
}

} // verus!
