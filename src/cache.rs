//! The window-position cache: the snapshots of one poll cycle.
use vstd::prelude::*;
use crate::geometry::{WindowId, WindowSnapshot, MoveRequest};
use crate::restore::{ids_unique, kept, restore_moves, lemma_kept_unique};

verus! {

/// Marks, for each entry of `c`, whether it belongs to a window other than `id`.
pub open spec fn other_than(c: Seq<WindowSnapshot>, id: WindowId) -> Seq<bool> {
    Seq::new(c.len(), |i: int| c[i].id != id)
}

/// An ordered collection of window snapshots, at most one per window.
///
/// It is replaced as a whole by each poll cycle, so a reader always sees the
/// entries of one cycle only.
pub struct WindowCache {
    entries: Vec<WindowSnapshot>,
}

impl View for WindowCache {
    type V = Seq<WindowSnapshot>;

    closed spec fn view(&self) -> Seq<WindowSnapshot> {
        self.entries@
    }
}

impl WindowCache {
    /// The cache holds at most one snapshot per window.
    pub open spec fn wf(&self) -> bool {
        ids_unique(self@)
    }

    /// An empty cache.
    pub fn new() -> (r: WindowCache)
        ensures
            r@ == Seq::<WindowSnapshot>::empty(),
            r.wf(),
    {
        WindowCache { entries: Vec::new() }
    }

    /// Number of cached snapshots.
    pub fn len(&self) -> (r: usize)
        ensures
            r == self@.len(),
    {
        self.entries.len()
    }

    /// Swaps in `snapshots` as the whole content of the cache.
    pub fn replace(&mut self, snapshots: Vec<WindowSnapshot>)
        requires
            ids_unique(snapshots@),
        ensures
            final(self)@ == snapshots@,
            final(self).wf(),
    {
        self.entries = snapshots;
    }

    /// A copy of every cached snapshot, in order.
    pub fn read_snapshot(&self) -> (r: Vec<WindowSnapshot>)
        ensures
            r@ == self@,
    {
        let mut r: Vec<WindowSnapshot> = Vec::with_capacity(self.entries.len());
        let mut i: usize = 0;
        while i < self.entries.len()
            invariant
                i <= self.entries@.len(),
                r@ == self.entries@.subrange(0, i as int),
            decreases self.entries@.len() - i,
        {
            r.push(self.entries[i]);
            i += 1;
            assert(r@ =~= self.entries@.subrange(0, i as int));
        }
        assert(r@ =~= self.entries@);
        r
    }

    /// The window ids of the cached snapshots, in order.
    pub fn ids(&self) -> (r: Vec<WindowId>)
        ensures
            r@ == self@.map_values(|s: WindowSnapshot| s.id),
    {
        let mut r: Vec<WindowId> = Vec::with_capacity(self.entries.len());
        let mut i: usize = 0;
        while i < self.entries.len()
            invariant
                i <= self.entries@.len(),
                r@ == self.entries@.subrange(0, i as int).map_values(|s: WindowSnapshot| s.id),
            decreases self.entries@.len() - i,
        {
            r.push(self.entries[i].id);
            i += 1;
            assert(r@ =~= self.entries@.subrange(0, i as int).map_values(
                |s: WindowSnapshot| s.id,
            ));
        }
        assert(self.entries@.subrange(0, i as int) =~= self.entries@);
        r
    }

    /// Whether a snapshot of window `id` is cached.
    pub fn contains(&self, id: WindowId) -> (r: bool)
        ensures
            r == exists|i: int| 0 <= i < self@.len() && #[trigger] self@[i].id == id,
    {
        let mut i: usize = 0;
        while i < self.entries.len()
            invariant
                i <= self.entries@.len(),
                forall|j: int| 0 <= j < i ==> #[trigger] self.entries@[j].id != id,
            decreases self.entries@.len() - i,
        {
            if self.entries[i].id == id {
                assert(self@[i as int].id == id);
                return true;
            }
            i += 1;
        }
        false
    }

    /// Removes the snapshot of window `id`, if one is cached.
    pub fn prune(&mut self, id: WindowId)
        requires
            old(self).wf(),
        ensures
            final(self)@ == kept(old(self)@, other_than(old(self)@, id)),
            final(self).wf(),
    {
        let ghost c = self@;
        let ghost e = other_than(c, id);
        let n = self.entries.len();
        let mut i: usize = n;
        while i > 0
            invariant
                n == c.len(),
                e == other_than(c, id),
                i <= n,
                self.entries@ == c.subrange(0, i as int) + kept(
                    c.subrange(i as int, n as int),
                    e.subrange(i as int, n as int),
                ),
            decreases i,
        {
            let ghost s = c.subrange(i - 1, n as int);
            let ghost es = e.subrange(i - 1, n as int);
            assert(s.drop_first() =~= c.subrange(i as int, n as int));
            assert(es.drop_first() =~= e.subrange(i as int, n as int));
            let ghost rest = kept(c.subrange(i as int, n as int), e.subrange(i as int, n as int));
            if self.entries[i - 1].id == id {
                self.entries.remove(i - 1);
                assert(self.entries@ =~= c.subrange(0, i - 1) + rest);
            } else {
                assert(c.subrange(0, i as int) + rest =~= c.subrange(0, i - 1) + (seq![c[i - 1]]
                    + rest));
            }
            i -= 1;
        }
        assert(c.subrange(0, n as int) =~= c);
        assert(e.subrange(0, n as int) =~= e);
        assert(self.entries@ =~= kept(c, e));
        proof {
            lemma_kept_unique(c, e);
        }
    }

    /// The restore pass: drops the snapshots of windows that no longer exist
    /// (`exists[i]` is false for entry `i`) and returns the moves that put
    /// every other window back, from the most recently added entry to the
    /// least.
    pub fn restore(&mut self, exists: &Vec<bool>) -> (moves: Vec<MoveRequest>)
        requires
            old(self).wf(),
            exists@.len() == old(self)@.len(),
        ensures
            final(self)@ == kept(old(self)@, exists@),
            moves@ == restore_moves(old(self)@, exists@),
            final(self).wf(),
    {
        let ghost c = self@;
        let ghost e = exists@;
        let n = self.entries.len();
        let mut moves: Vec<MoveRequest> = Vec::new();
        let mut i: usize = n;
        while i > 0
            invariant
                n == c.len(),
                n == e.len(),
                e == exists@,
                i <= n,
                self.entries@ == c.subrange(0, i as int) + kept(
                    c.subrange(i as int, n as int),
                    e.subrange(i as int, n as int),
                ),
                moves@ == restore_moves(c.subrange(i as int, n as int), e.subrange(i as int, n as int)),
            decreases i,
        {
            let ghost s = c.subrange(i - 1, n as int);
            let ghost es = e.subrange(i - 1, n as int);
            assert(s.drop_first() =~= c.subrange(i as int, n as int));
            assert(es.drop_first() =~= e.subrange(i as int, n as int));
            let ghost rest = kept(c.subrange(i as int, n as int), e.subrange(i as int, n as int));
            if exists[i - 1] {
                moves.push(self.entries[i - 1].move_request());
                assert(c.subrange(0, i as int) + rest =~= c.subrange(0, i - 1) + (seq![c[i - 1]]
                    + rest));
            } else {
                self.entries.remove(i - 1);
                assert(self.entries@ =~= c.subrange(0, i - 1) + rest);
            }
            i -= 1;
        }
        assert(c.subrange(0, n as int) =~= c);
        assert(e.subrange(0, n as int) =~= e);
        assert(self.entries@ =~= kept(c, e));
        proof {
            lemma_kept_unique(c, e);
        }
        moves
    }
}

} // verus!
