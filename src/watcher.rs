//! The watcher: sleep/wake state and window cache under one owner.
//!
//! The host program keeps the watcher behind a lock shared by its poll loop
//! and its notification callbacks, and performs the window-manager calls that
//! the methods ask for.
use vstd::prelude::*;
use crate::cache::{WindowCache, other_than};
use crate::geometry::{MoveRequest, WindowId, WindowSnapshot};
use crate::poll::{captured, capture, EnumeratedWindow};
use crate::restore::{kept, restore_moves};
use crate::sleep::{next_missing, DeviceEvent, SleepState};

verus! {

/// The sleep/wake state machine together with the window-position cache.
pub struct WindowWatcher {
    sleep: SleepState,
    cache: WindowCache,
}

impl WindowWatcher {
    /// The number of displays missing since the last full wake.
    pub closed spec fn missing(&self) -> nat {
        self.sleep.missing()
    }

    /// The cached snapshots.
    pub closed spec fn cached(&self) -> Seq<WindowSnapshot> {
        self.cache@
    }

    /// The sleep flag.
    pub open spec fn asleep(&self) -> bool {
        self.missing() > 0
    }

    pub closed spec fn wf(&self) -> bool {
        self.cache.wf()
    }

    /// A watcher that is awake, with an empty cache.
    pub fn create() -> (r: WindowWatcher)
        ensures
            r.wf(),
            r.missing() == 0,
            r.cached() == Seq::<WindowSnapshot>::empty(),
    {
        WindowWatcher { sleep: SleepState::new(), cache: WindowCache::new() }
    }

    /// The sleep flag: while it is set the poll loop idles and no restore
    /// pass runs.
    pub fn is_asleep(&self) -> (r: bool)
        ensures
            r == self.asleep(),
    {
        self.sleep.is_asleep()
    }

    /// A display arrival notification; `has_device` is false for one that
    /// carried no device, which is ignored. Returns whether the system has
    /// now fully woken: the caller then waits for the windowing system to
    /// settle and runs the restore pass.
    pub fn on_arrival(&mut self, has_device: bool) -> (woke: bool)
        requires
            old(self).wf(),
        ensures
            final(self).wf(),
            final(self).cached() == old(self).cached(),
            has_device ==> final(self).missing() == next_missing(
                old(self).missing(),
                DeviceEvent::Arrived,
            ),
            !has_device ==> final(self).missing() == old(self).missing(),
            woke == (has_device && old(self).missing() == 1),
    {
        if has_device {
            self.sleep.apply(DeviceEvent::Arrived)
        } else {
            false
        }
    }

    /// A display removal notification; `has_device` is false for one that
    /// carried no device, which is ignored.
    pub fn on_removal(&mut self, has_device: bool)
        requires
            old(self).wf(),
        ensures
            final(self).wf(),
            final(self).cached() == old(self).cached(),
            has_device ==> final(self).missing() == next_missing(
                old(self).missing(),
                DeviceEvent::Removed,
            ),
            !has_device ==> final(self).missing() == old(self).missing(),
    {
        if has_device {
            self.sleep.apply(DeviceEvent::Removed);
        }
    }

    /// One poll cycle over the windows the window manager enumerated: while
    /// awake the cache is replaced by their snapshots; while asleep nothing
    /// changes. Returns whether the cache was refreshed.
    pub fn refresh(&mut self, windows: &Vec<EnumeratedWindow>) -> (refreshed: bool)
        requires
            old(self).wf(),
        ensures
            final(self).wf(),
            refreshed == !old(self).asleep(),
            final(self).missing() == old(self).missing(),
            final(self).cached() == if refreshed {
                captured(windows@)
            } else {
                old(self).cached()
            },
    {
        if self.sleep.is_asleep() {
            false
        } else {
            let snapshots = capture(windows);
            self.cache.replace(snapshots);
            true
        }
    }

    /// The restore pass, given for each cached entry whether its window still
    /// exists. While awake it prunes the entries of vanished windows and
    /// returns the moves for the others, most recently added first; while
    /// asleep it does nothing.
    pub fn restore(&mut self, exists: &Vec<bool>) -> (moves: Vec<MoveRequest>)
        requires
            old(self).wf(),
            exists@.len() == old(self).cached().len(),
        ensures
            final(self).wf(),
            final(self).missing() == old(self).missing(),
            old(self).asleep() ==> final(self).cached() == old(self).cached() && moves@
                == Seq::<MoveRequest>::empty(),
            !old(self).asleep() ==> final(self).cached() == kept(old(self).cached(), exists@)
                && moves@ == restore_moves(old(self).cached(), exists@),
    {
        if self.sleep.is_asleep() {
            Vec::new()
        } else {
            self.cache.restore(exists)
        }
    }

    /// A copy of the cache.
    pub fn read_snapshot(&self) -> (r: Vec<WindowSnapshot>)
        ensures
            r@ == self.cached(),
    {
        self.cache.read_snapshot()
    }

    /// The ids of the cached windows, in cache order: the windows whose
    /// existence a restore pass needs to know.
    pub fn cached_ids(&self) -> (r: Vec<WindowId>)
        ensures
            r@ == self.cached().map_values(|s: WindowSnapshot| s.id),
    {
        self.cache.ids()
    }

    /// Removes the cached snapshot of window `id`.
    pub fn prune(&mut self, id: WindowId)
        requires
            old(self).wf(),
        ensures
            final(self).wf(),
            final(self).missing() == old(self).missing(),
            final(self).cached() == kept(old(self).cached(), other_than(old(self).cached(), id)),
    {
        self.cache.prune(id);
    }
}

} // verus!
