//! The sleep/wake state machine.
//!
//! It counts the displays that have gone away since the system was last fully
//! awake: a removal adds one, an arrival takes one off. The system is asleep
//! while that count is above zero, and the arrival that brings it back to zero
//! is the one that wakes it and triggers a restore pass. An arrival while fully
//! awake changes nothing.
use vstd::prelude::*;

verus! {

/// A display notification that carried a device.
#[derive(Clone, Copy, Debug, PartialEq, Eq, Structural)]
pub enum DeviceEvent {
    Arrived,
    Removed,
}

/// The number of missing displays after `ev`, when `m` were missing before.
pub open spec fn next_missing(m: nat, ev: DeviceEvent) -> nat {
    match ev {
        DeviceEvent::Arrived => if m > 0 {
            (m - 1) as nat
        } else {
            0
        },
        DeviceEvent::Removed => if m < u64::MAX {
            m + 1
        } else {
            m
        },
    }
}

/// The number of missing displays after the events `evs`, starting awake.
pub open spec fn missing_after(evs: Seq<DeviceEvent>) -> nat
    decreases evs.len(),
{
    if evs.len() == 0 {
        0
    } else {
        next_missing(missing_after(evs.drop_last()), evs.last())
    }
}

/// The position in `evs` just after the last point at which the system was
/// fully awake (no display missing); 0 stands for the start.
pub open spec fn last_full_wake(evs: Seq<DeviceEvent>) -> int
    decreases evs.len(),
{
    if evs.len() == 0 || missing_after(evs) == 0 {
        evs.len() as int
    } else {
        last_full_wake(evs.drop_last())
    }
}

/// How many events of `evs` are `ev`.
pub open spec fn count_of(evs: Seq<DeviceEvent>, ev: DeviceEvent) -> nat
    decreases evs.len(),
{
    if evs.len() == 0 {
        0
    } else {
        count_of(evs.drop_last(), ev) + if evs.last() == ev {
            1nat
        } else {
            0nat
        }
    }
}

proof fn lemma_missing_bounded(evs: Seq<DeviceEvent>)
    ensures
        missing_after(evs) <= evs.len(),
    decreases evs.len(),
{
    if evs.len() > 0 {
        lemma_missing_bounded(evs.drop_last());
    }
}

proof fn lemma_last_full_wake_bounded(evs: Seq<DeviceEvent>)
    ensures
        0 <= last_full_wake(evs) <= evs.len(),
    decreases evs.len(),
{
    if evs.len() > 0 {
        lemma_last_full_wake_bounded(evs.drop_last());
    }
}

/// Over any run of events, as long as the counter cannot saturate, the
/// number of missing displays is the number of removals since the last full
/// wake minus the number of arrivals since then; so the system is asleep
/// exactly when the removals since the last full wake outnumber the arrivals.
pub proof fn lemma_asleep_iff_more_removals(evs: Seq<DeviceEvent>)
    requires
        evs.len() < u64::MAX,
    ensures
        ({
            let since = evs.subrange(last_full_wake(evs), evs.len() as int);
            &&& missing_after(evs) == count_of(since, DeviceEvent::Removed) - count_of(
                since,
                DeviceEvent::Arrived,
            )
            &&& (missing_after(evs) > 0) == (count_of(since, DeviceEvent::Removed) > count_of(
                since,
                DeviceEvent::Arrived,
            ))
        }),
    decreases evs.len(),
{
    let since = evs.subrange(last_full_wake(evs), evs.len() as int);
    if evs.len() == 0 || missing_after(evs) == 0 {
        assert(since.len() == 0);
    } else {
        let prev = evs.drop_last();
        lemma_asleep_iff_more_removals(prev);
        lemma_missing_bounded(prev);
        lemma_last_full_wake_bounded(prev);
        let w = last_full_wake(prev);
        assert(last_full_wake(evs) == w);
        assert(since.drop_last() =~= prev.subrange(w, prev.len() as int));
        assert(since.last() == evs.last());
    }
}

/// The sleep/wake state: how many displays are missing since the last full
/// wake.
pub struct SleepState {
    missing: u64,
}

impl SleepState {
    /// The number of displays missing since the last full wake.
    pub closed spec fn missing(&self) -> nat {
        self.missing as nat
    }

    /// Fully awake: no display missing.
    pub fn new() -> (r: SleepState)
        ensures
            r.missing() == 0,
    {
        SleepState { missing: 0 }
    }

    /// The sleep flag: some display is missing.
    pub fn is_asleep(&self) -> (r: bool)
        ensures
            r == (self.missing() > 0),
    {
        self.missing > 0
    }

    /// Applies one event; returns whether it is the arrival that completes a
    /// wake, after which a restore pass is due.
    pub fn apply(&mut self, ev: DeviceEvent) -> (woke: bool)
        ensures
            final(self).missing() == next_missing(old(self).missing(), ev),
            woke == (ev == DeviceEvent::Arrived && old(self).missing() == 1),
    {
        match ev {
            DeviceEvent::Arrived => {
                if self.missing > 0 {
                    self.missing = self.missing - 1;
                    self.missing == 0
                } else {
                    false
                }
            },
            DeviceEvent::Removed => {
                self.missing = self.missing.saturating_add(1);
                false
            },
        }
    }
}

} // verus!
