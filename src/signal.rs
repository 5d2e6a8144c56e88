//! The wake/park protocol between a waiting thread and whoever signals it.
//!
//! Both sides share one "woken" flag. Waking swaps the flag up and asks for the owning thread
//! to be resumed only if it was down, so that wakes arriving before the next park are merged
//! into one resume. Parking swaps the flag down and returns at once if it was up; otherwise
//! the thread is suspended and the check is made again when it resumes.
//!
//! [`WakeState`] is the protocol on a plain flag, with each transition stated exactly;
//! [`WakeFlag`] makes the same transitions on a flag shared between threads.
use std::sync::atomic::{AtomicBool, Ordering};
use vstd::prelude::*;

verus! {

/// What a wake does to the flag: the new flag, and whether the owning thread is resumed.
pub open spec fn after_wake(s: WakeState) -> (WakeState, bool) {
    (WakeState { woken: true }, !s.woken)
}

/// What a park check does to the flag: the new flag, and whether `park` returns without
/// suspending.
pub open spec fn after_park(s: WakeState) -> (WakeState, bool) {
    (WakeState { woken: false }, s.woken)
}

/// The flag after `k` wakes from `s`, and how many of them resume the owning thread.
pub open spec fn wake_times(s: WakeState, k: nat) -> (WakeState, nat)
    decreases k,
{
    if k == 0 {
        (s, 0)
    } else {
        let (mid, resumes) = wake_times(s, (k - 1) as nat);
        (after_wake(mid).0, resumes + if after_wake(mid).1 { 1nat } else { 0nat })
    }
}

/// Whether a wake that found the flag at `previous` must resume the owning thread.
pub fn wake_resumes(previous: bool) -> (r: bool)
    ensures
        r == after_wake(WakeState { woken: previous }).1,
{
    !previous
}

/// Whether a park check that found the flag at `previous` lets `park` return.
pub fn park_returns(previous: bool) -> (r: bool)
    ensures
        r == after_park(WakeState { woken: previous }).1,
{
    previous
}

/// The "woken" flag of one wait/wake pair, held by a single thread.
#[derive(Clone, Copy, Debug, PartialEq, Eq, Structural)]
pub struct WakeState {
    pub woken: bool,
}

impl WakeState {
    /// A pair on which nothing has been signalled yet.
    pub fn new() -> (r: Self)
        ensures
            !r.woken,
    {
        WakeState { woken: false }
    }

    /// Signals the pair; returns whether the owning thread has to be resumed.
    pub fn wake(&mut self) -> (resume: bool)
        ensures
            (*final(self), resume) == after_wake(*old(self)),
    {
        let previous = self.woken;
        self.woken = true;
        wake_resumes(previous)
    }

    /// Consumes a pending wake; returns whether `park` may return without suspending.
    pub fn try_park(&mut self) -> (immediate: bool)
        ensures
            (*final(self), immediate) == after_park(*old(self)),
    {
        let previous = self.woken;
        self.woken = false;
        park_returns(previous)
    }
}

/// A park always leaves the flag down, whatever it found.
pub proof fn lemma_park_clears(s: WakeState)
    ensures
        !after_park(s).0.woken,
{
}

/// No wake is lost: a wake made before the next park lets that park return at once.
pub proof fn lemma_wake_not_lost(s: WakeState)
    ensures
        after_park(after_wake(s).0).1,
{
}

/// Wakes are merged: after a park, `k >= 1` wakes resume the owning thread exactly once and
/// leave one wake pending; the next park consumes it and returns at once, and a further park
/// with no wake in between suspends.
pub proof fn lemma_wakes_coalesce(before: WakeState, k: nat)
    requires
        k >= 1,
    ensures
        ({
            let parked = after_park(before).0;
            let (woken, resumes) = wake_times(parked, k);
            &&& resumes == 1
            &&& woken.woken
            &&& after_park(woken).1
            &&& !after_park(after_park(woken).0).1
        }),
    decreases k,
{
    let parked = after_park(before).0;
    if k > 1 {
        lemma_wakes_coalesce(before, (k - 1) as nat);
    } else {
        assert(wake_times(parked, 0) == (parked, 0nat));
    }
    assert(wake_times(parked, k).0.woken);
}

/// The "woken" flag of one wait/wake pair, shared by the waiting thread and any number of
/// signalling threads.
///
/// Each side changes it only by one atomic swap, so no lock is needed. What a swap finds
/// depends on the other threads; the decisions taken on it are [`wake_resumes`] and
/// [`park_returns`].
pub struct WakeFlag {
    woken: AtomicBool,
}

impl WakeFlag {
    /// A flag on which nothing has been signalled yet.
    pub fn new() -> (r: Self) {
        WakeFlag { woken: AtomicBool::new(false) }
    }

    /// Raises the flag; returns whether the owning thread has to be resumed, that is whether
    /// the flag was down.
    pub fn wake(&self) -> (resume: bool) {
        let previous = self.woken.swap(true, Ordering::SeqCst);
        wake_resumes(previous)
    }

    /// Lowers the flag; returns whether a wake was pending, in which case `park` returns
    /// without suspending.
    pub fn try_park(&self) -> (immediate: bool) {
        let previous = self.woken.swap(false, Ordering::SeqCst);
        park_returns(previous)
    }
}

} // verus!
