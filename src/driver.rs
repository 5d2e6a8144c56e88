//! The decisions of the blocking driver.
//!
//! The driver polls one operation on the calling thread; after each "not yet" it parks the
//! thread until the operation's wake side is signalled, and it returns the first final value.
//! Each thread keeps one wait/wake pair for reuse; a nested call made while that pair is in use
//! works on a fresh pair of its own.
use vstd::prelude::*;

verus! {

/// What the driver does after one poll.
#[derive(Clone, Copy, Debug, PartialEq, Eq, Structural)]
pub enum Step<T> {
    /// The operation completed with this value: return it.
    Finish(T),
    /// The operation is not done yet: park until woken, then poll again.
    Park,
}

/// The step that follows a poll whose outcome is `outcome` (`None` for "not yet").
pub open spec fn step_of<T>(outcome: Option<T>) -> Step<T> {
    match outcome {
        Some(v) => Step::Finish(v),
        None => Step::Park,
    }
}

/// Decides what the driver does after a poll.
pub fn next_step<T>(outcome: Option<T>) -> (r: Step<T>)
    ensures
        r == step_of(outcome),
{
    match outcome {
        Some(v) => Step::Finish(v),
        None => Step::Park,
    }
}

/// A run of the driver over the outcomes of successive polls: the value it returns (`None`
/// while the outcomes give none) and how many times it parked before returning.
pub open spec fn drive<T>(outcomes: Seq<Option<T>>) -> (Option<T>, nat)
    decreases outcomes.len(),
{
    if outcomes.len() == 0 {
        (None, 0)
    } else {
        match step_of(outcomes[0]) {
            Step::Finish(v) => (Some(v), 0),
            Step::Park => {
                let (value, parks) = drive(outcomes.drop_first());
                (value, parks + 1)
            },
        }
    }
}

/// An operation complete on its first poll has its value returned, and the thread never parks.
pub proof fn lemma_ready_never_parks<T>(v: T, later: Seq<Option<T>>)
    ensures
        drive(seq![Some(v)] + later) == (Some(v), 0nat),
{
    assert((seq![Some(v)] + later)[0] == Some(v));
}

/// An operation that reports "not yet" `n` times and then completes with `v` has `v` returned,
/// after exactly `n` parks.
pub proof fn lemma_pending_then_ready<T>(n: nat, v: T, later: Seq<Option<T>>)
    ensures
        drive(Seq::new(n, |i: int| None::<T>) + seq![Some(v)] + later) == (Some(v), n),
    decreases n,
{
    let outcomes = Seq::new(n, |i: int| None::<T>) + seq![Some(v)] + later;
    if n == 0 {
        assert(outcomes =~= seq![Some(v)] + later);
        lemma_ready_never_parks(v, later);
    } else {
        let shorter = Seq::new((n - 1) as nat, |i: int| None::<T>);
        assert(outcomes[0] == None::<T>);
        assert(outcomes.drop_first() =~= shorter + seq![Some(v)] + later);
        lemma_pending_then_ready((n - 1) as nat, v, later);
    }
}

/// Which wait/wake pair a driver call works on.
#[derive(Clone, Copy, Debug, PartialEq, Eq, Structural)]
pub enum PairSource {
    /// The pair the thread keeps for reuse.
    Cached,
    /// A pair made for this call alone and discarded when it returns.
    Fresh,
}

/// Whether the thread's kept pair is checked out by a driver call in progress.
#[derive(Clone, Copy, Debug, PartialEq, Eq, Structural)]
pub struct PairCache {
    pub checked_out: bool,
}

/// What a checkout does: the cache afterwards, and the pair the new call works on. The kept
/// pair is handed out only while it is free.
pub open spec fn after_checkout(c: PairCache) -> (PairCache, PairSource) {
    if c.checked_out {
        (c, PairSource::Fresh)
    } else {
        (PairCache { checked_out: true }, PairSource::Cached)
    }
}

/// The cache after a call that worked on `source` returns: only the call that checked the
/// kept pair out frees it.
pub open spec fn after_give_back(c: PairCache, source: PairSource) -> PairCache {
    match source {
        PairSource::Cached => PairCache { checked_out: false },
        PairSource::Fresh => c,
    }
}

impl PairCache {
    /// A thread's cache before any driver call.
    pub fn new() -> (r: Self)
        ensures
            !r.checked_out,
    {
        PairCache { checked_out: false }
    }

    /// Picks the pair for a new driver call.
    pub fn checkout(&mut self) -> (r: PairSource)
        ensures
            (*final(self), r) == after_checkout(*old(self)),
    {
        if self.checked_out {
            PairSource::Fresh
        } else {
            self.checked_out = true;
            PairSource::Cached
        }
    }

    /// Ends a driver call that worked on `source`.
    pub fn give_back(&mut self, source: PairSource)
        ensures
            *final(self) == after_give_back(*old(self), source),
    {
        match source {
            PairSource::Cached => {
                self.checked_out = false;
            },
            PairSource::Fresh => {},
        }
    }
}

/// A nested driver call does not touch the pair of the call around it: on a thread whose kept
/// pair is free, the outer call gets the kept pair and the inner one a fresh pair; when the
/// inner call returns the kept pair is still checked out by the outer call, and when the outer
/// call returns it is free again.
pub proof fn lemma_nested_calls_independent(c: PairCache)
    requires
        !c.checked_out,
    ensures
        ({
            let (during, outer) = after_checkout(c);
            let (nested, inner) = after_checkout(during);
            let after_inner = after_give_back(nested, inner);
            let after_outer = after_give_back(after_inner, outer);
            &&& outer == PairSource::Cached
            &&& inner == PairSource::Fresh
            &&& after_inner == during
            &&& during.checked_out
            &&& !after_outer.checked_out
        }),
{
}

} // verus!
