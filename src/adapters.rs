//! Wrappers that carry an operation across the two poll contracts.
//!
//! [`AssertCompletes`] lets a "must complete" operation be used where an ordinary, cancellable
//! one is expected; [`MustComplete`] goes the other way. Both hold nothing but the wrapped
//! operation, and every poll of the wrapper is a poll of that operation.
use vstd::prelude::*;

verus! {

/// Asserts, on the caller's word, that the wrapped operation will be driven to completion.
///
/// Obligation of whoever calls [`AssertCompletes::new`]: once the value is first polled it is
/// polled to completion and never abandoned before. Breaking it defeats the reason the inner
/// operation asked for the stricter contract.
pub struct AssertCompletes<T> {
    inner: T,
}

impl<T> AssertCompletes<T> {
    /// The wrapped operation.
    pub closed spec fn inner_view(&self) -> T {
        self.inner
    }

    /// The wrapper around `inner`.
    pub closed spec fn wrap(inner: T) -> Self {
        AssertCompletes { inner }
    }

    /// Wraps an operation that must be driven to completion once polled.
    pub fn new(inner: T) -> (r: Self)
        ensures
            r == Self::wrap(inner),
            r.inner_view() == inner,
    {
        AssertCompletes { inner }
    }

    /// Takes the wrapped operation back out.
    pub fn into_inner(self) -> (r: T)
        ensures
            r == self.inner_view(),
    {
        self.inner
    }

    /// Borrows the wrapped operation.
    pub fn get_ref(&self) -> (r: &T)
        ensures
            *r == self.inner_view(),
    {
        &self.inner
    }

    /// Borrows the wrapped operation mutably; what is written through the borrow is what the
    /// wrapper holds afterwards.
    pub fn get_mut(&mut self) -> (r: &mut T)
        ensures
            *r == old(self).inner_view(),
            final(self).inner_view() == *final(r),
    {
        &mut self.inner
    }
}

/// Guarantees that the wrapped ordinary operation will be driven to completion.
///
/// Making one is safe: the holder of the wrapper takes on the obligation to drive it to the
/// end. Taking the inner operation out with [`MustComplete::into_inner`] carries the same
/// obligation on, since the inner operation may rely on it.
pub struct MustComplete<T> {
    inner: T,
}

impl<T> MustComplete<T> {
    /// The wrapped operation.
    pub closed spec fn inner_view(&self) -> T {
        self.inner
    }

    /// The wrapper around `inner`.
    pub closed spec fn wrap(inner: T) -> Self {
        MustComplete { inner }
    }

    /// Makes sure that `inner` will be driven to completion.
    pub fn new(inner: T) -> (r: Self)
        ensures
            r == Self::wrap(inner),
            r.inner_view() == inner,
    {
        MustComplete { inner }
    }

    /// Takes the wrapped operation back out.
    ///
    /// Obligation of the caller: the operation returned is still polled to completion.
    pub fn into_inner(self) -> (r: T)
        ensures
            r == self.inner_view(),
    {
        self.inner
    }

    /// Borrows the wrapped operation.
    pub fn get_ref(&self) -> (r: &T)
        ensures
            *r == self.inner_view(),
    {
        &self.inner
    }

    /// Borrows the wrapped operation mutably; what is written through the borrow is what the
    /// wrapper holds afterwards.
    pub fn get_mut(&mut self) -> (r: &mut T)
        ensures
            *r == old(self).inner_view(),
            final(self).inner_view() == *final(r),
    {
        &mut self.inner
    }
}

/// Wrapping an operation in [`MustComplete`] hides nothing and changes nothing: the wrapper
/// holds exactly the operation it was made from, every wrapper is the wrapping of what it
/// holds, and so each poll through it reaches the very same operation, for single values
/// and for sequences alike.
pub proof fn lemma_must_complete_transparent<T>(op: T, w: MustComplete<T>)
    ensures
        MustComplete::wrap(op).inner_view() == op,
        MustComplete::wrap(w.inner_view()) == w,
        MustComplete::wrap(op) == w <==> w.inner_view() == op,
{
}

/// The same holds of [`AssertCompletes`]: it holds exactly the operation it was made from.
pub proof fn lemma_assert_completes_transparent<T>(op: T, w: AssertCompletes<T>)
    ensures
        AssertCompletes::wrap(op).inner_view() == op,
        AssertCompletes::wrap(w.inner_view()) == w,
        AssertCompletes::wrap(op) == w <==> w.inner_view() == op,
{
}

} // verus!
