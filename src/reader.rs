use swmr_cell::LocalReader as CellLocalReader;
use vstd::prelude::*;

use crate::model::Snapshot;

verus! {

/// A reader handle for one thread.
///
/// Each thread makes its own with `SmrSwap::local` (or by cloning one) and reuses
/// it; the handle may move to another thread but is not shared between threads.
#[verifier::reject_recursive_types(T)]
pub struct LocalReader<T: 'static> {
    pub(crate) inner: CellLocalReader<T>,
    pub(crate) source: Ghost<int>,
}

/// A read guard: it keeps its reader pinned, and so the value it shows alive,
/// until it is dropped.
#[verifier::reject_recursive_types(T)]
pub struct ReadGuard<'a, T: 'static> {
    pub(crate) inner: swmr_cell::PinGuard<'a, T>,
    pub(crate) seen: Ghost<Snapshot<T>>,
}

impl<'a, T: 'static> View for ReadGuard<'a, T> {
    type V = Snapshot<T>;

    closed spec fn view(&self) -> Snapshot<T> {
        self.seen@
    }
}

impl<T: 'static> LocalReader<T> {
    /// The identity of the container this reader is registered with.
    pub closed spec fn source(&self) -> int {
        self.source@
    }

    /// Pins this reader and returns a guard on the value it then sees.
    ///
    /// Relies on `LocalReader::pin`. Which value a reader sees depends on when the
    /// writer last stored, so nothing is promised of it beyond what the guard
    /// states of itself.
    #[verifier::external_body]
    pub fn load(&self) -> (g: ReadGuard<'_, T>) {
        ReadGuard { inner: self.inner.pin(), seen: Ghost(arbitrary()) }
    }

    /// Whether a guard of this reader is alive. Relies on `LocalReader::is_pinned`.
    #[verifier::external_body]
    pub fn is_pinned(&self) -> bool {
        self.inner.is_pinned()
    }

    /// The container's current version, not the pinned one (see
    /// `ReadGuard::version`). Relies on `LocalReader::version`; the writer may
    /// store at any time, so nothing is promised of the number.
    #[verifier::external_body]
    pub fn version(&self) -> usize {
        self.inner.version()
    }

    /// Pins, applies `f` to the value seen, and unpins before returning.
    pub fn map<F, U>(&self, f: F) -> (r: U) where F: FnOnce(&T) -> U
        requires
            forall|v: &T| f.requires((v,)),
        ensures
            exists|v: T| f.ensures((&v,), r),
    {
        let guard = self.load();
        let r = f(guard.value());
        r
    }

    /// Pins and tests the value seen with `f`: the guard is kept when `f` holds of
    /// it, and released at once otherwise.
    pub fn filter<F>(&self, f: F) -> (r: Option<ReadGuard<'_, T>>) where F: FnOnce(&T) -> bool
        requires
            forall|v: &T| f.requires((v,)),
        ensures
            r.is_some() ==> f.ensures((&r.unwrap()@.value,), true),
            r.is_none() ==> exists|v: T| f.ensures((&v,), false),
    {
        let guard = self.load();
        if f(guard.value()) {
            Some(guard)
        } else {
            None
        }
    }

    /// A clone of the value this reader sees.
    pub fn load_cloned(&self) -> T where T: Clone {
        self.load().cloned()
    }
}

impl<T: 'static> Clone for LocalReader<T> {
    /// Relies on `LocalReader::clone` of `swmr_cell`: a new reader, registered on
    /// its own with the same container.
    #[verifier::external_body]
    fn clone(&self) -> (r: Self)
        ensures
            r.source() == self.source(),
    {
        LocalReader { inner: self.inner.clone(), source: Ghost(arbitrary()) }
    }
}

impl<'a, T: 'static> ReadGuard<'a, T> {
    /// The protected value. Relies on `PinGuard`'s `Deref`: the guard points at
    /// one value for its whole life.
    #[verifier::external_body]
    pub(crate) fn value(&self) -> (r: &T)
        ensures
            *r == self@.value,
    {
        &*self.inner
    }

    /// The version this guard is pinned to. Relies on `PinGuard::version`, which
    /// reads a field set when the pin was taken.
    #[verifier::external_body]
    pub fn version(&self) -> (r: usize)
        ensures
            r == self@.version,
    {
        self.inner.version()
    }

    /// A clone of the protected value.
    pub fn cloned(&self) -> (r: T) where T: Clone
        ensures
            cloned::<T>(self@.value, r),
    {
        self.value().clone()
    }

    /// Consumes the guard, releasing its pin, and returns a clone of its value.
    pub fn into_inner(self) -> (r: T) where T: Clone
        ensures
            cloned::<T>(self@.value, r),
    {
        self.value().clone()
    }
}

impl<'a, T: 'static> Clone for ReadGuard<'a, T> {
    /// Relies on `PinGuard::clone`: one more pin on the same reader, at the same
    /// version and on the same value.
    #[verifier::external_body]
    fn clone(&self) -> (r: Self)
        ensures
            r@ == self@,
    {
        ReadGuard { inner: self.inner.clone(), seen: Ghost(arbitrary()) }
    }
}

impl<'a, T: 'static> core::ops::Deref for ReadGuard<'a, T> {
    type Target = T;

    fn deref(&self) -> (r: &T)
        ensures
            *r == self@.value,
    {
        self.value()
    }
}

impl<'a, T: 'static> AsRef<T> for ReadGuard<'a, T> {
    fn as_ref(&self) -> (r: &T)
        ensures
            *r == self@.value,
    {
        self.value()
    }
}

} // verus!
