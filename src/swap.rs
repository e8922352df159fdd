use vstd::prelude::*;

use crate::cell::Slot;
use crate::model::{lemma_collect_twice, lemma_store, SlotView, RECLAIM_THRESHOLD};
use crate::reader::{LocalReader, ReadGuard};

verus! {

/// A single-writer, multi-reader swap container.
///
/// The value owns the writer's rights; readers come from `local`. A displaced
/// value is retired, and freed once no reader can still see it.
#[verifier::reject_recursive_types(T)]
pub struct SmrSwap<T: 'static> {
    slot: Slot<T>,
    local: LocalReader<T>,
}

impl<T: 'static> View for SmrSwap<T> {
    type V = SlotView<T>;

    closed spec fn view(&self) -> SlotView<T> {
        self.slot@
    }
}

impl<T: 'static> SmrSwap<T> {
    /// The bookkeeping is consistent and the writer's own reader belongs to its
    /// cell.
    pub open spec fn wf(&self) -> bool {
        &&& self@.wf()
        &&& self.reader_ok()
    }

    /// The writer's own reader is registered with this container's cell, and the
    /// cell collects past `RECLAIM_THRESHOLD` retired values.
    pub closed spec fn reader_ok(&self) -> bool {
        &&& self.local.source() == self.slot.id()
        &&& self.slot.threshold() == RECLAIM_THRESHOLD
    }

    /// The identity of this container, shared by its readers.
    pub closed spec fn id(&self) -> int {
        self.slot.id()
    }

    /// Builds a container holding `initial` at version 0.
    pub fn new(initial: T) -> (r: Self)
        ensures
            r.wf(),
            r@ == SlotView::fresh(initial),
    {
        let slot = Slot::build(initial, RECLAIM_THRESHOLD);
        let local = slot.local();
        SmrSwap { slot, local }
    }

    /// A new reader of this container, for the calling thread or another one.
    pub fn local(&self) -> (r: LocalReader<T>)
        ensures
            r.source() == self.id(),
    {
        self.slot.local()
    }

    /// Makes `value` the live value and retires the old one.
    pub fn store(&mut self, value: T)
        requires
            old(self).wf(),
            old(self)@.version() < usize::MAX,
        ensures
            final(self).wf(),
            old(self)@.stores_to(value, final(self)@),
            final(self)@.version() == old(self)@.version() + 1,
            final(self)@.garbage().len() >= 1,
            old(self)@.steps_to(final(self)@),
            final(self)@.garbage().last() == old(self)@.current(),
            final(self).id() == old(self).id(),
    {
        let ghost before = self.slot@;
        self.slot.store(value);
        proof {
            lemma_store(before, value, self.slot@);
        }
    }

    /// The live value, read by the writer without pinning.
    pub fn get(&self) -> (r: &T)
        ensures
            *r == self@.current(),
    {
        self.slot.get()
    }

    /// Replaces the live value by `f` of it.
    pub fn update<F>(&mut self, f: F) where F: FnOnce(&T) -> T
        requires
            old(self).wf(),
            old(self)@.version() < usize::MAX,
            f.requires((&old(self)@.current(),)),
        ensures
            final(self).wf(),
            f.ensures((&old(self)@.current(),), final(self)@.current()),
            old(self)@.stores_to(final(self)@.current(), final(self)@),
            final(self)@.version() == old(self)@.version() + 1,
            final(self)@.garbage().len() >= 1,
            old(self)@.steps_to(final(self)@),
            final(self)@.garbage().last() == old(self)@.current(),
            final(self).id() == old(self).id(),
    {
        let value = f(self.slot.get());
        self.store(value);
    }

    /// The version: how many values have been stored since construction.
    pub fn version(&self) -> (r: usize)
        ensures
            r == self@.version(),
    {
        self.slot.version()
    }

    /// How many retired values wait to be freed.
    pub fn garbage_count(&self) -> (r: usize)
        ensures
            r == self@.garbage().len(),
    {
        self.slot.garbage_count()
    }

    /// The value most recently displaced, while it has not been freed.
    pub fn previous(&self) -> (r: Option<&T>)
        ensures
            r.is_some() <==> self@.garbage().len() > 0,
            r.is_some() ==> *r.unwrap() == self@.garbage().last(),
    {
        self.slot.previous()
    }

    /// Frees the retired values that no reader can still see.
    pub fn collect(&mut self)
        requires
            old(self).wf(),
        ensures
            final(self).wf(),
            old(self)@.reclaims_to(final(self)@),
            old(self)@.steps_to(final(self)@),
            final(self)@.current() == old(self)@.current(),
            final(self)@.version() == old(self)@.version(),
            final(self)@.garbage().len() <= old(self)@.garbage().len(),
            old(self)@.garbage().len() == 0 ==> final(self)@ == old(self)@,
            final(self).id() == old(self).id(),
    {
        let ghost before = self.slot@;
        self.slot.collect();
        proof {
            lemma_collect_twice(before, self.slot@, self.slot@);
        }
    }

    /// Pins the writer's own reader and returns a guard on the live value.
    pub fn load(&self) -> (r: ReadGuard<'_, T>)
        requires
            self.wf(),
        ensures
            r@.value == self@.current(),
            r@.version <= self@.version(),
    {
        self.slot.pin_current(&self.local)
    }

    /// A clone of the live value.
    pub fn load_cloned(&self) -> (r: T) where T: Clone
        requires
            self.wf(),
        ensures
            cloned::<T>(self@.current(), r),
    {
        self.load().cloned()
    }

    /// Stores `value` and hands back a clone of the value it displaced.
    pub fn swap(&mut self, value: T) -> (r: T) where T: Clone
        requires
            old(self).wf(),
            old(self)@.version() < usize::MAX,
        ensures
            final(self).wf(),
            cloned::<T>(old(self)@.current(), r),
            old(self)@.stores_to(value, final(self)@),
            final(self)@.version() == old(self)@.version() + 1,
            final(self)@.garbage().len() >= 1,
            old(self)@.steps_to(final(self)@),
            final(self)@.garbage().last() == old(self)@.current(),
            final(self).id() == old(self).id(),
    {
        let old_value = self.slot.get().clone();
        self.store(value);
        old_value
    }

    /// Replaces the live value by `f` of it and returns a guard on the new value.
    pub fn update_and_fetch<F>(&mut self, f: F) -> (r: ReadGuard<'_, T>) where F: FnOnce(&T) -> T
        requires
            old(self).wf(),
            old(self)@.version() < usize::MAX,
            f.requires((&old(self)@.current(),)),
        ensures
            final(self).wf(),
            f.ensures((&old(self)@.current(),), final(self)@.current()),
            old(self)@.stores_to(final(self)@.current(), final(self)@),
            final(self)@.version() == old(self)@.version() + 1,
            final(self)@.garbage().len() >= 1,
            old(self)@.steps_to(final(self)@),
            final(self)@.garbage().last() == old(self)@.current(),
            final(self).id() == old(self).id(),
            r@.value == final(self)@.current(),
            r@.version <= final(self)@.version(),
    {
        let value = f(self.slot.get());
        self.store(value);
        self.slot.pin_current(&self.local)
    }

    /// Replaces the live value by `f` of it and returns a guard on the value it
    /// displaced, which stays alive while the guard does.
    pub fn fetch_and_update<F>(&mut self, f: F) -> (r: ReadGuard<'_, T>) where F: FnOnce(&T) -> T
        requires
            old(self).wf(),
            old(self)@.version() < usize::MAX,
            f.requires((&old(self)@.current(),)),
        ensures
            final(self).wf(),
            f.ensures((&old(self)@.current(),), final(self)@.current()),
            old(self)@.stores_to(final(self)@.current(), final(self)@),
            final(self)@.version() == old(self)@.version() + 1,
            final(self)@.garbage().len() >= 1,
            old(self)@.steps_to(final(self)@),
            final(self)@.garbage().last() == old(self)@.current(),
            final(self).id() == old(self).id(),
            r@.value == old(self)@.current(),
            r@.version <= old(self)@.version(),
    {
        let old_guard = self.slot.pin_current(&self.local);
        let value = f(self.slot.get());
        let ghost before = self.slot@;
        self.slot.store(value);
        proof {
            lemma_store(before, value, self.slot@);
        }
        old_guard
    }
}

impl<T: Default + 'static> Default for SmrSwap<T> {
    /// A container holding `T`'s default value.
    fn default() -> (r: Self)
        ensures
            r.wf(),
            r@ == SlotView::fresh(r@.current()),
            call_ensures(T::default, (), r@.current()),
    {
        Self::new(T::default())
    }
}

impl<T: 'static> From<T> for SmrSwap<T> {
    /// A container holding `value`.
    fn from(value: T) -> (r: Self)
        ensures
            r.wf(),
            r@ == SlotView::fresh(value),
    {
        Self::new(value)
    }
}

/// Two containers built from one value are still two containers, so `from` is not
/// a function of its argument alone; its own `ensures` says what it builds.
impl<T: 'static> vstd::std_specs::convert::FromSpecImpl<T> for SmrSwap<T> {
    open spec fn obeys_from_spec() -> bool {
        false
    }

    open spec fn from_spec(v: T) -> Self {
        arbitrary()
    }
}

} // verus!
