use swmr_cell::LocalReader as CellLocalReader;
use vstd::prelude::*;

use crate::model::{SlotView, Snapshot, RECLAIM_THRESHOLD};
use crate::reader::{LocalReader, ReadGuard};

verus! {

#[verifier::external_type_specification]
#[verifier::external_body]
#[verifier::reject_recursive_types(T)]
pub struct ExSwmrCell<T: 'static>(swmr_cell::SwmrCell<T>);

#[verifier::external_type_specification]
#[verifier::external_body]
#[verifier::reject_recursive_types(T)]
pub struct ExCellReader<T: 'static>(CellLocalReader<T>);

#[verifier::external_type_specification]
#[verifier::external_body]
#[verifier::reject_recursive_types(T)]
pub struct ExPinGuard<'a, T: 'static>(swmr_cell::PinGuard<'a, T>);

/// The writer's side of one `swmr_cell::SwmrCell`.
///
/// `model` is the abstract content of `cell`, `id` names the cell, so that a
/// reader can be told apart from the readers of other cells, and `threshold` is
/// the retired-queue length past which a store collects. Only the items of this
/// impl touch `cell`; each states how it reads or changes `model`.
#[verifier::reject_recursive_types(T)]
pub struct Slot<T: 'static> {
    cell: swmr_cell::SwmrCell<T>,
    model: Ghost<SlotView<T>>,
    id: Ghost<int>,
    threshold: Ghost<usize>,
}

impl<T: 'static> View for Slot<T> {
    type V = SlotView<T>;

    closed spec fn view(&self) -> SlotView<T> {
        self.model@
    }
}

impl<T: 'static> Slot<T> {
    /// The identity of the cell, shared by the readers registered with it.
    pub closed spec fn id(&self) -> int {
        self.id@
    }

    /// The queue length the cell was built to collect past.
    pub closed spec fn threshold(&self) -> usize {
        self.threshold@
    }

    /// Relies on `SwmrCell::builder`, `auto_reclaim_threshold` and `build`: the
    /// cell holds `initial` at version 0 with nothing retired, and collects on a
    /// store once more than `threshold` values wait.
    #[verifier::external_body]
    pub fn build(initial: T, threshold: usize) -> (r: Slot<T>)
        ensures
            r@ == SlotView::fresh(initial),
            r.threshold() == threshold,
    {
        let cell = swmr_cell::SwmrCell::builder().auto_reclaim_threshold(Some(threshold)).build(
            initial,
        );
        Slot { cell, model: Ghost(arbitrary()), id: Ghost(arbitrary()), threshold: Ghost(arbitrary()) }
    }

    /// Relies on `SwmrCell::local`: the new reader is registered with this cell.
    #[verifier::external_body]
    pub fn local(&self) -> (r: LocalReader<T>)
        ensures
            r.source() == self.id(),
    {
        LocalReader { inner: self.cell.local(), source: Ghost(arbitrary()) }
    }

    /// Relies on `SwmrCell::store`: the value is swapped in, the version counter
    /// steps by one, the old value joins the back of the retired queue, and a
    /// collection (see `collect`) runs once that queue is longer than the threshold.
    #[verifier::external_body]
    pub fn store(&mut self, value: T)
        requires
            old(self).threshold() == RECLAIM_THRESHOLD,
            old(self)@.version() < usize::MAX,
        ensures
            old(self)@.stores_to(value, final(self)@),
            final(self).id() == old(self).id(),
            final(self).threshold() == old(self).threshold(),
    {
        self.cell.store(value)
    }

    /// Relies on `SwmrCell::get`: the live value.
    #[verifier::external_body]
    pub fn get(&self) -> (r: &T)
        ensures
            *r == self@.current(),
    {
        self.cell.get()
    }

    /// Relies on `SwmrCell::version`: the number of stores so far.
    #[verifier::external_body]
    pub fn version(&self) -> (r: usize)
        ensures
            r == self@.version(),
    {
        self.cell.version()
    }

    /// Relies on `SwmrCell::garbage_count`: the length of the retired queue.
    #[verifier::external_body]
    pub fn garbage_count(&self) -> (r: usize)
        ensures
            r == self@.garbage().len(),
    {
        self.cell.garbage_count()
    }

    /// Relies on `SwmrCell::previous`: the back of the retired queue, the value
    /// most recently displaced, if it still waits.
    #[verifier::external_body]
    pub fn previous(&self) -> (r: Option<&T>)
        ensures
            r.is_some() <==> self@.garbage().len() > 0,
            r.is_some() ==> *r.unwrap() == self@.garbage().last(),
    {
        self.cell.previous()
    }

    /// Relies on `SwmrCell::collect`: it frees the front of the retired queue up to
    /// the oldest version a reader still pins, and never past the version two
    /// below the current one.
    #[verifier::external_body]
    pub fn collect(&mut self)
        ensures
            old(self)@.reclaims_to(final(self)@),
            final(self).id() == old(self).id(),
            final(self).threshold() == old(self).threshold(),
    {
        self.cell.collect()
    }

    /// Relies on `LocalReader::pin` for a reader of this cell while the writer is
    /// borrowed, so that no store runs: the guard holds the live value, at the
    /// current version or at the older one this reader is already pinned to.
    #[verifier::external_body]
    pub fn pin_current<'a>(&self, reader: &'a LocalReader<T>) -> (g: ReadGuard<'a, T>)
        requires
            reader.source() == self.id(),
        ensures
            g@.value == self@.current(),
            g@.version <= self@.version(),
    {
        ReadGuard { inner: reader.inner.pin(), seen: Ghost(arbitrary()) }
    }
}

} // verus!
