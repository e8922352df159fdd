use vstd::prelude::*;

verus! {

/// How many retired values the writer keeps before a store triggers a collection.
pub const RECLAIM_THRESHOLD: usize = 4;

/// The abstract state of a container, as its writer sees it.
///
/// `history` holds every value the container has held, the initial one first and
/// the live one last. The values retired by stores are `history` without its last
/// element; the first `reclaimed` of them have been freed, the rest wait.
pub struct SlotView<T> {
    pub history: Seq<T>,
    pub reclaimed: nat,
}

/// What a read guard holds: the value it protects and the version it pinned.
pub struct Snapshot<T> {
    pub value: T,
    pub version: usize,
}

impl<T> SlotView<T> {
    /// A container just built around `initial`.
    pub open spec fn fresh(initial: T) -> SlotView<T> {
        SlotView { history: seq![initial], reclaimed: 0 }
    }

    /// The bookkeeping is consistent: there is a live value and no value is
    /// reclaimed before it is retired.
    pub open spec fn wf(self) -> bool {
        &&& self.history.len() >= 1
        &&& self.reclaimed < self.history.len()
    }

    /// The live value.
    pub open spec fn current(self) -> T {
        self.history.last()
    }

    /// The version counter: one step per store.
    pub open spec fn version(self) -> nat {
        (self.history.len() - 1) as nat
    }

    /// The retired values not yet freed, oldest first.
    pub open spec fn garbage(self) -> Seq<T> {
        self.history.subrange(self.reclaimed as int, self.history.len() - 1)
    }

    /// A collection frees some of the oldest retired values, never one of the
    /// two most recently retired, and never a value a second time.
    pub open spec fn reclaims_to(self, after: SlotView<T>) -> bool {
        &&& after.history == self.history
        &&& self.reclaimed <= after.reclaimed
        &&& (after.reclaimed == self.reclaimed || after.reclaimed + 3 <= after.history.len())
    }

    /// One writer step: a store of some value, or a collection.
    pub open spec fn steps_to(self, after: SlotView<T>) -> bool {
        ||| self.reclaims_to(after)
        ||| (after.history.len() == self.history.len() + 1 && self.stores_to(
            after.history.last(),
            after,
        ))
    }

    /// `after` is the state once `v` has been stored: `v` is live, the old value is
    /// retired, and the store collects only once more than `RECLAIM_THRESHOLD`
    /// values wait.
    pub open spec fn stores_to(self, v: T, after: SlotView<T>) -> bool {
        let pushed = SlotView { history: self.history.push(v), reclaimed: self.reclaimed };
        &&& pushed.reclaims_to(after)
        &&& (self.garbage().len() < RECLAIM_THRESHOLD ==> after.reclaimed == self.reclaimed)
    }
}

/// The state after a store of `v` stays well formed, holds `v` as live value one
/// version later, and keeps the displaced value as the most recently retired one.
pub proof fn lemma_store<T>(before: SlotView<T>, v: T, after: SlotView<T>)
    requires
        before.wf(),
        before.stores_to(v, after),
    ensures
        after.wf(),
        after.current() == v,
        after.version() == before.version() + 1,
        after.garbage().len() >= 1,
        after.garbage().last() == before.current(),
        before.garbage().len() < RECLAIM_THRESHOLD ==> after.garbage() == before.garbage().push(
            before.current(),
        ),
{
    let n = before.history.len();
    assert(after.history.len() == n + 1);
    assert(after.garbage().last() == after.history[n - 1]);
    if before.garbage().len() < RECLAIM_THRESHOLD {
        assert(after.garbage() =~= before.garbage().push(before.current()));
    }
}

/// A writer-side load returns the value of the latest store (the initial value
/// before any store), which has not been freed; `previous` returns the value that
/// store displaced, also not yet freed.
pub proof fn lemma_loads_are_live<T>(s: SlotView<T>)
    requires
        s.wf(),
    ensures
        s.current() == s.history[s.version() as int],
        s.reclaimed <= s.version(),
        s.garbage().len() > 0 ==> s.reclaimed < s.version() && s.garbage().last() == s.history[s.version() - 1],
{
}

/// Each state of `states` is one writer step after the one before.
pub open spec fn is_run<T>(states: Seq<SlotView<T>>) -> bool {
    forall|k: int| 0 <= k < states.len() - 1 ==> #[trigger] states[k].steps_to(states[k + 1])
}

proof fn lemma_run_extends<T>(states: Seq<SlotView<T>>, j: int, k: int)
    requires
        states[j].wf(),
        is_run(states),
        0 <= j <= k < states.len(),
    ensures
        states[k].wf(),
        states[j].history.len() <= states[k].history.len(),
        states[k].history.subrange(0, states[j].history.len() as int) == states[j].history,
    decreases k - j,
{
    let n = states[j].history.len() as int;
    if k == j {
        assert(states[j].history.subrange(0, n) =~= states[j].history);
    } else {
        lemma_run_extends(states, j, k - 1);
        let p = k - 1;
        assert(states[p].steps_to(states[p + 1]));
        if !states[p].reclaims_to(states[k]) {
            lemma_store(states[p], states[k].history.last(), states[k]);
            assert(states[k].history == states[p].history.push(states[k].history.last()));
        }
        assert(states[k].history.subrange(0, n) =~= states[p].history.subrange(0, n));
    }
}

/// Later writer steps never overwrite the history: through any run of stores
/// and collections, the value live at step `i` (here the value of snapshot `g`)
/// stays at index `states[i].version()` of every later state's history, and the
/// version never goes back below it. Snapshots taken at different steps of one
/// run each keep their own place.
pub proof fn lemma_history_survives_updates<T>(states: Seq<SlotView<T>>, i: int, g: Snapshot<T>)
    requires
        states.len() >= 1,
        states[0].wf(),
        is_run(states),
        0 <= i < states.len(),
        g.value == states[i].current(),
    ensures
        forall|k: int|
            i <= k < states.len() ==> {
                &&& states[i].version() <= #[trigger] states[k].version()
                &&& states[k].history[states[i].version() as int] == g.value
            },
{
    lemma_run_extends(states, 0, i);
    assert forall|k: int| i <= k < states.len() implies {
        &&& states[i].version() <= #[trigger] states[k].version()
        &&& states[k].history[states[i].version() as int] == g.value
    } by {
        lemma_run_extends(states, i, k);
        let n = states[i].history.len() as int;
        assert(states[k].history.subrange(0, n)[n - 1] == states[k].history[n - 1]);
    }
}

/// Swapping the returned value back restores it as the live value, and the second
/// swap returns a clone of the value the first one stored.
pub proof fn lemma_swap_back<T: Clone>(
    before: SlotView<T>,
    value: T,
    first: T,
    mid: SlotView<T>,
    second: T,
    after: SlotView<T>,
)
    requires
        before.wf(),
        before.stores_to(value, mid),
        cloned::<T>(before.current(), first),
        mid.stores_to(first, after),
        cloned::<T>(mid.current(), second),
    ensures
        after.current() == first,
        cloned::<T>(value, second),
        cloned::<T>(before.current(), after.current()),
        after.version() == before.version() + 2,
{
    lemma_store(before, value, mid);
    lemma_store(mid, first, after);
}

/// Collecting frees nothing when no value waits, and two collections in a row
/// free each value at most once: the second frees only what the first kept, and
/// neither touches the live value or the version.
pub proof fn lemma_collect_twice<T>(a: SlotView<T>, b: SlotView<T>, c: SlotView<T>)
    requires
        a.wf(),
        a.reclaims_to(b),
        b.reclaims_to(c),
    ensures
        c.wf(),
        c.current() == a.current(),
        c.version() == a.version(),
        a.garbage().len() == 0 ==> b == a && c == a,
        a.reclaims_to(c),
        c.garbage().len() <= b.garbage().len() <= a.garbage().len(),
        c.garbage() == a.garbage().subrange(
            a.garbage().len() - c.garbage().len(),
            a.garbage().len() as int,
        ),
{
    assert(c.garbage() =~= a.garbage().subrange(
        a.garbage().len() - c.garbage().len(),
        a.garbage().len() as int,
    ));
}

/// A swap hands back a clone of the value it displaced, and the next load sees the
/// new value.
pub proof fn lemma_swap_then_load<T: Clone>(
    before: SlotView<T>,
    new_value: T,
    returned: T,
    after: SlotView<T>,
    loaded: Snapshot<T>,
)
    requires
        before.wf(),
        cloned::<T>(before.current(), returned),
        before.stores_to(new_value, after),
        loaded.value == after.current(),
    ensures
        loaded.value == new_value,
        cloned::<T>(before.current(), returned),
        after.garbage().last() == before.current(),
{
    lemma_store(before, new_value, after);
}

} // verus!
