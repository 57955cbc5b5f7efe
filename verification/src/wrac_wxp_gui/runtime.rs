//! The runtimes of GUIs. A runtime stays on the thread that has made it; what is passed around is
//! a handle, by which that thread finds it again.

use vstd::prelude::*;

use crate::wrac_clap_adapter::api::{PluginError, PluginResult};

verus! {

/// The runtimes of one thread, by their handles.
#[derive(Debug)]
pub struct GuiRuntimes<T> {
    next_handle: u64,
    entries: Vec<(u64, T)>,
}

/// Whether the entry at a position has a handle.
pub closed spec fn has_handle<T>(entries: Seq<(u64, T)>, handle: u64, i: int) -> bool {
    0 <= i < entries.len() && entries[i].0 == handle
}

impl<T> GuiRuntimes<T> {
    /// The handle that comes next.
    pub closed spec fn next(self) -> u64 {
        self.next_handle
    }

    /// The runtimes, by their handles.
    pub closed spec fn runtimes(self) -> Map<u64, T> {
        Map::new(
            |handle: u64| exists|i: int| has_handle(self.entries@, handle, i),
            |handle: u64| self.entries@[choose|i: int| has_handle(self.entries@, handle, i)].1,
        )
    }

    /// Whether no two runtimes have the same handle, and none has one that is still to come.
    pub closed spec fn wf(self) -> bool {
        &&& forall|i: int| 0 <= i < self.entries@.len() ==> (#[trigger] self.entries@[i]).0
            < self.next_handle
        &&& forall|i: int, j: int|
            0 <= i < j < self.entries@.len() ==> (#[trigger] self.entries@[i]).0 != (
            #[trigger] self.entries@[j]).0
    }

    proof fn lemma_entry(self, i: int)
        requires
            self.wf(),
            0 <= i < self.entries@.len(),
        ensures
            self.runtimes().contains_key(self.entries@[i].0),
            self.runtimes()[self.entries@[i].0] == self.entries@[i].1,
    {
        let handle = self.entries@[i].0;
        assert(has_handle(self.entries@, handle, i));
        let j = choose|j: int| has_handle(self.entries@, handle, j);
        assert(i == j);
    }

    /// No runtimes.
    pub fn new() -> (runtimes: Self)
        ensures
            runtimes.wf(),
            runtimes.runtimes() == Map::<u64, T>::empty(),
            runtimes.next() == 1,
    {
        let runtimes = GuiRuntimes { next_handle: 1, entries: Vec::new() };
        assert(runtimes.runtimes() =~= Map::<u64, T>::empty());
        runtimes
    }

    /// The handle that comes next.
    pub fn next_handle(&self) -> (handle: u64)
        ensures
            handle == self.next(),
    {
        self.next_handle
    }

    /// Keeps a runtime. No runtime had its handle before.
    pub fn insert(&mut self, runtime: T) -> (handle: u64)
        requires
            old(self).wf(),
            old(self).next() < u64::MAX,
        ensures
            final(self).wf(),
            handle == old(self).next(),
            !old(self).runtimes().contains_key(handle),
            final(self).next() == handle + 1,
            final(self).runtimes() == old(self).runtimes().insert(handle, runtime),
    {
        let handle = self.next_handle;
        let ghost before = *self;
        self.entries.push((handle, runtime));
        self.next_handle = handle + 1;
        proof {
            let after = *self;
            let last = before.entries@.len() as int;
            assert forall|h: u64| #[trigger]
                after.runtimes().contains_key(h) == before.runtimes().insert(
                    handle,
                    runtime,
                ).contains_key(h) by {
                if exists|i: int| has_handle(after.entries@, h, i) {
                    let i = choose|i: int| has_handle(after.entries@, h, i);
                    if i < last {
                        assert(has_handle(before.entries@, h, i));
                    }
                }
                if exists|i: int| has_handle(before.entries@, h, i) {
                    let i = choose|i: int| has_handle(before.entries@, h, i);
                    assert(has_handle(after.entries@, h, i));
                }
                assert(has_handle(after.entries@, handle, last));
            }
            assert forall|h: u64| after.runtimes().contains_key(h) implies #[trigger] after.runtimes()[h]
                == before.runtimes().insert(handle, runtime)[h] by {
                let i = choose|i: int| has_handle(after.entries@, h, i);
                after.lemma_entry(i);
                if i < last {
                    before.lemma_entry(i);
                }
            }
            assert(after.runtimes() =~= before.runtimes().insert(handle, runtime));
            if before.runtimes().contains_key(handle) {
                let i = choose|i: int| has_handle(before.entries@, handle, i);
                assert(before.entries@[i].0 < before.next_handle);
            }
        }
        handle
    }

    fn position(&self, handle: u64) -> (position: Option<usize>)
        requires
            self.wf(),
        ensures
            match position {
                Some(i) => has_handle(self.entries@, handle, i as int)
                    && self.runtimes().contains_key(handle) && self.runtimes()[handle]
                    == self.entries@[i as int].1,
                None => !self.runtimes().contains_key(handle),
            },
    {
        let mut i: usize = 0;
        while i < self.entries.len()
            invariant
                self.wf(),
                i <= self.entries@.len(),
                forall|j: int| 0 <= j < i ==> (#[trigger] self.entries@[j]).0 != handle,
            decreases self.entries@.len() - i,
        {
            if self.entries[i].0 == handle {
                proof {
                    self.lemma_entry(i as int);
                }
                return Some(i);
            }
            i += 1;
        }
        None
    }

    /// The runtime with a handle, to work on.
    pub fn get_mut(&mut self, handle: u64) -> (result: PluginResult<&mut T>)
        requires
            old(self).wf(),
        ensures
            final(self).wf(),
            final(self).next() == old(self).next(),
            match result {
                Ok(runtime) => {
                    &&& old(self).runtimes().contains_key(handle)
                    &&& *runtime == old(self).runtimes()[handle]
                    &&& final(self).runtimes() == old(self).runtimes().insert(
                        handle,
                        *final(runtime),
                    )
                },
                Err(error) => {
                    &&& !old(self).runtimes().contains_key(handle)
                    &&& error == PluginError::InvalidState
                    &&& final(self).runtimes() == old(self).runtimes()
                },
            },
    {
        match self.position(handle) {
            Some(i) => {
                proof {
                    lemma_replaced(*self, i as int);
                }
                Ok(&mut self.entries[i].1)
            },
            None => Err(PluginError::InvalidState),
        }
    }

    /// Gives up a runtime, which is then destroyed. A handle whose runtime is gone does nothing.
    pub fn remove(&mut self, handle: u64) -> (runtime: Option<T>)
        requires
            old(self).wf(),
        ensures
            final(self).wf(),
            final(self).next() == old(self).next(),
            final(self).runtimes() == old(self).runtimes().remove(handle),
            runtime == if old(self).runtimes().contains_key(handle) {
                Some(old(self).runtimes()[handle])
            } else {
                None
            },
    {
        let ghost before = *self;
        match self.position(handle) {
            Some(i) => {
                let (_, runtime) = self.entries.remove(i);
                proof {
                    lemma_removed(before, *self, i as int);
                }
                Some(runtime)
            },
            None => {
                assert(before.runtimes() =~= before.runtimes().remove(handle));
                None
            },
        }
    }
}

/// A handle whose runtime is gone leads to none ever again: it comes before the next handle, and
/// a runtime that is kept later gets the next one.
pub proof fn handles_are_given_once<T>(
    runtimes: Map<u64, T>,
    next: u64,
    handle: u64,
    other: u64,
    runtime: T,
)
    requires
        handle < next,
        !runtimes.contains_key(handle),
    ensures
        !runtimes.insert(next, runtime).contains_key(handle),
        !runtimes.remove(other).contains_key(handle),
{
}

proof fn lemma_removed<T>(before: GuiRuntimes<T>, after: GuiRuntimes<T>, at: int)
    requires
        before.wf(),
        0 <= at < before.entries@.len(),
        after.entries@ == before.entries@.remove(at),
        after.next_handle == before.next_handle,
    ensures
        after.wf(),
        after.runtimes() == before.runtimes().remove(before.entries@[at].0),
{
    let handle = before.entries@[at].0;
    let rest = before.runtimes().remove(handle);
    assert forall|h: u64| #[trigger] after.runtimes().contains_key(h) == rest.contains_key(h) by {
        if exists|i: int| has_handle(after.entries@, h, i) {
            let i = choose|i: int| has_handle(after.entries@, h, i);
            let j = if i < at {
                i
            } else {
                i + 1
            };
            assert(has_handle(before.entries@, h, j));
        }
        if h != handle && exists|j: int| has_handle(before.entries@, h, j) {
            let j = choose|j: int| has_handle(before.entries@, h, j);
            let i = if j < at {
                j
            } else {
                j - 1
            };
            assert(has_handle(after.entries@, h, i));
        }
    }
    assert forall|h: u64| after.runtimes().contains_key(h) implies #[trigger] after.runtimes()[h]
        == rest[h] by {
        let i = choose|i: int| has_handle(after.entries@, h, i);
        after.lemma_entry(i);
        before.lemma_entry(if i < at {
            i
        } else {
            i + 1
        });
    }
    assert(after.runtimes() =~= rest);
}

/// A change of the runtime at a position changes the runtime with its handle, and no other.
proof fn lemma_replaced<T>(before: GuiRuntimes<T>, at: int)
    requires
        before.wf(),
        0 <= at < before.entries@.len(),
    ensures
        forall|after: GuiRuntimes<T>, runtime: T|
            #![trigger after.runtimes(), before.runtimes().insert(before.entries@[at].0, runtime)]
            is_replaced(before, after, at, runtime) ==> after.wf() && after.runtimes()
                == before.runtimes().insert(before.entries@[at].0, runtime),
{
    assert forall|after: GuiRuntimes<T>, runtime: T|
        #![trigger after.runtimes(), before.runtimes().insert(before.entries@[at].0, runtime)]
        is_replaced(before, after, at, runtime) implies after.wf() && after.runtimes()
        == before.runtimes().insert(before.entries@[at].0, runtime) by {
        let handle = before.entries@[at].0;
        assert forall|i: int| 0 <= i < after.entries@.len() implies (#[trigger] after.entries@[i]).0
            == before.entries@[i].0 by {}
        assert(after.wf());
        let map = before.runtimes().insert(handle, runtime);
        assert forall|h: u64| #[trigger] after.runtimes().contains_key(h) == map.contains_key(
            h,
        ) by {
            if exists|i: int| has_handle(after.entries@, h, i) {
                let i = choose|i: int| has_handle(after.entries@, h, i);
                assert(has_handle(before.entries@, h, i));
            }
            if exists|i: int| has_handle(before.entries@, h, i) {
                let i = choose|i: int| has_handle(before.entries@, h, i);
                assert(has_handle(after.entries@, h, i));
            }
            assert(has_handle(after.entries@, handle, at));
        }
        assert forall|h: u64| after.runtimes().contains_key(h) implies #[trigger] after.runtimes()[h]
            == map[h] by {
            let i = choose|i: int| has_handle(after.entries@, h, i);
            after.lemma_entry(i);
            before.lemma_entry(i);
        }
        assert(after.runtimes() =~= map);
    }
}

spec fn is_replaced<T>(
    before: GuiRuntimes<T>,
    after: GuiRuntimes<T>,
    at: int,
    runtime: T,
) -> bool {
    &&& after.next_handle == before.next_handle
    &&& after.entries@ == before.entries@.update(at, (before.entries@[at].0, runtime))
}

/// A runtime is found by the handle that it was kept under, and by no other; it is given up once.
pub proof fn runtimes_are_found_by_their_handle<T>(
    kept: &mut GuiRuntimes<T>,
    runtime: T,
    handle: u64,
    first: &mut GuiRuntimes<T>,
    removed: Option<T>,
    second: &mut GuiRuntimes<T>,
    again: Option<T>,
    other: &mut GuiRuntimes<T>,
    foreign: u64,
    left: Option<T>,
)
    requires
        call_ensures(GuiRuntimes::<T>::insert, (kept, runtime), handle),
        *first == *final(kept),
        call_ensures(GuiRuntimes::<T>::remove, (first, handle), removed),
        *second == *final(first),
        call_ensures(GuiRuntimes::<T>::remove, (second, handle), again),
        *other == *final(kept),
        foreign != handle,
        call_ensures(GuiRuntimes::<T>::remove, (other, foreign), left),
    ensures
        removed == Some(runtime),
        again is None,
        final(second).runtimes() == old(kept).runtimes(),
        final(other).runtimes().contains_key(handle),
        left is Some <==> old(kept).runtimes().contains_key(foreign),
        final(kept).next() > handle,
{
    assert(final(second).runtimes() =~= old(kept).runtimes());
}

/// Work on a runtime is kept under its handle and touches no other runtime.
pub proof fn work_on_a_runtime_stays_with_it<T>(
    runtimes: &mut GuiRuntimes<T>,
    handle: u64,
    result: PluginResult<&mut T>,
    other: u64,
)
    requires
        call_ensures(GuiRuntimes::<T>::get_mut, (runtimes, handle), result),
    ensures
        result is Ok <==> old(runtimes).runtimes().contains_key(handle),
        result matches Ok(runtime) ==> *runtime == old(runtimes).runtimes()[handle] && final(runtimes).runtimes()[handle] == *final(runtime),
        result matches Err(error) ==> error == PluginError::InvalidState,
        other != handle && old(runtimes).runtimes().contains_key(other) ==> final(runtimes).runtimes().contains_key(other) && final(runtimes).runtimes()[other] == old(runtimes).runtimes()[other],
        final(runtimes).runtimes().dom() == old(runtimes).runtimes().dom(),
{
    assert(final(runtimes).runtimes().dom() =~= old(runtimes).runtimes().dom());
}

} // verus!
