//! Who is told of changes that the GUI shows.

use vstd::prelude::*;

verus! {

/// What a subscriber is told of.
#[derive(Debug, Clone, Copy, PartialEq, Eq, Structural)]
pub enum GuiSubscriptionKind {
    Parameters,
    EditorPage,
}

/// One subscriber.
#[derive(Debug, Clone, Copy, PartialEq, Eq, Structural)]
struct GuiSubscription {
    id: u64,
    kind: GuiSubscriptionKind,
}

/// The subscribers, each with an id of its own.
#[derive(Debug)]
pub struct GuiSubscriptions {
    next_id: u64,
    entries: Vec<GuiSubscription>,
}

/// What the subscribers are told of, by id.
spec fn by_id(entries: Seq<GuiSubscription>) -> Map<u64, GuiSubscriptionKind>
    decreases entries.len(),
{
    if entries.len() == 0 {
        Map::empty()
    } else {
        by_id(entries.drop_last()).insert(entries.last().id, entries.last().kind)
    }
}

/// Whether no two subscribers share an id, and all ids are below a bound.
spec fn ids_are_distinct(entries: Seq<GuiSubscription>, bound: u64) -> bool {
    &&& forall|i: int| 0 <= i < entries.len() ==> (#[trigger] entries[i]).id < bound
    &&& forall|i: int, j: int|
        0 <= i < j < entries.len() ==> (#[trigger] entries[i]).id != (#[trigger] entries[j]).id
}

proof fn lemma_by_id(entries: Seq<GuiSubscription>, bound: u64, id: u64)
    requires
        ids_are_distinct(entries, bound),
    ensures
        by_id(entries).contains_key(id) <==> exists|i: int|
            0 <= i < entries.len() && (#[trigger] entries[i]).id == id,
        forall|i: int|
            0 <= i < entries.len() && (#[trigger] entries[i]).id == id ==> by_id(entries)[id]
                == entries[i].kind,
    decreases entries.len(),
{
    if entries.len() > 0 {
        let rest = entries.drop_last();
        assert(ids_are_distinct(rest, bound)) by {
            assert forall|i: int| 0 <= i < rest.len() implies (#[trigger] rest[i]).id < bound by {
                assert(entries[i].id < bound);
            }
            assert forall|i: int, j: int| 0 <= i < j < rest.len() implies (#[trigger] rest[i]).id
                != (#[trigger] rest[j]).id by {
                assert(entries[i].id != entries[j].id);
            }
        }
        lemma_by_id(rest, bound, id);
        let last = entries.len() - 1;
        assert(entries[last] == entries.last());
        assert forall|i: int| 0 <= i < entries.len() && (#[trigger] entries[i]).id
            == id implies by_id(entries)[id] == entries[i].kind by {
            if i < last {
                assert(rest[i] == entries[i]);
                assert(entries[i].id != entries[last].id);
            }
        }
        if by_id(entries).contains_key(id) {
            if entries[last].id != id {
                let i = choose|i: int| 0 <= i < rest.len() && (#[trigger] rest[i]).id == id;
                assert(entries[i].id == id);
            }
        }
        if exists|i: int| 0 <= i < entries.len() && (#[trigger] entries[i]).id == id {
            let i = choose|i: int| 0 <= i < entries.len() && (#[trigger] entries[i]).id == id;
            if i < last {
                assert(rest[i].id == id);
            }
        }
    }
}

impl View for GuiSubscriptions {
    type V = Map<u64, GuiSubscriptionKind>;

    closed spec fn view(&self) -> Map<u64, GuiSubscriptionKind> {
        by_id(self.entries@)
    }
}

impl GuiSubscriptions {
    #[verifier::type_invariant]
    spec fn ids_are_unique(self) -> bool {
        ids_are_distinct(self.entries@, self.next_id)
    }

    /// The id that the next subscriber gets.
    pub closed spec fn next(self) -> u64 {
        self.next_id
    }

    /// No subscriber.
    pub fn new() -> (subscriptions: Self)
        ensures
            subscriptions@ == Map::<u64, GuiSubscriptionKind>::empty(),
            subscriptions.next() == 1,
    {
        GuiSubscriptions { next_id: 1, entries: Vec::new() }
    }

    /// The id that the next subscriber gets.
    pub fn next_subscription_id(&self) -> (id: u64)
        ensures
            id == self.next(),
            !self@.contains_key(id),
    {
        proof {
            use_type_invariant(self);
            lemma_by_id(self.entries@, self.next_id, self.next_id);
        }
        self.next_id
    }

    /// Adds a subscriber, under an id that no subscriber ever had.
    pub fn subscribe(&mut self, kind: GuiSubscriptionKind) -> (id: u64)
        requires
            old(self).next() < u64::MAX,
        ensures
            id == old(self).next(),
            !old(self)@.contains_key(id),
            final(self)@ == old(self)@.insert(id, kind),
            final(self).next() == old(self).next() + 1,
    {
        let id: u64 = self.next_subscription_id();
        proof {
            use_type_invariant(&*self);
        }
        let mut entries: Vec<GuiSubscription> = Vec::new();
        std::mem::swap(&mut self.entries, &mut entries);
        let ghost before = entries@;
        entries.push(GuiSubscription { id, kind });
        assert(entries@.drop_last() =~= before);
        *self = GuiSubscriptions { next_id: id + 1, entries };
        id
    }

    /// Removes the subscriber with an id. Where there is none, nothing changes.
    pub fn unsubscribe(&mut self, id: u64)
        ensures
            final(self)@ == old(self)@.remove(id),
            final(self).next() == old(self).next(),
    {
        proof {
            use_type_invariant(&*self);
        }
        let next_id: u64 = self.next_id;
        let mut kept: Vec<GuiSubscription> = Vec::new();
        let mut i: usize = 0;
        let ghost all = self.entries@;
        while i < self.entries.len()
            invariant
                i <= self.entries@.len(),
                all == self.entries@,
                ids_are_distinct(all, next_id),
                ids_are_distinct(kept@, next_id),
                forall|k: int, j: int|
                    0 <= k < kept@.len() && i <= j < all.len() ==> (#[trigger] kept@[k]).id
                        != (#[trigger] all[j]).id,
                by_id(kept@) == by_id(all.take(i as int)).remove(id),
            decreases self.entries@.len() - i,
        {
            let entry = self.entries[i];
            let ghost before = kept@;
            proof {
                assert(all.take(i + 1).drop_last() =~= all.take(i as int));
                assert(all.take(i + 1).last() == entry);
                assert(entry == all[i as int]);
            }
            if entry.id != id {
                kept.push(entry);
                proof {
                    assert(kept@.drop_last() =~= before);
                    assert(by_id(kept@) =~= by_id(all.take(i + 1)).remove(id));
                }
            } else {
                assert(by_id(kept@) =~= by_id(all.take(i + 1)).remove(id));
            }
            i += 1;
        }
        assert(all.take(i as int) =~= all);
        *self = GuiSubscriptions { next_id, entries: kept };
    }

    /// Removes every subscriber.
    pub fn clear_subscriptions(&mut self)
        ensures
            final(self)@ == Map::<u64, GuiSubscriptionKind>::empty(),
            final(self).next() == old(self).next(),
    {
        *self = GuiSubscriptions { next_id: self.next_id, entries: Vec::new() };
    }

    /// The ids of the subscribers that are told of something, each once.
    pub fn recipients(&self, kind: GuiSubscriptionKind) -> (ids: Vec<u64>)
        ensures
            ids@.no_duplicates(),
            forall|id: u64|
                ids@.contains(id) <==> self@.contains_key(id) && self@[id] == kind,
    {
        proof {
            use_type_invariant(self);
        }
        let mut ids: Vec<u64> = Vec::new();
        let ghost all = self.entries@;
        let ghost bound = self.next_id;
        let mut i: usize = 0;
        while i < self.entries.len()
            invariant
                i <= all.len(),
                all == self.entries@,
                ids_are_distinct(all, bound),
                ids@.no_duplicates(),
                forall|id: u64|
                    #[trigger] ids@.contains(id) <==> exists|j: int|
                        0 <= j < i && (#[trigger] all[j]).id == id && all[j].kind == kind,
            decreases all.len() - i,
        {
            let entry = self.entries[i];
            if entry.kind == kind {
                let ghost before = ids@;
                proof {
                    if before.contains(entry.id) {
                        let j = choose|j: int|
                            0 <= j < i && (#[trigger] all[j]).id == entry.id && all[j].kind == kind;
                        assert(all[j].id != all[i as int].id);
                    }
                }
                ids.push(entry.id);
                proof {
                    assert forall|id: u64| #[trigger] ids@.contains(id) <==> exists|j: int|
                        0 <= j < i + 1 && (#[trigger] all[j]).id == id && all[j].kind == kind by {
                        if ids@.contains(id) {
                            let k = choose|k: int| 0 <= k < ids@.len() && ids@[k] == id;
                            if k < before.len() {
                                assert(before[k] == id);
                                assert(before.contains(id));
                            } else {
                                assert(all[i as int].id == id);
                            }
                        }
                        if exists|j: int|
                            0 <= j < i + 1 && (#[trigger] all[j]).id == id && all[j].kind == kind {
                            let j = choose|j: int|
                                0 <= j < i + 1 && (#[trigger] all[j]).id == id && all[j].kind
                                    == kind;
                            if j < i {
                                assert(before.contains(id));
                                let k = choose|k: int| 0 <= k < before.len() && before[k] == id;
                                assert(ids@[k] == id);
                            } else {
                                assert(ids@[before.len() as int] == id);
                            }
                        }
                    }
                }
            }
            i += 1;
        }
        proof {
            assert forall|id: u64| ids@.contains(id) <==> self@.contains_key(id) && self@[id]
                == kind by {
                lemma_by_id(all, bound, id);
                if self@.contains_key(id) {
                    let j = choose|j: int| 0 <= j < all.len() && (#[trigger] all[j]).id == id;
                    assert(self@[id] == all[j].kind);
                }
            }
        }
        ids
    }
}

/// A cleanup that comes late, for a subscription that is over, leaves every other subscription
/// as it is.
pub proof fn a_late_cleanup_spares_other_subscriptions(
    subscriptions: Map<u64, GuiSubscriptionKind>,
    over: u64,
    other: u64,
)
    requires
        subscriptions.contains_key(other),
        other != over,
    ensures
        subscriptions.remove(over).contains_key(other),
        subscriptions.remove(over)[other] == subscriptions[other],
{
}

/// A subscriber is told of what it has subscribed to and of nothing else, under the id that it
/// got; once it has unsubscribed it is told of nothing, and everyone else as before.
pub proof fn subscribers_are_told_of_their_own(
    before: &mut GuiSubscriptions,
    kind: GuiSubscriptionKind,
    id: u64,
    after: &mut GuiSubscriptions,
    gone: u64,
    told: GuiSubscriptionKind,
    ids: Vec<u64>,
    left: Vec<u64>,
    first: Vec<u64>,
)
    requires
        call_ensures(GuiSubscriptions::recipients, (&*before, told), first),
        call_ensures(GuiSubscriptions::subscribe, (before, kind), id),
        call_ensures(GuiSubscriptions::recipients, (final(before), told), ids),
        *after == *final(before),
        call_ensures(GuiSubscriptions::unsubscribe, (after, gone), ()),
        call_ensures(GuiSubscriptions::recipients, (final(after), told), left),
    ensures
        ids@.contains(id) <==> told == kind,
        !first@.contains(id),
        forall|other: u64| other != id ==> (ids@.contains(other) <==> first@.contains(other)),
        !left@.contains(gone),
        forall|other: u64| other != gone ==> (left@.contains(other) <==> ids@.contains(other)),
        ids@.no_duplicates(),
{
}

/// Once every subscriber is gone nobody is told of anything, and an id that was given is not given
/// again.
pub proof fn cleared_subscriptions_tell_nobody(
    cleared: &mut GuiSubscriptions,
    told: GuiSubscriptionKind,
    ids: Vec<u64>,
    again: &mut GuiSubscriptions,
    kind: GuiSubscriptionKind,
    id: u64,
)
    requires
        call_ensures(GuiSubscriptions::clear_subscriptions, (cleared,), ()),
        call_ensures(GuiSubscriptions::recipients, (final(cleared), told), ids),
        *again == *final(cleared),
        call_ensures(GuiSubscriptions::subscribe, (again, kind), id),
    ensures
        ids@.len() == 0,
        id == old(cleared).next(),
        final(again).next() > id,
{
    if ids@.len() > 0 {
        assert(ids@.contains(ids@[0]));
    }
}

} // verus!
