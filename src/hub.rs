use vstd::prelude::*;

use crate::snapshot::Snapshot;

verus! {

/// Identifies one subscription for the life of its hub; never reused.
pub type SubscriptionId = u64;

/// The hub seen from outside: each active subscription with the snapshot it
/// has not yet received, if any.
pub type Slots = Map<SubscriptionId, Option<Seq<u32>>>;

/// A new subscription starts with nothing pending.
pub open spec fn after_subscribe(m: Slots, id: SubscriptionId) -> Slots {
    m.insert(id, None)
}

/// A publish puts the snapshot in every active slot, replacing whatever was
/// still unread there.
pub open spec fn after_publish(m: Slots, s: Seq<u32>) -> Slots {
    Map::new(|k: SubscriptionId| m.contains_key(k), |k: SubscriptionId| Some(s))
}

/// What a receive on `id` hands out: its pending snapshot; nothing for an
/// empty slot or an unknown subscription.
pub open spec fn pending_of(m: Slots, id: SubscriptionId) -> Option<Seq<u32>> {
    if m.contains_key(id) {
        m[id]
    } else {
        None
    }
}

/// A receive empties the slot it read.
pub open spec fn after_receive(m: Slots, id: SubscriptionId) -> Slots {
    if m.contains_key(id) {
        m.insert(id, None)
    } else {
        m
    }
}

/// Tearing a subscription down drops it together with anything pending.
pub open spec fn after_unsubscribe(m: Slots, id: SubscriptionId) -> Slots {
    m.remove(id)
}

/// The view of an optional snapshot.
pub open spec fn view_of(o: Option<Snapshot>) -> Option<Seq<u32>> {
    match o {
        Some(s) => Some(s@),
        None => None,
    }
}

/// Delivery rule of the hub, given the snapshots published so far and the
/// number that had been published when each subscription joined: a pending
/// snapshot is always the newest one, and was published after its
/// subscription joined.
pub open spec fn only_latest_since_joining(
    m: Slots,
    joined: Map<SubscriptionId, nat>,
    history: Seq<Seq<u32>>,
) -> bool {
    forall|k: SubscriptionId|
        #![trigger m.contains_key(k)]
        m.contains_key(k) ==> {
            &&& joined.contains_key(k)
            &&& joined[k] <= history.len()
            &&& m[k] is Some ==> joined[k] < history.len() && m[k] == Some(history.last())
        }
}

struct Slot {
    id: SubscriptionId,
    pending: Option<Snapshot>,
}

spec fn slot_view(s: Slot) -> Option<Seq<u32>> {
    view_of(s.pending)
}

/// The single publish point: holds the active subscriptions, each with a slot
/// of depth one.
pub struct Hub {
    slots: Vec<Slot>,
    next_id: SubscriptionId,
    model: Ghost<Slots>,
    joined: Ghost<Map<SubscriptionId, nat>>,
    history: Ghost<Seq<Seq<u32>>>,
}

impl Hub {
    /// Active subscriptions and what each has pending.
    pub closed spec fn slots(&self) -> Slots {
        self.model@
    }

    /// For each active subscription, how many snapshots had been published
    /// when it joined.
    pub closed spec fn joined(&self) -> Map<SubscriptionId, nat> {
        self.joined@
    }

    /// Every snapshot published so far, oldest first.
    pub closed spec fn history(&self) -> Seq<Seq<u32>> {
        self.history@
    }

    /// The identifier the next subscription will get.
    pub closed spec fn next_id(&self) -> SubscriptionId {
        self.next_id
    }

    /// The stored slots, sorted by identifier, match the model one for one.
    pub closed spec fn layout_ok(&self) -> bool {
        &&& forall|i: int, j: int|
            0 <= i < j < self.slots@.len() ==> self.slots@[i].id < self.slots@[j].id
        &&& forall|i: int|
            #![trigger self.slots@[i]]
            0 <= i < self.slots@.len() ==> {
                &&& self.slots@[i].id < self.next_id
                &&& self.model@.contains_key(self.slots@[i].id)
                &&& self.model@[self.slots@[i].id] == slot_view(self.slots@[i])
            }
        &&& forall|k: SubscriptionId|
            #![trigger self.model@.contains_key(k)]
            self.model@.contains_key(k) ==> exists|i: int|
                0 <= i < self.slots@.len() && self.slots@[i].id == k
        &&& self.joined@.dom() == self.model@.dom()
    }

    /// Well-formedness: the stored slots match the model, and the delivery
    /// rule holds.
    pub open spec fn wf(&self) -> bool {
        &&& self.layout_ok()
        &&& only_latest_since_joining(self.slots(), self.joined(), self.history())
        &&& forall|k: SubscriptionId| #[trigger]
            self.slots().contains_key(k) ==> k < self.next_id()
    }

    /// A hub with no subscriptions that has published nothing.
    pub fn new() -> (r: Hub)
        ensures
            r.wf(),
            r.slots() == Slots::empty(),
            r.history() == Seq::<Seq<u32>>::empty(),
            r.next_id() == 0,
    {
        Hub {
            slots: Vec::new(),
            next_id: 0,
            model: Ghost(Map::empty()),
            joined: Ghost(Map::empty()),
            history: Ghost(Seq::empty()),
        }
    }

    /// Position of subscription `id` among the stored slots.
    fn find(&self, id: SubscriptionId) -> (r: Option<usize>)
        requires
            self.wf(),
        ensures
            match r {
                Some(i) => i < self.slots@.len() && self.slots@[i as int].id == id,
                None => !self.slots().contains_key(id),
            },
    {
        let mut i: usize = 0;
        while i < self.slots.len()
            invariant
                i <= self.slots@.len(),
                forall|j: int| 0 <= j < i ==> self.slots@[j].id != id,
            decreases self.slots@.len() - i,
        {
            if self.slots[i].id == id {
                return Some(i);
            }
            i = i + 1;
        }
        None
    }

    /// Registers a new subscription, which will receive every snapshot
    /// published from now on and none published before. Fails only once every
    /// identifier has been handed out.
    pub fn subscribe(&mut self) -> (r: Option<SubscriptionId>)
        requires
            old(self).wf(),
        ensures
            final(self).wf(),
            r.is_some() <==> old(self).next_id() < u64::MAX,
            final(self).history() == old(self).history(),
            match r {
                Some(id) => {
                    &&& id == old(self).next_id()
                    &&& !old(self).slots().contains_key(id)
                    &&& final(self).slots() == after_subscribe(old(self).slots(), id)
                    &&& final(self).joined() == old(self).joined().insert(
                        id,
                        old(self).history().len(),
                    )
                    &&& final(self).next_id() == id + 1
                },
                None => {
                    &&& final(self).slots() == old(self).slots()
                    &&& final(self).joined() == old(self).joined()
                    &&& final(self).next_id() == old(self).next_id()
                },
            },
    {
        if self.next_id == u64::MAX {
            return None;
        }
        let id = self.next_id;
        let ghost old_slots = self.slots@;
        self.slots.push(Slot { id, pending: None });
        self.next_id = id + 1;
        self.model = Ghost(after_subscribe(self.model@, id));
        self.joined = Ghost(self.joined@.insert(id, self.history@.len()));
        proof {
            assert forall|k: SubscriptionId| #[trigger]
                self.model@.contains_key(k) implies exists|i: int|
                    0 <= i < self.slots@.len() && self.slots@[i].id == k by {
                if k == id {
                    assert(self.slots@[old_slots.len() as int].id == k);
                } else {
                    let i = choose|i: int| 0 <= i < old_slots.len() && old_slots[i].id == k;
                    assert(self.slots@[i] == old_slots[i]);
                }
            }
            assert forall|i: int|
                #![trigger self.slots@[i]]
                0 <= i < self.slots@.len() implies {
                    &&& self.slots@[i].id < self.next_id
                    &&& self.model@.contains_key(self.slots@[i].id)
                    &&& self.model@[self.slots@[i].id] == slot_view(self.slots@[i])
                } by {
                if i < old_slots.len() {
                    assert(self.slots@[i] == old_slots[i]);
                }
            }
            assert(self.joined@.dom() =~= self.model@.dom());
        }
        Some(id)
    }

    /// Puts `s` in the slot of every active subscription, replacing anything
    /// still unread there. Never waits on a subscriber: the work is one copy
    /// per active subscription, whatever their slots held.
    pub fn publish(&mut self, s: &Snapshot)
        requires
            old(self).wf(),
        ensures
            final(self).wf(),
            final(self).slots() == after_publish(old(self).slots(), s@),
            final(self).history() == old(self).history().push(s@),
            final(self).joined() == old(self).joined(),
            final(self).next_id() == old(self).next_id(),
    {
        let ghost old_slots = self.slots@;
        let n = self.slots.len();
        let mut i: usize = 0;
        while i < n
            invariant
                n == self.slots@.len(),
                n == old_slots.len(),
                i <= n,
                forall|j: int| 0 <= j < n ==> #[trigger] self.slots@[j].id == old_slots[j].id,
                forall|j: int| 0 <= j < i ==> slot_view(#[trigger] self.slots@[j]) == Some(s@),
                forall|j: int| i <= j < n ==> #[trigger] self.slots@[j] == old_slots[j],
                self.next_id == old(self).next_id,
                self.model == old(self).model,
                self.joined == old(self).joined,
                self.history == old(self).history,
            decreases n - i,
        {
            let id = self.slots[i].id;
            let copy = s.duplicate();
            self.slots.set(i, Slot { id, pending: Some(copy) });
            i = i + 1;
        }
        self.model = Ghost(after_publish(self.model@, s@));
        self.history = Ghost(self.history@.push(s@));
        proof {
            assert forall|k: SubscriptionId| #[trigger]
                self.model@.contains_key(k) implies exists|i: int|
                    0 <= i < self.slots@.len() && self.slots@[i].id == k by {
                let i = choose|i: int| 0 <= i < old_slots.len() && old_slots[i].id == k;
                assert(self.slots@[i].id == old_slots[i].id);
            }
            assert(self.joined@.dom() =~= self.model@.dom());
        }
    }

    /// Takes the snapshot pending for `id`, leaving its slot empty. Returns
    /// `None` when nothing was published since the last receive, or when `id`
    /// is not an active subscription.
    pub fn try_receive(&mut self, id: SubscriptionId) -> (r: Option<Snapshot>)
        requires
            old(self).wf(),
        ensures
            final(self).wf(),
            view_of(r) == pending_of(old(self).slots(), id),
            final(self).slots() == after_receive(old(self).slots(), id),
            final(self).history() == old(self).history(),
            final(self).joined() == old(self).joined(),
            final(self).next_id() == old(self).next_id(),
    {
        match self.find(id) {
            None => None,
            Some(i) => {
                let ghost old_slots = self.slots@;
                let slot = self.slots.remove(i);
                self.slots.insert(i, Slot { id, pending: None });
                self.model = Ghost(after_receive(self.model@, id));
                proof {
                    assert(self.slots@ =~= old_slots.update(i as int, Slot { id, pending: None }));
                    assert forall|k: SubscriptionId| #[trigger]
                        self.model@.contains_key(k) implies exists|j: int|
                            0 <= j < self.slots@.len() && self.slots@[j].id == k by {
                        let j = choose|j: int| 0 <= j < old_slots.len() && old_slots[j].id == k;
                        assert(self.slots@[j].id == old_slots[j].id);
                    }
                    assert forall|j: int|
                        #![trigger self.slots@[j]]
                        0 <= j < self.slots@.len() implies {
                            &&& self.slots@[j].id < self.next_id
                            &&& self.model@.contains_key(self.slots@[j].id)
                            &&& self.model@[self.slots@[j].id] == slot_view(self.slots@[j])
                        } by {
                        if j != i {
                            assert(old_slots[j].id != id);
                            assert(old_slots[j] == old_slots[j]);
                        }
                    }
                    assert(self.joined@.dom() =~= self.model@.dom());
                }
                slot.pending
            },
        }
    }

    /// Tears subscription `id` down, dropping anything pending for it.
    /// Returns whether it was active.
    pub fn unsubscribe(&mut self, id: SubscriptionId) -> (r: bool)
        requires
            old(self).wf(),
        ensures
            final(self).wf(),
            r == old(self).slots().contains_key(id),
            final(self).slots() == after_unsubscribe(old(self).slots(), id),
            final(self).history() == old(self).history(),
            final(self).joined() == old(self).joined().remove(id),
            final(self).next_id() == old(self).next_id(),
    {
        match self.find(id) {
            None => {
                proof {
                    assert(self.model@.remove(id) =~= self.model@);
                    assert(self.joined@.remove(id) =~= self.joined@);
                }
                false
            },
            Some(i) => {
                let ghost old_slots = self.slots@;
                let _gone = self.slots.remove(i);
                self.model = Ghost(self.model@.remove(id));
                self.joined = Ghost(self.joined@.remove(id));
                proof {
                    assert(self.slots@ =~= old_slots.remove(i as int));
                    assert forall|k: SubscriptionId| #[trigger]
                        self.model@.contains_key(k) implies exists|j: int|
                            0 <= j < self.slots@.len() && self.slots@[j].id == k by {
                        let j = choose|j: int| 0 <= j < old_slots.len() && old_slots[j].id == k;
                        if j < i {
                            assert(self.slots@[j] == old_slots[j]);
                        } else {
                            assert(j != i);
                            assert(self.slots@[j - 1] == old_slots[j]);
                        }
                    }
                    assert forall|j: int|
                        #![trigger self.slots@[j]]
                        0 <= j < self.slots@.len() implies {
                            &&& self.slots@[j].id < self.next_id
                            &&& self.model@.contains_key(self.slots@[j].id)
                            &&& self.model@[self.slots@[j].id] == slot_view(self.slots@[j])
                        } by {
                        if j < i {
                            assert(self.slots@[j] == old_slots[j]);
                            assert(old_slots[j].id < old_slots[i as int].id);
                        } else {
                            assert(self.slots@[j] == old_slots[j + 1]);
                            assert(old_slots[i as int].id < old_slots[j + 1].id);
                        }
                    }
                    assert forall|a: int, b: int|
                        0 <= a < b < self.slots@.len() implies self.slots@[a].id
                        < self.slots@[b].id by {
                        let oa = if a < i { a } else { a + 1 };
                        let ob = if b < i { b } else { b + 1 };
                        assert(self.slots@[a] == old_slots[oa]);
                        assert(self.slots@[b] == old_slots[ob]);
                    }
                    assert(self.joined@.dom() =~= self.model@.dom());
                }
                true
            },
        }
    }

    /// Whether `id` is an active subscription.
    pub fn is_subscribed(&self, id: SubscriptionId) -> (r: bool)
        requires
            self.wf(),
        ensures
            r == self.slots().contains_key(id),
    {
        self.find(id).is_some()
    }

    /// Whether a snapshot is waiting for `id`.
    pub fn has_pending(&self, id: SubscriptionId) -> (r: bool)
        requires
            self.wf(),
        ensures
            r == pending_of(self.slots(), id).is_some(),
    {
        match self.find(id) {
            Some(i) => self.slots[i].pending.is_some(),
            None => false,
        }
    }

    /// Whether any subscription is active.
    pub fn has_subscribers(&self) -> (r: bool)
        requires
            self.wf(),
        ensures
            r == exists|k: SubscriptionId| self.slots().contains_key(k),
    {
        if self.slots.len() > 0 {
            assert(self.model@.contains_key(self.slots@[0].id));
            true
        } else {
            false
        }
    }
}

} // verus!
