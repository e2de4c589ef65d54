use vstd::prelude::*;

use crate::hub::{
    after_publish, after_receive, after_subscribe, after_unsubscribe, only_latest_since_joining,
    pending_of, Hub, Slots, SubscriptionId,
};
use crate::sampler::{cores_after, tick_outcome, TickOutcome};

verus! {

/// A publish does not depend on how far any subscriber has read: two hubs
/// with the same active subscriptions end in the same state, whatever their
/// slots held.
pub proof fn publish_ignores_unread(m1: Slots, m2: Slots, s: Seq<u32>)
    requires
        m1.dom() == m2.dom(),
    ensures
        after_publish(m1, s) == after_publish(m2, s),
{
    assert(after_publish(m1, s) =~= after_publish(m2, s));
}

/// A subscription that joins after one publish and before the next has
/// nothing to receive until that next publish, and then receives the newer
/// snapshot.
pub proof fn late_subscriber_skips_earlier(m: Slots, id: SubscriptionId, s1: Seq<u32>, s2: Seq<u32>)
    requires
        !after_publish(m, s1).contains_key(id),
    ensures
        pending_of(after_subscribe(after_publish(m, s1), id), id) is None,
        pending_of(after_publish(after_subscribe(after_publish(m, s1), id), s2), id) == Some(s2),
{
}

/// In every well-formed hub, what a subscription can receive is the newest
/// snapshot, published after it joined: never one from before.
pub proof fn receives_only_after_joining(h: &Hub, id: SubscriptionId)
    requires
        h.wf(),
    ensures
        pending_of(h.slots(), id) is Some ==> {
            &&& h.joined()[id] < h.history().len()
            &&& pending_of(h.slots(), id) == Some(h.history().last())
        },
{
    if h.slots().contains_key(id) {
        assert(only_latest_since_joining(h.slots(), h.joined(), h.history()));
    }
}

/// Latest value wins: after two publishes with no receive between them, a
/// subscriber receives the second snapshot, and then nothing until the next
/// publish.
pub proof fn newest_unread_wins(m: Slots, id: SubscriptionId, s1: Seq<u32>, s2: Seq<u32>)
    requires
        m.contains_key(id),
    ensures
        pending_of(after_publish(after_publish(m, s1), s2), id) == Some(s2),
        pending_of(after_receive(after_publish(after_publish(m, s1), s2), id), id) is None,
{
}

/// Two ticks that both publish give snapshots of the same length, so core
/// index `i` names the same core in both. (A reading comes in a `Vec`, so its
/// length fits a `usize`.)
pub proof fn core_order_stable(
    cores: Option<usize>,
    first: Option<Seq<u32>>,
    second: Option<Seq<u32>>,
)
    requires
        first is Some ==> first.unwrap().len() <= usize::MAX,
        tick_outcome(cores, first) == TickOutcome::Published,
        tick_outcome(cores_after(cores, first), second) == TickOutcome::Published,
    ensures
        first.unwrap().len() == second.unwrap().len(),
        cores_after(cores_after(cores, first), second) == cores_after(cores, first),
{
}

/// A torn-down subscription gets nothing, whichever way its teardown and a
/// publish are ordered: a publish after teardown does not reach it, and a
/// teardown after a publish drops the undelivered snapshot.
pub proof fn torn_down_receives_nothing(m: Slots, id: SubscriptionId, s: Seq<u32>)
    ensures
        !after_publish(after_unsubscribe(m, id), s).contains_key(id),
        pending_of(after_publish(after_unsubscribe(m, id), s), id) is None,
        !after_unsubscribe(after_publish(m, s), id).contains_key(id),
        pending_of(after_unsubscribe(after_publish(m, s), id), id) is None,
{
}

/// A publish with no subscriber keeps nothing: the hub's slots stay empty.
pub proof fn publish_to_nobody_keeps_nothing(m: Slots, s: Seq<u32>)
    requires
        forall|k: SubscriptionId| !m.contains_key(k),
    ensures
        after_publish(m, s) == m,
        after_publish(m, s) == Slots::empty(),
{
    assert(after_publish(m, s) =~= Slots::empty());
    assert(m =~= Slots::empty());
}

} // verus!
