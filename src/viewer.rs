use vstd::prelude::*;

use crate::hub::{after_receive, after_unsubscribe, pending_of, Hub, SubscriptionId};
use crate::snapshot::Snapshot;

verus! {

/// What happened on a viewer's connection since its last step.
#[derive(PartialEq, Eq, Structural, Debug, Clone, Copy)]
pub enum ViewerEvent {
    /// The connection is ready for the next snapshot: just subscribed, woken
    /// by a publish, or done sending the previous one.
    Ready,
    /// Sending to the peer failed.
    SendFailed,
    /// The peer closed the connection.
    PeerClosed,
}

/// What the connection does next.
pub enum ViewerAction {
    /// Send this snapshot to the peer as one message.
    Deliver(Snapshot),
    /// Nothing is pending: wait for the next publish.
    Wait,
    /// The subscription is gone: close the connection.
    Stop,
}

/// One decision of a viewer connection bound to subscription `id`.
///
/// When ready, it takes the pending snapshot from the hub, waits if there is
/// none, and stops if the subscription is no longer active. On a failed send
/// or a closed peer it tears the subscription down and stops.
pub fn viewer_step(hub: &mut Hub, id: SubscriptionId, event: ViewerEvent) -> (r: ViewerAction)
    requires
        old(hub).wf(),
    ensures
        final(hub).wf(),
        final(hub).history() == old(hub).history(),
        final(hub).next_id() == old(hub).next_id(),
        event == ViewerEvent::Ready ==> {
            &&& final(hub).joined() == old(hub).joined()
            &&& final(hub).slots() == after_receive(old(hub).slots(), id)
            &&& match r {
                ViewerAction::Deliver(s) => pending_of(old(hub).slots(), id) == Some(s@),
                ViewerAction::Wait => old(hub).slots().contains_key(id) && pending_of(
                    old(hub).slots(),
                    id,
                ) is None,
                ViewerAction::Stop => !old(hub).slots().contains_key(id),
            }
        },
        event != ViewerEvent::Ready ==> {
            &&& r is Stop
            &&& final(hub).slots() == after_unsubscribe(old(hub).slots(), id)
            &&& final(hub).joined() == old(hub).joined().remove(id)
        },
{
    match event {
        ViewerEvent::Ready => {
            if !hub.is_subscribed(id) {
                proof {
                    assert(after_receive(hub.slots(), id) == hub.slots());
                }
                return ViewerAction::Stop;
            }
            match hub.try_receive(id) {
                Some(s) => ViewerAction::Deliver(s),
                None => ViewerAction::Wait,
            }
        },
        ViewerEvent::SendFailed | ViewerEvent::PeerClosed => {
            hub.unsubscribe(id);
            ViewerAction::Stop
        },
    }
}

} // verus!
