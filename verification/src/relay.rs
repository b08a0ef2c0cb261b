use crate::registry::{targets, Delivery, Shared};
use crate::session::{Action, ActionView};
use tokio::sync::mpsc::{unbounded_channel, UnboundedReceiver};
use vstd::prelude::*;

verus! {

/// A connection's own end of its delivery queue.
pub struct Peer {
    /// Yields, in the order of their arrival, the lines that the others
    /// broadcast.
    pub rx: UnboundedReceiver<String>,
}

impl Peer {
    /// Opens a delivery queue for `identity` and enters its producing end in
    /// the registry; the consuming end is handed back. The other entries stay
    /// as they are.
    pub fn new(state: &mut Shared, identity: u64) -> (peer: Peer)
        ensures
            final(state)@.contains_key(identity),
            final(state)@.remove(identity) == old(state)@.remove(identity),
    {
        let (sx, rx) = unbounded_channel();
        state.register(identity, sx);
        assert(state@.remove(identity) =~= old(state)@.remove(identity));
        Peer { rx }
    }
}

/// The identities that are registered once `action` has been carried out for
/// `identity`.
pub open spec fn registered_after(registered: Set<u64>, identity: u64, action: ActionView) -> Set<
    u64,
> {
    match action {
        ActionView::Join(_) => registered.insert(identity),
        ActionView::Leave(_) => registered.remove(identity),
        _ => registered,
    }
}

/// The identities whose queues are offered a line when `action` is carried
/// out for `identity`.
pub open spec fn notified(registered: Set<u64>, identity: u64, action: ActionView) -> Set<u64> {
    match action {
        ActionView::Join(_) | ActionView::Relay(_) | ActionView::Leave(_) => registered.remove(
            identity,
        ),
        _ => Set::empty(),
    }
}

/// What carrying out an action on the registry gave.
pub struct Outcome {
    /// The connection's own queue end, where the action opened one.
    pub peer: Option<Peer>,
    /// The attempts to hand out the action's line, one for each identity
    /// that was offered it.
    pub report: Vec<Delivery>,
}

/// Carries out the registry's part of `action` for the connection
/// `identity`: a join registers a new queue and then announces, a relay
/// broadcasts, a leave removes and then announces. Any other action leaves
/// the registry alone.
pub fn perform(state: &mut Shared, identity: u64, action: &Action) -> (outcome: Outcome)
    ensures
        final(state)@.dom() == registered_after(old(state)@.dom(), identity, action@),
        final(state)@.remove(identity) == old(state)@.remove(identity),
        !(action@ is Join) && !(action@ is Leave) ==> final(state)@ == old(state)@,
        outcome.peer is Some <==> action@ is Join,
        targets(outcome.report@).no_duplicates(),
        targets(outcome.report@).to_set() == notified(old(state)@.dom(), identity, action@),
        outcome.report@.len() == notified(old(state)@.dom(), identity, action@).len(),
{
    match action {
        Action::Join(notice) => {
            let peer = Peer::new(state, identity);
            let report = state.broadcast(identity, notice.as_str());
            proof {
                assert(state@.dom() =~= old(state)@.dom().insert(identity)) by {
                    assert forall|k: u64| state@.dom().contains(k) <==> old(state)@.dom().insert(
                        identity,
                    ).contains(k) by {
                        if k != identity {
                            assert(state@.remove(identity).contains_key(k) <==> old(
                                state,
                            )@.remove(identity).contains_key(k));
                        }
                    }
                }
                assert(state@.dom().remove(identity) =~= old(state)@.dom().remove(identity));
            }
            Outcome { peer: Some(peer), report }
        },
        Action::Relay(line) => {
            let report = state.broadcast(identity, line.as_str());
            Outcome { peer: None, report }
        },
        Action::Leave(notice) => {
            state.remove(identity);
            let report = state.broadcast(identity, notice.as_str());
            proof {
                assert(state@.dom().remove(identity) =~= old(state)@.dom().remove(identity));
                assert(state@.remove(identity) =~= old(state)@.remove(identity));
            }
            Outcome { peer: None, report }
        },
        _ => {
            let report: Vec<Delivery> = Vec::new();
            assert(targets(report@).to_set() =~= Set::<u64>::empty());
            Outcome { peer: None, report }
        },
    }
}

} // verus!
