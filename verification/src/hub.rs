use crate::line::{joined, left, said};
use crate::relay::{notified, registered_after};
use crate::session::{fresh, next_state, reaction, ActionView, EventView, Phase, SessionView};
use vstd::prelude::*;

verus! {

/// The relay as a whole, as a plain value: every connection that was ever
/// accepted with the state of its session, the identities that are
/// registered, and for each identity the lines that were offered to its
/// queue, oldest first.
pub struct Hub {
    /// The session of each connection that was accepted, by its identity.
    pub sessions: Map<u64, SessionView>,
    /// The identities that have a queue in the registry.
    pub registered: Set<u64>,
    /// For each identity, the lines offered to its queue so far.
    pub offered: Map<u64, Seq<Seq<char>>>,
}

/// The line that an action hands out, if it hands one out.
pub open spec fn line_of(action: ActionView) -> Seq<char> {
    match action {
        ActionView::Join(text) => text,
        ActionView::Relay(text) => text,
        ActionView::Leave(text) => text,
        _ => Seq::empty(),
    }
}

/// The relay before any connection.
pub open spec fn idle() -> Hub {
    Hub {
        sessions: Map::empty(),
        registered: Set::empty(),
        offered: Map::new(|r: u64| true, |r: u64| Seq::empty()),
    }
}

/// The relay once the connection `identity` has been accepted.
pub open spec fn accept(hub: Hub, identity: u64) -> Hub {
    Hub { sessions: hub.sessions.insert(identity, fresh(identity)), ..hub }
}

/// The relay once the session of `identity` has taken `event` in and the
/// action it asked for has been carried out on the registry.
pub open spec fn advance(hub: Hub, identity: u64, event: EventView) -> Hub {
    let session = hub.sessions[identity];
    let action = reaction(session, event);
    Hub {
        sessions: hub.sessions.insert(identity, next_state(session, event)),
        registered: registered_after(hub.registered, identity, action),
        offered: Map::new(
            |r: u64| true,
            |r: u64|
                if notified(hub.registered, identity, action).contains(r) {
                    hub.offered[r].push(line_of(action))
                } else {
                    hub.offered[r]
                },
        ),
    }
}

/// The relay after a run of steps, each the event of one connection.
pub open spec fn advance_all(hub: Hub, steps: Seq<(u64, EventView)>) -> Hub
    decreases steps.len(),
{
    if steps.len() == 0 {
        hub
    } else {
        advance(advance_all(hub, steps.drop_last()), steps.last().0, steps.last().1)
    }
}

/// What holds of the relay at all times: each session is kept under its own
/// identity, the lines offered are recorded for every identity, and the
/// registered identities are exactly those of the sessions that are Active.
pub open spec fn consistent(hub: Hub) -> bool {
    &&& forall|id: u64| #[trigger]
        hub.sessions.contains_key(id) ==> hub.sessions[id].identity == id
    &&& forall|id: u64| #[trigger]
        hub.registered.contains(id) <==> hub.sessions.contains_key(id) && hub.sessions[id].phase
            == Phase::Active
    &&& forall|id: u64| #[trigger] hub.offered.contains_key(id)
}

/// Every step names a connection that has been accepted.
pub open spec fn known(hub: Hub, steps: Seq<(u64, EventView)>) -> bool {
    forall|i: int| 0 <= i < steps.len() ==> hub.sessions.contains_key((#[trigger] steps[i]).0)
}

/// The relay starts out consistent.
pub proof fn law_idle_is_consistent()
    ensures
        consistent(idle()),
{
}

/// Accepting a connection under an identity that no session has keeps the
/// relay consistent, registers nobody and offers nothing.
pub proof fn law_accept_keeps_consistency(hub: Hub, identity: u64)
    requires
        consistent(hub),
        !hub.sessions.contains_key(identity),
    ensures
        consistent(accept(hub, identity)),
        accept(hub, identity).registered == hub.registered,
        accept(hub, identity).offered == hub.offered,
{
}

/// Whatever happens to an accepted connection, the relay stays consistent:
/// the registry holds exactly the Active sessions, before and after.
pub proof fn law_advance_keeps_consistency(hub: Hub, identity: u64, event: EventView)
    requires
        consistent(hub),
        hub.sessions.contains_key(identity),
    ensures
        consistent(advance(hub, identity, event)),
        advance(hub, identity, event).sessions.dom() == hub.sessions.dom(),
{
    let after = advance(hub, identity, event);
    assert(after.sessions.dom() =~= hub.sessions.dom());
    assert forall|id: u64| #[trigger]
        after.registered.contains(id) <==> after.sessions.contains_key(id)
            && after.sessions[id].phase == Phase::Active by {
        if id != identity {
            assert(hub.registered.contains(id) <==> hub.sessions.contains_key(id)
                && hub.sessions[id].phase == Phase::Active);
        } else {
            assert(hub.registered.contains(identity) <==> hub.sessions[identity].phase
                == Phase::Active);
        }
    }
}

/// A run of steps on accepted connections keeps the relay consistent and
/// accepts nobody.
pub proof fn law_run_keeps_consistency(hub: Hub, steps: Seq<(u64, EventView)>)
    requires
        consistent(hub),
        known(hub, steps),
    ensures
        consistent(advance_all(hub, steps)),
        advance_all(hub, steps).sessions.dom() == hub.sessions.dom(),
    decreases steps.len(),
{
    if steps.len() > 0 {
        let front = steps.drop_last();
        assert forall|i: int| 0 <= i < front.len() implies hub.sessions.contains_key(
            (#[trigger] front[i]).0,
        ) by {
            assert(front[i] == steps[i]);
        }
        law_run_keeps_consistency(hub, front);
        let before = advance_all(hub, front);
        assert(hub.sessions.contains_key(steps[steps.len() - 1].0));
        law_advance_keeps_consistency(before, steps.last().0, steps.last().1);
    }
}

/// A chat line of an Active session is offered, under the sender's display
/// name and otherwise as it was sent, to each other registered identity once
/// and to nobody else: not to the sender, and not to the unregistered. Of
/// `n` registered identities, `n - 1` are offered it.
pub proof fn law_chat_line_reaches_the_others(hub: Hub, sender: u64, body: Seq<char>)
    requires
        consistent(hub),
        hub.sessions.contains_key(sender),
        hub.sessions[sender].phase == Phase::Active,
    ensures
        reaction(hub.sessions[sender], EventView::Line(body)) == ActionView::Relay(
            said(hub.sessions[sender].name, body),
        ),
        advance(hub, sender, EventView::Line(body)).registered == hub.registered,
        forall|r: u64|
            hub.registered.contains(r) && r != sender ==> (#[trigger] advance(
                hub,
                sender,
                EventView::Line(body),
            ).offered[r]) == hub.offered[r].push(said(hub.sessions[sender].name, body)),
        forall|r: u64|
            !hub.registered.contains(r) || r == sender ==> (#[trigger] advance(
                hub,
                sender,
                EventView::Line(body),
            ).offered[r]) == hub.offered[r],
        hub.registered.finite() ==> notified(
            hub.registered,
            sender,
            ActionView::Relay(said(hub.sessions[sender].name, body)),
        ).len() == hub.registered.len() - 1,
{
}

/// When a session gives its display name, it is registered, and each
/// identity that was registered before is offered the join notice once;
/// the session itself is offered nothing.
pub proof fn law_join_is_announced_to_the_others(hub: Hub, joiner: u64, name: Seq<char>)
    requires
        consistent(hub),
        hub.sessions.contains_key(joiner),
        hub.sessions[joiner].phase == Phase::Authenticating,
    ensures
        reaction(hub.sessions[joiner], EventView::Line(name)) == ActionView::Join(joined(name)),
        advance(hub, joiner, EventView::Line(name)).registered == hub.registered.insert(joiner),
        advance(hub, joiner, EventView::Line(name)).sessions[joiner].name == name,
        forall|r: u64|
            hub.registered.contains(r) ==> (#[trigger] advance(
                hub,
                joiner,
                EventView::Line(name),
            ).offered[r]) == hub.offered[r].push(joined(name)),
        forall|r: u64|
            !hub.registered.contains(r) ==> (#[trigger] advance(
                hub,
                joiner,
                EventView::Line(name),
            ).offered[r]) == hub.offered[r],
        !hub.registered.contains(joiner),
{
}

/// When the stream of an Active session ends, or a write to it fails, the
/// session is taken out of the registry and each identity that remains is
/// offered the leave notice once, whatever the session did before; the
/// session itself is offered nothing.
pub proof fn law_leave_is_announced_to_the_rest(hub: Hub, leaver: u64, event: EventView)
    requires
        consistent(hub),
        hub.sessions.contains_key(leaver),
        hub.sessions[leaver].phase == Phase::Active,
        event is Ended || event is WriteFailed,
    ensures
        reaction(hub.sessions[leaver], event) == ActionView::Leave(
            left(hub.sessions[leaver].name),
        ),
        advance(hub, leaver, event).registered == hub.registered.remove(leaver),
        forall|r: u64|
            hub.registered.contains(r) && r != leaver ==> (#[trigger] advance(
                hub,
                leaver,
                event,
            ).offered[r]) == hub.offered[r].push(left(hub.sessions[leaver].name)),
        forall|r: u64|
            !hub.registered.contains(r) || r == leaver ==> (#[trigger] advance(
                hub,
                leaver,
                event,
            ).offered[r]) == hub.offered[r],
{
}

/// The steps in which the connection `identity` meets `events`, one after
/// the other.
pub open spec fn steps_of(identity: u64, events: Seq<EventView>) -> Seq<(u64, EventView)> {
    events.map_values(|event: EventView| (identity, event))
}

/// A session that has no display name yet, and meets no line, stays out of the
/// registry and has nothing offered to anyone; so a connection that ends,
/// fails or sends what does not decode before it gave a name is never
/// registered and is announced neither as joined nor as left.
pub proof fn law_unnamed_session_is_silent(hub: Hub, identity: u64, events: Seq<EventView>)
    requires
        consistent(hub),
        hub.sessions.contains_key(identity),
        hub.sessions[identity].phase == Phase::Connecting || hub.sessions[identity].phase
            == Phase::Authenticating,
        forall|i: int| 0 <= i < events.len() ==> !((#[trigger] events[i]) is Line),
    ensures
        advance_all(hub, steps_of(identity, events)).registered == hub.registered,
        advance_all(hub, steps_of(identity, events)).offered == hub.offered,
        !advance_all(hub, steps_of(identity, events)).registered.contains(identity),
        ({
            let phase = advance_all(hub, steps_of(identity, events)).sessions[identity].phase;
            phase == Phase::Connecting || phase == Phase::Authenticating || phase == Phase::Closed
        }),
    decreases events.len(),
{
    let steps = steps_of(identity, events);
    if events.len() > 0 {
        let front = events.drop_last();
        assert forall|i: int| 0 <= i < front.len() implies !((#[trigger] front[i]) is Line) by {
            assert(front[i] == events[i]);
        }
        law_unnamed_session_is_silent(hub, identity, front);
        assert(steps.drop_last() =~= steps_of(identity, front));
        assert(steps.last() == (identity, events.last()));
        assert(!(events[events.len() - 1] is Line));
        let before = advance_all(hub, steps_of(identity, front));
        let after = advance(before, identity, events.last());
        assert(after.offered =~= before.offered);
    }
}

/// A session whose run is over meets nothing that would bring it back: it
/// stays out of the registry and nothing more is offered to anyone on its
/// account. So it is announced as gone no more than once.
pub proof fn law_departed_session_is_silent(hub: Hub, identity: u64, events: Seq<EventView>)
    requires
        consistent(hub),
        hub.sessions.contains_key(identity),
        hub.sessions[identity].phase == Phase::Draining || hub.sessions[identity].phase
            == Phase::Closed,
    ensures
        advance_all(hub, steps_of(identity, events)).registered == hub.registered,
        advance_all(hub, steps_of(identity, events)).offered == hub.offered,
        !advance_all(hub, steps_of(identity, events)).registered.contains(identity),
        ({
            let phase = advance_all(hub, steps_of(identity, events)).sessions[identity].phase;
            phase == Phase::Draining || phase == Phase::Closed
        }),
    decreases events.len(),
{
    let steps = steps_of(identity, events);
    if events.len() > 0 {
        let front = events.drop_last();
        law_departed_session_is_silent(hub, identity, front);
        assert(steps.drop_last() =~= steps_of(identity, front));
        assert(steps.last() == (identity, events.last()));
        let before = advance_all(hub, steps_of(identity, front));
        let after = advance(before, identity, events.last());
        assert(after.offered =~= before.offered);
    }
}

/// A step offers lines to registered identities only, and never to the
/// connection that took the step: no session is sent its own notice or its
/// own chat line, and a queue that has left the registry is not written to.
pub proof fn law_only_the_other_registered_are_offered(
    hub: Hub,
    identity: u64,
    event: EventView,
    recipient: u64,
)
    requires
        consistent(hub),
        hub.sessions.contains_key(identity),
        !hub.registered.contains(recipient) || recipient == identity,
    ensures
        advance(hub, identity, event).offered[recipient] == hub.offered[recipient],
{
}

/// The place of a phase in the order in which a session goes through them.
pub open spec fn rank(phase: Phase) -> int {
    match phase {
        Phase::Connecting => 0,
        Phase::Authenticating => 1,
        Phase::Active => 2,
        Phase::Draining => 3,
        Phase::Closed => 4,
    }
}

/// A session never goes back to an earlier phase, and while it is Active its
/// display name stays what it was.
pub proof fn law_sessions_only_move_on(hub: Hub, steps: Seq<(u64, EventView)>, identity: u64)
    requires
        hub.sessions.contains_key(identity),
    ensures
        advance_all(hub, steps).sessions.contains_key(identity),
        rank(hub.sessions[identity].phase) <= rank(
            advance_all(hub, steps).sessions[identity].phase,
        ),
        hub.sessions[identity].phase == Phase::Active && advance_all(
            hub,
            steps,
        ).sessions[identity].phase == Phase::Active ==> advance_all(
            hub,
            steps,
        ).sessions[identity].name == hub.sessions[identity].name,
    decreases steps.len(),
{
    if steps.len() > 0 {
        law_sessions_only_move_on(hub, steps.drop_last(), identity);
    }
}

/// What was offered to a queue stays offered, in its place: a step only
/// adds lines behind those that are there.
pub proof fn law_offers_only_grow(hub: Hub, steps: Seq<(u64, EventView)>, recipient: u64)
    requires
        hub.offered.contains_key(recipient),
    ensures
        advance_all(hub, steps).offered.contains_key(recipient),
        hub.offered[recipient].is_prefix_of(advance_all(hub, steps).offered[recipient]),
    decreases steps.len(),
{
    if steps.len() > 0 {
        law_offers_only_grow(hub, steps.drop_last(), recipient);
    }
}

/// Two chat lines of one sender reach a recipient in the order in which they
/// were sent, whatever else happens in between: where a session that is
/// Active sends `first`, any run of steps follows, and the session, still
/// Active, sends `second`, a recipient that is registered at both times is
/// offered `first` before `second`.
pub proof fn law_sender_order_is_kept(
    hub: Hub,
    sender: u64,
    first: Seq<char>,
    between: Seq<(u64, EventView)>,
    second: Seq<char>,
    recipient: u64,
)
    requires
        consistent(hub),
        hub.sessions.contains_key(sender),
        hub.sessions[sender].phase == Phase::Active,
        known(hub, between),
        recipient != sender,
        hub.registered.contains(recipient),
        advance_all(advance(hub, sender, EventView::Line(first)), between).sessions[sender].phase
            == Phase::Active,
        advance_all(advance(hub, sender, EventView::Line(first)), between).registered.contains(
            recipient,
        ),
    ensures
        ({
            let name = hub.sessions[sender].name;
            let sent_first = advance(hub, sender, EventView::Line(first));
            let later = advance_all(sent_first, between);
            let sent_second = advance(later, sender, EventView::Line(second));
            let inbox = sent_second.offered[recipient];
            let i = hub.offered[recipient].len() as int;
            let j = inbox.len() - 1;
            &&& 0 <= i < j
            &&& inbox[i] == said(name, first)
            &&& inbox[j] == said(name, second)
        }),
{
    let name = hub.sessions[sender].name;
    let sent_first = advance(hub, sender, EventView::Line(first));
    let later = advance_all(sent_first, between);
    let sent_second = advance(later, sender, EventView::Line(second));
    law_advance_keeps_consistency(hub, sender, EventView::Line(first));
    assert(known(sent_first, between)) by {
        assert forall|i: int| 0 <= i < between.len() implies sent_first.sessions.contains_key(
            (#[trigger] between[i]).0,
        ) by {
            assert(hub.sessions.contains_key(between[i].0));
        }
    }
    law_run_keeps_consistency(sent_first, between);
    law_sessions_only_move_on(sent_first, between, sender);
    law_offers_only_grow(sent_first, between, recipient);
    assert(sent_first.offered[recipient] == hub.offered[recipient].push(said(name, first)));
    assert(later.sessions[sender].name == name);
    assert(sent_second.offered[recipient] == later.offered[recipient].push(said(name, second)));
    let i = hub.offered[recipient].len() as int;
    assert(sent_first.offered[recipient][i] == said(name, first));
    assert(later.offered[recipient][i] == sent_first.offered[recipient][i]);
}

} // verus!
