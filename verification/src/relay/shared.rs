//! What holds of a relay that many connections share, in whatever order their
//! steps fall.

use vstd::prelude::*;

use crate::rate_limit::law_limiter_stays_well_formed;
use crate::relay::pump::{next, opened, RelayEventView, SessionState};
use crate::relay::RelayState;

verus! {

/// A relay and all sessions that it has opened, in the order they were opened.
#[verifier::ext_equal]
pub struct SharedState {
    pub relay: RelayState,
    pub sessions: Seq<SessionState>,
}

/// What can be done to a shared relay.
pub enum SharedEvent {
    /// A connection of `peer` is accepted.
    Opened { peer: Seq<char>, started: i64 },
    /// The session opened as number `session` learns of an event.
    Told { session: int, event: RelayEventView },
    /// The limiter is given the trust store's budget of `node`.
    Synced { node: Seq<char>, now: i64 },
}

/// A shared relay after one event. There is no telling a session that was not
/// opened.
pub open spec fn shared_next(shared: SharedState, event: SharedEvent) -> SharedState {
    match event {
        SharedEvent::Opened { peer, started } => {
            let start = opened(shared.relay, peer, started);
            SharedState { relay: start.relay, sessions: shared.sessions.push(start.session) }
        },
        SharedEvent::Told { session, event } => if 0 <= session < shared.sessions.len() {
            let after = next(shared.relay, shared.sessions[session], event);
            SharedState {
                relay: after.relay,
                sessions: shared.sessions.update(session, after.session),
            }
        } else {
            shared
        },
        SharedEvent::Synced { node, now } => SharedState {
            relay: shared.relay.synced(node, now),
            ..shared
        },
    }
}

/// A shared relay after a series of events.
pub open spec fn shared_run(start: SharedState, events: Seq<SharedEvent>) -> SharedState
    decreases events.len(),
{
    if events.len() == 0 {
        start
    } else {
        shared_next(shared_run(start, events.drop_last()), events.last())
    }
}

/// How many of the sessions are not over.
pub open spec fn unfinished(sessions: Seq<SessionState>) -> nat
    decreases sessions.len(),
{
    if sessions.len() == 0 {
        0
    } else {
        unfinished(sessions.drop_last()) + if sessions.last().phase is Done {
            0nat
        } else {
            1nat
        }
    }
}

/// Whether the relay's counter shows the number of sessions that are not over,
/// in the counter's wrapping arithmetic.
pub open spec fn counted(shared: SharedState) -> bool {
    shared.relay.active_sessions == unfinished(shared.sessions) % 0x1_0000_0000_0000_0000
}

/// Whether an event can touch the budget of `node`.
pub open spec fn concerns(shared: SharedState, event: SharedEvent, node: Seq<char>) -> bool {
    match event {
        SharedEvent::Opened { peer, .. } => peer == node,
        SharedEvent::Told { session, .. } => 0 <= session < shared.sessions.len()
            && shared.sessions[session].peer == node,
        SharedEvent::Synced { node: synced, .. } => synced == node,
    }
}

/// Law: a step of a session counts the session off the relay when it ends it,
/// and leaves the counter alone otherwise. Whatever the state of the relay, the
/// step changes no trust entry, no default budget, no bucket but that of the
/// session's own peer, and not whose session it is.
pub proof fn law_steps_are_local(
    relay: RelayState,
    session: SessionState,
    event: RelayEventView,
    other: Seq<char>,
)
    requires
        other != session.peer,
    ensures
        ({
            let after = next(relay, session, event);
            &&& after.relay.active_sessions == if !(session.phase is Done)
                && after.session.phase is Done {
                relay.left().active_sessions
            } else {
                relay.active_sessions
            }
            &&& session.phase is Done ==> after.session.phase is Done
            &&& after.session.peer == session.peer
            &&& after.relay.trust == relay.trust
            &&& after.relay.limiter.default_per_min == relay.limiter.default_per_min
            &&& same_bucket(relay, after.relay, other)
        }),
{
}

/// Whether two states of a relay have the same bucket of `node`, or both none.
pub open spec fn same_bucket(a: RelayState, b: RelayState, node: Seq<char>) -> bool {
    &&& a.limiter.buckets.contains_key(node) == b.limiter.buckets.contains_key(node)
    &&& a.limiter.buckets.contains_key(node) ==> a.limiter.buckets[node] == b.limiter.buckets[node]
}

/// Law: the relay counts the sessions being handled. In whatever order
/// sessions are opened and go on, the counter shows how many are not over.
pub proof fn law_active_sessions_of_all(start: SharedState, events: Seq<SharedEvent>)
    requires
        counted(start),
    ensures
        counted(shared_run(start, events)),
    decreases events.len(),
{
    if events.len() > 0 {
        law_active_sessions_of_all(start, events.drop_last());
        lemma_step_keeps_count(shared_run(start, events.drop_last()), events.last());
    }
}

proof fn lemma_step_keeps_count(shared: SharedState, event: SharedEvent)
    requires
        counted(shared),
    ensures
        counted(shared_next(shared, event)),
{
    match event {
        SharedEvent::Opened { peer, started } => {
            let session = opened(shared.relay, peer, started).session;
            assert(shared.sessions.push(session).drop_last() =~= shared.sessions);
        },
        SharedEvent::Told { session, event } => {
            if 0 <= session < shared.sessions.len() {
                let before = shared.sessions[session];
                let after = next(shared.relay, before, event).session;
                lemma_unfinished_update(shared.sessions, session, after);
            }
        },
        SharedEvent::Synced { .. } => {},
    }
}

proof fn lemma_unfinished_update(sessions: Seq<SessionState>, at: int, session: SessionState)
    requires
        0 <= at < sessions.len(),
    ensures
        unfinished(sessions.update(at, session)) + (if sessions[at].phase is Done {
            0nat
        } else {
            1nat
        }) == unfinished(sessions) + (if session.phase is Done {
            0nat
        } else {
            1nat
        }),
    decreases sessions.len(),
{
    let updated = sessions.update(at, session);
    if at == sessions.len() - 1 {
        assert(updated.drop_last() =~= sessions.drop_last());
    } else {
        lemma_unfinished_update(sessions.drop_last(), at, session);
        assert(updated.drop_last() =~= sessions.drop_last().update(at, session));
    }
}

/// Law: nodes do not touch each other's budgets. However the sessions of other
/// nodes are interleaved, the bucket of a node that none of the events concerns
/// is as it was, and so are the trust entries.
pub proof fn law_all_sessions_are_isolated(
    start: SharedState,
    events: Seq<SharedEvent>,
    node: Seq<char>,
)
    requires
        forall|i: int|
            0 <= i < events.len() ==> !concerns(
                shared_run(start, events.take(i)),
                #[trigger] events[i],
                node,
            ),
    ensures
        same_bucket(start.relay, shared_run(start, events).relay, node),
        shared_run(start, events).relay.trust == start.relay.trust,
    decreases events.len(),
{
    if events.len() > 0 {
        let earlier = events.drop_last();
        assert forall|i: int| 0 <= i < earlier.len() implies !concerns(
            shared_run(start, earlier.take(i)),
            #[trigger] earlier[i],
            node,
        ) by {
            assert(earlier.take(i) =~= events.take(i));
            assert(earlier[i] == events[i]);
        }
        law_all_sessions_are_isolated(start, earlier, node);
        assert(events.take(events.len() - 1) =~= earlier);
        assert(events[events.len() - 1] == events.last());
    }
}

/// Law: the limiter stays well formed under all sessions together.
pub proof fn law_limiter_survives_all_sessions(start: SharedState, events: Seq<SharedEvent>)
    requires
        start.relay.limiter.wf(),
    ensures
        shared_run(start, events).relay.limiter.wf(),
    decreases events.len(),
{
    if events.len() > 0 {
        law_limiter_survives_all_sessions(start, events.drop_last());
        let before = shared_run(start, events.drop_last());
        let limiter = before.relay.limiter;
        match events.last() {
            SharedEvent::Opened { peer, started } => {
                law_limiter_stays_well_formed(
                    limiter,
                    peer,
                    before.relay.trust[peer].rate_limit_per_min,
                    started,
                );
            },
            SharedEvent::Told { session, event } => {
                if let RelayEventView::Clock(now) = event {
                    law_limiter_stays_well_formed(limiter, before.sessions[session].peer, 0, now);
                }
            },
            SharedEvent::Synced { node, now } => {
                law_limiter_stays_well_formed(
                    limiter,
                    node,
                    before.relay.trust[node].rate_limit_per_min,
                    now,
                );
            },
        }
    }
}

} // verus!
