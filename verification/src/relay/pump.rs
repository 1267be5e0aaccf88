//! One relayed connection, step by step.
//!
//! A [`RelaySession`] is the state of one connection. The relay opens it, then
//! answers each [`RelayEvent`], which is what came of the last thing it asked
//! for, with the next [`RelayAction`], until the action is to finish. Whoever
//! drives a session performs the actions: reads the clock, reads from the
//! peer, writes upstream.

use vstd::prelude::*;
use vstd::slice::slice_subrange;

use crate::node::NodeId;
use crate::rate_limit::law_limiter_stays_well_formed;
use crate::relay::stream::{state_of, ByteStream, StreamState};
use crate::relay::{
    ConnectionLog, ConnectionLogView, ConnectionOutcome, ConnectionOutcomeView, Relay, RelayError,
    RelayState,
};

verus! {

/// Bytes that the relay reads at a time.
pub const CHUNK_LEN: usize = 8192;

/// Where a session stands: what it is waiting for.
#[derive(Debug)]
pub enum SessionPhase {
    /// For the time, to charge the connection itself.
    Admission,
    /// For bytes of the peer.
    Reading,
    /// For the time, to charge a chunk of this many bytes.
    Charging(usize),
    /// For a chunk of this many bytes to be written upstream.
    Writing(usize),
    /// For the time, to sum up the connection.
    Closing(ConnectionOutcome),
    /// For nothing more.
    Done,
}

/// The content of a [`SessionPhase`].
#[verifier::ext_equal]
pub enum SessionPhaseView {
    Admission,
    Reading,
    Charging(usize),
    Writing(usize),
    Closing(ConnectionOutcomeView),
    Done,
}

impl View for SessionPhase {
    type V = SessionPhaseView;

    open spec fn view(&self) -> SessionPhaseView {
        match *self {
            SessionPhase::Admission => SessionPhaseView::Admission,
            SessionPhase::Reading => SessionPhaseView::Reading,
            SessionPhase::Charging(n) => SessionPhaseView::Charging(n),
            SessionPhase::Writing(n) => SessionPhaseView::Writing(n),
            SessionPhase::Closing(outcome) => SessionPhaseView::Closing(outcome@),
            SessionPhase::Done => SessionPhaseView::Done,
        }
    }
}

/// The state of one relayed connection.
#[derive(Debug)]
pub struct RelaySession {
    peer: NodeId,
    started_at_unix: i64,
    bytes_in: u64,
    bytes_out: u64,
    phase: SessionPhase,
}

/// The content of a [`RelaySession`].
#[verifier::ext_equal]
pub struct SessionState {
    pub peer: Seq<char>,
    pub started_at_unix: i64,
    pub bytes_in: u64,
    pub bytes_out: u64,
    pub phase: SessionPhaseView,
}

impl View for RelaySession {
    type V = SessionState;

    closed spec fn view(&self) -> SessionState {
        SessionState {
            peer: self.peer@,
            started_at_unix: self.started_at_unix,
            bytes_in: self.bytes_in,
            bytes_out: self.bytes_out,
            phase: self.phase@,
        }
    }
}

impl SessionState {
    /// What every session satisfies: what went out came in before, and is
    /// short of it by the chunk in hand at most, and by nothing if the
    /// connection closed in order.
    pub open spec fn wf(self) -> bool {
        match self.phase {
            SessionPhaseView::Admission => self.bytes_in == 0 && self.bytes_out == 0,
            SessionPhaseView::Reading => self.bytes_in == self.bytes_out,
            SessionPhaseView::Charging(n) => self.bytes_in == self.bytes_out + n,
            SessionPhaseView::Writing(n) => self.bytes_in == self.bytes_out + n,
            SessionPhaseView::Closing(ConnectionOutcomeView::Closed) => self.bytes_in
                == self.bytes_out,
            SessionPhaseView::Closing(_) => self.bytes_out <= self.bytes_in,
            SessionPhaseView::Done => self.bytes_out <= self.bytes_in,
        }
    }

    /// The same session in another phase.
    pub open spec fn at(self, phase: SessionPhaseView) -> SessionState {
        SessionState { phase, ..self }
    }

    /// The log of the session.
    pub open spec fn log(
        self,
        duration_ms: u64,
        outcome: ConnectionOutcomeView,
    ) -> ConnectionLogView {
        ConnectionLogView {
            src_node: self.peer,
            dst_node: None,
            bytes_in: self.bytes_in,
            bytes_out: self.bytes_out,
            started_at_unix: self.started_at_unix,
            duration_ms,
            outcome,
        }
    }

    /// What the session is waiting for.
    pub open spec fn pending(self) -> RelayActionView {
        match self.phase {
            SessionPhaseView::Admission => RelayActionView::ReadClock,
            SessionPhaseView::Reading => RelayActionView::Read,
            SessionPhaseView::Charging(_) => RelayActionView::ReadClock,
            SessionPhaseView::Writing(n) => RelayActionView::Write(n),
            SessionPhaseView::Closing(_) => RelayActionView::ReadClock,
            SessionPhaseView::Done => RelayActionView::Idle,
        }
    }
}

/// What came of an action.
#[derive(Debug)]
pub enum RelayEvent {
    /// The time, in nanoseconds since the Unix epoch.
    Clock(i64),
    /// How many bytes were read, zero at the end of the stream, or the text of
    /// the error.
    Read(Result<usize, String>),
    /// That the chunk was written, or the text of the error.
    Written(Result<(), String>),
}

/// The content of a [`RelayEvent`].
#[verifier::ext_equal]
pub enum RelayEventView {
    Clock(i64),
    Read(Result<usize, Seq<char>>),
    Written(Result<(), Seq<char>>),
}

impl View for RelayEvent {
    type V = RelayEventView;

    open spec fn view(&self) -> RelayEventView {
        match *self {
            RelayEvent::Clock(now) => RelayEventView::Clock(now),
            RelayEvent::Read(Ok(n)) => RelayEventView::Read(Ok(n)),
            RelayEvent::Read(Err(text)) => RelayEventView::Read(Err(text@)),
            RelayEvent::Written(Ok(_)) => RelayEventView::Written(Ok(())),
            RelayEvent::Written(Err(text)) => RelayEventView::Written(Err(text@)),
        }
    }
}

/// What a session asks for next.
#[derive(Debug)]
pub enum RelayAction {
    /// Read the clock.
    ReadClock,
    /// Read a chunk of the peer's bytes.
    Read,
    /// Write this many bytes of the chunk upstream.
    Write(usize),
    /// Nothing: the connection is over, and this is its log.
    Finish(ConnectionLog),
    /// Nothing: the connection was over before.
    Idle,
}

/// The content of a [`RelayAction`].
#[verifier::ext_equal]
pub enum RelayActionView {
    ReadClock,
    Read,
    Write(usize),
    Finish(ConnectionLogView),
    Idle,
}

impl View for RelayAction {
    type V = RelayActionView;

    open spec fn view(&self) -> RelayActionView {
        match *self {
            RelayAction::ReadClock => RelayActionView::ReadClock,
            RelayAction::Read => RelayActionView::Read,
            RelayAction::Write(n) => RelayActionView::Write(n),
            RelayAction::Finish(log) => RelayActionView::Finish(log@),
            RelayAction::Idle => RelayActionView::Idle,
        }
    }
}

/// Whole milliseconds from one time to a later one, zero if it is not later.
/// Times are in nanoseconds; what is between two of them counts as the earlier.
pub open spec fn millis_between(started: i64, ended: i64) -> u64 {
    if ended <= started {
        0
    } else {
        ((ended - started) / 1_000_000) as u64
    }
}

/// A relay, one of its sessions, and what that session asks for.
#[verifier::ext_equal]
pub struct RunState {
    pub relay: RelayState,
    pub session: SessionState,
    pub action: RelayActionView,
}

/// The log of a connection of a peer that is not trusted.
pub open spec fn turned_away(peer: Seq<char>, started: i64) -> ConnectionLogView {
    ConnectionLogView {
        src_node: peer,
        dst_node: None,
        bytes_in: 0,
        bytes_out: 0,
        started_at_unix: started,
        duration_ms: 0,
        outcome: ConnectionOutcomeView::TrustRejected,
    }
}

/// A connection of `peer` that has just been accepted: turned away if the peer
/// is not trusted, else given the budget that the trust store grants it.
pub open spec fn opened(relay: RelayState, peer: Seq<char>, started: i64) -> RunState {
    let session = SessionState {
        peer,
        started_at_unix: started,
        bytes_in: 0,
        bytes_out: 0,
        phase: SessionPhaseView::Admission,
    };
    if relay.trust.contains_key(peer) {
        RunState {
            relay: relay.entered().synced(peer, started),
            session,
            action: RelayActionView::ReadClock,
        }
    } else {
        RunState {
            relay: relay.entered().left(),
            session: session.at(SessionPhaseView::Done),
            action: RelayActionView::Finish(turned_away(peer, started)),
        }
    }
}

/// How a session goes on after an event. An event that it is not waiting for
/// changes nothing.
pub open spec fn next(relay: RelayState, session: SessionState, event: RelayEventView) -> RunState {
    let (relay, session, finish) = match (session.phase, event) {
        (SessionPhaseView::Admission, RelayEventView::Clock(now)) => {
            let charged = relay.charged(session.peer, now);
            if relay.limiter.allows(session.peer, now) {
                (charged, session.at(SessionPhaseView::Reading), None)
            } else {
                (
                    charged.left(),
                    session.at(SessionPhaseView::Done),
                    Some(session.log(0, ConnectionOutcomeView::RateLimited)),
                )
            }
        },
        (SessionPhaseView::Reading, RelayEventView::Read(Ok(n))) => if n == 0 {
            (relay, session.at(SessionPhaseView::Closing(ConnectionOutcomeView::Closed)), None)
        } else {
            (
                relay,
                SessionState {
                    bytes_in: (session.bytes_in + n) as u64,
                    phase: SessionPhaseView::Charging(n),
                    ..session
                },
                None,
            )
        },
        (SessionPhaseView::Reading, RelayEventView::Read(Err(text))) => (
            relay,
            session.at(SessionPhaseView::Closing(ConnectionOutcomeView::Error(text))),
            None,
        ),
        (SessionPhaseView::Charging(n), RelayEventView::Clock(now)) => {
            let charged = relay.charged(session.peer, now);
            if relay.limiter.allows(session.peer, now) {
                (charged, session.at(SessionPhaseView::Writing(n)), None)
            } else {
                (
                    charged,
                    session.at(SessionPhaseView::Closing(ConnectionOutcomeView::RateLimited)),
                    None,
                )
            }
        },
        (SessionPhaseView::Writing(n), RelayEventView::Written(Ok(_))) => (
            relay,
            SessionState {
                bytes_out: (session.bytes_out + n) as u64,
                phase: SessionPhaseView::Reading,
                ..session
            },
            None,
        ),
        (SessionPhaseView::Writing(_), RelayEventView::Written(Err(text))) => (
            relay,
            session.at(SessionPhaseView::Closing(ConnectionOutcomeView::Error(text))),
            None,
        ),
        (SessionPhaseView::Closing(outcome), RelayEventView::Clock(ended)) => (
            relay.left(),
            session.at(SessionPhaseView::Done),
            Some(session.log(millis_between(session.started_at_unix, ended), outcome)),
        ),
        _ => (relay, session, None),
    };
    RunState {
        relay,
        session,
        action: match finish {
            Some(log) => RelayActionView::Finish(log),
            None => session.pending(),
        },
    }
}

impl RelaySession {
    #[verifier::type_invariant]
    spec fn type_wf(self) -> bool {
        self@.wf()
    }

    /// What the session is waiting for.
    fn pending_action(&self) -> (action: RelayAction)
        ensures
            action@ == self@.pending(),
    {
        match &self.phase {
            SessionPhase::Admission => RelayAction::ReadClock,
            SessionPhase::Reading => RelayAction::Read,
            SessionPhase::Charging(_) => RelayAction::ReadClock,
            SessionPhase::Writing(n) => RelayAction::Write(*n),
            SessionPhase::Closing(_) => RelayAction::ReadClock,
            SessionPhase::Done => RelayAction::Idle,
        }
    }

    /// The log of the session.
    fn to_log(&self, duration_ms: u64, outcome: ConnectionOutcome) -> (log: ConnectionLog)
        ensures
            log@ == self@.log(duration_ms, outcome@),
    {
        ConnectionLog {
            src_node: self.peer.clone(),
            dst_node: None,
            bytes_in: self.bytes_in,
            bytes_out: self.bytes_out,
            started_at_unix: self.started_at_unix,
            duration_ms,
            outcome,
        }
    }

    /// The same session in another phase.
    fn into_phase(self, phase: SessionPhase) -> (session: Self)
        requires
            self@.at(phase@).wf(),
        ensures
            session@ == self@.at(phase@),
    {
        RelaySession {
            peer: self.peer,
            started_at_unix: self.started_at_unix,
            bytes_in: self.bytes_in,
            bytes_out: self.bytes_out,
            phase,
        }
    }
}

/// Whole milliseconds from one time to a later one, zero if it is not later.
fn elapsed_millis(started: i64, ended: i64) -> (millis: u64)
    ensures
        millis == millis_between(started, ended),
{
    if ended <= started {
        0
    } else {
        ((ended as i128 - started as i128) / 1_000_000) as u64
    }
}

impl Relay {
    /// Open a session for an accepted connection of `peer`. `started_at_unix`
    /// is when it was accepted.
    pub fn open_session(&mut self, peer: NodeId, started_at_unix: i64) -> (opening: (
        RelaySession,
        RelayAction,
    ))
        ensures
            ({
                let start = opened(old(self)@, peer@, started_at_unix);
                &&& final(self)@ == start.relay
                &&& opening.0@ == start.session
                &&& opening.1@ == start.action
            }),
            opening.0@.wf(),
            final(self).same_setup(*old(self)),
    {
        self.enter();
        let session = RelaySession {
            peer,
            started_at_unix,
            bytes_in: 0,
            bytes_out: 0,
            phase: SessionPhase::Admission,
        };
        if !self.trusts(&session.peer) {
            self.leave();
            let log = session.to_log(0, ConnectionOutcome::TrustRejected);
            return (session.into_phase(SessionPhase::Done), RelayAction::Finish(log));
        }
        self.sync_node_limit(&session.peer, started_at_unix);
        (session, RelayAction::ReadClock)
    }

    /// Tell a session what came of its last action, and learn its next.
    ///
    /// The bytes of one connection must not exceed the range of the counters.
    pub fn step(&mut self, session: RelaySession, event: RelayEvent) -> (step: (
        RelaySession,
        RelayAction,
    ))
        requires
            event matches RelayEvent::Read(Ok(n)) ==> session@.bytes_in + n <= u64::MAX,
        ensures
            ({
                let after = next(old(self)@, session@, event@);
                &&& final(self)@ == after.relay
                &&& step.0@ == after.session
                &&& step.1@ == after.action
            }),
            step.0@.wf(),
            final(self).same_setup(*old(self)),
    {
        proof {
            use_type_invariant(&session);
        }
        let mut finish: Option<ConnectionLog> = None;
        let session = match (&session.phase, event) {
            (SessionPhase::Admission, RelayEvent::Clock(now)) => {
                if self.charge(&session.peer, now) {
                    session.into_phase(SessionPhase::Reading)
                } else {
                    self.leave();
                    finish = Some(session.to_log(0, ConnectionOutcome::RateLimited));
                    session.into_phase(SessionPhase::Done)
                }
            },
            (SessionPhase::Reading, RelayEvent::Read(Ok(n))) => {
                if n == 0 {
                    session.into_phase(SessionPhase::Closing(ConnectionOutcome::Closed))
                } else {
                    RelaySession {
                        peer: session.peer,
                        started_at_unix: session.started_at_unix,
                        bytes_in: session.bytes_in + n as u64,
                        bytes_out: session.bytes_out,
                        phase: SessionPhase::Charging(n),
                    }
                }
            },
            (SessionPhase::Reading, RelayEvent::Read(Err(text))) => {
                session.into_phase(SessionPhase::Closing(ConnectionOutcome::Error(text)))
            },
            (SessionPhase::Charging(n), RelayEvent::Clock(now)) => {
                let n: usize = *n;
                if self.charge(&session.peer, now) {
                    session.into_phase(SessionPhase::Writing(n))
                } else {
                    session.into_phase(SessionPhase::Closing(ConnectionOutcome::RateLimited))
                }
            },
            (SessionPhase::Writing(n), RelayEvent::Written(Ok(_))) => {
                let n: usize = *n;
                RelaySession {
                    peer: session.peer,
                    started_at_unix: session.started_at_unix,
                    bytes_in: session.bytes_in,
                    bytes_out: session.bytes_out + n as u64,
                    phase: SessionPhase::Reading,
                }
            },
            (SessionPhase::Writing(_), RelayEvent::Written(Err(text))) => {
                session.into_phase(SessionPhase::Closing(ConnectionOutcome::Error(text)))
            },
            (SessionPhase::Closing(outcome), RelayEvent::Clock(ended)) => {
                let duration_ms: u64 = elapsed_millis(session.started_at_unix, ended);
                finish = Some(session.to_log(duration_ms, outcome.clone()));
                self.leave();
                session.into_phase(SessionPhase::Done)
            },
            _ => session,
        };
        proof {
            use_type_invariant(&session);
        }
        let action = match finish {
            Some(log) => RelayAction::Finish(log),
            None => session.pending_action(),
        };
        (session, action)
    }
}

/// How a session goes on after a series of events.
#[verifier::opaque]
pub open spec fn run(start: RunState, events: Seq<RelayEventView>) -> RunState
    decreases events.len(),
{
    if events.len() == 0 {
        start
    } else {
        let before = run(start, events.drop_last());
        next(before.relay, before.session, events.last())
    }
}

/// A stream from which a session has taken `count` bytes, and nothing else
/// was done to it.
pub open spec fn taken_from(before: StreamState, count: int) -> StreamState {
    StreamState { unread: before.unread.skip(count), ..before }
}

/// A stream to which a session has given the first `count` bytes of `payload`,
/// and nothing else was done to it.
pub open spec fn given_to(before: StreamState, payload: Seq<u8>, count: int) -> StreamState {
    StreamState { written: before.written + payload.take(count), ..before }
}

/// What a connection log says of its two streams: `bytes_in` bytes were taken
/// from the front of the incoming one, the first `bytes_out` of them were given
/// to the outgoing one, unchanged and in order, and nothing else was done to
/// either. They differ by one chunk at most, and if the connection closed in
/// order, all there was to read went out.
///
/// After an error this is said of the stream that did not fail: with nothing
/// in hand it was a read that failed, else the write of what was in hand.
pub open spec fn forwarded(
    log: ConnectionLogView,
    incoming_before: StreamState,
    incoming: StreamState,
    outgoing_before: StreamState,
    outgoing: StreamState,
) -> bool {
    let payload = incoming_before.unread;
    &&& log.bytes_out <= log.bytes_in <= payload.len()
    &&& log.bytes_in <= log.bytes_out + CHUNK_LEN
    &&& log.outcome is Closed ==> log.bytes_out == payload.len()
    &&& !(log.outcome is Error && log.bytes_in == log.bytes_out) ==> incoming == taken_from(
        incoming_before,
        log.bytes_in as int,
    )
    &&& !(log.outcome is Error && log.bytes_in != log.bytes_out) ==> outgoing == given_to(
        outgoing_before,
        payload,
        log.bytes_out as int,
    )
}

/// Whether an event is one that a session is waiting for.
pub open spec fn awaited(session: SessionState, event: RelayEventView) -> bool {
    match event {
        RelayEventView::Clock(_) => session.pending() is ReadClock,
        RelayEventView::Read(_) => session.pending() is Read,
        RelayEventView::Written(_) => session.pending() is Write,
    }
}

/// Whether an event can be what came of a session's action, given the clock,
/// the streams, and the bytes that were there to be read.
pub open spec fn may_come<I: ByteStream, O: ByteStream, F: Fn() -> i64>(
    clock: F,
    payload: Seq<u8>,
    session: SessionState,
    event: RelayEventView,
) -> bool {
    awaited(session, event) && match event {
        RelayEventView::Clock(now) => call_ensures(clock, (), now),
        RelayEventView::Read(Ok(n)) => {
            &&& I::may_deliver(
                payload.skip(session.bytes_in as int),
                CHUNK_LEN as nat,
                n as nat,
            )
            &&& n <= CHUNK_LEN
            &&& session.bytes_in + n <= payload.len()
            &&& n == 0 ==> session.bytes_in == payload.len()
        },
        RelayEventView::Read(Err(text)) => I::may_fail_with(text),
        RelayEventView::Written(Ok(_)) => true,
        RelayEventView::Written(Err(text)) => O::may_fail_with(text),
    }
}

/// Whether each of a series of events can be what came of the action before it.
pub open spec fn may_happen<I: ByteStream, O: ByteStream, F: Fn() -> i64>(
    clock: F,
    payload: Seq<u8>,
    start: RunState,
    events: Seq<RelayEventView>,
) -> bool {
    forall|i: int|
        0 <= i < events.len() ==> may_come::<I, O, F>(
            clock,
            payload,
            run(start, events.take(i)).session,
            #[trigger] events[i],
        )
}

impl Relay {
    /// Drive a single accepted connection: turn away peers that are not
    /// trusted, enforce rate limits, pump bytes from `incoming` to `outgoing`,
    /// then return a [`ConnectionLog`].
    ///
    /// `started_at_unix` is when the connection was accepted; `clock` gives the
    /// time, in nanoseconds since the Unix epoch.
    pub fn handle_connection<I: ByteStream, O: ByteStream, F: Fn() -> i64>(
        &mut self,
        peer_node: NodeId,
        incoming: &mut I,
        outgoing: &mut O,
        started_at_unix: i64,
        clock: F,
    ) -> (result: Result<ConnectionLog, RelayError>)
        requires
            call_requires(clock, ()),
            old(self)@.trust.contains_key(peer_node@) ==> old(incoming).unread().len() <= u64::MAX,
        ensures
            result matches Ok(log) && {
                &&& exists|events: Seq<RelayEventView>|
                    {
                        let end = #[trigger] run(
                            opened(old(self)@, peer_node@, started_at_unix),
                            events,
                        );
                        &&& end.action == RelayActionView::Finish(log@)
                        &&& end.relay == final(self)@
                        &&& may_happen::<I, O, F>(
                            clock,
                            old(incoming).unread(),
                            opened(old(self)@, peer_node@, started_at_unix),
                            events,
                        )
                    }
                &&& forwarded(
                    log@,
                    state_of(*old(incoming)),
                    state_of(*final(incoming)),
                    state_of(*old(outgoing)),
                    state_of(*final(outgoing)),
                )
                &&& log.outcome matches ConnectionOutcome::Error(text) ==> if log.bytes_in
                    == log.bytes_out {
                    I::may_fail_with(text@)
                } else {
                    O::may_fail_with(text@)
                }
                &&& log.outcome is TrustRejected <==> !old(self)@.trust.contains_key(peer_node@)
                &&& !old(self)@.trust.contains_key(peer_node@) ==> {
                    &&& log@ == turned_away(peer_node@, started_at_unix)
                    &&& final(self)@ == old(self)@
                    &&& *final(incoming) == *old(incoming)
                    &&& *final(outgoing) == *old(outgoing)
                }
            },
            final(self)@.active_sessions == old(self)@.active_sessions,
            final(self).same_setup(*old(self)),
    {
        let ghost payload = incoming.unread();
        let ghost incoming_before = state_of(*incoming);
        let ghost outgoing_before = state_of(*outgoing);
        let ghost start = opened(self@, peer_node@, started_at_unix);
        let ghost peer = peer_node@;
        let ghost mut events: Seq<RelayEventView> = Seq::empty();
        let (mut session, opening) = self.open_session(peer_node, started_at_unix);
        assert(payload.skip(0) =~= payload);
        assert(outgoing_before.written + payload.take(0) =~= outgoing_before.written);
        proof {
            reveal(run);
        }
        let mut action = match opening {
            RelayAction::Finish(log) => {
                return Ok(log);
            },
            pending => pending,
        };
        let mut buf: Vec<u8> = vec![0u8;CHUNK_LEN];
        loop
            invariant
                call_requires(clock, ()),
                payload == old(incoming).unread(),
                incoming_before == state_of(*old(incoming)),
                outgoing_before == state_of(*old(outgoing)),
                peer == peer_node@,
                start == opened(old(self)@, peer, started_at_unix),
                payload.len() <= u64::MAX,
                buf@.len() == CHUNK_LEN,
                run(start, events) == (RunState {
                    relay: self@,
                    session: session@,
                    action: action@,
                }),
                may_happen::<I, O, F>(clock, payload, start, events),
                self.same_setup(*old(self)),
                session@.wf(),
                session@.bytes_in <= payload.len(),
                action is Finish || (action@ == session@.pending() && !(action is Idle)),
                action matches RelayAction::Finish(log) ==> forwarded(
                    log@,
                    incoming_before,
                    state_of(*incoming),
                    outgoing_before,
                    state_of(*outgoing),
                ),
                action matches RelayAction::Finish(log) ==> (log.outcome matches
                    ConnectionOutcome::Error(text) ==> if log.bytes_in == log.bytes_out {
                    I::may_fail_with(text@)
                } else {
                    O::may_fail_with(text@)
                }),
                !(action is Finish) ==> (session@.phase matches SessionPhaseView::Closing(
                    ConnectionOutcomeView::Error(text),
                ) ==> if session@.bytes_in == session@.bytes_out {
                    I::may_fail_with(text)
                } else {
                    O::may_fail_with(text)
                }),
                old(self)@.trust.contains_key(peer),
                !(action is Finish) ==> in_order(
                    session@,
                    incoming_before,
                    state_of(*incoming),
                    outgoing_before,
                    state_of(*outgoing),
                    buf@,
                ),
            decreases
                    (if session@.phase is Closing || session@.phase is Done {
                        0int
                    } else {
                        1int
                    }),
                    payload.len() - session@.bytes_in,
                    rank(session@.phase),
        {
            let ghost taken = session@.bytes_in as int;
            let ghost given = session@.bytes_out as int;
            let event = match action {
                RelayAction::Finish(log) => {
                    proof {
                        law_active_sessions(old(self)@, peer, started_at_unix, events);
                        law_connections_end_for_a_cause(
                            old(self)@,
                            peer,
                            started_at_unix,
                            events,
                        );
                    }
                    return Ok(log);
                },
                RelayAction::ReadClock | RelayAction::Idle => RelayEvent::Clock(clock()),
                RelayAction::Read => {
                    let result = incoming.read(buf.as_mut_slice());
                    proof {
                        if let Ok(n) = result {
                            assert(payload.skip(taken).skip(n as int) =~= payload.skip(taken + n));
                            assert(buf@.take(n as int) =~= payload.subrange(taken, taken + n));
                        }
                    }
                    RelayEvent::Read(result)
                },
                RelayAction::Write(n) => {
                    assert(buf@.subrange(0, n as int) =~= buf@.take(n as int));
                    let result = outgoing.write_all(slice_subrange(buf.as_slice(), 0, n));
                    assert(outgoing_before.written + payload.take(given) + payload.subrange(
                        given,
                        taken,
                    ) =~= outgoing_before.written + payload.take(taken));
                    RelayEvent::Written(result)
                },
            };
            proof {
                lemma_one_more::<I, O, F>(clock, payload, start, events, event@);
                events = events.push(event@);
            }
            let (next_session, next_action) = self.step(session, event);
            session = next_session;
            action = next_action;
        }
    }
}

/// That a session has taken a prefix of the payload and given a prefix of that,
/// and holds the difference in its buffer. After an error this is said of the
/// stream that did not fail.
spec fn in_order(
    session: SessionState,
    incoming_before: StreamState,
    incoming: StreamState,
    outgoing_before: StreamState,
    outgoing: StreamState,
    buf: Seq<u8>,
) -> bool {
    let payload = incoming_before.unread;
    let taken = incoming == taken_from(incoming_before, session.bytes_in as int);
    let given = outgoing == given_to(outgoing_before, payload, session.bytes_out as int);
    let in_hand = payload.subrange(session.bytes_out as int, session.bytes_in as int);
    match session.phase {
        SessionPhaseView::Admission => taken && given,
        SessionPhaseView::Reading => taken && given,
        SessionPhaseView::Charging(n) => taken && given && 0 < n <= buf.len() && buf.take(n as int)
            == in_hand,
        SessionPhaseView::Writing(n) => taken && given && 0 < n <= buf.len() && buf.take(n as int)
            == in_hand,
        SessionPhaseView::Closing(outcome) => {
            &&& session.bytes_in <= session.bytes_out + buf.len()
            &&& outcome is Closed ==> session.bytes_in == payload.len()
            &&& taken || (outcome is Error && session.bytes_in == session.bytes_out)
            &&& given || (outcome is Error && session.bytes_in != session.bytes_out)
        },
        SessionPhaseView::Done => false,
    }
}

proof fn lemma_one_more<I: ByteStream, O: ByteStream, F: Fn() -> i64>(
    clock: F,
    payload: Seq<u8>,
    start: RunState,
    events: Seq<RelayEventView>,
    event: RelayEventView,
)
    requires
        may_happen::<I, O, F>(clock, payload, start, events),
        may_come::<I, O, F>(clock, payload, run(start, events).session, event),
    ensures
        may_happen::<I, O, F>(clock, payload, start, events.push(event)),
        run(start, events.push(event)) == next(
            run(start, events).relay,
            run(start, events).session,
            event,
        ),
{
    reveal(run);
    let longer = events.push(event);
    assert(longer.drop_last() =~= events);
    assert forall|i: int| 0 <= i < longer.len() implies may_come::<I, O, F>(
        clock,
        payload,
        run(start, longer.take(i)).session,
        #[trigger] longer[i],
    ) by {
        if i < events.len() {
            assert(longer.take(i) =~= events.take(i));
            assert(longer[i] == events[i]);
        } else {
            assert(longer.take(i) =~= events);
        }
    }
}

/// How far a phase is from the next read.
spec fn rank(phase: SessionPhaseView) -> int {
    match phase {
        SessionPhaseView::Admission => 4,
        SessionPhaseView::Charging(_) => 3,
        SessionPhaseView::Writing(_) => 2,
        SessionPhaseView::Reading => 1,
        SessionPhaseView::Closing(_) => 1,
        SessionPhaseView::Done => 0,
    }
}

/// Law: bytes are conserved. Whatever happens to a session, what went out came
/// in before, and short of an overflow of the counters the difference is the
/// chunk in hand at most.
pub proof fn law_session_stays_well_formed(
    relay: RelayState,
    session: SessionState,
    peer: Seq<char>,
    started: i64,
    event: RelayEventView,
)
    requires
        session.wf(),
        event matches RelayEventView::Read(Ok(n)) ==> session.bytes_in + n <= u64::MAX,
    ensures
        opened(relay, peer, started).session.wf(),
        next(relay, session, event).session.wf(),
{
}

/// Law: a log accounts for its session: no more went out than came in, the
/// same if the connection closed in order, and less if a chunk was cut off.
pub proof fn law_log_accounts_for_session(
    relay: RelayState,
    session: SessionState,
    event: RelayEventView,
)
    requires
        session.wf(),
    ensures
        next(relay, session, event).action matches RelayActionView::Finish(log) ==> {
            &&& log.src_node == session.peer
            &&& log.started_at_unix == session.started_at_unix
            &&& log.bytes_in == session.bytes_in
            &&& log.bytes_out == session.bytes_out
            &&& log.bytes_out <= log.bytes_in
            &&& log.outcome is Closed ==> log.bytes_out == log.bytes_in
        },
{
}

/// Law: a peer that is not trusted is turned away at once, without a byte of
/// its own being read or forwarded and without the limiter taking notice.
pub proof fn law_untrusted_is_turned_away(relay: RelayState, peer: Seq<char>, started: i64)
    requires
        !relay.trust.contains_key(peer),
    ensures
        opened(relay, peer, started).relay == relay,
        opened(relay, peer, started).session.phase is Done,
        turned_away(peer, started) == (ConnectionLogView {
            src_node: peer,
            dst_node: None,
            bytes_in: 0,
            bytes_out: 0,
            started_at_unix: started,
            duration_ms: 0,
            outcome: ConnectionOutcomeView::TrustRejected,
        }),
        opened(relay, peer, started).action == RelayActionView::Finish(turned_away(peer, started)),
{
}

/// Law: every chunk is paid for. A session goes on to write a chunk only when
/// the limiter has just granted it a request, and one that is denied closes
/// as rate limited with the chunk unwritten.
pub proof fn law_chunks_are_charged(
    relay: RelayState,
    session: SessionState,
    event: RelayEventView,
)
    requires
        !(session.phase is Writing),
    ensures
        ({
            let after = next(relay, session, event);
            &&& after.action is Write ==> (event matches RelayEventView::Clock(now)
                && relay.limiter.allows(session.peer, now))
            &&& session.phase is Charging ==> (event matches RelayEventView::Clock(now) ==> !
            relay.limiter.allows(session.peer, now) ==> {
                &&& after.session == session.at(
                    SessionPhaseView::Closing(ConnectionOutcomeView::RateLimited),
                )
                &&& after.action is ReadClock
            })
        }),
{
}

/// Law: no connection is cut short as rate limited unless the limiter has just
/// denied it a request.
pub proof fn law_rate_limiting_needs_a_denial(
    relay: RelayState,
    session: SessionState,
    event: RelayEventView,
)
    requires
        session.phase != SessionPhaseView::Closing(ConnectionOutcomeView::RateLimited),
    ensures
        ({
            let after = next(relay, session, event);
            let limited = {
                ||| after.session.phase == SessionPhaseView::Closing(
                    ConnectionOutcomeView::RateLimited,
                )
                ||| (after.action matches RelayActionView::Finish(log)
                    && log.outcome is RateLimited)
            };
            limited ==> (event matches RelayEventView::Clock(now) && !relay.limiter.allows(
                session.peer,
                now,
            ))
        }),
{
}

/// Law: a session that is over stays over: no event changes it or the relay.
pub proof fn law_finished_is_final(
    relay: RelayState,
    session: SessionState,
    event: RelayEventView,
)
    requires
        session.phase is Done,
    ensures
        next(relay, session, event) == (RunState {
            relay,
            session,
            action: RelayActionView::Idle,
        }),
{
}

/// Law: streams and a clock that leave no choice leave no doubt: only one
/// series of events can then happen to a connection from its start to its end,
/// and so only one log and one state of the relay come of it.
pub proof fn law_no_choice_no_doubt<I: ByteStream, O: ByteStream, F: Fn() -> i64>(
    clock: F,
    payload: Seq<u8>,
    relay: RelayState,
    peer: Seq<char>,
    started: i64,
    a: Seq<RelayEventView>,
    b: Seq<RelayEventView>,
)
    requires
        forall|ahead: Seq<u8>, room: nat, n: nat, m: nat|
            #[trigger] I::may_deliver(ahead, room, n) && #[trigger] I::may_deliver(ahead, room, m)
                ==> n == m,
        forall|text: Seq<char>| !#[trigger] I::may_fail_with(text),
        forall|text: Seq<char>| !#[trigger] O::may_fail_with(text),
        forall|now: i64, later: i64|
            #[trigger] call_ensures(clock, (), now) && #[trigger] call_ensures(clock, (), later)
                ==> now == later,
        may_happen::<I, O, F>(clock, payload, opened(relay, peer, started), a),
        may_happen::<I, O, F>(clock, payload, opened(relay, peer, started), b),
        run(opened(relay, peer, started), a).action is Finish,
        run(opened(relay, peer, started), b).action is Finish,
    ensures
        a == b,
{
    let start = opened(relay, peer, started);
    let shared = if a.len() <= b.len() {
        a.len()
    } else {
        b.len()
    };
    lemma_same_events::<I, O, F>(clock, payload, start, a, b, shared);
    law_active_sessions(relay, peer, started, a);
    law_active_sessions(relay, peer, started, b);
    if a.len() < b.len() {
        assert(a.take(a.len() as int) =~= a);
        assert(!awaited(run(start, a).session, b[a.len() as int]));
    } else if b.len() < a.len() {
        assert(b.take(b.len() as int) =~= b);
        assert(!awaited(run(start, b).session, a[b.len() as int]));
    } else {
        assert(a.take(a.len() as int) =~= a);
        assert(b.take(b.len() as int) =~= b);
    }
}

proof fn lemma_same_events<I: ByteStream, O: ByteStream, F: Fn() -> i64>(
    clock: F,
    payload: Seq<u8>,
    start: RunState,
    a: Seq<RelayEventView>,
    b: Seq<RelayEventView>,
    count: nat,
)
    requires
        forall|ahead: Seq<u8>, room: nat, n: nat, m: nat|
            #[trigger] I::may_deliver(ahead, room, n) && #[trigger] I::may_deliver(ahead, room, m)
                ==> n == m,
        forall|text: Seq<char>| !#[trigger] I::may_fail_with(text),
        forall|text: Seq<char>| !#[trigger] O::may_fail_with(text),
        forall|now: i64, later: i64|
            #[trigger] call_ensures(clock, (), now) && #[trigger] call_ensures(clock, (), later)
                ==> now == later,
        may_happen::<I, O, F>(clock, payload, start, a),
        may_happen::<I, O, F>(clock, payload, start, b),
        count <= a.len(),
        count <= b.len(),
    ensures
        a.take(count as int) == b.take(count as int),
    decreases count,
{
    if count > 0 {
        let last = count - 1;
        lemma_same_events::<I, O, F>(clock, payload, start, a, b, last as nat);
        let session = run(start, a.take(last)).session;
        assert(may_come::<I, O, F>(clock, payload, session, a[last]));
        assert(may_come::<I, O, F>(clock, payload, session, b[last]));
        if let (RelayEventView::Written(Ok(done)), RelayEventView::Written(Ok(also))) = (
            a[last],
            b[last],
        ) {
            assert(done == also);
        }
        assert(a[last] == b[last]);
        assert(a.take(count as int) =~= a.take(last).push(a[last]));
        assert(b.take(count as int) =~= b.take(last).push(b[last]));
    }
}

/// Law: the relay counts a session from its start until it is over, early
/// rejection included, and then no longer.
pub proof fn law_active_sessions(
    relay: RelayState,
    peer: Seq<char>,
    started: i64,
    events: Seq<RelayEventView>,
)
    ensures
        ({
            let end = run(opened(relay, peer, started), events);
            end.relay.active_sessions == if end.session.phase is Done {
                relay.active_sessions
            } else {
                relay.entered().active_sessions
            }
        }),
        run(opened(relay, peer, started), events).action is Finish ==> run(
            opened(relay, peer, started),
            events,
        ).session.phase is Done,
    decreases events.len(),
{
    reveal(run);
    if events.len() > 0 {
        law_active_sessions(relay, peer, started, events.drop_last());
    }
}

/// Law: a session touches nothing but its own peer's budget. Trust entries and
/// the buckets of other nodes are as they were.
pub proof fn law_sessions_are_isolated(
    relay: RelayState,
    peer: Seq<char>,
    started: i64,
    events: Seq<RelayEventView>,
    other: Seq<char>,
)
    requires
        other != peer,
    ensures
        ({
            let end = run(opened(relay, peer, started), events);
            &&& end.session.peer == peer
            &&& end.relay.trust == relay.trust
            &&& end.relay.limiter.default_per_min == relay.limiter.default_per_min
            &&& end.relay.limiter.buckets.contains_key(other)
                == relay.limiter.buckets.contains_key(other)
            &&& relay.limiter.buckets.contains_key(other) ==> end.relay.limiter.buckets[other]
                == relay.limiter.buckets[other]
        }),
    decreases events.len(),
{
    reveal(run);
    if events.len() > 0 {
        law_sessions_are_isolated(relay, peer, started, events.drop_last(), other);
    }
}

/// Law: sessions keep the limiter well formed.
pub proof fn law_limiter_survives_sessions(
    relay: RelayState,
    peer: Seq<char>,
    started: i64,
    events: Seq<RelayEventView>,
)
    requires
        relay.limiter.wf(),
    ensures
        run(opened(relay, peer, started), events).relay.limiter.wf(),
    decreases events.len(),
{
    reveal(run);
    if events.len() == 0 {
        if relay.trust.contains_key(peer) {
            law_limiter_stays_well_formed(
                relay.limiter,
                peer,
                relay.trust[peer].rate_limit_per_min,
                started,
            );
        }
    } else {
        law_limiter_survives_sessions(relay, peer, started, events.drop_last());
        let before = run(opened(relay, peer, started), events.drop_last());
        if let RelayEventView::Clock(now) = events.last() {
            law_limiter_stays_well_formed(before.relay.limiter, before.session.peer, 0, now);
        }
    }
}

/// Law: a trusted peer is let in. Its session starts with nothing read or
/// written, is counted, and has the budget that the trust store grants the
/// peer, or 100 requests a minute if that is zero; what the peer had earned it
/// keeps.
pub proof fn law_trusted_is_let_in(relay: RelayState, peer: Seq<char>, started: i64)
    requires
        relay.trust.contains_key(peer),
    ensures
        ({
            let start = opened(relay, peer, started);
            let granted = relay.trust[peer].rate_limit_per_min;
            let budget: u32 = if granted == 0 {
                100
            } else {
                granted
            };
            let bucket = start.relay.limiter.buckets[peer];
            &&& start.action is ReadClock
            &&& start.session == (SessionState {
                peer,
                started_at_unix: started,
                bytes_in: 0,
                bytes_out: 0,
                phase: SessionPhaseView::Admission,
            })
            &&& start.relay.trust == relay.trust
            &&& start.relay.active_sessions == relay.entered().active_sessions
            &&& start.relay.limiter.buckets.contains_key(peer)
            &&& bucket.capacity == budget
            &&& bucket.refill_per_sec == budget
            &&& relay.limiter.buckets.contains_key(peer) ==> bucket
                == relay.limiter.buckets[peer].retuned(budget, started)
            &&& !relay.limiter.buckets.contains_key(peer) ==> bucket.tokens == budget
                * 60_000_000_000 && bucket.last_refill_unix == started
        }),
{
}

/// Law: a request that the limiter grants goes on, whatever came before it. An
/// admitted connection is read from; a chunk in hand is written, all of it and
/// no more. Nothing but the charge is done to the relay, and nothing is
/// counted as read or written.
pub proof fn law_granted_requests_go_on(
    relay: RelayState,
    session: SessionState,
    n: usize,
    now: i64,
)
    requires
        relay.limiter.allows(session.peer, now),
    ensures
        ({
            let after = next(
                relay,
                SessionState { phase: SessionPhaseView::Admission, ..session },
                RelayEventView::Clock(now),
            );
            &&& after.action is Read
            &&& after.session == (SessionState { phase: SessionPhaseView::Reading, ..session })
            &&& after.relay.limiter == relay.limiter.charged(session.peer, now)
            &&& after.relay.trust == relay.trust
            &&& after.relay.active_sessions == relay.active_sessions
        }),
        ({
            let after = next(
                relay,
                SessionState { phase: SessionPhaseView::Charging(n), ..session },
                RelayEventView::Clock(now),
            );
            &&& after.action == RelayActionView::Write(n)
            &&& after.session == (SessionState { phase: SessionPhaseView::Writing(n), ..session })
            &&& after.relay.limiter == relay.limiter.charged(session.peer, now)
            &&& after.relay.trust == relay.trust
            &&& after.relay.active_sessions == relay.active_sessions
        }),
{
}

/// Law: a request that the limiter denies ends the connection as rate limited:
/// at the door at once, with a log of no duration, and later after one more
/// look at the clock, with what was read and written until then.
pub proof fn law_denied_requests_end_the_connection(
    relay: RelayState,
    session: SessionState,
    n: usize,
    now: i64,
)
    requires
        !relay.limiter.allows(session.peer, now),
    ensures
        ({
            let after = next(
                relay,
                SessionState { phase: SessionPhaseView::Admission, ..session },
                RelayEventView::Clock(now),
            );
            &&& after.action == RelayActionView::Finish(
                ConnectionLogView {
                    src_node: session.peer,
                    dst_node: None,
                    bytes_in: session.bytes_in,
                    bytes_out: session.bytes_out,
                    started_at_unix: session.started_at_unix,
                    duration_ms: 0,
                    outcome: ConnectionOutcomeView::RateLimited,
                },
            )
            &&& after.session == (SessionState { phase: SessionPhaseView::Done, ..session })
            &&& after.relay.limiter == relay.limiter.charged(session.peer, now)
            &&& after.relay.trust == relay.trust
            &&& after.relay.active_sessions == relay.left().active_sessions
        }),
        ({
            let after = next(
                relay,
                SessionState { phase: SessionPhaseView::Charging(n), ..session },
                RelayEventView::Clock(now),
            );
            &&& after.action is ReadClock
            &&& after.session == (SessionState {
                phase: SessionPhaseView::Closing(ConnectionOutcomeView::RateLimited),
                ..session
            })
            &&& after.relay.limiter == relay.limiter.charged(session.peer, now)
            &&& after.relay.trust == relay.trust
            &&& after.relay.active_sessions == relay.active_sessions
        }),
{
}

/// Law: what is read is counted and then charged for, however much was read
/// before. The end of the stream, and nothing else, closes the connection in
/// order; an error ends it with the error's text. The relay itself is left
/// alone.
pub proof fn law_reads_are_counted(
    relay: RelayState,
    session: SessionState,
    n: usize,
    text: Seq<char>,
)
    requires
        session.phase is Reading,
        session.bytes_in + n <= u64::MAX,
    ensures
        ({
            let after = next(relay, session, RelayEventView::Read(Ok(n)));
            &&& after.relay == relay
            &&& after.action is ReadClock
            &&& after.session.bytes_in == session.bytes_in + n
            &&& after.session.bytes_out == session.bytes_out
            &&& after.session.peer == session.peer
            &&& after.session.started_at_unix == session.started_at_unix
            &&& n > 0 ==> after.session.phase == SessionPhaseView::Charging(n)
            &&& n == 0 ==> after.session.phase == SessionPhaseView::Closing(
                ConnectionOutcomeView::Closed,
            )
        }),
        ({
            let after = next(relay, session, RelayEventView::Read(Err(text)));
            &&& after.relay == relay
            &&& after.action is ReadClock
            &&& after.session == (SessionState {
                phase: SessionPhaseView::Closing(ConnectionOutcomeView::Error(text)),
                ..session
            })
        }),
{
}

/// Law: what is written is counted, and the next chunk is read, however much
/// was written before; an error ends the connection with its text. The relay
/// itself is left alone.
pub proof fn law_writes_are_counted(
    relay: RelayState,
    session: SessionState,
    n: usize,
    text: Seq<char>,
)
    requires
        session.phase == SessionPhaseView::Writing(n),
        session.bytes_out + n <= u64::MAX,
    ensures
        ({
            let after = next(relay, session, RelayEventView::Written(Ok(())));
            &&& after.relay == relay
            &&& after.action is Read
            &&& after.session.phase is Reading
            &&& after.session.bytes_out == session.bytes_out + n
            &&& after.session.bytes_in == session.bytes_in
            &&& after.session.peer == session.peer
            &&& after.session.started_at_unix == session.started_at_unix
        }),
        ({
            let after = next(relay, session, RelayEventView::Written(Err(text)));
            &&& after.relay == relay
            &&& after.action is ReadClock
            &&& after.session == (SessionState {
                phase: SessionPhaseView::Closing(ConnectionOutcomeView::Error(text)),
                ..session
            })
        }),
{
}

/// Law: the log says how the connection ended, for whom, and how long it took:
/// the duration is the number of whole milliseconds, of a million nanoseconds
/// each, from the start to the end, and zero if the end is not later.
pub proof fn law_logs_sum_up_the_session(
    relay: RelayState,
    session: SessionState,
    outcome: ConnectionOutcomeView,
    ended: i64,
)
    requires
        session.phase == SessionPhaseView::Closing(outcome),
    ensures
        ({
            let after = next(relay, session, RelayEventView::Clock(ended));
            let elapsed = ended - session.started_at_unix;
            &&& after.action matches RelayActionView::Finish(log) && {
                &&& log.src_node == session.peer
                &&& log.dst_node is None
                &&& log.bytes_in == session.bytes_in
                &&& log.bytes_out == session.bytes_out
                &&& log.started_at_unix == session.started_at_unix
                &&& log.outcome == outcome
                &&& elapsed <= 0 ==> log.duration_ms == 0
                &&& elapsed > 0 ==> log.duration_ms * 1_000_000 <= elapsed < (log.duration_ms + 1)
                    * 1_000_000
            }
            &&& after.session == (SessionState { phase: SessionPhaseView::Done, ..session })
            &&& after.relay.limiter == relay.limiter
            &&& after.relay.trust == relay.trust
            &&& after.relay.active_sessions == relay.left().active_sessions
        }),
{
}

/// Law: an event that a session is not waiting for changes nothing, and the
/// session goes on asking for what it was asking for.
pub proof fn law_other_events_change_nothing(
    relay: RelayState,
    session: SessionState,
    event: RelayEventView,
)
    requires
        match session.phase {
            SessionPhaseView::Admission => !(event is Clock),
            SessionPhaseView::Reading => !(event is Read),
            SessionPhaseView::Charging(_) => !(event is Clock),
            SessionPhaseView::Writing(_) => !(event is Written),
            SessionPhaseView::Closing(_) => !(event is Clock),
            SessionPhaseView::Done => true,
        },
    ensures
        ({
            let after = next(relay, session, event);
            &&& after.relay == relay
            &&& after.session == session
            &&& match session.phase {
                SessionPhaseView::Reading => after.action is Read,
                SessionPhaseView::Writing(n) => after.action == RelayActionView::Write(n),
                SessionPhaseView::Done => after.action is Idle,
                _ => after.action is ReadClock,
            }
        }),
{
}

/// What ended a connection: the end of the stream, an error of one of the
/// streams with this text, or a request that the limiter denied the peer at a
/// time that the clock showed.
pub open spec fn has_cause(
    start: RunState,
    peer: Seq<char>,
    events: Seq<RelayEventView>,
    outcome: ConnectionOutcomeView,
) -> bool {
    match outcome {
        ConnectionOutcomeView::Closed => exists|i: int|
            0 <= i < events.len() && #[trigger] events[i] == RelayEventView::Read(Ok(0)),
        ConnectionOutcomeView::Error(text) => exists|i: int|
            0 <= i < events.len() && {
                ||| #[trigger] events[i] == RelayEventView::Read(Err(text))
                ||| events[i] == RelayEventView::Written(Err(text))
            },
        ConnectionOutcomeView::RateLimited => exists|i: int|
            0 <= i < events.len() && (#[trigger] events[i] matches RelayEventView::Clock(now) && !run(
                start,
                events.take(i),
            ).relay.limiter.allows(peer, now)),
        ConnectionOutcomeView::TrustRejected => false,
    }
}

/// Law: a connection of a trusted peer ends only for a cause. Its log never
/// says that the peer was not trusted; it says `Closed` only if the end of the
/// stream was read, an error only if a stream failed with it, and `RateLimited`
/// only if the limiter denied a request. So with budget left and streams that
/// do not fail, everything the peer sends is forwarded to the end.
pub proof fn law_connections_end_for_a_cause(
    relay: RelayState,
    peer: Seq<char>,
    started: i64,
    events: Seq<RelayEventView>,
)
    requires
        relay.trust.contains_key(peer),
    ensures
        run(opened(relay, peer, started), events).action matches RelayActionView::Finish(log)
            ==> has_cause(opened(relay, peer, started), peer, events, log.outcome),
{
    lemma_ends_for_a_cause(relay, peer, started, events);
}

proof fn lemma_ends_for_a_cause(
    relay: RelayState,
    peer: Seq<char>,
    started: i64,
    events: Seq<RelayEventView>,
)
    requires
        relay.trust.contains_key(peer),
    ensures
        ({
            let start = opened(relay, peer, started);
            let end = run(start, events);
            &&& end.session.peer == peer
            &&& end.session.phase matches SessionPhaseView::Closing(outcome) ==> has_cause(
                start,
                peer,
                events,
                outcome,
            )
            &&& end.action matches RelayActionView::Finish(log) ==> has_cause(
                start,
                peer,
                events,
                log.outcome,
            )
        }),
    decreases events.len(),
{
    let start = opened(relay, peer, started);
    if events.len() == 0 {
        reveal(run);
    } else {
        let earlier = events.drop_last();
        let last = events.len() - 1;
        lemma_ends_for_a_cause(relay, peer, started, earlier);
        let before = run(start, earlier);
        assert(run(start, events) == next(before.relay, before.session, events.last())) by {
            reveal(run);
        }
        assert(events.take(last) =~= earlier);
        assert(events[last] == events.last());
        if let SessionPhaseView::Closing(outcome) = before.session.phase {
            lemma_cause_stays(start, peer, earlier, events.last(), outcome);
            assert(earlier.push(events.last()) =~= events);
        }
    }
}

proof fn lemma_cause_stays(
    start: RunState,
    peer: Seq<char>,
    events: Seq<RelayEventView>,
    event: RelayEventView,
    outcome: ConnectionOutcomeView,
)
    requires
        has_cause(start, peer, events, outcome),
    ensures
        has_cause(start, peer, events.push(event), outcome),
{
    let longer = events.push(event);
    match outcome {
        ConnectionOutcomeView::Closed => {
            let i = choose|i: int|
                0 <= i < events.len() && #[trigger] events[i] == RelayEventView::Read(Ok(0));
            assert(longer[i] == events[i]);
        },
        ConnectionOutcomeView::Error(text) => {
            let i = choose|i: int|
                0 <= i < events.len() && {
                    ||| #[trigger] events[i] == RelayEventView::Read(Err(text))
                    ||| events[i] == RelayEventView::Written(Err(text))
                };
            assert(longer[i] == events[i]);
        },
        ConnectionOutcomeView::RateLimited => {
            let i = choose|i: int|
                0 <= i < events.len() && (#[trigger] events[i] matches RelayEventView::Clock(now)
                    && !run(start, events.take(i)).relay.limiter.allows(peer, now));
            assert(longer[i] == events[i]);
            assert(longer.take(i) =~= events.take(i));
        },
        ConnectionOutcomeView::TrustRejected => {},
    }
}

/// The bytes that a series of events reads.
pub open spec fn bytes_read(events: Seq<RelayEventView>) -> nat
    decreases events.len(),
{
    if events.len() == 0 {
        0
    } else {
        bytes_read(events.drop_last()) + match events.last() {
            RelayEventView::Read(Ok(n)) => n as nat,
            _ => 0nat,
        }
    }
}

/// Law: the bytes that a session counts as read are those read, all of them,
/// and those that it counts as written are the same, short of the chunk in hand
/// at most.
pub proof fn law_every_byte_is_counted(
    relay: RelayState,
    peer: Seq<char>,
    started: i64,
    events: Seq<RelayEventView>,
)
    requires
        bytes_read(events) <= u64::MAX,
        forall|i: int|
            0 <= i < events.len() ==> awaited(
                run(opened(relay, peer, started), events.take(i)).session,
                #[trigger] events[i],
            ),
    ensures
        ({
            let session = run(opened(relay, peer, started), events).session;
            &&& session.bytes_in == bytes_read(events)
            &&& session.wf()
            &&& session.peer == peer
            &&& session.started_at_unix == started
        }),
    decreases events.len(),
{
    let start = opened(relay, peer, started);
    if events.len() == 0 {
        reveal(run);
    } else {
        let earlier = events.drop_last();
        let last = events.len() - 1;
        assert forall|i: int| 0 <= i < earlier.len() implies awaited(
            run(start, earlier.take(i)).session,
            #[trigger] earlier[i],
        ) by {
            assert(earlier.take(i) =~= events.take(i));
            assert(earlier[i] == events[i]);
        }
        law_every_byte_is_counted(relay, peer, started, earlier);
        assert(events.take(last) =~= earlier);
        assert(events[last] == events.last());
        let before = run(start, earlier);
        assert(run(start, events) == next(before.relay, before.session, events.last())) by {
            reveal(run);
        }
    }
}

/// Law: what a log says of its streams, byte by byte. Unless a stream failed,
/// the bytes behind those already written are the first that were to be read,
/// each in its place; what was read is gone from the front and the rest is
/// still there; and nothing was written back to the peer, read from upstream,
/// or finished. No more than 8192 bytes are lost with a connection that is cut
/// short, and none with one that closed in order.
pub proof fn law_forwarding_is_byte_by_byte(
    log: ConnectionLogView,
    incoming_before: StreamState,
    incoming: StreamState,
    outgoing_before: StreamState,
    outgoing: StreamState,
    at: int,
)
    requires
        forwarded(log, incoming_before, incoming, outgoing_before, outgoing),
    ensures
        log.bytes_out <= log.bytes_in <= log.bytes_out + 8192,
        log.bytes_in <= incoming_before.unread.len(),
        log.outcome is Closed ==> log.bytes_in == log.bytes_out && log.bytes_out
            == incoming_before.unread.len(),
        !(log.outcome is Error) || log.bytes_in == log.bytes_out ==> {
            let start = outgoing_before.written.len();
            &&& outgoing.written.len() == start + log.bytes_out
            &&& 0 <= at < start ==> outgoing.written[at] == outgoing_before.written[at]
            &&& 0 <= at < log.bytes_out ==> outgoing.written[start + at]
                == incoming_before.unread[at]
            &&& outgoing.unread == outgoing_before.unread
            &&& outgoing.finished == outgoing_before.finished
        },
        !(log.outcome is Error) || log.bytes_in != log.bytes_out ==> {
            &&& incoming.unread.len() == incoming_before.unread.len() - log.bytes_in
            &&& 0 <= at < incoming.unread.len() ==> incoming.unread[at]
                == incoming_before.unread[log.bytes_in + at]
            &&& incoming.written == incoming_before.written
            &&& incoming.finished == incoming_before.finished
        },
{
}

/// Law: what can come of an action. The clock shows a time only when it is
/// asked for, a read delivers only when it is asked for and then what the
/// stream can deliver of the bytes ahead into 8192 bytes of room, zero only at
/// the end, and failures are those of the stream in question.
pub proof fn law_events_come_of_actions<I: ByteStream, O: ByteStream, F: Fn() -> i64>(
    clock: F,
    payload: Seq<u8>,
    session: SessionState,
    event: RelayEventView,
)
    requires
        may_come::<I, O, F>(clock, payload, session, event),
    ensures
        match event {
            RelayEventView::Clock(now) => {
                &&& session.phase is Admission || session.phase is Charging
                    || session.phase is Closing
                &&& call_ensures(clock, (), now)
            },
            RelayEventView::Read(Ok(n)) => {
                &&& session.phase is Reading
                &&& I::may_deliver(payload.skip(session.bytes_in as int), 8192, n as nat)
                &&& n <= 8192
                &&& session.bytes_in + n <= payload.len()
                &&& n == 0 ==> session.bytes_in == payload.len()
            },
            RelayEventView::Read(Err(text)) => session.phase is Reading && I::may_fail_with(text),
            RelayEventView::Written(Ok(_)) => session.phase is Writing,
            RelayEventView::Written(Err(text)) => session.phase is Writing && O::may_fail_with(
                text,
            ),
        },
{
}

/// Law: the content of an event or an action is all of it.
pub proof fn law_steps_show_their_content(event: RelayEvent, action: RelayAction)
    ensures
        match event {
            RelayEvent::Clock(now) => event@ == RelayEventView::Clock(now),
            RelayEvent::Read(Ok(n)) => event@ == RelayEventView::Read(Ok(n)),
            RelayEvent::Read(Err(text)) => event@ == RelayEventView::Read(Err(text@)),
            RelayEvent::Written(Ok(_)) => event@ matches RelayEventView::Written(Ok(_)),
            RelayEvent::Written(Err(text)) => event@ == RelayEventView::Written(Err(text@)),
        },
        match action {
            RelayAction::ReadClock => action@ is ReadClock,
            RelayAction::Read => action@ is Read,
            RelayAction::Write(n) => action@ == RelayActionView::Write(n),
            RelayAction::Finish(log) => action@ == RelayActionView::Finish(log@),
            RelayAction::Idle => action@ is Idle,
        },
{
}

} // verus!
