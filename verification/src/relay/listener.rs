//! The relay listener: what it does with incoming connections and streams.
//!
//! Each incoming QUIC connection carries bidirectional streams. The first that
//! the client opens is reserved for the ticket handshake; once that succeeds,
//! each further stream is pumped independently. The loops here are given as
//! state machines: whoever runs one performs its actions and feeds back what
//! came of them.

use vstd::prelude::*;
use vstd::string::*;

use crate::node::NodeId;
use crate::session::{HandshakeSummary, HandshakeSummaryView, SessionError, SessionErrorView};

verus! {

/// What the accept loop is waiting for.
#[derive(Debug, Clone, Copy, PartialEq, Eq, Structural)]
pub enum ListenerState {
    /// A look at the cancellation flag.
    Idle,
    /// The next incoming connection, or the cancellation flag.
    Accepting,
    /// The QUIC handshake of an incoming connection.
    Connecting,
    /// Nothing more.
    Stopped,
}

/// What came of an action of the accept loop.
#[derive(Debug, Clone, Copy, PartialEq, Eq, Structural)]
pub enum ListenerEvent {
    /// The cancellation flag.
    CancelFlag(bool),
    /// A connection is coming in.
    Incoming,
    /// The endpoint is closed for good.
    EndpointClosed,
    /// Whether the QUIC handshake succeeded.
    Connected(bool),
}

/// What the accept loop does next.
#[derive(Debug, Clone, Copy, PartialEq, Eq, Structural)]
pub enum ListenerAction {
    /// Look at the cancellation flag.
    CheckCancel,
    /// Wait for the next incoming connection, or for the flag to be set.
    Accept,
    /// Complete the QUIC handshake of the incoming connection.
    Connect,
    /// Hand the connection to a task of its own, then look at the flag.
    Serve,
    /// Stop, and report the statistics.
    Stop,
}

/// What a state is waiting for.
pub open spec fn listener_pending(state: ListenerState) -> ListenerAction {
    match state {
        ListenerState::Idle => ListenerAction::CheckCancel,
        ListenerState::Accepting => ListenerAction::Accept,
        ListenerState::Connecting => ListenerAction::Connect,
        ListenerState::Stopped => ListenerAction::Stop,
    }
}

/// How the accept loop goes on after an event. The flag stops it between two
/// connections and while it waits for one; an incoming connection is still
/// handed over. An event that it is not waiting for changes nothing.
pub open spec fn listener_next(state: ListenerState, event: ListenerEvent) -> (
    ListenerState,
    ListenerAction,
) {
    match (state, event) {
        (ListenerState::Idle, ListenerEvent::CancelFlag(true)) => (
            ListenerState::Stopped,
            ListenerAction::Stop,
        ),
        (ListenerState::Idle, ListenerEvent::CancelFlag(false)) => (
            ListenerState::Accepting,
            ListenerAction::Accept,
        ),
        (ListenerState::Accepting, ListenerEvent::Incoming) => (
            ListenerState::Connecting,
            ListenerAction::Connect,
        ),
        (ListenerState::Accepting, ListenerEvent::CancelFlag(true)) => (
            ListenerState::Stopped,
            ListenerAction::Stop,
        ),
        (ListenerState::Accepting, ListenerEvent::EndpointClosed) => (
            ListenerState::Stopped,
            ListenerAction::Stop,
        ),
        (ListenerState::Connecting, ListenerEvent::Connected(true)) => (
            ListenerState::Idle,
            ListenerAction::Serve,
        ),
        (ListenerState::Connecting, ListenerEvent::Connected(false)) => (
            ListenerState::Idle,
            ListenerAction::CheckCancel,
        ),
        _ => (state, listener_pending(state)),
    }
}

/// Tell the accept loop what came of its last action, and learn its next. It
/// starts idle, with a look at the cancellation flag.
pub fn listener_step(state: ListenerState, event: ListenerEvent) -> (step: (
    ListenerState,
    ListenerAction,
))
    ensures
        step == listener_next(state, event),
{
    match (state, event) {
        (ListenerState::Idle, ListenerEvent::CancelFlag(true)) => (
            ListenerState::Stopped,
            ListenerAction::Stop,
        ),
        (ListenerState::Idle, ListenerEvent::CancelFlag(false)) => (
            ListenerState::Accepting,
            ListenerAction::Accept,
        ),
        (ListenerState::Accepting, ListenerEvent::Incoming) => (
            ListenerState::Connecting,
            ListenerAction::Connect,
        ),
        (ListenerState::Accepting, ListenerEvent::CancelFlag(true)) => (
            ListenerState::Stopped,
            ListenerAction::Stop,
        ),
        (ListenerState::Accepting, ListenerEvent::EndpointClosed) => (
            ListenerState::Stopped,
            ListenerAction::Stop,
        ),
        (ListenerState::Connecting, ListenerEvent::Connected(true)) => (
            ListenerState::Idle,
            ListenerAction::Serve,
        ),
        (ListenerState::Connecting, ListenerEvent::Connected(false)) => (
            ListenerState::Idle,
            ListenerAction::CheckCancel,
        ),
        (ListenerState::Idle, _) => (ListenerState::Idle, ListenerAction::CheckCancel),
        (ListenerState::Accepting, _) => (ListenerState::Accepting, ListenerAction::Accept),
        (ListenerState::Connecting, _) => (ListenerState::Connecting, ListenerAction::Connect),
        (ListenerState::Stopped, _) => (ListenerState::Stopped, ListenerAction::Stop),
    }
}

/// What a connection is waiting for.
#[derive(Debug)]
pub enum ConnectionState {
    /// The stream that the client opens for the handshake, or the cancellation
    /// flag.
    AwaitingStream,
    /// The outcome of the ticket handshake.
    Handshaking,
    /// A look at the cancellation flag. The peer is authenticated.
    Ready(NodeId),
    /// The next stream of the authenticated peer, or the cancellation flag.
    Accepting(NodeId),
    /// Nothing more.
    Ended,
}

/// The content of a [`ConnectionState`].
#[verifier::ext_equal]
pub enum ConnectionStateView {
    AwaitingStream,
    Handshaking,
    Ready(Seq<char>),
    Accepting(Seq<char>),
    Ended,
}

impl View for ConnectionState {
    type V = ConnectionStateView;

    open spec fn view(&self) -> ConnectionStateView {
        match *self {
            ConnectionState::AwaitingStream => ConnectionStateView::AwaitingStream,
            ConnectionState::Handshaking => ConnectionStateView::Handshaking,
            ConnectionState::Ready(peer) => ConnectionStateView::Ready(peer@),
            ConnectionState::Accepting(peer) => ConnectionStateView::Accepting(peer@),
            ConnectionState::Ended => ConnectionStateView::Ended,
        }
    }
}

/// What came of an action on a connection.
#[derive(Debug)]
pub enum ConnectionEvent {
    /// Whether the client opened a stream; if not, the connection is gone.
    Stream(bool),
    /// How the ticket handshake ended.
    Handshake(Result<HandshakeSummary, SessionError>),
    /// The cancellation flag.
    CancelFlag(bool),
}

/// The content of a [`ConnectionEvent`].
#[verifier::ext_equal]
pub enum ConnectionEventView {
    Stream(bool),
    Handshake(Result<HandshakeSummaryView, SessionErrorView>),
    CancelFlag(bool),
}

impl View for ConnectionEvent {
    type V = ConnectionEventView;

    open spec fn view(&self) -> ConnectionEventView {
        match *self {
            ConnectionEvent::Stream(opened) => ConnectionEventView::Stream(opened),
            ConnectionEvent::Handshake(Ok(summary)) => ConnectionEventView::Handshake(Ok(summary@)),
            ConnectionEvent::Handshake(Err(error)) => ConnectionEventView::Handshake(Err(error@)),
            ConnectionEvent::CancelFlag(cancelled) => ConnectionEventView::CancelFlag(cancelled),
        }
    }
}

/// What is done next on a connection.
#[derive(Debug)]
pub enum ConnectionAction {
    /// Wait for the client to open a stream, or for the flag to be set.
    AcceptStream,
    /// Run the ticket handshake on the stream.
    Handshake,
    /// Look at the cancellation flag.
    CheckCancel,
    /// Hand the stream, of this peer, to a task that pumps it, then look at
    /// the flag.
    Pump(NodeId),
    /// Close the connection with this code and reason.
    Close { code: u8, reason: String },
    /// Nothing: leave the connection.
    End,
}

/// The content of a [`ConnectionAction`].
#[verifier::ext_equal]
pub enum ConnectionActionView {
    AcceptStream,
    Handshake,
    CheckCancel,
    Pump(Seq<char>),
    Close { code: u8, reason: Seq<char> },
    End,
}

impl View for ConnectionAction {
    type V = ConnectionActionView;

    open spec fn view(&self) -> ConnectionActionView {
        match *self {
            ConnectionAction::AcceptStream => ConnectionActionView::AcceptStream,
            ConnectionAction::Handshake => ConnectionActionView::Handshake,
            ConnectionAction::CheckCancel => ConnectionActionView::CheckCancel,
            ConnectionAction::Pump(peer) => ConnectionActionView::Pump(peer@),
            ConnectionAction::Close { code, reason } => ConnectionActionView::Close {
                code,
                reason: reason@,
            },
            ConnectionAction::End => ConnectionActionView::End,
        }
    }
}

/// What a state is waiting for.
pub open spec fn connection_pending(state: ConnectionStateView) -> ConnectionActionView {
    match state {
        ConnectionStateView::AwaitingStream => ConnectionActionView::AcceptStream,
        ConnectionStateView::Handshaking => ConnectionActionView::Handshake,
        ConnectionStateView::Ready(_) => ConnectionActionView::CheckCancel,
        ConnectionStateView::Accepting(_) => ConnectionActionView::AcceptStream,
        ConnectionStateView::Ended => ConnectionActionView::End,
    }
}

/// How a connection goes on after an event. The flag ends it between two
/// streams and while it waits for one; a handshake under way is completed. An
/// event that it is not waiting for changes nothing.
pub open spec fn connection_next(state: ConnectionStateView, event: ConnectionEventView) -> (
    ConnectionStateView,
    ConnectionActionView,
) {
    match (state, event) {
        (ConnectionStateView::AwaitingStream, ConnectionEventView::Stream(true)) => (
            ConnectionStateView::Handshaking,
            ConnectionActionView::Handshake,
        ),
        (ConnectionStateView::AwaitingStream, ConnectionEventView::CancelFlag(true)) => (
            ConnectionStateView::Ended,
            ConnectionActionView::End,
        ),
        (ConnectionStateView::AwaitingStream, ConnectionEventView::Stream(false)) => (
            ConnectionStateView::Ended,
            ConnectionActionView::End,
        ),
        (ConnectionStateView::Handshaking, ConnectionEventView::Handshake(Ok(summary))) => (
            ConnectionStateView::Ready(summary.subject),
            ConnectionActionView::CheckCancel,
        ),
        (ConnectionStateView::Handshaking, ConnectionEventView::Handshake(Err(_))) => (
            ConnectionStateView::Ended,
            ConnectionActionView::Close { code: 0, reason: "handshake failed"@ },
        ),
        (ConnectionStateView::Ready(_), ConnectionEventView::CancelFlag(true)) => (
            ConnectionStateView::Ended,
            ConnectionActionView::End,
        ),
        (ConnectionStateView::Ready(peer), ConnectionEventView::CancelFlag(false)) => (
            ConnectionStateView::Accepting(peer),
            ConnectionActionView::AcceptStream,
        ),
        (ConnectionStateView::Accepting(peer), ConnectionEventView::Stream(true)) => (
            ConnectionStateView::Ready(peer),
            ConnectionActionView::Pump(peer),
        ),
        (ConnectionStateView::Accepting(_), ConnectionEventView::CancelFlag(true)) => (
            ConnectionStateView::Ended,
            ConnectionActionView::End,
        ),
        (ConnectionStateView::Accepting(_), ConnectionEventView::Stream(false)) => (
            ConnectionStateView::Ended,
            ConnectionActionView::End,
        ),
        _ => (state, connection_pending(state)),
    }
}

/// Tell a connection what came of its last action, and learn its next. It
/// starts awaiting the handshake stream.
pub fn connection_step(state: ConnectionState, event: ConnectionEvent) -> (step: (
    ConnectionState,
    ConnectionAction,
))
    ensures
        (step.0@, step.1@) == connection_next(state@, event@),
{
    match (state, event) {
        (ConnectionState::AwaitingStream, ConnectionEvent::Stream(true)) => (
            ConnectionState::Handshaking,
            ConnectionAction::Handshake,
        ),
        (ConnectionState::AwaitingStream, ConnectionEvent::CancelFlag(true)) => (
            ConnectionState::Ended,
            ConnectionAction::End,
        ),
        (ConnectionState::AwaitingStream, ConnectionEvent::Stream(false)) => (
            ConnectionState::Ended,
            ConnectionAction::End,
        ),
        (ConnectionState::Handshaking, ConnectionEvent::Handshake(Ok(summary))) => (
            ConnectionState::Ready(summary.subject),
            ConnectionAction::CheckCancel,
        ),
        (ConnectionState::Handshaking, ConnectionEvent::Handshake(Err(_))) => (
            ConnectionState::Ended,
            ConnectionAction::Close { code: 0, reason: "handshake failed".to_owned() },
        ),
        (ConnectionState::Ready(_), ConnectionEvent::CancelFlag(true)) => (
            ConnectionState::Ended,
            ConnectionAction::End,
        ),
        (ConnectionState::Ready(peer), ConnectionEvent::CancelFlag(false)) => (
            ConnectionState::Accepting(peer),
            ConnectionAction::AcceptStream,
        ),
        (ConnectionState::Accepting(peer), ConnectionEvent::Stream(true)) => {
            let pumped = peer.clone();
            (ConnectionState::Ready(peer), ConnectionAction::Pump(pumped))
        },
        (ConnectionState::Accepting(_), ConnectionEvent::CancelFlag(true)) => (
            ConnectionState::Ended,
            ConnectionAction::End,
        ),
        (ConnectionState::Accepting(_), ConnectionEvent::Stream(false)) => (
            ConnectionState::Ended,
            ConnectionAction::End,
        ),
        (ConnectionState::AwaitingStream, _) => (
            ConnectionState::AwaitingStream,
            ConnectionAction::AcceptStream,
        ),
        (ConnectionState::Handshaking, _) => (
            ConnectionState::Handshaking,
            ConnectionAction::Handshake,
        ),
        (ConnectionState::Ready(peer), _) => (
            ConnectionState::Ready(peer),
            ConnectionAction::CheckCancel,
        ),
        (ConnectionState::Accepting(peer), _) => (
            ConnectionState::Accepting(peer),
            ConnectionAction::AcceptStream,
        ),
        (ConnectionState::Ended, _) => (ConnectionState::Ended, ConnectionAction::End),
    }
}

/// What the stub service does next.
#[derive(Debug, Clone, Copy, PartialEq, Eq, Structural)]
pub enum ServeAction {
    /// Emit a heartbeat with this number of active sessions, sleep this many
    /// milliseconds, then look at the cancellation flag again.
    Heartbeat { active_sessions: u64, sleep_ms: u64 },
    /// Stop.
    Stop,
}

/// What the stub service does after a look at the cancellation flag.
pub fn serve_step(cancelled: bool, active_sessions: u64) -> (action: ServeAction)
    ensures
        action == if cancelled {
            ServeAction::Stop
        } else {
            ServeAction::Heartbeat { active_sessions, sleep_ms: 50 }
        },
{
    if cancelled {
        ServeAction::Stop
    } else {
        ServeAction::Heartbeat { active_sessions, sleep_ms: 50 }
    }
}

/// The state of a connection after a series of events.
pub open spec fn connection_after(events: Seq<ConnectionEventView>) -> ConnectionStateView
    decreases events.len(),
{
    if events.len() == 0 {
        ConnectionStateView::AwaitingStream
    } else {
        connection_next(connection_after(events.drop_last()), events.last()).0
    }
}

/// Whether a handshake among the events succeeded for a ticket of subject
/// `peer`.
pub open spec fn authenticated(events: Seq<ConnectionEventView>, peer: Seq<char>) -> bool {
    exists|i: int|
        0 <= i < events.len() && (#[trigger] events[i] matches ConnectionEventView::Handshake(
            Ok(summary),
        ) && summary.subject == peer)
}

/// Law: no stream is pumped without a handshake. Whenever a connection pumps a
/// stream, its ticket handshake has succeeded before, and the stream is pumped
/// for the subject of the ticket.
pub proof fn law_only_authenticated_streams_are_pumped(
    events: Seq<ConnectionEventView>,
    event: ConnectionEventView,
)
    ensures
        connection_next(connection_after(events), event).1 matches ConnectionActionView::Pump(peer)
            ==> authenticated(events, peer),
{
    lemma_authenticated(events);
}

proof fn lemma_authenticated(events: Seq<ConnectionEventView>)
    ensures
        match connection_after(events) {
            ConnectionStateView::Ready(peer) => authenticated(events, peer),
            ConnectionStateView::Accepting(peer) => authenticated(events, peer),
            _ => true,
        },
    decreases events.len(),
{
    if events.len() > 0 {
        let earlier = events.drop_last();
        lemma_authenticated(earlier);
        assert forall|peer: Seq<char>| authenticated(earlier, peer) implies authenticated(
            events,
            peer,
        ) by {
            let i = choose|i: int|
                0 <= i < earlier.len() && (
                #[trigger] earlier[i] matches ConnectionEventView::Handshake(Ok(summary))
                    && summary.subject == peer);
            assert(events[i] == earlier[i]);
        }
        assert(events[events.len() - 1] == events.last());
    }
}

/// Law: a connection that is over stays over, and so does an accept loop that
/// has stopped.
pub proof fn law_the_end_is_final(event: ConnectionEventView, listener_event: ListenerEvent)
    ensures
        connection_next(ConnectionStateView::Ended, event) == (
            ConnectionStateView::Ended,
            ConnectionActionView::End,
        ),
        listener_next(ListenerState::Stopped, listener_event) == (
            ListenerState::Stopped,
            ListenerAction::Stop,
        ),
{
}

/// Law: the cancellation flag ends whatever waits. An accept loop stops, unless
/// it has an incoming connection to hand over first, and then it stops at its
/// next look at the flag; a connection ends, unless its handshake is under way,
/// and then it pumps no stream before its next look at the flag. No further
/// connection or stream is needed for either.
pub proof fn law_cancellation_ends_waiting(
    state: ListenerState,
    connected: bool,
    connection: ConnectionStateView,
    outcome: Result<HandshakeSummaryView, SessionErrorView>,
)
    ensures
        !(state is Connecting) ==> listener_next(state, ListenerEvent::CancelFlag(true)) == (
            ListenerState::Stopped,
            ListenerAction::Stop,
        ),
        state is Connecting ==> listener_next(
            listener_next(state, ListenerEvent::Connected(connected)).0,
            ListenerEvent::CancelFlag(true),
        ) == (ListenerState::Stopped, ListenerAction::Stop),
        !(connection is Handshaking) ==> connection_next(
            connection,
            ConnectionEventView::CancelFlag(true),
        ) == (ConnectionStateView::Ended, ConnectionActionView::End),
        connection is Handshaking ==> {
            let through = connection_next(connection, ConnectionEventView::Handshake(outcome));
            &&& !(through.1 is Pump)
            &&& connection_next(through.0, ConnectionEventView::CancelFlag(true)) == (
                ConnectionStateView::Ended,
                ConnectionActionView::End,
            )
        },
{
}

/// Law: a failed handshake closes the connection for good, and leaves no
/// stream to pump.
pub proof fn law_failed_handshake_ends_the_connection(error: SessionErrorView)
    ensures
        connection_next(
            ConnectionStateView::Handshaking,
            ConnectionEventView::Handshake(Err(error)),
        ) == (
            ConnectionStateView::Ended,
            ConnectionActionView::Close { code: 0, reason: "handshake failed"@ },
        ),
{
}

/// Law: every connection is served. A loop that is not cancelled waits for the
/// next connection, completes its QUIC handshake, hands it over if that
/// succeeded, and in either case looks at the flag again; it stops only when
/// cancelled or when the endpoint is closed.
pub proof fn law_every_connection_is_served(state: ListenerState, event: ListenerEvent)
    ensures
        listener_next(ListenerState::Idle, ListenerEvent::CancelFlag(false)) == (
            ListenerState::Accepting,
            ListenerAction::Accept,
        ),
        listener_next(ListenerState::Accepting, ListenerEvent::Incoming) == (
            ListenerState::Connecting,
            ListenerAction::Connect,
        ),
        listener_next(ListenerState::Connecting, ListenerEvent::Connected(true)) == (
            ListenerState::Idle,
            ListenerAction::Serve,
        ),
        listener_next(ListenerState::Connecting, ListenerEvent::Connected(false)) == (
            ListenerState::Idle,
            ListenerAction::CheckCancel,
        ),
        ({
            let after = listener_next(state, event);
            &&& after.1 is Stop <==> after.0 is Stopped
            &&& after.0 is Stopped && !(state is Stopped) <==> {
                ||| state is Idle && event == ListenerEvent::CancelFlag(true)
                ||| state is Accepting && event == ListenerEvent::CancelFlag(true)
                ||| state is Accepting && event is EndpointClosed
            }
            &&& after.1 is Serve <==> state is Connecting && event == ListenerEvent::Connected(true)
            &&& after.0 is Idle && !(after.1 is Serve) <==> after.1 is CheckCancel
            &&& after.0 is Accepting <==> after.1 is Accept
            &&& after.0 is Connecting <==> after.1 is Connect
            &&& after.0 != state ==> {
                ||| state is Idle && event is CancelFlag
                ||| state is Accepting
                ||| state is Connecting && event is Connected
            }
        }),
{
}

/// Law: every stream of an authenticated peer is pumped for that peer. The
/// first stream carries the handshake; its subject is the peer for as long as
/// the connection lasts; each further stream is pumped, and the connection
/// ends only when it is gone, cancelled, or its handshake failed.
pub proof fn law_every_stream_is_pumped(
    state: ConnectionStateView,
    event: ConnectionEventView,
    peer: Seq<char>,
    summary: HandshakeSummaryView,
)
    ensures
        connection_next(ConnectionStateView::AwaitingStream, ConnectionEventView::Stream(true)) == (
            ConnectionStateView::Handshaking,
            ConnectionActionView::Handshake,
        ),
        connection_next(
            ConnectionStateView::Handshaking,
            ConnectionEventView::Handshake(Ok(summary)),
        ) == (
            ConnectionStateView::Ready(summary.subject),
            ConnectionActionView::CheckCancel,
        ),
        connection_next(ConnectionStateView::Ready(peer), ConnectionEventView::CancelFlag(false))
            == (ConnectionStateView::Accepting(peer), ConnectionActionView::AcceptStream),
        connection_next(ConnectionStateView::Accepting(peer), ConnectionEventView::Stream(true))
            == (ConnectionStateView::Ready(peer), ConnectionActionView::Pump(peer)),
        ({
            let after = connection_next(state, event);
            &&& after.0 is Ended && !(state is Ended) <==> {
                ||| state is AwaitingStream && event == ConnectionEventView::Stream(false)
                ||| state is Accepting && event == ConnectionEventView::Stream(false)
                ||| !(state is Handshaking || state is Ended) && event
                    == ConnectionEventView::CancelFlag(true)
                ||| state is Handshaking && (event matches ConnectionEventView::Handshake(Err(_)))
            }
            &&& after.1 is Pump <==> state is Accepting && event == ConnectionEventView::Stream(
                true,
            )
            &&& after.1 is Close <==> state is Handshaking && (event matches
                ConnectionEventView::Handshake(Err(_)))
            &&& after.0 is Ended <==> after.1 is End || after.1 is Close
            &&& after.0 is Handshaking <==> after.1 is Handshake
            &&& after.1 is AcceptStream <==> after.0 is AwaitingStream || after.0 is Accepting
            &&& after.1 is CheckCancel <==> after.0 is Ready && !(after.1 is Pump)
            &&& state is Ready && event is Stream ==> after.0 == state
            &&& (state is Ready || state is Accepting) && event is Handshake ==> after.0 == state
            &&& state is AwaitingStream && event is Handshake ==> after.0 == state
            &&& state is Handshaking && !(event is Handshake) ==> after.0 == state
            &&& event == ConnectionEventView::CancelFlag(false) && !(state is Ready) ==> after.0
                == state
        }),
{
}

/// Law: the content of a connection's state, event and action is all of it.
pub proof fn law_connections_show_their_content(
    state: ConnectionState,
    event: ConnectionEvent,
    action: ConnectionAction,
)
    ensures
        match state {
            ConnectionState::AwaitingStream => state@ is AwaitingStream,
            ConnectionState::Handshaking => state@ is Handshaking,
            ConnectionState::Ready(peer) => state@ == ConnectionStateView::Ready(peer.0@),
            ConnectionState::Accepting(peer) => state@ == ConnectionStateView::Accepting(peer.0@),
            ConnectionState::Ended => state@ is Ended,
        },
        match event {
            ConnectionEvent::Stream(opened) => event@ == ConnectionEventView::Stream(opened),
            ConnectionEvent::Handshake(Ok(summary)) => event@ == ConnectionEventView::Handshake(
                Ok(summary@),
            ),
            ConnectionEvent::Handshake(Err(error)) => event@ == ConnectionEventView::Handshake(
                Err(error@),
            ),
            ConnectionEvent::CancelFlag(flag) => event@ == ConnectionEventView::CancelFlag(flag),
        },
        match action {
            ConnectionAction::AcceptStream => action@ is AcceptStream,
            ConnectionAction::Handshake => action@ is Handshake,
            ConnectionAction::CheckCancel => action@ is CheckCancel,
            ConnectionAction::Pump(peer) => action@ == ConnectionActionView::Pump(peer.0@),
            ConnectionAction::Close { code, reason } => action@ == (ConnectionActionView::Close {
                code,
                reason: reason@,
            }),
            ConnectionAction::End => action@ is End,
        },
{
}

} // verus!
