//! The relay: sessions, streams, statistics and the listener's loops.

use std::time::Duration;

use snappipe::keys::SigningKey;
use snappipe::net::{IpAddress, SocketAddress};
use snappipe::node::NodeId;
use snappipe::rate_limit::{RateLimiter, TokenBucket, PARTS_PER_TOKEN};
use snappipe::relay::listener::{
    connection_step, listener_step, serve_step, ConnectionAction, ConnectionEvent,
    ConnectionState, ListenerAction, ListenerEvent, ListenerState, ServeAction,
};
use snappipe::relay::pump::{RelayAction, RelayEvent, CHUNK_LEN};
use snappipe::relay::stats::{LabelCounts, RelayStats};
use snappipe::relay::stream::{ByteStream, MemoryStream};
use snappipe::relay::{ConnectionLog, ConnectionOutcome, Relay, RelayConfig};
use snappipe::session::{HandshakeSummary, SessionError};
use snappipe::ticket::TicketError;
use snappipe::trust::TrustStore;

const SEC: i64 = 1_000_000_000;

fn key(seed: u8) -> SigningKey {
    SigningKey::from_bytes(&[seed; 32])
}

fn node() -> NodeId {
    NodeId::from_verifying_key(&key(7).verifying_key())
}

fn localhost(port: u16) -> SocketAddress {
    SocketAddress { ip: IpAddress::V4(0x7f00_0001), port }
}

fn relay_trusting(limit: u32, entries: &[(&NodeId, u32)]) -> Relay {
    let mut trust = TrustStore::new();
    for (node, budget) in entries {
        trust.add((*node).clone(), "trusted", *budget);
    }
    Relay::new(RelayConfig::new(localhost(0), trust, RateLimiter::new(limit), key(1)))
}

/// Feed a session of `peer` the given events and return its log.
fn run(relay: &mut Relay, peer: &NodeId, started: i64, events: Vec<RelayEvent>) -> ConnectionLog {
    let (mut session, mut action) = relay.open_session(peer.clone(), started);
    for event in events {
        let (next_session, next_action) = relay.step(session, event);
        session = next_session;
        action = next_action;
    }
    match action {
        RelayAction::Finish(log) => log,
        other => panic!("expected the end, got {other:?}"),
    }
}

#[test]
fn connection_log_carries_outcome_label() {
    let n = node();
    let log = ConnectionLog {
        src_node: n.clone(),
        dst_node: None,
        bytes_in: 100,
        bytes_out: 95,
        started_at_unix: SEC,
        duration_ms: 50,
        outcome: ConnectionOutcome::Closed,
    };
    assert_eq!(log.bytes_in, 100);
    assert_eq!(log.bytes_out, 95);
    assert_eq!(log.outcome, ConnectionOutcome::Closed);
}

#[test]
fn untrusted_peer_is_rejected_without_forwarding() {
    let trust = TrustStore::new();
    let limiter = RateLimiter::new(100);
    let config = RelayConfig::new(localhost(0), trust, limiter, key(1));
    let mut relay = Relay::new(config);

    let peer = node();
    let mut incoming = MemoryStream::with_payload(b"ping".to_vec());
    let mut outgoing = MemoryStream::default();

    let log = relay
        .handle_connection(peer, &mut incoming, &mut outgoing, 1_000 * SEC, || 1_000 * SEC)
        .unwrap();

    assert_eq!(log.outcome, ConnectionOutcome::TrustRejected);
    assert_eq!(log.bytes_in, 0);
    assert_eq!(log.bytes_out, 0);
    assert!(outgoing.into_written().is_empty());
    let mut buf = [0u8; 8];
    assert_eq!(incoming.read(&mut buf), Ok(4));
    // The limiter took no notice.
    assert_eq!(relay.config().rate_limiter.tracked_nodes(), 0);
    assert_eq!(relay.active_sessions(), 0);
}

#[test]
fn trusted_peer_forwards_payload_and_reports_closed() {
    let mut trust = TrustStore::new();
    let limiter = RateLimiter::new(100);
    let peer = node();
    trust.add(peer.clone(), "trusted", 100);
    let config = RelayConfig::new(localhost(0), trust, limiter, key(1));
    let mut relay = Relay::new(config);

    let payload = b"hello, relay!".to_vec();
    let mut incoming = MemoryStream::with_payload(payload.clone());
    let mut outgoing = MemoryStream::default();

    let log = relay
        .handle_connection(peer.clone(), &mut incoming, &mut outgoing, 1_000 * SEC, || {
            1_000 * SEC + SEC / 2
        })
        .unwrap();

    assert_eq!(log.outcome, ConnectionOutcome::Closed);
    assert_eq!(log.bytes_in as usize, payload.len());
    assert_eq!(log.bytes_out as usize, payload.len());
    assert!(log.duration_ms >= 500);
    assert_eq!(log.duration_ms, 500);
    assert_eq!(log.src_node, peer);
    assert_eq!(log.dst_node, None);
    assert_eq!(log.started_at_unix, 1_000 * SEC);
    assert_eq!(outgoing.into_written(), payload);
    assert_eq!(relay.active_sessions(), 0);
}

#[test]
fn rate_limited_peer_is_cut_short() {
    let mut trust = TrustStore::new();
    let limiter = RateLimiter::new(1); // 1 token total
    let peer = node();
    trust.add(peer.clone(), "trusted", 1);
    let config = RelayConfig::new(localhost(0), trust, limiter, key(1));
    let mut relay = Relay::new(config);

    // Pump enough bytes to consume the bucket and trigger rate-limit.
    let mut big = Vec::with_capacity(64 * 1024);
    for _ in 0..8 {
        big.extend_from_slice(&[0xAB; 8 * 1024]);
    }
    let mut incoming = MemoryStream::with_payload(big);
    let mut outgoing = MemoryStream::default();

    let log = relay
        .handle_connection(peer, &mut incoming, &mut outgoing, 1_000 * SEC, || 1_000 * SEC)
        .unwrap();

    assert_eq!(log.outcome, ConnectionOutcome::RateLimited);
    // We did consume at least one window before being cut.
    assert!(log.bytes_in > 0);
    assert!(log.bytes_out < log.bytes_in);
    assert_eq!(log.bytes_in, CHUNK_LEN as u64);
    assert_eq!(log.bytes_out, 0);
}

#[test]
fn payload_is_forwarded_in_order_and_charged_by_the_chunk() {
    let peer = node();
    let mut relay = relay_trusting(100, &[(&peer, 10)]);
    let payload: Vec<u8> = (0..20_000u32).map(|i| (i % 251) as u8).collect();
    let mut incoming = MemoryStream::with_payload(payload.clone());
    let mut outgoing = MemoryStream::default();
    let log = relay
        .handle_connection(peer.clone(), &mut incoming, &mut outgoing, 5 * SEC, || 5 * SEC)
        .unwrap();
    assert_eq!(log.outcome, ConnectionOutcome::Closed);
    assert_eq!((log.bytes_in, log.bytes_out), (20_000, 20_000));
    assert_eq!(log.duration_ms, 0);
    assert_eq!(outgoing.into_written(), payload);
    // One token to get in and one for each of three chunks.
    let bucket = relay.config().rate_limiter.snapshot(&peer).unwrap();
    assert_eq!(bucket.tokens, 6 * PARTS_PER_TOKEN);
    assert_eq!(relay.config().rate_limiter.metrics().total_try_consume_calls, 4);
}

#[test]
fn empty_bucket_turns_the_connection_away_at_the_door() {
    let peer = node();
    let mut relay = relay_trusting(100, &[(&peer, 1)]);
    for expected in [ConnectionOutcome::Closed, ConnectionOutcome::RateLimited] {
        let mut incoming = MemoryStream::default();
        let mut outgoing = MemoryStream::default();
        let log = relay
            .handle_connection(peer.clone(), &mut incoming, &mut outgoing, 0, || SEC)
            .unwrap();
        assert_eq!(log.duration_ms, if expected == ConnectionOutcome::Closed { 1_000 } else { 0 });
        assert_eq!(log.outcome, expected);
        assert_eq!((log.bytes_in, log.bytes_out), (0, 0));
        assert_eq!(relay.active_sessions(), 0);
    }
}

#[test]
fn stream_errors_end_the_connection() {
    let peer = node();
    let mut relay = relay_trusting(100, &[(&peer, 100)]);
    let log = run(
        &mut relay,
        &peer,
        2 * SEC,
        vec![
            RelayEvent::Clock(SEC),
            RelayEvent::Read(Ok(3)),
            RelayEvent::Clock(SEC),
            RelayEvent::Written(Ok(())),
            RelayEvent::Read(Err("lost".to_string())),
            RelayEvent::Clock(SEC),
        ],
    );
    assert_eq!(log.outcome, ConnectionOutcome::Error("lost".to_string()));
    assert_eq!((log.bytes_in, log.bytes_out), (3, 3));
    // A clock that runs back shows no time elapsed.
    assert_eq!(log.duration_ms, 0);

    let log = run(
        &mut relay,
        &peer,
        0,
        vec![
            RelayEvent::Clock(0),
            RelayEvent::Read(Ok(3)),
            RelayEvent::Clock(0),
            RelayEvent::Written(Ok(())),
            RelayEvent::Read(Ok(2)),
            RelayEvent::Clock(0),
            RelayEvent::Written(Err("full".to_string())),
            RelayEvent::Clock(1_999_999),
        ],
    );
    assert_eq!(log.outcome, ConnectionOutcome::Error("full".to_string()));
    assert_eq!((log.bytes_in, log.bytes_out), (5, 3));
    assert_eq!(log.duration_ms, 1);
    assert_eq!(relay.active_sessions(), 0);
}

#[test]
fn sessions_are_counted_while_they_last() {
    let a = node();
    let b = NodeId("b".to_string());
    let mut relay = relay_trusting(100, &[(&a, 3), (&b, 2)]);
    assert_eq!(relay.active_sessions(), 0);
    let (first, action) = relay.open_session(a.clone(), 0);
    assert!(matches!(action, RelayAction::ReadClock));
    let (second, _) = relay.open_session(b.clone(), 0);
    assert_eq!(relay.active_sessions(), 2);
    // A stranger is counted and gone.
    let (stranger, action) = relay.open_session(NodeId("c".to_string()), 5);
    match action {
        RelayAction::Finish(log) => {
            assert_eq!(log.outcome, ConnectionOutcome::TrustRejected);
            assert_eq!(log.started_at_unix, 5);
        }
        other => panic!("expected the end, got {other:?}"),
    }
    assert_eq!(relay.active_sessions(), 2);
    let (_, action) = relay.step(stranger, RelayEvent::Clock(1));
    assert!(matches!(action, RelayAction::Idle));

    let (first, action) = relay.step(first, RelayEvent::Clock(0));
    assert!(matches!(action, RelayAction::Read));
    // What it is not waiting for changes nothing.
    let (first, action) = relay.step(first, RelayEvent::Written(Ok(())));
    assert!(matches!(action, RelayAction::Read));
    let (first, action) = relay.step(first, RelayEvent::Read(Ok(10)));
    assert!(matches!(action, RelayAction::ReadClock));
    let (first, action) = relay.step(first, RelayEvent::Clock(0));
    assert!(matches!(action, RelayAction::Write(10)));
    let (first, action) = relay.step(first, RelayEvent::Written(Ok(())));
    assert!(matches!(action, RelayAction::Read));
    let (first, action) = relay.step(first, RelayEvent::Read(Ok(0)));
    assert!(matches!(action, RelayAction::ReadClock));
    assert_eq!(relay.active_sessions(), 2);
    let (_, action) = relay.step(first, RelayEvent::Clock(3_000_000));
    match action {
        RelayAction::Finish(log) => {
            assert_eq!(log.src_node, a);
            assert_eq!((log.bytes_in, log.bytes_out, log.duration_ms), (10, 10, 3));
        }
        other => panic!("expected the end, got {other:?}"),
    }
    assert_eq!(relay.active_sessions(), 1);

    // The other node's budget is untouched.
    assert_eq!(
        relay.config().rate_limiter.snapshot(&b),
        Some(TokenBucket::full(2, 0))
    );
    let (second, _) = relay.step(second, RelayEvent::Clock(0));
    let (second, _) = relay.step(second, RelayEvent::Read(Err("gone".to_string())));
    let (_, action) = relay.step(second, RelayEvent::Clock(0));
    assert!(matches!(action, RelayAction::Finish(_)));
    assert_eq!(relay.active_sessions(), 0);
}

#[test]
fn denied_chunk_closes_the_session_unwritten() {
    let peer = node();
    let mut relay = relay_trusting(100, &[(&peer, 1)]);
    let (session, _) = relay.open_session(peer, 0);
    let (session, action) = relay.step(session, RelayEvent::Clock(0));
    assert!(matches!(action, RelayAction::Read));
    let (session, _) = relay.step(session, RelayEvent::Read(Ok(4)));
    let (session, action) = relay.step(session, RelayEvent::Clock(1));
    assert!(matches!(action, RelayAction::ReadClock));
    let (_, action) = relay.step(session, RelayEvent::Clock(2));
    match action {
        RelayAction::Finish(log) => {
            assert_eq!(log.outcome, ConnectionOutcome::RateLimited);
            assert_eq!((log.bytes_in, log.bytes_out), (4, 0));
        }
        other => panic!("expected the end, got {other:?}"),
    }
}

#[test]
fn node_limits_come_from_the_trust_store() {
    let peer = node();
    let mut relay = relay_trusting(100, &[(&peer, 3)]);
    assert!(relay.sync_node_limit(&peer, 4 * SEC));
    assert_eq!(
        relay.config().rate_limiter.snapshot(&peer),
        Some(TokenBucket::full(3, 4 * SEC))
    );
    let stranger = NodeId("stranger".to_string());
    assert!(!relay.sync_node_limit(&stranger, 4 * SEC));
    assert_eq!(relay.config().rate_limiter.snapshot(&stranger), None);
    assert_eq!(relay.config().rate_limiter.metrics().total_set_limit_calls, 1);
}

#[test]
fn trust_store_keeps_the_latest_entry() {
    let mut store = TrustStore::new();
    let peer = node();
    assert!(store.get(&peer).is_none());
    store.add(peer.clone(), "first", 1);
    store.add(peer.clone(), "second", 2);
    let entry = store.get(&peer).unwrap();
    assert_eq!(entry.label, "second");
    assert_eq!(entry.rate_limit_per_min, 2);
    assert!(store.get(&NodeId("other".to_string())).is_none());
}

#[test]
fn memory_stream_delivers_what_fits() {
    let mut stream = MemoryStream::with_payload(vec![1, 2, 3, 4, 5]);
    let mut buf = [9u8; 3];
    assert_eq!(stream.read(&mut buf), Ok(3));
    assert_eq!(buf, [1, 2, 3]);
    assert_eq!(stream.read(&mut buf), Ok(2));
    assert_eq!(buf, [4, 5, 3]);
    assert_eq!(stream.read(&mut buf), Ok(0));
    assert_eq!(stream.write_all(&[7, 8]), Ok(()));
    assert_eq!(stream.write_all(&[9]), Ok(()));
    assert_eq!(stream.finish(), Ok(()));
    assert_eq!(stream.into_written(), vec![7, 8, 9]);
}

#[test]
fn stats_aggregate_by_outcome() {
    let mut stats = RelayStats::new();
    let peer = node();
    let base = ConnectionLog {
        src_node: peer.clone(),
        dst_node: None,
        bytes_in: 0,
        bytes_out: 0,
        started_at_unix: 0,
        duration_ms: 0,
        outcome: ConnectionOutcome::Closed,
    };
    stats.record(&base);
    stats.record(&ConnectionLog {
        outcome: ConnectionOutcome::Closed,
        ..base.clone()
    });
    stats.record(&ConnectionLog {
        outcome: ConnectionOutcome::RateLimited,
        ..base.clone()
    });
    stats.record(&ConnectionLog {
        outcome: ConnectionOutcome::TrustRejected,
        ..base
    });
    assert_eq!(stats.counts.get("closed").copied(), Some(2));
    assert_eq!(stats.counts.get("rate_limited").copied(), Some(1));
    assert_eq!(stats.counts.get("trust_rejected").copied(), Some(1));
    assert_eq!(stats.total(), 4);
}

#[test]
fn errors_are_counted_under_one_label() {
    let mut stats = RelayStats::default();
    assert_eq!(stats.total(), 0);
    for text in ["a", "b", "c"] {
        stats.record(&ConnectionLog {
            src_node: node(),
            dst_node: None,
            bytes_in: 1,
            bytes_out: 0,
            started_at_unix: 0,
            duration_ms: 0,
            outcome: ConnectionOutcome::Error(text.to_string()),
        });
    }
    assert_eq!(stats.counts.get("error").copied(), Some(3));
    assert_eq!(stats.counts.get("closed"), None);
    let copy = stats.clone();
    assert_eq!(copy.total(), 3);
    let mut counts = LabelCounts::new();
    counts.bump("x");
    assert_eq!(counts.total(), 1);
}

#[test]
fn relay_config_exposes_listen_addr() {
    let trust = TrustStore::new();
    let limiter = RateLimiter::new(50);
    let addr = localhost(7777);
    let config = RelayConfig::new(addr, trust, limiter, key(1));
    assert_eq!(config.listen_addr.port, 7777);
    assert_eq!(
        Duration::from_millis(config.idle_timeout_ms),
        Duration::from_secs(30)
    );
}

#[test]
fn relay_keeps_its_key() {
    let relay = relay_trusting(1, &[]);
    assert_eq!(
        relay.signing_key().verifying_key().to_bytes(),
        key(1).verifying_key().to_bytes()
    );
}

#[test]
fn listener_serves_until_cancelled_or_closed() {
    let idle = ListenerState::Idle;
    let (accepting, action) = listener_step(idle, ListenerEvent::CancelFlag(false));
    assert_eq!(action, ListenerAction::Accept);
    let (connecting, action) = listener_step(accepting, ListenerEvent::Incoming);
    assert_eq!(action, ListenerAction::Connect);
    assert_eq!(
        listener_step(connecting, ListenerEvent::Connected(false)),
        (ListenerState::Idle, ListenerAction::CheckCancel)
    );
    assert_eq!(
        listener_step(connecting, ListenerEvent::Connected(true)),
        (ListenerState::Idle, ListenerAction::Serve)
    );
    assert_eq!(
        listener_step(accepting, ListenerEvent::EndpointClosed),
        (ListenerState::Stopped, ListenerAction::Stop)
    );
    let (stopped, action) = listener_step(idle, ListenerEvent::CancelFlag(true));
    assert_eq!(action, ListenerAction::Stop);
    assert_eq!(
        listener_step(stopped, ListenerEvent::Incoming),
        (ListenerState::Stopped, ListenerAction::Stop)
    );
    // The flag stops a loop that waits for a connection.
    assert_eq!(
        listener_step(accepting, ListenerEvent::CancelFlag(true)),
        (ListenerState::Stopped, ListenerAction::Stop)
    );
    assert_eq!(
        listener_step(accepting, ListenerEvent::CancelFlag(false)),
        (ListenerState::Accepting, ListenerAction::Accept)
    );
    // A connection that is coming in is handed over first.
    assert_eq!(
        listener_step(connecting, ListenerEvent::CancelFlag(true)),
        (ListenerState::Connecting, ListenerAction::Connect)
    );
    // What the loop is not waiting for changes nothing.
    assert_eq!(
        listener_step(accepting, ListenerEvent::Connected(true)),
        (ListenerState::Accepting, ListenerAction::Accept)
    );
}

#[test]
fn relay_listener_smoke() {
    let stats = RelayStats::new();
    let (state, _) = listener_step(ListenerState::Idle, ListenerEvent::CancelFlag(false));
    let (state, _) = listener_step(state, ListenerEvent::Incoming);
    let (state, action) = listener_step(state, ListenerEvent::Connected(true));
    assert_eq!(action, ListenerAction::Serve);

    // The client's stream holds b"ping", too short for a length prefix.
    let (connection, _) =
        connection_step(ConnectionState::AwaitingStream, ConnectionEvent::Stream(true));
    let no_ticket = Err(SessionError::Read("stream finished early (4 bytes read)".to_string()));
    let (connection, action) =
        connection_step(connection, ConnectionEvent::Handshake(no_ticket));
    assert!(matches!(connection, ConnectionState::Ended));
    assert!(matches!(action, ConnectionAction::Close { .. }));

    // No further connection comes; then the flag is set.
    let (state, action) = listener_step(state, ListenerEvent::CancelFlag(false));
    assert_eq!(action, ListenerAction::Accept);
    let (_, action) = listener_step(state, ListenerEvent::CancelFlag(true));
    assert_eq!(action, ListenerAction::Stop);
    assert_eq!(stats.total(), 0);
}

fn summary_for(subject: &NodeId) -> HandshakeSummary {
    HandshakeSummary {
        issuer: NodeId("issuer".to_string()),
        subject: subject.clone(),
        relay_url: "quic://relay".to_string(),
        alpn: "/snappipe/0".to_string(),
        expires_at: 1,
    }
}

#[test]
fn connection_pumps_streams_of_the_authenticated_subject() {
    let peer = node();
    let (state, action) =
        connection_step(ConnectionState::AwaitingStream, ConnectionEvent::Stream(true));
    assert!(matches!(action, ConnectionAction::Handshake));
    let (state, action) =
        connection_step(state, ConnectionEvent::Handshake(Ok(summary_for(&peer))));
    assert!(matches!(action, ConnectionAction::CheckCancel));
    let (state, action) = connection_step(state, ConnectionEvent::CancelFlag(false));
    assert!(matches!(action, ConnectionAction::AcceptStream));
    let (state, action) = connection_step(state, ConnectionEvent::Stream(true));
    match action {
        ConnectionAction::Pump(node) => assert_eq!(node, peer),
        other => panic!("expected a stream to be pumped, got {other:?}"),
    }
    let (state, _) = connection_step(state, ConnectionEvent::CancelFlag(false));
    let (state, action) = connection_step(state, ConnectionEvent::Stream(false));
    assert!(matches!(action, ConnectionAction::End));
    let (_, action) = connection_step(state, ConnectionEvent::Stream(true));
    assert!(matches!(action, ConnectionAction::End));
}

#[test]
fn failed_handshake_closes_the_connection() {
    let failure = Err(SessionError::Ticket(TicketError::Expired));
    let (state, action) =
        connection_step(ConnectionState::Handshaking, ConnectionEvent::Handshake(failure));
    match action {
        ConnectionAction::Close { code, reason } => {
            assert_eq!(code, 0);
            assert_eq!(reason, "handshake failed");
        }
        other => panic!("expected the connection to be closed, got {other:?}"),
    }
    assert!(matches!(state, ConnectionState::Ended));
}

#[test]
fn connection_ends_without_a_stream_or_when_cancelled() {
    let (state, action) =
        connection_step(ConnectionState::AwaitingStream, ConnectionEvent::Stream(false));
    assert!(matches!((state, action), (ConnectionState::Ended, ConnectionAction::End)));
    let ready = ConnectionState::Ready(node());
    let (state, action) = connection_step(ready, ConnectionEvent::CancelFlag(true));
    assert!(matches!((state, action), (ConnectionState::Ended, ConnectionAction::End)));
    // The flag ends a connection that waits for a stream.
    for waiting in [ConnectionState::AwaitingStream, ConnectionState::Accepting(node())] {
        let (state, action) = connection_step(waiting, ConnectionEvent::CancelFlag(true));
        assert!(matches!((state, action), (ConnectionState::Ended, ConnectionAction::End)));
    }
    let waiting = ConnectionState::Accepting(node());
    let (state, action) = connection_step(waiting, ConnectionEvent::CancelFlag(false));
    assert!(matches!(state, ConnectionState::Accepting(_)));
    assert!(matches!(action, ConnectionAction::AcceptStream));
    // A handshake under way is completed.
    let (state, action) =
        connection_step(ConnectionState::Handshaking, ConnectionEvent::CancelFlag(true));
    assert!(matches!(state, ConnectionState::Handshaking));
    assert!(matches!(action, ConnectionAction::Handshake));
    // No stream is pumped before the handshake is through.
    let (state, action) =
        connection_step(ConnectionState::Handshaking, ConnectionEvent::Stream(true));
    assert!(matches!(state, ConnectionState::Handshaking));
    assert!(matches!(action, ConnectionAction::Handshake));
}

#[test]
fn stub_service_beats_until_cancelled() {
    assert_eq!(
        serve_step(false, 3),
        ServeAction::Heartbeat { active_sessions: 3, sleep_ms: 50 }
    );
    assert_eq!(serve_step(true, 3), ServeAction::Stop);
}

#[test]
fn same_streams_and_clock_give_the_same_log() {
    let peer = node();
    let payload: Vec<u8> = (0..50_000u32).map(|i| (i / 3) as u8).collect();
    let mut logs = vec![];
    for _ in 0..2 {
        let mut relay = relay_trusting(100, &[(&peer, 4)]);
        let mut incoming = MemoryStream::with_payload(payload.clone());
        let mut outgoing = MemoryStream::default();
        let log = relay
            .handle_connection(peer.clone(), &mut incoming, &mut outgoing, 0, || 7_500_000)
            .unwrap();
        assert_eq!(outgoing.into_written(), payload[..3 * CHUNK_LEN]);
        logs.push(log);
    }
    assert_eq!(logs[0], logs[1]);
    // One token to get in, three chunks, and a fourth that is cut off.
    assert_eq!(logs[0].outcome, ConnectionOutcome::RateLimited);
    assert_eq!(logs[0].bytes_in, 4 * CHUNK_LEN as u64);
    assert_eq!(logs[0].bytes_out, 3 * CHUNK_LEN as u64);
    assert_eq!(logs[0].duration_ms, 7);
}

/// Seconds, cut off to whole nanoseconds.
fn nanos(seconds: f64) -> i64 {
    seconds.trunc() as i64 * SEC + (seconds.fract() * SEC as f64) as i64
}

#[test]
fn durations_are_those_of_the_seconds() {
    let peer = node();
    let mut relay = relay_trusting(100, &[(&peer, 100)]);
    // As an `f64`, 1000.001 is short of a millisecond after 1000.
    for (started, ended, expected) in [
        (1_000.0, 1_000.0, 0),
        (1_000.0, 1_000.001, 0),
        (1_000.0, 1_000.5, 500),
        (1_000.25, 1_003.125, 2_875),
        (1_700_000_000.0, 1_700_000_061.0, 61_000),
        (1_000.0, 999.0, 0),
    ] {
        let in_seconds = ((ended - started as f64).max(0.0) * 1000.0) as u64;
        assert_eq!(in_seconds, expected);
        let log = run(
            &mut relay,
            &peer,
            nanos(started),
            vec![
                RelayEvent::Clock(nanos(started)),
                RelayEvent::Read(Ok(0)),
                RelayEvent::Clock(nanos(ended)),
            ],
        );
        assert_eq!(log.duration_ms, expected);
    }
}

#[test]
fn interleaved_sessions_are_counted_together() {
    let peers = [node(), NodeId("b".to_string()), NodeId("c".to_string())];
    let mut relay = relay_trusting(100, &[(&peers[0], 5), (&peers[1], 6), (&peers[2], 7)]);
    let mut sessions = vec![];
    for (i, peer) in peers.iter().enumerate() {
        sessions.push(relay.open_session(peer.clone(), 0).0);
        assert_eq!(relay.active_sessions(), i as u64 + 1);
    }
    // Each takes one step in turn; only the last of a session counts it off.
    let mut open = 3;
    for round in 0..3 {
        for i in 0..3 {
            let event = match round {
                0 | 2 => RelayEvent::Clock(0),
                _ => RelayEvent::Read(Ok(0)),
            };
            let session = sessions.remove(0);
            sessions.push(relay.step(session, event).0);
            if round == 2 {
                open -= 1;
            }
            assert_eq!(relay.active_sessions(), open);
            let bucket = relay.config().rate_limiter.snapshot(&peers[i]).unwrap();
            assert_eq!(bucket.tokens, (4 + i as u128) * PARTS_PER_TOKEN);
        }
    }
    assert_eq!(relay.active_sessions(), 0);
}
