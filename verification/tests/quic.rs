//! Transport profiles and path diagnostics.

use snappipe::net::IpAddress;
use snappipe::quic::rebind::{
    ip_hash, observe, ObserverAction, ObserverEvent, RebindDiagnostics,
};
use snappipe::quic::{QuicProfileError, QuicTransportProfile};

#[test]
fn low_latency_profile_builds_quinn_transport_config() {
    let profile = QuicTransportProfile::low_latency_interactive("/snappipe/0");
    let config = profile.build_transport_config().unwrap();
    let rendered = format!("{config:?}");

    assert!(rendered.contains("max_concurrent_bidi_streams: 8"));
    assert!(rendered.contains("max_concurrent_uni_streams: 32"));
    assert!(rendered.contains("datagram_send_buffer_size: 2097152"));
    assert!(rendered.contains("allow_spin: false"));
}

#[test]
fn relay_profile_builds_quinn_transport_config() {
    let profile = QuicTransportProfile::relay_backhaul("/snappipe/0");
    let config = profile.build_transport_config().unwrap();
    let rendered = format!("{config:?}");

    assert!(rendered.contains("max_concurrent_bidi_streams: 32"));
    assert!(rendered.contains("datagram_receive_buffer_size: Some(4194304)"));
}

#[test]
fn profile_rejects_varint_overflow() {
    let mut profile = QuicTransportProfile::low_latency_interactive("/snappipe/0");
    profile.receive_window_bytes = u64::MAX;

    let result = profile.build_transport_config();

    assert!(matches!(result, Err(QuicProfileError::VarIntBounds(_))));
}

#[test]
fn each_varint_has_its_bound() {
    let limit = 1u64 << 62;
    for value in [limit - 1, limit] {
        let mut idle = QuicTransportProfile::relay_backhaul("x");
        idle.max_idle_timeout_ms = value;
        assert_eq!(idle.build_transport_config().is_ok(), value < limit);
        let mut stream = QuicTransportProfile::relay_backhaul("x");
        stream.stream_receive_window_bytes = value;
        assert_eq!(stream.build_transport_config().is_ok(), value < limit);
        let mut window = QuicTransportProfile::relay_backhaul("x");
        window.receive_window_bytes = value;
        assert_eq!(window.build_transport_config().is_ok(), value < limit);
    }
}

#[test]
fn every_setting_reaches_the_transport() {
    let profile = QuicTransportProfile {
        name: "custom",
        alpn: "x".to_string(),
        max_idle_timeout_ms: 12_345,
        keep_alive_interval_ms: Some(2_500),
        max_concurrent_bidi_streams: 3,
        max_concurrent_uni_streams: 4,
        stream_receive_window_bytes: 55,
        receive_window_bytes: 66,
        send_window_bytes: 77,
        datagram_receive_buffer_size_bytes: None,
        datagram_send_buffer_size_bytes: 88,
        initial_mtu: 1_300,
        min_mtu: 1,
        mtu_discovery_upper_bound: Some(u16::MAX),
        pad_datagrams_to_mtu: true,
        allow_spin: true,
        enable_segmentation_offload: false,
    };
    let rendered = format!("{:?}", profile.build_transport_config().unwrap());
    for expected in [
        "max_idle_timeout: Some(12345)",
        "keep_alive_interval: Some(2.5s)",
        "max_concurrent_bidi_streams: 3,",
        "max_concurrent_uni_streams: 4,",
        " stream_receive_window: 55,",
        " receive_window: 66,",
        "send_window: 77,",
        "datagram_receive_buffer_size: None",
        "datagram_send_buffer_size: 88,",
        "initial_mtu: 1300,",
        "min_mtu: 1200,",
        "interval: 600s, upper_bound: 65527, minimum_change: 20, black_hole_cooldown: 60s",
        "pad_to_mtu: true",
        "allow_spin: true",
        "enable_segmentation_offload: false",
    ] {
        assert!(rendered.contains(expected), "{expected} is not in {rendered}");
    }

    let mut quiet = profile.clone();
    quiet.mtu_discovery_upper_bound = None;
    quiet.keep_alive_interval_ms = None;
    let rendered = format!("{:?}", quiet.build_transport_config().unwrap());
    assert!(rendered.contains("mtu_discovery_config: None"));
    assert!(rendered.contains("keep_alive_interval: None"));
}

#[test]
fn presets_have_their_values() {
    let fast = QuicTransportProfile::low_latency_interactive("a");
    assert_eq!(fast.name, "low-latency-interactive");
    assert_eq!(fast.alpn, "a");
    assert_eq!(fast.max_idle_timeout_ms, 15_000);
    assert_eq!(fast.keep_alive_interval_ms, Some(4_000));
    assert_eq!(fast.stream_receive_window_bytes, 262_144);
    assert_eq!(fast.receive_window_bytes, 2_097_152);
    let relay = QuicTransportProfile::relay_backhaul("b");
    assert_eq!(relay.name, "relay-backhaul");
    assert_eq!(relay.alpn, "b");
    assert_eq!(relay.max_idle_timeout_ms, 30_000);
    assert_eq!(relay.keep_alive_interval_ms, Some(10_000));
    assert_eq!(relay.max_concurrent_uni_streams, 64);
    assert_eq!(relay.send_window_bytes, 8_388_608);
}

#[test]
fn diagnostics_initial_state_is_zero() {
    let d = RebindDiagnostics::new();
    assert_eq!(d.poll_count, 0);
    assert_eq!(d.rebind_count, 0);
    assert_eq!(d.rx_bytes, 0);
    assert_eq!(d.tx_bytes, 0);
}

#[test]
fn record_poll_increments_counter() {
    let mut d = RebindDiagnostics::new();
    d.record_poll(100, 50, 5000, 0x1234);
    assert_eq!(d.poll_count, 1);
    assert_eq!(d.rx_bytes, 100);
    assert_eq!(d.tx_bytes, 50);
}

#[test]
fn rebind_count_increments_on_addr_change() {
    let mut d = RebindDiagnostics::new();
    d.record_poll(0, 0, 1000, 0xAAAA);
    d.record_poll(0, 0, 1000, 0xBBBB); // addr changed -> rebind
    assert_eq!(d.rebind_count, 1);
}

#[test]
fn rebind_count_silent_on_same_addr() {
    let mut d = RebindDiagnostics::new();
    d.record_poll(0, 0, 1000, 0xCCCC);
    d.record_poll(0, 0, 1000, 0xCCCC); // same addr -> no rebind
    assert_eq!(d.rebind_count, 0);
}

#[test]
fn rtt_min_max_updated() {
    let mut d = RebindDiagnostics::new();
    d.record_poll(0, 0, 5000, 0);
    d.record_poll(0, 0, 15000, 0);
    d.record_poll(0, 0, 10000, 0);
    assert_eq!(d.rtt_min_us, 5000);
    assert_eq!(d.rtt_max_us, 15000);
}

#[test]
fn already_started_returns_false_then_true() {
    let mut d = RebindDiagnostics::new();
    assert!(!d.already_started());
    assert!(d.already_started());
    assert!(d.already_started()); // multiple calls safe
}

#[test]
fn rebind_diagnostics_records_poll() {
    let mut diag = RebindDiagnostics::new();

    // Simulate what the observer task does: record a poll.
    diag.record_poll(1024, 512, 5000, 0xDEAD);

    assert_eq!(diag.poll_count, 1);
    assert_eq!(diag.rx_bytes, 1024);
    assert_eq!(diag.tx_bytes, 512);
    assert_eq!(diag.rtt_min_us, 5000);
    assert_eq!(diag.rtt_max_us, 5000);
    assert_eq!(diag.rebind_count, 0);
}

#[test]
fn rebind_diagnostics_detects_addr_change() {
    let mut diag = RebindDiagnostics::new();

    // First poll with address hash 0xAAAA.
    diag.record_poll(0, 0, 1000, 0xAAAA);
    // Second poll with same address: no rebind.
    diag.record_poll(0, 0, 1000, 0xAAAA);
    assert_eq!(diag.rebind_count, 0);

    // Third poll with different address: rebind detected.
    diag.record_poll(0, 0, 1000, 0xBBBB);
    assert_eq!(diag.rebind_count, 1);
}

#[test]
fn rebind_diagnostics_rtt_min_max() {
    let mut diag = RebindDiagnostics::new();

    diag.record_poll(0, 0, 5000, 0);
    diag.record_poll(0, 0, 15000, 0);
    diag.record_poll(0, 0, 10000, 0);

    assert_eq!(diag.rtt_min_us, 5000);
    assert_eq!(diag.rtt_max_us, 15000);
}

#[test]
fn rebind_diagnostics_already_started() {
    let mut diag = RebindDiagnostics::default();

    // First call returns false, second returns true (and locks forever).
    assert!(!diag.already_started());
    assert!(diag.already_started());
    assert!(diag.already_started()); // multiple calls safe
}

#[test]
fn rebind_diagnostics_throughput_bytes() {
    let mut diag = RebindDiagnostics::new();

    // Two polls with different byte counts.
    diag.record_poll(1000, 500, 5000, 0);
    diag.record_poll(2000, 1500, 5000, 0);

    // Bytes are absolute (last write wins), not cumulative.
    assert_eq!(diag.rx_bytes, 2000);
    assert_eq!(diag.tx_bytes, 1500);
}

#[test]
fn counters_wrap_around() {
    let mut diag = RebindDiagnostics::new();
    diag.record_poll(0, 0, 0, 1);
    diag.poll_count = u64::MAX;
    diag.rebind_count = u64::MAX;
    diag.record_poll(0, 0, 0, 2);
    assert_eq!(diag.poll_count, 0);
    assert_eq!(diag.rebind_count, 0);
    assert_eq!(diag.rtt_min_us, 0);
    assert_eq!(diag.rtt_max_us, 0);
}

#[test]
fn an_unknown_address_is_no_change_to_the_next() {
    let mut diag = RebindDiagnostics::new();
    diag.record_poll(0, 0, 1, 0xAAAA);
    diag.record_poll(0, 0, 1, 0); // lost: a change
    diag.record_poll(0, 0, 1, 0xBBBB); // found again: none
    assert_eq!(diag.rebind_count, 1);
}

#[test]
fn ip_hash_has_exact_values() {
    assert_eq!(ip_hash(&IpAddress::V4(0x7f00_0001)), 5_655_823_368_993_601_977);
    assert_eq!(ip_hash(&IpAddress::V4(0xc0a8_0001)), 8_579_761_580_774_750_649);
    assert_eq!(ip_hash(&IpAddress::V4(0)), 0);
    let v6 = IpAddress::V6([0x2001, 0xdb8, 1, 2, 3, 4, 5, 6]);
    assert_eq!(ip_hash(&v6), 2_506_112_664_357_827_442);
    // The last four segments do not count; the first four do.
    assert_eq!(ip_hash(&IpAddress::V6([0x2001, 0xdb8, 1, 2, 9, 9, 9, 9])), ip_hash(&v6));
    assert_ne!(ip_hash(&IpAddress::V6([0x2001, 0xdb8, 1, 3, 3, 4, 5, 6])), ip_hash(&v6));
}

#[test]
fn observer_records_ticks_until_cancelled_or_closed() {
    let mut diag = RebindDiagnostics::new();
    let tick = |bits: u32, rtt_us: u128| ObserverEvent::Tick {
        rx: 10,
        tx: 20,
        rtt_us,
        local_ip: Some(IpAddress::V4(bits)),
    };
    assert_eq!(observe(&mut diag, tick(0x0a00_0001, 700)), ObserverAction::Wait);
    assert_eq!(observe(&mut diag, ObserverEvent::CancelFlag(false)), ObserverAction::Wait);
    // Round-trip times are kept modulo 2^32.
    assert_eq!(
        observe(&mut diag, tick(0x0a00_0002, 0x1_0000_0000 + 900)),
        ObserverAction::Wait
    );
    assert_eq!(diag.poll_count, 2);
    assert_eq!(diag.rebind_count, 1);
    assert_eq!((diag.rtt_min_us, diag.rtt_max_us), (700, 900));
    let before = format!("{diag:?}");
    assert_eq!(observe(&mut diag, ObserverEvent::CancelFlag(true)), ObserverAction::Stop);
    assert_eq!(observe(&mut diag, ObserverEvent::Closed), ObserverAction::Stop);
    assert_eq!(format!("{diag:?}"), before);
    // The address last seen is remembered by its hash; an unknown one is zero.
    diag.record_poll(0, 0, 1, ip_hash(&IpAddress::V4(0x0a00_0002)));
    assert_eq!(diag.rebind_count, 1);
    let unknown = ObserverEvent::Tick { rx: 0, tx: 0, rtt_us: 1, local_ip: None };
    assert_eq!(observe(&mut diag, unknown), ObserverAction::Wait);
    assert_eq!(diag.rebind_count, 2);
    assert_eq!(observe(&mut diag, tick(0x0a00_0003, 1)), ObserverAction::Wait);
    assert_eq!(diag.rebind_count, 2);
}

#[test]
fn a_claim_outlasts_polls() {
    let mut diag = RebindDiagnostics::new();
    diag.record_poll(1, 1, 1, 1);
    assert!(!diag.already_started());
    diag.record_poll(2, 2, 2, 2);
    assert!(diag.already_started());
}
