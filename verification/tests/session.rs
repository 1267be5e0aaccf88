//! Keys, tickets and the ticket-gated handshake.

use snappipe::bytes::{u64_from_be_bytes, u64_to_be_bytes};
use snappipe::keys::{SigningKey, VerifyingKey};
use snappipe::node::NodeId;
use snappipe::session::{
    allow_all_trust, announced_length, client_handshake, conclude_handshake, deny_all_trust,
    length_prefix, server_handshake, HandshakeErrorKind, HandshakeResponse, HandshakeSummary,
    SessionError, SessionMetrics, TrustCheck,
};
use snappipe::ticket::{
    issue_ticket, judge_ticket, verify_ticket, SignedTicket, TicketClaims, TicketError,
    DEFAULT_ALPN,
};
use snappipe::trust::TrustStore;

fn key(seed: u8) -> SigningKey {
    SigningKey::from_bytes(&[seed; 32])
}

fn hex(text: &str) -> Vec<u8> {
    (0..text.len() / 2)
        .map(|i| u8::from_str_radix(&text[2 * i..2 * i + 2], 16).unwrap())
        .collect()
}

fn bytes32(text: &str) -> [u8; 32] {
    hex(text).try_into().unwrap()
}

fn ticket_for(issuer: &SigningKey, subject: Option<&VerifyingKey>) -> SignedTicket {
    issue_ticket(issuer, subject, "quic://relay", DEFAULT_ALPN, 300, 1_700_000_000, "n-1").unwrap()
}

fn id(key: &SigningKey) -> NodeId {
    NodeId::from_verifying_key(&key.verifying_key())
}

const SECRET: &str = "9d61b19deffd5a60ba844af492ec2cc44449c5697b326919703bac031cae7f60";
const PUBLIC: &str = "d75a980182b10ab7d54bfed3c964073a0ee172f3daa62325af021a68f707511a";
const SIGNATURE: &str = "e5564300c360ac729086e2cc806e828a84877f1eb8e5d974d873e06522490155\
                         5fb8821590a33bacc61e39701cf9b46bd25bf5f0595bbe24655141438e7a100b";

#[test]
fn keys_match_the_published_vector() {
    let signing = SigningKey::from_bytes(&bytes32(SECRET));
    let verifying = signing.verifying_key();
    assert_eq!(verifying.to_bytes(), bytes32(PUBLIC));
    assert_eq!(signing.sign(b""), hex(SIGNATURE));
    assert!(verifying.accepts(b"", &hex(SIGNATURE)));
    assert!(!verifying.accepts(b"x", &hex(SIGNATURE)));
    assert!(!key(3).verifying_key().accepts(b"", &hex(SIGNATURE)));
    assert_eq!(NodeId::from_verifying_key(&verifying).to_string(), PUBLIC);
}

#[test]
fn public_keys_are_decoded_or_refused() {
    let good = VerifyingKey::from_bytes(&bytes32(PUBLIC)).unwrap();
    assert_eq!(good.to_bytes(), bytes32(PUBLIC));
    let mut bad = [0u8; 32];
    bad[0] = 2;
    assert_eq!(VerifyingKey::from_bytes(&bad).unwrap_err(), TicketError::InvalidKeyEncoding);
}

#[test]
fn identities_tell_keys_apart() {
    assert_eq!(id(&key(1)), id(&key(1)));
    assert_ne!(id(&key(1)), id(&key(2)));
    assert_eq!(id(&key(1)).to_string().len(), 64);
}

#[test]
fn numbers_survive_their_bytes() {
    assert_eq!(u64_to_be_bytes(0x0102_0304_0506_0708), [1, 2, 3, 4, 5, 6, 7, 8]);
    for value in [0, 1, 255, 256, 0xdead_beef, u64::MAX] {
        assert_eq!(u64_to_be_bytes(value), value.to_be_bytes());
        assert_eq!(u64_from_be_bytes(&u64_to_be_bytes(value)), value);
    }
}

#[test]
fn frames_announce_their_length() {
    assert_eq!(length_prefix(&[0u8; 258]), [0, 0, 0, 0, 0, 0, 1, 2]);
    assert_eq!(length_prefix(&[]), [0u8; 8]);
    assert_eq!(announced_length(&length_prefix(&[9u8; 70_000])), 70_000);
    assert_eq!(announced_length(&[255u8; 8]), u64::MAX);
}

#[test]
fn handshake_error_kind_roundtrip_and_label() {
    let cases = [
        HandshakeErrorKind::TicketExpired,
        HandshakeErrorKind::InvalidSignature,
        HandshakeErrorKind::UnsupportedVersion(2),
        HandshakeErrorKind::IssuerNotTrusted,
        HandshakeErrorKind::SubjectMismatch,
    ];
    for kind in cases {
        assert!(!kind.as_label().is_empty());
    }
}

#[test]
fn ticket_error_maps_into_handshake_kind() {
    let kind: HandshakeErrorKind = TicketError::Expired.into();
    assert_eq!(kind, HandshakeErrorKind::TicketExpired);
    let kind: HandshakeErrorKind = TicketError::UnsupportedVersion(7).into();
    assert_eq!(kind, HandshakeErrorKind::UnsupportedVersion(7));
}

#[test]
fn every_ticket_error_comes_back_from_the_wire() {
    let cases = [
        (TicketError::Expired, TicketError::Expired),
        (TicketError::InvalidSignature, TicketError::InvalidSignature),
        (TicketError::UnsupportedVersion(9), TicketError::UnsupportedVersion(9)),
        (TicketError::InvalidKeyEncoding, TicketError::InvalidKeyEncoding),
        (TicketError::InvalidSignatureEncoding, TicketError::InvalidSignatureEncoding),
        (
            TicketError::Serialization("local detail".to_string()),
            TicketError::Serialization("server".to_string()),
        ),
    ];
    for (sent, received) in cases {
        let kind = HandshakeErrorKind::from(&sent);
        assert_eq!(kind.into_session_error(), SessionError::Ticket(received));
    }
}

#[test]
fn failed_checks_are_reported_by_name() {
    assert_eq!(
        HandshakeErrorKind::IssuerNotTrusted.into_session_error(),
        SessionError::Protocol("server reported issuer_not_trusted".to_string())
    );
    assert_eq!(
        HandshakeErrorKind::SubjectMismatch.into_session_error(),
        SessionError::Protocol("server reported subject_mismatch".to_string())
    );
    assert_eq!(
        HandshakeErrorKind::MalformedTicket("eof".to_string()).into_session_error(),
        SessionError::Protocol("server reported malformed_ticket: eof".to_string())
    );
}

#[test]
fn every_failure_mode_has_its_label() {
    let cases = [
        (HandshakeErrorKind::TicketExpired, "ticket_expired"),
        (HandshakeErrorKind::InvalidSignature, "invalid_signature"),
        (HandshakeErrorKind::UnsupportedVersion(2), "unsupported_version"),
        (HandshakeErrorKind::InvalidKeyEncoding, "invalid_key_encoding"),
        (HandshakeErrorKind::InvalidSignatureEncoding, "invalid_signature_encoding"),
        (HandshakeErrorKind::Serialization, "serialization"),
        (HandshakeErrorKind::IssuerNotTrusted, "issuer_not_trusted"),
        (HandshakeErrorKind::SubjectMismatch, "subject_mismatch"),
        (HandshakeErrorKind::MalformedTicket("x".to_string()), "malformed_ticket:x"),
        (HandshakeErrorKind::MalformedTicket(String::new()), "malformed_ticket:"),
    ];
    for (kind, label) in cases {
        assert_eq!(kind.as_label(), label);
    }
}

#[test]
fn ticket_issue_for_subject_produces_valid_signature() {
    let issuer = key(1);
    let subject = key(2);
    let ticket = issue_ticket(
        &issuer,
        Some(&subject.verifying_key()),
        "quic://relay",
        DEFAULT_ALPN,
        60,
        1_700_000_000,
        "abc",
    )
    .unwrap();
    let verified = verify_ticket(&ticket, &issuer.verifying_key(), 1_700_000_010).unwrap();
    assert_eq!(
        verified.subject,
        NodeId::from_verifying_key(&subject.verifying_key())
    );
}

#[test]
fn issued_claims_are_those_asked_for() {
    let issuer = key(1);
    let ticket = ticket_for(&issuer, None);
    assert_eq!(ticket.claims.version, 1);
    assert_eq!(ticket.claims.issuer, id(&issuer));
    assert_eq!(ticket.claims.subject, id(&issuer));
    assert_eq!(ticket.claims.relay_url, "quic://relay");
    assert_eq!(ticket.claims.alpn, "/snappipe/0");
    assert_eq!(ticket.claims.issued_at, 1_700_000_000);
    assert_eq!(ticket.claims.expires_at, 1_700_000_300);
    assert_eq!(ticket.claims.nonce, "n-1");
    assert_eq!(ticket.signature.len(), 64);
}

#[test]
fn expiry_must_fit_the_clock() {
    let issued = |ttl: i64, now: i64| issue_ticket(&key(1), None, "", "", ttl, now, "");
    assert_eq!(issued(1, i64::MAX - 1).unwrap().claims.expires_at, i64::MAX);
    assert_eq!(
        issued(2, i64::MAX - 1).unwrap_err(),
        TicketError::Serialization("expiry out of range".to_string())
    );
}

#[test]
fn ticket_is_good_until_the_second_it_expires_in() {
    let issuer = key(1);
    let ticket = ticket_for(&issuer, None);
    let vk = issuer.verifying_key();
    assert!(verify_ticket(&ticket, &vk, i64::MIN).is_ok());
    assert!(verify_ticket(&ticket, &vk, 1_700_000_299).is_ok());
    assert_eq!(verify_ticket(&ticket, &vk, 1_700_000_300).unwrap_err(), TicketError::Expired);
    assert_eq!(verify_ticket(&ticket, &vk, i64::MAX).unwrap_err(), TicketError::Expired);
}

#[test]
fn tampered_tickets_are_refused() {
    let issuer = key(1);
    let vk = issuer.verifying_key();
    let verdict = |ticket: &SignedTicket| verify_ticket(ticket, &vk, 1_700_000_010).unwrap_err();

    let mut ticket = ticket_for(&issuer, None);
    ticket.claims.expires_at += 1;
    assert_eq!(verdict(&ticket), TicketError::InvalidSignature);
    let mut ticket = ticket_for(&issuer, None);
    ticket.claims.nonce.push('x');
    assert_eq!(verdict(&ticket), TicketError::InvalidSignature);
    let mut ticket = ticket_for(&issuer, None);
    ticket.signature[0] ^= 1;
    assert_eq!(verdict(&ticket), TicketError::InvalidSignature);
    let mut ticket = ticket_for(&issuer, None);
    ticket.signature.pop();
    assert_eq!(verdict(&ticket), TicketError::InvalidSignatureEncoding);
    let mut ticket = ticket_for(&issuer, None);
    ticket.claims.version = 2;
    assert_eq!(verdict(&ticket), TicketError::UnsupportedVersion(2));
    assert_eq!(
        verify_ticket(&ticket_for(&issuer, None), &key(2).verifying_key(), 0).unwrap_err(),
        TicketError::InvalidSignature
    );
}

#[test]
fn faults_are_judged_in_order() {
    let mut claims = ticket_for(&key(1), None).claims;
    claims.version = 3;
    assert_eq!(judge_ticket(&claims, 0, false, i64::MAX), Some(TicketError::UnsupportedVersion(3)));
    claims.version = 1;
    assert_eq!(
        judge_ticket(&claims, 65, false, i64::MAX),
        Some(TicketError::InvalidSignatureEncoding)
    );
    assert_eq!(judge_ticket(&claims, 64, false, i64::MAX), Some(TicketError::InvalidSignature));
    assert_eq!(judge_ticket(&claims, 64, true, i64::MAX), Some(TicketError::Expired));
    assert_eq!(judge_ticket(&claims, 64, true, 0), None);
}

#[test]
fn signed_bytes_tell_claims_apart() {
    let claims = TicketClaims {
        version: 1,
        issuer: NodeId("ab".to_string()),
        subject: NodeId("c".to_string()),
        relay_url: String::new(),
        alpn: "d".to_string(),
        issued_at: -1,
        expires_at: 2,
        nonce: "\u{e9}".to_string(),
    };
    let mut expected = vec![1];
    expected.extend([0, 0, 0, 0, 0, 0, 0, 2, b'a', b'b']);
    expected.extend([0, 0, 0, 0, 0, 0, 0, 1, b'c']);
    expected.extend([0, 0, 0, 0, 0, 0, 0, 0]);
    expected.extend([0, 0, 0, 0, 0, 0, 0, 1, b'd']);
    expected.extend([255u8; 8]);
    expected.extend([0, 0, 0, 0, 0, 0, 0, 2]);
    expected.extend([0, 0, 0, 0, 0, 0, 0, 2, 0xc3, 0xa9]);
    assert_eq!(claims.signing_bytes(), expected);
    // A byte moved from one claim to the next.
    let moved = TicketClaims {
        issuer: NodeId("a".to_string()),
        subject: NodeId("bc".to_string()),
        ..claims.clone()
    };
    assert_ne!(moved.signing_bytes(), claims.signing_bytes());
}

#[test]
fn ticket_with_unrelated_subject_is_rejected_with_subject_mismatch() {
    let relay_key = key(1);
    let mut trust = TrustStore::new();
    trust.add(id(&relay_key), "self", 1000);
    let wrong_subject_key = key(2);
    let ticket = issue_ticket(
        &relay_key,
        Some(&wrong_subject_key.verifying_key()),
        "quic://relay",
        "/snappipe/0",
        300,
        1_700_000_000,
        "abc",
    )
    .expect("issue_ticket");

    let verdict = server_handshake(
        Ok(ticket),
        &relay_key.verifying_key(),
        &relay_key.verifying_key(),
        &trust,
        1_700_000_000,
    );

    assert!(matches!(
        verdict.response,
        HandshakeResponse::Refused { kind: HandshakeErrorKind::SubjectMismatch }
    ));
    assert_eq!(
        verdict.outcome,
        Err(SessionError::SubjectMismatch {
            expected: id(&relay_key).to_string(),
            actual: id(&wrong_subject_key).to_string(),
        })
    );
}

#[test]
fn ticket_with_matching_subject_is_accepted() {
    let relay_key = key(1);
    let relay_subject_vk = relay_key.verifying_key();
    let mut trust = TrustStore::new();
    trust.add(id(&relay_key), "self", 1000);
    let ticket = issue_ticket(
        &relay_key,
        Some(&relay_subject_vk), // matches relay signing key
        "quic://relay",
        "/snappipe/0",
        300,
        1_700_000_000,
        "abc",
    )
    .expect("issue_ticket");

    let verdict = server_handshake(
        Ok(ticket),
        &relay_subject_vk,
        &relay_subject_vk,
        &trust,
        1_700_000_000,
    );
    let summary = client_handshake(Ok(verdict.response))
        .expect("client handshake should succeed with matching subject");
    assert_eq!(
        summary.subject,
        NodeId::from_verifying_key(&relay_subject_vk),
        "accepted handshake must carry the relay's subject"
    );
    // Both sides sum the handshake up alike.
    assert_eq!(verdict.outcome, Ok(summary));
}

#[test]
fn untrusted_issuer_is_refused() {
    let relay = key(1);
    let vk = relay.verifying_key();
    let verdict = server_handshake(
        Ok(ticket_for(&relay, None)),
        &vk,
        &vk,
        &*deny_all_trust(),
        1_700_000_000,
    );
    assert_eq!(
        verdict.outcome,
        Err(SessionError::IssuerNotTrusted(id(&relay).to_string()))
    );
    assert_eq!(
        client_handshake(Ok(verdict.response)),
        Err(SessionError::Protocol("server reported issuer_not_trusted".to_string()))
    );
}

#[test]
fn trust_checks_answer_as_they_are_made_to() {
    let node = NodeId("node".to_string());
    assert!(allow_all_trust().is_trusted(&node));
    assert!(!deny_all_trust().is_trusted(&node));
    let check = |issuer: &NodeId| issuer.0 == "node";
    assert!(check.is_trusted(&node));
    assert!(!check.is_trusted(&NodeId("other".to_string())));
    let mut store = TrustStore::new();
    assert!(!store.is_trusted(&node));
    store.add(node.clone(), "n", 1);
    assert!(store.is_trusted(&node));
}

#[test]
fn expired_ticket_is_reported_to_both_sides() {
    let relay = key(1);
    let vk = relay.verifying_key();
    let verdict = server_handshake(
        Ok(ticket_for(&relay, None)),
        &vk,
        &vk,
        &*allow_all_trust(),
        1_700_000_300,
    );
    assert!(matches!(
        verdict.response,
        HandshakeResponse::Refused { kind: HandshakeErrorKind::TicketExpired }
    ));
    assert_eq!(verdict.outcome, Err(SessionError::Ticket(TicketError::Expired)));
    assert_eq!(
        client_handshake(Ok(verdict.response)),
        Err(SessionError::Ticket(TicketError::Expired))
    );
}

#[test]
fn malformed_messages_are_protocol_errors() {
    let vk = key(1).verifying_key();
    let verdict = server_handshake(
        Err("expected value".to_string()),
        &vk,
        &vk,
        &*allow_all_trust(),
        0,
    );
    assert_eq!(
        verdict.outcome,
        Err(SessionError::Protocol("deserialize ticket: expected value".to_string()))
    );
    assert_eq!(
        client_handshake(Ok(verdict.response)),
        Err(SessionError::Protocol(
            "server reported malformed_ticket: expected value".to_string()
        ))
    );
    assert_eq!(
        client_handshake(Err("eof".to_string())),
        Err(SessionError::Protocol("server response: eof".to_string()))
    );
}

#[test]
fn checks_fail_in_order() {
    let relay = key(1);
    let other = NodeId("other".to_string());
    let claims = || ticket_for(&relay, None).claims;
    // A bad ticket is refused whoever issued it and whomever it names.
    let verdict = conclude_handshake(Err(TicketError::InvalidKeyEncoding), true, &id(&relay));
    assert_eq!(verdict.outcome, Err(SessionError::Ticket(TicketError::InvalidKeyEncoding)));
    // The issuer comes before the subject.
    let verdict = conclude_handshake(Ok(claims()), false, &other);
    assert!(matches!(verdict.outcome, Err(SessionError::IssuerNotTrusted(_))));
    let verdict = conclude_handshake(Ok(claims()), true, &other);
    assert!(matches!(verdict.outcome, Err(SessionError::SubjectMismatch { .. })));
    let verdict = conclude_handshake(Ok(claims()), true, &id(&relay));
    assert_eq!(
        verdict.outcome,
        Ok(HandshakeSummary {
            issuer: id(&relay),
            subject: id(&relay),
            relay_url: "quic://relay".to_string(),
            alpn: DEFAULT_ALPN.to_string(),
            expires_at: 1_700_000_300,
        })
    );
}

#[test]
fn metrics_count_each_handshake_once() {
    let mut metrics = SessionMetrics::default();
    let relay = key(1);
    let accepted = conclude_handshake(Ok(ticket_for(&relay, None).claims), true, &id(&relay));
    metrics.record(&accepted.outcome);
    metrics.record(&Err(SessionError::Ticket(TicketError::Expired)));
    metrics.record(&Err(SessionError::Ticket(TicketError::InvalidSignature)));
    metrics.record(&Err(SessionError::IssuerNotTrusted(String::new())));
    metrics.record(&Err(SessionError::SubjectMismatch {
        expected: String::new(),
        actual: String::new(),
    }));
    metrics.record(&Err(SessionError::Protocol(String::new())));
    metrics.record(&Err(SessionError::ClosedStream));
    metrics.record(&Err(SessionError::Io(String::new())));
    metrics.record(&Err(SessionError::Write(String::new())));
    metrics.record(&Err(SessionError::Read(String::new())));
    metrics.record(&Err(SessionError::Connection(String::new())));
    assert_eq!(
        metrics,
        SessionMetrics {
            successful: 1,
            expired_or_invalid: 2,
            issuer_not_trusted: 1,
            subject_mismatch: 1,
            other_errors: 6,
        }
    );
}
