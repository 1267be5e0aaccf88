//! Ticket-gated session handshake.
//!
//! After the QUIC handshake completes, the client sends its signed ticket as
//! the first message on a fresh bidirectional stream. The server verifies the
//! ticket:
//!
//! - against the issuer's public key (signature)
//! - against the clock (the ticket must not be expired)
//! - against the configured trust check (the issuer must be trusted)
//! - against the subject public key it expects
//!
//! and replies with a [`HandshakeResponse`]. Messages are framed by an
//! eight-byte length prefix.

use std::sync::Arc;

use vstd::prelude::*;
use vstd::string::*;

use crate::bytes::{
    be_bytes, be_value, law_be_round_trip, lemma_be_bytes_len, u64_from_be_bytes, u64_to_be_bytes,
};
use crate::counter::bumped;
use crate::keys::{ed25519_accepts, VerifyingKey};
use crate::node::{hex_text, law_identity_determines_key, NodeId};
use crate::ticket::{
    claims_bytes, issued_claims, signature_holds, ticket_fault, verify_ticket, SignedTicket,
    TicketClaims, TicketClaimsView, TicketError, TicketErrorView, TICKET_VERSION,
};

verus! {

/// Trust check the server uses to decide whether an issuer is allowed.
///
/// A check may answer from anything it likes, the same question differently at
/// different times: `may_answer` is the relation its answers keep to.
pub trait TrustCheck: Send + Sync {
    /// Whether the check can be asked about `issuer`.
    spec fn may_be_asked(&self, issuer: NodeId) -> bool;

    /// Whether the check can give `answer` when asked about `issuer`.
    spec fn may_answer(&self, issuer: NodeId, answer: bool) -> bool;

    fn is_trusted(&self, issuer: &NodeId) -> (answer: bool)
        requires
            self.may_be_asked(*issuer),
        ensures
            self.may_answer(*issuer, answer),
    ;
}

impl<F> TrustCheck for F where F: for <'a>Fn(&'a NodeId) -> bool + Send + Sync {
    open spec fn may_be_asked(&self, issuer: NodeId) -> bool {
        call_requires(*self, (&issuer,))
    }

    open spec fn may_answer(&self, issuer: NodeId, answer: bool) -> bool {
        call_ensures(*self, (&issuer,), answer)
    }

    fn is_trusted(&self, issuer: &NodeId) -> (answer: bool) {
        (self)(issuer)
    }
}

/// Trust check that accepts every issuer. Suitable for tests only.
pub fn allow_all_trust() -> (trust: Arc<AllowAllTrust>)
    ensures
        forall|issuer: NodeId| #[trigger] trust.may_be_asked(issuer),
        forall|issuer: NodeId, answer: bool| #[trigger]
            trust.may_answer(issuer, answer) <==> answer,
{
    Arc::new(AllowAllTrust)
}

/// See [`allow_all_trust`].
pub struct AllowAllTrust;

impl TrustCheck for AllowAllTrust {
    open spec fn may_be_asked(&self, issuer: NodeId) -> bool {
        true
    }

    open spec fn may_answer(&self, issuer: NodeId, answer: bool) -> bool {
        answer
    }

    fn is_trusted(&self, issuer: &NodeId) -> (answer: bool) {
        true
    }
}

/// Trust check that rejects every issuer. Suitable for negative tests.
pub fn deny_all_trust() -> (trust: Arc<DenyAllTrust>)
    ensures
        forall|issuer: NodeId| #[trigger] trust.may_be_asked(issuer),
        forall|issuer: NodeId, answer: bool| #[trigger]
            trust.may_answer(issuer, answer) <==> !answer,
{
    Arc::new(DenyAllTrust)
}

/// See [`deny_all_trust`].
pub struct DenyAllTrust;

impl TrustCheck for DenyAllTrust {
    open spec fn may_be_asked(&self, issuer: NodeId) -> bool {
        true
    }

    open spec fn may_answer(&self, issuer: NodeId, answer: bool) -> bool {
        !answer
    }

    fn is_trusted(&self, issuer: &NodeId) -> (answer: bool) {
        false
    }
}

/// Errors that can arise during the ticket-gated handshake. Errors of the
/// transport are carried as their text.
#[derive(Debug, PartialEq, Eq)]
pub enum SessionError {
    Io(String),
    Write(String),
    Read(String),
    ClosedStream,
    Connection(String),
    Ticket(TicketError),
    SubjectMismatch { expected: String, actual: String },
    IssuerNotTrusted(String),
    Protocol(String),
}

/// The content of a [`SessionError`].
#[verifier::ext_equal]
pub enum SessionErrorView {
    Io(Seq<char>),
    Write(Seq<char>),
    Read(Seq<char>),
    ClosedStream,
    Connection(Seq<char>),
    Ticket(TicketErrorView),
    SubjectMismatch { expected: Seq<char>, actual: Seq<char> },
    IssuerNotTrusted(Seq<char>),
    Protocol(Seq<char>),
}

impl View for SessionError {
    type V = SessionErrorView;

    open spec fn view(&self) -> SessionErrorView {
        match *self {
            SessionError::Io(text) => SessionErrorView::Io(text@),
            SessionError::Write(text) => SessionErrorView::Write(text@),
            SessionError::Read(text) => SessionErrorView::Read(text@),
            SessionError::ClosedStream => SessionErrorView::ClosedStream,
            SessionError::Connection(text) => SessionErrorView::Connection(text@),
            SessionError::Ticket(error) => SessionErrorView::Ticket(error@),
            SessionError::SubjectMismatch { expected, actual } => {
                SessionErrorView::SubjectMismatch { expected: expected@, actual: actual@ }
            },
            SessionError::IssuerNotTrusted(issuer) => SessionErrorView::IssuerNotTrusted(issuer@),
            SessionError::Protocol(text) => SessionErrorView::Protocol(text@),
        }
    }
}

/// Outcome of a successful handshake, reported by both peers.
#[derive(Debug, PartialEq, Eq)]
pub struct HandshakeSummary {
    pub issuer: NodeId,
    pub subject: NodeId,
    pub relay_url: String,
    pub alpn: String,
    pub expires_at: i64,
}

/// The content of a [`HandshakeSummary`].
#[verifier::ext_equal]
pub struct HandshakeSummaryView {
    pub issuer: Seq<char>,
    pub subject: Seq<char>,
    pub relay_url: Seq<char>,
    pub alpn: Seq<char>,
    pub expires_at: i64,
}

impl View for HandshakeSummary {
    type V = HandshakeSummaryView;

    open spec fn view(&self) -> HandshakeSummaryView {
        HandshakeSummaryView {
            issuer: self.issuer@,
            subject: self.subject@,
            relay_url: self.relay_url@,
            alpn: self.alpn@,
            expires_at: self.expires_at,
        }
    }
}

/// What a handshake on these claims is summed up as.
pub open spec fn summary_of(claims: TicketClaimsView) -> HandshakeSummaryView {
    HandshakeSummaryView {
        issuer: claims.issuer,
        subject: claims.subject,
        relay_url: claims.relay_url,
        alpn: claims.alpn,
        expires_at: claims.expires_at,
    }
}

/// Typed enumeration of handshake failure modes the server can report back.
#[derive(Debug, PartialEq, Eq)]
pub enum HandshakeErrorKind {
    TicketExpired,
    InvalidSignature,
    UnsupportedVersion(u8),
    InvalidKeyEncoding,
    InvalidSignatureEncoding,
    Serialization,
    IssuerNotTrusted,
    SubjectMismatch,
    MalformedTicket(String),
}

/// The content of a [`HandshakeErrorKind`].
#[verifier::ext_equal]
pub enum HandshakeErrorKindView {
    TicketExpired,
    InvalidSignature,
    UnsupportedVersion(u8),
    InvalidKeyEncoding,
    InvalidSignatureEncoding,
    Serialization,
    IssuerNotTrusted,
    SubjectMismatch,
    MalformedTicket(Seq<char>),
}

impl View for HandshakeErrorKind {
    type V = HandshakeErrorKindView;

    open spec fn view(&self) -> HandshakeErrorKindView {
        match *self {
            HandshakeErrorKind::TicketExpired => HandshakeErrorKindView::TicketExpired,
            HandshakeErrorKind::InvalidSignature => HandshakeErrorKindView::InvalidSignature,
            HandshakeErrorKind::UnsupportedVersion(version) => {
                HandshakeErrorKindView::UnsupportedVersion(version)
            },
            HandshakeErrorKind::InvalidKeyEncoding => HandshakeErrorKindView::InvalidKeyEncoding,
            HandshakeErrorKind::InvalidSignatureEncoding => {
                HandshakeErrorKindView::InvalidSignatureEncoding
            },
            HandshakeErrorKind::Serialization => HandshakeErrorKindView::Serialization,
            HandshakeErrorKind::IssuerNotTrusted => HandshakeErrorKindView::IssuerNotTrusted,
            HandshakeErrorKind::SubjectMismatch => HandshakeErrorKindView::SubjectMismatch,
            HandshakeErrorKind::MalformedTicket(text) => HandshakeErrorKindView::MalformedTicket(
                text@,
            ),
        }
    }
}

/// The label of a failure mode.
pub open spec fn kind_label(kind: HandshakeErrorKindView) -> Seq<char> {
    match kind {
        HandshakeErrorKindView::TicketExpired => "ticket_expired"@,
        HandshakeErrorKindView::InvalidSignature => "invalid_signature"@,
        HandshakeErrorKindView::UnsupportedVersion(_) => "unsupported_version"@,
        HandshakeErrorKindView::InvalidKeyEncoding => "invalid_key_encoding"@,
        HandshakeErrorKindView::InvalidSignatureEncoding => "invalid_signature_encoding"@,
        HandshakeErrorKindView::Serialization => "serialization"@,
        HandshakeErrorKindView::IssuerNotTrusted => "issuer_not_trusted"@,
        HandshakeErrorKindView::SubjectMismatch => "subject_mismatch"@,
        HandshakeErrorKindView::MalformedTicket(text) => "malformed_ticket:"@ + text,
    }
}

/// What a client makes of a failure mode that its server reported.
pub open spec fn reported_error(kind: HandshakeErrorKindView) -> SessionErrorView {
    match kind {
        HandshakeErrorKindView::TicketExpired => SessionErrorView::Ticket(TicketErrorView::Expired),
        HandshakeErrorKindView::InvalidSignature => SessionErrorView::Ticket(
            TicketErrorView::InvalidSignature,
        ),
        HandshakeErrorKindView::UnsupportedVersion(version) => SessionErrorView::Ticket(
            TicketErrorView::UnsupportedVersion(version),
        ),
        HandshakeErrorKindView::InvalidKeyEncoding => SessionErrorView::Ticket(
            TicketErrorView::InvalidKeyEncoding,
        ),
        HandshakeErrorKindView::InvalidSignatureEncoding => SessionErrorView::Ticket(
            TicketErrorView::InvalidSignatureEncoding,
        ),
        HandshakeErrorKindView::Serialization => SessionErrorView::Ticket(
            TicketErrorView::Serialization("server"@),
        ),
        HandshakeErrorKindView::IssuerNotTrusted => SessionErrorView::Protocol(
            "server reported issuer_not_trusted"@,
        ),
        HandshakeErrorKindView::SubjectMismatch => SessionErrorView::Protocol(
            "server reported subject_mismatch"@,
        ),
        HandshakeErrorKindView::MalformedTicket(text) => SessionErrorView::Protocol(
            "server reported malformed_ticket: "@ + text,
        ),
    }
}

/// `prefix` with `text` behind it.
fn prefixed(prefix: &str, text: &str) -> (whole: String)
    ensures
        whole@ == prefix@ + text@,
{
    let mut whole = prefix.to_owned();
    whole.append(text);
    whole
}

impl HandshakeErrorKind {
    /// A stable label for logs and metrics.
    pub fn as_label(&self) -> (label: String)
        ensures
            label@ == kind_label(self@),
    {
        match self {
            HandshakeErrorKind::TicketExpired => "ticket_expired".to_owned(),
            HandshakeErrorKind::InvalidSignature => "invalid_signature".to_owned(),
            HandshakeErrorKind::UnsupportedVersion(_) => "unsupported_version".to_owned(),
            HandshakeErrorKind::InvalidKeyEncoding => "invalid_key_encoding".to_owned(),
            HandshakeErrorKind::InvalidSignatureEncoding => {
                "invalid_signature_encoding".to_owned()
            },
            HandshakeErrorKind::Serialization => "serialization".to_owned(),
            HandshakeErrorKind::IssuerNotTrusted => "issuer_not_trusted".to_owned(),
            HandshakeErrorKind::SubjectMismatch => "subject_mismatch".to_owned(),
            HandshakeErrorKind::MalformedTicket(text) => prefixed(
                "malformed_ticket:",
                text.as_str(),
            ),
        }
    }

    /// The error that a client reports when its server answered with this
    /// failure mode.
    pub fn into_session_error(self) -> (error: SessionError)
        ensures
            error@ == reported_error(self@),
    {
        match self {
            HandshakeErrorKind::TicketExpired => SessionError::Ticket(TicketError::Expired),
            HandshakeErrorKind::InvalidSignature => SessionError::Ticket(
                TicketError::InvalidSignature,
            ),
            HandshakeErrorKind::UnsupportedVersion(version) => SessionError::Ticket(
                TicketError::UnsupportedVersion(version),
            ),
            HandshakeErrorKind::InvalidKeyEncoding => SessionError::Ticket(
                TicketError::InvalidKeyEncoding,
            ),
            HandshakeErrorKind::InvalidSignatureEncoding => SessionError::Ticket(
                TicketError::InvalidSignatureEncoding,
            ),
            HandshakeErrorKind::Serialization => SessionError::Ticket(
                TicketError::Serialization("server".to_owned()),
            ),
            HandshakeErrorKind::IssuerNotTrusted => SessionError::Protocol(
                "server reported issuer_not_trusted".to_owned(),
            ),
            HandshakeErrorKind::SubjectMismatch => SessionError::Protocol(
                "server reported subject_mismatch".to_owned(),
            ),
            HandshakeErrorKind::MalformedTicket(text) => SessionError::Protocol(
                prefixed("server reported malformed_ticket: ", text.as_str()),
            ),
        }
    }
}

/// The failure mode that a ticket error is reported as.
pub open spec fn kind_of(error: TicketError) -> HandshakeErrorKind {
    match error {
        TicketError::Expired => HandshakeErrorKind::TicketExpired,
        TicketError::InvalidSignature => HandshakeErrorKind::InvalidSignature,
        TicketError::UnsupportedVersion(version) => HandshakeErrorKind::UnsupportedVersion(version),
        TicketError::InvalidKeyEncoding => HandshakeErrorKind::InvalidKeyEncoding,
        TicketError::InvalidSignatureEncoding => HandshakeErrorKind::InvalidSignatureEncoding,
        TicketError::Serialization(_) => HandshakeErrorKind::Serialization,
    }
}

impl From<TicketError> for HandshakeErrorKind {
    fn from(err: TicketError) -> (kind: Self) {
        Self::from(&err)
    }
}

impl vstd::std_specs::convert::FromSpecImpl<TicketError> for HandshakeErrorKind {
    open spec fn obeys_from_spec() -> bool {
        true
    }

    open spec fn from_spec(err: TicketError) -> Self {
        kind_of(err)
    }
}

impl From<&TicketError> for HandshakeErrorKind {
    fn from(err: &TicketError) -> (kind: Self) {
        match err {
            TicketError::Expired => HandshakeErrorKind::TicketExpired,
            TicketError::InvalidSignature => HandshakeErrorKind::InvalidSignature,
            TicketError::UnsupportedVersion(version) => HandshakeErrorKind::UnsupportedVersion(
                *version,
            ),
            TicketError::InvalidKeyEncoding => HandshakeErrorKind::InvalidKeyEncoding,
            TicketError::InvalidSignatureEncoding => HandshakeErrorKind::InvalidSignatureEncoding,
            TicketError::Serialization(_) => HandshakeErrorKind::Serialization,
        }
    }
}

impl vstd::std_specs::convert::FromSpecImpl<&TicketError> for HandshakeErrorKind {
    open spec fn obeys_from_spec() -> bool {
        true
    }

    open spec fn from_spec(err: &TicketError) -> Self {
        kind_of(*err)
    }
}

/// Wire response sent by the server after the ticket check.
#[derive(Debug)]
pub enum HandshakeResponse {
    Accepted { claims: TicketClaims },
    Refused { kind: HandshakeErrorKind },
}

/// The content of a [`HandshakeResponse`].
#[verifier::ext_equal]
pub enum HandshakeResponseView {
    Accepted { claims: TicketClaimsView },
    Refused { kind: HandshakeErrorKindView },
}

impl View for HandshakeResponse {
    type V = HandshakeResponseView;

    open spec fn view(&self) -> HandshakeResponseView {
        match *self {
            HandshakeResponse::Accepted { claims } => HandshakeResponseView::Accepted { claims: claims@ },
            HandshakeResponse::Refused { kind } => HandshakeResponseView::Refused { kind: kind@ },
        }
    }
}

/// The content of a result of two types that have one.
pub open spec fn result_view<T: View, E: View>(result: Result<T, E>) -> Result<T::V, E::V> {
    match result {
        Ok(value) => Ok(value@),
        Err(error) => Err(error@),
    }
}

/// How a handshake ended on the server: what the client is told, and what the
/// server itself goes on with.
#[derive(Debug)]
pub struct HandshakeVerdict {
    pub response: HandshakeResponse,
    pub outcome: Result<HandshakeSummary, SessionError>,
}

/// The content of a [`HandshakeVerdict`].
#[verifier::ext_equal]
pub struct HandshakeVerdictView {
    pub response: HandshakeResponseView,
    pub outcome: Result<HandshakeSummaryView, SessionErrorView>,
}

impl View for HandshakeVerdict {
    type V = HandshakeVerdictView;

    open spec fn view(&self) -> HandshakeVerdictView {
        HandshakeVerdictView {
            response: self.response@,
            outcome: result_view(self.outcome),
        }
    }
}

/// The failure mode that a ticket error is reported as, by content.
pub open spec fn kind_view_of(error: TicketErrorView) -> HandshakeErrorKindView {
    match error {
        TicketErrorView::Expired => HandshakeErrorKindView::TicketExpired,
        TicketErrorView::InvalidSignature => HandshakeErrorKindView::InvalidSignature,
        TicketErrorView::UnsupportedVersion(version) => HandshakeErrorKindView::UnsupportedVersion(
            version,
        ),
        TicketErrorView::InvalidKeyEncoding => HandshakeErrorKindView::InvalidKeyEncoding,
        TicketErrorView::InvalidSignatureEncoding => {
            HandshakeErrorKindView::InvalidSignatureEncoding
        },
        TicketErrorView::Serialization(_) => HandshakeErrorKindView::Serialization,
    }
}

/// How a handshake ends, given what verification made of the ticket and what
/// the trust check answered: the ticket's own faults come first, then the
/// issuer's standing, then the subject.
pub open spec fn handshake_verdict(
    verified: Result<TicketClaimsView, TicketErrorView>,
    trusted: bool,
    expected_subject: Seq<char>,
) -> HandshakeVerdictView {
    match verified {
        Err(error) => HandshakeVerdictView {
            response: HandshakeResponseView::Refused { kind: kind_view_of(error) },
            outcome: Err(SessionErrorView::Ticket(error)),
        },
        Ok(claims) => if !trusted {
            HandshakeVerdictView {
                response: HandshakeResponseView::Refused {
                    kind: HandshakeErrorKindView::IssuerNotTrusted,
                },
                outcome: Err(SessionErrorView::IssuerNotTrusted(claims.issuer)),
            }
        } else if claims.subject != expected_subject {
            HandshakeVerdictView {
                response: HandshakeResponseView::Refused {
                    kind: HandshakeErrorKindView::SubjectMismatch,
                },
                outcome: Err(
                    SessionErrorView::SubjectMismatch {
                        expected: expected_subject,
                        actual: claims.subject,
                    },
                ),
            }
        } else {
            HandshakeVerdictView {
                response: HandshakeResponseView::Accepted { claims },
                outcome: Ok(summary_of(claims)),
            }
        },
    }
}

/// How a handshake ends when the message was not a ticket at all.
pub open spec fn malformed_verdict(text: Seq<char>) -> HandshakeVerdictView {
    HandshakeVerdictView {
        response: HandshakeResponseView::Refused {
            kind: HandshakeErrorKindView::MalformedTicket(text),
        },
        outcome: Err(SessionErrorView::Protocol("deserialize ticket: "@ + text)),
    }
}

/// What verification makes of a ticket.
pub open spec fn verification_of(ticket: SignedTicket, issuer: Seq<u8>, now: i64) -> Result<
    TicketClaimsView,
    TicketErrorView,
> {
    match ticket_fault(
        ticket.claims@,
        ticket.signature@.len(),
        signature_holds(ticket, issuer),
        now,
    ) {
        Some(error) => Err(error),
        None => Ok(ticket.claims@),
    }
}

/// End a handshake, given what verification made of the ticket and what the
/// trust check answered about its issuer.
pub fn conclude_handshake(
    verified: Result<TicketClaims, TicketError>,
    trusted: bool,
    expected_subject: &NodeId,
) -> (verdict: HandshakeVerdict)
    ensures
        verdict@ == handshake_verdict(result_view(verified), trusted, expected_subject@),
{
    match verified {
        Err(error) => HandshakeVerdict {
            response: HandshakeResponse::Refused { kind: HandshakeErrorKind::from(&error) },
            outcome: Err(SessionError::Ticket(error)),
        },
        Ok(claims) => {
            if !trusted {
                return HandshakeVerdict {
                    response: HandshakeResponse::Refused {
                        kind: HandshakeErrorKind::IssuerNotTrusted,
                    },
                    outcome: Err(SessionError::IssuerNotTrusted(claims.issuer.to_string())),
                };
            }
            if claims.subject != *expected_subject {
                return HandshakeVerdict {
                    response: HandshakeResponse::Refused {
                        kind: HandshakeErrorKind::SubjectMismatch,
                    },
                    outcome: Err(
                        SessionError::SubjectMismatch {
                            expected: expected_subject.to_string(),
                            actual: claims.subject.to_string(),
                        },
                    ),
                };
            }
            let summary = HandshakeSummary {
                issuer: claims.issuer.clone(),
                subject: claims.subject.clone(),
                relay_url: claims.relay_url.clone(),
                alpn: claims.alpn.clone(),
                expires_at: claims.expires_at,
            };
            HandshakeVerdict {
                response: HandshakeResponse::Accepted { claims },
                outcome: Ok(summary),
            }
        },
    }
}

/// Server side: judge the ticket that a client sent, or the text of what was
/// wrong with its message, and say what to reply. The reply is due on every
/// failure too.
///
/// The trust check is asked once, about the issuer of a ticket that verified.
pub fn server_handshake<T: TrustCheck>(
    ticket: Result<SignedTicket, String>,
    issuer_verifying_key: &VerifyingKey,
    expected_subject: &VerifyingKey,
    trust: &T,
    now_unix: i64,
) -> (verdict: HandshakeVerdict)
    requires
        ticket matches Ok(ticket) ==> trust.may_be_asked(ticket.claims.issuer),
    ensures
        match ticket {
            Err(text) => verdict@ == malformed_verdict(text@),
            Ok(ticket) => exists|trusted: bool|
                {
                    &&& verification_of(ticket, issuer_verifying_key@, now_unix) is Ok
                        ==> trust.may_answer(ticket.claims.issuer, trusted)
                    &&& verdict@ == #[trigger] handshake_verdict(
                        verification_of(ticket, issuer_verifying_key@, now_unix),
                        trusted,
                        hex_text(expected_subject@),
                    )
                },
        },
{
    let ticket = match ticket {
        Ok(ticket) => ticket,
        Err(text) => {
            return HandshakeVerdict {
                outcome: Err(
                    SessionError::Protocol(prefixed("deserialize ticket: ", text.as_str())),
                ),
                response: HandshakeResponse::Refused {
                    kind: HandshakeErrorKind::MalformedTicket(text),
                },
            };
        },
    };
    let verified = verify_ticket(&ticket, issuer_verifying_key, now_unix);
    let trusted = match &verified {
        Ok(claims) => trust.is_trusted(&claims.issuer),
        Err(_) => false,
    };
    let expected_subject_id = NodeId::from_verifying_key(expected_subject);
    assert(result_view(verified) == verification_of(ticket, issuer_verifying_key@, now_unix));
    conclude_handshake(verified, trusted, &expected_subject_id)
}

/// What a client makes of its server's response.
pub open spec fn client_outcome(response: HandshakeResponseView) -> Result<
    HandshakeSummaryView,
    SessionErrorView,
> {
    match response {
        HandshakeResponseView::Accepted { claims } => Ok(summary_of(claims)),
        HandshakeResponseView::Refused { kind } => Err(reported_error(kind)),
    }
}

/// Client side: what the server's response, or the text of what was wrong with
/// its message, means for the client.
pub fn client_handshake(response: Result<HandshakeResponse, String>) -> (outcome: Result<
    HandshakeSummary,
    SessionError,
>)
    ensures
        result_view(outcome) == match response {
            Ok(response) => client_outcome(response@),
            Err(text) => Err(SessionErrorView::Protocol("server response: "@ + text@)),
        },
{
    match response {
        Ok(HandshakeResponse::Accepted { claims }) => Ok(
            HandshakeSummary {
                issuer: claims.issuer,
                subject: claims.subject,
                relay_url: claims.relay_url,
                alpn: claims.alpn,
                expires_at: claims.expires_at,
            },
        ),
        Ok(HandshakeResponse::Refused { kind }) => Err(kind.into_session_error()),
        Err(text) => Err(SessionError::Protocol(prefixed("server response: ", text.as_str()))),
    }
}

/// The length prefix that frames a payload on the wire: its length in eight
/// bytes, most significant first.
pub fn length_prefix(payload: &[u8]) -> (prefix: [u8; 8])
    ensures
        prefix@ == be_bytes(payload@.len(), 8),
        be_value(prefix@) == payload@.len(),
{
    u64_to_be_bytes(payload.len() as u64)
}

/// The length of the payload that a length prefix announces.
pub fn announced_length(prefix: &[u8; 8]) -> (len: u64)
    ensures
        len == be_value(prefix@),
{
    u64_from_be_bytes(prefix)
}

/// Session-level metrics for observability of handshake outcomes. The counters
/// wrap around at the end of their range.
#[derive(Debug, Clone, Copy, PartialEq, Eq, Structural)]
pub struct SessionMetrics {
    /// Handshakes that succeeded (ticket valid, issuer trusted, subject matched).
    pub successful: u64,
    /// Handshakes that failed because the ticket was expired or invalid.
    pub expired_or_invalid: u64,
    /// Handshakes rejected because the issuer was not in the trust store.
    pub issuer_not_trusted: u64,
    /// Handshakes rejected because the subject did not match.
    pub subject_mismatch: u64,
    /// Handshakes that failed for any other reason (protocol error, I/O).
    pub other_errors: u64,
}

impl Default for SessionMetrics {
    fn default() -> (metrics: Self)
        ensures
            metrics == (SessionMetrics {
                successful: 0,
                expired_or_invalid: 0,
                issuer_not_trusted: 0,
                subject_mismatch: 0,
                other_errors: 0,
            }),
    {
        SessionMetrics {
            successful: 0,
            expired_or_invalid: 0,
            issuer_not_trusted: 0,
            subject_mismatch: 0,
            other_errors: 0,
        }
    }
}

impl SessionMetrics {
    /// The metrics after one more handshake.
    pub open spec fn recorded(self, outcome: Result<HandshakeSummary, SessionError>) -> Self {
        match outcome {
            Ok(_) => SessionMetrics { successful: bumped(self.successful), ..self },
            Err(SessionError::Ticket(_)) => SessionMetrics {
                expired_or_invalid: bumped(self.expired_or_invalid),
                ..self
            },
            Err(SessionError::IssuerNotTrusted(_)) => SessionMetrics {
                issuer_not_trusted: bumped(self.issuer_not_trusted),
                ..self
            },
            Err(SessionError::SubjectMismatch { .. }) => SessionMetrics {
                subject_mismatch: bumped(self.subject_mismatch),
                ..self
            },
            Err(_) => SessionMetrics { other_errors: bumped(self.other_errors), ..self },
        }
    }

    /// Count how a handshake ended.
    pub fn record(&mut self, outcome: &Result<HandshakeSummary, SessionError>)
        ensures
            *final(self) == old(self).recorded(*outcome),
    {
        match outcome {
            Ok(_) => {
                self.successful = self.successful.wrapping_add(1);
            },
            Err(SessionError::Ticket(_)) => {
                self.expired_or_invalid = self.expired_or_invalid.wrapping_add(1);
            },
            Err(SessionError::IssuerNotTrusted(_)) => {
                self.issuer_not_trusted = self.issuer_not_trusted.wrapping_add(1);
            },
            Err(SessionError::SubjectMismatch { .. }) => {
                self.subject_mismatch = self.subject_mismatch.wrapping_add(1);
            },
            Err(_) => {
                self.other_errors = self.other_errors.wrapping_add(1);
            },
        }
    }
}

/// Law: a ticket is accepted exactly if it is of the supported version, bears
/// the issuer key's signature, has not expired, comes from a trusted issuer and
/// names the expected subject; and the accepted summary repeats its claims.
pub proof fn law_acceptance(
    ticket: SignedTicket,
    issuer: Seq<u8>,
    trusted: bool,
    expected_subject: Seq<char>,
    now: i64,
)
    ensures
        ({
            let verdict = handshake_verdict(
                verification_of(ticket, issuer, now),
                trusted,
                expected_subject,
            );
            &&& verdict.outcome is Ok <==> {
                &&& ticket.claims.version == TICKET_VERSION
                &&& signature_holds(ticket, issuer)
                &&& now < ticket.claims.expires_at
                &&& trusted
                &&& ticket.claims.subject@ == expected_subject
            }
            &&& verdict.outcome is Ok <==> verdict.response is Accepted
            &&& verdict.outcome matches Ok(summary) ==> {
                &&& summary == summary_of(ticket.claims@)
                &&& verdict.response == (HandshakeResponseView::Accepted { claims: ticket.claims@ })
            }
        }),
{
}

/// Law: client and server agree. The client succeeds exactly if the server
/// does, with the same summary, and on a refusal it reports the server's
/// reason: the same ticket error (of a serialization error the text stays with
/// the server), or the name of the check that failed.
pub proof fn law_client_learns_the_outcome(
    verified: Result<TicketClaimsView, TicketErrorView>,
    trusted: bool,
    expected_subject: Seq<char>,
)
    ensures
        ({
            let verdict = handshake_verdict(verified, trusted, expected_subject);
            let client = client_outcome(verdict.response);
            match verdict.outcome {
                Ok(summary) => client == Ok::<HandshakeSummaryView, SessionErrorView>(summary),
                Err(SessionErrorView::Ticket(TicketErrorView::Serialization(_))) => client == Err::<
                    HandshakeSummaryView,
                    SessionErrorView,
                >(SessionErrorView::Ticket(TicketErrorView::Serialization("server"@))),
                Err(SessionErrorView::Ticket(error)) => client == Err::<
                    HandshakeSummaryView,
                    SessionErrorView,
                >(SessionErrorView::Ticket(error)),
                Err(SessionErrorView::IssuerNotTrusted(_)) => client == Err::<
                    HandshakeSummaryView,
                    SessionErrorView,
                >(SessionErrorView::Protocol("server reported issuer_not_trusted"@)),
                Err(SessionErrorView::SubjectMismatch { .. }) => client == Err::<
                    HandshakeSummaryView,
                    SessionErrorView,
                >(SessionErrorView::Protocol("server reported subject_mismatch"@)),
                Err(_) => false,
            }
        }),
{
}

/// Law: the failure mode of a ticket error is the same whether it is taken
/// from the error or from its content, and a client turns it back into that
/// error (of a serialization error the text stays with the server).
pub proof fn law_ticket_errors_survive_the_wire(error: TicketError)
    ensures
        kind_of(error)@ == kind_view_of(error@),
        reported_error(kind_of(error)@) == SessionErrorView::Ticket(
            if error is Serialization {
                TicketErrorView::Serialization("server"@)
            } else {
                error@
            },
        ),
{
}

/// Law: a relay that expects itself as subject accepts the tickets that it
/// issued to itself until they expire, and refuses with a subject mismatch,
/// not otherwise, those that it issued to another key.
pub proof fn law_subject_binding(
    ticket: SignedTicket,
    relay: Seq<u8>,
    subject: Seq<u8>,
    relay_url: Seq<char>,
    alpn: Seq<char>,
    ttl: i64,
    issued_at: i64,
    nonce: Seq<char>,
    now: i64,
)
    requires
        ticket.claims@ == issued_claims(
            relay,
            Some(subject),
            relay_url,
            alpn,
            ttl,
            issued_at,
            nonce,
        ),
        signature_holds(ticket, relay),
        now < ticket.claims.expires_at,
    ensures
        ({
            let outcome = handshake_verdict(
                verification_of(ticket, relay, now),
                true,
                hex_text(relay),
            ).outcome;
            if subject == relay {
                outcome == Ok::<HandshakeSummaryView, SessionErrorView>(summary_of(ticket.claims@))
            } else {
                outcome == Err::<HandshakeSummaryView, SessionErrorView>(
                    SessionErrorView::SubjectMismatch {
                        expected: hex_text(relay),
                        actual: hex_text(subject),
                    },
                )
            }
        }),
{
    law_identity_determines_key(subject, relay);
}

/// Law: every failure mode has a label.
pub proof fn law_labels_are_not_empty(kind: HandshakeErrorKindView)
    ensures
        kind_label(kind).len() > 0,
{
    reveal_strlit("ticket_expired");
    reveal_strlit("invalid_signature");
    reveal_strlit("unsupported_version");
    reveal_strlit("invalid_key_encoding");
    reveal_strlit("invalid_signature_encoding");
    reveal_strlit("serialization");
    reveal_strlit("issuer_not_trusted");
    reveal_strlit("subject_mismatch");
    reveal_strlit("malformed_ticket:");
}

/// Law: the length that a prefix announces is the length of the payload that
/// it was made for.
pub proof fn law_frame_round_trip(payload: Seq<u8>)
    requires
        payload.len() <= u64::MAX,
    ensures
        be_value(be_bytes(payload.len(), 8)) == payload.len(),
{
    lemma_be_bytes_len(payload.len(), 8);
    law_be_round_trip(payload.len() as u64, be_bytes(payload.len(), 8));
}

/// Law: every handshake is counted once, in one counter.
pub proof fn law_handshakes_are_counted_once(
    metrics: SessionMetrics,
    outcome: Result<HandshakeSummary, SessionError>,
)
    requires
        metrics.successful < u64::MAX,
        metrics.expired_or_invalid < u64::MAX,
        metrics.issuer_not_trusted < u64::MAX,
        metrics.subject_mismatch < u64::MAX,
        metrics.other_errors < u64::MAX,
    ensures
        ({
            let after = metrics.recorded(outcome);
            &&& after.successful + after.expired_or_invalid + after.issuer_not_trusted
                + after.subject_mismatch + after.other_errors == metrics.successful
                + metrics.expired_or_invalid + metrics.issuer_not_trusted
                + metrics.subject_mismatch + metrics.other_errors + 1
            &&& after.successful >= metrics.successful
            &&& after.expired_or_invalid >= metrics.expired_or_invalid
            &&& after.issuer_not_trusted >= metrics.issuer_not_trusted
            &&& after.subject_mismatch >= metrics.subject_mismatch
            &&& after.other_errors >= metrics.other_errors
        }),
{
}

/// Law: a summary repeats the claims, each under its own name, whether the
/// server or the client makes it.
pub proof fn law_summaries_repeat_the_claims(claims: TicketClaims, summary: HandshakeSummary)
    requires
        summary@ == summary_of(claims@) || Ok::<HandshakeSummaryView, SessionErrorView>(summary@)
            == client_outcome(HandshakeResponseView::Accepted { claims: claims@ }),
    ensures
        summary.issuer.0@ == claims.issuer.0@,
        summary.subject.0@ == claims.subject.0@,
        summary.relay_url@ == claims.relay_url@,
        summary.alpn@ == claims.alpn@,
        summary.expires_at == claims.expires_at,
{
}

/// Law: a handshake that succeeds names the peer. Both sides end with the
/// claims of the ticket, and the subject, for whom streams are pumped, is the
/// one that the server expected, whoever issued the ticket.
pub proof fn law_success_names_the_subject(
    claims: TicketClaimsView,
    trusted: bool,
    expected_subject: Seq<char>,
)
    ensures
        ({
            let verdict = handshake_verdict(Ok(claims), trusted, expected_subject);
            &&& verdict.outcome is Ok <==> trusted && claims.subject == expected_subject
            &&& verdict.outcome matches Ok(summary) ==> {
                &&& summary.subject == expected_subject
                &&& summary.subject == claims.subject
                &&& summary.issuer == claims.issuer
                &&& summary.relay_url == claims.relay_url
                &&& summary.alpn == claims.alpn
                &&& summary.expires_at == claims.expires_at
                &&& verdict.response matches HandshakeResponseView::Accepted { claims: sent }
                    && sent == claims
                &&& client_outcome(verdict.response) == verdict.outcome
            }
        }),
{
}

/// Law: a refusal says why. A ticket that did not verify is refused with its
/// own error, whoever issued it; one that did with the issuer's name if the
/// issuer is not trusted; else, if it is for another, with both subjects. A
/// message that is no ticket is refused with what was wrong with it.
pub proof fn law_refusals_say_why(
    error: TicketErrorView,
    claims: TicketClaimsView,
    trusted: bool,
    expected_subject: Seq<char>,
    text: Seq<char>,
)
    ensures
        handshake_verdict(Err(error), trusted, expected_subject).outcome == Err::<
            HandshakeSummaryView,
            SessionErrorView,
        >(SessionErrorView::Ticket(error)),
        ({
            let verdict = handshake_verdict(Ok(claims), false, expected_subject);
            &&& verdict.outcome == Err::<HandshakeSummaryView, SessionErrorView>(
                SessionErrorView::IssuerNotTrusted(claims.issuer),
            )
            &&& verdict.response == (HandshakeResponseView::Refused {
                kind: HandshakeErrorKindView::IssuerNotTrusted,
            })
        }),
        claims.subject != expected_subject ==> {
            let verdict = handshake_verdict(Ok(claims), true, expected_subject);
            &&& verdict.outcome == Err::<HandshakeSummaryView, SessionErrorView>(
                SessionErrorView::SubjectMismatch {
                    expected: expected_subject,
                    actual: claims.subject,
                },
            )
            &&& verdict.response == (HandshakeResponseView::Refused {
                kind: HandshakeErrorKindView::SubjectMismatch,
            })
        },
        malformed_verdict(text).response == (HandshakeResponseView::Refused {
            kind: HandshakeErrorKindView::MalformedTicket(text),
        }),
        malformed_verdict(text).outcome == Err::<HandshakeSummaryView, SessionErrorView>(
            SessionErrorView::Protocol("deserialize ticket: "@ + text),
        ),
        client_outcome(malformed_verdict(text).response) == Err::<
            HandshakeSummaryView,
            SessionErrorView,
        >(SessionErrorView::Protocol("server reported malformed_ticket: "@ + text)),
{
}

/// Law: verification hands on the claims as they stand in the ticket, and does
/// so exactly if the version is 1, the signature is the issuer's, and the
/// ticket expires later than now.
pub proof fn law_verification_hands_on_the_claims(ticket: SignedTicket, issuer: Seq<u8>, now: i64)
    ensures
        verification_of(ticket, issuer, now) is Ok <==> {
            &&& ticket.claims.version == 1
            &&& ticket.signature@.len() == 64
            &&& ed25519_accepts(
                issuer,
                claims_bytes(ticket.claims@),
                ticket.signature@,
            )
            &&& now < ticket.claims.expires_at
        },
        verification_of(ticket, issuer, now) matches Ok(claims) ==> claims == ticket.claims@,
        verification_of(ticket, issuer, now) matches Err(error) ==> Some(error)
            == ticket_fault(
            ticket.claims@,
            ticket.signature@.len(),
            signature_holds(ticket, issuer),
            now,
        ),
{
}

/// Law: labels tell failure modes apart: two modes share a label only if they
/// are of one sort, and two malformed tickets only if the same was wrong with
/// them, which the label ends with.
pub proof fn law_labels_tell_modes_apart(
    a: HandshakeErrorKindView,
    b: HandshakeErrorKindView,
    text: Seq<char>,
)
    ensures
        kind_label(a) == kind_label(b) ==> {
            ||| a == b
            ||| a is UnsupportedVersion && b is UnsupportedVersion
        },
        a is UnsupportedVersion && b is UnsupportedVersion ==> kind_label(a) == kind_label(b),
        kind_label(HandshakeErrorKindView::MalformedTicket(text)) == "malformed_ticket:"@ + text,
{
    reveal_strlit("ticket_expired");
    reveal_strlit("invalid_signature");
    reveal_strlit("unsupported_version");
    reveal_strlit("invalid_key_encoding");
    reveal_strlit("invalid_signature_encoding");
    reveal_strlit("serialization");
    reveal_strlit("issuer_not_trusted");
    reveal_strlit("subject_mismatch");
    reveal_strlit("malformed_ticket:");
    let prefix = "malformed_ticket:"@;
    if let (
        HandshakeErrorKindView::MalformedTicket(x),
        HandshakeErrorKindView::MalformedTicket(y),
    ) = (a, b) {
        assert(x =~= (prefix + x).skip(prefix.len() as int));
        assert(y =~= (prefix + y).skip(prefix.len() as int));
    }
    assert(kind_label(a)[0] == 'm' <==> a is MalformedTicket);
    assert(kind_label(b)[0] == 'm' <==> b is MalformedTicket);
    assert("ticket_expired"@.len() == 14);
    assert("invalid_signature"@.len() == 17);
    assert("unsupported_version"@.len() == 19);
    assert("invalid_key_encoding"@.len() == 20);
    assert("invalid_signature_encoding"@.len() == 26);
    assert("serialization"@.len() == 13);
    assert("issuer_not_trusted"@.len() == 18);
    assert("subject_mismatch"@.len() == 16);
}

/// Law: a client names the check that its server reported as failed, and
/// repeats what was wrong with a malformed ticket.
pub proof fn law_reports_are_passed_on(version: u8, text: Seq<char>)
    ensures
        reported_error(HandshakeErrorKindView::UnsupportedVersion(version))
            == SessionErrorView::Ticket(TicketErrorView::UnsupportedVersion(version)),
        reported_error(HandshakeErrorKindView::IssuerNotTrusted) == SessionErrorView::Protocol(
            "server reported issuer_not_trusted"@,
        ),
        reported_error(HandshakeErrorKindView::SubjectMismatch) == SessionErrorView::Protocol(
            "server reported subject_mismatch"@,
        ),
        reported_error(HandshakeErrorKindView::MalformedTicket(text)) == SessionErrorView::Protocol(
            "server reported malformed_ticket: "@ + text,
        ),
{
}

/// Law: a handshake is counted under what came of it, and the other counters
/// stay as they are.
pub proof fn law_handshakes_are_counted_by_outcome(
    metrics: SessionMetrics,
    outcome: Result<HandshakeSummary, SessionError>,
)
    ensures
        ({
            let after = metrics.recorded(outcome);
            let invalid = outcome matches Err(SessionError::Ticket(_));
            let untrusted = outcome matches Err(SessionError::IssuerNotTrusted(_));
            let mismatch = outcome matches Err(SessionError::SubjectMismatch { .. });
            let other = outcome is Err && !invalid && !untrusted && !mismatch;
            &&& moved(metrics.successful, after.successful, outcome is Ok)
            &&& moved(metrics.expired_or_invalid, after.expired_or_invalid, invalid)
            &&& moved(metrics.issuer_not_trusted, after.issuer_not_trusted, untrusted)
            &&& moved(metrics.subject_mismatch, after.subject_mismatch, mismatch)
            &&& moved(metrics.other_errors, after.other_errors, other)
        }),
{
}

/// Whether a counter moved by one, wrapping at the end of its range, or not at
/// all.
pub open spec fn moved(before: u64, after: u64, by_one: bool) -> bool {
    if by_one {
        after == (before + 1) % 0x1_0000_0000_0000_0000
    } else {
        after == before
    }
}

/// Law: the content of what a handshake reports is all of it.
pub proof fn law_reports_show_their_content(
    summary: HandshakeSummary,
    response: HandshakeResponse,
    verdict: HandshakeVerdict,
)
    ensures
        summary@.issuer == summary.issuer.0@,
        summary@.subject == summary.subject.0@,
        summary@.relay_url == summary.relay_url@,
        summary@.alpn == summary.alpn@,
        summary@.expires_at == summary.expires_at,
        match response {
            HandshakeResponse::Accepted { claims } => response@ == (
            HandshakeResponseView::Accepted { claims: claims@ }),
            HandshakeResponse::Refused { kind } => response@ == (HandshakeResponseView::Refused {
                kind: kind@,
            }),
        },
        verdict@.response == verdict.response@,
        match verdict.outcome {
            Ok(summary) => verdict@.outcome == Ok::<HandshakeSummaryView, SessionErrorView>(
                summary@,
            ),
            Err(error) => verdict@.outcome == Err::<HandshakeSummaryView, SessionErrorView>(error@),
        },
{
}

/// Law: the content of a failure mode or an error is which it is and what it
/// carries.
pub proof fn law_errors_show_their_content(kind: HandshakeErrorKind, error: SessionError)
    ensures
        match kind {
            HandshakeErrorKind::TicketExpired => kind@ is TicketExpired,
            HandshakeErrorKind::InvalidSignature => kind@ is InvalidSignature,
            HandshakeErrorKind::UnsupportedVersion(version) => kind@
                == HandshakeErrorKindView::UnsupportedVersion(version),
            HandshakeErrorKind::InvalidKeyEncoding => kind@ is InvalidKeyEncoding,
            HandshakeErrorKind::InvalidSignatureEncoding => kind@ is InvalidSignatureEncoding,
            HandshakeErrorKind::Serialization => kind@ is Serialization,
            HandshakeErrorKind::IssuerNotTrusted => kind@ is IssuerNotTrusted,
            HandshakeErrorKind::SubjectMismatch => kind@ is SubjectMismatch,
            HandshakeErrorKind::MalformedTicket(text) => kind@
                == HandshakeErrorKindView::MalformedTicket(text@),
        },
        match error {
            SessionError::Io(text) => error@ == SessionErrorView::Io(text@),
            SessionError::Write(text) => error@ == SessionErrorView::Write(text@),
            SessionError::Read(text) => error@ == SessionErrorView::Read(text@),
            SessionError::ClosedStream => error@ is ClosedStream,
            SessionError::Connection(text) => error@ == SessionErrorView::Connection(text@),
            SessionError::Ticket(inner) => error@ == SessionErrorView::Ticket(inner@),
            SessionError::SubjectMismatch { expected, actual } => error@ == (
            SessionErrorView::SubjectMismatch { expected: expected@, actual: actual@ }),
            SessionError::IssuerNotTrusted(text) => error@ == SessionErrorView::IssuerNotTrusted(
                text@,
            ),
            SessionError::Protocol(text) => error@ == SessionErrorView::Protocol(text@),
        },
{
}

} // verus!
