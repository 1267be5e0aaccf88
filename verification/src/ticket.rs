//! Signed tickets: who may use a relay, at which address and until when.
//!
//! A ticket is a set of claims and the issuer's signature of them. The
//! signature covers every claim: what is signed is the claims' byte layout,
//! from which each claim can be read back.

use vstd::prelude::*;
use vstd::string::*;
use vstd::utf8::{encode_utf8, encode_utf8_decode_utf8};

use crate::bytes::{be_bytes, law_be_round_trip, lemma_be_bytes_len, u64_to_be_bytes};
use crate::keys::{
    ed25519_accepts, ed25519_public_key, ed25519_signature, SigningKey, VerifyingKey,
};
use crate::node::{hex_text, NodeId};

verus! {

/// Application protocol that SnapPipe peers negotiate by default.
pub const DEFAULT_ALPN: &'static str = "/snappipe/0";

/// The one ticket version that this relay issues and accepts.
pub const TICKET_VERSION: u8 = 1;

/// Bytes of an Ed25519 signature.
pub const SIGNATURE_LEN: usize = 64;

/// What a ticket claims.
#[derive(Debug)]
pub struct TicketClaims {
    pub version: u8,
    pub issuer: NodeId,
    pub subject: NodeId,
    pub relay_url: String,
    pub alpn: String,
    pub issued_at: i64,
    pub expires_at: i64,
    pub nonce: String,
}

/// The content of [`TicketClaims`].
#[verifier::ext_equal]
pub struct TicketClaimsView {
    pub version: u8,
    pub issuer: Seq<char>,
    pub subject: Seq<char>,
    pub relay_url: Seq<char>,
    pub alpn: Seq<char>,
    pub issued_at: i64,
    pub expires_at: i64,
    pub nonce: Seq<char>,
}

impl View for TicketClaims {
    type V = TicketClaimsView;

    open spec fn view(&self) -> TicketClaimsView {
        TicketClaimsView {
            version: self.version,
            issuer: self.issuer@,
            subject: self.subject@,
            relay_url: self.relay_url@,
            alpn: self.alpn@,
            issued_at: self.issued_at,
            expires_at: self.expires_at,
            nonce: self.nonce@,
        }
    }
}

impl Clone for TicketClaims {
    fn clone(&self) -> (copy: Self)
        ensures
            copy == *self,
    {
        TicketClaims {
            version: self.version,
            issuer: self.issuer.clone(),
            subject: self.subject.clone(),
            relay_url: self.relay_url.clone(),
            alpn: self.alpn.clone(),
            issued_at: self.issued_at,
            expires_at: self.expires_at,
            nonce: self.nonce.clone(),
        }
    }
}

/// Claims with the issuer's signature.
#[derive(Debug)]
pub struct SignedTicket {
    pub claims: TicketClaims,
    pub signature: Vec<u8>,
}

/// Why a ticket was not issued or not accepted.
#[derive(Debug, PartialEq, Eq)]
pub enum TicketError {
    Expired,
    InvalidSignature,
    UnsupportedVersion(u8),
    InvalidKeyEncoding,
    InvalidSignatureEncoding,
    Serialization(String),
}

/// The content of a [`TicketError`].
#[verifier::ext_equal]
pub enum TicketErrorView {
    Expired,
    InvalidSignature,
    UnsupportedVersion(u8),
    InvalidKeyEncoding,
    InvalidSignatureEncoding,
    Serialization(Seq<char>),
}

impl View for TicketError {
    type V = TicketErrorView;

    open spec fn view(&self) -> TicketErrorView {
        match *self {
            TicketError::Expired => TicketErrorView::Expired,
            TicketError::InvalidSignature => TicketErrorView::InvalidSignature,
            TicketError::UnsupportedVersion(version) => TicketErrorView::UnsupportedVersion(
                version,
            ),
            TicketError::InvalidKeyEncoding => TicketErrorView::InvalidKeyEncoding,
            TicketError::InvalidSignatureEncoding => TicketErrorView::InvalidSignatureEncoding,
            TicketError::Serialization(message) => TicketErrorView::Serialization(message@),
        }
    }
}

/// Text with its length in bytes in front.
pub open spec fn text_field(text: Seq<char>) -> Seq<u8> {
    be_bytes(encode_utf8(text).len(), 8) + encode_utf8(text)
}

/// A signed integer in eight bytes.
pub open spec fn int_field(value: i64) -> Seq<u8> {
    be_bytes(value as u64 as nat, 8)
}

/// The byte layout of the claims, which is what an issuer signs.
pub open spec fn claims_bytes(claims: TicketClaimsView) -> Seq<u8> {
    seq![claims.version] + (text_field(claims.issuer) + (text_field(claims.subject) + (text_field(
        claims.relay_url,
    ) + (text_field(claims.alpn) + (int_field(claims.issued_at) + (int_field(claims.expires_at)
        + text_field(claims.nonce)))))))
}

proof fn lemma_concat(a: Seq<u8>, b: Seq<u8>, c: Seq<u8>)
    ensures
        (a + b) + c == a + (b + c),
{
    assert((a + b) + c =~= a + (b + c));
}

fn push_bytes(out: &mut Vec<u8>, bytes: &[u8])
    ensures
        final(out)@ == old(out)@ + bytes@,
{
    let ghost start = out@;
    let mut at: usize = 0;
    while at < bytes.len()
        invariant
            at <= bytes@.len(),
            out@ == start + bytes@.take(at as int),
        decreases bytes@.len() - at,
    {
        out.push(bytes[at]);
        assert(out@ =~= start + bytes@.take(at + 1));
        at = at + 1;
    }
    assert(bytes@.take(at as int) =~= bytes@);
}

fn push_u64(out: &mut Vec<u8>, value: u64)
    ensures
        final(out)@ == old(out)@ + be_bytes(value as nat, 8),
{
    let bytes = u64_to_be_bytes(value);
    push_bytes(out, bytes.as_slice());
}

fn push_text(out: &mut Vec<u8>, text: &str)
    ensures
        final(out)@ == old(out)@ + text_field(text@),
{
    let bytes = text.as_bytes();
    push_u64(out, bytes.len() as u64);
    push_bytes(out, bytes);
    assert(out@ =~= old(out)@ + text_field(text@));
}

impl TicketClaims {
    /// The bytes that an issuer signs.
    pub fn signing_bytes(&self) -> (bytes: Vec<u8>)
        ensures
            bytes@ == claims_bytes(self@),
    {
        let mut out: Vec<u8> = Vec::new();
        out.push(self.version);
        push_text(&mut out, self.issuer.0.as_str());
        push_text(&mut out, self.subject.0.as_str());
        push_text(&mut out, self.relay_url.as_str());
        push_text(&mut out, self.alpn.as_str());
        push_u64(&mut out, self.issued_at as u64);
        push_u64(&mut out, self.expires_at as u64);
        push_text(&mut out, self.nonce.as_str());
        proof {
            let head = seq![self.version];
            let issuer = text_field(self.issuer@);
            let subject = text_field(self.subject@);
            let relay_url = text_field(self.relay_url@);
            let alpn = text_field(self.alpn@);
            let issued_at = int_field(self.issued_at);
            let expires_at = int_field(self.expires_at);
            let nonce = text_field(self.nonce@);
            let times = issued_at + (expires_at + nonce);
            assert(out@ == head + issuer + subject + relay_url + alpn + issued_at + expires_at
                + nonce) by {
                assert(Seq::<u8>::empty().push(self.version) =~= head);
            }
            lemma_concat(
                head + issuer + subject + relay_url + alpn + issued_at,
                expires_at,
                nonce,
            );
            lemma_concat(
                head + issuer + subject + relay_url + alpn,
                issued_at,
                expires_at + nonce,
            );
            lemma_concat(head + issuer + subject + relay_url, alpn, times);
            lemma_concat(head + issuer + subject, relay_url, alpn + times);
            lemma_concat(head + issuer, subject, relay_url + (alpn + times));
            lemma_concat(head, issuer, subject + (relay_url + (alpn + times)));
        }
        out
    }
}

/// What verification says of a ticket: the error it is refused with, if any.
/// `accepted` is whether its signature was accepted, which is asked only of a
/// signature of the right length.
pub open spec fn ticket_fault(
    claims: TicketClaimsView,
    signature_len: nat,
    accepted: bool,
    now: i64,
) -> Option<TicketErrorView> {
    if claims.version != TICKET_VERSION {
        Some(TicketErrorView::UnsupportedVersion(claims.version))
    } else if signature_len != SIGNATURE_LEN {
        Some(TicketErrorView::InvalidSignatureEncoding)
    } else if !accepted {
        Some(TicketErrorView::InvalidSignature)
    } else if now >= claims.expires_at {
        Some(TicketErrorView::Expired)
    } else {
        None
    }
}

/// Judge a ticket whose signature, of `signature_len` bytes, was `accepted` or
/// not. A ticket is good up to but excluding the second that it expires in.
pub fn judge_ticket(claims: &TicketClaims, signature_len: usize, accepted: bool, now_unix: i64) -> (
fault: Option<TicketError>)
    ensures
        match fault {
            Some(error) => ticket_fault(claims@, signature_len as nat, accepted, now_unix) == Some(
                error@,
            ),
            None => ticket_fault(claims@, signature_len as nat, accepted, now_unix) is None,
        },
{
    if claims.version != TICKET_VERSION {
        Some(TicketError::UnsupportedVersion(claims.version))
    } else if signature_len != SIGNATURE_LEN {
        Some(TicketError::InvalidSignatureEncoding)
    } else if !accepted {
        Some(TicketError::InvalidSignature)
    } else if now_unix >= claims.expires_at {
        Some(TicketError::Expired)
    } else {
        None
    }
}

/// Whether a ticket carries a signature of its claims under `key`.
pub open spec fn signature_holds(ticket: SignedTicket, key: Seq<u8>) -> bool {
    ticket.signature@.len() == SIGNATURE_LEN && ed25519_accepts(
        key,
        claims_bytes(ticket.claims@),
        ticket.signature@,
    )
}

/// Verify a ticket against its issuer's public key and the clock, and return
/// its claims.
pub fn verify_ticket(
    ticket: &SignedTicket,
    issuer_verifying_key: &VerifyingKey,
    now_unix: i64,
) -> (verified: Result<TicketClaims, TicketError>)
    ensures
        match verified {
            Ok(claims) => {
                &&& ticket_fault(
                    ticket.claims@,
                    ticket.signature@.len(),
                    signature_holds(*ticket, issuer_verifying_key@),
                    now_unix,
                ) is None
                &&& claims == ticket.claims
            },
            Err(error) => ticket_fault(
                ticket.claims@,
                ticket.signature@.len(),
                signature_holds(*ticket, issuer_verifying_key@),
                now_unix,
            ) == Some(error@),
        },
{
    let accepted = if ticket.signature.len() == SIGNATURE_LEN {
        let message = ticket.claims.signing_bytes();
        issuer_verifying_key.accepts(message.as_slice(), ticket.signature.as_slice())
    } else {
        false
    };
    match judge_ticket(&ticket.claims, ticket.signature.len(), accepted, now_unix) {
        Some(error) => Err(error),
        None => Ok(ticket.claims.clone()),
    }
}

/// The claims of a ticket issued at `now` by the holder of `issuer`, valid for
/// `ttl` seconds. Without a subject the issuer is its own subject.
pub open spec fn issued_claims(
    issuer: Seq<u8>,
    subject: Option<Seq<u8>>,
    relay_url: Seq<char>,
    alpn: Seq<char>,
    ttl: i64,
    now: i64,
    nonce: Seq<char>,
) -> TicketClaimsView {
    TicketClaimsView {
        version: TICKET_VERSION,
        issuer: hex_text(issuer),
        subject: hex_text(
            match subject {
                Some(subject) => subject,
                None => issuer,
            },
        ),
        relay_url,
        alpn,
        issued_at: now,
        expires_at: (now + ttl) as i64,
        nonce,
    }
}

/// Issue a ticket that the holder of `issuer` signs. `nonce` tells apart
/// tickets that are otherwise alike: the caller draws it.
///
/// Fails only if the expiry is out of the range of the clock.
pub fn issue_ticket(
    issuer: &SigningKey,
    subject: Option<&VerifyingKey>,
    relay_url: &str,
    alpn: &str,
    ttl_secs: i64,
    now_unix: i64,
    nonce: &str,
) -> (issued: Result<SignedTicket, TicketError>)
    ensures
        issued is Ok <==> i64::MIN <= now_unix + ttl_secs <= i64::MAX,
        match issued {
            Ok(ticket) => {
                &&& ticket.claims@ == issued_claims(
                    ed25519_public_key(issuer@),
                    match subject {
                        Some(subject) => Some(subject@),
                        None => None,
                    },
                    relay_url@,
                    alpn@,
                    ttl_secs,
                    now_unix,
                    nonce@,
                )
                &&& ticket.signature@ == ed25519_signature(issuer@, claims_bytes(ticket.claims@))
                &&& signature_holds(ticket, ed25519_public_key(issuer@))
            },
            Err(error) => error@ == TicketErrorView::Serialization("expiry out of range"@),
        },
{
    let expires_at: i64 = match now_unix.checked_add(ttl_secs) {
        Some(expires_at) => expires_at,
        None => {
            return Err(TicketError::Serialization("expiry out of range".to_owned()));
        },
    };
    let issuer_id = NodeId::from_verifying_key(&issuer.verifying_key());
    let subject_id = match subject {
        Some(subject) => NodeId::from_verifying_key(subject),
        None => issuer_id.clone(),
    };
    let claims = TicketClaims {
        version: TICKET_VERSION,
        issuer: issuer_id,
        subject: subject_id,
        relay_url: relay_url.to_owned(),
        alpn: alpn.to_owned(),
        issued_at: now_unix,
        expires_at,
        nonce: nonce.to_owned(),
    };
    let message = claims.signing_bytes();
    let signature = issuer.sign(message.as_slice());
    Ok(SignedTicket { claims, signature })
}

/// Law: a ticket that the holder of a key issued is accepted under that key's
/// public half at every time before its expiry, and is refused as expired from
/// then on.
pub proof fn law_issued_ticket_is_accepted(ticket: SignedTicket, issuer: Seq<u8>, now: i64)
    requires
        ticket.claims.version == TICKET_VERSION,
        signature_holds(ticket, ed25519_public_key(issuer)),
    ensures
        ({
            let fault = ticket_fault(
                ticket.claims@,
                ticket.signature@.len(),
                signature_holds(ticket, ed25519_public_key(issuer)),
                now,
            );
            if now < ticket.claims.expires_at {
                fault is None
            } else {
                fault == Some(TicketErrorView::Expired)
            }
        }),
{
}

/// Whether every text of the claims is short enough for its length to fit the
/// layout's length field, as any text in memory is.
pub open spec fn lengths_fit(claims: TicketClaimsView) -> bool {
    &&& encode_utf8(claims.issuer).len() <= u64::MAX
    &&& encode_utf8(claims.subject).len() <= u64::MAX
    &&& encode_utf8(claims.relay_url).len() <= u64::MAX
    &&& encode_utf8(claims.alpn).len() <= u64::MAX
    &&& encode_utf8(claims.nonce).len() <= u64::MAX
}

/// Law: a signature covers every claim. Claims that differ anywhere have
/// different bytes to sign.
pub proof fn law_signed_bytes_determine_claims(a: TicketClaimsView, b: TicketClaimsView)
    requires
        lengths_fit(a),
        lengths_fit(b),
    ensures
        claims_bytes(a) == claims_bytes(b) <==> a == b,
{
    if claims_bytes(a) == claims_bytes(b) {
        let a7 = text_field(a.nonce);
        let b7 = text_field(b.nonce);
        let a6 = int_field(a.expires_at) + a7;
        let b6 = int_field(b.expires_at) + b7;
        let a5 = int_field(a.issued_at) + a6;
        let b5 = int_field(b.issued_at) + b6;
        let a4 = text_field(a.alpn) + a5;
        let b4 = text_field(b.alpn) + b5;
        let a3 = text_field(a.relay_url) + a4;
        let b3 = text_field(b.relay_url) + b4;
        let a2 = text_field(a.subject) + a3;
        let b2 = text_field(b.subject) + b3;
        let a1 = text_field(a.issuer) + a2;
        let b1 = text_field(b.issuer) + b2;
        assert(claims_bytes(a)[0] == a.version);
        assert(claims_bytes(b)[0] == b.version);
        assert(a1 =~= claims_bytes(a).skip(1));
        assert(b1 =~= claims_bytes(b).skip(1));
        lemma_text_field_splits(a.issuer, a2, b.issuer, b2);
        lemma_text_field_splits(a.subject, a3, b.subject, b3);
        lemma_text_field_splits(a.relay_url, a4, b.relay_url, b4);
        lemma_text_field_splits(a.alpn, a5, b.alpn, b5);
        lemma_int_field_splits(a.issued_at, a6, b.issued_at, b6);
        lemma_int_field_splits(a.expires_at, a7, b.expires_at, b7);
        assert(a7 =~= a7 + Seq::<u8>::empty());
        assert(b7 =~= b7 + Seq::<u8>::empty());
        lemma_text_field_splits(a.nonce, Seq::empty(), b.nonce, Seq::empty());
    }
}

proof fn lemma_number_splits(a: u64, rest_a: Seq<u8>, b: u64, rest_b: Seq<u8>)
    requires
        be_bytes(a as nat, 8) + rest_a == be_bytes(b as nat, 8) + rest_b,
    ensures
        a == b,
        rest_a == rest_b,
{
    let whole = be_bytes(a as nat, 8) + rest_a;
    lemma_be_bytes_len(a as nat, 8);
    lemma_be_bytes_len(b as nat, 8);
    assert(be_bytes(a as nat, 8) =~= whole.take(8));
    assert(be_bytes(b as nat, 8) =~= whole.take(8));
    assert(rest_a =~= whole.skip(8));
    assert(rest_b =~= whole.skip(8));
    law_be_round_trip(a, whole.take(8));
    law_be_round_trip(b, whole.take(8));
}

proof fn lemma_int_field_splits(a: i64, rest_a: Seq<u8>, b: i64, rest_b: Seq<u8>)
    requires
        int_field(a) + rest_a == int_field(b) + rest_b,
    ensures
        a == b,
        rest_a == rest_b,
{
    lemma_number_splits(a as u64, rest_a, b as u64, rest_b);
    assert(a as u64 == b as u64 ==> a == b) by (bit_vector);
}

proof fn lemma_text_field_splits(
    a: Seq<char>,
    rest_a: Seq<u8>,
    b: Seq<char>,
    rest_b: Seq<u8>,
)
    requires
        encode_utf8(a).len() <= u64::MAX,
        encode_utf8(b).len() <= u64::MAX,
        text_field(a) + rest_a == text_field(b) + rest_b,
    ensures
        a == b,
        rest_a == rest_b,
{
    let len_a = encode_utf8(a).len() as u64;
    let len_b = encode_utf8(b).len() as u64;
    let tail_a = encode_utf8(a) + rest_a;
    let tail_b = encode_utf8(b) + rest_b;
    assert(text_field(a) + rest_a =~= be_bytes(len_a as nat, 8) + tail_a);
    assert(text_field(b) + rest_b =~= be_bytes(len_b as nat, 8) + tail_b);
    lemma_number_splits(len_a, tail_a, len_b, tail_b);
    assert(encode_utf8(a) =~= tail_a.take(len_a as int));
    assert(encode_utf8(b) =~= tail_a.take(len_a as int));
    assert(rest_a =~= tail_a.skip(len_a as int));
    assert(rest_b =~= tail_a.skip(len_a as int));
    encode_utf8_decode_utf8(a);
    encode_utf8_decode_utf8(b);
}

/// Law: a ticket is good exactly if it is of version 1, has a signature of 64
/// bytes that was accepted, and expires later than now. Of several faults the
/// first in that order is the one reported, a wrong version by its number.
pub proof fn law_ticket_verdicts(
    claims: TicketClaimsView,
    signature_len: nat,
    accepted: bool,
    now: i64,
)
    ensures
        ({
            let fault = ticket_fault(claims, signature_len, accepted, now);
            let good_version = claims.version == 1;
            let good_length = good_version && signature_len == 64;
            let genuine = good_length && accepted;
            &&& fault is None <==> genuine && claims.expires_at > now
            &&& !good_version <==> fault == Some(TicketErrorView::UnsupportedVersion(claims.version))
            &&& good_version && !good_length <==> fault == Some(
                TicketErrorView::InvalidSignatureEncoding,
            )
            &&& good_length && !accepted <==> fault == Some(TicketErrorView::InvalidSignature)
            &&& genuine && claims.expires_at <= now <==> fault == Some(TicketErrorView::Expired)
        }),
{
}

/// Law: a signature holds for the claims that were signed and for no others: a
/// ticket passes under a key only with 64 bytes that the key accepts for its
/// own claims, so the same signature on other claims must be accepted for
/// other bytes.
pub proof fn law_signatures_are_of_the_claims(a: SignedTicket, b: SignedTicket, key: Seq<u8>)
    ensures
        signature_holds(a, key) <==> a.signature@.len() == 64 && ed25519_accepts(
            key,
            claims_bytes(a.claims@),
            a.signature@,
        ),
        lengths_fit(a.claims@) && lengths_fit(b.claims@) && a.claims@ != b.claims@ ==> claims_bytes(
            a.claims@,
        ) != claims_bytes(b.claims@),
{
    if lengths_fit(a.claims@) && lengths_fit(b.claims@) {
        law_signed_bytes_determine_claims(a.claims@, b.claims@);
    }
}

/// Law: a ticket says what it was issued with: version 1, the issuer's own
/// identity, the subject's or without one the issuer's again, the address,
/// protocol and nonce given, and a life of `ttl` seconds from now.
pub proof fn law_issued_claims_are_those_given(
    claims: TicketClaims,
    issuer: Seq<u8>,
    subject: Option<Seq<u8>>,
    relay_url: Seq<char>,
    alpn: Seq<char>,
    ttl: i64,
    now: i64,
    nonce: Seq<char>,
)
    requires
        claims@ == issued_claims(issuer, subject, relay_url, alpn, ttl, now, nonce),
        i64::MIN <= now + ttl <= i64::MAX,
    ensures
        claims.version == 1,
        claims.issuer.0@ == hex_text(issuer),
        subject is None ==> claims.subject.0@ == hex_text(issuer),
        subject matches Some(subject) ==> claims.subject.0@ == hex_text(subject),
        claims.relay_url@ == relay_url,
        claims.alpn@ == alpn,
        claims.issued_at == now,
        claims.expires_at - claims.issued_at == ttl,
        claims.nonce@ == nonce,
{
}

/// Law: the content of claims is each of them, and the content of an error is
/// which it is and what it carries.
pub proof fn law_claims_show_their_content(claims: TicketClaims, error: TicketError)
    ensures
        claims@.version == claims.version,
        claims@.issuer == claims.issuer.0@,
        claims@.subject == claims.subject.0@,
        claims@.relay_url == claims.relay_url@,
        claims@.alpn == claims.alpn@,
        claims@.issued_at == claims.issued_at,
        claims@.expires_at == claims.expires_at,
        claims@.nonce == claims.nonce@,
        error is Expired <==> error@ is Expired,
        error is InvalidSignature <==> error@ is InvalidSignature,
        error is InvalidKeyEncoding <==> error@ is InvalidKeyEncoding,
        error is InvalidSignatureEncoding <==> error@ is InvalidSignatureEncoding,
        error is UnsupportedVersion <==> error@ is UnsupportedVersion,
        error matches TicketError::UnsupportedVersion(version) ==> error@
            == TicketErrorView::UnsupportedVersion(version),
        error is Serialization <==> error@ is Serialization,
        error matches TicketError::Serialization(text) ==> error@ == TicketErrorView::Serialization(
            text@,
        ),
{
}

} // verus!
