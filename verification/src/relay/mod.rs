//! The relay.
//!
//! The relay sits between two peers that have already completed a ticket-gated
//! handshake. Once a connection is accepted, the relay forwards bytes from the
//! authenticated peer to an upstream endpoint. It
//!
//! - enforces the trust store on every incoming peer,
//! - rate-limits incoming traffic per peer,
//! - sums up each connection in a [`ConnectionLog`].
//!
//! The relay does not understand the application protocol beyond the initial
//! handshake stream: it pumps bytes.

pub mod listener;
pub mod pump;
pub mod shared;
pub mod stats;
pub mod stream;

use vstd::prelude::*;

use crate::keys::SigningKey;
use crate::net::SocketAddress;
use crate::node::NodeId;
use crate::rate_limit::{RateLimiter, RateLimiterState};
use crate::session::TrustCheck;
use crate::trust::{TrustEntryView, TrustStore};

verus! {

/// Why a relayed connection ended.
#[derive(Debug, PartialEq, Eq)]
pub enum ConnectionOutcome {
    Closed,
    RateLimited,
    TrustRejected,
    Error(String),
}

/// The content of a [`ConnectionOutcome`].
#[verifier::ext_equal]
pub enum ConnectionOutcomeView {
    Closed,
    RateLimited,
    TrustRejected,
    Error(Seq<char>),
}

impl View for ConnectionOutcome {
    type V = ConnectionOutcomeView;

    open spec fn view(&self) -> ConnectionOutcomeView {
        match *self {
            ConnectionOutcome::Closed => ConnectionOutcomeView::Closed,
            ConnectionOutcome::RateLimited => ConnectionOutcomeView::RateLimited,
            ConnectionOutcome::TrustRejected => ConnectionOutcomeView::TrustRejected,
            ConnectionOutcome::Error(text) => ConnectionOutcomeView::Error(text@),
        }
    }
}

impl Clone for ConnectionOutcome {
    fn clone(&self) -> (copy: Self)
        ensures
            copy == *self,
    {
        match self {
            ConnectionOutcome::Closed => ConnectionOutcome::Closed,
            ConnectionOutcome::RateLimited => ConnectionOutcome::RateLimited,
            ConnectionOutcome::TrustRejected => ConnectionOutcome::TrustRejected,
            ConnectionOutcome::Error(text) => ConnectionOutcome::Error(text.clone()),
        }
    }
}

/// Structured log emitted at the end of each relayed connection. The start is
/// in nanoseconds since the Unix epoch.
#[derive(Debug, PartialEq, Eq)]
pub struct ConnectionLog {
    pub src_node: NodeId,
    pub dst_node: Option<NodeId>,
    pub bytes_in: u64,
    pub bytes_out: u64,
    pub started_at_unix: i64,
    pub duration_ms: u64,
    pub outcome: ConnectionOutcome,
}

/// The content of a [`ConnectionLog`].
#[verifier::ext_equal]
pub struct ConnectionLogView {
    pub src_node: Seq<char>,
    pub dst_node: Option<Seq<char>>,
    pub bytes_in: u64,
    pub bytes_out: u64,
    pub started_at_unix: i64,
    pub duration_ms: u64,
    pub outcome: ConnectionOutcomeView,
}

impl View for ConnectionLog {
    type V = ConnectionLogView;

    open spec fn view(&self) -> ConnectionLogView {
        ConnectionLogView {
            src_node: self.src_node@,
            dst_node: match self.dst_node {
                Some(node) => Some(node@),
                None => None,
            },
            bytes_in: self.bytes_in,
            bytes_out: self.bytes_out,
            started_at_unix: self.started_at_unix,
            duration_ms: self.duration_ms,
            outcome: self.outcome@,
        }
    }
}

impl Clone for ConnectionLog {
    fn clone(&self) -> (copy: Self)
        ensures
            copy == *self,
    {
        ConnectionLog {
            src_node: self.src_node.clone(),
            dst_node: match &self.dst_node {
                Some(node) => Some(node.clone()),
                None => None,
            },
            bytes_in: self.bytes_in,
            bytes_out: self.bytes_out,
            started_at_unix: self.started_at_unix,
            duration_ms: self.duration_ms,
            outcome: self.outcome.clone(),
        }
    }
}

/// Errors raised by the relay service. Errors of the system are carried as
/// their text.
#[derive(Debug, PartialEq, Eq)]
pub enum RelayError {
    Io(String),
    RateLimiter,
    TrustStore,
}

/// Configuration of a [`Relay`].
pub struct RelayConfig {
    pub listen_addr: SocketAddress,
    pub trust: TrustStore,
    pub rate_limiter: RateLimiter,
    /// The relay's own long-term key. It issues the tickets that the relay
    /// accepts, and is the subject that they must name.
    pub signing_key: SigningKey,
    pub idle_timeout_ms: u64,
}

impl RelayConfig {
    /// A configuration with an idle timeout of 30 seconds.
    pub fn new(
        listen_addr: SocketAddress,
        trust: TrustStore,
        rate_limiter: RateLimiter,
        signing_key: SigningKey,
    ) -> (config: Self)
        ensures
            config == (RelayConfig {
                listen_addr,
                trust,
                rate_limiter,
                signing_key,
                idle_timeout_ms: 30_000,
            }),
    {
        RelayConfig { listen_addr, trust, rate_limiter, signing_key, idle_timeout_ms: 30_000 }
    }
}

/// What the decisions of a [`Relay`] depend on.
#[verifier::ext_equal]
pub struct RelayState {
    pub trust: Map<Seq<char>, TrustEntryView>,
    pub limiter: RateLimiterState,
    pub active_sessions: u64,
}

impl RelayState {
    /// The state once the limiter uses the trust store's budget of `node`, if
    /// it has one.
    pub open spec fn synced(self, node: Seq<char>, now: i64) -> RelayState {
        if self.trust.contains_key(node) {
            RelayState {
                limiter: self.limiter.limited(node, self.trust[node].rate_limit_per_min, now),
                ..self
            }
        } else {
            self
        }
    }

    /// The state after one request of `node` at `now` is charged.
    pub open spec fn charged(self, node: Seq<char>, now: i64) -> RelayState {
        RelayState { limiter: self.limiter.charged(node, now), ..self }
    }

    /// The state with one more session.
    pub open spec fn entered(self) -> RelayState {
        RelayState {
            active_sessions: if self.active_sessions == u64::MAX {
                0
            } else {
                (self.active_sessions + 1) as u64
            },
            ..self
        }
    }

    /// The state with one session fewer.
    pub open spec fn left(self) -> RelayState {
        RelayState {
            active_sessions: if self.active_sessions == 0 {
                u64::MAX
            } else {
                (self.active_sessions - 1) as u64
            },
            ..self
        }
    }
}

/// In-memory relay service.
pub struct Relay {
    config: RelayConfig,
    /// Number of sessions that have started and not finished. Early rejection
    /// finishes a session too. Wraps around at the end of its range.
    active_sessions: u64,
}

impl View for Relay {
    type V = RelayState;

    closed spec fn view(&self) -> RelayState {
        RelayState {
            trust: self.config.trust@,
            limiter: self.config.rate_limiter@,
            active_sessions: self.active_sessions,
        }
    }
}

impl Relay {
    /// The configuration, with its limiter as it stands now.
    pub closed spec fn current_config(self) -> RelayConfig {
        self.config
    }

    /// Whether two states of a relay have the same configuration, but for the
    /// limiter.
    pub open spec fn same_setup(self, other: Relay) -> bool {
        &&& self.current_config().listen_addr == other.current_config().listen_addr
        &&& self.current_config().trust == other.current_config().trust
        &&& self.current_config().signing_key == other.current_config().signing_key
        &&& self.current_config().idle_timeout_ms == other.current_config().idle_timeout_ms
    }

    /// A relay that has no sessions yet.
    pub fn new(config: RelayConfig) -> (relay: Self)
        ensures
            relay.current_config() == config,
            relay@ == (RelayState {
                trust: config.trust@,
                limiter: config.rate_limiter@,
                active_sessions: 0,
            }),
    {
        Relay { config, active_sessions: 0 }
    }

    /// The configuration, with its limiter as it stands now.
    pub fn config(&self) -> (config: &RelayConfig)
        ensures
            *config == self.current_config(),
            config.trust@ == self@.trust,
            config.rate_limiter@ == self@.limiter,
    {
        &self.config
    }

    /// The relay's own long-term key.
    pub fn signing_key(&self) -> (key: &SigningKey)
        ensures
            *key == self.current_config().signing_key,
    {
        &self.config.signing_key
    }

    /// Returns the number of sessions currently being handled.
    pub fn active_sessions(&self) -> (count: u64)
        ensures
            count == self@.active_sessions,
    {
        self.active_sessions
    }

    /// Look up the per-node rate limit override from the trust store and apply
    /// it to the rate limiter. Returns `false` if no override exists.
    pub fn sync_node_limit(&mut self, node: &NodeId, now_unix: i64) -> (found: bool)
        ensures
            found == old(self)@.trust.contains_key(node@),
            final(self)@ == old(self)@.synced(node@, now_unix),
            final(self).same_setup(*old(self)),
    {
        if let Some(entry) = self.config.trust.get(node) {
            let per_min: u32 = entry.rate_limit_per_min;
            self.config.rate_limiter.set_limit(node, per_min, now_unix);
            true
        } else {
            false
        }
    }

    /// Whether the trust store has an entry of `node`.
    fn trusts(&self, node: &NodeId) -> (trusted: bool)
        ensures
            trusted == self@.trust.contains_key(node@),
    {
        self.config.trust.is_trusted(node)
    }

    /// Charge one request of `node` at `now_unix`. Returns `true` if allowed.
    fn charge(&mut self, node: &NodeId, now_unix: i64) -> (allowed: bool)
        ensures
            allowed == old(self)@.limiter.allows(node@, now_unix),
            final(self)@ == old(self)@.charged(node@, now_unix),
            final(self).same_setup(*old(self)),
    {
        self.config.rate_limiter.try_consume(node, now_unix)
    }

    /// Count a session that starts.
    fn enter(&mut self)
        ensures
            final(self)@ == old(self)@.entered(),
            final(self).same_setup(*old(self)),
    {
        self.active_sessions = self.active_sessions.wrapping_add(1);
    }

    /// Count a session that finishes.
    fn leave(&mut self)
        ensures
            final(self)@ == old(self)@.left(),
            final(self).same_setup(*old(self)),
    {
        self.active_sessions = self.active_sessions.wrapping_sub(1);
    }
}

/// Law: a session that enters and leaves is counted in between and not after:
/// entering counts one more, leaving undoes it, and neither touches anything
/// else.
pub proof fn law_sessions_enter_and_leave(state: RelayState)
    ensures
        state.active_sessions < u64::MAX ==> state.entered().active_sessions
            == state.active_sessions + 1,
        state.active_sessions > 0 ==> state.left().active_sessions == state.active_sessions - 1,
        state.entered().left() == state,
        state.left().entered() == state,
        state.entered().trust == state.trust && state.entered().limiter == state.limiter,
        state.left().trust == state.trust && state.left().limiter == state.limiter,
{
}

/// Law: a trusted node gets the budget that the trust store grants it, 100
/// requests a minute if that is zero, and keeps what it has earned; a node that
/// is not trusted is left alone, and so is every other.
pub proof fn law_trust_store_sets_the_budget(
    state: RelayState,
    node: Seq<char>,
    other: Seq<char>,
    now: i64,
)
    requires
        other != node,
    ensures
        ({
            let after = state.synced(node, now);
            let granted = state.trust[node].rate_limit_per_min;
            &&& after.trust == state.trust
            &&& after.active_sessions == state.active_sessions
            &&& !state.trust.contains_key(node) ==> after == state
            &&& state.trust.contains_key(node) ==> {
                let budget: u32 = if granted == 0 {
                    100
                } else {
                    granted
                };
                let bucket = after.limiter.buckets[node];
                &&& after.limiter.buckets.contains_key(node)
                &&& bucket.capacity == budget
                &&& bucket.refill_per_sec == budget
                &&& state.limiter.buckets.contains_key(node) ==> bucket
                    == state.limiter.buckets[node].retuned(budget, now)
                &&& !state.limiter.buckets.contains_key(node) ==> bucket.tokens == budget
                    * 60_000_000_000 && bucket.last_refill_unix == now
            }
            &&& after.limiter.buckets.contains_key(other)
                == state.limiter.buckets.contains_key(other)
            &&& state.limiter.buckets.contains_key(other) ==> after.limiter.buckets[other]
                == state.limiter.buckets[other]
        }),
{
}

/// Law: charging a request is the limiter's business alone.
pub proof fn law_charges_go_to_the_limiter(state: RelayState, node: Seq<char>, now: i64)
    ensures
        state.charged(node, now).limiter == state.limiter.charged(node, now),
        state.charged(node, now).trust == state.trust,
        state.charged(node, now).active_sessions == state.active_sessions,
{
}

/// Law: two relays of the same setup have the same address, trust store, key
/// and idle timeout.
pub proof fn law_same_setup_is_the_same(a: Relay, b: Relay)
    ensures
        a.same_setup(b) ==> {
            &&& a.current_config().listen_addr == b.current_config().listen_addr
            &&& a.current_config().trust == b.current_config().trust
            &&& a.current_config().signing_key == b.current_config().signing_key
            &&& a.current_config().idle_timeout_ms == b.current_config().idle_timeout_ms
        },
{
}

/// Law: the content of a log is every part of it.
pub proof fn law_logs_show_their_content(log: ConnectionLog)
    ensures
        log@.src_node == log.src_node.0@,
        log@.dst_node is None <==> log.dst_node is None,
        log.dst_node matches Some(node) ==> log@.dst_node == Some(node.0@),
        log@.bytes_in == log.bytes_in,
        log@.bytes_out == log.bytes_out,
        log@.started_at_unix == log.started_at_unix,
        log@.duration_ms == log.duration_ms,
        match log.outcome {
            ConnectionOutcome::Closed => log@.outcome is Closed,
            ConnectionOutcome::RateLimited => log@.outcome is RateLimited,
            ConnectionOutcome::TrustRejected => log@.outcome is TrustRejected,
            ConnectionOutcome::Error(text) => log@.outcome == ConnectionOutcomeView::Error(text@),
        },
{
}

} // verus!
