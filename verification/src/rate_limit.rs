//! Token-bucket rate limiter.
//!
//! Each node owns an independent [`TokenBucket`] that refills at
//! `capacity / 60 s`. A [`RateLimiter`] keeps one bucket per node, created
//! full on first use, and counts what it decided.
//!
//! All arithmetic is exact. Time is a count of nanoseconds since the Unix
//! epoch that the caller supplies, and a bucket's level is counted in parts of
//! a token so small ([`PARTS_PER_TOKEN`] to the token) that one nanosecond at
//! one request per minute accrues exactly one part.

use vstd::hash_map::StringHashMap;
use vstd::prelude::*;

use crate::counter::bumped;
use crate::node::NodeId;

verus! {

/// Default per-node rate when the trust store has no override (req/min).
pub const DEFAULT_RATE_PER_MIN: u32 = 100;

/// Parts that make up one token: the nanoseconds of a minute.
pub const PARTS_PER_TOKEN: u128 = 60_000_000_000;

/// One token bucket sized in requests per minute.
#[derive(Debug, Clone, Copy, PartialEq, Eq, Structural)]
pub struct TokenBucket {
    /// Current level, in parts ([`PARTS_PER_TOKEN`] to the token).
    pub tokens: u128,
    /// When the bucket was last refilled, in nanoseconds since the Unix epoch.
    pub last_refill_unix: i64,
    /// Most the bucket can hold, in tokens.
    pub capacity: u32,
    /// Refill rate, in sixtieths of a token per second.
    pub refill_per_sec: u32,
}

impl TokenBucket {
    /// What the bucket can hold, in parts.
    pub open spec fn capacity_parts(self) -> int {
        self.capacity * PARTS_PER_TOKEN
    }

    /// A bucket as the limiter keeps them: no fuller than its capacity, and
    /// refilling that capacity once a minute.
    pub open spec fn wf(self) -> bool {
        &&& self.tokens <= self.capacity_parts()
        &&& self.refill_per_sec == self.capacity
    }

    /// A full bucket of `per_min` tokens anchored at `now`.
    pub open spec fn filled(per_min: u32, now: i64) -> TokenBucket {
        TokenBucket {
            tokens: (per_min * PARTS_PER_TOKEN) as u128,
            last_refill_unix: now,
            capacity: per_min,
            refill_per_sec: per_min,
        }
    }

    /// The bucket once the time up to `now` has been credited.
    pub open spec fn refilled(self, now: i64) -> TokenBucket {
        if now <= self.last_refill_unix {
            self
        } else {
            let credited = self.tokens + (now - self.last_refill_unix) * self.refill_per_sec;
            TokenBucket {
                tokens: (if credited <= self.capacity_parts() {
                    credited
                } else {
                    self.capacity_parts()
                }) as u128,
                last_refill_unix: now,
                ..self
            }
        }
    }

    /// Whether the bucket has a whole token to give at `now`.
    pub open spec fn allows(self, now: i64) -> bool {
        self.refilled(now).tokens >= PARTS_PER_TOKEN
    }

    /// The bucket after one request at `now`, granted or not.
    pub open spec fn charged(self, now: i64) -> TokenBucket {
        let refilled = self.refilled(now);
        if self.allows(now) {
            TokenBucket { tokens: (refilled.tokens - PARTS_PER_TOKEN) as u128, ..refilled }
        } else {
            refilled
        }
    }

    /// The bucket refilled at `now` and then resized to `per_min`, keeping as
    /// much of its level as still fits.
    pub open spec fn retuned(self, per_min: u32, now: i64) -> TokenBucket {
        let level = self.refilled(now).tokens;
        TokenBucket {
            tokens: (if level <= per_min * PARTS_PER_TOKEN {
                level as int
            } else {
                per_min * PARTS_PER_TOKEN
            }) as u128,
            last_refill_unix: self.refilled(now).last_refill_unix,
            capacity: per_min,
            refill_per_sec: per_min,
        }
    }

    /// Construct a bucket sized to `per_min`, fully refilled, anchored at
    /// `now_unix`.
    pub fn full(per_min: u32, now_unix: i64) -> (bucket: Self)
        ensures
            bucket == Self::filled(per_min, now_unix),
            bucket.tokens == per_min * PARTS_PER_TOKEN,
            bucket.wf(),
    {
        TokenBucket {
            tokens: per_min as u128 * PARTS_PER_TOKEN,
            last_refill_unix: now_unix,
            capacity: per_min,
            refill_per_sec: per_min,
        }
    }

    /// Refill based on the time since `last_refill_unix`, capped at the
    /// capacity. Returns the new level, in parts.
    pub fn refill(&mut self, now_unix: i64) -> (level: u128)
        ensures
            *final(self) == old(self).refilled(now_unix),
            level == final(self).tokens,
    {
        if now_unix <= self.last_refill_unix {
            return self.tokens;
        }
        let elapsed: u128 = (now_unix as i128 - self.last_refill_unix as i128) as u128;
        assert(elapsed * self.refill_per_sec <= 0xffff_ffff_ffff_ffff * 0xffff_ffff) by (nonlinear_arith)
            requires
                0 <= elapsed <= 0xffff_ffff_ffff_ffff,
                0 <= self.refill_per_sec <= 0xffff_ffff,
        ;
        let earned: u128 = elapsed * self.refill_per_sec as u128;
        let limit: u128 = self.capacity as u128 * PARTS_PER_TOKEN;
        let credited: u128 = self.tokens.saturating_add(earned);
        self.tokens = if credited <= limit { credited } else { limit };
        self.last_refill_unix = now_unix;
        self.tokens
    }

    /// Try to consume one token at `now_unix`. Returns `true` if allowed.
    pub fn try_consume(&mut self, now_unix: i64) -> (allowed: bool)
        ensures
            allowed == old(self).allows(now_unix),
            *final(self) == old(self).charged(now_unix),
    {
        let level: u128 = self.refill(now_unix);
        if level >= PARTS_PER_TOKEN {
            self.tokens = level - PARTS_PER_TOKEN;
            true
        } else {
            false
        }
    }

    /// Update the bucket's capacity and refill rate to a new per-minute
    /// target, preserving the current level (clamped if the capacity shrinks).
    pub fn retune(&mut self, per_min: u32, now_unix: i64)
        ensures
            *final(self) == old(self).retuned(per_min, now_unix),
    {
        let level: u128 = self.refill(now_unix);
        let limit: u128 = per_min as u128 * PARTS_PER_TOKEN;
        self.capacity = per_min;
        self.refill_per_sec = per_min;
        self.tokens = if level <= limit { level } else { limit };
    }
}

/// Snapshot of [`RateLimiter`] traffic counters.
///
/// Operators diff two consecutive snapshots to derive per-window throughput.
/// The counters wrap around at the end of their range.
#[derive(Debug, Clone, Copy, PartialEq, Eq, Structural)]
pub struct RateLimiterMetrics {
    pub total_try_consume_calls: u64,
    pub total_allowed: u64,
    pub total_denied: u64,
    pub total_set_limit_calls: u64,
    pub tracked_nodes: usize,
}

impl Default for RateLimiterMetrics {
    fn default() -> (metrics: Self)
        ensures
            metrics == (RateLimiterMetrics {
                total_try_consume_calls: 0,
                total_allowed: 0,
                total_denied: 0,
                total_set_limit_calls: 0,
                tracked_nodes: 0,
            }),
    {
        RateLimiterMetrics {
            total_try_consume_calls: 0,
            total_allowed: 0,
            total_denied: 0,
            total_set_limit_calls: 0,
            tracked_nodes: 0,
        }
    }
}

/// What a [`RateLimiter`] knows: the bucket of every tracked node, by the
/// node's id, the budget of nodes it has not seen, and its counters.
#[verifier::ext_equal]
pub struct RateLimiterState {
    pub buckets: Map<Seq<char>, TokenBucket>,
    pub default_per_min: u32,
    pub total_try_consume_calls: u64,
    pub total_allowed: u64,
    pub total_denied: u64,
    pub total_set_limit_calls: u64,
}

/// The per-minute budget that a request for `per_min` comes to: zero stands
/// for the default, so that no budget can be zero.
pub open spec fn effective_rate(per_min: u32) -> u32 {
    if per_min == 0 {
        DEFAULT_RATE_PER_MIN
    } else {
        per_min
    }
}

impl RateLimiterState {
    /// The state of a limiter that has seen nobody.
    pub open spec fn initial(default_per_min: u32) -> RateLimiterState {
        RateLimiterState {
            buckets: Map::empty(),
            default_per_min: effective_rate(default_per_min),
            total_try_consume_calls: 0,
            total_allowed: 0,
            total_denied: 0,
            total_set_limit_calls: 0,
        }
    }

    /// The bucket that `node` has at `now`: its own, or a full one of
    /// `per_min` tokens if it has none yet.
    pub open spec fn bucket_of(self, node: Seq<char>, per_min: u32, now: i64) -> TokenBucket {
        if self.buckets.contains_key(node) {
            self.buckets[node]
        } else {
            TokenBucket::filled(per_min, now)
        }
    }

    /// Whether a request of `node` at `now` is let through.
    pub open spec fn allows(self, node: Seq<char>, now: i64) -> bool {
        self.bucket_of(node, self.default_per_min, now).allows(now)
    }

    /// The state after one request of `node` at `now`.
    pub open spec fn charged(self, node: Seq<char>, now: i64) -> RateLimiterState {
        let bucket = self.bucket_of(node, self.default_per_min, now);
        RateLimiterState {
            buckets: self.buckets.insert(node, bucket.charged(now)),
            total_try_consume_calls: bumped(self.total_try_consume_calls),
            total_allowed: if self.allows(node, now) {
                bumped(self.total_allowed)
            } else {
                self.total_allowed
            },
            total_denied: if self.allows(node, now) {
                self.total_denied
            } else {
                bumped(self.total_denied)
            },
            ..self
        }
    }

    /// The state after the budget of `node` is set to `per_min` at `now`.
    pub open spec fn limited(self, node: Seq<char>, per_min: u32, now: i64) -> RateLimiterState {
        let effective = effective_rate(per_min);
        let bucket = self.bucket_of(node, effective, now);
        RateLimiterState {
            buckets: self.buckets.insert(node, bucket.retuned(effective, now)),
            total_set_limit_calls: bumped(self.total_set_limit_calls),
            ..self
        }
    }

    /// What every reachable state satisfies: finitely many nodes are tracked,
    /// each bucket is well formed and has a budget, as has the default, and the
    /// counters of decisions add up (in the wrapping arithmetic of the
    /// counters).
    pub open spec fn wf(self) -> bool {
        &&& self.buckets.dom().finite()
        &&& self.default_per_min > 0
        &&& forall|node: Seq<char>| #[trigger]
            self.buckets.contains_key(node) ==> self.buckets[node].wf()
                && self.buckets[node].capacity > 0
        &&& {
            ||| self.total_try_consume_calls == self.total_allowed + self.total_denied
            ||| self.total_try_consume_calls + 0x1_0000_0000_0000_0000 == self.total_allowed
                + self.total_denied
        }
    }
}

/// Per-node rate limiter.
pub struct RateLimiter {
    inner: StringHashMap<TokenBucket>,
    default_per_min: u32,
    total_try_consume_calls: u64,
    total_allowed: u64,
    total_denied: u64,
    total_set_limit_calls: u64,
}

impl View for RateLimiter {
    type V = RateLimiterState;

    closed spec fn view(&self) -> RateLimiterState {
        RateLimiterState {
            buckets: self.inner@,
            default_per_min: self.default_per_min,
            total_try_consume_calls: self.total_try_consume_calls,
            total_allowed: self.total_allowed,
            total_denied: self.total_denied,
            total_set_limit_calls: self.total_set_limit_calls,
        }
    }
}

impl RateLimiter {
    #[verifier::type_invariant]
    spec fn type_wf(self) -> bool {
        self@.wf()
    }

    /// Construct a limiter with the given default per-minute budget.
    /// `default_per_min == 0` is clamped to [`DEFAULT_RATE_PER_MIN`].
    pub fn new(default_per_min: u32) -> (limiter: Self)
        ensures
            limiter@ == RateLimiterState::initial(default_per_min),
            limiter@.wf(),
    {
        let default: u32 = if default_per_min == 0 {
            DEFAULT_RATE_PER_MIN
        } else {
            default_per_min
        };
        RateLimiter {
            inner: StringHashMap::new(),
            default_per_min: default,
            total_try_consume_calls: 0,
            total_allowed: 0,
            total_denied: 0,
            total_set_limit_calls: 0,
        }
    }

    /// Default per-minute budget for new nodes.
    pub fn default_per_min(&self) -> (per_min: u32)
        ensures
            per_min == self@.default_per_min,
    {
        self.default_per_min
    }

    /// Number of tracked nodes.
    pub fn tracked_nodes(&self) -> (count: usize)
        ensures
            count == self@.buckets.len(),
            self@.wf(),
    {
        proof {
            use_type_invariant(self);
        }
        self.inner.len()
    }

    /// The bucket of `node_id`, or a full one of `per_min` tokens if the node
    /// is not tracked yet.
    fn bucket_or_full(&self, node_id: &NodeId, per_min: u32, now_unix: i64) -> (bucket: TokenBucket)
        ensures
            bucket == self@.bucket_of(node_id@, per_min, now_unix),
    {
        match self.inner.get(node_id.0.as_str()) {
            Some(bucket) => *bucket,
            None => TokenBucket::full(per_min, now_unix),
        }
    }

    /// Try to consume one token for `node_id` at `now_unix`. The bucket is
    /// lazily initialized on first call.
    pub fn try_consume(&mut self, node_id: &NodeId, now_unix: i64) -> (allowed: bool)
        ensures
            allowed == old(self)@.allows(node_id@, now_unix),
            final(self)@ == old(self)@.charged(node_id@, now_unix),
            final(self)@.wf(),
            final(self)@.buckets.len() == old(self)@.buckets.len() + if old(
                self,
            )@.buckets.contains_key(node_id@) {
                0nat
            } else {
                1nat
            },
    {
        proof {
            use_type_invariant(&*self);
            law_limiter_stays_well_formed(self@, node_id@, 0, now_unix);
        }
        let mut bucket = self.bucket_or_full(node_id, self.default_per_min, now_unix);
        let allowed = bucket.try_consume(now_unix);
        let mut inner: StringHashMap<TokenBucket> = StringHashMap::new();
        std::mem::swap(&mut inner, &mut self.inner);
        inner.insert(node_id.0.clone(), bucket);
        *self =
        RateLimiter {
            inner,
            default_per_min: self.default_per_min,
            total_try_consume_calls: self.total_try_consume_calls.wrapping_add(1),
            total_allowed: if allowed {
                self.total_allowed.wrapping_add(1)
            } else {
                self.total_allowed
            },
            total_denied: if allowed {
                self.total_denied
            } else {
                self.total_denied.wrapping_add(1)
            },
            total_set_limit_calls: self.total_set_limit_calls,
        };
        allowed
    }

    /// Override the per-minute budget for a single node.
    ///
    /// `per_min == 0` is clamped to [`DEFAULT_RATE_PER_MIN`] so a misconfigured
    /// trust entry cannot silently disable rate limiting for an issuer. A node
    /// that is not tracked yet starts with a full bucket of the new size; the
    /// level of an existing bucket is preserved as far as it fits.
    pub fn set_limit(&mut self, node_id: &NodeId, per_min: u32, now_unix: i64)
        ensures
            final(self)@ == old(self)@.limited(node_id@, per_min, now_unix),
            final(self)@.wf(),
            final(self)@.buckets.len() == old(self)@.buckets.len() + if old(
                self,
            )@.buckets.contains_key(node_id@) {
                0nat
            } else {
                1nat
            },
    {
        proof {
            use_type_invariant(&*self);
            law_limiter_stays_well_formed(self@, node_id@, per_min, now_unix);
        }
        let effective: u32 = if per_min == 0 {
            DEFAULT_RATE_PER_MIN
        } else {
            per_min
        };
        let mut bucket = self.bucket_or_full(node_id, effective, now_unix);
        bucket.retune(effective, now_unix);
        let mut inner: StringHashMap<TokenBucket> = StringHashMap::new();
        std::mem::swap(&mut inner, &mut self.inner);
        inner.insert(node_id.0.clone(), bucket);
        *self =
        RateLimiter {
            inner,
            default_per_min: self.default_per_min,
            total_try_consume_calls: self.total_try_consume_calls,
            total_allowed: self.total_allowed,
            total_denied: self.total_denied,
            total_set_limit_calls: self.total_set_limit_calls.wrapping_add(1),
        };
    }

    /// Read-only snapshot of a node's bucket (returns `None` if untracked).
    pub fn snapshot(&self, node_id: &NodeId) -> (bucket: Option<TokenBucket>)
        ensures
            bucket == (if self@.buckets.contains_key(node_id@) {
                Some(self@.buckets[node_id@])
            } else {
                None
            }),
    {
        match self.inner.get(node_id.0.as_str()) {
            Some(bucket) => Some(*bucket),
            None => None,
        }
    }

    /// Snapshot of traffic counters and current node count.
    pub fn metrics(&self) -> (metrics: RateLimiterMetrics)
        ensures
            metrics.total_try_consume_calls == self@.total_try_consume_calls,
            metrics.total_allowed == self@.total_allowed,
            metrics.total_denied == self@.total_denied,
            metrics.total_set_limit_calls == self@.total_set_limit_calls,
            metrics.tracked_nodes == self@.buckets.len(),
            self@.wf(),
    {
        RateLimiterMetrics {
            total_try_consume_calls: self.total_try_consume_calls,
            total_allowed: self.total_allowed,
            total_denied: self.total_denied,
            total_set_limit_calls: self.total_set_limit_calls,
            tracked_nodes: self.tracked_nodes(),
        }
    }
}

/// The bucket after `count` requests, all at `now`.
pub open spec fn charged_times(bucket: TokenBucket, now: i64, count: nat) -> TokenBucket
    decreases count,
{
    if count == 0 {
        bucket
    } else {
        charged_times(bucket, now, (count - 1) as nat).charged(now)
    }
}

/// The bucket after one request at each of `times`, in that order.
pub open spec fn charged_at(bucket: TokenBucket, times: Seq<i64>) -> TokenBucket
    decreases times.len(),
{
    if times.len() == 0 {
        bucket
    } else {
        charged_at(bucket, times.drop_last()).charged(times.last())
    }
}

/// How many of the requests at `times` the bucket lets through.
pub open spec fn granted_at(bucket: TokenBucket, times: Seq<i64>) -> nat
    decreases times.len(),
{
    if times.len() == 0 {
        0
    } else {
        granted_at(bucket, times.drop_last()) + if charged_at(bucket, times.drop_last()).allows(
            times.last(),
        ) {
            1nat
        } else {
            0nat
        }
    }
}

/// Law: a bucket never holds more than its capacity and always refills that
/// capacity once a minute, whatever is done to it.
pub proof fn law_bucket_stays_well_formed(bucket: TokenBucket, per_min: u32, now: i64)
    requires
        bucket.wf(),
    ensures
        TokenBucket::filled(per_min, now).wf(),
        bucket.refilled(now).wf(),
        bucket.charged(now).wf(),
        bucket.retuned(per_min, now).wf(),
{
    if now >= bucket.last_refill_unix {
        lemma_credit_is_not_negative(bucket, now);
    }
}

/// Law: a full bucket lets exactly its capacity through at one instant. Every
/// request of a burst up to the capacity is granted and all later ones are
/// denied.
pub proof fn law_burst_is_the_capacity(per_min: u32, now: i64, earlier: nat)
    ensures
        charged_times(TokenBucket::filled(per_min, now), now, earlier).allows(now) <==> earlier
            < per_min,
{
    lemma_level_in_a_burst(per_min, now, earlier);
}

proof fn lemma_level_in_a_burst(per_min: u32, now: i64, earlier: nat)
    ensures
        ({
            let bucket = charged_times(TokenBucket::filled(per_min, now), now, earlier);
            &&& bucket.last_refill_unix == now
            &&& bucket.tokens == if earlier <= per_min {
                (per_min - earlier) * PARTS_PER_TOKEN
            } else {
                0
            }
        }),
    decreases earlier,
{
    if earlier > 0 {
        lemma_level_in_a_burst(per_min, now, (earlier - 1) as nat);
    }
}

proof fn lemma_credit_is_not_negative(bucket: TokenBucket, now: i64)
    requires
        now >= bucket.last_refill_unix,
    ensures
        (now - bucket.last_refill_unix) * bucket.refill_per_sec >= 0,
{
    vstd::arithmetic::mul::lemma_mul_nonnegative(
        now - bucket.last_refill_unix,
        bucket.refill_per_sec as int,
    );
}

/// Law: a quiet minute refills any bucket completely, so a burst up to the
/// capacity is allowed after it.
pub proof fn law_quiet_minute_refills(bucket: TokenBucket, now: i64)
    requires
        bucket.wf(),
        now - bucket.last_refill_unix >= PARTS_PER_TOKEN,
    ensures
        bucket.refilled(now) == TokenBucket::filled(bucket.capacity, now),
{
    vstd::arithmetic::mul::lemma_mul_inequality(
        PARTS_PER_TOKEN as int,
        now - bucket.last_refill_unix,
        bucket.capacity as int,
    );
    assert(PARTS_PER_TOKEN * bucket.capacity == bucket.capacity * PARTS_PER_TOKEN)
        by (nonlinear_arith);
}

/// Law: what a bucket accrues depends on the elapsed time alone, not on how
/// often it was looked at: crediting time up to `mid` and then up to `now` is
/// the same as crediting it at once.
pub proof fn law_refill_does_not_drift(bucket: TokenBucket, mid: i64, now: i64)
    requires
        bucket.wf(),
        mid <= now,
    ensures
        bucket.refilled(mid).refilled(now) == bucket.refilled(now),
{
    if bucket.last_refill_unix < mid < now {
        let rate = bucket.refill_per_sec as int;
        let first = mid - bucket.last_refill_unix;
        let second = now - mid;
        assert((first + second) * rate == first * rate + second * rate) by (nonlinear_arith);
        lemma_credit_is_not_negative(bucket, mid);
        lemma_credit_is_not_negative(bucket.refilled(mid), now);
    }
}

/// Law: however requests are timed, what a bucket grants is paid for by its
/// starting level and by the time credited since.
pub proof fn law_grants_are_paid_for(bucket: TokenBucket, times: Seq<i64>)
    ensures
        ({
            let after = charged_at(bucket, times);
            &&& after.last_refill_unix >= bucket.last_refill_unix
            &&& granted_at(bucket, times) * PARTS_PER_TOKEN + after.tokens <= bucket.tokens + (
            after.last_refill_unix - bucket.last_refill_unix) * bucket.refill_per_sec
        }),
{
    lemma_grants_are_paid_for(bucket, times);
}

proof fn lemma_grants_are_paid_for(bucket: TokenBucket, times: Seq<i64>)
    ensures
        ({
            let after = charged_at(bucket, times);
            &&& after.last_refill_unix >= bucket.last_refill_unix
            &&& after.refill_per_sec == bucket.refill_per_sec
            &&& after.capacity == bucket.capacity
            &&& granted_at(bucket, times) * PARTS_PER_TOKEN + after.tokens <= bucket.tokens + (
            after.last_refill_unix - bucket.last_refill_unix) * bucket.refill_per_sec
        }),
    decreases times.len(),
{
    if times.len() > 0 {
        lemma_grants_are_paid_for(bucket, times.drop_last());
        let before = charged_at(bucket, times.drop_last());
        let now = times.last();
        if now > before.last_refill_unix {
            lemma_credit_is_not_negative(before, now);
            let rate = bucket.refill_per_sec as int;
            let first = before.last_refill_unix - bucket.last_refill_unix;
            let second = now - before.last_refill_unix;
            assert((first + second) * rate == first * rate + second * rate) by (nonlinear_arith);
        }
    }
}

/// Law: between `bucket.last_refill_unix` and `end` a well-formed bucket lets
/// through no more than its capacity plus what accrues in that time.
pub proof fn law_throughput_is_bounded(bucket: TokenBucket, times: Seq<i64>, end: i64)
    requires
        bucket.wf(),
        bucket.last_refill_unix <= end,
        forall|i: int| 0 <= i < times.len() ==> #[trigger] times[i] <= end,
    ensures
        granted_at(bucket, times) * PARTS_PER_TOKEN <= bucket.capacity * (PARTS_PER_TOKEN + (end
            - bucket.last_refill_unix)),
{
    lemma_grants_are_paid_for(bucket, times);
    lemma_last_refill_before(bucket, times, end);
    let after = charged_at(bucket, times);
    let rate = bucket.capacity as int;
    let spent = after.last_refill_unix - bucket.last_refill_unix;
    let whole = end - bucket.last_refill_unix;
    assert(spent * rate <= whole * rate) by (nonlinear_arith)
        requires
            spent <= whole,
            rate >= 0,
    ;
    assert(rate * (PARTS_PER_TOKEN + whole) == rate * PARTS_PER_TOKEN + whole * rate)
        by (nonlinear_arith);
}

proof fn lemma_last_refill_before(bucket: TokenBucket, times: Seq<i64>, end: i64)
    requires
        bucket.last_refill_unix <= end,
        forall|i: int| 0 <= i < times.len() ==> #[trigger] times[i] <= end,
    ensures
        charged_at(bucket, times).last_refill_unix <= end,
    decreases times.len(),
{
    if times.len() > 0 {
        lemma_last_refill_before(bucket, times.drop_last(), end);
    }
}

/// Law: a new limiter is well formed and stays so, in particular no node ever
/// has a budget of zero, and every request counted was either allowed or
/// denied.
pub proof fn law_limiter_stays_well_formed(
    state: RateLimiterState,
    node: Seq<char>,
    per_min: u32,
    now: i64,
)
    requires
        state.wf(),
    ensures
        RateLimiterState::initial(per_min).wf(),
        state.charged(node, now).wf(),
        state.limited(node, per_min, now).wf(),
{
    let bucket = state.bucket_of(node, state.default_per_min, now);
    law_bucket_stays_well_formed(bucket, per_min, now);
    let resized = state.bucket_of(node, effective_rate(per_min), now);
    law_bucket_stays_well_formed(resized, effective_rate(per_min), now);
}

/// Law: buckets are isolated per node. What one node does or is granted leaves
/// every other node's bucket, and what it would be granted next, as it was.
pub proof fn law_nodes_are_isolated(
    state: RateLimiterState,
    node: Seq<char>,
    other: Seq<char>,
    per_min: u32,
    now: i64,
    later: i64,
)
    requires
        node != other,
    ensures
        state.charged(node, now).buckets.contains_key(other) == state.buckets.contains_key(other),
        state.limited(node, per_min, now).buckets.contains_key(other)
            == state.buckets.contains_key(other),
        state.buckets.contains_key(other) ==> state.charged(node, now).buckets[other]
            == state.buckets[other] && state.limited(node, per_min, now).buckets[other]
            == state.buckets[other],
        state.charged(node, now).allows(other, later) == state.allows(other, later),
        state.limited(node, per_min, now).allows(other, later) == state.allows(other, later),
{
}

/// Law: a new budget takes effect at once. The node's bucket has exactly that
/// capacity and rate; a node that was not tracked starts with it full; and
/// asking for zero is asking for [`DEFAULT_RATE_PER_MIN`].
pub proof fn law_set_limit_takes_effect(
    state: RateLimiterState,
    node: Seq<char>,
    per_min: u32,
    now: i64,
)
    ensures
        ({
            let bucket = state.limited(node, per_min, now).buckets[node];
            &&& state.limited(node, per_min, now).buckets.contains_key(node)
            &&& bucket.capacity == effective_rate(per_min)
            &&& bucket.refill_per_sec == effective_rate(per_min)
            &&& bucket.tokens <= effective_rate(per_min) * PARTS_PER_TOKEN
            &&& !state.buckets.contains_key(node) ==> bucket == TokenBucket::filled(
                effective_rate(per_min),
                now,
            )
        }),
        state.limited(node, 0, now) == state.limited(node, DEFAULT_RATE_PER_MIN, now),
{
}

/// Law: a request or a new budget makes its node tracked, and no other, so the
/// number of tracked nodes grows by one for a new node and not at all for one
/// that was tracked.
pub proof fn law_tracking(state: RateLimiterState, node: Seq<char>, per_min: u32, now: i64)
    requires
        state.buckets.dom().finite(),
    ensures
        state.charged(node, now).buckets.dom() == state.buckets.dom().insert(node),
        state.limited(node, per_min, now).buckets.dom() == state.buckets.dom().insert(node),
        ({
            let count = state.buckets.len() + if state.buckets.contains_key(node) {
                0nat
            } else {
                1nat
            };
            &&& state.charged(node, now).buckets.len() == count
            &&& state.limited(node, per_min, now).buckets.len() == count
        }),
{
}

/// Law: time is credited to the nanosecond. A bucket gains `refill_per_sec`
/// parts for each nanosecond since it was last refilled, up to its capacity of
/// 60 000 000 000 parts to the token, and nothing when the clock did not
/// advance; its size and rate stay as they are.
pub proof fn law_refill_credits_elapsed_time(bucket: TokenBucket, now: i64)
    ensures
        ({
            let after = bucket.refilled(now);
            let earned = bucket.tokens + (now - bucket.last_refill_unix) * bucket.refill_per_sec;
            let limit = bucket.capacity * 60_000_000_000;
            &&& after.capacity == bucket.capacity
            &&& after.refill_per_sec == bucket.refill_per_sec
            &&& now <= bucket.last_refill_unix ==> after.tokens == bucket.tokens
                && after.last_refill_unix == bucket.last_refill_unix
            &&& now > bucket.last_refill_unix ==> {
                &&& after.last_refill_unix == now
                &&& after.tokens <= earned
                &&& after.tokens <= limit
                &&& after.tokens == earned || after.tokens == limit
            }
        }),
{
    if now >= bucket.last_refill_unix {
        lemma_credit_is_not_negative(bucket, now);
    }
}

/// Law: a request costs a token. It is granted exactly if the bucket, with the
/// time up to now credited, holds one, however long it was left alone; a
/// granted request takes that token and a denied one takes nothing.
pub proof fn law_request_costs_a_token(bucket: TokenBucket, now: i64)
    ensures
        ({
            let credited = bucket.refilled(now);
            let after = bucket.charged(now);
            &&& bucket.allows(now) <==> credited.tokens >= 60_000_000_000
            &&& bucket.allows(now) ==> after.tokens + 60_000_000_000 == credited.tokens
            &&& !bucket.allows(now) ==> after.tokens == credited.tokens
            &&& after.last_refill_unix == credited.last_refill_unix
            &&& after.capacity == bucket.capacity
            &&& after.refill_per_sec == bucket.refill_per_sec
        }),
{
}

/// Law: bursts up to the capacity are allowed after a quiet period. Once a
/// bucket was left alone for a minute or longer, whatever its level, the next
/// `capacity` requests at one instant are granted and no more.
pub proof fn law_burst_after_quiet_minute(bucket: TokenBucket, now: i64, earlier: nat)
    requires
        bucket.wf(),
        now - bucket.last_refill_unix >= 60_000_000_000,
    ensures
        charged_times(bucket, now, earlier).allows(now) <==> earlier < bucket.capacity,
{
    law_quiet_minute_refills(bucket, now);
    law_burst_is_the_capacity(bucket.capacity, now, earlier);
    lemma_burst_starts_refilled(bucket, now, earlier);
}

proof fn lemma_burst_starts_refilled(bucket: TokenBucket, now: i64, count: nat)
    requires
        bucket.refilled(now) == TokenBucket::filled(bucket.capacity, now),
    ensures
        count > 0 ==> charged_times(bucket, now, count) == charged_times(
            TokenBucket::filled(bucket.capacity, now),
            now,
            count,
        ),
    decreases count,
{
    if count > 0 {
        lemma_burst_starts_refilled(bucket, now, (count - 1) as nat);
        reveal_with_fuel(charged_times, 2);
    }
}

/// Law: a new bucket is full: `per_min` tokens, refilled at its making, and
/// refilling that many a minute.
pub proof fn law_new_bucket_is_full(per_min: u32, now: i64)
    ensures
        TokenBucket::filled(per_min, now).tokens == per_min * 60_000_000_000,
        TokenBucket::filled(per_min, now).last_refill_unix == now,
        TokenBucket::filled(per_min, now).capacity == per_min,
        TokenBucket::filled(per_min, now).refill_per_sec == per_min,
{
}

/// Law: a new budget keeps what was earned. Resizing first credits the time up
/// to now and then keeps of that level what fits the new size. So giving a
/// bucket the size it has is refilling it, and one resized to and fro loses
/// nothing unless it was made smaller than its level.
pub proof fn law_retune_keeps_what_was_earned(bucket: TokenBucket, per_min: u32, now: i64)
    ensures
        ({
            let credited = bucket.refilled(now);
            let after = bucket.retuned(per_min, now);
            &&& after.capacity == per_min
            &&& after.refill_per_sec == per_min
            &&& after.last_refill_unix == credited.last_refill_unix
            &&& after.tokens <= credited.tokens
            &&& after.tokens <= per_min * 60_000_000_000
            &&& after.tokens == credited.tokens || after.tokens == per_min * 60_000_000_000
            &&& credited.tokens <= per_min * 60_000_000_000 && credited.wf() ==> after.retuned(
                bucket.capacity,
                now,
            ) == credited
        }),
        bucket.wf() ==> bucket.retuned(bucket.capacity, now) == bucket.refilled(now),
{
    law_refill_credits_elapsed_time(bucket, now);
}

/// Law: a new limiter tracks nobody, and grants a node that it has not seen
/// the given number of requests a minute, or 100 if that is zero.
pub proof fn law_new_limiter(default_per_min: u32, node: Seq<char>)
    ensures
        ({
            let state = RateLimiterState::initial(default_per_min);
            &&& !state.buckets.contains_key(node)
            &&& state.default_per_min == if default_per_min == 0 {
                100
            } else {
                default_per_min
            }
            &&& state.total_try_consume_calls == 0
            &&& state.total_allowed == 0
            &&& state.total_denied == 0
            &&& state.total_set_limit_calls == 0
        }),
{
}

/// Law: a request is decided by its node's own bucket, which is the one left
/// by the node's last request, or for the first a full one of the default
/// size. It is counted once, as allowed or as denied.
pub proof fn law_requests_are_decided_by_the_node(state: RateLimiterState, node: Seq<char>, now: i64)
    ensures
        ({
            let after = state.charged(node, now);
            &&& after.buckets.contains_key(node)
            &&& state.buckets.contains_key(node) ==> state.allows(node, now)
                == state.buckets[node].allows(now) && after.buckets[node]
                == state.buckets[node].charged(now)
            &&& !state.buckets.contains_key(node) ==> {
                &&& state.allows(node, now) <==> state.default_per_min > 0
                &&& after.buckets[node].capacity == state.default_per_min
                &&& after.buckets[node].refill_per_sec == state.default_per_min
                &&& after.buckets[node].last_refill_unix == now
                &&& state.default_per_min > 0 ==> after.buckets[node].tokens == (
                state.default_per_min - 1) * 60_000_000_000
            }
            &&& after.default_per_min == state.default_per_min
            &&& after.total_set_limit_calls == state.total_set_limit_calls
            &&& after.total_try_consume_calls == bumped(state.total_try_consume_calls)
            &&& state.allows(node, now) ==> after.total_allowed == bumped(state.total_allowed)
                && after.total_denied == state.total_denied
            &&& !state.allows(node, now) ==> after.total_denied == bumped(state.total_denied)
                && after.total_allowed == state.total_allowed
        }),
{
}

/// Law: a budget is set to what is asked for, or to 100 requests a minute for
/// zero. A node that has a bucket keeps what it earned in it; one that has none
/// gets a full one. The call is counted, and is no request.
pub proof fn law_budgets_are_as_asked(
    state: RateLimiterState,
    node: Seq<char>,
    per_min: u32,
    now: i64,
)
    ensures
        ({
            let asked: u32 = if per_min == 0 {
                100
            } else {
                per_min
            };
            let after = state.limited(node, per_min, now);
            let bucket = after.buckets[node];
            &&& after.buckets.contains_key(node)
            &&& bucket.capacity == asked
            &&& bucket.refill_per_sec == asked
            &&& state.buckets.contains_key(node) ==> bucket == state.buckets[node].retuned(
                asked,
                now,
            )
            &&& !state.buckets.contains_key(node) ==> bucket.tokens == asked * 60_000_000_000
                && bucket.last_refill_unix == now
            &&& after.default_per_min == state.default_per_min
            &&& after.total_try_consume_calls == state.total_try_consume_calls
            &&& after.total_allowed == state.total_allowed
            &&& after.total_denied == state.total_denied
            &&& after.total_set_limit_calls == bumped(state.total_set_limit_calls)
        }),
{
}

/// Law: a node that drained its bucket and stayed quiet for a minute is granted
/// requests again, also when its budget was set anew meanwhile.
pub proof fn law_quiet_minute_survives_set_limit(
    state: RateLimiterState,
    node: Seq<char>,
    per_min: u32,
    now: i64,
)
    requires
        state.wf(),
        state.buckets.contains_key(node) ==> now - state.buckets[node].last_refill_unix
            >= 60_000_000_000,
    ensures
        state.allows(node, now),
        state.limited(node, per_min, now).allows(node, now),
{
    if state.buckets.contains_key(node) {
        law_quiet_minute_refills(state.buckets[node], now);
    }
}

} // verus!
