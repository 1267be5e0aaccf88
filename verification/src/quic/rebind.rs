//! Path-rebind diagnostics for QUIC connections.
//!
//! QUIC connections can silently migrate paths, for example when a laptop
//! switches from Wi-Fi to 5G or when a NAT rebinding event occurs on the
//! carrier. The transport does not surface a typed "path changed" event, so an
//! observer polls connection statistics periodically and records each poll in
//! a [`RebindDiagnostics`].

use vstd::prelude::*;

use crate::counter::bumped;
use crate::net::IpAddress;

verus! {

/// Diagnostics for path-rebind observability. The counters wrap around at the
/// end of their range.
#[derive(Debug)]
pub struct RebindDiagnostics {
    /// Total polls performed.
    pub poll_count: u64,
    /// Number of detected path changes (local address changed between polls).
    pub rebind_count: u64,
    /// Total bytes received since observer start.
    pub rx_bytes: u64,
    /// Total bytes transmitted since observer start.
    pub tx_bytes: u64,
    /// Minimum RTT observed (in microseconds); `i64::MAX` before the first poll.
    pub rtt_min_us: i64,
    /// Maximum RTT observed (in microseconds); zero before the first poll.
    pub rtt_max_us: i64,
    /// What the observer itself has to remember.
    pub memory: ObserverMemory,
}

/// What an observer remembers from poll to poll.
#[derive(Debug)]
pub struct ObserverMemory {
    /// Hash of the local address last observed; zero if it is not known.
    last_local_addr_hash: u64,
    /// Whether an observer has claimed the diagnostics.
    started: bool,
}

impl ObserverMemory {
    /// The hash of the local address last observed.
    pub closed spec fn last_hash(&self) -> u64 {
        self.last_local_addr_hash
    }

    /// Whether an observer has claimed the diagnostics.
    pub closed spec fn claimed(&self) -> bool {
        self.started
    }
}

/// The content of [`RebindDiagnostics`].
#[verifier::ext_equal]
pub struct RebindState {
    pub poll_count: u64,
    pub rebind_count: u64,
    pub rx_bytes: u64,
    pub tx_bytes: u64,
    pub rtt_min_us: i64,
    pub rtt_max_us: i64,
    pub last_local_addr_hash: u64,
    pub started: bool,
}

impl View for RebindDiagnostics {
    type V = RebindState;

    open spec fn view(&self) -> RebindState {
        RebindState {
            poll_count: self.poll_count,
            rebind_count: self.rebind_count,
            rx_bytes: self.rx_bytes,
            tx_bytes: self.tx_bytes,
            rtt_min_us: self.rtt_min_us,
            rtt_max_us: self.rtt_max_us,
            last_local_addr_hash: self.memory.last_hash(),
            started: self.memory.claimed(),
        }
    }
}

/// What one poll found.
pub struct Poll {
    pub rx: u64,
    pub tx: u64,
    pub rtt_us: u32,
    pub local_addr_hash: u64,
}

impl RebindState {
    /// Diagnostics of which nothing has been recorded.
    pub open spec fn initial() -> RebindState {
        RebindState {
            poll_count: 0,
            rebind_count: 0,
            rx_bytes: 0,
            tx_bytes: 0,
            rtt_min_us: i64::MAX,
            rtt_max_us: 0,
            last_local_addr_hash: 0,
            started: false,
        }
    }

    /// Whether a poll that found this address is a path change: the address
    /// was known before and is another now.
    pub open spec fn is_rebind(self, local_addr_hash: u64) -> bool {
        self.last_local_addr_hash != 0 && local_addr_hash != self.last_local_addr_hash
    }

    /// The diagnostics after one more poll.
    pub open spec fn polled(self, poll: Poll) -> RebindState {
        RebindState {
            poll_count: bumped(self.poll_count),
            rebind_count: if self.is_rebind(poll.local_addr_hash) {
                bumped(self.rebind_count)
            } else {
                self.rebind_count
            },
            rx_bytes: poll.rx,
            tx_bytes: poll.tx,
            rtt_min_us: if poll.rtt_us < self.rtt_min_us {
                poll.rtt_us as i64
            } else {
                self.rtt_min_us
            },
            rtt_max_us: if poll.rtt_us > self.rtt_max_us {
                poll.rtt_us as i64
            } else {
                self.rtt_max_us
            },
            last_local_addr_hash: poll.local_addr_hash,
            started: self.started,
        }
    }
}

impl RebindDiagnostics {
    /// Construct new diagnostics with all counters at zero.
    pub fn new() -> (diagnostics: Self)
        ensures
            diagnostics@ == RebindState::initial(),
    {
        RebindDiagnostics {
            poll_count: 0,
            rebind_count: 0,
            rx_bytes: 0,
            tx_bytes: 0,
            rtt_min_us: i64::MAX,
            rtt_max_us: 0,
            memory: ObserverMemory { last_local_addr_hash: 0, started: false },
        }
    }

    /// Claims the diagnostics for an observer. Returns `true` if one had
    /// claimed them already.
    pub fn already_started(&mut self) -> (before: bool)
        ensures
            before == old(self)@.started,
            final(self)@ == (RebindState { started: true, ..old(self)@ }),
    {
        let before = self.memory.started;
        self.memory.started = true;
        before
    }

    /// Record a poll result.
    pub fn record_poll(&mut self, rx: u64, tx: u64, rtt_us: u32, local_addr_hash: u64)
        ensures
            final(self)@ == old(self)@.polled(Poll { rx, tx, rtt_us, local_addr_hash }),
    {
        self.poll_count = self.poll_count.wrapping_add(1);
        self.rx_bytes = rx;
        self.tx_bytes = tx;

        let rtt: i64 = rtt_us as i64;
        if rtt < self.rtt_min_us {
            self.rtt_min_us = rtt;
        }
        if rtt > self.rtt_max_us {
            self.rtt_max_us = rtt;
        }
        // Detect path change: local address hash changed between polls.
        if self.memory.last_local_addr_hash != 0 && local_addr_hash != self.memory.last_local_addr_hash {
            self.rebind_count = self.rebind_count.wrapping_add(1);
        }
        self.memory.last_local_addr_hash = local_addr_hash;
    }
}

impl Default for RebindDiagnostics {
    fn default() -> (diagnostics: Self)
        ensures
            diagnostics@ == RebindState::initial(),
    {
        Self::new()
    }
}

/// What of an address its hash tells apart: all of an IPv4 address, and of an
/// IPv6 address the first four segments.
pub open spec fn hashed_part(ip: IpAddress) -> nat {
    match ip {
        IpAddress::V4(bits) => bits as nat,
        IpAddress::V6(segments) => (segments@[0] * 0x1_0000_0000_0000 + segments@[1] * 0x1_0000_0000
            + segments@[2] * 0x1_0000 + segments@[3]) as nat,
    }
}

/// Multiplier that spreads the hashed part of an address.
pub const HASH_MULTIPLIER: u64 = 0x9e3779b9;

/// The hash of an address.
pub open spec fn address_hash(ip: IpAddress) -> u64 {
    (hashed_part(ip) * HASH_MULTIPLIER % 0x1_0000_0000_0000_0000) as u64
}

/// A low-cost hash of an IP address for change detection.
///
/// Good enough for detecting whether the local endpoint changed between polls,
/// not for any security or cryptographic purpose.
pub fn ip_hash(ip: &IpAddress) -> (hash: u64)
    ensures
        hash == address_hash(*ip),
{
    let part: u64 = match ip {
        IpAddress::V4(bits) => *bits as u64,
        IpAddress::V6(segments) => segments[0] as u64 * 0x1_0000_0000_0000 + segments[1] as u64
            * 0x1_0000_0000 + segments[2] as u64 * 0x1_0000 + segments[3] as u64,
    };
    part.wrapping_mul(HASH_MULTIPLIER)
}

/// What the observer of a connection is told.
pub enum ObserverEvent {
    /// Its polling interval elapsed, and these are the connection's statistics.
    Tick { rx: u64, tx: u64, rtt_us: u128, local_ip: Option<IpAddress> },
    /// It looked at the cancellation flag.
    CancelFlag(bool),
    /// The connection is gone.
    Closed,
}

/// What the observer does next.
#[derive(Debug, Clone, Copy, PartialEq, Eq, Structural)]
pub enum ObserverAction {
    /// Wait for the next event.
    Wait,
    /// Stop observing.
    Stop,
}

/// The poll that the statistics of a tick come to. Round-trip times are kept
/// modulo 2^32 microseconds; an unknown local address hashes to zero.
pub open spec fn poll_of(rx: u64, tx: u64, rtt_us: u128, local_ip: Option<IpAddress>) -> Poll {
    Poll {
        rx,
        tx,
        rtt_us: (rtt_us % 0x1_0000_0000) as u32,
        local_addr_hash: match local_ip {
            Some(ip) => address_hash(ip),
            None => 0,
        },
    }
}

/// Handle one event of an observer: record a tick, go on until the flag is
/// set or the connection is gone.
pub fn observe(diagnostics: &mut RebindDiagnostics, event: ObserverEvent) -> (action:
    ObserverAction)
    ensures
        match event {
            ObserverEvent::Tick { rx, tx, rtt_us, local_ip } => {
                &&& final(diagnostics)@ == old(diagnostics)@.polled(
                    poll_of(rx, tx, rtt_us, local_ip),
                )
                &&& action == ObserverAction::Wait
            },
            ObserverEvent::CancelFlag(cancelled) => {
                &&& *final(diagnostics) == *old(diagnostics)
                &&& action == if cancelled {
                    ObserverAction::Stop
                } else {
                    ObserverAction::Wait
                }
            },
            ObserverEvent::Closed => {
                &&& *final(diagnostics) == *old(diagnostics)
                &&& action == ObserverAction::Stop
            },
        },
{
    match event {
        ObserverEvent::Tick { rx, tx, rtt_us, local_ip } => {
            let local_addr_hash: u64 = match local_ip {
                Some(ip) => ip_hash(&ip),
                None => 0,
            };
            diagnostics.record_poll(rx, tx, (rtt_us % 0x1_0000_0000) as u32, local_addr_hash);
            ObserverAction::Wait
        },
        ObserverEvent::CancelFlag(true) => ObserverAction::Stop,
        ObserverEvent::CancelFlag(false) => ObserverAction::Wait,
        ObserverEvent::Closed => ObserverAction::Stop,
    }
}

/// The diagnostics after a series of polls.
pub open spec fn after_polls(start: RebindState, polls: Seq<Poll>) -> RebindState
    decreases polls.len(),
{
    if polls.len() == 0 {
        start
    } else {
        after_polls(start, polls.drop_last()).polled(polls.last())
    }
}

/// How often in a series of polls a known address gave way to another.
pub open spec fn address_changes(polls: Seq<Poll>) -> nat
    decreases polls.len(),
{
    if polls.len() < 2 {
        0
    } else {
        let before = polls[polls.len() - 2].local_addr_hash;
        address_changes(polls.drop_last()) + if before != 0 && polls.last().local_addr_hash
            != before {
            1nat
        } else {
            0nat
        }
    }
}

/// Law: polls are counted, and so are the changes from a known local address
/// to another; the byte counts are those of the last poll.
pub proof fn law_polls_are_counted(polls: Seq<Poll>)
    requires
        0 < polls.len() <= u64::MAX,
    ensures
        ({
            let after = after_polls(RebindState::initial(), polls);
            &&& after.poll_count == polls.len()
            &&& after.rebind_count == address_changes(polls)
            &&& after.rx_bytes == polls.last().rx
            &&& after.tx_bytes == polls.last().tx
        }),
{
    lemma_polls_are_counted(polls);
}

proof fn lemma_polls_are_counted(polls: Seq<Poll>)
    requires
        polls.len() <= u64::MAX,
    ensures
        ({
            let after = after_polls(RebindState::initial(), polls);
            &&& after.poll_count == polls.len()
            &&& after.rebind_count == address_changes(polls)
            &&& address_changes(polls) <= polls.len()
            &&& after.last_local_addr_hash == if polls.len() == 0 {
                0
            } else {
                polls.last().local_addr_hash
            }
        }),
    decreases polls.len(),
{
    if polls.len() > 0 {
        lemma_polls_are_counted(polls.drop_last());
    }
}

/// Law: the recorded extremes are those of the round-trip times polled: no
/// poll is outside of them, and each is the time of some poll.
pub proof fn law_rtt_extremes(polls: Seq<Poll>)
    requires
        polls.len() > 0,
    ensures
        ({
            let after = after_polls(RebindState::initial(), polls);
            &&& forall|i: int|
                0 <= i < polls.len() ==> after.rtt_min_us <= (#[trigger] polls[i]).rtt_us
                    <= after.rtt_max_us
            &&& exists|i: int|
                0 <= i < polls.len() && (#[trigger] polls[i]).rtt_us == after.rtt_min_us
            &&& exists|i: int|
                0 <= i < polls.len() && (#[trigger] polls[i]).rtt_us == after.rtt_max_us
        }),
    decreases polls.len(),
{
    let after = after_polls(RebindState::initial(), polls);
    let init = polls.drop_last();
    let last = polls.len() - 1;
    assert(polls[last] == polls.last());
    if init.len() > 0 {
        law_rtt_extremes(init);
        let before = after_polls(RebindState::initial(), init);
        assert forall|i: int| 0 <= i < polls.len() implies after.rtt_min_us <= (
        #[trigger] polls[i]).rtt_us <= after.rtt_max_us by {
            if i < last {
                assert(init[i] == polls[i]);
            }
        }
        if after.rtt_min_us == before.rtt_min_us {
            let i = choose|i: int|
                0 <= i < init.len() && (#[trigger] init[i]).rtt_us == before.rtt_min_us;
            assert(polls[i].rtt_us == after.rtt_min_us);
        }
        if after.rtt_max_us == before.rtt_max_us {
            let i = choose|i: int|
                0 <= i < init.len() && (#[trigger] init[i]).rtt_us == before.rtt_max_us;
            assert(polls[i].rtt_us == after.rtt_max_us);
        }
    } else {
        reveal_with_fuel(after_polls, 2);
        assert(polls[0].rtt_us == after.rtt_min_us == after.rtt_max_us);
    }
}

/// Law: polling neither claims diagnostics nor frees them, so of all claims
/// the first alone finds them free.
pub proof fn law_claim_outlasts_polls(start: RebindState, polls: Seq<Poll>)
    ensures
        after_polls(start, polls).started == start.started,
    decreases polls.len(),
{
    if polls.len() > 0 {
        law_claim_outlasts_polls(start, polls.drop_last());
    }
}

/// Law: the hash of an address changes exactly if its hashed part does, and is
/// zero, which stands for an unknown address, only for a hashed part of zero.
pub proof fn law_hash_tells_addresses_apart(a: IpAddress, b: IpAddress)
    ensures
        address_hash(a) == address_hash(b) <==> hashed_part(a) == hashed_part(b),
        address_hash(a) == 0 <==> hashed_part(a) == 0,
{
    lemma_unhash(a);
    lemma_unhash(b);
}

/// The inverse of [`HASH_MULTIPLIER`] modulo 2^64 recovers the hashed part.
proof fn lemma_unhash(ip: IpAddress)
    ensures
        address_hash(ip) * 0xe85ee980144cbc89 % 0x1_0000_0000_0000_0000 == hashed_part(ip),
{
    let part = hashed_part(ip) as int;
    let modulus = 0x1_0000_0000_0000_0000int;
    let inverse = 0xe85ee980144cbc89int;
    let multiplier = HASH_MULTIPLIER as int;
    let wraps = 0x8f9ceefeint;
    assert(0 <= part < modulus);
    assert(multiplier * inverse == wraps * modulus + 1);
    vstd::arithmetic::div_mod::lemma_mul_mod_noop_left(part * multiplier, inverse, modulus);
    assert((part * multiplier) * inverse == part * (multiplier * inverse)) by (nonlinear_arith);
    assert(part * (wraps * modulus + 1) == modulus * (part * wraps) + part) by (nonlinear_arith);
    vstd::arithmetic::div_mod::lemma_mod_multiples_vanish(part * wraps, part, modulus);
    vstd::arithmetic::div_mod::lemma_small_mod(part as nat, modulus as nat);
}

/// Law: the hash tells IPv4 addresses apart, all of them, and IPv6 addresses
/// by their first four segments. Only an address of which these bits are all
/// zero hashes as an unknown one does.
pub proof fn law_addresses_are_told_apart(a: u32, b: u32, c: [u16; 8], d: [u16; 8])
    ensures
        address_hash(IpAddress::V4(a)) == address_hash(IpAddress::V4(b)) <==> a == b,
        address_hash(IpAddress::V4(a)) == 0 <==> a == 0,
        address_hash(IpAddress::V6(c)) == address_hash(IpAddress::V6(d)) <==> {
            &&& c@[0] == d@[0]
            &&& c@[1] == d@[1]
            &&& c@[2] == d@[2]
            &&& c@[3] == d@[3]
        },
        address_hash(IpAddress::V6(c)) == 0 <==> {
            &&& c@[0] == 0
            &&& c@[1] == 0
            &&& c@[2] == 0
            &&& c@[3] == 0
        },
{
    law_hash_tells_addresses_apart(IpAddress::V4(a), IpAddress::V4(b));
    law_hash_tells_addresses_apart(IpAddress::V6(c), IpAddress::V6(d));
}

/// Law: the hash spreads an address by one multiplier: hashes differ, modulo
/// 2^64, by the multiplier times the difference of the addresses.
pub proof fn law_hash_is_linear(a: u32, c: [u16; 8])
    ensures
        address_hash(IpAddress::V4(a)) == a * 0x9e3779b9,
        (address_hash(IpAddress::V6(c)) - (c@[0] * 0x1_0000_0000_0000 + c@[1] * 0x1_0000_0000
            + c@[2] * 0x1_0000 + c@[3]) * 0x9e3779b9) % 0x1_0000_0000_0000_0000 == 0,
{
    assert(a * 0x9e3779b9 < 0x1_0000_0000_0000_0000) by (nonlinear_arith)
        requires
            0 <= a <= 0xffff_ffff,
    ;
}

/// Law: a change of network is noticed. When the local address was known to be
/// one IPv4 address and the next tick finds another, one more rebind is
/// counted; when it finds the same, none is. Bytes are those of the tick, and
/// so is the round-trip time as far as it is below 2^32 microseconds.
pub proof fn law_moves_are_noticed(
    state: RebindState,
    first: Poll,
    before: u32,
    after: u32,
    rx: u64,
    tx: u64,
    rtt_us: u128,
)
    requires
        before != 0,
        first.local_addr_hash == poll_of(0, 0, 0, Some(IpAddress::V4(before))).local_addr_hash,
        state.rebind_count < u64::MAX - 1,
    ensures
        ({
            let once = state.polled(first);
            let poll = poll_of(rx, tx, rtt_us, Some(IpAddress::V4(after)));
            let twice = once.polled(poll);
            &&& twice.rebind_count == once.rebind_count + if before == after {
                0int
            } else {
                1int
            }
            &&& twice.rx_bytes == rx
            &&& twice.tx_bytes == tx
            &&& rtt_us < 0x1_0000_0000 ==> poll.rtt_us == rtt_us
            &&& (rtt_us - poll.rtt_us) % 0x1_0000_0000 == 0
        }),
{
    law_hash_tells_addresses_apart(IpAddress::V4(before), IpAddress::V4(after));
}

/// Law: a tick without a local address counts as a change if one was known,
/// and is itself an address that is not known; the address of a tick is the one
/// that the next is compared with.
pub proof fn law_unknown_addresses(
    state: RebindState,
    rx: u64,
    tx: u64,
    rtt_us: u128,
    ip: IpAddress,
)
    requires
        state.rebind_count < u64::MAX,
    ensures
        ({
            let lost = state.polled(poll_of(rx, tx, rtt_us, None));
            &&& lost.last_local_addr_hash == 0
            &&& lost.rebind_count == state.rebind_count + if state.last_local_addr_hash != 0 {
                1int
            } else {
                0int
            }
            &&& lost.polled(poll_of(rx, tx, rtt_us, Some(ip))).rebind_count == lost.rebind_count
        }),
        state.polled(poll_of(rx, tx, rtt_us, Some(ip))).last_local_addr_hash == address_hash(ip),
{
}

/// Law: a poll is counted once, moves the extremes only as far as its own
/// round-trip time, and leaves the claim alone.
pub proof fn law_one_poll(state: RebindState, poll: Poll)
    ensures
        ({
            let after = state.polled(poll);
            &&& after.poll_count == bumped(state.poll_count)
            &&& after.rx_bytes == poll.rx
            &&& after.tx_bytes == poll.tx
            &&& after.rtt_min_us <= state.rtt_min_us && after.rtt_min_us <= poll.rtt_us
            &&& after.rtt_min_us == state.rtt_min_us || after.rtt_min_us == poll.rtt_us
            &&& after.rtt_max_us >= state.rtt_max_us && after.rtt_max_us >= poll.rtt_us
            &&& after.rtt_max_us == state.rtt_max_us || after.rtt_max_us == poll.rtt_us
            &&& after.last_local_addr_hash == poll.local_addr_hash
            &&& after.started == state.started
            &&& state.last_local_addr_hash != 0 && poll.local_addr_hash
                != state.last_local_addr_hash ==> after.rebind_count == bumped(state.rebind_count)
            &&& state.last_local_addr_hash == 0 || poll.local_addr_hash
                == state.last_local_addr_hash ==> after.rebind_count == state.rebind_count
        }),
{
}

/// Law: the content of diagnostics is what their counters show, and fresh
/// ones show nothing.
pub proof fn law_diagnostics_show_their_content(diagnostics: RebindDiagnostics)
    ensures
        diagnostics@.poll_count == diagnostics.poll_count,
        diagnostics@.rebind_count == diagnostics.rebind_count,
        diagnostics@.rx_bytes == diagnostics.rx_bytes,
        diagnostics@.tx_bytes == diagnostics.tx_bytes,
        diagnostics@.rtt_min_us == diagnostics.rtt_min_us,
        diagnostics@.rtt_max_us == diagnostics.rtt_max_us,
        diagnostics@.last_local_addr_hash == diagnostics.memory.last_hash(),
        diagnostics@.started == diagnostics.memory.claimed(),
        diagnostics@ == RebindState::initial() ==> {
            &&& diagnostics.poll_count == 0
            &&& diagnostics.rebind_count == 0
            &&& diagnostics.rx_bytes == 0
            &&& diagnostics.tx_bytes == 0
            &&& diagnostics.rtt_min_us == i64::MAX
            &&& diagnostics.rtt_max_us == 0
            &&& diagnostics.memory.last_hash() == 0
            &&& !diagnostics.memory.claimed()
        },
{
}

} // verus!
