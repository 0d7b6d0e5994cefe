//! The client core: operation statistics, retry delays, and the
//! pending-request table that correlates responses with requests.

use vstd::prelude::*;

verus! {

/// Client operation statistics.  The totals always balance: every
/// finished operation is counted exactly once as a success or failure.
#[derive(Debug, Clone, Copy)]
pub struct ClientStats {
    pub operations_total: u64,
    pub operations_successful: u64,
    pub operations_failed: u64,
    pub bytes_read: u64,
    pub bytes_written: u64,
}

/// The statistics balance sheet.
pub open spec fn stats_consistent(s: ClientStats) -> bool {
    s.operations_total == s.operations_successful + s.operations_failed
}

impl ClientStats {
    /// Zeroed counters; trivially balanced.
    pub fn new() -> (r: ClientStats)
        ensures
            r.operations_total == 0,
            r.operations_successful == 0,
            r.operations_failed == 0,
            r.bytes_read == 0,
            r.bytes_written == 0,
            stats_consistent(r),
    {
        ClientStats {
            operations_total: 0,
            operations_successful: 0,
            operations_failed: 0,
            bytes_read: 0,
            bytes_written: 0,
        }
    }

    /// Record one successful operation.  The bytes-written counter
    /// grows by exactly the operation's byte count, and the balance
    /// sheet is preserved.
    pub fn record_success(&mut self, read_bytes: u64, written_bytes: u64)
        requires
            old(self).operations_total < u64::MAX,
            old(self).operations_successful < u64::MAX,
            old(self).bytes_read + read_bytes <= u64::MAX,
            old(self).bytes_written + written_bytes <= u64::MAX,
        ensures
            final(self).operations_total == old(self).operations_total + 1,
            final(self).operations_successful == old(self).operations_successful + 1,
            final(self).operations_failed == old(self).operations_failed,
            final(self).bytes_read == old(self).bytes_read + read_bytes,
            final(self).bytes_written == old(self).bytes_written + written_bytes,
            stats_consistent(*old(self)) ==> stats_consistent(*final(self)),
    {
        self.operations_total = self.operations_total + 1;
        self.operations_successful = self.operations_successful + 1;
        self.bytes_read = self.bytes_read + read_bytes;
        self.bytes_written = self.bytes_written + written_bytes;
    }

    /// Record one failed operation.  No byte counter moves on failure,
    /// and the balance sheet is preserved.
    pub fn record_failure(&mut self)
        requires
            old(self).operations_total < u64::MAX,
            old(self).operations_failed < u64::MAX,
        ensures
            final(self).operations_total == old(self).operations_total + 1,
            final(self).operations_failed == old(self).operations_failed + 1,
            final(self).operations_successful == old(self).operations_successful,
            final(self).bytes_read == old(self).bytes_read,
            final(self).bytes_written == old(self).bytes_written,
            stats_consistent(*old(self)) ==> stats_consistent(*final(self)),
    {
        self.operations_total = self.operations_total + 1;
        self.operations_failed = self.operations_failed + 1;
    }
}

/// After any sequence of recorded operations starting from fresh
/// counters, the total equals successes plus failures.
pub proof fn lemma_stats_balance(s: ClientStats)
    requires
        stats_consistent(s),
    ensures
        s.operations_total == s.operations_successful + s.operations_failed,
{
}

/// Retry backoff strategies.
#[derive(Debug, Clone, Copy, PartialEq, Eq, Structural)]
pub enum RetryStrategy {
    NoRetry,
    Linear { delay_ms: u64 },
    Exponential { base_delay_ms: u64, max_delay_ms: u64 },
}

/// Powers of two, for the exponential backoff schedule.
pub open spec fn pow2(n: nat) -> nat
    decreases n,
{
    if n == 0 {
        1
    } else {
        2 * pow2((n - 1) as nat)
    }
}

/// The delay before retry number `attempt` (counted from zero): none,
/// a fixed delay, or `base * 2^attempt` capped at the maximum.
pub open spec fn spec_retry_delay(strategy: RetryStrategy, attempt: u32) -> Option<u64> {
    match strategy {
        RetryStrategy::NoRetry => None,
        RetryStrategy::Linear { delay_ms } => Some(delay_ms),
        RetryStrategy::Exponential { base_delay_ms, max_delay_ms } => {
            let raw = base_delay_ms * pow2(attempt as nat);
            Some(
                if raw > max_delay_ms {
                    max_delay_ms
                } else {
                    raw as u64
                },
            )
        },
    }
}

proof fn lemma_pow2_ge(n: nat)
    ensures
        pow2(n) >= 1,
        n >= 64 ==> pow2(n) >= 0x1_0000_0000_0000_0000,
    decreases n,
{
    if n > 0 {
        lemma_pow2_ge((n - 1) as nat);
        if n >= 65 {
            assert(pow2((n - 1) as nat) >= 0x1_0000_0000_0000_0000);
        } else if n == 64 {
            lemma_pow2_shift(63nat);
            assert(1u64 << 63u64 == 0x8000_0000_0000_0000) by (bit_vector);
        }
    }
}

proof fn lemma_pow2_shift(n: nat)
    requires
        n < 64,
    ensures
        pow2(n) == (1u64 << n),
    decreases n,
{
    if n == 0 {
        assert(1u64 << 0 == 1) by (bit_vector);
    } else {
        lemma_pow2_shift((n - 1) as nat);
        let m = (n - 1) as u64;
        assert(m < 63 ==> (1u64 << (m + 1)) == 2 * (1u64 << m)) by (bit_vector);
        assert((1u64 << m) <= 0x8000_0000_0000_0000) by (bit_vector);
    }
}

/// The delay before a retry, per the configured strategy.
pub fn calculate_retry_delay(strategy: &RetryStrategy, attempt: u32) -> (r: Option<u64>)
    ensures
        r == spec_retry_delay(*strategy, attempt),
{
    match strategy {
        RetryStrategy::NoRetry => None,
        RetryStrategy::Linear { delay_ms } => Some(*delay_ms),
        RetryStrategy::Exponential { base_delay_ms, max_delay_ms } => {
            let base = *base_delay_ms;
            let cap = *max_delay_ms;
            if attempt >= 64 {
                proof {
                    lemma_pow2_ge(attempt as nat);
                    if base > 0 {
                        assert(base * pow2(attempt as nat) >= pow2(attempt as nat)) by (
                        nonlinear_arith)
                            requires base >= 1;
                    }
                }
                if base == 0 {
                    proof {
                        assert(0u64 * pow2(attempt as nat) == 0) by (nonlinear_arith);
                    }
                    Some(if 0 > cap { cap } else { 0 })
                } else {
                    Some(cap)
                }
            } else {
                proof {
                    lemma_pow2_shift(attempt as nat);
                }
                let factor: u64 = 1u64 << attempt;
                proof {
                    assert((base as u128) * (factor as u128) <= 0xFFFFFFFFFFFFFFFFu128
                        * 0xFFFFFFFFFFFFFFFFu128) by (nonlinear_arith)
                        requires base as u128 <= 0xFFFFFFFFFFFFFFFFu128 && factor as u128
                            <= 0xFFFFFFFFFFFFFFFFu128;
                }
                let raw: u128 = (base as u128) * (factor as u128);
                proof {
                    assert((base as u128) * (factor as u128) == base * pow2(attempt as nat)) by (
                    nonlinear_arith)
                        requires factor == pow2(attempt as nat);
                }
                if raw > cap as u128 {
                    Some(cap)
                } else {
                    Some(raw as u64)
                }
            }
        },
    }
}

/// One waiter in the pending-request table.
#[derive(Debug, Clone, Copy)]
pub struct PendingEntry {
    pub request_id: u128,
    pub deadline: u64,
}

/// The pending-request table: at most one waiter per request id.
pub struct PendingTable {
    entries: Vec<PendingEntry>,
}

pub open spec fn pending_unique(es: Seq<PendingEntry>) -> bool {
    forall|i: int, j: int| 0 <= i < j < es.len() ==> (#[trigger] es[i]).request_id != (
    #[trigger] es[j]).request_id
}

/// The waiters whose deadline has not passed at `now`, in table order.
pub open spec fn surviving_pending(es: Seq<PendingEntry>, now: u64) -> Seq<PendingEntry>
    decreases es.len(),
{
    if es.len() == 0 {
        Seq::empty()
    } else {
        surviving_pending(es.drop_last(), now) + (if es.last().deadline < now {
            Seq::empty()
        } else {
            seq![es.last()]
        })
    }
}

impl PendingTable {
    pub closed spec fn view(&self) -> Seq<PendingEntry> {
        self.entries@
    }

    pub open spec fn wf(&self) -> bool {
        pending_unique(self@)
    }

    /// Whether a waiter for this request id is present.
    pub open spec fn contains(&self, request_id: u128) -> bool {
        exists|j: int| 0 <= j < self@.len() && (#[trigger] self@[j]).request_id == request_id
    }

    /// An empty table.
    pub fn new() -> (r: PendingTable)
        ensures
            r@ == Seq::<PendingEntry>::empty(),
            r.wf(),
    {
        PendingTable { entries: Vec::new() }
    }

    fn find(&self, request_id: u128) -> (r: Option<usize>)
        ensures
            match r {
                Some(k) => k < self@.len() && self@[k as int].request_id == request_id,
                None => !self.contains(request_id),
            },
    {
        let mut k: usize = 0;
        while k < self.entries.len()
            invariant
                k <= self@.len(),
                forall|j: int| 0 <= j < k ==> (#[trigger] self@[j]).request_id != request_id,
            decreases self@.len() - k,
        {
            if self.entries[k].request_id == request_id {
                return Some(k);
            }
            k = k + 1;
        }
        None
    }

    /// Register a waiter.  Refused when one is already registered for
    /// the same id, so the table never holds two waiters for one id.
    pub fn register(&mut self, request_id: u128, deadline: u64) -> (r: bool)
        requires
            old(self).wf(),
        ensures
            final(self).wf(),
            r == !old(self).contains(request_id),
            r ==> final(self)@ == old(self)@.push(
                PendingEntry { request_id, deadline },
            ),
            !r ==> final(self)@ == old(self)@,
            final(self).contains(request_id),
    {
        match self.find(request_id) {
            Some(k) => {
                proof {
                    assert(self@[k as int].request_id == request_id);
                }
                false
            },
            None => {
                self.entries.push(PendingEntry { request_id, deadline });
                proof {
                    assert(final(self)@.last().request_id == request_id);
                }
                true
            },
        }
    }

    /// Take the waiter for a response's request id, removing it.  Each
    /// caller receives only the waiter matching its own id, so two
    /// interleaved requests can never observe each other's response.
    pub fn take(&mut self, request_id: u128) -> (r: Option<PendingEntry>)
        requires
            old(self).wf(),
        ensures
            final(self).wf(),
            match r {
                Some(e) => e.request_id == request_id && old(self).contains(request_id) && final(self)@.len() + 1 == old(self)@.len() && !final(self).contains(request_id),
                None => !old(self).contains(request_id) && final(self)@ == old(self)@,
            },
    {
        match self.find(request_id) {
            Some(k) => {
                let ghost orig = self@;
                let e = self.entries.remove(k);
                proof {
                    assert forall|a: int, b: int| 0 <= a < b < self@.len() implies (
                    #[trigger] self@[a]).request_id != (#[trigger] self@[b]).request_id by {
                        let a0 = if a < (k as int) { a } else { a + 1 };
                        let b0 = if b < (k as int) { b } else { b + 1 };
                        assert(self@[a] == orig[a0] && self@[b] == orig[b0]);
                    }
                    assert forall|j: int| 0 <= j < self@.len() implies (#[trigger] self@[
                        j
                    ]).request_id != request_id by {
                        let j0 = if j < (k as int) { j } else { j + 1 };
                        assert(self@[j] == orig[j0]);
                    }
                }
                Some(e)
            },
            None => None,
        }
    }

    /// Evict exactly the waiters whose deadline has passed, keeping
    /// the rest in order; returns how many were dropped.
    pub fn evict_timed_out(&mut self, now: u64) -> (removed: usize)
        requires
            old(self).wf(),
        ensures
            final(self).wf(),
            final(self)@ == surviving_pending(old(self)@, now),
            final(self)@.len() + removed == old(self)@.len(),
    {
        let ghost orig = self@;
        let orig_len = self.entries.len();
        let mut removed: usize = 0;
        let mut k: usize = 0;
        let ghost mut m: int = 0;
        while k < self.entries.len()
            invariant
                k <= self@.len(),
                0 <= m <= orig.len(),
                pending_unique(self@),
                self@.len() + removed == orig_len == orig.len(),
                self@ =~= surviving_pending(orig.take(m), now) + orig.skip(m),
                k == surviving_pending(orig.take(m), now).len(),
            decreases self@.len() - k,
        {
            proof {
                assert(self@[k as int] == orig.skip(m)[0]);
                assert(orig.skip(m)[0] == orig[m]);
                assert(orig.take(m + 1).drop_last() =~= orig.take(m));
                assert(orig.take(m + 1).last() == orig[m]);
            }
            if self.entries[k].deadline < now {
                let ghost before = self@;
                self.entries.remove(k);
                removed = removed + 1;
                proof {
                    assert(self@ =~= surviving_pending(orig.take(m + 1), now) + orig.skip(m + 1));
                    assert forall|a: int, b: int| 0 <= a < b < self@.len() implies (
                    #[trigger] self@[a]).request_id != (#[trigger] self@[b]).request_id by {
                        let a0 = if a < (k as int) { a } else { a + 1 };
                        let b0 = if b < (k as int) { b } else { b + 1 };
                        assert(self@[a] == before[a0] && self@[b] == before[b0]);
                    }
                }
            } else {
                proof {
                    assert(self@ =~= surviving_pending(orig.take(m + 1), now) + orig.skip(m + 1));
                }
                k = k + 1;
            }
            proof {
                m = m + 1;
            }
        }
        proof {
            assert(orig.take(orig.len() as int) =~= orig);
            assert(self@ =~= surviving_pending(orig, now));
        }
        removed
    }

    /// How many waiters are registered.
    pub fn len(&self) -> (r: usize)
        ensures
            r == self@.len(),
    {
        self.entries.len()
    }
}

/// Connection lifecycle states.
#[derive(Debug, Clone, Copy, PartialEq, Eq, Structural)]
pub enum ConnectionState {
    Disconnected,
    Connecting,
    Connected,
    Reconnecting,
    Failed,
}

/// The lawful transitions of a connection: reconnection is entered only
/// after a connected or connecting state fails, and a failed connection
/// is terminal for its attempt.
pub open spec fn state_can_step(from: ConnectionState, to: ConnectionState) -> bool {
    match (from, to) {
        (ConnectionState::Disconnected, ConnectionState::Connecting) => true,
        (ConnectionState::Connecting, ConnectionState::Connected) => true,
        (ConnectionState::Connecting, ConnectionState::Failed) => true,
        (ConnectionState::Connecting, ConnectionState::Reconnecting) => true,
        (ConnectionState::Connected, ConnectionState::Disconnected) => true,
        (ConnectionState::Connected, ConnectionState::Reconnecting) => true,
        (ConnectionState::Reconnecting, ConnectionState::Connecting) => true,
        (ConnectionState::Reconnecting, ConnectionState::Failed) => true,
        _ => false,
    }
}

/// Per-connection statistics.
#[derive(Debug, Clone, Copy)]
pub struct ConnectionStats {
    pub messages_sent: u64,
    pub messages_received: u64,
    pub bytes_sent: u64,
    pub bytes_received: u64,
    pub connection_attempts: u64,
    pub successful_connections: u64,
    pub failed_connections: u64,
    pub reconnection_count: u32,
}

impl ConnectionStats {
    /// Zeroed counters.
    pub fn new() -> (r: ConnectionStats)
        ensures
            r.messages_sent == 0 && r.messages_received == 0 && r.bytes_sent == 0
                && r.bytes_received == 0 && r.connection_attempts == 0
                && r.successful_connections == 0 && r.failed_connections == 0
                && r.reconnection_count == 0,
    {
        ConnectionStats {
            messages_sent: 0,
            messages_received: 0,
            bytes_sent: 0,
            bytes_received: 0,
            connection_attempts: 0,
            successful_connections: 0,
            failed_connections: 0,
            reconnection_count: 0,
        }
    }
}

/// Round-robin selection over a pool of `len` connections.
pub fn select_round_robin(counter: u64, len: usize) -> (r: usize)
    requires
        len > 0,
    ensures
        r == counter as int % len as int,
        r < len,
{
    (counter % (len as u64)) as usize
}

/// The agent-side reconnection delay: `base * 2^(attempt-1)` seconds,
/// capped at 300.
pub open spec fn spec_reconnect_delay(base: u64, attempt: u32) -> u64
    recommends
        attempt >= 1,
{
    let raw = base * pow2((attempt - 1) as nat);
    if raw > 300 {
        300u64
    } else {
        raw as u64
    }
}

/// The transient failures worth retrying: network faults, connection
/// timeouts and an unavailable service; every other error is final.
pub fn is_retryable(e: crate::protocol::ErrorCode) -> (r: bool)
    ensures
        r == (e is NetworkError || e is ConnectionTimeout || e is ServiceUnavailable),
{
    match e {
        crate::protocol::ErrorCode::NetworkError => true,
        crate::protocol::ErrorCode::ConnectionTimeout => true,
        crate::protocol::ErrorCode::ServiceUnavailable => true,
        _ => false,
    }
}

/// Whether to retry and after what delay: a retry happens exactly when
/// the failure is retryable, attempts remain and the strategy grants a
/// delay, and the delay is the strategy's for this attempt.
pub fn retry_decision(retryable: bool, attempt: u32, max_retries: u32, s: &RetryStrategy) -> (r:
    Option<u64>)
    ensures
        r is Some <==> (retryable && attempt < max_retries && spec_retry_delay(*s, attempt)
            is Some),
        r is Some ==> r == spec_retry_delay(*s, attempt),
{
    if !retryable || attempt >= max_retries {
        return None;
    }
    calculate_retry_delay(s, attempt)
}

/// What the connection loop observed in one round.
#[derive(Debug, Clone, Copy, PartialEq, Eq, Structural)]
pub enum ConnEvent {
    /// The connect attempt succeeded.
    Opened,
    /// The connect attempt failed.
    FailedAttempt,
    /// An established connection dropped.
    Lost,
    /// A shutdown was requested.
    Shutdown,
}

/// The next state and sleep of the connection loop: an opened attempt
/// is connected; a dropped connection re-enters reconnection with its
/// backoff; a failed attempt re-enters reconnection until the attempt
/// budget is spent, then the connection fails for good; a shutdown
/// disconnects with no retry.
pub open spec fn spec_connect_step(
    state: ConnectionState,
    attempt: u32,
    ev: ConnEvent,
    max_attempts: u32,
    backoff_base: u64,
) -> (ConnectionState, Option<u64>) {
    match ev {
        ConnEvent::Shutdown => (ConnectionState::Disconnected, None),
        ConnEvent::Opened => (ConnectionState::Connected, None),
        ConnEvent::Lost => (
            ConnectionState::Reconnecting,
            Some(spec_reconnect_delay(backoff_base, attempt)),
        ),
        ConnEvent::FailedAttempt => {
            if attempt >= max_attempts {
                (ConnectionState::Failed, None)
            } else {
                (ConnectionState::Reconnecting, Some(spec_reconnect_delay(backoff_base, attempt)))
            }
        },
    }
}

/// One decision of the agent's connection loop.  The caller performs
/// the outside work (connecting, sleeping, serving) and hands back the
/// event; every transition taken is a lawful step.
pub fn connect_step(
    state: ConnectionState,
    attempt: u32,
    ev: ConnEvent,
    max_attempts: u32,
    backoff_base: u64,
) -> (r: (ConnectionState, Option<u64>))
    requires
        attempt >= 1,
        ev is Opened || ev is FailedAttempt ==> state is Connecting,
        ev is Lost || ev is Shutdown ==> state is Connected,
    ensures
        r == spec_connect_step(state, attempt, ev, max_attempts, backoff_base),
        state_can_step(state, r.0),
        r.1 is Some ==> r.1 == Some(spec_reconnect_delay(backoff_base, attempt)),
{
    match ev {
        ConnEvent::Shutdown => (ConnectionState::Disconnected, None),
        ConnEvent::Opened => (ConnectionState::Connected, None),
        ConnEvent::Lost => (
            ConnectionState::Reconnecting,
            Some(reconnect_delay(backoff_base, attempt)),
        ),
        ConnEvent::FailedAttempt => {
            if attempt >= max_attempts {
                (ConnectionState::Failed, None)
            } else {
                (ConnectionState::Reconnecting, Some(reconnect_delay(backoff_base, attempt)))
            }
        },
    }
}

/// The load-balancing policies a client can run.
#[derive(Debug, Clone, Copy, PartialEq, Eq, Structural)]
pub enum LoadBalancingStrategy {
    RoundRobin,
    WeightedRoundRobin,
    LeastConnections,
    Random,
}

/// The sum of the first `n` weights.
pub open spec fn weight_sum(ws: Seq<u32>) -> int
    decreases ws.len(),
{
    if ws.len() == 0 {
        0
    } else {
        weight_sum(ws.drop_last()) + ws.last()
    }
}

/// Weighted round-robin selection: the counter walks the cumulative
/// weights, so each pool entry is chosen in proportion to its weight.
/// Nothing is chosen from an empty or all-zero pool; otherwise the
/// chosen index is the one whose cumulative weight interval holds
/// `counter % total`.
pub fn select_weighted_round_robin(weights: &Vec<u32>, counter: u64) -> (r: Option<usize>)
    requires
        weights@.len() < 0x1_0000_0000,
    ensures
        r is None <==> weight_sum(weights@) == 0,
        r matches Some(i) ==> i < weights@.len() && weight_sum(weights@.take(i as int)) <= (
        counter as int % weight_sum(weights@)) < weight_sum(weights@.take(i as int + 1)),
{
    proof {
        lemma_weight_sum_bound(weights@);
    }
    let mut total: u64 = 0;
    let mut k: usize = 0;
    while k < weights.len()
        invariant
            k <= weights@.len(),
            weights@.len() < 0x1_0000_0000,
            total == weight_sum(weights@.take(k as int)),
            total <= k * 0x1_0000_0000,
        decreases weights@.len() - k,
    {
        proof {
            assert(weights@.take(k + 1 as int).drop_last() =~= weights@.take(k as int));
            assert(weights@.take(k + 1 as int).last() == weights@[k as int]);
        }
        total = total + (weights[k] as u64);
        k = k + 1;
    }
    proof {
        assert(weights@.take(weights@.len() as int) =~= weights@);
    }
    if total == 0 {
        return None;
    }
    let x = counter % total;
    let mut acc: u64 = 0;
    let mut k: usize = 0;
    while k < weights.len()
        invariant
            k <= weights@.len(),
            weights@.len() < 0x1_0000_0000,
            total == weight_sum(weights@),
            total > 0,
            x == counter as int % weight_sum(weights@),
            x < total,
            acc == weight_sum(weights@.take(k as int)),
            acc <= x,
        decreases weights@.len() - k,
    {
        proof {
            assert(weights@.take(k + 1 as int).drop_last() =~= weights@.take(k as int));
            assert(weights@.take(k + 1 as int).last() == weights@[k as int]);
            lemma_weight_sum_prefix(weights@, k + 1);
        }
        let next = acc + (weights[k] as u64);
        if x < next {
            return Some(k);
        }
        acc = next;
        k = k + 1;
    }
    proof {
        assert(weights@.take(weights@.len() as int) =~= weights@);
        assert(false);
    }
    None
}

proof fn lemma_weight_sum_bound(ws: Seq<u32>)
    ensures
        0 <= weight_sum(ws) <= ws.len() * 0x1_0000_0000,
    decreases ws.len(),
{
    if ws.len() > 0 {
        lemma_weight_sum_bound(ws.drop_last());
        assert((ws.len() - 1) * 0x1_0000_0000 + 0x1_0000_0000 == ws.len() * 0x1_0000_0000)
            by (nonlinear_arith);
    }
}

proof fn lemma_weight_sum_prefix(ws: Seq<u32>, n: int)
    requires
        0 <= n <= ws.len(),
    ensures
        weight_sum(ws.take(n)) <= weight_sum(ws),
    decreases ws.len() - n,
{
    if n < ws.len() {
        lemma_weight_sum_prefix(ws, n + 1);
        assert(ws.take(n + 1).drop_last() =~= ws.take(n));
        assert(ws.take(n + 1).last() == ws[n]);
    } else {
        assert(ws.take(n) =~= ws);
    }
}

/// Least-connections selection: the first pool entry carrying the
/// fewest active connections; nothing from an empty pool.
pub fn select_least_connections(conns: &Vec<u64>) -> (r: Option<usize>)
    ensures
        r is None <==> conns@.len() == 0,
        r matches Some(i) ==> i < conns@.len() && (forall|j: int|
            0 <= j < conns@.len() ==> conns@[i as int] <= #[trigger] conns@[j]) && (forall|j: int|
            0 <= j < i ==> #[trigger] conns@[j] > conns@[i as int]),
{
    if conns.len() == 0 {
        return None;
    }
    let mut best: usize = 0;
    let mut k: usize = 1;
    while k < conns.len()
        invariant
            1 <= k <= conns@.len(),
            best < k,
            forall|j: int| 0 <= j < k ==> conns@[best as int] <= #[trigger] conns@[j],
            forall|j: int| 0 <= j < best ==> #[trigger] conns@[j] > conns@[best as int],
        decreases conns@.len() - k,
    {
        if conns[k] < conns[best] {
            best = k;
        }
        k = k + 1;
    }
    Some(best)
}

/// Random selection from a pool: the caller draws the roll; the chosen
/// index is exactly the roll reduced modulo the pool size, and nothing
/// is chosen from an empty pool.
pub fn select_random(len: usize, roll: u64) -> (r: Option<usize>)
    ensures
        r is None <==> len == 0,
        r matches Some(i) ==> len > 0 && i == roll as int % len as int,
{
    if len == 0 {
        None
    } else {
        Some((roll % (len as u64)) as usize)
    }
}

/// The backoff before reconnection attempt `attempt` (counted from 1).
pub fn reconnect_delay(base: u64, attempt: u32) -> (r: u64)
    requires
        attempt >= 1,
    ensures
        r == spec_reconnect_delay(base, attempt),
        r <= 300,
{
    match calculate_retry_delay(
        &RetryStrategy::Exponential { base_delay_ms: base, max_delay_ms: 300 },
        attempt - 1,
    ) {
        Some(d) => d,
        None => {
            proof {
                assert(false);
            }
            0
        },
    }
}

} // verus!
