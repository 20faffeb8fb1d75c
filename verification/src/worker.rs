//! The PHP workers' bookkeeping: request and memory statistics, the
//! anti-OOM restart rule, and the round-robin choice among a pool's
//! workers. The process handle and the connection pool are carried as
//! they are; starting and stopping processes happens outside.

use vstd::prelude::*;
use crate::text::{decimal, push_decimal, push_str};

verus! {

/// A PHP worker: its index, its process (when running), its socket and
/// statistics.
pub struct Worker<P, C> {
    pub index: usize,
    pub process: Option<P>,
    pub socket_path: String,
    pub requests_handled: u64,
    pub last_memory: u64,
    pub last_peak: u64,
    pub connection_pool: C,
    pub pool_size: usize,
}

/// Why a worker must be restarted, if it must: memory that reached the
/// limit (checked first), or the request count reached.
pub open spec fn restart_reason(
    index: usize,
    requests_handled: u64,
    last_memory: u64,
    memory_limit_mb: u64,
    max_requests: u64,
) -> Option<Seq<char>> {
    if last_memory >= memory_limit_mb * 1048576 {
        Some(
            "Worker #"@ + decimal(index as nat) + ": Memory limit exceeded ("@ + decimal(
                (last_memory / 1024 / 1024) as nat,
            ) + " MB > "@ + decimal(memory_limit_mb as nat) + " MB)"@,
        )
    } else if requests_handled >= max_requests {
        Some(
            "Worker #"@ + decimal(index as nat) + ": Max requests reached ("@ + decimal(
                requests_handled as nat,
            ) + " >= "@ + decimal(max_requests as nat) + ")"@,
        )
    } else {
        None
    }
}

impl<P, C> Worker<P, C> {
    /// A worker that is not running yet and has handled nothing.
    pub fn new(index: usize, socket_path: String, pool_size: usize, connection_pool: C) -> (r: Self)
        ensures
            r.index == index,
            r.process is None,
            r.socket_path == socket_path,
            r.requests_handled == 0,
            r.last_memory == 0,
            r.last_peak == 0,
            r.connection_pool == connection_pool,
            r.pool_size == pool_size,
    {
        Worker {
            index,
            process: None,
            socket_path,
            requests_handled: 0,
            last_memory: 0,
            last_peak: 0,
            connection_pool,
            pool_size,
        }
    }

    /// The reason to restart this worker under the given limits, if any
    /// (see `restart_reason`).
    pub fn should_restart(&self, memory_limit_mb: u64, max_requests: u64) -> (r: Option<String>)
        requires
            memory_limit_mb * 1048576 <= u64::MAX,
        ensures
            match r {
                Some(s) => restart_reason(self.index, self.requests_handled, self.last_memory, memory_limit_mb, max_requests) == Some(s@),
                None => restart_reason(self.index, self.requests_handled, self.last_memory, memory_limit_mb, max_requests) is None,
            },
    {
        let memory_bytes = memory_limit_mb * 1024 * 1024;
        if self.last_memory >= memory_bytes {
            let mut s = String::new();
            push_str(&mut s, "Worker #");
            push_decimal(&mut s, self.index as u64);
            push_str(&mut s, ": Memory limit exceeded (");
            push_decimal(&mut s, self.last_memory / 1024 / 1024);
            push_str(&mut s, " MB > ");
            push_decimal(&mut s, memory_limit_mb);
            push_str(&mut s, " MB)");
            return Some(s);
        }
        if self.requests_handled >= max_requests {
            let mut s = String::new();
            push_str(&mut s, "Worker #");
            push_decimal(&mut s, self.index as u64);
            push_str(&mut s, ": Max requests reached (");
            push_decimal(&mut s, self.requests_handled);
            push_str(&mut s, " >= ");
            push_decimal(&mut s, max_requests);
            push_str(&mut s, ")");
            return Some(s);
        }
        None
    }

    /// Records a started process: the worker runs it and its request
    /// count starts again from 0.
    pub fn record_started(&mut self, process: P)
        ensures
            final(self).process == Some(process),
            final(self).requests_handled == 0,
            final(self).index == old(self).index,
            final(self).socket_path == old(self).socket_path,
            final(self).last_memory == old(self).last_memory,
            final(self).last_peak == old(self).last_peak,
            final(self).connection_pool == old(self).connection_pool,
            final(self).pool_size == old(self).pool_size,
    {
        self.process = Some(process);
        self.requests_handled = 0;
    }

    /// Takes the process out of the worker to stop it; the worker is then
    /// not running.
    pub fn take_process(&mut self) -> (r: Option<P>)
        ensures
            r == old(self).process,
            final(self).process is None,
            final(self).index == old(self).index,
            final(self).socket_path == old(self).socket_path,
            final(self).requests_handled == old(self).requests_handled,
            final(self).last_memory == old(self).last_memory,
            final(self).last_peak == old(self).last_peak,
            final(self).connection_pool == old(self).connection_pool,
            final(self).pool_size == old(self).pool_size,
    {
        self.process.take()
    }

    /// Whether the worker has a process.
    pub fn is_alive(&self) -> (r: bool)
        ensures
            r == self.process is Some,
    {
        self.process.is_some()
    }

    /// Records a handled request and the memory figures it reported.
    pub fn update_stats(&mut self, memory: u64, peak: u64)
        requires
            old(self).requests_handled < u64::MAX,
        ensures
            final(self).requests_handled == old(self).requests_handled + 1,
            final(self).last_memory == memory,
            final(self).last_peak == peak,
            final(self).index == old(self).index,
            final(self).process == old(self).process,
            final(self).socket_path == old(self).socket_path,
            final(self).connection_pool == old(self).connection_pool,
            final(self).pool_size == old(self).pool_size,
    {
        self.requests_handled = self.requests_handled + 1;
        self.last_memory = memory;
        self.last_peak = peak;
    }
}

/// A pool of workers with its limits and its round-robin position.
pub struct WorkerPool<W> {
    pub workers: Vec<W>,
    pub current_index: usize,
    pub memory_limit_mb: u64,
    pub max_requests: u64,
    pub timeout_ms: u64,
}

/// The worker that the round robin picks at position `counter`.
pub open spec fn round_robin(counter: usize, len: nat) -> int {
    counter as int % len as int
}

/// The round-robin position after one pick: one further on, wrapping to
/// zero at the end of the integer range.
pub open spec fn next_position(counter: usize) -> usize {
    if counter == usize::MAX {
        0
    } else {
        (counter + 1) as usize
    }
}

/// The round-robin position after `j` picks from position `counter`.
pub open spec fn position_after(counter: usize, j: nat) -> usize
    decreases j,
{
    if j == 0 {
        counter
    } else {
        next_position(position_after(counter, (j - 1) as nat))
    }
}

impl<W> WorkerPool<W> {
    /// A pool of the given workers, starting its round robin at the first.
    pub fn new(workers: Vec<W>, memory_limit_mb: u64, max_requests: u64, timeout_ms: u64) -> (r: Self)
        ensures
            r.workers == workers,
            r.current_index == 0,
            r.memory_limit_mb == memory_limit_mb,
            r.max_requests == max_requests,
            r.timeout_ms == timeout_ms,
    {
        WorkerPool { workers, current_index: 0, memory_limit_mb, max_requests, timeout_ms }
    }

    /// Round-robin choice: the index of the next worker; the position
    /// moves on by one (wrapping at the end of the integer range).
    pub fn get_next_worker(&mut self) -> (r: usize)
        requires
            old(self).workers@.len() > 0,
        ensures
            r as int == round_robin(old(self).current_index, old(self).workers@.len()),
            r < old(self).workers@.len(),
            final(self).current_index == next_position(old(self).current_index),
            final(self).workers == old(self).workers,
            final(self).memory_limit_mb == old(self).memory_limit_mb,
            final(self).max_requests == old(self).max_requests,
            final(self).timeout_ms == old(self).timeout_ms,
    {
        let index = self.current_index % self.workers.len();
        self.current_index = if self.current_index == usize::MAX { 0 } else { self.current_index + 1 };
        index
    }

    /// Whether a reload to `new_count` workers must replace the workers
    /// (their number changes) rather than restart the same ones.
    pub fn must_rebuild(&self, new_count: usize) -> (r: bool)
        ensures
            r == (new_count != self.workers@.len()),
    {
        new_count != self.workers.len()
    }

    /// Replaces the workers (a reload that changed their number).
    pub fn replace_workers(&mut self, workers: Vec<W>)
        ensures
            final(self).workers == workers,
            final(self).current_index == old(self).current_index,
            final(self).memory_limit_mb == old(self).memory_limit_mb,
            final(self).max_requests == old(self).max_requests,
            final(self).timeout_ms == old(self).timeout_ms,
    {
        self.workers = workers;
    }
}

/// Round robin repeats no worker within a round: `len` consecutive picks
/// that do not wrap give `len` different workers.
pub proof fn lemma_round_robin_distinct(counter: usize, len: nat, a: int, b: int)
    requires
        len > 0,
        0 <= a < b < len,
        counter as int + len <= usize::MAX,
    ensures
        round_robin((counter + a) as usize, len) != round_robin((counter + b) as usize, len),
{
    let c = counter as int;
    let l = len as int;
    assert((c + a) % l != (c + b) % l) by (nonlinear_arith)
        requires
            l > 0,
            0 <= a < b < l,
            c >= 0,
    {
        let qa = (c + a) / l;
        let qb = (c + b) / l;
        assert(c + a == qa * l + (c + a) % l);
        assert(c + b == qb * l + (c + b) % l);
        if (c + a) % l == (c + b) % l {
            assert((qb - qa) * l == b - a);
            assert(0 < b - a < l);
        }
    }
}

/// Round robin is fair: among `len` consecutive picks starting at any
/// position that does not wrap, worker `k` is chosen (at the returned step).
pub proof fn lemma_round_robin_covers(counter: usize, len: nat, k: int) -> (j: int)
    requires
        len > 0,
        0 <= k < len,
        counter as int + len <= usize::MAX,
    ensures
        0 <= j < len,
        round_robin((counter + j) as usize, len) == k,
{
    let c = counter as int;
    let l = len as int;
    let r = c % l;
    let j = if k >= r { k - r } else { k - r + l };
    assert((c + j) % l == k) by (nonlinear_arith)
        requires
            r == c % l,
            l > 0,
            j == (if k >= r { k - r } else { k - r + l }),
            0 <= k < l,
    {
        assert(c == (c / l) * l + r);
        assert(0 <= r < l);
        if k >= r {
            assert(c + j == (c / l) * l + k);
        } else {
            assert(c + j == (c / l + 1) * l + k);
        }
    }
    j
}

/// Worker `w` is chosen by one of the `n` picks made from position `c`.
pub open spec fn picked_within(c: usize, n: nat, w: int) -> bool {
    exists|j: nat| j < n && round_robin(#[trigger] position_after(c, j), n) == w
}

/// Successive picks: starting at position `c`, while the position does
/// not wrap, the `j`-th of `k` successive picks is worker `(c + j) % n`;
/// so any `n` successive picks choose every worker exactly once.
pub proof fn lemma_round_robin_successive(c: usize, n: nat, k: nat)
    requires
        n > 0,
        c + k <= usize::MAX,
    ensures
        forall|j: nat| j <= k ==> #[trigger] position_after(c, j) == c + j,
        forall|j: nat| j < k ==> round_robin(#[trigger] position_after(c, j), n) == (c + j) % (n as int),
        k == n ==> forall|w: int| 0 <= w < n ==> #[trigger] picked_within(c, n, w),
        k == n ==> forall|a: nat, b: nat|
            a < b < n ==> round_robin(#[trigger] position_after(c, a), n) != round_robin(
                #[trigger] position_after(c, b),
                n,
            ),
{
    lemma_positions_count_up(c, k);
    if k == n {
        assert forall|w: int| 0 <= w < n implies #[trigger] picked_within(c, n, w) by {
            let j = lemma_round_robin_covers(c, n, w);
            let jn = j as nat;
            assert(position_after(c, jn) == c + jn);
            assert(round_robin(position_after(c, jn), n) == w);
        }
        assert forall|a: nat, b: nat| a < b < n implies round_robin(
            #[trigger] position_after(c, a),
            n,
        ) != round_robin(#[trigger] position_after(c, b), n) by {
            lemma_round_robin_distinct(c, n, a as int, b as int);
            assert(position_after(c, a) == (c + a) as usize);
            assert(position_after(c, b) == (c + b) as usize);
        }
    }
}

/// Without wrapping, `j` picks move the position on by exactly `j`.
proof fn lemma_positions_count_up(c: usize, k: nat)
    requires
        c + k <= usize::MAX,
    ensures
        forall|j: nat| j <= k ==> #[trigger] position_after(c, j) == c + j,
    decreases k,
{
    if k > 0 {
        lemma_positions_count_up(c, (k - 1) as nat);
        assert(position_after(c, k) == next_position(position_after(c, (k - 1) as nat)));
    }
}

} // verus!
