//! Server counters (requests, errors, per-worker requests and memory),
//! their Prometheus text rendering, and the health summary.

use vstd::prelude::*;
use crate::text::{contains_seq, decimal, occurs_at, push_decimal, push_str, starts_with};

verus! {

/// `std::time::Instant`, carried as it is: nothing inside it is read.
#[verifier::external_type_specification]
#[verifier::external_body]
pub struct ExInstant(std::time::Instant);

/// `Instant::now()`: the current instant of the monotonic clock. Nothing
/// is stated of it.
#[verifier::external_body]
fn instant_now() -> std::time::Instant {
    std::time::Instant::now()
}

/// `instant.elapsed().as_secs()`: whole seconds since the instant. Nothing
/// is stated of the value: it depends on the clock.
#[verifier::external_body]
fn elapsed_secs(instant: &std::time::Instant) -> u64 {
    instant.elapsed().as_secs()
}

/// The server's counters.
pub struct Metrics {
    pub total_requests: u64,
    pub total_errors: u64,
    pub start_time: std::time::Instant,
    pub requests_per_worker: Vec<u64>,
    pub memory_per_worker: Vec<u64>,
}

/// Per-worker lines of a Prometheus metric: `name{worker="i"} value`.
pub open spec fn worker_lines(name: Seq<char>, values: Seq<u64>) -> Seq<char>
    decreases values.len(),
{
    if values.len() == 0 {
        Seq::<char>::empty()
    } else {
        worker_lines(name, values.drop_last()) + name + "{worker=\""@ + decimal(
            (values.len() - 1) as nat,
        ) + "\"} "@ + decimal(values.last() as nat) + "\n"@
    }
}

/// Liveness lines: `bakpiarun_worker_alive{pool="p",worker="i"} 1|0`.
pub open spec fn alive_lines(workers: Seq<(Seq<char>, usize, bool)>) -> Seq<char>
    decreases workers.len(),
{
    if workers.len() == 0 {
        Seq::<char>::empty()
    } else {
        let w = workers.last();
        alive_lines(workers.drop_last()) + "bakpiarun_worker_alive{pool=\""@ + w.0 + "\",worker=\""@
            + decimal(w.1 as nat) + "\"} "@ + (if w.2 {
            "1"@
        } else {
            "0"@
        }) + "\n"@
    }
}

/// A metric with one sample: its HELP and TYPE lines, the sample line
/// (the sample's name, the value and a line break) and an empty line.
pub open spec fn single_block(help: Seq<char>, kind: Seq<char>, sample: Seq<char>, value: u64) -> Seq<char> {
    help + kind + (sample + decimal(value as nat) + "\n"@) + "\n"@
}

/// A metric with one sample per worker: its HELP and TYPE lines, then the
/// per-worker lines and an empty line.
pub open spec fn series_block(help: Seq<char>, kind: Seq<char>, lines: Seq<char>) -> Seq<char> {
    help + kind + lines + "\n"@
}

/// The Prometheus exposition of the counters, the uptime and the workers'
/// liveness (pool name, worker index, alive).
pub open spec fn prometheus_text(
    uptime: u64,
    total_requests: u64,
    total_errors: u64,
    requests: Seq<u64>,
    memory: Seq<u64>,
    workers: Seq<(Seq<char>, usize, bool)>,
) -> Seq<char> {
    single_block(
        "# HELP bakpiarun_uptime_seconds Server uptime in seconds\n"@,
        "# TYPE bakpiarun_uptime_seconds gauge\n"@,
        "bakpiarun_uptime_seconds "@,
        uptime,
    ) + single_block(
        "# HELP bakpiarun_requests_total Total number of requests\n"@,
        "# TYPE bakpiarun_requests_total counter\n"@,
        "bakpiarun_requests_total "@,
        total_requests,
    ) + single_block(
        "# HELP bakpiarun_errors_total Total number of errors\n"@,
        "# TYPE bakpiarun_errors_total counter\n"@,
        "bakpiarun_errors_total "@,
        total_errors,
    ) + series_block(
        "# HELP bakpiarun_worker_requests_total Requests per worker\n"@,
        "# TYPE bakpiarun_worker_requests_total counter\n"@,
        worker_lines("bakpiarun_worker_requests_total"@, requests),
    ) + series_block(
        "# HELP bakpiarun_worker_memory_bytes Memory usage per worker\n"@,
        "# TYPE bakpiarun_worker_memory_bytes gauge\n"@,
        worker_lines("bakpiarun_worker_memory_bytes"@, memory),
    ) + "# HELP bakpiarun_worker_alive Worker alive status\n"@
        + "# TYPE bakpiarun_worker_alive gauge\n"@ + alive_lines(workers)
}

/// The line of worker `i` in a per-worker metric.
pub open spec fn worker_line(name: Seq<char>, i: nat, value: u64) -> Seq<char> {
    name + "{worker=\""@ + decimal(i) + "\"} "@ + decimal(value as nat) + "\n"@
}

/// An occurrence of `p` in `s` is one in `a + s + b`, shifted by `a`.
proof fn lemma_occurs_within(a: Seq<char>, s: Seq<char>, b: Seq<char>, p: Seq<char>, i: int)
    requires
        occurs_at(s, p, i),
    ensures
        occurs_at(a + s + b, p, a.len() + i),
        contains_seq(a + s + b, p),
{
    assert((a + s + b).subrange(a.len() + i, a.len() + i + p.len()) =~= s.subrange(i, i + p.len()));
}

/// The per-worker lines come one per worker, in index order: the line of
/// worker `k` follows the lines of the workers before it, and together
/// they begin the text.
pub proof fn lemma_worker_lines_in_order(name: Seq<char>, values: Seq<u64>, k: nat)
    requires
        k < values.len(),
    ensures
        worker_lines(name, values.take(k as int + 1)) == worker_lines(name, values.take(k as int))
            + worker_line(name, k, values[k as int]),
        starts_with(worker_lines(name, values), worker_lines(name, values.take(k as int + 1))),
    decreases values.len(),
{
    let t = values.take(k as int + 1);
    assert(t.drop_last() =~= values.take(k as int));
    assert(worker_lines(name, t) =~= worker_lines(name, values.take(k as int)) + worker_line(
        name,
        k,
        values[k as int],
    ));
    if k + 1 == values.len() {
        assert(t =~= values);
        assert(worker_lines(name, values).subrange(0, worker_lines(name, t).len() as int) =~= worker_lines(name, t));
    } else {
        let d = values.drop_last();
        lemma_worker_lines_in_order(name, d, k);
        assert(d.take(k as int + 1) =~= t);
        let whole = worker_lines(name, values);
        let n = worker_lines(name, t).len() as int;
        assert(whole.subrange(0, n) =~= worker_lines(name, d).subrange(0, n));
    }
}

/// The line of worker `k` occurs in the lines of its metric, after those
/// of the workers before it.
proof fn lemma_worker_line_occurs(name: Seq<char>, values: Seq<u64>, k: nat)
    requires
        k < values.len(),
    ensures
        occurs_at(
            worker_lines(name, values),
            worker_line(name, k, values[k as int]),
            worker_lines(name, values.take(k as int)).len() as int,
        ),
{
    lemma_worker_lines_in_order(name, values, k);
    let before = worker_lines(name, values.take(k as int));
    let l = worker_line(name, k, values[k as int]);
    let whole = worker_lines(name, values);
    let b = before.len() as int;
    let n = (before + l).len() as int;
    assert(whole.subrange(0, n) == before + l);
    assert(whole.subrange(b, b + l.len()) =~= whole.subrange(0, n).subrange(b, b + l.len()));
    assert((before + l).subrange(b, b + l.len()) =~= l);
}

/// The liveness line of one worker: its pool, its index, and `1` when it
/// is alive, `0` when not.
pub open spec fn alive_line(w: (Seq<char>, usize, bool)) -> Seq<char> {
    "bakpiarun_worker_alive{pool=\""@ + w.0 + "\",worker=\""@ + decimal(w.1 as nat) + "\"} "@ + (if w.2 {
        "1"@
    } else {
        "0"@
    }) + "\n"@
}

/// The liveness lines come one per worker, in the order given: the line of
/// entry `k` occurs after the lines of the entries before it.
pub proof fn lemma_alive_lines_in_order(workers: Seq<(Seq<char>, usize, bool)>, k: nat)
    requires
        k < workers.len(),
    ensures
        alive_lines(workers.take(k as int + 1)) == alive_lines(workers.take(k as int)) + alive_line(
            workers[k as int],
        ),
        occurs_at(
            alive_lines(workers),
            alive_line(workers[k as int]),
            alive_lines(workers.take(k as int)).len() as int,
        ),
    decreases workers.len(),
{
    let t = workers.take(k as int + 1);
    let before = alive_lines(workers.take(k as int));
    let l = alive_line(workers[k as int]);
    assert(t.drop_last() =~= workers.take(k as int));
    assert(alive_lines(t) =~= before + l);
    let b = before.len() as int;
    if k + 1 == workers.len() {
        assert(t =~= workers);
        assert(alive_lines(workers).subrange(b, b + l.len()) =~= l);
    } else {
        let d = workers.drop_last();
        lemma_alive_lines_in_order(d, k);
        assert(d.take(k as int) =~= workers.take(k as int));
        assert(d[k as int] == workers[k as int]);
        let whole = alive_lines(workers);
        assert(whole == alive_lines(d) + alive_line(workers.last()));
        assert(whole.subrange(b, b + l.len()) =~= alive_lines(d).subrange(b, b + l.len()));
    }
}

/// An occurrence of `p` in `s` is one in `s + b`.
proof fn lemma_occurs_before(s: Seq<char>, b: Seq<char>, p: Seq<char>, i: int)
    requires
        occurs_at(s, p, i),
    ensures
        occurs_at(s + b, p, i),
{
    assert((s + b).subrange(i, i + p.len()) =~= s.subrange(i, i + p.len()));
}

/// The sample line of a one-sample metric occurs in its block.
proof fn lemma_single_block_line(help: Seq<char>, kind: Seq<char>, sample: Seq<char>, value: u64)
    ensures
        occurs_at(
            single_block(help, kind, sample, value),
            sample + decimal(value as nat) + "\n"@,
            (help + kind).len() as int,
        ),
{
    let line = sample + decimal(value as nat) + "\n"@;
    assert(occurs_at(line, line, 0)) by {
        assert(line.subrange(0, line.len() as int) =~= line);
    }
    lemma_occurs_within(help + kind, line, "\n"@, line, 0);
}

/// The Prometheus text holds the request and error totals, one line per
/// worker with its request count and one with its memory, in index order
/// (see `lemma_worker_lines_in_order`), and one liveness line per worker
/// (see `lemma_alive_lines_in_order`).
pub proof fn lemma_prometheus_lines(
    uptime: u64,
    total_requests: u64,
    total_errors: u64,
    requests: Seq<u64>,
    memory: Seq<u64>,
    workers: Seq<(Seq<char>, usize, bool)>,
)
    ensures
        contains_seq(
            prometheus_text(uptime, total_requests, total_errors, requests, memory, workers),
            "bakpiarun_requests_total "@ + decimal(total_requests as nat) + "\n"@,
        ),
        contains_seq(
            prometheus_text(uptime, total_requests, total_errors, requests, memory, workers),
            "bakpiarun_errors_total "@ + decimal(total_errors as nat) + "\n"@,
        ),
        forall|i: nat|
            i < requests.len() ==> contains_seq(
                prometheus_text(uptime, total_requests, total_errors, requests, memory, workers),
                #[trigger] worker_line("bakpiarun_worker_requests_total"@, i, requests[i as int]),
            ),
        forall|i: nat|
            i < memory.len() ==> contains_seq(
                prometheus_text(uptime, total_requests, total_errors, requests, memory, workers),
                #[trigger] worker_line("bakpiarun_worker_memory_bytes"@, i, memory[i as int]),
            ),
        forall|i: int|
            0 <= i < workers.len() ==> contains_seq(
                prometheus_text(uptime, total_requests, total_errors, requests, memory, workers),
                #[trigger] alive_line(workers[i]),
            ),
{
    let b1 = single_block(
        "# HELP bakpiarun_uptime_seconds Server uptime in seconds\n"@,
        "# TYPE bakpiarun_uptime_seconds gauge\n"@,
        "bakpiarun_uptime_seconds "@,
        uptime,
    );
    let h2 = "# HELP bakpiarun_requests_total Total number of requests\n"@;
    let t2 = "# TYPE bakpiarun_requests_total counter\n"@;
    let b2 = single_block(h2, t2, "bakpiarun_requests_total "@, total_requests);
    let h3 = "# HELP bakpiarun_errors_total Total number of errors\n"@;
    let t3 = "# TYPE bakpiarun_errors_total counter\n"@;
    let b3 = single_block(h3, t3, "bakpiarun_errors_total "@, total_errors);
    let h4 = "# HELP bakpiarun_worker_requests_total Requests per worker\n"@;
    let t4 = "# TYPE bakpiarun_worker_requests_total counter\n"@;
    let wr = worker_lines("bakpiarun_worker_requests_total"@, requests);
    let b4 = series_block(h4, t4, wr);
    let h5 = "# HELP bakpiarun_worker_memory_bytes Memory usage per worker\n"@;
    let t5 = "# TYPE bakpiarun_worker_memory_bytes gauge\n"@;
    let wm = worker_lines("bakpiarun_worker_memory_bytes"@, memory);
    let b5 = series_block(h5, t5, wm);
    let h6 = "# HELP bakpiarun_worker_alive Worker alive status\n"@;
    let t6 = "# TYPE bakpiarun_worker_alive gauge\n"@;
    let al = alive_lines(workers);
    let text = prometheus_text(uptime, total_requests, total_errors, requests, memory, workers);
    assert(text == b1 + b2 + b3 + b4 + b5 + h6 + t6 + al);

    let req_line = "bakpiarun_requests_total "@ + decimal(total_requests as nat) + "\n"@;
    lemma_single_block_line(h2, t2, "bakpiarun_requests_total "@, total_requests);
    lemma_occurs_within(b1, b2, Seq::<char>::empty(), req_line, (h2 + t2).len() as int);
    assert(b1 + b2 + Seq::<char>::empty() =~= b1 + b2);
    let k: int = (b1.len() + (h2 + t2).len()) as int;
    lemma_occurs_before(b1 + b2, b3, req_line, k);
    lemma_occurs_before(b1 + b2 + b3, b4, req_line, k);
    lemma_occurs_before(b1 + b2 + b3 + b4, b5, req_line, k);
    lemma_occurs_before(b1 + b2 + b3 + b4 + b5, h6, req_line, k);
    lemma_occurs_before(b1 + b2 + b3 + b4 + b5 + h6, t6, req_line, k);
    lemma_occurs_before(b1 + b2 + b3 + b4 + b5 + h6 + t6, al, req_line, k);

    let err_line = "bakpiarun_errors_total "@ + decimal(total_errors as nat) + "\n"@;
    lemma_single_block_line(h3, t3, "bakpiarun_errors_total "@, total_errors);
    lemma_occurs_within(b1 + b2, b3, Seq::<char>::empty(), err_line, (h3 + t3).len() as int);
    assert(b1 + b2 + b3 + Seq::<char>::empty() =~= b1 + b2 + b3);
    let m: int = ((b1 + b2).len() + (h3 + t3).len()) as int;
    lemma_occurs_before(b1 + b2 + b3, b4, err_line, m);
    lemma_occurs_before(b1 + b2 + b3 + b4, b5, err_line, m);
    lemma_occurs_before(b1 + b2 + b3 + b4 + b5, h6, err_line, m);
    lemma_occurs_before(b1 + b2 + b3 + b4 + b5 + h6, t6, err_line, m);
    lemma_occurs_before(b1 + b2 + b3 + b4 + b5 + h6 + t6, al, err_line, m);

    assert forall|i: nat| i < requests.len() implies contains_seq(
        text,
        #[trigger] worker_line("bakpiarun_worker_requests_total"@, i, requests[i as int]),
    ) by {
        lemma_worker_line_occurs("bakpiarun_worker_requests_total"@, requests, i);
        let l = worker_line("bakpiarun_worker_requests_total"@, i, requests[i as int]);
        let off = worker_lines("bakpiarun_worker_requests_total"@, requests.take(i as int)).len() as int;
        lemma_occurs_within(h4 + t4, wr, "\n"@, l, off);
        let j: int = (h4 + t4).len() + off;
        lemma_occurs_within(b1 + b2 + b3, b4, Seq::<char>::empty(), l, j);
        assert(b1 + b2 + b3 + b4 + Seq::<char>::empty() =~= b1 + b2 + b3 + b4);
        let q: int = (b1 + b2 + b3).len() + j;
        lemma_occurs_before(b1 + b2 + b3 + b4, b5, l, q);
        lemma_occurs_before(b1 + b2 + b3 + b4 + b5, h6, l, q);
        lemma_occurs_before(b1 + b2 + b3 + b4 + b5 + h6, t6, l, q);
        lemma_occurs_before(b1 + b2 + b3 + b4 + b5 + h6 + t6, al, l, q);
    }
    assert forall|i: nat| i < memory.len() implies contains_seq(
        text,
        #[trigger] worker_line("bakpiarun_worker_memory_bytes"@, i, memory[i as int]),
    ) by {
        lemma_worker_line_occurs("bakpiarun_worker_memory_bytes"@, memory, i);
        let l = worker_line("bakpiarun_worker_memory_bytes"@, i, memory[i as int]);
        let off = worker_lines("bakpiarun_worker_memory_bytes"@, memory.take(i as int)).len() as int;
        lemma_occurs_within(h5 + t5, wm, "\n"@, l, off);
        let j: int = (h5 + t5).len() + off;
        lemma_occurs_within(b1 + b2 + b3 + b4, b5, Seq::<char>::empty(), l, j);
        assert(b1 + b2 + b3 + b4 + b5 + Seq::<char>::empty() =~= b1 + b2 + b3 + b4 + b5);
        let q: int = (b1 + b2 + b3 + b4).len() + j;
        lemma_occurs_before(b1 + b2 + b3 + b4 + b5, h6, l, q);
        lemma_occurs_before(b1 + b2 + b3 + b4 + b5 + h6, t6, l, q);
        lemma_occurs_before(b1 + b2 + b3 + b4 + b5 + h6 + t6, al, l, q);
    }
    assert forall|i: int| 0 <= i < workers.len() implies contains_seq(
        text,
        #[trigger] alive_line(workers[i]),
    ) by {
        lemma_alive_lines_in_order(workers, i as nat);
        let off = alive_lines(workers.take(i)).len() as int;
        lemma_occurs_within(b1 + b2 + b3 + b4 + b5 + h6 + t6, al, Seq::<char>::empty(), alive_line(workers[i]), off);
        assert(b1 + b2 + b3 + b4 + b5 + h6 + t6 + al + Seq::<char>::empty() =~= b1 + b2 + b3 + b4 + b5 + h6 + t6 + al);
    }
}

/// Liveness entries as texts.
pub open spec fn alive_texts(w: Seq<(String, usize, bool)>) -> Seq<(Seq<char>, usize, bool)> {
    w.map_values(|e: (String, usize, bool)| (e.0@, e.1, e.2))
}

/// Appends the liveness lines of the workers.
fn push_alive_lines(s: &mut String, workers: &[(String, usize, bool)])
    ensures
        final(s)@ == old(s)@ + alive_lines(alive_texts(workers@)),
{
    let ghost head = s@;
    let n = workers.len();
    assert(alive_texts(workers@).take(0) =~= Seq::<(Seq<char>, usize, bool)>::empty());
    assert(head + alive_lines(Seq::<(Seq<char>, usize, bool)>::empty()) =~= head);
    for i in 0..n
        invariant
            n == workers@.len(),
            s@ == head + alive_lines(alive_texts(workers@).take(i as int)),
    {
        let ghost before = s@;
        push_str(s, "bakpiarun_worker_alive{pool=\"");
        push_str(s, workers[i].0.as_str());
        push_str(s, "\",worker=\"");
        push_decimal(s, workers[i].1 as u64);
        push_str(s, "\"} ");
        if workers[i].2 {
            push_str(s, "1");
        } else {
            push_str(s, "0");
        }
        push_str(s, "\n");
        proof {
            let e = (workers@[i as int].0@, workers@[i as int].1, workers@[i as int].2);
            let t = alive_texts(workers@).take(i + 1);
            let prev = alive_texts(workers@).take(i as int);
            assert(s@ =~= before + alive_line(e));
            assert(t.drop_last() =~= prev);
            assert(t.last() == e);
            assert(alive_lines(t) =~= alive_lines(prev) + alive_line(e));
            assert(s@ =~= head + alive_lines(t));
        }
    }
    assert(alive_texts(workers@).take(n as int) =~= alive_texts(workers@));
}

/// Appends the per-worker lines of one metric.
fn push_worker_lines(s: &mut String, name: &str, values: &Vec<u64>)
    ensures
        final(s)@ == old(s)@ + worker_lines(name@, values@),
{
    let n = values.len();
    for i in 0..n
        invariant
            n == values@.len(),
            s@ == old(s)@ + worker_lines(name@, values@.take(i as int)),
    {
        push_str(s, name);
        push_str(s, "{worker=\"");
        push_decimal(s, i as u64);
        push_str(s, "\"} ");
        push_decimal(s, values[i]);
        push_str(s, "\n");
        proof {
            let t = values@.take(i + 1);
            assert(t.drop_last() =~= values@.take(i as int));
            assert(t.last() == values@[i as int]);
            assert(s@ =~= old(s)@ + worker_lines(name@, t));
        }
    }
    assert(values@.take(n as int) =~= values@);
}

impl Metrics {
    /// The two per-worker tables have one entry per worker.
    pub open spec fn wf(&self) -> bool {
        self.requests_per_worker@.len() == self.memory_per_worker@.len()
    }

    /// Zeroed counters for `worker_count` workers, started now.
    pub fn new(worker_count: usize) -> (r: Self)
        ensures
            r.wf(),
            r.total_requests == 0,
            r.total_errors == 0,
            r.requests_per_worker@ == Seq::new(worker_count as nat, |i: int| 0u64),
            r.memory_per_worker@ == Seq::new(worker_count as nat, |i: int| 0u64),
    {
        let requests_per_worker: Vec<u64> = vec![0; worker_count];
        let memory_per_worker: Vec<u64> = vec![0; worker_count];
        assert(requests_per_worker@ =~= Seq::new(worker_count as nat, |i: int| 0u64));
        assert(memory_per_worker@ =~= Seq::new(worker_count as nat, |i: int| 0u64));
        Metrics {
            total_requests: 0,
            total_errors: 0,
            start_time: instant_now(),
            requests_per_worker,
            memory_per_worker,
        }
    }

    /// Counts a handled request; a known worker's count goes up and its
    /// memory figure is replaced.
    pub fn record_request(&mut self, worker_index: usize, memory: u64)
        requires
            old(self).wf(),
            old(self).total_requests < u64::MAX,
            worker_index < old(self).requests_per_worker@.len() ==> old(
                self,
            ).requests_per_worker@[worker_index as int] < u64::MAX,
        ensures
            final(self).wf(),
            final(self).total_requests == old(self).total_requests + 1,
            final(self).total_errors == old(self).total_errors,
            final(self).start_time == old(self).start_time,
            worker_index < old(self).requests_per_worker@.len() ==> {
                &&& final(self).requests_per_worker@ == old(self).requests_per_worker@.update(
                    worker_index as int,
                    (old(self).requests_per_worker@[worker_index as int] + 1) as u64,
                )
                &&& final(self).memory_per_worker@ == old(self).memory_per_worker@.update(
                    worker_index as int,
                    memory,
                )
            },
            worker_index >= old(self).requests_per_worker@.len() ==> {
                &&& final(self).requests_per_worker@ == old(self).requests_per_worker@
                &&& final(self).memory_per_worker@ == old(self).memory_per_worker@
            },
    {
        self.total_requests = self.total_requests + 1;
        if worker_index < self.requests_per_worker.len() {
            let c = self.requests_per_worker[worker_index];
            self.requests_per_worker.set(worker_index, c + 1);
            self.memory_per_worker.set(worker_index, memory);
        }
    }

    /// Counts an error.
    pub fn record_error(&mut self)
        requires
            old(self).total_errors < u64::MAX,
        ensures
            final(self).total_errors == old(self).total_errors + 1,
            final(self).total_requests == old(self).total_requests,
            final(self).start_time == old(self).start_time,
            final(self).requests_per_worker == old(self).requests_per_worker,
            final(self).memory_per_worker == old(self).memory_per_worker,
    {
        self.total_errors = self.total_errors + 1;
    }

    /// Whole seconds since the counters were created.
    pub fn uptime_seconds(&self) -> u64 {
        elapsed_secs(&self.start_time)
    }

    /// The Prometheus exposition (see `prometheus_text`).
    #[verifier::spinoff_prover]
    pub fn render_prometheus(&self, uptime: u64, workers: &[(String, usize, bool)]) -> (r: String)
        ensures
            r@ == prometheus_text(
                uptime,
                self.total_requests,
                self.total_errors,
                self.requests_per_worker@,
                self.memory_per_worker@,
                alive_texts(workers@),
            ),
    {
        let mut s = String::new();
        push_str(&mut s, "# HELP bakpiarun_uptime_seconds Server uptime in seconds\n");
        push_str(&mut s, "# TYPE bakpiarun_uptime_seconds gauge\n");
        push_str(&mut s, "bakpiarun_uptime_seconds ");
        push_decimal(&mut s, uptime);
        push_str(&mut s, "\n");
        push_str(&mut s, "\n");
        let ghost b1 = single_block(
            "# HELP bakpiarun_uptime_seconds Server uptime in seconds\n"@,
            "# TYPE bakpiarun_uptime_seconds gauge\n"@,
            "bakpiarun_uptime_seconds "@,
            uptime,
        );
        assert(s@ =~= b1);
        push_str(&mut s, "# HELP bakpiarun_requests_total Total number of requests\n");
        push_str(&mut s, "# TYPE bakpiarun_requests_total counter\n");
        push_str(&mut s, "bakpiarun_requests_total ");
        push_decimal(&mut s, self.total_requests);
        push_str(&mut s, "\n");
        push_str(&mut s, "\n");
        let ghost b2 = single_block(
            "# HELP bakpiarun_requests_total Total number of requests\n"@,
            "# TYPE bakpiarun_requests_total counter\n"@,
            "bakpiarun_requests_total "@,
            self.total_requests,
        );
        assert(s@ =~= b1 + b2);
        push_str(&mut s, "# HELP bakpiarun_errors_total Total number of errors\n");
        push_str(&mut s, "# TYPE bakpiarun_errors_total counter\n");
        push_str(&mut s, "bakpiarun_errors_total ");
        push_decimal(&mut s, self.total_errors);
        push_str(&mut s, "\n");
        push_str(&mut s, "\n");
        let ghost b3 = single_block(
            "# HELP bakpiarun_errors_total Total number of errors\n"@,
            "# TYPE bakpiarun_errors_total counter\n"@,
            "bakpiarun_errors_total "@,
            self.total_errors,
        );
        assert(s@ =~= b1 + b2 + b3);
        push_str(&mut s, "# HELP bakpiarun_worker_requests_total Requests per worker\n");
        push_str(&mut s, "# TYPE bakpiarun_worker_requests_total counter\n");
        push_worker_lines(&mut s, "bakpiarun_worker_requests_total", &self.requests_per_worker);
        push_str(&mut s, "\n");
        let ghost b4 = series_block(
            "# HELP bakpiarun_worker_requests_total Requests per worker\n"@,
            "# TYPE bakpiarun_worker_requests_total counter\n"@,
            worker_lines("bakpiarun_worker_requests_total"@, self.requests_per_worker@),
        );
        assert(s@ =~= b1 + b2 + b3 + b4);
        push_str(&mut s, "# HELP bakpiarun_worker_memory_bytes Memory usage per worker\n");
        push_str(&mut s, "# TYPE bakpiarun_worker_memory_bytes gauge\n");
        push_worker_lines(&mut s, "bakpiarun_worker_memory_bytes", &self.memory_per_worker);
        push_str(&mut s, "\n");
        let ghost b5 = series_block(
            "# HELP bakpiarun_worker_memory_bytes Memory usage per worker\n"@,
            "# TYPE bakpiarun_worker_memory_bytes gauge\n"@,
            worker_lines("bakpiarun_worker_memory_bytes"@, self.memory_per_worker@),
        );
        assert(s@ =~= b1 + b2 + b3 + b4 + b5);
        push_str(&mut s, "# HELP bakpiarun_worker_alive Worker alive status\n");
        push_str(&mut s, "# TYPE bakpiarun_worker_alive gauge\n");
        push_alive_lines(&mut s, workers);
        proof {
            assert(s@ == prometheus_text(
                uptime,
                self.total_requests,
                self.total_errors,
                self.requests_per_worker@,
                self.memory_per_worker@,
                alive_texts(workers@),
            ));
        }
        s
    }
}

/// Worker counts behind the health report.
pub struct HealthSummary {
    pub total_workers: usize,
    pub healthy_workers: usize,
    /// Every worker is alive.
    pub healthy: bool,
}

/// Number of `true` entries.
pub open spec fn count_true(s: Seq<bool>) -> nat
    decreases s.len(),
{
    if s.len() == 0 {
        0
    } else {
        count_true(s.drop_last()) + if s.last() {
            1nat
        } else {
            0nat
        }
    }
}

/// Summarises the liveness of all workers (of all pools).
pub fn health_summary(alive: &[bool]) -> (r: HealthSummary)
    ensures
        r.total_workers == alive@.len(),
        r.healthy_workers == count_true(alive@),
        r.healthy == (count_true(alive@) == alive@.len()),
{
    let n = alive.len();
    let mut healthy: usize = 0;
    for i in 0..n
        invariant
            n == alive@.len(),
            healthy == count_true(alive@.take(i as int)),
            healthy <= i,
    {
        proof {
            let t = alive@.take(i + 1);
            assert(t.drop_last() =~= alive@.take(i as int));
        }
        if alive[i] {
            healthy = healthy + 1;
        }
    }
    assert(alive@.take(n as int) =~= alive@);
    HealthSummary { total_workers: n, healthy_workers: healthy, healthy: healthy == n }
}

/// The health status word: `healthy` or `unhealthy`.
pub fn health_status(healthy: bool) -> (r: &'static str)
    ensures
        r@ == (if healthy {
            "healthy"@
        } else {
            "unhealthy"@
        }),
{
    if healthy {
        "healthy"
    } else {
        "unhealthy"
    }
}

/// A worker's memory figure in whole megabytes.
pub fn memory_mb(bytes: u64) -> (r: u64)
    ensures
        r == bytes / 1024 / 1024,
{
    bytes / 1024 / 1024
}

} // verus!
