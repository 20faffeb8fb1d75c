//! The background job queue: jobs by id with their status, and the FIFO
//! order in which pending jobs are handed to the queue worker.

use vstd::prelude::*;
use crate::clock::{now_rfc3339, rfc3339_text};
use crate::text::{fresh_id, str_eq};
use std::collections::VecDeque;

verus! {

/// Where a job stands.
#[derive(Debug, Clone, PartialEq)]
pub enum JobStatus {
    Pending,
    Processing,
    Completed,
    Failed(String),
}

/// A job: its task name and payload, status and timestamps, and result.
#[derive(Debug)]
pub struct Job<V> {
    pub id: String,
    pub task: String,
    pub payload: V,
    pub status: JobStatus,
    pub created_at: String,
    pub completed_at: Option<String>,
    pub result: Option<V>,
}

/// The job queue.
pub struct JobQueue<V> {
    /// The jobs; no id occurs twice.
    pub jobs: Vec<Job<V>>,
    /// Ids of the jobs not yet handed out, oldest first.
    pub queue: VecDeque<String>,
}

/// The job with the given id (the last one, should an id occur twice).
pub open spec fn lookup<V>(jobs: Seq<Job<V>>, id: Seq<char>) -> Option<Job<V>>
    decreases jobs.len(),
{
    if jobs.len() == 0 {
        None
    } else if jobs.last().id@ == id {
        Some(jobs.last())
    } else {
        lookup(jobs.drop_last(), id)
    }
}

/// No id occurs twice.
pub open spec fn unique_ids<V>(jobs: Seq<Job<V>>) -> bool {
    forall|i: int, j: int|
        0 <= i < j < jobs.len() ==> #[trigger] jobs[i].id@ != #[trigger] jobs[j].id@
}

/// With unique ids, the job at `i` is the one found under its id.
pub proof fn lemma_lookup_at<V>(jobs: Seq<Job<V>>, i: int)
    requires
        unique_ids(jobs),
        0 <= i < jobs.len(),
    ensures
        lookup(jobs, jobs[i].id@) == Some(jobs[i]),
    decreases jobs.len(),
{
    if i < jobs.len() - 1 {
        let t = jobs.drop_last();
        assert(jobs.last().id@ != jobs[i].id@);
        assert(t[i] == jobs[i]);
        lemma_lookup_at(t, i);
    }
}

/// An id that no job has is not found.
pub proof fn lemma_lookup_absent<V>(jobs: Seq<Job<V>>, id: Seq<char>)
    requires
        forall|i: int| 0 <= i < jobs.len() ==> #[trigger] jobs[i].id@ != id,
    ensures
        lookup(jobs, id) is None,
    decreases jobs.len(),
{
    if jobs.len() > 0 {
        let t = jobs.drop_last();
        assert forall|i: int| 0 <= i < t.len() implies #[trigger] t[i].id@ != id by {
            assert(t[i] == jobs[i]);
        }
        lemma_lookup_absent(t, id);
    }
}

/// Replacing the job at `i` by one with the same id changes only what is
/// found under that id.
pub proof fn lemma_lookup_update<V>(jobs: Seq<Job<V>>, i: int, job: Job<V>, id: Seq<char>)
    requires
        unique_ids(jobs),
        0 <= i < jobs.len(),
        job.id@ == jobs[i].id@,
    ensures
        unique_ids(jobs.update(i, job)),
        lookup(jobs.update(i, job), id) == (if id == job.id@ {
            Some(job)
        } else {
            lookup(jobs, id)
        }),
    decreases jobs.len(),
{
    let u = jobs.update(i, job);
    assert forall|a: int, b: int| 0 <= a < b < u.len() implies #[trigger] u[a].id@ != #[trigger] u[b].id@ by {
        assert(jobs[a].id@ != jobs[b].id@);
    }
    if i == jobs.len() - 1 {
        assert(u.drop_last() =~= jobs.drop_last());
    } else {
        let t = jobs.drop_last();
        assert(u.drop_last() =~= t.update(i, job));
        assert(jobs.last().id@ != jobs[i].id@);
        assert(unique_ids(t)) by {
            assert forall|a: int, b: int| 0 <= a < b < t.len() implies #[trigger] t[a].id@ != #[trigger] t[b].id@ by {
                assert(t[a] == jobs[a] && t[b] == jobs[b]);
            }
        }
        lemma_lookup_update(t, i, job, id);
    }
}

impl<V> JobQueue<V> {
    /// Job ids are unique.
    pub open spec fn wf(&self) -> bool {
        unique_ids(self.jobs@)
    }

    /// An empty queue.
    pub fn new() -> (r: Self)
        ensures
            r.wf(),
            r.jobs@.len() == 0,
            r.queue@.len() == 0,
    {
        JobQueue { jobs: Vec::new(), queue: VecDeque::new() }
    }

    /// Position of the job with the given id.
    fn find(&self, id: &str) -> (r: Option<usize>)
        requires
            self.wf(),
        ensures
            match r {
                Some(i) => i < self.jobs@.len() && self.jobs@[i as int].id@ == id@,
                None => forall|i: int| 0 <= i < self.jobs@.len() ==> #[trigger] self.jobs@[i].id@ != id@,
            },
    {
        let n = self.jobs.len();
        for i in 0..n
            invariant
                n == self.jobs@.len(),
                forall|j: int| 0 <= j < i ==> #[trigger] self.jobs@[j].id@ != id@,
        {
            if str_eq(self.jobs[i].id.as_str(), id) {
                return Some(i);
            }
        }
        None
    }

    /// Stores a pending job under `id` (replacing a job with that id) and
    /// queues the id.
    pub fn submit_with(&mut self, id: String, created_at: String, task: String, payload: V) -> (r: String)
        requires
            old(self).wf(),
        ensures
            final(self).wf(),
            r@ == id@,
            lookup(final(self).jobs@, id@) == Some(
                Job {
                    id,
                    task,
                    payload,
                    status: JobStatus::Pending,
                    created_at,
                    completed_at: None,
                    result: None,
                },
            ),
            forall|other: Seq<char>|
                other != id@ ==> lookup(final(self).jobs@, other) == lookup(old(self).jobs@, other),
            final(self).queue@.len() == old(self).queue@.len() + 1,
            forall|k: int| 0 <= k < old(self).queue@.len() ==> #[trigger] final(self).queue@[k] == old(self).queue@[k],
            final(self).queue@.last()@ == id@,
    {
        let key = id.clone();
        let ret = id.clone();
        let job = Job {
            id,
            task,
            payload,
            status: JobStatus::Pending,
            created_at,
            completed_at: None,
            result: None,
        };
        let ghost job_g = job;
        match self.find(key.as_str()) {
            Some(i) => {
                let ghost before = self.jobs@;
                self.jobs.set(i, job);
                proof {
                    assert forall|other: Seq<char>| other != job_g.id@ implies lookup(self.jobs@, other) == lookup(before, other) by {
                        lemma_lookup_update(before, i as int, job_g, other);
                    }
                    lemma_lookup_update(before, i as int, job_g, job_g.id@);
                }
            },
            None => {
                let ghost before = self.jobs@;
                self.jobs.push(job);
                proof {
                    assert(self.jobs@.drop_last() =~= before);
                    assert forall|a: int, b: int| 0 <= a < b < self.jobs@.len() implies #[trigger] self.jobs@[a].id@ != #[trigger] self.jobs@[b].id@ by {
                        if b < before.len() {
                            assert(before[a].id@ != before[b].id@);
                        }
                    }
                }
            },
        }
        self.queue.push_back(key);
        ret
    }

    /// Submits a job under a fresh random id, timestamped now; returns the
    /// id. When the clock cannot be read, nothing is submitted and the
    /// answer is `None`.
    pub fn submit(&mut self, task: String, payload: V) -> (r: Option<String>)
        requires
            old(self).wf(),
        ensures
            final(self).wf(),
            r is None ==> final(self).jobs@ == old(self).jobs@ && final(self).queue@ == old(self).queue@,
            r matches Some(id) ==> (lookup(final(self).jobs@, id@) matches Some(j) && j.id@ == id@
                && j.task == task && j.payload == payload && j.status == JobStatus::Pending
                && j.completed_at is None && j.result is None
                && exists|secs: int, nanos: nat| rfc3339_text(secs, nanos) == Some(j.created_at@)),
            r matches Some(id) ==> (forall|other: Seq<char>|
                other != id@ ==> lookup(final(self).jobs@, other) == lookup(old(self).jobs@, other)),
            r matches Some(id) ==> final(self).queue@.len() == old(self).queue@.len() + 1,
            r matches Some(id) ==> (forall|k: int| 0 <= k < old(self).queue@.len() ==> #[trigger] final(self).queue@[k] == old(self).queue@[k]),
            r matches Some(id) ==> final(self).queue@.last()@ == id@,
    {
        match now_rfc3339() {
            None => None,
            Some(now) => {
                let id = fresh_id();
                Some(self.submit_with(id, now, task, payload))
            },
        }
    }

    /// The job with the given id.
    pub fn get_status(&self, id: &str) -> (r: Option<&Job<V>>)
        requires
            self.wf(),
        ensures
            match r {
                Some(j) => lookup(self.jobs@, id@) == Some(*j),
                None => lookup(self.jobs@, id@) is None,
            },
    {
        match self.find(id) {
            Some(i) => {
                proof {
                    lemma_lookup_at(self.jobs@, i as int);
                }
                Some(&self.jobs[i])
            },
            None => {
                proof {
                    lemma_lookup_absent(self.jobs@, id@);
                }
                None
            },
        }
    }

    /// Hands out the oldest queued id.
    pub fn dequeue(&mut self) -> (r: Option<String>)
        ensures
            final(self).jobs == old(self).jobs,
            old(self).queue@.len() == 0 ==> r is None && final(self).queue@ == old(self).queue@,
            old(self).queue@.len() > 0 ==> r == Some(old(self).queue@[0]) && final(self).queue@
                == old(self).queue@.drop_first(),
    {
        let r = self.queue.pop_front();
        proof {
            if old(self).queue@.len() > 0 {
                assert(self.queue@ =~= old(self).queue@.drop_first());
            }
        }
        r
    }

    /// Takes the oldest queued id and marks its job as being processed.
    pub fn start_next(&mut self) -> (r: Option<String>)
        requires
            old(self).wf(),
        ensures
            final(self).wf(),
            old(self).queue@.len() == 0 ==> r is None && final(self).queue@ == old(self).queue@
                && final(self).jobs == old(self).jobs,
            old(self).queue@.len() > 0 ==> r == Some(old(self).queue@[0]) && final(self).queue@
                == old(self).queue@.drop_first(),
            r matches Some(id) ==> (forall|other: Seq<char>|
                other != id@ ==> lookup(final(self).jobs@, other) == lookup(old(self).jobs@, other)),
            r matches Some(id) ==> match lookup(old(self).jobs@, id@) {
                None => lookup(final(self).jobs@, id@) is None,
                Some(j) => lookup(final(self).jobs@, id@) == Some(Job { status: JobStatus::Processing, ..j }),
            },
    {
        match self.dequeue() {
            None => None,
            Some(id) => {
                self.mark_processing(id.as_str());
                Some(id)
            },
        }
    }

    /// Sets the status of the job with the given id (no job, no change).
    fn set_status(&mut self, id: &str, status: JobStatus, completion: Option<(Option<V>, Option<String>)>)
        requires
            old(self).wf(),
        ensures
            final(self).wf(),
            final(self).queue == old(self).queue,
            forall|other: Seq<char>|
                other != id@ ==> lookup(final(self).jobs@, other) == lookup(old(self).jobs@, other),
            match lookup(old(self).jobs@, id@) {
                None => lookup(final(self).jobs@, id@) is None,
                Some(j) => lookup(final(self).jobs@, id@) == Some(
                    match completion {
                        None => Job { status, ..j },
                        Some((res, at)) => Job {
                            status,
                            completed_at: at,
                            result: match res {
                                Some(v) => Some(v),
                                None => j.result,
                            },
                            ..j
                        },
                    },
                ),
            },
    {
        match self.find(id) {
            None => {
                proof {
                    lemma_lookup_absent(self.jobs@, id@);
                    assert forall|other: Seq<char>| other != id@ implies lookup(self.jobs@, other) == lookup(old(self).jobs@, other) by {}
                }
            },
            Some(i) => {
                let ghost before = self.jobs@;
                proof {
                    lemma_lookup_at(before, i as int);
                }
                let ghost old_job = before[i as int];
                match completion {
                    None => {
                        self.jobs[i].status = status;
                    },
                    Some((res, at)) => {
                        self.jobs[i].status = status;
                        self.jobs[i].completed_at = at;
                        match res {
                            Some(v) => {
                                self.jobs[i].result = Some(v);
                            },
                            None => {},
                        }
                    },
                }
                proof {
                    let new_job = self.jobs@[i as int];
                    assert(self.jobs@ == before.update(i as int, new_job));
                    assert forall|other: Seq<char>| other != id@ implies lookup(self.jobs@, other) == lookup(before, other) by {
                        lemma_lookup_update(before, i as int, new_job, other);
                    }
                    lemma_lookup_update(before, i as int, new_job, id@);
                }
            },
        }
    }

    /// Marks a job as being processed.
    pub fn mark_processing(&mut self, id: &str)
        requires
            old(self).wf(),
        ensures
            final(self).wf(),
            final(self).queue == old(self).queue,
            forall|other: Seq<char>|
                other != id@ ==> lookup(final(self).jobs@, other) == lookup(old(self).jobs@, other),
            match lookup(old(self).jobs@, id@) {
                None => lookup(final(self).jobs@, id@) is None,
                Some(j) => lookup(final(self).jobs@, id@) == Some(Job { status: JobStatus::Processing, ..j }),
            },
    {
        self.set_status(id, JobStatus::Processing, None);
    }

    /// Marks a job as completed at `completed_at` with its result.
    pub fn mark_completed_at(&mut self, id: &str, result: V, completed_at: String)
        requires
            old(self).wf(),
        ensures
            final(self).wf(),
            final(self).queue == old(self).queue,
            forall|other: Seq<char>|
                other != id@ ==> lookup(final(self).jobs@, other) == lookup(old(self).jobs@, other),
            match lookup(old(self).jobs@, id@) {
                None => lookup(final(self).jobs@, id@) is None,
                Some(j) => lookup(final(self).jobs@, id@) == Some(
                    Job {
                        status: JobStatus::Completed,
                        completed_at: Some(completed_at),
                        result: Some(result),
                        ..j
                    },
                ),
            },
    {
        self.set_status(id, JobStatus::Completed, Some((Some(result), Some(completed_at))));
    }

    /// Marks a job as completed now with its result (with no completion
    /// time when the clock cannot be read).
    pub fn mark_completed(&mut self, id: &str, result: V)
        requires
            old(self).wf(),
        ensures
            final(self).wf(),
            final(self).queue == old(self).queue,
            forall|other: Seq<char>|
                other != id@ ==> lookup(final(self).jobs@, other) == lookup(old(self).jobs@, other),
            match lookup(old(self).jobs@, id@) {
                None => lookup(final(self).jobs@, id@) is None,
                Some(j) => lookup(final(self).jobs@, id@) matches Some(k) && k.status == JobStatus::Completed
                    && (k.completed_at matches Some(t) ==> exists|secs: int, nanos: nat|
                        rfc3339_text(secs, nanos) == Some(t@)) && k.result == Some(result) && k.id == j.id && k.task == j.task
                    && k.payload == j.payload && k.created_at == j.created_at,
            },
    {
        match now_rfc3339() {
            Some(now) => self.mark_completed_at(id, result, now),
            None => self.set_status(id, JobStatus::Completed, Some((Some(result), None))),
        }
    }

    /// Marks a job as failed at `completed_at` with the error.
    pub fn mark_failed_at(&mut self, id: &str, error: String, completed_at: String)
        requires
            old(self).wf(),
        ensures
            final(self).wf(),
            final(self).queue == old(self).queue,
            forall|other: Seq<char>|
                other != id@ ==> lookup(final(self).jobs@, other) == lookup(old(self).jobs@, other),
            match lookup(old(self).jobs@, id@) {
                None => lookup(final(self).jobs@, id@) is None,
                Some(j) => lookup(final(self).jobs@, id@) == Some(
                    Job { status: JobStatus::Failed(error), completed_at: Some(completed_at), ..j },
                ),
            },
    {
        self.set_status(id, JobStatus::Failed(error), Some((None, Some(completed_at))));
    }

    /// Marks a job as failed now with the error (with no completion time
    /// when the clock cannot be read).
    pub fn mark_failed(&mut self, id: &str, error: String)
        requires
            old(self).wf(),
        ensures
            final(self).wf(),
            final(self).queue == old(self).queue,
            forall|other: Seq<char>|
                other != id@ ==> lookup(final(self).jobs@, other) == lookup(old(self).jobs@, other),
            match lookup(old(self).jobs@, id@) {
                None => lookup(final(self).jobs@, id@) is None,
                Some(j) => lookup(final(self).jobs@, id@) matches Some(k) && k.status == JobStatus::Failed(error)
                    && (k.completed_at matches Some(t) ==> exists|secs: int, nanos: nat|
                        rfc3339_text(secs, nanos) == Some(t@)) && k.result == j.result && k.id == j.id && k.task == j.task
                    && k.payload == j.payload && k.created_at == j.created_at,
            },
    {
        match now_rfc3339() {
            Some(now) => self.mark_failed_at(id, error, now),
            None => self.set_status(id, JobStatus::Failed(error), Some((None, None))),
        }
    }
}

} // verus!
