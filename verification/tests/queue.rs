use bakpiarun::queue::{JobQueue, JobStatus};

#[test]
fn submitted_job_is_pending_and_queued() {
    let mut q: JobQueue<u32> = JobQueue::new();
    let id = q.submit("send_welcome_email".to_string(), 5).unwrap();
    let job = q.get_status(&id).unwrap();
    assert_eq!(job.id, id);
    assert_eq!(job.task, "send_welcome_email");
    assert_eq!(job.payload, 5);
    assert_eq!(job.status, JobStatus::Pending);
    assert_eq!(job.completed_at, None);
    assert_eq!(job.result, None);
    assert_eq!(q.queue, vec![id.clone()]);
    assert!(q.get_status("missing").is_none());
}

#[test]
fn jobs_come_out_in_order() {
    let mut q: JobQueue<u32> = JobQueue::new();
    let a = q.submit_with("a".to_string(), "t0".to_string(), "x".to_string(), 1);
    let b = q.submit_with("b".to_string(), "t1".to_string(), "y".to_string(), 2);
    assert_eq!(q.dequeue(), Some(a));
    assert_eq!(q.dequeue(), Some(b));
    assert_eq!(q.dequeue(), None);
}

#[test]
fn job_lifecycle() {
    let mut q: JobQueue<u32> = JobQueue::new();
    q.submit_with("a".to_string(), "t0".to_string(), "x".to_string(), 1);
    q.submit_with("b".to_string(), "t1".to_string(), "y".to_string(), 2);
    assert_eq!(q.start_next(), Some("a".to_string()));
    assert_eq!(q.get_status("a").unwrap().status, JobStatus::Processing);
    q.mark_completed_at("a", 99, "t2".to_string());
    let a = q.get_status("a").unwrap();
    assert_eq!(a.status, JobStatus::Completed);
    assert_eq!(a.result, Some(99));
    assert_eq!(a.completed_at, Some("t2".to_string()));
    q.mark_failed_at("b", "boom".to_string(), "t3".to_string());
    let b = q.get_status("b").unwrap();
    assert_eq!(b.status, JobStatus::Failed("boom".to_string()));
    assert_eq!(b.result, None);
    assert_eq!(b.completed_at, Some("t3".to_string()));
    q.mark_processing("nope");
    assert!(q.get_status("nope").is_none());
}

#[test]
fn resubmitting_an_id_replaces_the_job() {
    let mut q: JobQueue<u32> = JobQueue::new();
    q.submit_with("a".to_string(), "t0".to_string(), "x".to_string(), 1);
    q.submit_with("a".to_string(), "t1".to_string(), "z".to_string(), 3);
    assert_eq!(q.jobs.len(), 1);
    assert_eq!(q.get_status("a").unwrap().task, "z");
}

#[test]
fn timestamps_filled_in() {
    let mut q: JobQueue<u32> = JobQueue::new();
    let id = q.submit("t".to_string(), 0).unwrap();
    assert!(q.get_status(&id).unwrap().created_at.len() > 10);
    q.mark_completed(&id, 1);
    assert!(q.get_status(&id).unwrap().completed_at.is_some());
    assert_ne!(q.submit("t".to_string(), 0).unwrap(), id);
}
