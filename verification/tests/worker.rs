use bakpiarun::worker::{Worker, WorkerPool};

#[test]
fn new_worker_is_idle() {
    let w: Worker<u32, ()> = Worker::new(2, "/tmp/w.sock".to_string(), 4, ());
    assert_eq!(w.index, 2);
    assert!(w.process.is_none());
    assert!(!w.is_alive());
    assert_eq!((w.requests_handled, w.last_memory, w.last_peak, w.pool_size), (0, 0, 0, 4));
}

#[test]
fn restart_reasons() {
    let mut w: Worker<u32, ()> = Worker::new(1, "s".to_string(), 1, ());
    assert_eq!(w.should_restart(128, 1000), None);
    w.update_stats(200 * 1024 * 1024, 250 * 1024 * 1024);
    assert_eq!(w.requests_handled, 1);
    assert_eq!(w.last_peak, 250 * 1024 * 1024);
    assert_eq!(
        w.should_restart(128, 1000),
        Some("Worker #1: Memory limit exceeded (200 MB > 128 MB)".to_string())
    );
    assert_eq!(
        w.should_restart(512, 1),
        Some("Worker #1: Max requests reached (1 >= 1)".to_string())
    );
    w.update_stats(128 * 1024 * 1024, 0);
    assert_eq!(
        w.should_restart(128, 1000),
        Some("Worker #1: Memory limit exceeded (128 MB > 128 MB)".to_string())
    );
    w.update_stats(128 * 1024 * 1024 - 1, 0);
    assert_eq!(w.should_restart(128, 1000), None);
}

#[test]
fn started_and_stopped_processes() {
    let mut w: Worker<u32, ()> = Worker::new(0, "s".to_string(), 1, ());
    w.update_stats(1, 1);
    w.record_started(77);
    assert!(w.is_alive());
    assert_eq!(w.requests_handled, 0);
    assert_eq!(w.take_process(), Some(77));
    assert!(!w.is_alive());
    assert_eq!(w.take_process(), None);
}

#[test]
fn round_robin_cycles() {
    let mut p = WorkerPool::new(vec!['a', 'b', 'c'], 128, 1000, 30000);
    let picks: Vec<usize> = (0..7).map(|_| p.get_next_worker()).collect();
    assert_eq!(picks, vec![0, 1, 2, 0, 1, 2, 0]);
    assert!(p.must_rebuild(4));
    assert!(!p.must_rebuild(3));
    p.replace_workers(vec!['x']);
    assert_eq!(p.get_next_worker(), 0);
}

#[test]
fn round_robin_successive_picks() {
    let mut p = WorkerPool::new(vec![10, 20, 30, 40], 128, 1000, 30000);
    p.current_index = 6;
    let picks: Vec<usize> = (0..8).map(|_| p.get_next_worker()).collect();
    assert_eq!(picks, vec![2, 3, 0, 1, 2, 3, 0, 1]);
    let mut round = picks[..4].to_vec();
    round.sort();
    assert_eq!(round, vec![0, 1, 2, 3]);
    assert_eq!(p.current_index, 14);
}
