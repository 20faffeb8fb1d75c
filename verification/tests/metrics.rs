use bakpiarun::metrics::{health_status, health_summary, memory_mb, Metrics};

#[test]
fn new_metrics_are_zero() {
    let m = Metrics::new(3);
    assert_eq!(m.total_requests, 0);
    assert_eq!(m.total_errors, 0);
    assert_eq!(m.requests_per_worker, vec![0, 0, 0]);
    assert_eq!(m.memory_per_worker, vec![0, 0, 0]);
    assert!(m.uptime_seconds() < 5);
}

#[test]
fn requests_and_errors_counted() {
    let mut m = Metrics::new(2);
    m.record_request(1, 4096);
    m.record_request(1, 8192);
    m.record_request(7, 1);
    m.record_error();
    assert_eq!(m.total_requests, 3);
    assert_eq!(m.total_errors, 1);
    assert_eq!(m.requests_per_worker, vec![0, 2]);
    assert_eq!(m.memory_per_worker, vec![0, 8192]);
}

#[test]
fn prometheus_exposition() {
    let mut m = Metrics::new(2);
    m.record_request(0, 100);
    m.record_error();
    let text = m.render_prometheus(42, &[("default".to_string(), 0, true), ("api".to_string(), 1, false)]);
    let expected = "# HELP bakpiarun_uptime_seconds Server uptime in seconds\n\
# TYPE bakpiarun_uptime_seconds gauge\n\
bakpiarun_uptime_seconds 42\n\n\
# HELP bakpiarun_requests_total Total number of requests\n\
# TYPE bakpiarun_requests_total counter\n\
bakpiarun_requests_total 1\n\n\
# HELP bakpiarun_errors_total Total number of errors\n\
# TYPE bakpiarun_errors_total counter\n\
bakpiarun_errors_total 1\n\n\
# HELP bakpiarun_worker_requests_total Requests per worker\n\
# TYPE bakpiarun_worker_requests_total counter\n\
bakpiarun_worker_requests_total{worker=\"0\"} 1\n\
bakpiarun_worker_requests_total{worker=\"1\"} 0\n\
\n\
# HELP bakpiarun_worker_memory_bytes Memory usage per worker\n\
# TYPE bakpiarun_worker_memory_bytes gauge\n\
bakpiarun_worker_memory_bytes{worker=\"0\"} 100\n\
bakpiarun_worker_memory_bytes{worker=\"1\"} 0\n\
\n\
# HELP bakpiarun_worker_alive Worker alive status\n\
# TYPE bakpiarun_worker_alive gauge\n\
bakpiarun_worker_alive{pool=\"default\",worker=\"0\"} 1\n\
bakpiarun_worker_alive{pool=\"api\",worker=\"1\"} 0\n";
    assert_eq!(text, expected);
}

#[test]
fn health_counts() {
    let h = health_summary(&[true, false, true]);
    assert_eq!((h.total_workers, h.healthy_workers, h.healthy), (3, 2, false));
    let all = health_summary(&[true, true]);
    assert!(all.healthy);
    let none = health_summary(&[]);
    assert!(none.healthy);
    assert_eq!(health_status(true), "healthy");
    assert_eq!(health_status(false), "unhealthy");
    assert_eq!(memory_mb(5 * 1024 * 1024 + 1), 5);
}
