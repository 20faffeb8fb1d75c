use bakpiarun::php_flow::{
    php_request_step, PhpRequestAction, PhpRequestEvent, PhpRequestState, PhpStage, SendOutcome,
    WorkerLimits,
};
use bakpiarun::rate_limit::{RateLimitError, RateLimitHeaders};
use bakpiarun::types::PhpResponse;

fn limits() -> WorkerLimits {
    WorkerLimits { index: 1, memory_limit_mb: 128, max_requests: 1000, timeout_ms: 30000 }
}

#[test]
fn php_request_happy_path() {
    let (s, a) = PhpRequestState::new("/users");
    assert!(matches!(a, PhpRequestAction::CheckRateLimit));
    assert!(!s.static_path);
    let rate = RateLimitHeaders { limit: 60, remaining: 59, reset: 60 };
    let (s, a) = php_request_step(&s, PhpRequestEvent::RateChecked(Some(Ok(rate))));
    assert!(matches!(a, PhpRequestAction::LocateFile));
    let (s, a) = php_request_step(&s, PhpRequestEvent::FileLocated(Some("/var/www/users.php".to_string())));
    assert!(matches!(a, PhpRequestAction::Route(ref f) if f == "/var/www/users.php"));
    let (s, a) = php_request_step(&s, PhpRequestEvent::Routed(Some("web".to_string())));
    assert!(matches!(a, PhpRequestAction::PickWorker(ref p) if p == "web"));
    let (s, a) = php_request_step(&s, PhpRequestEvent::WorkerPicked(limits()));
    assert!(matches!(a, PhpRequestAction::EnsureRunning));
    let (s, a) = php_request_step(&s, PhpRequestEvent::WorkerStarted(Ok(())));
    assert!(matches!(a, PhpRequestAction::ReadBody));
    let (s, a) = php_request_step(&s, PhpRequestEvent::BodyRead(Ok(())));
    assert!(matches!(a, PhpRequestAction::Send(30000)));
    let resp = PhpResponse { status: 200, body: "ok".to_string(), memory: 5, peak: 6, headers: vec![] };
    let (s, a) = php_request_step(&s, PhpRequestEvent::Replied(SendOutcome::Answered(resp)));
    match a {
        PhpRequestAction::Complete { response, worker, rate } => {
            assert_eq!(response.body, "ok");
            assert_eq!(worker.index, 1);
            assert_eq!(rate.unwrap().remaining, 59);
        },
        _ => panic!("expected completion"),
    }
    let (s2, a) = php_request_step(&s, PhpRequestEvent::RestartChecked(Some("r".to_string())));
    assert!(matches!(a, PhpRequestAction::StopWorker(ref r) if r == "r"));
    assert_eq!(s2.stage, PhpStage::Done);
    let (_, a) = php_request_step(&s, PhpRequestEvent::RestartChecked(None));
    assert!(matches!(a, PhpRequestAction::KeepWorker));
    let (s3, a) = php_request_step(&s2, PhpRequestEvent::BodyRead(Ok(())));
    assert!(matches!(a, PhpRequestAction::Ignore));
    assert_eq!(s3.stage, PhpStage::Done);
}

#[test]
fn php_request_early_answers() {
    let (s, _) = PhpRequestState::new("/app.css");
    assert!(s.static_path);
    let (_, a) = php_request_step(&s, PhpRequestEvent::RateChecked(None));
    assert!(matches!(a, PhpRequestAction::ServeStatic));
    let (_, a) = php_request_step(&s, PhpRequestEvent::RateChecked(Some(Err(RateLimitError { limit: 60, reset: 3 }))));
    assert!(matches!(a, PhpRequestAction::Refuse(e) if e.reset == 3));
    let (s, _) = PhpRequestState::new("/x");
    let (l, _) = php_request_step(&s, PhpRequestEvent::RateChecked(None));
    let (_, a) = php_request_step(&l, PhpRequestEvent::FileLocated(None));
    assert!(matches!(a, PhpRequestAction::NotFound));
    let (r, _) = php_request_step(&l, PhpRequestEvent::FileLocated(Some("f".to_string())));
    let (_, a) = php_request_step(&r, PhpRequestEvent::Routed(None));
    assert!(matches!(a, PhpRequestAction::NoPool));
    let (p, _) = php_request_step(&r, PhpRequestEvent::Routed(Some("web".to_string())));
    let (st, _) = php_request_step(&p, PhpRequestEvent::WorkerPicked(limits()));
    let (_, a) = php_request_step(&st, PhpRequestEvent::WorkerStarted(Err("no php".to_string())));
    assert!(matches!(a, PhpRequestAction::StartFailed(ref e) if e == "no php"));
    let (b, _) = php_request_step(&st, PhpRequestEvent::WorkerStarted(Ok(())));
    let (_, a) = php_request_step(&b, PhpRequestEvent::BodyRead(Err("too big".to_string())));
    assert!(matches!(a, PhpRequestAction::BadBody(ref e) if e == "too big"));
    let (sd, _) = php_request_step(&b, PhpRequestEvent::BodyRead(Ok(())));
    let (_, a) = php_request_step(&sd, PhpRequestEvent::Replied(SendOutcome::Failed("eof".to_string())));
    assert!(matches!(a, PhpRequestAction::Failed(ref e) if e == "eof"));
    let (_, a) = php_request_step(&sd, PhpRequestEvent::Replied(SendOutcome::TimedOut));
    assert!(matches!(a, PhpRequestAction::TimedOut(30000)));
    let (_, a) = php_request_step(&sd, PhpRequestEvent::Routed(None));
    assert!(matches!(a, PhpRequestAction::Ignore));
}
