use bakpiarun::job_handlers::{
    custom_task_message, GenerateReportHandler, GenericHandler, GenericMethod, HandlerKind,
    HandlerRegistry, PayloadText, SendWelcomeEmailHandler,
};

fn payload(v: &[(&str, &str)]) -> PayloadText {
    PayloadText { entries: v.iter().map(|(a, b)| (a.to_string(), b.to_string())).collect() }
}

#[test]
fn payload_fields() {
    let p = payload(&[("to", "a@b.c"), ("to", "second")]);
    assert_eq!(p.get("to"), Some("a@b.c"));
    assert_eq!(p.get("name"), None);
    assert_eq!(p.get_or("name", "User"), "User");
}

#[test]
fn welcome_email_outcome() {
    let o = SendWelcomeEmailHandler::outcome(&payload(&[("to", "x@y.z"), ("name", "Ann")]));
    assert_eq!((o.to.as_str(), o.name.as_str()), ("x@y.z", "Ann"));
    assert_eq!(o.message, "Welcome email sent to x@y.z");
    let d = SendWelcomeEmailHandler::outcome(&payload(&[]));
    assert_eq!((d.to.as_str(), d.name.as_str()), ("unknown@example.com", "User"));
    assert_eq!(d.message, "Welcome email sent to unknown@example.com");
}

#[test]
fn report_outcome() {
    let o = GenerateReportHandler::outcome(&payload(&[("type", "sales")]));
    assert_eq!(o.report_type, "sales");
    assert_eq!(o.message, "sales report generated successfully");
    assert_eq!(o.file_size, "2.5 MB");
    let d = GenerateReportHandler::outcome(&payload(&[]));
    assert_eq!(d.message, "general report generated successfully");
}

#[test]
fn generic_plans() {
    assert!(matches!(GenericHandler::plan(&payload(&[])), Ok(GenericMethod::Log)));
    match GenericHandler::plan(&payload(&[("method", "shell"), ("command", "ls")])) {
        Ok(GenericMethod::Shell { command }) => assert_eq!(command, "ls"),
        _ => panic!("expected a shell plan"),
    }
    match GenericHandler::plan(&payload(&[("method", "php"), ("script", "a.php")])) {
        Ok(GenericMethod::Php { script }) => assert_eq!(script, "a.php"),
        _ => panic!("expected a php plan"),
    }
    match GenericHandler::plan(&payload(&[("method", "http"), ("url", "http://x")])) {
        Ok(GenericMethod::Http { url, method }) => {
            assert_eq!(url, "http://x");
            assert_eq!(method, "GET");
        },
        _ => panic!("expected an http plan"),
    }
    match GenericHandler::plan(&payload(&[("method", "custom")])) {
        Ok(GenericMethod::Custom { task_name }) => assert_eq!(task_name, "unknown"),
        _ => panic!("expected a custom plan"),
    }
}

#[test]
fn generic_plan_errors() {
    let err = |p: PayloadText| match GenericHandler::plan(&p) {
        Err(e) => e,
        Ok(_) => panic!("expected an error"),
    };
    assert_eq!(err(payload(&[("method", "shell")])), "Missing 'command' in payload");
    assert_eq!(err(payload(&[("method", "php")])), "Missing 'script' in payload");
    assert_eq!(err(payload(&[("method", "http")])), "Missing 'url' in payload");
    assert_eq!(err(payload(&[("method", "ftp")])), "Unknown method: ftp");
    assert_eq!(err(payload(&[("method", "LOG")])), "Unknown method: LOG");
}

#[test]
fn custom_message() {
    assert_eq!(custom_task_message("resize"), "Custom task 'resize' processed");
}

#[test]
fn standard_registry() {
    let r = HandlerRegistry::new();
    assert_eq!(*r.handler_for("send_welcome_email"), HandlerKind::WelcomeEmail);
    assert_eq!(*r.handler_for("generate_report"), HandlerKind::Report);
    assert_eq!(*r.handler_for("anything"), HandlerKind::Generic);
}

#[test]
fn registration_replaces() {
    let mut r = HandlerRegistry::with_default(0u8);
    r.register("a", 1);
    r.register("b", 2);
    r.register("a", 3);
    assert_eq!(*r.handler_for("a"), 3);
    assert_eq!(*r.handler_for("b"), 2);
    assert_eq!(*r.handler_for("c"), 0);
}
