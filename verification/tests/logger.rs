use bakpiarun::logger::{access_log_entry, access_log_line, error_log_entry, error_log_line, error_log_line_with_level};

#[test]
fn access_line_format() {
    assert_eq!(
        access_log_line("01/Jan/2024:00:00:00 +0000", "1.2.3.4", "GET", "/a?b=1", 200, 15),
        "[01/Jan/2024:00:00:00 +0000] 1.2.3.4 GET /a?b=1 200 15ms\n"
    );
}

#[test]
fn error_line_format() {
    assert_eq!(error_log_line("T", "warn", "slow"), "[T] [WARN] slow\n");
    assert_eq!(error_log_line("T", "straße", "m"), "[T] [STRASSE] m\n");
    assert_eq!(error_log_line_with_level("T", "ERROR", "x"), "[T] [ERROR] x\n");
}

#[test]
fn stamped_entries() {
    let a = access_log_entry("1.2.3.4", "GET", "/", 200, 3).unwrap();
    assert_eq!(a.len(), 1 + 26 + 2 + "1.2.3.4 GET / 200 3ms\n".len());
    assert!(a.starts_with('['));
    assert_eq!(&a[3..4], "/");
    assert!(a.ends_with("] 1.2.3.4 GET / 200 3ms\n"));
    let e = error_log_entry("info", "hello").unwrap();
    assert!(e.ends_with("] [INFO] hello\n"));
    assert_eq!(e.len(), 1 + 26 + "] [INFO] hello\n".len());
}
