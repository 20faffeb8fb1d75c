use bakpiarun::clock::{now_log_time, now_rfc3339, unix_time};

#[test]
fn clock_readings() {
    let (secs, nanos) = unix_time().unwrap();
    assert!(secs > 1_600_000_000);
    assert!(nanos < 1_000_000_000);
    let t = now_rfc3339().unwrap();
    assert_eq!(&t[4..5], "-");
    assert_eq!(&t[10..11], "T");
    assert!(t.ends_with("+00:00"));
    let l = now_log_time().unwrap();
    assert_eq!(l.len(), 26);
    assert_eq!(&l[2..3], "/");
}
