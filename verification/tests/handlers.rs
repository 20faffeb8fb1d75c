use bakpiarun::config::SecurityConfig;
use bakpiarun::handlers::{
    bad_body_page, body_kind, body_read_failed_message, client_ip, effective_status, error_page,
    gateway_timeout_page, multipart_boundary, no_pool_message, no_pool_page, not_found_page,
    parse_cookies, parse_header_line, parse_urlencoded, php_response_headers, php_sets_content_type,
    rate_limited_message, timeout_message, worker_failed_message, worker_start_failed_message,
    worker_start_failed_page, BodyKind, JobResponse,
};
use bakpiarun::rate_limit::RateLimitHeaders;

fn pairs(v: &[(&str, &str)]) -> Vec<(String, String)> {
    v.iter().map(|(a, b)| (a.to_string(), b.to_string())).collect()
}

#[test]
fn client_ip_precedence() {
    assert_eq!(client_ip(Some(Some("1.2.3.4")), Some(Some("5.6.7.8")), "9.9.9.9"), "1.2.3.4");
    assert_eq!(client_ip(None, Some(Some("5.6.7.8")), "9.9.9.9"), "5.6.7.8");
    assert_eq!(client_ip(None, None, "9.9.9.9"), "9.9.9.9");
    assert_eq!(client_ip(Some(None), Some(Some("5.6.7.8")), "9.9.9.9"), "unknown");
    assert_eq!(client_ip(None, Some(None), "9.9.9.9"), "unknown");
}

#[test]
fn cookies_parsed() {
    assert_eq!(
        parse_cookies("a=1; b=x=y ;c; d="),
        pairs(&[("a", "1"), ("b", "x=y"), ("d", "")])
    );
    assert_eq!(parse_cookies(""), Vec::<(String, String)>::new());
}

#[test]
fn urlencoded_fields() {
    assert_eq!(
        parse_urlencoded("name=J%C3%BCrgen&x=a+b&flag&e=%FF&k%20=v"),
        pairs(&[("name", "Jürgen"), ("x", "a+b"), ("k ", "v")])
    );
}

#[test]
fn body_kinds() {
    assert_eq!(body_kind("multipart/form-data; boundary=xyz"), BodyKind::Multipart);
    assert_eq!(body_kind("application/x-www-form-urlencoded"), BodyKind::UrlEncoded);
    assert_eq!(body_kind("application/json"), BodyKind::Other);
    assert_eq!(body_kind(""), BodyKind::Other);
}

#[test]
fn multipart_boundaries() {
    assert_eq!(multipart_boundary("multipart/form-data; boundary=xyz"), Some("xyz".to_string()));
    assert_eq!(multipart_boundary("multipart/form-data; boundary=\"q r\" "), Some("q r".to_string()));
    assert_eq!(multipart_boundary("multipart/form-data; boundary=a boundary=b"), Some("a".to_string()));
    assert_eq!(multipart_boundary("multipart/form-data"), None);
    assert_eq!(multipart_boundary("multipart/form-data; boundary=\"\""), None);
}

#[test]
fn header_lines() {
    assert_eq!(
        parse_header_line(" Location : /next "),
        Some(("Location".to_string(), "/next".to_string()))
    );
    assert_eq!(parse_header_line("X: a:b"), Some(("X".to_string(), "a:b".to_string())));
    assert_eq!(parse_header_line("no colon"), None);
    assert_eq!(parse_header_line("  : v"), None);
}

#[test]
fn script_content_type_detected() {
    assert!(php_sets_content_type(&["content-TYPE: text/plain".to_string()]));
    assert!(php_sets_content_type(&["X-A: 1".to_string(), " Content-Type :x".to_string()]));
    assert!(!php_sets_content_type(&["X-Content-Type: a".to_string()]));
    assert!(!php_sets_content_type(&[]));
}

#[test]
fn response_headers_default_content_type() {
    let sec = SecurityConfig::default();
    let h = php_response_headers(&["Set-Cookie: a=1".to_string(), "Set-Cookie: b=2".to_string()], &sec, &None);
    assert_eq!(
        h,
        pairs(&[
            ("Content-Type", "text/html; charset=utf-8"),
            ("X-Frame-Options", "DENY"),
            ("X-Content-Type-Options", "nosniff"),
            ("X-XSS-Protection", "1; mode=block"),
            ("Referrer-Policy", "strict-origin-when-cross-origin"),
            ("Set-Cookie", "a=1"),
            ("Set-Cookie", "b=2"),
        ])
    );
}

#[test]
fn response_headers_script_content_type_and_rate() {
    let sec = SecurityConfig {
        x_frame_options: None,
        x_content_type_options: false,
        x_xss_protection: false,
        content_security_policy: Some("bad\nvalue".to_string()),
        strict_transport_security: None,
        referrer_policy: None,
        permissions_policy: Some("camera=()".to_string()),
    };
    let rate = Some(RateLimitHeaders { limit: 60, remaining: 59, reset: 60 });
    let lines = vec![
        "Content-Type: application/json".to_string(),
        "Bad Name: x".to_string(),
        "X-Ok: caf\u{e9}".to_string(),
        "X-Bad: a\u{7f}b".to_string(),
        "junk".to_string(),
    ];
    let h = php_response_headers(&lines, &sec, &rate);
    assert_eq!(
        h,
        pairs(&[
            ("Permissions-Policy", "camera=()"),
            ("X-RateLimit-Limit", "60"),
            ("X-RateLimit-Remaining", "59"),
            ("X-RateLimit-Reset", "60"),
            ("Content-Type", "application/json"),
            ("X-Ok", "caf\u{e9}"),
        ])
    );
}

#[test]
fn status_codes() {
    assert_eq!(effective_status(302), 302);
    assert_eq!(effective_status(999), 999);
    assert_eq!(effective_status(99), 200);
    assert_eq!(effective_status(1000), 200);
    assert_eq!(effective_status(0), 200);
}

#[test]
fn error_pages() {
    assert_eq!(error_page("boom"), "<h1>500 Error</h1><p>boom</p>");
    assert_eq!(worker_start_failed_page("x"), "<h1>500 Error</h1><p>Failed to start worker: x</p>");
    assert_eq!(bad_body_page("y"), "<h1>400 Bad Request</h1><p>Failed to read body: y</p>");
    assert_eq!(
        gateway_timeout_page(30000),
        "<h1>504 Gateway Timeout</h1><p>The server did not receive a timely response from the PHP worker.</p><p>Timeout: 30000ms</p>"
    );
}

#[test]
fn queued_job_response() {
    let r = JobResponse::queued("id-1".to_string());
    assert_eq!(r.job_id, "id-1");
    assert_eq!(r.status, "pending");
    assert_eq!(r.message, "Job successfully queued");
}

#[test]
fn log_messages() {
    assert_eq!(rate_limited_message("1.2.3.4", "/a"), "Rate limit exceeded for IP: 1.2.3.4 (URI: /a)");
    assert_eq!(no_pool_message("/p", "/p?x"), "No suitable pool for path: /p (URI: /p?x)");
    assert_eq!(
        worker_start_failed_message(2, "api", "spawn failed", "/u"),
        "Worker #2 in pool 'api' failed to start: spawn failed (URI: /u)"
    );
    assert_eq!(worker_failed_message(0, "web", "broken pipe", "/"), "Worker #0 in pool 'web' failed: broken pipe (URI: /)");
    assert_eq!(body_read_failed_message("too big", "/up"), "Failed to read body: too big (URI: /up)");
    assert_eq!(timeout_message(30000, "/slow"), "Request timeout after 30000ms (URI: /slow)");
}

#[test]
fn fixed_pages() {
    assert_eq!(not_found_page(), "<h1>404 Not Found</h1><p>The requested URL was not found on this server.</p>");
    assert_eq!(no_pool_page(), "<h1>500 Error</h1><p>No suitable worker pool found</p>");
}

#[test]
fn percent_decoding_edge_cases() {
    assert_eq!(
        parse_urlencoded("a=%41%62c&b=%zz&c=%4&d=100%&e=%%41&f=%4g"),
        pairs(&[("a", "Abc"), ("b", "%zz"), ("c", "%4"), ("d", "100%"), ("e", "%A"), ("f", "%4g")])
    );
    assert_eq!(parse_urlencoded("bad=%C3&ok=%C3%A9"), pairs(&[("ok", "é")]));
    assert_eq!(parse_urlencoded("plain=no+escapes"), pairs(&[("plain", "no+escapes")]));
}
