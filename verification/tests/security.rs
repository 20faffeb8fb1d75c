use bakpiarun::config::SecurityConfig;
use bakpiarun::rate_limit::{refused_body, refused_headers, RateLimitError, RateLimitHeaders};
use bakpiarun::security::security_headers;

fn pairs(v: &[(&str, &str)]) -> Vec<(String, String)> {
    v.iter().map(|(a, b)| (a.to_string(), b.to_string())).collect()
}

#[test]
fn default_security_headers() {
    assert_eq!(
        security_headers(&SecurityConfig::default()),
        pairs(&[
            ("X-Frame-Options", "DENY"),
            ("X-Content-Type-Options", "nosniff"),
            ("X-XSS-Protection", "1; mode=block"),
            ("Referrer-Policy", "strict-origin-when-cross-origin"),
        ])
    );
}

#[test]
fn invalid_values_left_out() {
    let c = SecurityConfig {
        x_frame_options: Some("SAME\rORIGIN".to_string()),
        x_content_type_options: true,
        x_xss_protection: false,
        content_security_policy: Some("default-src 'self'\t".to_string()),
        strict_transport_security: Some("max-age=63072000".to_string()),
        referrer_policy: None,
        permissions_policy: None,
    };
    assert_eq!(
        security_headers(&c),
        pairs(&[
            ("X-Content-Type-Options", "nosniff"),
            ("Content-Security-Policy", "default-src 'self'\t"),
            ("Strict-Transport-Security", "max-age=63072000"),
        ])
    );
}

#[test]
fn rate_limit_answers() {
    let u = RateLimitHeaders::unlimited();
    assert_eq!((u.limit, u.remaining, u.reset), (0, 0, 0));
    let e = RateLimitError { limit: 60, reset: 7 };
    assert_eq!(
        refused_headers(&e),
        pairs(&[
            ("Content-Type", "application/json"),
            ("X-RateLimit-Limit", "60"),
            ("X-RateLimit-Remaining", "0"),
            ("X-RateLimit-Reset", "7"),
            ("Retry-After", "7"),
        ])
    );
    assert_eq!(refused_body(&e), "{\"error\":\"Rate limit exceeded\",\"limit\":60,\"reset\":7}");
}
