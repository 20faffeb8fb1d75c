use bakpiarun::config::{
    default_queue_max_jobs, default_true, parse_unsigned_decimal, socket_path_in, worker_socket_paths,
    CompressionConfig, Config, DbProxyConfig, DbTargetConfig, LoggingConfig, PhpConfig, PoolConfig,
    QueueConfig, RateLimitConfig, SecurityConfig, ServerConfig, SocketConfig, TlsConfig,
};

fn sample_config() -> Config {
    Config {
        server: ServerConfig {
            host: "0.0.0.0".to_string(),
            port: 8080,
            https_port: 8443,
            tls: TlsConfig { enabled: false, cert_path: "c.pem".to_string(), key_path: "k.pem".to_string() },
            admin_token: None,
        },
        php: PhpConfig {
            docroot: "/var/www".to_string(),
            worker_path: "worker.php".to_string(),
            worker_count: 4,
            memory_limit_mb: 128,
            max_requests: 1000,
            timeout_ms: 30000,
            connection_pool_size: 2,
        },
        socket: SocketConfig { directory: "/tmp/bakpia".to_string() },
        logging: LoggingConfig {
            access_log_enabled: false,
            access_log: "a.log".to_string(),
            error_log_enabled: false,
            error_log: "e.log".to_string(),
        },
        rate_limit: RateLimitConfig::default(),
        security: SecurityConfig::default(),
        compression: CompressionConfig::default(),
        pools: vec![PoolConfig { name: "default".to_string(), worker_count: 2, patterns: vec!["/*".to_string()] }],
        queue: QueueConfig { enabled: true, max_jobs: 10000 },
        db_proxy: DbProxyConfig {
            enabled: false,
            listen_address: "127.0.0.1".to_string(),
            listen_port: 3307,
            spoof_version: "8.0.0".to_string(),
            target: DbTargetConfig {
                host: "db".to_string(),
                port: 3306,
                username: "u".to_string(),
                password: "p".to_string(),
                database: "app".to_string(),
            },
        },
    }
}

#[test]
fn serde_defaults() {
    assert!(default_true());
    assert_eq!(default_queue_max_jobs(), 10000);
}

#[test]
fn section_defaults() {
    let s = SecurityConfig::default();
    assert_eq!(s.x_frame_options, Some("DENY".to_string()));
    assert!(s.x_content_type_options);
    assert!(s.x_xss_protection);
    assert_eq!(s.content_security_policy, None);
    assert_eq!(s.referrer_policy, Some("strict-origin-when-cross-origin".to_string()));
    let r = RateLimitConfig::default();
    assert!(!r.enabled);
    assert_eq!((r.requests_per_minute, r.burst_size), (60, 10));
    let c = CompressionConfig::default();
    assert!(c.enabled);
    assert_eq!((c.min_size_bytes, c.level), (1024, 6));
}

#[test]
fn valid_config_passes() {
    assert_eq!(sample_config().validate(), Ok(()));
}

#[test]
fn each_validation_error() {
    let mut c = sample_config();
    c.server.port = 0;
    assert_eq!(c.validate(), Err("Port cannot be 0".to_string()));
    let mut c = sample_config();
    c.php.worker_count = 0;
    assert_eq!(c.validate(), Err("Worker count must be at least 1".to_string()));
    let mut c = sample_config();
    c.php.memory_limit_mb = 0;
    assert_eq!(c.validate(), Err("Memory limit must be at least 1 MB".to_string()));
    let mut c = sample_config();
    c.php.max_requests = 0;
    assert_eq!(c.validate(), Err("Max requests must be at least 1".to_string()));
    let mut c = sample_config();
    c.php.timeout_ms = 0;
    assert_eq!(c.validate(), Err("Timeout cannot be 0. Set at least 1000ms (1 second)".to_string()));
    let mut c = sample_config();
    c.php.timeout_ms = 999;
    assert_eq!(c.validate(), Err("Timeout too small. Minimum 1000ms (1 second) recommended".to_string()));
    let mut c = sample_config();
    c.server.port = 0;
    c.php.worker_count = 0;
    assert_eq!(c.validate(), Err("Port cannot be 0".to_string()));
}

#[test]
fn worker_socket_path_text() {
    let c = sample_config();
    assert_eq!(c.get_worker_socket_path(3), "/tmp/bakpia/worker_3.sock");
    assert_eq!(socket_path_in("/s", 0), "/s/worker_0.sock");
    assert_eq!(
        worker_socket_paths("/s", 2),
        vec!["/s/worker_0.sock".to_string(), "/s/worker_1.sock".to_string()]
    );
}

#[test]
fn unsigned_parsing_like_str_parse() {
    assert_eq!(parse_unsigned_decimal("8080", 65535), Some(8080));
    assert_eq!(parse_unsigned_decimal("+12", 65535), Some(12));
    assert_eq!(parse_unsigned_decimal("65536", 65535), None);
    assert_eq!(parse_unsigned_decimal("", 65535), None);
    assert_eq!(parse_unsigned_decimal("+", 65535), None);
    assert_eq!(parse_unsigned_decimal("-1", 65535), None);
    assert_eq!(parse_unsigned_decimal(" 1", 65535), None);
    assert_eq!(parse_unsigned_decimal("007", 65535), Some(7));
    assert_eq!(parse_unsigned_decimal("18446744073709551615", u64::MAX), Some(u64::MAX));
    assert_eq!(parse_unsigned_decimal("18446744073709551616", u64::MAX), None);
}

#[test]
fn env_overrides_apply() {
    let mut c = sample_config();
    c.apply_env_overrides(
        Some("127.0.0.1".to_string()),
        Some("9000".to_string()),
        Some("/srv".to_string()),
        Some("8".to_string()),
        Some("256".to_string()),
    );
    assert_eq!(c.server.host, "127.0.0.1");
    assert_eq!(c.server.port, 9000);
    assert_eq!(c.php.docroot, "/srv");
    assert_eq!(c.php.worker_count, 8);
    assert_eq!(c.php.memory_limit_mb, 256);
}

#[test]
fn env_overrides_ignore_unparsable_numbers() {
    let mut c = sample_config();
    c.apply_env_overrides(None, Some("99999".to_string()), None, Some("four".to_string()), Some("-1".to_string()));
    assert_eq!(c.server.host, "0.0.0.0");
    assert_eq!(c.server.port, 8080);
    assert_eq!(c.php.docroot, "/var/www");
    assert_eq!(c.php.worker_count, 4);
    assert_eq!(c.php.memory_limit_mb, 128);
}
