//! The server's configuration: its sections, their defaults, the checks
//! that a loaded configuration must pass, and the overrides that the
//! `BAKPIARUN_*` environment variables apply.

use vstd::prelude::*;
use crate::text::{decimal, push_decimal, push_str};

verus! {

/// The whole configuration.
#[derive(Debug, Clone)]
pub struct Config {
    pub server: ServerConfig,
    pub php: PhpConfig,
    pub socket: SocketConfig,
    pub logging: LoggingConfig,
    pub rate_limit: RateLimitConfig,
    pub security: SecurityConfig,
    pub compression: CompressionConfig,
    pub pools: Vec<PoolConfig>,
    pub queue: QueueConfig,
    pub db_proxy: DbProxyConfig,
}

/// A worker pool and the URL patterns routed to it.
#[derive(Debug, Clone)]
pub struct PoolConfig {
    pub name: String,
    pub worker_count: usize,
    pub patterns: Vec<String>,
}

/// The background job queue.
#[derive(Debug, Clone)]
pub struct QueueConfig {
    pub enabled: bool,
    pub max_jobs: usize,
}

/// The queue is on unless the configuration turns it off.
pub fn default_true() -> (r: bool)
    ensures
        r,
{
    true
}

/// The default bound on the number of queued jobs.
pub fn default_queue_max_jobs() -> (r: usize)
    ensures
        r == 10000,
{
    10000
}

/// The security headers added to PHP responses; `None` leaves a header out.
#[derive(Debug, Clone)]
pub struct SecurityConfig {
    pub x_frame_options: Option<String>,
    pub x_content_type_options: bool,
    pub x_xss_protection: bool,
    pub content_security_policy: Option<String>,
    pub strict_transport_security: Option<String>,
    pub referrer_policy: Option<String>,
    pub permissions_policy: Option<String>,
}

impl Default for SecurityConfig {
    fn default() -> (r: Self)
        ensures
            r.x_frame_options matches Some(v) && v@ == "DENY"@,
            r.x_content_type_options,
            r.x_xss_protection,
            r.content_security_policy is None,
            r.strict_transport_security is None,
            r.referrer_policy matches Some(v) && v@ == "strict-origin-when-cross-origin"@,
            r.permissions_policy is None,
    {
        SecurityConfig {
            x_frame_options: Some("DENY".to_string()),
            x_content_type_options: true,
            x_xss_protection: true,
            content_security_policy: None,
            strict_transport_security: None,
            referrer_policy: Some("strict-origin-when-cross-origin".to_string()),
            permissions_policy: None,
        }
    }
}

/// Per-client request rate limiting.
#[derive(Debug, Clone)]
pub struct RateLimitConfig {
    pub enabled: bool,
    pub requests_per_minute: u32,
    pub burst_size: u32,
}

impl Default for RateLimitConfig {
    fn default() -> (r: Self)
        ensures
            !r.enabled,
            r.requests_per_minute == 60,
            r.burst_size == 10,
    {
        RateLimitConfig { enabled: false, requests_per_minute: 60, burst_size: 10 }
    }
}

/// Response compression.
#[derive(Debug, Clone)]
pub struct CompressionConfig {
    pub enabled: bool,
    pub min_size_bytes: usize,
    pub level: u32,
}

impl Default for CompressionConfig {
    fn default() -> (r: Self)
        ensures
            r.enabled,
            r.min_size_bytes == 1024,
            r.level == 6,
    {
        CompressionConfig { enabled: true, min_size_bytes: 1024, level: 6 }
    }
}

/// Listening addresses, TLS and the admin token.
#[derive(Debug, Clone)]
pub struct ServerConfig {
    pub host: String,
    pub port: u16,
    pub https_port: u16,
    pub tls: TlsConfig,
    pub admin_token: Option<String>,
}

/// The PHP workers.
#[derive(Debug, Clone)]
pub struct PhpConfig {
    pub docroot: String,
    pub worker_path: String,
    pub worker_count: usize,
    pub memory_limit_mb: u64,
    pub max_requests: u64,
    pub timeout_ms: u64,
    pub connection_pool_size: usize,
}

/// Where the workers' Unix sockets live.
#[derive(Debug, Clone)]
pub struct SocketConfig {
    pub directory: String,
}

/// Access and error logs.
#[derive(Debug, Clone)]
pub struct LoggingConfig {
    pub access_log_enabled: bool,
    pub access_log: String,
    pub error_log_enabled: bool,
    pub error_log: String,
}

/// HTTPS.
#[derive(Debug, Clone)]
pub struct TlsConfig {
    pub enabled: bool,
    pub cert_path: String,
    pub key_path: String,
}

/// The loopback database proxy.
#[derive(Debug, Clone)]
pub struct DbProxyConfig {
    pub enabled: bool,
    pub listen_address: String,
    pub listen_port: u16,
    pub spoof_version: String,
    pub target: DbTargetConfig,
}

/// The database behind the proxy.
#[derive(Debug, Clone)]
pub struct DbTargetConfig {
    pub host: String,
    pub port: u16,
    pub username: String,
    pub password: String,
    pub database: String,
}

/// Why a configuration is refused, checked in this order; `None` when it
/// is accepted.
pub open spec fn validation_error(c: Config) -> Option<Seq<char>> {
    if c.server.port == 0 {
        Some("Port cannot be 0"@)
    } else if c.php.worker_count == 0 {
        Some("Worker count must be at least 1"@)
    } else if c.php.memory_limit_mb == 0 {
        Some("Memory limit must be at least 1 MB"@)
    } else if c.php.max_requests == 0 {
        Some("Max requests must be at least 1"@)
    } else if c.php.timeout_ms == 0 {
        Some("Timeout cannot be 0. Set at least 1000ms (1 second)"@)
    } else if c.php.timeout_ms < 1000 {
        Some("Timeout too small. Minimum 1000ms (1 second) recommended"@)
    } else {
        None
    }
}

/// The socket path of worker `worker_index` under `directory`.
pub open spec fn worker_socket_path(directory: Seq<char>, worker_index: nat) -> Seq<char> {
    directory + "/worker_"@ + decimal(worker_index) + ".sock"@
}

/// The socket path of a worker in a directory (see `worker_socket_path`).
pub fn socket_path_in(directory: &str, worker_index: usize) -> (r: String)
    ensures
        r@ == worker_socket_path(directory@, worker_index as nat),
{
    let mut s = String::new();
    push_str(&mut s, directory);
    push_str(&mut s, "/worker_");
    push_decimal(&mut s, worker_index as u64);
    push_str(&mut s, ".sock");
    s
}

/// The socket paths of workers `0..count` in a directory, in order.
pub fn worker_socket_paths(directory: &str, count: usize) -> (r: Vec<String>)
    ensures
        r@.len() == count,
        forall|i: int| 0 <= i < count ==> #[trigger] r@[i]@ == worker_socket_path(directory@, i as nat),
{
    let mut out: Vec<String> = Vec::new();
    for i in 0..count
        invariant
            out@.len() == i,
            forall|j: int| 0 <= j < i ==> #[trigger] out@[j]@ == worker_socket_path(directory@, j as nat),
    {
        out.push(socket_path_in(directory, i));
    }
    out
}

/// A decimal digit character.
pub open spec fn is_digit(c: char) -> bool {
    '0' <= c && c <= '9'
}

/// The value of a string of decimal digits.
pub open spec fn digits_value(s: Seq<char>) -> nat
    decreases s.len(),
{
    if s.len() == 0 {
        0
    } else {
        digits_value(s.drop_last()) * 10 + ((s.last() as int - 48) as nat)
    }
}

/// The characters after an optional leading `+`.
pub open spec fn unsigned_digits(s: Seq<char>) -> Seq<char> {
    if s.len() > 0 && s[0] == '+' {
        s.drop_first()
    } else {
        s
    }
}

/// Every character is a decimal digit.
pub open spec fn all_digits(d: Seq<char>) -> bool {
    forall|i: int| 0 <= i < d.len() ==> is_digit(#[trigger] d[i])
}

/// What `str::parse` gives for an unsigned integer type whose largest
/// value is `max`: an optional `+`, then one or more decimal digits, of
/// value at most `max`.
pub open spec fn parse_unsigned(s: Seq<char>, max: nat) -> Option<nat> {
    let d = unsigned_digits(s);
    if d.len() == 0 || !all_digits(d) || digits_value(d) > max {
        None
    } else {
        Some(digits_value(d))
    }
}

proof fn lemma_digits_value_prefix(s: Seq<char>, k: int)
    requires
        0 <= k <= s.len(),
        forall|i: int| 0 <= i < s.len() ==> is_digit(#[trigger] s[i]),
    ensures
        digits_value(s.take(k)) <= digits_value(s),
    decreases s.len() - k,
{
    if k < s.len() {
        let t = s.drop_last();
        assert forall|i: int| 0 <= i < t.len() implies is_digit(#[trigger] t[i]) by {
            assert(t[i] == s[i]);
        }
        lemma_digits_value_prefix(t, k);
        assert(t.take(k) =~= s.take(k));
    } else {
        assert(s.take(k) =~= s);
    }
}

/// Parses an unsigned decimal as `str::parse` does for a type whose largest
/// value is `max`.
pub fn parse_unsigned_decimal(s: &str, max: u64) -> (r: Option<u64>)
    ensures
        match r {
            Some(v) => parse_unsigned(s@, max as nat) == Some(v as nat),
            None => parse_unsigned(s@, max as nat) is None,
        },
{
    let v = crate::text::chars_of(s);
    let n = v.len();
    let start: usize = if n > 0 && v[0] == '+' { 1 } else { 0 };
    let ghost d = unsigned_digits(s@);
    assert(d =~= v@.subrange(start as int, n as int));
    if start == n {
        return None;
    }
    let mut acc: u64 = 0;
    let mut i = start;
    while i < n
        invariant
            start <= i <= n == v@.len(),
            v@ == s@,
            d == unsigned_digits(s@),
            d == v@.subrange(start as int, n as int),
            forall|j: int| start <= j < i ==> is_digit(#[trigger] v@[j]),
            acc as nat == digits_value(v@.subrange(start as int, i as int)),
            acc <= max,
        decreases n - i,
    {
        let c = v[i];
        proof {
            let t = v@.subrange(start as int, i + 1);
            assert(t.drop_last() =~= v@.subrange(start as int, i as int));
        }
        if !('0' <= c && c <= '9') {
            proof {
                assert(d[i - start] == c);
                assert(!is_digit(d[i - start]));
                assert(!all_digits(d));
            }
            return None;
        }
        let digit: u64 = (c as u32 - 48) as u64;
        if (acc as u128) * 10 + (digit as u128) > max as u128 {
            proof {
                let t = v@.subrange(start as int, i + 1);
                assert(digits_value(t) > max);
                if all_digits(d) {
                    lemma_digits_value_prefix(d, i + 1 - start);
                    assert(d.take(i + 1 - start) =~= t);
                }
            }
            return None;
        }
        acc = acc * 10 + digit;
        i = i + 1;
    }
    proof {
        assert(v@.subrange(start as int, n as int) =~= d);
        assert forall|j: int| 0 <= j < d.len() implies is_digit(#[trigger] d[j]) by {
            assert(d[j] == v@[j + start]);
        }
    }
    Some(acc)
}

/// The configuration after the environment overrides: each present value
/// replaces its field; the numeric ones only when they parse.
pub open spec fn with_env_overrides(
    c: Config,
    host: Option<Seq<char>>,
    port: Option<Seq<char>>,
    docroot: Option<Seq<char>>,
    worker_count: Option<Seq<char>>,
    memory_limit_mb: Option<Seq<char>>,
) -> (Seq<char>, u16, Seq<char>, usize, u64) {
    (
        match host {
            Some(h) => h,
            None => c.server.host@,
        },
        match port {
            Some(p) => match parse_unsigned(p, 65535) {
                Some(v) => v as u16,
                None => c.server.port,
            },
            None => c.server.port,
        },
        match docroot {
            Some(d) => d,
            None => c.php.docroot@,
        },
        match worker_count {
            Some(w) => match parse_unsigned(w, usize::MAX as nat) {
                Some(v) => v as usize,
                None => c.php.worker_count,
            },
            None => c.php.worker_count,
        },
        match memory_limit_mb {
            Some(m) => match parse_unsigned(m, u64::MAX as nat) {
                Some(v) => v as u64,
                None => c.php.memory_limit_mb,
            },
            None => c.php.memory_limit_mb,
        },
    )
}

/// The text of an optional string.
pub open spec fn opt_text(s: Option<String>) -> Option<Seq<char>> {
    match s {
        Some(v) => Some(v@),
        None => None,
    }
}

impl Config {
    /// Applies the values of `BAKPIARUN_HOST`, `BAKPIARUN_PORT`,
    /// `BAKPIARUN_DOCROOT`, `BAKPIARUN_WORKER_COUNT` and
    /// `BAKPIARUN_MEMORY_LIMIT_MB` (each `None` when the variable is unset).
    pub fn apply_env_overrides(
        &mut self,
        host: Option<String>,
        port: Option<String>,
        docroot: Option<String>,
        worker_count: Option<String>,
        memory_limit_mb: Option<String>,
    )
        ensures
            ({
                let (h, p, d, w, m) = with_env_overrides(
                    *old(self),
                    opt_text(host),
                    opt_text(port),
                    opt_text(docroot),
                    opt_text(worker_count),
                    opt_text(memory_limit_mb),
                );
                &&& final(self).server.host@ == h
                &&& final(self).server.port == p
                &&& final(self).php.docroot@ == d
                &&& final(self).php.worker_count == w
                &&& final(self).php.memory_limit_mb == m
            }),
            final(self).server.https_port == old(self).server.https_port,
            final(self).server.tls == old(self).server.tls,
            final(self).server.admin_token == old(self).server.admin_token,
            final(self).php.worker_path == old(self).php.worker_path,
            final(self).php.max_requests == old(self).php.max_requests,
            final(self).php.timeout_ms == old(self).php.timeout_ms,
            final(self).php.connection_pool_size == old(self).php.connection_pool_size,
            final(self).socket == old(self).socket,
            final(self).logging == old(self).logging,
            final(self).rate_limit == old(self).rate_limit,
            final(self).security == old(self).security,
            final(self).compression == old(self).compression,
            final(self).pools == old(self).pools,
            final(self).queue == old(self).queue,
            final(self).db_proxy == old(self).db_proxy,
    {
        if let Some(h) = host {
            self.server.host = h;
        }
        if let Some(p) = port {
            if let Some(v) = parse_unsigned_decimal(p.as_str(), 65535) {
                self.server.port = v as u16;
            }
        }
        if let Some(d) = docroot {
            self.php.docroot = d;
        }
        if let Some(w) = worker_count {
            if let Some(v) = parse_unsigned_decimal(w.as_str(), usize::MAX as u64) {
                self.php.worker_count = v as usize;
            }
        }
        if let Some(m) = memory_limit_mb {
            if let Some(v) = parse_unsigned_decimal(m.as_str(), u64::MAX) {
                self.php.memory_limit_mb = v;
            }
        }
    }

    /// The socket path of worker `worker_index`: `<directory>/worker_<i>.sock`.
    pub fn get_worker_socket_path(&self, worker_index: usize) -> (r: String)
        ensures
            r@ == worker_socket_path(self.socket.directory@, worker_index as nat),
    {
        socket_path_in(self.socket.directory.as_str(), worker_index)
    }

    /// Checks the configuration (see `validation_error`).
    pub fn validate(&self) -> (r: Result<(), String>)
        ensures
            match r {
                Ok(()) => validation_error(*self) is None,
                Err(e) => validation_error(*self) == Some(e@),
            },
    {
        if self.server.port == 0 {
            return Err("Port cannot be 0".to_string());
        }
        if self.php.worker_count == 0 {
            return Err("Worker count must be at least 1".to_string());
        }
        if self.php.memory_limit_mb == 0 {
            return Err("Memory limit must be at least 1 MB".to_string());
        }
        if self.php.max_requests == 0 {
            return Err("Max requests must be at least 1".to_string());
        }
        if self.php.timeout_ms == 0 {
            return Err("Timeout cannot be 0. Set at least 1000ms (1 second)".to_string());
        }
        if self.php.timeout_ms < 1000 {
            return Err("Timeout too small. Minimum 1000ms (1 second) recommended".to_string());
        }
        Ok(())
    }
}

} // verus!
