//! The lines of the access and error logs. (Opening the files and writing
//! to them stays with the server.)

use vstd::prelude::*;
use crate::clock::now_log_time;
use crate::text::{ascii_uppercase, decimal, is_ascii_text, push_char, push_decimal, push_str};

verus! {

/// An access-log line: `[time] ip method uri status durationms` and a
/// line break.
pub open spec fn access_line(
    ts: Seq<char>,
    ip: Seq<char>,
    method: Seq<char>,
    uri: Seq<char>,
    status: u16,
    duration_ms: u64,
) -> Seq<char> {
    seq!['['] + ts + "] "@ + ip + seq![' '] + method + seq![' '] + uri + seq![' '] + decimal(
        status as nat,
    ) + seq![' '] + decimal(duration_ms as nat) + "ms\n"@
}

/// Builds an access-log line (see `access_line`).
pub fn access_log_line(ts: &str, ip: &str, method: &str, uri: &str, status: u16, duration_ms: u64) -> (r: String)
    ensures
        r@ == access_line(ts@, ip@, method@, uri@, status, duration_ms),
{
    let mut s = String::new();
    push_char(&mut s, '[');
    push_str(&mut s, ts);
    push_str(&mut s, "] ");
    push_str(&mut s, ip);
    push_char(&mut s, ' ');
    push_str(&mut s, method);
    push_char(&mut s, ' ');
    push_str(&mut s, uri);
    push_char(&mut s, ' ');
    push_decimal(&mut s, status as u64);
    push_char(&mut s, ' ');
    push_decimal(&mut s, duration_ms);
    push_str(&mut s, "ms\n");
    s
}

/// The access-log line for a request, stamped with the current local
/// time (whatever the clock reads, the line has the `access_line` shape);
/// `None` when the clock cannot be read.
pub fn access_log_entry(ip: &str, method: &str, uri: &str, status: u16, duration_ms: u64) -> (r: Option<String>)
    ensures
        r matches Some(line) ==> exists|ts: Seq<char>| line@ == access_line(ts, ip@, method@, uri@, status, duration_ms),
{
    match now_log_time() {
        Some(ts) => Some(access_log_line(ts.as_str(), ip, method, uri, status, duration_ms)),
        None => None,
    }
}

/// What `str::to_uppercase` makes of text that is not all ASCII: the
/// Unicode upper-case mapping, whose tables are not restated here.
pub uninterp spec fn unicode_uppercase(s: Seq<char>) -> Seq<char>;

/// The upper-case form of a text, as `str::to_uppercase` gives it: on
/// ASCII text, `a`..`z` become `A`..`Z` and every other character stays.
pub open spec fn uppercase(s: Seq<char>) -> Seq<char> {
    if is_ascii_text(s) {
        ascii_uppercase(s)
    } else {
        unicode_uppercase(s)
    }
}

/// `s.to_uppercase()`. On ASCII text the result is the ASCII upper-casing,
/// as std documents; on other text it is only named.
#[verifier::external_body]
fn to_uppercase(s: &str) -> (r: String)
    ensures
        is_ascii_text(s@) ==> r@ == ascii_uppercase(s@),
        !is_ascii_text(s@) ==> r@ == unicode_uppercase(s@),
{
    s.to_uppercase()
}

/// An error-log line: `[time] [LEVEL] message` and a line break, with the
/// level already upper-cased.
pub open spec fn error_line(ts: Seq<char>, level: Seq<char>, message: Seq<char>) -> Seq<char> {
    seq!['['] + ts + "] ["@ + level + "] "@ + message + seq!['\n']
}

/// Builds an error-log line from an upper-cased level (see `error_line`).
pub fn error_log_line_with_level(ts: &str, upper_level: &str, message: &str) -> (r: String)
    ensures
        r@ == error_line(ts@, upper_level@, message@),
{
    let mut s = String::new();
    push_char(&mut s, '[');
    push_str(&mut s, ts);
    push_str(&mut s, "] [");
    push_str(&mut s, upper_level);
    push_str(&mut s, "] ");
    push_str(&mut s, message);
    push_char(&mut s, '\n');
    s
}

/// Builds an error-log line, upper-casing the level.
pub fn error_log_line(ts: &str, level: &str, message: &str) -> (r: String)
    ensures
        r@ == error_line(ts@, uppercase(level@), message@),
{
    let upper = to_uppercase(level);
    error_log_line_with_level(ts, upper.as_str(), message)
}

/// The error-log line for a message, stamped with the current local time
/// (whatever the clock reads, the line has the `error_line` shape); `None`
/// when the clock cannot be read.
pub fn error_log_entry(level: &str, message: &str) -> (r: Option<String>)
    ensures
        r matches Some(line) ==> exists|ts: Seq<char>| line@ == error_line(ts, uppercase(level@), message@),
{
    match now_log_time() {
        Some(ts) => Some(error_log_line(ts.as_str(), level, message)),
        None => None,
    }
}

} // verus!
