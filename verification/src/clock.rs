//! The wall clock: the current time since the Unix epoch, and its RFC 3339
//! and log renderings. Every reading may fail (a clock before the epoch),
//! and then gives `None`.

use vstd::prelude::*;

verus! {

/// `SystemTime::now().duration_since(UNIX_EPOCH)` in nanoseconds, or
/// `None` when the clock reads before the epoch. Nothing is stated of the
/// value: it is the time.
#[verifier::external_body]
pub(crate) fn unix_time_nanos() -> Option<u128> {
    match std::time::SystemTime::now().duration_since(std::time::UNIX_EPOCH) {
        Ok(d) => Some(d.as_nanos()),
        Err(_) => None,
    }
}

/// The current time as whole seconds and nanoseconds since the epoch;
/// `None` when the clock reads before the epoch or beyond what an `i64`
/// of seconds holds.
pub fn unix_time() -> (r: Option<(i64, u32)>)
    ensures
        r matches Some((secs, nanos)) ==> secs >= 0 && nanos < 1_000_000_000,
{
    match unix_time_nanos() {
        None => None,
        Some(n) => {
            let secs = n / 1_000_000_000;
            if secs > 9_223_372_036_854_775_807u128 {
                None
            } else {
                Some((secs as i64, (n % 1_000_000_000) as u32))
            }
        },
    }
}

/// What `DateTime::<Utc>::from_timestamp(secs, nanos)` followed by
/// `to_rfc3339` gives: the instant in RFC 3339 text, or `None` when chrono
/// cannot represent it.
pub uninterp spec fn rfc3339_text(secs: int, nanos: nat) -> Option<Seq<char>>;

/// `DateTime::<Utc>::from_timestamp(secs, nanos)` rendered by
/// `to_rfc3339`; `None` where chrono refuses the timestamp. The rendering
/// is chrono's own, only named here.
#[verifier::external_body]
pub(crate) fn rfc3339_at(secs: i64, nanos: u32) -> (r: Option<String>)
    ensures
        match r {
            Some(t) => rfc3339_text(secs as int, nanos as nat) == Some(t@),
            None => rfc3339_text(secs as int, nanos as nat) is None,
        },
{
    match chrono::DateTime::<chrono::Utc>::from_timestamp(secs, nanos) {
        Some(d) => Some(d.to_rfc3339()),
        None => None,
    }
}

/// `DateTime::<Utc>::from_timestamp(secs, nanos)` in the machine's time
/// zone, formatted `%d/%b/%Y:%H:%M:%S %z`; `None` where chrono refuses the
/// timestamp. Nothing is stated of the text: it depends on the time zone.
#[verifier::external_body]
fn local_log_time_at(secs: i64, nanos: u32) -> Option<String> {
    match chrono::DateTime::<chrono::Utc>::from_timestamp(secs, nanos) {
        Some(d) => Some(d.with_timezone(&chrono::Local).format("%d/%b/%Y:%H:%M:%S %z").to_string()),
        None => None,
    }
}

/// What `DateTime::<Utc>::from_timestamp(secs, 0)` formatted as an HTTP
/// date (`%a, %d %b %Y %H:%M:%S GMT`) gives, or `None` when chrono cannot
/// represent the instant.
pub uninterp spec fn http_date_text(secs: int) -> Option<Seq<char>>;

/// The HTTP date of a time in whole seconds since the epoch, as chrono
/// formats it; `None` where chrono refuses the timestamp. The rendering is
/// chrono's own, only named here.
#[verifier::external_body]
pub(crate) fn http_date_at(secs: i64) -> (r: Option<String>)
    ensures
        match r {
            Some(t) => http_date_text(secs as int) == Some(t@),
            None => http_date_text(secs as int) is None,
        },
{
    match chrono::DateTime::<chrono::Utc>::from_timestamp(secs, 0) {
        Some(d) => Some(d.format("%a, %d %b %Y %H:%M:%S GMT").to_string()),
        None => None,
    }
}

/// The current time as RFC 3339 text; `None` when the clock cannot be
/// read or rendered.
pub fn now_rfc3339() -> (r: Option<String>)
    ensures
        r matches Some(t) ==> exists|secs: int, nanos: nat| rfc3339_text(secs, nanos) == Some(t@),
{
    match unix_time() {
        None => None,
        Some((secs, nanos)) => rfc3339_at(secs, nanos),
    }
}

/// The current local time as the logs print it; `None` when the clock
/// cannot be read or rendered.
pub fn now_log_time() -> Option<String> {
    match unix_time() {
        None => None,
        Some((secs, nanos)) => local_log_time_at(secs, nanos),
    }
}

} // verus!
