//! What the rate limiter answers, and the headers that carry its answer.
//! (The token bucket itself counts in fractions of a token and stays with
//! the server.)

use vstd::prelude::*;
use crate::text::{decimal, digit_char, pair_texts, push_decimal, push_str, u64_to_string};
use crate::security::{
    all_accepted, header_value_char, push_header, valid_header_name,
    valid_header_value,
};

verus! {

/// The limiter's answer for an admitted request.
#[derive(Clone, Copy, Debug)]
pub struct RateLimitHeaders {
    pub limit: u32,
    pub remaining: u32,
    pub reset: u64,
}

/// The limiter's answer for a refused request.
#[derive(Clone, Copy, Debug)]
pub struct RateLimitError {
    pub limit: u32,
    pub reset: u64,
}

impl RateLimitHeaders {
    /// The answer when rate limiting is switched off: all three numbers 0.
    pub fn unlimited() -> (r: Self)
        ensures
            r.limit == 0 && r.remaining == 0 && r.reset == 0,
    {
        RateLimitHeaders { limit: 0, remaining: 0, reset: 0 }
    }
}

/// The `X-RateLimit-*` headers of an admitted request, when the limiter
/// answered.
pub open spec fn rate_header_list(h: Option<RateLimitHeaders>) -> Seq<(Seq<char>, Seq<char>)> {
    match h {
        Some(h) => seq![
            ("X-RateLimit-Limit"@, decimal(h.limit as nat)),
            ("X-RateLimit-Remaining"@, decimal(h.remaining as nat)),
            ("X-RateLimit-Reset"@, decimal(h.reset as nat)),
        ],
        None => seq![],
    }
}

/// A decimal is a header value HTTP accepts.
pub proof fn lemma_decimal_accepted(n: nat)
    ensures
        valid_header_value(decimal(n)),
    decreases n,
{
    if n < 10 {
        assert(header_value_char(digit_char(n as int)));
    } else {
        lemma_decimal_accepted(n / 10);
        let d = decimal(n / 10);
        assert(header_value_char(digit_char((n % 10) as int)));
        assert forall|i: int| 0 <= i < decimal(n).len() implies header_value_char(#[trigger] decimal(n)[i]) by {
            if i < d.len() {
                assert(decimal(n)[i] == d[i]);
            }
        }
    }
}

/// The rate-limit headers carry only names and values that HTTP accepts.
pub proof fn lemma_rate_headers_accepted(h: Option<RateLimitHeaders>)
    ensures
        all_accepted(rate_header_list(h)),
{
    reveal_strlit("X-RateLimit-Limit");
    reveal_strlit("X-RateLimit-Remaining");
    reveal_strlit("X-RateLimit-Reset");
    assert(valid_header_name("X-RateLimit-Limit"@));
    assert(valid_header_name("X-RateLimit-Remaining"@));
    assert(valid_header_name("X-RateLimit-Reset"@));
    match h {
        Some(h) => {
            lemma_decimal_accepted(h.limit as nat);
            lemma_decimal_accepted(h.remaining as nat);
            lemma_decimal_accepted(h.reset as nat);
        },
        None => {},
    }
}

/// Appends the `X-RateLimit-*` headers (see `rate_header_list`).
pub fn push_rate_headers(out: &mut Vec<(String, String)>, h: &Option<RateLimitHeaders>)
    ensures
        pair_texts(final(out)@) == pair_texts(old(out)@) + rate_header_list(*h),
{
    match h {
        Some(h) => {
            let limit = u64_to_string(h.limit as u64);
            let remaining = u64_to_string(h.remaining as u64);
            let reset = u64_to_string(h.reset);
            push_header(out, "X-RateLimit-Limit", limit.as_str());
            push_header(out, "X-RateLimit-Remaining", remaining.as_str());
            push_header(out, "X-RateLimit-Reset", reset.as_str());
        },
        None => {},
    }
    assert(pair_texts(out@) =~= pair_texts(old(out)@) + rate_header_list(*h));
}

/// The headers of a 429 answer.
pub open spec fn refused_header_list(e: RateLimitError) -> Seq<(Seq<char>, Seq<char>)> {
    seq![
        ("Content-Type"@, "application/json"@),
        ("X-RateLimit-Limit"@, decimal(e.limit as nat)),
        ("X-RateLimit-Remaining"@, "0"@),
        ("X-RateLimit-Reset"@, decimal(e.reset as nat)),
        ("Retry-After"@, decimal(e.reset as nat)),
    ]
}

/// The headers of the 429 answer to a refused request (see
/// `refused_header_list`).
pub fn refused_headers(e: &RateLimitError) -> (r: Vec<(String, String)>)
    ensures
        pair_texts(r@) == refused_header_list(*e),
{
    let mut out: Vec<(String, String)> = Vec::new();
    let limit = u64_to_string(e.limit as u64);
    let reset = u64_to_string(e.reset);
    push_header(&mut out, "Content-Type", "application/json");
    push_header(&mut out, "X-RateLimit-Limit", limit.as_str());
    push_header(&mut out, "X-RateLimit-Remaining", "0");
    push_header(&mut out, "X-RateLimit-Reset", reset.as_str());
    push_header(&mut out, "Retry-After", reset.as_str());
    assert(pair_texts(out@) =~= refused_header_list(*e));
    out
}

/// The JSON body of a 429 answer.
pub open spec fn refused_body_text(e: RateLimitError) -> Seq<char> {
    "{\"error\":\"Rate limit exceeded\",\"limit\":"@ + decimal(e.limit as nat) + ",\"reset\":"@
        + decimal(e.reset as nat) + "}"@
}

/// The JSON body of the 429 answer to a refused request.
pub fn refused_body(e: &RateLimitError) -> (r: String)
    ensures
        r@ == refused_body_text(*e),
{
    let mut s = String::new();
    push_str(&mut s, "{\"error\":\"Rate limit exceeded\",\"limit\":");
    push_decimal(&mut s, e.limit as u64);
    push_str(&mut s, ",\"reset\":");
    push_decimal(&mut s, e.reset);
    push_str(&mut s, "}");
    s
}

} // verus!
