//! The security headers that the configuration puts on every PHP response,
//! and which header texts HTTP accepts.

use vstd::prelude::*;
use crate::config::SecurityConfig;
use crate::text::pair_texts;

verus! {

/// A character HTTP accepts in a header value: a tab, or anything from the
/// space on but DEL (characters beyond ASCII encode to bytes from 128 on,
/// which are accepted too).
pub open spec fn header_value_char(c: char) -> bool {
    c == '\t' || (c as u32 >= 32 && c as u32 != 127)
}

/// A text HTTP accepts as a header value.
pub open spec fn valid_header_value(s: Seq<char>) -> bool {
    forall|i: int| 0 <= i < s.len() ==> header_value_char(#[trigger] s[i])
}

/// `http::HeaderValue::from_str(s).is_ok()`. Its source checks each byte
/// of `s` and accepts it when it is a tab, or at least 32 and not 127;
/// on characters that is `valid_header_value`.
#[verifier::external_body]
pub(crate) fn header_value_ok(s: &str) -> (r: bool)
    ensures
        r == valid_header_value(s@),
{
    axum::http::HeaderValue::from_str(s).is_ok()
}

/// A character HTTP accepts in a header name: a letter, a digit, or one
/// of ``!#$%&'*+-.^_`|~``.
pub open spec fn header_name_char(c: char) -> bool {
    ||| ('a' <= c <= 'z')
    ||| ('A' <= c <= 'Z')
    ||| ('0' <= c <= '9')
    ||| c == '!' || c == '#' || c == '$' || c == '%' || c == '&' || c == '\''
    ||| c == '*' || c == '+' || c == '-' || c == '.' || c == '^' || c == '_'
    ||| c == '`' || c == '|' || c == '~'
}

/// A text HTTP accepts as a header name: 1 to 65535 name characters.
pub open spec fn valid_header_name(s: Seq<char>) -> bool {
    &&& 1 <= s.len() <= 65535
    &&& forall|i: int| 0 <= i < s.len() ==> header_name_char(#[trigger] s[i])
}

/// `http::HeaderName::from_bytes(name.as_bytes()).is_ok()`. Its source
/// refuses an empty name and one longer than 65535 bytes, and maps each
/// byte through a table in which exactly the name characters of
/// `header_name_char` are non-zero, refusing a zero; a character beyond
/// ASCII has only bytes from 128 on, which the table refuses.
#[verifier::external_body]
pub(crate) fn header_name_ok(name: &str) -> (r: bool)
    ensures
        r == valid_header_name(name@),
{
    axum::http::HeaderName::from_bytes(name.as_bytes()).is_ok()
}

/// The header for an optional configured value: present when the value is
/// set and HTTP accepts it.
pub open spec fn opt_header(name: Seq<char>, v: Option<String>) -> Seq<(Seq<char>, Seq<char>)> {
    match v {
        Some(s) => if valid_header_value(s@) {
            seq![(name, s@)]
        } else {
            seq![]
        },
        None => seq![],
    }
}

/// The header for a switch: present when the switch is on.
pub open spec fn flag_header(on: bool, name: Seq<char>, value: Seq<char>) -> Seq<(Seq<char>, Seq<char>)> {
    if on {
        seq![(name, value)]
    } else {
        seq![]
    }
}

/// The security headers of a configuration, in the order they are set.
pub open spec fn security_header_list(c: SecurityConfig) -> Seq<(Seq<char>, Seq<char>)> {
    opt_header("X-Frame-Options"@, c.x_frame_options)
        + flag_header(c.x_content_type_options, "X-Content-Type-Options"@, "nosniff"@)
        + flag_header(c.x_xss_protection, "X-XSS-Protection"@, "1; mode=block"@)
        + opt_header("Content-Security-Policy"@, c.content_security_policy)
        + opt_header("Strict-Transport-Security"@, c.strict_transport_security)
        + opt_header("Referrer-Policy"@, c.referrer_policy)
        + opt_header("Permissions-Policy"@, c.permissions_policy)
}

/// Every header of the list has a name and a value that HTTP accepts.
pub open spec fn all_accepted(l: Seq<(Seq<char>, Seq<char>)>) -> bool {
    forall|i: int| 0 <= i < l.len() ==> valid_header_name(#[trigger] l[i].0) && valid_header_value(l[i].1)
}

/// Two lists of accepted headers, one after the other, are accepted.
pub proof fn lemma_all_accepted_concat(a: Seq<(Seq<char>, Seq<char>)>, b: Seq<(Seq<char>, Seq<char>)>)
    requires
        all_accepted(a),
        all_accepted(b),
    ensures
        all_accepted(a + b),
{
    assert forall|i: int| 0 <= i < (a + b).len() implies valid_header_name(#[trigger] (a + b)[i].0)
        && valid_header_value((a + b)[i].1) by {
        if i >= a.len() {
            assert((a + b)[i] == b[i - a.len()]);
            assert(valid_header_name(b[i - a.len()].0));
        } else {
            assert((a + b)[i] == a[i]);
            assert(valid_header_name(a[i].0));
        }
    }
}

/// The security headers carry only names and values that HTTP accepts.
pub proof fn lemma_security_headers_accepted(c: SecurityConfig)
    ensures
        all_accepted(security_header_list(c)),
{
    reveal_strlit("X-Frame-Options");
    reveal_strlit("X-Content-Type-Options");
    reveal_strlit("nosniff");
    reveal_strlit("X-XSS-Protection");
    reveal_strlit("1; mode=block");
    reveal_strlit("Content-Security-Policy");
    reveal_strlit("Strict-Transport-Security");
    reveal_strlit("Referrer-Policy");
    reveal_strlit("Permissions-Policy");
    assert(valid_header_name("X-Frame-Options"@));
    assert(valid_header_name("X-Content-Type-Options"@));
    assert(valid_header_value("nosniff"@));
    assert(valid_header_name("X-XSS-Protection"@));
    assert(valid_header_value("1; mode=block"@));
    assert(valid_header_name("Content-Security-Policy"@));
    assert(valid_header_name("Strict-Transport-Security"@));
    assert(valid_header_name("Referrer-Policy"@));
    assert(valid_header_name("Permissions-Policy"@));
    let a = opt_header("X-Frame-Options"@, c.x_frame_options);
    let b = flag_header(c.x_content_type_options, "X-Content-Type-Options"@, "nosniff"@);
    let d = flag_header(c.x_xss_protection, "X-XSS-Protection"@, "1; mode=block"@);
    let e = opt_header("Content-Security-Policy"@, c.content_security_policy);
    let f = opt_header("Strict-Transport-Security"@, c.strict_transport_security);
    let g = opt_header("Referrer-Policy"@, c.referrer_policy);
    let h = opt_header("Permissions-Policy"@, c.permissions_policy);
    assert(all_accepted(a));
    assert(all_accepted(b));
    assert(all_accepted(d));
    assert(all_accepted(e));
    assert(all_accepted(f));
    assert(all_accepted(g));
    assert(all_accepted(h));
    lemma_all_accepted_concat(a, b);
    lemma_all_accepted_concat(a + b, d);
    lemma_all_accepted_concat(a + b + d, e);
    lemma_all_accepted_concat(a + b + d + e, f);
    lemma_all_accepted_concat(a + b + d + e + f, g);
    lemma_all_accepted_concat(a + b + d + e + f + g, h);
}

/// Appends one header.
pub fn push_header(out: &mut Vec<(String, String)>, name: &str, value: &str)
    ensures
        pair_texts(final(out)@) == pair_texts(old(out)@).push((name@, value@)),
{
    out.push((name.to_string(), value.to_string()));
    proof {
        assert(pair_texts(out@) =~= pair_texts(old(out)@).push((name@, value@)));
    }
}

/// Appends the header of an optional configured value.
fn push_opt_header(out: &mut Vec<(String, String)>, name: &str, v: &Option<String>)
    ensures
        pair_texts(final(out)@) == pair_texts(old(out)@) + opt_header(name@, *v),
{
    match v {
        Some(s) => {
            if header_value_ok(s.as_str()) {
                push_header(out, name, s.as_str());
                assert(pair_texts(out@) =~= pair_texts(old(out)@) + opt_header(name@, *v));
            } else {
                assert(pair_texts(out@) =~= pair_texts(old(out)@) + opt_header(name@, *v));
            }
        },
        None => {
            assert(pair_texts(out@) =~= pair_texts(old(out)@) + opt_header(name@, *v));
        },
    }
}

/// Appends the header of a switch.
fn push_flag_header(out: &mut Vec<(String, String)>, on: bool, name: &str, value: &str)
    ensures
        pair_texts(final(out)@) == pair_texts(old(out)@) + flag_header(on, name@, value@),
{
    if on {
        push_header(out, name, value);
    }
    assert(pair_texts(out@) =~= pair_texts(old(out)@) + flag_header(on, name@, value@));
}

/// The security headers of a configuration (see `security_header_list`):
/// each configured value that HTTP accepts, and the two switches.
pub fn security_headers(config: &SecurityConfig) -> (r: Vec<(String, String)>)
    ensures
        pair_texts(r@) == security_header_list(*config),
{
    let mut out: Vec<(String, String)> = Vec::new();
    assert(pair_texts(out@) =~= seq![]);
    push_opt_header(&mut out, "X-Frame-Options", &config.x_frame_options);
    push_flag_header(&mut out, config.x_content_type_options, "X-Content-Type-Options", "nosniff");
    push_flag_header(&mut out, config.x_xss_protection, "X-XSS-Protection", "1; mode=block");
    push_opt_header(&mut out, "Content-Security-Policy", &config.content_security_policy);
    push_opt_header(&mut out, "Strict-Transport-Security", &config.strict_transport_security);
    push_opt_header(&mut out, "Referrer-Policy", &config.referrer_policy);
    push_opt_header(&mut out, "Permissions-Policy", &config.permissions_policy);
    assert(pair_texts(out@) =~= security_header_list(*config));
    out
}

} // verus!
