//! The decisions of the HTTP handlers: which address a request comes from,
//! how cookies and form bodies are read, which body encoding applies, how
//! a PHP script's response headers and status are taken over, and the
//! texts of the error responses.

use vstd::prelude::*;
use crate::config::SecurityConfig;
use crate::rate_limit::{lemma_rate_headers_accepted, push_rate_headers, rate_header_list, RateLimitHeaders};
use crate::security::{
    all_accepted, header_name_ok, header_value_ok, lemma_all_accepted_concat,
    lemma_security_headers_accepted, push_header, security_header_list, security_headers,
    valid_header_name, valid_header_value,
};
use crate::text::{
    chars_eq_ignore_ascii_case, chars_of, contains_chars, contains_seq, decimal,
    eq_ignore_ascii_case, first_occurrence, first_occurrence_from, index_of, index_of_from,
    occurs_at, pair_texts, push_decimal, push_str, split_char, split_chars, string_of_range, trim,
    trim_bounds, trim_char, trim_char_range, utf8,
};

verus! {

/// A hexadecimal digit (`0`-`9`, `A`-`F`, `a`-`f`), as a byte.
pub open spec fn is_hex_digit(b: u8) -> bool {
    (0x30 <= b && b <= 0x39) || (0x41 <= b && b <= 0x46) || (0x61 <= b && b <= 0x66)
}

/// The value of a hexadecimal digit byte.
pub open spec fn hex_value(b: u8) -> int {
    if b <= 0x39 {
        b - 0x30
    } else if b <= 0x46 {
        b - 0x41 + 10
    } else {
        b - 0x61 + 10
    }
}

/// Percent-decoding of bytes: `%` followed by two hexadecimal digits
/// becomes the byte they name; every other byte (a `%` without two digits
/// after it, a `+`) stays as it is.
pub open spec fn percent_decode_bytes(b: Seq<u8>) -> Seq<u8>
    decreases b.len(),
{
    if b.len() == 0 {
        Seq::<u8>::empty()
    } else if b[0] == 0x25 && b.len() >= 3 && is_hex_digit(b[1]) && is_hex_digit(b[2]) {
        seq![(hex_value(b[1]) * 16 + hex_value(b[2])) as u8] + percent_decode_bytes(
            b.subrange(3, b.len() as int),
        )
    } else {
        seq![b[0]] + percent_decode_bytes(b.subrange(1, b.len() as int))
    }
}

/// What `urlencoding::decode` gives for a text: the text whose UTF-8 bytes
/// are the percent-decoded bytes of the input, or `None` when those bytes
/// are not UTF-8.
pub open spec fn url_decoded(s: Seq<char>) -> Option<Seq<char>> {
    let b = percent_decode_bytes(utf8(s));
    if vstd::utf8::valid_utf8(b) {
        Some(vstd::utf8::decode_utf8(b))
    } else {
        None
    }
}

/// `urlencoding::decode(s)`, owned: it percent-decodes the UTF-8 bytes of
/// `s` (see `percent_decode_bytes`; a text without `%` comes back as it
/// is) and fails when the decoded bytes are not UTF-8.
#[verifier::external_body]
fn url_decode(s: &str) -> (r: Option<String>)
    ensures
        r is None <==> url_decoded(s@) is None,
        r matches Some(v) ==> url_decoded(s@) == Some(v@),
{
    match urlencoding::decode(s) {
        Ok(v) => Some(v.into_owned()),
        Err(_) => None,
    }
}

/// The text of a header value: `Some(Some(text))` when the header is
/// present and readable, `Some(None)` when present but not readable text.
pub open spec fn header_text(h: Option<Option<&str>>) -> Option<Option<Seq<char>>> {
    match h {
        None => None,
        Some(None) => Some(None),
        Some(Some(v)) => Some(Some(v@)),
    }
}

/// The client address: `X-Forwarded-For` when present, else `X-Real-IP`,
/// else the peer address; an unreadable header value counts as `unknown`.
pub open spec fn client_ip_spec(
    forwarded: Option<Option<Seq<char>>>,
    real_ip: Option<Option<Seq<char>>>,
    peer: Seq<char>,
) -> Seq<char> {
    match forwarded {
        Some(Some(v)) => v,
        Some(None) => "unknown"@,
        None => match real_ip {
            Some(Some(v)) => v,
            Some(None) => "unknown"@,
            None => peer,
        },
    }
}

/// Picks the client address (see `client_ip_spec`).
pub fn client_ip(forwarded: Option<Option<&str>>, real_ip: Option<Option<&str>>, peer: &str) -> (r: String)
    ensures
        r@ == client_ip_spec(header_text(forwarded), header_text(real_ip), peer@),
{
    let mut s = String::new();
    match forwarded {
        Some(Some(v)) => push_str(&mut s, v),
        Some(None) => push_str(&mut s, "unknown"),
        None => match real_ip {
            Some(Some(v)) => push_str(&mut s, v),
            Some(None) => push_str(&mut s, "unknown"),
            None => push_str(&mut s, peer),
        },
    }
    s
}

/// One cookie of a `Cookie` header piece: the trimmed piece split at its
/// first `=`; a piece without `=` gives none.
pub open spec fn cookie_pair(piece: Seq<char>) -> Option<(Seq<char>, Seq<char>)> {
    let t = trim(piece);
    let k = index_of(t, '=');
    if k < 0 {
        None
    } else {
        Some((t.take(k), t.skip(k + 1)))
    }
}

/// The cookies of the pieces, in order.
pub open spec fn cookie_pairs(pieces: Seq<Seq<char>>) -> Seq<(Seq<char>, Seq<char>)>
    decreases pieces.len(),
{
    if pieces.len() == 0 {
        Seq::empty()
    } else {
        cookie_pairs(pieces.drop_last()) + match cookie_pair(pieces.last()) {
            Some(p) => seq![p],
            None => Seq::empty(),
        }
    }
}

/// Splits `t[lo..hi]` at its first `c`.
fn split_once_range(t: &Vec<char>, c: char) -> (r: Option<(String, String)>)
    ensures
        match r {
            Some((a, b)) => index_of(t@, c) >= 0 && a@ == t@.take(index_of(t@, c)) && b@ == t@.skip(
                index_of(t@, c) + 1,
            ),
            None => index_of(t@, c) < 0,
        },
{
    let n = t.len();
    proof {
        assert(t@.subrange(0, n as int) =~= t@);
    }
    match index_of_from(t, 0, c) {
        Some(k) => {
            let a = string_of_range(t, 0, k);
            let b = string_of_range(t, k + 1, n);
            proof {
                assert(t@.subrange(0, k as int) =~= t@.take(k as int));
                assert(t@.subrange(k + 1, n as int) =~= t@.skip(k + 1));
            }
            Some((a, b))
        },
        None => None,
    }
}

/// The cookies of a `Cookie` header, in order (a later cookie of the same
/// name is meant to win when they are put in a map).
pub fn parse_cookies(header: &str) -> (r: Vec<(String, String)>)
    ensures
        pair_texts(r@) == cookie_pairs(split_char(header@, ';')),
{
    let v = chars_of(header);
    let pieces = split_chars(&v, ';');
    let ghost all = split_char(v@, ';');
    let mut out: Vec<(String, String)> = Vec::new();
    let n = pieces.len();
    for i in 0..n
        invariant
            n == pieces@.len(),
            all == split_char(v@, ';'),
            pieces@.len() == all.len(),
            forall|j: int| 0 <= j < n ==> #[trigger] pieces@[j]@ == all[j],
            pair_texts(out@) == cookie_pairs(all.take(i as int)),
    {
        let (lo, hi) = trim_bounds(&pieces[i]);
        let t_str = string_of_range(&pieces[i], lo, hi);
        let t = chars_of(t_str.as_str());
        let r = split_once_range(&t, '=');
        proof {
            let tk = all.take(i + 1);
            assert(tk.drop_last() =~= all.take(i as int));
            assert(tk.last() == pieces@[i as int]@);
        }
        match r {
            Some((a, b)) => {
                out.push((a, b));
                proof {
                    assert(pair_texts(out@) =~= cookie_pairs(all.take(i + 1)));
                }
            },
            None => {
                proof {
                    assert(pair_texts(out@) =~= cookie_pairs(all.take(i + 1)));
                }
            },
        }
    }
    proof {
        assert(all.take(n as int) =~= all);
    }
    out
}

/// One field of a URL-encoded body piece: split at the first `=`, both
/// halves percent-decoded; a piece without `=`, or a half that does not
/// decode, gives none.
pub open spec fn form_pair(piece: Seq<char>) -> Option<(Seq<char>, Seq<char>)> {
    let k = index_of(piece, '=');
    if k < 0 {
        None
    } else {
        match (url_decoded(piece.take(k)), url_decoded(piece.skip(k + 1))) {
            (Some(a), Some(b)) => Some((a, b)),
            _ => None,
        }
    }
}

/// The fields of the pieces, in order.
pub open spec fn form_pairs(pieces: Seq<Seq<char>>) -> Seq<(Seq<char>, Seq<char>)>
    decreases pieces.len(),
{
    if pieces.len() == 0 {
        Seq::empty()
    } else {
        form_pairs(pieces.drop_last()) + match form_pair(pieces.last()) {
            Some(p) => seq![p],
            None => Seq::empty(),
        }
    }
}

/// The fields of an `application/x-www-form-urlencoded` body, in order.
pub fn parse_urlencoded(body: &str) -> (r: Vec<(String, String)>)
    ensures
        pair_texts(r@) == form_pairs(split_char(body@, '&')),
{
    let v = chars_of(body);
    let pieces = split_chars(&v, '&');
    let ghost all = split_char(v@, '&');
    let mut out: Vec<(String, String)> = Vec::new();
    let n = pieces.len();
    for i in 0..n
        invariant
            n == pieces@.len(),
            all == split_char(v@, '&'),
            pieces@.len() == all.len(),
            forall|j: int| 0 <= j < n ==> #[trigger] pieces@[j]@ == all[j],
            pair_texts(out@) == form_pairs(all.take(i as int)),
    {
        let r = split_once_range(&pieces[i], '=');
        proof {
            let tk = all.take(i + 1);
            assert(tk.drop_last() =~= all.take(i as int));
            assert(tk.last() == pieces@[i as int]@);
        }
        match r {
            Some((a, b)) => {
                let ka = url_decode(a.as_str());
                let kb = url_decode(b.as_str());
                match (ka, kb) {
                    (Some(x), Some(y)) => {
                        out.push((x, y));
                        proof {
                            assert(pair_texts(out@) =~= form_pairs(all.take(i + 1)));
                        }
                    },
                    _ => {
                        proof {
                            assert(pair_texts(out@) =~= form_pairs(all.take(i + 1)));
                        }
                    },
                }
            },
            None => {
                proof {
                    assert(pair_texts(out@) =~= form_pairs(all.take(i + 1)));
                }
            },
        }
    }
    proof {
        assert(all.take(n as int) =~= all);
    }
    out
}

/// How a request body is read.
#[derive(Clone, Copy, Debug, PartialEq, Eq)]
pub enum BodyKind {
    Multipart,
    UrlEncoded,
    Other,
}

/// The body kind of a `Content-Type`.
pub open spec fn body_kind_of(content_type: Seq<char>) -> BodyKind {
    if contains_seq(content_type, "multipart/form-data"@) {
        BodyKind::Multipart
    } else if contains_seq(content_type, "application/x-www-form-urlencoded"@) {
        BodyKind::UrlEncoded
    } else {
        BodyKind::Other
    }
}

/// Classifies a request body by its `Content-Type`.
pub fn body_kind(content_type: &str) -> (r: BodyKind)
    ensures
        r == body_kind_of(content_type@),
{
    let v = chars_of(content_type);
    let m = chars_of("multipart/form-data");
    if contains_chars(&v, &m) {
        return BodyKind::Multipart;
    }
    let u = chars_of("application/x-www-form-urlencoded");
    if contains_chars(&v, &u) {
        return BodyKind::UrlEncoded;
    }
    BodyKind::Other
}

/// The text between the first and the second `boundary=` of a
/// `Content-Type` (to its end when there is no second), trimmed of
/// whitespace and then of quotes, as
/// `split("boundary=").nth(1).map(|b| b.trim().trim_matches('"'))` gives
/// it; `None` when there is no `boundary=` or the result is empty.
pub open spec fn boundary_of(ct: Seq<char>) -> Option<Seq<char>> {
    let key = "boundary="@;
    let i = first_occurrence_from(ct, key, 0);
    if i < 0 {
        None
    } else {
        let start = i + key.len();
        let j = first_occurrence_from(ct, key, start);
        let seg = if j < 0 {
            ct.subrange(start, ct.len() as int)
        } else {
            ct.subrange(start, j)
        };
        let b = trim_char(trim(seg), '"');
        if b.len() == 0 {
            None
        } else {
            Some(b)
        }
    }
}

/// The multipart boundary of a `Content-Type` (see `boundary_of`).
pub fn multipart_boundary(content_type: &str) -> (r: Option<String>)
    ensures
        match r {
            Some(b) => boundary_of(content_type@) == Some(b@),
            None => boundary_of(content_type@) is None,
        },
{
    let v = chars_of(content_type);
    let key = chars_of("boundary=");
    proof {
        reveal_strlit("boundary=");
    }
    match first_occurrence(&v, &key, 0) {
        None => None,
        Some(i) => {
            assert(occurs_at(v@, key@, i as int));
            assert(i + key@.len() <= v@.len());
            assert(v@.len() == v.len());
            let start = i + key.len();
            let end = match first_occurrence(&v, &key, start) {
                Some(j) => {
                    assert(occurs_at(v@, key@, j as int));
                    j
                },
                None => v.len(),
            };
            let seg = string_of_range(&v, start, end);
            let segv = chars_of(seg.as_str());
            let (lo, hi) = trim_bounds(&segv);
            let b = trim_char_range(&segv, lo, hi, '"');
            if b.as_str().is_empty() {
                None
            } else {
                Some(b)
            }
        },
    }
}

/// The name part of a header line: the text before its first `:`.
pub open spec fn header_line_name(h: Seq<char>) -> Option<Seq<char>> {
    let k = index_of(h, ':');
    if k < 0 {
        None
    } else {
        Some(h.take(k))
    }
}

/// A header line of a PHP script's response, parsed: name and value around
/// the first `:`, both trimmed; none when there is no `:` or the name is
/// empty.
pub open spec fn header_line(h: Seq<char>) -> Option<(Seq<char>, Seq<char>)> {
    let k = index_of(h, ':');
    if k < 0 {
        None
    } else if trim(h.take(k)).len() == 0 {
        None
    } else {
        Some((trim(h.take(k)), trim(h.skip(k + 1))))
    }
}

/// Parses a header line (see `header_line`).
pub fn parse_header_line(h: &str) -> (r: Option<(String, String)>)
    ensures
        match r {
            Some((n, v)) => header_line(h@) == Some((n@, v@)),
            None => header_line(h@) is None,
        },
{
    let t = chars_of(h);
    match split_once_range(&t, ':') {
        None => None,
        Some((a, b)) => {
            let av = chars_of(a.as_str());
            let bv = chars_of(b.as_str());
            let (alo, ahi) = trim_bounds(&av);
            if alo == ahi {
                return None;
            }
            let (blo, bhi) = trim_bounds(&bv);
            Some((string_of_range(&av, alo, ahi), string_of_range(&bv, blo, bhi)))
        },
    }
}

/// The script set its own `Content-Type`: some header line's name, trimmed,
/// is `content-type` in any ASCII case.
pub open spec fn sets_content_type(headers: Seq<Seq<char>>) -> bool {
    exists|k: int|
        0 <= k < headers.len() && (header_line_name(#[trigger] headers[k]) matches Some(n)
            && eq_ignore_ascii_case(trim(n), "content-type"@))
}

/// Whether the script's header lines set `Content-Type`.
pub fn php_sets_content_type(headers: &[String]) -> (r: bool)
    ensures
        r == sets_content_type(headers@.map_values(|h: String| h@)),
{
    let ghost hs = headers@.map_values(|h: String| h@);
    let ct = chars_of("content-type");
    let n = headers.len();
    for k in 0..n
        invariant
            n == headers@.len(),
            hs == headers@.map_values(|h: String| h@),
            ct@ == "content-type"@,
            forall|j: int|
                0 <= j < k ==> !(header_line_name(#[trigger] hs[j]) matches Some(nm)
                    && eq_ignore_ascii_case(trim(nm), "content-type"@)),
    {
        let t = chars_of(headers[k].as_str());
        assert(t@ == hs[k as int]);
        match split_once_range(&t, ':') {
            None => {},
            Some((a, _)) => {
                let av = chars_of(a.as_str());
                let (lo, hi) = trim_bounds(&av);
                let name = string_of_range(&av, lo, hi);
                let nv = chars_of(name.as_str());
                if chars_eq_ignore_ascii_case(&nv, &ct) {
                    return true;
                }
            },
        }
    }
    false
}

/// The header a script's header line sets: the parsed name and value, when
/// HTTP accepts both; nothing otherwise.
pub open spec fn accepted_header(h: Seq<char>) -> Seq<(Seq<char>, Seq<char>)> {
    match header_line(h) {
        Some((n, v)) => if valid_header_name(n) && valid_header_value(v) {
            seq![(n, v)]
        } else {
            seq![]
        },
        None => seq![],
    }
}

/// The headers a script's header lines set, in order.
pub open spec fn script_headers(hs: Seq<Seq<char>>) -> Seq<(Seq<char>, Seq<char>)>
    decreases hs.len(),
{
    if hs.len() == 0 {
        seq![]
    } else {
        script_headers(hs.drop_last()) + accepted_header(hs.last())
    }
}

/// The headers of a PHP response, in the order they are set: the default
/// `Content-Type` unless the script set one, the security headers, the
/// rate-limit headers, then the script's own.
pub open spec fn response_header_list(
    hs: Seq<Seq<char>>,
    security: SecurityConfig,
    rate: Option<RateLimitHeaders>,
) -> Seq<(Seq<char>, Seq<char>)> {
    (if sets_content_type(hs) {
        seq![]
    } else {
        seq![("Content-Type"@, "text/html; charset=utf-8"@)]
    }) + security_header_list(security) + rate_header_list(rate) + script_headers(hs)
}

/// The headers taken over from a script are all accepted by HTTP.
proof fn lemma_script_headers_accepted(hs: Seq<Seq<char>>)
    ensures
        all_accepted(script_headers(hs)),
    decreases hs.len(),
{
    if hs.len() > 0 {
        lemma_script_headers_accepted(hs.drop_last());
        lemma_all_accepted_concat(script_headers(hs.drop_last()), accepted_header(hs.last()));
    }
}

/// A PHP response carries only header names and values that HTTP accepts,
/// whatever the script emits: lines that HTTP would refuse are left out,
/// so setting the headers on the response never fails.
pub proof fn lemma_response_headers_accepted(
    hs: Seq<Seq<char>>,
    security: SecurityConfig,
    rate: Option<RateLimitHeaders>,
)
    ensures
        all_accepted(response_header_list(hs, security, rate)),
{
    reveal_strlit("Content-Type");
    reveal_strlit("text/html; charset=utf-8");
    assert(valid_header_name("Content-Type"@));
    assert(valid_header_value("text/html; charset=utf-8"@));
    let d: Seq<(Seq<char>, Seq<char>)> = if sets_content_type(hs) {
        seq![]
    } else {
        seq![("Content-Type"@, "text/html; charset=utf-8"@)]
    };
    assert(all_accepted(d));
    lemma_security_headers_accepted(security);
    lemma_rate_headers_accepted(rate);
    lemma_script_headers_accepted(hs);
    lemma_all_accepted_concat(d, security_header_list(security));
    lemma_all_accepted_concat(d + security_header_list(security), rate_header_list(rate));
    lemma_all_accepted_concat(d + security_header_list(security) + rate_header_list(rate), script_headers(hs));
}

/// Appends the headers a script's header lines set (see `script_headers`).
pub fn push_script_headers(out: &mut Vec<(String, String)>, headers: &[String])
    ensures
        pair_texts(final(out)@) == pair_texts(old(out)@) + script_headers(
            headers@.map_values(|h: String| h@),
        ),
{
    let ghost hs = headers@.map_values(|h: String| h@);
    let ghost start = pair_texts(out@);
    let n = headers.len();
    assert(hs.take(0) =~= seq![]);
    assert(start + script_headers(hs.take(0)) =~= start);
    for k in 0..n
        invariant
            n == headers@.len() == hs.len(),
            hs == headers@.map_values(|h: String| h@),
            pair_texts(out@) == start + script_headers(hs.take(k as int)),
    {
        let ghost before = pair_texts(out@);
        assert(hs.take(k + 1).drop_last() =~= hs.take(k as int));
        assert(hs.take(k + 1).last() == headers@[k as int]@);
        match parse_header_line(headers[k].as_str()) {
            Some((name, value)) => {
                if header_name_ok(name.as_str()) && header_value_ok(value.as_str()) {
                    push_header(out, name.as_str(), value.as_str());
                }
            },
            None => {},
        }
        assert(pair_texts(out@) =~= before + accepted_header(headers@[k as int]@));
    }
    assert(hs.take(n as int) =~= hs);
}

/// The headers of a PHP response (see `response_header_list`), from the
/// script's header lines, the security configuration and the rate
/// limiter's answer.
pub fn php_response_headers(
    headers: &[String],
    security: &SecurityConfig,
    rate: &Option<RateLimitHeaders>,
) -> (r: Vec<(String, String)>)
    ensures
        pair_texts(r@) == response_header_list(
            headers@.map_values(|h: String| h@),
            *security,
            *rate,
        ),
{
    let mut out: Vec<(String, String)> = Vec::new();
    if !php_sets_content_type(headers) {
        push_header(&mut out, "Content-Type", "text/html; charset=utf-8");
    }
    let sec = security_headers(security);
    let ghost before = pair_texts(out@);
    let m = sec.len();
    for k in 0..m
        invariant
            m == sec@.len(),
            pair_texts(out@) == before + pair_texts(sec@).take(k as int),
    {
        let ghost b = pair_texts(out@);
        push_header(&mut out, sec[k].0.as_str(), sec[k].1.as_str());
        assert(pair_texts(sec@).take(k + 1) =~= pair_texts(sec@).take(k as int).push(
            pair_texts(sec@)[k as int],
        ));
    }
    assert(pair_texts(sec@).take(m as int) =~= pair_texts(sec@));
    push_rate_headers(&mut out, rate);
    push_script_headers(&mut out, headers);
    assert(pair_texts(out@) =~= response_header_list(
        headers@.map_values(|h: String| h@),
        *security,
        *rate,
    ));
    out
}

/// The status code a response takes: the script's code when HTTP accepts
/// it (100 to 999), else 200.
pub fn effective_status(code: u16) -> (r: u16)
    ensures
        r == (if 100 <= code <= 999 {
            code
        } else {
            200
        }),
{
    if 100 <= code && code <= 999 {
        code
    } else {
        200
    }
}

/// The HTML of the 404 answer when no PHP file matches the path.
pub fn not_found_page() -> (r: &'static str)
    ensures
        r@ == "<h1>404 Not Found</h1><p>The requested URL was not found on this server.</p>"@,
{
    "<h1>404 Not Found</h1><p>The requested URL was not found on this server.</p>"
}

/// The HTML of the 500 answer when no pool takes the path.
pub fn no_pool_page() -> (r: &'static str)
    ensures
        r@ == "<h1>500 Error</h1><p>No suitable worker pool found</p>"@,
{
    "<h1>500 Error</h1><p>No suitable worker pool found</p>"
}

/// The error-log message for a client over its rate limit.
pub fn rate_limited_message(ip: &str, uri: &str) -> (r: String)
    ensures
        r@ == "Rate limit exceeded for IP: "@ + ip@ + " (URI: "@ + uri@ + ")"@,
{
    let mut s = String::new();
    push_str(&mut s, "Rate limit exceeded for IP: ");
    push_str(&mut s, ip);
    push_str(&mut s, " (URI: ");
    push_str(&mut s, uri);
    push_str(&mut s, ")");
    s
}

/// The error-log message for a path that no pool takes.
pub fn no_pool_message(path: &str, uri: &str) -> (r: String)
    ensures
        r@ == "No suitable pool for path: "@ + path@ + " (URI: "@ + uri@ + ")"@,
{
    let mut s = String::new();
    push_str(&mut s, "No suitable pool for path: ");
    push_str(&mut s, path);
    push_str(&mut s, " (URI: ");
    push_str(&mut s, uri);
    push_str(&mut s, ")");
    s
}

/// The error-log message for a worker of a pool: `Worker #i in pool 'p'`,
/// the event, the error and the URI.
pub open spec fn worker_message_text(
    index: usize,
    pool: Seq<char>,
    event: Seq<char>,
    error: Seq<char>,
    uri: Seq<char>,
) -> Seq<char> {
    "Worker #"@ + decimal(index as nat) + " in pool '"@ + pool + "' "@ + event + ": "@ + error
        + " (URI: "@ + uri + ")"@
}

fn worker_message(index: usize, pool: &str, event: &str, error: &str, uri: &str) -> (r: String)
    ensures
        r@ == worker_message_text(index, pool@, event@, error@, uri@),
{
    let mut s = String::new();
    push_str(&mut s, "Worker #");
    push_decimal(&mut s, index as u64);
    push_str(&mut s, " in pool '");
    push_str(&mut s, pool);
    push_str(&mut s, "' ");
    push_str(&mut s, event);
    push_str(&mut s, ": ");
    push_str(&mut s, error);
    push_str(&mut s, " (URI: ");
    push_str(&mut s, uri);
    push_str(&mut s, ")");
    s
}

/// The error-log message for a worker that could not be started.
pub fn worker_start_failed_message(index: usize, pool: &str, error: &str, uri: &str) -> (r: String)
    ensures
        r@ == worker_message_text(index, pool@, "failed to start"@, error@, uri@),
{
    worker_message(index, pool, "failed to start", error, uri)
}

/// The error-log message for a worker whose answer failed.
pub fn worker_failed_message(index: usize, pool: &str, error: &str, uri: &str) -> (r: String)
    ensures
        r@ == worker_message_text(index, pool@, "failed"@, error@, uri@),
{
    worker_message(index, pool, "failed", error, uri)
}

/// The error-log message for a body that could not be read.
pub fn body_read_failed_message(error: &str, uri: &str) -> (r: String)
    ensures
        r@ == "Failed to read body: "@ + error@ + " (URI: "@ + uri@ + ")"@,
{
    let mut s = String::new();
    push_str(&mut s, "Failed to read body: ");
    push_str(&mut s, error);
    push_str(&mut s, " (URI: ");
    push_str(&mut s, uri);
    push_str(&mut s, ")");
    s
}

/// The error-log message for a worker that did not answer in time.
pub fn timeout_message(timeout_ms: u64, uri: &str) -> (r: String)
    ensures
        r@ == "Request timeout after "@ + decimal(timeout_ms as nat) + "ms (URI: "@ + uri@ + ")"@,
{
    let mut s = String::new();
    push_str(&mut s, "Request timeout after ");
    push_decimal(&mut s, timeout_ms);
    push_str(&mut s, "ms (URI: ");
    push_str(&mut s, uri);
    push_str(&mut s, ")");
    s
}

/// The HTML of a 500 answer carrying a message.
pub fn error_page(message: &str) -> (r: String)
    ensures
        r@ == "<h1>500 Error</h1><p>"@ + message@ + "</p>"@,
{
    let mut s = String::new();
    push_str(&mut s, "<h1>500 Error</h1><p>");
    push_str(&mut s, message);
    push_str(&mut s, "</p>");
    s
}

/// The HTML of the 500 answer when a worker fails to start.
pub fn worker_start_failed_page(error: &str) -> (r: String)
    ensures
        r@ == "<h1>500 Error</h1><p>Failed to start worker: "@ + error@ + "</p>"@,
{
    let mut s = String::new();
    push_str(&mut s, "<h1>500 Error</h1><p>Failed to start worker: ");
    push_str(&mut s, error);
    push_str(&mut s, "</p>");
    s
}

/// The HTML of the 400 answer when the body cannot be read.
pub fn bad_body_page(error: &str) -> (r: String)
    ensures
        r@ == "<h1>400 Bad Request</h1><p>Failed to read body: "@ + error@ + "</p>"@,
{
    let mut s = String::new();
    push_str(&mut s, "<h1>400 Bad Request</h1><p>Failed to read body: ");
    push_str(&mut s, error);
    push_str(&mut s, "</p>");
    s
}

/// The HTML of the 504 answer after the pool's timeout.
pub fn gateway_timeout_page(timeout_ms: u64) -> (r: String)
    ensures
        r@ == "<h1>504 Gateway Timeout</h1><p>The server did not receive a timely response from the PHP worker.</p><p>Timeout: "@
            + decimal(timeout_ms as nat) + "ms</p>"@,
{
    let mut s = String::new();
    push_str(
        &mut s,
        "<h1>504 Gateway Timeout</h1><p>The server did not receive a timely response from the PHP worker.</p><p>Timeout: ",
    );
    push_decimal(&mut s, timeout_ms);
    push_str(&mut s, "ms</p>");
    s
}

/// The answer to a job submission.
pub struct JobResponse {
    pub job_id: String,
    pub status: String,
    pub message: String,
}

impl JobResponse {
    /// The answer for a job that was queued.
    pub fn queued(job_id: String) -> (r: Self)
        ensures
            r.job_id == job_id,
            r.status@ == "pending"@,
            r.message@ == "Job successfully queued"@,
    {
        JobResponse {
            job_id,
            status: "pending".to_string(),
            message: "Job successfully queued".to_string(),
        }
    }
}

} // verus!
