//! Access to the admin routes: the token comparison and the decision to
//! let a request through, refuse it as unauthorized, or refuse all admin
//! access while no token is configured.

use vstd::prelude::*;
use crate::text::{chars_eq_ignore_ascii_case, chars_of, eq_ignore_ascii_case, str_eq, utf8};

verus! {

/// Compares two byte strings without stopping at the first difference:
/// every byte pair is looked at (only the lengths may cut it short).
pub fn constant_time_eq(a: &[u8], b: &[u8]) -> (r: bool)
    ensures
        r == (a@ == b@),
{
    if a.len() != b.len() {
        return false;
    }
    let n = a.len();
    let mut diff: u8 = 0;
    for i in 0..n
        invariant
            n == a@.len(),
            n == b@.len(),
            (diff == 0) == (forall|j: int| 0 <= j < i ==> a@[j] == b@[j]),
    {
        let x = a[i];
        let y = b[i];
        let d = diff;
        diff = diff | (x ^ y);
        assert((d | (x ^ y)) == 0 <==> (d == 0 && x == y)) by (bit_vector);
    }
    if diff == 0 {
        assert(a@ =~= b@);
        true
    } else {
        false
    }
}

/// What happens to a request for an admin route.
#[derive(Clone, Copy, Debug, PartialEq, Eq)]
pub enum AdminAccess {
    /// The request goes on to its handler.
    Allow,
    /// No token is configured: admin routes are closed (503).
    Unavailable,
    /// The request's token does not match (401).
    Unauthorized,
}

/// A value of `BAKPIA_ADMIN_INSECURE` that opens admin routes while no
/// token is set: `1`, or `true` in any ASCII case.
pub open spec fn insecure_opt_in(v: Seq<char>) -> bool {
    v == "1"@ || eq_ignore_ascii_case(v, "true"@)
}

/// The decision for a request: `expected` is the configured token (empty
/// when none), `insecure` the opt-out variable when set, `provided` the
/// request's `X-Admin-Token` header when it is readable text.
pub open spec fn admin_access(
    expected: Seq<char>,
    insecure: Option<Seq<char>>,
    provided: Option<Seq<char>>,
) -> AdminAccess {
    if expected.len() == 0 {
        if insecure matches Some(v) && insecure_opt_in(v) {
            AdminAccess::Allow
        } else {
            AdminAccess::Unavailable
        }
    } else {
        let p = match provided {
            Some(p) => p,
            None => Seq::<char>::empty(),
        };
        if p == expected {
            AdminAccess::Allow
        } else {
            AdminAccess::Unauthorized
        }
    }
}

/// Decides whether an admin request may proceed (see `admin_access`).
pub fn admin_auth_decision(expected: &str, insecure: Option<&str>, provided: Option<&str>) -> (r: AdminAccess)
    ensures
        r == admin_access(
            expected@,
            match insecure {
                Some(v) => Some(v@),
                None => None,
            },
            match provided {
                Some(v) => Some(v@),
                None => None,
            },
        ),
{
    if expected.is_empty() {
        let opt_in = match insecure {
            Some(v) => {
                let chars = chars_of(v);
                let t = chars_of("true");
                str_eq(v, "1") || chars_eq_ignore_ascii_case(&chars, &t)
            },
            None => false,
        };
        if opt_in {
            return AdminAccess::Allow;
        }
        return AdminAccess::Unavailable;
    }
    let p: &str = match provided {
        Some(p) => p,
        None => "",
    };
    proof {
        broadcast use vstd::utf8::encode_utf8_decode_utf8;
        assert(utf8(p@) == utf8(expected@) ==> vstd::utf8::decode_utf8(utf8(p@))
            == vstd::utf8::decode_utf8(utf8(expected@)));
        reveal_strlit("");
    }
    if constant_time_eq(p.as_bytes(), expected.as_bytes()) {
        AdminAccess::Allow
    } else {
        AdminAccess::Unauthorized
    }
}

/// Admin routes fail closed: with no token configured and no opt-out, every
/// request is refused; with a token configured, a request gets through
/// exactly when it presents that token.
pub proof fn lemma_admin_fail_closed(
    expected: Seq<char>,
    insecure: Option<Seq<char>>,
    provided: Option<Seq<char>>,
)
    ensures
        expected.len() == 0 && !(insecure matches Some(v) && insecure_opt_in(v)) ==> admin_access(
            expected,
            insecure,
            provided,
        ) == AdminAccess::Unavailable,
        expected.len() > 0 ==> (admin_access(expected, insecure, provided) == AdminAccess::Allow
            <==> provided == Some(expected)),
{
}

} // verus!
