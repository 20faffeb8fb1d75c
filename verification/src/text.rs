//! Character-level helpers shared by the rest of the library: decimal
//! rendering, ASCII case folding, Unicode whitespace trimming and the
//! conversions between `&str`, `Vec<char>` and `String`.

use vstd::prelude::*;

verus! {

broadcast use vstd::string::group_string_axioms;

/// The UTF-8 encoding of a text.
pub open spec fn utf8(s: Seq<char>) -> Seq<u8> {
    vstd::utf8::encode_utf8(s)
}

/// A list of string pairs (names and values), each taken as text.
pub open spec fn pair_texts(v: Seq<(String, String)>) -> Seq<(Seq<char>, Seq<char>)> {
    v.map_values(|p: (String, String)| (p.0@, p.1@))
}

/// The character of a decimal digit `d` (`0 <= d < 10`).
pub open spec fn digit_char(d: int) -> char {
    (48 + d) as char
}

/// Decimal rendering of a natural number, most significant digit first,
/// with no leading zeros (zero renders as `"0"`).
pub open spec fn decimal(n: nat) -> Seq<char>
    decreases n,
{
    if n < 10 {
        seq![digit_char(n as int)]
    } else {
        decimal(n / 10).push(digit_char((n % 10) as int))
    }
}

/// Decimal rendering of an integer: a leading `-` for negative values.
pub open spec fn decimal_signed(n: int) -> Seq<char> {
    if n < 0 {
        seq!['-'] + decimal((-n) as nat)
    } else {
        decimal(n as nat)
    }
}

/// `String::push`: appends the character to the end of the string.
#[verifier::external_body]
pub(crate) fn push_char(s: &mut String, c: char)
    ensures
        final(s)@ == old(s)@.push(c),
{
    s.push(c)
}

/// The characters of a string slice, in order.
pub fn chars_of(s: &str) -> (v: Vec<char>)
    ensures
        v@ == s@,
{
    let mut v: Vec<char> = Vec::new();
    for c in it: s.chars()
        invariant
            it.seq() == s@,
            v@ == it.seq().take(it.index()),
    {
        v.push(c);
    }
    v
}


/// Appends the decimal rendering of `n` to `s`.
pub fn push_decimal(s: &mut String, n: u64)
    ensures
        final(s)@ == old(s)@ + decimal(n as nat),
    decreases n,
{
    if n >= 10 {
        push_decimal(s, n / 10);
    }
    let d: u8 = (n % 10) as u8;
    push_char(s, (48u8 + d) as char);
    proof {
        assert(decimal(n as nat) == if n < 10 { seq![digit_char(n as int)] } else {
            decimal((n / 10) as nat).push(digit_char((n % 10) as int))
        });
    }
}

/// `n.to_string()` for an unsigned integer.
pub fn u64_to_string(n: u64) -> (r: String)
    ensures
        r@ == decimal(n as nat),
{
    let mut s = String::new();
    push_decimal(&mut s, n);
    s
}

/// `n.to_string()` for a signed integer.
pub fn i64_to_string(n: i64) -> (r: String)
    ensures
        r@ == decimal_signed(n as int),
{
    let mut s = String::new();
    if n < 0 {
        push_char(&mut s, '-');
        let m: u64 = if n == i64::MIN { 9223372036854775808u64 } else { (-n) as u64 };
        push_decimal(&mut s, m);
    } else {
        push_decimal(&mut s, n as u64);
    }
    s
}

/// Appends every character of `v` to `s`.
pub fn push_chars(s: &mut String, v: &[char])
    ensures
        final(s)@ == old(s)@ + v@,
{
    let n = v.len();
    for i in 0..n
        invariant
            n == v@.len(),
            s@ == old(s)@ + v@.take(i as int),
    {
        push_char(s, v[i]);
        proof {
            assert(v@.take(i + 1) =~= v@.take(i as int).push(v@[i as int]));
        }
    }
    proof {
        assert(v@.take(n as int) =~= v@);
    }
}

/// Appends the characters `v[lo..hi]` to `s`.
pub fn push_char_range(s: &mut String, v: &[char], lo: usize, hi: usize)
    requires
        lo <= hi <= v@.len(),
    ensures
        final(s)@ == old(s)@ + v@.subrange(lo as int, hi as int),
{
    let mut i = lo;
    while i < hi
        invariant
            lo <= i <= hi <= v@.len(),
            s@ == old(s)@ + v@.subrange(lo as int, i as int),
        decreases hi - i,
    {
        push_char(s, v[i]);
        proof {
            assert(v@.subrange(lo as int, i + 1) =~= v@.subrange(lo as int, i as int).push(
                v@[i as int],
            ));
        }
        i = i + 1;
    }
}

/// The string made of the characters `v[lo..hi]`.
pub fn string_of_range(v: &[char], lo: usize, hi: usize) -> (r: String)
    requires
        lo <= hi <= v@.len(),
    ensures
        r@ == v@.subrange(lo as int, hi as int),
{
    let mut s = String::new();
    push_char_range(&mut s, v, lo, hi);
    s
}

/// The string made of the characters of `v`.
pub fn string_of_chars(v: &[char]) -> (r: String)
    ensures
        r@ == v@,
{
    let mut s = String::new();
    push_chars(&mut s, v);
    s
}

/// ASCII lower-casing of one character; other characters are unchanged.
pub open spec fn ascii_lower(c: char) -> char {
    if 'A' <= c && c <= 'Z' {
        ((c as u32) + 32) as char
    } else {
        c
    }
}

/// ASCII upper-casing of one character; other characters are unchanged.
pub open spec fn ascii_upper(c: char) -> char {
    if 'a' <= c && c <= 'z' {
        ((c as u32) - 32) as char
    } else {
        c
    }
}

/// Text made only of ASCII characters.
pub open spec fn is_ascii_text(s: Seq<char>) -> bool {
    forall|i: int| 0 <= i < s.len() ==> (#[trigger] s[i] as u32) < 128
}

/// ASCII lower-casing of every character of `s`.
pub open spec fn ascii_lowercase(s: Seq<char>) -> Seq<char> {
    Seq::new(s.len(), |i: int| ascii_lower(s[i]))
}

/// ASCII upper-casing of every character of `s`.
pub open spec fn ascii_uppercase(s: Seq<char>) -> Seq<char> {
    Seq::new(s.len(), |i: int| ascii_upper(s[i]))
}

/// `a` and `b` are equal up to ASCII case.
pub open spec fn eq_ignore_ascii_case(a: Seq<char>, b: Seq<char>) -> bool {
    &&& a.len() == b.len()
    &&& forall|i: int| 0 <= i < a.len() ==> ascii_lower(#[trigger] a[i]) == ascii_lower(b[i])
}

/// Executable `ascii_lower`.
pub fn lower_ascii_char(c: char) -> (r: char)
    ensures
        r == ascii_lower(c),
{
    if 'A' <= c && c <= 'Z' {
        let u: u8 = c as u8;
        ((u + 32) as char)
    } else {
        c
    }
}

/// Whether the two character sequences are equal up to ASCII case.
pub fn chars_eq_ignore_ascii_case(a: &[char], b: &[char]) -> (r: bool)
    ensures
        r == eq_ignore_ascii_case(a@, b@),
{
    if a.len() != b.len() {
        return false;
    }
    let n = a.len();
    for i in 0..n
        invariant
            n == a@.len(),
            n == b@.len(),
            forall|j: int| 0 <= j < i ==> ascii_lower(#[trigger] a@[j]) == ascii_lower(b@[j]),
    {
        if lower_ascii_char(a[i]) != lower_ascii_char(b[i]) {
            return false;
        }
    }
    true
}

/// The Unicode `White_Space` property, which `char::is_whitespace` tests.
pub open spec fn is_whitespace(c: char) -> bool {
    let u = c as u32;
    ||| 0x09 <= u <= 0x0d
    ||| u == 0x20
    ||| u == 0x85
    ||| u == 0xa0
    ||| u == 0x1680
    ||| 0x2000 <= u <= 0x200a
    ||| u == 0x2028
    ||| u == 0x2029
    ||| u == 0x202f
    ||| u == 0x205f
    ||| u == 0x3000
}

/// Executable `is_whitespace`.
pub fn char_is_whitespace(c: char) -> (r: bool)
    ensures
        r == is_whitespace(c),
{
    let u: u32 = c as u32;
    (0x09 <= u && u <= 0x0d) || u == 0x20 || u == 0x85 || u == 0xa0 || u == 0x1680 || (0x2000 <= u
        && u <= 0x200a) || u == 0x2028 || u == 0x2029 || u == 0x202f || u == 0x205f || u == 0x3000
}

/// `str::trim_start`: drops the leading whitespace.
pub open spec fn trim_start(s: Seq<char>) -> Seq<char>
    decreases s.len(),
{
    if s.len() > 0 && is_whitespace(s[0]) {
        trim_start(s.drop_first())
    } else {
        s
    }
}

/// `str::trim_end`: drops the trailing whitespace.
pub open spec fn trim_end(s: Seq<char>) -> Seq<char>
    decreases s.len(),
{
    if s.len() > 0 && is_whitespace(s.last()) {
        trim_end(s.drop_last())
    } else {
        s
    }
}

/// `str::trim`: drops leading and trailing whitespace.
pub open spec fn trim(s: Seq<char>) -> Seq<char> {
    trim_end(trim_start(s))
}

proof fn lemma_trim_start_at(s: Seq<char>, k: int)
    requires
        0 <= k <= s.len(),
        forall|j: int| 0 <= j < k ==> is_whitespace(#[trigger] s[j]),
        k == s.len() || !is_whitespace(s[k]),
    ensures
        trim_start(s) == s.subrange(k, s.len() as int),
    decreases k,
{
    if k == 0 {
        assert(s.subrange(0, s.len() as int) =~= s);
    } else {
        assert(is_whitespace(s[0]));
        let t = s.drop_first();
        assert forall|j: int| 0 <= j < k - 1 implies is_whitespace(#[trigger] t[j]) by {
            assert(t[j] == s[j + 1]);
        }
        lemma_trim_start_at(t, k - 1);
        assert(t.subrange(k - 1, t.len() as int) =~= s.subrange(k, s.len() as int));
    }
}

proof fn lemma_trim_end_at(s: Seq<char>, k: int)
    requires
        0 <= k <= s.len(),
        forall|j: int| k <= j < s.len() ==> is_whitespace(#[trigger] s[j]),
        k == 0 || !is_whitespace(s[k - 1]),
    ensures
        trim_end(s) == s.subrange(0, k),
    decreases s.len() - k,
{
    if k == s.len() {
        assert(s.subrange(0, k) =~= s);
    } else {
        assert(is_whitespace(s.last()));
        let t = s.drop_last();
        assert forall|j: int| k <= j < t.len() implies is_whitespace(#[trigger] t[j]) by {
            assert(t[j] == s[j]);
        }
        lemma_trim_end_at(t, k);
        assert(t.subrange(0, k) =~= s.subrange(0, k));
    }
}

/// The bounds `(lo, hi)` such that `trim(v@) == v@[lo..hi]`.
pub fn trim_bounds(v: &[char]) -> (r: (usize, usize))
    ensures
        r.0 <= r.1 <= v@.len(),
        trim(v@) == v@.subrange(r.0 as int, r.1 as int),
{
    let n = v.len();
    let mut lo: usize = 0;
    while lo < n && char_is_whitespace(v[lo])
        invariant
            lo <= n == v@.len(),
            forall|j: int| 0 <= j < lo ==> is_whitespace(#[trigger] v@[j]),
        decreases n - lo,
    {
        lo = lo + 1;
    }
    let mut hi: usize = n;
    while hi > lo && char_is_whitespace(v[hi - 1])
        invariant
            lo <= hi <= n == v@.len(),
            forall|j: int| hi <= j < n ==> is_whitespace(#[trigger] v@[j]),
        decreases hi,
    {
        hi = hi - 1;
    }
    proof {
        lemma_trim_start_at(v@, lo as int);
        let t = v@.subrange(lo as int, n as int);
        assert forall|j: int| hi - lo <= j < t.len() implies is_whitespace(#[trigger] t[j]) by {
            assert(t[j] == v@[j + lo]);
        }
        lemma_trim_end_at(t, hi - lo);
        assert(t.subrange(0, hi - lo) =~= v@.subrange(lo as int, hi as int));
    }
    (lo, hi)
}

/// `s.trim().to_string()` on a character sequence.
pub fn trimmed(v: &[char]) -> (r: String)
    ensures
        r@ == trim(v@),
{
    let (lo, hi) = trim_bounds(v);
    string_of_range(v, lo, hi)
}


/// Index of the first occurrence of `c` in `s`, or `-1` when there is none.
pub open spec fn index_of(s: Seq<char>, c: char) -> int
    decreases s.len(),
{
    if s.len() == 0 {
        -1
    } else if s[0] == c {
        0
    } else {
        let r = index_of(s.drop_first(), c);
        if r < 0 {
            -1
        } else {
            r + 1
        }
    }
}

/// `index_of` is the first occurrence.
pub proof fn lemma_index_of(s: Seq<char>, c: char, k: int)
    requires
        0 <= k <= s.len(),
        forall|j: int| 0 <= j < k ==> #[trigger] s[j] != c,
        k == s.len() || s[k] == c,
    ensures
        index_of(s, c) == (if k == s.len() { -1 } else { k }),
    decreases k,
{
    if k > 0 {
        let t = s.drop_first();
        assert forall|j: int| 0 <= j < k - 1 implies #[trigger] t[j] != c by {
            assert(t[j] == s[j + 1]);
        }
        assert(s[0] != c);
        lemma_index_of(t, c, k - 1);
    }
}

/// What `index_of` returns is the first occurrence.
pub proof fn lemma_index_of_props(s: Seq<char>, c: char)
    ensures
        -1 <= index_of(s, c) < s.len(),
        index_of(s, c) >= 0 ==> s[index_of(s, c)] == c,
        forall|j: int| 0 <= j < s.len() && (index_of(s, c) < 0 || j < index_of(s, c)) ==> #[trigger] s[j] != c,
    decreases s.len(),
{
    if s.len() > 0 && s[0] != c {
        let t = s.drop_first();
        lemma_index_of_props(t, c);
        assert forall|j: int| 0 <= j < s.len() && (index_of(s, c) < 0 || j < index_of(s, c)) implies #[trigger] s[j] != c by {
            if j > 0 {
                assert(s[j] == t[j - 1]);
            }
        }
    }
}

/// First position `k >= from` with `v[k] == c`.
pub fn find_char(v: &[char], from: usize, c: char) -> (r: Option<usize>)
    requires
        from <= v@.len(),
    ensures
        match r {
            Some(k) => from <= k < v@.len() && v@[k as int] == c && forall|j: int|
                from <= j < k ==> #[trigger] v@[j] != c,
            None => forall|j: int| from <= j < v@.len() ==> #[trigger] v@[j] != c,
        },
{
    let n = v.len();
    let mut i = from;
    while i < n
        invariant
            from <= i <= n == v@.len(),
            forall|j: int| from <= j < i ==> #[trigger] v@[j] != c,
        decreases n - i,
    {
        if v[i] == c {
            return Some(i);
        }
        i = i + 1;
    }
    None
}

/// `index_of(v[from..], c)`, as an executable search.
pub fn index_of_from(v: &[char], from: usize, c: char) -> (r: Option<usize>)
    requires
        from <= v@.len(),
    ensures
        match r {
            Some(k) => from <= k < v@.len() && index_of(v@.subrange(from as int, v@.len() as int), c)
                == k - from,
            None => index_of(v@.subrange(from as int, v@.len() as int), c) == -1,
        },
{
    let r = find_char(v, from, c);
    proof {
        let t = v@.subrange(from as int, v@.len() as int);
        match r {
            Some(k) => {
                assert forall|j: int| 0 <= j < k - from implies #[trigger] t[j] != c by {
                    assert(t[j] == v@[j + from]);
                }
                lemma_index_of(t, c, k - from);
            },
            None => {
                assert forall|j: int| 0 <= j < t.len() implies #[trigger] t[j] != c by {
                    assert(t[j] == v@[j + from]);
                }
                lemma_index_of(t, c, t.len() as int);
            },
        }
    }
    r
}

/// `str::split(c)`: the pieces between occurrences of `c` (n occurrences
/// give n + 1 pieces, empty ones included).
pub open spec fn split_char(s: Seq<char>, c: char) -> Seq<Seq<char>>
    decreases s.len(),
{
    if s.len() == 0 {
        seq![Seq::<char>::empty()]
    } else {
        let rest = split_char(s.drop_first(), c);
        if s[0] == c {
            seq![Seq::<char>::empty()] + rest
        } else {
            rest.update(0, seq![s[0]] + rest[0])
        }
    }
}

pub proof fn lemma_split_char_nonempty(s: Seq<char>, c: char)
    ensures
        split_char(s, c).len() >= 1,
    decreases s.len(),
{
    if s.len() > 0 {
        lemma_split_char_nonempty(s.drop_first(), c);
    }
}

/// Splitting a suffix: how `split_char` of `s[i..]` relates to `s[i+1..]`.
proof fn lemma_split_step(s: Seq<char>, i: int, c: char)
    requires
        0 <= i < s.len(),
    ensures
        ({
            let a = split_char(s.subrange(i, s.len() as int), c);
            let b = split_char(s.subrange(i + 1, s.len() as int), c);
            if s[i] == c {
                a == seq![Seq::<char>::empty()] + b
            } else {
                a == b.update(0, seq![s[i]] + b[0])
            }
        }),
{
    let t = s.subrange(i, s.len() as int);
    assert(t.drop_first() =~= s.subrange(i + 1, s.len() as int));
    assert(t[0] == s[i]);
}

/// `str::split(c)` on a character sequence, each piece as a character vector.
pub fn split_chars(v: &[char], c: char) -> (r: Vec<Vec<char>>)
    ensures
        r@.len() == split_char(v@, c).len(),
        forall|k: int| 0 <= k < r@.len() ==> #[trigger] r@[k]@ == split_char(v@, c)[k],
{
    let n = v.len();
    let mut pieces: Vec<Vec<char>> = Vec::new();
    let mut cur: Vec<char> = Vec::new();
    let mut i: usize = 0;
    proof {
        assert(v@.subrange(0, n as int) =~= v@);
        lemma_split_char_nonempty(v@, c);
    }
    while i < n
        invariant
            i <= n == v@.len(),
            ({
                let rest = split_char(v@.subrange(i as int, n as int), c);
                &&& rest.len() >= 1
                &&& split_char(v@, c).len() == pieces@.len() + rest.len()
                &&& forall|k: int| 0 <= k < pieces@.len() ==> #[trigger] pieces@[k]@ == split_char(v@, c)[k]
                &&& split_char(v@, c)[pieces@.len() as int] == cur@ + rest[0]
                &&& forall|k: int| 1 <= k < rest.len() ==> split_char(v@, c)[pieces@.len() + k] == #[trigger] rest[k]
            }),
        decreases n - i,
    {
        proof {
            lemma_split_step(v@, i as int, c);
            lemma_split_char_nonempty(v@.subrange(i + 1, n as int), c);
        }
        let ghost old_cur = cur@;
        let ghost old_len = pieces@.len();
        if v[i] == c {
            let mut done: Vec<char> = Vec::new();
            std::mem::swap(&mut done, &mut cur);
            pieces.push(done);
            proof {
                let b = split_char(v@.subrange(i + 1, n as int), c);
                let a = split_char(v@.subrange(i as int, n as int), c);
                assert(cur@ + b[0] =~= b[0]);
                assert(a[1] == b[0]);
                assert(split_char(v@, c)[old_len + 1int] == a[1]);
                assert forall|k: int| 1 <= k < b.len() implies split_char(v@, c)[pieces@.len() + k] == #[trigger] b[k] by {
                    let a = split_char(v@.subrange(i as int, n as int), c);
                    assert(a[k + 1] == b[k]);
                }
                assert(split_char(v@, c)[old_len as int] == old_cur + Seq::<char>::empty());
                assert(old_cur + Seq::<char>::empty() =~= old_cur);
            }
        } else {
            cur.push(v[i]);
            proof {
                let b = split_char(v@.subrange(i + 1, n as int), c);
                let a = split_char(v@.subrange(i as int, n as int), c);
                assert(a[0] == seq![v@[i as int]] + b[0]);
                assert(old_cur + (seq![v@[i as int]] + b[0]) =~= cur@ + b[0]);
                assert forall|k: int| 1 <= k < b.len() implies split_char(v@, c)[pieces@.len() + k] == #[trigger] b[k] by {
                    assert(a[k] == b[k]);
                }
            }
        }
        i = i + 1;
    }
    pieces.push(cur);
    proof {
        let rest = split_char(v@.subrange(n as int, n as int), c);
        assert(v@.subrange(n as int, n as int) =~= Seq::<char>::empty());
        assert(rest =~= seq![Seq::<char>::empty()]);
        assert(pieces@[pieces@.len() - 1]@ =~= split_char(v@, c)[pieces@.len() - 1]);
    }
    pieces
}

/// `s` begins with `p`.
pub open spec fn starts_with(s: Seq<char>, p: Seq<char>) -> bool {
    p.len() <= s.len() && s.subrange(0, p.len() as int) == p
}

/// `s` ends with `p`.
pub open spec fn ends_with(s: Seq<char>, p: Seq<char>) -> bool {
    p.len() <= s.len() && s.subrange(s.len() - p.len(), s.len() as int) == p
}

/// `p` occurs in `s` at position `i`.
pub open spec fn occurs_at(s: Seq<char>, p: Seq<char>, i: int) -> bool {
    0 <= i && i + p.len() <= s.len() && s.subrange(i, i + p.len()) == p
}

/// `p` occurs somewhere in `s`.
pub open spec fn contains_seq(s: Seq<char>, p: Seq<char>) -> bool {
    exists|i: int| occurs_at(s, p, i)
}

/// Whether `p` occurs in `v` at position `i`.
pub fn matches_at(v: &[char], p: &[char], i: usize) -> (r: bool)
    ensures
        r == occurs_at(v@, p@, i as int),
{
    if i > v.len() || p.len() > v.len() - i {
        return false;
    }
    let m = p.len();
    for k in 0..m
        invariant
            m == p@.len(),
            i + m <= v.len(),
            forall|j: int| 0 <= j < k ==> v@[i + j] == #[trigger] p@[j],
    {
        if v[i + k] != p[k] {
            proof {
                assert(v@.subrange(i as int, i + m)[k as int] != p@[k as int]);
            }
            return false;
        }
    }
    proof {
        assert(v@.subrange(i as int, i + m) =~= p@);
    }
    true
}

/// First position `i >= from` at which `p` occurs in `v`.
pub fn find_seq(v: &[char], p: &[char], from: usize) -> (r: Option<usize>)
    ensures
        match r {
            Some(i) => from <= i && occurs_at(v@, p@, i as int) && forall|j: int|
                from <= j < i ==> !#[trigger] occurs_at(v@, p@, j),
            None => forall|j: int| from <= j ==> !#[trigger] occurs_at(v@, p@, j),
        },
{
    let n = v.len();
    let mut i = from;
    if i > n {
        return None;
    }
    while i < n
        invariant
            n == v@.len(),
            from <= i <= n,
            forall|j: int| from <= j < i ==> !#[trigger] occurs_at(v@, p@, j),
        decreases n - i,
    {
        if matches_at(v, p, i) {
            return Some(i);
        }
        i = i + 1;
    }
    if matches_at(v, p, n) {
        return Some(n);
    }
    None
}

/// Whether `p` occurs in `v`.
pub fn contains_chars(v: &[char], p: &[char]) -> (r: bool)
    ensures
        r == contains_seq(v@, p@),
{
    match find_seq(v, p, 0) {
        Some(_) => true,
        None => false,
    }
}


/// What `String::from_utf8_lossy` makes of a byte sequence.
pub uninterp spec fn utf8_lossy(bytes: Seq<u8>) -> Seq<char>;

/// `String::from_utf8_lossy(bytes)`, as an owned string. The standard
/// library decodes UTF-8 and replaces each invalid sequence with U+FFFD; a
/// valid input decodes exactly. Only the latter is stated here; what the
/// replacement produces is left to the name `utf8_lossy`.
#[verifier::external_body]
pub(crate) fn from_utf8_lossy(bytes: &[u8]) -> (r: String)
    ensures
        r@ == utf8_lossy(bytes@),
        vstd::utf8::valid_utf8(bytes@) ==> r@ == vstd::utf8::decode_utf8(bytes@),
{
    String::from_utf8_lossy(bytes).into_owned()
}

/// A fresh random id: `uuid::Uuid::new_v4()` rendered as text. Nothing
/// is stated of it: it is random.
#[verifier::external_body]
pub(crate) fn fresh_id() -> String {
    uuid::Uuid::new_v4().to_string()
}

/// Every `'` doubled, as `s.replace("'", "''")` does.
pub open spec fn double_quotes(s: Seq<char>) -> Seq<char>
    decreases s.len(),
{
    if s.len() == 0 {
        s
    } else if s.last() == '\'' {
        double_quotes(s.drop_last()) + seq!['\'', '\'']
    } else {
        double_quotes(s.drop_last()).push(s.last())
    }
}

/// SQL string literal: `'` + `s` with every `'` doubled + `'`.
pub open spec fn sql_quoted(s: Seq<char>) -> Seq<char> {
    seq!['\''] + double_quotes(s) + seq!['\'']
}

/// `format!("'{}'", s.replace("'", "''"))`.
pub fn quote_sql_string(s: &str) -> (r: String)
    ensures
        r@ == sql_quoted(s@),
{
    let v = chars_of(s);
    let mut out = String::new();
    push_char(&mut out, '\'');
    let n = v.len();
    for i in 0..n
        invariant
            n == v@.len(),
            out@ == seq!['\''] + double_quotes(v@.take(i as int)),
    {
        let c = v[i];
        proof {
            let t = v@.take(i + 1);
            assert(t.drop_last() =~= v@.take(i as int));
            assert(t.last() == c);
        }
        if c == '\'' {
            push_char(&mut out, '\'');
            push_char(&mut out, '\'');
            assert(out@ =~= seq!['\''] + double_quotes(v@.take(i + 1)));
        } else {
            push_char(&mut out, c);
            assert(out@ =~= seq!['\''] + double_quotes(v@.take(i + 1)));
        }
    }
    push_char(&mut out, '\'');
    assert(v@.take(n as int) =~= v@);
    assert(out@ =~= sql_quoted(s@));
    out
}


/// Number of occurrences of `c` in `s`.
pub open spec fn count_char(s: Seq<char>, c: char) -> nat
    decreases s.len(),
{
    if s.len() == 0 {
        0
    } else {
        count_char(s.drop_last(), c) + if s.last() == c {
            1nat
        } else {
            0nat
        }
    }
}

pub proof fn lemma_count_char_le(s: Seq<char>, c: char)
    ensures
        count_char(s, c) <= s.len(),
    decreases s.len(),
{
    if s.len() > 0 {
        lemma_count_char_le(s.drop_last(), c);
    }
}

/// `s.matches(c).count()`: how many times `c` occurs in `v`.
pub fn count_occurrences(v: &[char], c: char) -> (r: usize)
    ensures
        r as nat == count_char(v@, c),
{
    let n = v.len();
    let mut k: usize = 0;
    for i in 0..n
        invariant
            n == v@.len(),
            k as nat == count_char(v@.take(i as int), c),
            k <= i,
    {
        proof {
            let t = v@.take(i + 1);
            assert(t.drop_last() =~= v@.take(i as int));
        }
        if v[i] == c {
            k = k + 1;
        }
    }
    assert(v@.take(n as int) =~= v@);
    k
}


/// Appends every character of `t` to `s`.
pub fn push_str(s: &mut String, t: &str)
    ensures
        final(s)@ == old(s)@ + t@,
{
    let v = chars_of(t);
    push_chars(s, &v);
}

/// Whether two strings hold the same characters.
pub fn str_eq(a: &str, b: &str) -> (r: bool)
    ensures
        r == (a@ == b@),
{
    let va = chars_of(a);
    let vb = chars_of(b);
    if va.len() != vb.len() {
        return false;
    }
    let n = va.len();
    for i in 0..n
        invariant
            n == va@.len(),
            n == vb@.len(),
            va@ == a@,
            vb@ == b@,
            forall|j: int| 0 <= j < i ==> va@[j] == vb@[j],
    {
        if va[i] != vb[i] {
            assert(va@[i as int] != vb@[i as int]);
            return false;
        }
    }
    assert(va@ =~= vb@);
    true
}


/// Leftmost position `>= i` at which `p` occurs in `s`, or `-1`.
pub open spec fn first_occurrence_from(s: Seq<char>, p: Seq<char>, i: int) -> int
    decreases s.len() + 1 - i,
{
    if i < 0 || i + p.len() > s.len() {
        -1
    } else if occurs_at(s, p, i) {
        i
    } else {
        first_occurrence_from(s, p, i + 1)
    }
}

proof fn lemma_first_occurrence_from(s: Seq<char>, p: Seq<char>, i: int, k: int)
    requires
        0 <= i <= k,
        forall|j: int| i <= j < k ==> !#[trigger] occurs_at(s, p, j),
        occurs_at(s, p, k) || (k + p.len() > s.len() && forall|j: int|
            i <= j ==> !#[trigger] occurs_at(s, p, j)),
    ensures
        first_occurrence_from(s, p, i) == (if occurs_at(s, p, k) {
            k
        } else {
            -1
        }),
    decreases s.len() + 1 - i,
{
    if i + p.len() > s.len() {
        if occurs_at(s, p, k) {
            assert(k + p.len() <= s.len());
        }
    } else if i < k {
        lemma_first_occurrence_from(s, p, i + 1, k);
    }
}

/// `first_occurrence_from(v@, p@, from)`, as an executable search.
pub fn first_occurrence(v: &[char], p: &[char], from: usize) -> (r: Option<usize>)
    ensures
        match r {
            Some(k) => first_occurrence_from(v@, p@, from as int) == k as int && from <= k
                && occurs_at(v@, p@, k as int),
            None => first_occurrence_from(v@, p@, from as int) == -1,
        },
{
    let r = find_seq(v, p, from);
    proof {
        match r {
            Some(k) => {
                lemma_first_occurrence_from(v@, p@, from as int, k as int);
            },
            None => {
                let k = if from + p@.len() > v@.len() { from as int } else { v@.len() - p@.len() + 1 };
                lemma_first_occurrence_from(v@, p@, from as int, k);
            },
        }
    }
    r
}

/// Drops every leading and trailing `c`, as `str::trim_matches(c)` does.
pub open spec fn trim_char(s: Seq<char>, c: char) -> Seq<char>
    decreases s.len(),
{
    if s.len() > 0 && s[0] == c {
        trim_char(s.drop_first(), c)
    } else if s.len() > 0 && s.last() == c {
        trim_char(s.drop_last(), c)
    } else {
        s
    }
}

/// `s.trim_matches(c)` on characters `v[lo..hi]`.
pub fn trim_char_range(v: &[char], lo: usize, hi: usize, c: char) -> (r: String)
    requires
        lo <= hi <= v@.len(),
    ensures
        r@ == trim_char(v@.subrange(lo as int, hi as int), c),
{
    let mut a = lo;
    let mut b = hi;
    while a < b && (v[a] == c || v[b - 1] == c)
        invariant
            lo <= a <= b <= hi <= v@.len(),
            trim_char(v@.subrange(lo as int, hi as int), c) == trim_char(v@.subrange(a as int, b as int), c),
        decreases b - a,
    {
        let ghost t = v@.subrange(a as int, b as int);
        if v[a] == c {
            proof {
                assert(t.drop_first() =~= v@.subrange(a + 1, b as int));
            }
            a = a + 1;
        } else {
            proof {
                assert(t[0] != c);
                assert(t.drop_last() =~= v@.subrange(a as int, b - 1));
            }
            b = b - 1;
        }
    }
    string_of_range(v, a, b)
}

} // verus!
