//! The named worker pools and the URL routing between them: each pool has
//! a list of path patterns, the table is searched in order, and a path
//! that no pattern matches goes to the first pool.

use vstd::prelude::*;
use crate::text::{chars_of, ends_with, push_char, push_str, starts_with, str_eq};

verus! {

/// The socket directory of a named pool: `<directory>/<name>`.
pub fn pool_socket_dir(directory: &str, name: &str) -> (r: String)
    ensures
        r@ == directory@ + seq!['/'] + name@,
{
    let mut s = String::new();
    push_str(&mut s, directory);
    push_char(&mut s, '/');
    push_str(&mut s, name);
    s
}

/// Whether a request path matches a routing pattern: exactly; `/*` matches
/// everything; a pattern ending in `*` matches the paths that begin with
/// what precedes the `*`; a pattern beginning with `/*` matches the paths
/// that end with what follows it.
pub open spec fn pattern_matches(path: Seq<char>, pattern: Seq<char>) -> bool {
    if path == pattern {
        true
    } else if pattern == "/*"@ {
        true
    } else if pattern.len() > 0 && pattern.last() == '*' {
        starts_with(path, pattern.drop_last())
    } else if ends_with(pattern, "/*"@) {
        starts_with(path, pattern.subrange(0, pattern.len() - 2))
    } else if starts_with(pattern, "/*"@) {
        ends_with(path, pattern.subrange(2, pattern.len() as int))
    } else {
        false
    }
}

/// Some pattern of the list matches the path.
pub open spec fn any_pattern_matches(path: Seq<char>, patterns: Seq<Seq<char>>) -> bool {
    exists|k: int| 0 <= k < patterns.len() && pattern_matches(path, #[trigger] patterns[k])
}

/// The pool of the first routing entry (in table order) with a matching
/// pattern.
pub open spec fn first_match(table: Seq<(Seq<Seq<char>>, Seq<char>)>, path: Seq<char>) -> Option<Seq<char>>
    decreases table.len(),
{
    if table.len() == 0 {
        None
    } else if any_pattern_matches(path, table[0].0) {
        Some(table[0].1)
    } else {
        first_match(table.drop_first(), path)
    }
}

/// The pool a path is routed to: the first match, else the first pool,
/// else none (an empty table).
pub open spec fn route(table: Seq<(Seq<Seq<char>>, Seq<char>)>, path: Seq<char>) -> Option<Seq<char>> {
    match first_match(table, path) {
        Some(name) => Some(name),
        None => if table.len() == 0 {
            None
        } else {
            Some(table[0].1)
        },
    }
}

/// The routing table as texts.
pub open spec fn table_texts(t: Seq<(Vec<String>, String)>) -> Seq<(Seq<Seq<char>>, Seq<char>)> {
    t.map_values(|e: (Vec<String>, String)| (e.0@.map_values(|p: String| p@), e.1@))
}

/// Some pool is held under the name.
pub open spec fn has_pool<P>(pools: Seq<(String, P)>, name: Seq<char>) -> bool {
    exists|i: int| 0 <= i < pools.len() && #[trigger] pools[i].0@ == name
}

/// The pools, held under their names, and the routing table.
pub struct PoolManager<P> {
    /// The pools by name; no name occurs twice.
    pub pools: Vec<(String, P)>,
    /// Per pool (in configuration order): its patterns and its name.
    pub routing_table: Vec<(Vec<String>, String)>,
}

/// Whether `path` starts with `prefix`.
fn chars_start_with(path: &Vec<char>, prefix: &Vec<char>, plen: usize) -> (r: bool)
    requires
        plen <= prefix@.len(),
    ensures
        r == starts_with(path@, prefix@.subrange(0, plen as int)),
{
    if plen > path.len() {
        return false;
    }
    for i in 0..plen
        invariant
            plen <= prefix@.len(),
            plen <= path@.len(),
            forall|j: int| 0 <= j < i ==> path@[j] == prefix@[j],
    {
        if path[i] != prefix[i] {
            assert(path@.subrange(0, plen as int)[i as int] != prefix@.subrange(0, plen as int)[i as int]);
            return false;
        }
    }
    assert(path@.subrange(0, plen as int) =~= prefix@.subrange(0, plen as int));
    true
}

/// Whether `path` ends with `pattern[from..]`.
fn chars_end_with(path: &Vec<char>, pattern: &Vec<char>, from: usize) -> (r: bool)
    requires
        from <= pattern@.len(),
    ensures
        r == ends_with(path@, pattern@.subrange(from as int, pattern@.len() as int)),
{
    let m = pattern.len() - from;
    if m > path.len() {
        return false;
    }
    let off = path.len() - m;
    let ghost a = path@.subrange(off as int, path@.len() as int);
    let ghost b = pattern@.subrange(from as int, pattern@.len() as int);
    for i in 0..m
        invariant
            from + m == pattern.len(),
            off + m == path.len(),
            a == path@.subrange(off as int, path@.len() as int),
            b == pattern@.subrange(from as int, pattern@.len() as int),
            forall|j: int| 0 <= j < i ==> #[trigger] a[j] == b[j],
    {
        if path[off + i] != pattern[from + i] {
            assert(a[i as int] != b[i as int]);
            return false;
        }
    }
    assert(path@.subrange(off as int, path@.len() as int) =~= pattern@.subrange(
        from as int,
        pattern@.len() as int,
    ));
    true
}

/// Whether a request path matches a routing pattern (see `pattern_matches`).
pub fn match_pattern(path: &str, pattern: &str) -> (r: bool)
    ensures
        r == pattern_matches(path@, pattern@),
{
    if str_eq(path, pattern) {
        return true;
    }
    if str_eq(pattern, "/*") {
        return true;
    }
    let pv = chars_of(path);
    let pat = chars_of(pattern);
    let n = pat.len();
    if n > 0 && pat[n - 1] == '*' {
        proof {
            assert(pat@.subrange(0, n - 1) =~= pattern@.drop_last());
        }
        return chars_start_with(&pv, &pat, n - 1);
    }
    if n >= 2 && pat[n - 2] == '/' && pat[n - 1] == '*' {
        return chars_start_with(&pv, &pat, n - 2);
    }
    proof {
        reveal_strlit("/*");
        if n >= 2 {
            if pattern@.subrange(n - 2, n as int) == "/*"@ {
                assert(pattern@.subrange(n - 2, n as int)[1] == '*');
            }
        }
    }
    if n >= 2 && pat[0] == '/' && pat[1] == '*' {
        proof {
            assert(pattern@.subrange(0, 2) =~= "/*"@);
        }
        return chars_end_with(&pv, &pat, 2);
    }
    proof {
        if n >= 2 && pattern@.subrange(0, 2) == "/*"@ {
            assert(pattern@.subrange(0, 2)[0] == '/');
            assert(pattern@.subrange(0, 2)[1] == '*');
        }
    }
    false
}

impl<P> PoolManager<P> {
    /// No pool name occurs twice.
    pub open spec fn wf(&self) -> bool {
        &&& forall|i: int, j: int|
            0 <= i < j < self.pools@.len() ==> #[trigger] self.pools@[i].0@ != #[trigger] self.pools@[j].0@
        &&& forall|k: int|
            0 <= k < self.routing_table@.len() ==> has_pool(self.pools@, #[trigger] self.routing_table@[k].1@)
    }

    /// A manager with no pools and an empty routing table.
    pub fn empty() -> (r: Self)
        ensures
            r.wf(),
            r.pools@.len() == 0,
            r.routing_table@.len() == 0,
    {
        PoolManager { pools: Vec::new(), routing_table: Vec::new() }
    }

    /// Position of the pool named `name`.
    fn find_pool(&self, name: &str) -> (r: Option<usize>)
        ensures
            match r {
                Some(i) => i < self.pools@.len() && self.pools@[i as int].0@ == name@,
                None => forall|i: int| 0 <= i < self.pools@.len() ==> #[trigger] self.pools@[i].0@ != name@,
            },
    {
        let n = self.pools.len();
        for i in 0..n
            invariant
                n == self.pools@.len(),
                forall|j: int| 0 <= j < i ==> #[trigger] self.pools@[j].0@ != name@,
        {
            if str_eq(self.pools[i].0.as_str(), name) {
                return Some(i);
            }
        }
        None
    }

    /// Adds a started pool under its name (replacing a pool of the same
    /// name) and appends its routing entry.
    pub fn add_pool(&mut self, name: String, pool: P, patterns: Vec<String>)
        requires
            old(self).wf(),
        ensures
            final(self).wf(),
            final(self).routing_table@ == old(self).routing_table@.push((patterns, name)),
            exists|i: int|
                0 <= i < final(self).pools@.len() && final(self).pools@[i] == (name, pool),
            forall|i: int|
                0 <= i < old(self).pools@.len() && old(self).pools@[i].0@ != name@ ==> final(self).pools@.contains(#[trigger] old(self).pools@[i]),
            forall|i: int|
                0 <= i < final(self).pools@.len() && final(self).pools@[i].0@ != name@ ==> old(self).pools@.contains(#[trigger] final(self).pools@[i]),
    {
        let entry_name = name.clone();
        let ghost name_g = name;
        let ghost pool_g = pool;
        let ghost mut idx: int = 0;
        match self.find_pool(name.as_str()) {
            Some(i) => {
                proof {
                    idx = i as int;
                }
                let ghost before = self.pools@;
                self.pools.set(i, (name, pool));
                proof {
                    assert(self.pools@[i as int] == (name_g, pool_g));
                    assert forall|k: int|
                        0 <= k < before.len() && before[k].0@ != entry_name@ implies self.pools@.contains(
                        #[trigger] before[k],
                    ) by {
                        assert(k != i);
                        assert(self.pools@[k] == before[k]);
                    }
                    assert forall|k: int|
                        0 <= k < self.pools@.len() && self.pools@[k].0@ != entry_name@ implies before.contains(
                        #[trigger] self.pools@[k],
                    ) by {
                        assert(k != i);
                        assert(self.pools@[k] == before[k]);
                    }
                }
            },
            None => {
                let ghost before = self.pools@;
                proof {
                    idx = before.len() as int;
                }
                self.pools.push((name, pool));
                proof {
                    assert(self.pools@[before.len() as int] == (name_g, pool_g));
                    assert forall|k: int|
                        0 <= k < before.len() && before[k].0@ != entry_name@ implies self.pools@.contains(
                        #[trigger] before[k],
                    ) by {
                        assert(self.pools@[k] == before[k]);
                    }
                    assert forall|k: int|
                        0 <= k < self.pools@.len() && self.pools@[k].0@ != entry_name@ implies before.contains(
                        #[trigger] self.pools@[k],
                    ) by {
                        assert(self.pools@[k] == before[k]);
                    }
                }
            },
        }
        let ghost old_table = self.routing_table@;
        self.routing_table.push((patterns, entry_name));
        assert(self.pools@[idx] == (name_g, pool_g));
        proof {
            assert forall|k: int| 0 <= k < self.routing_table@.len() implies has_pool(
                self.pools@,
                #[trigger] self.routing_table@[k].1@,
            ) by {
                let n = self.routing_table@[k].1@;
                if n == name_g@ {
                    assert(self.pools@[idx].0@ == n);
                } else {
                    assert(old_table[k] == self.routing_table@[k]);
                    assert(has_pool(old(self).pools@, n));
                    let i = choose|i: int| 0 <= i < old(self).pools@.len() && #[trigger] old(self).pools@[i].0@ == n;
                    assert(self.pools@.contains(old(self).pools@[i]));
                    let j = choose|j: int| 0 <= j < self.pools@.len() && self.pools@[j] == old(self).pools@[i];
                    assert(self.pools@[j].0@ == n);
                }
            }
        }
    }

    /// The pool named `name`.
    pub fn get_pool(&self, name: &str) -> (r: Option<&P>)
        ensures
            match r {
                Some(p) => exists|i: int|
                    0 <= i < self.pools@.len() && self.pools@[i].0@ == name@ && self.pools@[i].1 == *p,
                None => forall|i: int| 0 <= i < self.pools@.len() ==> #[trigger] self.pools@[i].0@ != name@,
            },
    {
        match self.find_pool(name) {
            Some(i) => Some(&self.pools[i].1),
            None => None,
        }
    }

    /// Whether some pattern of the list matches the path.
    fn patterns_match(path: &str, patterns: &Vec<String>) -> (r: bool)
        ensures
            r == any_pattern_matches(path@, patterns@.map_values(|p: String| p@)),
    {
        let ghost pats = patterns@.map_values(|p: String| p@);
        let n = patterns.len();
        for k in 0..n
            invariant
                n == patterns@.len(),
                pats == patterns@.map_values(|p: String| p@),
                forall|j: int| 0 <= j < k ==> !pattern_matches(path@, #[trigger] pats[j]),
        {
            if match_pattern(path, patterns[k].as_str()) {
                assert(pattern_matches(path@, pats[k as int]));
                return true;
            }
        }
        false
    }

    /// The pool that serves a request path (see `route`).
    pub fn get_pool_name_for_path(&self, path: &str) -> (r: Option<String>)
        ensures
            match r {
                Some(name) => route(table_texts(self.routing_table@), path@) == Some(name@),
                None => route(table_texts(self.routing_table@), path@) is None,
            },
    {
        let ghost table = table_texts(self.routing_table@);
        let n = self.routing_table.len();
        proof {
            assert(table.skip(0) =~= table);
        }
        for i in 0..n
            invariant
                n == self.routing_table@.len(),
                table == table_texts(self.routing_table@),
                first_match(table, path@) == first_match(table.skip(i as int), path@),
        {
            proof {
                let t = table.skip(i as int);
                assert(t.drop_first() =~= table.skip(i + 1));
                assert(t[0] == table[i as int]);
            }
            if Self::patterns_match(path, &self.routing_table[i].0) {
                return Some(self.routing_table[i].1.clone());
            }
        }
        proof {
            assert(table.skip(n as int) =~= Seq::<(Seq<Seq<char>>, Seq<char>)>::empty());
        }
        if n == 0 {
            None
        } else {
            Some(self.routing_table[0].1.clone())
        }
    }
}

/// A routed path goes to a pool named in the routing table.
proof fn lemma_first_match_in_table(table: Seq<(Seq<Seq<char>>, Seq<char>)>, path: Seq<char>)
    ensures
        first_match(table, path) matches Some(n) ==> exists|k: int| 0 <= k < table.len() && #[trigger] table[k].1 == n,
    decreases table.len(),
{
    if table.len() > 0 && !any_pattern_matches(path, table[0].0) {
        lemma_first_match_in_table(table.drop_first(), path);
        match first_match(table, path) {
            Some(n) => {
                let k = choose|k: int| 0 <= k < table.drop_first().len() && #[trigger] table.drop_first()[k].1 == n;
                assert(table[k + 1].1 == n);
            },
            None => {},
        }
    }
}

/// The catch-all pattern `/*` matches every path.
pub proof fn lemma_catch_all_matches(path: Seq<char>)
    ensures
        pattern_matches(path, "/*"@),
{
}

/// What a routing pattern matches, case by case:
/// - a path matches a pattern equal to it, and `/*` matches every path;
/// - a pattern ending in `*` matches exactly the paths that begin with
///   the pattern without its `*`, whatever follows (further `/` included);
/// - a pattern `/*suffix` (not ending in `*`) matches exactly the paths
///   that end with `suffix`;
/// - any other pattern matches only the path equal to it.
pub proof fn lemma_pattern_semantics(path: Seq<char>, pattern: Seq<char>)
    ensures
        path == pattern ==> pattern_matches(path, pattern),
        pattern == seq!['/', '*'] ==> pattern_matches(path, pattern),
        pattern.len() > 0 && pattern[pattern.len() - 1] == '*' && pattern != seq!['/', '*'] ==> (
        pattern_matches(path, pattern) <==> (path.len() >= pattern.len() - 1 && path.subrange(
            0,
            pattern.len() - 1,
        ) == pattern.subrange(0, pattern.len() - 1))),
        pattern.len() >= 2 && pattern[0] == '/' && pattern[1] == '*' && pattern[pattern.len() - 1]
            != '*' && path != pattern ==> (pattern_matches(path, pattern) <==> (path.len()
            >= pattern.len() - 2 && path.subrange(path.len() - (pattern.len() - 2), path.len() as int)
            == pattern.subrange(2, pattern.len() as int))),
        !(pattern.len() > 0 && pattern[pattern.len() - 1] == '*') && !(pattern.len() >= 2
            && pattern[0] == '/' && pattern[1] == '*') ==> (pattern_matches(path, pattern) <==> path
            == pattern),
{
    reveal_strlit("/*");
    assert("/*"@ =~= seq!['/', '*']);
    if pattern.len() > 0 && pattern[pattern.len() - 1] == '*' && pattern != seq!['/', '*'] {
        assert(pattern.drop_last() =~= pattern.subrange(0, pattern.len() - 1));
        if path == pattern {
            assert(path.subrange(0, pattern.len() - 1) =~= pattern.subrange(0, pattern.len() - 1));
        }
    }
    if pattern.len() >= 2 && pattern[0] == '/' && pattern[1] == '*' {
        assert(pattern.subrange(0, 2) =~= seq!['/', '*']);
    }
    if ends_with(pattern, "/*"@) {
        assert(pattern[pattern.len() - 1] == pattern.subrange(pattern.len() - 2, pattern.len() as int)[1]);
    }
}

/// Routing picks the first pool, in table order, that has a pattern
/// matching the path: when pool `k` matches and no pool before it does,
/// the path goes to pool `k`.
pub proof fn lemma_route_first_matching_pool(
    table: Seq<(Seq<Seq<char>>, Seq<char>)>,
    path: Seq<char>,
    k: int,
)
    requires
        0 <= k < table.len(),
        exists|p: int| 0 <= p < table[k].0.len() && pattern_matches(path, #[trigger] table[k].0[p]),
        forall|j: int, p: int|
            0 <= j < k && 0 <= p < table[j].0.len() ==> !pattern_matches(path, #[trigger] table[j].0[p]),
    ensures
        route(table, path) == Some(table[k].1),
{
    lemma_first_match_from(table, path, k);
}

/// `first_match` finds pool `k` when it matches and no pool before it does.
proof fn lemma_first_match_from(table: Seq<(Seq<Seq<char>>, Seq<char>)>, path: Seq<char>, k: int)
    requires
        0 <= k < table.len(),
        exists|p: int| 0 <= p < table[k].0.len() && pattern_matches(path, #[trigger] table[k].0[p]),
        forall|j: int, p: int|
            0 <= j < k && 0 <= p < table[j].0.len() ==> !pattern_matches(path, #[trigger] table[j].0[p]),
    ensures
        first_match(table, path) == Some(table[k].1),
    decreases k,
{
    if k == 0 {
        assert(any_pattern_matches(path, table[0].0));
    } else {
        let t = table.drop_first();
        assert(!any_pattern_matches(path, table[0].0)) by {
            assert forall|p: int| 0 <= p < table[0].0.len() implies !pattern_matches(path, #[trigger] table[0].0[p]) by {}
        }
        assert forall|j: int, p: int| 0 <= j < k - 1 && 0 <= p < t[j].0.len() implies !pattern_matches(path, #[trigger] t[j].0[p]) by {
            assert(t[j] == table[j + 1]);
        }
        assert(t[k - 1] == table[k]);
        lemma_first_match_from(t, path, k - 1);
    }
}

/// A path that no pattern of any pool matches goes to the first pool.
pub proof fn lemma_route_fallback(table: Seq<(Seq<Seq<char>>, Seq<char>)>, path: Seq<char>)
    requires
        table.len() > 0,
        forall|j: int, p: int|
            0 <= j < table.len() && 0 <= p < table[j].0.len() ==> !pattern_matches(path, #[trigger] table[j].0[p]),
    ensures
        route(table, path) == Some(table[0].1),
{
    lemma_no_match(table, path);
}

/// `first_match` finds nothing when no pattern matches.
proof fn lemma_no_match(table: Seq<(Seq<Seq<char>>, Seq<char>)>, path: Seq<char>)
    requires
        forall|j: int, p: int|
            0 <= j < table.len() && 0 <= p < table[j].0.len() ==> !pattern_matches(path, #[trigger] table[j].0[p]),
    ensures
        first_match(table, path) is None,
    decreases table.len(),
{
    if table.len() > 0 {
        let t = table.drop_first();
        assert(!any_pattern_matches(path, table[0].0)) by {
            assert forall|p: int| 0 <= p < table[0].0.len() implies !pattern_matches(path, #[trigger] table[0].0[p]) by {}
        }
        assert forall|j: int, p: int| 0 <= j < t.len() && 0 <= p < t[j].0.len() implies !pattern_matches(path, #[trigger] t[j].0[p]) by {
            assert(t[j] == table[j + 1]);
        }
        lemma_no_match(t, path);
    }
}

/// Every path is routed somewhere as soon as one pool is configured: a
/// path that no pattern matches falls back to the first pool.
pub proof fn lemma_route_total(table: Seq<(Seq<Seq<char>>, Seq<char>)>, path: Seq<char>)
    requires
        table.len() > 0,
    ensures
        route(table, path) is Some,
        first_match(table, path) is None ==> route(table, path) == Some(table[0].1),
{
}

/// The pool a path is routed to is always held by the manager, so looking
/// it up after routing never fails.
pub proof fn lemma_routed_pool_exists<P>(pm: PoolManager<P>, path: Seq<char>)
    requires
        pm.wf(),
    ensures
        route(table_texts(pm.routing_table@), path) matches Some(n) ==> has_pool(pm.pools@, n),
{
    let table = table_texts(pm.routing_table@);
    lemma_first_match_in_table(table, path);
    match route(table, path) {
        Some(n) => {
            let k: int = if first_match(table, path) is Some {
                choose|k: int| 0 <= k < table.len() && #[trigger] table[k].1 == n
            } else {
                0
            };
            assert(table[k].1 == pm.routing_table@[k].1@);
            assert(has_pool(pm.pools@, pm.routing_table@[k].1@));
        },
        None => {},
    }
}

} // verus!
