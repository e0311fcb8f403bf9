//! Cycles of a parent-pointer graph over text identifiers.
//!
//! Each entry `i` has an identifier `ids[i]` and an optional parent
//! identifier `pars[i]`. When an identifier occurs more than once, its last
//! entry decides its parent; a parent that is no entry's identifier is a
//! dangling reference, not an edge. Every node has at most one parent, so
//! the cycles are disjoint.

use vstd::prelude::*;
use vstd::set_lib::*;
use crate::text::{str_eq, str_lt, text_le, text_lt, lemma_text_order};

verus! {

// ---------------------------------------------------------------------------
// Specification
// ---------------------------------------------------------------------------

/// `x` is the identifier of some entry.
pub open spec fn has_node(ids: Seq<Seq<char>>, x: Seq<char>) -> bool {
    exists|k: int| 0 <= k < ids.len() && #[trigger] ids[k] == x
}

/// Entry `k` is the last entry with its identifier.
pub open spec fn is_last_entry(ids: Seq<Seq<char>>, k: int) -> bool {
    &&& 0 <= k < ids.len()
    &&& forall|j: int| k < j < ids.len() ==> #[trigger] ids[j] != ids[k]
}

/// `y` is the parent of node `x`: the last entry of `x` names `y`, and `y` is a node.
pub open spec fn parent_link(
    ids: Seq<Seq<char>>,
    pars: Seq<Option<Seq<char>>>,
    x: Seq<char>,
    y: Seq<char>,
) -> bool {
    &&& has_node(ids, y)
    &&& exists|k: int| #[trigger] is_last_entry(ids, k) && ids[k] == x && pars[k] == Some(y)
}

/// `c` lists a cycle: distinct nodes, each the parent of the one before it,
/// the first the parent of the last.
pub open spec fn is_cycle(ids: Seq<Seq<char>>, pars: Seq<Option<Seq<char>>>, c: Seq<Seq<char>>) -> bool {
    &&& c.len() >= 1
    &&& c.no_duplicates()
    &&& forall|i: int| 0 <= i < c.len() - 1 ==> parent_link(ids, pars, #[trigger] c[i], c[i + 1])
    &&& parent_link(ids, pars, c[c.len() - 1], c[0])
}

/// A cycle listed from its smallest identifier.
pub open spec fn is_canonical_cycle(
    ids: Seq<Seq<char>>,
    pars: Seq<Option<Seq<char>>>,
    c: Seq<Seq<char>>,
) -> bool {
    &&& is_cycle(ids, pars, c)
    &&& forall|j: int| 0 <= j < c.len() ==> text_le(c[0], #[trigger] c[j])
}

/// `r` lists every cycle of the graph exactly once, each from its smallest
/// identifier, in increasing order of those identifiers. Cycles are
/// disjoint, so this is also their increasing lexicographic order.
pub open spec fn is_cycle_report(
    ids: Seq<Seq<char>>,
    pars: Seq<Option<Seq<char>>>,
    r: Seq<Seq<Seq<char>>>,
) -> bool {
    &&& forall|i: int| 0 <= i < r.len() ==> is_canonical_cycle(ids, pars, #[trigger] r[i])
    &&& forall|i: int, j: int| 0 <= i < j < r.len() ==> text_lt(#[trigger] r[i][0], #[trigger] r[j][0])
    &&& forall|c: Seq<Seq<char>>| #[trigger] is_cycle(ids, pars, c) ==> exists|i: int, j: int|
        0 <= i < r.len() && 0 <= j < r[i].len() && #[trigger] r[i][j] == c[0]
}

/// The cycle `c` read from its entry `k` on.
pub open spec fn rotated(c: Seq<Seq<char>>, k: int) -> Seq<Seq<char>> {
    Seq::new(c.len(), |i: int| if k + i < c.len() { c[k + i] } else { c[k + i - c.len()] })
}

/// A cycle read from any of its nodes is still a cycle.
proof fn lemma_rotated_cycle(ids: Seq<Seq<char>>, pars: Seq<Option<Seq<char>>>, c: Seq<Seq<char>>, k: int)
    requires
        is_cycle(ids, pars, c),
        0 <= k < c.len(),
    ensures
        is_cycle(ids, pars, rotated(c, k)),
        rotated(c, k)[0] == c[k],
{
    let n = c.len();
    let d = rotated(c, k);
    assert forall|i: int, j: int| 0 <= i < d.len() && 0 <= j < d.len() && i != j implies d[i] != d[j] by {
        let a = if k + i < n { k + i } else { k + i - n };
        let b = if k + j < n { k + j } else { k + j - n };
        assert(d[i] == c[a] && d[j] == c[b]);
        assert(a != b);
    }
    assert forall|i: int| 0 <= i < d.len() - 1 implies parent_link(ids, pars, #[trigger] d[i], d[i + 1]) by {
        if k + i < n - 1 {
            assert(d[i] == c[k + i] && d[i + 1] == c[k + i + 1]);
        } else if k + i == n - 1 {
            assert(d[i] == c[n - 1] && d[i + 1] == c[0]);
        } else {
            assert(d[i] == c[k + i - n] && d[i + 1] == c[k + i + 1 - n]);
        }
    }
    if k == 0 {
        assert(d[n - 1] == c[n - 1] && d[0] == c[0]);
    } else {
        assert(d[n - 1] == c[k - 1] && d[0] == c[k]);
    }
}

/// `x` lies on some cycle of the graph.
pub open spec fn on_some_cycle(ids: Seq<Seq<char>>, pars: Seq<Option<Seq<char>>>, x: Seq<char>) -> bool {
    exists|c: Seq<Seq<char>>| #[trigger] is_cycle(ids, pars, c) && c.contains(x)
}

/// A cycle report lists exactly the nodes that lie on a cycle.
pub proof fn law_cycle_report_lists_cycle_nodes(
    ids: Seq<Seq<char>>,
    pars: Seq<Option<Seq<char>>>,
    r: Seq<Seq<Seq<char>>>,
    x: Seq<char>,
)
    requires
        is_cycle_report(ids, pars, r),
    ensures
        on_some_cycle(ids, pars, x) <==> exists|i: int, j: int| 0 <= i < r.len() && 0 <= j < r[i].len() && #[trigger] r[i][j] == x,
{
    if on_some_cycle(ids, pars, x) {
        let c = choose|c: Seq<Seq<char>>| #[trigger] is_cycle(ids, pars, c) && c.contains(x);
        let k = choose|k: int| 0 <= k < c.len() && c[k] == x;
        lemma_rotated_cycle(ids, pars, c, k);
        assert(is_cycle(ids, pars, rotated(c, k)));
    }
    if exists|i: int, j: int| 0 <= i < r.len() && 0 <= j < r[i].len() && #[trigger] r[i][j] == x {
        let (i, j) = choose|i: int, j: int| 0 <= i < r.len() && 0 <= j < r[i].len() && #[trigger] r[i][j] == x;
        assert(is_canonical_cycle(ids, pars, r[i]));
        assert(r[i].contains(x));
    }
}

// ---------------------------------------------------------------------------
// Node table: one slot per distinct identifier, with the parent's slot
// ---------------------------------------------------------------------------

/// The table `keys`/`par` describes the graph of `ids`/`pars`.
pub open spec fn table_ok(
    ids: Seq<Seq<char>>,
    pars: Seq<Option<Seq<char>>>,
    keys: Seq<Seq<char>>,
    par: Seq<Option<usize>>,
) -> bool {
    &&& keys.len() == par.len()
    &&& keys.no_duplicates()
    &&& forall|k: int| 0 <= k < keys.len() ==> has_node(ids, #[trigger] keys[k])
    &&& forall|i: int| 0 <= i < ids.len() ==> keys.contains(#[trigger] ids[i])
    &&& forall|k: int|
        0 <= k < keys.len() ==> match #[trigger] par[k] {
            Some(p) => p < keys.len() && parent_link(ids, pars, keys[k], keys[p as int]),
            None => forall|y: Seq<char>| !parent_link(ids, pars, keys[k], y),
        }
}

/// Following `par` from `x` for `j` steps.
pub open spec fn walk(par: Seq<Option<usize>>, x: int, j: nat) -> Option<int>
    decreases j,
{
    if j == 0 {
        Some(x)
    } else {
        match walk(par, x, (j - 1) as nat) {
            Some(c) => if 0 <= c < par.len() {
                match par[c] {
                    Some(p) => Some(p as int),
                    None => None,
                }
            } else {
                None
            },
            None => None,
        }
    }
}

/// A node has at most one parent.
proof fn lemma_parent_unique(
    ids: Seq<Seq<char>>,
    pars: Seq<Option<Seq<char>>>,
    x: Seq<char>,
    y1: Seq<char>,
    y2: Seq<char>,
)
    requires
        parent_link(ids, pars, x, y1),
        parent_link(ids, pars, x, y2),
    ensures
        y1 == y2,
{
    let k1 = choose|k: int| #[trigger] is_last_entry(ids, k) && ids[k] == x && pars[k] == Some(y1);
    let k2 = choose|k: int| #[trigger] is_last_entry(ids, k) && ids[k] == x && pars[k] == Some(y2);
    if k1 < k2 {
        assert(ids[k2] != ids[k1]);
    } else if k2 < k1 {
        assert(ids[k1] != ids[k2]);
    }
}

/// Distinct indices below `n` number at most `n`.
proof fn lemma_distinct_indices_bound(s: Seq<usize>, n: int)
    requires
        s.no_duplicates(),
        forall|j: int| 0 <= j < s.len() ==> #[trigger] s[j] < n,
        n >= 0,
    ensures
        s.len() <= n,
{
    let t = s.map_values(|v: usize| v as int);
    assert(t.no_duplicates()) by {
        assert forall|a: int, b: int| 0 <= a < t.len() && 0 <= b < t.len() && a != b implies t[a]
            != t[b] by {
            assert(s[a] != s[b]);
        }
    }
    t.unique_seq_to_set();
    lemma_int_range(0, n);
    assert(t.to_set().subset_of(set_int_range(0, n))) by {
        assert forall|v: int| t.to_set().contains(v) implies set_int_range(0, n).contains(v) by {
            let j = choose|j: int| 0 <= j < t.len() && t[j] == v;
            assert(s[j] < n);
        }
    }
    lemma_len_subset(t.to_set(), set_int_range(0, n));
}

/// Index of a text among `keys`, if present.
fn find_key(keys: &Vec<String>, x: &String) -> (r: Option<usize>)
    ensures
        match r {
            Some(k) => k < keys@.len() && keys@[k as int]@ == x@,
            None => forall|k: int| 0 <= k < keys@.len() ==> #[trigger] keys@[k]@ != x@,
        },
{
    let n = keys.len();
    let mut k: usize = 0;
    while k < n
        invariant
            n == keys@.len(),
            k <= n,
            forall|q: int| 0 <= q < k ==> #[trigger] keys@[q]@ != x@,
        decreases n - k,
    {
        if str_eq(keys[k].as_str(), x.as_str()) {
            return Some(k);
        }
        k = k + 1;
    }
    None
}

pub open spec fn views(v: Seq<String>) -> Seq<Seq<char>> {
    v.map_values(|s: String| s@)
}

pub open spec fn opt_views(v: Seq<Option<String>>) -> Seq<Option<Seq<char>>> {
    v.map_values(|o: Option<String>| match o {
        Some(s) => Some(s@),
        None => None,
    })
}

/// Builds the node table of the graph.
fn build_table(ids: &Vec<String>, pars: &Vec<Option<String>>) -> (r: (Vec<String>, Vec<Option<usize>>))
    requires
        ids@.len() == pars@.len(),
    ensures
        table_ok(views(ids@), opt_views(pars@), views(r.0@), r.1@),
{
    let ghost vi = views(ids@);
    let ghost vp = opt_views(pars@);
    let n = ids.len();
    let mut keys: Vec<String> = Vec::new();
    let mut i: usize = 0;
    while i < n
        invariant
            n == ids@.len(),
            vi == views(ids@),
            i <= n,
            views(keys@).no_duplicates(),
            forall|k: int| 0 <= k < keys@.len() ==> has_node(vi, #[trigger] views(keys@)[k]),
            forall|q: int| 0 <= q < i ==> views(keys@).contains(#[trigger] vi[q]),
        decreases n - i,
    {
        let found = find_key(&keys, &ids[i]);
        if found.is_none() {
            let ghost before = views(keys@);
            keys.push(ids[i].clone());
            proof {
                assert(views(keys@) =~= before.push(vi[i as int]));
                assert(has_node(vi, vi[i as int]));
                assert forall|q: int| 0 <= q <= i implies views(keys@).contains(#[trigger] vi[q]) by {
                    if q < i {
                        let w = choose|w: int| 0 <= w < before.len() && before[w] == vi[q];
                        assert(views(keys@)[w] == vi[q]);
                    } else {
                        assert(views(keys@)[before.len() as int] == vi[q]);
                    }
                }
                assert forall|k: int| 0 <= k < keys@.len() implies has_node(vi, #[trigger] views(keys@)[k]) by {
                    if k < before.len() {
                        assert(views(keys@)[k] == before[k]);
                    }
                }
            }
        } else {
            proof {
                let k = found->0;
                assert(views(keys@)[k as int] == vi[i as int]);
            }
        }
        i = i + 1;
    }
    let m = keys.len();
    let mut par: Vec<Option<usize>> = Vec::new();
    let mut k: usize = 0;
    while k < m
        invariant
            n == ids@.len(),
            n == pars@.len(),
            vi == views(ids@),
            vp == opt_views(pars@),
            m == keys@.len(),
            k <= m,
            par@.len() == k,
            views(keys@).no_duplicates(),
            forall|q: int| 0 <= q < keys@.len() ==> has_node(vi, #[trigger] views(keys@)[q]),
            forall|q: int| 0 <= q < n ==> views(keys@).contains(#[trigger] vi[q]),
            forall|q: int|
                0 <= q < k ==> match #[trigger] par@[q] {
                    Some(p) => p < m && parent_link(vi, vp, views(keys@)[q], views(keys@)[p as int]),
                    None => forall|y: Seq<char>| !parent_link(vi, vp, views(keys@)[q], y),
                },
        decreases m - k,
    {
        let ghost key = views(keys@)[k as int];
        // the last entry with this identifier
        let mut j: usize = n;
        while j > 0 && !str_eq(ids[j - 1].as_str(), keys[k].as_str())
            invariant
                n == ids@.len(),
                vi == views(ids@),
                k < keys@.len(),
                key == keys@[k as int]@,
                j <= n,
                forall|q: int| j <= q < n ==> #[trigger] vi[q] != key,
            decreases j,
        {
            j = j - 1;
        }
        proof {
            assert(has_node(vi, key));
            if j == 0 {
                let w = choose|w: int| 0 <= w < vi.len() && vi[w] == key;
                assert(vi[w] != key);
            }
        }
        let last = j - 1;
        proof {
            assert(vi[last as int] == key);
            assert(is_last_entry(vi, last as int));
        }
        let link: Option<usize> = match &pars[last] {
            None => None,
            Some(p) => find_key(&keys, p),
        };
        proof {
            match link {
                Some(pk) => {
                    assert(vp[last as int] == Some(views(keys@)[pk as int]));
                    assert(has_node(vi, views(keys@)[pk as int]));
                    assert(parent_link(vi, vp, key, views(keys@)[pk as int]));
                },
                None => {
                    assert forall|y: Seq<char>| !parent_link(vi, vp, key, y) by {
                        if parent_link(vi, vp, key, y) {
                            let kk = choose|kk: int| #[trigger] is_last_entry(vi, kk) && vi[kk] == key
                                && vp[kk] == Some(y);
                            if kk < last {
                                assert(vi[last as int] != vi[kk]);
                            } else if kk > last {
                                assert(vi[kk] != vi[last as int]);
                            }
                            if pars@[last as int] is Some {
                                let w = choose|w: int| 0 <= w < vi.len() && #[trigger] vi[w] == y;
                                let c = choose|c: int| 0 <= c < views(keys@).len() && views(keys@)[c] == vi[w];
                                assert(keys@[c]@ != pars@[last as int]->0@);
                            }
                        }
                    }
                },
            }
        }
        par.push(link);
        k = k + 1;
    }
    (keys, par)
}


// ---------------------------------------------------------------------------
// Walking the graph
// ---------------------------------------------------------------------------

/// The position reached from `s` after `j` steps around a cycle of length `n`,
/// for `j <= n`.
pub open spec fn rot(s: int, j: int, n: int) -> int {
    if s + j < n { s + j } else { s + j - n }
}

/// The key slot of a node.
pub open spec fn key_pos(keys: Seq<Seq<char>>, v: Seq<char>) -> int {
    keys.index_of(v)
}

proof fn lemma_key_pos(keys: Seq<Seq<char>>, k: int)
    requires
        keys.no_duplicates(),
        0 <= k < keys.len(),
    ensures
        key_pos(keys, keys[k]) == k,
{
    assert(keys.contains(keys[k]));
    let q = key_pos(keys, keys[k]);
    assert(0 <= q < keys.len() && keys[q] == keys[k]);
}

/// Walking from a node on a cycle follows the cycle.
proof fn lemma_walk_follows_cycle(
    ids: Seq<Seq<char>>,
    pars: Seq<Option<Seq<char>>>,
    keys: Seq<Seq<char>>,
    par: Seq<Option<usize>>,
    c: Seq<Seq<char>>,
    s: int,
    x: int,
    j: nat,
)
    requires
        table_ok(ids, pars, keys, par),
        is_cycle(ids, pars, c),
        0 <= s < c.len(),
        0 <= x < keys.len(),
        keys[x] == c[s],
        j <= c.len(),
    ensures
        walk(par, x, j) == Some(key_pos(keys, c[rot(s, j as int, c.len() as int)])),
        0 <= key_pos(keys, c[rot(s, j as int, c.len() as int)]) < keys.len(),
        keys[key_pos(keys, c[rot(s, j as int, c.len() as int)])] == c[rot(s, j as int, c.len() as int)],
    decreases j,
{
    let n = c.len() as int;
    if j == 0 {
        lemma_key_pos(keys, x);
    } else {
        lemma_walk_follows_cycle(ids, pars, keys, par, c, s, x, (j - 1) as nat);
        let a = rot(s, j - 1, n);
        let b = rot(s, j as int, n);
        let k = key_pos(keys, c[a]);
        assert(parent_link(ids, pars, c[a], c[b])) by {
            if a < n - 1 {
                assert(b == a + 1);
            } else {
                assert(b == 0);
            }
        }
        match par[k] {
            Some(p) => {
                assert(parent_link(ids, pars, keys[k], keys[p as int]));
                lemma_parent_unique(ids, pars, c[a], c[b], keys[p as int]);
                lemma_key_pos(keys, p as int);
            },
            None => {
                assert(!parent_link(ids, pars, keys[k], c[b]));
            },
        }
    }
}

/// The smallest node of `c` sits at position `s`.
pub open spec fn min_at(c: Seq<Seq<char>>, s: int) -> bool {
    &&& 0 <= s < c.len()
    &&& forall|t: int| 0 <= t < c.len() ==> text_le(c[s], #[trigger] c[t])
}

/// Some reported cycle holds `v`.
pub open spec fn covered(r: Seq<Seq<Seq<char>>>, v: Seq<char>) -> bool {
    exists|i: int, j: int| 0 <= i < r.len() && 0 <= j < r[i].len() && #[trigger] r[i][j] == v
}

/// Every node of `c` is in some reported cycle.
pub open spec fn cycle_covered(r: Seq<Seq<Seq<char>>>, c: Seq<Seq<char>>) -> bool {
    forall|t: int| 0 <= t < c.len() ==> covered(r, #[trigger] c[t])
}

/// `c[s]` is the smallest of the first `n` elements of `c`.
pub open spec fn min_upto(c: Seq<Seq<char>>, s: int, n: int) -> bool {
    &&& 0 <= s < n
    &&& forall|t: int| 0 <= t < n ==> text_le(c[s], #[trigger] c[t])
}

/// A nonempty sequence of texts has a smallest element.
proof fn lemma_min_exists(c: Seq<Seq<char>>, n: int)
    requires
        1 <= n <= c.len(),
    ensures
        exists|s: int| #[trigger] min_upto(c, s, n),
    decreases n,
{
    if n == 1 {
        lemma_text_order(c[0], c[0], c[0]);
        assert(min_upto(c, 0, 1));
    } else {
        lemma_min_exists(c, n - 1);
        let s = choose|s: int| #[trigger] min_upto(c, s, n - 1);
        lemma_text_order(c[s], c[n - 1], c[n - 1]);
        if text_le(c[s], c[n - 1]) {
            assert(min_upto(c, s, n));
        } else {
            assert forall|t: int| 0 <= t < n implies text_le(c[n - 1], #[trigger] c[t]) by {
                if t < n - 1 {
                    lemma_text_order(c[n - 1], c[s], c[t]);
                } else {
                    lemma_text_order(c[t], c[t], c[t]);
                }
            }
            assert(min_upto(c, n - 1, n));
        }
    }
}

/// Inserting a cycle keeps every node that was covered covered.
proof fn lemma_insert_keeps_covered(r: Seq<Seq<Seq<char>>>, pos: int, e: Seq<Seq<char>>, v: Seq<char>)
    requires
        0 <= pos <= r.len(),
        covered(r, v),
    ensures
        covered(r.insert(pos, e), v),
{
    let (i, j) = choose|i: int, j: int| 0 <= i < r.len() && 0 <= j < r[i].len() && #[trigger] r[i][j] == v;
    let r2 = r.insert(pos, e);
    if i < pos {
        assert(r2[i] == r[i]);
        assert(r2[i][j] == v);
    } else {
        assert(r2[i + 1] == r[i]);
        assert(r2[i + 1][j] == v);
    }
}

/// Follows parents from slot `x` until the walk returns to `x` (a cycle
/// through `x`, returned with `true`), stops, or runs into another cycle.
fn walk_from(par: &Vec<Option<usize>>, x: usize) -> (r: (bool, Vec<usize>))
    requires
        x < par@.len(),
        forall|k: int| 0 <= k < par@.len() ==> (#[trigger] par@[k] matches Some(p) ==> p < par@.len()),
    ensures
        r.1@.len() >= 1,
        r.1@[0] == x,
        r.1@.no_duplicates(),
        forall|j: int| 0 <= j < r.1@.len() ==> walk(par@, x as int, j as nat) == Some(#[trigger] r.1@[j] as int),
        forall|j: int| 0 <= j < r.1@.len() ==> #[trigger] r.1@[j] < par@.len(),
        r.0 ==> walk(par@, x as int, r.1@.len()) == Some(x as int),
        !r.0 ==> match walk(par@, x as int, r.1@.len()) {
            None => true,
            Some(p) => exists|q: int| 0 < q < r.1@.len() && #[trigger] r.1@[q] as int == p,
        },
{
    let n = par.len();
    let mut path: Vec<usize> = Vec::new();
    path.push(x);
    let mut cur = x;
    loop
        invariant
            n == par@.len(),
            x < n,
            forall|k: int| 0 <= k < par@.len() ==> (#[trigger] par@[k] matches Some(p) ==> p < par@.len()),
            path@.len() >= 1,
            path@[0] == x,
            cur == path@.last(),
            path@.no_duplicates(),
            forall|j: int| 0 <= j < path@.len() ==> walk(par@, x as int, j as nat) == Some(#[trigger] path@[j] as int),
            forall|j: int| 0 <= j < path@.len() ==> #[trigger] path@[j] < n,
        decreases n - path@.len(),
    {
        proof {
            lemma_distinct_indices_bound(path@, n as int);
        }
        let ghost len = path@.len();
        assert(walk(par@, x as int, (len - 1) as nat) == Some(cur as int));
        match par[cur] {
            None => {
                return (false, path);
            },
            Some(p) => {
                if p == x {
                    return (true, path);
                }
                let mut q: usize = 0;
                let plen = path.len();
                #[verifier::loop_isolation(false)]
                while q < plen
                    invariant
                        plen == path@.len(),
                        q <= plen,
                        forall|w: int| 0 <= w < q ==> #[trigger] path@[w] != p,
                    decreases plen - q,
                {
                    if path[q] == p {
                        assert(q > 0);
                        return (false, path);
                    }
                    q = q + 1;
                }
                let ghost before = path@;
                path.push(p);
                proof {
                    assert forall|a: int, b: int| 0 <= a < path@.len() && 0 <= b < path@.len() && a != b implies path@[a] != path@[b] by {
                        if a < before.len() && b < before.len() {
                            assert(before[a] != before[b]);
                        } else if a < before.len() {
                            assert(path@[b] == p);
                        } else {
                            assert(path@[a] == p);
                        }
                    }
                    lemma_distinct_indices_bound(path@, n as int);
                    assert forall|j: int| 0 <= j < path@.len() implies walk(par@, x as int, j as nat) == Some(#[trigger] path@[j] as int) by {
                        if j < before.len() {
                            assert(path@[j] == before[j]);
                        }
                    }
                }
                cur = p;
            },
        }
    }
}


/// What walking from a node of a cycle finds: that whole cycle, in order.
proof fn lemma_walk_outcome(
    ids: Seq<Seq<char>>,
    pars: Seq<Option<Seq<char>>>,
    keys: Seq<Seq<char>>,
    par: Seq<Option<usize>>,
    c: Seq<Seq<char>>,
    s: int,
    x: int,
    found: bool,
    path: Seq<usize>,
)
    requires
        table_ok(ids, pars, keys, par),
        is_cycle(ids, pars, c),
        0 <= s < c.len(),
        0 <= x < keys.len(),
        keys[x] == c[s],
        path.len() >= 1,
        path[0] == x,
        path.no_duplicates(),
        forall|j: int| 0 <= j < path.len() ==> walk(par, x, j as nat) == Some(#[trigger] path[j] as int),
        found ==> walk(par, x, path.len()) == Some(x),
        !found ==> match walk(par, x, path.len()) {
            None => true,
            Some(p) => exists|q: int| 0 < q < path.len() && #[trigger] path[q] as int == p,
        },
    ensures
        found,
        path.len() == c.len(),
        forall|j: int| 0 <= j < path.len() ==> keys[#[trigger] path[j] as int] == c[rot(s, j, c.len() as int)],
{
    let n = c.len() as int;
    if path.len() > n {
        lemma_walk_follows_cycle(ids, pars, keys, par, c, s, x, n as nat);
        lemma_key_pos(keys, x);
        assert(path[n] as int == walk(par, x, n as nat)->0);
        assert(path[n] == path[0]);
    }
    assert forall|j: int| 0 <= j < path.len() implies keys[#[trigger] path[j] as int] == c[rot(s, j, n)] by {
        lemma_walk_follows_cycle(ids, pars, keys, par, c, s, x, j as nat);
    }
    let len = path.len() as int;
    lemma_walk_follows_cycle(ids, pars, keys, par, c, s, x, len as nat);
    let kl = key_pos(keys, c[rot(s, len, n)]);
    if !found {
        let q = choose|q: int| 0 < q < path.len() && #[trigger] path[q] as int == kl;
        assert(keys[path[q] as int] == c[rot(s, q, n)]);
        assert(c[rot(s, q, n)] == c[rot(s, len, n)]);
        assert(rot(s, q, n) != rot(s, len, n));
        assert(false);
    }
    if len < n {
        lemma_key_pos(keys, x);
        assert(c[rot(s, len, n)] == c[s]);
        assert(rot(s, len, n) != s);
        assert(false);
    }
}

/// Each entry of `r`, viewed as texts.
pub open spec fn nested_views(r: Seq<Vec<String>>) -> Seq<Seq<Seq<char>>> {
    r.map_values(|c: Vec<String>| views(c@))
}

/// The first node of every reported cycle is one of the first `x` slots.
pub open spec fn firsts_below(r: Seq<Seq<Seq<char>>>, keys: Seq<Seq<char>>, x: int) -> bool {
    forall|i: int| 0 <= i < r.len() ==> key_below(keys, #[trigger] r[i][0], x)
}

/// `v` is one of the first `x` slots.
pub open spec fn key_below(keys: Seq<Seq<char>>, v: Seq<char>, x: int) -> bool {
    exists|k: int| 0 <= k < x && #[trigger] keys[k] == v
}

/// Reported cycles in strictly increasing order of their first nodes.
pub open spec fn firsts_increasing(r: Seq<Seq<Seq<char>>>) -> bool {
    forall|i: int, j: int| 0 <= i < j < r.len() ==> text_lt(#[trigger] r[i][0], #[trigger] r[j][0])
}

/// Every node of a cycle has a slot in a table of the graph.
proof fn lemma_cycle_nodes_in_keys(
    ids: Seq<Seq<char>>,
    pars: Seq<Option<Seq<char>>>,
    keys: Seq<Seq<char>>,
    par: Seq<Option<usize>>,
    c: Seq<Seq<char>>,
    t: int,
)
    requires
        table_ok(ids, pars, keys, par),
        is_cycle(ids, pars, c),
        0 <= t < c.len(),
    ensures
        keys.contains(c[t]),
        0 <= key_pos(keys, c[t]) < keys.len(),
        keys[key_pos(keys, c[t])] == c[t],
{
    if t == 0 {
        assert(parent_link(ids, pars, c[c.len() - 1], c[0]));
    } else {
        assert(parent_link(ids, pars, c[t - 1], c[t]));
    }
    let w = choose|w: int| 0 <= w < ids.len() && #[trigger] ids[w] == c[t];
    assert(keys.contains(ids[w]));
}

/// A walk that returns to its start, from a slot no smaller than any slot
/// on it, lists a canonical cycle.
proof fn lemma_path_is_canonical(
    ids: Seq<Seq<char>>,
    pars: Seq<Option<Seq<char>>>,
    keys: Seq<Seq<char>>,
    par: Seq<Option<usize>>,
    x: int,
    path: Seq<usize>,
    cv: Seq<Seq<char>>,
)
    requires
        table_ok(ids, pars, keys, par),
        0 <= x < keys.len(),
        path.len() >= 1,
        path[0] == x,
        path.no_duplicates(),
        forall|j: int| 0 <= j < path.len() ==> walk(par, x, j as nat) == Some(#[trigger] path[j] as int),
        forall|j: int| 0 <= j < path.len() ==> #[trigger] path[j] < keys.len(),
        walk(par, x, path.len()) == Some(x),
        forall|q: int| 0 <= q < path.len() ==> !text_lt(keys[#[trigger] path[q] as int], keys[x]),
        cv.len() == path.len(),
        forall|q: int| 0 <= q < path.len() ==> #[trigger] cv[q] == keys[path[q] as int],
    ensures
        is_canonical_cycle(ids, pars, cv),
        cv[0] == keys[x],
{
    let n = path.len() as int;
    assert(cv.no_duplicates()) by {
        assert forall|a: int, b: int| 0 <= a < n && 0 <= b < n && a != b implies cv[a] != cv[b] by {
            assert(path[a] != path[b]);
        }
    }
    assert forall|i: int| 0 <= i < n - 1 implies parent_link(ids, pars, #[trigger] cv[i], cv[i + 1]) by {
        assert(walk(par, x, (i + 1) as nat) == Some(path[i + 1] as int));
        assert(walk(par, x, i as nat) == Some(path[i] as int));
        assert(par[path[i] as int] == Some(path[i + 1]));
    }
    assert(parent_link(ids, pars, cv[n - 1], cv[0])) by {
        assert(walk(par, x, (n - 1) as nat) == Some(path[n - 1] as int));
        assert(par[path[n - 1] as int] == Some(x as usize));
    }
    assert forall|j: int| 0 <= j < n implies text_le(cv[0], #[trigger] cv[j]) by {
        lemma_text_order(cv[0], cv[j], cv[j]);
        assert(!text_lt(cv[j], cv[0]));
    }
}

/// Inserting a cycle with a new first node at the place where the order of
/// first nodes puts it keeps that order strict.
proof fn lemma_insert_sorted(r: Seq<Seq<Seq<char>>>, pos: int, cv: Seq<Seq<char>>, keys: Seq<Seq<char>>, x: int)
    requires
        keys.no_duplicates(),
        0 <= x < keys.len(),
        firsts_increasing(r),
        firsts_below(r, keys, x),
        0 <= pos <= r.len(),
        forall|i: int| 0 <= i < pos ==> text_lt(#[trigger] r[i][0], keys[x]),
        pos < r.len() ==> !text_lt(r[pos][0], keys[x]),
        cv.len() >= 1,
        cv[0] == keys[x],
    ensures
        firsts_increasing(r.insert(pos, cv)),
        firsts_below(r.insert(pos, cv), keys, x + 1),
{
    let r2 = r.insert(pos, cv);
    if pos < r.len() {
        assert(key_below(keys, r[pos][0], x));
        let k = choose|k: int| 0 <= k < x && #[trigger] keys[k] == r[pos][0];
        assert(keys[k] != keys[x]);
        lemma_text_order(r[pos][0], keys[x], keys[x]);
    }
    assert forall|i: int, j: int| 0 <= i < j < r2.len() implies text_lt(#[trigger] r2[i][0], #[trigger] r2[j][0]) by {
        if j < pos {
            assert(r2[i] == r[i] && r2[j] == r[j]);
        } else if j == pos {
            assert(r2[i] == r[i]);
        } else if i < pos {
            assert(r2[i] == r[i] && r2[j] == r[j - 1]);
            lemma_text_order(r[i][0], keys[x], r[pos][0]);
            if j - 1 > pos {
                lemma_text_order(keys[x], r[pos][0], r[j - 1][0]);
                lemma_text_order(r[i][0], keys[x], r[j - 1][0]);
            }
        } else if i == pos {
            assert(r2[j] == r[j - 1]);
            if j - 1 > pos {
                lemma_text_order(keys[x], r[pos][0], r[j - 1][0]);
            }
        } else {
            assert(r2[i] == r[i - 1] && r2[j] == r[j - 1]);
        }
    }
    assert forall|i: int| 0 <= i < r2.len() implies key_below(keys, #[trigger] r2[i][0], x + 1) by {
        if i < pos {
            assert(r2[i] == r[i]);
            assert(key_below(keys, r[i][0], x));
            let k = choose|k: int| 0 <= k < x && #[trigger] keys[k] == r[i][0];
            assert(keys[k] == r2[i][0]);
        } else if i == pos {
            assert(keys[x] == r2[i][0]);
        } else {
            assert(r2[i] == r[i - 1]);
            assert(key_below(keys, r[i - 1][0], x));
            let k = choose|k: int| 0 <= k < x && #[trigger] keys[k] == r[i - 1][0];
            assert(keys[k] == r2[i][0]);
        }
    }
}

/// Every cycle of the graph of `ids`/`pars`, each listed once from its smallest
/// identifier, in increasing order of those identifiers.
pub fn parent_cycles(ids: &Vec<String>, pars: &Vec<Option<String>>) -> (r: Vec<Vec<String>>)
    requires
        ids@.len() == pars@.len(),
    ensures
        is_cycle_report(views(ids@), opt_views(pars@), nested_views(r@)),
{
    let ghost vi = views(ids@);
    let ghost vp = opt_views(pars@);
    let (keys, par) = build_table(ids, pars);
    let ghost kv = views(keys@);
    let m = keys.len();
    assert forall|k: int| 0 <= k < par@.len() implies (#[trigger] par@[k] matches Some(p) ==> p < par@.len()) by {
        assert(kv[k] == keys@[k]@);
    }
    let mut out: Vec<Vec<String>> = Vec::new();
    let mut x: usize = 0;
    while x < m
        invariant
            vi == views(ids@),
            vp == opt_views(pars@),
            kv == views(keys@),
            m == keys@.len(),
            x <= m,
            table_ok(vi, vp, kv, par@),
            forall|k: int| 0 <= k < par@.len() ==> (#[trigger] par@[k] matches Some(p) ==> p < par@.len()),
            forall|i: int| 0 <= i < out@.len() ==> is_canonical_cycle(vi, vp, #[trigger] nested_views(out@)[i]),
            firsts_increasing(nested_views(out@)),
            firsts_below(nested_views(out@), kv, x as int),
            forall|c: Seq<Seq<char>>, s: int|
                #![trigger is_cycle(vi, vp, c), min_at(c, s)]
                is_cycle(vi, vp, c) && min_at(c, s) && key_pos(kv, c[s]) < x ==> cycle_covered(nested_views(out@), c),
        decreases m - x,
    {
        let ghost before = nested_views(out@);
        let ghost mut ins_pos: int = 0;
        let ghost mut ins_cyc: Seq<Seq<char>> = Seq::empty();
        let (found, path) = walk_from(&par, x);
        let plen = path.len();
        let mut ok = true;
        if found {
            let mut j: usize = 0;
            while j < plen
                invariant
                    plen == path@.len(),
                    j <= plen,
                    m == keys@.len(),
                    kv == views(keys@),
                    x < m,
                    forall|q: int| 0 <= q < plen ==> #[trigger] path@[q] < m,
                    ok == forall|q: int| 0 <= q < j ==> !text_lt(kv[#[trigger] path@[q] as int], kv[x as int]),
                decreases plen - j,
            {
                if str_lt(keys[path[j]].as_str(), keys[x].as_str()) {
                    ok = false;
                }
                j = j + 1;
            }
        }
        if found && ok {
            let mut cyc: Vec<String> = Vec::new();
            let mut j: usize = 0;
            while j < plen
                invariant
                    plen == path@.len(),
                    j <= plen,
                    m == keys@.len(),
                    kv == views(keys@),
                    forall|q: int| 0 <= q < plen ==> #[trigger] path@[q] < m,
                    cyc@.len() == j,
                    forall|q: int| 0 <= q < j ==> #[trigger] views(cyc@)[q] == kv[path@[q] as int],
                decreases plen - j,
            {
                let ghost old_v = views(cyc@);
                cyc.push(keys[path[j]].clone());
                proof {
                    assert(views(cyc@) =~= old_v.push(kv[path@[j as int] as int]));
                }
                j = j + 1;
            }
            let ghost cv = views(cyc@);
            proof {
                lemma_path_is_canonical(vi, vp, kv, par@, x as int, path@, cv);
            }
            let olen = out.len();
            let mut pos: usize = 0;
            assert forall|i: int| 0 <= i < olen implies (#[trigger] out@[i])@.len() >= 1 by {
                assert(before[i] == views(out@[i]@));
            }
            while pos < olen && str_lt(out[pos][0].as_str(), keys[x].as_str())
                invariant
                    olen == out@.len(),
                    pos <= olen,
                    x < m,
                    m == keys@.len(),
                    kv == views(keys@),
                    before == nested_views(out@),
                    forall|i: int| 0 <= i < olen ==> (#[trigger] out@[i])@.len() >= 1,
                    forall|i: int| 0 <= i < olen ==> is_canonical_cycle(vi, vp, #[trigger] before[i]),
                    forall|i: int| 0 <= i < pos ==> text_lt(#[trigger] before[i][0], kv[x as int]),
                decreases olen - pos,
            {
                assert(before[pos as int][0] == out@[pos as int]@[0]@);
                pos = pos + 1;
            }
            proof {
                if pos < olen {
                    assert(before[pos as int][0] == out@[pos as int]@[0]@);
                }
                lemma_insert_sorted(before, pos as int, cv, kv, x as int);
                ins_pos = pos as int;
                ins_cyc = cv;
            }
            out.insert(pos, cyc);
            proof {
                assert(nested_views(out@) =~= before.insert(pos as int, cv));
            }
        }
        proof {
            let after = nested_views(out@);
            if !(found && ok) {
                assert forall|i: int| 0 <= i < after.len() implies key_below(kv, #[trigger] after[i][0], x + 1) by {
                    assert(after[i] == before[i]);
                    assert(key_below(kv, before[i][0], x as int));
                    let k = choose|k: int| 0 <= k < x && #[trigger] kv[k] == before[i][0];
                    assert(kv[k] == after[i][0]);
                }
                assert(firsts_below(after, kv, x + 1));
            }
            assert forall|c: Seq<Seq<char>>, s: int|
                #![trigger is_cycle(vi, vp, c), min_at(c, s)]
                is_cycle(vi, vp, c) && min_at(c, s) && key_pos(kv, c[s]) < x + 1 implies cycle_covered(after, c) by {
                if key_pos(kv, c[s]) < x {
                    assert(cycle_covered(before, c));
                    if found && ok {
                        assert forall|t: int| 0 <= t < c.len() implies covered(after, #[trigger] c[t]) by {
                            lemma_insert_keeps_covered(before, ins_pos, ins_cyc, c[t]);
                        }
                    }
                } else {
                    lemma_cycle_nodes_in_keys(vi, vp, kv, par@, c, s);
                    lemma_walk_outcome(vi, vp, kv, par@, c, s, x as int, found, path@);
                    let n = c.len() as int;
                    assert forall|q: int| 0 <= q < plen implies !text_lt(kv[#[trigger] path@[q] as int], kv[x as int]) by {
                        assert(kv[path@[q] as int] == c[rot(s, q, n)]);
                        lemma_text_order(c[s], c[rot(s, q, n)], c[rot(s, q, n)]);
                    }
                    assert forall|t: int| 0 <= t < n implies covered(after, #[trigger] c[t]) by {
                        let j = if t >= s { t - s } else { t - s + n };
                        assert(rot(s, j, n) == t);
                        assert(after[ins_pos] == ins_cyc);
                        assert(ins_cyc[j] == kv[path@[j] as int]);
                        assert(after[ins_pos][j] == c[t]);
                    }
                }
            }
        }
        x = x + 1;
    }
    proof {
        let r = nested_views(out@);
        assert forall|c: Seq<Seq<char>>| #[trigger] is_cycle(vi, vp, c) implies exists|i: int, j: int|
            0 <= i < r.len() && 0 <= j < r[i].len() && #[trigger] r[i][j] == c[0] by {
            lemma_min_exists(c, c.len() as int);
            let s = choose|s: int| #[trigger] min_upto(c, s, c.len() as int);
            assert(min_at(c, s));
            lemma_cycle_nodes_in_keys(vi, vp, kv, par@, c, s);
            assert(cycle_covered(r, c));
            assert(covered(r, c[0]));
        }
    }
    out
}

} // verus!
