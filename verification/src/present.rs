//! The values present in a sequence of options.

use vstd::prelude::*;

verus! {

/// The present values of `s`, in order.
pub open spec fn somes<T>(s: Seq<Option<T>>) -> Seq<T>
    decreases s.len(),
{
    if s.len() == 0 {
        Seq::empty()
    } else {
        match s.last() {
            Some(x) => somes(s.drop_last()).push(x),
            None => somes(s.drop_last()),
        }
    }
}

/// A value is present in `s` exactly when `s` holds it.
pub proof fn lemma_somes_contains<T>(s: Seq<Option<T>>, x: T)
    ensures
        somes(s).contains(x) <==> s.contains(Some(x)),
    decreases s.len(),
{
    if s.len() > 0 {
        let n = s.len();
        let d = s.drop_last();
        let r = somes(d);
        lemma_somes_contains(d, x);
        assert(s.last() == s[n - 1]);
        if somes(s).contains(x) {
            let q = choose|q: int| 0 <= q < somes(s).len() && somes(s)[q] == x;
            if q < r.len() {
                assert(somes(s)[q] == r[q]);
                assert(r.contains(x));
                let w = choose|w: int| 0 <= w < d.len() && d[w] == Some(x);
                assert(s[w] == Some(x));
            } else {
                assert(s[n - 1] == Some(x));
            }
        }
        if s.contains(Some(x)) {
            let q = choose|q: int| 0 <= q < n && s[q] == Some(x);
            if q < n - 1 {
                assert(d[q] == Some(x));
                assert(r.contains(x));
                let w = choose|w: int| 0 <= w < r.len() && r[w] == x;
                assert(somes(s)[w] == x);
            } else {
                assert(somes(s) == r.push(x));
                assert(somes(s)[r.len() as int] == x);
            }
        }
    }
}

/// Two sequences of options present at the same places give present
/// values in the same places: `s2`'s values are `f` of `s`'s.
pub proof fn lemma_somes_map<A, B>(s: Seq<Option<A>>, s2: Seq<Option<B>>, f: spec_fn(A) -> B)
    requires
        s.len() == s2.len(),
        forall|i: int| 0 <= i < s.len() ==> (#[trigger] s2[i]) == (match s[i] {
            Some(x) => Some(f(x)),
            None => None::<B>,
        }),
    ensures
        somes(s2).len() == somes(s).len(),
        forall|i: int| 0 <= i < somes(s).len() ==> #[trigger] somes(s2)[i] == f(somes(s)[i]),
    decreases s.len(),
{
    if s.len() > 0 {
        let d = s.drop_last();
        let d2 = s2.drop_last();
        assert forall|i: int| 0 <= i < d.len() implies (#[trigger] d2[i]) == (match d[i] {
            Some(x) => Some(f(x)),
            None => None::<B>,
        }) by {
            assert(d2[i] == s2[i] && d[i] == s[i]);
        }
        lemma_somes_map(d, d2, f);
        assert(s2.last() == s2[s.len() - 1] && s.last() == s[s.len() - 1]);
    }
}

/// When every value present at place `i` has the key `i`, the present
/// values come in strictly increasing key order, each key a place of `s`.
pub proof fn lemma_somes_keys_increase<T>(s: Seq<Option<T>>, key: spec_fn(T) -> int)
    requires
        forall|i: int| 0 <= i < s.len() && (#[trigger] s[i]) is Some ==> key(s[i]->0) == i,
    ensures
        forall|i: int| 0 <= i < somes(s).len() ==> 0 <= #[trigger] key(somes(s)[i]) < s.len(),
        forall|i: int, j: int| 0 <= i < j < somes(s).len() ==> key(#[trigger] somes(s)[i]) < key(#[trigger] somes(s)[j]),
    decreases s.len(),
{
    if s.len() > 0 {
        let n = s.len();
        let d = s.drop_last();
        let r = somes(d);
        assert forall|i: int| 0 <= i < d.len() && (#[trigger] d[i]) is Some implies key(d[i]->0) == i by {
            assert(d[i] == s[i]);
        }
        lemma_somes_keys_increase(d, key);
        assert(s.last() == s[n - 1]);
        match s.last() {
            Some(y) => {
                assert(somes(s) == r.push(y));
                assert(key(y) == n - 1);
                assert forall|i: int| 0 <= i < somes(s).len() implies 0 <= #[trigger] key(somes(s)[i]) < s.len() by {
                    if i < r.len() {
                        assert(somes(s)[i] == r[i]);
                    }
                }
                assert forall|i: int, j: int| 0 <= i < j < somes(s).len() implies key(#[trigger] somes(s)[i]) < key(
                    #[trigger] somes(s)[j],
                ) by {
                    assert(somes(s)[i] == r[i]);
                    if j < r.len() {
                        assert(somes(s)[j] == r[j]);
                    }
                }
            },
            None => {
                assert(somes(s) == r);
            },
        }
    }
}

/// The present values of `answers`, in order: what a store returned for
/// a batch of ids, without the ids it does not have.
pub fn present_values<T>(answers: Vec<Option<T>>) -> (r: Vec<T>)
    ensures
        r@ == somes(answers@),
{
    let ghost all = answers@;
    let mut out: Vec<T> = Vec::new();
    let mut rest = answers;
    assert(all.take(0) =~= Seq::<Option<T>>::empty());
    assert(rest@ =~= all.skip(0));
    while rest.len() > 0
        invariant
            rest@.len() <= all.len(),
            rest@ =~= all.skip(all.len() - rest@.len()),
            out@ == somes(all.take(all.len() - rest@.len())),
        decreases rest@.len(),
    {
        let ghost k = all.len() - rest@.len();
        let a = rest.remove(0);
        proof {
            assert(a == all[k]);
            assert(rest@ =~= all.skip(k + 1));
            assert(all.take(k + 1).drop_last() =~= all.take(k));
            assert(all.take(k + 1).last() == all[k]);
        }
        match a {
            Some(x) => {
                out.push(x);
            },
            None => {},
        }
    }
    assert(all.take(all.len() as int) =~= all);
    out
}

} // verus!
