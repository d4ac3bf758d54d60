use vstd::prelude::*;
use vstd::view::View as ModelView;

verus! {

/// `s` with every element after its first occurrence removed, the first
/// occurrences kept in their order.
pub open spec fn dedup<A>(s: Seq<A>) -> Seq<A>
    decreases s.len(),
{
    if s.len() == 0 {
        Seq::empty()
    } else {
        let prev = dedup(s.drop_last());
        if prev.contains(s.last()) {
            prev
        } else {
            prev.push(s.last())
        }
    }
}

/// No element occurs twice in `s`.
pub open spec fn distinct<A>(s: Seq<A>) -> bool {
    forall|i: int, j: int| 0 <= i < s.len() && 0 <= j < s.len() && i != j ==> s[i] != s[j]
}

/// The character sequences of a sequence of strings.
pub open spec fn string_views(v: Seq<String>) -> Seq<Seq<char>> {
    v.map_values(|s: String| s@)
}

/// Removing duplicates keeps exactly the elements that were there.
pub proof fn lemma_dedup_contains<A>(s: Seq<A>, x: A)
    ensures
        dedup(s).contains(x) <==> s.contains(x),
    decreases s.len(),
{
    if s.len() > 0 {
        lemma_dedup_contains(s.drop_last(), x);
        let prev = dedup(s.drop_last());
        if s.contains(x) && !s.drop_last().contains(x) {
            let k = choose|k: int| 0 <= k < s.len() && s[k] == x;
            if k < s.len() - 1 {
                assert(s.drop_last()[k] == x);
            }
            assert(s.last() == x);
        }
        if prev.contains(s.last()) {
        } else {
            assert(prev.push(s.last()).last() == s.last());
            if prev.push(s.last()).contains(x) {
                let k = choose|k: int| 0 <= k < prev.push(s.last()).len() && prev.push(s.last())[k] == x;
                if k < prev.len() {
                    assert(prev[k] == x);
                }
            }
            if prev.contains(x) {
                let k = choose|k: int| 0 <= k < prev.len() && prev[k] == x;
                assert(prev.push(s.last())[k] == x);
            }
        }
        if s.drop_last().contains(x) {
            let k = choose|k: int| 0 <= k < s.drop_last().len() && s.drop_last()[k] == x;
            assert(s[k] == x);
        }
    }
}

/// The result of removing duplicates has no duplicates.
pub proof fn lemma_dedup_distinct<A>(s: Seq<A>)
    ensures
        distinct(dedup(s)),
    decreases s.len(),
{
    if s.len() > 0 {
        lemma_dedup_distinct(s.drop_last());
        let prev = dedup(s.drop_last());
        if !prev.contains(s.last()) {
            let q = prev.push(s.last());
            assert forall|i: int, j: int| 0 <= i < q.len() && 0 <= j < q.len() && i != j implies q[i]
                != q[j] by {
                if i == q.len() - 1 {
                    assert(q[j] == prev[j]);
                } else if j == q.len() - 1 {
                    assert(q[i] == prev[i]);
                } else {
                    assert(q[i] == prev[i] && q[j] == prev[j]);
                }
            }
        }
    }
}

/// A sequence without duplicates is left as it is.
pub proof fn lemma_dedup_of_distinct<A>(s: Seq<A>)
    requires
        distinct(s),
    ensures
        dedup(s) == s,
    decreases s.len(),
{
    if s.len() > 0 {
        let d = s.drop_last();
        assert(distinct(d)) by {
            assert forall|i: int, j: int| 0 <= i < d.len() && 0 <= j < d.len() && i != j implies d[i]
                != d[j] by {
                assert(d[i] == s[i] && d[j] == s[j]);
            }
        }
        lemma_dedup_of_distinct(d);
        if d.contains(s.last()) {
            let k = choose|k: int| 0 <= k < d.len() && d[k] == s.last();
            assert(s[k] == s[s.len() - 1]);
        }
        assert(d.push(s.last()) =~= s);
    }
}

/// Removing duplicates twice is the same as removing them once.
pub proof fn lemma_dedup_idempotent<A>(s: Seq<A>)
    ensures
        dedup(dedup(s)) == dedup(s),
{
    lemma_dedup_distinct(s);
    lemma_dedup_of_distinct(dedup(s));
}

/// Removing duplicates keeps the order of first occurrences: when `x` comes
/// before `y` in the result, `x` occurs in `s` before every occurrence of `y`.
pub proof fn lemma_dedup_first_occurrence_order<A>(s: Seq<A>, i: int, j: int, q: int)
    requires
        0 <= i < j < dedup(s).len(),
        0 <= q < s.len(),
        s[q] == dedup(s)[j],
    ensures
        exists|p: int| 0 <= p < q && s[p] == dedup(s)[i],
    decreases s.len(),
{
    let d = dedup(s);
    let t = s.drop_last();
    let prev = dedup(t);
    lemma_dedup_contains(t, d[i]);
    lemma_dedup_contains(t, s.last());
    if q == s.len() - 1 {
        // d[i] is an element of dedup(t), hence of t, which lies before q.
        assert(i < prev.len());
        assert(prev[i] == d[i]);
        assert(prev.contains(d[i]));
        let p = choose|p: int| 0 <= p < t.len() && t[p] == d[i];
        assert(s[p] == d[i]);
    } else {
        assert(t[q] == s[q]);
        if prev.contains(s.last()) {
            assert(d == prev);
            lemma_dedup_first_occurrence_order(t, i, j, q);
            let p = choose|p: int| 0 <= p < q && t[p] == prev[i];
            assert(s[p] == d[i]);
        } else {
            if j == prev.len() {
                // d[j] is the last element of s and does not occur in t.
                assert(d[j] == s.last());
                assert(t.contains(s.last()));
            } else {
                assert(d[j] == prev[j] && d[i] == prev[i]);
                lemma_dedup_first_occurrence_order(t, i, j, q);
                let p = choose|p: int| 0 <= p < q && t[p] == prev[i];
                assert(s[p] == d[i]);
            }
        }
    }
}

/// The strings of `raw` without repeats, each kept at its first occurrence.
pub fn dedup_strings(raw: Vec<String>) -> (r: Vec<String>)
    ensures
        string_views(r@) == dedup(string_views(raw@)),
{
    let ghost rv = string_views(raw@);
    let mut out: Vec<String> = Vec::new();
    let n = raw.len();
    let mut i: usize = 0;
    while i < n
        invariant
            n == raw@.len(),
            rv == string_views(raw@),
            i <= n,
            string_views(out@) == dedup(rv.take(i as int)),
        decreases n - i,
    {
        let mut found = false;
        let mut j: usize = 0;
        while j < out.len()
            invariant
                i < n,
                n == raw@.len(),
                j <= out@.len(),
                found == (exists|k: int| 0 <= k < j && out@[k]@ == raw@[i as int]@),
            decreases out@.len() - j,
        {
            if out[j] == raw[i] {
                found = true;
            }
            j = j + 1;
        }
        let ghost prev = dedup(rv.take(i as int));
        assert(rv.take(i + 1).drop_last() =~= rv.take(i as int));
        assert(rv.take(i + 1).last() == raw@[i as int]@);
        assert(found == prev.contains(raw@[i as int]@)) by {
            if found {
                let k = choose|k: int| 0 <= k < j && out@[k]@ == raw@[i as int]@;
                assert(string_views(out@)[k] == raw@[i as int]@);
            }
            if prev.contains(raw@[i as int]@) {
                let k = choose|k: int| 0 <= k < prev.len() && prev[k] == raw@[i as int]@;
                assert(out@[k]@ == string_views(out@)[k]);
            }
        }
        if !found {
            let s = raw[i].clone();
            out.push(s);
            assert(string_views(out@) =~= prev.push(raw@[i as int]@));
        }
        i = i + 1;
    }
    assert(rv.take(n as int) =~= rv);
    out
}

} // verus!
