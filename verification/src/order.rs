//! Sets of texts kept in order.

use vstd::prelude::*;

use crate::text::{self, chars_of};

verus! {

/// Whether `a` comes before `b`, comparing from position `k` on: character by character,
/// and a text before its extensions.
pub open spec fn before_from(a: Seq<char>, b: Seq<char>, k: int) -> bool
    decreases b.len() - k,
{
    if k >= b.len() {
        false
    } else if k >= a.len() {
        true
    } else if a[k] != b[k] {
        a[k] < b[k]
    } else {
        before_from(a, b, k + 1)
    }
}

/// Whether `a` comes before `b`.
pub open spec fn before(a: Seq<char>, b: Seq<char>) -> bool {
    before_from(a, b, 0)
}

/// Whether `a` comes before `b`.
pub fn is_before(a: &str, b: &str) -> (r: bool)
    ensures
        r == before(a@, b@),
{
    let x = chars_of(a);
    let y = chars_of(b);
    let mut k: usize = 0;
    while k < x.len() && k < y.len() && x[k] == y[k]
        invariant
            k <= x@.len(),
            k <= y@.len(),
            x@ == a@,
            y@ == b@,
            before(a@, b@) == before_from(a@, b@, k as int),
        decreases x.len() - k,
    {
        k = k + 1;
    }
    if k >= y.len() {
        false
    } else if k >= x.len() {
        true
    } else {
        x[k] < y[k]
    }
}

/// The first position where two different texts part is what decides.
proof fn lemma_before_at(a: Seq<char>, b: Seq<char>, k: int, d: int)
    requires
        0 <= k <= d,
        d <= a.len(),
        d <= b.len(),
        forall|i: int| k <= i < d ==> a[i] == b[i],
    ensures
        before_from(a, b, k) == before_from(a, b, d),
    decreases d - k,
{
    if k < d {
        lemma_before_at(a, b, k + 1, d);
    }
}

/// The first position at which `a` and `b` part, or the length of the shorter.
spec fn parting(a: Seq<char>, b: Seq<char>, k: int) -> int
    decreases a.len() - k,
{
    if k >= a.len() || k >= b.len() || a[k] != b[k] {
        k
    } else {
        parting(a, b, k + 1)
    }
}

proof fn lemma_parting(a: Seq<char>, b: Seq<char>, k: int)
    requires
        0 <= k <= a.len(),
        k <= b.len(),
    ensures
        k <= parting(a, b, k) <= a.len(),
        parting(a, b, k) <= b.len(),
        forall|i: int| k <= i < parting(a, b, k) ==> a[i] == b[i],
        parting(a, b, k) < a.len() && parting(a, b, k) < b.len() ==> a[parting(a, b, k)]
            != b[parting(a, b, k)],
    decreases a.len() - k,
{
    if k < a.len() && k < b.len() && a[k] == b[k] {
        lemma_parting(a, b, k + 1);
    }
}

/// Of two different texts exactly one comes before the other, and no text comes before itself.
pub proof fn law_order_total(a: Seq<char>, b: Seq<char>)
    ensures
        !before(a, a),
        a != b ==> before(a, b) != before(b, a),
        a == b ==> !before(a, b),
{
    lemma_before_at(a, a, 0, a.len() as int);
    lemma_parting(a, b, 0);
    let d = parting(a, b, 0);
    lemma_before_at(a, b, 0, d);
    lemma_before_at(b, a, 0, d);
    if d >= a.len() && d >= b.len() {
        assert(a =~= b);
    }
}

/// What comes before a text also comes before what that text comes before.
pub proof fn law_order_transitive(a: Seq<char>, b: Seq<char>, c: Seq<char>)
    requires
        before(a, b),
        before(b, c),
    ensures
        before(a, c),
{
    lemma_parting(a, b, 0);
    lemma_parting(b, c, 0);
    let d = parting(a, b, 0);
    let e = parting(b, c, 0);
    lemma_before_at(a, b, 0, d);
    lemma_before_at(b, c, 0, e);
    let m = if d < e { d } else { e };
    assert(m <= a.len() && m <= c.len());
    assert forall|i: int| 0 <= i < m implies a[i] == c[i] by {
        assert(a[i] == b[i] && b[i] == c[i]);
    }
    lemma_before_at(a, c, 0, m);
}

/// Whether each of `v` comes before all that stand behind it: `v` is in order and nothing
/// occurs twice.
pub open spec fn ordered(v: Seq<Seq<char>>) -> bool {
    forall|i: int, j: int| 0 <= i < j < v.len() ==> #[trigger] before(v[i], v[j])
}

/// The position of the first of `v`, at `k` or later, that does not come before `x`.
pub open spec fn place_from(v: Seq<Seq<char>>, x: Seq<char>, k: int) -> int
    decreases v.len() - k,
{
    if k >= v.len() || !before(v[k], x) {
        k
    } else {
        place_from(v, x, k + 1)
    }
}

/// `v` with `x` put in its place, unless `v` holds it there already.
pub open spec fn inserted(v: Seq<Seq<char>>, x: Seq<char>) -> Seq<Seq<char>> {
    let p = place_from(v, x, 0);
    if p < v.len() && v[p] == x {
        v
    } else {
        v.insert(p, x)
    }
}

proof fn lemma_place(v: Seq<Seq<char>>, x: Seq<char>, k: int)
    requires
        0 <= k <= v.len(),
    ensures
        k <= place_from(v, x, k) <= v.len(),
        forall|i: int| k <= i < place_from(v, x, k) ==> before(#[trigger] v[i], x),
        place_from(v, x, k) < v.len() ==> !before(v[place_from(v, x, k)], x),
    decreases v.len() - k,
{
    if k < v.len() && before(v[k], x) {
        lemma_place(v, x, k + 1);
    }
}

/// Inserting keeps the order, adds `x` and nothing else, and loses nothing.
pub proof fn law_inserted(v: Seq<Seq<char>>, x: Seq<char>)
    requires
        ordered(v),
    ensures
        ordered(inserted(v, x)),
        forall|y: Seq<char>| inserted(v, x).contains(y) <==> v.contains(y) || y == x,
{
    lemma_place(v, x, 0);
    let p = place_from(v, x, 0);
    let w = inserted(v, x);
    if p < v.len() && v[p] == x {
        assert(v.contains(x));
    } else {
        if p < v.len() {
            law_order_total(v[p], x);
        }
        assert forall|i: int, j: int| 0 <= i < j < w.len() implies #[trigger] before(
            w[i],
            w[j],
        ) by {
            if j < p {
                assert(w[i] == v[i] && w[j] == v[j]);
            } else if j == p {
                assert(w[i] == v[i]);
            } else if i < p {
                assert(w[i] == v[i] && w[j] == v[j - 1]);
                assert(before(v[i], v[j - 1]));
            } else if i == p {
                assert(w[j] == v[j - 1]);
                if j - 1 > p {
                    assert(before(v[p], v[j - 1]));
                    law_order_transitive(x, v[p], v[j - 1]);
                }
            } else {
                assert(w[i] == v[i - 1] && w[j] == v[j - 1]);
                assert(before(v[i - 1], v[j - 1]));
            }
        }
        assert forall|y: Seq<char>| w.contains(y) <==> v.contains(y) || y == x by {
            if w.contains(y) {
                let i = choose|i: int| 0 <= i < w.len() && w[i] == y;
                if i < p {
                    assert(v[i] == y);
                } else if i > p {
                    assert(v[i - 1] == y);
                }
            }
            if v.contains(y) {
                let i = choose|i: int| 0 <= i < v.len() && v[i] == y;
                if i < p {
                    assert(w[i] == y);
                } else {
                    assert(w[i + 1] == y);
                }
            }
            assert(w[p] == x);
        }
    }
}

/// Two ordered lists that hold the same texts are the same list.
pub proof fn law_ordered_unique(v: Seq<Seq<char>>, w: Seq<Seq<char>>)
    requires
        ordered(v),
        ordered(w),
        forall|y: Seq<char>| v.contains(y) <==> w.contains(y),
    ensures
        v == w,
    decreases v.len(),
{
    if v.len() == 0 {
        if w.len() > 0 {
            assert(w.contains(w[0]));
            assert(v.contains(w[0]));
        }
        assert(v =~= w);
    } else {
        assert(v.contains(v[0]));
        assert(w.contains(v[0]));
        let i = choose|i: int| 0 <= i < w.len() && w[i] == v[0];
        assert(w.contains(w[0]));
        assert(v.contains(w[0]));
        let j = choose|j: int| 0 <= j < v.len() && v[j] == w[0];
        if i > 0 {
            assert(before(w[0], w[i]));
            if j > 0 {
                assert(before(v[0], v[j]));
                law_order_total(v[0], w[0]);
            } else {
                law_order_total(v[0], v[0]);
            }
        }
        assert(v[0] == w[0]);
        let vt = v.skip(1);
        let wt = w.skip(1);
        assert forall|a: int, b: int| 0 <= a < b < vt.len() implies #[trigger] before(
            vt[a],
            vt[b],
        ) by {
            assert(before(v[a + 1], v[b + 1]));
        }
        assert forall|a: int, b: int| 0 <= a < b < wt.len() implies #[trigger] before(
            wt[a],
            wt[b],
        ) by {
            assert(before(w[a + 1], w[b + 1]));
        }
        assert forall|y: Seq<char>| vt.contains(y) <==> wt.contains(y) by {
            if vt.contains(y) {
                let a = choose|a: int| 0 <= a < vt.len() && vt[a] == y;
                assert(v[a + 1] == y);
                assert(before(v[0], v[a + 1]));
                law_order_total(v[0], y);
                assert(w.contains(y));
                let b = choose|b: int| 0 <= b < w.len() && w[b] == y;
                assert(wt[b - 1] == y);
            }
            if wt.contains(y) {
                let a = choose|a: int| 0 <= a < wt.len() && wt[a] == y;
                assert(w[a + 1] == y);
                assert(before(w[0], w[a + 1]));
                law_order_total(w[0], y);
                assert(v.contains(y));
                let b = choose|b: int| 0 <= b < v.len() && v[b] == y;
                assert(vt[b - 1] == y);
            }
        }
        law_ordered_unique(vt, wt);
        assert(v =~= seq![v[0]] + vt);
        assert(w =~= seq![w[0]] + wt);
    }
}

/// Puts `x` in its place in `v`, unless `v` holds it there already.
pub fn insert(v: &mut Vec<String>, x: &str)
    ensures
        text::strs(final(v)@) == inserted(text::strs(old(v)@), x@),
{
    let ghost s = text::strs(v@);
    let mut p: usize = 0;
    while p < v.len() && is_before(v[p].as_str(), x)
        invariant
            p <= v@.len(),
            v@ == old(v)@,
            s == text::strs(v@),
            place_from(s, x@, 0) == place_from(s, x@, p as int),
        decreases v.len() - p,
    {
        p = p + 1;
    }
    if p < v.len() && text::same(v[p].as_str(), x) {
        return;
    }
    v.insert(p, x.to_owned());
    assert(text::strs(v@) =~= s.insert(p as int, x@));
}

/// The first `n` of `xs` in order, each once.
pub open spec fn sorted_prefix(xs: Seq<Seq<char>>, n: nat) -> Seq<Seq<char>>
    decreases n,
{
    if n == 0 {
        Seq::empty()
    } else {
        inserted(sorted_prefix(xs, (n - 1) as nat), xs[n - 1])
    }
}

/// What `xs` holds, in order, each once.
pub open spec fn sorted_set(xs: Seq<Seq<char>>) -> Seq<Seq<char>> {
    sorted_prefix(xs, xs.len())
}

proof fn lemma_sorted_prefix(xs: Seq<Seq<char>>, n: nat)
    requires
        n <= xs.len(),
    ensures
        ordered(sorted_prefix(xs, n)),
        forall|y: Seq<char>|
            sorted_prefix(xs, n).contains(y) <==> exists|k: int| 0 <= k < n && xs[k] == y,
    decreases n,
{
    if n > 0 {
        lemma_sorted_prefix(xs, (n - 1) as nat);
        let head = sorted_prefix(xs, (n - 1) as nat);
        law_inserted(head, xs[n - 1]);
        assert forall|y: Seq<char>|
            sorted_prefix(xs, n).contains(y) <==> exists|k: int| 0 <= k < n && xs[k] == y by {
            if sorted_prefix(xs, n).contains(y) {
                if y == xs[n - 1] {
                    assert(0 <= n - 1 < n && xs[n - 1] == y);
                } else {
                    assert(head.contains(y));
                    let k = choose|k: int| 0 <= k < n - 1 && xs[k] == y;
                    assert(0 <= k < n && xs[k] == y);
                }
            }
            if exists|k: int| 0 <= k < n && xs[k] == y {
                let k = choose|k: int| 0 <= k < n && xs[k] == y;
                if k < n - 1 {
                    assert(0 <= k < n - 1 && xs[k] == y);
                    assert(head.contains(y));
                }
            }
        }
    }
}

/// The sorted list is in order without repetition and holds what was given, no more and no
/// less.
pub proof fn law_sorted_set(xs: Seq<Seq<char>>)
    ensures
        ordered(sorted_set(xs)),
        forall|y: Seq<char>| sorted_set(xs).contains(y) <==> xs.contains(y),
{
    lemma_sorted_prefix(xs, xs.len());
    assert forall|y: Seq<char>| sorted_set(xs).contains(y) <==> xs.contains(y) by {
        if xs.contains(y) {
            let k = choose|k: int| 0 <= k < xs.len() && xs[k] == y;
            assert(0 <= k < xs.len() && xs[k] == y);
        }
    }
}

/// The order and the repetitions in what was given make no difference.
pub proof fn law_sorted_set_order_free(xs: Seq<Seq<char>>, ys: Seq<Seq<char>>)
    requires
        forall|y: Seq<char>| xs.contains(y) <==> ys.contains(y),
    ensures
        sorted_set(xs) == sorted_set(ys),
{
    law_sorted_set(xs);
    law_sorted_set(ys);
    assert forall|y: Seq<char>| sorted_set(xs).contains(y) <==> sorted_set(ys).contains(y) by {
        assert(xs.contains(y) <==> ys.contains(y));
    }
    law_ordered_unique(sorted_set(xs), sorted_set(ys));
}

/// Sorts texts and drops repetitions.
pub fn sorted(xs: &Vec<String>) -> (r: Vec<String>)
    ensures
        text::strs(r@) == sorted_set(text::strs(xs@)),
{
    let mut r: Vec<String> = Vec::new();
    assert(text::strs(r@) =~= Seq::<Seq<char>>::empty());
    let mut k: usize = 0;
    while k < xs.len()
        invariant
            k <= xs@.len(),
            text::strs(r@) == sorted_prefix(text::strs(xs@), k as nat),
        decreases xs.len() - k,
    {
        insert(&mut r, xs[k].as_str());
        k = k + 1;
    }
    r
}

/// Sorting keeps or lowers the number of texts.
pub proof fn lemma_sorted_prefix_len(xs: Seq<Seq<char>>, n: nat)
    ensures
        sorted_prefix(xs, n).len() <= n,
    decreases n,
{
    if n > 0 {
        lemma_sorted_prefix_len(xs, (n - 1) as nat);
        lemma_place(sorted_prefix(xs, (n - 1) as nat), xs[n - 1], 0);
    }
}

} // verus!
