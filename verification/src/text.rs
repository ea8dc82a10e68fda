//! Text as sequences of characters: filling templates, numerals, replacing,
//! joining and searching.

use vstd::prelude::*;
use vstd::string::*;

use crate::words;

verus! {

/// `String::push` of std appends one character.
pub assume_specification[ std::string::String::push ](s: &mut std::string::String, c: char)
    ensures
        final(s)@ == old(s)@.push(c),
;

/// The texts that a sequence of strings holds.
pub open spec fn strs(v: Seq<String>) -> Seq<Seq<char>> {
    v.map_values(|s: String| s@)
}

/// The characters of `s`, in order.
pub fn chars_of(s: &str) -> (r: Vec<char>)
    ensures
        r@ == s@,
{
    let mut r: Vec<char> = Vec::new();
    for c in it: s.chars()
        invariant
            r@ == it.seq().take(it.index()),
            it.seq() == s@,
    {
        r.push(c);
    }
    r
}

/// Whether two texts are the same.
pub fn same(a: &str, b: &str) -> (r: bool)
    ensures
        r == (a@ == b@),
{
    let x = a.to_owned();
    let y = b.to_owned();
    x == y
}

/// `a` followed by `b`.
pub fn cat(a: &str, b: &str) -> (r: String)
    ensures
        r@ == a@ + b@,
{
    let mut r = a.to_owned();
    r.append(b);
    r
}

/// `a`, `b` and `c`, one after the other.
pub fn cat3(a: &str, b: &str, c: &str) -> (r: String)
    ensures
        r@ == a@ + b@ + c@,
{
    let mut r = a.to_owned();
    r.append(b);
    r.append(c);
    r
}

// ─── Templates ───

/// A hole's name and the text that goes into it.
pub type Binding = (Seq<char>, Seq<char>);

/// The text bound to `name` at position `k` of `b` or later: the first binding counts,
/// and a name that is not bound stands for nothing.
pub open spec fn lookup_from(b: Seq<Binding>, name: Seq<char>, k: int) -> Seq<char>
    decreases b.len() - k,
{
    if k < 0 || k >= b.len() {
        Seq::empty()
    } else if b[k].0 == name {
        b[k].1
    } else {
        lookup_from(b, name, k + 1)
    }
}

/// The position of the first `}` of `t` at `k` or later, or the length of `t`.
pub open spec fn close_at(t: Seq<char>, k: int) -> int
    decreases t.len() - k,
{
    if k >= t.len() {
        t.len() as int
    } else if t[k] == '}' {
        k
    } else {
        close_at(t, k + 1)
    }
}

/// What the part of the template `t` from position `k` on becomes under the bindings `b`.
pub open spec fn fill_from(t: Seq<char>, b: Seq<Binding>, k: int) -> Seq<char>
    decreases t.len() + 1 - k,
    via fill_from_ends
{
    if k < 0 || k >= t.len() {
        Seq::empty()
    } else if t[k] == '{' && k + 1 < t.len() && t[k + 1] == '{' {
        seq!['{'] + fill_from(t, b, k + 2)
    } else if t[k] == '}' && k + 1 < t.len() && t[k + 1] == '}' {
        seq!['}'] + fill_from(t, b, k + 2)
    } else if t[k] == '{' {
        lookup_from(b, t.subrange(k + 1, close_at(t, k + 1)), 0) + fill_from(
            t,
            b,
            close_at(t, k + 1) + 1,
        )
    } else {
        seq![t[k]] + fill_from(t, b, k + 1)
    }
}

#[via_fn]
proof fn fill_from_ends(t: Seq<char>, b: Seq<Binding>, k: int) {
    if 0 <= k < t.len() {
        lemma_close_at(t, k + 1);
    }
}

/// The template `t` with each hole `{name}` replaced by the text bound to `name`, each `{{`
/// by one `{` and each `}}` by one `}`. Bound texts are taken as they are.
pub open spec fn fill(t: Seq<char>, b: Seq<Binding>) -> Seq<char> {
    fill_from(t, b, 0)
}

proof fn lemma_close_at(t: Seq<char>, k: int)
    requires
        0 <= k <= t.len(),
    ensures
        k <= close_at(t, k) <= t.len(),
        close_at(t, k) < t.len() ==> t[close_at(t, k)] == '}',
    decreases t.len() - k,
{
    if k < t.len() && t[k] != '}' {
        lemma_close_at(t, k + 1);
    }
}

/// A template without braces fills to itself, whatever is bound.
pub proof fn law_fill_without_braces(t: Seq<char>, b: Seq<Binding>)
    requires
        forall|i: int| 0 <= i < t.len() ==> t[i] != '{' && t[i] != '}',
    ensures
        fill(t, b) == t,
{
    lemma_fill_plain_tail(t, b, 0);
    assert(t.subrange(0, t.len() as int) =~= t);
}

proof fn lemma_fill_plain_tail(t: Seq<char>, b: Seq<Binding>, k: int)
    requires
        0 <= k <= t.len(),
        forall|i: int| 0 <= i < t.len() ==> t[i] != '{' && t[i] != '}',
    ensures
        fill_from(t, b, k) == t.subrange(k, t.len() as int),
    decreases t.len() - k,
{
    if k < t.len() {
        lemma_fill_plain_tail(t, b, k + 1);
        assert(t.subrange(k, t.len() as int) =~= seq![t[k]] + t.subrange(k + 1, t.len() as int));
    } else {
        assert(t.subrange(k, t.len() as int) =~= Seq::<char>::empty());
    }
}

/// Whether the first `n` characters of a text hold no brace.
pub open spec fn plain_to(s: Seq<char>, n: nat) -> bool
    decreases n,
{
    n == 0 || (plain_to(s, (n - 1) as nat) && s[n - 1] != '{' && s[n - 1] != '}')
}

proof fn lemma_plain_to(s: Seq<char>, n: nat, k: int)
    requires
        plain_to(s, n),
        0 <= k < n,
    ensures
        s[k] != '{' && s[k] != '}',
    decreases n,
{
    if k < n - 1 {
        lemma_plain_to(s, (n - 1) as nat, k);
    }
}

/// A part of a template without braces stands in the filled text as it is.
pub proof fn lemma_fill_run(t: Seq<char>, b: Seq<Binding>, k: int, part: Seq<char>)
    requires
        words::stands_at(t, part, k),
        plain_to(part, part.len()),
    ensures
        fill_from(t, b, k) == part + fill_from(t, b, k + part.len()),
    decreases part.len(),
{
    if part.len() == 0 {
        assert(part + fill_from(t, b, k) =~= fill_from(t, b, k));
    } else {
        let n = part.len() as int;
        let head = part.take(n - 1);
        assert(t.subrange(k, k + n - 1) =~= t.subrange(k, k + n).take(n - 1));
        lemma_plain_head(part, head, (n - 1) as nat);
        lemma_fill_run(t, b, k, head);
        assert(t[k + n - 1] == t.subrange(k, k + n)[n - 1]);
        lemma_plain_to(part, part.len(), n - 1);
        let rest = fill_from(t, b, k + n);
        assert(fill_from(t, b, k + n - 1) == seq![part[n - 1]] + rest);
        assert(head + (seq![part[n - 1]] + rest) =~= part + rest);
    }
}

proof fn lemma_plain_head(s: Seq<char>, head: Seq<char>, n: nat)
    requires
        n <= head.len() <= s.len(),
        head == s.take(head.len() as int),
        plain_to(s, n),
    ensures
        plain_to(head, n),
    decreases n,
{
    if n > 0 {
        lemma_plain_head(s, head, (n - 1) as nat);
    }
}

/// A hole of a template is filled with what its name stands for.
pub proof fn lemma_fill_hole(t: Seq<char>, b: Seq<Binding>, k: int, name: Seq<char>)
    requires
        0 <= k < t.len(),
        t[k] == '{',
        name.len() > 0,
        words::stands_at(t, name, k + 1),
        plain_to(name, name.len()),
        k + 1 + name.len() < t.len(),
        t[k + 1 + name.len()] == '}',
    ensures
        fill_from(t, b, k) == lookup_from(b, name, 0) + fill_from(t, b, k + name.len() + 2),
{
    let n = name.len() as int;
    assert forall|j: int| k + 1 <= j < k + 1 + n implies t[j] != '}' && t[j] != '{' by {
        assert(t[j] == t.subrange(k + 1, k + 1 + n)[j - k - 1]);
        lemma_plain_to(name, name.len(), j - k - 1);
    }
    lemma_close_found(t, k + 1, k + 1 + n);
    assert(t[k + 1] != '{');
}

proof fn lemma_close_found(t: Seq<char>, k: int, e: int)
    requires
        0 <= k <= e < t.len(),
        t[e] == '}',
        forall|j: int| k <= j < e ==> t[j] != '}',
    ensures
        close_at(t, k) == e,
    decreases e - k,
{
    if k < e {
        lemma_close_found(t, k + 1, e);
    }
}

/// What follows a closing brace in a template is filled as if it stood alone.
pub proof fn lemma_fill_reaches(t: Seq<char>, b: Seq<Binding>, k: int) -> (before: Seq<char>)
    requires
        k == 0 || (0 < k < t.len() && t[k - 1] == '}' && t[k] != '}'),
    ensures
        fill(t, b) == before + fill_from(t, b, k),
{
    lemma_fill_reaches_from(t, b, 0, k)
}

proof fn lemma_fill_reaches_from(t: Seq<char>, b: Seq<Binding>, j: int, k: int) -> (before: Seq<char>)
    requires
        0 <= j <= k,
        j == k || (0 < k < t.len() && t[k - 1] == '}' && t[k] != '}'),
    ensures
        fill_from(t, b, j) == before + fill_from(t, b, k),
    decreases k - j,
{
    if j == k {
        assert(Seq::<char>::empty() + fill_from(t, b, k) =~= fill_from(t, b, k));
        Seq::empty()
    } else {
        let (head, next) = if t[j] == '{' && t[j + 1] == '{' {
            (seq!['{'], j + 2)
        } else if t[j] == '}' && t[j + 1] == '}' {
            (seq!['}'], j + 2)
        } else if t[j] == '{' {
            lemma_close_by(t, j + 1, k - 1);
            (
                lookup_from(b, t.subrange(j + 1, close_at(t, j + 1)), 0),
                close_at(t, j + 1) + 1,
            )
        } else {
            (seq![t[j]], j + 1)
        };
        let before = lemma_fill_reaches_from(t, b, next, k);
        assert(head + (before + fill_from(t, b, k)) =~= (head + before) + fill_from(t, b, k));
        head + before
    }
}

proof fn lemma_close_by(t: Seq<char>, k: int, e: int)
    requires
        0 <= k <= e < t.len(),
        t[e] == '}',
    ensures
        k <= close_at(t, k) <= e,
    decreases e - k,
{
    if t[k] != '}' {
        lemma_close_by(t, k + 1, e);
    }
}

/// Whether a template holds no brace between `j` and `k` but escaped opening ones.
pub open spec fn passes_to(t: Seq<char>, j: int, k: int) -> bool
    decreases k + 1 - j,
{
    j == k || (j < k && if t[j] == '{' {
        t[j + 1] == '{' && passes_to(t, j + 2, k)
    } else {
        t[j] != '}' && passes_to(t, j + 1, k)
    })
}

/// Filling goes on behind a part of a template that holds no hole.
pub proof fn lemma_fill_passes(t: Seq<char>, b: Seq<Binding>, j: int, k: int) -> (before: Seq<char>)
    requires
        0 <= j <= k <= t.len(),
        passes_to(t, j, k),
    ensures
        fill_from(t, b, j) == before + fill_from(t, b, k),
    decreases k - j,
{
    if j == k {
        assert(Seq::<char>::empty() + fill_from(t, b, k) =~= fill_from(t, b, k));
        Seq::empty()
    } else {
        let (head, next) = if t[j] == '{' {
            lemma_passes_bound(t, j + 2, k);
            (seq!['{'], j + 2)
        } else {
            (seq![t[j]], j + 1)
        };
        let before = lemma_fill_passes(t, b, next, k);
        assert(head + (before + fill_from(t, b, k)) =~= (head + before) + fill_from(t, b, k));
        head + before
    }
}

proof fn lemma_passes_bound(t: Seq<char>, j: int, k: int)
    requires
        passes_to(t, j, k),
    ensures
        j <= k,
{
}

/// The bindings that a vector of pairs of strings holds.
pub open spec fn bindings(b: Seq<(&str, &str)>) -> Seq<Binding> {
    b.map_values(|p: (&str, &str)| (p.0@, p.1@))
}

fn push_bound(out: &mut String, t: &Vec<char>, from: usize, to: usize, b: &Vec<(&str, &str)>)
    requires
        from <= to <= t@.len(),
    ensures
        final(out)@ == old(out)@ + lookup_from(
            bindings(b@),
            t@.subrange(from as int, to as int),
            0,
        ),
{
    let mut name = String::new();
    let mut i: usize = from;
    while i < to
        invariant
            from <= i <= to <= t@.len(),
            name@ == t@.subrange(from as int, i as int),
        decreases to - i,
    {
        name.push(t[i]);
        proof {
            assert(t@.subrange(from as int, i + 1) =~= t@.subrange(from as int, i as int).push(
                t@[i as int],
            ));
        }
        i = i + 1;
    }
    let mut k: usize = 0;
    while k < b.len()
        invariant
            k <= b@.len(),
            name@ == t@.subrange(from as int, to as int),
            out@ == old(out)@,
            lookup_from(bindings(b@), name@, 0) == lookup_from(bindings(b@), name@, k as int),
        decreases b.len() - k,
    {
        if same(b[k].0, name.as_str()) {
            out.append(b[k].1);
            return;
        }
        k = k + 1;
    }
    assert(out@ =~= out@ + Seq::<char>::empty());
}

/// Fills the template `t` with the bindings `b`.
pub fn fill_with(t: &str, b: &Vec<(&str, &str)>) -> (r: String)
    ensures
        r@ == fill(t@, bindings(b@)),
{
    let t = chars_of(t);
    let ghost bs = bindings(b@);
    let mut out = String::new();
    let mut k: usize = 0;
    while k < t.len()
        invariant
            k <= t@.len(),
            bs == bindings(b@),
            fill(t@, bs) == out@ + fill_from(t@, bs, k as int),
        decreases t.len() - k,
    {
        let ghost before = out@;
        let ghost at = k as int;
        if t[k] == '{' && k + 1 < t.len() && t[k + 1] == '{' {
            out.push('{');
            k = k + 2;
            assert(before.push('{') + fill_from(t@, bs, at + 2) =~= before + (seq!['{']
                + fill_from(t@, bs, at + 2)));
        } else if t[k] == '}' && k + 1 < t.len() && t[k + 1] == '}' {
            out.push('}');
            k = k + 2;
            assert(before.push('}') + fill_from(t@, bs, at + 2) =~= before + (seq!['}']
                + fill_from(t@, bs, at + 2)));
        } else if t[k] == '{' {
            let mut e: usize = k + 1;
            proof {
                lemma_close_at(t@, at + 1);
            }
            while e < t.len() && t[e] != '}'
                invariant
                    at + 1 <= e <= t@.len(),
                    close_at(t@, at + 1) == close_at(t@, e as int),
                decreases t.len() - e,
            {
                e = e + 1;
            }
            push_bound(&mut out, &t, k + 1, e, b);
            proof {
                let bound = lookup_from(bs, t@.subrange(at + 1, e as int), 0);
                assert((before + bound) + fill_from(t@, bs, e + 1) =~= before + (bound
                    + fill_from(t@, bs, e + 1)));
            }
            if e < t.len() {
                k = e + 1;
            } else {
                k = e;
            }
        } else {
            out.push(t[k]);
            k = k + 1;
            assert(before.push(t@[at]) + fill_from(t@, bs, at + 1) =~= before + (seq![t@[at]]
                + fill_from(t@, bs, at + 1)));
        }
    }
    assert(out@ + Seq::<char>::empty() =~= out@);
    out
}

/// Fills the one hole of the template `t`.
pub fn fill1(t: &str, n1: &str, v1: &str) -> (r: String)
    ensures
        r@ == fill(t@, seq![(n1@, v1@)]),
{
    let mut b: Vec<(&str, &str)> = Vec::new();
    b.push((n1, v1));
    assert(bindings(b@) =~= seq![(n1@, v1@)]);
    fill_with(t, &b)
}

/// Fills the two holes of the template `t`.
pub fn fill2(t: &str, n1: &str, v1: &str, n2: &str, v2: &str) -> (r: String)
    ensures
        r@ == fill(t@, seq![(n1@, v1@), (n2@, v2@)]),
{
    let mut b: Vec<(&str, &str)> = Vec::new();
    b.push((n1, v1));
    b.push((n2, v2));
    assert(bindings(b@) =~= seq![(n1@, v1@), (n2@, v2@)]);
    fill_with(t, &b)
}

/// Fills the three holes of the template `t`.
pub fn fill3(t: &str, n1: &str, v1: &str, n2: &str, v2: &str, n3: &str, v3: &str) -> (r: String)
    ensures
        r@ == fill(t@, seq![(n1@, v1@), (n2@, v2@), (n3@, v3@)]),
{
    let mut b: Vec<(&str, &str)> = Vec::new();
    b.push((n1, v1));
    b.push((n2, v2));
    b.push((n3, v3));
    assert(bindings(b@) =~= seq![(n1@, v1@), (n2@, v2@), (n3@, v3@)]);
    fill_with(t, &b)
}

/// Fills the four holes of the template `t`.
pub fn fill4(
    t: &str,
    n1: &str,
    v1: &str,
    n2: &str,
    v2: &str,
    n3: &str,
    v3: &str,
    n4: &str,
    v4: &str,
) -> (r: String)
    ensures
        r@ == fill(
            t@,
            seq![
                (n1@, v1@),
                (n2@, v2@),
                (n3@, v3@),
                (n4@, v4@),
            ],
        ),
{
    let mut b: Vec<(&str, &str)> = Vec::new();
    b.push((n1, v1));
    b.push((n2, v2));
    b.push((n3, v3));
    b.push((n4, v4));
    assert(bindings(b@) =~= seq![
        (n1@, v1@),
        (n2@, v2@),
        (n3@, v3@),
        (n4@, v4@),
    ]);
    fill_with(t, &b)
}

/// Fills the five holes of the template `t`.
pub fn fill5(
    t: &str,
    n1: &str,
    v1: &str,
    n2: &str,
    v2: &str,
    n3: &str,
    v3: &str,
    n4: &str,
    v4: &str,
    n5: &str,
    v5: &str,
) -> (r: String)
    ensures
        r@ == fill(
            t@,
            seq![
                (n1@, v1@),
                (n2@, v2@),
                (n3@, v3@),
                (n4@, v4@),
                (n5@, v5@),
            ],
        ),
{
    let mut b: Vec<(&str, &str)> = Vec::new();
    b.push((n1, v1));
    b.push((n2, v2));
    b.push((n3, v3));
    b.push((n4, v4));
    b.push((n5, v5));
    assert(bindings(b@) =~= seq![
        (n1@, v1@),
        (n2@, v2@),
        (n3@, v3@),
        (n4@, v4@),
        (n5@, v5@),
    ]);
    fill_with(t, &b)
}

/// Fills the six holes of the template `t`.
pub fn fill6(
    t: &str,
    n1: &str,
    v1: &str,
    n2: &str,
    v2: &str,
    n3: &str,
    v3: &str,
    n4: &str,
    v4: &str,
    n5: &str,
    v5: &str,
    n6: &str,
    v6: &str,
) -> (r: String)
    ensures
        r@ == fill(
            t@,
            seq![
                (n1@, v1@),
                (n2@, v2@),
                (n3@, v3@),
                (n4@, v4@),
                (n5@, v5@),
                (n6@, v6@),
            ],
        ),
{
    let mut b: Vec<(&str, &str)> = Vec::new();
    b.push((n1, v1));
    b.push((n2, v2));
    b.push((n3, v3));
    b.push((n4, v4));
    b.push((n5, v5));
    b.push((n6, v6));
    assert(bindings(b@) =~= seq![
        (n1@, v1@),
        (n2@, v2@),
        (n3@, v3@),
        (n4@, v4@),
        (n5@, v5@),
        (n6@, v6@),
    ]);
    fill_with(t, &b)
}

/// Fills the eight holes of the template `t`.
pub fn fill8(
    t: &str,
    n1: &str,
    v1: &str,
    n2: &str,
    v2: &str,
    n3: &str,
    v3: &str,
    n4: &str,
    v4: &str,
    n5: &str,
    v5: &str,
    n6: &str,
    v6: &str,
    n7: &str,
    v7: &str,
    n8: &str,
    v8: &str,
) -> (r: String)
    ensures
        r@ == fill(
            t@,
            seq![
                (n1@, v1@),
                (n2@, v2@),
                (n3@, v3@),
                (n4@, v4@),
                (n5@, v5@),
                (n6@, v6@),
                (n7@, v7@),
                (n8@, v8@),
            ],
        ),
{
    let mut b: Vec<(&str, &str)> = Vec::new();
    b.push((n1, v1));
    b.push((n2, v2));
    b.push((n3, v3));
    b.push((n4, v4));
    b.push((n5, v5));
    b.push((n6, v6));
    b.push((n7, v7));
    b.push((n8, v8));
    assert(bindings(b@) =~= seq![
        (n1@, v1@),
        (n2@, v2@),
        (n3@, v3@),
        (n4@, v4@),
        (n5@, v5@),
        (n6@, v6@),
        (n7@, v7@),
        (n8@, v8@),
    ]);
    fill_with(t, &b)
}

} // verus!
