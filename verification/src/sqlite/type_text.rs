//! WIT types as text: the identifiers in them, and the aliases that stand for other types.

use vstd::prelude::*;
use vstd::string::*;

use crate::packages::{self, find_in};
use crate::text::{self, chars_of, same};
use crate::words::{self, is_alphanumeric, text_of_range};

verus! {

// ─── Identifiers ───

/// Whether `c` can stand in an identifier.
pub open spec fn ident_char(c: char) -> bool {
    words::alphanumeric(c) || c == '-'
}

fn is_ident_char(c: char) -> (r: bool)
    ensures
        r == ident_char(c),
{
    is_alphanumeric(c) || c == '-'
}

/// Where the identifier that holds position `k` ends: the first position, at `k` or later, that
/// holds no character of an identifier.
pub open spec fn ident_end(s: Seq<char>, k: int) -> int
    decreases s.len() - k,
{
    if k >= s.len() || !ident_char(s[k]) {
        k
    } else {
        ident_end(s, k + 1)
    }
}

proof fn lemma_ident_end(s: Seq<char>, k: int)
    requires
        k <= s.len(),
    ensures
        k <= ident_end(s, k) <= s.len(),
        forall|i: int| k <= i < ident_end(s, k) ==> ident_char(s[i]),
    decreases s.len() - k,
{
    if k < s.len() && ident_char(s[k]) {
        lemma_ident_end(s, k + 1);
    }
}

/// The identifiers of `s` from `k` on, in order.
pub open spec fn idents_from(s: Seq<char>, k: int) -> Seq<Seq<char>>
    decreases s.len() - k,
    via idents_end
{
    if k >= s.len() {
        Seq::empty()
    } else if !ident_char(s[k]) {
        idents_from(s, k + 1)
    } else {
        seq![s.subrange(k, ident_end(s, k + 1))] + idents_from(s, ident_end(s, k + 1))
    }
}

#[via_fn]
proof fn idents_end(s: Seq<char>, k: int) {
    if k < s.len() {
        lemma_ident_end(s, k + 1);
    }
}

/// The identifiers of a type, in order.
pub open spec fn idents(s: Seq<char>) -> Seq<Seq<char>> {
    idents_from(s, 0)
}

fn end_of_ident(cs: &Vec<char>, k: usize) -> (r: usize)
    requires
        k <= cs@.len(),
    ensures
        k <= r <= cs@.len(),
        r == ident_end(cs@, k as int),
{
    let mut e: usize = k;
    while e < cs.len() && is_ident_char(cs[e])
        invariant
            k <= e <= cs@.len(),
            ident_end(cs@, k as int) == ident_end(cs@, e as int),
        decreases cs.len() - e,
    {
        e = e + 1;
    }
    e
}

/// Lists the identifiers of a type.
pub fn list_idents(s: &str) -> (r: Vec<String>)
    ensures
        text::strs(r@) == idents(s@),
{
    let cs = chars_of(s);
    let mut r: Vec<String> = Vec::new();
    let mut k: usize = 0;
    assert(text::strs(r@) + idents_from(s@, 0) =~= idents(s@));
    while k < cs.len()
        invariant
            k <= cs@.len(),
            cs@ == s@,
            text::strs(r@) + idents_from(s@, k as int) == idents(s@),
        decreases cs.len() - k,
    {
        if is_ident_char(cs[k]) {
            let ghost was = text::strs(r@);
            let e = end_of_ident(&cs, k + 1);
            let ident = text_of_range(&cs, k, e);
            r.push(ident);
            proof {
                let rest = idents_from(s@, e as int);
                assert(text::strs(r@) =~= was.push(ident@));
                assert(was + (seq![ident@] + rest) =~= was.push(ident@) + rest);
            }
            k = e;
        } else {
            k = k + 1;
        }
    }
    assert(text::strs(r@) + Seq::<Seq<char>>::empty() =~= text::strs(r@));
    r
}

/// Whether `s` names a primitive type of WIT.
pub open spec fn primitive(s: Seq<char>) -> bool {
    s == "bool"@ || s == "u8"@ || s == "u16"@ || s == "u32"@ || s == "u64"@ || s == "s8"@ || s
        == "s16"@ || s == "s32"@ || s == "s64"@ || s == "f32"@ || s == "f64"@ || s == "char"@ || s
        == "string"@
}

/// Whether `s` names a primitive type of WIT.
pub fn is_wit_primitive(s: &str) -> (r: bool)
    ensures
        r == primitive(s@),
{
    same(s, "bool") || same(s, "u8") || same(s, "u16") || same(s, "u32") || same(s, "u64")
        || same(s, "s8") || same(s, "s16") || same(s, "s32") || same(s, "s64") || same(s, "f32")
        || same(s, "f64") || same(s, "char") || same(s, "string")
}

/// Whether `s` is the word for a type that is made of others.
pub open spec fn compound(s: Seq<char>) -> bool {
    s == "list"@ || s == "option"@ || s == "result"@ || s == "tuple"@ || s == "borrow"@
}

fn is_compound(s: &str) -> (r: bool)
    ensures
        r == compound(s@),
{
    same(s, "list") || same(s, "option") || same(s, "result") || same(s, "tuple") || same(
        s,
        "borrow",
    )
}

/// Whether an identifier names a type that is declared elsewhere: neither a type of WIT itself
/// nor one of the `local` names.
pub open spec fn foreign(s: Seq<char>, local: Seq<Seq<char>>) -> bool {
    !primitive(s) && !local.contains(s) && !compound(s)
}

/// Those of the first `n` identifiers that name types declared elsewhere.
pub open spec fn foreign_prefix(ids: Seq<Seq<char>>, local: Seq<Seq<char>>, n: nat) -> Seq<Seq<char>>
    decreases n,
{
    if n == 0 {
        Seq::empty()
    } else {
        let head = foreign_prefix(ids, local, (n - 1) as nat);
        if foreign(ids[n - 1], local) {
            head.push(ids[n - 1])
        } else {
            head
        }
    }
}

/// The identifiers of a type that name types declared elsewhere, in order.
pub open spec fn type_idents(s: Seq<char>, local: Seq<Seq<char>>) -> Seq<Seq<char>> {
    foreign_prefix(idents(s), local, idents(s).len())
}

/// Puts the identifiers of a type that name types declared elsewhere behind `out`.
pub fn collect_type_idents(type_text: &str, record_names: &Vec<String>, out: &mut Vec<String>)
    ensures
        text::strs(final(out)@) == text::strs(old(out)@) + type_idents(
            type_text@,
            text::strs(record_names@),
        ),
{
    let ghost local = text::strs(record_names@);
    let ghost start = text::strs(out@);
    let ids = list_idents(type_text);
    let mut k: usize = 0;
    assert(start =~= start + foreign_prefix(idents(type_text@), local, 0));
    while k < ids.len()
        invariant
            k <= ids@.len(),
            local == text::strs(record_names@),
            text::strs(ids@) == idents(type_text@),
            text::strs(out@) == start + foreign_prefix(idents(type_text@), local, k as nat),
        decreases ids.len() - k,
    {
        let id = ids[k].as_str();
        assert(idents(type_text@)[k as int] == id@);
        if !is_wit_primitive(id) && !words::has(record_names, id) && !is_compound(id) {
            let ghost was = text::strs(out@);
            out.push(id.to_owned());
            proof {
                let head = foreign_prefix(idents(type_text@), local, k as nat);
                assert(text::strs(out@) =~= was.push(id@));
                assert((start + head).push(id@) =~= start + head.push(id@));
            }
        }
        k = k + 1;
    }
}

/// What is collected from a type are exactly those of its identifiers that are neither types of
/// WIT itself nor local.
pub proof fn law_type_idents(s: Seq<char>, local: Seq<Seq<char>>, x: Seq<char>)
    ensures
        type_idents(s, local).contains(x) <==> idents(s).contains(x) && foreign(x, local),
{
    lemma_foreign_prefix(idents(s), local, idents(s).len(), x);
    if idents(s).contains(x) {
        let k = choose|k: int| 0 <= k < idents(s).len() && idents(s)[k] == x;
        assert(0 <= k < idents(s).len() && idents(s)[k] == x);
    }
}

proof fn lemma_foreign_prefix(ids: Seq<Seq<char>>, local: Seq<Seq<char>>, n: nat, x: Seq<char>)
    requires
        n <= ids.len(),
    ensures
        foreign_prefix(ids, local, n).contains(x) <==> foreign(x, local) && exists|k: int|
            0 <= k < n && #[trigger] ids[k] == x,
    decreases n,
{
    if n > 0 {
        lemma_foreign_prefix(ids, local, (n - 1) as nat, x);
        let head = foreign_prefix(ids, local, (n - 1) as nat);
        let all = foreign_prefix(ids, local, n);
        if head.contains(x) {
            let j = choose|j: int| 0 <= j < head.len() && head[j] == x;
            assert(all[j] == x);
        }
        if foreign(ids[n - 1], local) {
            assert(all[head.len() as int] == ids[n - 1]);
        }
        if all.contains(x) && !head.contains(x) {
            let j = choose|j: int| 0 <= j < all.len() && all[j] == x;
            assert(j == head.len());
            assert(ids[n - 1] == x);
        }
        if foreign(x, local) && exists|k: int| 0 <= k < n && #[trigger] ids[k] == x {
            let k = choose|k: int| 0 <= k < n && #[trigger] ids[k] == x;
            if k < n - 1 {
                assert(head.contains(x));
            }
        }
    } else {
        assert(foreign_prefix(ids, local, 0) =~= Seq::<Seq<char>>::empty());
    }
}

// ─── Aliases ───

/// An identifier, or the type that it is an alias of.
pub open spec fn resolved(ident: Seq<char>, aliases: Seq<(Seq<char>, Seq<char>)>) -> Seq<char> {
    match packages::find_from(aliases, ident, 0) {
        Some(body) => body,
        None => ident,
    }
}

/// `s` from `k` on, with each alias replaced by its type.
pub open spec fn substituted_from(
    s: Seq<char>,
    aliases: Seq<(Seq<char>, Seq<char>)>,
    k: int,
) -> Seq<char>
    decreases s.len() - k,
    via substituted_end
{
    if k >= s.len() {
        Seq::empty()
    } else if !ident_char(s[k]) {
        seq![s[k]] + substituted_from(s, aliases, k + 1)
    } else {
        resolved(s.subrange(k, ident_end(s, k + 1)), aliases) + substituted_from(
            s,
            aliases,
            ident_end(s, k + 1),
        )
    }
}

#[via_fn]
proof fn substituted_end(s: Seq<char>, aliases: Seq<(Seq<char>, Seq<char>)>, k: int) {
    if k < s.len() {
        lemma_ident_end(s, k + 1);
    }
}

/// A type with each alias replaced, once, by its type.
pub open spec fn substituted(s: Seq<char>, aliases: Seq<(Seq<char>, Seq<char>)>) -> Seq<char> {
    substituted_from(s, aliases, 0)
}

/// A type with its aliases replaced `n` times over.
pub open spec fn substituted_times(
    s: Seq<char>,
    aliases: Seq<(Seq<char>, Seq<char>)>,
    n: nat,
) -> Seq<char>
    decreases n,
{
    if n == 0 {
        s
    } else {
        substituted(substituted_times(s, aliases, (n - 1) as nat), aliases)
    }
}

/// How many aliases of aliases are followed.
pub const ALIAS_DEPTH: usize = 4;

/// A type with its aliases replaced, and theirs, to the depth that is followed.
pub open spec fn inlined(s: Seq<char>, aliases: Seq<(Seq<char>, Seq<char>)>) -> Seq<char> {
    substituted_times(s, aliases, ALIAS_DEPTH as nat)
}

/// Replaces each alias of a type, once, by its type.
pub fn substitute_idents(s: &str, map: &Vec<(String, String)>) -> (r: String)
    ensures
        r@ == substituted(s@, packages::pairs(map@)),
{
    let ghost aliases = packages::pairs(map@);
    let cs = chars_of(s);
    let mut r = String::new();
    let mut k: usize = 0;
    assert(r@ + substituted_from(s@, aliases, 0) =~= substituted(s@, aliases));
    while k < cs.len()
        invariant
            k <= cs@.len(),
            cs@ == s@,
            aliases == packages::pairs(map@),
            r@ + substituted_from(s@, aliases, k as int) == substituted(s@, aliases),
        decreases cs.len() - k,
    {
        let ghost was = r@;
        if is_ident_char(cs[k]) {
            let e = end_of_ident(&cs, k + 1);
            let ident = text_of_range(&cs, k, e);
            match find_in(map, ident.as_str()) {
                Some(body) => {
                    r.append(body);
                },
                None => {
                    r.append(ident.as_str());
                },
            }
            proof {
                let rest = substituted_from(s@, aliases, e as int);
                let new = resolved(ident@, aliases);
                assert(was + (new + rest) =~= (was + new) + rest);
            }
            k = e;
        } else {
            r.push(cs[k]);
            proof {
                let rest = substituted_from(s@, aliases, k + 1);
                assert(was + (seq![s@[k as int]] + rest) =~= was.push(s@[k as int]) + rest);
            }
            k = k + 1;
        }
    }
    assert(r@ + Seq::<char>::empty() =~= r@);
    r
}

/// Replaces the aliases of a type, and theirs, to the depth that is followed.
pub fn inline_aliases(type_text: &str, alias_map: &Vec<(String, String)>) -> (r: String)
    ensures
        r@ == inlined(type_text@, packages::pairs(alias_map@)),
{
    let ghost aliases = packages::pairs(alias_map@);
    let mut current = type_text.to_owned();
    let mut n: usize = 0;
    while n < ALIAS_DEPTH
        invariant
            n <= ALIAS_DEPTH,
            aliases == packages::pairs(alias_map@),
            current@ == substituted_times(type_text@, aliases, n as nat),
        decreases ALIAS_DEPTH - n,
    {
        let next = substitute_idents(current.as_str(), alias_map);
        if same(next.as_str(), current.as_str()) {
            proof {
                lemma_settled(type_text@, aliases, n as nat, ALIAS_DEPTH as nat);
            }
            return current;
        }
        current = next;
        n = n + 1;
    }
    current
}

/// A type that a round of replacement leaves as it is stays so.
proof fn lemma_settled(s: Seq<char>, aliases: Seq<(Seq<char>, Seq<char>)>, n: nat, m: nat)
    requires
        n <= m,
        substituted(substituted_times(s, aliases, n), aliases) == substituted_times(s, aliases, n),
    ensures
        substituted_times(s, aliases, m) == substituted_times(s, aliases, n),
    decreases m,
{
    if n < m {
        lemma_settled(s, aliases, n, (m - 1) as nat);
    }
}

/// A type in which no identifier is an alias stays as it is.
pub proof fn law_inlined_without_aliases(s: Seq<char>, aliases: Seq<(Seq<char>, Seq<char>)>)
    requires
        forall|k: int|
            0 <= k < idents(s).len() ==> packages::find_from(aliases, #[trigger] idents(s)[k], 0)
                is None,
    ensures
        inlined(s, aliases) == s,
{
    assert forall|i: int| 0 <= i < idents_from(s, 0).len() implies packages::find_from(
        aliases,
        #[trigger] idents_from(s, 0)[i],
        0,
    ) is None by {
        assert(idents(s)[i] == idents_from(s, 0)[i]);
    }
    lemma_substituted_plain(s, aliases, 0);
    assert(s.subrange(0, s.len() as int) =~= s);
    lemma_settled(s, aliases, 0, ALIAS_DEPTH as nat);
}

proof fn lemma_substituted_plain(s: Seq<char>, aliases: Seq<(Seq<char>, Seq<char>)>, k: int)
    requires
        0 <= k <= s.len(),
        forall|i: int|
            0 <= i < idents_from(s, k).len() ==> packages::find_from(
                aliases,
                #[trigger] idents_from(s, k)[i],
                0,
            ) is None,
    ensures
        substituted_from(s, aliases, k) == s.subrange(k, s.len() as int),
    decreases s.len() - k,
{
    let n = s.len() as int;
    if k >= n {
        assert(s.subrange(k, n) =~= Seq::<char>::empty());
    } else if !ident_char(s[k]) {
        assert forall|i: int| 0 <= i < idents_from(s, k + 1).len() implies packages::find_from(
            aliases,
            #[trigger] idents_from(s, k + 1)[i],
            0,
        ) is None by {
            assert(idents_from(s, k)[i] == idents_from(s, k + 1)[i]);
        }
        lemma_substituted_plain(s, aliases, k + 1);
        assert(seq![s[k]] + s.subrange(k + 1, n) =~= s.subrange(k, n));
    } else {
        let e = ident_end(s, k + 1);
        lemma_ident_end(s, k + 1);
        let head = seq![s.subrange(k, e)];
        let tail = idents_from(s, e);
        assert(idents_from(s, k) == head + tail);
        assert((head + tail)[0] == s.subrange(k, e));
        assert forall|i: int| 0 <= i < tail.len() implies packages::find_from(
            aliases,
            #[trigger] tail[i],
            0,
        ) is None by {
            assert((head + tail)[i + 1] == tail[i]);
        }
        lemma_substituted_plain(s, aliases, e);
        assert(s.subrange(k, e) + s.subrange(e, n) =~= s.subrange(k, n));
    }
}

/// Whether `s` is one identifier.
pub open spec fn single_ident(s: Seq<char>) -> bool {
    s.len() > 0 && forall|k: int| 0 <= k < s.len() ==> ident_char(#[trigger] s[k])
}

/// A chain of aliases collapses to the type at its end, where the chain is not longer than what
/// is followed and that type is no alias.
pub proof fn law_alias_chain(chain: Seq<Seq<char>>, aliases: Seq<(Seq<char>, Seq<char>)>)
    requires
        0 < chain.len() <= ALIAS_DEPTH + 1,
        forall|k: int| 0 <= k < chain.len() ==> single_ident(#[trigger] chain[k]),
        forall|k: int|
            0 <= k < chain.len() - 1 ==> packages::find_from(aliases, #[trigger] chain[k], 0)
                == Some(chain[k + 1]),
        packages::find_from(aliases, chain.last(), 0) is None,
    ensures
        inlined(chain[0], aliases) == chain.last(),
{
    let n = (chain.len() - 1) as nat;
    lemma_chain(chain, aliases, n);
    lemma_substituted_ident(chain.last(), aliases);
    lemma_settled(chain[0], aliases, n, ALIAS_DEPTH as nat);
}

proof fn lemma_chain(chain: Seq<Seq<char>>, aliases: Seq<(Seq<char>, Seq<char>)>, n: nat)
    requires
        n < chain.len(),
        forall|k: int| 0 <= k < chain.len() ==> single_ident(#[trigger] chain[k]),
        forall|k: int|
            0 <= k < chain.len() - 1 ==> packages::find_from(aliases, #[trigger] chain[k], 0)
                == Some(chain[k + 1]),
    ensures
        substituted_times(chain[0], aliases, n) == chain[n as int],
    decreases n,
{
    if n > 0 {
        lemma_chain(chain, aliases, (n - 1) as nat);
        lemma_substituted_ident(chain[n - 1], aliases);
    }
}

proof fn lemma_substituted_ident(s: Seq<char>, aliases: Seq<(Seq<char>, Seq<char>)>)
    requires
        single_ident(s),
    ensures
        substituted(s, aliases) == resolved(s, aliases),
{
    let n = s.len() as int;
    assert(ident_char(s[0]));
    lemma_ident_end(s, 1);
    lemma_end_of_single(s, 1);
    assert(s.subrange(0, n) =~= s);
    assert(substituted_from(s, aliases, n) =~= Seq::<char>::empty());
    assert(resolved(s, aliases) + Seq::<char>::empty() =~= resolved(s, aliases));
}

proof fn lemma_end_of_single(s: Seq<char>, k: int)
    requires
        single_ident(s),
        0 <= k <= s.len(),
    ensures
        ident_end(s, k) == s.len(),
    decreases s.len() - k,
{
    if k < s.len() {
        assert(ident_char(s[k]));
        lemma_end_of_single(s, k + 1);
    }
}

} // verus!
