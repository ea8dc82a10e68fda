//! What emitters read out of WIT packages: names of types, the primary package, module aliases.

use vstd::prelude::*;
use vstd::string::*;

use crate::ir::{WitDecl, WitEnum, WitPackage};
use crate::text::{self, same};
use crate::words;

verus! {

// ─── Names of types ───

/// The names of declared types.
pub open spec fn decl_names(decls: Seq<WitDecl>) -> Seq<Seq<char>> {
    decls.map_values(|d: WitDecl| d.kebab_name@)
}

/// The names of enums.
pub open spec fn enum_names(enums: Seq<WitEnum>) -> Seq<Seq<char>> {
    enums.map_values(|e: WitEnum| e.kebab_name@)
}

/// Puts the names of declared types behind `out`.
pub fn push_decl_names(out: &mut Vec<String>, decls: &Vec<WitDecl>)
    ensures
        text::strs(final(out)@) == text::strs(old(out)@) + decl_names(decls@),
{
    let ghost start = text::strs(out@);
    let ghost names = decl_names(decls@);
    let mut k: usize = 0;
    assert(start =~= start + names.take(0));
    while k < decls.len()
        invariant
            k <= decls@.len(),
            names == decl_names(decls@),
            text::strs(out@) == start + names.take(k as int),
        decreases decls.len() - k,
    {
        let ghost was = text::strs(out@);
        out.push(decls[k].kebab_name.clone());
        proof {
            assert(text::strs(out@) =~= was.push(names[k as int]));
            assert(start + names.take(k + 1) =~= (start + names.take(k as int)).push(
                names[k as int],
            ));
        }
        k = k + 1;
    }
    assert(names.take(k as int) =~= names);
}

/// Puts the names of enums behind `out`.
pub fn push_enum_names(out: &mut Vec<String>, enums: &Vec<WitEnum>)
    ensures
        text::strs(final(out)@) == text::strs(old(out)@) + enum_names(enums@),
{
    let ghost start = text::strs(out@);
    let ghost names = enum_names(enums@);
    let mut k: usize = 0;
    assert(start =~= start + names.take(0));
    while k < enums.len()
        invariant
            k <= enums@.len(),
            names == enum_names(enums@),
            text::strs(out@) == start + names.take(k as int),
        decreases enums.len() - k,
    {
        let ghost was = text::strs(out@);
        out.push(enums[k].kebab_name.clone());
        proof {
            assert(text::strs(out@) =~= was.push(names[k as int]));
            assert(start + names.take(k + 1) =~= (start + names.take(k as int)).push(
                names[k as int],
            ));
        }
        k = k + 1;
    }
    assert(names.take(k as int) =~= names);
}

/// Whether a type of this name is declared.
pub fn declares(decls: &Vec<WitDecl>, name: &str) -> (r: bool)
    ensures
        r == decl_names(decls@).contains(name@),
{
    let mut k: usize = 0;
    while k < decls.len()
        invariant
            k <= decls@.len(),
            forall|j: int| 0 <= j < k ==> #[trigger] decl_names(decls@)[j] != name@,
        decreases decls.len() - k,
    {
        if same(decls[k].kebab_name.as_str(), name) {
            assert(decl_names(decls@)[k as int] == name@);
            return true;
        }
        k = k + 1;
    }
    false
}

// ─── The primary package ───

/// The position of the first package, at `k` or later, that belongs to `primary`, or their
/// number.
pub open spec fn primary_from(pkgs: Seq<WitPackage>, primary: Seq<char>, k: int) -> int
    decreases pkgs.len() - k,
{
    if k >= pkgs.len() || words::belongs(pkgs[k].ns_name@, primary) {
        k
    } else {
        primary_from(pkgs, primary, k + 1)
    }
}

/// Finds the first package that belongs to `primary`.
pub fn find_primary(pkgs: &Vec<WitPackage>, primary: &str) -> (r: usize)
    ensures
        r <= pkgs@.len(),
        r == primary_from(pkgs@, primary@, 0),
{
    let mut k: usize = 0;
    while k < pkgs.len() && !words::package_belongs_to_primary(pkgs[k].ns_name.as_str(), primary)
        invariant
            k <= pkgs@.len(),
            primary_from(pkgs@, primary@, 0) == primary_from(pkgs@, primary@, k as int),
        decreases pkgs.len() - k,
    {
        k = k + 1;
    }
    k
}

/// Whether the primary package declares a resource and an error variant of these names.
pub open spec fn primary_has(
    pkgs: Seq<WitPackage>,
    primary: Seq<char>,
    resource: Seq<char>,
    error: Seq<char>,
) -> bool {
    let k = primary_from(pkgs, primary, 0);
    k < pkgs.len() && decl_names(pkgs[k].resources@).contains(resource) && decl_names(
        pkgs[k].variants@,
    ).contains(error)
}

/// Whether the primary package declares a resource and an error variant of these names.
pub fn has_resource(pkgs: &Vec<WitPackage>, primary: &str, resource: &str, error: &str) -> (r: bool)
    ensures
        r == primary_has(pkgs@, primary@, resource@, error@),
        r ==> primary_from(pkgs@, primary@, 0) < pkgs@.len(),
{
    let k = find_primary(pkgs, primary);
    k < pkgs.len() && declares(&pkgs[k].resources, resource) && declares(&pkgs[k].variants, error)
}

/// The name of the primary package.
pub open spec fn primary_package(pkgs: Seq<WitPackage>, primary: Seq<char>) -> Seq<char> {
    pkgs[primary_from(pkgs, primary, 0)].ns_name@
}

/// The module of a package's namespace.
pub open spec fn ns_module(pkg: Seq<char>) -> Seq<char> {
    words::snake(words::namespace_of(pkg))
}

/// The module of a package's name.
pub open spec fn name_module(pkg: Seq<char>) -> Seq<char> {
    words::snake(words::name_of(pkg))
}

/// The modules of a package's namespace and name.
pub fn package_modules(pkg: &str) -> (r: (String, String))
    ensures
        r.0@ == ns_module(pkg@),
        r.1@ == name_module(pkg@),
{
    let (ns, name) = words::split_pkg(pkg);
    (words::to_snake(ns.as_str()), words::to_snake(name.as_str()))
}

// ─── Tables of names ───

/// The pairs of texts that a vector of pairs of strings holds.
pub open spec fn pairs(v: Seq<(String, String)>) -> Seq<(Seq<char>, Seq<char>)> {
    v.map_values(|p: (String, String)| (p.0@, p.1@))
}

/// The first texts of the pairs.
pub open spec fn keys(v: Seq<(Seq<char>, Seq<char>)>) -> Seq<Seq<char>> {
    v.map_values(|p: (Seq<char>, Seq<char>)| p.0)
}

/// The second text of the first pair, at `k` or later, whose first text is `key`.
pub open spec fn find_from(v: Seq<(Seq<char>, Seq<char>)>, key: Seq<char>, k: int) -> Option<
    Seq<char>,
>
    decreases v.len() - k,
{
    if k >= v.len() {
        None
    } else if v[k].0 == key {
        Some(v[k].1)
    } else {
        find_from(v, key, k + 1)
    }
}

/// The second text of the first pair whose first text is `key`.
pub fn find_in<'a>(v: &'a Vec<(String, String)>, key: &str) -> (r: Option<&'a str>)
    ensures
        match r {
            Some(s) => find_from(pairs(v@), key@, 0) == Some(s@),
            None => find_from(pairs(v@), key@, 0) is None,
        },
{
    let ghost all = pairs(v@);
    let mut k: usize = 0;
    while k < v.len()
        invariant
            k <= v@.len(),
            all == pairs(v@),
            find_from(all, key@, 0) == find_from(all, key@, k as int),
        decreases v.len() - k,
    {
        if same(v[k].0.as_str(), key) {
            return Some(v[k].1.as_str());
        }
        k = k + 1;
    }
    None
}

/// Lists the first texts of pairs.
pub fn list_keys(v: &Vec<(String, String)>) -> (r: Vec<String>)
    ensures
        text::strs(r@) == keys(pairs(v@)),
{
    let mut r: Vec<String> = Vec::new();
    let mut k: usize = 0;
    while k < v.len()
        invariant
            k <= v@.len(),
            r@.len() == k,
            forall|j: int| 0 <= j < k ==> #[trigger] r@[j]@ == v@[j].0@,
        decreases v.len() - k,
    {
        r.push(v[k].0.clone());
        k = k + 1;
    }
    assert(text::strs(r@) =~= keys(pairs(v@)));
    r
}

/// Puts a pair behind `out`.
pub fn push_pair(out: &mut Vec<(String, String)>, key: &str, value: &str)
    ensures
        pairs(final(out)@) == pairs(old(out)@).push((key@, value@)),
{
    let ghost was = pairs(out@);
    out.push((key.to_owned(), value.to_owned()));
    assert(pairs(out@) =~= was.push((key@, value@)));
}

/// What is found under a key is the second text of some pair with that key; nothing is found
/// only where no pair has the key.
pub proof fn law_find_from(v: Seq<(Seq<char>, Seq<char>)>, key: Seq<char>, k: int)
    requires
        0 <= k <= v.len(),
    ensures
        match find_from(v, key, k) {
            Some(s) => exists|j: int|
                k <= j < v.len() && #[trigger] v[j] == (key, s) && forall|i: int|
                    k <= i < j ==> (#[trigger] v[i]).0 != key,
            None => forall|j: int| k <= j < v.len() ==> (#[trigger] v[j]).0 != key,
        },
    decreases v.len() - k,
{
    if k < v.len() {
        if v[k].0 == key {
            assert(v[k] == (key, v[k].1));
        } else {
            law_find_from(v, key, k + 1);
            if let Some(s) = find_from(v, key, k + 1) {
                let j = choose|j: int|
                    k + 1 <= j < v.len() && #[trigger] v[j] == (key, s) && forall|i: int|
                        k + 1 <= i < j ==> (#[trigger] v[i]).0 != key;
                assert(v[j] == (key, s));
            }
        }
    }
}

} // verus!
