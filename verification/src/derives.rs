//! The types that get no serde derives. A derive is switched off by name for all types of a
//! bridge that bear the name.

use vstd::prelude::*;
use vstd::string::*;

use crate::gather;
use crate::ir::{WitDecl, WitPackage};
use crate::order;
use crate::packages::{self, push_decl_names, push_enum_names};
use crate::text;
use crate::words::{self, package_belongs_to_primary};

verus! {

/// The names of the records of the first `n` packages, in those that belong to `primary`.
pub open spec fn primary_records(pkgs: Seq<WitPackage>, primary: Seq<char>, n: nat) -> Seq<Seq<char>>
    decreases n,
{
    if n == 0 {
        Seq::empty()
    } else if words::belongs(pkgs[n - 1].ns_name@, primary) {
        primary_records(pkgs, primary, (n - 1) as nat) + packages::decl_names(pkgs[n - 1].records@)
    } else {
        primary_records(pkgs, primary, (n - 1) as nat)
    }
}

/// Lists the names of the records of the packages that belong to `primary`.
pub fn list_primary_records(pkgs: &Vec<WitPackage>, primary: &str) -> (r: Vec<String>)
    ensures
        text::strs(r@) == primary_records(pkgs@, primary@, pkgs@.len()),
{
    let mut r: Vec<String> = Vec::new();
    let mut k: usize = 0;
    assert(text::strs(r@) =~= Seq::<Seq<char>>::empty());
    while k < pkgs.len()
        invariant
            k <= pkgs@.len(),
            text::strs(r@) == primary_records(pkgs@, primary@, k as nat),
        decreases pkgs.len() - k,
    {
        if package_belongs_to_primary(pkgs[k].ns_name.as_str(), primary) {
            push_decl_names(&mut r, &pkgs[k].records);
        }
        k = k + 1;
    }
    r
}

/// `base` followed by those of the first `n` names that are not in `kept`.
pub open spec fn with_others(
    base: Seq<Seq<char>>,
    decls: Seq<WitDecl>,
    kept: Seq<Seq<char>>,
    n: nat,
) -> Seq<Seq<char>>
    decreases n,
{
    if n == 0 {
        base
    } else {
        let head = with_others(base, decls, kept, (n - 1) as nat);
        if kept.contains(decls[n - 1].kebab_name@) {
            head
        } else {
            head.push(decls[n - 1].kebab_name@)
        }
    }
}

fn push_others(out: &mut Vec<String>, decls: &Vec<WitDecl>, kept: &Vec<String>)
    ensures
        text::strs(final(out)@) == with_others(
            text::strs(old(out)@),
            decls@,
            text::strs(kept@),
            decls@.len(),
        ),
{
    let ghost base = text::strs(out@);
    let mut k: usize = 0;
    while k < decls.len()
        invariant
            k <= decls@.len(),
            text::strs(out@) == with_others(base, decls@, text::strs(kept@), k as nat),
        decreases decls.len() - k,
    {
        if !words::has(kept, decls[k].kebab_name.as_str()) {
            gather::push_text(out, decls[k].kebab_name.as_str());
        }
        k = k + 1;
    }
}

/// `base` followed by the names of a package's types that get no serde derives: of the primary
/// package variants and flags, of another all of them. A derive is switched off by name, so a
/// record that has the name of a primary one keeps it.
pub open spec fn with_ignored(
    base: Seq<Seq<char>>,
    pkg: WitPackage,
    primary: bool,
    kept: Seq<Seq<char>>,
) -> Seq<Seq<char>> {
    if primary {
        base + packages::decl_names(pkg.variants@) + packages::decl_names(pkg.flags@)
    } else {
        with_others(base, pkg.records@, kept, pkg.records@.len()) + packages::decl_names(
            pkg.variants@,
        ) + packages::enum_names(pkg.enums@) + packages::decl_names(pkg.flags@)
    }
}

fn push_ignored(out: &mut Vec<String>, pkg: &WitPackage, primary: bool, kept: &Vec<String>)
    ensures
        text::strs(final(out)@) == with_ignored(
            text::strs(old(out)@),
            *pkg,
            primary,
            text::strs(kept@),
        ),
{
    if !primary {
        push_others(out, &pkg.records, kept);
    }
    push_decl_names(out, &pkg.variants);
    if !primary {
        push_enum_names(out, &pkg.enums);
    }
    push_decl_names(out, &pkg.flags);
}

/// The names of the types of the contract and of the first `n` packages that get no serde
/// derives. No type of the contract gets them.
pub open spec fn ignored_prefix(
    contract: WitPackage,
    pkgs: Seq<WitPackage>,
    primary: Seq<char>,
    n: nat,
) -> Seq<Seq<char>>
    decreases n,
{
    if n == 0 {
        with_ignored(Seq::empty(), contract, false, Seq::empty())
    } else {
        with_ignored(
            ignored_prefix(contract, pkgs, primary, (n - 1) as nat),
            pkgs[n - 1],
            words::belongs(pkgs[n - 1].ns_name@, primary),
            primary_records(pkgs, primary, pkgs.len()),
        )
    }
}

/// The names of the types that get no serde derives, in order.
pub open spec fn ignored(contract: WitPackage, pkgs: Seq<WitPackage>, primary: Seq<char>) -> Seq<
    Seq<char>,
> {
    order::sorted_set(ignored_prefix(contract, pkgs, primary, pkgs.len()))
}

/// Lists the names of the types that get no serde derives, in order.
pub fn list_ignored(contract: &WitPackage, pkgs: &Vec<WitPackage>, primary: &str) -> (r: Vec<String>)
    ensures
        text::strs(r@) == ignored(*contract, pkgs@, primary@),
{
    let kept = list_primary_records(pkgs, primary);
    let none: Vec<String> = Vec::new();
    let mut names: Vec<String> = Vec::new();
    proof {
        assert(text::strs(names@) =~= Seq::<Seq<char>>::empty());
        assert(text::strs(none@) =~= Seq::<Seq<char>>::empty());
    }
    push_ignored(&mut names, contract, false, &none);
    let mut k: usize = 0;
    while k < pkgs.len()
        invariant
            k <= pkgs@.len(),
            text::strs(kept@) == primary_records(pkgs@, primary@, pkgs@.len()),
            text::strs(names@) == ignored_prefix(*contract, pkgs@, primary@, k as nat),
        decreases pkgs.len() - k,
    {
        let pkg = &pkgs[k];
        let own = package_belongs_to_primary(pkg.ns_name.as_str(), primary);
        push_ignored(&mut names, pkg, own, &kept);
        k = k + 1;
    }
    order::sorted(&names)
}

// ─── Laws ───

/// Whether a variant, an enum or a flags type of the package bears the name.
pub open spec fn declares_without_fields(pkg: WitPackage, name: Seq<char>) -> bool {
    packages::decl_names(pkg.variants@).contains(name) || packages::enum_names(
        pkg.enums@,
    ).contains(name) || packages::decl_names(pkg.flags@).contains(name)
}

/// Whether a type of the package bears the name.
pub open spec fn declares_type(pkg: WitPackage, name: Seq<char>) -> bool {
    packages::decl_names(pkg.records@).contains(name) || declares_without_fields(pkg, name)
}

/// A primary record gets its derives, unless a type of the contract bears its name, or a
/// variant, an enum or a flags type of some package does.
pub proof fn law_primary_records_derive(
    contract: WitPackage,
    pkgs: Seq<WitPackage>,
    primary: Seq<char>,
    name: Seq<char>,
)
    requires
        primary_records(pkgs, primary, pkgs.len()).contains(name),
        !declares_type(contract, name),
        forall|k: int| 0 <= k < pkgs.len() ==> !declares_without_fields(#[trigger] pkgs[k], name),
    ensures
        !ignored(contract, pkgs, primary).contains(name),
{
    lemma_kept_off(contract, pkgs, primary, name, pkgs.len());
    order::law_sorted_set(ignored_prefix(contract, pkgs, primary, pkgs.len()));
}

proof fn lemma_kept_off(
    contract: WitPackage,
    pkgs: Seq<WitPackage>,
    primary: Seq<char>,
    name: Seq<char>,
    n: nat,
)
    requires
        n <= pkgs.len(),
        primary_records(pkgs, primary, pkgs.len()).contains(name),
        !declares_type(contract, name),
        forall|k: int| 0 <= k < pkgs.len() ==> !declares_without_fields(#[trigger] pkgs[k], name),
    ensures
        !ignored_prefix(contract, pkgs, primary, n).contains(name),
    decreases n,
{
    let kept = primary_records(pkgs, primary, pkgs.len());
    if n == 0 {
        lemma_others(
            Seq::empty(),
            contract.records@,
            Seq::empty(),
            name,
            contract.records@.len(),
        );
        lemma_added(Seq::empty(), contract, false, Seq::empty(), name);
    } else {
        let pkg = pkgs[n - 1];
        let before = ignored_prefix(contract, pkgs, primary, (n - 1) as nat);
        lemma_kept_off(contract, pkgs, primary, name, (n - 1) as nat);
        assert(!declares_without_fields(pkg, name));
        lemma_others(before, pkg.records@, kept, name, pkg.records@.len());
        lemma_added(before, pkg, words::belongs(pkg.ns_name@, primary), kept, name);
    }
}

proof fn lemma_added(
    base: Seq<Seq<char>>,
    pkg: WitPackage,
    primary: bool,
    kept: Seq<Seq<char>>,
    name: Seq<char>,
)
    requires
        !base.contains(name),
        !declares_without_fields(pkg, name),
        !with_others(base, pkg.records@, kept, pkg.records@.len()).contains(name),
    ensures
        !with_ignored(base, pkg, primary, kept).contains(name),
{
    let variants = packages::decl_names(pkg.variants@);
    let enums = packages::enum_names(pkg.enums@);
    let flags = packages::decl_names(pkg.flags@);
    let others = with_others(base, pkg.records@, kept, pkg.records@.len());
    lemma_joined(base, variants, name);
    lemma_joined(base + variants, flags, name);
    lemma_joined(others, variants, name);
    lemma_joined(others + variants, enums, name);
    lemma_joined(others + variants + enums, flags, name);
}

proof fn lemma_joined(a: Seq<Seq<char>>, b: Seq<Seq<char>>, name: Seq<char>)
    requires
        !a.contains(name),
        !b.contains(name),
    ensures
        !(a + b).contains(name),
{
    let all = a + b;
    assert forall|k: int| 0 <= k < all.len() implies #[trigger] all[k] != name by {
        if k < a.len() {
            assert(a.contains(a[k]));
        } else {
            assert(b.contains(b[k - a.len()]));
        }
    }
}

proof fn lemma_others(
    base: Seq<Seq<char>>,
    decls: Seq<WitDecl>,
    kept: Seq<Seq<char>>,
    name: Seq<char>,
    n: nat,
)
    requires
        n <= decls.len(),
        !base.contains(name),
        kept.contains(name) || !packages::decl_names(decls).contains(name),
    ensures
        !with_others(base, decls, kept, n).contains(name),
    decreases n,
{
    if n > 0 {
        lemma_others(base, decls, kept, name, (n - 1) as nat);
        let head = with_others(base, decls, kept, (n - 1) as nat);
        let last = decls[n - 1].kebab_name@;
        if !kept.contains(last) {
            if last == name {
                assert(packages::decl_names(decls)[n - 1] == last);
                assert(packages::decl_names(decls).contains(name));
            }
            assert forall|k: int| 0 <= k < head.len() + 1 implies #[trigger] head.push(last)[k]
                != name by {
                if k < head.len() {
                    assert(head.contains(head[k]));
                }
            }
        }
    }
}

} // verus!
