//! Where the types are declared that records refer to, and what follows from it: which records
//! can be encoded, and which types a copy of the records has to name by `use`.

use vstd::prelude::*;
use vstd::string::*;

use crate::ir::{RecordType, WitDecl, WitEnum, WitPackage, WitTypeAlias};
use crate::order;
use crate::packages;
use crate::sqlite::type_text::{self, collect_type_idents, inline_aliases};
use crate::text::{self, fill4, same};
use crate::words::{self, package_belongs_to_primary};

verus! {

// ─── Declarations ───

/// What a declaration declares.
#[derive(Clone, Copy, PartialEq, Eq, Structural)]
pub enum TypeKind {
    Resource,
    Variant,
    Flags,
    Record,
    Enum,
    Alias,
}

/// The declaration of a type.
pub struct TypeSource {
    pub kebab_name: String,
    pub ns_name: String,
    pub version: String,
    pub interface: String,
    pub kind: TypeKind,
}

/// The declaration of a type: its name, the package and version, the interface, and what it
/// declares.
pub struct Source {
    pub name: Seq<char>,
    pub ns: Seq<char>,
    pub version: Seq<char>,
    pub interface: Seq<char>,
    pub kind: TypeKind,
}

impl View for TypeSource {
    type V = Source;

    open spec fn view(&self) -> Source {
        Source {
            name: self.kebab_name@,
            ns: self.ns_name@,
            version: self.version@,
            interface: self.interface@,
            kind: self.kind,
        }
    }
}

/// The declarations that a vector holds.
pub open spec fn sources(v: Seq<TypeSource>) -> Seq<Source> {
    v.map_values(|s: TypeSource| s@)
}

/// A declaration in an interface of a package.
pub open spec fn declared(
    pkg: WitPackage,
    interface: Seq<char>,
    name: Seq<char>,
    kind: TypeKind,
) -> Source {
    Source { name, ns: pkg.ns_name@, version: pkg.version@, interface, kind }
}

/// The declarations of types of one kind.
pub open spec fn decl_sources(pkg: WitPackage, decls: Seq<WitDecl>, kind: TypeKind) -> Seq<Source> {
    decls.map_values(|d: WitDecl| declared(pkg, d.interface@, d.kebab_name@, kind))
}

/// The declarations of enums.
pub open spec fn enum_sources(pkg: WitPackage, enums: Seq<WitEnum>) -> Seq<Source> {
    enums.map_values(|e: WitEnum| declared(pkg, e.interface@, e.kebab_name@, TypeKind::Enum))
}

/// The declarations of aliases.
pub open spec fn alias_sources(pkg: WitPackage, aliases: Seq<WitTypeAlias>) -> Seq<Source> {
    aliases.map_values(
        |a: WitTypeAlias| declared(pkg, a.interface@, a.kebab_name@, TypeKind::Alias),
    )
}

/// All declarations of a package.
pub open spec fn package_sources(pkg: WitPackage) -> Seq<Source> {
    decl_sources(pkg, pkg.resources@, TypeKind::Resource) + decl_sources(
        pkg,
        pkg.variants@,
        TypeKind::Variant,
    ) + decl_sources(pkg, pkg.flags@, TypeKind::Flags) + decl_sources(
        pkg,
        pkg.records@,
        TypeKind::Record,
    ) + enum_sources(pkg, pkg.enums@) + alias_sources(pkg, pkg.type_aliases@)
}

/// All declarations of the first `n` packages.
pub open spec fn sources_prefix(pkgs: Seq<WitPackage>, n: nat) -> Seq<Source>
    decreases n,
{
    if n == 0 {
        Seq::empty()
    } else {
        sources_prefix(pkgs, (n - 1) as nat) + package_sources(pkgs[n - 1])
    }
}

fn source_of(pkg: &WitPackage, interface: &str, name: &str, kind: TypeKind) -> (r: TypeSource)
    ensures
        r@ == declared(*pkg, interface@, name@, kind),
{
    TypeSource {
        kebab_name: name.to_owned(),
        ns_name: pkg.ns_name.clone(),
        version: pkg.version.clone(),
        interface: interface.to_owned(),
        kind,
    }
}

fn push_decls(out: &mut Vec<TypeSource>, pkg: &WitPackage, decls: &Vec<WitDecl>, kind: TypeKind)
    ensures
        sources(final(out)@) == sources(old(out)@) + decl_sources(*pkg, decls@, kind),
{
    let ghost start = sources(out@);
    let ghost new = decl_sources(*pkg, decls@, kind);
    let mut k: usize = 0;
    assert(start =~= start + new.take(0));
    while k < decls.len()
        invariant
            k <= decls@.len(),
            new == decl_sources(*pkg, decls@, kind),
            sources(out@) == start + new.take(k as int),
        decreases decls.len() - k,
    {
        let ghost was = sources(out@);
        let s = source_of(pkg, decls[k].interface.as_str(), decls[k].kebab_name.as_str(), kind);
        out.push(s);
        proof {
            assert(sources(out@) =~= was.push(new[k as int]));
            assert(start + new.take(k + 1) =~= (start + new.take(k as int)).push(new[k as int]));
        }
        k = k + 1;
    }
    assert(new.take(k as int) =~= new);
}

fn push_enums(out: &mut Vec<TypeSource>, pkg: &WitPackage, enums: &Vec<WitEnum>)
    ensures
        sources(final(out)@) == sources(old(out)@) + enum_sources(*pkg, enums@),
{
    let ghost start = sources(out@);
    let ghost new = enum_sources(*pkg, enums@);
    let mut k: usize = 0;
    assert(start =~= start + new.take(0));
    while k < enums.len()
        invariant
            k <= enums@.len(),
            new == enum_sources(*pkg, enums@),
            sources(out@) == start + new.take(k as int),
        decreases enums.len() - k,
    {
        let ghost was = sources(out@);
        let s = source_of(
            pkg,
            enums[k].interface.as_str(),
            enums[k].kebab_name.as_str(),
            TypeKind::Enum,
        );
        out.push(s);
        proof {
            assert(sources(out@) =~= was.push(new[k as int]));
            assert(start + new.take(k + 1) =~= (start + new.take(k as int)).push(new[k as int]));
        }
        k = k + 1;
    }
    assert(new.take(k as int) =~= new);
}

fn push_aliases(out: &mut Vec<TypeSource>, pkg: &WitPackage, aliases: &Vec<WitTypeAlias>)
    ensures
        sources(final(out)@) == sources(old(out)@) + alias_sources(*pkg, aliases@),
{
    let ghost start = sources(out@);
    let ghost new = alias_sources(*pkg, aliases@);
    let mut k: usize = 0;
    assert(start =~= start + new.take(0));
    while k < aliases.len()
        invariant
            k <= aliases@.len(),
            new == alias_sources(*pkg, aliases@),
            sources(out@) == start + new.take(k as int),
        decreases aliases.len() - k,
    {
        let ghost was = sources(out@);
        let s = source_of(
            pkg,
            aliases[k].interface.as_str(),
            aliases[k].kebab_name.as_str(),
            TypeKind::Alias,
        );
        out.push(s);
        proof {
            assert(sources(out@) =~= was.push(new[k as int]));
            assert(start + new.take(k + 1) =~= (start + new.take(k as int)).push(new[k as int]));
        }
        k = k + 1;
    }
    assert(new.take(k as int) =~= new);
}

/// Lists the declarations of all packages. Of two of one name the first counts.
pub fn build_type_source_map(shim_packages: &Vec<WitPackage>) -> (r: Vec<TypeSource>)
    ensures
        sources(r@) == sources_prefix(shim_packages@, shim_packages@.len()),
{
    let mut r: Vec<TypeSource> = Vec::new();
    let mut k: usize = 0;
    assert(sources(r@) =~= sources_prefix(shim_packages@, 0));
    while k < shim_packages.len()
        invariant
            k <= shim_packages@.len(),
            sources(r@) == sources_prefix(shim_packages@, k as nat),
        decreases shim_packages.len() - k,
    {
        let ghost was = sources(r@);
        let pkg = &shim_packages[k];
        push_decls(&mut r, pkg, &pkg.resources, TypeKind::Resource);
        push_decls(&mut r, pkg, &pkg.variants, TypeKind::Variant);
        push_decls(&mut r, pkg, &pkg.flags, TypeKind::Flags);
        push_decls(&mut r, pkg, &pkg.records, TypeKind::Record);
        push_enums(&mut r, pkg, &pkg.enums);
        push_aliases(&mut r, pkg, &pkg.type_aliases);
        assert(sources(r@) =~= was + package_sources(*pkg));
        k = k + 1;
    }
    r
}

/// The first declaration of `name`, at `k` or later.
pub open spec fn source_from(v: Seq<Source>, name: Seq<char>, k: int) -> Option<Source>
    decreases v.len() - k,
{
    if k >= v.len() {
        None
    } else if v[k].name == name {
        Some(v[k])
    } else {
        source_from(v, name, k + 1)
    }
}

/// The first declaration of `name`.
pub fn find_source<'a>(v: &'a Vec<TypeSource>, name: &str) -> (r: Option<&'a TypeSource>)
    ensures
        match r {
            Some(s) => source_from(sources(v@), name@, 0) == Some(s@),
            None => source_from(sources(v@), name@, 0) is None,
        },
{
    let ghost all = sources(v@);
    let mut k: usize = 0;
    while k < v.len()
        invariant
            k <= v@.len(),
            all == sources(v@),
            source_from(all, name@, 0) == source_from(all, name@, k as int),
        decreases v.len() - k,
    {
        assert(all[k as int] == v@[k as int]@);
        if same(v[k].kebab_name.as_str(), name) {
            return Some(&v[k]);
        }
        k = k + 1;
    }
    None
}

/// What is found under a name is the first declaration of that name; nothing is found only where
/// none has it.
pub proof fn law_first_declaration(v: Seq<Source>, name: Seq<char>, k: int)
    requires
        0 <= k <= v.len(),
    ensures
        match source_from(v, name, k) {
            Some(s) => s.name == name && exists|j: int|
                k <= j < v.len() && #[trigger] v[j] == s && forall|i: int|
                    k <= i < j ==> (#[trigger] v[i]).name != name,
            None => forall|j: int| k <= j < v.len() ==> (#[trigger] v[j]).name != name,
        },
    decreases v.len() - k,
{
    if k < v.len() {
        if v[k].name == name {
            assert(v[k] == v[k]);
        } else {
            law_first_declaration(v, name, k + 1);
            if let Some(s) = source_from(v, name, k + 1) {
                let j = choose|j: int|
                    k + 1 <= j < v.len() && #[trigger] v[j] == s && forall|i: int|
                        k + 1 <= i < j ==> (#[trigger] v[i]).name != name;
                assert(v[j] == s);
            }
        }
    }
}

// ─── Aliases of the primary package ───

/// The aliases of a package from `k` on, the last first.
pub open spec fn latest_of(aliases: Seq<WitTypeAlias>, k: int) -> Seq<(Seq<char>, Seq<char>)>
    decreases aliases.len() - k,
{
    if k >= aliases.len() {
        Seq::empty()
    } else {
        latest_of(aliases, k + 1).push((aliases[k].kebab_name@, aliases[k].body@))
    }
}

/// The aliases of the packages from `k` on that belong to `primary`, the last first: of two of
/// one name the later counts.
pub open spec fn latest_aliases(pkgs: Seq<WitPackage>, primary: Seq<char>, k: int) -> Seq<
    (Seq<char>, Seq<char>),
>
    decreases pkgs.len() - k,
{
    if k >= pkgs.len() {
        Seq::empty()
    } else if words::belongs(pkgs[k].ns_name@, primary) {
        latest_aliases(pkgs, primary, k + 1) + latest_of(pkgs[k].type_aliases@, 0)
    } else {
        latest_aliases(pkgs, primary, k + 1)
    }
}

fn push_latest(out: &mut Vec<(String, String)>, aliases: &Vec<WitTypeAlias>)
    ensures
        packages::pairs(final(out)@) == packages::pairs(old(out)@) + latest_of(aliases@, 0),
{
    let ghost start = packages::pairs(out@);
    let mut k: usize = aliases.len();
    assert(start =~= start + latest_of(aliases@, k as int));
    while k > 0
        invariant
            k <= aliases@.len(),
            packages::pairs(out@) == start + latest_of(aliases@, k as int),
        decreases k,
    {
        k = k - 1;
        packages::push_pair(out, aliases[k].kebab_name.as_str(), aliases[k].body.as_str());
        proof {
            let tail = latest_of(aliases@, k + 1);
            let new = (aliases@[k as int].kebab_name@, aliases@[k as int].body@);
            assert((start + tail).push(new) =~= start + tail.push(new));
        }
    }
}

/// Lists the aliases of the packages that belong to `primary`, the last first.
pub fn primary_aliases(shim_packages: &Vec<WitPackage>, primary: &str) -> (r: Vec<
    (String, String),
>)
    ensures
        packages::pairs(r@) == latest_aliases(shim_packages@, primary@, 0),
{
    let mut r: Vec<(String, String)> = Vec::new();
    let mut k: usize = shim_packages.len();
    assert(packages::pairs(r@) =~= latest_aliases(shim_packages@, primary@, k as int));
    while k > 0
        invariant
            k <= shim_packages@.len(),
            packages::pairs(r@) == latest_aliases(shim_packages@, primary@, k as int),
        decreases k,
    {
        k = k - 1;
        if package_belongs_to_primary(shim_packages[k].ns_name.as_str(), primary) {
            push_latest(&mut r, &shim_packages[k].type_aliases);
        }
    }
    r
}

// ─── Types that records refer to ───

/// The names of records.
pub open spec fn record_names(records: Seq<RecordType>) -> Seq<Seq<char>> {
    records.map_values(|r: RecordType| r.kebab_name@)
}

/// Lists the names of records.
pub fn list_record_names(records: &Vec<RecordType>) -> (r: Vec<String>)
    ensures
        r@.len() == records@.len(),
        text::strs(r@) == record_names(records@),
{
    let mut r: Vec<String> = Vec::new();
    let mut k: usize = 0;
    while k < records.len()
        invariant
            k <= records@.len(),
            r@.len() == k,
            forall|j: int| 0 <= j < k ==> #[trigger] r@[j]@ == records@[j].kebab_name@,
        decreases records.len() - k,
    {
        r.push(records[k].kebab_name.clone());
        k = k + 1;
    }
    assert(text::strs(r@) =~= record_names(records@));
    r
}

/// The foreign types that the first `n` fields refer to, aliases replaced.
pub open spec fn field_idents(
    fields: Seq<(String, String)>,
    aliases: Seq<(Seq<char>, Seq<char>)>,
    local: Seq<Seq<char>>,
    n: nat,
) -> Seq<Seq<char>>
    decreases n,
{
    if n == 0 {
        Seq::empty()
    } else {
        field_idents(fields, aliases, local, (n - 1) as nat) + type_text::type_idents(
            type_text::inlined(fields[n - 1].1@, aliases),
            local,
        )
    }
}

/// The foreign types that a record refers to, aliases replaced.
pub open spec fn record_idents(
    r: RecordType,
    aliases: Seq<(Seq<char>, Seq<char>)>,
    local: Seq<Seq<char>>,
) -> Seq<Seq<char>> {
    field_idents(r.fields@, aliases, local, r.fields@.len())
}

/// The foreign types that the first `n` records refer to, aliases replaced.
pub open spec fn records_idents(
    records: Seq<RecordType>,
    aliases: Seq<(Seq<char>, Seq<char>)>,
    local: Seq<Seq<char>>,
    n: nat,
) -> Seq<Seq<char>>
    decreases n,
{
    if n == 0 {
        Seq::empty()
    } else {
        records_idents(records, aliases, local, (n - 1) as nat) + record_idents(
            records[n - 1],
            aliases,
            local,
        )
    }
}

fn collect_record_idents(
    record: &RecordType,
    alias_map: &Vec<(String, String)>,
    local: &Vec<String>,
    out: &mut Vec<String>,
)
    ensures
        text::strs(final(out)@) == text::strs(old(out)@) + record_idents(
            *record,
            packages::pairs(alias_map@),
            text::strs(local@),
        ),
{
    let ghost start = text::strs(out@);
    let ghost aliases = packages::pairs(alias_map@);
    let ghost names = text::strs(local@);
    let mut k: usize = 0;
    assert(start =~= start + field_idents(record.fields@, aliases, names, 0));
    while k < record.fields.len()
        invariant
            k <= record.fields@.len(),
            aliases == packages::pairs(alias_map@),
            names == text::strs(local@),
            text::strs(out@) == start + field_idents(record.fields@, aliases, names, k as nat),
        decreases record.fields.len() - k,
    {
        let plain = inline_aliases(record.fields[k].1.as_str(), alias_map);
        collect_type_idents(plain.as_str(), local, out);
        proof {
            let head = field_idents(record.fields@, aliases, names, k as nat);
            let new = type_text::type_idents(plain@, names);
            assert((start + head) + new =~= start + (head + new));
        }
        k = k + 1;
    }
}

/// The foreign types that records refer to, in order and each once. The records themselves are
/// not foreign.
pub open spec fn referenced(
    records: Seq<RecordType>,
    aliases: Seq<(Seq<char>, Seq<char>)>,
) -> Seq<Seq<char>> {
    order::sorted_set(records_idents(records, aliases, record_names(records), records.len()))
}

/// Lists the foreign types that records refer to.
pub fn list_referenced(records: &Vec<RecordType>, alias_map: &Vec<(String, String)>) -> (r: Vec<
    String,
>)
    ensures
        text::strs(r@) == referenced(records@, packages::pairs(alias_map@)),
{
    let ghost aliases = packages::pairs(alias_map@);
    let local = list_record_names(records);
    let mut all: Vec<String> = Vec::new();
    let mut k: usize = 0;
    assert(text::strs(all@) =~= records_idents(records@, aliases, text::strs(local@), 0));
    while k < records.len()
        invariant
            k <= records@.len(),
            aliases == packages::pairs(alias_map@),
            text::strs(all@) == records_idents(records@, aliases, text::strs(local@), k as nat),
        decreases records.len() - k,
    {
        collect_record_idents(&records[k], alias_map, &local, &mut all);
        k = k + 1;
    }
    order::sorted(&all)
}

// ─── Records that can be encoded ───

/// Whether one of the names is declared as a resource.
pub open spec fn names_resource(ids: Seq<Seq<char>>, all: Seq<Source>) -> bool {
    exists|k: int|
        0 <= k < ids.len() && (source_from(all, #[trigger] ids[k], 0) matches Some(s) && s.kind
            is Resource)
}

/// Whether a field of a record refers to a resource, aliases replaced.
pub open spec fn has_resource_field(
    r: RecordType,
    aliases: Seq<(Seq<char>, Seq<char>)>,
    all: Seq<Source>,
) -> bool {
    names_resource(record_idents(r, aliases, Seq::empty()), all)
}

/// Whether a field of a record refers to a resource. There is no way to encode a handle of one.
pub fn record_has_resource_field(
    record: &RecordType,
    alias_map: &Vec<(String, String)>,
    type_source_map: &Vec<TypeSource>,
) -> (r: bool)
    ensures
        r == has_resource_field(*record, packages::pairs(alias_map@), sources(type_source_map@)),
{
    let ghost all = sources(type_source_map@);
    let mut ids: Vec<String> = Vec::new();
    let none: Vec<String> = Vec::new();
    collect_record_idents(record, alias_map, &none, &mut ids);
    let ghost wanted = record_idents(*record, packages::pairs(alias_map@), Seq::empty());
    proof {
        assert(text::strs(none@) =~= Seq::<Seq<char>>::empty());
        assert(text::strs(ids@) =~= wanted);
    }
    let mut k: usize = 0;
    while k < ids.len()
        invariant
            k <= ids@.len(),
            all == sources(type_source_map@),
            wanted == record_idents(*record, packages::pairs(alias_map@), Seq::empty()),
            text::strs(ids@) == wanted,
            forall|j: int|
                0 <= j < k ==> !(source_from(all, #[trigger] wanted[j], 0) matches Some(s)
                    && s.kind is Resource),
        decreases ids.len() - k,
    {
        assert(wanted[k as int] == ids@[k as int]@);
        if let Some(s) = find_source(type_source_map, ids[k].as_str()) {
            if s.kind == TypeKind::Resource {
                assert(source_from(all, wanted[k as int], 0) matches Some(s) && s.kind is Resource);
                return true;
            }
        }
        k = k + 1;
    }
    false
}

/// Those of the first `n` records of which no field refers to a resource.
pub open spec fn encodable(
    records: Seq<RecordType>,
    aliases: Seq<(Seq<char>, Seq<char>)>,
    all: Seq<Source>,
    n: nat,
) -> Seq<RecordType>
    decreases n,
{
    if n == 0 {
        Seq::empty()
    } else {
        let head = encodable(records, aliases, all, (n - 1) as nat);
        if has_resource_field(records[n - 1], aliases, all) {
            head
        } else {
            head.push(records[n - 1])
        }
    }
}

/// Keeps the records of which no field refers to a resource.
pub fn filter_serde_ops_records(
    records: Vec<RecordType>,
    shim_packages: &Vec<WitPackage>,
    primary: &str,
) -> (r: Vec<RecordType>)
    ensures
        r@ == encodable(
            records@,
            latest_aliases(shim_packages@, primary@, 0),
            sources_prefix(shim_packages@, shim_packages@.len()),
            records@.len(),
        ),
{
    let type_source_map = build_type_source_map(shim_packages);
    let alias_map = primary_aliases(shim_packages, primary);
    let ghost given = records@;
    let ghost aliases = packages::pairs(alias_map@);
    let ghost all = sources(type_source_map@);
    let ghost mut n: nat = 0;
    let mut rest = records;
    let mut r: Vec<RecordType> = Vec::new();
    assert(rest@ =~= given.skip(0));
    while rest.len() > 0
        invariant
            n <= given.len(),
            rest@ == given.skip(n as int),
            aliases == packages::pairs(alias_map@),
            all == sources(type_source_map@),
            r@ == encodable(given, aliases, all, n),
        decreases rest.len(),
    {
        let record = rest.remove(0);
        proof {
            assert(record == given[n as int]);
            assert(rest@ =~= given.skip((n + 1) as int));
        }
        if !record_has_resource_field(&record, &alias_map, &type_source_map) {
            r.push(record);
        }
        proof {
            n = n + 1;
        }
    }
    r
}

/// Exactly the records without a field that refers to a resource are kept.
pub proof fn law_encodable(
    records: Seq<RecordType>,
    aliases: Seq<(Seq<char>, Seq<char>)>,
    all: Seq<Source>,
    x: RecordType,
)
    ensures
        encodable(records, aliases, all, records.len()).contains(x) <==> records.contains(x)
            && !has_resource_field(x, aliases, all),
{
    lemma_encodable(records, aliases, all, records.len(), x);
    if records.contains(x) {
        let k = choose|k: int| 0 <= k < records.len() && records[k] == x;
        assert(0 <= k < records.len() && records[k] == x);
    }
}

proof fn lemma_encodable(
    records: Seq<RecordType>,
    aliases: Seq<(Seq<char>, Seq<char>)>,
    all: Seq<Source>,
    n: nat,
    x: RecordType,
)
    requires
        n <= records.len(),
    ensures
        encodable(records, aliases, all, n).contains(x) <==> !has_resource_field(x, aliases, all)
            && exists|k: int| 0 <= k < n && #[trigger] records[k] == x,
    decreases n,
{
    if n > 0 {
        lemma_encodable(records, aliases, all, (n - 1) as nat, x);
        let head = encodable(records, aliases, all, (n - 1) as nat);
        let kept = encodable(records, aliases, all, n);
        if head.contains(x) {
            let j = choose|j: int| 0 <= j < head.len() && head[j] == x;
            assert(kept[j] == x);
        }
        if !has_resource_field(records[n - 1], aliases, all) {
            assert(kept[head.len() as int] == records[n - 1]);
        }
        if kept.contains(x) && !head.contains(x) {
            let j = choose|j: int| 0 <= j < kept.len() && kept[j] == x;
            assert(j == head.len());
            assert(records[n - 1] == x);
        }
        if exists|k: int| 0 <= k < n && #[trigger] records[k] == x {
            let k = choose|k: int| 0 <= k < n && #[trigger] records[k] == x;
            if k < n - 1 && !has_resource_field(x, aliases, all) {
                assert(head.contains(x));
            }
        }
    } else {
        assert(encodable(records, aliases, all, 0) =~= Seq::<RecordType>::empty());
    }
}

// ─── Types named by `use` ───

/// Whether a copy of records names a type by `use`: all types but the aliases and enums of the
/// primary package, which are replaced and copied.
pub open spec fn needs_use(s: Source, primary: Seq<char>) -> bool {
    !(words::belongs(s.ns, primary) && (s.kind is Alias || s.kind is Enum))
}

/// The declarations of those of the first `n` types that are named by `use`.
pub open spec fn used_prefix(
    ids: Seq<Seq<char>>,
    all: Seq<Source>,
    primary: Seq<char>,
    n: nat,
) -> Seq<Source>
    decreases n,
{
    if n == 0 {
        Seq::empty()
    } else {
        let head = used_prefix(ids, all, primary, (n - 1) as nat);
        match source_from(all, ids[n - 1], 0) {
            Some(s) => if needs_use(s, primary) {
                head.push(s)
            } else {
                head
            },
            None => head,
        }
    }
}

/// What declarations are grouped by at a depth: their package, then their interface, then their
/// version.
pub open spec fn group_key(s: Source, depth: nat) -> Seq<char> {
    if depth == 0 {
        s.ns
    } else if depth == 1 {
        s.interface
    } else {
        s.version
    }
}

/// Those of the first `n` declarations that have `key` at a depth.
pub open spec fn having(v: Seq<Source>, depth: nat, key: Seq<char>, n: nat) -> Seq<Source>
    decreases n,
{
    if n == 0 {
        Seq::empty()
    } else {
        let head = having(v, depth, key, (n - 1) as nat);
        if group_key(v[n - 1], depth) == key {
            head.push(v[n - 1])
        } else {
            head
        }
    }
}

pub const USE_LINE: &'static str = "    use {ns}/{iface}@{ver}.{{{joined}}};\n";

/// The names of declarations.
pub open spec fn source_names(v: Seq<Source>) -> Seq<Seq<char>> {
    v.map_values(|s: Source| s.name)
}

/// The `use` of types that one interface of one version of one package declares.
pub open spec fn use_line(v: Seq<Source>) -> Seq<char> {
    text::fill(
        USE_LINE@,
        seq![
            ("ns"@, v[0].ns),
            ("iface"@, v[0].interface),
            ("ver"@, v[0].version),
            ("joined"@, words::joined(source_names(v), ", "@)),
        ],
    )
}

/// The `use` lines of declarations that agree in all keys above `depth`: one line for each
/// package, interface and version, in order.
pub open spec fn use_groups(v: Seq<Source>, depth: nat) -> Seq<char>
    decreases 2 * (3 - depth) + 1, 0nat,
{
    if depth >= 3 {
        use_line(v)
    } else {
        let keys = order::sorted_set(v.map_values(|s: Source| group_key(s, depth)));
        use_groups_prefix(v, depth, keys, keys.len())
    }
}

/// The `use` lines for the first `n` keys at a depth.
pub open spec fn use_groups_prefix(v: Seq<Source>, depth: nat, keys: Seq<Seq<char>>, n: nat) -> Seq<
    char,
>
    decreases 2 * (3 - depth), n,
{
    if n == 0 || depth >= 3 {
        Seq::empty()
    } else {
        use_groups_prefix(v, depth, keys, (n - 1) as nat) + use_groups(
            having(v, depth, keys[n - 1], v.len()),
            depth + 1,
        )
    }
}

/// The `use` lines of a copy of records: they name the foreign types that the records refer to,
/// in one line for each interface that declares some.
pub open spec fn use_directives(
    records: Seq<RecordType>,
    aliases: Seq<(Seq<char>, Seq<char>)>,
    all: Seq<Source>,
    primary: Seq<char>,
) -> Seq<char> {
    let ids = referenced(records, aliases);
    use_groups(used_prefix(ids, all, primary, ids.len()), 0)
}

/// The declarations that a vector of references holds.
pub open spec fn ref_sources(v: Seq<&TypeSource>) -> Seq<Source> {
    v.map_values(|s: &TypeSource| (*s)@)
}

fn render_group_key<'a>(s: &'a TypeSource, depth: usize) -> (r: &'a str)
    ensures
        r@ == group_key(s@, depth as nat),
{
    if depth == 0 {
        s.ns_name.as_str()
    } else if depth == 1 {
        s.interface.as_str()
    } else {
        s.version.as_str()
    }
}

fn list_keys(v: &Vec<&TypeSource>, depth: usize) -> (r: Vec<String>)
    ensures
        text::strs(r@) == ref_sources(v@).map_values(|s: Source| group_key(s, depth as nat)),
{
    let mut r: Vec<String> = Vec::new();
    let mut k: usize = 0;
    while k < v.len()
        invariant
            k <= v@.len(),
            r@.len() == k,
            forall|j: int|
                0 <= j < k ==> #[trigger] r@[j]@ == group_key(ref_sources(v@)[j], depth as nat),
        decreases v.len() - k,
    {
        r.push(render_group_key(v[k], depth).to_owned());
        k = k + 1;
    }
    assert(text::strs(r@) =~= ref_sources(v@).map_values(
        |s: Source| group_key(s, depth as nat),
    ));
    r
}

fn list_names(v: &Vec<&TypeSource>) -> (r: Vec<String>)
    ensures
        text::strs(r@) == source_names(ref_sources(v@)),
{
    let mut r: Vec<String> = Vec::new();
    let mut k: usize = 0;
    while k < v.len()
        invariant
            k <= v@.len(),
            r@.len() == k,
            forall|j: int| 0 <= j < k ==> #[trigger] r@[j]@ == ref_sources(v@)[j].name,
        decreases v.len() - k,
    {
        r.push(v[k].kebab_name.clone());
        k = k + 1;
    }
    assert(text::strs(r@) =~= source_names(ref_sources(v@)));
    r
}

fn list_having<'a>(v: &Vec<&'a TypeSource>, depth: usize, key: &str) -> (r: Vec<&'a TypeSource>)
    ensures
        ref_sources(r@) == having(ref_sources(v@), depth as nat, key@, v@.len()),
{
    let mut r: Vec<&'a TypeSource> = Vec::new();
    let mut k: usize = 0;
    assert(ref_sources(r@) =~= having(ref_sources(v@), depth as nat, key@, 0));
    while k < v.len()
        invariant
            k <= v@.len(),
            ref_sources(r@) == having(ref_sources(v@), depth as nat, key@, k as nat),
        decreases v.len() - k,
    {
        let ghost was = ref_sources(r@);
        let s: &'a TypeSource = v[k];
        assert(ref_sources(v@)[k as int] == s@);
        if same(render_group_key(s, depth), key) {
            r.push(s);
            assert(ref_sources(r@) =~= was.push(s@));
        }
        k = k + 1;
    }
    r
}

/// Whether each key at a depth has declarations.
proof fn lemma_keys_have(v: Seq<Source>, depth: nat, key: Seq<char>, n: nat)
    requires
        n <= v.len(),
        exists|k: int| 0 <= k < n && group_key(#[trigger] v[k], depth) == key,
    ensures
        having(v, depth, key, n).len() > 0,
    decreases n,
{
    if group_key(v[n - 1], depth) != key {
        let k = choose|k: int| 0 <= k < n && group_key(#[trigger] v[k], depth) == key;
        assert(k < n - 1);
        lemma_keys_have(v, depth, key, (n - 1) as nat);
    }
}

fn render_use_groups(v: &Vec<&TypeSource>, depth: usize) -> (r: String)
    requires
        depth <= 3,
        depth == 3 ==> v@.len() > 0,
    ensures
        r@ == use_groups(ref_sources(v@), depth as nat),
    decreases 3 - depth,
{
    if depth == 3 {
        let names = list_names(v);
        let joined = words::join(&names, ", ");
        assert(ref_sources(v@)[0] == v@[0]@);
        return fill4(
            USE_LINE,
            "ns",
            v[0].ns_name.as_str(),
            "iface",
            v[0].interface.as_str(),
            "ver",
            v[0].version.as_str(),
            "joined",
            joined.as_str(),
        );
    }
    let ghost all = ref_sources(v@);
    let ghost wanted = all.map_values(|s: Source| group_key(s, depth as nat));
    let present = list_keys(v, depth);
    let keys = order::sorted(&present);
    let mut r = String::new();
    let mut k: usize = 0;
    while k < keys.len()
        invariant
            k <= keys@.len(),
            depth < 3,
            all == ref_sources(v@),
            wanted == all.map_values(|s: Source| group_key(s, depth as nat)),
            text::strs(keys@) == order::sorted_set(wanted),
            r@ == use_groups_prefix(all, depth as nat, text::strs(keys@), k as nat),
        decreases keys.len() - k,
    {
        let group = list_having(v, depth, keys[k].as_str());
        proof {
            let key = text::strs(keys@)[k as int];
            assert(key == keys@[k as int]@);
            order::law_sorted_set(wanted);
            assert(order::sorted_set(wanted).contains(key));
            assert(wanted.contains(key));
            let j = choose|j: int| 0 <= j < wanted.len() && wanted[j] == key;
            assert(group_key(all[j], depth as nat) == key);
            lemma_keys_have(all, depth as nat, key, all.len());
        }
        let lines = render_use_groups(&group, depth + 1);
        r.append(lines.as_str());
        k = k + 1;
    }
    r
}

/// Writes the `use` lines of a copy of records.
pub fn render_use_directives(
    records: &Vec<RecordType>,
    alias_map: &Vec<(String, String)>,
    type_source_map: &Vec<TypeSource>,
    primary: &str,
) -> (r: String)
    ensures
        r@ == use_directives(
            records@,
            packages::pairs(alias_map@),
            sources(type_source_map@),
            primary@,
        ),
{
    let ghost all = sources(type_source_map@);
    let ids = list_referenced(records, alias_map);
    let ghost wanted = text::strs(ids@);
    let mut used: Vec<&TypeSource> = Vec::new();
    let mut k: usize = 0;
    assert(ref_sources(used@) =~= used_prefix(wanted, all, primary@, 0));
    while k < ids.len()
        invariant
            k <= ids@.len(),
            all == sources(type_source_map@),
            wanted == text::strs(ids@),
            ref_sources(used@) == used_prefix(wanted, all, primary@, k as nat),
        decreases ids.len() - k,
    {
        assert(wanted[k as int] == ids@[k as int]@);
        if let Some(s) = find_source(type_source_map, ids[k].as_str()) {
            let copied = match s.kind {
                TypeKind::Alias => true,
                TypeKind::Enum => true,
                _ => false,
            };
            if !(package_belongs_to_primary(s.ns_name.as_str(), primary) && copied) {
                let ghost was = ref_sources(used@);
                used.push(s);
                assert(ref_sources(used@) =~= was.push(s@));
            }
        }
        k = k + 1;
    }
    render_use_groups(&used, 0)
}

/// A type is named by `use` exactly where records refer to it, it is not one of them, and its
/// declaration is not one that is replaced or copied.
pub proof fn law_used(
    records: Seq<RecordType>,
    aliases: Seq<(Seq<char>, Seq<char>)>,
    all: Seq<Source>,
    primary: Seq<char>,
    s: Source,
)
    ensures
        used_prefix(
            referenced(records, aliases),
            all,
            primary,
            referenced(records, aliases).len(),
        ).contains(s) <==> needs_use(s, primary) && source_from(all, s.name, 0) == Some(s)
            && records_idents(records, aliases, record_names(records), records.len()).contains(
            s.name,
        ),
{
    let ids = referenced(records, aliases);
    let raw = records_idents(records, aliases, record_names(records), records.len());
    order::law_sorted_set(raw);
    lemma_used(ids, all, primary, ids.len(), s);
    assert(ids.contains(s.name) <==> raw.contains(s.name));
    if ids.contains(s.name) {
        let k = choose|k: int| 0 <= k < ids.len() && ids[k] == s.name;
        assert(0 <= k < ids.len() && ids[k] == s.name);
    }
}

proof fn lemma_used(ids: Seq<Seq<char>>, all: Seq<Source>, primary: Seq<char>, n: nat, s: Source)
    requires
        n <= ids.len(),
    ensures
        used_prefix(ids, all, primary, n).contains(s) <==> needs_use(s, primary) && source_from(
            all,
            s.name,
            0,
        ) == Some(s) && exists|k: int| 0 <= k < n && #[trigger] ids[k] == s.name,
    decreases n,
{
    if n > 0 {
        lemma_used(ids, all, primary, (n - 1) as nat, s);
        let head = used_prefix(ids, all, primary, (n - 1) as nat);
        let used = used_prefix(ids, all, primary, n);
        law_first_declaration(all, ids[n - 1], 0);
        if head.contains(s) {
            let j = choose|j: int| 0 <= j < head.len() && head[j] == s;
            assert(used[j] == s);
        }
        if let Some(t) = source_from(all, ids[n - 1], 0) {
            if needs_use(t, primary) {
                assert(used[head.len() as int] == t);
            }
        }
        if used.contains(s) && !head.contains(s) {
            let j = choose|j: int| 0 <= j < used.len() && used[j] == s;
            assert(j == head.len());
            assert(ids[n - 1] == s.name);
        }
        if exists|k: int| 0 <= k < n && #[trigger] ids[k] == s.name {
            let k = choose|k: int| 0 <= k < n && #[trigger] ids[k] == s.name;
            if k < n - 1 && needs_use(s, primary) && source_from(all, s.name, 0) == Some(s) {
                assert(head.contains(s));
            }
        }
    } else {
        assert(used_prefix(ids, all, primary, 0) =~= Seq::<Source>::empty());
    }
}

} // verus!
