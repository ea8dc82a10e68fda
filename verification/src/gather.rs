//! What the arms of a bridge refer to, and the parts of its source that follow from it: the
//! modules, the resources, the lists of tuples and the records.

use vstd::prelude::*;
use vstd::string::*;

use crate::ir::{
    AccKind, AggregateEntry, DispatchEntry, ParamShape, RecordType, RetShape, UdtfEntry,
    WindowEntry, WitPackage,
};
use crate::order;
use crate::packages::{self, package_modules, push_pair};
use crate::text::{self, cat3, fill2, fill3, fill4};
use crate::tuples;
use crate::words::{self, join, package_belongs_to_primary, pascal_case, to_snake};

verus! {

pub const USE_MODULE: &'static str = "use bindings::{pkg_ns}::{pkg_name}::{module_ident} as {alias};\n";

pub const UPSTREAM_PATH: &'static str = "bindings::{ns}::{name}::{iface}::{pascal}";

// ─── Lists ───

/// The first `n` names as lines of a list.
pub open spec fn list_lines(names: Seq<Seq<char>>, n: nat) -> Seq<char>
    decreases n,
{
    if n == 0 {
        Seq::empty()
    } else {
        list_lines(names, (n - 1) as nat) + ("            \""@ + names[n - 1] + "\",\n"@)
    }
}

/// Writes names as lines of a list.
pub fn render_list_lines(names: &Vec<String>) -> (r: String)
    ensures
        r@ == list_lines(text::strs(names@), names@.len()),
{
    let mut r = String::new();
    let mut k: usize = 0;
    while k < names.len()
        invariant
            k <= names@.len(),
            r@ == list_lines(text::strs(names@), k as nat),
        decreases names.len() - k,
    {
        let line = cat3("            \"", names[k].as_str(), "\",\n");
        r.append(line.as_str());
        k = k + 1;
    }
    r
}

// ─── Modules ───

/// `base` followed by the modules that a result needs.
pub open spec fn with_ret_module(base: Seq<text::Binding>, ret: RetShape) -> Seq<text::Binding> {
    match ret {
        RetShape::BboxBlob => base.push(("pg_ctor"@, "postgis:wasm"@)),
        RetShape::IsValidDetailText => base.push(("pg_out"@, "postgis:wasm"@)),
        RetShape::Enum { wit_module, wit_package, kebab_name, cases } => base.push(
            (wit_module@, wit_package@),
        ),
        RetShape::OptionEnum { wit_module, wit_package, kebab_name, cases } => base.push(
            (wit_module@, wit_package@),
        ),
        _ => base,
    }
}

/// `base` followed by the modules of the enums among the first `n` parameters.
pub open spec fn with_enum_modules(
    base: Seq<text::Binding>,
    params: Seq<ParamShape>,
    n: nat,
) -> Seq<text::Binding>
    decreases n,
{
    if n == 0 {
        base
    } else {
        let before = with_enum_modules(base, params, (n - 1) as nat);
        match params[n - 1] {
            ParamShape::Enum { wit_module, wit_package, kebab_name, cases } => before.push(
                (wit_module@, wit_package@),
            ),
            _ => before,
        }
    }
}

/// The modules that the first `n` scalars need, each with its package.
pub open spec fn scalar_modules(entries: Seq<(DispatchEntry, bool)>, n: nat) -> Seq<text::Binding>
    decreases n,
{
    if n == 0 {
        Seq::empty()
    } else {
        let shape = entries[n - 1].0.shape;
        let own = scalar_modules(entries, (n - 1) as nat).push(
            (shape.wit_module@, shape.wit_package@),
        );
        with_enum_modules(with_ret_module(own, shape.ret), shape.params@, shape.params@.len())
    }
}

/// `base` followed by the modules of the first `n` aggregates.
pub open spec fn with_aggregate_modules(
    base: Seq<text::Binding>,
    entries: Seq<AggregateEntry>,
    n: nat,
) -> Seq<text::Binding>
    decreases n,
{
    if n == 0 {
        base
    } else {
        with_aggregate_modules(base, entries, (n - 1) as nat).push(
            (entries[n - 1].shape.wit_module@, entries[n - 1].shape.wit_package@),
        )
    }
}

/// `base` followed by the modules of the first `n` table functions.
pub open spec fn with_table_modules(
    base: Seq<text::Binding>,
    entries: Seq<UdtfEntry>,
    n: nat,
) -> Seq<text::Binding>
    decreases n,
{
    if n == 0 {
        base
    } else {
        with_table_modules(base, entries, (n - 1) as nat).push(
            (entries[n - 1].shape.wit_module@, entries[n - 1].shape.wit_package@),
        )
    }
}

/// `base` followed by the modules of the first `n` window functions.
pub open spec fn with_window_modules(
    base: Seq<text::Binding>,
    entries: Seq<WindowEntry>,
    n: nat,
) -> Seq<text::Binding>
    decreases n,
{
    if n == 0 {
        base
    } else {
        with_window_modules(base, entries, (n - 1) as nat).push(
            (entries[n - 1].shape.wit_module@, entries[n - 1].shape.wit_package@),
        )
    }
}

/// The modules that scalars, aggregates, table functions and window functions call into, each
/// with its package. The first package given for a module counts.
pub open spec fn modules_of(
    scalars: Seq<(DispatchEntry, bool)>,
    aggregates: Seq<AggregateEntry>,
    tables: Seq<UdtfEntry>,
    windows: Seq<WindowEntry>,
) -> Seq<text::Binding> {
    with_window_modules(
        with_table_modules(
            with_aggregate_modules(
                scalar_modules(scalars, scalars.len()),
                aggregates,
                aggregates.len(),
            ),
            tables,
            tables.len(),
        ),
        windows,
        windows.len(),
    )
}

/// Puts the modules that a scalar needs behind `out`.
pub fn push_scalar_modules(out: &mut Vec<(String, String)>, entry: &DispatchEntry)
    ensures
        packages::pairs(final(out)@) == with_enum_modules(
            with_ret_module(
                packages::pairs(old(out)@).push(
                    (entry.shape.wit_module@, entry.shape.wit_package@),
                ),
                entry.shape.ret,
            ),
            entry.shape.params@,
            entry.shape.params@.len(),
        ),
{
    push_pair(out, entry.shape.wit_module.as_str(), entry.shape.wit_package.as_str());
    match &entry.shape.ret {
        RetShape::BboxBlob => push_pair(out, "pg_ctor", "postgis:wasm"),
        RetShape::IsValidDetailText => push_pair(out, "pg_out", "postgis:wasm"),
        RetShape::Enum { wit_module, wit_package, kebab_name: _, cases: _ } => push_pair(
            out,
            wit_module.as_str(),
            wit_package.as_str(),
        ),
        RetShape::OptionEnum { wit_module, wit_package, kebab_name: _, cases: _ } => push_pair(
            out,
            wit_module.as_str(),
            wit_package.as_str(),
        ),
        _ => {},
    }
    let ghost base = packages::pairs(out@);
    let params = &entry.shape.params;
    let mut k: usize = 0;
    while k < params.len()
        invariant
            k <= params@.len(),
            packages::pairs(out@) == with_enum_modules(base, params@, k as nat),
        decreases params.len() - k,
    {
        if let ParamShape::Enum { wit_module, wit_package, kebab_name: _, cases: _ } = &params[k] {
            push_pair(out, wit_module.as_str(), wit_package.as_str());
        }
        k = k + 1;
    }
}

/// Lists the modules that scalars, aggregates, table functions and window functions call into,
/// each with its package.
pub fn list_modules(
    scalars: &Vec<(DispatchEntry, bool)>,
    aggregates: &Vec<AggregateEntry>,
    tables: &Vec<UdtfEntry>,
    windows: &Vec<WindowEntry>,
) -> (r: Vec<(String, String)>)
    ensures
        packages::pairs(r@) == modules_of(scalars@, aggregates@, tables@, windows@),
{
    let mut out: Vec<(String, String)> = Vec::new();
    assert(packages::pairs(out@) =~= Seq::<text::Binding>::empty());
    let mut k: usize = 0;
    while k < scalars.len()
        invariant
            k <= scalars@.len(),
            packages::pairs(out@) == scalar_modules(scalars@, k as nat),
        decreases scalars.len() - k,
    {
        push_scalar_modules(&mut out, &scalars[k].0);
        k = k + 1;
    }
    let ghost base = packages::pairs(out@);
    k = 0;
    while k < aggregates.len()
        invariant
            k <= aggregates@.len(),
            packages::pairs(out@) == with_aggregate_modules(
                base,
                aggregates@,
                k as nat,
            ),
        decreases aggregates.len() - k,
    {
        let shape = &aggregates[k].shape;
        push_pair(&mut out, shape.wit_module.as_str(), shape.wit_package.as_str());
        k = k + 1;
    }
    let ghost base2 = packages::pairs(out@);
    k = 0;
    while k < tables.len()
        invariant
            k <= tables@.len(),
            packages::pairs(out@) == with_table_modules(base2, tables@, k as nat),
        decreases tables.len() - k,
    {
        let shape = &tables[k].shape;
        push_pair(&mut out, shape.wit_module.as_str(), shape.wit_package.as_str());
        k = k + 1;
    }
    let ghost base3 = packages::pairs(out@);
    k = 0;
    while k < windows.len()
        invariant
            k <= windows@.len(),
            packages::pairs(out@) == with_window_modules(base3, windows@, k as nat),
        decreases windows.len() - k,
    {
        let shape = &windows[k].shape;
        push_pair(&mut out, shape.wit_module.as_str(), shape.wit_package.as_str());
        k = k + 1;
    }
    out
}

/// Each module that a scalar, an aggregate, a table function or a window function is in is
/// among the modules that are used.
pub proof fn law_modules_used(
    scalars: Seq<(DispatchEntry, bool)>,
    aggregates: Seq<AggregateEntry>,
    tables: Seq<UdtfEntry>,
    windows: Seq<WindowEntry>,
)
    ensures
        forall|k: int|
            0 <= k < scalars.len() ==> modules_of(scalars, aggregates, tables, windows).contains(
                (
                    (#[trigger] scalars[k]).0.shape.wit_module@,
                    scalars[k].0.shape.wit_package@,
                ),
            ),
        forall|k: int|
            0 <= k < aggregates.len() ==> modules_of(scalars, aggregates, tables, windows).contains(
                ((#[trigger] aggregates[k]).shape.wit_module@, aggregates[k].shape.wit_package@),
            ),
        forall|k: int|
            0 <= k < tables.len() ==> modules_of(scalars, aggregates, tables, windows).contains(
                ((#[trigger] tables[k]).shape.wit_module@, tables[k].shape.wit_package@),
            ),
        forall|k: int|
            0 <= k < windows.len() ==> modules_of(scalars, aggregates, tables, windows).contains(
                ((#[trigger] windows[k]).shape.wit_module@, windows[k].shape.wit_package@),
            ),
{
    let s = scalar_modules(scalars, scalars.len());
    let a = with_aggregate_modules(s, aggregates, aggregates.len());
    let b = with_table_modules(a, tables, tables.len());
    lemma_scalar_modules(scalars, scalars.len());
    lemma_aggregate_modules(s, aggregates, aggregates.len());
    lemma_table_modules(a, tables, tables.len());
    lemma_window_modules(b, windows, windows.len());
}

/// What stood in a list stands in it when more is put behind it.
proof fn lemma_pushed(base: Seq<text::Binding>, added: text::Binding)
    ensures
        forall|m: text::Binding| base.contains(m) ==> base.push(added).contains(m),
        base.push(added).contains(added),
{
    assert(base.push(added)[base.len() as int] == added);
    assert forall|m: text::Binding| base.contains(m) implies base.push(added).contains(m) by {
        let k = choose|k: int| 0 <= k < base.len() && base[k] == m;
        assert(base.push(added)[k] == m);
    }
}

proof fn lemma_enum_modules(base: Seq<text::Binding>, params: Seq<ParamShape>, n: nat)
    ensures
        forall|m: text::Binding|
            base.contains(m) ==> with_enum_modules(base, params, n).contains(m),
    decreases n,
{
    if n > 0 {
        lemma_enum_modules(base, params, (n - 1) as nat);
        let before = with_enum_modules(base, params, (n - 1) as nat);
        if let ParamShape::Enum { wit_module, wit_package, kebab_name, cases } = params[n - 1] {
            lemma_pushed(before, (wit_module@, wit_package@));
        }
    }
}

proof fn lemma_ret_module(base: Seq<text::Binding>, ret: RetShape)
    ensures
        forall|m: text::Binding| base.contains(m) ==> with_ret_module(base, ret).contains(m),
{
    if with_ret_module(base, ret) != base {
        let added = with_ret_module(base, ret).last();
        lemma_pushed(base, added);
        assert(with_ret_module(base, ret) =~= base.push(added));
    }
}

proof fn lemma_scalar_modules(entries: Seq<(DispatchEntry, bool)>, n: nat)
    requires
        n <= entries.len(),
    ensures
        forall|k: int|
            0 <= k < n ==> scalar_modules(entries, n).contains(
                (
                    (#[trigger] entries[k]).0.shape.wit_module@,
                    entries[k].0.shape.wit_package@,
                ),
            ),
    decreases n,
{
    if n > 0 {
        let before = scalar_modules(entries, (n - 1) as nat);
        let shape = entries[n - 1].0.shape;
        let own = (shape.wit_module@, shape.wit_package@);
        lemma_scalar_modules(entries, (n - 1) as nat);
        lemma_pushed(before, own);
        lemma_ret_module(before.push(own), shape.ret);
        lemma_enum_modules(
            with_ret_module(before.push(own), shape.ret),
            shape.params@,
            shape.params@.len(),
        );
    }
}

proof fn lemma_aggregate_modules(base: Seq<text::Binding>, entries: Seq<AggregateEntry>, n: nat)
    requires
        n <= entries.len(),
    ensures
        forall|m: text::Binding|
            base.contains(m) ==> with_aggregate_modules(base, entries, n).contains(m),
        forall|k: int|
            0 <= k < n ==> with_aggregate_modules(base, entries, n).contains(
                ((#[trigger] entries[k]).shape.wit_module@, entries[k].shape.wit_package@),
            ),
    decreases n,
{
    if n > 0 {
        lemma_aggregate_modules(base, entries, (n - 1) as nat);
        lemma_pushed(
            with_aggregate_modules(base, entries, (n - 1) as nat),
            (entries[n - 1].shape.wit_module@, entries[n - 1].shape.wit_package@),
        );
    }
}

proof fn lemma_table_modules(base: Seq<text::Binding>, entries: Seq<UdtfEntry>, n: nat)
    requires
        n <= entries.len(),
    ensures
        forall|m: text::Binding|
            base.contains(m) ==> with_table_modules(base, entries, n).contains(m),
        forall|k: int|
            0 <= k < n ==> with_table_modules(base, entries, n).contains(
                ((#[trigger] entries[k]).shape.wit_module@, entries[k].shape.wit_package@),
            ),
    decreases n,
{
    if n > 0 {
        lemma_table_modules(base, entries, (n - 1) as nat);
        lemma_pushed(
            with_table_modules(base, entries, (n - 1) as nat),
            (entries[n - 1].shape.wit_module@, entries[n - 1].shape.wit_package@),
        );
    }
}

proof fn lemma_window_modules(base: Seq<text::Binding>, entries: Seq<WindowEntry>, n: nat)
    requires
        n <= entries.len(),
    ensures
        forall|m: text::Binding|
            base.contains(m) ==> with_window_modules(base, entries, n).contains(m),
        forall|k: int|
            0 <= k < n ==> with_window_modules(base, entries, n).contains(
                ((#[trigger] entries[k]).shape.wit_module@, entries[k].shape.wit_package@),
            ),
    decreases n,
{
    if n > 0 {
        lemma_window_modules(base, entries, (n - 1) as nat);
        lemma_pushed(
            with_window_modules(base, entries, (n - 1) as nat),
            (entries[n - 1].shape.wit_module@, entries[n - 1].shape.wit_package@),
        );
    }
}

/// The import of one module under its alias: nothing for an alias that stands for no module.
pub open spec fn use_line(
    alias: Seq<char>,
    modules: Seq<text::Binding>,
    idents: Seq<text::Binding>,
) -> Seq<char> {
    match packages::find_from(idents, alias, 0) {
        Some(ident) => {
            let pkg = packages::find_from(modules, alias, 0)->0;
            text::fill(
                USE_MODULE@,
                seq![
                    ("pkg_ns"@, packages::ns_module(pkg)),
                    ("pkg_name"@, packages::name_module(pkg)),
                    ("module_ident"@, ident),
                    ("alias"@, alias),
                ],
            )
        },
        None => Seq::empty(),
    }
}

/// The imports of the first `n` of `aliases`.
pub open spec fn use_lines(
    aliases: Seq<Seq<char>>,
    modules: Seq<text::Binding>,
    idents: Seq<text::Binding>,
    n: nat,
) -> Seq<char>
    decreases n,
{
    if n == 0 {
        Seq::empty()
    } else {
        use_lines(aliases, modules, idents, (n - 1) as nat) + use_line(
            aliases[n - 1],
            modules,
            idents,
        )
    }
}

/// The imports of modules, in the order of their aliases.
pub open spec fn uses(modules: Seq<text::Binding>, idents: Seq<text::Binding>) -> Seq<char> {
    let aliases = order::sorted_set(packages::keys(modules));
    use_lines(aliases, modules, idents, aliases.len())
}

proof fn lemma_alias_has_package(modules: Seq<text::Binding>, k: int)
    requires
        0 <= k < order::sorted_set(packages::keys(modules)).len(),
    ensures
        packages::find_from(
            modules,
            order::sorted_set(packages::keys(modules))[k],
            0,
        ) is Some,
{
    let aliases = order::sorted_set(packages::keys(modules));
    order::law_sorted_set(packages::keys(modules));
    assert(aliases.contains(aliases[k]));
    assert(packages::keys(modules).contains(aliases[k]));
    let j = choose|j: int|
        0 <= j < packages::keys(modules).len() && packages::keys(modules)[j] == aliases[k];
    packages::law_find_from(modules, aliases[k], 0);
    assert(modules[j].0 == aliases[k]);
}

/// Writes the imports of modules, in the order of their aliases.
pub fn render_uses(modules: &Vec<(String, String)>, idents: &Vec<(String, String)>) -> (r: String)
    ensures
        r@ == uses(packages::pairs(modules@), packages::pairs(idents@)),
{
    let keys = packages::list_keys(modules);
    let aliases = order::sorted(&keys);
    let ghost ms = packages::pairs(modules@);
    let ghost ids = packages::pairs(idents@);
    let mut r = String::new();
    let mut k: usize = 0;
    while k < aliases.len()
        invariant
            k <= aliases@.len(),
            packages::pairs(modules@) == ms,
            ids == packages::pairs(idents@),
            text::strs(aliases@) == order::sorted_set(packages::keys(ms)),
            r@ == use_lines(text::strs(aliases@), ms, ids, k as nat),
        decreases aliases.len() - k,
    {
        let alias = aliases[k].as_str();
        proof {
            lemma_alias_has_package(ms, k as int);
        }
        match packages::find_in(idents, alias) {
            Some(ident) => {
                if let Some(pkg) = packages::find_in(modules, alias) {
                    let (ns, name) = package_modules(pkg);
                    let line = fill4(
                        USE_MODULE,
                        "pkg_ns",
                        ns.as_str(),
                        "pkg_name",
                        name.as_str(),
                        "module_ident",
                        ident,
                        "alias",
                        alias,
                    );
                    r.append(line.as_str());
                }
            },
            None => {
                assert(r@ =~= r@ + Seq::<char>::empty());
            },
        }
        k = k + 1;
    }
    r
}

// ─── Resources ───

/// A text about the primary package, where it declares the resource and its error.
pub open spec fn where_resource(
    pkgs: Seq<WitPackage>,
    primary: Seq<char>,
    resource: Seq<char>,
    error: Seq<char>,
    template: Seq<char>,
) -> Seq<char> {
    if packages::primary_has(pkgs, primary, resource, error) {
        let pkg = packages::primary_package(pkgs, primary);
        text::fill(
            template,
            seq![
                ("pkg_ns"@, packages::ns_module(pkg)),
                ("pkg_name"@, packages::name_module(pkg)),
            ],
        )
    } else {
        Seq::empty()
    }
}

/// Writes a text about the primary package, where it declares the resource and its error.
pub fn render_where_resource(
    pkgs: &Vec<WitPackage>,
    primary: &str,
    resource: &str,
    error: &str,
    template: &str,
) -> (r: String)
    ensures
        r@ == where_resource(pkgs@, primary@, resource@, error@, template@),
{
    if packages::has_resource(pkgs, primary, resource, error) {
        let k = packages::find_primary(pkgs, primary);
        let (ns, name) = package_modules(pkgs[k].ns_name.as_str());
        fill2(template, "pkg_ns", ns.as_str(), "pkg_name", name.as_str())
    } else {
        String::new()
    }
}

// ─── Lists of tuples ───

/// `base` followed by the signatures of the lists of tuples among the first `n` parameters.
pub open spec fn with_signatures(base: Seq<Seq<char>>, params: Seq<ParamShape>, n: nat) -> Seq<
    Seq<char>,
>
    decreases n,
{
    if n == 0 {
        base
    } else {
        let before = with_signatures(base, params, (n - 1) as nat);
        match params[n - 1] {
            ParamShape::ListTuple { elements } => before.push(tuples::signature(elements@)),
            _ => before,
        }
    }
}

/// Puts the signatures of the lists of tuples among parameters behind `out`.
pub fn push_signatures(out: &mut Vec<String>, params: &Vec<ParamShape>)
    ensures
        text::strs(final(out)@) == with_signatures(
            text::strs(old(out)@),
            params@,
            params@.len(),
        ),
{
    let ghost base = text::strs(out@);
    let mut k: usize = 0;
    while k < params.len()
        invariant
            k <= params@.len(),
            text::strs(out@) == with_signatures(base, params@, k as nat),
        decreases params.len() - k,
    {
        if let ParamShape::ListTuple { elements } = &params[k] {
            let ghost was = text::strs(out@);
            let sig = tuples::write_signature(elements);
            let ghost added = sig@;
            out.push(sig);
            assert(text::strs(out@) =~= was.push(added));
        }
        k = k + 1;
    }
}

/// The signatures of the lists of tuples among the parameters of the first `n` scalars.
pub open spec fn scalar_signatures(entries: Seq<(DispatchEntry, bool)>, n: nat) -> Seq<Seq<char>>
    decreases n,
{
    if n == 0 {
        Seq::empty()
    } else {
        let params = entries[n - 1].0.shape.params@;
        with_signatures(scalar_signatures(entries, (n - 1) as nat), params, params.len())
    }
}

/// The helper that reads lists of tuples.
pub open spec fn tuple_helper(
    template: Seq<char>,
    suffix: Seq<char>,
    types: Seq<Seq<char>>,
    labels: Seq<Seq<char>>,
) -> Seq<char> {
    text::fill(
        template,
        seq![
            ("suffix"@, suffix),
            ("rust_tuple"@, tuples::tuple_type(types)),
            ("wit_label"@, words::joined(labels, ", "@)),
        ],
    )
}

/// The helpers for the first `n` signatures.
pub open spec fn tuple_helpers(template: Seq<char>, sigs: Seq<Seq<char>>, n: nat) -> Seq<char>
    decreases n,
{
    if n == 0 {
        Seq::empty()
    } else {
        let elements = tuples::elements_of(sigs[n - 1]);
        tuple_helpers(template, sigs, (n - 1) as nat) + tuple_helper(
            template,
            tuples::tuple_suffix(elements),
            tuples::rust_types(elements),
            tuples::wit_types(elements),
        )
    }
}

/// The block of helpers for all signatures under its header: nothing where there are none.
pub open spec fn tuple_helpers_block(
    header: Seq<char>,
    template: Seq<char>,
    sigs: Seq<Seq<char>>,
) -> Seq<char> {
    if sigs.len() == 0 {
        Seq::empty()
    } else {
        header + tuple_helpers(template, sigs, sigs.len())
    }
}

/// Writes the helpers that read lists of tuples, one for each signature.
pub fn render_tuple_helpers(header: &str, template: &str, sigs: &Vec<String>) -> (r: String)
    ensures
        r@ == tuple_helpers_block(header@, template@, text::strs(sigs@)),
{
    if sigs.len() == 0 {
        return String::new();
    }
    let mut body = String::new();
    let mut k: usize = 0;
    while k < sigs.len()
        invariant
            k <= sigs@.len(),
            body@ == tuple_helpers(template@, text::strs(sigs@), k as nat),
        decreases sigs.len() - k,
    {
        let elements = tuples::read_signature(sigs[k].as_str());
        let suffix = tuples::list_tuple_sig_suffix(&elements);
        let types = tuples::list_rust_types(&elements);
        let rust_tuple = tuples::render_tuple_type(&types);
        let labels = tuples::list_wit_types(&elements);
        let wit_label = join(&labels, ", ");
        let one = fill3(
            template,
            "suffix",
            suffix.as_str(),
            "rust_tuple",
            rust_tuple.as_str(),
            "wit_label",
            wit_label.as_str(),
        );
        body.append(one.as_str());
        k = k + 1;
    }
    text::cat(header, body.as_str())
}

// ─── Records ───

/// The path of a record's type in the bindings.
pub open spec fn upstream_path(package: Seq<char>, interface: Seq<char>, kebab_name: Seq<char>) -> Seq<
    char,
> {
    text::fill(
        UPSTREAM_PATH@,
        seq![
            ("ns"@, packages::ns_module(package)),
            ("name"@, packages::name_module(package)),
            ("iface"@, words::snake(interface)),
            ("pascal"@, words::pascal(kebab_name, true)),
        ],
    )
}

/// Writes the path of a record's type in the bindings.
pub fn render_upstream_path(package: &str, interface: &str, kebab_name: &str) -> (r: String)
    ensures
        r@ == upstream_path(package@, interface@, kebab_name@),
{
    let (ns, name) = package_modules(package);
    let iface = to_snake(interface);
    let pascal = pascal_case(kebab_name);
    fill4(
        UPSTREAM_PATH,
        "ns",
        ns.as_str(),
        "name",
        name.as_str(),
        "iface",
        iface.as_str(),
        "pascal",
        pascal.as_str(),
    )
}

/// Puts a text behind `out`.
pub fn push_text(out: &mut Vec<String>, s: &str)
    ensures
        text::strs(final(out)@) == text::strs(old(out)@).push(s@),
{
    let ghost was = text::strs(out@);
    out.push(s.to_owned());
    assert(text::strs(out@) =~= was.push(s@));
}

/// `base` followed by the records among the first `n` parameters.
pub open spec fn with_param_records(base: Seq<Seq<char>>, params: Seq<ParamShape>, n: nat) -> Seq<
    Seq<char>,
>
    decreases n,
{
    if n == 0 {
        base
    } else {
        let before = with_param_records(base, params, (n - 1) as nat);
        match params[n - 1] {
            ParamShape::WitValueRecord { kebab_name, upstream_by_value } => before.push(kebab_name@),
            ParamShape::ListRecord { kebab_name } => before.push(kebab_name@),
            _ => before,
        }
    }
}

/// Puts the records among parameters behind `out`.
pub fn push_param_records(out: &mut Vec<String>, params: &Vec<ParamShape>)
    ensures
        text::strs(final(out)@) == with_param_records(
            text::strs(old(out)@),
            params@,
            params@.len(),
        ),
{
    let ghost base = text::strs(out@);
    let mut k: usize = 0;
    while k < params.len()
        invariant
            k <= params@.len(),
            text::strs(out@) == with_param_records(base, params@, k as nat),
        decreases params.len() - k,
    {
        match &params[k] {
            ParamShape::WitValueRecord { kebab_name, upstream_by_value: _ } => push_text(
                out,
                kebab_name.as_str(),
            ),
            ParamShape::ListRecord { kebab_name } => push_text(out, kebab_name.as_str()),
            _ => {},
        }
        k = k + 1;
    }
}

/// `base` followed by the record that a result holds.
pub open spec fn with_ret_record(base: Seq<Seq<char>>, ret: RetShape) -> Seq<Seq<char>> {
    match ret {
        RetShape::WitValueRecord { kebab_name } => base.push(kebab_name@),
        RetShape::OptionWitValueRecord { kebab_name } => base.push(kebab_name@),
        RetShape::FirstWitValueRecord { kebab_name } => base.push(kebab_name@),
        _ => base,
    }
}

/// The records that the first `n` scalars take or return.
pub open spec fn scalar_records(entries: Seq<(DispatchEntry, bool)>, n: nat) -> Seq<Seq<char>>
    decreases n,
{
    if n == 0 {
        Seq::empty()
    } else {
        let shape = entries[n - 1].0.shape;
        with_ret_record(
            with_param_records(
                scalar_records(entries, (n - 1) as nat),
                shape.params@,
                shape.params@.len(),
            ),
            shape.ret,
        )
    }
}

/// `base` followed by the records that an aggregate accumulates and returns.
pub open spec fn with_acc_records(base: Seq<Seq<char>>, acc: AccKind) -> Seq<Seq<char>> {
    match acc {
        AccKind::Record { input, output } => base.push(input.kebab_name@).push(output.kebab_name@),
        AccKind::RecordSetToRecordSet { input, output } => base.push(input.kebab_name@).push(
            output.kebab_name@,
        ),
        AccKind::RecordToScalar { input, output, optional } => base.push(input.kebab_name@),
        AccKind::RecordToTuple { input, optional } => base.push(input.kebab_name@),
        AccKind::RecordToListPrim { input } => base.push(input.kebab_name@),
        _ => base,
    }
}

// ─── Records of the primary shim ───

/// Those of the first `n` records whose package belongs to `primary`.
pub open spec fn own_records(records: Seq<RecordType>, primary: Seq<char>, n: nat) -> Seq<RecordType>
    decreases n,
{
    if n == 0 {
        Seq::empty()
    } else {
        let head = own_records(records, primary, (n - 1) as nat);
        if words::belongs(records[n - 1].package@, primary) {
            head.push(records[n - 1])
        } else {
            head
        }
    }
}

/// Keeps the records whose package belongs to `primary`.
pub fn keep_own_records(records: Vec<RecordType>, primary: &str) -> (r: Vec<RecordType>)
    ensures
        r@ == own_records(records@, primary@, records@.len()),
{
    let ghost given = records@;
    let ghost mut n: nat = 0;
    let mut rest = records;
    let mut r: Vec<RecordType> = Vec::new();
    assert(rest@ =~= given.skip(0));
    while rest.len() > 0
        invariant
            n <= given.len(),
            rest@ == given.skip(n as int),
            r@ == own_records(given, primary@, n),
        decreases rest.len(),
    {
        let record = rest.remove(0);
        proof {
            assert(record == given[n as int]);
            assert(rest@ =~= given.skip((n + 1) as int));
        }
        if package_belongs_to_primary(record.package.as_str(), primary) {
            r.push(record);
        }
        proof {
            n = n + 1;
        }
    }
    r
}

} // verus!
