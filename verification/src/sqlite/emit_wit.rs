//! The WIT world of a bridge, with an interface of its own that encodes and decodes records.

use vstd::prelude::*;
use vstd::string::*;

use crate::ir::{RecordType, WitEnum, WitPackage};
use crate::packages;
use crate::sqlite::type_sources::{self, TypeSource};
use crate::sqlite::type_text::{self, inline_aliases};
use crate::text::{self, fill1, fill2, same};
use crate::words;
use crate::worlds;

pub use crate::words::package_belongs_to_primary;

verus! {

pub const PACKAGE_LINE: &'static str = r#"package sqlink-bridge:{primary}@0.1.0;

"#;

pub const SERDE_OPS_DOC: &'static str = r#"/// Phase E wit-value codec surface: per-record
/// canonical-CBOR encoder + decoder.
///
/// Records are declared LOCALLY here (rather than
/// `use`'d from upstream shim packages) so the
/// composed component can export serde-ops without
/// also re-exporting the upstream interfaces — the
/// component-model export invariant requires any
/// type referenced by an exported instance to itself
/// be exported. Bodies use ciborium against the
/// wit-bindgen-generated local types (which derive
/// Serialize+Deserialize via additional_derives).
///
/// #785: identifiers referenced by a record field that
/// resolve to a non-cloneable upstream type (resources
/// like `geometry`; variants; flags) trigger a `use`
/// directive at the top of this interface. Records
/// still declared locally; the `use` covers only the
/// referenced-but-uncloneable subset.
interface serde-ops {
"#;

pub const ENUMS_PLACEHOLDER: &'static str = "__SERDE_OPS_LOCAL_ENUMS_PLACEHOLDER__\n";

pub const RECORD_OPEN: &'static str = "    record {name} {{\n";

pub const FIELD: &'static str = "        {fname}: {resolved},\n";

pub const CLOSE: &'static str = "    }\n";

pub const FROM_CBOR: &'static str = "    {name}-from-canon-cbor: func(bytes: list<u8>) -> result<{name}, string>;\n";

pub const TO_CBOR: &'static str = "    {name}-to-canon-cbor: func(value: {name}) -> list<u8>;\n";

pub const ENUM_OPEN: &'static str = "    enum {name} {{\n";

pub const ENUM_CASE: &'static str = "        {c}{comma}\n";

pub const WORLD_DOC: &'static str = r#"/// Generated by sqlink-shim-codegen (target=wasm-component).
/// Bridges the shim's WIT-exposed surface onto the canonical
/// `sqlite:extension/*` contract. Import list is derived from
/// the shim's vendored WIT packages; export list is the fixed
/// contract export quartet (metadata + scalar + aggregate + vtab).
world bridge {
"#;

pub const EXPORT_SERDE_OPS: &'static str = r#"
    export serde-ops;
"#;

/// The SQLite interfaces that a bridge imports.
pub const CONTRACT_IMPORTS: [&'static str; 6] = [
    "types",
    "spi",
    "logging",
    "config",
    "state",
    "cache",
];

/// The SQLite interfaces that a bridge exports.
pub const CONTRACT_EXPORTS: [&'static str; 4] = [
    "metadata",
    "scalar-function",
    "aggregate-function",
    "vtab",
];

// ─── Records ───

/// The declarations of the first `n` fields of a record, aliases replaced.
pub open spec fn fields_text(
    fields: Seq<(String, String)>,
    aliases: Seq<(Seq<char>, Seq<char>)>,
    n: nat,
) -> Seq<char>
    decreases n,
{
    if n == 0 {
        Seq::empty()
    } else {
        fields_text(fields, aliases, (n - 1) as nat) + text::fill(
            FIELD@,
            seq![
                ("fname"@, fields[n - 1].0@),
                ("resolved"@, type_text::inlined(fields[n - 1].1@, aliases)),
            ],
        )
    }
}

/// The declaration of a record, aliases replaced.
pub open spec fn record_text(r: RecordType, aliases: Seq<(Seq<char>, Seq<char>)>) -> Seq<char> {
    text::fill(RECORD_OPEN@, seq![("name"@, r.kebab_name@)]) + fields_text(
        r.fields@,
        aliases,
        r.fields@.len(),
    ) + CLOSE@
}

/// The declarations of the first `n` records. Of records of one name the first is declared.
pub open spec fn records_text(
    records: Seq<RecordType>,
    aliases: Seq<(Seq<char>, Seq<char>)>,
    n: nat,
) -> Seq<char>
    decreases n,
{
    if n == 0 {
        Seq::empty()
    } else {
        records_text(records, aliases, (n - 1) as nat) + if words::fresh(
            type_sources::record_names(records),
            n - 1,
        ) {
            record_text(records[n - 1], aliases)
        } else {
            Seq::empty()
        }
    }
}

/// The functions that decode and encode a record.
pub open spec fn codec_text(name: Seq<char>) -> Seq<char> {
    text::fill(FROM_CBOR@, seq![("name"@, name)]) + text::fill(TO_CBOR@, seq![("name"@, name)])
}

/// The functions that decode and encode the first `n` records.
pub open spec fn codecs_text(names: Seq<Seq<char>>, n: nat) -> Seq<char>
    decreases n,
{
    if n == 0 {
        Seq::empty()
    } else {
        codecs_text(names, (n - 1) as nat) + if words::fresh(names, n - 1) {
            codec_text(names[n - 1])
        } else {
            Seq::empty()
        }
    }
}

/// The interface that encodes and decodes records: copies of the records, with a placeholder for
/// the enums that they refer to, and two functions for each. Where there are no records there is
/// no interface.
pub open spec fn serde_ops(
    records: Seq<RecordType>,
    aliases: Seq<(Seq<char>, Seq<char>)>,
    all: Seq<type_sources::Source>,
    primary: Seq<char>,
) -> Seq<char> {
    if records.len() == 0 {
        Seq::empty()
    } else {
        SERDE_OPS_DOC@ + type_sources::use_directives(records, aliases, all, primary)
            + ENUMS_PLACEHOLDER@ + records_text(records, aliases, records.len()) + "\n"@
            + codecs_text(type_sources::record_names(records), records.len()) + "}\n"@
    }
}

fn render_record(record: &RecordType, alias_map: &Vec<(String, String)>) -> (r: String)
    ensures
        r@ == record_text(*record, packages::pairs(alias_map@)),
{
    let mut fields = String::new();
    let mut k: usize = 0;
    while k < record.fields.len()
        invariant
            k <= record.fields@.len(),
            fields@ == fields_text(record.fields@, packages::pairs(alias_map@), k as nat),
        decreases record.fields.len() - k,
    {
        let resolved = inline_aliases(record.fields[k].1.as_str(), alias_map);
        let line = fill2(
            FIELD,
            "fname",
            record.fields[k].0.as_str(),
            "resolved",
            resolved.as_str(),
        );
        fields.append(line.as_str());
        k = k + 1;
    }
    let mut s = fill1(RECORD_OPEN, "name", record.kebab_name.as_str());
    s.append(fields.as_str());
    s.append(CLOSE);
    s
}

/// Writes the interface that encodes and decodes records, with a placeholder for the enums that
/// they refer to.
pub fn render_serde_ops_interface(
    records: &Vec<RecordType>,
    alias_map: &Vec<(String, String)>,
    type_source_map: &Vec<TypeSource>,
    primary: &str,
) -> (r: String)
    ensures
        r@ == serde_ops(
            records@,
            packages::pairs(alias_map@),
            type_sources::sources(type_source_map@),
            primary@,
        ),
{
    if records.len() == 0 {
        return String::new();
    }
    let ghost aliases = packages::pairs(alias_map@);
    let names = type_sources::list_record_names(records);
    let ghost all_names = type_sources::record_names(records@);
    let mut bodies = String::new();
    let mut codecs = String::new();
    let mut k: usize = 0;
    while k < records.len()
        invariant
            k <= records@.len(),
            names@.len() == records@.len(),
            aliases == packages::pairs(alias_map@),
            all_names == type_sources::record_names(records@),
            text::strs(names@) == all_names,
            bodies@ == records_text(records@, aliases, k as nat),
            codecs@ == codecs_text(all_names, k as nat),
        decreases records.len() - k,
    {
        if words::is_fresh(&names, k) {
            let body = render_record(&records[k], alias_map);
            bodies.append(body.as_str());
            let name = records[k].kebab_name.as_str();
            assert(all_names[k as int] == name@);
            let from = fill1(FROM_CBOR, "name", name);
            let to = fill1(TO_CBOR, "name", name);
            let both = text::cat(from.as_str(), to.as_str());
            codecs.append(both.as_str());
        } else {
            proof {
                assert(bodies@ + Seq::<char>::empty() =~= bodies@);
                assert(codecs@ + Seq::<char>::empty() =~= codecs@);
            }
        }
        k = k + 1;
    }
    let mut s = SERDE_OPS_DOC.to_owned();
    let uses = type_sources::render_use_directives(records, alias_map, type_source_map, primary);
    s.append(uses.as_str());
    s.append(ENUMS_PLACEHOLDER);
    s.append(bodies.as_str());
    s.append("\n");
    s.append(codecs.as_str());
    s.append("}\n");
    s
}

// ─── Enums ───

/// The first `n` cases of an enum, with commas between all of its cases.
pub open spec fn cases_text(cases: Seq<String>, n: nat) -> Seq<char>
    decreases n,
{
    if n == 0 {
        Seq::empty()
    } else {
        cases_text(cases, (n - 1) as nat) + text::fill(
            ENUM_CASE@,
            seq![("c"@, cases[n - 1]@), ("comma"@, if n < cases.len() { ","@ } else { ""@ })],
        )
    }
}

/// The declaration of an enum.
pub open spec fn enum_text(name: Seq<char>, cases: Seq<String>) -> Seq<char> {
    text::fill(ENUM_OPEN@, seq![("name"@, name)]) + cases_text(cases, cases.len()) + CLOSE@
}

/// Writes the declaration of an enum.
pub fn render_local_enum(name: &str, cases: &Vec<String>) -> (r: String)
    ensures
        r@ == enum_text(name@, cases@),
{
    let mut lines = String::new();
    let mut k: usize = 0;
    while k < cases.len()
        invariant
            k <= cases@.len(),
            lines@ == cases_text(cases@, k as nat),
        decreases cases.len() - k,
    {
        let comma = if k + 1 < cases.len() {
            ","
        } else {
            ""
        };
        let line = fill2(ENUM_CASE, "c", cases[k].as_str(), "comma", comma);
        lines.append(line.as_str());
        k = k + 1;
    }
    let mut s = fill1(ENUM_OPEN, "name", name);
    s.append(lines.as_str());
    s.append(CLOSE);
    s
}

/// The declarations of those of the first `n` enums that are referred to.
pub open spec fn enums_text(enums: Seq<WitEnum>, refs: Seq<Seq<char>>, n: nat) -> Seq<char>
    decreases n,
{
    if n == 0 {
        Seq::empty()
    } else {
        enums_text(enums, refs, (n - 1) as nat) + if refs.contains(enums[n - 1].kebab_name@) {
            enum_text(enums[n - 1].kebab_name@, enums[n - 1].cases@)
        } else {
            Seq::empty()
        }
    }
}

/// The declarations of those enums of the first `n` packages that are referred to, in packages
/// that belong to `primary`.
pub open spec fn local_enums(
    pkgs: Seq<WitPackage>,
    primary: Seq<char>,
    refs: Seq<Seq<char>>,
    n: nat,
) -> Seq<char>
    decreases n,
{
    if n == 0 {
        Seq::empty()
    } else {
        local_enums(pkgs, primary, refs, (n - 1) as nat) + if words::belongs(
            pkgs[n - 1].ns_name@,
            primary,
        ) {
            enums_text(pkgs[n - 1].enums@, refs, pkgs[n - 1].enums@.len())
        } else {
            Seq::empty()
        }
    }
}

fn render_enums(enums: &Vec<WitEnum>, refs: &Vec<String>) -> (r: String)
    ensures
        r@ == enums_text(enums@, text::strs(refs@), enums@.len()),
{
    let mut r = String::new();
    let mut k: usize = 0;
    while k < enums.len()
        invariant
            k <= enums@.len(),
            r@ == enums_text(enums@, text::strs(refs@), k as nat),
        decreases enums.len() - k,
    {
        if words::has(refs, enums[k].kebab_name.as_str()) {
            let one = render_local_enum(enums[k].kebab_name.as_str(), &enums[k].cases);
            r.append(one.as_str());
        } else {
            assert(r@ + Seq::<char>::empty() =~= r@);
        }
        k = k + 1;
    }
    r
}

/// Writes the declarations of the primary package's enums that are referred to.
fn render_local_enums(pkgs: &Vec<WitPackage>, primary: &str, refs: &Vec<String>) -> (r: String)
    ensures
        r@ == local_enums(pkgs@, primary@, text::strs(refs@), pkgs@.len()),
{
    let mut r = String::new();
    let mut k: usize = 0;
    while k < pkgs.len()
        invariant
            k <= pkgs@.len(),
            r@ == local_enums(pkgs@, primary@, text::strs(refs@), k as nat),
        decreases pkgs.len() - k,
    {
        if package_belongs_to_primary(pkgs[k].ns_name.as_str(), primary) {
            let some = render_enums(&pkgs[k].enums, refs);
            r.append(some.as_str());
        } else {
            assert(r@ + Seq::<char>::empty() =~= r@);
        }
        k = k + 1;
    }
    r
}

/// Lists the types that the records refer to, as their fields spell them: the enums among them
/// are copied with the records.
pub fn collect_referenced_enum_names(records: &Vec<RecordType>) -> (r: Vec<String>)
    ensures
        text::strs(r@) == type_sources::referenced(records@, Seq::empty()),
{
    let none: Vec<(String, String)> = Vec::new();
    assert(packages::pairs(none@) =~= Seq::<(Seq<char>, Seq<char>)>::empty());
    type_sources::list_referenced(records, &none)
}

// ─── The world ───

/// The interface that encodes and decodes records, enums included, and a blank line.
pub open spec fn serde_ops_block(
    primary: Seq<char>,
    pkgs: Seq<WitPackage>,
    records: Seq<RecordType>,
) -> Seq<char> {
    if records.len() == 0 {
        Seq::empty()
    } else {
        words::spliced(
            serde_ops(
                records,
                type_sources::latest_aliases(pkgs, primary, 0),
                type_sources::sources_prefix(pkgs, pkgs.len()),
                primary,
            ),
            ENUMS_PLACEHOLDER@,
            local_enums(
                pkgs,
                primary,
                type_sources::referenced(records, Seq::empty()),
                pkgs.len(),
            ),
        ) + "\n"@
    }
}

/// The world of a bridge: it imports every interface of the shim's packages and what SQLite
/// offers, and exports what SQLite calls; where there are records, also what encodes them.
pub open spec fn world(
    primary: Seq<char>,
    pkgs: Seq<WitPackage>,
    contract: WitPackage,
    records: Seq<RecordType>,
) -> Seq<char> {
    text::fill(PACKAGE_LINE@, seq![("primary"@, primary)]) + serde_ops_block(primary, pkgs, records)
        + WORLD_DOC@ + worlds::package_imports(pkgs, pkgs.len()) + "\n"@ + worlds::contract_lines(
        worlds::IMPORT@,
        contract,
        CONTRACT_IMPORTS@,
        6,
    ) + "\n"@ + worlds::contract_lines(worlds::EXPORT@, contract, CONTRACT_EXPORTS@, 4) + (
    if records.len() > 0 {
        EXPORT_SERDE_OPS@
    } else {
        ""@
    }) + "}\n"@
}

fn render_serde_ops_block(
    primary: &str,
    shim_packages: &Vec<WitPackage>,
    records: &Vec<RecordType>,
) -> (r: String)
    ensures
        r@ == serde_ops_block(primary@, shim_packages@, records@),
{
    if records.len() == 0 {
        return String::new();
    }
    let alias_map = type_sources::primary_aliases(shim_packages, primary);
    let type_source_map = type_sources::build_type_source_map(shim_packages);
    let block = render_serde_ops_interface(records, &alias_map, &type_source_map, primary);
    let refs = collect_referenced_enum_names(records);
    let enums = render_local_enums(shim_packages, primary, &refs);
    let mut s = words::splice(block.as_str(), ENUMS_PLACEHOLDER, enums.as_str());
    s.append("\n");
    s
}

/// Writes the world of a bridge.
pub fn render_world(
    primary: &str,
    shim_packages: &Vec<WitPackage>,
    contract_pkg: &WitPackage,
    records: &Vec<RecordType>,
) -> (r: String)
    ensures
        r@ == world(primary@, shim_packages@, *contract_pkg, records@),
{
    let mut imports = String::new();
    let mut k: usize = 0;
    while k < 6
        invariant
            k <= 6,
            imports@ == worlds::contract_lines(
                worlds::IMPORT@,
                *contract_pkg,
                CONTRACT_IMPORTS@,
                k as nat,
            ),
        decreases 6 - k,
    {
        let line = worlds::render_contract_line(worlds::IMPORT, contract_pkg, CONTRACT_IMPORTS[k]);
        imports.append(line.as_str());
        k = k + 1;
    }
    let mut exports = String::new();
    k = 0;
    while k < 4
        invariant
            k <= 4,
            exports@ == worlds::contract_lines(
                worlds::EXPORT@,
                *contract_pkg,
                CONTRACT_EXPORTS@,
                k as nat,
            ),
        decreases 4 - k,
    {
        let line = worlds::render_contract_line(worlds::EXPORT, contract_pkg, CONTRACT_EXPORTS[k]);
        exports.append(line.as_str());
        k = k + 1;
    }
    let mut s = fill1(PACKAGE_LINE, "primary", primary);
    let serde = render_serde_ops_block(primary, shim_packages, records);
    s.append(serde.as_str());
    s.append(WORLD_DOC);
    let shim = worlds::render_package_imports(shim_packages);
    s.append(shim.as_str());
    s.append("\n");
    s.append(imports.as_str());
    s.append("\n");
    s.append(exports.as_str());
    s.append(if records.len() > 0 {
        EXPORT_SERDE_OPS
    } else {
        ""
    });
    s.append("}\n");
    s
}

/// Whether a directory of a shim's dependencies is taken over into the bridge and may hold a
/// package of the shim: the SQLite contract comes from elsewhere.
pub fn takes_over(directory: &str) -> (r: bool)
    ensures
        r == (directory@ != "sqlite-extension"@),
{
    !same(directory, "sqlite-extension")
}

} // verus!
