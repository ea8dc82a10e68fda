//! The world of a bridge for SQLite and its interface for records.

use shim_bridge_emit::ir::{RecordType, WitDecl, WitEnum, WitPackage, WitTypeAlias};
use shim_bridge_emit::sqlite::emit_wit::{
    collect_referenced_enum_names, render_local_enum, render_serde_ops_interface, render_world,
    takes_over, CONTRACT_EXPORTS, CONTRACT_IMPORTS,
};
use shim_bridge_emit::sqlite::type_sources::{
    build_type_source_map, filter_serde_ops_records, find_source, primary_aliases,
    record_has_resource_field, render_use_directives, TypeKind,
};
use shim_bridge_emit::sqlite::type_text::{
    collect_type_idents, inline_aliases, is_wit_primitive, list_idents, substitute_idents,
};

fn pkg(ns: &str, ver: &str) -> WitPackage {
    WitPackage {
        ns_name: ns.to_string(),
        version: ver.to_string(),
        interfaces: vec![],
        records: vec![],
        resources: vec![],
        variants: vec![],
        enums: vec![],
        flags: vec![],
        type_aliases: vec![],
    }
}

fn decl(interface: &str, name: &str) -> WitDecl {
    WitDecl { interface: interface.to_string(), kebab_name: name.to_string() }
}

fn alias(name: &str, body: &str) -> WitTypeAlias {
    WitTypeAlias {
        interface: "postgis-types".to_string(),
        kebab_name: name.to_string(),
        body: body.to_string(),
    }
}

fn rec_type(
    pkg_ns: &str,
    pkg_ver: &str,
    interface: &str,
    kebab: &str,
    fields: &[(&str, &str)],
) -> RecordType {
    RecordType {
        package: pkg_ns.to_string(),
        package_version: pkg_ver.to_string(),
        interface: interface.to_string(),
        kebab_name: kebab.to_string(),
        fields: fields.iter().map(|(n, t)| (n.to_string(), t.to_string())).collect(),
        type_id: [0u8; 32],
        symbolic_name: format!("{pkg_ns}@{pkg_ver}/{interface}/{kebab}"),
        is_copy: false,
        direct: false,
        kebab_collides_in_pkg: false,
        snake_name: kebab.replace('-', "_"),
        helper_snake: kebab.replace('-', "_"),
        decoder_import: String::new(),
        encoder_import: String::new(),
    }
}

fn pairs(v: &[(&str, &str)]) -> Vec<(String, String)> {
    v.iter().map(|(a, b)| (a.to_string(), b.to_string())).collect()
}

#[test]
fn use_directive_emitted_for_resource_referenced_by_record() {
    let mut postgis = pkg("postgis:wasm", "0.1.0");
    postgis.resources.push(WitDecl {
        interface: "postgis-types".to_string(),
        kebab_name: "geometry".to_string(),
    });
    let records = vec![rec_type(
        "postgis:wasm",
        "0.1.0",
        "postgis-raster-vector",
        "pixel-vec-entry",
        &[("geom", "geometry"), ("val", "f64"), ("x", "u32"), ("y", "u32")],
    )];
    let alias_map = vec![];
    let type_source_map = build_type_source_map(&vec![postgis]);
    let out = render_serde_ops_interface(&records, &alias_map, &type_source_map, "postgis");
    assert!(
        out.contains("use postgis:wasm/postgis-types@0.1.0.{geometry};"),
        "expected `use postgis:wasm/postgis-types@0.1.0.{{geometry}};` in \
         emitted serde-ops interface, got:\n{out}"
    );
    assert!(out.contains("record pixel-vec-entry {"));
    assert!(out.contains("geom: geometry"));
}

#[test]
fn use_directive_groups_multiple_types_from_same_interface() {
    let mut postgis = pkg("postgis:wasm", "0.1.0");
    postgis.resources.push(WitDecl {
        interface: "postgis-types".to_string(),
        kebab_name: "geometry".to_string(),
    });
    postgis.resources.push(WitDecl {
        interface: "postgis-types".to_string(),
        kebab_name: "geography".to_string(),
    });
    let records = vec![rec_type(
        "postgis:wasm",
        "0.1.0",
        "some-iface",
        "geo-pair",
        &[("g1", "geometry"), ("g2", "geography")],
    )];
    let alias_map = vec![];
    let type_source_map = build_type_source_map(&vec![postgis]);
    let out = render_serde_ops_interface(&records, &alias_map, &type_source_map, "postgis");
    assert!(
        out.contains("use postgis:wasm/postgis-types@0.1.0.{geography, geometry};"),
        "expected grouped `use` line, got:\n{out}"
    );
}

#[test]
fn use_directive_skipped_for_primary_alias_type() {
    let mut postgis = pkg("postgis:wasm", "0.1.0");
    postgis.type_aliases.push(WitTypeAlias {
        interface: "postgis-types".to_string(),
        kebab_name: "srid".to_string(),
        body: "s32".to_string(),
    });
    let records = vec![rec_type(
        "postgis:wasm",
        "0.1.0",
        "postgis-types",
        "srid-record",
        &[("s", "srid")],
    )];
    let alias_map = vec![("srid".to_string(), "s32".to_string())];
    let type_source_map = build_type_source_map(&vec![postgis]);
    let out = render_serde_ops_interface(&records, &alias_map, &type_source_map, "postgis");
    assert!(
        !out.contains("use postgis:wasm/postgis-types@0.1.0.{srid}"),
        "primary-alias `srid` should not appear in a `use` directive, got:\n{out}"
    );
    assert!(out.contains("s: s32"), "expected inlined alias, got:\n{out}");
}

#[test]
fn use_directive_skipped_for_locally_duplicated_record() {
    let postgis = pkg("postgis:wasm", "0.1.0");
    let records = vec![
        rec_type(
            "postgis:wasm",
            "0.1.0",
            "postgis-types",
            "coord",
            &[("x", "f64"), ("y", "f64")],
        ),
        rec_type(
            "postgis:wasm",
            "0.1.0",
            "postgis-types",
            "extremes",
            &[("x-min-point", "coord"), ("x-max-point", "coord")],
        ),
    ];
    let alias_map = vec![];
    let type_source_map = build_type_source_map(&vec![postgis]);
    let out = render_serde_ops_interface(&records, &alias_map, &type_source_map, "postgis");
    assert!(
        !out.contains("use postgis:wasm/postgis-types@0.1.0.{coord}"),
        "locally-duplicated record `coord` should not appear in a `use` directive, got:\n{out}"
    );
}

#[test]
fn uses_are_grouped_by_package_interface_and_version_in_order() {
    let mut postgis = pkg("postgis:wasm", "0.1.0");
    postgis.resources.push(decl("types", "geometry"));
    postgis.flags.push(decl("options", "modes"));
    postgis.variants.push(decl("options", "choice"));
    postgis.enums.push(WitEnum {
        interface: "types".to_string(),
        kebab_name: "kind".to_string(),
        cases: vec![],
    });
    let mut helper = pkg("a:helper", "2.0.0");
    helper.enums.push(WitEnum {
        interface: "shared".to_string(),
        kebab_name: "shade".to_string(),
        cases: vec![],
    });
    let records = vec![rec_type(
        "postgis:wasm",
        "0.1.0",
        "types",
        "all",
        &[
            ("a", "option<geometry>"),
            ("b", "list<choice>"),
            ("c", "tuple<modes, kind>"),
            ("d", "shade"),
            ("e", "nowhere"),
        ],
    )];
    let map = build_type_source_map(&vec![postgis, helper]);
    assert_eq!(
        render_use_directives(&records, &vec![], &map, "postgis"),
        "    use a:helper/shared@2.0.0.{shade};\n\
         \x20   use postgis:wasm/options@0.1.0.{choice, modes};\n\
         \x20   use postgis:wasm/types@0.1.0.{geometry};\n"
    );
}

#[test]
fn primary_record_that_is_not_copied_is_used() {
    let mut postgis = pkg("postgis:wasm", "0.1.0");
    postgis.records.push(decl("types", "held"));
    let records = vec![rec_type("postgis:wasm", "0.1.0", "types", "holder", &[("h", "held")])];
    let map = build_type_source_map(&vec![postgis]);
    assert_eq!(
        render_use_directives(&records, &vec![], &map, "postgis"),
        "    use postgis:wasm/types@0.1.0.{held};\n"
    );
}

#[test]
fn first_declaration_of_a_name_counts() {
    let mut a = pkg("a:x", "1.0.0");
    a.variants.push(decl("one", "thing"));
    a.resources.push(decl("two", "thing"));
    let mut b = pkg("b:x", "1.0.0");
    b.resources.push(decl("three", "thing"));
    let map = build_type_source_map(&vec![a, b]);
    let found = find_source(&map, "thing").unwrap();
    assert_eq!(found.interface, "two");
    assert_eq!(found.ns_name, "a:x");
    assert!(found.kind == TypeKind::Resource);
    assert!(find_source(&map, "other").is_none());
}

#[test]
fn records_with_resource_fields_are_left_out() {
    let mut postgis = pkg("postgis:wasm", "0.1.0");
    postgis.resources.push(decl("types", "geometry"));
    postgis.type_aliases.push(alias("shape", "option<geometry>"));
    let records = vec![
        rec_type("postgis:wasm", "0.1.0", "types", "coord", &[("x", "f64")]),
        rec_type("postgis:wasm", "0.1.0", "types", "direct", &[("g", "list<geometry>")]),
        rec_type("postgis:wasm", "0.1.0", "types", "aliased", &[("g", "shape")]),
    ];
    let packages = vec![postgis];
    let aliases = primary_aliases(&packages, "postgis");
    let map = build_type_source_map(&packages);
    assert!(!record_has_resource_field(&records[0], &aliases, &map));
    assert!(record_has_resource_field(&records[1], &aliases, &map));
    assert!(record_has_resource_field(&records[2], &aliases, &map));
    let kept = filter_serde_ops_records(records, &packages, "postgis");
    let names: Vec<&str> = kept.iter().map(|r| r.kebab_name.as_str()).collect();
    assert_eq!(names, vec!["coord"]);
}

#[test]
fn later_alias_of_the_primary_package_counts() {
    let mut one = pkg("postgis:wasm", "0.1.0");
    one.type_aliases.push(alias("srid", "s32"));
    one.type_aliases.push(alias("srid", "u32"));
    let mut other = pkg("helper:x", "0.1.0");
    other.type_aliases.push(alias("srid", "text"));
    let aliases = primary_aliases(&vec![one, other], "postgis");
    assert_eq!(inline_aliases("list<srid>", &aliases), "list<u32>");
}

#[test]
fn identifiers_of_a_type() {
    assert_eq!(
        list_idents("tuple<list<a-b>, option<u8>>"),
        vec!["tuple", "list", "a-b", "option", "u8"]
    );
    let mut out: Vec<String> = vec!["before".to_string()];
    collect_type_idents("tuple<list<a-b>, local, u8>", &vec!["local".to_string()], &mut out);
    assert_eq!(out, vec!["before", "a-b"]);
    assert!(is_wit_primitive("s64"));
    assert!(!is_wit_primitive("list"));
}

#[test]
fn aliases_are_followed_to_depth_four() {
    let map = pairs(&[("a", "b"), ("b", "c"), ("c", "d"), ("d", "e"), ("e", "f")]);
    assert_eq!(substitute_idents("list<a>", &map), "list<b>");
    assert_eq!(inline_aliases("b", &map), "f");
    assert_eq!(inline_aliases("a", &map), "e");
    assert_eq!(inline_aliases("a-b", &map), "a-b");
    assert_eq!(inline_aliases("list<x>", &vec![]), "list<x>");
    assert_eq!(inline_aliases("p", &pairs(&[("p", "list<p>")])), "list<list<list<list<p>>>>");
}

#[test]
fn enum_with_commas_between_its_cases() {
    assert_eq!(
        render_local_enum("kind", &vec!["one".to_string(), "two".to_string()]),
        "    enum kind {\n        one,\n        two\n    }\n"
    );
}

#[test]
fn interface_declares_each_record_once() {
    let records = vec![
        rec_type("p:q", "0.1.0", "one", "box", &[("x", "f64")]),
        rec_type("p:q", "0.1.0", "two", "box", &[("y", "f64")]),
    ];
    let out = render_serde_ops_interface(&records, &vec![], &vec![], "p");
    let tail = "interface serde-ops {\n\
                __SERDE_OPS_LOCAL_ENUMS_PLACEHOLDER__\n\
                \x20   record box {\n\
                \x20       x: f64,\n\
                \x20   }\n\
                \n\
                \x20   box-from-canon-cbor: func(bytes: list<u8>) -> result<box, string>;\n\
                \x20   box-to-canon-cbor: func(value: box) -> list<u8>;\n\
                }\n";
    assert!(out.ends_with(tail), "{out}");
    assert_eq!(render_serde_ops_interface(&vec![], &vec![], &vec![], "p"), "");
}

#[test]
fn referenced_enum_names_are_sorted_and_spelled_as_written() {
    let records = vec![rec_type(
        "p:q",
        "0.1.0",
        "one",
        "box",
        &[("x", "zeta"), ("y", "option<alpha>"), ("z", "box"), ("w", "zeta")],
    )];
    assert_eq!(collect_referenced_enum_names(&records), vec!["alpha", "zeta"]);
}

#[test]
fn world_with_records_and_enums() {
    let mut postgis = pkg("postgis:wasm", "0.1.0");
    postgis.interfaces = vec!["types".to_string(), "ops".to_string()];
    postgis.enums.push(WitEnum {
        interface: "types".to_string(),
        kebab_name: "kind".to_string(),
        cases: vec!["one".to_string(), "two".to_string()],
    });
    postgis.enums.push(WitEnum {
        interface: "types".to_string(),
        kebab_name: "unused".to_string(),
        cases: vec![],
    });
    let mut helper = pkg("sfcgal:component", "0.2.0");
    helper.interfaces = vec!["solid".to_string()];
    let contract = pkg("sqlite:extension", "1.0.0");
    let records = vec![rec_type("postgis:wasm", "0.1.0", "types", "tagged", &[("k", "kind")])];
    let out = render_world("postgis", &vec![postgis, helper], &contract, &records);
    assert!(out.starts_with("package sqlink-bridge:postgis@0.1.0;\n\n/// Phase E wit-value"));
    assert!(out.contains(
        "interface serde-ops {\n\
         \x20   enum kind {\n        one,\n        two\n    }\n\
         \x20   record tagged {\n        k: kind,\n    }\n\n"
    ));
    assert!(!out.contains("PLACEHOLDER"));
    assert!(!out.contains("unused"));
    assert!(out.contains(
        "world bridge {\n\
         \x20   import postgis:wasm/types@0.1.0;\n\
         \x20   import postgis:wasm/ops@0.1.0;\n\
         \x20   import sfcgal:component/solid@0.2.0;\n\n\
         \x20   import sqlite:extension/types@1.0.0;\n\
         \x20   import sqlite:extension/spi@1.0.0;\n\
         \x20   import sqlite:extension/logging@1.0.0;\n\
         \x20   import sqlite:extension/config@1.0.0;\n\
         \x20   import sqlite:extension/state@1.0.0;\n\
         \x20   import sqlite:extension/cache@1.0.0;\n\n\
         \x20   export sqlite:extension/metadata@1.0.0;\n\
         \x20   export sqlite:extension/scalar-function@1.0.0;\n\
         \x20   export sqlite:extension/aggregate-function@1.0.0;\n\
         \x20   export sqlite:extension/vtab@1.0.0;\n\n\
         \x20   export serde-ops;\n\
         }\n"
    ));
}

#[test]
fn world_without_records() {
    let contract = pkg("sqlite:extension", "1.0.0");
    let out = render_world("mobilitydb", &vec![], &contract, &vec![]);
    assert!(out.starts_with(
        "package sqlink-bridge:mobilitydb@0.1.0;\n\n\
         /// Generated by sqlink-shim-codegen (target=wasm-component).\n"
    ));
    assert!(!out.contains("serde-ops"));
    assert!(out.ends_with("    export sqlite:extension/vtab@1.0.0;\n}\n"));
    assert_eq!(CONTRACT_IMPORTS[1], "spi");
    assert_eq!(CONTRACT_EXPORTS[3], "vtab");
}

#[test]
fn contract_directory_is_not_taken_over() {
    assert!(!takes_over("sqlite-extension"));
    assert!(takes_over("postgis-wasm"));
}
