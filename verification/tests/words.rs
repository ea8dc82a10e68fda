//! Texts, words, orders and packages.

use shim_bridge_emit::gather::keep_own_records;
use shim_bridge_emit::ir::{ListPrimElem, RecordType, WitDecl, WitEnum, WitPackage};
use shim_bridge_emit::order::{insert, is_before, sorted};
use shim_bridge_emit::packages::{
    declares, find_in, find_primary, has_resource, list_keys, package_modules, push_decl_names,
    push_enum_names, push_pair,
};
use shim_bridge_emit::shim_dirs::{
    pick_contract_dir, pick_primary_shim_dir, ContractDir, ShimDir,
};
use shim_bridge_emit::text::{cat, cat3, chars_of, fill1, fill2, fill_with, same};
use shim_bridge_emit::tuples::{
    list_tuple_sig_suffix, list_wit_types, read_signature, render_tuple_type, write_signature,
};
use shim_bridge_emit::words::{
    decimal_u64, decimal_usize, escape_quotes, is_fresh, is_whitespace, join, kebab_to_pascal,
    package_belongs_to_primary, pascal_case, replace_char, splice, split_pkg, starts_with,
    to_dashed, to_snake, to_upper_text,
};

fn strings(v: &[&str]) -> Vec<String> {
    v.iter().map(|s| s.to_string()).collect()
}

fn pkg(ns: &str) -> WitPackage {
    WitPackage {
        ns_name: ns.to_string(),
        version: "0.1.0".to_string(),
        interfaces: vec![],
        records: vec![],
        resources: vec![],
        variants: vec![],
        enums: vec![],
        flags: vec![],
        type_aliases: vec![],
    }
}

fn decl(name: &str) -> WitDecl {
    WitDecl { interface: "i".to_string(), kebab_name: name.to_string() }
}

#[test]
fn templates_fill_their_holes() {
    assert_eq!(fill1("a {x} b {x}", "x", "{y}"), "a {y} b {y}");
    assert_eq!(fill2("{{{a}}} {b}", "a", "1", "b", "2"), "{1} 2");
    assert_eq!(fill1("{{}} {nothing}.", "x", "1"), "{} .");
    assert_eq!(fill1("plain", "x", "1"), "plain");
    assert_eq!(fill_with("{a}{b}", &vec![("a", "1"), ("a", "2"), ("b", "3")]), "13");
}

#[test]
fn texts_are_compared_and_joined() {
    assert!(same("ab", "ab"));
    assert!(!same("ab", "abc"));
    assert_eq!(cat("a", "b"), "ab");
    assert_eq!(cat3("a", "b", "c"), "abc");
    assert_eq!(chars_of("aé"), vec!['a', 'é']);
    assert_eq!(join(&strings(&["a", "b", "c"]), ", "), "a, b, c");
    assert_eq!(join(&vec![], ", "), "");
}

#[test]
fn numerals_tell_numbers_apart() {
    assert_eq!(decimal_u64(0), "0");
    assert_eq!(decimal_u64(18_446_744_073_709_551_615), "18446744073709551615");
    assert_eq!(decimal_usize(1_000_000), "1000000");
    assert_ne!(decimal_u64(10), decimal_u64(100));
}

#[test]
fn characters_are_replaced() {
    assert_eq!(replace_char("a-b-c", '-', "__"), "a__b__c");
    assert_eq!(replace_char("abc", '-', "_"), "abc");
    assert_eq!(to_snake("st-as-text"), "st_as_text");
    assert!(!to_snake("a-b").contains('-'));
    assert_eq!(escape_quotes("a\"b"), "a\\\"b");
    assert_eq!(to_dashed("postgis core.2"), "postgis-core-2");
    assert_eq!(to_dashed(&to_dashed("a_b")), to_dashed("a_b"));
}

#[test]
fn pascal_case_of_words() {
    assert_eq!(pascal_case("pixel-vec_entry two"), "PixelVecEntryTwo");
    assert_eq!(kebab_to_pascal("pixel-type"), "PixelType");
    assert_eq!(pascal_case("ßa"), "SSa");
    assert_eq!(pascal_case("a\u{a0}b"), "AB");
    assert_eq!(pascal_case(""), "");
}

#[test]
fn letters_beyond_ascii() {
    assert_eq!(to_upper_text("geometry"), "GEOMETRY");
    assert_eq!(to_upper_text("straße"), "STRASSE");
    assert!(is_whitespace('\u{2003}'));
    assert!(is_whitespace(' '));
    assert!(!is_whitespace('x'));
    assert!(!is_whitespace('é'));
}

#[test]
fn packages_split_at_the_colon() {
    assert_eq!(split_pkg("postgis:wasm"), ("postgis".to_string(), "wasm".to_string()));
    assert_eq!(split_pkg("a:b:c"), ("a".to_string(), "b:c".to_string()));
    assert_eq!(split_pkg("plain"), ("plain".to_string(), String::new()));
    assert!(package_belongs_to_primary("postgis:wasm", "postgis"));
    assert!(!package_belongs_to_primary("postgis-raster:wasm", "postgis"));
    assert!(package_belongs_to_primary("postgis", "postgis"));
    assert_eq!(
        package_modules("sfcgal-x:geo-y"),
        ("sfcgal_x".to_string(), "geo_y".to_string())
    );
}

#[test]
fn first_occurrences_are_fresh() {
    let names = strings(&["a", "b", "a"]);
    assert!(is_fresh(&names, 0));
    assert!(is_fresh(&names, 1));
    assert!(!is_fresh(&names, 2));
}

#[test]
fn splicing_replaces_each_part() {
    assert_eq!(splice("one MARK two", "MARK", "x"), "one x two");
    assert_eq!(splice("aaa", "aa", "b"), "ba");
    assert_eq!(splice("abc", "", "x"), "abc");
    assert_eq!(splice("abc", "z", "x"), "abc");
    assert!(starts_with("postgis-wasm", "postgis"));
    assert!(!starts_with("post", "postgis"));
    assert!(starts_with("", ""));
    assert!(!starts_with("", "a"));
}

#[test]
fn texts_are_ordered_by_their_characters() {
    assert!(is_before("a", "b"));
    assert!(is_before("a", "aa"));
    assert!(!is_before("a", "a"));
    assert!(is_before("Z", "a"));
    assert_eq!(sorted(&strings(&["b", "a", "b", "c"])), vec!["a", "b", "c"]);
    assert_eq!(sorted(&strings(&["c", "b", "a"])), sorted(&strings(&["a", "c", "b", "a"])));
    let mut v = strings(&["a", "c"]);
    insert(&mut v, "b");
    insert(&mut v, "b");
    assert_eq!(v, vec!["a", "b", "c"]);
}

#[test]
fn names_out_of_packages() {
    let mut p = pkg("postgis:wasm");
    p.resources.push(decl("geometry"));
    p.variants.push(decl("postgis-error"));
    let mut out = strings(&["x"]);
    push_decl_names(&mut out, &p.resources);
    push_enum_names(
        &mut out,
        &vec![WitEnum {
            interface: "i".to_string(),
            kebab_name: "kind".to_string(),
            cases: vec![],
        }],
    );
    assert_eq!(out, vec!["x", "geometry", "kind"]);
    assert!(declares(&p.variants, "postgis-error"));
    assert!(!declares(&p.variants, "raster-error"));
    let packages = vec![pkg("sfcgal:component"), p];
    assert_eq!(find_primary(&packages, "postgis"), 1);
    assert_eq!(find_primary(&packages, "mobilitydb"), 2);
    assert!(has_resource(&packages, "postgis", "geometry", "postgis-error"));
    assert!(!has_resource(&packages, "postgis", "raster", "raster-error"));
    assert!(!has_resource(&packages, "sfcgal", "geometry", "postgis-error"));
}

#[test]
fn first_pair_of_a_key_counts() {
    let mut v: Vec<(String, String)> = vec![];
    push_pair(&mut v, "a", "1");
    push_pair(&mut v, "b", "2");
    push_pair(&mut v, "a", "3");
    assert_eq!(find_in(&v, "a"), Some("1"));
    assert_eq!(find_in(&v, "b"), Some("2"));
    assert_eq!(find_in(&v, "c"), None);
    assert_eq!(list_keys(&v), vec!["a", "b", "a"]);
}

#[test]
fn tuple_signatures_keep_their_elements() {
    let elements = vec![ListPrimElem::S32, ListPrimElem::String, ListPrimElem::F64];
    let sig = write_signature(&elements);
    assert!(read_signature(&sig) == elements);
    assert_eq!(list_tuple_sig_suffix(&elements), "i32_string_f64");
    assert_eq!(list_wit_types(&elements), vec!["s32", "string", "f64"]);
    assert_eq!(render_tuple_type(&strings(&["i32"])), "(i32,)");
    assert_eq!(render_tuple_type(&strings(&["i32", "f64"])), "(i32, f64)");
}

#[test]
fn directory_of_the_primary_shim() {
    let dir = |name: &str, package: Option<&str>| ShimDir {
        name: name.to_string(),
        package: package.map(|s| s.to_string()),
    };
    let helpers = strings(&["sqlite-extension", "sfcgal-component"]);
    let dirs = vec![
        dir("zeta", None),
        dir("postgis-old", Some("old:wasm")),
        dir("shim", Some("postgis:wasm")),
        dir("sfcgal-component", Some("sfcgal:component")),
        dir("alpha", None),
    ];
    let packages = vec![pkg("sfcgal:component"), pkg("postgis:wasm")];
    assert_eq!(pick_primary_shim_dir("postgis", &dirs, &packages, &helpers), Some(2));
    assert_eq!(pick_primary_shim_dir("postgis", &dirs, &vec![], &helpers), Some(1));
    assert_eq!(pick_primary_shim_dir("mobilitydb", &dirs, &packages, &helpers), Some(4));
    let only = vec![dir("sfcgal-component", None)];
    assert_eq!(pick_primary_shim_dir("mobilitydb", &only, &vec![], &helpers), None);
}

#[test]
fn directory_of_a_contract() {
    assert!(pick_contract_dir(Some(true), false, false) == ContractDir::Named);
    assert!(pick_contract_dir(Some(false), true, true) == ContractDir::NamedMissing);
    assert!(pick_contract_dir(None, true, true) == ContractDir::Home);
    assert!(pick_contract_dir(None, false, true) == ContractDir::Sibling);
    assert!(pick_contract_dir(None, false, false) == ContractDir::Missing);
}

#[test]
fn helper_directories_of_each_database() {
    let dir = |name: &str| ShimDir { name: name.to_string(), package: None };
    let dirs = vec![dir("duckdb-extension"), dir("sqlite-extension"), dir("zeta")];
    assert_eq!(shim_bridge_emit::sqlite::pick_primary_shim_dir("m", &dirs, &vec![]), Some(0));
    assert_eq!(shim_bridge_emit::duckdb::pick_primary_shim_dir("m", &dirs, &vec![]), Some(2));
}

#[test]
fn records_of_the_primary_package_are_kept() {
    let record = |package: &str| RecordType {
        package: package.to_string(),
        package_version: String::new(),
        interface: String::new(),
        kebab_name: String::new(),
        fields: vec![],
        type_id: [0u8; 32],
        symbolic_name: String::new(),
        is_copy: false,
        direct: false,
        kebab_collides_in_pkg: false,
        snake_name: String::new(),
        helper_snake: String::new(),
        decoder_import: String::new(),
        encoder_import: String::new(),
    };
    let all = vec![record("a:x"), record("b:x"), record("a:y"), record("a")];
    let kept = keep_own_records(all, "a");
    let names: Vec<String> = kept.iter().map(|r| r.package.clone()).collect();
    assert_eq!(names, strings(&["a:x", "a:y", "a"]));
}
