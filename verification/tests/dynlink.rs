//! Bridges that reach their provider through a linker.

use shim_bridge_emit::dynlink::emit_dynlink::{
    cargo_toml, choose_target, crate_name_for, do_ids_fit, emit, kebab_safe_pkg_name, lib_rs,
    reads_rows, readme, takes_over, token_to_sqlite_type, world_wit, Alias, BridgeCrate, Catalog,
    DynlinkOptions, EmitError, FnKind, LibInputs, Target, LINKER_FILES,
};
use shim_bridge_emit::dynlink::table_sigs::{
    load_table_sigs, read_row, table_sig, TableRow, TableSig, TableSigError,
};

fn options(target: &str) -> DynlinkOptions {
    DynlinkOptions {
        provider_id: "postgis-composed".to_string(),
        sub_ext: "postgis_core".to_string(),
        extension_root: "postgis".to_string(),
        target: target.to_string(),
        interface_sqlite: None,
    }
}

fn catalog(functions: &[(FnKind, &str)]) -> Catalog {
    Catalog {
        extension: "postgis".to_string(),
        version: "3.4.0".to_string(),
        aliases: vec![],
        targets: vec![Target {
            id: "postgis_core".to_string(),
            functions: functions.iter().map(|(k, n)| (*k, n.to_string())).collect(),
        }],
    }
}

fn row(name: &str, params: &str, columns: Option<&str>) -> TableRow {
    TableRow {
        name: name.to_string(),
        param_types_json: params.to_string(),
        output_columns_json: columns.map(|s| s.to_string()),
    }
}

fn emitted(r: Result<BridgeCrate, EmitError>) -> BridgeCrate {
    match r {
        Ok(files) => files,
        Err(_) => panic!("emit failed"),
    }
}

#[test]
fn crate_symbols_are_public() {
    let _: fn(&Catalog, &str, DynlinkOptions, &Vec<TableRow>) -> Result<BridgeCrate, EmitError> =
        emit;
    let _ = DynlinkOptions {
        provider_id: "id".into(),
        sub_ext: "sub".into(),
        extension_root: "root".into(),
        target: "t".into(),
        interface_sqlite: None,
    };
}

#[test]
fn emit_produces_expected_layout() {
    let opts = DynlinkOptions {
        provider_id: "postgis-composed".to_string(),
        sub_ext: "postgis_core".to_string(),
        extension_root: "postgis".to_string(),
        target: String::new(),
        interface_sqlite: None,
    };
    let functions = [(FnKind::Scalar, "st_area"), (FnKind::Scalar, "st_geomfromtext")];
    let files = emitted(emit(&catalog(&functions), "postgis_core", opts, &vec![]));
    for text in [&files.cargo_toml, &files.readme, &files.lib_rs, &files.world_wit] {
        assert!(!text.is_empty());
    }
    let world = &files.world_wit;
    assert!(
        world.contains("import compose:dynlink/linker@0.1.0"),
        "world.wit missing compose:dynlink/linker import:\n{world}"
    );
    assert!(
        world.contains("export sqlite:extension/metadata@1.0.0"),
        "world.wit missing sqlite:extension/metadata export:\n{world}"
    );
    assert!(
        world.contains("export sqlite:extension/scalar-function@1.0.0"),
        "world.wit missing sqlite:extension/scalar-function export:\n{world}"
    );
    assert!(
        !world.contains("sqlite:extension/extension-callbacks"),
        "world.wit must not reference the stale extension-callbacks interface"
    );
    let lib = &files.lib_rs;
    assert!(
        lib.contains("impl MetadataGuest for Component"),
        "lib.rs must impl MetadataGuest (metadata.describe)"
    );
    assert!(
        lib.contains("impl ScalarFunctionGuest for Component"),
        "lib.rs must impl ScalarFunctionGuest (scalar-function.call)"
    );
    assert!(
        lib.contains("ScalarFunctionSpec {"),
        "describe() must populate ScalarFunctionSpec entries"
    );
    for arm in [
        "SqlValue::Null",
        "SqlValue::Integer(",
        "SqlValue::Real(",
        "SqlValue::Text(",
        "SqlValue::Blob(",
    ] {
        assert!(
            lib.contains(arm),
            "emitted lib.rs missing SqlValue arm `{arm}` — WIT variant name mismatch"
        );
    }
    for stale in [
        "register_scalar_function",
        "ExtensionError",
        "on_scalar_function",
        "value_type: ValueType::",
    ] {
        assert!(
            !lib.contains(stale),
            "emitted lib.rs still references stale pre-1.0 API `{stale}`"
        );
    }
}

#[test]
fn target_of_the_options_wins() {
    let functions = [(FnKind::Scalar, "st_area")];
    let files = emitted(emit(&catalog(&functions), "other", options("postgis_core"), &vec![]));
    assert!(files.readme.contains("(target `postgis_core`)"));
    match emit(&catalog(&functions), "postgis_core", options("other"), &vec![]) {
        Err(EmitError::UnknownTarget { target }) => assert_eq!(target, "other"),
        _ => panic!("expected an unknown target"),
    }
}

#[test]
fn faulty_rows_are_errors_where_an_interface_is_given() {
    let functions = [(FnKind::Table, "st_dump")];
    let mut opts = options("postgis_core");
    opts.interface_sqlite = Some("postgis-interface.sqlite".to_string());
    let rows = vec![row("st_dump", "[]", None), row("bad", "{", None)];
    match emit(&catalog(&functions), "", opts, &rows) {
        Err(EmitError::Signatures(TableSigError::ParamTypes { name, source: _ })) => {
            assert_eq!(name, "bad")
        }
        _ => panic!("expected faulty parameters"),
    }
    let mut opts = options("postgis_core");
    opts.interface_sqlite = Some("postgis-interface.sqlite".to_string());
    let rows = vec![row("worse", "[[]]", Some("[[\"x\"]]"))];
    match emit(&catalog(&functions), "", opts, &rows) {
        Err(EmitError::Signatures(TableSigError::OutputColumns { name, source: _ })) => {
            assert_eq!(name, "worse")
        }
        _ => panic!("expected faulty columns"),
    }
    let files = emitted(emit(&catalog(&functions), "", options("postgis_core"), &rows));
    assert!(files.without_interface);
}

#[test]
fn tables_get_schemas_from_their_signatures() {
    let functions = [(FnKind::Table, "st_dump"), (FnKind::Table, "st_series")];
    let mut opts = options("postgis_core");
    opts.interface_sqlite = Some("postgis-interface.sqlite".to_string());
    let rows = vec![row(
        "st_dump",
        "[[\"binary\",\"int64\"],[\"binary\"]]",
        Some("[[\"path\",\"text\"],[\"geom\",\"binary\"],[\"n\",\"float64\"]]"),
    )];
    let files = emitted(emit(&catalog(&functions), "", opts, &rows));
    assert!(files.lib_rs.contains("2000000"));
    assert!(files.lib_rs.contains("2000001"));
    assert!(files.lib_rs.contains("path"));
    assert!(files.lib_rs.contains("REAL"));
    assert_eq!(files.overloaded, 1);
    assert_eq!(files.opaque, 1);
    assert!(!files.without_interface);
    assert!(files.world_wit.contains("export sqlite:extension/vtab@1.0.0"));
    assert!(!files.world_wit.contains("export sqlite:extension/aggregate-function@1.0.0"));
}

fn lib_of_table(param_tokens: &[&str], output_columns: Option<Vec<(String, String)>>) -> (String, usize) {
    lib_rs(&LibInputs {
        provider_id: "p".to_string(),
        extension_root: "r".to_string(),
        catalog_extension: "c".to_string(),
        version: "0.1.0".to_string(),
        functions: vec![(FnKind::Table, "st_dump".to_string())],
        aliases: vec![],
        sigs: vec![(
            "st_dump".to_string(),
            TableSig {
                param_tokens: param_tokens.iter().map(|s| s.to_string()).collect(),
                output_columns,
            },
        )],
    })
}

#[test]
fn tables_without_known_columns_get_the_opaque_schema() {
    let opaque = r#"2000000 => Ok("CREATE TABLE x(\"result\" BLOB, \"_arg0\" HIDDEN, \"_arg1\" HIDDEN, \"_arg2\" HIDDEN, \"_arg3\" HIDDEN)".to_string()),"#;
    for columns in [None, Some(vec![])] {
        let (out, missing) = lib_of_table(&["binary"], columns);
        assert!(out.contains(opaque), "{out}");
        assert_eq!(missing, 0);
    }
    let known = Some(vec![("geom".to_string(), "binary".to_string())]);
    let (out, _) = lib_of_table(&["binary"], known.clone());
    assert!(
        out.contains(r#"2000000 => Ok("CREATE TABLE x(\"geom\" BLOB, \"_arg0\" HIDDEN)".to_string()),"#),
        "{out}"
    );
    let (out, _) = lib_of_table(&[], known);
    assert!(
        out.contains(r#"2000000 => Ok("CREATE TABLE x(\"geom\" BLOB, \"_arg0\" HIDDEN)".to_string()),"#),
        "{out}"
    );
}

#[test]
fn package_names_have_no_part_that_begins_with_a_digit() {
    assert_eq!(kebab_safe_pkg_name("postgis_2"), "postgis-two");
    assert_eq!(kebab_safe_pkg_name("postgis_3"), "postgis-three");
    assert_eq!(kebab_safe_pkg_name("postgis_4"), "postgis-four");
    assert_eq!(kebab_safe_pkg_name("postgis_2d"), "postgis-twod");
    assert_eq!(kebab_safe_pkg_name("postgis_3d"), "postgis-threed");
    assert_eq!(kebab_safe_pkg_name("postgis_4d"), "postgis-fourd");
    assert_eq!(kebab_safe_pkg_name("postgis_5d"), "postgis-fived");
    assert_eq!(kebab_safe_pkg_name("postgis_s2"), "postgis-s2");
    for digit in 0..10 {
        let name = kebab_safe_pkg_name(&format!("{digit}x_y_{digit}{digit}"));
        assert!(name.split('-').all(|part| part.starts_with(|c: char| c.is_ascii_lowercase())));
    }
}

#[test]
fn world_and_source_agree() {
    let all = [FnKind::Scalar, FnKind::Aggregate, FnKind::Window, FnKind::Table];
    for mask in 0..16 {
        let functions: Vec<(FnKind, &str)> = all
            .iter()
            .enumerate()
            .filter(|(k, _)| mask & (1 << k) != 0)
            .map(|(_, kind)| (*kind, "f"))
            .collect();
        let aggs = functions.iter().any(|f| matches!(f.0, FnKind::Aggregate | FnKind::Window));
        let tables = functions.iter().any(|f| matches!(f.0, FnKind::Table));
        let files = emitted(emit(&catalog(&functions), "", options("postgis_core"), &vec![]));
        let exports = |name: &str| {
            files.world_wit.contains(&format!("    export sqlite:extension/{name}@1.0.0;\n"))
        };
        assert_eq!(exports("aggregate-function"), aggs);
        assert_eq!(exports("vtab"), tables);
        assert!(exports("scalar-function"));
        assert_eq!(files.lib_rs.contains("impl AggregateGuest for Component {\n"), aggs);
        assert_eq!(files.lib_rs.contains("impl VtabGuest for Component {\n"), tables);
        assert!(files.lib_rs.ends_with("\nbindings::export!(Component with_types_in bindings);\n"));
    }
}

#[test]
fn manifest_and_dispatch_share_ids() {
    let functions = [
        (FnKind::Aggregate, "st_union"),
        (FnKind::Window, "st_cluster"),
        (FnKind::Table, "st_dump"),
    ];
    let files = emitted(emit(&catalog(&functions), "", options("postgis_core"), &vec![]));
    for (id, name) in [(1000000, "st_union"), (1000001, "st_cluster"), (2000000, "st_dump")] {
        assert!(files.lib_rs.contains(&format!(
            "                id: {id},\n                name: \"{name}\".to_string(),\n"
        )));
        assert!(files.lib_rs.contains(&format!("        {id} => Some(\"{name}\"),\n")));
    }
}

#[test]
fn ids_follow_the_sorted_names() {
    let functions = [
        (FnKind::Scalar, "st_b"),
        (FnKind::Scalar, "st_a"),
        (FnKind::Scalar, "st_b"),
        (FnKind::Aggregate, "st_union"),
        (FnKind::Window, "st_cluster"),
    ];
    let files = emitted(emit(&catalog(&functions), "", options("postgis_core"), &vec![]));
    let lib = &files.lib_rs;
    assert!(lib.contains("id: 1,"), "{lib}");
    assert!(lib.contains("1 => \"st_a\"") || lib.contains("1 => Some(\"st_a\")"), "{lib}");
    assert!(lib.contains("2 => \"st_b\"") || lib.contains("2 => Some(\"st_b\")"), "{lib}");
    assert!(lib.contains("1000000"));
    assert!(lib.contains("1000001"));
    let mut turned = functions;
    turned.reverse();
    let again = emitted(emit(&catalog(&turned), "", options("postgis_core"), &vec![]));
    assert_eq!(*lib, again.lib_rs);
}

#[test]
fn aliases_lead_to_their_canonical_names() {
    let mut given = catalog(&[
        (FnKind::Scalar, "st_geomfromtext"),
        (FnKind::Scalar, "st_geom_from_text"),
    ]);
    given.aliases = vec![
        Alias {
            kind: "scalar".to_string(),
            alias: "st_geomfromtext".to_string(),
            canonical: "st_geom_from_text".to_string(),
        },
        Alias {
            kind: "aggregate".to_string(),
            alias: "st_geom_from_text".to_string(),
            canonical: "st_geomfromtext".to_string(),
        },
    ];
    let files = emitted(emit(&given, "", options("postgis_core"), &vec![]));
    assert!(files.lib_rs.contains("\"st_geomfromtext\" => \"st_geom_from_text\""), "{}", files.lib_rs);
    assert!(!files.lib_rs.contains("\"st_geom_from_text\" => \"st_geomfromtext\""));
}

#[test]
fn version_falls_back_where_the_catalog_has_none() {
    let mut given = catalog(&[(FnKind::Scalar, "st_area")]);
    let files = emitted(emit(&given, "", options("postgis_core"), &vec![]));
    assert!(files.cargo_toml.contains("version = \"3.4.0\""));
    given.version = String::new();
    let files = emitted(emit(&given, "", options("postgis_core"), &vec![]));
    assert!(files.cargo_toml.contains("version = \"0.1.0\""));
}

#[test]
fn names_and_types() {
    assert_eq!(crate_name_for(&options("t")), "postgis-core-sqlite-bridge-dynlink");
    assert_eq!(token_to_sqlite_type("binary"), "BLOB");
    assert_eq!(token_to_sqlite_type("boolean"), "INTEGER");
    assert_eq!(token_to_sqlite_type("int64"), "INTEGER");
    assert_eq!(token_to_sqlite_type("float64"), "REAL");
    assert_eq!(token_to_sqlite_type("text"), "TEXT");
    assert_eq!(token_to_sqlite_type("anything"), "BLOB");
    assert_eq!(kebab_safe_pkg_name("postgis_core"), "postgis-core");
    assert!(cargo_toml("x-bridge", "1.2.3").contains("name = \"x-bridge\""));
    assert!(readme("x-bridge", "p", "s", "t").starts_with("# x-bridge\n"));
    assert!(world_wit("s", true, false).contains("export sqlite:extension/aggregate-function@1.0.0"));
    assert!(!world_wit("s", false, false).contains("export sqlite:extension/aggregate-function"));
}

#[test]
fn signatures_out_of_rows() {
    let (sig, overloaded) = match read_row(&row(
        "f",
        "[[\"int64\",\"text\"],[\"text\"]]",
        Some("[[\"a\",\"int64\"]]"),
    )) {
        Ok(r) => r,
        Err(_) => panic!("expected a signature"),
    };
    assert_eq!(sig.param_tokens, vec!["int64", "text"]);
    assert_eq!(sig.output_columns, Some(vec![("a".to_string(), "int64".to_string())]));
    assert!(overloaded);
    for columns in [None, Some(""), Some("[]")] {
        match read_row(&row("f", "[]", columns)) {
            Ok((sig, overloaded)) => {
                assert!(sig.param_tokens.is_empty());
                assert!(sig.output_columns.is_none());
                assert!(!overloaded);
            }
            Err(_) => panic!("expected a signature"),
        }
    }
    assert!(matches!(
        read_row(&row("f", "[1]", None)),
        Err(TableSigError::ParamTypes { .. })
    ));
    assert!(matches!(
        read_row(&row("f", "[]", Some("[[\"a\",\"b\",\"c\"]]"))),
        Err(TableSigError::OutputColumns { .. })
    ));
}

#[test]
fn last_row_of_a_name_counts() {
    let rows = vec![row("f", "[[\"text\"]]", None), row("f", "[[\"int64\"]]", None)];
    let sigs = match load_table_sigs(&rows) {
        Ok(s) => s,
        Err(_) => panic!("expected signatures"),
    };
    let found = shim_bridge_emit::dynlink::table_sigs::find_sig(&sigs.sigs, "f").unwrap();
    assert_eq!(found.param_tokens, vec!["int64"]);
    assert!(shim_bridge_emit::dynlink::table_sigs::find_sig(&sigs.sigs, "g").is_none());
}

#[test]
fn signature_of_given_lists() {
    let groups = vec![vec!["text".to_string()], vec![]];
    let sig = table_sig(&groups, &Some(vec![["a".to_string(), "binary".to_string()]]));
    assert_eq!(sig.param_tokens, vec!["text"]);
    assert_eq!(sig.output_columns, Some(vec![("a".to_string(), "binary".to_string())]));
    let empty = table_sig(&vec![], &None);
    assert!(empty.param_tokens.is_empty());
    assert!(empty.output_columns.is_none());
}

#[test]
fn files_and_ids() {
    assert!(!takes_over("world.wit"));
    assert!(takes_over("types.wit"));
    assert_eq!(LINKER_FILES, ["package.wit", "linker.wit", "endpoint.wit"]);
    assert!(do_ids_fit(&catalog(&[(FnKind::Table, "f")])));
}

#[test]
fn rows_are_read_where_they_count() {
    let given = catalog(&[(FnKind::Table, "f")]);
    let mut opts = options("postgis_core");
    assert!(!reads_rows(&given, &opts));
    opts.interface_sqlite = Some("x.sqlite".to_string());
    assert!(reads_rows(&given, &opts));
    opts.target = "other".to_string();
    assert!(!reads_rows(&given, &opts));
    assert_eq!(choose_target("t", opts).target, "other");
    assert_eq!(choose_target("t", options("")).target, "t");
}
