//! The source of a bridge for SQLite: its manifest, numbers, tables, windows and records.

use shim_bridge_emit::describe::{describe_param, quote};
use shim_bridge_emit::ir::{
    AccKind, AggregateEntry, AggregateFn, AggregateShape, BridgePlan, CastRewrite, ColumnAffinity,
    DispatchEntry, DispatchShape, Extension, ListPrimElem, ListTupleElem, ParamShape, RecordRef,
    RecordType, RetShape, ScalarFn, ScalarReturnKind, TableFn, TupleRecord, UdtfEntry, UdtfField, UdtfFieldShape,
    UdtfOutputRow, UdtfShape, UnwiredScalar, WindowEntry, WindowFn, WindowReturn, WindowShape,
    WitDecl, WitPackage,
};
use shim_bridge_emit::sqlite::checks::{are_inputs_wired, do_entries_fit, does_plan_fit};
use shim_bridge_emit::sqlite::emit_lib::{
    collect_referenced_records, collect_tuple_list_sigs, emit_aggregate_impl, emit_metadata_impl,
    emit_scalar_impl, lib_rs, render_raster_helpers, render_topology_helpers,
    render_tuple_list_helpers, BridgeInputs,
};
use shim_bridge_emit::sqlite::emit_records::{
    emit_serde_ops_impl, emit_wit_value_helpers, push_typed_value_entry,
};
use shim_bridge_emit::sqlite::emit_vtab::{
    emit_row_materialiser, emit_udtf_filter_body, emit_vtab_impl, rust_string_literal,
};
use shim_bridge_emit::sqlite::emit_window::{emit_window_compute_helpers, window_compute_fn_name};
use shim_bridge_emit::sqlite::listing::{
    aggregate_num_args, build_aggregate_id_index, build_scalar_id_index, build_udtf_id_index,
    build_window_id_index, find_id, next_arm, push_aggregate_entry, push_scalar_entry,
    push_vtab_entry, scalar_num_args, AGGREGATE_BASE, SCALAR_BASE, TABLE_BASE, WINDOW_BASE,
};
use shim_bridge_emit::sqlite::reports::{report_direct, report_unwired};
use shim_bridge_emit::sqlite::vtab::{build_vtab_schema, visible_column_count};
use shim_bridge_emit::sqlite::{crate_name_for, emit, sanitize};

fn strings(v: &[&str]) -> Vec<String> {
    v.iter().map(|s| s.to_string()).collect()
}

fn signatures(v: &[&[&str]]) -> Vec<Vec<String>> {
    v.iter().map(|s| strings(s)).collect()
}

fn scalar_fn(name: &str, aliases: &[&str], sigs: &[&[&str]], det: bool) -> ScalarFn {
    ScalarFn {
        canonical_name: name.to_string(),
        aliases: strings(aliases),
        param_signatures: signatures(sigs),
        is_deterministic: det,
    }
}

fn aggregate_fn(name: &str, aliases: &[&str], sigs: &[&[&str]]) -> AggregateFn {
    AggregateFn {
        canonical_name: name.to_string(),
        aliases: strings(aliases),
        param_signatures: signatures(sigs),
    }
}

fn extension(name: &str) -> Extension {
    Extension {
        name: name.to_string(),
        version: "3.4.0".to_string(),
        scalars: vec![],
        aggregates: vec![],
        table_functions: vec![],
        window_functions: vec![],
        cast_rewrites: vec![],
    }
}

fn plan() -> BridgePlan {
    let mut ext = extension("postgis");
    ext.scalars.push(scalar_fn("st_area", &["area"], &[&["geometry"]], true));
    ext.scalars.push(scalar_fn("random_point", &[], &[&["geometry"], &["geometry", "int"]], false));
    ext.aggregates.push(aggregate_fn("st_union", &["st_union_agg"], &[&["geometry"]]));
    ext.table_functions
        .push(TableFn { canonical_name: "st_dump".to_string(), aliases: strings(&["dump"]) });
    ext.window_functions.push(WindowFn {
        canonical_name: "st_clusterkmeans".to_string(),
        aliases: strings(&["kmeans"]),
        param_signatures: signatures(&[&["geometry"]]),
    });
    ext.cast_rewrites.push(CastRewrite {
        target_type: "geometry".to_string(),
        source_kind: "text".to_string(),
        function_name: "st_area".to_string(),
    });
    BridgePlan { extensions: vec![ext] }
}

fn scalar_entry(name: &str, params: Vec<ParamShape>, ret: RetShape) -> (DispatchEntry, bool) {
    (
        DispatchEntry {
            sql_name: name.to_string(),
            shape: DispatchShape {
                params,
                ret,
                wit_module: "pg_acc".to_string(),
                wit_func: name.to_string(),
                wit_package: "postgis:wasm".to_string(),
                method_call: None,
            },
        },
        false,
    )
}

fn aggregate_entry(name: &str, aliases: &[&str], accumulator_kind: AccKind) -> AggregateEntry {
    AggregateEntry {
        sql_name: name.to_string(),
        aliases: strings(aliases),
        shape: AggregateShape {
            wit_module: "pg_agg".to_string(),
            wit_func: "st_union".to_string(),
            wit_package: "postgis:wasm".to_string(),
            accumulator_kind,
            extra_args: vec![],
            ret: RetShape::GeomBlob,
        },
    }
}

fn table_entry(
    name: &str,
    params: Vec<ParamShape>,
    names: &[&str],
    output_row: UdtfOutputRow,
) -> UdtfEntry {
    UdtfEntry {
        sql_name: name.to_string(),
        shape: UdtfShape {
            params,
            param_names: strings(names),
            wit_module: "pg_srf".to_string(),
            wit_func: "st_dump".to_string(),
            wit_package: "postgis:wasm".to_string(),
            fallible: true,
            output_row,
        },
    }
}

fn window_entry(name: &str, extra_args: Vec<ParamShape>, returns: WindowReturn) -> WindowEntry {
    WindowEntry {
        sql_name: name.to_string(),
        shape: WindowShape {
            wit_module: "pg_cluster".to_string(),
            wit_func: "st_cluster_kmeans".to_string(),
            wit_package: "postgis:wasm".to_string(),
            extra_args,
            fallible: true,
            returns,
        },
    }
}

fn package(ns_name: &str) -> WitPackage {
    WitPackage {
        ns_name: ns_name.to_string(),
        version: "0.1.0".to_string(),
        interfaces: vec![],
        records: vec![],
        resources: vec![],
        variants: vec![],
        enums: vec![],
        flags: vec![],
        type_aliases: vec![],
    }
}

fn decl(name: &str) -> WitDecl {
    WitDecl { interface: "postgis-types".to_string(), kebab_name: name.to_string() }
}

fn record(name: &str, fields: &[(&str, &str)], direct: bool) -> RecordType {
    let snake = name.replace('-', "_");
    let mut type_id = [0u8; 32];
    type_id[0] = 255;
    type_id[31] = 10;
    RecordType {
        package: "postgis:wasm".to_string(),
        package_version: "0.1.0".to_string(),
        interface: "postgis-types".to_string(),
        kebab_name: name.to_string(),
        fields: fields.iter().map(|(n, t)| (n.to_string(), t.to_string())).collect(),
        type_id,
        symbolic_name: format!("postgis:wasm/postgis-types/{name}"),
        is_copy: true,
        direct,
        kebab_collides_in_pkg: false,
        snake_name: snake.clone(),
        helper_snake: snake.clone(),
        decoder_import: format!("{snake}-from-canon-cbor"),
        encoder_import: format!("{snake}-to-canon-cbor"),
    }
}

fn inputs() -> BridgeInputs {
    let mut postgis = package("postgis:wasm");
    postgis.interfaces = strings(&["postgis-types", "postgis-accessors"]);
    postgis.resources.push(decl("geometry"));
    postgis.variants.push(decl("postgis-error"));
    let mut contract = package("sqlite:extension");
    contract.records.push(decl("manifest"));
    BridgeInputs {
        shim_packages: vec![postgis],
        contract_package: contract,
        module_idents: vec![
            ("pg_acc".to_string(), "postgis_accessors".to_string()),
            ("pg_agg".to_string(), "postgis_aggregates".to_string()),
            ("pg_cluster".to_string(), "postgis_clustering".to_string()),
        ],
        scalar_entries: vec![
            scalar_entry("st_area", vec![ParamShape::Geom], RetShape::Real),
            scalar_entry("area", vec![ParamShape::Geom], RetShape::Real),
            scalar_entry("unlisted", vec![ParamShape::Geom], RetShape::Real),
        ],
        aggregate_entries: vec![aggregate_entry("st_union", &["st_union_agg"], AccKind::Geom)],
        udtf_entries: vec![table_entry(
            "st_dump",
            vec![ParamShape::Geom],
            &["g"],
            UdtfOutputRow::SingleGeom { column_name: "geom".to_string() },
        )],
        window_entries: vec![window_entry(
            "st_clusterkmeans",
            vec![ParamShape::U32],
            WindowReturn::OptionU32,
        )],
        force_link_block: "// link all\n".to_string(),
    }
}

// ─── Numbers and the manifest ───

#[test]
fn ids_follow_the_order_of_the_plan() {
    let p = plan();
    let windows = vec![window_entry("st_clusterkmeans", vec![ParamShape::U32], WindowReturn::U32)];
    let scalars = build_scalar_id_index(&p);
    assert_eq!(find_id(&scalars, SCALAR_BASE, "st_area"), Some(1));
    assert_eq!(find_id(&scalars, SCALAR_BASE, "area"), Some(2));
    assert_eq!(find_id(&scalars, SCALAR_BASE, "random_point"), Some(3));
    assert_eq!(find_id(&scalars, SCALAR_BASE, "st_union"), None);
    let aggregates = build_aggregate_id_index(&p);
    assert_eq!(find_id(&aggregates, AGGREGATE_BASE, "st_union_agg"), Some(1_000_001));
    let tables = build_udtf_id_index(&p);
    assert_eq!(find_id(&tables, TABLE_BASE, "st_dump"), Some(2_000_000));
    let w = build_window_id_index(&p, &windows);
    assert_eq!(find_id(&w, WINDOW_BASE, "kmeans"), Some(3_000_001));
}

#[test]
fn a_name_listed_twice_has_its_last_id() {
    let mut ext = extension("x");
    ext.scalars.push(scalar_fn("f", &["g"], &[], true));
    ext.scalars.push(scalar_fn("g", &["f"], &[], true));
    let scalars = build_scalar_id_index(&BridgePlan { extensions: vec![ext] });
    assert_eq!(find_id(&scalars, SCALAR_BASE, "f"), Some(4));
    assert_eq!(find_id(&scalars, SCALAR_BASE, "g"), Some(3));
}

#[test]
fn an_id_has_one_arm() {
    let scalars = build_scalar_id_index(&plan());
    let mut seen: Vec<u64> = vec![];
    assert_eq!(next_arm(&mut seen, &scalars, SCALAR_BASE, "area"), Some(2));
    assert_eq!(next_arm(&mut seen, &scalars, SCALAR_BASE, "area"), None);
    assert_eq!(next_arm(&mut seen, &scalars, SCALAR_BASE, "unlisted"), None);
    assert_eq!(seen, vec![2]);
}

#[test]
fn argument_counts() {
    assert_eq!(scalar_num_args(&scalar_fn("f", &[], &[], true)), -1);
    assert_eq!(scalar_num_args(&scalar_fn("f", &[], &[&["a", "b"]], true)), 2);
    assert_eq!(scalar_num_args(&scalar_fn("f", &[], &[&["a", "b"], &["c", "d"]], true)), 2);
    assert_eq!(scalar_num_args(&scalar_fn("f", &[], &[&["a", "b"], &["c"]], true)), -1);
    assert_eq!(aggregate_num_args(&aggregate_fn("f", &[], &[&[]])), 0);
    assert_eq!(aggregate_num_args(&aggregate_fn("f", &[], &[&["a"], &[]])), -1);
}

#[test]
fn manifest_entries() {
    let mut out = String::new();
    push_scalar_entry(&mut out, 7, "a\"b", -1, true);
    push_scalar_entry(&mut out, 8, "f", 2, false);
    push_aggregate_entry(&mut out, 1_000_000, "g", 1, true);
    push_vtab_entry(&mut out, 2_000_000, "h");
    assert_eq!(
        out,
        "            ScalarFunctionSpec { id: 7, name: \"a\\\"b\".into(), num_args: -1, func_flags: det },\n            \
         ScalarFunctionSpec { id: 8, name: \"f\".into(), num_args: 2, func_flags: FunctionFlags::empty() },\n            \
         AggregateFunctionSpec { id: 1000000, name: \"g\".into(), num_args: 1, func_flags: FunctionFlags::empty(), is_window: true },\n            \
         VtabSpec { id: 2000000, name: \"h\".into(), eponymous: true, mutable: false, batched: false },\n"
    );
}

#[test]
fn manifest_lists_every_function() {
    let windows = vec![window_entry("st_clusterkmeans", vec![ParamShape::U32], WindowReturn::U32)];
    let out = emit_metadata_impl(&plan(), "PostgisBridge", &vec![], &windows);
    assert!(out.starts_with("impl MetadataGuest for PostgisBridge {\n"));
    assert!(out.contains("{ id: 1, name: \"st_area\".into(), num_args: 1, func_flags: det },\n"));
    assert!(out.contains("{ id: 2, name: \"area\".into(), num_args: 1, func_flags: det },\n"));
    assert!(out.contains("{ id: 3, name: \"random_point\".into(), num_args: -1, func_flags: FunctionFlags::empty() },\n"));
    assert!(out.contains("{ id: 1000001, name: \"st_union_agg\".into(), num_args: 1, func_flags: FunctionFlags::empty(), is_window: false },\n"));
    assert!(out.contains("{ id: 3000001, name: \"kmeans\".into(), num_args: 2, func_flags: FunctionFlags::empty(), is_window: true },\n"));
    assert!(out.contains("VtabSpec { id: 2000001, name: \"dump\".into(), eponymous: true"));
    assert!(out.contains("            name: \"postgis\".into(),\n            version: \"3.4.0\".into(),\n"));
    assert!(!out.contains("metadata::TypedValueBinding;"));
    let unwired = emit_metadata_impl(&plan(), "PostgisBridge", &vec![], &vec![]);
    assert!(unwired.contains("{ id: 3000000, name: \"st_clusterkmeans\".into(), num_args: 1,"));
    let with = emit_metadata_impl(&plan(), "B", &vec![record("t-box", &[], true)], &vec![]);
    assert!(with.contains("metadata::TypedValueBinding;\n"));
}

#[test]
fn manifest_of_no_extension() {
    let empty = BridgePlan { extensions: vec![] };
    let out = emit_metadata_impl(&empty, "ShimBridge", &vec![], &vec![]);
    assert!(out.contains("            name: \"shim\".into(),\n            version: \"0.1.0\".into(),\n"));
    assert_eq!(crate_name_for(&empty), "shim-sqlink-bridge");
}

// ─── Implementations ───

#[test]
fn scalars_dispatch_under_their_ids() {
    let p = plan();
    let entries = inputs().scalar_entries;
    let out = emit_scalar_impl("PostgisBridge", &entries, &build_scalar_id_index(&p));
    assert!(out.contains(
        "            1 => {\n                let arg0 = from_wkb(arg_blob(&args, 0, \"st_area\")?, \
         \"st_area\")?;\n                Ok(SqlValue::Real(pg_acc::st_area(&arg0)))\n            }\n            \
         2 => {\n"
    ));
    assert!(!out.contains("unlisted"));
    assert!(out.contains("            _ => Err(stubbed(\"scalar-function\", func_id)),\n"));
}

#[test]
fn aggregates_and_windows_dispatch_under_their_ids() {
    let p = plan();
    let i = inputs();
    let out = emit_aggregate_impl(
        "PostgisBridge",
        &i.aggregate_entries,
        &build_aggregate_id_index(&p),
        &i.window_entries,
        &build_window_id_index(&p, &i.window_entries),
    );
    assert!(out.contains("            1000000 => {\n                let bytes = arg_blob(&args, 0, \"st_union\")?;\n"));
    assert!(out.contains("            1000001 => {\n                let bytes = arg_blob(&args, 0, \"st_union_agg\")?;\n"));
    assert!(out.contains("            3000000 => {\n                push_window_row(context_id, args);\n                Ok(())\n            }\n"));
    assert!(out.contains("                    let results = compute_window_3000000(&rows)?;\n"));
    assert!(out.contains("            3000000 => { Ok(()) } // whole-partition compute: inverse is a no-op\n"));
    assert!(out.contains("            3000000 => {\n                drop_window_state(context_id);\n                Ok(SqlValue::Null)\n            }\n"));
    let finalize = out.find("fn finalize").unwrap();
    let value = out.find("fn value").unwrap();
    assert!(out.find("let blobs = take_geom_state(context_id);").unwrap() > finalize);
    assert!(out.rfind("take_geom_state").unwrap() < value);
}

#[test]
fn window_helpers_carry_the_ids_of_the_plan() {
    let mut p = plan();
    p.extensions[0].window_functions.insert(
        0,
        WindowFn {
            canonical_name: "other".to_string(),
            aliases: vec![],
            param_signatures: vec![],
        },
    );
    let entries = vec![window_entry(
        "st_clusterkmeans",
        vec![ParamShape::U32, ParamShape::Text],
        WindowReturn::GeomBlob,
    )];
    let out = emit_window_compute_helpers(&entries, &build_window_id_index(&p, &entries));
    assert!(out.starts_with("\n/// #616 Phase 1: per-partition compute for `st_clusterkmeans`\n"));
    assert!(out.contains("/// classified SqlValue shape (GeomBlob). Called once\n"));
    assert!(out.contains("fn compute_window_3000001(rows: &[Vec<SqlValue>]) -> Result<Vec<SqlValue>, String> {\n"));
    assert!(out.contains(
        "    let extra0 = arg_i64(&rows[0], 1, \"st_clusterkmeans\")? as u32;\n    let extra1 = \
         arg_text(&rows[0], 2, \"st_clusterkmeans\")?.to_string();\n    let geom_refs: \
         Vec<&Geometry> = geoms.iter().collect();\n    let labels = \
         pg_cluster::st_cluster_kmeans(&geom_refs, extra0, &extra1).map_err(|e| \
         format!(\"st_clusterkmeans: {}\", postgis_err_string(e)))?;\n    Ok(labels\n"
    ));
    assert_eq!(window_compute_fn_name(3_000_001), "compute_window_3000001");
    assert_eq!(emit_window_compute_helpers(&vec![], &vec![]), "");
}

#[test]
fn window_with_an_extra_that_cannot_be_read_is_an_error() {
    let p = plan();
    let entries =
        vec![window_entry("st_clusterkmeans", vec![ParamShape::Geom], WindowReturn::U32)];
    assert_eq!(
        emit_window_compute_helpers(&entries, &build_window_id_index(&p, &entries)),
        "// ERROR: window st_clusterkmeans has unsupported extra arg shape Geom\n"
    );
}

// ─── Tables ───

fn schema(names: &[&str], row: UdtfOutputRow) -> String {
    build_vtab_schema(&table_entry("f", vec![], names, row).shape)
}

fn fields(names: &[&str]) -> UdtfOutputRow {
    UdtfOutputRow::Record {
        fields: names
            .iter()
            .map(|n| UdtfField {
                name: n.to_string(),
                affinity: ColumnAffinity::Integer,
                field_shape: UdtfFieldShape::Int,
            })
            .collect(),
    }
}

#[test]
fn schema_lists_visible_then_hidden_columns() {
    let geom = UdtfOutputRow::SingleGeom { column_name: "geom".to_string() };
    assert_eq!(schema(&["g"], geom), "CREATE TABLE x(\"geom\" BLOB, \"g\" HIDDEN)");
    assert_eq!(
        schema(&[], UdtfOutputRow::SinglePrimitive { affinity: ColumnAffinity::Text }),
        "CREATE TABLE x(\"value\" TEXT)"
    );
    assert_eq!(
        schema(&["a"], UdtfOutputRow::Unwired { reason: "r".to_string() }),
        "CREATE TABLE x(\"value\" BLOB, \"a\" HIDDEN)"
    );
    assert_eq!(
        schema(&["x", "min-x", "x"], fields(&["min-x", "max-x"])),
        "CREATE TABLE x(\"min-x\" INTEGER, \"max-x\" INTEGER, \"x\" HIDDEN, \"_arg1\" HIDDEN, \"_arg2\" HIDDEN)"
    );
}

#[test]
fn stand_in_names_clash_only_where_they_are_taken() {
    // The second parameter is called as its own stand-in, which is not used.
    assert_eq!(
        schema(&["a", "_arg1"], fields(&["b"])),
        "CREATE TABLE x(\"b\" INTEGER, \"a\" HIDDEN, \"_arg1\" HIDDEN)"
    );
    // A later parameter of the name of a stand-in gives way to it.
    assert_eq!(
        schema(&["b", "_arg0"], fields(&["b"])),
        "CREATE TABLE x(\"b\" INTEGER, \"_arg0\" HIDDEN, \"_arg1\" HIDDEN)"
    );
    // A column of the row, or an earlier parameter, of the name of a stand-in stays.
    assert_eq!(
        schema(&["b"], fields(&["b", "_arg0"])),
        "CREATE TABLE x(\"b\" INTEGER, \"_arg0\" INTEGER, \"_arg0\" HIDDEN)"
    );
    assert_eq!(
        schema(&["_arg1", "b"], fields(&["b"])),
        "CREATE TABLE x(\"b\" INTEGER, \"_arg1\" HIDDEN, \"_arg1\" HIDDEN)"
    );
}

#[test]
fn visible_columns() {
    assert_eq!(visible_column_count(&UdtfOutputRow::SingleGeom { column_name: "g".to_string() }), 1);
    assert_eq!(visible_column_count(&fields(&["a", "b", "c"])), 3);
    assert_eq!(visible_column_count(&fields(&[])), 0);
    assert_eq!(visible_column_count(&UdtfOutputRow::Unwired { reason: String::new() }), 1);
}

#[test]
fn literals_escape_quotes_and_backslashes() {
    assert_eq!(rust_string_literal("a \"b\" \\c"), "\"a \\\"b\\\" \\\\c\"");
    assert_eq!(rust_string_literal(""), "\"\"");
}

#[test]
fn rows_by_their_shape() {
    assert_eq!(
        emit_row_materialiser(&UdtfOutputRow::SinglePrimitive { affinity: ColumnAffinity::Real }, " ", "f"),
        " let rows: Vec<Vec<SqlValue>> = __upstream\n     .iter()\n     .map(|v| \
         alloc::vec![SqlValue::Real(*v as f64)])\n     .collect();\n"
    );
    let field = |name: &str, field_shape: UdtfFieldShape| UdtfField {
        name: name.to_string(),
        affinity: ColumnAffinity::Text,
        field_shape,
    };
    let row = UdtfOutputRow::Record {
        fields: vec![
            field("min-x", UdtfFieldShape::Int),
            field("g", UdtfFieldShape::OptionGeomBlob),
            field("z", UdtfFieldShape::Unsupported),
        ],
    };
    assert_eq!(
        emit_row_materialiser(&row, "", "f"),
        "let rows: Vec<Vec<SqlValue>> = __upstream\n    .into_iter()\n    .map(|__row| \
         alloc::vec![\n            SqlValue::Integer(__row.min_x as i64),\n            match \
         &__row.g { Some(v) => SqlValue::Blob(v.as_wkb()), None => SqlValue::Null },\n            \
         SqlValue::Null,\n        ])\n    .collect();\n"
    );
    assert_eq!(
        emit_row_materialiser(&UdtfOutputRow::Unwired { reason: "a \"b\"".to_string() }, "", "f"),
        "let _ = __upstream;\nreturn Err(format!(\"f: UDTF output row not classifiable: a \\\"b\\\"\"));\n"
    );
}

#[test]
fn filter_calls_and_keeps_the_rows() {
    let entry = table_entry(
        "st_dump",
        vec![
            ParamShape::Geom,
            ParamShape::OptionNone,
            ParamShape::ListRecord { kebab_name: "st-entry".to_string() },
            ParamShape::Bool,
        ],
        &[],
        UdtfOutputRow::SingleGeom { column_name: "geom".to_string() },
    );
    let out = emit_udtf_filter_body(&entry, "");
    assert!(out.starts_with(
        "let arg0 = from_wkb(arg_blob(&args, 0, \"st_dump\")?, \"st_dump\")?;\n\
         let arg2 = parse_json_list_record_st_entry(&args, 2, \"st_dump\")?;\n\
         let arg3 = arg_i64(&args, 3, \"st_dump\")? != 0;\n\
         let __upstream = pg_srf::st_dump(&arg0, None, &arg2, arg3)\n    \
         .map_err(|e| format!(\"st_dump: {}\", shim_err_string(e)))?;\n\
         let rows: Vec<Vec<SqlValue>> = __upstream\n"
    ));
    assert!(out.ends_with("        c.idx = 0;\n    }\n});\nOk(())"));
}

#[test]
fn filter_with_a_parameter_that_cannot_be_read_is_an_error() {
    let entry = |p: ParamShape| {
        table_entry("f", vec![ParamShape::F64, p], &[], fields(&[]))
    };
    assert_eq!(
        emit_udtf_filter_body(&entry(ParamShape::Geog), " "),
        " Err(format!(\"f: UDTF param shape not yet wired (Geog)\"))"
    );
    assert_eq!(
        emit_udtf_filter_body(&entry(ParamShape::ListPrim(ListPrimElem::S64)), ""),
        "Err(format!(\"f: UDTF param shape not yet wired (ListPrim(S64))\"))"
    );
    let tuple = ParamShape::ListTuple { elements: vec![ListPrimElem::S32, ListPrimElem::F64] };
    assert_eq!(
        emit_udtf_filter_body(&entry(tuple), ""),
        "Err(format!(\"f: UDTF param shape not yet wired (ListTuple {{ elements: [S32, F64] }})\"))"
    );
}

#[test]
fn names_in_descriptions_are_escaped() {
    for n in 0..128u8 {
        let name = format!("a{}b", n as char);
        assert_eq!(quote(&name), format!("{:?}", name));
    }
    for name in ["", "it's", "caf\u{e9}", "e\u{301}\"", "\u{200b}\n", "\u{1f600}"] {
        assert_eq!(quote(name), format!("{:?}", name));
    }
    let list = ParamShape::ListListRecord { kebab_name: "a\"b\\c\n".to_string() };
    assert_eq!(describe_param(&list), "ListListRecord { kebab_name: \"a\\\"b\\\\c\\n\" }");
    let kind = ParamShape::Enum {
        wit_module: "m\"".to_string(),
        wit_package: "p\t".to_string(),
        kebab_name: "k\\".to_string(),
        cases: strings(&["c\u{1}", "\u{7f}"]),
    };
    assert_eq!(
        describe_param(&kind),
        "Enum { wit_module: \"m\\\"\", wit_package: \"p\\t\", kebab_name: \"k\\\\\", cases: \
         [\"c\\u{1}\", \"\\u{7f}\"] }"
    );
}

#[test]
fn shapes_are_described_with_their_fields() {
    let kind = ParamShape::Enum {
        wit_module: "pg_r".to_string(),
        wit_package: "postgis:wasm".to_string(),
        kebab_name: "pixel-type".to_string(),
        cases: strings(&["one", "two"]),
    };
    assert_eq!(
        describe_param(&kind),
        "Enum { wit_module: \"pg_r\", wit_package: \"postgis:wasm\", kebab_name: \"pixel-type\", \
         cases: [\"one\", \"two\"] }"
    );
    let value = ParamShape::WitValueRecord {
        kebab_name: "t-box".to_string(),
        upstream_by_value: false,
    };
    assert_eq!(
        describe_param(&value),
        "WitValueRecord { kebab_name: \"t-box\", upstream_by_value: false }"
    );
    let list = ParamShape::ListListRecord { kebab_name: "r".to_string() };
    assert_eq!(describe_param(&list), "ListListRecord { kebab_name: \"r\" }");
    let mixed = ParamShape::ListTupleMixed {
        elements: vec![
            ListTupleElem::Prim(ListPrimElem::U8),
            ListTupleElem::Record(TupleRecord {
                wit_package: "a:b".to_string(),
                wit_interface: "i".to_string(),
                kebab_name: "r".to_string(),
            }),
        ],
    };
    assert_eq!(
        describe_param(&mixed),
        "ListTupleMixed { elements: [Prim(U8), Record(TupleRecord { wit_package: \"a:b\", \
         wit_interface: \"i\", kebab_name: \"r\" })] }"
    );
    let entry = table_entry("f", vec![kind], &[], fields(&[]));
    assert!(emit_udtf_filter_body(&entry, "")
        .contains("(Enum {{ wit_module: \\\"pg_r\\\", wit_package: "));
}

#[test]
fn tables_connect_filter_and_yield_columns() {
    let p = plan();
    let entries = inputs().udtf_entries;
    let out = emit_vtab_impl("PostgisBridge", &entries, &build_udtf_id_index(&p));
    assert!(out.contains(
        "            2000000 => Ok(\"CREATE TABLE x(\\\"geom\\\" BLOB, \\\"g\\\" HIDDEN)\".to_string()),\n"
    ));
    assert!(out.contains("            2000000 => {\n                let arg0 = from_wkb("));
    assert!(out.contains("                if (_col as usize) < 1 {\n"));
}

// ─── Records ───

#[test]
fn typed_value_in_hexadecimal() {
    let mut out = String::new();
    push_typed_value_entry(&mut out, &record("t-box", &[], true));
    assert!(out.starts_with(
        "            TypedValueBinding {\n                type_id: alloc::vec![0xff, 0x00, "
    ));
    assert!(out.contains(
        "0x00, 0x0a],\n                symbolic_name: \"postgis:wasm/postgis-types/t-box\".into(),\n                \
         decoder_import: \"t_box-from-canon-cbor\".into(),\n                \
         encoder_import: \"t_box-to-canon-cbor\".into(),\n            },\n"
    ));
}

#[test]
fn codecs_of_records() {
    let records = vec![record("t-box", &[], true), record("st-box", &[], false)];
    let out = emit_serde_ops_impl("post-gis", "B", &records);
    assert!(out.contains("use bindings::exports::sqlink_bridge::post_gis::serde_ops::Guest as SerdeOpsGuest;\n"));
    assert!(out.contains("use bindings::exports::sqlink_bridge::post_gis::serde_ops::{TBox, StBox};\n"));
    assert!(out.contains("    fn st_box_from_canon_cbor(bytes: Vec<u8>) -> Result<StBox, String> {\n"));
    assert!(out.contains("            .map_err(|e| format!(\"post-gis st-box: canon-cbor decode: {e}\"))\n"));
    assert!(out.contains("    fn t_box_to_canon_cbor(value: TBox) -> Vec<u8> {\n"));
    assert!(out.ends_with("}\n\n"));
}

#[test]
fn helpers_of_referenced_records_only() {
    let records = vec![record("t-box", &[], true), record("st-box", &[], false)];
    assert_eq!(emit_wit_value_helpers("postgis", "B", &records, &strings(&["other"])), "");
    let out = emit_wit_value_helpers("postgis", "B", &records, &strings(&["st-box"]));
    assert!(!out.contains("_t_box"));
    assert!(out.contains("fn arg_witvalue_st_box(\n"));
    assert!(out.contains("    let __loc: bindings::exports::sqlink_bridge::postgis::serde_ops::StBox = <B as "));
    let direct = emit_wit_value_helpers("postgis", "B", &records, &strings(&["t-box"]));
    assert!(direct.contains(
        "    ciborium::de::from_reader::<bindings::postgis::wasm::postgis_types::TBox, _>(payload.bytes.as_slice())\n"
    ));
    assert!(!direct.contains("__loc"));
    assert!(direct.contains("fn parse_json_list_record_t_box(\n"));
    assert!(direct.contains("fn ret_to_witvalue_t_box(\n"));
}

#[test]
fn referenced_records_in_order() {
    let value = |name: &str| ParamShape::WitValueRecord {
        kebab_name: name.to_string(),
        upstream_by_value: false,
    };
    let scalars = vec![scalar_entry(
        "f",
        vec![value("z"), ParamShape::ListRecord { kebab_name: "b".to_string() }],
        RetShape::OptionWitValueRecord { kebab_name: "m".to_string() },
    )];
    let kind = AccKind::RecordToScalar {
        input: RecordRef { kebab_name: "k".to_string() },
        output: ScalarReturnKind::F64,
        optional: false,
    };
    let both = AccKind::Record {
        input: RecordRef { kebab_name: "b".to_string() },
        output: RecordRef { kebab_name: "c".to_string() },
    };
    let aggregates = vec![aggregate_entry("a", &[], kind), aggregate_entry("d", &[], both)];
    let tables = vec![table_entry("t", vec![value("a")], &[], fields(&[]))];
    assert_eq!(
        collect_referenced_records(&scalars, &aggregates, &tables),
        strings(&["a", "b", "c", "k", "m", "z"])
    );
}

#[test]
fn tuple_helpers_once_each() {
    let tuple = |elements: Vec<ListPrimElem>| ParamShape::ListTuple { elements };
    let scalars = vec![
        scalar_entry("f", vec![tuple(vec![ListPrimElem::S32, ListPrimElem::F64])], RetShape::Int),
        scalar_entry("g", vec![tuple(vec![ListPrimElem::S32, ListPrimElem::F64])], RetShape::Int),
    ];
    let tables =
        vec![table_entry("t", vec![tuple(vec![ListPrimElem::String])], &[], fields(&[]))];
    let sigs = collect_tuple_list_sigs(&scalars, &vec![], &tables);
    assert_eq!(sigs.len(), 2);
    let out = render_tuple_list_helpers(&sigs);
    assert_eq!(out.matches("fn parse_json_list_tuple_i32_f64(").count(), 1);
    assert!(out.contains("-> Result<Vec<(String,)>, String> {\n"));
    assert!(out.contains("must be JSON array of [s32, f64] tuples ({e})"));
    assert_eq!(render_tuple_list_helpers(&vec![]), "");
}

#[test]
fn helpers_of_resources_name_the_package() {
    assert!(render_raster_helpers("postgis", "wasm")
        .contains("    bindings::postgis::wasm::postgis_raster_types::from_binary(bytes)\n"));
    assert!(render_topology_helpers("a", "b")
        .contains("    bindings::a::b::postgis_topology_types::from_bytes(bytes)\n"));
}

// ─── Reports ───

#[test]
fn reports_of_what_is_not_wired() {
    assert!(report_unwired(&vec![]).is_empty());
    let all = vec![
        UnwiredScalar { sql_name: "f".to_string(), reason: "list".to_string() },
        UnwiredScalar { sql_name: "g".to_string(), reason: "option".to_string() },
    ];
    assert_eq!(
        report_unwired(&all),
        strings(&["[wasm-target] 2 symbol(s) not wired (Phase 3):", "  - f: list", "  - g: option"])
    );
}

#[test]
fn reports_of_records_without_round_trip() {
    assert!(report_direct(&vec![]).is_empty());
    let records = vec![record("t-box", &[], true), record("a", &[], false), record("b", &[], false)];
    let lines = report_direct(&records);
    assert_eq!(lines.len(), 2);
    assert!(lines[0].starts_with("[wasm-target] wit-value codec short-circuit (#523): 1/3 record(s)"));
    assert_eq!(lines[1], "  - non-direct: a, b");
    assert_eq!(report_direct(&vec![record("t-box", &[], true)]).len(), 1);
}

// ─── The whole ───

#[test]
fn preconditions_can_be_tested() {
    let mut i = inputs();
    assert!(are_inputs_wired(&i));
    assert!(do_entries_fit(&i.window_entries));
    assert!(does_plan_fit(&plan(), &i.window_entries));
    i.scalar_entries.push(scalar_entry("f", vec![ParamShape::ListListU8], RetShape::Int));
    assert!(!are_inputs_wired(&i));
    let mut i = inputs();
    i.scalar_entries.push(scalar_entry("f", vec![], RetShape::Unit));
    assert!(!are_inputs_wired(&i));
    let mut i = inputs();
    let input = RecordRef { kebab_name: "r".to_string() };
    i.aggregate_entries.push(aggregate_entry("f", &[], AccKind::RecordToListPrim { input }));
    assert!(!are_inputs_wired(&i));
}

#[test]
fn emitted_source_uses_only_known_modules() {
    let i = inputs();
    let out = lib_rs(&plan(), "postgis-sqlink-bridge", &vec![], &i);
    assert!(out.starts_with("// === GENERATED by sqlink-shim-codegen (target=wasm-component)"));
    assert!(out.contains("//! Bridges postgis onto sqlite:extension/* as a wasm\n"));
    assert!(out.contains("            \"manifest\",\n            \"postgis-error\",\n        ],\n"));
    assert!(out.contains("use bindings::postgis::wasm::postgis_accessors as pg_acc;\n"));
    assert!(out.contains("use bindings::postgis::wasm::postgis_clustering as pg_cluster;\n"));
    assert!(!out.contains(" as pg_srf;"));
    assert!(out.contains("use bindings::postgis::wasm::postgis_types::{Geography, Geometry, PostgisError};\n"));
    assert!(!out.contains("RasterError"));
    assert!(out.contains("const BRIDGE_NAME: &str = \"postgis-sqlink-bridge\";\n"));
    assert!(out.contains("fn postgis_err_string(e: PostgisError) -> String {"));
    assert!(out.contains("// link all\n"));
    assert!(out.contains("fn compute_window_3000000("));
    assert!(out.contains("static WINDOW_STATE: "));
    assert!(!out.contains("AGG_WITVALUE_STATE"));
    assert!(!out.contains("impl SerdeOpsGuest"));
    assert!(out.ends_with("bindings::export!(PostgisBridge with_types_in bindings);\n"));
}

#[test]
fn record_aggregates_bring_their_state() {
    let mut i = inputs();
    i.window_entries = vec![];
    let input = RecordRef { kebab_name: "t-box".to_string() };
    i.aggregate_entries =
        vec![aggregate_entry("st_union", &[], AccKind::RecordToTuple { input, optional: true })];
    let out = lib_rs(&plan(), "c", &vec![record("t-box", &[], true)], &i);
    assert!(out.contains("static AGG_WITVALUE_STATE: "));
    assert!(!out.contains("WINDOW_STATE"));
    assert!(out.contains("fn arg_witvalue_t_box(\n"));
    assert!(out.contains("impl SerdeOpsGuest for PostgisBridge {\n"));
}

#[test]
fn emitted_crate_agrees_with_itself() {
    let records = vec![
        record("t-box", &[("x", "f64")], true),
        record("feature", &[("geom", "geometry")], false),
    ];
    let out = emit(&plan(), records, &inputs());
    assert_eq!(out.crate_name, "postgis-sqlink-bridge");
    assert!(out.world_wit.contains("record t-box {"));
    assert!(out.lib_rs.contains("fn t_box_to_canon_cbor("));
    assert!(!out.world_wit.contains("record feature {"));
    assert!(!out.lib_rs.contains("feature_to_canon_cbor"));
}

#[test]
fn records_of_other_packages_are_left_out() {
    let mut foreign = record("bbox", &[("x", "f64")], true);
    foreign.package = "flatgeobuf:format".to_string();
    let out = emit(&plan(), vec![foreign], &inputs());
    assert!(!out.lib_rs.contains("bbox_to_canon_cbor"));
    assert!(!out.world_wit.contains("record bbox"));
}

#[test]
fn sqlite_crate_names() {
    assert_eq!(sanitize("my ext.x_y-2"), "my-ext-x-y-2");
    assert_eq!(crate_name_for(&plan()), "postgis-sqlink-bridge");
}
