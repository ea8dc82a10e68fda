//! The source of a bridge for DuckDB: its registrations, arms, world and reports.

use shim_bridge_emit::duckdb::checks::are_inputs_wired;
use shim_bridge_emit::duckdb::emit_lib::{
    build_aggregate_arms, build_pragma_dispatch_impl, build_scalar_arms, build_table_arms,
    build_window_arms, build_window_dispatch_impl, collect_referenced_records,
    collect_tuple_list_sigs, lib_rs, list_tuple_mixed_sig_suffix, render_raster_helpers,
    render_topology_helpers, render_tuple_list_helpers, render_tuple_list_mixed_helpers,
    render_wit_value_helpers, BridgeInputs,
};
use shim_bridge_emit::duckdb::emit_wit::{holds_shim_package, render_world, takes_over};
use shim_bridge_emit::duckdb::handle_table;
use shim_bridge_emit::duckdb::lifecycle;
use shim_bridge_emit::duckdb::register;
use shim_bridge_emit::duckdb::reports::{
    report_casts, report_unwired, report_windows, FunctionKind,
};
use shim_bridge_emit::duckdb::{crate_name_for, emit, sanitize};
use shim_bridge_emit::ir::{
    AccKind, AggregateEntry, AggregateShape, BridgePlan, CastRewrite, ColumnAffinity,
    DispatchEntry, DispatchShape, Extension, ListPrimElem, ListTupleElem, ParamShape, RecordRef,
    RecordType, RetShape, ScalarFn, ScalarReturnKind, TupleRecord, UdtfEntry, UdtfField,
    UdtfFieldShape, UdtfOutputRow, UdtfShape, UnwiredScalar, WindowEntry, WindowReturn,
    WindowShape, WitDecl, WitPackage,
};

fn strings(v: &[&str]) -> Vec<String> {
    v.iter().map(|s| s.to_string()).collect()
}

fn cast(target: &str, source: &str, function: &str) -> CastRewrite {
    CastRewrite {
        target_type: target.to_string(),
        source_kind: source.to_string(),
        function_name: function.to_string(),
    }
}

fn plan(casts: Vec<CastRewrite>) -> BridgePlan {
    BridgePlan {
        extensions: vec![Extension {
            name: "postgis".to_string(),
            version: "3.4.0".to_string(),
            scalars: vec![ScalarFn {
                canonical_name: "st_random".to_string(),
                aliases: strings(&["random"]),
                param_signatures: vec![],
                is_deterministic: false,
            }],
            aggregates: vec![],
            table_functions: vec![],
            window_functions: vec![],
            cast_rewrites: casts,
        }],
    }
}

fn scalar_entry(name: &str, params: Vec<ParamShape>, ret: RetShape) -> (DispatchEntry, bool) {
    (
        DispatchEntry {
            sql_name: name.to_string(),
            shape: DispatchShape {
                params,
                ret,
                wit_module: "pg_acc".to_string(),
                wit_func: name.to_string(),
                wit_package: "postgis:wasm".to_string(),
                method_call: None,
            },
        },
        false,
    )
}

fn aggregate_entry(name: &str, aliases: &[&str], accumulator_kind: AccKind) -> AggregateEntry {
    AggregateEntry {
        sql_name: name.to_string(),
        aliases: strings(aliases),
        shape: AggregateShape {
            wit_module: "pg_agg".to_string(),
            wit_func: "st_union".to_string(),
            wit_package: "postgis:wasm".to_string(),
            accumulator_kind,
            extra_args: vec![],
            ret: RetShape::GeomBlob,
        },
    }
}

fn table_entry(name: &str, params: Vec<ParamShape>, output_row: UdtfOutputRow) -> UdtfEntry {
    UdtfEntry {
        sql_name: name.to_string(),
        shape: UdtfShape {
            params,
            param_names: vec![],
            wit_module: "pg_srf".to_string(),
            wit_func: "st_dump".to_string(),
            wit_package: "postgis:wasm".to_string(),
            fallible: true,
            output_row,
        },
    }
}

fn window_entry(name: &str, extra_args: Vec<ParamShape>, returns: WindowReturn) -> WindowEntry {
    WindowEntry {
        sql_name: name.to_string(),
        shape: WindowShape {
            wit_module: "pg_cluster".to_string(),
            wit_func: "st_cluster_kmeans".to_string(),
            wit_package: "postgis:wasm".to_string(),
            extra_args,
            fallible: true,
            returns,
        },
    }
}

fn package(ns_name: &str) -> WitPackage {
    WitPackage {
        ns_name: ns_name.to_string(),
        version: "0.1.0".to_string(),
        interfaces: vec![],
        records: vec![],
        resources: vec![],
        variants: vec![],
        enums: vec![],
        flags: vec![],
        type_aliases: vec![],
    }
}

fn decl(name: &str) -> WitDecl {
    WitDecl { interface: "postgis-types".to_string(), kebab_name: name.to_string() }
}

fn record(name: &str) -> RecordType {
    let snake = name.replace('-', "_");
    RecordType {
        package: "postgis:wasm".to_string(),
        package_version: "0.1.0".to_string(),
        interface: "postgis-types".to_string(),
        kebab_name: name.to_string(),
        fields: vec![],
        type_id: [0u8; 32],
        symbolic_name: format!("postgis:wasm@0.1.0/postgis-types/{name}"),
        is_copy: true,
        direct: true,
        kebab_collides_in_pkg: false,
        snake_name: snake.clone(),
        helper_snake: snake,
        decoder_import: String::new(),
        encoder_import: String::new(),
    }
}

fn geom_row() -> UdtfOutputRow {
    UdtfOutputRow::SingleGeom { column_name: "geom".to_string() }
}

fn record_kind(name: &str) -> AccKind {
    AccKind::RecordToScalar {
        input: RecordRef { kebab_name: name.to_string() },
        output: ScalarReturnKind::F64,
        optional: false,
    }
}

fn inputs() -> BridgeInputs {
    let mut postgis = package("postgis:wasm");
    postgis.interfaces = strings(&["postgis-types", "postgis-accessors"]);
    postgis.resources.push(decl("geometry"));
    postgis.variants.push(decl("postgis-error"));
    postgis.records.push(decl("t-box"));
    let mut helper = package("sfcgal:component");
    helper.records.push(decl("mesh"));
    let mut contract = package("duckdb:extension");
    contract.variants.push(decl("duckvalue"));
    BridgeInputs {
        shim_packages: vec![postgis, helper],
        duckdb_package: contract,
        records: vec![record("t-box")],
        module_idents: vec![("pg_acc".to_string(), "postgis_accessors".to_string())],
        scalar_entries: vec![scalar_entry("st_area", vec![ParamShape::Geom], RetShape::Real)],
        aggregate_entries: vec![],
        udtf_entries: vec![],
        window_entries: vec![],
    }
}

// ─── Types ───

#[test]
fn logical_types_of_parameters() {
    let of = |p: ParamShape| register::paramshape_to_logicaltype(&p);
    assert_eq!(of(ParamShape::Bool), "types::Logicaltype::Boolean");
    assert_eq!(of(ParamShape::U64), "types::Logicaltype::Int64");
    assert_eq!(of(ParamShape::F64), "types::Logicaltype::Float64");
    assert_eq!(of(ParamShape::Geom), "types::Logicaltype::Blob");
    assert_eq!(of(ParamShape::ListGeom), "types::Logicaltype::Blob");
    assert_eq!(of(ParamShape::ListListU8), "types::Logicaltype::Text");
    assert_eq!(of(ParamShape::OptionNone), "types::Logicaltype::Text");
    let value = ParamShape::WitValueRecord {
        kebab_name: "t-box".to_string(),
        upstream_by_value: true,
    };
    assert_eq!(of(value), "types::Logicaltype::Complex(\"VARCHAR\".into())");
}

#[test]
fn logical_types_of_results() {
    let of = |r: RetShape| register::retshape_to_logicaltype(&r);
    assert_eq!(of(RetShape::BoolInt), "types::Logicaltype::Boolean");
    assert_eq!(of(RetShape::FirstOptionU32Int), "types::Logicaltype::Int64");
    assert_eq!(of(RetShape::Bbox3dWkbLineZ), "types::Logicaltype::Blob");
    assert_eq!(of(RetShape::Unit), "types::Logicaltype::Blob");
    assert_eq!(of(RetShape::ListBool), "types::Logicaltype::Text");
    let pick = |elem: ListPrimElem| of(RetShape::TuplePick { index: 0, elem });
    assert_eq!(pick(ListPrimElem::Bool), "types::Logicaltype::Boolean");
    assert_eq!(pick(ListPrimElem::U8), "types::Logicaltype::Int64");
    assert_eq!(pick(ListPrimElem::F32), "types::Logicaltype::Float64");
    assert_eq!(pick(ListPrimElem::String), "types::Logicaltype::Text");
}

// ─── Registrations ───

#[test]
fn scalars_register_under_their_arms() {
    let entries = vec![
        scalar_entry("st_area", vec![ParamShape::Geom, ParamShape::Bool], RetShape::Real),
        scalar_entry("st_area", vec![], RetShape::Int),
        scalar_entry("random", vec![], RetShape::Real),
    ];
    let out = register::render(&plan(vec![]), &entries);
    assert!(out.starts_with("\nfn register_scalars() -> Result<(), types::Duckerror> {\n"));
    assert!(out.ends_with("    Ok(())\n}\n"));
    assert_eq!(out.matches(".insert(handle, 0usize);").count(), 1);
    assert_eq!(out.matches(".insert(handle, 1usize);").count(), 1);
    assert!(!out.contains("2usize"));
    assert!(out.contains(
        "            runtime::Funcarg {\n                name: Some(\"arg1\".into()),\n                \
         logical: types::Logicaltype::Boolean,\n            },\n        ];\n"
    ));
    let second = out.find("\"random\",").unwrap();
    let attributes = "attributes: types::Funcflags::STATELESS,";
    assert!(out.find(attributes).unwrap() < second);
    assert_eq!(out.matches(attributes).count(), 1);
    assert!(out.contains("attributes: types::Funcflags::DETERMINISTIC | types::Funcflags::STATELESS,"));
    let (arms, count) = build_scalar_arms(&entries);
    assert_eq!(count, 2);
    assert!(arms.contains("            1usize => {\n                Ok(types::Duckvalue::Float64(pg_acc::random()))\n\n            }\n"));
}

#[test]
fn aggregates_register_under_their_arms() {
    let entries = vec![
        aggregate_entry("count_rec", &[], record_kind("x")),
        aggregate_entry("st_union", &["st_union_agg"], AccKind::Geom),
    ];
    let out = register::render_aggregates(&plan(vec![]), &entries);
    assert!(!out.contains("count_rec"));
    let (arms, count) = build_aggregate_arms(&entries);
    assert_eq!(count, 3);
    assert!(arms.contains("            2usize => {\n"));
    let canonical = out.find(".insert(handle, 1usize);").unwrap();
    let alias = out.find(".insert(handle, 2usize);").unwrap();
    assert!(canonical < out.find("\"st_union\",").unwrap());
    assert!(alias < out.find("\"st_union_agg\",").unwrap());
    assert!(!out.contains("0usize"));
}

#[test]
fn windows_register_under_their_arms() {
    let entries = vec![
        window_entry("st_k", vec![ParamShape::U32], WindowReturn::OptionU32),
        window_entry("st_k", vec![], WindowReturn::U32),
        window_entry("st_c", vec![], WindowReturn::GeomBlob),
    ];
    let out = register::render_windows(&entries);
    assert!(out.contains(".insert(handle, 1usize);"));
    assert!(!out.contains(".insert(handle, 2usize);"));
    assert!(out.contains("            &types::Logicaltype::Blob,\n"));
    assert!(out.contains("description: Some(\"st_c (sqlink-shim-codegen window)\".into()),"));
    let (arms, count) = build_window_arms(&entries);
    assert_eq!(count, 2);
    assert!(arms.contains("            1usize => {\n"));
}

#[test]
fn tables_register_their_columns() {
    let fields = UdtfOutputRow::Record {
        fields: vec![
            UdtfField {
                name: "a\"b".to_string(),
                affinity: ColumnAffinity::Text,
                field_shape: UdtfFieldShape::OptionReal,
            },
            UdtfField {
                name: "c".to_string(),
                affinity: ColumnAffinity::Text,
                field_shape: UdtfFieldShape::Unsupported,
            },
        ],
    };
    let entries = vec![
        table_entry("st_dump", vec![ParamShape::Geom], geom_row()),
        table_entry("join", vec![], fields),
        table_entry("later", vec![], UdtfOutputRow::Unwired { reason: "r".to_string() }),
    ];
    let out = register::render_tables(&plan(vec![]), &entries);
    let column = |name: &str, logical: &str| {
        format!(
            "            runtime::Columndef {{\n                name: \"{name}\".into(),\n                \
             logical: types::Logicaltype::{logical},\n            }},\n"
        )
    };
    assert!(out.contains(&column("geom", "Blob")));
    assert!(out.contains(&column("a\\\"b", "Float64")));
    assert!(out.contains(&column("c", "Blob")));
    assert!(out.contains(&column("value", "Blob")));
    assert!(out.contains(".insert(handle, 2usize);"));
    let (arms, count) = build_table_arms(&entries);
    assert_eq!(count, 3);
    assert!(arms.contains("            0usize => {\n                let arg0 = from_wkb("));
}

#[test]
fn casts_run_the_arm_of_their_function() {
    let entries = vec![
        scalar_entry("st_area", vec![], RetShape::Real),
        scalar_entry("st_geomfromtext", vec![], RetShape::GeomBlob),
    ];
    let casts = vec![
        cast("geometry", "castsourcekind::stringliteral", "st_geomfromtext"),
        cast("geography", "castsourcekind::geographycolumn", "st_area"),
        cast("box2d", "other", "st_area"),
        cast("geometry", "castsourcekind::any", "missing"),
    ];
    let (out, unwired) = register::render_casts(&plan(casts), &entries);
    assert!(out.starts_with("\nfn register_casts() -> Result<(), types::Duckerror> {\n"));
    assert!(out.contains(
        "        // CAST(<castsourcekind::stringliteral> AS GEOMETRY) -> st_geomfromtext\n"
    ));
    assert!(out.contains(
        "            from: \"VARCHAR\".into(),\n            to: \"GEOMETRY\".into(),\n            \
         kind: catalog::CastKind::Implicit,\n"
    ));
    assert!(out.contains(
        "            from: \"GEOGRAPHY\".into(),\n            to: \"GEOGRAPHY\".into(),\n            \
         kind: catalog::CastKind::Explicit,\n"
    ));
    assert!(out.contains("            from: \"BLOB\".into(),\n            to: \"BOX2D\".into(),\n"));
    assert_eq!(out.matches(".insert(handle, 1usize);").count(), 1);
    assert_eq!(out.matches(".insert(handle, 0usize);").count(), 2);
    assert_eq!(unwired.len(), 1);
    assert_eq!(
        report_casts(&unwired),
        strings(&[
            "[duckdb-target] 1 cast(s) not wired (function not in scalar registry):",
            "  - CAST(<castsourcekind::any> AS geometry) -> missing",
        ])
    );
    assert!(report_casts(&vec![]).is_empty());
}

#[test]
fn casts_to_a_type_beyond_ascii() {
    let entries = vec![scalar_entry("f", vec![], RetShape::Real)];
    let (out, _) = register::render_casts(&plan(vec![cast("stra\u{df}e", "x", "f")]), &entries);
    assert!(out.contains("            to: \"STRASSE\".into(),\n"));
}

// ─── Pieces ───

#[test]
fn load_registers_what_there_is() {
    let p = plan(vec![]);
    let all = lifecycle::render("B", &p, true, true, true, true, true);
    assert!(all.contains("        register_logical_types()?;\n        register_scalars()?;\n"));
    assert!(all.contains(
        "        register_aggregates()?;\n        register_tables()?;\n        \
         register_casts()?;\n        register_windows()?;\n        Ok(types::Loadresult {\n            \
         name: \"postgis\".into(),\n            version: Some(\"3.4.0\".into()),\n"
    ));
    let none = lifecycle::render("B", &p, false, false, false, false, false);
    assert!(none.contains("        register_scalar_tvfs()?;\n        Ok(types::Loadresult {\n"));
}

#[test]
fn handle_tables_that_are_used_are_defined() {
    let tables = handle_table::render();
    assert_eq!(tables.matches("_handle_table()").count(), 3);
    let mut i = inputs();
    i.aggregate_entries.push(aggregate_entry("st_union", &[], AccKind::Geom));
    i.udtf_entries.push(table_entry("st_dump", vec![ParamShape::Geom], geom_row()));
    i.window_entries.push(window_entry("st_k", vec![], WindowReturn::U32));
    let out = lib_rs(&plan(vec![cast("geometry", "x", "st_area")]), "c", &i).source;
    assert!(out.contains(&tables));
    for family in ["", "aggregate_", "table_", "window_"] {
        assert!(tables.contains(&format!("fn {family}handle_table() -> ")));
        assert!(out.contains(&format!(
            "Ordering::Relaxed);\n        {family}handle_table()\n            .lock()\n"
        )));
        assert!(out.contains(&format!("let arm_idx = {family}handle_table()\n            .lock()\n")));
    }
    let windows = register::render_windows(&i.window_entries);
    assert!(windows.contains("        window_handle_table()\n"));
    assert!(!windows.contains("        handle_table()\n"));
}

#[test]
fn primary_records_keep_their_derives() {
    let mut i = inputs();
    i.shim_packages[0].records.push(decl("bbox"));
    i.shim_packages[1].records.push(decl("bbox"));
    let out = lib_rs(&plan(vec![]), "c", &i).source;
    assert!(!out.contains("            \"bbox\",\n"));
    assert!(out.contains("            \"mesh\",\n"));
    i.shim_packages[1].flags.push(decl("bbox"));
    let out = lib_rs(&plan(vec![]), "c", &i).source;
    assert!(out.contains("            \"bbox\",\n"));
    let mut i = inputs();
    i.shim_packages[0].records.push(decl("bbox"));
    i.duckdb_package.records.push(decl("bbox"));
    let out = lib_rs(&plan(vec![]), "c", &i).source;
    assert!(out.contains("            \"bbox\",\n"));
}

#[test]
fn modules_of_windows_are_imported() {
    let mut i = inputs();
    i.module_idents.push(("pg_cluster".to_string(), "postgis_clustering".to_string()));
    let line = "use bindings::postgis::wasm::postgis_clustering as pg_cluster;\n";
    assert!(!lib_rs(&plan(vec![]), "c", &i).source.contains(line));
    i.window_entries.push(window_entry("st_k", vec![], WindowReturn::U32));
    assert!(lib_rs(&plan(vec![]), "c", &i).source.contains(line));
}

#[test]
fn dispatch_names_the_shim() {
    assert!(build_pragma_dispatch_impl("postgis").contains(
        "\"postgis pragma dispatch: not implemented (no pragmas registered by this bridge)\""
    ));
    let none = build_window_dispatch_impl("postgis", "B", &vec![]);
    assert!(none.contains("        _partition: Vec<Vec<types::Duckvalue>>,\n        _frame: "));
    let one = build_window_dispatch_impl(
        "postgis",
        "B",
        &vec![window_entry("st_k", vec![], WindowReturn::U32)],
    );
    assert!(one.contains("        partition: Vec<Vec<types::Duckvalue>>,\n        frame: "));
    assert!(one.contains("\"postgis: aggregate-incr update not wired\""));
}

#[test]
fn helpers_of_tuples() {
    let tuple = |elements: Vec<ListPrimElem>| ParamShape::ListTuple { elements };
    let entries = vec![scalar_entry(
        "f",
        vec![
            tuple(vec![ListPrimElem::S32, ListPrimElem::S32]),
            tuple(vec![ListPrimElem::S32, ListPrimElem::S32]),
        ],
        RetShape::Int,
    )];
    let sigs = collect_tuple_list_sigs(&entries);
    assert_eq!(sigs.len(), 1);
    assert!(render_tuple_list_helpers(&sigs).contains("fn parse_json_list_tuple_i32_i32("));
    assert_eq!(render_tuple_list_helpers(&vec![]), "");
}

#[test]
fn helpers_of_tuples_with_records() {
    let elements = || {
        vec![
            ListTupleElem::Prim(ListPrimElem::String),
            ListTupleElem::Record(TupleRecord {
                wit_package: "mobility-db:temporal".to_string(),
                wit_interface: "t-types".to_string(),
                kebab_name: "tfloat-sequence".to_string(),
            }),
        ]
    };
    assert_eq!(list_tuple_mixed_sig_suffix(&elements()), "string_tfloat_sequence");
    let entries = vec![
        scalar_entry("f", vec![ParamShape::ListTupleMixed { elements: elements() }], RetShape::Int),
        scalar_entry("g", vec![ParamShape::ListTupleMixed { elements: elements() }], RetShape::Int),
    ];
    let out = render_tuple_list_mixed_helpers(&entries);
    assert_eq!(out.matches("fn parse_json_list_tuple_string_tfloat_sequence(").count(), 1);
    assert!(out.contains("Result<Vec<(String, bindings::mobility_db::temporal::t_types::TfloatSequence)>, "));
    assert!(out.contains("must be JSON array of [string, tfloat-sequence] tuples ({e})"));
}

#[test]
fn duckdb_helpers_of_referenced_records() {
    let records = vec![record("t-box"), record("st-box")];
    assert_eq!(render_wit_value_helpers(&records, "postgis", &strings(&["x"])), "");
    let out = render_wit_value_helpers(&records, "postgis", &strings(&["t-box"]));
    assert!(out.contains("fn arg_witvalue_t_box("));
    assert!(out.contains("bindings::postgis::wasm::postgis_types::TBox"));
    assert!(!out.contains("st_box"));
    let entries = vec![scalar_entry(
        "f",
        vec![ParamShape::ListRecord { kebab_name: "b".to_string() }],
        RetShape::FirstWitValueRecord { kebab_name: "a".to_string() },
    )];
    let aggregates = vec![aggregate_entry("g", &[], record_kind("c"))];
    assert_eq!(collect_referenced_records(&entries, &aggregates), strings(&["a", "b", "c"]));
}

#[test]
fn duckdb_helpers_of_resources_name_the_package() {
    assert!(render_raster_helpers("postgis", "wasm").contains("bindings::postgis::wasm::postgis_raster_types::"));
    assert!(render_topology_helpers("a", "b").contains("bindings::a::b::postgis_topology_types::"));
}

// ─── World ───

#[test]
fn duckdb_world_imports_every_interface() {
    let i = inputs();
    let out = render_world("postgis", &i.shim_packages, &i.duckdb_package);
    assert!(out.contains("import postgis:wasm/postgis-types@0.1.0;"));
    assert!(out.contains("import postgis:wasm/postgis-accessors@0.1.0;"));
    assert!(out.contains("import duckdb:extension/runtime@0.1.0;"));
    assert!(out.contains("export duckdb:extension/guest@0.1.0;"));
    assert!(out.contains("export duckdb:extension/aggregate-incr-dispatch@0.1.0;"));
}

#[test]
fn duckdb_directories_of_packages() {
    assert!(takes_over("postgis-wasm"));
    assert!(takes_over("duckdb-extension"));
    assert!(!takes_over("sqlite-extension"));
    assert!(holds_shim_package("postgis-wasm"));
    assert!(!holds_shim_package("duckdb-extension"));
}

// ─── Reports ───

#[test]
fn duckdb_reports() {
    let all = vec![UnwiredScalar { sql_name: "f".to_string(), reason: "why".to_string() }];
    assert_eq!(
        report_unwired(FunctionKind::Scalar, &all),
        strings(&["[duckdb-target] 1 scalar(s) not wired:", "  - f: why"])
    );
    assert_eq!(
        report_unwired(FunctionKind::Table, &all)[0],
        "[duckdb-target] 1 table function(s) not wired:"
    );
    assert!(report_unwired(FunctionKind::Window, &vec![]).is_empty());
    assert_eq!(
        report_windows(&vec![window_entry("w", vec![], WindowReturn::U32)]),
        strings(&[
            "[duckdb-target] 1 window function(s) wired via aggregate-incr-dispatch (#661):",
            "  - w",
        ])
    );
}

// ─── The whole ───

#[test]
fn duckdb_preconditions_can_be_tested() {
    let mut i = inputs();
    assert!(are_inputs_wired(&i));
    i.scalar_entries.push(scalar_entry("f", vec![], RetShape::Unit));
    assert!(are_inputs_wired(&i));
    i.udtf_entries.push(table_entry(
        "t",
        vec![ParamShape::ListListRecord { kebab_name: "r".to_string() }],
        geom_row(),
    ));
    assert!(!are_inputs_wired(&i));
    let mut i = inputs();
    i.scalar_entries
        .push(scalar_entry("f", vec![ParamShape::ListTupleMixed { elements: vec![] }], RetShape::Int));
    assert!(!are_inputs_wired(&i));
}

#[test]
fn duckdb_source_holds_what_there_is() {
    let i = inputs();
    let out = lib_rs(&plan(vec![]), "c", &i).source;
    assert!(out.starts_with("// === GENERATED by sqlink-shim-codegen (target=duckdb)"));
    assert!(out.contains(
        "            \"duckvalue\",\n            \"mesh\",\n            \"postgis-error\",\n        ],\n"
    ));
    assert!(out.contains("use bindings::postgis::wasm::postgis_accessors as pg_acc;\n"));
    assert!(out.contains("struct PostgisBridge;\n"));
    assert!(out.contains("\"postgis: casts not wired (no cast_rewrites in IR)\""));
    assert!(!out.contains("fn register_aggregates()"));
    assert!(!out.contains("fn register_casts()"));
    assert!(!out.contains("register_logical_types"));
    assert!(out.ends_with("\nbindings::export!(PostgisBridge with_types_in bindings);\n"));
}

#[test]
fn duckdb_source_registers_each_kind() {
    let mut i = inputs();
    i.aggregate_entries.push(aggregate_entry("st_union", &[], AccKind::Geom));
    i.udtf_entries.push(table_entry("st_dump", vec![ParamShape::Geom], geom_row()));
    i.window_entries.push(window_entry("st_k", vec![], WindowReturn::U32));
    let lib = lib_rs(
        &plan(vec![cast("geometry", "x", "st_area"), cast("g", "x", "none")]),
        "c",
        &i,
    );
    for name in ["register_aggregates", "register_tables", "register_casts", "register_windows"] {
        assert!(lib.source.contains(&format!("fn {name}() -> Result<(), types::Duckerror> {{\n")));
        assert!(lib.source.contains(&format!("        {name}()?;\n")));
    }
    assert_eq!(lib.unwired_casts.len(), 1);
    assert_eq!(lib.unwired_casts[0].function_name, "none");
}

#[test]
fn duckdb_emitted_crate() {
    let out = emit(&plan(vec![]), &inputs());
    assert_eq!(out.crate_name, "postgis-ducklink-bridge");
    assert!(out.world_wit.contains("world bridge"));
    assert!(out.lib_rs.contains("impl callback_dispatch::Guest for PostgisBridge {\n"));
    assert!(out.unwired_casts.is_empty());
    assert_eq!(crate_name_for(&BridgePlan { extensions: vec![] }), "shim-ducklink-bridge");
    assert_eq!(sanitize("a_b c"), "a-b-c");
}
