//! The arms of a bridge for DuckDB.

use shim_bridge_emit::duckdb::dispatch::{
    emit_aggregate_arm_body, emit_scalar_arm_body, emit_udtf_call_body, emit_udtf_param_marshal,
    emit_window_arm_body, render_return_expr,
};
use shim_bridge_emit::duckdb::register::{paramshape_to_logicaltype, retshape_to_logicaltype};
use shim_bridge_emit::ir::{
    AccKind, AggregateShape, ColumnAffinity, DispatchShape, JsonRetKind, ListPrimElem, MethodCall,
    ParamShape, RecordRef, RetShape, ScalarReturnKind, UdtfField, UdtfFieldShape, UdtfOutputRow,
    UdtfShape, WindowReturn, WindowShape,
};

fn scalar(params: Vec<ParamShape>, ret: RetShape) -> DispatchShape {
    DispatchShape {
        params,
        ret,
        wit_module: "pg_acc".to_string(),
        wit_func: "st_f".to_string(),
        wit_package: "postgis:wasm".to_string(),
        method_call: None,
    }
}

fn agg(accumulator_kind: AccKind, extra_args: Vec<ParamShape>, ret: RetShape) -> AggregateShape {
    AggregateShape {
        wit_module: "pg_agg".to_string(),
        wit_func: "st_union".to_string(),
        wit_package: "postgis:wasm".to_string(),
        accumulator_kind,
        extra_args,
        ret,
    }
}

fn table(params: Vec<ParamShape>, fallible: bool, output_row: UdtfOutputRow) -> UdtfShape {
    UdtfShape {
        params,
        param_names: vec![],
        wit_module: "pg_srf".to_string(),
        wit_func: "st_dump".to_string(),
        wit_package: "postgis:wasm".to_string(),
        fallible,
        output_row,
    }
}

fn window(extra_args: Vec<ParamShape>, fallible: bool, returns: WindowReturn) -> WindowShape {
    WindowShape {
        wit_module: "pg_cl".to_string(),
        wit_func: "st_k".to_string(),
        wit_package: "postgis:wasm".to_string(),
        extra_args,
        fallible,
        returns,
    }
}

fn rec(name: &str) -> RecordRef {
    RecordRef { kebab_name: name.to_string() }
}

#[test]
fn duckdb_arm_reads_each_plain_parameter() {
    let shape = scalar(
        vec![
            ParamShape::Text,
            ParamShape::F64,
            ParamShape::S32,
            ParamShape::S64,
            ParamShape::U32,
            ParamShape::U64,
            ParamShape::Bool,
            ParamShape::Blob,
            ParamShape::OptionNone,
        ],
        RetShape::Text,
    );
    assert_eq!(
        emit_scalar_arm_body(&shape, false, "st_f", "  "),
        "  let arg0 = dv_text(&args, 0, \"st_f\")?;\n\
         \x20 let arg1 = dv_f64(&args, 1, \"st_f\")?;\n\
         \x20 let arg2 = dv_i64(&args, 2, \"st_f\")? as i32;\n\
         \x20 let arg3 = dv_i64(&args, 3, \"st_f\")?;\n\
         \x20 let arg4 = dv_i64(&args, 4, \"st_f\")? as u32;\n\
         \x20 let arg5 = dv_i64(&args, 5, \"st_f\")? as u64;\n\
         \x20 let arg6 = dv_bool(&args, 6, \"st_f\")?;\n\
         \x20 let arg7 = dv_blob(&args, 7, \"st_f\")?;\n\
         \x20 Ok(types::Duckvalue::Text((pg_acc::st_f(arg0, arg1, arg2, arg3, arg4, arg5, arg6, \
         arg7, None)).into()))\n"
    );
}

#[test]
fn duckdb_arm_reads_resources_lists_and_records() {
    let shape = scalar(
        vec![
            ParamShape::Geom,
            ParamShape::Geog,
            ParamShape::Raster,
            ParamShape::Topology,
            ParamShape::ListRecord { kebab_name: "int-span".to_string() },
            ParamShape::ListPrim(ListPrimElem::F32),
            ParamShape::ListTuple { elements: vec![ListPrimElem::S32] },
            ParamShape::ListListU8,
            ParamShape::ListListPrim(ListPrimElem::String),
            ParamShape::WitValueRecord {
                kebab_name: "t-box".to_string(),
                upstream_by_value: true,
            },
            ParamShape::WitValueRecord {
                kebab_name: "st-box".to_string(),
                upstream_by_value: false,
            },
        ],
        RetShape::BoolInt,
    );
    assert_eq!(
        emit_scalar_arm_body(&shape, true, "f", ""),
        "let arg0 = from_wkb(dv_blob(&args, 0, \"f\")?, \"f\")?;\n\
         let arg1 = geog_from_wkb(dv_blob(&args, 1, \"f\")?, \"f\")?;\n\
         let arg2 = from_raster_binary(dv_blob(&args, 2, \"f\")?, \"f\")?;\n\
         let arg3 = from_topology_bytes(dv_blob(&args, 3, \"f\")?, \"f\")?;\n\
         let arg4 = parse_json_list_record_int_span(&args, 4, \"f\")?;\n\
         let arg5: Vec<f32> = parse_json_list_f32(&args, 5, \"f\")?;\n\
         let arg6: Vec<(i32,)> = parse_json_list_tuple_i32(&args, 6, \"f\")?;\n\
         let arg7: Vec<Vec<u8>> = parse_json_list_list_u8(&args, 7, \"f\")?;\n\
         let arg8: Vec<Vec<String>> = parse_json_list_list_string(&args, 8, \"f\")?;\n\
         let arg9 = arg_witvalue_t_box(&args, 9, \"f\")?;\n\
         let arg10 = arg_witvalue_st_box(&args, 10, \"f\")?;\n\
         Ok(types::Duckvalue::Boolean(pg_acc::st_f(&arg0, &arg1, &arg2, &arg3, &arg4, &arg5, \
         &arg6, &arg7, &arg8, arg9, &arg10).map_err(|e| \
         types::Duckerror::Invalidargument(format!(\"f: {}\", shim_err_string(e))))?))\n"
    );
}

#[test]
fn duckdb_list_of_geometries_last_or_not() {
    let last = emit_scalar_arm_body(&scalar(vec![ParamShape::ListGeom], RetShape::Int), false, "c", "");
    assert!(last.starts_with("let arg0_owned: Vec<Geometry> = args[0..]\n    .iter()\n"));
    assert!(last.contains("            format!(\"c: arg {} must be BLOB\", 0 + j))),\n"));
    let first = scalar(vec![ParamShape::ListGeom, ParamShape::Text], RetShape::Int);
    assert!(emit_scalar_arm_body(&first, false, "c", "")
        .starts_with("let arg0_one = from_wkb(dv_blob(&args, 0, \"c\")?, \"c\")?;\n"));
}

#[test]
fn duckdb_arm_maps_enums_both_ways() {
    let cases = vec!["one-bb".to_string(), "two".to_string()];
    let param = ParamShape::Enum {
        wit_module: "pg_r".to_string(),
        wit_package: "postgis:wasm".to_string(),
        kebab_name: "pixel-type".to_string(),
        cases: cases.clone(),
    };
    let ret = RetShape::Enum {
        wit_module: "pg_r".to_string(),
        wit_package: "postgis:wasm".to_string(),
        kebab_name: "pixel-type".to_string(),
        cases,
    };
    assert_eq!(
        emit_scalar_arm_body(&scalar(vec![param], ret), false, "px", ""),
        "let arg0 = match dv_i64(&args, 0, \"px\")? {\n    0 => pg_r::PixelType::OneBb,\n    1 => \
         pg_r::PixelType::Two,\n    other => return \
         Err(types::Duckerror::Invalidargument(format!(\n        \"px: arg 0 (pixel-type) out of \
         range: {} (valid 0..2)\",\n        other,\n    ))),\n};\n{\n    let __r = \
         pg_acc::st_f(arg0);\n    let __disc: i64 = match __r {\n        pg_r::PixelType::OneBb => \
         0,\n        pg_r::PixelType::Two => 1,\n    };\n    \
         Ok(types::Duckvalue::Int64(__disc))\n}\n"
    );
}

#[test]
fn duckdb_methods_and_constructors() {
    let mut method = scalar(vec![ParamShape::Raster, ParamShape::Bool], RetShape::Real);
    method.method_call =
        Some(MethodCall { is_constructor: false, resource_kebab: "raster".to_string() });
    assert!(emit_scalar_arm_body(&method, false, "n", "")
        .ends_with("Ok(types::Duckvalue::Float64(arg0.st_f(arg1)))\n"));
    method.method_call =
        Some(MethodCall { is_constructor: true, resource_kebab: "ras-ter".to_string() });
    assert!(emit_scalar_arm_body(&method, false, "n", "")
        .ends_with("Ok(types::Duckvalue::Float64(RasTer::new(&arg0, arg1)))\n"));
}

#[test]
fn duckdb_results_of_each_kind() {
    let plain = |ret: RetShape| render_return_expr(&ret, "m::f()", "", "f", "");
    let fallible = |ret: RetShape| render_return_expr(&ret, "m::f()", "?", "f", "");
    assert_eq!(plain(RetShape::Int), "Ok(types::Duckvalue::Int64(m::f() as i64))");
    assert_eq!(plain(RetShape::Blob), "Ok(types::Duckvalue::Blob((m::f()).into()))");
    assert_eq!(plain(RetShape::GeomBlob), "Ok(types::Duckvalue::Blob(m::f().as_wkb().into()))");
    assert_eq!(
        fallible(RetShape::GeomBlob),
        "{\n    let __r = m::f()?;\n    Ok(types::Duckvalue::Blob(__r.as_wkb().into()))\n}"
    );
    assert_eq!(
        plain(RetShape::TopoGeometryViaGeom),
        "Ok(types::Duckvalue::Blob(m::f().geometry().as_wkb().into()))"
    );
    assert_eq!(
        plain(RetShape::OptionBoolInt),
        "Ok(match m::f() {\n    Some(v) => types::Duckvalue::Boolean(v),\n    None => \
         types::Duckvalue::Null,\n})"
    );
    assert!(plain(RetShape::FirstOptionU32Int)
        .contains("Some(Some(v)) => Ok(types::Duckvalue::Int64(*v as i64)),\n"));
    assert_eq!(fallible(RetShape::Unit), "let _ = m::f()?;\nOk(types::Duckvalue::Null)");
    assert_eq!(plain(RetShape::ListBool), plain(RetShape::ListListU8));
    assert_eq!(
        plain(RetShape::ListBool),
        plain(RetShape::JsonText { kind: JsonRetKind::TuplePrim })
    );
    assert_eq!(
        plain(RetShape::TuplePick { index: 3, elem: ListPrimElem::String }),
        "{\n    let __r = m::f();\n    Ok(types::Duckvalue::Text(__r.3.into()))\n}"
    );
    assert_eq!(
        plain(RetShape::TuplePick { index: 1, elem: ListPrimElem::Bool }),
        "{\n    let __r = m::f();\n    Ok(types::Duckvalue::Boolean(__r.1))\n}"
    );
    assert_eq!(
        plain(RetShape::TuplePick { index: 2, elem: ListPrimElem::U8 }),
        "{\n    let __r = m::f();\n    Ok(types::Duckvalue::Int64(__r.2 as i64))\n}"
    );
    assert_eq!(
        plain(RetShape::TuplePick { index: 0, elem: ListPrimElem::F32 }),
        "{\n    let __r = m::f();\n    Ok(types::Duckvalue::Float64(__r.0 as f64))\n}"
    );
    assert_eq!(
        plain(RetShape::WitValueRecord { kebab_name: "t-box".to_string() }),
        "ret_to_witvalue_t_box(m::f())"
    );
}

#[test]
fn duckdb_aggregate_of_geometries() {
    assert_eq!(
        emit_aggregate_arm_body(&agg(AccKind::Geom, vec![], RetShape::GeomBlob), "a", ""),
        "let mut blobs: Vec<Vec<u8>> = Vec::with_capacity(rows.len());\n\
         for row in &rows {\n    if row.is_empty() { continue; }\n    if matches!(row[0], \
         types::Duckvalue::Null) { continue; }\n    let bytes = dv_blob(row, 0, \"a\")?;\n    \
         blobs.push(bytes.to_vec());\n}\n\
         let resources: Vec<Geometry> = blobs.iter()\n    .map(|b| Geometry::from_wkb(b))\n    \
         .collect::<Result<Vec<_>, _>>()\n    .map_err(|e| types::Duckerror::Invalidargument(\n        \
         format!(\"a: {}\", postgis_err_string(e))))?;\n\
         let refs: Vec<&Geometry> = resources.iter().collect();\n\
         let r = pg_agg::st_union(&refs)\n    .map_err(|e| types::Duckerror::Invalidargument(\n        \
         format!(\"a: {}\", postgis_err_string(e))))?;\n\
         Ok(types::Duckvalue::Blob(r.as_wkb()))"
    );
}

#[test]
fn duckdb_aggregate_keeps_its_extras() {
    let extras = vec![ParamShape::Bool, ParamShape::OptionNone, ParamShape::S32];
    let out = emit_aggregate_arm_body(&agg(AccKind::Raster, extras, RetShape::RasterBlob), "a", " ");
    assert!(out.starts_with(" let mut extras: Option<Vec<types::Duckvalue>> = None;\n let mut blobs"));
    assert!(out.contains("     if extras.is_none() {\n         extras = Some(row[1..].to_vec());\n     }\n }\n"));
    assert!(out.contains("     .map(|b| from_raster_binary(b.as_slice(), \"a\"))\n"));
    assert!(out.contains(
        " let extras = extras.unwrap_or_default();\n let extra0 = dv_bool(&extras, 0, \"a\")?;\n \
         let extra2 = dv_i64(&extras, 2, \"a\")? as i32;\n let r = pg_agg::st_union(&refs, extra0, \
         None, extra2)\n"
    ));
    let bad = vec![ParamShape::Text, ParamShape::ListListU8];
    assert_eq!(
        emit_aggregate_arm_body(&agg(AccKind::Geom, bad, RetShape::GeomBlob), "a", ""),
        "Err(types::Duckerror::Unsupported(format!(\"a: aggregate extra arg #1 shape not wired\")))"
    );
    assert!(emit_aggregate_arm_body(&agg(AccKind::Geom, vec![], RetShape::Real), "a", "").ends_with(
        "Err(types::Duckerror::Unsupported(format!(\"a: aggregate return shape not wired\")))"
    ));
}

#[test]
fn duckdb_aggregates_of_records() {
    let kind = || AccKind::Record { input: rec("t-geom"), output: rec("st-box") };
    let out = emit_aggregate_arm_body(&agg(kind(), vec![], RetShape::Text), "a", "");
    assert!(out.contains("    upstream_vec.push(arg_witvalue_t_geom(row, 0, \"a\")?);\n}\n"));
    assert!(out.ends_with(
        "match __r {\n    Some(__rec) => ret_to_witvalue_st_box(__rec),\n    None => \
         Ok(types::Duckvalue::Null),\n}"
    ));
    assert_eq!(
        emit_aggregate_arm_body(&agg(kind(), vec![ParamShape::F64], RetShape::Text), "a", ""),
        "return Err(types::Duckerror::Invalidargument(\n    format!(\"a: AccKind::Record aggregate \
         with extra args not yet wired\")));\n"
    );
    let to = |output: ScalarReturnKind, optional: bool| {
        let kind = AccKind::RecordToScalar { input: rec("x"), output, optional };
        let out = emit_aggregate_arm_body(&agg(kind, vec![], RetShape::Int), "a", "");
        out.rsplit('\n').next().unwrap().to_string()
    };
    assert_eq!(to(ScalarReturnKind::Bool, false), "Ok(types::Duckvalue::Boolean(__r))");
    assert_eq!(to(ScalarReturnKind::U8, false), "Ok(types::Duckvalue::Int64(__r as i64))");
    assert_eq!(
        to(ScalarReturnKind::F32, true),
        "match __r { Some(v) => Ok(types::Duckvalue::Float64(v as f64)), None => \
         Ok(types::Duckvalue::Null) }"
    );
    let tuple = AccKind::RecordToTuple { input: rec("x"), optional: false };
    assert!(emit_aggregate_arm_body(&agg(tuple, vec![], RetShape::Text), "a", "").ends_with(
        "{\n    let __json = serde_json::to_string(&__r)\n        .map_err(|e| \
         types::Duckerror::Internal(format!(\"a: encode JSON: {}\", e)))?;\n    \
         Ok(types::Duckvalue::Text(__json))\n}"
    ));
}

#[test]
fn duckdb_table_arm() {
    let geom = UdtfOutputRow::SingleGeom { column_name: "geom".to_string() };
    assert_eq!(
        emit_udtf_call_body(&table(vec![ParamShape::Geom, ParamShape::U32], true, geom), "t", ""),
        "let arg0 = from_wkb(dv_blob(&args, 0, \"t\")?, \"t\")?;\n\
         let arg1 = dv_i64(&args, 1, \"t\")? as u32;\n\
         let __upstream = pg_srf::st_dump(&arg0, arg1).map_err(|e| \
         types::Duckerror::Invalidargument(format!(\"t: {}\", shim_err_string(e))))?;\n\
         let mut rows: Vec<Vec<types::Duckvalue>> = Vec::with_capacity(__upstream.len());\n\
         for __g in __upstream.iter() {\n    \
         rows.push(alloc::vec![types::Duckvalue::Blob(__g.as_wkb())]);\n}\n\
         Ok(rows)"
    );
    let field = |name: &str, field_shape: UdtfFieldShape| UdtfField {
        name: name.to_string(),
        affinity: ColumnAffinity::Text,
        field_shape,
    };
    let row = UdtfOutputRow::Record {
        fields: vec![
            field("min-x", UdtfFieldShape::Int),
            field("t", UdtfFieldShape::OptionText),
            field("z", UdtfFieldShape::Unsupported),
        ],
    };
    assert!(emit_udtf_call_body(&table(vec![], false, row), "t", "").contains(
        "    rows.push(alloc::vec![types::Duckvalue::Int64(__row.min_x as i64), match &__row.t { \
         Some(v) => types::Duckvalue::Text(v.clone()), None => types::Duckvalue::Null }, \
         types::Duckvalue::Null]);\n"
    ));
    let none = UdtfOutputRow::Unwired { reason: "a \"b\"".to_string() };
    assert!(emit_udtf_call_body(&table(vec![], false, none), "t", "").ends_with(
        "Err(types::Duckerror::Unsupported(format!(\"t: UDTF row shape unwired: a \\\"b\\\"\")))"
    ));
}

#[test]
fn duckdb_table_parameter_that_cannot_be_read_is_an_error() {
    let with = |p: ParamShape| {
        let row = UdtfOutputRow::SinglePrimitive { affinity: ColumnAffinity::Integer };
        emit_udtf_call_body(&table(vec![ParamShape::F64, p], false, row), "t", "")
    };
    let told = |what: &str| {
        format!("Err(types::Duckerror::Unsupported(format!(\"t: UDTF param #1 ({what}) not wired\")))")
    };
    assert_eq!(with(ParamShape::ListGeom), told("list<geometry>"));
    assert_eq!(with(ParamShape::ListPrim(ListPrimElem::U8)), told("list<primitive>"));
    assert_eq!(with(ParamShape::ListListU8), told("list<list<u8>>"));
    assert_eq!(with(ParamShape::ListTuple { elements: vec![] }), told("list<tuple>"));
    let (text, args) = emit_udtf_param_marshal(&vec![ParamShape::ListGeom, ParamShape::Bool], "t", "");
    assert_eq!(
        text,
        "return Err(types::Duckerror::Unsupported(format!(\"t: UDTF list-param shape not \
         wired\")));\nlet arg1 = dv_bool(&args, 1, \"t\")?;\n"
    );
    assert_eq!(args, vec!["arg1".to_string()]);
}

#[test]
fn duckdb_table_records_go_as_to_a_scalar() {
    let record = |upstream_by_value: bool| ParamShape::WitValueRecord {
        kebab_name: "stbox".to_string(),
        upstream_by_value,
    };
    let (text, args) = emit_udtf_param_marshal(&vec![record(true)], "f", "");
    assert_eq!(text, "let arg0 = arg_witvalue_stbox(&args, 0, \"f\")?;\n");
    assert_eq!(args, vec!["arg0".to_string()]);
    let (_, args) = emit_udtf_param_marshal(&vec![record(false), ParamShape::OptionNone], "f", "");
    assert_eq!(args, vec!["&arg0".to_string(), "None".to_string()]);
    for by_value in [true, false] {
        let params = vec![record(by_value), ParamShape::Geom];
        let (_, args) = emit_udtf_param_marshal(&params, "f", "");
        let body = emit_scalar_arm_body(&scalar(params, RetShape::Real), false, "f", "");
        assert!(body.contains(&format!("pg_acc::st_f({})", args.join(", "))));
    }
}

fn kebab(name: &str) -> String {
    name.to_string()
}

fn all_results() -> Vec<RetShape> {
    let mut all = vec![
        RetShape::Text,
        RetShape::Real,
        RetShape::Int,
        RetShape::BoolInt,
        RetShape::Blob,
        RetShape::GeomBlob,
        RetShape::RasterBlob,
        RetShape::TopologyBlob,
        RetShape::TopoGeometryViaGeom,
        RetShape::OptionText,
        RetShape::OptionReal,
        RetShape::OptionInt,
        RetShape::OptionBoolInt,
        RetShape::OptionBlob,
        RetShape::OptionGeomBlob,
        RetShape::OptionRasterBlob,
        RetShape::OptionTopologyBlob,
        RetShape::FirstGeomBlob,
        RetShape::FirstRasterBlob,
        RetShape::FirstTopologyBlob,
        RetShape::FirstOptionU32Int,
        RetShape::FirstInt,
        RetShape::FirstReal,
        RetShape::FirstText,
        RetShape::BboxBlob,
        RetShape::IsValidDetailText,
        RetShape::Bbox3dWkbLineZ,
        RetShape::ListBool,
        RetShape::ListListU8,
        RetShape::Enum {
            wit_module: "pg_r".to_string(),
            wit_package: "postgis:wasm".to_string(),
            kebab_name: kebab("pixel-type"),
            cases: vec!["one-bb".to_string()],
        },
        RetShape::WitValueRecord { kebab_name: kebab("t-box") },
        RetShape::OptionWitValueRecord { kebab_name: kebab("t-box") },
        RetShape::FirstWitValueRecord { kebab_name: kebab("t-box") },
    ];
    for kind in [
        JsonRetKind::ListListPrim,
        JsonRetKind::ListTuplePrim,
        JsonRetKind::TuplePrim,
        JsonRetKind::OptionTuplePrim,
        JsonRetKind::OptionListPrimRecord,
        JsonRetKind::ListTupleGeomF64,
    ] {
        all.push(RetShape::JsonText { kind });
    }
    for elem in [
        ListPrimElem::F64,
        ListPrimElem::F32,
        ListPrimElem::S64,
        ListPrimElem::U8,
        ListPrimElem::Bool,
        ListPrimElem::String,
    ] {
        all.push(RetShape::TuplePick { index: 0, elem });
    }
    all
}

#[test]
fn duckdb_results_are_made_as_declared() {
    for chain in ["", "?"] {
        for ret in all_results() {
            let declared = retshape_to_logicaltype(&ret);
            let out = render_return_expr(&ret, "m::f()", chain, "f", "  ");
            let made: Vec<&str> = out
                .split("types::Duckvalue::")
                .skip(1)
                .map(|rest| rest.split(|c: char| !c.is_alphanumeric()).next().unwrap())
                .filter(|name| *name != "Null")
                .collect();
            if declared.starts_with("types::Logicaltype::Complex(") {
                assert!(made.is_empty(), "{out}");
                assert!(out.contains("ret_to_witvalue_t_box("), "{out}");
            } else {
                assert_eq!(made.len(), 1, "{out}");
                assert_eq!(declared, format!("types::Logicaltype::{}", made[0]), "{out}");
            }
        }
    }
}

#[test]
fn duckdb_arguments_are_read_as_declared() {
    let record = ParamShape::WitValueRecord { kebab_name: kebab("t-box"), upstream_by_value: true };
    let case = ParamShape::Enum {
        wit_module: "pg_r".to_string(),
        wit_package: "postgis:wasm".to_string(),
        kebab_name: kebab("pixel-type"),
        cases: vec!["one-bb".to_string()],
    };
    let cases = vec![
        (ParamShape::Bool, "Boolean", "dv_bool(&args, 0, \"f\")?"),
        (ParamShape::S32, "Int64", "dv_i64(&args, 0, \"f\")?"),
        (ParamShape::U64, "Int64", "dv_i64(&args, 0, \"f\")?"),
        (case, "Int64", "match dv_i64(&args, 0, \"f\")?"),
        (ParamShape::F64, "Float64", "dv_f64(&args, 0, \"f\")?"),
        (ParamShape::Text, "Text", "dv_text(&args, 0, \"f\")?"),
        (ParamShape::Blob, "Blob", "dv_blob(&args, 0, \"f\")?"),
        (ParamShape::Raster, "Blob", "from_raster_binary(dv_blob(&args, 0, \"f\")?"),
        (ParamShape::ListGeom, "Blob", "types::Duckvalue::Blob(b) => Geometry::from_wkb("),
        (ParamShape::ListPrim(ListPrimElem::F64), "Text", "parse_json_list_f64(&args, 0, \"f\")?"),
        (ParamShape::ListListU8, "Text", "Vec<Vec<u8>> = parse_json_list_list_u8(&args, 0, \"f\")?"),
        (record, "Complex(\"VARCHAR\".into())", "arg_witvalue_t_box(&args, 0, \"f\")?"),
    ];
    for (p, kind, reading) in cases {
        assert_eq!(paramshape_to_logicaltype(&p), format!("types::Logicaltype::{kind}"));
        let out = emit_scalar_arm_body(&scalar(vec![p], RetShape::Real), false, "f", "");
        assert!(out.contains(reading), "{out}");
    }
}

#[test]
fn duckdb_window_arm() {
    let out = emit_window_arm_body(
        &window(vec![ParamShape::U32, ParamShape::Bool], true, WindowReturn::OptionU32),
        "w",
        "",
    );
    assert!(out.starts_with("if partition.is_empty() {\n    return Ok(types::Duckvalue::Null);\n}\n"));
    assert!(out.contains(
        "let __extra0 = dv_i64(&partition[0], 1, \"w\")? as u32;\nlet __extra1 = \
         dv_bool(&partition[0], 2, \"w\")?;\nlet __geom_refs: Vec<&Geometry> = \
         __geoms.iter().collect();\nlet __labels = pg_cl::st_k(&__geom_refs, __extra0, \
         __extra1).map_err(|e| types::Duckerror::Invalidargument(format!(\"w: {}\", \
         postgis_err_string(e))))?;\n"
    ));
    assert!(out.ends_with(
        "match __labels[__row_ix] {\n    Some(__id) => Ok(types::Duckvalue::Int64(__id as i64)),\n    \
         None => Ok(types::Duckvalue::Null),\n}\n"
    ));
    assert!(emit_window_arm_body(&window(vec![], false, WindowReturn::GeomBlob), "w", "").ends_with(
        "Ok(types::Duckvalue::Blob(__labels[__row_ix].as_wkb().into()))\n"
    ));
    assert_eq!(
        emit_window_arm_body(&window(vec![ParamShape::Text], false, WindowReturn::U32), "w", ""),
        "return Err(types::Duckerror::Unsupported(format!(\"w: window extra arg #0 shape not wired\")));"
    );
}

#[test]
fn duckdb_fields_of_each_kind() {
    let fields = [
        (UdtfFieldShape::Int, "types::Duckvalue::Int64(__row.a_b as i64)"),
        (UdtfFieldShape::Real, "types::Duckvalue::Float64(__row.a_b as f64)"),
        (UdtfFieldShape::Text, "types::Duckvalue::Text(__row.a_b.clone())"),
        (UdtfFieldShape::Blob, "types::Duckvalue::Blob(__row.a_b.clone())"),
        (UdtfFieldShape::GeomBlob, "types::Duckvalue::Blob(__row.a_b.as_wkb())"),
        (
            UdtfFieldShape::OptionInt,
            "match __row.a_b { Some(v) => types::Duckvalue::Int64(v as i64), None => \
             types::Duckvalue::Null }",
        ),
        (
            UdtfFieldShape::OptionReal,
            "match __row.a_b { Some(v) => types::Duckvalue::Float64(v as f64), None => \
             types::Duckvalue::Null }",
        ),
        (
            UdtfFieldShape::OptionText,
            "match &__row.a_b { Some(v) => types::Duckvalue::Text(v.clone()), None => \
             types::Duckvalue::Null }",
        ),
        (
            UdtfFieldShape::OptionBlob,
            "match &__row.a_b { Some(v) => types::Duckvalue::Blob(v.clone()), None => \
             types::Duckvalue::Null }",
        ),
        (
            UdtfFieldShape::OptionGeomBlob,
            "match &__row.a_b { Some(v) => types::Duckvalue::Blob(v.as_wkb()), None => \
             types::Duckvalue::Null }",
        ),
        (UdtfFieldShape::Unsupported, "types::Duckvalue::Null"),
    ];
    for (field_shape, expr) in fields {
        let row = UdtfOutputRow::Record {
            fields: vec![UdtfField {
                name: "a-b".to_string(),
                affinity: ColumnAffinity::Blob,
                field_shape,
            }],
        };
        let out = emit_udtf_call_body(&table(vec![], false, row), "t", "");
        assert!(out.contains(&format!("    rows.push(alloc::vec![{expr}]);\n}}\nOk(rows)")), "{out}");
    }
}

#[test]
fn duckdb_windows_and_aggregates_of_each_kind() {
    let windows = [
        (
            WindowReturn::OptionU32,
            "match __labels[__row_ix] {\n    Some(__id) => Ok(types::Duckvalue::Int64(__id as i64)),\n    \
             None => Ok(types::Duckvalue::Null),\n}\n",
        ),
        (WindowReturn::U32, "Ok(types::Duckvalue::Int64(__labels[__row_ix] as i64))\n"),
        (
            WindowReturn::GeomBlob,
            "Ok(types::Duckvalue::Blob(__labels[__row_ix].as_wkb().into()))\n",
        ),
    ];
    for (returns, end) in windows {
        assert!(emit_window_arm_body(&window(vec![], false, returns), "w", "").ends_with(end));
    }
    let aggregates = [
        (RetShape::GeomBlob, "Ok(types::Duckvalue::Blob(r.as_wkb()))"),
        (RetShape::RasterBlob, "Ok(types::Duckvalue::Blob(r.as_binary()))"),
        (
            RetShape::FirstGeomBlob,
            "match r.first() {\n    Some(g) => Ok(types::Duckvalue::Blob(g.as_wkb())),\n    None => \
             Ok(types::Duckvalue::Null),\n}",
        ),
        (
            RetShape::FirstOptionU32Int,
            "match r.first() {\n    Some(Some(v)) => Ok(types::Duckvalue::Int64(*v as i64)),\n    \
             Some(None) | None => Ok(types::Duckvalue::Null),\n}",
        ),
        (RetShape::Bbox3dWkbLineZ, "Ok(types::Duckvalue::Blob(__wkb))"),
        (
            RetShape::Text,
            "Err(types::Duckerror::Unsupported(format!(\"a: aggregate return shape not wired\")))",
        ),
    ];
    for (ret, end) in aggregates {
        let out = emit_aggregate_arm_body(&agg(AccKind::Geom, vec![], ret), "a", "");
        assert!(out.ends_with(end), "{out}");
    }
}
