//! The arms of a bridge for SQLite.

use shim_bridge_emit::ir::{
    AccKind, AggregateShape, DispatchShape, JsonRetKind, ListPrimElem, MethodCall, ParamShape,
    RecordRef, RetShape, ScalarReturnKind,
};
use shim_bridge_emit::sqlite::dispatch::{
    emit_aggregate_finalize_body, emit_aggregate_step_body, emit_arm_body, render_return_expr,
};

fn scalar(params: Vec<ParamShape>, ret: RetShape) -> DispatchShape {
    DispatchShape {
        params,
        ret,
        wit_module: "pg_acc".to_string(),
        wit_func: "st_f".to_string(),
        wit_package: "postgis:wasm".to_string(),
        method_call: None,
    }
}

fn agg(accumulator_kind: AccKind, extra_args: Vec<ParamShape>, ret: RetShape) -> AggregateShape {
    AggregateShape {
        wit_module: "pg_agg".to_string(),
        wit_func: "st_union".to_string(),
        wit_package: "postgis:wasm".to_string(),
        accumulator_kind,
        extra_args,
        ret,
    }
}

fn rec(name: &str) -> RecordRef {
    RecordRef { kebab_name: name.to_string() }
}

fn kinds() -> (String, Vec<String>) {
    ("pixel-type".to_string(), vec!["one-bb".to_string(), "thirty-two-bf".to_string()])
}

#[test]
fn sqlite_arm_reads_each_plain_parameter() {
    let shape = scalar(
        vec![
            ParamShape::Text,
            ParamShape::F64,
            ParamShape::S32,
            ParamShape::S64,
            ParamShape::U32,
            ParamShape::U64,
            ParamShape::Bool,
            ParamShape::Blob,
            ParamShape::OptionNone,
        ],
        RetShape::Text,
    );
    assert_eq!(
        emit_arm_body(&shape, false, "st_f", "  "),
        "  let arg0 = arg_text(&args, 0, \"st_f\")?;\n\
         \x20 let arg1 = arg_f64(&args, 1, \"st_f\")?;\n\
         \x20 let arg2 = arg_i64(&args, 2, \"st_f\")? as i32;\n\
         \x20 let arg3 = arg_i64(&args, 3, \"st_f\")?;\n\
         \x20 let arg4 = arg_i64(&args, 4, \"st_f\")? as u32;\n\
         \x20 let arg5 = arg_i64(&args, 5, \"st_f\")? as u64;\n\
         \x20 let arg6 = arg_i64(&args, 6, \"st_f\")? != 0;\n\
         \x20 let arg7 = arg_blob(&args, 7, \"st_f\")?;\n\
         \x20 Ok(SqlValue::Text(pg_acc::st_f(arg0, arg1, arg2, arg3, arg4, arg5, arg6, arg7, None)))"
    );
}

#[test]
fn sqlite_arm_reads_resources_and_records() {
    let shape = scalar(
        vec![
            ParamShape::Geom,
            ParamShape::Geog,
            ParamShape::Raster,
            ParamShape::Topology,
            ParamShape::ListRecord { kebab_name: "int-span".to_string() },
            ParamShape::ListPrim(ListPrimElem::String),
            ParamShape::ListTuple { elements: vec![ListPrimElem::S32, ListPrimElem::F64] },
            ParamShape::ListTuple { elements: vec![ListPrimElem::S64] },
            ParamShape::WitValueRecord {
                kebab_name: "t-box".to_string(),
                upstream_by_value: true,
            },
            ParamShape::WitValueRecord {
                kebab_name: "st-box".to_string(),
                upstream_by_value: false,
            },
        ],
        RetShape::Real,
    );
    assert_eq!(
        emit_arm_body(&shape, true, "f", ""),
        "let arg0 = from_wkb(arg_blob(&args, 0, \"f\")?, \"f\")?;\n\
         let arg1 = geog_from_wkb(arg_blob(&args, 1, \"f\")?, \"f\")?;\n\
         let arg2 = from_raster_binary(arg_blob(&args, 2, \"f\")?, \"f\")?;\n\
         let arg3 = from_topology_bytes(arg_blob(&args, 3, \"f\")?, \"f\")?;\n\
         let arg4 = parse_json_list_record_int_span(&args, 4, \"f\")?;\n\
         let arg5: Vec<String> = parse_json_list_string(&args, 5, \"f\")?;\n\
         let arg6: Vec<(i32, f64)> = parse_json_list_tuple_i32_f64(&args, 6, \"f\")?;\n\
         let arg7: Vec<(i64,)> = parse_json_list_tuple_i64(&args, 7, \"f\")?;\n\
         let arg8 = arg_witvalue_t_box(&args, 8, \"f\")?;\n\
         let arg9 = arg_witvalue_st_box(&args, 9, \"f\")?;\n\
         Ok(SqlValue::Real(pg_acc::st_f(&arg0, &arg1, &arg2, &arg3, &arg4, &arg5, &arg6, \
         &arg7, arg8, &arg9).map_err(|e| format!(\"f: {}\", shim_err_string(e)))?))"
    );
}

#[test]
fn sqlite_arm_takes_a_last_list_of_geometries_as_variadic() {
    let last = scalar(vec![ParamShape::ListGeom], RetShape::Int);
    let out = emit_arm_body(&last, false, "st_collect", " ");
    assert!(out.starts_with(" let arg0_owned: Vec<Geometry> = args[0..]\n     .iter()\n"));
    assert!(out.contains("postgis_err_string(e))),\n"));
    assert!(out.contains(" let arg0: Vec<&Geometry> = arg0_owned.iter().collect();\n"));
    assert!(out.ends_with(" Ok(SqlValue::Integer(pg_acc::st_f(&arg0) as i64))"));
    let first = scalar(vec![ParamShape::ListGeom, ParamShape::U32], RetShape::Blob);
    assert_eq!(
        emit_arm_body(&first, false, "st_asmvt", ""),
        "let arg0_one = from_wkb(arg_blob(&args, 0, \"st_asmvt\")?, \"st_asmvt\")?;\n\
         let arg0_owned: Vec<Geometry> = alloc::vec![arg0_one];\n\
         let arg0: Vec<&Geometry> = arg0_owned.iter().collect();\n\
         let arg1 = arg_i64(&args, 1, \"st_asmvt\")? as u32;\n\
         Ok(SqlValue::Blob(pg_acc::st_f(&arg0, arg1)))"
    );
}

#[test]
fn sqlite_arm_maps_enums_both_ways() {
    let (kebab_name, cases) = kinds();
    let param = ParamShape::Enum {
        wit_module: "pg_r".to_string(),
        wit_package: "postgis:wasm".to_string(),
        kebab_name: kebab_name.clone(),
        cases: cases.clone(),
    };
    let ret = RetShape::Enum {
        wit_module: "pg_r".to_string(),
        wit_package: "postgis:wasm".to_string(),
        kebab_name,
        cases,
    };
    assert_eq!(
        emit_arm_body(&scalar(vec![param], ret), false, "px", ""),
        "let arg0 = match arg_i64(&args, 0, \"px\")? {\n\
         \x20   0 => pg_r::PixelType::OneBb,\n\
         \x20   1 => pg_r::PixelType::ThirtyTwoBf,\n\
         \x20   other => return Err(format!(\n\
         \x20       \"px: arg 0 (pixel-type) out of range: {} (valid 0..2)\",\n\
         \x20       other,\n\
         \x20   )),\n\
         };\n\
         {\n\
         \x20   let __r = pg_acc::st_f(arg0);\n\
         \x20   let __disc: i64 = match __r {\n\
         \x20       pg_r::PixelType::OneBb => 0,\n\
         \x20       pg_r::PixelType::ThirtyTwoBf => 1,\n\
         \x20   };\n\
         \x20   Ok(SqlValue::Integer(__disc))\n\
         }"
    );
}

#[test]
fn sqlite_arm_calls_methods_and_constructors() {
    let mut method = scalar(vec![ParamShape::Topology, ParamShape::U32], RetShape::Int);
    method.method_call =
        Some(MethodCall { is_constructor: false, resource_kebab: "topology".to_string() });
    assert!(emit_arm_body(&method, false, "n", "")
        .ends_with("Ok(SqlValue::Integer(arg0.st_f(arg1) as i64))"));
    let mut bare = scalar(vec![], RetShape::Int);
    bare.method_call =
        Some(MethodCall { is_constructor: false, resource_kebab: "topology".to_string() });
    assert_eq!(emit_arm_body(&bare, false, "n", ""), "Ok(SqlValue::Integer(arg0.st_f() as i64))");
    let mut constructor = scalar(vec![ParamShape::Text], RetShape::TopologyBlob);
    constructor.method_call =
        Some(MethodCall { is_constructor: true, resource_kebab: "topo-geom".to_string() });
    assert!(emit_arm_body(&constructor, false, "n", "")
        .ends_with("Ok(SqlValue::Blob(TopoGeom::new(arg0).to_bytes()))"));
}

#[test]
fn sqlite_results_of_each_kind() {
    let chain = ".map_err(|e| format!(\"f: {}\", shim_err_string(e)))?";
    let plain = |ret: RetShape| render_return_expr(&ret, "m::f()", "", "f", "");
    let fallible = |ret: RetShape| render_return_expr(&ret, "m::f()", chain, "f", "");
    assert_eq!(plain(RetShape::BoolInt), "Ok(SqlValue::Integer(m::f() as i64))");
    assert_eq!(plain(RetShape::GeomBlob), "Ok(SqlValue::Blob(m::f().as_wkb()))");
    assert_eq!(
        fallible(RetShape::GeomBlob),
        format!("let __r = m::f(){chain};\nOk(SqlValue::Blob(__r.as_wkb()))")
    );
    assert_eq!(
        fallible(RetShape::RasterBlob),
        format!("let __r = m::f(){chain};\nOk(SqlValue::Blob(__r.as_binary()))")
    );
    assert_eq!(
        plain(RetShape::OptionReal),
        "Ok(match m::f() {\n    Some(v) => SqlValue::Real(v as f64),\n    None => SqlValue::Null,\n})"
    );
    assert_eq!(
        plain(RetShape::OptionBoolInt),
        "Ok(match m::f() {\n    Some(v) => SqlValue::Integer(v as i64),\n    None => SqlValue::Null,\n})"
    );
    assert_eq!(
        plain(RetShape::FirstText),
        "{\n    let __r = m::f();\n    match __r.into_iter().next() {\n        Some(v) => \
         Ok(SqlValue::Text(v)),\n        None => Ok(SqlValue::Null),\n    }\n}"
    );
    assert_eq!(
        plain(RetShape::BboxBlob),
        "{\n    let __bb = m::f();\n    let __env = pg_ctor::st_make_envelope(__bb.min_x, \
         __bb.min_y, __bb.max_x, __bb.max_y);\n    Ok(SqlValue::Blob(__env.as_wkb()))\n}"
    );
    assert!(plain(RetShape::IsValidDetailText).contains("\"({},\\\"{}\\\",\\\"{}\\\")\","));
    assert!(plain(RetShape::Bbox3dWkbLineZ).contains("&1002u32.to_le_bytes()"));
    assert_eq!(
        plain(RetShape::WitValueRecord { kebab_name: "t-box".to_string() }),
        "ret_to_witvalue_t_box(m::f())"
    );
    assert_eq!(
        plain(RetShape::OptionWitValueRecord { kebab_name: "t-box".to_string() }),
        "match m::f() {\n    Some(__rec) => ret_to_witvalue_t_box(__rec),\n    None => \
         Ok(SqlValue::Null),\n}"
    );
}

#[test]
fn sqlite_tuple_element_by_its_type() {
    let pick = |index: usize, elem: ListPrimElem| {
        render_return_expr(&RetShape::TuplePick { index, elem }, "m::f()", "", "f", "")
    };
    let with = |value: &str| format!("{{\n    let __r = m::f();\n    Ok(SqlValue::{value})\n}}");
    assert_eq!(pick(1, ListPrimElem::S32), with("Integer(__r.1 as i64)"));
    assert_eq!(pick(0, ListPrimElem::Bool), with("Integer(__r.0 as i64)"));
    assert_eq!(pick(2, ListPrimElem::F32), with("Real(__r.2 as f64)"));
    assert_eq!(pick(10, ListPrimElem::String), with("Text(__r.10)"));
}

#[test]
fn sqlite_results_as_json() {
    let json = |kind: JsonRetKind| {
        render_return_expr(&RetShape::JsonText { kind }, "m::f()", "", "f", "")
    };
    let whole = "{\n    let __r = m::f();\n    let __json = serde_json::to_string(&__r)\n        \
                 .map_err(|e| format!(\"f: encode JSON: {}\", e))?;\n    \
                 Ok(SqlValue::Text(__json))\n}";
    assert_eq!(json(JsonRetKind::ListListPrim), whole);
    assert_eq!(json(JsonRetKind::ListTuplePrim), whole);
    assert_eq!(json(JsonRetKind::TuplePrim), whole);
    assert!(json(JsonRetKind::OptionTuplePrim).contains("Some(__t) => {"));
    assert!(json(JsonRetKind::OptionListPrimRecord).contains("Some(__v) => {"));
    assert!(json(JsonRetKind::ListTupleGeomF64).contains("write!(&mut __out, \"{:02x}\", __b);"));
}

#[test]
fn sqlite_aggregate_steps() {
    let push = |kind: AccKind, extras: Vec<ParamShape>| {
        emit_aggregate_step_body(&agg(kind, extras, RetShape::GeomBlob), "a", "")
    };
    assert_eq!(
        push(AccKind::Geom, vec![]),
        "let bytes = arg_blob(&args, 0, \"a\")?;\npush_geom_state(context_id, bytes.to_vec());\nOk(())"
    );
    assert_eq!(
        push(AccKind::Raster, vec![ParamShape::F64]),
        "let bytes = arg_blob(&args, 0, \"a\")?;\n\
         push_raster_state(context_id, bytes.to_vec());\n\
         // Round 2: latch extra constant args (1..) on first step.\n\
         let extras: Vec<SqlValue> = args[1..].to_vec();\n\
         set_or_validate_extras(context_id, extras, \"a\")?;\n\
         Ok(())"
    );
    let record = "let payload = match args.get(0) {\n    Some(SqlValue::WitValue(p)) => p.clone(),\n    \
                  _ => return Err(format!(\"a: arg 0 must be WIT-VALUE\")),\n};\n\
                  push_witvalue_state(context_id, payload);\nOk(())";
    assert_eq!(push(AccKind::Record { input: rec("x"), output: rec("y") }, vec![]), record);
    assert_eq!(push(AccKind::RecordToTuple { input: rec("x"), optional: true }, vec![]), record);
}

#[test]
fn sqlite_aggregate_of_geometries_ends() {
    let extras = vec![ParamShape::F64, ParamShape::OptionNone, ParamShape::U32];
    assert_eq!(
        emit_aggregate_finalize_body(&agg(AccKind::Geom, extras, RetShape::FirstGeomBlob), "a", ""),
        "let blobs = take_geom_state(context_id);\n\
         let geoms: Vec<Geometry> = blobs.iter()\n    \
         .map(|b| Geometry::from_wkb(b))\n    \
         .collect::<Result<Vec<_>, _>>()\n    \
         .map_err(|e| format!(\"a: {}\", postgis_err_string(e)))?;\n\
         let refs: Vec<&Geometry> = geoms.iter().collect();\n\
         let extras = take_extras_state(context_id);\n\
         let extra0 = arg_f64(&extras, 0, \"a\")?;\n\
         let extra2 = arg_i64(&extras, 2, \"a\")? as u32;\n\
         let r: Vec<Geometry> = pg_agg::st_union(&refs, extra0, None, extra2)\n    \
         .map_err(|e| format!(\"a: {}\", postgis_err_string(e)))?;\n\
         match r.first() {\n    \
         Some(g) => Ok(SqlValue::Blob(g.as_wkb())),\n    \
         None => Ok(SqlValue::Null),\n\
         }"
    );
    let other = emit_aggregate_finalize_body(&agg(AccKind::Geom, vec![], RetShape::Text), "a", "");
    assert!(other.ends_with("Err(format!(\"a: aggregate return shape not wired\"))"));
}

#[test]
fn sqlite_aggregate_with_an_extra_that_cannot_be_read_is_an_error() {
    let extras = vec![ParamShape::F64, ParamShape::ListGeom, ParamShape::Geom];
    assert_eq!(
        emit_aggregate_finalize_body(&agg(AccKind::Geom, extras, RetShape::GeomBlob), "a", " "),
        " Err(format!(\"a: aggregate extra arg #1 shape not wired\"))"
    );
    let kind = AccKind::RecordToScalar {
        input: rec("x"),
        output: ScalarReturnKind::U8,
        optional: false,
    };
    assert_eq!(
        emit_aggregate_finalize_body(
            &agg(kind, vec![ParamShape::Raster], RetShape::Int),
            "a",
            ""
        ),
        "Err(format!(\"a: aggregate extra arg #0 shape not wired\"))"
    );
}

#[test]
fn sqlite_aggregate_of_records_ends() {
    let kind = || AccKind::Record { input: rec("t-geom"), output: rec("st-box") };
    let out = emit_aggregate_finalize_body(&agg(kind(), vec![], RetShape::Text), "a", "");
    assert!(out.contains("    upstream_vec.push(arg_witvalue_t_geom(&__args, 0, \"a\")?);\n}\n"));
    assert!(out.ends_with(
        "let __r = pg_agg::st_union(&upstream_vec);\nmatch __r {\n    Some(__rec) => \
         ret_to_witvalue_st_box(__rec),\n    None => Ok(SqlValue::Null),\n}"
    ));
    let extra = emit_aggregate_finalize_body(&agg(kind(), vec![ParamShape::F64], RetShape::Text), "a", "");
    assert!(extra.ends_with(
        "return Err(format!(\"a: AccKind::Record aggregate with extra args not yet wired\"));\n"
    ));
}

#[test]
fn sqlite_aggregate_to_a_primitive_ends() {
    let end = |output: ScalarReturnKind, optional: bool| {
        let kind = AccKind::RecordToScalar { input: rec("x"), output, optional };
        let out = emit_aggregate_finalize_body(&agg(kind, vec![], RetShape::Int), "a", "");
        out.rsplit('\n').next().unwrap().to_string()
    };
    assert_eq!(end(ScalarReturnKind::F32, false), "Ok(SqlValue::Real(__r as f64))");
    assert_eq!(end(ScalarReturnKind::Bool, false), "Ok(SqlValue::Integer(if __r { 1 } else { 0 }))");
    assert_eq!(end(ScalarReturnKind::U64, false), "Ok(SqlValue::Integer(__r as i64))");
    assert_eq!(
        end(ScalarReturnKind::Bool, true),
        "match __r { Some(v) => Ok(SqlValue::Integer(if v { 1 } else { 0 })), None => \
         Ok(SqlValue::Null) }"
    );
    assert_eq!(
        end(ScalarReturnKind::F64, true),
        "match __r { Some(v) => Ok(SqlValue::Real(v as f64)), None => Ok(SqlValue::Null) }"
    );
}

#[test]
fn sqlite_aggregate_to_a_tuple_ends() {
    let end = |optional: bool| {
        let kind = AccKind::RecordToTuple { input: rec("x"), optional };
        emit_aggregate_finalize_body(&agg(kind, vec![ParamShape::Text], RetShape::Text), "a", "")
    };
    assert!(end(false).contains("let extra0 = arg_text(&extras, 0, \"a\")?;\n"));
    assert!(end(false).contains("let __r = pg_agg::st_union(&upstream_vec, extra0);\n{\n"));
    assert!(end(true).contains("match __r {\n    Some(__t) => {\n"));
    assert!(end(true).ends_with("    None => Ok(SqlValue::Null),\n}"));
}
