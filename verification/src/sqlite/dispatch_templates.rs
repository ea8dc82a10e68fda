//! The texts that dispatch arms are made of. A name in braces is a hole.

use vstd::prelude::*;

verus! {

pub const ARG_TEXT: &'static str = "{i}let arg{idx} = arg_text(&args, {idx}, \"{sql_name}\")?;\n";

pub const ARG_F64: &'static str = "{i}let arg{idx} = arg_f64(&args, {idx}, \"{sql_name}\")?;\n";

pub const ARG_S32: &'static str = "{i}let arg{idx} = arg_i64(&args, {idx}, \"{sql_name}\")? as i32;\n";

pub const ARG_S64: &'static str = "{i}let arg{idx} = arg_i64(&args, {idx}, \"{sql_name}\")?;\n";

pub const ARG_U32: &'static str = "{i}let arg{idx} = arg_i64(&args, {idx}, \"{sql_name}\")? as u32;\n";

pub const ARG_U64: &'static str = "{i}let arg{idx} = arg_i64(&args, {idx}, \"{sql_name}\")? as u64;\n";

pub const ARG_BOOL: &'static str = "{i}let arg{idx} = arg_i64(&args, {idx}, \"{sql_name}\")? != 0;\n";

pub const ARG_BLOB: &'static str = "{i}let arg{idx} = arg_blob(&args, {idx}, \"{sql_name}\")?;\n";

pub const ARG_GEOM: &'static str = "{i}let arg{idx} = from_wkb(arg_blob(&args, {idx}, \"{sql_name}\")?, \"{sql_name}\")?;\n";

pub const ARG_GEOG: &'static str = "{i}let arg{idx} = geog_from_wkb(arg_blob(&args, {idx}, \"{sql_name}\")?, \"{sql_name}\")?;\n";

pub const ARG_RASTER: &'static str = "{i}let arg{idx} = from_raster_binary(arg_blob(&args, {idx}, \"{sql_name}\")?, \"{sql_name}\")?;\n";

pub const ARG_TOPOLOGY: &'static str = "{i}let arg{idx} = from_topology_bytes(arg_blob(&args, {idx}, \"{sql_name}\")?, \"{sql_name}\")?;\n";

pub const ARG_LIST_GEOM_REST: &'static str = r#"{i}let arg{idx}_owned: Vec<Geometry> = args[{idx}..]
{i}    .iter()
{i}    .enumerate()
{i}    .map(|(j, v)| match v {{
{i}        SqlValue::Blob(b) => Geometry::from_wkb(b.as_slice())
{i}            .map_err(|e| format!("{sql_name}: arg {{}}: {{}}", {idx} + j, postgis_err_string(e))),
{i}        SqlValue::Text(t) => Geometry::from_wkb(t.as_bytes())
{i}            .map_err(|e| format!("{sql_name}: arg {{}}: {{}}", {idx} + j, postgis_err_string(e))),
{i}        _ => Err(format!("{sql_name}: arg {{}} must be BLOB", {idx} + j)),
{i}    }})
{i}    .collect::<Result<Vec<_>, _>>()?;
{i}let arg{idx}: Vec<&Geometry> = arg{idx}_owned.iter().collect();
"#;

pub const ARG_LIST_GEOM_ONE: &'static str = r#"{i}let arg{idx}_one = from_wkb(arg_blob(&args, {idx}, "{sql_name}")?, "{sql_name}")?;
{i}let arg{idx}_owned: Vec<Geometry> = alloc::vec![arg{idx}_one];
{i}let arg{idx}: Vec<&Geometry> = arg{idx}_owned.iter().collect();
"#;

pub const ARG_ENUM: &'static str = r#"{i}let arg{idx} = match arg_i64(&args, {idx}, "{sql_name}")? {{
{arms}{i}    other => return Err(format!(
{i}        "{sql_name}: arg {idx} ({kebab_name}) out of range: {{}} (valid 0..{max})",
{i}        other,
{i}    )),
{i}}};
"#;

pub const ARG_LIST_RECORD: &'static str = "{i}let arg{idx} = parse_json_list_record_{snake}(&args, {idx}, \"{sql_name}\")?;\n";

pub const ARG_LIST_PRIM: &'static str = "{i}let arg{idx}: Vec<{rust_ty}> = parse_json_list_{suffix}(&args, {idx}, \"{sql_name}\")?;\n";

pub const ARG_LIST_TUPLE: &'static str = "{i}let arg{idx}: Vec<{rust_tuple}> = parse_json_list_tuple_{suffix}(&args, {idx}, \"{sql_name}\")?;\n";

pub const ARG_WIT_VALUE: &'static str = "{i}let arg{idx} = arg_witvalue_{snake}(&args, {idx}, \"{sql_name}\")?;\n";

pub const UNWRAP: &'static str = ".map_err(|e| format!(\"{sql_name}: {{}}\", shim_err_string(e)))?";

pub const RET_TEXT: &'static str = "Ok(SqlValue::Text({call_expr}{unwrap_chain}))";

pub const RET_REAL: &'static str = "Ok(SqlValue::Real({call_expr}{unwrap_chain}))";

pub const RET_INT: &'static str = "Ok(SqlValue::Integer({call_expr}{unwrap_chain} as i64))";

pub const RET_BOOL: &'static str = "Ok(SqlValue::Integer({call_expr}{unwrap_chain} as i64))";

pub const RET_GEOM_FALLIBLE: &'static str = r#"let __r = {call_expr}{unwrap_chain};
{i}Ok(SqlValue::Blob(__r.as_wkb()))"#;

pub const RET_RASTER_FALLIBLE: &'static str = r#"let __r = {call_expr}{unwrap_chain};
{i}Ok(SqlValue::Blob(__r.as_binary()))"#;

pub const RET_TOPOLOGY_FALLIBLE: &'static str = r#"let __r = {call_expr}{unwrap_chain};
{i}Ok(SqlValue::Blob(__r.to_bytes()))"#;

pub const RET_BLOB: &'static str = "Ok(SqlValue::Blob({call_expr}{unwrap_chain}))";

pub const RET_OPTION_TEXT: &'static str = r#"Ok(match {call_expr}{unwrap_chain} {{
{i}    Some(v) => SqlValue::Text(v),
{i}    None => SqlValue::Null,
{i}}})"#;

pub const RET_OPTION_REAL: &'static str = r#"Ok(match {call_expr}{unwrap_chain} {{
{i}    Some(v) => SqlValue::Real(v as f64),
{i}    None => SqlValue::Null,
{i}}})"#;

pub const RET_OPTION_INT: &'static str = r#"Ok(match {call_expr}{unwrap_chain} {{
{i}    Some(v) => SqlValue::Integer(v as i64),
{i}    None => SqlValue::Null,
{i}}})"#;

pub const RET_OPTION_BLOB: &'static str = r#"Ok(match {call_expr}{unwrap_chain} {{
{i}    Some(v) => SqlValue::Blob(v),
{i}    None => SqlValue::Null,
{i}}})"#;

pub const RET_OPTION_GEOM: &'static str = r#"Ok(match {call_expr}{unwrap_chain} {{
{i}    Some(v) => SqlValue::Blob(v.as_wkb()),
{i}    None => SqlValue::Null,
{i}}})"#;

pub const RET_OPTION_RASTER: &'static str = r#"Ok(match {call_expr}{unwrap_chain} {{
{i}    Some(v) => SqlValue::Blob(v.as_binary()),
{i}    None => SqlValue::Null,
{i}}})"#;

pub const RET_OPTION_TOPOLOGY: &'static str = r#"Ok(match {call_expr}{unwrap_chain} {{
{i}    Some(v) => SqlValue::Blob(v.to_bytes()),
{i}    None => SqlValue::Null,
{i}}})"#;

pub const RET_FIRST_GEOM: &'static str = r#"{{
{i}    let __r: Vec<Geometry> = {call_expr}{unwrap_chain};
{i}    match __r.first() {{
{i}        Some(g) => Ok(SqlValue::Blob(g.as_wkb())),
{i}        None => Ok(SqlValue::Null),
{i}    }}
{i}}}"#;

pub const RET_FIRST_RASTER: &'static str = r#"{{
{i}    let __r = {call_expr}{unwrap_chain};
{i}    match __r.into_iter().next() {{
{i}        Some(r) => Ok(SqlValue::Blob(r.as_binary())),
{i}        None => Ok(SqlValue::Null),
{i}    }}
{i}}}"#;

pub const RET_FIRST_TOPOLOGY: &'static str = r#"{{
{i}    let __r = {call_expr}{unwrap_chain};
{i}    match __r.into_iter().next() {{
{i}        Some(t) => Ok(SqlValue::Blob(t.to_bytes())),
{i}        None => Ok(SqlValue::Null),
{i}    }}
{i}}}"#;

pub const RET_FIRST_OPTION_U32: &'static str = r#"{{
{i}    let __r: Vec<Option<u32>> = {call_expr}{unwrap_chain};
{i}    match __r.first() {{
{i}        Some(Some(v)) => Ok(SqlValue::Integer(*v as i64)),
{i}        Some(None) | None => Ok(SqlValue::Null),
{i}    }}
{i}}}"#;

pub const RET_BBOX: &'static str = r#"{{
{i}    let __bb = {call_expr}{unwrap_chain};
{i}    let __env = pg_ctor::st_make_envelope(__bb.min_x, __bb.min_y, __bb.max_x, __bb.max_y);
{i}    Ok(SqlValue::Blob(__env.as_wkb()))
{i}}}"#;

pub const RET_IS_VALID_DETAIL: &'static str = r#"{{
{i}    let (__valid, __reason, __loc) = {call_expr}{unwrap_chain};
{i}    let __reason_s = __reason.unwrap_or_default();
{i}    let __loc_s = match __loc {{
{i}        Some(g) => pg_out::st_as_text(&g),
{i}        None => alloc::string::String::new(),
{i}    }};
{i}    Ok(SqlValue::Text(format!(
{i}        "({{}},\"{{}}\",\"{{}}\")",
{i}        __valid, __reason_s, __loc_s
{i}    )))
{i}}}"#;

pub const RET_BBOX3D: &'static str = r#"{{
{i}    let __bb = {call_expr}{unwrap_chain};
{i}    let mut __wkb: Vec<u8> = Vec::with_capacity(57);
{i}    // ISO-WKB header: little-endian, type 1002 (LINESTRING Z), 2 points.
{i}    __wkb.push(0x01u8);
{i}    __wkb.extend_from_slice(&1002u32.to_le_bytes());
{i}    __wkb.extend_from_slice(&2u32.to_le_bytes());
{i}    __wkb.extend_from_slice(&__bb.min_x.to_le_bytes());
{i}    __wkb.extend_from_slice(&__bb.min_y.to_le_bytes());
{i}    __wkb.extend_from_slice(&__bb.min_z.to_le_bytes());
{i}    __wkb.extend_from_slice(&__bb.max_x.to_le_bytes());
{i}    __wkb.extend_from_slice(&__bb.max_y.to_le_bytes());
{i}    __wkb.extend_from_slice(&__bb.max_z.to_le_bytes());
{i}    Ok(SqlValue::Blob(__wkb))
{i}}}"#;

pub const RET_OPTION_BOOL: &'static str = r#"Ok(match {call_expr}{unwrap_chain} {{
{i}    Some(v) => SqlValue::Integer(v as i64),
{i}    None => SqlValue::Null,
{i}}})"#;

pub const RET_FIRST_INT: &'static str = r#"{{
{i}    let __r = {call_expr}{unwrap_chain};
{i}    match __r.first() {{
{i}        Some(v) => Ok(SqlValue::Integer(*v as i64)),
{i}        None => Ok(SqlValue::Null),
{i}    }}
{i}}}"#;

pub const RET_FIRST_REAL: &'static str = r#"{{
{i}    let __r = {call_expr}{unwrap_chain};
{i}    match __r.first() {{
{i}        Some(v) => Ok(SqlValue::Real(*v as f64)),
{i}        None => Ok(SqlValue::Null),
{i}    }}
{i}}}"#;

pub const RET_FIRST_TEXT: &'static str = r#"{{
{i}    let __r = {call_expr}{unwrap_chain};
{i}    match __r.into_iter().next() {{
{i}        Some(v) => Ok(SqlValue::Text(v)),
{i}        None => Ok(SqlValue::Null),
{i}    }}
{i}}}"#;

pub const RET_GEOM: &'static str = "Ok(SqlValue::Blob({call_expr}.as_wkb()))";

pub const RET_RASTER: &'static str = "Ok(SqlValue::Blob({call_expr}.as_binary()))";

pub const RET_TOPOLOGY: &'static str = "Ok(SqlValue::Blob({call_expr}.to_bytes()))";

pub const RET_WIT_VALUE: &'static str = "ret_to_witvalue_{snake}({call_expr}{unwrap_chain})";

pub const RET_OPTION_WIT_VALUE: &'static str = r#"match {call_expr}{unwrap_chain} {{
{i}    Some(__rec) => ret_to_witvalue_{snake}(__rec),
{i}    None => Ok(SqlValue::Null),
{i}}}"#;

pub const RET_FIRST_WIT_VALUE: &'static str = r#"{{
{i}    let __r = {call_expr}{unwrap_chain};
{i}    let mut __it = __r.into_iter();
{i}    match __it.next() {{
{i}        Some(__rec) => ret_to_witvalue_{snake}(__rec),
{i}        None => Ok(SqlValue::Null),
{i}    }}
{i}}}"#;

pub const RET_ENUM: &'static str = r#"{{
{i}    let __r = {call_expr}{unwrap_chain};
{i}    let __disc: i64 = match __r {{
{arms}{i}    }};
{i}    Ok(SqlValue::Integer(__disc))
{i}}}"#;

pub const RET_JSON: &'static str = r#"{{
{i}    let __r = {call_expr}{unwrap_chain};
{i}    let __json = serde_json::to_string(&__r)
{i}        .map_err(|e| format!("{sql_name}: encode JSON: {{}}", e))?;
{i}    Ok(SqlValue::Text(__json))
{i}}}"#;

pub const RET_JSON_OPTION_TUPLE: &'static str = r#"{{
{i}    match {call_expr}{unwrap_chain} {{
{i}        Some(__t) => {{
{i}            let __json = serde_json::to_string(&__t)
{i}                .map_err(|e| format!("{sql_name}: encode JSON: {{}}", e))?;
{i}            Ok(SqlValue::Text(__json))
{i}        }}
{i}        None => Ok(SqlValue::Null),
{i}    }}
{i}}}"#;

pub const RET_JSON_OPTION_LIST: &'static str = r#"{{
{i}    match {call_expr}{unwrap_chain} {{
{i}        Some(__v) => {{
{i}            let __json = serde_json::to_string(&__v)
{i}                .map_err(|e| format!("{sql_name}: encode JSON: {{}}", e))?;
{i}            Ok(SqlValue::Text(__json))
{i}        }}
{i}        None => Ok(SqlValue::Null),
{i}    }}
{i}}}"#;

pub const RET_JSON_GEOM_LIST: &'static str = r#"{{
{i}    let __r = {call_expr}{unwrap_chain};
{i}    let mut __out = alloc::string::String::from("[");
{i}    for (__i, (__g, __v)) in __r.into_iter().enumerate() {{
{i}        if __i > 0 {{ __out.push(','); }}
{i}        let __wkb = __g.as_wkb();
{i}        __out.push_str("[\"");
{i}        for __b in __wkb {{
{i}            use core::fmt::Write as _;
{i}            let _ = write!(&mut __out, "{{:02x}}", __b);
{i}        }}
{i}        __out.push_str("\",");
{i}        let __vj = serde_json::to_string(&__v)
{i}            .map_err(|e| format!("{sql_name}: encode JSON: {{}}", e))?;
{i}        __out.push_str(&__vj);
{i}        __out.push(']');
{i}    }}
{i}    __out.push(']');
{i}    Ok(SqlValue::Text(__out))
{i}}}"#;

pub const RET_TUPLE_PICK: &'static str = r#"{{
{i}    let __r = {call_expr}{unwrap_chain};
{i}    Ok(SqlValue::{variant}({expr_suffix}))
{i}}}"#;

pub const STEP: &'static str = r#"{i}let bytes = arg_blob(&args, 0, "{sql_name}")?;
{i}{push}(context_id, bytes.to_vec());
{i}Ok(())"#;

pub const STEP_EXTRAS: &'static str = r#"{i}let bytes = arg_blob(&args, 0, "{sql_name}")?;
{i}{push}(context_id, bytes.to_vec());
{i}// Round 2: latch extra constant args (1..) on first step.
{i}let extras: Vec<SqlValue> = args[1..].to_vec();
{i}set_or_validate_extras(context_id, extras, "{sql_name}")?;
{i}Ok(())"#;

pub const STEP_RECORD: &'static str = r#"{i}let payload = match args.get(0) {{
{i}    Some(SqlValue::WitValue(p)) => p.clone(),
{i}    _ => return Err(format!("{sql_name}: arg 0 must be WIT-VALUE")),
{i}}};
{i}push_witvalue_state(context_id, payload);
"#;

pub const STEP_RECORD_DONE: &'static str = "{extract}{i}Ok(())";

pub const STEP_RECORD_EXTRAS: &'static str = r#"{extract}{i}// Round 2: latch extra constant args (1..) on first step.
{i}let extras: Vec<SqlValue> = args[1..].to_vec();
{i}set_or_validate_extras(context_id, extras, "{sql_name}")?;
{i}Ok(())"#;

pub const FINALIZE_GEOMS: &'static str = r#"{i}let blobs = take_geom_state(context_id);
{i}let geoms: Vec<Geometry> = blobs.iter()
{i}    .map(|b| Geometry::from_wkb(b))
{i}    .collect::<Result<Vec<_>, _>>()
{i}    .map_err(|e| format!("{sql_name}: {{}}", postgis_err_string(e)))?;
{i}let refs: Vec<&Geometry> = geoms.iter().collect();
"#;

pub const FINALIZE_RASTERS: &'static str = r#"{i}let blobs = take_raster_state(context_id);
{i}let rasters: Vec<Raster> = blobs.iter()
{i}    .map(|b| from_raster_binary(b.as_slice(), "{sql_name}"))
{i}    .collect::<Result<Vec<_>, _>>()?;
{i}let refs: Vec<&Raster> = rasters.iter().collect();
"#;

pub const EXTRAS_TAKE: &'static str = "{i}let extras = take_extras_state(context_id);\n";

pub const EXTRA_TEXT: &'static str = "{i}let extra{j} = arg_text(&extras, {j}, \"{sql_name}\")?;\n";

pub const EXTRA_F64: &'static str = "{i}let extra{j} = arg_f64(&extras, {j}, \"{sql_name}\")?;\n";

pub const EXTRA_S32: &'static str = "{i}let extra{j} = arg_i64(&extras, {j}, \"{sql_name}\")? as i32;\n";

pub const EXTRA_S64: &'static str = "{i}let extra{j} = arg_i64(&extras, {j}, \"{sql_name}\")?;\n";

pub const EXTRA_U32: &'static str = "{i}let extra{j} = arg_i64(&extras, {j}, \"{sql_name}\")? as u32;\n";

pub const EXTRA_U64: &'static str = "{i}let extra{j} = arg_i64(&extras, {j}, \"{sql_name}\")? as u64;\n";

pub const EXTRA_BOOL: &'static str = "{i}let extra{j} = arg_i64(&extras, {j}, \"{sql_name}\")? != 0;\n";

pub const EXTRA_BLOB: &'static str = "{i}let extra{j} = arg_blob(&extras, {j}, \"{sql_name}\")?;\n";

pub const EXTRA_UNWIRED: &'static str = "{i}Err(format!(\"{sql_name}: aggregate extra arg #{j} shape not wired\"))";

pub const AGG_RET_GEOM: &'static str = r#"{i}let r = {module}::{func}({call_args})
{i}    .map_err(|e| format!("{sql_name}: {{}}", postgis_err_string(e)))?;
{i}Ok(SqlValue::Blob(r.as_wkb()))"#;

pub const AGG_RET_RASTER: &'static str = r#"{i}let r = {module}::{func}({call_args})
{i}    .map_err(|e| format!("{sql_name}: {{}}", shim_err_string(e)))?;
{i}Ok(SqlValue::Blob(r.as_binary()))"#;

pub const AGG_RET_FIRST_GEOM: &'static str = r#"{i}let r: Vec<Geometry> = {module}::{func}({call_args})
{i}    .map_err(|e| format!("{sql_name}: {{}}", postgis_err_string(e)))?;
{i}match r.first() {{
{i}    Some(g) => Ok(SqlValue::Blob(g.as_wkb())),
{i}    None => Ok(SqlValue::Null),
{i}}}"#;

pub const AGG_RET_FIRST_OPTION_U32: &'static str = r#"{i}let r: Vec<Option<u32>> = {module}::{func}({call_args})
{i}    .map_err(|e| format!("{sql_name}: {{}}", postgis_err_string(e)))?;
{i}match r.first() {{
{i}    Some(Some(v)) => Ok(SqlValue::Integer(*v as i64)),
{i}    Some(None) | None => Ok(SqlValue::Null),
{i}}}"#;

pub const AGG_RET_BBOX3D: &'static str = r#"{i}let __bb = {module}::{func}({call_args});
{i}let mut __wkb: Vec<u8> = Vec::with_capacity(57);
{i}// ISO-WKB header: little-endian, type 1002 (LINESTRING Z), 2 points.
{i}__wkb.push(0x01u8);
{i}__wkb.extend_from_slice(&1002u32.to_le_bytes());
{i}__wkb.extend_from_slice(&2u32.to_le_bytes());
{i}__wkb.extend_from_slice(&__bb.min_x.to_le_bytes());
{i}__wkb.extend_from_slice(&__bb.min_y.to_le_bytes());
{i}__wkb.extend_from_slice(&__bb.min_z.to_le_bytes());
{i}__wkb.extend_from_slice(&__bb.max_x.to_le_bytes());
{i}__wkb.extend_from_slice(&__bb.max_y.to_le_bytes());
{i}__wkb.extend_from_slice(&__bb.max_z.to_le_bytes());
{i}Ok(SqlValue::Blob(__wkb))"#;

pub const AGG_RET_UNWIRED: &'static str = "{i}Err(format!(\"{sql_name}: aggregate return shape not wired\"))";

pub const FINALIZE_RECORDS: &'static str = r#"{i}let payloads = take_witvalue_state(context_id);
{i}let mut upstream_vec = Vec::with_capacity(payloads.len());
{i}for pw in payloads {{
{i}    // Slice trick: arg_witvalue_<snake> takes the standard
{i}    // `&[SqlValue]` / idx signature. Synthesise a one-element
{i}    // slice so we can reuse the helper from the aggregate
{i}    // finalize site.
{i}    let __args = [SqlValue::WitValue(pw)];
{i}    upstream_vec.push(arg_witvalue_{in_snake}(&__args, 0, "{sql_name}")?);
{i}}}
"#;

pub const RECORD_EXTRAS_UNWIRED: &'static str = "{i}return Err(format!(\"{sql_name}: AccKind::Record aggregate with extra args not yet wired\"));\n";

pub const RECORD_CALL: &'static str = r#"{i}let __r = {module}::{func}(&upstream_vec);
{i}match __r {{
{i}    Some(__rec) => ret_to_witvalue_{out_snake}(__rec),
{i}    None => Ok(SqlValue::Null),
{i}}}"#;

pub const FINALIZE_ROWS: &'static str = r#"{i}let payloads = take_witvalue_state(context_id);
{i}let mut upstream_vec = Vec::with_capacity(payloads.len());
{i}for pw in payloads {{
{i}    let __args = [SqlValue::WitValue(pw)];
{i}    upstream_vec.push(arg_witvalue_{in_snake}(&__args, 0, "{sql_name}")?);
{i}}}
"#;

pub const OPTIONAL_WRAP: &'static str = "match __r {{ Some(v) => Ok({some_wrap}), None => Ok(SqlValue::Null) }}";

pub const SCALAR_CALL: &'static str = r#"{i}let __r = {module}::{func}({call_args});
{i}{wrap}"#;

pub const TUPLE_OPTIONAL: &'static str = r#"match __r {{
{i}    Some(__t) => {{
{i}        let __json = serde_json::to_string(&__t)
{i}            .map_err(|e| format!("{sql_name}: encode JSON: {{}}", e))?;
{i}        Ok(SqlValue::Text(__json))
{i}    }}
{i}    None => Ok(SqlValue::Null),
{i}}}"#;

pub const TUPLE_BODY: &'static str = r#"{{
{i}    let __json = serde_json::to_string(&__r)
{i}        .map_err(|e| format!("{sql_name}: encode JSON: {{}}", e))?;
{i}    Ok(SqlValue::Text(__json))
{i}}}"#;

pub const TUPLE_CALL: &'static str = r#"{i}let __r = {module}::{func}({call_args});
{i}{body}"#;

} // verus!
