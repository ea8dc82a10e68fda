//! The texts that dispatch arms are made of. A name in braces is a hole.

use vstd::prelude::*;

verus! {

// ─── Arguments ───

pub const ARG_READ: &'static str = "(&args, {idx}, \"{sql_name}\")?";

pub const ARG_PLAIN: &'static str = "{i}let arg{idx} = ";

pub const ARG_GEOM: &'static str = "{i}let arg{idx} = from_wkb(";

pub const ARG_GEOG: &'static str = "{i}let arg{idx} = geog_from_wkb(";

pub const ARG_RASTER: &'static str = "{i}let arg{idx} = from_raster_binary(";

pub const ARG_TOPOLOGY: &'static str = "{i}let arg{idx} = from_topology_bytes(";

pub const ARG_RESOURCE_END: &'static str = ", \"{sql_name}\")?;\n";

pub const ARG_LIST_GEOM_REST: &'static str = r#"{i}let arg{idx}_owned: Vec<Geometry> = args[{idx}..]
{i}    .iter()
{i}    .enumerate()
{i}    .map(|(j, v)| match v {{
{i}        "#;

pub const ARG_LIST_GEOM_REST_END: &'static str = r#" => Geometry::from_wkb(b.as_slice())
{i}            .map_err(|e| types::Duckerror::Invalidargument(
{i}                format!("{sql_name}: arg {{}}: {{}}", {idx} + j, postgis_err_string(e)))),
{i}        types::Duckvalue::Text(t) => Geometry::from_wkb(t.as_bytes())
{i}            .map_err(|e| types::Duckerror::Invalidargument(
{i}                format!("{sql_name}: arg {{}}: {{}}", {idx} + j, postgis_err_string(e)))),
{i}        _ => Err(types::Duckerror::Invalidargument(
{i}            format!("{sql_name}: arg {{}} must be BLOB", {idx} + j))),
{i}    }})
{i}    .collect::<Result<Vec<_>, _>>()?;
{i}let arg{idx}: Vec<&Geometry> = arg{idx}_owned.iter().collect();
"#;

pub const ARG_LIST_GEOM_ONE: &'static str = "{i}let arg{idx}_one = from_wkb(";

pub const ARG_LIST_GEOM_ONE_END: &'static str = r#", "{sql_name}")?;
{i}let arg{idx}_owned: Vec<Geometry> = alloc::vec![arg{idx}_one];
{i}let arg{idx}: Vec<&Geometry> = arg{idx}_owned.iter().collect();
"#;

pub const ARG_ENUM: &'static str = "{i}let arg{idx} = match ";

pub const ARG_ENUM_END: &'static str = r#" {{
{arms}{i}    other => return Err(types::Duckerror::Invalidargument(format!(
{i}        "{sql_name}: arg {idx} ({kebab_name}) out of range: {{}} (valid 0..{max})",
{i}        other,
{i}    ))),
{i}}};
"#;

pub const ARG_LIST: &'static str = "{i}let arg{idx}: Vec<{rust_ty}> = ";

pub const ARG_LIST_LIST: &'static str = "{i}let arg{idx}: Vec<Vec<{rust_ty}>> = ";

// ─── Calls ───

pub const UNWRAP: &'static str = ".map_err(|e| types::Duckerror::Invalidargument(format!(\"{sql_name}: {{}}\", shim_err_string(e))))?";

// ─── Results ───
//
// What stands in front of a value and behind it. These texts name no value but null.

pub const RET_PLAIN: &'static str = "Ok(";

pub const RET_PLAIN_END: &'static str = ")";

pub const RET_BOUND: &'static str = r#"{{
{i}    let __r = {call_expr}{unwrap_chain};
{i}    Ok("#;

pub const RET_BOUND_END: &'static str = r#")
{i}}}"#;

pub const RET_OPTION: &'static str = r#"Ok(match {call_expr}{unwrap_chain} {{
{i}    Some(v) => "#;

pub const RET_OPTION_END: &'static str = r#",
{i}    None => types::Duckvalue::Null,
{i}}})"#;

pub const RET_FIRST_GEOM: &'static str = r#"{{
{i}    let __r: Vec<Geometry> = {call_expr}{unwrap_chain};
{i}    match __r.first() {{
{i}        Some(g) => Ok("#;

pub const RET_FIRST_RASTER: &'static str = r#"{{
{i}    let __r = {call_expr}{unwrap_chain};
{i}    match __r.into_iter().next() {{
{i}        Some(r) => Ok("#;

pub const RET_FIRST_TOPOLOGY: &'static str = r#"{{
{i}    let __r = {call_expr}{unwrap_chain};
{i}    match __r.into_iter().next() {{
{i}        Some(t) => Ok("#;

pub const RET_FIRST: &'static str = r#"{{
{i}    let __r = {call_expr}{unwrap_chain};
{i}    match __r.first() {{
{i}        Some(v) => Ok("#;

pub const RET_FIRST_TEXT: &'static str = r#"{{
{i}    let __r = {call_expr}{unwrap_chain};
{i}    match __r.into_iter().next() {{
{i}        Some(v) => Ok("#;

pub const RET_FIRST_END: &'static str = r#"),
{i}        None => Ok(types::Duckvalue::Null),
{i}    }}
{i}}}"#;

pub const RET_FIRST_OPTION: &'static str = r#"{{
{i}    let __r: Vec<Option<u32>> = {call_expr}{unwrap_chain};
{i}    match __r.first() {{
{i}        Some(Some(v)) => Ok("#;

pub const RET_FIRST_OPTION_END: &'static str = r#"),
{i}        Some(None) | None => Ok(types::Duckvalue::Null),
{i}    }}
{i}}}"#;

pub const RET_BBOX: &'static str = r#"{{
{i}    let __bb = {call_expr}{unwrap_chain};
{i}    let __env = pg_ctor::st_make_envelope(__bb.min_x, __bb.min_y, __bb.max_x, __bb.max_y);
{i}    Ok("#;

pub const RET_IS_VALID_DETAIL: &'static str = r#"{{
{i}    let (__valid, __reason, __loc) = {call_expr}{unwrap_chain};
{i}    let __reason_s = __reason.unwrap_or_default();
{i}    let __loc_s = match __loc {{
{i}        Some(g) => pg_out::st_as_text(&g),
{i}        None => alloc::string::String::new(),
{i}    }};
{i}    Ok("#;

pub const RET_IS_VALID_DETAIL_VALUE: &'static str = r#"format!(
{i}        "({{}},\"{{}}\",\"{{}}\")",
{i}        __valid, __reason_s, __loc_s
{i}    )"#;

pub const RET_BBOX3D: &'static str = r#"{{
{i}    let __bb = {call_expr}{unwrap_chain};
{i}    let mut __wkb: Vec<u8> = Vec::with_capacity(57);
{i}    // ISO-WKB header: little-endian, type 1002 (LINESTRING Z), 2 points.
{i}    __wkb.push(0x01u8);
{i}    __wkb.extend_from_slice(&1002u32.to_le_bytes());
{i}    __wkb.extend_from_slice(&2u32.to_le_bytes());
{i}    __wkb.extend_from_slice(&__bb.min_x.to_le_bytes());
{i}    __wkb.extend_from_slice(&__bb.min_y.to_le_bytes());
{i}    __wkb.extend_from_slice(&__bb.min_z.to_le_bytes());
{i}    __wkb.extend_from_slice(&__bb.max_x.to_le_bytes());
{i}    __wkb.extend_from_slice(&__bb.max_y.to_le_bytes());
{i}    __wkb.extend_from_slice(&__bb.max_z.to_le_bytes());
{i}    Ok("#;

pub const RET_ENUM: &'static str = r#"{{
{i}    let __r = {call_expr}{unwrap_chain};
{i}    let __disc: i64 = match __r {{
{arms}{i}    }};
{i}    Ok("#;

pub const RET_JSON: &'static str = r#"{{
{i}    let __r = {call_expr}{unwrap_chain};
{i}    let __json = serde_json::to_string(&__r)
{i}        .map_err(|e| types::Duckerror::Internal(format!("{sql_name}: encode JSON: {{}}", e)))?;
{i}    Ok("#;

pub const RET_JSON_OPTION_TUPLE: &'static str = r#"{{
{i}    match {call_expr}{unwrap_chain} {{
{i}        Some(__t) => {{
{i}            let __json = serde_json::to_string(&__t)
{i}                .map_err(|e| types::Duckerror::Internal(format!("{sql_name}: encode JSON: {{}}", e)))?;
{i}            Ok("#;

pub const RET_JSON_OPTION_LIST: &'static str = r#"{{
{i}    match {call_expr}{unwrap_chain} {{
{i}        Some(__v) => {{
{i}            let __json = serde_json::to_string(&__v)
{i}                .map_err(|e| types::Duckerror::Internal(format!("{sql_name}: encode JSON: {{}}", e)))?;
{i}            Ok("#;

pub const RET_JSON_OPTION_END: &'static str = r#")
{i}        }}
{i}        None => Ok(types::Duckvalue::Null),
{i}    }}
{i}}}"#;

pub const RET_JSON_GEOM_LIST: &'static str = r#"{{
{i}    let __r = {call_expr}{unwrap_chain};
{i}    let mut __out = alloc::string::String::from("[");
{i}    for (__i, (__g, __v)) in __r.into_iter().enumerate() {{
{i}        if __i > 0 {{ __out.push(','); }}
{i}        let __wkb = __g.as_wkb();
{i}        __out.push_str("[\"");
{i}        for __b in __wkb {{
{i}            use core::fmt::Write as _;
{i}            let _ = write!(&mut __out, "{{:02x}}", __b);
{i}        }}
{i}        __out.push_str("\",");
{i}        let __vj = serde_json::to_string(&__v)
{i}            .map_err(|e| types::Duckerror::Internal(format!("{sql_name}: encode JSON: {{}}", e)))?;
{i}        __out.push_str(&__vj);
{i}        __out.push(']');
{i}    }}
{i}    __out.push(']');
{i}    Ok("#;

pub const RET_OPTION_RECORD: &'static str = r#"match {call_expr}{unwrap_chain} {{
{i}    Some(__rec) => "#;

pub const RET_OPTION_RECORD_END: &'static str = r#",
{i}    None => Ok(types::Duckvalue::Null),
{i}}}"#;

pub const RET_FIRST_RECORD: &'static str = r#"{{
{i}    let __r = {call_expr}{unwrap_chain};
{i}    let mut __it = __r.into_iter();
{i}    match __it.next() {{
{i}        Some(__rec) => "#;

pub const RET_FIRST_RECORD_END: &'static str = r#",
{i}        None => Ok(types::Duckvalue::Null),
{i}    }}
{i}}}"#;

pub const RET_UNIT: &'static str = r#"let _ = {call_expr}{unwrap_chain};
{i}Ok(types::Duckvalue::Null)"#;

// ─── Aggregates ───

pub const AGG_EXTRAS_DECL: &'static str = "{i}let mut extras: Option<Vec<types::Duckvalue>> = None;\n";

pub const AGG_EXTRAS_LATCH: &'static str = r#"{i}    if extras.is_none() {{
{i}        extras = Some(row[1..].to_vec());
{i}    }}
"#;

pub const AGG_BLOBS: &'static str = r#"{i}let mut blobs: Vec<Vec<u8>> = Vec::with_capacity(rows.len());
{i}for row in &rows {{
{i}    if row.is_empty() {{ continue; }}
{i}    if matches!(row[0], types::Duckvalue::Null) {{ continue; }}
{i}    let bytes = dv_blob(row, 0, "{sql_name}")?;
{i}    blobs.push(bytes.to_vec());
{extras_latch}{i}}}
"#;

pub const AGG_DECODE_GEOM: &'static str = r#"{i}let resources: Vec<{resource_ty}> = blobs.iter()
{i}    .map(|b| {decode_call})
{i}    .collect::<Result<Vec<_>, _>>()
{i}    .map_err(|e| types::Duckerror::Invalidargument(
{i}        format!("{sql_name}: {{}}", {err_helper}(e))))?;
{i}let refs: Vec<&{resource_ty}> = resources.iter().collect();
"#;

pub const AGG_DECODE_RASTER: &'static str = r#"{i}let resources: Vec<{resource_ty}> = blobs.iter()
{i}    .map(|b| {decode_call})
{i}    .collect::<Result<Vec<_>, _>>()?;
{i}let refs: Vec<&{resource_ty}> = resources.iter().collect();
"#;

pub const AGG_EXTRAS_TAKE: &'static str = "{i}let extras = extras.unwrap_or_default();\n";

pub const EXTRA: &'static str = "{i}let extra{j} = ";

pub const EXTRA_READ: &'static str = "(&extras, {j}, \"{sql_name}\")?";

pub const EXTRA_UNWIRED: &'static str = "{i}Err(types::Duckerror::Unsupported(format!(\"{sql_name}: aggregate extra arg #{j} shape not wired\")))";

pub const AGG_RET_GEOM: &'static str = r#"{i}let r = {module}::{func}({call_args})
{i}    .map_err(|e| types::Duckerror::Invalidargument(
{i}        format!("{sql_name}: {{}}", postgis_err_string(e))))?;
{i}Ok("#;

pub const AGG_RET_RASTER: &'static str = r#"{i}let r = {module}::{func}({call_args})
{i}    .map_err(|e| types::Duckerror::Invalidargument(
{i}        format!("{sql_name}: {{}}", shim_err_string(e))))?;
{i}Ok("#;

pub const AGG_RET_FIRST_GEOM: &'static str = r#"{i}let r: Vec<Geometry> = {module}::{func}({call_args})
{i}    .map_err(|e| types::Duckerror::Invalidargument(
{i}        format!("{sql_name}: {{}}", postgis_err_string(e))))?;
{i}match r.first() {{
{i}    Some(g) => Ok("#;

pub const AGG_RET_FIRST_GEOM_END: &'static str = r#"),
{i}    None => Ok(types::Duckvalue::Null),
{i}}}"#;

pub const AGG_RET_FIRST_OPTION: &'static str = r#"{i}let r: Vec<Option<u32>> = {module}::{func}({call_args})
{i}    .map_err(|e| types::Duckerror::Invalidargument(
{i}        format!("{sql_name}: {{}}", postgis_err_string(e))))?;
{i}match r.first() {{
{i}    Some(Some(v)) => Ok("#;

pub const AGG_RET_FIRST_OPTION_END: &'static str = r#"),
{i}    Some(None) | None => Ok(types::Duckvalue::Null),
{i}}}"#;

pub const AGG_RET_BBOX3D: &'static str = r#"{i}let __bb = {module}::{func}({call_args});
{i}let mut __wkb: Vec<u8> = Vec::with_capacity(57);
{i}// ISO-WKB header: little-endian, type 1002 (LINESTRING Z), 2 points.
{i}__wkb.push(0x01u8);
{i}__wkb.extend_from_slice(&1002u32.to_le_bytes());
{i}__wkb.extend_from_slice(&2u32.to_le_bytes());
{i}__wkb.extend_from_slice(&__bb.min_x.to_le_bytes());
{i}__wkb.extend_from_slice(&__bb.min_y.to_le_bytes());
{i}__wkb.extend_from_slice(&__bb.min_z.to_le_bytes());
{i}__wkb.extend_from_slice(&__bb.max_x.to_le_bytes());
{i}__wkb.extend_from_slice(&__bb.max_y.to_le_bytes());
{i}__wkb.extend_from_slice(&__bb.max_z.to_le_bytes());
{i}Ok("#;

pub const AGG_RET_UNWIRED: &'static str = "{i}Err(types::Duckerror::Unsupported(format!(\"{sql_name}: aggregate return shape not wired\")))";

pub const AGG_RECORD_EXTRAS_UNWIRED: &'static str = r#"{i}return Err(types::Duckerror::Invalidargument(
{i}    format!("{sql_name}: AccKind::Record aggregate with extra args not yet wired")));
"#;

pub const AGG_RECORD_ROWS: &'static str = r#"{i}let mut upstream_vec = Vec::with_capacity(rows.len());
{i}for row in &rows {{
{i}    if row.is_empty() {{ continue; }}
{i}    if matches!(row[0], types::Duckvalue::Null) {{ continue; }}
{i}    upstream_vec.push(arg_witvalue_{in_snake}(row, 0, "{sql_name}")?);
{i}}}
"#;

pub const AGG_RECORD_CALL: &'static str = r#"{i}let __r = {module}::{func}(&upstream_vec);
{i}match __r {{
{i}    Some(__rec) => ret_to_witvalue_{out_snake}(__rec),
{i}    None => Ok(types::Duckvalue::Null),
{i}}}"#;

pub const AGG_ROWS: &'static str = r#"{i}let mut upstream_vec = Vec::with_capacity(rows.len());
{i}for row in &rows {{
{i}    if row.is_empty() {{ continue; }}
{i}    if matches!(row[0], types::Duckvalue::Null) {{ continue; }}
{i}    upstream_vec.push(arg_witvalue_{in_snake}(row, 0, "{sql_name}")?);
{extras_latch}{i}}}
"#;

pub const AGG_OPTIONAL_WRAP: &'static str = "match __r {{ Some(v) => Ok({some_wrap}), None => Ok(types::Duckvalue::Null) }}";

pub const AGG_SCALAR_CALL: &'static str = r#"{i}let __r = {module}::{func}({call_args});
{i}{wrap}"#;

pub const AGG_TUPLE_OPTIONAL: &'static str = r#"match __r {{
{i}    Some(__t) => {{
{i}        let __json = serde_json::to_string(&__t)
{i}            .map_err(|e| types::Duckerror::Internal(format!("{sql_name}: encode JSON: {{}}", e)))?;
{i}        Ok(types::Duckvalue::Text(__json))
{i}    }}
{i}    None => Ok(types::Duckvalue::Null),
{i}}}"#;

pub const AGG_TUPLE: &'static str = r#"{{
{i}    let __json = serde_json::to_string(&__r)
{i}        .map_err(|e| types::Duckerror::Internal(format!("{sql_name}: encode JSON: {{}}", e)))?;
{i}    Ok(types::Duckvalue::Text(__json))
{i}}}"#;

pub const AGG_TUPLE_CALL: &'static str = r#"{i}let __r = {module}::{func}({call_args});
{i}{body}"#;

// ─── Table functions ───

pub const UDTF_PARAM_UNWIRED: &'static str = "{i}Err(types::Duckerror::Unsupported(format!(\"{sql_name}: UDTF param #{idx} ({shape_name}) not wired\")))";

pub const UDTF_CALL: &'static str = "{i}let __upstream = {module}::{func}({call_args_str}){unwrap};\n";

pub const UDTF_SINGLE_GEOM: &'static str = r#"{i}let mut rows: Vec<Vec<types::Duckvalue>> = Vec::with_capacity(__upstream.len());
{i}for __g in __upstream.iter() {{
{i}    rows.push(alloc::vec!["#;

pub const UDTF_SINGLE_PRIMITIVE: &'static str = r#"{i}let mut rows: Vec<Vec<types::Duckvalue>> = Vec::with_capacity(__upstream.len());
{i}for __v in __upstream.iter() {{
{i}    rows.push(alloc::vec!["#;

pub const UDTF_SINGLE_END: &'static str = r#"]);
{i}}}
{i}Ok(rows)"#;

pub const UDTF_FIELD_OPTION: &'static str = "match __row.{snake} {{ Some(v) => ";

pub const UDTF_FIELD_OPTION_REF: &'static str = "match &__row.{snake} {{ Some(v) => ";

/// What follows the value of an optional field.
pub const UDTF_FIELD_OPTION_END: &'static str = ", None => types::Duckvalue::Null }";

pub const UDTF_RECORD: &'static str = r#"{i}let mut rows: Vec<Vec<types::Duckvalue>> = Vec::with_capacity(__upstream.len());
{i}for __row in __upstream.into_iter() {{
{i}    rows.push(alloc::vec![{row_block}]);
{i}}}
{i}Ok(rows)"#;

pub const UDTF_ROW_UNWIRED: &'static str = "{i}Err(types::Duckerror::Unsupported(format!(\"{sql_name}: UDTF row shape unwired: {r}\")))";

pub const UDTF_LIST_UNWIRED: &'static str = "{i}return Err(types::Duckerror::Unsupported(format!(\"{sql_name}: UDTF list-param shape not wired\")));\n";

// ─── Window functions ───

pub const WINDOW_EMPTY: &'static str = r#"{i}if partition.is_empty() {{
{i}    return Ok(types::Duckvalue::Null);
{i}}}
"#;

pub const WINDOW_GEOMS: &'static str = r#"{i}let mut __geoms: Vec<Geometry> = Vec::with_capacity(partition.len());
{i}for (__ri, __row) in partition.iter().enumerate() {{
{i}    if __row.is_empty() {{
{i}        return Err(types::Duckerror::Invalidargument(format!(
{i}            "{sql_name}: partition row {{}} is empty", __ri
{i}        )));
{i}    }}
{i}    let bytes = match &__row[0] {{
{i}        types::Duckvalue::Blob(b) => b.as_slice(),
{i}        types::Duckvalue::Text(t) => t.as_bytes(),
{i}        types::Duckvalue::Null => {{
{i}            return Err(types::Duckerror::Invalidargument(format!(
{i}                "{sql_name}: partition row {{}} col 0 is NULL", __ri
{i}            )));
{i}        }}
{i}        _ => {{
{i}            return Err(types::Duckerror::Invalidargument(format!(
{i}                "{sql_name}: partition row {{}} col 0 must be BLOB", __ri
{i}            )));
{i}        }}
{i}    }};
{i}    __geoms.push(Geometry::from_wkb(bytes).map_err(|e| {{
{i}        types::Duckerror::Invalidargument(format!(
{i}            "{sql_name}: row {{}} WKB decode: {{}}", __ri, postgis_err_string(e)
{i}        ))
{i}    }})?);
{i}}}
"#;

pub const WINDOW_EXTRA: &'static str = "{i}let __extra{j} = ";

pub const WINDOW_EXTRA_READ: &'static str = "(&partition[0], {arg_idx}, \"{sql_name}\")?";

pub const WINDOW_EXTRA_UNWIRED: &'static str = "{i}return Err(types::Duckerror::Unsupported(format!(\"{sql_name}: window extra arg #{j} shape not wired\")));";

pub const WINDOW_MAP_ERR: &'static str = ".map_err(|e| types::Duckerror::Invalidargument(format!(\"{sql_name}: {{}}\", postgis_err_string(e))))?";

pub const WINDOW_CALL: &'static str = r#"{i}let __geom_refs: Vec<&Geometry> = __geoms.iter().collect();
{i}let __labels = {module}::{func}(&__geom_refs{call_extras_lit}){map_err};
"#;

pub const WINDOW_PICK: &'static str = r#"{i}if __labels.is_empty() {{ return Ok(types::Duckvalue::Null); }}
{i}let __row_ix = if frame.end == 0 {{ 0usize }} else {{
{i}    let __e = (frame.end as usize).saturating_sub(1);
{i}    core::cmp::min(__e, __labels.len() - 1)
{i}}};
"#;

pub const WINDOW_RET_OPTION: &'static str = r#"{i}match __labels[__row_ix] {{
{i}    Some(__id) => Ok("#;

pub const WINDOW_RET_OPTION_END: &'static str = r#"),
{i}    None => Ok(types::Duckvalue::Null),
{i}}}
"#;

pub const WINDOW_RET: &'static str = "{i}Ok(";

pub const WINDOW_RET_END: &'static str = ")\n";

} // verus!
