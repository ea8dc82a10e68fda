//! The values that the results of scalar functions become, and the types that they are declared
//! as: both are fixed by the shape of a result.

use vstd::prelude::*;
use vstd::string::*;

use crate::calls;
use crate::duckdb::dispatch;
use crate::duckdb::dispatch_templates as t;
use crate::duckdb::register;
use crate::ir::{JsonRetKind, ListPrimElem, RetShape};
use crate::text;
use crate::words;

verus! {

/// A result is declared as the type of its shape and made with the variant of that type: a
/// floating-point number as `Float64`, from an expression that converts to nothing else, an
/// integer or a case of an enum as `Int64`, a boolean as `Boolean`, a text or JSON as `Text`,
/// bytes, geometries, rasters and topologies as `Blob`, and a record through the function of its
/// type. The expression calls the function with what handles its error, and a missing result
/// becomes null.
pub proof fn law_result_kinds(
    ret: RetShape,
    call: Seq<char>,
    chain: Seq<char>,
    sql_name: Seq<char>,
    i: Seq<char>,
)
    ensures
        ({
            let e = dispatch::return_expr(ret, call, chain, sql_name, i);
            match ret {
                RetShape::Text => {
                    &&& register::ret_logical(ret) == "types::Logicaltype::Text"@
                    &&& words::has_piece(e, "types::Duckvalue::Text(("@ + call + chain + ").into())"@)
                },
                RetShape::Blob => {
                    &&& register::ret_logical(ret) == "types::Logicaltype::Blob"@
                    &&& words::has_piece(e, "types::Duckvalue::Blob(("@ + call + chain + ").into())"@)
                },
                RetShape::Real => {
                    &&& register::ret_logical(ret) == "types::Logicaltype::Float64"@
                    &&& words::has_piece(e, "types::Duckvalue::Float64("@ + call + chain + ")"@)
                },
                RetShape::Int => {
                    &&& register::ret_logical(ret) == "types::Logicaltype::Int64"@
                    &&& words::has_piece(e, "types::Duckvalue::Int64("@ + call + chain + " as i64)"@)
                },
                RetShape::BoolInt => {
                    &&& register::ret_logical(ret) == "types::Logicaltype::Boolean"@
                    &&& words::has_piece(e, "types::Duckvalue::Boolean("@ + call + chain + ")"@)
                },
                RetShape::OptionText => {
                    &&& register::ret_logical(ret) == "types::Logicaltype::Text"@
                    &&& words::has_piece(e, "types::Duckvalue::Text(v.into())"@)
                    &&& words::has_piece(e, "Ok(match "@ + call + chain + " "@)
                    &&& words::has_piece(e, "Some(v) => "@)
                    &&& words::has_piece(e, "None => types::Duckvalue::Null"@)
                },
                RetShape::OptionReal => {
                    &&& register::ret_logical(ret) == "types::Logicaltype::Float64"@
                    &&& words::has_piece(e, "types::Duckvalue::Float64(v as f64)"@)
                    &&& words::has_piece(e, "Ok(match "@ + call + chain + " "@)
                    &&& words::has_piece(e, "Some(v) => "@)
                    &&& words::has_piece(e, "None => types::Duckvalue::Null"@)
                },
                RetShape::OptionInt => {
                    &&& register::ret_logical(ret) == "types::Logicaltype::Int64"@
                    &&& words::has_piece(e, "types::Duckvalue::Int64(v as i64)"@)
                    &&& words::has_piece(e, "Ok(match "@ + call + chain + " "@)
                    &&& words::has_piece(e, "Some(v) => "@)
                    &&& words::has_piece(e, "None => types::Duckvalue::Null"@)
                },
                RetShape::OptionBoolInt => {
                    &&& register::ret_logical(ret) == "types::Logicaltype::Boolean"@
                    &&& words::has_piece(e, "types::Duckvalue::Boolean(v)"@)
                    &&& words::has_piece(e, "Ok(match "@ + call + chain + " "@)
                    &&& words::has_piece(e, "Some(v) => "@)
                    &&& words::has_piece(e, "None => types::Duckvalue::Null"@)
                },
                RetShape::OptionBlob => {
                    &&& register::ret_logical(ret) == "types::Logicaltype::Blob"@
                    &&& words::has_piece(e, "types::Duckvalue::Blob(v.into())"@)
                    &&& words::has_piece(e, "Ok(match "@ + call + chain + " "@)
                    &&& words::has_piece(e, "Some(v) => "@)
                    &&& words::has_piece(e, "None => types::Duckvalue::Null"@)
                },
                RetShape::OptionGeomBlob => {
                    &&& register::ret_logical(ret) == "types::Logicaltype::Blob"@
                    &&& words::has_piece(e, "types::Duckvalue::Blob(v.as_wkb().into())"@)
                    &&& words::has_piece(e, "Ok(match "@ + call + chain + " "@)
                    &&& words::has_piece(e, "Some(v) => "@)
                    &&& words::has_piece(e, "None => types::Duckvalue::Null"@)
                },
                RetShape::OptionRasterBlob => {
                    &&& register::ret_logical(ret) == "types::Logicaltype::Blob"@
                    &&& words::has_piece(e, "types::Duckvalue::Blob(v.as_binary().into())"@)
                    &&& words::has_piece(e, "Ok(match "@ + call + chain + " "@)
                    &&& words::has_piece(e, "Some(v) => "@)
                    &&& words::has_piece(e, "None => types::Duckvalue::Null"@)
                },
                RetShape::OptionTopologyBlob => {
                    &&& register::ret_logical(ret) == "types::Logicaltype::Blob"@
                    &&& words::has_piece(e, "types::Duckvalue::Blob(v.to_bytes().into())"@)
                    &&& words::has_piece(e, "Ok(match "@ + call + chain + " "@)
                    &&& words::has_piece(e, "Some(v) => "@)
                    &&& words::has_piece(e, "None => types::Duckvalue::Null"@)
                },
                RetShape::FirstGeomBlob => {
                    &&& register::ret_logical(ret) == "types::Logicaltype::Blob"@
                    &&& words::has_piece(e, "types::Duckvalue::Blob(g.as_wkb().into())"@)
                    &&& words::has_piece(e, "let __r: Vec<Geometry> = "@ + call + chain + ";"@)
                    &&& words::has_piece(e, "Some(g) => Ok("@)
                    &&& words::has_piece(e, "None => Ok(types::Duckvalue::Null)"@)
                },
                RetShape::FirstRasterBlob => {
                    &&& register::ret_logical(ret) == "types::Logicaltype::Blob"@
                    &&& words::has_piece(e, "types::Duckvalue::Blob(r.as_binary().into())"@)
                    &&& words::has_piece(e, "let __r = "@ + call + chain + ";"@)
                    &&& words::has_piece(e, "Some(r) => Ok("@)
                    &&& words::has_piece(e, "None => Ok(types::Duckvalue::Null)"@)
                },
                RetShape::FirstTopologyBlob => {
                    &&& register::ret_logical(ret) == "types::Logicaltype::Blob"@
                    &&& words::has_piece(e, "types::Duckvalue::Blob(t.to_bytes().into())"@)
                    &&& words::has_piece(e, "let __r = "@ + call + chain + ";"@)
                    &&& words::has_piece(e, "Some(t) => Ok("@)
                    &&& words::has_piece(e, "None => Ok(types::Duckvalue::Null)"@)
                },
                RetShape::FirstOptionU32Int => {
                    &&& register::ret_logical(ret) == "types::Logicaltype::Int64"@
                    &&& words::has_piece(e, "types::Duckvalue::Int64(*v as i64)"@)
                    &&& words::has_piece(e, "let __r: Vec<Option<u32>> = "@ + call + chain + ";"@)
                    &&& words::has_piece(e, "Some(Some(v)) => Ok("@)
                    &&& words::has_piece(e, "Some(None) | None => Ok(types::Duckvalue::Null)"@)
                },
                RetShape::FirstInt => {
                    &&& register::ret_logical(ret) == "types::Logicaltype::Int64"@
                    &&& words::has_piece(e, "types::Duckvalue::Int64(*v as i64)"@)
                    &&& words::has_piece(e, "let __r = "@ + call + chain + ";"@)
                    &&& words::has_piece(e, "Some(v) => Ok("@)
                    &&& words::has_piece(e, "None => Ok(types::Duckvalue::Null)"@)
                },
                RetShape::FirstReal => {
                    &&& register::ret_logical(ret) == "types::Logicaltype::Float64"@
                    &&& words::has_piece(e, "types::Duckvalue::Float64(*v as f64)"@)
                    &&& words::has_piece(e, "let __r = "@ + call + chain + ";"@)
                    &&& words::has_piece(e, "Some(v) => Ok("@)
                    &&& words::has_piece(e, "None => Ok(types::Duckvalue::Null)"@)
                },
                RetShape::FirstText => {
                    &&& register::ret_logical(ret) == "types::Logicaltype::Text"@
                    &&& words::has_piece(e, "types::Duckvalue::Text(v.into())"@)
                    &&& words::has_piece(e, "let __r = "@ + call + chain + ";"@)
                    &&& words::has_piece(e, "Some(v) => Ok("@)
                    &&& words::has_piece(e, "None => Ok(types::Duckvalue::Null)"@)
                },
                RetShape::BboxBlob => {
                    &&& register::ret_logical(ret) == "types::Logicaltype::Blob"@
                    &&& words::has_piece(e, "types::Duckvalue::Blob(__env.as_wkb().into())"@)
                    &&& words::has_piece(e, "let __bb = "@ + call + chain + ";"@)
                    &&& words::has_piece(
                        e,
                        "st_make_envelope(__bb.min_x, __bb.min_y, __bb.max_x, __bb.max_y)"@,
                    )
                },
                RetShape::Bbox3dWkbLineZ => {
                    &&& register::ret_logical(ret) == "types::Logicaltype::Blob"@
                    &&& words::has_piece(e, "types::Duckvalue::Blob(__wkb)"@)
                    &&& words::has_piece(e, "let __bb = "@ + call + chain + ";"@)
                },
                RetShape::ListBool => {
                    &&& register::ret_logical(ret) == "types::Logicaltype::Text"@
                    &&& words::has_piece(e, "types::Duckvalue::Text(__json)"@)
                    &&& words::has_piece(e, "let __r = "@ + call + chain + ";"@)
                    &&& words::has_piece(e, "serde_json::to_string(&__r)"@)
                },
                RetShape::ListListU8 => {
                    &&& register::ret_logical(ret) == "types::Logicaltype::Text"@
                    &&& words::has_piece(e, "types::Duckvalue::Text(__json)"@)
                    &&& words::has_piece(e, "let __r = "@ + call + chain + ";"@)
                    &&& words::has_piece(e, "serde_json::to_string(&__r)"@)
                },
                RetShape::GeomBlob => {
                    &&& register::ret_logical(ret) == "types::Logicaltype::Blob"@
                    &&& chain.len() == 0 ==> words::has_piece(e, "types::Duckvalue::Blob("@ + call + ".as_wkb().into())"@)
                    &&& chain.len() > 0 ==> words::has_piece(e, "types::Duckvalue::Blob(__r.as_wkb().into())"@)
                    &&& chain.len() > 0 ==> words::has_piece(e, "let __r = "@ + call + chain + ";"@)
                },
                RetShape::RasterBlob => {
                    &&& register::ret_logical(ret) == "types::Logicaltype::Blob"@
                    &&& chain.len() == 0 ==> words::has_piece(
                        e,
                        "types::Duckvalue::Blob("@ + call + ".as_binary().into())"@,
                    )
                    &&& chain.len() > 0 ==> words::has_piece(e, "types::Duckvalue::Blob(__r.as_binary().into())"@)
                    &&& chain.len() > 0 ==> words::has_piece(e, "let __r = "@ + call + chain + ";"@)
                },
                RetShape::TopologyBlob => {
                    &&& register::ret_logical(ret) == "types::Logicaltype::Blob"@
                    &&& chain.len() == 0 ==> words::has_piece(e, "types::Duckvalue::Blob("@ + call + ".to_bytes().into())"@)
                    &&& chain.len() > 0 ==> words::has_piece(e, "types::Duckvalue::Blob(__r.to_bytes().into())"@)
                    &&& chain.len() > 0 ==> words::has_piece(e, "let __r = "@ + call + chain + ";"@)
                },
                RetShape::TopoGeometryViaGeom => {
                    &&& register::ret_logical(ret) == "types::Logicaltype::Blob"@
                    &&& chain.len() == 0 ==> words::has_piece(
                        e,
                        "types::Duckvalue::Blob("@ + call + ".geometry().as_wkb().into())"@,
                    )
                    &&& chain.len() > 0 ==> words::has_piece(e, "types::Duckvalue::Blob(__r.geometry().as_wkb().into())"@)
                    &&& chain.len() > 0 ==> words::has_piece(e, "let __r = "@ + call + chain + ";"@)
                },
                RetShape::IsValidDetailText => {
                    &&& register::ret_logical(ret) == "types::Logicaltype::Text"@
                    &&& words::has_piece(e, "types::Duckvalue::Text("@)
                    &&& words::has_piece(e, "__valid, __reason_s, __loc_s"@)
                    &&& words::has_piece(e, "let (__valid, __reason, __loc) = "@ + call + chain + ";"@)
                },
                RetShape::JsonText { kind } => match kind {
                    JsonRetKind::ListListPrim
                    | JsonRetKind::ListTuplePrim
                    | JsonRetKind::TuplePrim => {
                        &&& register::ret_logical(ret) == "types::Logicaltype::Text"@
                        &&& words::has_piece(e, "types::Duckvalue::Text(__json)"@)
                        &&& words::has_piece(e, "let __r = "@ + call + chain + ";"@)
                        &&& words::has_piece(e, "serde_json::to_string(&__r)"@)
                    },
                    JsonRetKind::OptionTuplePrim => {
                        &&& register::ret_logical(ret) == "types::Logicaltype::Text"@
                        &&& words::has_piece(e, "types::Duckvalue::Text(__json)"@)
                        &&& words::has_piece(e, "match "@ + call + chain + " "@)
                        &&& words::has_piece(e, "serde_json::to_string(&__t)"@)
                        &&& words::has_piece(e, "None => Ok(types::Duckvalue::Null)"@)
                    },
                    JsonRetKind::OptionListPrimRecord => {
                        &&& register::ret_logical(ret) == "types::Logicaltype::Text"@
                        &&& words::has_piece(e, "types::Duckvalue::Text(__json)"@)
                        &&& words::has_piece(e, "match "@ + call + chain + " "@)
                        &&& words::has_piece(e, "serde_json::to_string(&__v)"@)
                        &&& words::has_piece(e, "None => Ok(types::Duckvalue::Null)"@)
                    },
                    JsonRetKind::ListTupleGeomF64 => {
                        &&& register::ret_logical(ret) == "types::Logicaltype::Text"@
                        &&& words::has_piece(e, "types::Duckvalue::Text(__out)"@)
                        &&& words::has_piece(e, "let __r = "@ + call + chain + ";"@)
                        &&& words::has_piece(e, "let __wkb = __g.as_wkb();"@)
                        &&& words::has_piece(e, "serde_json::to_string(&__v)"@)
                    },
                },
                RetShape::Enum { wit_module, wit_package, kebab_name, cases } => {
                    &&& register::ret_logical(ret) == "types::Logicaltype::Int64"@
                    &&& words::has_piece(e, "types::Duckvalue::Int64(__disc)"@)
                    &&& words::has_piece(e, "let __r = "@ + call + chain + ";"@)
                    &&& words::has_piece(e, "let __disc: i64 = match __r "@)
                    &&& words::has_piece(
                        e,
                        calls::case_arms(i, wit_module@, kebab_name@, cases@, cases@.len()),
                    )
                },
                RetShape::TuplePick { index, elem } => {
                    &&& words::has_piece(e, "let __r = "@ + call + chain + ";"@)
                    &&& match elem {
                        ListPrimElem::F64
                        | ListPrimElem::F32 => register::ret_logical(ret)
                            == "types::Logicaltype::Float64"@ && words::has_piece(
                                e,
                                "types::Duckvalue::Float64(__r."@ + words::decimal(index as nat)
                                    + " as f64)"@,
                            ),
                        ListPrimElem::String => register::ret_logical(ret)
                            == "types::Logicaltype::Text"@ && words::has_piece(
                                e,
                                "types::Duckvalue::Text(__r."@ + words::decimal(index as nat)
                                    + ".into())"@,
                            ),
                        ListPrimElem::Bool => register::ret_logical(ret)
                            == "types::Logicaltype::Boolean"@ && words::has_piece(
                                e,
                                "types::Duckvalue::Boolean(__r."@ + words::decimal(index as nat)
                                    + ")"@,
                            ),
                        ListPrimElem::S32
                        | ListPrimElem::S64
                        | ListPrimElem::U32
                        | ListPrimElem::U64
                        | ListPrimElem::U8 => register::ret_logical(ret)
                            == "types::Logicaltype::Int64"@ && words::has_piece(
                                e,
                                "types::Duckvalue::Int64(__r."@ + words::decimal(index as nat)
                                    + " as i64)"@,
                            ),
                    }
                },
                RetShape::WitValueRecord { kebab_name } => {
                    &&& register::ret_logical(ret)
                        == "types::Logicaltype::Complex(\"VARCHAR\".into())"@
                    &&& words::has_piece(
                        e,
                        "ret_to_witvalue_"@ + words::snake(kebab_name@) + "("@ + call + chain
                            + ")"@,
                    )
                },
                RetShape::OptionWitValueRecord { kebab_name } => {
                    &&& register::ret_logical(ret)
                        == "types::Logicaltype::Complex(\"VARCHAR\".into())"@
                    &&& words::has_piece(
                        e,
                        "ret_to_witvalue_"@ + words::snake(kebab_name@) + "(__rec)"@,
                    )
                    &&& words::has_piece(e, "match "@ + call + chain + " "@)
                    &&& words::has_piece(e, "Some(__rec) => "@)
                    &&& words::has_piece(e, "None => Ok(types::Duckvalue::Null)"@)
                },
                RetShape::FirstWitValueRecord { kebab_name } => {
                    &&& register::ret_logical(ret)
                        == "types::Logicaltype::Complex(\"VARCHAR\".into())"@
                    &&& words::has_piece(
                        e,
                        "ret_to_witvalue_"@ + words::snake(kebab_name@) + "(__rec)"@,
                    )
                    &&& words::has_piece(e, "let __r = "@ + call + chain + ";"@)
                    &&& words::has_piece(e, "Some(__rec) => "@)
                    &&& words::has_piece(e, "None => Ok(types::Duckvalue::Null)"@)
                },
                RetShape::Unit => {
                    &&& words::has_piece(e, "let _ = "@ + call + chain + ";"@)
                    &&& words::has_piece(e, "Ok(types::Duckvalue::Null)"@)
                },
                RetShape::OptionEnum { .. } => !dispatch::ret_wired(ret),
            }
        }),
{
    match ret {
        RetShape::Text => lemma_made_text(ret, call, chain, sql_name, i),
        RetShape::Blob => lemma_made_blob(ret, call, chain, sql_name, i),
        RetShape::Real => lemma_made_real(ret, call, chain, sql_name, i),
        RetShape::Int => lemma_made_int(ret, call, chain, sql_name, i),
        RetShape::BoolInt => lemma_made_bool_int(ret, call, chain, sql_name, i),
        RetShape::OptionText => lemma_made_option_text(ret, call, chain, sql_name, i),
        RetShape::OptionReal => lemma_made_option_real(ret, call, chain, sql_name, i),
        RetShape::OptionInt => lemma_made_option_int(ret, call, chain, sql_name, i),
        RetShape::OptionBoolInt => lemma_made_option_bool_int(ret, call, chain, sql_name, i),
        RetShape::OptionBlob => lemma_made_option_blob(ret, call, chain, sql_name, i),
        RetShape::OptionGeomBlob => lemma_made_option_geom_blob(ret, call, chain, sql_name, i),
        RetShape::OptionRasterBlob => lemma_made_option_raster_blob(ret, call, chain, sql_name, i),
        RetShape::OptionTopologyBlob => lemma_made_option_topology_blob(ret, call, chain, sql_name, i),
        RetShape::FirstGeomBlob => lemma_made_first_geom_blob(ret, call, chain, sql_name, i),
        RetShape::FirstRasterBlob => lemma_made_first_raster_blob(ret, call, chain, sql_name, i),
        RetShape::FirstTopologyBlob => lemma_made_first_topology_blob(ret, call, chain, sql_name, i),
        RetShape::FirstOptionU32Int => lemma_made_first_option_u32_int(ret, call, chain, sql_name, i),
        RetShape::FirstInt => lemma_made_first_int(ret, call, chain, sql_name, i),
        RetShape::FirstReal => lemma_made_first_real(ret, call, chain, sql_name, i),
        RetShape::FirstText => lemma_made_first_text(ret, call, chain, sql_name, i),
        RetShape::BboxBlob => lemma_made_bbox_blob(ret, call, chain, sql_name, i),
        RetShape::Bbox3dWkbLineZ => lemma_made_bbox3d_wkb_line_z(ret, call, chain, sql_name, i),
        RetShape::ListBool => lemma_made_list_bool(ret, call, chain, sql_name, i),
        RetShape::ListListU8 => lemma_made_list_list_u8(ret, call, chain, sql_name, i),
        RetShape::GeomBlob => if chain.len() == 0 {
            lemma_made_geom_blob_bare(ret, call, chain, sql_name, i)
        } else {
            lemma_made_geom_blob_bound(ret, call, chain, sql_name, i)
        },
        RetShape::RasterBlob => if chain.len() == 0 {
            lemma_made_raster_blob_bare(ret, call, chain, sql_name, i)
        } else {
            lemma_made_raster_blob_bound(ret, call, chain, sql_name, i)
        },
        RetShape::TopologyBlob => if chain.len() == 0 {
            lemma_made_topology_blob_bare(ret, call, chain, sql_name, i)
        } else {
            lemma_made_topology_blob_bound(ret, call, chain, sql_name, i)
        },
        RetShape::TopoGeometryViaGeom => if chain.len() == 0 {
            lemma_made_topo_geometry_via_geom_bare(ret, call, chain, sql_name, i)
        } else {
            lemma_made_topo_geometry_via_geom_bound(ret, call, chain, sql_name, i)
        },
        RetShape::IsValidDetailText => lemma_made_is_valid_detail_text(ret, call, chain, sql_name, i),
        RetShape::JsonText { kind } => match kind {
            JsonRetKind::ListListPrim => lemma_made_json_list_list_prim(ret, call, chain, sql_name, i),
            JsonRetKind::ListTuplePrim => lemma_made_json_list_list_prim(ret, call, chain, sql_name, i),
            JsonRetKind::TuplePrim => lemma_made_json_list_list_prim(ret, call, chain, sql_name, i),
            JsonRetKind::OptionTuplePrim => lemma_made_json_option_tuple_prim(ret, call, chain, sql_name, i),
            JsonRetKind::OptionListPrimRecord => lemma_made_json_option_list_prim_record(ret, call, chain, sql_name, i),
            JsonRetKind::ListTupleGeomF64 => lemma_made_json_list_tuple_geom_f64(ret, call, chain, sql_name, i),
        },
        RetShape::Enum { .. } => lemma_made_enum(ret, call, chain, sql_name, i),
        RetShape::TuplePick { index, elem } => {
            let arms = dispatch::result_texts(ret, i).0;
            let element = dispatch::result_texts(ret, i).1;
            let d = words::decimal(index as nat);
            let value = dispatch::result_value(ret, call, chain, sql_name, i);
            lemma_source_bound_r_element(i, call, chain, sql_name, arms, element);
            lemma_ret_bound(i, call, chain, sql_name, arms, element);
            lemma_in_frame(ret, call, chain, sql_name, i);
            reveal_strlit("(");
            reveal_strlit(")");
            reveal_strlit("__r.");
            match elem {
                ListPrimElem::F64 | ListPrimElem::F32 => {
                    reveal_strlit("types::Duckvalue::Float64");
                    reveal_strlit("types::Duckvalue::Float64(__r.");
                    reveal_strlit(" as f64");
                    reveal_strlit(" as f64)");
                    assert("types::Duckvalue::Float64"@ + "("@ + "__r."@
                        =~= "types::Duckvalue::Float64(__r."@);
                    assert(" as f64"@ + ")"@ =~= " as f64)"@);
                    assert(value =~= "types::Duckvalue::Float64(__r."@ + d + " as f64)"@);
                },
                ListPrimElem::String => {
                    reveal_strlit("types::Duckvalue::Text");
                    reveal_strlit("types::Duckvalue::Text(__r.");
                    reveal_strlit(".into()");
                    reveal_strlit(".into())");
                    assert("types::Duckvalue::Text"@ + "("@ + "__r."@ =~= "types::Duckvalue::Text(__r."@);
                    assert(".into()"@ + ")"@ =~= ".into())"@);
                    assert(value =~= "types::Duckvalue::Text(__r."@ + d + ".into())"@);
                },
                ListPrimElem::Bool => {
                    reveal_strlit("types::Duckvalue::Boolean");
                    reveal_strlit("types::Duckvalue::Boolean(__r.");
                    reveal_strlit("");
                    reveal_strlit(")");
                    assert("types::Duckvalue::Boolean"@ + "("@ + "__r."@
                        =~= "types::Duckvalue::Boolean(__r."@);
                    assert(""@ + ")"@ =~= ")"@);
                    assert(value =~= "types::Duckvalue::Boolean(__r."@ + d + ")"@);
                },
                ListPrimElem::S32 | ListPrimElem::S64 | ListPrimElem::U32 | ListPrimElem::U64 | ListPrimElem::U8 => {
                    reveal_strlit("types::Duckvalue::Int64");
                    reveal_strlit("types::Duckvalue::Int64(__r.");
                    reveal_strlit(" as i64");
                    reveal_strlit(" as i64)");
                    assert("types::Duckvalue::Int64"@ + "("@ + "__r."@ =~= "types::Duckvalue::Int64(__r."@);
                    assert(" as i64"@ + ")"@ =~= " as i64)"@);
                    assert(value =~= "types::Duckvalue::Int64(__r."@ + d + " as i64)"@);
                },
            }
        },
        RetShape::WitValueRecord { kebab_name } => {
            let arms = dispatch::result_texts(ret, i).0;
            let element = dispatch::result_texts(ret, i).1;
            lemma_source_call_chain(i, call, chain, sql_name, arms, element);
            lemma_in_frame(ret, call, chain, sql_name, i);
            assert(dispatch::result_value(ret, call, chain, sql_name, i)
                =~= "ret_to_witvalue_"@ + words::snake(kebab_name@) + "("@ + call + chain + ")"@);
        },
        RetShape::OptionWitValueRecord { kebab_name } => {
            let arms = dispatch::result_texts(ret, i).0;
            let element = dispatch::result_texts(ret, i).1;
            lemma_source_bound_rec(i, call, chain, sql_name, arms, element);
            lemma_ret_option_record(i, call, chain, sql_name, arms, element);
            lemma_ret_option_record_end(i, call, chain, sql_name, arms, element);
            reveal_strlit("__rec");
            reveal_strlit("(__rec)");
            reveal_strlit("(");
            reveal_strlit(")");
            assert("("@ + "__rec"@ + ")"@ =~= "(__rec)"@);
            lemma_in_frame(ret, call, chain, sql_name, i);
            assert(dispatch::result_value(ret, call, chain, sql_name, i)
                =~= "ret_to_witvalue_"@ + words::snake(kebab_name@) + "(__rec)"@);
        },
        RetShape::FirstWitValueRecord { kebab_name } => {
            let arms = dispatch::result_texts(ret, i).0;
            let element = dispatch::result_texts(ret, i).1;
            lemma_source_bound_rec(i, call, chain, sql_name, arms, element);
            lemma_ret_first_record(i, call, chain, sql_name, arms, element);
            lemma_ret_first_record_end(i, call, chain, sql_name, arms, element);
            reveal_strlit("__rec");
            reveal_strlit("(__rec)");
            reveal_strlit("(");
            reveal_strlit(")");
            assert("("@ + "__rec"@ + ")"@ =~= "(__rec)"@);
            lemma_in_frame(ret, call, chain, sql_name, i);
            assert(dispatch::result_value(ret, call, chain, sql_name, i)
                =~= "ret_to_witvalue_"@ + words::snake(kebab_name@) + "(__rec)"@);
        },
        RetShape::Unit => {
            let arms = dispatch::result_texts(ret, i).0;
            let element = dispatch::result_texts(ret, i).1;
            lemma_ret_unit(i, call, chain, sql_name, arms, element);
        },
        RetShape::OptionEnum { .. } => {},
    }
}

/// What the texts around a value hold, and the value itself, the whole expression holds.
proof fn lemma_in_frame(
    ret: RetShape,
    call: Seq<char>,
    chain: Seq<char>,
    sql_name: Seq<char>,
    i: Seq<char>,
)
    requires
        !(ret is Unit),
    ensures
        ({
            let e = dispatch::return_expr(ret, call, chain, sql_name, i);
            let holes = dispatch::result_holes(ret, call, chain, sql_name, i);
            let frame = dispatch::result_frame(ret, chain.len() == 0);
            &&& words::has_piece(e, dispatch::result_value(ret, call, chain, sql_name, i))
            &&& forall|p: Seq<char>| #[trigger]
                words::has_piece(text::fill(frame.0, holes), p) ==> words::has_piece(e, p)
            &&& forall|p: Seq<char>| #[trigger]
                words::has_piece(text::fill(frame.1, holes), p) ==> words::has_piece(e, p)
        }),
{
    let holes = dispatch::result_holes(ret, call, chain, sql_name, i);
    let frame = dispatch::result_frame(ret, chain.len() == 0);
    let before = text::fill(frame.0, holes);
    let after = text::fill(frame.1, holes);
    let value = dispatch::result_value(ret, call, chain, sql_name, i);
    words::lemma_pieces_around(before, value, after);
}

proof fn lemma_made_text(
    ret: RetShape,
    call: Seq<char>,
    chain: Seq<char>,
    sql_name: Seq<char>,
    i: Seq<char>,
)
    requires
        ret is Text,
    ensures
        ({
            let e = dispatch::return_expr(ret, call, chain, sql_name, i);
            &&& register::ret_logical(ret) == "types::Logicaltype::Text"@
            &&& words::has_piece(e, "types::Duckvalue::Text(("@ + call + chain + ").into())"@)
        }),
{
    let arms = dispatch::result_texts(ret, i).0;
    let element = dispatch::result_texts(ret, i).1;
    lemma_source_call_chain_into(i, call, chain, sql_name, arms, element);
    reveal_strlit("types::Duckvalue::Text((");
    reveal_strlit(").into())");
    reveal_strlit("(");
    reveal_strlit(").into()");
    reveal_strlit("types::Duckvalue::Text");
    reveal_strlit(")");
    assert(dispatch::result_value(ret, call, chain, sql_name, i)
        =~= "types::Duckvalue::Text(("@ + call + chain + ").into())"@);
    lemma_in_frame(ret, call, chain, sql_name, i);
}

proof fn lemma_made_blob(
    ret: RetShape,
    call: Seq<char>,
    chain: Seq<char>,
    sql_name: Seq<char>,
    i: Seq<char>,
)
    requires
        ret is Blob,
    ensures
        ({
            let e = dispatch::return_expr(ret, call, chain, sql_name, i);
            &&& register::ret_logical(ret) == "types::Logicaltype::Blob"@
            &&& words::has_piece(e, "types::Duckvalue::Blob(("@ + call + chain + ").into())"@)
        }),
{
    let arms = dispatch::result_texts(ret, i).0;
    let element = dispatch::result_texts(ret, i).1;
    lemma_source_call_chain_into(i, call, chain, sql_name, arms, element);
    reveal_strlit("types::Duckvalue::Blob((");
    reveal_strlit(").into())");
    reveal_strlit("(");
    reveal_strlit(").into()");
    reveal_strlit("types::Duckvalue::Blob");
    reveal_strlit(")");
    assert(dispatch::result_value(ret, call, chain, sql_name, i)
        =~= "types::Duckvalue::Blob(("@ + call + chain + ").into())"@);
    lemma_in_frame(ret, call, chain, sql_name, i);
}

proof fn lemma_made_real(
    ret: RetShape,
    call: Seq<char>,
    chain: Seq<char>,
    sql_name: Seq<char>,
    i: Seq<char>,
)
    requires
        ret is Real,
    ensures
        ({
            let e = dispatch::return_expr(ret, call, chain, sql_name, i);
            &&& register::ret_logical(ret) == "types::Logicaltype::Float64"@
            &&& words::has_piece(e, "types::Duckvalue::Float64("@ + call + chain + ")"@)
        }),
{
    let arms = dispatch::result_texts(ret, i).0;
    let element = dispatch::result_texts(ret, i).1;
    lemma_source_call_chain(i, call, chain, sql_name, arms, element);
    reveal_strlit("types::Duckvalue::Float64(");
    reveal_strlit(")");
    reveal_strlit("types::Duckvalue::Float64");
    reveal_strlit("(");
    assert(dispatch::result_value(ret, call, chain, sql_name, i)
        =~= "types::Duckvalue::Float64("@ + call + chain + ")"@);
    lemma_in_frame(ret, call, chain, sql_name, i);
}

proof fn lemma_made_int(
    ret: RetShape,
    call: Seq<char>,
    chain: Seq<char>,
    sql_name: Seq<char>,
    i: Seq<char>,
)
    requires
        ret is Int,
    ensures
        ({
            let e = dispatch::return_expr(ret, call, chain, sql_name, i);
            &&& register::ret_logical(ret) == "types::Logicaltype::Int64"@
            &&& words::has_piece(e, "types::Duckvalue::Int64("@ + call + chain + " as i64)"@)
        }),
{
    let arms = dispatch::result_texts(ret, i).0;
    let element = dispatch::result_texts(ret, i).1;
    lemma_source_call_chain_as_i64(i, call, chain, sql_name, arms, element);
    reveal_strlit("types::Duckvalue::Int64(");
    reveal_strlit(" as i64)");
    reveal_strlit(" as i64");
    reveal_strlit("types::Duckvalue::Int64");
    reveal_strlit("(");
    reveal_strlit(")");
    assert(dispatch::result_value(ret, call, chain, sql_name, i)
        =~= "types::Duckvalue::Int64("@ + call + chain + " as i64)"@);
    lemma_in_frame(ret, call, chain, sql_name, i);
}

proof fn lemma_made_bool_int(
    ret: RetShape,
    call: Seq<char>,
    chain: Seq<char>,
    sql_name: Seq<char>,
    i: Seq<char>,
)
    requires
        ret is BoolInt,
    ensures
        ({
            let e = dispatch::return_expr(ret, call, chain, sql_name, i);
            &&& register::ret_logical(ret) == "types::Logicaltype::Boolean"@
            &&& words::has_piece(e, "types::Duckvalue::Boolean("@ + call + chain + ")"@)
        }),
{
    let arms = dispatch::result_texts(ret, i).0;
    let element = dispatch::result_texts(ret, i).1;
    lemma_source_call_chain(i, call, chain, sql_name, arms, element);
    reveal_strlit("types::Duckvalue::Boolean(");
    reveal_strlit(")");
    reveal_strlit("types::Duckvalue::Boolean");
    reveal_strlit("(");
    assert(dispatch::result_value(ret, call, chain, sql_name, i)
        =~= "types::Duckvalue::Boolean("@ + call + chain + ")"@);
    lemma_in_frame(ret, call, chain, sql_name, i);
}

proof fn lemma_made_option_text(
    ret: RetShape,
    call: Seq<char>,
    chain: Seq<char>,
    sql_name: Seq<char>,
    i: Seq<char>,
)
    requires
        ret is OptionText,
    ensures
        ({
            let e = dispatch::return_expr(ret, call, chain, sql_name, i);
            &&& register::ret_logical(ret) == "types::Logicaltype::Text"@
            &&& words::has_piece(e, "types::Duckvalue::Text(v.into())"@)
            &&& words::has_piece(e, "Ok(match "@ + call + chain + " "@)
            &&& words::has_piece(e, "Some(v) => "@)
            &&& words::has_piece(e, "None => types::Duckvalue::Null"@)
        }),
{
    let arms = dispatch::result_texts(ret, i).0;
    let element = dispatch::result_texts(ret, i).1;
    lemma_source_v_into(i, call, chain, sql_name, arms, element);
    reveal_strlit("types::Duckvalue::Text(v.into())");
    reveal_strlit("v.into()");
    reveal_strlit("types::Duckvalue::Text");
    reveal_strlit("(");
    reveal_strlit(")");
    assert(dispatch::result_value(ret, call, chain, sql_name, i) =~= "types::Duckvalue::Text(v.into())"@);
    lemma_ret_option(i, call, chain, sql_name, arms, element);
    lemma_ret_option_end(i, call, chain, sql_name, arms, element);
    lemma_in_frame(ret, call, chain, sql_name, i);
}

proof fn lemma_made_option_real(
    ret: RetShape,
    call: Seq<char>,
    chain: Seq<char>,
    sql_name: Seq<char>,
    i: Seq<char>,
)
    requires
        ret is OptionReal,
    ensures
        ({
            let e = dispatch::return_expr(ret, call, chain, sql_name, i);
            &&& register::ret_logical(ret) == "types::Logicaltype::Float64"@
            &&& words::has_piece(e, "types::Duckvalue::Float64(v as f64)"@)
            &&& words::has_piece(e, "Ok(match "@ + call + chain + " "@)
            &&& words::has_piece(e, "Some(v) => "@)
            &&& words::has_piece(e, "None => types::Duckvalue::Null"@)
        }),
{
    let arms = dispatch::result_texts(ret, i).0;
    let element = dispatch::result_texts(ret, i).1;
    lemma_source_v_as_f64(i, call, chain, sql_name, arms, element);
    reveal_strlit("types::Duckvalue::Float64(v as f64)");
    reveal_strlit("v as f64");
    reveal_strlit("types::Duckvalue::Float64");
    reveal_strlit("(");
    reveal_strlit(")");
    assert(dispatch::result_value(ret, call, chain, sql_name, i)
        =~= "types::Duckvalue::Float64(v as f64)"@);
    lemma_ret_option(i, call, chain, sql_name, arms, element);
    lemma_ret_option_end(i, call, chain, sql_name, arms, element);
    lemma_in_frame(ret, call, chain, sql_name, i);
}

proof fn lemma_made_option_int(
    ret: RetShape,
    call: Seq<char>,
    chain: Seq<char>,
    sql_name: Seq<char>,
    i: Seq<char>,
)
    requires
        ret is OptionInt,
    ensures
        ({
            let e = dispatch::return_expr(ret, call, chain, sql_name, i);
            &&& register::ret_logical(ret) == "types::Logicaltype::Int64"@
            &&& words::has_piece(e, "types::Duckvalue::Int64(v as i64)"@)
            &&& words::has_piece(e, "Ok(match "@ + call + chain + " "@)
            &&& words::has_piece(e, "Some(v) => "@)
            &&& words::has_piece(e, "None => types::Duckvalue::Null"@)
        }),
{
    let arms = dispatch::result_texts(ret, i).0;
    let element = dispatch::result_texts(ret, i).1;
    lemma_source_v_as_i64(i, call, chain, sql_name, arms, element);
    reveal_strlit("types::Duckvalue::Int64(v as i64)");
    reveal_strlit("v as i64");
    reveal_strlit("types::Duckvalue::Int64");
    reveal_strlit("(");
    reveal_strlit(")");
    assert(dispatch::result_value(ret, call, chain, sql_name, i) =~= "types::Duckvalue::Int64(v as i64)"@);
    lemma_ret_option(i, call, chain, sql_name, arms, element);
    lemma_ret_option_end(i, call, chain, sql_name, arms, element);
    lemma_in_frame(ret, call, chain, sql_name, i);
}

proof fn lemma_made_option_bool_int(
    ret: RetShape,
    call: Seq<char>,
    chain: Seq<char>,
    sql_name: Seq<char>,
    i: Seq<char>,
)
    requires
        ret is OptionBoolInt,
    ensures
        ({
            let e = dispatch::return_expr(ret, call, chain, sql_name, i);
            &&& register::ret_logical(ret) == "types::Logicaltype::Boolean"@
            &&& words::has_piece(e, "types::Duckvalue::Boolean(v)"@)
            &&& words::has_piece(e, "Ok(match "@ + call + chain + " "@)
            &&& words::has_piece(e, "Some(v) => "@)
            &&& words::has_piece(e, "None => types::Duckvalue::Null"@)
        }),
{
    let arms = dispatch::result_texts(ret, i).0;
    let element = dispatch::result_texts(ret, i).1;
    lemma_source_v(i, call, chain, sql_name, arms, element);
    reveal_strlit("types::Duckvalue::Boolean(v)");
    reveal_strlit("v");
    reveal_strlit("types::Duckvalue::Boolean");
    reveal_strlit("(");
    reveal_strlit(")");
    assert(dispatch::result_value(ret, call, chain, sql_name, i) =~= "types::Duckvalue::Boolean(v)"@);
    lemma_ret_option(i, call, chain, sql_name, arms, element);
    lemma_ret_option_end(i, call, chain, sql_name, arms, element);
    lemma_in_frame(ret, call, chain, sql_name, i);
}

proof fn lemma_made_option_blob(
    ret: RetShape,
    call: Seq<char>,
    chain: Seq<char>,
    sql_name: Seq<char>,
    i: Seq<char>,
)
    requires
        ret is OptionBlob,
    ensures
        ({
            let e = dispatch::return_expr(ret, call, chain, sql_name, i);
            &&& register::ret_logical(ret) == "types::Logicaltype::Blob"@
            &&& words::has_piece(e, "types::Duckvalue::Blob(v.into())"@)
            &&& words::has_piece(e, "Ok(match "@ + call + chain + " "@)
            &&& words::has_piece(e, "Some(v) => "@)
            &&& words::has_piece(e, "None => types::Duckvalue::Null"@)
        }),
{
    let arms = dispatch::result_texts(ret, i).0;
    let element = dispatch::result_texts(ret, i).1;
    lemma_source_v_into(i, call, chain, sql_name, arms, element);
    reveal_strlit("types::Duckvalue::Blob(v.into())");
    reveal_strlit("v.into()");
    reveal_strlit("types::Duckvalue::Blob");
    reveal_strlit("(");
    reveal_strlit(")");
    assert(dispatch::result_value(ret, call, chain, sql_name, i) =~= "types::Duckvalue::Blob(v.into())"@);
    lemma_ret_option(i, call, chain, sql_name, arms, element);
    lemma_ret_option_end(i, call, chain, sql_name, arms, element);
    lemma_in_frame(ret, call, chain, sql_name, i);
}

proof fn lemma_made_option_geom_blob(
    ret: RetShape,
    call: Seq<char>,
    chain: Seq<char>,
    sql_name: Seq<char>,
    i: Seq<char>,
)
    requires
        ret is OptionGeomBlob,
    ensures
        ({
            let e = dispatch::return_expr(ret, call, chain, sql_name, i);
            &&& register::ret_logical(ret) == "types::Logicaltype::Blob"@
            &&& words::has_piece(e, "types::Duckvalue::Blob(v.as_wkb().into())"@)
            &&& words::has_piece(e, "Ok(match "@ + call + chain + " "@)
            &&& words::has_piece(e, "Some(v) => "@)
            &&& words::has_piece(e, "None => types::Duckvalue::Null"@)
        }),
{
    let arms = dispatch::result_texts(ret, i).0;
    let element = dispatch::result_texts(ret, i).1;
    lemma_source_v_as_wkb_into(i, call, chain, sql_name, arms, element);
    reveal_strlit("types::Duckvalue::Blob(v.as_wkb().into())");
    reveal_strlit("v.as_wkb().into()");
    reveal_strlit("types::Duckvalue::Blob");
    reveal_strlit("(");
    reveal_strlit(")");
    assert(dispatch::result_value(ret, call, chain, sql_name, i)
        =~= "types::Duckvalue::Blob(v.as_wkb().into())"@);
    lemma_ret_option(i, call, chain, sql_name, arms, element);
    lemma_ret_option_end(i, call, chain, sql_name, arms, element);
    lemma_in_frame(ret, call, chain, sql_name, i);
}

proof fn lemma_made_option_raster_blob(
    ret: RetShape,
    call: Seq<char>,
    chain: Seq<char>,
    sql_name: Seq<char>,
    i: Seq<char>,
)
    requires
        ret is OptionRasterBlob,
    ensures
        ({
            let e = dispatch::return_expr(ret, call, chain, sql_name, i);
            &&& register::ret_logical(ret) == "types::Logicaltype::Blob"@
            &&& words::has_piece(e, "types::Duckvalue::Blob(v.as_binary().into())"@)
            &&& words::has_piece(e, "Ok(match "@ + call + chain + " "@)
            &&& words::has_piece(e, "Some(v) => "@)
            &&& words::has_piece(e, "None => types::Duckvalue::Null"@)
        }),
{
    let arms = dispatch::result_texts(ret, i).0;
    let element = dispatch::result_texts(ret, i).1;
    lemma_source_v_as_binary_into(i, call, chain, sql_name, arms, element);
    reveal_strlit("types::Duckvalue::Blob(v.as_binary().into())");
    reveal_strlit("v.as_binary().into()");
    reveal_strlit("types::Duckvalue::Blob");
    reveal_strlit("(");
    reveal_strlit(")");
    assert(dispatch::result_value(ret, call, chain, sql_name, i)
        =~= "types::Duckvalue::Blob(v.as_binary().into())"@);
    lemma_ret_option(i, call, chain, sql_name, arms, element);
    lemma_ret_option_end(i, call, chain, sql_name, arms, element);
    lemma_in_frame(ret, call, chain, sql_name, i);
}

proof fn lemma_made_option_topology_blob(
    ret: RetShape,
    call: Seq<char>,
    chain: Seq<char>,
    sql_name: Seq<char>,
    i: Seq<char>,
)
    requires
        ret is OptionTopologyBlob,
    ensures
        ({
            let e = dispatch::return_expr(ret, call, chain, sql_name, i);
            &&& register::ret_logical(ret) == "types::Logicaltype::Blob"@
            &&& words::has_piece(e, "types::Duckvalue::Blob(v.to_bytes().into())"@)
            &&& words::has_piece(e, "Ok(match "@ + call + chain + " "@)
            &&& words::has_piece(e, "Some(v) => "@)
            &&& words::has_piece(e, "None => types::Duckvalue::Null"@)
        }),
{
    let arms = dispatch::result_texts(ret, i).0;
    let element = dispatch::result_texts(ret, i).1;
    lemma_source_v_to_bytes_into(i, call, chain, sql_name, arms, element);
    reveal_strlit("types::Duckvalue::Blob(v.to_bytes().into())");
    reveal_strlit("v.to_bytes().into()");
    reveal_strlit("types::Duckvalue::Blob");
    reveal_strlit("(");
    reveal_strlit(")");
    assert(dispatch::result_value(ret, call, chain, sql_name, i)
        =~= "types::Duckvalue::Blob(v.to_bytes().into())"@);
    lemma_ret_option(i, call, chain, sql_name, arms, element);
    lemma_ret_option_end(i, call, chain, sql_name, arms, element);
    lemma_in_frame(ret, call, chain, sql_name, i);
}

proof fn lemma_made_first_geom_blob(
    ret: RetShape,
    call: Seq<char>,
    chain: Seq<char>,
    sql_name: Seq<char>,
    i: Seq<char>,
)
    requires
        ret is FirstGeomBlob,
    ensures
        ({
            let e = dispatch::return_expr(ret, call, chain, sql_name, i);
            &&& register::ret_logical(ret) == "types::Logicaltype::Blob"@
            &&& words::has_piece(e, "types::Duckvalue::Blob(g.as_wkb().into())"@)
            &&& words::has_piece(e, "let __r: Vec<Geometry> = "@ + call + chain + ";"@)
            &&& words::has_piece(e, "Some(g) => Ok("@)
            &&& words::has_piece(e, "None => Ok(types::Duckvalue::Null)"@)
        }),
{
    let arms = dispatch::result_texts(ret, i).0;
    let element = dispatch::result_texts(ret, i).1;
    lemma_source_g_as_wkb_into(i, call, chain, sql_name, arms, element);
    reveal_strlit("types::Duckvalue::Blob(g.as_wkb().into())");
    reveal_strlit("g.as_wkb().into()");
    reveal_strlit("types::Duckvalue::Blob");
    reveal_strlit("(");
    reveal_strlit(")");
    assert(dispatch::result_value(ret, call, chain, sql_name, i)
        =~= "types::Duckvalue::Blob(g.as_wkb().into())"@);
    lemma_ret_first_geom(i, call, chain, sql_name, arms, element);
    lemma_ret_first_end(i, call, chain, sql_name, arms, element);
    lemma_in_frame(ret, call, chain, sql_name, i);
}

proof fn lemma_made_first_raster_blob(
    ret: RetShape,
    call: Seq<char>,
    chain: Seq<char>,
    sql_name: Seq<char>,
    i: Seq<char>,
)
    requires
        ret is FirstRasterBlob,
    ensures
        ({
            let e = dispatch::return_expr(ret, call, chain, sql_name, i);
            &&& register::ret_logical(ret) == "types::Logicaltype::Blob"@
            &&& words::has_piece(e, "types::Duckvalue::Blob(r.as_binary().into())"@)
            &&& words::has_piece(e, "let __r = "@ + call + chain + ";"@)
            &&& words::has_piece(e, "Some(r) => Ok("@)
            &&& words::has_piece(e, "None => Ok(types::Duckvalue::Null)"@)
        }),
{
    let arms = dispatch::result_texts(ret, i).0;
    let element = dispatch::result_texts(ret, i).1;
    lemma_source_r_as_binary_into(i, call, chain, sql_name, arms, element);
    reveal_strlit("types::Duckvalue::Blob(r.as_binary().into())");
    reveal_strlit("r.as_binary().into()");
    reveal_strlit("types::Duckvalue::Blob");
    reveal_strlit("(");
    reveal_strlit(")");
    assert(dispatch::result_value(ret, call, chain, sql_name, i)
        =~= "types::Duckvalue::Blob(r.as_binary().into())"@);
    lemma_ret_first_raster(i, call, chain, sql_name, arms, element);
    lemma_ret_first_end(i, call, chain, sql_name, arms, element);
    lemma_in_frame(ret, call, chain, sql_name, i);
}

proof fn lemma_made_first_topology_blob(
    ret: RetShape,
    call: Seq<char>,
    chain: Seq<char>,
    sql_name: Seq<char>,
    i: Seq<char>,
)
    requires
        ret is FirstTopologyBlob,
    ensures
        ({
            let e = dispatch::return_expr(ret, call, chain, sql_name, i);
            &&& register::ret_logical(ret) == "types::Logicaltype::Blob"@
            &&& words::has_piece(e, "types::Duckvalue::Blob(t.to_bytes().into())"@)
            &&& words::has_piece(e, "let __r = "@ + call + chain + ";"@)
            &&& words::has_piece(e, "Some(t) => Ok("@)
            &&& words::has_piece(e, "None => Ok(types::Duckvalue::Null)"@)
        }),
{
    let arms = dispatch::result_texts(ret, i).0;
    let element = dispatch::result_texts(ret, i).1;
    lemma_source_t_to_bytes_into(i, call, chain, sql_name, arms, element);
    reveal_strlit("types::Duckvalue::Blob(t.to_bytes().into())");
    reveal_strlit("t.to_bytes().into()");
    reveal_strlit("types::Duckvalue::Blob");
    reveal_strlit("(");
    reveal_strlit(")");
    assert(dispatch::result_value(ret, call, chain, sql_name, i)
        =~= "types::Duckvalue::Blob(t.to_bytes().into())"@);
    lemma_ret_first_topology(i, call, chain, sql_name, arms, element);
    lemma_ret_first_end(i, call, chain, sql_name, arms, element);
    lemma_in_frame(ret, call, chain, sql_name, i);
}

proof fn lemma_made_first_option_u32_int(
    ret: RetShape,
    call: Seq<char>,
    chain: Seq<char>,
    sql_name: Seq<char>,
    i: Seq<char>,
)
    requires
        ret is FirstOptionU32Int,
    ensures
        ({
            let e = dispatch::return_expr(ret, call, chain, sql_name, i);
            &&& register::ret_logical(ret) == "types::Logicaltype::Int64"@
            &&& words::has_piece(e, "types::Duckvalue::Int64(*v as i64)"@)
            &&& words::has_piece(e, "let __r: Vec<Option<u32>> = "@ + call + chain + ";"@)
            &&& words::has_piece(e, "Some(Some(v)) => Ok("@)
            &&& words::has_piece(e, "Some(None) | None => Ok(types::Duckvalue::Null)"@)
        }),
{
    let arms = dispatch::result_texts(ret, i).0;
    let element = dispatch::result_texts(ret, i).1;
    lemma_source_at_v_as_i64(i, call, chain, sql_name, arms, element);
    reveal_strlit("types::Duckvalue::Int64(*v as i64)");
    reveal_strlit("*v as i64");
    reveal_strlit("types::Duckvalue::Int64");
    reveal_strlit("(");
    reveal_strlit(")");
    assert(dispatch::result_value(ret, call, chain, sql_name, i) =~= "types::Duckvalue::Int64(*v as i64)"@);
    lemma_ret_first_option(i, call, chain, sql_name, arms, element);
    lemma_ret_first_option_end(i, call, chain, sql_name, arms, element);
    lemma_in_frame(ret, call, chain, sql_name, i);
}

proof fn lemma_made_first_int(
    ret: RetShape,
    call: Seq<char>,
    chain: Seq<char>,
    sql_name: Seq<char>,
    i: Seq<char>,
)
    requires
        ret is FirstInt,
    ensures
        ({
            let e = dispatch::return_expr(ret, call, chain, sql_name, i);
            &&& register::ret_logical(ret) == "types::Logicaltype::Int64"@
            &&& words::has_piece(e, "types::Duckvalue::Int64(*v as i64)"@)
            &&& words::has_piece(e, "let __r = "@ + call + chain + ";"@)
            &&& words::has_piece(e, "Some(v) => Ok("@)
            &&& words::has_piece(e, "None => Ok(types::Duckvalue::Null)"@)
        }),
{
    let arms = dispatch::result_texts(ret, i).0;
    let element = dispatch::result_texts(ret, i).1;
    lemma_source_at_v_as_i64(i, call, chain, sql_name, arms, element);
    reveal_strlit("types::Duckvalue::Int64(*v as i64)");
    reveal_strlit("*v as i64");
    reveal_strlit("types::Duckvalue::Int64");
    reveal_strlit("(");
    reveal_strlit(")");
    assert(dispatch::result_value(ret, call, chain, sql_name, i) =~= "types::Duckvalue::Int64(*v as i64)"@);
    lemma_ret_first(i, call, chain, sql_name, arms, element);
    lemma_ret_first_end(i, call, chain, sql_name, arms, element);
    lemma_in_frame(ret, call, chain, sql_name, i);
}

proof fn lemma_made_first_real(
    ret: RetShape,
    call: Seq<char>,
    chain: Seq<char>,
    sql_name: Seq<char>,
    i: Seq<char>,
)
    requires
        ret is FirstReal,
    ensures
        ({
            let e = dispatch::return_expr(ret, call, chain, sql_name, i);
            &&& register::ret_logical(ret) == "types::Logicaltype::Float64"@
            &&& words::has_piece(e, "types::Duckvalue::Float64(*v as f64)"@)
            &&& words::has_piece(e, "let __r = "@ + call + chain + ";"@)
            &&& words::has_piece(e, "Some(v) => Ok("@)
            &&& words::has_piece(e, "None => Ok(types::Duckvalue::Null)"@)
        }),
{
    let arms = dispatch::result_texts(ret, i).0;
    let element = dispatch::result_texts(ret, i).1;
    lemma_source_at_v_as_f64(i, call, chain, sql_name, arms, element);
    reveal_strlit("types::Duckvalue::Float64(*v as f64)");
    reveal_strlit("*v as f64");
    reveal_strlit("types::Duckvalue::Float64");
    reveal_strlit("(");
    reveal_strlit(")");
    assert(dispatch::result_value(ret, call, chain, sql_name, i)
        =~= "types::Duckvalue::Float64(*v as f64)"@);
    lemma_ret_first(i, call, chain, sql_name, arms, element);
    lemma_ret_first_end(i, call, chain, sql_name, arms, element);
    lemma_in_frame(ret, call, chain, sql_name, i);
}

proof fn lemma_made_first_text(
    ret: RetShape,
    call: Seq<char>,
    chain: Seq<char>,
    sql_name: Seq<char>,
    i: Seq<char>,
)
    requires
        ret is FirstText,
    ensures
        ({
            let e = dispatch::return_expr(ret, call, chain, sql_name, i);
            &&& register::ret_logical(ret) == "types::Logicaltype::Text"@
            &&& words::has_piece(e, "types::Duckvalue::Text(v.into())"@)
            &&& words::has_piece(e, "let __r = "@ + call + chain + ";"@)
            &&& words::has_piece(e, "Some(v) => Ok("@)
            &&& words::has_piece(e, "None => Ok(types::Duckvalue::Null)"@)
        }),
{
    let arms = dispatch::result_texts(ret, i).0;
    let element = dispatch::result_texts(ret, i).1;
    lemma_source_v_into(i, call, chain, sql_name, arms, element);
    reveal_strlit("types::Duckvalue::Text(v.into())");
    reveal_strlit("v.into()");
    reveal_strlit("types::Duckvalue::Text");
    reveal_strlit("(");
    reveal_strlit(")");
    assert(dispatch::result_value(ret, call, chain, sql_name, i) =~= "types::Duckvalue::Text(v.into())"@);
    lemma_ret_first_text(i, call, chain, sql_name, arms, element);
    lemma_ret_first_end(i, call, chain, sql_name, arms, element);
    lemma_in_frame(ret, call, chain, sql_name, i);
}

proof fn lemma_made_bbox_blob(
    ret: RetShape,
    call: Seq<char>,
    chain: Seq<char>,
    sql_name: Seq<char>,
    i: Seq<char>,
)
    requires
        ret is BboxBlob,
    ensures
        ({
            let e = dispatch::return_expr(ret, call, chain, sql_name, i);
            &&& register::ret_logical(ret) == "types::Logicaltype::Blob"@
            &&& words::has_piece(e, "types::Duckvalue::Blob(__env.as_wkb().into())"@)
            &&& words::has_piece(e, "let __bb = "@ + call + chain + ";"@)
            &&& words::has_piece(
                e,
                "st_make_envelope(__bb.min_x, __bb.min_y, __bb.max_x, __bb.max_y)"@,
            )
        }),
{
    let arms = dispatch::result_texts(ret, i).0;
    let element = dispatch::result_texts(ret, i).1;
    lemma_source_bound_env_as_wkb_into(i, call, chain, sql_name, arms, element);
    reveal_strlit("types::Duckvalue::Blob(__env.as_wkb().into())");
    reveal_strlit("__env.as_wkb().into()");
    reveal_strlit("types::Duckvalue::Blob");
    reveal_strlit("(");
    reveal_strlit(")");
    assert(dispatch::result_value(ret, call, chain, sql_name, i)
        =~= "types::Duckvalue::Blob(__env.as_wkb().into())"@);
    lemma_ret_bbox(i, call, chain, sql_name, arms, element);
    lemma_in_frame(ret, call, chain, sql_name, i);
}

proof fn lemma_made_bbox3d_wkb_line_z(
    ret: RetShape,
    call: Seq<char>,
    chain: Seq<char>,
    sql_name: Seq<char>,
    i: Seq<char>,
)
    requires
        ret is Bbox3dWkbLineZ,
    ensures
        ({
            let e = dispatch::return_expr(ret, call, chain, sql_name, i);
            &&& register::ret_logical(ret) == "types::Logicaltype::Blob"@
            &&& words::has_piece(e, "types::Duckvalue::Blob(__wkb)"@)
            &&& words::has_piece(e, "let __bb = "@ + call + chain + ";"@)
        }),
{
    let arms = dispatch::result_texts(ret, i).0;
    let element = dispatch::result_texts(ret, i).1;
    lemma_source_bound_wkb(i, call, chain, sql_name, arms, element);
    reveal_strlit("types::Duckvalue::Blob(__wkb)");
    reveal_strlit("__wkb");
    reveal_strlit("types::Duckvalue::Blob");
    reveal_strlit("(");
    reveal_strlit(")");
    assert(dispatch::result_value(ret, call, chain, sql_name, i) =~= "types::Duckvalue::Blob(__wkb)"@);
    lemma_ret_bbox3d(i, call, chain, sql_name, arms, element);
    lemma_in_frame(ret, call, chain, sql_name, i);
}

proof fn lemma_made_list_bool(
    ret: RetShape,
    call: Seq<char>,
    chain: Seq<char>,
    sql_name: Seq<char>,
    i: Seq<char>,
)
    requires
        ret is ListBool,
    ensures
        ({
            let e = dispatch::return_expr(ret, call, chain, sql_name, i);
            &&& register::ret_logical(ret) == "types::Logicaltype::Text"@
            &&& words::has_piece(e, "types::Duckvalue::Text(__json)"@)
            &&& words::has_piece(e, "let __r = "@ + call + chain + ";"@)
            &&& words::has_piece(e, "serde_json::to_string(&__r)"@)
        }),
{
    let arms = dispatch::result_texts(ret, i).0;
    let element = dispatch::result_texts(ret, i).1;
    lemma_source_bound_json(i, call, chain, sql_name, arms, element);
    reveal_strlit("types::Duckvalue::Text(__json)");
    reveal_strlit("__json");
    reveal_strlit("types::Duckvalue::Text");
    reveal_strlit("(");
    reveal_strlit(")");
    assert(dispatch::result_value(ret, call, chain, sql_name, i) =~= "types::Duckvalue::Text(__json)"@);
    lemma_ret_json(i, call, chain, sql_name, arms, element);
    lemma_in_frame(ret, call, chain, sql_name, i);
}

proof fn lemma_made_list_list_u8(
    ret: RetShape,
    call: Seq<char>,
    chain: Seq<char>,
    sql_name: Seq<char>,
    i: Seq<char>,
)
    requires
        ret is ListListU8,
    ensures
        ({
            let e = dispatch::return_expr(ret, call, chain, sql_name, i);
            &&& register::ret_logical(ret) == "types::Logicaltype::Text"@
            &&& words::has_piece(e, "types::Duckvalue::Text(__json)"@)
            &&& words::has_piece(e, "let __r = "@ + call + chain + ";"@)
            &&& words::has_piece(e, "serde_json::to_string(&__r)"@)
        }),
{
    let arms = dispatch::result_texts(ret, i).0;
    let element = dispatch::result_texts(ret, i).1;
    lemma_source_bound_json(i, call, chain, sql_name, arms, element);
    reveal_strlit("types::Duckvalue::Text(__json)");
    reveal_strlit("__json");
    reveal_strlit("types::Duckvalue::Text");
    reveal_strlit("(");
    reveal_strlit(")");
    assert(dispatch::result_value(ret, call, chain, sql_name, i) =~= "types::Duckvalue::Text(__json)"@);
    lemma_ret_json(i, call, chain, sql_name, arms, element);
    lemma_in_frame(ret, call, chain, sql_name, i);
}

proof fn lemma_made_geom_blob_bare(
    ret: RetShape,
    call: Seq<char>,
    chain: Seq<char>,
    sql_name: Seq<char>,
    i: Seq<char>,
)
    requires
        ret is GeomBlob,
        chain.len() == 0,
    ensures
        ({
            let e = dispatch::return_expr(ret, call, chain, sql_name, i);
            &&& register::ret_logical(ret) == "types::Logicaltype::Blob"@
            &&& words::has_piece(e, "types::Duckvalue::Blob("@ + call + ".as_wkb().into())"@)
        }),
{
    let arms = dispatch::result_texts(ret, i).0;
    let element = dispatch::result_texts(ret, i).1;
    lemma_source_call_as_wkb_into(i, call, chain, sql_name, arms, element);
    reveal_strlit("types::Duckvalue::Blob(");
    reveal_strlit(".as_wkb().into())");
    reveal_strlit(".as_wkb().into()");
    reveal_strlit("types::Duckvalue::Blob");
    reveal_strlit("(");
    reveal_strlit(")");
    assert(dispatch::result_value(ret, call, chain, sql_name, i)
        =~= "types::Duckvalue::Blob("@ + call + ".as_wkb().into())"@);
    lemma_in_frame(ret, call, chain, sql_name, i);
}

proof fn lemma_made_geom_blob_bound(
    ret: RetShape,
    call: Seq<char>,
    chain: Seq<char>,
    sql_name: Seq<char>,
    i: Seq<char>,
)
    requires
        ret is GeomBlob,
        chain.len() > 0,
    ensures
        ({
            let e = dispatch::return_expr(ret, call, chain, sql_name, i);
            &&& register::ret_logical(ret) == "types::Logicaltype::Blob"@
            &&& words::has_piece(e, "types::Duckvalue::Blob(__r.as_wkb().into())"@)
            &&& words::has_piece(e, "let __r = "@ + call + chain + ";"@)
        }),
{
    let arms = dispatch::result_texts(ret, i).0;
    let element = dispatch::result_texts(ret, i).1;
    lemma_source_bound_r_as_wkb_into(i, call, chain, sql_name, arms, element);
    reveal_strlit("types::Duckvalue::Blob(__r.as_wkb().into())");
    reveal_strlit("__r.as_wkb().into()");
    reveal_strlit("types::Duckvalue::Blob");
    reveal_strlit("(");
    reveal_strlit(")");
    assert(dispatch::result_value(ret, call, chain, sql_name, i)
        =~= "types::Duckvalue::Blob(__r.as_wkb().into())"@);
    lemma_ret_bound(i, call, chain, sql_name, arms, element);
    lemma_in_frame(ret, call, chain, sql_name, i);
}

proof fn lemma_made_raster_blob_bare(
    ret: RetShape,
    call: Seq<char>,
    chain: Seq<char>,
    sql_name: Seq<char>,
    i: Seq<char>,
)
    requires
        ret is RasterBlob,
        chain.len() == 0,
    ensures
        ({
            let e = dispatch::return_expr(ret, call, chain, sql_name, i);
            &&& register::ret_logical(ret) == "types::Logicaltype::Blob"@
            &&& words::has_piece(e, "types::Duckvalue::Blob("@ + call + ".as_binary().into())"@)
        }),
{
    let arms = dispatch::result_texts(ret, i).0;
    let element = dispatch::result_texts(ret, i).1;
    lemma_source_call_as_binary_into(i, call, chain, sql_name, arms, element);
    reveal_strlit("types::Duckvalue::Blob(");
    reveal_strlit(".as_binary().into())");
    reveal_strlit(".as_binary().into()");
    reveal_strlit("types::Duckvalue::Blob");
    reveal_strlit("(");
    reveal_strlit(")");
    assert(dispatch::result_value(ret, call, chain, sql_name, i)
        =~= "types::Duckvalue::Blob("@ + call + ".as_binary().into())"@);
    lemma_in_frame(ret, call, chain, sql_name, i);
}

proof fn lemma_made_raster_blob_bound(
    ret: RetShape,
    call: Seq<char>,
    chain: Seq<char>,
    sql_name: Seq<char>,
    i: Seq<char>,
)
    requires
        ret is RasterBlob,
        chain.len() > 0,
    ensures
        ({
            let e = dispatch::return_expr(ret, call, chain, sql_name, i);
            &&& register::ret_logical(ret) == "types::Logicaltype::Blob"@
            &&& words::has_piece(e, "types::Duckvalue::Blob(__r.as_binary().into())"@)
            &&& words::has_piece(e, "let __r = "@ + call + chain + ";"@)
        }),
{
    let arms = dispatch::result_texts(ret, i).0;
    let element = dispatch::result_texts(ret, i).1;
    lemma_source_bound_r_as_binary_into(i, call, chain, sql_name, arms, element);
    reveal_strlit("types::Duckvalue::Blob(__r.as_binary().into())");
    reveal_strlit("__r.as_binary().into()");
    reveal_strlit("types::Duckvalue::Blob");
    reveal_strlit("(");
    reveal_strlit(")");
    assert(dispatch::result_value(ret, call, chain, sql_name, i)
        =~= "types::Duckvalue::Blob(__r.as_binary().into())"@);
    lemma_ret_bound(i, call, chain, sql_name, arms, element);
    lemma_in_frame(ret, call, chain, sql_name, i);
}

proof fn lemma_made_topology_blob_bare(
    ret: RetShape,
    call: Seq<char>,
    chain: Seq<char>,
    sql_name: Seq<char>,
    i: Seq<char>,
)
    requires
        ret is TopologyBlob,
        chain.len() == 0,
    ensures
        ({
            let e = dispatch::return_expr(ret, call, chain, sql_name, i);
            &&& register::ret_logical(ret) == "types::Logicaltype::Blob"@
            &&& words::has_piece(e, "types::Duckvalue::Blob("@ + call + ".to_bytes().into())"@)
        }),
{
    let arms = dispatch::result_texts(ret, i).0;
    let element = dispatch::result_texts(ret, i).1;
    lemma_source_call_to_bytes_into(i, call, chain, sql_name, arms, element);
    reveal_strlit("types::Duckvalue::Blob(");
    reveal_strlit(".to_bytes().into())");
    reveal_strlit(".to_bytes().into()");
    reveal_strlit("types::Duckvalue::Blob");
    reveal_strlit("(");
    reveal_strlit(")");
    assert(dispatch::result_value(ret, call, chain, sql_name, i)
        =~= "types::Duckvalue::Blob("@ + call + ".to_bytes().into())"@);
    lemma_in_frame(ret, call, chain, sql_name, i);
}

proof fn lemma_made_topology_blob_bound(
    ret: RetShape,
    call: Seq<char>,
    chain: Seq<char>,
    sql_name: Seq<char>,
    i: Seq<char>,
)
    requires
        ret is TopologyBlob,
        chain.len() > 0,
    ensures
        ({
            let e = dispatch::return_expr(ret, call, chain, sql_name, i);
            &&& register::ret_logical(ret) == "types::Logicaltype::Blob"@
            &&& words::has_piece(e, "types::Duckvalue::Blob(__r.to_bytes().into())"@)
            &&& words::has_piece(e, "let __r = "@ + call + chain + ";"@)
        }),
{
    let arms = dispatch::result_texts(ret, i).0;
    let element = dispatch::result_texts(ret, i).1;
    lemma_source_bound_r_to_bytes_into(i, call, chain, sql_name, arms, element);
    reveal_strlit("types::Duckvalue::Blob(__r.to_bytes().into())");
    reveal_strlit("__r.to_bytes().into()");
    reveal_strlit("types::Duckvalue::Blob");
    reveal_strlit("(");
    reveal_strlit(")");
    assert(dispatch::result_value(ret, call, chain, sql_name, i)
        =~= "types::Duckvalue::Blob(__r.to_bytes().into())"@);
    lemma_ret_bound(i, call, chain, sql_name, arms, element);
    lemma_in_frame(ret, call, chain, sql_name, i);
}

proof fn lemma_made_topo_geometry_via_geom_bare(
    ret: RetShape,
    call: Seq<char>,
    chain: Seq<char>,
    sql_name: Seq<char>,
    i: Seq<char>,
)
    requires
        ret is TopoGeometryViaGeom,
        chain.len() == 0,
    ensures
        ({
            let e = dispatch::return_expr(ret, call, chain, sql_name, i);
            &&& register::ret_logical(ret) == "types::Logicaltype::Blob"@
            &&& words::has_piece(
                e,
                "types::Duckvalue::Blob("@ + call + ".geometry().as_wkb().into())"@,
            )
        }),
{
    let arms = dispatch::result_texts(ret, i).0;
    let element = dispatch::result_texts(ret, i).1;
    lemma_source_call_geometry_as_wkb_into(i, call, chain, sql_name, arms, element);
    reveal_strlit("types::Duckvalue::Blob(");
    reveal_strlit(".geometry().as_wkb().into())");
    reveal_strlit(".geometry().as_wkb().into()");
    reveal_strlit("types::Duckvalue::Blob");
    reveal_strlit("(");
    reveal_strlit(")");
    assert(dispatch::result_value(ret, call, chain, sql_name, i)
        =~= "types::Duckvalue::Blob("@ + call + ".geometry().as_wkb().into())"@);
    lemma_in_frame(ret, call, chain, sql_name, i);
}

proof fn lemma_made_topo_geometry_via_geom_bound(
    ret: RetShape,
    call: Seq<char>,
    chain: Seq<char>,
    sql_name: Seq<char>,
    i: Seq<char>,
)
    requires
        ret is TopoGeometryViaGeom,
        chain.len() > 0,
    ensures
        ({
            let e = dispatch::return_expr(ret, call, chain, sql_name, i);
            &&& register::ret_logical(ret) == "types::Logicaltype::Blob"@
            &&& words::has_piece(e, "types::Duckvalue::Blob(__r.geometry().as_wkb().into())"@)
            &&& words::has_piece(e, "let __r = "@ + call + chain + ";"@)
        }),
{
    let arms = dispatch::result_texts(ret, i).0;
    let element = dispatch::result_texts(ret, i).1;
    lemma_source_bound_r_geometry_as_wkb_into(i, call, chain, sql_name, arms, element);
    reveal_strlit("types::Duckvalue::Blob(__r.geometry().as_wkb().into())");
    reveal_strlit("__r.geometry().as_wkb().into()");
    reveal_strlit("types::Duckvalue::Blob");
    reveal_strlit("(");
    reveal_strlit(")");
    assert(dispatch::result_value(ret, call, chain, sql_name, i)
        =~= "types::Duckvalue::Blob(__r.geometry().as_wkb().into())"@);
    lemma_ret_bound(i, call, chain, sql_name, arms, element);
    lemma_in_frame(ret, call, chain, sql_name, i);
}

proof fn lemma_made_is_valid_detail_text(
    ret: RetShape,
    call: Seq<char>,
    chain: Seq<char>,
    sql_name: Seq<char>,
    i: Seq<char>,
)
    requires
        ret is IsValidDetailText,
    ensures
        ({
            let e = dispatch::return_expr(ret, call, chain, sql_name, i);
            &&& register::ret_logical(ret) == "types::Logicaltype::Text"@
            &&& words::has_piece(e, "types::Duckvalue::Text("@)
            &&& words::has_piece(e, "__valid, __reason_s, __loc_s"@)
            &&& words::has_piece(e, "let (__valid, __reason, __loc) = "@ + call + chain + ";"@)
        }),
{
    let arms = dispatch::result_texts(ret, i).0;
    let element = dispatch::result_texts(ret, i).1;
    lemma_ret_is_valid_detail_value(i, call, chain, sql_name, arms, element);
    lemma_ret_is_valid_detail(i, call, chain, sql_name, arms, element);
    lemma_in_frame(ret, call, chain, sql_name, i);
    reveal_strlit("types::Duckvalue::Text");
    reveal_strlit("(");
    reveal_strlit("types::Duckvalue::Text(");
    let open = "types::Duckvalue::Text("@;
    assert("types::Duckvalue::Text"@ + "("@ =~= open);
    let source = text::fill(
        t::RET_IS_VALID_DETAIL_VALUE@,
        dispatch::result_holes(ret, call, chain, sql_name, i),
    );
    let value = dispatch::result_value(ret, call, chain, sql_name, i);
    assert(value =~= Seq::<char>::empty() + (open + (source + ")"@)));
    words::lemma_piece_between(Seq::empty(), open, source + ")"@);
    assert(value =~= open + (source + ")"@));
    words::lemma_piece_between(open, source, ")"@);
    words::lemma_pieces_of_piece(value, source);
    words::lemma_pieces_of_piece(dispatch::return_expr(ret, call, chain, sql_name, i), value);
}

proof fn lemma_made_json_list_list_prim(
    ret: RetShape,
    call: Seq<char>,
    chain: Seq<char>,
    sql_name: Seq<char>,
    i: Seq<char>,
)
    requires
        (
            ret matches RetShape::JsonText { kind } && (
                kind is ListListPrim || kind is ListTuplePrim || kind is TuplePrim
            )
        ),
    ensures
        ({
            let e = dispatch::return_expr(ret, call, chain, sql_name, i);
            &&& register::ret_logical(ret) == "types::Logicaltype::Text"@
            &&& words::has_piece(e, "types::Duckvalue::Text(__json)"@)
            &&& words::has_piece(e, "let __r = "@ + call + chain + ";"@)
            &&& words::has_piece(e, "serde_json::to_string(&__r)"@)
        }),
{
    let arms = dispatch::result_texts(ret, i).0;
    let element = dispatch::result_texts(ret, i).1;
    lemma_source_bound_json(i, call, chain, sql_name, arms, element);
    reveal_strlit("types::Duckvalue::Text(__json)");
    reveal_strlit("__json");
    reveal_strlit("types::Duckvalue::Text");
    reveal_strlit("(");
    reveal_strlit(")");
    assert(dispatch::result_value(ret, call, chain, sql_name, i) =~= "types::Duckvalue::Text(__json)"@);
    lemma_ret_json(i, call, chain, sql_name, arms, element);
    lemma_in_frame(ret, call, chain, sql_name, i);
}

proof fn lemma_made_json_option_tuple_prim(
    ret: RetShape,
    call: Seq<char>,
    chain: Seq<char>,
    sql_name: Seq<char>,
    i: Seq<char>,
)
    requires
        (ret matches RetShape::JsonText { kind } && (kind is OptionTuplePrim)),
    ensures
        ({
            let e = dispatch::return_expr(ret, call, chain, sql_name, i);
            &&& register::ret_logical(ret) == "types::Logicaltype::Text"@
            &&& words::has_piece(e, "types::Duckvalue::Text(__json)"@)
            &&& words::has_piece(e, "match "@ + call + chain + " "@)
            &&& words::has_piece(e, "serde_json::to_string(&__t)"@)
            &&& words::has_piece(e, "None => Ok(types::Duckvalue::Null)"@)
        }),
{
    let arms = dispatch::result_texts(ret, i).0;
    let element = dispatch::result_texts(ret, i).1;
    lemma_source_bound_json(i, call, chain, sql_name, arms, element);
    reveal_strlit("types::Duckvalue::Text(__json)");
    reveal_strlit("__json");
    reveal_strlit("types::Duckvalue::Text");
    reveal_strlit("(");
    reveal_strlit(")");
    assert(dispatch::result_value(ret, call, chain, sql_name, i) =~= "types::Duckvalue::Text(__json)"@);
    lemma_ret_json_option_tuple(i, call, chain, sql_name, arms, element);
    lemma_ret_json_option_end(i, call, chain, sql_name, arms, element);
    lemma_in_frame(ret, call, chain, sql_name, i);
}

proof fn lemma_made_json_option_list_prim_record(
    ret: RetShape,
    call: Seq<char>,
    chain: Seq<char>,
    sql_name: Seq<char>,
    i: Seq<char>,
)
    requires
        (ret matches RetShape::JsonText { kind } && (kind is OptionListPrimRecord)),
    ensures
        ({
            let e = dispatch::return_expr(ret, call, chain, sql_name, i);
            &&& register::ret_logical(ret) == "types::Logicaltype::Text"@
            &&& words::has_piece(e, "types::Duckvalue::Text(__json)"@)
            &&& words::has_piece(e, "match "@ + call + chain + " "@)
            &&& words::has_piece(e, "serde_json::to_string(&__v)"@)
            &&& words::has_piece(e, "None => Ok(types::Duckvalue::Null)"@)
        }),
{
    let arms = dispatch::result_texts(ret, i).0;
    let element = dispatch::result_texts(ret, i).1;
    lemma_source_bound_json(i, call, chain, sql_name, arms, element);
    reveal_strlit("types::Duckvalue::Text(__json)");
    reveal_strlit("__json");
    reveal_strlit("types::Duckvalue::Text");
    reveal_strlit("(");
    reveal_strlit(")");
    assert(dispatch::result_value(ret, call, chain, sql_name, i) =~= "types::Duckvalue::Text(__json)"@);
    lemma_ret_json_option_list(i, call, chain, sql_name, arms, element);
    lemma_ret_json_option_end(i, call, chain, sql_name, arms, element);
    lemma_in_frame(ret, call, chain, sql_name, i);
}

proof fn lemma_made_json_list_tuple_geom_f64(
    ret: RetShape,
    call: Seq<char>,
    chain: Seq<char>,
    sql_name: Seq<char>,
    i: Seq<char>,
)
    requires
        (ret matches RetShape::JsonText { kind } && (kind is ListTupleGeomF64)),
    ensures
        ({
            let e = dispatch::return_expr(ret, call, chain, sql_name, i);
            &&& register::ret_logical(ret) == "types::Logicaltype::Text"@
            &&& words::has_piece(e, "types::Duckvalue::Text(__out)"@)
            &&& words::has_piece(e, "let __r = "@ + call + chain + ";"@)
            &&& words::has_piece(e, "let __wkb = __g.as_wkb();"@)
            &&& words::has_piece(e, "serde_json::to_string(&__v)"@)
        }),
{
    let arms = dispatch::result_texts(ret, i).0;
    let element = dispatch::result_texts(ret, i).1;
    lemma_source_bound_out(i, call, chain, sql_name, arms, element);
    reveal_strlit("types::Duckvalue::Text(__out)");
    reveal_strlit("__out");
    reveal_strlit("types::Duckvalue::Text");
    reveal_strlit("(");
    reveal_strlit(")");
    assert(dispatch::result_value(ret, call, chain, sql_name, i) =~= "types::Duckvalue::Text(__out)"@);
    lemma_ret_json_geom_list(i, call, chain, sql_name, arms, element);
    lemma_in_frame(ret, call, chain, sql_name, i);
}

proof fn lemma_made_enum(
    ret: RetShape,
    call: Seq<char>,
    chain: Seq<char>,
    sql_name: Seq<char>,
    i: Seq<char>,
)
    requires
        ret is Enum,
    ensures
        ({
            let e = dispatch::return_expr(ret, call, chain, sql_name, i);
            &&& register::ret_logical(ret) == "types::Logicaltype::Int64"@
            &&& words::has_piece(e, "types::Duckvalue::Int64(__disc)"@)
            &&& words::has_piece(e, "let __r = "@ + call + chain + ";"@)
            &&& words::has_piece(e, "let __disc: i64 = match __r "@)
            &&& words::has_piece(e, dispatch::result_texts(ret, i).0)
        }),
{
    let arms = dispatch::result_texts(ret, i).0;
    let element = dispatch::result_texts(ret, i).1;
    lemma_source_bound_disc(i, call, chain, sql_name, arms, element);
    reveal_strlit("types::Duckvalue::Int64(__disc)");
    reveal_strlit("__disc");
    reveal_strlit("types::Duckvalue::Int64");
    reveal_strlit("(");
    reveal_strlit(")");
    assert(dispatch::result_value(ret, call, chain, sql_name, i) =~= "types::Duckvalue::Int64(__disc)"@);
    lemma_ret_enum(i, call, chain, sql_name, arms, element);
    lemma_in_frame(ret, call, chain, sql_name, i);
}

proof fn lemma_holes_i_call_expr_unwrap_chain_sql_name_arms_element(
    i: Seq<char>,
    call_expr: Seq<char>,
    unwrap_chain: Seq<char>,
    sql_name: Seq<char>,
    arms: Seq<char>,
    element: Seq<char>,
)
    ensures
        ({
            let b = seq![("i"@, i), ("call_expr"@, call_expr), ("unwrap_chain"@, unwrap_chain), ("sql_name"@, sql_name), ("arms"@, arms), ("element"@, element)];
            &&& text::lookup_from(b, "i"@, 0) == i
            &&& text::lookup_from(b, "call_expr"@, 0) == call_expr
            &&& text::lookup_from(b, "unwrap_chain"@, 0) == unwrap_chain
            &&& text::lookup_from(b, "sql_name"@, 0) == sql_name
            &&& text::lookup_from(b, "arms"@, 0) == arms
            &&& text::lookup_from(b, "element"@, 0) == element
        }),
{
    reveal_strlit("i");
    reveal_strlit("call_expr");
    reveal_strlit("unwrap_chain");
    reveal_strlit("sql_name");
    reveal_strlit("arms");
    reveal_strlit("element");
    reveal_with_fuel(text::lookup_from, 7);
    assert("i"@.len() != "call_expr"@.len());
    assert("i"@.len() != "unwrap_chain"@.len());
    assert("i"@.len() != "sql_name"@.len());
    assert("i"@.len() != "arms"@.len());
    assert("i"@.len() != "element"@.len());
    assert("call_expr"@.len() != "unwrap_chain"@.len());
    assert("call_expr"@.len() != "sql_name"@.len());
    assert("call_expr"@.len() != "arms"@.len());
    assert("call_expr"@.len() != "element"@.len());
    assert("unwrap_chain"@.len() != "sql_name"@.len());
    assert("unwrap_chain"@.len() != "arms"@.len());
    assert("unwrap_chain"@.len() != "element"@.len());
    assert("sql_name"@.len() != "arms"@.len());
    assert("sql_name"@.len() != "element"@.len());
    assert("arms"@.len() != "element"@.len());
}

proof fn lemma_ret_bound(
    i: Seq<char>,
    call_expr: Seq<char>,
    unwrap_chain: Seq<char>,
    sql_name: Seq<char>,
    arms: Seq<char>,
    element: Seq<char>,
)
    ensures
        words::has_piece(
            text::fill(
                t::RET_BOUND@,
                seq![("i"@, i), ("call_expr"@, call_expr), ("unwrap_chain"@, unwrap_chain), ("sql_name"@, sql_name), ("arms"@, arms), ("element"@, element)],
            ),
            "let __r = "@ + call_expr + unwrap_chain + ";"@,
        ),
{
    let s = t::RET_BOUND@;
    reveal_strlit(r#"{{
{i}    let __r = {call_expr}{unwrap_chain};
{i}    Ok("#);
    reveal_with_fuel(text::plain_to, 31);
    let b = seq![("i"@, i), ("call_expr"@, call_expr), ("unwrap_chain"@, unwrap_chain), ("sql_name"@, sql_name), ("arms"@, arms), ("element"@, element)];
    lemma_holes_i_call_expr_unwrap_chain_sql_name_arms_element(
        i,
        call_expr,
        unwrap_chain,
        sql_name,
        arms,
        element,
    );
    assert(words::has_piece(text::fill(t::RET_BOUND@, b), "let __r = "@ + call_expr + unwrap_chain + ";"@)) by {
        let before = text::lemma_fill_reaches(s, b, 6);
        reveal_strlit("    ");
        assert(s.subrange(6, 10) =~= "    "@);
        text::lemma_fill_run(s, b, 6, "    "@);
        reveal_strlit("let __r = ");
        assert(s.subrange(10, 20) =~= "let __r = "@);
        text::lemma_fill_run(s, b, 10, "let __r = "@);
        reveal_strlit("call_expr");
        assert(s.subrange(21, 30) =~= "call_expr"@);
        text::lemma_fill_hole(s, b, 20, "call_expr"@);
        reveal_strlit("unwrap_chain");
        assert(s.subrange(32, 44) =~= "unwrap_chain"@);
        text::lemma_fill_hole(s, b, 31, "unwrap_chain"@);
        reveal_strlit(";");
        assert(s.subrange(45, 46) =~= ";"@);
        text::lemma_fill_run(s, b, 45, ";"@);
        let rest = text::fill_from(s, b, 46);
        let part = "let __r = "@ + call_expr + unwrap_chain + ";"@;
        assert(("let __r = "@ + (call_expr + (unwrap_chain + (";"@ + rest)))) =~= part + rest);
        assert(before + ("    "@ + (part + rest)) =~= (before + "    "@) + (part + rest));
        words::lemma_piece_between(before + "    "@, part, rest);
    }
}

proof fn lemma_ret_option(
    i: Seq<char>,
    call_expr: Seq<char>,
    unwrap_chain: Seq<char>,
    sql_name: Seq<char>,
    arms: Seq<char>,
    element: Seq<char>,
)
    ensures
        words::has_piece(
            text::fill(
                t::RET_OPTION@,
                seq![("i"@, i), ("call_expr"@, call_expr), ("unwrap_chain"@, unwrap_chain), ("sql_name"@, sql_name), ("arms"@, arms), ("element"@, element)],
            ),
            "Ok(match "@ + call_expr + unwrap_chain + " "@,
        ),
        words::has_piece(
            text::fill(
                t::RET_OPTION@,
                seq![("i"@, i), ("call_expr"@, call_expr), ("unwrap_chain"@, unwrap_chain), ("sql_name"@, sql_name), ("arms"@, arms), ("element"@, element)],
            ),
            "Some(v) => "@,
        ),
{
    let s = t::RET_OPTION@;
    reveal_strlit(r#"Ok(match {call_expr}{unwrap_chain} {{
{i}    Some(v) => "#);
    reveal_with_fuel(text::plain_to, 31);
    let b = seq![("i"@, i), ("call_expr"@, call_expr), ("unwrap_chain"@, unwrap_chain), ("sql_name"@, sql_name), ("arms"@, arms), ("element"@, element)];
    lemma_holes_i_call_expr_unwrap_chain_sql_name_arms_element(
        i,
        call_expr,
        unwrap_chain,
        sql_name,
        arms,
        element,
    );
    assert(words::has_piece(text::fill(t::RET_OPTION@, b), "Ok(match "@ + call_expr + unwrap_chain + " "@)) by {
        let before = text::lemma_fill_reaches(s, b, 0);
        reveal_strlit("Ok(match ");
        assert(s.subrange(0, 9) =~= "Ok(match "@);
        text::lemma_fill_run(s, b, 0, "Ok(match "@);
        reveal_strlit("call_expr");
        assert(s.subrange(10, 19) =~= "call_expr"@);
        text::lemma_fill_hole(s, b, 9, "call_expr"@);
        reveal_strlit("unwrap_chain");
        assert(s.subrange(21, 33) =~= "unwrap_chain"@);
        text::lemma_fill_hole(s, b, 20, "unwrap_chain"@);
        reveal_strlit(" ");
        assert(s.subrange(34, 35) =~= " "@);
        text::lemma_fill_run(s, b, 34, " "@);
        let rest = text::fill_from(s, b, 35);
        let part = "Ok(match "@ + call_expr + unwrap_chain + " "@;
        assert(("Ok(match "@ + (call_expr + (unwrap_chain + (" "@ + rest)))) =~= part + rest);
        words::lemma_piece_between(before, part, rest);
    }
    assert(words::has_piece(text::fill(t::RET_OPTION@, b), "Some(v) => "@)) by {
        let before = text::lemma_fill_reaches(s, b, 41);
        reveal_strlit("    ");
        assert(s.subrange(41, 45) =~= "    "@);
        text::lemma_fill_run(s, b, 41, "    "@);
        reveal_strlit("Some(v) => ");
        assert(s.subrange(45, 56) =~= "Some(v) => "@);
        text::lemma_fill_run(s, b, 45, "Some(v) => "@);
        let rest = text::fill_from(s, b, 56);
        let part = "Some(v) => "@;
        assert(before + ("    "@ + (part + rest)) =~= (before + "    "@) + (part + rest));
        words::lemma_piece_between(before + "    "@, part, rest);
    }
}

proof fn lemma_ret_option_end(
    i: Seq<char>,
    call_expr: Seq<char>,
    unwrap_chain: Seq<char>,
    sql_name: Seq<char>,
    arms: Seq<char>,
    element: Seq<char>,
)
    ensures
        words::has_piece(
            text::fill(
                t::RET_OPTION_END@,
                seq![("i"@, i), ("call_expr"@, call_expr), ("unwrap_chain"@, unwrap_chain), ("sql_name"@, sql_name), ("arms"@, arms), ("element"@, element)],
            ),
            "None => types::Duckvalue::Null"@,
        ),
{
    let s = t::RET_OPTION_END@;
    reveal_strlit(r#",
{i}    None => types::Duckvalue::Null,
{i}}})"#);
    reveal_with_fuel(text::plain_to, 31);
    let b = seq![("i"@, i), ("call_expr"@, call_expr), ("unwrap_chain"@, unwrap_chain), ("sql_name"@, sql_name), ("arms"@, arms), ("element"@, element)];
    lemma_holes_i_call_expr_unwrap_chain_sql_name_arms_element(
        i,
        call_expr,
        unwrap_chain,
        sql_name,
        arms,
        element,
    );
    assert(words::has_piece(text::fill(t::RET_OPTION_END@, b), "None => types::Duckvalue::Null"@)) by {
        let before = text::lemma_fill_reaches(s, b, 5);
        reveal_strlit("    ");
        assert(s.subrange(5, 9) =~= "    "@);
        text::lemma_fill_run(s, b, 5, "    "@);
        reveal_strlit("None => types::Duckvalue::Null");
        assert(s.subrange(9, 39) =~= "None => types::Duckvalue::Null"@);
        text::lemma_fill_run(s, b, 9, "None => types::Duckvalue::Null"@);
        let rest = text::fill_from(s, b, 39);
        let part = "None => types::Duckvalue::Null"@;
        assert(before + ("    "@ + (part + rest)) =~= (before + "    "@) + (part + rest));
        words::lemma_piece_between(before + "    "@, part, rest);
    }
}

proof fn lemma_ret_first_geom(
    i: Seq<char>,
    call_expr: Seq<char>,
    unwrap_chain: Seq<char>,
    sql_name: Seq<char>,
    arms: Seq<char>,
    element: Seq<char>,
)
    ensures
        words::has_piece(
            text::fill(
                t::RET_FIRST_GEOM@,
                seq![("i"@, i), ("call_expr"@, call_expr), ("unwrap_chain"@, unwrap_chain), ("sql_name"@, sql_name), ("arms"@, arms), ("element"@, element)],
            ),
            "let __r: Vec<Geometry> = "@ + call_expr + unwrap_chain + ";"@,
        ),
        words::has_piece(
            text::fill(
                t::RET_FIRST_GEOM@,
                seq![("i"@, i), ("call_expr"@, call_expr), ("unwrap_chain"@, unwrap_chain), ("sql_name"@, sql_name), ("arms"@, arms), ("element"@, element)],
            ),
            "Some(g) => Ok("@,
        ),
{
    let s = t::RET_FIRST_GEOM@;
    reveal_strlit(r#"{{
{i}    let __r: Vec<Geometry> = {call_expr}{unwrap_chain};
{i}    match __r.first() {{
{i}        Some(g) => Ok("#);
    reveal_with_fuel(text::plain_to, 31);
    let b = seq![("i"@, i), ("call_expr"@, call_expr), ("unwrap_chain"@, unwrap_chain), ("sql_name"@, sql_name), ("arms"@, arms), ("element"@, element)];
    lemma_holes_i_call_expr_unwrap_chain_sql_name_arms_element(
        i,
        call_expr,
        unwrap_chain,
        sql_name,
        arms,
        element,
    );
    assert(words::has_piece(
        text::fill(t::RET_FIRST_GEOM@, b),
        "let __r: Vec<Geometry> = "@ + call_expr + unwrap_chain + ";"@,
    )) by {
        let before = text::lemma_fill_reaches(s, b, 6);
        reveal_strlit("    ");
        assert(s.subrange(6, 10) =~= "    "@);
        text::lemma_fill_run(s, b, 6, "    "@);
        reveal_strlit("let __r: Vec<Geometry> = ");
        assert(s.subrange(10, 35) =~= "let __r: Vec<Geometry> = "@);
        text::lemma_fill_run(s, b, 10, "let __r: Vec<Geometry> = "@);
        reveal_strlit("call_expr");
        assert(s.subrange(36, 45) =~= "call_expr"@);
        text::lemma_fill_hole(s, b, 35, "call_expr"@);
        reveal_strlit("unwrap_chain");
        assert(s.subrange(47, 59) =~= "unwrap_chain"@);
        text::lemma_fill_hole(s, b, 46, "unwrap_chain"@);
        reveal_strlit(";");
        assert(s.subrange(60, 61) =~= ";"@);
        text::lemma_fill_run(s, b, 60, ";"@);
        let rest = text::fill_from(s, b, 61);
        let part = "let __r: Vec<Geometry> = "@ + call_expr + unwrap_chain + ";"@;
        assert(("let __r: Vec<Geometry> = "@ + (call_expr + (unwrap_chain + (";"@ + rest))))
            =~= part + rest);
        assert(before + ("    "@ + (part + rest)) =~= (before + "    "@) + (part + rest));
        words::lemma_piece_between(before + "    "@, part, rest);
    }
    assert(words::has_piece(text::fill(t::RET_FIRST_GEOM@, b), "Some(g) => Ok("@)) by {
        let before = text::lemma_fill_reaches(s, b, 93);
        reveal_strlit("        ");
        assert(s.subrange(93, 101) =~= "        "@);
        text::lemma_fill_run(s, b, 93, "        "@);
        reveal_strlit("Some(g) => Ok(");
        assert(s.subrange(101, 115) =~= "Some(g) => Ok("@);
        text::lemma_fill_run(s, b, 101, "Some(g) => Ok("@);
        let rest = text::fill_from(s, b, 115);
        let part = "Some(g) => Ok("@;
        assert(before + ("        "@ + (part + rest)) =~= (before + "        "@) + (part + rest));
        words::lemma_piece_between(before + "        "@, part, rest);
    }
}

proof fn lemma_ret_first_raster(
    i: Seq<char>,
    call_expr: Seq<char>,
    unwrap_chain: Seq<char>,
    sql_name: Seq<char>,
    arms: Seq<char>,
    element: Seq<char>,
)
    ensures
        words::has_piece(
            text::fill(
                t::RET_FIRST_RASTER@,
                seq![("i"@, i), ("call_expr"@, call_expr), ("unwrap_chain"@, unwrap_chain), ("sql_name"@, sql_name), ("arms"@, arms), ("element"@, element)],
            ),
            "let __r = "@ + call_expr + unwrap_chain + ";"@,
        ),
        words::has_piece(
            text::fill(
                t::RET_FIRST_RASTER@,
                seq![("i"@, i), ("call_expr"@, call_expr), ("unwrap_chain"@, unwrap_chain), ("sql_name"@, sql_name), ("arms"@, arms), ("element"@, element)],
            ),
            "Some(r) => Ok("@,
        ),
{
    let s = t::RET_FIRST_RASTER@;
    reveal_strlit(r#"{{
{i}    let __r = {call_expr}{unwrap_chain};
{i}    match __r.into_iter().next() {{
{i}        Some(r) => Ok("#);
    reveal_with_fuel(text::plain_to, 31);
    let b = seq![("i"@, i), ("call_expr"@, call_expr), ("unwrap_chain"@, unwrap_chain), ("sql_name"@, sql_name), ("arms"@, arms), ("element"@, element)];
    lemma_holes_i_call_expr_unwrap_chain_sql_name_arms_element(
        i,
        call_expr,
        unwrap_chain,
        sql_name,
        arms,
        element,
    );
    assert(words::has_piece(
        text::fill(t::RET_FIRST_RASTER@, b),
        "let __r = "@ + call_expr + unwrap_chain + ";"@,
    )) by {
        let before = text::lemma_fill_reaches(s, b, 6);
        reveal_strlit("    ");
        assert(s.subrange(6, 10) =~= "    "@);
        text::lemma_fill_run(s, b, 6, "    "@);
        reveal_strlit("let __r = ");
        assert(s.subrange(10, 20) =~= "let __r = "@);
        text::lemma_fill_run(s, b, 10, "let __r = "@);
        reveal_strlit("call_expr");
        assert(s.subrange(21, 30) =~= "call_expr"@);
        text::lemma_fill_hole(s, b, 20, "call_expr"@);
        reveal_strlit("unwrap_chain");
        assert(s.subrange(32, 44) =~= "unwrap_chain"@);
        text::lemma_fill_hole(s, b, 31, "unwrap_chain"@);
        reveal_strlit(";");
        assert(s.subrange(45, 46) =~= ";"@);
        text::lemma_fill_run(s, b, 45, ";"@);
        let rest = text::fill_from(s, b, 46);
        let part = "let __r = "@ + call_expr + unwrap_chain + ";"@;
        assert(("let __r = "@ + (call_expr + (unwrap_chain + (";"@ + rest)))) =~= part + rest);
        assert(before + ("    "@ + (part + rest)) =~= (before + "    "@) + (part + rest));
        words::lemma_piece_between(before + "    "@, part, rest);
    }
    assert(words::has_piece(text::fill(t::RET_FIRST_RASTER@, b), "Some(r) => Ok("@)) by {
        let before = text::lemma_fill_reaches(s, b, 89);
        reveal_strlit("        ");
        assert(s.subrange(89, 97) =~= "        "@);
        text::lemma_fill_run(s, b, 89, "        "@);
        reveal_strlit("Some(r) => Ok(");
        assert(s.subrange(97, 111) =~= "Some(r) => Ok("@);
        text::lemma_fill_run(s, b, 97, "Some(r) => Ok("@);
        let rest = text::fill_from(s, b, 111);
        let part = "Some(r) => Ok("@;
        assert(before + ("        "@ + (part + rest)) =~= (before + "        "@) + (part + rest));
        words::lemma_piece_between(before + "        "@, part, rest);
    }
}

proof fn lemma_ret_first_topology(
    i: Seq<char>,
    call_expr: Seq<char>,
    unwrap_chain: Seq<char>,
    sql_name: Seq<char>,
    arms: Seq<char>,
    element: Seq<char>,
)
    ensures
        words::has_piece(
            text::fill(
                t::RET_FIRST_TOPOLOGY@,
                seq![("i"@, i), ("call_expr"@, call_expr), ("unwrap_chain"@, unwrap_chain), ("sql_name"@, sql_name), ("arms"@, arms), ("element"@, element)],
            ),
            "let __r = "@ + call_expr + unwrap_chain + ";"@,
        ),
        words::has_piece(
            text::fill(
                t::RET_FIRST_TOPOLOGY@,
                seq![("i"@, i), ("call_expr"@, call_expr), ("unwrap_chain"@, unwrap_chain), ("sql_name"@, sql_name), ("arms"@, arms), ("element"@, element)],
            ),
            "Some(t) => Ok("@,
        ),
{
    let s = t::RET_FIRST_TOPOLOGY@;
    reveal_strlit(r#"{{
{i}    let __r = {call_expr}{unwrap_chain};
{i}    match __r.into_iter().next() {{
{i}        Some(t) => Ok("#);
    reveal_with_fuel(text::plain_to, 31);
    let b = seq![("i"@, i), ("call_expr"@, call_expr), ("unwrap_chain"@, unwrap_chain), ("sql_name"@, sql_name), ("arms"@, arms), ("element"@, element)];
    lemma_holes_i_call_expr_unwrap_chain_sql_name_arms_element(
        i,
        call_expr,
        unwrap_chain,
        sql_name,
        arms,
        element,
    );
    assert(words::has_piece(
        text::fill(t::RET_FIRST_TOPOLOGY@, b),
        "let __r = "@ + call_expr + unwrap_chain + ";"@,
    )) by {
        let before = text::lemma_fill_reaches(s, b, 6);
        reveal_strlit("    ");
        assert(s.subrange(6, 10) =~= "    "@);
        text::lemma_fill_run(s, b, 6, "    "@);
        reveal_strlit("let __r = ");
        assert(s.subrange(10, 20) =~= "let __r = "@);
        text::lemma_fill_run(s, b, 10, "let __r = "@);
        reveal_strlit("call_expr");
        assert(s.subrange(21, 30) =~= "call_expr"@);
        text::lemma_fill_hole(s, b, 20, "call_expr"@);
        reveal_strlit("unwrap_chain");
        assert(s.subrange(32, 44) =~= "unwrap_chain"@);
        text::lemma_fill_hole(s, b, 31, "unwrap_chain"@);
        reveal_strlit(";");
        assert(s.subrange(45, 46) =~= ";"@);
        text::lemma_fill_run(s, b, 45, ";"@);
        let rest = text::fill_from(s, b, 46);
        let part = "let __r = "@ + call_expr + unwrap_chain + ";"@;
        assert(("let __r = "@ + (call_expr + (unwrap_chain + (";"@ + rest)))) =~= part + rest);
        assert(before + ("    "@ + (part + rest)) =~= (before + "    "@) + (part + rest));
        words::lemma_piece_between(before + "    "@, part, rest);
    }
    assert(words::has_piece(text::fill(t::RET_FIRST_TOPOLOGY@, b), "Some(t) => Ok("@)) by {
        let before = text::lemma_fill_reaches(s, b, 89);
        reveal_strlit("        ");
        assert(s.subrange(89, 97) =~= "        "@);
        text::lemma_fill_run(s, b, 89, "        "@);
        reveal_strlit("Some(t) => Ok(");
        assert(s.subrange(97, 111) =~= "Some(t) => Ok("@);
        text::lemma_fill_run(s, b, 97, "Some(t) => Ok("@);
        let rest = text::fill_from(s, b, 111);
        let part = "Some(t) => Ok("@;
        assert(before + ("        "@ + (part + rest)) =~= (before + "        "@) + (part + rest));
        words::lemma_piece_between(before + "        "@, part, rest);
    }
}

proof fn lemma_ret_first(
    i: Seq<char>,
    call_expr: Seq<char>,
    unwrap_chain: Seq<char>,
    sql_name: Seq<char>,
    arms: Seq<char>,
    element: Seq<char>,
)
    ensures
        words::has_piece(
            text::fill(
                t::RET_FIRST@,
                seq![("i"@, i), ("call_expr"@, call_expr), ("unwrap_chain"@, unwrap_chain), ("sql_name"@, sql_name), ("arms"@, arms), ("element"@, element)],
            ),
            "let __r = "@ + call_expr + unwrap_chain + ";"@,
        ),
        words::has_piece(
            text::fill(
                t::RET_FIRST@,
                seq![("i"@, i), ("call_expr"@, call_expr), ("unwrap_chain"@, unwrap_chain), ("sql_name"@, sql_name), ("arms"@, arms), ("element"@, element)],
            ),
            "Some(v) => Ok("@,
        ),
{
    let s = t::RET_FIRST@;
    reveal_strlit(r#"{{
{i}    let __r = {call_expr}{unwrap_chain};
{i}    match __r.first() {{
{i}        Some(v) => Ok("#);
    reveal_with_fuel(text::plain_to, 31);
    let b = seq![("i"@, i), ("call_expr"@, call_expr), ("unwrap_chain"@, unwrap_chain), ("sql_name"@, sql_name), ("arms"@, arms), ("element"@, element)];
    lemma_holes_i_call_expr_unwrap_chain_sql_name_arms_element(
        i,
        call_expr,
        unwrap_chain,
        sql_name,
        arms,
        element,
    );
    assert(words::has_piece(text::fill(t::RET_FIRST@, b), "let __r = "@ + call_expr + unwrap_chain + ";"@)) by {
        let before = text::lemma_fill_reaches(s, b, 6);
        reveal_strlit("    ");
        assert(s.subrange(6, 10) =~= "    "@);
        text::lemma_fill_run(s, b, 6, "    "@);
        reveal_strlit("let __r = ");
        assert(s.subrange(10, 20) =~= "let __r = "@);
        text::lemma_fill_run(s, b, 10, "let __r = "@);
        reveal_strlit("call_expr");
        assert(s.subrange(21, 30) =~= "call_expr"@);
        text::lemma_fill_hole(s, b, 20, "call_expr"@);
        reveal_strlit("unwrap_chain");
        assert(s.subrange(32, 44) =~= "unwrap_chain"@);
        text::lemma_fill_hole(s, b, 31, "unwrap_chain"@);
        reveal_strlit(";");
        assert(s.subrange(45, 46) =~= ";"@);
        text::lemma_fill_run(s, b, 45, ";"@);
        let rest = text::fill_from(s, b, 46);
        let part = "let __r = "@ + call_expr + unwrap_chain + ";"@;
        assert(("let __r = "@ + (call_expr + (unwrap_chain + (";"@ + rest)))) =~= part + rest);
        assert(before + ("    "@ + (part + rest)) =~= (before + "    "@) + (part + rest));
        words::lemma_piece_between(before + "    "@, part, rest);
    }
    assert(words::has_piece(text::fill(t::RET_FIRST@, b), "Some(v) => Ok("@)) by {
        let before = text::lemma_fill_reaches(s, b, 78);
        reveal_strlit("        ");
        assert(s.subrange(78, 86) =~= "        "@);
        text::lemma_fill_run(s, b, 78, "        "@);
        reveal_strlit("Some(v) => Ok(");
        assert(s.subrange(86, 100) =~= "Some(v) => Ok("@);
        text::lemma_fill_run(s, b, 86, "Some(v) => Ok("@);
        let rest = text::fill_from(s, b, 100);
        let part = "Some(v) => Ok("@;
        assert(before + ("        "@ + (part + rest)) =~= (before + "        "@) + (part + rest));
        words::lemma_piece_between(before + "        "@, part, rest);
    }
}

proof fn lemma_ret_first_text(
    i: Seq<char>,
    call_expr: Seq<char>,
    unwrap_chain: Seq<char>,
    sql_name: Seq<char>,
    arms: Seq<char>,
    element: Seq<char>,
)
    ensures
        words::has_piece(
            text::fill(
                t::RET_FIRST_TEXT@,
                seq![("i"@, i), ("call_expr"@, call_expr), ("unwrap_chain"@, unwrap_chain), ("sql_name"@, sql_name), ("arms"@, arms), ("element"@, element)],
            ),
            "let __r = "@ + call_expr + unwrap_chain + ";"@,
        ),
        words::has_piece(
            text::fill(
                t::RET_FIRST_TEXT@,
                seq![("i"@, i), ("call_expr"@, call_expr), ("unwrap_chain"@, unwrap_chain), ("sql_name"@, sql_name), ("arms"@, arms), ("element"@, element)],
            ),
            "Some(v) => Ok("@,
        ),
{
    let s = t::RET_FIRST_TEXT@;
    reveal_strlit(r#"{{
{i}    let __r = {call_expr}{unwrap_chain};
{i}    match __r.into_iter().next() {{
{i}        Some(v) => Ok("#);
    reveal_with_fuel(text::plain_to, 31);
    let b = seq![("i"@, i), ("call_expr"@, call_expr), ("unwrap_chain"@, unwrap_chain), ("sql_name"@, sql_name), ("arms"@, arms), ("element"@, element)];
    lemma_holes_i_call_expr_unwrap_chain_sql_name_arms_element(
        i,
        call_expr,
        unwrap_chain,
        sql_name,
        arms,
        element,
    );
    assert(words::has_piece(
        text::fill(t::RET_FIRST_TEXT@, b),
        "let __r = "@ + call_expr + unwrap_chain + ";"@,
    )) by {
        let before = text::lemma_fill_reaches(s, b, 6);
        reveal_strlit("    ");
        assert(s.subrange(6, 10) =~= "    "@);
        text::lemma_fill_run(s, b, 6, "    "@);
        reveal_strlit("let __r = ");
        assert(s.subrange(10, 20) =~= "let __r = "@);
        text::lemma_fill_run(s, b, 10, "let __r = "@);
        reveal_strlit("call_expr");
        assert(s.subrange(21, 30) =~= "call_expr"@);
        text::lemma_fill_hole(s, b, 20, "call_expr"@);
        reveal_strlit("unwrap_chain");
        assert(s.subrange(32, 44) =~= "unwrap_chain"@);
        text::lemma_fill_hole(s, b, 31, "unwrap_chain"@);
        reveal_strlit(";");
        assert(s.subrange(45, 46) =~= ";"@);
        text::lemma_fill_run(s, b, 45, ";"@);
        let rest = text::fill_from(s, b, 46);
        let part = "let __r = "@ + call_expr + unwrap_chain + ";"@;
        assert(("let __r = "@ + (call_expr + (unwrap_chain + (";"@ + rest)))) =~= part + rest);
        assert(before + ("    "@ + (part + rest)) =~= (before + "    "@) + (part + rest));
        words::lemma_piece_between(before + "    "@, part, rest);
    }
    assert(words::has_piece(text::fill(t::RET_FIRST_TEXT@, b), "Some(v) => Ok("@)) by {
        let before = text::lemma_fill_reaches(s, b, 89);
        reveal_strlit("        ");
        assert(s.subrange(89, 97) =~= "        "@);
        text::lemma_fill_run(s, b, 89, "        "@);
        reveal_strlit("Some(v) => Ok(");
        assert(s.subrange(97, 111) =~= "Some(v) => Ok("@);
        text::lemma_fill_run(s, b, 97, "Some(v) => Ok("@);
        let rest = text::fill_from(s, b, 111);
        let part = "Some(v) => Ok("@;
        assert(before + ("        "@ + (part + rest)) =~= (before + "        "@) + (part + rest));
        words::lemma_piece_between(before + "        "@, part, rest);
    }
}

proof fn lemma_ret_first_end(
    i: Seq<char>,
    call_expr: Seq<char>,
    unwrap_chain: Seq<char>,
    sql_name: Seq<char>,
    arms: Seq<char>,
    element: Seq<char>,
)
    ensures
        words::has_piece(
            text::fill(
                t::RET_FIRST_END@,
                seq![("i"@, i), ("call_expr"@, call_expr), ("unwrap_chain"@, unwrap_chain), ("sql_name"@, sql_name), ("arms"@, arms), ("element"@, element)],
            ),
            "None => Ok(types::Duckvalue::Null)"@,
        ),
{
    let s = t::RET_FIRST_END@;
    reveal_strlit(r#"),
{i}        None => Ok(types::Duckvalue::Null),
{i}    }}
{i}}}"#);
    reveal_with_fuel(text::plain_to, 31);
    let b = seq![("i"@, i), ("call_expr"@, call_expr), ("unwrap_chain"@, unwrap_chain), ("sql_name"@, sql_name), ("arms"@, arms), ("element"@, element)];
    lemma_holes_i_call_expr_unwrap_chain_sql_name_arms_element(
        i,
        call_expr,
        unwrap_chain,
        sql_name,
        arms,
        element,
    );
    assert(words::has_piece(text::fill(t::RET_FIRST_END@, b), "None => Ok(types::Duckvalue::Null)"@)) by {
        let before = text::lemma_fill_reaches(s, b, 6);
        reveal_strlit("        ");
        assert(s.subrange(6, 14) =~= "        "@);
        text::lemma_fill_run(s, b, 6, "        "@);
        reveal_strlit("None => Ok(types::Duckvalue::N");
        assert(s.subrange(14, 44) =~= "None => Ok(types::Duckvalue::N"@);
        text::lemma_fill_run(s, b, 14, "None => Ok(types::Duckvalue::N"@);
        reveal_strlit("ull)");
        assert(s.subrange(44, 48) =~= "ull)"@);
        text::lemma_fill_run(s, b, 44, "ull)"@);
        let rest = text::fill_from(s, b, 48);
        let part = "None => Ok(types::Duckvalue::Null)"@;
        reveal_strlit("None => Ok(types::Duckvalue::Null)");
        assert(("None => Ok(types::Duckvalue::N"@ + ("ull)"@ + rest)) =~= part + rest);
        assert(before + ("        "@ + (part + rest)) =~= (before + "        "@) + (part + rest));
        words::lemma_piece_between(before + "        "@, part, rest);
    }
}

proof fn lemma_ret_first_option(
    i: Seq<char>,
    call_expr: Seq<char>,
    unwrap_chain: Seq<char>,
    sql_name: Seq<char>,
    arms: Seq<char>,
    element: Seq<char>,
)
    ensures
        words::has_piece(
            text::fill(
                t::RET_FIRST_OPTION@,
                seq![("i"@, i), ("call_expr"@, call_expr), ("unwrap_chain"@, unwrap_chain), ("sql_name"@, sql_name), ("arms"@, arms), ("element"@, element)],
            ),
            "let __r: Vec<Option<u32>> = "@ + call_expr + unwrap_chain + ";"@,
        ),
        words::has_piece(
            text::fill(
                t::RET_FIRST_OPTION@,
                seq![("i"@, i), ("call_expr"@, call_expr), ("unwrap_chain"@, unwrap_chain), ("sql_name"@, sql_name), ("arms"@, arms), ("element"@, element)],
            ),
            "Some(Some(v)) => Ok("@,
        ),
{
    let s = t::RET_FIRST_OPTION@;
    reveal_strlit(r#"{{
{i}    let __r: Vec<Option<u32>> = {call_expr}{unwrap_chain};
{i}    match __r.first() {{
{i}        Some(Some(v)) => Ok("#);
    reveal_with_fuel(text::plain_to, 31);
    let b = seq![("i"@, i), ("call_expr"@, call_expr), ("unwrap_chain"@, unwrap_chain), ("sql_name"@, sql_name), ("arms"@, arms), ("element"@, element)];
    lemma_holes_i_call_expr_unwrap_chain_sql_name_arms_element(
        i,
        call_expr,
        unwrap_chain,
        sql_name,
        arms,
        element,
    );
    assert(words::has_piece(
        text::fill(t::RET_FIRST_OPTION@, b),
        "let __r: Vec<Option<u32>> = "@ + call_expr + unwrap_chain + ";"@,
    )) by {
        let before = text::lemma_fill_reaches(s, b, 6);
        reveal_strlit("    ");
        assert(s.subrange(6, 10) =~= "    "@);
        text::lemma_fill_run(s, b, 6, "    "@);
        reveal_strlit("let __r: Vec<Option<u32>> = ");
        assert(s.subrange(10, 38) =~= "let __r: Vec<Option<u32>> = "@);
        text::lemma_fill_run(s, b, 10, "let __r: Vec<Option<u32>> = "@);
        reveal_strlit("call_expr");
        assert(s.subrange(39, 48) =~= "call_expr"@);
        text::lemma_fill_hole(s, b, 38, "call_expr"@);
        reveal_strlit("unwrap_chain");
        assert(s.subrange(50, 62) =~= "unwrap_chain"@);
        text::lemma_fill_hole(s, b, 49, "unwrap_chain"@);
        reveal_strlit(";");
        assert(s.subrange(63, 64) =~= ";"@);
        text::lemma_fill_run(s, b, 63, ";"@);
        let rest = text::fill_from(s, b, 64);
        let part = "let __r: Vec<Option<u32>> = "@ + call_expr + unwrap_chain + ";"@;
        assert(("let __r: Vec<Option<u32>> = "@ + (call_expr + (unwrap_chain + (";"@ + rest))))
            =~= part + rest);
        assert(before + ("    "@ + (part + rest)) =~= (before + "    "@) + (part + rest));
        words::lemma_piece_between(before + "    "@, part, rest);
    }
    assert(words::has_piece(text::fill(t::RET_FIRST_OPTION@, b), "Some(Some(v)) => Ok("@)) by {
        let before = text::lemma_fill_reaches(s, b, 96);
        reveal_strlit("        ");
        assert(s.subrange(96, 104) =~= "        "@);
        text::lemma_fill_run(s, b, 96, "        "@);
        reveal_strlit("Some(Some(v)) => Ok(");
        assert(s.subrange(104, 124) =~= "Some(Some(v)) => Ok("@);
        text::lemma_fill_run(s, b, 104, "Some(Some(v)) => Ok("@);
        let rest = text::fill_from(s, b, 124);
        let part = "Some(Some(v)) => Ok("@;
        assert(before + ("        "@ + (part + rest)) =~= (before + "        "@) + (part + rest));
        words::lemma_piece_between(before + "        "@, part, rest);
    }
}

proof fn lemma_ret_first_option_end(
    i: Seq<char>,
    call_expr: Seq<char>,
    unwrap_chain: Seq<char>,
    sql_name: Seq<char>,
    arms: Seq<char>,
    element: Seq<char>,
)
    ensures
        words::has_piece(
            text::fill(
                t::RET_FIRST_OPTION_END@,
                seq![("i"@, i), ("call_expr"@, call_expr), ("unwrap_chain"@, unwrap_chain), ("sql_name"@, sql_name), ("arms"@, arms), ("element"@, element)],
            ),
            "Some(None) | None => Ok(types::Duckvalue::Null)"@,
        ),
{
    let s = t::RET_FIRST_OPTION_END@;
    reveal_strlit(r#"),
{i}        Some(None) | None => Ok(types::Duckvalue::Null),
{i}    }}
{i}}}"#);
    reveal_with_fuel(text::plain_to, 31);
    let b = seq![("i"@, i), ("call_expr"@, call_expr), ("unwrap_chain"@, unwrap_chain), ("sql_name"@, sql_name), ("arms"@, arms), ("element"@, element)];
    lemma_holes_i_call_expr_unwrap_chain_sql_name_arms_element(
        i,
        call_expr,
        unwrap_chain,
        sql_name,
        arms,
        element,
    );
    assert(words::has_piece(
        text::fill(t::RET_FIRST_OPTION_END@, b),
        "Some(None) | None => Ok(types::Duckvalue::Null)"@,
    )) by {
        let before = text::lemma_fill_reaches(s, b, 6);
        reveal_strlit("        ");
        assert(s.subrange(6, 14) =~= "        "@);
        text::lemma_fill_run(s, b, 6, "        "@);
        reveal_strlit("Some(None) | None => Ok(types:");
        assert(s.subrange(14, 44) =~= "Some(None) | None => Ok(types:"@);
        text::lemma_fill_run(s, b, 14, "Some(None) | None => Ok(types:"@);
        reveal_strlit(":Duckvalue::Null)");
        assert(s.subrange(44, 61) =~= ":Duckvalue::Null)"@);
        text::lemma_fill_run(s, b, 44, ":Duckvalue::Null)"@);
        let rest = text::fill_from(s, b, 61);
        let part = "Some(None) | None => Ok(types::Duckvalue::Null)"@;
        reveal_strlit("Some(None) | None => Ok(types::Duckvalue::Null)");
        assert(("Some(None) | None => Ok(types:"@ + (":Duckvalue::Null)"@ + rest)) =~= part + rest);
        assert(before + ("        "@ + (part + rest)) =~= (before + "        "@) + (part + rest));
        words::lemma_piece_between(before + "        "@, part, rest);
    }
}

proof fn lemma_ret_bbox(
    i: Seq<char>,
    call_expr: Seq<char>,
    unwrap_chain: Seq<char>,
    sql_name: Seq<char>,
    arms: Seq<char>,
    element: Seq<char>,
)
    ensures
        words::has_piece(
            text::fill(
                t::RET_BBOX@,
                seq![("i"@, i), ("call_expr"@, call_expr), ("unwrap_chain"@, unwrap_chain), ("sql_name"@, sql_name), ("arms"@, arms), ("element"@, element)],
            ),
            "let __bb = "@ + call_expr + unwrap_chain + ";"@,
        ),
        words::has_piece(
            text::fill(
                t::RET_BBOX@,
                seq![("i"@, i), ("call_expr"@, call_expr), ("unwrap_chain"@, unwrap_chain), ("sql_name"@, sql_name), ("arms"@, arms), ("element"@, element)],
            ),
            "st_make_envelope(__bb.min_x, __bb.min_y, __bb.max_x, __bb.max_y)"@,
        ),
{
    let s = t::RET_BBOX@;
    reveal_strlit(r#"{{
{i}    let __bb = {call_expr}{unwrap_chain};
{i}    let __env = pg_ctor::st_make_envelope(__bb.min_x, __bb.min_y, __bb.max_x, __bb.max_y);
{i}    Ok("#);
    reveal_with_fuel(text::plain_to, 31);
    let b = seq![("i"@, i), ("call_expr"@, call_expr), ("unwrap_chain"@, unwrap_chain), ("sql_name"@, sql_name), ("arms"@, arms), ("element"@, element)];
    lemma_holes_i_call_expr_unwrap_chain_sql_name_arms_element(
        i,
        call_expr,
        unwrap_chain,
        sql_name,
        arms,
        element,
    );
    assert(words::has_piece(text::fill(t::RET_BBOX@, b), "let __bb = "@ + call_expr + unwrap_chain + ";"@)) by {
        let before = text::lemma_fill_reaches(s, b, 6);
        reveal_strlit("    ");
        assert(s.subrange(6, 10) =~= "    "@);
        text::lemma_fill_run(s, b, 6, "    "@);
        reveal_strlit("let __bb = ");
        assert(s.subrange(10, 21) =~= "let __bb = "@);
        text::lemma_fill_run(s, b, 10, "let __bb = "@);
        reveal_strlit("call_expr");
        assert(s.subrange(22, 31) =~= "call_expr"@);
        text::lemma_fill_hole(s, b, 21, "call_expr"@);
        reveal_strlit("unwrap_chain");
        assert(s.subrange(33, 45) =~= "unwrap_chain"@);
        text::lemma_fill_hole(s, b, 32, "unwrap_chain"@);
        reveal_strlit(";");
        assert(s.subrange(46, 47) =~= ";"@);
        text::lemma_fill_run(s, b, 46, ";"@);
        let rest = text::fill_from(s, b, 47);
        let part = "let __bb = "@ + call_expr + unwrap_chain + ";"@;
        assert(("let __bb = "@ + (call_expr + (unwrap_chain + (";"@ + rest)))) =~= part + rest);
        assert(before + ("    "@ + (part + rest)) =~= (before + "    "@) + (part + rest));
        words::lemma_piece_between(before + "    "@, part, rest);
    }
    assert(words::has_piece(
        text::fill(t::RET_BBOX@, b),
        "st_make_envelope(__bb.min_x, __bb.min_y, __bb.max_x, __bb.max_y)"@,
    )) by {
        let before = text::lemma_fill_reaches(s, b, 51);
        reveal_strlit("    let __env = pg_ctor::");
        assert(s.subrange(51, 76) =~= "    let __env = pg_ctor::"@);
        text::lemma_fill_run(s, b, 51, "    let __env = pg_ctor::"@);
        reveal_strlit("st_make_envelope(__bb.min_x, _");
        assert(s.subrange(76, 106) =~= "st_make_envelope(__bb.min_x, _"@);
        text::lemma_fill_run(s, b, 76, "st_make_envelope(__bb.min_x, _"@);
        reveal_strlit("_bb.min_y, __bb.max_x, __bb.ma");
        assert(s.subrange(106, 136) =~= "_bb.min_y, __bb.max_x, __bb.ma"@);
        text::lemma_fill_run(s, b, 106, "_bb.min_y, __bb.max_x, __bb.ma"@);
        reveal_strlit("x_y)");
        assert(s.subrange(136, 140) =~= "x_y)"@);
        text::lemma_fill_run(s, b, 136, "x_y)"@);
        let rest = text::fill_from(s, b, 140);
        let part = "st_make_envelope(__bb.min_x, __bb.min_y, __bb.max_x, __bb.max_y)"@;
        reveal_strlit("st_make_envelope(__bb.min_x, __bb.min_y, __bb.max_x, __bb.max_y)");
        assert((
            "st_make_envelope(__bb.min_x, _"@
                + ("_bb.min_y, __bb.max_x, __bb.ma"@ + ("x_y)"@ + rest))
        )
            =~= part + rest);
        assert(before + ("    let __env = pg_ctor::"@ + (part + rest))
            =~= (before + "    let __env = pg_ctor::"@) + (part + rest));
        words::lemma_piece_between(before + "    let __env = pg_ctor::"@, part, rest);
    }
}

proof fn lemma_ret_is_valid_detail(
    i: Seq<char>,
    call_expr: Seq<char>,
    unwrap_chain: Seq<char>,
    sql_name: Seq<char>,
    arms: Seq<char>,
    element: Seq<char>,
)
    ensures
        words::has_piece(
            text::fill(
                t::RET_IS_VALID_DETAIL@,
                seq![("i"@, i), ("call_expr"@, call_expr), ("unwrap_chain"@, unwrap_chain), ("sql_name"@, sql_name), ("arms"@, arms), ("element"@, element)],
            ),
            "let (__valid, __reason, __loc) = "@ + call_expr + unwrap_chain + ";"@,
        ),
{
    let s = t::RET_IS_VALID_DETAIL@;
    reveal_strlit(r#"{{
{i}    let (__valid, __reason, __loc) = {call_expr}{unwrap_chain};
{i}    let __reason_s = __reason.unwrap_or_default();
{i}    let __loc_s = match __loc {{
{i}        Some(g) => pg_out::st_as_text(&g),
{i}        None => alloc::string::String::new(),
{i}    }};
{i}    Ok("#);
    reveal_with_fuel(text::plain_to, 31);
    let b = seq![("i"@, i), ("call_expr"@, call_expr), ("unwrap_chain"@, unwrap_chain), ("sql_name"@, sql_name), ("arms"@, arms), ("element"@, element)];
    lemma_holes_i_call_expr_unwrap_chain_sql_name_arms_element(
        i,
        call_expr,
        unwrap_chain,
        sql_name,
        arms,
        element,
    );
    assert(words::has_piece(
        text::fill(t::RET_IS_VALID_DETAIL@, b),
        "let (__valid, __reason, __loc) = "@ + call_expr + unwrap_chain + ";"@,
    )) by {
        let before = text::lemma_fill_reaches(s, b, 6);
        reveal_strlit("    ");
        assert(s.subrange(6, 10) =~= "    "@);
        text::lemma_fill_run(s, b, 6, "    "@);
        reveal_strlit("let (__valid, __reason, __loc)");
        assert(s.subrange(10, 40) =~= "let (__valid, __reason, __loc)"@);
        text::lemma_fill_run(s, b, 10, "let (__valid, __reason, __loc)"@);
        reveal_strlit(" = ");
        assert(s.subrange(40, 43) =~= " = "@);
        text::lemma_fill_run(s, b, 40, " = "@);
        reveal_strlit("call_expr");
        assert(s.subrange(44, 53) =~= "call_expr"@);
        text::lemma_fill_hole(s, b, 43, "call_expr"@);
        reveal_strlit("unwrap_chain");
        assert(s.subrange(55, 67) =~= "unwrap_chain"@);
        text::lemma_fill_hole(s, b, 54, "unwrap_chain"@);
        reveal_strlit(";");
        assert(s.subrange(68, 69) =~= ";"@);
        text::lemma_fill_run(s, b, 68, ";"@);
        let rest = text::fill_from(s, b, 69);
        let part = "let (__valid, __reason, __loc) = "@ + call_expr + unwrap_chain + ";"@;
        reveal_strlit("let (__valid, __reason, __loc) = ");
        assert((
            "let (__valid, __reason, __loc)"@
                + (" = "@ + (call_expr + (unwrap_chain + (";"@ + rest))))
        )
            =~= part + rest);
        assert(before + ("    "@ + (part + rest)) =~= (before + "    "@) + (part + rest));
        words::lemma_piece_between(before + "    "@, part, rest);
    }
}

proof fn lemma_ret_bbox3d(
    i: Seq<char>,
    call_expr: Seq<char>,
    unwrap_chain: Seq<char>,
    sql_name: Seq<char>,
    arms: Seq<char>,
    element: Seq<char>,
)
    ensures
        words::has_piece(
            text::fill(
                t::RET_BBOX3D@,
                seq![("i"@, i), ("call_expr"@, call_expr), ("unwrap_chain"@, unwrap_chain), ("sql_name"@, sql_name), ("arms"@, arms), ("element"@, element)],
            ),
            "let __bb = "@ + call_expr + unwrap_chain + ";"@,
        ),
{
    let s = t::RET_BBOX3D@;
    reveal_strlit(r#"{{
{i}    let __bb = {call_expr}{unwrap_chain};
{i}    let mut __wkb: Vec<u8> = Vec::with_capacity(57);
{i}    // ISO-WKB header: little-endian, type 1002 (LINESTRING Z), 2 points.
{i}    __wkb.push(0x01u8);
{i}    __wkb.extend_from_slice(&1002u32.to_le_bytes());
{i}    __wkb.extend_from_slice(&2u32.to_le_bytes());
{i}    __wkb.extend_from_slice(&__bb.min_x.to_le_bytes());
{i}    __wkb.extend_from_slice(&__bb.min_y.to_le_bytes());
{i}    __wkb.extend_from_slice(&__bb.min_z.to_le_bytes());
{i}    __wkb.extend_from_slice(&__bb.max_x.to_le_bytes());
{i}    __wkb.extend_from_slice(&__bb.max_y.to_le_bytes());
{i}    __wkb.extend_from_slice(&__bb.max_z.to_le_bytes());
{i}    Ok("#);
    reveal_with_fuel(text::plain_to, 31);
    let b = seq![("i"@, i), ("call_expr"@, call_expr), ("unwrap_chain"@, unwrap_chain), ("sql_name"@, sql_name), ("arms"@, arms), ("element"@, element)];
    lemma_holes_i_call_expr_unwrap_chain_sql_name_arms_element(
        i,
        call_expr,
        unwrap_chain,
        sql_name,
        arms,
        element,
    );
    assert(words::has_piece(
        text::fill(t::RET_BBOX3D@, b),
        "let __bb = "@ + call_expr + unwrap_chain + ";"@,
    )) by {
        let before = text::lemma_fill_reaches(s, b, 6);
        reveal_strlit("    ");
        assert(s.subrange(6, 10) =~= "    "@);
        text::lemma_fill_run(s, b, 6, "    "@);
        reveal_strlit("let __bb = ");
        assert(s.subrange(10, 21) =~= "let __bb = "@);
        text::lemma_fill_run(s, b, 10, "let __bb = "@);
        reveal_strlit("call_expr");
        assert(s.subrange(22, 31) =~= "call_expr"@);
        text::lemma_fill_hole(s, b, 21, "call_expr"@);
        reveal_strlit("unwrap_chain");
        assert(s.subrange(33, 45) =~= "unwrap_chain"@);
        text::lemma_fill_hole(s, b, 32, "unwrap_chain"@);
        reveal_strlit(";");
        assert(s.subrange(46, 47) =~= ";"@);
        text::lemma_fill_run(s, b, 46, ";"@);
        let rest = text::fill_from(s, b, 47);
        let part = "let __bb = "@ + call_expr + unwrap_chain + ";"@;
        assert(("let __bb = "@ + (call_expr + (unwrap_chain + (";"@ + rest)))) =~= part + rest);
        assert(before + ("    "@ + (part + rest)) =~= (before + "    "@) + (part + rest));
        words::lemma_piece_between(before + "    "@, part, rest);
    }
}

proof fn lemma_ret_enum(
    i: Seq<char>,
    call_expr: Seq<char>,
    unwrap_chain: Seq<char>,
    sql_name: Seq<char>,
    arms: Seq<char>,
    element: Seq<char>,
)
    ensures
        words::has_piece(
            text::fill(
                t::RET_ENUM@,
                seq![("i"@, i), ("call_expr"@, call_expr), ("unwrap_chain"@, unwrap_chain), ("sql_name"@, sql_name), ("arms"@, arms), ("element"@, element)],
            ),
            "let __r = "@ + call_expr + unwrap_chain + ";"@,
        ),
        words::has_piece(
            text::fill(
                t::RET_ENUM@,
                seq![("i"@, i), ("call_expr"@, call_expr), ("unwrap_chain"@, unwrap_chain), ("sql_name"@, sql_name), ("arms"@, arms), ("element"@, element)],
            ),
            "let __disc: i64 = match __r "@,
        ),
        words::has_piece(
            text::fill(
                t::RET_ENUM@,
                seq![("i"@, i), ("call_expr"@, call_expr), ("unwrap_chain"@, unwrap_chain), ("sql_name"@, sql_name), ("arms"@, arms), ("element"@, element)],
            ),
            arms,
        ),
{
    let s = t::RET_ENUM@;
    reveal_strlit(r#"{{
{i}    let __r = {call_expr}{unwrap_chain};
{i}    let __disc: i64 = match __r {{
{arms}{i}    }};
{i}    Ok("#);
    reveal_with_fuel(text::plain_to, 31);
    let b = seq![("i"@, i), ("call_expr"@, call_expr), ("unwrap_chain"@, unwrap_chain), ("sql_name"@, sql_name), ("arms"@, arms), ("element"@, element)];
    lemma_holes_i_call_expr_unwrap_chain_sql_name_arms_element(
        i,
        call_expr,
        unwrap_chain,
        sql_name,
        arms,
        element,
    );
    assert(words::has_piece(text::fill(t::RET_ENUM@, b), "let __r = "@ + call_expr + unwrap_chain + ";"@)) by {
        let before = text::lemma_fill_reaches(s, b, 6);
        reveal_strlit("    ");
        assert(s.subrange(6, 10) =~= "    "@);
        text::lemma_fill_run(s, b, 6, "    "@);
        reveal_strlit("let __r = ");
        assert(s.subrange(10, 20) =~= "let __r = "@);
        text::lemma_fill_run(s, b, 10, "let __r = "@);
        reveal_strlit("call_expr");
        assert(s.subrange(21, 30) =~= "call_expr"@);
        text::lemma_fill_hole(s, b, 20, "call_expr"@);
        reveal_strlit("unwrap_chain");
        assert(s.subrange(32, 44) =~= "unwrap_chain"@);
        text::lemma_fill_hole(s, b, 31, "unwrap_chain"@);
        reveal_strlit(";");
        assert(s.subrange(45, 46) =~= ";"@);
        text::lemma_fill_run(s, b, 45, ";"@);
        let rest = text::fill_from(s, b, 46);
        let part = "let __r = "@ + call_expr + unwrap_chain + ";"@;
        assert(("let __r = "@ + (call_expr + (unwrap_chain + (";"@ + rest)))) =~= part + rest);
        assert(before + ("    "@ + (part + rest)) =~= (before + "    "@) + (part + rest));
        words::lemma_piece_between(before + "    "@, part, rest);
    }
    assert(words::has_piece(text::fill(t::RET_ENUM@, b), "let __disc: i64 = match __r "@)) by {
        let before = text::lemma_fill_reaches(s, b, 50);
        reveal_strlit("    ");
        assert(s.subrange(50, 54) =~= "    "@);
        text::lemma_fill_run(s, b, 50, "    "@);
        reveal_strlit("let __disc: i64 = match __r ");
        assert(s.subrange(54, 82) =~= "let __disc: i64 = match __r "@);
        text::lemma_fill_run(s, b, 54, "let __disc: i64 = match __r "@);
        let rest = text::fill_from(s, b, 82);
        let part = "let __disc: i64 = match __r "@;
        assert(before + ("    "@ + (part + rest)) =~= (before + "    "@) + (part + rest));
        words::lemma_piece_between(before + "    "@, part, rest);
    }
    assert(words::has_piece(text::fill(t::RET_ENUM@, b), arms)) by {
        let before = text::lemma_fill_reaches(s, b, 50);
        reveal_strlit("    let __disc: i64 = match __");
        assert(s.subrange(50, 80) =~= "    let __disc: i64 = match __"@);
        text::lemma_fill_run(s, b, 50, "    let __disc: i64 = match __"@);
        reveal_strlit("r ");
        assert(s.subrange(80, 82) =~= "r "@);
        text::lemma_fill_run(s, b, 80, "r "@);
        assert(text::fill_from(s, b, 82) == seq!['{'] + text::fill_from(s, b, 84));
        reveal_strlit("\n");
        assert(s.subrange(84, 85) =~= "\n"@);
        text::lemma_fill_run(s, b, 84, "\n"@);
        reveal_strlit("arms");
        assert(s.subrange(86, 90) =~= "arms"@);
        text::lemma_fill_hole(s, b, 85, "arms"@);
        let rest = text::fill_from(s, b, 91);
        let part = arms;
        assert(before
            + ("    let __disc: i64 = match __"@ + ("r "@ + (seq!['{'] + ("\n"@ + (part + rest)))))
            =~= (before + "    let __disc: i64 = match __"@ + "r "@ + seq!['{'] + "\n"@)
                + (part + rest));
        words::lemma_piece_between(
            before + "    let __disc: i64 = match __"@ + "r "@ + seq!['{'] + "\n"@,
            part,
            rest,
        );
    }
}

proof fn lemma_ret_json(
    i: Seq<char>,
    call_expr: Seq<char>,
    unwrap_chain: Seq<char>,
    sql_name: Seq<char>,
    arms: Seq<char>,
    element: Seq<char>,
)
    ensures
        words::has_piece(
            text::fill(
                t::RET_JSON@,
                seq![("i"@, i), ("call_expr"@, call_expr), ("unwrap_chain"@, unwrap_chain), ("sql_name"@, sql_name), ("arms"@, arms), ("element"@, element)],
            ),
            "let __r = "@ + call_expr + unwrap_chain + ";"@,
        ),
        words::has_piece(
            text::fill(
                t::RET_JSON@,
                seq![("i"@, i), ("call_expr"@, call_expr), ("unwrap_chain"@, unwrap_chain), ("sql_name"@, sql_name), ("arms"@, arms), ("element"@, element)],
            ),
            "serde_json::to_string(&__r)"@,
        ),
{
    let s = t::RET_JSON@;
    reveal_strlit(r#"{{
{i}    let __r = {call_expr}{unwrap_chain};
{i}    let __json = serde_json::to_string(&__r)
{i}        .map_err(|e| types::Duckerror::Internal(format!("{sql_name}: encode JSON: {{}}", e)))?;
{i}    Ok("#);
    reveal_with_fuel(text::plain_to, 31);
    let b = seq![("i"@, i), ("call_expr"@, call_expr), ("unwrap_chain"@, unwrap_chain), ("sql_name"@, sql_name), ("arms"@, arms), ("element"@, element)];
    lemma_holes_i_call_expr_unwrap_chain_sql_name_arms_element(
        i,
        call_expr,
        unwrap_chain,
        sql_name,
        arms,
        element,
    );
    assert(words::has_piece(text::fill(t::RET_JSON@, b), "let __r = "@ + call_expr + unwrap_chain + ";"@)) by {
        let before = text::lemma_fill_reaches(s, b, 6);
        reveal_strlit("    ");
        assert(s.subrange(6, 10) =~= "    "@);
        text::lemma_fill_run(s, b, 6, "    "@);
        reveal_strlit("let __r = ");
        assert(s.subrange(10, 20) =~= "let __r = "@);
        text::lemma_fill_run(s, b, 10, "let __r = "@);
        reveal_strlit("call_expr");
        assert(s.subrange(21, 30) =~= "call_expr"@);
        text::lemma_fill_hole(s, b, 20, "call_expr"@);
        reveal_strlit("unwrap_chain");
        assert(s.subrange(32, 44) =~= "unwrap_chain"@);
        text::lemma_fill_hole(s, b, 31, "unwrap_chain"@);
        reveal_strlit(";");
        assert(s.subrange(45, 46) =~= ";"@);
        text::lemma_fill_run(s, b, 45, ";"@);
        let rest = text::fill_from(s, b, 46);
        let part = "let __r = "@ + call_expr + unwrap_chain + ";"@;
        assert(("let __r = "@ + (call_expr + (unwrap_chain + (";"@ + rest)))) =~= part + rest);
        assert(before + ("    "@ + (part + rest)) =~= (before + "    "@) + (part + rest));
        words::lemma_piece_between(before + "    "@, part, rest);
    }
    assert(words::has_piece(text::fill(t::RET_JSON@, b), "serde_json::to_string(&__r)"@)) by {
        let before = text::lemma_fill_reaches(s, b, 50);
        reveal_strlit("    let __json = ");
        assert(s.subrange(50, 67) =~= "    let __json = "@);
        text::lemma_fill_run(s, b, 50, "    let __json = "@);
        reveal_strlit("serde_json::to_string(&__r)");
        assert(s.subrange(67, 94) =~= "serde_json::to_string(&__r)"@);
        text::lemma_fill_run(s, b, 67, "serde_json::to_string(&__r)"@);
        let rest = text::fill_from(s, b, 94);
        let part = "serde_json::to_string(&__r)"@;
        assert(before + ("    let __json = "@ + (part + rest))
            =~= (before + "    let __json = "@) + (part + rest));
        words::lemma_piece_between(before + "    let __json = "@, part, rest);
    }
}

proof fn lemma_ret_json_option_tuple(
    i: Seq<char>,
    call_expr: Seq<char>,
    unwrap_chain: Seq<char>,
    sql_name: Seq<char>,
    arms: Seq<char>,
    element: Seq<char>,
)
    ensures
        words::has_piece(
            text::fill(
                t::RET_JSON_OPTION_TUPLE@,
                seq![("i"@, i), ("call_expr"@, call_expr), ("unwrap_chain"@, unwrap_chain), ("sql_name"@, sql_name), ("arms"@, arms), ("element"@, element)],
            ),
            "match "@ + call_expr + unwrap_chain + " "@,
        ),
        words::has_piece(
            text::fill(
                t::RET_JSON_OPTION_TUPLE@,
                seq![("i"@, i), ("call_expr"@, call_expr), ("unwrap_chain"@, unwrap_chain), ("sql_name"@, sql_name), ("arms"@, arms), ("element"@, element)],
            ),
            "serde_json::to_string(&__t)"@,
        ),
{
    let s = t::RET_JSON_OPTION_TUPLE@;
    reveal_strlit(r#"{{
{i}    match {call_expr}{unwrap_chain} {{
{i}        Some(__t) => {{
{i}            let __json = serde_json::to_string(&__t)
{i}                .map_err(|e| types::Duckerror::Internal(format!("{sql_name}: encode JSON: {{}}", e)))?;
{i}            Ok("#);
    reveal_with_fuel(text::plain_to, 31);
    let b = seq![("i"@, i), ("call_expr"@, call_expr), ("unwrap_chain"@, unwrap_chain), ("sql_name"@, sql_name), ("arms"@, arms), ("element"@, element)];
    lemma_holes_i_call_expr_unwrap_chain_sql_name_arms_element(
        i,
        call_expr,
        unwrap_chain,
        sql_name,
        arms,
        element,
    );
    assert(words::has_piece(
        text::fill(t::RET_JSON_OPTION_TUPLE@, b),
        "match "@ + call_expr + unwrap_chain + " "@,
    )) by {
        let before = text::lemma_fill_reaches(s, b, 6);
        reveal_strlit("    ");
        assert(s.subrange(6, 10) =~= "    "@);
        text::lemma_fill_run(s, b, 6, "    "@);
        reveal_strlit("match ");
        assert(s.subrange(10, 16) =~= "match "@);
        text::lemma_fill_run(s, b, 10, "match "@);
        reveal_strlit("call_expr");
        assert(s.subrange(17, 26) =~= "call_expr"@);
        text::lemma_fill_hole(s, b, 16, "call_expr"@);
        reveal_strlit("unwrap_chain");
        assert(s.subrange(28, 40) =~= "unwrap_chain"@);
        text::lemma_fill_hole(s, b, 27, "unwrap_chain"@);
        reveal_strlit(" ");
        assert(s.subrange(41, 42) =~= " "@);
        text::lemma_fill_run(s, b, 41, " "@);
        let rest = text::fill_from(s, b, 42);
        let part = "match "@ + call_expr + unwrap_chain + " "@;
        assert(("match "@ + (call_expr + (unwrap_chain + (" "@ + rest)))) =~= part + rest);
        assert(before + ("    "@ + (part + rest)) =~= (before + "    "@) + (part + rest));
        words::lemma_piece_between(before + "    "@, part, rest);
    }
    assert(words::has_piece(text::fill(t::RET_JSON_OPTION_TUPLE@, b), "serde_json::to_string(&__t)"@)) by {
        let before = text::lemma_fill_reaches(s, b, 75);
        reveal_strlit("            let __json = ");
        assert(s.subrange(75, 100) =~= "            let __json = "@);
        text::lemma_fill_run(s, b, 75, "            let __json = "@);
        reveal_strlit("serde_json::to_string(&__t)");
        assert(s.subrange(100, 127) =~= "serde_json::to_string(&__t)"@);
        text::lemma_fill_run(s, b, 100, "serde_json::to_string(&__t)"@);
        let rest = text::fill_from(s, b, 127);
        let part = "serde_json::to_string(&__t)"@;
        assert(before + ("            let __json = "@ + (part + rest))
            =~= (before + "            let __json = "@) + (part + rest));
        words::lemma_piece_between(before + "            let __json = "@, part, rest);
    }
}

proof fn lemma_ret_json_option_list(
    i: Seq<char>,
    call_expr: Seq<char>,
    unwrap_chain: Seq<char>,
    sql_name: Seq<char>,
    arms: Seq<char>,
    element: Seq<char>,
)
    ensures
        words::has_piece(
            text::fill(
                t::RET_JSON_OPTION_LIST@,
                seq![("i"@, i), ("call_expr"@, call_expr), ("unwrap_chain"@, unwrap_chain), ("sql_name"@, sql_name), ("arms"@, arms), ("element"@, element)],
            ),
            "match "@ + call_expr + unwrap_chain + " "@,
        ),
        words::has_piece(
            text::fill(
                t::RET_JSON_OPTION_LIST@,
                seq![("i"@, i), ("call_expr"@, call_expr), ("unwrap_chain"@, unwrap_chain), ("sql_name"@, sql_name), ("arms"@, arms), ("element"@, element)],
            ),
            "serde_json::to_string(&__v)"@,
        ),
{
    let s = t::RET_JSON_OPTION_LIST@;
    reveal_strlit(r#"{{
{i}    match {call_expr}{unwrap_chain} {{
{i}        Some(__v) => {{
{i}            let __json = serde_json::to_string(&__v)
{i}                .map_err(|e| types::Duckerror::Internal(format!("{sql_name}: encode JSON: {{}}", e)))?;
{i}            Ok("#);
    reveal_with_fuel(text::plain_to, 31);
    let b = seq![("i"@, i), ("call_expr"@, call_expr), ("unwrap_chain"@, unwrap_chain), ("sql_name"@, sql_name), ("arms"@, arms), ("element"@, element)];
    lemma_holes_i_call_expr_unwrap_chain_sql_name_arms_element(
        i,
        call_expr,
        unwrap_chain,
        sql_name,
        arms,
        element,
    );
    assert(words::has_piece(
        text::fill(t::RET_JSON_OPTION_LIST@, b),
        "match "@ + call_expr + unwrap_chain + " "@,
    )) by {
        let before = text::lemma_fill_reaches(s, b, 6);
        reveal_strlit("    ");
        assert(s.subrange(6, 10) =~= "    "@);
        text::lemma_fill_run(s, b, 6, "    "@);
        reveal_strlit("match ");
        assert(s.subrange(10, 16) =~= "match "@);
        text::lemma_fill_run(s, b, 10, "match "@);
        reveal_strlit("call_expr");
        assert(s.subrange(17, 26) =~= "call_expr"@);
        text::lemma_fill_hole(s, b, 16, "call_expr"@);
        reveal_strlit("unwrap_chain");
        assert(s.subrange(28, 40) =~= "unwrap_chain"@);
        text::lemma_fill_hole(s, b, 27, "unwrap_chain"@);
        reveal_strlit(" ");
        assert(s.subrange(41, 42) =~= " "@);
        text::lemma_fill_run(s, b, 41, " "@);
        let rest = text::fill_from(s, b, 42);
        let part = "match "@ + call_expr + unwrap_chain + " "@;
        assert(("match "@ + (call_expr + (unwrap_chain + (" "@ + rest)))) =~= part + rest);
        assert(before + ("    "@ + (part + rest)) =~= (before + "    "@) + (part + rest));
        words::lemma_piece_between(before + "    "@, part, rest);
    }
    assert(words::has_piece(text::fill(t::RET_JSON_OPTION_LIST@, b), "serde_json::to_string(&__v)"@)) by {
        let before = text::lemma_fill_reaches(s, b, 75);
        reveal_strlit("            let __json = ");
        assert(s.subrange(75, 100) =~= "            let __json = "@);
        text::lemma_fill_run(s, b, 75, "            let __json = "@);
        reveal_strlit("serde_json::to_string(&__v)");
        assert(s.subrange(100, 127) =~= "serde_json::to_string(&__v)"@);
        text::lemma_fill_run(s, b, 100, "serde_json::to_string(&__v)"@);
        let rest = text::fill_from(s, b, 127);
        let part = "serde_json::to_string(&__v)"@;
        assert(before + ("            let __json = "@ + (part + rest))
            =~= (before + "            let __json = "@) + (part + rest));
        words::lemma_piece_between(before + "            let __json = "@, part, rest);
    }
}

proof fn lemma_ret_json_option_end(
    i: Seq<char>,
    call_expr: Seq<char>,
    unwrap_chain: Seq<char>,
    sql_name: Seq<char>,
    arms: Seq<char>,
    element: Seq<char>,
)
    ensures
        words::has_piece(
            text::fill(
                t::RET_JSON_OPTION_END@,
                seq![("i"@, i), ("call_expr"@, call_expr), ("unwrap_chain"@, unwrap_chain), ("sql_name"@, sql_name), ("arms"@, arms), ("element"@, element)],
            ),
            "None => Ok(types::Duckvalue::Null)"@,
        ),
{
    let s = t::RET_JSON_OPTION_END@;
    reveal_strlit(r#")
{i}        }}
{i}        None => Ok(types::Duckvalue::Null),
{i}    }}
{i}}}"#);
    reveal_with_fuel(text::plain_to, 31);
    let b = seq![("i"@, i), ("call_expr"@, call_expr), ("unwrap_chain"@, unwrap_chain), ("sql_name"@, sql_name), ("arms"@, arms), ("element"@, element)];
    lemma_holes_i_call_expr_unwrap_chain_sql_name_arms_element(
        i,
        call_expr,
        unwrap_chain,
        sql_name,
        arms,
        element,
    );
    assert(words::has_piece(text::fill(t::RET_JSON_OPTION_END@, b), "None => Ok(types::Duckvalue::Null)"@)) by {
        let before = text::lemma_fill_reaches(s, b, 19);
        reveal_strlit("        ");
        assert(s.subrange(19, 27) =~= "        "@);
        text::lemma_fill_run(s, b, 19, "        "@);
        reveal_strlit("None => Ok(types::Duckvalue::N");
        assert(s.subrange(27, 57) =~= "None => Ok(types::Duckvalue::N"@);
        text::lemma_fill_run(s, b, 27, "None => Ok(types::Duckvalue::N"@);
        reveal_strlit("ull)");
        assert(s.subrange(57, 61) =~= "ull)"@);
        text::lemma_fill_run(s, b, 57, "ull)"@);
        let rest = text::fill_from(s, b, 61);
        let part = "None => Ok(types::Duckvalue::Null)"@;
        reveal_strlit("None => Ok(types::Duckvalue::Null)");
        assert(("None => Ok(types::Duckvalue::N"@ + ("ull)"@ + rest)) =~= part + rest);
        assert(before + ("        "@ + (part + rest)) =~= (before + "        "@) + (part + rest));
        words::lemma_piece_between(before + "        "@, part, rest);
    }
}

proof fn lemma_ret_json_geom_list(
    i: Seq<char>,
    call_expr: Seq<char>,
    unwrap_chain: Seq<char>,
    sql_name: Seq<char>,
    arms: Seq<char>,
    element: Seq<char>,
)
    ensures
        words::has_piece(
            text::fill(
                t::RET_JSON_GEOM_LIST@,
                seq![("i"@, i), ("call_expr"@, call_expr), ("unwrap_chain"@, unwrap_chain), ("sql_name"@, sql_name), ("arms"@, arms), ("element"@, element)],
            ),
            "let __r = "@ + call_expr + unwrap_chain + ";"@,
        ),
        words::has_piece(
            text::fill(
                t::RET_JSON_GEOM_LIST@,
                seq![("i"@, i), ("call_expr"@, call_expr), ("unwrap_chain"@, unwrap_chain), ("sql_name"@, sql_name), ("arms"@, arms), ("element"@, element)],
            ),
            "let __wkb = __g.as_wkb();"@,
        ),
        words::has_piece(
            text::fill(
                t::RET_JSON_GEOM_LIST@,
                seq![("i"@, i), ("call_expr"@, call_expr), ("unwrap_chain"@, unwrap_chain), ("sql_name"@, sql_name), ("arms"@, arms), ("element"@, element)],
            ),
            "serde_json::to_string(&__v)"@,
        ),
{
    let s = t::RET_JSON_GEOM_LIST@;
    reveal_strlit(r#"{{
{i}    let __r = {call_expr}{unwrap_chain};
{i}    let mut __out = alloc::string::String::from("[");
{i}    for (__i, (__g, __v)) in __r.into_iter().enumerate() {{
{i}        if __i > 0 {{ __out.push(','); }}
{i}        let __wkb = __g.as_wkb();
{i}        __out.push_str("[\"");
{i}        for __b in __wkb {{
{i}            use core::fmt::Write as _;
{i}            let _ = write!(&mut __out, "{{:02x}}", __b);
{i}        }}
{i}        __out.push_str("\",");
{i}        let __vj = serde_json::to_string(&__v)
{i}            .map_err(|e| types::Duckerror::Internal(format!("{sql_name}: encode JSON: {{}}", e)))?;
{i}        __out.push_str(&__vj);
{i}        __out.push(']');
{i}    }}
{i}    __out.push(']');
{i}    Ok("#);
    reveal_with_fuel(text::plain_to, 31);
    let b = seq![("i"@, i), ("call_expr"@, call_expr), ("unwrap_chain"@, unwrap_chain), ("sql_name"@, sql_name), ("arms"@, arms), ("element"@, element)];
    lemma_holes_i_call_expr_unwrap_chain_sql_name_arms_element(
        i,
        call_expr,
        unwrap_chain,
        sql_name,
        arms,
        element,
    );
    assert(words::has_piece(
        text::fill(t::RET_JSON_GEOM_LIST@, b),
        "let __r = "@ + call_expr + unwrap_chain + ";"@,
    )) by {
        let before = text::lemma_fill_reaches(s, b, 6);
        reveal_strlit("    ");
        assert(s.subrange(6, 10) =~= "    "@);
        text::lemma_fill_run(s, b, 6, "    "@);
        reveal_strlit("let __r = ");
        assert(s.subrange(10, 20) =~= "let __r = "@);
        text::lemma_fill_run(s, b, 10, "let __r = "@);
        reveal_strlit("call_expr");
        assert(s.subrange(21, 30) =~= "call_expr"@);
        text::lemma_fill_hole(s, b, 20, "call_expr"@);
        reveal_strlit("unwrap_chain");
        assert(s.subrange(32, 44) =~= "unwrap_chain"@);
        text::lemma_fill_hole(s, b, 31, "unwrap_chain"@);
        reveal_strlit(";");
        assert(s.subrange(45, 46) =~= ";"@);
        text::lemma_fill_run(s, b, 45, ";"@);
        let rest = text::fill_from(s, b, 46);
        let part = "let __r = "@ + call_expr + unwrap_chain + ";"@;
        assert(("let __r = "@ + (call_expr + (unwrap_chain + (";"@ + rest)))) =~= part + rest);
        assert(before + ("    "@ + (part + rest)) =~= (before + "    "@) + (part + rest));
        words::lemma_piece_between(before + "    "@, part, rest);
    }
    assert(words::has_piece(text::fill(t::RET_JSON_GEOM_LIST@, b), "let __wkb = __g.as_wkb();"@)) by {
        let before = text::lemma_fill_reaches(s, b, 215);
        reveal_strlit("        ");
        assert(s.subrange(215, 223) =~= "        "@);
        text::lemma_fill_run(s, b, 215, "        "@);
        reveal_strlit("let __wkb = __g.as_wkb();");
        assert(s.subrange(223, 248) =~= "let __wkb = __g.as_wkb();"@);
        text::lemma_fill_run(s, b, 223, "let __wkb = __g.as_wkb();"@);
        let rest = text::fill_from(s, b, 248);
        let part = "let __wkb = __g.as_wkb();"@;
        assert(before + ("        "@ + (part + rest)) =~= (before + "        "@) + (part + rest));
        words::lemma_piece_between(before + "        "@, part, rest);
    }
    assert(words::has_piece(text::fill(t::RET_JSON_GEOM_LIST@, b), "serde_json::to_string(&__v)"@)) by {
        let before = text::lemma_fill_reaches(s, b, 467);
        reveal_strlit("        let __vj = ");
        assert(s.subrange(467, 486) =~= "        let __vj = "@);
        text::lemma_fill_run(s, b, 467, "        let __vj = "@);
        reveal_strlit("serde_json::to_string(&__v)");
        assert(s.subrange(486, 513) =~= "serde_json::to_string(&__v)"@);
        text::lemma_fill_run(s, b, 486, "serde_json::to_string(&__v)"@);
        let rest = text::fill_from(s, b, 513);
        let part = "serde_json::to_string(&__v)"@;
        assert(before + ("        let __vj = "@ + (part + rest))
            =~= (before + "        let __vj = "@) + (part + rest));
        words::lemma_piece_between(before + "        let __vj = "@, part, rest);
    }
}

proof fn lemma_ret_option_record(
    i: Seq<char>,
    call_expr: Seq<char>,
    unwrap_chain: Seq<char>,
    sql_name: Seq<char>,
    arms: Seq<char>,
    element: Seq<char>,
)
    ensures
        words::has_piece(
            text::fill(
                t::RET_OPTION_RECORD@,
                seq![("i"@, i), ("call_expr"@, call_expr), ("unwrap_chain"@, unwrap_chain), ("sql_name"@, sql_name), ("arms"@, arms), ("element"@, element)],
            ),
            "match "@ + call_expr + unwrap_chain + " "@,
        ),
        words::has_piece(
            text::fill(
                t::RET_OPTION_RECORD@,
                seq![("i"@, i), ("call_expr"@, call_expr), ("unwrap_chain"@, unwrap_chain), ("sql_name"@, sql_name), ("arms"@, arms), ("element"@, element)],
            ),
            "Some(__rec) => "@,
        ),
{
    let s = t::RET_OPTION_RECORD@;
    reveal_strlit(r#"match {call_expr}{unwrap_chain} {{
{i}    Some(__rec) => "#);
    reveal_with_fuel(text::plain_to, 31);
    let b = seq![("i"@, i), ("call_expr"@, call_expr), ("unwrap_chain"@, unwrap_chain), ("sql_name"@, sql_name), ("arms"@, arms), ("element"@, element)];
    lemma_holes_i_call_expr_unwrap_chain_sql_name_arms_element(
        i,
        call_expr,
        unwrap_chain,
        sql_name,
        arms,
        element,
    );
    assert(words::has_piece(
        text::fill(t::RET_OPTION_RECORD@, b),
        "match "@ + call_expr + unwrap_chain + " "@,
    )) by {
        let before = text::lemma_fill_reaches(s, b, 0);
        reveal_strlit("match ");
        assert(s.subrange(0, 6) =~= "match "@);
        text::lemma_fill_run(s, b, 0, "match "@);
        reveal_strlit("call_expr");
        assert(s.subrange(7, 16) =~= "call_expr"@);
        text::lemma_fill_hole(s, b, 6, "call_expr"@);
        reveal_strlit("unwrap_chain");
        assert(s.subrange(18, 30) =~= "unwrap_chain"@);
        text::lemma_fill_hole(s, b, 17, "unwrap_chain"@);
        reveal_strlit(" ");
        assert(s.subrange(31, 32) =~= " "@);
        text::lemma_fill_run(s, b, 31, " "@);
        let rest = text::fill_from(s, b, 32);
        let part = "match "@ + call_expr + unwrap_chain + " "@;
        assert(("match "@ + (call_expr + (unwrap_chain + (" "@ + rest)))) =~= part + rest);
        words::lemma_piece_between(before, part, rest);
    }
    assert(words::has_piece(text::fill(t::RET_OPTION_RECORD@, b), "Some(__rec) => "@)) by {
        let before = text::lemma_fill_reaches(s, b, 38);
        reveal_strlit("    ");
        assert(s.subrange(38, 42) =~= "    "@);
        text::lemma_fill_run(s, b, 38, "    "@);
        reveal_strlit("Some(__rec) => ");
        assert(s.subrange(42, 57) =~= "Some(__rec) => "@);
        text::lemma_fill_run(s, b, 42, "Some(__rec) => "@);
        let rest = text::fill_from(s, b, 57);
        let part = "Some(__rec) => "@;
        assert(before + ("    "@ + (part + rest)) =~= (before + "    "@) + (part + rest));
        words::lemma_piece_between(before + "    "@, part, rest);
    }
}

proof fn lemma_ret_option_record_end(
    i: Seq<char>,
    call_expr: Seq<char>,
    unwrap_chain: Seq<char>,
    sql_name: Seq<char>,
    arms: Seq<char>,
    element: Seq<char>,
)
    ensures
        words::has_piece(
            text::fill(
                t::RET_OPTION_RECORD_END@,
                seq![("i"@, i), ("call_expr"@, call_expr), ("unwrap_chain"@, unwrap_chain), ("sql_name"@, sql_name), ("arms"@, arms), ("element"@, element)],
            ),
            "None => Ok(types::Duckvalue::Null)"@,
        ),
{
    let s = t::RET_OPTION_RECORD_END@;
    reveal_strlit(r#",
{i}    None => Ok(types::Duckvalue::Null),
{i}}}"#);
    reveal_with_fuel(text::plain_to, 31);
    let b = seq![("i"@, i), ("call_expr"@, call_expr), ("unwrap_chain"@, unwrap_chain), ("sql_name"@, sql_name), ("arms"@, arms), ("element"@, element)];
    lemma_holes_i_call_expr_unwrap_chain_sql_name_arms_element(
        i,
        call_expr,
        unwrap_chain,
        sql_name,
        arms,
        element,
    );
    assert(words::has_piece(
        text::fill(t::RET_OPTION_RECORD_END@, b),
        "None => Ok(types::Duckvalue::Null)"@,
    )) by {
        let before = text::lemma_fill_reaches(s, b, 5);
        reveal_strlit("    ");
        assert(s.subrange(5, 9) =~= "    "@);
        text::lemma_fill_run(s, b, 5, "    "@);
        reveal_strlit("None => Ok(types::Duckvalue::N");
        assert(s.subrange(9, 39) =~= "None => Ok(types::Duckvalue::N"@);
        text::lemma_fill_run(s, b, 9, "None => Ok(types::Duckvalue::N"@);
        reveal_strlit("ull)");
        assert(s.subrange(39, 43) =~= "ull)"@);
        text::lemma_fill_run(s, b, 39, "ull)"@);
        let rest = text::fill_from(s, b, 43);
        let part = "None => Ok(types::Duckvalue::Null)"@;
        reveal_strlit("None => Ok(types::Duckvalue::Null)");
        assert(("None => Ok(types::Duckvalue::N"@ + ("ull)"@ + rest)) =~= part + rest);
        assert(before + ("    "@ + (part + rest)) =~= (before + "    "@) + (part + rest));
        words::lemma_piece_between(before + "    "@, part, rest);
    }
}

proof fn lemma_ret_first_record(
    i: Seq<char>,
    call_expr: Seq<char>,
    unwrap_chain: Seq<char>,
    sql_name: Seq<char>,
    arms: Seq<char>,
    element: Seq<char>,
)
    ensures
        words::has_piece(
            text::fill(
                t::RET_FIRST_RECORD@,
                seq![("i"@, i), ("call_expr"@, call_expr), ("unwrap_chain"@, unwrap_chain), ("sql_name"@, sql_name), ("arms"@, arms), ("element"@, element)],
            ),
            "let __r = "@ + call_expr + unwrap_chain + ";"@,
        ),
        words::has_piece(
            text::fill(
                t::RET_FIRST_RECORD@,
                seq![("i"@, i), ("call_expr"@, call_expr), ("unwrap_chain"@, unwrap_chain), ("sql_name"@, sql_name), ("arms"@, arms), ("element"@, element)],
            ),
            "Some(__rec) => "@,
        ),
{
    let s = t::RET_FIRST_RECORD@;
    reveal_strlit(r#"{{
{i}    let __r = {call_expr}{unwrap_chain};
{i}    let mut __it = __r.into_iter();
{i}    match __it.next() {{
{i}        Some(__rec) => "#);
    reveal_with_fuel(text::plain_to, 31);
    let b = seq![("i"@, i), ("call_expr"@, call_expr), ("unwrap_chain"@, unwrap_chain), ("sql_name"@, sql_name), ("arms"@, arms), ("element"@, element)];
    lemma_holes_i_call_expr_unwrap_chain_sql_name_arms_element(
        i,
        call_expr,
        unwrap_chain,
        sql_name,
        arms,
        element,
    );
    assert(words::has_piece(
        text::fill(t::RET_FIRST_RECORD@, b),
        "let __r = "@ + call_expr + unwrap_chain + ";"@,
    )) by {
        let before = text::lemma_fill_reaches(s, b, 6);
        reveal_strlit("    ");
        assert(s.subrange(6, 10) =~= "    "@);
        text::lemma_fill_run(s, b, 6, "    "@);
        reveal_strlit("let __r = ");
        assert(s.subrange(10, 20) =~= "let __r = "@);
        text::lemma_fill_run(s, b, 10, "let __r = "@);
        reveal_strlit("call_expr");
        assert(s.subrange(21, 30) =~= "call_expr"@);
        text::lemma_fill_hole(s, b, 20, "call_expr"@);
        reveal_strlit("unwrap_chain");
        assert(s.subrange(32, 44) =~= "unwrap_chain"@);
        text::lemma_fill_hole(s, b, 31, "unwrap_chain"@);
        reveal_strlit(";");
        assert(s.subrange(45, 46) =~= ";"@);
        text::lemma_fill_run(s, b, 45, ";"@);
        let rest = text::fill_from(s, b, 46);
        let part = "let __r = "@ + call_expr + unwrap_chain + ";"@;
        assert(("let __r = "@ + (call_expr + (unwrap_chain + (";"@ + rest)))) =~= part + rest);
        assert(before + ("    "@ + (part + rest)) =~= (before + "    "@) + (part + rest));
        words::lemma_piece_between(before + "    "@, part, rest);
    }
    assert(words::has_piece(text::fill(t::RET_FIRST_RECORD@, b), "Some(__rec) => "@)) by {
        let before = text::lemma_fill_reaches(s, b, 117);
        reveal_strlit("        ");
        assert(s.subrange(117, 125) =~= "        "@);
        text::lemma_fill_run(s, b, 117, "        "@);
        reveal_strlit("Some(__rec) => ");
        assert(s.subrange(125, 140) =~= "Some(__rec) => "@);
        text::lemma_fill_run(s, b, 125, "Some(__rec) => "@);
        let rest = text::fill_from(s, b, 140);
        let part = "Some(__rec) => "@;
        assert(before + ("        "@ + (part + rest)) =~= (before + "        "@) + (part + rest));
        words::lemma_piece_between(before + "        "@, part, rest);
    }
}

proof fn lemma_ret_first_record_end(
    i: Seq<char>,
    call_expr: Seq<char>,
    unwrap_chain: Seq<char>,
    sql_name: Seq<char>,
    arms: Seq<char>,
    element: Seq<char>,
)
    ensures
        words::has_piece(
            text::fill(
                t::RET_FIRST_RECORD_END@,
                seq![("i"@, i), ("call_expr"@, call_expr), ("unwrap_chain"@, unwrap_chain), ("sql_name"@, sql_name), ("arms"@, arms), ("element"@, element)],
            ),
            "None => Ok(types::Duckvalue::Null)"@,
        ),
{
    let s = t::RET_FIRST_RECORD_END@;
    reveal_strlit(r#",
{i}        None => Ok(types::Duckvalue::Null),
{i}    }}
{i}}}"#);
    reveal_with_fuel(text::plain_to, 31);
    let b = seq![("i"@, i), ("call_expr"@, call_expr), ("unwrap_chain"@, unwrap_chain), ("sql_name"@, sql_name), ("arms"@, arms), ("element"@, element)];
    lemma_holes_i_call_expr_unwrap_chain_sql_name_arms_element(
        i,
        call_expr,
        unwrap_chain,
        sql_name,
        arms,
        element,
    );
    assert(words::has_piece(
        text::fill(t::RET_FIRST_RECORD_END@, b),
        "None => Ok(types::Duckvalue::Null)"@,
    )) by {
        let before = text::lemma_fill_reaches(s, b, 5);
        reveal_strlit("        ");
        assert(s.subrange(5, 13) =~= "        "@);
        text::lemma_fill_run(s, b, 5, "        "@);
        reveal_strlit("None => Ok(types::Duckvalue::N");
        assert(s.subrange(13, 43) =~= "None => Ok(types::Duckvalue::N"@);
        text::lemma_fill_run(s, b, 13, "None => Ok(types::Duckvalue::N"@);
        reveal_strlit("ull)");
        assert(s.subrange(43, 47) =~= "ull)"@);
        text::lemma_fill_run(s, b, 43, "ull)"@);
        let rest = text::fill_from(s, b, 47);
        let part = "None => Ok(types::Duckvalue::Null)"@;
        reveal_strlit("None => Ok(types::Duckvalue::Null)");
        assert(("None => Ok(types::Duckvalue::N"@ + ("ull)"@ + rest)) =~= part + rest);
        assert(before + ("        "@ + (part + rest)) =~= (before + "        "@) + (part + rest));
        words::lemma_piece_between(before + "        "@, part, rest);
    }
}

proof fn lemma_ret_unit(
    i: Seq<char>,
    call_expr: Seq<char>,
    unwrap_chain: Seq<char>,
    sql_name: Seq<char>,
    arms: Seq<char>,
    element: Seq<char>,
)
    ensures
        words::has_piece(
            text::fill(
                t::RET_UNIT@,
                seq![("i"@, i), ("call_expr"@, call_expr), ("unwrap_chain"@, unwrap_chain), ("sql_name"@, sql_name), ("arms"@, arms), ("element"@, element)],
            ),
            "let _ = "@ + call_expr + unwrap_chain + ";"@,
        ),
        words::has_piece(
            text::fill(
                t::RET_UNIT@,
                seq![("i"@, i), ("call_expr"@, call_expr), ("unwrap_chain"@, unwrap_chain), ("sql_name"@, sql_name), ("arms"@, arms), ("element"@, element)],
            ),
            "Ok(types::Duckvalue::Null)"@,
        ),
{
    let s = t::RET_UNIT@;
    reveal_strlit(r#"let _ = {call_expr}{unwrap_chain};
{i}Ok(types::Duckvalue::Null)"#);
    reveal_with_fuel(text::plain_to, 31);
    let b = seq![("i"@, i), ("call_expr"@, call_expr), ("unwrap_chain"@, unwrap_chain), ("sql_name"@, sql_name), ("arms"@, arms), ("element"@, element)];
    lemma_holes_i_call_expr_unwrap_chain_sql_name_arms_element(
        i,
        call_expr,
        unwrap_chain,
        sql_name,
        arms,
        element,
    );
    assert(words::has_piece(text::fill(t::RET_UNIT@, b), "let _ = "@ + call_expr + unwrap_chain + ";"@)) by {
        let before = text::lemma_fill_reaches(s, b, 0);
        reveal_strlit("let _ = ");
        assert(s.subrange(0, 8) =~= "let _ = "@);
        text::lemma_fill_run(s, b, 0, "let _ = "@);
        reveal_strlit("call_expr");
        assert(s.subrange(9, 18) =~= "call_expr"@);
        text::lemma_fill_hole(s, b, 8, "call_expr"@);
        reveal_strlit("unwrap_chain");
        assert(s.subrange(20, 32) =~= "unwrap_chain"@);
        text::lemma_fill_hole(s, b, 19, "unwrap_chain"@);
        reveal_strlit(";");
        assert(s.subrange(33, 34) =~= ";"@);
        text::lemma_fill_run(s, b, 33, ";"@);
        let rest = text::fill_from(s, b, 34);
        let part = "let _ = "@ + call_expr + unwrap_chain + ";"@;
        assert(("let _ = "@ + (call_expr + (unwrap_chain + (";"@ + rest)))) =~= part + rest);
        words::lemma_piece_between(before, part, rest);
    }
    assert(words::has_piece(text::fill(t::RET_UNIT@, b), "Ok(types::Duckvalue::Null)"@)) by {
        let before = text::lemma_fill_reaches(s, b, 38);
        reveal_strlit("Ok(types::Duckvalue::Null)");
        assert(s.subrange(38, 64) =~= "Ok(types::Duckvalue::Null)"@);
        text::lemma_fill_run(s, b, 38, "Ok(types::Duckvalue::Null)"@);
        let rest = text::fill_from(s, b, 64);
        let part = "Ok(types::Duckvalue::Null)"@;
        words::lemma_piece_between(before, part, rest);
    }
}

proof fn lemma_source_call_chain_into(
    i: Seq<char>,
    call_expr: Seq<char>,
    unwrap_chain: Seq<char>,
    sql_name: Seq<char>,
    arms: Seq<char>,
    element: Seq<char>,
)
    ensures
        text::fill(
            "({call_expr}{unwrap_chain}).into()"@,
            seq![("i"@, i), ("call_expr"@, call_expr), ("unwrap_chain"@, unwrap_chain), ("sql_name"@, sql_name), ("arms"@, arms), ("element"@, element)],
        )
            == "("@ + call_expr + unwrap_chain + ").into()"@,
{
    let s = "({call_expr}{unwrap_chain}).into()"@;
    let b = seq![("i"@, i), ("call_expr"@, call_expr), ("unwrap_chain"@, unwrap_chain), ("sql_name"@, sql_name), ("arms"@, arms), ("element"@, element)];
    reveal_strlit("({call_expr}{unwrap_chain}).into()");
    reveal_with_fuel(text::plain_to, 31);
    lemma_holes_i_call_expr_unwrap_chain_sql_name_arms_element(
        i,
        call_expr,
        unwrap_chain,
        sql_name,
        arms,
        element,
    );
    reveal_strlit("(");
    assert(s.subrange(0, 1) =~= "("@);
    text::lemma_fill_run(s, b, 0, "("@);
    reveal_strlit("call_expr");
    assert(s.subrange(2, 11) =~= "call_expr"@);
    text::lemma_fill_hole(s, b, 1, "call_expr"@);
    reveal_strlit("unwrap_chain");
    assert(s.subrange(13, 25) =~= "unwrap_chain"@);
    text::lemma_fill_hole(s, b, 12, "unwrap_chain"@);
    reveal_strlit(").into()");
    assert(s.subrange(26, 34) =~= ").into()"@);
    text::lemma_fill_run(s, b, 26, ").into()"@);
    assert(("("@ + (call_expr + (unwrap_chain + (").into()"@ + text::fill_from(s, b, 34)))))
        =~= "("@ + call_expr + unwrap_chain + ").into()"@);
}

proof fn lemma_source_call_chain(
    i: Seq<char>,
    call_expr: Seq<char>,
    unwrap_chain: Seq<char>,
    sql_name: Seq<char>,
    arms: Seq<char>,
    element: Seq<char>,
)
    ensures
        text::fill(
            "{call_expr}{unwrap_chain}"@,
            seq![("i"@, i), ("call_expr"@, call_expr), ("unwrap_chain"@, unwrap_chain), ("sql_name"@, sql_name), ("arms"@, arms), ("element"@, element)],
        )
            == call_expr + unwrap_chain,
{
    let s = "{call_expr}{unwrap_chain}"@;
    let b = seq![("i"@, i), ("call_expr"@, call_expr), ("unwrap_chain"@, unwrap_chain), ("sql_name"@, sql_name), ("arms"@, arms), ("element"@, element)];
    reveal_strlit("{call_expr}{unwrap_chain}");
    reveal_with_fuel(text::plain_to, 31);
    lemma_holes_i_call_expr_unwrap_chain_sql_name_arms_element(
        i,
        call_expr,
        unwrap_chain,
        sql_name,
        arms,
        element,
    );
    reveal_strlit("call_expr");
    assert(s.subrange(1, 10) =~= "call_expr"@);
    text::lemma_fill_hole(s, b, 0, "call_expr"@);
    reveal_strlit("unwrap_chain");
    assert(s.subrange(12, 24) =~= "unwrap_chain"@);
    text::lemma_fill_hole(s, b, 11, "unwrap_chain"@);
    assert((call_expr + (unwrap_chain + text::fill_from(s, b, 25))) =~= call_expr + unwrap_chain);
}

proof fn lemma_source_call_chain_as_i64(
    i: Seq<char>,
    call_expr: Seq<char>,
    unwrap_chain: Seq<char>,
    sql_name: Seq<char>,
    arms: Seq<char>,
    element: Seq<char>,
)
    ensures
        text::fill(
            "{call_expr}{unwrap_chain} as i64"@,
            seq![("i"@, i), ("call_expr"@, call_expr), ("unwrap_chain"@, unwrap_chain), ("sql_name"@, sql_name), ("arms"@, arms), ("element"@, element)],
        )
            == call_expr + unwrap_chain + " as i64"@,
{
    let s = "{call_expr}{unwrap_chain} as i64"@;
    let b = seq![("i"@, i), ("call_expr"@, call_expr), ("unwrap_chain"@, unwrap_chain), ("sql_name"@, sql_name), ("arms"@, arms), ("element"@, element)];
    reveal_strlit("{call_expr}{unwrap_chain} as i64");
    reveal_with_fuel(text::plain_to, 31);
    lemma_holes_i_call_expr_unwrap_chain_sql_name_arms_element(
        i,
        call_expr,
        unwrap_chain,
        sql_name,
        arms,
        element,
    );
    reveal_strlit("call_expr");
    assert(s.subrange(1, 10) =~= "call_expr"@);
    text::lemma_fill_hole(s, b, 0, "call_expr"@);
    reveal_strlit("unwrap_chain");
    assert(s.subrange(12, 24) =~= "unwrap_chain"@);
    text::lemma_fill_hole(s, b, 11, "unwrap_chain"@);
    reveal_strlit(" as i64");
    assert(s.subrange(25, 32) =~= " as i64"@);
    text::lemma_fill_run(s, b, 25, " as i64"@);
    assert((call_expr + (unwrap_chain + (" as i64"@ + text::fill_from(s, b, 32))))
        =~= call_expr + unwrap_chain + " as i64"@);
}

proof fn lemma_source_v_into(
    i: Seq<char>,
    call_expr: Seq<char>,
    unwrap_chain: Seq<char>,
    sql_name: Seq<char>,
    arms: Seq<char>,
    element: Seq<char>,
)
    ensures
        text::fill(
            "v.into()"@,
            seq![("i"@, i), ("call_expr"@, call_expr), ("unwrap_chain"@, unwrap_chain), ("sql_name"@, sql_name), ("arms"@, arms), ("element"@, element)],
        )
            == "v.into()"@,
{
    let s = "v.into()"@;
    let b = seq![("i"@, i), ("call_expr"@, call_expr), ("unwrap_chain"@, unwrap_chain), ("sql_name"@, sql_name), ("arms"@, arms), ("element"@, element)];
    reveal_strlit("v.into()");
    reveal_with_fuel(text::plain_to, 31);
    lemma_holes_i_call_expr_unwrap_chain_sql_name_arms_element(
        i,
        call_expr,
        unwrap_chain,
        sql_name,
        arms,
        element,
    );
    assert(s.subrange(0, 8) =~= "v.into()"@);
    text::lemma_fill_run(s, b, 0, "v.into()"@);
    assert(("v.into()"@ + text::fill_from(s, b, 8)) =~= "v.into()"@);
}

proof fn lemma_source_v_as_f64(
    i: Seq<char>,
    call_expr: Seq<char>,
    unwrap_chain: Seq<char>,
    sql_name: Seq<char>,
    arms: Seq<char>,
    element: Seq<char>,
)
    ensures
        text::fill(
            "v as f64"@,
            seq![("i"@, i), ("call_expr"@, call_expr), ("unwrap_chain"@, unwrap_chain), ("sql_name"@, sql_name), ("arms"@, arms), ("element"@, element)],
        )
            == "v as f64"@,
{
    let s = "v as f64"@;
    let b = seq![("i"@, i), ("call_expr"@, call_expr), ("unwrap_chain"@, unwrap_chain), ("sql_name"@, sql_name), ("arms"@, arms), ("element"@, element)];
    reveal_strlit("v as f64");
    reveal_with_fuel(text::plain_to, 31);
    lemma_holes_i_call_expr_unwrap_chain_sql_name_arms_element(
        i,
        call_expr,
        unwrap_chain,
        sql_name,
        arms,
        element,
    );
    assert(s.subrange(0, 8) =~= "v as f64"@);
    text::lemma_fill_run(s, b, 0, "v as f64"@);
    assert(("v as f64"@ + text::fill_from(s, b, 8)) =~= "v as f64"@);
}

proof fn lemma_source_v_as_i64(
    i: Seq<char>,
    call_expr: Seq<char>,
    unwrap_chain: Seq<char>,
    sql_name: Seq<char>,
    arms: Seq<char>,
    element: Seq<char>,
)
    ensures
        text::fill(
            "v as i64"@,
            seq![("i"@, i), ("call_expr"@, call_expr), ("unwrap_chain"@, unwrap_chain), ("sql_name"@, sql_name), ("arms"@, arms), ("element"@, element)],
        )
            == "v as i64"@,
{
    let s = "v as i64"@;
    let b = seq![("i"@, i), ("call_expr"@, call_expr), ("unwrap_chain"@, unwrap_chain), ("sql_name"@, sql_name), ("arms"@, arms), ("element"@, element)];
    reveal_strlit("v as i64");
    reveal_with_fuel(text::plain_to, 31);
    lemma_holes_i_call_expr_unwrap_chain_sql_name_arms_element(
        i,
        call_expr,
        unwrap_chain,
        sql_name,
        arms,
        element,
    );
    assert(s.subrange(0, 8) =~= "v as i64"@);
    text::lemma_fill_run(s, b, 0, "v as i64"@);
    assert(("v as i64"@ + text::fill_from(s, b, 8)) =~= "v as i64"@);
}

proof fn lemma_source_v(
    i: Seq<char>,
    call_expr: Seq<char>,
    unwrap_chain: Seq<char>,
    sql_name: Seq<char>,
    arms: Seq<char>,
    element: Seq<char>,
)
    ensures
        text::fill(
            "v"@,
            seq![("i"@, i), ("call_expr"@, call_expr), ("unwrap_chain"@, unwrap_chain), ("sql_name"@, sql_name), ("arms"@, arms), ("element"@, element)],
        )
            == "v"@,
{
    let s = "v"@;
    let b = seq![("i"@, i), ("call_expr"@, call_expr), ("unwrap_chain"@, unwrap_chain), ("sql_name"@, sql_name), ("arms"@, arms), ("element"@, element)];
    reveal_strlit("v");
    reveal_with_fuel(text::plain_to, 31);
    lemma_holes_i_call_expr_unwrap_chain_sql_name_arms_element(
        i,
        call_expr,
        unwrap_chain,
        sql_name,
        arms,
        element,
    );
    assert(s.subrange(0, 1) =~= "v"@);
    text::lemma_fill_run(s, b, 0, "v"@);
    assert(("v"@ + text::fill_from(s, b, 1)) =~= "v"@);
}

proof fn lemma_source_v_as_wkb_into(
    i: Seq<char>,
    call_expr: Seq<char>,
    unwrap_chain: Seq<char>,
    sql_name: Seq<char>,
    arms: Seq<char>,
    element: Seq<char>,
)
    ensures
        text::fill(
            "v.as_wkb().into()"@,
            seq![("i"@, i), ("call_expr"@, call_expr), ("unwrap_chain"@, unwrap_chain), ("sql_name"@, sql_name), ("arms"@, arms), ("element"@, element)],
        )
            == "v.as_wkb().into()"@,
{
    let s = "v.as_wkb().into()"@;
    let b = seq![("i"@, i), ("call_expr"@, call_expr), ("unwrap_chain"@, unwrap_chain), ("sql_name"@, sql_name), ("arms"@, arms), ("element"@, element)];
    reveal_strlit("v.as_wkb().into()");
    reveal_with_fuel(text::plain_to, 31);
    lemma_holes_i_call_expr_unwrap_chain_sql_name_arms_element(
        i,
        call_expr,
        unwrap_chain,
        sql_name,
        arms,
        element,
    );
    assert(s.subrange(0, 17) =~= "v.as_wkb().into()"@);
    text::lemma_fill_run(s, b, 0, "v.as_wkb().into()"@);
    assert(("v.as_wkb().into()"@ + text::fill_from(s, b, 17)) =~= "v.as_wkb().into()"@);
}

proof fn lemma_source_v_as_binary_into(
    i: Seq<char>,
    call_expr: Seq<char>,
    unwrap_chain: Seq<char>,
    sql_name: Seq<char>,
    arms: Seq<char>,
    element: Seq<char>,
)
    ensures
        text::fill(
            "v.as_binary().into()"@,
            seq![("i"@, i), ("call_expr"@, call_expr), ("unwrap_chain"@, unwrap_chain), ("sql_name"@, sql_name), ("arms"@, arms), ("element"@, element)],
        )
            == "v.as_binary().into()"@,
{
    let s = "v.as_binary().into()"@;
    let b = seq![("i"@, i), ("call_expr"@, call_expr), ("unwrap_chain"@, unwrap_chain), ("sql_name"@, sql_name), ("arms"@, arms), ("element"@, element)];
    reveal_strlit("v.as_binary().into()");
    reveal_with_fuel(text::plain_to, 31);
    lemma_holes_i_call_expr_unwrap_chain_sql_name_arms_element(
        i,
        call_expr,
        unwrap_chain,
        sql_name,
        arms,
        element,
    );
    assert(s.subrange(0, 20) =~= "v.as_binary().into()"@);
    text::lemma_fill_run(s, b, 0, "v.as_binary().into()"@);
    assert(("v.as_binary().into()"@ + text::fill_from(s, b, 20)) =~= "v.as_binary().into()"@);
}

proof fn lemma_source_v_to_bytes_into(
    i: Seq<char>,
    call_expr: Seq<char>,
    unwrap_chain: Seq<char>,
    sql_name: Seq<char>,
    arms: Seq<char>,
    element: Seq<char>,
)
    ensures
        text::fill(
            "v.to_bytes().into()"@,
            seq![("i"@, i), ("call_expr"@, call_expr), ("unwrap_chain"@, unwrap_chain), ("sql_name"@, sql_name), ("arms"@, arms), ("element"@, element)],
        )
            == "v.to_bytes().into()"@,
{
    let s = "v.to_bytes().into()"@;
    let b = seq![("i"@, i), ("call_expr"@, call_expr), ("unwrap_chain"@, unwrap_chain), ("sql_name"@, sql_name), ("arms"@, arms), ("element"@, element)];
    reveal_strlit("v.to_bytes().into()");
    reveal_with_fuel(text::plain_to, 31);
    lemma_holes_i_call_expr_unwrap_chain_sql_name_arms_element(
        i,
        call_expr,
        unwrap_chain,
        sql_name,
        arms,
        element,
    );
    assert(s.subrange(0, 19) =~= "v.to_bytes().into()"@);
    text::lemma_fill_run(s, b, 0, "v.to_bytes().into()"@);
    assert(("v.to_bytes().into()"@ + text::fill_from(s, b, 19)) =~= "v.to_bytes().into()"@);
}

proof fn lemma_source_g_as_wkb_into(
    i: Seq<char>,
    call_expr: Seq<char>,
    unwrap_chain: Seq<char>,
    sql_name: Seq<char>,
    arms: Seq<char>,
    element: Seq<char>,
)
    ensures
        text::fill(
            "g.as_wkb().into()"@,
            seq![("i"@, i), ("call_expr"@, call_expr), ("unwrap_chain"@, unwrap_chain), ("sql_name"@, sql_name), ("arms"@, arms), ("element"@, element)],
        )
            == "g.as_wkb().into()"@,
{
    let s = "g.as_wkb().into()"@;
    let b = seq![("i"@, i), ("call_expr"@, call_expr), ("unwrap_chain"@, unwrap_chain), ("sql_name"@, sql_name), ("arms"@, arms), ("element"@, element)];
    reveal_strlit("g.as_wkb().into()");
    reveal_with_fuel(text::plain_to, 31);
    lemma_holes_i_call_expr_unwrap_chain_sql_name_arms_element(
        i,
        call_expr,
        unwrap_chain,
        sql_name,
        arms,
        element,
    );
    assert(s.subrange(0, 17) =~= "g.as_wkb().into()"@);
    text::lemma_fill_run(s, b, 0, "g.as_wkb().into()"@);
    assert(("g.as_wkb().into()"@ + text::fill_from(s, b, 17)) =~= "g.as_wkb().into()"@);
}

proof fn lemma_source_r_as_binary_into(
    i: Seq<char>,
    call_expr: Seq<char>,
    unwrap_chain: Seq<char>,
    sql_name: Seq<char>,
    arms: Seq<char>,
    element: Seq<char>,
)
    ensures
        text::fill(
            "r.as_binary().into()"@,
            seq![("i"@, i), ("call_expr"@, call_expr), ("unwrap_chain"@, unwrap_chain), ("sql_name"@, sql_name), ("arms"@, arms), ("element"@, element)],
        )
            == "r.as_binary().into()"@,
{
    let s = "r.as_binary().into()"@;
    let b = seq![("i"@, i), ("call_expr"@, call_expr), ("unwrap_chain"@, unwrap_chain), ("sql_name"@, sql_name), ("arms"@, arms), ("element"@, element)];
    reveal_strlit("r.as_binary().into()");
    reveal_with_fuel(text::plain_to, 31);
    lemma_holes_i_call_expr_unwrap_chain_sql_name_arms_element(
        i,
        call_expr,
        unwrap_chain,
        sql_name,
        arms,
        element,
    );
    assert(s.subrange(0, 20) =~= "r.as_binary().into()"@);
    text::lemma_fill_run(s, b, 0, "r.as_binary().into()"@);
    assert(("r.as_binary().into()"@ + text::fill_from(s, b, 20)) =~= "r.as_binary().into()"@);
}

proof fn lemma_source_t_to_bytes_into(
    i: Seq<char>,
    call_expr: Seq<char>,
    unwrap_chain: Seq<char>,
    sql_name: Seq<char>,
    arms: Seq<char>,
    element: Seq<char>,
)
    ensures
        text::fill(
            "t.to_bytes().into()"@,
            seq![("i"@, i), ("call_expr"@, call_expr), ("unwrap_chain"@, unwrap_chain), ("sql_name"@, sql_name), ("arms"@, arms), ("element"@, element)],
        )
            == "t.to_bytes().into()"@,
{
    let s = "t.to_bytes().into()"@;
    let b = seq![("i"@, i), ("call_expr"@, call_expr), ("unwrap_chain"@, unwrap_chain), ("sql_name"@, sql_name), ("arms"@, arms), ("element"@, element)];
    reveal_strlit("t.to_bytes().into()");
    reveal_with_fuel(text::plain_to, 31);
    lemma_holes_i_call_expr_unwrap_chain_sql_name_arms_element(
        i,
        call_expr,
        unwrap_chain,
        sql_name,
        arms,
        element,
    );
    assert(s.subrange(0, 19) =~= "t.to_bytes().into()"@);
    text::lemma_fill_run(s, b, 0, "t.to_bytes().into()"@);
    assert(("t.to_bytes().into()"@ + text::fill_from(s, b, 19)) =~= "t.to_bytes().into()"@);
}

proof fn lemma_source_at_v_as_i64(
    i: Seq<char>,
    call_expr: Seq<char>,
    unwrap_chain: Seq<char>,
    sql_name: Seq<char>,
    arms: Seq<char>,
    element: Seq<char>,
)
    ensures
        text::fill(
            "*v as i64"@,
            seq![("i"@, i), ("call_expr"@, call_expr), ("unwrap_chain"@, unwrap_chain), ("sql_name"@, sql_name), ("arms"@, arms), ("element"@, element)],
        )
            == "*v as i64"@,
{
    let s = "*v as i64"@;
    let b = seq![("i"@, i), ("call_expr"@, call_expr), ("unwrap_chain"@, unwrap_chain), ("sql_name"@, sql_name), ("arms"@, arms), ("element"@, element)];
    reveal_strlit("*v as i64");
    reveal_with_fuel(text::plain_to, 31);
    lemma_holes_i_call_expr_unwrap_chain_sql_name_arms_element(
        i,
        call_expr,
        unwrap_chain,
        sql_name,
        arms,
        element,
    );
    assert(s.subrange(0, 9) =~= "*v as i64"@);
    text::lemma_fill_run(s, b, 0, "*v as i64"@);
    assert(("*v as i64"@ + text::fill_from(s, b, 9)) =~= "*v as i64"@);
}

proof fn lemma_source_at_v_as_f64(
    i: Seq<char>,
    call_expr: Seq<char>,
    unwrap_chain: Seq<char>,
    sql_name: Seq<char>,
    arms: Seq<char>,
    element: Seq<char>,
)
    ensures
        text::fill(
            "*v as f64"@,
            seq![("i"@, i), ("call_expr"@, call_expr), ("unwrap_chain"@, unwrap_chain), ("sql_name"@, sql_name), ("arms"@, arms), ("element"@, element)],
        )
            == "*v as f64"@,
{
    let s = "*v as f64"@;
    let b = seq![("i"@, i), ("call_expr"@, call_expr), ("unwrap_chain"@, unwrap_chain), ("sql_name"@, sql_name), ("arms"@, arms), ("element"@, element)];
    reveal_strlit("*v as f64");
    reveal_with_fuel(text::plain_to, 31);
    lemma_holes_i_call_expr_unwrap_chain_sql_name_arms_element(
        i,
        call_expr,
        unwrap_chain,
        sql_name,
        arms,
        element,
    );
    assert(s.subrange(0, 9) =~= "*v as f64"@);
    text::lemma_fill_run(s, b, 0, "*v as f64"@);
    assert(("*v as f64"@ + text::fill_from(s, b, 9)) =~= "*v as f64"@);
}

proof fn lemma_source_bound_env_as_wkb_into(
    i: Seq<char>,
    call_expr: Seq<char>,
    unwrap_chain: Seq<char>,
    sql_name: Seq<char>,
    arms: Seq<char>,
    element: Seq<char>,
)
    ensures
        text::fill(
            "__env.as_wkb().into()"@,
            seq![("i"@, i), ("call_expr"@, call_expr), ("unwrap_chain"@, unwrap_chain), ("sql_name"@, sql_name), ("arms"@, arms), ("element"@, element)],
        )
            == "__env.as_wkb().into()"@,
{
    let s = "__env.as_wkb().into()"@;
    let b = seq![("i"@, i), ("call_expr"@, call_expr), ("unwrap_chain"@, unwrap_chain), ("sql_name"@, sql_name), ("arms"@, arms), ("element"@, element)];
    reveal_strlit("__env.as_wkb().into()");
    reveal_with_fuel(text::plain_to, 31);
    lemma_holes_i_call_expr_unwrap_chain_sql_name_arms_element(
        i,
        call_expr,
        unwrap_chain,
        sql_name,
        arms,
        element,
    );
    assert(s.subrange(0, 21) =~= "__env.as_wkb().into()"@);
    text::lemma_fill_run(s, b, 0, "__env.as_wkb().into()"@);
    assert(("__env.as_wkb().into()"@ + text::fill_from(s, b, 21)) =~= "__env.as_wkb().into()"@);
}

proof fn lemma_source_bound_wkb(
    i: Seq<char>,
    call_expr: Seq<char>,
    unwrap_chain: Seq<char>,
    sql_name: Seq<char>,
    arms: Seq<char>,
    element: Seq<char>,
)
    ensures
        text::fill(
            "__wkb"@,
            seq![("i"@, i), ("call_expr"@, call_expr), ("unwrap_chain"@, unwrap_chain), ("sql_name"@, sql_name), ("arms"@, arms), ("element"@, element)],
        )
            == "__wkb"@,
{
    let s = "__wkb"@;
    let b = seq![("i"@, i), ("call_expr"@, call_expr), ("unwrap_chain"@, unwrap_chain), ("sql_name"@, sql_name), ("arms"@, arms), ("element"@, element)];
    reveal_strlit("__wkb");
    reveal_with_fuel(text::plain_to, 31);
    lemma_holes_i_call_expr_unwrap_chain_sql_name_arms_element(
        i,
        call_expr,
        unwrap_chain,
        sql_name,
        arms,
        element,
    );
    assert(s.subrange(0, 5) =~= "__wkb"@);
    text::lemma_fill_run(s, b, 0, "__wkb"@);
    assert(("__wkb"@ + text::fill_from(s, b, 5)) =~= "__wkb"@);
}

proof fn lemma_source_bound_json(
    i: Seq<char>,
    call_expr: Seq<char>,
    unwrap_chain: Seq<char>,
    sql_name: Seq<char>,
    arms: Seq<char>,
    element: Seq<char>,
)
    ensures
        text::fill(
            "__json"@,
            seq![("i"@, i), ("call_expr"@, call_expr), ("unwrap_chain"@, unwrap_chain), ("sql_name"@, sql_name), ("arms"@, arms), ("element"@, element)],
        )
            == "__json"@,
{
    let s = "__json"@;
    let b = seq![("i"@, i), ("call_expr"@, call_expr), ("unwrap_chain"@, unwrap_chain), ("sql_name"@, sql_name), ("arms"@, arms), ("element"@, element)];
    reveal_strlit("__json");
    reveal_with_fuel(text::plain_to, 31);
    lemma_holes_i_call_expr_unwrap_chain_sql_name_arms_element(
        i,
        call_expr,
        unwrap_chain,
        sql_name,
        arms,
        element,
    );
    assert(s.subrange(0, 6) =~= "__json"@);
    text::lemma_fill_run(s, b, 0, "__json"@);
    assert(("__json"@ + text::fill_from(s, b, 6)) =~= "__json"@);
}

proof fn lemma_source_call_as_wkb_into(
    i: Seq<char>,
    call_expr: Seq<char>,
    unwrap_chain: Seq<char>,
    sql_name: Seq<char>,
    arms: Seq<char>,
    element: Seq<char>,
)
    ensures
        text::fill(
            "{call_expr}.as_wkb().into()"@,
            seq![("i"@, i), ("call_expr"@, call_expr), ("unwrap_chain"@, unwrap_chain), ("sql_name"@, sql_name), ("arms"@, arms), ("element"@, element)],
        )
            == call_expr + ".as_wkb().into()"@,
{
    let s = "{call_expr}.as_wkb().into()"@;
    let b = seq![("i"@, i), ("call_expr"@, call_expr), ("unwrap_chain"@, unwrap_chain), ("sql_name"@, sql_name), ("arms"@, arms), ("element"@, element)];
    reveal_strlit("{call_expr}.as_wkb().into()");
    reveal_with_fuel(text::plain_to, 31);
    lemma_holes_i_call_expr_unwrap_chain_sql_name_arms_element(
        i,
        call_expr,
        unwrap_chain,
        sql_name,
        arms,
        element,
    );
    reveal_strlit("call_expr");
    assert(s.subrange(1, 10) =~= "call_expr"@);
    text::lemma_fill_hole(s, b, 0, "call_expr"@);
    reveal_strlit(".as_wkb().into()");
    assert(s.subrange(11, 27) =~= ".as_wkb().into()"@);
    text::lemma_fill_run(s, b, 11, ".as_wkb().into()"@);
    assert((call_expr + (".as_wkb().into()"@ + text::fill_from(s, b, 27)))
        =~= call_expr + ".as_wkb().into()"@);
}

proof fn lemma_source_bound_r_as_wkb_into(
    i: Seq<char>,
    call_expr: Seq<char>,
    unwrap_chain: Seq<char>,
    sql_name: Seq<char>,
    arms: Seq<char>,
    element: Seq<char>,
)
    ensures
        text::fill(
            "__r.as_wkb().into()"@,
            seq![("i"@, i), ("call_expr"@, call_expr), ("unwrap_chain"@, unwrap_chain), ("sql_name"@, sql_name), ("arms"@, arms), ("element"@, element)],
        )
            == "__r.as_wkb().into()"@,
{
    let s = "__r.as_wkb().into()"@;
    let b = seq![("i"@, i), ("call_expr"@, call_expr), ("unwrap_chain"@, unwrap_chain), ("sql_name"@, sql_name), ("arms"@, arms), ("element"@, element)];
    reveal_strlit("__r.as_wkb().into()");
    reveal_with_fuel(text::plain_to, 31);
    lemma_holes_i_call_expr_unwrap_chain_sql_name_arms_element(
        i,
        call_expr,
        unwrap_chain,
        sql_name,
        arms,
        element,
    );
    assert(s.subrange(0, 19) =~= "__r.as_wkb().into()"@);
    text::lemma_fill_run(s, b, 0, "__r.as_wkb().into()"@);
    assert(("__r.as_wkb().into()"@ + text::fill_from(s, b, 19)) =~= "__r.as_wkb().into()"@);
}

proof fn lemma_source_call_as_binary_into(
    i: Seq<char>,
    call_expr: Seq<char>,
    unwrap_chain: Seq<char>,
    sql_name: Seq<char>,
    arms: Seq<char>,
    element: Seq<char>,
)
    ensures
        text::fill(
            "{call_expr}.as_binary().into()"@,
            seq![("i"@, i), ("call_expr"@, call_expr), ("unwrap_chain"@, unwrap_chain), ("sql_name"@, sql_name), ("arms"@, arms), ("element"@, element)],
        )
            == call_expr + ".as_binary().into()"@,
{
    let s = "{call_expr}.as_binary().into()"@;
    let b = seq![("i"@, i), ("call_expr"@, call_expr), ("unwrap_chain"@, unwrap_chain), ("sql_name"@, sql_name), ("arms"@, arms), ("element"@, element)];
    reveal_strlit("{call_expr}.as_binary().into()");
    reveal_with_fuel(text::plain_to, 31);
    lemma_holes_i_call_expr_unwrap_chain_sql_name_arms_element(
        i,
        call_expr,
        unwrap_chain,
        sql_name,
        arms,
        element,
    );
    reveal_strlit("call_expr");
    assert(s.subrange(1, 10) =~= "call_expr"@);
    text::lemma_fill_hole(s, b, 0, "call_expr"@);
    reveal_strlit(".as_binary().into()");
    assert(s.subrange(11, 30) =~= ".as_binary().into()"@);
    text::lemma_fill_run(s, b, 11, ".as_binary().into()"@);
    assert((call_expr + (".as_binary().into()"@ + text::fill_from(s, b, 30)))
        =~= call_expr + ".as_binary().into()"@);
}

proof fn lemma_source_bound_r_as_binary_into(
    i: Seq<char>,
    call_expr: Seq<char>,
    unwrap_chain: Seq<char>,
    sql_name: Seq<char>,
    arms: Seq<char>,
    element: Seq<char>,
)
    ensures
        text::fill(
            "__r.as_binary().into()"@,
            seq![("i"@, i), ("call_expr"@, call_expr), ("unwrap_chain"@, unwrap_chain), ("sql_name"@, sql_name), ("arms"@, arms), ("element"@, element)],
        )
            == "__r.as_binary().into()"@,
{
    let s = "__r.as_binary().into()"@;
    let b = seq![("i"@, i), ("call_expr"@, call_expr), ("unwrap_chain"@, unwrap_chain), ("sql_name"@, sql_name), ("arms"@, arms), ("element"@, element)];
    reveal_strlit("__r.as_binary().into()");
    reveal_with_fuel(text::plain_to, 31);
    lemma_holes_i_call_expr_unwrap_chain_sql_name_arms_element(
        i,
        call_expr,
        unwrap_chain,
        sql_name,
        arms,
        element,
    );
    assert(s.subrange(0, 22) =~= "__r.as_binary().into()"@);
    text::lemma_fill_run(s, b, 0, "__r.as_binary().into()"@);
    assert(("__r.as_binary().into()"@ + text::fill_from(s, b, 22)) =~= "__r.as_binary().into()"@);
}

proof fn lemma_source_call_to_bytes_into(
    i: Seq<char>,
    call_expr: Seq<char>,
    unwrap_chain: Seq<char>,
    sql_name: Seq<char>,
    arms: Seq<char>,
    element: Seq<char>,
)
    ensures
        text::fill(
            "{call_expr}.to_bytes().into()"@,
            seq![("i"@, i), ("call_expr"@, call_expr), ("unwrap_chain"@, unwrap_chain), ("sql_name"@, sql_name), ("arms"@, arms), ("element"@, element)],
        )
            == call_expr + ".to_bytes().into()"@,
{
    let s = "{call_expr}.to_bytes().into()"@;
    let b = seq![("i"@, i), ("call_expr"@, call_expr), ("unwrap_chain"@, unwrap_chain), ("sql_name"@, sql_name), ("arms"@, arms), ("element"@, element)];
    reveal_strlit("{call_expr}.to_bytes().into()");
    reveal_with_fuel(text::plain_to, 31);
    lemma_holes_i_call_expr_unwrap_chain_sql_name_arms_element(
        i,
        call_expr,
        unwrap_chain,
        sql_name,
        arms,
        element,
    );
    reveal_strlit("call_expr");
    assert(s.subrange(1, 10) =~= "call_expr"@);
    text::lemma_fill_hole(s, b, 0, "call_expr"@);
    reveal_strlit(".to_bytes().into()");
    assert(s.subrange(11, 29) =~= ".to_bytes().into()"@);
    text::lemma_fill_run(s, b, 11, ".to_bytes().into()"@);
    assert((call_expr + (".to_bytes().into()"@ + text::fill_from(s, b, 29)))
        =~= call_expr + ".to_bytes().into()"@);
}

proof fn lemma_source_bound_r_to_bytes_into(
    i: Seq<char>,
    call_expr: Seq<char>,
    unwrap_chain: Seq<char>,
    sql_name: Seq<char>,
    arms: Seq<char>,
    element: Seq<char>,
)
    ensures
        text::fill(
            "__r.to_bytes().into()"@,
            seq![("i"@, i), ("call_expr"@, call_expr), ("unwrap_chain"@, unwrap_chain), ("sql_name"@, sql_name), ("arms"@, arms), ("element"@, element)],
        )
            == "__r.to_bytes().into()"@,
{
    let s = "__r.to_bytes().into()"@;
    let b = seq![("i"@, i), ("call_expr"@, call_expr), ("unwrap_chain"@, unwrap_chain), ("sql_name"@, sql_name), ("arms"@, arms), ("element"@, element)];
    reveal_strlit("__r.to_bytes().into()");
    reveal_with_fuel(text::plain_to, 31);
    lemma_holes_i_call_expr_unwrap_chain_sql_name_arms_element(
        i,
        call_expr,
        unwrap_chain,
        sql_name,
        arms,
        element,
    );
    assert(s.subrange(0, 21) =~= "__r.to_bytes().into()"@);
    text::lemma_fill_run(s, b, 0, "__r.to_bytes().into()"@);
    assert(("__r.to_bytes().into()"@ + text::fill_from(s, b, 21)) =~= "__r.to_bytes().into()"@);
}

proof fn lemma_source_call_geometry_as_wkb_into(
    i: Seq<char>,
    call_expr: Seq<char>,
    unwrap_chain: Seq<char>,
    sql_name: Seq<char>,
    arms: Seq<char>,
    element: Seq<char>,
)
    ensures
        text::fill(
            "{call_expr}.geometry().as_wkb().into()"@,
            seq![("i"@, i), ("call_expr"@, call_expr), ("unwrap_chain"@, unwrap_chain), ("sql_name"@, sql_name), ("arms"@, arms), ("element"@, element)],
        )
            == call_expr + ".geometry().as_wkb().into()"@,
{
    let s = "{call_expr}.geometry().as_wkb().into()"@;
    let b = seq![("i"@, i), ("call_expr"@, call_expr), ("unwrap_chain"@, unwrap_chain), ("sql_name"@, sql_name), ("arms"@, arms), ("element"@, element)];
    reveal_strlit("{call_expr}.geometry().as_wkb().into()");
    reveal_with_fuel(text::plain_to, 31);
    lemma_holes_i_call_expr_unwrap_chain_sql_name_arms_element(
        i,
        call_expr,
        unwrap_chain,
        sql_name,
        arms,
        element,
    );
    reveal_strlit("call_expr");
    assert(s.subrange(1, 10) =~= "call_expr"@);
    text::lemma_fill_hole(s, b, 0, "call_expr"@);
    reveal_strlit(".geometry().as_wkb().into()");
    assert(s.subrange(11, 38) =~= ".geometry().as_wkb().into()"@);
    text::lemma_fill_run(s, b, 11, ".geometry().as_wkb().into()"@);
    assert((call_expr + (".geometry().as_wkb().into()"@ + text::fill_from(s, b, 38)))
        =~= call_expr + ".geometry().as_wkb().into()"@);
}

proof fn lemma_source_bound_r_geometry_as_wkb_into(
    i: Seq<char>,
    call_expr: Seq<char>,
    unwrap_chain: Seq<char>,
    sql_name: Seq<char>,
    arms: Seq<char>,
    element: Seq<char>,
)
    ensures
        text::fill(
            "__r.geometry().as_wkb().into()"@,
            seq![("i"@, i), ("call_expr"@, call_expr), ("unwrap_chain"@, unwrap_chain), ("sql_name"@, sql_name), ("arms"@, arms), ("element"@, element)],
        )
            == "__r.geometry().as_wkb().into()"@,
{
    let s = "__r.geometry().as_wkb().into()"@;
    let b = seq![("i"@, i), ("call_expr"@, call_expr), ("unwrap_chain"@, unwrap_chain), ("sql_name"@, sql_name), ("arms"@, arms), ("element"@, element)];
    reveal_strlit("__r.geometry().as_wkb().into()");
    reveal_with_fuel(text::plain_to, 31);
    lemma_holes_i_call_expr_unwrap_chain_sql_name_arms_element(
        i,
        call_expr,
        unwrap_chain,
        sql_name,
        arms,
        element,
    );
    assert(s.subrange(0, 30) =~= "__r.geometry().as_wkb().into()"@);
    text::lemma_fill_run(s, b, 0, "__r.geometry().as_wkb().into()"@);
    assert(("__r.geometry().as_wkb().into()"@ + text::fill_from(s, b, 30))
        =~= "__r.geometry().as_wkb().into()"@);
}

proof fn lemma_ret_is_valid_detail_value(
    i: Seq<char>,
    call_expr: Seq<char>,
    unwrap_chain: Seq<char>,
    sql_name: Seq<char>,
    arms: Seq<char>,
    element: Seq<char>,
)
    ensures
        words::has_piece(
            text::fill(
                t::RET_IS_VALID_DETAIL_VALUE@,
                seq![("i"@, i), ("call_expr"@, call_expr), ("unwrap_chain"@, unwrap_chain), ("sql_name"@, sql_name), ("arms"@, arms), ("element"@, element)],
            ),
            "__valid, __reason_s, __loc_s"@,
        ),
{
    let s = t::RET_IS_VALID_DETAIL_VALUE@;
    reveal_strlit(r#"format!(
{i}        "({{}},\"{{}}\",\"{{}}\")",
{i}        __valid, __reason_s, __loc_s
{i}    )"#);
    reveal_with_fuel(text::plain_to, 31);
    let b = seq![("i"@, i), ("call_expr"@, call_expr), ("unwrap_chain"@, unwrap_chain), ("sql_name"@, sql_name), ("arms"@, arms), ("element"@, element)];
    lemma_holes_i_call_expr_unwrap_chain_sql_name_arms_element(
        i,
        call_expr,
        unwrap_chain,
        sql_name,
        arms,
        element,
    );
    assert(words::has_piece(text::fill(t::RET_IS_VALID_DETAIL_VALUE@, b), "__valid, __reason_s, __loc_s"@)) by {
        let before = text::lemma_fill_reaches(s, b, 51);
        reveal_strlit("        ");
        assert(s.subrange(51, 59) =~= "        "@);
        text::lemma_fill_run(s, b, 51, "        "@);
        reveal_strlit("__valid, __reason_s, __loc_s");
        assert(s.subrange(59, 87) =~= "__valid, __reason_s, __loc_s"@);
        text::lemma_fill_run(s, b, 59, "__valid, __reason_s, __loc_s"@);
        let rest = text::fill_from(s, b, 87);
        let part = "__valid, __reason_s, __loc_s"@;
        assert(before + ("        "@ + (part + rest)) =~= (before + "        "@) + (part + rest));
        words::lemma_piece_between(before + "        "@, part, rest);
    }
}

proof fn lemma_source_bound_out(
    i: Seq<char>,
    call_expr: Seq<char>,
    unwrap_chain: Seq<char>,
    sql_name: Seq<char>,
    arms: Seq<char>,
    element: Seq<char>,
)
    ensures
        text::fill(
            "__out"@,
            seq![("i"@, i), ("call_expr"@, call_expr), ("unwrap_chain"@, unwrap_chain), ("sql_name"@, sql_name), ("arms"@, arms), ("element"@, element)],
        )
            == "__out"@,
{
    let s = "__out"@;
    let b = seq![("i"@, i), ("call_expr"@, call_expr), ("unwrap_chain"@, unwrap_chain), ("sql_name"@, sql_name), ("arms"@, arms), ("element"@, element)];
    reveal_strlit("__out");
    reveal_with_fuel(text::plain_to, 31);
    lemma_holes_i_call_expr_unwrap_chain_sql_name_arms_element(
        i,
        call_expr,
        unwrap_chain,
        sql_name,
        arms,
        element,
    );
    assert(s.subrange(0, 5) =~= "__out"@);
    text::lemma_fill_run(s, b, 0, "__out"@);
    assert(("__out"@ + text::fill_from(s, b, 5)) =~= "__out"@);
}

proof fn lemma_source_bound_disc(
    i: Seq<char>,
    call_expr: Seq<char>,
    unwrap_chain: Seq<char>,
    sql_name: Seq<char>,
    arms: Seq<char>,
    element: Seq<char>,
)
    ensures
        text::fill(
            "__disc"@,
            seq![("i"@, i), ("call_expr"@, call_expr), ("unwrap_chain"@, unwrap_chain), ("sql_name"@, sql_name), ("arms"@, arms), ("element"@, element)],
        )
            == "__disc"@,
{
    let s = "__disc"@;
    let b = seq![("i"@, i), ("call_expr"@, call_expr), ("unwrap_chain"@, unwrap_chain), ("sql_name"@, sql_name), ("arms"@, arms), ("element"@, element)];
    reveal_strlit("__disc");
    reveal_with_fuel(text::plain_to, 31);
    lemma_holes_i_call_expr_unwrap_chain_sql_name_arms_element(
        i,
        call_expr,
        unwrap_chain,
        sql_name,
        arms,
        element,
    );
    assert(s.subrange(0, 6) =~= "__disc"@);
    text::lemma_fill_run(s, b, 0, "__disc"@);
    assert(("__disc"@ + text::fill_from(s, b, 6)) =~= "__disc"@);
}

proof fn lemma_source_bound_r_element(
    i: Seq<char>,
    call_expr: Seq<char>,
    unwrap_chain: Seq<char>,
    sql_name: Seq<char>,
    arms: Seq<char>,
    element: Seq<char>,
)
    ensures
        text::fill(
            "__r.{element}"@,
            seq![("i"@, i), ("call_expr"@, call_expr), ("unwrap_chain"@, unwrap_chain), ("sql_name"@, sql_name), ("arms"@, arms), ("element"@, element)],
        )
            == "__r."@ + element,
{
    let s = "__r.{element}"@;
    let b = seq![("i"@, i), ("call_expr"@, call_expr), ("unwrap_chain"@, unwrap_chain), ("sql_name"@, sql_name), ("arms"@, arms), ("element"@, element)];
    reveal_strlit("__r.{element}");
    reveal_with_fuel(text::plain_to, 31);
    lemma_holes_i_call_expr_unwrap_chain_sql_name_arms_element(
        i,
        call_expr,
        unwrap_chain,
        sql_name,
        arms,
        element,
    );
    reveal_strlit("__r.");
    assert(s.subrange(0, 4) =~= "__r."@);
    text::lemma_fill_run(s, b, 0, "__r."@);
    reveal_strlit("element");
    assert(s.subrange(5, 12) =~= "element"@);
    text::lemma_fill_hole(s, b, 4, "element"@);
    assert(("__r."@ + (element + text::fill_from(s, b, 13))) =~= "__r."@ + element);
}

proof fn lemma_source_bound_rec(
    i: Seq<char>,
    call_expr: Seq<char>,
    unwrap_chain: Seq<char>,
    sql_name: Seq<char>,
    arms: Seq<char>,
    element: Seq<char>,
)
    ensures
        text::fill(
            "__rec"@,
            seq![("i"@, i), ("call_expr"@, call_expr), ("unwrap_chain"@, unwrap_chain), ("sql_name"@, sql_name), ("arms"@, arms), ("element"@, element)],
        )
            == "__rec"@,
{
    let s = "__rec"@;
    let b = seq![("i"@, i), ("call_expr"@, call_expr), ("unwrap_chain"@, unwrap_chain), ("sql_name"@, sql_name), ("arms"@, arms), ("element"@, element)];
    reveal_strlit("__rec");
    reveal_with_fuel(text::plain_to, 31);
    lemma_holes_i_call_expr_unwrap_chain_sql_name_arms_element(
        i,
        call_expr,
        unwrap_chain,
        sql_name,
        arms,
        element,
    );
    assert(s.subrange(0, 5) =~= "__rec"@);
    text::lemma_fill_run(s, b, 0, "__rec"@);
    assert(("__rec"@ + text::fill_from(s, b, 5)) =~= "__rec"@);
}

} // verus!
