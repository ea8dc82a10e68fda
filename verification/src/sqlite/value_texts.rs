//! The values that the results of scalar functions become: each shape of result has its own
//! kind of SQL value.

use vstd::prelude::*;
use vstd::string::*;

use crate::calls;
use crate::ir::{JsonRetKind, ListPrimElem, RetShape};
use crate::sqlite::dispatch;
use crate::sqlite::dispatch_templates as t;
use crate::text;
use crate::words;

verus! {

// ─── Results ───

/// The expression of an arm calls the function, with what handles its error, and makes of its
/// result the SQL value of its shape: a real number for a floating-point result, an integer for
/// an integer, a boolean or a case of an enum, a text for a text or JSON, a blob for bytes,
/// geometries, rasters and topologies, and a record through the function of its type. Where the
/// result may be missing, a missing one becomes null.
pub proof fn law_result_values(
    ret: RetShape,
    call: Seq<char>,
    chain: Seq<char>,
    sql_name: Seq<char>,
    i: Seq<char>,
)
    ensures
        ({
            let e = dispatch::return_expr(ret, call, chain, sql_name, i);
            match ret {
                RetShape::Text => {
                    &&& words::has_piece(e, "Ok(SqlValue::Text("@ + call + chain + "))"@)
                },
                RetShape::Real => {
                    &&& words::has_piece(e, "Ok(SqlValue::Real("@ + call + chain + "))"@)
                },
                RetShape::Int => {
                    &&& words::has_piece(e, "Ok(SqlValue::Integer("@ + call + chain + " as i64))"@)
                },
                RetShape::BoolInt => {
                    &&& words::has_piece(e, "Ok(SqlValue::Integer("@ + call + chain + " as i64))"@)
                },
                RetShape::Blob => {
                    &&& words::has_piece(e, "Ok(SqlValue::Blob("@ + call + chain + "))"@)
                },
                RetShape::OptionText => {
                    &&& words::has_piece(e, "Ok(match "@ + call + chain + " "@)
                    &&& words::has_piece(e, "Some(v) => SqlValue::Text(v)"@)
                    &&& words::has_piece(e, "None => SqlValue::Null"@)
                },
                RetShape::OptionReal => {
                    &&& words::has_piece(e, "Ok(match "@ + call + chain + " "@)
                    &&& words::has_piece(e, "Some(v) => SqlValue::Real(v as f64)"@)
                    &&& words::has_piece(e, "None => SqlValue::Null"@)
                },
                RetShape::OptionInt => {
                    &&& words::has_piece(e, "Ok(match "@ + call + chain + " "@)
                    &&& words::has_piece(e, "Some(v) => SqlValue::Integer(v as i64)"@)
                    &&& words::has_piece(e, "None => SqlValue::Null"@)
                },
                RetShape::OptionBoolInt => {
                    &&& words::has_piece(e, "Ok(match "@ + call + chain + " "@)
                    &&& words::has_piece(e, "Some(v) => SqlValue::Integer(v as i64)"@)
                    &&& words::has_piece(e, "None => SqlValue::Null"@)
                },
                RetShape::OptionBlob => {
                    &&& words::has_piece(e, "Ok(match "@ + call + chain + " "@)
                    &&& words::has_piece(e, "Some(v) => SqlValue::Blob(v)"@)
                    &&& words::has_piece(e, "None => SqlValue::Null"@)
                },
                RetShape::OptionGeomBlob => {
                    &&& words::has_piece(e, "Ok(match "@ + call + chain + " "@)
                    &&& words::has_piece(e, "Some(v) => SqlValue::Blob(v.as_wkb())"@)
                    &&& words::has_piece(e, "None => SqlValue::Null"@)
                },
                RetShape::OptionRasterBlob => {
                    &&& words::has_piece(e, "Ok(match "@ + call + chain + " "@)
                    &&& words::has_piece(e, "Some(v) => SqlValue::Blob(v.as_binary())"@)
                    &&& words::has_piece(e, "None => SqlValue::Null"@)
                },
                RetShape::OptionTopologyBlob => {
                    &&& words::has_piece(e, "Ok(match "@ + call + chain + " "@)
                    &&& words::has_piece(e, "Some(v) => SqlValue::Blob(v.to_bytes())"@)
                    &&& words::has_piece(e, "None => SqlValue::Null"@)
                },
                RetShape::FirstGeomBlob => {
                    &&& words::has_piece(e, "= "@ + call + chain + ";"@)
                    &&& words::has_piece(e, "Some(g) => Ok(SqlValue::Blob(g.as_wkb()))"@)
                    &&& words::has_piece(e, "None => Ok(SqlValue::Null)"@)
                },
                RetShape::FirstRasterBlob => {
                    &&& words::has_piece(e, "= "@ + call + chain + ";"@)
                    &&& words::has_piece(e, "Some(r) => Ok(SqlValue::Blob(r.as_binary()))"@)
                    &&& words::has_piece(e, "None => Ok(SqlValue::Null)"@)
                },
                RetShape::FirstTopologyBlob => {
                    &&& words::has_piece(e, "= "@ + call + chain + ";"@)
                    &&& words::has_piece(e, "Some(t) => Ok(SqlValue::Blob(t.to_bytes()))"@)
                    &&& words::has_piece(e, "None => Ok(SqlValue::Null)"@)
                },
                RetShape::FirstOptionU32Int => {
                    &&& words::has_piece(e, "= "@ + call + chain + ";"@)
                    &&& words::has_piece(e, "Some(Some(v)) => Ok(SqlValue::Integer(*v as i64))"@)
                    &&& words::has_piece(e, "None => Ok(SqlValue::Null)"@)
                },
                RetShape::FirstInt => {
                    &&& words::has_piece(e, "= "@ + call + chain + ";"@)
                    &&& words::has_piece(e, "Some(v) => Ok(SqlValue::Integer(*v as i64))"@)
                    &&& words::has_piece(e, "None => Ok(SqlValue::Null)"@)
                },
                RetShape::FirstReal => {
                    &&& words::has_piece(e, "= "@ + call + chain + ";"@)
                    &&& words::has_piece(e, "Some(v) => Ok(SqlValue::Real(*v as f64))"@)
                    &&& words::has_piece(e, "None => Ok(SqlValue::Null)"@)
                },
                RetShape::FirstText => {
                    &&& words::has_piece(e, "= "@ + call + chain + ";"@)
                    &&& words::has_piece(e, "Some(v) => Ok(SqlValue::Text(v))"@)
                    &&& words::has_piece(e, "None => Ok(SqlValue::Null)"@)
                },
                RetShape::BboxBlob => {
                    &&& words::has_piece(e, "let __bb = "@ + call + chain + ";"@)
                    &&& words::has_piece(
                        e,
                        "st_make_envelope(__bb.min_x, __bb.min_y, __bb.max_x, __bb.max_y)"@,
                    )
                    &&& words::has_piece(e, "Ok(SqlValue::Blob(__env.as_wkb()))"@)
                },
                RetShape::IsValidDetailText => {
                    &&& words::has_piece(e, "let (__valid, __reason, __loc) = "@ + call + chain + ";"@)
                    &&& words::has_piece(e, "Ok(SqlValue::Text(format!("@)
                    &&& words::has_piece(e, "__valid, __reason_s, __loc_s"@)
                },
                RetShape::Bbox3dWkbLineZ => {
                    &&& words::has_piece(e, "let __bb = "@ + call + chain + ";"@)
                    &&& words::has_piece(e, "Ok(SqlValue::Blob(__wkb))"@)
                },
                RetShape::GeomBlob => {
                    &&& chain.len() == 0 ==> words::has_piece(e, "Ok(SqlValue::Blob("@ + call + ".as_wkb()))"@)
                    &&& chain.len() > 0 ==> words::has_piece(e, "let __r = "@ + call + chain + ";"@)
                    &&& chain.len() > 0 ==> words::has_piece(e, "Ok(SqlValue::Blob(__r.as_wkb()))"@)
                },
                RetShape::RasterBlob => {
                    &&& chain.len() == 0 ==> words::has_piece(e, "Ok(SqlValue::Blob("@ + call + ".as_binary()))"@)
                    &&& chain.len() > 0 ==> words::has_piece(e, "let __r = "@ + call + chain + ";"@)
                    &&& chain.len() > 0 ==> words::has_piece(e, "Ok(SqlValue::Blob(__r.as_binary()))"@)
                },
                RetShape::TopologyBlob => {
                    &&& chain.len() == 0 ==> words::has_piece(e, "Ok(SqlValue::Blob("@ + call + ".to_bytes()))"@)
                    &&& chain.len() > 0 ==> words::has_piece(e, "let __r = "@ + call + chain + ";"@)
                    &&& chain.len() > 0 ==> words::has_piece(e, "Ok(SqlValue::Blob(__r.to_bytes()))"@)
                },
                RetShape::JsonText { kind } => match kind {
                    JsonRetKind::ListListPrim
                    | JsonRetKind::ListTuplePrim
                    | JsonRetKind::TuplePrim => {
                        &&& words::has_piece(e, "let __r = "@ + call + chain + ";"@)
                        &&& words::has_piece(e, "serde_json::to_string(&__r)"@)
                        &&& words::has_piece(e, "Ok(SqlValue::Text(__json))"@)
                    },
                    JsonRetKind::OptionTuplePrim => {
                        &&& words::has_piece(e, "match "@ + call + chain + " "@)
                        &&& words::has_piece(e, "serde_json::to_string(&__t)"@)
                        &&& words::has_piece(e, "Ok(SqlValue::Text(__json))"@)
                        &&& words::has_piece(e, "None => Ok(SqlValue::Null)"@)
                    },
                    JsonRetKind::OptionListPrimRecord => {
                        &&& words::has_piece(e, "match "@ + call + chain + " "@)
                        &&& words::has_piece(e, "serde_json::to_string(&__v)"@)
                        &&& words::has_piece(e, "Ok(SqlValue::Text(__json))"@)
                        &&& words::has_piece(e, "None => Ok(SqlValue::Null)"@)
                    },
                    JsonRetKind::ListTupleGeomF64 => {
                        &&& words::has_piece(e, "let __r = "@ + call + chain + ";"@)
                        &&& words::has_piece(e, "let __wkb = __g.as_wkb();"@)
                        &&& words::has_piece(e, "serde_json::to_string(&__v)"@)
                        &&& words::has_piece(e, "Ok(SqlValue::Text(__out))"@)
                    },
                },
                RetShape::Enum { wit_module, wit_package, kebab_name, cases } => {
                    &&& words::has_piece(e, "let __r = "@ + call + chain + ";"@)
                    &&& words::has_piece(e, "let __disc: i64 = match __r "@)
                    &&& words::has_piece(
                        e,
                        calls::case_arms(i, wit_module@, kebab_name@, cases@, cases@.len()),
                    )
                    &&& words::has_piece(e, "Ok(SqlValue::Integer(__disc))"@)
                },
                RetShape::TuplePick { index, elem } => {
                    &&& words::has_piece(e, "let __r = "@ + call + chain + ";"@)
                    &&& match elem {
                        ListPrimElem::F64 | ListPrimElem::F32 => words::has_piece(
                            e,
                            "Ok(SqlValue::Real(__r."@ + words::decimal(index as nat) + " as f64))"@,
                        ),
                        ListPrimElem::String => words::has_piece(
                            e,
                            "Ok(SqlValue::Text(__r."@ + words::decimal(index as nat) + "))"@,
                        ),
                        ListPrimElem::S32
                        | ListPrimElem::S64
                        | ListPrimElem::U32
                        | ListPrimElem::U64
                        | ListPrimElem::U8
                        | ListPrimElem::Bool => words::has_piece(
                            e,
                            "Ok(SqlValue::Integer(__r."@ + words::decimal(index as nat)
                                + " as i64))"@,
                        ),
                    }
                },
                RetShape::WitValueRecord { kebab_name } => {
                    &&& words::has_piece(
                        e,
                        "ret_to_witvalue_"@ + words::snake(kebab_name@) + "("@ + call + chain
                            + ")"@,
                    )
                },
                RetShape::OptionWitValueRecord { kebab_name } => {
                    &&& words::has_piece(e, "match "@ + call + chain + " "@)
                    &&& words::has_piece(
                        e,
                        "Some(__rec) => ret_to_witvalue_"@ + words::snake(kebab_name@) + "(__rec)"@,
                    )
                    &&& words::has_piece(e, "None => Ok(SqlValue::Null)"@)
                },
                RetShape::FirstWitValueRecord { kebab_name } => {
                    &&& words::has_piece(e, "let __r = "@ + call + chain + ";"@)
                    &&& words::has_piece(
                        e,
                        "Some(__rec) => ret_to_witvalue_"@ + words::snake(kebab_name@) + "(__rec)"@,
                    )
                    &&& words::has_piece(e, "None => Ok(SqlValue::Null)"@)
                },
                RetShape::TopoGeometryViaGeom
                | RetShape::OptionEnum { .. }
                | RetShape::ListBool
                | RetShape::ListListU8
                | RetShape::Unit => !dispatch::ret_wired(ret),
            }
        }),
{
    match ret {
        RetShape::Text => lemma_ret_text(i, call, chain, sql_name),
        RetShape::Real => lemma_ret_real(i, call, chain, sql_name),
        RetShape::Int => lemma_ret_int(i, call, chain, sql_name),
        RetShape::BoolInt => lemma_ret_bool(i, call, chain, sql_name),
        RetShape::Blob => lemma_ret_blob(i, call, chain, sql_name),
        RetShape::OptionText => lemma_ret_option_text(i, call, chain, sql_name),
        RetShape::OptionReal => lemma_ret_option_real(i, call, chain, sql_name),
        RetShape::OptionInt => lemma_ret_option_int(i, call, chain, sql_name),
        RetShape::OptionBoolInt => lemma_ret_option_bool(i, call, chain, sql_name),
        RetShape::OptionBlob => lemma_ret_option_blob(i, call, chain, sql_name),
        RetShape::OptionGeomBlob => lemma_ret_option_geom(i, call, chain, sql_name),
        RetShape::OptionRasterBlob => lemma_ret_option_raster(i, call, chain, sql_name),
        RetShape::OptionTopologyBlob => lemma_ret_option_topology(i, call, chain, sql_name),
        RetShape::FirstGeomBlob => lemma_ret_first_geom(i, call, chain, sql_name),
        RetShape::FirstRasterBlob => lemma_ret_first_raster(i, call, chain, sql_name),
        RetShape::FirstTopologyBlob => lemma_ret_first_topology(i, call, chain, sql_name),
        RetShape::FirstOptionU32Int => lemma_ret_first_option_u32(i, call, chain, sql_name),
        RetShape::FirstInt => lemma_ret_first_int(i, call, chain, sql_name),
        RetShape::FirstReal => lemma_ret_first_real(i, call, chain, sql_name),
        RetShape::FirstText => lemma_ret_first_text(i, call, chain, sql_name),
        RetShape::BboxBlob => lemma_ret_bbox(i, call, chain, sql_name),
        RetShape::IsValidDetailText => lemma_ret_is_valid_detail(i, call, chain, sql_name),
        RetShape::Bbox3dWkbLineZ => lemma_ret_bbox3d(i, call, chain, sql_name),
        RetShape::GeomBlob => {
            lemma_ret_geom(i, call, chain, sql_name);
            lemma_ret_geom_fallible(i, call, chain, sql_name);
        },
        RetShape::RasterBlob => {
            lemma_ret_raster(i, call, chain, sql_name);
            lemma_ret_raster_fallible(i, call, chain, sql_name);
        },
        RetShape::TopologyBlob => {
            lemma_ret_topology(i, call, chain, sql_name);
            lemma_ret_topology_fallible(i, call, chain, sql_name);
        },
        RetShape::JsonText { kind } => match kind {
            JsonRetKind::ListListPrim => lemma_ret_json(i, call, chain, sql_name),
            JsonRetKind::ListTuplePrim => lemma_ret_json(i, call, chain, sql_name),
            JsonRetKind::TuplePrim => lemma_ret_json(i, call, chain, sql_name),
            JsonRetKind::OptionTuplePrim => lemma_ret_json_option_tuple(i, call, chain, sql_name),
            JsonRetKind::OptionListPrimRecord => lemma_ret_json_option_list(i, call, chain, sql_name),
            JsonRetKind::ListTupleGeomF64 => lemma_ret_json_geom_list(i, call, chain, sql_name),
        },
        RetShape::Enum { wit_module, wit_package, kebab_name, cases } => {
            let arms = calls::case_arms(i, wit_module@, kebab_name@, cases@, cases@.len());
            lemma_ret_enum(i, call, chain, arms);
        },
        RetShape::TuplePick { index, elem } => {
            let d = words::decimal(index as nat);
            let source = "__r."@ + d + dispatch::pick_conversion(elem);
            lemma_ret_tuple_pick(i, call, chain, dispatch::pick_variant(elem), source);
            match elem {
                ListPrimElem::F64 | ListPrimElem::F32 => {
                    assert("Ok(SqlValue::"@ + "Real"@ + "("@ + source + "))"@
                        =~= "Ok(SqlValue::Real(__r."@ + d + " as f64))"@) by {
                        reveal_strlit("Ok(SqlValue::");
                        reveal_strlit("Real");
                        reveal_strlit("(");
                        reveal_strlit("))");
                        reveal_strlit("__r.");
                        reveal_strlit(" as f64");
                        reveal_strlit("Ok(SqlValue::Real(__r.");
                        reveal_strlit(" as f64))");
                        assert("Ok(SqlValue::"@ + "Real"@ + "("@ + "__r."@ =~= "Ok(SqlValue::Real(__r."@);
                        assert(" as f64"@ + "))"@ =~= " as f64))"@);
                    }
                },
                ListPrimElem::String => {
                    assert("Ok(SqlValue::"@ + "Text"@ + "("@ + source + "))"@
                        =~= "Ok(SqlValue::Text(__r."@ + d + "))"@) by {
                        reveal_strlit("Ok(SqlValue::");
                        reveal_strlit("Text");
                        reveal_strlit("(");
                        reveal_strlit("))");
                        reveal_strlit("__r.");
                        reveal_strlit("");
                        reveal_strlit("Ok(SqlValue::Text(__r.");
                        reveal_strlit("))");
                        assert("Ok(SqlValue::"@ + "Text"@ + "("@ + "__r."@ =~= "Ok(SqlValue::Text(__r."@);
                        assert(""@ + "))"@ =~= "))"@);
                    }
                },
                _ => {
                    assert("Ok(SqlValue::"@ + "Integer"@ + "("@ + source + "))"@
                        =~= "Ok(SqlValue::Integer(__r."@ + d + " as i64))"@) by {
                        reveal_strlit("Ok(SqlValue::");
                        reveal_strlit("Integer");
                        reveal_strlit("(");
                        reveal_strlit("))");
                        reveal_strlit("__r.");
                        reveal_strlit(" as i64");
                        reveal_strlit("Ok(SqlValue::Integer(__r.");
                        reveal_strlit(" as i64))");
                        assert("Ok(SqlValue::"@ + "Integer"@ + "("@ + "__r."@
                            =~= "Ok(SqlValue::Integer(__r."@);
                        assert(" as i64"@ + "))"@ =~= " as i64))"@);
                    }
                },
            }
        },
        RetShape::WitValueRecord { kebab_name } => {
            let snake = words::snake(kebab_name@);
            lemma_ret_wit_value(i, call, chain, snake);
        },
        RetShape::OptionWitValueRecord { kebab_name } => {
            let snake = words::snake(kebab_name@);
            lemma_ret_option_wit_value(i, call, chain, snake);
        },
        RetShape::FirstWitValueRecord { kebab_name } => {
            let snake = words::snake(kebab_name@);
            lemma_ret_first_wit_value(i, call, chain, snake);
        },
        _ => {},
    }
}

/// What the holes of a result stand for.
proof fn lemma_holes(
    i: Seq<char>,
    call: Seq<char>,
    chain: Seq<char>,
    name: Seq<char>,
    more: Seq<char>,
)
    requires
        name == "sql_name"@ || name == "arms"@ || name == "snake"@,
    ensures
        ({
            let b = seq![("i"@, i), ("call_expr"@, call), ("unwrap_chain"@, chain), (name, more)];
            &&& text::lookup_from(b, "i"@, 0) == i
            &&& text::lookup_from(b, "call_expr"@, 0) == call
            &&& text::lookup_from(b, "unwrap_chain"@, 0) == chain
            &&& text::lookup_from(b, name, 0) == more
        }),
{
    reveal_strlit("i");
    reveal_strlit("call_expr");
    reveal_strlit("unwrap_chain");
    reveal_strlit("sql_name");
    reveal_strlit("arms");
    reveal_strlit("snake");
    reveal_with_fuel(text::lookup_from, 5);
    assert("call_expr"@.len() == 9 && "unwrap_chain"@.len() == 12 && "i"@.len() == 1);
}

proof fn lemma_pick_holes(
    i: Seq<char>,
    call: Seq<char>,
    chain: Seq<char>,
    variant: Seq<char>,
    source: Seq<char>,
)
    ensures
        ({
            let b = seq![
                ("i"@, i),
                ("call_expr"@, call),
                ("unwrap_chain"@, chain),
                ("variant"@, variant),
                ("expr_suffix"@, source),
            ];
            &&& text::lookup_from(b, "call_expr"@, 0) == call
            &&& text::lookup_from(b, "unwrap_chain"@, 0) == chain
            &&& text::lookup_from(b, "variant"@, 0) == variant
            &&& text::lookup_from(b, "expr_suffix"@, 0) == source
        }),
{
    reveal_strlit("i");
    reveal_strlit("call_expr");
    reveal_strlit("unwrap_chain");
    reveal_strlit("variant");
    reveal_strlit("expr_suffix");
    reveal_with_fuel(text::lookup_from, 6);
    assert("i"@.len() == 1 && "call_expr"@.len() == 9 && "unwrap_chain"@.len() == 12);
    assert("variant"@.len() == 7 && "expr_suffix"@.len() == 11);
}

proof fn lemma_ret_text(i: Seq<char>, call: Seq<char>, chain: Seq<char>, sql_name: Seq<char>)
    ensures
        words::has_piece(
            text::fill(
                t::RET_TEXT@,
                seq![("i"@, i), ("call_expr"@, call), ("unwrap_chain"@, chain), ("sql_name"@, sql_name)],
            ),
            "Ok(SqlValue::Text("@ + call + chain + "))"@,
        ),
{
    let s = t::RET_TEXT@;
    reveal_strlit("Ok(SqlValue::Text({call_expr}{unwrap_chain}))");
    reveal_with_fuel(text::plain_to, 31);
    let b = seq![("i"@, i), ("call_expr"@, call), ("unwrap_chain"@, chain), ("sql_name"@, sql_name)];
    lemma_holes(i, call, chain, "sql_name"@, sql_name);
    assert(words::has_piece(text::fill(t::RET_TEXT@, b), "Ok(SqlValue::Text("@ + call + chain + "))"@)) by {
        let before = text::lemma_fill_reaches(s, b, 0);
        reveal_strlit("Ok(SqlValue::Text(");
        assert(s.subrange(0, 18) =~= "Ok(SqlValue::Text("@);
        text::lemma_fill_run(s, b, 0, "Ok(SqlValue::Text("@);
        reveal_strlit("call_expr");
        assert(s.subrange(19, 28) =~= "call_expr"@);
        text::lemma_fill_hole(s, b, 18, "call_expr"@);
        reveal_strlit("unwrap_chain");
        assert(s.subrange(30, 42) =~= "unwrap_chain"@);
        text::lemma_fill_hole(s, b, 29, "unwrap_chain"@);
        reveal_strlit("))");
        assert(s.subrange(43, 45) =~= "))"@);
        text::lemma_fill_run(s, b, 43, "))"@);
        let rest = text::fill_from(s, b, 45);
        let part = "Ok(SqlValue::Text("@ + call + chain + "))"@;
        assert(("Ok(SqlValue::Text("@ + (call + (chain + ("))"@ + rest)))) =~= part + rest);
        words::lemma_piece_between(before, part, rest);
    }
}

proof fn lemma_ret_real(i: Seq<char>, call: Seq<char>, chain: Seq<char>, sql_name: Seq<char>)
    ensures
        words::has_piece(
            text::fill(
                t::RET_REAL@,
                seq![("i"@, i), ("call_expr"@, call), ("unwrap_chain"@, chain), ("sql_name"@, sql_name)],
            ),
            "Ok(SqlValue::Real("@ + call + chain + "))"@,
        ),
{
    let s = t::RET_REAL@;
    reveal_strlit("Ok(SqlValue::Real({call_expr}{unwrap_chain}))");
    reveal_with_fuel(text::plain_to, 31);
    let b = seq![("i"@, i), ("call_expr"@, call), ("unwrap_chain"@, chain), ("sql_name"@, sql_name)];
    lemma_holes(i, call, chain, "sql_name"@, sql_name);
    assert(words::has_piece(text::fill(t::RET_REAL@, b), "Ok(SqlValue::Real("@ + call + chain + "))"@)) by {
        let before = text::lemma_fill_reaches(s, b, 0);
        reveal_strlit("Ok(SqlValue::Real(");
        assert(s.subrange(0, 18) =~= "Ok(SqlValue::Real("@);
        text::lemma_fill_run(s, b, 0, "Ok(SqlValue::Real("@);
        reveal_strlit("call_expr");
        assert(s.subrange(19, 28) =~= "call_expr"@);
        text::lemma_fill_hole(s, b, 18, "call_expr"@);
        reveal_strlit("unwrap_chain");
        assert(s.subrange(30, 42) =~= "unwrap_chain"@);
        text::lemma_fill_hole(s, b, 29, "unwrap_chain"@);
        reveal_strlit("))");
        assert(s.subrange(43, 45) =~= "))"@);
        text::lemma_fill_run(s, b, 43, "))"@);
        let rest = text::fill_from(s, b, 45);
        let part = "Ok(SqlValue::Real("@ + call + chain + "))"@;
        assert(("Ok(SqlValue::Real("@ + (call + (chain + ("))"@ + rest)))) =~= part + rest);
        words::lemma_piece_between(before, part, rest);
    }
}

proof fn lemma_ret_int(i: Seq<char>, call: Seq<char>, chain: Seq<char>, sql_name: Seq<char>)
    ensures
        words::has_piece(
            text::fill(
                t::RET_INT@,
                seq![("i"@, i), ("call_expr"@, call), ("unwrap_chain"@, chain), ("sql_name"@, sql_name)],
            ),
            "Ok(SqlValue::Integer("@ + call + chain + " as i64))"@,
        ),
{
    let s = t::RET_INT@;
    reveal_strlit("Ok(SqlValue::Integer({call_expr}{unwrap_chain} as i64))");
    reveal_with_fuel(text::plain_to, 31);
    let b = seq![("i"@, i), ("call_expr"@, call), ("unwrap_chain"@, chain), ("sql_name"@, sql_name)];
    lemma_holes(i, call, chain, "sql_name"@, sql_name);
    assert(words::has_piece(
        text::fill(t::RET_INT@, b),
        "Ok(SqlValue::Integer("@ + call + chain + " as i64))"@,
    )) by {
        let before = text::lemma_fill_reaches(s, b, 0);
        reveal_strlit("Ok(SqlValue::Integer(");
        assert(s.subrange(0, 21) =~= "Ok(SqlValue::Integer("@);
        text::lemma_fill_run(s, b, 0, "Ok(SqlValue::Integer("@);
        reveal_strlit("call_expr");
        assert(s.subrange(22, 31) =~= "call_expr"@);
        text::lemma_fill_hole(s, b, 21, "call_expr"@);
        reveal_strlit("unwrap_chain");
        assert(s.subrange(33, 45) =~= "unwrap_chain"@);
        text::lemma_fill_hole(s, b, 32, "unwrap_chain"@);
        reveal_strlit(" as i64))");
        assert(s.subrange(46, 55) =~= " as i64))"@);
        text::lemma_fill_run(s, b, 46, " as i64))"@);
        let rest = text::fill_from(s, b, 55);
        let part = "Ok(SqlValue::Integer("@ + call + chain + " as i64))"@;
        assert(("Ok(SqlValue::Integer("@ + (call + (chain + (" as i64))"@ + rest)))) =~= part + rest);
        words::lemma_piece_between(before, part, rest);
    }
}

proof fn lemma_ret_bool(i: Seq<char>, call: Seq<char>, chain: Seq<char>, sql_name: Seq<char>)
    ensures
        words::has_piece(
            text::fill(
                t::RET_BOOL@,
                seq![("i"@, i), ("call_expr"@, call), ("unwrap_chain"@, chain), ("sql_name"@, sql_name)],
            ),
            "Ok(SqlValue::Integer("@ + call + chain + " as i64))"@,
        ),
{
    let s = t::RET_BOOL@;
    reveal_strlit("Ok(SqlValue::Integer({call_expr}{unwrap_chain} as i64))");
    reveal_with_fuel(text::plain_to, 31);
    let b = seq![("i"@, i), ("call_expr"@, call), ("unwrap_chain"@, chain), ("sql_name"@, sql_name)];
    lemma_holes(i, call, chain, "sql_name"@, sql_name);
    assert(words::has_piece(
        text::fill(t::RET_BOOL@, b),
        "Ok(SqlValue::Integer("@ + call + chain + " as i64))"@,
    )) by {
        let before = text::lemma_fill_reaches(s, b, 0);
        reveal_strlit("Ok(SqlValue::Integer(");
        assert(s.subrange(0, 21) =~= "Ok(SqlValue::Integer("@);
        text::lemma_fill_run(s, b, 0, "Ok(SqlValue::Integer("@);
        reveal_strlit("call_expr");
        assert(s.subrange(22, 31) =~= "call_expr"@);
        text::lemma_fill_hole(s, b, 21, "call_expr"@);
        reveal_strlit("unwrap_chain");
        assert(s.subrange(33, 45) =~= "unwrap_chain"@);
        text::lemma_fill_hole(s, b, 32, "unwrap_chain"@);
        reveal_strlit(" as i64))");
        assert(s.subrange(46, 55) =~= " as i64))"@);
        text::lemma_fill_run(s, b, 46, " as i64))"@);
        let rest = text::fill_from(s, b, 55);
        let part = "Ok(SqlValue::Integer("@ + call + chain + " as i64))"@;
        assert(("Ok(SqlValue::Integer("@ + (call + (chain + (" as i64))"@ + rest)))) =~= part + rest);
        words::lemma_piece_between(before, part, rest);
    }
}

proof fn lemma_ret_blob(i: Seq<char>, call: Seq<char>, chain: Seq<char>, sql_name: Seq<char>)
    ensures
        words::has_piece(
            text::fill(
                t::RET_BLOB@,
                seq![("i"@, i), ("call_expr"@, call), ("unwrap_chain"@, chain), ("sql_name"@, sql_name)],
            ),
            "Ok(SqlValue::Blob("@ + call + chain + "))"@,
        ),
{
    let s = t::RET_BLOB@;
    reveal_strlit("Ok(SqlValue::Blob({call_expr}{unwrap_chain}))");
    reveal_with_fuel(text::plain_to, 31);
    let b = seq![("i"@, i), ("call_expr"@, call), ("unwrap_chain"@, chain), ("sql_name"@, sql_name)];
    lemma_holes(i, call, chain, "sql_name"@, sql_name);
    assert(words::has_piece(text::fill(t::RET_BLOB@, b), "Ok(SqlValue::Blob("@ + call + chain + "))"@)) by {
        let before = text::lemma_fill_reaches(s, b, 0);
        reveal_strlit("Ok(SqlValue::Blob(");
        assert(s.subrange(0, 18) =~= "Ok(SqlValue::Blob("@);
        text::lemma_fill_run(s, b, 0, "Ok(SqlValue::Blob("@);
        reveal_strlit("call_expr");
        assert(s.subrange(19, 28) =~= "call_expr"@);
        text::lemma_fill_hole(s, b, 18, "call_expr"@);
        reveal_strlit("unwrap_chain");
        assert(s.subrange(30, 42) =~= "unwrap_chain"@);
        text::lemma_fill_hole(s, b, 29, "unwrap_chain"@);
        reveal_strlit("))");
        assert(s.subrange(43, 45) =~= "))"@);
        text::lemma_fill_run(s, b, 43, "))"@);
        let rest = text::fill_from(s, b, 45);
        let part = "Ok(SqlValue::Blob("@ + call + chain + "))"@;
        assert(("Ok(SqlValue::Blob("@ + (call + (chain + ("))"@ + rest)))) =~= part + rest);
        words::lemma_piece_between(before, part, rest);
    }
}

proof fn lemma_ret_option_text(i: Seq<char>, call: Seq<char>, chain: Seq<char>, sql_name: Seq<char>)
    ensures
        words::has_piece(
            text::fill(
                t::RET_OPTION_TEXT@,
                seq![("i"@, i), ("call_expr"@, call), ("unwrap_chain"@, chain), ("sql_name"@, sql_name)],
            ),
            "Ok(match "@ + call + chain + " "@,
        ),
        words::has_piece(
            text::fill(
                t::RET_OPTION_TEXT@,
                seq![("i"@, i), ("call_expr"@, call), ("unwrap_chain"@, chain), ("sql_name"@, sql_name)],
            ),
            "Some(v) => SqlValue::Text(v)"@,
        ),
        words::has_piece(
            text::fill(
                t::RET_OPTION_TEXT@,
                seq![("i"@, i), ("call_expr"@, call), ("unwrap_chain"@, chain), ("sql_name"@, sql_name)],
            ),
            "None => SqlValue::Null"@,
        ),
{
    let s = t::RET_OPTION_TEXT@;
    reveal_strlit(r#"Ok(match {call_expr}{unwrap_chain} {{
{i}    Some(v) => SqlValue::Text(v),
{i}    None => SqlValue::Null,
{i}}})"#);
    reveal_with_fuel(text::plain_to, 31);
    let b = seq![("i"@, i), ("call_expr"@, call), ("unwrap_chain"@, chain), ("sql_name"@, sql_name)];
    lemma_holes(i, call, chain, "sql_name"@, sql_name);
    assert(words::has_piece(text::fill(t::RET_OPTION_TEXT@, b), "Ok(match "@ + call + chain + " "@)) by {
        let before = text::lemma_fill_reaches(s, b, 0);
        reveal_strlit("Ok(match ");
        assert(s.subrange(0, 9) =~= "Ok(match "@);
        text::lemma_fill_run(s, b, 0, "Ok(match "@);
        reveal_strlit("call_expr");
        assert(s.subrange(10, 19) =~= "call_expr"@);
        text::lemma_fill_hole(s, b, 9, "call_expr"@);
        reveal_strlit("unwrap_chain");
        assert(s.subrange(21, 33) =~= "unwrap_chain"@);
        text::lemma_fill_hole(s, b, 20, "unwrap_chain"@);
        reveal_strlit(" ");
        assert(s.subrange(34, 35) =~= " "@);
        text::lemma_fill_run(s, b, 34, " "@);
        let rest = text::fill_from(s, b, 35);
        let part = "Ok(match "@ + call + chain + " "@;
        assert(("Ok(match "@ + (call + (chain + (" "@ + rest)))) =~= part + rest);
        words::lemma_piece_between(before, part, rest);
    }
    assert(words::has_piece(text::fill(t::RET_OPTION_TEXT@, b), "Some(v) => SqlValue::Text(v)"@)) by {
        let before = text::lemma_fill_reaches(s, b, 41);
        reveal_strlit("    ");
        assert(s.subrange(41, 45) =~= "    "@);
        text::lemma_fill_run(s, b, 41, "    "@);
        reveal_strlit("Some(v) => SqlValue::Text(v)");
        assert(s.subrange(45, 73) =~= "Some(v) => SqlValue::Text(v)"@);
        text::lemma_fill_run(s, b, 45, "Some(v) => SqlValue::Text(v)"@);
        let rest = text::fill_from(s, b, 73);
        let part = "Some(v) => SqlValue::Text(v)"@;
        assert(before + ("    "@ + (part + rest)) =~= (before + "    "@) + (part + rest));
        words::lemma_piece_between(before + "    "@, part, rest);
    }
    assert(words::has_piece(text::fill(t::RET_OPTION_TEXT@, b), "None => SqlValue::Null"@)) by {
        let before = text::lemma_fill_reaches(s, b, 78);
        reveal_strlit("    ");
        assert(s.subrange(78, 82) =~= "    "@);
        text::lemma_fill_run(s, b, 78, "    "@);
        reveal_strlit("None => SqlValue::Null");
        assert(s.subrange(82, 104) =~= "None => SqlValue::Null"@);
        text::lemma_fill_run(s, b, 82, "None => SqlValue::Null"@);
        let rest = text::fill_from(s, b, 104);
        let part = "None => SqlValue::Null"@;
        assert(before + ("    "@ + (part + rest)) =~= (before + "    "@) + (part + rest));
        words::lemma_piece_between(before + "    "@, part, rest);
    }
}

proof fn lemma_ret_option_real(i: Seq<char>, call: Seq<char>, chain: Seq<char>, sql_name: Seq<char>)
    ensures
        words::has_piece(
            text::fill(
                t::RET_OPTION_REAL@,
                seq![("i"@, i), ("call_expr"@, call), ("unwrap_chain"@, chain), ("sql_name"@, sql_name)],
            ),
            "Ok(match "@ + call + chain + " "@,
        ),
        words::has_piece(
            text::fill(
                t::RET_OPTION_REAL@,
                seq![("i"@, i), ("call_expr"@, call), ("unwrap_chain"@, chain), ("sql_name"@, sql_name)],
            ),
            "Some(v) => SqlValue::Real(v as f64)"@,
        ),
        words::has_piece(
            text::fill(
                t::RET_OPTION_REAL@,
                seq![("i"@, i), ("call_expr"@, call), ("unwrap_chain"@, chain), ("sql_name"@, sql_name)],
            ),
            "None => SqlValue::Null"@,
        ),
{
    let s = t::RET_OPTION_REAL@;
    reveal_strlit(r#"Ok(match {call_expr}{unwrap_chain} {{
{i}    Some(v) => SqlValue::Real(v as f64),
{i}    None => SqlValue::Null,
{i}}})"#);
    reveal_with_fuel(text::plain_to, 31);
    let b = seq![("i"@, i), ("call_expr"@, call), ("unwrap_chain"@, chain), ("sql_name"@, sql_name)];
    lemma_holes(i, call, chain, "sql_name"@, sql_name);
    assert(words::has_piece(text::fill(t::RET_OPTION_REAL@, b), "Ok(match "@ + call + chain + " "@)) by {
        let before = text::lemma_fill_reaches(s, b, 0);
        reveal_strlit("Ok(match ");
        assert(s.subrange(0, 9) =~= "Ok(match "@);
        text::lemma_fill_run(s, b, 0, "Ok(match "@);
        reveal_strlit("call_expr");
        assert(s.subrange(10, 19) =~= "call_expr"@);
        text::lemma_fill_hole(s, b, 9, "call_expr"@);
        reveal_strlit("unwrap_chain");
        assert(s.subrange(21, 33) =~= "unwrap_chain"@);
        text::lemma_fill_hole(s, b, 20, "unwrap_chain"@);
        reveal_strlit(" ");
        assert(s.subrange(34, 35) =~= " "@);
        text::lemma_fill_run(s, b, 34, " "@);
        let rest = text::fill_from(s, b, 35);
        let part = "Ok(match "@ + call + chain + " "@;
        assert(("Ok(match "@ + (call + (chain + (" "@ + rest)))) =~= part + rest);
        words::lemma_piece_between(before, part, rest);
    }
    assert(words::has_piece(text::fill(t::RET_OPTION_REAL@, b), "Some(v) => SqlValue::Real(v as f64)"@)) by {
        let before = text::lemma_fill_reaches(s, b, 41);
        reveal_strlit("    ");
        assert(s.subrange(41, 45) =~= "    "@);
        text::lemma_fill_run(s, b, 41, "    "@);
        reveal_strlit("Some(v) => SqlValue::Real(v as");
        assert(s.subrange(45, 75) =~= "Some(v) => SqlValue::Real(v as"@);
        text::lemma_fill_run(s, b, 45, "Some(v) => SqlValue::Real(v as"@);
        reveal_strlit(" f64)");
        assert(s.subrange(75, 80) =~= " f64)"@);
        text::lemma_fill_run(s, b, 75, " f64)"@);
        let rest = text::fill_from(s, b, 80);
        let part = "Some(v) => SqlValue::Real(v as f64)"@;
        reveal_strlit("Some(v) => SqlValue::Real(v as f64)");
        assert(("Some(v) => SqlValue::Real(v as"@ + (" f64)"@ + rest)) =~= part + rest);
        assert(before + ("    "@ + (part + rest)) =~= (before + "    "@) + (part + rest));
        words::lemma_piece_between(before + "    "@, part, rest);
    }
    assert(words::has_piece(text::fill(t::RET_OPTION_REAL@, b), "None => SqlValue::Null"@)) by {
        let before = text::lemma_fill_reaches(s, b, 85);
        reveal_strlit("    ");
        assert(s.subrange(85, 89) =~= "    "@);
        text::lemma_fill_run(s, b, 85, "    "@);
        reveal_strlit("None => SqlValue::Null");
        assert(s.subrange(89, 111) =~= "None => SqlValue::Null"@);
        text::lemma_fill_run(s, b, 89, "None => SqlValue::Null"@);
        let rest = text::fill_from(s, b, 111);
        let part = "None => SqlValue::Null"@;
        assert(before + ("    "@ + (part + rest)) =~= (before + "    "@) + (part + rest));
        words::lemma_piece_between(before + "    "@, part, rest);
    }
}

proof fn lemma_ret_option_int(i: Seq<char>, call: Seq<char>, chain: Seq<char>, sql_name: Seq<char>)
    ensures
        words::has_piece(
            text::fill(
                t::RET_OPTION_INT@,
                seq![("i"@, i), ("call_expr"@, call), ("unwrap_chain"@, chain), ("sql_name"@, sql_name)],
            ),
            "Ok(match "@ + call + chain + " "@,
        ),
        words::has_piece(
            text::fill(
                t::RET_OPTION_INT@,
                seq![("i"@, i), ("call_expr"@, call), ("unwrap_chain"@, chain), ("sql_name"@, sql_name)],
            ),
            "Some(v) => SqlValue::Integer(v as i64)"@,
        ),
        words::has_piece(
            text::fill(
                t::RET_OPTION_INT@,
                seq![("i"@, i), ("call_expr"@, call), ("unwrap_chain"@, chain), ("sql_name"@, sql_name)],
            ),
            "None => SqlValue::Null"@,
        ),
{
    let s = t::RET_OPTION_INT@;
    reveal_strlit(r#"Ok(match {call_expr}{unwrap_chain} {{
{i}    Some(v) => SqlValue::Integer(v as i64),
{i}    None => SqlValue::Null,
{i}}})"#);
    reveal_with_fuel(text::plain_to, 31);
    let b = seq![("i"@, i), ("call_expr"@, call), ("unwrap_chain"@, chain), ("sql_name"@, sql_name)];
    lemma_holes(i, call, chain, "sql_name"@, sql_name);
    assert(words::has_piece(text::fill(t::RET_OPTION_INT@, b), "Ok(match "@ + call + chain + " "@)) by {
        let before = text::lemma_fill_reaches(s, b, 0);
        reveal_strlit("Ok(match ");
        assert(s.subrange(0, 9) =~= "Ok(match "@);
        text::lemma_fill_run(s, b, 0, "Ok(match "@);
        reveal_strlit("call_expr");
        assert(s.subrange(10, 19) =~= "call_expr"@);
        text::lemma_fill_hole(s, b, 9, "call_expr"@);
        reveal_strlit("unwrap_chain");
        assert(s.subrange(21, 33) =~= "unwrap_chain"@);
        text::lemma_fill_hole(s, b, 20, "unwrap_chain"@);
        reveal_strlit(" ");
        assert(s.subrange(34, 35) =~= " "@);
        text::lemma_fill_run(s, b, 34, " "@);
        let rest = text::fill_from(s, b, 35);
        let part = "Ok(match "@ + call + chain + " "@;
        assert(("Ok(match "@ + (call + (chain + (" "@ + rest)))) =~= part + rest);
        words::lemma_piece_between(before, part, rest);
    }
    assert(words::has_piece(text::fill(t::RET_OPTION_INT@, b), "Some(v) => SqlValue::Integer(v as i64)"@)) by {
        let before = text::lemma_fill_reaches(s, b, 41);
        reveal_strlit("    ");
        assert(s.subrange(41, 45) =~= "    "@);
        text::lemma_fill_run(s, b, 41, "    "@);
        reveal_strlit("Some(v) => SqlValue::Integer(v");
        assert(s.subrange(45, 75) =~= "Some(v) => SqlValue::Integer(v"@);
        text::lemma_fill_run(s, b, 45, "Some(v) => SqlValue::Integer(v"@);
        reveal_strlit(" as i64)");
        assert(s.subrange(75, 83) =~= " as i64)"@);
        text::lemma_fill_run(s, b, 75, " as i64)"@);
        let rest = text::fill_from(s, b, 83);
        let part = "Some(v) => SqlValue::Integer(v as i64)"@;
        reveal_strlit("Some(v) => SqlValue::Integer(v as i64)");
        assert(("Some(v) => SqlValue::Integer(v"@ + (" as i64)"@ + rest)) =~= part + rest);
        assert(before + ("    "@ + (part + rest)) =~= (before + "    "@) + (part + rest));
        words::lemma_piece_between(before + "    "@, part, rest);
    }
    assert(words::has_piece(text::fill(t::RET_OPTION_INT@, b), "None => SqlValue::Null"@)) by {
        let before = text::lemma_fill_reaches(s, b, 88);
        reveal_strlit("    ");
        assert(s.subrange(88, 92) =~= "    "@);
        text::lemma_fill_run(s, b, 88, "    "@);
        reveal_strlit("None => SqlValue::Null");
        assert(s.subrange(92, 114) =~= "None => SqlValue::Null"@);
        text::lemma_fill_run(s, b, 92, "None => SqlValue::Null"@);
        let rest = text::fill_from(s, b, 114);
        let part = "None => SqlValue::Null"@;
        assert(before + ("    "@ + (part + rest)) =~= (before + "    "@) + (part + rest));
        words::lemma_piece_between(before + "    "@, part, rest);
    }
}

proof fn lemma_ret_option_bool(i: Seq<char>, call: Seq<char>, chain: Seq<char>, sql_name: Seq<char>)
    ensures
        words::has_piece(
            text::fill(
                t::RET_OPTION_BOOL@,
                seq![("i"@, i), ("call_expr"@, call), ("unwrap_chain"@, chain), ("sql_name"@, sql_name)],
            ),
            "Ok(match "@ + call + chain + " "@,
        ),
        words::has_piece(
            text::fill(
                t::RET_OPTION_BOOL@,
                seq![("i"@, i), ("call_expr"@, call), ("unwrap_chain"@, chain), ("sql_name"@, sql_name)],
            ),
            "Some(v) => SqlValue::Integer(v as i64)"@,
        ),
        words::has_piece(
            text::fill(
                t::RET_OPTION_BOOL@,
                seq![("i"@, i), ("call_expr"@, call), ("unwrap_chain"@, chain), ("sql_name"@, sql_name)],
            ),
            "None => SqlValue::Null"@,
        ),
{
    let s = t::RET_OPTION_BOOL@;
    reveal_strlit(r#"Ok(match {call_expr}{unwrap_chain} {{
{i}    Some(v) => SqlValue::Integer(v as i64),
{i}    None => SqlValue::Null,
{i}}})"#);
    reveal_with_fuel(text::plain_to, 31);
    let b = seq![("i"@, i), ("call_expr"@, call), ("unwrap_chain"@, chain), ("sql_name"@, sql_name)];
    lemma_holes(i, call, chain, "sql_name"@, sql_name);
    assert(words::has_piece(text::fill(t::RET_OPTION_BOOL@, b), "Ok(match "@ + call + chain + " "@)) by {
        let before = text::lemma_fill_reaches(s, b, 0);
        reveal_strlit("Ok(match ");
        assert(s.subrange(0, 9) =~= "Ok(match "@);
        text::lemma_fill_run(s, b, 0, "Ok(match "@);
        reveal_strlit("call_expr");
        assert(s.subrange(10, 19) =~= "call_expr"@);
        text::lemma_fill_hole(s, b, 9, "call_expr"@);
        reveal_strlit("unwrap_chain");
        assert(s.subrange(21, 33) =~= "unwrap_chain"@);
        text::lemma_fill_hole(s, b, 20, "unwrap_chain"@);
        reveal_strlit(" ");
        assert(s.subrange(34, 35) =~= " "@);
        text::lemma_fill_run(s, b, 34, " "@);
        let rest = text::fill_from(s, b, 35);
        let part = "Ok(match "@ + call + chain + " "@;
        assert(("Ok(match "@ + (call + (chain + (" "@ + rest)))) =~= part + rest);
        words::lemma_piece_between(before, part, rest);
    }
    assert(words::has_piece(text::fill(t::RET_OPTION_BOOL@, b), "Some(v) => SqlValue::Integer(v as i64)"@)) by {
        let before = text::lemma_fill_reaches(s, b, 41);
        reveal_strlit("    ");
        assert(s.subrange(41, 45) =~= "    "@);
        text::lemma_fill_run(s, b, 41, "    "@);
        reveal_strlit("Some(v) => SqlValue::Integer(v");
        assert(s.subrange(45, 75) =~= "Some(v) => SqlValue::Integer(v"@);
        text::lemma_fill_run(s, b, 45, "Some(v) => SqlValue::Integer(v"@);
        reveal_strlit(" as i64)");
        assert(s.subrange(75, 83) =~= " as i64)"@);
        text::lemma_fill_run(s, b, 75, " as i64)"@);
        let rest = text::fill_from(s, b, 83);
        let part = "Some(v) => SqlValue::Integer(v as i64)"@;
        reveal_strlit("Some(v) => SqlValue::Integer(v as i64)");
        assert(("Some(v) => SqlValue::Integer(v"@ + (" as i64)"@ + rest)) =~= part + rest);
        assert(before + ("    "@ + (part + rest)) =~= (before + "    "@) + (part + rest));
        words::lemma_piece_between(before + "    "@, part, rest);
    }
    assert(words::has_piece(text::fill(t::RET_OPTION_BOOL@, b), "None => SqlValue::Null"@)) by {
        let before = text::lemma_fill_reaches(s, b, 88);
        reveal_strlit("    ");
        assert(s.subrange(88, 92) =~= "    "@);
        text::lemma_fill_run(s, b, 88, "    "@);
        reveal_strlit("None => SqlValue::Null");
        assert(s.subrange(92, 114) =~= "None => SqlValue::Null"@);
        text::lemma_fill_run(s, b, 92, "None => SqlValue::Null"@);
        let rest = text::fill_from(s, b, 114);
        let part = "None => SqlValue::Null"@;
        assert(before + ("    "@ + (part + rest)) =~= (before + "    "@) + (part + rest));
        words::lemma_piece_between(before + "    "@, part, rest);
    }
}

proof fn lemma_ret_option_blob(i: Seq<char>, call: Seq<char>, chain: Seq<char>, sql_name: Seq<char>)
    ensures
        words::has_piece(
            text::fill(
                t::RET_OPTION_BLOB@,
                seq![("i"@, i), ("call_expr"@, call), ("unwrap_chain"@, chain), ("sql_name"@, sql_name)],
            ),
            "Ok(match "@ + call + chain + " "@,
        ),
        words::has_piece(
            text::fill(
                t::RET_OPTION_BLOB@,
                seq![("i"@, i), ("call_expr"@, call), ("unwrap_chain"@, chain), ("sql_name"@, sql_name)],
            ),
            "Some(v) => SqlValue::Blob(v)"@,
        ),
        words::has_piece(
            text::fill(
                t::RET_OPTION_BLOB@,
                seq![("i"@, i), ("call_expr"@, call), ("unwrap_chain"@, chain), ("sql_name"@, sql_name)],
            ),
            "None => SqlValue::Null"@,
        ),
{
    let s = t::RET_OPTION_BLOB@;
    reveal_strlit(r#"Ok(match {call_expr}{unwrap_chain} {{
{i}    Some(v) => SqlValue::Blob(v),
{i}    None => SqlValue::Null,
{i}}})"#);
    reveal_with_fuel(text::plain_to, 31);
    let b = seq![("i"@, i), ("call_expr"@, call), ("unwrap_chain"@, chain), ("sql_name"@, sql_name)];
    lemma_holes(i, call, chain, "sql_name"@, sql_name);
    assert(words::has_piece(text::fill(t::RET_OPTION_BLOB@, b), "Ok(match "@ + call + chain + " "@)) by {
        let before = text::lemma_fill_reaches(s, b, 0);
        reveal_strlit("Ok(match ");
        assert(s.subrange(0, 9) =~= "Ok(match "@);
        text::lemma_fill_run(s, b, 0, "Ok(match "@);
        reveal_strlit("call_expr");
        assert(s.subrange(10, 19) =~= "call_expr"@);
        text::lemma_fill_hole(s, b, 9, "call_expr"@);
        reveal_strlit("unwrap_chain");
        assert(s.subrange(21, 33) =~= "unwrap_chain"@);
        text::lemma_fill_hole(s, b, 20, "unwrap_chain"@);
        reveal_strlit(" ");
        assert(s.subrange(34, 35) =~= " "@);
        text::lemma_fill_run(s, b, 34, " "@);
        let rest = text::fill_from(s, b, 35);
        let part = "Ok(match "@ + call + chain + " "@;
        assert(("Ok(match "@ + (call + (chain + (" "@ + rest)))) =~= part + rest);
        words::lemma_piece_between(before, part, rest);
    }
    assert(words::has_piece(text::fill(t::RET_OPTION_BLOB@, b), "Some(v) => SqlValue::Blob(v)"@)) by {
        let before = text::lemma_fill_reaches(s, b, 41);
        reveal_strlit("    ");
        assert(s.subrange(41, 45) =~= "    "@);
        text::lemma_fill_run(s, b, 41, "    "@);
        reveal_strlit("Some(v) => SqlValue::Blob(v)");
        assert(s.subrange(45, 73) =~= "Some(v) => SqlValue::Blob(v)"@);
        text::lemma_fill_run(s, b, 45, "Some(v) => SqlValue::Blob(v)"@);
        let rest = text::fill_from(s, b, 73);
        let part = "Some(v) => SqlValue::Blob(v)"@;
        assert(before + ("    "@ + (part + rest)) =~= (before + "    "@) + (part + rest));
        words::lemma_piece_between(before + "    "@, part, rest);
    }
    assert(words::has_piece(text::fill(t::RET_OPTION_BLOB@, b), "None => SqlValue::Null"@)) by {
        let before = text::lemma_fill_reaches(s, b, 78);
        reveal_strlit("    ");
        assert(s.subrange(78, 82) =~= "    "@);
        text::lemma_fill_run(s, b, 78, "    "@);
        reveal_strlit("None => SqlValue::Null");
        assert(s.subrange(82, 104) =~= "None => SqlValue::Null"@);
        text::lemma_fill_run(s, b, 82, "None => SqlValue::Null"@);
        let rest = text::fill_from(s, b, 104);
        let part = "None => SqlValue::Null"@;
        assert(before + ("    "@ + (part + rest)) =~= (before + "    "@) + (part + rest));
        words::lemma_piece_between(before + "    "@, part, rest);
    }
}

proof fn lemma_ret_option_geom(i: Seq<char>, call: Seq<char>, chain: Seq<char>, sql_name: Seq<char>)
    ensures
        words::has_piece(
            text::fill(
                t::RET_OPTION_GEOM@,
                seq![("i"@, i), ("call_expr"@, call), ("unwrap_chain"@, chain), ("sql_name"@, sql_name)],
            ),
            "Ok(match "@ + call + chain + " "@,
        ),
        words::has_piece(
            text::fill(
                t::RET_OPTION_GEOM@,
                seq![("i"@, i), ("call_expr"@, call), ("unwrap_chain"@, chain), ("sql_name"@, sql_name)],
            ),
            "Some(v) => SqlValue::Blob(v.as_wkb())"@,
        ),
        words::has_piece(
            text::fill(
                t::RET_OPTION_GEOM@,
                seq![("i"@, i), ("call_expr"@, call), ("unwrap_chain"@, chain), ("sql_name"@, sql_name)],
            ),
            "None => SqlValue::Null"@,
        ),
{
    let s = t::RET_OPTION_GEOM@;
    reveal_strlit(r#"Ok(match {call_expr}{unwrap_chain} {{
{i}    Some(v) => SqlValue::Blob(v.as_wkb()),
{i}    None => SqlValue::Null,
{i}}})"#);
    reveal_with_fuel(text::plain_to, 31);
    let b = seq![("i"@, i), ("call_expr"@, call), ("unwrap_chain"@, chain), ("sql_name"@, sql_name)];
    lemma_holes(i, call, chain, "sql_name"@, sql_name);
    assert(words::has_piece(text::fill(t::RET_OPTION_GEOM@, b), "Ok(match "@ + call + chain + " "@)) by {
        let before = text::lemma_fill_reaches(s, b, 0);
        reveal_strlit("Ok(match ");
        assert(s.subrange(0, 9) =~= "Ok(match "@);
        text::lemma_fill_run(s, b, 0, "Ok(match "@);
        reveal_strlit("call_expr");
        assert(s.subrange(10, 19) =~= "call_expr"@);
        text::lemma_fill_hole(s, b, 9, "call_expr"@);
        reveal_strlit("unwrap_chain");
        assert(s.subrange(21, 33) =~= "unwrap_chain"@);
        text::lemma_fill_hole(s, b, 20, "unwrap_chain"@);
        reveal_strlit(" ");
        assert(s.subrange(34, 35) =~= " "@);
        text::lemma_fill_run(s, b, 34, " "@);
        let rest = text::fill_from(s, b, 35);
        let part = "Ok(match "@ + call + chain + " "@;
        assert(("Ok(match "@ + (call + (chain + (" "@ + rest)))) =~= part + rest);
        words::lemma_piece_between(before, part, rest);
    }
    assert(words::has_piece(text::fill(t::RET_OPTION_GEOM@, b), "Some(v) => SqlValue::Blob(v.as_wkb())"@)) by {
        let before = text::lemma_fill_reaches(s, b, 41);
        reveal_strlit("    ");
        assert(s.subrange(41, 45) =~= "    "@);
        text::lemma_fill_run(s, b, 41, "    "@);
        reveal_strlit("Some(v) => SqlValue::Blob(v.as");
        assert(s.subrange(45, 75) =~= "Some(v) => SqlValue::Blob(v.as"@);
        text::lemma_fill_run(s, b, 45, "Some(v) => SqlValue::Blob(v.as"@);
        reveal_strlit("_wkb())");
        assert(s.subrange(75, 82) =~= "_wkb())"@);
        text::lemma_fill_run(s, b, 75, "_wkb())"@);
        let rest = text::fill_from(s, b, 82);
        let part = "Some(v) => SqlValue::Blob(v.as_wkb())"@;
        reveal_strlit("Some(v) => SqlValue::Blob(v.as_wkb())");
        assert(("Some(v) => SqlValue::Blob(v.as"@ + ("_wkb())"@ + rest)) =~= part + rest);
        assert(before + ("    "@ + (part + rest)) =~= (before + "    "@) + (part + rest));
        words::lemma_piece_between(before + "    "@, part, rest);
    }
    assert(words::has_piece(text::fill(t::RET_OPTION_GEOM@, b), "None => SqlValue::Null"@)) by {
        let before = text::lemma_fill_reaches(s, b, 87);
        reveal_strlit("    ");
        assert(s.subrange(87, 91) =~= "    "@);
        text::lemma_fill_run(s, b, 87, "    "@);
        reveal_strlit("None => SqlValue::Null");
        assert(s.subrange(91, 113) =~= "None => SqlValue::Null"@);
        text::lemma_fill_run(s, b, 91, "None => SqlValue::Null"@);
        let rest = text::fill_from(s, b, 113);
        let part = "None => SqlValue::Null"@;
        assert(before + ("    "@ + (part + rest)) =~= (before + "    "@) + (part + rest));
        words::lemma_piece_between(before + "    "@, part, rest);
    }
}

proof fn lemma_ret_option_raster(
    i: Seq<char>,
    call: Seq<char>,
    chain: Seq<char>,
    sql_name: Seq<char>,
)
    ensures
        words::has_piece(
            text::fill(
                t::RET_OPTION_RASTER@,
                seq![("i"@, i), ("call_expr"@, call), ("unwrap_chain"@, chain), ("sql_name"@, sql_name)],
            ),
            "Ok(match "@ + call + chain + " "@,
        ),
        words::has_piece(
            text::fill(
                t::RET_OPTION_RASTER@,
                seq![("i"@, i), ("call_expr"@, call), ("unwrap_chain"@, chain), ("sql_name"@, sql_name)],
            ),
            "Some(v) => SqlValue::Blob(v.as_binary())"@,
        ),
        words::has_piece(
            text::fill(
                t::RET_OPTION_RASTER@,
                seq![("i"@, i), ("call_expr"@, call), ("unwrap_chain"@, chain), ("sql_name"@, sql_name)],
            ),
            "None => SqlValue::Null"@,
        ),
{
    let s = t::RET_OPTION_RASTER@;
    reveal_strlit(r#"Ok(match {call_expr}{unwrap_chain} {{
{i}    Some(v) => SqlValue::Blob(v.as_binary()),
{i}    None => SqlValue::Null,
{i}}})"#);
    reveal_with_fuel(text::plain_to, 31);
    let b = seq![("i"@, i), ("call_expr"@, call), ("unwrap_chain"@, chain), ("sql_name"@, sql_name)];
    lemma_holes(i, call, chain, "sql_name"@, sql_name);
    assert(words::has_piece(text::fill(t::RET_OPTION_RASTER@, b), "Ok(match "@ + call + chain + " "@)) by {
        let before = text::lemma_fill_reaches(s, b, 0);
        reveal_strlit("Ok(match ");
        assert(s.subrange(0, 9) =~= "Ok(match "@);
        text::lemma_fill_run(s, b, 0, "Ok(match "@);
        reveal_strlit("call_expr");
        assert(s.subrange(10, 19) =~= "call_expr"@);
        text::lemma_fill_hole(s, b, 9, "call_expr"@);
        reveal_strlit("unwrap_chain");
        assert(s.subrange(21, 33) =~= "unwrap_chain"@);
        text::lemma_fill_hole(s, b, 20, "unwrap_chain"@);
        reveal_strlit(" ");
        assert(s.subrange(34, 35) =~= " "@);
        text::lemma_fill_run(s, b, 34, " "@);
        let rest = text::fill_from(s, b, 35);
        let part = "Ok(match "@ + call + chain + " "@;
        assert(("Ok(match "@ + (call + (chain + (" "@ + rest)))) =~= part + rest);
        words::lemma_piece_between(before, part, rest);
    }
    assert(words::has_piece(
        text::fill(t::RET_OPTION_RASTER@, b),
        "Some(v) => SqlValue::Blob(v.as_binary())"@,
    )) by {
        let before = text::lemma_fill_reaches(s, b, 41);
        reveal_strlit("    ");
        assert(s.subrange(41, 45) =~= "    "@);
        text::lemma_fill_run(s, b, 41, "    "@);
        reveal_strlit("Some(v) => SqlValue::Blob(v.as");
        assert(s.subrange(45, 75) =~= "Some(v) => SqlValue::Blob(v.as"@);
        text::lemma_fill_run(s, b, 45, "Some(v) => SqlValue::Blob(v.as"@);
        reveal_strlit("_binary())");
        assert(s.subrange(75, 85) =~= "_binary())"@);
        text::lemma_fill_run(s, b, 75, "_binary())"@);
        let rest = text::fill_from(s, b, 85);
        let part = "Some(v) => SqlValue::Blob(v.as_binary())"@;
        reveal_strlit("Some(v) => SqlValue::Blob(v.as_binary())");
        assert(("Some(v) => SqlValue::Blob(v.as"@ + ("_binary())"@ + rest)) =~= part + rest);
        assert(before + ("    "@ + (part + rest)) =~= (before + "    "@) + (part + rest));
        words::lemma_piece_between(before + "    "@, part, rest);
    }
    assert(words::has_piece(text::fill(t::RET_OPTION_RASTER@, b), "None => SqlValue::Null"@)) by {
        let before = text::lemma_fill_reaches(s, b, 90);
        reveal_strlit("    ");
        assert(s.subrange(90, 94) =~= "    "@);
        text::lemma_fill_run(s, b, 90, "    "@);
        reveal_strlit("None => SqlValue::Null");
        assert(s.subrange(94, 116) =~= "None => SqlValue::Null"@);
        text::lemma_fill_run(s, b, 94, "None => SqlValue::Null"@);
        let rest = text::fill_from(s, b, 116);
        let part = "None => SqlValue::Null"@;
        assert(before + ("    "@ + (part + rest)) =~= (before + "    "@) + (part + rest));
        words::lemma_piece_between(before + "    "@, part, rest);
    }
}

proof fn lemma_ret_option_topology(
    i: Seq<char>,
    call: Seq<char>,
    chain: Seq<char>,
    sql_name: Seq<char>,
)
    ensures
        words::has_piece(
            text::fill(
                t::RET_OPTION_TOPOLOGY@,
                seq![("i"@, i), ("call_expr"@, call), ("unwrap_chain"@, chain), ("sql_name"@, sql_name)],
            ),
            "Ok(match "@ + call + chain + " "@,
        ),
        words::has_piece(
            text::fill(
                t::RET_OPTION_TOPOLOGY@,
                seq![("i"@, i), ("call_expr"@, call), ("unwrap_chain"@, chain), ("sql_name"@, sql_name)],
            ),
            "Some(v) => SqlValue::Blob(v.to_bytes())"@,
        ),
        words::has_piece(
            text::fill(
                t::RET_OPTION_TOPOLOGY@,
                seq![("i"@, i), ("call_expr"@, call), ("unwrap_chain"@, chain), ("sql_name"@, sql_name)],
            ),
            "None => SqlValue::Null"@,
        ),
{
    let s = t::RET_OPTION_TOPOLOGY@;
    reveal_strlit(r#"Ok(match {call_expr}{unwrap_chain} {{
{i}    Some(v) => SqlValue::Blob(v.to_bytes()),
{i}    None => SqlValue::Null,
{i}}})"#);
    reveal_with_fuel(text::plain_to, 31);
    let b = seq![("i"@, i), ("call_expr"@, call), ("unwrap_chain"@, chain), ("sql_name"@, sql_name)];
    lemma_holes(i, call, chain, "sql_name"@, sql_name);
    assert(words::has_piece(text::fill(t::RET_OPTION_TOPOLOGY@, b), "Ok(match "@ + call + chain + " "@)) by {
        let before = text::lemma_fill_reaches(s, b, 0);
        reveal_strlit("Ok(match ");
        assert(s.subrange(0, 9) =~= "Ok(match "@);
        text::lemma_fill_run(s, b, 0, "Ok(match "@);
        reveal_strlit("call_expr");
        assert(s.subrange(10, 19) =~= "call_expr"@);
        text::lemma_fill_hole(s, b, 9, "call_expr"@);
        reveal_strlit("unwrap_chain");
        assert(s.subrange(21, 33) =~= "unwrap_chain"@);
        text::lemma_fill_hole(s, b, 20, "unwrap_chain"@);
        reveal_strlit(" ");
        assert(s.subrange(34, 35) =~= " "@);
        text::lemma_fill_run(s, b, 34, " "@);
        let rest = text::fill_from(s, b, 35);
        let part = "Ok(match "@ + call + chain + " "@;
        assert(("Ok(match "@ + (call + (chain + (" "@ + rest)))) =~= part + rest);
        words::lemma_piece_between(before, part, rest);
    }
    assert(words::has_piece(
        text::fill(t::RET_OPTION_TOPOLOGY@, b),
        "Some(v) => SqlValue::Blob(v.to_bytes())"@,
    )) by {
        let before = text::lemma_fill_reaches(s, b, 41);
        reveal_strlit("    ");
        assert(s.subrange(41, 45) =~= "    "@);
        text::lemma_fill_run(s, b, 41, "    "@);
        reveal_strlit("Some(v) => SqlValue::Blob(v.to");
        assert(s.subrange(45, 75) =~= "Some(v) => SqlValue::Blob(v.to"@);
        text::lemma_fill_run(s, b, 45, "Some(v) => SqlValue::Blob(v.to"@);
        reveal_strlit("_bytes())");
        assert(s.subrange(75, 84) =~= "_bytes())"@);
        text::lemma_fill_run(s, b, 75, "_bytes())"@);
        let rest = text::fill_from(s, b, 84);
        let part = "Some(v) => SqlValue::Blob(v.to_bytes())"@;
        reveal_strlit("Some(v) => SqlValue::Blob(v.to_bytes())");
        assert(("Some(v) => SqlValue::Blob(v.to"@ + ("_bytes())"@ + rest)) =~= part + rest);
        assert(before + ("    "@ + (part + rest)) =~= (before + "    "@) + (part + rest));
        words::lemma_piece_between(before + "    "@, part, rest);
    }
    assert(words::has_piece(text::fill(t::RET_OPTION_TOPOLOGY@, b), "None => SqlValue::Null"@)) by {
        let before = text::lemma_fill_reaches(s, b, 89);
        reveal_strlit("    ");
        assert(s.subrange(89, 93) =~= "    "@);
        text::lemma_fill_run(s, b, 89, "    "@);
        reveal_strlit("None => SqlValue::Null");
        assert(s.subrange(93, 115) =~= "None => SqlValue::Null"@);
        text::lemma_fill_run(s, b, 93, "None => SqlValue::Null"@);
        let rest = text::fill_from(s, b, 115);
        let part = "None => SqlValue::Null"@;
        assert(before + ("    "@ + (part + rest)) =~= (before + "    "@) + (part + rest));
        words::lemma_piece_between(before + "    "@, part, rest);
    }
}

proof fn lemma_ret_first_geom(i: Seq<char>, call: Seq<char>, chain: Seq<char>, sql_name: Seq<char>)
    ensures
        words::has_piece(
            text::fill(
                t::RET_FIRST_GEOM@,
                seq![("i"@, i), ("call_expr"@, call), ("unwrap_chain"@, chain), ("sql_name"@, sql_name)],
            ),
            "= "@ + call + chain + ";"@,
        ),
        words::has_piece(
            text::fill(
                t::RET_FIRST_GEOM@,
                seq![("i"@, i), ("call_expr"@, call), ("unwrap_chain"@, chain), ("sql_name"@, sql_name)],
            ),
            "Some(g) => Ok(SqlValue::Blob(g.as_wkb()))"@,
        ),
        words::has_piece(
            text::fill(
                t::RET_FIRST_GEOM@,
                seq![("i"@, i), ("call_expr"@, call), ("unwrap_chain"@, chain), ("sql_name"@, sql_name)],
            ),
            "None => Ok(SqlValue::Null)"@,
        ),
{
    let s = t::RET_FIRST_GEOM@;
    reveal_strlit(r#"{{
{i}    let __r: Vec<Geometry> = {call_expr}{unwrap_chain};
{i}    match __r.first() {{
{i}        Some(g) => Ok(SqlValue::Blob(g.as_wkb())),
{i}        None => Ok(SqlValue::Null),
{i}    }}
{i}}}"#);
    reveal_with_fuel(text::plain_to, 31);
    let b = seq![("i"@, i), ("call_expr"@, call), ("unwrap_chain"@, chain), ("sql_name"@, sql_name)];
    lemma_holes(i, call, chain, "sql_name"@, sql_name);
    assert(words::has_piece(text::fill(t::RET_FIRST_GEOM@, b), "= "@ + call + chain + ";"@)) by {
        let before = text::lemma_fill_reaches(s, b, 6);
        reveal_strlit("    let __r: Vec<Geometry> ");
        assert(s.subrange(6, 33) =~= "    let __r: Vec<Geometry> "@);
        text::lemma_fill_run(s, b, 6, "    let __r: Vec<Geometry> "@);
        reveal_strlit("= ");
        assert(s.subrange(33, 35) =~= "= "@);
        text::lemma_fill_run(s, b, 33, "= "@);
        reveal_strlit("call_expr");
        assert(s.subrange(36, 45) =~= "call_expr"@);
        text::lemma_fill_hole(s, b, 35, "call_expr"@);
        reveal_strlit("unwrap_chain");
        assert(s.subrange(47, 59) =~= "unwrap_chain"@);
        text::lemma_fill_hole(s, b, 46, "unwrap_chain"@);
        reveal_strlit(";");
        assert(s.subrange(60, 61) =~= ";"@);
        text::lemma_fill_run(s, b, 60, ";"@);
        let rest = text::fill_from(s, b, 61);
        let part = "= "@ + call + chain + ";"@;
        assert(("= "@ + (call + (chain + (";"@ + rest)))) =~= part + rest);
        assert(before + ("    let __r: Vec<Geometry> "@ + (part + rest))
            =~= (before + "    let __r: Vec<Geometry> "@) + (part + rest));
        words::lemma_piece_between(before + "    let __r: Vec<Geometry> "@, part, rest);
    }
    assert(words::has_piece(
        text::fill(t::RET_FIRST_GEOM@, b),
        "Some(g) => Ok(SqlValue::Blob(g.as_wkb()))"@,
    )) by {
        let before = text::lemma_fill_reaches(s, b, 93);
        reveal_strlit("        ");
        assert(s.subrange(93, 101) =~= "        "@);
        text::lemma_fill_run(s, b, 93, "        "@);
        reveal_strlit("Some(g) => Ok(SqlValue::Blob(g");
        assert(s.subrange(101, 131) =~= "Some(g) => Ok(SqlValue::Blob(g"@);
        text::lemma_fill_run(s, b, 101, "Some(g) => Ok(SqlValue::Blob(g"@);
        reveal_strlit(".as_wkb()))");
        assert(s.subrange(131, 142) =~= ".as_wkb()))"@);
        text::lemma_fill_run(s, b, 131, ".as_wkb()))"@);
        let rest = text::fill_from(s, b, 142);
        let part = "Some(g) => Ok(SqlValue::Blob(g.as_wkb()))"@;
        reveal_strlit("Some(g) => Ok(SqlValue::Blob(g.as_wkb()))");
        assert(("Some(g) => Ok(SqlValue::Blob(g"@ + (".as_wkb()))"@ + rest)) =~= part + rest);
        assert(before + ("        "@ + (part + rest)) =~= (before + "        "@) + (part + rest));
        words::lemma_piece_between(before + "        "@, part, rest);
    }
    assert(words::has_piece(text::fill(t::RET_FIRST_GEOM@, b), "None => Ok(SqlValue::Null)"@)) by {
        let before = text::lemma_fill_reaches(s, b, 147);
        reveal_strlit("        ");
        assert(s.subrange(147, 155) =~= "        "@);
        text::lemma_fill_run(s, b, 147, "        "@);
        reveal_strlit("None => Ok(SqlValue::Null)");
        assert(s.subrange(155, 181) =~= "None => Ok(SqlValue::Null)"@);
        text::lemma_fill_run(s, b, 155, "None => Ok(SqlValue::Null)"@);
        let rest = text::fill_from(s, b, 181);
        let part = "None => Ok(SqlValue::Null)"@;
        assert(before + ("        "@ + (part + rest)) =~= (before + "        "@) + (part + rest));
        words::lemma_piece_between(before + "        "@, part, rest);
    }
}

proof fn lemma_ret_first_raster(
    i: Seq<char>,
    call: Seq<char>,
    chain: Seq<char>,
    sql_name: Seq<char>,
)
    ensures
        words::has_piece(
            text::fill(
                t::RET_FIRST_RASTER@,
                seq![("i"@, i), ("call_expr"@, call), ("unwrap_chain"@, chain), ("sql_name"@, sql_name)],
            ),
            "= "@ + call + chain + ";"@,
        ),
        words::has_piece(
            text::fill(
                t::RET_FIRST_RASTER@,
                seq![("i"@, i), ("call_expr"@, call), ("unwrap_chain"@, chain), ("sql_name"@, sql_name)],
            ),
            "Some(r) => Ok(SqlValue::Blob(r.as_binary()))"@,
        ),
        words::has_piece(
            text::fill(
                t::RET_FIRST_RASTER@,
                seq![("i"@, i), ("call_expr"@, call), ("unwrap_chain"@, chain), ("sql_name"@, sql_name)],
            ),
            "None => Ok(SqlValue::Null)"@,
        ),
{
    let s = t::RET_FIRST_RASTER@;
    reveal_strlit(r#"{{
{i}    let __r = {call_expr}{unwrap_chain};
{i}    match __r.into_iter().next() {{
{i}        Some(r) => Ok(SqlValue::Blob(r.as_binary())),
{i}        None => Ok(SqlValue::Null),
{i}    }}
{i}}}"#);
    reveal_with_fuel(text::plain_to, 31);
    let b = seq![("i"@, i), ("call_expr"@, call), ("unwrap_chain"@, chain), ("sql_name"@, sql_name)];
    lemma_holes(i, call, chain, "sql_name"@, sql_name);
    assert(words::has_piece(text::fill(t::RET_FIRST_RASTER@, b), "= "@ + call + chain + ";"@)) by {
        let before = text::lemma_fill_reaches(s, b, 6);
        reveal_strlit("    let __r ");
        assert(s.subrange(6, 18) =~= "    let __r "@);
        text::lemma_fill_run(s, b, 6, "    let __r "@);
        reveal_strlit("= ");
        assert(s.subrange(18, 20) =~= "= "@);
        text::lemma_fill_run(s, b, 18, "= "@);
        reveal_strlit("call_expr");
        assert(s.subrange(21, 30) =~= "call_expr"@);
        text::lemma_fill_hole(s, b, 20, "call_expr"@);
        reveal_strlit("unwrap_chain");
        assert(s.subrange(32, 44) =~= "unwrap_chain"@);
        text::lemma_fill_hole(s, b, 31, "unwrap_chain"@);
        reveal_strlit(";");
        assert(s.subrange(45, 46) =~= ";"@);
        text::lemma_fill_run(s, b, 45, ";"@);
        let rest = text::fill_from(s, b, 46);
        let part = "= "@ + call + chain + ";"@;
        assert(("= "@ + (call + (chain + (";"@ + rest)))) =~= part + rest);
        assert(before + ("    let __r "@ + (part + rest)) =~= (before + "    let __r "@) + (part + rest));
        words::lemma_piece_between(before + "    let __r "@, part, rest);
    }
    assert(words::has_piece(
        text::fill(t::RET_FIRST_RASTER@, b),
        "Some(r) => Ok(SqlValue::Blob(r.as_binary()))"@,
    )) by {
        let before = text::lemma_fill_reaches(s, b, 89);
        reveal_strlit("        ");
        assert(s.subrange(89, 97) =~= "        "@);
        text::lemma_fill_run(s, b, 89, "        "@);
        reveal_strlit("Some(r) => Ok(SqlValue::Blob(r");
        assert(s.subrange(97, 127) =~= "Some(r) => Ok(SqlValue::Blob(r"@);
        text::lemma_fill_run(s, b, 97, "Some(r) => Ok(SqlValue::Blob(r"@);
        reveal_strlit(".as_binary()))");
        assert(s.subrange(127, 141) =~= ".as_binary()))"@);
        text::lemma_fill_run(s, b, 127, ".as_binary()))"@);
        let rest = text::fill_from(s, b, 141);
        let part = "Some(r) => Ok(SqlValue::Blob(r.as_binary()))"@;
        reveal_strlit("Some(r) => Ok(SqlValue::Blob(r.as_binary()))");
        assert(("Some(r) => Ok(SqlValue::Blob(r"@ + (".as_binary()))"@ + rest)) =~= part + rest);
        assert(before + ("        "@ + (part + rest)) =~= (before + "        "@) + (part + rest));
        words::lemma_piece_between(before + "        "@, part, rest);
    }
    assert(words::has_piece(text::fill(t::RET_FIRST_RASTER@, b), "None => Ok(SqlValue::Null)"@)) by {
        let before = text::lemma_fill_reaches(s, b, 146);
        reveal_strlit("        ");
        assert(s.subrange(146, 154) =~= "        "@);
        text::lemma_fill_run(s, b, 146, "        "@);
        reveal_strlit("None => Ok(SqlValue::Null)");
        assert(s.subrange(154, 180) =~= "None => Ok(SqlValue::Null)"@);
        text::lemma_fill_run(s, b, 154, "None => Ok(SqlValue::Null)"@);
        let rest = text::fill_from(s, b, 180);
        let part = "None => Ok(SqlValue::Null)"@;
        assert(before + ("        "@ + (part + rest)) =~= (before + "        "@) + (part + rest));
        words::lemma_piece_between(before + "        "@, part, rest);
    }
}

proof fn lemma_ret_first_topology(
    i: Seq<char>,
    call: Seq<char>,
    chain: Seq<char>,
    sql_name: Seq<char>,
)
    ensures
        words::has_piece(
            text::fill(
                t::RET_FIRST_TOPOLOGY@,
                seq![("i"@, i), ("call_expr"@, call), ("unwrap_chain"@, chain), ("sql_name"@, sql_name)],
            ),
            "= "@ + call + chain + ";"@,
        ),
        words::has_piece(
            text::fill(
                t::RET_FIRST_TOPOLOGY@,
                seq![("i"@, i), ("call_expr"@, call), ("unwrap_chain"@, chain), ("sql_name"@, sql_name)],
            ),
            "Some(t) => Ok(SqlValue::Blob(t.to_bytes()))"@,
        ),
        words::has_piece(
            text::fill(
                t::RET_FIRST_TOPOLOGY@,
                seq![("i"@, i), ("call_expr"@, call), ("unwrap_chain"@, chain), ("sql_name"@, sql_name)],
            ),
            "None => Ok(SqlValue::Null)"@,
        ),
{
    let s = t::RET_FIRST_TOPOLOGY@;
    reveal_strlit(r#"{{
{i}    let __r = {call_expr}{unwrap_chain};
{i}    match __r.into_iter().next() {{
{i}        Some(t) => Ok(SqlValue::Blob(t.to_bytes())),
{i}        None => Ok(SqlValue::Null),
{i}    }}
{i}}}"#);
    reveal_with_fuel(text::plain_to, 31);
    let b = seq![("i"@, i), ("call_expr"@, call), ("unwrap_chain"@, chain), ("sql_name"@, sql_name)];
    lemma_holes(i, call, chain, "sql_name"@, sql_name);
    assert(words::has_piece(text::fill(t::RET_FIRST_TOPOLOGY@, b), "= "@ + call + chain + ";"@)) by {
        let before = text::lemma_fill_reaches(s, b, 6);
        reveal_strlit("    let __r ");
        assert(s.subrange(6, 18) =~= "    let __r "@);
        text::lemma_fill_run(s, b, 6, "    let __r "@);
        reveal_strlit("= ");
        assert(s.subrange(18, 20) =~= "= "@);
        text::lemma_fill_run(s, b, 18, "= "@);
        reveal_strlit("call_expr");
        assert(s.subrange(21, 30) =~= "call_expr"@);
        text::lemma_fill_hole(s, b, 20, "call_expr"@);
        reveal_strlit("unwrap_chain");
        assert(s.subrange(32, 44) =~= "unwrap_chain"@);
        text::lemma_fill_hole(s, b, 31, "unwrap_chain"@);
        reveal_strlit(";");
        assert(s.subrange(45, 46) =~= ";"@);
        text::lemma_fill_run(s, b, 45, ";"@);
        let rest = text::fill_from(s, b, 46);
        let part = "= "@ + call + chain + ";"@;
        assert(("= "@ + (call + (chain + (";"@ + rest)))) =~= part + rest);
        assert(before + ("    let __r "@ + (part + rest)) =~= (before + "    let __r "@) + (part + rest));
        words::lemma_piece_between(before + "    let __r "@, part, rest);
    }
    assert(words::has_piece(
        text::fill(t::RET_FIRST_TOPOLOGY@, b),
        "Some(t) => Ok(SqlValue::Blob(t.to_bytes()))"@,
    )) by {
        let before = text::lemma_fill_reaches(s, b, 89);
        reveal_strlit("        ");
        assert(s.subrange(89, 97) =~= "        "@);
        text::lemma_fill_run(s, b, 89, "        "@);
        reveal_strlit("Some(t) => Ok(SqlValue::Blob(t");
        assert(s.subrange(97, 127) =~= "Some(t) => Ok(SqlValue::Blob(t"@);
        text::lemma_fill_run(s, b, 97, "Some(t) => Ok(SqlValue::Blob(t"@);
        reveal_strlit(".to_bytes()))");
        assert(s.subrange(127, 140) =~= ".to_bytes()))"@);
        text::lemma_fill_run(s, b, 127, ".to_bytes()))"@);
        let rest = text::fill_from(s, b, 140);
        let part = "Some(t) => Ok(SqlValue::Blob(t.to_bytes()))"@;
        reveal_strlit("Some(t) => Ok(SqlValue::Blob(t.to_bytes()))");
        assert(("Some(t) => Ok(SqlValue::Blob(t"@ + (".to_bytes()))"@ + rest)) =~= part + rest);
        assert(before + ("        "@ + (part + rest)) =~= (before + "        "@) + (part + rest));
        words::lemma_piece_between(before + "        "@, part, rest);
    }
    assert(words::has_piece(text::fill(t::RET_FIRST_TOPOLOGY@, b), "None => Ok(SqlValue::Null)"@)) by {
        let before = text::lemma_fill_reaches(s, b, 145);
        reveal_strlit("        ");
        assert(s.subrange(145, 153) =~= "        "@);
        text::lemma_fill_run(s, b, 145, "        "@);
        reveal_strlit("None => Ok(SqlValue::Null)");
        assert(s.subrange(153, 179) =~= "None => Ok(SqlValue::Null)"@);
        text::lemma_fill_run(s, b, 153, "None => Ok(SqlValue::Null)"@);
        let rest = text::fill_from(s, b, 179);
        let part = "None => Ok(SqlValue::Null)"@;
        assert(before + ("        "@ + (part + rest)) =~= (before + "        "@) + (part + rest));
        words::lemma_piece_between(before + "        "@, part, rest);
    }
}

proof fn lemma_ret_first_option_u32(
    i: Seq<char>,
    call: Seq<char>,
    chain: Seq<char>,
    sql_name: Seq<char>,
)
    ensures
        words::has_piece(
            text::fill(
                t::RET_FIRST_OPTION_U32@,
                seq![("i"@, i), ("call_expr"@, call), ("unwrap_chain"@, chain), ("sql_name"@, sql_name)],
            ),
            "= "@ + call + chain + ";"@,
        ),
        words::has_piece(
            text::fill(
                t::RET_FIRST_OPTION_U32@,
                seq![("i"@, i), ("call_expr"@, call), ("unwrap_chain"@, chain), ("sql_name"@, sql_name)],
            ),
            "Some(Some(v)) => Ok(SqlValue::Integer(*v as i64))"@,
        ),
        words::has_piece(
            text::fill(
                t::RET_FIRST_OPTION_U32@,
                seq![("i"@, i), ("call_expr"@, call), ("unwrap_chain"@, chain), ("sql_name"@, sql_name)],
            ),
            "None => Ok(SqlValue::Null)"@,
        ),
{
    let s = t::RET_FIRST_OPTION_U32@;
    reveal_strlit(r#"{{
{i}    let __r: Vec<Option<u32>> = {call_expr}{unwrap_chain};
{i}    match __r.first() {{
{i}        Some(Some(v)) => Ok(SqlValue::Integer(*v as i64)),
{i}        Some(None) | None => Ok(SqlValue::Null),
{i}    }}
{i}}}"#);
    reveal_with_fuel(text::plain_to, 31);
    let b = seq![("i"@, i), ("call_expr"@, call), ("unwrap_chain"@, chain), ("sql_name"@, sql_name)];
    lemma_holes(i, call, chain, "sql_name"@, sql_name);
    assert(words::has_piece(text::fill(t::RET_FIRST_OPTION_U32@, b), "= "@ + call + chain + ";"@)) by {
        let before = text::lemma_fill_reaches(s, b, 6);
        reveal_strlit("    let __r: Vec<Option<u32>> ");
        assert(s.subrange(6, 36) =~= "    let __r: Vec<Option<u32>> "@);
        text::lemma_fill_run(s, b, 6, "    let __r: Vec<Option<u32>> "@);
        reveal_strlit("= ");
        assert(s.subrange(36, 38) =~= "= "@);
        text::lemma_fill_run(s, b, 36, "= "@);
        reveal_strlit("call_expr");
        assert(s.subrange(39, 48) =~= "call_expr"@);
        text::lemma_fill_hole(s, b, 38, "call_expr"@);
        reveal_strlit("unwrap_chain");
        assert(s.subrange(50, 62) =~= "unwrap_chain"@);
        text::lemma_fill_hole(s, b, 49, "unwrap_chain"@);
        reveal_strlit(";");
        assert(s.subrange(63, 64) =~= ";"@);
        text::lemma_fill_run(s, b, 63, ";"@);
        let rest = text::fill_from(s, b, 64);
        let part = "= "@ + call + chain + ";"@;
        assert(("= "@ + (call + (chain + (";"@ + rest)))) =~= part + rest);
        assert(before + ("    let __r: Vec<Option<u32>> "@ + (part + rest))
            =~= (before + "    let __r: Vec<Option<u32>> "@) + (part + rest));
        words::lemma_piece_between(before + "    let __r: Vec<Option<u32>> "@, part, rest);
    }
    assert(words::has_piece(
        text::fill(t::RET_FIRST_OPTION_U32@, b),
        "Some(Some(v)) => Ok(SqlValue::Integer(*v as i64))"@,
    )) by {
        let before = text::lemma_fill_reaches(s, b, 96);
        reveal_strlit("        ");
        assert(s.subrange(96, 104) =~= "        "@);
        text::lemma_fill_run(s, b, 96, "        "@);
        reveal_strlit("Some(Some(v)) => Ok(SqlValue::");
        assert(s.subrange(104, 134) =~= "Some(Some(v)) => Ok(SqlValue::"@);
        text::lemma_fill_run(s, b, 104, "Some(Some(v)) => Ok(SqlValue::"@);
        reveal_strlit("Integer(*v as i64))");
        assert(s.subrange(134, 153) =~= "Integer(*v as i64))"@);
        text::lemma_fill_run(s, b, 134, "Integer(*v as i64))"@);
        let rest = text::fill_from(s, b, 153);
        let part = "Some(Some(v)) => Ok(SqlValue::Integer(*v as i64))"@;
        reveal_strlit("Some(Some(v)) => Ok(SqlValue::Integer(*v as i64))");
        assert(("Some(Some(v)) => Ok(SqlValue::"@ + ("Integer(*v as i64))"@ + rest)) =~= part + rest);
        assert(before + ("        "@ + (part + rest)) =~= (before + "        "@) + (part + rest));
        words::lemma_piece_between(before + "        "@, part, rest);
    }
    assert(words::has_piece(text::fill(t::RET_FIRST_OPTION_U32@, b), "None => Ok(SqlValue::Null)"@)) by {
        let before = text::lemma_fill_reaches(s, b, 158);
        reveal_strlit("        Some(None) | ");
        assert(s.subrange(158, 179) =~= "        Some(None) | "@);
        text::lemma_fill_run(s, b, 158, "        Some(None) | "@);
        reveal_strlit("None => Ok(SqlValue::Null)");
        assert(s.subrange(179, 205) =~= "None => Ok(SqlValue::Null)"@);
        text::lemma_fill_run(s, b, 179, "None => Ok(SqlValue::Null)"@);
        let rest = text::fill_from(s, b, 205);
        let part = "None => Ok(SqlValue::Null)"@;
        assert(before + ("        Some(None) | "@ + (part + rest))
            =~= (before + "        Some(None) | "@) + (part + rest));
        words::lemma_piece_between(before + "        Some(None) | "@, part, rest);
    }
}

proof fn lemma_ret_first_int(i: Seq<char>, call: Seq<char>, chain: Seq<char>, sql_name: Seq<char>)
    ensures
        words::has_piece(
            text::fill(
                t::RET_FIRST_INT@,
                seq![("i"@, i), ("call_expr"@, call), ("unwrap_chain"@, chain), ("sql_name"@, sql_name)],
            ),
            "= "@ + call + chain + ";"@,
        ),
        words::has_piece(
            text::fill(
                t::RET_FIRST_INT@,
                seq![("i"@, i), ("call_expr"@, call), ("unwrap_chain"@, chain), ("sql_name"@, sql_name)],
            ),
            "Some(v) => Ok(SqlValue::Integer(*v as i64))"@,
        ),
        words::has_piece(
            text::fill(
                t::RET_FIRST_INT@,
                seq![("i"@, i), ("call_expr"@, call), ("unwrap_chain"@, chain), ("sql_name"@, sql_name)],
            ),
            "None => Ok(SqlValue::Null)"@,
        ),
{
    let s = t::RET_FIRST_INT@;
    reveal_strlit(r#"{{
{i}    let __r = {call_expr}{unwrap_chain};
{i}    match __r.first() {{
{i}        Some(v) => Ok(SqlValue::Integer(*v as i64)),
{i}        None => Ok(SqlValue::Null),
{i}    }}
{i}}}"#);
    reveal_with_fuel(text::plain_to, 31);
    let b = seq![("i"@, i), ("call_expr"@, call), ("unwrap_chain"@, chain), ("sql_name"@, sql_name)];
    lemma_holes(i, call, chain, "sql_name"@, sql_name);
    assert(words::has_piece(text::fill(t::RET_FIRST_INT@, b), "= "@ + call + chain + ";"@)) by {
        let before = text::lemma_fill_reaches(s, b, 6);
        reveal_strlit("    let __r ");
        assert(s.subrange(6, 18) =~= "    let __r "@);
        text::lemma_fill_run(s, b, 6, "    let __r "@);
        reveal_strlit("= ");
        assert(s.subrange(18, 20) =~= "= "@);
        text::lemma_fill_run(s, b, 18, "= "@);
        reveal_strlit("call_expr");
        assert(s.subrange(21, 30) =~= "call_expr"@);
        text::lemma_fill_hole(s, b, 20, "call_expr"@);
        reveal_strlit("unwrap_chain");
        assert(s.subrange(32, 44) =~= "unwrap_chain"@);
        text::lemma_fill_hole(s, b, 31, "unwrap_chain"@);
        reveal_strlit(";");
        assert(s.subrange(45, 46) =~= ";"@);
        text::lemma_fill_run(s, b, 45, ";"@);
        let rest = text::fill_from(s, b, 46);
        let part = "= "@ + call + chain + ";"@;
        assert(("= "@ + (call + (chain + (";"@ + rest)))) =~= part + rest);
        assert(before + ("    let __r "@ + (part + rest)) =~= (before + "    let __r "@) + (part + rest));
        words::lemma_piece_between(before + "    let __r "@, part, rest);
    }
    assert(words::has_piece(
        text::fill(t::RET_FIRST_INT@, b),
        "Some(v) => Ok(SqlValue::Integer(*v as i64))"@,
    )) by {
        let before = text::lemma_fill_reaches(s, b, 78);
        reveal_strlit("        ");
        assert(s.subrange(78, 86) =~= "        "@);
        text::lemma_fill_run(s, b, 78, "        "@);
        reveal_strlit("Some(v) => Ok(SqlValue::Intege");
        assert(s.subrange(86, 116) =~= "Some(v) => Ok(SqlValue::Intege"@);
        text::lemma_fill_run(s, b, 86, "Some(v) => Ok(SqlValue::Intege"@);
        reveal_strlit("r(*v as i64))");
        assert(s.subrange(116, 129) =~= "r(*v as i64))"@);
        text::lemma_fill_run(s, b, 116, "r(*v as i64))"@);
        let rest = text::fill_from(s, b, 129);
        let part = "Some(v) => Ok(SqlValue::Integer(*v as i64))"@;
        reveal_strlit("Some(v) => Ok(SqlValue::Integer(*v as i64))");
        assert(("Some(v) => Ok(SqlValue::Intege"@ + ("r(*v as i64))"@ + rest)) =~= part + rest);
        assert(before + ("        "@ + (part + rest)) =~= (before + "        "@) + (part + rest));
        words::lemma_piece_between(before + "        "@, part, rest);
    }
    assert(words::has_piece(text::fill(t::RET_FIRST_INT@, b), "None => Ok(SqlValue::Null)"@)) by {
        let before = text::lemma_fill_reaches(s, b, 134);
        reveal_strlit("        ");
        assert(s.subrange(134, 142) =~= "        "@);
        text::lemma_fill_run(s, b, 134, "        "@);
        reveal_strlit("None => Ok(SqlValue::Null)");
        assert(s.subrange(142, 168) =~= "None => Ok(SqlValue::Null)"@);
        text::lemma_fill_run(s, b, 142, "None => Ok(SqlValue::Null)"@);
        let rest = text::fill_from(s, b, 168);
        let part = "None => Ok(SqlValue::Null)"@;
        assert(before + ("        "@ + (part + rest)) =~= (before + "        "@) + (part + rest));
        words::lemma_piece_between(before + "        "@, part, rest);
    }
}

proof fn lemma_ret_first_real(i: Seq<char>, call: Seq<char>, chain: Seq<char>, sql_name: Seq<char>)
    ensures
        words::has_piece(
            text::fill(
                t::RET_FIRST_REAL@,
                seq![("i"@, i), ("call_expr"@, call), ("unwrap_chain"@, chain), ("sql_name"@, sql_name)],
            ),
            "= "@ + call + chain + ";"@,
        ),
        words::has_piece(
            text::fill(
                t::RET_FIRST_REAL@,
                seq![("i"@, i), ("call_expr"@, call), ("unwrap_chain"@, chain), ("sql_name"@, sql_name)],
            ),
            "Some(v) => Ok(SqlValue::Real(*v as f64))"@,
        ),
        words::has_piece(
            text::fill(
                t::RET_FIRST_REAL@,
                seq![("i"@, i), ("call_expr"@, call), ("unwrap_chain"@, chain), ("sql_name"@, sql_name)],
            ),
            "None => Ok(SqlValue::Null)"@,
        ),
{
    let s = t::RET_FIRST_REAL@;
    reveal_strlit(r#"{{
{i}    let __r = {call_expr}{unwrap_chain};
{i}    match __r.first() {{
{i}        Some(v) => Ok(SqlValue::Real(*v as f64)),
{i}        None => Ok(SqlValue::Null),
{i}    }}
{i}}}"#);
    reveal_with_fuel(text::plain_to, 31);
    let b = seq![("i"@, i), ("call_expr"@, call), ("unwrap_chain"@, chain), ("sql_name"@, sql_name)];
    lemma_holes(i, call, chain, "sql_name"@, sql_name);
    assert(words::has_piece(text::fill(t::RET_FIRST_REAL@, b), "= "@ + call + chain + ";"@)) by {
        let before = text::lemma_fill_reaches(s, b, 6);
        reveal_strlit("    let __r ");
        assert(s.subrange(6, 18) =~= "    let __r "@);
        text::lemma_fill_run(s, b, 6, "    let __r "@);
        reveal_strlit("= ");
        assert(s.subrange(18, 20) =~= "= "@);
        text::lemma_fill_run(s, b, 18, "= "@);
        reveal_strlit("call_expr");
        assert(s.subrange(21, 30) =~= "call_expr"@);
        text::lemma_fill_hole(s, b, 20, "call_expr"@);
        reveal_strlit("unwrap_chain");
        assert(s.subrange(32, 44) =~= "unwrap_chain"@);
        text::lemma_fill_hole(s, b, 31, "unwrap_chain"@);
        reveal_strlit(";");
        assert(s.subrange(45, 46) =~= ";"@);
        text::lemma_fill_run(s, b, 45, ";"@);
        let rest = text::fill_from(s, b, 46);
        let part = "= "@ + call + chain + ";"@;
        assert(("= "@ + (call + (chain + (";"@ + rest)))) =~= part + rest);
        assert(before + ("    let __r "@ + (part + rest)) =~= (before + "    let __r "@) + (part + rest));
        words::lemma_piece_between(before + "    let __r "@, part, rest);
    }
    assert(words::has_piece(
        text::fill(t::RET_FIRST_REAL@, b),
        "Some(v) => Ok(SqlValue::Real(*v as f64))"@,
    )) by {
        let before = text::lemma_fill_reaches(s, b, 78);
        reveal_strlit("        ");
        assert(s.subrange(78, 86) =~= "        "@);
        text::lemma_fill_run(s, b, 78, "        "@);
        reveal_strlit("Some(v) => Ok(SqlValue::Real(*");
        assert(s.subrange(86, 116) =~= "Some(v) => Ok(SqlValue::Real(*"@);
        text::lemma_fill_run(s, b, 86, "Some(v) => Ok(SqlValue::Real(*"@);
        reveal_strlit("v as f64))");
        assert(s.subrange(116, 126) =~= "v as f64))"@);
        text::lemma_fill_run(s, b, 116, "v as f64))"@);
        let rest = text::fill_from(s, b, 126);
        let part = "Some(v) => Ok(SqlValue::Real(*v as f64))"@;
        reveal_strlit("Some(v) => Ok(SqlValue::Real(*v as f64))");
        assert(("Some(v) => Ok(SqlValue::Real(*"@ + ("v as f64))"@ + rest)) =~= part + rest);
        assert(before + ("        "@ + (part + rest)) =~= (before + "        "@) + (part + rest));
        words::lemma_piece_between(before + "        "@, part, rest);
    }
    assert(words::has_piece(text::fill(t::RET_FIRST_REAL@, b), "None => Ok(SqlValue::Null)"@)) by {
        let before = text::lemma_fill_reaches(s, b, 131);
        reveal_strlit("        ");
        assert(s.subrange(131, 139) =~= "        "@);
        text::lemma_fill_run(s, b, 131, "        "@);
        reveal_strlit("None => Ok(SqlValue::Null)");
        assert(s.subrange(139, 165) =~= "None => Ok(SqlValue::Null)"@);
        text::lemma_fill_run(s, b, 139, "None => Ok(SqlValue::Null)"@);
        let rest = text::fill_from(s, b, 165);
        let part = "None => Ok(SqlValue::Null)"@;
        assert(before + ("        "@ + (part + rest)) =~= (before + "        "@) + (part + rest));
        words::lemma_piece_between(before + "        "@, part, rest);
    }
}

proof fn lemma_ret_first_text(i: Seq<char>, call: Seq<char>, chain: Seq<char>, sql_name: Seq<char>)
    ensures
        words::has_piece(
            text::fill(
                t::RET_FIRST_TEXT@,
                seq![("i"@, i), ("call_expr"@, call), ("unwrap_chain"@, chain), ("sql_name"@, sql_name)],
            ),
            "= "@ + call + chain + ";"@,
        ),
        words::has_piece(
            text::fill(
                t::RET_FIRST_TEXT@,
                seq![("i"@, i), ("call_expr"@, call), ("unwrap_chain"@, chain), ("sql_name"@, sql_name)],
            ),
            "Some(v) => Ok(SqlValue::Text(v))"@,
        ),
        words::has_piece(
            text::fill(
                t::RET_FIRST_TEXT@,
                seq![("i"@, i), ("call_expr"@, call), ("unwrap_chain"@, chain), ("sql_name"@, sql_name)],
            ),
            "None => Ok(SqlValue::Null)"@,
        ),
{
    let s = t::RET_FIRST_TEXT@;
    reveal_strlit(r#"{{
{i}    let __r = {call_expr}{unwrap_chain};
{i}    match __r.into_iter().next() {{
{i}        Some(v) => Ok(SqlValue::Text(v)),
{i}        None => Ok(SqlValue::Null),
{i}    }}
{i}}}"#);
    reveal_with_fuel(text::plain_to, 31);
    let b = seq![("i"@, i), ("call_expr"@, call), ("unwrap_chain"@, chain), ("sql_name"@, sql_name)];
    lemma_holes(i, call, chain, "sql_name"@, sql_name);
    assert(words::has_piece(text::fill(t::RET_FIRST_TEXT@, b), "= "@ + call + chain + ";"@)) by {
        let before = text::lemma_fill_reaches(s, b, 6);
        reveal_strlit("    let __r ");
        assert(s.subrange(6, 18) =~= "    let __r "@);
        text::lemma_fill_run(s, b, 6, "    let __r "@);
        reveal_strlit("= ");
        assert(s.subrange(18, 20) =~= "= "@);
        text::lemma_fill_run(s, b, 18, "= "@);
        reveal_strlit("call_expr");
        assert(s.subrange(21, 30) =~= "call_expr"@);
        text::lemma_fill_hole(s, b, 20, "call_expr"@);
        reveal_strlit("unwrap_chain");
        assert(s.subrange(32, 44) =~= "unwrap_chain"@);
        text::lemma_fill_hole(s, b, 31, "unwrap_chain"@);
        reveal_strlit(";");
        assert(s.subrange(45, 46) =~= ";"@);
        text::lemma_fill_run(s, b, 45, ";"@);
        let rest = text::fill_from(s, b, 46);
        let part = "= "@ + call + chain + ";"@;
        assert(("= "@ + (call + (chain + (";"@ + rest)))) =~= part + rest);
        assert(before + ("    let __r "@ + (part + rest)) =~= (before + "    let __r "@) + (part + rest));
        words::lemma_piece_between(before + "    let __r "@, part, rest);
    }
    assert(words::has_piece(text::fill(t::RET_FIRST_TEXT@, b), "Some(v) => Ok(SqlValue::Text(v))"@)) by {
        let before = text::lemma_fill_reaches(s, b, 89);
        reveal_strlit("        ");
        assert(s.subrange(89, 97) =~= "        "@);
        text::lemma_fill_run(s, b, 89, "        "@);
        reveal_strlit("Some(v) => Ok(SqlValue::Text(v");
        assert(s.subrange(97, 127) =~= "Some(v) => Ok(SqlValue::Text(v"@);
        text::lemma_fill_run(s, b, 97, "Some(v) => Ok(SqlValue::Text(v"@);
        reveal_strlit("))");
        assert(s.subrange(127, 129) =~= "))"@);
        text::lemma_fill_run(s, b, 127, "))"@);
        let rest = text::fill_from(s, b, 129);
        let part = "Some(v) => Ok(SqlValue::Text(v))"@;
        reveal_strlit("Some(v) => Ok(SqlValue::Text(v))");
        assert(("Some(v) => Ok(SqlValue::Text(v"@ + ("))"@ + rest)) =~= part + rest);
        assert(before + ("        "@ + (part + rest)) =~= (before + "        "@) + (part + rest));
        words::lemma_piece_between(before + "        "@, part, rest);
    }
    assert(words::has_piece(text::fill(t::RET_FIRST_TEXT@, b), "None => Ok(SqlValue::Null)"@)) by {
        let before = text::lemma_fill_reaches(s, b, 134);
        reveal_strlit("        ");
        assert(s.subrange(134, 142) =~= "        "@);
        text::lemma_fill_run(s, b, 134, "        "@);
        reveal_strlit("None => Ok(SqlValue::Null)");
        assert(s.subrange(142, 168) =~= "None => Ok(SqlValue::Null)"@);
        text::lemma_fill_run(s, b, 142, "None => Ok(SqlValue::Null)"@);
        let rest = text::fill_from(s, b, 168);
        let part = "None => Ok(SqlValue::Null)"@;
        assert(before + ("        "@ + (part + rest)) =~= (before + "        "@) + (part + rest));
        words::lemma_piece_between(before + "        "@, part, rest);
    }
}

proof fn lemma_ret_bbox(i: Seq<char>, call: Seq<char>, chain: Seq<char>, sql_name: Seq<char>)
    ensures
        words::has_piece(
            text::fill(
                t::RET_BBOX@,
                seq![("i"@, i), ("call_expr"@, call), ("unwrap_chain"@, chain), ("sql_name"@, sql_name)],
            ),
            "let __bb = "@ + call + chain + ";"@,
        ),
        words::has_piece(
            text::fill(
                t::RET_BBOX@,
                seq![("i"@, i), ("call_expr"@, call), ("unwrap_chain"@, chain), ("sql_name"@, sql_name)],
            ),
            "st_make_envelope(__bb.min_x, __bb.min_y, __bb.max_x, __bb.max_y)"@,
        ),
        words::has_piece(
            text::fill(
                t::RET_BBOX@,
                seq![("i"@, i), ("call_expr"@, call), ("unwrap_chain"@, chain), ("sql_name"@, sql_name)],
            ),
            "Ok(SqlValue::Blob(__env.as_wkb()))"@,
        ),
{
    let s = t::RET_BBOX@;
    reveal_strlit(r#"{{
{i}    let __bb = {call_expr}{unwrap_chain};
{i}    let __env = pg_ctor::st_make_envelope(__bb.min_x, __bb.min_y, __bb.max_x, __bb.max_y);
{i}    Ok(SqlValue::Blob(__env.as_wkb()))
{i}}}"#);
    reveal_with_fuel(text::plain_to, 31);
    let b = seq![("i"@, i), ("call_expr"@, call), ("unwrap_chain"@, chain), ("sql_name"@, sql_name)];
    lemma_holes(i, call, chain, "sql_name"@, sql_name);
    assert(words::has_piece(text::fill(t::RET_BBOX@, b), "let __bb = "@ + call + chain + ";"@)) by {
        let before = text::lemma_fill_reaches(s, b, 6);
        reveal_strlit("    ");
        assert(s.subrange(6, 10) =~= "    "@);
        text::lemma_fill_run(s, b, 6, "    "@);
        reveal_strlit("let __bb = ");
        assert(s.subrange(10, 21) =~= "let __bb = "@);
        text::lemma_fill_run(s, b, 10, "let __bb = "@);
        reveal_strlit("call_expr");
        assert(s.subrange(22, 31) =~= "call_expr"@);
        text::lemma_fill_hole(s, b, 21, "call_expr"@);
        reveal_strlit("unwrap_chain");
        assert(s.subrange(33, 45) =~= "unwrap_chain"@);
        text::lemma_fill_hole(s, b, 32, "unwrap_chain"@);
        reveal_strlit(";");
        assert(s.subrange(46, 47) =~= ";"@);
        text::lemma_fill_run(s, b, 46, ";"@);
        let rest = text::fill_from(s, b, 47);
        let part = "let __bb = "@ + call + chain + ";"@;
        assert(("let __bb = "@ + (call + (chain + (";"@ + rest)))) =~= part + rest);
        assert(before + ("    "@ + (part + rest)) =~= (before + "    "@) + (part + rest));
        words::lemma_piece_between(before + "    "@, part, rest);
    }
    assert(words::has_piece(
        text::fill(t::RET_BBOX@, b),
        "st_make_envelope(__bb.min_x, __bb.min_y, __bb.max_x, __bb.max_y)"@,
    )) by {
        let before = text::lemma_fill_reaches(s, b, 51);
        reveal_strlit("    let __env = pg_ctor::");
        assert(s.subrange(51, 76) =~= "    let __env = pg_ctor::"@);
        text::lemma_fill_run(s, b, 51, "    let __env = pg_ctor::"@);
        reveal_strlit("st_make_envelope(__bb.min_x, _");
        assert(s.subrange(76, 106) =~= "st_make_envelope(__bb.min_x, _"@);
        text::lemma_fill_run(s, b, 76, "st_make_envelope(__bb.min_x, _"@);
        reveal_strlit("_bb.min_y, __bb.max_x, __bb.ma");
        assert(s.subrange(106, 136) =~= "_bb.min_y, __bb.max_x, __bb.ma"@);
        text::lemma_fill_run(s, b, 106, "_bb.min_y, __bb.max_x, __bb.ma"@);
        reveal_strlit("x_y)");
        assert(s.subrange(136, 140) =~= "x_y)"@);
        text::lemma_fill_run(s, b, 136, "x_y)"@);
        let rest = text::fill_from(s, b, 140);
        let part = "st_make_envelope(__bb.min_x, __bb.min_y, __bb.max_x, __bb.max_y)"@;
        reveal_strlit("st_make_envelope(__bb.min_x, __bb.min_y, __bb.max_x, __bb.max_y)");
        assert((
            "st_make_envelope(__bb.min_x, _"@
                + ("_bb.min_y, __bb.max_x, __bb.ma"@ + ("x_y)"@ + rest))
        )
            =~= part + rest);
        assert(before + ("    let __env = pg_ctor::"@ + (part + rest))
            =~= (before + "    let __env = pg_ctor::"@) + (part + rest));
        words::lemma_piece_between(before + "    let __env = pg_ctor::"@, part, rest);
    }
    assert(words::has_piece(text::fill(t::RET_BBOX@, b), "Ok(SqlValue::Blob(__env.as_wkb()))"@)) by {
        let before = text::lemma_fill_reaches(s, b, 145);
        reveal_strlit("    ");
        assert(s.subrange(145, 149) =~= "    "@);
        text::lemma_fill_run(s, b, 145, "    "@);
        reveal_strlit("Ok(SqlValue::Blob(__env.as_wkb");
        assert(s.subrange(149, 179) =~= "Ok(SqlValue::Blob(__env.as_wkb"@);
        text::lemma_fill_run(s, b, 149, "Ok(SqlValue::Blob(__env.as_wkb"@);
        reveal_strlit("()))");
        assert(s.subrange(179, 183) =~= "()))"@);
        text::lemma_fill_run(s, b, 179, "()))"@);
        let rest = text::fill_from(s, b, 183);
        let part = "Ok(SqlValue::Blob(__env.as_wkb()))"@;
        reveal_strlit("Ok(SqlValue::Blob(__env.as_wkb()))");
        assert(("Ok(SqlValue::Blob(__env.as_wkb"@ + ("()))"@ + rest)) =~= part + rest);
        assert(before + ("    "@ + (part + rest)) =~= (before + "    "@) + (part + rest));
        words::lemma_piece_between(before + "    "@, part, rest);
    }
}

proof fn lemma_ret_is_valid_detail(
    i: Seq<char>,
    call: Seq<char>,
    chain: Seq<char>,
    sql_name: Seq<char>,
)
    ensures
        words::has_piece(
            text::fill(
                t::RET_IS_VALID_DETAIL@,
                seq![("i"@, i), ("call_expr"@, call), ("unwrap_chain"@, chain), ("sql_name"@, sql_name)],
            ),
            "let (__valid, __reason, __loc) = "@ + call + chain + ";"@,
        ),
        words::has_piece(
            text::fill(
                t::RET_IS_VALID_DETAIL@,
                seq![("i"@, i), ("call_expr"@, call), ("unwrap_chain"@, chain), ("sql_name"@, sql_name)],
            ),
            "Ok(SqlValue::Text(format!("@,
        ),
        words::has_piece(
            text::fill(
                t::RET_IS_VALID_DETAIL@,
                seq![("i"@, i), ("call_expr"@, call), ("unwrap_chain"@, chain), ("sql_name"@, sql_name)],
            ),
            "__valid, __reason_s, __loc_s"@,
        ),
{
    let s = t::RET_IS_VALID_DETAIL@;
    reveal_strlit(r#"{{
{i}    let (__valid, __reason, __loc) = {call_expr}{unwrap_chain};
{i}    let __reason_s = __reason.unwrap_or_default();
{i}    let __loc_s = match __loc {{
{i}        Some(g) => pg_out::st_as_text(&g),
{i}        None => alloc::string::String::new(),
{i}    }};
{i}    Ok(SqlValue::Text(format!(
{i}        "({{}},\"{{}}\",\"{{}}\")",
{i}        __valid, __reason_s, __loc_s
{i}    )))
{i}}}"#);
    reveal_with_fuel(text::plain_to, 31);
    let b = seq![("i"@, i), ("call_expr"@, call), ("unwrap_chain"@, chain), ("sql_name"@, sql_name)];
    lemma_holes(i, call, chain, "sql_name"@, sql_name);
    assert(words::has_piece(
        text::fill(t::RET_IS_VALID_DETAIL@, b),
        "let (__valid, __reason, __loc) = "@ + call + chain + ";"@,
    )) by {
        let before = text::lemma_fill_reaches(s, b, 6);
        reveal_strlit("    ");
        assert(s.subrange(6, 10) =~= "    "@);
        text::lemma_fill_run(s, b, 6, "    "@);
        reveal_strlit("let (__valid, __reason, __loc)");
        assert(s.subrange(10, 40) =~= "let (__valid, __reason, __loc)"@);
        text::lemma_fill_run(s, b, 10, "let (__valid, __reason, __loc)"@);
        reveal_strlit(" = ");
        assert(s.subrange(40, 43) =~= " = "@);
        text::lemma_fill_run(s, b, 40, " = "@);
        reveal_strlit("call_expr");
        assert(s.subrange(44, 53) =~= "call_expr"@);
        text::lemma_fill_hole(s, b, 43, "call_expr"@);
        reveal_strlit("unwrap_chain");
        assert(s.subrange(55, 67) =~= "unwrap_chain"@);
        text::lemma_fill_hole(s, b, 54, "unwrap_chain"@);
        reveal_strlit(";");
        assert(s.subrange(68, 69) =~= ";"@);
        text::lemma_fill_run(s, b, 68, ";"@);
        let rest = text::fill_from(s, b, 69);
        let part = "let (__valid, __reason, __loc) = "@ + call + chain + ";"@;
        reveal_strlit("let (__valid, __reason, __loc) = ");
        assert(("let (__valid, __reason, __loc)"@ + (" = "@ + (call + (chain + (";"@ + rest)))))
            =~= part + rest);
        assert(before + ("    "@ + (part + rest)) =~= (before + "    "@) + (part + rest));
        words::lemma_piece_between(before + "    "@, part, rest);
    }
    assert(words::has_piece(text::fill(t::RET_IS_VALID_DETAIL@, b), "Ok(SqlValue::Text(format!("@)) by {
        let before = text::lemma_fill_reaches(s, b, 269);
        reveal_strlit("    ");
        assert(s.subrange(269, 273) =~= "    "@);
        text::lemma_fill_run(s, b, 269, "    "@);
        reveal_strlit("Ok(SqlValue::Text(format!(");
        assert(s.subrange(273, 299) =~= "Ok(SqlValue::Text(format!("@);
        text::lemma_fill_run(s, b, 273, "Ok(SqlValue::Text(format!("@);
        let rest = text::fill_from(s, b, 299);
        let part = "Ok(SqlValue::Text(format!("@;
        assert(before + ("    "@ + (part + rest)) =~= (before + "    "@) + (part + rest));
        words::lemma_piece_between(before + "    "@, part, rest);
    }
    assert(words::has_piece(text::fill(t::RET_IS_VALID_DETAIL@, b), "__valid, __reason_s, __loc_s"@)) by {
        let before = text::lemma_fill_reaches(s, b, 342);
        reveal_strlit("        ");
        assert(s.subrange(342, 350) =~= "        "@);
        text::lemma_fill_run(s, b, 342, "        "@);
        reveal_strlit("__valid, __reason_s, __loc_s");
        assert(s.subrange(350, 378) =~= "__valid, __reason_s, __loc_s"@);
        text::lemma_fill_run(s, b, 350, "__valid, __reason_s, __loc_s"@);
        let rest = text::fill_from(s, b, 378);
        let part = "__valid, __reason_s, __loc_s"@;
        assert(before + ("        "@ + (part + rest)) =~= (before + "        "@) + (part + rest));
        words::lemma_piece_between(before + "        "@, part, rest);
    }
}

proof fn lemma_ret_bbox3d(i: Seq<char>, call: Seq<char>, chain: Seq<char>, sql_name: Seq<char>)
    ensures
        words::has_piece(
            text::fill(
                t::RET_BBOX3D@,
                seq![("i"@, i), ("call_expr"@, call), ("unwrap_chain"@, chain), ("sql_name"@, sql_name)],
            ),
            "let __bb = "@ + call + chain + ";"@,
        ),
        words::has_piece(
            text::fill(
                t::RET_BBOX3D@,
                seq![("i"@, i), ("call_expr"@, call), ("unwrap_chain"@, chain), ("sql_name"@, sql_name)],
            ),
            "Ok(SqlValue::Blob(__wkb))"@,
        ),
{
    let s = t::RET_BBOX3D@;
    reveal_strlit(r#"{{
{i}    let __bb = {call_expr}{unwrap_chain};
{i}    let mut __wkb: Vec<u8> = Vec::with_capacity(57);
{i}    // ISO-WKB header: little-endian, type 1002 (LINESTRING Z), 2 points.
{i}    __wkb.push(0x01u8);
{i}    __wkb.extend_from_slice(&1002u32.to_le_bytes());
{i}    __wkb.extend_from_slice(&2u32.to_le_bytes());
{i}    __wkb.extend_from_slice(&__bb.min_x.to_le_bytes());
{i}    __wkb.extend_from_slice(&__bb.min_y.to_le_bytes());
{i}    __wkb.extend_from_slice(&__bb.min_z.to_le_bytes());
{i}    __wkb.extend_from_slice(&__bb.max_x.to_le_bytes());
{i}    __wkb.extend_from_slice(&__bb.max_y.to_le_bytes());
{i}    __wkb.extend_from_slice(&__bb.max_z.to_le_bytes());
{i}    Ok(SqlValue::Blob(__wkb))
{i}}}"#);
    reveal_with_fuel(text::plain_to, 31);
    let b = seq![("i"@, i), ("call_expr"@, call), ("unwrap_chain"@, chain), ("sql_name"@, sql_name)];
    lemma_holes(i, call, chain, "sql_name"@, sql_name);
    assert(words::has_piece(text::fill(t::RET_BBOX3D@, b), "let __bb = "@ + call + chain + ";"@)) by {
        let before = text::lemma_fill_reaches(s, b, 6);
        reveal_strlit("    ");
        assert(s.subrange(6, 10) =~= "    "@);
        text::lemma_fill_run(s, b, 6, "    "@);
        reveal_strlit("let __bb = ");
        assert(s.subrange(10, 21) =~= "let __bb = "@);
        text::lemma_fill_run(s, b, 10, "let __bb = "@);
        reveal_strlit("call_expr");
        assert(s.subrange(22, 31) =~= "call_expr"@);
        text::lemma_fill_hole(s, b, 21, "call_expr"@);
        reveal_strlit("unwrap_chain");
        assert(s.subrange(33, 45) =~= "unwrap_chain"@);
        text::lemma_fill_hole(s, b, 32, "unwrap_chain"@);
        reveal_strlit(";");
        assert(s.subrange(46, 47) =~= ";"@);
        text::lemma_fill_run(s, b, 46, ";"@);
        let rest = text::fill_from(s, b, 47);
        let part = "let __bb = "@ + call + chain + ";"@;
        assert(("let __bb = "@ + (call + (chain + (";"@ + rest)))) =~= part + rest);
        assert(before + ("    "@ + (part + rest)) =~= (before + "    "@) + (part + rest));
        words::lemma_piece_between(before + "    "@, part, rest);
    }
    assert(words::has_piece(text::fill(t::RET_BBOX3D@, b), "Ok(SqlValue::Blob(__wkb))"@)) by {
        let before = text::lemma_fill_reaches(s, b, 674);
        reveal_strlit("    ");
        assert(s.subrange(674, 678) =~= "    "@);
        text::lemma_fill_run(s, b, 674, "    "@);
        reveal_strlit("Ok(SqlValue::Blob(__wkb))");
        assert(s.subrange(678, 703) =~= "Ok(SqlValue::Blob(__wkb))"@);
        text::lemma_fill_run(s, b, 678, "Ok(SqlValue::Blob(__wkb))"@);
        let rest = text::fill_from(s, b, 703);
        let part = "Ok(SqlValue::Blob(__wkb))"@;
        assert(before + ("    "@ + (part + rest)) =~= (before + "    "@) + (part + rest));
        words::lemma_piece_between(before + "    "@, part, rest);
    }
}

proof fn lemma_ret_geom(i: Seq<char>, call: Seq<char>, chain: Seq<char>, sql_name: Seq<char>)
    ensures
        words::has_piece(
            text::fill(
                t::RET_GEOM@,
                seq![("i"@, i), ("call_expr"@, call), ("unwrap_chain"@, chain), ("sql_name"@, sql_name)],
            ),
            "Ok(SqlValue::Blob("@ + call + ".as_wkb()))"@,
        ),
{
    let s = t::RET_GEOM@;
    reveal_strlit("Ok(SqlValue::Blob({call_expr}.as_wkb()))");
    reveal_with_fuel(text::plain_to, 31);
    let b = seq![("i"@, i), ("call_expr"@, call), ("unwrap_chain"@, chain), ("sql_name"@, sql_name)];
    lemma_holes(i, call, chain, "sql_name"@, sql_name);
    assert(words::has_piece(text::fill(t::RET_GEOM@, b), "Ok(SqlValue::Blob("@ + call + ".as_wkb()))"@)) by {
        let before = text::lemma_fill_reaches(s, b, 0);
        reveal_strlit("Ok(SqlValue::Blob(");
        assert(s.subrange(0, 18) =~= "Ok(SqlValue::Blob("@);
        text::lemma_fill_run(s, b, 0, "Ok(SqlValue::Blob("@);
        reveal_strlit("call_expr");
        assert(s.subrange(19, 28) =~= "call_expr"@);
        text::lemma_fill_hole(s, b, 18, "call_expr"@);
        reveal_strlit(".as_wkb()))");
        assert(s.subrange(29, 40) =~= ".as_wkb()))"@);
        text::lemma_fill_run(s, b, 29, ".as_wkb()))"@);
        let rest = text::fill_from(s, b, 40);
        let part = "Ok(SqlValue::Blob("@ + call + ".as_wkb()))"@;
        assert(("Ok(SqlValue::Blob("@ + (call + (".as_wkb()))"@ + rest))) =~= part + rest);
        words::lemma_piece_between(before, part, rest);
    }
}

proof fn lemma_ret_geom_fallible(
    i: Seq<char>,
    call: Seq<char>,
    chain: Seq<char>,
    sql_name: Seq<char>,
)
    ensures
        words::has_piece(
            text::fill(
                t::RET_GEOM_FALLIBLE@,
                seq![("i"@, i), ("call_expr"@, call), ("unwrap_chain"@, chain), ("sql_name"@, sql_name)],
            ),
            "let __r = "@ + call + chain + ";"@,
        ),
        words::has_piece(
            text::fill(
                t::RET_GEOM_FALLIBLE@,
                seq![("i"@, i), ("call_expr"@, call), ("unwrap_chain"@, chain), ("sql_name"@, sql_name)],
            ),
            "Ok(SqlValue::Blob(__r.as_wkb()))"@,
        ),
{
    let s = t::RET_GEOM_FALLIBLE@;
    reveal_strlit(r#"let __r = {call_expr}{unwrap_chain};
{i}Ok(SqlValue::Blob(__r.as_wkb()))"#);
    reveal_with_fuel(text::plain_to, 31);
    let b = seq![("i"@, i), ("call_expr"@, call), ("unwrap_chain"@, chain), ("sql_name"@, sql_name)];
    lemma_holes(i, call, chain, "sql_name"@, sql_name);
    assert(words::has_piece(text::fill(t::RET_GEOM_FALLIBLE@, b), "let __r = "@ + call + chain + ";"@)) by {
        let before = text::lemma_fill_reaches(s, b, 0);
        reveal_strlit("let __r = ");
        assert(s.subrange(0, 10) =~= "let __r = "@);
        text::lemma_fill_run(s, b, 0, "let __r = "@);
        reveal_strlit("call_expr");
        assert(s.subrange(11, 20) =~= "call_expr"@);
        text::lemma_fill_hole(s, b, 10, "call_expr"@);
        reveal_strlit("unwrap_chain");
        assert(s.subrange(22, 34) =~= "unwrap_chain"@);
        text::lemma_fill_hole(s, b, 21, "unwrap_chain"@);
        reveal_strlit(";");
        assert(s.subrange(35, 36) =~= ";"@);
        text::lemma_fill_run(s, b, 35, ";"@);
        let rest = text::fill_from(s, b, 36);
        let part = "let __r = "@ + call + chain + ";"@;
        assert(("let __r = "@ + (call + (chain + (";"@ + rest)))) =~= part + rest);
        words::lemma_piece_between(before, part, rest);
    }
    assert(words::has_piece(text::fill(t::RET_GEOM_FALLIBLE@, b), "Ok(SqlValue::Blob(__r.as_wkb()))"@)) by {
        let before = text::lemma_fill_reaches(s, b, 40);
        reveal_strlit("Ok(SqlValue::Blob(__r.as_wkb()");
        assert(s.subrange(40, 70) =~= "Ok(SqlValue::Blob(__r.as_wkb()"@);
        text::lemma_fill_run(s, b, 40, "Ok(SqlValue::Blob(__r.as_wkb()"@);
        reveal_strlit("))");
        assert(s.subrange(70, 72) =~= "))"@);
        text::lemma_fill_run(s, b, 70, "))"@);
        let rest = text::fill_from(s, b, 72);
        let part = "Ok(SqlValue::Blob(__r.as_wkb()))"@;
        reveal_strlit("Ok(SqlValue::Blob(__r.as_wkb()))");
        assert(("Ok(SqlValue::Blob(__r.as_wkb()"@ + ("))"@ + rest)) =~= part + rest);
        words::lemma_piece_between(before, part, rest);
    }
}

proof fn lemma_ret_raster(i: Seq<char>, call: Seq<char>, chain: Seq<char>, sql_name: Seq<char>)
    ensures
        words::has_piece(
            text::fill(
                t::RET_RASTER@,
                seq![("i"@, i), ("call_expr"@, call), ("unwrap_chain"@, chain), ("sql_name"@, sql_name)],
            ),
            "Ok(SqlValue::Blob("@ + call + ".as_binary()))"@,
        ),
{
    let s = t::RET_RASTER@;
    reveal_strlit("Ok(SqlValue::Blob({call_expr}.as_binary()))");
    reveal_with_fuel(text::plain_to, 31);
    let b = seq![("i"@, i), ("call_expr"@, call), ("unwrap_chain"@, chain), ("sql_name"@, sql_name)];
    lemma_holes(i, call, chain, "sql_name"@, sql_name);
    assert(words::has_piece(
        text::fill(t::RET_RASTER@, b),
        "Ok(SqlValue::Blob("@ + call + ".as_binary()))"@,
    )) by {
        let before = text::lemma_fill_reaches(s, b, 0);
        reveal_strlit("Ok(SqlValue::Blob(");
        assert(s.subrange(0, 18) =~= "Ok(SqlValue::Blob("@);
        text::lemma_fill_run(s, b, 0, "Ok(SqlValue::Blob("@);
        reveal_strlit("call_expr");
        assert(s.subrange(19, 28) =~= "call_expr"@);
        text::lemma_fill_hole(s, b, 18, "call_expr"@);
        reveal_strlit(".as_binary()))");
        assert(s.subrange(29, 43) =~= ".as_binary()))"@);
        text::lemma_fill_run(s, b, 29, ".as_binary()))"@);
        let rest = text::fill_from(s, b, 43);
        let part = "Ok(SqlValue::Blob("@ + call + ".as_binary()))"@;
        assert(("Ok(SqlValue::Blob("@ + (call + (".as_binary()))"@ + rest))) =~= part + rest);
        words::lemma_piece_between(before, part, rest);
    }
}

proof fn lemma_ret_raster_fallible(
    i: Seq<char>,
    call: Seq<char>,
    chain: Seq<char>,
    sql_name: Seq<char>,
)
    ensures
        words::has_piece(
            text::fill(
                t::RET_RASTER_FALLIBLE@,
                seq![("i"@, i), ("call_expr"@, call), ("unwrap_chain"@, chain), ("sql_name"@, sql_name)],
            ),
            "let __r = "@ + call + chain + ";"@,
        ),
        words::has_piece(
            text::fill(
                t::RET_RASTER_FALLIBLE@,
                seq![("i"@, i), ("call_expr"@, call), ("unwrap_chain"@, chain), ("sql_name"@, sql_name)],
            ),
            "Ok(SqlValue::Blob(__r.as_binary()))"@,
        ),
{
    let s = t::RET_RASTER_FALLIBLE@;
    reveal_strlit(r#"let __r = {call_expr}{unwrap_chain};
{i}Ok(SqlValue::Blob(__r.as_binary()))"#);
    reveal_with_fuel(text::plain_to, 31);
    let b = seq![("i"@, i), ("call_expr"@, call), ("unwrap_chain"@, chain), ("sql_name"@, sql_name)];
    lemma_holes(i, call, chain, "sql_name"@, sql_name);
    assert(words::has_piece(text::fill(t::RET_RASTER_FALLIBLE@, b), "let __r = "@ + call + chain + ";"@)) by {
        let before = text::lemma_fill_reaches(s, b, 0);
        reveal_strlit("let __r = ");
        assert(s.subrange(0, 10) =~= "let __r = "@);
        text::lemma_fill_run(s, b, 0, "let __r = "@);
        reveal_strlit("call_expr");
        assert(s.subrange(11, 20) =~= "call_expr"@);
        text::lemma_fill_hole(s, b, 10, "call_expr"@);
        reveal_strlit("unwrap_chain");
        assert(s.subrange(22, 34) =~= "unwrap_chain"@);
        text::lemma_fill_hole(s, b, 21, "unwrap_chain"@);
        reveal_strlit(";");
        assert(s.subrange(35, 36) =~= ";"@);
        text::lemma_fill_run(s, b, 35, ";"@);
        let rest = text::fill_from(s, b, 36);
        let part = "let __r = "@ + call + chain + ";"@;
        assert(("let __r = "@ + (call + (chain + (";"@ + rest)))) =~= part + rest);
        words::lemma_piece_between(before, part, rest);
    }
    assert(words::has_piece(
        text::fill(t::RET_RASTER_FALLIBLE@, b),
        "Ok(SqlValue::Blob(__r.as_binary()))"@,
    )) by {
        let before = text::lemma_fill_reaches(s, b, 40);
        reveal_strlit("Ok(SqlValue::Blob(__r.as_binar");
        assert(s.subrange(40, 70) =~= "Ok(SqlValue::Blob(__r.as_binar"@);
        text::lemma_fill_run(s, b, 40, "Ok(SqlValue::Blob(__r.as_binar"@);
        reveal_strlit("y()))");
        assert(s.subrange(70, 75) =~= "y()))"@);
        text::lemma_fill_run(s, b, 70, "y()))"@);
        let rest = text::fill_from(s, b, 75);
        let part = "Ok(SqlValue::Blob(__r.as_binary()))"@;
        reveal_strlit("Ok(SqlValue::Blob(__r.as_binary()))");
        assert(("Ok(SqlValue::Blob(__r.as_binar"@ + ("y()))"@ + rest)) =~= part + rest);
        words::lemma_piece_between(before, part, rest);
    }
}

proof fn lemma_ret_topology(i: Seq<char>, call: Seq<char>, chain: Seq<char>, sql_name: Seq<char>)
    ensures
        words::has_piece(
            text::fill(
                t::RET_TOPOLOGY@,
                seq![("i"@, i), ("call_expr"@, call), ("unwrap_chain"@, chain), ("sql_name"@, sql_name)],
            ),
            "Ok(SqlValue::Blob("@ + call + ".to_bytes()))"@,
        ),
{
    let s = t::RET_TOPOLOGY@;
    reveal_strlit("Ok(SqlValue::Blob({call_expr}.to_bytes()))");
    reveal_with_fuel(text::plain_to, 31);
    let b = seq![("i"@, i), ("call_expr"@, call), ("unwrap_chain"@, chain), ("sql_name"@, sql_name)];
    lemma_holes(i, call, chain, "sql_name"@, sql_name);
    assert(words::has_piece(
        text::fill(t::RET_TOPOLOGY@, b),
        "Ok(SqlValue::Blob("@ + call + ".to_bytes()))"@,
    )) by {
        let before = text::lemma_fill_reaches(s, b, 0);
        reveal_strlit("Ok(SqlValue::Blob(");
        assert(s.subrange(0, 18) =~= "Ok(SqlValue::Blob("@);
        text::lemma_fill_run(s, b, 0, "Ok(SqlValue::Blob("@);
        reveal_strlit("call_expr");
        assert(s.subrange(19, 28) =~= "call_expr"@);
        text::lemma_fill_hole(s, b, 18, "call_expr"@);
        reveal_strlit(".to_bytes()))");
        assert(s.subrange(29, 42) =~= ".to_bytes()))"@);
        text::lemma_fill_run(s, b, 29, ".to_bytes()))"@);
        let rest = text::fill_from(s, b, 42);
        let part = "Ok(SqlValue::Blob("@ + call + ".to_bytes()))"@;
        assert(("Ok(SqlValue::Blob("@ + (call + (".to_bytes()))"@ + rest))) =~= part + rest);
        words::lemma_piece_between(before, part, rest);
    }
}

proof fn lemma_ret_topology_fallible(
    i: Seq<char>,
    call: Seq<char>,
    chain: Seq<char>,
    sql_name: Seq<char>,
)
    ensures
        words::has_piece(
            text::fill(
                t::RET_TOPOLOGY_FALLIBLE@,
                seq![("i"@, i), ("call_expr"@, call), ("unwrap_chain"@, chain), ("sql_name"@, sql_name)],
            ),
            "let __r = "@ + call + chain + ";"@,
        ),
        words::has_piece(
            text::fill(
                t::RET_TOPOLOGY_FALLIBLE@,
                seq![("i"@, i), ("call_expr"@, call), ("unwrap_chain"@, chain), ("sql_name"@, sql_name)],
            ),
            "Ok(SqlValue::Blob(__r.to_bytes()))"@,
        ),
{
    let s = t::RET_TOPOLOGY_FALLIBLE@;
    reveal_strlit(r#"let __r = {call_expr}{unwrap_chain};
{i}Ok(SqlValue::Blob(__r.to_bytes()))"#);
    reveal_with_fuel(text::plain_to, 31);
    let b = seq![("i"@, i), ("call_expr"@, call), ("unwrap_chain"@, chain), ("sql_name"@, sql_name)];
    lemma_holes(i, call, chain, "sql_name"@, sql_name);
    assert(words::has_piece(text::fill(t::RET_TOPOLOGY_FALLIBLE@, b), "let __r = "@ + call + chain + ";"@)) by {
        let before = text::lemma_fill_reaches(s, b, 0);
        reveal_strlit("let __r = ");
        assert(s.subrange(0, 10) =~= "let __r = "@);
        text::lemma_fill_run(s, b, 0, "let __r = "@);
        reveal_strlit("call_expr");
        assert(s.subrange(11, 20) =~= "call_expr"@);
        text::lemma_fill_hole(s, b, 10, "call_expr"@);
        reveal_strlit("unwrap_chain");
        assert(s.subrange(22, 34) =~= "unwrap_chain"@);
        text::lemma_fill_hole(s, b, 21, "unwrap_chain"@);
        reveal_strlit(";");
        assert(s.subrange(35, 36) =~= ";"@);
        text::lemma_fill_run(s, b, 35, ";"@);
        let rest = text::fill_from(s, b, 36);
        let part = "let __r = "@ + call + chain + ";"@;
        assert(("let __r = "@ + (call + (chain + (";"@ + rest)))) =~= part + rest);
        words::lemma_piece_between(before, part, rest);
    }
    assert(words::has_piece(
        text::fill(t::RET_TOPOLOGY_FALLIBLE@, b),
        "Ok(SqlValue::Blob(__r.to_bytes()))"@,
    )) by {
        let before = text::lemma_fill_reaches(s, b, 40);
        reveal_strlit("Ok(SqlValue::Blob(__r.to_bytes");
        assert(s.subrange(40, 70) =~= "Ok(SqlValue::Blob(__r.to_bytes"@);
        text::lemma_fill_run(s, b, 40, "Ok(SqlValue::Blob(__r.to_bytes"@);
        reveal_strlit("()))");
        assert(s.subrange(70, 74) =~= "()))"@);
        text::lemma_fill_run(s, b, 70, "()))"@);
        let rest = text::fill_from(s, b, 74);
        let part = "Ok(SqlValue::Blob(__r.to_bytes()))"@;
        reveal_strlit("Ok(SqlValue::Blob(__r.to_bytes()))");
        assert(("Ok(SqlValue::Blob(__r.to_bytes"@ + ("()))"@ + rest)) =~= part + rest);
        words::lemma_piece_between(before, part, rest);
    }
}

proof fn lemma_ret_json(i: Seq<char>, call: Seq<char>, chain: Seq<char>, sql_name: Seq<char>)
    ensures
        words::has_piece(
            text::fill(
                t::RET_JSON@,
                seq![("i"@, i), ("call_expr"@, call), ("unwrap_chain"@, chain), ("sql_name"@, sql_name)],
            ),
            "let __r = "@ + call + chain + ";"@,
        ),
        words::has_piece(
            text::fill(
                t::RET_JSON@,
                seq![("i"@, i), ("call_expr"@, call), ("unwrap_chain"@, chain), ("sql_name"@, sql_name)],
            ),
            "serde_json::to_string(&__r)"@,
        ),
        words::has_piece(
            text::fill(
                t::RET_JSON@,
                seq![("i"@, i), ("call_expr"@, call), ("unwrap_chain"@, chain), ("sql_name"@, sql_name)],
            ),
            "Ok(SqlValue::Text(__json))"@,
        ),
{
    let s = t::RET_JSON@;
    reveal_strlit(r#"{{
{i}    let __r = {call_expr}{unwrap_chain};
{i}    let __json = serde_json::to_string(&__r)
{i}        .map_err(|e| format!("{sql_name}: encode JSON: {{}}", e))?;
{i}    Ok(SqlValue::Text(__json))
{i}}}"#);
    reveal_with_fuel(text::plain_to, 31);
    let b = seq![("i"@, i), ("call_expr"@, call), ("unwrap_chain"@, chain), ("sql_name"@, sql_name)];
    lemma_holes(i, call, chain, "sql_name"@, sql_name);
    assert(words::has_piece(text::fill(t::RET_JSON@, b), "let __r = "@ + call + chain + ";"@)) by {
        let before = text::lemma_fill_reaches(s, b, 6);
        reveal_strlit("    ");
        assert(s.subrange(6, 10) =~= "    "@);
        text::lemma_fill_run(s, b, 6, "    "@);
        reveal_strlit("let __r = ");
        assert(s.subrange(10, 20) =~= "let __r = "@);
        text::lemma_fill_run(s, b, 10, "let __r = "@);
        reveal_strlit("call_expr");
        assert(s.subrange(21, 30) =~= "call_expr"@);
        text::lemma_fill_hole(s, b, 20, "call_expr"@);
        reveal_strlit("unwrap_chain");
        assert(s.subrange(32, 44) =~= "unwrap_chain"@);
        text::lemma_fill_hole(s, b, 31, "unwrap_chain"@);
        reveal_strlit(";");
        assert(s.subrange(45, 46) =~= ";"@);
        text::lemma_fill_run(s, b, 45, ";"@);
        let rest = text::fill_from(s, b, 46);
        let part = "let __r = "@ + call + chain + ";"@;
        assert(("let __r = "@ + (call + (chain + (";"@ + rest)))) =~= part + rest);
        assert(before + ("    "@ + (part + rest)) =~= (before + "    "@) + (part + rest));
        words::lemma_piece_between(before + "    "@, part, rest);
    }
    assert(words::has_piece(text::fill(t::RET_JSON@, b), "serde_json::to_string(&__r)"@)) by {
        let before = text::lemma_fill_reaches(s, b, 50);
        reveal_strlit("    let __json = ");
        assert(s.subrange(50, 67) =~= "    let __json = "@);
        text::lemma_fill_run(s, b, 50, "    let __json = "@);
        reveal_strlit("serde_json::to_string(&__r)");
        assert(s.subrange(67, 94) =~= "serde_json::to_string(&__r)"@);
        text::lemma_fill_run(s, b, 67, "serde_json::to_string(&__r)"@);
        let rest = text::fill_from(s, b, 94);
        let part = "serde_json::to_string(&__r)"@;
        assert(before + ("    let __json = "@ + (part + rest))
            =~= (before + "    let __json = "@) + (part + rest));
        words::lemma_piece_between(before + "    let __json = "@, part, rest);
    }
    assert(words::has_piece(text::fill(t::RET_JSON@, b), "Ok(SqlValue::Text(__json))"@)) by {
        let before = text::lemma_fill_reaches(s, b, 169);
        reveal_strlit("    ");
        assert(s.subrange(169, 173) =~= "    "@);
        text::lemma_fill_run(s, b, 169, "    "@);
        reveal_strlit("Ok(SqlValue::Text(__json))");
        assert(s.subrange(173, 199) =~= "Ok(SqlValue::Text(__json))"@);
        text::lemma_fill_run(s, b, 173, "Ok(SqlValue::Text(__json))"@);
        let rest = text::fill_from(s, b, 199);
        let part = "Ok(SqlValue::Text(__json))"@;
        assert(before + ("    "@ + (part + rest)) =~= (before + "    "@) + (part + rest));
        words::lemma_piece_between(before + "    "@, part, rest);
    }
}

proof fn lemma_ret_json_option_tuple(
    i: Seq<char>,
    call: Seq<char>,
    chain: Seq<char>,
    sql_name: Seq<char>,
)
    ensures
        words::has_piece(
            text::fill(
                t::RET_JSON_OPTION_TUPLE@,
                seq![("i"@, i), ("call_expr"@, call), ("unwrap_chain"@, chain), ("sql_name"@, sql_name)],
            ),
            "match "@ + call + chain + " "@,
        ),
        words::has_piece(
            text::fill(
                t::RET_JSON_OPTION_TUPLE@,
                seq![("i"@, i), ("call_expr"@, call), ("unwrap_chain"@, chain), ("sql_name"@, sql_name)],
            ),
            "serde_json::to_string(&__t)"@,
        ),
        words::has_piece(
            text::fill(
                t::RET_JSON_OPTION_TUPLE@,
                seq![("i"@, i), ("call_expr"@, call), ("unwrap_chain"@, chain), ("sql_name"@, sql_name)],
            ),
            "Ok(SqlValue::Text(__json))"@,
        ),
        words::has_piece(
            text::fill(
                t::RET_JSON_OPTION_TUPLE@,
                seq![("i"@, i), ("call_expr"@, call), ("unwrap_chain"@, chain), ("sql_name"@, sql_name)],
            ),
            "None => Ok(SqlValue::Null)"@,
        ),
{
    let s = t::RET_JSON_OPTION_TUPLE@;
    reveal_strlit(r#"{{
{i}    match {call_expr}{unwrap_chain} {{
{i}        Some(__t) => {{
{i}            let __json = serde_json::to_string(&__t)
{i}                .map_err(|e| format!("{sql_name}: encode JSON: {{}}", e))?;
{i}            Ok(SqlValue::Text(__json))
{i}        }}
{i}        None => Ok(SqlValue::Null),
{i}    }}
{i}}}"#);
    reveal_with_fuel(text::plain_to, 31);
    let b = seq![("i"@, i), ("call_expr"@, call), ("unwrap_chain"@, chain), ("sql_name"@, sql_name)];
    lemma_holes(i, call, chain, "sql_name"@, sql_name);
    assert(words::has_piece(text::fill(t::RET_JSON_OPTION_TUPLE@, b), "match "@ + call + chain + " "@)) by {
        let before = text::lemma_fill_reaches(s, b, 6);
        reveal_strlit("    ");
        assert(s.subrange(6, 10) =~= "    "@);
        text::lemma_fill_run(s, b, 6, "    "@);
        reveal_strlit("match ");
        assert(s.subrange(10, 16) =~= "match "@);
        text::lemma_fill_run(s, b, 10, "match "@);
        reveal_strlit("call_expr");
        assert(s.subrange(17, 26) =~= "call_expr"@);
        text::lemma_fill_hole(s, b, 16, "call_expr"@);
        reveal_strlit("unwrap_chain");
        assert(s.subrange(28, 40) =~= "unwrap_chain"@);
        text::lemma_fill_hole(s, b, 27, "unwrap_chain"@);
        reveal_strlit(" ");
        assert(s.subrange(41, 42) =~= " "@);
        text::lemma_fill_run(s, b, 41, " "@);
        let rest = text::fill_from(s, b, 42);
        let part = "match "@ + call + chain + " "@;
        assert(("match "@ + (call + (chain + (" "@ + rest)))) =~= part + rest);
        assert(before + ("    "@ + (part + rest)) =~= (before + "    "@) + (part + rest));
        words::lemma_piece_between(before + "    "@, part, rest);
    }
    assert(words::has_piece(text::fill(t::RET_JSON_OPTION_TUPLE@, b), "serde_json::to_string(&__t)"@)) by {
        let before = text::lemma_fill_reaches(s, b, 75);
        reveal_strlit("            let __json = ");
        assert(s.subrange(75, 100) =~= "            let __json = "@);
        text::lemma_fill_run(s, b, 75, "            let __json = "@);
        reveal_strlit("serde_json::to_string(&__t)");
        assert(s.subrange(100, 127) =~= "serde_json::to_string(&__t)"@);
        text::lemma_fill_run(s, b, 100, "serde_json::to_string(&__t)"@);
        let rest = text::fill_from(s, b, 127);
        let part = "serde_json::to_string(&__t)"@;
        assert(before + ("            let __json = "@ + (part + rest))
            =~= (before + "            let __json = "@) + (part + rest));
        words::lemma_piece_between(before + "            let __json = "@, part, rest);
    }
    assert(words::has_piece(text::fill(t::RET_JSON_OPTION_TUPLE@, b), "Ok(SqlValue::Text(__json))"@)) by {
        let before = text::lemma_fill_reaches(s, b, 210);
        reveal_strlit("            ");
        assert(s.subrange(210, 222) =~= "            "@);
        text::lemma_fill_run(s, b, 210, "            "@);
        reveal_strlit("Ok(SqlValue::Text(__json))");
        assert(s.subrange(222, 248) =~= "Ok(SqlValue::Text(__json))"@);
        text::lemma_fill_run(s, b, 222, "Ok(SqlValue::Text(__json))"@);
        let rest = text::fill_from(s, b, 248);
        let part = "Ok(SqlValue::Text(__json))"@;
        assert(before + ("            "@ + (part + rest)) =~= (before + "            "@) + (part + rest));
        words::lemma_piece_between(before + "            "@, part, rest);
    }
    assert(words::has_piece(text::fill(t::RET_JSON_OPTION_TUPLE@, b), "None => Ok(SqlValue::Null)"@)) by {
        let before = text::lemma_fill_reaches(s, b, 266);
        reveal_strlit("        ");
        assert(s.subrange(266, 274) =~= "        "@);
        text::lemma_fill_run(s, b, 266, "        "@);
        reveal_strlit("None => Ok(SqlValue::Null)");
        assert(s.subrange(274, 300) =~= "None => Ok(SqlValue::Null)"@);
        text::lemma_fill_run(s, b, 274, "None => Ok(SqlValue::Null)"@);
        let rest = text::fill_from(s, b, 300);
        let part = "None => Ok(SqlValue::Null)"@;
        assert(before + ("        "@ + (part + rest)) =~= (before + "        "@) + (part + rest));
        words::lemma_piece_between(before + "        "@, part, rest);
    }
}

proof fn lemma_ret_json_option_list(
    i: Seq<char>,
    call: Seq<char>,
    chain: Seq<char>,
    sql_name: Seq<char>,
)
    ensures
        words::has_piece(
            text::fill(
                t::RET_JSON_OPTION_LIST@,
                seq![("i"@, i), ("call_expr"@, call), ("unwrap_chain"@, chain), ("sql_name"@, sql_name)],
            ),
            "match "@ + call + chain + " "@,
        ),
        words::has_piece(
            text::fill(
                t::RET_JSON_OPTION_LIST@,
                seq![("i"@, i), ("call_expr"@, call), ("unwrap_chain"@, chain), ("sql_name"@, sql_name)],
            ),
            "serde_json::to_string(&__v)"@,
        ),
        words::has_piece(
            text::fill(
                t::RET_JSON_OPTION_LIST@,
                seq![("i"@, i), ("call_expr"@, call), ("unwrap_chain"@, chain), ("sql_name"@, sql_name)],
            ),
            "Ok(SqlValue::Text(__json))"@,
        ),
        words::has_piece(
            text::fill(
                t::RET_JSON_OPTION_LIST@,
                seq![("i"@, i), ("call_expr"@, call), ("unwrap_chain"@, chain), ("sql_name"@, sql_name)],
            ),
            "None => Ok(SqlValue::Null)"@,
        ),
{
    let s = t::RET_JSON_OPTION_LIST@;
    reveal_strlit(r#"{{
{i}    match {call_expr}{unwrap_chain} {{
{i}        Some(__v) => {{
{i}            let __json = serde_json::to_string(&__v)
{i}                .map_err(|e| format!("{sql_name}: encode JSON: {{}}", e))?;
{i}            Ok(SqlValue::Text(__json))
{i}        }}
{i}        None => Ok(SqlValue::Null),
{i}    }}
{i}}}"#);
    reveal_with_fuel(text::plain_to, 31);
    let b = seq![("i"@, i), ("call_expr"@, call), ("unwrap_chain"@, chain), ("sql_name"@, sql_name)];
    lemma_holes(i, call, chain, "sql_name"@, sql_name);
    assert(words::has_piece(text::fill(t::RET_JSON_OPTION_LIST@, b), "match "@ + call + chain + " "@)) by {
        let before = text::lemma_fill_reaches(s, b, 6);
        reveal_strlit("    ");
        assert(s.subrange(6, 10) =~= "    "@);
        text::lemma_fill_run(s, b, 6, "    "@);
        reveal_strlit("match ");
        assert(s.subrange(10, 16) =~= "match "@);
        text::lemma_fill_run(s, b, 10, "match "@);
        reveal_strlit("call_expr");
        assert(s.subrange(17, 26) =~= "call_expr"@);
        text::lemma_fill_hole(s, b, 16, "call_expr"@);
        reveal_strlit("unwrap_chain");
        assert(s.subrange(28, 40) =~= "unwrap_chain"@);
        text::lemma_fill_hole(s, b, 27, "unwrap_chain"@);
        reveal_strlit(" ");
        assert(s.subrange(41, 42) =~= " "@);
        text::lemma_fill_run(s, b, 41, " "@);
        let rest = text::fill_from(s, b, 42);
        let part = "match "@ + call + chain + " "@;
        assert(("match "@ + (call + (chain + (" "@ + rest)))) =~= part + rest);
        assert(before + ("    "@ + (part + rest)) =~= (before + "    "@) + (part + rest));
        words::lemma_piece_between(before + "    "@, part, rest);
    }
    assert(words::has_piece(text::fill(t::RET_JSON_OPTION_LIST@, b), "serde_json::to_string(&__v)"@)) by {
        let before = text::lemma_fill_reaches(s, b, 75);
        reveal_strlit("            let __json = ");
        assert(s.subrange(75, 100) =~= "            let __json = "@);
        text::lemma_fill_run(s, b, 75, "            let __json = "@);
        reveal_strlit("serde_json::to_string(&__v)");
        assert(s.subrange(100, 127) =~= "serde_json::to_string(&__v)"@);
        text::lemma_fill_run(s, b, 100, "serde_json::to_string(&__v)"@);
        let rest = text::fill_from(s, b, 127);
        let part = "serde_json::to_string(&__v)"@;
        assert(before + ("            let __json = "@ + (part + rest))
            =~= (before + "            let __json = "@) + (part + rest));
        words::lemma_piece_between(before + "            let __json = "@, part, rest);
    }
    assert(words::has_piece(text::fill(t::RET_JSON_OPTION_LIST@, b), "Ok(SqlValue::Text(__json))"@)) by {
        let before = text::lemma_fill_reaches(s, b, 210);
        reveal_strlit("            ");
        assert(s.subrange(210, 222) =~= "            "@);
        text::lemma_fill_run(s, b, 210, "            "@);
        reveal_strlit("Ok(SqlValue::Text(__json))");
        assert(s.subrange(222, 248) =~= "Ok(SqlValue::Text(__json))"@);
        text::lemma_fill_run(s, b, 222, "Ok(SqlValue::Text(__json))"@);
        let rest = text::fill_from(s, b, 248);
        let part = "Ok(SqlValue::Text(__json))"@;
        assert(before + ("            "@ + (part + rest)) =~= (before + "            "@) + (part + rest));
        words::lemma_piece_between(before + "            "@, part, rest);
    }
    assert(words::has_piece(text::fill(t::RET_JSON_OPTION_LIST@, b), "None => Ok(SqlValue::Null)"@)) by {
        let before = text::lemma_fill_reaches(s, b, 266);
        reveal_strlit("        ");
        assert(s.subrange(266, 274) =~= "        "@);
        text::lemma_fill_run(s, b, 266, "        "@);
        reveal_strlit("None => Ok(SqlValue::Null)");
        assert(s.subrange(274, 300) =~= "None => Ok(SqlValue::Null)"@);
        text::lemma_fill_run(s, b, 274, "None => Ok(SqlValue::Null)"@);
        let rest = text::fill_from(s, b, 300);
        let part = "None => Ok(SqlValue::Null)"@;
        assert(before + ("        "@ + (part + rest)) =~= (before + "        "@) + (part + rest));
        words::lemma_piece_between(before + "        "@, part, rest);
    }
}

proof fn lemma_ret_json_geom_list(
    i: Seq<char>,
    call: Seq<char>,
    chain: Seq<char>,
    sql_name: Seq<char>,
)
    ensures
        words::has_piece(
            text::fill(
                t::RET_JSON_GEOM_LIST@,
                seq![("i"@, i), ("call_expr"@, call), ("unwrap_chain"@, chain), ("sql_name"@, sql_name)],
            ),
            "let __r = "@ + call + chain + ";"@,
        ),
        words::has_piece(
            text::fill(
                t::RET_JSON_GEOM_LIST@,
                seq![("i"@, i), ("call_expr"@, call), ("unwrap_chain"@, chain), ("sql_name"@, sql_name)],
            ),
            "let __wkb = __g.as_wkb();"@,
        ),
        words::has_piece(
            text::fill(
                t::RET_JSON_GEOM_LIST@,
                seq![("i"@, i), ("call_expr"@, call), ("unwrap_chain"@, chain), ("sql_name"@, sql_name)],
            ),
            "serde_json::to_string(&__v)"@,
        ),
        words::has_piece(
            text::fill(
                t::RET_JSON_GEOM_LIST@,
                seq![("i"@, i), ("call_expr"@, call), ("unwrap_chain"@, chain), ("sql_name"@, sql_name)],
            ),
            "Ok(SqlValue::Text(__out))"@,
        ),
{
    let s = t::RET_JSON_GEOM_LIST@;
    reveal_strlit(r#"{{
{i}    let __r = {call_expr}{unwrap_chain};
{i}    let mut __out = alloc::string::String::from("[");
{i}    for (__i, (__g, __v)) in __r.into_iter().enumerate() {{
{i}        if __i > 0 {{ __out.push(','); }}
{i}        let __wkb = __g.as_wkb();
{i}        __out.push_str("[\"");
{i}        for __b in __wkb {{
{i}            use core::fmt::Write as _;
{i}            let _ = write!(&mut __out, "{{:02x}}", __b);
{i}        }}
{i}        __out.push_str("\",");
{i}        let __vj = serde_json::to_string(&__v)
{i}            .map_err(|e| format!("{sql_name}: encode JSON: {{}}", e))?;
{i}        __out.push_str(&__vj);
{i}        __out.push(']');
{i}    }}
{i}    __out.push(']');
{i}    Ok(SqlValue::Text(__out))
{i}}}"#);
    reveal_with_fuel(text::plain_to, 31);
    let b = seq![("i"@, i), ("call_expr"@, call), ("unwrap_chain"@, chain), ("sql_name"@, sql_name)];
    lemma_holes(i, call, chain, "sql_name"@, sql_name);
    assert(words::has_piece(text::fill(t::RET_JSON_GEOM_LIST@, b), "let __r = "@ + call + chain + ";"@)) by {
        let before = text::lemma_fill_reaches(s, b, 6);
        reveal_strlit("    ");
        assert(s.subrange(6, 10) =~= "    "@);
        text::lemma_fill_run(s, b, 6, "    "@);
        reveal_strlit("let __r = ");
        assert(s.subrange(10, 20) =~= "let __r = "@);
        text::lemma_fill_run(s, b, 10, "let __r = "@);
        reveal_strlit("call_expr");
        assert(s.subrange(21, 30) =~= "call_expr"@);
        text::lemma_fill_hole(s, b, 20, "call_expr"@);
        reveal_strlit("unwrap_chain");
        assert(s.subrange(32, 44) =~= "unwrap_chain"@);
        text::lemma_fill_hole(s, b, 31, "unwrap_chain"@);
        reveal_strlit(";");
        assert(s.subrange(45, 46) =~= ";"@);
        text::lemma_fill_run(s, b, 45, ";"@);
        let rest = text::fill_from(s, b, 46);
        let part = "let __r = "@ + call + chain + ";"@;
        assert(("let __r = "@ + (call + (chain + (";"@ + rest)))) =~= part + rest);
        assert(before + ("    "@ + (part + rest)) =~= (before + "    "@) + (part + rest));
        words::lemma_piece_between(before + "    "@, part, rest);
    }
    assert(words::has_piece(text::fill(t::RET_JSON_GEOM_LIST@, b), "let __wkb = __g.as_wkb();"@)) by {
        let before = text::lemma_fill_reaches(s, b, 215);
        reveal_strlit("        ");
        assert(s.subrange(215, 223) =~= "        "@);
        text::lemma_fill_run(s, b, 215, "        "@);
        reveal_strlit("let __wkb = __g.as_wkb();");
        assert(s.subrange(223, 248) =~= "let __wkb = __g.as_wkb();"@);
        text::lemma_fill_run(s, b, 223, "let __wkb = __g.as_wkb();"@);
        let rest = text::fill_from(s, b, 248);
        let part = "let __wkb = __g.as_wkb();"@;
        assert(before + ("        "@ + (part + rest)) =~= (before + "        "@) + (part + rest));
        words::lemma_piece_between(before + "        "@, part, rest);
    }
    assert(words::has_piece(text::fill(t::RET_JSON_GEOM_LIST@, b), "serde_json::to_string(&__v)"@)) by {
        let before = text::lemma_fill_reaches(s, b, 467);
        reveal_strlit("        let __vj = ");
        assert(s.subrange(467, 486) =~= "        let __vj = "@);
        text::lemma_fill_run(s, b, 467, "        let __vj = "@);
        reveal_strlit("serde_json::to_string(&__v)");
        assert(s.subrange(486, 513) =~= "serde_json::to_string(&__v)"@);
        text::lemma_fill_run(s, b, 486, "serde_json::to_string(&__v)"@);
        let rest = text::fill_from(s, b, 513);
        let part = "serde_json::to_string(&__v)"@;
        assert(before + ("        let __vj = "@ + (part + rest))
            =~= (before + "        let __vj = "@) + (part + rest));
        words::lemma_piece_between(before + "        let __vj = "@, part, rest);
    }
    assert(words::has_piece(text::fill(t::RET_JSON_GEOM_LIST@, b), "Ok(SqlValue::Text(__out))"@)) by {
        let before = text::lemma_fill_reaches(s, b, 688);
        reveal_strlit("    ");
        assert(s.subrange(688, 692) =~= "    "@);
        text::lemma_fill_run(s, b, 688, "    "@);
        reveal_strlit("Ok(SqlValue::Text(__out))");
        assert(s.subrange(692, 717) =~= "Ok(SqlValue::Text(__out))"@);
        text::lemma_fill_run(s, b, 692, "Ok(SqlValue::Text(__out))"@);
        let rest = text::fill_from(s, b, 717);
        let part = "Ok(SqlValue::Text(__out))"@;
        assert(before + ("    "@ + (part + rest)) =~= (before + "    "@) + (part + rest));
        words::lemma_piece_between(before + "    "@, part, rest);
    }
}

proof fn lemma_ret_enum(i: Seq<char>, call: Seq<char>, chain: Seq<char>, arms: Seq<char>)
    ensures
        words::has_piece(
            text::fill(
                t::RET_ENUM@,
                seq![("i"@, i), ("call_expr"@, call), ("unwrap_chain"@, chain), ("arms"@, arms)],
            ),
            "let __r = "@ + call + chain + ";"@,
        ),
        words::has_piece(
            text::fill(
                t::RET_ENUM@,
                seq![("i"@, i), ("call_expr"@, call), ("unwrap_chain"@, chain), ("arms"@, arms)],
            ),
            "let __disc: i64 = match __r "@,
        ),
        words::has_piece(
            text::fill(
                t::RET_ENUM@,
                seq![("i"@, i), ("call_expr"@, call), ("unwrap_chain"@, chain), ("arms"@, arms)],
            ),
            arms,
        ),
        words::has_piece(
            text::fill(
                t::RET_ENUM@,
                seq![("i"@, i), ("call_expr"@, call), ("unwrap_chain"@, chain), ("arms"@, arms)],
            ),
            "Ok(SqlValue::Integer(__disc))"@,
        ),
{
    let s = t::RET_ENUM@;
    reveal_strlit(r#"{{
{i}    let __r = {call_expr}{unwrap_chain};
{i}    let __disc: i64 = match __r {{
{arms}{i}    }};
{i}    Ok(SqlValue::Integer(__disc))
{i}}}"#);
    reveal_with_fuel(text::plain_to, 31);
    let b = seq![("i"@, i), ("call_expr"@, call), ("unwrap_chain"@, chain), ("arms"@, arms)];
    lemma_holes(i, call, chain, "arms"@, arms);
    assert(words::has_piece(text::fill(t::RET_ENUM@, b), "let __r = "@ + call + chain + ";"@)) by {
        let before = text::lemma_fill_reaches(s, b, 6);
        reveal_strlit("    ");
        assert(s.subrange(6, 10) =~= "    "@);
        text::lemma_fill_run(s, b, 6, "    "@);
        reveal_strlit("let __r = ");
        assert(s.subrange(10, 20) =~= "let __r = "@);
        text::lemma_fill_run(s, b, 10, "let __r = "@);
        reveal_strlit("call_expr");
        assert(s.subrange(21, 30) =~= "call_expr"@);
        text::lemma_fill_hole(s, b, 20, "call_expr"@);
        reveal_strlit("unwrap_chain");
        assert(s.subrange(32, 44) =~= "unwrap_chain"@);
        text::lemma_fill_hole(s, b, 31, "unwrap_chain"@);
        reveal_strlit(";");
        assert(s.subrange(45, 46) =~= ";"@);
        text::lemma_fill_run(s, b, 45, ";"@);
        let rest = text::fill_from(s, b, 46);
        let part = "let __r = "@ + call + chain + ";"@;
        assert(("let __r = "@ + (call + (chain + (";"@ + rest)))) =~= part + rest);
        assert(before + ("    "@ + (part + rest)) =~= (before + "    "@) + (part + rest));
        words::lemma_piece_between(before + "    "@, part, rest);
    }
    assert(words::has_piece(text::fill(t::RET_ENUM@, b), "let __disc: i64 = match __r "@)) by {
        let before = text::lemma_fill_reaches(s, b, 50);
        reveal_strlit("    ");
        assert(s.subrange(50, 54) =~= "    "@);
        text::lemma_fill_run(s, b, 50, "    "@);
        reveal_strlit("let __disc: i64 = match __r ");
        assert(s.subrange(54, 82) =~= "let __disc: i64 = match __r "@);
        text::lemma_fill_run(s, b, 54, "let __disc: i64 = match __r "@);
        let rest = text::fill_from(s, b, 82);
        let part = "let __disc: i64 = match __r "@;
        assert(before + ("    "@ + (part + rest)) =~= (before + "    "@) + (part + rest));
        words::lemma_piece_between(before + "    "@, part, rest);
    }
    assert(words::has_piece(text::fill(t::RET_ENUM@, b), arms)) by {
        let before = text::lemma_fill_reaches(s, b, 50);
        reveal_strlit("    let __disc: i64 = match __");
        assert(s.subrange(50, 80) =~= "    let __disc: i64 = match __"@);
        text::lemma_fill_run(s, b, 50, "    let __disc: i64 = match __"@);
        reveal_strlit("r ");
        assert(s.subrange(80, 82) =~= "r "@);
        text::lemma_fill_run(s, b, 80, "r "@);
        assert(text::fill_from(s, b, 82) == seq!['{'] + text::fill_from(s, b, 84));
        reveal_strlit("\n");
        assert(s.subrange(84, 85) =~= "\n"@);
        text::lemma_fill_run(s, b, 84, "\n"@);
        reveal_strlit("arms");
        assert(s.subrange(86, 90) =~= "arms"@);
        text::lemma_fill_hole(s, b, 85, "arms"@);
        let rest = text::fill_from(s, b, 91);
        let part = arms;
        assert(before
            + ("    let __disc: i64 = match __"@ + ("r "@ + (seq!['{'] + ("\n"@ + (part + rest)))))
            =~= (before + "    let __disc: i64 = match __"@ + "r "@ + seq!['{'] + "\n"@)
                + (part + rest));
        words::lemma_piece_between(
            before + "    let __disc: i64 = match __"@ + "r "@ + seq!['{'] + "\n"@,
            part,
            rest,
        );
    }
    assert(words::has_piece(text::fill(t::RET_ENUM@, b), "Ok(SqlValue::Integer(__disc))"@)) by {
        let before = text::lemma_fill_reaches(s, b, 105);
        reveal_strlit("    ");
        assert(s.subrange(105, 109) =~= "    "@);
        text::lemma_fill_run(s, b, 105, "    "@);
        reveal_strlit("Ok(SqlValue::Integer(__disc))");
        assert(s.subrange(109, 138) =~= "Ok(SqlValue::Integer(__disc))"@);
        text::lemma_fill_run(s, b, 109, "Ok(SqlValue::Integer(__disc))"@);
        let rest = text::fill_from(s, b, 138);
        let part = "Ok(SqlValue::Integer(__disc))"@;
        assert(before + ("    "@ + (part + rest)) =~= (before + "    "@) + (part + rest));
        words::lemma_piece_between(before + "    "@, part, rest);
    }
}

proof fn lemma_ret_tuple_pick(
    i: Seq<char>,
    call: Seq<char>,
    chain: Seq<char>,
    variant: Seq<char>,
    source: Seq<char>,
)
    ensures
        words::has_piece(
            text::fill(
                t::RET_TUPLE_PICK@,
                seq![("i"@, i), ("call_expr"@, call), ("unwrap_chain"@, chain), ("variant"@, variant), ("expr_suffix"@, source)],
            ),
            "let __r = "@ + call + chain + ";"@,
        ),
        words::has_piece(
            text::fill(
                t::RET_TUPLE_PICK@,
                seq![("i"@, i), ("call_expr"@, call), ("unwrap_chain"@, chain), ("variant"@, variant), ("expr_suffix"@, source)],
            ),
            "Ok(SqlValue::"@ + variant + "("@ + source + "))"@,
        ),
{
    let s = t::RET_TUPLE_PICK@;
    reveal_strlit(r#"{{
{i}    let __r = {call_expr}{unwrap_chain};
{i}    Ok(SqlValue::{variant}({expr_suffix}))
{i}}}"#);
    reveal_with_fuel(text::plain_to, 31);
    let b = seq![("i"@, i), ("call_expr"@, call), ("unwrap_chain"@, chain), ("variant"@, variant), ("expr_suffix"@, source)];
    lemma_pick_holes(i, call, chain, variant, source);
    assert(words::has_piece(text::fill(t::RET_TUPLE_PICK@, b), "let __r = "@ + call + chain + ";"@)) by {
        let before = text::lemma_fill_reaches(s, b, 6);
        reveal_strlit("    ");
        assert(s.subrange(6, 10) =~= "    "@);
        text::lemma_fill_run(s, b, 6, "    "@);
        reveal_strlit("let __r = ");
        assert(s.subrange(10, 20) =~= "let __r = "@);
        text::lemma_fill_run(s, b, 10, "let __r = "@);
        reveal_strlit("call_expr");
        assert(s.subrange(21, 30) =~= "call_expr"@);
        text::lemma_fill_hole(s, b, 20, "call_expr"@);
        reveal_strlit("unwrap_chain");
        assert(s.subrange(32, 44) =~= "unwrap_chain"@);
        text::lemma_fill_hole(s, b, 31, "unwrap_chain"@);
        reveal_strlit(";");
        assert(s.subrange(45, 46) =~= ";"@);
        text::lemma_fill_run(s, b, 45, ";"@);
        let rest = text::fill_from(s, b, 46);
        let part = "let __r = "@ + call + chain + ";"@;
        assert(("let __r = "@ + (call + (chain + (";"@ + rest)))) =~= part + rest);
        assert(before + ("    "@ + (part + rest)) =~= (before + "    "@) + (part + rest));
        words::lemma_piece_between(before + "    "@, part, rest);
    }
    assert(words::has_piece(
        text::fill(t::RET_TUPLE_PICK@, b),
        "Ok(SqlValue::"@ + variant + "("@ + source + "))"@,
    )) by {
        let before = text::lemma_fill_reaches(s, b, 50);
        reveal_strlit("    ");
        assert(s.subrange(50, 54) =~= "    "@);
        text::lemma_fill_run(s, b, 50, "    "@);
        reveal_strlit("Ok(SqlValue::");
        assert(s.subrange(54, 67) =~= "Ok(SqlValue::"@);
        text::lemma_fill_run(s, b, 54, "Ok(SqlValue::"@);
        reveal_strlit("variant");
        assert(s.subrange(68, 75) =~= "variant"@);
        text::lemma_fill_hole(s, b, 67, "variant"@);
        reveal_strlit("(");
        assert(s.subrange(76, 77) =~= "("@);
        text::lemma_fill_run(s, b, 76, "("@);
        reveal_strlit("expr_suffix");
        assert(s.subrange(78, 89) =~= "expr_suffix"@);
        text::lemma_fill_hole(s, b, 77, "expr_suffix"@);
        reveal_strlit("))");
        assert(s.subrange(90, 92) =~= "))"@);
        text::lemma_fill_run(s, b, 90, "))"@);
        let rest = text::fill_from(s, b, 92);
        let part = "Ok(SqlValue::"@ + variant + "("@ + source + "))"@;
        assert(("Ok(SqlValue::"@ + (variant + ("("@ + (source + ("))"@ + rest))))) =~= part + rest);
        assert(before + ("    "@ + (part + rest)) =~= (before + "    "@) + (part + rest));
        words::lemma_piece_between(before + "    "@, part, rest);
    }
}

proof fn lemma_ret_wit_value(i: Seq<char>, call: Seq<char>, chain: Seq<char>, snake: Seq<char>)
    ensures
        words::has_piece(
            text::fill(
                t::RET_WIT_VALUE@,
                seq![("i"@, i), ("call_expr"@, call), ("unwrap_chain"@, chain), ("snake"@, snake)],
            ),
            "ret_to_witvalue_"@ + snake + "("@ + call + chain + ")"@,
        ),
{
    let s = t::RET_WIT_VALUE@;
    reveal_strlit("ret_to_witvalue_{snake}({call_expr}{unwrap_chain})");
    reveal_with_fuel(text::plain_to, 31);
    let b = seq![("i"@, i), ("call_expr"@, call), ("unwrap_chain"@, chain), ("snake"@, snake)];
    lemma_holes(i, call, chain, "snake"@, snake);
    assert(words::has_piece(
        text::fill(t::RET_WIT_VALUE@, b),
        "ret_to_witvalue_"@ + snake + "("@ + call + chain + ")"@,
    )) by {
        let before = text::lemma_fill_reaches(s, b, 0);
        reveal_strlit("ret_to_witvalue_");
        assert(s.subrange(0, 16) =~= "ret_to_witvalue_"@);
        text::lemma_fill_run(s, b, 0, "ret_to_witvalue_"@);
        reveal_strlit("snake");
        assert(s.subrange(17, 22) =~= "snake"@);
        text::lemma_fill_hole(s, b, 16, "snake"@);
        reveal_strlit("(");
        assert(s.subrange(23, 24) =~= "("@);
        text::lemma_fill_run(s, b, 23, "("@);
        reveal_strlit("call_expr");
        assert(s.subrange(25, 34) =~= "call_expr"@);
        text::lemma_fill_hole(s, b, 24, "call_expr"@);
        reveal_strlit("unwrap_chain");
        assert(s.subrange(36, 48) =~= "unwrap_chain"@);
        text::lemma_fill_hole(s, b, 35, "unwrap_chain"@);
        reveal_strlit(")");
        assert(s.subrange(49, 50) =~= ")"@);
        text::lemma_fill_run(s, b, 49, ")"@);
        let rest = text::fill_from(s, b, 50);
        let part = "ret_to_witvalue_"@ + snake + "("@ + call + chain + ")"@;
        assert(("ret_to_witvalue_"@ + (snake + ("("@ + (call + (chain + (")"@ + rest)))))) =~= part + rest);
        words::lemma_piece_between(before, part, rest);
    }
}

proof fn lemma_ret_option_wit_value(
    i: Seq<char>,
    call: Seq<char>,
    chain: Seq<char>,
    snake: Seq<char>,
)
    ensures
        words::has_piece(
            text::fill(
                t::RET_OPTION_WIT_VALUE@,
                seq![("i"@, i), ("call_expr"@, call), ("unwrap_chain"@, chain), ("snake"@, snake)],
            ),
            "match "@ + call + chain + " "@,
        ),
        words::has_piece(
            text::fill(
                t::RET_OPTION_WIT_VALUE@,
                seq![("i"@, i), ("call_expr"@, call), ("unwrap_chain"@, chain), ("snake"@, snake)],
            ),
            "Some(__rec) => ret_to_witvalue_"@ + snake + "(__rec)"@,
        ),
        words::has_piece(
            text::fill(
                t::RET_OPTION_WIT_VALUE@,
                seq![("i"@, i), ("call_expr"@, call), ("unwrap_chain"@, chain), ("snake"@, snake)],
            ),
            "None => Ok(SqlValue::Null)"@,
        ),
{
    let s = t::RET_OPTION_WIT_VALUE@;
    reveal_strlit(r#"match {call_expr}{unwrap_chain} {{
{i}    Some(__rec) => ret_to_witvalue_{snake}(__rec),
{i}    None => Ok(SqlValue::Null),
{i}}}"#);
    reveal_with_fuel(text::plain_to, 31);
    let b = seq![("i"@, i), ("call_expr"@, call), ("unwrap_chain"@, chain), ("snake"@, snake)];
    lemma_holes(i, call, chain, "snake"@, snake);
    assert(words::has_piece(text::fill(t::RET_OPTION_WIT_VALUE@, b), "match "@ + call + chain + " "@)) by {
        let before = text::lemma_fill_reaches(s, b, 0);
        reveal_strlit("match ");
        assert(s.subrange(0, 6) =~= "match "@);
        text::lemma_fill_run(s, b, 0, "match "@);
        reveal_strlit("call_expr");
        assert(s.subrange(7, 16) =~= "call_expr"@);
        text::lemma_fill_hole(s, b, 6, "call_expr"@);
        reveal_strlit("unwrap_chain");
        assert(s.subrange(18, 30) =~= "unwrap_chain"@);
        text::lemma_fill_hole(s, b, 17, "unwrap_chain"@);
        reveal_strlit(" ");
        assert(s.subrange(31, 32) =~= " "@);
        text::lemma_fill_run(s, b, 31, " "@);
        let rest = text::fill_from(s, b, 32);
        let part = "match "@ + call + chain + " "@;
        assert(("match "@ + (call + (chain + (" "@ + rest)))) =~= part + rest);
        words::lemma_piece_between(before, part, rest);
    }
    assert(words::has_piece(
        text::fill(t::RET_OPTION_WIT_VALUE@, b),
        "Some(__rec) => ret_to_witvalue_"@ + snake + "(__rec)"@,
    )) by {
        let before = text::lemma_fill_reaches(s, b, 38);
        reveal_strlit("    ");
        assert(s.subrange(38, 42) =~= "    "@);
        text::lemma_fill_run(s, b, 38, "    "@);
        reveal_strlit("Some(__rec) => ret_to_witvalue");
        assert(s.subrange(42, 72) =~= "Some(__rec) => ret_to_witvalue"@);
        text::lemma_fill_run(s, b, 42, "Some(__rec) => ret_to_witvalue"@);
        reveal_strlit("_");
        assert(s.subrange(72, 73) =~= "_"@);
        text::lemma_fill_run(s, b, 72, "_"@);
        reveal_strlit("snake");
        assert(s.subrange(74, 79) =~= "snake"@);
        text::lemma_fill_hole(s, b, 73, "snake"@);
        reveal_strlit("(__rec)");
        assert(s.subrange(80, 87) =~= "(__rec)"@);
        text::lemma_fill_run(s, b, 80, "(__rec)"@);
        let rest = text::fill_from(s, b, 87);
        let part = "Some(__rec) => ret_to_witvalue_"@ + snake + "(__rec)"@;
        reveal_strlit("Some(__rec) => ret_to_witvalue_");
        assert(("Some(__rec) => ret_to_witvalue"@ + ("_"@ + (snake + ("(__rec)"@ + rest))))
            =~= part + rest);
        assert(before + ("    "@ + (part + rest)) =~= (before + "    "@) + (part + rest));
        words::lemma_piece_between(before + "    "@, part, rest);
    }
    assert(words::has_piece(text::fill(t::RET_OPTION_WIT_VALUE@, b), "None => Ok(SqlValue::Null)"@)) by {
        let before = text::lemma_fill_reaches(s, b, 92);
        reveal_strlit("    ");
        assert(s.subrange(92, 96) =~= "    "@);
        text::lemma_fill_run(s, b, 92, "    "@);
        reveal_strlit("None => Ok(SqlValue::Null)");
        assert(s.subrange(96, 122) =~= "None => Ok(SqlValue::Null)"@);
        text::lemma_fill_run(s, b, 96, "None => Ok(SqlValue::Null)"@);
        let rest = text::fill_from(s, b, 122);
        let part = "None => Ok(SqlValue::Null)"@;
        assert(before + ("    "@ + (part + rest)) =~= (before + "    "@) + (part + rest));
        words::lemma_piece_between(before + "    "@, part, rest);
    }
}

proof fn lemma_ret_first_wit_value(
    i: Seq<char>,
    call: Seq<char>,
    chain: Seq<char>,
    snake: Seq<char>,
)
    ensures
        words::has_piece(
            text::fill(
                t::RET_FIRST_WIT_VALUE@,
                seq![("i"@, i), ("call_expr"@, call), ("unwrap_chain"@, chain), ("snake"@, snake)],
            ),
            "let __r = "@ + call + chain + ";"@,
        ),
        words::has_piece(
            text::fill(
                t::RET_FIRST_WIT_VALUE@,
                seq![("i"@, i), ("call_expr"@, call), ("unwrap_chain"@, chain), ("snake"@, snake)],
            ),
            "Some(__rec) => ret_to_witvalue_"@ + snake + "(__rec)"@,
        ),
        words::has_piece(
            text::fill(
                t::RET_FIRST_WIT_VALUE@,
                seq![("i"@, i), ("call_expr"@, call), ("unwrap_chain"@, chain), ("snake"@, snake)],
            ),
            "None => Ok(SqlValue::Null)"@,
        ),
{
    let s = t::RET_FIRST_WIT_VALUE@;
    reveal_strlit(r#"{{
{i}    let __r = {call_expr}{unwrap_chain};
{i}    let mut __it = __r.into_iter();
{i}    match __it.next() {{
{i}        Some(__rec) => ret_to_witvalue_{snake}(__rec),
{i}        None => Ok(SqlValue::Null),
{i}    }}
{i}}}"#);
    reveal_with_fuel(text::plain_to, 31);
    let b = seq![("i"@, i), ("call_expr"@, call), ("unwrap_chain"@, chain), ("snake"@, snake)];
    lemma_holes(i, call, chain, "snake"@, snake);
    assert(words::has_piece(text::fill(t::RET_FIRST_WIT_VALUE@, b), "let __r = "@ + call + chain + ";"@)) by {
        let before = text::lemma_fill_reaches(s, b, 6);
        reveal_strlit("    ");
        assert(s.subrange(6, 10) =~= "    "@);
        text::lemma_fill_run(s, b, 6, "    "@);
        reveal_strlit("let __r = ");
        assert(s.subrange(10, 20) =~= "let __r = "@);
        text::lemma_fill_run(s, b, 10, "let __r = "@);
        reveal_strlit("call_expr");
        assert(s.subrange(21, 30) =~= "call_expr"@);
        text::lemma_fill_hole(s, b, 20, "call_expr"@);
        reveal_strlit("unwrap_chain");
        assert(s.subrange(32, 44) =~= "unwrap_chain"@);
        text::lemma_fill_hole(s, b, 31, "unwrap_chain"@);
        reveal_strlit(";");
        assert(s.subrange(45, 46) =~= ";"@);
        text::lemma_fill_run(s, b, 45, ";"@);
        let rest = text::fill_from(s, b, 46);
        let part = "let __r = "@ + call + chain + ";"@;
        assert(("let __r = "@ + (call + (chain + (";"@ + rest)))) =~= part + rest);
        assert(before + ("    "@ + (part + rest)) =~= (before + "    "@) + (part + rest));
        words::lemma_piece_between(before + "    "@, part, rest);
    }
    assert(words::has_piece(
        text::fill(t::RET_FIRST_WIT_VALUE@, b),
        "Some(__rec) => ret_to_witvalue_"@ + snake + "(__rec)"@,
    )) by {
        let before = text::lemma_fill_reaches(s, b, 117);
        reveal_strlit("        ");
        assert(s.subrange(117, 125) =~= "        "@);
        text::lemma_fill_run(s, b, 117, "        "@);
        reveal_strlit("Some(__rec) => ret_to_witvalue");
        assert(s.subrange(125, 155) =~= "Some(__rec) => ret_to_witvalue"@);
        text::lemma_fill_run(s, b, 125, "Some(__rec) => ret_to_witvalue"@);
        reveal_strlit("_");
        assert(s.subrange(155, 156) =~= "_"@);
        text::lemma_fill_run(s, b, 155, "_"@);
        reveal_strlit("snake");
        assert(s.subrange(157, 162) =~= "snake"@);
        text::lemma_fill_hole(s, b, 156, "snake"@);
        reveal_strlit("(__rec)");
        assert(s.subrange(163, 170) =~= "(__rec)"@);
        text::lemma_fill_run(s, b, 163, "(__rec)"@);
        let rest = text::fill_from(s, b, 170);
        let part = "Some(__rec) => ret_to_witvalue_"@ + snake + "(__rec)"@;
        reveal_strlit("Some(__rec) => ret_to_witvalue_");
        assert(("Some(__rec) => ret_to_witvalue"@ + ("_"@ + (snake + ("(__rec)"@ + rest))))
            =~= part + rest);
        assert(before + ("        "@ + (part + rest)) =~= (before + "        "@) + (part + rest));
        words::lemma_piece_between(before + "        "@, part, rest);
    }
    assert(words::has_piece(text::fill(t::RET_FIRST_WIT_VALUE@, b), "None => Ok(SqlValue::Null)"@)) by {
        let before = text::lemma_fill_reaches(s, b, 175);
        reveal_strlit("        ");
        assert(s.subrange(175, 183) =~= "        "@);
        text::lemma_fill_run(s, b, 175, "        "@);
        reveal_strlit("None => Ok(SqlValue::Null)");
        assert(s.subrange(183, 209) =~= "None => Ok(SqlValue::Null)"@);
        text::lemma_fill_run(s, b, 183, "None => Ok(SqlValue::Null)"@);
        let rest = text::fill_from(s, b, 209);
        let part = "None => Ok(SqlValue::Null)"@;
        assert(before + ("        "@ + (part + rest)) =~= (before + "        "@) + (part + rest));
        words::lemma_piece_between(before + "        "@, part, rest);
    }
}

// ─── No other value ───

/// Whether each SQL value that a text names begins with the letter `c`, or is null.
pub open spec fn names_only(s: Seq<char>, c: char) -> bool {
    forall|k: int| #[trigger]
        words::stands_at(s, "SqlValue::"@, k) ==> k + 10 < s.len() && (s[k + 10] == c
            || words::stands_at(s, "SqlValue::Null"@, k))
}

/// Whether a value named at `k` begins with `c` or is null; the letters `l` and `V` tell where
/// one is named.
spec fn named_at(s: Seq<char>, k: int, c: char) -> bool {
    s[k] == 'l' && s[k + 1] == 'V' ==> k + 8 < s.len() && (s[k + 8] == c || (k + 12 <= s.len()
        && s[k + 8] == 'N' && s[k + 9] == 'u' && s[k + 10] == 'l' && s[k + 11] == 'l'))
}

/// Whether all values named before `n` begin with `c` or are null.
spec fn named_to(s: Seq<char>, n: nat, c: char) -> bool
    decreases n,
{
    n == 0 || (named_to(s, (n - 1) as nat, c) && named_at(s, n - 1, c))
}

proof fn lemma_named_to(s: Seq<char>, n: nat, c: char, k: int)
    requires
        named_to(s, n, c),
        0 <= k < n,
    ensures
        named_at(s, k, c),
    decreases n,
{
    if k < n - 1 {
        lemma_named_to(s, (n - 1) as nat, c, k);
    }
}

proof fn lemma_names_only(s: Seq<char>, c: char)
    requires
        named_to(s, s.len(), c),
    ensures
        names_only(s, c),
{
    reveal_strlit("SqlValue::");
    reveal_strlit("SqlValue::Null");
    let name = "SqlValue::"@;
    let null = "SqlValue::Null"@;
    assert forall|k: int| #[trigger] words::stands_at(s, name, k) implies k + 10 < s.len() && (
    s[k + 10] == c || words::stands_at(s, null, k)) by {
        let found = s.subrange(k, k + name.len());
        assert forall|j: int| 0 <= j < 10 implies s[k + j] == name[j] by {
            assert(found[j] == s[k + j]);
        }
        assert(s[k + 2] == name[2] && s[k + 3] == name[3]);
        lemma_named_to(s, s.len(), c, k + 2);
        if s[k + 10] != c {
            assert(s.subrange(k, k + null.len()) =~= null);
        }
    }
}

/// The text of a result names no SQL value but null and the one of its shape, which its first
/// letter tells: `R` for real numbers, `I` for integers, `T` for texts, `B` for blobs.
pub proof fn law_results_name_no_other(ret: RetShape, bare: bool)
    ensures
        ({
            let s = dispatch::return_template(ret, bare);
            match ret {
                RetShape::Text => names_only(s, 'T'),
                RetShape::Real => names_only(s, 'R'),
                RetShape::Int => names_only(s, 'I'),
                RetShape::BoolInt => names_only(s, 'I'),
                RetShape::Blob => names_only(s, 'B'),
                RetShape::OptionText => names_only(s, 'T'),
                RetShape::OptionReal => names_only(s, 'R'),
                RetShape::OptionInt => names_only(s, 'I'),
                RetShape::OptionBoolInt => names_only(s, 'I'),
                RetShape::OptionBlob => names_only(s, 'B'),
                RetShape::OptionGeomBlob => names_only(s, 'B'),
                RetShape::OptionRasterBlob => names_only(s, 'B'),
                RetShape::OptionTopologyBlob => names_only(s, 'B'),
                RetShape::FirstGeomBlob => names_only(s, 'B'),
                RetShape::FirstRasterBlob => names_only(s, 'B'),
                RetShape::FirstTopologyBlob => names_only(s, 'B'),
                RetShape::FirstOptionU32Int => names_only(s, 'I'),
                RetShape::FirstInt => names_only(s, 'I'),
                RetShape::FirstReal => names_only(s, 'R'),
                RetShape::FirstText => names_only(s, 'T'),
                RetShape::BboxBlob => names_only(s, 'B'),
                RetShape::IsValidDetailText => names_only(s, 'T'),
                RetShape::Bbox3dWkbLineZ => names_only(s, 'B'),
                RetShape::GeomBlob => names_only(s, 'B'),
                RetShape::RasterBlob => names_only(s, 'B'),
                RetShape::TopologyBlob => names_only(s, 'B'),
                RetShape::JsonText { .. } => names_only(s, 'T'),
                _ => true,
            }
        }),
        names_only(t::RET_ENUM@, 'I'),
{
    lemma_named_ret_enum();
    match ret {
        RetShape::Text => lemma_named_ret_text(),
        RetShape::Real => lemma_named_ret_real(),
        RetShape::Int => lemma_named_ret_int(),
        RetShape::BoolInt => lemma_named_ret_bool(),
        RetShape::Blob => lemma_named_ret_blob(),
        RetShape::OptionText => lemma_named_ret_option_text(),
        RetShape::OptionReal => lemma_named_ret_option_real(),
        RetShape::OptionInt => lemma_named_ret_option_int(),
        RetShape::OptionBoolInt => lemma_named_ret_option_bool(),
        RetShape::OptionBlob => lemma_named_ret_option_blob(),
        RetShape::OptionGeomBlob => lemma_named_ret_option_geom(),
        RetShape::OptionRasterBlob => lemma_named_ret_option_raster(),
        RetShape::OptionTopologyBlob => lemma_named_ret_option_topology(),
        RetShape::FirstGeomBlob => lemma_named_ret_first_geom(),
        RetShape::FirstRasterBlob => lemma_named_ret_first_raster(),
        RetShape::FirstTopologyBlob => lemma_named_ret_first_topology(),
        RetShape::FirstOptionU32Int => lemma_named_ret_first_option_u32(),
        RetShape::FirstInt => lemma_named_ret_first_int(),
        RetShape::FirstReal => lemma_named_ret_first_real(),
        RetShape::FirstText => lemma_named_ret_first_text(),
        RetShape::BboxBlob => lemma_named_ret_bbox(),
        RetShape::IsValidDetailText => lemma_named_ret_is_valid_detail(),
        RetShape::Bbox3dWkbLineZ => lemma_named_ret_bbox3d(),
        RetShape::GeomBlob => {
            lemma_named_ret_geom();
            lemma_named_ret_geom_fallible();
        },
        RetShape::RasterBlob => {
            lemma_named_ret_raster();
            lemma_named_ret_raster_fallible();
        },
        RetShape::TopologyBlob => {
            lemma_named_ret_topology();
            lemma_named_ret_topology_fallible();
        },
        RetShape::JsonText { kind } => match kind {
            JsonRetKind::ListListPrim => lemma_named_ret_json(),
            JsonRetKind::ListTuplePrim => lemma_named_ret_json(),
            JsonRetKind::TuplePrim => lemma_named_ret_json(),
            JsonRetKind::OptionTuplePrim => lemma_named_ret_json_option_tuple(),
            JsonRetKind::OptionListPrimRecord => lemma_named_ret_json_option_list(),
            JsonRetKind::ListTupleGeomF64 => lemma_named_ret_json_geom_list(),
        },
        _ => {},
    }
}

proof fn lemma_named_ret_text()
    ensures
        names_only(t::RET_TEXT@, 'T'),
{
    reveal_strlit("Ok(SqlValue::Text({call_expr}{unwrap_chain}))");
    reveal_with_fuel(named_to, 51);
    let s = t::RET_TEXT@;
    lemma_names_only(s, 'T');
}

proof fn lemma_named_ret_real()
    ensures
        names_only(t::RET_REAL@, 'R'),
{
    reveal_strlit("Ok(SqlValue::Real({call_expr}{unwrap_chain}))");
    reveal_with_fuel(named_to, 51);
    let s = t::RET_REAL@;
    lemma_names_only(s, 'R');
}

proof fn lemma_named_ret_int()
    ensures
        names_only(t::RET_INT@, 'I'),
{
    reveal_strlit("Ok(SqlValue::Integer({call_expr}{unwrap_chain} as i64))");
    reveal_with_fuel(named_to, 51);
    let s = t::RET_INT@;
    assert(named_to(s, 50, 'I'));
    lemma_names_only(s, 'I');
}

proof fn lemma_named_ret_bool()
    ensures
        names_only(t::RET_BOOL@, 'I'),
{
    reveal_strlit("Ok(SqlValue::Integer({call_expr}{unwrap_chain} as i64))");
    reveal_with_fuel(named_to, 51);
    let s = t::RET_BOOL@;
    assert(named_to(s, 50, 'I'));
    lemma_names_only(s, 'I');
}

proof fn lemma_named_ret_blob()
    ensures
        names_only(t::RET_BLOB@, 'B'),
{
    reveal_strlit("Ok(SqlValue::Blob({call_expr}{unwrap_chain}))");
    reveal_with_fuel(named_to, 51);
    let s = t::RET_BLOB@;
    lemma_names_only(s, 'B');
}

proof fn lemma_named_ret_option_text()
    ensures
        names_only(t::RET_OPTION_TEXT@, 'T'),
{
    reveal_strlit(r#"Ok(match {call_expr}{unwrap_chain} {{
{i}    Some(v) => SqlValue::Text(v),
{i}    None => SqlValue::Null,
{i}}})"#);
    reveal_with_fuel(named_to, 51);
    let s = t::RET_OPTION_TEXT@;
    assert(named_to(s, 50, 'T'));
    assert(named_to(s, 100, 'T'));
    lemma_names_only(s, 'T');
}

proof fn lemma_named_ret_option_real()
    ensures
        names_only(t::RET_OPTION_REAL@, 'R'),
{
    reveal_strlit(r#"Ok(match {call_expr}{unwrap_chain} {{
{i}    Some(v) => SqlValue::Real(v as f64),
{i}    None => SqlValue::Null,
{i}}})"#);
    reveal_with_fuel(named_to, 51);
    let s = t::RET_OPTION_REAL@;
    assert(named_to(s, 50, 'R'));
    assert(named_to(s, 100, 'R'));
    lemma_names_only(s, 'R');
}

proof fn lemma_named_ret_option_int()
    ensures
        names_only(t::RET_OPTION_INT@, 'I'),
{
    reveal_strlit(r#"Ok(match {call_expr}{unwrap_chain} {{
{i}    Some(v) => SqlValue::Integer(v as i64),
{i}    None => SqlValue::Null,
{i}}})"#);
    reveal_with_fuel(named_to, 51);
    let s = t::RET_OPTION_INT@;
    assert(named_to(s, 50, 'I'));
    assert(named_to(s, 100, 'I'));
    lemma_names_only(s, 'I');
}

proof fn lemma_named_ret_option_bool()
    ensures
        names_only(t::RET_OPTION_BOOL@, 'I'),
{
    reveal_strlit(r#"Ok(match {call_expr}{unwrap_chain} {{
{i}    Some(v) => SqlValue::Integer(v as i64),
{i}    None => SqlValue::Null,
{i}}})"#);
    reveal_with_fuel(named_to, 51);
    let s = t::RET_OPTION_BOOL@;
    assert(named_to(s, 50, 'I'));
    assert(named_to(s, 100, 'I'));
    lemma_names_only(s, 'I');
}

proof fn lemma_named_ret_option_blob()
    ensures
        names_only(t::RET_OPTION_BLOB@, 'B'),
{
    reveal_strlit(r#"Ok(match {call_expr}{unwrap_chain} {{
{i}    Some(v) => SqlValue::Blob(v),
{i}    None => SqlValue::Null,
{i}}})"#);
    reveal_with_fuel(named_to, 51);
    let s = t::RET_OPTION_BLOB@;
    assert(named_to(s, 50, 'B'));
    assert(named_to(s, 100, 'B'));
    lemma_names_only(s, 'B');
}

proof fn lemma_named_ret_option_geom()
    ensures
        names_only(t::RET_OPTION_GEOM@, 'B'),
{
    reveal_strlit(r#"Ok(match {call_expr}{unwrap_chain} {{
{i}    Some(v) => SqlValue::Blob(v.as_wkb()),
{i}    None => SqlValue::Null,
{i}}})"#);
    reveal_with_fuel(named_to, 51);
    let s = t::RET_OPTION_GEOM@;
    assert(named_to(s, 50, 'B'));
    assert(named_to(s, 100, 'B'));
    lemma_names_only(s, 'B');
}

proof fn lemma_named_ret_option_raster()
    ensures
        names_only(t::RET_OPTION_RASTER@, 'B'),
{
    reveal_strlit(r#"Ok(match {call_expr}{unwrap_chain} {{
{i}    Some(v) => SqlValue::Blob(v.as_binary()),
{i}    None => SqlValue::Null,
{i}}})"#);
    reveal_with_fuel(named_to, 51);
    let s = t::RET_OPTION_RASTER@;
    assert(named_to(s, 50, 'B'));
    assert(named_to(s, 100, 'B'));
    lemma_names_only(s, 'B');
}

proof fn lemma_named_ret_option_topology()
    ensures
        names_only(t::RET_OPTION_TOPOLOGY@, 'B'),
{
    reveal_strlit(r#"Ok(match {call_expr}{unwrap_chain} {{
{i}    Some(v) => SqlValue::Blob(v.to_bytes()),
{i}    None => SqlValue::Null,
{i}}})"#);
    reveal_with_fuel(named_to, 51);
    let s = t::RET_OPTION_TOPOLOGY@;
    assert(named_to(s, 50, 'B'));
    assert(named_to(s, 100, 'B'));
    lemma_names_only(s, 'B');
}

proof fn lemma_named_ret_first_geom()
    ensures
        names_only(t::RET_FIRST_GEOM@, 'B'),
{
    reveal_strlit(r#"{{
{i}    let __r: Vec<Geometry> = {call_expr}{unwrap_chain};
{i}    match __r.first() {{
{i}        Some(g) => Ok(SqlValue::Blob(g.as_wkb())),
{i}        None => Ok(SqlValue::Null),
{i}    }}
{i}}}"#);
    reveal_with_fuel(named_to, 51);
    let s = t::RET_FIRST_GEOM@;
    assert(named_to(s, 50, 'B'));
    assert(named_to(s, 100, 'B'));
    assert(named_to(s, 150, 'B'));
    lemma_names_only(s, 'B');
}

proof fn lemma_named_ret_first_raster()
    ensures
        names_only(t::RET_FIRST_RASTER@, 'B'),
{
    reveal_strlit(r#"{{
{i}    let __r = {call_expr}{unwrap_chain};
{i}    match __r.into_iter().next() {{
{i}        Some(r) => Ok(SqlValue::Blob(r.as_binary())),
{i}        None => Ok(SqlValue::Null),
{i}    }}
{i}}}"#);
    reveal_with_fuel(named_to, 51);
    let s = t::RET_FIRST_RASTER@;
    assert(named_to(s, 50, 'B'));
    assert(named_to(s, 100, 'B'));
    assert(named_to(s, 150, 'B'));
    lemma_names_only(s, 'B');
}

proof fn lemma_named_ret_first_topology()
    ensures
        names_only(t::RET_FIRST_TOPOLOGY@, 'B'),
{
    reveal_strlit(r#"{{
{i}    let __r = {call_expr}{unwrap_chain};
{i}    match __r.into_iter().next() {{
{i}        Some(t) => Ok(SqlValue::Blob(t.to_bytes())),
{i}        None => Ok(SqlValue::Null),
{i}    }}
{i}}}"#);
    reveal_with_fuel(named_to, 51);
    let s = t::RET_FIRST_TOPOLOGY@;
    assert(named_to(s, 50, 'B'));
    assert(named_to(s, 100, 'B'));
    assert(named_to(s, 150, 'B'));
    lemma_names_only(s, 'B');
}

proof fn lemma_named_ret_first_option_u32()
    ensures
        names_only(t::RET_FIRST_OPTION_U32@, 'I'),
{
    reveal_strlit(r#"{{
{i}    let __r: Vec<Option<u32>> = {call_expr}{unwrap_chain};
{i}    match __r.first() {{
{i}        Some(Some(v)) => Ok(SqlValue::Integer(*v as i64)),
{i}        Some(None) | None => Ok(SqlValue::Null),
{i}    }}
{i}}}"#);
    reveal_with_fuel(named_to, 51);
    let s = t::RET_FIRST_OPTION_U32@;
    assert(named_to(s, 50, 'I'));
    assert(named_to(s, 100, 'I'));
    assert(named_to(s, 150, 'I'));
    assert(named_to(s, 200, 'I'));
    lemma_names_only(s, 'I');
}

proof fn lemma_named_ret_first_int()
    ensures
        names_only(t::RET_FIRST_INT@, 'I'),
{
    reveal_strlit(r#"{{
{i}    let __r = {call_expr}{unwrap_chain};
{i}    match __r.first() {{
{i}        Some(v) => Ok(SqlValue::Integer(*v as i64)),
{i}        None => Ok(SqlValue::Null),
{i}    }}
{i}}}"#);
    reveal_with_fuel(named_to, 51);
    let s = t::RET_FIRST_INT@;
    assert(named_to(s, 50, 'I'));
    assert(named_to(s, 100, 'I'));
    assert(named_to(s, 150, 'I'));
    lemma_names_only(s, 'I');
}

proof fn lemma_named_ret_first_real()
    ensures
        names_only(t::RET_FIRST_REAL@, 'R'),
{
    reveal_strlit(r#"{{
{i}    let __r = {call_expr}{unwrap_chain};
{i}    match __r.first() {{
{i}        Some(v) => Ok(SqlValue::Real(*v as f64)),
{i}        None => Ok(SqlValue::Null),
{i}    }}
{i}}}"#);
    reveal_with_fuel(named_to, 51);
    let s = t::RET_FIRST_REAL@;
    assert(named_to(s, 50, 'R'));
    assert(named_to(s, 100, 'R'));
    assert(named_to(s, 150, 'R'));
    lemma_names_only(s, 'R');
}

proof fn lemma_named_ret_first_text()
    ensures
        names_only(t::RET_FIRST_TEXT@, 'T'),
{
    reveal_strlit(r#"{{
{i}    let __r = {call_expr}{unwrap_chain};
{i}    match __r.into_iter().next() {{
{i}        Some(v) => Ok(SqlValue::Text(v)),
{i}        None => Ok(SqlValue::Null),
{i}    }}
{i}}}"#);
    reveal_with_fuel(named_to, 51);
    let s = t::RET_FIRST_TEXT@;
    assert(named_to(s, 50, 'T'));
    assert(named_to(s, 100, 'T'));
    assert(named_to(s, 150, 'T'));
    lemma_names_only(s, 'T');
}

proof fn lemma_named_ret_bbox()
    ensures
        names_only(t::RET_BBOX@, 'B'),
{
    reveal_strlit(r#"{{
{i}    let __bb = {call_expr}{unwrap_chain};
{i}    let __env = pg_ctor::st_make_envelope(__bb.min_x, __bb.min_y, __bb.max_x, __bb.max_y);
{i}    Ok(SqlValue::Blob(__env.as_wkb()))
{i}}}"#);
    reveal_with_fuel(named_to, 51);
    let s = t::RET_BBOX@;
    assert(named_to(s, 50, 'B'));
    assert(named_to(s, 100, 'B'));
    assert(named_to(s, 150, 'B'));
    lemma_names_only(s, 'B');
}

proof fn lemma_named_ret_is_valid_detail()
    ensures
        names_only(t::RET_IS_VALID_DETAIL@, 'T'),
{
    reveal_strlit(r#"{{
{i}    let (__valid, __reason, __loc) = {call_expr}{unwrap_chain};
{i}    let __reason_s = __reason.unwrap_or_default();
{i}    let __loc_s = match __loc {{
{i}        Some(g) => pg_out::st_as_text(&g),
{i}        None => alloc::string::String::new(),
{i}    }};
{i}    Ok(SqlValue::Text(format!(
{i}        "({{}},\"{{}}\",\"{{}}\")",
{i}        __valid, __reason_s, __loc_s
{i}    )))
{i}}}"#);
    reveal_with_fuel(named_to, 51);
    let s = t::RET_IS_VALID_DETAIL@;
    assert(named_to(s, 50, 'T'));
    assert(named_to(s, 100, 'T'));
    assert(named_to(s, 150, 'T'));
    assert(named_to(s, 200, 'T'));
    assert(named_to(s, 250, 'T'));
    assert(named_to(s, 300, 'T'));
    assert(named_to(s, 350, 'T'));
    lemma_names_only(s, 'T');
}

proof fn lemma_named_ret_bbox3d()
    ensures
        names_only(t::RET_BBOX3D@, 'B'),
{
    reveal_strlit(r#"{{
{i}    let __bb = {call_expr}{unwrap_chain};
{i}    let mut __wkb: Vec<u8> = Vec::with_capacity(57);
{i}    // ISO-WKB header: little-endian, type 1002 (LINESTRING Z), 2 points.
{i}    __wkb.push(0x01u8);
{i}    __wkb.extend_from_slice(&1002u32.to_le_bytes());
{i}    __wkb.extend_from_slice(&2u32.to_le_bytes());
{i}    __wkb.extend_from_slice(&__bb.min_x.to_le_bytes());
{i}    __wkb.extend_from_slice(&__bb.min_y.to_le_bytes());
{i}    __wkb.extend_from_slice(&__bb.min_z.to_le_bytes());
{i}    __wkb.extend_from_slice(&__bb.max_x.to_le_bytes());
{i}    __wkb.extend_from_slice(&__bb.max_y.to_le_bytes());
{i}    __wkb.extend_from_slice(&__bb.max_z.to_le_bytes());
{i}    Ok(SqlValue::Blob(__wkb))
{i}}}"#);
    reveal_with_fuel(named_to, 51);
    let s = t::RET_BBOX3D@;
    assert(named_to(s, 50, 'B'));
    assert(named_to(s, 100, 'B'));
    assert(named_to(s, 150, 'B'));
    assert(named_to(s, 200, 'B'));
    assert(named_to(s, 250, 'B'));
    assert(named_to(s, 300, 'B'));
    assert(named_to(s, 350, 'B'));
    assert(named_to(s, 400, 'B'));
    assert(named_to(s, 450, 'B'));
    assert(named_to(s, 500, 'B'));
    assert(named_to(s, 550, 'B'));
    assert(named_to(s, 600, 'B'));
    assert(named_to(s, 650, 'B'));
    assert(named_to(s, 700, 'B'));
    lemma_names_only(s, 'B');
}

proof fn lemma_named_ret_geom()
    ensures
        names_only(t::RET_GEOM@, 'B'),
{
    reveal_strlit("Ok(SqlValue::Blob({call_expr}.as_wkb()))");
    reveal_with_fuel(named_to, 51);
    let s = t::RET_GEOM@;
    lemma_names_only(s, 'B');
}

proof fn lemma_named_ret_geom_fallible()
    ensures
        names_only(t::RET_GEOM_FALLIBLE@, 'B'),
{
    reveal_strlit(r#"let __r = {call_expr}{unwrap_chain};
{i}Ok(SqlValue::Blob(__r.as_wkb()))"#);
    reveal_with_fuel(named_to, 51);
    let s = t::RET_GEOM_FALLIBLE@;
    assert(named_to(s, 50, 'B'));
    lemma_names_only(s, 'B');
}

proof fn lemma_named_ret_raster()
    ensures
        names_only(t::RET_RASTER@, 'B'),
{
    reveal_strlit("Ok(SqlValue::Blob({call_expr}.as_binary()))");
    reveal_with_fuel(named_to, 51);
    let s = t::RET_RASTER@;
    lemma_names_only(s, 'B');
}

proof fn lemma_named_ret_raster_fallible()
    ensures
        names_only(t::RET_RASTER_FALLIBLE@, 'B'),
{
    reveal_strlit(r#"let __r = {call_expr}{unwrap_chain};
{i}Ok(SqlValue::Blob(__r.as_binary()))"#);
    reveal_with_fuel(named_to, 51);
    let s = t::RET_RASTER_FALLIBLE@;
    assert(named_to(s, 50, 'B'));
    lemma_names_only(s, 'B');
}

proof fn lemma_named_ret_topology()
    ensures
        names_only(t::RET_TOPOLOGY@, 'B'),
{
    reveal_strlit("Ok(SqlValue::Blob({call_expr}.to_bytes()))");
    reveal_with_fuel(named_to, 51);
    let s = t::RET_TOPOLOGY@;
    lemma_names_only(s, 'B');
}

proof fn lemma_named_ret_topology_fallible()
    ensures
        names_only(t::RET_TOPOLOGY_FALLIBLE@, 'B'),
{
    reveal_strlit(r#"let __r = {call_expr}{unwrap_chain};
{i}Ok(SqlValue::Blob(__r.to_bytes()))"#);
    reveal_with_fuel(named_to, 51);
    let s = t::RET_TOPOLOGY_FALLIBLE@;
    assert(named_to(s, 50, 'B'));
    lemma_names_only(s, 'B');
}

proof fn lemma_named_ret_json()
    ensures
        names_only(t::RET_JSON@, 'T'),
{
    reveal_strlit(r#"{{
{i}    let __r = {call_expr}{unwrap_chain};
{i}    let __json = serde_json::to_string(&__r)
{i}        .map_err(|e| format!("{sql_name}: encode JSON: {{}}", e))?;
{i}    Ok(SqlValue::Text(__json))
{i}}}"#);
    reveal_with_fuel(named_to, 51);
    let s = t::RET_JSON@;
    assert(named_to(s, 50, 'T'));
    assert(named_to(s, 100, 'T'));
    assert(named_to(s, 150, 'T'));
    assert(named_to(s, 200, 'T'));
    lemma_names_only(s, 'T');
}

proof fn lemma_named_ret_json_option_tuple()
    ensures
        names_only(t::RET_JSON_OPTION_TUPLE@, 'T'),
{
    reveal_strlit(r#"{{
{i}    match {call_expr}{unwrap_chain} {{
{i}        Some(__t) => {{
{i}            let __json = serde_json::to_string(&__t)
{i}                .map_err(|e| format!("{sql_name}: encode JSON: {{}}", e))?;
{i}            Ok(SqlValue::Text(__json))
{i}        }}
{i}        None => Ok(SqlValue::Null),
{i}    }}
{i}}}"#);
    reveal_with_fuel(named_to, 51);
    let s = t::RET_JSON_OPTION_TUPLE@;
    assert(named_to(s, 50, 'T'));
    assert(named_to(s, 100, 'T'));
    assert(named_to(s, 150, 'T'));
    assert(named_to(s, 200, 'T'));
    assert(named_to(s, 250, 'T'));
    assert(named_to(s, 300, 'T'));
    lemma_names_only(s, 'T');
}

proof fn lemma_named_ret_json_option_list()
    ensures
        names_only(t::RET_JSON_OPTION_LIST@, 'T'),
{
    reveal_strlit(r#"{{
{i}    match {call_expr}{unwrap_chain} {{
{i}        Some(__v) => {{
{i}            let __json = serde_json::to_string(&__v)
{i}                .map_err(|e| format!("{sql_name}: encode JSON: {{}}", e))?;
{i}            Ok(SqlValue::Text(__json))
{i}        }}
{i}        None => Ok(SqlValue::Null),
{i}    }}
{i}}}"#);
    reveal_with_fuel(named_to, 51);
    let s = t::RET_JSON_OPTION_LIST@;
    assert(named_to(s, 50, 'T'));
    assert(named_to(s, 100, 'T'));
    assert(named_to(s, 150, 'T'));
    assert(named_to(s, 200, 'T'));
    assert(named_to(s, 250, 'T'));
    assert(named_to(s, 300, 'T'));
    lemma_names_only(s, 'T');
}

proof fn lemma_named_ret_json_geom_list()
    ensures
        names_only(t::RET_JSON_GEOM_LIST@, 'T'),
{
    reveal_strlit(r#"{{
{i}    let __r = {call_expr}{unwrap_chain};
{i}    let mut __out = alloc::string::String::from("[");
{i}    for (__i, (__g, __v)) in __r.into_iter().enumerate() {{
{i}        if __i > 0 {{ __out.push(','); }}
{i}        let __wkb = __g.as_wkb();
{i}        __out.push_str("[\"");
{i}        for __b in __wkb {{
{i}            use core::fmt::Write as _;
{i}            let _ = write!(&mut __out, "{{:02x}}", __b);
{i}        }}
{i}        __out.push_str("\",");
{i}        let __vj = serde_json::to_string(&__v)
{i}            .map_err(|e| format!("{sql_name}: encode JSON: {{}}", e))?;
{i}        __out.push_str(&__vj);
{i}        __out.push(']');
{i}    }}
{i}    __out.push(']');
{i}    Ok(SqlValue::Text(__out))
{i}}}"#);
    reveal_with_fuel(named_to, 51);
    let s = t::RET_JSON_GEOM_LIST@;
    assert(named_to(s, 50, 'T'));
    assert(named_to(s, 100, 'T'));
    assert(named_to(s, 150, 'T'));
    assert(named_to(s, 200, 'T'));
    assert(named_to(s, 250, 'T'));
    assert(named_to(s, 300, 'T'));
    assert(named_to(s, 350, 'T'));
    assert(named_to(s, 400, 'T'));
    assert(named_to(s, 450, 'T'));
    assert(named_to(s, 500, 'T'));
    assert(named_to(s, 550, 'T'));
    assert(named_to(s, 600, 'T'));
    assert(named_to(s, 650, 'T'));
    assert(named_to(s, 700, 'T'));
    lemma_names_only(s, 'T');
}

proof fn lemma_named_ret_enum()
    ensures
        names_only(t::RET_ENUM@, 'I'),
{
    reveal_strlit(r#"{{
{i}    let __r = {call_expr}{unwrap_chain};
{i}    let __disc: i64 = match __r {{
{arms}{i}    }};
{i}    Ok(SqlValue::Integer(__disc))
{i}}}"#);
    reveal_with_fuel(named_to, 51);
    let s = t::RET_ENUM@;
    assert(named_to(s, 50, 'I'));
    assert(named_to(s, 100, 'I'));
    lemma_names_only(s, 'I');
}

} // verus!
