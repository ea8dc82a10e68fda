//! How the arms of a bridge read their arguments: with the reader of their shape, at their own
//! position, and as the type that they are declared as.

use vstd::prelude::*;
use vstd::string::*;

use crate::calls;
use crate::duckdb::dispatch;
use crate::duckdb::dispatch_templates as t;
use crate::duckdb::register;
use crate::ir::{DispatchShape, ParamShape};
use crate::text;
use crate::tuples;
use crate::words;

verus! {

/// The declaration of argument `idx` reads the value at `idx` with the reader of its shape, into
/// the type of the shape, and the argument is registered as the type that the reader takes:
/// texts, reals, integers, booleans and blobs as they are, integers of other widths from 64-bit
/// integers, resources from blobs, the cases of an enum from their numbers, lists from JSON texts,
/// and records with the reader of their type. A list of geometries takes all values from `idx` on
/// where it is the last argument, and the one at `idx` where it is not.
pub proof fn law_argument_readings(
    p: ParamShape,
    idx: nat,
    last: bool,
    sql_name: Seq<char>,
    i: Seq<char>,
)
    ensures
        ({
            let s = dispatch::arg_decl(p, idx, last, sql_name, i);
            let d = words::decimal(idx);
            match p {
                ParamShape::Text => {
                    &&& register::param_logical(p) == "types::Logicaltype::Text"@
                    &&& words::has_piece(
                        s,
                        "let arg"@ + d + " = dv_text(&args, "@ + d + ", \""@ + sql_name
                            + "\")?;\n"@,
                    )
                },
                ParamShape::F64 => {
                    &&& register::param_logical(p) == "types::Logicaltype::Float64"@
                    &&& words::has_piece(
                        s,
                        "let arg"@ + d + " = dv_f64(&args, "@ + d + ", \""@ + sql_name + "\")?;\n"@,
                    )
                },
                ParamShape::S32 => {
                    &&& register::param_logical(p) == "types::Logicaltype::Int64"@
                    &&& words::has_piece(
                        s,
                        "let arg"@ + d + " = dv_i64(&args, "@ + d + ", \""@ + sql_name
                            + "\")? as i32;\n"@,
                    )
                },
                ParamShape::S64 => {
                    &&& register::param_logical(p) == "types::Logicaltype::Int64"@
                    &&& words::has_piece(
                        s,
                        "let arg"@ + d + " = dv_i64(&args, "@ + d + ", \""@ + sql_name + "\")?;\n"@,
                    )
                },
                ParamShape::U32 => {
                    &&& register::param_logical(p) == "types::Logicaltype::Int64"@
                    &&& words::has_piece(
                        s,
                        "let arg"@ + d + " = dv_i64(&args, "@ + d + ", \""@ + sql_name
                            + "\")? as u32;\n"@,
                    )
                },
                ParamShape::U64 => {
                    &&& register::param_logical(p) == "types::Logicaltype::Int64"@
                    &&& words::has_piece(
                        s,
                        "let arg"@ + d + " = dv_i64(&args, "@ + d + ", \""@ + sql_name
                            + "\")? as u64;\n"@,
                    )
                },
                ParamShape::Bool => {
                    &&& register::param_logical(p) == "types::Logicaltype::Boolean"@
                    &&& words::has_piece(
                        s,
                        "let arg"@ + d + " = dv_bool(&args, "@ + d + ", \""@ + sql_name
                            + "\")?;\n"@,
                    )
                },
                ParamShape::Blob => {
                    &&& register::param_logical(p) == "types::Logicaltype::Blob"@
                    &&& words::has_piece(
                        s,
                        "let arg"@ + d + " = dv_blob(&args, "@ + d + ", \""@ + sql_name
                            + "\")?;\n"@,
                    )
                },
                ParamShape::Geom => {
                    &&& register::param_logical(p) == "types::Logicaltype::Blob"@
                    &&& words::has_piece(
                        s,
                        "let arg"@ + d + " = from_wkb(dv_blob(&args, "@ + d + ", \""@ + sql_name
                            + "\")?, \""@ + sql_name + "\")?;\n"@,
                    )
                },
                ParamShape::Geog => {
                    &&& register::param_logical(p) == "types::Logicaltype::Blob"@
                    &&& words::has_piece(
                        s,
                        "let arg"@ + d + " = geog_from_wkb(dv_blob(&args, "@ + d + ", \""@
                            + sql_name + "\")?, \""@ + sql_name + "\")?;\n"@,
                    )
                },
                ParamShape::Raster => {
                    &&& register::param_logical(p) == "types::Logicaltype::Blob"@
                    &&& words::has_piece(
                        s,
                        "let arg"@ + d + " = from_raster_binary(dv_blob(&args, "@ + d + ", \""@
                            + sql_name + "\")?, \""@ + sql_name + "\")?;\n"@,
                    )
                },
                ParamShape::Topology => {
                    &&& register::param_logical(p) == "types::Logicaltype::Blob"@
                    &&& words::has_piece(
                        s,
                        "let arg"@ + d + " = from_topology_bytes(dv_blob(&args, "@ + d + ", \""@
                            + sql_name + "\")?, \""@ + sql_name + "\")?;\n"@,
                    )
                },
                ParamShape::ListRecord { kebab_name } => {
                    &&& register::param_logical(p) == "types::Logicaltype::Text"@
                    &&& words::has_piece(
                        s,
                        "let arg"@ + d + " = parse_json_list_record_"@ + words::snake(kebab_name@)
                            + "(&args, "@ + d + ", \""@ + sql_name + "\")?;\n"@,
                    )
                },
                ParamShape::WitValueRecord { kebab_name, upstream_by_value } => {
                    &&& register::param_logical(p)
                        == "types::Logicaltype::Complex(\"VARCHAR\".into())"@
                    &&& words::has_piece(
                        s,
                        "let arg"@ + d + " = arg_witvalue_"@ + words::snake(kebab_name@)
                            + "(&args, "@ + d + ", \""@ + sql_name + "\")?;\n"@,
                    )
                },
                ParamShape::ListPrim(elem) => {
                    &&& register::param_logical(p) == "types::Logicaltype::Text"@
                    &&& words::has_piece(
                        s,
                        "let arg"@ + d + ": Vec<"@ + elem.rust_type() + "> = parse_json_list_"@
                            + elem.suffix() + "(&args, "@ + d + ", \""@ + sql_name + "\")?;\n"@,
                    )
                },
                ParamShape::ListTuple { elements } => {
                    &&& register::param_logical(p) == "types::Logicaltype::Text"@
                    &&& words::has_piece(
                        s,
                        "let arg"@ + d + ": Vec<"@
                            + tuples::tuple_type(tuples::rust_types(elements@))
                            + "> = parse_json_list_tuple_"@ + tuples::tuple_suffix(elements@)
                            + "(&args, "@ + d + ", \""@ + sql_name + "\")?;\n"@,
                    )
                },
                ParamShape::ListListU8 => {
                    &&& register::param_logical(p) == "types::Logicaltype::Text"@
                    &&& words::has_piece(
                        s,
                        "let arg"@ + d + ": Vec<Vec<"@ + "u8"@
                            + ">> = parse_json_list_list_u8(&args, "@ + d + ", \""@ + sql_name
                            + "\")?;\n"@,
                    )
                },
                ParamShape::ListListPrim(elem) => {
                    &&& register::param_logical(p) == "types::Logicaltype::Text"@
                    &&& words::has_piece(
                        s,
                        "let arg"@ + d + ": Vec<Vec<"@ + elem.rust_type()
                            + ">> = parse_json_list_list_"@ + elem.suffix() + "(&args, "@ + d
                            + ", \""@ + sql_name + "\")?;\n"@,
                    )
                },
                ParamShape::ListGeom => {
                    &&& register::param_logical(p) == "types::Logicaltype::Blob"@
                    &&& last ==> words::has_piece(
                        s,
                        "let arg"@ + d + "_owned: Vec<Geometry> = args["@ + d + "..]"@,
                    )
                    &&& last ==> words::has_piece(
                        s,
                        "types::Duckvalue::Blob(b) => Geometry::from_wkb(b.as_slice())"@,
                    )
                    &&& last ==> words::has_piece(
                        s,
                        "let arg"@ + d + ": Vec<&Geometry> = arg"@ + d
                            + "_owned.iter().collect();"@,
                    )
                    &&& !last ==> words::has_piece(
                        s,
                        "let arg"@ + d + "_one = from_wkb(dv_blob(&args, "@ + d + ", \""@
                            + sql_name + "\")?"@,
                    )
                    &&& !last ==> words::has_piece(
                        s,
                        "let arg"@ + d + "_owned: Vec<Geometry> = alloc::vec![arg"@ + d + "_one];"@,
                    )
                    &&& !last ==> words::has_piece(
                        s,
                        "let arg"@ + d + ": Vec<&Geometry> = arg"@ + d
                            + "_owned.iter().collect();"@,
                    )
                },
                ParamShape::Enum { wit_module, wit_package, kebab_name, cases } => {
                    &&& register::param_logical(p) == "types::Logicaltype::Int64"@
                    &&& words::has_piece(
                        s,
                        "let arg"@ + d + " = match dv_i64(&args, "@ + d + ", \""@ + sql_name
                            + "\")?"@,
                    )
                    &&& words::has_piece(
                        s,
                        calls::enum_arms(i, wit_module@, kebab_name@, cases@, cases@.len()),
                    )
                    &&& words::has_piece(
                        s,
                        "other => return Err(types::Duckerror::Invalidargument(format!("@,
                    )
                    &&& words::has_piece(s, " (valid 0.."@ + words::decimal(cases@.len()) + ")\""@)
                },
                ParamShape::OptionNone => s.len() == 0,
                ParamShape::ListTupleMixed { .. }
                | ParamShape::ListListRecord { .. } => !dispatch::param_wired(p),
            }
        }),
{
    match p {
        ParamShape::Text => lemma_read_text(p, idx, last, sql_name, i),
        ParamShape::F64 => lemma_read_f64(p, idx, last, sql_name, i),
        ParamShape::S32 => lemma_read_s32(p, idx, last, sql_name, i),
        ParamShape::S64 => lemma_read_s64(p, idx, last, sql_name, i),
        ParamShape::U32 => lemma_read_u32(p, idx, last, sql_name, i),
        ParamShape::U64 => lemma_read_u64(p, idx, last, sql_name, i),
        ParamShape::Bool => lemma_read_bool(p, idx, last, sql_name, i),
        ParamShape::Blob => lemma_read_blob(p, idx, last, sql_name, i),
        ParamShape::Geom => lemma_read_geom(p, idx, last, sql_name, i),
        ParamShape::Geog => lemma_read_geog(p, idx, last, sql_name, i),
        ParamShape::Raster => lemma_read_raster(p, idx, last, sql_name, i),
        ParamShape::Topology => lemma_read_topology(p, idx, last, sql_name, i),
        ParamShape::ListRecord { kebab_name } => lemma_read_list_record(p, idx, last, sql_name, i),
        ParamShape::WitValueRecord { kebab_name, upstream_by_value } => lemma_read_wit_value(p, idx, last, sql_name, i),
        ParamShape::ListPrim(elem) => lemma_read_list_prim(p, idx, last, sql_name, i),
        ParamShape::ListTuple { elements } => lemma_read_list_tuple(p, idx, last, sql_name, i),
        ParamShape::ListListU8 => lemma_read_list_list_u8(p, idx, last, sql_name, i),
        ParamShape::ListListPrim(elem) => lemma_read_list_list_prim(p, idx, last, sql_name, i),
        ParamShape::ListGeom => lemma_read_list_geom(p, idx, last, sql_name, i),
        ParamShape::Enum { .. } => lemma_read_enum(p, idx, last, sql_name, i),
        _ => {},
    }
}

/// The declaration of each argument, at its own position, stands among the declarations.
pub proof fn law_arguments_declared(
    params: Seq<ParamShape>,
    sql_name: Seq<char>,
    i: Seq<char>,
    n: nat,
    k: int,
)
    requires
        0 <= k < n <= params.len(),
    ensures
        words::has_piece(
            dispatch::arg_decls(params, sql_name, i, n),
            dispatch::arg_decl(params[k], k as nat, k == params.len() - 1, sql_name, i),
        ),
    decreases n,
{
    let before = dispatch::arg_decls(params, sql_name, i, (n - 1) as nat);
    let decl = dispatch::arg_decl(params[n - 1], (n - 1) as nat, n == params.len(), sql_name, i);
    if k == n - 1 {
        words::lemma_piece_added(before, decl);
    } else {
        law_arguments_declared(params, sql_name, i, (n - 1) as nat, k);
        words::lemma_piece_kept(
            before,
            decl,
            dispatch::arg_decl(params[k], k as nat, k == params.len() - 1, sql_name, i),
        );
    }
}

/// The arm of a scalar function declares each argument, and then makes the value of the call of
/// its function. The call of a function that can fail is followed by what turns its error into
/// one with the name of the SQL function; that of any other is followed by nothing.
pub proof fn law_scalar_arm(
    shape: DispatchShape,
    fallible: bool,
    sql_name: Seq<char>,
    i: Seq<char>,
    k: int,
)
    ensures
        ({
            let body = dispatch::scalar_arm_body(shape, fallible, sql_name, i);
            let params = shape.params@;
            let chain = if fallible {
                ".map_err(|e| types::Duckerror::Invalidargument(format!(\""@ + sql_name
                    + ": {}\", shim_err_string(e))))?"@
            } else {
                Seq::empty()
            };
            &&& dispatch::unwrap_chain(fallible, sql_name) == chain
            &&& 0 <= k < params.len() ==> words::has_piece(
                body,
                dispatch::arg_decl(params[k], k as nat, k == params.len() - 1, sql_name, i),
            )
            &&& words::has_piece(
                body,
                dispatch::return_expr(shape.ret, calls::call_expr(shape), chain, sql_name, i),
            )
        }),
{
    let params = shape.params@;
    let decls = dispatch::arg_decls(params, sql_name, i, params.len());
    let chain = dispatch::unwrap_chain(fallible, sql_name);
    let e = dispatch::return_expr(shape.ret, calls::call_expr(shape), chain, sql_name, i);
    lemma_unwrap(sql_name);
    let body = dispatch::scalar_arm_body(shape, fallible, sql_name, i);
    let end = seq!['\n'];
    assert(body =~= (decls + i + e) + end);
    if 0 <= k < params.len() {
        let decl = dispatch::arg_decl(params[k], k as nat, k == params.len() - 1, sql_name, i);
        law_arguments_declared(params, sql_name, i, params.len(), k);
        words::lemma_piece_kept(decls, i, decl);
        words::lemma_piece_kept(decls + i, e, decl);
        words::lemma_piece_kept(decls + i + e, end, decl);
    }
    words::lemma_piece_added(decls + i, e);
    words::lemma_piece_kept(decls + i + e, end, e);
}

/// Extra argument `j` of an aggregate is read from the value at `j` of those that were kept, and
/// that of a window function from the value behind that of the row, each with the reader of its
/// shape.
pub proof fn law_extra_readings(p: ParamShape, j: nat, sql_name: Seq<char>, i: Seq<char>)
    ensures
        ({
            let d = words::decimal(j);
            match p {
                ParamShape::Text => dispatch::extra_decl(p, j, sql_name, i)
                    == i
                        + (
                            "let extra"@ + d + " = dv_text(&extras, "@ + d + ", \""@ + sql_name
                                + "\")?;\n"@
                        ),
                ParamShape::F64 => dispatch::extra_decl(p, j, sql_name, i)
                    == i
                        + (
                            "let extra"@ + d + " = dv_f64(&extras, "@ + d + ", \""@ + sql_name
                                + "\")?;\n"@
                        ),
                ParamShape::S32 => dispatch::extra_decl(p, j, sql_name, i)
                    == i
                        + (
                            "let extra"@ + d + " = dv_i64(&extras, "@ + d + ", \""@ + sql_name
                                + "\")? as i32;\n"@
                        ),
                ParamShape::S64 => dispatch::extra_decl(p, j, sql_name, i)
                    == i
                        + (
                            "let extra"@ + d + " = dv_i64(&extras, "@ + d + ", \""@ + sql_name
                                + "\")?;\n"@
                        ),
                ParamShape::U32 => dispatch::extra_decl(p, j, sql_name, i)
                    == i
                        + (
                            "let extra"@ + d + " = dv_i64(&extras, "@ + d + ", \""@ + sql_name
                                + "\")? as u32;\n"@
                        ),
                ParamShape::U64 => dispatch::extra_decl(p, j, sql_name, i)
                    == i
                        + (
                            "let extra"@ + d + " = dv_i64(&extras, "@ + d + ", \""@ + sql_name
                                + "\")? as u64;\n"@
                        ),
                ParamShape::Bool => dispatch::extra_decl(p, j, sql_name, i)
                    == i
                        + (
                            "let extra"@ + d + " = dv_bool(&extras, "@ + d + ", \""@ + sql_name
                                + "\")?;\n"@
                        ),
                ParamShape::Blob => dispatch::extra_decl(p, j, sql_name, i)
                    == i
                        + (
                            "let extra"@ + d + " = dv_blob(&extras, "@ + d + ", \""@ + sql_name
                                + "\")?;\n"@
                        ),
                _ => dispatch::extra_decl(p, j, sql_name, i).len() == 0,
            }
        }),
        ({
            let d = words::decimal(j);
            let next = words::decimal((j + 1) as nat);
            match p {
                ParamShape::F64 => dispatch::window_extra_decl(p, j, sql_name, i)
                    == i
                        + (
                            "let __extra"@ + d + " = dv_f64(&partition[0], "@ + next + ", \""@
                                + sql_name + "\")?;\n"@
                        ),
                ParamShape::S32 => dispatch::window_extra_decl(p, j, sql_name, i)
                    == i
                        + (
                            "let __extra"@ + d + " = dv_i64(&partition[0], "@ + next + ", \""@
                                + sql_name + "\")? as i32;\n"@
                        ),
                ParamShape::S64 => dispatch::window_extra_decl(p, j, sql_name, i)
                    == i
                        + (
                            "let __extra"@ + d + " = dv_i64(&partition[0], "@ + next + ", \""@
                                + sql_name + "\")?;\n"@
                        ),
                ParamShape::U32 => dispatch::window_extra_decl(p, j, sql_name, i)
                    == i
                        + (
                            "let __extra"@ + d + " = dv_i64(&partition[0], "@ + next + ", \""@
                                + sql_name + "\")? as u32;\n"@
                        ),
                ParamShape::U64 => dispatch::window_extra_decl(p, j, sql_name, i)
                    == i
                        + (
                            "let __extra"@ + d + " = dv_i64(&partition[0], "@ + next + ", \""@
                                + sql_name + "\")? as u64;\n"@
                        ),
                ParamShape::Bool => dispatch::window_extra_decl(p, j, sql_name, i)
                    == i
                        + (
                            "let __extra"@ + d + " = dv_bool(&partition[0], "@ + next + ", \""@
                                + sql_name + "\")?;\n"@
                        ),
                _ => !dispatch::window_extra_wired(p),
            }
        }),
{
    match p {
        ParamShape::Text => lemma_extra_text(p, j, sql_name, i),
        ParamShape::F64 => lemma_extra_f64(p, j, sql_name, i),
        ParamShape::S32 => lemma_extra_s32(p, j, sql_name, i),
        ParamShape::S64 => lemma_extra_s64(p, j, sql_name, i),
        ParamShape::U32 => lemma_extra_u32(p, j, sql_name, i),
        ParamShape::U64 => lemma_extra_u64(p, j, sql_name, i),
        ParamShape::Bool => lemma_extra_bool(p, j, sql_name, i),
        ParamShape::Blob => lemma_extra_blob(p, j, sql_name, i),
        _ => {},
    }
    match p {
        ParamShape::F64 => lemma_window_extra_f64(p, j, sql_name, i),
        ParamShape::S32 => lemma_window_extra_s32(p, j, sql_name, i),
        ParamShape::S64 => lemma_window_extra_s64(p, j, sql_name, i),
        ParamShape::U32 => lemma_window_extra_u32(p, j, sql_name, i),
        ParamShape::U64 => lemma_window_extra_u64(p, j, sql_name, i),
        ParamShape::Bool => lemma_window_extra_bool(p, j, sql_name, i),
        _ => {},
    }
}

proof fn lemma_read_text(p: ParamShape, idx: nat, last: bool, sql_name: Seq<char>, i: Seq<char>)
    requires
        p is Text,
    ensures
        ({
            let s = dispatch::arg_decl(p, idx, last, sql_name, i);
            let d = words::decimal(idx);
            words::has_piece(
                s,
                "let arg"@ + d + " = dv_text(&args, "@ + d + ", \""@ + sql_name + "\")?;\n"@,
            )
        }),
{
    let d = words::decimal(idx);
    let rust_ty = dispatch::element_type(p);
    let arms = dispatch::enum_texts(p, i).0;
    let kebab_name = dispatch::enum_texts(p, i).1;
    let max = dispatch::enum_texts(p, i).2;
    lemma_arg_plain(i, d, sql_name, rust_ty, arms, kebab_name, max);
    lemma_arg_read(d, sql_name);
    lemma_narrowed_line_end(i, d, sql_name, rust_ty, arms, kebab_name, max);
    reveal_strlit(" = ");
    reveal_strlit("dv_text");
    reveal_strlit("(&args, ");
    reveal_strlit(" = dv_text(&args, ");
    assert(" = "@ + "dv_text"@ + "(&args, "@ =~= " = dv_text(&args, "@);
    reveal_strlit("\")?");
    reveal_strlit(";\n");
    reveal_strlit("\")?;\n");
    assert("\")?"@ + ";\n"@ =~= "\")?;\n"@);
    let line = "let arg"@ + d + " = dv_text(&args, "@ + d + ", \""@ + sql_name + "\")?;\n"@;
    assert(dispatch::arg_decl(p, idx, last, sql_name, i) =~= i + (line + Seq::<char>::empty()));
    words::lemma_piece_between(i, line, Seq::empty());
}

proof fn lemma_read_f64(p: ParamShape, idx: nat, last: bool, sql_name: Seq<char>, i: Seq<char>)
    requires
        p is F64,
    ensures
        ({
            let s = dispatch::arg_decl(p, idx, last, sql_name, i);
            let d = words::decimal(idx);
            words::has_piece(
                s,
                "let arg"@ + d + " = dv_f64(&args, "@ + d + ", \""@ + sql_name + "\")?;\n"@,
            )
        }),
{
    let d = words::decimal(idx);
    let rust_ty = dispatch::element_type(p);
    let arms = dispatch::enum_texts(p, i).0;
    let kebab_name = dispatch::enum_texts(p, i).1;
    let max = dispatch::enum_texts(p, i).2;
    lemma_arg_plain(i, d, sql_name, rust_ty, arms, kebab_name, max);
    lemma_arg_read(d, sql_name);
    lemma_narrowed_line_end(i, d, sql_name, rust_ty, arms, kebab_name, max);
    reveal_strlit(" = ");
    reveal_strlit("dv_f64");
    reveal_strlit("(&args, ");
    reveal_strlit(" = dv_f64(&args, ");
    assert(" = "@ + "dv_f64"@ + "(&args, "@ =~= " = dv_f64(&args, "@);
    reveal_strlit("\")?");
    reveal_strlit(";\n");
    reveal_strlit("\")?;\n");
    assert("\")?"@ + ";\n"@ =~= "\")?;\n"@);
    let line = "let arg"@ + d + " = dv_f64(&args, "@ + d + ", \""@ + sql_name + "\")?;\n"@;
    assert(dispatch::arg_decl(p, idx, last, sql_name, i) =~= i + (line + Seq::<char>::empty()));
    words::lemma_piece_between(i, line, Seq::empty());
}

proof fn lemma_read_s32(p: ParamShape, idx: nat, last: bool, sql_name: Seq<char>, i: Seq<char>)
    requires
        p is S32,
    ensures
        ({
            let s = dispatch::arg_decl(p, idx, last, sql_name, i);
            let d = words::decimal(idx);
            words::has_piece(
                s,
                "let arg"@ + d + " = dv_i64(&args, "@ + d + ", \""@ + sql_name + "\")? as i32;\n"@,
            )
        }),
{
    let d = words::decimal(idx);
    let rust_ty = dispatch::element_type(p);
    let arms = dispatch::enum_texts(p, i).0;
    let kebab_name = dispatch::enum_texts(p, i).1;
    let max = dispatch::enum_texts(p, i).2;
    lemma_arg_plain(i, d, sql_name, rust_ty, arms, kebab_name, max);
    lemma_arg_read(d, sql_name);
    lemma_narrowed_i32(i, d, sql_name, rust_ty, arms, kebab_name, max);
    reveal_strlit(" = ");
    reveal_strlit("dv_i64");
    reveal_strlit("(&args, ");
    reveal_strlit(" = dv_i64(&args, ");
    assert(" = "@ + "dv_i64"@ + "(&args, "@ =~= " = dv_i64(&args, "@);
    reveal_strlit("\")?");
    reveal_strlit(" as i32;\n");
    reveal_strlit("\")? as i32;\n");
    assert("\")?"@ + " as i32;\n"@ =~= "\")? as i32;\n"@);
    let line = "let arg"@ + d + " = dv_i64(&args, "@ + d + ", \""@ + sql_name + "\")? as i32;\n"@;
    assert(dispatch::arg_decl(p, idx, last, sql_name, i) =~= i + (line + Seq::<char>::empty()));
    words::lemma_piece_between(i, line, Seq::empty());
}

proof fn lemma_read_s64(p: ParamShape, idx: nat, last: bool, sql_name: Seq<char>, i: Seq<char>)
    requires
        p is S64,
    ensures
        ({
            let s = dispatch::arg_decl(p, idx, last, sql_name, i);
            let d = words::decimal(idx);
            words::has_piece(
                s,
                "let arg"@ + d + " = dv_i64(&args, "@ + d + ", \""@ + sql_name + "\")?;\n"@,
            )
        }),
{
    let d = words::decimal(idx);
    let rust_ty = dispatch::element_type(p);
    let arms = dispatch::enum_texts(p, i).0;
    let kebab_name = dispatch::enum_texts(p, i).1;
    let max = dispatch::enum_texts(p, i).2;
    lemma_arg_plain(i, d, sql_name, rust_ty, arms, kebab_name, max);
    lemma_arg_read(d, sql_name);
    lemma_narrowed_line_end(i, d, sql_name, rust_ty, arms, kebab_name, max);
    reveal_strlit(" = ");
    reveal_strlit("dv_i64");
    reveal_strlit("(&args, ");
    reveal_strlit(" = dv_i64(&args, ");
    assert(" = "@ + "dv_i64"@ + "(&args, "@ =~= " = dv_i64(&args, "@);
    reveal_strlit("\")?");
    reveal_strlit(";\n");
    reveal_strlit("\")?;\n");
    assert("\")?"@ + ";\n"@ =~= "\")?;\n"@);
    let line = "let arg"@ + d + " = dv_i64(&args, "@ + d + ", \""@ + sql_name + "\")?;\n"@;
    assert(dispatch::arg_decl(p, idx, last, sql_name, i) =~= i + (line + Seq::<char>::empty()));
    words::lemma_piece_between(i, line, Seq::empty());
}

proof fn lemma_read_u32(p: ParamShape, idx: nat, last: bool, sql_name: Seq<char>, i: Seq<char>)
    requires
        p is U32,
    ensures
        ({
            let s = dispatch::arg_decl(p, idx, last, sql_name, i);
            let d = words::decimal(idx);
            words::has_piece(
                s,
                "let arg"@ + d + " = dv_i64(&args, "@ + d + ", \""@ + sql_name + "\")? as u32;\n"@,
            )
        }),
{
    let d = words::decimal(idx);
    let rust_ty = dispatch::element_type(p);
    let arms = dispatch::enum_texts(p, i).0;
    let kebab_name = dispatch::enum_texts(p, i).1;
    let max = dispatch::enum_texts(p, i).2;
    lemma_arg_plain(i, d, sql_name, rust_ty, arms, kebab_name, max);
    lemma_arg_read(d, sql_name);
    lemma_narrowed_u32(i, d, sql_name, rust_ty, arms, kebab_name, max);
    reveal_strlit(" = ");
    reveal_strlit("dv_i64");
    reveal_strlit("(&args, ");
    reveal_strlit(" = dv_i64(&args, ");
    assert(" = "@ + "dv_i64"@ + "(&args, "@ =~= " = dv_i64(&args, "@);
    reveal_strlit("\")?");
    reveal_strlit(" as u32;\n");
    reveal_strlit("\")? as u32;\n");
    assert("\")?"@ + " as u32;\n"@ =~= "\")? as u32;\n"@);
    let line = "let arg"@ + d + " = dv_i64(&args, "@ + d + ", \""@ + sql_name + "\")? as u32;\n"@;
    assert(dispatch::arg_decl(p, idx, last, sql_name, i) =~= i + (line + Seq::<char>::empty()));
    words::lemma_piece_between(i, line, Seq::empty());
}

proof fn lemma_read_u64(p: ParamShape, idx: nat, last: bool, sql_name: Seq<char>, i: Seq<char>)
    requires
        p is U64,
    ensures
        ({
            let s = dispatch::arg_decl(p, idx, last, sql_name, i);
            let d = words::decimal(idx);
            words::has_piece(
                s,
                "let arg"@ + d + " = dv_i64(&args, "@ + d + ", \""@ + sql_name + "\")? as u64;\n"@,
            )
        }),
{
    let d = words::decimal(idx);
    let rust_ty = dispatch::element_type(p);
    let arms = dispatch::enum_texts(p, i).0;
    let kebab_name = dispatch::enum_texts(p, i).1;
    let max = dispatch::enum_texts(p, i).2;
    lemma_arg_plain(i, d, sql_name, rust_ty, arms, kebab_name, max);
    lemma_arg_read(d, sql_name);
    lemma_narrowed_u64(i, d, sql_name, rust_ty, arms, kebab_name, max);
    reveal_strlit(" = ");
    reveal_strlit("dv_i64");
    reveal_strlit("(&args, ");
    reveal_strlit(" = dv_i64(&args, ");
    assert(" = "@ + "dv_i64"@ + "(&args, "@ =~= " = dv_i64(&args, "@);
    reveal_strlit("\")?");
    reveal_strlit(" as u64;\n");
    reveal_strlit("\")? as u64;\n");
    assert("\")?"@ + " as u64;\n"@ =~= "\")? as u64;\n"@);
    let line = "let arg"@ + d + " = dv_i64(&args, "@ + d + ", \""@ + sql_name + "\")? as u64;\n"@;
    assert(dispatch::arg_decl(p, idx, last, sql_name, i) =~= i + (line + Seq::<char>::empty()));
    words::lemma_piece_between(i, line, Seq::empty());
}

proof fn lemma_read_bool(p: ParamShape, idx: nat, last: bool, sql_name: Seq<char>, i: Seq<char>)
    requires
        p is Bool,
    ensures
        ({
            let s = dispatch::arg_decl(p, idx, last, sql_name, i);
            let d = words::decimal(idx);
            words::has_piece(
                s,
                "let arg"@ + d + " = dv_bool(&args, "@ + d + ", \""@ + sql_name + "\")?;\n"@,
            )
        }),
{
    let d = words::decimal(idx);
    let rust_ty = dispatch::element_type(p);
    let arms = dispatch::enum_texts(p, i).0;
    let kebab_name = dispatch::enum_texts(p, i).1;
    let max = dispatch::enum_texts(p, i).2;
    lemma_arg_plain(i, d, sql_name, rust_ty, arms, kebab_name, max);
    lemma_arg_read(d, sql_name);
    lemma_narrowed_line_end(i, d, sql_name, rust_ty, arms, kebab_name, max);
    reveal_strlit(" = ");
    reveal_strlit("dv_bool");
    reveal_strlit("(&args, ");
    reveal_strlit(" = dv_bool(&args, ");
    assert(" = "@ + "dv_bool"@ + "(&args, "@ =~= " = dv_bool(&args, "@);
    reveal_strlit("\")?");
    reveal_strlit(";\n");
    reveal_strlit("\")?;\n");
    assert("\")?"@ + ";\n"@ =~= "\")?;\n"@);
    let line = "let arg"@ + d + " = dv_bool(&args, "@ + d + ", \""@ + sql_name + "\")?;\n"@;
    assert(dispatch::arg_decl(p, idx, last, sql_name, i) =~= i + (line + Seq::<char>::empty()));
    words::lemma_piece_between(i, line, Seq::empty());
}

proof fn lemma_read_blob(p: ParamShape, idx: nat, last: bool, sql_name: Seq<char>, i: Seq<char>)
    requires
        p is Blob,
    ensures
        ({
            let s = dispatch::arg_decl(p, idx, last, sql_name, i);
            let d = words::decimal(idx);
            words::has_piece(
                s,
                "let arg"@ + d + " = dv_blob(&args, "@ + d + ", \""@ + sql_name + "\")?;\n"@,
            )
        }),
{
    let d = words::decimal(idx);
    let rust_ty = dispatch::element_type(p);
    let arms = dispatch::enum_texts(p, i).0;
    let kebab_name = dispatch::enum_texts(p, i).1;
    let max = dispatch::enum_texts(p, i).2;
    lemma_arg_plain(i, d, sql_name, rust_ty, arms, kebab_name, max);
    lemma_arg_read(d, sql_name);
    lemma_narrowed_line_end(i, d, sql_name, rust_ty, arms, kebab_name, max);
    reveal_strlit(" = ");
    reveal_strlit("dv_blob");
    reveal_strlit("(&args, ");
    reveal_strlit(" = dv_blob(&args, ");
    assert(" = "@ + "dv_blob"@ + "(&args, "@ =~= " = dv_blob(&args, "@);
    reveal_strlit("\")?");
    reveal_strlit(";\n");
    reveal_strlit("\")?;\n");
    assert("\")?"@ + ";\n"@ =~= "\")?;\n"@);
    let line = "let arg"@ + d + " = dv_blob(&args, "@ + d + ", \""@ + sql_name + "\")?;\n"@;
    assert(dispatch::arg_decl(p, idx, last, sql_name, i) =~= i + (line + Seq::<char>::empty()));
    words::lemma_piece_between(i, line, Seq::empty());
}

proof fn lemma_read_geom(p: ParamShape, idx: nat, last: bool, sql_name: Seq<char>, i: Seq<char>)
    requires
        p is Geom,
    ensures
        ({
            let s = dispatch::arg_decl(p, idx, last, sql_name, i);
            let d = words::decimal(idx);
            words::has_piece(
                s,
                "let arg"@ + d + " = from_wkb(dv_blob(&args, "@ + d + ", \""@ + sql_name
                    + "\")?, \""@ + sql_name + "\")?;\n"@,
            )
        }),
{
    let d = words::decimal(idx);
    let rust_ty = dispatch::element_type(p);
    let arms = dispatch::enum_texts(p, i).0;
    let kebab_name = dispatch::enum_texts(p, i).1;
    let max = dispatch::enum_texts(p, i).2;
    lemma_arg_geom(i, d, sql_name, rust_ty, arms, kebab_name, max);
    lemma_arg_read(d, sql_name);
    lemma_arg_resource_end(i, d, sql_name, rust_ty, arms, kebab_name, max);
    reveal_strlit(" = from_wkb(");
    reveal_strlit("dv_blob");
    reveal_strlit("(&args, ");
    reveal_strlit(" = from_wkb(dv_blob(&args, ");
    assert(" = from_wkb("@ + "dv_blob"@ + "(&args, "@ =~= " = from_wkb(dv_blob(&args, "@);
    reveal_strlit("\")?");
    reveal_strlit(", \"");
    reveal_strlit("\")?, \"");
    assert("\")?"@ + ", \""@ =~= "\")?, \""@);
    let line = "let arg"@ + d + " = from_wkb(dv_blob(&args, "@ + d + ", \""@ + sql_name + "\")?, \""@
        + sql_name + "\")?;\n"@;
    assert(dispatch::arg_decl(p, idx, last, sql_name, i) =~= i + (line + Seq::<char>::empty()));
    words::lemma_piece_between(i, line, Seq::empty());
}

proof fn lemma_read_geog(p: ParamShape, idx: nat, last: bool, sql_name: Seq<char>, i: Seq<char>)
    requires
        p is Geog,
    ensures
        ({
            let s = dispatch::arg_decl(p, idx, last, sql_name, i);
            let d = words::decimal(idx);
            words::has_piece(
                s,
                "let arg"@ + d + " = geog_from_wkb(dv_blob(&args, "@ + d + ", \""@ + sql_name
                    + "\")?, \""@ + sql_name + "\")?;\n"@,
            )
        }),
{
    let d = words::decimal(idx);
    let rust_ty = dispatch::element_type(p);
    let arms = dispatch::enum_texts(p, i).0;
    let kebab_name = dispatch::enum_texts(p, i).1;
    let max = dispatch::enum_texts(p, i).2;
    lemma_arg_geog(i, d, sql_name, rust_ty, arms, kebab_name, max);
    lemma_arg_read(d, sql_name);
    lemma_arg_resource_end(i, d, sql_name, rust_ty, arms, kebab_name, max);
    reveal_strlit(" = geog_from_wkb(");
    reveal_strlit("dv_blob");
    reveal_strlit("(&args, ");
    reveal_strlit(" = geog_from_wkb(dv_blob(&args, ");
    assert(" = geog_from_wkb("@ + "dv_blob"@ + "(&args, "@ =~= " = geog_from_wkb(dv_blob(&args, "@);
    reveal_strlit("\")?");
    reveal_strlit(", \"");
    reveal_strlit("\")?, \"");
    assert("\")?"@ + ", \""@ =~= "\")?, \""@);
    let line = "let arg"@ + d + " = geog_from_wkb(dv_blob(&args, "@ + d + ", \""@ + sql_name + "\")?, \""@
        + sql_name + "\")?;\n"@;
    assert(dispatch::arg_decl(p, idx, last, sql_name, i) =~= i + (line + Seq::<char>::empty()));
    words::lemma_piece_between(i, line, Seq::empty());
}

proof fn lemma_read_raster(p: ParamShape, idx: nat, last: bool, sql_name: Seq<char>, i: Seq<char>)
    requires
        p is Raster,
    ensures
        ({
            let s = dispatch::arg_decl(p, idx, last, sql_name, i);
            let d = words::decimal(idx);
            words::has_piece(
                s,
                "let arg"@ + d + " = from_raster_binary(dv_blob(&args, "@ + d + ", \""@ + sql_name
                    + "\")?, \""@ + sql_name + "\")?;\n"@,
            )
        }),
{
    let d = words::decimal(idx);
    let rust_ty = dispatch::element_type(p);
    let arms = dispatch::enum_texts(p, i).0;
    let kebab_name = dispatch::enum_texts(p, i).1;
    let max = dispatch::enum_texts(p, i).2;
    lemma_arg_raster(i, d, sql_name, rust_ty, arms, kebab_name, max);
    lemma_arg_read(d, sql_name);
    lemma_arg_resource_end(i, d, sql_name, rust_ty, arms, kebab_name, max);
    reveal_strlit(" = from_raster_binary(");
    reveal_strlit("dv_blob");
    reveal_strlit("(&args, ");
    reveal_strlit(" = from_raster_binary(dv_blob(&args, ");
    assert(" = from_raster_binary("@ + "dv_blob"@ + "(&args, "@
        =~= " = from_raster_binary(dv_blob(&args, "@);
    reveal_strlit("\")?");
    reveal_strlit(", \"");
    reveal_strlit("\")?, \"");
    assert("\")?"@ + ", \""@ =~= "\")?, \""@);
    let line = "let arg"@ + d + " = from_raster_binary(dv_blob(&args, "@ + d + ", \""@ + sql_name
        + "\")?, \""@ + sql_name + "\")?;\n"@;
    assert(dispatch::arg_decl(p, idx, last, sql_name, i) =~= i + (line + Seq::<char>::empty()));
    words::lemma_piece_between(i, line, Seq::empty());
}

proof fn lemma_read_topology(p: ParamShape, idx: nat, last: bool, sql_name: Seq<char>, i: Seq<char>)
    requires
        p is Topology,
    ensures
        ({
            let s = dispatch::arg_decl(p, idx, last, sql_name, i);
            let d = words::decimal(idx);
            words::has_piece(
                s,
                "let arg"@ + d + " = from_topology_bytes(dv_blob(&args, "@ + d + ", \""@ + sql_name
                    + "\")?, \""@ + sql_name + "\")?;\n"@,
            )
        }),
{
    let d = words::decimal(idx);
    let rust_ty = dispatch::element_type(p);
    let arms = dispatch::enum_texts(p, i).0;
    let kebab_name = dispatch::enum_texts(p, i).1;
    let max = dispatch::enum_texts(p, i).2;
    lemma_arg_topology(i, d, sql_name, rust_ty, arms, kebab_name, max);
    lemma_arg_read(d, sql_name);
    lemma_arg_resource_end(i, d, sql_name, rust_ty, arms, kebab_name, max);
    reveal_strlit(" = from_topology_bytes(");
    reveal_strlit("dv_blob");
    reveal_strlit("(&args, ");
    reveal_strlit(" = from_topology_bytes(dv_blob(&args, ");
    assert(" = from_topology_bytes("@ + "dv_blob"@ + "(&args, "@
        =~= " = from_topology_bytes(dv_blob(&args, "@);
    reveal_strlit("\")?");
    reveal_strlit(", \"");
    reveal_strlit("\")?, \"");
    assert("\")?"@ + ", \""@ =~= "\")?, \""@);
    let line = "let arg"@ + d + " = from_topology_bytes(dv_blob(&args, "@ + d + ", \""@ + sql_name
        + "\")?, \""@ + sql_name + "\")?;\n"@;
    assert(dispatch::arg_decl(p, idx, last, sql_name, i) =~= i + (line + Seq::<char>::empty()));
    words::lemma_piece_between(i, line, Seq::empty());
}

proof fn lemma_read_list_record(
    p: ParamShape,
    idx: nat,
    last: bool,
    sql_name: Seq<char>,
    i: Seq<char>,
)
    requires
        p is ListRecord,
    ensures
        ({
            let s = dispatch::arg_decl(p, idx, last, sql_name, i);
            let d = words::decimal(idx);
            words::has_piece(
                s,
                "let arg"@ + d + " = parse_json_list_record_"@
                    + words::snake(p->ListRecord_kebab_name@) + "(&args, "@ + d + ", \""@
                    + sql_name + "\")?;\n"@,
            )
        }),
{
    let d = words::decimal(idx);
    let rust_ty = dispatch::element_type(p);
    let arms = dispatch::enum_texts(p, i).0;
    let kebab_name = dispatch::enum_texts(p, i).1;
    let max = dispatch::enum_texts(p, i).2;
    lemma_arg_plain(i, d, sql_name, rust_ty, arms, kebab_name, max);
    lemma_arg_read(d, sql_name);
    lemma_narrowed_line_end(i, d, sql_name, rust_ty, arms, kebab_name, max);
    reveal_strlit(" = ");
    reveal_strlit("parse_json_list_record_");
    reveal_strlit(" = parse_json_list_record_");
    assert(" = "@ + "parse_json_list_record_"@ =~= " = parse_json_list_record_"@);
    reveal_strlit("\")?");
    reveal_strlit(";\n");
    reveal_strlit("\")?;\n");
    assert("\")?"@ + ";\n"@ =~= "\")?;\n"@);
    let line = "let arg"@ + d + " = parse_json_list_record_"@ + words::snake(p->ListRecord_kebab_name@)
        + "(&args, "@ + d + ", \""@ + sql_name + "\")?;\n"@;
    assert(dispatch::arg_decl(p, idx, last, sql_name, i) =~= i + (line + Seq::<char>::empty()));
    words::lemma_piece_between(i, line, Seq::empty());
}

proof fn lemma_read_wit_value(
    p: ParamShape,
    idx: nat,
    last: bool,
    sql_name: Seq<char>,
    i: Seq<char>,
)
    requires
        p is WitValueRecord,
    ensures
        ({
            let s = dispatch::arg_decl(p, idx, last, sql_name, i);
            let d = words::decimal(idx);
            words::has_piece(
                s,
                "let arg"@ + d + " = arg_witvalue_"@ + words::snake(p->WitValueRecord_kebab_name@)
                    + "(&args, "@ + d + ", \""@ + sql_name + "\")?;\n"@,
            )
        }),
{
    let d = words::decimal(idx);
    let rust_ty = dispatch::element_type(p);
    let arms = dispatch::enum_texts(p, i).0;
    let kebab_name = dispatch::enum_texts(p, i).1;
    let max = dispatch::enum_texts(p, i).2;
    lemma_arg_plain(i, d, sql_name, rust_ty, arms, kebab_name, max);
    lemma_arg_read(d, sql_name);
    lemma_narrowed_line_end(i, d, sql_name, rust_ty, arms, kebab_name, max);
    reveal_strlit(" = ");
    reveal_strlit("arg_witvalue_");
    reveal_strlit(" = arg_witvalue_");
    assert(" = "@ + "arg_witvalue_"@ =~= " = arg_witvalue_"@);
    reveal_strlit("\")?");
    reveal_strlit(";\n");
    reveal_strlit("\")?;\n");
    assert("\")?"@ + ";\n"@ =~= "\")?;\n"@);
    let line = "let arg"@ + d + " = arg_witvalue_"@ + words::snake(p->WitValueRecord_kebab_name@)
        + "(&args, "@ + d + ", \""@ + sql_name + "\")?;\n"@;
    assert(dispatch::arg_decl(p, idx, last, sql_name, i) =~= i + (line + Seq::<char>::empty()));
    words::lemma_piece_between(i, line, Seq::empty());
}

proof fn lemma_read_list_prim(
    p: ParamShape,
    idx: nat,
    last: bool,
    sql_name: Seq<char>,
    i: Seq<char>,
)
    requires
        p is ListPrim,
    ensures
        ({
            let s = dispatch::arg_decl(p, idx, last, sql_name, i);
            let d = words::decimal(idx);
            words::has_piece(
                s,
                "let arg"@ + d + ": Vec<"@ + p->ListPrim_0.rust_type() + "> = parse_json_list_"@
                    + p->ListPrim_0.suffix() + "(&args, "@ + d + ", \""@ + sql_name + "\")?;\n"@,
            )
        }),
{
    let d = words::decimal(idx);
    let rust_ty = dispatch::element_type(p);
    let arms = dispatch::enum_texts(p, i).0;
    let kebab_name = dispatch::enum_texts(p, i).1;
    let max = dispatch::enum_texts(p, i).2;
    lemma_arg_list(i, d, sql_name, rust_ty, arms, kebab_name, max);
    lemma_arg_read(d, sql_name);
    lemma_narrowed_line_end(i, d, sql_name, rust_ty, arms, kebab_name, max);
    reveal_strlit("> = ");
    reveal_strlit("parse_json_list_");
    reveal_strlit("> = parse_json_list_");
    assert("> = "@ + "parse_json_list_"@ =~= "> = parse_json_list_"@);
    reveal_strlit("\")?");
    reveal_strlit(";\n");
    reveal_strlit("\")?;\n");
    assert("\")?"@ + ";\n"@ =~= "\")?;\n"@);
    let line = "let arg"@ + d + ": Vec<"@ + p->ListPrim_0.rust_type() + "> = parse_json_list_"@
        + p->ListPrim_0.suffix() + "(&args, "@ + d + ", \""@ + sql_name + "\")?;\n"@;
    assert(dispatch::arg_decl(p, idx, last, sql_name, i) =~= i + (line + Seq::<char>::empty()));
    words::lemma_piece_between(i, line, Seq::empty());
}

proof fn lemma_read_list_tuple(
    p: ParamShape,
    idx: nat,
    last: bool,
    sql_name: Seq<char>,
    i: Seq<char>,
)
    requires
        p is ListTuple,
    ensures
        ({
            let s = dispatch::arg_decl(p, idx, last, sql_name, i);
            let d = words::decimal(idx);
            words::has_piece(
                s,
                "let arg"@ + d + ": Vec<"@
                    + tuples::tuple_type(tuples::rust_types(p->ListTuple_elements@))
                    + "> = parse_json_list_tuple_"@ + tuples::tuple_suffix(p->ListTuple_elements@)
                    + "(&args, "@ + d + ", \""@ + sql_name + "\")?;\n"@,
            )
        }),
{
    let d = words::decimal(idx);
    let rust_ty = dispatch::element_type(p);
    let arms = dispatch::enum_texts(p, i).0;
    let kebab_name = dispatch::enum_texts(p, i).1;
    let max = dispatch::enum_texts(p, i).2;
    lemma_arg_list(i, d, sql_name, rust_ty, arms, kebab_name, max);
    lemma_arg_read(d, sql_name);
    lemma_narrowed_line_end(i, d, sql_name, rust_ty, arms, kebab_name, max);
    reveal_strlit("> = ");
    reveal_strlit("parse_json_list_tuple_");
    reveal_strlit("> = parse_json_list_tuple_");
    assert("> = "@ + "parse_json_list_tuple_"@ =~= "> = parse_json_list_tuple_"@);
    reveal_strlit("\")?");
    reveal_strlit(";\n");
    reveal_strlit("\")?;\n");
    assert("\")?"@ + ";\n"@ =~= "\")?;\n"@);
    let line = "let arg"@ + d + ": Vec<"@ + tuples::tuple_type(tuples::rust_types(p->ListTuple_elements@))
        + "> = parse_json_list_tuple_"@ + tuples::tuple_suffix(p->ListTuple_elements@)
        + "(&args, "@ + d + ", \""@ + sql_name + "\")?;\n"@;
    assert(dispatch::arg_decl(p, idx, last, sql_name, i) =~= i + (line + Seq::<char>::empty()));
    words::lemma_piece_between(i, line, Seq::empty());
}

proof fn lemma_read_list_list_u8(
    p: ParamShape,
    idx: nat,
    last: bool,
    sql_name: Seq<char>,
    i: Seq<char>,
)
    requires
        p is ListListU8,
    ensures
        ({
            let s = dispatch::arg_decl(p, idx, last, sql_name, i);
            let d = words::decimal(idx);
            words::has_piece(
                s,
                "let arg"@ + d + ": Vec<Vec<"@ + "u8"@ + ">> = parse_json_list_list_u8(&args, "@
                    + d + ", \""@ + sql_name + "\")?;\n"@,
            )
        }),
{
    let d = words::decimal(idx);
    let rust_ty = dispatch::element_type(p);
    let arms = dispatch::enum_texts(p, i).0;
    let kebab_name = dispatch::enum_texts(p, i).1;
    let max = dispatch::enum_texts(p, i).2;
    lemma_arg_list_list(i, d, sql_name, rust_ty, arms, kebab_name, max);
    lemma_arg_read(d, sql_name);
    lemma_narrowed_line_end(i, d, sql_name, rust_ty, arms, kebab_name, max);
    reveal_strlit(">> = ");
    reveal_strlit("parse_json_list_list_u8");
    reveal_strlit("(&args, ");
    reveal_strlit(">> = parse_json_list_list_u8(&args, ");
    assert(">> = "@ + "parse_json_list_list_u8"@ + "(&args, "@ =~= ">> = parse_json_list_list_u8(&args, "@);
    reveal_strlit("\")?");
    reveal_strlit(";\n");
    reveal_strlit("\")?;\n");
    assert("\")?"@ + ";\n"@ =~= "\")?;\n"@);
    let line = "let arg"@ + d + ": Vec<Vec<"@ + "u8"@ + ">> = parse_json_list_list_u8(&args, "@ + d + ", \""@
        + sql_name + "\")?;\n"@;
    assert(dispatch::arg_decl(p, idx, last, sql_name, i) =~= i + (line + Seq::<char>::empty()));
    words::lemma_piece_between(i, line, Seq::empty());
}

proof fn lemma_read_list_list_prim(
    p: ParamShape,
    idx: nat,
    last: bool,
    sql_name: Seq<char>,
    i: Seq<char>,
)
    requires
        p is ListListPrim,
    ensures
        ({
            let s = dispatch::arg_decl(p, idx, last, sql_name, i);
            let d = words::decimal(idx);
            words::has_piece(
                s,
                "let arg"@ + d + ": Vec<Vec<"@ + p->ListListPrim_0.rust_type()
                    + ">> = parse_json_list_list_"@ + p->ListListPrim_0.suffix() + "(&args, "@ + d
                    + ", \""@ + sql_name + "\")?;\n"@,
            )
        }),
{
    let d = words::decimal(idx);
    let rust_ty = dispatch::element_type(p);
    let arms = dispatch::enum_texts(p, i).0;
    let kebab_name = dispatch::enum_texts(p, i).1;
    let max = dispatch::enum_texts(p, i).2;
    lemma_arg_list_list(i, d, sql_name, rust_ty, arms, kebab_name, max);
    lemma_arg_read(d, sql_name);
    lemma_narrowed_line_end(i, d, sql_name, rust_ty, arms, kebab_name, max);
    reveal_strlit(">> = ");
    reveal_strlit("parse_json_list_list_");
    reveal_strlit(">> = parse_json_list_list_");
    assert(">> = "@ + "parse_json_list_list_"@ =~= ">> = parse_json_list_list_"@);
    reveal_strlit("\")?");
    reveal_strlit(";\n");
    reveal_strlit("\")?;\n");
    assert("\")?"@ + ";\n"@ =~= "\")?;\n"@);
    let line = "let arg"@ + d + ": Vec<Vec<"@ + p->ListListPrim_0.rust_type() + ">> = parse_json_list_list_"@
        + p->ListListPrim_0.suffix() + "(&args, "@ + d + ", \""@ + sql_name + "\")?;\n"@;
    assert(dispatch::arg_decl(p, idx, last, sql_name, i) =~= i + (line + Seq::<char>::empty()));
    words::lemma_piece_between(i, line, Seq::empty());
}

proof fn lemma_read_list_geom(
    p: ParamShape,
    idx: nat,
    last: bool,
    sql_name: Seq<char>,
    i: Seq<char>,
)
    requires
        p is ListGeom,
    ensures
        ({
            let s = dispatch::arg_decl(p, idx, last, sql_name, i);
            let d = words::decimal(idx);
            &&& last ==> words::has_piece(s, "let arg"@ + d + "_owned: Vec<Geometry> = args["@ + d + "..]"@)
            &&& last ==> words::has_piece(s, "types::Duckvalue::Blob(b) => Geometry::from_wkb(b.as_slice())"@)
            &&& last ==> words::has_piece(
                s,
                "let arg"@ + d + ": Vec<&Geometry> = arg"@ + d + "_owned.iter().collect();"@,
            )
            &&& !last ==> words::has_piece(
                s,
                "let arg"@ + d + "_one = from_wkb(dv_blob(&args, "@ + d + ", \""@ + sql_name
                    + "\")?"@,
            )
            &&& !last ==> words::has_piece(
                s,
                "let arg"@ + d + "_owned: Vec<Geometry> = alloc::vec![arg"@ + d + "_one];"@,
            )
            &&& !last ==> words::has_piece(
                s,
                "let arg"@ + d + ": Vec<&Geometry> = arg"@ + d + "_owned.iter().collect();"@,
            )
        }),
{
    let d = words::decimal(idx);
    let rust_ty = dispatch::element_type(p);
    let arms = dispatch::enum_texts(p, i).0;
    let kebab_name = dispatch::enum_texts(p, i).1;
    let max = dispatch::enum_texts(p, i).2;
    let holes = dispatch::arg_holes(p, idx, sql_name, i);
    let before = text::fill(dispatch::arg_frame(p, last).0, holes);
    let after = text::fill(dispatch::arg_frame(p, last).1, holes);
    let reading = dispatch::arg_reading(p, idx, last, sql_name);
    let s = dispatch::arg_decl(p, idx, last, sql_name, i);
    words::lemma_pieces_around(before, reading, after);
    if last {
        lemma_arg_list_geom_rest(i, d, sql_name, rust_ty, arms, kebab_name, max);
        lemma_list_geom_rest_end(i, d, sql_name, rust_ty, arms, kebab_name, max);
        let arm = "types::Duckvalue::Blob(b) => Geometry::from_wkb(b.as_slice())"@;
        reveal_strlit("types::Duckvalue::Blob(b) => Geometry::from_wkb(b.as_slice())");
        reveal_strlit("types::Duckvalue::Blob");
        reveal_strlit("(b)");
        reveal_strlit(" => Geometry::from_wkb(b.as_slice())");
        assert("types::Duckvalue::Blob"@ + "(b)"@ + " => Geometry::from_wkb(b.as_slice())"@ =~= arm);
        let rest = lemma_list_geom_rest_end(i, d, sql_name, rust_ty, arms, kebab_name, max);
        assert(s =~= before + (arm + rest));
        words::lemma_piece_between(before, arm, rest);
        lemma_arg_list_geom_rest_end(i, d, sql_name, rust_ty, arms, kebab_name, max);
    } else {
        lemma_arg_list_geom_one(i, d, sql_name, rust_ty, arms, kebab_name, max);
        lemma_arg_read(d, sql_name);
        lemma_arg_list_geom_one_end(i, d, sql_name, rust_ty, arms, kebab_name, max);
        reveal_strlit("_one = from_wkb(");
        reveal_strlit("dv_blob");
        reveal_strlit("(&args, ");
        reveal_strlit("_one = from_wkb(dv_blob(&args, ");
        assert("_one = from_wkb("@ + "dv_blob"@ + "(&args, "@ =~= "_one = from_wkb(dv_blob(&args, "@);
        let line = "let arg"@ + d + "_one = from_wkb(dv_blob(&args, "@ + d + ", \""@ + sql_name + "\")?"@;
        assert(s =~= i + (line + after));
        words::lemma_piece_between(i, line, after);
    }
}

proof fn lemma_read_enum(p: ParamShape, idx: nat, last: bool, sql_name: Seq<char>, i: Seq<char>)
    requires
        p is Enum,
    ensures
        ({
            let s = dispatch::arg_decl(p, idx, last, sql_name, i);
            let d = words::decimal(idx);
            &&& words::has_piece(
                s,
                "let arg"@ + d + " = match dv_i64(&args, "@ + d + ", \""@ + sql_name + "\")?"@,
            )
            &&& words::has_piece(s, dispatch::enum_texts(p, i).0)
            &&& words::has_piece(s, "other => return Err(types::Duckerror::Invalidargument(format!("@)
            &&& words::has_piece(s, " (valid 0.."@ + dispatch::enum_texts(p, i).2 + ")\""@)
        }),
{
    let d = words::decimal(idx);
    let rust_ty = dispatch::element_type(p);
    let arms = dispatch::enum_texts(p, i).0;
    let kebab_name = dispatch::enum_texts(p, i).1;
    let max = dispatch::enum_texts(p, i).2;
    let holes = dispatch::arg_holes(p, idx, sql_name, i);
    let before = text::fill(dispatch::arg_frame(p, last).0, holes);
    let after = text::fill(dispatch::arg_frame(p, last).1, holes);
    let reading = dispatch::arg_reading(p, idx, last, sql_name);
    let s = dispatch::arg_decl(p, idx, last, sql_name, i);
    words::lemma_pieces_around(before, reading, after);
    lemma_arg_enum(i, d, sql_name, rust_ty, arms, kebab_name, max);
    lemma_arg_read(d, sql_name);
    lemma_arg_enum_end(i, d, sql_name, rust_ty, arms, kebab_name, max);
    reveal_strlit(" = match ");
    reveal_strlit("dv_i64");
    reveal_strlit("(&args, ");
    reveal_strlit(" = match dv_i64(&args, ");
    assert(" = match "@ + "dv_i64"@ + "(&args, "@ =~= " = match dv_i64(&args, "@);
    let line = "let arg"@ + d + " = match dv_i64(&args, "@ + d + ", \""@ + sql_name + "\")?"@;
    assert(s =~= i + (line + after));
    words::lemma_piece_between(i, line, after);
}

proof fn lemma_list_geom_rest_end(
    i: Seq<char>,
    idx: Seq<char>,
    sql_name: Seq<char>,
    rust_ty: Seq<char>,
    arms: Seq<char>,
    kebab_name: Seq<char>,
    max: Seq<char>,
) -> (rest: Seq<char>)
    ensures
        text::fill(
            t::ARG_LIST_GEOM_REST_END@,
            seq![("i"@, i), ("idx"@, idx), ("sql_name"@, sql_name), ("rust_ty"@, rust_ty), ("arms"@, arms), ("kebab_name"@, kebab_name), ("max"@, max)],
        )
            == " => Geometry::from_wkb(b.as_slice())"@ + rest,
{
    let s = t::ARG_LIST_GEOM_REST_END@;
    let b = seq![("i"@, i), ("idx"@, idx), ("sql_name"@, sql_name), ("rust_ty"@, rust_ty), ("arms"@, arms), ("kebab_name"@, kebab_name), ("max"@, max)];
    reveal_strlit(r#" => Geometry::from_wkb(b.as_slice())
{i}            .map_err(|e| types::Duckerror::Invalidargument(
{i}                format!("{sql_name}: arg {{}}: {{}}", {idx} + j, postgis_err_string(e)))),
{i}        types::Duckvalue::Text(t) => Geometry::from_wkb(t.as_bytes())
{i}            .map_err(|e| types::Duckerror::Invalidargument(
{i}                format!("{sql_name}: arg {{}}: {{}}", {idx} + j, postgis_err_string(e)))),
{i}        _ => Err(types::Duckerror::Invalidargument(
{i}            format!("{sql_name}: arg {{}} must be BLOB", {idx} + j))),
{i}    }})
{i}    .collect::<Result<Vec<_>, _>>()?;
{i}let arg{idx}: Vec<&Geometry> = arg{idx}_owned.iter().collect();
"#);
    reveal_strlit(" => Geometry::from_wkb(b.as_slice())");
    reveal_with_fuel(text::plain_to, 40);
    assert(s.subrange(0, 36) =~= " => Geometry::from_wkb(b.as_slice())"@);
    text::lemma_fill_run(s, b, 0, " => Geometry::from_wkb(b.as_slice())"@);
    text::fill_from(s, b, 36)
}

proof fn lemma_extra_text(p: ParamShape, j: nat, sql_name: Seq<char>, i: Seq<char>)
    requires
        p is Text,
    ensures
        ({
            let d = words::decimal(j);
            dispatch::extra_decl(p, j, sql_name, i)
                == i
                    + (
                        "let extra"@ + d + " = dv_text(&extras, "@ + d + ", \""@ + sql_name
                            + "\")?;\n"@
                    )
        }),
{
    let d = words::decimal(j);
    lemma_extra(i, d);
    lemma_extra_read(d, sql_name);
    reveal_strlit(" = ");
    reveal_strlit("dv_text");
    reveal_strlit("(&extras, ");
    reveal_strlit(" = dv_text(&extras, ");
    assert(" = "@ + "dv_text"@ + "(&extras, "@ =~= " = dv_text(&extras, "@);
    reveal_strlit("\")?");
    reveal_strlit(";\n");
    reveal_strlit("\")?;\n");
    assert("\")?"@ + ";\n"@ =~= "\")?;\n"@);
    assert(dispatch::extra_decl(p, j, sql_name, i)
        =~= i + ("let extra"@ + d + " = dv_text(&extras, "@ + d + ", \""@ + sql_name + "\")?;\n"@));
}

proof fn lemma_extra_f64(p: ParamShape, j: nat, sql_name: Seq<char>, i: Seq<char>)
    requires
        p is F64,
    ensures
        ({
            let d = words::decimal(j);
            dispatch::extra_decl(p, j, sql_name, i)
                == i
                    + (
                        "let extra"@ + d + " = dv_f64(&extras, "@ + d + ", \""@ + sql_name
                            + "\")?;\n"@
                    )
        }),
{
    let d = words::decimal(j);
    lemma_extra(i, d);
    lemma_extra_read(d, sql_name);
    reveal_strlit(" = ");
    reveal_strlit("dv_f64");
    reveal_strlit("(&extras, ");
    reveal_strlit(" = dv_f64(&extras, ");
    assert(" = "@ + "dv_f64"@ + "(&extras, "@ =~= " = dv_f64(&extras, "@);
    reveal_strlit("\")?");
    reveal_strlit(";\n");
    reveal_strlit("\")?;\n");
    assert("\")?"@ + ";\n"@ =~= "\")?;\n"@);
    assert(dispatch::extra_decl(p, j, sql_name, i)
        =~= i + ("let extra"@ + d + " = dv_f64(&extras, "@ + d + ", \""@ + sql_name + "\")?;\n"@));
}

proof fn lemma_window_extra_f64(p: ParamShape, j: nat, sql_name: Seq<char>, i: Seq<char>)
    requires
        p is F64,
    ensures
        ({
            let d = words::decimal(j);
            let next = words::decimal((j + 1) as nat);
            dispatch::window_extra_decl(p, j, sql_name, i)
                == i
                    + (
                        "let __extra"@ + d + " = dv_f64(&partition[0], "@ + next + ", \""@
                            + sql_name + "\")?;\n"@
                    )
        }),
{
    let d = words::decimal(j);
    let next = words::decimal((j + 1) as nat);
    lemma_window_extra(i, d);
    lemma_window_extra_read(next, sql_name);
    reveal_strlit(" = ");
    reveal_strlit("dv_f64");
    reveal_strlit("(&partition[0], ");
    reveal_strlit(" = dv_f64(&partition[0], ");
    assert(" = "@ + "dv_f64"@ + "(&partition[0], "@ =~= " = dv_f64(&partition[0], "@);
    reveal_strlit("\")?");
    reveal_strlit(";\n");
    reveal_strlit("\")?;\n");
    assert("\")?"@ + ";\n"@ =~= "\")?;\n"@);
    assert(dispatch::window_extra_decl(p, j, sql_name, i)
        =~= i
            + (
                "let __extra"@ + d + " = dv_f64(&partition[0], "@ + next + ", \""@ + sql_name
                    + "\")?;\n"@
            ));
}

proof fn lemma_extra_s32(p: ParamShape, j: nat, sql_name: Seq<char>, i: Seq<char>)
    requires
        p is S32,
    ensures
        ({
            let d = words::decimal(j);
            dispatch::extra_decl(p, j, sql_name, i)
                == i
                    + (
                        "let extra"@ + d + " = dv_i64(&extras, "@ + d + ", \""@ + sql_name
                            + "\")? as i32;\n"@
                    )
        }),
{
    let d = words::decimal(j);
    lemma_extra(i, d);
    lemma_extra_read(d, sql_name);
    reveal_strlit(" = ");
    reveal_strlit("dv_i64");
    reveal_strlit("(&extras, ");
    reveal_strlit(" = dv_i64(&extras, ");
    assert(" = "@ + "dv_i64"@ + "(&extras, "@ =~= " = dv_i64(&extras, "@);
    reveal_strlit("\")?");
    reveal_strlit(" as i32;\n");
    reveal_strlit("\")? as i32;\n");
    assert("\")?"@ + " as i32;\n"@ =~= "\")? as i32;\n"@);
    assert(dispatch::extra_decl(p, j, sql_name, i)
        =~= i
            + (
                "let extra"@ + d + " = dv_i64(&extras, "@ + d + ", \""@ + sql_name
                    + "\")? as i32;\n"@
            ));
}

proof fn lemma_window_extra_s32(p: ParamShape, j: nat, sql_name: Seq<char>, i: Seq<char>)
    requires
        p is S32,
    ensures
        ({
            let d = words::decimal(j);
            let next = words::decimal((j + 1) as nat);
            dispatch::window_extra_decl(p, j, sql_name, i)
                == i
                    + (
                        "let __extra"@ + d + " = dv_i64(&partition[0], "@ + next + ", \""@
                            + sql_name + "\")? as i32;\n"@
                    )
        }),
{
    let d = words::decimal(j);
    let next = words::decimal((j + 1) as nat);
    lemma_window_extra(i, d);
    lemma_window_extra_read(next, sql_name);
    reveal_strlit(" = ");
    reveal_strlit("dv_i64");
    reveal_strlit("(&partition[0], ");
    reveal_strlit(" = dv_i64(&partition[0], ");
    assert(" = "@ + "dv_i64"@ + "(&partition[0], "@ =~= " = dv_i64(&partition[0], "@);
    reveal_strlit("\")?");
    reveal_strlit(" as i32;\n");
    reveal_strlit("\")? as i32;\n");
    assert("\")?"@ + " as i32;\n"@ =~= "\")? as i32;\n"@);
    assert(dispatch::window_extra_decl(p, j, sql_name, i)
        =~= i
            + (
                "let __extra"@ + d + " = dv_i64(&partition[0], "@ + next + ", \""@ + sql_name
                    + "\")? as i32;\n"@
            ));
}

proof fn lemma_extra_s64(p: ParamShape, j: nat, sql_name: Seq<char>, i: Seq<char>)
    requires
        p is S64,
    ensures
        ({
            let d = words::decimal(j);
            dispatch::extra_decl(p, j, sql_name, i)
                == i
                    + (
                        "let extra"@ + d + " = dv_i64(&extras, "@ + d + ", \""@ + sql_name
                            + "\")?;\n"@
                    )
        }),
{
    let d = words::decimal(j);
    lemma_extra(i, d);
    lemma_extra_read(d, sql_name);
    reveal_strlit(" = ");
    reveal_strlit("dv_i64");
    reveal_strlit("(&extras, ");
    reveal_strlit(" = dv_i64(&extras, ");
    assert(" = "@ + "dv_i64"@ + "(&extras, "@ =~= " = dv_i64(&extras, "@);
    reveal_strlit("\")?");
    reveal_strlit(";\n");
    reveal_strlit("\")?;\n");
    assert("\")?"@ + ";\n"@ =~= "\")?;\n"@);
    assert(dispatch::extra_decl(p, j, sql_name, i)
        =~= i + ("let extra"@ + d + " = dv_i64(&extras, "@ + d + ", \""@ + sql_name + "\")?;\n"@));
}

proof fn lemma_window_extra_s64(p: ParamShape, j: nat, sql_name: Seq<char>, i: Seq<char>)
    requires
        p is S64,
    ensures
        ({
            let d = words::decimal(j);
            let next = words::decimal((j + 1) as nat);
            dispatch::window_extra_decl(p, j, sql_name, i)
                == i
                    + (
                        "let __extra"@ + d + " = dv_i64(&partition[0], "@ + next + ", \""@
                            + sql_name + "\")?;\n"@
                    )
        }),
{
    let d = words::decimal(j);
    let next = words::decimal((j + 1) as nat);
    lemma_window_extra(i, d);
    lemma_window_extra_read(next, sql_name);
    reveal_strlit(" = ");
    reveal_strlit("dv_i64");
    reveal_strlit("(&partition[0], ");
    reveal_strlit(" = dv_i64(&partition[0], ");
    assert(" = "@ + "dv_i64"@ + "(&partition[0], "@ =~= " = dv_i64(&partition[0], "@);
    reveal_strlit("\")?");
    reveal_strlit(";\n");
    reveal_strlit("\")?;\n");
    assert("\")?"@ + ";\n"@ =~= "\")?;\n"@);
    assert(dispatch::window_extra_decl(p, j, sql_name, i)
        =~= i
            + (
                "let __extra"@ + d + " = dv_i64(&partition[0], "@ + next + ", \""@ + sql_name
                    + "\")?;\n"@
            ));
}

proof fn lemma_extra_u32(p: ParamShape, j: nat, sql_name: Seq<char>, i: Seq<char>)
    requires
        p is U32,
    ensures
        ({
            let d = words::decimal(j);
            dispatch::extra_decl(p, j, sql_name, i)
                == i
                    + (
                        "let extra"@ + d + " = dv_i64(&extras, "@ + d + ", \""@ + sql_name
                            + "\")? as u32;\n"@
                    )
        }),
{
    let d = words::decimal(j);
    lemma_extra(i, d);
    lemma_extra_read(d, sql_name);
    reveal_strlit(" = ");
    reveal_strlit("dv_i64");
    reveal_strlit("(&extras, ");
    reveal_strlit(" = dv_i64(&extras, ");
    assert(" = "@ + "dv_i64"@ + "(&extras, "@ =~= " = dv_i64(&extras, "@);
    reveal_strlit("\")?");
    reveal_strlit(" as u32;\n");
    reveal_strlit("\")? as u32;\n");
    assert("\")?"@ + " as u32;\n"@ =~= "\")? as u32;\n"@);
    assert(dispatch::extra_decl(p, j, sql_name, i)
        =~= i
            + (
                "let extra"@ + d + " = dv_i64(&extras, "@ + d + ", \""@ + sql_name
                    + "\")? as u32;\n"@
            ));
}

proof fn lemma_window_extra_u32(p: ParamShape, j: nat, sql_name: Seq<char>, i: Seq<char>)
    requires
        p is U32,
    ensures
        ({
            let d = words::decimal(j);
            let next = words::decimal((j + 1) as nat);
            dispatch::window_extra_decl(p, j, sql_name, i)
                == i
                    + (
                        "let __extra"@ + d + " = dv_i64(&partition[0], "@ + next + ", \""@
                            + sql_name + "\")? as u32;\n"@
                    )
        }),
{
    let d = words::decimal(j);
    let next = words::decimal((j + 1) as nat);
    lemma_window_extra(i, d);
    lemma_window_extra_read(next, sql_name);
    reveal_strlit(" = ");
    reveal_strlit("dv_i64");
    reveal_strlit("(&partition[0], ");
    reveal_strlit(" = dv_i64(&partition[0], ");
    assert(" = "@ + "dv_i64"@ + "(&partition[0], "@ =~= " = dv_i64(&partition[0], "@);
    reveal_strlit("\")?");
    reveal_strlit(" as u32;\n");
    reveal_strlit("\")? as u32;\n");
    assert("\")?"@ + " as u32;\n"@ =~= "\")? as u32;\n"@);
    assert(dispatch::window_extra_decl(p, j, sql_name, i)
        =~= i
            + (
                "let __extra"@ + d + " = dv_i64(&partition[0], "@ + next + ", \""@ + sql_name
                    + "\")? as u32;\n"@
            ));
}

proof fn lemma_extra_u64(p: ParamShape, j: nat, sql_name: Seq<char>, i: Seq<char>)
    requires
        p is U64,
    ensures
        ({
            let d = words::decimal(j);
            dispatch::extra_decl(p, j, sql_name, i)
                == i
                    + (
                        "let extra"@ + d + " = dv_i64(&extras, "@ + d + ", \""@ + sql_name
                            + "\")? as u64;\n"@
                    )
        }),
{
    let d = words::decimal(j);
    lemma_extra(i, d);
    lemma_extra_read(d, sql_name);
    reveal_strlit(" = ");
    reveal_strlit("dv_i64");
    reveal_strlit("(&extras, ");
    reveal_strlit(" = dv_i64(&extras, ");
    assert(" = "@ + "dv_i64"@ + "(&extras, "@ =~= " = dv_i64(&extras, "@);
    reveal_strlit("\")?");
    reveal_strlit(" as u64;\n");
    reveal_strlit("\")? as u64;\n");
    assert("\")?"@ + " as u64;\n"@ =~= "\")? as u64;\n"@);
    assert(dispatch::extra_decl(p, j, sql_name, i)
        =~= i
            + (
                "let extra"@ + d + " = dv_i64(&extras, "@ + d + ", \""@ + sql_name
                    + "\")? as u64;\n"@
            ));
}

proof fn lemma_window_extra_u64(p: ParamShape, j: nat, sql_name: Seq<char>, i: Seq<char>)
    requires
        p is U64,
    ensures
        ({
            let d = words::decimal(j);
            let next = words::decimal((j + 1) as nat);
            dispatch::window_extra_decl(p, j, sql_name, i)
                == i
                    + (
                        "let __extra"@ + d + " = dv_i64(&partition[0], "@ + next + ", \""@
                            + sql_name + "\")? as u64;\n"@
                    )
        }),
{
    let d = words::decimal(j);
    let next = words::decimal((j + 1) as nat);
    lemma_window_extra(i, d);
    lemma_window_extra_read(next, sql_name);
    reveal_strlit(" = ");
    reveal_strlit("dv_i64");
    reveal_strlit("(&partition[0], ");
    reveal_strlit(" = dv_i64(&partition[0], ");
    assert(" = "@ + "dv_i64"@ + "(&partition[0], "@ =~= " = dv_i64(&partition[0], "@);
    reveal_strlit("\")?");
    reveal_strlit(" as u64;\n");
    reveal_strlit("\")? as u64;\n");
    assert("\")?"@ + " as u64;\n"@ =~= "\")? as u64;\n"@);
    assert(dispatch::window_extra_decl(p, j, sql_name, i)
        =~= i
            + (
                "let __extra"@ + d + " = dv_i64(&partition[0], "@ + next + ", \""@ + sql_name
                    + "\")? as u64;\n"@
            ));
}

proof fn lemma_extra_bool(p: ParamShape, j: nat, sql_name: Seq<char>, i: Seq<char>)
    requires
        p is Bool,
    ensures
        ({
            let d = words::decimal(j);
            dispatch::extra_decl(p, j, sql_name, i)
                == i
                    + (
                        "let extra"@ + d + " = dv_bool(&extras, "@ + d + ", \""@ + sql_name
                            + "\")?;\n"@
                    )
        }),
{
    let d = words::decimal(j);
    lemma_extra(i, d);
    lemma_extra_read(d, sql_name);
    reveal_strlit(" = ");
    reveal_strlit("dv_bool");
    reveal_strlit("(&extras, ");
    reveal_strlit(" = dv_bool(&extras, ");
    assert(" = "@ + "dv_bool"@ + "(&extras, "@ =~= " = dv_bool(&extras, "@);
    reveal_strlit("\")?");
    reveal_strlit(";\n");
    reveal_strlit("\")?;\n");
    assert("\")?"@ + ";\n"@ =~= "\")?;\n"@);
    assert(dispatch::extra_decl(p, j, sql_name, i)
        =~= i + ("let extra"@ + d + " = dv_bool(&extras, "@ + d + ", \""@ + sql_name + "\")?;\n"@));
}

proof fn lemma_window_extra_bool(p: ParamShape, j: nat, sql_name: Seq<char>, i: Seq<char>)
    requires
        p is Bool,
    ensures
        ({
            let d = words::decimal(j);
            let next = words::decimal((j + 1) as nat);
            dispatch::window_extra_decl(p, j, sql_name, i)
                == i
                    + (
                        "let __extra"@ + d + " = dv_bool(&partition[0], "@ + next + ", \""@
                            + sql_name + "\")?;\n"@
                    )
        }),
{
    let d = words::decimal(j);
    let next = words::decimal((j + 1) as nat);
    lemma_window_extra(i, d);
    lemma_window_extra_read(next, sql_name);
    reveal_strlit(" = ");
    reveal_strlit("dv_bool");
    reveal_strlit("(&partition[0], ");
    reveal_strlit(" = dv_bool(&partition[0], ");
    assert(" = "@ + "dv_bool"@ + "(&partition[0], "@ =~= " = dv_bool(&partition[0], "@);
    reveal_strlit("\")?");
    reveal_strlit(";\n");
    reveal_strlit("\")?;\n");
    assert("\")?"@ + ";\n"@ =~= "\")?;\n"@);
    assert(dispatch::window_extra_decl(p, j, sql_name, i)
        =~= i
            + (
                "let __extra"@ + d + " = dv_bool(&partition[0], "@ + next + ", \""@ + sql_name
                    + "\")?;\n"@
            ));
}

proof fn lemma_extra_blob(p: ParamShape, j: nat, sql_name: Seq<char>, i: Seq<char>)
    requires
        p is Blob,
    ensures
        ({
            let d = words::decimal(j);
            dispatch::extra_decl(p, j, sql_name, i)
                == i
                    + (
                        "let extra"@ + d + " = dv_blob(&extras, "@ + d + ", \""@ + sql_name
                            + "\")?;\n"@
                    )
        }),
{
    let d = words::decimal(j);
    lemma_extra(i, d);
    lemma_extra_read(d, sql_name);
    reveal_strlit(" = ");
    reveal_strlit("dv_blob");
    reveal_strlit("(&extras, ");
    reveal_strlit(" = dv_blob(&extras, ");
    assert(" = "@ + "dv_blob"@ + "(&extras, "@ =~= " = dv_blob(&extras, "@);
    reveal_strlit("\")?");
    reveal_strlit(";\n");
    reveal_strlit("\")?;\n");
    assert("\")?"@ + ";\n"@ =~= "\")?;\n"@);
    assert(dispatch::extra_decl(p, j, sql_name, i)
        =~= i + ("let extra"@ + d + " = dv_blob(&extras, "@ + d + ", \""@ + sql_name + "\")?;\n"@));
}

proof fn lemma_holes_i_idx_sql_name_rust_ty_arms_kebab_name_max(
    i: Seq<char>,
    idx: Seq<char>,
    sql_name: Seq<char>,
    rust_ty: Seq<char>,
    arms: Seq<char>,
    kebab_name: Seq<char>,
    max: Seq<char>,
)
    ensures
        ({
            let b = seq![("i"@, i), ("idx"@, idx), ("sql_name"@, sql_name), ("rust_ty"@, rust_ty), ("arms"@, arms), ("kebab_name"@, kebab_name), ("max"@, max)];
            &&& text::lookup_from(b, "i"@, 0) == i
            &&& text::lookup_from(b, "idx"@, 0) == idx
            &&& text::lookup_from(b, "sql_name"@, 0) == sql_name
            &&& text::lookup_from(b, "rust_ty"@, 0) == rust_ty
            &&& text::lookup_from(b, "arms"@, 0) == arms
            &&& text::lookup_from(b, "kebab_name"@, 0) == kebab_name
            &&& text::lookup_from(b, "max"@, 0) == max
        }),
{
    reveal_strlit("i");
    reveal_strlit("idx");
    reveal_strlit("sql_name");
    reveal_strlit("rust_ty");
    reveal_strlit("arms");
    reveal_strlit("kebab_name");
    reveal_strlit("max");
    reveal_with_fuel(text::lookup_from, 8);
    assert("i"@.len() != "idx"@.len());
    assert("i"@.len() != "sql_name"@.len());
    assert("i"@.len() != "rust_ty"@.len());
    assert("i"@.len() != "arms"@.len());
    assert("i"@.len() != "kebab_name"@.len());
    assert("i"@.len() != "max"@.len());
    assert("idx"@.len() != "sql_name"@.len());
    assert("idx"@.len() != "rust_ty"@.len());
    assert("idx"@.len() != "arms"@.len());
    assert("idx"@.len() != "kebab_name"@.len());
    assert("idx"@[0] != "max"@[0]);
    assert("sql_name"@.len() != "rust_ty"@.len());
    assert("sql_name"@.len() != "arms"@.len());
    assert("sql_name"@.len() != "kebab_name"@.len());
    assert("sql_name"@.len() != "max"@.len());
    assert("rust_ty"@.len() != "arms"@.len());
    assert("rust_ty"@.len() != "kebab_name"@.len());
    assert("rust_ty"@.len() != "max"@.len());
    assert("arms"@.len() != "kebab_name"@.len());
    assert("arms"@.len() != "max"@.len());
    assert("kebab_name"@.len() != "max"@.len());
}

proof fn lemma_holes_idx_sql_name(idx: Seq<char>, sql_name: Seq<char>)
    ensures
        ({
            let b = seq![("idx"@, idx), ("sql_name"@, sql_name)];
            &&& text::lookup_from(b, "idx"@, 0) == idx
            &&& text::lookup_from(b, "sql_name"@, 0) == sql_name
        }),
{
    reveal_strlit("idx");
    reveal_strlit("sql_name");
    reveal_with_fuel(text::lookup_from, 3);
    assert("idx"@.len() != "sql_name"@.len());
}

proof fn lemma_holes_i_j(i: Seq<char>, j: Seq<char>)
    ensures
        ({
            let b = seq![("i"@, i), ("j"@, j)];
            &&& text::lookup_from(b, "i"@, 0) == i
            &&& text::lookup_from(b, "j"@, 0) == j
        }),
{
    reveal_strlit("i");
    reveal_strlit("j");
    reveal_with_fuel(text::lookup_from, 3);
    assert("i"@[0] != "j"@[0]);
}

proof fn lemma_holes_j_sql_name(j: Seq<char>, sql_name: Seq<char>)
    ensures
        ({
            let b = seq![("j"@, j), ("sql_name"@, sql_name)];
            &&& text::lookup_from(b, "j"@, 0) == j
            &&& text::lookup_from(b, "sql_name"@, 0) == sql_name
        }),
{
    reveal_strlit("j");
    reveal_strlit("sql_name");
    reveal_with_fuel(text::lookup_from, 3);
    assert("j"@.len() != "sql_name"@.len());
}

proof fn lemma_holes_arg_idx_sql_name(arg_idx: Seq<char>, sql_name: Seq<char>)
    ensures
        ({
            let b = seq![("arg_idx"@, arg_idx), ("sql_name"@, sql_name)];
            &&& text::lookup_from(b, "arg_idx"@, 0) == arg_idx
            &&& text::lookup_from(b, "sql_name"@, 0) == sql_name
        }),
{
    reveal_strlit("arg_idx");
    reveal_strlit("sql_name");
    reveal_with_fuel(text::lookup_from, 3);
    assert("arg_idx"@.len() != "sql_name"@.len());
}

proof fn lemma_holes_sql_name(sql_name: Seq<char>)
    ensures
        ({
            let b = seq![("sql_name"@, sql_name)];
            &&& text::lookup_from(b, "sql_name"@, 0) == sql_name
        }),
{
    reveal_strlit("sql_name");
    reveal_with_fuel(text::lookup_from, 2);

}

proof fn lemma_arg_plain(
    i: Seq<char>,
    idx: Seq<char>,
    sql_name: Seq<char>,
    rust_ty: Seq<char>,
    arms: Seq<char>,
    kebab_name: Seq<char>,
    max: Seq<char>,
)
    ensures
        text::fill(
            t::ARG_PLAIN@,
            seq![("i"@, i), ("idx"@, idx), ("sql_name"@, sql_name), ("rust_ty"@, rust_ty), ("arms"@, arms), ("kebab_name"@, kebab_name), ("max"@, max)],
        )
            == i + "let arg"@ + idx + " = "@,
{
    let s = t::ARG_PLAIN@;
    let b = seq![("i"@, i), ("idx"@, idx), ("sql_name"@, sql_name), ("rust_ty"@, rust_ty), ("arms"@, arms), ("kebab_name"@, kebab_name), ("max"@, max)];
    reveal_strlit("{i}let arg{idx} = ");
    reveal_with_fuel(text::plain_to, 31);
    lemma_holes_i_idx_sql_name_rust_ty_arms_kebab_name_max(
        i,
        idx,
        sql_name,
        rust_ty,
        arms,
        kebab_name,
        max,
    );
    reveal_strlit("i");
    assert(s.subrange(1, 2) =~= "i"@);
    text::lemma_fill_hole(s, b, 0, "i"@);
    reveal_strlit("let arg");
    assert(s.subrange(3, 10) =~= "let arg"@);
    text::lemma_fill_run(s, b, 3, "let arg"@);
    reveal_strlit("idx");
    assert(s.subrange(11, 14) =~= "idx"@);
    text::lemma_fill_hole(s, b, 10, "idx"@);
    reveal_strlit(" = ");
    assert(s.subrange(15, 18) =~= " = "@);
    text::lemma_fill_run(s, b, 15, " = "@);
    assert((i + ("let arg"@ + (idx + (" = "@ + text::fill_from(s, b, 18)))))
        =~= i + "let arg"@ + idx + " = "@);
}

proof fn lemma_arg_geom(
    i: Seq<char>,
    idx: Seq<char>,
    sql_name: Seq<char>,
    rust_ty: Seq<char>,
    arms: Seq<char>,
    kebab_name: Seq<char>,
    max: Seq<char>,
)
    ensures
        text::fill(
            t::ARG_GEOM@,
            seq![("i"@, i), ("idx"@, idx), ("sql_name"@, sql_name), ("rust_ty"@, rust_ty), ("arms"@, arms), ("kebab_name"@, kebab_name), ("max"@, max)],
        )
            == i + "let arg"@ + idx + " = from_wkb("@,
{
    let s = t::ARG_GEOM@;
    let b = seq![("i"@, i), ("idx"@, idx), ("sql_name"@, sql_name), ("rust_ty"@, rust_ty), ("arms"@, arms), ("kebab_name"@, kebab_name), ("max"@, max)];
    reveal_strlit("{i}let arg{idx} = from_wkb(");
    reveal_with_fuel(text::plain_to, 31);
    lemma_holes_i_idx_sql_name_rust_ty_arms_kebab_name_max(
        i,
        idx,
        sql_name,
        rust_ty,
        arms,
        kebab_name,
        max,
    );
    reveal_strlit("i");
    assert(s.subrange(1, 2) =~= "i"@);
    text::lemma_fill_hole(s, b, 0, "i"@);
    reveal_strlit("let arg");
    assert(s.subrange(3, 10) =~= "let arg"@);
    text::lemma_fill_run(s, b, 3, "let arg"@);
    reveal_strlit("idx");
    assert(s.subrange(11, 14) =~= "idx"@);
    text::lemma_fill_hole(s, b, 10, "idx"@);
    reveal_strlit(" = from_wkb(");
    assert(s.subrange(15, 27) =~= " = from_wkb("@);
    text::lemma_fill_run(s, b, 15, " = from_wkb("@);
    assert((i + ("let arg"@ + (idx + (" = from_wkb("@ + text::fill_from(s, b, 27)))))
        =~= i + "let arg"@ + idx + " = from_wkb("@);
}

proof fn lemma_arg_geog(
    i: Seq<char>,
    idx: Seq<char>,
    sql_name: Seq<char>,
    rust_ty: Seq<char>,
    arms: Seq<char>,
    kebab_name: Seq<char>,
    max: Seq<char>,
)
    ensures
        text::fill(
            t::ARG_GEOG@,
            seq![("i"@, i), ("idx"@, idx), ("sql_name"@, sql_name), ("rust_ty"@, rust_ty), ("arms"@, arms), ("kebab_name"@, kebab_name), ("max"@, max)],
        )
            == i + "let arg"@ + idx + " = geog_from_wkb("@,
{
    let s = t::ARG_GEOG@;
    let b = seq![("i"@, i), ("idx"@, idx), ("sql_name"@, sql_name), ("rust_ty"@, rust_ty), ("arms"@, arms), ("kebab_name"@, kebab_name), ("max"@, max)];
    reveal_strlit("{i}let arg{idx} = geog_from_wkb(");
    reveal_with_fuel(text::plain_to, 31);
    lemma_holes_i_idx_sql_name_rust_ty_arms_kebab_name_max(
        i,
        idx,
        sql_name,
        rust_ty,
        arms,
        kebab_name,
        max,
    );
    reveal_strlit("i");
    assert(s.subrange(1, 2) =~= "i"@);
    text::lemma_fill_hole(s, b, 0, "i"@);
    reveal_strlit("let arg");
    assert(s.subrange(3, 10) =~= "let arg"@);
    text::lemma_fill_run(s, b, 3, "let arg"@);
    reveal_strlit("idx");
    assert(s.subrange(11, 14) =~= "idx"@);
    text::lemma_fill_hole(s, b, 10, "idx"@);
    reveal_strlit(" = geog_from_wkb(");
    assert(s.subrange(15, 32) =~= " = geog_from_wkb("@);
    text::lemma_fill_run(s, b, 15, " = geog_from_wkb("@);
    assert((i + ("let arg"@ + (idx + (" = geog_from_wkb("@ + text::fill_from(s, b, 32)))))
        =~= i + "let arg"@ + idx + " = geog_from_wkb("@);
}

proof fn lemma_arg_raster(
    i: Seq<char>,
    idx: Seq<char>,
    sql_name: Seq<char>,
    rust_ty: Seq<char>,
    arms: Seq<char>,
    kebab_name: Seq<char>,
    max: Seq<char>,
)
    ensures
        text::fill(
            t::ARG_RASTER@,
            seq![("i"@, i), ("idx"@, idx), ("sql_name"@, sql_name), ("rust_ty"@, rust_ty), ("arms"@, arms), ("kebab_name"@, kebab_name), ("max"@, max)],
        )
            == i + "let arg"@ + idx + " = from_raster_binary("@,
{
    let s = t::ARG_RASTER@;
    let b = seq![("i"@, i), ("idx"@, idx), ("sql_name"@, sql_name), ("rust_ty"@, rust_ty), ("arms"@, arms), ("kebab_name"@, kebab_name), ("max"@, max)];
    reveal_strlit("{i}let arg{idx} = from_raster_binary(");
    reveal_with_fuel(text::plain_to, 31);
    lemma_holes_i_idx_sql_name_rust_ty_arms_kebab_name_max(
        i,
        idx,
        sql_name,
        rust_ty,
        arms,
        kebab_name,
        max,
    );
    reveal_strlit("i");
    assert(s.subrange(1, 2) =~= "i"@);
    text::lemma_fill_hole(s, b, 0, "i"@);
    reveal_strlit("let arg");
    assert(s.subrange(3, 10) =~= "let arg"@);
    text::lemma_fill_run(s, b, 3, "let arg"@);
    reveal_strlit("idx");
    assert(s.subrange(11, 14) =~= "idx"@);
    text::lemma_fill_hole(s, b, 10, "idx"@);
    reveal_strlit(" = from_raster_binary(");
    assert(s.subrange(15, 37) =~= " = from_raster_binary("@);
    text::lemma_fill_run(s, b, 15, " = from_raster_binary("@);
    assert((i + ("let arg"@ + (idx + (" = from_raster_binary("@ + text::fill_from(s, b, 37)))))
        =~= i + "let arg"@ + idx + " = from_raster_binary("@);
}

proof fn lemma_arg_topology(
    i: Seq<char>,
    idx: Seq<char>,
    sql_name: Seq<char>,
    rust_ty: Seq<char>,
    arms: Seq<char>,
    kebab_name: Seq<char>,
    max: Seq<char>,
)
    ensures
        text::fill(
            t::ARG_TOPOLOGY@,
            seq![("i"@, i), ("idx"@, idx), ("sql_name"@, sql_name), ("rust_ty"@, rust_ty), ("arms"@, arms), ("kebab_name"@, kebab_name), ("max"@, max)],
        )
            == i + "let arg"@ + idx + " = from_topology_bytes("@,
{
    let s = t::ARG_TOPOLOGY@;
    let b = seq![("i"@, i), ("idx"@, idx), ("sql_name"@, sql_name), ("rust_ty"@, rust_ty), ("arms"@, arms), ("kebab_name"@, kebab_name), ("max"@, max)];
    reveal_strlit("{i}let arg{idx} = from_topology_bytes(");
    reveal_with_fuel(text::plain_to, 31);
    lemma_holes_i_idx_sql_name_rust_ty_arms_kebab_name_max(
        i,
        idx,
        sql_name,
        rust_ty,
        arms,
        kebab_name,
        max,
    );
    reveal_strlit("i");
    assert(s.subrange(1, 2) =~= "i"@);
    text::lemma_fill_hole(s, b, 0, "i"@);
    reveal_strlit("let arg");
    assert(s.subrange(3, 10) =~= "let arg"@);
    text::lemma_fill_run(s, b, 3, "let arg"@);
    reveal_strlit("idx");
    assert(s.subrange(11, 14) =~= "idx"@);
    text::lemma_fill_hole(s, b, 10, "idx"@);
    reveal_strlit(" = from_topology_bytes(");
    assert(s.subrange(15, 38) =~= " = from_topology_bytes("@);
    text::lemma_fill_run(s, b, 15, " = from_topology_bytes("@);
    assert((i + ("let arg"@ + (idx + (" = from_topology_bytes("@ + text::fill_from(s, b, 38)))))
        =~= i + "let arg"@ + idx + " = from_topology_bytes("@);
}

proof fn lemma_arg_resource_end(
    i: Seq<char>,
    idx: Seq<char>,
    sql_name: Seq<char>,
    rust_ty: Seq<char>,
    arms: Seq<char>,
    kebab_name: Seq<char>,
    max: Seq<char>,
)
    ensures
        text::fill(
            t::ARG_RESOURCE_END@,
            seq![("i"@, i), ("idx"@, idx), ("sql_name"@, sql_name), ("rust_ty"@, rust_ty), ("arms"@, arms), ("kebab_name"@, kebab_name), ("max"@, max)],
        )
            == ", \""@ + sql_name + "\")?;\n"@,
{
    let s = t::ARG_RESOURCE_END@;
    let b = seq![("i"@, i), ("idx"@, idx), ("sql_name"@, sql_name), ("rust_ty"@, rust_ty), ("arms"@, arms), ("kebab_name"@, kebab_name), ("max"@, max)];
    reveal_strlit(", \"{sql_name}\")?;\n");
    reveal_with_fuel(text::plain_to, 31);
    lemma_holes_i_idx_sql_name_rust_ty_arms_kebab_name_max(
        i,
        idx,
        sql_name,
        rust_ty,
        arms,
        kebab_name,
        max,
    );
    reveal_strlit(", \"");
    assert(s.subrange(0, 3) =~= ", \""@);
    text::lemma_fill_run(s, b, 0, ", \""@);
    reveal_strlit("sql_name");
    assert(s.subrange(4, 12) =~= "sql_name"@);
    text::lemma_fill_hole(s, b, 3, "sql_name"@);
    reveal_strlit("\")?;\n");
    assert(s.subrange(13, 18) =~= "\")?;\n"@);
    text::lemma_fill_run(s, b, 13, "\")?;\n"@);
    assert((", \""@ + (sql_name + ("\")?;\n"@ + text::fill_from(s, b, 18))))
        =~= ", \""@ + sql_name + "\")?;\n"@);
}

proof fn lemma_arg_list(
    i: Seq<char>,
    idx: Seq<char>,
    sql_name: Seq<char>,
    rust_ty: Seq<char>,
    arms: Seq<char>,
    kebab_name: Seq<char>,
    max: Seq<char>,
)
    ensures
        text::fill(
            t::ARG_LIST@,
            seq![("i"@, i), ("idx"@, idx), ("sql_name"@, sql_name), ("rust_ty"@, rust_ty), ("arms"@, arms), ("kebab_name"@, kebab_name), ("max"@, max)],
        )
            == i + "let arg"@ + idx + ": Vec<"@ + rust_ty + "> = "@,
{
    let s = t::ARG_LIST@;
    let b = seq![("i"@, i), ("idx"@, idx), ("sql_name"@, sql_name), ("rust_ty"@, rust_ty), ("arms"@, arms), ("kebab_name"@, kebab_name), ("max"@, max)];
    reveal_strlit("{i}let arg{idx}: Vec<{rust_ty}> = ");
    reveal_with_fuel(text::plain_to, 31);
    lemma_holes_i_idx_sql_name_rust_ty_arms_kebab_name_max(
        i,
        idx,
        sql_name,
        rust_ty,
        arms,
        kebab_name,
        max,
    );
    reveal_strlit("i");
    assert(s.subrange(1, 2) =~= "i"@);
    text::lemma_fill_hole(s, b, 0, "i"@);
    reveal_strlit("let arg");
    assert(s.subrange(3, 10) =~= "let arg"@);
    text::lemma_fill_run(s, b, 3, "let arg"@);
    reveal_strlit("idx");
    assert(s.subrange(11, 14) =~= "idx"@);
    text::lemma_fill_hole(s, b, 10, "idx"@);
    reveal_strlit(": Vec<");
    assert(s.subrange(15, 21) =~= ": Vec<"@);
    text::lemma_fill_run(s, b, 15, ": Vec<"@);
    reveal_strlit("rust_ty");
    assert(s.subrange(22, 29) =~= "rust_ty"@);
    text::lemma_fill_hole(s, b, 21, "rust_ty"@);
    reveal_strlit("> = ");
    assert(s.subrange(30, 34) =~= "> = "@);
    text::lemma_fill_run(s, b, 30, "> = "@);
    assert((i + ("let arg"@ + (idx + (": Vec<"@ + (rust_ty + ("> = "@ + text::fill_from(s, b, 34)))))))
        =~= i + "let arg"@ + idx + ": Vec<"@ + rust_ty + "> = "@);
}

proof fn lemma_arg_list_list(
    i: Seq<char>,
    idx: Seq<char>,
    sql_name: Seq<char>,
    rust_ty: Seq<char>,
    arms: Seq<char>,
    kebab_name: Seq<char>,
    max: Seq<char>,
)
    ensures
        text::fill(
            t::ARG_LIST_LIST@,
            seq![("i"@, i), ("idx"@, idx), ("sql_name"@, sql_name), ("rust_ty"@, rust_ty), ("arms"@, arms), ("kebab_name"@, kebab_name), ("max"@, max)],
        )
            == i + "let arg"@ + idx + ": Vec<Vec<"@ + rust_ty + ">> = "@,
{
    let s = t::ARG_LIST_LIST@;
    let b = seq![("i"@, i), ("idx"@, idx), ("sql_name"@, sql_name), ("rust_ty"@, rust_ty), ("arms"@, arms), ("kebab_name"@, kebab_name), ("max"@, max)];
    reveal_strlit("{i}let arg{idx}: Vec<Vec<{rust_ty}>> = ");
    reveal_with_fuel(text::plain_to, 31);
    lemma_holes_i_idx_sql_name_rust_ty_arms_kebab_name_max(
        i,
        idx,
        sql_name,
        rust_ty,
        arms,
        kebab_name,
        max,
    );
    reveal_strlit("i");
    assert(s.subrange(1, 2) =~= "i"@);
    text::lemma_fill_hole(s, b, 0, "i"@);
    reveal_strlit("let arg");
    assert(s.subrange(3, 10) =~= "let arg"@);
    text::lemma_fill_run(s, b, 3, "let arg"@);
    reveal_strlit("idx");
    assert(s.subrange(11, 14) =~= "idx"@);
    text::lemma_fill_hole(s, b, 10, "idx"@);
    reveal_strlit(": Vec<Vec<");
    assert(s.subrange(15, 25) =~= ": Vec<Vec<"@);
    text::lemma_fill_run(s, b, 15, ": Vec<Vec<"@);
    reveal_strlit("rust_ty");
    assert(s.subrange(26, 33) =~= "rust_ty"@);
    text::lemma_fill_hole(s, b, 25, "rust_ty"@);
    reveal_strlit(">> = ");
    assert(s.subrange(34, 39) =~= ">> = "@);
    text::lemma_fill_run(s, b, 34, ">> = "@);
    assert((
        i
            + (
                "let arg"@
                    + (idx + (": Vec<Vec<"@ + (rust_ty + (">> = "@ + text::fill_from(s, b, 39)))))
            )
    )
        =~= i + "let arg"@ + idx + ": Vec<Vec<"@ + rust_ty + ">> = "@);
}

proof fn lemma_arg_enum(
    i: Seq<char>,
    idx: Seq<char>,
    sql_name: Seq<char>,
    rust_ty: Seq<char>,
    arms: Seq<char>,
    kebab_name: Seq<char>,
    max: Seq<char>,
)
    ensures
        text::fill(
            t::ARG_ENUM@,
            seq![("i"@, i), ("idx"@, idx), ("sql_name"@, sql_name), ("rust_ty"@, rust_ty), ("arms"@, arms), ("kebab_name"@, kebab_name), ("max"@, max)],
        )
            == i + "let arg"@ + idx + " = match "@,
{
    let s = t::ARG_ENUM@;
    let b = seq![("i"@, i), ("idx"@, idx), ("sql_name"@, sql_name), ("rust_ty"@, rust_ty), ("arms"@, arms), ("kebab_name"@, kebab_name), ("max"@, max)];
    reveal_strlit("{i}let arg{idx} = match ");
    reveal_with_fuel(text::plain_to, 31);
    lemma_holes_i_idx_sql_name_rust_ty_arms_kebab_name_max(
        i,
        idx,
        sql_name,
        rust_ty,
        arms,
        kebab_name,
        max,
    );
    reveal_strlit("i");
    assert(s.subrange(1, 2) =~= "i"@);
    text::lemma_fill_hole(s, b, 0, "i"@);
    reveal_strlit("let arg");
    assert(s.subrange(3, 10) =~= "let arg"@);
    text::lemma_fill_run(s, b, 3, "let arg"@);
    reveal_strlit("idx");
    assert(s.subrange(11, 14) =~= "idx"@);
    text::lemma_fill_hole(s, b, 10, "idx"@);
    reveal_strlit(" = match ");
    assert(s.subrange(15, 24) =~= " = match "@);
    text::lemma_fill_run(s, b, 15, " = match "@);
    assert((i + ("let arg"@ + (idx + (" = match "@ + text::fill_from(s, b, 24)))))
        =~= i + "let arg"@ + idx + " = match "@);
}

proof fn lemma_arg_list_geom_one(
    i: Seq<char>,
    idx: Seq<char>,
    sql_name: Seq<char>,
    rust_ty: Seq<char>,
    arms: Seq<char>,
    kebab_name: Seq<char>,
    max: Seq<char>,
)
    ensures
        text::fill(
            t::ARG_LIST_GEOM_ONE@,
            seq![("i"@, i), ("idx"@, idx), ("sql_name"@, sql_name), ("rust_ty"@, rust_ty), ("arms"@, arms), ("kebab_name"@, kebab_name), ("max"@, max)],
        )
            == i + "let arg"@ + idx + "_one = from_wkb("@,
{
    let s = t::ARG_LIST_GEOM_ONE@;
    let b = seq![("i"@, i), ("idx"@, idx), ("sql_name"@, sql_name), ("rust_ty"@, rust_ty), ("arms"@, arms), ("kebab_name"@, kebab_name), ("max"@, max)];
    reveal_strlit("{i}let arg{idx}_one = from_wkb(");
    reveal_with_fuel(text::plain_to, 31);
    lemma_holes_i_idx_sql_name_rust_ty_arms_kebab_name_max(
        i,
        idx,
        sql_name,
        rust_ty,
        arms,
        kebab_name,
        max,
    );
    reveal_strlit("i");
    assert(s.subrange(1, 2) =~= "i"@);
    text::lemma_fill_hole(s, b, 0, "i"@);
    reveal_strlit("let arg");
    assert(s.subrange(3, 10) =~= "let arg"@);
    text::lemma_fill_run(s, b, 3, "let arg"@);
    reveal_strlit("idx");
    assert(s.subrange(11, 14) =~= "idx"@);
    text::lemma_fill_hole(s, b, 10, "idx"@);
    reveal_strlit("_one = from_wkb(");
    assert(s.subrange(15, 31) =~= "_one = from_wkb("@);
    text::lemma_fill_run(s, b, 15, "_one = from_wkb("@);
    assert((i + ("let arg"@ + (idx + ("_one = from_wkb("@ + text::fill_from(s, b, 31)))))
        =~= i + "let arg"@ + idx + "_one = from_wkb("@);
}

proof fn lemma_arg_read(idx: Seq<char>, sql_name: Seq<char>)
    ensures
        text::fill(t::ARG_READ@, seq![("idx"@, idx), ("sql_name"@, sql_name)])
            == "(&args, "@ + idx + ", \""@ + sql_name + "\")?"@,
{
    let s = t::ARG_READ@;
    let b = seq![("idx"@, idx), ("sql_name"@, sql_name)];
    reveal_strlit("(&args, {idx}, \"{sql_name}\")?");
    reveal_with_fuel(text::plain_to, 31);
    lemma_holes_idx_sql_name(idx, sql_name);
    reveal_strlit("(&args, ");
    assert(s.subrange(0, 8) =~= "(&args, "@);
    text::lemma_fill_run(s, b, 0, "(&args, "@);
    reveal_strlit("idx");
    assert(s.subrange(9, 12) =~= "idx"@);
    text::lemma_fill_hole(s, b, 8, "idx"@);
    reveal_strlit(", \"");
    assert(s.subrange(13, 16) =~= ", \""@);
    text::lemma_fill_run(s, b, 13, ", \""@);
    reveal_strlit("sql_name");
    assert(s.subrange(17, 25) =~= "sql_name"@);
    text::lemma_fill_hole(s, b, 16, "sql_name"@);
    reveal_strlit("\")?");
    assert(s.subrange(26, 29) =~= "\")?"@);
    text::lemma_fill_run(s, b, 26, "\")?"@);
    assert(("(&args, "@ + (idx + (", \""@ + (sql_name + ("\")?"@ + text::fill_from(s, b, 29))))))
        =~= "(&args, "@ + idx + ", \""@ + sql_name + "\")?"@);
}

proof fn lemma_narrowed_i32(
    i: Seq<char>,
    idx: Seq<char>,
    sql_name: Seq<char>,
    rust_ty: Seq<char>,
    arms: Seq<char>,
    kebab_name: Seq<char>,
    max: Seq<char>,
)
    ensures
        text::fill(
            " as i32;\n"@,
            seq![("i"@, i), ("idx"@, idx), ("sql_name"@, sql_name), ("rust_ty"@, rust_ty), ("arms"@, arms), ("kebab_name"@, kebab_name), ("max"@, max)],
        )
            == " as i32;\n"@,
{
    let s = " as i32;\n"@;
    let b = seq![("i"@, i), ("idx"@, idx), ("sql_name"@, sql_name), ("rust_ty"@, rust_ty), ("arms"@, arms), ("kebab_name"@, kebab_name), ("max"@, max)];
    reveal_strlit(" as i32;\n");
    reveal_with_fuel(text::plain_to, 31);
    lemma_holes_i_idx_sql_name_rust_ty_arms_kebab_name_max(
        i,
        idx,
        sql_name,
        rust_ty,
        arms,
        kebab_name,
        max,
    );
    assert(s.subrange(0, 9) =~= " as i32;\n"@);
    text::lemma_fill_run(s, b, 0, " as i32;\n"@);
    assert((" as i32;\n"@ + text::fill_from(s, b, 9)) =~= " as i32;\n"@);
}

proof fn lemma_narrowed_u32(
    i: Seq<char>,
    idx: Seq<char>,
    sql_name: Seq<char>,
    rust_ty: Seq<char>,
    arms: Seq<char>,
    kebab_name: Seq<char>,
    max: Seq<char>,
)
    ensures
        text::fill(
            " as u32;\n"@,
            seq![("i"@, i), ("idx"@, idx), ("sql_name"@, sql_name), ("rust_ty"@, rust_ty), ("arms"@, arms), ("kebab_name"@, kebab_name), ("max"@, max)],
        )
            == " as u32;\n"@,
{
    let s = " as u32;\n"@;
    let b = seq![("i"@, i), ("idx"@, idx), ("sql_name"@, sql_name), ("rust_ty"@, rust_ty), ("arms"@, arms), ("kebab_name"@, kebab_name), ("max"@, max)];
    reveal_strlit(" as u32;\n");
    reveal_with_fuel(text::plain_to, 31);
    lemma_holes_i_idx_sql_name_rust_ty_arms_kebab_name_max(
        i,
        idx,
        sql_name,
        rust_ty,
        arms,
        kebab_name,
        max,
    );
    assert(s.subrange(0, 9) =~= " as u32;\n"@);
    text::lemma_fill_run(s, b, 0, " as u32;\n"@);
    assert((" as u32;\n"@ + text::fill_from(s, b, 9)) =~= " as u32;\n"@);
}

proof fn lemma_narrowed_u64(
    i: Seq<char>,
    idx: Seq<char>,
    sql_name: Seq<char>,
    rust_ty: Seq<char>,
    arms: Seq<char>,
    kebab_name: Seq<char>,
    max: Seq<char>,
)
    ensures
        text::fill(
            " as u64;\n"@,
            seq![("i"@, i), ("idx"@, idx), ("sql_name"@, sql_name), ("rust_ty"@, rust_ty), ("arms"@, arms), ("kebab_name"@, kebab_name), ("max"@, max)],
        )
            == " as u64;\n"@,
{
    let s = " as u64;\n"@;
    let b = seq![("i"@, i), ("idx"@, idx), ("sql_name"@, sql_name), ("rust_ty"@, rust_ty), ("arms"@, arms), ("kebab_name"@, kebab_name), ("max"@, max)];
    reveal_strlit(" as u64;\n");
    reveal_with_fuel(text::plain_to, 31);
    lemma_holes_i_idx_sql_name_rust_ty_arms_kebab_name_max(
        i,
        idx,
        sql_name,
        rust_ty,
        arms,
        kebab_name,
        max,
    );
    assert(s.subrange(0, 9) =~= " as u64;\n"@);
    text::lemma_fill_run(s, b, 0, " as u64;\n"@);
    assert((" as u64;\n"@ + text::fill_from(s, b, 9)) =~= " as u64;\n"@);
}

proof fn lemma_narrowed_line_end(
    i: Seq<char>,
    idx: Seq<char>,
    sql_name: Seq<char>,
    rust_ty: Seq<char>,
    arms: Seq<char>,
    kebab_name: Seq<char>,
    max: Seq<char>,
)
    ensures
        text::fill(
            ";\n"@,
            seq![("i"@, i), ("idx"@, idx), ("sql_name"@, sql_name), ("rust_ty"@, rust_ty), ("arms"@, arms), ("kebab_name"@, kebab_name), ("max"@, max)],
        )
            == ";\n"@,
{
    let s = ";\n"@;
    let b = seq![("i"@, i), ("idx"@, idx), ("sql_name"@, sql_name), ("rust_ty"@, rust_ty), ("arms"@, arms), ("kebab_name"@, kebab_name), ("max"@, max)];
    reveal_strlit(";\n");
    reveal_with_fuel(text::plain_to, 31);
    lemma_holes_i_idx_sql_name_rust_ty_arms_kebab_name_max(
        i,
        idx,
        sql_name,
        rust_ty,
        arms,
        kebab_name,
        max,
    );
    assert(s.subrange(0, 2) =~= ";\n"@);
    text::lemma_fill_run(s, b, 0, ";\n"@);
    assert((";\n"@ + text::fill_from(s, b, 2)) =~= ";\n"@);
}

proof fn lemma_arg_list_geom_rest(
    i: Seq<char>,
    idx: Seq<char>,
    sql_name: Seq<char>,
    rust_ty: Seq<char>,
    arms: Seq<char>,
    kebab_name: Seq<char>,
    max: Seq<char>,
)
    ensures
        words::has_piece(
            text::fill(
                t::ARG_LIST_GEOM_REST@,
                seq![("i"@, i), ("idx"@, idx), ("sql_name"@, sql_name), ("rust_ty"@, rust_ty), ("arms"@, arms), ("kebab_name"@, kebab_name), ("max"@, max)],
            ),
            "let arg"@ + idx + "_owned: Vec<Geometry> = args["@ + idx + "..]"@,
        ),
{
    let s = t::ARG_LIST_GEOM_REST@;
    reveal_strlit(r#"{i}let arg{idx}_owned: Vec<Geometry> = args[{idx}..]
{i}    .iter()
{i}    .enumerate()
{i}    .map(|(j, v)| match v {{
{i}        "#);
    reveal_with_fuel(text::plain_to, 31);
    let b = seq![("i"@, i), ("idx"@, idx), ("sql_name"@, sql_name), ("rust_ty"@, rust_ty), ("arms"@, arms), ("kebab_name"@, kebab_name), ("max"@, max)];
    lemma_holes_i_idx_sql_name_rust_ty_arms_kebab_name_max(
        i,
        idx,
        sql_name,
        rust_ty,
        arms,
        kebab_name,
        max,
    );
    assert(words::has_piece(
        text::fill(t::ARG_LIST_GEOM_REST@, b),
        "let arg"@ + idx + "_owned: Vec<Geometry> = args["@ + idx + "..]"@,
    )) by {
        let before = text::lemma_fill_reaches(s, b, 3);
        reveal_strlit("let arg");
        assert(s.subrange(3, 10) =~= "let arg"@);
        text::lemma_fill_run(s, b, 3, "let arg"@);
        reveal_strlit("idx");
        assert(s.subrange(11, 14) =~= "idx"@);
        text::lemma_fill_hole(s, b, 10, "idx"@);
        reveal_strlit("_owned: Vec<Geometry> = args[");
        assert(s.subrange(15, 44) =~= "_owned: Vec<Geometry> = args["@);
        text::lemma_fill_run(s, b, 15, "_owned: Vec<Geometry> = args["@);
        assert(s.subrange(45, 48) =~= "idx"@);
        text::lemma_fill_hole(s, b, 44, "idx"@);
        reveal_strlit("..]");
        assert(s.subrange(49, 52) =~= "..]"@);
        text::lemma_fill_run(s, b, 49, "..]"@);
        let rest = text::fill_from(s, b, 52);
        let part = "let arg"@ + idx + "_owned: Vec<Geometry> = args["@ + idx + "..]"@;
        assert(("let arg"@ + (idx + ("_owned: Vec<Geometry> = args["@ + (idx + ("..]"@ + rest)))))
            =~= part + rest);
        words::lemma_piece_between(before, part, rest);
    }
}

proof fn lemma_arg_list_geom_rest_end(
    i: Seq<char>,
    idx: Seq<char>,
    sql_name: Seq<char>,
    rust_ty: Seq<char>,
    arms: Seq<char>,
    kebab_name: Seq<char>,
    max: Seq<char>,
)
    ensures
        words::has_piece(
            text::fill(
                t::ARG_LIST_GEOM_REST_END@,
                seq![("i"@, i), ("idx"@, idx), ("sql_name"@, sql_name), ("rust_ty"@, rust_ty), ("arms"@, arms), ("kebab_name"@, kebab_name), ("max"@, max)],
            ),
            " => Geometry::from_wkb(b.as_slice())"@,
        ),
        words::has_piece(
            text::fill(
                t::ARG_LIST_GEOM_REST_END@,
                seq![("i"@, i), ("idx"@, idx), ("sql_name"@, sql_name), ("rust_ty"@, rust_ty), ("arms"@, arms), ("kebab_name"@, kebab_name), ("max"@, max)],
            ),
            "let arg"@ + idx + ": Vec<&Geometry> = arg"@ + idx + "_owned.iter().collect();"@,
        ),
{
    let s = t::ARG_LIST_GEOM_REST_END@;
    reveal_strlit(r#" => Geometry::from_wkb(b.as_slice())
{i}            .map_err(|e| types::Duckerror::Invalidargument(
{i}                format!("{sql_name}: arg {{}}: {{}}", {idx} + j, postgis_err_string(e)))),
{i}        types::Duckvalue::Text(t) => Geometry::from_wkb(t.as_bytes())
{i}            .map_err(|e| types::Duckerror::Invalidargument(
{i}                format!("{sql_name}: arg {{}}: {{}}", {idx} + j, postgis_err_string(e)))),
{i}        _ => Err(types::Duckerror::Invalidargument(
{i}            format!("{sql_name}: arg {{}} must be BLOB", {idx} + j))),
{i}    }})
{i}    .collect::<Result<Vec<_>, _>>()?;
{i}let arg{idx}: Vec<&Geometry> = arg{idx}_owned.iter().collect();
"#);
    reveal_with_fuel(text::plain_to, 31);
    let b = seq![("i"@, i), ("idx"@, idx), ("sql_name"@, sql_name), ("rust_ty"@, rust_ty), ("arms"@, arms), ("kebab_name"@, kebab_name), ("max"@, max)];
    lemma_holes_i_idx_sql_name_rust_ty_arms_kebab_name_max(
        i,
        idx,
        sql_name,
        rust_ty,
        arms,
        kebab_name,
        max,
    );
    assert(words::has_piece(
        text::fill(t::ARG_LIST_GEOM_REST_END@, b),
        " => Geometry::from_wkb(b.as_slice())"@,
    )) by {
        let before = text::lemma_fill_reaches(s, b, 0);
        reveal_strlit(" => Geometry::from_wkb(b.as_sl");
        assert(s.subrange(0, 30) =~= " => Geometry::from_wkb(b.as_sl"@);
        text::lemma_fill_run(s, b, 0, " => Geometry::from_wkb(b.as_sl"@);
        reveal_strlit("ice())");
        assert(s.subrange(30, 36) =~= "ice())"@);
        text::lemma_fill_run(s, b, 30, "ice())"@);
        let rest = text::fill_from(s, b, 36);
        let part = " => Geometry::from_wkb(b.as_slice())"@;
        reveal_strlit(" => Geometry::from_wkb(b.as_slice())");
        assert((" => Geometry::from_wkb(b.as_sl"@ + ("ice())"@ + rest)) =~= part + rest);
        words::lemma_piece_between(before, part, rest);
    }
    assert(words::has_piece(
        text::fill(t::ARG_LIST_GEOM_REST_END@, b),
        "let arg"@ + idx + ": Vec<&Geometry> = arg"@ + idx + "_owned.iter().collect();"@,
    )) by {
        let before = text::lemma_fill_reaches(s, b, 608);
        reveal_strlit("let arg");
        assert(s.subrange(608, 615) =~= "let arg"@);
        text::lemma_fill_run(s, b, 608, "let arg"@);
        reveal_strlit("idx");
        assert(s.subrange(616, 619) =~= "idx"@);
        text::lemma_fill_hole(s, b, 615, "idx"@);
        reveal_strlit(": Vec<&Geometry> = arg");
        assert(s.subrange(620, 642) =~= ": Vec<&Geometry> = arg"@);
        text::lemma_fill_run(s, b, 620, ": Vec<&Geometry> = arg"@);
        assert(s.subrange(643, 646) =~= "idx"@);
        text::lemma_fill_hole(s, b, 642, "idx"@);
        reveal_strlit("_owned.iter().collect();");
        assert(s.subrange(647, 671) =~= "_owned.iter().collect();"@);
        text::lemma_fill_run(s, b, 647, "_owned.iter().collect();"@);
        let rest = text::fill_from(s, b, 671);
        let part = "let arg"@ + idx + ": Vec<&Geometry> = arg"@ + idx + "_owned.iter().collect();"@;
        assert((
            "let arg"@
                + (idx + (": Vec<&Geometry> = arg"@ + (idx + ("_owned.iter().collect();"@ + rest))))
        )
            =~= part + rest);
        words::lemma_piece_between(before, part, rest);
    }
}

proof fn lemma_arg_list_geom_one_end(
    i: Seq<char>,
    idx: Seq<char>,
    sql_name: Seq<char>,
    rust_ty: Seq<char>,
    arms: Seq<char>,
    kebab_name: Seq<char>,
    max: Seq<char>,
)
    ensures
        words::has_piece(
            text::fill(
                t::ARG_LIST_GEOM_ONE_END@,
                seq![("i"@, i), ("idx"@, idx), ("sql_name"@, sql_name), ("rust_ty"@, rust_ty), ("arms"@, arms), ("kebab_name"@, kebab_name), ("max"@, max)],
            ),
            "let arg"@ + idx + "_owned: Vec<Geometry> = alloc::vec![arg"@ + idx + "_one];"@,
        ),
        words::has_piece(
            text::fill(
                t::ARG_LIST_GEOM_ONE_END@,
                seq![("i"@, i), ("idx"@, idx), ("sql_name"@, sql_name), ("rust_ty"@, rust_ty), ("arms"@, arms), ("kebab_name"@, kebab_name), ("max"@, max)],
            ),
            "let arg"@ + idx + ": Vec<&Geometry> = arg"@ + idx + "_owned.iter().collect();"@,
        ),
{
    let s = t::ARG_LIST_GEOM_ONE_END@;
    reveal_strlit(r#", "{sql_name}")?;
{i}let arg{idx}_owned: Vec<Geometry> = alloc::vec![arg{idx}_one];
{i}let arg{idx}: Vec<&Geometry> = arg{idx}_owned.iter().collect();
"#);
    reveal_with_fuel(text::plain_to, 31);
    let b = seq![("i"@, i), ("idx"@, idx), ("sql_name"@, sql_name), ("rust_ty"@, rust_ty), ("arms"@, arms), ("kebab_name"@, kebab_name), ("max"@, max)];
    lemma_holes_i_idx_sql_name_rust_ty_arms_kebab_name_max(
        i,
        idx,
        sql_name,
        rust_ty,
        arms,
        kebab_name,
        max,
    );
    assert(words::has_piece(
        text::fill(t::ARG_LIST_GEOM_ONE_END@, b),
        "let arg"@ + idx + "_owned: Vec<Geometry> = alloc::vec![arg"@ + idx + "_one];"@,
    )) by {
        let before = text::lemma_fill_reaches(s, b, 21);
        reveal_strlit("let arg");
        assert(s.subrange(21, 28) =~= "let arg"@);
        text::lemma_fill_run(s, b, 21, "let arg"@);
        reveal_strlit("idx");
        assert(s.subrange(29, 32) =~= "idx"@);
        text::lemma_fill_hole(s, b, 28, "idx"@);
        reveal_strlit("_owned: Vec<Geometry> = alloc:");
        assert(s.subrange(33, 63) =~= "_owned: Vec<Geometry> = alloc:"@);
        text::lemma_fill_run(s, b, 33, "_owned: Vec<Geometry> = alloc:"@);
        reveal_strlit(":vec![arg");
        assert(s.subrange(63, 72) =~= ":vec![arg"@);
        text::lemma_fill_run(s, b, 63, ":vec![arg"@);
        assert(s.subrange(73, 76) =~= "idx"@);
        text::lemma_fill_hole(s, b, 72, "idx"@);
        reveal_strlit("_one];");
        assert(s.subrange(77, 83) =~= "_one];"@);
        text::lemma_fill_run(s, b, 77, "_one];"@);
        let rest = text::fill_from(s, b, 83);
        let part = "let arg"@ + idx + "_owned: Vec<Geometry> = alloc::vec![arg"@ + idx + "_one];"@;
        reveal_strlit("_owned: Vec<Geometry> = alloc::vec![arg");
        assert((
            "let arg"@
                + (
                    idx
                        + (
                            "_owned: Vec<Geometry> = alloc:"@
                                + (":vec![arg"@ + (idx + ("_one];"@ + rest)))
                        )
                )
        )
            =~= part + rest);
        words::lemma_piece_between(before, part, rest);
    }
    assert(words::has_piece(
        text::fill(t::ARG_LIST_GEOM_ONE_END@, b),
        "let arg"@ + idx + ": Vec<&Geometry> = arg"@ + idx + "_owned.iter().collect();"@,
    )) by {
        let before = text::lemma_fill_reaches(s, b, 87);
        reveal_strlit("let arg");
        assert(s.subrange(87, 94) =~= "let arg"@);
        text::lemma_fill_run(s, b, 87, "let arg"@);
        reveal_strlit("idx");
        assert(s.subrange(95, 98) =~= "idx"@);
        text::lemma_fill_hole(s, b, 94, "idx"@);
        reveal_strlit(": Vec<&Geometry> = arg");
        assert(s.subrange(99, 121) =~= ": Vec<&Geometry> = arg"@);
        text::lemma_fill_run(s, b, 99, ": Vec<&Geometry> = arg"@);
        assert(s.subrange(122, 125) =~= "idx"@);
        text::lemma_fill_hole(s, b, 121, "idx"@);
        reveal_strlit("_owned.iter().collect();");
        assert(s.subrange(126, 150) =~= "_owned.iter().collect();"@);
        text::lemma_fill_run(s, b, 126, "_owned.iter().collect();"@);
        let rest = text::fill_from(s, b, 150);
        let part = "let arg"@ + idx + ": Vec<&Geometry> = arg"@ + idx + "_owned.iter().collect();"@;
        assert((
            "let arg"@
                + (idx + (": Vec<&Geometry> = arg"@ + (idx + ("_owned.iter().collect();"@ + rest))))
        )
            =~= part + rest);
        words::lemma_piece_between(before, part, rest);
    }
}

proof fn lemma_arg_enum_end(
    i: Seq<char>,
    idx: Seq<char>,
    sql_name: Seq<char>,
    rust_ty: Seq<char>,
    arms: Seq<char>,
    kebab_name: Seq<char>,
    max: Seq<char>,
)
    ensures
        words::has_piece(
            text::fill(
                t::ARG_ENUM_END@,
                seq![("i"@, i), ("idx"@, idx), ("sql_name"@, sql_name), ("rust_ty"@, rust_ty), ("arms"@, arms), ("kebab_name"@, kebab_name), ("max"@, max)],
            ),
            arms,
        ),
        words::has_piece(
            text::fill(
                t::ARG_ENUM_END@,
                seq![("i"@, i), ("idx"@, idx), ("sql_name"@, sql_name), ("rust_ty"@, rust_ty), ("arms"@, arms), ("kebab_name"@, kebab_name), ("max"@, max)],
            ),
            "other => return Err(types::Duckerror::Invalidargument(format!("@,
        ),
        words::has_piece(
            text::fill(
                t::ARG_ENUM_END@,
                seq![("i"@, i), ("idx"@, idx), ("sql_name"@, sql_name), ("rust_ty"@, rust_ty), ("arms"@, arms), ("kebab_name"@, kebab_name), ("max"@, max)],
            ),
            " (valid 0.."@ + max + ")\""@,
        ),
{
    let s = t::ARG_ENUM_END@;
    reveal_strlit(r#" {{
{arms}{i}    other => return Err(types::Duckerror::Invalidargument(format!(
{i}        "{sql_name}: arg {idx} ({kebab_name}) out of range: {{}} (valid 0..{max})",
{i}        other,
{i}    ))),
{i}}};
"#);
    reveal_with_fuel(text::plain_to, 31);
    let b = seq![("i"@, i), ("idx"@, idx), ("sql_name"@, sql_name), ("rust_ty"@, rust_ty), ("arms"@, arms), ("kebab_name"@, kebab_name), ("max"@, max)];
    lemma_holes_i_idx_sql_name_rust_ty_arms_kebab_name_max(
        i,
        idx,
        sql_name,
        rust_ty,
        arms,
        kebab_name,
        max,
    );
    assert(words::has_piece(text::fill(t::ARG_ENUM_END@, b), arms)) by {
        let before = text::lemma_fill_reaches(s, b, 0);
        reveal_strlit(" ");
        assert(s.subrange(0, 1) =~= " "@);
        text::lemma_fill_run(s, b, 0, " "@);
        assert(text::fill_from(s, b, 1) == seq!['{'] + text::fill_from(s, b, 3));
        reveal_strlit("\n");
        assert(s.subrange(3, 4) =~= "\n"@);
        text::lemma_fill_run(s, b, 3, "\n"@);
        reveal_strlit("arms");
        assert(s.subrange(5, 9) =~= "arms"@);
        text::lemma_fill_hole(s, b, 4, "arms"@);
        let rest = text::fill_from(s, b, 10);
        let part = arms;
        assert(before + (" "@ + (seq!['{'] + ("\n"@ + (part + rest))))
            =~= (before + " "@ + seq!['{'] + "\n"@) + (part + rest));
        words::lemma_piece_between(before + " "@ + seq!['{'] + "\n"@, part, rest);
    }
    assert(words::has_piece(
        text::fill(t::ARG_ENUM_END@, b),
        "other => return Err(types::Duckerror::Invalidargument(format!("@,
    )) by {
        let before = text::lemma_fill_reaches(s, b, 13);
        reveal_strlit("    ");
        assert(s.subrange(13, 17) =~= "    "@);
        text::lemma_fill_run(s, b, 13, "    "@);
        reveal_strlit("other => return Err(types::Duc");
        assert(s.subrange(17, 47) =~= "other => return Err(types::Duc"@);
        text::lemma_fill_run(s, b, 17, "other => return Err(types::Duc"@);
        reveal_strlit("kerror::Invalidargument(format");
        assert(s.subrange(47, 77) =~= "kerror::Invalidargument(format"@);
        text::lemma_fill_run(s, b, 47, "kerror::Invalidargument(format"@);
        reveal_strlit("!(");
        assert(s.subrange(77, 79) =~= "!("@);
        text::lemma_fill_run(s, b, 77, "!("@);
        let rest = text::fill_from(s, b, 79);
        let part = "other => return Err(types::Duckerror::Invalidargument(format!("@;
        reveal_strlit("other => return Err(types::Duckerror::Invalidargument(format!(");
        assert(("other => return Err(types::Duc"@ + ("kerror::Invalidargument(format"@ + ("!("@ + rest)))
            =~= part + rest);
        assert(before + ("    "@ + (part + rest)) =~= (before + "    "@) + (part + rest));
        words::lemma_piece_between(before + "    "@, part, rest);
    }
    assert(words::has_piece(text::fill(t::ARG_ENUM_END@, b), " (valid 0.."@ + max + ")\""@)) by {
        let before = text::lemma_fill_reaches(s, b, 147);
        reveal_strlit(" (valid 0..");
        assert(s.subrange(147, 158) =~= " (valid 0.."@);
        text::lemma_fill_run(s, b, 147, " (valid 0.."@);
        reveal_strlit("max");
        assert(s.subrange(159, 162) =~= "max"@);
        text::lemma_fill_hole(s, b, 158, "max"@);
        reveal_strlit(")\"");
        assert(s.subrange(163, 165) =~= ")\""@);
        text::lemma_fill_run(s, b, 163, ")\""@);
        let rest = text::fill_from(s, b, 165);
        let part = " (valid 0.."@ + max + ")\""@;
        assert((" (valid 0.."@ + (max + (")\""@ + rest))) =~= part + rest);
        words::lemma_piece_between(before, part, rest);
    }
}

proof fn lemma_extra(i: Seq<char>, j: Seq<char>)
    ensures
        text::fill(t::EXTRA@, seq![("i"@, i), ("j"@, j)]) == i + "let extra"@ + j + " = "@,
{
    let s = t::EXTRA@;
    let b = seq![("i"@, i), ("j"@, j)];
    reveal_strlit("{i}let extra{j} = ");
    reveal_with_fuel(text::plain_to, 31);
    lemma_holes_i_j(i, j);
    reveal_strlit("i");
    assert(s.subrange(1, 2) =~= "i"@);
    text::lemma_fill_hole(s, b, 0, "i"@);
    reveal_strlit("let extra");
    assert(s.subrange(3, 12) =~= "let extra"@);
    text::lemma_fill_run(s, b, 3, "let extra"@);
    reveal_strlit("j");
    assert(s.subrange(13, 14) =~= "j"@);
    text::lemma_fill_hole(s, b, 12, "j"@);
    reveal_strlit(" = ");
    assert(s.subrange(15, 18) =~= " = "@);
    text::lemma_fill_run(s, b, 15, " = "@);
    assert((i + ("let extra"@ + (j + (" = "@ + text::fill_from(s, b, 18)))))
        =~= i + "let extra"@ + j + " = "@);
}

proof fn lemma_extra_read(j: Seq<char>, sql_name: Seq<char>)
    ensures
        text::fill(t::EXTRA_READ@, seq![("j"@, j), ("sql_name"@, sql_name)])
            == "(&extras, "@ + j + ", \""@ + sql_name + "\")?"@,
{
    let s = t::EXTRA_READ@;
    let b = seq![("j"@, j), ("sql_name"@, sql_name)];
    reveal_strlit("(&extras, {j}, \"{sql_name}\")?");
    reveal_with_fuel(text::plain_to, 31);
    lemma_holes_j_sql_name(j, sql_name);
    reveal_strlit("(&extras, ");
    assert(s.subrange(0, 10) =~= "(&extras, "@);
    text::lemma_fill_run(s, b, 0, "(&extras, "@);
    reveal_strlit("j");
    assert(s.subrange(11, 12) =~= "j"@);
    text::lemma_fill_hole(s, b, 10, "j"@);
    reveal_strlit(", \"");
    assert(s.subrange(13, 16) =~= ", \""@);
    text::lemma_fill_run(s, b, 13, ", \""@);
    reveal_strlit("sql_name");
    assert(s.subrange(17, 25) =~= "sql_name"@);
    text::lemma_fill_hole(s, b, 16, "sql_name"@);
    reveal_strlit("\")?");
    assert(s.subrange(26, 29) =~= "\")?"@);
    text::lemma_fill_run(s, b, 26, "\")?"@);
    assert(("(&extras, "@ + (j + (", \""@ + (sql_name + ("\")?"@ + text::fill_from(s, b, 29))))))
        =~= "(&extras, "@ + j + ", \""@ + sql_name + "\")?"@);
}

proof fn lemma_window_extra(i: Seq<char>, j: Seq<char>)
    ensures
        text::fill(t::WINDOW_EXTRA@, seq![("i"@, i), ("j"@, j)]) == i + "let __extra"@ + j + " = "@,
{
    let s = t::WINDOW_EXTRA@;
    let b = seq![("i"@, i), ("j"@, j)];
    reveal_strlit("{i}let __extra{j} = ");
    reveal_with_fuel(text::plain_to, 31);
    lemma_holes_i_j(i, j);
    reveal_strlit("i");
    assert(s.subrange(1, 2) =~= "i"@);
    text::lemma_fill_hole(s, b, 0, "i"@);
    reveal_strlit("let __extra");
    assert(s.subrange(3, 14) =~= "let __extra"@);
    text::lemma_fill_run(s, b, 3, "let __extra"@);
    reveal_strlit("j");
    assert(s.subrange(15, 16) =~= "j"@);
    text::lemma_fill_hole(s, b, 14, "j"@);
    reveal_strlit(" = ");
    assert(s.subrange(17, 20) =~= " = "@);
    text::lemma_fill_run(s, b, 17, " = "@);
    assert((i + ("let __extra"@ + (j + (" = "@ + text::fill_from(s, b, 20)))))
        =~= i + "let __extra"@ + j + " = "@);
}

proof fn lemma_window_extra_read(arg_idx: Seq<char>, sql_name: Seq<char>)
    ensures
        text::fill(t::WINDOW_EXTRA_READ@, seq![("arg_idx"@, arg_idx), ("sql_name"@, sql_name)])
            == "(&partition[0], "@ + arg_idx + ", \""@ + sql_name + "\")?"@,
{
    let s = t::WINDOW_EXTRA_READ@;
    let b = seq![("arg_idx"@, arg_idx), ("sql_name"@, sql_name)];
    reveal_strlit("(&partition[0], {arg_idx}, \"{sql_name}\")?");
    reveal_with_fuel(text::plain_to, 31);
    lemma_holes_arg_idx_sql_name(arg_idx, sql_name);
    reveal_strlit("(&partition[0], ");
    assert(s.subrange(0, 16) =~= "(&partition[0], "@);
    text::lemma_fill_run(s, b, 0, "(&partition[0], "@);
    reveal_strlit("arg_idx");
    assert(s.subrange(17, 24) =~= "arg_idx"@);
    text::lemma_fill_hole(s, b, 16, "arg_idx"@);
    reveal_strlit(", \"");
    assert(s.subrange(25, 28) =~= ", \""@);
    text::lemma_fill_run(s, b, 25, ", \""@);
    reveal_strlit("sql_name");
    assert(s.subrange(29, 37) =~= "sql_name"@);
    text::lemma_fill_hole(s, b, 28, "sql_name"@);
    reveal_strlit("\")?");
    assert(s.subrange(38, 41) =~= "\")?"@);
    text::lemma_fill_run(s, b, 38, "\")?"@);
    assert((
        "(&partition[0], "@
            + (arg_idx + (", \""@ + (sql_name + ("\")?"@ + text::fill_from(s, b, 41)))))
    )
        =~= "(&partition[0], "@ + arg_idx + ", \""@ + sql_name + "\")?"@);
}

proof fn lemma_unwrap(sql_name: Seq<char>)
    ensures
        text::fill(t::UNWRAP@, seq![("sql_name"@, sql_name)])
            == ".map_err(|e| types::Duckerror::Invalidargument(format!(\""@ + sql_name
                + ": {}\", shim_err_string(e))))?"@,
{
    let s = t::UNWRAP@;
    let b = seq![("sql_name"@, sql_name)];
    reveal_strlit(".map_err(|e| types::Duckerror::Invalidargument(format!(\"{sql_name}: {{}}\", shim_err_string(e))))?");
    reveal_with_fuel(text::plain_to, 31);
    lemma_holes_sql_name(sql_name);
    reveal_strlit(".map_err(|e| types::Duckerror:");
    assert(s.subrange(0, 30) =~= ".map_err(|e| types::Duckerror:"@);
    text::lemma_fill_run(s, b, 0, ".map_err(|e| types::Duckerror:"@);
    reveal_strlit(":Invalidargument(format!(\"");
    assert(s.subrange(30, 56) =~= ":Invalidargument(format!(\""@);
    text::lemma_fill_run(s, b, 30, ":Invalidargument(format!(\""@);
    reveal_strlit("sql_name");
    assert(s.subrange(57, 65) =~= "sql_name"@);
    text::lemma_fill_hole(s, b, 56, "sql_name"@);
    reveal_strlit(": ");
    assert(s.subrange(66, 68) =~= ": "@);
    text::lemma_fill_run(s, b, 66, ": "@);
    assert(text::fill_from(s, b, 68) == seq!['{'] + text::fill_from(s, b, 70));
    assert(text::fill_from(s, b, 70) == seq!['}'] + text::fill_from(s, b, 72));
    reveal_strlit("\", shim_err_string(e))))?");
    assert(s.subrange(72, 97) =~= "\", shim_err_string(e))))?"@);
    text::lemma_fill_run(s, b, 72, "\", shim_err_string(e))))?"@);
    reveal_strlit(".map_err(|e| types::Duckerror::Invalidargument(format!(\"");
    reveal_strlit(": {}\", shim_err_string(e))))?");
    assert((
        ".map_err(|e| types::Duckerror:"@
            + (
                ":Invalidargument(format!(\""@
                    + (
                        sql_name
                            + (
                                ": "@
                                    + (
                                        seq!['{']
                                            + (
                                                seq!['}']
                                                    + (
                                                        "\", shim_err_string(e))))?"@
                                                            + text::fill_from(s, b, 97)
                                                    )
                                            )
                                    )
                            )
                    )
            )
    )
        =~= ".map_err(|e| types::Duckerror::Invalidargument(format!(\""@ + sql_name
            + ": {}\", shim_err_string(e))))?"@);
}

} // verus!
