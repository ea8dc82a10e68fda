//! How the arms of scalar functions read their arguments.

use vstd::prelude::*;
use vstd::string::*;

use crate::calls;
use crate::ir::{DispatchShape, ParamShape};
use crate::sqlite::dispatch;
use crate::sqlite::dispatch_templates as t;
use crate::text;
use crate::tuples;
use crate::words;

verus! {

/// The declaration of argument `idx` reads the value at `idx` with the reader of its shape, into
/// the type of the shape: texts, reals, integers and blobs as they are, integers of other widths
/// and booleans from integers, resources from blobs, lists from JSON, and records with the reader
/// of their type. A list of geometries takes all values from `idx` on where it is the last
/// argument, and the one at `idx` where it is not. There is none for an option that is never
/// given.
pub proof fn law_argument_readings(
    p: ParamShape,
    idx: nat,
    last: bool,
    sql_name: Seq<char>,
    i: Seq<char>,
)
    ensures
        ({
            let s = dispatch::arg_decl(p, idx, last, sql_name, i);
            let d = words::decimal(idx);
            match p {
                ParamShape::Text => words::has_piece(
                    s,
                    "let arg"@ + d + " = arg_text(&args, "@ + d + ", \""@ + sql_name + "\")?;"@,
                ),
                ParamShape::F64 => words::has_piece(
                    s,
                    "let arg"@ + d + " = arg_f64(&args, "@ + d + ", \""@ + sql_name + "\")?;"@,
                ),
                ParamShape::S32 => words::has_piece(
                    s,
                    "let arg"@ + d + " = arg_i64(&args, "@ + d + ", \""@ + sql_name
                        + "\")? as i32;"@,
                ),
                ParamShape::S64 => words::has_piece(
                    s,
                    "let arg"@ + d + " = arg_i64(&args, "@ + d + ", \""@ + sql_name + "\")?;"@,
                ),
                ParamShape::U32 => words::has_piece(
                    s,
                    "let arg"@ + d + " = arg_i64(&args, "@ + d + ", \""@ + sql_name
                        + "\")? as u32;"@,
                ),
                ParamShape::U64 => words::has_piece(
                    s,
                    "let arg"@ + d + " = arg_i64(&args, "@ + d + ", \""@ + sql_name
                        + "\")? as u64;"@,
                ),
                ParamShape::Bool => words::has_piece(
                    s,
                    "let arg"@ + d + " = arg_i64(&args, "@ + d + ", \""@ + sql_name + "\")? != 0;"@,
                ),
                ParamShape::Blob => words::has_piece(
                    s,
                    "let arg"@ + d + " = arg_blob(&args, "@ + d + ", \""@ + sql_name + "\")?;"@,
                ),
                ParamShape::Geom => words::has_piece(
                    s,
                    "let arg"@ + d + " = from_wkb(arg_blob(&args, "@ + d + ", \""@ + sql_name
                        + "\")?, \""@ + sql_name + "\")?;"@,
                ),
                ParamShape::Geog => words::has_piece(
                    s,
                    "let arg"@ + d + " = geog_from_wkb(arg_blob(&args, "@ + d + ", \""@ + sql_name
                        + "\")?, \""@ + sql_name + "\")?;"@,
                ),
                ParamShape::Raster => words::has_piece(
                    s,
                    "let arg"@ + d + " = from_raster_binary(arg_blob(&args, "@ + d + ", \""@
                        + sql_name + "\")?, \""@ + sql_name + "\")?;"@,
                ),
                ParamShape::Topology => words::has_piece(
                    s,
                    "let arg"@ + d + " = from_topology_bytes(arg_blob(&args, "@ + d + ", \""@
                        + sql_name + "\")?, \""@ + sql_name + "\")?;"@,
                ),
                ParamShape::ListGeom => {
                    &&& last ==> words::has_piece(
                        s,
                        "let arg"@ + d + "_owned: Vec<Geometry> = args["@ + d + "..]"@,
                    )
                    &&& last ==> words::has_piece(
                        s,
                        "let arg"@ + d + ": Vec<&Geometry> = arg"@ + d
                            + "_owned.iter().collect();"@,
                    )
                    &&& !last ==> words::has_piece(
                        s,
                        "let arg"@ + d + "_one = from_wkb(arg_blob(&args, "@ + d + ", \""@
                            + sql_name + "\")?, \""@ + sql_name + "\")?;"@,
                    )
                    &&& !last ==> words::has_piece(
                        s,
                        "let arg"@ + d + "_owned: Vec<Geometry> = alloc::vec![arg"@ + d + "_one];"@,
                    )
                    &&& !last ==> words::has_piece(
                        s,
                        "let arg"@ + d + ": Vec<&Geometry> = arg"@ + d
                            + "_owned.iter().collect();"@,
                    )
                },
                ParamShape::Enum { wit_module, wit_package, kebab_name, cases } => {
                    &&& words::has_piece(
                        s,
                        "let arg"@ + d + " = match arg_i64(&args, "@ + d + ", \""@ + sql_name
                            + "\")? "@,
                    )
                    &&& words::has_piece(
                        s,
                        calls::enum_arms(i, wit_module@, kebab_name@, cases@, cases@.len()),
                    )
                    &&& words::has_piece(s, "other => return Err(format!("@)
                    &&& words::has_piece(s, " (valid 0.."@ + words::decimal(cases@.len()) + ")\""@)
                },
                ParamShape::ListRecord { kebab_name } => words::has_piece(
                    s,
                    "let arg"@ + d + " = parse_json_list_record_"@ + words::snake(kebab_name@)
                        + "(&args, "@ + d + ", \""@ + sql_name + "\")?;"@,
                ),
                ParamShape::WitValueRecord { kebab_name, upstream_by_value } => words::has_piece(
                    s,
                    "let arg"@ + d + " = arg_witvalue_"@ + words::snake(kebab_name@) + "(&args, "@
                        + d + ", \""@ + sql_name + "\")?;"@,
                ),
                ParamShape::ListPrim(elem) => words::has_piece(
                    s,
                    "let arg"@ + d + ": Vec<"@ + elem.rust_type() + "> = parse_json_list_"@
                        + elem.suffix() + "(&args, "@ + d + ", \""@ + sql_name + "\")?;"@,
                ),
                ParamShape::ListTuple { elements } => words::has_piece(
                    s,
                    "let arg"@ + d + ": Vec<"@ + tuples::tuple_type(tuples::rust_types(elements@))
                        + "> = parse_json_list_tuple_"@ + tuples::tuple_suffix(elements@)
                        + "(&args, "@ + d + ", \""@ + sql_name + "\")?;"@,
                ),
                ParamShape::OptionNone => s.len() == 0,
                ParamShape::ListTupleMixed { .. }
                | ParamShape::ListListU8
                | ParamShape::ListListPrim(_)
                | ParamShape::ListListRecord { .. } => !dispatch::param_wired(p),
            }
        }),
{
    let d = words::decimal(idx);
    match p {
        ParamShape::Text => lemma_arg_text(i, d, sql_name),
        ParamShape::F64 => lemma_arg_f64(i, d, sql_name),
        ParamShape::S32 => lemma_arg_s32(i, d, sql_name),
        ParamShape::S64 => lemma_arg_s64(i, d, sql_name),
        ParamShape::U32 => lemma_arg_u32(i, d, sql_name),
        ParamShape::U64 => lemma_arg_u64(i, d, sql_name),
        ParamShape::Bool => lemma_arg_bool(i, d, sql_name),
        ParamShape::Blob => lemma_arg_blob(i, d, sql_name),
        ParamShape::Geom => lemma_arg_geom(i, d, sql_name),
        ParamShape::Geog => lemma_arg_geog(i, d, sql_name),
        ParamShape::Raster => lemma_arg_raster(i, d, sql_name),
        ParamShape::Topology => lemma_arg_topology(i, d, sql_name),
        ParamShape::ListGeom => {
            lemma_arg_list_geom_rest(i, d, sql_name);
            lemma_arg_list_geom_one(i, d, sql_name);
        },
        ParamShape::Enum { wit_module, wit_package, kebab_name, cases } => lemma_arg_enum(
            i,
            d,
            sql_name,
            calls::enum_arms(i, wit_module@, kebab_name@, cases@, cases@.len()),
            kebab_name@,
            words::decimal(cases@.len()),
        ),
        ParamShape::ListRecord { kebab_name } => lemma_arg_list_record(i, d, sql_name, words::snake(kebab_name@)),
        ParamShape::WitValueRecord { kebab_name, upstream_by_value } => lemma_arg_wit_value(i, d, sql_name, words::snake(kebab_name@)),
        ParamShape::ListPrim(elem) => lemma_arg_list_prim(i, d, sql_name, elem.suffix(), elem.rust_type()),
        ParamShape::ListTuple { elements } => lemma_arg_list_tuple(
            i,
            d,
            sql_name,
            tuples::tuple_suffix(elements@),
            tuples::tuple_type(tuples::rust_types(elements@)),
        ),
        _ => {},
    }
}

/// The declaration of each argument, at its own position, stands among the declarations.
pub proof fn law_arguments_declared(
    params: Seq<ParamShape>,
    sql_name: Seq<char>,
    i: Seq<char>,
    n: nat,
    k: int,
)
    requires
        0 <= k < n <= params.len(),
    ensures
        words::has_piece(
            dispatch::arg_decls(params, sql_name, i, n),
            dispatch::arg_decl(params[k], k as nat, k == params.len() - 1, sql_name, i),
        ),
    decreases n,
{
    let before = dispatch::arg_decls(params, sql_name, i, (n - 1) as nat);
    let decl = dispatch::arg_decl(params[n - 1], (n - 1) as nat, n == params.len(), sql_name, i);
    if k == n - 1 {
        words::lemma_piece_added(before, decl);
    } else {
        law_arguments_declared(params, sql_name, i, (n - 1) as nat, k);
        words::lemma_pieces_kept(before, decl);
    }
}

/// The arm of a scalar function declares each argument, and then makes the value of the call of
/// its function. The call of a function that can fail is followed by what turns its error into a
/// text with the name of the SQL function; that of any other is followed by nothing.
pub proof fn law_scalar_arm(
    shape: DispatchShape,
    fallible: bool,
    sql_name: Seq<char>,
    i: Seq<char>,
    k: int,
)
    ensures
        ({
            let body = dispatch::scalar_arm_body(shape, fallible, sql_name, i);
            let params = shape.params@;
            let chain = if fallible {
                ".map_err(|e| format!(\""@ + sql_name + ": {}\", shim_err_string(e)))?"@
            } else {
                Seq::empty()
            };
            &&& 0 <= k < params.len() ==> words::has_piece(
                body,
                dispatch::arg_decl(params[k], k as nat, k == params.len() - 1, sql_name, i),
            )
            &&& words::has_piece(
                body,
                dispatch::return_expr(shape.ret, calls::call_expr(shape), chain, sql_name, i),
            )
        }),
{
    let params = shape.params@;
    let decls = dispatch::arg_decls(params, sql_name, i, params.len());
    let chain = dispatch::unwrap_chain(fallible, sql_name);
    let e = dispatch::return_expr(shape.ret, calls::call_expr(shape), chain, sql_name, i);
    lemma_unwrap_chain(sql_name);
    if 0 <= k < params.len() {
        law_arguments_declared(params, sql_name, i, params.len(), k);
        words::lemma_pieces_around(decls, i, e);
    }
    words::lemma_piece_added(decls + i, e);
}

proof fn lemma_unwrap_chain(sql_name: Seq<char>)
    ensures
        dispatch::unwrap_chain(true, sql_name)
            == ".map_err(|e| format!(\""@ + sql_name + ": {}\", shim_err_string(e)))?"@,
{
    let s = t::UNWRAP@;
    let b = seq![("sql_name"@, sql_name)];
    reveal_strlit(".map_err(|e| format!(\"{sql_name}: {{}}\", shim_err_string(e)))?");
    reveal_with_fuel(text::plain_to, 31);
    lemma_holes_sql_name(sql_name);
    reveal_strlit(".map_err(|e| format!(\"");
    assert(s.subrange(0, 22) =~= ".map_err(|e| format!(\""@);
    text::lemma_fill_run(s, b, 0, ".map_err(|e| format!(\""@);
    reveal_strlit("sql_name");
    assert(s.subrange(23, 31) =~= "sql_name"@);
    text::lemma_fill_hole(s, b, 22, "sql_name"@);
    reveal_strlit(": ");
    assert(s.subrange(32, 34) =~= ": "@);
    text::lemma_fill_run(s, b, 32, ": "@);
    assert(text::fill_from(s, b, 34) == seq!['{'] + text::fill_from(s, b, 36));
    assert(text::fill_from(s, b, 36) == seq!['}'] + text::fill_from(s, b, 38));
    reveal_strlit("\", shim_err_string(e)))?");
    assert(s.subrange(38, 62) =~= "\", shim_err_string(e)))?"@);
    text::lemma_fill_run(s, b, 38, "\", shim_err_string(e)))?"@);
    reveal_strlit(": {}\", shim_err_string(e)))?");
    assert((
        ".map_err(|e| format!(\""@
            + (
                sql_name
                    + (
                        ": "@
                            + (
                                seq!['{']
                                    + (
                                        seq!['}']
                                            + (
                                                "\", shim_err_string(e)))?"@
                                                    + text::fill_from(s, b, 62)
                                            )
                                    )
                            )
                    )
            )
    )
        =~= ".map_err(|e| format!(\""@ + sql_name + ": {}\", shim_err_string(e)))?"@);
}

proof fn lemma_holes_i_idx_sql_name(i: Seq<char>, idx: Seq<char>, sql_name: Seq<char>)
    ensures
        ({
            let b = seq![("i"@, i), ("idx"@, idx), ("sql_name"@, sql_name)];
            &&& text::lookup_from(b, "i"@, 0) == i
            &&& text::lookup_from(b, "idx"@, 0) == idx
            &&& text::lookup_from(b, "sql_name"@, 0) == sql_name
        }),
{
    reveal_strlit("i");
    reveal_strlit("idx");
    reveal_strlit("sql_name");
    reveal_with_fuel(text::lookup_from, 4);
    assert("i"@.len() != "idx"@.len());
    assert("i"@.len() != "sql_name"@.len());
    assert("idx"@.len() != "sql_name"@.len());
}

proof fn lemma_holes_i_idx_sql_name_arms_kebab_name_max(
    i: Seq<char>,
    idx: Seq<char>,
    sql_name: Seq<char>,
    arms: Seq<char>,
    kebab_name: Seq<char>,
    max: Seq<char>,
)
    ensures
        ({
            let b = seq![("i"@, i), ("idx"@, idx), ("sql_name"@, sql_name), ("arms"@, arms), ("kebab_name"@, kebab_name), ("max"@, max)];
            &&& text::lookup_from(b, "i"@, 0) == i
            &&& text::lookup_from(b, "idx"@, 0) == idx
            &&& text::lookup_from(b, "sql_name"@, 0) == sql_name
            &&& text::lookup_from(b, "arms"@, 0) == arms
            &&& text::lookup_from(b, "kebab_name"@, 0) == kebab_name
            &&& text::lookup_from(b, "max"@, 0) == max
        }),
{
    reveal_strlit("i");
    reveal_strlit("idx");
    reveal_strlit("sql_name");
    reveal_strlit("arms");
    reveal_strlit("kebab_name");
    reveal_strlit("max");
    reveal_with_fuel(text::lookup_from, 7);
    assert("i"@.len() != "idx"@.len());
    assert("i"@.len() != "sql_name"@.len());
    assert("i"@.len() != "arms"@.len());
    assert("i"@.len() != "kebab_name"@.len());
    assert("i"@.len() != "max"@.len());
    assert("idx"@.len() != "sql_name"@.len());
    assert("idx"@.len() != "arms"@.len());
    assert("idx"@.len() != "kebab_name"@.len());
    assert("idx"@[0] != "max"@[0]);
    assert("sql_name"@.len() != "arms"@.len());
    assert("sql_name"@.len() != "kebab_name"@.len());
    assert("sql_name"@.len() != "max"@.len());
    assert("arms"@.len() != "kebab_name"@.len());
    assert("arms"@.len() != "max"@.len());
    assert("kebab_name"@.len() != "max"@.len());
}

proof fn lemma_holes_i_idx_sql_name_snake(
    i: Seq<char>,
    idx: Seq<char>,
    sql_name: Seq<char>,
    snake: Seq<char>,
)
    ensures
        ({
            let b = seq![("i"@, i), ("idx"@, idx), ("sql_name"@, sql_name), ("snake"@, snake)];
            &&& text::lookup_from(b, "i"@, 0) == i
            &&& text::lookup_from(b, "idx"@, 0) == idx
            &&& text::lookup_from(b, "sql_name"@, 0) == sql_name
            &&& text::lookup_from(b, "snake"@, 0) == snake
        }),
{
    reveal_strlit("i");
    reveal_strlit("idx");
    reveal_strlit("sql_name");
    reveal_strlit("snake");
    reveal_with_fuel(text::lookup_from, 5);
    assert("i"@.len() != "idx"@.len());
    assert("i"@.len() != "sql_name"@.len());
    assert("i"@.len() != "snake"@.len());
    assert("idx"@.len() != "sql_name"@.len());
    assert("idx"@.len() != "snake"@.len());
    assert("sql_name"@.len() != "snake"@.len());
}

proof fn lemma_holes_i_idx_sql_name_suffix_rust_ty(
    i: Seq<char>,
    idx: Seq<char>,
    sql_name: Seq<char>,
    suffix: Seq<char>,
    rust_ty: Seq<char>,
)
    ensures
        ({
            let b = seq![("i"@, i), ("idx"@, idx), ("sql_name"@, sql_name), ("suffix"@, suffix), ("rust_ty"@, rust_ty)];
            &&& text::lookup_from(b, "i"@, 0) == i
            &&& text::lookup_from(b, "idx"@, 0) == idx
            &&& text::lookup_from(b, "sql_name"@, 0) == sql_name
            &&& text::lookup_from(b, "suffix"@, 0) == suffix
            &&& text::lookup_from(b, "rust_ty"@, 0) == rust_ty
        }),
{
    reveal_strlit("i");
    reveal_strlit("idx");
    reveal_strlit("sql_name");
    reveal_strlit("suffix");
    reveal_strlit("rust_ty");
    reveal_with_fuel(text::lookup_from, 6);
    assert("i"@.len() != "idx"@.len());
    assert("i"@.len() != "sql_name"@.len());
    assert("i"@.len() != "suffix"@.len());
    assert("i"@.len() != "rust_ty"@.len());
    assert("idx"@.len() != "sql_name"@.len());
    assert("idx"@.len() != "suffix"@.len());
    assert("idx"@.len() != "rust_ty"@.len());
    assert("sql_name"@.len() != "suffix"@.len());
    assert("sql_name"@.len() != "rust_ty"@.len());
    assert("suffix"@.len() != "rust_ty"@.len());
}

proof fn lemma_holes_i_idx_sql_name_suffix_rust_tuple(
    i: Seq<char>,
    idx: Seq<char>,
    sql_name: Seq<char>,
    suffix: Seq<char>,
    rust_tuple: Seq<char>,
)
    ensures
        ({
            let b = seq![("i"@, i), ("idx"@, idx), ("sql_name"@, sql_name), ("suffix"@, suffix), ("rust_tuple"@, rust_tuple)];
            &&& text::lookup_from(b, "i"@, 0) == i
            &&& text::lookup_from(b, "idx"@, 0) == idx
            &&& text::lookup_from(b, "sql_name"@, 0) == sql_name
            &&& text::lookup_from(b, "suffix"@, 0) == suffix
            &&& text::lookup_from(b, "rust_tuple"@, 0) == rust_tuple
        }),
{
    reveal_strlit("i");
    reveal_strlit("idx");
    reveal_strlit("sql_name");
    reveal_strlit("suffix");
    reveal_strlit("rust_tuple");
    reveal_with_fuel(text::lookup_from, 6);
    assert("i"@.len() != "idx"@.len());
    assert("i"@.len() != "sql_name"@.len());
    assert("i"@.len() != "suffix"@.len());
    assert("i"@.len() != "rust_tuple"@.len());
    assert("idx"@.len() != "sql_name"@.len());
    assert("idx"@.len() != "suffix"@.len());
    assert("idx"@.len() != "rust_tuple"@.len());
    assert("sql_name"@.len() != "suffix"@.len());
    assert("sql_name"@.len() != "rust_tuple"@.len());
    assert("suffix"@.len() != "rust_tuple"@.len());
}

proof fn lemma_holes_sql_name(sql_name: Seq<char>)
    ensures
        ({
            let b = seq![("sql_name"@, sql_name)];
            &&& text::lookup_from(b, "sql_name"@, 0) == sql_name
        }),
{
    reveal_strlit("sql_name");
    reveal_with_fuel(text::lookup_from, 2);

}

proof fn lemma_arg_text(i: Seq<char>, idx: Seq<char>, sql_name: Seq<char>)
    ensures
        words::has_piece(
            text::fill(t::ARG_TEXT@, seq![("i"@, i), ("idx"@, idx), ("sql_name"@, sql_name)]),
            "let arg"@ + idx + " = arg_text(&args, "@ + idx + ", \""@ + sql_name + "\")?;"@,
        ),
{
    let s = t::ARG_TEXT@;
    reveal_strlit("{i}let arg{idx} = arg_text(&args, {idx}, \"{sql_name}\")?;\n");
    reveal_with_fuel(text::plain_to, 31);
    let b = seq![("i"@, i), ("idx"@, idx), ("sql_name"@, sql_name)];
    lemma_holes_i_idx_sql_name(i, idx, sql_name);
    assert(words::has_piece(
        text::fill(t::ARG_TEXT@, b),
        "let arg"@ + idx + " = arg_text(&args, "@ + idx + ", \""@ + sql_name + "\")?;"@,
    )) by {
        let before = text::lemma_fill_reaches(s, b, 3);
        reveal_strlit("let arg");
        assert(s.subrange(3, 10) =~= "let arg"@);
        text::lemma_fill_run(s, b, 3, "let arg"@);
        reveal_strlit("idx");
        assert(s.subrange(11, 14) =~= "idx"@);
        text::lemma_fill_hole(s, b, 10, "idx"@);
        reveal_strlit(" = arg_text(&args, ");
        assert(s.subrange(15, 34) =~= " = arg_text(&args, "@);
        text::lemma_fill_run(s, b, 15, " = arg_text(&args, "@);
        assert(s.subrange(35, 38) =~= "idx"@);
        text::lemma_fill_hole(s, b, 34, "idx"@);
        reveal_strlit(", \"");
        assert(s.subrange(39, 42) =~= ", \""@);
        text::lemma_fill_run(s, b, 39, ", \""@);
        reveal_strlit("sql_name");
        assert(s.subrange(43, 51) =~= "sql_name"@);
        text::lemma_fill_hole(s, b, 42, "sql_name"@);
        reveal_strlit("\")?;");
        assert(s.subrange(52, 56) =~= "\")?;"@);
        text::lemma_fill_run(s, b, 52, "\")?;"@);
        let rest = text::fill_from(s, b, 56);
        let part = "let arg"@ + idx + " = arg_text(&args, "@ + idx + ", \""@ + sql_name + "\")?;"@;
        assert((
            "let arg"@
                + (
                    idx
                        + (
                            " = arg_text(&args, "@
                                + (idx + (", \""@ + (sql_name + ("\")?;"@ + rest))))
                        )
                )
        )
            =~= part + rest);
        words::lemma_piece_between(before, part, rest);
    }
}

proof fn lemma_arg_f64(i: Seq<char>, idx: Seq<char>, sql_name: Seq<char>)
    ensures
        words::has_piece(
            text::fill(t::ARG_F64@, seq![("i"@, i), ("idx"@, idx), ("sql_name"@, sql_name)]),
            "let arg"@ + idx + " = arg_f64(&args, "@ + idx + ", \""@ + sql_name + "\")?;"@,
        ),
{
    let s = t::ARG_F64@;
    reveal_strlit("{i}let arg{idx} = arg_f64(&args, {idx}, \"{sql_name}\")?;\n");
    reveal_with_fuel(text::plain_to, 31);
    let b = seq![("i"@, i), ("idx"@, idx), ("sql_name"@, sql_name)];
    lemma_holes_i_idx_sql_name(i, idx, sql_name);
    assert(words::has_piece(
        text::fill(t::ARG_F64@, b),
        "let arg"@ + idx + " = arg_f64(&args, "@ + idx + ", \""@ + sql_name + "\")?;"@,
    )) by {
        let before = text::lemma_fill_reaches(s, b, 3);
        reveal_strlit("let arg");
        assert(s.subrange(3, 10) =~= "let arg"@);
        text::lemma_fill_run(s, b, 3, "let arg"@);
        reveal_strlit("idx");
        assert(s.subrange(11, 14) =~= "idx"@);
        text::lemma_fill_hole(s, b, 10, "idx"@);
        reveal_strlit(" = arg_f64(&args, ");
        assert(s.subrange(15, 33) =~= " = arg_f64(&args, "@);
        text::lemma_fill_run(s, b, 15, " = arg_f64(&args, "@);
        assert(s.subrange(34, 37) =~= "idx"@);
        text::lemma_fill_hole(s, b, 33, "idx"@);
        reveal_strlit(", \"");
        assert(s.subrange(38, 41) =~= ", \""@);
        text::lemma_fill_run(s, b, 38, ", \""@);
        reveal_strlit("sql_name");
        assert(s.subrange(42, 50) =~= "sql_name"@);
        text::lemma_fill_hole(s, b, 41, "sql_name"@);
        reveal_strlit("\")?;");
        assert(s.subrange(51, 55) =~= "\")?;"@);
        text::lemma_fill_run(s, b, 51, "\")?;"@);
        let rest = text::fill_from(s, b, 55);
        let part = "let arg"@ + idx + " = arg_f64(&args, "@ + idx + ", \""@ + sql_name + "\")?;"@;
        assert((
            "let arg"@
                + (
                    idx
                        + (
                            " = arg_f64(&args, "@
                                + (idx + (", \""@ + (sql_name + ("\")?;"@ + rest))))
                        )
                )
        )
            =~= part + rest);
        words::lemma_piece_between(before, part, rest);
    }
}

proof fn lemma_arg_s32(i: Seq<char>, idx: Seq<char>, sql_name: Seq<char>)
    ensures
        words::has_piece(
            text::fill(t::ARG_S32@, seq![("i"@, i), ("idx"@, idx), ("sql_name"@, sql_name)]),
            "let arg"@ + idx + " = arg_i64(&args, "@ + idx + ", \""@ + sql_name + "\")? as i32;"@,
        ),
{
    let s = t::ARG_S32@;
    reveal_strlit("{i}let arg{idx} = arg_i64(&args, {idx}, \"{sql_name}\")? as i32;\n");
    reveal_with_fuel(text::plain_to, 31);
    let b = seq![("i"@, i), ("idx"@, idx), ("sql_name"@, sql_name)];
    lemma_holes_i_idx_sql_name(i, idx, sql_name);
    assert(words::has_piece(
        text::fill(t::ARG_S32@, b),
        "let arg"@ + idx + " = arg_i64(&args, "@ + idx + ", \""@ + sql_name + "\")? as i32;"@,
    )) by {
        let before = text::lemma_fill_reaches(s, b, 3);
        reveal_strlit("let arg");
        assert(s.subrange(3, 10) =~= "let arg"@);
        text::lemma_fill_run(s, b, 3, "let arg"@);
        reveal_strlit("idx");
        assert(s.subrange(11, 14) =~= "idx"@);
        text::lemma_fill_hole(s, b, 10, "idx"@);
        reveal_strlit(" = arg_i64(&args, ");
        assert(s.subrange(15, 33) =~= " = arg_i64(&args, "@);
        text::lemma_fill_run(s, b, 15, " = arg_i64(&args, "@);
        assert(s.subrange(34, 37) =~= "idx"@);
        text::lemma_fill_hole(s, b, 33, "idx"@);
        reveal_strlit(", \"");
        assert(s.subrange(38, 41) =~= ", \""@);
        text::lemma_fill_run(s, b, 38, ", \""@);
        reveal_strlit("sql_name");
        assert(s.subrange(42, 50) =~= "sql_name"@);
        text::lemma_fill_hole(s, b, 41, "sql_name"@);
        reveal_strlit("\")? as i32;");
        assert(s.subrange(51, 62) =~= "\")? as i32;"@);
        text::lemma_fill_run(s, b, 51, "\")? as i32;"@);
        let rest = text::fill_from(s, b, 62);
        let part = "let arg"@ + idx + " = arg_i64(&args, "@ + idx + ", \""@ + sql_name + "\")? as i32;"@;
        assert((
            "let arg"@
                + (
                    idx
                        + (
                            " = arg_i64(&args, "@
                                + (idx + (", \""@ + (sql_name + ("\")? as i32;"@ + rest))))
                        )
                )
        )
            =~= part + rest);
        words::lemma_piece_between(before, part, rest);
    }
}

proof fn lemma_arg_s64(i: Seq<char>, idx: Seq<char>, sql_name: Seq<char>)
    ensures
        words::has_piece(
            text::fill(t::ARG_S64@, seq![("i"@, i), ("idx"@, idx), ("sql_name"@, sql_name)]),
            "let arg"@ + idx + " = arg_i64(&args, "@ + idx + ", \""@ + sql_name + "\")?;"@,
        ),
{
    let s = t::ARG_S64@;
    reveal_strlit("{i}let arg{idx} = arg_i64(&args, {idx}, \"{sql_name}\")?;\n");
    reveal_with_fuel(text::plain_to, 31);
    let b = seq![("i"@, i), ("idx"@, idx), ("sql_name"@, sql_name)];
    lemma_holes_i_idx_sql_name(i, idx, sql_name);
    assert(words::has_piece(
        text::fill(t::ARG_S64@, b),
        "let arg"@ + idx + " = arg_i64(&args, "@ + idx + ", \""@ + sql_name + "\")?;"@,
    )) by {
        let before = text::lemma_fill_reaches(s, b, 3);
        reveal_strlit("let arg");
        assert(s.subrange(3, 10) =~= "let arg"@);
        text::lemma_fill_run(s, b, 3, "let arg"@);
        reveal_strlit("idx");
        assert(s.subrange(11, 14) =~= "idx"@);
        text::lemma_fill_hole(s, b, 10, "idx"@);
        reveal_strlit(" = arg_i64(&args, ");
        assert(s.subrange(15, 33) =~= " = arg_i64(&args, "@);
        text::lemma_fill_run(s, b, 15, " = arg_i64(&args, "@);
        assert(s.subrange(34, 37) =~= "idx"@);
        text::lemma_fill_hole(s, b, 33, "idx"@);
        reveal_strlit(", \"");
        assert(s.subrange(38, 41) =~= ", \""@);
        text::lemma_fill_run(s, b, 38, ", \""@);
        reveal_strlit("sql_name");
        assert(s.subrange(42, 50) =~= "sql_name"@);
        text::lemma_fill_hole(s, b, 41, "sql_name"@);
        reveal_strlit("\")?;");
        assert(s.subrange(51, 55) =~= "\")?;"@);
        text::lemma_fill_run(s, b, 51, "\")?;"@);
        let rest = text::fill_from(s, b, 55);
        let part = "let arg"@ + idx + " = arg_i64(&args, "@ + idx + ", \""@ + sql_name + "\")?;"@;
        assert((
            "let arg"@
                + (
                    idx
                        + (
                            " = arg_i64(&args, "@
                                + (idx + (", \""@ + (sql_name + ("\")?;"@ + rest))))
                        )
                )
        )
            =~= part + rest);
        words::lemma_piece_between(before, part, rest);
    }
}

proof fn lemma_arg_u32(i: Seq<char>, idx: Seq<char>, sql_name: Seq<char>)
    ensures
        words::has_piece(
            text::fill(t::ARG_U32@, seq![("i"@, i), ("idx"@, idx), ("sql_name"@, sql_name)]),
            "let arg"@ + idx + " = arg_i64(&args, "@ + idx + ", \""@ + sql_name + "\")? as u32;"@,
        ),
{
    let s = t::ARG_U32@;
    reveal_strlit("{i}let arg{idx} = arg_i64(&args, {idx}, \"{sql_name}\")? as u32;\n");
    reveal_with_fuel(text::plain_to, 31);
    let b = seq![("i"@, i), ("idx"@, idx), ("sql_name"@, sql_name)];
    lemma_holes_i_idx_sql_name(i, idx, sql_name);
    assert(words::has_piece(
        text::fill(t::ARG_U32@, b),
        "let arg"@ + idx + " = arg_i64(&args, "@ + idx + ", \""@ + sql_name + "\")? as u32;"@,
    )) by {
        let before = text::lemma_fill_reaches(s, b, 3);
        reveal_strlit("let arg");
        assert(s.subrange(3, 10) =~= "let arg"@);
        text::lemma_fill_run(s, b, 3, "let arg"@);
        reveal_strlit("idx");
        assert(s.subrange(11, 14) =~= "idx"@);
        text::lemma_fill_hole(s, b, 10, "idx"@);
        reveal_strlit(" = arg_i64(&args, ");
        assert(s.subrange(15, 33) =~= " = arg_i64(&args, "@);
        text::lemma_fill_run(s, b, 15, " = arg_i64(&args, "@);
        assert(s.subrange(34, 37) =~= "idx"@);
        text::lemma_fill_hole(s, b, 33, "idx"@);
        reveal_strlit(", \"");
        assert(s.subrange(38, 41) =~= ", \""@);
        text::lemma_fill_run(s, b, 38, ", \""@);
        reveal_strlit("sql_name");
        assert(s.subrange(42, 50) =~= "sql_name"@);
        text::lemma_fill_hole(s, b, 41, "sql_name"@);
        reveal_strlit("\")? as u32;");
        assert(s.subrange(51, 62) =~= "\")? as u32;"@);
        text::lemma_fill_run(s, b, 51, "\")? as u32;"@);
        let rest = text::fill_from(s, b, 62);
        let part = "let arg"@ + idx + " = arg_i64(&args, "@ + idx + ", \""@ + sql_name + "\")? as u32;"@;
        assert((
            "let arg"@
                + (
                    idx
                        + (
                            " = arg_i64(&args, "@
                                + (idx + (", \""@ + (sql_name + ("\")? as u32;"@ + rest))))
                        )
                )
        )
            =~= part + rest);
        words::lemma_piece_between(before, part, rest);
    }
}

proof fn lemma_arg_u64(i: Seq<char>, idx: Seq<char>, sql_name: Seq<char>)
    ensures
        words::has_piece(
            text::fill(t::ARG_U64@, seq![("i"@, i), ("idx"@, idx), ("sql_name"@, sql_name)]),
            "let arg"@ + idx + " = arg_i64(&args, "@ + idx + ", \""@ + sql_name + "\")? as u64;"@,
        ),
{
    let s = t::ARG_U64@;
    reveal_strlit("{i}let arg{idx} = arg_i64(&args, {idx}, \"{sql_name}\")? as u64;\n");
    reveal_with_fuel(text::plain_to, 31);
    let b = seq![("i"@, i), ("idx"@, idx), ("sql_name"@, sql_name)];
    lemma_holes_i_idx_sql_name(i, idx, sql_name);
    assert(words::has_piece(
        text::fill(t::ARG_U64@, b),
        "let arg"@ + idx + " = arg_i64(&args, "@ + idx + ", \""@ + sql_name + "\")? as u64;"@,
    )) by {
        let before = text::lemma_fill_reaches(s, b, 3);
        reveal_strlit("let arg");
        assert(s.subrange(3, 10) =~= "let arg"@);
        text::lemma_fill_run(s, b, 3, "let arg"@);
        reveal_strlit("idx");
        assert(s.subrange(11, 14) =~= "idx"@);
        text::lemma_fill_hole(s, b, 10, "idx"@);
        reveal_strlit(" = arg_i64(&args, ");
        assert(s.subrange(15, 33) =~= " = arg_i64(&args, "@);
        text::lemma_fill_run(s, b, 15, " = arg_i64(&args, "@);
        assert(s.subrange(34, 37) =~= "idx"@);
        text::lemma_fill_hole(s, b, 33, "idx"@);
        reveal_strlit(", \"");
        assert(s.subrange(38, 41) =~= ", \""@);
        text::lemma_fill_run(s, b, 38, ", \""@);
        reveal_strlit("sql_name");
        assert(s.subrange(42, 50) =~= "sql_name"@);
        text::lemma_fill_hole(s, b, 41, "sql_name"@);
        reveal_strlit("\")? as u64;");
        assert(s.subrange(51, 62) =~= "\")? as u64;"@);
        text::lemma_fill_run(s, b, 51, "\")? as u64;"@);
        let rest = text::fill_from(s, b, 62);
        let part = "let arg"@ + idx + " = arg_i64(&args, "@ + idx + ", \""@ + sql_name + "\")? as u64;"@;
        assert((
            "let arg"@
                + (
                    idx
                        + (
                            " = arg_i64(&args, "@
                                + (idx + (", \""@ + (sql_name + ("\")? as u64;"@ + rest))))
                        )
                )
        )
            =~= part + rest);
        words::lemma_piece_between(before, part, rest);
    }
}

proof fn lemma_arg_bool(i: Seq<char>, idx: Seq<char>, sql_name: Seq<char>)
    ensures
        words::has_piece(
            text::fill(t::ARG_BOOL@, seq![("i"@, i), ("idx"@, idx), ("sql_name"@, sql_name)]),
            "let arg"@ + idx + " = arg_i64(&args, "@ + idx + ", \""@ + sql_name + "\")? != 0;"@,
        ),
{
    let s = t::ARG_BOOL@;
    reveal_strlit("{i}let arg{idx} = arg_i64(&args, {idx}, \"{sql_name}\")? != 0;\n");
    reveal_with_fuel(text::plain_to, 31);
    let b = seq![("i"@, i), ("idx"@, idx), ("sql_name"@, sql_name)];
    lemma_holes_i_idx_sql_name(i, idx, sql_name);
    assert(words::has_piece(
        text::fill(t::ARG_BOOL@, b),
        "let arg"@ + idx + " = arg_i64(&args, "@ + idx + ", \""@ + sql_name + "\")? != 0;"@,
    )) by {
        let before = text::lemma_fill_reaches(s, b, 3);
        reveal_strlit("let arg");
        assert(s.subrange(3, 10) =~= "let arg"@);
        text::lemma_fill_run(s, b, 3, "let arg"@);
        reveal_strlit("idx");
        assert(s.subrange(11, 14) =~= "idx"@);
        text::lemma_fill_hole(s, b, 10, "idx"@);
        reveal_strlit(" = arg_i64(&args, ");
        assert(s.subrange(15, 33) =~= " = arg_i64(&args, "@);
        text::lemma_fill_run(s, b, 15, " = arg_i64(&args, "@);
        assert(s.subrange(34, 37) =~= "idx"@);
        text::lemma_fill_hole(s, b, 33, "idx"@);
        reveal_strlit(", \"");
        assert(s.subrange(38, 41) =~= ", \""@);
        text::lemma_fill_run(s, b, 38, ", \""@);
        reveal_strlit("sql_name");
        assert(s.subrange(42, 50) =~= "sql_name"@);
        text::lemma_fill_hole(s, b, 41, "sql_name"@);
        reveal_strlit("\")? != 0;");
        assert(s.subrange(51, 60) =~= "\")? != 0;"@);
        text::lemma_fill_run(s, b, 51, "\")? != 0;"@);
        let rest = text::fill_from(s, b, 60);
        let part = "let arg"@ + idx + " = arg_i64(&args, "@ + idx + ", \""@ + sql_name + "\")? != 0;"@;
        assert((
            "let arg"@
                + (
                    idx
                        + (
                            " = arg_i64(&args, "@
                                + (idx + (", \""@ + (sql_name + ("\")? != 0;"@ + rest))))
                        )
                )
        )
            =~= part + rest);
        words::lemma_piece_between(before, part, rest);
    }
}

proof fn lemma_arg_blob(i: Seq<char>, idx: Seq<char>, sql_name: Seq<char>)
    ensures
        words::has_piece(
            text::fill(t::ARG_BLOB@, seq![("i"@, i), ("idx"@, idx), ("sql_name"@, sql_name)]),
            "let arg"@ + idx + " = arg_blob(&args, "@ + idx + ", \""@ + sql_name + "\")?;"@,
        ),
{
    let s = t::ARG_BLOB@;
    reveal_strlit("{i}let arg{idx} = arg_blob(&args, {idx}, \"{sql_name}\")?;\n");
    reveal_with_fuel(text::plain_to, 31);
    let b = seq![("i"@, i), ("idx"@, idx), ("sql_name"@, sql_name)];
    lemma_holes_i_idx_sql_name(i, idx, sql_name);
    assert(words::has_piece(
        text::fill(t::ARG_BLOB@, b),
        "let arg"@ + idx + " = arg_blob(&args, "@ + idx + ", \""@ + sql_name + "\")?;"@,
    )) by {
        let before = text::lemma_fill_reaches(s, b, 3);
        reveal_strlit("let arg");
        assert(s.subrange(3, 10) =~= "let arg"@);
        text::lemma_fill_run(s, b, 3, "let arg"@);
        reveal_strlit("idx");
        assert(s.subrange(11, 14) =~= "idx"@);
        text::lemma_fill_hole(s, b, 10, "idx"@);
        reveal_strlit(" = arg_blob(&args, ");
        assert(s.subrange(15, 34) =~= " = arg_blob(&args, "@);
        text::lemma_fill_run(s, b, 15, " = arg_blob(&args, "@);
        assert(s.subrange(35, 38) =~= "idx"@);
        text::lemma_fill_hole(s, b, 34, "idx"@);
        reveal_strlit(", \"");
        assert(s.subrange(39, 42) =~= ", \""@);
        text::lemma_fill_run(s, b, 39, ", \""@);
        reveal_strlit("sql_name");
        assert(s.subrange(43, 51) =~= "sql_name"@);
        text::lemma_fill_hole(s, b, 42, "sql_name"@);
        reveal_strlit("\")?;");
        assert(s.subrange(52, 56) =~= "\")?;"@);
        text::lemma_fill_run(s, b, 52, "\")?;"@);
        let rest = text::fill_from(s, b, 56);
        let part = "let arg"@ + idx + " = arg_blob(&args, "@ + idx + ", \""@ + sql_name + "\")?;"@;
        assert((
            "let arg"@
                + (
                    idx
                        + (
                            " = arg_blob(&args, "@
                                + (idx + (", \""@ + (sql_name + ("\")?;"@ + rest))))
                        )
                )
        )
            =~= part + rest);
        words::lemma_piece_between(before, part, rest);
    }
}

proof fn lemma_arg_geom(i: Seq<char>, idx: Seq<char>, sql_name: Seq<char>)
    ensures
        words::has_piece(
            text::fill(t::ARG_GEOM@, seq![("i"@, i), ("idx"@, idx), ("sql_name"@, sql_name)]),
            "let arg"@ + idx + " = from_wkb(arg_blob(&args, "@ + idx + ", \""@ + sql_name
                + "\")?, \""@ + sql_name + "\")?;"@,
        ),
{
    let s = t::ARG_GEOM@;
    reveal_strlit("{i}let arg{idx} = from_wkb(arg_blob(&args, {idx}, \"{sql_name}\")?, \"{sql_name}\")?;\n");
    reveal_with_fuel(text::plain_to, 31);
    let b = seq![("i"@, i), ("idx"@, idx), ("sql_name"@, sql_name)];
    lemma_holes_i_idx_sql_name(i, idx, sql_name);
    assert(words::has_piece(
        text::fill(t::ARG_GEOM@, b),
        "let arg"@ + idx + " = from_wkb(arg_blob(&args, "@ + idx + ", \""@ + sql_name + "\")?, \""@
            + sql_name + "\")?;"@,
    )) by {
        let before = text::lemma_fill_reaches(s, b, 3);
        reveal_strlit("let arg");
        assert(s.subrange(3, 10) =~= "let arg"@);
        text::lemma_fill_run(s, b, 3, "let arg"@);
        reveal_strlit("idx");
        assert(s.subrange(11, 14) =~= "idx"@);
        text::lemma_fill_hole(s, b, 10, "idx"@);
        reveal_strlit(" = from_wkb(arg_blob(&args, ");
        assert(s.subrange(15, 43) =~= " = from_wkb(arg_blob(&args, "@);
        text::lemma_fill_run(s, b, 15, " = from_wkb(arg_blob(&args, "@);
        assert(s.subrange(44, 47) =~= "idx"@);
        text::lemma_fill_hole(s, b, 43, "idx"@);
        reveal_strlit(", \"");
        assert(s.subrange(48, 51) =~= ", \""@);
        text::lemma_fill_run(s, b, 48, ", \""@);
        reveal_strlit("sql_name");
        assert(s.subrange(52, 60) =~= "sql_name"@);
        text::lemma_fill_hole(s, b, 51, "sql_name"@);
        reveal_strlit("\")?, \"");
        assert(s.subrange(61, 67) =~= "\")?, \""@);
        text::lemma_fill_run(s, b, 61, "\")?, \""@);
        assert(s.subrange(68, 76) =~= "sql_name"@);
        text::lemma_fill_hole(s, b, 67, "sql_name"@);
        reveal_strlit("\")?;");
        assert(s.subrange(77, 81) =~= "\")?;"@);
        text::lemma_fill_run(s, b, 77, "\")?;"@);
        let rest = text::fill_from(s, b, 81);
        let part = "let arg"@ + idx + " = from_wkb(arg_blob(&args, "@ + idx + ", \""@ + sql_name + "\")?, \""@
            + sql_name + "\")?;"@;
        assert((
            "let arg"@
                + (
                    idx
                        + (
                            " = from_wkb(arg_blob(&args, "@
                                + (
                                    idx
                                        + (
                                            ", \""@
                                                + (
                                                    sql_name
                                                        + (
                                                            "\")?, \""@
                                                                + (sql_name + ("\")?;"@ + rest))
                                                        )
                                                )
                                        )
                                )
                        )
                )
        )
            =~= part + rest);
        words::lemma_piece_between(before, part, rest);
    }
}

proof fn lemma_arg_geog(i: Seq<char>, idx: Seq<char>, sql_name: Seq<char>)
    ensures
        words::has_piece(
            text::fill(t::ARG_GEOG@, seq![("i"@, i), ("idx"@, idx), ("sql_name"@, sql_name)]),
            "let arg"@ + idx + " = geog_from_wkb(arg_blob(&args, "@ + idx + ", \""@ + sql_name
                + "\")?, \""@ + sql_name + "\")?;"@,
        ),
{
    let s = t::ARG_GEOG@;
    reveal_strlit("{i}let arg{idx} = geog_from_wkb(arg_blob(&args, {idx}, \"{sql_name}\")?, \"{sql_name}\")?;\n");
    reveal_with_fuel(text::plain_to, 31);
    let b = seq![("i"@, i), ("idx"@, idx), ("sql_name"@, sql_name)];
    lemma_holes_i_idx_sql_name(i, idx, sql_name);
    assert(words::has_piece(
        text::fill(t::ARG_GEOG@, b),
        "let arg"@ + idx + " = geog_from_wkb(arg_blob(&args, "@ + idx + ", \""@ + sql_name
            + "\")?, \""@ + sql_name + "\")?;"@,
    )) by {
        let before = text::lemma_fill_reaches(s, b, 3);
        reveal_strlit("let arg");
        assert(s.subrange(3, 10) =~= "let arg"@);
        text::lemma_fill_run(s, b, 3, "let arg"@);
        reveal_strlit("idx");
        assert(s.subrange(11, 14) =~= "idx"@);
        text::lemma_fill_hole(s, b, 10, "idx"@);
        reveal_strlit(" = geog_from_wkb(arg_blob(&arg");
        assert(s.subrange(15, 45) =~= " = geog_from_wkb(arg_blob(&arg"@);
        text::lemma_fill_run(s, b, 15, " = geog_from_wkb(arg_blob(&arg"@);
        reveal_strlit("s, ");
        assert(s.subrange(45, 48) =~= "s, "@);
        text::lemma_fill_run(s, b, 45, "s, "@);
        assert(s.subrange(49, 52) =~= "idx"@);
        text::lemma_fill_hole(s, b, 48, "idx"@);
        reveal_strlit(", \"");
        assert(s.subrange(53, 56) =~= ", \""@);
        text::lemma_fill_run(s, b, 53, ", \""@);
        reveal_strlit("sql_name");
        assert(s.subrange(57, 65) =~= "sql_name"@);
        text::lemma_fill_hole(s, b, 56, "sql_name"@);
        reveal_strlit("\")?, \"");
        assert(s.subrange(66, 72) =~= "\")?, \""@);
        text::lemma_fill_run(s, b, 66, "\")?, \""@);
        assert(s.subrange(73, 81) =~= "sql_name"@);
        text::lemma_fill_hole(s, b, 72, "sql_name"@);
        reveal_strlit("\")?;");
        assert(s.subrange(82, 86) =~= "\")?;"@);
        text::lemma_fill_run(s, b, 82, "\")?;"@);
        let rest = text::fill_from(s, b, 86);
        let part = "let arg"@ + idx + " = geog_from_wkb(arg_blob(&args, "@ + idx + ", \""@ + sql_name
            + "\")?, \""@ + sql_name + "\")?;"@;
        reveal_strlit(" = geog_from_wkb(arg_blob(&args, ");
        assert((
            "let arg"@
                + (
                    idx
                        + (
                            " = geog_from_wkb(arg_blob(&arg"@
                                + (
                                    "s, "@
                                        + (
                                            idx
                                                + (
                                                    ", \""@
                                                        + (
                                                            sql_name
                                                                + (
                                                                    "\")?, \""@
                                                                        + (
                                                                            sql_name
                                                                                + ("\")?;"@ + rest)
                                                                        )
                                                                )
                                                        )
                                                )
                                        )
                                )
                        )
                )
        )
            =~= part + rest);
        words::lemma_piece_between(before, part, rest);
    }
}

proof fn lemma_arg_raster(i: Seq<char>, idx: Seq<char>, sql_name: Seq<char>)
    ensures
        words::has_piece(
            text::fill(t::ARG_RASTER@, seq![("i"@, i), ("idx"@, idx), ("sql_name"@, sql_name)]),
            "let arg"@ + idx + " = from_raster_binary(arg_blob(&args, "@ + idx + ", \""@ + sql_name
                + "\")?, \""@ + sql_name + "\")?;"@,
        ),
{
    let s = t::ARG_RASTER@;
    reveal_strlit("{i}let arg{idx} = from_raster_binary(arg_blob(&args, {idx}, \"{sql_name}\")?, \"{sql_name}\")?;\n");
    reveal_with_fuel(text::plain_to, 31);
    let b = seq![("i"@, i), ("idx"@, idx), ("sql_name"@, sql_name)];
    lemma_holes_i_idx_sql_name(i, idx, sql_name);
    assert(words::has_piece(
        text::fill(t::ARG_RASTER@, b),
        "let arg"@ + idx + " = from_raster_binary(arg_blob(&args, "@ + idx + ", \""@ + sql_name
            + "\")?, \""@ + sql_name + "\")?;"@,
    )) by {
        let before = text::lemma_fill_reaches(s, b, 3);
        reveal_strlit("let arg");
        assert(s.subrange(3, 10) =~= "let arg"@);
        text::lemma_fill_run(s, b, 3, "let arg"@);
        reveal_strlit("idx");
        assert(s.subrange(11, 14) =~= "idx"@);
        text::lemma_fill_hole(s, b, 10, "idx"@);
        reveal_strlit(" = from_raster_binary(arg_blob");
        assert(s.subrange(15, 45) =~= " = from_raster_binary(arg_blob"@);
        text::lemma_fill_run(s, b, 15, " = from_raster_binary(arg_blob"@);
        reveal_strlit("(&args, ");
        assert(s.subrange(45, 53) =~= "(&args, "@);
        text::lemma_fill_run(s, b, 45, "(&args, "@);
        assert(s.subrange(54, 57) =~= "idx"@);
        text::lemma_fill_hole(s, b, 53, "idx"@);
        reveal_strlit(", \"");
        assert(s.subrange(58, 61) =~= ", \""@);
        text::lemma_fill_run(s, b, 58, ", \""@);
        reveal_strlit("sql_name");
        assert(s.subrange(62, 70) =~= "sql_name"@);
        text::lemma_fill_hole(s, b, 61, "sql_name"@);
        reveal_strlit("\")?, \"");
        assert(s.subrange(71, 77) =~= "\")?, \""@);
        text::lemma_fill_run(s, b, 71, "\")?, \""@);
        assert(s.subrange(78, 86) =~= "sql_name"@);
        text::lemma_fill_hole(s, b, 77, "sql_name"@);
        reveal_strlit("\")?;");
        assert(s.subrange(87, 91) =~= "\")?;"@);
        text::lemma_fill_run(s, b, 87, "\")?;"@);
        let rest = text::fill_from(s, b, 91);
        let part = "let arg"@ + idx + " = from_raster_binary(arg_blob(&args, "@ + idx + ", \""@ + sql_name
            + "\")?, \""@ + sql_name + "\")?;"@;
        reveal_strlit(" = from_raster_binary(arg_blob(&args, ");
        assert((
            "let arg"@
                + (
                    idx
                        + (
                            " = from_raster_binary(arg_blob"@
                                + (
                                    "(&args, "@
                                        + (
                                            idx
                                                + (
                                                    ", \""@
                                                        + (
                                                            sql_name
                                                                + (
                                                                    "\")?, \""@
                                                                        + (
                                                                            sql_name
                                                                                + ("\")?;"@ + rest)
                                                                        )
                                                                )
                                                        )
                                                )
                                        )
                                )
                        )
                )
        )
            =~= part + rest);
        words::lemma_piece_between(before, part, rest);
    }
}

proof fn lemma_arg_topology(i: Seq<char>, idx: Seq<char>, sql_name: Seq<char>)
    ensures
        words::has_piece(
            text::fill(t::ARG_TOPOLOGY@, seq![("i"@, i), ("idx"@, idx), ("sql_name"@, sql_name)]),
            "let arg"@ + idx + " = from_topology_bytes(arg_blob(&args, "@ + idx + ", \""@
                + sql_name + "\")?, \""@ + sql_name + "\")?;"@,
        ),
{
    let s = t::ARG_TOPOLOGY@;
    reveal_strlit("{i}let arg{idx} = from_topology_bytes(arg_blob(&args, {idx}, \"{sql_name}\")?, \"{sql_name}\")?;\n");
    reveal_with_fuel(text::plain_to, 31);
    let b = seq![("i"@, i), ("idx"@, idx), ("sql_name"@, sql_name)];
    lemma_holes_i_idx_sql_name(i, idx, sql_name);
    assert(words::has_piece(
        text::fill(t::ARG_TOPOLOGY@, b),
        "let arg"@ + idx + " = from_topology_bytes(arg_blob(&args, "@ + idx + ", \""@ + sql_name
            + "\")?, \""@ + sql_name + "\")?;"@,
    )) by {
        let before = text::lemma_fill_reaches(s, b, 3);
        reveal_strlit("let arg");
        assert(s.subrange(3, 10) =~= "let arg"@);
        text::lemma_fill_run(s, b, 3, "let arg"@);
        reveal_strlit("idx");
        assert(s.subrange(11, 14) =~= "idx"@);
        text::lemma_fill_hole(s, b, 10, "idx"@);
        reveal_strlit(" = from_topology_bytes(arg_blo");
        assert(s.subrange(15, 45) =~= " = from_topology_bytes(arg_blo"@);
        text::lemma_fill_run(s, b, 15, " = from_topology_bytes(arg_blo"@);
        reveal_strlit("b(&args, ");
        assert(s.subrange(45, 54) =~= "b(&args, "@);
        text::lemma_fill_run(s, b, 45, "b(&args, "@);
        assert(s.subrange(55, 58) =~= "idx"@);
        text::lemma_fill_hole(s, b, 54, "idx"@);
        reveal_strlit(", \"");
        assert(s.subrange(59, 62) =~= ", \""@);
        text::lemma_fill_run(s, b, 59, ", \""@);
        reveal_strlit("sql_name");
        assert(s.subrange(63, 71) =~= "sql_name"@);
        text::lemma_fill_hole(s, b, 62, "sql_name"@);
        reveal_strlit("\")?, \"");
        assert(s.subrange(72, 78) =~= "\")?, \""@);
        text::lemma_fill_run(s, b, 72, "\")?, \""@);
        assert(s.subrange(79, 87) =~= "sql_name"@);
        text::lemma_fill_hole(s, b, 78, "sql_name"@);
        reveal_strlit("\")?;");
        assert(s.subrange(88, 92) =~= "\")?;"@);
        text::lemma_fill_run(s, b, 88, "\")?;"@);
        let rest = text::fill_from(s, b, 92);
        let part = "let arg"@ + idx + " = from_topology_bytes(arg_blob(&args, "@ + idx + ", \""@ + sql_name
            + "\")?, \""@ + sql_name + "\")?;"@;
        reveal_strlit(" = from_topology_bytes(arg_blob(&args, ");
        assert((
            "let arg"@
                + (
                    idx
                        + (
                            " = from_topology_bytes(arg_blo"@
                                + (
                                    "b(&args, "@
                                        + (
                                            idx
                                                + (
                                                    ", \""@
                                                        + (
                                                            sql_name
                                                                + (
                                                                    "\")?, \""@
                                                                        + (
                                                                            sql_name
                                                                                + ("\")?;"@ + rest)
                                                                        )
                                                                )
                                                        )
                                                )
                                        )
                                )
                        )
                )
        )
            =~= part + rest);
        words::lemma_piece_between(before, part, rest);
    }
}

proof fn lemma_arg_list_geom_rest(i: Seq<char>, idx: Seq<char>, sql_name: Seq<char>)
    ensures
        words::has_piece(
            text::fill(
                t::ARG_LIST_GEOM_REST@,
                seq![("i"@, i), ("idx"@, idx), ("sql_name"@, sql_name)],
            ),
            "let arg"@ + idx + "_owned: Vec<Geometry> = args["@ + idx + "..]"@,
        ),
        words::has_piece(
            text::fill(
                t::ARG_LIST_GEOM_REST@,
                seq![("i"@, i), ("idx"@, idx), ("sql_name"@, sql_name)],
            ),
            "let arg"@ + idx + ": Vec<&Geometry> = arg"@ + idx + "_owned.iter().collect();"@,
        ),
{
    let s = t::ARG_LIST_GEOM_REST@;
    reveal_strlit(r#"{i}let arg{idx}_owned: Vec<Geometry> = args[{idx}..]
{i}    .iter()
{i}    .enumerate()
{i}    .map(|(j, v)| match v {{
{i}        SqlValue::Blob(b) => Geometry::from_wkb(b.as_slice())
{i}            .map_err(|e| format!("{sql_name}: arg {{}}: {{}}", {idx} + j, postgis_err_string(e))),
{i}        SqlValue::Text(t) => Geometry::from_wkb(t.as_bytes())
{i}            .map_err(|e| format!("{sql_name}: arg {{}}: {{}}", {idx} + j, postgis_err_string(e))),
{i}        _ => Err(format!("{sql_name}: arg {{}} must be BLOB", {idx} + j)),
{i}    }})
{i}    .collect::<Result<Vec<_>, _>>()?;
{i}let arg{idx}: Vec<&Geometry> = arg{idx}_owned.iter().collect();
"#);
    reveal_with_fuel(text::plain_to, 31);
    let b = seq![("i"@, i), ("idx"@, idx), ("sql_name"@, sql_name)];
    lemma_holes_i_idx_sql_name(i, idx, sql_name);
    assert(words::has_piece(
        text::fill(t::ARG_LIST_GEOM_REST@, b),
        "let arg"@ + idx + "_owned: Vec<Geometry> = args["@ + idx + "..]"@,
    )) by {
        let before = text::lemma_fill_reaches(s, b, 3);
        reveal_strlit("let arg");
        assert(s.subrange(3, 10) =~= "let arg"@);
        text::lemma_fill_run(s, b, 3, "let arg"@);
        reveal_strlit("idx");
        assert(s.subrange(11, 14) =~= "idx"@);
        text::lemma_fill_hole(s, b, 10, "idx"@);
        reveal_strlit("_owned: Vec<Geometry> = args[");
        assert(s.subrange(15, 44) =~= "_owned: Vec<Geometry> = args["@);
        text::lemma_fill_run(s, b, 15, "_owned: Vec<Geometry> = args["@);
        assert(s.subrange(45, 48) =~= "idx"@);
        text::lemma_fill_hole(s, b, 44, "idx"@);
        reveal_strlit("..]");
        assert(s.subrange(49, 52) =~= "..]"@);
        text::lemma_fill_run(s, b, 49, "..]"@);
        let rest = text::fill_from(s, b, 52);
        let part = "let arg"@ + idx + "_owned: Vec<Geometry> = args["@ + idx + "..]"@;
        assert(("let arg"@ + (idx + ("_owned: Vec<Geometry> = args["@ + (idx + ("..]"@ + rest)))))
            =~= part + rest);
        words::lemma_piece_between(before, part, rest);
    }
    assert(words::has_piece(
        text::fill(t::ARG_LIST_GEOM_REST@, b),
        "let arg"@ + idx + ": Vec<&Geometry> = arg"@ + idx + "_owned.iter().collect();"@,
    )) by {
        let before = text::lemma_fill_reaches(s, b, 587);
        reveal_strlit("let arg");
        assert(s.subrange(587, 594) =~= "let arg"@);
        text::lemma_fill_run(s, b, 587, "let arg"@);
        reveal_strlit("idx");
        assert(s.subrange(595, 598) =~= "idx"@);
        text::lemma_fill_hole(s, b, 594, "idx"@);
        reveal_strlit(": Vec<&Geometry> = arg");
        assert(s.subrange(599, 621) =~= ": Vec<&Geometry> = arg"@);
        text::lemma_fill_run(s, b, 599, ": Vec<&Geometry> = arg"@);
        assert(s.subrange(622, 625) =~= "idx"@);
        text::lemma_fill_hole(s, b, 621, "idx"@);
        reveal_strlit("_owned.iter().collect();");
        assert(s.subrange(626, 650) =~= "_owned.iter().collect();"@);
        text::lemma_fill_run(s, b, 626, "_owned.iter().collect();"@);
        let rest = text::fill_from(s, b, 650);
        let part = "let arg"@ + idx + ": Vec<&Geometry> = arg"@ + idx + "_owned.iter().collect();"@;
        assert((
            "let arg"@
                + (idx + (": Vec<&Geometry> = arg"@ + (idx + ("_owned.iter().collect();"@ + rest))))
        )
            =~= part + rest);
        words::lemma_piece_between(before, part, rest);
    }
}

proof fn lemma_arg_list_geom_one(i: Seq<char>, idx: Seq<char>, sql_name: Seq<char>)
    ensures
        words::has_piece(
            text::fill(
                t::ARG_LIST_GEOM_ONE@,
                seq![("i"@, i), ("idx"@, idx), ("sql_name"@, sql_name)],
            ),
            "let arg"@ + idx + "_one = from_wkb(arg_blob(&args, "@ + idx + ", \""@ + sql_name
                + "\")?, \""@ + sql_name + "\")?;"@,
        ),
        words::has_piece(
            text::fill(
                t::ARG_LIST_GEOM_ONE@,
                seq![("i"@, i), ("idx"@, idx), ("sql_name"@, sql_name)],
            ),
            "let arg"@ + idx + "_owned: Vec<Geometry> = alloc::vec![arg"@ + idx + "_one];"@,
        ),
        words::has_piece(
            text::fill(
                t::ARG_LIST_GEOM_ONE@,
                seq![("i"@, i), ("idx"@, idx), ("sql_name"@, sql_name)],
            ),
            "let arg"@ + idx + ": Vec<&Geometry> = arg"@ + idx + "_owned.iter().collect();"@,
        ),
{
    let s = t::ARG_LIST_GEOM_ONE@;
    reveal_strlit(r#"{i}let arg{idx}_one = from_wkb(arg_blob(&args, {idx}, "{sql_name}")?, "{sql_name}")?;
{i}let arg{idx}_owned: Vec<Geometry> = alloc::vec![arg{idx}_one];
{i}let arg{idx}: Vec<&Geometry> = arg{idx}_owned.iter().collect();
"#);
    reveal_with_fuel(text::plain_to, 31);
    let b = seq![("i"@, i), ("idx"@, idx), ("sql_name"@, sql_name)];
    lemma_holes_i_idx_sql_name(i, idx, sql_name);
    assert(words::has_piece(
        text::fill(t::ARG_LIST_GEOM_ONE@, b),
        "let arg"@ + idx + "_one = from_wkb(arg_blob(&args, "@ + idx + ", \""@ + sql_name
            + "\")?, \""@ + sql_name + "\")?;"@,
    )) by {
        let before = text::lemma_fill_reaches(s, b, 3);
        reveal_strlit("let arg");
        assert(s.subrange(3, 10) =~= "let arg"@);
        text::lemma_fill_run(s, b, 3, "let arg"@);
        reveal_strlit("idx");
        assert(s.subrange(11, 14) =~= "idx"@);
        text::lemma_fill_hole(s, b, 10, "idx"@);
        reveal_strlit("_one = from_wkb(arg_blob(&args");
        assert(s.subrange(15, 45) =~= "_one = from_wkb(arg_blob(&args"@);
        text::lemma_fill_run(s, b, 15, "_one = from_wkb(arg_blob(&args"@);
        reveal_strlit(", ");
        assert(s.subrange(45, 47) =~= ", "@);
        text::lemma_fill_run(s, b, 45, ", "@);
        assert(s.subrange(48, 51) =~= "idx"@);
        text::lemma_fill_hole(s, b, 47, "idx"@);
        reveal_strlit(", \"");
        assert(s.subrange(52, 55) =~= ", \""@);
        text::lemma_fill_run(s, b, 52, ", \""@);
        reveal_strlit("sql_name");
        assert(s.subrange(56, 64) =~= "sql_name"@);
        text::lemma_fill_hole(s, b, 55, "sql_name"@);
        reveal_strlit("\")?, \"");
        assert(s.subrange(65, 71) =~= "\")?, \""@);
        text::lemma_fill_run(s, b, 65, "\")?, \""@);
        assert(s.subrange(72, 80) =~= "sql_name"@);
        text::lemma_fill_hole(s, b, 71, "sql_name"@);
        reveal_strlit("\")?;");
        assert(s.subrange(81, 85) =~= "\")?;"@);
        text::lemma_fill_run(s, b, 81, "\")?;"@);
        let rest = text::fill_from(s, b, 85);
        let part = "let arg"@ + idx + "_one = from_wkb(arg_blob(&args, "@ + idx + ", \""@ + sql_name
            + "\")?, \""@ + sql_name + "\")?;"@;
        reveal_strlit("_one = from_wkb(arg_blob(&args, ");
        assert((
            "let arg"@
                + (
                    idx
                        + (
                            "_one = from_wkb(arg_blob(&args"@
                                + (
                                    ", "@
                                        + (
                                            idx
                                                + (
                                                    ", \""@
                                                        + (
                                                            sql_name
                                                                + (
                                                                    "\")?, \""@
                                                                        + (
                                                                            sql_name
                                                                                + ("\")?;"@ + rest)
                                                                        )
                                                                )
                                                        )
                                                )
                                        )
                                )
                        )
                )
        )
            =~= part + rest);
        words::lemma_piece_between(before, part, rest);
    }
    assert(words::has_piece(
        text::fill(t::ARG_LIST_GEOM_ONE@, b),
        "let arg"@ + idx + "_owned: Vec<Geometry> = alloc::vec![arg"@ + idx + "_one];"@,
    )) by {
        let before = text::lemma_fill_reaches(s, b, 89);
        reveal_strlit("let arg");
        assert(s.subrange(89, 96) =~= "let arg"@);
        text::lemma_fill_run(s, b, 89, "let arg"@);
        reveal_strlit("idx");
        assert(s.subrange(97, 100) =~= "idx"@);
        text::lemma_fill_hole(s, b, 96, "idx"@);
        reveal_strlit("_owned: Vec<Geometry> = alloc:");
        assert(s.subrange(101, 131) =~= "_owned: Vec<Geometry> = alloc:"@);
        text::lemma_fill_run(s, b, 101, "_owned: Vec<Geometry> = alloc:"@);
        reveal_strlit(":vec![arg");
        assert(s.subrange(131, 140) =~= ":vec![arg"@);
        text::lemma_fill_run(s, b, 131, ":vec![arg"@);
        assert(s.subrange(141, 144) =~= "idx"@);
        text::lemma_fill_hole(s, b, 140, "idx"@);
        reveal_strlit("_one];");
        assert(s.subrange(145, 151) =~= "_one];"@);
        text::lemma_fill_run(s, b, 145, "_one];"@);
        let rest = text::fill_from(s, b, 151);
        let part = "let arg"@ + idx + "_owned: Vec<Geometry> = alloc::vec![arg"@ + idx + "_one];"@;
        reveal_strlit("_owned: Vec<Geometry> = alloc::vec![arg");
        assert((
            "let arg"@
                + (
                    idx
                        + (
                            "_owned: Vec<Geometry> = alloc:"@
                                + (":vec![arg"@ + (idx + ("_one];"@ + rest)))
                        )
                )
        )
            =~= part + rest);
        words::lemma_piece_between(before, part, rest);
    }
    assert(words::has_piece(
        text::fill(t::ARG_LIST_GEOM_ONE@, b),
        "let arg"@ + idx + ": Vec<&Geometry> = arg"@ + idx + "_owned.iter().collect();"@,
    )) by {
        let before = text::lemma_fill_reaches(s, b, 155);
        reveal_strlit("let arg");
        assert(s.subrange(155, 162) =~= "let arg"@);
        text::lemma_fill_run(s, b, 155, "let arg"@);
        reveal_strlit("idx");
        assert(s.subrange(163, 166) =~= "idx"@);
        text::lemma_fill_hole(s, b, 162, "idx"@);
        reveal_strlit(": Vec<&Geometry> = arg");
        assert(s.subrange(167, 189) =~= ": Vec<&Geometry> = arg"@);
        text::lemma_fill_run(s, b, 167, ": Vec<&Geometry> = arg"@);
        assert(s.subrange(190, 193) =~= "idx"@);
        text::lemma_fill_hole(s, b, 189, "idx"@);
        reveal_strlit("_owned.iter().collect();");
        assert(s.subrange(194, 218) =~= "_owned.iter().collect();"@);
        text::lemma_fill_run(s, b, 194, "_owned.iter().collect();"@);
        let rest = text::fill_from(s, b, 218);
        let part = "let arg"@ + idx + ": Vec<&Geometry> = arg"@ + idx + "_owned.iter().collect();"@;
        assert((
            "let arg"@
                + (idx + (": Vec<&Geometry> = arg"@ + (idx + ("_owned.iter().collect();"@ + rest))))
        )
            =~= part + rest);
        words::lemma_piece_between(before, part, rest);
    }
}

proof fn lemma_arg_enum(
    i: Seq<char>,
    idx: Seq<char>,
    sql_name: Seq<char>,
    arms: Seq<char>,
    kebab_name: Seq<char>,
    max: Seq<char>,
)
    ensures
        words::has_piece(
            text::fill(
                t::ARG_ENUM@,
                seq![("i"@, i), ("idx"@, idx), ("sql_name"@, sql_name), ("arms"@, arms), ("kebab_name"@, kebab_name), ("max"@, max)],
            ),
            "let arg"@ + idx + " = match arg_i64(&args, "@ + idx + ", \""@ + sql_name + "\")? "@,
        ),
        words::has_piece(
            text::fill(
                t::ARG_ENUM@,
                seq![("i"@, i), ("idx"@, idx), ("sql_name"@, sql_name), ("arms"@, arms), ("kebab_name"@, kebab_name), ("max"@, max)],
            ),
            arms,
        ),
        words::has_piece(
            text::fill(
                t::ARG_ENUM@,
                seq![("i"@, i), ("idx"@, idx), ("sql_name"@, sql_name), ("arms"@, arms), ("kebab_name"@, kebab_name), ("max"@, max)],
            ),
            "other => return Err(format!("@,
        ),
        words::has_piece(
            text::fill(
                t::ARG_ENUM@,
                seq![("i"@, i), ("idx"@, idx), ("sql_name"@, sql_name), ("arms"@, arms), ("kebab_name"@, kebab_name), ("max"@, max)],
            ),
            " (valid 0.."@ + max + ")\""@,
        ),
{
    let s = t::ARG_ENUM@;
    reveal_strlit(r#"{i}let arg{idx} = match arg_i64(&args, {idx}, "{sql_name}")? {{
{arms}{i}    other => return Err(format!(
{i}        "{sql_name}: arg {idx} ({kebab_name}) out of range: {{}} (valid 0..{max})",
{i}        other,
{i}    )),
{i}}};
"#);
    reveal_with_fuel(text::plain_to, 31);
    let b = seq![("i"@, i), ("idx"@, idx), ("sql_name"@, sql_name), ("arms"@, arms), ("kebab_name"@, kebab_name), ("max"@, max)];
    lemma_holes_i_idx_sql_name_arms_kebab_name_max(i, idx, sql_name, arms, kebab_name, max);
    assert(words::has_piece(
        text::fill(t::ARG_ENUM@, b),
        "let arg"@ + idx + " = match arg_i64(&args, "@ + idx + ", \""@ + sql_name + "\")? "@,
    )) by {
        let before = text::lemma_fill_reaches(s, b, 3);
        reveal_strlit("let arg");
        assert(s.subrange(3, 10) =~= "let arg"@);
        text::lemma_fill_run(s, b, 3, "let arg"@);
        reveal_strlit("idx");
        assert(s.subrange(11, 14) =~= "idx"@);
        text::lemma_fill_hole(s, b, 10, "idx"@);
        reveal_strlit(" = match arg_i64(&args, ");
        assert(s.subrange(15, 39) =~= " = match arg_i64(&args, "@);
        text::lemma_fill_run(s, b, 15, " = match arg_i64(&args, "@);
        assert(s.subrange(40, 43) =~= "idx"@);
        text::lemma_fill_hole(s, b, 39, "idx"@);
        reveal_strlit(", \"");
        assert(s.subrange(44, 47) =~= ", \""@);
        text::lemma_fill_run(s, b, 44, ", \""@);
        reveal_strlit("sql_name");
        assert(s.subrange(48, 56) =~= "sql_name"@);
        text::lemma_fill_hole(s, b, 47, "sql_name"@);
        reveal_strlit("\")? ");
        assert(s.subrange(57, 61) =~= "\")? "@);
        text::lemma_fill_run(s, b, 57, "\")? "@);
        let rest = text::fill_from(s, b, 61);
        let part = "let arg"@ + idx + " = match arg_i64(&args, "@ + idx + ", \""@ + sql_name + "\")? "@;
        assert((
            "let arg"@
                + (
                    idx
                        + (
                            " = match arg_i64(&args, "@
                                + (idx + (", \""@ + (sql_name + ("\")? "@ + rest))))
                        )
                )
        )
            =~= part + rest);
        words::lemma_piece_between(before, part, rest);
    }
    assert(words::has_piece(text::fill(t::ARG_ENUM@, b), arms)) by {
        let before = text::lemma_fill_reaches(s, b, 57);
        reveal_strlit("\")? ");
        assert(s.subrange(57, 61) =~= "\")? "@);
        text::lemma_fill_run(s, b, 57, "\")? "@);
        assert(text::fill_from(s, b, 61) == seq!['{'] + text::fill_from(s, b, 63));
        reveal_strlit("\n");
        assert(s.subrange(63, 64) =~= "\n"@);
        text::lemma_fill_run(s, b, 63, "\n"@);
        reveal_strlit("arms");
        assert(s.subrange(65, 69) =~= "arms"@);
        text::lemma_fill_hole(s, b, 64, "arms"@);
        let rest = text::fill_from(s, b, 70);
        let part = arms;
        assert(before + ("\")? "@ + (seq!['{'] + ("\n"@ + (part + rest))))
            =~= (before + "\")? "@ + seq!['{'] + "\n"@) + (part + rest));
        words::lemma_piece_between(before + "\")? "@ + seq!['{'] + "\n"@, part, rest);
    }
    assert(words::has_piece(text::fill(t::ARG_ENUM@, b), "other => return Err(format!("@)) by {
        let before = text::lemma_fill_reaches(s, b, 73);
        reveal_strlit("    ");
        assert(s.subrange(73, 77) =~= "    "@);
        text::lemma_fill_run(s, b, 73, "    "@);
        reveal_strlit("other => return Err(format!(");
        assert(s.subrange(77, 105) =~= "other => return Err(format!("@);
        text::lemma_fill_run(s, b, 77, "other => return Err(format!("@);
        let rest = text::fill_from(s, b, 105);
        let part = "other => return Err(format!("@;
        assert(before + ("    "@ + (part + rest)) =~= (before + "    "@) + (part + rest));
        words::lemma_piece_between(before + "    "@, part, rest);
    }
    assert(words::has_piece(text::fill(t::ARG_ENUM@, b), " (valid 0.."@ + max + ")\""@)) by {
        let before = text::lemma_fill_reaches(s, b, 173);
        reveal_strlit(" (valid 0..");
        assert(s.subrange(173, 184) =~= " (valid 0.."@);
        text::lemma_fill_run(s, b, 173, " (valid 0.."@);
        reveal_strlit("max");
        assert(s.subrange(185, 188) =~= "max"@);
        text::lemma_fill_hole(s, b, 184, "max"@);
        reveal_strlit(")\"");
        assert(s.subrange(189, 191) =~= ")\""@);
        text::lemma_fill_run(s, b, 189, ")\""@);
        let rest = text::fill_from(s, b, 191);
        let part = " (valid 0.."@ + max + ")\""@;
        assert((" (valid 0.."@ + (max + (")\""@ + rest))) =~= part + rest);
        words::lemma_piece_between(before, part, rest);
    }
}

proof fn lemma_arg_list_record(i: Seq<char>, idx: Seq<char>, sql_name: Seq<char>, snake: Seq<char>)
    ensures
        words::has_piece(
            text::fill(
                t::ARG_LIST_RECORD@,
                seq![("i"@, i), ("idx"@, idx), ("sql_name"@, sql_name), ("snake"@, snake)],
            ),
            "let arg"@ + idx + " = parse_json_list_record_"@ + snake + "(&args, "@ + idx + ", \""@
                + sql_name + "\")?;"@,
        ),
{
    let s = t::ARG_LIST_RECORD@;
    reveal_strlit("{i}let arg{idx} = parse_json_list_record_{snake}(&args, {idx}, \"{sql_name}\")?;\n");
    reveal_with_fuel(text::plain_to, 31);
    let b = seq![("i"@, i), ("idx"@, idx), ("sql_name"@, sql_name), ("snake"@, snake)];
    lemma_holes_i_idx_sql_name_snake(i, idx, sql_name, snake);
    assert(words::has_piece(
        text::fill(t::ARG_LIST_RECORD@, b),
        "let arg"@ + idx + " = parse_json_list_record_"@ + snake + "(&args, "@ + idx + ", \""@
            + sql_name + "\")?;"@,
    )) by {
        let before = text::lemma_fill_reaches(s, b, 3);
        reveal_strlit("let arg");
        assert(s.subrange(3, 10) =~= "let arg"@);
        text::lemma_fill_run(s, b, 3, "let arg"@);
        reveal_strlit("idx");
        assert(s.subrange(11, 14) =~= "idx"@);
        text::lemma_fill_hole(s, b, 10, "idx"@);
        reveal_strlit(" = parse_json_list_record_");
        assert(s.subrange(15, 41) =~= " = parse_json_list_record_"@);
        text::lemma_fill_run(s, b, 15, " = parse_json_list_record_"@);
        reveal_strlit("snake");
        assert(s.subrange(42, 47) =~= "snake"@);
        text::lemma_fill_hole(s, b, 41, "snake"@);
        reveal_strlit("(&args, ");
        assert(s.subrange(48, 56) =~= "(&args, "@);
        text::lemma_fill_run(s, b, 48, "(&args, "@);
        assert(s.subrange(57, 60) =~= "idx"@);
        text::lemma_fill_hole(s, b, 56, "idx"@);
        reveal_strlit(", \"");
        assert(s.subrange(61, 64) =~= ", \""@);
        text::lemma_fill_run(s, b, 61, ", \""@);
        reveal_strlit("sql_name");
        assert(s.subrange(65, 73) =~= "sql_name"@);
        text::lemma_fill_hole(s, b, 64, "sql_name"@);
        reveal_strlit("\")?;");
        assert(s.subrange(74, 78) =~= "\")?;"@);
        text::lemma_fill_run(s, b, 74, "\")?;"@);
        let rest = text::fill_from(s, b, 78);
        let part = "let arg"@ + idx + " = parse_json_list_record_"@ + snake + "(&args, "@ + idx + ", \""@
            + sql_name + "\")?;"@;
        assert((
            "let arg"@
                + (
                    idx
                        + (
                            " = parse_json_list_record_"@
                                + (
                                    snake
                                        + (
                                            "(&args, "@
                                                + (idx + (", \""@ + (sql_name + ("\")?;"@ + rest))))
                                        )
                                )
                        )
                )
        )
            =~= part + rest);
        words::lemma_piece_between(before, part, rest);
    }
}

proof fn lemma_arg_wit_value(i: Seq<char>, idx: Seq<char>, sql_name: Seq<char>, snake: Seq<char>)
    ensures
        words::has_piece(
            text::fill(
                t::ARG_WIT_VALUE@,
                seq![("i"@, i), ("idx"@, idx), ("sql_name"@, sql_name), ("snake"@, snake)],
            ),
            "let arg"@ + idx + " = arg_witvalue_"@ + snake + "(&args, "@ + idx + ", \""@ + sql_name
                + "\")?;"@,
        ),
{
    let s = t::ARG_WIT_VALUE@;
    reveal_strlit("{i}let arg{idx} = arg_witvalue_{snake}(&args, {idx}, \"{sql_name}\")?;\n");
    reveal_with_fuel(text::plain_to, 31);
    let b = seq![("i"@, i), ("idx"@, idx), ("sql_name"@, sql_name), ("snake"@, snake)];
    lemma_holes_i_idx_sql_name_snake(i, idx, sql_name, snake);
    assert(words::has_piece(
        text::fill(t::ARG_WIT_VALUE@, b),
        "let arg"@ + idx + " = arg_witvalue_"@ + snake + "(&args, "@ + idx + ", \""@ + sql_name
            + "\")?;"@,
    )) by {
        let before = text::lemma_fill_reaches(s, b, 3);
        reveal_strlit("let arg");
        assert(s.subrange(3, 10) =~= "let arg"@);
        text::lemma_fill_run(s, b, 3, "let arg"@);
        reveal_strlit("idx");
        assert(s.subrange(11, 14) =~= "idx"@);
        text::lemma_fill_hole(s, b, 10, "idx"@);
        reveal_strlit(" = arg_witvalue_");
        assert(s.subrange(15, 31) =~= " = arg_witvalue_"@);
        text::lemma_fill_run(s, b, 15, " = arg_witvalue_"@);
        reveal_strlit("snake");
        assert(s.subrange(32, 37) =~= "snake"@);
        text::lemma_fill_hole(s, b, 31, "snake"@);
        reveal_strlit("(&args, ");
        assert(s.subrange(38, 46) =~= "(&args, "@);
        text::lemma_fill_run(s, b, 38, "(&args, "@);
        assert(s.subrange(47, 50) =~= "idx"@);
        text::lemma_fill_hole(s, b, 46, "idx"@);
        reveal_strlit(", \"");
        assert(s.subrange(51, 54) =~= ", \""@);
        text::lemma_fill_run(s, b, 51, ", \""@);
        reveal_strlit("sql_name");
        assert(s.subrange(55, 63) =~= "sql_name"@);
        text::lemma_fill_hole(s, b, 54, "sql_name"@);
        reveal_strlit("\")?;");
        assert(s.subrange(64, 68) =~= "\")?;"@);
        text::lemma_fill_run(s, b, 64, "\")?;"@);
        let rest = text::fill_from(s, b, 68);
        let part = "let arg"@ + idx + " = arg_witvalue_"@ + snake + "(&args, "@ + idx + ", \""@ + sql_name
            + "\")?;"@;
        assert((
            "let arg"@
                + (
                    idx
                        + (
                            " = arg_witvalue_"@
                                + (
                                    snake
                                        + (
                                            "(&args, "@
                                                + (idx + (", \""@ + (sql_name + ("\")?;"@ + rest))))
                                        )
                                )
                        )
                )
        )
            =~= part + rest);
        words::lemma_piece_between(before, part, rest);
    }
}

proof fn lemma_arg_list_prim(
    i: Seq<char>,
    idx: Seq<char>,
    sql_name: Seq<char>,
    suffix: Seq<char>,
    rust_ty: Seq<char>,
)
    ensures
        words::has_piece(
            text::fill(
                t::ARG_LIST_PRIM@,
                seq![("i"@, i), ("idx"@, idx), ("sql_name"@, sql_name), ("suffix"@, suffix), ("rust_ty"@, rust_ty)],
            ),
            "let arg"@ + idx + ": Vec<"@ + rust_ty + "> = parse_json_list_"@ + suffix + "(&args, "@
                + idx + ", \""@ + sql_name + "\")?;"@,
        ),
{
    let s = t::ARG_LIST_PRIM@;
    reveal_strlit("{i}let arg{idx}: Vec<{rust_ty}> = parse_json_list_{suffix}(&args, {idx}, \"{sql_name}\")?;\n");
    reveal_with_fuel(text::plain_to, 31);
    let b = seq![("i"@, i), ("idx"@, idx), ("sql_name"@, sql_name), ("suffix"@, suffix), ("rust_ty"@, rust_ty)];
    lemma_holes_i_idx_sql_name_suffix_rust_ty(i, idx, sql_name, suffix, rust_ty);
    assert(words::has_piece(
        text::fill(t::ARG_LIST_PRIM@, b),
        "let arg"@ + idx + ": Vec<"@ + rust_ty + "> = parse_json_list_"@ + suffix + "(&args, "@
            + idx + ", \""@ + sql_name + "\")?;"@,
    )) by {
        let before = text::lemma_fill_reaches(s, b, 3);
        reveal_strlit("let arg");
        assert(s.subrange(3, 10) =~= "let arg"@);
        text::lemma_fill_run(s, b, 3, "let arg"@);
        reveal_strlit("idx");
        assert(s.subrange(11, 14) =~= "idx"@);
        text::lemma_fill_hole(s, b, 10, "idx"@);
        reveal_strlit(": Vec<");
        assert(s.subrange(15, 21) =~= ": Vec<"@);
        text::lemma_fill_run(s, b, 15, ": Vec<"@);
        reveal_strlit("rust_ty");
        assert(s.subrange(22, 29) =~= "rust_ty"@);
        text::lemma_fill_hole(s, b, 21, "rust_ty"@);
        reveal_strlit("> = parse_json_list_");
        assert(s.subrange(30, 50) =~= "> = parse_json_list_"@);
        text::lemma_fill_run(s, b, 30, "> = parse_json_list_"@);
        reveal_strlit("suffix");
        assert(s.subrange(51, 57) =~= "suffix"@);
        text::lemma_fill_hole(s, b, 50, "suffix"@);
        reveal_strlit("(&args, ");
        assert(s.subrange(58, 66) =~= "(&args, "@);
        text::lemma_fill_run(s, b, 58, "(&args, "@);
        assert(s.subrange(67, 70) =~= "idx"@);
        text::lemma_fill_hole(s, b, 66, "idx"@);
        reveal_strlit(", \"");
        assert(s.subrange(71, 74) =~= ", \""@);
        text::lemma_fill_run(s, b, 71, ", \""@);
        reveal_strlit("sql_name");
        assert(s.subrange(75, 83) =~= "sql_name"@);
        text::lemma_fill_hole(s, b, 74, "sql_name"@);
        reveal_strlit("\")?;");
        assert(s.subrange(84, 88) =~= "\")?;"@);
        text::lemma_fill_run(s, b, 84, "\")?;"@);
        let rest = text::fill_from(s, b, 88);
        let part = "let arg"@ + idx + ": Vec<"@ + rust_ty + "> = parse_json_list_"@ + suffix + "(&args, "@
            + idx + ", \""@ + sql_name + "\")?;"@;
        assert((
            "let arg"@
                + (
                    idx
                        + (
                            ": Vec<"@
                                + (
                                    rust_ty
                                        + (
                                            "> = parse_json_list_"@
                                                + (
                                                    suffix
                                                        + (
                                                            "(&args, "@
                                                                + (
                                                                    idx
                                                                        + (
                                                                            ", \""@
                                                                                + (
                                                                                    sql_name
                                                                                        + (
                                                                                            "\")?;"@
                                                                                                + rest
                                                                                        )
                                                                                )
                                                                        )
                                                                )
                                                        )
                                                )
                                        )
                                )
                        )
                )
        )
            =~= part + rest);
        words::lemma_piece_between(before, part, rest);
    }
}

proof fn lemma_arg_list_tuple(
    i: Seq<char>,
    idx: Seq<char>,
    sql_name: Seq<char>,
    suffix: Seq<char>,
    rust_tuple: Seq<char>,
)
    ensures
        words::has_piece(
            text::fill(
                t::ARG_LIST_TUPLE@,
                seq![("i"@, i), ("idx"@, idx), ("sql_name"@, sql_name), ("suffix"@, suffix), ("rust_tuple"@, rust_tuple)],
            ),
            "let arg"@ + idx + ": Vec<"@ + rust_tuple + "> = parse_json_list_tuple_"@ + suffix
                + "(&args, "@ + idx + ", \""@ + sql_name + "\")?;"@,
        ),
{
    let s = t::ARG_LIST_TUPLE@;
    reveal_strlit("{i}let arg{idx}: Vec<{rust_tuple}> = parse_json_list_tuple_{suffix}(&args, {idx}, \"{sql_name}\")?;\n");
    reveal_with_fuel(text::plain_to, 31);
    let b = seq![("i"@, i), ("idx"@, idx), ("sql_name"@, sql_name), ("suffix"@, suffix), ("rust_tuple"@, rust_tuple)];
    lemma_holes_i_idx_sql_name_suffix_rust_tuple(i, idx, sql_name, suffix, rust_tuple);
    assert(words::has_piece(
        text::fill(t::ARG_LIST_TUPLE@, b),
        "let arg"@ + idx + ": Vec<"@ + rust_tuple + "> = parse_json_list_tuple_"@ + suffix
            + "(&args, "@ + idx + ", \""@ + sql_name + "\")?;"@,
    )) by {
        let before = text::lemma_fill_reaches(s, b, 3);
        reveal_strlit("let arg");
        assert(s.subrange(3, 10) =~= "let arg"@);
        text::lemma_fill_run(s, b, 3, "let arg"@);
        reveal_strlit("idx");
        assert(s.subrange(11, 14) =~= "idx"@);
        text::lemma_fill_hole(s, b, 10, "idx"@);
        reveal_strlit(": Vec<");
        assert(s.subrange(15, 21) =~= ": Vec<"@);
        text::lemma_fill_run(s, b, 15, ": Vec<"@);
        reveal_strlit("rust_tuple");
        assert(s.subrange(22, 32) =~= "rust_tuple"@);
        text::lemma_fill_hole(s, b, 21, "rust_tuple"@);
        reveal_strlit("> = parse_json_list_tuple_");
        assert(s.subrange(33, 59) =~= "> = parse_json_list_tuple_"@);
        text::lemma_fill_run(s, b, 33, "> = parse_json_list_tuple_"@);
        reveal_strlit("suffix");
        assert(s.subrange(60, 66) =~= "suffix"@);
        text::lemma_fill_hole(s, b, 59, "suffix"@);
        reveal_strlit("(&args, ");
        assert(s.subrange(67, 75) =~= "(&args, "@);
        text::lemma_fill_run(s, b, 67, "(&args, "@);
        assert(s.subrange(76, 79) =~= "idx"@);
        text::lemma_fill_hole(s, b, 75, "idx"@);
        reveal_strlit(", \"");
        assert(s.subrange(80, 83) =~= ", \""@);
        text::lemma_fill_run(s, b, 80, ", \""@);
        reveal_strlit("sql_name");
        assert(s.subrange(84, 92) =~= "sql_name"@);
        text::lemma_fill_hole(s, b, 83, "sql_name"@);
        reveal_strlit("\")?;");
        assert(s.subrange(93, 97) =~= "\")?;"@);
        text::lemma_fill_run(s, b, 93, "\")?;"@);
        let rest = text::fill_from(s, b, 97);
        let part = "let arg"@ + idx + ": Vec<"@ + rust_tuple + "> = parse_json_list_tuple_"@ + suffix
            + "(&args, "@ + idx + ", \""@ + sql_name + "\")?;"@;
        assert((
            "let arg"@
                + (
                    idx
                        + (
                            ": Vec<"@
                                + (
                                    rust_tuple
                                        + (
                                            "> = parse_json_list_tuple_"@
                                                + (
                                                    suffix
                                                        + (
                                                            "(&args, "@
                                                                + (
                                                                    idx
                                                                        + (
                                                                            ", \""@
                                                                                + (
                                                                                    sql_name
                                                                                        + (
                                                                                            "\")?;"@
                                                                                                + rest
                                                                                        )
                                                                                )
                                                                        )
                                                                )
                                                        )
                                                )
                                        )
                                )
                        )
                )
        )
            =~= part + rest);
        words::lemma_piece_between(before, part, rest);
    }
}

} // verus!
