//! What the arms of table functions and window functions do: which function they call, and which
//! values they make of what it yields.

use vstd::prelude::*;
use vstd::string::*;

use crate::calls;
use crate::duckdb::dispatch;
use crate::duckdb::dispatch_templates as t;
use crate::duckdb::register;
use crate::duckdb::values;
use crate::ir::{
    ColumnAffinity, ParamShape, UdtfField, UdtfFieldShape, UdtfOutputRow, UdtfShape, WindowReturn,
    WindowShape,
};
use crate::text;
use crate::words;

verus! {

// ─── Table functions ───

proof fn lemma_no_list(params: Seq<ParamShape>, k: int)
    requires
        0 <= k <= params.len(),
        forall|j: int| 0 <= j < params.len() ==> dispatch::list_name(#[trigger] params[j]) is None,
    ensures
        dispatch::first_list_from(params, k) == params.len(),
    decreases params.len() - k,
{
    if k < params.len() {
        lemma_no_list(params, k + 1);
    }
}

proof fn lemma_call_args(params: Seq<ParamShape>, n: nat)
    requires
        n <= params.len(),
        forall|j: int| 0 <= j < params.len() ==> dispatch::list_name(#[trigger] params[j]) is None,
    ensures
        dispatch::udtf_call_args(params, n) == Seq::new(
            n,
            |k: int| calls::call_arg(params[k], k as nat),
        ),
    decreases n,
{
    if n > 0 {
        lemma_call_args(params, (n - 1) as nat);
    }
    assert(dispatch::udtf_call_args(params, n) =~= Seq::new(
        n,
        |k: int| calls::call_arg(params[k], k as nat),
    ));
}

proof fn lemma_declared(params: Seq<ParamShape>, sql_name: Seq<char>, i: Seq<char>, n: nat, k: int)
    requires
        0 <= k < n <= params.len(),
        forall|j: int| 0 <= j < params.len() ==> dispatch::list_name(#[trigger] params[j]) is None,
    ensures
        words::has_piece(
            dispatch::udtf_decls(params, sql_name, i, n),
            dispatch::arg_decl(params[k], k as nat, false, sql_name, i),
        ),
    decreases n,
{
    let before = dispatch::udtf_decls(params, sql_name, i, (n - 1) as nat);
    let last = dispatch::arg_decl(params[n - 1], (n - 1) as nat, false, sql_name, i);
    assert(dispatch::list_name(params[n - 1]) is None);
    if k == n - 1 {
        words::lemma_piece_added(before, last);
    } else {
        lemma_declared(params, sql_name, i, (n - 1) as nat, k);
        words::lemma_piece_kept(
            before,
            last,
            dispatch::arg_decl(params[k], k as nat, false, sql_name, i),
        );
    }
}

/// The body of a table function without lists among its parameters declares each argument at its
/// own position, calls the function with all arguments in their order, and then makes the rows.
pub proof fn law_table_body(
    shape: UdtfShape,
    sql_name: Seq<char>,
    i: Seq<char>,
    args: Seq<Seq<char>>,
    k: int,
)
    requires
        forall|j: int|
            0 <= j < shape.params@.len() ==> dispatch::list_name(
                #[trigger] shape.params@[j],
            ) is None,
        args.len() == shape.params@.len(),
        forall|j: int|
            0 <= j < args.len() ==> #[trigger] args[j] == calls::call_arg(
                shape.params@[j],
                j as nat,
            ),
    ensures
        ({
            let s = dispatch::udtf_call_body(shape, sql_name, i);
            &&& 0 <= k < args.len() ==> words::has_piece(
                s,
                dispatch::arg_decl(shape.params@[k], k as nat, false, sql_name, i),
            )
            &&& words::has_piece(
                s,
                "let __upstream = "@ + shape.wit_module@ + "::"@ + shape.wit_func@ + "("@
                    + words::joined(args, ", "@) + ")"@
                    + dispatch::unwrap_chain(shape.fallible, sql_name) + ";"@,
            )
            &&& words::has_piece(s, dispatch::rows_text(shape.output_row, sql_name, i))
        }),
{
    let params = shape.params@;
    lemma_no_list(params, 0);
    lemma_call_args(params, params.len());
    assert(dispatch::udtf_call_args(params, params.len()) =~= args);
    let joined = words::joined(args, ", "@);
    let chain = dispatch::unwrap_chain(shape.fallible, sql_name);
    lemma_udtf_call(i, shape.wit_module@, shape.wit_func@, joined, chain);
    let decls = dispatch::udtf_decls(params, sql_name, i, params.len());
    let call = text::fill(
        t::UDTF_CALL@,
        seq![
            ("i"@, i),
            ("module"@, shape.wit_module@),
            ("func"@, shape.wit_func@),
            ("call_args_str"@, joined),
            ("unwrap"@, chain),
        ],
    );
    let rows = dispatch::rows_text(shape.output_row, sql_name, i);
    if 0 <= k < args.len() {
        let decl = dispatch::arg_decl(params[k], k as nat, false, sql_name, i);
        lemma_declared(params, sql_name, i, params.len(), k);
        words::lemma_piece_kept(decls, call, decl);
        words::lemma_piece_kept(decls + call, rows, decl);
    }
    words::lemma_piece_added(decls + call, rows);
    let line = "let __upstream = "@ + shape.wit_module@ + "::"@ + shape.wit_func@ + "("@ + joined + ")"@
        + chain + ";"@;
    words::lemma_piece_moved(decls, call, line);
    words::lemma_piece_kept(decls + call, rows, line);
}

/// The value of a field of a row whose name in the code is `name`: integers, real numbers, texts
/// and blobs each have their own variant, a missing field is null, and one that cannot be handed
/// on is always null.
pub open spec fn field_value(shape: UdtfFieldShape, name: Seq<char>) -> Seq<char> {
    match shape {
        UdtfFieldShape::Int => "types::Duckvalue::Int64(__row."@ + name + " as i64)"@,
        UdtfFieldShape::Real => "types::Duckvalue::Float64(__row."@ + name + " as f64)"@,
        UdtfFieldShape::Text => "types::Duckvalue::Text(__row."@ + name + ".clone())"@,
        UdtfFieldShape::Blob => "types::Duckvalue::Blob(__row."@ + name + ".clone())"@,
        UdtfFieldShape::GeomBlob => "types::Duckvalue::Blob(__row."@ + name + ".as_wkb())"@,
        UdtfFieldShape::OptionInt => "match __row."@ + name
            + " { Some(v) => types::Duckvalue::Int64(v as i64), None => types::Duckvalue::Null }"@,
        UdtfFieldShape::OptionReal => "match __row."@ + name
            + " { Some(v) => types::Duckvalue::Float64(v as f64), None => types::Duckvalue::Null }"@,
        UdtfFieldShape::OptionText => "match &__row."@ + name
            + " { Some(v) => types::Duckvalue::Text(v.clone()), None => types::Duckvalue::Null }"@,
        UdtfFieldShape::OptionBlob => "match &__row."@ + name
            + " { Some(v) => types::Duckvalue::Blob(v.clone()), None => types::Duckvalue::Null }"@,
        UdtfFieldShape::OptionGeomBlob => "match &__row."@ + name
            + " { Some(v) => types::Duckvalue::Blob(v.as_wkb()), None => types::Duckvalue::Null }"@,
        UdtfFieldShape::Unsupported => "types::Duckvalue::Null"@,
    }
}

/// The type that the column of a field is declared as.
pub open spec fn field_type(shape: UdtfFieldShape) -> Seq<char> {
    match shape {
        UdtfFieldShape::Int => "types::Logicaltype::Int64"@,
        UdtfFieldShape::Real => "types::Logicaltype::Float64"@,
        UdtfFieldShape::Text => "types::Logicaltype::Text"@,
        UdtfFieldShape::Blob => "types::Logicaltype::Blob"@,
        UdtfFieldShape::GeomBlob => "types::Logicaltype::Blob"@,
        UdtfFieldShape::OptionInt => "types::Logicaltype::Int64"@,
        UdtfFieldShape::OptionReal => "types::Logicaltype::Float64"@,
        UdtfFieldShape::OptionText => "types::Logicaltype::Text"@,
        UdtfFieldShape::OptionBlob => "types::Logicaltype::Blob"@,
        UdtfFieldShape::OptionGeomBlob => "types::Logicaltype::Blob"@,
        UdtfFieldShape::Unsupported => "types::Logicaltype::Blob"@,
    }
}

proof fn lemma_fill_nothing(name: Seq<char>)
    ensures
        text::fill(""@, seq![("snake"@, name)]) == Seq::<char>::empty(),
        ""@ == Seq::<char>::empty(),
{
    reveal_strlit("");
    assert(""@ =~= Seq::<char>::empty());
}

proof fn lemma_field_value(f: UdtfField)
    ensures
        dispatch::field_expr(f) == field_value(f.field_shape, words::snake(f.name@)),
{
    match f.field_shape {
        UdtfFieldShape::Int => lemma_field_int(f),
        UdtfFieldShape::Real => lemma_field_real(f),
        UdtfFieldShape::Text => lemma_field_text(f),
        UdtfFieldShape::Blob => lemma_field_blob(f),
        UdtfFieldShape::GeomBlob => lemma_field_geomblob(f),
        UdtfFieldShape::OptionInt => lemma_field_optionint(f),
        UdtfFieldShape::OptionReal => lemma_field_optionreal(f),
        UdtfFieldShape::OptionText => lemma_field_optiontext(f),
        UdtfFieldShape::OptionBlob => lemma_field_optionblob(f),
        UdtfFieldShape::OptionGeomBlob => lemma_field_optiongeomblob(f),
        UdtfFieldShape::Unsupported => {},
    }
}

/// Each field of a row is declared as the type of its shape and made with the variant of that type:
/// integers as `Int64`, floating-point numbers as `Float64`, texts as `Text`, and bytes and
/// geometries as `Blob`. A missing one is null, and one that cannot be handed on is always null.
pub proof fn law_field_kinds(f: UdtfField)
    ensures
        ({
            let e = dispatch::field_expr(f);
            let name = words::snake(f.name@);
            match f.field_shape {
                UdtfFieldShape::Int => {
                    &&& register::field_logical(f.field_shape) == "types::Logicaltype::Int64"@
                    &&& e == "types::Duckvalue::Int64(__row."@ + name + " as i64)"@
                },
                UdtfFieldShape::Real => {
                    &&& register::field_logical(f.field_shape) == "types::Logicaltype::Float64"@
                    &&& e == "types::Duckvalue::Float64(__row."@ + name + " as f64)"@
                },
                UdtfFieldShape::Text => {
                    &&& register::field_logical(f.field_shape) == "types::Logicaltype::Text"@
                    &&& e == "types::Duckvalue::Text(__row."@ + name + ".clone())"@
                },
                UdtfFieldShape::Blob => {
                    &&& register::field_logical(f.field_shape) == "types::Logicaltype::Blob"@
                    &&& e == "types::Duckvalue::Blob(__row."@ + name + ".clone())"@
                },
                UdtfFieldShape::GeomBlob => {
                    &&& register::field_logical(f.field_shape) == "types::Logicaltype::Blob"@
                    &&& e == "types::Duckvalue::Blob(__row."@ + name + ".as_wkb())"@
                },
                UdtfFieldShape::OptionInt => {
                    &&& register::field_logical(f.field_shape) == "types::Logicaltype::Int64"@
                    &&& e
                        == "match __row."@ + name
                            + " { Some(v) => types::Duckvalue::Int64(v as i64), None => types::Duckvalue::Null }"@
                },
                UdtfFieldShape::OptionReal => {
                    &&& register::field_logical(f.field_shape) == "types::Logicaltype::Float64"@
                    &&& e
                        == "match __row."@ + name
                            + " { Some(v) => types::Duckvalue::Float64(v as f64), None => types::Duckvalue::Null }"@
                },
                UdtfFieldShape::OptionText => {
                    &&& register::field_logical(f.field_shape) == "types::Logicaltype::Text"@
                    &&& e
                        == "match &__row."@ + name
                            + " { Some(v) => types::Duckvalue::Text(v.clone()), None => types::Duckvalue::Null }"@
                },
                UdtfFieldShape::OptionBlob => {
                    &&& register::field_logical(f.field_shape) == "types::Logicaltype::Blob"@
                    &&& e
                        == "match &__row."@ + name
                            + " { Some(v) => types::Duckvalue::Blob(v.clone()), None => types::Duckvalue::Null }"@
                },
                UdtfFieldShape::OptionGeomBlob => {
                    &&& register::field_logical(f.field_shape) == "types::Logicaltype::Blob"@
                    &&& e
                        == "match &__row."@ + name
                            + " { Some(v) => types::Duckvalue::Blob(v.as_wkb()), None => types::Duckvalue::Null }"@
                },
                UdtfFieldShape::Unsupported => {
                    &&& register::field_logical(f.field_shape) == "types::Logicaltype::Blob"@
                    &&& e == "types::Duckvalue::Null"@
                },
            }
        }),
{
    lemma_field_value(f);
}

/// The columns of a table function are declared in the order of the fields, each under its own
/// name and as the type of its shape; a row holds the values of the fields in that order, each made
/// by its shape. A row of one geometry holds a blob, and one of one plain value the kind of value
/// of its affinity.
pub proof fn law_row_values(
    row: UdtfOutputRow,
    sql_name: Seq<char>,
    i: Seq<char>,
    exprs: Seq<Seq<char>>,
    k: int,
)
    requires
        row matches UdtfOutputRow::Record { fields } ==> {
            &&& exprs.len() == fields@.len()
            &&& forall|j: int|
                0 <= j < exprs.len() ==> #[trigger] exprs[j] == field_value(
                    fields@[j].field_shape,
                    words::snake(fields@[j].name@),
                )
        },
    ensures
        ({
            let s = dispatch::rows_text(row, sql_name, i);
            match row {
                UdtfOutputRow::SingleGeom { column_name } => {
                    &&& register::columns(row)
                        == register::column_def(column_name@, "types::Logicaltype::Blob"@)
                    &&& words::has_piece(s, "types::Duckvalue::Blob(__g.as_wkb())"@)
                },
                UdtfOutputRow::SinglePrimitive { affinity } => match affinity {
                    ColumnAffinity::Integer => {
                        &&& register::columns(row)
                            == register::column_def("value"@, "types::Logicaltype::Int64"@)
                        &&& words::has_piece(s, "types::Duckvalue::Int64(*__v as i64)"@)
                    },
                    ColumnAffinity::Real => {
                        &&& register::columns(row)
                            == register::column_def("value"@, "types::Logicaltype::Float64"@)
                        &&& words::has_piece(s, "types::Duckvalue::Float64(*__v as f64)"@)
                    },
                    ColumnAffinity::Text => {
                        &&& register::columns(row)
                            == register::column_def("value"@, "types::Logicaltype::Text"@)
                        &&& words::has_piece(s, "types::Duckvalue::Text(__v.clone())"@)
                    },
                    ColumnAffinity::Blob => {
                        &&& register::columns(row)
                            == register::column_def("value"@, "types::Logicaltype::Blob"@)
                        &&& words::has_piece(s, "types::Duckvalue::Blob(__v.clone())"@)
                    },
                },
                UdtfOutputRow::Record { fields } => {
                    &&& words::has_piece(
                        s,
                        "rows.push(alloc::vec!["@ + words::joined(exprs, ", "@) + "]);"@,
                    )
                    &&& 0 <= k < fields@.len() ==> words::has_piece(
                        register::columns(row),
                        column_of(fields@[k]),
                    )
                    &&& 0 <= k < fields@.len() - 1 ==> words::has_piece(
                        register::columns(row),
                        column_of(fields@[k]) + column_of(fields@[k + 1]),
                    )
                },
                UdtfOutputRow::Unwired { reason } => words::has_piece(s, "UDTF row shape unwired: "@ + words::escaped(reason@)),
            }
        }),
{
    match row {
        UdtfOutputRow::SingleGeom { .. } => {
            lemma_single_in_rows(row, sql_name, i);
            reveal_strlit("types::Duckvalue::Blob");
            reveal_strlit("(");
            reveal_strlit("__g.as_wkb()");
            reveal_strlit(")");
            reveal_strlit("types::Duckvalue::Blob(__g.as_wkb())");
            assert("types::Duckvalue::Blob"@ + "("@ + "__g.as_wkb()"@ + ")"@
                =~= "types::Duckvalue::Blob(__g.as_wkb())"@);
        },
        UdtfOutputRow::SinglePrimitive { affinity } => {
            lemma_single_in_rows(row, sql_name, i);
            match affinity {
                ColumnAffinity::Integer => {
                    reveal_strlit("types::Duckvalue::Int64");
                    reveal_strlit("(");
                    reveal_strlit("*__v as i64");
                    reveal_strlit(")");
                    reveal_strlit("types::Duckvalue::Int64(*__v as i64)");
                    assert("types::Duckvalue::Int64"@ + "("@ + "*__v as i64"@ + ")"@
                        =~= "types::Duckvalue::Int64(*__v as i64)"@);
                },
                ColumnAffinity::Real => {
                    reveal_strlit("types::Duckvalue::Float64");
                    reveal_strlit("(");
                    reveal_strlit("*__v as f64");
                    reveal_strlit(")");
                    reveal_strlit("types::Duckvalue::Float64(*__v as f64)");
                    assert("types::Duckvalue::Float64"@ + "("@ + "*__v as f64"@ + ")"@
                        =~= "types::Duckvalue::Float64(*__v as f64)"@);
                },
                ColumnAffinity::Text => {
                    reveal_strlit("types::Duckvalue::Text");
                    reveal_strlit("(");
                    reveal_strlit("__v.clone()");
                    reveal_strlit(")");
                    reveal_strlit("types::Duckvalue::Text(__v.clone())");
                    assert("types::Duckvalue::Text"@ + "("@ + "__v.clone()"@ + ")"@
                        =~= "types::Duckvalue::Text(__v.clone())"@);
                },
                ColumnAffinity::Blob => {
                    reveal_strlit("types::Duckvalue::Blob");
                    reveal_strlit("(");
                    reveal_strlit("__v.clone()");
                    reveal_strlit(")");
                    reveal_strlit("types::Duckvalue::Blob(__v.clone())");
                    assert("types::Duckvalue::Blob"@ + "("@ + "__v.clone()"@ + ")"@
                        =~= "types::Duckvalue::Blob(__v.clone())"@);
                },
            }
        },
        UdtfOutputRow::Record { fields } => {
            assert forall|j: int| 0 <= j < fields@.len() implies dispatch::field_exprs(
                fields@,
            )[j] == #[trigger] exprs[j] by {
                lemma_field_value(fields@[j]);
            }
            assert(dispatch::field_exprs(fields@) =~= exprs);
            lemma_udtf_record(i, words::joined(exprs, ", "@));
            if 0 <= k < fields@.len() {
                lemma_columns(fields@, fields@.len(), k);
            }
        },
        UdtfOutputRow::Unwired { reason } => lemma_udtf_row_unwired(
            i,
            sql_name,
            words::escaped(reason@),
        ),
    }
}

/// The column of a field.
pub open spec fn column_of(f: UdtfField) -> Seq<char> {
    register::column_def(words::escaped(f.name@), field_type(f.field_shape))
}

proof fn lemma_columns(fields: Seq<UdtfField>, n: nat, k: int)
    requires
        0 <= k < n <= fields.len(),
    ensures
        words::has_piece(register::field_columns(fields, n), column_of(fields[k])),
        k + 1 < n ==> words::has_piece(
            register::field_columns(fields, n),
            column_of(fields[k]) + column_of(fields[k + 1]),
        ),
    decreases n,
{
    let before = register::field_columns(fields, (n - 1) as nat);
    let last = column_of(fields[n - 1]);
    if k == n - 1 {
        words::lemma_piece_added(before, last);
    } else {
        lemma_columns(fields, (n - 1) as nat, k);
        words::lemma_pieces_kept(before, last);
        if k == n - 2 {
            let start = register::field_columns(fields, (n - 2) as nat);
            let this = column_of(fields[k]);
            assert(start + this + last =~= start + (this + last));
            words::lemma_piece_added(start, this + last);
        }
    }
}

proof fn lemma_single_in_rows(row: UdtfOutputRow, sql_name: Seq<char>, i: Seq<char>)
    requires
        row is SingleGeom || row is SinglePrimitive,
    ensures
        words::has_piece(dispatch::rows_text(row, sql_name, i), dispatch::single_value(row)),
{
    let value = dispatch::single_value(row);
    let before = if row is SingleGeom {
        text::fill(t::UDTF_SINGLE_GEOM@, seq![("i"@, i)])
    } else {
        text::fill(t::UDTF_SINGLE_PRIMITIVE@, seq![("i"@, i)])
    };
    words::lemma_piece_added(before, value);
    words::lemma_piece_kept(
        before + value,
        text::fill(t::UDTF_SINGLE_END@, seq![("i"@, i)]),
        value,
    );
}

// ─── Window functions ───

/// What a window function yields is declared as, and made with, the kind of value of its shape:
/// numbers as `Int64`, missing ones as null, and geometries as blobs.
pub proof fn law_window_values(ret: WindowReturn, i: Seq<char>)
    ensures
        ({
            let s = dispatch::window_return(ret, i);
            match ret {
                WindowReturn::OptionU32 => {
                    &&& register::window_logical(ret) == "types::Logicaltype::Int64"@
                    &&& words::has_piece(s, "types::Duckvalue::Int64(__id as i64)"@)
                    &&& words::has_piece(s, "match __labels[__row_ix] "@)
                    &&& words::has_piece(s, "Some(__id) => Ok("@)
                    &&& words::has_piece(s, "None => Ok(types::Duckvalue::Null)"@)
                },
                WindowReturn::U32 => {
                    &&& register::window_logical(ret) == "types::Logicaltype::Int64"@
                    &&& words::has_piece(s, "types::Duckvalue::Int64(__labels[__row_ix] as i64)"@)
                },
                WindowReturn::GeomBlob => {
                    &&& register::window_logical(ret) == "types::Logicaltype::Blob"@
                    &&& words::has_piece(
                        s,
                        "types::Duckvalue::Blob(__labels[__row_ix].as_wkb().into())"@,
                    )
                },
            }
        }),
{
    let texts = dispatch::window_ret_texts(ret);
    let before = text::fill(texts.0, seq![("i"@, i)]);
    let value = values::made(values::window_kind(ret), texts.1);
    let after = text::fill(texts.2, seq![("i"@, i)]);
    words::lemma_pieces_around(before, value, after);
    match ret {
        WindowReturn::OptionU32 => {
            lemma_window_ret_option(i);
            lemma_window_ret_option_end(i);
            reveal_strlit("types::Duckvalue::Int64");
            reveal_strlit("(");
            reveal_strlit("__id as i64");
            reveal_strlit(")");
            reveal_strlit("types::Duckvalue::Int64(__id as i64)");
            assert("types::Duckvalue::Int64"@ + "("@ + "__id as i64"@ + ")"@
                =~= "types::Duckvalue::Int64(__id as i64)"@);
        },
        WindowReturn::U32 => {
            reveal_strlit("types::Duckvalue::Int64");
            reveal_strlit("(");
            reveal_strlit("__labels[__row_ix] as i64");
            reveal_strlit(")");
            reveal_strlit("types::Duckvalue::Int64(__labels[__row_ix] as i64)");
            assert("types::Duckvalue::Int64"@ + "("@ + "__labels[__row_ix] as i64"@ + ")"@
                =~= "types::Duckvalue::Int64(__labels[__row_ix] as i64)"@);
        },
        WindowReturn::GeomBlob => {
            reveal_strlit("types::Duckvalue::Blob");
            reveal_strlit("(");
            reveal_strlit("__labels[__row_ix].as_wkb().into()");
            reveal_strlit(")");
            reveal_strlit("types::Duckvalue::Blob(__labels[__row_ix].as_wkb().into())");
            assert("types::Duckvalue::Blob"@ + "("@ + "__labels[__row_ix].as_wkb().into()"@ + ")"@
                =~= "types::Duckvalue::Blob(__labels[__row_ix].as_wkb().into())"@);
        },
    }
}

proof fn lemma_windows_wired(extras: Seq<ParamShape>, k: int)
    requires
        0 <= k <= extras.len(),
        forall|j: int|
            0 <= j < extras.len() ==> dispatch::window_extra_wired(#[trigger] extras[j]),
    ensures
        dispatch::unwired_window_extra_from(extras, k) == extras.len(),
    decreases extras.len() - k,
{
    if k < extras.len() {
        lemma_windows_wired(extras, k + 1);
    }
}

proof fn lemma_window_declared(
    extras: Seq<ParamShape>,
    sql_name: Seq<char>,
    i: Seq<char>,
    n: nat,
    j: int,
)
    requires
        0 <= j < n <= extras.len(),
    ensures
        words::has_piece(
            dispatch::window_extra_decls(extras, sql_name, i, n),
            dispatch::window_extra_decl(extras[j], j as nat, sql_name, i),
        ),
    decreases n,
{
    let before = dispatch::window_extra_decls(extras, sql_name, i, (n - 1) as nat);
    let last = dispatch::window_extra_decl(extras[n - 1], (n - 1) as nat, sql_name, i);
    if j == n - 1 {
        words::lemma_piece_added(before, last);
    } else {
        lemma_window_declared(extras, sql_name, i, (n - 1) as nat, j);
        words::lemma_piece_kept(
            before,
            last,
            dispatch::window_extra_decl(extras[j], j as nat, sql_name, i),
        );
    }
}

/// The arm of a window function decodes the geometry of each row of the partition, declares each
/// extra argument, and calls the function with the geometries and the extra arguments in their
/// order; then it makes the value of the row that the frame ends with.
pub proof fn law_window_arm(
    shape: WindowShape,
    sql_name: Seq<char>,
    i: Seq<char>,
    parts: Seq<Seq<char>>,
    j: int,
)
    requires
        forall|k: int|
            0 <= k < shape.extra_args@.len() ==> dispatch::window_extra_wired(
                #[trigger] shape.extra_args@[k],
            ),
        parts.len() == shape.extra_args@.len(),
        forall|k: int|
            0 <= k < parts.len() ==> #[trigger] parts[k] == "__extra"@ + words::decimal(k as nat),
    ensures
        ({
            let s = dispatch::window_arm_body(shape, sql_name, i);
            let more = if parts.len() == 0 {
                Seq::empty()
            } else {
                ", "@ + words::joined(parts, ", "@)
            };
            let chain = if shape.fallible {
                ".map_err(|e| types::Duckerror::Invalidargument(format!(\""@ + sql_name
                    + ": {}\", postgis_err_string(e))))?"@
            } else {
                Seq::empty()
            };
            &&& words::has_piece(s, "__geoms.push(Geometry::from_wkb(bytes)"@)
            &&& 0 <= j < parts.len() ==> words::has_piece(
                s,
                dispatch::window_extra_decl(shape.extra_args@[j], j as nat, sql_name, i),
            )
            &&& words::has_piece(
                s,
                "let __labels = "@ + shape.wit_module@ + "::"@ + shape.wit_func@ + "(&__geom_refs"@
                    + more + ")"@ + chain + ";"@,
            )
            &&& words::has_piece(s, "core::cmp::min(__e, __labels.len() - 1)"@)
            &&& words::has_piece(s, dispatch::window_return(shape.returns, i))
        }),
{
    let extras = shape.extra_args@;
    lemma_windows_wired(extras, 0);
    assert forall|k: int| 0 <= k < extras.len() implies calls::call_extras(extras, "__extra"@)[k]
        == #[trigger] parts[k] by {
        assert(dispatch::window_extra_wired(extras[k]));
    }
    assert(calls::call_extras(extras, "__extra"@) =~= parts);
    let more = dispatch::window_call_extras(extras);
    let chain = if shape.fallible {
        text::fill(t::WINDOW_MAP_ERR@, seq![("sql_name"@, sql_name)])
    } else {
        Seq::empty()
    };
    lemma_window_map_err(sql_name);
    lemma_window_geoms(i, sql_name);
    lemma_window_call(i, shape.wit_module@, shape.wit_func@, more, chain);
    lemma_window_pick(i);
    let first = text::fill(t::WINDOW_EMPTY@, seq![("i"@, i)]) + text::fill(
        t::WINDOW_GEOMS@,
        seq![("i"@, i), ("sql_name"@, sql_name)],
    );
    let decls = dispatch::window_extra_decls(extras, sql_name, i, extras.len());
    let call = text::fill(
        t::WINDOW_CALL@,
        seq![
            ("i"@, i),
            ("module"@, shape.wit_module@),
            ("func"@, shape.wit_func@),
            ("call_extras_lit"@, more),
            ("map_err"@, chain),
        ],
    );
    let pick = text::fill(t::WINDOW_PICK@, seq![("i"@, i)]);
    let value = dispatch::window_return(shape.returns, i);
    lemma_window_parts(first, decls, call, pick, value);
    if 0 <= j < parts.len() {
        lemma_window_declared(extras, sql_name, i, extras.len(), j);
    }
    words::lemma_pieces_moved(
        text::fill(t::WINDOW_EMPTY@, seq![("i"@, i)]),
        text::fill(t::WINDOW_GEOMS@, seq![("i"@, i), ("sql_name"@, sql_name)]),
    );
}

proof fn lemma_window_parts(a: Seq<char>, b: Seq<char>, c: Seq<char>, d: Seq<char>, e: Seq<char>)
    ensures
        forall|p: Seq<char>| #[trigger]
            words::has_piece(a, p) ==> words::has_piece(a + b + c + d + e, p),
        forall|p: Seq<char>| #[trigger]
            words::has_piece(b, p) ==> words::has_piece(a + b + c + d + e, p),
        forall|p: Seq<char>| #[trigger]
            words::has_piece(c, p) ==> words::has_piece(a + b + c + d + e, p),
        forall|p: Seq<char>| #[trigger]
            words::has_piece(d, p) ==> words::has_piece(a + b + c + d + e, p),
        words::has_piece(a + b + c + d + e, e),
{
    let all = a + b + c + d + e;
    assert forall|p: Seq<char>| #[trigger] words::has_piece(a, p) implies words::has_piece(all, p) by {
        words::lemma_piece_kept(a, b, p);
        words::lemma_piece_kept(a + b, c, p);
        words::lemma_piece_kept(a + b + c, d, p);
        words::lemma_piece_kept(a + b + c + d, e, p);
    }
    assert forall|p: Seq<char>| #[trigger] words::has_piece(b, p) implies words::has_piece(all, p) by {
        words::lemma_piece_moved(a, b, p);
        words::lemma_piece_kept(a + b, c, p);
        words::lemma_piece_kept(a + b + c, d, p);
        words::lemma_piece_kept(a + b + c + d, e, p);
    }
    assert forall|p: Seq<char>| #[trigger] words::has_piece(c, p) implies words::has_piece(all, p) by {
        words::lemma_piece_moved(a + b, c, p);
        words::lemma_piece_kept(a + b + c, d, p);
        words::lemma_piece_kept(a + b + c + d, e, p);
    }
    assert forall|p: Seq<char>| #[trigger] words::has_piece(d, p) implies words::has_piece(all, p) by {
        words::lemma_piece_moved(a + b + c, d, p);
        words::lemma_piece_kept(a + b + c + d, e, p);
    }
    words::lemma_piece_added(a + b + c + d, e);
}

proof fn lemma_field_int(f: UdtfField)
    requires
        f.field_shape is Int,
    ensures
        dispatch::field_expr(f) == field_value(f.field_shape, words::snake(f.name@)),
{
    let name = words::snake(f.name@);
    lemma_source_int(name);
    lemma_fill_nothing(name);
    reveal_strlit("types::Duckvalue::Int64");
    reveal_strlit("(");
    reveal_strlit("__row.");
    reveal_strlit("types::Duckvalue::Int64(__row.");
    assert("types::Duckvalue::Int64"@ + "("@ + "__row."@ =~= "types::Duckvalue::Int64(__row."@);
    reveal_strlit(" as i64");
    reveal_strlit(")");
    reveal_strlit(" as i64)");
    assert(" as i64"@ + ")"@ =~= " as i64)"@);
    assert(dispatch::field_expr(f) =~= "types::Duckvalue::Int64(__row."@ + name + " as i64)"@);
}

proof fn lemma_field_real(f: UdtfField)
    requires
        f.field_shape is Real,
    ensures
        dispatch::field_expr(f) == field_value(f.field_shape, words::snake(f.name@)),
{
    let name = words::snake(f.name@);
    lemma_source_real(name);
    lemma_fill_nothing(name);
    reveal_strlit("types::Duckvalue::Float64");
    reveal_strlit("(");
    reveal_strlit("__row.");
    reveal_strlit("types::Duckvalue::Float64(__row.");
    assert("types::Duckvalue::Float64"@ + "("@ + "__row."@ =~= "types::Duckvalue::Float64(__row."@);
    reveal_strlit(" as f64");
    reveal_strlit(")");
    reveal_strlit(" as f64)");
    assert(" as f64"@ + ")"@ =~= " as f64)"@);
    assert(dispatch::field_expr(f) =~= "types::Duckvalue::Float64(__row."@ + name + " as f64)"@);
}

proof fn lemma_field_text(f: UdtfField)
    requires
        f.field_shape is Text,
    ensures
        dispatch::field_expr(f) == field_value(f.field_shape, words::snake(f.name@)),
{
    let name = words::snake(f.name@);
    lemma_source_clone(name);
    lemma_fill_nothing(name);
    reveal_strlit("types::Duckvalue::Text");
    reveal_strlit("(");
    reveal_strlit("__row.");
    reveal_strlit("types::Duckvalue::Text(__row.");
    assert("types::Duckvalue::Text"@ + "("@ + "__row."@ =~= "types::Duckvalue::Text(__row."@);
    reveal_strlit(".clone()");
    reveal_strlit(")");
    reveal_strlit(".clone())");
    assert(".clone()"@ + ")"@ =~= ".clone())"@);
    assert(dispatch::field_expr(f) =~= "types::Duckvalue::Text(__row."@ + name + ".clone())"@);
}

proof fn lemma_field_blob(f: UdtfField)
    requires
        f.field_shape is Blob,
    ensures
        dispatch::field_expr(f) == field_value(f.field_shape, words::snake(f.name@)),
{
    let name = words::snake(f.name@);
    lemma_source_clone(name);
    lemma_fill_nothing(name);
    reveal_strlit("types::Duckvalue::Blob");
    reveal_strlit("(");
    reveal_strlit("__row.");
    reveal_strlit("types::Duckvalue::Blob(__row.");
    assert("types::Duckvalue::Blob"@ + "("@ + "__row."@ =~= "types::Duckvalue::Blob(__row."@);
    reveal_strlit(".clone()");
    reveal_strlit(")");
    reveal_strlit(".clone())");
    assert(".clone()"@ + ")"@ =~= ".clone())"@);
    assert(dispatch::field_expr(f) =~= "types::Duckvalue::Blob(__row."@ + name + ".clone())"@);
}

proof fn lemma_field_geomblob(f: UdtfField)
    requires
        f.field_shape is GeomBlob,
    ensures
        dispatch::field_expr(f) == field_value(f.field_shape, words::snake(f.name@)),
{
    let name = words::snake(f.name@);
    lemma_source_wkb(name);
    lemma_fill_nothing(name);
    reveal_strlit("types::Duckvalue::Blob");
    reveal_strlit("(");
    reveal_strlit("__row.");
    reveal_strlit("types::Duckvalue::Blob(__row.");
    assert("types::Duckvalue::Blob"@ + "("@ + "__row."@ =~= "types::Duckvalue::Blob(__row."@);
    reveal_strlit(".as_wkb()");
    reveal_strlit(")");
    reveal_strlit(".as_wkb())");
    assert(".as_wkb()"@ + ")"@ =~= ".as_wkb())"@);
    assert(dispatch::field_expr(f) =~= "types::Duckvalue::Blob(__row."@ + name + ".as_wkb())"@);
}

proof fn lemma_field_optionint(f: UdtfField)
    requires
        f.field_shape is OptionInt,
    ensures
        dispatch::field_expr(f) == field_value(f.field_shape, words::snake(f.name@)),
{
    let name = words::snake(f.name@);
    lemma_source_some_int(name);
    lemma_udtf_field_option(name);
    reveal_strlit(" { Some(v) => ");
    reveal_strlit("types::Duckvalue::Int64");
    reveal_strlit("(");
    reveal_strlit("v as i64");
    reveal_strlit(")");
    reveal_strlit(", None => types::Duckvalue::Null }");
    reveal_strlit(" { Some(v) => types::Duckvalue::Int64(v as i64), None => types::Duckvalue::Null }");
    assert(" { Some(v) => "@ + "types::Duckvalue::Int64"@ + "("@ + "v as i64"@ + ")"@
        + ", None => types::Duckvalue::Null }"@
        =~= " { Some(v) => types::Duckvalue::Int64(v as i64), None => types::Duckvalue::Null }"@);
    assert(dispatch::field_expr(f)
        =~= "match __row."@ + name
            + " { Some(v) => types::Duckvalue::Int64(v as i64), None => types::Duckvalue::Null }"@);
}

proof fn lemma_field_optionreal(f: UdtfField)
    requires
        f.field_shape is OptionReal,
    ensures
        dispatch::field_expr(f) == field_value(f.field_shape, words::snake(f.name@)),
{
    let name = words::snake(f.name@);
    lemma_source_some_real(name);
    lemma_udtf_field_option(name);
    reveal_strlit(" { Some(v) => ");
    reveal_strlit("types::Duckvalue::Float64");
    reveal_strlit("(");
    reveal_strlit("v as f64");
    reveal_strlit(")");
    reveal_strlit(", None => types::Duckvalue::Null }");
    reveal_strlit(" { Some(v) => types::Duckvalue::Float64(v as f64), None => types::Duckvalue::Null }");
    assert(" { Some(v) => "@ + "types::Duckvalue::Float64"@ + "("@ + "v as f64"@ + ")"@
        + ", None => types::Duckvalue::Null }"@
        =~= " { Some(v) => types::Duckvalue::Float64(v as f64), None => types::Duckvalue::Null }"@);
    assert(dispatch::field_expr(f)
        =~= "match __row."@ + name
            + " { Some(v) => types::Duckvalue::Float64(v as f64), None => types::Duckvalue::Null }"@);
}

proof fn lemma_field_optiontext(f: UdtfField)
    requires
        f.field_shape is OptionText,
    ensures
        dispatch::field_expr(f) == field_value(f.field_shape, words::snake(f.name@)),
{
    let name = words::snake(f.name@);
    lemma_source_some_clone(name);
    lemma_udtf_field_option_ref(name);
    reveal_strlit(" { Some(v) => ");
    reveal_strlit("types::Duckvalue::Text");
    reveal_strlit("(");
    reveal_strlit("v.clone()");
    reveal_strlit(")");
    reveal_strlit(", None => types::Duckvalue::Null }");
    reveal_strlit(" { Some(v) => types::Duckvalue::Text(v.clone()), None => types::Duckvalue::Null }");
    assert(" { Some(v) => "@ + "types::Duckvalue::Text"@ + "("@ + "v.clone()"@ + ")"@
        + ", None => types::Duckvalue::Null }"@
        =~= " { Some(v) => types::Duckvalue::Text(v.clone()), None => types::Duckvalue::Null }"@);
    assert(dispatch::field_expr(f)
        =~= "match &__row."@ + name
            + " { Some(v) => types::Duckvalue::Text(v.clone()), None => types::Duckvalue::Null }"@);
}

proof fn lemma_field_optionblob(f: UdtfField)
    requires
        f.field_shape is OptionBlob,
    ensures
        dispatch::field_expr(f) == field_value(f.field_shape, words::snake(f.name@)),
{
    let name = words::snake(f.name@);
    lemma_source_some_clone(name);
    lemma_udtf_field_option_ref(name);
    reveal_strlit(" { Some(v) => ");
    reveal_strlit("types::Duckvalue::Blob");
    reveal_strlit("(");
    reveal_strlit("v.clone()");
    reveal_strlit(")");
    reveal_strlit(", None => types::Duckvalue::Null }");
    reveal_strlit(" { Some(v) => types::Duckvalue::Blob(v.clone()), None => types::Duckvalue::Null }");
    assert(" { Some(v) => "@ + "types::Duckvalue::Blob"@ + "("@ + "v.clone()"@ + ")"@
        + ", None => types::Duckvalue::Null }"@
        =~= " { Some(v) => types::Duckvalue::Blob(v.clone()), None => types::Duckvalue::Null }"@);
    assert(dispatch::field_expr(f)
        =~= "match &__row."@ + name
            + " { Some(v) => types::Duckvalue::Blob(v.clone()), None => types::Duckvalue::Null }"@);
}

proof fn lemma_field_optiongeomblob(f: UdtfField)
    requires
        f.field_shape is OptionGeomBlob,
    ensures
        dispatch::field_expr(f) == field_value(f.field_shape, words::snake(f.name@)),
{
    let name = words::snake(f.name@);
    lemma_source_some_wkb(name);
    lemma_udtf_field_option_ref(name);
    reveal_strlit(" { Some(v) => ");
    reveal_strlit("types::Duckvalue::Blob");
    reveal_strlit("(");
    reveal_strlit("v.as_wkb()");
    reveal_strlit(")");
    reveal_strlit(", None => types::Duckvalue::Null }");
    reveal_strlit(" { Some(v) => types::Duckvalue::Blob(v.as_wkb()), None => types::Duckvalue::Null }");
    assert(" { Some(v) => "@ + "types::Duckvalue::Blob"@ + "("@ + "v.as_wkb()"@ + ")"@
        + ", None => types::Duckvalue::Null }"@
        =~= " { Some(v) => types::Duckvalue::Blob(v.as_wkb()), None => types::Duckvalue::Null }"@);
    assert(dispatch::field_expr(f)
        =~= "match &__row."@ + name
            + " { Some(v) => types::Duckvalue::Blob(v.as_wkb()), None => types::Duckvalue::Null }"@);
}

proof fn lemma_holes_i_module_func_call_args_str_unwrap(
    i: Seq<char>,
    module: Seq<char>,
    func: Seq<char>,
    call_args_str: Seq<char>,
    unwrap: Seq<char>,
)
    ensures
        ({
            let b = seq![("i"@, i), ("module"@, module), ("func"@, func), ("call_args_str"@, call_args_str), ("unwrap"@, unwrap)];
            &&& text::lookup_from(b, "i"@, 0) == i
            &&& text::lookup_from(b, "module"@, 0) == module
            &&& text::lookup_from(b, "func"@, 0) == func
            &&& text::lookup_from(b, "call_args_str"@, 0) == call_args_str
            &&& text::lookup_from(b, "unwrap"@, 0) == unwrap
        }),
{
    reveal_strlit("i");
    reveal_strlit("module");
    reveal_strlit("func");
    reveal_strlit("call_args_str");
    reveal_strlit("unwrap");
    reveal_with_fuel(text::lookup_from, 6);
    assert("i"@.len() != "module"@.len());
    assert("i"@.len() != "func"@.len());
    assert("i"@.len() != "call_args_str"@.len());
    assert("i"@.len() != "unwrap"@.len());
    assert("module"@.len() != "func"@.len());
    assert("module"@.len() != "call_args_str"@.len());
    assert("module"@[0] != "unwrap"@[0]);
    assert("func"@.len() != "call_args_str"@.len());
    assert("func"@.len() != "unwrap"@.len());
    assert("call_args_str"@.len() != "unwrap"@.len());
}

proof fn lemma_holes_i(i: Seq<char>)
    ensures
        ({
            let b = seq![("i"@, i)];
            &&& text::lookup_from(b, "i"@, 0) == i
        }),
{
    reveal_strlit("i");
    reveal_with_fuel(text::lookup_from, 2);

}

proof fn lemma_holes_i_row_block(i: Seq<char>, row_block: Seq<char>)
    ensures
        ({
            let b = seq![("i"@, i), ("row_block"@, row_block)];
            &&& text::lookup_from(b, "i"@, 0) == i
            &&& text::lookup_from(b, "row_block"@, 0) == row_block
        }),
{
    reveal_strlit("i");
    reveal_strlit("row_block");
    reveal_with_fuel(text::lookup_from, 3);
    assert("i"@.len() != "row_block"@.len());
}

proof fn lemma_holes_i_sql_name_r(i: Seq<char>, sql_name: Seq<char>, r: Seq<char>)
    ensures
        ({
            let b = seq![("i"@, i), ("sql_name"@, sql_name), ("r"@, r)];
            &&& text::lookup_from(b, "i"@, 0) == i
            &&& text::lookup_from(b, "sql_name"@, 0) == sql_name
            &&& text::lookup_from(b, "r"@, 0) == r
        }),
{
    reveal_strlit("i");
    reveal_strlit("sql_name");
    reveal_strlit("r");
    reveal_with_fuel(text::lookup_from, 4);
    assert("i"@.len() != "sql_name"@.len());
    assert("i"@[0] != "r"@[0]);
    assert("sql_name"@.len() != "r"@.len());
}

proof fn lemma_holes_snake(snake: Seq<char>)
    ensures
        ({
            let b = seq![("snake"@, snake)];
            &&& text::lookup_from(b, "snake"@, 0) == snake
        }),
{
    reveal_strlit("snake");
    reveal_with_fuel(text::lookup_from, 2);

}

proof fn lemma_holes_i_sql_name(i: Seq<char>, sql_name: Seq<char>)
    ensures
        ({
            let b = seq![("i"@, i), ("sql_name"@, sql_name)];
            &&& text::lookup_from(b, "i"@, 0) == i
            &&& text::lookup_from(b, "sql_name"@, 0) == sql_name
        }),
{
    reveal_strlit("i");
    reveal_strlit("sql_name");
    reveal_with_fuel(text::lookup_from, 3);
    assert("i"@.len() != "sql_name"@.len());
}

proof fn lemma_holes_i_module_func_call_extras_lit_map_err(
    i: Seq<char>,
    module: Seq<char>,
    func: Seq<char>,
    call_extras_lit: Seq<char>,
    map_err: Seq<char>,
)
    ensures
        ({
            let b = seq![("i"@, i), ("module"@, module), ("func"@, func), ("call_extras_lit"@, call_extras_lit), ("map_err"@, map_err)];
            &&& text::lookup_from(b, "i"@, 0) == i
            &&& text::lookup_from(b, "module"@, 0) == module
            &&& text::lookup_from(b, "func"@, 0) == func
            &&& text::lookup_from(b, "call_extras_lit"@, 0) == call_extras_lit
            &&& text::lookup_from(b, "map_err"@, 0) == map_err
        }),
{
    reveal_strlit("i");
    reveal_strlit("module");
    reveal_strlit("func");
    reveal_strlit("call_extras_lit");
    reveal_strlit("map_err");
    reveal_with_fuel(text::lookup_from, 6);
    assert("i"@.len() != "module"@.len());
    assert("i"@.len() != "func"@.len());
    assert("i"@.len() != "call_extras_lit"@.len());
    assert("i"@.len() != "map_err"@.len());
    assert("module"@.len() != "func"@.len());
    assert("module"@.len() != "call_extras_lit"@.len());
    assert("module"@.len() != "map_err"@.len());
    assert("func"@.len() != "call_extras_lit"@.len());
    assert("func"@.len() != "map_err"@.len());
    assert("call_extras_lit"@.len() != "map_err"@.len());
}

proof fn lemma_holes_sql_name(sql_name: Seq<char>)
    ensures
        ({
            let b = seq![("sql_name"@, sql_name)];
            &&& text::lookup_from(b, "sql_name"@, 0) == sql_name
        }),
{
    reveal_strlit("sql_name");
    reveal_with_fuel(text::lookup_from, 2);

}

proof fn lemma_holes_i_j_sql_name(i: Seq<char>, j: Seq<char>, sql_name: Seq<char>)
    ensures
        ({
            let b = seq![("i"@, i), ("j"@, j), ("sql_name"@, sql_name)];
            &&& text::lookup_from(b, "i"@, 0) == i
            &&& text::lookup_from(b, "j"@, 0) == j
            &&& text::lookup_from(b, "sql_name"@, 0) == sql_name
        }),
{
    reveal_strlit("i");
    reveal_strlit("j");
    reveal_strlit("sql_name");
    reveal_with_fuel(text::lookup_from, 4);
    assert("i"@[0] != "j"@[0]);
    assert("i"@.len() != "sql_name"@.len());
    assert("j"@.len() != "sql_name"@.len());
}

proof fn lemma_udtf_call(
    i: Seq<char>,
    module: Seq<char>,
    func: Seq<char>,
    call_args_str: Seq<char>,
    unwrap: Seq<char>,
)
    ensures
        words::has_piece(
            text::fill(
                t::UDTF_CALL@,
                seq![("i"@, i), ("module"@, module), ("func"@, func), ("call_args_str"@, call_args_str), ("unwrap"@, unwrap)],
            ),
            "let __upstream = "@ + module + "::"@ + func + "("@ + call_args_str + ")"@ + unwrap
                + ";"@,
        ),
{
    let s = t::UDTF_CALL@;
    reveal_strlit("{i}let __upstream = {module}::{func}({call_args_str}){unwrap};\n");
    reveal_with_fuel(text::plain_to, 31);
    let b = seq![("i"@, i), ("module"@, module), ("func"@, func), ("call_args_str"@, call_args_str), ("unwrap"@, unwrap)];
    lemma_holes_i_module_func_call_args_str_unwrap(i, module, func, call_args_str, unwrap);
    assert(words::has_piece(
        text::fill(t::UDTF_CALL@, b),
        "let __upstream = "@ + module + "::"@ + func + "("@ + call_args_str + ")"@ + unwrap + ";"@,
    )) by {
        let before = text::lemma_fill_reaches(s, b, 3);
        reveal_strlit("let __upstream = ");
        assert(s.subrange(3, 20) =~= "let __upstream = "@);
        text::lemma_fill_run(s, b, 3, "let __upstream = "@);
        reveal_strlit("module");
        assert(s.subrange(21, 27) =~= "module"@);
        text::lemma_fill_hole(s, b, 20, "module"@);
        reveal_strlit("::");
        assert(s.subrange(28, 30) =~= "::"@);
        text::lemma_fill_run(s, b, 28, "::"@);
        reveal_strlit("func");
        assert(s.subrange(31, 35) =~= "func"@);
        text::lemma_fill_hole(s, b, 30, "func"@);
        reveal_strlit("(");
        assert(s.subrange(36, 37) =~= "("@);
        text::lemma_fill_run(s, b, 36, "("@);
        reveal_strlit("call_args_str");
        assert(s.subrange(38, 51) =~= "call_args_str"@);
        text::lemma_fill_hole(s, b, 37, "call_args_str"@);
        reveal_strlit(")");
        assert(s.subrange(52, 53) =~= ")"@);
        text::lemma_fill_run(s, b, 52, ")"@);
        reveal_strlit("unwrap");
        assert(s.subrange(54, 60) =~= "unwrap"@);
        text::lemma_fill_hole(s, b, 53, "unwrap"@);
        reveal_strlit(";");
        assert(s.subrange(61, 62) =~= ";"@);
        text::lemma_fill_run(s, b, 61, ";"@);
        let rest = text::fill_from(s, b, 62);
        let part = "let __upstream = "@ + module + "::"@ + func + "("@ + call_args_str + ")"@ + unwrap + ";"@;
        assert((
            "let __upstream = "@
                + (
                    module
                        + (
                            "::"@
                                + (
                                    func
                                        + (
                                            "("@
                                                + (call_args_str + (")"@ + (unwrap + (";"@ + rest))))
                                        )
                                )
                        )
                )
        )
            =~= part + rest);
        words::lemma_piece_between(before, part, rest);
    }
}

proof fn lemma_udtf_record(i: Seq<char>, row_block: Seq<char>)
    ensures
        words::has_piece(
            text::fill(t::UDTF_RECORD@, seq![("i"@, i), ("row_block"@, row_block)]),
            "rows.push(alloc::vec!["@ + row_block + "]);"@,
        ),
{
    let s = t::UDTF_RECORD@;
    reveal_strlit(r#"{i}let mut rows: Vec<Vec<types::Duckvalue>> = Vec::with_capacity(__upstream.len());
{i}for __row in __upstream.into_iter() {{
{i}    rows.push(alloc::vec![{row_block}]);
{i}}}
{i}Ok(rows)"#);
    reveal_with_fuel(text::plain_to, 31);
    let b = seq![("i"@, i), ("row_block"@, row_block)];
    lemma_holes_i_row_block(i, row_block);
    assert(words::has_piece(
        text::fill(t::UDTF_RECORD@, b),
        "rows.push(alloc::vec!["@ + row_block + "]);"@,
    )) by {
        let before = text::lemma_fill_reaches(s, b, 129);
        reveal_strlit("    ");
        assert(s.subrange(129, 133) =~= "    "@);
        text::lemma_fill_run(s, b, 129, "    "@);
        reveal_strlit("rows.push(alloc::vec![");
        assert(s.subrange(133, 155) =~= "rows.push(alloc::vec!["@);
        text::lemma_fill_run(s, b, 133, "rows.push(alloc::vec!["@);
        reveal_strlit("row_block");
        assert(s.subrange(156, 165) =~= "row_block"@);
        text::lemma_fill_hole(s, b, 155, "row_block"@);
        reveal_strlit("]);");
        assert(s.subrange(166, 169) =~= "]);"@);
        text::lemma_fill_run(s, b, 166, "]);"@);
        let rest = text::fill_from(s, b, 169);
        let part = "rows.push(alloc::vec!["@ + row_block + "]);"@;
        assert(("rows.push(alloc::vec!["@ + (row_block + ("]);"@ + rest))) =~= part + rest);
        assert(before + ("    "@ + (part + rest)) =~= (before + "    "@) + (part + rest));
        words::lemma_piece_between(before + "    "@, part, rest);
    }
}

proof fn lemma_udtf_row_unwired(i: Seq<char>, sql_name: Seq<char>, r: Seq<char>)
    ensures
        words::has_piece(
            text::fill(t::UDTF_ROW_UNWIRED@, seq![("i"@, i), ("sql_name"@, sql_name), ("r"@, r)]),
            "UDTF row shape unwired: "@ + r,
        ),
{
    let s = t::UDTF_ROW_UNWIRED@;
    reveal_strlit("{i}Err(types::Duckerror::Unsupported(format!(\"{sql_name}: UDTF row shape unwired: {r}\")))");
    reveal_with_fuel(text::plain_to, 31);
    let b = seq![("i"@, i), ("sql_name"@, sql_name), ("r"@, r)];
    lemma_holes_i_sql_name_r(i, sql_name, r);
    assert(words::has_piece(text::fill(t::UDTF_ROW_UNWIRED@, b), "UDTF row shape unwired: "@ + r)) by {
        let before = text::lemma_fill_reaches(s, b, 56);
        reveal_strlit(": ");
        assert(s.subrange(56, 58) =~= ": "@);
        text::lemma_fill_run(s, b, 56, ": "@);
        reveal_strlit("UDTF row shape unwired: ");
        assert(s.subrange(58, 82) =~= "UDTF row shape unwired: "@);
        text::lemma_fill_run(s, b, 58, "UDTF row shape unwired: "@);
        reveal_strlit("r");
        assert(s.subrange(83, 84) =~= "r"@);
        text::lemma_fill_hole(s, b, 82, "r"@);
        let rest = text::fill_from(s, b, 85);
        let part = "UDTF row shape unwired: "@ + r;
        assert(("UDTF row shape unwired: "@ + (r + rest)) =~= part + rest);
        assert(before + (": "@ + (part + rest)) =~= (before + ": "@) + (part + rest));
        words::lemma_piece_between(before + ": "@, part, rest);
    }
}

proof fn lemma_udtf_field_option(snake: Seq<char>)
    ensures
        text::fill(t::UDTF_FIELD_OPTION@, seq![("snake"@, snake)])
            == "match __row."@ + snake + " { Some(v) => "@,
{
    let s = t::UDTF_FIELD_OPTION@;
    let b = seq![("snake"@, snake)];
    reveal_strlit("match __row.{snake} {{ Some(v) => ");
    reveal_with_fuel(text::plain_to, 31);
    lemma_holes_snake(snake);
    reveal_strlit("match __row.");
    assert(s.subrange(0, 12) =~= "match __row."@);
    text::lemma_fill_run(s, b, 0, "match __row."@);
    reveal_strlit("snake");
    assert(s.subrange(13, 18) =~= "snake"@);
    text::lemma_fill_hole(s, b, 12, "snake"@);
    reveal_strlit(" ");
    assert(s.subrange(19, 20) =~= " "@);
    text::lemma_fill_run(s, b, 19, " "@);
    assert(text::fill_from(s, b, 20) == seq!['{'] + text::fill_from(s, b, 22));
    reveal_strlit(" Some(v) => ");
    assert(s.subrange(22, 34) =~= " Some(v) => "@);
    text::lemma_fill_run(s, b, 22, " Some(v) => "@);
    reveal_strlit(" { Some(v) => ");
    assert((
        "match __row."@
            + (snake + (" "@ + (seq!['{'] + (" Some(v) => "@ + text::fill_from(s, b, 34)))))
    )
        =~= "match __row."@ + snake + " { Some(v) => "@);
}

proof fn lemma_udtf_field_option_ref(snake: Seq<char>)
    ensures
        text::fill(t::UDTF_FIELD_OPTION_REF@, seq![("snake"@, snake)])
            == "match &__row."@ + snake + " { Some(v) => "@,
{
    let s = t::UDTF_FIELD_OPTION_REF@;
    let b = seq![("snake"@, snake)];
    reveal_strlit("match &__row.{snake} {{ Some(v) => ");
    reveal_with_fuel(text::plain_to, 31);
    lemma_holes_snake(snake);
    reveal_strlit("match &__row.");
    assert(s.subrange(0, 13) =~= "match &__row."@);
    text::lemma_fill_run(s, b, 0, "match &__row."@);
    reveal_strlit("snake");
    assert(s.subrange(14, 19) =~= "snake"@);
    text::lemma_fill_hole(s, b, 13, "snake"@);
    reveal_strlit(" ");
    assert(s.subrange(20, 21) =~= " "@);
    text::lemma_fill_run(s, b, 20, " "@);
    assert(text::fill_from(s, b, 21) == seq!['{'] + text::fill_from(s, b, 23));
    reveal_strlit(" Some(v) => ");
    assert(s.subrange(23, 35) =~= " Some(v) => "@);
    text::lemma_fill_run(s, b, 23, " Some(v) => "@);
    reveal_strlit(" { Some(v) => ");
    assert((
        "match &__row."@
            + (snake + (" "@ + (seq!['{'] + (" Some(v) => "@ + text::fill_from(s, b, 35)))))
    )
        =~= "match &__row."@ + snake + " { Some(v) => "@);
}

proof fn lemma_source_int(snake: Seq<char>)
    ensures
        text::fill("__row.{snake} as i64"@, seq![("snake"@, snake)])
            == "__row."@ + snake + " as i64"@,
{
    let s = "__row.{snake} as i64"@;
    let b = seq![("snake"@, snake)];
    reveal_strlit("__row.{snake} as i64");
    reveal_with_fuel(text::plain_to, 31);
    lemma_holes_snake(snake);
    reveal_strlit("__row.");
    assert(s.subrange(0, 6) =~= "__row."@);
    text::lemma_fill_run(s, b, 0, "__row."@);
    reveal_strlit("snake");
    assert(s.subrange(7, 12) =~= "snake"@);
    text::lemma_fill_hole(s, b, 6, "snake"@);
    reveal_strlit(" as i64");
    assert(s.subrange(13, 20) =~= " as i64"@);
    text::lemma_fill_run(s, b, 13, " as i64"@);
    assert(("__row."@ + (snake + (" as i64"@ + text::fill_from(s, b, 20))))
        =~= "__row."@ + snake + " as i64"@);
}

proof fn lemma_source_real(snake: Seq<char>)
    ensures
        text::fill("__row.{snake} as f64"@, seq![("snake"@, snake)])
            == "__row."@ + snake + " as f64"@,
{
    let s = "__row.{snake} as f64"@;
    let b = seq![("snake"@, snake)];
    reveal_strlit("__row.{snake} as f64");
    reveal_with_fuel(text::plain_to, 31);
    lemma_holes_snake(snake);
    reveal_strlit("__row.");
    assert(s.subrange(0, 6) =~= "__row."@);
    text::lemma_fill_run(s, b, 0, "__row."@);
    reveal_strlit("snake");
    assert(s.subrange(7, 12) =~= "snake"@);
    text::lemma_fill_hole(s, b, 6, "snake"@);
    reveal_strlit(" as f64");
    assert(s.subrange(13, 20) =~= " as f64"@);
    text::lemma_fill_run(s, b, 13, " as f64"@);
    assert(("__row."@ + (snake + (" as f64"@ + text::fill_from(s, b, 20))))
        =~= "__row."@ + snake + " as f64"@);
}

proof fn lemma_source_clone(snake: Seq<char>)
    ensures
        text::fill("__row.{snake}.clone()"@, seq![("snake"@, snake)])
            == "__row."@ + snake + ".clone()"@,
{
    let s = "__row.{snake}.clone()"@;
    let b = seq![("snake"@, snake)];
    reveal_strlit("__row.{snake}.clone()");
    reveal_with_fuel(text::plain_to, 31);
    lemma_holes_snake(snake);
    reveal_strlit("__row.");
    assert(s.subrange(0, 6) =~= "__row."@);
    text::lemma_fill_run(s, b, 0, "__row."@);
    reveal_strlit("snake");
    assert(s.subrange(7, 12) =~= "snake"@);
    text::lemma_fill_hole(s, b, 6, "snake"@);
    reveal_strlit(".clone()");
    assert(s.subrange(13, 21) =~= ".clone()"@);
    text::lemma_fill_run(s, b, 13, ".clone()"@);
    assert(("__row."@ + (snake + (".clone()"@ + text::fill_from(s, b, 21))))
        =~= "__row."@ + snake + ".clone()"@);
}

proof fn lemma_source_wkb(snake: Seq<char>)
    ensures
        text::fill("__row.{snake}.as_wkb()"@, seq![("snake"@, snake)])
            == "__row."@ + snake + ".as_wkb()"@,
{
    let s = "__row.{snake}.as_wkb()"@;
    let b = seq![("snake"@, snake)];
    reveal_strlit("__row.{snake}.as_wkb()");
    reveal_with_fuel(text::plain_to, 31);
    lemma_holes_snake(snake);
    reveal_strlit("__row.");
    assert(s.subrange(0, 6) =~= "__row."@);
    text::lemma_fill_run(s, b, 0, "__row."@);
    reveal_strlit("snake");
    assert(s.subrange(7, 12) =~= "snake"@);
    text::lemma_fill_hole(s, b, 6, "snake"@);
    reveal_strlit(".as_wkb()");
    assert(s.subrange(13, 22) =~= ".as_wkb()"@);
    text::lemma_fill_run(s, b, 13, ".as_wkb()"@);
    assert(("__row."@ + (snake + (".as_wkb()"@ + text::fill_from(s, b, 22))))
        =~= "__row."@ + snake + ".as_wkb()"@);
}

proof fn lemma_source_some_int(snake: Seq<char>)
    ensures
        text::fill("v as i64"@, seq![("snake"@, snake)]) == "v as i64"@,
{
    let s = "v as i64"@;
    let b = seq![("snake"@, snake)];
    reveal_strlit("v as i64");
    reveal_with_fuel(text::plain_to, 31);
    lemma_holes_snake(snake);
    assert(s.subrange(0, 8) =~= "v as i64"@);
    text::lemma_fill_run(s, b, 0, "v as i64"@);
    assert(("v as i64"@ + text::fill_from(s, b, 8)) =~= "v as i64"@);
}

proof fn lemma_source_some_real(snake: Seq<char>)
    ensures
        text::fill("v as f64"@, seq![("snake"@, snake)]) == "v as f64"@,
{
    let s = "v as f64"@;
    let b = seq![("snake"@, snake)];
    reveal_strlit("v as f64");
    reveal_with_fuel(text::plain_to, 31);
    lemma_holes_snake(snake);
    assert(s.subrange(0, 8) =~= "v as f64"@);
    text::lemma_fill_run(s, b, 0, "v as f64"@);
    assert(("v as f64"@ + text::fill_from(s, b, 8)) =~= "v as f64"@);
}

proof fn lemma_source_some_clone(snake: Seq<char>)
    ensures
        text::fill("v.clone()"@, seq![("snake"@, snake)]) == "v.clone()"@,
{
    let s = "v.clone()"@;
    let b = seq![("snake"@, snake)];
    reveal_strlit("v.clone()");
    reveal_with_fuel(text::plain_to, 31);
    lemma_holes_snake(snake);
    assert(s.subrange(0, 9) =~= "v.clone()"@);
    text::lemma_fill_run(s, b, 0, "v.clone()"@);
    assert(("v.clone()"@ + text::fill_from(s, b, 9)) =~= "v.clone()"@);
}

proof fn lemma_source_some_wkb(snake: Seq<char>)
    ensures
        text::fill("v.as_wkb()"@, seq![("snake"@, snake)]) == "v.as_wkb()"@,
{
    let s = "v.as_wkb()"@;
    let b = seq![("snake"@, snake)];
    reveal_strlit("v.as_wkb()");
    reveal_with_fuel(text::plain_to, 31);
    lemma_holes_snake(snake);
    assert(s.subrange(0, 10) =~= "v.as_wkb()"@);
    text::lemma_fill_run(s, b, 0, "v.as_wkb()"@);
    assert(("v.as_wkb()"@ + text::fill_from(s, b, 10)) =~= "v.as_wkb()"@);
}

proof fn lemma_window_geoms(i: Seq<char>, sql_name: Seq<char>)
    ensures
        words::has_piece(
            text::fill(t::WINDOW_GEOMS@, seq![("i"@, i), ("sql_name"@, sql_name)]),
            "let bytes = match &__row[0] "@,
        ),
        words::has_piece(
            text::fill(t::WINDOW_GEOMS@, seq![("i"@, i), ("sql_name"@, sql_name)]),
            "types::Duckvalue::Blob(b) => b.as_slice(),"@,
        ),
        words::has_piece(
            text::fill(t::WINDOW_GEOMS@, seq![("i"@, i), ("sql_name"@, sql_name)]),
            "__geoms.push(Geometry::from_wkb(bytes)"@,
        ),
{
    let s = t::WINDOW_GEOMS@;
    reveal_strlit(r#"{i}let mut __geoms: Vec<Geometry> = Vec::with_capacity(partition.len());
{i}for (__ri, __row) in partition.iter().enumerate() {{
{i}    if __row.is_empty() {{
{i}        return Err(types::Duckerror::Invalidargument(format!(
{i}            "{sql_name}: partition row {{}} is empty", __ri
{i}        )));
{i}    }}
{i}    let bytes = match &__row[0] {{
{i}        types::Duckvalue::Blob(b) => b.as_slice(),
{i}        types::Duckvalue::Text(t) => t.as_bytes(),
{i}        types::Duckvalue::Null => {{
{i}            return Err(types::Duckerror::Invalidargument(format!(
{i}                "{sql_name}: partition row {{}} col 0 is NULL", __ri
{i}            )));
{i}        }}
{i}        _ => {{
{i}            return Err(types::Duckerror::Invalidargument(format!(
{i}                "{sql_name}: partition row {{}} col 0 must be BLOB", __ri
{i}            )));
{i}        }}
{i}    }};
{i}    __geoms.push(Geometry::from_wkb(bytes).map_err(|e| {{
{i}        types::Duckerror::Invalidargument(format!(
{i}            "{sql_name}: row {{}} WKB decode: {{}}", __ri, postgis_err_string(e)
{i}        ))
{i}    }})?);
{i}}}
"#);
    reveal_with_fuel(text::plain_to, 31);
    let b = seq![("i"@, i), ("sql_name"@, sql_name)];
    lemma_holes_i_sql_name(i, sql_name);
    assert(words::has_piece(text::fill(t::WINDOW_GEOMS@, b), "let bytes = match &__row[0] "@)) by {
        let before = text::lemma_fill_reaches(s, b, 316);
        reveal_strlit("    ");
        assert(s.subrange(316, 320) =~= "    "@);
        text::lemma_fill_run(s, b, 316, "    "@);
        reveal_strlit("let bytes = match &__row[0] ");
        assert(s.subrange(320, 348) =~= "let bytes = match &__row[0] "@);
        text::lemma_fill_run(s, b, 320, "let bytes = match &__row[0] "@);
        let rest = text::fill_from(s, b, 348);
        let part = "let bytes = match &__row[0] "@;
        assert(before + ("    "@ + (part + rest)) =~= (before + "    "@) + (part + rest));
        words::lemma_piece_between(before + "    "@, part, rest);
    }
    assert(words::has_piece(
        text::fill(t::WINDOW_GEOMS@, b),
        "types::Duckvalue::Blob(b) => b.as_slice(),"@,
    )) by {
        let before = text::lemma_fill_reaches(s, b, 354);
        reveal_strlit("        ");
        assert(s.subrange(354, 362) =~= "        "@);
        text::lemma_fill_run(s, b, 354, "        "@);
        reveal_strlit("types::Duckvalue::Blob(b) => b");
        assert(s.subrange(362, 392) =~= "types::Duckvalue::Blob(b) => b"@);
        text::lemma_fill_run(s, b, 362, "types::Duckvalue::Blob(b) => b"@);
        reveal_strlit(".as_slice(),");
        assert(s.subrange(392, 404) =~= ".as_slice(),"@);
        text::lemma_fill_run(s, b, 392, ".as_slice(),"@);
        let rest = text::fill_from(s, b, 404);
        let part = "types::Duckvalue::Blob(b) => b.as_slice(),"@;
        reveal_strlit("types::Duckvalue::Blob(b) => b.as_slice(),");
        assert(("types::Duckvalue::Blob(b) => b"@ + (".as_slice(),"@ + rest)) =~= part + rest);
        assert(before + ("        "@ + (part + rest)) =~= (before + "        "@) + (part + rest));
        words::lemma_piece_between(before + "        "@, part, rest);
    }
    assert(words::has_piece(text::fill(t::WINDOW_GEOMS@, b), "__geoms.push(Geometry::from_wkb(bytes)"@)) by {
        let before = text::lemma_fill_reaches(s, b, 887);
        reveal_strlit("    ");
        assert(s.subrange(887, 891) =~= "    "@);
        text::lemma_fill_run(s, b, 887, "    "@);
        reveal_strlit("__geoms.push(Geometry::from_wk");
        assert(s.subrange(891, 921) =~= "__geoms.push(Geometry::from_wk"@);
        text::lemma_fill_run(s, b, 891, "__geoms.push(Geometry::from_wk"@);
        reveal_strlit("b(bytes)");
        assert(s.subrange(921, 929) =~= "b(bytes)"@);
        text::lemma_fill_run(s, b, 921, "b(bytes)"@);
        let rest = text::fill_from(s, b, 929);
        let part = "__geoms.push(Geometry::from_wkb(bytes)"@;
        reveal_strlit("__geoms.push(Geometry::from_wkb(bytes)");
        assert(("__geoms.push(Geometry::from_wk"@ + ("b(bytes)"@ + rest)) =~= part + rest);
        assert(before + ("    "@ + (part + rest)) =~= (before + "    "@) + (part + rest));
        words::lemma_piece_between(before + "    "@, part, rest);
    }
}

proof fn lemma_window_call(
    i: Seq<char>,
    module: Seq<char>,
    func: Seq<char>,
    call_extras_lit: Seq<char>,
    map_err: Seq<char>,
)
    ensures
        words::has_piece(
            text::fill(
                t::WINDOW_CALL@,
                seq![("i"@, i), ("module"@, module), ("func"@, func), ("call_extras_lit"@, call_extras_lit), ("map_err"@, map_err)],
            ),
            "let __geom_refs: Vec<&Geometry> = __geoms.iter().collect();"@,
        ),
        words::has_piece(
            text::fill(
                t::WINDOW_CALL@,
                seq![("i"@, i), ("module"@, module), ("func"@, func), ("call_extras_lit"@, call_extras_lit), ("map_err"@, map_err)],
            ),
            "let __labels = "@ + module + "::"@ + func + "(&__geom_refs"@ + call_extras_lit + ")"@
                + map_err + ";"@,
        ),
{
    let s = t::WINDOW_CALL@;
    reveal_strlit(r#"{i}let __geom_refs: Vec<&Geometry> = __geoms.iter().collect();
{i}let __labels = {module}::{func}(&__geom_refs{call_extras_lit}){map_err};
"#);
    reveal_with_fuel(text::plain_to, 31);
    let b = seq![("i"@, i), ("module"@, module), ("func"@, func), ("call_extras_lit"@, call_extras_lit), ("map_err"@, map_err)];
    lemma_holes_i_module_func_call_extras_lit_map_err(i, module, func, call_extras_lit, map_err);
    assert(words::has_piece(
        text::fill(t::WINDOW_CALL@, b),
        "let __geom_refs: Vec<&Geometry> = __geoms.iter().collect();"@,
    )) by {
        let before = text::lemma_fill_reaches(s, b, 3);
        reveal_strlit("let __geom_refs: Vec<&Geometry");
        assert(s.subrange(3, 33) =~= "let __geom_refs: Vec<&Geometry"@);
        text::lemma_fill_run(s, b, 3, "let __geom_refs: Vec<&Geometry"@);
        reveal_strlit("> = __geoms.iter().collect();");
        assert(s.subrange(33, 62) =~= "> = __geoms.iter().collect();"@);
        text::lemma_fill_run(s, b, 33, "> = __geoms.iter().collect();"@);
        let rest = text::fill_from(s, b, 62);
        let part = "let __geom_refs: Vec<&Geometry> = __geoms.iter().collect();"@;
        reveal_strlit("let __geom_refs: Vec<&Geometry> = __geoms.iter().collect();");
        assert(("let __geom_refs: Vec<&Geometry"@ + ("> = __geoms.iter().collect();"@ + rest))
            =~= part + rest);
        words::lemma_piece_between(before, part, rest);
    }
    assert(words::has_piece(
        text::fill(t::WINDOW_CALL@, b),
        "let __labels = "@ + module + "::"@ + func + "(&__geom_refs"@ + call_extras_lit + ")"@
            + map_err + ";"@,
    )) by {
        let before = text::lemma_fill_reaches(s, b, 66);
        reveal_strlit("let __labels = ");
        assert(s.subrange(66, 81) =~= "let __labels = "@);
        text::lemma_fill_run(s, b, 66, "let __labels = "@);
        reveal_strlit("module");
        assert(s.subrange(82, 88) =~= "module"@);
        text::lemma_fill_hole(s, b, 81, "module"@);
        reveal_strlit("::");
        assert(s.subrange(89, 91) =~= "::"@);
        text::lemma_fill_run(s, b, 89, "::"@);
        reveal_strlit("func");
        assert(s.subrange(92, 96) =~= "func"@);
        text::lemma_fill_hole(s, b, 91, "func"@);
        reveal_strlit("(&__geom_refs");
        assert(s.subrange(97, 110) =~= "(&__geom_refs"@);
        text::lemma_fill_run(s, b, 97, "(&__geom_refs"@);
        reveal_strlit("call_extras_lit");
        assert(s.subrange(111, 126) =~= "call_extras_lit"@);
        text::lemma_fill_hole(s, b, 110, "call_extras_lit"@);
        reveal_strlit(")");
        assert(s.subrange(127, 128) =~= ")"@);
        text::lemma_fill_run(s, b, 127, ")"@);
        reveal_strlit("map_err");
        assert(s.subrange(129, 136) =~= "map_err"@);
        text::lemma_fill_hole(s, b, 128, "map_err"@);
        reveal_strlit(";");
        assert(s.subrange(137, 138) =~= ";"@);
        text::lemma_fill_run(s, b, 137, ";"@);
        let rest = text::fill_from(s, b, 138);
        let part = "let __labels = "@ + module + "::"@ + func + "(&__geom_refs"@ + call_extras_lit + ")"@
            + map_err + ";"@;
        assert((
            "let __labels = "@
                + (
                    module
                        + (
                            "::"@
                                + (
                                    func
                                        + (
                                            "(&__geom_refs"@
                                                + (
                                                    call_extras_lit
                                                        + (")"@ + (map_err + (";"@ + rest)))
                                                )
                                        )
                                )
                        )
                )
        )
            =~= part + rest);
        words::lemma_piece_between(before, part, rest);
    }
}

proof fn lemma_window_map_err(sql_name: Seq<char>)
    ensures
        text::fill(t::WINDOW_MAP_ERR@, seq![("sql_name"@, sql_name)])
            == ".map_err(|e| types::Duckerror::Invalidargument(format!(\""@ + sql_name
                + ": {}\", postgis_err_string(e))))?"@,
{
    let s = t::WINDOW_MAP_ERR@;
    let b = seq![("sql_name"@, sql_name)];
    reveal_strlit(".map_err(|e| types::Duckerror::Invalidargument(format!(\"{sql_name}: {{}}\", postgis_err_string(e))))?");
    reveal_with_fuel(text::plain_to, 31);
    lemma_holes_sql_name(sql_name);
    reveal_strlit(".map_err(|e| types::Duckerror:");
    assert(s.subrange(0, 30) =~= ".map_err(|e| types::Duckerror:"@);
    text::lemma_fill_run(s, b, 0, ".map_err(|e| types::Duckerror:"@);
    reveal_strlit(":Invalidargument(format!(\"");
    assert(s.subrange(30, 56) =~= ":Invalidargument(format!(\""@);
    text::lemma_fill_run(s, b, 30, ":Invalidargument(format!(\""@);
    reveal_strlit("sql_name");
    assert(s.subrange(57, 65) =~= "sql_name"@);
    text::lemma_fill_hole(s, b, 56, "sql_name"@);
    reveal_strlit(": ");
    assert(s.subrange(66, 68) =~= ": "@);
    text::lemma_fill_run(s, b, 66, ": "@);
    assert(text::fill_from(s, b, 68) == seq!['{'] + text::fill_from(s, b, 70));
    assert(text::fill_from(s, b, 70) == seq!['}'] + text::fill_from(s, b, 72));
    reveal_strlit("\", postgis_err_string(e))))?");
    assert(s.subrange(72, 100) =~= "\", postgis_err_string(e))))?"@);
    text::lemma_fill_run(s, b, 72, "\", postgis_err_string(e))))?"@);
    reveal_strlit(".map_err(|e| types::Duckerror::Invalidargument(format!(\"");
    reveal_strlit(": {}\", postgis_err_string(e))))?");
    assert((
        ".map_err(|e| types::Duckerror:"@
            + (
                ":Invalidargument(format!(\""@
                    + (
                        sql_name
                            + (
                                ": "@
                                    + (
                                        seq!['{']
                                            + (
                                                seq!['}']
                                                    + (
                                                        "\", postgis_err_string(e))))?"@
                                                            + text::fill_from(s, b, 100)
                                                    )
                                            )
                                    )
                            )
                    )
            )
    )
        =~= ".map_err(|e| types::Duckerror::Invalidargument(format!(\""@ + sql_name
            + ": {}\", postgis_err_string(e))))?"@);
}

proof fn lemma_window_pick(i: Seq<char>)
    ensures
        words::has_piece(
            text::fill(t::WINDOW_PICK@, seq![("i"@, i)]),
            "let __e = (frame.end as usize).saturating_sub(1);"@,
        ),
        words::has_piece(
            text::fill(t::WINDOW_PICK@, seq![("i"@, i)]),
            "core::cmp::min(__e, __labels.len() - 1)"@,
        ),
{
    let s = t::WINDOW_PICK@;
    reveal_strlit(r#"{i}if __labels.is_empty() {{ return Ok(types::Duckvalue::Null); }}
{i}let __row_ix = if frame.end == 0 {{ 0usize }} else {{
{i}    let __e = (frame.end as usize).saturating_sub(1);
{i}    core::cmp::min(__e, __labels.len() - 1)
{i}}};
"#);
    reveal_with_fuel(text::plain_to, 31);
    let b = seq![("i"@, i)];
    lemma_holes_i(i);
    assert(words::has_piece(
        text::fill(t::WINDOW_PICK@, b),
        "let __e = (frame.end as usize).saturating_sub(1);"@,
    )) by {
        let before = text::lemma_fill_reaches(s, b, 127);
        reveal_strlit("    ");
        assert(s.subrange(127, 131) =~= "    "@);
        text::lemma_fill_run(s, b, 127, "    "@);
        reveal_strlit("let __e = (frame.end as usize)");
        assert(s.subrange(131, 161) =~= "let __e = (frame.end as usize)"@);
        text::lemma_fill_run(s, b, 131, "let __e = (frame.end as usize)"@);
        reveal_strlit(".saturating_sub(1);");
        assert(s.subrange(161, 180) =~= ".saturating_sub(1);"@);
        text::lemma_fill_run(s, b, 161, ".saturating_sub(1);"@);
        let rest = text::fill_from(s, b, 180);
        let part = "let __e = (frame.end as usize).saturating_sub(1);"@;
        reveal_strlit("let __e = (frame.end as usize).saturating_sub(1);");
        assert(("let __e = (frame.end as usize)"@ + (".saturating_sub(1);"@ + rest)) =~= part + rest);
        assert(before + ("    "@ + (part + rest)) =~= (before + "    "@) + (part + rest));
        words::lemma_piece_between(before + "    "@, part, rest);
    }
    assert(words::has_piece(text::fill(t::WINDOW_PICK@, b), "core::cmp::min(__e, __labels.len() - 1)"@)) by {
        let before = text::lemma_fill_reaches(s, b, 184);
        reveal_strlit("    ");
        assert(s.subrange(184, 188) =~= "    "@);
        text::lemma_fill_run(s, b, 184, "    "@);
        reveal_strlit("core::cmp::min(__e, __labels.l");
        assert(s.subrange(188, 218) =~= "core::cmp::min(__e, __labels.l"@);
        text::lemma_fill_run(s, b, 188, "core::cmp::min(__e, __labels.l"@);
        reveal_strlit("en() - 1)");
        assert(s.subrange(218, 227) =~= "en() - 1)"@);
        text::lemma_fill_run(s, b, 218, "en() - 1)"@);
        let rest = text::fill_from(s, b, 227);
        let part = "core::cmp::min(__e, __labels.len() - 1)"@;
        reveal_strlit("core::cmp::min(__e, __labels.len() - 1)");
        assert(("core::cmp::min(__e, __labels.l"@ + ("en() - 1)"@ + rest)) =~= part + rest);
        assert(before + ("    "@ + (part + rest)) =~= (before + "    "@) + (part + rest));
        words::lemma_piece_between(before + "    "@, part, rest);
    }
}

proof fn lemma_window_ret_option(i: Seq<char>)
    ensures
        words::has_piece(
            text::fill(t::WINDOW_RET_OPTION@, seq![("i"@, i)]),
            "match __labels[__row_ix] "@,
        ),
        words::has_piece(text::fill(t::WINDOW_RET_OPTION@, seq![("i"@, i)]), "Some(__id) => Ok("@),
{
    let s = t::WINDOW_RET_OPTION@;
    reveal_strlit(r#"{i}match __labels[__row_ix] {{
{i}    Some(__id) => Ok("#);
    reveal_with_fuel(text::plain_to, 31);
    let b = seq![("i"@, i)];
    lemma_holes_i(i);
    assert(words::has_piece(text::fill(t::WINDOW_RET_OPTION@, b), "match __labels[__row_ix] "@)) by {
        let before = text::lemma_fill_reaches(s, b, 3);
        reveal_strlit("match __labels[__row_ix] ");
        assert(s.subrange(3, 28) =~= "match __labels[__row_ix] "@);
        text::lemma_fill_run(s, b, 3, "match __labels[__row_ix] "@);
        let rest = text::fill_from(s, b, 28);
        let part = "match __labels[__row_ix] "@;
        words::lemma_piece_between(before, part, rest);
    }
    assert(words::has_piece(text::fill(t::WINDOW_RET_OPTION@, b), "Some(__id) => Ok("@)) by {
        let before = text::lemma_fill_reaches(s, b, 34);
        reveal_strlit("    ");
        assert(s.subrange(34, 38) =~= "    "@);
        text::lemma_fill_run(s, b, 34, "    "@);
        reveal_strlit("Some(__id) => Ok(");
        assert(s.subrange(38, 55) =~= "Some(__id) => Ok("@);
        text::lemma_fill_run(s, b, 38, "Some(__id) => Ok("@);
        let rest = text::fill_from(s, b, 55);
        let part = "Some(__id) => Ok("@;
        assert(before + ("    "@ + (part + rest)) =~= (before + "    "@) + (part + rest));
        words::lemma_piece_between(before + "    "@, part, rest);
    }
}

proof fn lemma_window_ret_option_end(i: Seq<char>)
    ensures
        words::has_piece(
            text::fill(t::WINDOW_RET_OPTION_END@, seq![("i"@, i)]),
            "None => Ok(types::Duckvalue::Null)"@,
        ),
{
    let s = t::WINDOW_RET_OPTION_END@;
    reveal_strlit(r#"),
{i}    None => Ok(types::Duckvalue::Null),
{i}}}
"#);
    reveal_with_fuel(text::plain_to, 31);
    let b = seq![("i"@, i)];
    lemma_holes_i(i);
    assert(words::has_piece(
        text::fill(t::WINDOW_RET_OPTION_END@, b),
        "None => Ok(types::Duckvalue::Null)"@,
    )) by {
        let before = text::lemma_fill_reaches(s, b, 6);
        reveal_strlit("    ");
        assert(s.subrange(6, 10) =~= "    "@);
        text::lemma_fill_run(s, b, 6, "    "@);
        reveal_strlit("None => Ok(types::Duckvalue::N");
        assert(s.subrange(10, 40) =~= "None => Ok(types::Duckvalue::N"@);
        text::lemma_fill_run(s, b, 10, "None => Ok(types::Duckvalue::N"@);
        reveal_strlit("ull)");
        assert(s.subrange(40, 44) =~= "ull)"@);
        text::lemma_fill_run(s, b, 40, "ull)"@);
        let rest = text::fill_from(s, b, 44);
        let part = "None => Ok(types::Duckvalue::Null)"@;
        reveal_strlit("None => Ok(types::Duckvalue::Null)");
        assert(("None => Ok(types::Duckvalue::N"@ + ("ull)"@ + rest)) =~= part + rest);
        assert(before + ("    "@ + (part + rest)) =~= (before + "    "@) + (part + rest));
        words::lemma_piece_between(before + "    "@, part, rest);
    }
}

} // verus!
