//! What the arms of virtual tables do: how they read their arguments, which function they call,
//! and which values the rows hold.

use vstd::prelude::*;
use vstd::string::*;

use crate::ir::{
    ColumnAffinity, ParamShape, UdtfEntry, UdtfField, UdtfFieldShape, UdtfOutputRow, UdtfShape,
};
use crate::sqlite::emit_vtab;
use crate::sqlite::lib_templates as t;
use crate::sqlite::vtab;
use crate::text;
use crate::words;

verus! {

// ─── Arguments ───

/// The declaration of argument `idx` of a table reads the value at `idx` with the reader of its
/// shape, into the type of the shape.
pub proof fn law_table_argument_readings(p: ParamShape, idx: nat, name: Seq<char>, i: Seq<char>)
    ensures
        ({
            let s = emit_vtab::table_decl(p, idx, name, i);
            let d = words::decimal(idx);
            match p {
                ParamShape::Geom => words::has_piece(
                    s,
                    "let arg"@ + d + " = from_wkb(arg_blob(&args, "@ + d + ", \""@ + name
                        + "\")?, \""@ + name + "\")?;"@,
                ),
                ParamShape::F64 => words::has_piece(
                    s,
                    "let arg"@ + d + " = arg_f64(&args, "@ + d + ", \""@ + name + "\")?;"@,
                ),
                ParamShape::S32 => words::has_piece(
                    s,
                    "let arg"@ + d + " = arg_i64(&args, "@ + d + ", \""@ + name + "\")? as i32;"@,
                ),
                ParamShape::S64 => words::has_piece(
                    s,
                    "let arg"@ + d + " = arg_i64(&args, "@ + d + ", \""@ + name + "\")?;"@,
                ),
                ParamShape::U32 => words::has_piece(
                    s,
                    "let arg"@ + d + " = arg_i64(&args, "@ + d + ", \""@ + name + "\")? as u32;"@,
                ),
                ParamShape::U64 => words::has_piece(
                    s,
                    "let arg"@ + d + " = arg_i64(&args, "@ + d + ", \""@ + name + "\")? as u64;"@,
                ),
                ParamShape::Bool => words::has_piece(
                    s,
                    "let arg"@ + d + " = arg_i64(&args, "@ + d + ", \""@ + name + "\")? != 0;"@,
                ),
                ParamShape::Blob => words::has_piece(
                    s,
                    "let arg"@ + d + " = arg_blob(&args, "@ + d + ", \""@ + name + "\")?;"@,
                ),
                ParamShape::WitValueRecord { kebab_name, .. } => words::has_piece(
                    s,
                    "let arg"@ + d + " = arg_witvalue_"@ + words::snake(kebab_name@) + "(&args, "@
                        + d + ", \""@ + name + "\")?;"@,
                ),
                ParamShape::ListRecord { kebab_name } => words::has_piece(
                    s,
                    "let arg"@ + d + " = parse_json_list_record_"@ + words::snake(kebab_name@)
                        + "(&args, "@ + d + ", \""@ + name + "\")?;"@,
                ),
                ParamShape::OptionNone => s.len() == 0,
                _ => !emit_vtab::table_param_wired(p),
            }
        }),
{
    let d = words::decimal(idx);
    match p {
        ParamShape::Geom => lemma_table_geom(i, d, name),
        ParamShape::F64 => lemma_table_f64(i, d, name),
        ParamShape::S32 => lemma_table_s32(i, d, name),
        ParamShape::S64 => lemma_table_s64(i, d, name),
        ParamShape::U32 => lemma_table_u32(i, d, name),
        ParamShape::U64 => lemma_table_u64(i, d, name),
        ParamShape::Bool => lemma_table_bool(i, d, name),
        ParamShape::Blob => lemma_table_blob(i, d, name),
        ParamShape::WitValueRecord { kebab_name, .. } => lemma_table_wit_value(i, d, name, words::snake(kebab_name@)),
        ParamShape::ListRecord { kebab_name } => lemma_table_list_record(i, d, name, words::snake(kebab_name@)),
        _ => {},
    }
}

/// Whether table functions take all parameters of an entry.
pub open spec fn params_wired(entry: UdtfEntry) -> bool {
    forall|k: int|
        0 <= k < entry.shape.params@.len() ==> emit_vtab::table_param_wired(
            #[trigger] entry.shape.params@[k],
        )
}

proof fn lemma_all_wired(params: Seq<ParamShape>, k: int)
    requires
        0 <= k <= params.len(),
        forall|j: int| 0 <= j < params.len() ==> emit_vtab::table_param_wired(#[trigger] params[j]),
    ensures
        emit_vtab::unwired_param_from(params, k) == params.len(),
    decreases params.len() - k,
{
    if k < params.len() {
        lemma_all_wired(params, k + 1);
    }
}

proof fn lemma_declared(params: Seq<ParamShape>, name: Seq<char>, i: Seq<char>, n: nat, k: int)
    requires
        0 <= k < n <= params.len(),
    ensures
        words::has_piece(
            emit_vtab::table_decls(params, name, i, n),
            emit_vtab::table_decl(params[k], k as nat, name, i),
        ),
    decreases n,
{
    let before = emit_vtab::table_decls(params, name, i, (n - 1) as nat);
    let decl = emit_vtab::table_decl(params[n - 1], (n - 1) as nat, name, i);
    if k == n - 1 {
        words::lemma_piece_added(before, decl);
    } else {
        lemma_declared(params, name, i, (n - 1) as nat, k);
        words::lemma_pieces_kept(before, decl);
    }
}

/// Reading a table declares each argument at its own position, then calls the function of the
/// table with all arguments in their order, and turns what it yields into rows. Geometries and
/// lists are handed over by reference, a record as its function takes it, and all others by value.
/// The error of a function that can fail carries the name of the table.
pub proof fn law_table_read(entry: UdtfEntry, i: Seq<char>, args: Seq<Seq<char>>, k: int)
    requires
        params_wired(entry),
        args.len() == entry.shape.params@.len(),
        forall|j: int|
            0 <= j < args.len() ==> #[trigger] args[j] == match entry.shape.params@[j] {
                ParamShape::OptionNone => "None"@,
                ParamShape::Geom | ParamShape::ListRecord { .. } => "&arg"@ + words::decimal(
                    j as nat,
                ),
                ParamShape::WitValueRecord { upstream_by_value, .. } => if upstream_by_value {
                    "arg"@ + words::decimal(j as nat)
                } else {
                    "&arg"@ + words::decimal(j as nat)
                },
                _ => "arg"@ + words::decimal(j as nat),
            },
    ensures
        ({
            let s = emit_vtab::filter_body(entry, i);
            &&& 0 <= k < args.len() ==> words::has_piece(
                s,
                emit_vtab::table_decl(entry.shape.params@[k], k as nat, entry.sql_name@, i),
            )
            &&& words::has_piece(
                s,
                "let __upstream = "@ + entry.shape.wit_module@ + "::"@ + entry.shape.wit_func@
                    + "("@ + words::joined(args, ", "@) + ")"@,
            )
            &&& entry.shape.fallible ==> words::has_piece(s, ".map_err(|e| format!(\""@ + entry.sql_name@ + ": "@)
            &&& !entry.shape.fallible ==> words::has_piece(
                s,
                "let __upstream = "@ + entry.shape.wit_module@ + "::"@ + entry.shape.wit_func@
                    + "("@ + words::joined(args, ", "@) + ");"@,
            )
            &&& words::has_piece(
                s,
                emit_vtab::rows(entry.shape.output_row, i, entry.sql_name@),
            )
        }),
{
    let params = entry.shape.params@;
    let name = entry.sql_name@;
    lemma_all_wired(params, 0);
    assert(emit_vtab::table_args(params) =~= args);
    lemma_call_pieces(entry, i, args);
    lemma_body_pieces(entry, i);
    if 0 <= k < args.len() {
        lemma_declared(params, name, i, params.len(), k);
    }
}

/// What the declarations, the call and the rows hold, the whole body holds.
proof fn lemma_body_pieces(entry: UdtfEntry, i: Seq<char>)
    requires
        params_wired(entry),
    ensures
        ({
            let s = emit_vtab::filter_body(entry, i);
            let params = entry.shape.params@;
            let decls = emit_vtab::table_decls(params, entry.sql_name@, i, params.len());
            &&& forall|p: Seq<char>| #[trigger] words::has_piece(decls, p) ==> words::has_piece(s, p)
            &&& forall|p: Seq<char>| #[trigger]
                words::has_piece(emit_vtab::table_call(entry, i), p) ==> words::has_piece(s, p)
            &&& words::has_piece(
                s,
                emit_vtab::rows(entry.shape.output_row, i, entry.sql_name@),
            )
        }),
{
    let params = entry.shape.params@;
    lemma_all_wired(params, 0);
    let decls = emit_vtab::table_decls(params, entry.sql_name@, i, params.len());
    let call = emit_vtab::table_call(entry, i);
    let rows = emit_vtab::rows(entry.shape.output_row, i, entry.sql_name@);
    let store = text::fill(t::TABLE_STORE@, seq![("i"@, i)]);
    assert forall|p: Seq<char>| #[trigger] words::has_piece(decls, p) implies words::has_piece(
        decls + call + rows + store,
        p,
    ) by {
        words::lemma_piece_kept(decls, call, p);
        words::lemma_piece_kept(decls + call, rows, p);
        words::lemma_piece_kept(decls + call + rows, store, p);
    }
    assert forall|p: Seq<char>| #[trigger] words::has_piece(call, p) implies words::has_piece(
        decls + call + rows + store,
        p,
    ) by {
        words::lemma_piece_moved(decls, call, p);
        words::lemma_piece_kept(decls + call, rows, p);
        words::lemma_piece_kept(decls + call + rows, store, p);
    }
    words::lemma_piece_added(decls + call, rows);
    words::lemma_piece_kept(decls + call + rows, store, rows);
}

proof fn lemma_call_pieces(entry: UdtfEntry, i: Seq<char>, args: Seq<Seq<char>>)
    requires
        emit_vtab::table_args(entry.shape.params@) == args,
    ensures
        ({
            let s = emit_vtab::table_call(entry, i);
            &&& words::has_piece(
                s,
                "let __upstream = "@ + entry.shape.wit_module@ + "::"@ + entry.shape.wit_func@
                    + "("@ + words::joined(args, ", "@) + ")"@,
            )
            &&& entry.shape.fallible ==> words::has_piece(s, ".map_err(|e| format!(\""@ + entry.sql_name@ + ": "@)
            &&& !entry.shape.fallible ==> words::has_piece(
                s,
                "let __upstream = "@ + entry.shape.wit_module@ + "::"@ + entry.shape.wit_func@
                    + "("@ + words::joined(args, ", "@) + ");"@,
            )
        }),
{
    let name = entry.sql_name@;
    let joined = words::joined(args, ", "@);
    if entry.shape.fallible {
        lemma_table_call_fallible(i, entry.shape.wit_module@, entry.shape.wit_func@, joined, name);
    } else {
        lemma_table_call(i, entry.shape.wit_module@, entry.shape.wit_func@, joined);
        let whole = "let __upstream = "@ + entry.shape.wit_module@ + "::"@ + entry.shape.wit_func@ + "("@
            + joined + ");"@;
        let part = "let __upstream = "@ + entry.shape.wit_module@ + "::"@ + entry.shape.wit_func@ + "("@
            + joined + ")"@;
        reveal_strlit(")");
        reveal_strlit(";");
        reveal_strlit(");");
        assert(")"@ + ";"@ =~= ");"@);
        assert(whole =~= Seq::<char>::empty() + (part + ";"@));
        words::lemma_piece_between(Seq::empty(), part, ";"@);
        words::lemma_piece_of_piece(emit_vtab::table_call(entry, i), whole, part);
    }
}

/// A table with a parameter of a shape that table functions do not take answers with an error.
pub proof fn law_table_refused(entry: UdtfEntry, i: Seq<char>)
    requires
        !params_wired(entry),
    ensures
        words::has_piece(emit_vtab::filter_body(entry, i), "UDTF param shape not yet wired ("@),
{
    let params = entry.shape.params@;
    let j = emit_vtab::unwired_param_from(params, 0);
    lemma_some_unwired(params, 0);
    lemma_table_unwired(
        i,
        entry.sql_name@,
        emit_vtab::in_format(crate::describe::param_words(params[j])),
    );
}

proof fn lemma_some_unwired(params: Seq<ParamShape>, k: int)
    requires
        0 <= k <= params.len(),
        exists|j: int|
            k <= j < params.len() && !emit_vtab::table_param_wired(#[trigger] params[j]),
    ensures
        emit_vtab::unwired_param_from(params, k) < params.len(),
    decreases params.len() - k,
{
    if k < params.len() && emit_vtab::table_param_wired(params[k]) {
        lemma_some_unwired(params, k + 1);
    }
}

// ─── Rows ───

/// The value of a field of a row whose name in the code is `name`: integers, real numbers, texts
/// and blobs each have their own kind of SQL value, a missing field is null, and one that cannot
/// be handed on is always null.
pub open spec fn field_value(shape: UdtfFieldShape, name: Seq<char>) -> Seq<char> {
    match shape {
        UdtfFieldShape::Int => "SqlValue::Integer(__row."@ + name + " as i64)"@,
        UdtfFieldShape::Real => "SqlValue::Real(__row."@ + name + " as f64)"@,
        UdtfFieldShape::Text => "SqlValue::Text(__row."@ + name + ".clone())"@,
        UdtfFieldShape::Blob => "SqlValue::Blob(__row."@ + name + ".clone())"@,
        UdtfFieldShape::GeomBlob => "SqlValue::Blob(__row."@ + name + ".as_wkb())"@,
        UdtfFieldShape::OptionInt => "match &__row."@ + name
            + " { Some(v) => SqlValue::Integer(*v as i64), None => SqlValue::Null }"@,
        UdtfFieldShape::OptionReal => "match &__row."@ + name
            + " { Some(v) => SqlValue::Real(*v as f64), None => SqlValue::Null }"@,
        UdtfFieldShape::OptionText => "match &__row."@ + name
            + " { Some(v) => SqlValue::Text(v.clone()), None => SqlValue::Null }"@,
        UdtfFieldShape::OptionBlob => "match &__row."@ + name
            + " { Some(v) => SqlValue::Blob(v.clone()), None => SqlValue::Null }"@,
        UdtfFieldShape::OptionGeomBlob => "match &__row."@ + name
            + " { Some(v) => SqlValue::Blob(v.as_wkb()), None => SqlValue::Null }"@,
        UdtfFieldShape::Unsupported => "SqlValue::Null"@,
    }
}

/// The line of a field in the list of a row.
pub open spec fn field_line(f: UdtfField, i: Seq<char>) -> Seq<char> {
    i + "            "@ + field_value(f.field_shape, words::snake(f.name@)) + ",\n"@
}

proof fn lemma_field_value(shape: UdtfFieldShape, name: Seq<char>)
    ensures
        text::fill(emit_vtab::field_template(shape), seq![("fsnake"@, name)]) == field_value(
            shape,
            name,
        ),
{
    match shape {
        UdtfFieldShape::Int => lemma_field_int(name),
        UdtfFieldShape::Real => lemma_field_real(name),
        UdtfFieldShape::Text => lemma_field_text(name),
        UdtfFieldShape::Blob => lemma_field_blob(name),
        UdtfFieldShape::GeomBlob => lemma_field_geom(name),
        UdtfFieldShape::OptionInt => lemma_field_option_int(name),
        UdtfFieldShape::OptionReal => lemma_field_option_real(name),
        UdtfFieldShape::OptionText => lemma_field_option_text(name),
        UdtfFieldShape::OptionBlob => lemma_field_option_blob(name),
        UdtfFieldShape::OptionGeomBlob => lemma_field_option_geom(name),
        UdtfFieldShape::Unsupported => {
            reveal_strlit("SqlValue::Null");
            text::law_fill_without_braces("SqlValue::Null"@, seq![("fsnake"@, name)]);
        },
    }
}

proof fn lemma_last_line(fields: Seq<UdtfField>, i: Seq<char>, n: nat)
    requires
        0 < n <= fields.len(),
    ensures
        emit_vtab::field_lines(fields, i, n) == emit_vtab::field_lines(fields, i, (n - 1) as nat)
            + field_line(fields[n - 1], i),
{
    let f = fields[n - 1];
    lemma_field_value(f.field_shape, words::snake(f.name@));
    lemma_field_line(i, field_value(f.field_shape, words::snake(f.name@)));
}

proof fn lemma_lines(fields: Seq<UdtfField>, i: Seq<char>, n: nat, k: int)
    requires
        0 <= k < n <= fields.len(),
    ensures
        words::has_piece(emit_vtab::field_lines(fields, i, n), field_line(fields[k], i)),
        k + 1 < n ==> words::has_piece(
            emit_vtab::field_lines(fields, i, n),
            field_line(fields[k], i) + field_line(fields[k + 1], i),
        ),
    decreases n,
{
    lemma_last_line(fields, i, n);
    let before = emit_vtab::field_lines(fields, i, (n - 1) as nat);
    let last = field_line(fields[n - 1], i);
    if k == n - 1 {
        words::lemma_piece_added(before, last);
    } else {
        lemma_lines(fields, i, (n - 1) as nat, k);
        words::lemma_pieces_kept(before, last);
        if k == n - 2 {
            lemma_last_line(fields, i, (n - 1) as nat);
            let start = emit_vtab::field_lines(fields, i, (n - 2) as nat);
            let line = field_line(fields[k], i);
            assert(start + line + last =~= start + (line + last));
            words::lemma_piece_added(start, line + last);
        }
    }
}

/// A row holds the values of its fields in the order of the fields: the value of each field is
/// made by its shape, and stands right before that of the next. A row of one geometry holds a
/// blob, and a row of one plain value the kind of SQL value of its affinity.
pub proof fn law_row_values(row: UdtfOutputRow, i: Seq<char>, name: Seq<char>, k: int)
    ensures
        ({
            let s = emit_vtab::rows(row, i, name);
            match row {
                UdtfOutputRow::SingleGeom { .. } => words::has_piece(s, ".map(|g| alloc::vec![SqlValue::Blob(g.as_wkb())])"@),
                UdtfOutputRow::SinglePrimitive { affinity } => match affinity {
                    ColumnAffinity::Integer => words::has_piece(s, ".map(|v| alloc::vec![SqlValue::Integer(*v as i64)])"@),
                    ColumnAffinity::Real => words::has_piece(s, ".map(|v| alloc::vec![SqlValue::Real(*v as f64)])"@),
                    ColumnAffinity::Text => words::has_piece(s, ".map(|v| alloc::vec![SqlValue::Text(v.clone())])"@),
                    ColumnAffinity::Blob => words::has_piece(s, ".map(|v| alloc::vec![SqlValue::Blob(v.clone())])"@),
                },
                UdtfOutputRow::Record { fields } => {
                    &&& 0 <= k < fields@.len() ==> words::has_piece(s, field_line(fields@[k], i))
                    &&& 0 <= k < fields@.len() - 1 ==> words::has_piece(
                        s,
                        field_line(fields@[k], i) + field_line(fields@[k + 1], i),
                    )
                    &&& fields@.len() == 1 ==> words::has_piece(
                        s,
                        ".map(|__row| alloc::vec![\n"@ + field_line(fields@[0], i) + i
                            + "        ])"@,
                    )
                },
                UdtfOutputRow::Unwired { reason } => words::has_piece(
                    s,
                    "UDTF output row not classifiable: "@ + words::escaped(reason@),
                ),
            }
        }),
{
    match row {
        UdtfOutputRow::SingleGeom { .. } => lemma_rows_geom(i),
        UdtfOutputRow::SinglePrimitive { affinity } => {
            lemma_rows_primitive(i, emit_vtab::cell(affinity));
            match affinity {
                ColumnAffinity::Integer => {
                    reveal_strlit(".map(|v| alloc::vec![");
                    reveal_strlit("SqlValue::Integer(*v as i64)");
                    reveal_strlit("])");
                    reveal_strlit(".map(|v| alloc::vec![SqlValue::Integer(*v as i64)])");
                    assert(".map(|v| alloc::vec!["@ + "SqlValue::Integer(*v as i64)"@ + "])"@
                        =~= ".map(|v| alloc::vec![SqlValue::Integer(*v as i64)])"@);
                },
                ColumnAffinity::Real => {
                    reveal_strlit(".map(|v| alloc::vec![");
                    reveal_strlit("SqlValue::Real(*v as f64)");
                    reveal_strlit("])");
                    reveal_strlit(".map(|v| alloc::vec![SqlValue::Real(*v as f64)])");
                    assert(".map(|v| alloc::vec!["@ + "SqlValue::Real(*v as f64)"@ + "])"@
                        =~= ".map(|v| alloc::vec![SqlValue::Real(*v as f64)])"@);
                },
                ColumnAffinity::Text => {
                    reveal_strlit(".map(|v| alloc::vec![");
                    reveal_strlit("SqlValue::Text(v.clone())");
                    reveal_strlit("])");
                    reveal_strlit(".map(|v| alloc::vec![SqlValue::Text(v.clone())])");
                    assert(".map(|v| alloc::vec!["@ + "SqlValue::Text(v.clone())"@ + "])"@
                        =~= ".map(|v| alloc::vec![SqlValue::Text(v.clone())])"@);
                },
                ColumnAffinity::Blob => {
                    reveal_strlit(".map(|v| alloc::vec![");
                    reveal_strlit("SqlValue::Blob(v.clone())");
                    reveal_strlit("])");
                    reveal_strlit(".map(|v| alloc::vec![SqlValue::Blob(v.clone())])");
                    assert(".map(|v| alloc::vec!["@ + "SqlValue::Blob(v.clone())"@ + "])"@
                        =~= ".map(|v| alloc::vec![SqlValue::Blob(v.clone())])"@);
                },
            }
        },
        UdtfOutputRow::Record { fields } => {
            let lines = emit_vtab::field_lines(fields@, i, fields@.len());
            lemma_rows_record(i, lines);
            let start = ".map(|__row| alloc::vec![\n"@;
            let end = i + "        ])"@;
            assert(start + lines + i + "        ])"@ =~= start + (lines + end));
            words::lemma_piece_between(start, lines, end);
            words::lemma_pieces_of_piece(emit_vtab::rows(row, i, name), start + (lines + end));
            words::lemma_pieces_of_piece(emit_vtab::rows(row, i, name), lines);
            if 0 <= k < fields@.len() {
                lemma_lines(fields@, i, fields@.len(), k);
            }
            if fields@.len() == 1 {
                lemma_last_line(fields@, i, 1);
                assert(lines =~= field_line(fields@[0], i));
            }
        },
        UdtfOutputRow::Unwired { reason } => lemma_rows_unwired(i, name, words::escaped(reason@)),
    }
}

/// Each field of a row is made into the SQL value of its shape: an integer for an integer, a real
/// number for a floating-point number, a text for a text, a blob for bytes and geometries, each null
/// where it is missing, and nothing but null for a field that cannot be handed on.
pub proof fn law_field_values(fields: Seq<UdtfField>, i: Seq<char>, n: nat, k: int)
    requires
        0 <= k < n <= fields.len(),
    ensures
        ({
            let s = emit_vtab::field_lines(fields, i, n);
            let name = words::snake(fields[k].name@);
            match fields[k].field_shape {
                UdtfFieldShape::Int => words::has_piece(s, "SqlValue::Integer(__row."@ + name + " as i64)"@),
                UdtfFieldShape::Real => words::has_piece(s, "SqlValue::Real(__row."@ + name + " as f64)"@),
                UdtfFieldShape::Text => words::has_piece(s, "SqlValue::Text(__row."@ + name + ".clone())"@),
                UdtfFieldShape::Blob => words::has_piece(s, "SqlValue::Blob(__row."@ + name + ".clone())"@),
                UdtfFieldShape::GeomBlob => words::has_piece(s, "SqlValue::Blob(__row."@ + name + ".as_wkb())"@),
                UdtfFieldShape::OptionInt => words::has_piece(
                    s,
                    "match &__row."@ + name
                        + " { Some(v) => SqlValue::Integer(*v as i64), None => SqlValue::Null }"@,
                ),
                UdtfFieldShape::OptionReal => words::has_piece(
                    s,
                    "match &__row."@ + name
                        + " { Some(v) => SqlValue::Real(*v as f64), None => SqlValue::Null }"@,
                ),
                UdtfFieldShape::OptionText => words::has_piece(
                    s,
                    "match &__row."@ + name
                        + " { Some(v) => SqlValue::Text(v.clone()), None => SqlValue::Null }"@,
                ),
                UdtfFieldShape::OptionBlob => words::has_piece(
                    s,
                    "match &__row."@ + name
                        + " { Some(v) => SqlValue::Blob(v.clone()), None => SqlValue::Null }"@,
                ),
                UdtfFieldShape::OptionGeomBlob => words::has_piece(
                    s,
                    "match &__row."@ + name
                        + " { Some(v) => SqlValue::Blob(v.as_wkb()), None => SqlValue::Null }"@,
                ),
                UdtfFieldShape::Unsupported => words::has_piece(s, i + "            "@ + "SqlValue::Null"@ + ",\n"@),
            }
        }),
{
    lemma_lines(fields, i, n, k);
    let value = field_value(fields[k].field_shape, words::snake(fields[k].name@));
    let before = i + "            "@;
    assert(field_line(fields[k], i) =~= before + (value + ",\n"@));
    words::lemma_piece_between(before, value, ",\n"@);
    words::lemma_piece_of_piece(
        emit_vtab::field_lines(fields, i, n),
        field_line(fields[k], i),
        value,
    );
}

// ─── Schema ───

/// The schema lists the columns of a row in their order, each with the type of its affinity, and
/// behind them the hidden columns of the arguments.
pub proof fn law_schema_lists_columns(shape: UdtfShape, parts: Seq<Seq<char>>)
    requires
        ({
            let visible = match shape.output_row {
                UdtfOutputRow::Record { fields } => fields@.len(),
                _ => 1,
            };
            &&& parts.len() == visible + shape.param_names@.len()
            &&& forall|k: int|
                0 <= k < visible ==> #[trigger] parts[k] == match shape.output_row {
                    UdtfOutputRow::SingleGeom { column_name } => "\""@ + column_name@ + "\" "@
                        + "BLOB"@,
                    UdtfOutputRow::SinglePrimitive { affinity } => "\""@ + "value"@ + "\" "@
                        + match affinity {
                        ColumnAffinity::Integer => "INTEGER"@,
                        ColumnAffinity::Real => "REAL"@,
                        ColumnAffinity::Text => "TEXT"@,
                        ColumnAffinity::Blob => "BLOB"@,
                    },
                    UdtfOutputRow::Record { fields } => "\""@ + fields@[k].name@ + "\" "@
                        + match fields@[k].affinity {
                        ColumnAffinity::Integer => "INTEGER"@,
                        ColumnAffinity::Real => "REAL"@,
                        ColumnAffinity::Text => "TEXT"@,
                        ColumnAffinity::Blob => "BLOB"@,
                    },
                    UdtfOutputRow::Unwired { .. } => "\""@ + "value"@ + "\" "@ + "BLOB"@,
                }
            &&& forall|k: int|
                visible <= k < parts.len() ==> #[trigger] parts[k] == "\""@ + vtab::column_names(
                    shape,
                )[k] + "\" "@ + "HIDDEN"@
        }),
    ensures
        vtab::schema(shape) == "CREATE TABLE x("@ + words::joined(parts, ", "@) + ")"@,
{
    vtab::law_columns_counted(shape);
    assert(vtab::columns(shape) =~= parts);
}

proof fn lemma_holes_i_idx_name(i: Seq<char>, idx: Seq<char>, name: Seq<char>)
    ensures
        ({
            let b = seq![("i"@, i), ("idx"@, idx), ("name"@, name)];
            &&& text::lookup_from(b, "i"@, 0) == i
            &&& text::lookup_from(b, "idx"@, 0) == idx
            &&& text::lookup_from(b, "name"@, 0) == name
        }),
{
    reveal_strlit("i");
    reveal_strlit("idx");
    reveal_strlit("name");
    reveal_with_fuel(text::lookup_from, 4);
    assert("i"@.len() != "idx"@.len());
    assert("i"@.len() != "name"@.len());
    assert("idx"@.len() != "name"@.len());
}

proof fn lemma_holes_i_idx_name_snake(
    i: Seq<char>,
    idx: Seq<char>,
    name: Seq<char>,
    snake: Seq<char>,
)
    ensures
        ({
            let b = seq![("i"@, i), ("idx"@, idx), ("name"@, name), ("snake"@, snake)];
            &&& text::lookup_from(b, "i"@, 0) == i
            &&& text::lookup_from(b, "idx"@, 0) == idx
            &&& text::lookup_from(b, "name"@, 0) == name
            &&& text::lookup_from(b, "snake"@, 0) == snake
        }),
{
    reveal_strlit("i");
    reveal_strlit("idx");
    reveal_strlit("name");
    reveal_strlit("snake");
    reveal_with_fuel(text::lookup_from, 5);
    assert("i"@.len() != "idx"@.len());
    assert("i"@.len() != "name"@.len());
    assert("i"@.len() != "snake"@.len());
    assert("idx"@.len() != "name"@.len());
    assert("idx"@.len() != "snake"@.len());
    assert("name"@.len() != "snake"@.len());
}

proof fn lemma_holes_i_name_shape_dbg(i: Seq<char>, name: Seq<char>, shape_dbg: Seq<char>)
    ensures
        ({
            let b = seq![("i"@, i), ("name"@, name), ("shape_dbg"@, shape_dbg)];
            &&& text::lookup_from(b, "i"@, 0) == i
            &&& text::lookup_from(b, "name"@, 0) == name
            &&& text::lookup_from(b, "shape_dbg"@, 0) == shape_dbg
        }),
{
    reveal_strlit("i");
    reveal_strlit("name");
    reveal_strlit("shape_dbg");
    reveal_with_fuel(text::lookup_from, 4);
    assert("i"@.len() != "name"@.len());
    assert("i"@.len() != "shape_dbg"@.len());
    assert("name"@.len() != "shape_dbg"@.len());
}

proof fn lemma_holes_i_module_func_call_args_str_name(
    i: Seq<char>,
    module: Seq<char>,
    func: Seq<char>,
    call_args_str: Seq<char>,
    name: Seq<char>,
)
    ensures
        ({
            let b = seq![("i"@, i), ("module"@, module), ("func"@, func), ("call_args_str"@, call_args_str), ("name"@, name)];
            &&& text::lookup_from(b, "i"@, 0) == i
            &&& text::lookup_from(b, "module"@, 0) == module
            &&& text::lookup_from(b, "func"@, 0) == func
            &&& text::lookup_from(b, "call_args_str"@, 0) == call_args_str
            &&& text::lookup_from(b, "name"@, 0) == name
        }),
{
    reveal_strlit("i");
    reveal_strlit("module");
    reveal_strlit("func");
    reveal_strlit("call_args_str");
    reveal_strlit("name");
    reveal_with_fuel(text::lookup_from, 6);
    assert("i"@.len() != "module"@.len());
    assert("i"@.len() != "func"@.len());
    assert("i"@.len() != "call_args_str"@.len());
    assert("i"@.len() != "name"@.len());
    assert("module"@.len() != "func"@.len());
    assert("module"@.len() != "call_args_str"@.len());
    assert("module"@.len() != "name"@.len());
    assert("func"@.len() != "call_args_str"@.len());
    assert("func"@[0] != "name"@[0]);
    assert("call_args_str"@.len() != "name"@.len());
}

proof fn lemma_holes_i_module_func_call_args_str(
    i: Seq<char>,
    module: Seq<char>,
    func: Seq<char>,
    call_args_str: Seq<char>,
)
    ensures
        ({
            let b = seq![("i"@, i), ("module"@, module), ("func"@, func), ("call_args_str"@, call_args_str)];
            &&& text::lookup_from(b, "i"@, 0) == i
            &&& text::lookup_from(b, "module"@, 0) == module
            &&& text::lookup_from(b, "func"@, 0) == func
            &&& text::lookup_from(b, "call_args_str"@, 0) == call_args_str
        }),
{
    reveal_strlit("i");
    reveal_strlit("module");
    reveal_strlit("func");
    reveal_strlit("call_args_str");
    reveal_with_fuel(text::lookup_from, 5);
    assert("i"@.len() != "module"@.len());
    assert("i"@.len() != "func"@.len());
    assert("i"@.len() != "call_args_str"@.len());
    assert("module"@.len() != "func"@.len());
    assert("module"@.len() != "call_args_str"@.len());
    assert("func"@.len() != "call_args_str"@.len());
}

proof fn lemma_holes_i(i: Seq<char>)
    ensures
        ({
            let b = seq![("i"@, i)];
            &&& text::lookup_from(b, "i"@, 0) == i
        }),
{
    reveal_strlit("i");
    reveal_with_fuel(text::lookup_from, 2);

}

proof fn lemma_holes_i_cell(i: Seq<char>, cell: Seq<char>)
    ensures
        ({
            let b = seq![("i"@, i), ("cell"@, cell)];
            &&& text::lookup_from(b, "i"@, 0) == i
            &&& text::lookup_from(b, "cell"@, 0) == cell
        }),
{
    reveal_strlit("i");
    reveal_strlit("cell");
    reveal_with_fuel(text::lookup_from, 3);
    assert("i"@.len() != "cell"@.len());
}

proof fn lemma_holes_i_field_exprs(i: Seq<char>, field_exprs: Seq<char>)
    ensures
        ({
            let b = seq![("i"@, i), ("field_exprs"@, field_exprs)];
            &&& text::lookup_from(b, "i"@, 0) == i
            &&& text::lookup_from(b, "field_exprs"@, 0) == field_exprs
        }),
{
    reveal_strlit("i");
    reveal_strlit("field_exprs");
    reveal_with_fuel(text::lookup_from, 3);
    assert("i"@.len() != "field_exprs"@.len());
}

proof fn lemma_holes_i_name_reason(i: Seq<char>, name: Seq<char>, reason: Seq<char>)
    ensures
        ({
            let b = seq![("i"@, i), ("name"@, name), ("reason"@, reason)];
            &&& text::lookup_from(b, "i"@, 0) == i
            &&& text::lookup_from(b, "name"@, 0) == name
            &&& text::lookup_from(b, "reason"@, 0) == reason
        }),
{
    reveal_strlit("i");
    reveal_strlit("name");
    reveal_strlit("reason");
    reveal_with_fuel(text::lookup_from, 4);
    assert("i"@.len() != "name"@.len());
    assert("i"@.len() != "reason"@.len());
    assert("name"@.len() != "reason"@.len());
}

proof fn lemma_holes_i_expr(i: Seq<char>, expr: Seq<char>)
    ensures
        ({
            let b = seq![("i"@, i), ("expr"@, expr)];
            &&& text::lookup_from(b, "i"@, 0) == i
            &&& text::lookup_from(b, "expr"@, 0) == expr
        }),
{
    reveal_strlit("i");
    reveal_strlit("expr");
    reveal_with_fuel(text::lookup_from, 3);
    assert("i"@.len() != "expr"@.len());
}

proof fn lemma_holes_fsnake(fsnake: Seq<char>)
    ensures
        ({
            let b = seq![("fsnake"@, fsnake)];
            &&& text::lookup_from(b, "fsnake"@, 0) == fsnake
        }),
{
    reveal_strlit("fsnake");
    reveal_with_fuel(text::lookup_from, 2);

}

proof fn lemma_table_geom(i: Seq<char>, idx: Seq<char>, name: Seq<char>)
    ensures
        words::has_piece(
            text::fill(t::TABLE_GEOM@, seq![("i"@, i), ("idx"@, idx), ("name"@, name)]),
            "let arg"@ + idx + " = from_wkb(arg_blob(&args, "@ + idx + ", \""@ + name + "\")?, \""@
                + name + "\")?;"@,
        ),
{
    let s = t::TABLE_GEOM@;
    reveal_strlit("{i}let arg{idx} = from_wkb(arg_blob(&args, {idx}, \"{name}\")?, \"{name}\")?;\n");
    reveal_with_fuel(text::plain_to, 31);
    let b = seq![("i"@, i), ("idx"@, idx), ("name"@, name)];
    lemma_holes_i_idx_name(i, idx, name);
    assert(words::has_piece(
        text::fill(t::TABLE_GEOM@, b),
        "let arg"@ + idx + " = from_wkb(arg_blob(&args, "@ + idx + ", \""@ + name + "\")?, \""@
            + name + "\")?;"@,
    )) by {
        let before = text::lemma_fill_reaches(s, b, 3);
        reveal_strlit("let arg");
        assert(s.subrange(3, 10) =~= "let arg"@);
        text::lemma_fill_run(s, b, 3, "let arg"@);
        reveal_strlit("idx");
        assert(s.subrange(11, 14) =~= "idx"@);
        text::lemma_fill_hole(s, b, 10, "idx"@);
        reveal_strlit(" = from_wkb(arg_blob(&args, ");
        assert(s.subrange(15, 43) =~= " = from_wkb(arg_blob(&args, "@);
        text::lemma_fill_run(s, b, 15, " = from_wkb(arg_blob(&args, "@);
        assert(s.subrange(44, 47) =~= "idx"@);
        text::lemma_fill_hole(s, b, 43, "idx"@);
        reveal_strlit(", \"");
        assert(s.subrange(48, 51) =~= ", \""@);
        text::lemma_fill_run(s, b, 48, ", \""@);
        reveal_strlit("name");
        assert(s.subrange(52, 56) =~= "name"@);
        text::lemma_fill_hole(s, b, 51, "name"@);
        reveal_strlit("\")?, \"");
        assert(s.subrange(57, 63) =~= "\")?, \""@);
        text::lemma_fill_run(s, b, 57, "\")?, \""@);
        assert(s.subrange(64, 68) =~= "name"@);
        text::lemma_fill_hole(s, b, 63, "name"@);
        reveal_strlit("\")?;");
        assert(s.subrange(69, 73) =~= "\")?;"@);
        text::lemma_fill_run(s, b, 69, "\")?;"@);
        let rest = text::fill_from(s, b, 73);
        let part = "let arg"@ + idx + " = from_wkb(arg_blob(&args, "@ + idx + ", \""@ + name + "\")?, \""@
            + name + "\")?;"@;
        assert((
            "let arg"@
                + (
                    idx
                        + (
                            " = from_wkb(arg_blob(&args, "@
                                + (
                                    idx
                                        + (
                                            ", \""@
                                                + (name + ("\")?, \""@ + (name + ("\")?;"@ + rest))))
                                        )
                                )
                        )
                )
        )
            =~= part + rest);
        words::lemma_piece_between(before, part, rest);
    }
}

proof fn lemma_table_f64(i: Seq<char>, idx: Seq<char>, name: Seq<char>)
    ensures
        words::has_piece(
            text::fill(t::TABLE_F64@, seq![("i"@, i), ("idx"@, idx), ("name"@, name)]),
            "let arg"@ + idx + " = arg_f64(&args, "@ + idx + ", \""@ + name + "\")?;"@,
        ),
{
    let s = t::TABLE_F64@;
    reveal_strlit("{i}let arg{idx} = arg_f64(&args, {idx}, \"{name}\")?;\n");
    reveal_with_fuel(text::plain_to, 31);
    let b = seq![("i"@, i), ("idx"@, idx), ("name"@, name)];
    lemma_holes_i_idx_name(i, idx, name);
    assert(words::has_piece(
        text::fill(t::TABLE_F64@, b),
        "let arg"@ + idx + " = arg_f64(&args, "@ + idx + ", \""@ + name + "\")?;"@,
    )) by {
        let before = text::lemma_fill_reaches(s, b, 3);
        reveal_strlit("let arg");
        assert(s.subrange(3, 10) =~= "let arg"@);
        text::lemma_fill_run(s, b, 3, "let arg"@);
        reveal_strlit("idx");
        assert(s.subrange(11, 14) =~= "idx"@);
        text::lemma_fill_hole(s, b, 10, "idx"@);
        reveal_strlit(" = arg_f64(&args, ");
        assert(s.subrange(15, 33) =~= " = arg_f64(&args, "@);
        text::lemma_fill_run(s, b, 15, " = arg_f64(&args, "@);
        assert(s.subrange(34, 37) =~= "idx"@);
        text::lemma_fill_hole(s, b, 33, "idx"@);
        reveal_strlit(", \"");
        assert(s.subrange(38, 41) =~= ", \""@);
        text::lemma_fill_run(s, b, 38, ", \""@);
        reveal_strlit("name");
        assert(s.subrange(42, 46) =~= "name"@);
        text::lemma_fill_hole(s, b, 41, "name"@);
        reveal_strlit("\")?;");
        assert(s.subrange(47, 51) =~= "\")?;"@);
        text::lemma_fill_run(s, b, 47, "\")?;"@);
        let rest = text::fill_from(s, b, 51);
        let part = "let arg"@ + idx + " = arg_f64(&args, "@ + idx + ", \""@ + name + "\")?;"@;
        assert((
            "let arg"@
                + (idx + (" = arg_f64(&args, "@ + (idx + (", \""@ + (name + ("\")?;"@ + rest))))))
        )
            =~= part + rest);
        words::lemma_piece_between(before, part, rest);
    }
}

proof fn lemma_table_s32(i: Seq<char>, idx: Seq<char>, name: Seq<char>)
    ensures
        words::has_piece(
            text::fill(t::TABLE_S32@, seq![("i"@, i), ("idx"@, idx), ("name"@, name)]),
            "let arg"@ + idx + " = arg_i64(&args, "@ + idx + ", \""@ + name + "\")? as i32;"@,
        ),
{
    let s = t::TABLE_S32@;
    reveal_strlit("{i}let arg{idx} = arg_i64(&args, {idx}, \"{name}\")? as i32;\n");
    reveal_with_fuel(text::plain_to, 31);
    let b = seq![("i"@, i), ("idx"@, idx), ("name"@, name)];
    lemma_holes_i_idx_name(i, idx, name);
    assert(words::has_piece(
        text::fill(t::TABLE_S32@, b),
        "let arg"@ + idx + " = arg_i64(&args, "@ + idx + ", \""@ + name + "\")? as i32;"@,
    )) by {
        let before = text::lemma_fill_reaches(s, b, 3);
        reveal_strlit("let arg");
        assert(s.subrange(3, 10) =~= "let arg"@);
        text::lemma_fill_run(s, b, 3, "let arg"@);
        reveal_strlit("idx");
        assert(s.subrange(11, 14) =~= "idx"@);
        text::lemma_fill_hole(s, b, 10, "idx"@);
        reveal_strlit(" = arg_i64(&args, ");
        assert(s.subrange(15, 33) =~= " = arg_i64(&args, "@);
        text::lemma_fill_run(s, b, 15, " = arg_i64(&args, "@);
        assert(s.subrange(34, 37) =~= "idx"@);
        text::lemma_fill_hole(s, b, 33, "idx"@);
        reveal_strlit(", \"");
        assert(s.subrange(38, 41) =~= ", \""@);
        text::lemma_fill_run(s, b, 38, ", \""@);
        reveal_strlit("name");
        assert(s.subrange(42, 46) =~= "name"@);
        text::lemma_fill_hole(s, b, 41, "name"@);
        reveal_strlit("\")? as i32;");
        assert(s.subrange(47, 58) =~= "\")? as i32;"@);
        text::lemma_fill_run(s, b, 47, "\")? as i32;"@);
        let rest = text::fill_from(s, b, 58);
        let part = "let arg"@ + idx + " = arg_i64(&args, "@ + idx + ", \""@ + name + "\")? as i32;"@;
        assert((
            "let arg"@
                + (
                    idx
                        + (
                            " = arg_i64(&args, "@
                                + (idx + (", \""@ + (name + ("\")? as i32;"@ + rest))))
                        )
                )
        )
            =~= part + rest);
        words::lemma_piece_between(before, part, rest);
    }
}

proof fn lemma_table_s64(i: Seq<char>, idx: Seq<char>, name: Seq<char>)
    ensures
        words::has_piece(
            text::fill(t::TABLE_S64@, seq![("i"@, i), ("idx"@, idx), ("name"@, name)]),
            "let arg"@ + idx + " = arg_i64(&args, "@ + idx + ", \""@ + name + "\")?;"@,
        ),
{
    let s = t::TABLE_S64@;
    reveal_strlit("{i}let arg{idx} = arg_i64(&args, {idx}, \"{name}\")?;\n");
    reveal_with_fuel(text::plain_to, 31);
    let b = seq![("i"@, i), ("idx"@, idx), ("name"@, name)];
    lemma_holes_i_idx_name(i, idx, name);
    assert(words::has_piece(
        text::fill(t::TABLE_S64@, b),
        "let arg"@ + idx + " = arg_i64(&args, "@ + idx + ", \""@ + name + "\")?;"@,
    )) by {
        let before = text::lemma_fill_reaches(s, b, 3);
        reveal_strlit("let arg");
        assert(s.subrange(3, 10) =~= "let arg"@);
        text::lemma_fill_run(s, b, 3, "let arg"@);
        reveal_strlit("idx");
        assert(s.subrange(11, 14) =~= "idx"@);
        text::lemma_fill_hole(s, b, 10, "idx"@);
        reveal_strlit(" = arg_i64(&args, ");
        assert(s.subrange(15, 33) =~= " = arg_i64(&args, "@);
        text::lemma_fill_run(s, b, 15, " = arg_i64(&args, "@);
        assert(s.subrange(34, 37) =~= "idx"@);
        text::lemma_fill_hole(s, b, 33, "idx"@);
        reveal_strlit(", \"");
        assert(s.subrange(38, 41) =~= ", \""@);
        text::lemma_fill_run(s, b, 38, ", \""@);
        reveal_strlit("name");
        assert(s.subrange(42, 46) =~= "name"@);
        text::lemma_fill_hole(s, b, 41, "name"@);
        reveal_strlit("\")?;");
        assert(s.subrange(47, 51) =~= "\")?;"@);
        text::lemma_fill_run(s, b, 47, "\")?;"@);
        let rest = text::fill_from(s, b, 51);
        let part = "let arg"@ + idx + " = arg_i64(&args, "@ + idx + ", \""@ + name + "\")?;"@;
        assert((
            "let arg"@
                + (idx + (" = arg_i64(&args, "@ + (idx + (", \""@ + (name + ("\")?;"@ + rest))))))
        )
            =~= part + rest);
        words::lemma_piece_between(before, part, rest);
    }
}

proof fn lemma_table_u32(i: Seq<char>, idx: Seq<char>, name: Seq<char>)
    ensures
        words::has_piece(
            text::fill(t::TABLE_U32@, seq![("i"@, i), ("idx"@, idx), ("name"@, name)]),
            "let arg"@ + idx + " = arg_i64(&args, "@ + idx + ", \""@ + name + "\")? as u32;"@,
        ),
{
    let s = t::TABLE_U32@;
    reveal_strlit("{i}let arg{idx} = arg_i64(&args, {idx}, \"{name}\")? as u32;\n");
    reveal_with_fuel(text::plain_to, 31);
    let b = seq![("i"@, i), ("idx"@, idx), ("name"@, name)];
    lemma_holes_i_idx_name(i, idx, name);
    assert(words::has_piece(
        text::fill(t::TABLE_U32@, b),
        "let arg"@ + idx + " = arg_i64(&args, "@ + idx + ", \""@ + name + "\")? as u32;"@,
    )) by {
        let before = text::lemma_fill_reaches(s, b, 3);
        reveal_strlit("let arg");
        assert(s.subrange(3, 10) =~= "let arg"@);
        text::lemma_fill_run(s, b, 3, "let arg"@);
        reveal_strlit("idx");
        assert(s.subrange(11, 14) =~= "idx"@);
        text::lemma_fill_hole(s, b, 10, "idx"@);
        reveal_strlit(" = arg_i64(&args, ");
        assert(s.subrange(15, 33) =~= " = arg_i64(&args, "@);
        text::lemma_fill_run(s, b, 15, " = arg_i64(&args, "@);
        assert(s.subrange(34, 37) =~= "idx"@);
        text::lemma_fill_hole(s, b, 33, "idx"@);
        reveal_strlit(", \"");
        assert(s.subrange(38, 41) =~= ", \""@);
        text::lemma_fill_run(s, b, 38, ", \""@);
        reveal_strlit("name");
        assert(s.subrange(42, 46) =~= "name"@);
        text::lemma_fill_hole(s, b, 41, "name"@);
        reveal_strlit("\")? as u32;");
        assert(s.subrange(47, 58) =~= "\")? as u32;"@);
        text::lemma_fill_run(s, b, 47, "\")? as u32;"@);
        let rest = text::fill_from(s, b, 58);
        let part = "let arg"@ + idx + " = arg_i64(&args, "@ + idx + ", \""@ + name + "\")? as u32;"@;
        assert((
            "let arg"@
                + (
                    idx
                        + (
                            " = arg_i64(&args, "@
                                + (idx + (", \""@ + (name + ("\")? as u32;"@ + rest))))
                        )
                )
        )
            =~= part + rest);
        words::lemma_piece_between(before, part, rest);
    }
}

proof fn lemma_table_u64(i: Seq<char>, idx: Seq<char>, name: Seq<char>)
    ensures
        words::has_piece(
            text::fill(t::TABLE_U64@, seq![("i"@, i), ("idx"@, idx), ("name"@, name)]),
            "let arg"@ + idx + " = arg_i64(&args, "@ + idx + ", \""@ + name + "\")? as u64;"@,
        ),
{
    let s = t::TABLE_U64@;
    reveal_strlit("{i}let arg{idx} = arg_i64(&args, {idx}, \"{name}\")? as u64;\n");
    reveal_with_fuel(text::plain_to, 31);
    let b = seq![("i"@, i), ("idx"@, idx), ("name"@, name)];
    lemma_holes_i_idx_name(i, idx, name);
    assert(words::has_piece(
        text::fill(t::TABLE_U64@, b),
        "let arg"@ + idx + " = arg_i64(&args, "@ + idx + ", \""@ + name + "\")? as u64;"@,
    )) by {
        let before = text::lemma_fill_reaches(s, b, 3);
        reveal_strlit("let arg");
        assert(s.subrange(3, 10) =~= "let arg"@);
        text::lemma_fill_run(s, b, 3, "let arg"@);
        reveal_strlit("idx");
        assert(s.subrange(11, 14) =~= "idx"@);
        text::lemma_fill_hole(s, b, 10, "idx"@);
        reveal_strlit(" = arg_i64(&args, ");
        assert(s.subrange(15, 33) =~= " = arg_i64(&args, "@);
        text::lemma_fill_run(s, b, 15, " = arg_i64(&args, "@);
        assert(s.subrange(34, 37) =~= "idx"@);
        text::lemma_fill_hole(s, b, 33, "idx"@);
        reveal_strlit(", \"");
        assert(s.subrange(38, 41) =~= ", \""@);
        text::lemma_fill_run(s, b, 38, ", \""@);
        reveal_strlit("name");
        assert(s.subrange(42, 46) =~= "name"@);
        text::lemma_fill_hole(s, b, 41, "name"@);
        reveal_strlit("\")? as u64;");
        assert(s.subrange(47, 58) =~= "\")? as u64;"@);
        text::lemma_fill_run(s, b, 47, "\")? as u64;"@);
        let rest = text::fill_from(s, b, 58);
        let part = "let arg"@ + idx + " = arg_i64(&args, "@ + idx + ", \""@ + name + "\")? as u64;"@;
        assert((
            "let arg"@
                + (
                    idx
                        + (
                            " = arg_i64(&args, "@
                                + (idx + (", \""@ + (name + ("\")? as u64;"@ + rest))))
                        )
                )
        )
            =~= part + rest);
        words::lemma_piece_between(before, part, rest);
    }
}

proof fn lemma_table_bool(i: Seq<char>, idx: Seq<char>, name: Seq<char>)
    ensures
        words::has_piece(
            text::fill(t::TABLE_BOOL@, seq![("i"@, i), ("idx"@, idx), ("name"@, name)]),
            "let arg"@ + idx + " = arg_i64(&args, "@ + idx + ", \""@ + name + "\")? != 0;"@,
        ),
{
    let s = t::TABLE_BOOL@;
    reveal_strlit("{i}let arg{idx} = arg_i64(&args, {idx}, \"{name}\")? != 0;\n");
    reveal_with_fuel(text::plain_to, 31);
    let b = seq![("i"@, i), ("idx"@, idx), ("name"@, name)];
    lemma_holes_i_idx_name(i, idx, name);
    assert(words::has_piece(
        text::fill(t::TABLE_BOOL@, b),
        "let arg"@ + idx + " = arg_i64(&args, "@ + idx + ", \""@ + name + "\")? != 0;"@,
    )) by {
        let before = text::lemma_fill_reaches(s, b, 3);
        reveal_strlit("let arg");
        assert(s.subrange(3, 10) =~= "let arg"@);
        text::lemma_fill_run(s, b, 3, "let arg"@);
        reveal_strlit("idx");
        assert(s.subrange(11, 14) =~= "idx"@);
        text::lemma_fill_hole(s, b, 10, "idx"@);
        reveal_strlit(" = arg_i64(&args, ");
        assert(s.subrange(15, 33) =~= " = arg_i64(&args, "@);
        text::lemma_fill_run(s, b, 15, " = arg_i64(&args, "@);
        assert(s.subrange(34, 37) =~= "idx"@);
        text::lemma_fill_hole(s, b, 33, "idx"@);
        reveal_strlit(", \"");
        assert(s.subrange(38, 41) =~= ", \""@);
        text::lemma_fill_run(s, b, 38, ", \""@);
        reveal_strlit("name");
        assert(s.subrange(42, 46) =~= "name"@);
        text::lemma_fill_hole(s, b, 41, "name"@);
        reveal_strlit("\")? != 0;");
        assert(s.subrange(47, 56) =~= "\")? != 0;"@);
        text::lemma_fill_run(s, b, 47, "\")? != 0;"@);
        let rest = text::fill_from(s, b, 56);
        let part = "let arg"@ + idx + " = arg_i64(&args, "@ + idx + ", \""@ + name + "\")? != 0;"@;
        assert((
            "let arg"@
                + (
                    idx
                        + (
                            " = arg_i64(&args, "@
                                + (idx + (", \""@ + (name + ("\")? != 0;"@ + rest))))
                        )
                )
        )
            =~= part + rest);
        words::lemma_piece_between(before, part, rest);
    }
}

proof fn lemma_table_blob(i: Seq<char>, idx: Seq<char>, name: Seq<char>)
    ensures
        words::has_piece(
            text::fill(t::TABLE_BLOB@, seq![("i"@, i), ("idx"@, idx), ("name"@, name)]),
            "let arg"@ + idx + " = arg_blob(&args, "@ + idx + ", \""@ + name + "\")?;"@,
        ),
{
    let s = t::TABLE_BLOB@;
    reveal_strlit("{i}let arg{idx} = arg_blob(&args, {idx}, \"{name}\")?;\n");
    reveal_with_fuel(text::plain_to, 31);
    let b = seq![("i"@, i), ("idx"@, idx), ("name"@, name)];
    lemma_holes_i_idx_name(i, idx, name);
    assert(words::has_piece(
        text::fill(t::TABLE_BLOB@, b),
        "let arg"@ + idx + " = arg_blob(&args, "@ + idx + ", \""@ + name + "\")?;"@,
    )) by {
        let before = text::lemma_fill_reaches(s, b, 3);
        reveal_strlit("let arg");
        assert(s.subrange(3, 10) =~= "let arg"@);
        text::lemma_fill_run(s, b, 3, "let arg"@);
        reveal_strlit("idx");
        assert(s.subrange(11, 14) =~= "idx"@);
        text::lemma_fill_hole(s, b, 10, "idx"@);
        reveal_strlit(" = arg_blob(&args, ");
        assert(s.subrange(15, 34) =~= " = arg_blob(&args, "@);
        text::lemma_fill_run(s, b, 15, " = arg_blob(&args, "@);
        assert(s.subrange(35, 38) =~= "idx"@);
        text::lemma_fill_hole(s, b, 34, "idx"@);
        reveal_strlit(", \"");
        assert(s.subrange(39, 42) =~= ", \""@);
        text::lemma_fill_run(s, b, 39, ", \""@);
        reveal_strlit("name");
        assert(s.subrange(43, 47) =~= "name"@);
        text::lemma_fill_hole(s, b, 42, "name"@);
        reveal_strlit("\")?;");
        assert(s.subrange(48, 52) =~= "\")?;"@);
        text::lemma_fill_run(s, b, 48, "\")?;"@);
        let rest = text::fill_from(s, b, 52);
        let part = "let arg"@ + idx + " = arg_blob(&args, "@ + idx + ", \""@ + name + "\")?;"@;
        assert((
            "let arg"@
                + (idx + (" = arg_blob(&args, "@ + (idx + (", \""@ + (name + ("\")?;"@ + rest))))))
        )
            =~= part + rest);
        words::lemma_piece_between(before, part, rest);
    }
}

proof fn lemma_table_wit_value(i: Seq<char>, idx: Seq<char>, name: Seq<char>, snake: Seq<char>)
    ensures
        words::has_piece(
            text::fill(
                t::TABLE_WIT_VALUE@,
                seq![("i"@, i), ("idx"@, idx), ("name"@, name), ("snake"@, snake)],
            ),
            "let arg"@ + idx + " = arg_witvalue_"@ + snake + "(&args, "@ + idx + ", \""@ + name
                + "\")?;"@,
        ),
{
    let s = t::TABLE_WIT_VALUE@;
    reveal_strlit("{i}let arg{idx} = arg_witvalue_{snake}(&args, {idx}, \"{name}\")?;\n");
    reveal_with_fuel(text::plain_to, 31);
    let b = seq![("i"@, i), ("idx"@, idx), ("name"@, name), ("snake"@, snake)];
    lemma_holes_i_idx_name_snake(i, idx, name, snake);
    assert(words::has_piece(
        text::fill(t::TABLE_WIT_VALUE@, b),
        "let arg"@ + idx + " = arg_witvalue_"@ + snake + "(&args, "@ + idx + ", \""@ + name
            + "\")?;"@,
    )) by {
        let before = text::lemma_fill_reaches(s, b, 3);
        reveal_strlit("let arg");
        assert(s.subrange(3, 10) =~= "let arg"@);
        text::lemma_fill_run(s, b, 3, "let arg"@);
        reveal_strlit("idx");
        assert(s.subrange(11, 14) =~= "idx"@);
        text::lemma_fill_hole(s, b, 10, "idx"@);
        reveal_strlit(" = arg_witvalue_");
        assert(s.subrange(15, 31) =~= " = arg_witvalue_"@);
        text::lemma_fill_run(s, b, 15, " = arg_witvalue_"@);
        reveal_strlit("snake");
        assert(s.subrange(32, 37) =~= "snake"@);
        text::lemma_fill_hole(s, b, 31, "snake"@);
        reveal_strlit("(&args, ");
        assert(s.subrange(38, 46) =~= "(&args, "@);
        text::lemma_fill_run(s, b, 38, "(&args, "@);
        assert(s.subrange(47, 50) =~= "idx"@);
        text::lemma_fill_hole(s, b, 46, "idx"@);
        reveal_strlit(", \"");
        assert(s.subrange(51, 54) =~= ", \""@);
        text::lemma_fill_run(s, b, 51, ", \""@);
        reveal_strlit("name");
        assert(s.subrange(55, 59) =~= "name"@);
        text::lemma_fill_hole(s, b, 54, "name"@);
        reveal_strlit("\")?;");
        assert(s.subrange(60, 64) =~= "\")?;"@);
        text::lemma_fill_run(s, b, 60, "\")?;"@);
        let rest = text::fill_from(s, b, 64);
        let part = "let arg"@ + idx + " = arg_witvalue_"@ + snake + "(&args, "@ + idx + ", \""@ + name
            + "\")?;"@;
        assert((
            "let arg"@
                + (
                    idx
                        + (
                            " = arg_witvalue_"@
                                + (
                                    snake
                                        + (
                                            "(&args, "@
                                                + (idx + (", \""@ + (name + ("\")?;"@ + rest))))
                                        )
                                )
                        )
                )
        )
            =~= part + rest);
        words::lemma_piece_between(before, part, rest);
    }
}

proof fn lemma_table_list_record(i: Seq<char>, idx: Seq<char>, name: Seq<char>, snake: Seq<char>)
    ensures
        words::has_piece(
            text::fill(
                t::TABLE_LIST_RECORD@,
                seq![("i"@, i), ("idx"@, idx), ("name"@, name), ("snake"@, snake)],
            ),
            "let arg"@ + idx + " = parse_json_list_record_"@ + snake + "(&args, "@ + idx + ", \""@
                + name + "\")?;"@,
        ),
{
    let s = t::TABLE_LIST_RECORD@;
    reveal_strlit("{i}let arg{idx} = parse_json_list_record_{snake}(&args, {idx}, \"{name}\")?;\n");
    reveal_with_fuel(text::plain_to, 31);
    let b = seq![("i"@, i), ("idx"@, idx), ("name"@, name), ("snake"@, snake)];
    lemma_holes_i_idx_name_snake(i, idx, name, snake);
    assert(words::has_piece(
        text::fill(t::TABLE_LIST_RECORD@, b),
        "let arg"@ + idx + " = parse_json_list_record_"@ + snake + "(&args, "@ + idx + ", \""@
            + name + "\")?;"@,
    )) by {
        let before = text::lemma_fill_reaches(s, b, 3);
        reveal_strlit("let arg");
        assert(s.subrange(3, 10) =~= "let arg"@);
        text::lemma_fill_run(s, b, 3, "let arg"@);
        reveal_strlit("idx");
        assert(s.subrange(11, 14) =~= "idx"@);
        text::lemma_fill_hole(s, b, 10, "idx"@);
        reveal_strlit(" = parse_json_list_record_");
        assert(s.subrange(15, 41) =~= " = parse_json_list_record_"@);
        text::lemma_fill_run(s, b, 15, " = parse_json_list_record_"@);
        reveal_strlit("snake");
        assert(s.subrange(42, 47) =~= "snake"@);
        text::lemma_fill_hole(s, b, 41, "snake"@);
        reveal_strlit("(&args, ");
        assert(s.subrange(48, 56) =~= "(&args, "@);
        text::lemma_fill_run(s, b, 48, "(&args, "@);
        assert(s.subrange(57, 60) =~= "idx"@);
        text::lemma_fill_hole(s, b, 56, "idx"@);
        reveal_strlit(", \"");
        assert(s.subrange(61, 64) =~= ", \""@);
        text::lemma_fill_run(s, b, 61, ", \""@);
        reveal_strlit("name");
        assert(s.subrange(65, 69) =~= "name"@);
        text::lemma_fill_hole(s, b, 64, "name"@);
        reveal_strlit("\")?;");
        assert(s.subrange(70, 74) =~= "\")?;"@);
        text::lemma_fill_run(s, b, 70, "\")?;"@);
        let rest = text::fill_from(s, b, 74);
        let part = "let arg"@ + idx + " = parse_json_list_record_"@ + snake + "(&args, "@ + idx + ", \""@
            + name + "\")?;"@;
        assert((
            "let arg"@
                + (
                    idx
                        + (
                            " = parse_json_list_record_"@
                                + (
                                    snake
                                        + (
                                            "(&args, "@
                                                + (idx + (", \""@ + (name + ("\")?;"@ + rest))))
                                        )
                                )
                        )
                )
        )
            =~= part + rest);
        words::lemma_piece_between(before, part, rest);
    }
}

proof fn lemma_table_unwired(i: Seq<char>, name: Seq<char>, shape_dbg: Seq<char>)
    ensures
        words::has_piece(
            text::fill(
                t::TABLE_UNWIRED@,
                seq![("i"@, i), ("name"@, name), ("shape_dbg"@, shape_dbg)],
            ),
            "UDTF param shape not yet wired ("@,
        ),
{
    let s = t::TABLE_UNWIRED@;
    reveal_strlit("{i}Err(format!(\"{name}: UDTF param shape not yet wired ({shape_dbg})\"))");
    reveal_with_fuel(text::plain_to, 31);
    let b = seq![("i"@, i), ("name"@, name), ("shape_dbg"@, shape_dbg)];
    lemma_holes_i_name_shape_dbg(i, name, shape_dbg);
    assert(words::has_piece(text::fill(t::TABLE_UNWIRED@, b), "UDTF param shape not yet wired ("@)) by {
        let before = text::lemma_fill_reaches(s, b, 22);
        reveal_strlit(": ");
        assert(s.subrange(22, 24) =~= ": "@);
        text::lemma_fill_run(s, b, 22, ": "@);
        reveal_strlit("UDTF param shape not yet wired");
        assert(s.subrange(24, 54) =~= "UDTF param shape not yet wired"@);
        text::lemma_fill_run(s, b, 24, "UDTF param shape not yet wired"@);
        reveal_strlit(" (");
        assert(s.subrange(54, 56) =~= " ("@);
        text::lemma_fill_run(s, b, 54, " ("@);
        let rest = text::fill_from(s, b, 56);
        let part = "UDTF param shape not yet wired ("@;
        reveal_strlit("UDTF param shape not yet wired (");
        assert(("UDTF param shape not yet wired"@ + (" ("@ + rest)) =~= part + rest);
        assert(before + (": "@ + (part + rest)) =~= (before + ": "@) + (part + rest));
        words::lemma_piece_between(before + ": "@, part, rest);
    }
}

proof fn lemma_table_call_fallible(
    i: Seq<char>,
    module: Seq<char>,
    func: Seq<char>,
    call_args_str: Seq<char>,
    name: Seq<char>,
)
    ensures
        words::has_piece(
            text::fill(
                t::TABLE_CALL_FALLIBLE@,
                seq![("i"@, i), ("module"@, module), ("func"@, func), ("call_args_str"@, call_args_str), ("name"@, name)],
            ),
            "let __upstream = "@ + module + "::"@ + func + "("@ + call_args_str + ")"@,
        ),
        words::has_piece(
            text::fill(
                t::TABLE_CALL_FALLIBLE@,
                seq![("i"@, i), ("module"@, module), ("func"@, func), ("call_args_str"@, call_args_str), ("name"@, name)],
            ),
            ".map_err(|e| format!(\""@ + name + ": "@,
        ),
{
    let s = t::TABLE_CALL_FALLIBLE@;
    reveal_strlit(r#"{i}let __upstream = {module}::{func}({call_args_str})
{i}    .map_err(|e| format!("{name}: {{}}", shim_err_string(e)))?;
"#);
    reveal_with_fuel(text::plain_to, 31);
    let b = seq![("i"@, i), ("module"@, module), ("func"@, func), ("call_args_str"@, call_args_str), ("name"@, name)];
    lemma_holes_i_module_func_call_args_str_name(i, module, func, call_args_str, name);
    assert(words::has_piece(
        text::fill(t::TABLE_CALL_FALLIBLE@, b),
        "let __upstream = "@ + module + "::"@ + func + "("@ + call_args_str + ")"@,
    )) by {
        let before = text::lemma_fill_reaches(s, b, 3);
        reveal_strlit("let __upstream = ");
        assert(s.subrange(3, 20) =~= "let __upstream = "@);
        text::lemma_fill_run(s, b, 3, "let __upstream = "@);
        reveal_strlit("module");
        assert(s.subrange(21, 27) =~= "module"@);
        text::lemma_fill_hole(s, b, 20, "module"@);
        reveal_strlit("::");
        assert(s.subrange(28, 30) =~= "::"@);
        text::lemma_fill_run(s, b, 28, "::"@);
        reveal_strlit("func");
        assert(s.subrange(31, 35) =~= "func"@);
        text::lemma_fill_hole(s, b, 30, "func"@);
        reveal_strlit("(");
        assert(s.subrange(36, 37) =~= "("@);
        text::lemma_fill_run(s, b, 36, "("@);
        reveal_strlit("call_args_str");
        assert(s.subrange(38, 51) =~= "call_args_str"@);
        text::lemma_fill_hole(s, b, 37, "call_args_str"@);
        reveal_strlit(")");
        assert(s.subrange(52, 53) =~= ")"@);
        text::lemma_fill_run(s, b, 52, ")"@);
        let rest = text::fill_from(s, b, 53);
        let part = "let __upstream = "@ + module + "::"@ + func + "("@ + call_args_str + ")"@;
        assert((
            "let __upstream = "@
                + (module + ("::"@ + (func + ("("@ + (call_args_str + (")"@ + rest))))))
        )
            =~= part + rest);
        words::lemma_piece_between(before, part, rest);
    }
    assert(words::has_piece(
        text::fill(t::TABLE_CALL_FALLIBLE@, b),
        ".map_err(|e| format!(\""@ + name + ": "@,
    )) by {
        let before = text::lemma_fill_reaches(s, b, 57);
        reveal_strlit("    ");
        assert(s.subrange(57, 61) =~= "    "@);
        text::lemma_fill_run(s, b, 57, "    "@);
        reveal_strlit(".map_err(|e| format!(\"");
        assert(s.subrange(61, 83) =~= ".map_err(|e| format!(\""@);
        text::lemma_fill_run(s, b, 61, ".map_err(|e| format!(\""@);
        reveal_strlit("name");
        assert(s.subrange(84, 88) =~= "name"@);
        text::lemma_fill_hole(s, b, 83, "name"@);
        reveal_strlit(": ");
        assert(s.subrange(89, 91) =~= ": "@);
        text::lemma_fill_run(s, b, 89, ": "@);
        let rest = text::fill_from(s, b, 91);
        let part = ".map_err(|e| format!(\""@ + name + ": "@;
        assert((".map_err(|e| format!(\""@ + (name + (": "@ + rest))) =~= part + rest);
        assert(before + ("    "@ + (part + rest)) =~= (before + "    "@) + (part + rest));
        words::lemma_piece_between(before + "    "@, part, rest);
    }
}

proof fn lemma_table_call(
    i: Seq<char>,
    module: Seq<char>,
    func: Seq<char>,
    call_args_str: Seq<char>,
)
    ensures
        words::has_piece(
            text::fill(
                t::TABLE_CALL@,
                seq![("i"@, i), ("module"@, module), ("func"@, func), ("call_args_str"@, call_args_str)],
            ),
            "let __upstream = "@ + module + "::"@ + func + "("@ + call_args_str + ");"@,
        ),
{
    let s = t::TABLE_CALL@;
    reveal_strlit("{i}let __upstream = {module}::{func}({call_args_str});\n");
    reveal_with_fuel(text::plain_to, 31);
    let b = seq![("i"@, i), ("module"@, module), ("func"@, func), ("call_args_str"@, call_args_str)];
    lemma_holes_i_module_func_call_args_str(i, module, func, call_args_str);
    assert(words::has_piece(
        text::fill(t::TABLE_CALL@, b),
        "let __upstream = "@ + module + "::"@ + func + "("@ + call_args_str + ");"@,
    )) by {
        let before = text::lemma_fill_reaches(s, b, 3);
        reveal_strlit("let __upstream = ");
        assert(s.subrange(3, 20) =~= "let __upstream = "@);
        text::lemma_fill_run(s, b, 3, "let __upstream = "@);
        reveal_strlit("module");
        assert(s.subrange(21, 27) =~= "module"@);
        text::lemma_fill_hole(s, b, 20, "module"@);
        reveal_strlit("::");
        assert(s.subrange(28, 30) =~= "::"@);
        text::lemma_fill_run(s, b, 28, "::"@);
        reveal_strlit("func");
        assert(s.subrange(31, 35) =~= "func"@);
        text::lemma_fill_hole(s, b, 30, "func"@);
        reveal_strlit("(");
        assert(s.subrange(36, 37) =~= "("@);
        text::lemma_fill_run(s, b, 36, "("@);
        reveal_strlit("call_args_str");
        assert(s.subrange(38, 51) =~= "call_args_str"@);
        text::lemma_fill_hole(s, b, 37, "call_args_str"@);
        reveal_strlit(");");
        assert(s.subrange(52, 54) =~= ");"@);
        text::lemma_fill_run(s, b, 52, ");"@);
        let rest = text::fill_from(s, b, 54);
        let part = "let __upstream = "@ + module + "::"@ + func + "("@ + call_args_str + ");"@;
        assert((
            "let __upstream = "@
                + (module + ("::"@ + (func + ("("@ + (call_args_str + (");"@ + rest))))))
        )
            =~= part + rest);
        words::lemma_piece_between(before, part, rest);
    }
}

proof fn lemma_rows_geom(i: Seq<char>)
    ensures
        words::has_piece(
            text::fill(t::ROWS_GEOM@, seq![("i"@, i)]),
            ".map(|g| alloc::vec![SqlValue::Blob(g.as_wkb())])"@,
        ),
{
    let s = t::ROWS_GEOM@;
    reveal_strlit(r#"{i}let rows: Vec<Vec<SqlValue>> = __upstream
{i}    .iter()
{i}    .map(|g| alloc::vec![SqlValue::Blob(g.as_wkb())])
{i}    .collect();
"#);
    reveal_with_fuel(text::plain_to, 31);
    let b = seq![("i"@, i)];
    lemma_holes_i(i);
    assert(words::has_piece(
        text::fill(t::ROWS_GEOM@, b),
        ".map(|g| alloc::vec![SqlValue::Blob(g.as_wkb())])"@,
    )) by {
        let before = text::lemma_fill_reaches(s, b, 63);
        reveal_strlit("    ");
        assert(s.subrange(63, 67) =~= "    "@);
        text::lemma_fill_run(s, b, 63, "    "@);
        reveal_strlit(".map(|g| alloc::vec![SqlValue:");
        assert(s.subrange(67, 97) =~= ".map(|g| alloc::vec![SqlValue:"@);
        text::lemma_fill_run(s, b, 67, ".map(|g| alloc::vec![SqlValue:"@);
        reveal_strlit(":Blob(g.as_wkb())])");
        assert(s.subrange(97, 116) =~= ":Blob(g.as_wkb())])"@);
        text::lemma_fill_run(s, b, 97, ":Blob(g.as_wkb())])"@);
        let rest = text::fill_from(s, b, 116);
        let part = ".map(|g| alloc::vec![SqlValue::Blob(g.as_wkb())])"@;
        reveal_strlit(".map(|g| alloc::vec![SqlValue::Blob(g.as_wkb())])");
        assert((".map(|g| alloc::vec![SqlValue:"@ + (":Blob(g.as_wkb())])"@ + rest)) =~= part + rest);
        assert(before + ("    "@ + (part + rest)) =~= (before + "    "@) + (part + rest));
        words::lemma_piece_between(before + "    "@, part, rest);
    }
}

proof fn lemma_rows_primitive(i: Seq<char>, cell: Seq<char>)
    ensures
        words::has_piece(
            text::fill(t::ROWS_PRIMITIVE@, seq![("i"@, i), ("cell"@, cell)]),
            ".map(|v| alloc::vec!["@ + cell + "])"@,
        ),
{
    let s = t::ROWS_PRIMITIVE@;
    reveal_strlit(r#"{i}let rows: Vec<Vec<SqlValue>> = __upstream
{i}    .iter()
{i}    .map(|v| alloc::vec![{cell}])
{i}    .collect();
"#);
    reveal_with_fuel(text::plain_to, 31);
    let b = seq![("i"@, i), ("cell"@, cell)];
    lemma_holes_i_cell(i, cell);
    assert(words::has_piece(text::fill(t::ROWS_PRIMITIVE@, b), ".map(|v| alloc::vec!["@ + cell + "])"@)) by {
        let before = text::lemma_fill_reaches(s, b, 63);
        reveal_strlit("    ");
        assert(s.subrange(63, 67) =~= "    "@);
        text::lemma_fill_run(s, b, 63, "    "@);
        reveal_strlit(".map(|v| alloc::vec![");
        assert(s.subrange(67, 88) =~= ".map(|v| alloc::vec!["@);
        text::lemma_fill_run(s, b, 67, ".map(|v| alloc::vec!["@);
        reveal_strlit("cell");
        assert(s.subrange(89, 93) =~= "cell"@);
        text::lemma_fill_hole(s, b, 88, "cell"@);
        reveal_strlit("])");
        assert(s.subrange(94, 96) =~= "])"@);
        text::lemma_fill_run(s, b, 94, "])"@);
        let rest = text::fill_from(s, b, 96);
        let part = ".map(|v| alloc::vec!["@ + cell + "])"@;
        assert((".map(|v| alloc::vec!["@ + (cell + ("])"@ + rest))) =~= part + rest);
        assert(before + ("    "@ + (part + rest)) =~= (before + "    "@) + (part + rest));
        words::lemma_piece_between(before + "    "@, part, rest);
    }
}

proof fn lemma_rows_record(i: Seq<char>, field_exprs: Seq<char>)
    ensures
        words::has_piece(
            text::fill(t::ROWS_RECORD@, seq![("i"@, i), ("field_exprs"@, field_exprs)]),
            ".map(|__row| alloc::vec![\n"@ + field_exprs + i + "        ])"@,
        ),
{
    let s = t::ROWS_RECORD@;
    reveal_strlit(r#"{i}let rows: Vec<Vec<SqlValue>> = __upstream
{i}    .into_iter()
{i}    .map(|__row| alloc::vec![
{field_exprs}{i}        ])
{i}    .collect();
"#);
    reveal_with_fuel(text::plain_to, 31);
    let b = seq![("i"@, i), ("field_exprs"@, field_exprs)];
    lemma_holes_i_field_exprs(i, field_exprs);
    assert(words::has_piece(
        text::fill(t::ROWS_RECORD@, b),
        ".map(|__row| alloc::vec![\n"@ + field_exprs + i + "        ])"@,
    )) by {
        let before = text::lemma_fill_reaches(s, b, 68);
        reveal_strlit("    ");
        assert(s.subrange(68, 72) =~= "    "@);
        text::lemma_fill_run(s, b, 68, "    "@);
        reveal_strlit(".map(|__row| alloc::vec![\n");
        assert(s.subrange(72, 98) =~= ".map(|__row| alloc::vec![\n"@);
        text::lemma_fill_run(s, b, 72, ".map(|__row| alloc::vec![\n"@);
        reveal_strlit("field_exprs");
        assert(s.subrange(99, 110) =~= "field_exprs"@);
        text::lemma_fill_hole(s, b, 98, "field_exprs"@);
        reveal_strlit("i");
        assert(s.subrange(112, 113) =~= "i"@);
        text::lemma_fill_hole(s, b, 111, "i"@);
        reveal_strlit("        ])");
        assert(s.subrange(114, 124) =~= "        ])"@);
        text::lemma_fill_run(s, b, 114, "        ])"@);
        let rest = text::fill_from(s, b, 124);
        let part = ".map(|__row| alloc::vec![\n"@ + field_exprs + i + "        ])"@;
        assert((".map(|__row| alloc::vec![\n"@ + (field_exprs + (i + ("        ])"@ + rest))))
            =~= part + rest);
        assert(before + ("    "@ + (part + rest)) =~= (before + "    "@) + (part + rest));
        words::lemma_piece_between(before + "    "@, part, rest);
    }
}

proof fn lemma_rows_unwired(i: Seq<char>, name: Seq<char>, reason: Seq<char>)
    ensures
        words::has_piece(
            text::fill(t::ROWS_UNWIRED@, seq![("i"@, i), ("name"@, name), ("reason"@, reason)]),
            "UDTF output row not classifiable: "@ + reason,
        ),
{
    let s = t::ROWS_UNWIRED@;
    reveal_strlit(r#"{i}let _ = __upstream;
{i}return Err(format!("{name}: UDTF output row not classifiable: {reason}"));
"#);
    reveal_with_fuel(text::plain_to, 31);
    let b = seq![("i"@, i), ("name"@, name), ("reason"@, reason)];
    lemma_holes_i_name_reason(i, name, reason);
    assert(words::has_piece(
        text::fill(t::ROWS_UNWIRED@, b),
        "UDTF output row not classifiable: "@ + reason,
    )) by {
        let before = text::lemma_fill_reaches(s, b, 52);
        reveal_strlit(": ");
        assert(s.subrange(52, 54) =~= ": "@);
        text::lemma_fill_run(s, b, 52, ": "@);
        reveal_strlit("UDTF output row not classifiab");
        assert(s.subrange(54, 84) =~= "UDTF output row not classifiab"@);
        text::lemma_fill_run(s, b, 54, "UDTF output row not classifiab"@);
        reveal_strlit("le: ");
        assert(s.subrange(84, 88) =~= "le: "@);
        text::lemma_fill_run(s, b, 84, "le: "@);
        reveal_strlit("reason");
        assert(s.subrange(89, 95) =~= "reason"@);
        text::lemma_fill_hole(s, b, 88, "reason"@);
        let rest = text::fill_from(s, b, 96);
        let part = "UDTF output row not classifiable: "@ + reason;
        reveal_strlit("UDTF output row not classifiable: ");
        assert(("UDTF output row not classifiab"@ + ("le: "@ + (reason + rest))) =~= part + rest);
        assert(before + (": "@ + (part + rest)) =~= (before + ": "@) + (part + rest));
        words::lemma_piece_between(before + ": "@, part, rest);
    }
}

proof fn lemma_field_line(i: Seq<char>, expr: Seq<char>)
    ensures
        text::fill(t::FIELD_LINE@, seq![("i"@, i), ("expr"@, expr)])
            == i + "            "@ + expr + ",\n"@,
{
    let s = t::FIELD_LINE@;
    let b = seq![("i"@, i), ("expr"@, expr)];
    reveal_strlit("{i}            {expr},\n");
    reveal_with_fuel(text::plain_to, 31);
    lemma_holes_i_expr(i, expr);
    reveal_strlit("i");
    assert(s.subrange(1, 2) =~= "i"@);
    text::lemma_fill_hole(s, b, 0, "i"@);
    reveal_strlit("            ");
    assert(s.subrange(3, 15) =~= "            "@);
    text::lemma_fill_run(s, b, 3, "            "@);
    reveal_strlit("expr");
    assert(s.subrange(16, 20) =~= "expr"@);
    text::lemma_fill_hole(s, b, 15, "expr"@);
    reveal_strlit(",\n");
    assert(s.subrange(21, 23) =~= ",\n"@);
    text::lemma_fill_run(s, b, 21, ",\n"@);
    assert((i + ("            "@ + (expr + (",\n"@ + text::fill_from(s, b, 23)))))
        =~= i + "            "@ + expr + ",\n"@);
}

proof fn lemma_field_int(fsnake: Seq<char>)
    ensures
        text::fill(t::FIELD_INT@, seq![("fsnake"@, fsnake)])
            == "SqlValue::Integer(__row."@ + fsnake + " as i64)"@,
{
    let s = t::FIELD_INT@;
    let b = seq![("fsnake"@, fsnake)];
    reveal_strlit("SqlValue::Integer(__row.{fsnake} as i64)");
    reveal_with_fuel(text::plain_to, 31);
    lemma_holes_fsnake(fsnake);
    reveal_strlit("SqlValue::Integer(__row.");
    assert(s.subrange(0, 24) =~= "SqlValue::Integer(__row."@);
    text::lemma_fill_run(s, b, 0, "SqlValue::Integer(__row."@);
    reveal_strlit("fsnake");
    assert(s.subrange(25, 31) =~= "fsnake"@);
    text::lemma_fill_hole(s, b, 24, "fsnake"@);
    reveal_strlit(" as i64)");
    assert(s.subrange(32, 40) =~= " as i64)"@);
    text::lemma_fill_run(s, b, 32, " as i64)"@);
    assert(("SqlValue::Integer(__row."@ + (fsnake + (" as i64)"@ + text::fill_from(s, b, 40))))
        =~= "SqlValue::Integer(__row."@ + fsnake + " as i64)"@);
}

proof fn lemma_field_real(fsnake: Seq<char>)
    ensures
        text::fill(t::FIELD_REAL@, seq![("fsnake"@, fsnake)])
            == "SqlValue::Real(__row."@ + fsnake + " as f64)"@,
{
    let s = t::FIELD_REAL@;
    let b = seq![("fsnake"@, fsnake)];
    reveal_strlit("SqlValue::Real(__row.{fsnake} as f64)");
    reveal_with_fuel(text::plain_to, 31);
    lemma_holes_fsnake(fsnake);
    reveal_strlit("SqlValue::Real(__row.");
    assert(s.subrange(0, 21) =~= "SqlValue::Real(__row."@);
    text::lemma_fill_run(s, b, 0, "SqlValue::Real(__row."@);
    reveal_strlit("fsnake");
    assert(s.subrange(22, 28) =~= "fsnake"@);
    text::lemma_fill_hole(s, b, 21, "fsnake"@);
    reveal_strlit(" as f64)");
    assert(s.subrange(29, 37) =~= " as f64)"@);
    text::lemma_fill_run(s, b, 29, " as f64)"@);
    assert(("SqlValue::Real(__row."@ + (fsnake + (" as f64)"@ + text::fill_from(s, b, 37))))
        =~= "SqlValue::Real(__row."@ + fsnake + " as f64)"@);
}

proof fn lemma_field_text(fsnake: Seq<char>)
    ensures
        text::fill(t::FIELD_TEXT@, seq![("fsnake"@, fsnake)])
            == "SqlValue::Text(__row."@ + fsnake + ".clone())"@,
{
    let s = t::FIELD_TEXT@;
    let b = seq![("fsnake"@, fsnake)];
    reveal_strlit("SqlValue::Text(__row.{fsnake}.clone())");
    reveal_with_fuel(text::plain_to, 31);
    lemma_holes_fsnake(fsnake);
    reveal_strlit("SqlValue::Text(__row.");
    assert(s.subrange(0, 21) =~= "SqlValue::Text(__row."@);
    text::lemma_fill_run(s, b, 0, "SqlValue::Text(__row."@);
    reveal_strlit("fsnake");
    assert(s.subrange(22, 28) =~= "fsnake"@);
    text::lemma_fill_hole(s, b, 21, "fsnake"@);
    reveal_strlit(".clone())");
    assert(s.subrange(29, 38) =~= ".clone())"@);
    text::lemma_fill_run(s, b, 29, ".clone())"@);
    assert(("SqlValue::Text(__row."@ + (fsnake + (".clone())"@ + text::fill_from(s, b, 38))))
        =~= "SqlValue::Text(__row."@ + fsnake + ".clone())"@);
}

proof fn lemma_field_blob(fsnake: Seq<char>)
    ensures
        text::fill(t::FIELD_BLOB@, seq![("fsnake"@, fsnake)])
            == "SqlValue::Blob(__row."@ + fsnake + ".clone())"@,
{
    let s = t::FIELD_BLOB@;
    let b = seq![("fsnake"@, fsnake)];
    reveal_strlit("SqlValue::Blob(__row.{fsnake}.clone())");
    reveal_with_fuel(text::plain_to, 31);
    lemma_holes_fsnake(fsnake);
    reveal_strlit("SqlValue::Blob(__row.");
    assert(s.subrange(0, 21) =~= "SqlValue::Blob(__row."@);
    text::lemma_fill_run(s, b, 0, "SqlValue::Blob(__row."@);
    reveal_strlit("fsnake");
    assert(s.subrange(22, 28) =~= "fsnake"@);
    text::lemma_fill_hole(s, b, 21, "fsnake"@);
    reveal_strlit(".clone())");
    assert(s.subrange(29, 38) =~= ".clone())"@);
    text::lemma_fill_run(s, b, 29, ".clone())"@);
    assert(("SqlValue::Blob(__row."@ + (fsnake + (".clone())"@ + text::fill_from(s, b, 38))))
        =~= "SqlValue::Blob(__row."@ + fsnake + ".clone())"@);
}

proof fn lemma_field_geom(fsnake: Seq<char>)
    ensures
        text::fill(t::FIELD_GEOM@, seq![("fsnake"@, fsnake)])
            == "SqlValue::Blob(__row."@ + fsnake + ".as_wkb())"@,
{
    let s = t::FIELD_GEOM@;
    let b = seq![("fsnake"@, fsnake)];
    reveal_strlit("SqlValue::Blob(__row.{fsnake}.as_wkb())");
    reveal_with_fuel(text::plain_to, 31);
    lemma_holes_fsnake(fsnake);
    reveal_strlit("SqlValue::Blob(__row.");
    assert(s.subrange(0, 21) =~= "SqlValue::Blob(__row."@);
    text::lemma_fill_run(s, b, 0, "SqlValue::Blob(__row."@);
    reveal_strlit("fsnake");
    assert(s.subrange(22, 28) =~= "fsnake"@);
    text::lemma_fill_hole(s, b, 21, "fsnake"@);
    reveal_strlit(".as_wkb())");
    assert(s.subrange(29, 39) =~= ".as_wkb())"@);
    text::lemma_fill_run(s, b, 29, ".as_wkb())"@);
    assert(("SqlValue::Blob(__row."@ + (fsnake + (".as_wkb())"@ + text::fill_from(s, b, 39))))
        =~= "SqlValue::Blob(__row."@ + fsnake + ".as_wkb())"@);
}

proof fn lemma_field_option_int(fsnake: Seq<char>)
    ensures
        text::fill(t::FIELD_OPTION_INT@, seq![("fsnake"@, fsnake)])
            == "match &__row."@ + fsnake
                + " { Some(v) => SqlValue::Integer(*v as i64), None => SqlValue::Null }"@,
{
    let s = t::FIELD_OPTION_INT@;
    let b = seq![("fsnake"@, fsnake)];
    reveal_strlit("match &__row.{fsnake} {{ Some(v) => SqlValue::Integer(*v as i64), None => SqlValue::Null }}");
    reveal_with_fuel(text::plain_to, 31);
    lemma_holes_fsnake(fsnake);
    reveal_strlit("match &__row.");
    assert(s.subrange(0, 13) =~= "match &__row."@);
    text::lemma_fill_run(s, b, 0, "match &__row."@);
    reveal_strlit("fsnake");
    assert(s.subrange(14, 20) =~= "fsnake"@);
    text::lemma_fill_hole(s, b, 13, "fsnake"@);
    reveal_strlit(" ");
    assert(s.subrange(21, 22) =~= " "@);
    text::lemma_fill_run(s, b, 21, " "@);
    assert(text::fill_from(s, b, 22) == seq!['{'] + text::fill_from(s, b, 24));
    reveal_strlit(" Some(v) => SqlValue::Integer(");
    assert(s.subrange(24, 54) =~= " Some(v) => SqlValue::Integer("@);
    text::lemma_fill_run(s, b, 24, " Some(v) => SqlValue::Integer("@);
    reveal_strlit("*v as i64), None => SqlValue::");
    assert(s.subrange(54, 84) =~= "*v as i64), None => SqlValue::"@);
    text::lemma_fill_run(s, b, 54, "*v as i64), None => SqlValue::"@);
    reveal_strlit("Null ");
    assert(s.subrange(84, 89) =~= "Null "@);
    text::lemma_fill_run(s, b, 84, "Null "@);
    assert(text::fill_from(s, b, 89) == seq!['}'] + text::fill_from(s, b, 91));
    reveal_strlit(" { Some(v) => SqlValue::Integer(*v as i64), None => SqlValue::Null }");
    assert((
        "match &__row."@
            + (
                fsnake
                    + (
                        " "@
                            + (
                                seq!['{']
                                    + (
                                        " Some(v) => SqlValue::Integer("@
                                            + (
                                                "*v as i64), None => SqlValue::"@
                                                    + (
                                                        "Null "@
                                                            + (seq!['}'] + text::fill_from(s, b, 91))
                                                    )
                                            )
                                    )
                            )
                    )
            )
    )
        =~= "match &__row."@ + fsnake
            + " { Some(v) => SqlValue::Integer(*v as i64), None => SqlValue::Null }"@);
}

proof fn lemma_field_option_real(fsnake: Seq<char>)
    ensures
        text::fill(t::FIELD_OPTION_REAL@, seq![("fsnake"@, fsnake)])
            == "match &__row."@ + fsnake
                + " { Some(v) => SqlValue::Real(*v as f64), None => SqlValue::Null }"@,
{
    let s = t::FIELD_OPTION_REAL@;
    let b = seq![("fsnake"@, fsnake)];
    reveal_strlit("match &__row.{fsnake} {{ Some(v) => SqlValue::Real(*v as f64), None => SqlValue::Null }}");
    reveal_with_fuel(text::plain_to, 31);
    lemma_holes_fsnake(fsnake);
    reveal_strlit("match &__row.");
    assert(s.subrange(0, 13) =~= "match &__row."@);
    text::lemma_fill_run(s, b, 0, "match &__row."@);
    reveal_strlit("fsnake");
    assert(s.subrange(14, 20) =~= "fsnake"@);
    text::lemma_fill_hole(s, b, 13, "fsnake"@);
    reveal_strlit(" ");
    assert(s.subrange(21, 22) =~= " "@);
    text::lemma_fill_run(s, b, 21, " "@);
    assert(text::fill_from(s, b, 22) == seq!['{'] + text::fill_from(s, b, 24));
    reveal_strlit(" Some(v) => SqlValue::Real(*v ");
    assert(s.subrange(24, 54) =~= " Some(v) => SqlValue::Real(*v "@);
    text::lemma_fill_run(s, b, 24, " Some(v) => SqlValue::Real(*v "@);
    reveal_strlit("as f64), None => SqlValue::Nul");
    assert(s.subrange(54, 84) =~= "as f64), None => SqlValue::Nul"@);
    text::lemma_fill_run(s, b, 54, "as f64), None => SqlValue::Nul"@);
    reveal_strlit("l ");
    assert(s.subrange(84, 86) =~= "l "@);
    text::lemma_fill_run(s, b, 84, "l "@);
    assert(text::fill_from(s, b, 86) == seq!['}'] + text::fill_from(s, b, 88));
    reveal_strlit(" { Some(v) => SqlValue::Real(*v as f64), None => SqlValue::Null }");
    assert((
        "match &__row."@
            + (
                fsnake
                    + (
                        " "@
                            + (
                                seq!['{']
                                    + (
                                        " Some(v) => SqlValue::Real(*v "@
                                            + (
                                                "as f64), None => SqlValue::Nul"@
                                                    + (
                                                        "l "@
                                                            + (seq!['}'] + text::fill_from(s, b, 88))
                                                    )
                                            )
                                    )
                            )
                    )
            )
    )
        =~= "match &__row."@ + fsnake
            + " { Some(v) => SqlValue::Real(*v as f64), None => SqlValue::Null }"@);
}

proof fn lemma_field_option_text(fsnake: Seq<char>)
    ensures
        text::fill(t::FIELD_OPTION_TEXT@, seq![("fsnake"@, fsnake)])
            == "match &__row."@ + fsnake
                + " { Some(v) => SqlValue::Text(v.clone()), None => SqlValue::Null }"@,
{
    let s = t::FIELD_OPTION_TEXT@;
    let b = seq![("fsnake"@, fsnake)];
    reveal_strlit("match &__row.{fsnake} {{ Some(v) => SqlValue::Text(v.clone()), None => SqlValue::Null }}");
    reveal_with_fuel(text::plain_to, 31);
    lemma_holes_fsnake(fsnake);
    reveal_strlit("match &__row.");
    assert(s.subrange(0, 13) =~= "match &__row."@);
    text::lemma_fill_run(s, b, 0, "match &__row."@);
    reveal_strlit("fsnake");
    assert(s.subrange(14, 20) =~= "fsnake"@);
    text::lemma_fill_hole(s, b, 13, "fsnake"@);
    reveal_strlit(" ");
    assert(s.subrange(21, 22) =~= " "@);
    text::lemma_fill_run(s, b, 21, " "@);
    assert(text::fill_from(s, b, 22) == seq!['{'] + text::fill_from(s, b, 24));
    reveal_strlit(" Some(v) => SqlValue::Text(v.c");
    assert(s.subrange(24, 54) =~= " Some(v) => SqlValue::Text(v.c"@);
    text::lemma_fill_run(s, b, 24, " Some(v) => SqlValue::Text(v.c"@);
    reveal_strlit("lone()), None => SqlValue::Nul");
    assert(s.subrange(54, 84) =~= "lone()), None => SqlValue::Nul"@);
    text::lemma_fill_run(s, b, 54, "lone()), None => SqlValue::Nul"@);
    reveal_strlit("l ");
    assert(s.subrange(84, 86) =~= "l "@);
    text::lemma_fill_run(s, b, 84, "l "@);
    assert(text::fill_from(s, b, 86) == seq!['}'] + text::fill_from(s, b, 88));
    reveal_strlit(" { Some(v) => SqlValue::Text(v.clone()), None => SqlValue::Null }");
    assert((
        "match &__row."@
            + (
                fsnake
                    + (
                        " "@
                            + (
                                seq!['{']
                                    + (
                                        " Some(v) => SqlValue::Text(v.c"@
                                            + (
                                                "lone()), None => SqlValue::Nul"@
                                                    + (
                                                        "l "@
                                                            + (seq!['}'] + text::fill_from(s, b, 88))
                                                    )
                                            )
                                    )
                            )
                    )
            )
    )
        =~= "match &__row."@ + fsnake
            + " { Some(v) => SqlValue::Text(v.clone()), None => SqlValue::Null }"@);
}

proof fn lemma_field_option_blob(fsnake: Seq<char>)
    ensures
        text::fill(t::FIELD_OPTION_BLOB@, seq![("fsnake"@, fsnake)])
            == "match &__row."@ + fsnake
                + " { Some(v) => SqlValue::Blob(v.clone()), None => SqlValue::Null }"@,
{
    let s = t::FIELD_OPTION_BLOB@;
    let b = seq![("fsnake"@, fsnake)];
    reveal_strlit("match &__row.{fsnake} {{ Some(v) => SqlValue::Blob(v.clone()), None => SqlValue::Null }}");
    reveal_with_fuel(text::plain_to, 31);
    lemma_holes_fsnake(fsnake);
    reveal_strlit("match &__row.");
    assert(s.subrange(0, 13) =~= "match &__row."@);
    text::lemma_fill_run(s, b, 0, "match &__row."@);
    reveal_strlit("fsnake");
    assert(s.subrange(14, 20) =~= "fsnake"@);
    text::lemma_fill_hole(s, b, 13, "fsnake"@);
    reveal_strlit(" ");
    assert(s.subrange(21, 22) =~= " "@);
    text::lemma_fill_run(s, b, 21, " "@);
    assert(text::fill_from(s, b, 22) == seq!['{'] + text::fill_from(s, b, 24));
    reveal_strlit(" Some(v) => SqlValue::Blob(v.c");
    assert(s.subrange(24, 54) =~= " Some(v) => SqlValue::Blob(v.c"@);
    text::lemma_fill_run(s, b, 24, " Some(v) => SqlValue::Blob(v.c"@);
    reveal_strlit("lone()), None => SqlValue::Nul");
    assert(s.subrange(54, 84) =~= "lone()), None => SqlValue::Nul"@);
    text::lemma_fill_run(s, b, 54, "lone()), None => SqlValue::Nul"@);
    reveal_strlit("l ");
    assert(s.subrange(84, 86) =~= "l "@);
    text::lemma_fill_run(s, b, 84, "l "@);
    assert(text::fill_from(s, b, 86) == seq!['}'] + text::fill_from(s, b, 88));
    reveal_strlit(" { Some(v) => SqlValue::Blob(v.clone()), None => SqlValue::Null }");
    assert((
        "match &__row."@
            + (
                fsnake
                    + (
                        " "@
                            + (
                                seq!['{']
                                    + (
                                        " Some(v) => SqlValue::Blob(v.c"@
                                            + (
                                                "lone()), None => SqlValue::Nul"@
                                                    + (
                                                        "l "@
                                                            + (seq!['}'] + text::fill_from(s, b, 88))
                                                    )
                                            )
                                    )
                            )
                    )
            )
    )
        =~= "match &__row."@ + fsnake
            + " { Some(v) => SqlValue::Blob(v.clone()), None => SqlValue::Null }"@);
}

proof fn lemma_field_option_geom(fsnake: Seq<char>)
    ensures
        text::fill(t::FIELD_OPTION_GEOM@, seq![("fsnake"@, fsnake)])
            == "match &__row."@ + fsnake
                + " { Some(v) => SqlValue::Blob(v.as_wkb()), None => SqlValue::Null }"@,
{
    let s = t::FIELD_OPTION_GEOM@;
    let b = seq![("fsnake"@, fsnake)];
    reveal_strlit("match &__row.{fsnake} {{ Some(v) => SqlValue::Blob(v.as_wkb()), None => SqlValue::Null }}");
    reveal_with_fuel(text::plain_to, 31);
    lemma_holes_fsnake(fsnake);
    reveal_strlit("match &__row.");
    assert(s.subrange(0, 13) =~= "match &__row."@);
    text::lemma_fill_run(s, b, 0, "match &__row."@);
    reveal_strlit("fsnake");
    assert(s.subrange(14, 20) =~= "fsnake"@);
    text::lemma_fill_hole(s, b, 13, "fsnake"@);
    reveal_strlit(" ");
    assert(s.subrange(21, 22) =~= " "@);
    text::lemma_fill_run(s, b, 21, " "@);
    assert(text::fill_from(s, b, 22) == seq!['{'] + text::fill_from(s, b, 24));
    reveal_strlit(" Some(v) => SqlValue::Blob(v.a");
    assert(s.subrange(24, 54) =~= " Some(v) => SqlValue::Blob(v.a"@);
    text::lemma_fill_run(s, b, 24, " Some(v) => SqlValue::Blob(v.a"@);
    reveal_strlit("s_wkb()), None => SqlValue::Nu");
    assert(s.subrange(54, 84) =~= "s_wkb()), None => SqlValue::Nu"@);
    text::lemma_fill_run(s, b, 54, "s_wkb()), None => SqlValue::Nu"@);
    reveal_strlit("ll ");
    assert(s.subrange(84, 87) =~= "ll "@);
    text::lemma_fill_run(s, b, 84, "ll "@);
    assert(text::fill_from(s, b, 87) == seq!['}'] + text::fill_from(s, b, 89));
    reveal_strlit(" { Some(v) => SqlValue::Blob(v.as_wkb()), None => SqlValue::Null }");
    assert((
        "match &__row."@
            + (
                fsnake
                    + (
                        " "@
                            + (
                                seq!['{']
                                    + (
                                        " Some(v) => SqlValue::Blob(v.a"@
                                            + (
                                                "s_wkb()), None => SqlValue::Nu"@
                                                    + (
                                                        "ll "@
                                                            + (seq!['}'] + text::fill_from(s, b, 89))
                                                    )
                                            )
                                    )
                            )
                    )
            )
    )
        =~= "match &__row."@ + fsnake
            + " { Some(v) => SqlValue::Blob(v.as_wkb()), None => SqlValue::Null }"@);
}

} // verus!
