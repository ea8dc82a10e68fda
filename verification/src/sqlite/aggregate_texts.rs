//! What the arms of aggregates do with the rows: a step keeps what a finalization takes, and
//! the value of an aggregate is made by its shape.

use vstd::prelude::*;
use vstd::string::*;

use crate::calls;
use crate::ir::{AccKind, AggregateShape, ParamShape, RetShape, ScalarReturnKind};
use crate::sqlite::dispatch;
use crate::sqlite::dispatch_templates as t;
use crate::text;
use crate::words;

verus! {

/// Whether an aggregate can take all extra arguments of a shape.
pub open spec fn extras_wired(shape: AggregateShape) -> bool {
    forall|j: int|
        0 <= j < shape.extra_args@.len() ==> calls::extra_wired(#[trigger] shape.extra_args@[j])
}

proof fn lemma_all_wired(extras: Seq<ParamShape>, k: int)
    requires
        0 <= k <= extras.len(),
        forall|j: int| 0 <= j < extras.len() ==> calls::extra_wired(#[trigger] extras[j]),
    ensures
        calls::unwired_extra_from(extras, k) == extras.len(),
    decreases extras.len() - k,
{
    if k < extras.len() {
        lemma_all_wired(extras, k + 1);
    }
}

/// Step and finalization of an aggregate use one state: what the step pushes, the finalization
/// takes, and decodes it as what it is. Geometries and rasters are kept as bytes, each in a state
/// of their own, and records in the state of typed values.
pub proof fn law_state_taken_as_pushed(shape: AggregateShape, sql_name: Seq<char>, i: Seq<char>)
    ensures
        ({
            let step = dispatch::aggregate_step(shape, sql_name, i);
            let fin = dispatch::aggregate_finalize(shape, sql_name, i);
            match shape.accumulator_kind {
                AccKind::Geom => {
                    &&& words::has_piece(
                        step,
                        "let bytes = arg_blob(&args, 0, \""@ + sql_name + "\")?;"@,
                    )
                    &&& words::has_piece(step, "push_geom_state(context_id, bytes.to_vec());"@)
                    &&& extras_wired(shape) ==> {
                        &&& words::has_piece(fin, "let blobs = take_geom_state(context_id);"@)
                        &&& words::has_piece(fin, ".map(|b| Geometry::from_wkb(b))"@)
                        &&& words::has_piece(
                            fin,
                            "let refs: Vec<&Geometry> = geoms.iter().collect();"@,
                        )
                    }
                },
                AccKind::Raster => {
                    &&& words::has_piece(
                        step,
                        "let bytes = arg_blob(&args, 0, \""@ + sql_name + "\")?;"@,
                    )
                    &&& words::has_piece(step, "push_raster_state(context_id, bytes.to_vec());"@)
                    &&& extras_wired(shape) ==> {
                        &&& words::has_piece(fin, "let blobs = take_raster_state(context_id);"@)
                        &&& words::has_piece(
                            fin,
                            ".map(|b| from_raster_binary(b.as_slice(), \""@ + sql_name + "\"))"@,
                        )
                        &&& words::has_piece(
                            fin,
                            "let refs: Vec<&Raster> = rasters.iter().collect();"@,
                        )
                    }
                },
                AccKind::Record { input, .. } => {
                    &&& words::has_piece(step, "Some(SqlValue::WitValue(p)) => p.clone()"@)
                    &&& words::has_piece(step, "push_witvalue_state(context_id, payload);"@)
                    &&& words::has_piece(fin, "let payloads = take_witvalue_state(context_id);"@)
                    &&& words::has_piece(fin, "let __args = [SqlValue::WitValue(pw)];"@)
                    &&& words::has_piece(
                        fin,
                        "upstream_vec.push(arg_witvalue_"@ + words::snake(input.kebab_name@)
                            + "(&__args, 0, \""@ + sql_name + "\")?);"@,
                    )
                },
                AccKind::RecordToScalar { input, .. } | AccKind::RecordToTuple { input, .. } => {
                    &&& words::has_piece(step, "Some(SqlValue::WitValue(p)) => p.clone()"@)
                    &&& words::has_piece(step, "push_witvalue_state(context_id, payload);"@)
                    &&& extras_wired(shape) ==> {
                        &&& words::has_piece(fin, "let payloads = take_witvalue_state(context_id);"@)
                        &&& words::has_piece(fin, "let __args = [SqlValue::WitValue(pw)];"@)
                        &&& words::has_piece(
                            fin,
                            "upstream_vec.push(arg_witvalue_"@ + words::snake(input.kebab_name@)
                                + "(&__args, 0, \""@ + sql_name + "\")?);"@,
                        )
                    }
                },
                _ => true,
            }
        }),
{
    let extras = shape.extra_args@;
    if extras_wired(shape) {
        lemma_all_wired(extras, 0);
    }
    let extra_text = dispatch::extras_text(extras, sql_name, i);
    let holes = seq![("i"@, i), ("sql_name"@, sql_name)];
    match shape.accumulator_kind {
        AccKind::Geom | AccKind::Raster => {
            lemma_resource_step(shape, sql_name, i);
            lemma_finalize_geoms(i, sql_name);
            lemma_finalize_rasters(i, sql_name);
            let first = text::fill(
                if shape.accumulator_kind is Raster {
                    t::FINALIZE_RASTERS@
                } else {
                    t::FINALIZE_GEOMS@
                },
                holes,
            );
            words::lemma_pieces_around(
                first,
                extra_text,
                text::fill(
                    dispatch::aggregate_return_template(shape.ret),
                    dispatch::aggregate_call_holes(shape, "&refs"@, sql_name, i),
                ),
            );
        },
        AccKind::Record { input, output } => {
            lemma_record_step(shape, sql_name, i);
            let snake = words::snake(input.kebab_name@);
            lemma_finalize_records(i, snake, sql_name);
            let first = text::fill(
                t::FINALIZE_RECORDS@,
                seq![("i"@, i), ("in_snake"@, snake), ("sql_name"@, sql_name)],
            );
            words::lemma_pieces_kept(
                first,
                if extras.len() > 0 {
                    text::fill(t::RECORD_EXTRAS_UNWIRED@, holes)
                } else {
                    text::fill(
                        t::RECORD_CALL@,
                        seq![
                            ("i"@, i),
                            ("module"@, shape.wit_module@),
                            ("func"@, shape.wit_func@),
                            ("out_snake"@, words::snake(output.kebab_name@)),
                        ],
                    )
                },
            );
        },
        AccKind::RecordToScalar { input, output, optional } => {
            lemma_record_step(shape, sql_name, i);
            lemma_kept_records(shape, input.kebab_name@, sql_name, i);
            words::lemma_pieces_kept(
                dispatch::kept_records(shape, input.kebab_name@, sql_name, i),
                scalar_call(shape, output, optional, i),
            );
        },
        AccKind::RecordToTuple { input, optional } => {
            lemma_record_step(shape, sql_name, i);
            lemma_kept_records(shape, input.kebab_name@, sql_name, i);
            words::lemma_pieces_kept(
                dispatch::kept_records(shape, input.kebab_name@, sql_name, i),
                tuple_call(shape, optional, sql_name, i),
            );
        },
        _ => {},
    }
}

/// The call of the function that makes a scalar of the records.
spec fn scalar_call(
    shape: AggregateShape,
    output: ScalarReturnKind,
    optional: bool,
    i: Seq<char>,
) -> Seq<char> {
    text::fill(
        t::SCALAR_CALL@,
        seq![
            ("i"@, i),
            ("module"@, shape.wit_module@),
            ("func"@, shape.wit_func@),
            ("call_args"@, calls::accumulated_args("&upstream_vec"@, shape.extra_args@)),
            ("wrap"@, dispatch::scalar_wrap(output, optional)),
        ],
    )
}

/// How a tuple becomes a value.
spec fn tuple_body(optional: bool, sql_name: Seq<char>, i: Seq<char>) -> Seq<char> {
    text::fill(
        if optional {
            t::TUPLE_OPTIONAL@
        } else {
            t::TUPLE_BODY@
        },
        seq![("i"@, i), ("sql_name"@, sql_name)],
    )
}

/// The call of the function that makes a tuple of the records.
spec fn tuple_call(shape: AggregateShape, optional: bool, sql_name: Seq<char>, i: Seq<char>) -> Seq<
    char,
> {
    text::fill(
        t::TUPLE_CALL@,
        seq![
            ("i"@, i),
            ("module"@, shape.wit_module@),
            ("func"@, shape.wit_func@),
            ("call_args"@, calls::accumulated_args("&upstream_vec"@, shape.extra_args@)),
            ("body"@, tuple_body(optional, sql_name, i)),
        ],
    )
}

proof fn lemma_resource_step(shape: AggregateShape, sql_name: Seq<char>, i: Seq<char>)
    ensures
        ({
            let step = dispatch::resource_step(shape, sql_name, i);
            &&& words::has_piece(step, "let bytes = arg_blob(&args, 0, \""@ + sql_name + "\")?;"@)
            &&& shape.accumulator_kind is Raster ==> words::has_piece(step, "push_raster_state(context_id, bytes.to_vec());"@)
            &&& !(shape.accumulator_kind is Raster) ==> words::has_piece(step, "push_geom_state(context_id, bytes.to_vec());"@)
            &&& shape.extra_args@.len() > 0 ==> words::has_piece(step, "let extras: Vec<SqlValue> = args[1..].to_vec();"@)
            &&& shape.extra_args@.len() > 0 ==> words::has_piece(
                step,
                "set_or_validate_extras(context_id, extras, \""@ + sql_name + "\")?;"@,
            )
        }),
{
    let push = if shape.accumulator_kind is Raster {
        "push_raster_state"@
    } else {
        "push_geom_state"@
    };
    lemma_step(i, sql_name, push);
    lemma_step_extras(i, sql_name, push);
    reveal_strlit("push_raster_state");
    reveal_strlit("push_geom_state");
    reveal_strlit("(context_id, bytes.to_vec());");
    reveal_strlit("push_raster_state(context_id, bytes.to_vec());");
    reveal_strlit("push_geom_state(context_id, bytes.to_vec());");
    assert("push_raster_state"@ + "(context_id, bytes.to_vec());"@
        =~= "push_raster_state(context_id, bytes.to_vec());"@);
    assert("push_geom_state"@ + "(context_id, bytes.to_vec());"@
        =~= "push_geom_state(context_id, bytes.to_vec());"@);
}

proof fn lemma_record_step(shape: AggregateShape, sql_name: Seq<char>, i: Seq<char>)
    ensures
        ({
            let step = dispatch::record_step(shape, sql_name, i);
            &&& words::has_piece(step, "Some(SqlValue::WitValue(p)) => p.clone()"@)
            &&& words::has_piece(step, "push_witvalue_state(context_id, payload);"@)
            &&& shape.extra_args@.len() > 0 ==> words::has_piece(step, "let extras: Vec<SqlValue> = args[1..].to_vec();"@)
            &&& shape.extra_args@.len() > 0 ==> words::has_piece(
                step,
                "set_or_validate_extras(context_id, extras, \""@ + sql_name + "\")?;"@,
            )
        }),
{
    let extract = text::fill(t::STEP_RECORD@, seq![("i"@, i), ("sql_name"@, sql_name)]);
    lemma_step_record(i, sql_name);
    lemma_step_record_done(extract, i, sql_name);
    lemma_step_record_extras(extract, i, sql_name);
    words::lemma_pieces_of_piece(dispatch::record_step(shape, sql_name, i), extract);
}

proof fn lemma_kept_records(
    shape: AggregateShape,
    input: Seq<char>,
    sql_name: Seq<char>,
    i: Seq<char>,
)
    ensures
        ({
            let kept = dispatch::kept_records(shape, input, sql_name, i);
            &&& words::has_piece(kept, "let payloads = take_witvalue_state(context_id);"@)
            &&& words::has_piece(kept, "let __args = [SqlValue::WitValue(pw)];"@)
            &&& words::has_piece(
                kept,
                "upstream_vec.push(arg_witvalue_"@ + words::snake(input) + "(&__args, 0, \""@
                    + sql_name + "\")?);"@,
            )
        }),
{
    lemma_finalize_rows(i, words::snake(input), sql_name);
    words::lemma_pieces_kept(
        text::fill(
            t::FINALIZE_ROWS@,
            seq![("i"@, i), ("in_snake"@, words::snake(input)), ("sql_name"@, sql_name)],
        ),
        dispatch::extras_text(shape.extra_args@, sql_name, i),
    );
}

/// The step keeps the extra arguments, which are those behind the first, and the finalization
/// takes them back: extra argument `j` is read from the value at `j` of what was kept, with the
/// reader of its shape. An aggregate over records that makes a record takes none.
pub proof fn law_extras_taken_as_kept(
    shape: AggregateShape,
    sql_name: Seq<char>,
    i: Seq<char>,
    j: int,
)
    requires
        0 <= j < shape.extra_args@.len(),
        extras_wired(shape),
    ensures
        ({
            let step = dispatch::aggregate_step(shape, sql_name, i);
            &&& words::has_piece(step, "let extras: Vec<SqlValue> = args[1..].to_vec();"@)
            &&& words::has_piece(
                step,
                "set_or_validate_extras(context_id, extras, \""@ + sql_name + "\")?;"@,
            )
        }),
        !(shape.accumulator_kind is Record) ==> ({
            let s = dispatch::aggregate_finalize(shape, sql_name, i);
            let d = words::decimal(j as nat);
            &&& words::has_piece(s, "let extras = take_extras_state(context_id);"@)
            &&& match shape.extra_args@[j] {
                ParamShape::Text => words::has_piece(
                    s,
                    "let extra"@ + d + " = arg_text(&extras, "@ + d + ", \""@ + sql_name + "\")?;"@,
                ),
                ParamShape::F64 => words::has_piece(
                    s,
                    "let extra"@ + d + " = arg_f64(&extras, "@ + d + ", \""@ + sql_name + "\")?;"@,
                ),
                ParamShape::S32 => words::has_piece(
                    s,
                    "let extra"@ + d + " = arg_i64(&extras, "@ + d + ", \""@ + sql_name
                        + "\")? as i32;"@,
                ),
                ParamShape::S64 => words::has_piece(
                    s,
                    "let extra"@ + d + " = arg_i64(&extras, "@ + d + ", \""@ + sql_name + "\")?;"@,
                ),
                ParamShape::U32 => words::has_piece(
                    s,
                    "let extra"@ + d + " = arg_i64(&extras, "@ + d + ", \""@ + sql_name
                        + "\")? as u32;"@,
                ),
                ParamShape::U64 => words::has_piece(
                    s,
                    "let extra"@ + d + " = arg_i64(&extras, "@ + d + ", \""@ + sql_name
                        + "\")? as u64;"@,
                ),
                ParamShape::Bool => words::has_piece(
                    s,
                    "let extra"@ + d + " = arg_i64(&extras, "@ + d + ", \""@ + sql_name
                        + "\")? != 0;"@,
                ),
                ParamShape::Blob => words::has_piece(
                    s,
                    "let extra"@ + d + " = arg_blob(&extras, "@ + d + ", \""@ + sql_name + "\")?;"@,
                ),
                _ => shape.extra_args@[j] is OptionNone,
            }
        }),
        shape.accumulator_kind is Record ==> words::has_piece(
            dispatch::aggregate_finalize(shape, sql_name, i),
            "aggregate with extra args not yet wired"@,
        ),
{
    let extras = shape.extra_args@;
    let d = words::decimal(j as nat);
    lemma_all_wired(extras, 0);
    lemma_resource_step(shape, sql_name, i);
    lemma_record_step(shape, sql_name, i);
    let middle = dispatch::extras_text(extras, sql_name, i);
    lemma_extras_taken(extras, sql_name, i, j);
    match shape.accumulator_kind {
        AccKind::Record { input, output } => {
            lemma_record_extras_unwired(i, sql_name);
            words::lemma_pieces_moved(
                text::fill(
                    t::FINALIZE_RECORDS@,
                    seq![
                        ("i"@, i),
                        ("in_snake"@, words::snake(input.kebab_name@)),
                        ("sql_name"@, sql_name),
                    ],
                ),
                text::fill(t::RECORD_EXTRAS_UNWIRED@, seq![("i"@, i), ("sql_name"@, sql_name)]),
            );
        },
        AccKind::RecordToScalar { input, output, optional } => {
            lemma_extras_in_kept(shape, input.kebab_name@, sql_name, i);
            words::lemma_pieces_kept(
                dispatch::kept_records(shape, input.kebab_name@, sql_name, i),
                scalar_call(shape, output, optional, i),
            );
        },
        AccKind::RecordToTuple { input, optional } => {
            lemma_extras_in_kept(shape, input.kebab_name@, sql_name, i);
            words::lemma_pieces_kept(
                dispatch::kept_records(shape, input.kebab_name@, sql_name, i),
                tuple_call(shape, optional, sql_name, i),
            );
        },
        _ => {
            let first = text::fill(
                if shape.accumulator_kind is Raster {
                    t::FINALIZE_RASTERS@
                } else {
                    t::FINALIZE_GEOMS@
                },
                seq![("i"@, i), ("sql_name"@, sql_name)],
            );
            words::lemma_pieces_around(
                first,
                middle,
                text::fill(
                    dispatch::aggregate_return_template(shape.ret),
                    dispatch::aggregate_call_holes(shape, "&refs"@, sql_name, i),
                ),
            );
        },
    }
}

proof fn lemma_extras_in_kept(
    shape: AggregateShape,
    input: Seq<char>,
    sql_name: Seq<char>,
    i: Seq<char>,
)
    ensures
        forall|p: Seq<char>| #[trigger]
            words::has_piece(dispatch::extras_text(shape.extra_args@, sql_name, i), p)
                ==> words::has_piece(dispatch::kept_records(shape, input, sql_name, i), p),
{
    words::lemma_pieces_moved(
        text::fill(
            t::FINALIZE_ROWS@,
            seq![("i"@, i), ("in_snake"@, words::snake(input)), ("sql_name"@, sql_name)],
        ),
        dispatch::extras_text(shape.extra_args@, sql_name, i),
    );
}

proof fn lemma_extras_taken(extras: Seq<ParamShape>, sql_name: Seq<char>, i: Seq<char>, j: int)
    requires
        0 <= j < extras.len(),
    ensures
        ({
            let s = dispatch::extras_text(extras, sql_name, i);
            let d = words::decimal(j as nat);
            &&& words::has_piece(s, "let extras = take_extras_state(context_id);"@)
            &&& match extras[j] {
                ParamShape::Text => words::has_piece(
                    s,
                    "let extra"@ + d + " = arg_text(&extras, "@ + d + ", \""@ + sql_name + "\")?;"@,
                ),
                ParamShape::F64 => words::has_piece(
                    s,
                    "let extra"@ + d + " = arg_f64(&extras, "@ + d + ", \""@ + sql_name + "\")?;"@,
                ),
                ParamShape::S32 => words::has_piece(
                    s,
                    "let extra"@ + d + " = arg_i64(&extras, "@ + d + ", \""@ + sql_name
                        + "\")? as i32;"@,
                ),
                ParamShape::S64 => words::has_piece(
                    s,
                    "let extra"@ + d + " = arg_i64(&extras, "@ + d + ", \""@ + sql_name + "\")?;"@,
                ),
                ParamShape::U32 => words::has_piece(
                    s,
                    "let extra"@ + d + " = arg_i64(&extras, "@ + d + ", \""@ + sql_name
                        + "\")? as u32;"@,
                ),
                ParamShape::U64 => words::has_piece(
                    s,
                    "let extra"@ + d + " = arg_i64(&extras, "@ + d + ", \""@ + sql_name
                        + "\")? as u64;"@,
                ),
                ParamShape::Bool => words::has_piece(
                    s,
                    "let extra"@ + d + " = arg_i64(&extras, "@ + d + ", \""@ + sql_name
                        + "\")? != 0;"@,
                ),
                ParamShape::Blob => words::has_piece(
                    s,
                    "let extra"@ + d + " = arg_blob(&extras, "@ + d + ", \""@ + sql_name + "\")?;"@,
                ),
                _ => true,
            }
        }),
{
    lemma_extras_take(i);
    let first = text::fill(t::EXTRAS_TAKE@, seq![("i"@, i)]);
    let decls = dispatch::extra_decls(extras, sql_name, i, extras.len());
    lemma_extra_declared(extras, sql_name, i, extras.len(), j);
    words::lemma_pieces_kept(first, decls);
    words::lemma_pieces_moved(first, decls);
}

proof fn lemma_extra_declared(
    extras: Seq<ParamShape>,
    sql_name: Seq<char>,
    i: Seq<char>,
    n: nat,
    j: int,
)
    requires
        0 <= j < n <= extras.len(),
    ensures
        ({
            let s = dispatch::extra_decls(extras, sql_name, i, n);
            let d = words::decimal(j as nat);
            match extras[j] {
                ParamShape::Text => words::has_piece(
                    s,
                    "let extra"@ + d + " = arg_text(&extras, "@ + d + ", \""@ + sql_name + "\")?;"@,
                ),
                ParamShape::F64 => words::has_piece(
                    s,
                    "let extra"@ + d + " = arg_f64(&extras, "@ + d + ", \""@ + sql_name + "\")?;"@,
                ),
                ParamShape::S32 => words::has_piece(
                    s,
                    "let extra"@ + d + " = arg_i64(&extras, "@ + d + ", \""@ + sql_name
                        + "\")? as i32;"@,
                ),
                ParamShape::S64 => words::has_piece(
                    s,
                    "let extra"@ + d + " = arg_i64(&extras, "@ + d + ", \""@ + sql_name + "\")?;"@,
                ),
                ParamShape::U32 => words::has_piece(
                    s,
                    "let extra"@ + d + " = arg_i64(&extras, "@ + d + ", \""@ + sql_name
                        + "\")? as u32;"@,
                ),
                ParamShape::U64 => words::has_piece(
                    s,
                    "let extra"@ + d + " = arg_i64(&extras, "@ + d + ", \""@ + sql_name
                        + "\")? as u64;"@,
                ),
                ParamShape::Bool => words::has_piece(
                    s,
                    "let extra"@ + d + " = arg_i64(&extras, "@ + d + ", \""@ + sql_name
                        + "\")? != 0;"@,
                ),
                ParamShape::Blob => words::has_piece(
                    s,
                    "let extra"@ + d + " = arg_blob(&extras, "@ + d + ", \""@ + sql_name + "\")?;"@,
                ),
                _ => true,
            }
        }),
    decreases n,
{
    let before = dispatch::extra_decls(extras, sql_name, i, (n - 1) as nat);
    let decl = text::fill(
        dispatch::extra_template(extras[n - 1]),
        seq![("i"@, i), ("j"@, words::decimal((n - 1) as nat)), ("sql_name"@, sql_name)],
    );
    let d = words::decimal(j as nat);
    if j == n - 1 {
        match extras[j] {
            ParamShape::Text => lemma_extra_text(i, d, sql_name),
            ParamShape::F64 => lemma_extra_f64(i, d, sql_name),
            ParamShape::S32 => lemma_extra_s32(i, d, sql_name),
            ParamShape::S64 => lemma_extra_s64(i, d, sql_name),
            ParamShape::U32 => lemma_extra_u32(i, d, sql_name),
            ParamShape::U64 => lemma_extra_u64(i, d, sql_name),
            ParamShape::Bool => lemma_extra_bool(i, d, sql_name),
            ParamShape::Blob => lemma_extra_blob(i, d, sql_name),
            _ => {},
        }
        words::lemma_pieces_moved(before, decl);
    } else {
        lemma_extra_declared(extras, sql_name, i, (n - 1) as nat, j);
        words::lemma_pieces_kept(before, decl);
    }
}

/// An aggregate hands over what it kept and then its extra arguments, in their order.
pub proof fn law_accumulated_arguments(
    acc: Seq<char>,
    extras: Seq<ParamShape>,
    parts: Seq<Seq<char>>,
)
    requires
        parts.len() == extras.len() + 1,
        parts[0] == acc,
        forall|j: int|
            0 <= j < extras.len() ==> #[trigger] parts[j + 1] == if extras[j] is OptionNone {
                "None"@
            } else {
                "extra"@ + words::decimal(j as nat)
            },
    ensures
        calls::accumulated_args(acc, extras) == words::joined(parts, ", "@),
{
    if extras.len() > 0 {
        let rest = calls::call_extras(extras, "extra"@);
        assert(parts.skip(1) =~= rest);
        lemma_joined_first(parts, ", "@, parts.len());
    }
}

proof fn lemma_joined_first(parts: Seq<Seq<char>>, sep: Seq<char>, n: nat)
    requires
        2 <= n <= parts.len(),
    ensures
        words::joined_prefix(parts, sep, n) == parts[0] + sep + words::joined_prefix(
            parts.skip(1),
            sep,
            (n - 1) as nat,
        ),
    decreases n,
{
    reveal_with_fuel(words::joined_prefix, 2);
    if n > 2 {
        lemma_joined_first(parts, sep, (n - 1) as nat);
        let m = words::joined_prefix(parts.skip(1), sep, (n - 2) as nat);
        assert(parts[0] + sep + m + sep + parts[n - 1] =~= parts[0] + sep + (m + sep + parts[n - 1]));
    }
}

/// The function of an aggregate over geometries or rasters gets the references and the extra
/// arguments, and what it yields becomes the SQL value of its shape: geometries, rasters and
/// boxes become blobs and numbers become integers. A missing one becomes null.
pub proof fn law_resource_aggregate_values(shape: AggregateShape, sql_name: Seq<char>, i: Seq<char>)
    requires
        shape.accumulator_kind is Geom || shape.accumulator_kind is Raster,
        extras_wired(shape),
    ensures
        ({
            let fin = dispatch::aggregate_finalize(shape, sql_name, i);
            let args = calls::accumulated_args("&refs"@, shape.extra_args@);
            match shape.ret {
                RetShape::GeomBlob => {
                    &&& words::has_piece(
                        fin,
                        "let r = "@ + shape.wit_module@ + "::"@ + shape.wit_func@ + "("@ + args
                            + ")"@,
                    )
                    &&& words::has_piece(fin, "Ok(SqlValue::Blob(r.as_wkb()))"@)
                },
                RetShape::RasterBlob => {
                    &&& words::has_piece(
                        fin,
                        "let r = "@ + shape.wit_module@ + "::"@ + shape.wit_func@ + "("@ + args
                            + ")"@,
                    )
                    &&& words::has_piece(fin, "Ok(SqlValue::Blob(r.as_binary()))"@)
                },
                RetShape::FirstGeomBlob => {
                    &&& words::has_piece(
                        fin,
                        shape.wit_module@ + "::"@ + shape.wit_func@ + "("@ + args + ")"@,
                    )
                    &&& words::has_piece(fin, "Some(g) => Ok(SqlValue::Blob(g.as_wkb()))"@)
                    &&& words::has_piece(fin, "None => Ok(SqlValue::Null)"@)
                },
                RetShape::FirstOptionU32Int => {
                    &&& words::has_piece(
                        fin,
                        shape.wit_module@ + "::"@ + shape.wit_func@ + "("@ + args + ")"@,
                    )
                    &&& words::has_piece(fin, "Some(Some(v)) => Ok(SqlValue::Integer(*v as i64))"@)
                    &&& words::has_piece(fin, "Some(None) | None => Ok(SqlValue::Null)"@)
                },
                RetShape::Bbox3dWkbLineZ => {
                    &&& words::has_piece(
                        fin,
                        "let __bb = "@ + shape.wit_module@ + "::"@ + shape.wit_func@ + "("@ + args
                            + ");"@,
                    )
                    &&& words::has_piece(fin, "Ok(SqlValue::Blob(__wkb))"@)
                },
                _ => words::has_piece(fin, "aggregate return shape not wired"@),
            }
        }),
{
    let args = calls::accumulated_args("&refs"@, shape.extra_args@);
    lemma_all_wired(shape.extra_args@, 0);
    match shape.ret {
        RetShape::GeomBlob => lemma_agg_ret_geom(i, shape.wit_module@, shape.wit_func@, args, sql_name),
        RetShape::RasterBlob => lemma_agg_ret_raster(i, shape.wit_module@, shape.wit_func@, args, sql_name),
        RetShape::FirstGeomBlob => lemma_agg_ret_first_geom(i, shape.wit_module@, shape.wit_func@, args, sql_name),
        RetShape::FirstOptionU32Int => lemma_agg_ret_first_option_u32(i, shape.wit_module@, shape.wit_func@, args, sql_name),
        RetShape::Bbox3dWkbLineZ => lemma_agg_ret_bbox3d(i, shape.wit_module@, shape.wit_func@, args, sql_name),
        _ => lemma_agg_ret_unwired(i, shape.wit_module@, shape.wit_func@, args, sql_name),
    }
    words::lemma_pieces_moved(
        text::fill(
            if shape.accumulator_kind is Raster {
                t::FINALIZE_RASTERS@
            } else {
                t::FINALIZE_GEOMS@
            },
            seq![("i"@, i), ("sql_name"@, sql_name)],
        ) + dispatch::extras_text(shape.extra_args@, sql_name, i),
        text::fill(
            dispatch::aggregate_return_template(shape.ret),
            dispatch::aggregate_call_holes(shape, "&refs"@, sql_name, i),
        ),
    );
}

/// The function of an aggregate over records gets the records and the extra arguments. A scalar
/// becomes the SQL value of its kind, a real number or an integer; a tuple becomes a JSON text; a
/// record goes through the function of its type. A missing one becomes null.
pub proof fn law_record_aggregate_values(shape: AggregateShape, sql_name: Seq<char>, i: Seq<char>)
    requires
        extras_wired(shape),
    ensures
        ({
            let fin = dispatch::aggregate_finalize(shape, sql_name, i);
            let args = calls::accumulated_args("&upstream_vec"@, shape.extra_args@);
            match shape.accumulator_kind {
                AccKind::Record { output, .. } => shape.extra_args@.len() == 0 ==> {
                    &&& words::has_piece(
                        fin,
                        "let __r = "@ + shape.wit_module@ + "::"@ + shape.wit_func@
                            + "(&upstream_vec);"@,
                    )
                    &&& words::has_piece(
                        fin,
                        "Some(__rec) => ret_to_witvalue_"@ + words::snake(output.kebab_name@)
                            + "(__rec)"@,
                    )
                    &&& words::has_piece(fin, "None => Ok(SqlValue::Null)"@)
                },
                AccKind::RecordToScalar { output, optional, .. } => {
                    &&& words::has_piece(
                        fin,
                        "let __r = "@ + shape.wit_module@ + "::"@ + shape.wit_func@ + "("@ + args
                            + ");"@,
                    )
                    &&& match output {
                        ScalarReturnKind::F64 | ScalarReturnKind::F32 => {
                            &&& optional ==> words::has_piece(
                                fin,
                                "match __r { Some(v) => Ok(SqlValue::Real(v as f64)), None => Ok(SqlValue::Null) }"@,
                            )
                            &&& !optional ==> words::has_piece(fin, "Ok(SqlValue::Real(__r as f64))"@)
                        },
                        ScalarReturnKind::Bool => {
                            &&& optional ==> words::has_piece(
                                fin,
                                "match __r { Some(v) => Ok(SqlValue::Integer(if v { 1 } else { 0 })), None => Ok(SqlValue::Null) }"@,
                            )
                            &&& !optional ==> words::has_piece(
                                fin,
                                "Ok(SqlValue::Integer(if __r { 1 } else { 0 }))"@,
                            )
                        },
                        ScalarReturnKind::U32
                        | ScalarReturnKind::S32
                        | ScalarReturnKind::U64
                        | ScalarReturnKind::S64
                        | ScalarReturnKind::U8 => {
                            &&& optional ==> words::has_piece(
                                fin,
                                "match __r { Some(v) => Ok(SqlValue::Integer(v as i64)), None => Ok(SqlValue::Null) }"@,
                            )
                            &&& !optional ==> words::has_piece(fin, "Ok(SqlValue::Integer(__r as i64))"@)
                        },
                    }
                },
                AccKind::RecordToTuple { optional, .. } => {
                    &&& words::has_piece(
                        fin,
                        "let __r = "@ + shape.wit_module@ + "::"@ + shape.wit_func@ + "("@ + args
                            + ");"@,
                    )
                    &&& words::has_piece(fin, "Ok(SqlValue::Text(__json))"@)
                    &&& optional ==> words::has_piece(fin, "serde_json::to_string(&__t)"@)
                    &&& optional ==> words::has_piece(fin, "None => Ok(SqlValue::Null)"@)
                    &&& !optional ==> words::has_piece(fin, "serde_json::to_string(&__r)"@)
                },
                _ => true,
            }
        }),
{
    let args = calls::accumulated_args("&upstream_vec"@, shape.extra_args@);
    lemma_all_wired(shape.extra_args@, 0);
    match shape.accumulator_kind {
        AccKind::Record { input, output } => {
            let snake = words::snake(output.kebab_name@);
            lemma_record_call(i, shape.wit_module@, shape.wit_func@, snake);
            words::lemma_pieces_moved(
                text::fill(
                    t::FINALIZE_RECORDS@,
                    seq![
                        ("i"@, i),
                        ("in_snake"@, words::snake(input.kebab_name@)),
                        ("sql_name"@, sql_name),
                    ],
                ),
                text::fill(
                    t::RECORD_CALL@,
                    seq![
                        ("i"@, i),
                        ("module"@, shape.wit_module@),
                        ("func"@, shape.wit_func@),
                        ("out_snake"@, snake),
                    ],
                ),
            );
        },
        AccKind::RecordToScalar { input, output, optional } => {
            let wrap = dispatch::scalar_wrap(output, optional);
            lemma_scalar_call(i, shape.wit_module@, shape.wit_func@, args, wrap);
            lemma_scalar_wrap(output, optional);
            words::lemma_pieces_moved(
                dispatch::kept_records(shape, input.kebab_name@, sql_name, i),
                scalar_call(shape, output, optional, i),
            );
        },
        AccKind::RecordToTuple { input, optional } => {
            let body = tuple_body(optional, sql_name, i);
            lemma_tuple_call(i, shape.wit_module@, shape.wit_func@, args, body);
            lemma_tuple_optional(i, sql_name);
            lemma_tuple_body(i, sql_name);
            words::lemma_pieces_of_piece(tuple_call(shape, optional, sql_name, i), body);
            words::lemma_pieces_moved(
                dispatch::kept_records(shape, input.kebab_name@, sql_name, i),
                tuple_call(shape, optional, sql_name, i),
            );
        },
        _ => {},
    }
}

proof fn lemma_scalar_wrap(output: ScalarReturnKind, optional: bool)
    ensures
        optional ==> dispatch::scalar_wrap(output, optional) == match output {
            ScalarReturnKind::F64
            | ScalarReturnKind::F32 => "match __r { Some(v) => Ok(SqlValue::Real(v as f64)), None => Ok(SqlValue::Null) }"@,
            ScalarReturnKind::Bool => "match __r { Some(v) => Ok(SqlValue::Integer(if v { 1 } else { 0 })), None => Ok(SqlValue::Null) }"@,
            _ => "match __r { Some(v) => Ok(SqlValue::Integer(v as i64)), None => Ok(SqlValue::Null) }"@,
        },
        !optional ==> dispatch::scalar_wrap(output, optional) == match output {
            ScalarReturnKind::F64 | ScalarReturnKind::F32 => "Ok(SqlValue::Real(__r as f64))"@,
            ScalarReturnKind::Bool => "Ok(SqlValue::Integer(if __r { 1 } else { 0 }))"@,
            _ => "Ok(SqlValue::Integer(__r as i64))"@,
        },
{
    if optional {
        lemma_optional_wrap(dispatch::some_wrap(output));
        reveal_strlit("match __r { Some(v) => Ok(");
        reveal_strlit("), None => Ok(SqlValue::Null) }");
        match output {
            ScalarReturnKind::F64 | ScalarReturnKind::F32 => {
                reveal_strlit("SqlValue::Real(v as f64)");
                reveal_strlit("match __r { Some(v) => Ok(SqlValue::Real(v as f64)), None => Ok(SqlValue::Null) }");
                assert("match __r { Some(v) => Ok("@ + "SqlValue::Real(v as f64)"@
                    + "), None => Ok(SqlValue::Null) }"@
                    =~= "match __r { Some(v) => Ok(SqlValue::Real(v as f64)), None => Ok(SqlValue::Null) }"@);
            },
            ScalarReturnKind::Bool => {
                reveal_strlit("SqlValue::Integer(if v { 1 } else { 0 })");
                reveal_strlit("match __r { Some(v) => Ok(SqlValue::Integer(if v { 1 } else { 0 })), None => Ok(SqlValue::Null) }");
                assert("match __r { Some(v) => Ok("@ + "SqlValue::Integer(if v { 1 } else { 0 })"@
                    + "), None => Ok(SqlValue::Null) }"@
                    =~= "match __r { Some(v) => Ok(SqlValue::Integer(if v { 1 } else { 0 })), None => Ok(SqlValue::Null) }"@);
            },
            _ => {
                reveal_strlit("SqlValue::Integer(v as i64)");
                reveal_strlit("match __r { Some(v) => Ok(SqlValue::Integer(v as i64)), None => Ok(SqlValue::Null) }");
                assert("match __r { Some(v) => Ok("@ + "SqlValue::Integer(v as i64)"@
                    + "), None => Ok(SqlValue::Null) }"@
                    =~= "match __r { Some(v) => Ok(SqlValue::Integer(v as i64)), None => Ok(SqlValue::Null) }"@);
            },
        }
    }
}

proof fn lemma_holes_i_sql_name_push(i: Seq<char>, sql_name: Seq<char>, push: Seq<char>)
    ensures
        ({
            let b = seq![("i"@, i), ("sql_name"@, sql_name), ("push"@, push)];
            &&& text::lookup_from(b, "i"@, 0) == i
            &&& text::lookup_from(b, "sql_name"@, 0) == sql_name
            &&& text::lookup_from(b, "push"@, 0) == push
        }),
{
    reveal_strlit("i");
    reveal_strlit("sql_name");
    reveal_strlit("push");
    reveal_with_fuel(text::lookup_from, 4);
    assert("i"@.len() != "sql_name"@.len());
    assert("i"@.len() != "push"@.len());
    assert("sql_name"@.len() != "push"@.len());
}

proof fn lemma_holes_i_sql_name(i: Seq<char>, sql_name: Seq<char>)
    ensures
        ({
            let b = seq![("i"@, i), ("sql_name"@, sql_name)];
            &&& text::lookup_from(b, "i"@, 0) == i
            &&& text::lookup_from(b, "sql_name"@, 0) == sql_name
        }),
{
    reveal_strlit("i");
    reveal_strlit("sql_name");
    reveal_with_fuel(text::lookup_from, 3);
    assert("i"@.len() != "sql_name"@.len());
}

proof fn lemma_holes_extract_i_sql_name(extract: Seq<char>, i: Seq<char>, sql_name: Seq<char>)
    ensures
        ({
            let b = seq![("extract"@, extract), ("i"@, i), ("sql_name"@, sql_name)];
            &&& text::lookup_from(b, "extract"@, 0) == extract
            &&& text::lookup_from(b, "i"@, 0) == i
            &&& text::lookup_from(b, "sql_name"@, 0) == sql_name
        }),
{
    reveal_strlit("extract");
    reveal_strlit("i");
    reveal_strlit("sql_name");
    reveal_with_fuel(text::lookup_from, 4);
    assert("extract"@.len() != "i"@.len());
    assert("extract"@.len() != "sql_name"@.len());
    assert("i"@.len() != "sql_name"@.len());
}

proof fn lemma_holes_i_in_snake_sql_name(i: Seq<char>, in_snake: Seq<char>, sql_name: Seq<char>)
    ensures
        ({
            let b = seq![("i"@, i), ("in_snake"@, in_snake), ("sql_name"@, sql_name)];
            &&& text::lookup_from(b, "i"@, 0) == i
            &&& text::lookup_from(b, "in_snake"@, 0) == in_snake
            &&& text::lookup_from(b, "sql_name"@, 0) == sql_name
        }),
{
    reveal_strlit("i");
    reveal_strlit("in_snake");
    reveal_strlit("sql_name");
    reveal_with_fuel(text::lookup_from, 4);
    assert("i"@.len() != "in_snake"@.len());
    assert("i"@.len() != "sql_name"@.len());
    assert("in_snake"@[0] != "sql_name"@[0]);
}

proof fn lemma_holes_i(i: Seq<char>)
    ensures
        ({
            let b = seq![("i"@, i)];
            &&& text::lookup_from(b, "i"@, 0) == i
        }),
{
    reveal_strlit("i");
    reveal_with_fuel(text::lookup_from, 2);

}

proof fn lemma_holes_i_j_sql_name(i: Seq<char>, j: Seq<char>, sql_name: Seq<char>)
    ensures
        ({
            let b = seq![("i"@, i), ("j"@, j), ("sql_name"@, sql_name)];
            &&& text::lookup_from(b, "i"@, 0) == i
            &&& text::lookup_from(b, "j"@, 0) == j
            &&& text::lookup_from(b, "sql_name"@, 0) == sql_name
        }),
{
    reveal_strlit("i");
    reveal_strlit("j");
    reveal_strlit("sql_name");
    reveal_with_fuel(text::lookup_from, 4);
    assert("i"@[0] != "j"@[0]);
    assert("i"@.len() != "sql_name"@.len());
    assert("j"@.len() != "sql_name"@.len());
}

proof fn lemma_holes_i_module_func_call_args_sql_name(
    i: Seq<char>,
    module: Seq<char>,
    func: Seq<char>,
    call_args: Seq<char>,
    sql_name: Seq<char>,
)
    ensures
        ({
            let b = seq![("i"@, i), ("module"@, module), ("func"@, func), ("call_args"@, call_args), ("sql_name"@, sql_name)];
            &&& text::lookup_from(b, "i"@, 0) == i
            &&& text::lookup_from(b, "module"@, 0) == module
            &&& text::lookup_from(b, "func"@, 0) == func
            &&& text::lookup_from(b, "call_args"@, 0) == call_args
            &&& text::lookup_from(b, "sql_name"@, 0) == sql_name
        }),
{
    reveal_strlit("i");
    reveal_strlit("module");
    reveal_strlit("func");
    reveal_strlit("call_args");
    reveal_strlit("sql_name");
    reveal_with_fuel(text::lookup_from, 6);
    assert("i"@.len() != "module"@.len());
    assert("i"@.len() != "func"@.len());
    assert("i"@.len() != "call_args"@.len());
    assert("i"@.len() != "sql_name"@.len());
    assert("module"@.len() != "func"@.len());
    assert("module"@.len() != "call_args"@.len());
    assert("module"@.len() != "sql_name"@.len());
    assert("func"@.len() != "call_args"@.len());
    assert("func"@.len() != "sql_name"@.len());
    assert("call_args"@.len() != "sql_name"@.len());
}

proof fn lemma_holes_i_module_func_out_snake(
    i: Seq<char>,
    module: Seq<char>,
    func: Seq<char>,
    out_snake: Seq<char>,
)
    ensures
        ({
            let b = seq![("i"@, i), ("module"@, module), ("func"@, func), ("out_snake"@, out_snake)];
            &&& text::lookup_from(b, "i"@, 0) == i
            &&& text::lookup_from(b, "module"@, 0) == module
            &&& text::lookup_from(b, "func"@, 0) == func
            &&& text::lookup_from(b, "out_snake"@, 0) == out_snake
        }),
{
    reveal_strlit("i");
    reveal_strlit("module");
    reveal_strlit("func");
    reveal_strlit("out_snake");
    reveal_with_fuel(text::lookup_from, 5);
    assert("i"@.len() != "module"@.len());
    assert("i"@.len() != "func"@.len());
    assert("i"@.len() != "out_snake"@.len());
    assert("module"@.len() != "func"@.len());
    assert("module"@.len() != "out_snake"@.len());
    assert("func"@.len() != "out_snake"@.len());
}

proof fn lemma_holes_i_module_func_call_args_wrap(
    i: Seq<char>,
    module: Seq<char>,
    func: Seq<char>,
    call_args: Seq<char>,
    wrap: Seq<char>,
)
    ensures
        ({
            let b = seq![("i"@, i), ("module"@, module), ("func"@, func), ("call_args"@, call_args), ("wrap"@, wrap)];
            &&& text::lookup_from(b, "i"@, 0) == i
            &&& text::lookup_from(b, "module"@, 0) == module
            &&& text::lookup_from(b, "func"@, 0) == func
            &&& text::lookup_from(b, "call_args"@, 0) == call_args
            &&& text::lookup_from(b, "wrap"@, 0) == wrap
        }),
{
    reveal_strlit("i");
    reveal_strlit("module");
    reveal_strlit("func");
    reveal_strlit("call_args");
    reveal_strlit("wrap");
    reveal_with_fuel(text::lookup_from, 6);
    assert("i"@.len() != "module"@.len());
    assert("i"@.len() != "func"@.len());
    assert("i"@.len() != "call_args"@.len());
    assert("i"@.len() != "wrap"@.len());
    assert("module"@.len() != "func"@.len());
    assert("module"@.len() != "call_args"@.len());
    assert("module"@.len() != "wrap"@.len());
    assert("func"@.len() != "call_args"@.len());
    assert("func"@[0] != "wrap"@[0]);
    assert("call_args"@.len() != "wrap"@.len());
}

proof fn lemma_holes_i_module_func_call_args_body(
    i: Seq<char>,
    module: Seq<char>,
    func: Seq<char>,
    call_args: Seq<char>,
    body: Seq<char>,
)
    ensures
        ({
            let b = seq![("i"@, i), ("module"@, module), ("func"@, func), ("call_args"@, call_args), ("body"@, body)];
            &&& text::lookup_from(b, "i"@, 0) == i
            &&& text::lookup_from(b, "module"@, 0) == module
            &&& text::lookup_from(b, "func"@, 0) == func
            &&& text::lookup_from(b, "call_args"@, 0) == call_args
            &&& text::lookup_from(b, "body"@, 0) == body
        }),
{
    reveal_strlit("i");
    reveal_strlit("module");
    reveal_strlit("func");
    reveal_strlit("call_args");
    reveal_strlit("body");
    reveal_with_fuel(text::lookup_from, 6);
    assert("i"@.len() != "module"@.len());
    assert("i"@.len() != "func"@.len());
    assert("i"@.len() != "call_args"@.len());
    assert("i"@.len() != "body"@.len());
    assert("module"@.len() != "func"@.len());
    assert("module"@.len() != "call_args"@.len());
    assert("module"@.len() != "body"@.len());
    assert("func"@.len() != "call_args"@.len());
    assert("func"@[0] != "body"@[0]);
    assert("call_args"@.len() != "body"@.len());
}

proof fn lemma_holes_some_wrap(some_wrap: Seq<char>)
    ensures
        ({
            let b = seq![("some_wrap"@, some_wrap)];
            &&& text::lookup_from(b, "some_wrap"@, 0) == some_wrap
        }),
{
    reveal_strlit("some_wrap");
    reveal_with_fuel(text::lookup_from, 2);

}

proof fn lemma_step(i: Seq<char>, sql_name: Seq<char>, push: Seq<char>)
    ensures
        words::has_piece(
            text::fill(t::STEP@, seq![("i"@, i), ("sql_name"@, sql_name), ("push"@, push)]),
            "let bytes = arg_blob(&args, 0, \""@ + sql_name + "\")?;"@,
        ),
        words::has_piece(
            text::fill(t::STEP@, seq![("i"@, i), ("sql_name"@, sql_name), ("push"@, push)]),
            push + "(context_id, bytes.to_vec());"@,
        ),
{
    let s = t::STEP@;
    reveal_strlit(r#"{i}let bytes = arg_blob(&args, 0, "{sql_name}")?;
{i}{push}(context_id, bytes.to_vec());
{i}Ok(())"#);
    reveal_with_fuel(text::plain_to, 31);
    let b = seq![("i"@, i), ("sql_name"@, sql_name), ("push"@, push)];
    lemma_holes_i_sql_name_push(i, sql_name, push);
    assert(words::has_piece(
        text::fill(t::STEP@, b),
        "let bytes = arg_blob(&args, 0, \""@ + sql_name + "\")?;"@,
    )) by {
        let before = text::lemma_fill_reaches(s, b, 3);
        reveal_strlit("let bytes = arg_blob(&args, 0,");
        assert(s.subrange(3, 33) =~= "let bytes = arg_blob(&args, 0,"@);
        text::lemma_fill_run(s, b, 3, "let bytes = arg_blob(&args, 0,"@);
        reveal_strlit(" \"");
        assert(s.subrange(33, 35) =~= " \""@);
        text::lemma_fill_run(s, b, 33, " \""@);
        reveal_strlit("sql_name");
        assert(s.subrange(36, 44) =~= "sql_name"@);
        text::lemma_fill_hole(s, b, 35, "sql_name"@);
        reveal_strlit("\")?;");
        assert(s.subrange(45, 49) =~= "\")?;"@);
        text::lemma_fill_run(s, b, 45, "\")?;"@);
        let rest = text::fill_from(s, b, 49);
        let part = "let bytes = arg_blob(&args, 0, \""@ + sql_name + "\")?;"@;
        reveal_strlit("let bytes = arg_blob(&args, 0, \"");
        assert(("let bytes = arg_blob(&args, 0,"@ + (" \""@ + (sql_name + ("\")?;"@ + rest))))
            =~= part + rest);
        words::lemma_piece_between(before, part, rest);
    }
    assert(words::has_piece(text::fill(t::STEP@, b), push + "(context_id, bytes.to_vec());"@)) by {
        let before = text::lemma_fill_reaches(s, b, 53);
        reveal_strlit("push");
        assert(s.subrange(54, 58) =~= "push"@);
        text::lemma_fill_hole(s, b, 53, "push"@);
        reveal_strlit("(context_id, bytes.to_vec());");
        assert(s.subrange(59, 88) =~= "(context_id, bytes.to_vec());"@);
        text::lemma_fill_run(s, b, 59, "(context_id, bytes.to_vec());"@);
        let rest = text::fill_from(s, b, 88);
        let part = push + "(context_id, bytes.to_vec());"@;
        assert((push + ("(context_id, bytes.to_vec());"@ + rest)) =~= part + rest);
        words::lemma_piece_between(before, part, rest);
    }
}

proof fn lemma_step_extras(i: Seq<char>, sql_name: Seq<char>, push: Seq<char>)
    ensures
        words::has_piece(
            text::fill(t::STEP_EXTRAS@, seq![("i"@, i), ("sql_name"@, sql_name), ("push"@, push)]),
            "let bytes = arg_blob(&args, 0, \""@ + sql_name + "\")?;"@,
        ),
        words::has_piece(
            text::fill(t::STEP_EXTRAS@, seq![("i"@, i), ("sql_name"@, sql_name), ("push"@, push)]),
            push + "(context_id, bytes.to_vec());"@,
        ),
        words::has_piece(
            text::fill(t::STEP_EXTRAS@, seq![("i"@, i), ("sql_name"@, sql_name), ("push"@, push)]),
            "let extras: Vec<SqlValue> = args[1..].to_vec();"@,
        ),
        words::has_piece(
            text::fill(t::STEP_EXTRAS@, seq![("i"@, i), ("sql_name"@, sql_name), ("push"@, push)]),
            "set_or_validate_extras(context_id, extras, \""@ + sql_name + "\")?;"@,
        ),
{
    let s = t::STEP_EXTRAS@;
    reveal_strlit(r#"{i}let bytes = arg_blob(&args, 0, "{sql_name}")?;
{i}{push}(context_id, bytes.to_vec());
{i}// Round 2: latch extra constant args (1..) on first step.
{i}let extras: Vec<SqlValue> = args[1..].to_vec();
{i}set_or_validate_extras(context_id, extras, "{sql_name}")?;
{i}Ok(())"#);
    reveal_with_fuel(text::plain_to, 31);
    let b = seq![("i"@, i), ("sql_name"@, sql_name), ("push"@, push)];
    lemma_holes_i_sql_name_push(i, sql_name, push);
    assert(words::has_piece(
        text::fill(t::STEP_EXTRAS@, b),
        "let bytes = arg_blob(&args, 0, \""@ + sql_name + "\")?;"@,
    )) by {
        let before = text::lemma_fill_reaches(s, b, 3);
        reveal_strlit("let bytes = arg_blob(&args, 0,");
        assert(s.subrange(3, 33) =~= "let bytes = arg_blob(&args, 0,"@);
        text::lemma_fill_run(s, b, 3, "let bytes = arg_blob(&args, 0,"@);
        reveal_strlit(" \"");
        assert(s.subrange(33, 35) =~= " \""@);
        text::lemma_fill_run(s, b, 33, " \""@);
        reveal_strlit("sql_name");
        assert(s.subrange(36, 44) =~= "sql_name"@);
        text::lemma_fill_hole(s, b, 35, "sql_name"@);
        reveal_strlit("\")?;");
        assert(s.subrange(45, 49) =~= "\")?;"@);
        text::lemma_fill_run(s, b, 45, "\")?;"@);
        let rest = text::fill_from(s, b, 49);
        let part = "let bytes = arg_blob(&args, 0, \""@ + sql_name + "\")?;"@;
        reveal_strlit("let bytes = arg_blob(&args, 0, \"");
        assert(("let bytes = arg_blob(&args, 0,"@ + (" \""@ + (sql_name + ("\")?;"@ + rest))))
            =~= part + rest);
        words::lemma_piece_between(before, part, rest);
    }
    assert(words::has_piece(text::fill(t::STEP_EXTRAS@, b), push + "(context_id, bytes.to_vec());"@)) by {
        let before = text::lemma_fill_reaches(s, b, 53);
        reveal_strlit("push");
        assert(s.subrange(54, 58) =~= "push"@);
        text::lemma_fill_hole(s, b, 53, "push"@);
        reveal_strlit("(context_id, bytes.to_vec());");
        assert(s.subrange(59, 88) =~= "(context_id, bytes.to_vec());"@);
        text::lemma_fill_run(s, b, 59, "(context_id, bytes.to_vec());"@);
        let rest = text::fill_from(s, b, 88);
        let part = push + "(context_id, bytes.to_vec());"@;
        assert((push + ("(context_id, bytes.to_vec());"@ + rest)) =~= part + rest);
        words::lemma_piece_between(before, part, rest);
    }
    assert(words::has_piece(
        text::fill(t::STEP_EXTRAS@, b),
        "let extras: Vec<SqlValue> = args[1..].to_vec();"@,
    )) by {
        let before = text::lemma_fill_reaches(s, b, 154);
        reveal_strlit("let extras: Vec<SqlValue> = ar");
        assert(s.subrange(154, 184) =~= "let extras: Vec<SqlValue> = ar"@);
        text::lemma_fill_run(s, b, 154, "let extras: Vec<SqlValue> = ar"@);
        reveal_strlit("gs[1..].to_vec();");
        assert(s.subrange(184, 201) =~= "gs[1..].to_vec();"@);
        text::lemma_fill_run(s, b, 184, "gs[1..].to_vec();"@);
        let rest = text::fill_from(s, b, 201);
        let part = "let extras: Vec<SqlValue> = args[1..].to_vec();"@;
        reveal_strlit("let extras: Vec<SqlValue> = args[1..].to_vec();");
        assert(("let extras: Vec<SqlValue> = ar"@ + ("gs[1..].to_vec();"@ + rest)) =~= part + rest);
        words::lemma_piece_between(before, part, rest);
    }
    assert(words::has_piece(
        text::fill(t::STEP_EXTRAS@, b),
        "set_or_validate_extras(context_id, extras, \""@ + sql_name + "\")?;"@,
    )) by {
        let before = text::lemma_fill_reaches(s, b, 205);
        reveal_strlit("set_or_validate_extras(context");
        assert(s.subrange(205, 235) =~= "set_or_validate_extras(context"@);
        text::lemma_fill_run(s, b, 205, "set_or_validate_extras(context"@);
        reveal_strlit("_id, extras, \"");
        assert(s.subrange(235, 249) =~= "_id, extras, \""@);
        text::lemma_fill_run(s, b, 235, "_id, extras, \""@);
        reveal_strlit("sql_name");
        assert(s.subrange(250, 258) =~= "sql_name"@);
        text::lemma_fill_hole(s, b, 249, "sql_name"@);
        reveal_strlit("\")?;");
        assert(s.subrange(259, 263) =~= "\")?;"@);
        text::lemma_fill_run(s, b, 259, "\")?;"@);
        let rest = text::fill_from(s, b, 263);
        let part = "set_or_validate_extras(context_id, extras, \""@ + sql_name + "\")?;"@;
        reveal_strlit("set_or_validate_extras(context_id, extras, \"");
        assert(("set_or_validate_extras(context"@ + ("_id, extras, \""@ + (sql_name + ("\")?;"@ + rest))))
            =~= part + rest);
        words::lemma_piece_between(before, part, rest);
    }
}

proof fn lemma_step_record(i: Seq<char>, sql_name: Seq<char>)
    ensures
        words::has_piece(
            text::fill(t::STEP_RECORD@, seq![("i"@, i), ("sql_name"@, sql_name)]),
            "Some(SqlValue::WitValue(p)) => p.clone()"@,
        ),
        words::has_piece(
            text::fill(t::STEP_RECORD@, seq![("i"@, i), ("sql_name"@, sql_name)]),
            "push_witvalue_state(context_id, payload);"@,
        ),
{
    let s = t::STEP_RECORD@;
    reveal_strlit(r#"{i}let payload = match args.get(0) {{
{i}    Some(SqlValue::WitValue(p)) => p.clone(),
{i}    _ => return Err(format!("{sql_name}: arg 0 must be WIT-VALUE")),
{i}}};
{i}push_witvalue_state(context_id, payload);
"#);
    reveal_with_fuel(text::plain_to, 31);
    let b = seq![("i"@, i), ("sql_name"@, sql_name)];
    lemma_holes_i_sql_name(i, sql_name);
    assert(words::has_piece(text::fill(t::STEP_RECORD@, b), "Some(SqlValue::WitValue(p)) => p.clone()"@)) by {
        let before = text::lemma_fill_reaches(s, b, 41);
        reveal_strlit("    ");
        assert(s.subrange(41, 45) =~= "    "@);
        text::lemma_fill_run(s, b, 41, "    "@);
        reveal_strlit("Some(SqlValue::WitValue(p)) =>");
        assert(s.subrange(45, 75) =~= "Some(SqlValue::WitValue(p)) =>"@);
        text::lemma_fill_run(s, b, 45, "Some(SqlValue::WitValue(p)) =>"@);
        reveal_strlit(" p.clone()");
        assert(s.subrange(75, 85) =~= " p.clone()"@);
        text::lemma_fill_run(s, b, 75, " p.clone()"@);
        let rest = text::fill_from(s, b, 85);
        let part = "Some(SqlValue::WitValue(p)) => p.clone()"@;
        reveal_strlit("Some(SqlValue::WitValue(p)) => p.clone()");
        assert(("Some(SqlValue::WitValue(p)) =>"@ + (" p.clone()"@ + rest)) =~= part + rest);
        assert(before + ("    "@ + (part + rest)) =~= (before + "    "@) + (part + rest));
        words::lemma_piece_between(before + "    "@, part, rest);
    }
    assert(words::has_piece(text::fill(t::STEP_RECORD@, b), "push_witvalue_state(context_id, payload);"@)) by {
        let before = text::lemma_fill_reaches(s, b, 169);
        reveal_strlit("push_witvalue_state(context_id");
        assert(s.subrange(169, 199) =~= "push_witvalue_state(context_id"@);
        text::lemma_fill_run(s, b, 169, "push_witvalue_state(context_id"@);
        reveal_strlit(", payload);");
        assert(s.subrange(199, 210) =~= ", payload);"@);
        text::lemma_fill_run(s, b, 199, ", payload);"@);
        let rest = text::fill_from(s, b, 210);
        let part = "push_witvalue_state(context_id, payload);"@;
        reveal_strlit("push_witvalue_state(context_id, payload);");
        assert(("push_witvalue_state(context_id"@ + (", payload);"@ + rest)) =~= part + rest);
        words::lemma_piece_between(before, part, rest);
    }
}

proof fn lemma_step_record_done(extract: Seq<char>, i: Seq<char>, sql_name: Seq<char>)
    ensures
        words::has_piece(
            text::fill(
                t::STEP_RECORD_DONE@,
                seq![("extract"@, extract), ("i"@, i), ("sql_name"@, sql_name)],
            ),
            extract,
        ),
{
    let s = t::STEP_RECORD_DONE@;
    reveal_strlit("{extract}{i}Ok(())");
    reveal_with_fuel(text::plain_to, 31);
    let b = seq![("extract"@, extract), ("i"@, i), ("sql_name"@, sql_name)];
    lemma_holes_extract_i_sql_name(extract, i, sql_name);
    assert(words::has_piece(text::fill(t::STEP_RECORD_DONE@, b), extract)) by {
        let before = text::lemma_fill_reaches(s, b, 0);
        reveal_strlit("extract");
        assert(s.subrange(1, 8) =~= "extract"@);
        text::lemma_fill_hole(s, b, 0, "extract"@);
        let rest = text::fill_from(s, b, 9);
        let part = extract;
        words::lemma_piece_between(before, part, rest);
    }
}

proof fn lemma_step_record_extras(extract: Seq<char>, i: Seq<char>, sql_name: Seq<char>)
    ensures
        words::has_piece(
            text::fill(
                t::STEP_RECORD_EXTRAS@,
                seq![("extract"@, extract), ("i"@, i), ("sql_name"@, sql_name)],
            ),
            extract,
        ),
        words::has_piece(
            text::fill(
                t::STEP_RECORD_EXTRAS@,
                seq![("extract"@, extract), ("i"@, i), ("sql_name"@, sql_name)],
            ),
            "let extras: Vec<SqlValue> = args[1..].to_vec();"@,
        ),
        words::has_piece(
            text::fill(
                t::STEP_RECORD_EXTRAS@,
                seq![("extract"@, extract), ("i"@, i), ("sql_name"@, sql_name)],
            ),
            "set_or_validate_extras(context_id, extras, \""@ + sql_name + "\")?;"@,
        ),
{
    let s = t::STEP_RECORD_EXTRAS@;
    reveal_strlit(r#"{extract}{i}// Round 2: latch extra constant args (1..) on first step.
{i}let extras: Vec<SqlValue> = args[1..].to_vec();
{i}set_or_validate_extras(context_id, extras, "{sql_name}")?;
{i}Ok(())"#);
    reveal_with_fuel(text::plain_to, 31);
    let b = seq![("extract"@, extract), ("i"@, i), ("sql_name"@, sql_name)];
    lemma_holes_extract_i_sql_name(extract, i, sql_name);
    assert(words::has_piece(text::fill(t::STEP_RECORD_EXTRAS@, b), extract)) by {
        let before = text::lemma_fill_reaches(s, b, 0);
        reveal_strlit("extract");
        assert(s.subrange(1, 8) =~= "extract"@);
        text::lemma_fill_hole(s, b, 0, "extract"@);
        let rest = text::fill_from(s, b, 9);
        let part = extract;
        words::lemma_piece_between(before, part, rest);
    }
    assert(words::has_piece(
        text::fill(t::STEP_RECORD_EXTRAS@, b),
        "let extras: Vec<SqlValue> = args[1..].to_vec();"@,
    )) by {
        let before = text::lemma_fill_reaches(s, b, 74);
        reveal_strlit("let extras: Vec<SqlValue> = ar");
        assert(s.subrange(74, 104) =~= "let extras: Vec<SqlValue> = ar"@);
        text::lemma_fill_run(s, b, 74, "let extras: Vec<SqlValue> = ar"@);
        reveal_strlit("gs[1..].to_vec();");
        assert(s.subrange(104, 121) =~= "gs[1..].to_vec();"@);
        text::lemma_fill_run(s, b, 104, "gs[1..].to_vec();"@);
        let rest = text::fill_from(s, b, 121);
        let part = "let extras: Vec<SqlValue> = args[1..].to_vec();"@;
        reveal_strlit("let extras: Vec<SqlValue> = args[1..].to_vec();");
        assert(("let extras: Vec<SqlValue> = ar"@ + ("gs[1..].to_vec();"@ + rest)) =~= part + rest);
        words::lemma_piece_between(before, part, rest);
    }
    assert(words::has_piece(
        text::fill(t::STEP_RECORD_EXTRAS@, b),
        "set_or_validate_extras(context_id, extras, \""@ + sql_name + "\")?;"@,
    )) by {
        let before = text::lemma_fill_reaches(s, b, 125);
        reveal_strlit("set_or_validate_extras(context");
        assert(s.subrange(125, 155) =~= "set_or_validate_extras(context"@);
        text::lemma_fill_run(s, b, 125, "set_or_validate_extras(context"@);
        reveal_strlit("_id, extras, \"");
        assert(s.subrange(155, 169) =~= "_id, extras, \""@);
        text::lemma_fill_run(s, b, 155, "_id, extras, \""@);
        reveal_strlit("sql_name");
        assert(s.subrange(170, 178) =~= "sql_name"@);
        text::lemma_fill_hole(s, b, 169, "sql_name"@);
        reveal_strlit("\")?;");
        assert(s.subrange(179, 183) =~= "\")?;"@);
        text::lemma_fill_run(s, b, 179, "\")?;"@);
        let rest = text::fill_from(s, b, 183);
        let part = "set_or_validate_extras(context_id, extras, \""@ + sql_name + "\")?;"@;
        reveal_strlit("set_or_validate_extras(context_id, extras, \"");
        assert(("set_or_validate_extras(context"@ + ("_id, extras, \""@ + (sql_name + ("\")?;"@ + rest))))
            =~= part + rest);
        words::lemma_piece_between(before, part, rest);
    }
}

proof fn lemma_finalize_geoms(i: Seq<char>, sql_name: Seq<char>)
    ensures
        words::has_piece(
            text::fill(t::FINALIZE_GEOMS@, seq![("i"@, i), ("sql_name"@, sql_name)]),
            "let blobs = take_geom_state(context_id);"@,
        ),
        words::has_piece(
            text::fill(t::FINALIZE_GEOMS@, seq![("i"@, i), ("sql_name"@, sql_name)]),
            ".map(|b| Geometry::from_wkb(b))"@,
        ),
        words::has_piece(
            text::fill(t::FINALIZE_GEOMS@, seq![("i"@, i), ("sql_name"@, sql_name)]),
            "let refs: Vec<&Geometry> = geoms.iter().collect();"@,
        ),
{
    let s = t::FINALIZE_GEOMS@;
    reveal_strlit(r#"{i}let blobs = take_geom_state(context_id);
{i}let geoms: Vec<Geometry> = blobs.iter()
{i}    .map(|b| Geometry::from_wkb(b))
{i}    .collect::<Result<Vec<_>, _>>()
{i}    .map_err(|e| format!("{sql_name}: {{}}", postgis_err_string(e)))?;
{i}let refs: Vec<&Geometry> = geoms.iter().collect();
"#);
    reveal_with_fuel(text::plain_to, 31);
    let b = seq![("i"@, i), ("sql_name"@, sql_name)];
    lemma_holes_i_sql_name(i, sql_name);
    assert(words::has_piece(
        text::fill(t::FINALIZE_GEOMS@, b),
        "let blobs = take_geom_state(context_id);"@,
    )) by {
        let before = text::lemma_fill_reaches(s, b, 3);
        reveal_strlit("let blobs = take_geom_state(co");
        assert(s.subrange(3, 33) =~= "let blobs = take_geom_state(co"@);
        text::lemma_fill_run(s, b, 3, "let blobs = take_geom_state(co"@);
        reveal_strlit("ntext_id);");
        assert(s.subrange(33, 43) =~= "ntext_id);"@);
        text::lemma_fill_run(s, b, 33, "ntext_id);"@);
        let rest = text::fill_from(s, b, 43);
        let part = "let blobs = take_geom_state(context_id);"@;
        reveal_strlit("let blobs = take_geom_state(context_id);");
        assert(("let blobs = take_geom_state(co"@ + ("ntext_id);"@ + rest)) =~= part + rest);
        words::lemma_piece_between(before, part, rest);
    }
    assert(words::has_piece(text::fill(t::FINALIZE_GEOMS@, b), ".map(|b| Geometry::from_wkb(b))"@)) by {
        let before = text::lemma_fill_reaches(s, b, 90);
        reveal_strlit("    ");
        assert(s.subrange(90, 94) =~= "    "@);
        text::lemma_fill_run(s, b, 90, "    "@);
        reveal_strlit(".map(|b| Geometry::from_wkb(b)");
        assert(s.subrange(94, 124) =~= ".map(|b| Geometry::from_wkb(b)"@);
        text::lemma_fill_run(s, b, 94, ".map(|b| Geometry::from_wkb(b)"@);
        reveal_strlit(")");
        assert(s.subrange(124, 125) =~= ")"@);
        text::lemma_fill_run(s, b, 124, ")"@);
        let rest = text::fill_from(s, b, 125);
        let part = ".map(|b| Geometry::from_wkb(b))"@;
        reveal_strlit(".map(|b| Geometry::from_wkb(b))");
        assert((".map(|b| Geometry::from_wkb(b)"@ + (")"@ + rest)) =~= part + rest);
        assert(before + ("    "@ + (part + rest)) =~= (before + "    "@) + (part + rest));
        words::lemma_piece_between(before + "    "@, part, rest);
    }
    assert(words::has_piece(
        text::fill(t::FINALIZE_GEOMS@, b),
        "let refs: Vec<&Geometry> = geoms.iter().collect();"@,
    )) by {
        let before = text::lemma_fill_reaches(s, b, 242);
        reveal_strlit("let refs: Vec<&Geometry> = geo");
        assert(s.subrange(242, 272) =~= "let refs: Vec<&Geometry> = geo"@);
        text::lemma_fill_run(s, b, 242, "let refs: Vec<&Geometry> = geo"@);
        reveal_strlit("ms.iter().collect();");
        assert(s.subrange(272, 292) =~= "ms.iter().collect();"@);
        text::lemma_fill_run(s, b, 272, "ms.iter().collect();"@);
        let rest = text::fill_from(s, b, 292);
        let part = "let refs: Vec<&Geometry> = geoms.iter().collect();"@;
        reveal_strlit("let refs: Vec<&Geometry> = geoms.iter().collect();");
        assert(("let refs: Vec<&Geometry> = geo"@ + ("ms.iter().collect();"@ + rest)) =~= part + rest);
        words::lemma_piece_between(before, part, rest);
    }
}

proof fn lemma_finalize_rasters(i: Seq<char>, sql_name: Seq<char>)
    ensures
        words::has_piece(
            text::fill(t::FINALIZE_RASTERS@, seq![("i"@, i), ("sql_name"@, sql_name)]),
            "let blobs = take_raster_state(context_id);"@,
        ),
        words::has_piece(
            text::fill(t::FINALIZE_RASTERS@, seq![("i"@, i), ("sql_name"@, sql_name)]),
            ".map(|b| from_raster_binary(b.as_slice(), \""@ + sql_name + "\"))"@,
        ),
        words::has_piece(
            text::fill(t::FINALIZE_RASTERS@, seq![("i"@, i), ("sql_name"@, sql_name)]),
            "let refs: Vec<&Raster> = rasters.iter().collect();"@,
        ),
{
    let s = t::FINALIZE_RASTERS@;
    reveal_strlit(r#"{i}let blobs = take_raster_state(context_id);
{i}let rasters: Vec<Raster> = blobs.iter()
{i}    .map(|b| from_raster_binary(b.as_slice(), "{sql_name}"))
{i}    .collect::<Result<Vec<_>, _>>()?;
{i}let refs: Vec<&Raster> = rasters.iter().collect();
"#);
    reveal_with_fuel(text::plain_to, 31);
    let b = seq![("i"@, i), ("sql_name"@, sql_name)];
    lemma_holes_i_sql_name(i, sql_name);
    assert(words::has_piece(
        text::fill(t::FINALIZE_RASTERS@, b),
        "let blobs = take_raster_state(context_id);"@,
    )) by {
        let before = text::lemma_fill_reaches(s, b, 3);
        reveal_strlit("let blobs = take_raster_state(");
        assert(s.subrange(3, 33) =~= "let blobs = take_raster_state("@);
        text::lemma_fill_run(s, b, 3, "let blobs = take_raster_state("@);
        reveal_strlit("context_id);");
        assert(s.subrange(33, 45) =~= "context_id);"@);
        text::lemma_fill_run(s, b, 33, "context_id);"@);
        let rest = text::fill_from(s, b, 45);
        let part = "let blobs = take_raster_state(context_id);"@;
        reveal_strlit("let blobs = take_raster_state(context_id);");
        assert(("let blobs = take_raster_state("@ + ("context_id);"@ + rest)) =~= part + rest);
        words::lemma_piece_between(before, part, rest);
    }
    assert(words::has_piece(
        text::fill(t::FINALIZE_RASTERS@, b),
        ".map(|b| from_raster_binary(b.as_slice(), \""@ + sql_name + "\"))"@,
    )) by {
        let before = text::lemma_fill_reaches(s, b, 92);
        reveal_strlit("    ");
        assert(s.subrange(92, 96) =~= "    "@);
        text::lemma_fill_run(s, b, 92, "    "@);
        reveal_strlit(".map(|b| from_raster_binary(b.");
        assert(s.subrange(96, 126) =~= ".map(|b| from_raster_binary(b."@);
        text::lemma_fill_run(s, b, 96, ".map(|b| from_raster_binary(b."@);
        reveal_strlit("as_slice(), \"");
        assert(s.subrange(126, 139) =~= "as_slice(), \""@);
        text::lemma_fill_run(s, b, 126, "as_slice(), \""@);
        reveal_strlit("sql_name");
        assert(s.subrange(140, 148) =~= "sql_name"@);
        text::lemma_fill_hole(s, b, 139, "sql_name"@);
        reveal_strlit("\"))");
        assert(s.subrange(149, 152) =~= "\"))"@);
        text::lemma_fill_run(s, b, 149, "\"))"@);
        let rest = text::fill_from(s, b, 152);
        let part = ".map(|b| from_raster_binary(b.as_slice(), \""@ + sql_name + "\"))"@;
        reveal_strlit(".map(|b| from_raster_binary(b.as_slice(), \"");
        assert((".map(|b| from_raster_binary(b."@ + ("as_slice(), \""@ + (sql_name + ("\"))"@ + rest))))
            =~= part + rest);
        assert(before + ("    "@ + (part + rest)) =~= (before + "    "@) + (part + rest));
        words::lemma_piece_between(before + "    "@, part, rest);
    }
    assert(words::has_piece(
        text::fill(t::FINALIZE_RASTERS@, b),
        "let refs: Vec<&Raster> = rasters.iter().collect();"@,
    )) by {
        let before = text::lemma_fill_reaches(s, b, 197);
        reveal_strlit("let refs: Vec<&Raster> = raste");
        assert(s.subrange(197, 227) =~= "let refs: Vec<&Raster> = raste"@);
        text::lemma_fill_run(s, b, 197, "let refs: Vec<&Raster> = raste"@);
        reveal_strlit("rs.iter().collect();");
        assert(s.subrange(227, 247) =~= "rs.iter().collect();"@);
        text::lemma_fill_run(s, b, 227, "rs.iter().collect();"@);
        let rest = text::fill_from(s, b, 247);
        let part = "let refs: Vec<&Raster> = rasters.iter().collect();"@;
        reveal_strlit("let refs: Vec<&Raster> = rasters.iter().collect();");
        assert(("let refs: Vec<&Raster> = raste"@ + ("rs.iter().collect();"@ + rest)) =~= part + rest);
        words::lemma_piece_between(before, part, rest);
    }
}

proof fn lemma_finalize_records(i: Seq<char>, in_snake: Seq<char>, sql_name: Seq<char>)
    ensures
        words::has_piece(
            text::fill(
                t::FINALIZE_RECORDS@,
                seq![("i"@, i), ("in_snake"@, in_snake), ("sql_name"@, sql_name)],
            ),
            "let payloads = take_witvalue_state(context_id);"@,
        ),
        words::has_piece(
            text::fill(
                t::FINALIZE_RECORDS@,
                seq![("i"@, i), ("in_snake"@, in_snake), ("sql_name"@, sql_name)],
            ),
            "let __args = [SqlValue::WitValue(pw)];"@,
        ),
        words::has_piece(
            text::fill(
                t::FINALIZE_RECORDS@,
                seq![("i"@, i), ("in_snake"@, in_snake), ("sql_name"@, sql_name)],
            ),
            "upstream_vec.push(arg_witvalue_"@ + in_snake + "(&__args, 0, \""@ + sql_name
                + "\")?);"@,
        ),
{
    let s = t::FINALIZE_RECORDS@;
    reveal_strlit(r#"{i}let payloads = take_witvalue_state(context_id);
{i}let mut upstream_vec = Vec::with_capacity(payloads.len());
{i}for pw in payloads {{
{i}    // Slice trick: arg_witvalue_<snake> takes the standard
{i}    // `&[SqlValue]` / idx signature. Synthesise a one-element
{i}    // slice so we can reuse the helper from the aggregate
{i}    // finalize site.
{i}    let __args = [SqlValue::WitValue(pw)];
{i}    upstream_vec.push(arg_witvalue_{in_snake}(&__args, 0, "{sql_name}")?);
{i}}}
"#);
    reveal_with_fuel(text::plain_to, 31);
    let b = seq![("i"@, i), ("in_snake"@, in_snake), ("sql_name"@, sql_name)];
    lemma_holes_i_in_snake_sql_name(i, in_snake, sql_name);
    assert(words::has_piece(
        text::fill(t::FINALIZE_RECORDS@, b),
        "let payloads = take_witvalue_state(context_id);"@,
    )) by {
        let before = text::lemma_fill_reaches(s, b, 3);
        reveal_strlit("let payloads = take_witvalue_s");
        assert(s.subrange(3, 33) =~= "let payloads = take_witvalue_s"@);
        text::lemma_fill_run(s, b, 3, "let payloads = take_witvalue_s"@);
        reveal_strlit("tate(context_id);");
        assert(s.subrange(33, 50) =~= "tate(context_id);"@);
        text::lemma_fill_run(s, b, 33, "tate(context_id);"@);
        let rest = text::fill_from(s, b, 50);
        let part = "let payloads = take_witvalue_state(context_id);"@;
        reveal_strlit("let payloads = take_witvalue_state(context_id);");
        assert(("let payloads = take_witvalue_s"@ + ("tate(context_id);"@ + rest)) =~= part + rest);
        words::lemma_piece_between(before, part, rest);
    }
    assert(words::has_piece(
        text::fill(t::FINALIZE_RECORDS@, b),
        "let __args = [SqlValue::WitValue(pw)];"@,
    )) by {
        let before = text::lemma_fill_reaches(s, b, 357);
        reveal_strlit("    ");
        assert(s.subrange(357, 361) =~= "    "@);
        text::lemma_fill_run(s, b, 357, "    "@);
        reveal_strlit("let __args = [SqlValue::WitVal");
        assert(s.subrange(361, 391) =~= "let __args = [SqlValue::WitVal"@);
        text::lemma_fill_run(s, b, 361, "let __args = [SqlValue::WitVal"@);
        reveal_strlit("ue(pw)];");
        assert(s.subrange(391, 399) =~= "ue(pw)];"@);
        text::lemma_fill_run(s, b, 391, "ue(pw)];"@);
        let rest = text::fill_from(s, b, 399);
        let part = "let __args = [SqlValue::WitValue(pw)];"@;
        reveal_strlit("let __args = [SqlValue::WitValue(pw)];");
        assert(("let __args = [SqlValue::WitVal"@ + ("ue(pw)];"@ + rest)) =~= part + rest);
        assert(before + ("    "@ + (part + rest)) =~= (before + "    "@) + (part + rest));
        words::lemma_piece_between(before + "    "@, part, rest);
    }
    assert(words::has_piece(
        text::fill(t::FINALIZE_RECORDS@, b),
        "upstream_vec.push(arg_witvalue_"@ + in_snake + "(&__args, 0, \""@ + sql_name + "\")?);"@,
    )) by {
        let before = text::lemma_fill_reaches(s, b, 403);
        reveal_strlit("    ");
        assert(s.subrange(403, 407) =~= "    "@);
        text::lemma_fill_run(s, b, 403, "    "@);
        reveal_strlit("upstream_vec.push(arg_witvalue");
        assert(s.subrange(407, 437) =~= "upstream_vec.push(arg_witvalue"@);
        text::lemma_fill_run(s, b, 407, "upstream_vec.push(arg_witvalue"@);
        reveal_strlit("_");
        assert(s.subrange(437, 438) =~= "_"@);
        text::lemma_fill_run(s, b, 437, "_"@);
        reveal_strlit("in_snake");
        assert(s.subrange(439, 447) =~= "in_snake"@);
        text::lemma_fill_hole(s, b, 438, "in_snake"@);
        reveal_strlit("(&__args, 0, \"");
        assert(s.subrange(448, 462) =~= "(&__args, 0, \""@);
        text::lemma_fill_run(s, b, 448, "(&__args, 0, \""@);
        reveal_strlit("sql_name");
        assert(s.subrange(463, 471) =~= "sql_name"@);
        text::lemma_fill_hole(s, b, 462, "sql_name"@);
        reveal_strlit("\")?);");
        assert(s.subrange(472, 477) =~= "\")?);"@);
        text::lemma_fill_run(s, b, 472, "\")?);"@);
        let rest = text::fill_from(s, b, 477);
        let part = "upstream_vec.push(arg_witvalue_"@ + in_snake + "(&__args, 0, \""@ + sql_name + "\")?);"@;
        reveal_strlit("upstream_vec.push(arg_witvalue_");
        assert((
            "upstream_vec.push(arg_witvalue"@
                + ("_"@ + (in_snake + ("(&__args, 0, \""@ + (sql_name + ("\")?);"@ + rest)))))
        )
            =~= part + rest);
        assert(before + ("    "@ + (part + rest)) =~= (before + "    "@) + (part + rest));
        words::lemma_piece_between(before + "    "@, part, rest);
    }
}

proof fn lemma_finalize_rows(i: Seq<char>, in_snake: Seq<char>, sql_name: Seq<char>)
    ensures
        words::has_piece(
            text::fill(
                t::FINALIZE_ROWS@,
                seq![("i"@, i), ("in_snake"@, in_snake), ("sql_name"@, sql_name)],
            ),
            "let payloads = take_witvalue_state(context_id);"@,
        ),
        words::has_piece(
            text::fill(
                t::FINALIZE_ROWS@,
                seq![("i"@, i), ("in_snake"@, in_snake), ("sql_name"@, sql_name)],
            ),
            "let __args = [SqlValue::WitValue(pw)];"@,
        ),
        words::has_piece(
            text::fill(
                t::FINALIZE_ROWS@,
                seq![("i"@, i), ("in_snake"@, in_snake), ("sql_name"@, sql_name)],
            ),
            "upstream_vec.push(arg_witvalue_"@ + in_snake + "(&__args, 0, \""@ + sql_name
                + "\")?);"@,
        ),
{
    let s = t::FINALIZE_ROWS@;
    reveal_strlit(r#"{i}let payloads = take_witvalue_state(context_id);
{i}let mut upstream_vec = Vec::with_capacity(payloads.len());
{i}for pw in payloads {{
{i}    let __args = [SqlValue::WitValue(pw)];
{i}    upstream_vec.push(arg_witvalue_{in_snake}(&__args, 0, "{sql_name}")?);
{i}}}
"#);
    reveal_with_fuel(text::plain_to, 31);
    let b = seq![("i"@, i), ("in_snake"@, in_snake), ("sql_name"@, sql_name)];
    lemma_holes_i_in_snake_sql_name(i, in_snake, sql_name);
    assert(words::has_piece(
        text::fill(t::FINALIZE_ROWS@, b),
        "let payloads = take_witvalue_state(context_id);"@,
    )) by {
        let before = text::lemma_fill_reaches(s, b, 3);
        reveal_strlit("let payloads = take_witvalue_s");
        assert(s.subrange(3, 33) =~= "let payloads = take_witvalue_s"@);
        text::lemma_fill_run(s, b, 3, "let payloads = take_witvalue_s"@);
        reveal_strlit("tate(context_id);");
        assert(s.subrange(33, 50) =~= "tate(context_id);"@);
        text::lemma_fill_run(s, b, 33, "tate(context_id);"@);
        let rest = text::fill_from(s, b, 50);
        let part = "let payloads = take_witvalue_state(context_id);"@;
        reveal_strlit("let payloads = take_witvalue_state(context_id);");
        assert(("let payloads = take_witvalue_s"@ + ("tate(context_id);"@ + rest)) =~= part + rest);
        words::lemma_piece_between(before, part, rest);
    }
    assert(words::has_piece(text::fill(t::FINALIZE_ROWS@, b), "let __args = [SqlValue::WitValue(pw)];"@)) by {
        let before = text::lemma_fill_reaches(s, b, 141);
        reveal_strlit("    ");
        assert(s.subrange(141, 145) =~= "    "@);
        text::lemma_fill_run(s, b, 141, "    "@);
        reveal_strlit("let __args = [SqlValue::WitVal");
        assert(s.subrange(145, 175) =~= "let __args = [SqlValue::WitVal"@);
        text::lemma_fill_run(s, b, 145, "let __args = [SqlValue::WitVal"@);
        reveal_strlit("ue(pw)];");
        assert(s.subrange(175, 183) =~= "ue(pw)];"@);
        text::lemma_fill_run(s, b, 175, "ue(pw)];"@);
        let rest = text::fill_from(s, b, 183);
        let part = "let __args = [SqlValue::WitValue(pw)];"@;
        reveal_strlit("let __args = [SqlValue::WitValue(pw)];");
        assert(("let __args = [SqlValue::WitVal"@ + ("ue(pw)];"@ + rest)) =~= part + rest);
        assert(before + ("    "@ + (part + rest)) =~= (before + "    "@) + (part + rest));
        words::lemma_piece_between(before + "    "@, part, rest);
    }
    assert(words::has_piece(
        text::fill(t::FINALIZE_ROWS@, b),
        "upstream_vec.push(arg_witvalue_"@ + in_snake + "(&__args, 0, \""@ + sql_name + "\")?);"@,
    )) by {
        let before = text::lemma_fill_reaches(s, b, 187);
        reveal_strlit("    ");
        assert(s.subrange(187, 191) =~= "    "@);
        text::lemma_fill_run(s, b, 187, "    "@);
        reveal_strlit("upstream_vec.push(arg_witvalue");
        assert(s.subrange(191, 221) =~= "upstream_vec.push(arg_witvalue"@);
        text::lemma_fill_run(s, b, 191, "upstream_vec.push(arg_witvalue"@);
        reveal_strlit("_");
        assert(s.subrange(221, 222) =~= "_"@);
        text::lemma_fill_run(s, b, 221, "_"@);
        reveal_strlit("in_snake");
        assert(s.subrange(223, 231) =~= "in_snake"@);
        text::lemma_fill_hole(s, b, 222, "in_snake"@);
        reveal_strlit("(&__args, 0, \"");
        assert(s.subrange(232, 246) =~= "(&__args, 0, \""@);
        text::lemma_fill_run(s, b, 232, "(&__args, 0, \""@);
        reveal_strlit("sql_name");
        assert(s.subrange(247, 255) =~= "sql_name"@);
        text::lemma_fill_hole(s, b, 246, "sql_name"@);
        reveal_strlit("\")?);");
        assert(s.subrange(256, 261) =~= "\")?);"@);
        text::lemma_fill_run(s, b, 256, "\")?);"@);
        let rest = text::fill_from(s, b, 261);
        let part = "upstream_vec.push(arg_witvalue_"@ + in_snake + "(&__args, 0, \""@ + sql_name + "\")?);"@;
        reveal_strlit("upstream_vec.push(arg_witvalue_");
        assert((
            "upstream_vec.push(arg_witvalue"@
                + ("_"@ + (in_snake + ("(&__args, 0, \""@ + (sql_name + ("\")?);"@ + rest)))))
        )
            =~= part + rest);
        assert(before + ("    "@ + (part + rest)) =~= (before + "    "@) + (part + rest));
        words::lemma_piece_between(before + "    "@, part, rest);
    }
}

proof fn lemma_extras_take(i: Seq<char>)
    ensures
        words::has_piece(
            text::fill(t::EXTRAS_TAKE@, seq![("i"@, i)]),
            "let extras = take_extras_state(context_id);"@,
        ),
{
    let s = t::EXTRAS_TAKE@;
    reveal_strlit("{i}let extras = take_extras_state(context_id);\n");
    reveal_with_fuel(text::plain_to, 31);
    let b = seq![("i"@, i)];
    lemma_holes_i(i);
    assert(words::has_piece(
        text::fill(t::EXTRAS_TAKE@, b),
        "let extras = take_extras_state(context_id);"@,
    )) by {
        let before = text::lemma_fill_reaches(s, b, 3);
        reveal_strlit("let extras = take_extras_state");
        assert(s.subrange(3, 33) =~= "let extras = take_extras_state"@);
        text::lemma_fill_run(s, b, 3, "let extras = take_extras_state"@);
        reveal_strlit("(context_id);");
        assert(s.subrange(33, 46) =~= "(context_id);"@);
        text::lemma_fill_run(s, b, 33, "(context_id);"@);
        let rest = text::fill_from(s, b, 46);
        let part = "let extras = take_extras_state(context_id);"@;
        reveal_strlit("let extras = take_extras_state(context_id);");
        assert(("let extras = take_extras_state"@ + ("(context_id);"@ + rest)) =~= part + rest);
        words::lemma_piece_between(before, part, rest);
    }
}

proof fn lemma_extra_text(i: Seq<char>, j: Seq<char>, sql_name: Seq<char>)
    ensures
        words::has_piece(
            text::fill(t::EXTRA_TEXT@, seq![("i"@, i), ("j"@, j), ("sql_name"@, sql_name)]),
            "let extra"@ + j + " = arg_text(&extras, "@ + j + ", \""@ + sql_name + "\")?;"@,
        ),
{
    let s = t::EXTRA_TEXT@;
    reveal_strlit("{i}let extra{j} = arg_text(&extras, {j}, \"{sql_name}\")?;\n");
    reveal_with_fuel(text::plain_to, 31);
    let b = seq![("i"@, i), ("j"@, j), ("sql_name"@, sql_name)];
    lemma_holes_i_j_sql_name(i, j, sql_name);
    assert(words::has_piece(
        text::fill(t::EXTRA_TEXT@, b),
        "let extra"@ + j + " = arg_text(&extras, "@ + j + ", \""@ + sql_name + "\")?;"@,
    )) by {
        let before = text::lemma_fill_reaches(s, b, 3);
        reveal_strlit("let extra");
        assert(s.subrange(3, 12) =~= "let extra"@);
        text::lemma_fill_run(s, b, 3, "let extra"@);
        reveal_strlit("j");
        assert(s.subrange(13, 14) =~= "j"@);
        text::lemma_fill_hole(s, b, 12, "j"@);
        reveal_strlit(" = arg_text(&extras, ");
        assert(s.subrange(15, 36) =~= " = arg_text(&extras, "@);
        text::lemma_fill_run(s, b, 15, " = arg_text(&extras, "@);
        assert(s.subrange(37, 38) =~= "j"@);
        text::lemma_fill_hole(s, b, 36, "j"@);
        reveal_strlit(", \"");
        assert(s.subrange(39, 42) =~= ", \""@);
        text::lemma_fill_run(s, b, 39, ", \""@);
        reveal_strlit("sql_name");
        assert(s.subrange(43, 51) =~= "sql_name"@);
        text::lemma_fill_hole(s, b, 42, "sql_name"@);
        reveal_strlit("\")?;");
        assert(s.subrange(52, 56) =~= "\")?;"@);
        text::lemma_fill_run(s, b, 52, "\")?;"@);
        let rest = text::fill_from(s, b, 56);
        let part = "let extra"@ + j + " = arg_text(&extras, "@ + j + ", \""@ + sql_name + "\")?;"@;
        assert((
            "let extra"@
                + (j + (" = arg_text(&extras, "@ + (j + (", \""@ + (sql_name + ("\")?;"@ + rest))))))
        )
            =~= part + rest);
        words::lemma_piece_between(before, part, rest);
    }
}

proof fn lemma_extra_f64(i: Seq<char>, j: Seq<char>, sql_name: Seq<char>)
    ensures
        words::has_piece(
            text::fill(t::EXTRA_F64@, seq![("i"@, i), ("j"@, j), ("sql_name"@, sql_name)]),
            "let extra"@ + j + " = arg_f64(&extras, "@ + j + ", \""@ + sql_name + "\")?;"@,
        ),
{
    let s = t::EXTRA_F64@;
    reveal_strlit("{i}let extra{j} = arg_f64(&extras, {j}, \"{sql_name}\")?;\n");
    reveal_with_fuel(text::plain_to, 31);
    let b = seq![("i"@, i), ("j"@, j), ("sql_name"@, sql_name)];
    lemma_holes_i_j_sql_name(i, j, sql_name);
    assert(words::has_piece(
        text::fill(t::EXTRA_F64@, b),
        "let extra"@ + j + " = arg_f64(&extras, "@ + j + ", \""@ + sql_name + "\")?;"@,
    )) by {
        let before = text::lemma_fill_reaches(s, b, 3);
        reveal_strlit("let extra");
        assert(s.subrange(3, 12) =~= "let extra"@);
        text::lemma_fill_run(s, b, 3, "let extra"@);
        reveal_strlit("j");
        assert(s.subrange(13, 14) =~= "j"@);
        text::lemma_fill_hole(s, b, 12, "j"@);
        reveal_strlit(" = arg_f64(&extras, ");
        assert(s.subrange(15, 35) =~= " = arg_f64(&extras, "@);
        text::lemma_fill_run(s, b, 15, " = arg_f64(&extras, "@);
        assert(s.subrange(36, 37) =~= "j"@);
        text::lemma_fill_hole(s, b, 35, "j"@);
        reveal_strlit(", \"");
        assert(s.subrange(38, 41) =~= ", \""@);
        text::lemma_fill_run(s, b, 38, ", \""@);
        reveal_strlit("sql_name");
        assert(s.subrange(42, 50) =~= "sql_name"@);
        text::lemma_fill_hole(s, b, 41, "sql_name"@);
        reveal_strlit("\")?;");
        assert(s.subrange(51, 55) =~= "\")?;"@);
        text::lemma_fill_run(s, b, 51, "\")?;"@);
        let rest = text::fill_from(s, b, 55);
        let part = "let extra"@ + j + " = arg_f64(&extras, "@ + j + ", \""@ + sql_name + "\")?;"@;
        assert((
            "let extra"@
                + (j + (" = arg_f64(&extras, "@ + (j + (", \""@ + (sql_name + ("\")?;"@ + rest))))))
        )
            =~= part + rest);
        words::lemma_piece_between(before, part, rest);
    }
}

proof fn lemma_extra_s32(i: Seq<char>, j: Seq<char>, sql_name: Seq<char>)
    ensures
        words::has_piece(
            text::fill(t::EXTRA_S32@, seq![("i"@, i), ("j"@, j), ("sql_name"@, sql_name)]),
            "let extra"@ + j + " = arg_i64(&extras, "@ + j + ", \""@ + sql_name + "\")? as i32;"@,
        ),
{
    let s = t::EXTRA_S32@;
    reveal_strlit("{i}let extra{j} = arg_i64(&extras, {j}, \"{sql_name}\")? as i32;\n");
    reveal_with_fuel(text::plain_to, 31);
    let b = seq![("i"@, i), ("j"@, j), ("sql_name"@, sql_name)];
    lemma_holes_i_j_sql_name(i, j, sql_name);
    assert(words::has_piece(
        text::fill(t::EXTRA_S32@, b),
        "let extra"@ + j + " = arg_i64(&extras, "@ + j + ", \""@ + sql_name + "\")? as i32;"@,
    )) by {
        let before = text::lemma_fill_reaches(s, b, 3);
        reveal_strlit("let extra");
        assert(s.subrange(3, 12) =~= "let extra"@);
        text::lemma_fill_run(s, b, 3, "let extra"@);
        reveal_strlit("j");
        assert(s.subrange(13, 14) =~= "j"@);
        text::lemma_fill_hole(s, b, 12, "j"@);
        reveal_strlit(" = arg_i64(&extras, ");
        assert(s.subrange(15, 35) =~= " = arg_i64(&extras, "@);
        text::lemma_fill_run(s, b, 15, " = arg_i64(&extras, "@);
        assert(s.subrange(36, 37) =~= "j"@);
        text::lemma_fill_hole(s, b, 35, "j"@);
        reveal_strlit(", \"");
        assert(s.subrange(38, 41) =~= ", \""@);
        text::lemma_fill_run(s, b, 38, ", \""@);
        reveal_strlit("sql_name");
        assert(s.subrange(42, 50) =~= "sql_name"@);
        text::lemma_fill_hole(s, b, 41, "sql_name"@);
        reveal_strlit("\")? as i32;");
        assert(s.subrange(51, 62) =~= "\")? as i32;"@);
        text::lemma_fill_run(s, b, 51, "\")? as i32;"@);
        let rest = text::fill_from(s, b, 62);
        let part = "let extra"@ + j + " = arg_i64(&extras, "@ + j + ", \""@ + sql_name + "\")? as i32;"@;
        assert((
            "let extra"@
                + (
                    j
                        + (
                            " = arg_i64(&extras, "@
                                + (j + (", \""@ + (sql_name + ("\")? as i32;"@ + rest))))
                        )
                )
        )
            =~= part + rest);
        words::lemma_piece_between(before, part, rest);
    }
}

proof fn lemma_extra_s64(i: Seq<char>, j: Seq<char>, sql_name: Seq<char>)
    ensures
        words::has_piece(
            text::fill(t::EXTRA_S64@, seq![("i"@, i), ("j"@, j), ("sql_name"@, sql_name)]),
            "let extra"@ + j + " = arg_i64(&extras, "@ + j + ", \""@ + sql_name + "\")?;"@,
        ),
{
    let s = t::EXTRA_S64@;
    reveal_strlit("{i}let extra{j} = arg_i64(&extras, {j}, \"{sql_name}\")?;\n");
    reveal_with_fuel(text::plain_to, 31);
    let b = seq![("i"@, i), ("j"@, j), ("sql_name"@, sql_name)];
    lemma_holes_i_j_sql_name(i, j, sql_name);
    assert(words::has_piece(
        text::fill(t::EXTRA_S64@, b),
        "let extra"@ + j + " = arg_i64(&extras, "@ + j + ", \""@ + sql_name + "\")?;"@,
    )) by {
        let before = text::lemma_fill_reaches(s, b, 3);
        reveal_strlit("let extra");
        assert(s.subrange(3, 12) =~= "let extra"@);
        text::lemma_fill_run(s, b, 3, "let extra"@);
        reveal_strlit("j");
        assert(s.subrange(13, 14) =~= "j"@);
        text::lemma_fill_hole(s, b, 12, "j"@);
        reveal_strlit(" = arg_i64(&extras, ");
        assert(s.subrange(15, 35) =~= " = arg_i64(&extras, "@);
        text::lemma_fill_run(s, b, 15, " = arg_i64(&extras, "@);
        assert(s.subrange(36, 37) =~= "j"@);
        text::lemma_fill_hole(s, b, 35, "j"@);
        reveal_strlit(", \"");
        assert(s.subrange(38, 41) =~= ", \""@);
        text::lemma_fill_run(s, b, 38, ", \""@);
        reveal_strlit("sql_name");
        assert(s.subrange(42, 50) =~= "sql_name"@);
        text::lemma_fill_hole(s, b, 41, "sql_name"@);
        reveal_strlit("\")?;");
        assert(s.subrange(51, 55) =~= "\")?;"@);
        text::lemma_fill_run(s, b, 51, "\")?;"@);
        let rest = text::fill_from(s, b, 55);
        let part = "let extra"@ + j + " = arg_i64(&extras, "@ + j + ", \""@ + sql_name + "\")?;"@;
        assert((
            "let extra"@
                + (j + (" = arg_i64(&extras, "@ + (j + (", \""@ + (sql_name + ("\")?;"@ + rest))))))
        )
            =~= part + rest);
        words::lemma_piece_between(before, part, rest);
    }
}

proof fn lemma_extra_u32(i: Seq<char>, j: Seq<char>, sql_name: Seq<char>)
    ensures
        words::has_piece(
            text::fill(t::EXTRA_U32@, seq![("i"@, i), ("j"@, j), ("sql_name"@, sql_name)]),
            "let extra"@ + j + " = arg_i64(&extras, "@ + j + ", \""@ + sql_name + "\")? as u32;"@,
        ),
{
    let s = t::EXTRA_U32@;
    reveal_strlit("{i}let extra{j} = arg_i64(&extras, {j}, \"{sql_name}\")? as u32;\n");
    reveal_with_fuel(text::plain_to, 31);
    let b = seq![("i"@, i), ("j"@, j), ("sql_name"@, sql_name)];
    lemma_holes_i_j_sql_name(i, j, sql_name);
    assert(words::has_piece(
        text::fill(t::EXTRA_U32@, b),
        "let extra"@ + j + " = arg_i64(&extras, "@ + j + ", \""@ + sql_name + "\")? as u32;"@,
    )) by {
        let before = text::lemma_fill_reaches(s, b, 3);
        reveal_strlit("let extra");
        assert(s.subrange(3, 12) =~= "let extra"@);
        text::lemma_fill_run(s, b, 3, "let extra"@);
        reveal_strlit("j");
        assert(s.subrange(13, 14) =~= "j"@);
        text::lemma_fill_hole(s, b, 12, "j"@);
        reveal_strlit(" = arg_i64(&extras, ");
        assert(s.subrange(15, 35) =~= " = arg_i64(&extras, "@);
        text::lemma_fill_run(s, b, 15, " = arg_i64(&extras, "@);
        assert(s.subrange(36, 37) =~= "j"@);
        text::lemma_fill_hole(s, b, 35, "j"@);
        reveal_strlit(", \"");
        assert(s.subrange(38, 41) =~= ", \""@);
        text::lemma_fill_run(s, b, 38, ", \""@);
        reveal_strlit("sql_name");
        assert(s.subrange(42, 50) =~= "sql_name"@);
        text::lemma_fill_hole(s, b, 41, "sql_name"@);
        reveal_strlit("\")? as u32;");
        assert(s.subrange(51, 62) =~= "\")? as u32;"@);
        text::lemma_fill_run(s, b, 51, "\")? as u32;"@);
        let rest = text::fill_from(s, b, 62);
        let part = "let extra"@ + j + " = arg_i64(&extras, "@ + j + ", \""@ + sql_name + "\")? as u32;"@;
        assert((
            "let extra"@
                + (
                    j
                        + (
                            " = arg_i64(&extras, "@
                                + (j + (", \""@ + (sql_name + ("\")? as u32;"@ + rest))))
                        )
                )
        )
            =~= part + rest);
        words::lemma_piece_between(before, part, rest);
    }
}

proof fn lemma_extra_u64(i: Seq<char>, j: Seq<char>, sql_name: Seq<char>)
    ensures
        words::has_piece(
            text::fill(t::EXTRA_U64@, seq![("i"@, i), ("j"@, j), ("sql_name"@, sql_name)]),
            "let extra"@ + j + " = arg_i64(&extras, "@ + j + ", \""@ + sql_name + "\")? as u64;"@,
        ),
{
    let s = t::EXTRA_U64@;
    reveal_strlit("{i}let extra{j} = arg_i64(&extras, {j}, \"{sql_name}\")? as u64;\n");
    reveal_with_fuel(text::plain_to, 31);
    let b = seq![("i"@, i), ("j"@, j), ("sql_name"@, sql_name)];
    lemma_holes_i_j_sql_name(i, j, sql_name);
    assert(words::has_piece(
        text::fill(t::EXTRA_U64@, b),
        "let extra"@ + j + " = arg_i64(&extras, "@ + j + ", \""@ + sql_name + "\")? as u64;"@,
    )) by {
        let before = text::lemma_fill_reaches(s, b, 3);
        reveal_strlit("let extra");
        assert(s.subrange(3, 12) =~= "let extra"@);
        text::lemma_fill_run(s, b, 3, "let extra"@);
        reveal_strlit("j");
        assert(s.subrange(13, 14) =~= "j"@);
        text::lemma_fill_hole(s, b, 12, "j"@);
        reveal_strlit(" = arg_i64(&extras, ");
        assert(s.subrange(15, 35) =~= " = arg_i64(&extras, "@);
        text::lemma_fill_run(s, b, 15, " = arg_i64(&extras, "@);
        assert(s.subrange(36, 37) =~= "j"@);
        text::lemma_fill_hole(s, b, 35, "j"@);
        reveal_strlit(", \"");
        assert(s.subrange(38, 41) =~= ", \""@);
        text::lemma_fill_run(s, b, 38, ", \""@);
        reveal_strlit("sql_name");
        assert(s.subrange(42, 50) =~= "sql_name"@);
        text::lemma_fill_hole(s, b, 41, "sql_name"@);
        reveal_strlit("\")? as u64;");
        assert(s.subrange(51, 62) =~= "\")? as u64;"@);
        text::lemma_fill_run(s, b, 51, "\")? as u64;"@);
        let rest = text::fill_from(s, b, 62);
        let part = "let extra"@ + j + " = arg_i64(&extras, "@ + j + ", \""@ + sql_name + "\")? as u64;"@;
        assert((
            "let extra"@
                + (
                    j
                        + (
                            " = arg_i64(&extras, "@
                                + (j + (", \""@ + (sql_name + ("\")? as u64;"@ + rest))))
                        )
                )
        )
            =~= part + rest);
        words::lemma_piece_between(before, part, rest);
    }
}

proof fn lemma_extra_bool(i: Seq<char>, j: Seq<char>, sql_name: Seq<char>)
    ensures
        words::has_piece(
            text::fill(t::EXTRA_BOOL@, seq![("i"@, i), ("j"@, j), ("sql_name"@, sql_name)]),
            "let extra"@ + j + " = arg_i64(&extras, "@ + j + ", \""@ + sql_name + "\")? != 0;"@,
        ),
{
    let s = t::EXTRA_BOOL@;
    reveal_strlit("{i}let extra{j} = arg_i64(&extras, {j}, \"{sql_name}\")? != 0;\n");
    reveal_with_fuel(text::plain_to, 31);
    let b = seq![("i"@, i), ("j"@, j), ("sql_name"@, sql_name)];
    lemma_holes_i_j_sql_name(i, j, sql_name);
    assert(words::has_piece(
        text::fill(t::EXTRA_BOOL@, b),
        "let extra"@ + j + " = arg_i64(&extras, "@ + j + ", \""@ + sql_name + "\")? != 0;"@,
    )) by {
        let before = text::lemma_fill_reaches(s, b, 3);
        reveal_strlit("let extra");
        assert(s.subrange(3, 12) =~= "let extra"@);
        text::lemma_fill_run(s, b, 3, "let extra"@);
        reveal_strlit("j");
        assert(s.subrange(13, 14) =~= "j"@);
        text::lemma_fill_hole(s, b, 12, "j"@);
        reveal_strlit(" = arg_i64(&extras, ");
        assert(s.subrange(15, 35) =~= " = arg_i64(&extras, "@);
        text::lemma_fill_run(s, b, 15, " = arg_i64(&extras, "@);
        assert(s.subrange(36, 37) =~= "j"@);
        text::lemma_fill_hole(s, b, 35, "j"@);
        reveal_strlit(", \"");
        assert(s.subrange(38, 41) =~= ", \""@);
        text::lemma_fill_run(s, b, 38, ", \""@);
        reveal_strlit("sql_name");
        assert(s.subrange(42, 50) =~= "sql_name"@);
        text::lemma_fill_hole(s, b, 41, "sql_name"@);
        reveal_strlit("\")? != 0;");
        assert(s.subrange(51, 60) =~= "\")? != 0;"@);
        text::lemma_fill_run(s, b, 51, "\")? != 0;"@);
        let rest = text::fill_from(s, b, 60);
        let part = "let extra"@ + j + " = arg_i64(&extras, "@ + j + ", \""@ + sql_name + "\")? != 0;"@;
        assert((
            "let extra"@
                + (
                    j
                        + (
                            " = arg_i64(&extras, "@
                                + (j + (", \""@ + (sql_name + ("\")? != 0;"@ + rest))))
                        )
                )
        )
            =~= part + rest);
        words::lemma_piece_between(before, part, rest);
    }
}

proof fn lemma_extra_blob(i: Seq<char>, j: Seq<char>, sql_name: Seq<char>)
    ensures
        words::has_piece(
            text::fill(t::EXTRA_BLOB@, seq![("i"@, i), ("j"@, j), ("sql_name"@, sql_name)]),
            "let extra"@ + j + " = arg_blob(&extras, "@ + j + ", \""@ + sql_name + "\")?;"@,
        ),
{
    let s = t::EXTRA_BLOB@;
    reveal_strlit("{i}let extra{j} = arg_blob(&extras, {j}, \"{sql_name}\")?;\n");
    reveal_with_fuel(text::plain_to, 31);
    let b = seq![("i"@, i), ("j"@, j), ("sql_name"@, sql_name)];
    lemma_holes_i_j_sql_name(i, j, sql_name);
    assert(words::has_piece(
        text::fill(t::EXTRA_BLOB@, b),
        "let extra"@ + j + " = arg_blob(&extras, "@ + j + ", \""@ + sql_name + "\")?;"@,
    )) by {
        let before = text::lemma_fill_reaches(s, b, 3);
        reveal_strlit("let extra");
        assert(s.subrange(3, 12) =~= "let extra"@);
        text::lemma_fill_run(s, b, 3, "let extra"@);
        reveal_strlit("j");
        assert(s.subrange(13, 14) =~= "j"@);
        text::lemma_fill_hole(s, b, 12, "j"@);
        reveal_strlit(" = arg_blob(&extras, ");
        assert(s.subrange(15, 36) =~= " = arg_blob(&extras, "@);
        text::lemma_fill_run(s, b, 15, " = arg_blob(&extras, "@);
        assert(s.subrange(37, 38) =~= "j"@);
        text::lemma_fill_hole(s, b, 36, "j"@);
        reveal_strlit(", \"");
        assert(s.subrange(39, 42) =~= ", \""@);
        text::lemma_fill_run(s, b, 39, ", \""@);
        reveal_strlit("sql_name");
        assert(s.subrange(43, 51) =~= "sql_name"@);
        text::lemma_fill_hole(s, b, 42, "sql_name"@);
        reveal_strlit("\")?;");
        assert(s.subrange(52, 56) =~= "\")?;"@);
        text::lemma_fill_run(s, b, 52, "\")?;"@);
        let rest = text::fill_from(s, b, 56);
        let part = "let extra"@ + j + " = arg_blob(&extras, "@ + j + ", \""@ + sql_name + "\")?;"@;
        assert((
            "let extra"@
                + (j + (" = arg_blob(&extras, "@ + (j + (", \""@ + (sql_name + ("\")?;"@ + rest))))))
        )
            =~= part + rest);
        words::lemma_piece_between(before, part, rest);
    }
}

proof fn lemma_agg_ret_geom(
    i: Seq<char>,
    module: Seq<char>,
    func: Seq<char>,
    call_args: Seq<char>,
    sql_name: Seq<char>,
)
    ensures
        words::has_piece(
            text::fill(
                t::AGG_RET_GEOM@,
                seq![("i"@, i), ("module"@, module), ("func"@, func), ("call_args"@, call_args), ("sql_name"@, sql_name)],
            ),
            "let r = "@ + module + "::"@ + func + "("@ + call_args + ")"@,
        ),
        words::has_piece(
            text::fill(
                t::AGG_RET_GEOM@,
                seq![("i"@, i), ("module"@, module), ("func"@, func), ("call_args"@, call_args), ("sql_name"@, sql_name)],
            ),
            "Ok(SqlValue::Blob(r.as_wkb()))"@,
        ),
{
    let s = t::AGG_RET_GEOM@;
    reveal_strlit(r#"{i}let r = {module}::{func}({call_args})
{i}    .map_err(|e| format!("{sql_name}: {{}}", postgis_err_string(e)))?;
{i}Ok(SqlValue::Blob(r.as_wkb()))"#);
    reveal_with_fuel(text::plain_to, 31);
    let b = seq![("i"@, i), ("module"@, module), ("func"@, func), ("call_args"@, call_args), ("sql_name"@, sql_name)];
    lemma_holes_i_module_func_call_args_sql_name(i, module, func, call_args, sql_name);
    assert(words::has_piece(
        text::fill(t::AGG_RET_GEOM@, b),
        "let r = "@ + module + "::"@ + func + "("@ + call_args + ")"@,
    )) by {
        let before = text::lemma_fill_reaches(s, b, 3);
        reveal_strlit("let r = ");
        assert(s.subrange(3, 11) =~= "let r = "@);
        text::lemma_fill_run(s, b, 3, "let r = "@);
        reveal_strlit("module");
        assert(s.subrange(12, 18) =~= "module"@);
        text::lemma_fill_hole(s, b, 11, "module"@);
        reveal_strlit("::");
        assert(s.subrange(19, 21) =~= "::"@);
        text::lemma_fill_run(s, b, 19, "::"@);
        reveal_strlit("func");
        assert(s.subrange(22, 26) =~= "func"@);
        text::lemma_fill_hole(s, b, 21, "func"@);
        reveal_strlit("(");
        assert(s.subrange(27, 28) =~= "("@);
        text::lemma_fill_run(s, b, 27, "("@);
        reveal_strlit("call_args");
        assert(s.subrange(29, 38) =~= "call_args"@);
        text::lemma_fill_hole(s, b, 28, "call_args"@);
        reveal_strlit(")");
        assert(s.subrange(39, 40) =~= ")"@);
        text::lemma_fill_run(s, b, 39, ")"@);
        let rest = text::fill_from(s, b, 40);
        let part = "let r = "@ + module + "::"@ + func + "("@ + call_args + ")"@;
        assert(("let r = "@ + (module + ("::"@ + (func + ("("@ + (call_args + (")"@ + rest)))))))
            =~= part + rest);
        words::lemma_piece_between(before, part, rest);
    }
    assert(words::has_piece(text::fill(t::AGG_RET_GEOM@, b), "Ok(SqlValue::Blob(r.as_wkb()))"@)) by {
        let before = text::lemma_fill_reaches(s, b, 118);
        reveal_strlit("Ok(SqlValue::Blob(r.as_wkb()))");
        assert(s.subrange(118, 148) =~= "Ok(SqlValue::Blob(r.as_wkb()))"@);
        text::lemma_fill_run(s, b, 118, "Ok(SqlValue::Blob(r.as_wkb()))"@);
        let rest = text::fill_from(s, b, 148);
        let part = "Ok(SqlValue::Blob(r.as_wkb()))"@;
        words::lemma_piece_between(before, part, rest);
    }
}

proof fn lemma_agg_ret_raster(
    i: Seq<char>,
    module: Seq<char>,
    func: Seq<char>,
    call_args: Seq<char>,
    sql_name: Seq<char>,
)
    ensures
        words::has_piece(
            text::fill(
                t::AGG_RET_RASTER@,
                seq![("i"@, i), ("module"@, module), ("func"@, func), ("call_args"@, call_args), ("sql_name"@, sql_name)],
            ),
            "let r = "@ + module + "::"@ + func + "("@ + call_args + ")"@,
        ),
        words::has_piece(
            text::fill(
                t::AGG_RET_RASTER@,
                seq![("i"@, i), ("module"@, module), ("func"@, func), ("call_args"@, call_args), ("sql_name"@, sql_name)],
            ),
            "Ok(SqlValue::Blob(r.as_binary()))"@,
        ),
{
    let s = t::AGG_RET_RASTER@;
    reveal_strlit(r#"{i}let r = {module}::{func}({call_args})
{i}    .map_err(|e| format!("{sql_name}: {{}}", shim_err_string(e)))?;
{i}Ok(SqlValue::Blob(r.as_binary()))"#);
    reveal_with_fuel(text::plain_to, 31);
    let b = seq![("i"@, i), ("module"@, module), ("func"@, func), ("call_args"@, call_args), ("sql_name"@, sql_name)];
    lemma_holes_i_module_func_call_args_sql_name(i, module, func, call_args, sql_name);
    assert(words::has_piece(
        text::fill(t::AGG_RET_RASTER@, b),
        "let r = "@ + module + "::"@ + func + "("@ + call_args + ")"@,
    )) by {
        let before = text::lemma_fill_reaches(s, b, 3);
        reveal_strlit("let r = ");
        assert(s.subrange(3, 11) =~= "let r = "@);
        text::lemma_fill_run(s, b, 3, "let r = "@);
        reveal_strlit("module");
        assert(s.subrange(12, 18) =~= "module"@);
        text::lemma_fill_hole(s, b, 11, "module"@);
        reveal_strlit("::");
        assert(s.subrange(19, 21) =~= "::"@);
        text::lemma_fill_run(s, b, 19, "::"@);
        reveal_strlit("func");
        assert(s.subrange(22, 26) =~= "func"@);
        text::lemma_fill_hole(s, b, 21, "func"@);
        reveal_strlit("(");
        assert(s.subrange(27, 28) =~= "("@);
        text::lemma_fill_run(s, b, 27, "("@);
        reveal_strlit("call_args");
        assert(s.subrange(29, 38) =~= "call_args"@);
        text::lemma_fill_hole(s, b, 28, "call_args"@);
        reveal_strlit(")");
        assert(s.subrange(39, 40) =~= ")"@);
        text::lemma_fill_run(s, b, 39, ")"@);
        let rest = text::fill_from(s, b, 40);
        let part = "let r = "@ + module + "::"@ + func + "("@ + call_args + ")"@;
        assert(("let r = "@ + (module + ("::"@ + (func + ("("@ + (call_args + (")"@ + rest)))))))
            =~= part + rest);
        words::lemma_piece_between(before, part, rest);
    }
    assert(words::has_piece(text::fill(t::AGG_RET_RASTER@, b), "Ok(SqlValue::Blob(r.as_binary()))"@)) by {
        let before = text::lemma_fill_reaches(s, b, 115);
        reveal_strlit("Ok(SqlValue::Blob(r.as_binary(");
        assert(s.subrange(115, 145) =~= "Ok(SqlValue::Blob(r.as_binary("@);
        text::lemma_fill_run(s, b, 115, "Ok(SqlValue::Blob(r.as_binary("@);
        reveal_strlit(")))");
        assert(s.subrange(145, 148) =~= ")))"@);
        text::lemma_fill_run(s, b, 145, ")))"@);
        let rest = text::fill_from(s, b, 148);
        let part = "Ok(SqlValue::Blob(r.as_binary()))"@;
        reveal_strlit("Ok(SqlValue::Blob(r.as_binary()))");
        assert(("Ok(SqlValue::Blob(r.as_binary("@ + (")))"@ + rest)) =~= part + rest);
        words::lemma_piece_between(before, part, rest);
    }
}

proof fn lemma_agg_ret_first_geom(
    i: Seq<char>,
    module: Seq<char>,
    func: Seq<char>,
    call_args: Seq<char>,
    sql_name: Seq<char>,
)
    ensures
        words::has_piece(
            text::fill(
                t::AGG_RET_FIRST_GEOM@,
                seq![("i"@, i), ("module"@, module), ("func"@, func), ("call_args"@, call_args), ("sql_name"@, sql_name)],
            ),
            module + "::"@ + func + "("@ + call_args + ")"@,
        ),
        words::has_piece(
            text::fill(
                t::AGG_RET_FIRST_GEOM@,
                seq![("i"@, i), ("module"@, module), ("func"@, func), ("call_args"@, call_args), ("sql_name"@, sql_name)],
            ),
            "Some(g) => Ok(SqlValue::Blob(g.as_wkb()))"@,
        ),
        words::has_piece(
            text::fill(
                t::AGG_RET_FIRST_GEOM@,
                seq![("i"@, i), ("module"@, module), ("func"@, func), ("call_args"@, call_args), ("sql_name"@, sql_name)],
            ),
            "None => Ok(SqlValue::Null)"@,
        ),
{
    let s = t::AGG_RET_FIRST_GEOM@;
    reveal_strlit(r#"{i}let r: Vec<Geometry> = {module}::{func}({call_args})
{i}    .map_err(|e| format!("{sql_name}: {{}}", postgis_err_string(e)))?;
{i}match r.first() {{
{i}    Some(g) => Ok(SqlValue::Blob(g.as_wkb())),
{i}    None => Ok(SqlValue::Null),
{i}}}"#);
    reveal_with_fuel(text::plain_to, 31);
    let b = seq![("i"@, i), ("module"@, module), ("func"@, func), ("call_args"@, call_args), ("sql_name"@, sql_name)];
    lemma_holes_i_module_func_call_args_sql_name(i, module, func, call_args, sql_name);
    assert(words::has_piece(
        text::fill(t::AGG_RET_FIRST_GEOM@, b),
        module + "::"@ + func + "("@ + call_args + ")"@,
    )) by {
        let before = text::lemma_fill_reaches(s, b, 3);
        reveal_strlit("let r: Vec<Geometry> = ");
        assert(s.subrange(3, 26) =~= "let r: Vec<Geometry> = "@);
        text::lemma_fill_run(s, b, 3, "let r: Vec<Geometry> = "@);
        reveal_strlit("module");
        assert(s.subrange(27, 33) =~= "module"@);
        text::lemma_fill_hole(s, b, 26, "module"@);
        reveal_strlit("::");
        assert(s.subrange(34, 36) =~= "::"@);
        text::lemma_fill_run(s, b, 34, "::"@);
        reveal_strlit("func");
        assert(s.subrange(37, 41) =~= "func"@);
        text::lemma_fill_hole(s, b, 36, "func"@);
        reveal_strlit("(");
        assert(s.subrange(42, 43) =~= "("@);
        text::lemma_fill_run(s, b, 42, "("@);
        reveal_strlit("call_args");
        assert(s.subrange(44, 53) =~= "call_args"@);
        text::lemma_fill_hole(s, b, 43, "call_args"@);
        reveal_strlit(")");
        assert(s.subrange(54, 55) =~= ")"@);
        text::lemma_fill_run(s, b, 54, ")"@);
        let rest = text::fill_from(s, b, 55);
        let part = module + "::"@ + func + "("@ + call_args + ")"@;
        assert((module + ("::"@ + (func + ("("@ + (call_args + (")"@ + rest)))))) =~= part + rest);
        assert(before + ("let r: Vec<Geometry> = "@ + (part + rest))
            =~= (before + "let r: Vec<Geometry> = "@) + (part + rest));
        words::lemma_piece_between(before + "let r: Vec<Geometry> = "@, part, rest);
    }
    assert(words::has_piece(
        text::fill(t::AGG_RET_FIRST_GEOM@, b),
        "Some(g) => Ok(SqlValue::Blob(g.as_wkb()))"@,
    )) by {
        let before = text::lemma_fill_reaches(s, b, 155);
        reveal_strlit("    ");
        assert(s.subrange(155, 159) =~= "    "@);
        text::lemma_fill_run(s, b, 155, "    "@);
        reveal_strlit("Some(g) => Ok(SqlValue::Blob(g");
        assert(s.subrange(159, 189) =~= "Some(g) => Ok(SqlValue::Blob(g"@);
        text::lemma_fill_run(s, b, 159, "Some(g) => Ok(SqlValue::Blob(g"@);
        reveal_strlit(".as_wkb()))");
        assert(s.subrange(189, 200) =~= ".as_wkb()))"@);
        text::lemma_fill_run(s, b, 189, ".as_wkb()))"@);
        let rest = text::fill_from(s, b, 200);
        let part = "Some(g) => Ok(SqlValue::Blob(g.as_wkb()))"@;
        reveal_strlit("Some(g) => Ok(SqlValue::Blob(g.as_wkb()))");
        assert(("Some(g) => Ok(SqlValue::Blob(g"@ + (".as_wkb()))"@ + rest)) =~= part + rest);
        assert(before + ("    "@ + (part + rest)) =~= (before + "    "@) + (part + rest));
        words::lemma_piece_between(before + "    "@, part, rest);
    }
    assert(words::has_piece(text::fill(t::AGG_RET_FIRST_GEOM@, b), "None => Ok(SqlValue::Null)"@)) by {
        let before = text::lemma_fill_reaches(s, b, 205);
        reveal_strlit("    ");
        assert(s.subrange(205, 209) =~= "    "@);
        text::lemma_fill_run(s, b, 205, "    "@);
        reveal_strlit("None => Ok(SqlValue::Null)");
        assert(s.subrange(209, 235) =~= "None => Ok(SqlValue::Null)"@);
        text::lemma_fill_run(s, b, 209, "None => Ok(SqlValue::Null)"@);
        let rest = text::fill_from(s, b, 235);
        let part = "None => Ok(SqlValue::Null)"@;
        assert(before + ("    "@ + (part + rest)) =~= (before + "    "@) + (part + rest));
        words::lemma_piece_between(before + "    "@, part, rest);
    }
}

proof fn lemma_agg_ret_first_option_u32(
    i: Seq<char>,
    module: Seq<char>,
    func: Seq<char>,
    call_args: Seq<char>,
    sql_name: Seq<char>,
)
    ensures
        words::has_piece(
            text::fill(
                t::AGG_RET_FIRST_OPTION_U32@,
                seq![("i"@, i), ("module"@, module), ("func"@, func), ("call_args"@, call_args), ("sql_name"@, sql_name)],
            ),
            module + "::"@ + func + "("@ + call_args + ")"@,
        ),
        words::has_piece(
            text::fill(
                t::AGG_RET_FIRST_OPTION_U32@,
                seq![("i"@, i), ("module"@, module), ("func"@, func), ("call_args"@, call_args), ("sql_name"@, sql_name)],
            ),
            "Some(Some(v)) => Ok(SqlValue::Integer(*v as i64))"@,
        ),
        words::has_piece(
            text::fill(
                t::AGG_RET_FIRST_OPTION_U32@,
                seq![("i"@, i), ("module"@, module), ("func"@, func), ("call_args"@, call_args), ("sql_name"@, sql_name)],
            ),
            "Some(None) | None => Ok(SqlValue::Null)"@,
        ),
{
    let s = t::AGG_RET_FIRST_OPTION_U32@;
    reveal_strlit(r#"{i}let r: Vec<Option<u32>> = {module}::{func}({call_args})
{i}    .map_err(|e| format!("{sql_name}: {{}}", postgis_err_string(e)))?;
{i}match r.first() {{
{i}    Some(Some(v)) => Ok(SqlValue::Integer(*v as i64)),
{i}    Some(None) | None => Ok(SqlValue::Null),
{i}}}"#);
    reveal_with_fuel(text::plain_to, 31);
    let b = seq![("i"@, i), ("module"@, module), ("func"@, func), ("call_args"@, call_args), ("sql_name"@, sql_name)];
    lemma_holes_i_module_func_call_args_sql_name(i, module, func, call_args, sql_name);
    assert(words::has_piece(
        text::fill(t::AGG_RET_FIRST_OPTION_U32@, b),
        module + "::"@ + func + "("@ + call_args + ")"@,
    )) by {
        let before = text::lemma_fill_reaches(s, b, 3);
        reveal_strlit("let r: Vec<Option<u32>> = ");
        assert(s.subrange(3, 29) =~= "let r: Vec<Option<u32>> = "@);
        text::lemma_fill_run(s, b, 3, "let r: Vec<Option<u32>> = "@);
        reveal_strlit("module");
        assert(s.subrange(30, 36) =~= "module"@);
        text::lemma_fill_hole(s, b, 29, "module"@);
        reveal_strlit("::");
        assert(s.subrange(37, 39) =~= "::"@);
        text::lemma_fill_run(s, b, 37, "::"@);
        reveal_strlit("func");
        assert(s.subrange(40, 44) =~= "func"@);
        text::lemma_fill_hole(s, b, 39, "func"@);
        reveal_strlit("(");
        assert(s.subrange(45, 46) =~= "("@);
        text::lemma_fill_run(s, b, 45, "("@);
        reveal_strlit("call_args");
        assert(s.subrange(47, 56) =~= "call_args"@);
        text::lemma_fill_hole(s, b, 46, "call_args"@);
        reveal_strlit(")");
        assert(s.subrange(57, 58) =~= ")"@);
        text::lemma_fill_run(s, b, 57, ")"@);
        let rest = text::fill_from(s, b, 58);
        let part = module + "::"@ + func + "("@ + call_args + ")"@;
        assert((module + ("::"@ + (func + ("("@ + (call_args + (")"@ + rest)))))) =~= part + rest);
        assert(before + ("let r: Vec<Option<u32>> = "@ + (part + rest))
            =~= (before + "let r: Vec<Option<u32>> = "@) + (part + rest));
        words::lemma_piece_between(before + "let r: Vec<Option<u32>> = "@, part, rest);
    }
    assert(words::has_piece(
        text::fill(t::AGG_RET_FIRST_OPTION_U32@, b),
        "Some(Some(v)) => Ok(SqlValue::Integer(*v as i64))"@,
    )) by {
        let before = text::lemma_fill_reaches(s, b, 158);
        reveal_strlit("    ");
        assert(s.subrange(158, 162) =~= "    "@);
        text::lemma_fill_run(s, b, 158, "    "@);
        reveal_strlit("Some(Some(v)) => Ok(SqlValue::");
        assert(s.subrange(162, 192) =~= "Some(Some(v)) => Ok(SqlValue::"@);
        text::lemma_fill_run(s, b, 162, "Some(Some(v)) => Ok(SqlValue::"@);
        reveal_strlit("Integer(*v as i64))");
        assert(s.subrange(192, 211) =~= "Integer(*v as i64))"@);
        text::lemma_fill_run(s, b, 192, "Integer(*v as i64))"@);
        let rest = text::fill_from(s, b, 211);
        let part = "Some(Some(v)) => Ok(SqlValue::Integer(*v as i64))"@;
        reveal_strlit("Some(Some(v)) => Ok(SqlValue::Integer(*v as i64))");
        assert(("Some(Some(v)) => Ok(SqlValue::"@ + ("Integer(*v as i64))"@ + rest)) =~= part + rest);
        assert(before + ("    "@ + (part + rest)) =~= (before + "    "@) + (part + rest));
        words::lemma_piece_between(before + "    "@, part, rest);
    }
    assert(words::has_piece(
        text::fill(t::AGG_RET_FIRST_OPTION_U32@, b),
        "Some(None) | None => Ok(SqlValue::Null)"@,
    )) by {
        let before = text::lemma_fill_reaches(s, b, 216);
        reveal_strlit("    ");
        assert(s.subrange(216, 220) =~= "    "@);
        text::lemma_fill_run(s, b, 216, "    "@);
        reveal_strlit("Some(None) | None => Ok(SqlVal");
        assert(s.subrange(220, 250) =~= "Some(None) | None => Ok(SqlVal"@);
        text::lemma_fill_run(s, b, 220, "Some(None) | None => Ok(SqlVal"@);
        reveal_strlit("ue::Null)");
        assert(s.subrange(250, 259) =~= "ue::Null)"@);
        text::lemma_fill_run(s, b, 250, "ue::Null)"@);
        let rest = text::fill_from(s, b, 259);
        let part = "Some(None) | None => Ok(SqlValue::Null)"@;
        reveal_strlit("Some(None) | None => Ok(SqlValue::Null)");
        assert(("Some(None) | None => Ok(SqlVal"@ + ("ue::Null)"@ + rest)) =~= part + rest);
        assert(before + ("    "@ + (part + rest)) =~= (before + "    "@) + (part + rest));
        words::lemma_piece_between(before + "    "@, part, rest);
    }
}

proof fn lemma_agg_ret_bbox3d(
    i: Seq<char>,
    module: Seq<char>,
    func: Seq<char>,
    call_args: Seq<char>,
    sql_name: Seq<char>,
)
    ensures
        words::has_piece(
            text::fill(
                t::AGG_RET_BBOX3D@,
                seq![("i"@, i), ("module"@, module), ("func"@, func), ("call_args"@, call_args), ("sql_name"@, sql_name)],
            ),
            "let __bb = "@ + module + "::"@ + func + "("@ + call_args + ");"@,
        ),
        words::has_piece(
            text::fill(
                t::AGG_RET_BBOX3D@,
                seq![("i"@, i), ("module"@, module), ("func"@, func), ("call_args"@, call_args), ("sql_name"@, sql_name)],
            ),
            "Ok(SqlValue::Blob(__wkb))"@,
        ),
{
    let s = t::AGG_RET_BBOX3D@;
    reveal_strlit(r#"{i}let __bb = {module}::{func}({call_args});
{i}let mut __wkb: Vec<u8> = Vec::with_capacity(57);
{i}// ISO-WKB header: little-endian, type 1002 (LINESTRING Z), 2 points.
{i}__wkb.push(0x01u8);
{i}__wkb.extend_from_slice(&1002u32.to_le_bytes());
{i}__wkb.extend_from_slice(&2u32.to_le_bytes());
{i}__wkb.extend_from_slice(&__bb.min_x.to_le_bytes());
{i}__wkb.extend_from_slice(&__bb.min_y.to_le_bytes());
{i}__wkb.extend_from_slice(&__bb.min_z.to_le_bytes());
{i}__wkb.extend_from_slice(&__bb.max_x.to_le_bytes());
{i}__wkb.extend_from_slice(&__bb.max_y.to_le_bytes());
{i}__wkb.extend_from_slice(&__bb.max_z.to_le_bytes());
{i}Ok(SqlValue::Blob(__wkb))"#);
    reveal_with_fuel(text::plain_to, 31);
    let b = seq![("i"@, i), ("module"@, module), ("func"@, func), ("call_args"@, call_args), ("sql_name"@, sql_name)];
    lemma_holes_i_module_func_call_args_sql_name(i, module, func, call_args, sql_name);
    assert(words::has_piece(
        text::fill(t::AGG_RET_BBOX3D@, b),
        "let __bb = "@ + module + "::"@ + func + "("@ + call_args + ");"@,
    )) by {
        let before = text::lemma_fill_reaches(s, b, 3);
        reveal_strlit("let __bb = ");
        assert(s.subrange(3, 14) =~= "let __bb = "@);
        text::lemma_fill_run(s, b, 3, "let __bb = "@);
        reveal_strlit("module");
        assert(s.subrange(15, 21) =~= "module"@);
        text::lemma_fill_hole(s, b, 14, "module"@);
        reveal_strlit("::");
        assert(s.subrange(22, 24) =~= "::"@);
        text::lemma_fill_run(s, b, 22, "::"@);
        reveal_strlit("func");
        assert(s.subrange(25, 29) =~= "func"@);
        text::lemma_fill_hole(s, b, 24, "func"@);
        reveal_strlit("(");
        assert(s.subrange(30, 31) =~= "("@);
        text::lemma_fill_run(s, b, 30, "("@);
        reveal_strlit("call_args");
        assert(s.subrange(32, 41) =~= "call_args"@);
        text::lemma_fill_hole(s, b, 31, "call_args"@);
        reveal_strlit(");");
        assert(s.subrange(42, 44) =~= ");"@);
        text::lemma_fill_run(s, b, 42, ");"@);
        let rest = text::fill_from(s, b, 44);
        let part = "let __bb = "@ + module + "::"@ + func + "("@ + call_args + ");"@;
        assert(("let __bb = "@ + (module + ("::"@ + (func + ("("@ + (call_args + (");"@ + rest)))))))
            =~= part + rest);
        words::lemma_piece_between(before, part, rest);
    }
    assert(words::has_piece(text::fill(t::AGG_RET_BBOX3D@, b), "Ok(SqlValue::Blob(__wkb))"@)) by {
        let before = text::lemma_fill_reaches(s, b, 627);
        reveal_strlit("Ok(SqlValue::Blob(__wkb))");
        assert(s.subrange(627, 652) =~= "Ok(SqlValue::Blob(__wkb))"@);
        text::lemma_fill_run(s, b, 627, "Ok(SqlValue::Blob(__wkb))"@);
        let rest = text::fill_from(s, b, 652);
        let part = "Ok(SqlValue::Blob(__wkb))"@;
        words::lemma_piece_between(before, part, rest);
    }
}

proof fn lemma_agg_ret_unwired(
    i: Seq<char>,
    module: Seq<char>,
    func: Seq<char>,
    call_args: Seq<char>,
    sql_name: Seq<char>,
)
    ensures
        words::has_piece(
            text::fill(
                t::AGG_RET_UNWIRED@,
                seq![("i"@, i), ("module"@, module), ("func"@, func), ("call_args"@, call_args), ("sql_name"@, sql_name)],
            ),
            "aggregate return shape not wired"@,
        ),
{
    let s = t::AGG_RET_UNWIRED@;
    reveal_strlit("{i}Err(format!(\"{sql_name}: aggregate return shape not wired\"))");
    reveal_with_fuel(text::plain_to, 31);
    let b = seq![("i"@, i), ("module"@, module), ("func"@, func), ("call_args"@, call_args), ("sql_name"@, sql_name)];
    lemma_holes_i_module_func_call_args_sql_name(i, module, func, call_args, sql_name);
    assert(words::has_piece(text::fill(t::AGG_RET_UNWIRED@, b), "aggregate return shape not wired"@)) by {
        let before = text::lemma_fill_reaches(s, b, 26);
        reveal_strlit(": ");
        assert(s.subrange(26, 28) =~= ": "@);
        text::lemma_fill_run(s, b, 26, ": "@);
        reveal_strlit("aggregate return shape not wir");
        assert(s.subrange(28, 58) =~= "aggregate return shape not wir"@);
        text::lemma_fill_run(s, b, 28, "aggregate return shape not wir"@);
        reveal_strlit("ed");
        assert(s.subrange(58, 60) =~= "ed"@);
        text::lemma_fill_run(s, b, 58, "ed"@);
        let rest = text::fill_from(s, b, 60);
        let part = "aggregate return shape not wired"@;
        reveal_strlit("aggregate return shape not wired");
        assert(("aggregate return shape not wir"@ + ("ed"@ + rest)) =~= part + rest);
        assert(before + (": "@ + (part + rest)) =~= (before + ": "@) + (part + rest));
        words::lemma_piece_between(before + ": "@, part, rest);
    }
}

proof fn lemma_record_call(i: Seq<char>, module: Seq<char>, func: Seq<char>, out_snake: Seq<char>)
    ensures
        words::has_piece(
            text::fill(
                t::RECORD_CALL@,
                seq![("i"@, i), ("module"@, module), ("func"@, func), ("out_snake"@, out_snake)],
            ),
            "let __r = "@ + module + "::"@ + func + "(&upstream_vec);"@,
        ),
        words::has_piece(
            text::fill(
                t::RECORD_CALL@,
                seq![("i"@, i), ("module"@, module), ("func"@, func), ("out_snake"@, out_snake)],
            ),
            "Some(__rec) => ret_to_witvalue_"@ + out_snake + "(__rec)"@,
        ),
        words::has_piece(
            text::fill(
                t::RECORD_CALL@,
                seq![("i"@, i), ("module"@, module), ("func"@, func), ("out_snake"@, out_snake)],
            ),
            "None => Ok(SqlValue::Null)"@,
        ),
{
    let s = t::RECORD_CALL@;
    reveal_strlit(r#"{i}let __r = {module}::{func}(&upstream_vec);
{i}match __r {{
{i}    Some(__rec) => ret_to_witvalue_{out_snake}(__rec),
{i}    None => Ok(SqlValue::Null),
{i}}}"#);
    reveal_with_fuel(text::plain_to, 31);
    let b = seq![("i"@, i), ("module"@, module), ("func"@, func), ("out_snake"@, out_snake)];
    lemma_holes_i_module_func_out_snake(i, module, func, out_snake);
    assert(words::has_piece(
        text::fill(t::RECORD_CALL@, b),
        "let __r = "@ + module + "::"@ + func + "(&upstream_vec);"@,
    )) by {
        let before = text::lemma_fill_reaches(s, b, 3);
        reveal_strlit("let __r = ");
        assert(s.subrange(3, 13) =~= "let __r = "@);
        text::lemma_fill_run(s, b, 3, "let __r = "@);
        reveal_strlit("module");
        assert(s.subrange(14, 20) =~= "module"@);
        text::lemma_fill_hole(s, b, 13, "module"@);
        reveal_strlit("::");
        assert(s.subrange(21, 23) =~= "::"@);
        text::lemma_fill_run(s, b, 21, "::"@);
        reveal_strlit("func");
        assert(s.subrange(24, 28) =~= "func"@);
        text::lemma_fill_hole(s, b, 23, "func"@);
        reveal_strlit("(&upstream_vec);");
        assert(s.subrange(29, 45) =~= "(&upstream_vec);"@);
        text::lemma_fill_run(s, b, 29, "(&upstream_vec);"@);
        let rest = text::fill_from(s, b, 45);
        let part = "let __r = "@ + module + "::"@ + func + "(&upstream_vec);"@;
        assert(("let __r = "@ + (module + ("::"@ + (func + ("(&upstream_vec);"@ + rest)))))
            =~= part + rest);
        words::lemma_piece_between(before, part, rest);
    }
    assert(words::has_piece(
        text::fill(t::RECORD_CALL@, b),
        "Some(__rec) => ret_to_witvalue_"@ + out_snake + "(__rec)"@,
    )) by {
        let before = text::lemma_fill_reaches(s, b, 65);
        reveal_strlit("    ");
        assert(s.subrange(65, 69) =~= "    "@);
        text::lemma_fill_run(s, b, 65, "    "@);
        reveal_strlit("Some(__rec) => ret_to_witvalue");
        assert(s.subrange(69, 99) =~= "Some(__rec) => ret_to_witvalue"@);
        text::lemma_fill_run(s, b, 69, "Some(__rec) => ret_to_witvalue"@);
        reveal_strlit("_");
        assert(s.subrange(99, 100) =~= "_"@);
        text::lemma_fill_run(s, b, 99, "_"@);
        reveal_strlit("out_snake");
        assert(s.subrange(101, 110) =~= "out_snake"@);
        text::lemma_fill_hole(s, b, 100, "out_snake"@);
        reveal_strlit("(__rec)");
        assert(s.subrange(111, 118) =~= "(__rec)"@);
        text::lemma_fill_run(s, b, 111, "(__rec)"@);
        let rest = text::fill_from(s, b, 118);
        let part = "Some(__rec) => ret_to_witvalue_"@ + out_snake + "(__rec)"@;
        reveal_strlit("Some(__rec) => ret_to_witvalue_");
        assert(("Some(__rec) => ret_to_witvalue"@ + ("_"@ + (out_snake + ("(__rec)"@ + rest))))
            =~= part + rest);
        assert(before + ("    "@ + (part + rest)) =~= (before + "    "@) + (part + rest));
        words::lemma_piece_between(before + "    "@, part, rest);
    }
    assert(words::has_piece(text::fill(t::RECORD_CALL@, b), "None => Ok(SqlValue::Null)"@)) by {
        let before = text::lemma_fill_reaches(s, b, 123);
        reveal_strlit("    ");
        assert(s.subrange(123, 127) =~= "    "@);
        text::lemma_fill_run(s, b, 123, "    "@);
        reveal_strlit("None => Ok(SqlValue::Null)");
        assert(s.subrange(127, 153) =~= "None => Ok(SqlValue::Null)"@);
        text::lemma_fill_run(s, b, 127, "None => Ok(SqlValue::Null)"@);
        let rest = text::fill_from(s, b, 153);
        let part = "None => Ok(SqlValue::Null)"@;
        assert(before + ("    "@ + (part + rest)) =~= (before + "    "@) + (part + rest));
        words::lemma_piece_between(before + "    "@, part, rest);
    }
}

proof fn lemma_record_extras_unwired(i: Seq<char>, sql_name: Seq<char>)
    ensures
        words::has_piece(
            text::fill(t::RECORD_EXTRAS_UNWIRED@, seq![("i"@, i), ("sql_name"@, sql_name)]),
            "aggregate with extra args not yet wired"@,
        ),
{
    let s = t::RECORD_EXTRAS_UNWIRED@;
    reveal_strlit("{i}return Err(format!(\"{sql_name}: AccKind::Record aggregate with extra args not yet wired\"));\n");
    reveal_with_fuel(text::plain_to, 31);
    let b = seq![("i"@, i), ("sql_name"@, sql_name)];
    lemma_holes_i_sql_name(i, sql_name);
    assert(words::has_piece(
        text::fill(t::RECORD_EXTRAS_UNWIRED@, b),
        "aggregate with extra args not yet wired"@,
    )) by {
        let before = text::lemma_fill_reaches(s, b, 33);
        reveal_strlit(": AccKind::Record ");
        assert(s.subrange(33, 51) =~= ": AccKind::Record "@);
        text::lemma_fill_run(s, b, 33, ": AccKind::Record "@);
        reveal_strlit("aggregate with extra args not ");
        assert(s.subrange(51, 81) =~= "aggregate with extra args not "@);
        text::lemma_fill_run(s, b, 51, "aggregate with extra args not "@);
        reveal_strlit("yet wired");
        assert(s.subrange(81, 90) =~= "yet wired"@);
        text::lemma_fill_run(s, b, 81, "yet wired"@);
        let rest = text::fill_from(s, b, 90);
        let part = "aggregate with extra args not yet wired"@;
        reveal_strlit("aggregate with extra args not yet wired");
        assert(("aggregate with extra args not "@ + ("yet wired"@ + rest)) =~= part + rest);
        assert(before + (": AccKind::Record "@ + (part + rest))
            =~= (before + ": AccKind::Record "@) + (part + rest));
        words::lemma_piece_between(before + ": AccKind::Record "@, part, rest);
    }
}

proof fn lemma_scalar_call(
    i: Seq<char>,
    module: Seq<char>,
    func: Seq<char>,
    call_args: Seq<char>,
    wrap: Seq<char>,
)
    ensures
        words::has_piece(
            text::fill(
                t::SCALAR_CALL@,
                seq![("i"@, i), ("module"@, module), ("func"@, func), ("call_args"@, call_args), ("wrap"@, wrap)],
            ),
            "let __r = "@ + module + "::"@ + func + "("@ + call_args + ");"@,
        ),
        words::has_piece(
            text::fill(
                t::SCALAR_CALL@,
                seq![("i"@, i), ("module"@, module), ("func"@, func), ("call_args"@, call_args), ("wrap"@, wrap)],
            ),
            wrap,
        ),
{
    let s = t::SCALAR_CALL@;
    reveal_strlit(r#"{i}let __r = {module}::{func}({call_args});
{i}{wrap}"#);
    reveal_with_fuel(text::plain_to, 31);
    let b = seq![("i"@, i), ("module"@, module), ("func"@, func), ("call_args"@, call_args), ("wrap"@, wrap)];
    lemma_holes_i_module_func_call_args_wrap(i, module, func, call_args, wrap);
    assert(words::has_piece(
        text::fill(t::SCALAR_CALL@, b),
        "let __r = "@ + module + "::"@ + func + "("@ + call_args + ");"@,
    )) by {
        let before = text::lemma_fill_reaches(s, b, 3);
        reveal_strlit("let __r = ");
        assert(s.subrange(3, 13) =~= "let __r = "@);
        text::lemma_fill_run(s, b, 3, "let __r = "@);
        reveal_strlit("module");
        assert(s.subrange(14, 20) =~= "module"@);
        text::lemma_fill_hole(s, b, 13, "module"@);
        reveal_strlit("::");
        assert(s.subrange(21, 23) =~= "::"@);
        text::lemma_fill_run(s, b, 21, "::"@);
        reveal_strlit("func");
        assert(s.subrange(24, 28) =~= "func"@);
        text::lemma_fill_hole(s, b, 23, "func"@);
        reveal_strlit("(");
        assert(s.subrange(29, 30) =~= "("@);
        text::lemma_fill_run(s, b, 29, "("@);
        reveal_strlit("call_args");
        assert(s.subrange(31, 40) =~= "call_args"@);
        text::lemma_fill_hole(s, b, 30, "call_args"@);
        reveal_strlit(");");
        assert(s.subrange(41, 43) =~= ");"@);
        text::lemma_fill_run(s, b, 41, ");"@);
        let rest = text::fill_from(s, b, 43);
        let part = "let __r = "@ + module + "::"@ + func + "("@ + call_args + ");"@;
        assert(("let __r = "@ + (module + ("::"@ + (func + ("("@ + (call_args + (");"@ + rest)))))))
            =~= part + rest);
        words::lemma_piece_between(before, part, rest);
    }
    assert(words::has_piece(text::fill(t::SCALAR_CALL@, b), wrap)) by {
        let before = text::lemma_fill_reaches(s, b, 47);
        reveal_strlit("wrap");
        assert(s.subrange(48, 52) =~= "wrap"@);
        text::lemma_fill_hole(s, b, 47, "wrap"@);
        let rest = text::fill_from(s, b, 53);
        let part = wrap;
        words::lemma_piece_between(before, part, rest);
    }
}

proof fn lemma_tuple_call(
    i: Seq<char>,
    module: Seq<char>,
    func: Seq<char>,
    call_args: Seq<char>,
    body: Seq<char>,
)
    ensures
        words::has_piece(
            text::fill(
                t::TUPLE_CALL@,
                seq![("i"@, i), ("module"@, module), ("func"@, func), ("call_args"@, call_args), ("body"@, body)],
            ),
            "let __r = "@ + module + "::"@ + func + "("@ + call_args + ");"@,
        ),
        words::has_piece(
            text::fill(
                t::TUPLE_CALL@,
                seq![("i"@, i), ("module"@, module), ("func"@, func), ("call_args"@, call_args), ("body"@, body)],
            ),
            body,
        ),
{
    let s = t::TUPLE_CALL@;
    reveal_strlit(r#"{i}let __r = {module}::{func}({call_args});
{i}{body}"#);
    reveal_with_fuel(text::plain_to, 31);
    let b = seq![("i"@, i), ("module"@, module), ("func"@, func), ("call_args"@, call_args), ("body"@, body)];
    lemma_holes_i_module_func_call_args_body(i, module, func, call_args, body);
    assert(words::has_piece(
        text::fill(t::TUPLE_CALL@, b),
        "let __r = "@ + module + "::"@ + func + "("@ + call_args + ");"@,
    )) by {
        let before = text::lemma_fill_reaches(s, b, 3);
        reveal_strlit("let __r = ");
        assert(s.subrange(3, 13) =~= "let __r = "@);
        text::lemma_fill_run(s, b, 3, "let __r = "@);
        reveal_strlit("module");
        assert(s.subrange(14, 20) =~= "module"@);
        text::lemma_fill_hole(s, b, 13, "module"@);
        reveal_strlit("::");
        assert(s.subrange(21, 23) =~= "::"@);
        text::lemma_fill_run(s, b, 21, "::"@);
        reveal_strlit("func");
        assert(s.subrange(24, 28) =~= "func"@);
        text::lemma_fill_hole(s, b, 23, "func"@);
        reveal_strlit("(");
        assert(s.subrange(29, 30) =~= "("@);
        text::lemma_fill_run(s, b, 29, "("@);
        reveal_strlit("call_args");
        assert(s.subrange(31, 40) =~= "call_args"@);
        text::lemma_fill_hole(s, b, 30, "call_args"@);
        reveal_strlit(");");
        assert(s.subrange(41, 43) =~= ");"@);
        text::lemma_fill_run(s, b, 41, ");"@);
        let rest = text::fill_from(s, b, 43);
        let part = "let __r = "@ + module + "::"@ + func + "("@ + call_args + ");"@;
        assert(("let __r = "@ + (module + ("::"@ + (func + ("("@ + (call_args + (");"@ + rest)))))))
            =~= part + rest);
        words::lemma_piece_between(before, part, rest);
    }
    assert(words::has_piece(text::fill(t::TUPLE_CALL@, b), body)) by {
        let before = text::lemma_fill_reaches(s, b, 47);
        reveal_strlit("body");
        assert(s.subrange(48, 52) =~= "body"@);
        text::lemma_fill_hole(s, b, 47, "body"@);
        let rest = text::fill_from(s, b, 53);
        let part = body;
        words::lemma_piece_between(before, part, rest);
    }
}

proof fn lemma_optional_wrap(some_wrap: Seq<char>)
    ensures
        text::fill(t::OPTIONAL_WRAP@, seq![("some_wrap"@, some_wrap)])
            == "match __r { Some(v) => Ok("@ + some_wrap + "), None => Ok(SqlValue::Null) }"@,
{
    let s = t::OPTIONAL_WRAP@;
    let b = seq![("some_wrap"@, some_wrap)];
    reveal_strlit("match __r {{ Some(v) => Ok({some_wrap}), None => Ok(SqlValue::Null) }}");
    reveal_with_fuel(text::plain_to, 31);
    lemma_holes_some_wrap(some_wrap);
    reveal_strlit("match __r ");
    assert(s.subrange(0, 10) =~= "match __r "@);
    text::lemma_fill_run(s, b, 0, "match __r "@);
    assert(text::fill_from(s, b, 10) == seq!['{'] + text::fill_from(s, b, 12));
    reveal_strlit(" Some(v) => Ok(");
    assert(s.subrange(12, 27) =~= " Some(v) => Ok("@);
    text::lemma_fill_run(s, b, 12, " Some(v) => Ok("@);
    reveal_strlit("some_wrap");
    assert(s.subrange(28, 37) =~= "some_wrap"@);
    text::lemma_fill_hole(s, b, 27, "some_wrap"@);
    reveal_strlit("), None => Ok(SqlValue::Null) ");
    assert(s.subrange(38, 68) =~= "), None => Ok(SqlValue::Null) "@);
    text::lemma_fill_run(s, b, 38, "), None => Ok(SqlValue::Null) "@);
    assert(text::fill_from(s, b, 68) == seq!['}'] + text::fill_from(s, b, 70));
    reveal_strlit("match __r { Some(v) => Ok(");
    reveal_strlit("), None => Ok(SqlValue::Null) }");
    assert((
        "match __r "@
            + (
                seq!['{']
                    + (
                        " Some(v) => Ok("@
                            + (
                                some_wrap
                                    + (
                                        "), None => Ok(SqlValue::Null) "@
                                            + (seq!['}'] + text::fill_from(s, b, 70))
                                    )
                            )
                    )
            )
    )
        =~= "match __r { Some(v) => Ok("@ + some_wrap + "), None => Ok(SqlValue::Null) }"@);
}

proof fn lemma_tuple_optional(i: Seq<char>, sql_name: Seq<char>)
    ensures
        words::has_piece(
            text::fill(t::TUPLE_OPTIONAL@, seq![("i"@, i), ("sql_name"@, sql_name)]),
            "serde_json::to_string(&__t)"@,
        ),
        words::has_piece(
            text::fill(t::TUPLE_OPTIONAL@, seq![("i"@, i), ("sql_name"@, sql_name)]),
            "Ok(SqlValue::Text(__json))"@,
        ),
        words::has_piece(
            text::fill(t::TUPLE_OPTIONAL@, seq![("i"@, i), ("sql_name"@, sql_name)]),
            "None => Ok(SqlValue::Null)"@,
        ),
{
    let s = t::TUPLE_OPTIONAL@;
    reveal_strlit(r#"match __r {{
{i}    Some(__t) => {{
{i}        let __json = serde_json::to_string(&__t)
{i}            .map_err(|e| format!("{sql_name}: encode JSON: {{}}", e))?;
{i}        Ok(SqlValue::Text(__json))
{i}    }}
{i}    None => Ok(SqlValue::Null),
{i}}}"#);
    reveal_with_fuel(text::plain_to, 31);
    let b = seq![("i"@, i), ("sql_name"@, sql_name)];
    lemma_holes_i_sql_name(i, sql_name);
    assert(words::has_piece(text::fill(t::TUPLE_OPTIONAL@, b), "serde_json::to_string(&__t)"@)) by {
        let before = text::lemma_fill_reaches(s, b, 39);
        reveal_strlit("        let __json = ");
        assert(s.subrange(39, 60) =~= "        let __json = "@);
        text::lemma_fill_run(s, b, 39, "        let __json = "@);
        reveal_strlit("serde_json::to_string(&__t)");
        assert(s.subrange(60, 87) =~= "serde_json::to_string(&__t)"@);
        text::lemma_fill_run(s, b, 60, "serde_json::to_string(&__t)"@);
        let rest = text::fill_from(s, b, 87);
        let part = "serde_json::to_string(&__t)"@;
        assert(before + ("        let __json = "@ + (part + rest))
            =~= (before + "        let __json = "@) + (part + rest));
        words::lemma_piece_between(before + "        let __json = "@, part, rest);
    }
    assert(words::has_piece(text::fill(t::TUPLE_OPTIONAL@, b), "Ok(SqlValue::Text(__json))"@)) by {
        let before = text::lemma_fill_reaches(s, b, 166);
        reveal_strlit("        ");
        assert(s.subrange(166, 174) =~= "        "@);
        text::lemma_fill_run(s, b, 166, "        "@);
        reveal_strlit("Ok(SqlValue::Text(__json))");
        assert(s.subrange(174, 200) =~= "Ok(SqlValue::Text(__json))"@);
        text::lemma_fill_run(s, b, 174, "Ok(SqlValue::Text(__json))"@);
        let rest = text::fill_from(s, b, 200);
        let part = "Ok(SqlValue::Text(__json))"@;
        assert(before + ("        "@ + (part + rest)) =~= (before + "        "@) + (part + rest));
        words::lemma_piece_between(before + "        "@, part, rest);
    }
    assert(words::has_piece(text::fill(t::TUPLE_OPTIONAL@, b), "None => Ok(SqlValue::Null)"@)) by {
        let before = text::lemma_fill_reaches(s, b, 214);
        reveal_strlit("    ");
        assert(s.subrange(214, 218) =~= "    "@);
        text::lemma_fill_run(s, b, 214, "    "@);
        reveal_strlit("None => Ok(SqlValue::Null)");
        assert(s.subrange(218, 244) =~= "None => Ok(SqlValue::Null)"@);
        text::lemma_fill_run(s, b, 218, "None => Ok(SqlValue::Null)"@);
        let rest = text::fill_from(s, b, 244);
        let part = "None => Ok(SqlValue::Null)"@;
        assert(before + ("    "@ + (part + rest)) =~= (before + "    "@) + (part + rest));
        words::lemma_piece_between(before + "    "@, part, rest);
    }
}

proof fn lemma_tuple_body(i: Seq<char>, sql_name: Seq<char>)
    ensures
        words::has_piece(
            text::fill(t::TUPLE_BODY@, seq![("i"@, i), ("sql_name"@, sql_name)]),
            "serde_json::to_string(&__r)"@,
        ),
        words::has_piece(
            text::fill(t::TUPLE_BODY@, seq![("i"@, i), ("sql_name"@, sql_name)]),
            "Ok(SqlValue::Text(__json))"@,
        ),
{
    let s = t::TUPLE_BODY@;
    reveal_strlit(r#"{{
{i}    let __json = serde_json::to_string(&__r)
{i}        .map_err(|e| format!("{sql_name}: encode JSON: {{}}", e))?;
{i}    Ok(SqlValue::Text(__json))
{i}}}"#);
    reveal_with_fuel(text::plain_to, 31);
    let b = seq![("i"@, i), ("sql_name"@, sql_name)];
    lemma_holes_i_sql_name(i, sql_name);
    assert(words::has_piece(text::fill(t::TUPLE_BODY@, b), "serde_json::to_string(&__r)"@)) by {
        let before = text::lemma_fill_reaches(s, b, 6);
        reveal_strlit("    let __json = ");
        assert(s.subrange(6, 23) =~= "    let __json = "@);
        text::lemma_fill_run(s, b, 6, "    let __json = "@);
        reveal_strlit("serde_json::to_string(&__r)");
        assert(s.subrange(23, 50) =~= "serde_json::to_string(&__r)"@);
        text::lemma_fill_run(s, b, 23, "serde_json::to_string(&__r)"@);
        let rest = text::fill_from(s, b, 50);
        let part = "serde_json::to_string(&__r)"@;
        assert(before + ("    let __json = "@ + (part + rest))
            =~= (before + "    let __json = "@) + (part + rest));
        words::lemma_piece_between(before + "    let __json = "@, part, rest);
    }
    assert(words::has_piece(text::fill(t::TUPLE_BODY@, b), "Ok(SqlValue::Text(__json))"@)) by {
        let before = text::lemma_fill_reaches(s, b, 125);
        reveal_strlit("    ");
        assert(s.subrange(125, 129) =~= "    "@);
        text::lemma_fill_run(s, b, 125, "    "@);
        reveal_strlit("Ok(SqlValue::Text(__json))");
        assert(s.subrange(129, 155) =~= "Ok(SqlValue::Text(__json))"@);
        text::lemma_fill_run(s, b, 129, "Ok(SqlValue::Text(__json))"@);
        let rest = text::fill_from(s, b, 155);
        let part = "Ok(SqlValue::Text(__json))"@;
        assert(before + ("    "@ + (part + rest)) =~= (before + "    "@) + (part + rest));
        words::lemma_piece_between(before + "    "@, part, rest);
    }
}

} // verus!
