//! What the arms of aggregates do with the rows, and the values that they yield.

use vstd::prelude::*;
use vstd::string::*;

use crate::calls;
use crate::duckdb::dispatch;
use crate::duckdb::dispatch_templates as t;
use crate::duckdb::register;
use crate::duckdb::values;
use crate::ir::{AccKind, AggregateShape, ParamShape, RetShape, ScalarReturnKind};
use crate::text;
use crate::words;

verus! {

/// Whether an aggregate can take all extra arguments of a shape.
pub open spec fn extras_wired(shape: AggregateShape) -> bool {
    forall|j: int|
        0 <= j < shape.extra_args@.len() ==> calls::extra_wired(#[trigger] shape.extra_args@[j])
}

proof fn lemma_all_wired(extras: Seq<ParamShape>, k: int)
    requires
        0 <= k <= extras.len(),
        forall|j: int| 0 <= j < extras.len() ==> calls::extra_wired(#[trigger] extras[j]),
    ensures
        calls::unwired_extra_from(extras, k) == extras.len(),
    decreases extras.len() - k,
{
    if k < extras.len() {
        lemma_all_wired(extras, k + 1);
    }
}

/// What one of five texts holds, they hold together.
proof fn lemma_in_five(a: Seq<char>, b: Seq<char>, c: Seq<char>, d: Seq<char>, e: Seq<char>)
    ensures
        forall|p: Seq<char>| #[trigger]
            words::has_piece(b, p) ==> words::has_piece(a + b + c + d + e, p),
        forall|p: Seq<char>| #[trigger]
            words::has_piece(c, p) ==> words::has_piece(a + b + c + d + e, p),
        forall|p: Seq<char>| #[trigger]
            words::has_piece(d, p) ==> words::has_piece(a + b + c + d + e, p),
        forall|p: Seq<char>| #[trigger]
            words::has_piece(e, p) ==> words::has_piece(a + b + c + d + e, p),
{
    let all = a + b + c + d + e;
    assert forall|p: Seq<char>| #[trigger] words::has_piece(b, p) implies words::has_piece(all, p) by {
        words::lemma_piece_moved(a, b, p);
        words::lemma_piece_kept(a + b, c, p);
        words::lemma_piece_kept(a + b + c, d, p);
        words::lemma_piece_kept(a + b + c + d, e, p);
    }
    assert forall|p: Seq<char>| #[trigger] words::has_piece(c, p) implies words::has_piece(all, p) by {
        words::lemma_piece_moved(a + b, c, p);
        words::lemma_piece_kept(a + b + c, d, p);
        words::lemma_piece_kept(a + b + c + d, e, p);
    }
    assert forall|p: Seq<char>| #[trigger] words::has_piece(d, p) implies words::has_piece(all, p) by {
        words::lemma_piece_moved(a + b + c, d, p);
        words::lemma_piece_kept(a + b + c + d, e, p);
    }
    assert forall|p: Seq<char>| #[trigger] words::has_piece(e, p) implies words::has_piece(all, p) by {
        words::lemma_piece_moved(a + b + c + d, e, p);
    }
}

/// The first value of each row that is not null is read and decoded as what the aggregate
/// accumulates: blobs as geometries or as rasters, and typed values as records of its input.
pub proof fn law_rows_decoded(shape: AggregateShape, sql_name: Seq<char>, i: Seq<char>)
    requires
        extras_wired(shape),
    ensures
        ({
            let s = dispatch::aggregate_arm_body(shape, sql_name, i);
            match shape.accumulator_kind {
                AccKind::Geom => {
                    &&& words::has_piece(s, "if matches!(row[0], types::Duckvalue::Null) "@)
                    &&& words::has_piece(s, "let bytes = dv_blob(row, 0, \""@ + sql_name + "\")?;"@)
                    &&& words::has_piece(s, "blobs.push(bytes.to_vec());"@)
                    &&& words::has_piece(s, "let resources: Vec<Geometry> = blobs.iter()"@)
                    &&& words::has_piece(s, ".map(|b| Geometry::from_wkb(b))"@)
                    &&& words::has_piece(s, "let refs: Vec<&Geometry> = resources.iter().collect();"@)
                },
                AccKind::Raster => {
                    &&& words::has_piece(s, "if matches!(row[0], types::Duckvalue::Null) "@)
                    &&& words::has_piece(s, "let bytes = dv_blob(row, 0, \""@ + sql_name + "\")?;"@)
                    &&& words::has_piece(s, "blobs.push(bytes.to_vec());"@)
                    &&& words::has_piece(s, "let resources: Vec<Raster> = blobs.iter()"@)
                    &&& words::has_piece(
                        s,
                        ".map(|b| from_raster_binary(b.as_slice(), \""@ + sql_name + "\"))"@,
                    )
                    &&& words::has_piece(s, "let refs: Vec<&Raster> = resources.iter().collect();"@)
                },
                AccKind::Record { input, .. } => shape.extra_args@.len() == 0 ==> {
                    &&& words::has_piece(s, "if matches!(row[0], types::Duckvalue::Null) "@)
                    &&& words::has_piece(
                        s,
                        "upstream_vec.push(arg_witvalue_"@ + words::snake(input.kebab_name@)
                            + "(row, 0, \""@ + sql_name + "\")?);"@,
                    )
                },
                AccKind::RecordToScalar { input, .. } | AccKind::RecordToTuple { input, .. } => {
                    &&& words::has_piece(s, "if matches!(row[0], types::Duckvalue::Null) "@)
                    &&& words::has_piece(
                        s,
                        "upstream_vec.push(arg_witvalue_"@ + words::snake(input.kebab_name@)
                            + "(row, 0, \""@ + sql_name + "\")?);"@,
                    )
                },
                _ => true,
            }
        }),
{
    let extras = shape.extra_args@;
    lemma_all_wired(extras, 0);
    match shape.accumulator_kind {
        AccKind::Geom | AccKind::Raster => {
            lemma_resource_rows(shape, shape.accumulator_kind is Raster, sql_name, i);
        },
        AccKind::Record { input, output } => {
            let snake = words::snake(input.kebab_name@);
            lemma_agg_record_rows(i, snake, sql_name);
            words::lemma_pieces_kept(
                text::fill(
                    t::AGG_RECORD_ROWS@,
                    seq![("i"@, i), ("in_snake"@, snake), ("sql_name"@, sql_name)],
                ),
                text::fill(
                    t::AGG_RECORD_CALL@,
                    seq![
                        ("i"@, i),
                        ("module"@, shape.wit_module@),
                        ("func"@, shape.wit_func@),
                        ("out_snake"@, words::snake(output.kebab_name@)),
                    ],
                ),
            );
        },
        AccKind::RecordToScalar { input, output, optional } => {
            lemma_record_rows(shape, input.kebab_name@, sql_name, i);
            words::lemma_pieces_kept(
                dispatch::record_rows_text(shape, input.kebab_name@, sql_name, i),
                scalar_call(shape, output, optional, i),
            );
        },
        AccKind::RecordToTuple { input, optional } => {
            lemma_record_rows(shape, input.kebab_name@, sql_name, i);
            words::lemma_pieces_kept(
                dispatch::record_rows_text(shape, input.kebab_name@, sql_name, i),
                tuple_call(shape, optional, sql_name, i),
            );
        },
        _ => {},
    }
}

proof fn lemma_decode_names()
    ensures
        "let resources: Vec<"@ + "Geometry"@ + "> = blobs.iter()"@
            == "let resources: Vec<Geometry> = blobs.iter()"@,
        ".map(|b| "@ + "Geometry::from_wkb(b)"@ + ")"@ == ".map(|b| Geometry::from_wkb(b))"@,
        "let refs: Vec<&"@ + "Geometry"@ + "> = resources.iter().collect();"@
            == "let refs: Vec<&Geometry> = resources.iter().collect();"@,
        "let resources: Vec<"@ + "Raster"@ + "> = blobs.iter()"@
            == "let resources: Vec<Raster> = blobs.iter()"@,
        "let refs: Vec<&"@ + "Raster"@ + "> = resources.iter().collect();"@
            == "let refs: Vec<&Raster> = resources.iter().collect();"@,
        ".map(|b| "@ + "from_raster_binary(b.as_slice(), \""@
            == ".map(|b| from_raster_binary(b.as_slice(), \""@,
        "\")"@ + ")"@ == "\"))"@,
{
    reveal_strlit("let resources: Vec<");
    reveal_strlit("Geometry");
    reveal_strlit("> = blobs.iter()");
    reveal_strlit("let resources: Vec<Geometry> = blobs.iter()");
    assert("let resources: Vec<"@ + "Geometry"@ + "> = blobs.iter()"@
        =~= "let resources: Vec<Geometry> = blobs.iter()"@);
    reveal_strlit(".map(|b| ");
    reveal_strlit("Geometry::from_wkb(b)");
    reveal_strlit(")");
    reveal_strlit(".map(|b| Geometry::from_wkb(b))");
    assert(".map(|b| "@ + "Geometry::from_wkb(b)"@ + ")"@ =~= ".map(|b| Geometry::from_wkb(b))"@);
    reveal_strlit("let refs: Vec<&");
    reveal_strlit("Geometry");
    reveal_strlit("> = resources.iter().collect();");
    reveal_strlit("let refs: Vec<&Geometry> = resources.iter().collect();");
    assert("let refs: Vec<&"@ + "Geometry"@ + "> = resources.iter().collect();"@
        =~= "let refs: Vec<&Geometry> = resources.iter().collect();"@);
    reveal_strlit("let resources: Vec<");
    reveal_strlit("Raster");
    reveal_strlit("> = blobs.iter()");
    reveal_strlit("let resources: Vec<Raster> = blobs.iter()");
    assert("let resources: Vec<"@ + "Raster"@ + "> = blobs.iter()"@
        =~= "let resources: Vec<Raster> = blobs.iter()"@);
    reveal_strlit("let refs: Vec<&");
    reveal_strlit("Raster");
    reveal_strlit("> = resources.iter().collect();");
    reveal_strlit("let refs: Vec<&Raster> = resources.iter().collect();");
    assert("let refs: Vec<&"@ + "Raster"@ + "> = resources.iter().collect();"@
        =~= "let refs: Vec<&Raster> = resources.iter().collect();"@);
    reveal_strlit("from_raster_binary(b.as_slice(), \"");
    reveal_strlit(".map(|b| from_raster_binary(b.as_slice(), \"");
    reveal_strlit("\")");
    reveal_strlit("\"))");
    assert(".map(|b| "@ + "from_raster_binary(b.as_slice(), \""@
        =~= ".map(|b| from_raster_binary(b.as_slice(), \""@);
    assert("\")"@ + ")"@ =~= "\"))"@);
}

proof fn lemma_resource_rows(shape: AggregateShape, raster: bool, sql_name: Seq<char>, i: Seq<char>)
    ensures
        ({
            let s = dispatch::resource_aggregate_body(shape, raster, sql_name, i);
            let latch = dispatch::where_extras(t::AGG_EXTRAS_LATCH@, shape.extra_args@, i);
            &&& words::has_piece(s, "if matches!(row[0], types::Duckvalue::Null) "@)
            &&& words::has_piece(s, "let bytes = dv_blob(row, 0, \""@ + sql_name + "\")?;"@)
            &&& words::has_piece(s, "blobs.push(bytes.to_vec());"@)
            &&& words::has_piece(s, latch)
            &&& raster ==> {
                &&& words::has_piece(s, "let resources: Vec<Raster> = blobs.iter()"@)
                &&& words::has_piece(
                    s,
                    ".map(|b| from_raster_binary(b.as_slice(), \""@ + sql_name + "\"))"@,
                )
                &&& words::has_piece(s, "let refs: Vec<&Raster> = resources.iter().collect();"@)
            }
            &&& !raster ==> {
                &&& words::has_piece(s, "let resources: Vec<Geometry> = blobs.iter()"@)
                &&& words::has_piece(s, ".map(|b| Geometry::from_wkb(b))"@)
                &&& words::has_piece(s, "let refs: Vec<&Geometry> = resources.iter().collect();"@)
            }
            &&& forall|p: Seq<char>| #[trigger]
                words::has_piece(dispatch::extras_text(shape.extra_args@, sql_name, i), p)
                    ==> words::has_piece(s, p)
            &&& forall|p: Seq<char>| #[trigger]
                words::has_piece(dispatch::aggregate_return(shape, "&refs"@, sql_name, i), p)
                    ==> words::has_piece(s, p)
        }),
{
    let extras = shape.extra_args@;
    let latch = dispatch::where_extras(t::AGG_EXTRAS_LATCH@, extras, i);
    lemma_agg_blobs(i, sql_name, latch);
    lemma_decode_names();
    let decode = "from_raster_binary(b.as_slice(), \""@ + sql_name + "\")"@;
    lemma_agg_decode_geom(
        i,
        "Geometry"@,
        "Geometry::from_wkb(b)"@,
        "postgis_err_string"@,
        sql_name,
    );
    lemma_agg_decode_raster(i, "Raster"@, decode);
    assert(".map(|b| "@ + decode + ")"@ =~= (".map(|b| "@ + "from_raster_binary(b.as_slice(), \""@)
        + sql_name + ("\")"@ + ")"@));
    lemma_in_five(
        dispatch::where_extras(t::AGG_EXTRAS_DECL@, extras, i),
        text::fill(
            t::AGG_BLOBS@,
            seq![("i"@, i), ("sql_name"@, sql_name), ("extras_latch"@, latch)],
        ),
        dispatch::decode_text(raster, sql_name, i),
        dispatch::extras_text(extras, sql_name, i),
        dispatch::aggregate_return(shape, "&refs"@, sql_name, i),
    );
}

proof fn lemma_record_rows(
    shape: AggregateShape,
    input: Seq<char>,
    sql_name: Seq<char>,
    i: Seq<char>,
)
    ensures
        ({
            let s = dispatch::record_rows_text(shape, input, sql_name, i);
            let latch = dispatch::where_extras(t::AGG_EXTRAS_LATCH@, shape.extra_args@, i);
            &&& words::has_piece(s, "if matches!(row[0], types::Duckvalue::Null) "@)
            &&& words::has_piece(
                s,
                "upstream_vec.push(arg_witvalue_"@ + words::snake(input) + "(row, 0, \""@
                    + sql_name + "\")?);"@,
            )
            &&& words::has_piece(s, latch)
            &&& forall|p: Seq<char>| #[trigger]
                words::has_piece(dispatch::extras_text(shape.extra_args@, sql_name, i), p)
                    ==> words::has_piece(s, p)
        }),
{
    let extras = shape.extra_args@;
    let latch = dispatch::where_extras(t::AGG_EXTRAS_LATCH@, extras, i);
    let snake = words::snake(input);
    lemma_agg_rows(i, snake, sql_name, latch);
    let first = dispatch::where_extras(t::AGG_EXTRAS_DECL@, extras, i);
    let rows = text::fill(
        t::AGG_ROWS@,
        seq![("i"@, i), ("in_snake"@, snake), ("sql_name"@, sql_name), ("extras_latch"@, latch)],
    );
    let last = dispatch::extras_text(extras, sql_name, i);
    words::lemma_pieces_around(first, rows, last);
}

/// The call of the function that makes a scalar of the records.
spec fn scalar_call(
    shape: AggregateShape,
    output: ScalarReturnKind,
    optional: bool,
    i: Seq<char>,
) -> Seq<char> {
    text::fill(
        t::AGG_SCALAR_CALL@,
        seq![
            ("i"@, i),
            ("module"@, shape.wit_module@),
            ("func"@, shape.wit_func@),
            ("call_args"@, calls::accumulated_args("&upstream_vec"@, shape.extra_args@)),
            ("wrap"@, dispatch::scalar_wrap(output, optional)),
        ],
    )
}

/// How a tuple becomes a value.
spec fn tuple_body(optional: bool, sql_name: Seq<char>, i: Seq<char>) -> Seq<char> {
    text::fill(
        if optional {
            t::AGG_TUPLE_OPTIONAL@
        } else {
            t::AGG_TUPLE@
        },
        seq![("i"@, i), ("sql_name"@, sql_name)],
    )
}

/// The call of the function that makes a tuple of the records.
spec fn tuple_call(shape: AggregateShape, optional: bool, sql_name: Seq<char>, i: Seq<char>) -> Seq<
    char,
> {
    text::fill(
        t::AGG_TUPLE_CALL@,
        seq![
            ("i"@, i),
            ("module"@, shape.wit_module@),
            ("func"@, shape.wit_func@),
            ("call_args"@, calls::accumulated_args("&upstream_vec"@, shape.extra_args@)),
            ("body"@, tuple_body(optional, sql_name, i)),
        ],
    )
}

/// The extra arguments are those behind the first value of the first row, and each is declared
/// behind them in the body; an aggregate over records that makes a record takes none.
pub proof fn law_extras_kept(shape: AggregateShape, sql_name: Seq<char>, i: Seq<char>, j: int)
    requires
        extras_wired(shape),
        0 <= j < shape.extra_args@.len(),
        shape.accumulator_kind is Geom || shape.accumulator_kind is Raster
            || shape.accumulator_kind is Record || shape.accumulator_kind is RecordToScalar
            || shape.accumulator_kind is RecordToTuple,
    ensures
        ({
            let s = dispatch::aggregate_arm_body(shape, sql_name, i);
            if shape.accumulator_kind is Record {
                words::has_piece(s, "aggregate with extra args not yet wired"@)
            } else {
                &&& words::has_piece(s, "extras = Some(row[1..].to_vec());"@)
                &&& words::has_piece(s, "let extras = extras.unwrap_or_default();"@)
                &&& words::has_piece(
                    s,
                    dispatch::extra_decl(shape.extra_args@[j], j as nat, sql_name, i),
                )
            }
        }),
{
    let extras = shape.extra_args@;
    lemma_all_wired(extras, 0);
    lemma_agg_extras_latch(i);
    lemma_extras_in_text(extras, sql_name, i, j);
    let s = dispatch::aggregate_arm_body(shape, sql_name, i);
    let latch = dispatch::where_extras(t::AGG_EXTRAS_LATCH@, extras, i);
    match shape.accumulator_kind {
        AccKind::Record { .. } => lemma_agg_record_extras_unwired(i, sql_name),
        AccKind::RecordToScalar { input, output, optional } => {
            lemma_record_rows(shape, input.kebab_name@, sql_name, i);
            words::lemma_pieces_kept(
                dispatch::record_rows_text(shape, input.kebab_name@, sql_name, i),
                scalar_call(shape, output, optional, i),
            );
            words::lemma_piece_of_piece(s, latch, "extras = Some(row[1..].to_vec());"@);
        },
        AccKind::RecordToTuple { input, optional } => {
            lemma_record_rows(shape, input.kebab_name@, sql_name, i);
            words::lemma_pieces_kept(
                dispatch::record_rows_text(shape, input.kebab_name@, sql_name, i),
                tuple_call(shape, optional, sql_name, i),
            );
            words::lemma_piece_of_piece(s, latch, "extras = Some(row[1..].to_vec());"@);
        },
        _ => {
            lemma_resource_rows(shape, shape.accumulator_kind is Raster, sql_name, i);
            words::lemma_piece_of_piece(s, latch, "extras = Some(row[1..].to_vec());"@);
        },
    }
}

proof fn lemma_extras_in_text(extras: Seq<ParamShape>, sql_name: Seq<char>, i: Seq<char>, j: int)
    requires
        0 <= j < extras.len(),
    ensures
        ({
            let s = dispatch::extras_text(extras, sql_name, i);
            &&& words::has_piece(s, "let extras = extras.unwrap_or_default();"@)
            &&& words::has_piece(s, dispatch::extra_decl(extras[j], j as nat, sql_name, i))
        }),
{
    lemma_agg_extras_take(i);
    lemma_extra_declared(extras, sql_name, i, extras.len(), j);
    let first = text::fill(t::AGG_EXTRAS_TAKE@, seq![("i"@, i)]);
    let decls = dispatch::extra_decls(extras, sql_name, i, extras.len());
    words::lemma_pieces_kept(first, decls);
    words::lemma_pieces_moved(first, decls);
}

proof fn lemma_extra_declared(
    extras: Seq<ParamShape>,
    sql_name: Seq<char>,
    i: Seq<char>,
    n: nat,
    j: int,
)
    requires
        0 <= j < n <= extras.len(),
    ensures
        words::has_piece(
            dispatch::extra_decls(extras, sql_name, i, n),
            dispatch::extra_decl(extras[j], j as nat, sql_name, i),
        ),
    decreases n,
{
    let before = dispatch::extra_decls(extras, sql_name, i, (n - 1) as nat);
    let last = dispatch::extra_decl(extras[n - 1], (n - 1) as nat, sql_name, i);
    if j == n - 1 {
        words::lemma_piece_added(before, last);
    } else {
        lemma_extra_declared(extras, sql_name, i, (n - 1) as nat, j);
        words::lemma_piece_kept(
            before,
            last,
            dispatch::extra_decl(extras[j], j as nat, sql_name, i),
        );
    }
}

/// The function of an aggregate over geometries or rasters gets the references and the extra
/// arguments; what it yields is declared as, and made with, the kind of value of its shape.
pub proof fn law_resource_aggregate_values(shape: AggregateShape, sql_name: Seq<char>, i: Seq<char>)
    requires
        shape.accumulator_kind is Geom || shape.accumulator_kind is Raster,
        extras_wired(shape),
    ensures
        ({
            let s = dispatch::aggregate_arm_body(shape, sql_name, i);
            let args = calls::accumulated_args("&refs"@, shape.extra_args@);
            match shape.ret {
                RetShape::GeomBlob => {
                    &&& register::ret_logical(shape.ret) == "types::Logicaltype::Blob"@
                    &&& words::has_piece(
                        s,
                        "let r = "@ + shape.wit_module@ + "::"@ + shape.wit_func@ + "("@ + args
                            + ")"@,
                    )
                    &&& words::has_piece(s, "types::Duckvalue::Blob(r.as_wkb())"@)
                },
                RetShape::RasterBlob => {
                    &&& register::ret_logical(shape.ret) == "types::Logicaltype::Blob"@
                    &&& words::has_piece(
                        s,
                        "let r = "@ + shape.wit_module@ + "::"@ + shape.wit_func@ + "("@ + args
                            + ")"@,
                    )
                    &&& words::has_piece(s, "types::Duckvalue::Blob(r.as_binary())"@)
                },
                RetShape::FirstGeomBlob => {
                    &&& register::ret_logical(shape.ret) == "types::Logicaltype::Blob"@
                    &&& words::has_piece(
                        s,
                        shape.wit_module@ + "::"@ + shape.wit_func@ + "("@ + args + ")"@,
                    )
                    &&& words::has_piece(s, "Some(g) => Ok("@)
                    &&& words::has_piece(s, "types::Duckvalue::Blob(g.as_wkb())"@)
                    &&& words::has_piece(s, "None => Ok(types::Duckvalue::Null)"@)
                },
                RetShape::FirstOptionU32Int => {
                    &&& register::ret_logical(shape.ret) == "types::Logicaltype::Int64"@
                    &&& words::has_piece(
                        s,
                        shape.wit_module@ + "::"@ + shape.wit_func@ + "("@ + args + ")"@,
                    )
                    &&& words::has_piece(s, "Some(Some(v)) => Ok("@)
                    &&& words::has_piece(s, "types::Duckvalue::Int64(*v as i64)"@)
                    &&& words::has_piece(s, "Some(None) | None => Ok(types::Duckvalue::Null)"@)
                },
                RetShape::Bbox3dWkbLineZ => {
                    &&& register::ret_logical(shape.ret) == "types::Logicaltype::Blob"@
                    &&& words::has_piece(
                        s,
                        "let __bb = "@ + shape.wit_module@ + "::"@ + shape.wit_func@ + "("@ + args
                            + ");"@,
                    )
                    &&& words::has_piece(s, "types::Duckvalue::Blob(__wkb)"@)
                },
                _ => words::has_piece(s, "aggregate return shape not wired"@),
            }
        }),
{
    lemma_all_wired(shape.extra_args@, 0);
    lemma_resource_rows(shape, shape.accumulator_kind is Raster, sql_name, i);
    lemma_return_pieces(shape, sql_name, i);
}

proof fn lemma_return_pieces(shape: AggregateShape, sql_name: Seq<char>, i: Seq<char>)
    ensures
        ({
            let s = dispatch::aggregate_return(shape, "&refs"@, sql_name, i);
            let args = calls::accumulated_args("&refs"@, shape.extra_args@);
            match shape.ret {
                RetShape::GeomBlob => {
                    &&& register::ret_logical(shape.ret) == "types::Logicaltype::Blob"@
                    &&& words::has_piece(
                        s,
                        "let r = "@ + shape.wit_module@ + "::"@ + shape.wit_func@ + "("@ + args
                            + ")"@,
                    )
                    &&& words::has_piece(s, "types::Duckvalue::Blob(r.as_wkb())"@)
                },
                RetShape::RasterBlob => {
                    &&& register::ret_logical(shape.ret) == "types::Logicaltype::Blob"@
                    &&& words::has_piece(
                        s,
                        "let r = "@ + shape.wit_module@ + "::"@ + shape.wit_func@ + "("@ + args
                            + ")"@,
                    )
                    &&& words::has_piece(s, "types::Duckvalue::Blob(r.as_binary())"@)
                },
                RetShape::FirstGeomBlob => {
                    &&& register::ret_logical(shape.ret) == "types::Logicaltype::Blob"@
                    &&& words::has_piece(
                        s,
                        shape.wit_module@ + "::"@ + shape.wit_func@ + "("@ + args + ")"@,
                    )
                    &&& words::has_piece(s, "Some(g) => Ok("@)
                    &&& words::has_piece(s, "types::Duckvalue::Blob(g.as_wkb())"@)
                    &&& words::has_piece(s, "None => Ok(types::Duckvalue::Null)"@)
                },
                RetShape::FirstOptionU32Int => {
                    &&& register::ret_logical(shape.ret) == "types::Logicaltype::Int64"@
                    &&& words::has_piece(
                        s,
                        shape.wit_module@ + "::"@ + shape.wit_func@ + "("@ + args + ")"@,
                    )
                    &&& words::has_piece(s, "Some(Some(v)) => Ok("@)
                    &&& words::has_piece(s, "types::Duckvalue::Int64(*v as i64)"@)
                    &&& words::has_piece(s, "Some(None) | None => Ok(types::Duckvalue::Null)"@)
                },
                RetShape::Bbox3dWkbLineZ => {
                    &&& register::ret_logical(shape.ret) == "types::Logicaltype::Blob"@
                    &&& words::has_piece(
                        s,
                        "let __bb = "@ + shape.wit_module@ + "::"@ + shape.wit_func@ + "("@ + args
                            + ");"@,
                    )
                    &&& words::has_piece(s, "types::Duckvalue::Blob(__wkb)"@)
                },
                _ => words::has_piece(s, "aggregate return shape not wired"@),
            }
        }),
{
    let args = calls::accumulated_args("&refs"@, shape.extra_args@);
    let holes = dispatch::aggregate_call_holes(shape, "&refs"@, sql_name, i);
    let texts = dispatch::aggregate_ret_texts(shape.ret);
    match shape.ret {
        RetShape::GeomBlob => {
            lemma_agg_ret_geom(i, shape.wit_module@, shape.wit_func@, args, sql_name);
            reveal_strlit("types::Duckvalue::Blob");
            reveal_strlit("(");
            reveal_strlit("r.as_wkb()");
            reveal_strlit(")");
            reveal_strlit("types::Duckvalue::Blob(r.as_wkb())");
            assert("types::Duckvalue::Blob"@ + "("@ + "r.as_wkb()"@ + ")"@
                =~= "types::Duckvalue::Blob(r.as_wkb())"@);
        },
        RetShape::RasterBlob => {
            lemma_agg_ret_raster(i, shape.wit_module@, shape.wit_func@, args, sql_name);
            reveal_strlit("types::Duckvalue::Blob");
            reveal_strlit("(");
            reveal_strlit("r.as_binary()");
            reveal_strlit(")");
            reveal_strlit("types::Duckvalue::Blob(r.as_binary())");
            assert("types::Duckvalue::Blob"@ + "("@ + "r.as_binary()"@ + ")"@
                =~= "types::Duckvalue::Blob(r.as_binary())"@);
        },
        RetShape::FirstGeomBlob => {
            lemma_agg_ret_first_geom(i, shape.wit_module@, shape.wit_func@, args, sql_name);
            lemma_agg_ret_first_geom_end(i, shape.wit_module@, shape.wit_func@, args, sql_name);
            reveal_strlit("types::Duckvalue::Blob");
            reveal_strlit("(");
            reveal_strlit("g.as_wkb()");
            reveal_strlit(")");
            reveal_strlit("types::Duckvalue::Blob(g.as_wkb())");
            assert("types::Duckvalue::Blob"@ + "("@ + "g.as_wkb()"@ + ")"@
                =~= "types::Duckvalue::Blob(g.as_wkb())"@);
        },
        RetShape::FirstOptionU32Int => {
            lemma_agg_ret_first_option(i, shape.wit_module@, shape.wit_func@, args, sql_name);
            lemma_agg_ret_first_option_end(i, shape.wit_module@, shape.wit_func@, args, sql_name);
            reveal_strlit("types::Duckvalue::Int64");
            reveal_strlit("(");
            reveal_strlit("*v as i64");
            reveal_strlit(")");
            reveal_strlit("types::Duckvalue::Int64(*v as i64)");
            assert("types::Duckvalue::Int64"@ + "("@ + "*v as i64"@ + ")"@
                =~= "types::Duckvalue::Int64(*v as i64)"@);
        },
        RetShape::Bbox3dWkbLineZ => {
            lemma_agg_ret_bbox3d(i, shape.wit_module@, shape.wit_func@, args, sql_name);
            reveal_strlit("types::Duckvalue::Blob");
            reveal_strlit("(");
            reveal_strlit("__wkb");
            reveal_strlit(")");
            reveal_strlit("types::Duckvalue::Blob(__wkb)");
            assert("types::Duckvalue::Blob"@ + "("@ + "__wkb"@ + ")"@ =~= "types::Duckvalue::Blob(__wkb)"@);
        },
        _ => lemma_agg_ret_unwired(i, shape.wit_module@, shape.wit_func@, args, sql_name),
    }
    if dispatch::aggregate_ret_wired(shape.ret) {
        let before = text::fill(texts.0, holes);
        let value = values::made(values::made_kind(shape.ret), texts.1);
        let after = text::fill(texts.2, holes);
        words::lemma_pieces_around(before, value, after);
    }
}

/// The function of an aggregate over records gets the records and the extra arguments. A scalar
/// becomes the kind of value of its type, `Float64`, `Boolean` or `Int64`; a tuple becomes a JSON
/// text; a record goes through the function of its type. A missing one becomes null.
pub proof fn law_record_aggregate_values(shape: AggregateShape, sql_name: Seq<char>, i: Seq<char>)
    requires
        extras_wired(shape),
    ensures
        ({
            let s = dispatch::aggregate_arm_body(shape, sql_name, i);
            let args = calls::accumulated_args("&upstream_vec"@, shape.extra_args@);
            match shape.accumulator_kind {
                AccKind::Record { output, .. } => shape.extra_args@.len() == 0 ==> {
                    &&& words::has_piece(
                        s,
                        "let __r = "@ + shape.wit_module@ + "::"@ + shape.wit_func@
                            + "(&upstream_vec);"@,
                    )
                    &&& words::has_piece(
                        s,
                        "Some(__rec) => ret_to_witvalue_"@ + words::snake(output.kebab_name@)
                            + "(__rec)"@,
                    )
                    &&& words::has_piece(s, "None => Ok(types::Duckvalue::Null)"@)
                },
                AccKind::RecordToScalar { output, optional, .. } => {
                    &&& words::has_piece(
                        s,
                        "let __r = "@ + shape.wit_module@ + "::"@ + shape.wit_func@ + "("@ + args
                            + ");"@,
                    )
                    &&& match output {
                        ScalarReturnKind::F64
                        | ScalarReturnKind::F32 => {
                            &&& optional ==> words::has_piece(
                                s,
                                "match __r { Some(v) => Ok(types::Duckvalue::Float64(v as f64)), None => Ok(types::Duckvalue::Null) }"@,
                            )
                            &&& !optional ==> words::has_piece(s, "Ok(types::Duckvalue::Float64(__r as f64))"@)
                        },
                        ScalarReturnKind::Bool => {
                            &&& optional ==> words::has_piece(
                                s,
                                "match __r { Some(v) => Ok(types::Duckvalue::Boolean(v)), None => Ok(types::Duckvalue::Null) }"@,
                            )
                            &&& !optional ==> words::has_piece(s, "Ok(types::Duckvalue::Boolean(__r))"@)
                        },
                        ScalarReturnKind::U32
                        | ScalarReturnKind::S32
                        | ScalarReturnKind::U64
                        | ScalarReturnKind::S64
                        | ScalarReturnKind::U8 => {
                            &&& optional ==> words::has_piece(
                                s,
                                "match __r { Some(v) => Ok(types::Duckvalue::Int64(v as i64)), None => Ok(types::Duckvalue::Null) }"@,
                            )
                            &&& !optional ==> words::has_piece(s, "Ok(types::Duckvalue::Int64(__r as i64))"@)
                        },
                    }
                },
                AccKind::RecordToTuple { optional, .. } => {
                    &&& words::has_piece(
                        s,
                        "let __r = "@ + shape.wit_module@ + "::"@ + shape.wit_func@ + "("@ + args
                            + ");"@,
                    )
                    &&& words::has_piece(s, "Ok(types::Duckvalue::Text(__json))"@)
                    &&& optional ==> words::has_piece(s, "serde_json::to_string(&__t)"@)
                    &&& optional ==> words::has_piece(s, "None => Ok(types::Duckvalue::Null)"@)
                    &&& !optional ==> words::has_piece(s, "serde_json::to_string(&__r)"@)
                },
                _ => true,
            }
        }),
{
    let args = calls::accumulated_args("&upstream_vec"@, shape.extra_args@);
    lemma_all_wired(shape.extra_args@, 0);
    match shape.accumulator_kind {
        AccKind::Record { input, output } => {
            let snake = words::snake(output.kebab_name@);
            lemma_agg_record_call(i, shape.wit_module@, shape.wit_func@, snake);
            words::lemma_pieces_moved(
                text::fill(
                    t::AGG_RECORD_ROWS@,
                    seq![
                        ("i"@, i),
                        ("in_snake"@, words::snake(input.kebab_name@)),
                        ("sql_name"@, sql_name),
                    ],
                ),
                text::fill(
                    t::AGG_RECORD_CALL@,
                    seq![
                        ("i"@, i),
                        ("module"@, shape.wit_module@),
                        ("func"@, shape.wit_func@),
                        ("out_snake"@, snake),
                    ],
                ),
            );
        },
        AccKind::RecordToScalar { input, output, optional } => {
            let wrap = dispatch::scalar_wrap(output, optional);
            lemma_agg_scalar_call(i, shape.wit_module@, shape.wit_func@, args, wrap);
            lemma_scalar_wrap(output, optional);
            words::lemma_pieces_moved(
                dispatch::record_rows_text(shape, input.kebab_name@, sql_name, i),
                scalar_call(shape, output, optional, i),
            );
        },
        AccKind::RecordToTuple { input, optional } => {
            let body = tuple_body(optional, sql_name, i);
            lemma_agg_tuple_call(i, shape.wit_module@, shape.wit_func@, args, body);
            lemma_agg_tuple_optional(i, sql_name);
            lemma_agg_tuple(i, sql_name);
            words::lemma_pieces_of_piece(tuple_call(shape, optional, sql_name, i), body);
            words::lemma_pieces_moved(
                dispatch::record_rows_text(shape, input.kebab_name@, sql_name, i),
                tuple_call(shape, optional, sql_name, i),
            );
        },
        _ => {},
    }
}

proof fn lemma_scalar_wrap(output: ScalarReturnKind, optional: bool)
    ensures
        match output {
            ScalarReturnKind::F64 | ScalarReturnKind::F32 => dispatch::scalar_wrap(output, optional) == if optional {
                "match __r { Some(v) => Ok(types::Duckvalue::Float64(v as f64)), None => Ok(types::Duckvalue::Null) }"@
            } else {
                "Ok(types::Duckvalue::Float64(__r as f64))"@
            },
            ScalarReturnKind::Bool => dispatch::scalar_wrap(output, optional) == if optional {
                "match __r { Some(v) => Ok(types::Duckvalue::Boolean(v)), None => Ok(types::Duckvalue::Null) }"@
            } else {
                "Ok(types::Duckvalue::Boolean(__r))"@
            },
            ScalarReturnKind::U32 | ScalarReturnKind::S32 | ScalarReturnKind::U64 | ScalarReturnKind::S64 | ScalarReturnKind::U8 => dispatch::scalar_wrap(output, optional) == if optional {
                "match __r { Some(v) => Ok(types::Duckvalue::Int64(v as i64)), None => Ok(types::Duckvalue::Null) }"@
            } else {
                "Ok(types::Duckvalue::Int64(__r as i64))"@
            },
        },
{
    if optional {
        lemma_agg_optional_wrap(dispatch::some_wrap(output));
        reveal_strlit("match __r { Some(v) => Ok(");
        reveal_strlit("), None => Ok(types::Duckvalue::Null) }");
        match output {
            ScalarReturnKind::F64 | ScalarReturnKind::F32 => {
                reveal_strlit("types::Duckvalue::Float64(v as f64)");
                reveal_strlit("match __r { Some(v) => Ok(types::Duckvalue::Float64(v as f64)), None => Ok(types::Duckvalue::Null) }");
                assert("match __r { Some(v) => Ok("@ + "types::Duckvalue::Float64(v as f64)"@
                    + "), None => Ok(types::Duckvalue::Null) }"@
                    =~= "match __r { Some(v) => Ok(types::Duckvalue::Float64(v as f64)), None => Ok(types::Duckvalue::Null) }"@);
            },
            ScalarReturnKind::Bool => {
                reveal_strlit("types::Duckvalue::Boolean(v)");
                reveal_strlit("match __r { Some(v) => Ok(types::Duckvalue::Boolean(v)), None => Ok(types::Duckvalue::Null) }");
                assert("match __r { Some(v) => Ok("@ + "types::Duckvalue::Boolean(v)"@
                    + "), None => Ok(types::Duckvalue::Null) }"@
                    =~= "match __r { Some(v) => Ok(types::Duckvalue::Boolean(v)), None => Ok(types::Duckvalue::Null) }"@);
            },
            ScalarReturnKind::U32 | ScalarReturnKind::S32 | ScalarReturnKind::U64 | ScalarReturnKind::S64 | ScalarReturnKind::U8 => {
                reveal_strlit("types::Duckvalue::Int64(v as i64)");
                reveal_strlit("match __r { Some(v) => Ok(types::Duckvalue::Int64(v as i64)), None => Ok(types::Duckvalue::Null) }");
                assert("match __r { Some(v) => Ok("@ + "types::Duckvalue::Int64(v as i64)"@
                    + "), None => Ok(types::Duckvalue::Null) }"@
                    =~= "match __r { Some(v) => Ok(types::Duckvalue::Int64(v as i64)), None => Ok(types::Duckvalue::Null) }"@);
            },
        }
    }
}

proof fn lemma_holes_i(i: Seq<char>)
    ensures
        ({
            let b = seq![("i"@, i)];
            &&& text::lookup_from(b, "i"@, 0) == i
        }),
{
    reveal_strlit("i");
    reveal_with_fuel(text::lookup_from, 2);

}

proof fn lemma_holes_i_sql_name_extras_latch(
    i: Seq<char>,
    sql_name: Seq<char>,
    extras_latch: Seq<char>,
)
    ensures
        ({
            let b = seq![("i"@, i), ("sql_name"@, sql_name), ("extras_latch"@, extras_latch)];
            &&& text::lookup_from(b, "i"@, 0) == i
            &&& text::lookup_from(b, "sql_name"@, 0) == sql_name
            &&& text::lookup_from(b, "extras_latch"@, 0) == extras_latch
        }),
{
    reveal_strlit("i");
    reveal_strlit("sql_name");
    reveal_strlit("extras_latch");
    reveal_with_fuel(text::lookup_from, 4);
    assert("i"@.len() != "sql_name"@.len());
    assert("i"@.len() != "extras_latch"@.len());
    assert("sql_name"@.len() != "extras_latch"@.len());
}

proof fn lemma_holes_i_resource_ty_decode_call_err_helper_sql_name(
    i: Seq<char>,
    resource_ty: Seq<char>,
    decode_call: Seq<char>,
    err_helper: Seq<char>,
    sql_name: Seq<char>,
)
    ensures
        ({
            let b = seq![("i"@, i), ("resource_ty"@, resource_ty), ("decode_call"@, decode_call), ("err_helper"@, err_helper), ("sql_name"@, sql_name)];
            &&& text::lookup_from(b, "i"@, 0) == i
            &&& text::lookup_from(b, "resource_ty"@, 0) == resource_ty
            &&& text::lookup_from(b, "decode_call"@, 0) == decode_call
            &&& text::lookup_from(b, "err_helper"@, 0) == err_helper
            &&& text::lookup_from(b, "sql_name"@, 0) == sql_name
        }),
{
    reveal_strlit("i");
    reveal_strlit("resource_ty");
    reveal_strlit("decode_call");
    reveal_strlit("err_helper");
    reveal_strlit("sql_name");
    reveal_with_fuel(text::lookup_from, 6);
    assert("i"@.len() != "resource_ty"@.len());
    assert("i"@.len() != "decode_call"@.len());
    assert("i"@.len() != "err_helper"@.len());
    assert("i"@.len() != "sql_name"@.len());
    assert("resource_ty"@[0] != "decode_call"@[0]);
    assert("resource_ty"@.len() != "err_helper"@.len());
    assert("resource_ty"@.len() != "sql_name"@.len());
    assert("decode_call"@.len() != "err_helper"@.len());
    assert("decode_call"@.len() != "sql_name"@.len());
    assert("err_helper"@.len() != "sql_name"@.len());
}

proof fn lemma_holes_i_resource_ty_decode_call(
    i: Seq<char>,
    resource_ty: Seq<char>,
    decode_call: Seq<char>,
)
    ensures
        ({
            let b = seq![("i"@, i), ("resource_ty"@, resource_ty), ("decode_call"@, decode_call)];
            &&& text::lookup_from(b, "i"@, 0) == i
            &&& text::lookup_from(b, "resource_ty"@, 0) == resource_ty
            &&& text::lookup_from(b, "decode_call"@, 0) == decode_call
        }),
{
    reveal_strlit("i");
    reveal_strlit("resource_ty");
    reveal_strlit("decode_call");
    reveal_with_fuel(text::lookup_from, 4);
    assert("i"@.len() != "resource_ty"@.len());
    assert("i"@.len() != "decode_call"@.len());
    assert("resource_ty"@[0] != "decode_call"@[0]);
}

proof fn lemma_holes_i_module_func_call_args_sql_name(
    i: Seq<char>,
    module: Seq<char>,
    func: Seq<char>,
    call_args: Seq<char>,
    sql_name: Seq<char>,
)
    ensures
        ({
            let b = seq![("i"@, i), ("module"@, module), ("func"@, func), ("call_args"@, call_args), ("sql_name"@, sql_name)];
            &&& text::lookup_from(b, "i"@, 0) == i
            &&& text::lookup_from(b, "module"@, 0) == module
            &&& text::lookup_from(b, "func"@, 0) == func
            &&& text::lookup_from(b, "call_args"@, 0) == call_args
            &&& text::lookup_from(b, "sql_name"@, 0) == sql_name
        }),
{
    reveal_strlit("i");
    reveal_strlit("module");
    reveal_strlit("func");
    reveal_strlit("call_args");
    reveal_strlit("sql_name");
    reveal_with_fuel(text::lookup_from, 6);
    assert("i"@.len() != "module"@.len());
    assert("i"@.len() != "func"@.len());
    assert("i"@.len() != "call_args"@.len());
    assert("i"@.len() != "sql_name"@.len());
    assert("module"@.len() != "func"@.len());
    assert("module"@.len() != "call_args"@.len());
    assert("module"@.len() != "sql_name"@.len());
    assert("func"@.len() != "call_args"@.len());
    assert("func"@.len() != "sql_name"@.len());
    assert("call_args"@.len() != "sql_name"@.len());
}

proof fn lemma_holes_i_in_snake_sql_name(i: Seq<char>, in_snake: Seq<char>, sql_name: Seq<char>)
    ensures
        ({
            let b = seq![("i"@, i), ("in_snake"@, in_snake), ("sql_name"@, sql_name)];
            &&& text::lookup_from(b, "i"@, 0) == i
            &&& text::lookup_from(b, "in_snake"@, 0) == in_snake
            &&& text::lookup_from(b, "sql_name"@, 0) == sql_name
        }),
{
    reveal_strlit("i");
    reveal_strlit("in_snake");
    reveal_strlit("sql_name");
    reveal_with_fuel(text::lookup_from, 4);
    assert("i"@.len() != "in_snake"@.len());
    assert("i"@.len() != "sql_name"@.len());
    assert("in_snake"@[0] != "sql_name"@[0]);
}

proof fn lemma_holes_i_in_snake_sql_name_extras_latch(
    i: Seq<char>,
    in_snake: Seq<char>,
    sql_name: Seq<char>,
    extras_latch: Seq<char>,
)
    ensures
        ({
            let b = seq![("i"@, i), ("in_snake"@, in_snake), ("sql_name"@, sql_name), ("extras_latch"@, extras_latch)];
            &&& text::lookup_from(b, "i"@, 0) == i
            &&& text::lookup_from(b, "in_snake"@, 0) == in_snake
            &&& text::lookup_from(b, "sql_name"@, 0) == sql_name
            &&& text::lookup_from(b, "extras_latch"@, 0) == extras_latch
        }),
{
    reveal_strlit("i");
    reveal_strlit("in_snake");
    reveal_strlit("sql_name");
    reveal_strlit("extras_latch");
    reveal_with_fuel(text::lookup_from, 5);
    assert("i"@.len() != "in_snake"@.len());
    assert("i"@.len() != "sql_name"@.len());
    assert("i"@.len() != "extras_latch"@.len());
    assert("in_snake"@[0] != "sql_name"@[0]);
    assert("in_snake"@.len() != "extras_latch"@.len());
    assert("sql_name"@.len() != "extras_latch"@.len());
}

proof fn lemma_holes_i_sql_name(i: Seq<char>, sql_name: Seq<char>)
    ensures
        ({
            let b = seq![("i"@, i), ("sql_name"@, sql_name)];
            &&& text::lookup_from(b, "i"@, 0) == i
            &&& text::lookup_from(b, "sql_name"@, 0) == sql_name
        }),
{
    reveal_strlit("i");
    reveal_strlit("sql_name");
    reveal_with_fuel(text::lookup_from, 3);
    assert("i"@.len() != "sql_name"@.len());
}

proof fn lemma_holes_i_module_func_out_snake(
    i: Seq<char>,
    module: Seq<char>,
    func: Seq<char>,
    out_snake: Seq<char>,
)
    ensures
        ({
            let b = seq![("i"@, i), ("module"@, module), ("func"@, func), ("out_snake"@, out_snake)];
            &&& text::lookup_from(b, "i"@, 0) == i
            &&& text::lookup_from(b, "module"@, 0) == module
            &&& text::lookup_from(b, "func"@, 0) == func
            &&& text::lookup_from(b, "out_snake"@, 0) == out_snake
        }),
{
    reveal_strlit("i");
    reveal_strlit("module");
    reveal_strlit("func");
    reveal_strlit("out_snake");
    reveal_with_fuel(text::lookup_from, 5);
    assert("i"@.len() != "module"@.len());
    assert("i"@.len() != "func"@.len());
    assert("i"@.len() != "out_snake"@.len());
    assert("module"@.len() != "func"@.len());
    assert("module"@.len() != "out_snake"@.len());
    assert("func"@.len() != "out_snake"@.len());
}

proof fn lemma_holes_i_module_func_call_args_wrap(
    i: Seq<char>,
    module: Seq<char>,
    func: Seq<char>,
    call_args: Seq<char>,
    wrap: Seq<char>,
)
    ensures
        ({
            let b = seq![("i"@, i), ("module"@, module), ("func"@, func), ("call_args"@, call_args), ("wrap"@, wrap)];
            &&& text::lookup_from(b, "i"@, 0) == i
            &&& text::lookup_from(b, "module"@, 0) == module
            &&& text::lookup_from(b, "func"@, 0) == func
            &&& text::lookup_from(b, "call_args"@, 0) == call_args
            &&& text::lookup_from(b, "wrap"@, 0) == wrap
        }),
{
    reveal_strlit("i");
    reveal_strlit("module");
    reveal_strlit("func");
    reveal_strlit("call_args");
    reveal_strlit("wrap");
    reveal_with_fuel(text::lookup_from, 6);
    assert("i"@.len() != "module"@.len());
    assert("i"@.len() != "func"@.len());
    assert("i"@.len() != "call_args"@.len());
    assert("i"@.len() != "wrap"@.len());
    assert("module"@.len() != "func"@.len());
    assert("module"@.len() != "call_args"@.len());
    assert("module"@.len() != "wrap"@.len());
    assert("func"@.len() != "call_args"@.len());
    assert("func"@[0] != "wrap"@[0]);
    assert("call_args"@.len() != "wrap"@.len());
}

proof fn lemma_holes_i_module_func_call_args_body(
    i: Seq<char>,
    module: Seq<char>,
    func: Seq<char>,
    call_args: Seq<char>,
    body: Seq<char>,
)
    ensures
        ({
            let b = seq![("i"@, i), ("module"@, module), ("func"@, func), ("call_args"@, call_args), ("body"@, body)];
            &&& text::lookup_from(b, "i"@, 0) == i
            &&& text::lookup_from(b, "module"@, 0) == module
            &&& text::lookup_from(b, "func"@, 0) == func
            &&& text::lookup_from(b, "call_args"@, 0) == call_args
            &&& text::lookup_from(b, "body"@, 0) == body
        }),
{
    reveal_strlit("i");
    reveal_strlit("module");
    reveal_strlit("func");
    reveal_strlit("call_args");
    reveal_strlit("body");
    reveal_with_fuel(text::lookup_from, 6);
    assert("i"@.len() != "module"@.len());
    assert("i"@.len() != "func"@.len());
    assert("i"@.len() != "call_args"@.len());
    assert("i"@.len() != "body"@.len());
    assert("module"@.len() != "func"@.len());
    assert("module"@.len() != "call_args"@.len());
    assert("module"@.len() != "body"@.len());
    assert("func"@.len() != "call_args"@.len());
    assert("func"@[0] != "body"@[0]);
    assert("call_args"@.len() != "body"@.len());
}

proof fn lemma_holes_some_wrap(some_wrap: Seq<char>)
    ensures
        ({
            let b = seq![("some_wrap"@, some_wrap)];
            &&& text::lookup_from(b, "some_wrap"@, 0) == some_wrap
        }),
{
    reveal_strlit("some_wrap");
    reveal_with_fuel(text::lookup_from, 2);

}

proof fn lemma_agg_extras_latch(i: Seq<char>)
    ensures
        words::has_piece(
            text::fill(t::AGG_EXTRAS_LATCH@, seq![("i"@, i)]),
            "extras = Some(row[1..].to_vec());"@,
        ),
{
    let s = t::AGG_EXTRAS_LATCH@;
    reveal_strlit(r#"{i}    if extras.is_none() {{
{i}        extras = Some(row[1..].to_vec());
{i}    }}
"#);
    reveal_with_fuel(text::plain_to, 31);
    let b = seq![("i"@, i)];
    lemma_holes_i(i);
    assert(words::has_piece(text::fill(t::AGG_EXTRAS_LATCH@, b), "extras = Some(row[1..].to_vec());"@)) by {
        let before = text::lemma_fill_reaches(s, b, 33);
        reveal_strlit("        ");
        assert(s.subrange(33, 41) =~= "        "@);
        text::lemma_fill_run(s, b, 33, "        "@);
        reveal_strlit("extras = Some(row[1..].to_vec(");
        assert(s.subrange(41, 71) =~= "extras = Some(row[1..].to_vec("@);
        text::lemma_fill_run(s, b, 41, "extras = Some(row[1..].to_vec("@);
        reveal_strlit("));");
        assert(s.subrange(71, 74) =~= "));"@);
        text::lemma_fill_run(s, b, 71, "));"@);
        let rest = text::fill_from(s, b, 74);
        let part = "extras = Some(row[1..].to_vec());"@;
        reveal_strlit("extras = Some(row[1..].to_vec());");
        assert(("extras = Some(row[1..].to_vec("@ + ("));"@ + rest)) =~= part + rest);
        assert(before + ("        "@ + (part + rest)) =~= (before + "        "@) + (part + rest));
        words::lemma_piece_between(before + "        "@, part, rest);
    }
}

proof fn lemma_agg_blobs(i: Seq<char>, sql_name: Seq<char>, extras_latch: Seq<char>)
    ensures
        words::has_piece(
            text::fill(
                t::AGG_BLOBS@,
                seq![("i"@, i), ("sql_name"@, sql_name), ("extras_latch"@, extras_latch)],
            ),
            "if matches!(row[0], types::Duckvalue::Null) "@,
        ),
        words::has_piece(
            text::fill(
                t::AGG_BLOBS@,
                seq![("i"@, i), ("sql_name"@, sql_name), ("extras_latch"@, extras_latch)],
            ),
            "let bytes = dv_blob(row, 0, \""@ + sql_name + "\")?;"@,
        ),
        words::has_piece(
            text::fill(
                t::AGG_BLOBS@,
                seq![("i"@, i), ("sql_name"@, sql_name), ("extras_latch"@, extras_latch)],
            ),
            "blobs.push(bytes.to_vec());"@,
        ),
        words::has_piece(
            text::fill(
                t::AGG_BLOBS@,
                seq![("i"@, i), ("sql_name"@, sql_name), ("extras_latch"@, extras_latch)],
            ),
            extras_latch,
        ),
{
    let s = t::AGG_BLOBS@;
    reveal_strlit(r#"{i}let mut blobs: Vec<Vec<u8>> = Vec::with_capacity(rows.len());
{i}for row in &rows {{
{i}    if row.is_empty() {{ continue; }}
{i}    if matches!(row[0], types::Duckvalue::Null) {{ continue; }}
{i}    let bytes = dv_blob(row, 0, "{sql_name}")?;
{i}    blobs.push(bytes.to_vec());
{extras_latch}{i}}}
"#);
    reveal_with_fuel(text::plain_to, 31);
    let b = seq![("i"@, i), ("sql_name"@, sql_name), ("extras_latch"@, extras_latch)];
    lemma_holes_i_sql_name_extras_latch(i, sql_name, extras_latch);
    assert(words::has_piece(text::fill(t::AGG_BLOBS@, b), "if matches!(row[0], types::Duckvalue::Null) "@)) by {
        let before = text::lemma_fill_reaches(s, b, 132);
        reveal_strlit("    ");
        assert(s.subrange(132, 136) =~= "    "@);
        text::lemma_fill_run(s, b, 132, "    "@);
        reveal_strlit("if matches!(row[0], types::Duc");
        assert(s.subrange(136, 166) =~= "if matches!(row[0], types::Duc"@);
        text::lemma_fill_run(s, b, 136, "if matches!(row[0], types::Duc"@);
        reveal_strlit("kvalue::Null) ");
        assert(s.subrange(166, 180) =~= "kvalue::Null) "@);
        text::lemma_fill_run(s, b, 166, "kvalue::Null) "@);
        let rest = text::fill_from(s, b, 180);
        let part = "if matches!(row[0], types::Duckvalue::Null) "@;
        reveal_strlit("if matches!(row[0], types::Duckvalue::Null) ");
        assert(("if matches!(row[0], types::Duc"@ + ("kvalue::Null) "@ + rest)) =~= part + rest);
        assert(before + ("    "@ + (part + rest)) =~= (before + "    "@) + (part + rest));
        words::lemma_piece_between(before + "    "@, part, rest);
    }
    assert(words::has_piece(
        text::fill(t::AGG_BLOBS@, b),
        "let bytes = dv_blob(row, 0, \""@ + sql_name + "\")?;"@,
    )) by {
        let before = text::lemma_fill_reaches(s, b, 199);
        reveal_strlit("    ");
        assert(s.subrange(199, 203) =~= "    "@);
        text::lemma_fill_run(s, b, 199, "    "@);
        reveal_strlit("let bytes = dv_blob(row, 0, \"");
        assert(s.subrange(203, 232) =~= "let bytes = dv_blob(row, 0, \""@);
        text::lemma_fill_run(s, b, 203, "let bytes = dv_blob(row, 0, \""@);
        reveal_strlit("sql_name");
        assert(s.subrange(233, 241) =~= "sql_name"@);
        text::lemma_fill_hole(s, b, 232, "sql_name"@);
        reveal_strlit("\")?;");
        assert(s.subrange(242, 246) =~= "\")?;"@);
        text::lemma_fill_run(s, b, 242, "\")?;"@);
        let rest = text::fill_from(s, b, 246);
        let part = "let bytes = dv_blob(row, 0, \""@ + sql_name + "\")?;"@;
        assert(("let bytes = dv_blob(row, 0, \""@ + (sql_name + ("\")?;"@ + rest))) =~= part + rest);
        assert(before + ("    "@ + (part + rest)) =~= (before + "    "@) + (part + rest));
        words::lemma_piece_between(before + "    "@, part, rest);
    }
    assert(words::has_piece(text::fill(t::AGG_BLOBS@, b), "blobs.push(bytes.to_vec());"@)) by {
        let before = text::lemma_fill_reaches(s, b, 250);
        reveal_strlit("    ");
        assert(s.subrange(250, 254) =~= "    "@);
        text::lemma_fill_run(s, b, 250, "    "@);
        reveal_strlit("blobs.push(bytes.to_vec());");
        assert(s.subrange(254, 281) =~= "blobs.push(bytes.to_vec());"@);
        text::lemma_fill_run(s, b, 254, "blobs.push(bytes.to_vec());"@);
        let rest = text::fill_from(s, b, 281);
        let part = "blobs.push(bytes.to_vec());"@;
        assert(before + ("    "@ + (part + rest)) =~= (before + "    "@) + (part + rest));
        words::lemma_piece_between(before + "    "@, part, rest);
    }
    assert(words::has_piece(text::fill(t::AGG_BLOBS@, b), extras_latch)) by {
        let before = text::lemma_fill_reaches(s, b, 250);
        reveal_strlit("    blobs.push(bytes.to_vec())");
        assert(s.subrange(250, 280) =~= "    blobs.push(bytes.to_vec())"@);
        text::lemma_fill_run(s, b, 250, "    blobs.push(bytes.to_vec())"@);
        reveal_strlit(";\n");
        assert(s.subrange(280, 282) =~= ";\n"@);
        text::lemma_fill_run(s, b, 280, ";\n"@);
        reveal_strlit("extras_latch");
        assert(s.subrange(283, 295) =~= "extras_latch"@);
        text::lemma_fill_hole(s, b, 282, "extras_latch"@);
        let rest = text::fill_from(s, b, 296);
        let part = extras_latch;
        assert(before + ("    blobs.push(bytes.to_vec())"@ + (";\n"@ + (part + rest)))
            =~= (before + "    blobs.push(bytes.to_vec())"@ + ";\n"@) + (part + rest));
        words::lemma_piece_between(before + "    blobs.push(bytes.to_vec())"@ + ";\n"@, part, rest);
    }
}

proof fn lemma_agg_decode_geom(
    i: Seq<char>,
    resource_ty: Seq<char>,
    decode_call: Seq<char>,
    err_helper: Seq<char>,
    sql_name: Seq<char>,
)
    ensures
        words::has_piece(
            text::fill(
                t::AGG_DECODE_GEOM@,
                seq![("i"@, i), ("resource_ty"@, resource_ty), ("decode_call"@, decode_call), ("err_helper"@, err_helper), ("sql_name"@, sql_name)],
            ),
            "let resources: Vec<"@ + resource_ty + "> = blobs.iter()"@,
        ),
        words::has_piece(
            text::fill(
                t::AGG_DECODE_GEOM@,
                seq![("i"@, i), ("resource_ty"@, resource_ty), ("decode_call"@, decode_call), ("err_helper"@, err_helper), ("sql_name"@, sql_name)],
            ),
            ".map(|b| "@ + decode_call + ")"@,
        ),
        words::has_piece(
            text::fill(
                t::AGG_DECODE_GEOM@,
                seq![("i"@, i), ("resource_ty"@, resource_ty), ("decode_call"@, decode_call), ("err_helper"@, err_helper), ("sql_name"@, sql_name)],
            ),
            "let refs: Vec<&"@ + resource_ty + "> = resources.iter().collect();"@,
        ),
{
    let s = t::AGG_DECODE_GEOM@;
    reveal_strlit(r#"{i}let resources: Vec<{resource_ty}> = blobs.iter()
{i}    .map(|b| {decode_call})
{i}    .collect::<Result<Vec<_>, _>>()
{i}    .map_err(|e| types::Duckerror::Invalidargument(
{i}        format!("{sql_name}: {{}}", {err_helper}(e))))?;
{i}let refs: Vec<&{resource_ty}> = resources.iter().collect();
"#);
    reveal_with_fuel(text::plain_to, 31);
    let b = seq![("i"@, i), ("resource_ty"@, resource_ty), ("decode_call"@, decode_call), ("err_helper"@, err_helper), ("sql_name"@, sql_name)];
    lemma_holes_i_resource_ty_decode_call_err_helper_sql_name(
        i,
        resource_ty,
        decode_call,
        err_helper,
        sql_name,
    );
    assert(words::has_piece(
        text::fill(t::AGG_DECODE_GEOM@, b),
        "let resources: Vec<"@ + resource_ty + "> = blobs.iter()"@,
    )) by {
        let before = text::lemma_fill_reaches(s, b, 3);
        reveal_strlit("let resources: Vec<");
        assert(s.subrange(3, 22) =~= "let resources: Vec<"@);
        text::lemma_fill_run(s, b, 3, "let resources: Vec<"@);
        reveal_strlit("resource_ty");
        assert(s.subrange(23, 34) =~= "resource_ty"@);
        text::lemma_fill_hole(s, b, 22, "resource_ty"@);
        reveal_strlit("> = blobs.iter()");
        assert(s.subrange(35, 51) =~= "> = blobs.iter()"@);
        text::lemma_fill_run(s, b, 35, "> = blobs.iter()"@);
        let rest = text::fill_from(s, b, 51);
        let part = "let resources: Vec<"@ + resource_ty + "> = blobs.iter()"@;
        assert(("let resources: Vec<"@ + (resource_ty + ("> = blobs.iter()"@ + rest))) =~= part + rest);
        words::lemma_piece_between(before, part, rest);
    }
    assert(words::has_piece(text::fill(t::AGG_DECODE_GEOM@, b), ".map(|b| "@ + decode_call + ")"@)) by {
        let before = text::lemma_fill_reaches(s, b, 55);
        reveal_strlit("    ");
        assert(s.subrange(55, 59) =~= "    "@);
        text::lemma_fill_run(s, b, 55, "    "@);
        reveal_strlit(".map(|b| ");
        assert(s.subrange(59, 68) =~= ".map(|b| "@);
        text::lemma_fill_run(s, b, 59, ".map(|b| "@);
        reveal_strlit("decode_call");
        assert(s.subrange(69, 80) =~= "decode_call"@);
        text::lemma_fill_hole(s, b, 68, "decode_call"@);
        reveal_strlit(")");
        assert(s.subrange(81, 82) =~= ")"@);
        text::lemma_fill_run(s, b, 81, ")"@);
        let rest = text::fill_from(s, b, 82);
        let part = ".map(|b| "@ + decode_call + ")"@;
        assert((".map(|b| "@ + (decode_call + (")"@ + rest))) =~= part + rest);
        assert(before + ("    "@ + (part + rest)) =~= (before + "    "@) + (part + rest));
        words::lemma_piece_between(before + "    "@, part, rest);
    }
    assert(words::has_piece(
        text::fill(t::AGG_DECODE_GEOM@, b),
        "let refs: Vec<&"@ + resource_ty + "> = resources.iter().collect();"@,
    )) by {
        let before = text::lemma_fill_reaches(s, b, 240);
        reveal_strlit("let refs: Vec<&");
        assert(s.subrange(240, 255) =~= "let refs: Vec<&"@);
        text::lemma_fill_run(s, b, 240, "let refs: Vec<&"@);
        reveal_strlit("resource_ty");
        assert(s.subrange(256, 267) =~= "resource_ty"@);
        text::lemma_fill_hole(s, b, 255, "resource_ty"@);
        reveal_strlit("> = resources.iter().collect()");
        assert(s.subrange(268, 298) =~= "> = resources.iter().collect()"@);
        text::lemma_fill_run(s, b, 268, "> = resources.iter().collect()"@);
        reveal_strlit(";");
        assert(s.subrange(298, 299) =~= ";"@);
        text::lemma_fill_run(s, b, 298, ";"@);
        let rest = text::fill_from(s, b, 299);
        let part = "let refs: Vec<&"@ + resource_ty + "> = resources.iter().collect();"@;
        reveal_strlit("> = resources.iter().collect();");
        assert(("let refs: Vec<&"@ + (resource_ty + ("> = resources.iter().collect()"@ + (";"@ + rest))))
            =~= part + rest);
        words::lemma_piece_between(before, part, rest);
    }
}

proof fn lemma_agg_decode_raster(i: Seq<char>, resource_ty: Seq<char>, decode_call: Seq<char>)
    ensures
        words::has_piece(
            text::fill(
                t::AGG_DECODE_RASTER@,
                seq![("i"@, i), ("resource_ty"@, resource_ty), ("decode_call"@, decode_call)],
            ),
            "let resources: Vec<"@ + resource_ty + "> = blobs.iter()"@,
        ),
        words::has_piece(
            text::fill(
                t::AGG_DECODE_RASTER@,
                seq![("i"@, i), ("resource_ty"@, resource_ty), ("decode_call"@, decode_call)],
            ),
            ".map(|b| "@ + decode_call + ")"@,
        ),
        words::has_piece(
            text::fill(
                t::AGG_DECODE_RASTER@,
                seq![("i"@, i), ("resource_ty"@, resource_ty), ("decode_call"@, decode_call)],
            ),
            "let refs: Vec<&"@ + resource_ty + "> = resources.iter().collect();"@,
        ),
{
    let s = t::AGG_DECODE_RASTER@;
    reveal_strlit(r#"{i}let resources: Vec<{resource_ty}> = blobs.iter()
{i}    .map(|b| {decode_call})
{i}    .collect::<Result<Vec<_>, _>>()?;
{i}let refs: Vec<&{resource_ty}> = resources.iter().collect();
"#);
    reveal_with_fuel(text::plain_to, 31);
    let b = seq![("i"@, i), ("resource_ty"@, resource_ty), ("decode_call"@, decode_call)];
    lemma_holes_i_resource_ty_decode_call(i, resource_ty, decode_call);
    assert(words::has_piece(
        text::fill(t::AGG_DECODE_RASTER@, b),
        "let resources: Vec<"@ + resource_ty + "> = blobs.iter()"@,
    )) by {
        let before = text::lemma_fill_reaches(s, b, 3);
        reveal_strlit("let resources: Vec<");
        assert(s.subrange(3, 22) =~= "let resources: Vec<"@);
        text::lemma_fill_run(s, b, 3, "let resources: Vec<"@);
        reveal_strlit("resource_ty");
        assert(s.subrange(23, 34) =~= "resource_ty"@);
        text::lemma_fill_hole(s, b, 22, "resource_ty"@);
        reveal_strlit("> = blobs.iter()");
        assert(s.subrange(35, 51) =~= "> = blobs.iter()"@);
        text::lemma_fill_run(s, b, 35, "> = blobs.iter()"@);
        let rest = text::fill_from(s, b, 51);
        let part = "let resources: Vec<"@ + resource_ty + "> = blobs.iter()"@;
        assert(("let resources: Vec<"@ + (resource_ty + ("> = blobs.iter()"@ + rest))) =~= part + rest);
        words::lemma_piece_between(before, part, rest);
    }
    assert(words::has_piece(text::fill(t::AGG_DECODE_RASTER@, b), ".map(|b| "@ + decode_call + ")"@)) by {
        let before = text::lemma_fill_reaches(s, b, 55);
        reveal_strlit("    ");
        assert(s.subrange(55, 59) =~= "    "@);
        text::lemma_fill_run(s, b, 55, "    "@);
        reveal_strlit(".map(|b| ");
        assert(s.subrange(59, 68) =~= ".map(|b| "@);
        text::lemma_fill_run(s, b, 59, ".map(|b| "@);
        reveal_strlit("decode_call");
        assert(s.subrange(69, 80) =~= "decode_call"@);
        text::lemma_fill_hole(s, b, 68, "decode_call"@);
        reveal_strlit(")");
        assert(s.subrange(81, 82) =~= ")"@);
        text::lemma_fill_run(s, b, 81, ")"@);
        let rest = text::fill_from(s, b, 82);
        let part = ".map(|b| "@ + decode_call + ")"@;
        assert((".map(|b| "@ + (decode_call + (")"@ + rest))) =~= part + rest);
        assert(before + ("    "@ + (part + rest)) =~= (before + "    "@) + (part + rest));
        words::lemma_piece_between(before + "    "@, part, rest);
    }
    assert(words::has_piece(
        text::fill(t::AGG_DECODE_RASTER@, b),
        "let refs: Vec<&"@ + resource_ty + "> = resources.iter().collect();"@,
    )) by {
        let before = text::lemma_fill_reaches(s, b, 127);
        reveal_strlit("let refs: Vec<&");
        assert(s.subrange(127, 142) =~= "let refs: Vec<&"@);
        text::lemma_fill_run(s, b, 127, "let refs: Vec<&"@);
        reveal_strlit("resource_ty");
        assert(s.subrange(143, 154) =~= "resource_ty"@);
        text::lemma_fill_hole(s, b, 142, "resource_ty"@);
        reveal_strlit("> = resources.iter().collect()");
        assert(s.subrange(155, 185) =~= "> = resources.iter().collect()"@);
        text::lemma_fill_run(s, b, 155, "> = resources.iter().collect()"@);
        reveal_strlit(";");
        assert(s.subrange(185, 186) =~= ";"@);
        text::lemma_fill_run(s, b, 185, ";"@);
        let rest = text::fill_from(s, b, 186);
        let part = "let refs: Vec<&"@ + resource_ty + "> = resources.iter().collect();"@;
        reveal_strlit("> = resources.iter().collect();");
        assert(("let refs: Vec<&"@ + (resource_ty + ("> = resources.iter().collect()"@ + (";"@ + rest))))
            =~= part + rest);
        words::lemma_piece_between(before, part, rest);
    }
}

proof fn lemma_agg_extras_take(i: Seq<char>)
    ensures
        words::has_piece(
            text::fill(t::AGG_EXTRAS_TAKE@, seq![("i"@, i)]),
            "let extras = extras.unwrap_or_default();"@,
        ),
{
    let s = t::AGG_EXTRAS_TAKE@;
    reveal_strlit("{i}let extras = extras.unwrap_or_default();\n");
    reveal_with_fuel(text::plain_to, 31);
    let b = seq![("i"@, i)];
    lemma_holes_i(i);
    assert(words::has_piece(
        text::fill(t::AGG_EXTRAS_TAKE@, b),
        "let extras = extras.unwrap_or_default();"@,
    )) by {
        let before = text::lemma_fill_reaches(s, b, 3);
        reveal_strlit("let extras = extras.unwrap_or_");
        assert(s.subrange(3, 33) =~= "let extras = extras.unwrap_or_"@);
        text::lemma_fill_run(s, b, 3, "let extras = extras.unwrap_or_"@);
        reveal_strlit("default();");
        assert(s.subrange(33, 43) =~= "default();"@);
        text::lemma_fill_run(s, b, 33, "default();"@);
        let rest = text::fill_from(s, b, 43);
        let part = "let extras = extras.unwrap_or_default();"@;
        reveal_strlit("let extras = extras.unwrap_or_default();");
        assert(("let extras = extras.unwrap_or_"@ + ("default();"@ + rest)) =~= part + rest);
        words::lemma_piece_between(before, part, rest);
    }
}

proof fn lemma_agg_ret_geom(
    i: Seq<char>,
    module: Seq<char>,
    func: Seq<char>,
    call_args: Seq<char>,
    sql_name: Seq<char>,
)
    ensures
        words::has_piece(
            text::fill(
                t::AGG_RET_GEOM@,
                seq![("i"@, i), ("module"@, module), ("func"@, func), ("call_args"@, call_args), ("sql_name"@, sql_name)],
            ),
            "let r = "@ + module + "::"@ + func + "("@ + call_args + ")"@,
        ),
{
    let s = t::AGG_RET_GEOM@;
    reveal_strlit(r#"{i}let r = {module}::{func}({call_args})
{i}    .map_err(|e| types::Duckerror::Invalidargument(
{i}        format!("{sql_name}: {{}}", postgis_err_string(e))))?;
{i}Ok("#);
    reveal_with_fuel(text::plain_to, 31);
    let b = seq![("i"@, i), ("module"@, module), ("func"@, func), ("call_args"@, call_args), ("sql_name"@, sql_name)];
    lemma_holes_i_module_func_call_args_sql_name(i, module, func, call_args, sql_name);
    assert(words::has_piece(
        text::fill(t::AGG_RET_GEOM@, b),
        "let r = "@ + module + "::"@ + func + "("@ + call_args + ")"@,
    )) by {
        let before = text::lemma_fill_reaches(s, b, 3);
        reveal_strlit("let r = ");
        assert(s.subrange(3, 11) =~= "let r = "@);
        text::lemma_fill_run(s, b, 3, "let r = "@);
        reveal_strlit("module");
        assert(s.subrange(12, 18) =~= "module"@);
        text::lemma_fill_hole(s, b, 11, "module"@);
        reveal_strlit("::");
        assert(s.subrange(19, 21) =~= "::"@);
        text::lemma_fill_run(s, b, 19, "::"@);
        reveal_strlit("func");
        assert(s.subrange(22, 26) =~= "func"@);
        text::lemma_fill_hole(s, b, 21, "func"@);
        reveal_strlit("(");
        assert(s.subrange(27, 28) =~= "("@);
        text::lemma_fill_run(s, b, 27, "("@);
        reveal_strlit("call_args");
        assert(s.subrange(29, 38) =~= "call_args"@);
        text::lemma_fill_hole(s, b, 28, "call_args"@);
        reveal_strlit(")");
        assert(s.subrange(39, 40) =~= ")"@);
        text::lemma_fill_run(s, b, 39, ")"@);
        let rest = text::fill_from(s, b, 40);
        let part = "let r = "@ + module + "::"@ + func + "("@ + call_args + ")"@;
        assert(("let r = "@ + (module + ("::"@ + (func + ("("@ + (call_args + (")"@ + rest)))))))
            =~= part + rest);
        words::lemma_piece_between(before, part, rest);
    }
}

proof fn lemma_agg_ret_raster(
    i: Seq<char>,
    module: Seq<char>,
    func: Seq<char>,
    call_args: Seq<char>,
    sql_name: Seq<char>,
)
    ensures
        words::has_piece(
            text::fill(
                t::AGG_RET_RASTER@,
                seq![("i"@, i), ("module"@, module), ("func"@, func), ("call_args"@, call_args), ("sql_name"@, sql_name)],
            ),
            "let r = "@ + module + "::"@ + func + "("@ + call_args + ")"@,
        ),
{
    let s = t::AGG_RET_RASTER@;
    reveal_strlit(r#"{i}let r = {module}::{func}({call_args})
{i}    .map_err(|e| types::Duckerror::Invalidargument(
{i}        format!("{sql_name}: {{}}", shim_err_string(e))))?;
{i}Ok("#);
    reveal_with_fuel(text::plain_to, 31);
    let b = seq![("i"@, i), ("module"@, module), ("func"@, func), ("call_args"@, call_args), ("sql_name"@, sql_name)];
    lemma_holes_i_module_func_call_args_sql_name(i, module, func, call_args, sql_name);
    assert(words::has_piece(
        text::fill(t::AGG_RET_RASTER@, b),
        "let r = "@ + module + "::"@ + func + "("@ + call_args + ")"@,
    )) by {
        let before = text::lemma_fill_reaches(s, b, 3);
        reveal_strlit("let r = ");
        assert(s.subrange(3, 11) =~= "let r = "@);
        text::lemma_fill_run(s, b, 3, "let r = "@);
        reveal_strlit("module");
        assert(s.subrange(12, 18) =~= "module"@);
        text::lemma_fill_hole(s, b, 11, "module"@);
        reveal_strlit("::");
        assert(s.subrange(19, 21) =~= "::"@);
        text::lemma_fill_run(s, b, 19, "::"@);
        reveal_strlit("func");
        assert(s.subrange(22, 26) =~= "func"@);
        text::lemma_fill_hole(s, b, 21, "func"@);
        reveal_strlit("(");
        assert(s.subrange(27, 28) =~= "("@);
        text::lemma_fill_run(s, b, 27, "("@);
        reveal_strlit("call_args");
        assert(s.subrange(29, 38) =~= "call_args"@);
        text::lemma_fill_hole(s, b, 28, "call_args"@);
        reveal_strlit(")");
        assert(s.subrange(39, 40) =~= ")"@);
        text::lemma_fill_run(s, b, 39, ")"@);
        let rest = text::fill_from(s, b, 40);
        let part = "let r = "@ + module + "::"@ + func + "("@ + call_args + ")"@;
        assert(("let r = "@ + (module + ("::"@ + (func + ("("@ + (call_args + (")"@ + rest)))))))
            =~= part + rest);
        words::lemma_piece_between(before, part, rest);
    }
}

proof fn lemma_agg_ret_first_geom(
    i: Seq<char>,
    module: Seq<char>,
    func: Seq<char>,
    call_args: Seq<char>,
    sql_name: Seq<char>,
)
    ensures
        words::has_piece(
            text::fill(
                t::AGG_RET_FIRST_GEOM@,
                seq![("i"@, i), ("module"@, module), ("func"@, func), ("call_args"@, call_args), ("sql_name"@, sql_name)],
            ),
            module + "::"@ + func + "("@ + call_args + ")"@,
        ),
        words::has_piece(
            text::fill(
                t::AGG_RET_FIRST_GEOM@,
                seq![("i"@, i), ("module"@, module), ("func"@, func), ("call_args"@, call_args), ("sql_name"@, sql_name)],
            ),
            "Some(g) => Ok("@,
        ),
{
    let s = t::AGG_RET_FIRST_GEOM@;
    reveal_strlit(r#"{i}let r: Vec<Geometry> = {module}::{func}({call_args})
{i}    .map_err(|e| types::Duckerror::Invalidargument(
{i}        format!("{sql_name}: {{}}", postgis_err_string(e))))?;
{i}match r.first() {{
{i}    Some(g) => Ok("#);
    reveal_with_fuel(text::plain_to, 31);
    let b = seq![("i"@, i), ("module"@, module), ("func"@, func), ("call_args"@, call_args), ("sql_name"@, sql_name)];
    lemma_holes_i_module_func_call_args_sql_name(i, module, func, call_args, sql_name);
    assert(words::has_piece(
        text::fill(t::AGG_RET_FIRST_GEOM@, b),
        module + "::"@ + func + "("@ + call_args + ")"@,
    )) by {
        let before = text::lemma_fill_reaches(s, b, 3);
        reveal_strlit("let r: Vec<Geometry> = ");
        assert(s.subrange(3, 26) =~= "let r: Vec<Geometry> = "@);
        text::lemma_fill_run(s, b, 3, "let r: Vec<Geometry> = "@);
        reveal_strlit("module");
        assert(s.subrange(27, 33) =~= "module"@);
        text::lemma_fill_hole(s, b, 26, "module"@);
        reveal_strlit("::");
        assert(s.subrange(34, 36) =~= "::"@);
        text::lemma_fill_run(s, b, 34, "::"@);
        reveal_strlit("func");
        assert(s.subrange(37, 41) =~= "func"@);
        text::lemma_fill_hole(s, b, 36, "func"@);
        reveal_strlit("(");
        assert(s.subrange(42, 43) =~= "("@);
        text::lemma_fill_run(s, b, 42, "("@);
        reveal_strlit("call_args");
        assert(s.subrange(44, 53) =~= "call_args"@);
        text::lemma_fill_hole(s, b, 43, "call_args"@);
        reveal_strlit(")");
        assert(s.subrange(54, 55) =~= ")"@);
        text::lemma_fill_run(s, b, 54, ")"@);
        let rest = text::fill_from(s, b, 55);
        let part = module + "::"@ + func + "("@ + call_args + ")"@;
        assert((module + ("::"@ + (func + ("("@ + (call_args + (")"@ + rest)))))) =~= part + rest);
        assert(before + ("let r: Vec<Geometry> = "@ + (part + rest))
            =~= (before + "let r: Vec<Geometry> = "@) + (part + rest));
        words::lemma_piece_between(before + "let r: Vec<Geometry> = "@, part, rest);
    }
    assert(words::has_piece(text::fill(t::AGG_RET_FIRST_GEOM@, b), "Some(g) => Ok("@)) by {
        let before = text::lemma_fill_reaches(s, b, 202);
        reveal_strlit("    ");
        assert(s.subrange(202, 206) =~= "    "@);
        text::lemma_fill_run(s, b, 202, "    "@);
        reveal_strlit("Some(g) => Ok(");
        assert(s.subrange(206, 220) =~= "Some(g) => Ok("@);
        text::lemma_fill_run(s, b, 206, "Some(g) => Ok("@);
        let rest = text::fill_from(s, b, 220);
        let part = "Some(g) => Ok("@;
        assert(before + ("    "@ + (part + rest)) =~= (before + "    "@) + (part + rest));
        words::lemma_piece_between(before + "    "@, part, rest);
    }
}

proof fn lemma_agg_ret_first_geom_end(
    i: Seq<char>,
    module: Seq<char>,
    func: Seq<char>,
    call_args: Seq<char>,
    sql_name: Seq<char>,
)
    ensures
        words::has_piece(
            text::fill(
                t::AGG_RET_FIRST_GEOM_END@,
                seq![("i"@, i), ("module"@, module), ("func"@, func), ("call_args"@, call_args), ("sql_name"@, sql_name)],
            ),
            "None => Ok(types::Duckvalue::Null)"@,
        ),
{
    let s = t::AGG_RET_FIRST_GEOM_END@;
    reveal_strlit(r#"),
{i}    None => Ok(types::Duckvalue::Null),
{i}}}"#);
    reveal_with_fuel(text::plain_to, 31);
    let b = seq![("i"@, i), ("module"@, module), ("func"@, func), ("call_args"@, call_args), ("sql_name"@, sql_name)];
    lemma_holes_i_module_func_call_args_sql_name(i, module, func, call_args, sql_name);
    assert(words::has_piece(
        text::fill(t::AGG_RET_FIRST_GEOM_END@, b),
        "None => Ok(types::Duckvalue::Null)"@,
    )) by {
        let before = text::lemma_fill_reaches(s, b, 6);
        reveal_strlit("    ");
        assert(s.subrange(6, 10) =~= "    "@);
        text::lemma_fill_run(s, b, 6, "    "@);
        reveal_strlit("None => Ok(types::Duckvalue::N");
        assert(s.subrange(10, 40) =~= "None => Ok(types::Duckvalue::N"@);
        text::lemma_fill_run(s, b, 10, "None => Ok(types::Duckvalue::N"@);
        reveal_strlit("ull)");
        assert(s.subrange(40, 44) =~= "ull)"@);
        text::lemma_fill_run(s, b, 40, "ull)"@);
        let rest = text::fill_from(s, b, 44);
        let part = "None => Ok(types::Duckvalue::Null)"@;
        reveal_strlit("None => Ok(types::Duckvalue::Null)");
        assert(("None => Ok(types::Duckvalue::N"@ + ("ull)"@ + rest)) =~= part + rest);
        assert(before + ("    "@ + (part + rest)) =~= (before + "    "@) + (part + rest));
        words::lemma_piece_between(before + "    "@, part, rest);
    }
}

proof fn lemma_agg_ret_first_option(
    i: Seq<char>,
    module: Seq<char>,
    func: Seq<char>,
    call_args: Seq<char>,
    sql_name: Seq<char>,
)
    ensures
        words::has_piece(
            text::fill(
                t::AGG_RET_FIRST_OPTION@,
                seq![("i"@, i), ("module"@, module), ("func"@, func), ("call_args"@, call_args), ("sql_name"@, sql_name)],
            ),
            module + "::"@ + func + "("@ + call_args + ")"@,
        ),
        words::has_piece(
            text::fill(
                t::AGG_RET_FIRST_OPTION@,
                seq![("i"@, i), ("module"@, module), ("func"@, func), ("call_args"@, call_args), ("sql_name"@, sql_name)],
            ),
            "Some(Some(v)) => Ok("@,
        ),
{
    let s = t::AGG_RET_FIRST_OPTION@;
    reveal_strlit(r#"{i}let r: Vec<Option<u32>> = {module}::{func}({call_args})
{i}    .map_err(|e| types::Duckerror::Invalidargument(
{i}        format!("{sql_name}: {{}}", postgis_err_string(e))))?;
{i}match r.first() {{
{i}    Some(Some(v)) => Ok("#);
    reveal_with_fuel(text::plain_to, 31);
    let b = seq![("i"@, i), ("module"@, module), ("func"@, func), ("call_args"@, call_args), ("sql_name"@, sql_name)];
    lemma_holes_i_module_func_call_args_sql_name(i, module, func, call_args, sql_name);
    assert(words::has_piece(
        text::fill(t::AGG_RET_FIRST_OPTION@, b),
        module + "::"@ + func + "("@ + call_args + ")"@,
    )) by {
        let before = text::lemma_fill_reaches(s, b, 3);
        reveal_strlit("let r: Vec<Option<u32>> = ");
        assert(s.subrange(3, 29) =~= "let r: Vec<Option<u32>> = "@);
        text::lemma_fill_run(s, b, 3, "let r: Vec<Option<u32>> = "@);
        reveal_strlit("module");
        assert(s.subrange(30, 36) =~= "module"@);
        text::lemma_fill_hole(s, b, 29, "module"@);
        reveal_strlit("::");
        assert(s.subrange(37, 39) =~= "::"@);
        text::lemma_fill_run(s, b, 37, "::"@);
        reveal_strlit("func");
        assert(s.subrange(40, 44) =~= "func"@);
        text::lemma_fill_hole(s, b, 39, "func"@);
        reveal_strlit("(");
        assert(s.subrange(45, 46) =~= "("@);
        text::lemma_fill_run(s, b, 45, "("@);
        reveal_strlit("call_args");
        assert(s.subrange(47, 56) =~= "call_args"@);
        text::lemma_fill_hole(s, b, 46, "call_args"@);
        reveal_strlit(")");
        assert(s.subrange(57, 58) =~= ")"@);
        text::lemma_fill_run(s, b, 57, ")"@);
        let rest = text::fill_from(s, b, 58);
        let part = module + "::"@ + func + "("@ + call_args + ")"@;
        assert((module + ("::"@ + (func + ("("@ + (call_args + (")"@ + rest)))))) =~= part + rest);
        assert(before + ("let r: Vec<Option<u32>> = "@ + (part + rest))
            =~= (before + "let r: Vec<Option<u32>> = "@) + (part + rest));
        words::lemma_piece_between(before + "let r: Vec<Option<u32>> = "@, part, rest);
    }
    assert(words::has_piece(text::fill(t::AGG_RET_FIRST_OPTION@, b), "Some(Some(v)) => Ok("@)) by {
        let before = text::lemma_fill_reaches(s, b, 205);
        reveal_strlit("    ");
        assert(s.subrange(205, 209) =~= "    "@);
        text::lemma_fill_run(s, b, 205, "    "@);
        reveal_strlit("Some(Some(v)) => Ok(");
        assert(s.subrange(209, 229) =~= "Some(Some(v)) => Ok("@);
        text::lemma_fill_run(s, b, 209, "Some(Some(v)) => Ok("@);
        let rest = text::fill_from(s, b, 229);
        let part = "Some(Some(v)) => Ok("@;
        assert(before + ("    "@ + (part + rest)) =~= (before + "    "@) + (part + rest));
        words::lemma_piece_between(before + "    "@, part, rest);
    }
}

proof fn lemma_agg_ret_first_option_end(
    i: Seq<char>,
    module: Seq<char>,
    func: Seq<char>,
    call_args: Seq<char>,
    sql_name: Seq<char>,
)
    ensures
        words::has_piece(
            text::fill(
                t::AGG_RET_FIRST_OPTION_END@,
                seq![("i"@, i), ("module"@, module), ("func"@, func), ("call_args"@, call_args), ("sql_name"@, sql_name)],
            ),
            "Some(None) | None => Ok(types::Duckvalue::Null)"@,
        ),
{
    let s = t::AGG_RET_FIRST_OPTION_END@;
    reveal_strlit(r#"),
{i}    Some(None) | None => Ok(types::Duckvalue::Null),
{i}}}"#);
    reveal_with_fuel(text::plain_to, 31);
    let b = seq![("i"@, i), ("module"@, module), ("func"@, func), ("call_args"@, call_args), ("sql_name"@, sql_name)];
    lemma_holes_i_module_func_call_args_sql_name(i, module, func, call_args, sql_name);
    assert(words::has_piece(
        text::fill(t::AGG_RET_FIRST_OPTION_END@, b),
        "Some(None) | None => Ok(types::Duckvalue::Null)"@,
    )) by {
        let before = text::lemma_fill_reaches(s, b, 6);
        reveal_strlit("    ");
        assert(s.subrange(6, 10) =~= "    "@);
        text::lemma_fill_run(s, b, 6, "    "@);
        reveal_strlit("Some(None) | None => Ok(types:");
        assert(s.subrange(10, 40) =~= "Some(None) | None => Ok(types:"@);
        text::lemma_fill_run(s, b, 10, "Some(None) | None => Ok(types:"@);
        reveal_strlit(":Duckvalue::Null)");
        assert(s.subrange(40, 57) =~= ":Duckvalue::Null)"@);
        text::lemma_fill_run(s, b, 40, ":Duckvalue::Null)"@);
        let rest = text::fill_from(s, b, 57);
        let part = "Some(None) | None => Ok(types::Duckvalue::Null)"@;
        reveal_strlit("Some(None) | None => Ok(types::Duckvalue::Null)");
        assert(("Some(None) | None => Ok(types:"@ + (":Duckvalue::Null)"@ + rest)) =~= part + rest);
        assert(before + ("    "@ + (part + rest)) =~= (before + "    "@) + (part + rest));
        words::lemma_piece_between(before + "    "@, part, rest);
    }
}

proof fn lemma_agg_ret_bbox3d(
    i: Seq<char>,
    module: Seq<char>,
    func: Seq<char>,
    call_args: Seq<char>,
    sql_name: Seq<char>,
)
    ensures
        words::has_piece(
            text::fill(
                t::AGG_RET_BBOX3D@,
                seq![("i"@, i), ("module"@, module), ("func"@, func), ("call_args"@, call_args), ("sql_name"@, sql_name)],
            ),
            "let __bb = "@ + module + "::"@ + func + "("@ + call_args + ");"@,
        ),
{
    let s = t::AGG_RET_BBOX3D@;
    reveal_strlit(r#"{i}let __bb = {module}::{func}({call_args});
{i}let mut __wkb: Vec<u8> = Vec::with_capacity(57);
{i}// ISO-WKB header: little-endian, type 1002 (LINESTRING Z), 2 points.
{i}__wkb.push(0x01u8);
{i}__wkb.extend_from_slice(&1002u32.to_le_bytes());
{i}__wkb.extend_from_slice(&2u32.to_le_bytes());
{i}__wkb.extend_from_slice(&__bb.min_x.to_le_bytes());
{i}__wkb.extend_from_slice(&__bb.min_y.to_le_bytes());
{i}__wkb.extend_from_slice(&__bb.min_z.to_le_bytes());
{i}__wkb.extend_from_slice(&__bb.max_x.to_le_bytes());
{i}__wkb.extend_from_slice(&__bb.max_y.to_le_bytes());
{i}__wkb.extend_from_slice(&__bb.max_z.to_le_bytes());
{i}Ok("#);
    reveal_with_fuel(text::plain_to, 31);
    let b = seq![("i"@, i), ("module"@, module), ("func"@, func), ("call_args"@, call_args), ("sql_name"@, sql_name)];
    lemma_holes_i_module_func_call_args_sql_name(i, module, func, call_args, sql_name);
    assert(words::has_piece(
        text::fill(t::AGG_RET_BBOX3D@, b),
        "let __bb = "@ + module + "::"@ + func + "("@ + call_args + ");"@,
    )) by {
        let before = text::lemma_fill_reaches(s, b, 3);
        reveal_strlit("let __bb = ");
        assert(s.subrange(3, 14) =~= "let __bb = "@);
        text::lemma_fill_run(s, b, 3, "let __bb = "@);
        reveal_strlit("module");
        assert(s.subrange(15, 21) =~= "module"@);
        text::lemma_fill_hole(s, b, 14, "module"@);
        reveal_strlit("::");
        assert(s.subrange(22, 24) =~= "::"@);
        text::lemma_fill_run(s, b, 22, "::"@);
        reveal_strlit("func");
        assert(s.subrange(25, 29) =~= "func"@);
        text::lemma_fill_hole(s, b, 24, "func"@);
        reveal_strlit("(");
        assert(s.subrange(30, 31) =~= "("@);
        text::lemma_fill_run(s, b, 30, "("@);
        reveal_strlit("call_args");
        assert(s.subrange(32, 41) =~= "call_args"@);
        text::lemma_fill_hole(s, b, 31, "call_args"@);
        reveal_strlit(");");
        assert(s.subrange(42, 44) =~= ");"@);
        text::lemma_fill_run(s, b, 42, ");"@);
        let rest = text::fill_from(s, b, 44);
        let part = "let __bb = "@ + module + "::"@ + func + "("@ + call_args + ");"@;
        assert(("let __bb = "@ + (module + ("::"@ + (func + ("("@ + (call_args + (");"@ + rest)))))))
            =~= part + rest);
        words::lemma_piece_between(before, part, rest);
    }
}

proof fn lemma_agg_ret_unwired(
    i: Seq<char>,
    module: Seq<char>,
    func: Seq<char>,
    call_args: Seq<char>,
    sql_name: Seq<char>,
)
    ensures
        words::has_piece(
            text::fill(
                t::AGG_RET_UNWIRED@,
                seq![("i"@, i), ("module"@, module), ("func"@, func), ("call_args"@, call_args), ("sql_name"@, sql_name)],
            ),
            "aggregate return shape not wired"@,
        ),
{
    let s = t::AGG_RET_UNWIRED@;
    reveal_strlit("{i}Err(types::Duckerror::Unsupported(format!(\"{sql_name}: aggregate return shape not wired\")))");
    reveal_with_fuel(text::plain_to, 31);
    let b = seq![("i"@, i), ("module"@, module), ("func"@, func), ("call_args"@, call_args), ("sql_name"@, sql_name)];
    lemma_holes_i_module_func_call_args_sql_name(i, module, func, call_args, sql_name);
    assert(words::has_piece(text::fill(t::AGG_RET_UNWIRED@, b), "aggregate return shape not wired"@)) by {
        let before = text::lemma_fill_reaches(s, b, 56);
        reveal_strlit(": ");
        assert(s.subrange(56, 58) =~= ": "@);
        text::lemma_fill_run(s, b, 56, ": "@);
        reveal_strlit("aggregate return shape not wir");
        assert(s.subrange(58, 88) =~= "aggregate return shape not wir"@);
        text::lemma_fill_run(s, b, 58, "aggregate return shape not wir"@);
        reveal_strlit("ed");
        assert(s.subrange(88, 90) =~= "ed"@);
        text::lemma_fill_run(s, b, 88, "ed"@);
        let rest = text::fill_from(s, b, 90);
        let part = "aggregate return shape not wired"@;
        reveal_strlit("aggregate return shape not wired");
        assert(("aggregate return shape not wir"@ + ("ed"@ + rest)) =~= part + rest);
        assert(before + (": "@ + (part + rest)) =~= (before + ": "@) + (part + rest));
        words::lemma_piece_between(before + ": "@, part, rest);
    }
}

proof fn lemma_agg_record_rows(i: Seq<char>, in_snake: Seq<char>, sql_name: Seq<char>)
    ensures
        words::has_piece(
            text::fill(
                t::AGG_RECORD_ROWS@,
                seq![("i"@, i), ("in_snake"@, in_snake), ("sql_name"@, sql_name)],
            ),
            "if matches!(row[0], types::Duckvalue::Null) "@,
        ),
        words::has_piece(
            text::fill(
                t::AGG_RECORD_ROWS@,
                seq![("i"@, i), ("in_snake"@, in_snake), ("sql_name"@, sql_name)],
            ),
            "upstream_vec.push(arg_witvalue_"@ + in_snake + "(row, 0, \""@ + sql_name + "\")?);"@,
        ),
{
    let s = t::AGG_RECORD_ROWS@;
    reveal_strlit(r#"{i}let mut upstream_vec = Vec::with_capacity(rows.len());
{i}for row in &rows {{
{i}    if row.is_empty() {{ continue; }}
{i}    if matches!(row[0], types::Duckvalue::Null) {{ continue; }}
{i}    upstream_vec.push(arg_witvalue_{in_snake}(row, 0, "{sql_name}")?);
{i}}}
"#);
    reveal_with_fuel(text::plain_to, 31);
    let b = seq![("i"@, i), ("in_snake"@, in_snake), ("sql_name"@, sql_name)];
    lemma_holes_i_in_snake_sql_name(i, in_snake, sql_name);
    assert(words::has_piece(
        text::fill(t::AGG_RECORD_ROWS@, b),
        "if matches!(row[0], types::Duckvalue::Null) "@,
    )) by {
        let before = text::lemma_fill_reaches(s, b, 125);
        reveal_strlit("    ");
        assert(s.subrange(125, 129) =~= "    "@);
        text::lemma_fill_run(s, b, 125, "    "@);
        reveal_strlit("if matches!(row[0], types::Duc");
        assert(s.subrange(129, 159) =~= "if matches!(row[0], types::Duc"@);
        text::lemma_fill_run(s, b, 129, "if matches!(row[0], types::Duc"@);
        reveal_strlit("kvalue::Null) ");
        assert(s.subrange(159, 173) =~= "kvalue::Null) "@);
        text::lemma_fill_run(s, b, 159, "kvalue::Null) "@);
        let rest = text::fill_from(s, b, 173);
        let part = "if matches!(row[0], types::Duckvalue::Null) "@;
        reveal_strlit("if matches!(row[0], types::Duckvalue::Null) ");
        assert(("if matches!(row[0], types::Duc"@ + ("kvalue::Null) "@ + rest)) =~= part + rest);
        assert(before + ("    "@ + (part + rest)) =~= (before + "    "@) + (part + rest));
        words::lemma_piece_between(before + "    "@, part, rest);
    }
    assert(words::has_piece(
        text::fill(t::AGG_RECORD_ROWS@, b),
        "upstream_vec.push(arg_witvalue_"@ + in_snake + "(row, 0, \""@ + sql_name + "\")?);"@,
    )) by {
        let before = text::lemma_fill_reaches(s, b, 192);
        reveal_strlit("    ");
        assert(s.subrange(192, 196) =~= "    "@);
        text::lemma_fill_run(s, b, 192, "    "@);
        reveal_strlit("upstream_vec.push(arg_witvalue");
        assert(s.subrange(196, 226) =~= "upstream_vec.push(arg_witvalue"@);
        text::lemma_fill_run(s, b, 196, "upstream_vec.push(arg_witvalue"@);
        reveal_strlit("_");
        assert(s.subrange(226, 227) =~= "_"@);
        text::lemma_fill_run(s, b, 226, "_"@);
        reveal_strlit("in_snake");
        assert(s.subrange(228, 236) =~= "in_snake"@);
        text::lemma_fill_hole(s, b, 227, "in_snake"@);
        reveal_strlit("(row, 0, \"");
        assert(s.subrange(237, 247) =~= "(row, 0, \""@);
        text::lemma_fill_run(s, b, 237, "(row, 0, \""@);
        reveal_strlit("sql_name");
        assert(s.subrange(248, 256) =~= "sql_name"@);
        text::lemma_fill_hole(s, b, 247, "sql_name"@);
        reveal_strlit("\")?);");
        assert(s.subrange(257, 262) =~= "\")?);"@);
        text::lemma_fill_run(s, b, 257, "\")?);"@);
        let rest = text::fill_from(s, b, 262);
        let part = "upstream_vec.push(arg_witvalue_"@ + in_snake + "(row, 0, \""@ + sql_name + "\")?);"@;
        reveal_strlit("upstream_vec.push(arg_witvalue_");
        assert((
            "upstream_vec.push(arg_witvalue"@
                + ("_"@ + (in_snake + ("(row, 0, \""@ + (sql_name + ("\")?);"@ + rest)))))
        )
            =~= part + rest);
        assert(before + ("    "@ + (part + rest)) =~= (before + "    "@) + (part + rest));
        words::lemma_piece_between(before + "    "@, part, rest);
    }
}

proof fn lemma_agg_rows(
    i: Seq<char>,
    in_snake: Seq<char>,
    sql_name: Seq<char>,
    extras_latch: Seq<char>,
)
    ensures
        words::has_piece(
            text::fill(
                t::AGG_ROWS@,
                seq![("i"@, i), ("in_snake"@, in_snake), ("sql_name"@, sql_name), ("extras_latch"@, extras_latch)],
            ),
            "if matches!(row[0], types::Duckvalue::Null) "@,
        ),
        words::has_piece(
            text::fill(
                t::AGG_ROWS@,
                seq![("i"@, i), ("in_snake"@, in_snake), ("sql_name"@, sql_name), ("extras_latch"@, extras_latch)],
            ),
            "upstream_vec.push(arg_witvalue_"@ + in_snake + "(row, 0, \""@ + sql_name + "\")?);"@,
        ),
        words::has_piece(
            text::fill(
                t::AGG_ROWS@,
                seq![("i"@, i), ("in_snake"@, in_snake), ("sql_name"@, sql_name), ("extras_latch"@, extras_latch)],
            ),
            extras_latch,
        ),
{
    let s = t::AGG_ROWS@;
    reveal_strlit(r#"{i}let mut upstream_vec = Vec::with_capacity(rows.len());
{i}for row in &rows {{
{i}    if row.is_empty() {{ continue; }}
{i}    if matches!(row[0], types::Duckvalue::Null) {{ continue; }}
{i}    upstream_vec.push(arg_witvalue_{in_snake}(row, 0, "{sql_name}")?);
{extras_latch}{i}}}
"#);
    reveal_with_fuel(text::plain_to, 31);
    let b = seq![("i"@, i), ("in_snake"@, in_snake), ("sql_name"@, sql_name), ("extras_latch"@, extras_latch)];
    lemma_holes_i_in_snake_sql_name_extras_latch(i, in_snake, sql_name, extras_latch);
    assert(words::has_piece(text::fill(t::AGG_ROWS@, b), "if matches!(row[0], types::Duckvalue::Null) "@)) by {
        let before = text::lemma_fill_reaches(s, b, 125);
        reveal_strlit("    ");
        assert(s.subrange(125, 129) =~= "    "@);
        text::lemma_fill_run(s, b, 125, "    "@);
        reveal_strlit("if matches!(row[0], types::Duc");
        assert(s.subrange(129, 159) =~= "if matches!(row[0], types::Duc"@);
        text::lemma_fill_run(s, b, 129, "if matches!(row[0], types::Duc"@);
        reveal_strlit("kvalue::Null) ");
        assert(s.subrange(159, 173) =~= "kvalue::Null) "@);
        text::lemma_fill_run(s, b, 159, "kvalue::Null) "@);
        let rest = text::fill_from(s, b, 173);
        let part = "if matches!(row[0], types::Duckvalue::Null) "@;
        reveal_strlit("if matches!(row[0], types::Duckvalue::Null) ");
        assert(("if matches!(row[0], types::Duc"@ + ("kvalue::Null) "@ + rest)) =~= part + rest);
        assert(before + ("    "@ + (part + rest)) =~= (before + "    "@) + (part + rest));
        words::lemma_piece_between(before + "    "@, part, rest);
    }
    assert(words::has_piece(
        text::fill(t::AGG_ROWS@, b),
        "upstream_vec.push(arg_witvalue_"@ + in_snake + "(row, 0, \""@ + sql_name + "\")?);"@,
    )) by {
        let before = text::lemma_fill_reaches(s, b, 192);
        reveal_strlit("    ");
        assert(s.subrange(192, 196) =~= "    "@);
        text::lemma_fill_run(s, b, 192, "    "@);
        reveal_strlit("upstream_vec.push(arg_witvalue");
        assert(s.subrange(196, 226) =~= "upstream_vec.push(arg_witvalue"@);
        text::lemma_fill_run(s, b, 196, "upstream_vec.push(arg_witvalue"@);
        reveal_strlit("_");
        assert(s.subrange(226, 227) =~= "_"@);
        text::lemma_fill_run(s, b, 226, "_"@);
        reveal_strlit("in_snake");
        assert(s.subrange(228, 236) =~= "in_snake"@);
        text::lemma_fill_hole(s, b, 227, "in_snake"@);
        reveal_strlit("(row, 0, \"");
        assert(s.subrange(237, 247) =~= "(row, 0, \""@);
        text::lemma_fill_run(s, b, 237, "(row, 0, \""@);
        reveal_strlit("sql_name");
        assert(s.subrange(248, 256) =~= "sql_name"@);
        text::lemma_fill_hole(s, b, 247, "sql_name"@);
        reveal_strlit("\")?);");
        assert(s.subrange(257, 262) =~= "\")?);"@);
        text::lemma_fill_run(s, b, 257, "\")?);"@);
        let rest = text::fill_from(s, b, 262);
        let part = "upstream_vec.push(arg_witvalue_"@ + in_snake + "(row, 0, \""@ + sql_name + "\")?);"@;
        reveal_strlit("upstream_vec.push(arg_witvalue_");
        assert((
            "upstream_vec.push(arg_witvalue"@
                + ("_"@ + (in_snake + ("(row, 0, \""@ + (sql_name + ("\")?);"@ + rest)))))
        )
            =~= part + rest);
        assert(before + ("    "@ + (part + rest)) =~= (before + "    "@) + (part + rest));
        words::lemma_piece_between(before + "    "@, part, rest);
    }
    assert(words::has_piece(text::fill(t::AGG_ROWS@, b), extras_latch)) by {
        let before = text::lemma_fill_reaches(s, b, 257);
        reveal_strlit("\")?);\n");
        assert(s.subrange(257, 263) =~= "\")?);\n"@);
        text::lemma_fill_run(s, b, 257, "\")?);\n"@);
        reveal_strlit("extras_latch");
        assert(s.subrange(264, 276) =~= "extras_latch"@);
        text::lemma_fill_hole(s, b, 263, "extras_latch"@);
        let rest = text::fill_from(s, b, 277);
        let part = extras_latch;
        assert(before + ("\")?);\n"@ + (part + rest)) =~= (before + "\")?);\n"@) + (part + rest));
        words::lemma_piece_between(before + "\")?);\n"@, part, rest);
    }
}

proof fn lemma_agg_record_extras_unwired(i: Seq<char>, sql_name: Seq<char>)
    ensures
        words::has_piece(
            text::fill(t::AGG_RECORD_EXTRAS_UNWIRED@, seq![("i"@, i), ("sql_name"@, sql_name)]),
            "aggregate with extra args not yet wired"@,
        ),
{
    let s = t::AGG_RECORD_EXTRAS_UNWIRED@;
    reveal_strlit(r#"{i}return Err(types::Duckerror::Invalidargument(
{i}    format!("{sql_name}: AccKind::Record aggregate with extra args not yet wired")));
"#);
    reveal_with_fuel(text::plain_to, 31);
    let b = seq![("i"@, i), ("sql_name"@, sql_name)];
    lemma_holes_i_sql_name(i, sql_name);
    assert(words::has_piece(
        text::fill(t::AGG_RECORD_EXTRAS_UNWIRED@, b),
        "aggregate with extra args not yet wired"@,
    )) by {
        let before = text::lemma_fill_reaches(s, b, 75);
        reveal_strlit(": AccKind::Record ");
        assert(s.subrange(75, 93) =~= ": AccKind::Record "@);
        text::lemma_fill_run(s, b, 75, ": AccKind::Record "@);
        reveal_strlit("aggregate with extra args not ");
        assert(s.subrange(93, 123) =~= "aggregate with extra args not "@);
        text::lemma_fill_run(s, b, 93, "aggregate with extra args not "@);
        reveal_strlit("yet wired");
        assert(s.subrange(123, 132) =~= "yet wired"@);
        text::lemma_fill_run(s, b, 123, "yet wired"@);
        let rest = text::fill_from(s, b, 132);
        let part = "aggregate with extra args not yet wired"@;
        reveal_strlit("aggregate with extra args not yet wired");
        assert(("aggregate with extra args not "@ + ("yet wired"@ + rest)) =~= part + rest);
        assert(before + (": AccKind::Record "@ + (part + rest))
            =~= (before + ": AccKind::Record "@) + (part + rest));
        words::lemma_piece_between(before + ": AccKind::Record "@, part, rest);
    }
}

proof fn lemma_agg_record_call(
    i: Seq<char>,
    module: Seq<char>,
    func: Seq<char>,
    out_snake: Seq<char>,
)
    ensures
        words::has_piece(
            text::fill(
                t::AGG_RECORD_CALL@,
                seq![("i"@, i), ("module"@, module), ("func"@, func), ("out_snake"@, out_snake)],
            ),
            "let __r = "@ + module + "::"@ + func + "(&upstream_vec);"@,
        ),
        words::has_piece(
            text::fill(
                t::AGG_RECORD_CALL@,
                seq![("i"@, i), ("module"@, module), ("func"@, func), ("out_snake"@, out_snake)],
            ),
            "Some(__rec) => ret_to_witvalue_"@ + out_snake + "(__rec)"@,
        ),
        words::has_piece(
            text::fill(
                t::AGG_RECORD_CALL@,
                seq![("i"@, i), ("module"@, module), ("func"@, func), ("out_snake"@, out_snake)],
            ),
            "None => Ok(types::Duckvalue::Null)"@,
        ),
{
    let s = t::AGG_RECORD_CALL@;
    reveal_strlit(r#"{i}let __r = {module}::{func}(&upstream_vec);
{i}match __r {{
{i}    Some(__rec) => ret_to_witvalue_{out_snake}(__rec),
{i}    None => Ok(types::Duckvalue::Null),
{i}}}"#);
    reveal_with_fuel(text::plain_to, 31);
    let b = seq![("i"@, i), ("module"@, module), ("func"@, func), ("out_snake"@, out_snake)];
    lemma_holes_i_module_func_out_snake(i, module, func, out_snake);
    assert(words::has_piece(
        text::fill(t::AGG_RECORD_CALL@, b),
        "let __r = "@ + module + "::"@ + func + "(&upstream_vec);"@,
    )) by {
        let before = text::lemma_fill_reaches(s, b, 3);
        reveal_strlit("let __r = ");
        assert(s.subrange(3, 13) =~= "let __r = "@);
        text::lemma_fill_run(s, b, 3, "let __r = "@);
        reveal_strlit("module");
        assert(s.subrange(14, 20) =~= "module"@);
        text::lemma_fill_hole(s, b, 13, "module"@);
        reveal_strlit("::");
        assert(s.subrange(21, 23) =~= "::"@);
        text::lemma_fill_run(s, b, 21, "::"@);
        reveal_strlit("func");
        assert(s.subrange(24, 28) =~= "func"@);
        text::lemma_fill_hole(s, b, 23, "func"@);
        reveal_strlit("(&upstream_vec);");
        assert(s.subrange(29, 45) =~= "(&upstream_vec);"@);
        text::lemma_fill_run(s, b, 29, "(&upstream_vec);"@);
        let rest = text::fill_from(s, b, 45);
        let part = "let __r = "@ + module + "::"@ + func + "(&upstream_vec);"@;
        assert(("let __r = "@ + (module + ("::"@ + (func + ("(&upstream_vec);"@ + rest)))))
            =~= part + rest);
        words::lemma_piece_between(before, part, rest);
    }
    assert(words::has_piece(
        text::fill(t::AGG_RECORD_CALL@, b),
        "Some(__rec) => ret_to_witvalue_"@ + out_snake + "(__rec)"@,
    )) by {
        let before = text::lemma_fill_reaches(s, b, 65);
        reveal_strlit("    ");
        assert(s.subrange(65, 69) =~= "    "@);
        text::lemma_fill_run(s, b, 65, "    "@);
        reveal_strlit("Some(__rec) => ret_to_witvalue");
        assert(s.subrange(69, 99) =~= "Some(__rec) => ret_to_witvalue"@);
        text::lemma_fill_run(s, b, 69, "Some(__rec) => ret_to_witvalue"@);
        reveal_strlit("_");
        assert(s.subrange(99, 100) =~= "_"@);
        text::lemma_fill_run(s, b, 99, "_"@);
        reveal_strlit("out_snake");
        assert(s.subrange(101, 110) =~= "out_snake"@);
        text::lemma_fill_hole(s, b, 100, "out_snake"@);
        reveal_strlit("(__rec)");
        assert(s.subrange(111, 118) =~= "(__rec)"@);
        text::lemma_fill_run(s, b, 111, "(__rec)"@);
        let rest = text::fill_from(s, b, 118);
        let part = "Some(__rec) => ret_to_witvalue_"@ + out_snake + "(__rec)"@;
        reveal_strlit("Some(__rec) => ret_to_witvalue_");
        assert(("Some(__rec) => ret_to_witvalue"@ + ("_"@ + (out_snake + ("(__rec)"@ + rest))))
            =~= part + rest);
        assert(before + ("    "@ + (part + rest)) =~= (before + "    "@) + (part + rest));
        words::lemma_piece_between(before + "    "@, part, rest);
    }
    assert(words::has_piece(text::fill(t::AGG_RECORD_CALL@, b), "None => Ok(types::Duckvalue::Null)"@)) by {
        let before = text::lemma_fill_reaches(s, b, 123);
        reveal_strlit("    ");
        assert(s.subrange(123, 127) =~= "    "@);
        text::lemma_fill_run(s, b, 123, "    "@);
        reveal_strlit("None => Ok(types::Duckvalue::N");
        assert(s.subrange(127, 157) =~= "None => Ok(types::Duckvalue::N"@);
        text::lemma_fill_run(s, b, 127, "None => Ok(types::Duckvalue::N"@);
        reveal_strlit("ull)");
        assert(s.subrange(157, 161) =~= "ull)"@);
        text::lemma_fill_run(s, b, 157, "ull)"@);
        let rest = text::fill_from(s, b, 161);
        let part = "None => Ok(types::Duckvalue::Null)"@;
        reveal_strlit("None => Ok(types::Duckvalue::Null)");
        assert(("None => Ok(types::Duckvalue::N"@ + ("ull)"@ + rest)) =~= part + rest);
        assert(before + ("    "@ + (part + rest)) =~= (before + "    "@) + (part + rest));
        words::lemma_piece_between(before + "    "@, part, rest);
    }
}

proof fn lemma_agg_scalar_call(
    i: Seq<char>,
    module: Seq<char>,
    func: Seq<char>,
    call_args: Seq<char>,
    wrap: Seq<char>,
)
    ensures
        words::has_piece(
            text::fill(
                t::AGG_SCALAR_CALL@,
                seq![("i"@, i), ("module"@, module), ("func"@, func), ("call_args"@, call_args), ("wrap"@, wrap)],
            ),
            "let __r = "@ + module + "::"@ + func + "("@ + call_args + ");"@,
        ),
        words::has_piece(
            text::fill(
                t::AGG_SCALAR_CALL@,
                seq![("i"@, i), ("module"@, module), ("func"@, func), ("call_args"@, call_args), ("wrap"@, wrap)],
            ),
            wrap,
        ),
{
    let s = t::AGG_SCALAR_CALL@;
    reveal_strlit(r#"{i}let __r = {module}::{func}({call_args});
{i}{wrap}"#);
    reveal_with_fuel(text::plain_to, 31);
    let b = seq![("i"@, i), ("module"@, module), ("func"@, func), ("call_args"@, call_args), ("wrap"@, wrap)];
    lemma_holes_i_module_func_call_args_wrap(i, module, func, call_args, wrap);
    assert(words::has_piece(
        text::fill(t::AGG_SCALAR_CALL@, b),
        "let __r = "@ + module + "::"@ + func + "("@ + call_args + ");"@,
    )) by {
        let before = text::lemma_fill_reaches(s, b, 3);
        reveal_strlit("let __r = ");
        assert(s.subrange(3, 13) =~= "let __r = "@);
        text::lemma_fill_run(s, b, 3, "let __r = "@);
        reveal_strlit("module");
        assert(s.subrange(14, 20) =~= "module"@);
        text::lemma_fill_hole(s, b, 13, "module"@);
        reveal_strlit("::");
        assert(s.subrange(21, 23) =~= "::"@);
        text::lemma_fill_run(s, b, 21, "::"@);
        reveal_strlit("func");
        assert(s.subrange(24, 28) =~= "func"@);
        text::lemma_fill_hole(s, b, 23, "func"@);
        reveal_strlit("(");
        assert(s.subrange(29, 30) =~= "("@);
        text::lemma_fill_run(s, b, 29, "("@);
        reveal_strlit("call_args");
        assert(s.subrange(31, 40) =~= "call_args"@);
        text::lemma_fill_hole(s, b, 30, "call_args"@);
        reveal_strlit(");");
        assert(s.subrange(41, 43) =~= ");"@);
        text::lemma_fill_run(s, b, 41, ");"@);
        let rest = text::fill_from(s, b, 43);
        let part = "let __r = "@ + module + "::"@ + func + "("@ + call_args + ");"@;
        assert(("let __r = "@ + (module + ("::"@ + (func + ("("@ + (call_args + (");"@ + rest)))))))
            =~= part + rest);
        words::lemma_piece_between(before, part, rest);
    }
    assert(words::has_piece(text::fill(t::AGG_SCALAR_CALL@, b), wrap)) by {
        let before = text::lemma_fill_reaches(s, b, 47);
        reveal_strlit("wrap");
        assert(s.subrange(48, 52) =~= "wrap"@);
        text::lemma_fill_hole(s, b, 47, "wrap"@);
        let rest = text::fill_from(s, b, 53);
        let part = wrap;
        words::lemma_piece_between(before, part, rest);
    }
}

proof fn lemma_agg_tuple_call(
    i: Seq<char>,
    module: Seq<char>,
    func: Seq<char>,
    call_args: Seq<char>,
    body: Seq<char>,
)
    ensures
        words::has_piece(
            text::fill(
                t::AGG_TUPLE_CALL@,
                seq![("i"@, i), ("module"@, module), ("func"@, func), ("call_args"@, call_args), ("body"@, body)],
            ),
            "let __r = "@ + module + "::"@ + func + "("@ + call_args + ");"@,
        ),
        words::has_piece(
            text::fill(
                t::AGG_TUPLE_CALL@,
                seq![("i"@, i), ("module"@, module), ("func"@, func), ("call_args"@, call_args), ("body"@, body)],
            ),
            body,
        ),
{
    let s = t::AGG_TUPLE_CALL@;
    reveal_strlit(r#"{i}let __r = {module}::{func}({call_args});
{i}{body}"#);
    reveal_with_fuel(text::plain_to, 31);
    let b = seq![("i"@, i), ("module"@, module), ("func"@, func), ("call_args"@, call_args), ("body"@, body)];
    lemma_holes_i_module_func_call_args_body(i, module, func, call_args, body);
    assert(words::has_piece(
        text::fill(t::AGG_TUPLE_CALL@, b),
        "let __r = "@ + module + "::"@ + func + "("@ + call_args + ");"@,
    )) by {
        let before = text::lemma_fill_reaches(s, b, 3);
        reveal_strlit("let __r = ");
        assert(s.subrange(3, 13) =~= "let __r = "@);
        text::lemma_fill_run(s, b, 3, "let __r = "@);
        reveal_strlit("module");
        assert(s.subrange(14, 20) =~= "module"@);
        text::lemma_fill_hole(s, b, 13, "module"@);
        reveal_strlit("::");
        assert(s.subrange(21, 23) =~= "::"@);
        text::lemma_fill_run(s, b, 21, "::"@);
        reveal_strlit("func");
        assert(s.subrange(24, 28) =~= "func"@);
        text::lemma_fill_hole(s, b, 23, "func"@);
        reveal_strlit("(");
        assert(s.subrange(29, 30) =~= "("@);
        text::lemma_fill_run(s, b, 29, "("@);
        reveal_strlit("call_args");
        assert(s.subrange(31, 40) =~= "call_args"@);
        text::lemma_fill_hole(s, b, 30, "call_args"@);
        reveal_strlit(");");
        assert(s.subrange(41, 43) =~= ");"@);
        text::lemma_fill_run(s, b, 41, ");"@);
        let rest = text::fill_from(s, b, 43);
        let part = "let __r = "@ + module + "::"@ + func + "("@ + call_args + ");"@;
        assert(("let __r = "@ + (module + ("::"@ + (func + ("("@ + (call_args + (");"@ + rest)))))))
            =~= part + rest);
        words::lemma_piece_between(before, part, rest);
    }
    assert(words::has_piece(text::fill(t::AGG_TUPLE_CALL@, b), body)) by {
        let before = text::lemma_fill_reaches(s, b, 47);
        reveal_strlit("body");
        assert(s.subrange(48, 52) =~= "body"@);
        text::lemma_fill_hole(s, b, 47, "body"@);
        let rest = text::fill_from(s, b, 53);
        let part = body;
        words::lemma_piece_between(before, part, rest);
    }
}

proof fn lemma_agg_optional_wrap(some_wrap: Seq<char>)
    ensures
        text::fill(t::AGG_OPTIONAL_WRAP@, seq![("some_wrap"@, some_wrap)])
            == "match __r { Some(v) => Ok("@ + some_wrap + "), None => Ok(types::Duckvalue::Null) }"@,
{
    let s = t::AGG_OPTIONAL_WRAP@;
    let b = seq![("some_wrap"@, some_wrap)];
    reveal_strlit("match __r {{ Some(v) => Ok({some_wrap}), None => Ok(types::Duckvalue::Null) }}");
    reveal_with_fuel(text::plain_to, 31);
    lemma_holes_some_wrap(some_wrap);
    reveal_strlit("match __r ");
    assert(s.subrange(0, 10) =~= "match __r "@);
    text::lemma_fill_run(s, b, 0, "match __r "@);
    assert(text::fill_from(s, b, 10) == seq!['{'] + text::fill_from(s, b, 12));
    reveal_strlit(" Some(v) => Ok(");
    assert(s.subrange(12, 27) =~= " Some(v) => Ok("@);
    text::lemma_fill_run(s, b, 12, " Some(v) => Ok("@);
    reveal_strlit("some_wrap");
    assert(s.subrange(28, 37) =~= "some_wrap"@);
    text::lemma_fill_hole(s, b, 27, "some_wrap"@);
    reveal_strlit("), None => Ok(types::Duckvalue");
    assert(s.subrange(38, 68) =~= "), None => Ok(types::Duckvalue"@);
    text::lemma_fill_run(s, b, 38, "), None => Ok(types::Duckvalue"@);
    reveal_strlit("::Null) ");
    assert(s.subrange(68, 76) =~= "::Null) "@);
    text::lemma_fill_run(s, b, 68, "::Null) "@);
    assert(text::fill_from(s, b, 76) == seq!['}'] + text::fill_from(s, b, 78));
    reveal_strlit("match __r { Some(v) => Ok(");
    reveal_strlit("), None => Ok(types::Duckvalue::Null) }");
    assert((
        "match __r "@
            + (
                seq!['{']
                    + (
                        " Some(v) => Ok("@
                            + (
                                some_wrap
                                    + (
                                        "), None => Ok(types::Duckvalue"@
                                            + ("::Null) "@ + (seq!['}'] + text::fill_from(s, b, 78)))
                                    )
                            )
                    )
            )
    )
        =~= "match __r { Some(v) => Ok("@ + some_wrap + "), None => Ok(types::Duckvalue::Null) }"@);
}

proof fn lemma_agg_tuple_optional(i: Seq<char>, sql_name: Seq<char>)
    ensures
        words::has_piece(
            text::fill(t::AGG_TUPLE_OPTIONAL@, seq![("i"@, i), ("sql_name"@, sql_name)]),
            "serde_json::to_string(&__t)"@,
        ),
        words::has_piece(
            text::fill(t::AGG_TUPLE_OPTIONAL@, seq![("i"@, i), ("sql_name"@, sql_name)]),
            "Ok(types::Duckvalue::Text(__json))"@,
        ),
        words::has_piece(
            text::fill(t::AGG_TUPLE_OPTIONAL@, seq![("i"@, i), ("sql_name"@, sql_name)]),
            "None => Ok(types::Duckvalue::Null)"@,
        ),
{
    let s = t::AGG_TUPLE_OPTIONAL@;
    reveal_strlit(r#"match __r {{
{i}    Some(__t) => {{
{i}        let __json = serde_json::to_string(&__t)
{i}            .map_err(|e| types::Duckerror::Internal(format!("{sql_name}: encode JSON: {{}}", e)))?;
{i}        Ok(types::Duckvalue::Text(__json))
{i}    }}
{i}    None => Ok(types::Duckvalue::Null),
{i}}}"#);
    reveal_with_fuel(text::plain_to, 31);
    let b = seq![("i"@, i), ("sql_name"@, sql_name)];
    lemma_holes_i_sql_name(i, sql_name);
    assert(words::has_piece(text::fill(t::AGG_TUPLE_OPTIONAL@, b), "serde_json::to_string(&__t)"@)) by {
        let before = text::lemma_fill_reaches(s, b, 39);
        reveal_strlit("        let __json = ");
        assert(s.subrange(39, 60) =~= "        let __json = "@);
        text::lemma_fill_run(s, b, 39, "        let __json = "@);
        reveal_strlit("serde_json::to_string(&__t)");
        assert(s.subrange(60, 87) =~= "serde_json::to_string(&__t)"@);
        text::lemma_fill_run(s, b, 60, "serde_json::to_string(&__t)"@);
        let rest = text::fill_from(s, b, 87);
        let part = "serde_json::to_string(&__t)"@;
        assert(before + ("        let __json = "@ + (part + rest))
            =~= (before + "        let __json = "@) + (part + rest));
        words::lemma_piece_between(before + "        let __json = "@, part, rest);
    }
    assert(words::has_piece(text::fill(t::AGG_TUPLE_OPTIONAL@, b), "Ok(types::Duckvalue::Text(__json))"@)) by {
        let before = text::lemma_fill_reaches(s, b, 194);
        reveal_strlit("        ");
        assert(s.subrange(194, 202) =~= "        "@);
        text::lemma_fill_run(s, b, 194, "        "@);
        reveal_strlit("Ok(types::Duckvalue::Text(__js");
        assert(s.subrange(202, 232) =~= "Ok(types::Duckvalue::Text(__js"@);
        text::lemma_fill_run(s, b, 202, "Ok(types::Duckvalue::Text(__js"@);
        reveal_strlit("on))");
        assert(s.subrange(232, 236) =~= "on))"@);
        text::lemma_fill_run(s, b, 232, "on))"@);
        let rest = text::fill_from(s, b, 236);
        let part = "Ok(types::Duckvalue::Text(__json))"@;
        reveal_strlit("Ok(types::Duckvalue::Text(__json))");
        assert(("Ok(types::Duckvalue::Text(__js"@ + ("on))"@ + rest)) =~= part + rest);
        assert(before + ("        "@ + (part + rest)) =~= (before + "        "@) + (part + rest));
        words::lemma_piece_between(before + "        "@, part, rest);
    }
    assert(words::has_piece(text::fill(t::AGG_TUPLE_OPTIONAL@, b), "None => Ok(types::Duckvalue::Null)"@)) by {
        let before = text::lemma_fill_reaches(s, b, 250);
        reveal_strlit("    ");
        assert(s.subrange(250, 254) =~= "    "@);
        text::lemma_fill_run(s, b, 250, "    "@);
        reveal_strlit("None => Ok(types::Duckvalue::N");
        assert(s.subrange(254, 284) =~= "None => Ok(types::Duckvalue::N"@);
        text::lemma_fill_run(s, b, 254, "None => Ok(types::Duckvalue::N"@);
        reveal_strlit("ull)");
        assert(s.subrange(284, 288) =~= "ull)"@);
        text::lemma_fill_run(s, b, 284, "ull)"@);
        let rest = text::fill_from(s, b, 288);
        let part = "None => Ok(types::Duckvalue::Null)"@;
        reveal_strlit("None => Ok(types::Duckvalue::Null)");
        assert(("None => Ok(types::Duckvalue::N"@ + ("ull)"@ + rest)) =~= part + rest);
        assert(before + ("    "@ + (part + rest)) =~= (before + "    "@) + (part + rest));
        words::lemma_piece_between(before + "    "@, part, rest);
    }
}

proof fn lemma_agg_tuple(i: Seq<char>, sql_name: Seq<char>)
    ensures
        words::has_piece(
            text::fill(t::AGG_TUPLE@, seq![("i"@, i), ("sql_name"@, sql_name)]),
            "serde_json::to_string(&__r)"@,
        ),
        words::has_piece(
            text::fill(t::AGG_TUPLE@, seq![("i"@, i), ("sql_name"@, sql_name)]),
            "Ok(types::Duckvalue::Text(__json))"@,
        ),
{
    let s = t::AGG_TUPLE@;
    reveal_strlit(r#"{{
{i}    let __json = serde_json::to_string(&__r)
{i}        .map_err(|e| types::Duckerror::Internal(format!("{sql_name}: encode JSON: {{}}", e)))?;
{i}    Ok(types::Duckvalue::Text(__json))
{i}}}"#);
    reveal_with_fuel(text::plain_to, 31);
    let b = seq![("i"@, i), ("sql_name"@, sql_name)];
    lemma_holes_i_sql_name(i, sql_name);
    assert(words::has_piece(text::fill(t::AGG_TUPLE@, b), "serde_json::to_string(&__r)"@)) by {
        let before = text::lemma_fill_reaches(s, b, 6);
        reveal_strlit("    let __json = ");
        assert(s.subrange(6, 23) =~= "    let __json = "@);
        text::lemma_fill_run(s, b, 6, "    let __json = "@);
        reveal_strlit("serde_json::to_string(&__r)");
        assert(s.subrange(23, 50) =~= "serde_json::to_string(&__r)"@);
        text::lemma_fill_run(s, b, 23, "serde_json::to_string(&__r)"@);
        let rest = text::fill_from(s, b, 50);
        let part = "serde_json::to_string(&__r)"@;
        assert(before + ("    let __json = "@ + (part + rest))
            =~= (before + "    let __json = "@) + (part + rest));
        words::lemma_piece_between(before + "    let __json = "@, part, rest);
    }
    assert(words::has_piece(text::fill(t::AGG_TUPLE@, b), "Ok(types::Duckvalue::Text(__json))"@)) by {
        let before = text::lemma_fill_reaches(s, b, 153);
        reveal_strlit("    ");
        assert(s.subrange(153, 157) =~= "    "@);
        text::lemma_fill_run(s, b, 153, "    "@);
        reveal_strlit("Ok(types::Duckvalue::Text(__js");
        assert(s.subrange(157, 187) =~= "Ok(types::Duckvalue::Text(__js"@);
        text::lemma_fill_run(s, b, 157, "Ok(types::Duckvalue::Text(__js"@);
        reveal_strlit("on))");
        assert(s.subrange(187, 191) =~= "on))"@);
        text::lemma_fill_run(s, b, 187, "on))"@);
        let rest = text::fill_from(s, b, 191);
        let part = "Ok(types::Duckvalue::Text(__json))"@;
        reveal_strlit("Ok(types::Duckvalue::Text(__json))");
        assert(("Ok(types::Duckvalue::Text(__js"@ + ("on))"@ + rest)) =~= part + rest);
        assert(before + ("    "@ + (part + rest)) =~= (before + "    "@) + (part + rest));
        words::lemma_piece_between(before + "    "@, part, rest);
    }
}

} // verus!
