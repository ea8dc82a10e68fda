//! The bodies of the dispatch arms: each takes its arguments out of SQL values, calls the
//! function behind it, and turns the result into a SQL value.

use vstd::prelude::*;
use vstd::string::*;

use crate::calls;
use crate::ir::{
    AccKind, AggregateShape, DispatchShape, JsonRetKind, ListPrimElem, ParamShape, RetShape,
    ScalarReturnKind,
};
use crate::sqlite::dispatch_templates as t;
use crate::text::{self, cat, cat3, fill1, fill2, fill3, fill4, fill5, fill6};
use crate::tuples;
use crate::words::{self, decimal_usize, to_snake};

verus! {

// ─── Arguments ───

/// Whether a scalar arm can be written for a parameter.
pub open spec fn param_wired(p: ParamShape) -> bool {
    !(p is ListTupleMixed) && !(p is ListListU8) && !(p is ListListPrim) && !(p is ListListRecord)
}

/// Whether a scalar arm can be written for all of these parameters.
pub open spec fn params_wired(params: Seq<ParamShape>) -> bool {
    forall|k: int| 0 <= k < params.len() ==> param_wired(#[trigger] params[k])
}

/// The holes that most texts about an argument have.
pub open spec fn arg_holes(i: Seq<char>, idx: nat, sql_name: Seq<char>) -> Seq<text::Binding> {
    seq![("i"@, i), ("idx"@, words::decimal(idx)), ("sql_name"@, sql_name)]
}

/// The same holes and one more.
pub open spec fn arg_holes_and(
    i: Seq<char>,
    idx: nat,
    sql_name: Seq<char>,
    hole: Seq<char>,
    value: Seq<char>,
) -> Seq<text::Binding> {
    seq![("i"@, i), ("idx"@, words::decimal(idx)), ("sql_name"@, sql_name), (hole, value)]
}

/// The same holes and two more.
pub open spec fn arg_holes_and_two(
    i: Seq<char>,
    idx: nat,
    sql_name: Seq<char>,
    first: text::Binding,
    second: text::Binding,
) -> Seq<text::Binding> {
    seq![
        ("i"@, i),
        ("idx"@, words::decimal(idx)),
        ("sql_name"@, sql_name),
        (first.0, first.1),
        (second.0, second.1),
    ]
}

fn fill_arg(template: &str, i: &str, idx: usize, sql_name: &str) -> (r: String)
    ensures
        r@ == text::fill(template@, arg_holes(i@, idx as nat, sql_name@)),
{
    let n = decimal_usize(idx);
    fill3(template, "i", i, "idx", n.as_str(), "sql_name", sql_name)
}

/// The text that declares an argument of a shape that is no enum, record, list or tuple.
pub open spec fn plain_template(p: ParamShape) -> Seq<char> {
    match p {
        ParamShape::Text => t::ARG_TEXT@,
        ParamShape::F64 => t::ARG_F64@,
        ParamShape::S32 => t::ARG_S32@,
        ParamShape::S64 => t::ARG_S64@,
        ParamShape::U32 => t::ARG_U32@,
        ParamShape::U64 => t::ARG_U64@,
        ParamShape::Bool => t::ARG_BOOL@,
        ParamShape::Blob => t::ARG_BLOB@,
        ParamShape::Geom => t::ARG_GEOM@,
        ParamShape::Geog => t::ARG_GEOG@,
        ParamShape::Raster => t::ARG_RASTER@,
        ParamShape::Topology => t::ARG_TOPOLOGY@,
        _ => ""@,
    }
}

fn pick_plain_template(p: &ParamShape) -> (r: &'static str)
    ensures
        r@ == plain_template(*p),
{
    match p {
        ParamShape::Text => t::ARG_TEXT,
        ParamShape::F64 => t::ARG_F64,
        ParamShape::S32 => t::ARG_S32,
        ParamShape::S64 => t::ARG_S64,
        ParamShape::U32 => t::ARG_U32,
        ParamShape::U64 => t::ARG_U64,
        ParamShape::Bool => t::ARG_BOOL,
        ParamShape::Blob => t::ARG_BLOB,
        ParamShape::Geom => t::ARG_GEOM,
        ParamShape::Geog => t::ARG_GEOG,
        ParamShape::Raster => t::ARG_RASTER,
        ParamShape::Topology => t::ARG_TOPOLOGY,
        _ => "",
    }
}

/// The text that takes one argument out of the SQL values. `last` tells that no argument
/// follows: a list of geometries then takes all values that are left.
pub open spec fn arg_decl(
    p: ParamShape,
    idx: nat,
    last: bool,
    sql_name: Seq<char>,
    i: Seq<char>,
) -> Seq<char> {
    match p {
        ParamShape::OptionNone => Seq::empty(),
        ParamShape::ListGeom => text::fill(
            if last {
                t::ARG_LIST_GEOM_REST@
            } else {
                t::ARG_LIST_GEOM_ONE@
            },
            arg_holes(i, idx, sql_name),
        ),
        ParamShape::Enum { wit_module, wit_package, kebab_name, cases } => text::fill(
            t::ARG_ENUM@,
            seq![
                ("i"@, i),
                ("idx"@, words::decimal(idx)),
                ("sql_name"@, sql_name),
                ("arms"@, calls::enum_arms(i, wit_module@, kebab_name@, cases@, cases@.len())),
                ("kebab_name"@, kebab_name@),
                ("max"@, words::decimal(cases@.len())),
            ],
        ),
        ParamShape::ListRecord { kebab_name } => text::fill(
            t::ARG_LIST_RECORD@,
            arg_holes_and(i, idx, sql_name, "snake"@, words::snake(kebab_name@)),
        ),
        ParamShape::ListPrim(elem) => text::fill(
            t::ARG_LIST_PRIM@,
            arg_holes_and_two(
                i,
                idx,
                sql_name,
                ("suffix"@, elem.suffix()),
                ("rust_ty"@, elem.rust_type()),
            ),
        ),
        ParamShape::ListTuple { elements } => text::fill(
            t::ARG_LIST_TUPLE@,
            arg_holes_and_two(
                i,
                idx,
                sql_name,
                ("suffix"@, tuples::tuple_suffix(elements@)),
                ("rust_tuple"@, tuples::tuple_type(tuples::rust_types(elements@))),
            ),
        ),
        ParamShape::WitValueRecord { kebab_name, upstream_by_value } => text::fill(
            t::ARG_WIT_VALUE@,
            arg_holes_and(i, idx, sql_name, "snake"@, words::snake(kebab_name@)),
        ),
        _ => text::fill(plain_template(p), arg_holes(i, idx, sql_name)),
    }
}

fn render_arg_decl(p: &ParamShape, idx: usize, last: bool, sql_name: &str, i: &str) -> (r: String)
    requires
        param_wired(*p),
    ensures
        r@ == arg_decl(*p, idx as nat, last, sql_name@, i@),
{
    let n = decimal_usize(idx);
    let n = n.as_str();
    match p {
        ParamShape::OptionNone => String::new(),
        ParamShape::ListGeom => {
            if last {
                fill_arg(t::ARG_LIST_GEOM_REST, i, idx, sql_name)
            } else {
                fill_arg(t::ARG_LIST_GEOM_ONE, i, idx, sql_name)
            }
        },
        ParamShape::Enum { wit_module, wit_package: _, kebab_name, cases } => {
            let arms = calls::render_enum_arms(i, wit_module.as_str(), kebab_name.as_str(), cases);
            let max = decimal_usize(cases.len());
            fill6(
                t::ARG_ENUM,
                "i",
                i,
                "idx",
                n,
                "sql_name",
                sql_name,
                "arms",
                arms.as_str(),
                "kebab_name",
                kebab_name.as_str(),
                "max",
                max.as_str(),
            )
        },
        ParamShape::ListRecord { kebab_name } => {
            let snake = to_snake(kebab_name.as_str());
            fill4(t::ARG_LIST_RECORD, "i", i, "idx", n, "sql_name", sql_name, "snake", snake.as_str())
        },
        ParamShape::ListPrim(elem) => fill5(
            t::ARG_LIST_PRIM,
            "i",
            i,
            "idx",
            n,
            "sql_name",
            sql_name,
            "suffix",
            elem.helper_suffix(),
            "rust_ty",
            elem.rust_elem(),
        ),
        ParamShape::ListTuple { elements } => {
            let suffix = tuples::list_tuple_sig_suffix(elements);
            let types = tuples::list_rust_types(elements);
            let rust_tuple = tuples::render_tuple_type(&types);
            fill5(
                t::ARG_LIST_TUPLE,
                "i",
                i,
                "idx",
                n,
                "sql_name",
                sql_name,
                "suffix",
                suffix.as_str(),
                "rust_tuple",
                rust_tuple.as_str(),
            )
        },
        ParamShape::WitValueRecord { kebab_name, upstream_by_value: _ } => {
            let snake = to_snake(kebab_name.as_str());
            fill4(t::ARG_WIT_VALUE, "i", i, "idx", n, "sql_name", sql_name, "snake", snake.as_str())
        },
        _ => fill_arg(pick_plain_template(p), i, idx, sql_name),
    }
}

/// The declarations of the first `n` arguments.
pub open spec fn arg_decls(params: Seq<ParamShape>, sql_name: Seq<char>, i: Seq<char>, n: nat) -> Seq<
    char,
>
    decreases n,
{
    if n == 0 {
        Seq::empty()
    } else {
        arg_decls(params, sql_name, i, (n - 1) as nat) + arg_decl(
            params[n - 1],
            (n - 1) as nat,
            n == params.len(),
            sql_name,
            i,
        )
    }
}

/// What is written behind a call that may fail: its error becomes an invalid-argument error.
pub open spec fn unwrap_chain(fallible: bool, sql_name: Seq<char>) -> Seq<char> {
    if fallible {
        text::fill(t::UNWRAP@, seq![("sql_name"@, sql_name)])
    } else {
        Seq::empty()
    }
}

fn render_unwrap_chain(fallible: bool, sql_name: &str) -> (r: String)
    ensures
        r@ == unwrap_chain(fallible, sql_name@),
{
    if fallible {
        fill1(t::UNWRAP, "sql_name", sql_name)
    } else {
        String::new()
    }
}

// ─── Results ───

/// Whether a scalar arm can be written for a result.
pub open spec fn ret_wired(ret: RetShape) -> bool {
    !(ret is TopoGeometryViaGeom) && !(ret is OptionEnum) && !(ret is ListBool) && !(
    ret is ListListU8) && !(ret is Unit)
}

/// The text that turns a result into a SQL value, for shapes that name no type; `bare`
/// tells that nothing is written behind the call.
pub open spec fn return_template(ret: RetShape, bare: bool) -> Seq<char> {
    match ret {
        RetShape::Text => t::RET_TEXT@,
        RetShape::Real => t::RET_REAL@,
        RetShape::Int => t::RET_INT@,
        RetShape::BoolInt => t::RET_BOOL@,
        RetShape::Blob => t::RET_BLOB@,
        RetShape::OptionText => t::RET_OPTION_TEXT@,
        RetShape::OptionReal => t::RET_OPTION_REAL@,
        RetShape::OptionInt => t::RET_OPTION_INT@,
        RetShape::OptionBoolInt => t::RET_OPTION_BOOL@,
        RetShape::OptionBlob => t::RET_OPTION_BLOB@,
        RetShape::OptionGeomBlob => t::RET_OPTION_GEOM@,
        RetShape::OptionRasterBlob => t::RET_OPTION_RASTER@,
        RetShape::OptionTopologyBlob => t::RET_OPTION_TOPOLOGY@,
        RetShape::FirstGeomBlob => t::RET_FIRST_GEOM@,
        RetShape::FirstRasterBlob => t::RET_FIRST_RASTER@,
        RetShape::FirstTopologyBlob => t::RET_FIRST_TOPOLOGY@,
        RetShape::FirstOptionU32Int => t::RET_FIRST_OPTION_U32@,
        RetShape::FirstInt => t::RET_FIRST_INT@,
        RetShape::FirstReal => t::RET_FIRST_REAL@,
        RetShape::FirstText => t::RET_FIRST_TEXT@,
        RetShape::BboxBlob => t::RET_BBOX@,
        RetShape::IsValidDetailText => t::RET_IS_VALID_DETAIL@,
        RetShape::Bbox3dWkbLineZ => t::RET_BBOX3D@,
        RetShape::GeomBlob => if bare {
            t::RET_GEOM@
        } else {
            t::RET_GEOM_FALLIBLE@
        },
        RetShape::RasterBlob => if bare {
            t::RET_RASTER@
        } else {
            t::RET_RASTER_FALLIBLE@
        },
        RetShape::TopologyBlob => if bare {
            t::RET_TOPOLOGY@
        } else {
            t::RET_TOPOLOGY_FALLIBLE@
        },
        RetShape::JsonText { kind } => match kind {
            JsonRetKind::ListListPrim => t::RET_JSON@,
            JsonRetKind::ListTuplePrim => t::RET_JSON@,
            JsonRetKind::TuplePrim => t::RET_JSON@,
            JsonRetKind::OptionTuplePrim => t::RET_JSON_OPTION_TUPLE@,
            JsonRetKind::OptionListPrimRecord => t::RET_JSON_OPTION_LIST@,
            JsonRetKind::ListTupleGeomF64 => t::RET_JSON_GEOM_LIST@,
        },
        _ => ""@,
    }
}

fn pick_return_template(ret: &RetShape, bare: bool) -> (r: &'static str)
    ensures
        r@ == return_template(*ret, bare),
{
    match ret {
        RetShape::Text => t::RET_TEXT,
        RetShape::Real => t::RET_REAL,
        RetShape::Int => t::RET_INT,
        RetShape::BoolInt => t::RET_BOOL,
        RetShape::Blob => t::RET_BLOB,
        RetShape::OptionText => t::RET_OPTION_TEXT,
        RetShape::OptionReal => t::RET_OPTION_REAL,
        RetShape::OptionInt => t::RET_OPTION_INT,
        RetShape::OptionBoolInt => t::RET_OPTION_BOOL,
        RetShape::OptionBlob => t::RET_OPTION_BLOB,
        RetShape::OptionGeomBlob => t::RET_OPTION_GEOM,
        RetShape::OptionRasterBlob => t::RET_OPTION_RASTER,
        RetShape::OptionTopologyBlob => t::RET_OPTION_TOPOLOGY,
        RetShape::FirstGeomBlob => t::RET_FIRST_GEOM,
        RetShape::FirstRasterBlob => t::RET_FIRST_RASTER,
        RetShape::FirstTopologyBlob => t::RET_FIRST_TOPOLOGY,
        RetShape::FirstOptionU32Int => t::RET_FIRST_OPTION_U32,
        RetShape::FirstInt => t::RET_FIRST_INT,
        RetShape::FirstReal => t::RET_FIRST_REAL,
        RetShape::FirstText => t::RET_FIRST_TEXT,
        RetShape::BboxBlob => t::RET_BBOX,
        RetShape::IsValidDetailText => t::RET_IS_VALID_DETAIL,
        RetShape::Bbox3dWkbLineZ => t::RET_BBOX3D,
        RetShape::GeomBlob => if bare {
            t::RET_GEOM
        } else {
            t::RET_GEOM_FALLIBLE
        },
        RetShape::RasterBlob => if bare {
            t::RET_RASTER
        } else {
            t::RET_RASTER_FALLIBLE
        },
        RetShape::TopologyBlob => if bare {
            t::RET_TOPOLOGY
        } else {
            t::RET_TOPOLOGY_FALLIBLE
        },
        RetShape::JsonText { kind } => match kind {
            JsonRetKind::ListListPrim => t::RET_JSON,
            JsonRetKind::ListTuplePrim => t::RET_JSON,
            JsonRetKind::TuplePrim => t::RET_JSON,
            JsonRetKind::OptionTuplePrim => t::RET_JSON_OPTION_TUPLE,
            JsonRetKind::OptionListPrimRecord => t::RET_JSON_OPTION_LIST,
            JsonRetKind::ListTupleGeomF64 => t::RET_JSON_GEOM_LIST,
        },
        _ => "",
    }
}

/// The SQL variant for one element of a tuple.
pub open spec fn pick_variant(elem: ListPrimElem) -> Seq<char> {
    match elem {
        ListPrimElem::F64 | ListPrimElem::F32 => "Real"@,
        ListPrimElem::String => "Text"@,
        _ => "Integer"@,
    }
}

/// The conversion behind the element of a tuple.
pub open spec fn pick_conversion(elem: ListPrimElem) -> Seq<char> {
    match elem {
        ListPrimElem::F64 | ListPrimElem::F32 => " as f64"@,
        ListPrimElem::String => ""@,
        _ => " as i64"@,
    }
}

/// The expression that turns the result of `call` into a SQL value; `chain` is what stands
/// behind the call.
pub open spec fn return_expr(
    ret: RetShape,
    call: Seq<char>,
    chain: Seq<char>,
    sql_name: Seq<char>,
    i: Seq<char>,
) -> Seq<char> {
    match ret {
        RetShape::Enum { wit_module, wit_package, kebab_name, cases } => text::fill(
            t::RET_ENUM@,
            seq![
                ("i"@, i),
                ("call_expr"@, call),
                ("unwrap_chain"@, chain),
                ("arms"@, calls::case_arms(i, wit_module@, kebab_name@, cases@, cases@.len())),
            ],
        ),
        RetShape::TuplePick { index, elem } => text::fill(
            t::RET_TUPLE_PICK@,
            seq![
                ("i"@, i),
                ("call_expr"@, call),
                ("unwrap_chain"@, chain),
                ("variant"@, pick_variant(elem)),
                ("expr_suffix"@, "__r."@ + words::decimal(index as nat) + pick_conversion(elem)),
            ],
        ),
        RetShape::WitValueRecord { kebab_name } => text::fill(
            t::RET_WIT_VALUE@,
            seq![
                ("i"@, i),
                ("call_expr"@, call),
                ("unwrap_chain"@, chain),
                ("snake"@, words::snake(kebab_name@)),
            ],
        ),
        RetShape::OptionWitValueRecord { kebab_name } => text::fill(
            t::RET_OPTION_WIT_VALUE@,
            seq![
                ("i"@, i),
                ("call_expr"@, call),
                ("unwrap_chain"@, chain),
                ("snake"@, words::snake(kebab_name@)),
            ],
        ),
        RetShape::FirstWitValueRecord { kebab_name } => text::fill(
            t::RET_FIRST_WIT_VALUE@,
            seq![
                ("i"@, i),
                ("call_expr"@, call),
                ("unwrap_chain"@, chain),
                ("snake"@, words::snake(kebab_name@)),
            ],
        ),
        _ => text::fill(
            return_template(ret, chain.len() == 0),
            seq![
                ("i"@, i),
                ("call_expr"@, call),
                ("unwrap_chain"@, chain),
                ("sql_name"@, sql_name),
            ],
        ),
    }
}

fn fill_return(template: &str, i: &str, call: &str, chain: &str, hole: &str, value: &str) -> (r:
    String)
    ensures
        r@ == text::fill(
            template@,
            seq![
                ("i"@, i@),
                ("call_expr"@, call@),
                ("unwrap_chain"@, chain@),
                (hole@, value@),
            ],
        ),
{
    fill4(template, "i", i, "call_expr", call, "unwrap_chain", chain, hole, value)
}

/// Writes the expression that turns the result of `call` into a SQL value.
pub fn render_return_expr(
    ret: &RetShape,
    call: &str,
    chain: &str,
    sql_name: &str,
    i: &str,
) -> (r: String)
    requires
        ret_wired(*ret),
    ensures
        r@ == return_expr(*ret, call@, chain@, sql_name@, i@),
{
    match ret {
        RetShape::Enum { wit_module, wit_package: _, kebab_name, cases } => {
            let arms = calls::render_case_arms(i, wit_module.as_str(), kebab_name.as_str(), cases);
            fill_return(t::RET_ENUM, i, call, chain, "arms", arms.as_str())
        },
        RetShape::TuplePick { index, elem } => {
            let number = decimal_usize(*index);
            let variant = match elem {
                ListPrimElem::F64 | ListPrimElem::F32 => "Real",
                ListPrimElem::String => "Text",
                _ => "Integer",
            };
            let conversion = match elem {
                ListPrimElem::F64 | ListPrimElem::F32 => " as f64",
                ListPrimElem::String => "",
                _ => " as i64",
            };
            let expr = cat3("__r.", number.as_str(), conversion);
            fill5(
                t::RET_TUPLE_PICK,
                "i",
                i,
                "call_expr",
                call,
                "unwrap_chain",
                chain,
                "variant",
                variant,
                "expr_suffix",
                expr.as_str(),
            )
        },
        RetShape::WitValueRecord { kebab_name } => {
            let snake = to_snake(kebab_name.as_str());
            fill_return(t::RET_WIT_VALUE, i, call, chain, "snake", snake.as_str())
        },
        RetShape::OptionWitValueRecord { kebab_name } => {
            let snake = to_snake(kebab_name.as_str());
            fill_return(t::RET_OPTION_WIT_VALUE, i, call, chain, "snake", snake.as_str())
        },
        RetShape::FirstWitValueRecord { kebab_name } => {
            let snake = to_snake(kebab_name.as_str());
            fill_return(t::RET_FIRST_WIT_VALUE, i, call, chain, "snake", snake.as_str())
        },
        _ => fill_return(
            pick_return_template(ret, chain.is_empty()),
            i,
            call,
            chain,
            "sql_name",
            sql_name,
        ),
    }
}

// ─── Scalars ───

/// Whether a scalar arm can be written for a function.
pub open spec fn scalar_wired(shape: DispatchShape) -> bool {
    params_wired(shape.params@) && ret_wired(shape.ret)
}

/// The body of a scalar arm: the declarations of all arguments, then one line with the
/// expression of the result.
pub open spec fn scalar_arm_body(
    shape: DispatchShape,
    fallible: bool,
    sql_name: Seq<char>,
    i: Seq<char>,
) -> Seq<char> {
    arg_decls(shape.params@, sql_name, i, shape.params@.len()) + i + return_expr(
        shape.ret,
        calls::call_expr(shape),
        unwrap_chain(fallible, sql_name),
        sql_name,
        i,
    )
}

/// Writes the body of a scalar arm. `fallible` tells that the function returns a result whose
/// error is to be handed on; `sql_name` stands in error texts, and each line is indented by
/// `arm_indent`.
pub fn emit_arm_body(
    shape: &DispatchShape,
    fallible: bool,
    sql_name: &str,
    arm_indent: &str,
) -> (r: String)
    requires
        scalar_wired(*shape),
    ensures
        r@ == scalar_arm_body(*shape, fallible, sql_name@, arm_indent@),
{
    let mut s = String::new();
    let mut idx: usize = 0;
    while idx < shape.params.len()
        invariant
            idx <= shape.params@.len(),
            params_wired(shape.params@),
            s@ == arg_decls(shape.params@, sql_name@, arm_indent@, idx as nat),
        decreases shape.params.len() - idx,
    {
        let last = idx + 1 == shape.params.len();
        let decl = render_arg_decl(&shape.params[idx], idx, last, sql_name, arm_indent);
        s.append(decl.as_str());
        idx = idx + 1;
    }
    let call = calls::render_call_expr(shape);
    let chain = render_unwrap_chain(fallible, sql_name);
    let ret = render_return_expr(&shape.ret, call.as_str(), chain.as_str(), sql_name, arm_indent);
    s.append(arm_indent);
    s.append(ret.as_str());
    s
}

// ─── Extra arguments ───

/// The text that takes one extra argument out of the latched values.
pub open spec fn extra_template(p: ParamShape) -> Seq<char> {
    match p {
        ParamShape::Text => t::EXTRA_TEXT@,
        ParamShape::F64 => t::EXTRA_F64@,
        ParamShape::S32 => t::EXTRA_S32@,
        ParamShape::S64 => t::EXTRA_S64@,
        ParamShape::U32 => t::EXTRA_U32@,
        ParamShape::U64 => t::EXTRA_U64@,
        ParamShape::Bool => t::EXTRA_BOOL@,
        ParamShape::Blob => t::EXTRA_BLOB@,
        _ => ""@,
    }
}

fn pick_extra_template(p: &ParamShape) -> (r: &'static str)
    ensures
        r@ == extra_template(*p),
{
    match p {
        ParamShape::Text => t::EXTRA_TEXT,
        ParamShape::F64 => t::EXTRA_F64,
        ParamShape::S32 => t::EXTRA_S32,
        ParamShape::S64 => t::EXTRA_S64,
        ParamShape::U32 => t::EXTRA_U32,
        ParamShape::U64 => t::EXTRA_U64,
        ParamShape::Bool => t::EXTRA_BOOL,
        ParamShape::Blob => t::EXTRA_BLOB,
        _ => "",
    }
}

/// The declarations of the first `n` extra arguments.
pub open spec fn extra_decls(extras: Seq<ParamShape>, sql_name: Seq<char>, i: Seq<char>, n: nat) -> Seq<
    char,
>
    decreases n,
{
    if n == 0 {
        Seq::empty()
    } else {
        extra_decls(extras, sql_name, i, (n - 1) as nat) + text::fill(
            extra_template(extras[n - 1]),
            seq![("i"@, i), ("j"@, words::decimal((n - 1) as nat)), ("sql_name"@, sql_name)],
        )
    }
}

/// The text that takes the extra arguments out of the latched values: nothing where there are
/// none.
pub open spec fn extras_text(extras: Seq<ParamShape>, sql_name: Seq<char>, i: Seq<char>) -> Seq<char> {
    if extras.len() == 0 {
        Seq::empty()
    } else {
        text::fill(t::EXTRAS_TAKE@, seq![("i"@, i)]) + extra_decls(
            extras,
            sql_name,
            i,
            extras.len(),
        )
    }
}

fn render_extras(extras: &Vec<ParamShape>, sql_name: &str, i: &str) -> (r: String)
    ensures
        r@ == extras_text(extras@, sql_name@, i@),
{
    if extras.len() == 0 {
        return String::new();
    }
    let mut decls = String::new();
    let mut j: usize = 0;
    while j < extras.len()
        invariant
            j <= extras@.len(),
            decls@ == extra_decls(extras@, sql_name@, i@, j as nat),
        decreases extras.len() - j,
    {
        let number = decimal_usize(j);
        let decl = fill3(
            pick_extra_template(&extras[j]),
            "i",
            i,
            "j",
            number.as_str(),
            "sql_name",
            sql_name,
        );
        decls.append(decl.as_str());
        j = j + 1;
    }
    let take = fill1(t::EXTRAS_TAKE, "i", i);
    cat(take.as_str(), decls.as_str())
}

/// The arm of an aggregate whose extra argument at `j` is of a shape that aggregates do not
/// take: an error that names it.
pub open spec fn unwired_extra_body(j: nat, sql_name: Seq<char>, i: Seq<char>) -> Seq<char> {
    text::fill(
        t::EXTRA_UNWIRED@,
        seq![("i"@, i), ("j"@, words::decimal(j)), ("sql_name"@, sql_name)],
    )
}

fn render_unwired_extra(j: usize, sql_name: &str, i: &str) -> (r: String)
    ensures
        r@ == unwired_extra_body(j as nat, sql_name@, i@),
{
    let number = decimal_usize(j);
    fill3(t::EXTRA_UNWIRED, "i", i, "j", number.as_str(), "sql_name", sql_name)
}

// ─── Aggregates: one row ───

/// Whether an arm can be written for an aggregate.
pub open spec fn aggregate_wired(shape: AggregateShape) -> bool {
    !(shape.accumulator_kind is RecordToListPrim) && !(
    shape.accumulator_kind is RecordSetToRecordSet)
}

/// The step of an aggregate of geometries or rasters: keep the blob of the row.
pub open spec fn resource_step(shape: AggregateShape, sql_name: Seq<char>, i: Seq<char>) -> Seq<char> {
    text::fill(
        if shape.extra_args@.len() == 0 {
            t::STEP@
        } else {
            t::STEP_EXTRAS@
        },
        seq![
            ("i"@, i),
            ("sql_name"@, sql_name),
            (
                "push"@,
                if shape.accumulator_kind is Raster {
                    "push_raster_state"@
                } else {
                    "push_geom_state"@
                },
            ),
        ],
    )
}

/// The step of an aggregate of records: keep the row's record.
pub open spec fn record_step(shape: AggregateShape, sql_name: Seq<char>, i: Seq<char>) -> Seq<char> {
    let extract = text::fill(t::STEP_RECORD@, seq![("i"@, i), ("sql_name"@, sql_name)]);
    text::fill(
        if shape.extra_args@.len() == 0 {
            t::STEP_RECORD_DONE@
        } else {
            t::STEP_RECORD_EXTRAS@
        },
        seq![("extract"@, extract), ("i"@, i), ("sql_name"@, sql_name)],
    )
}

fn emit_aggregate_step_body_record(shape: &AggregateShape, sql_name: &str, i: &str) -> (r: String)
    ensures
        r@ == record_step(*shape, sql_name@, i@),
{
    let extract = fill2(t::STEP_RECORD, "i", i, "sql_name", sql_name);
    let template = if shape.extra_args.len() == 0 {
        t::STEP_RECORD_DONE
    } else {
        t::STEP_RECORD_EXTRAS
    };
    fill3(template, "extract", extract.as_str(), "i", i, "sql_name", sql_name)
}

/// The step of an aggregate: what is done with each row. Extra arguments are latched from the
/// first row.
pub open spec fn aggregate_step(shape: AggregateShape, sql_name: Seq<char>, i: Seq<char>) -> Seq<char> {
    if shape.accumulator_kind is Geom || shape.accumulator_kind is Raster {
        resource_step(shape, sql_name, i)
    } else {
        record_step(shape, sql_name, i)
    }
}

/// Writes the step of an aggregate.
pub fn emit_aggregate_step_body(shape: &AggregateShape, sql_name: &str, arm_indent: &str) -> (r:
    String)
    requires
        aggregate_wired(*shape),
    ensures
        r@ == aggregate_step(*shape, sql_name@, arm_indent@),
{
    let push = match &shape.accumulator_kind {
        AccKind::Geom => "push_geom_state",
        AccKind::Raster => "push_raster_state",
        _ => {
            return emit_aggregate_step_body_record(shape, sql_name, arm_indent);
        },
    };
    let template = if shape.extra_args.len() == 0 {
        t::STEP
    } else {
        t::STEP_EXTRAS
    };
    fill3(template, "i", arm_indent, "sql_name", sql_name, "push", push)
}

// ─── Aggregates: the result ───

/// The holes of the text that calls an aggregate.
pub open spec fn aggregate_call_holes(
    shape: AggregateShape,
    acc: Seq<char>,
    sql_name: Seq<char>,
    i: Seq<char>,
) -> Seq<text::Binding> {
    seq![
        ("i"@, i),
        ("module"@, shape.wit_module@),
        ("func"@, shape.wit_func@),
        ("call_args"@, calls::accumulated_args(acc, shape.extra_args@)),
        ("sql_name"@, sql_name),
    ]
}

/// The text that calls an aggregate of geometries or rasters and turns its result into a
/// SQL value.
pub open spec fn aggregate_return_template(ret: RetShape) -> Seq<char> {
    match ret {
        RetShape::GeomBlob => t::AGG_RET_GEOM@,
        RetShape::RasterBlob => t::AGG_RET_RASTER@,
        RetShape::FirstGeomBlob => t::AGG_RET_FIRST_GEOM@,
        RetShape::FirstOptionU32Int => t::AGG_RET_FIRST_OPTION_U32@,
        RetShape::Bbox3dWkbLineZ => t::AGG_RET_BBOX3D@,
        _ => t::AGG_RET_UNWIRED@,
    }
}

fn pick_aggregate_return_template(ret: &RetShape) -> (r: &'static str)
    ensures
        r@ == aggregate_return_template(*ret),
{
    match ret {
        RetShape::GeomBlob => t::AGG_RET_GEOM,
        RetShape::RasterBlob => t::AGG_RET_RASTER,
        RetShape::FirstGeomBlob => t::AGG_RET_FIRST_GEOM,
        RetShape::FirstOptionU32Int => t::AGG_RET_FIRST_OPTION_U32,
        RetShape::Bbox3dWkbLineZ => t::AGG_RET_BBOX3D,
        _ => t::AGG_RET_UNWIRED,
    }
}

/// The result of an aggregate of geometries or rasters: decode what was kept, take the extra
/// arguments, call.
pub open spec fn resource_finalize(shape: AggregateShape, sql_name: Seq<char>, i: Seq<char>) -> Seq<
    char,
> {
    text::fill(
        if shape.accumulator_kind is Raster {
            t::FINALIZE_RASTERS@
        } else {
            t::FINALIZE_GEOMS@
        },
        seq![("i"@, i), ("sql_name"@, sql_name)],
    ) + extras_text(shape.extra_args@, sql_name, i) + text::fill(
        aggregate_return_template(shape.ret),
        aggregate_call_holes(shape, "&refs"@, sql_name, i),
    )
}

fn render_resource_finalize(shape: &AggregateShape, sql_name: &str, i: &str) -> (r: String)
    requires
        shape.accumulator_kind is Geom || shape.accumulator_kind is Raster,
    ensures
        r@ == resource_finalize(*shape, sql_name@, i@),
{
    let template = match &shape.accumulator_kind {
        AccKind::Raster => t::FINALIZE_RASTERS,
        _ => t::FINALIZE_GEOMS,
    };
    let mut s = fill2(template, "i", i, "sql_name", sql_name);
    let extras = render_extras(&shape.extra_args, sql_name, i);
    s.append(extras.as_str());
    let args = calls::render_accumulated_args("&refs", &shape.extra_args);
    let call = fill5(
        pick_aggregate_return_template(&shape.ret),
        "i",
        i,
        "module",
        shape.wit_module.as_str(),
        "func",
        shape.wit_func.as_str(),
        "call_args",
        args.as_str(),
        "sql_name",
        sql_name,
    );
    s.append(call.as_str());
    s
}

/// The result of an aggregate from records to a record: none takes extra arguments.
pub open spec fn record_finalize(
    shape: AggregateShape,
    input: Seq<char>,
    output: Seq<char>,
    sql_name: Seq<char>,
    i: Seq<char>,
) -> Seq<char> {
    text::fill(
        t::FINALIZE_RECORDS@,
        seq![("i"@, i), ("in_snake"@, words::snake(input)), ("sql_name"@, sql_name)],
    ) + if shape.extra_args@.len() > 0 {
        text::fill(t::RECORD_EXTRAS_UNWIRED@, seq![("i"@, i), ("sql_name"@, sql_name)])
    } else {
        text::fill(
            t::RECORD_CALL@,
            seq![
                ("i"@, i),
                ("module"@, shape.wit_module@),
                ("func"@, shape.wit_func@),
                ("out_snake"@, words::snake(output)),
            ],
        )
    }
}

fn emit_aggregate_finalize_body_record(
    shape: &AggregateShape,
    input: &str,
    output: &str,
    sql_name: &str,
    i: &str,
) -> (r: String)
    ensures
        r@ == record_finalize(*shape, input@, output@, sql_name@, i@),
{
    let in_snake = to_snake(input);
    let out_snake = to_snake(output);
    let mut s = fill3(
        t::FINALIZE_RECORDS,
        "i",
        i,
        "in_snake",
        in_snake.as_str(),
        "sql_name",
        sql_name,
    );
    let rest = if shape.extra_args.len() > 0 {
        fill2(t::RECORD_EXTRAS_UNWIRED, "i", i, "sql_name", sql_name)
    } else {
        fill4(
            t::RECORD_CALL,
            "i",
            i,
            "module",
            shape.wit_module.as_str(),
            "func",
            shape.wit_func.as_str(),
            "out_snake",
            out_snake.as_str(),
        )
    };
    s.append(rest.as_str());
    s
}

/// The text that decodes the records that were kept and takes the extra arguments.
pub open spec fn kept_records(
    shape: AggregateShape,
    input: Seq<char>,
    sql_name: Seq<char>,
    i: Seq<char>,
) -> Seq<char> {
    text::fill(
        t::FINALIZE_ROWS@,
        seq![("i"@, i), ("in_snake"@, words::snake(input)), ("sql_name"@, sql_name)],
    ) + extras_text(shape.extra_args@, sql_name, i)
}

fn render_kept_records(shape: &AggregateShape, input: &str, sql_name: &str, i: &str) -> (r: String)
    ensures
        r@ == kept_records(*shape, input@, sql_name@, i@),
{
    let in_snake = to_snake(input);
    let rows = fill3(
        t::FINALIZE_ROWS,
        "i",
        i,
        "in_snake",
        in_snake.as_str(),
        "sql_name",
        sql_name,
    );
    let extras = render_extras(&shape.extra_args, sql_name, i);
    cat(rows.as_str(), extras.as_str())
}

/// The SQL value made of a primitive that is called `v`.
pub open spec fn some_wrap(output: ScalarReturnKind) -> Seq<char> {
    match output {
        ScalarReturnKind::F64 | ScalarReturnKind::F32 => "SqlValue::Real(v as f64)"@,
        ScalarReturnKind::Bool => "SqlValue::Integer(if v { 1 } else { 0 })"@,
        _ => "SqlValue::Integer(v as i64)"@,
    }
}

/// The expression that turns the primitive that an aggregate returned into a SQL value; an
/// optional one that is absent becomes null.
pub open spec fn scalar_wrap(output: ScalarReturnKind, optional: bool) -> Seq<char> {
    if optional {
        text::fill(t::OPTIONAL_WRAP@, seq![("some_wrap"@, some_wrap(output))])
    } else {
        match output {
            ScalarReturnKind::F64
            | ScalarReturnKind::F32 => "Ok(SqlValue::Real(__r as f64))"@,
            ScalarReturnKind::Bool => "Ok(SqlValue::Integer(if __r { 1 } else { 0 }))"@,
            _ => "Ok(SqlValue::Integer(__r as i64))"@,
        }
    }
}

fn render_scalar_wrap(output: ScalarReturnKind, optional: bool) -> (r: String)
    ensures
        r@ == scalar_wrap(output, optional),
{
    if optional {
        let some = match output {
            ScalarReturnKind::F64 | ScalarReturnKind::F32 => "SqlValue::Real(v as f64)",
            ScalarReturnKind::Bool => "SqlValue::Integer(if v { 1 } else { 0 })",
            _ => "SqlValue::Integer(v as i64)",
        };
        fill1(t::OPTIONAL_WRAP, "some_wrap", some)
    } else {
        match output {
            ScalarReturnKind::F64 | ScalarReturnKind::F32 => {
                "Ok(SqlValue::Real(__r as f64))".to_owned()
            },
            ScalarReturnKind::Bool => "Ok(SqlValue::Integer(if __r { 1 } else { 0 }))".to_owned(),
            _ => "Ok(SqlValue::Integer(__r as i64))".to_owned(),
        }
    }
}

/// The result of an aggregate from records to a primitive.
pub open spec fn record_to_scalar_finalize(
    shape: AggregateShape,
    input: Seq<char>,
    output: ScalarReturnKind,
    optional: bool,
    sql_name: Seq<char>,
    i: Seq<char>,
) -> Seq<char> {
    kept_records(shape, input, sql_name, i) + text::fill(
        t::SCALAR_CALL@,
        seq![
            ("i"@, i),
            ("module"@, shape.wit_module@),
            ("func"@, shape.wit_func@),
            ("call_args"@, calls::accumulated_args("&upstream_vec"@, shape.extra_args@)),
            ("wrap"@, scalar_wrap(output, optional)),
        ],
    )
}

fn emit_aggregate_finalize_body_record_to_scalar(
    shape: &AggregateShape,
    input: &str,
    output: ScalarReturnKind,
    optional: bool,
    sql_name: &str,
    i: &str,
) -> (r: String)
    ensures
        r@ == record_to_scalar_finalize(*shape, input@, output, optional, sql_name@, i@),
{
    let rows = render_kept_records(shape, input, sql_name, i);
    let args = calls::render_accumulated_args("&upstream_vec", &shape.extra_args);
    let wrap = render_scalar_wrap(output, optional);
    let call = fill5(
        t::SCALAR_CALL,
        "i",
        i,
        "module",
        shape.wit_module.as_str(),
        "func",
        shape.wit_func.as_str(),
        "call_args",
        args.as_str(),
        "wrap",
        wrap.as_str(),
    );
    cat(rows.as_str(), call.as_str())
}

/// The result of an aggregate from records to a tuple, which becomes a JSON array; an optional
/// one that is absent becomes NULL.
pub open spec fn record_to_tuple_finalize(
    shape: AggregateShape,
    input: Seq<char>,
    optional: bool,
    sql_name: Seq<char>,
    i: Seq<char>,
) -> Seq<char> {
    kept_records(shape, input, sql_name, i) + text::fill(
        t::TUPLE_CALL@,
        seq![
            ("i"@, i),
            ("module"@, shape.wit_module@),
            ("func"@, shape.wit_func@),
            ("call_args"@, calls::accumulated_args("&upstream_vec"@, shape.extra_args@)),
            (
                "body"@,
                text::fill(
                    if optional {
                        t::TUPLE_OPTIONAL@
                    } else {
                        t::TUPLE_BODY@
                    },
                    seq![("i"@, i), ("sql_name"@, sql_name)],
                ),
            ),
        ],
    )
}

fn emit_aggregate_finalize_body_record_to_tuple(
    shape: &AggregateShape,
    input: &str,
    optional: bool,
    sql_name: &str,
    i: &str,
) -> (r: String)
    ensures
        r@ == record_to_tuple_finalize(*shape, input@, optional, sql_name@, i@),
{
    let rows = render_kept_records(shape, input, sql_name, i);
    let args = calls::render_accumulated_args("&upstream_vec", &shape.extra_args);
    let template = if optional {
        t::TUPLE_OPTIONAL
    } else {
        t::TUPLE_BODY
    };
    let body = fill2(template, "i", i, "sql_name", sql_name);
    let call = fill5(
        t::TUPLE_CALL,
        "i",
        i,
        "module",
        shape.wit_module.as_str(),
        "func",
        shape.wit_func.as_str(),
        "call_args",
        args.as_str(),
        "body",
        body.as_str(),
    );
    cat(rows.as_str(), call.as_str())
}

/// The result of an aggregate. Extra arguments of a shape that aggregates do not take turn the
/// whole arm into an error that names the first of them.
pub open spec fn aggregate_finalize(shape: AggregateShape, sql_name: Seq<char>, i: Seq<char>) -> Seq<
    char,
> {
    let j = calls::unwired_extra_from(shape.extra_args@, 0);
    match shape.accumulator_kind {
        AccKind::Record { input, output } => record_finalize(
            shape,
            input.kebab_name@,
            output.kebab_name@,
            sql_name,
            i,
        ),
        AccKind::RecordToScalar { input, output, optional } => if j < shape.extra_args@.len() {
            unwired_extra_body(j as nat, sql_name, i)
        } else {
            record_to_scalar_finalize(shape, input.kebab_name@, output, optional, sql_name, i)
        },
        AccKind::RecordToTuple { input, optional } => if j < shape.extra_args@.len() {
            unwired_extra_body(j as nat, sql_name, i)
        } else {
            record_to_tuple_finalize(shape, input.kebab_name@, optional, sql_name, i)
        },
        _ => if j < shape.extra_args@.len() {
            unwired_extra_body(j as nat, sql_name, i)
        } else {
            resource_finalize(shape, sql_name, i)
        },
    }
}

/// Writes the result of an aggregate, over all rows that were kept.
pub fn emit_aggregate_finalize_body(shape: &AggregateShape, sql_name: &str, arm_indent: &str) -> (r:
    String)
    requires
        aggregate_wired(*shape),
    ensures
        r@ == aggregate_finalize(*shape, sql_name@, arm_indent@),
{
    if let AccKind::Record { input, output } = &shape.accumulator_kind {
        return emit_aggregate_finalize_body_record(
            shape,
            input.kebab_name.as_str(),
            output.kebab_name.as_str(),
            sql_name,
            arm_indent,
        );
    }
    let j = calls::find_unwired_extra(&shape.extra_args);
    if j < shape.extra_args.len() {
        return render_unwired_extra(j, sql_name, arm_indent);
    }
    match &shape.accumulator_kind {
        AccKind::RecordToScalar { input, output, optional } => {
            emit_aggregate_finalize_body_record_to_scalar(
                shape,
                input.kebab_name.as_str(),
                *output,
                *optional,
                sql_name,
                arm_indent,
            )
        },
        AccKind::RecordToTuple { input, optional } => emit_aggregate_finalize_body_record_to_tuple(
            shape,
            input.kebab_name.as_str(),
            *optional,
            sql_name,
            arm_indent,
        ),
        _ => render_resource_finalize(shape, sql_name, arm_indent),
    }
}

} // verus!
