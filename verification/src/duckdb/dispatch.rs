//! The bodies of the dispatch arms: each takes its arguments out of DuckDB values, calls the
//! function behind it, and turns the result into a DuckDB value.

use vstd::prelude::*;
use vstd::string::*;

use crate::calls;
use crate::duckdb::dispatch_templates as t;
use crate::duckdb::values::{self, ValueKind};
use crate::ir::{
    AccKind, AggregateShape, ColumnAffinity, DispatchShape, JsonRetKind, ListPrimElem, ParamShape,
    RetShape, ScalarReturnKind, UdtfField, UdtfFieldShape, UdtfOutputRow, UdtfShape, WindowReturn,
    WindowShape,
};
use crate::tuples;
use crate::text::{self, cat, cat3, fill1, fill2, fill3, fill4, fill5};
use crate::words::{self, decimal_usize, escape_quotes, join, to_snake};

verus! {

// ─── Arguments ───

/// Whether a scalar arm can be written for a parameter.
pub open spec fn param_wired(p: ParamShape) -> bool {
    !(p is ListTupleMixed) && !(p is ListListRecord)
}

/// Whether a scalar arm can be written for all of these parameters.
pub open spec fn params_wired(params: Seq<ParamShape>) -> bool {
    forall|k: int| 0 <= k < params.len() ==> param_wired(#[trigger] params[k])
}

/// The type of an argument that is a list of plain values or tuples, or a list of such lists:
/// that of the innermost elements.
pub open spec fn element_type(p: ParamShape) -> Seq<char> {
    match p {
        ParamShape::ListPrim(elem) => elem.rust_type(),
        ParamShape::ListListPrim(elem) => elem.rust_type(),
        ParamShape::ListListU8 => "u8"@,
        ParamShape::ListTuple { elements } => tuples::tuple_type(tuples::rust_types(elements@)),
        _ => Seq::empty(),
    }
}

fn render_element_type(p: &ParamShape) -> (r: String)
    ensures
        r@ == element_type(*p),
{
    match p {
        ParamShape::ListPrim(elem) => elem.rust_elem().to_owned(),
        ParamShape::ListListPrim(elem) => elem.rust_elem().to_owned(),
        ParamShape::ListListU8 => "u8".to_owned(),
        ParamShape::ListTuple { elements } => {
            let types = tuples::list_rust_types(elements);
            tuples::render_tuple_type(&types)
        },
        _ => String::new(),
    }
}

/// What the texts about an argument say of an enum: the arms from the numbers of its cases, its
/// name, and how many cases it has.
pub open spec fn enum_texts(p: ParamShape, i: Seq<char>) -> (Seq<char>, Seq<char>, Seq<char>) {
    match p {
        ParamShape::Enum { wit_module, wit_package, kebab_name, cases } => (
            calls::enum_arms(i, wit_module@, kebab_name@, cases@, cases@.len()),
            kebab_name@,
            words::decimal(cases@.len()),
        ),
        _ => (Seq::empty(), Seq::empty(), Seq::empty()),
    }
}

fn render_enum_texts(p: &ParamShape, i: &str) -> (r: (String, String, String))
    ensures
        (r.0@, r.1@, r.2@) == enum_texts(*p, i@),
{
    match p {
        ParamShape::Enum { wit_module, wit_package: _, kebab_name, cases } => {
            let arms = calls::render_enum_arms(i, wit_module.as_str(), kebab_name.as_str(), cases);
            (arms, kebab_name.clone(), decimal_usize(cases.len()))
        },
        _ => (String::new(), String::new(), String::new()),
    }
}

/// The holes of the texts about an argument.
pub open spec fn arg_holes(p: ParamShape, idx: nat, sql_name: Seq<char>, i: Seq<char>) -> Seq<
    text::Binding,
> {
    seq![
        ("i"@, i),
        ("idx"@, words::decimal(idx)),
        ("sql_name"@, sql_name),
        ("rust_ty"@, element_type(p)),
        ("arms"@, enum_texts(p, i).0),
        ("kebab_name"@, enum_texts(p, i).1),
        ("max"@, enum_texts(p, i).2),
    ]
}

/// What stands in front of the text that reads an argument and behind it. `last` tells that no
/// argument follows: a list of geometries then takes all values that are left.
pub open spec fn arg_frame(p: ParamShape, last: bool) -> (Seq<char>, Seq<char>) {
    match p {
        ParamShape::Geom => (t::ARG_GEOM@, t::ARG_RESOURCE_END@),
        ParamShape::Geog => (t::ARG_GEOG@, t::ARG_RESOURCE_END@),
        ParamShape::Raster => (t::ARG_RASTER@, t::ARG_RESOURCE_END@),
        ParamShape::Topology => (t::ARG_TOPOLOGY@, t::ARG_RESOURCE_END@),
        ParamShape::ListGeom => if last {
            (t::ARG_LIST_GEOM_REST@, t::ARG_LIST_GEOM_REST_END@)
        } else {
            (t::ARG_LIST_GEOM_ONE@, t::ARG_LIST_GEOM_ONE_END@)
        },
        ParamShape::Enum { .. } => (t::ARG_ENUM@, t::ARG_ENUM_END@),
        ParamShape::ListPrim(_) => (t::ARG_LIST@, values::narrowed(p)),
        ParamShape::ListTuple { .. } => (t::ARG_LIST@, values::narrowed(p)),
        ParamShape::ListListU8 => (t::ARG_LIST_LIST@, values::narrowed(p)),
        ParamShape::ListListPrim(_) => (t::ARG_LIST_LIST@, values::narrowed(p)),
        _ => (t::ARG_PLAIN@, values::narrowed(p)),
    }
}

fn pick_arg_frame(p: &ParamShape, last: bool) -> (r: (&'static str, &'static str))
    ensures
        (r.0@, r.1@) == arg_frame(*p, last),
{
    match p {
        ParamShape::Geom => (t::ARG_GEOM, t::ARG_RESOURCE_END),
        ParamShape::Geog => (t::ARG_GEOG, t::ARG_RESOURCE_END),
        ParamShape::Raster => (t::ARG_RASTER, t::ARG_RESOURCE_END),
        ParamShape::Topology => (t::ARG_TOPOLOGY, t::ARG_RESOURCE_END),
        ParamShape::ListGeom => if last {
            (t::ARG_LIST_GEOM_REST, t::ARG_LIST_GEOM_REST_END)
        } else {
            (t::ARG_LIST_GEOM_ONE, t::ARG_LIST_GEOM_ONE_END)
        },
        ParamShape::Enum { .. } => (t::ARG_ENUM, t::ARG_ENUM_END),
        ParamShape::ListPrim(_) => (t::ARG_LIST, values::pick_narrowed(p)),
        ParamShape::ListTuple { .. } => (t::ARG_LIST, values::pick_narrowed(p)),
        ParamShape::ListListU8 => (t::ARG_LIST_LIST, values::pick_narrowed(p)),
        ParamShape::ListListPrim(_) => (t::ARG_LIST_LIST, values::pick_narrowed(p)),
        _ => (t::ARG_PLAIN, values::pick_narrowed(p)),
    }
}

/// The text that reads an argument: a call of its reader, but for a list of geometries at the
/// end, which matches each value that is left.
pub open spec fn arg_reading(p: ParamShape, idx: nat, last: bool, sql_name: Seq<char>) -> Seq<char> {
    if p is ListGeom && last {
        values::variant(values::read_kind(p)) + "(b)"@
    } else {
        values::reader(p) + text::fill(
            t::ARG_READ@,
            seq![("idx"@, words::decimal(idx)), ("sql_name"@, sql_name)],
        )
    }
}

fn render_arg_reading(p: &ParamShape, idx: usize, last: bool, sql_name: &str) -> (r: String)
    ensures
        r@ == arg_reading(*p, idx as nat, last, sql_name@),
{
    let rest = match p {
        ParamShape::ListGeom => last,
        _ => false,
    };
    if rest {
        cat(values::pick_variant(values::pick_read_kind(p)), "(b)")
    } else {
        let n = decimal_usize(idx);
        let reader = values::render_reader(p);
        let read = fill2(t::ARG_READ, "idx", n.as_str(), "sql_name", sql_name);
        cat(reader.as_str(), read.as_str())
    }
}

/// The text that takes one argument out of the DuckDB values; one that is never given has none.
pub open spec fn arg_decl(
    p: ParamShape,
    idx: nat,
    last: bool,
    sql_name: Seq<char>,
    i: Seq<char>,
) -> Seq<char> {
    if p is OptionNone {
        Seq::empty()
    } else {
        text::fill(arg_frame(p, last).0, arg_holes(p, idx, sql_name, i)) + arg_reading(
            p,
            idx,
            last,
            sql_name,
        ) + text::fill(arg_frame(p, last).1, arg_holes(p, idx, sql_name, i))
    }
}

fn render_arg_decl(p: &ParamShape, idx: usize, last: bool, sql_name: &str, i: &str) -> (r: String)
    requires
        param_wired(*p),
    ensures
        r@ == arg_decl(*p, idx as nat, last, sql_name@, i@),
{
    if let ParamShape::OptionNone = p {
        return String::new();
    }
    let n = decimal_usize(idx);
    let rust_ty = render_element_type(p);
    let (arms, kebab_name, max) = render_enum_texts(p, i);
    let mut b: Vec<(&str, &str)> = Vec::new();
    b.push(("i", i));
    b.push(("idx", n.as_str()));
    b.push(("sql_name", sql_name));
    b.push(("rust_ty", rust_ty.as_str()));
    b.push(("arms", arms.as_str()));
    b.push(("kebab_name", kebab_name.as_str()));
    b.push(("max", max.as_str()));
    assert(text::bindings(b@) =~= arg_holes(*p, idx as nat, sql_name@, i@));
    let (before, after) = pick_arg_frame(p, last);
    let head = text::fill_with(before, &b);
    let reading = render_arg_reading(p, idx, last, sql_name);
    let tail = text::fill_with(after, &b);
    cat3(head.as_str(), reading.as_str(), tail.as_str())
}

/// The declarations of the first `n` arguments.
pub open spec fn arg_decls(params: Seq<ParamShape>, sql_name: Seq<char>, i: Seq<char>, n: nat) -> Seq<
    char,
>
    decreases n,
{
    if n == 0 {
        Seq::empty()
    } else {
        arg_decls(params, sql_name, i, (n - 1) as nat) + arg_decl(
            params[n - 1],
            (n - 1) as nat,
            n == params.len(),
            sql_name,
            i,
        )
    }
}

// ─── Calls ───

/// What is written behind a call that may fail: its error becomes an invalid-argument error.
pub open spec fn unwrap_chain(fallible: bool, sql_name: Seq<char>) -> Seq<char> {
    if fallible {
        text::fill(t::UNWRAP@, seq![("sql_name"@, sql_name)])
    } else {
        Seq::empty()
    }
}

fn render_unwrap_chain(fallible: bool, sql_name: &str) -> (r: String)
    ensures
        r@ == unwrap_chain(fallible, sql_name@),
{
    if fallible {
        fill1(t::UNWRAP, "sql_name", sql_name)
    } else {
        String::new()
    }
}

// ─── Results ───

/// Whether a scalar arm can be written for a result.
pub open spec fn ret_wired(ret: RetShape) -> bool {
    !(ret is OptionEnum)
}

/// What stands in front of the value of a result and behind it; `bare` tells that nothing is
/// written behind the call.
pub open spec fn result_frame(ret: RetShape, bare: bool) -> (Seq<char>, Seq<char>) {
    match ret {
        RetShape::GeomBlob
        | RetShape::RasterBlob
        | RetShape::TopologyBlob
        | RetShape::TopoGeometryViaGeom => if bare {
            (t::RET_PLAIN@, t::RET_PLAIN_END@)
        } else {
            (t::RET_BOUND@, t::RET_BOUND_END@)
        },
        RetShape::OptionText
        | RetShape::OptionReal
        | RetShape::OptionInt
        | RetShape::OptionBoolInt
        | RetShape::OptionBlob
        | RetShape::OptionGeomBlob
        | RetShape::OptionRasterBlob
        | RetShape::OptionTopologyBlob => (t::RET_OPTION@, t::RET_OPTION_END@),
        RetShape::FirstGeomBlob => (t::RET_FIRST_GEOM@, t::RET_FIRST_END@),
        RetShape::FirstRasterBlob => (t::RET_FIRST_RASTER@, t::RET_FIRST_END@),
        RetShape::FirstTopologyBlob => (t::RET_FIRST_TOPOLOGY@, t::RET_FIRST_END@),
        RetShape::FirstOptionU32Int => (t::RET_FIRST_OPTION@, t::RET_FIRST_OPTION_END@),
        RetShape::FirstInt | RetShape::FirstReal => (t::RET_FIRST@, t::RET_FIRST_END@),
        RetShape::FirstText => (t::RET_FIRST_TEXT@, t::RET_FIRST_END@),
        RetShape::BboxBlob => (t::RET_BBOX@, t::RET_BOUND_END@),
        RetShape::IsValidDetailText => (t::RET_IS_VALID_DETAIL@, t::RET_BOUND_END@),
        RetShape::Bbox3dWkbLineZ => (t::RET_BBOX3D@, t::RET_BOUND_END@),
        RetShape::ListBool | RetShape::ListListU8 => (t::RET_JSON@, t::RET_BOUND_END@),
        RetShape::Enum { .. } => (t::RET_ENUM@, t::RET_BOUND_END@),
        RetShape::TuplePick { .. } => (t::RET_BOUND@, t::RET_BOUND_END@),
        RetShape::JsonText { kind } => match kind {
            JsonRetKind::OptionTuplePrim => (t::RET_JSON_OPTION_TUPLE@, t::RET_JSON_OPTION_END@),
            JsonRetKind::OptionListPrimRecord => (
                t::RET_JSON_OPTION_LIST@,
                t::RET_JSON_OPTION_END@,
            ),
            JsonRetKind::ListTupleGeomF64 => (t::RET_JSON_GEOM_LIST@, t::RET_BOUND_END@),
            _ => (t::RET_JSON@, t::RET_BOUND_END@),
        },
        RetShape::WitValueRecord { .. } => (""@, ""@),
        RetShape::OptionWitValueRecord { .. } => (t::RET_OPTION_RECORD@, t::RET_OPTION_RECORD_END@),
        RetShape::FirstWitValueRecord { .. } => (t::RET_FIRST_RECORD@, t::RET_FIRST_RECORD_END@),
        _ => (t::RET_PLAIN@, t::RET_PLAIN_END@),
    }
}

fn pick_result_frame(ret: &RetShape, bare: bool) -> (r: (&'static str, &'static str))
    ensures
        (r.0@, r.1@) == result_frame(*ret, bare),
{
    match ret {
        RetShape::GeomBlob
        | RetShape::RasterBlob
        | RetShape::TopologyBlob
        | RetShape::TopoGeometryViaGeom => if bare {
            (t::RET_PLAIN, t::RET_PLAIN_END)
        } else {
            (t::RET_BOUND, t::RET_BOUND_END)
        },
        RetShape::OptionText
        | RetShape::OptionReal
        | RetShape::OptionInt
        | RetShape::OptionBoolInt
        | RetShape::OptionBlob
        | RetShape::OptionGeomBlob
        | RetShape::OptionRasterBlob
        | RetShape::OptionTopologyBlob => (t::RET_OPTION, t::RET_OPTION_END),
        RetShape::FirstGeomBlob => (t::RET_FIRST_GEOM, t::RET_FIRST_END),
        RetShape::FirstRasterBlob => (t::RET_FIRST_RASTER, t::RET_FIRST_END),
        RetShape::FirstTopologyBlob => (t::RET_FIRST_TOPOLOGY, t::RET_FIRST_END),
        RetShape::FirstOptionU32Int => (t::RET_FIRST_OPTION, t::RET_FIRST_OPTION_END),
        RetShape::FirstInt | RetShape::FirstReal => (t::RET_FIRST, t::RET_FIRST_END),
        RetShape::FirstText => (t::RET_FIRST_TEXT, t::RET_FIRST_END),
        RetShape::BboxBlob => (t::RET_BBOX, t::RET_BOUND_END),
        RetShape::IsValidDetailText => (t::RET_IS_VALID_DETAIL, t::RET_BOUND_END),
        RetShape::Bbox3dWkbLineZ => (t::RET_BBOX3D, t::RET_BOUND_END),
        RetShape::ListBool | RetShape::ListListU8 => (t::RET_JSON, t::RET_BOUND_END),
        RetShape::Enum { .. } => (t::RET_ENUM, t::RET_BOUND_END),
        RetShape::TuplePick { .. } => (t::RET_BOUND, t::RET_BOUND_END),
        RetShape::JsonText { kind } => match kind {
            JsonRetKind::OptionTuplePrim => (t::RET_JSON_OPTION_TUPLE, t::RET_JSON_OPTION_END),
            JsonRetKind::OptionListPrimRecord => (t::RET_JSON_OPTION_LIST, t::RET_JSON_OPTION_END),
            JsonRetKind::ListTupleGeomF64 => (t::RET_JSON_GEOM_LIST, t::RET_BOUND_END),
            _ => (t::RET_JSON, t::RET_BOUND_END),
        },
        RetShape::WitValueRecord { .. } => ("", ""),
        RetShape::OptionWitValueRecord { .. } => (t::RET_OPTION_RECORD, t::RET_OPTION_RECORD_END),
        RetShape::FirstWitValueRecord { .. } => (t::RET_FIRST_RECORD, t::RET_FIRST_RECORD_END),
        _ => (t::RET_PLAIN, t::RET_PLAIN_END),
    }
}

/// What the value of a result is made from.
pub open spec fn result_source(ret: RetShape, bare: bool) -> Seq<char> {
    match ret {
        RetShape::Text | RetShape::Blob => "({call_expr}{unwrap_chain}).into()"@,
        RetShape::Int => "{call_expr}{unwrap_chain} as i64"@,
        RetShape::GeomBlob => if bare {
            "{call_expr}.as_wkb().into()"@
        } else {
            "__r.as_wkb().into()"@
        },
        RetShape::RasterBlob => if bare {
            "{call_expr}.as_binary().into()"@
        } else {
            "__r.as_binary().into()"@
        },
        RetShape::TopologyBlob => if bare {
            "{call_expr}.to_bytes().into()"@
        } else {
            "__r.to_bytes().into()"@
        },
        RetShape::TopoGeometryViaGeom => if bare {
            "{call_expr}.geometry().as_wkb().into()"@
        } else {
            "__r.geometry().as_wkb().into()"@
        },
        RetShape::OptionText | RetShape::OptionBlob | RetShape::FirstText => "v.into()"@,
        RetShape::OptionReal => "v as f64"@,
        RetShape::OptionInt => "v as i64"@,
        RetShape::OptionBoolInt => "v"@,
        RetShape::OptionGeomBlob => "v.as_wkb().into()"@,
        RetShape::OptionRasterBlob => "v.as_binary().into()"@,
        RetShape::OptionTopologyBlob => "v.to_bytes().into()"@,
        RetShape::FirstGeomBlob => "g.as_wkb().into()"@,
        RetShape::FirstRasterBlob => "r.as_binary().into()"@,
        RetShape::FirstTopologyBlob => "t.to_bytes().into()"@,
        RetShape::FirstOptionU32Int | RetShape::FirstInt => "*v as i64"@,
        RetShape::FirstReal => "*v as f64"@,
        RetShape::BboxBlob => "__env.as_wkb().into()"@,
        RetShape::IsValidDetailText => t::RET_IS_VALID_DETAIL_VALUE@,
        RetShape::Bbox3dWkbLineZ => "__wkb"@,
        RetShape::ListBool | RetShape::ListListU8 => "__json"@,
        RetShape::Enum { .. } => "__disc"@,
        RetShape::TuplePick { .. } => "__r.{element}"@,
        RetShape::JsonText { kind } => match kind {
            JsonRetKind::ListTupleGeomF64 => "__out"@,
            _ => "__json"@,
        },
        RetShape::OptionWitValueRecord { .. } | RetShape::FirstWitValueRecord { .. } => "__rec"@,
        _ => "{call_expr}{unwrap_chain}"@,
    }
}

fn pick_result_source(ret: &RetShape, bare: bool) -> (r: &'static str)
    ensures
        r@ == result_source(*ret, bare),
{
    match ret {
        RetShape::Text | RetShape::Blob => "({call_expr}{unwrap_chain}).into()",
        RetShape::Int => "{call_expr}{unwrap_chain} as i64",
        RetShape::GeomBlob => if bare {
            "{call_expr}.as_wkb().into()"
        } else {
            "__r.as_wkb().into()"
        },
        RetShape::RasterBlob => if bare {
            "{call_expr}.as_binary().into()"
        } else {
            "__r.as_binary().into()"
        },
        RetShape::TopologyBlob => if bare {
            "{call_expr}.to_bytes().into()"
        } else {
            "__r.to_bytes().into()"
        },
        RetShape::TopoGeometryViaGeom => if bare {
            "{call_expr}.geometry().as_wkb().into()"
        } else {
            "__r.geometry().as_wkb().into()"
        },
        RetShape::OptionText | RetShape::OptionBlob | RetShape::FirstText => "v.into()",
        RetShape::OptionReal => "v as f64",
        RetShape::OptionInt => "v as i64",
        RetShape::OptionBoolInt => "v",
        RetShape::OptionGeomBlob => "v.as_wkb().into()",
        RetShape::OptionRasterBlob => "v.as_binary().into()",
        RetShape::OptionTopologyBlob => "v.to_bytes().into()",
        RetShape::FirstGeomBlob => "g.as_wkb().into()",
        RetShape::FirstRasterBlob => "r.as_binary().into()",
        RetShape::FirstTopologyBlob => "t.to_bytes().into()",
        RetShape::FirstOptionU32Int | RetShape::FirstInt => "*v as i64",
        RetShape::FirstReal => "*v as f64",
        RetShape::BboxBlob => "__env.as_wkb().into()",
        RetShape::IsValidDetailText => t::RET_IS_VALID_DETAIL_VALUE,
        RetShape::Bbox3dWkbLineZ => "__wkb",
        RetShape::ListBool | RetShape::ListListU8 => "__json",
        RetShape::Enum { .. } => "__disc",
        RetShape::TuplePick { .. } => "__r.{element}",
        RetShape::JsonText { kind } => match kind {
            JsonRetKind::ListTupleGeomF64 => "__out",
            _ => "__json",
        },
        RetShape::OptionWitValueRecord { .. } | RetShape::FirstWitValueRecord { .. } => "__rec",
        _ => "{call_expr}{unwrap_chain}",
    }
}

/// The conversion behind an element of a tuple.
pub open spec fn element_conversion(elem: ListPrimElem) -> Seq<char> {
    match values::element_kind(elem) {
        ValueKind::Float64 => " as f64"@,
        ValueKind::Text => ".into()"@,
        ValueKind::Boolean => ""@,
        _ => " as i64"@,
    }
}

/// What the texts about a result say of an enum, the arms to the numbers of its cases, and of
/// an element of a tuple, its position and conversion.
pub open spec fn result_texts(ret: RetShape, i: Seq<char>) -> (Seq<char>, Seq<char>) {
    match ret {
        RetShape::Enum { wit_module, wit_package, kebab_name, cases } => (
            calls::case_arms(i, wit_module@, kebab_name@, cases@, cases@.len()),
            Seq::empty(),
        ),
        RetShape::TuplePick { index, elem } => (
            Seq::empty(),
            words::decimal(index as nat) + element_conversion(elem),
        ),
        _ => (Seq::empty(), Seq::empty()),
    }
}

fn render_result_texts(ret: &RetShape, i: &str) -> (r: (String, String))
    ensures
        (r.0@, r.1@) == result_texts(*ret, i@),
{
    match ret {
        RetShape::Enum { wit_module, wit_package: _, kebab_name, cases } => {
            let arms = calls::render_case_arms(i, wit_module.as_str(), kebab_name.as_str(), cases);
            (arms, String::new())
        },
        RetShape::TuplePick { index, elem } => {
            let number = decimal_usize(*index);
            let conversion = match values::pick_element_kind(elem) {
                ValueKind::Float64 => " as f64",
                ValueKind::Text => ".into()",
                ValueKind::Boolean => "",
                _ => " as i64",
            };
            (String::new(), cat(number.as_str(), conversion))
        },
        _ => (String::new(), String::new()),
    }
}

/// The holes of the texts about a result.
pub open spec fn result_holes(
    ret: RetShape,
    call: Seq<char>,
    chain: Seq<char>,
    sql_name: Seq<char>,
    i: Seq<char>,
) -> Seq<text::Binding> {
    seq![
        ("i"@, i),
        ("call_expr"@, call),
        ("unwrap_chain"@, chain),
        ("sql_name"@, sql_name),
        ("arms"@, result_texts(ret, i).0),
        ("element"@, result_texts(ret, i).1),
    ]
}

/// The value that a result becomes where it is not null.
pub open spec fn result_value(
    ret: RetShape,
    call: Seq<char>,
    chain: Seq<char>,
    sql_name: Seq<char>,
    i: Seq<char>,
) -> Seq<char> {
    values::maker(ret) + "("@ + text::fill(
        result_source(ret, chain.len() == 0),
        result_holes(ret, call, chain, sql_name, i),
    ) + ")"@
}

/// The expression that turns the result of `call` into a DuckDB value; `chain` is what stands
/// behind the call. A call without a result gives null.
pub open spec fn return_expr(
    ret: RetShape,
    call: Seq<char>,
    chain: Seq<char>,
    sql_name: Seq<char>,
    i: Seq<char>,
) -> Seq<char> {
    let holes = result_holes(ret, call, chain, sql_name, i);
    let frame = result_frame(ret, chain.len() == 0);
    if ret is Unit {
        text::fill(t::RET_UNIT@, holes)
    } else {
        text::fill(frame.0, holes) + result_value(ret, call, chain, sql_name, i) + text::fill(
            frame.1,
            holes,
        )
    }
}

/// Writes the expression that turns the result of `call` into a DuckDB value.
pub fn render_return_expr(
    ret: &RetShape,
    call: &str,
    chain: &str,
    sql_name: &str,
    i: &str,
) -> (r: String)
    requires
        ret_wired(*ret),
    ensures
        r@ == return_expr(*ret, call@, chain@, sql_name@, i@),
{
    let (arms, element) = render_result_texts(ret, i);
    let mut b: Vec<(&str, &str)> = Vec::new();
    b.push(("i", i));
    b.push(("call_expr", call));
    b.push(("unwrap_chain", chain));
    b.push(("sql_name", sql_name));
    b.push(("arms", arms.as_str()));
    b.push(("element", element.as_str()));
    assert(text::bindings(b@) =~= result_holes(*ret, call@, chain@, sql_name@, i@));
    if let RetShape::Unit = ret {
        return text::fill_with(t::RET_UNIT, &b);
    }
    let bare = chain.is_empty();
    let (before, after) = pick_result_frame(ret, bare);
    let head = text::fill_with(before, &b);
    let mut value = values::render_maker(ret);
    value.append("(");
    let source = text::fill_with(pick_result_source(ret, bare), &b);
    value.append(source.as_str());
    value.append(")");
    let tail = text::fill_with(after, &b);
    cat3(head.as_str(), value.as_str(), tail.as_str())
}

// ─── Scalars ───

/// Whether a scalar arm can be written for a function.
pub open spec fn scalar_wired(shape: DispatchShape) -> bool {
    params_wired(shape.params@) && ret_wired(shape.ret)
}

/// The body of a scalar arm: the declarations of all arguments, then one line with the
/// expression of the result.
pub open spec fn scalar_arm_body(
    shape: DispatchShape,
    fallible: bool,
    sql_name: Seq<char>,
    i: Seq<char>,
) -> Seq<char> {
    (arg_decls(shape.params@, sql_name, i, shape.params@.len()) + i + return_expr(
        shape.ret,
        calls::call_expr(shape),
        unwrap_chain(fallible, sql_name),
        sql_name,
        i,
    )).push('\n')
}

/// Writes the body of a scalar arm. `fallible` tells that the function returns a result whose
/// error is to be handed on; `sql_name` stands in error texts, and each line is indented by
/// `arm_indent`.
pub fn emit_scalar_arm_body(
    shape: &DispatchShape,
    fallible: bool,
    sql_name: &str,
    arm_indent: &str,
) -> (r: String)
    requires
        scalar_wired(*shape),
    ensures
        r@ == scalar_arm_body(*shape, fallible, sql_name@, arm_indent@),
{
    let mut s = String::new();
    let mut idx: usize = 0;
    while idx < shape.params.len()
        invariant
            idx <= shape.params@.len(),
            params_wired(shape.params@),
            s@ == arg_decls(shape.params@, sql_name@, arm_indent@, idx as nat),
        decreases shape.params.len() - idx,
    {
        let last = idx + 1 == shape.params.len();
        let decl = render_arg_decl(&shape.params[idx], idx, last, sql_name, arm_indent);
        s.append(decl.as_str());
        idx = idx + 1;
    }
    let call = calls::render_call_expr(shape);
    let chain = render_unwrap_chain(fallible, sql_name);
    let ret = render_return_expr(&shape.ret, call.as_str(), chain.as_str(), sql_name, arm_indent);
    s.append(arm_indent);
    s.append(ret.as_str());
    s.push('\n');
    s
}

// ─── Extra arguments ───

/// The text that takes one extra argument out of the latched values: nothing for one that is
/// never given, and for shapes that aggregates do not take.
pub open spec fn extra_decl(p: ParamShape, j: nat, sql_name: Seq<char>, i: Seq<char>) -> Seq<char> {
    if p is OptionNone || !calls::extra_wired(p) {
        Seq::empty()
    } else {
        text::fill(t::EXTRA@, seq![("i"@, i), ("j"@, words::decimal(j))]) + extra_reading(
            p,
            j,
            sql_name,
        ) + values::narrowed(p)
    }
}

/// The text that reads one extra argument of an aggregate.
pub open spec fn extra_reading(p: ParamShape, j: nat, sql_name: Seq<char>) -> Seq<char> {
    values::reader(p) + text::fill(
        t::EXTRA_READ@,
        seq![("j"@, words::decimal(j)), ("sql_name"@, sql_name)],
    )
}

fn render_extra_decl(p: &ParamShape, j: usize, sql_name: &str, i: &str) -> (r: String)
    ensures
        r@ == extra_decl(*p, j as nat, sql_name@, i@),
{
    if let ParamShape::OptionNone = p {
        return String::new();
    }
    if !calls::is_extra_wired(p) {
        return String::new();
    }
    let number = decimal_usize(j);
    let head = fill2(t::EXTRA, "i", i, "j", number.as_str());
    let reader = values::render_reader(p);
    let read = fill2(t::EXTRA_READ, "j", number.as_str(), "sql_name", sql_name);
    let reading = cat(reader.as_str(), read.as_str());
    cat3(head.as_str(), reading.as_str(), values::pick_narrowed(p))
}

/// The declarations of the first `n` extra arguments.
pub open spec fn extra_decls(extras: Seq<ParamShape>, sql_name: Seq<char>, i: Seq<char>, n: nat) -> Seq<
    char,
>
    decreases n,
{
    if n == 0 {
        Seq::empty()
    } else {
        extra_decls(extras, sql_name, i, (n - 1) as nat) + extra_decl(
            extras[n - 1],
            (n - 1) as nat,
            sql_name,
            i,
        )
    }
}

/// The text that takes the extra arguments out of the latched values: nothing where there are
/// none.
pub open spec fn extras_text(extras: Seq<ParamShape>, sql_name: Seq<char>, i: Seq<char>) -> Seq<char> {
    if extras.len() == 0 {
        Seq::empty()
    } else {
        text::fill(t::AGG_EXTRAS_TAKE@, seq![("i"@, i)]) + extra_decls(
            extras,
            sql_name,
            i,
            extras.len(),
        )
    }
}

fn render_extras(extras: &Vec<ParamShape>, sql_name: &str, i: &str) -> (r: String)
    ensures
        r@ == extras_text(extras@, sql_name@, i@),
{
    if extras.len() == 0 {
        return String::new();
    }
    let mut decls = String::new();
    let mut j: usize = 0;
    while j < extras.len()
        invariant
            j <= extras@.len(),
            decls@ == extra_decls(extras@, sql_name@, i@, j as nat),
        decreases extras.len() - j,
    {
        let decl = render_extra_decl(&extras[j], j, sql_name, i);
        decls.append(decl.as_str());
        j = j + 1;
    }
    let take = fill1(t::AGG_EXTRAS_TAKE, "i", i);
    cat(take.as_str(), decls.as_str())
}

/// A text written only where there are extra arguments.
pub open spec fn where_extras(template: Seq<char>, extras: Seq<ParamShape>, i: Seq<char>) -> Seq<
    char,
> {
    if extras.len() == 0 {
        Seq::empty()
    } else {
        text::fill(template, seq![("i"@, i)])
    }
}

fn render_where_extras(template: &str, extras: &Vec<ParamShape>, i: &str) -> (r: String)
    ensures
        r@ == where_extras(template@, extras@, i@),
{
    if extras.len() == 0 {
        String::new()
    } else {
        fill1(template, "i", i)
    }
}

/// The arm of an aggregate whose extra argument at `j` is of a shape that aggregates do not
/// take: an error that names it.
pub open spec fn unwired_extra_body(j: nat, sql_name: Seq<char>, i: Seq<char>) -> Seq<char> {
    text::fill(
        t::EXTRA_UNWIRED@,
        seq![("i"@, i), ("j"@, words::decimal(j)), ("sql_name"@, sql_name)],
    )
}

fn render_unwired_extra(j: usize, sql_name: &str, i: &str) -> (r: String)
    ensures
        r@ == unwired_extra_body(j as nat, sql_name@, i@),
{
    let number = decimal_usize(j);
    fill3(t::EXTRA_UNWIRED, "i", i, "j", number.as_str(), "sql_name", sql_name)
}

// ─── Aggregates ───

/// The holes of the text that calls an aggregate.
pub open spec fn aggregate_call_holes(
    shape: AggregateShape,
    acc: Seq<char>,
    sql_name: Seq<char>,
    i: Seq<char>,
) -> Seq<text::Binding> {
    seq![
        ("i"@, i),
        ("module"@, shape.wit_module@),
        ("func"@, shape.wit_func@),
        ("call_args"@, calls::accumulated_args(acc, shape.extra_args@)),
        ("sql_name"@, sql_name),
    ]
}

/// Whether the result of an aggregate of geometries or rasters can be turned into a value.
pub open spec fn aggregate_ret_wired(ret: RetShape) -> bool {
    match ret {
        RetShape::GeomBlob => true,
        RetShape::RasterBlob => true,
        RetShape::FirstGeomBlob => true,
        RetShape::FirstOptionU32Int => true,
        RetShape::Bbox3dWkbLineZ => true,
        _ => false,
    }
}

/// What stands in front of the value of an aggregate's result, what the value is made from, and
/// what stands behind it. A result that cannot be turned into a value is an error.
pub open spec fn aggregate_ret_texts(ret: RetShape) -> (Seq<char>, Seq<char>, Seq<char>) {
    match ret {
        RetShape::GeomBlob => (t::AGG_RET_GEOM@, "r.as_wkb()"@, ")"@),
        RetShape::RasterBlob => (t::AGG_RET_RASTER@, "r.as_binary()"@, ")"@),
        RetShape::FirstGeomBlob => (
            t::AGG_RET_FIRST_GEOM@,
            "g.as_wkb()"@,
            t::AGG_RET_FIRST_GEOM_END@,
        ),
        RetShape::FirstOptionU32Int => (
            t::AGG_RET_FIRST_OPTION@,
            "*v as i64"@,
            t::AGG_RET_FIRST_OPTION_END@,
        ),
        RetShape::Bbox3dWkbLineZ => (t::AGG_RET_BBOX3D@, "__wkb"@, ")"@),
        _ => (t::AGG_RET_UNWIRED@, ""@, ""@),
    }
}

fn pick_aggregate_ret_texts(ret: &RetShape) -> (r: (
    bool,
    (&'static str, &'static str, &'static str),
))
    ensures
        r.0 == aggregate_ret_wired(*ret),
        (r.1.0@, r.1.1@, r.1.2@) == aggregate_ret_texts(*ret),
{
    match ret {
        RetShape::GeomBlob => (true, (t::AGG_RET_GEOM, "r.as_wkb()", ")")),
        RetShape::RasterBlob => (true, (t::AGG_RET_RASTER, "r.as_binary()", ")")),
        RetShape::FirstGeomBlob => (
            true,
            (t::AGG_RET_FIRST_GEOM, "g.as_wkb()", t::AGG_RET_FIRST_GEOM_END),
        ),
        RetShape::FirstOptionU32Int => (
            true,
            (t::AGG_RET_FIRST_OPTION, "*v as i64", t::AGG_RET_FIRST_OPTION_END),
        ),
        RetShape::Bbox3dWkbLineZ => (true, (t::AGG_RET_BBOX3D, "__wkb", ")")),
        _ => (false, (t::AGG_RET_UNWIRED, "", "")),
    }
}

/// The text that calls an aggregate of geometries or rasters and turns its result into a
/// DuckDB value.
pub open spec fn aggregate_return(
    shape: AggregateShape,
    acc: Seq<char>,
    sql_name: Seq<char>,
    i: Seq<char>,
) -> Seq<char> {
    let holes = aggregate_call_holes(shape, acc, sql_name, i);
    let texts = aggregate_ret_texts(shape.ret);
    if aggregate_ret_wired(shape.ret) {
        text::fill(texts.0, holes) + values::made(values::made_kind(shape.ret), texts.1)
            + text::fill(texts.2, holes)
    } else {
        text::fill(texts.0, holes)
    }
}

fn render_aggregate_return(shape: &AggregateShape, acc: &str, sql_name: &str, i: &str) -> (r: String)
    ensures
        r@ == aggregate_return(*shape, acc@, sql_name@, i@),
{
    let args = calls::render_accumulated_args(acc, &shape.extra_args);
    let mut b: Vec<(&str, &str)> = Vec::new();
    b.push(("i", i));
    b.push(("module", shape.wit_module.as_str()));
    b.push(("func", shape.wit_func.as_str()));
    b.push(("call_args", args.as_str()));
    b.push(("sql_name", sql_name));
    assert(text::bindings(b@) =~= aggregate_call_holes(*shape, acc@, sql_name@, i@));
    let (wired, texts) = pick_aggregate_ret_texts(&shape.ret);
    let head = text::fill_with(texts.0, &b);
    if !wired {
        return head;
    }
    let value = values::render_made(values::pick_made_kind(&shape.ret), texts.1);
    let tail = text::fill_with(texts.2, &b);
    cat3(head.as_str(), value.as_str(), tail.as_str())
}

/// The text that decodes the accumulated blobs.
pub open spec fn decode_text(raster: bool, sql_name: Seq<char>, i: Seq<char>) -> Seq<char> {
    if raster {
        text::fill(
            t::AGG_DECODE_RASTER@,
            seq![
                ("i"@, i),
                ("resource_ty"@, "Raster"@),
                (
                    "decode_call"@,
                    "from_raster_binary(b.as_slice(), \""@ + sql_name + "\")"@,
                ),
            ],
        )
    } else {
        text::fill(
            t::AGG_DECODE_GEOM@,
            seq![
                ("i"@, i),
                ("resource_ty"@, "Geometry"@),
                ("decode_call"@, "Geometry::from_wkb(b)"@),
                ("err_helper"@, "postgis_err_string"@),
                ("sql_name"@, sql_name),
            ],
        )
    }
}

fn render_decode(raster: bool, sql_name: &str, i: &str) -> (r: String)
    ensures
        r@ == decode_text(raster, sql_name@, i@),
{
    if raster {
        let call = cat3("from_raster_binary(b.as_slice(), \"", sql_name, "\")");
        fill3(
            t::AGG_DECODE_RASTER,
            "i",
            i,
            "resource_ty",
            "Raster",
            "decode_call",
            call.as_str(),
        )
    } else {
        fill5(
            t::AGG_DECODE_GEOM,
            "i",
            i,
            "resource_ty",
            "Geometry",
            "decode_call",
            "Geometry::from_wkb(b)",
            "err_helper",
            "postgis_err_string",
            "sql_name",
            sql_name,
        )
    }
}

/// The arm of an aggregate of geometries or rasters: gather the blobs of the rows that are
/// not null, decode them, take the extra arguments, call.
pub open spec fn resource_aggregate_body(
    shape: AggregateShape,
    raster: bool,
    sql_name: Seq<char>,
    i: Seq<char>,
) -> Seq<char> {
    let extras = shape.extra_args@;
    where_extras(t::AGG_EXTRAS_DECL@, extras, i) + text::fill(
        t::AGG_BLOBS@,
        seq![
            ("i"@, i),
            ("sql_name"@, sql_name),
            ("extras_latch"@, where_extras(t::AGG_EXTRAS_LATCH@, extras, i)),
        ],
    ) + decode_text(raster, sql_name, i) + extras_text(extras, sql_name, i) + aggregate_return(
        shape,
        "&refs"@,
        sql_name,
        i,
    )
}

fn render_resource_aggregate(shape: &AggregateShape, raster: bool, sql_name: &str, i: &str) -> (r:
    String)
    ensures
        r@ == resource_aggregate_body(*shape, raster, sql_name@, i@),
{
    let mut s = render_where_extras(t::AGG_EXTRAS_DECL, &shape.extra_args, i);
    let latch = render_where_extras(t::AGG_EXTRAS_LATCH, &shape.extra_args, i);
    let blobs = fill3(t::AGG_BLOBS, "i", i, "sql_name", sql_name, "extras_latch", latch.as_str());
    s.append(blobs.as_str());
    let decode = render_decode(raster, sql_name, i);
    s.append(decode.as_str());
    let extras = render_extras(&shape.extra_args, sql_name, i);
    s.append(extras.as_str());
    let call = render_aggregate_return(shape, "&refs", sql_name, i);
    s.append(call.as_str());
    s
}

/// The arm of an aggregate from records to a record: none takes extra arguments.
pub open spec fn record_aggregate_body(
    shape: AggregateShape,
    input: Seq<char>,
    output: Seq<char>,
    sql_name: Seq<char>,
    i: Seq<char>,
) -> Seq<char> {
    if shape.extra_args@.len() > 0 {
        text::fill(t::AGG_RECORD_EXTRAS_UNWIRED@, seq![("i"@, i), ("sql_name"@, sql_name)])
    } else {
        text::fill(
            t::AGG_RECORD_ROWS@,
            seq![("i"@, i), ("in_snake"@, words::snake(input)), ("sql_name"@, sql_name)],
        ) + text::fill(
            t::AGG_RECORD_CALL@,
            seq![
                ("i"@, i),
                ("module"@, shape.wit_module@),
                ("func"@, shape.wit_func@),
                ("out_snake"@, words::snake(output)),
            ],
        )
    }
}

fn emit_aggregate_arm_body_record(
    shape: &AggregateShape,
    input: &str,
    output: &str,
    sql_name: &str,
    i: &str,
) -> (r: String)
    ensures
        r@ == record_aggregate_body(*shape, input@, output@, sql_name@, i@),
{
    if shape.extra_args.len() > 0 {
        return fill2(t::AGG_RECORD_EXTRAS_UNWIRED, "i", i, "sql_name", sql_name);
    }
    let in_snake = to_snake(input);
    let out_snake = to_snake(output);
    let rows = fill3(
        t::AGG_RECORD_ROWS,
        "i",
        i,
        "in_snake",
        in_snake.as_str(),
        "sql_name",
        sql_name,
    );
    let call = fill4(
        t::AGG_RECORD_CALL,
        "i",
        i,
        "module",
        shape.wit_module.as_str(),
        "func",
        shape.wit_func.as_str(),
        "out_snake",
        out_snake.as_str(),
    );
    cat(rows.as_str(), call.as_str())
}

/// The text that decodes the records of the rows that are not null and takes the extra
/// arguments.
pub open spec fn record_rows_text(
    shape: AggregateShape,
    input: Seq<char>,
    sql_name: Seq<char>,
    i: Seq<char>,
) -> Seq<char> {
    let extras = shape.extra_args@;
    where_extras(t::AGG_EXTRAS_DECL@, extras, i) + text::fill(
        t::AGG_ROWS@,
        seq![
            ("i"@, i),
            ("in_snake"@, words::snake(input)),
            ("sql_name"@, sql_name),
            ("extras_latch"@, where_extras(t::AGG_EXTRAS_LATCH@, extras, i)),
        ],
    ) + extras_text(extras, sql_name, i)
}

fn render_record_rows(shape: &AggregateShape, input: &str, sql_name: &str, i: &str) -> (r: String)
    ensures
        r@ == record_rows_text(*shape, input@, sql_name@, i@),
{
    let mut s = render_where_extras(t::AGG_EXTRAS_DECL, &shape.extra_args, i);
    let latch = render_where_extras(t::AGG_EXTRAS_LATCH, &shape.extra_args, i);
    let in_snake = to_snake(input);
    let rows = fill4(
        t::AGG_ROWS,
        "i",
        i,
        "in_snake",
        in_snake.as_str(),
        "sql_name",
        sql_name,
        "extras_latch",
        latch.as_str(),
    );
    s.append(rows.as_str());
    let extras = render_extras(&shape.extra_args, sql_name, i);
    s.append(extras.as_str());
    s
}

/// The DuckDB value made of a primitive that is called `v`.
pub open spec fn some_wrap(output: ScalarReturnKind) -> Seq<char> {
    match output {
        ScalarReturnKind::F64 | ScalarReturnKind::F32 => "types::Duckvalue::Float64(v as f64)"@,
        ScalarReturnKind::Bool => "types::Duckvalue::Boolean(v)"@,
        _ => "types::Duckvalue::Int64(v as i64)"@,
    }
}

/// The expression that turns the primitive that an aggregate returned into a DuckDB value; an
/// optional one that is absent becomes null.
pub open spec fn scalar_wrap(output: ScalarReturnKind, optional: bool) -> Seq<char> {
    if optional {
        text::fill(t::AGG_OPTIONAL_WRAP@, seq![("some_wrap"@, some_wrap(output))])
    } else {
        match output {
            ScalarReturnKind::F64
            | ScalarReturnKind::F32 => "Ok(types::Duckvalue::Float64(__r as f64))"@,
            ScalarReturnKind::Bool => "Ok(types::Duckvalue::Boolean(__r))"@,
            _ => "Ok(types::Duckvalue::Int64(__r as i64))"@,
        }
    }
}

fn render_scalar_wrap(output: ScalarReturnKind, optional: bool) -> (r: String)
    ensures
        r@ == scalar_wrap(output, optional),
{
    if optional {
        let some = match output {
            ScalarReturnKind::F64 | ScalarReturnKind::F32 => "types::Duckvalue::Float64(v as f64)",
            ScalarReturnKind::Bool => "types::Duckvalue::Boolean(v)",
            _ => "types::Duckvalue::Int64(v as i64)",
        };
        fill1(t::AGG_OPTIONAL_WRAP, "some_wrap", some)
    } else {
        match output {
            ScalarReturnKind::F64 | ScalarReturnKind::F32 => {
                "Ok(types::Duckvalue::Float64(__r as f64))".to_owned()
            },
            ScalarReturnKind::Bool => "Ok(types::Duckvalue::Boolean(__r))".to_owned(),
            _ => "Ok(types::Duckvalue::Int64(__r as i64))".to_owned(),
        }
    }
}

/// The arm of an aggregate from records to a primitive.
pub open spec fn record_to_scalar_body(
    shape: AggregateShape,
    input: Seq<char>,
    output: ScalarReturnKind,
    optional: bool,
    sql_name: Seq<char>,
    i: Seq<char>,
) -> Seq<char> {
    record_rows_text(shape, input, sql_name, i) + text::fill(
        t::AGG_SCALAR_CALL@,
        seq![
            ("i"@, i),
            ("module"@, shape.wit_module@),
            ("func"@, shape.wit_func@),
            ("call_args"@, calls::accumulated_args("&upstream_vec"@, shape.extra_args@)),
            ("wrap"@, scalar_wrap(output, optional)),
        ],
    )
}

fn emit_aggregate_arm_body_record_to_scalar(
    shape: &AggregateShape,
    input: &str,
    output: ScalarReturnKind,
    optional: bool,
    sql_name: &str,
    i: &str,
) -> (r: String)
    ensures
        r@ == record_to_scalar_body(*shape, input@, output, optional, sql_name@, i@),
{
    let rows = render_record_rows(shape, input, sql_name, i);
    let args = calls::render_accumulated_args("&upstream_vec", &shape.extra_args);
    let wrap = render_scalar_wrap(output, optional);
    let call = fill5(
        t::AGG_SCALAR_CALL,
        "i",
        i,
        "module",
        shape.wit_module.as_str(),
        "func",
        shape.wit_func.as_str(),
        "call_args",
        args.as_str(),
        "wrap",
        wrap.as_str(),
    );
    cat(rows.as_str(), call.as_str())
}

/// The arm of an aggregate from records to a tuple, which becomes a JSON array; an optional
/// one that is absent becomes null.
pub open spec fn record_to_tuple_body(
    shape: AggregateShape,
    input: Seq<char>,
    optional: bool,
    sql_name: Seq<char>,
    i: Seq<char>,
) -> Seq<char> {
    record_rows_text(shape, input, sql_name, i) + text::fill(
        t::AGG_TUPLE_CALL@,
        seq![
            ("i"@, i),
            ("module"@, shape.wit_module@),
            ("func"@, shape.wit_func@),
            ("call_args"@, calls::accumulated_args("&upstream_vec"@, shape.extra_args@)),
            (
                "body"@,
                text::fill(
                    if optional {
                        t::AGG_TUPLE_OPTIONAL@
                    } else {
                        t::AGG_TUPLE@
                    },
                    seq![("i"@, i), ("sql_name"@, sql_name)],
                ),
            ),
        ],
    )
}

fn emit_aggregate_arm_body_record_to_tuple(
    shape: &AggregateShape,
    input: &str,
    optional: bool,
    sql_name: &str,
    i: &str,
) -> (r: String)
    ensures
        r@ == record_to_tuple_body(*shape, input@, optional, sql_name@, i@),
{
    let rows = render_record_rows(shape, input, sql_name, i);
    let args = calls::render_accumulated_args("&upstream_vec", &shape.extra_args);
    let template = if optional {
        t::AGG_TUPLE_OPTIONAL
    } else {
        t::AGG_TUPLE
    };
    let body = fill2(template, "i", i, "sql_name", sql_name);
    let call = fill5(
        t::AGG_TUPLE_CALL,
        "i",
        i,
        "module",
        shape.wit_module.as_str(),
        "func",
        shape.wit_func.as_str(),
        "call_args",
        args.as_str(),
        "body",
        body.as_str(),
    );
    cat(rows.as_str(), call.as_str())
}

/// Whether an arm can be written for an aggregate.
pub open spec fn aggregate_wired(shape: AggregateShape) -> bool {
    !(shape.accumulator_kind is RecordToListPrim) && !(
    shape.accumulator_kind is RecordSetToRecordSet)
}

/// The arm of an aggregate. Extra arguments of a shape that aggregates do not take turn the
/// whole arm into an error that names the first of them.
pub open spec fn aggregate_arm_body(shape: AggregateShape, sql_name: Seq<char>, i: Seq<char>) -> Seq<
    char,
> {
    let j = calls::unwired_extra_from(shape.extra_args@, 0);
    match shape.accumulator_kind {
        AccKind::Record { input, output } => record_aggregate_body(
            shape,
            input.kebab_name@,
            output.kebab_name@,
            sql_name,
            i,
        ),
        AccKind::RecordToScalar { input, output, optional } => if j < shape.extra_args@.len() {
            unwired_extra_body(j as nat, sql_name, i)
        } else {
            record_to_scalar_body(shape, input.kebab_name@, output, optional, sql_name, i)
        },
        AccKind::RecordToTuple { input, optional } => if j < shape.extra_args@.len() {
            unwired_extra_body(j as nat, sql_name, i)
        } else {
            record_to_tuple_body(shape, input.kebab_name@, optional, sql_name, i)
        },
        _ => if j < shape.extra_args@.len() {
            unwired_extra_body(j as nat, sql_name, i)
        } else {
            resource_aggregate_body(shape, shape.accumulator_kind is Raster, sql_name, i)
        },
    }
}

/// Writes the arm of an aggregate, which gets all rows of a group at once: the first column
/// is what is accumulated, the others hold the extra arguments, the same in each row.
pub fn emit_aggregate_arm_body(shape: &AggregateShape, sql_name: &str, arm_indent: &str) -> (r:
    String)
    requires
        aggregate_wired(*shape),
    ensures
        r@ == aggregate_arm_body(*shape, sql_name@, arm_indent@),
{
    if let AccKind::Record { input, output } = &shape.accumulator_kind {
        return emit_aggregate_arm_body_record(
            shape,
            input.kebab_name.as_str(),
            output.kebab_name.as_str(),
            sql_name,
            arm_indent,
        );
    }
    let j = calls::find_unwired_extra(&shape.extra_args);
    if j < shape.extra_args.len() {
        return render_unwired_extra(j, sql_name, arm_indent);
    }
    match &shape.accumulator_kind {
        AccKind::RecordToScalar { input, output, optional } => {
            emit_aggregate_arm_body_record_to_scalar(
                shape,
                input.kebab_name.as_str(),
                *output,
                *optional,
                sql_name,
                arm_indent,
            )
        },
        AccKind::RecordToTuple { input, optional } => emit_aggregate_arm_body_record_to_tuple(
            shape,
            input.kebab_name.as_str(),
            *optional,
            sql_name,
            arm_indent,
        ),
        AccKind::Raster => render_resource_aggregate(shape, true, sql_name, arm_indent),
        _ => render_resource_aggregate(shape, false, sql_name, arm_indent),
    }
}

// ─── Table functions ───

/// What a table function calls a parameter that is a list, which it does not take.
pub open spec fn list_name(p: ParamShape) -> Option<Seq<char>> {
    match p {
        ParamShape::ListGeom => Some("list<geometry>"@),
        ParamShape::ListRecord { .. } => Some("list<record>"@),
        ParamShape::ListTuple { .. } => Some("list<tuple>"@),
        ParamShape::ListPrim(_) => Some("list<primitive>"@),
        ParamShape::ListListU8 => Some("list<list<u8>>"@),
        ParamShape::ListListPrim(_) => Some("list<list<primitive>>"@),
        _ => None,
    }
}

fn name_list(p: &ParamShape) -> (r: Option<&'static str>)
    ensures
        r is Some == list_name(*p) is Some,
        r matches Some(name) ==> list_name(*p) == Some(name@),
{
    match p {
        ParamShape::ListGeom => Some("list<geometry>"),
        ParamShape::ListRecord { .. } => Some("list<record>"),
        ParamShape::ListTuple { .. } => Some("list<tuple>"),
        ParamShape::ListPrim(_) => Some("list<primitive>"),
        ParamShape::ListListU8 => Some("list<list<u8>>"),
        ParamShape::ListListPrim(_) => Some("list<list<primitive>>"),
        _ => None,
    }
}

/// The position of the first list among the parameters, at `k` or later, or their number.
pub open spec fn first_list_from(params: Seq<ParamShape>, k: int) -> int
    decreases params.len() - k,
{
    if k >= params.len() || list_name(params[k]) is Some {
        k
    } else {
        first_list_from(params, k + 1)
    }
}

/// The declarations of the first `n` arguments of a table function: a list becomes an error.
pub open spec fn udtf_decls(params: Seq<ParamShape>, sql_name: Seq<char>, i: Seq<char>, n: nat) -> Seq<
    char,
>
    decreases n,
{
    if n == 0 {
        Seq::empty()
    } else {
        udtf_decls(params, sql_name, i, (n - 1) as nat) + if list_name(params[n - 1]) is Some {
            text::fill(t::UDTF_LIST_UNWIRED@, seq![("i"@, i), ("sql_name"@, sql_name)])
        } else {
            arg_decl(params[n - 1], (n - 1) as nat, false, sql_name, i)
        }
    }
}

/// The expressions that hand the first `n` arguments to a table function, as to a scalar: no
/// expression hands a list on.
pub open spec fn udtf_call_args(params: Seq<ParamShape>, n: nat) -> Seq<Seq<char>>
    decreases n,
{
    if n == 0 {
        Seq::empty()
    } else if list_name(params[n - 1]) is Some {
        udtf_call_args(params, (n - 1) as nat)
    } else {
        udtf_call_args(params, (n - 1) as nat).push(calls::call_arg(params[n - 1], (n - 1) as nat))
    }
}

/// Writes the declarations of a table function's arguments, and the expressions that hand
/// them on.
pub fn emit_udtf_param_marshal(params: &Vec<ParamShape>, sql_name: &str, i: &str) -> (r: (
    String,
    Vec<String>,
))
    requires
        params_wired(params@),
    ensures
        r.0@ == udtf_decls(params@, sql_name@, i@, params@.len()),
        text::strs(r.1@) == udtf_call_args(params@, params@.len()),
{
    let mut s = String::new();
    let mut args: Vec<String> = Vec::new();
    let mut idx: usize = 0;
    assert(text::strs(args@) =~= Seq::<Seq<char>>::empty());
    while idx < params.len()
        invariant
            idx <= params@.len(),
            params_wired(params@),
            s@ == udtf_decls(params@, sql_name@, i@, idx as nat),
            text::strs(args@) == udtf_call_args(params@, idx as nat),
        decreases params.len() - idx,
    {
        let p = &params[idx];
        match name_list(p) {
            Some(_) => {
                let line = fill2(t::UDTF_LIST_UNWIRED, "i", i, "sql_name", sql_name);
                s.append(line.as_str());
            },
            None => {
                let decl = render_arg_decl(p, idx, false, sql_name, i);
                s.append(decl.as_str());
                let arg = calls::render_call_arg(p, idx);
                let ghost was = text::strs(args@);
                let ghost added = arg@;
                args.push(arg);
                assert(text::strs(args@) =~= was.push(added));
            },
        }
        idx = idx + 1;
    }
    (s, args)
}

/// What stands in front of the value of a field and behind it, and what the value is made from.
/// A field that cannot be handed on is null.
pub open spec fn field_texts(shape: UdtfFieldShape) -> (Seq<char>, Seq<char>, Seq<char>) {
    let none = t::UDTF_FIELD_OPTION_END@;
    match shape {
        UdtfFieldShape::Int => (""@, "__row.{snake} as i64"@, ""@),
        UdtfFieldShape::Real => (""@, "__row.{snake} as f64"@, ""@),
        UdtfFieldShape::Text => (""@, "__row.{snake}.clone()"@, ""@),
        UdtfFieldShape::Blob => (""@, "__row.{snake}.clone()"@, ""@),
        UdtfFieldShape::GeomBlob => (""@, "__row.{snake}.as_wkb()"@, ""@),
        UdtfFieldShape::OptionInt => (t::UDTF_FIELD_OPTION@, "v as i64"@, none),
        UdtfFieldShape::OptionReal => (t::UDTF_FIELD_OPTION@, "v as f64"@, none),
        UdtfFieldShape::OptionText => (t::UDTF_FIELD_OPTION_REF@, "v.clone()"@, none),
        UdtfFieldShape::OptionBlob => (t::UDTF_FIELD_OPTION_REF@, "v.clone()"@, none),
        UdtfFieldShape::OptionGeomBlob => (t::UDTF_FIELD_OPTION_REF@, "v.as_wkb()"@, none),
        UdtfFieldShape::Unsupported => ("types::Duckvalue::Null"@, ""@, ""@),
    }
}

fn pick_field_texts(shape: UdtfFieldShape) -> (r: (&'static str, &'static str, &'static str))
    ensures
        (r.0@, r.1@, r.2@) == field_texts(shape),
{
    let none = t::UDTF_FIELD_OPTION_END;
    match shape {
        UdtfFieldShape::Int => ("", "__row.{snake} as i64", ""),
        UdtfFieldShape::Real => ("", "__row.{snake} as f64", ""),
        UdtfFieldShape::Text => ("", "__row.{snake}.clone()", ""),
        UdtfFieldShape::Blob => ("", "__row.{snake}.clone()", ""),
        UdtfFieldShape::GeomBlob => ("", "__row.{snake}.as_wkb()", ""),
        UdtfFieldShape::OptionInt => (t::UDTF_FIELD_OPTION, "v as i64", none),
        UdtfFieldShape::OptionReal => (t::UDTF_FIELD_OPTION, "v as f64", none),
        UdtfFieldShape::OptionText => (t::UDTF_FIELD_OPTION_REF, "v.clone()", none),
        UdtfFieldShape::OptionBlob => (t::UDTF_FIELD_OPTION_REF, "v.clone()", none),
        UdtfFieldShape::OptionGeomBlob => (t::UDTF_FIELD_OPTION_REF, "v.as_wkb()", none),
        UdtfFieldShape::Unsupported => ("types::Duckvalue::Null", "", ""),
    }
}

/// The DuckDB value made of a field of a row.
pub open spec fn field_expr(f: UdtfField) -> Seq<char> {
    let holes = seq![("snake"@, words::snake(f.name@))];
    let texts = field_texts(f.field_shape);
    if f.field_shape is Unsupported {
        texts.0
    } else {
        text::fill(texts.0, holes) + values::made(
            values::field_kind(f.field_shape),
            text::fill(texts.1, holes),
        ) + texts.2
    }
}

fn render_field_expr(f: &UdtfField) -> (r: String)
    ensures
        r@ == field_expr(*f),
{
    let texts = pick_field_texts(f.field_shape);
    if let UdtfFieldShape::Unsupported = f.field_shape {
        return texts.0.to_owned();
    }
    let snake = to_snake(f.name.as_str());
    let head = fill1(texts.0, "snake", snake.as_str());
    let source = fill1(texts.1, "snake", snake.as_str());
    let value = values::render_made(values::pick_field_kind(f.field_shape), source.as_str());
    cat3(head.as_str(), value.as_str(), texts.2)
}

/// The DuckDB values made of the fields of a row.
pub open spec fn field_exprs(fields: Seq<UdtfField>) -> Seq<Seq<char>> {
    fields.map_values(|f: UdtfField| field_expr(f))
}

fn list_field_exprs(fields: &Vec<UdtfField>) -> (r: Vec<String>)
    ensures
        text::strs(r@) == field_exprs(fields@),
{
    let mut r: Vec<String> = Vec::new();
    let mut k: usize = 0;
    while k < fields.len()
        invariant
            k <= fields@.len(),
            r@.len() == k,
            forall|j: int| 0 <= j < k ==> #[trigger] r@[j]@ == field_expr(fields@[j]),
        decreases fields.len() - k,
    {
        r.push(render_field_expr(&fields[k]));
        k = k + 1;
    }
    assert(text::strs(r@) =~= field_exprs(fields@));
    r
}

/// The value of a row of one plain column is made from this.
pub open spec fn primitive_source(affinity: ColumnAffinity) -> Seq<char> {
    match affinity {
        ColumnAffinity::Integer => "*__v as i64"@,
        ColumnAffinity::Real => "*__v as f64"@,
        ColumnAffinity::Text => "__v.clone()"@,
        ColumnAffinity::Blob => "__v.clone()"@,
    }
}

/// The value of a row of one column.
pub open spec fn single_value(row: UdtfOutputRow) -> Seq<char> {
    match row {
        UdtfOutputRow::SinglePrimitive { affinity } => values::made(
            values::affinity_kind(affinity),
            primitive_source(affinity),
        ),
        _ => values::made(ValueKind::Blob, "__g.as_wkb()"@),
    }
}

/// The text that turns what a table function returned into rows of DuckDB values.
pub open spec fn rows_text(row: UdtfOutputRow, sql_name: Seq<char>, i: Seq<char>) -> Seq<char> {
    match row {
        UdtfOutputRow::SingleGeom { .. } => text::fill(t::UDTF_SINGLE_GEOM@, seq![("i"@, i)])
            + single_value(row) + text::fill(t::UDTF_SINGLE_END@, seq![("i"@, i)]),
        UdtfOutputRow::SinglePrimitive { affinity } => text::fill(
            t::UDTF_SINGLE_PRIMITIVE@,
            seq![("i"@, i)],
        ) + single_value(row) + text::fill(t::UDTF_SINGLE_END@, seq![("i"@, i)]),
        UdtfOutputRow::Record { fields } => text::fill(
            t::UDTF_RECORD@,
            seq![("i"@, i), ("row_block"@, words::joined(field_exprs(fields@), ", "@))],
        ),
        UdtfOutputRow::Unwired { reason } => text::fill(
            t::UDTF_ROW_UNWIRED@,
            seq![("i"@, i), ("sql_name"@, sql_name), ("r"@, words::escaped(reason@))],
        ),
    }
}

fn render_rows(row: &UdtfOutputRow, sql_name: &str, i: &str) -> (r: String)
    ensures
        r@ == rows_text(*row, sql_name@, i@),
{
    match row {
        UdtfOutputRow::SingleGeom { .. } => {
            let head = fill1(t::UDTF_SINGLE_GEOM, "i", i);
            let value = values::render_made(ValueKind::Blob, "__g.as_wkb()");
            let tail = fill1(t::UDTF_SINGLE_END, "i", i);
            cat3(head.as_str(), value.as_str(), tail.as_str())
        },
        UdtfOutputRow::SinglePrimitive { affinity } => {
            let source = match affinity {
                ColumnAffinity::Integer => "*__v as i64",
                ColumnAffinity::Real => "*__v as f64",
                ColumnAffinity::Text => "__v.clone()",
                ColumnAffinity::Blob => "__v.clone()",
            };
            let head = fill1(t::UDTF_SINGLE_PRIMITIVE, "i", i);
            let value = values::render_made(values::pick_affinity_kind(*affinity), source);
            let tail = fill1(t::UDTF_SINGLE_END, "i", i);
            cat3(head.as_str(), value.as_str(), tail.as_str())
        },
        UdtfOutputRow::Record { fields } => {
            let exprs = list_field_exprs(fields);
            let block = join(&exprs, ", ");
            fill2(t::UDTF_RECORD, "i", i, "row_block", block.as_str())
        },
        UdtfOutputRow::Unwired { reason } => {
            let escaped = escape_quotes(reason.as_str());
            fill3(t::UDTF_ROW_UNWIRED, "i", i, "sql_name", sql_name, "r", escaped.as_str())
        },
    }
}

/// The arm of a table function. A list among the parameters turns the whole arm into an error
/// that names the first of them.
pub open spec fn udtf_call_body(shape: UdtfShape, sql_name: Seq<char>, i: Seq<char>) -> Seq<char> {
    let params = shape.params@;
    let idx = first_list_from(params, 0);
    if idx < params.len() {
        text::fill(
            t::UDTF_PARAM_UNWIRED@,
            seq![
                ("i"@, i),
                ("idx"@, words::decimal(idx as nat)),
                ("sql_name"@, sql_name),
                ("shape_name"@, list_name(params[idx])->0),
            ],
        )
    } else {
        udtf_decls(params, sql_name, i, params.len()) + text::fill(
            t::UDTF_CALL@,
            seq![
                ("i"@, i),
                ("module"@, shape.wit_module@),
                ("func"@, shape.wit_func@),
                ("call_args_str"@, words::joined(udtf_call_args(params, params.len()), ", "@)),
                ("unwrap"@, unwrap_chain(shape.fallible, sql_name)),
            ],
        ) + rows_text(shape.output_row, sql_name, i)
    }
}

/// Writes the arm of a table function, which returns all rows at once.
pub fn emit_udtf_call_body(shape: &UdtfShape, sql_name: &str, arm_indent: &str) -> (r: String)
    requires
        params_wired(shape.params@),
    ensures
        r@ == udtf_call_body(*shape, sql_name@, arm_indent@),
{
    let mut idx: usize = 0;
    while idx < shape.params.len()
        invariant
            idx <= shape.params@.len(),
            first_list_from(shape.params@, 0) == first_list_from(shape.params@, idx as int),
        decreases shape.params.len() - idx,
    {
        if let Some(name) = name_list(&shape.params[idx]) {
            let n = decimal_usize(idx);
            return fill4(
                t::UDTF_PARAM_UNWIRED,
                "i",
                arm_indent,
                "idx",
                n.as_str(),
                "sql_name",
                sql_name,
                "shape_name",
                name,
            );
        }
        idx = idx + 1;
    }
    let (mut s, args) = emit_udtf_param_marshal(&shape.params, sql_name, arm_indent);
    let args = join(&args, ", ");
    let unwrap = render_unwrap_chain(shape.fallible, sql_name);
    let call = fill5(
        t::UDTF_CALL,
        "i",
        arm_indent,
        "module",
        shape.wit_module.as_str(),
        "func",
        shape.wit_func.as_str(),
        "call_args_str",
        args.as_str(),
        "unwrap",
        unwrap.as_str(),
    );
    s.append(call.as_str());
    let rows = render_rows(&shape.output_row, sql_name, arm_indent);
    s.append(rows.as_str());
    s
}

// ─── Window functions ───

/// The text that reads one extra argument of a window function out of the first row: it stands
/// one column behind its own position.
pub open spec fn window_extra_reading(p: ParamShape, j: nat, sql_name: Seq<char>) -> Seq<char> {
    values::reader(p) + text::fill(
        t::WINDOW_EXTRA_READ@,
        seq![("arg_idx"@, words::decimal((j + 1) as nat)), ("sql_name"@, sql_name)],
    )
}

/// The text that takes one extra argument of a window function.
pub open spec fn window_extra_decl(p: ParamShape, j: nat, sql_name: Seq<char>, i: Seq<char>) -> Seq<
    char,
> {
    text::fill(t::WINDOW_EXTRA@, seq![("i"@, i), ("j"@, words::decimal(j))]) + window_extra_reading(
        p,
        j,
        sql_name,
    ) + values::narrowed(p)
}

fn render_window_extra_decl(p: &ParamShape, j: usize, sql_name: &str, i: &str) -> (r: String)
    requires
        j < usize::MAX,
    ensures
        r@ == window_extra_decl(*p, j as nat, sql_name@, i@),
{
    let number = decimal_usize(j);
    let column = decimal_usize(j + 1);
    let head = fill2(t::WINDOW_EXTRA, "i", i, "j", number.as_str());
    let reader = values::render_reader(p);
    let read = fill2(
        t::WINDOW_EXTRA_READ,
        "arg_idx",
        column.as_str(),
        "sql_name",
        sql_name,
    );
    let reading = cat(reader.as_str(), read.as_str());
    cat3(head.as_str(), reading.as_str(), values::pick_narrowed(p))
}

/// Whether a window function can take an extra argument of this shape.
pub open spec fn window_extra_wired(p: ParamShape) -> bool {
    match p {
        ParamShape::F64
        | ParamShape::S32
        | ParamShape::S64
        | ParamShape::U32
        | ParamShape::U64
        | ParamShape::Bool => true,
        _ => false,
    }
}

fn is_window_extra_wired(p: &ParamShape) -> (r: bool)
    ensures
        r == window_extra_wired(*p),
{
    match p {
        ParamShape::F64
        | ParamShape::S32
        | ParamShape::S64
        | ParamShape::U32
        | ParamShape::U64
        | ParamShape::Bool => true,
        _ => false,
    }
}

/// The position of the first extra argument, at `k` or later, of a shape that window functions
/// do not take, or the number of extra arguments.
pub open spec fn unwired_window_extra_from(extras: Seq<ParamShape>, k: int) -> int
    decreases extras.len() - k,
{
    if k >= extras.len() || !window_extra_wired(extras[k]) {
        k
    } else {
        unwired_window_extra_from(extras, k + 1)
    }
}

/// The declarations of the first `n` extra arguments of a window function.
pub open spec fn window_extra_decls(
    extras: Seq<ParamShape>,
    sql_name: Seq<char>,
    i: Seq<char>,
    n: nat,
) -> Seq<char>
    decreases n,
{
    if n == 0 {
        Seq::empty()
    } else {
        window_extra_decls(extras, sql_name, i, (n - 1) as nat) + window_extra_decl(
            extras[n - 1],
            (n - 1) as nat,
            sql_name,
            i,
        )
    }
}

/// What stands behind the geometries in the call of a window function.
pub open spec fn window_call_extras(extras: Seq<ParamShape>) -> Seq<char> {
    if extras.len() == 0 {
        Seq::empty()
    } else {
        ", "@ + words::joined(calls::call_extras(extras, "__extra"@), ", "@)
    }
}

/// What stands in front of the value of a label and behind it, and what the value is made from.
pub open spec fn window_ret_texts(ret: WindowReturn) -> (Seq<char>, Seq<char>, Seq<char>) {
    match ret {
        WindowReturn::OptionU32 => (
            t::WINDOW_RET_OPTION@,
            "__id as i64"@,
            t::WINDOW_RET_OPTION_END@,
        ),
        WindowReturn::U32 => (t::WINDOW_RET@, "__labels[__row_ix] as i64"@, t::WINDOW_RET_END@),
        WindowReturn::GeomBlob => (
            t::WINDOW_RET@,
            "__labels[__row_ix].as_wkb().into()"@,
            t::WINDOW_RET_END@,
        ),
    }
}

/// The text that turns the label of a row into a DuckDB value.
pub open spec fn window_return(ret: WindowReturn, i: Seq<char>) -> Seq<char> {
    let texts = window_ret_texts(ret);
    text::fill(texts.0, seq![("i"@, i)]) + values::made(values::window_kind(ret), texts.1)
        + text::fill(texts.2, seq![("i"@, i)])
}

fn render_window_return(ret: WindowReturn, i: &str) -> (r: String)
    ensures
        r@ == window_return(ret, i@),
{
    let texts = match ret {
        WindowReturn::OptionU32 => (t::WINDOW_RET_OPTION, "__id as i64", t::WINDOW_RET_OPTION_END),
        WindowReturn::U32 => (t::WINDOW_RET, "__labels[__row_ix] as i64", t::WINDOW_RET_END),
        WindowReturn::GeomBlob => (
            t::WINDOW_RET,
            "__labels[__row_ix].as_wkb().into()",
            t::WINDOW_RET_END,
        ),
    };
    let head = fill1(texts.0, "i", i);
    let value = values::render_made(values::pick_window_kind(ret), texts.1);
    let tail = fill1(texts.2, "i", i);
    cat3(head.as_str(), value.as_str(), tail.as_str())
}

/// The arm of a window function: decode the partition's geometries, take the extra arguments
/// from its first row, call once, and pick the label of the frame's last row. An extra argument
/// of a shape that window functions do not take turns the whole arm into an error.
pub open spec fn window_arm_body(shape: WindowShape, sql_name: Seq<char>, i: Seq<char>) -> Seq<char> {
    let extras = shape.extra_args@;
    let j = unwired_window_extra_from(extras, 0);
    if j < extras.len() {
        text::fill(
            t::WINDOW_EXTRA_UNWIRED@,
            seq![("i"@, i), ("j"@, words::decimal(j as nat)), ("sql_name"@, sql_name)],
        )
    } else {
        text::fill(t::WINDOW_EMPTY@, seq![("i"@, i)]) + text::fill(
            t::WINDOW_GEOMS@,
            seq![("i"@, i), ("sql_name"@, sql_name)],
        ) + window_extra_decls(extras, sql_name, i, extras.len()) + text::fill(
            t::WINDOW_CALL@,
            seq![
                ("i"@, i),
                ("module"@, shape.wit_module@),
                ("func"@, shape.wit_func@),
                ("call_extras_lit"@, window_call_extras(extras)),
                (
                    "map_err"@,
                    if shape.fallible {
                        text::fill(t::WINDOW_MAP_ERR@, seq![("sql_name"@, sql_name)])
                    } else {
                        Seq::empty()
                    },
                ),
            ],
        ) + text::fill(t::WINDOW_PICK@, seq![("i"@, i)]) + window_return(shape.returns, i)
    }
}

/// Writes the arm of a window function.
pub fn emit_window_arm_body(shape: &WindowShape, sql_name: &str, arm_indent: &str) -> (r: String)
    ensures
        r@ == window_arm_body(*shape, sql_name@, arm_indent@),
{
    let i = arm_indent;
    let mut decls = String::new();
    let mut j: usize = 0;
    while j < shape.extra_args.len()
        invariant
            j <= shape.extra_args@.len(),
            i == arm_indent,
            unwired_window_extra_from(shape.extra_args@, 0) == unwired_window_extra_from(
                shape.extra_args@,
                j as int,
            ),
            decls@ == window_extra_decls(shape.extra_args@, sql_name@, i@, j as nat),
        decreases shape.extra_args.len() - j,
    {
        if !is_window_extra_wired(&shape.extra_args[j]) {
            let number = decimal_usize(j);
            return fill3(
                t::WINDOW_EXTRA_UNWIRED,
                "i",
                i,
                "j",
                number.as_str(),
                "sql_name",
                sql_name,
            );
        }
        let decl = render_window_extra_decl(&shape.extra_args[j], j, sql_name, i);
        decls.append(decl.as_str());
        j = j + 1;
    }
    let extras = if shape.extra_args.len() == 0 {
        String::new()
    } else {
        let list = calls::list_call_extras(&shape.extra_args, "__extra");
        let rest = join(&list, ", ");
        cat(", ", rest.as_str())
    };
    let map_err = if shape.fallible {
        fill1(t::WINDOW_MAP_ERR, "sql_name", sql_name)
    } else {
        String::new()
    };
    let mut s = fill1(t::WINDOW_EMPTY, "i", i);
    let geoms = fill2(t::WINDOW_GEOMS, "i", i, "sql_name", sql_name);
    s.append(geoms.as_str());
    s.append(decls.as_str());
    let call = fill5(
        t::WINDOW_CALL,
        "i",
        i,
        "module",
        shape.wit_module.as_str(),
        "func",
        shape.wit_func.as_str(),
        "call_extras_lit",
        extras.as_str(),
        "map_err",
        map_err.as_str(),
    );
    s.append(call.as_str());
    let pick = fill1(t::WINDOW_PICK, "i", i);
    s.append(pick.as_str());
    let ret = render_window_return(shape.returns, i);
    s.append(ret.as_str());
    s
}

} // verus!
