//! The kinds of DuckDB values: what they are declared as, what they are made with and what
//! reads them.

use vstd::prelude::*;
use vstd::string::*;

use crate::ir::{ColumnAffinity, ListPrimElem, ParamShape, RetShape, UdtfFieldShape, WindowReturn};
use crate::text::cat;
use crate::tuples;
use crate::words::{self, to_snake};

verus! {

/// The kinds of values that a bridge takes and gives.
pub enum ValueKind {
    Boolean,
    Int64,
    Float64,
    Text,
    Blob,
    Complex,
}

/// The logical type that a kind of value is declared as: a complex value resolves as text.
pub open spec fn logical(kind: ValueKind) -> Seq<char> {
    match kind {
        ValueKind::Boolean => "types::Logicaltype::Boolean"@,
        ValueKind::Int64 => "types::Logicaltype::Int64"@,
        ValueKind::Float64 => "types::Logicaltype::Float64"@,
        ValueKind::Text => "types::Logicaltype::Text"@,
        ValueKind::Blob => "types::Logicaltype::Blob"@,
        ValueKind::Complex => "types::Logicaltype::Complex(\"VARCHAR\".into())"@,
    }
}

/// The variant of a kind of value.
pub open spec fn variant(kind: ValueKind) -> Seq<char> {
    match kind {
        ValueKind::Boolean => "types::Duckvalue::Boolean"@,
        ValueKind::Int64 => "types::Duckvalue::Int64"@,
        ValueKind::Float64 => "types::Duckvalue::Float64"@,
        ValueKind::Text => "types::Duckvalue::Text"@,
        ValueKind::Blob => "types::Duckvalue::Blob"@,
        ValueKind::Complex => "types::Duckvalue::Complex"@,
    }
}

/// Writes the variant of a kind of value.
pub fn pick_variant(kind: ValueKind) -> (r: &'static str)
    ensures
        r@ == variant(kind),
{
    match kind {
        ValueKind::Boolean => "types::Duckvalue::Boolean",
        ValueKind::Int64 => "types::Duckvalue::Int64",
        ValueKind::Float64 => "types::Duckvalue::Float64",
        ValueKind::Text => "types::Duckvalue::Text",
        ValueKind::Blob => "types::Duckvalue::Blob",
        ValueKind::Complex => "types::Duckvalue::Complex",
    }
}

// ─── Reading ───

/// The kind of value that an argument is read from: lists are read from JSON text, and the
/// cases of an enum from their numbers.
pub open spec fn read_kind(p: ParamShape) -> ValueKind {
    match p {
        ParamShape::Bool => ValueKind::Boolean,
        ParamShape::S32 => ValueKind::Int64,
        ParamShape::S64 => ValueKind::Int64,
        ParamShape::U32 => ValueKind::Int64,
        ParamShape::U64 => ValueKind::Int64,
        ParamShape::Enum { .. } => ValueKind::Int64,
        ParamShape::F64 => ValueKind::Float64,
        ParamShape::Blob => ValueKind::Blob,
        ParamShape::Geom => ValueKind::Blob,
        ParamShape::Geog => ValueKind::Blob,
        ParamShape::Raster => ValueKind::Blob,
        ParamShape::Topology => ValueKind::Blob,
        ParamShape::ListGeom => ValueKind::Blob,
        ParamShape::WitValueRecord { .. } => ValueKind::Complex,
        _ => ValueKind::Text,
    }
}

/// Tells the kind of value that an argument is read from.
pub fn pick_read_kind(p: &ParamShape) -> (r: ValueKind)
    ensures
        r == read_kind(*p),
{
    match p {
        ParamShape::Bool => ValueKind::Boolean,
        ParamShape::S32 => ValueKind::Int64,
        ParamShape::S64 => ValueKind::Int64,
        ParamShape::U32 => ValueKind::Int64,
        ParamShape::U64 => ValueKind::Int64,
        ParamShape::Enum { .. } => ValueKind::Int64,
        ParamShape::F64 => ValueKind::Float64,
        ParamShape::Blob => ValueKind::Blob,
        ParamShape::Geom => ValueKind::Blob,
        ParamShape::Geog => ValueKind::Blob,
        ParamShape::Raster => ValueKind::Blob,
        ParamShape::Topology => ValueKind::Blob,
        ParamShape::ListGeom => ValueKind::Blob,
        ParamShape::WitValueRecord { .. } => ValueKind::Complex,
        _ => ValueKind::Text,
    }
}

/// The function that reads one value of a kind as it is; for complex values each record has a
/// function of its own.
pub open spec fn plain_reader(kind: ValueKind) -> Seq<char> {
    match kind {
        ValueKind::Boolean => "dv_bool"@,
        ValueKind::Int64 => "dv_i64"@,
        ValueKind::Float64 => "dv_f64"@,
        ValueKind::Text => "dv_text"@,
        ValueKind::Blob => "dv_blob"@,
        ValueKind::Complex => "arg_witvalue"@,
    }
}

fn pick_plain_reader(kind: ValueKind) -> (r: &'static str)
    ensures
        r@ == plain_reader(kind),
{
    match kind {
        ValueKind::Boolean => "dv_bool",
        ValueKind::Int64 => "dv_i64",
        ValueKind::Float64 => "dv_f64",
        ValueKind::Text => "dv_text",
        ValueKind::Blob => "dv_blob",
        ValueKind::Complex => "arg_witvalue",
    }
}

/// The function that reads an argument: the one for its kind of value, but for lists, which
/// have functions that parse JSON text, and for records.
pub open spec fn reader(p: ParamShape) -> Seq<char> {
    match p {
        ParamShape::ListRecord { kebab_name } => "parse_json_list_record_"@ + words::snake(
            kebab_name@,
        ),
        ParamShape::ListPrim(elem) => "parse_json_list_"@ + elem.suffix(),
        ParamShape::ListTuple { elements } => "parse_json_list_tuple_"@ + tuples::tuple_suffix(
            elements@,
        ),
        ParamShape::ListListU8 => "parse_json_list_list_u8"@,
        ParamShape::ListListPrim(elem) => "parse_json_list_list_"@ + elem.suffix(),
        ParamShape::WitValueRecord { kebab_name, upstream_by_value } => "arg_witvalue_"@
            + words::snake(kebab_name@),
        _ => plain_reader(read_kind(p)),
    }
}

/// Writes the name of the function that reads an argument.
pub fn render_reader(p: &ParamShape) -> (r: String)
    ensures
        r@ == reader(*p),
{
    match p {
        ParamShape::ListRecord { kebab_name } => {
            let snake = to_snake(kebab_name.as_str());
            cat("parse_json_list_record_", snake.as_str())
        },
        ParamShape::ListPrim(elem) => cat("parse_json_list_", elem.helper_suffix()),
        ParamShape::ListTuple { elements } => {
            let suffix = tuples::list_tuple_sig_suffix(elements);
            cat("parse_json_list_tuple_", suffix.as_str())
        },
        ParamShape::ListListU8 => "parse_json_list_list_u8".to_owned(),
        ParamShape::ListListPrim(elem) => cat("parse_json_list_list_", elem.helper_suffix()),
        ParamShape::WitValueRecord { kebab_name, upstream_by_value: _ } => {
            let snake = to_snake(kebab_name.as_str());
            cat("arg_witvalue_", snake.as_str())
        },
        _ => pick_plain_reader(pick_read_kind(p)).to_owned(),
    }
}

/// The conversion behind a number that is not read at its own width, and the end of the line.
pub open spec fn narrowed(p: ParamShape) -> Seq<char> {
    match p {
        ParamShape::S32 => " as i32;\n"@,
        ParamShape::U32 => " as u32;\n"@,
        ParamShape::U64 => " as u64;\n"@,
        _ => ";\n"@,
    }
}

/// Writes the conversion behind a number.
pub fn pick_narrowed(p: &ParamShape) -> (r: &'static str)
    ensures
        r@ == narrowed(*p),
{
    match p {
        ParamShape::S32 => " as i32;\n",
        ParamShape::U32 => " as u32;\n",
        ParamShape::U64 => " as u64;\n",
        _ => ";\n",
    }
}

// ─── Making ───

/// A value of a kind, made from an expression.
pub open spec fn made(kind: ValueKind, source: Seq<char>) -> Seq<char> {
    variant(kind) + "("@ + source + ")"@
}

/// Writes a value of a kind, made from an expression.
pub fn render_made(kind: ValueKind, source: &str) -> (r: String)
    ensures
        r@ == made(kind, source@),
{
    let mut r = pick_variant(kind).to_owned();
    r.append("(");
    r.append(source);
    r.append(")");
    r
}

/// The kind of value that a row of one plain column becomes.
pub open spec fn affinity_kind(a: ColumnAffinity) -> ValueKind {
    match a {
        ColumnAffinity::Integer => ValueKind::Int64,
        ColumnAffinity::Real => ValueKind::Float64,
        ColumnAffinity::Text => ValueKind::Text,
        ColumnAffinity::Blob => ValueKind::Blob,
    }
}

/// Tells the kind of value that a row of one plain column becomes.
pub fn pick_affinity_kind(a: ColumnAffinity) -> (r: ValueKind)
    ensures
        r == affinity_kind(a),
{
    match a {
        ColumnAffinity::Integer => ValueKind::Int64,
        ColumnAffinity::Real => ValueKind::Float64,
        ColumnAffinity::Text => ValueKind::Text,
        ColumnAffinity::Blob => ValueKind::Blob,
    }
}

/// The kind of value that a field of a row becomes where it is not null. A field that cannot be
/// handed on, which is always null, counts as a blob.
pub open spec fn field_kind(f: UdtfFieldShape) -> ValueKind {
    match f {
        UdtfFieldShape::Int => ValueKind::Int64,
        UdtfFieldShape::OptionInt => ValueKind::Int64,
        UdtfFieldShape::Real => ValueKind::Float64,
        UdtfFieldShape::OptionReal => ValueKind::Float64,
        UdtfFieldShape::Text => ValueKind::Text,
        UdtfFieldShape::OptionText => ValueKind::Text,
        _ => ValueKind::Blob,
    }
}

/// Tells the kind of value that a field of a row becomes.
pub fn pick_field_kind(f: UdtfFieldShape) -> (r: ValueKind)
    ensures
        r == field_kind(f),
{
    match f {
        UdtfFieldShape::Int => ValueKind::Int64,
        UdtfFieldShape::OptionInt => ValueKind::Int64,
        UdtfFieldShape::Real => ValueKind::Float64,
        UdtfFieldShape::OptionReal => ValueKind::Float64,
        UdtfFieldShape::Text => ValueKind::Text,
        UdtfFieldShape::OptionText => ValueKind::Text,
        _ => ValueKind::Blob,
    }
}

/// The kind of value that the result of a window function becomes where it is not null.
pub open spec fn window_kind(ret: WindowReturn) -> ValueKind {
    match ret {
        WindowReturn::OptionU32 => ValueKind::Int64,
        WindowReturn::U32 => ValueKind::Int64,
        WindowReturn::GeomBlob => ValueKind::Blob,
    }
}

/// Tells the kind of value that the result of a window function becomes.
pub fn pick_window_kind(ret: WindowReturn) -> (r: ValueKind)
    ensures
        r == window_kind(ret),
{
    match ret {
        WindowReturn::OptionU32 => ValueKind::Int64,
        WindowReturn::U32 => ValueKind::Int64,
        WindowReturn::GeomBlob => ValueKind::Blob,
    }
}

/// The kind of value that one element of a tuple becomes.
pub open spec fn element_kind(elem: ListPrimElem) -> ValueKind {
    match elem {
        ListPrimElem::F64 => ValueKind::Float64,
        ListPrimElem::F32 => ValueKind::Float64,
        ListPrimElem::String => ValueKind::Text,
        ListPrimElem::Bool => ValueKind::Boolean,
        _ => ValueKind::Int64,
    }
}

/// Tells the kind of value that one element of a tuple becomes.
pub fn pick_element_kind(elem: &ListPrimElem) -> (r: ValueKind)
    ensures
        r == element_kind(*elem),
{
    match elem {
        ListPrimElem::F64 => ValueKind::Float64,
        ListPrimElem::F32 => ValueKind::Float64,
        ListPrimElem::String => ValueKind::Text,
        ListPrimElem::Bool => ValueKind::Boolean,
        _ => ValueKind::Int64,
    }
}

/// The kind of value that a result becomes where it is not null. A result without a value, and
/// one that no arm is written for, counts as a blob.
pub open spec fn made_kind(ret: RetShape) -> ValueKind {
    match ret {
        RetShape::Text => ValueKind::Text,
        RetShape::OptionText => ValueKind::Text,
        RetShape::FirstText => ValueKind::Text,
        RetShape::IsValidDetailText => ValueKind::Text,
        RetShape::JsonText { .. } => ValueKind::Text,
        RetShape::ListBool => ValueKind::Text,
        RetShape::ListListU8 => ValueKind::Text,
        RetShape::Real => ValueKind::Float64,
        RetShape::OptionReal => ValueKind::Float64,
        RetShape::FirstReal => ValueKind::Float64,
        RetShape::Int => ValueKind::Int64,
        RetShape::OptionInt => ValueKind::Int64,
        RetShape::FirstInt => ValueKind::Int64,
        RetShape::FirstOptionU32Int => ValueKind::Int64,
        RetShape::Enum { .. } => ValueKind::Int64,
        RetShape::BoolInt => ValueKind::Boolean,
        RetShape::OptionBoolInt => ValueKind::Boolean,
        RetShape::TuplePick { index, elem } => element_kind(elem),
        RetShape::WitValueRecord { .. } => ValueKind::Complex,
        RetShape::OptionWitValueRecord { .. } => ValueKind::Complex,
        RetShape::FirstWitValueRecord { .. } => ValueKind::Complex,
        _ => ValueKind::Blob,
    }
}

/// Tells the kind of value that a result becomes where it is not null.
pub fn pick_made_kind(ret: &RetShape) -> (r: ValueKind)
    ensures
        r == made_kind(*ret),
{
    match ret {
        RetShape::Text => ValueKind::Text,
        RetShape::OptionText => ValueKind::Text,
        RetShape::FirstText => ValueKind::Text,
        RetShape::IsValidDetailText => ValueKind::Text,
        RetShape::JsonText { .. } => ValueKind::Text,
        RetShape::ListBool => ValueKind::Text,
        RetShape::ListListU8 => ValueKind::Text,
        RetShape::Real => ValueKind::Float64,
        RetShape::OptionReal => ValueKind::Float64,
        RetShape::FirstReal => ValueKind::Float64,
        RetShape::Int => ValueKind::Int64,
        RetShape::OptionInt => ValueKind::Int64,
        RetShape::FirstInt => ValueKind::Int64,
        RetShape::FirstOptionU32Int => ValueKind::Int64,
        RetShape::Enum { .. } => ValueKind::Int64,
        RetShape::BoolInt => ValueKind::Boolean,
        RetShape::OptionBoolInt => ValueKind::Boolean,
        RetShape::TuplePick { index: _, elem } => pick_element_kind(elem),
        RetShape::WitValueRecord { .. } => ValueKind::Complex,
        RetShape::OptionWitValueRecord { .. } => ValueKind::Complex,
        RetShape::FirstWitValueRecord { .. } => ValueKind::Complex,
        _ => ValueKind::Blob,
    }
}

/// What the value of a result is made with: the variant of its kind, or for a record the
/// function that makes a complex value of it.
pub open spec fn maker(ret: RetShape) -> Seq<char> {
    match ret {
        RetShape::WitValueRecord { kebab_name } => "ret_to_witvalue_"@ + words::snake(kebab_name@),
        RetShape::OptionWitValueRecord { kebab_name } => "ret_to_witvalue_"@ + words::snake(
            kebab_name@,
        ),
        RetShape::FirstWitValueRecord { kebab_name } => "ret_to_witvalue_"@ + words::snake(
            kebab_name@,
        ),
        _ => variant(made_kind(ret)),
    }
}

/// Writes what the value of a result is made with.
pub fn render_maker(ret: &RetShape) -> (r: String)
    ensures
        r@ == maker(*ret),
{
    match ret {
        RetShape::WitValueRecord { kebab_name }
        | RetShape::OptionWitValueRecord { kebab_name }
        | RetShape::FirstWitValueRecord { kebab_name } => {
            let snake = to_snake(kebab_name.as_str());
            cat("ret_to_witvalue_", snake.as_str())
        },
        _ => pick_variant(pick_made_kind(ret)).to_owned(),
    }
}

} // verus!
