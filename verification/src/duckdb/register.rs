//! The functions that register what a bridge offers with DuckDB.
//!
//! A scalar, aggregate, window or table function is registered once for each name. The number
//! that it is registered under is that of its dispatch arm: how many different names stand
//! before it.

use vstd::prelude::*;
use vstd::string::*;

use crate::duckdb::handle_table::{self, Family};
use crate::duckdb::register_templates as t;
use crate::ir::{
    self, AccKind, AggregateEntry, AggregateShape, BridgePlan, CastRewrite, ColumnAffinity,
    DispatchEntry, Extension, ListPrimElem, ParamShape, RetShape, ScalarFn, UdtfEntry, UdtfField,
    UdtfFieldShape, UdtfOutputRow, WindowEntry, WindowReturn,
};
use crate::text::{self, cat3, fill2, fill4, fill5, same};
use crate::words::{self, decimal_usize, escape_quotes, is_fresh, to_upper_text};

verus! {

// ─── Logical types ───

/// The logical type that DuckDB sees of a parameter.
pub open spec fn param_logical(p: ParamShape) -> Seq<char> {
    match p {
        ParamShape::Bool => "types::Logicaltype::Boolean"@,
        ParamShape::S32
        | ParamShape::S64
        | ParamShape::U32
        | ParamShape::U64
        | ParamShape::Enum { .. } => "types::Logicaltype::Int64"@,
        ParamShape::F64 => "types::Logicaltype::Float64"@,
        ParamShape::Blob
        | ParamShape::Geom
        | ParamShape::Geog
        | ParamShape::Raster
        | ParamShape::Topology
        | ParamShape::ListGeom => "types::Logicaltype::Blob"@,
        ParamShape::WitValueRecord { .. } => "types::Logicaltype::Complex(\"VARCHAR\".into())"@,
        _ => "types::Logicaltype::Text"@,
    }
}

/// Writes the logical type that DuckDB sees of a parameter: numbers as the widest of their
/// kind, an enum as the number of its case, resources as blobs, lists as JSON text, and records
/// as a complex value that resolves as text.
pub fn paramshape_to_logicaltype(p: &ParamShape) -> (r: String)
    ensures
        r@ == param_logical(*p),
{
    match p {
        ParamShape::Bool => "types::Logicaltype::Boolean".to_owned(),
        ParamShape::S32
        | ParamShape::S64
        | ParamShape::U32
        | ParamShape::U64
        | ParamShape::Enum { .. } => "types::Logicaltype::Int64".to_owned(),
        ParamShape::F64 => "types::Logicaltype::Float64".to_owned(),
        ParamShape::Blob
        | ParamShape::Geom
        | ParamShape::Geog
        | ParamShape::Raster
        | ParamShape::Topology
        | ParamShape::ListGeom => "types::Logicaltype::Blob".to_owned(),
        ParamShape::WitValueRecord { .. } => {
            "types::Logicaltype::Complex(\"VARCHAR\".into())".to_owned()
        },
        _ => "types::Logicaltype::Text".to_owned(),
    }
}

/// The logical type that DuckDB sees of a result.
pub open spec fn ret_logical(r: RetShape) -> Seq<char> {
    match r {
        RetShape::Real
        | RetShape::OptionReal
        | RetShape::FirstReal => "types::Logicaltype::Float64"@,
        RetShape::Int
        | RetShape::OptionInt
        | RetShape::FirstOptionU32Int
        | RetShape::FirstInt
        | RetShape::Enum { .. }
        | RetShape::OptionEnum { .. } => "types::Logicaltype::Int64"@,
        RetShape::BoolInt | RetShape::OptionBoolInt => "types::Logicaltype::Boolean"@,
        RetShape::Text
        | RetShape::OptionText
        | RetShape::FirstText
        | RetShape::IsValidDetailText
        | RetShape::JsonText { .. }
        | RetShape::ListBool
        | RetShape::ListListU8 => "types::Logicaltype::Text"@,
        RetShape::TuplePick { index, elem } => match elem {
            ListPrimElem::F64 | ListPrimElem::F32 => "types::Logicaltype::Float64"@,
            ListPrimElem::Bool => "types::Logicaltype::Boolean"@,
            ListPrimElem::String => "types::Logicaltype::Text"@,
            _ => "types::Logicaltype::Int64"@,
        },
        RetShape::WitValueRecord { .. }
        | RetShape::OptionWitValueRecord { .. }
        | RetShape::FirstWitValueRecord {
            ..
        } => "types::Logicaltype::Complex(\"VARCHAR\".into())"@,
        _ => "types::Logicaltype::Blob"@,
    }
}

/// Writes the logical type that DuckDB sees of a result.
pub fn retshape_to_logicaltype(r: &RetShape) -> (s: String)
    ensures
        s@ == ret_logical(*r),
{
    match r {
        RetShape::Real | RetShape::OptionReal | RetShape::FirstReal => {
            "types::Logicaltype::Float64".to_owned()
        },
        RetShape::Int
        | RetShape::OptionInt
        | RetShape::FirstOptionU32Int
        | RetShape::FirstInt
        | RetShape::Enum { .. }
        | RetShape::OptionEnum { .. } => "types::Logicaltype::Int64".to_owned(),
        RetShape::BoolInt | RetShape::OptionBoolInt => "types::Logicaltype::Boolean".to_owned(),
        RetShape::Text
        | RetShape::OptionText
        | RetShape::FirstText
        | RetShape::IsValidDetailText
        | RetShape::JsonText { .. }
        | RetShape::ListBool
        | RetShape::ListListU8 => "types::Logicaltype::Text".to_owned(),
        RetShape::TuplePick { index: _, elem } => match elem {
            ListPrimElem::F64 | ListPrimElem::F32 => "types::Logicaltype::Float64".to_owned(),
            ListPrimElem::Bool => "types::Logicaltype::Boolean".to_owned(),
            ListPrimElem::String => "types::Logicaltype::Text".to_owned(),
            _ => "types::Logicaltype::Int64".to_owned(),
        },
        RetShape::WitValueRecord { .. }
        | RetShape::OptionWitValueRecord { .. }
        | RetShape::FirstWitValueRecord { .. } => {
            "types::Logicaltype::Complex(\"VARCHAR\".into())".to_owned()
        },
        _ => "types::Logicaltype::Blob".to_owned(),
    }
}

/// One argument of a registration.
pub open spec fn func_arg(number: nat, logical: Seq<char>) -> Seq<char> {
    text::fill(t::FUNC_ARG@, seq![("i"@, words::decimal(number)), ("logical"@, logical)])
}

/// The first `n` arguments of a registration, numbered from `base` on.
pub open spec fn func_args(params: Seq<ParamShape>, base: nat, n: nat) -> Seq<char>
    decreases n,
{
    if n == 0 {
        Seq::empty()
    } else {
        func_args(params, base, (n - 1) as nat) + func_arg(
            (base + n - 1) as nat,
            param_logical(params[n - 1]),
        )
    }
}

fn render_func_arg(number: usize, logical: &str) -> (r: String)
    ensures
        r@ == func_arg(number as nat, logical@),
{
    let n = decimal_usize(number);
    fill2(t::FUNC_ARG, "i", n.as_str(), "logical", logical)
}

fn render_func_args(params: &Vec<ParamShape>) -> (r: String)
    ensures
        r@ == func_args(params@, 0, params@.len()),
{
    let mut r = String::new();
    let mut k: usize = 0;
    while k < params.len()
        invariant
            k <= params@.len(),
            r@ == func_args(params@, 0, k as nat),
        decreases params.len() - k,
    {
        let logical = paramshape_to_logicaltype(&params[k]);
        let arg = render_func_arg(k, logical.as_str());
        r.append(arg.as_str());
        k = k + 1;
    }
    r
}

/// The arguments of an aggregate's or a window function's registration: the column of blobs
/// that is accumulated, then the extra arguments.
pub open spec fn streamed_args(extras: Seq<ParamShape>) -> Seq<char> {
    func_arg(0, "types::Logicaltype::Blob"@) + func_args(extras, 1, extras.len())
}

fn render_streamed_args(extras: &Vec<ParamShape>) -> (r: String)
    ensures
        r@ == streamed_args(extras@),
{
    let mut rest = String::new();
    let mut k: usize = 0;
    while k < extras.len()
        invariant
            k <= extras@.len(),
            rest@ == func_args(extras@, 1, k as nat),
        decreases extras.len() - k,
    {
        let logical = paramshape_to_logicaltype(&extras[k]);
        let arg = render_func_arg(k + 1, logical.as_str());
        rest.append(arg.as_str());
        k = k + 1;
    }
    let mut r = render_func_arg(0, "types::Logicaltype::Blob");
    r.append(rest.as_str());
    r
}

// ─── Scalars ───

/// What a scalar function says of `name`, where the function bears it: whether it is
/// deterministic.
pub open spec fn says_deterministic(f: ScalarFn, name: Seq<char>) -> Option<bool> {
    if f.canonical_name@ == name || text::strs(f.aliases@).contains(name) {
        Some(f.is_deterministic)
    } else {
        None
    }
}

/// What the last of the first `n` scalar functions that bears `name` says of it.
pub open spec fn said_by_scalars(scalars: Seq<ScalarFn>, name: Seq<char>, n: nat) -> Option<bool>
    decreases n,
{
    if n == 0 {
        None
    } else {
        match says_deterministic(scalars[n - 1], name) {
            Some(b) => Some(b),
            None => said_by_scalars(scalars, name, (n - 1) as nat),
        }
    }
}

/// What the last scalar function of the first `n` extensions that bears `name` says of it.
pub open spec fn said_by_extensions(extensions: Seq<Extension>, name: Seq<char>, n: nat) -> Option<
    bool,
>
    decreases n,
{
    if n == 0 {
        None
    } else {
        let scalars = extensions[n - 1].scalars@;
        match said_by_scalars(scalars, name, scalars.len()) {
            Some(b) => Some(b),
            None => said_by_extensions(extensions, name, (n - 1) as nat),
        }
    }
}

/// Whether the scalar function `name` is deterministic: the last function of the plan that
/// bears the name decides, and one that is not in the plan is.
pub open spec fn deterministic(plan: BridgePlan, name: Seq<char>) -> bool {
    match said_by_extensions(plan.extensions@, name, plan.extensions@.len()) {
        Some(b) => b,
        None => true,
    }
}

fn is_deterministic(plan: &BridgePlan, name: &str) -> (r: bool)
    ensures
        r == deterministic(*plan, name@),
{
    let mut n: usize = plan.extensions.len();
    while n > 0
        invariant
            n <= plan.extensions@.len(),
            said_by_extensions(plan.extensions@, name@, plan.extensions@.len())
                == said_by_extensions(plan.extensions@, name@, n as nat),
        decreases n,
    {
        let scalars = &plan.extensions[n - 1].scalars;
        let mut m: usize = scalars.len();
        while m > 0
            invariant
                0 < n <= plan.extensions@.len(),
                m <= scalars@.len(),
                scalars@ == plan.extensions@[n - 1].scalars@,
                said_by_extensions(plan.extensions@, name@, plan.extensions@.len())
                    == said_by_extensions(plan.extensions@, name@, n as nat),
                said_by_scalars(scalars@, name@, scalars@.len()) == said_by_scalars(
                    scalars@,
                    name@,
                    m as nat,
                ),
            decreases m,
        {
            let f = &scalars[m - 1];
            if same(f.canonical_name.as_str(), name) || words::has(&f.aliases, name) {
                return f.is_deterministic;
            }
            m = m - 1;
        }
        n = n - 1;
    }
    true
}

/// The attributes of a registered function.
pub open spec fn attributes(deterministic: bool) -> Seq<char> {
    if deterministic {
        "types::Funcflags::DETERMINISTIC | types::Funcflags::STATELESS"@
    } else {
        "types::Funcflags::STATELESS"@
    }
}

fn pick_attributes(deterministic: bool) -> (r: &'static str)
    ensures
        r@ == attributes(deterministic),
{
    if deterministic {
        "types::Funcflags::DETERMINISTIC | types::Funcflags::STATELESS"
    } else {
        "types::Funcflags::STATELESS"
    }
}

/// The registration that puts a new handle into the table of a family; `rest` is what follows.
pub open spec fn registered_in(family: Family, rest: Seq<char>) -> Seq<char> {
    t::TAKE_HANDLE@ + handle_table::lookup(family) + rest
}

fn render_registered_in(family: Family, rest: &str) -> (r: String)
    ensures
        r@ == registered_in(family, rest@),
{
    cat3(t::TAKE_HANDLE, handle_table::pick_lookup(family), rest)
}

/// The registration of one scalar or aggregate.
pub open spec fn registration(
    family: Family,
    template: Seq<char>,
    arm_idx: nat,
    sql_name: Seq<char>,
    args: Seq<char>,
    ret: RetShape,
    deterministic: bool,
) -> Seq<char> {
    registered_in(
        family,
        text::fill(
            template,
            seq![
                ("arm_idx"@, words::decimal(arm_idx)),
                ("sql_name"@, words::escaped(sql_name)),
                ("args_block"@, args),
                ("attrs"@, attributes(deterministic)),
                ("ret_logical"@, ret_logical(ret)),
            ],
        ),
    )
}

fn render_registration(
    family: Family,
    template: &str,
    arm_idx: usize,
    sql_name: &str,
    args: &str,
    ret: &RetShape,
    deterministic: bool,
) -> (r: String)
    ensures
        r@ == registration(
            family,
            template@,
            arm_idx as nat,
            sql_name@,
            args@,
            *ret,
            deterministic,
        ),
{
    let number = decimal_usize(arm_idx);
    let name = escape_quotes(sql_name);
    let logical = retshape_to_logicaltype(ret);
    let rest = fill5(
        template,
        "arm_idx",
        number.as_str(),
        "sql_name",
        name.as_str(),
        "args_block",
        args,
        "attrs",
        pick_attributes(deterministic),
        "ret_logical",
        logical.as_str(),
    );
    render_registered_in(family, rest.as_str())
}

/// The registrations of the first `n` scalars, one for each name.
pub open spec fn scalar_registrations(
    plan: BridgePlan,
    entries: Seq<(DispatchEntry, bool)>,
    n: nat,
) -> Seq<char>
    decreases n,
{
    if n == 0 {
        Seq::empty()
    } else {
        let names = ir::scalar_names(entries);
        let before = scalar_registrations(plan, entries, (n - 1) as nat);
        if words::fresh(names, n - 1) {
            let e = entries[n - 1].0;
            before + registration(
                Family::Scalar,
                t::SCALAR_REGISTRATION@,
                words::count_fresh(names, (n - 1) as nat),
                e.sql_name@,
                func_args(e.shape.params@, 0, e.shape.params@.len()),
                e.shape.ret,
                deterministic(plan, e.sql_name@),
            )
        } else {
            before
        }
    }
}

/// Writes `register_scalars`.
pub fn render(plan: &BridgePlan, scalar_entries: &Vec<(DispatchEntry, bool)>) -> (r: String)
    ensures
        r@ == t::SCALAR_PRELUDE@ + scalar_registrations(
            *plan,
            scalar_entries@,
            scalar_entries@.len(),
        ) + t::CLOSING@,
{
    let names = ir::list_scalar_names(scalar_entries);
    let ghost seen = ir::scalar_names(scalar_entries@);
    let mut body = String::new();
    let mut arm_idx: usize = 0;
    let mut k: usize = 0;
    while k < scalar_entries.len()
        invariant
            k <= scalar_entries@.len(),
            arm_idx <= k,
            names@.len() == scalar_entries@.len(),
            text::strs(names@) == seen,
            seen == ir::scalar_names(scalar_entries@),
            arm_idx == words::count_fresh(seen, k as nat),
            body@ == scalar_registrations(*plan, scalar_entries@, k as nat),
        decreases scalar_entries.len() - k,
    {
        if is_fresh(&names, k) {
            let e = &scalar_entries[k].0;
            let args = render_func_args(&e.shape.params);
            let det = is_deterministic(plan, e.sql_name.as_str());
            let one = render_registration(
                Family::Scalar,
                t::SCALAR_REGISTRATION,
                arm_idx,
                e.sql_name.as_str(),
                args.as_str(),
                &e.shape.ret,
                det,
            );
            body.append(one.as_str());
            arm_idx = arm_idx + 1;
        }
        k = k + 1;
    }
    cat3(t::SCALAR_PRELUDE, body.as_str(), t::CLOSING)
}

// ─── Aggregates ───

/// Whether an aggregate is offered to DuckDB: those that accumulate records are not.
pub open spec fn aggregate_offered(shape: AggregateShape) -> bool {
    shape.accumulator_kind is Geom || shape.accumulator_kind is Raster
}

/// The registrations of the first `n` names of aggregates, one for each name that is offered.
pub open spec fn aggregate_registrations(entries: Seq<AggregateEntry>, n: nat) -> Seq<char>
    decreases n,
{
    if n == 0 {
        Seq::empty()
    } else {
        let all = ir::aggregate_names(entries);
        let names = ir::firsts(all);
        let before = aggregate_registrations(entries, (n - 1) as nat);
        let shape = entries[all[n - 1].1].shape;
        if words::fresh(names, n - 1) && aggregate_offered(shape) {
            before + registration(
                Family::Aggregate,
                t::AGGREGATE_REGISTRATION@,
                words::count_fresh(names, (n - 1) as nat),
                all[n - 1].0,
                streamed_args(shape.extra_args@),
                shape.ret,
                true,
            )
        } else {
            before
        }
    }
}

/// Writes `register_aggregates`. All aggregates are registered as deterministic, whatever the
/// plan holds.
pub fn render_aggregates(_plan: &BridgePlan, agg_entries: &Vec<AggregateEntry>) -> (r: String)
    ensures
        r@ == t::AGGREGATE_PRELUDE@ + aggregate_registrations(
            agg_entries@,
            ir::aggregate_names(agg_entries@).len(),
        ) + t::CLOSING@,
{
    let (names, at) = ir::list_aggregate_names(agg_entries);
    let ghost all = ir::aggregate_names(agg_entries@);
    let ghost seen = ir::firsts(all);
    let mut body = String::new();
    let mut arm_idx: usize = 0;
    let mut k: usize = 0;
    while k < names.len()
        invariant
            k <= names@.len(),
            arm_idx <= k,
            names@.len() == at@.len(),
            all == ir::aggregate_names(agg_entries@),
            seen == ir::firsts(all),
            ir::named_positions(names@, at@) == all,
            text::strs(names@) == seen,
            forall|j: int| 0 <= j < at@.len() ==> #[trigger] at@[j] < agg_entries@.len(),
            arm_idx == words::count_fresh(seen, k as nat),
            body@ == aggregate_registrations(agg_entries@, k as nat),
        decreases names.len() - k,
    {
        assert(all[k as int] == (names@[k as int]@, at@[k as int] as int));
        if is_fresh(&names, k) {
            let shape = &agg_entries[at[k]].shape;
            let offered = match &shape.accumulator_kind {
                AccKind::Geom | AccKind::Raster => true,
                _ => false,
            };
            if offered {
                let args = render_streamed_args(&shape.extra_args);
                let one = render_registration(
                    Family::Aggregate,
                    t::AGGREGATE_REGISTRATION,
                    arm_idx,
                    names[k].as_str(),
                    args.as_str(),
                    &shape.ret,
                    true,
                );
                body.append(one.as_str());
            }
            arm_idx = arm_idx + 1;
        }
        k = k + 1;
    }
    assert(all.len() == names@.len());
    cat3(t::AGGREGATE_PRELUDE, body.as_str(), t::CLOSING)
}

// ─── Window functions ───

/// The logical type of a window function's result.
pub open spec fn window_logical(returns: WindowReturn) -> Seq<char> {
    match returns {
        WindowReturn::OptionU32 | WindowReturn::U32 => "types::Logicaltype::Int64"@,
        WindowReturn::GeomBlob => "types::Logicaltype::Blob"@,
    }
}

/// The registration of one window function.
pub open spec fn window_registration(e: WindowEntry, arm_idx: nat) -> Seq<char> {
    registered_in(
        Family::Window,
        text::fill(
            t::WINDOW_REGISTRATION@,
            seq![
                ("arm_idx"@, words::decimal(arm_idx)),
                ("sql_name"@, words::escaped(e.sql_name@)),
                ("args_block"@, streamed_args(e.shape.extra_args@)),
                ("ret_logical"@, window_logical(e.shape.returns)),
            ],
        ),
    )
}

/// The registrations of the first `n` window functions, one for each name.
pub open spec fn window_registrations(entries: Seq<WindowEntry>, n: nat) -> Seq<char>
    decreases n,
{
    if n == 0 {
        Seq::empty()
    } else {
        let names = ir::window_names(entries);
        let before = window_registrations(entries, (n - 1) as nat);
        let e = entries[n - 1];
        if words::fresh(names, n - 1) {
            before + window_registration(e, words::count_fresh(names, (n - 1) as nat))
        } else {
            before
        }
    }
}

/// Writes `register_windows`.
pub fn render_windows(window_entries: &Vec<WindowEntry>) -> (r: String)
    ensures
        r@ == t::WINDOW_PRELUDE@ + window_registrations(window_entries@, window_entries@.len())
            + t::CLOSING@,
{
    let names = ir::list_window_names(window_entries);
    let ghost seen = ir::window_names(window_entries@);
    let mut body = String::new();
    let mut arm_idx: usize = 0;
    let mut k: usize = 0;
    while k < window_entries.len()
        invariant
            k <= window_entries@.len(),
            arm_idx <= k,
            names@.len() == window_entries@.len(),
            text::strs(names@) == seen,
            seen == ir::window_names(window_entries@),
            arm_idx == words::count_fresh(seen, k as nat),
            body@ == window_registrations(window_entries@, k as nat),
        decreases window_entries.len() - k,
    {
        if is_fresh(&names, k) {
            let e = &window_entries[k];
            let number = decimal_usize(arm_idx);
            let name = escape_quotes(e.sql_name.as_str());
            let args = render_streamed_args(&e.shape.extra_args);
            let logical = match e.shape.returns {
                WindowReturn::OptionU32 | WindowReturn::U32 => "types::Logicaltype::Int64",
                WindowReturn::GeomBlob => "types::Logicaltype::Blob",
            };
            let rest = fill4(
                t::WINDOW_REGISTRATION,
                "arm_idx",
                number.as_str(),
                "sql_name",
                name.as_str(),
                "args_block",
                args.as_str(),
                "ret_logical",
                logical,
            );
            let one = render_registered_in(Family::Window, rest.as_str());
            body.append(one.as_str());
            arm_idx = arm_idx + 1;
        }
        k = k + 1;
    }
    cat3(t::WINDOW_PRELUDE, body.as_str(), t::CLOSING)
}

// ─── Table functions ───

/// One column of a table function's rows.
pub open spec fn column_def(name: Seq<char>, logical: Seq<char>) -> Seq<char> {
    text::fill(t::COLUMN_DEF@, seq![("col_name"@, name), ("logical"@, logical)])
}

fn render_column_def(name: &str, logical: &str) -> (r: String)
    ensures
        r@ == column_def(name@, logical@),
{
    fill2(t::COLUMN_DEF, "col_name", name, "logical", logical)
}

/// The logical type of a column by its affinity.
pub open spec fn affinity_logical(a: ColumnAffinity) -> Seq<char> {
    match a {
        ColumnAffinity::Integer => "types::Logicaltype::Int64"@,
        ColumnAffinity::Real => "types::Logicaltype::Float64"@,
        ColumnAffinity::Text => "types::Logicaltype::Text"@,
        ColumnAffinity::Blob => "types::Logicaltype::Blob"@,
    }
}

/// The logical type of a column by the shape of its field.
pub open spec fn field_logical(f: UdtfFieldShape) -> Seq<char> {
    match f {
        UdtfFieldShape::Int | UdtfFieldShape::OptionInt => "types::Logicaltype::Int64"@,
        UdtfFieldShape::Real | UdtfFieldShape::OptionReal => "types::Logicaltype::Float64"@,
        UdtfFieldShape::Text | UdtfFieldShape::OptionText => "types::Logicaltype::Text"@,
        _ => "types::Logicaltype::Blob"@,
    }
}

/// The columns of the first `n` fields.
pub open spec fn field_columns(fields: Seq<UdtfField>, n: nat) -> Seq<char>
    decreases n,
{
    if n == 0 {
        Seq::empty()
    } else {
        field_columns(fields, (n - 1) as nat) + column_def(
            words::escaped(fields[n - 1].name@),
            field_logical(fields[n - 1].field_shape),
        )
    }
}

/// The columns of a table function's rows; rows of an unknown shape have one blob.
pub open spec fn columns(row: UdtfOutputRow) -> Seq<char> {
    match row {
        UdtfOutputRow::SingleGeom { column_name } => column_def(
            column_name@,
            "types::Logicaltype::Blob"@,
        ),
        UdtfOutputRow::SinglePrimitive { affinity } => column_def(
            "value"@,
            affinity_logical(affinity),
        ),
        UdtfOutputRow::Record { fields } => field_columns(fields@, fields@.len()),
        UdtfOutputRow::Unwired { .. } => column_def("value"@, "types::Logicaltype::Blob"@),
    }
}

fn render_columns(row: &UdtfOutputRow) -> (r: String)
    ensures
        r@ == columns(*row),
{
    match row {
        UdtfOutputRow::SingleGeom { column_name } => render_column_def(
            column_name.as_str(),
            "types::Logicaltype::Blob",
        ),
        UdtfOutputRow::SinglePrimitive { affinity } => {
            let logical = match affinity {
                ColumnAffinity::Integer => "types::Logicaltype::Int64",
                ColumnAffinity::Real => "types::Logicaltype::Float64",
                ColumnAffinity::Text => "types::Logicaltype::Text",
                ColumnAffinity::Blob => "types::Logicaltype::Blob",
            };
            render_column_def("value", logical)
        },
        UdtfOutputRow::Record { fields } => {
            let mut r = String::new();
            let mut k: usize = 0;
            while k < fields.len()
                invariant
                    k <= fields@.len(),
                    r@ == field_columns(fields@, k as nat),
                decreases fields.len() - k,
            {
                let logical = match fields[k].field_shape {
                    UdtfFieldShape::Int | UdtfFieldShape::OptionInt => "types::Logicaltype::Int64",
                    UdtfFieldShape::Real | UdtfFieldShape::OptionReal => {
                        "types::Logicaltype::Float64"
                    },
                    UdtfFieldShape::Text | UdtfFieldShape::OptionText => "types::Logicaltype::Text",
                    _ => "types::Logicaltype::Blob",
                };
                let name = escape_quotes(fields[k].name.as_str());
                let column = render_column_def(name.as_str(), logical);
                r.append(column.as_str());
                k = k + 1;
            }
            r
        },
        UdtfOutputRow::Unwired { .. } => render_column_def("value", "types::Logicaltype::Blob"),
    }
}

/// The registration of one table function.
pub open spec fn table_registration(e: UdtfEntry, arm_idx: nat) -> Seq<char> {
    registered_in(
        Family::Table,
        text::fill(
            t::TABLE_REGISTRATION@,
            seq![
                ("arm_idx"@, words::decimal(arm_idx)),
                ("sql_name"@, words::escaped(e.sql_name@)),
                ("args_block"@, func_args(e.shape.params@, 0, e.shape.params@.len())),
                ("cols_block"@, columns(e.shape.output_row)),
            ],
        ),
    )
}

/// The registrations of the first `n` table functions, one for each name.
pub open spec fn table_registrations(entries: Seq<UdtfEntry>, n: nat) -> Seq<char>
    decreases n,
{
    if n == 0 {
        Seq::empty()
    } else {
        let names = ir::udtf_names(entries);
        let before = table_registrations(entries, (n - 1) as nat);
        let e = entries[n - 1];
        if words::fresh(names, n - 1) {
            before + table_registration(e, words::count_fresh(names, (n - 1) as nat))
        } else {
            before
        }
    }
}

/// Writes `register_tables`. The plan holds nothing that a registration of a table function
/// tells.
pub fn render_tables(_plan: &BridgePlan, udtf_entries: &Vec<UdtfEntry>) -> (r: String)
    ensures
        r@ == t::TABLE_PRELUDE@ + table_registrations(udtf_entries@, udtf_entries@.len())
            + t::CLOSING@,
{
    let names = ir::list_udtf_names(udtf_entries);
    let ghost seen = ir::udtf_names(udtf_entries@);
    let mut body = String::new();
    let mut arm_idx: usize = 0;
    let mut k: usize = 0;
    while k < udtf_entries.len()
        invariant
            k <= udtf_entries@.len(),
            arm_idx <= k,
            names@.len() == udtf_entries@.len(),
            text::strs(names@) == seen,
            seen == ir::udtf_names(udtf_entries@),
            arm_idx == words::count_fresh(seen, k as nat),
            body@ == table_registrations(udtf_entries@, k as nat),
        decreases udtf_entries.len() - k,
    {
        if is_fresh(&names, k) {
            let e = &udtf_entries[k];
            let number = decimal_usize(arm_idx);
            let name = escape_quotes(e.sql_name.as_str());
            let args = render_func_args(&e.shape.params);
            let cols = render_columns(&e.shape.output_row);
            let rest = fill4(
                t::TABLE_REGISTRATION,
                "arm_idx",
                number.as_str(),
                "sql_name",
                name.as_str(),
                "args_block",
                args.as_str(),
                "cols_block",
                cols.as_str(),
            );
            let one = render_registered_in(Family::Table, rest.as_str());
            body.append(one.as_str());
            arm_idx = arm_idx + 1;
        }
        k = k + 1;
    }
    cat3(t::TABLE_PRELUDE, body.as_str(), t::CLOSING)
}

// ─── Casts ───

/// The position of the first of `names`, at `k` or later, that is `x`, or their number.
pub open spec fn first_named_from(names: Seq<Seq<char>>, x: Seq<char>, k: int) -> int
    decreases names.len() - k,
{
    if k >= names.len() || names[k] == x {
        k
    } else {
        first_named_from(names, x, k + 1)
    }
}

/// The number of the dispatch arm that `x` has among `names`, if it has one.
pub open spec fn arm_of(names: Seq<Seq<char>>, x: Seq<char>) -> Option<nat> {
    let k = first_named_from(names, x, 0);
    if k < names.len() {
        Some(words::count_fresh(names, k as nat))
    } else {
        None
    }
}

fn find_arm(names: &Vec<String>, x: &str) -> (r: Option<usize>)
    ensures
        match r {
            Some(i) => arm_of(text::strs(names@), x@) == Some(i as nat),
            None => arm_of(text::strs(names@), x@) is None,
        },
{
    let ghost all = text::strs(names@);
    let mut arm_idx: usize = 0;
    let mut k: usize = 0;
    while k < names.len()
        invariant
            k <= names@.len(),
            arm_idx <= k,
            all == text::strs(names@),
            arm_idx == words::count_fresh(all, k as nat),
            first_named_from(all, x@, 0) == first_named_from(all, x@, k as int),
        decreases names.len() - k,
    {
        if same(names[k].as_str(), x) {
            return Some(arm_idx);
        }
        if is_fresh(names, k) {
            arm_idx = arm_idx + 1;
        }
        k = k + 1;
    }
    None
}

/// How a cast is declared by the kind of its source: whether implicitly, and from which type.
pub open spec fn cast_source(kind: Seq<char>) -> (Seq<char>, Seq<char>) {
    if kind == "castsourcekind::stringliteral"@ {
        ("Implicit"@, "VARCHAR"@)
    } else if kind == "castsourcekind::geographycolumn"@ {
        ("Explicit"@, "GEOGRAPHY"@)
    } else {
        ("Explicit"@, "BLOB"@)
    }
}

fn pick_cast_source(kind: &str) -> (r: (&'static str, &'static str))
    ensures
        (r.0@, r.1@) == cast_source(kind@),
{
    if same(kind, "castsourcekind::stringliteral") {
        ("Implicit", "VARCHAR")
    } else if same(kind, "castsourcekind::geographycolumn") {
        ("Explicit", "GEOGRAPHY")
    } else {
        ("Explicit", "BLOB")
    }
}

/// The holes of the texts about a cast.
pub open spec fn cast_holes(arm_idx: nat, cast: CastRewrite) -> Seq<text::Binding> {
    seq![
        ("source_kind"@, words::escaped(cast.source_kind@)),
        ("to_type"@, words::upper_text(cast.target_type@)),
        ("fn_name"@, words::escaped(cast.function_name@)),
        ("scalar_arm_idx"@, words::decimal(arm_idx)),
        ("from_type"@, cast_source(cast.source_kind@).1),
        ("kind_variant"@, cast_source(cast.source_kind@).0),
    ]
}

/// The registration of one cast, which forwards to a scalar's arm: its handle goes into the
/// table of scalars.
pub open spec fn cast_registration(arm_idx: nat, cast: CastRewrite) -> Seq<char> {
    text::fill(t::CAST_TAKE_HANDLE@, cast_holes(arm_idx, cast)) + handle_table::lookup(
        Family::Scalar,
    ) + text::fill(t::CAST_REGISTRATION@, cast_holes(arm_idx, cast))
}

fn render_cast_registration(arm_idx: usize, cast: &CastRewrite) -> (r: String)
    ensures
        r@ == cast_registration(arm_idx as nat, *cast),
{
    let (kind_variant, from_type) = pick_cast_source(cast.source_kind.as_str());
    let source_kind = escape_quotes(cast.source_kind.as_str());
    let to_type = to_upper_text(cast.target_type.as_str());
    let fn_name = escape_quotes(cast.function_name.as_str());
    let number = decimal_usize(arm_idx);
    let mut b: Vec<(&str, &str)> = Vec::new();
    b.push(("source_kind", source_kind.as_str()));
    b.push(("to_type", to_type.as_str()));
    b.push(("fn_name", fn_name.as_str()));
    b.push(("scalar_arm_idx", number.as_str()));
    b.push(("from_type", from_type));
    b.push(("kind_variant", kind_variant));
    assert(text::bindings(b@) =~= cast_holes(arm_idx as nat, *cast));
    let take = text::fill_with(t::CAST_TAKE_HANDLE, &b);
    let rest = text::fill_with(t::CAST_REGISTRATION, &b);
    cat3(take.as_str(), handle_table::pick_lookup(Family::Scalar), rest.as_str())
}

/// The registrations of the first `n` casts of an extension; a cast to a function without an
/// arm is left out.
pub open spec fn cast_registrations(names: Seq<Seq<char>>, casts: Seq<CastRewrite>, n: nat) -> Seq<
    char,
>
    decreases n,
{
    if n == 0 {
        Seq::empty()
    } else {
        let before = cast_registrations(names, casts, (n - 1) as nat);
        match arm_of(names, casts[n - 1].function_name@) {
            Some(i) => before + cast_registration(i, casts[n - 1]),
            None => before,
        }
    }
}

/// The registrations of the casts of the first `n` extensions.
pub open spec fn all_cast_registrations(
    names: Seq<Seq<char>>,
    extensions: Seq<Extension>,
    n: nat,
) -> Seq<char>
    decreases n,
{
    if n == 0 {
        Seq::empty()
    } else {
        let casts = extensions[n - 1].cast_rewrites@;
        all_cast_registrations(names, extensions, (n - 1) as nat) + cast_registrations(
            names,
            casts,
            casts.len(),
        )
    }
}

/// A cast to a function without an arm: its target type, the kind of its source and the
/// function.
pub struct UnwiredCast {
    pub target_type: String,
    pub source_kind: String,
    pub function_name: String,
}

/// Whether `u` reports the cast `c`.
pub open spec fn reports(u: UnwiredCast, c: CastRewrite) -> bool {
    u.target_type@ == c.target_type@ && u.source_kind@ == c.source_kind@ && u.function_name@
        == c.function_name@
}

/// The casts among the first `n` of an extension whose function has no arm.
pub open spec fn unwired_casts(names: Seq<Seq<char>>, casts: Seq<CastRewrite>, n: nat) -> Seq<
    CastRewrite,
>
    decreases n,
{
    if n == 0 {
        Seq::empty()
    } else if arm_of(names, casts[n - 1].function_name@) is None {
        unwired_casts(names, casts, (n - 1) as nat).push(casts[n - 1])
    } else {
        unwired_casts(names, casts, (n - 1) as nat)
    }
}

/// The casts of the first `n` extensions whose function has no arm.
pub open spec fn all_unwired_casts(names: Seq<Seq<char>>, extensions: Seq<Extension>, n: nat) -> Seq<
    CastRewrite,
>
    decreases n,
{
    if n == 0 {
        Seq::empty()
    } else {
        let casts = extensions[n - 1].cast_rewrites@;
        all_unwired_casts(names, extensions, (n - 1) as nat) + unwired_casts(
            names,
            casts,
            casts.len(),
        )
    }
}

/// Whether `us` reports the casts `cs`, in order.
pub open spec fn report_all(us: Seq<UnwiredCast>, cs: Seq<CastRewrite>) -> bool {
    us.len() == cs.len() && forall|k: int| 0 <= k < us.len() ==> reports(#[trigger] us[k], cs[k])
}

fn render_casts_of(names: &Vec<String>, casts: &Vec<CastRewrite>, unwired: &mut Vec<UnwiredCast>) -> (r:
    String)
    ensures
        r@ == cast_registrations(text::strs(names@), casts@, casts@.len()),
        final(unwired)@.len() == old(unwired)@.len() + unwired_casts(
            text::strs(names@),
            casts@,
            casts@.len(),
        ).len(),
        final(unwired)@.take(old(unwired)@.len() as int) == old(unwired)@,
        report_all(
            final(unwired)@.skip(old(unwired)@.len() as int),
            unwired_casts(text::strs(names@), casts@, casts@.len()),
        ),
{
    let ghost start = unwired@;
    let ghost all = text::strs(names@);
    let mut r = String::new();
    let mut k: usize = 0;
    assert(unwired@.take(start.len() as int) =~= start);
    while k < casts.len()
        invariant
            k <= casts@.len(),
            all == text::strs(names@),
            r@ == cast_registrations(all, casts@, k as nat),
            unwired@.len() == start.len() + unwired_casts(all, casts@, k as nat).len(),
            unwired@.take(start.len() as int) == start,
            report_all(unwired@.skip(start.len() as int), unwired_casts(all, casts@, k as nat)),
        decreases casts.len() - k,
    {
        let cast = &casts[k];
        match find_arm(names, cast.function_name.as_str()) {
            Some(i) => {
                let one = render_cast_registration(i, cast);
                r.append(one.as_str());
            },
            None => {
                let ghost was = unwired@;
                let u = UnwiredCast {
                    target_type: cast.target_type.clone(),
                    source_kind: cast.source_kind.clone(),
                    function_name: cast.function_name.clone(),
                };
                let ghost added = u;
                unwired.push(u);
                proof {
                    assert(unwired@.take(start.len() as int) =~= was.take(start.len() as int));
                    assert(unwired@.skip(start.len() as int) =~= was.skip(start.len() as int).push(
                        added,
                    ));
                }
            },
        }
        k = k + 1;
    }
    r
}

/// Writes `register_casts`, and lists the casts whose function has no scalar arm.
pub fn render_casts(plan: &BridgePlan, scalar_entries: &Vec<(DispatchEntry, bool)>) -> (r: (
    String,
    Vec<UnwiredCast>,
))
    ensures
        r.0@ == t::CAST_PRELUDE@ + all_cast_registrations(
            ir::scalar_names(scalar_entries@),
            plan.extensions@,
            plan.extensions@.len(),
        ) + t::CLOSING@,
        report_all(
            r.1@,
            all_unwired_casts(
                ir::scalar_names(scalar_entries@),
                plan.extensions@,
                plan.extensions@.len(),
            ),
        ),
{
    let names = ir::list_scalar_names(scalar_entries);
    let ghost all = ir::scalar_names(scalar_entries@);
    let mut unwired: Vec<UnwiredCast> = Vec::new();
    let mut body = String::new();
    let mut k: usize = 0;
    while k < plan.extensions.len()
        invariant
            k <= plan.extensions@.len(),
            all == ir::scalar_names(scalar_entries@),
            text::strs(names@) == all,
            body@ == all_cast_registrations(all, plan.extensions@, k as nat),
            report_all(unwired@, all_unwired_casts(all, plan.extensions@, k as nat)),
        decreases plan.extensions.len() - k,
    {
        let ghost was = unwired@;
        let ghost before = all_unwired_casts(all, plan.extensions@, k as nat);
        let casts = &plan.extensions[k].cast_rewrites;
        let one = render_casts_of(&names, casts, &mut unwired);
        body.append(one.as_str());
        proof {
            let new = unwired_casts(all, casts@, casts@.len());
            let now = before + new;
            assert forall|j: int| 0 <= j < unwired@.len() implies reports(
                #[trigger] unwired@[j],
                now[j],
            ) by {
                if j < was.len() {
                    assert(unwired@[j] == unwired@.take(was.len() as int)[j]);
                    assert(reports(was[j], before[j]));
                } else {
                    let tail = unwired@.skip(was.len() as int);
                    assert(unwired@[j] == tail[j - was.len()]);
                    assert(reports(tail[j - was.len()], new[j - was.len()]));
                }
            }
        }
        k = k + 1;
    }
    (cat3(t::CAST_PRELUDE, body.as_str(), t::CLOSING), unwired)
}

} // verus!
