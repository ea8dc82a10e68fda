//! What there is to report of a bridge that was emitted.

use vstd::prelude::*;
use vstd::string::*;

use crate::duckdb::register::UnwiredCast;
use crate::ir::{UnwiredScalar, WindowEntry};
use crate::text::{self, fill1, fill2, fill3};
use crate::words::{self, decimal_usize};

verus! {

pub const UNWIRED_TOTAL: &'static str = "[duckdb-target] {total} {kind} not wired:";

pub const UNWIRED_LINE: &'static str = "  - {sql_name}: {reason}";

pub const WINDOW_TOTAL: &'static str = "[duckdb-target] {total} window function(s) wired via aggregate-incr-dispatch (#661):";

pub const WINDOW_LINE: &'static str = "  - {sql_name}";

pub const CAST_TOTAL: &'static str = "[duckdb-target] {total} cast(s) not wired (function not in scalar registry):";

pub const CAST_LINE: &'static str = "  - CAST(<{source_kind}> AS {target_type}) -> {function_name}";

/// A kind of function.
#[derive(Clone, Copy, PartialEq, Eq, Structural)]
pub enum FunctionKind {
    Scalar,
    Aggregate,
    Table,
    Window,
}

impl FunctionKind {
    /// How a number of such functions is called.
    pub open spec fn words(self) -> Seq<char> {
        match self {
            FunctionKind::Scalar => "scalar(s)"@,
            FunctionKind::Aggregate => "aggregate(s)"@,
            FunctionKind::Table => "table function(s)"@,
            FunctionKind::Window => "window function(s)"@,
        }
    }

    /// How a number of such functions is called.
    pub fn label(&self) -> (r: &'static str)
        ensures
            r@ == self.words(),
    {
        match self {
            FunctionKind::Scalar => "scalar(s)",
            FunctionKind::Aggregate => "aggregate(s)",
            FunctionKind::Table => "table function(s)",
            FunctionKind::Window => "window function(s)",
        }
    }
}

/// A heading and the lines under it; nothing where there are no lines.
pub open spec fn under_heading(heading: Seq<char>, lines: Seq<Seq<char>>) -> Seq<Seq<char>> {
    if lines.len() == 0 {
        Seq::empty()
    } else {
        seq![heading] + lines
    }
}

/// What is reported of the functions of a kind that got no arm: their number, then a line for
/// each.
pub open spec fn unwired_lines(kind: FunctionKind, all: Seq<UnwiredScalar>) -> Seq<Seq<char>> {
    under_heading(
        text::fill(
            UNWIRED_TOTAL@,
            seq![("total"@, words::decimal(all.len())), ("kind"@, kind.words())],
        ),
        all.map_values(
            |u: UnwiredScalar|
                text::fill(UNWIRED_LINE@, seq![("sql_name"@, u.sql_name@), ("reason"@, u.reason@)]),
        ),
    )
}

/// Lists what is reported of the functions of a kind that got no arm.
pub fn report_unwired(kind: FunctionKind, all: &Vec<UnwiredScalar>) -> (r: Vec<String>)
    ensures
        text::strs(r@) == unwired_lines(kind, all@),
{
    let mut r: Vec<String> = Vec::new();
    if all.len() == 0 {
        assert(text::strs(r@) =~= Seq::<Seq<char>>::empty());
        return r;
    }
    let total = decimal_usize(all.len());
    r.push(fill2(UNWIRED_TOTAL, "total", total.as_str(), "kind", kind.label()));
    let mut k: usize = 0;
    while k < all.len()
        invariant
            k <= all@.len(),
            all@.len() > 0,
            r@.len() == k + 1,
            forall|j: int| 0 <= j <= k ==> #[trigger] r@[j]@ == unwired_lines(kind, all@)[j],
        decreases all.len() - k,
    {
        let u = &all[k];
        r.push(
            fill2(UNWIRED_LINE, "sql_name", u.sql_name.as_str(), "reason", u.reason.as_str()),
        );
        k = k + 1;
    }
    assert(text::strs(r@) =~= unwired_lines(kind, all@));
    r
}

/// What is reported of the window functions: their number, then a line for each.
pub open spec fn window_lines(entries: Seq<WindowEntry>) -> Seq<Seq<char>> {
    under_heading(
        text::fill(WINDOW_TOTAL@, seq![("total"@, words::decimal(entries.len()))]),
        entries.map_values(
            |e: WindowEntry| text::fill(WINDOW_LINE@, seq![("sql_name"@, e.sql_name@)]),
        ),
    )
}

/// Lists what is reported of the window functions.
pub fn report_windows(entries: &Vec<WindowEntry>) -> (r: Vec<String>)
    ensures
        text::strs(r@) == window_lines(entries@),
{
    let mut r: Vec<String> = Vec::new();
    if entries.len() == 0 {
        assert(text::strs(r@) =~= Seq::<Seq<char>>::empty());
        return r;
    }
    let total = decimal_usize(entries.len());
    r.push(fill1(WINDOW_TOTAL, "total", total.as_str()));
    let mut k: usize = 0;
    while k < entries.len()
        invariant
            k <= entries@.len(),
            entries@.len() > 0,
            r@.len() == k + 1,
            forall|j: int| 0 <= j <= k ==> #[trigger] r@[j]@ == window_lines(entries@)[j],
        decreases entries.len() - k,
    {
        r.push(fill1(WINDOW_LINE, "sql_name", entries[k].sql_name.as_str()));
        k = k + 1;
    }
    assert(text::strs(r@) =~= window_lines(entries@));
    r
}

/// What is reported of the casts to functions without an arm: their number, then a line for each.
pub open spec fn cast_lines(casts: Seq<UnwiredCast>) -> Seq<Seq<char>> {
    under_heading(
        text::fill(CAST_TOTAL@, seq![("total"@, words::decimal(casts.len()))]),
        casts.map_values(
            |c: UnwiredCast|
                text::fill(
                    CAST_LINE@,
                    seq![
                        ("source_kind"@, c.source_kind@),
                        ("target_type"@, c.target_type@),
                        ("function_name"@, c.function_name@),
                    ],
                ),
        ),
    )
}

/// Lists what is reported of the casts to functions without an arm.
pub fn report_casts(casts: &Vec<UnwiredCast>) -> (r: Vec<String>)
    ensures
        text::strs(r@) == cast_lines(casts@),
{
    let mut r: Vec<String> = Vec::new();
    if casts.len() == 0 {
        assert(text::strs(r@) =~= Seq::<Seq<char>>::empty());
        return r;
    }
    let total = decimal_usize(casts.len());
    r.push(fill1(CAST_TOTAL, "total", total.as_str()));
    let mut k: usize = 0;
    while k < casts.len()
        invariant
            k <= casts@.len(),
            casts@.len() > 0,
            r@.len() == k + 1,
            forall|j: int| 0 <= j <= k ==> #[trigger] r@[j]@ == cast_lines(casts@)[j],
        decreases casts.len() - k,
    {
        let c = &casts[k];
        r.push(
            fill3(
                CAST_LINE,
                "source_kind",
                c.source_kind.as_str(),
                "target_type",
                c.target_type.as_str(),
                "function_name",
                c.function_name.as_str(),
            ),
        );
        k = k + 1;
    }
    assert(text::strs(r@) =~= cast_lines(casts@));
    r
}

} // verus!
