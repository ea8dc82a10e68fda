//! What the reports say.

use vstd::prelude::*;
use vstd::string::*;

use crate::duckdb::register::UnwiredCast;
use crate::duckdb::reports::{self, FunctionKind};
use crate::ir::{UnwiredScalar, WindowEntry};
use crate::text;
use crate::words;

verus! {

/// Nothing is reported of a kind of which every function is wired. Else the first line tells how many
/// of the kind are not, and behind it stands one line for each, in their order, with its name and the
/// reason.
pub proof fn law_unwired_reported(kind: FunctionKind, all: Seq<UnwiredScalar>, k: int)
    ensures
        ({
            let lines = reports::unwired_lines(kind, all);
            let name = match kind {
                FunctionKind::Scalar => "scalar(s)"@,
                FunctionKind::Aggregate => "aggregate(s)"@,
                FunctionKind::Table => "table function(s)"@,
                FunctionKind::Window => "window function(s)"@,
            };
            &&& all.len() == 0 ==> lines.len() == 0
            &&& all.len() > 0 ==> lines.len() == all.len() + 1 && lines[0] == "[duckdb-target] "@
                + words::decimal(all.len()) + " "@ + name + " not wired:"@
            &&& 0 <= k < all.len() ==> lines[k + 1] == "  - "@ + all[k].sql_name@ + ": "@ + all[k].reason@
        }),
{
    lemma_unwired_total(words::decimal(all.len()), kind.words());
    if 0 <= k < all.len() {
        lemma_unwired_line(all[k].sql_name@, all[k].reason@);
    }
}

/// The same holds of the window functions and of the casts that are reported.
pub proof fn law_windows_and_casts_reported(
    entries: Seq<WindowEntry>,
    casts: Seq<UnwiredCast>,
    k: int,
)
    ensures
        ({
            let lines = reports::window_lines(entries);
            &&& entries.len() == 0 ==> lines.len() == 0
            &&& entries.len() > 0 ==> lines.len() == entries.len() + 1 && lines[0] == "[duckdb-target] "@
                + words::decimal(entries.len())
                + " window function(s) wired via aggregate-incr-dispatch (#661):"@
            &&& 0 <= k < entries.len() ==> lines[k + 1] == "  - "@ + entries[k].sql_name@
        }),
        ({
            let lines = reports::cast_lines(casts);
            &&& casts.len() == 0 ==> lines.len() == 0
            &&& casts.len() > 0 ==> lines.len() == casts.len() + 1 && lines[0] == "[duckdb-target] "@
                + words::decimal(casts.len())
                + " cast(s) not wired (function not in scalar registry):"@
            &&& 0 <= k < casts.len() ==> lines[k + 1]
                == "  - CAST(<"@ + casts[k].source_kind@ + "> AS "@ + casts[k].target_type@ + ") -> "@
                    + casts[k].function_name@
        }),
{
    lemma_window_total(words::decimal(entries.len()));
    lemma_cast_total(words::decimal(casts.len()));
    if 0 <= k < entries.len() {
        lemma_window_line(entries[k].sql_name@);
    }
    if 0 <= k < casts.len() {
        lemma_cast_line(casts[k].source_kind@, casts[k].target_type@, casts[k].function_name@);
    }
}

proof fn lemma_holes_total_kind(total: Seq<char>, kind: Seq<char>)
    ensures
        ({
            let b = seq![("total"@, total), ("kind"@, kind)];
            &&& text::lookup_from(b, "total"@, 0) == total
            &&& text::lookup_from(b, "kind"@, 0) == kind
        }),
{
    reveal_strlit("total");
    reveal_strlit("kind");
    reveal_with_fuel(text::lookup_from, 3);
    assert("total"@.len() != "kind"@.len());
}

proof fn lemma_holes_sql_name_reason(sql_name: Seq<char>, reason: Seq<char>)
    ensures
        ({
            let b = seq![("sql_name"@, sql_name), ("reason"@, reason)];
            &&& text::lookup_from(b, "sql_name"@, 0) == sql_name
            &&& text::lookup_from(b, "reason"@, 0) == reason
        }),
{
    reveal_strlit("sql_name");
    reveal_strlit("reason");
    reveal_with_fuel(text::lookup_from, 3);
    assert("sql_name"@.len() != "reason"@.len());
}

proof fn lemma_holes_total(total: Seq<char>)
    ensures
        ({
            let b = seq![("total"@, total)];
            &&& text::lookup_from(b, "total"@, 0) == total
        }),
{
    reveal_strlit("total");
    reveal_with_fuel(text::lookup_from, 2);

}

proof fn lemma_holes_sql_name(sql_name: Seq<char>)
    ensures
        ({
            let b = seq![("sql_name"@, sql_name)];
            &&& text::lookup_from(b, "sql_name"@, 0) == sql_name
        }),
{
    reveal_strlit("sql_name");
    reveal_with_fuel(text::lookup_from, 2);

}

proof fn lemma_holes_source_kind_target_type_function_name(
    source_kind: Seq<char>,
    target_type: Seq<char>,
    function_name: Seq<char>,
)
    ensures
        ({
            let b = seq![("source_kind"@, source_kind), ("target_type"@, target_type), ("function_name"@, function_name)];
            &&& text::lookup_from(b, "source_kind"@, 0) == source_kind
            &&& text::lookup_from(b, "target_type"@, 0) == target_type
            &&& text::lookup_from(b, "function_name"@, 0) == function_name
        }),
{
    reveal_strlit("source_kind");
    reveal_strlit("target_type");
    reveal_strlit("function_name");
    reveal_with_fuel(text::lookup_from, 4);
    assert("source_kind"@[0] != "target_type"@[0]);
    assert("source_kind"@.len() != "function_name"@.len());
    assert("target_type"@.len() != "function_name"@.len());
}

proof fn lemma_unwired_total(total: Seq<char>, kind: Seq<char>)
    ensures
        text::fill(reports::UNWIRED_TOTAL@, seq![("total"@, total), ("kind"@, kind)])
            == "[duckdb-target] "@ + total + " "@ + kind + " not wired:"@,
{
    let s = reports::UNWIRED_TOTAL@;
    let b = seq![("total"@, total), ("kind"@, kind)];
    reveal_strlit("[duckdb-target] {total} {kind} not wired:");
    reveal_with_fuel(text::plain_to, 31);
    lemma_holes_total_kind(total, kind);
    reveal_strlit("[duckdb-target] ");
    assert(s.subrange(0, 16) =~= "[duckdb-target] "@);
    text::lemma_fill_run(s, b, 0, "[duckdb-target] "@);
    reveal_strlit("total");
    assert(s.subrange(17, 22) =~= "total"@);
    text::lemma_fill_hole(s, b, 16, "total"@);
    reveal_strlit(" ");
    assert(s.subrange(23, 24) =~= " "@);
    text::lemma_fill_run(s, b, 23, " "@);
    reveal_strlit("kind");
    assert(s.subrange(25, 29) =~= "kind"@);
    text::lemma_fill_hole(s, b, 24, "kind"@);
    reveal_strlit(" not wired:");
    assert(s.subrange(30, 41) =~= " not wired:"@);
    text::lemma_fill_run(s, b, 30, " not wired:"@);
    assert((
        "[duckdb-target] "@
            + (total + (" "@ + (kind + (" not wired:"@ + text::fill_from(s, b, 41)))))
    )
        =~= "[duckdb-target] "@ + total + " "@ + kind + " not wired:"@);
}

proof fn lemma_unwired_line(sql_name: Seq<char>, reason: Seq<char>)
    ensures
        text::fill(reports::UNWIRED_LINE@, seq![("sql_name"@, sql_name), ("reason"@, reason)])
            == "  - "@ + sql_name + ": "@ + reason,
{
    let s = reports::UNWIRED_LINE@;
    let b = seq![("sql_name"@, sql_name), ("reason"@, reason)];
    reveal_strlit("  - {sql_name}: {reason}");
    reveal_with_fuel(text::plain_to, 31);
    lemma_holes_sql_name_reason(sql_name, reason);
    reveal_strlit("  - ");
    assert(s.subrange(0, 4) =~= "  - "@);
    text::lemma_fill_run(s, b, 0, "  - "@);
    reveal_strlit("sql_name");
    assert(s.subrange(5, 13) =~= "sql_name"@);
    text::lemma_fill_hole(s, b, 4, "sql_name"@);
    reveal_strlit(": ");
    assert(s.subrange(14, 16) =~= ": "@);
    text::lemma_fill_run(s, b, 14, ": "@);
    reveal_strlit("reason");
    assert(s.subrange(17, 23) =~= "reason"@);
    text::lemma_fill_hole(s, b, 16, "reason"@);
    assert(("  - "@ + (sql_name + (": "@ + (reason + text::fill_from(s, b, 24)))))
        =~= "  - "@ + sql_name + ": "@ + reason);
}

proof fn lemma_window_total(total: Seq<char>)
    ensures
        text::fill(reports::WINDOW_TOTAL@, seq![("total"@, total)])
            == "[duckdb-target] "@ + total
                + " window function(s) wired via aggregate-incr-dispatch (#661):"@,
{
    let s = reports::WINDOW_TOTAL@;
    let b = seq![("total"@, total)];
    reveal_strlit("[duckdb-target] {total} window function(s) wired via aggregate-incr-dispatch (#661):");
    reveal_with_fuel(text::plain_to, 31);
    lemma_holes_total(total);
    reveal_strlit("[duckdb-target] ");
    assert(s.subrange(0, 16) =~= "[duckdb-target] "@);
    text::lemma_fill_run(s, b, 0, "[duckdb-target] "@);
    reveal_strlit("total");
    assert(s.subrange(17, 22) =~= "total"@);
    text::lemma_fill_hole(s, b, 16, "total"@);
    reveal_strlit(" window function(s) wired via ");
    assert(s.subrange(23, 53) =~= " window function(s) wired via "@);
    text::lemma_fill_run(s, b, 23, " window function(s) wired via "@);
    reveal_strlit("aggregate-incr-dispatch (#661)");
    assert(s.subrange(53, 83) =~= "aggregate-incr-dispatch (#661)"@);
    text::lemma_fill_run(s, b, 53, "aggregate-incr-dispatch (#661)"@);
    reveal_strlit(":");
    assert(s.subrange(83, 84) =~= ":"@);
    text::lemma_fill_run(s, b, 83, ":"@);
    reveal_strlit(" window function(s) wired via aggregate-incr-dispatch (#661):");
    assert((
        "[duckdb-target] "@
            + (
                total
                    + (
                        " window function(s) wired via "@
                            + (
                                "aggregate-incr-dispatch (#661)"@
                                    + (":"@ + text::fill_from(s, b, 84))
                            )
                    )
            )
    )
        =~= "[duckdb-target] "@ + total
            + " window function(s) wired via aggregate-incr-dispatch (#661):"@);
}

proof fn lemma_window_line(sql_name: Seq<char>)
    ensures
        text::fill(reports::WINDOW_LINE@, seq![("sql_name"@, sql_name)]) == "  - "@ + sql_name,
{
    let s = reports::WINDOW_LINE@;
    let b = seq![("sql_name"@, sql_name)];
    reveal_strlit("  - {sql_name}");
    reveal_with_fuel(text::plain_to, 31);
    lemma_holes_sql_name(sql_name);
    reveal_strlit("  - ");
    assert(s.subrange(0, 4) =~= "  - "@);
    text::lemma_fill_run(s, b, 0, "  - "@);
    reveal_strlit("sql_name");
    assert(s.subrange(5, 13) =~= "sql_name"@);
    text::lemma_fill_hole(s, b, 4, "sql_name"@);
    assert(("  - "@ + (sql_name + text::fill_from(s, b, 14))) =~= "  - "@ + sql_name);
}

proof fn lemma_cast_total(total: Seq<char>)
    ensures
        text::fill(reports::CAST_TOTAL@, seq![("total"@, total)])
            == "[duckdb-target] "@ + total + " cast(s) not wired (function not in scalar registry):"@,
{
    let s = reports::CAST_TOTAL@;
    let b = seq![("total"@, total)];
    reveal_strlit("[duckdb-target] {total} cast(s) not wired (function not in scalar registry):");
    reveal_with_fuel(text::plain_to, 31);
    lemma_holes_total(total);
    reveal_strlit("[duckdb-target] ");
    assert(s.subrange(0, 16) =~= "[duckdb-target] "@);
    text::lemma_fill_run(s, b, 0, "[duckdb-target] "@);
    reveal_strlit("total");
    assert(s.subrange(17, 22) =~= "total"@);
    text::lemma_fill_hole(s, b, 16, "total"@);
    reveal_strlit(" cast(s) not wired (function n");
    assert(s.subrange(23, 53) =~= " cast(s) not wired (function n"@);
    text::lemma_fill_run(s, b, 23, " cast(s) not wired (function n"@);
    reveal_strlit("ot in scalar registry):");
    assert(s.subrange(53, 76) =~= "ot in scalar registry):"@);
    text::lemma_fill_run(s, b, 53, "ot in scalar registry):"@);
    reveal_strlit(" cast(s) not wired (function not in scalar registry):");
    assert((
        "[duckdb-target] "@
            + (
                total
                    + (
                        " cast(s) not wired (function n"@
                            + ("ot in scalar registry):"@ + text::fill_from(s, b, 76))
                    )
            )
    )
        =~= "[duckdb-target] "@ + total + " cast(s) not wired (function not in scalar registry):"@);
}

proof fn lemma_cast_line(source_kind: Seq<char>, target_type: Seq<char>, function_name: Seq<char>)
    ensures
        text::fill(
            reports::CAST_LINE@,
            seq![("source_kind"@, source_kind), ("target_type"@, target_type), ("function_name"@, function_name)],
        )
            == "  - CAST(<"@ + source_kind + "> AS "@ + target_type + ") -> "@ + function_name,
{
    let s = reports::CAST_LINE@;
    let b = seq![("source_kind"@, source_kind), ("target_type"@, target_type), ("function_name"@, function_name)];
    reveal_strlit("  - CAST(<{source_kind}> AS {target_type}) -> {function_name}");
    reveal_with_fuel(text::plain_to, 31);
    lemma_holes_source_kind_target_type_function_name(source_kind, target_type, function_name);
    reveal_strlit("  - CAST(<");
    assert(s.subrange(0, 10) =~= "  - CAST(<"@);
    text::lemma_fill_run(s, b, 0, "  - CAST(<"@);
    reveal_strlit("source_kind");
    assert(s.subrange(11, 22) =~= "source_kind"@);
    text::lemma_fill_hole(s, b, 10, "source_kind"@);
    reveal_strlit("> AS ");
    assert(s.subrange(23, 28) =~= "> AS "@);
    text::lemma_fill_run(s, b, 23, "> AS "@);
    reveal_strlit("target_type");
    assert(s.subrange(29, 40) =~= "target_type"@);
    text::lemma_fill_hole(s, b, 28, "target_type"@);
    reveal_strlit(") -> ");
    assert(s.subrange(41, 46) =~= ") -> "@);
    text::lemma_fill_run(s, b, 41, ") -> "@);
    reveal_strlit("function_name");
    assert(s.subrange(47, 60) =~= "function_name"@);
    text::lemma_fill_hole(s, b, 46, "function_name"@);
    assert((
        "  - CAST(<"@
            + (
                source_kind
                    + (
                        "> AS "@
                            + (
                                target_type
                                    + (") -> "@ + (function_name + text::fill_from(s, b, 61)))
                            )
                    )
            )
    )
        =~= "  - CAST(<"@ + source_kind + "> AS "@ + target_type + ") -> "@ + function_name);
}

} // verus!
