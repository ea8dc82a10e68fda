//! What the reports say.

use vstd::prelude::*;
use vstd::string::*;

use crate::ir::{RecordType, UnwiredScalar};
use crate::sqlite::reports;
use crate::text;
use crate::words;

verus! {

/// Nothing is reported where every scalar is wired. Else the first line tells how many are not, and
/// behind it stands one line for each, in their order, with its name and the reason.
pub proof fn law_unwired_reported(all: Seq<UnwiredScalar>, k: int)
    ensures
        ({
            let lines = reports::unwired_lines(all);
            &&& all.len() == 0 ==> lines.len() == 0
            &&& all.len() > 0 ==> lines.len() == all.len() + 1 && lines[0] == "[wasm-target] "@
                + words::decimal(all.len()) + " symbol(s) not wired (Phase 3):"@
            &&& 0 <= k < all.len() ==> lines[k + 1] == "  - "@ + all[k].sql_name@ + ": "@ + all[k].reason@
        }),
{
    lemma_unwired_total(words::decimal(all.len()));
    if 0 <= k < all.len() {
        lemma_unwired_line(all[k].sql_name@, all[k].reason@);
    }
}

/// The number of records that are decoded straight into their types.
pub open spec fn count_direct(records: Seq<RecordType>, n: nat) -> nat
    decreases n,
{
    if n == 0 {
        0
    } else if records[n - 1].direct {
        count_direct(records, (n - 1) as nat) + 1
    } else {
        count_direct(records, (n - 1) as nat)
    }
}

/// The report on records tells how many of them are direct and how many there are, and names those
/// that are not where there are any.
pub proof fn law_direct_reported(records: Seq<RecordType>)
    ensures
        ({
            let lines = reports::direct_lines(records);
            let others = reports::indirect_names(records, records.len());
            let direct = words::decimal(count_direct(records, records.len()));
            let total = words::decimal(records.len());
            &&& records.len() == 0 ==> lines.len() == 0
            &&& records.len() > 0 ==> lines.len() > 0 && lines[0]
                == "[wasm-target] wit-value codec short-circuit (#523): "@ + direct + "/"@ + total
                    + " record(s) decode straight into UPSTREAM (rest keep LOCAL→UPSTREAM ciborium round-trip)"@
            &&& records.len() > 0 && count_direct(records, records.len()) == records.len() ==> lines.len() == 1
            &&& count_direct(records, records.len()) < records.len() ==> lines.len() == 2 && lines[1] == "  - non-direct: "@ + words::joined(others, ", "@)
        }),
        forall|k: int|
            0 <= k < records.len() && !(#[trigger] records[k]).direct
                ==> reports::indirect_names(records, records.len()).contains(
                    records[k].kebab_name@,
                ),
{
    let n = records.len();
    lemma_counted(records, n);
    lemma_direct_total(words::decimal(count_direct(records, n)), words::decimal(n));
    lemma_not_direct(words::joined(reports::indirect_names(records, n), ", "@));
    assert forall|k: int| 0 <= k < n && !(#[trigger] records[k]).direct implies reports::indirect_names(
        records,
        n,
    ).contains(records[k].kebab_name@) by {
        lemma_named(records, n, k);
    }
}

proof fn lemma_counted(records: Seq<RecordType>, n: nat)
    requires
        n <= records.len(),
    ensures
        count_direct(records, n) + reports::indirect_names(records, n).len() == n,
    decreases n,
{
    if n > 0 {
        lemma_counted(records, (n - 1) as nat);
    }
}

proof fn lemma_named(records: Seq<RecordType>, n: nat, k: int)
    requires
        0 <= k < n <= records.len(),
        !records[k].direct,
    ensures
        reports::indirect_names(records, n).contains(records[k].kebab_name@),
    decreases n,
{
    let head = reports::indirect_names(records, (n - 1) as nat);
    let all = reports::indirect_names(records, n);
    if k == n - 1 {
        assert(all[head.len() as int] == records[k].kebab_name@);
    } else {
        lemma_named(records, (n - 1) as nat, k);
        let j = choose|j: int| 0 <= j < head.len() && head[j] == records[k].kebab_name@;
        assert(all[j] == records[k].kebab_name@);
    }
}

proof fn lemma_holes_sql_name_reason(sql_name: Seq<char>, reason: Seq<char>)
    ensures
        ({
            let b = seq![("sql_name"@, sql_name), ("reason"@, reason)];
            &&& text::lookup_from(b, "sql_name"@, 0) == sql_name
            &&& text::lookup_from(b, "reason"@, 0) == reason
        }),
{
    reveal_strlit("sql_name");
    reveal_strlit("reason");
    reveal_with_fuel(text::lookup_from, 3);
    assert("sql_name"@.len() != "reason"@.len());
}

proof fn lemma_holes_total_unwired(total_unwired: Seq<char>)
    ensures
        ({
            let b = seq![("total_unwired"@, total_unwired)];
            &&& text::lookup_from(b, "total_unwired"@, 0) == total_unwired
        }),
{
    reveal_strlit("total_unwired");
    reveal_with_fuel(text::lookup_from, 2);

}

proof fn lemma_holes_direct_total(direct: Seq<char>, total: Seq<char>)
    ensures
        ({
            let b = seq![("direct"@, direct), ("total"@, total)];
            &&& text::lookup_from(b, "direct"@, 0) == direct
            &&& text::lookup_from(b, "total"@, 0) == total
        }),
{
    reveal_strlit("direct");
    reveal_strlit("total");
    reveal_with_fuel(text::lookup_from, 3);
    assert("direct"@.len() != "total"@.len());
}

proof fn lemma_holes_names(names: Seq<char>)
    ensures
        ({
            let b = seq![("names"@, names)];
            &&& text::lookup_from(b, "names"@, 0) == names
        }),
{
    reveal_strlit("names");
    reveal_with_fuel(text::lookup_from, 2);

}

proof fn lemma_unwired_line(sql_name: Seq<char>, reason: Seq<char>)
    ensures
        text::fill(reports::UNWIRED_LINE@, seq![("sql_name"@, sql_name), ("reason"@, reason)])
            == "  - "@ + sql_name + ": "@ + reason,
{
    let s = reports::UNWIRED_LINE@;
    let b = seq![("sql_name"@, sql_name), ("reason"@, reason)];
    reveal_strlit("  - {sql_name}: {reason}");
    reveal_with_fuel(text::plain_to, 31);
    lemma_holes_sql_name_reason(sql_name, reason);
    reveal_strlit("  - ");
    assert(s.subrange(0, 4) =~= "  - "@);
    text::lemma_fill_run(s, b, 0, "  - "@);
    reveal_strlit("sql_name");
    assert(s.subrange(5, 13) =~= "sql_name"@);
    text::lemma_fill_hole(s, b, 4, "sql_name"@);
    reveal_strlit(": ");
    assert(s.subrange(14, 16) =~= ": "@);
    text::lemma_fill_run(s, b, 14, ": "@);
    reveal_strlit("reason");
    assert(s.subrange(17, 23) =~= "reason"@);
    text::lemma_fill_hole(s, b, 16, "reason"@);
    assert(("  - "@ + (sql_name + (": "@ + (reason + text::fill_from(s, b, 24)))))
        =~= "  - "@ + sql_name + ": "@ + reason);
}

proof fn lemma_unwired_total(total_unwired: Seq<char>)
    ensures
        text::fill(reports::UNWIRED_TOTAL@, seq![("total_unwired"@, total_unwired)])
            == "[wasm-target] "@ + total_unwired + " symbol(s) not wired (Phase 3):"@,
{
    let s = reports::UNWIRED_TOTAL@;
    let b = seq![("total_unwired"@, total_unwired)];
    reveal_strlit("[wasm-target] {total_unwired} symbol(s) not wired (Phase 3):");
    reveal_with_fuel(text::plain_to, 31);
    lemma_holes_total_unwired(total_unwired);
    reveal_strlit("[wasm-target] ");
    assert(s.subrange(0, 14) =~= "[wasm-target] "@);
    text::lemma_fill_run(s, b, 0, "[wasm-target] "@);
    reveal_strlit("total_unwired");
    assert(s.subrange(15, 28) =~= "total_unwired"@);
    text::lemma_fill_hole(s, b, 14, "total_unwired"@);
    reveal_strlit(" symbol(s) not wired (Phase 3)");
    assert(s.subrange(29, 59) =~= " symbol(s) not wired (Phase 3)"@);
    text::lemma_fill_run(s, b, 29, " symbol(s) not wired (Phase 3)"@);
    reveal_strlit(":");
    assert(s.subrange(59, 60) =~= ":"@);
    text::lemma_fill_run(s, b, 59, ":"@);
    reveal_strlit(" symbol(s) not wired (Phase 3):");
    assert((
        "[wasm-target] "@
            + (
                total_unwired
                    + (" symbol(s) not wired (Phase 3)"@ + (":"@ + text::fill_from(s, b, 60)))
            )
    )
        =~= "[wasm-target] "@ + total_unwired + " symbol(s) not wired (Phase 3):"@);
}

proof fn lemma_direct_total(direct: Seq<char>, total: Seq<char>)
    ensures
        text::fill(reports::DIRECT_TOTAL@, seq![("direct"@, direct), ("total"@, total)])
            == "[wasm-target] wit-value codec short-circuit (#523): "@ + direct + "/"@ + total
                + " record(s) decode straight into UPSTREAM (rest keep LOCAL→UPSTREAM ciborium round-trip)"@,
{
    let s = reports::DIRECT_TOTAL@;
    let b = seq![("direct"@, direct), ("total"@, total)];
    reveal_strlit("[wasm-target] wit-value codec short-circuit (#523): {direct}/{total} record(s) decode straight into UPSTREAM (rest keep LOCAL→UPSTREAM ciborium round-trip)");
    reveal_with_fuel(text::plain_to, 31);
    lemma_holes_direct_total(direct, total);
    reveal_strlit("[wasm-target] wit-value codec ");
    assert(s.subrange(0, 30) =~= "[wasm-target] wit-value codec "@);
    text::lemma_fill_run(s, b, 0, "[wasm-target] wit-value codec "@);
    reveal_strlit("short-circuit (#523): ");
    assert(s.subrange(30, 52) =~= "short-circuit (#523): "@);
    text::lemma_fill_run(s, b, 30, "short-circuit (#523): "@);
    reveal_strlit("direct");
    assert(s.subrange(53, 59) =~= "direct"@);
    text::lemma_fill_hole(s, b, 52, "direct"@);
    reveal_strlit("/");
    assert(s.subrange(60, 61) =~= "/"@);
    text::lemma_fill_run(s, b, 60, "/"@);
    reveal_strlit("total");
    assert(s.subrange(62, 67) =~= "total"@);
    text::lemma_fill_hole(s, b, 61, "total"@);
    reveal_strlit(" record(s) decode straight int");
    assert(s.subrange(68, 98) =~= " record(s) decode straight int"@);
    text::lemma_fill_run(s, b, 68, " record(s) decode straight int"@);
    reveal_strlit("o UPSTREAM (rest keep LOCAL→UP");
    assert(s.subrange(98, 128) =~= "o UPSTREAM (rest keep LOCAL→UP"@);
    text::lemma_fill_run(s, b, 98, "o UPSTREAM (rest keep LOCAL→UP"@);
    reveal_strlit("STREAM ciborium round-trip)");
    assert(s.subrange(128, 155) =~= "STREAM ciborium round-trip)"@);
    text::lemma_fill_run(s, b, 128, "STREAM ciborium round-trip)"@);
    reveal_strlit("[wasm-target] wit-value codec short-circuit (#523): ");
    reveal_strlit(" record(s) decode straight into UPSTREAM (rest keep LOCAL→UPSTREAM ciborium round-trip)");
    assert((
        "[wasm-target] wit-value codec "@
            + (
                "short-circuit (#523): "@
                    + (
                        direct
                            + (
                                "/"@
                                    + (
                                        total
                                            + (
                                                " record(s) decode straight int"@
                                                    + (
                                                        "o UPSTREAM (rest keep LOCAL→UP"@
                                                            + (
                                                                "STREAM ciborium round-trip)"@
                                                                    + text::fill_from(s, b, 155)
                                                            )
                                                    )
                                            )
                                    )
                            )
                    )
            )
    )
        =~= "[wasm-target] wit-value codec short-circuit (#523): "@ + direct + "/"@ + total
            + " record(s) decode straight into UPSTREAM (rest keep LOCAL→UPSTREAM ciborium round-trip)"@);
}

proof fn lemma_not_direct(names: Seq<char>)
    ensures
        text::fill(reports::NOT_DIRECT@, seq![("names"@, names)]) == "  - non-direct: "@ + names,
{
    let s = reports::NOT_DIRECT@;
    let b = seq![("names"@, names)];
    reveal_strlit("  - non-direct: {names}");
    reveal_with_fuel(text::plain_to, 31);
    lemma_holes_names(names);
    reveal_strlit("  - non-direct: ");
    assert(s.subrange(0, 16) =~= "  - non-direct: "@);
    text::lemma_fill_run(s, b, 0, "  - non-direct: "@);
    reveal_strlit("names");
    assert(s.subrange(17, 22) =~= "names"@);
    text::lemma_fill_hole(s, b, 16, "names"@);
    assert(("  - non-direct: "@ + (names + text::fill_from(s, b, 23))) =~= "  - non-direct: "@ + names);
}

} // verus!
